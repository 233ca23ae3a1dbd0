//! What configuring the logger can fail with.

use vstd::prelude::*;

verus! {

/// The two ways in which configuration fails. Formatting and emission
/// never fail.
#[derive(Clone, Copy, Debug, PartialEq, Eq, Structural)]
pub enum LogError {
    /// A severity name that is none of the six known names.
    InvalidConfiguration,
    /// A second attempt to install a logger into a store that has one.
    AlreadyInitialized,
}

} // verus!
