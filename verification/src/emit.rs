//! The decision to emit: the threshold is read, and only a severity that
//! passes it is rendered.

use vstd::prelude::*;

use crate::format::{format_line, line_text};
use crate::level::Level;
use crate::threshold::ThresholdStore;

verus! {

/// Reads the threshold of `store`. Where `severity` passes it, returns the
/// line to hand to the sink; where it does not, returns nothing, and
/// nothing is rendered.
pub fn maybe_emit(
    store: &ThresholdStore,
    severity: Level,
    color_enabled: bool,
    file: &str,
    line: u32,
    message: &str,
) -> (emitted: Option<String>)
    ensures
        emitted is Some <==> severity.passes(store@.threshold),
        emitted matches Some(text) ==> text@ == line_text(
            severity,
            color_enabled,
            file@,
            line as nat,
            message@,
        ),
{
    if store.is_enabled(severity) {
        Some(format_line(severity, color_enabled, file, line, message))
    } else {
        None
    }
}

} // verus!
