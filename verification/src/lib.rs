//! A small leveled logging core: an ordered set of severities, a threshold
//! that decides what is emitted, per-severity ANSI colors, and the exact text
//! of a log line.
//!
//! The library computes and decides; it never writes. A caller hands the
//! line that [`SimpleLogger::log`] or [`maybe_emit`] returns to whatever
//! sink it has.

pub mod color;
pub mod emit;
pub mod error;
pub mod format;
pub mod level;
pub mod logger;
pub mod name;
pub mod threshold;

pub use color::Color;
pub use emit::maybe_emit;
pub use error::LogError;
pub use format::format_line;
pub use level::Level;
pub use logger::{Record, SimpleLogger};
pub use threshold::{set_log_level, ThresholdStore};
