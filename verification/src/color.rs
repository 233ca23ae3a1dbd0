//! The ANSI colors in which severities are shown.

use vstd::prelude::*;

use crate::level::Level;

verus! {

/// A terminal color.
#[derive(Clone, Copy, Debug, PartialEq, Eq, Structural)]
pub enum Color {
    Red,
    Yellow,
    Blue,
    Green,
    Gray,
}

impl Color {
    /// The escape sequence that switches the terminal to this color.
    pub open spec fn start_code(self) -> Seq<char> {
        match self {
            Color::Red => "\x1b[31m"@,
            Color::Yellow => "\x1b[93m"@,
            Color::Blue => "\x1b[34m"@,
            Color::Green => "\x1b[32m"@,
            Color::Gray => "\x1b[90m"@,
        }
    }

    /// The escape sequence that ends any color.
    pub open spec fn reset_code() -> Seq<char> {
        "\x1b[0m"@
    }

    /// The escape sequences that start this color and end it.
    pub fn ansi(&self) -> (pair: (&'static str, &'static str))
        ensures
            pair.0@ == self.start_code(),
            pair.1@ == Color::reset_code(),
    {
        match self {
            Color::Red => ("\x1b[31m", "\x1b[0m"),
            Color::Yellow => ("\x1b[93m", "\x1b[0m"),
            Color::Blue => ("\x1b[34m", "\x1b[0m"),
            Color::Green => ("\x1b[32m", "\x1b[0m"),
            Color::Gray => ("\x1b[90m", "\x1b[0m"),
        }
    }

    /// The escape sequences that wrap a line of the given severity when
    /// color is on: those of its color, or two empty strings for `Off`.
    pub fn from_level(level: &Level) -> (pair: (&'static str, &'static str))
        ensures
            pair.0@ == level.color_start(true),
            pair.1@ == level.color_end(true),
    {
        match level {
            Level::Error => Color::Red.ansi(),
            Level::Warn => Color::Yellow.ansi(),
            Level::Info => Color::Blue.ansi(),
            Level::Debug => Color::Green.ansi(),
            Level::Trace => Color::Gray.ansi(),
            Level::Off => {
                proof {
                    reveal_strlit("");
                }
                ("", "")
            },
        }
    }
}

} // verus!
