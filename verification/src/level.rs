//! The six severities, their order, and what the order lets through.

use vstd::prelude::*;

use crate::color::Color;

verus! {

/// A severity. The declaration order is the priority order: `Off` is the
/// most restrictive, `Trace` the most verbose.
#[derive(Clone, Copy, Debug, PartialEq, Eq, Structural)]
pub enum Level {
    Off,
    Error,
    Warn,
    Info,
    Debug,
    Trace,
}

impl Level {
    /// The position of a severity in the fixed order, from `Off` = 0 to
    /// `Trace` = 5.
    pub open spec fn rank(self) -> nat {
        match self {
            Level::Off => 0,
            Level::Error => 1,
            Level::Warn => 2,
            Level::Info => 3,
            Level::Debug => 4,
            Level::Trace => 5,
        }
    }

    /// Whether a line of this severity is emitted under `threshold`: its
    /// rank is no greater than the threshold's.
    pub open spec fn passes(self, threshold: Level) -> bool {
        self.rank() <= threshold.rank()
    }

    /// The display label: five characters, padded with spaces on the right.
    pub open spec fn label(self) -> Seq<char> {
        match self {
            Level::Off => "OFF  "@,
            Level::Error => "ERROR"@,
            Level::Warn => "WARN "@,
            Level::Info => "INFO "@,
            Level::Debug => "DEBUG"@,
            Level::Trace => "TRACE"@,
        }
    }

    /// The color in which a severity is shown; `Off` has none.
    pub open spec fn tint(self) -> Option<Color> {
        match self {
            Level::Off => None,
            Level::Error => Some(Color::Red),
            Level::Warn => Some(Color::Yellow),
            Level::Info => Some(Color::Blue),
            Level::Debug => Some(Color::Green),
            Level::Trace => Some(Color::Gray),
        }
    }

    /// The escape sequence that opens a line of this severity: that of its
    /// color when color is enabled and the severity has one, else nothing.
    pub open spec fn color_start(self, color_enabled: bool) -> Seq<char> {
        match self.tint() {
            Some(c) if color_enabled => c.start_code(),
            _ => Seq::empty(),
        }
    }

    /// The escape sequence that closes a line of this severity: the reset
    /// when `color_start` is an escape sequence, else nothing.
    pub open spec fn color_end(self, color_enabled: bool) -> Seq<char> {
        match self.tint() {
            Some(_) if color_enabled => Color::reset_code(),
            _ => Seq::empty(),
        }
    }

    /// The rank as a machine integer.
    pub fn to_rank(&self) -> (r: u8)
        ensures
            r == self.rank(),
    {
        match self {
            Level::Off => 0,
            Level::Error => 1,
            Level::Warn => 2,
            Level::Info => 3,
            Level::Debug => 4,
            Level::Trace => 5,
        }
    }

    /// The severity of a given rank, if there is one.
    pub fn from_rank(rank: u8) -> (r: Option<Level>)
        ensures
            r is Some <==> rank <= 5,
            r matches Some(level) ==> level.rank() == rank,
    {
        match rank {
            0 => Some(Level::Off),
            1 => Some(Level::Error),
            2 => Some(Level::Warn),
            3 => Some(Level::Info),
            4 => Some(Level::Debug),
            5 => Some(Level::Trace),
            _ => None,
        }
    }

    /// The five-character label of the severity.
    pub fn as_str(&self) -> (s: &'static str)
        ensures
            s@ == self.label(),
            s@.len() == 5,
    {
        proof {
            reveal_strlit("OFF  ");
            reveal_strlit("ERROR");
            reveal_strlit("WARN ");
            reveal_strlit("INFO ");
            reveal_strlit("DEBUG");
            reveal_strlit("TRACE");
        }
        match self {
            Level::Off => "OFF  ",
            Level::Error => "ERROR",
            Level::Warn => "WARN ",
            Level::Info => "INFO ",
            Level::Debug => "DEBUG",
            Level::Trace => "TRACE",
        }
    }

    /// The pair of escape sequences that wraps a line of this severity when
    /// color is on: empty for `Off`.
    pub fn color(&self) -> (pair: (&'static str, &'static str))
        ensures
            pair.0@ == self.color_start(true),
            pair.1@ == self.color_end(true),
    {
        Color::from_level(self)
    }

    /// The pair of escape sequences that wraps a line of this severity:
    /// that of `color` when `color_enabled`, else two empty strings.
    pub fn color_pair(&self, color_enabled: bool) -> (pair: (&'static str, &'static str))
        ensures
            pair.0@ == self.color_start(color_enabled),
            pair.1@ == self.color_end(color_enabled),
    {
        if color_enabled {
            self.color()
        } else {
            proof {
                reveal_strlit("");
            }
            ("", "")
        }
    }

    /// Whether a line of this severity is emitted under `threshold`.
    pub fn is_enabled(&self, threshold: Level) -> (enabled: bool)
        ensures
            enabled == (self.rank() <= threshold.rank()),
    {
        self.to_rank() <= threshold.to_rank()
    }
}

/// No rank exceeds 5, and two severities of one rank are one severity.
pub proof fn lemma_rank_is_one_to_one(a: Level, b: Level)
    ensures
        a.rank() <= 5,
        a.rank() == b.rank() <==> a == b,
{
}

/// Under a threshold of `Off` no severity but `Off` itself is emitted.
pub proof fn lemma_off_disables_all(severity: Level)
    requires
        severity != Level::Off,
    ensures
        !severity.passes(Level::Off),
{
}

/// Under a threshold of `Trace` every severity is emitted.
pub proof fn lemma_trace_enables_all(severity: Level)
    ensures
        severity.passes(Level::Trace),
{
}

/// Raising the threshold never silences a severity that it let through.
pub proof fn lemma_passes_is_monotone(severity: Level, low: Level, high: Level)
    requires
        low.rank() <= high.rank(),
        severity.passes(low),
    ensures
        severity.passes(high),
{
}

} // verus!
