//! Severity names as configuration text spells them.
//!
//! A name is matched without regard to ASCII case: `"info"`, `"Info"` and
//! `"INFO"` all name `Level::Info`. No other character is folded, and no
//! white space is trimmed.

use vstd::prelude::*;
use vstd::string::*;

use crate::error::LogError;
use crate::level::Level;

verus! {

/// An ASCII capital letter becomes its small letter; every other character
/// stays as it is.
pub open spec fn fold_case(c: char) -> char {
    if 'A' <= c && c <= 'Z' {
        ((c as u32) + 32) as char
    } else {
        c
    }
}

/// Two texts of the same length whose characters agree after folding.
pub open spec fn same_ignoring_case(a: Seq<char>, b: Seq<char>) -> bool {
    &&& a.len() == b.len()
    &&& forall|i: int| 0 <= i < a.len() ==> fold_case(#[trigger] a[i]) == fold_case(b[i])
}

fn to_lower(c: char) -> (r: char)
    ensures
        r == fold_case(c),
{
    if 'A' <= c && c <= 'Z' {
        let code: u32 = c as u32 + 32;
        code as u8 as char
    } else {
        c
    }
}

fn eq_ignoring_case(a: &str, b: &str) -> (same: bool)
    ensures
        same == same_ignoring_case(a@, b@),
{
    let n: usize = a.unicode_len();
    if n != b.unicode_len() {
        return false;
    }
    let mut i: usize = 0;
    while i < n
        invariant
            n == a@.len(),
            n == b@.len(),
            i <= n,
            forall|j: int| 0 <= j < i ==> fold_case(#[trigger] a@[j]) == fold_case(b@[j]),
        decreases n - i,
    {
        if to_lower(a.get_char(i)) != to_lower(b.get_char(i)) {
            return false;
        }
        i += 1;
    }
    true
}

impl Level {
    /// The name of a severity in configuration text.
    pub open spec fn name(self) -> Seq<char> {
        match self {
            Level::Off => "Off"@,
            Level::Error => "Error"@,
            Level::Warn => "Warn"@,
            Level::Info => "Info"@,
            Level::Debug => "Debug"@,
            Level::Trace => "Trace"@,
        }
    }

    /// The severity that a text names, if it names one.
    pub open spec fn named(text: Seq<char>) -> Option<Level> {
        if same_ignoring_case(text, Level::Off.name()) {
            Some(Level::Off)
        } else if same_ignoring_case(text, Level::Error.name()) {
            Some(Level::Error)
        } else if same_ignoring_case(text, Level::Warn.name()) {
            Some(Level::Warn)
        } else if same_ignoring_case(text, Level::Info.name()) {
            Some(Level::Info)
        } else if same_ignoring_case(text, Level::Debug.name()) {
            Some(Level::Debug)
        } else if same_ignoring_case(text, Level::Trace.name()) {
            Some(Level::Trace)
        } else {
            None
        }
    }

    /// Reads a severity name. A text that names no severity is refused with
    /// `InvalidConfiguration`.
    pub fn from_name(text: &str) -> (r: Result<Level, LogError>)
        ensures
            r == (match Level::named(text@) {
                Some(level) => Ok::<Level, LogError>(level),
                None => Err::<Level, LogError>(LogError::InvalidConfiguration),
            }),
    {
        if eq_ignoring_case(text, "Off") {
            Ok(Level::Off)
        } else if eq_ignoring_case(text, "Error") {
            Ok(Level::Error)
        } else if eq_ignoring_case(text, "Warn") {
            Ok(Level::Warn)
        } else if eq_ignoring_case(text, "Info") {
            Ok(Level::Info)
        } else if eq_ignoring_case(text, "Debug") {
            Ok(Level::Debug)
        } else if eq_ignoring_case(text, "Trace") {
            Ok(Level::Trace)
        } else {
            Err(LogError::InvalidConfiguration)
        }
    }
}

/// A text names a severity exactly when it is that severity's name up to
/// ASCII case: no text names two severities.
pub proof fn lemma_named_is_unambiguous(text: Seq<char>, level: Level)
    ensures
        Level::named(text) == Some(level) <==> same_ignoring_case(text, level.name()),
{
    reveal_strlit("Off");
    reveal_strlit("Error");
    reveal_strlit("Warn");
    reveal_strlit("Info");
    reveal_strlit("Debug");
    reveal_strlit("Trace");
    if same_ignoring_case(text, level.name()) {
        let first = text[0];
        assert(fold_case(first) == fold_case(level.name()[0]));
    }
}

/// Every severity is named by its own name.
pub proof fn lemma_name_names_itself(level: Level)
    ensures
        Level::named(level.name()) == Some(level),
{
    lemma_named_is_unambiguous(level.name(), level);
}

} // verus!
