//! The text of one log line.
//!
//! A line is laid out as
//!
//! ```text
//! <color start>[<label> <file>:<line>] <message><color end>\n
//! ```
//!
//! with both color parts empty when color is off or the severity is `Off`.
//! The color is always closed before the newline.

use vstd::prelude::*;
use vstd::string::*;

use crate::level::Level;

verus! {

/// The character of a decimal digit.
pub open spec fn digit(d: nat) -> char
    recommends
        d < 10,
{
    (('0' as u32) + d) as char
}

/// A number in decimal notation: no sign, no padding, no leading zero.
pub open spec fn decimal(n: nat) -> Seq<char>
    decreases n,
{
    if n < 10 {
        seq![digit(n)]
    } else {
        decimal(n / 10).push(digit(n % 10))
    }
}

/// The number that a text of decimal digits stands for.
pub open spec fn denoted(digits: Seq<char>) -> nat
    decreases digits.len(),
{
    if digits.len() == 0 {
        0
    } else {
        (10 * denoted(digits.drop_last()) + (digits.last() as u32) - ('0' as u32)) as nat
    }
}

/// The line that reports `message` at `level` from line `line` of `file`.
pub open spec fn line_text(
    level: Level,
    color_enabled: bool,
    file: Seq<char>,
    line: nat,
    message: Seq<char>,
) -> Seq<char> {
    level.color_start(color_enabled) + "["@ + level.label() + " "@ + file + ":"@ + decimal(line)
        + "] "@ + message + level.color_end(color_enabled) + "\n"@
}

fn digit_str(d: u32) -> (s: &'static str)
    requires
        d < 10,
    ensures
        s@ == seq![digit(d as nat)],
{
    proof {
        reveal_strlit("0");
        reveal_strlit("1");
        reveal_strlit("2");
        reveal_strlit("3");
        reveal_strlit("4");
        reveal_strlit("5");
        reveal_strlit("6");
        reveal_strlit("7");
        reveal_strlit("8");
        reveal_strlit("9");
    }
    match d {
        0 => "0",
        1 => "1",
        2 => "2",
        3 => "3",
        4 => "4",
        5 => "5",
        6 => "6",
        7 => "7",
        8 => "8",
        _ => "9",
    }
}

fn push_decimal(out: &mut String, n: u32)
    ensures
        final(out)@ == old(out)@ + decimal(n as nat),
    decreases n,
{
    if n >= 10 {
        push_decimal(out, n / 10);
    }
    out.append(digit_str(n % 10));
}

/// Renders one log line. The caller's `file`, `line` and `message` are
/// taken as they are.
pub fn format_line(
    level: Level,
    color_enabled: bool,
    file: &str,
    line: u32,
    message: &str,
) -> (out: String)
    ensures
        out@ == line_text(level, color_enabled, file@, line as nat, message@),
{
    let (start, end) = level.color_pair(color_enabled);
    let mut out = String::new();
    out.append(start);
    out.append("[");
    out.append(level.as_str());
    out.append(" ");
    out.append(file);
    out.append(":");
    push_decimal(&mut out, line);
    out.append("] ");
    out.append(message);
    out.append(end);
    out.append("\n");
    out
}

/// `decimal` is the usual notation: `decimal(n)` is made of digits only,
/// has no leading zero unless it is the one digit `0`, and stands for `n`.
pub proof fn lemma_decimal_denotes(n: nat)
    ensures
        decimal(n).len() >= 1,
        forall|i: int| 0 <= i < decimal(n).len() ==> '0' <= #[trigger] decimal(n)[i] <= '9',
        decimal(n).len() > 1 ==> decimal(n)[0] != '0',
        denoted(decimal(n)) == n,
    decreases n,
{
    if n < 10 {
        assert(decimal(n).drop_last() =~= Seq::<char>::empty());
        assert(denoted(decimal(n).drop_last()) == 0);
    } else {
        let front = n / 10;
        lemma_decimal_denotes(front);
        assert(decimal(n).drop_last() =~= decimal(front));
        assert(decimal(n)[0] == decimal(front)[0]);
        if front < 10 {
            assert(decimal(front)[0] == digit(front));
        } else {
            assert(decimal(front).len() == decimal(front / 10).len() + 1) by {
                lemma_decimal_denotes(front / 10);
            }
        }
    }
}

} // verus!
