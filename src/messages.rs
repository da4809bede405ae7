//! The text of the diagnostic lines, whose format callers rely on.
use vstd::prelude::*;
use vstd::string::StringExecFns;
use crate::span::{Span, NANOS_PER_SEC};

verus! {

/// The decimal digit `d`.
pub open spec fn digit_text(d: nat) -> Seq<char> {
    if d == 0 {
        seq!['0']
    } else if d == 1 {
        seq!['1']
    } else if d == 2 {
        seq!['2']
    } else if d == 3 {
        seq!['3']
    } else if d == 4 {
        seq!['4']
    } else if d == 5 {
        seq!['5']
    } else if d == 6 {
        seq!['6']
    } else if d == 7 {
        seq!['7']
    } else if d == 8 {
        seq!['8']
    } else {
        seq!['9']
    }
}

/// `n` in decimal, without leading zeros.
pub open spec fn decimal(n: nat) -> Seq<char>
    decreases n,
{
    if n < 10 {
        digit_text(n)
    } else {
        decimal(n / 10) + digit_text(n % 10)
    }
}

/// A whole number of seconds as `Ns`, `Mm Ss` from a minute, or `Hh Mm Ss`
/// from an hour.
pub open spec fn duration_text(secs: nat) -> Seq<char> {
    if secs < 60 {
        decimal(secs) + seq!['s']
    } else if secs < 3600 {
        decimal(secs / 60) + seq!['m', ' '] + decimal(secs % 60) + seq!['s']
    } else {
        decimal(secs / 3600) + seq!['h', ' '] + decimal((secs % 3600) / 60) + seq!['m', ' ']
            + decimal(secs % 60) + seq!['s']
    }
}

fn digit_str(d: u64) -> (r: &'static str)
    requires
        d < 10,
    ensures
        r@ == digit_text(d as nat),
{
    proof {
        reveal_strlit("0");
        reveal_strlit("1");
        reveal_strlit("2");
        reveal_strlit("3");
        reveal_strlit("4");
        reveal_strlit("5");
        reveal_strlit("6");
        reveal_strlit("7");
        reveal_strlit("8");
        reveal_strlit("9");
    }
    if d == 0 {
        "0"
    } else if d == 1 {
        "1"
    } else if d == 2 {
        "2"
    } else if d == 3 {
        "3"
    } else if d == 4 {
        "4"
    } else if d == 5 {
        "5"
    } else if d == 6 {
        "6"
    } else if d == 7 {
        "7"
    } else if d == 8 {
        "8"
    } else {
        "9"
    }
}

/// Appends `n` in decimal.
fn push_decimal(s: &mut String, n: u64)
    ensures
        final(s)@ == old(s)@ + decimal(n as nat),
    decreases n,
{
    if n >= 10 {
        push_decimal(s, n / 10);
    }
    s.append(digit_str(n % 10));
    assert(final(s)@ =~= old(s)@ + decimal(n as nat)) by {
        if n >= 10 {
            assert(decimal(n as nat) == decimal((n / 10) as nat) + digit_text((n % 10) as nat));
        }
    }
}

/// Appends a string literal.
fn push_text(s: &mut String, t: &str)
    ensures
        final(s)@ == old(s)@ + t@,
{
    s.append(t);
}

/// A duration, in its whole seconds, as `Ns`, `Mm Ss` or `Hh Mm Ss`.
pub fn format_duration(duration: Span) -> (r: String)
    ensures
        r@ == duration_text(duration@ / NANOS_PER_SEC as nat),
{
    let secs = duration.as_secs();
    let mut s = String::new();
    proof {
        reveal_strlit("s");
        reveal_strlit("m ");
        reveal_strlit("h ");
    }
    if secs < 60 {
        push_decimal(&mut s, secs);
        push_text(&mut s, "s");
    } else if secs < 3600 {
        push_decimal(&mut s, secs / 60);
        push_text(&mut s, "m ");
        push_decimal(&mut s, secs % 60);
        push_text(&mut s, "s");
    } else {
        push_decimal(&mut s, secs / 3600);
        push_text(&mut s, "h ");
        push_decimal(&mut s, (secs % 3600) / 60);
        push_text(&mut s, "m ");
        push_decimal(&mut s, secs % 60);
        push_text(&mut s, "s");
    }
    assert(s@ =~= duration_text(secs as nat));
    s
}

/// The line for a progress display of `remaining_secs`: the completion line
/// for zero, else the remaining time in whole seconds.
pub open spec fn progress_text(remaining_secs: nat) -> Seq<char> {
    if remaining_secs == 0 {
        "Wait complete."@
    } else {
        "[DOZR] Time remaining: "@ + decimal(remaining_secs) + seq!['s']
    }
}

/// The text of one progress display.
pub fn progress_message(remaining_secs: u64) -> (r: String)
    ensures
        r@ == progress_text(remaining_secs as nat),
{
    let mut s = String::new();
    if remaining_secs == 0 {
        push_text(&mut s, "Wait complete.");
    } else {
        push_text(&mut s, "[DOZR] Time remaining: ");
        push_decimal(&mut s, remaining_secs);
        proof {
            reveal_strlit("s");
        }
        push_text(&mut s, "s");
    }
    assert(s@ =~= progress_text(remaining_secs as nat));
    s
}

} // verus!
