//! The text of the status line: the glyph of the phase and the time left,
//! as minutes and seconds.

use vstd::prelude::*;
use vstd::string::StringExecFns;
use crate::span::Span;
use crate::span::NANOS_PER_SEC;
use crate::state::TimerState;

verus! {

/// Seconds in one minute.
pub const SECS_PER_MINUTE: u64 = 60;

/// The whole minutes in a length of `nanos` nanoseconds.
pub open spec fn whole_minutes(nanos: nat) -> nat {
    nanos / (NANOS_PER_SEC as nat) / (SECS_PER_MINUTE as nat)
}

/// The whole seconds in a length of `nanos` nanoseconds beyond its whole
/// minutes.
pub open spec fn odd_seconds(nanos: nat) -> nat {
    nanos / (NANOS_PER_SEC as nat) % (SECS_PER_MINUTE as nat)
}

/// The character of the digit `d`.
pub open spec fn digit(d: nat) -> char
    recommends
        d < 10,
{
    ('0' as nat + d) as char
}

/// The decimal digits of `n`, without leading zeros.
pub open spec fn decimal(n: nat) -> Seq<char>
    decreases n,
{
    if n < 10 {
        seq![digit(n)]
    } else {
        decimal(n / 10).push(digit(n % 10))
    }
}

/// The decimal digits of `n`, with a zero in front where there is only one.
pub open spec fn two_digits(n: nat) -> Seq<char> {
    if n < 10 {
        seq!['0'] + decimal(n)
    } else {
        decimal(n)
    }
}

/// A length of `nanos` nanoseconds as minutes and seconds, each of two
/// digits or more, with a colon between.
pub open spec fn clock_face(nanos: nat) -> Seq<char> {
    two_digits(whole_minutes(nanos)) + seq![':'] + two_digits(odd_seconds(nanos))
}

/// The status line: the glyph of the phase, a space, and the time left as
/// minutes and seconds. A phase that has run out has no time left.
pub open spec fn status_line(state: TimerState, remaining_time: Option<nat>) -> Seq<char> {
    state.glyph() + seq![' '] + clock_face(
        match remaining_time {
            Some(left) => left,
            None => 0,
        },
    )
}

/// The whole minutes in `duration`.
pub fn minutes(duration: &Span) -> (minutes: u64)
    ensures
        minutes == whole_minutes(duration@),
{
    duration.as_secs() / SECS_PER_MINUTE
}

/// The whole seconds in `duration` beyond its whole minutes.
pub fn seconds(duration: &Span) -> (seconds: u64)
    ensures
        seconds == odd_seconds(duration@),
        seconds < SECS_PER_MINUTE,
{
    duration.as_secs() % SECS_PER_MINUTE
}

/// The digit `d` as a string.
fn digit_str(d: u64) -> (text: &'static str)
    requires
        d < 10,
    ensures
        text@ == seq![digit(d as nat)],
{
    proof {
        reveal_strlit("0");
        reveal_strlit("1");
        reveal_strlit("2");
        reveal_strlit("3");
        reveal_strlit("4");
        reveal_strlit("5");
        reveal_strlit("6");
        reveal_strlit("7");
        reveal_strlit("8");
        reveal_strlit("9");
    }
    let text = match d {
        0 => "0",
        1 => "1",
        2 => "2",
        3 => "3",
        4 => "4",
        5 => "5",
        6 => "6",
        7 => "7",
        8 => "8",
        _ => "9",
    };
    text
}

/// Writes the decimal digits of `n` at the end of `text`.
fn push_decimal(text: &mut String, n: u64)
    ensures
        final(text)@ == old(text)@ + decimal(n as nat),
    decreases n,
{
    if n >= 10 {
        push_decimal(text, n / 10);
    }
    text.append(digit_str(n % 10));
}

/// Writes `n` at the end of `text`, in two digits or more.
fn push_two_digits(text: &mut String, n: u64)
    ensures
        final(text)@ == old(text)@ + two_digits(n as nat),
{
    if n < 10 {
        text.append("0");
        proof {
            reveal_strlit("0");
        }
    }
    push_decimal(text, n);
}

/// The time left as minutes and seconds: `01:30` for ninety seconds.
pub fn format_remaining(remaining_time: &Span) -> (text: String)
    ensures
        text@ == clock_face(remaining_time@),
{
    let mut text = String::new();
    push_two_digits(&mut text, minutes(remaining_time));
    text.append(":");
    proof {
        reveal_strlit(":");
    }
    push_two_digits(&mut text, seconds(remaining_time));
    text
}

/// The status line of a timer in phase `state` with `remaining_time` left.
pub fn format_status(state: TimerState, remaining_time: Option<Span>) -> (line: String)
    ensures
        line@ == status_line(
            state,
            match remaining_time {
                Some(left) => Some(left@),
                None => None,
            },
        ),
{
    let left: Span = match remaining_time {
        Some(left) => left,
        None => Span::zero(),
    };
    let mut line = state.pomicon();
    line.append(" ");
    proof {
        reveal_strlit(" ");
    }
    let face = format_remaining(&left);
    line.append(face.as_str());
    line
}

} // verus!
