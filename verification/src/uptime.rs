//! The time the machine has been up, in words.

use crate::error::{text_of, QueryError};
use crate::text::{decimal, lemma_decimal_nonempty, push_decimal};
use vstd::prelude::*;

verus! {

/// What is reported when the timer could not be read.
pub const INVALID_UPTIME: &'static str = "invalid_uptime";

/// What is reported for less than sixty seconds.
pub const UNDER_A_MINUTE: &'static str = "less than a minute";

/// What stands between two units.
pub const SEPARATOR: &'static str = ", ";

/// The timer counts in units of 100 nanoseconds: this many to a millisecond.
pub const TICKS_PER_MILLISECOND: u64 = 10_000;

/// Milliseconds to a second.
pub const MILLISECONDS_PER_SECOND: u64 = 1_000;

/// The whole seconds in `ticks`.
pub open spec fn whole_seconds(ticks: nat) -> nat {
    ticks / (TICKS_PER_MILLISECOND as nat) / (MILLISECONDS_PER_SECOND as nat)
}

/// The whole days in `seconds`.
pub open spec fn days_of(seconds: nat) -> nat {
    seconds / 86_400
}

/// The hours of the last, unfinished day.
pub open spec fn hours_of(seconds: nat) -> nat {
    (seconds / 3_600) % 24
}

/// The minutes of the last, unfinished hour.
pub open spec fn minutes_of(seconds: nat) -> nat {
    (seconds / 60) % 60
}

/// A count with its unit, the singular for exactly one; nothing for zero.
pub open spec fn counted(value: nat, singular: Seq<char>, plural: Seq<char>) -> Seq<char> {
    if value == 0 {
        Seq::empty()
    } else if value == 1 {
        decimal(value) + singular
    } else {
        decimal(value) + plural
    }
}

/// Two parts with the separator between them; a part that is empty leaves
/// no separator behind.
pub open spec fn joined(left: Seq<char>, right: Seq<char>) -> Seq<char> {
    if left.len() == 0 {
        right
    } else if right.len() == 0 {
        left
    } else {
        left + SEPARATOR@ + right
    }
}

/// A duration in words: the units that are not zero, largest first.
pub open spec fn duration_text(days: nat, hours: nat, minutes: nat) -> Seq<char> {
    let units = joined(
        joined(counted(days, " day"@, " days"@), counted(hours, " hour"@, " hours"@)),
        counted(minutes, " minute"@, " minutes"@),
    );
    if units.len() == 0 {
        UNDER_A_MINUTE@
    } else {
        units
    }
}

/// The uptime that a timer reading of `ticks` stands for, in words.
pub open spec fn uptime_text(ticks: nat) -> Seq<char> {
    let seconds = whole_seconds(ticks);
    duration_text(days_of(seconds), hours_of(seconds), minutes_of(seconds))
}

/// The uptime line for a reading of the timer; `None` is a failed reading.
pub open spec fn uptime_line(reading: Option<u64>) -> Seq<char> {
    match reading {
        Some(ticks) => uptime_text(ticks as nat),
        None => INVALID_UPTIME@,
    }
}

/// Appends a count with its unit to `out`, behind a separator where `out`
/// already holds something.
fn push_counted(out: &mut String, value: u64, singular: &str, plural: &str)
    ensures
        final(out)@ == joined(old(out)@, counted(value as nat, singular@, plural@)),
{
    if value > 0 {
        proof {
            lemma_decimal_nonempty(value as nat);
        }
        if !out.as_str().is_empty() {
            out.append(SEPARATOR);
        }
        push_decimal(out, value as u128);
        let unit = if value == 1 {
            singular
        } else {
            plural
        };
        out.append(unit);
    }
}

/// The uptime line. `reading` is the unbiased interrupt time in units of 100
/// nanoseconds, or `None` where the timer could not be read; that failure is
/// reported in the line, never as an error.
pub fn get_current(reading: Option<u64>) -> (line: Result<String, QueryError>)
    ensures
        text_of(line) == Ok::<Seq<char>, QueryError>(uptime_line(reading)),
{
    let ticks: u64 = match reading {
        Some(ticks) => ticks,
        None => {
            return Ok(INVALID_UPTIME.to_owned());
        },
    };
    let seconds: u64 = ticks / TICKS_PER_MILLISECOND / MILLISECONDS_PER_SECOND;
    let days: u64 = seconds / 86_400;
    let hours: u64 = (seconds / 3_600) % 24;
    let minutes: u64 = (seconds / 60) % 60;

    let mut text = String::new();
    push_counted(&mut text, days, " day", " days");
    push_counted(&mut text, hours, " hour", " hours");
    push_counted(&mut text, minutes, " minute", " minutes");
    if text.as_str().is_empty() {
        text.append(UNDER_A_MINUTE);
    }
    Ok(text)
}

/// The uptime line rests on the reading alone: two answers to one reading
/// are the same line, and neither is an error.
pub proof fn lemma_uptime_repeats(
    reading: Option<u64>,
    first: Result<String, QueryError>,
    second: Result<String, QueryError>,
)
    requires
        text_of(first) == Ok::<Seq<char>, QueryError>(uptime_line(reading)),
        text_of(second) == Ok::<Seq<char>, QueryError>(uptime_line(reading)),
    ensures
        first is Ok,
        second is Ok,
        first->Ok_0@ == second->Ok_0@,
{
}

} // verus!
