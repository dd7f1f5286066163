use crate::text::{integer_text, write_decimal, write_integer};
use vstd::prelude::*;

verus! {

/// A span of time, counted in months, days, hours and minutes.
#[derive(Debug, Clone, Copy, PartialEq, Eq, Structural)]
pub struct Interval {
    pub months: i64,
    pub days: i64,
    pub hours: i64,
    pub minutes: i64,
}

/// Whether a span of time reaches back from now, ahead of now, or nowhere.
#[derive(Debug, Clone, Copy, PartialEq, Eq, Structural)]
pub enum Direction {
    Past,
    Now,
    Future,
}

/// The words for a span of time: the two largest units that are not zero
/// and stand next to each other, or the one that is not zero, or `now`.
pub open spec fn phrase(months: int, days: int, hours: int, minutes: int) -> Seq<char> {
    if months == 0 && days == 0 && hours == 0 && minutes == 0 {
        "now"@
    } else if months == 0 && days == 0 && hours == 0 {
        integer_text(minutes) + " minutes"@
    } else if months == 0 && days == 0 && minutes == 0 {
        integer_text(hours) + " hours"@
    } else if months == 0 && days == 0 {
        integer_text(hours) + " hours, "@ + integer_text(minutes) + " minutes"@
    } else if months == 0 && hours == 0 {
        integer_text(days) + " days"@
    } else if months == 0 {
        integer_text(days) + " days, "@ + integer_text(hours) + " hours"@
    } else if days == 0 {
        integer_text(months) + " months"@
    } else {
        integer_text(months) + " months, "@ + integer_text(days) + " days"@
    }
}

/// The words for a span of time seen from now: `in` before a span that
/// reaches ahead, `ago` behind a span that reaches back, whose units are
/// then counted the other way round.
pub open spec fn pretty(direction: Direction, interval: Interval) -> Seq<char> {
    match direction {
        Direction::Now => phrase(
            interval.months as int,
            interval.days as int,
            interval.hours as int,
            interval.minutes as int,
        ),
        Direction::Future => "in "@ + phrase(
            interval.months as int,
            interval.days as int,
            interval.hours as int,
            interval.minutes as int,
        ),
        Direction::Past => phrase(
            -interval.months,
            -interval.days,
            -interval.hours,
            -interval.minutes,
        ) + " ago"@,
    }
}

/// Writes `n`, or what `n` is the negative of.
fn write_unit(n: i64, negated: bool) -> (text: String)
    ensures
        text@ == integer_text(
            if negated {
                -n
            } else {
                n as int
            },
        ),
{
    if !negated {
        write_integer(n)
    } else if n == i64::MIN {
        write_decimal(0x8000_0000_0000_0000u64)
    } else {
        write_integer(-n)
    }
}

/// Writes the words for a span whose units are taken as they are, or each
/// the other way round.
fn write_phrase(interval: Interval, negated: bool) -> (text: String)
    ensures
        text@ == (if negated {
            phrase(-interval.months, -interval.days, -interval.hours, -interval.minutes)
        } else {
            phrase(
                interval.months as int,
                interval.days as int,
                interval.hours as int,
                interval.minutes as int,
            )
        }),
{
    let months = interval.months;
    let days = interval.days;
    let hours = interval.hours;
    let minutes = interval.minutes;
    if months == 0 && days == 0 && hours == 0 && minutes == 0 {
        String::from_str("now")
    } else if months == 0 && days == 0 && hours == 0 {
        write_unit(minutes, negated).concat(" minutes")
    } else if months == 0 && days == 0 && minutes == 0 {
        write_unit(hours, negated).concat(" hours")
    } else if months == 0 && days == 0 {
        write_unit(hours, negated).concat(" hours, ").concat(
            write_unit(minutes, negated).as_str(),
        ).concat(" minutes")
    } else if months == 0 && hours == 0 {
        write_unit(days, negated).concat(" days")
    } else if months == 0 {
        write_unit(days, negated).concat(" days, ").concat(
            write_unit(hours, negated).as_str(),
        ).concat(" hours")
    } else if days == 0 {
        write_unit(months, negated).concat(" months")
    } else {
        write_unit(months, negated).concat(" months, ").concat(
            write_unit(days, negated).as_str(),
        ).concat(" days")
    }
}

/// Says in words how far a moment lies from now: `now`, `in 3 hours`,
/// `2 days, 4 hours ago`.
pub fn pretty_print_interval(direction: Direction, interval: Interval) -> (text: String)
    ensures
        text@ == pretty(direction, interval),
{
    match direction {
        Direction::Now => write_phrase(interval, false),
        Direction::Future => String::from_str("in ").concat(
            write_phrase(interval, false).as_str(),
        ),
        Direction::Past => write_phrase(interval, true).concat(" ago"),
    }
}

} // verus!
