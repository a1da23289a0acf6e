//! Times and durations as the screen shows them.

use chrono::DateTime;
use vstd::prelude::*;
use vstd::string::*;

use crate::model::timer::Timer;
use crate::text::optional_text;

verus! {

/// The character for the decimal digit `d`.
pub open spec fn digit_char(d: nat) -> char {
    if d == 0 {
        '0'
    } else if d == 1 {
        '1'
    } else if d == 2 {
        '2'
    } else if d == 3 {
        '3'
    } else if d == 4 {
        '4'
    } else if d == 5 {
        '5'
    } else if d == 6 {
        '6'
    } else if d == 7 {
        '7'
    } else if d == 8 {
        '8'
    } else {
        '9'
    }
}

/// The decimal digits of `n`, without leading zeros.
pub open spec fn decimal(n: nat) -> Seq<char>
    decreases n,
{
    if n < 10 {
        seq![digit_char(n)]
    } else {
        decimal(n / 10).push(digit_char(n % 10))
    }
}

/// The decimal digits of `n`, with a leading zero if there is only one.
pub open spec fn two_digits(n: nat) -> Seq<char> {
    if n < 10 {
        seq!['0', digit_char(n)]
    } else {
        decimal(n)
    }
}

/// `seconds` as hours, minutes and seconds, each with two digits or more,
/// with colons between them.
pub open spec fn clock_text(seconds: nat) -> Seq<char> {
    two_digits(seconds / 3600) + seq![':'] + two_digits((seconds % 3600) / 60) + seq![':']
        + two_digits(seconds % 60)
}

/// The date and time of day, in UTC, of the moment `secs` seconds after the
/// Unix epoch, written as year, month and day with hyphens between them, a
/// space, and hour, minute and second with colons between them; `None`
/// for a moment outside the years that can be written.
pub uninterp spec fn utc_date_time_text(secs: i64) -> Option<Seq<char>>;

/// The text for the start or the end of a timer: the date and time of
/// `timestamp`, taken as a signed number of seconds of the same 64 bits, or
/// nothing for a timer that has not ended.
pub open spec fn date_time_text(timestamp: Option<u64>) -> Option<Seq<char>> {
    match timestamp {
        Some(t) => utc_date_time_text(t as i64),
        None => Some(Seq::empty()),
    }
}

/// Calls `chrono::DateTime::from_timestamp` with `secs` and no nanoseconds
/// and renders what it returns with `DateTime::format`. Trusted: that the
/// text, or its absence, depends on `secs` alone.
#[verifier::external_body]
fn utc_date_time(secs: i64) -> (text: Option<String>)
    ensures
        optional_text(text) == utc_date_time_text(secs),
{
    match DateTime::from_timestamp(secs, 0) {
        Some(moment) => Some(moment.format("%Y-%m-%d %H:%M:%S").to_string()),
        None => None,
    }
}

/// The one-character text for the decimal digit `d`.
fn digit_text(d: u64) -> (text: &'static str)
    requires
        d < 10,
    ensures
        text@ == seq![digit_char(d as nat)],
{
    proof {
        reveal_strlit("0");
        reveal_strlit("1");
        reveal_strlit("2");
        reveal_strlit("3");
        reveal_strlit("4");
        reveal_strlit("5");
        reveal_strlit("6");
        reveal_strlit("7");
        reveal_strlit("8");
        reveal_strlit("9");
    }
    if d == 0 {
        "0"
    } else if d == 1 {
        "1"
    } else if d == 2 {
        "2"
    } else if d == 3 {
        "3"
    } else if d == 4 {
        "4"
    } else if d == 5 {
        "5"
    } else if d == 6 {
        "6"
    } else if d == 7 {
        "7"
    } else if d == 8 {
        "8"
    } else {
        "9"
    }
}

/// Appends the decimal digits of `n` to `text`.
fn push_decimal(text: &mut String, n: u64)
    ensures
        final(text)@ == old(text)@ + decimal(n as nat),
    decreases n,
{
    if n >= 10 {
        push_decimal(text, n / 10);
    }
    text.append(digit_text(n % 10));
}

/// Appends the decimal digits of `n` to `text`, after a zero if there is
/// only one.
fn push_two_digits(text: &mut String, n: u64)
    ensures
        final(text)@ == old(text)@ + two_digits(n as nat),
{
    if n < 10 {
        text.append(digit_text(0));
    }
    push_decimal(text, n);
}

/// Writes `seconds` as hours, minutes and seconds.
pub fn format_clock(seconds: u64) -> (text: String)
    ensures
        text@ == clock_text(seconds as nat),
{
    let hours: u64 = seconds / 3600;
    let minutes: u64 = (seconds % 3600) / 60;
    let rest: u64 = seconds % 60;
    let mut text = String::new();
    proof {
        reveal_strlit(":");
    }
    push_two_digits(&mut text, hours);
    text.append(":");
    push_two_digits(&mut text, minutes);
    text.append(":");
    push_two_digits(&mut text, rest);
    text
}

/// The time of day, in UTC, at the moment `now` seconds after the Unix
/// epoch: the time that has passed since midnight.
pub fn get_elapsed_time_since_midnight(now: u64) -> (text: String)
    ensures
        text@ == clock_text((now % 86400) as nat),
{
    let midnight: u64 = now - (now % 86400);
    let elapsed: u64 = now - midnight;
    format_clock(elapsed)
}

/// The text for the start or the end of a timer: its date and time in UTC,
/// or an empty text for a timer that has not ended. `None` is returned for
/// a moment whose year cannot be written.
pub fn get_formated_date_time(timestamp: Option<u64>) -> (text: Option<String>)
    ensures
        optional_text(text) == date_time_text(timestamp),
{
    if let Some(timestamp) = timestamp {
        utc_date_time(#[verifier::truncate] (timestamp as i64))
    } else {
        Some(String::new())
    }
}

/// How long a timer has run: from `start` to `end`, or to `now` for a timer
/// that has not ended.
pub fn get_duration(start: u64, end: Option<u64>, now: u64) -> (text: String)
    requires
        start <= match end {
            Some(end_time) => end_time,
            None => now,
        },
    ensures
        text@ == clock_text(
            (match end {
                Some(end_time) => end_time,
                None => now,
            } - start) as nat,
        ),
{
    let end_time: u64 = match end {
        Some(end_time) => end_time,
        None => now,
    };
    format_clock(end_time - start)
}

/// The line that says from when to when a timer ran.
pub open spec fn period_text(start: Seq<char>, end: Seq<char>) -> Seq<char> {
    start + " - "@ + end
}

/// The line that says how long a timer has run.
pub open spec fn duration_line(seconds: nat) -> Seq<char> {
    "Duration: "@ + clock_text(seconds)
}

/// The second on which `timer` ended, or `now` if it is running.
pub open spec fn end_or_now(timer: Timer, now: u64) -> u64 {
    match timer.end_time {
        Some(end_time) => end_time,
        None => now,
    }
}

/// Puts the texts of a timer's start and end into one line.
pub fn join_period(start: &str, end: &str) -> (line: String)
    ensures
        line@ == period_text(start@, end@),
{
    let mut line = String::from_str(start);
    line.append(" - ");
    line.append(end);
    line
}

/// The line that says from when to when `timer` ran: the date and time of
/// its start and of its end, the latter empty while it runs. `None` if one
/// of the two cannot be written.
pub fn timer_period(timer: &Timer) -> (line: Option<String>)
    ensures
        optional_text(line) == match (
            date_time_text(Some(timer.start_time)),
            date_time_text(timer.end_time),
        ) {
            (Some(start), Some(end)) => Some(period_text(start, end)),
            _ => None,
        },
{
    match (get_formated_date_time(Some(timer.start_time)), get_formated_date_time(timer.end_time)) {
        (Some(start), Some(end)) => Some(join_period(start.as_str(), end.as_str())),
        _ => None,
    }
}

/// The line that says how long `timer` has run, up to `now` if it is still
/// running.
pub fn timer_duration(timer: &Timer, now: u64) -> (line: String)
    requires
        timer.start_time <= end_or_now(*timer, now),
    ensures
        line@ == duration_line((end_or_now(*timer, now) - timer.start_time) as nat),
{
    let mut line = String::from_str("Duration: ");
    let duration = get_duration(timer.start_time, timer.end_time, now);
    line.append(duration.as_str());
    line
}

} // verus!
