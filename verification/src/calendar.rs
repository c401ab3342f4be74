//! The span of instants that a year filter stands for.

use chrono::Datelike;
use chrono::TimeZone;
use std::fmt::Write;
use vstd::prelude::*;
use crate::model::Timestamp;
use crate::predicate::{YearWindow, YEAR_SECONDS};

verus! {

/// The distance, in seconds, between UTC and the clock by which the year of
/// an instant is read: eight hours east.
pub const READING_OFFSET_SECONDS: i64 = 28800;

/// The calendar year, in UTC, of the instant `seconds` and `nanos` after
/// 1970-01-01T00:00:00Z, as `chrono` reckons it; `None` where `chrono` cannot
/// represent the instant.
pub uninterp spec fn utc_year(seconds: int, nanos: int) -> Option<i32>;

/// Calls `chrono::DateTime::from_timestamp` and reads the year of what it
/// returns with `chrono::Datelike::year`. The result depends on the two
/// numbers alone; the contract gives it a name and claims nothing else.
#[verifier::external_body]
fn year_of_instant(seconds: i64, nanos: u32) -> (year: Option<i32>)
    ensures
        year == utc_year(seconds as int, nanos as int),
{
    match chrono::DateTime::from_timestamp(seconds, nanos) {
        Some(instant) => Some(instant.year()),
        None => None,
    }
}

/// Calls `chrono::NaiveDate::from_ymd_opt`, `chrono::NaiveDate::and_hms_opt`
/// for midnight and `chrono::TimeZone::from_local_datetime` on
/// `chrono::Local`, and returns the instant found, in seconds since
/// 1970-01-01T00:00:00Z, where there is exactly one. The result depends on
/// the time zone of the machine, so nothing is claimed of it.
#[verifier::external_body]
fn local_midnight(year: i32, month: u32, day: u32) -> (start: Option<i64>) {
    let date = chrono::NaiveDate::from_ymd_opt(year, month, day)?;
    let midnight = date.and_hms_opt(0, 0, 0)?;
    match chrono::Local.from_local_datetime(&midnight).single() {
        Some(instant) => Some(instant.timestamp()),
        None => None,
    }
}

/// The text that `chrono` writes for the instant `seconds` and `nanos` after
/// 1970-01-01T00:00:00Z, in UTC, under the format `pattern`; `None` where
/// `chrono` cannot represent the instant or cannot write it under that
/// format.
pub uninterp spec fn utc_text(seconds: int, nanos: int, pattern: Seq<char>) -> Option<Seq<char>>;

/// Calls `chrono::DateTime::from_timestamp` and writes what it returns under
/// `chrono::DateTime::format`. The result depends on the three arguments
/// alone; the contract gives it a name and claims nothing else.
#[verifier::external_body]
fn write_instant(seconds: i64, nanos: u32, pattern: &str) -> (text: Option<String>)
    ensures
        match text {
            Some(t) => utc_text(seconds as int, nanos as int, pattern@) == Some(t@),
            None => utc_text(seconds as int, nanos as int, pattern@) is None,
        },
{
    let instant = chrono::DateTime::from_timestamp(seconds, nanos)?;
    let mut text = String::new();
    match write!(text, "{}", instant.format(pattern)) {
        Ok(()) => Some(text),
        Err(_) => None,
    }
}

/// The span that starts at `start` and lasts 365 days, where its end can be
/// represented.
pub open spec fn window_from(start: Option<i64>) -> Option<YearWindow> {
    match start {
        Some(s) if s + YEAR_SECONDS <= i64::MAX => Some(
            YearWindow { start: s, end: (s + YEAR_SECONDS) as i64 },
        ),
        _ => None,
    }
}

/// The instant whose UTC year is the year of `at` on the reading clock,
/// where it can be represented and `at` has no negative nanoseconds.
pub open spec fn reading_instant(at: Timestamp) -> Option<(i64, u32)> {
    if at.nanos >= 0 && at.seconds + READING_OFFSET_SECONDS <= i64::MAX {
        Some(((at.seconds + READING_OFFSET_SECONDS) as i64, at.nanos as u32))
    } else {
        None
    }
}

/// The year in which `at` falls on the reading clock, if it has one.
pub open spec fn reading_year(at: Timestamp) -> Option<i32> {
    match reading_instant(at) {
        Some((seconds, nanos)) => utc_year(seconds as int, nanos as int),
        None => None,
    }
}

/// The text that shows `at` to the minute on the reading clock: year, month
/// and day, then hour and minute.
pub open spec fn reading_text(at: Timestamp) -> Option<Seq<char>> {
    match reading_instant(at) {
        Some((seconds, nanos)) => utc_text(seconds as int, nanos as int, "%Y-%m-%d %H:%M"@),
        None => None,
    }
}

/// Builds the 365-day span that starts at `start`.
pub fn year_span(start: Option<i64>) -> (window: Option<YearWindow>)
    ensures
        window == window_from(start),
{
    match start {
        Some(s) => match s.checked_add(YEAR_SECONDS) {
            Some(end) => Some(YearWindow { start: s, end }),
            None => None,
        },
        None => None,
    }
}

/// Shifts `at` to the reading clock.
pub fn shift_to_reading_clock(at: Timestamp) -> (shifted: Option<(i64, u32)>)
    ensures
        shifted == reading_instant(at),
{
    if at.nanos < 0 {
        return None;
    }
    match at.seconds.checked_add(READING_OFFSET_SECONDS) {
        Some(seconds) => Some((seconds, at.nanos as u32)),
        None => None,
    }
}

/// The year in which `at` falls on the reading clock.
pub fn year_of(at: Timestamp) -> (year: Option<i32>)
    ensures
        year == reading_year(at),
{
    match shift_to_reading_clock(at) {
        Some((seconds, nanos)) => year_of_instant(seconds, nanos),
        None => None,
    }
}

/// Shows `at` to the minute on the reading clock, as in `1970-01-01 08:00`.
pub fn minute_text(at: Timestamp) -> (text: Option<String>)
    ensures
        match text {
            Some(t) => reading_text(at) == Some(t@),
            None => reading_text(at) is None,
        },
{
    match shift_to_reading_clock(at) {
        Some((seconds, nanos)) => write_instant(seconds, nanos, "%Y-%m-%d %H:%M"),
        None => None,
    }
}

/// The span that a year filter with the instant `at` stands for: from the
/// first midnight of the year of `at` on this machine's clock, for 365 days.
/// There is none where `at` has no year, or where that midnight does not
/// exist, exists twice or lies too far off.
pub fn year_window(at: Timestamp) -> (window: Option<YearWindow>)
    ensures
        reading_year(at) is None ==> window is None,
        window is Some ==> window->0.end == window->0.start + YEAR_SECONDS,
{
    match year_of(at) {
        Some(year) => year_span(local_midnight(year, 1, 1)),
        None => None,
    }
}

} // verus!
