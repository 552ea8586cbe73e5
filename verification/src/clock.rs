//! Calendar time. Reading and writing of dates is chrono's; what the
//! monitor decides with them (whether an entry lies within a range of days)
//! is decided here, on plain numbers.

use chrono::{DateTime, Datelike, NaiveDate, Timelike};
use vstd::prelude::*;

verus! {

/// The last second of a day, counted from midnight.
pub const LAST_SECOND_OF_DAY: u32 = 86_399;

/// A point in time in UTC: the day in the proleptic Gregorian calendar
/// (1 January of year 1 is day 1), the second of that day, and the
/// nanoseconds behind that second (a leap second counts on beyond 999 999
/// 999).
#[derive(Clone, Copy, Debug, PartialEq, Eq)]
pub struct Instant {
    pub day: i32,
    pub second_of_day: u32,
    pub nanosecond: u32,
}

/// One end of a range of days: a day and a second of it, the whole of that
/// second included.
#[derive(Clone, Copy, Debug, PartialEq, Eq)]
pub struct DateBound {
    pub day: i32,
    pub second_of_day: u32,
}

/// The point in time that chrono reads from an RFC 3339 text, taken to UTC
/// as day, second of the day and nanosecond; `None` where chrono rejects
/// the text.
pub uninterp spec fn rfc3339_instant(text: Seq<char>) -> Option<(i32, u32, u32)>;

/// The day that chrono reads from `text` under a strftime `format`, counted
/// from 1 January of year 1; `None` where chrono rejects the text.
pub uninterp spec fn calendar_day(text: Seq<char>, format: Seq<char>) -> Option<i32>;

/// The RFC 3339 text that chrono writes for a number of milliseconds since
/// the epoch, in UTC; `None` where chrono cannot represent the time.
pub uninterp spec fn rfc3339_text(millis: i64) -> Option<Seq<char>>;

/// `DateTime::parse_from_rfc3339` of chrono, and of the time it read the
/// UTC day (`num_days_from_ce`), the second of the day and the nanosecond.
/// The contract only names that result.
#[verifier::external_body]
pub(crate) fn parse_rfc3339_utc(date_str: &str) -> (r: Option<(i32, u32, u32)>)
    ensures
        r == rfc3339_instant(date_str@),
{
    match DateTime::parse_from_rfc3339(date_str) {
        Ok(dt) => {
            let utc = dt.naive_utc();
            Some((utc.num_days_from_ce(), utc.num_seconds_from_midnight(), utc.nanosecond()))
        },
        Err(_) => None,
    }
}

/// `NaiveDate::parse_from_str` of chrono, and of the date it read the day
/// number (`num_days_from_ce`). The contract only names that result.
#[verifier::external_body]
pub(crate) fn parse_calendar_day(date_str: &str, format: &str) -> (r: Option<i32>)
    ensures
        r == calendar_day(date_str@, format@),
{
    match NaiveDate::parse_from_str(date_str, format) {
        Ok(date) => Some(date.num_days_from_ce()),
        Err(_) => None,
    }
}

/// `DateTime::from_timestamp_millis` of chrono followed by `to_rfc3339`.
/// The contract only names that result.
#[verifier::external_body]
pub(crate) fn format_rfc3339(millis: i64) -> (r: Option<String>)
    ensures
        match r {
            Some(text) => rfc3339_text(millis) == Some(text@),
            None => rfc3339_text(millis) is None,
        },
{
    match DateTime::from_timestamp_millis(millis) {
        Some(dt) => Some(dt.to_rfc3339()),
        None => None,
    }
}

/// The instant of a named reading.
pub open spec fn instant_of(parts: Option<(i32, u32, u32)>) -> Option<Instant> {
    match parts {
        Some((day, second_of_day, nanosecond)) => Some(Instant { day, second_of_day, nanosecond }),
        None => None,
    }
}

/// The start of a day where `end_of_day` is false, else its last second.
pub open spec fn bound_of(day: Option<i32>, end_of_day: bool) -> Option<DateBound> {
    match day {
        Some(d) => Some(
            DateBound {
                day: d,
                second_of_day: if end_of_day {
                    LAST_SECOND_OF_DAY
                } else {
                    0
                },
            },
        ),
        None => None,
    }
}

/// Whether `t` is at or after the bound.
pub open spec fn at_or_after(t: Instant, bound: DateBound) -> bool {
    t.day > bound.day || (t.day == bound.day && t.second_of_day >= bound.second_of_day)
}

/// Whether `t` is at or before the bound: the whole of the bound's second
/// counts, a leap second that is counted on behind it included.
pub open spec fn at_or_before(t: Instant, bound: DateBound) -> bool {
    t.day < bound.day || (t.day == bound.day && t.second_of_day <= bound.second_of_day)
}

/// Whether an entry stays when a range of days is asked for. An entry whose
/// time cannot be read stays; a bound that is absent excludes nothing.
pub open spec fn within_bounds(t: Option<Instant>, from: Option<DateBound>, to: Option<DateBound>)
    -> bool {
    match t {
        None => true,
        Some(t) => {
            &&& from matches Some(f) ==> at_or_after(t, f)
            &&& to matches Some(b) ==> at_or_before(t, b)
        },
    }
}

/// A range of days holds every instant of its first day, of its last day
/// and of the days between, and no other.
pub proof fn lemma_whole_days_pass(t: Instant, first: i32, last: i32)
    requires
        t.second_of_day <= LAST_SECOND_OF_DAY,
    ensures
        within_bounds(Some(t), bound_of(Some(first), false), bound_of(Some(last), true)) == (first
            <= t.day <= last),
{
}

/// Decides whether an entry stays when a range of days is asked for.
pub fn instant_within(t: Option<Instant>, from: Option<DateBound>, to: Option<DateBound>) -> (r:
    bool)
    ensures
        r == within_bounds(t, from, to),
{
    match t {
        None => true,
        Some(t) => {
            let after = match from {
                Some(f) => t.day > f.day || (t.day == f.day && t.second_of_day >= f.second_of_day),
                None => true,
            };
            let before = match to {
                Some(b) => t.day < b.day || (t.day == b.day && t.second_of_day
                    <= b.second_of_day),
                None => true,
            };
            after && before
        },
    }
}

/// Reads the time of an entry.
pub fn parse_instant(time: &str) -> (r: Option<Instant>)
    ensures
        r == instant_of(rfc3339_instant(time@)),
{
    match parse_rfc3339_utc(time) {
        Some((day, second_of_day, nanosecond)) => Some(Instant { day, second_of_day, nanosecond }),
        None => None,
    }
}

/// Reads one end of a range of days, written as year, month and day: the
/// first second of that day, or its last where `end_of_day` is set.
pub fn parse_date_bound(date_str: &str, end_of_day: bool) -> (r: Option<DateBound>)
    ensures
        r == bound_of(calendar_day(date_str@, "%Y-%m-%d"@), end_of_day),
{
    match parse_calendar_day(date_str, "%Y-%m-%d") {
        Some(day) => Some(
            DateBound {
                day,
                second_of_day: if end_of_day {
                    LAST_SECOND_OF_DAY
                } else {
                    0
                },
            },
        ),
        None => None,
    }
}

/// The text of a time in milliseconds since the epoch; empty where the time
/// is beyond what the calendar holds.
pub open spec fn iso_text(now_ms: u64) -> Seq<char> {
    if now_ms > i64::MAX {
        Seq::<char>::empty()
    } else {
        match rfc3339_text(now_ms as i64) {
            Some(t) => t,
            None => Seq::<char>::empty(),
        }
    }
}

/// Writes a time in milliseconds since the epoch as RFC 3339 text.
pub fn now_iso(now_ms: u64) -> (r: String)
    ensures
        r@ == iso_text(now_ms),
{
    if now_ms > i64::MAX as u64 {
        return String::new();
    }
    match format_rfc3339(now_ms as i64) {
        Some(text) => text,
        None => String::new(),
    }
}

} // verus!
