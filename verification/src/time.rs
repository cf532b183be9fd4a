//! Instants as the store holds them: whole seconds since the Unix epoch plus a
//! nanosecond part, in the range that `chrono` can represent.

use chrono::Datelike;
use std::str::FromStr;
use vstd::prelude::*;

verus! {

/// Seconds since the Unix epoch of the first instant `chrono` represents,
/// `-262143-01-01T00:00:00`.
pub const MIN_SECS: i64 = -8_334_601_228_800;

/// Seconds since the Unix epoch of the last whole second `chrono` represents,
/// `+262142-12-31T23:59:59`.
pub const MAX_SECS: i64 = 8_210_266_876_799;

/// A point in time without a time zone, read as UTC.
#[derive(Clone, Copy, Debug, PartialEq, Eq, Structural)]
pub struct Timestamp {
    /// Whole non-leap seconds since `1970-01-01T00:00:00`.
    pub secs: i64,
    /// Nanoseconds since the last whole second; a leap second is written as a
    /// value of one thousand million or more in the last second of a minute.
    pub nanos: u32,
}

/// What `chrono::NaiveDateTime::from_str` makes of a text: the seconds since
/// the Unix epoch and the nanosecond part of the date and time it reads, or
/// `None` where it rejects the text.
pub uninterp spec fn naive_datetime_from_str(text: Seq<char>) -> Option<(i64, u32)>;

/// The instant that lies `secs` seconds and `nanos` nanoseconds after the Unix
/// epoch, if the calendar reaches that far.
pub open spec fn from_unix_parts(secs: int, nanos: int) -> Option<Timestamp> {
    if MIN_SECS <= secs <= MAX_SECS && 0 <= nanos < 1_000_000_000 {
        Some(Timestamp { secs: secs as i64, nanos: nanos as u32 })
    } else {
        None
    }
}

/// The instant `millis` milliseconds after the Unix epoch (before it, where
/// `millis` is negative).
pub open spec fn from_unix_millis(millis: int) -> Option<Timestamp> {
    from_unix_parts(millis / 1000, (millis % 1000) * 1_000_000)
}

/// The instant a text denotes, in the form `2024-01-30T12:34:56.789`.
pub open spec fn parsed(text: Seq<char>) -> Option<Timestamp> {
    match naive_datetime_from_str(text) {
        Some((secs, nanos)) => Some(Timestamp { secs, nanos }),
        None => None,
    }
}

impl Timestamp {
    /// The values that stand for an instant: seconds within the calendar's
    /// range, and a nanosecond part below two seconds that passes one second
    /// only in the 59th second of a minute.
    pub open spec fn wf(&self) -> bool {
        &&& MIN_SECS <= self.secs <= MAX_SECS
        &&& self.nanos < 2_000_000_000
        &&& (self.nanos >= 1_000_000_000 ==> self.secs as int % 60 == 59)
    }

    /// Chronological order: by seconds, then by the nanosecond part.
    pub open spec fn before(&self, other: &Timestamp) -> bool {
        self.secs < other.secs || (self.secs == other.secs && self.nanos < other.nanos)
    }

    /// Whether `self` comes strictly earlier than `other`.
    pub fn is_before(&self, other: &Timestamp) -> (r: bool)
        ensures
            r == self.before(other),
    {
        self.secs < other.secs || (self.secs == other.secs && self.nanos < other.nanos)
    }

    /// The instant `millis` milliseconds from the Unix epoch, or `None` beyond
    /// the calendar's range.
    pub fn from_timestamp_millis(millis: i64) -> (r: Option<Timestamp>)
        ensures
            r == from_unix_millis(millis as int),
            r matches Some(t) ==> t.wf(),
    {
        datetime_from_timestamp_millis(millis)
    }

    /// Reads a date and time written as `2024-01-30T12:34:56`, with an optional
    /// fraction of a second. The result is the one `chrono` gives for the text.
    pub fn parse(text: &str) -> (r: Option<Timestamp>)
        ensures
            r == parsed(text@),
            r matches Some(t) ==> t.wf(),
    {
        match naive_datetime_parse(text) {
            Some((secs, nanos)) => Some(Timestamp { secs, nanos }),
            None => None,
        }
    }

    /// The current time.
    pub fn now() -> (r: Timestamp)
        ensures
            r.wf(),
    {
        utc_now()
    }
}

/// Calls `chrono::DateTime::from_timestamp_millis`. Claimed: the call splits
/// the count into euclidean seconds and a millisecond remainder and succeeds
/// exactly when the seconds lie between `MIN_SECS` and `MAX_SECS`; the result
/// reports those seconds and the remainder as nanoseconds.
#[verifier::external_body]
fn datetime_from_timestamp_millis(millis: i64) -> (r: Option<Timestamp>)
    ensures
        r == from_unix_millis(millis as int),
{
    match chrono::DateTime::from_timestamp_millis(millis) {
        Some(t) => Some(Timestamp { secs: t.timestamp(), nanos: t.timestamp_subsec_nanos() }),
        None => None,
    }
}

/// Calls `chrono::NaiveDateTime::from_str`. Claimed: the outcome depends on the
/// text alone, and a date and time that it accepts lies within the calendar's
/// range with a nanosecond part that `chrono` admits.
#[verifier::external_body]
fn naive_datetime_parse(text: &str) -> (r: Option<(i64, u32)>)
    ensures
        r == naive_datetime_from_str(text@),
        r matches Some((secs, nanos)) ==> (Timestamp { secs, nanos }).wf(),
{
    match chrono::NaiveDateTime::from_str(text) {
        Ok(t) => Some((t.and_utc().timestamp(), t.and_utc().timestamp_subsec_nanos())),
        Err(_) => None,
    }
}

/// Calls `chrono::Utc::now`, which reads the system clock and panics if that
/// clock is set before 1970. Claimed: whatever the clock says, the value is one
/// that `chrono` represents.
#[verifier::external_body]
fn utc_now() -> (r: Timestamp)
    ensures
        r.wf(),
{
    let t = chrono::Utc::now();
    Timestamp { secs: t.timestamp(), nanos: t.timestamp_subsec_nanos() }
}

/// Day number of the first date `chrono` represents, `-262143-01-01`.
pub const MIN_DAYS: i32 = -95_746_129;

/// Day number of the last date `chrono` represents, `+262142-12-31`.
pub const MAX_DAYS: i32 = 95_745_399;

/// A calendar date.
#[derive(Clone, Copy, Debug, PartialEq, Eq, Structural)]
pub struct Date {
    /// Days in the proleptic Gregorian calendar, counted from `0001-01-01` as
    /// day one.
    pub days_from_ce: i32,
}

/// What `chrono::NaiveDate::parse_from_str` makes of a text under the format
/// `%Y-%m-%d`: the day number of the date it reads, or `None` where it rejects
/// the text.
pub uninterp spec fn naive_date_parse_ymd(text: Seq<char>) -> Option<i32>;

/// What `chrono::NaiveDate::from_str` makes of a text: the day number of the
/// date it reads, or `None` where it rejects the text.
pub uninterp spec fn naive_date_from_str(text: Seq<char>) -> Option<i32>;

/// How a date is written in a request.
#[derive(Clone, Copy, Debug, PartialEq, Eq, Structural)]
pub enum DateFormat {
    /// Year, month and day as the pattern `%Y-%m-%d` reads them.
    YearMonthDay,
    /// Year, month and day as the date type itself reads a text.
    Plain,
}

/// The date a text denotes under a format.
pub open spec fn parsed_date(text: Seq<char>, format: DateFormat) -> Option<Date> {
    let days = match format {
        DateFormat::YearMonthDay => naive_date_parse_ymd(text),
        DateFormat::Plain => naive_date_from_str(text),
    };
    match days {
        Some(days_from_ce) => Some(Date { days_from_ce }),
        None => None,
    }
}

impl Date {
    /// The day numbers that stand for a date.
    pub open spec fn wf(&self) -> bool {
        MIN_DAYS <= self.days_from_ce <= MAX_DAYS
    }

    /// Reads a date written as `2024-01-30`. The result is the one `chrono`
    /// gives for the text under the format.
    pub fn parse(text: &str, format: DateFormat) -> (r: Option<Date>)
        ensures
            r == parsed_date(text@, format),
            r matches Some(date) ==> date.wf(),
    {
        let days = match format {
            DateFormat::YearMonthDay => naive_date_parse_from_str(text),
            DateFormat::Plain => naive_date_parse(text),
        };
        match days {
            Some(days_from_ce) => Some(Date { days_from_ce }),
            None => None,
        }
    }
}

/// Calls `chrono::NaiveDate::parse_from_str` with the format `%Y-%m-%d`.
/// Claimed: the outcome depends on the text alone, and the day number of a
/// date lies within the calendar's range.
#[verifier::external_body]
fn naive_date_parse_from_str(text: &str) -> (r: Option<i32>)
    ensures
        r == naive_date_parse_ymd(text@),
        r matches Some(days) ==> MIN_DAYS <= days <= MAX_DAYS,
{
    match chrono::NaiveDate::parse_from_str(text, "%Y-%m-%d") {
        Ok(date) => Some(date.num_days_from_ce()),
        Err(_) => None,
    }
}

/// Calls `chrono::NaiveDate::from_str`. Claimed: the outcome depends on the
/// text alone, and the day number of a date lies within the calendar's range.
#[verifier::external_body]
fn naive_date_parse(text: &str) -> (r: Option<i32>)
    ensures
        r == naive_date_from_str(text@),
        r matches Some(days) ==> MIN_DAYS <= days <= MAX_DAYS,
{
    match chrono::NaiveDate::from_str(text) {
        Ok(date) => Some(date.num_days_from_ce()),
        Err(_) => None,
    }
}

} // verus!
