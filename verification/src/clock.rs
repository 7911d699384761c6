//! Reading, parsing and printing time, on top of the `chrono` crate.

use crate::calls::outcome_of;
use chrono::{Datelike, Timelike};
use vstd::prelude::*;

verus! {

/// A point in time: seconds since 1970-01-01 00:00:00 UTC, and nanoseconds
/// within the second.
#[derive(Debug, Clone, Copy, PartialEq, Eq, Structural)]
pub struct Timestamp {
    pub secs: i64,
    pub nanos: u32,
}

impl Timestamp {
    /// Whether this time comes strictly before `other`.
    pub open spec fn before(self, other: Timestamp) -> bool {
        self.secs < other.secs || (self.secs == other.secs && self.nanos < other.nanos)
    }

    /// Whether this time comes strictly before `other`.
    pub fn is_before(self, other: Timestamp) -> (r: bool)
        ensures
            r == self.before(other),
    {
        self.secs < other.secs || (self.secs == other.secs && self.nanos < other.nanos)
    }
}

/// The time on a wall clock in the local time zone.
#[derive(Debug, Clone, Copy, PartialEq, Eq, Structural)]
pub struct LocalTime {
    /// Whole seconds since midnight.
    pub second_of_day: u32,
    /// Day of the week, 0 = Monday to 6 = Sunday.
    pub weekday: u8,
}

impl LocalTime {
    /// A time that a clock can show.
    pub open spec fn valid(self) -> bool {
        self.second_of_day < 86400 && self.weekday < 7
    }
}

/// Whether a time lies in the range of `chrono`'s dates: from January 1 of the
/// year -262143 to December 31 of the year 262142.
pub open spec fn in_range(secs: int) -> bool {
    -8_334_601_228_800 <= secs <= 8_210_266_876_799
}

/// What `chrono` prints for a time, in the format of RFC 3339 with the offset
/// `+00:00`; nothing for a time outside its range or with an invalid
/// nanosecond part.
pub uninterp spec fn rfc3339_text(secs: i64, nanos: u32) -> Option<Seq<char>>;

/// The time that `chrono` reads from an RFC 3339 text, in seconds since 1970
/// UTC and nanoseconds; nothing if it rejects the text.
pub uninterp spec fn rfc3339_time(text: Seq<char>) -> Option<(i64, u32)>;

/// The time a number of days before the given one, as `chrono` subtracts them;
/// nothing if either time is outside its range.
pub uninterp spec fn days_before(secs: i64, nanos: u32, days: u32) -> Option<(i64, u32)>;

/// `chrono::Utc::now`: the current time. Nothing is claimed of which time it
/// is, only that it is a time since 1970 without a leap second, and one that
/// `chrono` can print. A machine whose clock stands before 1970 makes it panic.
#[verifier::external_body]
fn utc_now() -> (r: Timestamp)
    ensures
        r.secs >= 0,
        in_range(r.secs as int),
        r.nanos < 1_000_000_000,
        rfc3339_text(r.secs, r.nanos) is Some,
{
    let now = chrono::Utc::now();
    Timestamp { secs: now.timestamp(), nanos: now.timestamp_subsec_nanos() }
}

/// `chrono::Local::now`: the current local time. Nothing is claimed of which
/// time it is, only that it is a time of day and a day of the week. A machine
/// whose clock stands before 1970 makes it panic.
#[verifier::external_body]
fn local_now() -> (r: LocalTime)
    ensures
        r.valid(),
{
    let now = chrono::Local::now();
    LocalTime {
        second_of_day: now.time().num_seconds_from_midnight(),
        weekday: now.weekday().num_days_from_monday() as u8,
    }
}

/// `chrono::NaiveTime::from_hms_opt`: the time of day at a full minute, in
/// seconds since midnight. There is one exactly if the hour is below 24 and
/// the minute below 60.
#[verifier::external_body]
pub(crate) fn full_minute(hour: u32, minute: u32) -> (r: Option<u32>)
    ensures
        r == (if hour < 24 && minute < 60 {
            Some((hour * 3600 + minute * 60) as u32)
        } else {
            None::<u32>
        }),
{
    let time = chrono::NaiveTime::from_hms_opt(hour, minute, 0)?;
    Some(time.num_seconds_from_midnight())
}

/// `chrono::DateTime::parse_from_rfc3339`: the time that a text stands for, or
/// nothing if the text is not valid RFC 3339. The result is a function of the
/// text, named [`rfc3339_time`].
#[verifier::external_body]
pub(crate) fn parse_rfc3339(text: &str) -> (r: Option<(i64, u32)>)
    ensures
        r == rfc3339_time(text@),
{
    match chrono::DateTime::parse_from_rfc3339(text) {
        Ok(time) => Some((time.timestamp(), time.timestamp_subsec_nanos())),
        Err(_) => None,
    }
}

/// `chrono::DateTime::to_rfc3339` on a UTC time. The result is a function of
/// the time, named [`rfc3339_text`]. Outside leap seconds there is one exactly
/// if the time lies in the range of dates.
#[verifier::external_body]
pub(crate) fn print_rfc3339(secs: i64, nanos: u32) -> (r: Option<String>)
    ensures
        r is Some == rfc3339_text(secs, nanos) is Some,
        r matches Some(text) ==> rfc3339_text(secs, nanos) == Some(text@),
        nanos < 1_000_000_000 ==> r is Some == in_range(secs as int),
{
    let time = chrono::DateTime::from_timestamp(secs, nanos)?;
    Some(time.to_rfc3339())
}

/// `chrono::DateTime::checked_sub_signed` with a number of days on a UTC time.
/// The result is a function of the arguments, named [`days_before`]. Where the
/// given time is not within a leap second, a day is 86400 seconds, the
/// nanoseconds stay, and there is a result exactly if both times lie in the
/// range of dates.
#[verifier::external_body]
pub(crate) fn subtract_days(secs: i64, nanos: u32, days: u32) -> (r: Option<(i64, u32)>)
    ensures
        r == days_before(secs, nanos, days),
        nanos < 1_000_000_000 ==> r is Some == (in_range(secs as int) && in_range(
            secs - 86400 * days,
        )),
        nanos < 1_000_000_000 ==> (r matches Some(t) ==> t.0 == secs - 86400 * days && t.1
            == nanos),
{
    let time = chrono::DateTime::from_timestamp(secs, nanos)?;
    let moved = time.checked_sub_signed(chrono::TimeDelta::days(days as i64))?;
    Some((moved.timestamp(), moved.timestamp_subsec_nanos()))
}

/// Whether a time may be what the UTC clock showed when it was read.
pub closed spec fn shown_by_utc_clock(now: Timestamp) -> bool {
    call_ensures(utc_now, (), now)
}

/// Whether a time may be what the local clock showed when it was read.
pub closed spec fn shown_by_local_clock(local: LocalTime) -> bool {
    call_ensures(local_now, (), local)
}

/// A reading of the UTC clock: a time that it showed, since 1970, without a
/// leap second, and printable.
pub open spec fn utc_reading(now: Timestamp) -> bool {
    &&& shown_by_utc_clock(now)
    &&& now.secs >= 0
    &&& in_range(now.secs as int)
    &&& now.nanos < 1_000_000_000
    &&& rfc3339_text(now.secs, now.nanos) is Some
}

/// A reading of the local clock: a valid time that it showed.
pub open spec fn local_reading(local: LocalTime) -> bool {
    shown_by_local_clock(local) && local.valid()
}

/// Reads the UTC clock.
pub(crate) fn read_utc_clock() -> (r: Timestamp)
    ensures
        utc_reading(r),
{
    outcome_of(utc_now)
}

/// Reads the local clock.
pub(crate) fn read_local_clock() -> (r: LocalTime)
    ensures
        local_reading(r),
{
    outcome_of(local_now)
}

} // verus!
