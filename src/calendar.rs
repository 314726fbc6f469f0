use vstd::prelude::*;

use chrono::{Datelike, TimeZone};

use crate::file_time_util::AdjustableFileTime;

verus! {

#[verifier::external_type_specification]
#[verifier::external_body]
pub struct ExNaiveDate(chrono::NaiveDate);

/// Leap years of the proleptic Gregorian calendar.
pub open spec fn is_leap_year(year: int) -> bool {
    year % 4 == 0 && (year % 100 != 0 || year % 400 == 0)
}

pub open spec fn days_in_month(year: int, month: int) -> int {
    if month == 2 {
        if is_leap_year(year) {
            29
        } else {
            28
        }
    } else if month == 4 || month == 6 || month == 9 || month == 11 {
        30
    } else {
        31
    }
}

/// A day that exists in the proleptic Gregorian calendar, within the years that
/// chrono's `NaiveDate` can hold.
pub open spec fn valid_calendar_date(year: int, month: int, day: int) -> bool {
    &&& -262143 <= year <= 262142
    &&& 1 <= month <= 12
    &&& 1 <= day <= days_in_month(year, month)
}

/// Relies on chrono's `NaiveDate::from_ymd_opt`: a date exactly when the calendar day
/// exists and the year is within `NaiveDate`'s range.
pub assume_specification[ chrono::NaiveDate::from_ymd_opt ](year: i32, month: u32, day: u32) -> (r:
    Option<chrono::NaiveDate>)
    ensures
        r is Some <==> valid_calendar_date(year as int, month as int, day as int),
;

/// Relies on chrono's `Local.from_local_datetime(..).single()` and
/// `DateTime::timestamp`: the Unix seconds of a wall-clock time in the machine's time
/// zone, or `None` where that local time does not exist or is ambiguous. The
/// arguments are turned into a `NaiveDateTime` with `NaiveDate::from_ymd_opt` and
/// `NaiveDate::and_hms_opt`, which succeed on every argument the `requires` admits.
/// The answer depends on the machine's time zone, so nothing is promised of it.
#[verifier::external_body]
pub(crate) fn local_timestamp(
    year: i32,
    month: u32,
    day: u32,
    hour: u32,
    minute: u32,
    second: u32,
) -> (r: Option<i64>)
    requires
        valid_calendar_date(year as int, month as int, day as int),
        hour < 24,
        minute < 60,
        second < 60,
{
    let local = chrono::NaiveDate::from_ymd_opt(year, month, day)?.and_hms_opt(hour, minute, second)?;
    chrono::Local.from_local_datetime(&local).single().map(|t| t.timestamp())
}

/// Relies on chrono's `Local::now` and `Datelike::year`: the current year of the
/// machine's calendar. Nothing is promised of the value.
#[verifier::external_body]
pub(crate) fn current_local_year() -> (r: i32) {
    chrono::Local::now().year()
}

/// What chrono's `DateTime::parse_from_rfc3339` reads from a string, as Unix seconds
/// and the nanosecond part, or `None` where it refuses the string.
pub uninterp spec fn rfc3339_instant(s: Seq<char>) -> Option<(i64, u32)>;

/// Relies on chrono's `DateTime::parse_from_rfc3339`, `DateTime::timestamp` and
/// `DateTime::timestamp_subsec_nanos`: an RFC 3339 date-time with an explicit offset,
/// read as an absolute instant. The result depends on the string alone.
#[verifier::external_body]
pub(crate) fn parse_rfc3339(s: &str) -> (r: Option<(i64, u32)>)
    ensures
        r == rfc3339_instant(s@),
{
    chrono::DateTime::parse_from_rfc3339(s).ok().map(|t| (t.timestamp(), t.timestamp_subsec_nanos()))
}

/// Relies on chrono's `Utc::now`, `DateTime::timestamp` and
/// `DateTime::timestamp_subsec_nanos`: the system clock read as seconds and
/// nanoseconds since the Unix epoch. Nothing is promised of the value.
#[verifier::external_body]
pub(crate) fn utc_now() -> (r: AdjustableFileTime) {
    let now = chrono::Utc::now();
    AdjustableFileTime { seconds: now.timestamp(), nanos: now.timestamp_subsec_nanos() }
}

/// The instant that a local wall-clock time stands for, given the Unix seconds `base`
/// that the time zone gives for it with the seconds read as at most 59. A leap second
/// (second 60) is the second after that; `None` where the zone gave no answer or the
/// leap second leaves the `i64` range.
pub open spec fn local_result(base: Option<i64>, leap: bool, nanos: u32) -> Option<
    AdjustableFileTime,
> {
    match base {
        None => None,
        Some(b) => if !leap {
            Some(AdjustableFileTime { seconds: b, nanos })
        } else if b < i64::MAX {
            Some(AdjustableFileTime { seconds: (b + 1) as i64, nanos })
        } else {
            None
        },
    }
}

/// The instant of a wall-clock time whose seconds are `second`, from the answer `base`
/// of the time zone.
pub open spec fn wall_clock_result(base: Option<i64>, second: u32, nanos: u32) -> Option<
    AdjustableFileTime,
> {
    local_result(base, second == 60, nanos)
}

/// The instant of a local wall-clock time from what the time zone gave for it.
pub fn instant_from_local(base: Option<i64>, leap: bool, nanos: u32) -> (r: Option<
    AdjustableFileTime,
>)
    ensures
        r == local_result(base, leap, nanos),
{
    match base {
        None => None,
        Some(b) => if !leap {
            Some(AdjustableFileTime { seconds: b, nanos })
        } else if b < i64::MAX {
            Some(AdjustableFileTime { seconds: b + 1, nanos })
        } else {
            None
        },
    }
}

/// The instant of a local wall-clock time in the machine's time zone. A second of 60
/// (a leap second) is read as the first second of the next minute. `None` where the
/// local time does not exist or is ambiguous.
pub fn local_instant(
    year: i32,
    month: u32,
    day: u32,
    hour: u32,
    minute: u32,
    second: u32,
    nanos: u32,
) -> (r: Option<AdjustableFileTime>)
    requires
        valid_calendar_date(year as int, month as int, day as int),
        hour < 24,
        minute < 60,
        second <= 60,
    ensures
        exists|base: Option<i64>| r == #[trigger] wall_clock_result(base, second, nanos),
{
    let leap = second == 60;
    let whole = if leap { 59 } else { second };
    let base = local_timestamp(year, month, day, hour, minute, whole);
    let r = instant_from_local(base, leap, nanos);
    assert(r == wall_clock_result(base, second, nanos));
    r
}

} // verus!
