//! Conversion of civil calendar fields to Unix timestamps.
//!
//! The conversions accept the proleptic Gregorian years 1 through 9999 and
//! treat the given fields as a UTC instant. Invalid dates and times are
//! reported as errors, never panics.

use vstd::prelude::*;

use crate::error::{Error, ErrorKind};

verus! {

/// A specific civil date and time at one-microsecond resolution,
/// understood as UTC.
pub struct CertTime {
    pub year: i32,
    pub month: u8,
    pub day: u8,
    pub hour: u8,
    pub minute: u8,
    pub second: u8,
    pub microsecond: u32,
}

impl Default for CertTime {
    /// The last microsecond of the year 2099.
    fn default() -> (t: Self)
        ensures
            t.year == 2099,
            t.month == 12,
            t.day == 31,
            t.hour == 23,
            t.minute == 59,
            t.second == 59,
            t.microsecond == 999999,
    {
        Self {
            year: 2099,
            month: 12,
            day: 31,
            hour: 23,
            minute: 59,
            second: 59,
            microsecond: 999999,
        }
    }
}

/// Whether `y` is a leap year of the proleptic Gregorian calendar.
pub open spec fn spec_is_leap_year(y: int) -> bool {
    y % 4 == 0 && (y % 100 != 0 || y % 400 == 0)
}

/// The number of days in month `m` of year `y`.
pub open spec fn spec_days_in_month(y: int, m: int) -> int {
    if m == 2 {
        if spec_is_leap_year(y) {
            29
        } else {
            28
        }
    } else if m == 4 || m == 6 || m == 9 || m == 11 {
        30
    } else {
        31
    }
}

/// The calendar dates these conversions accept.
pub open spec fn spec_valid_date(y: int, m: int, d: int) -> bool {
    &&& 1 <= y <= 9999
    &&& 1 <= m <= 12
    &&& 1 <= d <= spec_days_in_month(y, m)
}

/// The time-of-day fields these conversions accept, apart from the
/// microsecond field, whose bound the two entry points choose.
pub open spec fn spec_valid_time(h: int, mi: int, s: int) -> bool {
    &&& 0 <= h <= 23
    &&& 0 <= mi <= 59
    &&& 0 <= s <= 59
}

/// The number of days from 1970-01-01 to the civil date `y-m-d`,
/// counted in the proleptic Gregorian calendar. The year is shifted so
/// that it begins in March, which places the leap day last and lets one
/// linear expression give the day of the shifted year.
pub open spec fn spec_days_from_civil(y: int, m: int, d: int) -> int {
    let yy = if m <= 2 {
        y - 1
    } else {
        y
    };
    let era = yy / 400;
    let yoe = yy % 400;
    let mp = if m > 2 {
        m - 3
    } else {
        m + 9
    };
    let doy = (153 * mp + 2) / 5 + d - 1;
    let doe = yoe * 365 + yoe / 4 - yoe / 100 + doy;
    era * 146097 + doe - 719468
}

/// The Unix timestamp, in whole seconds, of the civil instant
/// `y-m-d h:mi:s` UTC.
pub open spec fn spec_civil_to_unix(y: int, m: int, d: int, h: int, mi: int, s: int) -> int {
    spec_days_from_civil(y, m, d) * 86400 + h * 3600 + mi * 60 + s
}

/// Exact day count for a valid date.
fn days_from_civil(y: i64, m: i64, d: i64) -> (r: i64)
    requires
        1 <= y <= 9999,
        1 <= m <= 12,
        1 <= d <= 31,
    ensures
        r == spec_days_from_civil(y as int, m as int, d as int),
{
    let yy: i64 = if m <= 2 {
        y - 1
    } else {
        y
    };
    let era: i64 = yy / 400;
    let yoe: i64 = yy % 400;
    assert(0 <= yoe < 400);
    assert(0 <= era <= 24);
    let mp: i64 = if m > 2 {
        m - 3
    } else {
        m + 9
    };
    let doy: i64 = (153 * mp + 2) / 5 + d - 1;
    let doe: i64 = yoe * 365 + yoe / 4 - yoe / 100 + doy;
    era * 146097 + doe - 719468
}

/// The number of days in month `m` of year `y`.
fn days_in_month(y: i32, m: u8) -> (r: u8)
    requires
        1 <= y,
        1 <= m <= 12,
    ensures
        r == spec_days_in_month(y as int, m as int),
{
    if m == 2 {
        if y % 4 == 0 && (y % 100 != 0 || y % 400 == 0) {
            29
        } else {
            28
        }
    } else if m == 4 || m == 6 || m == 9 || m == 11 {
        30
    } else {
        31
    }
}

/// The shared conversion behind the two public entry points: validates
/// the fields against the given microsecond bound, then computes the
/// timestamp.
fn fields_to_timestamp(cert_time: &CertTime, max_micro: u32) -> (r: Result<i64, Error>)
    ensures
        ({
            let ct = *cert_time;
            let date_ok = spec_valid_date(ct.year as int, ct.month as int, ct.day as int);
            let time_ok = spec_valid_time(ct.hour as int, ct.minute as int, ct.second as int)
                && ct.microsecond <= max_micro;
            &&& !date_ok ==> (r matches Err(e) && e.kind == ErrorKind::Input && e.details@
                == "Invalid date"@)
            &&& date_ok && !time_ok ==> (r matches Err(e) && e.kind == ErrorKind::Input
                && e.details@ == "Invalid time"@)
            &&& date_ok && time_ok ==> (r matches Ok(ts) && ts == spec_civil_to_unix(
                ct.year as int,
                ct.month as int,
                ct.day as int,
                ct.hour as int,
                ct.minute as int,
                ct.second as int,
            ))
        }),
{
    if cert_time.year < 1 || cert_time.year > 9999 || cert_time.month < 1 || cert_time.month > 12 {
        return Err(Error::new(ErrorKind::Input, "Invalid date"));
    }
    let dim = days_in_month(cert_time.year, cert_time.month);
    if cert_time.day < 1 || cert_time.day > dim {
        return Err(Error::new(ErrorKind::Input, "Invalid date"));
    }
    if cert_time.hour > 23 || cert_time.minute > 59 || cert_time.second > 59
        || cert_time.microsecond > max_micro {
        return Err(Error::new(ErrorKind::Input, "Invalid time"));
    }
    let days = days_from_civil(
        cert_time.year as i64,
        cert_time.month as i64,
        cert_time.day as i64,
    );
    let ts = days * 86400 + (cert_time.hour as i64) * 3600 + (cert_time.minute as i64) * 60
        + (cert_time.second as i64);
    Ok(ts)
}

/// Converts the given civil fields to a Unix timestamp in whole seconds,
/// or reports an invalid date or time. The microsecond field may reach
/// 1999999, whose upper half represents an instant inside a leap second;
/// it does not contribute to the whole-second result.
pub fn datetime_to_timestamp_v1(cert_time: &CertTime) -> (r: Result<i64, Error>)
    ensures
        ({
            let ct = *cert_time;
            let valid = spec_valid_date(ct.year as int, ct.month as int, ct.day as int)
                && spec_valid_time(ct.hour as int, ct.minute as int, ct.second as int)
                && ct.microsecond <= 1999999;
            &&& valid <==> r is Ok
            &&& r matches Ok(ts) ==> ts == spec_civil_to_unix(
                ct.year as int,
                ct.month as int,
                ct.day as int,
                ct.hour as int,
                ct.minute as int,
                ct.second as int,
            )
            &&& r matches Err(e) ==> e.kind == ErrorKind::Input
            &&& !spec_valid_date(ct.year as int, ct.month as int, ct.day as int) ==> (r matches
                Err(e) && e.details@ == "Invalid date"@)
            &&& spec_valid_date(ct.year as int, ct.month as int, ct.day as int) && !valid ==> (
            r matches Err(e) && e.details@ == "Invalid time"@)
        }),
{
    fields_to_timestamp(cert_time, 1999999)
}

/// Converts the given civil fields to a Unix timestamp in whole seconds,
/// or reports an invalid date or time. The microsecond field must stay
/// below one million.
pub fn datetime_to_timestamp(cert_time: &CertTime) -> (r: Result<i64, Error>)
    ensures
        ({
            let ct = *cert_time;
            let valid = spec_valid_date(ct.year as int, ct.month as int, ct.day as int)
                && spec_valid_time(ct.hour as int, ct.minute as int, ct.second as int)
                && ct.microsecond <= 999999;
            &&& valid <==> r is Ok
            &&& r matches Ok(ts) ==> ts == spec_civil_to_unix(
                ct.year as int,
                ct.month as int,
                ct.day as int,
                ct.hour as int,
                ct.minute as int,
                ct.second as int,
            )
            &&& r matches Err(e) ==> e.kind == ErrorKind::Input
            &&& !spec_valid_date(ct.year as int, ct.month as int, ct.day as int) ==> (r matches
                Err(e) && e.details@ == "Invalid date"@)
            &&& spec_valid_date(ct.year as int, ct.month as int, ct.day as int) && !valid ==> (
            r matches Err(e) && e.details@ == "Invalid time"@)
        }),
{
    fields_to_timestamp(cert_time, 999999)
}

} // verus!
