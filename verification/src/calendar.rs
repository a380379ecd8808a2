//! Calendar dates, clock times and their text, as `chrono` computes them.
//!
//! Dates and times travel through the library as plain numbers; every
//! validation, rendering and epoch computation is done by `chrono` behind the
//! trusted items below, whose contracts state what `chrono` documents.
use chrono::{DateTime, NaiveDate, NaiveDateTime, NaiveTime, Utc};
use vstd::prelude::*;

use crate::text::decimal_digits;

verus! {

/// Leap years of the proleptic Gregorian calendar.
pub open spec fn is_leap_year(y: int) -> bool {
    y % 4 == 0 && (y % 100 != 0 || y % 400 == 0)
}

pub open spec fn days_in_month(y: int, m: int) -> int {
    if m == 2 {
        if is_leap_year(y) {
            29
        } else {
            28
        }
    } else if m == 4 || m == 6 || m == 9 || m == 11 {
        30
    } else {
        31
    }
}

/// The smallest and largest years that `chrono::NaiveDate` accepts.
pub open spec fn chrono_min_year() -> int {
    -262143
}

pub open spec fn chrono_max_year() -> int {
    262142
}

/// The calendar day `y`-`m`-`d` exists and lies in chrono's range.
pub open spec fn date_exists(y: int, m: int, d: int) -> bool {
    &&& chrono_min_year() <= y <= chrono_max_year()
    &&& 1 <= m <= 12
    &&& 1 <= d <= days_in_month(y, m)
}

/// The clock time exists; a nanosecond part of one second or more stands for
/// a leap second and is allowed only at second 59.
pub open spec fn time_exists(h: int, m: int, s: int, ns: int) -> bool {
    &&& 0 <= h < 24
    &&& 0 <= m < 60
    &&& 0 <= s < 60
    &&& 0 <= ns < 2_000_000_000
    &&& (ns >= 1_000_000_000 ==> s == 59)
}

/// The decimal digits of `n`, with leading zeros up to `width` digits.
pub open spec fn zero_padded(n: nat, width: nat) -> Seq<char> {
    let digits = decimal_digits(n);
    if digits.len() >= width {
        digits
    } else {
        Seq::new((width - digits.len()) as nat, |_i: int| '0') + digits
    }
}

/// How chrono writes a year: four digits within 0..=9999, otherwise an
/// explicit sign followed by at least four digits.
pub open spec fn year_text(y: int) -> Seq<char> {
    if 0 <= y <= 9999 {
        zero_padded(y as nat, 4)
    } else if y < 0 {
        seq!['-'] + zero_padded((-y) as nat, 4)
    } else {
        seq!['+'] + zero_padded(y as nat, 4)
    }
}

/// `YYYY-MM-DD`, as `NaiveDate`'s `Display` and the `%Y-%m-%d` pattern write it.
pub open spec fn date_text(y: int, m: int, d: int) -> Seq<char> {
    year_text(y) + seq!['-'] + zero_padded(m as nat, 2) + seq!['-'] + zero_padded(d as nat, 2)
}

/// The second as displayed: a leap second shows as 60.
pub open spec fn shown_second(s: int, ns: int) -> int {
    if ns >= 1_000_000_000 {
        s + 1
    } else {
        s
    }
}

/// `HH:MM:SS`, as the `%H:%M:%S` pattern writes it.
pub open spec fn clock_text(h: int, m: int, s: int, ns: int) -> Seq<char> {
    zero_padded(h as nat, 2) + seq![':'] + zero_padded(m as nat, 2) + seq![':'] + zero_padded(
        shown_second(s, ns) as nat,
        2,
    )
}

/// The fraction of a second that `NaiveTime`'s `Display` appends: nothing for
/// a whole second, otherwise 3, 6 or 9 digits, the fewest that are exact.
pub open spec fn fraction_text(ns: int) -> Seq<char> {
    let nano = if ns >= 1_000_000_000 {
        ns - 1_000_000_000
    } else {
        ns
    };
    if nano == 0 {
        Seq::empty()
    } else if nano % 1_000_000 == 0 {
        seq!['.'] + zero_padded((nano / 1_000_000) as nat, 3)
    } else if nano % 1_000 == 0 {
        seq!['.'] + zero_padded((nano / 1_000) as nat, 6)
    } else {
        seq!['.'] + zero_padded(nano as nat, 9)
    }
}

/// `NaiveTime`'s `Display`.
pub open spec fn time_text(h: int, m: int, s: int, ns: int) -> Seq<char> {
    clock_text(h, m, s, ns) + fraction_text(ns)
}

/// Days from 1970-01-01 to `y`-`m`-`d` in the proleptic Gregorian calendar.
pub open spec fn days_from_civil(y: int, m: int, d: int) -> int {
    let yy = if m <= 2 {
        y - 1
    } else {
        y
    };
    let era = yy / 400;
    let yoe = yy - era * 400;
    let mp = if m > 2 {
        m - 3
    } else {
        m + 9
    };
    let doy = (153 * mp + 2) / 5 + d - 1;
    let doe = yoe * 365 + yoe / 4 - yoe / 100 + doy;
    era * 146097 + doe - 719468
}

/// Seconds since 1970-01-01 00:00:00 UTC, leap seconds not counted.
pub open spec fn epoch_seconds(y: int, mo: int, d: int, h: int, mi: int, s: int) -> int {
    days_from_civil(y, mo, d) * 86400 + h * 3600 + mi * 60 + s
}

/// Calls `chrono::NaiveDate::from_ymd_opt`; claims it gives a date exactly
/// when the day exists in the proleptic Gregorian calendar and the year lies
/// in chrono's range, as chrono documents.
#[verifier::external_body]
pub(crate) fn chrono_date_exists(year: i32, month: u32, day: u32) -> (r: bool)
    ensures
        r == date_exists(year as int, month as int, day as int),
{
    NaiveDate::from_ymd_opt(year, month, day).is_some()
}

/// Calls `chrono::NaiveTime::from_hms_nano_opt`; claims it gives a time
/// exactly when hour, minute and second are in range and the nanosecond part
/// is below one second, or below two at second 59 (a leap second).
#[verifier::external_body]
pub(crate) fn chrono_time_exists(hour: u32, minute: u32, second: u32, nano: u32) -> (r: bool)
    ensures
        r == time_exists(hour as int, minute as int, second as int, nano as int),
{
    NaiveTime::from_hms_nano_opt(hour, minute, second, nano).is_some()
}

/// Calls `chrono::NaiveDateTime::format` on the date and time built from the
/// given fields; claims that with the pattern `%Y-%m-%d %H:%M:%S` it writes
/// the date and the clock time separated by a space.
#[verifier::external_body]
pub(crate) fn chrono_naive_datetime_format(
    year: i32,
    month: u32,
    day: u32,
    hour: u32,
    minute: u32,
    second: u32,
    nano: u32,
    pattern: &str,
) -> (r: String)
    requires
        date_exists(year as int, month as int, day as int),
        time_exists(hour as int, minute as int, second as int, nano as int),
        pattern@ == "%Y-%m-%d %H:%M:%S"@,
    ensures
        r@ == date_text(year as int, month as int, day as int) + seq![' '] + clock_text(
            hour as int,
            minute as int,
            second as int,
            nano as int,
        ),
{
    NaiveDateTime::new(
        NaiveDate::from_ymd_opt(year, month, day).unwrap(),
        NaiveTime::from_hms_nano_opt(hour, minute, second, nano).unwrap(),
    ).format(pattern).to_string()
}

/// Calls `chrono::DateTime::<Utc>::format` on the UTC date-time made by
/// `DateTime::from_naive_utc_and_offset` from the given fields; claims that
/// with the pattern `%Y-%m-%d %H:%M:%S %Z` it writes the date, the clock time
/// and the zone name `UTC`, separated by spaces.
#[verifier::external_body]
pub(crate) fn chrono_utc_datetime_format(
    year: i32,
    month: u32,
    day: u32,
    hour: u32,
    minute: u32,
    second: u32,
    nano: u32,
    pattern: &str,
) -> (r: String)
    requires
        date_exists(year as int, month as int, day as int),
        time_exists(hour as int, minute as int, second as int, nano as int),
        pattern@ == "%Y-%m-%d %H:%M:%S %Z"@,
    ensures
        r@ == date_text(year as int, month as int, day as int) + seq![' '] + clock_text(
            hour as int,
            minute as int,
            second as int,
            nano as int,
        ) + seq![' ', 'U', 'T', 'C'],
{
    let naive = NaiveDateTime::new(
        NaiveDate::from_ymd_opt(year, month, day).unwrap(),
        NaiveTime::from_hms_nano_opt(hour, minute, second, nano).unwrap(),
    );
    DateTime::<Utc>::from_naive_utc_and_offset(naive, Utc).format(pattern).to_string()
}

/// Calls `to_string` on a `chrono::NaiveDate`; claims it writes `YYYY-MM-DD`.
#[verifier::external_body]
pub(crate) fn chrono_date_display(year: i32, month: u32, day: u32) -> (r: String)
    requires
        date_exists(year as int, month as int, day as int),
    ensures
        r@ == date_text(year as int, month as int, day as int),
{
    NaiveDate::from_ymd_opt(year, month, day).unwrap().to_string()
}

/// Calls `to_string` on a `chrono::NaiveTime`; claims it writes `HH:MM:SS`
/// followed by the shortest exact fraction of the second.
#[verifier::external_body]
pub(crate) fn chrono_time_display(hour: u32, minute: u32, second: u32, nano: u32) -> (r: String)
    requires
        time_exists(hour as int, minute as int, second as int, nano as int),
    ensures
        r@ == time_text(hour as int, minute as int, second as int, nano as int),
{
    NaiveTime::from_hms_nano_opt(hour, minute, second, nano).unwrap().to_string()
}

/// Calls `chrono::NaiveDateTime::and_utc` and `DateTime::timestamp`; claims the
/// result counts the seconds since the Unix epoch (leap seconds not counted).
#[verifier::external_body]
pub(crate) fn chrono_naive_utc_timestamp(
    year: i32,
    month: u32,
    day: u32,
    hour: u32,
    minute: u32,
    second: u32,
    nano: u32,
) -> (r: i64)
    requires
        date_exists(year as int, month as int, day as int),
        time_exists(hour as int, minute as int, second as int, nano as int),
    ensures
        r == epoch_seconds(
            year as int,
            month as int,
            day as int,
            hour as int,
            minute as int,
            second as int,
        ),
{
    NaiveDateTime::new(
        NaiveDate::from_ymd_opt(year, month, day).unwrap(),
        NaiveTime::from_hms_nano_opt(hour, minute, second, nano).unwrap(),
    ).and_utc().timestamp()
}

/// Calls `chrono::NaiveDateTime::and_utc` and `DateTime::timestamp_subsec_nanos`;
/// claims the result is the time's nanosecond part (a leap second included).
#[verifier::external_body]
pub(crate) fn chrono_naive_utc_subsec_nanos(
    year: i32,
    month: u32,
    day: u32,
    hour: u32,
    minute: u32,
    second: u32,
    nano: u32,
) -> (r: u32)
    requires
        date_exists(year as int, month as int, day as int),
        time_exists(hour as int, minute as int, second as int, nano as int),
    ensures
        r == nano,
{
    NaiveDateTime::new(
        NaiveDate::from_ymd_opt(year, month, day).unwrap(),
        NaiveTime::from_hms_nano_opt(hour, minute, second, nano).unwrap(),
    ).and_utc().timestamp_subsec_nanos()
}

/// Calls `chrono::DateTime::<Utc>::timestamp` on the date-time made by
/// `DateTime::from_naive_utc_and_offset`; claims the result counts the seconds
/// since the Unix epoch (leap seconds not counted).
#[verifier::external_body]
pub(crate) fn chrono_utc_timestamp(
    year: i32,
    month: u32,
    day: u32,
    hour: u32,
    minute: u32,
    second: u32,
    nano: u32,
) -> (r: i64)
    requires
        date_exists(year as int, month as int, day as int),
        time_exists(hour as int, minute as int, second as int, nano as int),
    ensures
        r == epoch_seconds(
            year as int,
            month as int,
            day as int,
            hour as int,
            minute as int,
            second as int,
        ),
{
    let naive = NaiveDateTime::new(
        NaiveDate::from_ymd_opt(year, month, day).unwrap(),
        NaiveTime::from_hms_nano_opt(hour, minute, second, nano).unwrap(),
    );
    DateTime::<Utc>::from_naive_utc_and_offset(naive, Utc).timestamp()
}

/// Calls `chrono::DateTime::<Utc>::timestamp_subsec_nanos` on the date-time
/// made by `DateTime::from_naive_utc_and_offset`; claims the result is the
/// time's nanosecond part.
#[verifier::external_body]
pub(crate) fn chrono_utc_subsec_nanos(
    year: i32,
    month: u32,
    day: u32,
    hour: u32,
    minute: u32,
    second: u32,
    nano: u32,
) -> (r: u32)
    requires
        date_exists(year as int, month as int, day as int),
        time_exists(hour as int, minute as int, second as int, nano as int),
    ensures
        r == nano,
{
    let naive = NaiveDateTime::new(
        NaiveDate::from_ymd_opt(year, month, day).unwrap(),
        NaiveTime::from_hms_nano_opt(hour, minute, second, nano).unwrap(),
    );
    DateTime::<Utc>::from_naive_utc_and_offset(naive, Utc).timestamp_subsec_nanos()
}

/// The UTC date and clock fields `y`-`mo`-`d` `h`:`mi`:`s` with nanosecond
/// part `ns` exist and lie `secs` seconds after the Unix epoch.
pub open spec fn utc_fields(secs: int, ns: int, y: int, mo: int, d: int, h: int, mi: int, s: int) -> bool {
    &&& date_exists(y, mo, d)
    &&& time_exists(h, mi, s, ns)
    &&& epoch_seconds(y, mo, d, h, mi, s) == secs
}

/// Calls `chrono::DateTime::<Utc>::from_timestamp` and formats the result with
/// `format`; claims a result exactly when the seconds and nanoseconds name a
/// date-time in chrono's range, and that with the pattern `%Y-%m-%d %H:%M:%S`
/// it writes that date and clock time separated by a space.
#[verifier::external_body]
pub(crate) fn chrono_timestamp_format(secs: i64, nanos: u32, pattern: &str) -> (r: Option<String>)
    requires
        pattern@ == "%Y-%m-%d %H:%M:%S"@,
    ensures
        r is Some <==> exists|y: int, mo: int, d: int, h: int, mi: int, s: int|
            utc_fields(secs as int, nanos as int, y, mo, d, h, mi, s),
        r matches Some(t) ==> exists|y: int, mo: int, d: int, h: int, mi: int, s: int|
            utc_fields(secs as int, nanos as int, y, mo, d, h, mi, s) && t@ == date_text(y, mo, d)
                + seq![' '] + clock_text(h, mi, s, nanos as int),
{
    match DateTime::<Utc>::from_timestamp(secs, nanos) {
        Some(t) => Some(t.format(pattern).to_string()),
        None => None,
    }
}

} // verus!
