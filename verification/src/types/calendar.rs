//! The calendar computations that chrono performs for the timestamp
//! conversions, each behind a trusted wrapper from plain values to plain values.

use vstd::prelude::*;

verus! {

/// A leap year of the proleptic Gregorian calendar.
pub open spec fn is_leap_year(year: int) -> bool {
    year % 4 == 0 && (year % 100 != 0 || year % 400 == 0)
}

/// The number of days of a month (1-12) of a year.
pub open spec fn days_in_month(year: int, month: int) -> int {
    if month == 2 {
        if is_leap_year(year) {
            29
        } else {
            28
        }
    } else if month == 4 || month == 6 || month == 9 || month == 11 {
        30
    } else {
        31
    }
}

/// The days of a year before the first of a month (1-12).
pub open spec fn days_before_month(year: int, month: int) -> int {
    let common: int = if month == 1 {
        0
    } else if month == 2 {
        31
    } else if month == 3 {
        59
    } else if month == 4 {
        90
    } else if month == 5 {
        120
    } else if month == 6 {
        151
    } else if month == 7 {
        181
    } else if month == 8 {
        212
    } else if month == 9 {
        243
    } else if month == 10 {
        273
    } else if month == 11 {
        304
    } else {
        334
    };
    let leap_day: int = if month > 2 && is_leap_year(year) {
        1
    } else {
        0
    };
    common + leap_day
}

/// The days from 1970-01-01 to January 1 of a year: 365 for each year, plus
/// one for each leap year, counted from year 1 (day -719 162).
pub open spec fn days_before_year(year: int) -> int {
    let p = year - 1;
    365 * p + p / 4 - p / 100 + p / 400 - 719_162
}

/// The day number (days after 1970-01-01) of a date of the proleptic
/// Gregorian calendar.
pub open spec fn civil_to_epoch_days(year: int, month: int, day: int) -> int {
    days_before_year(year) + days_before_month(year, month) + day - 1
}

/// A valid date: a month from 1 to 12 and a day within that month.
pub open spec fn is_valid_date(year: int, month: int, day: int) -> bool {
    1 <= month <= 12 && 1 <= day <= days_in_month(year, month)
}

/// Day numbers (days after 1970-01-01) chrono can represent: from
/// `NaiveDate::MIN`, January 1 of year -262 143 (262 144 BCE), to
/// `NaiveDate::MAX`, December 31 of year 262 142.
pub open spec fn epoch_days_in_range(days: int) -> bool {
    -96_465_292 <= days <= 95_026_236
}

/// Seconds since 1970-01-01 00:00:00 UTC that fall on a day chrono can
/// represent.
pub open spec fn timestamp_secs_in_range(secs: int) -> bool {
    -8_334_601_228_800 <= secs <= 8_210_266_876_799
}

/// What chrono's `DateTime::<Utc>::from_timestamp(secs, nsecs)` gives, read
/// back as `(timestamp(), timestamp_subsec_nanos())`: the arguments
/// themselves, when the day is in range and the nanoseconds are valid for
/// the second of the day; otherwise nothing.
pub open spec fn utc_timestamp(secs: int, nsecs: int) -> Option<(i64, u32)> {
    if timestamp_secs_in_range(secs) && 0 <= nsecs < 0x1_0000_0000 && time_of_day_valid(
        (secs % 86_400) as u32,
        nsecs as u32,
    ) {
        Some((secs as i64, nsecs as u32))
    } else {
        None
    }
}

/// Whether chrono's `NaiveTime::from_num_seconds_from_midnight_opt` accepts a
/// pair: a second of the day below 86 400, and a nanosecond below one second,
/// or below two seconds on the last second of a minute (a leap second).
pub open spec fn time_of_day_valid(secs: u32, nano: u32) -> bool {
    &&& secs < 86_400
    &&& nano < 2_000_000_000
    &&& (nano < 1_000_000_000 || secs % 60 == 59)
}

/// Calls `chrono::NaiveDate::from_epoch_days` and reads the date back as
/// `(year(), month(), day())`. Trusted, as chrono documents: the date is the
/// day of the proleptic Gregorian calendar that many days after 1970-01-01,
/// and it exists exactly for the day numbers between `NaiveDate::MIN` and
/// `NaiveDate::MAX`.
#[verifier::external_body]
pub(crate) fn date_from_epoch_days(days: i32) -> (r: Option<(i32, u32, u32)>)
    ensures
        r is Some <==> epoch_days_in_range(days as int),
        r matches Some(d) ==> is_valid_date(d.0 as int, d.1 as int, d.2 as int)
            && civil_to_epoch_days(d.0 as int, d.1 as int, d.2 as int) == days,
{
    chrono::NaiveDate::from_epoch_days(days).map(
        |d| (chrono::Datelike::year(&d), chrono::Datelike::month(&d), chrono::Datelike::day(&d)),
    )
}

/// Calls `chrono::NaiveTime::from_num_seconds_from_midnight_opt` and reads the
/// time back as `(num_seconds_from_midnight(), nanosecond())`. Trusted, as
/// chrono's source shows: the time exists exactly when the pair is valid (see
/// `time_of_day_valid`) and then reads back as the pair itself.
#[verifier::external_body]
pub(crate) fn time_from_seconds_of_day(secs: u32, nano: u32) -> (r: Option<(u32, u32)>)
    ensures
        r == (if time_of_day_valid(secs, nano) {
            Some((secs, nano))
        } else {
            None::<(u32, u32)>
        }),
{
    chrono::NaiveTime::from_num_seconds_from_midnight_opt(secs, nano).map(
        |t| (chrono::Timelike::num_seconds_from_midnight(&t), chrono::Timelike::nanosecond(&t)),
    )
}

/// Calls `chrono::DateTime::<Utc>::from_timestamp` and reads the instant back
/// as `(timestamp(), timestamp_subsec_nanos())`. Trusted, as chrono's source
/// shows: an instant exists when the day is between `NaiveDate::MIN` and
/// `NaiveDate::MAX` and the nanoseconds are valid for the second of the day,
/// and it round-trips to the arguments.
#[verifier::external_body]
pub(crate) fn utc_from_timestamp(secs: i64, nsecs: u32) -> (r: Option<(i64, u32)>)
    ensures
        r == utc_timestamp(secs as int, nsecs as int),
{
    chrono::DateTime::<chrono::Utc>::from_timestamp(secs, nsecs).map(
        |t| (t.timestamp(), t.timestamp_subsec_nanos()),
    )
}

/// Calls `chrono::DateTime::<Utc>::from_timestamp_millis` and reads the
/// instant back as `(timestamp(), timestamp_subsec_nanos())`. Trusted, as
/// chrono's source shows: it is `from_timestamp` of the floored split of the
/// milliseconds into seconds and nanoseconds.
#[verifier::external_body]
pub(crate) fn utc_from_timestamp_millis(millis: i64) -> (r: Option<(i64, u32)>)
    ensures
        r == utc_timestamp(millis as int / 1_000, (millis as int % 1_000) * 1_000_000),
{
    chrono::DateTime::<chrono::Utc>::from_timestamp_millis(millis).map(
        |t| (t.timestamp(), t.timestamp_subsec_nanos()),
    )
}

/// Calls `chrono::DateTime::<Utc>::from_timestamp_micros` and reads the
/// instant back as `(timestamp(), timestamp_subsec_nanos())`. Trusted, as
/// chrono's source shows: it is `from_timestamp` of the floored split of the
/// microseconds into seconds and nanoseconds.
#[verifier::external_body]
pub(crate) fn utc_from_timestamp_micros(micros: i64) -> (r: Option<(i64, u32)>)
    ensures
        r == utc_timestamp(micros as int / 1_000_000, (micros as int % 1_000_000) * 1_000),
{
    chrono::DateTime::<chrono::Utc>::from_timestamp_micros(micros).map(
        |t| (t.timestamp(), t.timestamp_subsec_nanos()),
    )
}

/// Calls `chrono::DateTime::<Utc>::from_timestamp_nanos`, which chrono
/// documents never to fail, and reads the instant back as `(timestamp(),
/// timestamp_subsec_nanos())`. Trusted: the result is the floored split of the
/// nanoseconds into seconds and nanoseconds (chrono's round-trip with
/// `timestamp_nanos_opt`).
#[verifier::external_body]
pub(crate) fn utc_from_timestamp_nanos(nanos: i64) -> (r: (i64, u32))
    ensures
        r.0 == nanos as int / 1_000_000_000,
        r.1 == nanos as int % 1_000_000_000,
{
    let t = chrono::DateTime::<chrono::Utc>::from_timestamp_nanos(nanos);
    (t.timestamp(), t.timestamp_subsec_nanos())
}

} // verus!

verus! {

/// The days of a year: 366 in a leap year, else 365.
pub open spec fn days_in_year(year: int) -> int {
    if is_leap_year(year) {
        366
    } else {
        365
    }
}

/// January 1 of the next year comes a year's days after January 1.
pub proof fn lemma_year_step(year: int)
    ensures
        days_before_year(year + 1) == days_before_year(year) + days_in_year(year),
{
    let p = year - 1;
    assert((p + 1) / 4 == p / 4 + if (p + 1) % 4 == 0 { 1int } else { 0int });
    assert((p + 1) / 100 == p / 100 + if (p + 1) % 100 == 0 { 1int } else { 0int });
    assert((p + 1) / 400 == p / 400 + if (p + 1) % 400 == 0 { 1int } else { 0int });
}

/// Within a year, a valid date's day count lies in `[0, days_in_year)`,
/// and it grows with the month and the day.
pub proof fn lemma_day_of_year_bounds(year: int, month: int, day: int)
    requires
        is_valid_date(year, month, day),
    ensures
        0 <= days_before_month(year, month) + day - 1 < days_in_year(year),
        month < 12 ==> days_before_month(year, month) + day - 1 < days_before_month(year, month + 1),
{
}

/// January 1 of a later year comes at least one full year later.
pub proof fn lemma_years_ordered(y1: int, y2: int)
    requires
        y1 < y2,
    ensures
        days_before_year(y1) + days_in_year(y1) <= days_before_year(y2),
    decreases y2 - y1,
{
    lemma_year_step(y1);
    if y1 + 1 < y2 {
        lemma_years_ordered(y1 + 1, y2);
    }
}

/// Two valid dates of the proleptic Gregorian calendar with the same day
/// number are the same date: a day number names at most one date.
pub proof fn lemma_civil_days_determine_date(
    y1: int,
    m1: int,
    d1: int,
    y2: int,
    m2: int,
    d2: int,
)
    requires
        is_valid_date(y1, m1, d1),
        is_valid_date(y2, m2, d2),
        civil_to_epoch_days(y1, m1, d1) == civil_to_epoch_days(y2, m2, d2),
    ensures
        y1 == y2 && m1 == m2 && d1 == d2,
{
    lemma_day_of_year_bounds(y1, m1, d1);
    lemma_day_of_year_bounds(y2, m2, d2);
    if y1 < y2 {
        lemma_years_ordered(y1, y2);
    } else if y2 < y1 {
        lemma_years_ordered(y2, y1);
    } else {
        if m1 < m2 {
            lemma_months_ordered(y1, m1, d1, m2);
        } else if m2 < m1 {
            lemma_months_ordered(y1, m2, d2, m1);
        }
    }
}

/// A day of an earlier month of the same year comes before the first of a
/// later month.
proof fn lemma_months_ordered(year: int, m1: int, d1: int, m2: int)
    requires
        is_valid_date(year, m1, d1),
        m1 < m2 <= 12,
    ensures
        days_before_month(year, m1) + d1 - 1 < days_before_month(year, m2),
    decreases m2 - m1,
{
    if m1 + 1 < m2 {
        lemma_months_ordered(year, m1 + 1, 1, m2);
    }
}

} // verus!
