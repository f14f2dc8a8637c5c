//! DuckDB's date, time and timestamp storage values, and their conversion to
//! calendar dates, times of day and UTC instants, computed through chrono.

use vstd::prelude::*;

use super::calendar::{
    civil_to_epoch_days, date_from_epoch_days, is_valid_date, epoch_days_in_range, time_from_seconds_of_day,
    time_of_day_valid, timestamp_secs_in_range, utc_from_timestamp, utc_from_timestamp_micros,
    utc_from_timestamp_millis, utc_from_timestamp_nanos, utc_timestamp,
};

verus! {

/// Days since 1970-01-01 represented as a DuckDB `DATE`.
#[derive(Debug, Clone, Copy, PartialEq, Eq, Structural)]
pub struct DateValue(pub i32);

/// Microseconds since midnight represented as a DuckDB `TIME`.
#[derive(Debug, Clone, Copy, PartialEq, Eq, Structural)]
pub struct TimeValue(pub i64);

/// Nanoseconds since midnight represented as a DuckDB `TIME_NS`.
#[derive(Debug, Clone, Copy, PartialEq, Eq, Structural)]
pub struct TimeNsValue(pub i64);

/// Packed time and UTC offset represented as a DuckDB `TIME_TZ`.
#[derive(Debug, Clone, Copy, PartialEq, Eq, Structural)]
pub struct TimeTzValue(pub u64);

/// Microseconds since 1970-01-01 represented as a DuckDB `TIMESTAMP`.
#[derive(Debug, Clone, Copy, PartialEq, Eq, Structural)]
pub struct TimestampValue(pub i64);

/// Seconds since 1970-01-01 represented as a DuckDB `TIMESTAMP_SEC`.
#[derive(Debug, Clone, Copy, PartialEq, Eq, Structural)]
pub struct TimestampSecValue(pub i64);

/// Milliseconds since 1970-01-01 represented as a DuckDB `TIMESTAMP_MS`.
#[derive(Debug, Clone, Copy, PartialEq, Eq, Structural)]
pub struct TimestampMsValue(pub i64);

/// Nanoseconds since 1970-01-01 represented as a DuckDB `TIMESTAMP_NS`.
#[derive(Debug, Clone, Copy, PartialEq, Eq, Structural)]
pub struct TimestampNsValue(pub i64);

/// UTC microseconds since 1970-01-01 represented as a DuckDB `TIMESTAMP_TZ`.
#[derive(Debug, Clone, Copy, PartialEq, Eq, Structural)]
pub struct TimestampTzValue(pub i64);

/// UTC nanoseconds since 1970-01-01 represented as a DuckDB `TIMESTAMP_TZ_NS`.
#[derive(Debug, Clone, Copy, PartialEq, Eq, Structural)]
pub struct TimestampTzNsValue(pub i64);

/// A day of the proleptic Gregorian calendar, as chrono's `NaiveDate` reads it
/// back: year, month (1-12) and day of the month (1-31).
#[derive(Debug, Clone, Copy, PartialEq, Eq, Structural)]
pub struct CivilDate {
    pub year: i32,
    pub month: u32,
    pub day: u32,
}

/// A time of day, as chrono's `NaiveTime` reads it back: whole seconds since
/// midnight and the nanoseconds within that second (at or above one second
/// only for a leap second).
#[derive(Debug, Clone, Copy, PartialEq, Eq, Structural)]
pub struct TimeOfDay {
    pub secs: u32,
    pub nano: u32,
}

/// An instant in UTC, as chrono's `DateTime<Utc>` reads it back: whole
/// seconds since 1970-01-01 00:00:00 UTC (`timestamp()`) and the nanoseconds
/// since the last whole second (`timestamp_subsec_nanos()`).
#[derive(Debug, Clone, Copy, PartialEq, Eq, Structural)]
pub struct UtcDateTime {
    pub secs: i64,
    pub nanos: u32,
}

/// The time of day `micros` microseconds after midnight, if those fall
/// within one day.
pub open spec fn micros_of_day(micros: int) -> Option<TimeOfDay> {
    if 0 <= micros < 86_400_000_000 {
        Some(
            TimeOfDay {
                secs: (micros / 1_000_000) as u32,
                nano: ((micros % 1_000_000) * 1_000) as u32,
            },
        )
    } else {
        None
    }
}

/// The time of day `nanos` nanoseconds after midnight, if those fall within
/// one day.
pub open spec fn nanos_of_day(nanos: int) -> Option<TimeOfDay> {
    if 0 <= nanos < 86_400_000_000_000 {
        Some(
            TimeOfDay {
                secs: (nanos / 1_000_000_000) as u32,
                nano: (nanos % 1_000_000_000) as u32,
            },
        )
    } else {
        None
    }
}

/// The instant chrono makes of microseconds since the epoch, as a
/// `(timestamp, subsec_nanos)` pair.
pub open spec fn micros_to_instant(micros: i64) -> Option<(i64, u32)> {
    utc_timestamp(micros as int / 1_000_000, (micros as int % 1_000_000) * 1_000)
}

/// A `(timestamp, subsec_nanos)` pair as a `UtcDateTime`.
pub open spec fn utc_from_pair(p: Option<(i64, u32)>) -> Option<UtcDateTime> {
    match p {
        Some(q) => Some(UtcDateTime { secs: q.0, nanos: q.1 }),
        None => None,
    }
}

/// DuckDB writes `infinity` and `-infinity` of a nanosecond timestamp as the
/// largest `i64` and its negation.
pub open spec fn is_nanos_infinity(value: i64) -> bool {
    value == i64::MAX || value == -i64::MAX
}

impl DateValue {
    /// The proleptic Gregorian date this many days after 1970-01-01, computed
    /// by chrono; `None` outside chrono's range of dates.
    pub fn to_naive_date(self) -> (r: Option<CivilDate>)
        ensures
            r is Some <==> epoch_days_in_range(self.0 as int),
            r matches Some(d) ==> is_valid_date(d.year as int, d.month as int, d.day as int)
                && civil_to_epoch_days(d.year as int, d.month as int, d.day as int) == self.0,
    {
        match date_from_epoch_days(self.0) {
            Some(d) => Some(CivilDate { year: d.0, month: d.1, day: d.2 }),
            None => None,
        }
    }
}

impl TimeValue {
    /// The time of day these microseconds after midnight denote, computed
    /// by chrono; `None` for a value outside one day (negative, or from
    /// 24:00:00 on).
    pub fn to_naive_time(self) -> (r: Option<TimeOfDay>)
        ensures
            r == micros_of_day(self.0 as int),
    {
        if self.0 < 0 || self.0 >= 86_400_000_000 {
            return None;
        }
        let seconds = (self.0 / 1_000_000) as u32;
        let nano = ((self.0 % 1_000_000) * 1_000) as u32;
        assert(time_of_day_valid(seconds, nano));
        match time_from_seconds_of_day(seconds, nano) {
            Some(t) => Some(TimeOfDay { secs: t.0, nano: t.1 }),
            None => None,
        }
    }
}

impl TimeNsValue {
    /// The time of day these nanoseconds after midnight denote, computed by
    /// chrono; `None` for a value outside one day (negative, or from
    /// 24:00:00 on).
    pub fn to_naive_time(self) -> (r: Option<TimeOfDay>)
        ensures
            r == nanos_of_day(self.0 as int),
    {
        if self.0 < 0 || self.0 >= 86_400_000_000_000 {
            return None;
        }
        let seconds = (self.0 / 1_000_000_000) as u32;
        let nano = (self.0 % 1_000_000_000) as u32;
        assert(time_of_day_valid(seconds, nano));
        match time_from_seconds_of_day(seconds, nano) {
            Some(t) => Some(TimeOfDay { secs: t.0, nano: t.1 }),
            None => None,
        }
    }
}

impl TimestampValue {
    /// The UTC instant of these microseconds since the epoch, as chrono's
    /// `from_timestamp_micros` makes it; `None` out of chrono's range. A
    /// result denotes the same microsecond.
    pub fn to_utc(self) -> (r: Option<UtcDateTime>)
        ensures
            r == utc_from_pair(micros_to_instant(self.0)),
            r is Some <==> timestamp_secs_in_range(self.0 as int / 1_000_000),
            r matches Some(t) ==> t.secs == self.0 as int / 1_000_000 && t.nanos == (self.0 as int
                % 1_000_000) * 1_000,
            r matches Some(t) ==> t.secs * 1_000_000 + t.nanos / 1_000 == self.0 && t.nanos
                % 1_000 == 0 && t.nanos < 1_000_000_000,
    {
        micros_to_utc(self.0)
    }
}

impl TimestampTzValue {
    /// The UTC instant of these microseconds since the epoch, as chrono's
    /// `from_timestamp_micros` makes it; `None` out of chrono's range. A
    /// result denotes the same microsecond.
    pub fn to_utc(self) -> (r: Option<UtcDateTime>)
        ensures
            r == utc_from_pair(micros_to_instant(self.0)),
            r is Some <==> timestamp_secs_in_range(self.0 as int / 1_000_000),
            r matches Some(t) ==> t.secs == self.0 as int / 1_000_000 && t.nanos == (self.0 as int
                % 1_000_000) * 1_000,
            r matches Some(t) ==> t.secs * 1_000_000 + t.nanos / 1_000 == self.0 && t.nanos
                % 1_000 == 0 && t.nanos < 1_000_000_000,
    {
        micros_to_utc(self.0)
    }
}

impl TimestampMsValue {
    /// The UTC instant of these milliseconds since the epoch, as chrono's
    /// `from_timestamp_millis` makes it; `None` out of chrono's range. A
    /// result denotes the same millisecond.
    pub fn to_utc(self) -> (r: Option<UtcDateTime>)
        ensures
            r == utc_from_pair(utc_timestamp(self.0 as int / 1_000, (self.0 as int % 1_000) * 1_000_000)),
            r is Some <==> timestamp_secs_in_range(self.0 as int / 1_000),
            r matches Some(t) ==> t.secs == self.0 as int / 1_000 && t.nanos == (self.0 as int % 1_000)
                * 1_000_000,
            r matches Some(t) ==> t.secs * 1_000 + t.nanos / 1_000_000 == self.0 && t.nanos
                % 1_000_000 == 0 && t.nanos < 1_000_000_000,
    {
        match utc_from_timestamp_millis(self.0) {
            Some(p) => Some(UtcDateTime { secs: p.0, nanos: p.1 }),
            None => None,
        }
    }
}

impl TimestampSecValue {
    /// The UTC instant of these seconds since the epoch, as chrono's
    /// `from_timestamp` makes it with no fraction; `None` out of chrono's
    /// range. A result denotes the same second.
    pub fn to_utc(self) -> (r: Option<UtcDateTime>)
        ensures
            r == utc_from_pair(utc_timestamp(self.0 as int, 0)),
            r is Some <==> timestamp_secs_in_range(self.0 as int),
            r matches Some(t) ==> t.secs == self.0 && t.nanos == 0,
    {
        match utc_from_timestamp(self.0, 0) {
            Some(p) => Some(UtcDateTime { secs: p.0, nanos: p.1 }),
            None => None,
        }
    }
}

impl TimestampNsValue {
    /// The UTC instant of these nanoseconds since the epoch; `None` exactly
    /// for DuckDB's `infinity` and `-infinity`, since every other `i64`
    /// nanosecond count is an instant chrono can represent.
    pub fn to_utc(self) -> (r: Option<UtcDateTime>)
        ensures
            r == nanos_to_utc(self.0),
    {
        timestamp_nanos_to_chrono(self.0)
    }
}

impl TimestampTzNsValue {
    /// The UTC instant of these nanoseconds since the epoch; `None` exactly
    /// for DuckDB's `infinity` and `-infinity`.
    pub fn to_utc(self) -> (r: Option<UtcDateTime>)
        ensures
            r == nanos_to_utc(self.0),
    {
        timestamp_nanos_to_chrono(self.0)
    }
}

/// The UTC instant of a nanosecond count: none for the two infinities, else
/// the floored split into seconds and nanoseconds.
pub open spec fn nanos_to_utc(value: i64) -> Option<UtcDateTime> {
    if is_nanos_infinity(value) {
        None
    } else {
        Some(
            UtcDateTime {
                secs: (value as int / 1_000_000_000) as i64,
                nanos: (value as int % 1_000_000_000) as u32,
            },
        )
    }
}

fn micros_to_utc(micros: i64) -> (r: Option<UtcDateTime>)
    ensures
        r == utc_from_pair(micros_to_instant(micros)),
        r is Some <==> timestamp_secs_in_range(micros as int / 1_000_000),
        r matches Some(t) ==> t.secs == micros as int / 1_000_000 && t.nanos == (micros as int
            % 1_000_000) * 1_000,
        r matches Some(t) ==> t.secs * 1_000_000 + t.nanos / 1_000 == micros && t.nanos % 1_000
            == 0 && t.nanos < 1_000_000_000,
{
    match utc_from_timestamp_micros(micros) {
        Some(p) => Some(UtcDateTime { secs: p.0, nanos: p.1 }),
        None => None,
    }
}

/// The UTC instant of a nanosecond count since the epoch, with DuckDB's
/// `infinity` (`i64::MAX`) and `-infinity` (`-i64::MAX`) mapped to `None`.
pub fn timestamp_nanos_to_chrono(value: i64) -> (r: Option<UtcDateTime>)
    ensures
        r == nanos_to_utc(value),
{
    if value == i64::MAX || value == -i64::MAX {
        return None;
    }
    let p = utc_from_timestamp_nanos(value);
    Some(UtcDateTime { secs: p.0, nanos: p.1 })
}

} // verus!

verus! {

/// A `TIME` value converts exactly when it lies within one day, and then to
/// the time of day of exactly that microsecond.
pub proof fn lemma_time_within_day_converts(micros: int)
    ensures
        micros_of_day(micros) is Some <==> 0 <= micros < 86_400_000_000,
        micros_of_day(micros) matches Some(t) ==> t.secs * 1_000_000 + t.nano / 1_000 == micros
            && t.nano % 1_000 == 0 && t.nano < 1_000_000_000,
{
}

/// A `TIME_NS` value converts exactly when it lies within one day, and then
/// to the time of day of exactly that nanosecond.
pub proof fn lemma_time_ns_within_day_converts(nanos: int)
    ensures
        nanos_of_day(nanos) is Some <==> 0 <= nanos < 86_400_000_000_000,
        nanos_of_day(nanos) matches Some(t) ==> t.secs * 1_000_000_000 + t.nano == nanos && t.nano
            < 1_000_000_000,
{
}

/// Every nanosecond timestamp other than the two infinities converts, to an
/// instant of exactly that nanosecond.
pub proof fn lemma_finite_nanos_convert(value: i64)
    requires
        !is_nanos_infinity(value),
    ensures
        nanos_to_utc(value) matches Some(t) && t.secs * 1_000_000_000 + t.nanos == value
            && t.nanos < 1_000_000_000,
{
}

/// The two infinities of a nanosecond timestamp convert to no instant.
pub proof fn lemma_nanos_infinities_do_not_convert()
    ensures
        nanos_to_utc(i64::MAX) is None,
        nanos_to_utc((-i64::MAX) as i64) is None,
{
}

} // verus!

verus! {

/// A microsecond timestamp converts exactly when its second falls on a day
/// chrono can represent, and then to that second and the nanoseconds of its
/// remaining microseconds.
pub proof fn lemma_micros_convert_within_range(micros: i64)
    ensures
        micros_to_instant(micros) is Some <==> timestamp_secs_in_range(micros as int / 1_000_000),
        micros_to_instant(micros) matches Some(p) ==> p.0 == micros as int / 1_000_000 && p.1 == (
        micros as int % 1_000_000) * 1_000,
{
}

/// chrono makes an instant of whole seconds and a fraction below one second
/// exactly when the second falls on a day it can represent, and that instant
/// reads back as the same seconds and nanoseconds.
pub proof fn lemma_whole_seconds_convert_within_range(secs: int, nsecs: int)
    requires
        0 <= nsecs < 1_000_000_000,
    ensures
        utc_timestamp(secs, nsecs) is Some <==> timestamp_secs_in_range(secs),
        utc_timestamp(secs, nsecs) matches Some(p) ==> p.0 == secs && p.1 == nsecs,
{
}

/// A pair that chrono gave reads back as the instant of exactly those
/// seconds and nanoseconds; no pair reads back as no instant.
pub proof fn lemma_utc_from_pair_some(q: (i64, u32))
    ensures
        utc_from_pair(Some(q)) == Some(UtcDateTime { secs: q.0, nanos: q.1 }),
        utc_from_pair(None) is None,
{
}

/// A millisecond timestamp and the microsecond timestamp of the same instant
/// convert alike: to the same instant, or both to none.
pub proof fn lemma_millis_agree_with_micros(millis: i64)
    requires
        i64::MIN <= millis * 1_000 <= i64::MAX,
    ensures
        utc_timestamp(millis as int / 1_000, (millis as int % 1_000) * 1_000_000)
            == micros_to_instant((millis * 1_000) as i64),
{
    let m = millis as int;
    assert((m * 1_000) / 1_000_000 == m / 1_000 && ((m * 1_000) % 1_000_000) * 1_000 == (m % 1_000)
        * 1_000_000) by (nonlinear_arith);
}

/// A second timestamp and the microsecond timestamp of the same instant
/// convert alike: to the same instant, or both to none.
pub proof fn lemma_seconds_agree_with_micros(secs: i64)
    requires
        i64::MIN <= secs * 1_000_000 <= i64::MAX,
    ensures
        utc_timestamp(secs as int, 0) == micros_to_instant((secs * 1_000_000) as i64),
{
    let s = secs as int;
    assert((s * 1_000_000) / 1_000_000 == s && (s * 1_000_000) % 1_000_000 == 0) by (nonlinear_arith);
}

/// DuckDB's `infinity` and `-infinity` of a microsecond timestamp (the
/// largest `i64` and its negation) lie beyond chrono's range and convert to
/// no instant.
pub proof fn lemma_micros_infinities_do_not_convert()
    ensures
        micros_to_instant(i64::MAX) is None,
        micros_to_instant((-i64::MAX) as i64) is None,
{
}

} // verus!

verus! {

impl DateValue {
    /// The stored number as text, as `Display` writes it.
    pub fn to_string(&self) -> (r: String)
        ensures
            vstd::string::to_string_from_display_ensures::<i32>(&self.0, r),
    {
        self.0.to_string()
    }
}

impl TimeValue {
    /// The stored number as text, as `Display` writes it.
    pub fn to_string(&self) -> (r: String)
        ensures
            vstd::string::to_string_from_display_ensures::<i64>(&self.0, r),
    {
        self.0.to_string()
    }
}

impl TimeNsValue {
    /// The stored number as text, as `Display` writes it.
    pub fn to_string(&self) -> (r: String)
        ensures
            vstd::string::to_string_from_display_ensures::<i64>(&self.0, r),
    {
        self.0.to_string()
    }
}

impl TimeTzValue {
    /// The stored number as text, as `Display` writes it.
    pub fn to_string(&self) -> (r: String)
        ensures
            vstd::string::to_string_from_display_ensures::<u64>(&self.0, r),
    {
        self.0.to_string()
    }
}

impl TimestampValue {
    /// The stored number as text, as `Display` writes it.
    pub fn to_string(&self) -> (r: String)
        ensures
            vstd::string::to_string_from_display_ensures::<i64>(&self.0, r),
    {
        self.0.to_string()
    }
}

impl TimestampSecValue {
    /// The stored number as text, as `Display` writes it.
    pub fn to_string(&self) -> (r: String)
        ensures
            vstd::string::to_string_from_display_ensures::<i64>(&self.0, r),
    {
        self.0.to_string()
    }
}

impl TimestampMsValue {
    /// The stored number as text, as `Display` writes it.
    pub fn to_string(&self) -> (r: String)
        ensures
            vstd::string::to_string_from_display_ensures::<i64>(&self.0, r),
    {
        self.0.to_string()
    }
}

impl TimestampNsValue {
    /// The stored number as text, as `Display` writes it.
    pub fn to_string(&self) -> (r: String)
        ensures
            vstd::string::to_string_from_display_ensures::<i64>(&self.0, r),
    {
        self.0.to_string()
    }
}

impl TimestampTzValue {
    /// The stored number as text, as `Display` writes it.
    pub fn to_string(&self) -> (r: String)
        ensures
            vstd::string::to_string_from_display_ensures::<i64>(&self.0, r),
    {
        self.0.to_string()
    }
}

impl TimestampTzNsValue {
    /// The stored number as text, as `Display` writes it.
    pub fn to_string(&self) -> (r: String)
        ensures
            vstd::string::to_string_from_display_ensures::<i64>(&self.0, r),
    {
        self.0.to_string()
    }
}

} // verus!
