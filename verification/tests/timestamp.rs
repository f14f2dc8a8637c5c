use chrono::{Datelike, NaiveDate, NaiveTime, Timelike, Utc};
use duckdb::{
    CivilDate, DateValue, TimeNsValue, TimeOfDay, TimeValue, TimestampMsValue, TimestampNsValue,
    TimestampSecValue, TimestampTzNsValue, TimestampTzValue, TimestampValue, UtcDateTime,
};

fn civil(date: NaiveDate) -> CivilDate {
    CivilDate { year: date.year(), month: date.month(), day: date.day() }
}

fn utc(rfc3339: &str) -> UtcDateTime {
    let t = chrono::DateTime::parse_from_rfc3339(rfc3339).unwrap().with_timezone(&Utc);
    UtcDateTime { secs: t.timestamp(), nanos: t.timestamp_subsec_nanos() }
}

fn time_of_day(text: &str) -> TimeOfDay {
    let t = NaiveTime::parse_from_str(text, "%H:%M:%S%.f").unwrap();
    TimeOfDay { secs: t.num_seconds_from_midnight(), nano: t.nanosecond() }
}

// DATE '1992-09-20' is stored as 8298 days after 1970-01-01.
#[test]
fn test_date() {
    let date = DateValue(8298).to_naive_date().unwrap();
    assert_eq!(date, civil(NaiveDate::from_ymd_opt(1992, 9, 20).unwrap()));
}

// The storage values of '1992-09-20 11:30:00.123456789' at each precision.
#[test]
fn test_timestamp_conversion() {
    let ns = TimestampNsValue(716_988_600_123_456_789).to_utc().unwrap();
    assert_eq!(ns, utc("1992-09-20T11:30:00.123456789Z"));

    let us = TimestampValue(716_988_600_123_456).to_utc().unwrap();
    assert_eq!(us, utc("1992-09-20T11:30:00.123456Z"));

    let ms = TimestampMsValue(716_988_600_123).to_utc().unwrap();
    assert_eq!(ms, utc("1992-09-20T11:30:00.123Z"));

    let s = TimestampSecValue(716_988_600).to_utc().unwrap();
    assert_eq!(s, utc("1992-09-20T11:30:00Z"));

    let tz = TimestampTzValue(716_988_600_123_456).to_utc().unwrap();
    assert_eq!(tz, utc("1992-09-20T11:30:00.123456Z"));

    // '1992-09-20 12:30:00.123456789+01:00' is stored as the same UTC microsecond.
    let tz_offset = TimestampTzValue(716_988_600_123_456).to_utc().unwrap();
    assert_eq!(tz_offset, utc("1992-09-20T12:30:00.123456+01:00"));
}

#[test]
fn test_timestamp_ns_infinity_conversion() {
    for value in [i64::MAX, -i64::MAX] {
        assert!(TimestampNsValue(value).to_utc().is_none());
    }
    for value in [i64::MAX, -i64::MAX] {
        assert!(TimestampTzNsValue(value).to_utc().is_none());
    }
}

#[test]
fn test_time_conversion() {
    let time = TimeValue(41_400_123_456).to_naive_time().unwrap();
    assert_eq!(time, time_of_day("11:30:00.123456"));

    let time_ns = TimeNsValue(55_800_123_456_789).to_naive_time().unwrap();
    assert_eq!(time_ns, time_of_day("15:30:00.123456789"));
}

#[test]
fn date_epoch_and_neighbours() {
    assert_eq!(DateValue(0).to_naive_date(), Some(CivilDate { year: 1970, month: 1, day: 1 }));
    assert_eq!(DateValue(-1).to_naive_date(), Some(CivilDate { year: 1969, month: 12, day: 31 }));
    assert_eq!(DateValue(-719_162).to_naive_date(), Some(CivilDate { year: 1, month: 1, day: 1 }));
}

#[test]
fn date_out_of_range_is_none() {
    assert_eq!(DateValue(i32::MAX).to_naive_date(), None);
    assert_eq!(DateValue(i32::MIN).to_naive_date(), None);
}

#[test]
fn time_midnight_and_end_of_day() {
    assert_eq!(TimeValue(0).to_naive_time(), Some(TimeOfDay { secs: 0, nano: 0 }));
    assert_eq!(
        TimeValue(86_399_999_999).to_naive_time(),
        Some(TimeOfDay { secs: 86_399, nano: 999_999_000 })
    );
    // DuckDB's 24:00:00 has no chrono time of day.
    assert_eq!(TimeValue(86_400_000_000).to_naive_time(), None);
    assert_eq!(TimeNsValue(86_400_000_000_000).to_naive_time(), None);
}

#[test]
fn times_outside_one_day_are_none() {
    assert_eq!(TimeValue(-1).to_naive_time(), None);
    assert_eq!(TimeValue(-1_000_000).to_naive_time(), None);
    assert_eq!(TimeNsValue(-1).to_naive_time(), None);
    // Whole seconds past 2^32 do not wrap around to an early time of day.
    assert_eq!(TimeValue(4_294_967_301_000_000).to_naive_time(), None);
    assert_eq!(TimeNsValue(4_294_967_301_000_000_000).to_naive_time(), None);
    assert_eq!(TimeValue(-((1i64 << 32) - 5) * 1_000_000).to_naive_time(), None);
    assert_eq!(TimeValue(i64::MAX).to_naive_time(), None);
    assert_eq!(TimeNsValue(i64::MIN).to_naive_time(), None);
}

#[test]
fn micros_round_trip_and_range() {
    let t = TimestampValue(-1).to_utc().unwrap();
    assert_eq!(t, UtcDateTime { secs: -1, nanos: 999_999_000 });
    assert_eq!(t.secs * 1_000_000 + (t.nanos / 1_000) as i64, -1);
    // DuckDB's TIMESTAMP infinity is out of chrono's range.
    assert_eq!(TimestampValue(i64::MAX).to_utc(), None);
    assert_eq!(TimestampTzValue(i64::MIN).to_utc(), None);
}

#[test]
fn millis_and_seconds_round_trip() {
    assert_eq!(TimestampMsValue(-1).to_utc(), Some(UtcDateTime { secs: -1, nanos: 999_000_000 }));
    assert_eq!(TimestampMsValue(i64::MAX).to_utc(), None);
    assert_eq!(TimestampSecValue(-5).to_utc(), Some(UtcDateTime { secs: -5, nanos: 0 }));
    assert_eq!(TimestampSecValue(i64::MAX).to_utc(), None);
}

#[test]
fn nanos_finite_values_all_convert() {
    assert_eq!(
        TimestampNsValue(-1).to_utc(),
        Some(UtcDateTime { secs: -1, nanos: 999_999_999 })
    );
    assert_eq!(
        TimestampTzNsValue(i64::MIN).to_utc(),
        Some(UtcDateTime { secs: -9_223_372_037, nanos: 145_224_192 })
    );
    assert_eq!(
        duckdb::types::timestamp::timestamp_nanos_to_chrono(i64::MAX - 1),
        Some(UtcDateTime { secs: 9_223_372_036, nanos: 854_775_806 })
    );
}

#[test]
fn date_range_bounds() {
    assert_eq!(DateValue(95_026_236).to_naive_date(), Some(CivilDate { year: 262_142, month: 12, day: 31 }));
    assert_eq!(DateValue(95_026_237).to_naive_date(), None);
    assert_eq!(DateValue(-96_465_292).to_naive_date(), Some(CivilDate { year: -262_143, month: 1, day: 1 }));
    assert_eq!(DateValue(-96_465_293).to_naive_date(), None);
}

#[test]
fn timestamp_seconds_range_bounds() {
    assert_eq!(
        TimestampSecValue(8_210_266_876_799).to_utc(),
        Some(UtcDateTime { secs: 8_210_266_876_799, nanos: 0 })
    );
    assert_eq!(TimestampSecValue(8_210_266_876_800).to_utc(), None);
    assert_eq!(
        TimestampSecValue(-8_334_601_228_800).to_utc(),
        Some(UtcDateTime { secs: -8_334_601_228_800, nanos: 0 })
    );
    assert_eq!(TimestampSecValue(-8_334_601_228_801).to_utc(), None);
    assert_eq!(
        TimestampValue(8_210_266_876_799_999_999).to_utc(),
        Some(UtcDateTime { secs: 8_210_266_876_799, nanos: 999_999_000 })
    );
    assert_eq!(TimestampValue(8_210_266_876_800_000_000).to_utc(), None);
    assert_eq!(TimestampValue(-i64::MAX).to_utc(), None);
}

#[test]
fn storage_values_display_their_number() {
    assert_eq!(DateValue(8298).to_string(), "8298");
    assert_eq!(duckdb::TimeTzValue(5).to_string(), "5");
    assert_eq!(TimestampNsValue(-7).to_string(), "-7");
}

#[test]
fn millis_range_bounds() {
    assert_eq!(
        TimestampMsValue(8_210_266_876_799_999).to_utc(),
        Some(UtcDateTime { secs: 8_210_266_876_799, nanos: 999_000_000 })
    );
    assert_eq!(TimestampMsValue(8_210_266_876_800_000).to_utc(), None);
}
