//! Tests of the calendar arithmetic and the two timestamp display formats.

use dewpoint::calendar::civil_from_days;
use dewpoint::weather::{TimezoneOffset, UnixTimestamp};

// 2021-07-05 00:00:00 UTC, a Monday.
const JUL_5_2021: i64 = 1_625_443_200;

#[test]
fn civil_date_of_day_zero_is_the_epoch() {
    let d = civil_from_days(0);
    assert_eq!((d.year, d.month, d.day), (1970, 1, 1));
}

#[test]
fn civil_date_crosses_a_non_leap_february() {
    // 1970 is not a leap year: day 59 is the first of March.
    let d = civil_from_days(58);
    assert_eq!((d.year, d.month, d.day), (1970, 2, 28));
    let d = civil_from_days(59);
    assert_eq!((d.year, d.month, d.day), (1970, 3, 1));
}

#[test]
fn civil_date_hits_a_leap_day() {
    // 2020-02-29 is day 18321.
    let d = civil_from_days(18_321);
    assert_eq!((d.year, d.month, d.day), (2020, 2, 29));
    let d = civil_from_days(18_322);
    assert_eq!((d.year, d.month, d.day), (2020, 3, 1));
}

#[test]
fn civil_date_skips_the_century_leap_exception() {
    // 1900 was not a leap year, 2000 was: 2000-02-29 is day 11016.
    let d = civil_from_days(11_016);
    assert_eq!((d.year, d.month, d.day), (2000, 2, 29));
}

#[test]
fn day_date_of_the_epoch() {
    let t = UnixTimestamp::new(0);
    assert_eq!(t.day_date(&TimezoneOffset::new(0)), "Thursday, 1 January");
}

#[test]
fn day_date_of_a_modern_monday() {
    let t = UnixTimestamp::new(JUL_5_2021);
    assert_eq!(t.day_date(&TimezoneOffset::new(0)), "Monday, 5 July");
}

#[test]
fn day_date_of_a_leap_saturday() {
    // 2020-02-29 00:00 UTC.
    let t = UnixTimestamp::new(18_321 * 86_400);
    assert_eq!(t.day_date(&TimezoneOffset::new(0)), "Saturday, 29 February");
}

#[test]
fn day_date_respects_the_timezone_offset() {
    // One second before midnight UTC is already the next day at +10h.
    let t = UnixTimestamp::new(JUL_5_2021 - 1);
    assert_eq!(t.day_date(&TimezoneOffset::new(0)), "Sunday, 4 July");
    assert_eq!(t.day_date(&TimezoneOffset::new(36_000)), "Monday, 5 July");
}

#[test]
fn time_12h_at_midnight_and_noon() {
    let midnight = UnixTimestamp::new(JUL_5_2021);
    assert_eq!(midnight.time_12h(&TimezoneOffset::new(0)), "12:00 AM");
    let noon = UnixTimestamp::new(JUL_5_2021 + 43_200);
    assert_eq!(noon.time_12h(&TimezoneOffset::new(0)), "12:00 PM");
}

#[test]
fn time_12h_pads_hours_and_minutes() {
    let morning = UnixTimestamp::new(JUL_5_2021 + 3 * 3_600 + 4 * 60);
    assert_eq!(morning.time_12h(&TimezoneOffset::new(0)), "03:04 AM");
    let evening = UnixTimestamp::new(JUL_5_2021 + 15 * 3_600 + 4 * 60);
    assert_eq!(evening.time_12h(&TimezoneOffset::new(0)), "03:04 PM");
}

#[test]
fn time_12h_last_minute_of_the_day() {
    let t = UnixTimestamp::new(JUL_5_2021 + 23 * 3_600 + 59 * 60);
    assert_eq!(t.time_12h(&TimezoneOffset::new(0)), "11:59 PM");
}

#[test]
fn time_12h_respects_negative_offsets() {
    // 00:30 UTC is 19:30 the previous evening at -5h.
    let t = UnixTimestamp::new(JUL_5_2021 + 30 * 60);
    assert_eq!(t.time_12h(&TimezoneOffset::new(-18_000)), "07:30 PM");
}
