//! Proleptic Gregorian calendar arithmetic for timestamps from 1970 onward,
//! and the two display formats the forecast pages use: a weekday/date line
//! ("Thursday, 1 January") and a 12-hour clock ("09:05 PM").
//!
//! A calendar date is pinned by `days_from_civil`: the number of days from
//! 1970-01-01 to the date. `civil_from_days` is verified to return the unique
//! valid date with the given day number.

use vstd::prelude::*;
use vstd::string::StringExecFns;

use crate::render::{push_two_digits, push_udec, spec_two_digits, spec_udec};

verus! {

/// Whether `y` is a leap year in the Gregorian calendar.
pub open spec fn is_leap_year(y: int) -> bool {
    y % 4 == 0 && (y % 100 != 0 || y % 400 == 0)
}

/// The number of days in month `m` of year `y`.
pub open spec fn days_in_month(y: int, m: int) -> int
    recommends
        1 <= m <= 12,
{
    if m == 2 {
        if is_leap_year(y) {
            29
        } else {
            28
        }
    } else if m == 4 || m == 6 || m == 9 || m == 11 {
        30
    } else {
        31
    }
}

/// The number of days in year `y`.
pub open spec fn days_in_year(y: int) -> int {
    if is_leap_year(y) {
        366
    } else {
        365
    }
}

/// Days from the first of January of year `y` to the first of month `m`.
pub open spec fn days_before_month(y: int, m: int) -> int
    recommends
        1 <= m <= 13,
    decreases m,
{
    if m <= 1 {
        0
    } else {
        days_before_month(y, m - 1) + days_in_month(y, m - 1)
    }
}

/// Days from 1970-01-01 to the first of January of year `y`.
pub open spec fn days_before_year(y: int) -> int
    recommends
        y >= 1970,
    decreases y,
{
    if y <= 1970 {
        0
    } else {
        days_before_year(y - 1) + days_in_year(y - 1)
    }
}

/// The day number of the date `y`-`m`-`d`: days since 1970-01-01.
pub open spec fn days_from_civil(y: int, m: int, d: int) -> int {
    days_before_year(y) + days_before_month(y, m) + d - 1
}

/// Whether `y`-`m`-`d` is a valid calendar date on or after 1970-01-01.
pub open spec fn valid_ymd(y: int, m: int, d: int) -> bool {
    &&& 1970 <= y
    &&& 1 <= m <= 12
    &&& 1 <= d <= days_in_month(y, m)
}

/// The unique valid date whose day number is `days` (see
/// `lemma_days_from_civil_injective`).
pub closed spec fn spec_civil_of_days(days: int) -> (int, int, int) {
    choose|t: (int, int, int)|
        valid_ymd(t.0, t.1, t.2) && days_from_civil(t.0, t.1, t.2) == days
}

/// The months of a year account for all of its days.
pub proof fn lemma_months_sum(y: int)
    ensures
        days_before_month(y, 13) == days_in_year(y),
{
    reveal_with_fuel(days_before_month, 13);
}

/// `days_before_month` grows with the month.
pub proof fn lemma_days_before_month_mono(y: int, m1: int, m2: int)
    requires
        1 <= m1 <= m2,
    ensures
        days_before_month(y, m1) <= days_before_month(y, m2),
    decreases m2,
{
    if m1 < m2 {
        lemma_days_before_month_mono(y, m1, m2 - 1);
    }
}

/// Within a valid date's year, the day offset lies inside the year.
pub proof fn lemma_day_offset_in_year(y: int, m: int, d: int)
    requires
        1 <= m <= 12,
        1 <= d <= days_in_month(y, m),
    ensures
        0 <= days_before_month(y, m) + d - 1 < days_in_year(y),
{
    lemma_days_before_month_mono(y, 1, m);
    assert(days_before_month(y, m + 1) == days_before_month(y, m) + days_in_month(y, m));
    lemma_days_before_month_mono(y, m + 1, 13);
    lemma_months_sum(y);
}

/// `days_before_year` grows with the year, by at least the days of each
/// year passed over.
pub proof fn lemma_days_before_year_mono(y1: int, y2: int)
    requires
        1970 <= y1 <= y2,
    ensures
        days_before_year(y1) <= days_before_year(y2),
        y1 < y2 ==> days_before_year(y1) + days_in_year(y1) <= days_before_year(y2),
    decreases y2,
{
    if y1 < y2 {
        lemma_days_before_year_mono(y1, y2 - 1);
    }
}

/// No two valid dates share a day number.
pub proof fn lemma_days_from_civil_injective(
    y1: int,
    m1: int,
    d1: int,
    y2: int,
    m2: int,
    d2: int,
)
    requires
        valid_ymd(y1, m1, d1),
        valid_ymd(y2, m2, d2),
        days_from_civil(y1, m1, d1) == days_from_civil(y2, m2, d2),
    ensures
        y1 == y2 && m1 == m2 && d1 == d2,
{
    lemma_day_offset_in_year(y1, m1, d1);
    lemma_day_offset_in_year(y2, m2, d2);
    if y1 < y2 {
        lemma_days_before_year_mono(y1, y2);
        assert(false);
    }
    if y2 < y1 {
        lemma_days_before_year_mono(y2, y1);
        assert(false);
    }
    if m1 < m2 {
        assert(days_before_month(y1, m1 + 1) == days_before_month(y1, m1) + days_in_month(
            y1,
            m1,
        ));
        lemma_days_before_month_mono(y1, m1 + 1, m2);
        assert(false);
    }
    if m2 < m1 {
        assert(days_before_month(y1, m2 + 1) == days_before_month(y1, m2) + days_in_month(
            y1,
            m2,
        ));
        lemma_days_before_month_mono(y1, m2 + 1, m1);
        assert(false);
    }
}

/// A valid date with day number `days` pins `spec_civil_of_days(days)`.
pub proof fn lemma_civil_of_days(days: int, y: int, m: int, d: int)
    requires
        valid_ymd(y, m, d),
        days_from_civil(y, m, d) == days,
    ensures
        spec_civil_of_days(days) == (y, m, d),
{
    assert(exists|t: (int, int, int)|
        valid_ymd(t.0, t.1, t.2) && days_from_civil(t.0, t.1, t.2) == days) by {
        assert(valid_ymd(y, m, d) && days_from_civil(y, m, d) == days);
        let w = (y, m, d);
        assert(valid_ymd(w.0, w.1, w.2) && days_from_civil(w.0, w.1, w.2) == days);
    }
    let t = spec_civil_of_days(days);
    lemma_days_from_civil_injective(t.0, t.1, t.2, y, m, d);
}

/// A calendar date, valid from 1970 on.
pub struct CivilDate {
    pub year: u64,
    pub month: u64,
    pub day: u64,
}

fn is_leap_year_exec(y: u64) -> (r: bool)
    ensures
        r == is_leap_year(y as int),
{
    y % 4 == 0 && (y % 100 != 0 || y % 400 == 0)
}

fn days_in_year_exec(y: u64) -> (r: u64)
    ensures
        r as int == days_in_year(y as int),
{
    if is_leap_year_exec(y) {
        366
    } else {
        365
    }
}

fn days_in_month_exec(y: u64, m: u64) -> (r: u64)
    ensures
        r as int == days_in_month(y as int, m as int),
{
    if m == 2 {
        if is_leap_year_exec(y) {
            29
        } else {
            28
        }
    } else if m == 4 || m == 6 || m == 9 || m == 11 {
        30
    } else {
        31
    }
}

/// The unique valid date `days` days after 1970-01-01.
pub fn civil_from_days(days: u64) -> (r: CivilDate)
    ensures
        valid_ymd(r.year as int, r.month as int, r.day as int),
        days_from_civil(r.year as int, r.month as int, r.day as int) == days as int,
        (r.year as int, r.month as int, r.day as int) == spec_civil_of_days(days as int),
{
    let mut y: u64 = 1970;
    let mut rem: u64 = days;
    loop
        invariant
            1970 <= y,
            days as int == days_before_year(y as int) + rem,
            365 * (y - 1970) <= days - rem,
        ensures
            1970 <= y,
            days as int == days_before_year(y as int) + rem,
            rem < days_in_year(y as int),
        decreases rem,
    {
        let diy = days_in_year_exec(y);
        if rem < diy {
            break ;
        }
        rem = rem - diy;
        y = y + 1;
    }
    let mut m: u64 = 1;
    loop
        invariant
            1970 <= y,
            1 <= m <= 12,
            days as int == days_before_year(y as int) + days_before_month(y as int, m as int)
                + rem,
            days_before_month(y as int, m as int) + rem < days_in_year(y as int),
        ensures
            1970 <= y,
            1 <= m <= 12,
            days as int == days_before_year(y as int) + days_before_month(y as int, m as int)
                + rem,
            rem < days_in_month(y as int, m as int),
        decreases 12 - m,
    {
        let dim = days_in_month_exec(y, m);
        if rem < dim {
            break ;
        }
        proof {
            if m == 12 {
                lemma_months_sum(y as int);
                assert(false);
            }
        }
        rem = rem - dim;
        m = m + 1;
    }
    let r = CivilDate { year: y, month: m, day: rem + 1 };
    proof {
        lemma_civil_of_days(
            days as int,
            r.year as int,
            r.month as int,
            r.day as int,
        );
    }
    r
}

/// The full English name of weekday `w`, with 0 for Sunday through 6 for
/// Saturday.
pub open spec fn spec_weekday_name(w: int) -> Seq<char> {
    if w == 0 {
        "Sunday"@
    } else if w == 1 {
        "Monday"@
    } else if w == 2 {
        "Tuesday"@
    } else if w == 3 {
        "Wednesday"@
    } else if w == 4 {
        "Thursday"@
    } else if w == 5 {
        "Friday"@
    } else {
        "Saturday"@
    }
}

/// The full English name of month `m`, 1 through 12.
pub open spec fn spec_month_name(m: int) -> Seq<char> {
    if m == 1 {
        "January"@
    } else if m == 2 {
        "February"@
    } else if m == 3 {
        "March"@
    } else if m == 4 {
        "April"@
    } else if m == 5 {
        "May"@
    } else if m == 6 {
        "June"@
    } else if m == 7 {
        "July"@
    } else if m == 8 {
        "August"@
    } else if m == 9 {
        "September"@
    } else if m == 10 {
        "October"@
    } else if m == 11 {
        "November"@
    } else {
        "December"@
    }
}

pub fn weekday_name(w: u64) -> (r: &'static str)
    requires
        w < 7,
    ensures
        r@ == spec_weekday_name(w as int),
{
    match w {
        0 => "Sunday",
        1 => "Monday",
        2 => "Tuesday",
        3 => "Wednesday",
        4 => "Thursday",
        5 => "Friday",
        _ => "Saturday",
    }
}

pub fn month_name(m: u64) -> (r: &'static str)
    requires
        1 <= m <= 12,
    ensures
        r@ == spec_month_name(m as int),
{
    match m {
        1 => "January",
        2 => "February",
        3 => "March",
        4 => "April",
        5 => "May",
        6 => "June",
        7 => "July",
        8 => "August",
        9 => "September",
        10 => "October",
        11 => "November",
        _ => "December",
    }
}

/// The weekday/date line for a local timestamp (seconds since the epoch,
/// already shifted by the timezone offset): full weekday name, comma,
/// unpadded day of month, full month name. 1970-01-01 was a Thursday.
pub open spec fn spec_day_date(local: int) -> Seq<char>
    recommends
        local >= 0,
{
    let days = local / 86400;
    let t = spec_civil_of_days(days);
    spec_weekday_name((days + 4) % 7) + ", "@ + spec_udec(t.2) + " "@ + spec_month_name(t.1)
}

/// The 12-hour clock line for a local timestamp: zero-padded hour 01-12,
/// colon, zero-padded minute, space, "AM" or "PM".
pub open spec fn spec_time_12h(local: int) -> Seq<char>
    recommends
        local >= 0,
{
    let sod = local % 86400;
    let hour = sod / 3600;
    let minute = (sod % 3600) / 60;
    let h12 = if hour % 12 == 0 {
        12
    } else {
        hour % 12
    };
    spec_two_digits(h12) + ":"@ + spec_two_digits(minute) + " "@ + (if hour < 12 {
        "AM"@
    } else {
        "PM"@
    })
}

/// Renders `spec_day_date` for a non-negative local timestamp.
pub fn format_day_date(local: u64) -> (r: String)
    ensures
        r@ == spec_day_date(local as int),
{
    let days: u64 = local / 86400;
    let date = civil_from_days(days);
    let wd: u64 = (days + 4) % 7;
    let mut s = String::new();
    s.append(weekday_name(wd));
    s.append(", ");
    push_udec(&mut s, date.day);
    s.append(" ");
    s.append(month_name(date.month));
    s
}

/// Renders `spec_time_12h` for a non-negative local timestamp.
pub fn format_time_12h(local: u64) -> (r: String)
    ensures
        r@ == spec_time_12h(local as int),
{
    let sod: u64 = local % 86400;
    let hour: u64 = sod / 3600;
    let minute: u64 = (sod % 3600) / 60;
    let h12: u64 = if hour % 12 == 0 {
        12
    } else {
        hour % 12
    };
    let mut s = String::new();
    push_two_digits(&mut s, h12);
    s.append(":");
    push_two_digits(&mut s, minute);
    s.append(" ");
    if hour < 12 {
        s.append("AM");
    } else {
        s.append("PM");
    }
    s
}

} // verus!
