//! Calendar dates as day numbers of the proleptic Gregorian calendar.
use vstd::prelude::*;

verus! {

/// Whether `year` is a leap year of the proleptic Gregorian calendar.
pub open spec fn is_leap_year(year: int) -> bool {
    (year % 4 == 0 && year % 100 != 0) || year % 400 == 0
}

/// Number of days in `month` (1 to 12) of `year`.
pub open spec fn days_in_month(year: int, month: int) -> int {
    if month == 2 {
        if is_leap_year(year) { 29 } else { 28 }
    } else if month == 4 || month == 6 || month == 9 || month == 11 {
        30
    } else {
        31
    }
}

/// Whether `(year, month, day)` names a day of the calendar.
pub open spec fn is_valid_date(year: int, month: int, day: int) -> bool {
    1 <= month <= 12 && 1 <= day <= days_in_month(year, month)
}

/// Days of `year` that come before the first of `month`.
pub open spec fn days_before_month(year: int, month: int) -> int
    decreases month,
{
    if month <= 1 {
        0
    } else {
        days_before_month(year, month - 1) + days_in_month(year, month - 1)
    }
}

/// Day number of a date, counting January 1 of year 1 as day 1.
pub open spec fn day_number_of(year: int, month: int, day: int) -> int {
    let y = year - 1;
    365 * y + y / 4 - y / 100 + y / 400 + days_before_month(year, month) + day
}

/// Relies on chrono's `NaiveDate::from_ymd_opt`, which yields a date exactly for the valid
/// triples of its supported years (at least 1 to 9999), and on `Datelike::num_days_from_ce`,
/// which counts days from January 1 of year 1 as day 1.
#[verifier::external_body]
fn chrono_day_number(year: i32, month: u32, day: u32) -> (r: Option<i32>)
    ensures
        r.is_some() ==> is_valid_date(year as int, month as int, day as int),
        is_valid_date(year as int, month as int, day as int) && 1 <= year <= 9999 ==> r.is_some(),
        r.is_some() ==> r.unwrap() == day_number_of(year as int, month as int, day as int),
{
    chrono::NaiveDate::from_ymd_opt(year, month, day).map(|d| chrono::Datelike::num_days_from_ce(&d))
}

/// Day number of the date `(year, month, day)`, with January 1 of year 1 as day 1, or `None`
/// when the triple names no day (month out of range, day past the month's end).
pub fn day_number(year: i32, month: u32, day: u32) -> (r: Option<i32>)
    ensures
        r.is_some() ==> is_valid_date(year as int, month as int, day as int),
        r.is_some() ==> r.unwrap() == day_number_of(year as int, month as int, day as int),
        is_valid_date(year as int, month as int, day as int) && 1 <= year <= 9999 ==> r.is_some(),
{
    chrono_day_number(year, month, day)
}

} // verus!
