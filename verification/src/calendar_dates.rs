//! Proleptic Gregorian calendar arithmetic on day numbers counted from
//! 1970-01-01, and the `YYYY-MM-DD` keys that calendar views exchange.
use vstd::prelude::*;

use crate::number_text::{parse_integer, parsed_integer, push_signed_zero_padded, push_zero_padded, signed_zero_padded, zero_padded};
use crate::text::{chars_of, string_of};

verus! {

pub open spec fn is_leap_year(year: int) -> bool {
    year % 4 == 0 && (year % 100 != 0 || year % 400 == 0)
}

/// Days in `month` of `year`; months outside 1..=12 count 31 days.
pub open spec fn month_length(year: int, month: int) -> int {
    if month == 4 || month == 6 || month == 9 || month == 11 {
        30
    } else if month == 2 {
        if is_leap_year(year) {
            29
        } else {
            28
        }
    } else {
        31
    }
}

pub open spec fn valid_civil_date(year: int, month: int, day: int) -> bool {
    1 <= month <= 12 && 1 <= day <= month_length(year, month)
}

/// Days in the years `1..=years` of the proleptic Gregorian calendar
/// (extended to all integers by floor division).
pub open spec fn days_in_years(years: int) -> int {
    365 * years + years / 4 - years / 100 + years / 400
}

/// Days of `year` before the first of `month`.
pub open spec fn days_before_month(year: int, month: int) -> int {
    let base = if month == 1 {
        0int
    } else if month == 2 {
        31
    } else if month == 3 {
        59
    } else if month == 4 {
        90
    } else if month == 5 {
        120
    } else if month == 6 {
        151
    } else if month == 7 {
        181
    } else if month == 8 {
        212
    } else if month == 9 {
        243
    } else if month == 10 {
        273
    } else if month == 11 {
        304
    } else {
        334
    };
    base + if month > 2 && is_leap_year(year) {
        1int
    } else {
        0
    }
}

/// Days from 1970-01-01 to `year-month-day` (negative before it).
pub open spec fn civil_day_number(year: int, month: int, day: int) -> int {
    days_in_years(year - 1) + days_before_month(year, month) + day - 1 - 719162
}

/// Day numbers count days one by one: 1970-01-01 is day 0, the day after a
/// date is the next day of its month, else the first of the next month or
/// of the next year; months have 31 days but April, June, September and
/// November with 30 and February with 29 in a leap year (every fourth
/// year, but not a century unless divisible by 400) and 28 otherwise.
pub proof fn day_numbers_count_days(year: int, month: int, day: int)
    requires
        valid_civil_date(year, month, day),
    ensures
        civil_day_number(1970, 1, 1) == 0,
        day < month_length(year, month) ==> civil_day_number(year, month, day + 1) == civil_day_number(
            year,
            month,
            day,
        ) + 1,
        day == month_length(year, month) && month < 12 ==> civil_day_number(year, month + 1, 1)
            == civil_day_number(year, month, day) + 1,
        day == month_length(year, month) && month == 12 ==> civil_day_number(year + 1, 1, 1)
            == civil_day_number(year, month, day) + 1,
        month == 4 || month == 6 || month == 9 || month == 11 ==> month_length(year, month) == 30,
        month == 1 || month == 3 || month == 5 || month == 7 || month == 8 || month == 10 || month
            == 12 ==> month_length(year, month) == 31,
        month == 2 ==> month_length(year, month) == (if year % 4 == 0 && (year % 100 != 0 || year
            % 400 == 0) {
            29int
        } else {
            28int
        }),
{
    if day == month_length(year, month) && month == 12 {
        assert(days_in_years(year) == days_in_years(year - 1) + 365 + if is_leap_year(year) {
            1int
        } else {
            0int
        }) by {
            assert(year / 4 - (year - 1) / 4 == if year % 4 == 0 { 1int } else { 0int });
            assert(year / 100 - (year - 1) / 100 == if year % 100 == 0 { 1int } else { 0int });
            assert(year / 400 - (year - 1) / 400 == if year % 400 == 0 { 1int } else { 0int });
        }
    }
}

/// Days before March-based month index `mp` (0 = March ... 11 = February).
pub open spec fn march_offset(mp: int) -> int {
    (153 * mp + 2) / 5
}

/// Days of the years `0..yoe` of a 400-year era, without the era's own
/// final leap day.
pub open spec fn era_year_start(yoe: int) -> int {
    365 * yoe + yoe / 4 - yoe / 100
}

proof fn lemma_era_split(years: int, era: int, yoe: int)
    by (nonlinear_arith)
    requires
        years == 400 * era + yoe,
        0 <= yoe < 400,
    ensures
        days_in_years(years) == 146097 * era + era_year_start(yoe),
{
    assert(years / 4 == 100 * era + yoe / 4);
    assert(years / 100 == 4 * era + yoe / 100);
    assert(years / 400 == era);
}

proof fn lemma_days_in_years_step(year: int)
    ensures
        days_in_years(year) == days_in_years(year - 1) + 365 + if is_leap_year(year) {
            1int
        } else {
            0
        },
{
    let era = year / 400;
    let r = year % 400;
    assert(year == 400 * era + r);
    if r > 0 {
        lemma_era_split(year, era, r);
        lemma_era_split(year - 1, era, r - 1);
        lemma_year_step_bounded(r as u64);
    } else {
        lemma_era_split(year, era, 0);
        lemma_era_split(year - 1, era - 1, 399);
    }
}

proof fn lemma_year_step_bounded(r: u64)
    by (bit_vector)
    requires
        0 < r < 400,
    ensures
        ((365 * r) as u64 + r / 4 - r / 100) as u64 == ((((365 * ((r - 1) as u64)) as u64 + ((r - 1) as u64) / 4
            - ((r - 1) as u64) / 100) as u64 + 365) as u64 + if r % 4 == 0 && r % 100 != 0 {
            1u64
        } else {
            0u64
        }) as u64,
{
}

/// The day number through the era decomposition that the day-count
/// algorithm uses.
proof fn lemma_day_number_by_era(year: int, month: int, day: int)
    requires
        1 <= month <= 12,
    ensures
        ({
            let y = if month <= 2 {
                year - 1
            } else {
                year
            };
            let mp = if month > 2 {
                month - 3
            } else {
                month + 9
            };
            civil_day_number(year, month, day) == days_in_years(y) + march_offset(mp) + day - 1
                - 719468
        }),
{
    lemma_days_in_years_step(year);
}

/// Floor division by a positive divisor (`i64::div_euclid`).
fn div_floor(a: i64, b: i64) -> (q: i64)
    requires
        b > 0,
    ensures
        q == a / b,
{
    proof {
        assert(i64::MIN <= a / b <= i64::MAX) by (nonlinear_arith)
            requires b > 0, i64::MIN <= a <= i64::MAX;
    }
    match a.checked_div_euclid(b) {
        Some(q) => q,
        None => 0,
    }
}

/// Euclidean remainder by a positive divisor (`i64::rem_euclid`).
fn rem_floor(a: i64, b: i64) -> (r: i64)
    requires
        b > 0,
    ensures
        r == a % b,
        0 <= r < b,
{
    match a.checked_rem_euclid(b) {
        Some(r) => r,
        None => 0,
    }
}

/// The era arithmetic of `days_from_civil`, taken literally for any month
/// byte: years are counted from March, months after February move back by
/// three and the others forward by nine.
pub open spec fn civil_days_formula(year: int, month: int, day: int) -> int {
    let y = year - if month <= 2 {
        1int
    } else {
        0int
    };
    let era = y / 400;
    let yoe = y - era * 400;
    let mp = if month > 2 {
        month - 3
    } else {
        month + 9
    };
    let day_of_year = (153 * mp + 2) / 5 + day - 1;
    era * 146097 + yoe * 365 + yoe / 4 - yoe / 100 + day_of_year - 719468
}

/// Days since 1970-01-01 of `year-month-day`; the day of month is taken as
/// given, so day 0 is the last day of the previous month. A month outside
/// `1..=12` is not rejected: the same arithmetic runs on it.
pub fn days_from_civil(year: i32, month: u8, day: u8) -> (days: i64)
    ensures
        days == civil_days_formula(year as int, month as int, day as int),
        1 <= month <= 12 ==> days == civil_day_number(year as int, month as int, day as int),
{
    let y: i64 = year as i64 - if month <= 2 {
        1
    } else {
        0
    };
    let era: i64 = div_floor(y, 400);
    let yoe: i64 = y - era * 400;
    assert(yoe == y % 400) by (nonlinear_arith)
        requires
            era == y / 400,
            yoe == y - era * 400,
    ;
    let m = month as i64;
    let mp: i64 = if m > 2 {
        m - 3
    } else {
        m + 9
    };
    let day_of_year = (153 * mp + 2) / 5 + day as i64 - 1;
    let day_of_era = yoe * 365 + yoe / 4 - yoe / 100 + day_of_year;
    proof {
        lemma_era_split(y as int, era as int, yoe as int);
        if 1 <= month <= 12 {
            lemma_day_number_by_era(year as int, month as int, day as int);
        }
    }
    era * 146_097 + day_of_era - 719_468
}

/// A March-based year `yoe` of an era (whose February ends the year) has
/// 366 days exactly when the calendar year `yoe + 1` of the era is a leap year.
pub open spec fn era_year_is_long(yoe: int) -> bool {
    (yoe + 1) % 4 == 0 && ((yoe + 1) % 100 != 0 || (yoe + 1) % 400 == 0)
}

pub open spec fn era_year_length(yoe: int) -> int {
    if era_year_is_long(yoe) {
        366
    } else {
        365
    }
}

/// The year-of-era estimate of the day-to-date algorithm.
pub open spec fn year_of_era_estimate(doe: int) -> int {
    (doe - doe / 1460 + doe / 36524 - doe / 146096) / 365
}

proof fn lemma_year_of_era_bits(doe: u64, yoe: u64, a: u64, b: u64, c: u64, s: u64, t: u64)
    by (bit_vector)
    requires
        doe < 146097,
        a == doe / 1460,
        b == doe / 36524,
        c == doe / 146096,
        yoe == ((doe - a) as u64 + b - c) as u64 / 365,
        s == ((365 * yoe) as u64 + yoe / 4 - yoe / 100) as u64,
        t == ((365 * (yoe + 1) as u64) as u64 + ((yoe + 1) as u64) / 4 - ((yoe + 1) as u64) / 100
            + ((yoe + 1) as u64) / 400) as u64,
    ensures
        yoe < 400,
        s <= doe,
        doe < t,
{
}

proof fn lemma_era_year_length_bits(yoe: u64, s: u64, t: u64)
    by (bit_vector)
    requires
        yoe < 400,
        s == ((365 * yoe) as u64 + yoe / 4 - yoe / 100) as u64,
        t == ((365 * (yoe + 1) as u64) as u64 + ((yoe + 1) as u64) / 4 - ((yoe + 1) as u64) / 100
            + ((yoe + 1) as u64) / 400) as u64,
    ensures
        t == s + if ((yoe + 1) as u64) % 4 == 0 && (((yoe + 1) as u64) % 100 != 0 || ((yoe + 1) as u64)
            % 400 == 0) {
            366u64
        } else {
            365u64
        },
{
}

/// The year of era and day of that year that a day of era falls on.
proof fn lemma_year_of_era(doe: int)
    requires
        0 <= doe < 146097,
    ensures
        0 <= year_of_era_estimate(doe) < 400,
        era_year_start(year_of_era_estimate(doe)) <= doe,
        doe - era_year_start(year_of_era_estimate(doe)) < era_year_length(year_of_era_estimate(doe)),
{
    let d = doe as u64;
    let yoe = year_of_era_estimate(doe);
    lemma_year_of_era_bits(
        d,
        yoe as u64,
        d / 1460,
        d / 36524,
        d / 146096,
        era_year_start(yoe) as u64,
        (era_year_start(yoe + 1) + (yoe + 1) / 400) as u64,
    );
    lemma_era_year_length_bits(
        yoe as u64,
        era_year_start(yoe) as u64,
        (era_year_start(yoe + 1) + (yoe + 1) / 400) as u64,
    );
}

proof fn lemma_era_year_start_monotone(a: int, b: int)
    requires
        0 <= a <= b,
    ensures
        era_year_start(a) <= era_year_start(b),
{
    assert(b / 100 - a / 100 <= b - a) by (nonlinear_arith)
        requires 0 <= a <= b;
    assert(b / 4 >= a / 4) by (nonlinear_arith)
        requires 0 <= a <= b;
}

/// The end of March-based year `yoe` is where year `yoe + 1` starts (the
/// era's last year also holds the era's extra leap day).
proof fn lemma_era_year_end(yoe: int)
    requires
        0 <= yoe < 400,
    ensures
        era_year_start(yoe) + era_year_length(yoe) == era_year_start(yoe + 1) + (yoe + 1) / 400,
{
    lemma_era_year_length_bits(
        yoe as u64,
        era_year_start(yoe) as u64,
        (era_year_start(yoe + 1) + (yoe + 1) / 400) as u64,
    );
}

proof fn lemma_year_of_era_inverse(yoe: int, doy: int)
    requires
        0 <= yoe < 400,
        0 <= doy < era_year_length(yoe),
    ensures
        year_of_era_estimate(era_year_start(yoe) + doy) == yoe,
        era_year_start(yoe) + doy < 146097,
{
    let doe = era_year_start(yoe) + doy;
    lemma_era_year_end(yoe);
    if yoe < 399 {
        lemma_era_year_start_monotone(yoe + 1, 399);
    }
    lemma_year_of_era(doe);
    let est = year_of_era_estimate(doe);
    lemma_era_year_end(est);
    if est < yoe {
        lemma_era_year_start_monotone(est + 1, yoe);
    }
    if est > yoe {
        lemma_era_year_start_monotone(yoe + 1, est);
    }
}

proof fn lemma_march_month_bits(doy: u64, mp: u64, o: u64, n: u64)
    by (bit_vector)
    requires
        doy < 366,
        mp == ((5 * doy) as u64 + 2) as u64 / 153,
        o == ((153 * mp) as u64 + 2) as u64 / 5,
        n == ((153 * ((mp + 1) as u64)) as u64 + 2) as u64 / 5,
    ensures
        mp < 12,
        o <= doy,
        mp < 11 ==> doy < n,
{
}

proof fn lemma_march_month_inverse_bits(mp: u64, d: u64, o: u64, n: u64, est: u64)
    by (bit_vector)
    requires
        mp < 12,
        d < 400,
        o == ((153 * mp) as u64 + 2) as u64 / 5,
        n == ((153 * ((mp + 1) as u64)) as u64 + 2) as u64 / 5,
        1 <= d,
        (o + d) as u64 <= n,
        est == ((5 * ((o + d - 1) as u64)) as u64 + 2) as u64 / 153,
    ensures
        est == mp,
{
}

/// Lengths of the March-based months.
proof fn lemma_march_offsets()
    ensures
        march_offset(0) == 0,
        march_offset(1) == 31,
        march_offset(2) == 61,
        march_offset(3) == 92,
        march_offset(4) == 122,
        march_offset(5) == 153,
        march_offset(6) == 184,
        march_offset(7) == 214,
        march_offset(8) == 245,
        march_offset(9) == 275,
        march_offset(10) == 306,
        march_offset(11) == 337,
        march_offset(12) == 367,
{
}

/// Calendar month of March-based month index `mp`.
pub open spec fn month_of_march_index(mp: int) -> int {
    if mp < 10 {
        mp + 3
    } else {
        mp - 9
    }
}

proof fn lemma_leap_in_era(era: int, yoe: int)
    ensures
        is_leap_year(400 * era + yoe + 1) == era_year_is_long(yoe),
{
    let x = 400 * era + yoe + 1;
    assert(x % 4 == (yoe + 1) % 4 && x % 100 == (yoe + 1) % 100 && x % 400 == (yoe + 1) % 400)
        by (nonlinear_arith)
        requires
            x == 400 * era + yoe + 1,
    {
        assert(x == 4 * (100 * era) + (yoe + 1));
        assert(x == 100 * (4 * era) + (yoe + 1));
    }
}

/// A valid date, decomposed the way the day-count algorithm sees it: era,
/// year of era, and day of the March-based year.
proof fn lemma_valid_date_decomposition(year: int, month: int, day: int)
    requires
        valid_civil_date(year, month, day),
    ensures
        ({
            let y = if month <= 2 {
                year - 1
            } else {
                year
            };
            let era = y / 400;
            let yoe = y % 400;
            let mp = if month > 2 {
                month - 3
            } else {
                month + 9
            };
            let doy = march_offset(mp) + day - 1;
            &&& 0 <= yoe < 400
            &&& 0 <= doy < era_year_length(yoe)
            &&& civil_day_number(year, month, day) + 719468 == 146097 * era + era_year_start(yoe) + doy
            &&& 0 <= mp < 12
            &&& (5 * doy + 2) / 153 == mp
        }),
{
    let y = if month <= 2 {
        year - 1
    } else {
        year
    };
    let era = y / 400;
    let yoe = y % 400;
    let mp = if month > 2 {
        month - 3
    } else {
        month + 9
    };
    let doy = march_offset(mp) + day - 1;
    assert(y == 400 * era + yoe);
    lemma_era_split(y, era, yoe);
    lemma_day_number_by_era(year, month, day);
    lemma_march_offsets();
    lemma_leap_in_era(era, yoe);
    if month <= 2 {
        assert(year == 400 * era + yoe + 1);
    } else {
        assert(is_leap_year(year) ==> is_leap_year(year));
    }
    lemma_march_month_inverse_bits(
        mp as u64,
        day as u64,
        march_offset(mp) as u64,
        march_offset(mp + 1) as u64,
        ((5 * doy + 2) / 153) as u64,
    );
}

/// A date is determined by its day number: two valid dates with the same
/// day number are the same date. Together with the contract of
/// [`civil_from_days`], converting a valid date to days and back yields it.
pub proof fn civil_day_number_is_injective(
    year1: int,
    month1: int,
    day1: int,
    year2: int,
    month2: int,
    day2: int,
)
    requires
        valid_civil_date(year1, month1, day1),
        valid_civil_date(year2, month2, day2),
        civil_day_number(year1, month1, day1) == civil_day_number(year2, month2, day2),
    ensures
        year1 == year2,
        month1 == month2,
        day1 == day2,
{
    lemma_valid_date_decomposition(year1, month1, day1);
    lemma_valid_date_decomposition(year2, month2, day2);
    let y1 = if month1 <= 2 {
        year1 - 1
    } else {
        year1
    };
    let y2 = if month2 <= 2 {
        year2 - 1
    } else {
        year2
    };
    let mp1 = if month1 > 2 {
        month1 - 3
    } else {
        month1 + 9
    };
    let mp2 = if month2 > 2 {
        month2 - 3
    } else {
        month2 + 9
    };
    let doy1 = march_offset(mp1) + day1 - 1;
    let doy2 = march_offset(mp2) + day2 - 1;
    let doe1 = era_year_start(y1 % 400) + doy1;
    let doe2 = era_year_start(y2 % 400) + doy2;
    lemma_year_of_era_inverse(y1 % 400, doy1);
    lemma_year_of_era_inverse(y2 % 400, doy2);
    let z = civil_day_number(year1, month1, day1) + 719468;
    assert(y1 / 400 == y2 / 400 && doe1 == doe2) by (nonlinear_arith)
        requires
            z == 146097 * (y1 / 400) + doe1,
            z == 146097 * (y2 / 400) + doe2,
            0 <= doe1 < 146097,
            0 <= doe2 < 146097,
    ;
    assert(y1 % 400 == y2 % 400);
    assert(y1 == y2) by (nonlinear_arith)
        requires
            y1 == 400 * (y1 / 400) + y1 % 400,
            y2 == 400 * (y2 / 400) + y2 % 400,
            y1 / 400 == y2 / 400,
            y1 % 400 == y2 % 400,
    ;
    assert(doy1 == doy2);
    assert(mp1 == mp2);
}

/// `date` is the valid date whose day number is `day`, its year truncated
/// to `i32`.
pub open spec fn is_civil_date_of(date: (i32, u8, u8), day: int) -> bool {
    exists|year: int|
        valid_civil_date(year, date.1 as int, date.2 as int) && civil_day_number(
            year,
            date.1 as int,
            date.2 as int,
        ) == day && date.0 == year as i32
}

/// The calendar date of a day number (year truncated to `i32`).
pub open spec fn civil_date_of(day: int) -> (i32, u8, u8) {
    choose|date: (i32, u8, u8)| is_civil_date_of(date, day)
}

/// A day number has at most one calendar date.
pub proof fn civil_date_is_unique(date: (i32, u8, u8), day: int)
    requires
        is_civil_date_of(date, day),
    ensures
        civil_date_of(day) == date,
{
    let other = civil_date_of(day);
    let y1 = choose|y: int|
        valid_civil_date(y, date.1 as int, date.2 as int) && civil_day_number(
            y,
            date.1 as int,
            date.2 as int,
        ) == day && date.0 == y as i32;
    let y2 = choose|y: int|
        valid_civil_date(y, other.1 as int, other.2 as int) && civil_day_number(
            y,
            other.1 as int,
            other.2 as int,
        ) == day && other.0 == y as i32;
    civil_day_number_is_injective(y1, date.1 as int, date.2 as int, y2, other.1 as int, other.2 as int);
}

/// Converting a valid date to its day number and back yields the date.
pub proof fn civil_date_round_trip(year: i32, month: u8, day: u8, date: (i32, u8, u8))
    requires
        valid_civil_date(year as int, month as int, day as int),
        is_civil_date_of(date, civil_day_number(year as int, month as int, day as int)),
    ensures
        date == (year, month, day),
{
    let y = choose|y: int|
        valid_civil_date(y, date.1 as int, date.2 as int) && civil_day_number(
            y,
            date.1 as int,
            date.2 as int,
        ) == civil_day_number(year as int, month as int, day as int) && date.0 == y as i32;
    civil_day_number_is_injective(y, date.1 as int, date.2 as int, year as int, month as int, day as int);
}

/// What the day-to-date algorithm computes from `z = day + 719468` is a
/// valid date with day number `day`.
proof fn lemma_civil_from_days_result(
    z: int,
    era: int,
    doe: int,
    yoe: int,
    doy: int,
    mp: int,
    d: int,
    month: int,
    full_year: int,
)
    requires
        era == z / 146097,
        doe == z % 146097,
        yoe == year_of_era_estimate(doe),
        doy == doe - era_year_start(yoe),
        mp == (5 * doy + 2) / 153,
        d == doy - march_offset(mp) + 1,
        month == month_of_march_index(mp),
        full_year == (if month <= 2 {
            yoe + era * 400 + 1
        } else {
            yoe + era * 400
        }),
    ensures
        valid_civil_date(full_year, month, d),
        civil_day_number(full_year, month, d) == z - 719468,
        1 <= month <= 12,
        1 <= d <= 31,
{
    assert(z == 146097 * era + doe) by (nonlinear_arith)
        requires
            era == z / 146097,
            doe == z % 146097,
    ;
    lemma_year_of_era(doe);
    lemma_march_month_bits(doy as u64, mp as u64, march_offset(mp) as u64, march_offset(mp + 1) as u64);
    lemma_march_offsets();
    lemma_leap_in_era(era, yoe);
    assert(valid_civil_date(full_year, month, d));
    lemma_day_number_by_era(full_year, month, d);
    lemma_era_split(yoe + era * 400, era, yoe);
}

/// The calendar date of a day number: the year (truncated to `i32`), month
/// and day of the unique valid date with that day number.
#[verifier::rlimit(40)]
pub fn civil_from_days(day: i64) -> (date: (i32, u8, u8))
    requires
        day <= i64::MAX - 719_468,
    ensures
        is_civil_date_of(date, day as int),
{
    let z: i64 = day + 719_468;
    let era: i64 = div_floor(z, 146_097);
    let day_of_era: i64 = rem_floor(z, 146_097);
    proof {
        lemma_year_of_era(day_of_era as int);
    }
    let year_of_era: i64 = (day_of_era - day_of_era / 1_460 + day_of_era / 36_524 - day_of_era / 146_096)
        / 365;
    assert(year_of_era == year_of_era_estimate(day_of_era as int));
    assert(era * 400 <= i64::MAX && era * 400 >= i64::MIN) by (nonlinear_arith)
        requires
            era == z / 146097,
            i64::MIN <= z <= i64::MAX,
    ;
    let year: i64 = year_of_era + era * 400;
    let day_of_year: i64 = day_of_era - (365 * year_of_era + year_of_era / 4 - year_of_era / 100);
    assert(day_of_year == day_of_era - era_year_start(year_of_era as int));
    let month_prime: i64 = (5 * day_of_year + 2) / 153;
    proof {
        lemma_march_month_bits(
            day_of_year as u64,
            month_prime as u64,
            march_offset(month_prime as int) as u64,
            march_offset(month_prime + 1) as u64,
        );
    }
    let d: i64 = day_of_year - (153 * month_prime + 2) / 5 + 1;
    assert(d == day_of_year - march_offset(month_prime as int) + 1);
    let month: i64 = if month_prime < 10 {
        month_prime + 3
    } else {
        month_prime - 9
    };
    assert(year + 1 <= i64::MAX) by (nonlinear_arith)
        requires
            era == z / 146097,
            z <= i64::MAX,
            year == year_of_era + era * 400,
            year_of_era < 400,
    ;
    let full_year: i64 = if month <= 2 {
        year + 1
    } else {
        year
    };
    proof {
        lemma_civil_from_days_result(
            z as int,
            era as int,
            day_of_era as int,
            year_of_era as int,
            day_of_year as int,
            month_prime as int,
            d as int,
            month as int,
            full_year as int,
        );
    }
    let date = (full_year as i32, month as u8, d as u8);
    assert(date.1 as int == month && date.2 as int == d);
    assert(valid_civil_date(full_year as int, date.1 as int, date.2 as int) && civil_day_number(
        full_year as int,
        date.1 as int,
        date.2 as int,
    ) == day && date.0 == (full_year as int) as i32);
    date
}

/// Days in `month` of `year`; a month outside 1..=12 counts 31 days.
#[verifier::spinoff_prover]
pub fn days_in_month(year: i32, month: u8) -> (days: u8)
    ensures
        days == month_length(year as int, month as int),
{
    if month == 4 || month == 6 || month == 9 || month == 11 {
        30
    } else if month == 2 {
        if year % 4 == 0 && (year % 100 != 0 || year % 400 == 0) {
            29
        } else {
            28
        }
    } else {
        31
    }
}

/// Weekday of a day number: 0 is Sunday (1970-01-01 was a Thursday, 4).
pub open spec fn weekday(day: int) -> int {
    (day + 4) % 7
}

/// The weekday a week starts on, from any day number a caller gives:
/// taken modulo 7 (0 is Sunday), negative numbers counting back.
pub fn week_start_from(day: i32) -> (weekday: u8)
    ensures
        weekday == day % 7,
{
    let r = match (day as i64).checked_rem_euclid(7) {
        Some(r) => r,
        None => 0,
    };
    r as u8
}

/// The first day of the week that contains `day`, for weeks starting on
/// weekday `week_starts_on` (taken modulo 7).
pub fn start_of_week(day: i64, week_starts_on: u8) -> (start: i64)
    requires
        i64::MIN + 6 <= day <= i64::MAX - 4,
    ensures
        start <= day < start + 7,
        weekday(start as int) == week_starts_on % 7,
        start == day - (weekday(day as int) - week_starts_on) % 7,
{
    let weekday_now = rem_floor(day + 4, 7);
    let back = rem_floor(weekday_now - week_starts_on as i64, 7);
    assert(weekday(day - back) == week_starts_on % 7) by (nonlinear_arith)
        requires
            weekday_now == (day + 4) % 7,
            back == (weekday_now - week_starts_on) % 7,
            0 <= back < 7,
    ;
    day - back
}

/// `s` cut at every `sep` (`str::split` with a char pattern).
pub open spec fn split_on(s: Seq<char>, sep: char) -> Seq<Seq<char>>
    decreases s.len(),
{
    if s.len() == 0 {
        seq![Seq::<char>::empty()]
    } else {
        let parts = split_on(s.drop_last(), sep);
        if s.last() == sep {
            parts.push(Seq::<char>::empty())
        } else {
            parts.update(parts.len() - 1, parts.last().push(s.last()))
        }
    }
}

proof fn lemma_split_nonempty(s: Seq<char>, sep: char)
    ensures
        split_on(s, sep).len() >= 1,
    decreases s.len(),
{
    if s.len() > 0 {
        lemma_split_nonempty(s.drop_last(), sep);
    }
}

/// The pieces of `chars` between occurrences of `sep`.
pub fn split_chars(chars: &[char], sep: char) -> (parts: Vec<Vec<char>>)
    ensures
        parts@.len() == split_on(chars@, sep).len(),
        forall|i: int| 0 <= i < parts@.len() ==> #[trigger] parts@[i]@ == split_on(chars@, sep)[i],
{
    let mut parts: Vec<Vec<char>> = Vec::new();
    let mut current: Vec<char> = Vec::new();
    let mut i: usize = 0;
    assert(chars@.take(0) =~= Seq::<char>::empty());
    while i < chars.len()
        invariant
            i <= chars@.len(),
            parts@.len() + 1 == split_on(chars@.take(i as int), sep).len(),
            forall|k: int| 0 <= k < parts@.len() ==> #[trigger] parts@[k]@ == split_on(
                chars@.take(i as int),
                sep,
            )[k],
            current@ == split_on(chars@.take(i as int), sep).last(),
        decreases chars.len() - i,
    {
        let ghost before = split_on(chars@.take(i as int), sep);
        proof {
            lemma_split_nonempty(chars@.take(i as int), sep);
        }
        assert(chars@.take(i + 1).drop_last() =~= chars@.take(i as int));
        assert(chars@.take(i + 1).last() == chars@[i as int]);
        if chars[i] == sep {
            let finished = current;
            parts.push(finished);
            current = Vec::new();
        } else {
            current.push(chars[i]);
        }
        i = i + 1;
    }
    assert(chars@.take(chars@.len() as int) =~= chars@);
    proof {
        lemma_split_nonempty(chars@, sep);
    }
    let ghost before = parts@;
    parts.push(current);
    assert forall|k: int| 0 <= k < parts@.len() implies #[trigger] parts@[k]@ == split_on(chars@, sep)[k] by {
        if k < before.len() {
            assert(parts@[k] == before[k]);
        }
    }
    parts
}

/// The day number of a `YYYY-MM-DD` key: three `-`-separated integers (an
/// `i32` year and `u8` month and day) that name a valid date.
pub open spec fn parsed_date(value: Seq<char>) -> Option<int> {
    let parts = split_on(value, '-');
    if parts.len() == 3 {
        match (
            parsed_integer(parts[0], i32::MIN as int, i32::MAX as int),
            parsed_integer(parts[1], 0, 255),
            parsed_integer(parts[2], 0, 255),
        ) {
            (Some(year), Some(month), Some(day)) => if valid_civil_date(year, month, day) {
                Some(civil_day_number(year, month, day))
            } else {
                None
            },
            _ => None,
        }
    } else {
        None
    }
}

/// Parses a `YYYY-MM-DD` key into its day number; anything else is `None`.
pub fn parse_date(value: &str) -> (day: Option<i64>)
    ensures
        match day {
            Some(d) => parsed_date(value@) == Some(d as int),
            None => parsed_date(value@) is None,
        },
{
    let chars = chars_of(value);
    let parts = split_chars(chars.as_slice(), '-');
    if parts.len() != 3 {
        return None;
    }
    assert(parts@[0]@ == split_on(value@, '-')[0]);
    assert(parts@[1]@ == split_on(value@, '-')[1]);
    assert(parts@[2]@ == split_on(value@, '-')[2]);
    let year = match parse_integer(parts[0].as_slice(), i32::MIN as i64, i32::MAX as i64) {
        Some(year) => year as i32,
        None => return None,
    };
    let month = match parse_integer(parts[1].as_slice(), 0, 255) {
        Some(month) => month as u8,
        None => return None,
    };
    let day = match parse_integer(parts[2].as_slice(), 0, 255) {
        Some(day) => day as u8,
        None => return None,
    };
    if !(1 <= month && month <= 12) {
        return None;
    }
    let max_day = days_in_month(year, month);
    if day == 0 || day > max_day {
        return None;
    }
    Some(days_from_civil(year, month, day))
}

/// `format!("{year:04}-{month:02}-{day:02}")` of a date.
pub open spec fn date_key(date: (i32, u8, u8)) -> Seq<char> {
    signed_zero_padded(date.0 as int, 4) + seq!['-'] + zero_padded(date.1 as nat, 2) + seq!['-']
        + zero_padded(date.2 as nat, 2)
}

/// The `YYYY-MM-DD` key of a day number.
pub fn date_key_from_days(day: i64) -> (key: String)
    requires
        day <= i64::MAX - 719_468,
    ensures
        key@ == date_key(civil_date_of(day as int)),
{
    let date = civil_from_days(day);
    proof {
        civil_date_is_unique(date, day as int);
    }
    let mut out: Vec<char> = Vec::new();
    push_signed_zero_padded(&mut out, date.0 as i64, 4);
    out.push('-');
    push_zero_padded(&mut out, date.1 as u64, 2);
    out.push('-');
    push_zero_padded(&mut out, date.2 as u64, 2);
    assert(out@ =~= date_key(date));
    string_of(out.as_slice())
}

/// Day numbers of dates whose year fits in an `i32` stay within 2^40 days of 1970.
pub open spec fn day_in_key_range(day: int) -> bool {
    -1_099_511_627_776 <= day <= 1_099_511_627_776
}

pub proof fn parsed_date_in_range(value: Seq<char>)
    ensures
        parsed_date(value) matches Some(day) ==> day_in_key_range(day),
{
    let parts = split_on(value, '-');
    if parts.len() == 3 {
        match (
            parsed_integer(parts[0], i32::MIN as int, i32::MAX as int),
            parsed_integer(parts[1], 0, 255),
            parsed_integer(parts[2], 0, 255),
        ) {
            (Some(year), Some(month), Some(day)) => {
                if valid_civil_date(year, month, day) {
                    assert(day_in_key_range(civil_day_number(year, month, day))) by (nonlinear_arith)
                        requires
                            i32::MIN <= year <= i32::MAX,
                            1 <= month <= 12,
                            1 <= day <= 31,
                            0 <= days_before_month(year, month) <= 335,
                    ;
                }
            },
            _ => {},
        }
    }
}

} // verus!
