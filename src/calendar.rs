//! Proleptic Gregorian calendar calculus: leap years, month lengths, and the
//! bijection between (year, month, day) triples and a linear day count whose
//! day zero is 1970-01-01.
use vstd::prelude::*;

verus! {

/// Number of days from 0000-01-01 to 1970-01-01.
pub const EPOCH_DAYS_FROM_YEAR_ZERO: i64 = 719528;

/// Largest year magnitude the executable calendar code works with.
pub const YEAR_LIMIT: i64 = 400_000_000;

/// Largest day-count magnitude accepted by `civil_from_days`; it covers every
/// whole day of a signed 64-bit millisecond count.
pub const DAY_LIMIT: i64 = 110_000_000_000;

/// The proleptic Gregorian leap-year rule.
pub open spec fn is_leap_year(y: int) -> bool {
    y % 4 == 0 && (y % 100 != 0 || y % 400 == 0)
}

pub open spec fn year_length(y: int) -> int {
    if is_leap_year(y) { 366 } else { 365 }
}

/// Length of month `m` (1 = January) in year `y`.
pub open spec fn month_length(y: int, m: int) -> int {
    if m == 2 {
        if is_leap_year(y) { 29 } else { 28 }
    } else if m == 4 || m == 6 || m == 9 || m == 11 {
        30
    } else {
        31
    }
}

/// Days of year `y` that precede the first day of month `m`.
pub open spec fn days_before_month(y: int, m: int) -> int {
    let leap: int = if is_leap_year(y) { 1 } else { 0 };
    if m <= 1 { 0 }
    else if m == 2 { 31 }
    else if m == 3 { 59 + leap }
    else if m == 4 { 90 + leap }
    else if m == 5 { 120 + leap }
    else if m == 6 { 151 + leap }
    else if m == 7 { 181 + leap }
    else if m == 8 { 212 + leap }
    else if m == 9 { 243 + leap }
    else if m == 10 { 273 + leap }
    else if m == 11 { 304 + leap }
    else { 334 + leap }
}

/// Day count (relative to 1970-01-01) of January 1st of year `y`.
pub open spec fn days_before_year(y: int) -> int {
    365 * y + (y + 3) / 4 - (y + 99) / 100 + (y + 399) / 400 - EPOCH_DAYS_FROM_YEAR_ZERO
}

pub open spec fn is_valid_date(y: int, m: int, d: int) -> bool {
    1 <= m <= 12 && 1 <= d <= month_length(y, m)
}

/// Linear day count of a calendar date; 1970-01-01 is day zero.
pub open spec fn days_from_civil(y: int, m: int, d: int) -> int {
    days_before_year(y) + days_before_month(y, m) + d - 1
}

/// One-based position of a valid date within its year.
pub open spec fn day_of_year(y: int, m: int, d: int) -> int {
    days_before_month(y, m) + d
}

/// The date whose day count is `n`.
pub open spec fn civil_from_days_spec(n: int) -> (int, int, int) {
    choose|t: (int, int, int)| is_valid_date(t.0, t.1, t.2) && days_from_civil(t.0, t.1, t.2) == n
}

/// Successive years start exactly one year length apart.
pub proof fn lemma_year_step(y: int)
    ensures
        days_before_year(y + 1) == days_before_year(y) + year_length(y),
{
}

/// January 1st of year `y` is within a few days of its mean-year position.
pub proof fn lemma_year_position(y: int)
    ensures
        -700 <= 400 * days_before_year(y) - 146097 * (y - 1970) <= 700,
{
}

/// Later years start later: every year before `b` ends no later than `b` starts.
pub proof fn lemma_years_ordered(a: int, b: int)
    requires
        a < b,
    ensures
        days_before_year(a) + year_length(a) <= days_before_year(b),
    decreases b - a,
{
    lemma_year_step(a);
    if a + 1 < b {
        lemma_years_ordered(a + 1, b);
        lemma_year_step(a + 1);
    }
}

/// Months of a year tile it: month `m` ends where month `m + 1` starts, and
/// December ends where the year does.
pub proof fn lemma_month_step(y: int, m: int)
    requires
        1 <= m <= 12,
    ensures
        m < 12 ==> days_before_month(y, m + 1) == days_before_month(y, m) + month_length(y, m),
        m == 12 ==> days_before_month(y, m) + month_length(y, m) == year_length(y),
{
}

/// Earlier months end no later than later months start.
pub proof fn lemma_months_ordered(y: int, a: int, b: int)
    requires
        1 <= a < b <= 12,
    ensures
        days_before_month(y, a) + month_length(y, a) <= days_before_month(y, b),
{
}

/// A valid date's day count lies inside its own year.
pub proof fn lemma_date_in_year(y: int, m: int, d: int)
    requires
        is_valid_date(y, m, d),
    ensures
        days_before_year(y) <= days_from_civil(y, m, d) < days_before_year(y) + year_length(y),
        1 <= day_of_year(y, m, d) <= year_length(y),
{
    lemma_month_step(y, m);
    if m < 11 {
        lemma_months_ordered(y, m + 1, 12);
    }
    lemma_month_step(y, 12);
}

/// Two valid dates with the same day count are the same date.
pub proof fn lemma_days_injective(y1: int, m1: int, d1: int, y2: int, m2: int, d2: int)
    requires
        is_valid_date(y1, m1, d1),
        is_valid_date(y2, m2, d2),
        days_from_civil(y1, m1, d1) == days_from_civil(y2, m2, d2),
    ensures
        y1 == y2 && m1 == m2 && d1 == d2,
{
    lemma_date_in_year(y1, m1, d1);
    lemma_date_in_year(y2, m2, d2);
    if y1 < y2 {
        lemma_years_ordered(y1, y2);
    } else if y2 < y1 {
        lemma_years_ordered(y2, y1);
    }
    if m1 < m2 {
        lemma_months_ordered(y1, m1, m2);
    } else if m2 < m1 {
        lemma_months_ordered(y1, m2, m1);
    }
}

/// Converting a valid date to its day count and back gives the same date.
pub proof fn lemma_civil_round_trip(y: int, m: int, d: int)
    requires
        is_valid_date(y, m, d),
    ensures
        civil_from_days_spec(days_from_civil(y, m, d)) == (y, m, d),
{
    let n = days_from_civil(y, m, d);
    assert(exists|t: (int, int, int)| is_valid_date(t.0, t.1, t.2) && days_from_civil(t.0, t.1, t.2) == n)
        by {
        let w = (y, m, d);
        assert(is_valid_date(w.0, w.1, w.2) && days_from_civil(w.0, w.1, w.2) == n);
    }
    let t = civil_from_days_spec(n);
    lemma_days_injective(y, m, d, t.0, t.1, t.2);
}

/// A year no later than the one holding day `n`, searching down from `y`.
proof fn year_not_after(n: int, y: int) -> (r: int)
    requires
        days_before_year(y) > n - 400,
    ensures
        days_before_year(r) <= n,
    decreases days_before_year(y) - n + 400,
{
    if days_before_year(y) <= n {
        y
    } else {
        lemma_year_step(y - 1);
        year_not_after(n, y - 1)
    }
}

/// The year holding day `n`, searching up from `y`.
proof fn year_holding(n: int, y: int) -> (r: int)
    requires
        days_before_year(y) <= n,
    ensures
        days_before_year(r) <= n < days_before_year(r + 1),
    decreases n - days_before_year(y),
{
    lemma_year_step(y);
    if days_before_year(y + 1) > n {
        y
    } else {
        year_holding(n, y + 1)
    }
}

/// The month of year `y` holding day `doy` (zero-based), searching up from `m`.
proof fn month_holding(y: int, doy: int, m: int) -> (r: int)
    requires
        1 <= m <= 12,
        days_before_month(y, m) <= doy < year_length(y),
    ensures
        1 <= r <= 12,
        days_before_month(y, r) <= doy < days_before_month(y, r) + month_length(y, r),
    decreases 12 - m,
{
    lemma_month_step(y, m);
    if m == 12 || days_before_month(y, m + 1) > doy {
        m
    } else {
        month_holding(y, doy, m + 1)
    }
}

/// Every day count is the day count of a valid date: the one that
/// `civil_from_days_spec` names.
pub proof fn lemma_days_to_civil(n: int)
    ensures
        is_valid_date(civil_from_days_spec(n).0, civil_from_days_spec(n).1, civil_from_days_spec(n).2),
        days_from_civil(civil_from_days_spec(n).0, civil_from_days_spec(n).1, civil_from_days_spec(n).2) == n,
{
    let y0 = (n * 400) / 146097 + 1970;
    lemma_year_position(y0);
    let below = year_not_after(n, y0);
    let y = year_holding(n, below);
    lemma_year_step(y);
    let m = month_holding(y, n - days_before_year(y), 1);
    let w = (y, m, n - days_before_year(y) - days_before_month(y, m) + 1);
    assert(is_valid_date(w.0, w.1, w.2) && days_from_civil(w.0, w.1, w.2) == n);
}

/// Floor division by a positive divisor.
pub fn floor_div(a: i64, b: i64) -> (r: i64)
    requires
        b > 0,
    ensures
        r == a / b,
{
    proof {
        assert(i64::MIN <= a / b <= i64::MAX) by (nonlinear_arith)
            requires b > 0, i64::MIN <= a <= i64::MAX;
    }
    match a.checked_div_euclid(b) {
        Some(q) => q,
        None => 0,
    }
}

/// Non-negative remainder of division by a positive divisor.
pub fn floor_mod(a: i64, b: i64) -> (r: i64)
    requires
        b > 0,
    ensures
        r == a % b,
        0 <= r < b,
{
    match a.checked_rem_euclid(b) {
        Some(q) => q,
        None => 0,
    }
}

/// Whether `year` is a leap year.
pub fn is_leap(year: i64) -> (r: bool)
    ensures
        r == is_leap_year(year as int),
{
    floor_mod(year, 4) == 0 && (floor_mod(year, 100) != 0 || floor_mod(year, 400) == 0)
}

/// Number of days in `month` (1 = January) of `year`.
pub fn days_in_month(year: i64, month: u8) -> (r: u8)
    requires
        1 <= month <= 12,
    ensures
        r as int == month_length(year as int, month as int),
{
    if month == 2 {
        if is_leap(year) { 29 } else { 28 }
    } else if month == 4 || month == 6 || month == 9 || month == 11 {
        30
    } else {
        31
    }
}

fn days_before_month_exec(year: i64, month: u8) -> (r: i64)
    requires
        1 <= month <= 12,
    ensures
        r as int == days_before_month(year as int, month as int),
{
    let leap: i64 = if is_leap(year) { 1 } else { 0 };
    match month {
        1 => 0,
        2 => 31,
        3 => 59 + leap,
        4 => 90 + leap,
        5 => 120 + leap,
        6 => 151 + leap,
        7 => 181 + leap,
        8 => 212 + leap,
        9 => 243 + leap,
        10 => 273 + leap,
        11 => 304 + leap,
        _ => 334 + leap,
    }
}

fn days_before_year_exec(year: i64) -> (r: i64)
    requires
        -YEAR_LIMIT <= year <= YEAR_LIMIT,
    ensures
        r as int == days_before_year(year as int),
{
    365 * year + floor_div(year + 3, 4) - floor_div(year + 99, 100) + floor_div(year + 399, 400)
        - EPOCH_DAYS_FROM_YEAR_ZERO
}

/// Day count (1970-01-01 is day zero) of a valid date.
pub fn days_from_ymd(year: i64, month: u8, day: u8) -> (r: i64)
    requires
        -YEAR_LIMIT <= year <= YEAR_LIMIT,
        is_valid_date(year as int, month as int, day as int),
    ensures
        r as int == days_from_civil(year as int, month as int, day as int),
{
    days_before_year_exec(year) + days_before_month_exec(year, month) + day as i64 - 1
}

/// The date whose day count is `n`.
pub fn ymd_from_days(n: i64) -> (r: (i64, u8, u8))
    requires
        -DAY_LIMIT <= n <= DAY_LIMIT,
    ensures
        is_valid_date(r.0 as int, r.1 as int, r.2 as int),
        days_from_civil(r.0 as int, r.1 as int, r.2 as int) == n,
        (r.0 as int, r.1 as int, r.2 as int) == civil_from_days_spec(n as int),
        -YEAR_LIMIT < r.0 < YEAR_LIMIT,
{
    let mut y: i64 = floor_div(n * 400, 146097) + 1970;
    proof {
        lemma_year_position(y as int);
    }
    while days_before_year_exec(y) > n
        invariant
            -DAY_LIMIT <= n <= DAY_LIMIT,
            -YEAR_LIMIT + 1 <= y <= YEAR_LIMIT - 1,
            days_before_year(y as int) > n - 400,
        decreases days_before_year(y as int) - n + 400,
    {
        proof {
            lemma_year_position(y as int);
            lemma_year_step(y - 1);
        }
        y = y - 1;
    }
    proof {
        lemma_year_position(y as int);
    }
    while days_before_year_exec(y + 1) <= n
        invariant
            -DAY_LIMIT <= n <= DAY_LIMIT,
            -YEAR_LIMIT + 1 <= y <= YEAR_LIMIT - 1,
            days_before_year(y as int) <= n,
        decreases n - days_before_year(y as int),
    {
        proof {
            lemma_year_position(y + 1);
            lemma_year_step(y as int);
        }
        y = y + 1;
    }
    proof {
        lemma_year_step(y as int);
    }
    let doy: i64 = n - days_before_year_exec(y);
    let mut m: u8 = 1;
    while m < 12 && days_before_month_exec(y, m + 1) <= doy
        invariant
            1 <= m <= 12,
            0 <= doy < year_length(y as int),
            days_before_month(y as int, m as int) <= doy,
        decreases 12 - m,
    {
        m = m + 1;
    }
    proof {
        lemma_month_step(y as int, m as int);
    }
    let d: u8 = (doy - days_before_month_exec(y, m) + 1) as u8;
    proof {
        lemma_civil_round_trip(y as int, m as int, d as int);
    }
    (y, m, d)
}

} // verus!
