//! The proleptic Gregorian calendar: day numbers, civil dates, and the
//! conversions between them.
//!
//! A *day number* counts days from the Unix epoch (1970-01-01 is day 0).
//! A *civil date* is a year, a 0-based month, and a 1-based day of month.
//! `day_number` maps a civil date to its day number; `civil_from_day_number`
//! inverts it, and the inversion is proved exact in both directions.

use vstd::prelude::*;
use vstd::arithmetic::div_mod::{
    lemma_fundamental_div_mod, lemma_fundamental_div_mod_converse,
};

verus! {

/// Largest day-number magnitude the conversions accept; comfortably wider
/// than the instants the date engine can store.
pub const DAY_ABS_MAX: i64 = 200_000_000;

/// Largest year magnitude the conversions accept.
pub const YEAR_ABS_MAX: i64 = 1_000_000;

/// Days from 0000-01-01 to 1970-01-01.
pub const EPOCH_SHIFT: i64 = 719_528;

/// Days in one 400-year Gregorian cycle.
pub const CYCLE_DAYS: i64 = 146_097;

/// Whether `year` is a leap year in the proleptic Gregorian calendar.
pub open spec fn is_leap_year(year: int) -> bool {
    year % 4 == 0 && (year % 100 != 0 || year % 400 == 0)
}

/// How many days `year` has.
pub open spec fn days_in_year(year: int) -> int {
    if is_leap_year(year) {
        366
    } else {
        365
    }
}

/// Days from January 1 to the first day of 0-based month `month0` in a year
/// whose leap status is `leap`.
pub open spec fn days_before_month(leap: bool, month0: int) -> int {
    let feb: int = if leap {
        29
    } else {
        28
    };
    if month0 <= 0 {
        0
    } else if month0 == 1 {
        31
    } else if month0 == 2 {
        31 + feb
    } else if month0 == 3 {
        62 + feb
    } else if month0 == 4 {
        92 + feb
    } else if month0 == 5 {
        123 + feb
    } else if month0 == 6 {
        153 + feb
    } else if month0 == 7 {
        184 + feb
    } else if month0 == 8 {
        215 + feb
    } else if month0 == 9 {
        245 + feb
    } else if month0 == 10 {
        276 + feb
    } else if month0 == 11 {
        306 + feb
    } else {
        337 + feb
    }
}

/// How many days 0-based month `month0` has in a year whose leap status is
/// `leap`.
pub open spec fn days_in_month(leap: bool, month0: int) -> int {
    days_before_month(leap, month0 + 1) - days_before_month(leap, month0)
}

/// Days from 1970-01-01 to January 1 of `year` (negative for earlier years).
pub open spec fn days_before_year(year: int) -> int
    decreases
        (if year >= 1970 {
            year - 1970
        } else {
            1970 - year
        }),
{
    if year == 1970 {
        0
    } else if year > 1970 {
        days_before_year(year - 1) + days_in_year(year - 1)
    } else {
        days_before_year(year + 1) - days_in_year(year)
    }
}

/// A civil date is in range when its month is a real month and its day fits
/// that month.
pub open spec fn valid_civil(year: int, month0: int, day: int) -> bool {
    0 <= month0 < 12 && 1 <= day <= days_in_month(is_leap_year(year), month0)
}

/// The day number of the civil date (`year`, `month0`, `day`).
pub open spec fn day_number(year: int, month0: int, day: int) -> int {
    days_before_year(year) + days_before_month(is_leap_year(year), month0) + day - 1
}

pub proof fn lemma_days_before_year_step(year: int)
    ensures
        days_before_year(year + 1) == days_before_year(year) + days_in_year(year),
{
    if year + 1 > 1970 {
        assert(days_before_year(year + 1) == days_before_year(year) + days_in_year(year));
    } else {
        assert(days_before_year(year) == days_before_year(year + 1) - days_in_year(year));
    }
}

/// Later years start on strictly later day numbers; a whole year fits in
/// between.
pub proof fn lemma_days_before_year_mono(y1: int, y2: int)
    requires
        y1 < y2,
    ensures
        days_before_year(y1) + days_in_year(y1) <= days_before_year(y2),
    decreases y2 - y1,
{
    lemma_days_before_year_step(y1);
    if y1 + 1 < y2 {
        lemma_days_before_year_mono(y1 + 1, y2);
    }
}

/// Two distinct in-range civil dates have distinct day numbers.
pub proof fn lemma_day_number_injective(y1: int, m1: int, d1: int, y2: int, m2: int, d2: int)
    requires
        valid_civil(y1, m1, d1),
        valid_civil(y2, m2, d2),
        day_number(y1, m1, d1) == day_number(y2, m2, d2),
    ensures
        y1 == y2,
        m1 == m2,
        d1 == d2,
{
    let l1 = is_leap_year(y1);
    let l2 = is_leap_year(y2);
    assert(days_before_month(l1, m1) + d1 - 1 < days_in_year(y1));
    assert(days_before_month(l2, m2) + d2 - 1 < days_in_year(y2));
    if y1 < y2 {
        lemma_days_before_year_mono(y1, y2);
        assert(false);
    }
    if y2 < y1 {
        lemma_days_before_year_mono(y2, y1);
        assert(false);
    }
}

/// Every day number is the day number of some in-range civil date.
pub proof fn lemma_civil_exists(n: int)
    ensures
        exists|y: int, m: int, d: int| valid_civil(y, m, d) && day_number(y, m, d) == n,
    decreases
        (if n >= 0 {
            n
        } else {
            -n
        }),
{
    if n == 0 {
        assert(valid_civil(1970, 0, 1));
        assert(day_number(1970, 0, 1) == 0);
    } else if n > 0 {
        lemma_civil_exists(n - 1);
        let (y, m, d) = choose|y: int, m: int, d: int|
            valid_civil(y, m, d) && day_number(y, m, d) == n - 1;
        let l = is_leap_year(y);
        if d < days_in_month(l, m) {
            assert(valid_civil(y, m, d + 1) && day_number(y, m, d + 1) == n);
        } else if m < 11 {
            assert(valid_civil(y, m + 1, 1) && day_number(y, m + 1, 1) == n);
        } else {
            lemma_days_before_year_step(y);
            assert(valid_civil(y + 1, 0, 1) && day_number(y + 1, 0, 1) == n);
        }
    } else {
        lemma_civil_exists(n + 1);
        let (y, m, d) = choose|y: int, m: int, d: int|
            valid_civil(y, m, d) && day_number(y, m, d) == n + 1;
        if d > 1 {
            assert(valid_civil(y, m, d - 1) && day_number(y, m, d - 1) == n);
        } else if m > 0 {
            assert(valid_civil(y, m - 1, days_in_month(is_leap_year(y), m - 1))
                && day_number(y, m - 1, days_in_month(is_leap_year(y), m - 1)) == n);
        } else {
            lemma_days_before_year_step(y - 1);
            assert(valid_civil(y - 1, 11, 31) && day_number(y - 1, 11, 31) == n);
        }
    }
}

/// The in-range civil date of day number `n` (unique by
/// `lemma_day_number_injective`).
pub open spec fn civil_of_day(n: int) -> (int, int, int) {
    choose|y: int, m: int, d: int| valid_civil(y, m, d) && day_number(y, m, d) == n
}

pub proof fn lemma_civil_of_day_works(n: int)
    ensures
        valid_civil(civil_of_day(n).0, civil_of_day(n).1, civil_of_day(n).2),
        day_number(civil_of_day(n).0, civil_of_day(n).1, civil_of_day(n).2) == n,
{
    lemma_civil_exists(n);
    let (y, m, d) = choose|y: int, m: int, d: int|
        valid_civil(y, m, d) && day_number(y, m, d) == n;
    assert(valid_civil(y, m, d) && day_number(y, m, d) == n);
}

/// Converting a day number back to a civil date undoes `day_number`.
pub proof fn lemma_civil_of_day_number(y: int, m: int, d: int)
    requires
        valid_civil(y, m, d),
    ensures
        civil_of_day(day_number(y, m, d)) == (y, m, d),
{
    let n = day_number(y, m, d);
    lemma_civil_of_day_works(n);
    let (y2, m2, d2) = civil_of_day(n);
    lemma_day_number_injective(y, m, d, y2, m2, d2);
}

/// `days_before_year` in closed form (`/` is Euclidean division).
pub open spec fn days_before_year_closed(y: int) -> int {
    365 * y + (y - 1) / 4 - (y - 1) / 100 + (y - 1) / 400 + 1 - 719528
}

/// Stepping the dividend down by one lowers the quotient exactly at the
/// multiples of the divisor.
proof fn lemma_div_step(a: int, d: int)
    requires
        d > 0,
    ensures
        a / d - (a - 1) / d == if a % d == 0 {
            1int
        } else {
            0int
        },
{
    lemma_fundamental_div_mod(a, d);
    let q = a / d;
    let r = a % d;
    if r == 0 {
        assert(a - 1 == (q - 1) * d + (d - 1)) by (nonlinear_arith)
            requires
                a == d * q + r,
                r == 0,
        ;
        lemma_fundamental_div_mod_converse(a - 1, d, q - 1, d - 1);
    } else {
        assert(a - 1 == q * d + (r - 1)) by (nonlinear_arith)
            requires
                a == d * q + r,
        ;
        lemma_fundamental_div_mod_converse(a - 1, d, q, r - 1);
    }
}

#[verifier::rlimit(50)]
#[verifier::spinoff_prover]
pub proof fn lemma_days_before_year_closed(y: int)
    ensures
        days_before_year(y) == days_before_year_closed(y),
    decreases
        (if y >= 1970 {
            y - 1970
        } else {
            1970 - y
        }),
{
    if y == 1970 {
        assert(days_before_year_closed(1970) == 0);
    } else if y > 1970 {
        lemma_days_before_year_closed(y - 1);
        lemma_div_step(y - 1, 4);
        lemma_div_step(y - 1, 100);
        lemma_div_step(y - 1, 400);
    } else {
        lemma_days_before_year_closed(y + 1);
        lemma_div_step(y, 4);
        lemma_div_step(y, 100);
        lemma_div_step(y, 400);
    }
}

/// January 1 of year `400 * k` opens a 400-year cycle.
pub proof fn lemma_days_before_year_cycle(k: int)
    ensures
        days_before_year(400 * k) == 146097 * k - 719528,
{
    lemma_days_before_year_closed(400 * k);
    lemma_fundamental_div_mod_converse(400 * k - 1, 4, 100 * k - 1, 3);
    lemma_fundamental_div_mod_converse(400 * k - 1, 100, 4 * k - 1, 99);
    lemma_fundamental_div_mod_converse(400 * k - 1, 400, k - 1, 399);
}

/// Euclidean (floor) division on machine integers.
pub fn floor_div(a: i64, d: i64) -> (q: i64)
    requires
        1 <= d <= 100_000_000,
    ensures
        q == a as int / d as int,
{
    if a >= 0 {
        let q0: u64 = (a as u64) / (d as u64);
        q0 as i64
    } else {
        let m: u64 = (-(a as i128)) as u64;
        let du: u64 = d as u64;
        let qc: u64 = (m + (du - 1)) / du;
        proof {
            lemma_fundamental_div_mod(m as int + (du as int - 1), du as int);
            assert(qc <= m) by (nonlinear_arith)
                requires
                    du as int >= 1,
                    m as int >= 1,
                    du as int * (qc as int) <= m as int + (du as int - 1),
            ;
            lemma_floor_div_neg(a as int, d as int, qc as int);
        }
        (-(qc as i128)) as i64
    }
}

proof fn lemma_floor_div_neg(a: int, d: int, qc: int)
    requires
        d >= 1,
        a < 0,
        qc == (d - 1 - a) / d,
    ensures
        -qc == a / d,
{
    lemma_fundamental_div_mod(d - 1 - a, d);
    let rc = (d - 1 - a) % d;
    assert(a == (-qc) * d + (d - 1 - rc)) by (nonlinear_arith)
        requires
            d - 1 - a == d * qc + rc,
    ;
    lemma_fundamental_div_mod_converse(a, d, -qc, d - 1 - rc);
}

/// Euclidean remainder on machine integers.
pub fn floor_mod(a: i64, d: i64) -> (r: i64)
    requires
        1 <= d <= 100_000_000,
    ensures
        r == a as int % d as int,
{
    if a >= 0 {
        ((a as u64) % (d as u64)) as i64
    } else {
        let m: u64 = (-(a as i128)) as u64;
        let du: u64 = d as u64;
        let rc: u64 = (m + (du - 1)) % du;
        proof {
            lemma_floor_mod_neg(a as int, d as int, rc as int);
        }
        ((du - 1) - rc) as i64
    }
}

proof fn lemma_floor_mod_neg(a: int, d: int, rc: int)
    requires
        d >= 1,
        a < 0,
        rc == (d - 1 - a) % d,
    ensures
        a % d == d - 1 - rc,
{
    lemma_fundamental_div_mod(d - 1 - a, d);
    let qc = (d - 1 - a) / d;
    assert(a == (-qc) * d + (d - 1 - rc)) by (nonlinear_arith)
        requires
            d - 1 - a == d * qc + rc,
    ;
    lemma_fundamental_div_mod_converse(a, d, -qc, d - 1 - rc);
}

pub fn is_leap_year_x(y: i64) -> (r: bool)
    requires
        -1_100_000 <= y <= 1_100_000,
    ensures
        r == is_leap_year(y as int),
{
    let m4: i64 = floor_mod(y, 4);
    let m100: i64 = floor_mod(y, 100);
    let m400: i64 = floor_mod(y, 400);
    m4 == 0 && (m100 != 0 || m400 == 0)
}

pub fn days_before_year_x(y: i64) -> (r: i64)
    requires
        -1_100_000 <= y <= 1_100_000,
    ensures
        r == days_before_year(y as int),
{
    proof {
        lemma_days_before_year_closed(y as int);
    }
    let a: i64 = floor_div(y - 1, 4);
    let b: i64 = floor_div(y - 1, 100);
    let c: i64 = floor_div(y - 1, 400);
    365 * y + a - b + c + 1 - 719_528
}

pub fn days_before_month_x(leap: bool, month0: i64) -> (r: i64)
    requires
        0 <= month0 <= 12,
    ensures
        r == days_before_month(leap, month0 as int),
{
    let feb: i64 = if leap {
        29
    } else {
        28
    };
    if month0 <= 0 {
        0
    } else if month0 == 1 {
        31
    } else if month0 == 2 {
        31 + feb
    } else if month0 == 3 {
        62 + feb
    } else if month0 == 4 {
        92 + feb
    } else if month0 == 5 {
        123 + feb
    } else if month0 == 6 {
        153 + feb
    } else if month0 == 7 {
        184 + feb
    } else if month0 == 8 {
        215 + feb
    } else if month0 == 9 {
        245 + feb
    } else if month0 == 10 {
        276 + feb
    } else if month0 == 11 {
        306 + feb
    } else {
        337 + feb
    }
}

pub fn days_in_month_x(leap: bool, month0: i64) -> (r: i64)
    requires
        0 <= month0 < 12,
    ensures
        r == days_in_month(leap, month0 as int),
{
    let hi: i64 = days_before_month_x(leap, month0 + 1);
    let lo: i64 = days_before_month_x(leap, month0);
    hi - lo
}

/// The in-range civil date whose day number is `n`.
pub fn civil_from_day_number(n: i64) -> (r: (i64, i64, i64))
    requires
        -200_000_000 <= n <= 200_000_000,
    ensures
        valid_civil(r.0 as int, r.1 as int, r.2 as int),
        day_number(r.0 as int, r.1 as int, r.2 as int) == n as int,
        civil_of_day(n as int) == (r.0 as int, r.1 as int, r.2 as int),
        -600_000 <= r.0 <= 600_000,
{
    let shifted: i64 = n + 719_528;
    let era: i64 = floor_div(shifted, 146_097);
    proof {
        lemma_fundamental_div_mod(shifted as int, 146097);
        if era as int > 1400 {
            assert(146097 * (era as int) >= 146097 * 1401);
        }
        if era as int + 1400 < 0 {
            assert(146097 * (era as int) <= 146097 * (-1401));
        }
        lemma_days_before_year_cycle(era as int);
        lemma_days_before_year_cycle(era as int + 1);
    }
    let mut y: i64 = 400 * era;
    let mut below: i64 = days_before_year_x(y);
    let mut next: i64 = days_before_year_x(y + 1);
    while next <= n
        invariant
            -1400 <= era <= 1400,
            400 * era <= y < 400 * era + 400,
            below == days_before_year(y as int),
            next == days_before_year(y as int + 1),
            below <= n,
            -200_000_000 <= n <= 200_000_000,
            (n as int) < 146097 * (era as int + 1) - 719528,
            days_before_year(400 * (era as int) + 400) == 146097 * (era as int + 1) - 719528,
        decreases 400 * era + 400 - y,
    {
        proof {
            if y as int + 1 == 400 * (era as int) + 400 {
                assert(days_before_year(y as int + 1) > n);
            } else {
                assert(y as int + 1 < 400 * (era as int) + 400);
            }
        }
        y = y + 1;
        below = next;
        next = days_before_year_x(y + 1);
    }
    proof {
        lemma_days_before_year_step(y as int);
    }
    let leap: bool = is_leap_year_x(y);
    let doy: i64 = n - below;
    let m: i64 = if doy < days_before_month_x(leap, 1) {
        0
    } else if doy < days_before_month_x(leap, 2) {
        1
    } else if doy < days_before_month_x(leap, 3) {
        2
    } else if doy < days_before_month_x(leap, 4) {
        3
    } else if doy < days_before_month_x(leap, 5) {
        4
    } else if doy < days_before_month_x(leap, 6) {
        5
    } else if doy < days_before_month_x(leap, 7) {
        6
    } else if doy < days_before_month_x(leap, 8) {
        7
    } else if doy < days_before_month_x(leap, 9) {
        8
    } else if doy < days_before_month_x(leap, 10) {
        9
    } else if doy < days_before_month_x(leap, 11) {
        10
    } else {
        11
    };
    let before: i64 = days_before_month_x(leap, m);
    let d: i64 = doy - before + 1;
    proof {
        lemma_civil_of_day_number(y as int, m as int, d as int);
    }
    (y, m, d)
}

/// The weekday of day number `n`, counted from Sunday (day 0, 1970-01-01,
/// was a Thursday).
pub open spec fn weekday_of_day(n: int) -> int {
    (n + 4) % 7
}

pub fn weekday_of_day_x(n: i64) -> (r: i64)
    requires
        -200_000_000 <= n <= 200_000_000,
    ensures
        r == weekday_of_day(n as int),
        0 <= r < 7,
{
    floor_mod(n + 4, 7)
}

} // verus!
