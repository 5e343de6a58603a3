//! Laws of the adjustment engine: reconstruction from a civil view is exact,
//! the cascade rule really suppresses later arguments, and month and day
//! overflow roll as duration arithmetic implies.

use vstd::prelude::*;
use vstd::arithmetic::div_mod::{
    lemma_fundamental_div_mod_converse, lemma_mod_division_less_than_divisor,
    lemma_mod_multiples_vanish,
};
use crate::adjust::{pending_of, spec_apply, Coerced, DateAdjustment, YearType};
use crate::calendar::{
    day_number, days_before_month, days_in_month, days_in_year, is_leap_year,
    lemma_civil_of_day_number, lemma_days_before_year_closed, lemma_days_before_year_mono,
    valid_civil,
};
use crate::civil::{
    day_of_month, hour_of, instant_in_range, lemma_civil_projections, lemma_local_decompose,
    local_ms, milli_of, minute_of, month0_of, rem_ms, second_of, year_of,
};

verus! {

/// The views of an instant assembled from a civil date and milliseconds
/// since local midnight are exactly those parts.
proof fn lemma_assembled_views(rem: int, off: int, y2: int, m2: int, d2: int)
    requires
        0 <= rem < 86400000,
        valid_civil(y2, m2, d2),
        -150_000_000 <= day_number(y2, m2, d2) <= 150_000_000,
    ensures
        ({
            let v = day_number(y2, m2, d2) * 86400000 + rem - off * 60000;
            &&& year_of(v, off) == y2
            &&& month0_of(v, off) == m2
            &&& day_of_month(v, off) == d2
            &&& hour_of(v, off) == rem / 3600000
            &&& minute_of(v, off) == (rem / 60000) % 60
            &&& second_of(v, off) == (rem / 1000) % 60
            &&& milli_of(v, off) == rem % 1000
        }),
{
    let n2 = day_number(y2, m2, d2);
    let v = n2 * 86400000 + rem - off * 60000;
    assert(local_ms(v, off) == n2 * 86400000 + rem);
    lemma_fundamental_div_mod_converse(local_ms(v, off), 86400000, n2, rem);
    lemma_civil_of_day_number(y2, m2, d2);
}

/// An instant whose days, time of day and civil date all rebase cleanly: the
/// views of `day_number(y2, m2, d2) * 86400000 + rem_ms(ms, off) - off *
/// 60000` are exactly (`y2`, `m2`, `d2`) with the time of day of `ms`.
proof fn lemma_rebased_views(ms: int, off: int, y2: int, m2: int, d2: int)
    requires
        instant_in_range(ms),
        -1440 <= off <= 1440,
        valid_civil(y2, m2, d2),
        -150_000_000 <= day_number(y2, m2, d2) <= 150_000_000,
        instant_in_range(day_number(y2, m2, d2) * 86400000 + rem_ms(ms, off) - off * 60000),
    ensures
        ({
            let v = day_number(y2, m2, d2) * 86400000 + rem_ms(ms, off) - off * 60000;
            &&& year_of(v, off) == y2
            &&& month0_of(v, off) == m2
            &&& day_of_month(v, off) == d2
            &&& hour_of(v, off) == hour_of(ms, off)
            &&& minute_of(v, off) == minute_of(ms, off)
            &&& second_of(v, off) == second_of(ms, off)
            &&& milli_of(v, off) == milli_of(ms, off)
        }),
{
    lemma_mod_division_less_than_divisor(local_ms(ms, off), 86400000);
    lemma_assembled_views(rem_ms(ms, off), off, y2, m2, d2);
}

/// Idempotence of view and reconstruction: feeding every field of a valid
/// date's civil view back into a fresh adjuster bound to the same timezone
/// reproduces the original instant exactly. (At the very edge of the
/// representable range a nonzero offset can push the local year beyond what
/// calendar construction accepts, so such instants are excluded.)
pub proof fn lemma_view_reconstruct(ms: int, off: int)
    requires
        instant_in_range(ms),
        -1440 <= off <= 1440,
        -262143 <= year_of(ms, off) <= 262142,
    ensures
        ({
            let a = pending_of(
                YearType::Full,
                Some(Some(Coerced::Finite(year_of(ms, off) as i64))),
                Some(Some(Coerced::Finite(month0_of(ms, off) as i64))),
                Some(Some(Coerced::Finite(day_of_month(ms, off) as i64))),
                Some(Some(Coerced::Finite(hour_of(ms, off) as i64))),
                Some(Some(Coerced::Finite(minute_of(ms, off) as i64))),
                Some(Some(Coerced::Finite(second_of(ms, off) as i64))),
                Some(Some(Coerced::Finite(milli_of(ms, off) as i64))),
            );
            spec_apply(a, Option::Some(ms as i64), off) == Option::Some(ms)
        }),
{
    lemma_civil_projections(ms, off);
    lemma_local_decompose(ms, off);
    let y = year_of(ms, off);
    let m = month0_of(ms, off);
    let d = day_of_month(ms, off);
    lemma_fundamental_div_mod_converse(m, 12, 0, m);
    assert(day_number(y, m, 1) + d - 1 == day_number(y, m, d));
}

/// The cascade rule: once one argument position is omitted, every later
/// field in the same adjustment keeps its current value, even when a value
/// was explicitly supplied for it. Feeding (year, omitted month, day) builds
/// the same pending month and day as feeding the year alone, and the
/// computed instant is the same.
pub proof fn lemma_cascade(yv: Coerced, dv: Coerced, instant: Option<i64>, off: int)
    ensures
        ({
            let a = pending_of(
                YearType::Full,
                Some(Some(yv)),
                Some(Option::None),
                Some(Some(dv)),
                Option::None,
                Option::None,
                Option::None,
                Option::None,
            );
            let year_only = pending_of(
                YearType::Full,
                Some(Some(yv)),
                Option::None,
                Option::None,
                Option::None,
                Option::None,
                Option::None,
                Option::None,
            );
            &&& a.month is Unspecified
            &&& a.day is Unspecified
            &&& spec_apply(a, instant, off) == spec_apply(year_only, instant, off)
        }),
{
}

/// A non-finite field invalidates: an adjustment holding any non-finite
/// slot yields no instant on any date, so the setter reports not-a-number
/// and the date is left invalid.
pub proof fn lemma_non_finite_invalidates(a: DateAdjustment, instant: Option<i64>, off: int)
    requires
        a.year is NonFinite || a.month is NonFinite || a.day is NonFinite || a.hour is NonFinite
            || a.minute is NonFinite || a.second is NonFinite || a.millisecond is NonFinite,
    ensures
        spec_apply(a, instant, off) is None,
{
}

/// Month overflow: setting the month to 12 or beyond with everything else
/// unspecified carries whole years out of the month value; month 13 lands
/// in month 1 (0-based) of the next year with day and time of day
/// unchanged. Excluded: dates whose day of month does not exist in the
/// target month, and the outermost representable years.
pub proof fn lemma_month_overflow(ms: int, off: int)
    requires
        instant_in_range(ms),
        -1440 <= off <= 1440,
        -262141 <= year_of(ms, off) + 1 <= 262141,
        day_of_month(ms, off) <= days_in_month(is_leap_year(year_of(ms, off) + 1), 1),
    ensures
        ({
            let a = pending_of(
                YearType::Full,
                Option::None,
                Some(Some(Coerced::Finite(13))),
                Some(Option::None),
                Option::None,
                Option::None,
                Option::None,
                Option::None,
            );
            spec_apply(a, Option::Some(ms as i64), off) matches Some(v) && instant_in_range(v)
                && year_of(v, off) == year_of(ms, off) + 1 && month0_of(v, off) == 1
                && day_of_month(v, off) == day_of_month(ms, off) && hour_of(v, off) == hour_of(
                ms,
                off,
            ) && minute_of(v, off) == minute_of(ms, off) && second_of(v, off) == second_of(ms, off)
                && milli_of(v, off) == milli_of(ms, off)
        }),
{
    lemma_civil_projections(ms, off);
    lemma_local_decompose(ms, off);
    let y = year_of(ms, off);
    let m = month0_of(ms, off);
    let d = day_of_month(ms, off);
    let y2 = y + 1;
    let n2 = day_number(y2, 1, d);
    lemma_day_number_bounds(y2, 1, d);
    let rem = rem_ms(ms, off);
    lemma_mod_division_less_than_divisor(local_ms(ms, off), 86400000);
    let v = n2 * 86400000 + rem - off * 60000;
    assert(day_number(y2, 1, 1) + d - 1 == n2);
    assert(instant_in_range(v));
    lemma_rebased_views(ms, off, y2, 1, d);
}

/// Day-of-month underflow: setting the day to 0 with everything else
/// unspecified moves to the last day of the previous month, with time of
/// day unchanged, since the day contributes `day - 1` days on top of the
/// first of the month. Excluded: instants within a month of the lower edge
/// of the representable range.
pub proof fn lemma_day_zero(ms: int, off: int)
    requires
        instant_in_range(ms),
        -1440 <= off <= 1440,
        crate::civil::MS_MIN + 2_678_400_000 <= ms,
        year_of(ms, off) <= 262142,
    ensures
        ({
            let a = pending_of(
                YearType::Full,
                Option::None,
                Option::None,
                Some(Some(Coerced::Finite(0))),
                Option::None,
                Option::None,
                Option::None,
                Option::None,
            );
            let y = year_of(ms, off);
            let m = month0_of(ms, off);
            spec_apply(a, Option::Some(ms as i64), off) matches Some(v) && instant_in_range(v)
                && v == ms - day_of_month(ms, off) * 86400000 && hour_of(v, off) == hour_of(ms, off)
                && minute_of(v, off) == minute_of(ms, off) && second_of(v, off) == second_of(
                ms,
                off,
            ) && milli_of(v, off) == milli_of(ms, off) && (if m > 0 {
                year_of(v, off) == y && month0_of(v, off) == m - 1 && day_of_month(v, off)
                    == days_in_month(is_leap_year(y), m - 1)
            } else {
                year_of(v, off) == y - 1 && month0_of(v, off) == 11 && day_of_month(v, off) == 31
            })
        }),
{
    lemma_civil_projections(ms, off);
    lemma_local_decompose(ms, off);
    let y = year_of(ms, off);
    let m = month0_of(ms, off);
    let d = day_of_month(ms, off);
    let rem = rem_ms(ms, off);
    lemma_mod_division_less_than_divisor(local_ms(ms, off), 86400000);
    assert(days_before_month(is_leap_year(y), m) + d - 1 < days_in_year(y));
    if y + 262143 < 0 {
        lemma_days_before_year_mono(y, -262143);
        lemma_days_before_year_closed(-262143);
        assert(false);
    }
    let n1 = day_number(y, m, 1) - 1;
    let v = n1 * 86400000 + rem - off * 60000;
    assert(v == ms - d * 86400000);
    let leap = is_leap_year(y);
    if m > 0 {
        assert(day_number(y, m - 1, days_in_month(leap, m - 1)) == n1);
        lemma_rebased_views(ms, off, y, m - 1, days_in_month(leap, m - 1));
    } else {
        crate::calendar::lemma_days_before_year_step(y - 1);
        assert(day_number(y - 1, 11, 31) == n1);
        assert(valid_civil(y - 1, 11, 31));
        lemma_rebased_views(ms, off, y - 1, 11, 31);
    }
}

/// Milliseconds since midnight assembled from clock fields decompose back
/// into those fields.
proof fn lemma_clock_fields(h: int, mi: int, s: int, msec: int)
    requires
        0 <= h < 24,
        0 <= mi < 60,
        0 <= s < 60,
        0 <= msec < 1000,
    ensures
        ({
            let rem = h * 3600000 + mi * 60000 + s * 1000 + msec;
            &&& 0 <= rem < 86400000
            &&& rem / 3600000 == h
            &&& (rem / 60000) % 60 == mi
            &&& (rem / 1000) % 60 == s
            &&& rem % 1000 == msec
        }),
{
    let rem = h * 3600000 + mi * 60000 + s * 1000 + msec;
    lemma_fundamental_div_mod_converse(rem, 3600000, h, mi * 60000 + s * 1000 + msec);
    lemma_fundamental_div_mod_converse(rem, 60000, 60 * h + mi, s * 1000 + msec);
    lemma_fundamental_div_mod_converse(rem, 1000, 3600 * h + 60 * mi + s, msec);
    lemma_mod_multiples_vanish(h, mi, 60);
    assert(mi % 60 == mi);
    lemma_mod_multiples_vanish(60 * h + mi, s, 60);
    assert(s % 60 == s);
    assert(3600 * h + 60 * mi + s == 60 * (60 * h + mi) + s);
}

/// Round trip through construction: feeding valid calendar components into
/// a fresh adjuster bound to any timezone, against any base date, yields
/// the one instant whose views through that timezone are exactly those
/// components.
pub proof fn lemma_components_round_trip(
    base: int,
    off: int,
    y: int,
    m: int,
    d: int,
    h: int,
    mi: int,
    s: int,
    msec: int,
)
    requires
        instant_in_range(base),
        -1440 <= off <= 1440,
        valid_civil(y, m, d),
        -262141 <= y <= 262141,
        0 <= h < 24,
        0 <= mi < 60,
        0 <= s < 60,
        0 <= msec < 1000,
    ensures
        ({
            let a = pending_of(
                YearType::Full,
                Some(Some(Coerced::Finite(y as i64))),
                Some(Some(Coerced::Finite(m as i64))),
                Some(Some(Coerced::Finite(d as i64))),
                Some(Some(Coerced::Finite(h as i64))),
                Some(Some(Coerced::Finite(mi as i64))),
                Some(Some(Coerced::Finite(s as i64))),
                Some(Some(Coerced::Finite(msec as i64))),
            );
            spec_apply(a, Option::Some(base as i64), off) matches Some(v) && instant_in_range(v)
                && year_of(v, off) == y && month0_of(v, off) == m && day_of_month(v, off) == d
                && hour_of(v, off) == h && minute_of(v, off) == mi && second_of(v, off) == s
                && milli_of(v, off) == msec && v == day_number(y, m, d) * 86400000 + h * 3600000
                + mi * 60000 + s * 1000 + msec - off * 60000
        }),
{
    lemma_fundamental_div_mod_converse(m, 12, 0, m);
    let n = day_number(y, m, d);
    lemma_day_number_bounds(y, m, d);
    lemma_clock_fields(h, mi, s, msec);
    let rem = h * 3600000 + mi * 60000 + s * 1000 + msec;
    assert(day_number(y, m, 1) + d - 1 == n);
    lemma_assembled_views(rem, off, y, m, d);
}

/// The day number of an in-range civil date in the calendar years the
/// adjuster accepts stays well inside the conversion domain, and the
/// rebased instant stays representable away from the edges.
proof fn lemma_day_number_bounds(y: int, m: int, d: int)
    requires
        valid_civil(y, m, d),
        -262141 <= y <= 262141,
    ensures
        -96_500_000 <= day_number(y, m, d) <= 95_100_000,
        day_number(y, m, d) * 86400000 + 172_800_000 <= crate::civil::MS_MAX,
        crate::civil::MS_MIN <= day_number(y, m, d) * 86400000 - 86_400_000,
{
    lemma_days_before_year_closed(y);
    lemma_days_before_year_closed(262142);
    lemma_days_before_year_closed(-262142);
    if y < 262141 {
        lemma_days_before_year_mono(y, 262141);
        lemma_days_before_year_closed(262141);
    }
    if -262141 < y {
        lemma_days_before_year_mono(-262141, y);
        lemma_days_before_year_closed(-262141);
    }
}

} // verus!
