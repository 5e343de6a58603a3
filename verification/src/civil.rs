//! Civil (wall-clock) views of an instant: an epoch-millisecond instant seen
//! through a fixed-offset timezone as year, month, day and time-of-day
//! fields.

use vstd::prelude::*;
use vstd::arithmetic::div_mod::{
    lemma_fundamental_div_mod, lemma_fundamental_div_mod_converse, lemma_mod_multiples_vanish,
};
use crate::calendar::{
    civil_from_day_number, civil_of_day, floor_div, floor_mod, weekday_of_day, weekday_of_day_x,
};

verus! {

/// Earliest instant the date engine can store, in epoch milliseconds
/// (00:00:00 on January 1 of year -262143).
pub const MS_MIN: i64 = -8_334_601_228_800_000;

/// Latest instant the date engine can store, in epoch milliseconds
/// (23:59:59.999 on December 31 of year 262142).
pub const MS_MAX: i64 = 8_210_266_876_799_999;

pub const MS_PER_DAY: i64 = 86_400_000;

pub const MS_PER_HOUR: i64 = 3_600_000;

pub const MS_PER_MINUTE: i64 = 60_000;

pub const MS_PER_SECOND: i64 = 1_000;

/// A fixed-offset timezone, minutes east of UTC.
#[derive(Clone, Copy, PartialEq, Eq, Structural, Debug)]
pub struct Timezone {
    pub east_minutes: i64,
}

impl Timezone {
    /// Offsets stay within one day of UTC.
    pub open spec fn wf(self) -> bool {
        -1440 <= self.east_minutes <= 1440
    }

    pub fn utc() -> (r: Timezone)
        ensures
            r.east_minutes == 0,
            r.wf(),
    {
        Timezone { east_minutes: 0 }
    }

    pub fn new(east_minutes: i64) -> (r: Timezone)
        requires
            -1440 <= east_minutes <= 1440,
        ensures
            r.east_minutes == east_minutes,
            r.wf(),
    {
        Timezone { east_minutes }
    }
}

/// One civil view of an instant: calendar date, time of day, weekday and the
/// offset it was taken through.
#[derive(Clone, Copy, PartialEq, Eq, Structural, Debug)]
pub struct CivilFields {
    pub year: i64,
    /// 0-based month, 0 = January.
    pub month0: i64,
    /// 1-based day of month.
    pub day: i64,
    pub hour: i64,
    pub minute: i64,
    pub second: i64,
    pub millisecond: i64,
    /// Days from Sunday, 0 = Sunday.
    pub weekday: i64,
    /// Minutes east of UTC of the viewing timezone.
    pub offset_minutes: i64,
}

/// The instant shifted into the timezone's local milliseconds.
pub open spec fn local_ms(ms: int, off: int) -> int {
    ms + off * 60000
}

/// The local day number of the instant.
pub open spec fn epoch_day(ms: int, off: int) -> int {
    local_ms(ms, off) / 86400000
}

/// Milliseconds since local midnight.
pub open spec fn rem_ms(ms: int, off: int) -> int {
    local_ms(ms, off) % 86400000
}

pub open spec fn year_of(ms: int, off: int) -> int {
    civil_of_day(epoch_day(ms, off)).0
}

pub open spec fn month0_of(ms: int, off: int) -> int {
    civil_of_day(epoch_day(ms, off)).1
}

pub open spec fn day_of_month(ms: int, off: int) -> int {
    civil_of_day(epoch_day(ms, off)).2
}

pub open spec fn hour_of(ms: int, off: int) -> int {
    rem_ms(ms, off) / 3600000
}

pub open spec fn minute_of(ms: int, off: int) -> int {
    (rem_ms(ms, off) / 60000) % 60
}

pub open spec fn second_of(ms: int, off: int) -> int {
    (rem_ms(ms, off) / 1000) % 60
}

pub open spec fn milli_of(ms: int, off: int) -> int {
    rem_ms(ms, off) % 1000
}

pub open spec fn weekday_of(ms: int, off: int) -> int {
    weekday_of_day(epoch_day(ms, off))
}

/// An instant the date engine can store.
pub open spec fn instant_in_range(ms: int) -> bool {
    MS_MIN <= ms <= MS_MAX
}

/// Time-of-day fields rebuild the milliseconds since midnight exactly.
pub proof fn lemma_rem_decompose(rem: int)
    requires
        0 <= rem < 86400000,
    ensures
        rem == (rem / 3600000) * 3600000 + ((rem / 60000) % 60) * 60000 + ((rem / 1000) % 60)
            * 1000 + rem % 1000,
        0 <= rem / 3600000 < 24,
        0 <= (rem / 60000) % 60 < 60,
        0 <= (rem / 1000) % 60 < 60,
        0 <= rem % 1000 < 1000,
{
    let h = rem / 3600000;
    let r1 = rem % 3600000;
    lemma_fundamental_div_mod(rem, 3600000);
    let q2 = r1 / 60000;
    let r2 = r1 % 60000;
    lemma_fundamental_div_mod(r1, 60000);
    let s = r2 / 1000;
    let r3 = r2 % 1000;
    lemma_fundamental_div_mod(r2, 1000);
    assert(rem == 60000 * (60 * h + q2) + r2) by (nonlinear_arith)
        requires
            rem == 3600000 * h + r1,
            r1 == 60000 * q2 + r2,
    ;
    lemma_fundamental_div_mod_converse(rem, 60000, 60 * h + q2, r2);
    lemma_mod_multiples_vanish(h, q2, 60);
    assert(q2 % 60 == q2);
    assert(rem == 1000 * (60 * (60 * h + q2) + s) + r3) by (nonlinear_arith)
        requires
            rem == 3600000 * h + r1,
            r1 == 60000 * q2 + r2,
            r2 == 1000 * s + r3,
    ;
    lemma_fundamental_div_mod_converse(rem, 1000, 60 * (60 * h + q2) + s, r3);
    lemma_mod_multiples_vanish(60 * h + q2, s, 60);
    assert(s % 60 == s);
}

/// The local milliseconds rebuild from the civil fields exactly.
pub proof fn lemma_local_decompose(ms: int, off: int)
    ensures
        local_ms(ms, off) == epoch_day(ms, off) * 86400000 + hour_of(ms, off) * 3600000
            + minute_of(ms, off) * 60000 + second_of(ms, off) * 1000 + milli_of(ms, off),
        0 <= rem_ms(ms, off) < 86400000,
{
    let t = local_ms(ms, off);
    lemma_fundamental_div_mod(t, 86400000);
    lemma_rem_decompose(t % 86400000);
}

/// The field bounds every civil view delivers.
pub open spec fn civil_in_bounds(c: CivilFields) -> bool {
    &&& -600_000 <= c.year <= 600_000
    &&& 0 <= c.month0 < 12
    &&& 1 <= c.day <= 31
    &&& 0 <= c.hour < 24
    &&& 0 <= c.minute < 60
    &&& 0 <= c.second < 60
    &&& 0 <= c.millisecond < 1000
    &&& 0 <= c.weekday < 7
    &&& -1440 <= c.offset_minutes <= 1440
}

/// The civil fields of instant `ms` through an offset of `off` minutes, as
/// one record.
pub open spec fn civil_view_spec(ms: int, off: int) -> CivilFields {
    CivilFields {
        year: year_of(ms, off) as i64,
        month0: month0_of(ms, off) as i64,
        day: day_of_month(ms, off) as i64,
        hour: hour_of(ms, off) as i64,
        minute: minute_of(ms, off) as i64,
        second: second_of(ms, off) as i64,
        millisecond: milli_of(ms, off) as i64,
        weekday: weekday_of(ms, off) as i64,
        offset_minutes: off as i64,
    }
}

/// The spec-level projections of an in-range instant form an in-range civil
/// date on the instant's local day, with time fields in their clock ranges.
pub proof fn lemma_civil_projections(ms: int, off: int)
    requires
        instant_in_range(ms),
        -1440 <= off <= 1440,
    ensures
        crate::calendar::valid_civil(year_of(ms, off), month0_of(ms, off), day_of_month(ms, off)),
        crate::calendar::day_number(
            year_of(ms, off),
            month0_of(ms, off),
            day_of_month(ms, off),
        ) == epoch_day(ms, off),
        -600_000 <= year_of(ms, off) <= 600_000,
        0 <= month0_of(ms, off) < 12,
        1 <= day_of_month(ms, off) <= 31,
        0 <= hour_of(ms, off) < 24,
        0 <= minute_of(ms, off) < 60,
        0 <= second_of(ms, off) < 60,
        0 <= milli_of(ms, off) < 1000,
        -100_000_000 <= epoch_day(ms, off) <= 100_000_000,
{
    let t = local_ms(ms, off);
    let n = epoch_day(ms, off);
    lemma_fundamental_div_mod(t, 86400000);
    vstd::arithmetic::div_mod::lemma_mod_division_less_than_divisor(t, 86400000);
    lemma_rem_decompose(t % 86400000);
    crate::calendar::lemma_civil_of_day_works(n);
    let (y, m, d) = civil_of_day(n);
    assert(crate::calendar::days_before_month(crate::calendar::is_leap_year(y), m) + d - 1
        < crate::calendar::days_in_year(y));
    if y > 600000 {
        crate::calendar::lemma_days_before_year_mono(600000, y);
        crate::calendar::lemma_days_before_year_closed(600000);
        assert(false);
    }
    if y + 600000 < 0 {
        crate::calendar::lemma_days_before_year_mono(y, -600000);
        crate::calendar::lemma_days_before_year_closed(-600000);
        assert(false);
    }
}

/// The civil view of instant `ms` through an offset of `off` minutes.
pub fn civil_view_of(ms: i64, off: i64) -> (c: CivilFields)
    requires
        instant_in_range(ms as int),
        -1440 <= off <= 1440,
    ensures
        c.year as int == year_of(ms as int, off as int),
        c.month0 as int == month0_of(ms as int, off as int),
        c.day as int == day_of_month(ms as int, off as int),
        c.hour as int == hour_of(ms as int, off as int),
        c.minute as int == minute_of(ms as int, off as int),
        c.second as int == second_of(ms as int, off as int),
        c.millisecond as int == milli_of(ms as int, off as int),
        c.weekday as int == weekday_of(ms as int, off as int),
        c.offset_minutes == off,
        c == civil_view_spec(ms as int, off as int),
        civil_in_bounds(c),
        crate::calendar::valid_civil(
            year_of(ms as int, off as int),
            month0_of(ms as int, off as int),
            day_of_month(ms as int, off as int),
        ),
        crate::calendar::day_number(
            year_of(ms as int, off as int),
            month0_of(ms as int, off as int),
            day_of_month(ms as int, off as int),
        ) == epoch_day(ms as int, off as int),
        -600_000 <= year_of(ms as int, off as int) <= 600_000,
        0 <= month0_of(ms as int, off as int) < 12,
        1 <= day_of_month(ms as int, off as int) <= 31,
        -600_000 <= c.year <= 600_000,
        0 <= c.month0 < 12,
        1 <= c.day <= 31,
        0 <= c.hour < 24,
        0 <= c.minute < 60,
        0 <= c.second < 60,
        0 <= c.millisecond < 1000,
        0 <= c.weekday < 7,
{
    let t: i64 = ms + off * 60_000;
    let days: i64 = floor_div(t, MS_PER_DAY);
    let rem: i64 = floor_mod(t, MS_PER_DAY);
    proof {
        lemma_rem_decompose(rem as int);
    }
    let hour: i64 = floor_div(rem, MS_PER_HOUR);
    let minute: i64 = floor_mod(floor_div(rem, MS_PER_MINUTE), 60);
    let second: i64 = floor_mod(floor_div(rem, MS_PER_SECOND), 60);
    let millisecond: i64 = floor_mod(rem, 1000);
    let (year, month0, day) = civil_from_day_number(days);
    let weekday: i64 = weekday_of_day_x(days);
    CivilFields {
        year,
        month0,
        day,
        hour,
        minute,
        second,
        millisecond,
        weekday,
        offset_minutes: off,
    }
}

} // verus!
