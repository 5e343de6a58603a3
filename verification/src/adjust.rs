//! The component adjuster: a single-use builder that accumulates a partial
//! set of field updates against one timezone view and computes the new
//! instant.
//!
//! Feeding the fields in canonical order (year, month, day, hour, minute,
//! second, millisecond) honours the cascade rule: the first "argument not
//! supplied" feed latches `ignore_next`, and every later feed in the same
//! adjustment is forced to *unspecified* no matter what value it carries.

use vstd::prelude::*;
use crate::calendar::{
    day_number, days_before_month_x, days_before_year_x, floor_div, floor_mod, is_leap_year_x,
};
use crate::civil::{civil_in_bounds, instant_in_range, CivilFields, Timezone, MS_MAX, MS_MIN};
use crate::date::Date;

verus! {

/// A host number after coercion: either a finite value truncated toward
/// zero (and saturated) to an integer, or a non-finite result.
#[derive(Clone, Copy, PartialEq, Eq, Structural, Debug)]
pub enum Coerced {
    Finite(i64),
    NonFinite,
}

/// One pending field update: keep the current value, apply a finite value,
/// or poison the whole computation.
#[derive(Clone, Copy, PartialEq, Eq, Structural, Debug)]
pub enum Slot {
    Unspecified,
    Finite(i64),
    NonFinite,
}

/// How a supplied year value is interpreted.
#[derive(Clone, Copy, PartialEq, Eq, Structural, Debug)]
pub enum YearType {
    /// The year is taken as given.
    Full,
    /// Years in 0..=99 are moved into 1900..=1999 (the legacy two-digit-year
    /// convention of the instance constructor); every other year, negative
    /// ones included, is taken as given.
    TwoDigit,
}

/// What a supplied year value stands for under `t`.
pub open spec fn spec_year_adjusted(t: YearType, year: int) -> int {
    if t is TwoDigit && 0 <= year <= 99 {
        year + 1900
    } else {
        year
    }
}

impl YearType {
    pub fn adjust(&self, year: i64) -> (r: i64)
        ensures
            r as int == spec_year_adjusted(*self, year as int),
    {
        match *self {
            YearType::Full => year,
            YearType::TwoDigit => {
                if 0 <= year && year <= 99 {
                    year + 1900
                } else {
                    year
                }
            },
        }
    }
}

/// The slot a present argument contributes.
pub open spec fn slot_of_coerced(c: Coerced) -> Slot {
    match c {
        Coerced::Finite(v) => Slot::Finite(v),
        Coerced::NonFinite => Slot::NonFinite,
    }
}

/// The slot after one feed: untouched once the cascade has latched, reset to
/// unspecified by a missing argument, set by a present one.
pub open spec fn feed_slot(s: Slot, ignore: bool, value: Option<Coerced>) -> Slot {
    if ignore {
        s
    } else {
        match value {
            Option::Some(c) => slot_of_coerced(c),
            Option::None => Slot::Unspecified,
        }
    }
}

/// The cascade latch after one feed: set by the first missing argument and
/// never cleared.
pub open spec fn feed_ignore(ignore: bool, value: Option<Coerced>) -> bool {
    ignore || value is None
}

/// The value a slot resolves to against the current field value, once
/// non-finite slots have been ruled out.
pub open spec fn slot_value(s: Slot, current: int) -> int {
    match s {
        Slot::Finite(v) => v as int,
        _ => current,
    }
}

/// The working set of one adjustment: seven tri-state slots plus the
/// cascade latch.
#[derive(Clone, Copy, PartialEq, Eq, Structural, Debug)]
pub struct DateAdjustment {
    pub year_type: YearType,
    pub year: Slot,
    pub month: Slot,
    pub day: Slot,
    pub hour: Slot,
    pub minute: Slot,
    pub second: Slot,
    pub millisecond: Slot,
    pub ignore_next: bool,
}

impl DateAdjustment {
    pub fn new() -> (r: DateAdjustment)
        ensures
            r == (DateAdjustment {
                year_type: YearType::Full,
                year: Slot::Unspecified,
                month: Slot::Unspecified,
                day: Slot::Unspecified,
                hour: Slot::Unspecified,
                minute: Slot::Unspecified,
                second: Slot::Unspecified,
                millisecond: Slot::Unspecified,
                ignore_next: false,
            }),
    {
        DateAdjustment {
            year_type: YearType::Full,
            year: Slot::Unspecified,
            month: Slot::Unspecified,
            day: Slot::Unspecified,
            hour: Slot::Unspecified,
            minute: Slot::Unspecified,
            second: Slot::Unspecified,
            millisecond: Slot::Unspecified,
            ignore_next: false,
        }
    }

    /// Interpret a supplied year through the two-digit-year convention.
    pub fn adjust_year(&mut self)
        ensures
            *final(self) == (DateAdjustment { year_type: YearType::TwoDigit, ..*old(self) }),
    {
        self.year_type = YearType::TwoDigit;
    }

    pub fn year(&mut self, value: Option<Coerced>)
        ensures
            *final(self) == (DateAdjustment {
                year: feed_slot(old(self).year, old(self).ignore_next, value),
                ignore_next: feed_ignore(old(self).ignore_next, value),
                ..*old(self)
            }),
    {
        if !self.ignore_next {
            match value {
                Some(c) => {
                    self.year = coerced_slot(c);
                },
                None => {
                    self.year = Slot::Unspecified;
                    self.ignore_next = true;
                },
            }
        }
    }

    pub fn month(&mut self, value: Option<Coerced>)
        ensures
            *final(self) == (DateAdjustment {
                month: feed_slot(old(self).month, old(self).ignore_next, value),
                ignore_next: feed_ignore(old(self).ignore_next, value),
                ..*old(self)
            }),
    {
        if !self.ignore_next {
            match value {
                Some(c) => {
                    self.month = coerced_slot(c);
                },
                None => {
                    self.month = Slot::Unspecified;
                    self.ignore_next = true;
                },
            }
        }
    }

    pub fn day(&mut self, value: Option<Coerced>)
        ensures
            *final(self) == (DateAdjustment {
                day: feed_slot(old(self).day, old(self).ignore_next, value),
                ignore_next: feed_ignore(old(self).ignore_next, value),
                ..*old(self)
            }),
    {
        if !self.ignore_next {
            match value {
                Some(c) => {
                    self.day = coerced_slot(c);
                },
                None => {
                    self.day = Slot::Unspecified;
                    self.ignore_next = true;
                },
            }
        }
    }

    pub fn hour(&mut self, value: Option<Coerced>)
        ensures
            *final(self) == (DateAdjustment {
                hour: feed_slot(old(self).hour, old(self).ignore_next, value),
                ignore_next: feed_ignore(old(self).ignore_next, value),
                ..*old(self)
            }),
    {
        if !self.ignore_next {
            match value {
                Some(c) => {
                    self.hour = coerced_slot(c);
                },
                None => {
                    self.hour = Slot::Unspecified;
                    self.ignore_next = true;
                },
            }
        }
    }

    pub fn minute(&mut self, value: Option<Coerced>)
        ensures
            *final(self) == (DateAdjustment {
                minute: feed_slot(old(self).minute, old(self).ignore_next, value),
                ignore_next: feed_ignore(old(self).ignore_next, value),
                ..*old(self)
            }),
    {
        if !self.ignore_next {
            match value {
                Some(c) => {
                    self.minute = coerced_slot(c);
                },
                None => {
                    self.minute = Slot::Unspecified;
                    self.ignore_next = true;
                },
            }
        }
    }

    pub fn second(&mut self, value: Option<Coerced>)
        ensures
            *final(self) == (DateAdjustment {
                second: feed_slot(old(self).second, old(self).ignore_next, value),
                ignore_next: feed_ignore(old(self).ignore_next, value),
                ..*old(self)
            }),
    {
        if !self.ignore_next {
            match value {
                Some(c) => {
                    self.second = coerced_slot(c);
                },
                None => {
                    self.second = Slot::Unspecified;
                    self.ignore_next = true;
                },
            }
        }
    }

    pub fn millisecond(&mut self, value: Option<Coerced>)
        ensures
            *final(self) == (DateAdjustment {
                millisecond: feed_slot(old(self).millisecond, old(self).ignore_next, value),
                ignore_next: feed_ignore(old(self).ignore_next, value),
                ..*old(self)
            }),
    {
        if !self.ignore_next {
            match value {
                Some(c) => {
                    self.millisecond = coerced_slot(c);
                },
                None => {
                    self.millisecond = Slot::Unspecified;
                    self.ignore_next = true;
                },
            }
        }
    }

    /// The candidate instant for this adjustment against the civil view
    /// `current`, or `None` when the computation collapses to an invalid
    /// date.
    #[verifier::rlimit(100)]
    #[verifier::spinoff_prover]
    pub fn calculate(&self, current: &CivilFields) -> (r: Option<i64>)
        requires
            civil_in_bounds(*current),
        ensures
            (r is Some) <==> (spec_calculate(*self, *current) is Some),
            r matches Some(v) ==> spec_calculate(*self, *current) == Some(v as int),
            r matches Some(v) ==> instant_in_range(v as int),
    {
        let month_raw: i64 = match self.month {
            Slot::Finite(v) => v,
            _ => 0,
        };
        let month_over: i64 = floor_div(month_raw, 12);
        let month_norm: i64 = floor_mod(month_raw, 12);
        proof {
            vstd::arithmetic::div_mod::lemma_mod_division_less_than_divisor(month_raw as int, 12);
        }
        if slot_is_non_finite(self.month) || slot_is_non_finite(self.year) || slot_is_non_finite(
            self.day,
        ) || slot_is_non_finite(self.hour) || slot_is_non_finite(self.minute)
            || slot_is_non_finite(self.second) || slot_is_non_finite(self.millisecond) {
            return None;
        }
        let m: i64 = match self.month {
            Slot::Finite(_) => month_norm,
            _ => current.month0,
        };
        let base_y: i64 = match self.year {
            Slot::Finite(v) => self.year_type.adjust(v),
            _ => current.year,
        };
        let y128: i128 = base_y as i128 + month_over as i128;
        if y128 < -262_143 || y128 > 262_142 {
            return None;
        }
        let y: i64 = y128 as i64;
        let leap: bool = is_leap_year_x(y);
        proof {
            crate::calendar::lemma_days_before_year_closed(y as int);
        }
        let base_day: i64 = days_before_year_x(y) + days_before_month_x(leap, m);
        let d: i64 = match self.day {
            Slot::Finite(v) => v,
            _ => current.day,
        };
        let h: i64 = match self.hour {
            Slot::Finite(v) => v,
            _ => current.hour,
        };
        let mi: i64 = match self.minute {
            Slot::Finite(v) => v,
            _ => current.minute,
        };
        let s: i64 = match self.second {
            Slot::Finite(v) => v,
            _ => current.second,
        };
        let msv: i64 = match self.millisecond {
            Slot::Finite(v) => v,
            _ => current.millisecond,
        };
        let cand: i128 = (base_day as i128) * 86_400_000 - (current.offset_minutes as i128)
            * 60_000 + ((d as i128) - 1) * 86_400_000 + (h as i128) * 3_600_000 + (mi as i128)
            * 60_000 + (s as i128) * 1_000 + (msv as i128);
        if cand < (MS_MIN as i128) || cand > (MS_MAX as i128) {
            None
        } else {
            Some(cand as i64)
        }
    }

    /// Read the owning date through the timezone, run the computation, and
    /// commit the result (or the invalid state). Returns what the setter
    /// reports: the new instant, or `None` for not-a-number.
    pub fn apply(&self, date: &mut Date, tz: Timezone) -> (r: Option<i64>)
        requires
            old(date).wf(),
            tz.wf(),
        ensures
            final(date).wf(),
            final(date).instant == r,
            (r is Some) <==> (spec_apply(*self, old(date).instant, tz.east_minutes as int)
                is Some),
            r matches Some(v) ==> spec_apply(*self, old(date).instant, tz.east_minutes as int)
                == Some(v as int),
    {
        let r: Option<i64> = match date.get_instant() {
            Some(ms) => {
                let c = crate::civil::civil_view_of(ms, tz.east_minutes);
                self.calculate(&c)
            },
            None => None,
        };
        date.set_instant(r);
        r
    }
}

/// Exec mirror of `slot_of_coerced`.
fn coerced_slot(c: Coerced) -> (r: Slot)
    ensures
        r == slot_of_coerced(c),
{
    match c {
        Coerced::Finite(v) => Slot::Finite(v),
        Coerced::NonFinite => Slot::NonFinite,
    }
}

fn slot_is_non_finite(s: Slot) -> (r: bool)
    ensures
        r == (s is NonFinite),
{
    match s {
        Slot::NonFinite => true,
        _ => false,
    }
}

/// The candidate instant of an adjustment, in exact integer arithmetic,
/// following the compute steps: normalize the month with Euclidean division,
/// carry its overflow into the year, fail on any non-finite slot or a year
/// no calendar construction accepts, then add the remaining fields as one
/// flat duration onto the first of the resolved month and keep the result
/// only if it is a representable instant.
pub open spec fn spec_calculate(a: DateAdjustment, cur: CivilFields) -> Option<int> {
    let month_raw: int = match a.month {
        Slot::Finite(v) => v as int,
        _ => 0,
    };
    let month_over: int = month_raw / 12;
    let month_norm: int = month_raw % 12;
    if a.month is NonFinite || a.year is NonFinite || a.day is NonFinite || a.hour is NonFinite
        || a.minute is NonFinite || a.second is NonFinite || a.millisecond is NonFinite {
        None
    } else {
        let m: int = if a.month is Finite {
            month_norm
        } else {
            cur.month0 as int
        };
        let base_y: int = match a.year {
            Slot::Finite(v) => spec_year_adjusted(a.year_type, v as int),
            _ => cur.year as int,
        };
        let y: int = base_y + month_over;
        if y < -262143 || y > 262142 {
            None
        } else {
            let cand: int = day_number(y, m, 1) * 86400000 - cur.offset_minutes as int * 60000 + (
            slot_value(a.day, cur.day as int) - 1) * 86400000 + slot_value(
                a.hour,
                cur.hour as int,
            ) * 3600000 + slot_value(a.minute, cur.minute as int) * 60000 + slot_value(
                a.second,
                cur.second as int,
            ) * 1000 + slot_value(a.millisecond, cur.millisecond as int);
            if MS_MIN as int <= cand <= MS_MAX as int {
                Some(cand)
            } else {
                None
            }
        }
    }
}

/// One optional feed folded into a slot and the cascade latch: `None` when
/// the entry point does not touch the field, `Some(v)` when it feeds `v`
/// (itself `None` for an argument position not supplied at the call site).
pub open spec fn pending_step(s: Slot, ignore: bool, feed: Option<Option<Coerced>>) -> (
    Slot,
    bool,
) {
    match feed {
        Option::None => (s, ignore),
        Option::Some(v) => (feed_slot(s, ignore, v), feed_ignore(ignore, v)),
    }
}

/// The adjuster state after feeding a fresh builder the given fields in
/// canonical order.
pub open spec fn pending_of(
    yt: YearType,
    year: Option<Option<Coerced>>,
    month: Option<Option<Coerced>>,
    day: Option<Option<Coerced>>,
    hour: Option<Option<Coerced>>,
    minute: Option<Option<Coerced>>,
    second: Option<Option<Coerced>>,
    millisecond: Option<Option<Coerced>>,
) -> DateAdjustment {
    let ig0 = false;
    let (sy, ig1) = pending_step(Slot::Unspecified, ig0, year);
    let (smo, ig2) = pending_step(Slot::Unspecified, ig1, month);
    let (sd, ig3) = pending_step(Slot::Unspecified, ig2, day);
    let (sh, ig4) = pending_step(Slot::Unspecified, ig3, hour);
    let (smi, ig5) = pending_step(Slot::Unspecified, ig4, minute);
    let (ss, ig6) = pending_step(Slot::Unspecified, ig5, second);
    let (sms, ig7) = pending_step(Slot::Unspecified, ig6, millisecond);
    DateAdjustment {
        year_type: yt,
        year: sy,
        month: smo,
        day: sd,
        hour: sh,
        minute: smi,
        second: ss,
        millisecond: sms,
        ignore_next: ig7,
    }
}

/// What an adjustment makes of a date's stored instant: an invalid date
/// stays invalid; a valid one runs the compute step against its civil view.
pub open spec fn spec_apply(a: DateAdjustment, instant: Option<i64>, off: int) -> Option<int> {
    match instant {
        Option::Some(ms) => spec_calculate_at(a, ms as int, off),
        Option::None => None,
    }
}

/// `spec_calculate` against the civil view of instant `ms` through offset
/// `off`.
pub open spec fn spec_calculate_at(a: DateAdjustment, ms: int, off: int) -> Option<int> {
    spec_calculate(a, crate::civil::civil_view_spec(ms, off))
}

} // verus!
