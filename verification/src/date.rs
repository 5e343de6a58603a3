//! The date value and its entry points: an optional epoch-millisecond
//! instant with component getters and setters in a local-timezone view and a
//! UTC view.

use vstd::prelude::*;
use crate::adjust::{
    pending_of, spec_apply, spec_calculate_at, Coerced, DateAdjustment, YearType,
};
use crate::calendar::day_number;
use crate::civil::{
    civil_view_of, civil_view_spec, day_of_month, hour_of, instant_in_range, milli_of, minute_of,
    month0_of, second_of, weekday_of, year_of, CivilFields, Timezone, MS_MAX, MS_MIN,
};

verus! {

/// A mutable, possibly-invalid wall-clock instant. `None` is the permanent
/// "Invalid Date" state; every getter on it yields the not-a-number sentinel
/// at the host boundary.
#[derive(Clone, Copy, Debug)]
pub struct Date {
    pub instant: Option<i64>,
}

/// One positional constructor argument as the host hands it over: the
/// distinguished "undefined" value, or a number after coercion.
#[derive(Clone, Copy, PartialEq, Eq, Structural, Debug)]
pub enum DateArg {
    Undefined,
    Number(Coerced),
}

/// What a present argument coerces to: "undefined" coerces to not-a-number.
pub open spec fn coerce_arg(a: DateArg) -> Coerced {
    match a {
        DateArg::Undefined => Coerced::NonFinite,
        DateArg::Number(c) => c,
    }
}

/// The feed for argument position `i`: the coerced value when the position
/// was supplied, the "not supplied" signal otherwise.
pub open spec fn arg_value(args: Seq<DateArg>, i: int) -> Option<Coerced> {
    if 0 <= i < args.len() {
        Option::Some(coerce_arg(args[i]))
    } else {
        Option::None
    }
}

/// The synthetic base instant of the component constructors: 00:00:00 on
/// January 1 of year 0 in a timezone `off` minutes east of UTC.
pub open spec fn base_instant_ms(off: int) -> int {
    day_number(0, 0, 1) * 86400000 - off * 60000
}

/// The adjuster the multi-argument instance constructor builds: all seven
/// fields fed positionally, years in 0..=99 moved into 1900..=1999.
pub open spec fn pending_init(args: Seq<DateArg>) -> DateAdjustment {
    pending_of(
        YearType::TwoDigit,
        Option::Some(arg_value(args, 0)),
        Option::Some(arg_value(args, 1)),
        Option::Some(arg_value(args, 2)),
        Option::Some(arg_value(args, 3)),
        Option::Some(arg_value(args, 4)),
        Option::Some(arg_value(args, 5)),
        Option::Some(arg_value(args, 6)),
    )
}

/// The adjuster the static `UTC` factory builds: as `pending_init`, but the
/// year is taken as given.
pub open spec fn pending_utc(args: Seq<DateArg>) -> DateAdjustment {
    pending_of(
        YearType::Full,
        Option::Some(arg_value(args, 0)),
        Option::Some(arg_value(args, 1)),
        Option::Some(arg_value(args, 2)),
        Option::Some(arg_value(args, 3)),
        Option::Some(arg_value(args, 4)),
        Option::Some(arg_value(args, 5)),
        Option::Some(arg_value(args, 6)),
    )
}

/// The instant the instance constructor stores: no argument (or a leading
/// "undefined") takes the current time, one argument is epoch milliseconds,
/// two or more are calendar components evaluated against the synthetic base
/// instant in the local timezone.
pub open spec fn spec_instance_init(args: Seq<DateArg>, now: int, off: int) -> Option<int> {
    if args.len() == 0 || args[0] is Undefined {
        Option::Some(now)
    } else if args.len() == 1 {
        match coerce_arg(args[0]) {
            Coerced::Finite(t) => if instant_in_range(t as int) {
                Option::Some(t as int)
            } else {
                Option::None
            },
            Coerced::NonFinite => Option::None,
        }
    } else {
        spec_calculate_at(pending_init(args), base_instant_ms(off), off)
    }
}

/// The epoch milliseconds the static `UTC` factory reports.
pub open spec fn spec_utc(args: Seq<DateArg>) -> Option<int> {
    spec_calculate_at(pending_utc(args), base_instant_ms(0), 0)
}

impl Date {
    /// A stored instant stays within the representable range.
    pub open spec fn wf(self) -> bool {
        match self.instant {
            Option::Some(ms) => instant_in_range(ms as int),
            Option::None => true,
        }
    }

    /// The "Invalid Date" value.
    pub fn invalid() -> (r: Date)
        ensures
            r.instant is None,
            r.wf(),
    {
        Date { instant: None }
    }

    pub fn from_instant(ms: i64) -> (r: Date)
        requires
            instant_in_range(ms as int),
        ensures
            r.instant == Some(ms),
            r.wf(),
    {
        Date { instant: Some(ms) }
    }

    /// The raw instant; no side effects.
    pub fn get_instant(&self) -> (r: Option<i64>)
        ensures
            r == self.instant,
    {
        self.instant
    }

    /// Total replacement of the instant; the caller guarantees any new
    /// instant is representable.
    pub fn set_instant(&mut self, value: Option<i64>)
        requires
            value matches Some(ms) ==> instant_in_range(ms as int),
        ensures
            final(self).instant == value,
            final(self).wf(),
    {
        self.instant = value;
    }

    /// The civil view of the instant through `tz`, or `None` for an invalid
    /// date.
    pub fn civil_view(&self, tz: Timezone) -> (r: Option<CivilFields>)
        requires
            self.wf(),
            tz.wf(),
        ensures
            (r is Some) <==> (self.instant is Some),
            r matches Some(c) ==> self.instant matches Some(ms) && c == civil_view_spec(
                ms as int,
                tz.east_minutes as int,
            ) && crate::civil::civil_in_bounds(c),
    {
        match self.instant {
            Some(ms) => Some(civil_view_of(ms, tz.east_minutes)),
            None => None,
        }
    }

    /// The `time` getter (`getTime`, `valueOf`): the stored instant.
    pub fn time(&self) -> (r: Option<i64>)
        ensures
            r == self.instant,
    {
        self.instant
    }

    /// The `time` setter (`setTime`): a finite representable value is
    /// stored; anything else invalidates the date.
    pub fn set_time(&mut self, value: Coerced) -> (r: Option<i64>)
        ensures
            final(self).wf(),
            final(self).instant == r,
            r == (match value {
                Coerced::Finite(t) => if instant_in_range(t as int) {
                    Option::Some(t)
                } else {
                    Option::<i64>::None
                },
                Coerced::NonFinite => Option::<i64>::None,
            }),
    {
        let r: Option<i64> = match value {
            Coerced::Finite(t) => {
                if MS_MIN <= t && t <= MS_MAX {
                    Some(t)
                } else {
                    None
                }
            },
            Coerced::NonFinite => None,
        };
        self.set_instant(r);
        r
    }

    /// The `milliseconds` getter.
    pub fn milliseconds(&self, tz: Timezone) -> (r: Option<i64>)
        requires
            self.wf(),
            tz.wf(),
        ensures
            (r is Some) <==> (self.instant is Some),
            r matches Some(v) ==> self.instant matches Some(ms) && v as int == milli_of(
                ms as int,
                tz.east_minutes as int,
            ),
    {
        proof {
            lemma_view_bounds(*self, tz.east_minutes as int);
        }
        match self.civil_view(tz) {
            Some(c) => Some(c.millisecond),
            None => None,
        }
    }

    /// The `seconds` getter.
    pub fn seconds(&self, tz: Timezone) -> (r: Option<i64>)
        requires
            self.wf(),
            tz.wf(),
        ensures
            (r is Some) <==> (self.instant is Some),
            r matches Some(v) ==> self.instant matches Some(ms) && v as int == second_of(
                ms as int,
                tz.east_minutes as int,
            ),
    {
        proof {
            lemma_view_bounds(*self, tz.east_minutes as int);
        }
        match self.civil_view(tz) {
            Some(c) => Some(c.second),
            None => None,
        }
    }

    /// The `minutes` getter.
    pub fn minutes(&self, tz: Timezone) -> (r: Option<i64>)
        requires
            self.wf(),
            tz.wf(),
        ensures
            (r is Some) <==> (self.instant is Some),
            r matches Some(v) ==> self.instant matches Some(ms) && v as int == minute_of(
                ms as int,
                tz.east_minutes as int,
            ),
    {
        proof {
            lemma_view_bounds(*self, tz.east_minutes as int);
        }
        match self.civil_view(tz) {
            Some(c) => Some(c.minute),
            None => None,
        }
    }

    /// The `hours` getter.
    pub fn hours(&self, tz: Timezone) -> (r: Option<i64>)
        requires
            self.wf(),
            tz.wf(),
        ensures
            (r is Some) <==> (self.instant is Some),
            r matches Some(v) ==> self.instant matches Some(ms) && v as int == hour_of(
                ms as int,
                tz.east_minutes as int,
            ),
    {
        proof {
            lemma_view_bounds(*self, tz.east_minutes as int);
        }
        match self.civil_view(tz) {
            Some(c) => Some(c.hour),
            None => None,
        }
    }

    /// The `date` getter: the 1-based day of month.
    pub fn date(&self, tz: Timezone) -> (r: Option<i64>)
        requires
            self.wf(),
            tz.wf(),
        ensures
            (r is Some) <==> (self.instant is Some),
            r matches Some(v) ==> self.instant matches Some(ms) && v as int == day_of_month(
                ms as int,
                tz.east_minutes as int,
            ),
    {
        proof {
            lemma_view_bounds(*self, tz.east_minutes as int);
        }
        match self.civil_view(tz) {
            Some(c) => Some(c.day),
            None => None,
        }
    }

    /// The `month` getter: the 0-based month.
    pub fn month(&self, tz: Timezone) -> (r: Option<i64>)
        requires
            self.wf(),
            tz.wf(),
        ensures
            (r is Some) <==> (self.instant is Some),
            r matches Some(v) ==> self.instant matches Some(ms) && v as int == month0_of(
                ms as int,
                tz.east_minutes as int,
            ),
    {
        proof {
            lemma_view_bounds(*self, tz.east_minutes as int);
        }
        match self.civil_view(tz) {
            Some(c) => Some(c.month0),
            None => None,
        }
    }

    /// The `fullYear` getter.
    pub fn full_year(&self, tz: Timezone) -> (r: Option<i64>)
        requires
            self.wf(),
            tz.wf(),
        ensures
            (r is Some) <==> (self.instant is Some),
            r matches Some(v) ==> self.instant matches Some(ms) && v as int == year_of(
                ms as int,
                tz.east_minutes as int,
            ),
    {
        proof {
            lemma_view_bounds(*self, tz.east_minutes as int);
        }
        match self.civil_view(tz) {
            Some(c) => Some(c.year),
            None => None,
        }
    }

    /// The `day` getter: the weekday, counted from Sunday.
    pub fn day(&self, tz: Timezone) -> (r: Option<i64>)
        requires
            self.wf(),
            tz.wf(),
        ensures
            (r is Some) <==> (self.instant is Some),
            r matches Some(v) ==> self.instant matches Some(ms) && v as int == weekday_of(
                ms as int,
                tz.east_minutes as int,
            ),
    {
        proof {
            lemma_view_bounds(*self, tz.east_minutes as int);
        }
        match self.civil_view(tz) {
            Some(c) => Some(c.weekday),
            None => None,
        }
    }

    /// The `timezoneOffset` getter: UTC minus local, in minutes.
    pub fn timezone_offset(&self, tz: Timezone) -> (r: Option<i64>)
        requires
            self.wf(),
            tz.wf(),
        ensures
            (r is Some) <==> (self.instant is Some),
            r matches Some(v) ==> v as int == -(tz.east_minutes as int),
    {
        match self.instant {
            Some(_) => Some(-tz.east_minutes),
            None => None,
        }
    }

    /// The `millisecondsUTC` getter.
    pub fn milliseconds_utc(&self) -> (r: Option<i64>)
        requires
            self.wf(),
        ensures
            (r is Some) <==> (self.instant is Some),
            r matches Some(v) ==> self.instant matches Some(ms) && v as int == milli_of(
                ms as int,
                0,
            ),
    {
        self.milliseconds(Timezone::utc())
    }

    /// The `secondsUTC` getter.
    pub fn seconds_utc(&self) -> (r: Option<i64>)
        requires
            self.wf(),
        ensures
            (r is Some) <==> (self.instant is Some),
            r matches Some(v) ==> self.instant matches Some(ms) && v as int == second_of(
                ms as int,
                0,
            ),
    {
        self.seconds(Timezone::utc())
    }

    /// The `minutesUTC` getter.
    pub fn minutes_utc(&self) -> (r: Option<i64>)
        requires
            self.wf(),
        ensures
            (r is Some) <==> (self.instant is Some),
            r matches Some(v) ==> self.instant matches Some(ms) && v as int == minute_of(
                ms as int,
                0,
            ),
    {
        self.minutes(Timezone::utc())
    }

    /// The `hoursUTC` getter.
    pub fn hours_utc(&self) -> (r: Option<i64>)
        requires
            self.wf(),
        ensures
            (r is Some) <==> (self.instant is Some),
            r matches Some(v) ==> self.instant matches Some(ms) && v as int == hour_of(ms as int, 0),
    {
        self.hours(Timezone::utc())
    }

    /// The `dateUTC` getter.
    pub fn date_utc(&self) -> (r: Option<i64>)
        requires
            self.wf(),
        ensures
            (r is Some) <==> (self.instant is Some),
            r matches Some(v) ==> self.instant matches Some(ms) && v as int == day_of_month(
                ms as int,
                0,
            ),
    {
        self.date(Timezone::utc())
    }

    /// The `monthUTC` getter.
    pub fn month_utc(&self) -> (r: Option<i64>)
        requires
            self.wf(),
        ensures
            (r is Some) <==> (self.instant is Some),
            r matches Some(v) ==> self.instant matches Some(ms) && v as int == month0_of(
                ms as int,
                0,
            ),
    {
        self.month(Timezone::utc())
    }

    /// The `fullYearUTC` getter.
    pub fn full_year_utc(&self) -> (r: Option<i64>)
        requires
            self.wf(),
        ensures
            (r is Some) <==> (self.instant is Some),
            r matches Some(v) ==> self.instant matches Some(ms) && v as int == year_of(ms as int, 0),
    {
        self.full_year(Timezone::utc())
    }

    /// The `dayUTC` getter.
    pub fn day_utc(&self) -> (r: Option<i64>)
        requires
            self.wf(),
        ensures
            (r is Some) <==> (self.instant is Some),
            r matches Some(v) ==> self.instant matches Some(ms) && v as int == weekday_of(
                ms as int,
                0,
            ),
    {
        self.day(Timezone::utc())
    }

    /// The `milliseconds` setter.
    pub fn set_milliseconds(&mut self, tz: Timezone, millisecond: Option<Coerced>) -> (r: Option<
        i64,
    >)
        requires
            old(self).wf(),
            tz.wf(),
        ensures
            final(self).wf(),
            final(self).instant == r,
            setter_spec(
                pending_of(
                    YearType::Full,
                    None,
                    None,
                    None,
                    None,
                    None,
                    None,
                    Some(millisecond),
                ),
                old(self).instant,
                tz.east_minutes as int,
                r,
            ),
    {
        let mut adj = DateAdjustment::new();
        adj.millisecond(millisecond);
        adj.apply(self, tz)
    }

    /// The `seconds` setter.
    pub fn set_seconds(
        &mut self,
        tz: Timezone,
        second: Option<Coerced>,
        millisecond: Option<Coerced>,
    ) -> (r: Option<i64>)
        requires
            old(self).wf(),
            tz.wf(),
        ensures
            final(self).wf(),
            final(self).instant == r,
            setter_spec(
                pending_of(
                    YearType::Full,
                    None,
                    None,
                    None,
                    None,
                    None,
                    Some(second),
                    Some(millisecond),
                ),
                old(self).instant,
                tz.east_minutes as int,
                r,
            ),
    {
        let mut adj = DateAdjustment::new();
        adj.second(second);
        adj.millisecond(millisecond);
        adj.apply(self, tz)
    }

    /// The `minutes` setter.
    pub fn set_minutes(
        &mut self,
        tz: Timezone,
        minute: Option<Coerced>,
        second: Option<Coerced>,
        millisecond: Option<Coerced>,
    ) -> (r: Option<i64>)
        requires
            old(self).wf(),
            tz.wf(),
        ensures
            final(self).wf(),
            final(self).instant == r,
            setter_spec(
                pending_of(
                    YearType::Full,
                    None,
                    None,
                    None,
                    None,
                    Some(minute),
                    Some(second),
                    Some(millisecond),
                ),
                old(self).instant,
                tz.east_minutes as int,
                r,
            ),
    {
        let mut adj = DateAdjustment::new();
        adj.minute(minute);
        adj.second(second);
        adj.millisecond(millisecond);
        adj.apply(self, tz)
    }

    /// The `hours` setter.
    pub fn set_hours(
        &mut self,
        tz: Timezone,
        hour: Option<Coerced>,
        minute: Option<Coerced>,
        second: Option<Coerced>,
        millisecond: Option<Coerced>,
    ) -> (r: Option<i64>)
        requires
            old(self).wf(),
            tz.wf(),
        ensures
            final(self).wf(),
            final(self).instant == r,
            setter_spec(
                pending_of(
                    YearType::Full,
                    None,
                    None,
                    None,
                    Some(hour),
                    Some(minute),
                    Some(second),
                    Some(millisecond),
                ),
                old(self).instant,
                tz.east_minutes as int,
                r,
            ),
    {
        let mut adj = DateAdjustment::new();
        adj.hour(hour);
        adj.minute(minute);
        adj.second(second);
        adj.millisecond(millisecond);
        adj.apply(self, tz)
    }

    /// The `date` setter.
    pub fn set_date(&mut self, tz: Timezone, day: Option<Coerced>) -> (r: Option<i64>)
        requires
            old(self).wf(),
            tz.wf(),
        ensures
            final(self).wf(),
            final(self).instant == r,
            setter_spec(
                pending_of(YearType::Full, None, None, Some(day), None, None, None, None),
                old(self).instant,
                tz.east_minutes as int,
                r,
            ),
    {
        let mut adj = DateAdjustment::new();
        adj.day(day);
        adj.apply(self, tz)
    }

    /// The `month` setter.
    pub fn set_month(&mut self, tz: Timezone, month: Option<Coerced>, day: Option<Coerced>) -> (r:
        Option<i64>)
        requires
            old(self).wf(),
            tz.wf(),
        ensures
            final(self).wf(),
            final(self).instant == r,
            setter_spec(
                pending_of(YearType::Full, None, Some(month), Some(day), None, None, None, None),
                old(self).instant,
                tz.east_minutes as int,
                r,
            ),
    {
        let mut adj = DateAdjustment::new();
        adj.month(month);
        adj.day(day);
        adj.apply(self, tz)
    }

    /// The `fullYear` setter.
    pub fn set_full_year(
        &mut self,
        tz: Timezone,
        year: Option<Coerced>,
        month: Option<Coerced>,
        day: Option<Coerced>,
    ) -> (r: Option<i64>)
        requires
            old(self).wf(),
            tz.wf(),
        ensures
            final(self).wf(),
            final(self).instant == r,
            setter_spec(
                pending_of(
                    YearType::Full,
                    Some(year),
                    Some(month),
                    Some(day),
                    None,
                    None,
                    None,
                    None,
                ),
                old(self).instant,
                tz.east_minutes as int,
                r,
            ),
    {
        let mut adj = DateAdjustment::new();
        adj.year(year);
        adj.month(month);
        adj.day(day);
        adj.apply(self, tz)
    }

    /// The `millisecondsUTC` setter.
    pub fn set_milliseconds_utc(&mut self, millisecond: Option<Coerced>) -> (r: Option<i64>)
        requires
            old(self).wf(),
        ensures
            final(self).wf(),
            final(self).instant == r,
            setter_spec(
                pending_of(
                    YearType::Full,
                    None,
                    None,
                    None,
                    None,
                    None,
                    None,
                    Some(millisecond),
                ),
                old(self).instant,
                0,
                r,
            ),
    {
        self.set_milliseconds(Timezone::utc(), millisecond)
    }

    /// The `secondsUTC` setter.
    pub fn set_seconds_utc(&mut self, second: Option<Coerced>, millisecond: Option<Coerced>) -> (r:
        Option<i64>)
        requires
            old(self).wf(),
        ensures
            final(self).wf(),
            final(self).instant == r,
            setter_spec(
                pending_of(
                    YearType::Full,
                    None,
                    None,
                    None,
                    None,
                    None,
                    Some(second),
                    Some(millisecond),
                ),
                old(self).instant,
                0,
                r,
            ),
    {
        self.set_seconds(Timezone::utc(), second, millisecond)
    }

    /// The `minutesUTC` setter.
    pub fn set_minutes_utc(
        &mut self,
        minute: Option<Coerced>,
        second: Option<Coerced>,
        millisecond: Option<Coerced>,
    ) -> (r: Option<i64>)
        requires
            old(self).wf(),
        ensures
            final(self).wf(),
            final(self).instant == r,
            setter_spec(
                pending_of(
                    YearType::Full,
                    None,
                    None,
                    None,
                    None,
                    Some(minute),
                    Some(second),
                    Some(millisecond),
                ),
                old(self).instant,
                0,
                r,
            ),
    {
        self.set_minutes(Timezone::utc(), minute, second, millisecond)
    }

    /// The `hoursUTC` setter.
    pub fn set_hours_utc(
        &mut self,
        hour: Option<Coerced>,
        minute: Option<Coerced>,
        second: Option<Coerced>,
        millisecond: Option<Coerced>,
    ) -> (r: Option<i64>)
        requires
            old(self).wf(),
        ensures
            final(self).wf(),
            final(self).instant == r,
            setter_spec(
                pending_of(
                    YearType::Full,
                    None,
                    None,
                    None,
                    Some(hour),
                    Some(minute),
                    Some(second),
                    Some(millisecond),
                ),
                old(self).instant,
                0,
                r,
            ),
    {
        self.set_hours(Timezone::utc(), hour, minute, second, millisecond)
    }

    /// The `dateUTC` setter.
    pub fn set_date_utc(&mut self, day: Option<Coerced>) -> (r: Option<i64>)
        requires
            old(self).wf(),
        ensures
            final(self).wf(),
            final(self).instant == r,
            setter_spec(
                pending_of(YearType::Full, None, None, Some(day), None, None, None, None),
                old(self).instant,
                0,
                r,
            ),
    {
        self.set_date(Timezone::utc(), day)
    }

    /// The `monthUTC` setter.
    pub fn set_month_utc(&mut self, month: Option<Coerced>, day: Option<Coerced>) -> (r: Option<
        i64,
    >)
        requires
            old(self).wf(),
        ensures
            final(self).wf(),
            final(self).instant == r,
            setter_spec(
                pending_of(YearType::Full, None, Some(month), Some(day), None, None, None, None),
                old(self).instant,
                0,
                r,
            ),
    {
        self.set_month(Timezone::utc(), month, day)
    }

    /// The `fullYearUTC` setter.
    pub fn set_full_year_utc(
        &mut self,
        year: Option<Coerced>,
        month: Option<Coerced>,
        day: Option<Coerced>,
    ) -> (r: Option<i64>)
        requires
            old(self).wf(),
        ensures
            final(self).wf(),
            final(self).instant == r,
            setter_spec(
                pending_of(
                    YearType::Full,
                    Some(year),
                    Some(month),
                    Some(day),
                    None,
                    None,
                    None,
                    None,
                ),
                old(self).instant,
                0,
                r,
            ),
    {
        self.set_full_year(Timezone::utc(), year, month, day)
    }
}

/// What a setter commits and reports: the adjusted instant of `instant`
/// under `a`, viewed through `off`.
pub open spec fn setter_spec(
    a: DateAdjustment,
    instant: Option<i64>,
    off: int,
    r: Option<i64>,
) -> bool {
    &&& ((r is Some) <==> (spec_apply(a, instant, off) is Some))
    &&& (r matches Some(v) ==> spec_apply(a, instant, off) == Option::Some(v as int))
}

/// The instance constructor: no argument (or a leading "undefined") takes
/// the current time `now_ms`; one argument is epoch milliseconds; two or
/// more are calendar components in the local timezone, with the two-digit
/// year convention.
pub fn instance_init(tz: Timezone, now_ms: i64, args: &Vec<DateArg>) -> (r: Date)
    requires
        tz.wf(),
        instant_in_range(now_ms as int),
    ensures
        r.wf(),
        (r.instant is Some) <==> (spec_instance_init(args@, now_ms as int, tz.east_minutes as int)
            is Some),
        r.instant matches Some(ms) ==> spec_instance_init(
            args@,
            now_ms as int,
            tz.east_minutes as int,
        ) == Option::Some(ms as int),
{
    if args.len() == 0 {
        return Date::from_instant(now_ms);
    }
    let first_undefined: bool = match args[0] {
        DateArg::Undefined => true,
        _ => false,
    };
    if first_undefined {
        return Date::from_instant(now_ms);
    }
    if args.len() == 1 {
        match coerce_arg_x(&args[0]) {
            Coerced::Finite(t) => {
                if MS_MIN <= t && t <= MS_MAX {
                    Date::from_instant(t)
                } else {
                    Date::invalid()
                }
            },
            Coerced::NonFinite => Date::invalid(),
        }
    } else {
        let base: i64 = base_instant_x(tz.east_minutes);
        let mut d = Date::from_instant(base);
        let mut adj = DateAdjustment::new();
        adj.year(arg_get(args, 0));
        adj.month(arg_get(args, 1));
        adj.day(arg_get(args, 2));
        adj.hour(arg_get(args, 3));
        adj.minute(arg_get(args, 4));
        adj.second(arg_get(args, 5));
        adj.millisecond(arg_get(args, 6));
        adj.adjust_year();
        adj.apply(&mut d, tz);
        d
    }
}

/// The class constructor hook: the class holds no static state.
pub fn class_init() {
}

/// The static `UTC` factory: calendar components against the synthetic base
/// instant in UTC, with the year taken as given.
pub fn utc(args: &Vec<DateArg>) -> (r: Option<i64>)
    ensures
        (r is Some) <==> (spec_utc(args@) is Some),
        r matches Some(v) ==> spec_utc(args@) == Option::Some(v as int),
{
    let base: i64 = base_instant_x(0);
    let c = civil_view_of(base, 0);
    let mut adj = DateAdjustment::new();
    adj.year(arg_get(args, 0));
    adj.month(arg_get(args, 1));
    adj.day(arg_get(args, 2));
    adj.hour(arg_get(args, 3));
    adj.minute(arg_get(args, 4));
    adj.second(arg_get(args, 5));
    adj.millisecond(arg_get(args, 6));
    adj.calculate(&c)
}

/// Exec mirror of `coerce_arg`.
fn coerce_arg_x(a: &DateArg) -> (r: Coerced)
    ensures
        r == coerce_arg(*a),
{
    match a {
        DateArg::Undefined => Coerced::NonFinite,
        DateArg::Number(c) => *c,
    }
}

/// Exec mirror of `arg_value`.
fn arg_get(args: &Vec<DateArg>, i: usize) -> (r: Option<Coerced>)
    ensures
        r == arg_value(args@, i as int),
{
    if i < args.len() {
        Some(coerce_arg_x(&args[i]))
    } else {
        None
    }
}

/// The synthetic base instant, as a machine integer.
fn base_instant_x(east_minutes: i64) -> (r: i64)
    requires
        -1440 <= east_minutes <= 1440,
    ensures
        r as int == base_instant_ms(east_minutes as int),
        instant_in_range(r as int),
{
    proof {
        crate::calendar::lemma_days_before_year_closed(0);
    }
    -62_167_219_200_000 - east_minutes * 60_000
}

/// Projection facts for a well-formed date through a well-formed offset.
proof fn lemma_view_bounds(d: Date, off: int)
    requires
        d.wf(),
        -1440 <= off <= 1440,
    ensures
        d.instant matches Some(ms) ==> {
            &&& -600_000 <= year_of(ms as int, off) <= 600_000
            &&& 0 <= month0_of(ms as int, off) < 12
            &&& 1 <= day_of_month(ms as int, off) <= 31
            &&& 0 <= hour_of(ms as int, off) < 24
            &&& 0 <= minute_of(ms as int, off) < 60
            &&& 0 <= second_of(ms as int, off) < 60
            &&& 0 <= milli_of(ms as int, off) < 1000
        },
{
    match d.instant {
        Option::Some(ms) => crate::civil::lemma_civil_projections(ms as int, off),
        Option::None => (),
    }
}

} // verus!
