//! The canonical textual representations of a date: fixed field widths, a
//! three-letter weekday and month table, and a numeric UTC offset, all
//! derived from the local civil view. An invalid date prints as the literal
//! text `Invalid Date`.

use vstd::prelude::*;
use vstd::string::{StrSliceExecFns, StringExecFns};
use crate::civil::{
    civil_view_of, day_of_month, hour_of, minute_of, month0_of, second_of, weekday_of, year_of,
    Timezone,
};
use crate::date::Date;

verus! {

broadcast use vstd::seq::Seq::add_empty_left;

/// The decimal digit character for `n` in 0..10.
pub open spec fn dec_digit(n: int) -> char {
    ((n + 48) as u8) as char
}

/// The decimal digits of a non-negative number, most significant first.
pub open spec fn dec_nat(n: nat) -> Seq<char>
    decreases n,
{
    if n < 10 {
        seq![dec_digit(n as int)]
    } else {
        dec_nat(n / 10) + seq![dec_digit(n as int % 10)]
    }
}

/// A signed decimal number, unpadded.
pub open spec fn dec_int(n: int) -> Seq<char> {
    if n < 0 {
        seq!['-'] + dec_nat((-n) as nat)
    } else {
        dec_nat(n as nat)
    }
}

/// Two decimal digits, zero-padded, for `n` in 0..100.
pub open spec fn pad2(n: int) -> Seq<char> {
    seq![dec_digit(n / 10), dec_digit(n % 10)]
}

/// The three-letter weekday name, counted from Sunday.
pub open spec fn weekday_name(w: int) -> Seq<char> {
    if w == 0 {
        "Sun"@
    } else if w == 1 {
        "Mon"@
    } else if w == 2 {
        "Tue"@
    } else if w == 3 {
        "Wed"@
    } else if w == 4 {
        "Thu"@
    } else if w == 5 {
        "Fri"@
    } else {
        "Sat"@
    }
}

/// The three-letter month name for a 0-based month.
pub open spec fn month_name(m: int) -> Seq<char> {
    if m == 0 {
        "Jan"@
    } else if m == 1 {
        "Feb"@
    } else if m == 2 {
        "Mar"@
    } else if m == 3 {
        "Apr"@
    } else if m == 4 {
        "May"@
    } else if m == 5 {
        "Jun"@
    } else if m == 6 {
        "Jul"@
    } else if m == 7 {
        "Aug"@
    } else if m == 8 {
        "Sep"@
    } else if m == 9 {
        "Oct"@
    } else if m == 10 {
        "Nov"@
    } else {
        "Dec"@
    }
}

/// The numeric offset in `+HHMM`/`-HHMM` form, from minutes east of UTC.
pub open spec fn offset_text(off: int) -> Seq<char> {
    if off >= 0 {
        seq!['+'] + pad2(off / 60) + pad2(off % 60)
    } else {
        seq!['-'] + pad2((-off) / 60) + pad2((-off) % 60)
    }
}

/// The 24-hour clock `HH:MM:SS` of the local view.
pub open spec fn clock_text(ms: int, off: int) -> Seq<char> {
    pad2(hour_of(ms, off)) + ":"@ + pad2(minute_of(ms, off)) + ":"@ + pad2(second_of(ms, off))
}

/// The `AM`/`PM` half-day marker of the local view.
pub open spec fn meridiem_text(ms: int, off: int) -> Seq<char> {
    if hour_of(ms, off) < 12 {
        "AM"@
    } else {
        "PM"@
    }
}

/// `<Wkd> <Mon> <D>` of the local view.
pub open spec fn day_part_text(ms: int, off: int) -> Seq<char> {
    weekday_name(weekday_of(ms, off)) + " "@ + month_name(month0_of(ms, off)) + " "@ + dec_int(
        day_of_month(ms, off),
    )
}

/// The default `toString` pattern: `<Wkd> <Mon> <D> <HH:MM:SS> GMT<±HHMM>
/// <Y>`.
pub open spec fn to_string_text(ms: int, off: int) -> Seq<char> {
    day_part_text(ms, off) + " "@ + clock_text(ms, off) + " GMT"@ + offset_text(off) + " "@
        + dec_int(year_of(ms, off))
}

/// The `toLocaleString` pattern: `<Wkd> <Mon> <D> <Y> <HH:MM:SS> <AM/PM>`.
pub open spec fn to_locale_string_text(ms: int, off: int) -> Seq<char> {
    day_part_text(ms, off) + " "@ + dec_int(year_of(ms, off)) + " "@ + clock_text(ms, off) + " "@
        + meridiem_text(ms, off)
}

/// The `toTimeString` pattern: `<HH:MM:SS> GMT<±HHMM>`.
pub open spec fn to_time_string_text(ms: int, off: int) -> Seq<char> {
    clock_text(ms, off) + " GMT"@ + offset_text(off)
}

/// The `toLocaleTimeString` pattern: `<HH:MM:SS> <AM/PM>`.
pub open spec fn to_locale_time_string_text(ms: int, off: int) -> Seq<char> {
    clock_text(ms, off) + " "@ + meridiem_text(ms, off)
}

/// The `toDateString` / `toLocaleDateString` pattern: `<Wkd> <Mon> <D> <Y>`.
pub open spec fn to_date_string_text(ms: int, off: int) -> Seq<char> {
    day_part_text(ms, off) + " "@ + dec_int(year_of(ms, off))
}

/// Append one decimal digit.
fn push_digit(s: &mut String, d: u64)
    requires
        d < 10,
    ensures
        final(s)@ == old(s)@ + seq![dec_digit(d as int)],
{
    let digits: &str = "0123456789";
    proof {
        reveal_strlit("0123456789");
    }
    let one: &str = digits.substring_ascii(d as usize, d as usize + 1);
    s.append(one);
    proof {
        assert(one@ =~= seq![dec_digit(d as int)]);
    }
}

/// Append the decimal digits of a non-negative number.
fn push_u64(s: &mut String, n: u64)
    ensures
        final(s)@ == old(s)@ + dec_nat(n as nat),
    decreases n,
{
    if n < 10 {
        push_digit(s, n);
    } else {
        push_u64(s, n / 10);
        push_digit(s, n % 10);
        proof {
            assert(s@ =~= old(s)@ + dec_nat(n as nat));
        }
    }
}

/// Append a signed decimal number, unpadded.
fn push_i64(s: &mut String, n: i64)
    ensures
        final(s)@ == old(s)@ + dec_int(n as int),
{
    if n < 0 {
        s.append("-");
        let m: u64 = (-(n as i128)) as u64;
        push_u64(s, m);
        proof {
            reveal_strlit("-");
            assert("-"@ =~= seq!['-']);
            assert(s@ =~= old(s)@ + dec_int(n as int));
        }
    } else {
        push_u64(s, n as u64);
    }
}

/// Append two zero-padded decimal digits.
fn push_pad2(s: &mut String, n: u64)
    requires
        n < 100,
    ensures
        final(s)@ == old(s)@ + pad2(n as int),
{
    push_digit(s, n / 10);
    push_digit(s, n % 10);
}

/// Append the three-letter weekday name.
fn push_weekday(s: &mut String, w: i64)
    requires
        0 <= w < 7,
    ensures
        final(s)@ == old(s)@ + weekday_name(w as int),
{
    if w == 0 {
        s.append("Sun");
    } else if w == 1 {
        s.append("Mon");
    } else if w == 2 {
        s.append("Tue");
    } else if w == 3 {
        s.append("Wed");
    } else if w == 4 {
        s.append("Thu");
    } else if w == 5 {
        s.append("Fri");
    } else {
        s.append("Sat");
    }
}

/// Append the three-letter month name.
fn push_month(s: &mut String, m: i64)
    requires
        0 <= m < 12,
    ensures
        final(s)@ == old(s)@ + month_name(m as int),
{
    if m == 0 {
        s.append("Jan");
    } else if m == 1 {
        s.append("Feb");
    } else if m == 2 {
        s.append("Mar");
    } else if m == 3 {
        s.append("Apr");
    } else if m == 4 {
        s.append("May");
    } else if m == 5 {
        s.append("Jun");
    } else if m == 6 {
        s.append("Jul");
    } else if m == 7 {
        s.append("Aug");
    } else if m == 8 {
        s.append("Sep");
    } else if m == 9 {
        s.append("Oct");
    } else if m == 10 {
        s.append("Nov");
    } else {
        s.append("Dec");
    }
}

/// Append the numeric offset in `+HHMM`/`-HHMM` form.
fn push_offset(s: &mut String, off: i64)
    requires
        -1440 <= off <= 1440,
    ensures
        final(s)@ == old(s)@ + offset_text(off as int),
{
    if off >= 0 {
        s.append("+");
        proof {
            reveal_strlit("+");
            assert("+"@ =~= seq!['+']);
        }
        push_pad2(s, (off as u64) / 60);
        push_pad2(s, (off as u64) % 60);
    } else {
        s.append("-");
        proof {
            reveal_strlit("-");
            assert("-"@ =~= seq!['-']);
        }
        let m: u64 = (-off) as u64;
        push_pad2(s, m / 60);
        push_pad2(s, m % 60);
    }
    proof {
        assert(s@ =~= old(s)@ + offset_text(off as int));
    }
}

impl Date {
    /// The default `toString` text.
    pub fn to_string(&self, tz: Timezone) -> (r: String)
        requires
            self.wf(),
            tz.wf(),
        ensures
            self.instant is None ==> r@ == "Invalid Date"@,
            self.instant matches Some(ms) ==> r@ == to_string_text(
                ms as int,
                tz.east_minutes as int,
            ),
    {
        match self.get_instant() {
            None => invalid_date_text(),
            Some(ms) => {
                proof {
                    crate::civil::lemma_civil_projections(ms as int, tz.east_minutes as int);
                }
                let c = civil_view_of(ms, tz.east_minutes);
                let mut s = String::new();
                push_weekday(&mut s, c.weekday);
                s.append(" ");
                push_month(&mut s, c.month0);
                s.append(" ");
                push_i64(&mut s, c.day);
                s.append(" ");
                push_clock(&mut s, c.hour, c.minute, c.second);
                s.append(" GMT");
                push_offset(&mut s, tz.east_minutes);
                s.append(" ");
                push_i64(&mut s, c.year);
                proof {
                    assert(s@ =~= to_string_text(ms as int, tz.east_minutes as int));
                }
                s
            },
        }
    }

    /// The `toLocaleString` text.
    pub fn to_locale_string(&self, tz: Timezone) -> (r: String)
        requires
            self.wf(),
            tz.wf(),
        ensures
            self.instant is None ==> r@ == "Invalid Date"@,
            self.instant matches Some(ms) ==> r@ == to_locale_string_text(
                ms as int,
                tz.east_minutes as int,
            ),
    {
        match self.get_instant() {
            None => invalid_date_text(),
            Some(ms) => {
                proof {
                    crate::civil::lemma_civil_projections(ms as int, tz.east_minutes as int);
                }
                let c = civil_view_of(ms, tz.east_minutes);
                let mut s = String::new();
                push_weekday(&mut s, c.weekday);
                s.append(" ");
                push_month(&mut s, c.month0);
                s.append(" ");
                push_i64(&mut s, c.day);
                s.append(" ");
                push_i64(&mut s, c.year);
                s.append(" ");
                push_clock(&mut s, c.hour, c.minute, c.second);
                s.append(" ");
                push_meridiem(&mut s, c.hour);
                proof {
                    assert(s@ =~= to_locale_string_text(ms as int, tz.east_minutes as int));
                }
                s
            },
        }
    }

    /// The `toTimeString` text.
    pub fn to_time_string(&self, tz: Timezone) -> (r: String)
        requires
            self.wf(),
            tz.wf(),
        ensures
            self.instant is None ==> r@ == "Invalid Date"@,
            self.instant matches Some(ms) ==> r@ == to_time_string_text(
                ms as int,
                tz.east_minutes as int,
            ),
    {
        match self.get_instant() {
            None => invalid_date_text(),
            Some(ms) => {
                proof {
                    crate::civil::lemma_civil_projections(ms as int, tz.east_minutes as int);
                }
                let c = civil_view_of(ms, tz.east_minutes);
                let mut s = String::new();
                push_clock(&mut s, c.hour, c.minute, c.second);
                s.append(" GMT");
                push_offset(&mut s, tz.east_minutes);
                proof {
                    assert(s@ =~= to_time_string_text(ms as int, tz.east_minutes as int));
                }
                s
            },
        }
    }

    /// The `toLocaleTimeString` text.
    pub fn to_locale_time_string(&self, tz: Timezone) -> (r: String)
        requires
            self.wf(),
            tz.wf(),
        ensures
            self.instant is None ==> r@ == "Invalid Date"@,
            self.instant matches Some(ms) ==> r@ == to_locale_time_string_text(
                ms as int,
                tz.east_minutes as int,
            ),
    {
        match self.get_instant() {
            None => invalid_date_text(),
            Some(ms) => {
                proof {
                    crate::civil::lemma_civil_projections(ms as int, tz.east_minutes as int);
                }
                let c = civil_view_of(ms, tz.east_minutes);
                let mut s = String::new();
                push_clock(&mut s, c.hour, c.minute, c.second);
                s.append(" ");
                push_meridiem(&mut s, c.hour);
                proof {
                    assert(s@ =~= to_locale_time_string_text(ms as int, tz.east_minutes as int));
                }
                s
            },
        }
    }

    /// The `toDateString` / `toLocaleDateString` text.
    pub fn to_date_string(&self, tz: Timezone) -> (r: String)
        requires
            self.wf(),
            tz.wf(),
        ensures
            self.instant is None ==> r@ == "Invalid Date"@,
            self.instant matches Some(ms) ==> r@ == to_date_string_text(
                ms as int,
                tz.east_minutes as int,
            ),
    {
        match self.get_instant() {
            None => invalid_date_text(),
            Some(ms) => {
                proof {
                    crate::civil::lemma_civil_projections(ms as int, tz.east_minutes as int);
                }
                let c = civil_view_of(ms, tz.east_minutes);
                let mut s = String::new();
                push_weekday(&mut s, c.weekday);
                s.append(" ");
                push_month(&mut s, c.month0);
                s.append(" ");
                push_i64(&mut s, c.day);
                s.append(" ");
                push_i64(&mut s, c.year);
                proof {
                    assert(s@ =~= to_date_string_text(ms as int, tz.east_minutes as int));
                }
                s
            },
        }
    }
}

/// Append the 24-hour clock `HH:MM:SS`.
fn push_clock(s: &mut String, hour: i64, minute: i64, second: i64)
    requires
        0 <= hour < 24,
        0 <= minute < 60,
        0 <= second < 60,
    ensures
        final(s)@ == old(s)@ + pad2(hour as int) + ":"@ + pad2(minute as int) + ":"@ + pad2(
            second as int,
        ),
{
    push_pad2(s, hour as u64);
    s.append(":");
    push_pad2(s, minute as u64);
    s.append(":");
    push_pad2(s, second as u64);
}

/// Append the half-day marker.
fn push_meridiem(s: &mut String, hour: i64)
    requires
        0 <= hour < 24,
    ensures
        final(s)@ == old(s)@ + (if hour < 12 {
            "AM"@
        } else {
            "PM"@
        }),
{
    if hour < 12 {
        s.append("AM");
    } else {
        s.append("PM");
    }
}

/// The text of an invalid date.
fn invalid_date_text() -> (r: String)
    ensures
        r@ == "Invalid Date"@,
{
    String::from_str("Invalid Date")
}

} // verus!
