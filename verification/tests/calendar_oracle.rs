//! The civil view against chrono's calendar, field by field.

use avm_globals::civil::Timezone;
use avm_globals::date::Date;
use chrono::{Datelike, TimeZone, Timelike};
use avm_globals::calendar::{civil_from_day_number, days_before_year_x, days_in_month_x, is_leap_year_x};

fn sample_instants() -> Vec<i64> {
    vec![
        0,
        1,
        -1,
        86_399_999,
        -86_400_000,
        951_827_696_789,       // 2000-02-29, a century leap day
        -62_167_219_200_000,   // year 0
        1_700_000_000_000,
        -2_208_988_800_000,    // 1900-01-01
        4_102_444_800_000,     // 2100-01-01
        -12_219_292_800_000,   // 1582-10-15, proleptic continuation
        253_402_300_799_999,   // 9999-12-31 23:59:59.999
        -377_705_116_800_000,  // year -10000
    ]
}

#[test]
fn civil_view_matches_chrono() {
    for &ms in &sample_instants() {
        for &off in &[0i32, 840, -840, 330, -61] {
            let tz = Timezone::new(off as i64);
            let mut d = Date::invalid();
            d.set_instant(Some(ms));
            let c = d.civil_view(tz).unwrap();
            let offset = chrono::FixedOffset::east_opt(off * 60).unwrap();
            let t = offset.timestamp_millis_opt(ms).unwrap();
            assert_eq!(c.year, t.year() as i64, "year of {ms} at {off}");
            assert_eq!(c.month0, t.month0() as i64, "month of {ms} at {off}");
            assert_eq!(c.day, t.day() as i64, "day of {ms} at {off}");
            assert_eq!(c.hour, t.hour() as i64, "hour of {ms} at {off}");
            assert_eq!(c.minute, t.minute() as i64, "minute of {ms} at {off}");
            assert_eq!(c.second, t.second() as i64, "second of {ms} at {off}");
            assert_eq!(
                c.millisecond,
                t.timestamp_subsec_millis() as i64,
                "millisecond of {ms} at {off}"
            );
            assert_eq!(
                c.weekday,
                t.weekday().num_days_from_sunday() as i64,
                "weekday of {ms} at {off}"
            );
        }
    }
}

#[test]
fn getters_match_chrono_fields() {
    let ms: i64 = 951_827_696_789;
    let tz = Timezone::new(-300);
    let mut d = Date::invalid();
    d.set_instant(Some(ms));
    let offset = chrono::FixedOffset::east_opt(-300 * 60).unwrap();
    let t = offset.timestamp_millis_opt(ms).unwrap();
    assert_eq!(d.full_year(tz), Some(t.year() as i64));
    assert_eq!(d.month(tz), Some(t.month0() as i64));
    assert_eq!(d.date(tz), Some(t.day() as i64));
    assert_eq!(d.hours(tz), Some(t.hour() as i64));
    assert_eq!(d.minutes(tz), Some(t.minute() as i64));
    assert_eq!(d.seconds(tz), Some(t.second() as i64));
    assert_eq!(d.milliseconds(tz), Some(t.timestamp_subsec_millis() as i64));
    assert_eq!(d.day(tz), Some(t.weekday().num_days_from_sunday() as i64));
}

#[test]
fn leap_year_boundaries() {
    let tz = Timezone::utc();
    // 2000-02-29 exists (divisible by 400), 1900-02-29 does not.
    let mut feb29 = Date::invalid();
    feb29.set_instant(Some(951_782_400_000)); // 2000-02-29T00:00:00Z
    assert_eq!(feb29.month_utc(), Some(1));
    assert_eq!(feb29.date_utc(), Some(29));
    let mut d = Date::invalid();
    d.set_instant(Some(-2_203_891_200_000)); // 1900-03-01T00:00:00Z
    assert_eq!(d.month(tz), Some(2));
    assert_eq!(d.date(tz), Some(1));
}

#[test]
fn instants_at_the_representable_edges() {
    // chrono's own DateTime range is the library's validity range.
    let mut d = Date::invalid();
    d.set_instant(Some(8_210_266_876_799_999));
    assert_eq!(d.full_year_utc(), Some(262142));
    assert_eq!(d.month_utc(), Some(11));
    assert_eq!(d.date_utc(), Some(31));
    d.set_instant(Some(-8_334_601_228_800_000));
    assert_eq!(d.full_year_utc(), Some(-262143));
    assert_eq!(d.month_utc(), Some(0));
    assert_eq!(d.date_utc(), Some(1));
    assert_eq!(d.hours_utc(), Some(0));
}

#[test]
fn month_lengths_follow_the_leap_rule() {
    assert!(!is_leap_year_x(1900)); // century, not divisible by 400
    assert!(is_leap_year_x(2000));
    assert!(is_leap_year_x(2024));
    assert!(!is_leap_year_x(2023));
    assert!(is_leap_year_x(0));
    assert!(!is_leap_year_x(-1));
    assert!(is_leap_year_x(-4));
    let lengths = [31, 28, 31, 30, 31, 30, 31, 31, 30, 31, 30, 31];
    for m in 0..12i64 {
        assert_eq!(days_in_month_x(false, m), lengths[m as usize]);
        let leap_len = if m == 1 { 29 } else { lengths[m as usize] };
        assert_eq!(days_in_month_x(true, m), leap_len);
    }
}

#[test]
fn day_numbers_match_chrono_num_days() {
    assert_eq!(days_before_year_x(1970), 0);
    assert_eq!(days_before_year_x(1971), 365);
    assert_eq!(days_before_year_x(1973), 365 + 366 + 365);
    let epoch = chrono::NaiveDate::from_ymd_opt(1970, 1, 1).unwrap();
    for &n in &[0i64, 1, -1, 365, 11016, -719528, 2932896, -100000] {
        let (y, m, d) = civil_from_day_number(n);
        let date = chrono::NaiveDate::from_ymd_opt(y as i32, (m + 1) as u32, d as u32).unwrap();
        assert_eq!(date.signed_duration_since(epoch).num_days(), n, "day {n}");
    }
}
