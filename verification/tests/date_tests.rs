use avm_globals::adjust::Coerced;
use avm_globals::civil::Timezone;
use avm_globals::date::{instance_init, utc, Date, DateArg};
use chrono::TimeZone;

fn num(n: i64) -> DateArg {
    DateArg::Number(Coerced::Finite(n))
}

fn fin(n: i64) -> Option<Coerced> {
    Some(Coerced::Finite(n))
}

/// A date holding the given UTC calendar position.
fn date_at_utc(year: i64, month0: i64, day: i64, hour: i64, minute: i64, second: i64, ms: i64) -> Date {
    let parts = vec![
        num(year),
        num(month0),
        num(day),
        num(hour),
        num(minute),
        num(second),
        num(ms),
    ];
    let t = utc(&parts).expect("components are representable");
    let mut d = Date::invalid();
    d.set_instant(Some(t));
    d
}

#[test]
fn utc_factory_matches_chrono() {
    let t = utc(&vec![num(2024), num(0), num(15), num(12), num(30), num(0), num(0)]).unwrap();
    let expected = chrono::Utc
        .with_ymd_and_hms(2024, 1, 15, 12, 30, 0)
        .unwrap()
        .timestamp_millis();
    assert_eq!(t, expected);
}

#[test]
fn epoch_millisecond_round_trip() {
    let t = utc(&vec![num(2024), num(0), num(15), num(12), num(30), num(0), num(0)]).unwrap();
    let d = instance_init(Timezone::new(-300), 0, &vec![num(t)]);
    assert_eq!(d.full_year_utc(), Some(2024));
    assert_eq!(d.month_utc(), Some(0));
    assert_eq!(d.date_utc(), Some(15));
    assert_eq!(d.hours_utc(), Some(12));
    assert_eq!(d.minutes_utc(), Some(30));
    assert_eq!(d.seconds_utc(), Some(0));
    assert_eq!(d.milliseconds_utc(), Some(0));
}

#[test]
fn view_reconstruct_is_identity() {
    let tz = Timezone::new(330);
    let d = date_at_utc(1999, 11, 31, 23, 59, 59, 999);
    let original = d.get_instant().unwrap();
    let c = d.civil_view(tz).unwrap();
    let mut copy = d;
    copy.set_full_year(tz, fin(c.year), fin(c.month0), fin(c.day));
    copy.set_hours(tz, fin(c.hour), fin(c.minute), fin(c.second), fin(c.millisecond));
    assert_eq!(copy.get_instant(), Some(original));
}

#[test]
fn cascade_suppresses_later_arguments() {
    let tz = Timezone::utc();
    let mut d = date_at_utc(2024, 4, 20, 12, 0, 0, 0);
    // year supplied, month omitted, day supplied: month AND day must stay.
    let r = d.set_full_year(tz, fin(2030), None, fin(5));
    assert!(r.is_some());
    assert_eq!(d.full_year(tz), Some(2030));
    assert_eq!(d.month(tz), Some(4));
    assert_eq!(d.date(tz), Some(20));
    assert_eq!(d.hours(tz), Some(12));
}

#[test]
fn month_thirteen_rolls_into_next_year() {
    let tz = Timezone::utc();
    let mut d = date_at_utc(2024, 2, 10, 6, 7, 8, 9);
    let r = d.set_month(tz, fin(13), None);
    assert!(r.is_some());
    assert_eq!(d.full_year(tz), Some(2025));
    assert_eq!(d.month(tz), Some(1));
    assert_eq!(d.date(tz), Some(10));
    assert_eq!(d.hours(tz), Some(6));
    assert_eq!(d.minutes(tz), Some(7));
    assert_eq!(d.seconds(tz), Some(8));
    assert_eq!(d.milliseconds(tz), Some(9));
}

#[test]
fn negative_month_rolls_backwards() {
    let tz = Timezone::utc();
    let mut d = date_at_utc(2024, 2, 10, 0, 0, 0, 0);
    d.set_month(tz, fin(-1), None);
    assert_eq!(d.full_year(tz), Some(2023));
    assert_eq!(d.month(tz), Some(11));
    assert_eq!(d.date(tz), Some(10));
}

#[test]
fn non_finite_seconds_invalidates() {
    let tz = Timezone::utc();
    let mut d = date_at_utc(2024, 0, 1, 0, 0, 0, 0);
    let r = d.set_seconds(tz, Some(Coerced::NonFinite), None);
    assert_eq!(r, None);
    assert_eq!(d.time(), None);
    assert_eq!(d.seconds(tz), None);
    assert_eq!(d.full_year(tz), None);
}

#[test]
fn two_digit_year_maps_into_1900s() {
    let tz = Timezone::utc();
    let d = instance_init(tz, 0, &vec![num(5), num(0), num(1)]);
    assert_eq!(d.full_year(tz), Some(1905));
}

#[test]
fn negative_year_is_taken_as_given() {
    let tz = Timezone::utc();
    let d = instance_init(tz, 0, &vec![num(-1), num(0), num(1)]);
    assert_eq!(d.full_year(tz), Some(-1));
    let expected = chrono::Utc
        .with_ymd_and_hms(-1, 1, 1, 0, 0, 0)
        .unwrap()
        .timestamp_millis();
    assert_eq!(d.time(), Some(expected));
}

#[test]
fn three_digit_year_is_taken_as_given() {
    let tz = Timezone::utc();
    let d = instance_init(tz, 0, &vec![num(105), num(0), num(1)]);
    assert_eq!(d.full_year(tz), Some(105));
}

#[test]
fn utc_factory_year_is_taken_as_given() {
    let t = utc(&vec![num(5), num(0), num(1)]).unwrap();
    let expected = chrono::Utc
        .with_ymd_and_hms(5, 1, 1, 0, 0, 0)
        .unwrap()
        .timestamp_millis();
    assert_eq!(t, expected);
}

#[test]
fn day_zero_moves_to_last_day_of_previous_month() {
    let tz = Timezone::utc();
    let mut d = date_at_utc(2024, 2, 10, 13, 14, 15, 16);
    d.set_date(tz, fin(0));
    assert_eq!(d.full_year(tz), Some(2024));
    assert_eq!(d.month(tz), Some(1));
    assert_eq!(d.date(tz), Some(29));
    assert_eq!(d.hours(tz), Some(13));
    assert_eq!(d.milliseconds(tz), Some(16));
}

#[test]
fn day_zero_in_january_moves_to_december() {
    let tz = Timezone::utc();
    let mut d = date_at_utc(2024, 0, 5, 1, 2, 3, 4);
    d.set_date(tz, fin(0));
    assert_eq!(d.full_year(tz), Some(2023));
    assert_eq!(d.month(tz), Some(11));
    assert_eq!(d.date(tz), Some(31));
}

#[test]
fn day_thirty_two_rolls_into_next_month() {
    let tz = Timezone::utc();
    let mut d = date_at_utc(2024, 0, 10, 0, 0, 0, 0);
    d.set_date(tz, fin(32));
    assert_eq!(d.month(tz), Some(1));
    assert_eq!(d.date(tz), Some(1));
}

#[test]
fn set_time_stores_and_reports_the_instant() {
    let mut d = Date::invalid();
    let r = d.set_time(Coerced::Finite(1_700_000_000_000));
    assert_eq!(r, Some(1_700_000_000_000));
    assert_eq!(d.time(), Some(1_700_000_000_000));
}

#[test]
fn set_time_out_of_range_invalidates() {
    let mut d = date_at_utc(2024, 0, 1, 0, 0, 0, 0);
    let r = d.set_time(Coerced::Finite(9_000_000_000_000_000));
    assert_eq!(r, None);
    assert_eq!(d.time(), None);
}

#[test]
fn set_time_non_finite_invalidates() {
    let mut d = date_at_utc(2024, 0, 1, 0, 0, 0, 0);
    assert_eq!(d.set_time(Coerced::NonFinite), None);
    assert_eq!(d.time(), None);
}

#[test]
fn invalid_date_stays_invalid_under_adjustment() {
    let tz = Timezone::utc();
    let mut d = Date::invalid();
    assert_eq!(d.set_minutes(tz, fin(30), None, None), None);
    assert_eq!(d.time(), None);
}

#[test]
fn setter_reports_the_committed_instant() {
    let tz = Timezone::utc();
    let mut d = date_at_utc(2024, 0, 1, 0, 0, 0, 0);
    let r = d.set_hours(tz, fin(6), fin(30), fin(15), fin(250));
    assert_eq!(r, d.time());
    assert_eq!(d.hours(tz), Some(6));
    assert_eq!(d.minutes(tz), Some(30));
    assert_eq!(d.seconds(tz), Some(15));
    assert_eq!(d.milliseconds(tz), Some(250));
}

#[test]
fn constructor_without_arguments_takes_now() {
    let tz = Timezone::new(60);
    let now = 1_700_000_000_123;
    let d = instance_init(tz, now, &vec![]);
    assert_eq!(d.time(), Some(now));
}

#[test]
fn constructor_with_undefined_first_argument_takes_now() {
    let tz = Timezone::utc();
    let now = 42;
    let d = instance_init(tz, now, &vec![DateArg::Undefined, num(5)]);
    assert_eq!(d.time(), Some(now));
}

#[test]
fn constructor_with_non_coercible_timestamp_is_invalid() {
    let tz = Timezone::utc();
    let d = instance_init(tz, 0, &vec![DateArg::Number(Coerced::NonFinite)]);
    assert_eq!(d.time(), None);
}

#[test]
fn constructor_components_use_the_local_timezone() {
    let tz = Timezone::new(330);
    let d = instance_init(
        tz,
        0,
        &vec![num(2024), num(0), num(15), num(12), num(30), num(0), num(0)],
    );
    let offset = chrono::FixedOffset::east_opt(330 * 60).unwrap();
    let expected = offset
        .with_ymd_and_hms(2024, 1, 15, 12, 30, 0)
        .unwrap()
        .timestamp_millis();
    assert_eq!(d.time(), Some(expected));
}

#[test]
fn utc_factory_with_only_a_year_starts_the_year() {
    let t = utc(&vec![num(2024)]).unwrap();
    let expected = chrono::Utc
        .with_ymd_and_hms(2024, 1, 1, 0, 0, 0)
        .unwrap()
        .timestamp_millis();
    assert_eq!(t, expected);
}

#[test]
fn utc_factory_with_non_finite_component_is_not_a_number() {
    assert_eq!(utc(&vec![num(2024), DateArg::Number(Coerced::NonFinite)]), None);
}

#[test]
fn timezone_offset_is_utc_minus_local() {
    let mut d = Date::invalid();
    d.set_instant(Some(0));
    assert_eq!(d.timezone_offset(Timezone::new(-300)), Some(300));
    assert_eq!(d.timezone_offset(Timezone::new(330)), Some(-330));
    let invalid = Date::invalid();
    assert_eq!(invalid.timezone_offset(Timezone::utc()), None);
}

#[test]
fn local_getters_follow_the_offset() {
    let tz = Timezone::new(-330);
    let d = date_at_utc(2024, 0, 1, 2, 0, 0, 0);
    // 02:00 UTC at UTC-5:30 is 20:30 the previous day.
    assert_eq!(d.full_year(tz), Some(2023));
    assert_eq!(d.month(tz), Some(11));
    assert_eq!(d.date(tz), Some(31));
    assert_eq!(d.hours(tz), Some(20));
    assert_eq!(d.minutes(tz), Some(30));
}

#[test]
fn weekday_counts_from_sunday() {
    let tz = Timezone::utc();
    // 1970-01-01 was a Thursday.
    let mut d = Date::invalid();
    d.set_instant(Some(0));
    assert_eq!(d.day(tz), Some(4));
    assert_eq!(d.day_utc(), Some(4));
    // 2024-01-15 was a Monday.
    let d2 = date_at_utc(2024, 0, 15, 0, 0, 0, 0);
    assert_eq!(d2.day_utc(), Some(1));
}

#[test]
fn utc_setters_adjust_in_utc() {
    let mut d = date_at_utc(2024, 5, 10, 22, 45, 30, 500);
    d.set_full_year_utc(fin(2025), None, None);
    assert_eq!(d.full_year_utc(), Some(2025));
    assert_eq!(d.month_utc(), Some(5));
    d.set_month_utc(fin(0), fin(2));
    assert_eq!(d.month_utc(), Some(0));
    assert_eq!(d.date_utc(), Some(2));
    d.set_hours_utc(fin(1), fin(2), fin(3), fin(4));
    assert_eq!(d.hours_utc(), Some(1));
    d.set_minutes_utc(fin(59), None, None);
    assert_eq!(d.minutes_utc(), Some(59));
    d.set_seconds_utc(fin(58), None);
    assert_eq!(d.seconds_utc(), Some(58));
    d.set_milliseconds_utc(fin(999));
    assert_eq!(d.milliseconds_utc(), Some(999));
    d.set_date_utc(fin(28));
    assert_eq!(d.date_utc(), Some(28));
}

#[test]
fn far_year_construction_is_invalid() {
    let tz = Timezone::utc();
    let d = instance_init(tz, 0, &vec![num(500_000), num(0), num(1)]);
    assert_eq!(d.time(), None);
}
