use avm_globals::adjust::Coerced;
use avm_globals::civil::Timezone;
use avm_globals::date::{utc, Date, DateArg};
use chrono::TimeZone;

fn num(n: i64) -> DateArg {
    DateArg::Number(Coerced::Finite(n))
}

fn date_from_utc_parts(parts: &[i64]) -> Date {
    let args: Vec<DateArg> = parts.iter().map(|&n| num(n)).collect();
    let t = utc(&args).expect("components are representable");
    let mut d = Date::invalid();
    d.set_instant(Some(t));
    d
}

/// chrono's rendering of the same instant under the same pattern.
fn chrono_text(d: &Date, east_minutes: i32, pattern: &str) -> String {
    let offset = chrono::FixedOffset::east_opt(east_minutes * 60).unwrap();
    let t = offset.timestamp_millis_opt(d.get_instant().unwrap()).unwrap();
    t.format(pattern).to_string()
}

#[test]
fn to_string_pattern() {
    let d = date_from_utc_parts(&[2024, 0, 15, 12, 30, 0, 0]);
    assert_eq!(d.to_string(Timezone::utc()), "Mon Jan 15 12:30:00 GMT+0000 2024");
}

#[test]
fn to_string_matches_chrono() {
    let d = date_from_utc_parts(&[1987, 7, 9, 3, 4, 5, 6]);
    for &off in &[0i32, 60, -300, 330, -570] {
        let tz = Timezone::new(off as i64);
        assert_eq!(
            d.to_string(tz),
            chrono_text(&d, off, "%a %b %-d %T GMT%z %-Y"),
            "offset {off}"
        );
    }
}

#[test]
fn to_locale_string_matches_chrono() {
    let d = date_from_utc_parts(&[2001, 10, 30, 17, 5, 9, 0]);
    for &off in &[0i32, -480, 120] {
        let tz = Timezone::new(off as i64);
        assert_eq!(d.to_locale_string(tz), chrono_text(&d, off, "%a %b %-d %-Y %T %p"));
    }
}

#[test]
fn to_time_string_matches_chrono() {
    let d = date_from_utc_parts(&[2010, 5, 1, 0, 0, 30, 999]);
    for &off in &[0i32, -45, 765] {
        let tz = Timezone::new(off as i64);
        assert_eq!(d.to_time_string(tz), chrono_text(&d, off, "%T GMT%z"));
    }
}

#[test]
fn to_locale_time_string_matches_chrono() {
    let morning = date_from_utc_parts(&[2010, 5, 1, 9, 15, 0, 0]);
    let evening = date_from_utc_parts(&[2010, 5, 1, 21, 15, 0, 0]);
    assert_eq!(morning.to_locale_time_string(Timezone::utc()), "09:15:00 AM");
    assert_eq!(evening.to_locale_time_string(Timezone::utc()), "21:15:00 PM");
    assert_eq!(
        evening.to_locale_time_string(Timezone::utc()),
        chrono_text(&evening, 0, "%T %p")
    );
}

#[test]
fn to_date_string_matches_chrono() {
    let d = date_from_utc_parts(&[1969, 6, 20, 20, 17, 40, 0]);
    for &off in &[0i32, -300] {
        let tz = Timezone::new(off as i64);
        assert_eq!(d.to_date_string(tz), chrono_text(&d, off, "%a %b %-d %-Y"));
    }
}

#[test]
fn negative_year_prints_unpadded() {
    let d = date_from_utc_parts(&[-5, 0, 1, 0, 0, 0, 0]);
    assert_eq!(d.to_date_string(Timezone::utc()), chrono_text(&d, 0, "%a %b %-d %-Y"));
    assert!(d.to_date_string(Timezone::utc()).ends_with("-5"));
}

#[test]
fn invalid_date_prints_the_sentinel() {
    let d = Date::invalid();
    let tz = Timezone::new(-120);
    assert_eq!(d.to_string(tz), "Invalid Date");
    assert_eq!(d.to_locale_string(tz), "Invalid Date");
    assert_eq!(d.to_time_string(tz), "Invalid Date");
    assert_eq!(d.to_locale_time_string(tz), "Invalid Date");
    assert_eq!(d.to_date_string(tz), "Invalid Date");
}

#[test]
fn midnight_prints_as_am() {
    let d = date_from_utc_parts(&[2024, 0, 1, 0, 0, 0, 0]);
    assert_eq!(d.to_locale_time_string(Timezone::utc()), "00:00:00 AM");
    assert_eq!(
        d.to_locale_time_string(Timezone::utc()),
        chrono_text(&d, 0, "%T %p")
    );
}
