use firmium::format::{fmt_hours, fmt_time_secs, time_of_day, time_of_day_at};
use firmium::text::u64_to_decimal;

#[test]
fn hours_and_minutes() {
    assert_eq!(fmt_hours(3 * 3600 + 24 * 60 + 59), "3h 24m");
    assert_eq!(fmt_hours(47 * 60), "47m");
    assert_eq!(fmt_hours(59), "0m");
    assert_eq!(fmt_hours(-5), "0m");
    assert_eq!(fmt_hours(3600), "1h 0m");
}

#[test]
fn clock_positions() {
    assert_eq!(fmt_time_secs(0), "0:00");
    assert_eq!(fmt_time_secs(65), "1:05");
    assert_eq!(fmt_time_secs(600), "10:00");
    assert_eq!(fmt_time_secs(3599), "59:59");
    assert_eq!(fmt_time_secs(3661), "61:01");
}

#[test]
fn decimal_rendering() {
    assert_eq!(u64_to_decimal(0), "0");
    assert_eq!(u64_to_decimal(1234567890), "1234567890");
    assert_eq!(u64_to_decimal(u64::MAX), u64::MAX.to_string());
}

#[test]
fn parts_of_day() {
    assert_eq!(time_of_day_at(0), "Night");
    assert_eq!(time_of_day_at(5 * 3600), "Morning");
    assert_eq!(time_of_day_at(11 * 3600 + 3599), "Morning");
    assert_eq!(time_of_day_at(12 * 3600), "Afternoon");
    assert_eq!(time_of_day_at(17 * 3600), "Evening");
    assert_eq!(time_of_day_at(21 * 3600), "Night");
    assert_eq!(time_of_day_at(86_400 + 13 * 3600), "Afternoon");
    let now = time_of_day();
    assert!(["Morning", "Afternoon", "Evening", "Night"].contains(&now));
}
