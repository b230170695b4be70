use disco_rs::text::{decimal_string, format_duration};

#[test]
fn duration_under_a_minute() {
    assert_eq!(format_duration(0), "00:00");
    assert_eq!(format_duration(7), "00:07");
    assert_eq!(format_duration(59), "00:59");
}

#[test]
fn duration_in_minutes() {
    assert_eq!(format_duration(61), "01:01");
    assert_eq!(format_duration(754), "12:34");
    assert_eq!(format_duration(3599), "59:59");
}

#[test]
fn duration_with_hours() {
    assert_eq!(format_duration(3600), "01:00:00");
    assert_eq!(format_duration(3661), "01:01:01");
    assert_eq!(format_duration(86399), "23:59:59");
}

#[test]
fn duration_counts_all_hours() {
    assert_eq!(format_duration(60 * 3600), "60:00:00");
    assert_eq!(format_duration(61 * 3600 + 5), "61:00:05");
    assert_eq!(format_duration(100 * 3600 + 62), "100:01:02");
}

#[test]
fn decimal_rendering() {
    assert_eq!(decimal_string(0), "0");
    assert_eq!(decimal_string(9), "9");
    assert_eq!(decimal_string(10), "10");
    assert_eq!(decimal_string(1234567890), "1234567890");
    assert_eq!(decimal_string(u64::MAX), "18446744073709551615");
}
