use leierkasten_client::format::{format_timestamp, push_digit, TIMESTAMP_LIMIT};

#[test]
fn formats_zero_as_minutes_and_seconds() {
    assert_eq!(format_timestamp(0), "0:00");
}

#[test]
fn formats_seconds_below_a_minute() {
    assert_eq!(format_timestamp(5), "0:05");
    assert_eq!(format_timestamp(59), "0:59");
}

#[test]
fn formats_minutes_without_leading_zero() {
    assert_eq!(format_timestamp(60), "1:00");
    assert_eq!(format_timestamp(125), "2:05");
    assert_eq!(format_timestamp(599), "9:59");
}

#[test]
fn formats_two_digit_minutes() {
    assert_eq!(format_timestamp(600), "10:00");
    assert_eq!(format_timestamp(3599), "59:59");
}

#[test]
fn formats_hours_with_two_digit_minutes() {
    assert_eq!(format_timestamp(3600), "1:00:00");
    assert_eq!(format_timestamp(3725), "1:02:05");
    assert_eq!(format_timestamp(36000), "10:00:00");
    assert_eq!(format_timestamp(86399), "23:59:59");
}

#[test]
fn formats_the_largest_timestamp() {
    assert_eq!(format_timestamp(TIMESTAMP_LIMIT - 1), "99:59:59");
}

#[test]
fn push_digit_appends_each_digit() {
    let mut text = String::from("x");
    for d in 0..10 {
        push_digit(&mut text, d);
    }
    assert_eq!(text, "x0123456789");
}
