use memstat::timestamp::{format_timestamp, is_utc_millis_text, settle_timestamp};

#[test]
fn renders_epoch() {
    assert_eq!(format_timestamp(Some((0, 0))), "1970-01-01T00:00:00.000Z");
}

#[test]
fn renders_milliseconds() {
    assert_eq!(format_timestamp(Some((1_700_000_000, 123))), "2023-11-14T22:13:20.123Z");
    assert_eq!(format_timestamp(Some((951_782_400, 7))), "2000-02-29T00:00:00.007Z");
}

#[test]
fn clock_before_epoch_gives_epoch() {
    assert_eq!(format_timestamp(None), "1970-01-01T00:00:00.000Z");
}

#[test]
fn out_of_range_clock_gives_epoch() {
    assert_eq!(format_timestamp(Some((u64::MAX, 0))), "1970-01-01T00:00:00.000Z");
    assert_eq!(format_timestamp(Some((i64::MAX as u64, 999))), "1970-01-01T00:00:00.000Z");
}

#[test]
fn year_past_9999_is_rejected() {
    // 253402300800 is 10000-01-01T00:00:00Z, which no longer has four year digits.
    assert_eq!(format_timestamp(Some((253_402_300_800, 0))), "1970-01-01T00:00:00.000Z");
    assert_eq!(format_timestamp(Some((253_402_300_799, 999))), "9999-12-31T23:59:59.999Z");
}

#[test]
fn shape_check() {
    assert!(is_utc_millis_text("2024-06-30T23:59:60.000Z"));
    assert!(!is_utc_millis_text("2024-13-01T00:00:00.000Z"));
    assert!(!is_utc_millis_text("2024-00-01T00:00:00.000Z"));
    assert!(!is_utc_millis_text("2024-01-00T00:00:00.000Z"));
    assert!(!is_utc_millis_text("2024-01-01T24:00:00.000Z"));
    assert!(!is_utc_millis_text("2024-01-01T00:00:00.000"));
    assert!(!is_utc_millis_text("2024-01-01 00:00:00.000Z"));
    assert!(!is_utc_millis_text("2024-01-01T00:00:00,000Z"));
    assert!(!is_utc_millis_text("2024-01-01T00:00:00.00aZ"));
    assert!(!is_utc_millis_text("2024-01-01T00:00:00.000\u{e9}"));
    assert!(!is_utc_millis_text(""));
}

#[test]
fn settle_keeps_good_and_replaces_bad() {
    assert_eq!(settle_timestamp(Some("2001-02-03T04:05:06.789Z".to_string())), "2001-02-03T04:05:06.789Z");
    assert_eq!(settle_timestamp(Some("yesterday".to_string())), "1970-01-01T00:00:00.000Z");
    assert_eq!(settle_timestamp(None), "1970-01-01T00:00:00.000Z");
}
