use link_with_mentor::datetime::{parse_datetime, format_datetime, dt_le};

#[test]
fn parse_accepts_the_fixed_pattern() {
    let dt = parse_datetime("2025-12-01 10:00:00").unwrap();
    assert_eq!(dt.year, 2025);
    assert_eq!(dt.month, 12);
    assert_eq!(dt.day, 1);
    assert_eq!(dt.hour, 10);
    assert_eq!(dt.minute, 0);
    assert_eq!(dt.second, 0);
}

#[test]
fn parse_rejects_other_shapes() {
    assert!(parse_datetime("2025-12-01").is_none());
    assert!(parse_datetime("2025-12-01T10:00:00").is_none());
    assert!(parse_datetime("2025-12-1 10:00:00").is_none());
    assert!(parse_datetime("2025-12-01 10:00:00 ").is_none());
}

#[test]
fn parse_rejects_calendar_invalid_fields() {
    assert!(parse_datetime("2025-13-01 10:00:00").is_none());
    assert!(parse_datetime("2025-00-01 10:00:00").is_none());
    assert!(parse_datetime("2025-02-29 10:00:00").is_none());
    assert!(parse_datetime("2025-04-31 10:00:00").is_none());
    assert!(parse_datetime("2025-04-30 24:00:00").is_none());
    assert!(parse_datetime("2025-04-30 10:60:00").is_none());
}

#[test]
fn parse_knows_leap_years() {
    assert!(parse_datetime("2024-02-29 00:00:00").is_some());
    assert!(parse_datetime("2000-02-29 00:00:00").is_some());
    assert!(parse_datetime("1900-02-29 00:00:00").is_none());
}

#[test]
fn format_round_trips_a_parsed_time() {
    let text = "2031-07-09 23:59:59";
    let dt = parse_datetime(text).unwrap();
    assert_eq!(format_datetime(&dt), text);
}

#[test]
fn timestamp_order_is_field_by_field() {
    let early = parse_datetime("2025-03-01 09:00:00").unwrap();
    let late = parse_datetime("2025-03-01 09:00:01").unwrap();
    assert!(dt_le(&early, &late));
    assert!(!dt_le(&late, &early));
    assert!(dt_le(&early, &early));
}
