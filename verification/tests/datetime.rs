use marzban_api::datetime::{format_datetime, parse_datetime, parse_some_datetime, DateTimeUtc};

fn dt(
    year: u16,
    month: u8,
    day: u8,
    hour: u8,
    minute: u8,
    second: u8,
    nanosecond: u32,
) -> DateTimeUtc {
    DateTimeUtc { year, month, day, hour, minute, second, nanosecond }
}

#[test]
fn parse_plain_timestamp() {
    let parsed = parse_datetime("2024-03-01T12:34:56");
    assert_eq!(parsed, Some(dt(2024, 3, 1, 12, 34, 56, 0)));
}

#[test]
fn parse_fractional_timestamp() {
    assert_eq!(
        parse_datetime("2024-03-01T12:34:56.5"),
        Some(dt(2024, 3, 1, 12, 34, 56, 500_000_000))
    );
    assert_eq!(
        parse_datetime("2024-03-01T12:34:56.123456789"),
        Some(dt(2024, 3, 1, 12, 34, 56, 123_456_789))
    );
}

#[test]
fn parse_rejects_malformed_text() {
    assert_eq!(parse_datetime(""), None);
    assert_eq!(parse_datetime("2024-03-01"), None);
    assert_eq!(parse_datetime("2024-03-01T12:34:5"), None);
    assert_eq!(parse_datetime("2024-03-01T12:34:56."), None);
    assert_eq!(parse_datetime("2024-03-01T12:34:56.1234567890"), None);
    assert_eq!(parse_datetime("2024-03-01 12:34:56"), None);
    assert_eq!(parse_datetime("2024-03-01T12.34.56"), None);
    assert_eq!(parse_datetime("20x4-03-01T12:34:56"), None);
}

#[test]
fn parse_rejects_impossible_instants() {
    assert_eq!(parse_datetime("2024-13-01T00:00:00"), None);
    assert_eq!(parse_datetime("2024-00-01T00:00:00"), None);
    assert_eq!(parse_datetime("2024-04-31T00:00:00"), None);
    assert_eq!(parse_datetime("2024-03-01T24:00:00"), None);
    assert_eq!(parse_datetime("2024-03-01T12:60:00"), None);
    assert_eq!(parse_datetime("2024-03-01T12:00:60"), None);
}

#[test]
fn leap_year_rules() {
    assert!(parse_datetime("2024-02-29T00:00:00").is_some());
    assert_eq!(parse_datetime("2023-02-29T00:00:00"), None);
    assert!(parse_datetime("2000-02-29T00:00:00").is_some());
    assert_eq!(parse_datetime("1900-02-29T00:00:00"), None);
}

#[test]
fn format_is_canonical() {
    assert_eq!(format_datetime(&dt(2024, 3, 1, 12, 34, 56, 0)), "2024-03-01T12:34:56");
    assert_eq!(format_datetime(&dt(7, 1, 2, 3, 4, 5, 0)), "0007-01-02T03:04:05");
    assert_eq!(
        format_datetime(&dt(2024, 3, 1, 12, 34, 56, 123_456_789)),
        "2024-03-01T12:34:56.123456789"
    );
    assert_eq!(
        format_datetime(&dt(2024, 3, 1, 12, 34, 56, 500_000_000)),
        "2024-03-01T12:34:56.500000000"
    );
}

#[test]
fn format_then_parse_round_trips() {
    let samples = [
        dt(2024, 3, 1, 12, 34, 56, 0),
        dt(7, 1, 2, 3, 4, 5, 0),
        dt(2024, 2, 29, 23, 59, 59, 999_999_999),
        dt(0, 1, 1, 0, 0, 0, 1),
        dt(9999, 12, 31, 23, 59, 59, 0),
    ];
    for sample in samples {
        let text = format_datetime(&sample);
        assert_eq!(parse_datetime(&text), Some(sample));
    }
}

#[test]
fn validate_checks_the_calendar() {
    assert!(dt(2024, 2, 29, 0, 0, 0, 0).validate());
    assert!(!dt(2023, 2, 29, 0, 0, 0, 0).validate());
    assert!(!dt(2024, 3, 1, 0, 0, 0, 1_000_000_000).validate());
    assert!(dt(2024, 3, 1, 0, 0, 0, 999_999_999).validate());
}

#[test]
fn parse_some_datetime_treats_absent_and_empty_alike() {
    assert_eq!(parse_some_datetime(None), Some(None));
    assert_eq!(parse_some_datetime(Some("")), Some(None));
    assert_eq!(
        parse_some_datetime(Some("2024-03-01T12:34:56")),
        Some(Some(dt(2024, 3, 1, 12, 34, 56, 0)))
    );
    assert_eq!(parse_some_datetime(Some("not a date")), None);
}
