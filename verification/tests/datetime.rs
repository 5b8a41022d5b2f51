use chrono::{Datelike, TimeZone, Timelike, Utc};
use wrldbldr_domain::datetime::{instant_or, parse_datetime, parse_datetime_or};
use wrldbldr_domain::value_objects::Timestamp;

fn to_chrono(t: Timestamp) -> chrono::DateTime<Utc> {
    Utc.timestamp_opt(t.unix_seconds, t.subsec_nanos).unwrap()
}

fn from_chrono(dt: chrono::DateTime<Utc>) -> Timestamp {
    Timestamp::from_unix(dt.timestamp(), dt.timestamp_subsec_nanos())
}

#[test]
fn test_parse_datetime_valid() {
    let dt = to_chrono(parse_datetime("2024-01-15T10:30:00Z").unwrap());
    assert_eq!(dt.year(), 2024);
    assert_eq!(dt.month(), 1);
    assert_eq!(dt.day(), 15);
    assert_eq!(dt.hour(), 10);
    assert_eq!(dt.minute(), 30);
}

#[test]
fn test_parse_datetime_with_timezone() {
    let dt = to_chrono(parse_datetime("2024-01-15T10:30:00+05:00").unwrap());
    assert_eq!(dt.hour(), 5);
}

#[test]
fn test_parse_datetime_invalid() {
    assert!(parse_datetime("not-a-date").is_err());
    assert!(parse_datetime("").is_err());
    assert!(parse_datetime("2024-01-15").is_err());
}

#[test]
fn test_parse_datetime_or_valid() {
    let default = from_chrono(Utc.with_ymd_and_hms(2020, 1, 1, 0, 0, 0).unwrap());
    let dt = to_chrono(parse_datetime_or("2024-01-15T10:30:00Z", default));
    assert_eq!(dt.year(), 2024);
}

#[test]
fn test_parse_datetime_or_invalid_returns_default() {
    let default = from_chrono(Utc.with_ymd_and_hms(2020, 6, 15, 12, 0, 0).unwrap());
    let dt = parse_datetime_or("invalid", default);
    assert_eq!(dt, default);
}

#[test]
fn test_parse_datetime_or_empty_returns_default() {
    let default = from_chrono(Utc.with_ymd_and_hms(2020, 1, 1, 0, 0, 0).unwrap());
    let dt = parse_datetime_or("", default);
    assert_eq!(dt, default);
}

#[test]
fn parse_keeps_fractional_seconds() {
    let t = parse_datetime("1970-01-01T00:00:01.5Z").unwrap();
    assert_eq!(t, Timestamp::from_unix(1, 500_000_000));
    assert_eq!(instant_or(None, t), t);
    assert_eq!(instant_or(Some((7, 0)), t), Timestamp::from_unix(7, 0));
}
