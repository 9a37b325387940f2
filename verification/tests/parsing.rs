//! Timestamp parsing tests: both wire forms, and the strings that must be
//! rejected.

use bittrex::parse::parse_timestamp;

/// Tests that the date/time parsing from the API is done properly.
#[test]
fn it_date_time_parsing() {
    let creation = parse_timestamp("2014-02-13T00:00:00").unwrap();

    assert_eq!(creation.year, 2014);
    assert_eq!(creation.month, 2);
    assert_eq!(creation.day, 13);

    assert_eq!(creation.hour, 0);
    assert_eq!(creation.minute, 0);
    assert_eq!(creation.second, 0);
    assert_eq!(creation.nanosecond, 0);

    let creation = parse_timestamp("2014-11-03T19:02:45.96").unwrap();

    assert_eq!(creation.year, 2014);
    assert_eq!(creation.month, 11);
    assert_eq!(creation.day, 3);

    assert_eq!(creation.hour, 19);
    assert_eq!(creation.minute, 2);
    assert_eq!(creation.second, 45);
    assert_eq!(creation.nanosecond, 960000000);
}

/// Fractional parts scale per digit count: one digit counts tenths, nine
/// count nanoseconds.
#[test]
fn it_fraction_scaling() {
    assert_eq!(parse_timestamp("2020-06-01T12:30:05.5").unwrap().nanosecond, 500000000);
    assert_eq!(parse_timestamp("2020-06-01T12:30:05.123").unwrap().nanosecond, 123000000);
    assert_eq!(parse_timestamp("2020-06-01T12:30:05.000000001").unwrap().nanosecond, 1);
    assert_eq!(parse_timestamp("2020-06-01T12:30:05.999999999").unwrap().nanosecond, 999999999);
}

/// The 29th of February exists exactly in leap years, century rules
/// included.
#[test]
fn it_leap_years() {
    assert!(parse_timestamp("2016-02-29T00:00:00").is_some());
    assert!(parse_timestamp("2015-02-29T00:00:00").is_none());
    assert!(parse_timestamp("2000-02-29T00:00:00").is_some());
    assert!(parse_timestamp("1900-02-29T00:00:00").is_none());
    assert!(parse_timestamp("2016-02-30T00:00:00").is_none());
}

/// Malformed strings are rejected rather than misread.
#[test]
fn it_rejects_malformed_timestamps() {
    assert!(parse_timestamp("").is_none());
    assert!(parse_timestamp("2014-02-13").is_none());
    assert!(parse_timestamp("2014-02-13 00:00:00").is_none());
    assert!(parse_timestamp("2014-02-13T00:00:00.").is_none());
    assert!(parse_timestamp("2014-02-13T00:00:00.0000000001").is_none());
    assert!(parse_timestamp("2014-13-01T00:00:00").is_none());
    assert!(parse_timestamp("2014-00-01T00:00:00").is_none());
    assert!(parse_timestamp("2014-04-31T00:00:00").is_none());
    assert!(parse_timestamp("2014-02-13T24:00:00").is_none());
    assert!(parse_timestamp("2014-02-13T00:60:00").is_none());
    assert!(parse_timestamp("2014-02-13T00:00:60").is_none());
    assert!(parse_timestamp("2o14-02-13T00:00:00").is_none());
    assert!(parse_timestamp("2014-02-13T00:00:0x.5").is_none());
}

/// The months of thirty days.
#[test]
fn it_month_lengths() {
    assert!(parse_timestamp("2014-04-30T23:59:59").is_some());
    assert!(parse_timestamp("2014-06-30T23:59:59").is_some());
    assert!(parse_timestamp("2014-09-31T23:59:59").is_none());
    assert!(parse_timestamp("2014-11-31T23:59:59").is_none());
    assert!(parse_timestamp("2014-12-31T23:59:59").is_some());
    assert!(parse_timestamp("2014-01-31T00:00:00").is_some());
}
