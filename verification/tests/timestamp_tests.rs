use blob_storage::error::Error;
use blob_storage::timestamp::{parse_timespec, DateTime};

fn dt(year: u16, month: u8, day: u8, hour: u8, minute: u8, second: u8) -> DateTime {
    DateTime { year, month, day, hour, minute, second }
}

#[test]
fn test_parse_timespec() {
    // Test valid conversions
    assert_eq!(
        parse_timespec("Thu, 1 Jan 1970 00:00:00 GMT").unwrap(),
        dt(1970, 1, 1, 0, 0, 0),
    );
    assert_eq!(
        parse_timespec("Mon, 16 Apr 2018 04:33:50 GMT").unwrap(),
        dt(2018, 4, 16, 4, 33, 50),
    );

    // Test invalid conversion
    assert!(parse_timespec("foo").is_err());
}

#[test]
fn test_parse_timespec_error_kind() {
    assert_eq!(parse_timespec("foo"), Err(Error::MalformedTimestamp));
    assert_eq!(parse_timespec(""), Err(Error::MalformedTimestamp));
}

#[test]
fn test_parse_timespec_without_suffix() {
    // The " GMT" literal is stripped if present; the naive remainder alone
    // also parses.
    assert_eq!(
        parse_timespec("Thu, 1 Jan 1970 00:00:00").unwrap(),
        dt(1970, 1, 1, 0, 0, 0),
    );
    // Stripping is repeated, as trailing-match trimming is.
    assert_eq!(
        parse_timespec("Thu, 1 Jan 1970 00:00:00 GMT GMT").unwrap(),
        dt(1970, 1, 1, 0, 0, 0),
    );
}

#[test]
fn test_parse_timespec_two_digit_day() {
    assert_eq!(
        parse_timespec("Sat, 29 Feb 2020 12:30:05 GMT").unwrap(),
        dt(2020, 2, 29, 12, 30, 5),
    );
}

#[test]
fn test_parse_timespec_invalid_calendar_values() {
    // February 29 of a non-leap year.
    assert_eq!(
        parse_timespec("Mon, 29 Feb 2021 00:00:00 GMT"),
        Err(Error::MalformedTimestamp)
    );
    // Day out of range.
    assert_eq!(
        parse_timespec("Wed, 31 Apr 2019 00:00:00 GMT"),
        Err(Error::MalformedTimestamp)
    );
    // Hour, minute, second out of range.
    assert_eq!(
        parse_timespec("Thu, 1 Jan 1970 24:00:00 GMT"),
        Err(Error::MalformedTimestamp)
    );
    assert_eq!(
        parse_timespec("Thu, 1 Jan 1970 00:60:00 GMT"),
        Err(Error::MalformedTimestamp)
    );
    assert_eq!(
        parse_timespec("Thu, 1 Jan 1970 00:00:60 GMT"),
        Err(Error::MalformedTimestamp)
    );
    // Day zero.
    assert_eq!(
        parse_timespec("Thu, 0 Jan 1970 00:00:00 GMT"),
        Err(Error::MalformedTimestamp)
    );
}

#[test]
fn test_parse_timespec_weekday_must_match_date() {
    // 16 Apr 2018 was a Monday, not a Tuesday.
    assert_eq!(
        parse_timespec("Tue, 16 Apr 2018 04:33:50 GMT"),
        Err(Error::MalformedTimestamp)
    );
}

#[test]
fn test_parse_timespec_malformed_layout() {
    // Wrong field count / separators / names.
    assert_eq!(
        parse_timespec("Thu 1 Jan 1970 00:00:00 GMT"),
        Err(Error::MalformedTimestamp)
    );
    assert_eq!(
        parse_timespec("Xxx, 1 Jan 1970 00:00:00 GMT"),
        Err(Error::MalformedTimestamp)
    );
    assert_eq!(
        parse_timespec("Thu, 1 Foo 1970 00:00:00 GMT"),
        Err(Error::MalformedTimestamp)
    );
    assert_eq!(
        parse_timespec("Thu, 1 Jan 70 00:00:00 GMT"),
        Err(Error::MalformedTimestamp)
    );
    assert_eq!(
        parse_timespec("Thu, 1 Jan 1970 00-00-00 GMT"),
        Err(Error::MalformedTimestamp)
    );
    assert_eq!(
        parse_timespec("Thu, 1 Jan 1970 00:00:00 GMT extra"),
        Err(Error::MalformedTimestamp)
    );
}
