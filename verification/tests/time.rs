//! Date formatting and parsing against the real epoch library.

use mongoose::errors::FormatError;
use mongoose::time::{
    format_truncated_date, get_metafits_epoch, get_truncated_date_string, parse_datetime, DateTime,
};

#[test]
fn truncated_date_from_epoch() {
    // MJD 56580.575370370374; the MJD epoch (1858-11-17) is 1297728000
    // seconds before the TAI epoch (1900-01-01).
    let mjd = 56580.575370370374f64;
    let epoch = hifitime::Epoch::from_tai_seconds(mjd * 24.0 * 3600.0 - 1297728000.0);
    assert_eq!(get_truncated_date_string(&epoch), "2013-10-15T00:00:00.0");
}

#[test]
fn truncated_date_format() {
    assert_eq!(format_truncated_date(2013, 10, 15), "2013-10-15T00:00:00.0");
    // Single-digit months and days are zero-padded to two digits.
    assert_eq!(format_truncated_date(2021, 3, 7), "2021-03-07T00:00:00.0");
}

#[test]
fn parse_valid_datetime() {
    let dt = parse_datetime("2013-10-15T13:48:32").unwrap();
    assert_eq!(
        dt,
        DateTime {
            year: 2013,
            month: 10,
            day: 15,
            hour: 13,
            minute: 48,
            second: 32,
        }
    );
    // A leap day parses in a leap year only.
    assert!(parse_datetime("2012-02-29T00:00:00").is_ok());
    assert!(matches!(
        parse_datetime("2013-02-29T00:00:00"),
        Err(FormatError::BadDateString)
    ));
}

#[test]
fn parse_rejects_malformed_datetimes() {
    for bad in [
        "",
        "2013-10-15",
        "2013-10-15T13:48:3",
        "2013-10-15 13:48:32",
        "2013-10-15T13:48:3x",
        "2013-13-15T13:48:32",
        "2013-10-00T13:48:32",
        "2013-10-15T24:48:32",
        "2013-10-15T13:60:32",
        "2013-10-15T13:48:60",
    ] {
        assert!(
            matches!(parse_datetime(bad), Err(FormatError::BadDateString)),
            "{bad:?} should not parse"
        );
    }
}

#[test]
fn metafits_epoch_matches_its_text() {
    let epoch = get_metafits_epoch("2013-10-15T13:48:32").unwrap();
    let (year, month, day, hour, minute, second, _nanos) = epoch.to_gregorian_utc();
    assert_eq!(
        (year, month, day, hour, minute, second),
        (2013, 10, 15, 13, 48, 32)
    );
    assert!(get_metafits_epoch("not a date").is_err());
}
