use chrono::Datelike;
use mcp_utc_time_server::error::TimeError;
use mcp_utc_time_server::time::unix::{MAX_CALENDAR_SECONDS, MIN_CALENDAR_SECONDS};
use mcp_utc_time_server::time::{StandardFormats, StrftimeFormatter, UnixTime};

#[test]
fn formats_test_strftime_formats() {
    let now = UnixTime::now().expect("System time before Unix epoch");
    let year = chrono::DateTime::from_timestamp(now.seconds, now.nanos)
        .unwrap()
        .year();

    // Test standard formats
    let iso = StrftimeFormatter::format(&now, StandardFormats::ISO_8601).unwrap();
    assert!(iso.contains("T"));

    let unix_date = StrftimeFormatter::format(&now, StandardFormats::UNIX_DATE).unwrap();
    assert!(unix_date.contains(&year.to_string()));

    // Test custom format
    let custom = StrftimeFormatter::format(&now, "%Y-%m-%d %H:%M:%S").unwrap();
    assert_eq!(custom.len(), 19);
}

fn at(seconds: i64, nanos: u32) -> UnixTime {
    UnixTime::new(seconds, nanos).unwrap()
}

#[test]
fn a_date_under_a_pattern() {
    let t = at(1_700_000_000, 0);
    assert_eq!(StrftimeFormatter::format(&t, "%Y-%m-%d").unwrap(), "2023-11-14");
    assert_eq!(StrftimeFormatter::format(&t, "%H:%M:%S").unwrap(), "22:13:20");
    assert_eq!(StrftimeFormatter::format(&t, "%s").unwrap(), "1700000000");
    assert_eq!(StrftimeFormatter::format(&t, "").unwrap(), "");
    assert_eq!(StrftimeFormatter::format(&t, "plain %% text").unwrap(), "plain % text");
}

#[test]
fn the_standard_patterns() {
    let t = at(1_700_000_000, 123_456_789);
    assert_eq!(
        StrftimeFormatter::format(&t, StandardFormats::ISO_8601).unwrap(),
        "2023-11-14T22:13:20.123456789+00:00"
    );
    assert_eq!(
        StrftimeFormatter::format(&t, StandardFormats::RFC_3339).unwrap(),
        "2023-11-14 22:13:20.123456789 +00:00"
    );
    assert_eq!(
        StrftimeFormatter::format(&t, StandardFormats::RFC_2822).unwrap(),
        "Tue, 14 Nov 2023 22:13:20 +0000"
    );
    assert_eq!(
        StrftimeFormatter::format(&t, StandardFormats::CTIME).unwrap(),
        "Tue Nov 14 22:13:20 2023"
    );
    assert_eq!(
        StrftimeFormatter::format(&t, StandardFormats::UNIX_DATE).unwrap(),
        "Tue Nov 14 22:13:20 UTC 2023"
    );
    assert_eq!(
        StrftimeFormatter::format(&t, StandardFormats::SYSLOG).unwrap(),
        "Nov 14 22:13:20"
    );
    assert_eq!(
        StrftimeFormatter::format(&t, StandardFormats::APACHE_LOG).unwrap(),
        "14/Nov/2023:22:13:20 +0000"
    );
    assert_eq!(
        StrftimeFormatter::format(&t, StandardFormats::UNIX_TIMESTAMP).unwrap(),
        "1700000000"
    );
}

#[test]
fn a_pattern_that_cannot_be_rendered() {
    let t = at(1_700_000_000, 0);
    for pattern in ["%Q", "%", "%Y-%", "%-", "%!"] {
        match StrftimeFormatter::format(&t, pattern) {
            Err(TimeError::FormatError(p)) => assert_eq!(p, pattern),
            other => panic!("{:?}: {:?}", pattern, other),
        }
    }
    assert_eq!(
        TimeError::FormatError("%Q".to_string()).message(),
        "Invalid format: %Q"
    );
}

#[test]
fn an_instant_without_a_calendar_reading() {
    let broken = UnixTime { seconds: 5, nanos: 0, nanos_since_epoch: 6 };
    assert!(matches!(
        StrftimeFormatter::format(&broken, "%Y"),
        Err(TimeError::OutOfRange)
    ));
    assert!(matches!(
        StrftimeFormatter::format(&at(i64::MAX, 0), "%Y"),
        Err(TimeError::OutOfRange)
    ));
    assert!(matches!(
        StrftimeFormatter::format(&at(i64::MIN, 0), "%Y"),
        Err(TimeError::OutOfRange)
    ));
    assert!(matches!(
        StrftimeFormatter::format(&at(i64::MAX, 0), "%Q"),
        Err(TimeError::OutOfRange)
    ));
    assert_eq!(TimeError::OutOfRange.message(), "Invalid timestamp");
}

#[test]
fn instants_outside_the_years_of_four_digits() {
    assert_eq!(
        StrftimeFormatter::format(&at(MAX_CALENDAR_SECONDS + 1, 0), "%Y-%m-%d %H:%M:%S").unwrap(),
        "9999-12-31 00:00:00"
    );
    assert_eq!(
        StrftimeFormatter::format(&at(253_402_300_800, 0), "%Y-%m-%d").unwrap(),
        "+10000-01-01"
    );
    assert_eq!(
        StrftimeFormatter::format(&at(MIN_CALENDAR_SECONDS - 86_401, 0), "%Y-%m-%d").unwrap(),
        "-0001-12-31"
    );
    assert_eq!(
        StrftimeFormatter::format(&at(1_000_000_000_000, 0), "%Y %s").unwrap(),
        "+33658 1000000000000"
    );
}

#[test]
fn the_ends_of_the_calendar_range() {
    assert_eq!(
        StrftimeFormatter::format(&at(MIN_CALENDAR_SECONDS, 0), "%Y-%m-%dT%H:%M:%S").unwrap(),
        "0000-01-02T00:00:00"
    );
    assert_eq!(
        StrftimeFormatter::format(&at(MAX_CALENDAR_SECONDS, 999_999_999), "%Y-%m-%dT%H:%M:%S%.9f")
            .unwrap(),
        "9999-12-30T23:59:59.999999999"
    );
}
