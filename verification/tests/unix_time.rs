use mcp_utc_time_server::error::ClockError;
use mcp_utc_time_server::time::unix::{read_clock, MAX_CALENDAR_SECONDS, MIN_CALENDAR_SECONDS};
use mcp_utc_time_server::time::UnixTime;

#[test]
fn unix_test_unix_time_precision() {
    let unix_time = UnixTime::now().expect("System time before Unix epoch");

    // Verify nanosecond precision
    assert!(unix_time.nanos < 1_000_000_000);
    assert!(unix_time.nanos_since_epoch > 0);

    // Verify conversion to timespec
    let timespec = unix_time.to_timespec();
    assert_eq!(timespec.tv_sec, unix_time.seconds);
    assert_eq!(timespec.tv_nsec as u32, unix_time.nanos);
}

#[test]
fn unix_test_time_conversions() {
    let unix_time = UnixTime::now().expect("System time before Unix epoch");

    let micros = unix_time.to_microseconds();
    let millis = unix_time.to_milliseconds();

    assert!(micros > unix_time.seconds * 1_000_000);
    assert!(millis > unix_time.seconds * 1000);
}

#[test]
fn the_clock_gives_instants_whose_parts_agree() {
    for _ in 0..100 {
        let t = UnixTime::now().expect("System time before Unix epoch");
        assert!(t.nanos < 1_000_000_000);
        assert_eq!(
            t.nanos_since_epoch,
            t.seconds as i128 * 1_000_000_000 + t.nanos as i128
        );
        assert!(t.is_renderable());
    }
}

#[test]
fn the_clock_is_read_near_the_system_time() {
    let before = std::time::SystemTime::now()
        .duration_since(std::time::UNIX_EPOCH)
        .unwrap()
        .as_secs();
    let (secs, nanos) = read_clock().unwrap();
    assert!(secs >= before && secs <= before + 5);
    assert!(nanos < 1_000_000_000);
    let t = UnixTime::now().expect("System time before Unix epoch");
    assert!(t.seconds as u64 >= before && t.seconds as u64 <= before + 5);
}

#[test]
fn an_instant_from_its_parts() {
    let t = UnixTime::new(1_700_000_000, 123_456_789).unwrap();
    assert_eq!(t.seconds, 1_700_000_000);
    assert_eq!(t.nanos, 123_456_789);
    assert_eq!(t.nanos_since_epoch, 1_700_000_000_123_456_789);
    assert_eq!(t.to_microseconds(), 1_700_000_000_123_456);
    assert_eq!(t.to_milliseconds(), 1_700_000_000_123);

    let early = UnixTime::new(-1, 999_999_999).unwrap();
    assert_eq!(early.nanos_since_epoch, -1);
    assert_eq!(early.to_microseconds(), -1);
    assert_eq!(early.to_milliseconds(), -1);

    assert!(UnixTime::new(0, 1_000_000_000).is_none());
    assert!(UnixTime::new(0, u32::MAX).is_none());
    assert!(UnixTime::new(0, 999_999_999).is_some());
}

#[test]
fn an_instant_from_a_reading_of_the_clock() {
    let t = UnixTime::from_reading(Some((12, 5))).unwrap();
    assert_eq!((t.seconds, t.nanos, t.nanos_since_epoch), (12, 5, 12_000_000_005));

    let far = UnixTime::from_reading(Some((i64::MAX as u64, 999_999_999))).unwrap();
    assert_eq!(far.seconds, i64::MAX);
    assert_eq!(
        far.nanos_since_epoch,
        i64::MAX as i128 * 1_000_000_000 + 999_999_999
    );

    // a clock before the epoch, and readings that stand for no instant
    assert_eq!(UnixTime::from_reading(None).unwrap_err(), ClockError::ClockUnavailable);
    assert_eq!(
        UnixTime::from_reading(Some((i64::MAX as u64 + 1, 0))).unwrap_err(),
        ClockError::ClockUnavailable
    );
    assert_eq!(
        UnixTime::from_reading(Some((u64::MAX, 7))).unwrap_err(),
        ClockError::ClockUnavailable
    );
    assert_eq!(
        UnixTime::from_reading(Some((5, 1_000_000_000))).unwrap_err(),
        ClockError::ClockUnavailable
    );
    assert_eq!(ClockError::ClockUnavailable.message(), "System clock unavailable");

    let epoch = UnixTime::epoch();
    assert_eq!((epoch.seconds, epoch.nanos, epoch.nanos_since_epoch), (0, 0, 0));
}

#[test]
fn instants_without_a_calendar_reading() {
    assert!(!UnixTime { seconds: 0, nanos: 1_000_000_000, nanos_since_epoch: 1_000_000_000 }
        .is_renderable());
    assert!(!UnixTime { seconds: 1, nanos: 0, nanos_since_epoch: 0 }.is_renderable());
    assert!(!UnixTime::new(MAX_CALENDAR_SECONDS + 1, 0).unwrap().is_renderable());
    assert!(!UnixTime::new(i64::MIN, 0).unwrap().is_renderable());
    assert!(UnixTime::new(MAX_CALENDAR_SECONDS, 0).unwrap().is_renderable());
}

#[test]
fn instants_that_can_be_shown() {
    for seconds in [
        MIN_CALENDAR_SECONDS,
        MAX_CALENDAR_SECONDS,
        MAX_CALENDAR_SECONDS + 1,
        MIN_CALENDAR_SECONDS - 1,
        1_000_000_000_000,
        -1_000_000_000_000,
        0,
    ] {
        assert!(UnixTime::new(seconds, 5).unwrap().is_held(), "{}", seconds);
        assert!(chrono::DateTime::from_timestamp(seconds, 5).is_some());
    }
    for seconds in [i64::MAX, i64::MIN, 200_000_000_000_000, -200_000_000_000_000] {
        assert!(!UnixTime::new(seconds, 5).unwrap().is_held(), "{}", seconds);
        assert!(chrono::DateTime::from_timestamp(seconds, 5).is_none());
    }
    assert!(!UnixTime { seconds: 1, nanos: 0, nanos_since_epoch: 0 }.is_held());
    assert!(!UnixTime { seconds: 0, nanos: 1_000_000_000, nanos_since_epoch: 1_000_000_000 }
        .is_held());
    for seconds in [-8_334_601_228_800i64 - 1, 8_210_266_876_799 + 1, 9_000_000_000_000] {
        assert_eq!(
            UnixTime::new(seconds, 0).unwrap().is_held(),
            chrono::DateTime::from_timestamp(seconds, 0).is_some()
        );
    }
}
