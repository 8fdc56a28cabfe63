//! Instants on the Unix time line, with nanosecond resolution.

use crate::error::ClockError;
use std::time::Duration;
use std::time::SystemTime;
use vstd::prelude::*;

verus! {

/// The nanoseconds in one second.
pub const NANOS_PER_SECOND: u32 = 1_000_000_000;

/// The first second of the calendar range: 0000-01-02T00:00:00Z.
pub const MIN_CALENDAR_SECONDS: i64 = -62_167_132_800;

/// The last second of the calendar range: 9999-12-30T23:59:59Z.
pub const MAX_CALENDAR_SECONDS: i64 = 253_402_214_399;

/// Whether an instant `seconds` after the epoch falls in the years 0 to 9999
/// on every wall clock, that is at every offset of less than a day from UTC.
pub open spec fn in_calendar_range(seconds: int) -> bool {
    MIN_CALENDAR_SECONDS <= seconds <= MAX_CALENDAR_SECONDS
}

/// Whether chrono holds an instant in the second `secs`: whether
/// `DateTime::from_timestamp` gives a value for it.
pub uninterp spec fn instant_held(secs: int) -> bool;

/// `chrono::DateTime::from_timestamp`, asked whether it gives a value for the
/// start of the second. The answer is a function of the second and is named
/// here. The function refuses every second whose day number does not fit 32
/// bits, so a second that it takes lies within two hundred million million
/// seconds of the epoch; and it takes every second of the years 0 to 9999,
/// which lie well inside the quarter of a million years that its dates span.
#[verifier::external_body]
fn chrono_holds(secs: i64) -> (r: bool)
    ensures
        r == instant_held(secs as int),
        r ==> -200_000_000_000_000 < secs < 200_000_000_000_000,
        in_calendar_range(secs as int) ==> r,
{
    chrono::DateTime::from_timestamp(secs, 0).is_some()
}

/// An instant: whole seconds since 1970-01-01T00:00:00Z, the nanoseconds
/// within that second, and the two as one count of nanoseconds.
#[derive(Debug, Clone, Copy)]
pub struct UnixTime {
    /// Seconds since the epoch.
    pub seconds: i64,
    /// Nanoseconds within the second.
    pub nanos: u32,
    /// Nanoseconds since the epoch.
    pub nanos_since_epoch: i128,
}

/// `std::time::SystemTime`, a reading of the system clock: carried from the
/// clock to the subtraction of the epoch, and not looked into.
#[verifier::external_type_specification]
#[verifier::external_body]
pub struct ExSystemTime(SystemTime);

/// `libc::timespec`, a time in seconds and nanoseconds: its two fields are
/// read as they are declared.
#[verifier::external_type_specification]
pub struct ExTimespec(libc::timespec);

/// `SystemTime::now`: the reading of the system clock. Nothing is claimed of
/// the reading.
#[verifier::external_body]
fn system_clock() -> (t: SystemTime) {
    SystemTime::now()
}

/// `SystemTime::duration_since` with the epoch as the earlier time: the time
/// the clock has run since the epoch, or `None` where the clock shows a time
/// before it. Nothing is claimed of which.
#[verifier::external_body]
fn since_epoch(t: &SystemTime) -> (d: Option<Duration>) {
    t.duration_since(std::time::UNIX_EPOCH).ok()
}

/// `Duration::as_secs` returns the whole seconds of the duration.
pub assume_specification[ Duration::as_secs ](d: &Duration) -> (s: u64)
;

/// `Duration::subsec_nanos` returns the part of the duration below one
/// second, in nanoseconds: always less than a thousand million.
pub assume_specification[ Duration::subsec_nanos ](d: &Duration) -> (n: u32)
    ensures
        n < 1_000_000_000,
;

/// Reads the system clock: the whole seconds and the nanoseconds that have
/// passed since the epoch, or `None` where the clock shows an earlier time.
pub fn read_clock() -> (r: Option<(u64, u32)>)
    ensures
        r matches Some(reading) ==> reading.1 < NANOS_PER_SECOND,
{
    let t = system_clock();
    match since_epoch(&t) {
        Some(d) => Some((d.as_secs(), d.subsec_nanos())),
        None => None,
    }
}

impl UnixTime {
    /// The parts agree: the nanoseconds are less than a second, and the count
    /// of nanoseconds is that of the seconds and the nanoseconds together.
    pub open spec fn wf(&self) -> bool {
        &&& self.nanos < NANOS_PER_SECOND
        &&& self.nanos_since_epoch == self.seconds * 1_000_000_000 + self.nanos
    }

    /// The instant falls in the calendar range.
    pub open spec fn in_range(&self) -> bool {
        in_calendar_range(self.seconds as int)
    }

    /// The whole microseconds since the epoch.
    pub open spec fn microseconds(&self) -> int {
        self.seconds * 1_000_000 + self.nanos / 1000
    }

    /// The whole milliseconds since the epoch.
    pub open spec fn milliseconds(&self) -> int {
        self.seconds * 1000 + self.nanos / 1_000_000
    }

    /// The instant `nanos` nanoseconds after the second `seconds`, where
    /// `nanos` is less than a second.
    pub fn new(seconds: i64, nanos: u32) -> (r: Option<UnixTime>)
        ensures
            r is Some <==> nanos < NANOS_PER_SECOND,
            r matches Some(t) ==> t.seconds == seconds && t.nanos == nanos && t.wf(),
    {
        if nanos < NANOS_PER_SECOND {
            Some(
                UnixTime {
                    seconds,
                    nanos,
                    nanos_since_epoch: (seconds as i128) * 1_000_000_000 + (nanos as i128),
                },
            )
        } else {
            None
        }
    }

    /// The epoch itself.
    pub fn epoch() -> (t: UnixTime)
        ensures
            t.seconds == 0,
            t.nanos == 0,
            t.nanos_since_epoch == 0,
            t.wf(),
            t.in_range(),
    {
        UnixTime { seconds: 0, nanos: 0, nanos_since_epoch: 0 }
    }

    /// The instant that a reading of the system clock stands for: `reading`
    /// holds the whole seconds and the nanoseconds that the clock has run
    /// since the epoch, and is `None` where the clock shows a time before
    /// the epoch.
    ///
    /// Fails with `ClockUnavailable` where the clock shows a time before the
    /// epoch, where its seconds are more than can be counted here, and where
    /// its nanoseconds are no part of a second; and on no other occasion.
    pub fn from_reading(reading: Option<(u64, u32)>) -> (r: Result<UnixTime, ClockError>)
        ensures
            match r {
                Ok(t) => reading matches Some(c) && c.0 <= i64::MAX && c.1 < NANOS_PER_SECOND
                    && t.seconds == c.0 && t.nanos == c.1 && t.wf(),
                Err(e) => e == ClockError::ClockUnavailable && !(reading matches Some(c) && c.0
                    <= i64::MAX && c.1 < NANOS_PER_SECOND),
            },
    {
        match reading {
            Some((secs, nanos)) => {
                if secs <= i64::MAX as u64 && nanos < NANOS_PER_SECOND {
                    let seconds: i64 = secs as i64;
                    Ok(
                        UnixTime {
                            seconds,
                            nanos,
                            nanos_since_epoch: (seconds as i128) * 1_000_000_000 + (nanos as i128),
                        },
                    )
                } else {
                    Err(ClockError::ClockUnavailable)
                }
            },
            None => Err(ClockError::ClockUnavailable),
        }
    }

    /// The instant that the system clock shows.
    ///
    /// Fails with `ClockUnavailable` where the clock gives no reading that
    /// stands for an instant: see `from_reading`, which takes the reading.
    pub fn now() -> (r: Result<UnixTime, ClockError>)
        ensures
            match r {
                Ok(t) => t.wf() && t.seconds >= 0,
                Err(e) => e == ClockError::ClockUnavailable,
            },
    {
        UnixTime::from_reading(read_clock())
    }

    /// The parts agree, and chrono holds the instant: only such an instant
    /// can be shown on a wall clock or rendered.
    pub open spec fn held(&self) -> bool {
        self.wf() && instant_held(self.seconds as int)
    }

    /// Tests that the parts agree and that chrono holds the instant. It
    /// holds every instant of the calendar range, and none that is two
    /// hundred million million seconds or more from the epoch.
    pub fn is_held(&self) -> (r: bool)
        ensures
            r == self.held(),
            r ==> -200_000_000_000_000 < self.seconds < 200_000_000_000_000,
            self.wf() && self.in_range() ==> r,
    {
        self.nanos < NANOS_PER_SECOND && self.nanos_since_epoch == (self.seconds as i128)
            * 1_000_000_000 + (self.nanos as i128) && chrono_holds(self.seconds)
    }

    /// Tests that the parts agree and that the instant falls in the calendar
    /// range: only such an instant has a snapshot. Chrono holds every such
    /// instant.
    pub fn is_renderable(&self) -> (r: bool)
        ensures
            r == (self.wf() && self.in_range()),
            r ==> self.held(),
    {
        MIN_CALENDAR_SECONDS <= self.seconds && self.seconds <= MAX_CALENDAR_SECONDS
            && self.is_held()
    }

    /// The instant as the C library holds a time: seconds and nanoseconds.
    pub fn to_timespec(&self) -> (r: libc::timespec)
        ensures
            r.tv_sec == self.seconds,
            r.tv_nsec == self.nanos,
    {
        libc::timespec { tv_sec: self.seconds, tv_nsec: self.nanos as i64 }
    }

    /// The whole microseconds since the epoch.
    pub fn to_microseconds(&self) -> (r: i64)
        requires
            i64::MIN <= self.microseconds() <= i64::MAX,
        ensures
            r == self.microseconds(),
    {
        let wide: i128 = (self.seconds as i128) * 1_000_000 + (self.nanos as i128 / 1000);
        wide as i64
    }

    /// The whole milliseconds since the epoch.
    pub fn to_milliseconds(&self) -> (r: i64)
        requires
            i64::MIN <= self.milliseconds() <= i64::MAX,
        ensures
            r == self.milliseconds(),
    {
        let wide: i128 = (self.seconds as i128) * 1000 + (self.nanos as i128 / 1_000_000);
        wide as i64
    }
}

} // verus!
