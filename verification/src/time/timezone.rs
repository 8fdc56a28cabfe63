//! Timezones of the IANA database: their names, and the wall clock that each
//! shows at an instant.

use crate::error::TimeError;
use crate::text::contains;
use crate::text::contains_text;
use crate::text::to_chars;
use crate::time::formats::text_of;
use crate::time::unix::in_calendar_range;
use crate::time::unix::instant_held;
use crate::time::unix::UnixTime;
use chrono::Offset;
use chrono::TimeZone;
use vstd::prelude::*;

verus! {

/// Whether chrono-tz reads `name` as the name of a timezone.
pub uninterp spec fn zone_known(name: Seq<char>) -> bool;

/// The seconds by which the wall clock of the zone `name` is ahead of UTC at
/// the second `secs`, as chrono-tz gives them.
pub uninterp spec fn zone_offset(name: Seq<char>, secs: int) -> int;

/// The abbreviation that chrono-tz shows for the zone `name` at the second
/// `secs`.
pub uninterp spec fn zone_abbreviation(name: Seq<char>, secs: int) -> Seq<char>;

/// What chrono's `DateTime::format` writes for the instant `nanos`
/// nanoseconds after the second `secs`, as the wall clock of the zone `name`
/// shows it, under `pattern`; `None` where it reports the pattern as one it
/// cannot render.
pub uninterp spec fn zone_strftime_text(
    secs: int,
    nanos: int,
    name: Seq<char>,
    pattern: Seq<char>,
) -> Option<Seq<char>>;

/// The name of the timezone at place `index` of chrono-tz's table of zones,
/// `None` past its end.
pub uninterp spec fn zone_name_at(index: int) -> Option<Seq<char>>;

/// `<chrono_tz::Tz as FromStr>::from_str`: whether the name is one of the
/// database. The answer is a function of the name and is only named here.
#[verifier::external_body]
fn zone_is_known(name: &str) -> (r: bool)
    ensures
        r == zone_known(name@),
{
    name.parse::<chrono_tz::Tz>().is_ok()
}

/// `chrono_tz::Tz::offset_from_utc_datetime`, read through `Offset::fix` and
/// `FixedOffset::local_minus_utc`: the offset of the zone at the instant. It
/// is a function of the name and the second and is named here; a
/// `FixedOffset` is always less than a day, in either direction. The name
/// must be one that parses, and the second one that chrono holds.
#[verifier::external_body]
fn zone_offset_at(name: &str, secs: i64) -> (r: i32)
    requires
        zone_known(name@),
        instant_held(secs as int),
    ensures
        r == zone_offset(name@, secs as int),
        -86_400 < r < 86_400,
{
    let zone: chrono_tz::Tz = name.parse().unwrap();
    let moment = chrono::DateTime::from_timestamp(secs, 0).unwrap().naive_utc();
    zone.offset_from_utc_datetime(&moment).fix().local_minus_utc()
}

/// `Display` of `chrono_tz::TzOffset`: the abbreviation in force in the zone
/// at the instant (`EST`, `EDT`, or a signed number of hours and minutes
/// where the database has no letters; chrono-tz holds no zone without
/// letters whose offset has a fraction of a minute, which it could not
/// write). It is a function of the name and the second and is only named
/// here. The name must be one that parses, and the second one that chrono
/// holds.
#[verifier::external_body]
fn zone_abbreviation_at(name: &str, secs: i64) -> (r: String)
    requires
        zone_known(name@),
        instant_held(secs as int),
    ensures
        r@ == zone_abbreviation(name@, secs as int),
{
    let zone: chrono_tz::Tz = name.parse().unwrap();
    let moment = chrono::DateTime::from_timestamp(secs, 0).unwrap().naive_utc();
    zone.offset_from_utc_datetime(&moment).to_string()
}

/// `chrono::DateTime::<chrono_tz::Tz>::format`, written out through
/// `DelayedFormat::write_to`: the text that chrono renders for the instant on
/// the wall clock of the zone under `pattern`, `None` where the rendering
/// reports an error. The result is a function of the four arguments and is
/// only named here. The name must be one that parses, and the instant one
/// that chrono represents; the zone is written as its `Display` writes it.
#[verifier::external_body]
pub(crate) fn render_in_zone(secs: i64, nanos: u32, name: &str, pattern: &str) -> (r: Option<
    String,
>)
    requires
        zone_known(name@),
        in_calendar_range(secs as int),
        nanos < 1_000_000_000,
    ensures
        text_of(r) == zone_strftime_text(secs as int, nanos as int, name@, pattern@),
{
    let zone: chrono_tz::Tz = name.parse().unwrap();
    let moment = chrono::DateTime::from_timestamp(secs, nanos).unwrap().with_timezone(&zone);
    let mut out = String::new();
    match moment.format(pattern).write_to(&mut out) {
        Ok(()) => Some(out),
        Err(_) => None,
    }
}

/// `chrono_tz::TZ_VARIANTS`, one entry at a time, through `Display` of
/// `chrono_tz::Tz`: the name of the zone at `index` of the table, `None` past
/// its end. The table is fixed, so the name is a function of the index. Each
/// entry of the table is written by the name under which the table of names
/// holds it, so every name that is given here parses.
#[verifier::external_body]
fn zone_name(index: usize) -> (r: Option<String>)
    ensures
        text_of(r) == zone_name_at(index as int),
        r matches Some(name) ==> zone_known(name@),
{
    match chrono_tz::TZ_VARIANTS.get(index) {
        Some(zone) => Some(zone.to_string()),
        None => None,
    }
}

/// The wall-clock seconds of a clock that is `offset` seconds ahead of UTC,
/// at the UTC second `seconds`.
pub open spec fn local_from_utc(seconds: int, offset: int) -> int {
    seconds + offset
}

/// The UTC second at which a clock that is `offset` seconds ahead of UTC
/// shows the wall-clock seconds `local`.
pub open spec fn utc_from_local(local: int, offset: int) -> int {
    local - offset
}

/// Reading a wall clock and turning the reading back gives the instant that
/// was read, whatever the offset of the clock.
pub proof fn lemma_local_round_trip(seconds: int, offset: int)
    ensures
        utc_from_local(local_from_utc(seconds, offset), offset) == seconds,
{
}

/// What a timezone is called and how far its clock is from UTC.
#[derive(Debug, Clone)]
pub struct TimezoneInfo {
    pub name: String,
    pub offset_seconds: i32,
    pub abbreviation: String,
    pub is_dst: bool,
}

/// An instant as a wall clock shows it: the instant itself, the offset of the
/// clock, and the clock's reading in seconds.
#[derive(Debug, Clone)]
pub struct LocalInstant {
    /// Seconds since the epoch: the instant itself.
    pub seconds: i64,
    /// Nanoseconds within the second.
    pub nanos: u32,
    /// Seconds by which the wall clock is ahead of UTC.
    pub offset_seconds: i32,
    /// The wall clock's reading, in seconds.
    pub local_seconds: i64,
    /// The abbreviation that the clock goes by.
    pub abbreviation: String,
}

impl LocalInstant {
    /// The offset is less than a day, and the reading is the instant moved by
    /// the offset.
    pub open spec fn wf(&self) -> bool {
        &&& self.nanos < 1_000_000_000
        &&& -86_400 < self.offset_seconds < 86_400
        &&& self.local_seconds == local_from_utc(self.seconds as int, self.offset_seconds as int)
    }

    /// Seconds since the epoch.
    pub fn timestamp(&self) -> (r: i64)
        ensures
            r == self.seconds,
    {
        self.seconds
    }

    /// Seconds by which the wall clock is ahead of UTC.
    pub fn offset(&self) -> (r: i32)
        ensures
            r == self.offset_seconds,
    {
        self.offset_seconds
    }

    /// The instant, found again from the reading of the wall clock and its
    /// offset.
    pub fn to_utc(&self) -> (t: UnixTime)
        requires
            self.wf(),
        ensures
            t.seconds == utc_from_local(self.local_seconds as int, self.offset_seconds as int),
            t.seconds == self.seconds,
            t.nanos == self.nanos,
            t.wf(),
    {
        let seconds: i64 = self.local_seconds - (self.offset_seconds as i64);
        UnixTime {
            seconds,
            nanos: self.nanos,
            nanos_since_epoch: (seconds as i128) * 1_000_000_000 + (self.nanos as i128),
        }
    }
}

/// Conversions between UTC and the timezones of the IANA database.
pub struct TimezoneConverter;

impl TimezoneConverter {
    /// The offset, east of UTC, that `from_posix_tz` reads out of a POSIX TZ
    /// string: it goes by the first of `EST`, `PST`, `GMT` and `UTC` that the
    /// string holds, and places the zone as many hours east as it names west.
    pub open spec fn posix_offset(tz_string: Seq<char>) -> Option<int> {
        if contains_text(tz_string, "EST"@) {
            Some(18_000)
        } else if contains_text(tz_string, "PST"@) {
            Some(28_800)
        } else if contains_text(tz_string, "GMT"@) || contains_text(tz_string, "UTC"@) {
            Some(0)
        } else {
            None
        }
    }

    /// Whether `timezone` is the name of a timezone of the database.
    pub fn is_known(timezone: &str) -> (r: bool)
        ensures
            r == zone_known(timezone@),
    {
        zone_is_known(timezone)
    }

    /// Shows `instant` on the wall clock of `timezone`.
    ///
    /// Fails with `InvalidTimezone`, which carries the name, where the name is
    /// not one of the database; else with `OutOfRange` where the parts of the
    /// instant disagree or chrono does not hold it.
    pub fn convert_to_tz(instant: &UnixTime, timezone: &str) -> (r: Result<
        LocalInstant,
        TimeError,
    >)
        ensures
            match r {
                Ok(local) => {
                    &&& zone_known(timezone@)
                    &&& instant.held()
                    &&& local.wf()
                    &&& local.seconds == instant.seconds
                    &&& local.nanos == instant.nanos
                    &&& local.offset_seconds == zone_offset(timezone@, instant.seconds as int)
                    &&& local.abbreviation@ == zone_abbreviation(
                        timezone@,
                        instant.seconds as int,
                    )
                    &&& utc_from_local(local.local_seconds as int, local.offset_seconds as int)
                        == instant.seconds
                },
                Err(TimeError::InvalidTimezone(name)) => !zone_known(timezone@) && name@
                    == timezone@,
                Err(TimeError::OutOfRange) => zone_known(timezone@) && !instant.held(),
                Err(_) => false,
            },
    {
        if !zone_is_known(timezone) {
            return Err(TimeError::InvalidTimezone(String::from_str(timezone)));
        }
        if !instant.is_held() {
            return Err(TimeError::OutOfRange);
        }
        let offset = zone_offset_at(timezone, instant.seconds);
        let abbreviation = zone_abbreviation_at(timezone, instant.seconds);
        Ok(Self::at_offset(instant, offset, abbreviation))
    }

    /// Shows `instant` on a wall clock that is `offset` seconds ahead of UTC
    /// and goes by `abbreviation`. The reading of the clock must be a number
    /// of seconds that can be counted here.
    pub fn at_offset(instant: &UnixTime, offset: i32, abbreviation: String) -> (local:
        LocalInstant)
        requires
            instant.wf(),
            -86_400 < offset < 86_400,
            i64::MIN <= local_from_utc(instant.seconds as int, offset as int) <= i64::MAX,
        ensures
            local.wf(),
            local.seconds == instant.seconds,
            local.nanos == instant.nanos,
            local.offset_seconds == offset,
            local.local_seconds == local_from_utc(instant.seconds as int, offset as int),
            local.abbreviation == abbreviation,
    {
        LocalInstant {
            seconds: instant.seconds,
            nanos: instant.nanos,
            offset_seconds: offset,
            local_seconds: instant.seconds + (offset as i64),
            abbreviation,
        }
    }

    /// The names of all timezones of the database, in the order of its table.
    /// Each of them is a name that `convert_to_tz` takes.
    pub fn list_timezones() -> (names: Vec<String>)
        ensures
            forall|i: int| 0 <= i < names.len() ==> zone_name_at(i) == Some(#[trigger] names[i]@),
            forall|i: int| 0 <= i < names.len() ==> zone_known(#[trigger] names[i]@),
            names.len() < usize::MAX ==> zone_name_at(names.len() as int) is None,
    {
        let mut names: Vec<String> = Vec::new();
        let mut index: usize = 0;
        while index < usize::MAX
            invariant
                index == names.len(),
                forall|i: int|
                    0 <= i < names.len() ==> zone_name_at(i) == Some(#[trigger] names[i]@),
                forall|i: int| 0 <= i < names.len() ==> zone_known(#[trigger] names[i]@),
            ensures
                index == names.len(),
                forall|i: int|
                    0 <= i < names.len() ==> zone_name_at(i) == Some(#[trigger] names[i]@),
                forall|i: int| 0 <= i < names.len() ==> zone_known(#[trigger] names[i]@),
                names.len() < usize::MAX ==> zone_name_at(names.len() as int) is None,
            decreases usize::MAX - index,
        {
            match zone_name(index) {
                Some(name) => {
                    names.push(name);
                    index += 1;
                },
                None => {
                    break ;
                },
            }
        }
        names
    }

    /// What the zone `timezone` is called and how far its clock is from UTC
    /// at `instant`. Whether daylight saving time is in force is not worked
    /// out: `is_dst` is always `false`.
    ///
    /// Fails as `convert_to_tz` does.
    pub fn timezone_info_at(instant: &UnixTime, timezone: &str) -> (r: Result<
        TimezoneInfo,
        TimeError,
    >)
        ensures
            match r {
                Ok(info) => {
                    &&& zone_known(timezone@)
                    &&& instant.held()
                    &&& info.name@ == timezone@
                    &&& info.offset_seconds == zone_offset(timezone@, instant.seconds as int)
                    &&& -86_400 < info.offset_seconds < 86_400
                    &&& info.abbreviation@ == zone_abbreviation(timezone@, instant.seconds as int)
                    &&& !info.is_dst
                },
                Err(TimeError::InvalidTimezone(name)) => !zone_known(timezone@) && name@
                    == timezone@,
                Err(TimeError::OutOfRange) => zone_known(timezone@) && !instant.held(),
                Err(_) => false,
            },
    {
        match Self::convert_to_tz(instant, timezone) {
            Ok(local) => Ok(
                TimezoneInfo {
                    name: String::from_str(timezone),
                    offset_seconds: local.offset_seconds,
                    abbreviation: local.abbreviation,
                    is_dst: false,
                },
            ),
            Err(e) => Err(e),
        }
    }

    /// What the zone `timezone` is called and how far its clock is from UTC
    /// now, by the system clock: see `timezone_info_at`, which takes the
    /// instant.
    ///
    /// Fails with `InvalidTimezone`, which carries the name, where the name is
    /// not one of the database. For a name of the database it fails with
    /// `ClockUnavailable` where the system clock gives no instant, and with
    /// `OutOfRange` where it gives one that chrono does not hold.
    pub fn get_timezone_info(timezone: &str) -> (r: Result<TimezoneInfo, TimeError>)
        ensures
            match r {
                Ok(info) => {
                    &&& zone_known(timezone@)
                    &&& info.name@ == timezone@
                    &&& -86_400 < info.offset_seconds < 86_400
                    &&& !info.is_dst
                    &&& exists|secs: int|
                        secs >= 0 && instant_held(secs) && info.offset_seconds
                            == #[trigger] zone_offset(timezone@, secs) && info.abbreviation@
                            == zone_abbreviation(timezone@, secs)
                },
                Err(TimeError::InvalidTimezone(name)) => !zone_known(timezone@) && name@
                    == timezone@,
                Err(TimeError::ClockUnavailable) => zone_known(timezone@),
                Err(TimeError::OutOfRange) => zone_known(timezone@),
                Err(_) => false,
            },
    {
        if !zone_is_known(timezone) {
            return Err(TimeError::InvalidTimezone(String::from_str(timezone)));
        }
        match UnixTime::now() {
            Ok(now) => Self::timezone_info_at(&now, timezone),
            Err(_) => Err(TimeError::ClockUnavailable),
        }
    }

    /// Shows `instant` on the wall clock that a POSIX TZ string such as
    /// `PST8PDT,M3.2.0,M11.1.0` names, as far as such strings are understood:
    /// see `posix_offset`. The clock goes by no abbreviation.
    ///
    /// Fails with `UnsupportedTzString` where the string names none of the
    /// zones that are understood; else with `OutOfRange` where the parts of
    /// the instant disagree or chrono does not hold it.
    pub fn from_posix_tz(instant: &UnixTime, tz_string: &str) -> (r: Result<
        LocalInstant,
        TimeError,
    >)
        ensures
            match r {
                Ok(local) => {
                    &&& Self::posix_offset(tz_string@) == Some(local.offset_seconds as int)
                    &&& instant.held()
                    &&& local.wf()
                    &&& local.seconds == instant.seconds
                    &&& local.nanos == instant.nanos
                    &&& local.abbreviation@.len() == 0
                },
                Err(TimeError::UnsupportedTzString) => Self::posix_offset(tz_string@) is None,
                Err(TimeError::OutOfRange) => Self::posix_offset(tz_string@) is Some
                    && !instant.held(),
                Err(_) => false,
            },
    {
        let text = to_chars(tz_string);
        let offset: i32 = if contains(&text, &to_chars("EST")) {
            18_000
        } else if contains(&text, &to_chars("PST")) {
            28_800
        } else if contains(&text, &to_chars("GMT")) || contains(&text, &to_chars("UTC")) {
            0
        } else {
            return Err(TimeError::UnsupportedTzString);
        };
        if !instant.is_held() {
            return Err(TimeError::OutOfRange);
        }
        Ok(Self::at_offset(instant, offset, String::new()))
    }
}

} // verus!
