//! A snapshot of one instant: its place on the time line, its calendar
//! reading in UTC and its common textual encodings.

use crate::error::TimeError;
use crate::text::decimal_text;
use crate::text::integer_text;
use crate::text::read_u32;
use crate::text::same_text;
use crate::text::to_chars;
use crate::text::unsigned_numeral;
use crate::time::formats::render_utc;
use crate::time::formats::strftime_text;
use crate::time::formats::StandardFormats;
use crate::time::formats::StrftimeFormatter;
use crate::time::timezone::render_in_zone;
use crate::time::timezone::zone_known;
use crate::time::timezone::zone_offset;
use crate::time::timezone::zone_strftime_text;
use crate::time::timezone::TimezoneConverter;
use crate::time::unix::in_calendar_range;
use crate::time::unix::instant_held;
use crate::time::unix::UnixTime;
use crate::time::unix::NANOS_PER_SECOND;
use chrono::Datelike;
use vstd::prelude::*;

verus! {

/// What chrono's `DateTime::to_rfc3339_opts` writes, with nanoseconds and with
/// `Z` for UTC, for the instant on a clock `offset` seconds ahead of UTC.
pub uninterp spec fn rfc3339_nanos_text(secs: int, nanos: int, offset: int) -> Seq<char>;

/// What chrono's `DateTime::to_rfc3339` writes for the instant on a clock
/// `offset` seconds ahead of UTC.
pub uninterp spec fn rfc3339_text(secs: int, nanos: int, offset: int) -> Seq<char>;

/// What chrono's `DateTime::to_rfc2822` writes for the instant on a clock
/// `offset` seconds ahead of UTC.
pub uninterp spec fn rfc2822_text(secs: int, nanos: int, offset: int) -> Seq<char>;

/// The year of the UTC date of the second `secs`, as chrono's
/// `Datelike::year` gives it.
pub uninterp spec fn civil_year(secs: int) -> int;

/// The month of the UTC date of the second `secs`, as chrono's
/// `Datelike::month` gives it.
pub uninterp spec fn civil_month(secs: int) -> int;

/// The day of the month of the UTC date of the second `secs`, as chrono's
/// `Datelike::day` gives it.
pub uninterp spec fn civil_day(secs: int) -> int;

/// The day of the year of the UTC date of the second `secs`, as chrono's
/// `Datelike::ordinal` gives it.
pub uninterp spec fn civil_ordinal(secs: int) -> int;

/// `chrono::DateTime::to_rfc3339_opts` with `SecondsFormat::Nanos` and
/// `use_z`: the RFC 3339 text of the instant, with nine digits of fraction, as
/// a clock `offset` seconds ahead of UTC shows it. The text depends on the
/// instant and the offset alone and is only named here. Within the calendar
/// range the instant and its wall-clock date are ones that chrono holds.
#[verifier::external_body]
fn render_rfc3339_nanos(secs: i64, nanos: u32, offset: i32) -> (r: String)
    requires
        in_calendar_range(secs as int),
        nanos < NANOS_PER_SECOND,
        -86_400 < offset < 86_400,
    ensures
        r@ == rfc3339_nanos_text(secs as int, nanos as int, offset as int),
{
    let zone = chrono::FixedOffset::east_opt(offset).unwrap();
    let moment = chrono::DateTime::from_timestamp(secs, nanos).unwrap().with_timezone(&zone);
    moment.to_rfc3339_opts(chrono::SecondsFormat::Nanos, true)
}

/// `chrono::DateTime::to_rfc3339`: the RFC 3339 text of the instant as a
/// clock `offset` seconds ahead of UTC shows it. The text depends on the
/// instant and the offset alone and is only named here. The instant must be
/// one that chrono holds; a year outside 0 to 9999 is written with its sign.
#[verifier::external_body]
pub(crate) fn render_rfc3339(secs: i64, nanos: u32, offset: i32) -> (r: String)
    requires
        instant_held(secs as int),
        nanos < NANOS_PER_SECOND,
        -86_400 < offset < 86_400,
    ensures
        r@ == rfc3339_text(secs as int, nanos as int, offset as int),
{
    let zone = chrono::FixedOffset::east_opt(offset).unwrap();
    let moment = chrono::DateTime::from_timestamp(secs, nanos).unwrap().with_timezone(&zone);
    moment.to_rfc3339()
}

/// `chrono::DateTime::to_rfc2822`: the RFC 2822 text of the instant as a
/// clock `offset` seconds ahead of UTC shows it. The text depends on the
/// instant and the offset alone and is only named here. The call panics for
/// a wall-clock year outside 0 to 9999, which the calendar range excludes.
#[verifier::external_body]
fn render_rfc2822(secs: i64, nanos: u32, offset: i32) -> (r: String)
    requires
        in_calendar_range(secs as int),
        nanos < NANOS_PER_SECOND,
        -86_400 < offset < 86_400,
    ensures
        r@ == rfc2822_text(secs as int, nanos as int, offset as int),
{
    let zone = chrono::FixedOffset::east_opt(offset).unwrap();
    let moment = chrono::DateTime::from_timestamp(secs, nanos).unwrap().with_timezone(&zone);
    moment.to_rfc2822()
}

/// `chrono::Datelike::year` on the UTC date of the second: the year, which is
/// only named here.
#[verifier::external_body]
fn utc_year(secs: i64) -> (r: i32)
    requires
        in_calendar_range(secs as int),
    ensures
        r == civil_year(secs as int),
{
    chrono::DateTime::from_timestamp(secs, 0).unwrap().year()
}

/// `chrono::Datelike::month` on the UTC date of the second: the month, from
/// 1 to 12.
#[verifier::external_body]
fn utc_month(secs: i64) -> (r: u32)
    requires
        in_calendar_range(secs as int),
    ensures
        r == civil_month(secs as int),
        1 <= r <= 12,
{
    chrono::DateTime::from_timestamp(secs, 0).unwrap().month()
}

/// `chrono::Datelike::day` on the UTC date of the second: the day of the
/// month, from 1 to 31.
#[verifier::external_body]
fn utc_day(secs: i64) -> (r: u32)
    requires
        in_calendar_range(secs as int),
    ensures
        r == civil_day(secs as int),
        1 <= r <= 31,
{
    chrono::DateTime::from_timestamp(secs, 0).unwrap().day()
}

/// `chrono::Datelike::ordinal` on the UTC date of the second: the day of the
/// year, from 1 to 366.
#[verifier::external_body]
fn utc_ordinal(secs: i64) -> (r: u32)
    requires
        in_calendar_range(secs as int),
    ensures
        r == civil_ordinal(secs as int),
        1 <= r <= 366,
{
    chrono::DateTime::from_timestamp(secs, 0).unwrap().ordinal()
}

/// The text under `name` in `entries`, where a later entry hides an earlier
/// one of the same name.
pub open spec fn lookup(entries: Seq<(String, String)>, name: Seq<char>) -> Option<Seq<char>>
    decreases entries.len(),
{
    if entries.len() == 0 {
        None
    } else if entries.last().0@ == name {
        Some(entries.last().1@)
    } else {
        lookup(entries.drop_last(), name)
    }
}

/// Texts by name.
#[derive(Debug, Clone)]
pub struct FormatTable {
    pub entries: Vec<(String, String)>,
}

impl FormatTable {
    /// The text under `name`, if there is one.
    pub open spec fn text(&self, name: Seq<char>) -> Option<Seq<char>> {
        lookup(self.entries@, name)
    }

    /// A table without entries.
    pub fn new() -> (t: FormatTable)
        ensures
            forall|name: Seq<char>| t.text(name) is None,
    {
        FormatTable { entries: Vec::new() }
    }

    /// Puts `text` under `name`, in place of what stood there.
    pub fn insert(&mut self, name: String, text: String)
        ensures
            forall|n: Seq<char>|
                final(self).text(n) == if n == name@ {
                    Some(text@)
                } else {
                    old(self).text(n)
                },
    {
        self.entries.push((name, text));
        assert(self.entries@.drop_last() =~= old(self).entries@);
    }

    /// The text under `name`, if there is one.
    pub fn get(&self, name: &str) -> (r: Option<&String>)
        ensures
            match r {
                Some(text) => self.text(name@) == Some(text@),
                None => self.text(name@) is None,
            },
    {
        let mut i: usize = self.entries.len();
        assert(self.entries@.take(i as int) =~= self.entries@);
        while i > 0
            invariant
                i <= self.entries.len(),
                lookup(self.entries@, name@) == lookup(self.entries@.take(i as int), name@),
            decreases i,
        {
            let ghost front = self.entries@.take(i as int);
            assert(front.drop_last() =~= self.entries@.take(i - 1));
            if same_text(self.entries[i - 1].0.as_str(), name) {
                return Some(&self.entries[i - 1].1);
            }
            i -= 1;
        }
        None
    }

    /// Whether there is a text under `name`.
    pub fn contains_key(&self, name: &str) -> (r: bool)
        ensures
            r == self.text(name@) is Some,
    {
        self.get(name).is_some()
    }
}

/// The date of an instant in UTC.
#[derive(Debug, Clone, Copy)]
pub struct CivilDate {
    pub year: i32,
    pub month: u32,
    pub day: u32,
    pub day_of_year: u32,
}

/// The texts that are rendered for a snapshot.
#[derive(Debug, Clone)]
pub struct Renderings {
    pub iso8601: String,
    pub rfc3339: String,
    pub rfc2822: String,
    pub ctime: String,
    pub weekday: String,
    pub week_of_year: String,
    pub unix_date: String,
    pub syslog: String,
    pub apache_log: String,
}

/// The text that is rendered for the instant under `pattern`, empty where
/// the pattern cannot be rendered.
pub open spec fn rendered_or_empty(secs: int, nanos: int, pattern: Seq<char>) -> Seq<char> {
    match strftime_text(secs, nanos, pattern) {
        Some(text) => text,
        None => Seq::empty(),
    }
}

/// The number that the text of a week number writes, 0 where it writes none.
pub open spec fn week_number(text: Seq<char>) -> int {
    match unsigned_numeral(text, u32::MAX as int) {
        Some(n) => n,
        None => 0,
    }
}

/// The timezone that a snapshot is made for: UTC itself, or a zone of the
/// database by its name.
pub enum SnapshotZone {
    Utc,
    Named(Seq<char>),
}

impl SnapshotZone {
    /// The name of the zone.
    pub open spec fn name(self) -> Seq<char> {
        match self {
            SnapshotZone::Utc => "UTC"@,
            SnapshotZone::Named(name) => name,
        }
    }

    /// The seconds by which the wall clock of the zone is ahead of UTC at
    /// the second `secs`.
    pub open spec fn offset(self, secs: int) -> int {
        match self {
            SnapshotZone::Utc => 0,
            SnapshotZone::Named(name) => zone_offset(name, secs),
        }
    }

    /// The text that is rendered for the instant on the wall clock of the
    /// zone under `pattern`, empty where the pattern cannot be rendered.
    pub open spec fn text(self, secs: int, nanos: int, pattern: Seq<char>) -> Seq<char> {
        match self {
            SnapshotZone::Utc => rendered_or_empty(secs, nanos, pattern),
            SnapshotZone::Named(name) => match zone_strftime_text(secs, nanos, name, pattern) {
                Some(text) => text,
                None => Seq::empty(),
            },
        }
    }
}

/// The second within its day, in UTC, of the second `secs`.
pub open spec fn second_of_day(secs: int) -> int {
    secs % 86_400
}

/// A snapshot of one instant.
#[derive(Debug, Clone)]
pub struct EnhancedTimeResponse {
    pub unix: UnixTime,
    pub iso8601: String,
    pub rfc3339: String,
    pub rfc2822: String,
    pub ctime: String,
    pub nanos_since_epoch: i128,
    pub seconds: i64,
    pub microseconds: i64,
    pub milliseconds: i64,
    pub year: i32,
    pub month: u32,
    pub day: u32,
    pub hour: u32,
    pub minute: u32,
    pub second: u32,
    pub nanosecond: u32,
    pub timezone: String,
    pub offset: i32,
    pub weekday: String,
    pub week_of_year: u32,
    pub day_of_year: u32,
    pub custom_formats: FormatTable,
}

impl EnhancedTimeResponse {
    /// The snapshot holds the place of `instant` on the time line.
    pub open spec fn holds_instant(&self, instant: UnixTime) -> bool {
        &&& self.unix == instant
        &&& self.nanos_since_epoch == instant.nanos_since_epoch
        &&& self.seconds == instant.seconds
        &&& self.microseconds == instant.microseconds()
        &&& self.milliseconds == instant.milliseconds()
        &&& self.nanosecond == instant.nanos
    }

    /// The snapshot holds the calendar reading of `instant` in UTC.
    pub open spec fn holds_calendar(&self, instant: UnixTime) -> bool {
        let s = instant.seconds as int;
        let n = instant.nanos as int;
        &&& self.year == civil_year(s)
        &&& self.month == civil_month(s)
        &&& self.day == civil_day(s)
        &&& self.day_of_year == civil_ordinal(s)
        &&& self.hour == second_of_day(s) / 3600
        &&& self.minute == (second_of_day(s) % 3600) / 60
        &&& self.second == second_of_day(s) % 60
        &&& self.weekday@ == rendered_or_empty(s, n, "%A"@)
        &&& self.week_of_year == week_number(rendered_or_empty(s, n, "%U"@))
    }

    /// The snapshot holds the textual encodings of `instant` for the
    /// timezone `zone`: its name and its offset at the instant, the three
    /// encodings that carry the offset, and the encodings of the wall clock
    /// of the zone. The time stamp among the auxiliary formats is the count
    /// of seconds, whatever the zone.
    pub open spec fn holds_texts(&self, instant: UnixTime, zone: SnapshotZone) -> bool {
        let s = instant.seconds as int;
        let n = instant.nanos as int;
        &&& self.timezone@ == zone.name()
        &&& self.offset == zone.offset(s)
        &&& self.iso8601@ == rfc3339_nanos_text(s, n, zone.offset(s))
        &&& self.rfc3339@ == rfc3339_text(s, n, zone.offset(s))
        &&& self.rfc2822@ == rfc2822_text(s, n, zone.offset(s))
        &&& self.ctime@ == zone.text(s, n, "%c"@)
        &&& forall|name: Seq<char>|
            self.custom_formats.text(name) == if name == "unix_timestamp"@ {
                Some(decimal_text(s))
            } else if name == "apache_log"@ {
                Some(zone.text(s, n, StandardFormats::APACHE_LOG@))
            } else if name == "syslog"@ {
                Some(zone.text(s, n, StandardFormats::SYSLOG@))
            } else if name == "unix_date"@ {
                Some(zone.text(s, n, StandardFormats::UNIX_DATE@))
            } else {
                None
            }
    }

    /// Every field of the snapshot describes `instant`: its place on the
    /// time line, its calendar reading in UTC, and its textual encodings for
    /// the timezone `zone`.
    pub open spec fn describes(&self, instant: UnixTime, zone: SnapshotZone) -> bool {
        &&& self.holds_instant(instant)
        &&& self.holds_calendar(instant)
        &&& self.holds_texts(instant, zone)
    }

    /// The two snapshots agree in every field.
    pub open spec fn agrees_with(&self, other: EnhancedTimeResponse) -> bool {
        &&& self.unix == other.unix
        &&& self.iso8601@ == other.iso8601@
        &&& self.rfc3339@ == other.rfc3339@
        &&& self.rfc2822@ == other.rfc2822@
        &&& self.ctime@ == other.ctime@
        &&& self.nanos_since_epoch == other.nanos_since_epoch
        &&& self.seconds == other.seconds
        &&& self.microseconds == other.microseconds
        &&& self.milliseconds == other.milliseconds
        &&& self.year == other.year
        &&& self.month == other.month
        &&& self.day == other.day
        &&& self.hour == other.hour
        &&& self.minute == other.minute
        &&& self.second == other.second
        &&& self.nanosecond == other.nanosecond
        &&& self.timezone@ == other.timezone@
        &&& self.offset == other.offset
        &&& self.weekday@ == other.weekday@
        &&& self.week_of_year == other.week_of_year
        &&& self.day_of_year == other.day_of_year
        &&& forall|name: Seq<char>|
            self.custom_formats.text(name) == other.custom_formats.text(name)
    }

    /// The snapshot of `instant` whose calendar date is `date` and whose
    /// texts are `texts`, for the timezone `zone` with its clock `offset`
    /// seconds ahead of UTC. The time of day is worked out here, the week of
    /// the year is read from its text, and the table of auxiliary formats is
    /// filled.
    pub fn assemble(
        instant: &UnixTime,
        zone: String,
        offset: i32,
        date: CivilDate,
        texts: Renderings,
    ) -> (r: EnhancedTimeResponse)
        requires
            instant.wf(),
            instant.in_range(),
        ensures
            r.holds_instant(*instant),
            r.year == date.year,
            r.month == date.month,
            r.day == date.day,
            r.day_of_year == date.day_of_year,
            r.hour == second_of_day(instant.seconds as int) / 3600,
            r.minute == (second_of_day(instant.seconds as int) % 3600) / 60,
            r.second == second_of_day(instant.seconds as int) % 60,
            r.hour < 24 && r.minute < 60 && r.second < 60,
            r.timezone == zone,
            r.offset == offset,
            r.iso8601 == texts.iso8601,
            r.rfc3339 == texts.rfc3339,
            r.rfc2822 == texts.rfc2822,
            r.ctime == texts.ctime,
            r.weekday == texts.weekday,
            r.week_of_year == week_number(texts.week_of_year@),
            forall|name: Seq<char>|
                r.custom_formats.text(name) == if name == "unix_timestamp"@ {
                    Some(decimal_text(instant.seconds as int))
                } else if name == "apache_log"@ {
                    Some(texts.apache_log@)
                } else if name == "syslog"@ {
                    Some(texts.syslog@)
                } else if name == "unix_date"@ {
                    Some(texts.unix_date@)
                } else {
                    None
                },
    {
        let shifted: u64 = (instant.seconds + 62_167_219_200) as u64;
        let of_day: u32 = (shifted % 86_400) as u32;
        assert(of_day == second_of_day(instant.seconds as int)) by {
            assert((instant.seconds + 719_528 * 86_400) % 86_400 == instant.seconds % 86_400)
                by (nonlinear_arith);
        }
        let week_chars = to_chars(texts.week_of_year.as_str());
        assert(week_chars@.subrange(0, week_chars@.len() as int) =~= week_chars@);
        let week_of_year: u32 = match read_u32(&week_chars, 0, week_chars.len()) {
            Some(n) => n,
            None => 0,
        };
        let mut custom_formats = FormatTable::new();
        custom_formats.insert(String::from_str("unix_date"), texts.unix_date);
        custom_formats.insert(String::from_str("syslog"), texts.syslog);
        custom_formats.insert(String::from_str("apache_log"), texts.apache_log);
        custom_formats.insert(String::from_str("unix_timestamp"), integer_text(instant.seconds));
        EnhancedTimeResponse {
            unix: *instant,
            iso8601: texts.iso8601,
            rfc3339: texts.rfc3339,
            rfc2822: texts.rfc2822,
            ctime: texts.ctime,
            nanos_since_epoch: instant.nanos_since_epoch,
            seconds: instant.seconds,
            microseconds: instant.to_microseconds(),
            milliseconds: instant.to_milliseconds(),
            year: date.year,
            month: date.month,
            day: date.day,
            hour: of_day / 3600,
            minute: (of_day % 3600) / 60,
            second: of_day % 60,
            nanosecond: instant.nanos,
            timezone: zone,
            offset,
            weekday: texts.weekday,
            week_of_year,
            day_of_year: date.day_of_year,
            custom_formats,
        }
    }
    /// Renders the texts of `instant` for the timezone `zone`, `None` for
    /// UTC, whose clock is `offset` seconds ahead of UTC; reads the date of
    /// the instant in UTC; and assembles the snapshot.
    fn build(instant: &UnixTime, zone: Option<&str>, offset: i32) -> (r: EnhancedTimeResponse)
        requires
            instant.wf(),
            instant.in_range(),
            instant.held(),
            -86_400 < offset < 86_400,
            match zone {
                Some(name) => zone_known(name@) && offset == zone_offset(
                    name@,
                    instant.seconds as int,
                ),
                None => offset == 0,
            },
        ensures
            r.describes(
                *instant,
                match zone {
                    Some(name) => SnapshotZone::Named(name@),
                    None => SnapshotZone::Utc,
                },
            ),
            r.has_calendar_bounds(),
    {
        let secs = instant.seconds;
        let nanos = instant.nanos;
        let date = CivilDate {
            year: utc_year(secs),
            month: utc_month(secs),
            day: utc_day(secs),
            day_of_year: utc_ordinal(secs),
        };
        let texts = Renderings {
            iso8601: render_rfc3339_nanos(secs, nanos, offset),
            rfc3339: render_rfc3339(secs, nanos, offset),
            rfc2822: render_rfc2822(secs, nanos, offset),
            ctime: Self::wall_text(instant, zone, "%c"),
            weekday: Self::wall_text(instant, None, "%A"),
            week_of_year: Self::wall_text(instant, None, "%U"),
            unix_date: Self::wall_text(instant, zone, StandardFormats::UNIX_DATE),
            syslog: Self::wall_text(instant, zone, StandardFormats::SYSLOG),
            apache_log: Self::wall_text(instant, zone, StandardFormats::APACHE_LOG),
        };
        let name = match zone {
            Some(name) => String::from_str(name),
            None => String::from_str("UTC"),
        };
        Self::assemble(instant, name, offset, date, texts)
    }

    /// The text of `instant` on the wall clock of the timezone `zone`,
    /// `None` for UTC, under `pattern`; empty where the pattern cannot be
    /// rendered.
    fn wall_text(instant: &UnixTime, zone: Option<&str>, pattern: &str) -> (r: String)
        requires
            instant.wf(),
            instant.in_range(),
            instant.held(),
            zone matches Some(name) ==> zone_known(name@),
        ensures
            r@ == match zone {
                Some(name) => SnapshotZone::Named(name@),
                None => SnapshotZone::Utc,
            }.text(instant.seconds as int, instant.nanos as int, pattern@),
    {
        let rendered = match zone {
            Some(name) => render_in_zone(instant.seconds, instant.nanos, name, pattern),
            None => render_utc(instant.seconds, instant.nanos, pattern),
        };
        match rendered {
            Some(text) => text,
            None => String::new(),
        }
    }

    /// The snapshot of `instant` in UTC.
    ///
    /// Fails with `OutOfRange` where the instant is not well formed or lies
    /// outside the calendar range, and on no other occasion.
    pub fn at(instant: &UnixTime) -> (r: Result<EnhancedTimeResponse, TimeError>)
        ensures
            match r {
                Ok(snapshot) => instant.wf() && instant.in_range() && snapshot.describes(
                    *instant,
                    SnapshotZone::Utc,
                ) && snapshot.has_calendar_bounds(),
                Err(TimeError::OutOfRange) => !(instant.wf() && instant.in_range()),
                Err(_) => false,
            },
    {
        if !instant.is_renderable() {
            return Err(TimeError::OutOfRange);
        }
        Ok(Self::build(instant, None, 0))
    }

    /// The snapshot of `instant` for the timezone `tz`: the place on the time
    /// line and the calendar reading are those of the snapshot in UTC; the
    /// offset is that of the zone at the instant, and every textual encoding
    /// shows the wall clock of the zone.
    ///
    /// Fails with `InvalidTimezone`, which carries the name, where the name is
    /// not one of the database; else with `OutOfRange` where the instant is
    /// not well formed or lies outside the calendar range.
    pub fn at_in_timezone(instant: &UnixTime, tz: &str) -> (r: Result<
        EnhancedTimeResponse,
        TimeError,
    >)
        ensures
            match r {
                Ok(snapshot) => zone_known(tz@) && instant.wf() && instant.in_range()
                    && snapshot.describes(*instant, SnapshotZone::Named(tz@))
                    && snapshot.has_calendar_bounds(),
                Err(TimeError::InvalidTimezone(name)) => !zone_known(tz@) && name@ == tz@,
                Err(TimeError::OutOfRange) => zone_known(tz@) && !(instant.wf()
                    && instant.in_range()),
                Err(_) => false,
            },
    {
        if !TimezoneConverter::is_known(tz) {
            return Err(TimeError::InvalidTimezone(String::from_str(tz)));
        }
        if !instant.is_renderable() {
            return Err(TimeError::OutOfRange);
        }
        match TimezoneConverter::convert_to_tz(instant, tz) {
            Ok(local) => Ok(Self::build(instant, Some(tz), local.offset_seconds)),
            Err(e) => Err(e),
        }
    }

    /// The snapshot, in UTC, of the instant that the system clock shows: see
    /// `at`, which takes the instant.
    ///
    /// Fails with `ClockUnavailable` where the system clock gives no instant,
    /// and with `OutOfRange` where it gives one outside the calendar range.
    pub fn now() -> (r: Result<EnhancedTimeResponse, TimeError>)
        ensures
            match r {
                Ok(snapshot) => snapshot.unix.wf() && snapshot.unix.in_range()
                    && snapshot.unix.seconds >= 0 && snapshot.describes(
                    snapshot.unix,
                    SnapshotZone::Utc,
                ) && snapshot.has_calendar_bounds(),
                Err(TimeError::ClockUnavailable) => true,
                Err(TimeError::OutOfRange) => true,
                Err(_) => false,
            },
    {
        match UnixTime::now() {
            Ok(instant) => Self::at(&instant),
            Err(_) => Err(TimeError::ClockUnavailable),
        }
    }

    /// The snapshot, for the timezone `tz`, of the instant that the system
    /// clock shows: see `at_in_timezone`, which takes the instant.
    ///
    /// Fails with `InvalidTimezone`, which carries the name, where the name is
    /// not one of the database. For a name of the database it fails with
    /// `ClockUnavailable` where the system clock gives no instant, and with
    /// `OutOfRange` where it gives one outside the calendar range.
    pub fn with_timezone(tz: &str) -> (r: Result<EnhancedTimeResponse, TimeError>)
        ensures
            match r {
                Ok(snapshot) => zone_known(tz@) && snapshot.unix.wf() && snapshot.unix.in_range()
                    && snapshot.unix.seconds >= 0 && snapshot.describes(
                    snapshot.unix,
                    SnapshotZone::Named(tz@),
                ) && snapshot.has_calendar_bounds(),
                Err(TimeError::InvalidTimezone(name)) => !zone_known(tz@) && name@ == tz@,
                Err(TimeError::ClockUnavailable) => zone_known(tz@),
                Err(TimeError::OutOfRange) => zone_known(tz@),
                Err(_) => false,
            },
    {
        if !TimezoneConverter::is_known(tz) {
            return Err(TimeError::InvalidTimezone(String::from_str(tz)));
        }
        match UnixTime::now() {
            Ok(instant) => Self::at_in_timezone(&instant, tz),
            Err(_) => Err(TimeError::ClockUnavailable),
        }
    }

    /// Renders the instant of the snapshot in UTC under the strftime pattern
    /// `format`.
    ///
    /// Fails with `OutOfRange` where the parts of the instant of the snapshot
    /// disagree or chrono does not hold it, and with `FormatError`, which
    /// carries the pattern, where the pattern cannot be rendered.
    pub fn format_custom(&self, format: &str) -> (r: Result<String, TimeError>)
        ensures
            match r {
                Ok(text) => self.unix.held() && strftime_text(
                    self.unix.seconds as int,
                    self.unix.nanos as int,
                    format@,
                ) == Some(text@),
                Err(TimeError::OutOfRange) => !self.unix.held(),
                Err(TimeError::FormatError(p)) => self.unix.held() && strftime_text(
                    self.unix.seconds as int,
                    self.unix.nanos as int,
                    format@,
                ) is None && p@ == format@,
                Err(_) => false,
            },
    {
        StrftimeFormatter::format(&self.unix, format)
    }

    /// The time of day and the date lie within what a clock and a calendar
    /// show.
    pub open spec fn has_calendar_bounds(&self) -> bool {
        &&& self.hour < 24 && self.minute < 60 && self.second < 60
        &&& 1 <= self.month <= 12
        &&& 1 <= self.day <= 31
        &&& 1 <= self.day_of_year <= 366
    }
}

/// The RFC 3339 text, in UTC, of `instant`.
///
/// Fails with `OutOfRange` where the parts of the instant disagree or chrono
/// does not hold it, and on no other occasion.
pub fn utc_time_at(instant: &UnixTime) -> (r: Result<String, TimeError>)
    ensures
        match r {
            Ok(text) => instant.held() && text@ == rfc3339_text(
                instant.seconds as int,
                instant.nanos as int,
                0,
            ),
            Err(TimeError::OutOfRange) => !instant.held(),
            Err(_) => false,
        },
{
    if !instant.is_held() {
        return Err(TimeError::OutOfRange);
    }
    Ok(render_rfc3339(instant.seconds, instant.nanos, 0))
}

/// The RFC 3339 text, in UTC, of the instant that the system clock shows: see
/// `utc_time_at`, which takes the instant.
///
/// Fails with `ClockUnavailable` where the system clock gives no instant, and
/// with `OutOfRange` where it gives one that chrono does not hold.
pub fn get_current_utc_time() -> (r: Result<String, TimeError>)
    ensures
        match r {
            Ok(text) => exists|instant: UnixTime|
                instant.held() && instant.seconds >= 0 && text@ == #[trigger] rfc3339_text(
                    instant.seconds as int,
                    instant.nanos as int,
                    0,
                ),
            Err(TimeError::ClockUnavailable) => true,
            Err(TimeError::OutOfRange) => true,
            Err(_) => false,
        },
{
    match UnixTime::now() {
        Ok(instant) => utc_time_at(&instant),
        Err(_) => Err(TimeError::ClockUnavailable),
    }
}

/// Two snapshots that describe one instant for one timezone agree in every
/// field: the calendar fields and the textual encodings are settled by the
/// instant and the zone.
pub proof fn lemma_snapshot_settled(
    a: EnhancedTimeResponse,
    b: EnhancedTimeResponse,
    instant: UnixTime,
    zone: SnapshotZone,
)
    requires
        a.describes(instant, zone),
        b.describes(instant, zone),
    ensures
        a.agrees_with(b),
{
}

/// A snapshot for a timezone holds the same place on the time line, the same
/// nanosecond fields and the same calendar reading as the snapshot of the
/// instant in UTC: the zone changes the name, the offset and the textual
/// encodings, and nothing else.
pub proof fn lemma_zone_keeps_instant(
    utc: EnhancedTimeResponse,
    zoned: EnhancedTimeResponse,
    instant: UnixTime,
    zone: SnapshotZone,
)
    requires
        utc.describes(instant, SnapshotZone::Utc),
        zoned.describes(instant, zone),
    ensures
        zoned.unix == utc.unix,
        zoned.seconds == utc.seconds,
        zoned.nanos_since_epoch == utc.nanos_since_epoch,
        zoned.microseconds == utc.microseconds,
        zoned.milliseconds == utc.milliseconds,
        zoned.nanosecond == utc.nanosecond,
        zoned.year == utc.year,
        zoned.month == utc.month,
        zoned.day == utc.day,
        zoned.hour == utc.hour,
        zoned.minute == utc.minute,
        zoned.second == utc.second,
        zoned.weekday@ == utc.weekday@,
        zoned.week_of_year == utc.week_of_year,
        zoned.day_of_year == utc.day_of_year,
        zoned.custom_formats.text("unix_timestamp"@) == utc.custom_formats.text(
            "unix_timestamp"@,
        ),
{
}

} // verus!
