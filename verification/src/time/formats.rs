//! Rendering of an instant by a strftime pattern.

use crate::error::TimeError;
use crate::time::unix::instant_held;
use crate::time::unix::UnixTime;
use crate::time::unix::NANOS_PER_SECOND;
use vstd::prelude::*;

verus! {

/// What chrono's `DateTime::<Utc>::format` writes for the instant `nanos`
/// nanoseconds after the second `secs` under `pattern`, or `None` where it
/// reports the pattern as one it cannot render.
pub uninterp spec fn strftime_text(secs: int, nanos: int, pattern: Seq<char>) -> Option<Seq<char>>;

/// The characters of a text that may be absent.
pub open spec fn text_of(r: Option<String>) -> Option<Seq<char>> {
    match r {
        Some(s) => Some(s@),
        None => None,
    }
}

/// `chrono::DateTime::<Utc>::format`, written out through
/// `DelayedFormat::write_to`: the text that chrono renders for the instant in
/// UTC under `pattern`, `None` where the rendering reports an error. The
/// result is a function of the three arguments and is only named here. The
/// instant must be one that chrono holds.
#[verifier::external_body]
pub(crate) fn render_utc(secs: i64, nanos: u32, pattern: &str) -> (r: Option<String>)
    requires
        instant_held(secs as int),
        nanos < NANOS_PER_SECOND,
    ensures
        text_of(r) == strftime_text(secs as int, nanos as int, pattern@),
{
    let moment = chrono::DateTime::from_timestamp(secs, nanos).unwrap();
    let mut out = String::new();
    match moment.format(pattern).write_to(&mut out) {
        Ok(()) => Some(out),
        Err(_) => None,
    }
}

/// Renders instants by C-style strftime patterns.
pub struct StrftimeFormatter;

/// Patterns for the common encodings of a date and time.
pub struct StandardFormats;

impl StandardFormats {
    pub const ISO_8601: &'static str = "%Y-%m-%dT%H:%M:%S%.f%:z";

    pub const RFC_3339: &'static str = "%Y-%m-%d %H:%M:%S%.f %:z";

    pub const RFC_2822: &'static str = "%a, %d %b %Y %H:%M:%S %z";

    pub const CTIME: &'static str = "%c";

    pub const UNIX_DATE: &'static str = "%a %b %e %H:%M:%S %Z %Y";

    pub const SYSLOG: &'static str = "%b %d %H:%M:%S";

    pub const APACHE_LOG: &'static str = "%d/%b/%Y:%H:%M:%S %z";

    pub const UNIX_TIMESTAMP: &'static str = "%s";
}

impl StrftimeFormatter {
    /// Renders `instant` in UTC under the strftime pattern `format`.
    ///
    /// Fails with `OutOfRange` where the parts of the instant disagree or
    /// chrono does not hold it, and with `FormatError`, which carries the
    /// pattern, where the pattern cannot be rendered.
    pub fn format(instant: &UnixTime, format: &str) -> (r: Result<String, TimeError>)
        ensures
            match r {
                Ok(text) => instant.held() && strftime_text(
                    instant.seconds as int,
                    instant.nanos as int,
                    format@,
                ) == Some(text@),
                Err(TimeError::OutOfRange) => !instant.held(),
                Err(TimeError::FormatError(p)) => instant.held() && strftime_text(
                    instant.seconds as int,
                    instant.nanos as int,
                    format@,
                ) is None && p@ == format@,
                Err(_) => false,
            },
    {
        if !instant.is_held() {
            return Err(TimeError::OutOfRange);
        }
        match render_utc(instant.seconds, instant.nanos, format) {
            Some(text) => Ok(text),
            None => Err(TimeError::FormatError(String::from_str(format))),
        }
    }
}

} // verus!
