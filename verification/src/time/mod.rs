//! Instants, their calendar reading and their textual encodings.

pub mod formats;
pub mod timezone;
pub mod unix;
pub mod utc;

pub use formats::StandardFormats;
pub use formats::StrftimeFormatter;
pub use timezone::LocalInstant;
pub use timezone::TimezoneConverter;
pub use timezone::TimezoneInfo;
pub use unix::UnixTime;
