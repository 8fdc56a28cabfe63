//! Time source, synchronisation status and timestamp snapshots for a UTC
//! time service.
//!
//! Apart from reading the system clock, the library performs no input or
//! output of its own: callers hand it what they observed (the output of the
//! time daemon, the contents of its shared segment, the variables of the
//! environment) and it decides, parses and assembles.

pub mod auth;
pub mod error;
pub mod mcp;
pub mod ntp;
pub mod server;
pub mod server_sdk;
pub mod text;
pub mod time;

pub use auth::ApiKey;
pub use auth::ApiKeyValidator;
pub use ntp::NtpConfig;
pub use ntp::NtpStatusReport;
pub use ntp::NtpSyncedClock;
pub use time::utc::EnhancedTimeResponse;
pub use time::UnixTime;
