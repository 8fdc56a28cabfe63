//! The time daemon as this service sees it: its configuration, its
//! shared-memory channel and its synchronisation status.

pub mod config;
pub mod layout;
pub mod sync;

pub use config::NtpConfig;
pub use sync::NtpStatusReport;
pub use sync::NtpSyncedClock;
