//! Error types of the time service, each with the text it is reported with.

use crate::text::join_text;
use vstd::prelude::*;

verus! {

/// A failure of the request layer, with the code it carries on the wire.
#[derive(Debug, Clone)]
pub enum McpError {
    InvalidRequest(String),
    TransportError(String),
    TimeError(String),
    InternalError(String),
    MethodNotFound(String),
    InvalidParams(String),
    ParseError(String),
    IoError(String),
    JsonError(String),
}

/// The JSON-RPC error code of `e`.
pub open spec fn error_code(e: McpError) -> int {
    match e {
        McpError::ParseError(_) => -32700,
        McpError::InvalidRequest(_) => -32600,
        McpError::MethodNotFound(_) => -32601,
        McpError::InvalidParams(_) => -32602,
        McpError::InternalError(_) => -32603,
        _ => -32000,
    }
}

/// The words that stand before the detail of `e` in its message.
pub open spec fn error_heading(e: McpError) -> Seq<char> {
    match e {
        McpError::InvalidRequest(_) => "Invalid request: "@,
        McpError::TransportError(_) => "Transport error: "@,
        McpError::TimeError(_) => "Time error: "@,
        McpError::InternalError(_) => "Internal error: "@,
        McpError::MethodNotFound(_) => "Method not found: "@,
        McpError::InvalidParams(_) => "Invalid parameters: "@,
        McpError::ParseError(_) => "Parse error: "@,
        McpError::IoError(_) => "IO error: "@,
        McpError::JsonError(_) => "JSON error: "@,
    }
}

/// The detail that `e` carries.
pub open spec fn error_detail(e: McpError) -> Seq<char> {
    match e {
        McpError::InvalidRequest(d) => d@,
        McpError::TransportError(d) => d@,
        McpError::TimeError(d) => d@,
        McpError::InternalError(d) => d@,
        McpError::MethodNotFound(d) => d@,
        McpError::InvalidParams(d) => d@,
        McpError::ParseError(d) => d@,
        McpError::IoError(d) => d@,
        McpError::JsonError(d) => d@,
    }
}

impl McpError {
    /// The JSON-RPC error code: the reserved codes for the five protocol
    /// failures, and -32000 for every failure of the server itself.
    pub fn code(&self) -> (c: i32)
        ensures
            c == error_code(*self),
    {
        match self {
            McpError::ParseError(_) => -32700,
            McpError::InvalidRequest(_) => -32600,
            McpError::MethodNotFound(_) => -32601,
            McpError::InvalidParams(_) => -32602,
            McpError::InternalError(_) => -32603,
            _ => -32000,
        }
    }

    /// The message of the error: its heading, then its detail.
    pub fn message(&self) -> (m: String)
        ensures
            m@ == error_heading(*self) + error_detail(*self),
    {
        match self {
            McpError::InvalidRequest(d) => join_text("Invalid request: ", d.as_str()),
            McpError::TransportError(d) => join_text("Transport error: ", d.as_str()),
            McpError::TimeError(d) => join_text("Time error: ", d.as_str()),
            McpError::InternalError(d) => join_text("Internal error: ", d.as_str()),
            McpError::MethodNotFound(d) => join_text("Method not found: ", d.as_str()),
            McpError::InvalidParams(d) => join_text("Invalid parameters: ", d.as_str()),
            McpError::ParseError(d) => join_text("Parse error: ", d.as_str()),
            McpError::IoError(d) => join_text("IO error: ", d.as_str()),
            McpError::JsonError(d) => join_text("JSON error: ", d.as_str()),
        }
    }
}

/// A failure of a calendar, format or timezone operation.
#[derive(Debug, Clone)]
pub enum TimeError {
    /// The name is not a timezone of the IANA database.
    InvalidTimezone(String),
    /// The pattern cannot be rendered.
    FormatError(String),
    /// The instant lies outside what can be shown, or its parts disagree.
    OutOfRange,
    /// The POSIX TZ string names no zone that is understood.
    UnsupportedTzString,
    /// The system clock gave no reading that stands for an instant.
    ClockUnavailable,
}

impl TimeError {
    /// The message of the error.
    pub fn message(&self) -> (m: String)
        ensures
            m@ == match *self {
                TimeError::InvalidTimezone(name) => "Invalid timezone: "@ + name@,
                TimeError::FormatError(pattern) => "Invalid format: "@ + pattern@,
                TimeError::OutOfRange => "Invalid timestamp"@,
                TimeError::UnsupportedTzString => "Unsupported TZ string"@,
                TimeError::ClockUnavailable => "System clock unavailable"@,
            },
    {
        match self {
            TimeError::InvalidTimezone(name) => join_text("Invalid timezone: ", name.as_str()),
            TimeError::FormatError(pattern) => join_text("Invalid format: ", pattern.as_str()),
            TimeError::OutOfRange => String::from_str("Invalid timestamp"),
            TimeError::UnsupportedTzString => String::from_str("Unsupported TZ string"),
            TimeError::ClockUnavailable => String::from_str("System clock unavailable"),
        }
    }
}

/// A failure to read the system clock.
#[derive(Debug, Clone, Copy, PartialEq, Eq)]
pub enum ClockError {
    /// The clock could not be read, or what it gave is no time of day.
    ClockUnavailable,
    /// The clock shows a time before the epoch.
    BeforeEpoch,
}

impl ClockError {
    /// The message of the error.
    pub fn message(&self) -> (m: String)
        ensures
            m@ == match *self {
                ClockError::ClockUnavailable => "System clock unavailable"@,
                ClockError::BeforeEpoch => "System time before Unix epoch"@,
            },
    {
        match self {
            ClockError::ClockUnavailable => String::from_str("System clock unavailable"),
            ClockError::BeforeEpoch => String::from_str("System time before Unix epoch"),
        }
    }
}

/// A failure to attach the shared-memory segment of the time daemon.
#[derive(Debug, Clone, Copy, PartialEq, Eq)]
pub enum ShmError {
    /// The unit is not one of 0, 1, 2, 3.
    InvalidUnit,
    /// The segment could not be found or created.
    SegmentCreateFailed,
    /// The segment could not be mapped into the process.
    SegmentAttachFailed,
}

impl ShmError {
    /// The message of the error.
    pub fn message(&self) -> (m: String)
        ensures
            m@ == match *self {
                ShmError::InvalidUnit => "SHM unit must be 0-3"@,
                ShmError::SegmentCreateFailed => "Failed to create SHM segment"@,
                ShmError::SegmentAttachFailed => "Failed to attach SHM segment"@,
            },
    {
        match self {
            ShmError::InvalidUnit => String::from_str("SHM unit must be 0-3"),
            ShmError::SegmentCreateFailed => String::from_str("Failed to create SHM segment"),
            ShmError::SegmentAttachFailed => String::from_str("Failed to attach SHM segment"),
        }
    }
}

/// A failure to question the time daemon.
#[derive(Debug, Clone)]
pub enum ProbeError {
    /// The status command could not be run, for a reason other than its
    /// absence or its slowness.
    ProbeExecutionFailed(String),
    /// Synchronisation was not reached within the time allowed.
    SyncTimeout,
}

impl ProbeError {
    /// The message of the error: the reason that a failed command carries,
    /// and a fixed line for a wait that ran out.
    pub fn message(&self) -> (m: String)
        ensures
            m@ == match *self {
                ProbeError::ProbeExecutionFailed(why) => why@,
                ProbeError::SyncTimeout => "NTP sync timeout"@,
            },
    {
        match self {
            ProbeError::ProbeExecutionFailed(why) => why.clone(),
            ProbeError::SyncTimeout => String::from_str("NTP sync timeout"),
        }
    }
}

} // verus!
