//! The plain request and response of the first form of the protocol.

use vstd::prelude::*;

verus! {

pub const MCP_VERSION: &'static str = "1.0";

pub const REQUEST_GET_UTC_TIME: &'static str = "GET_UTC_TIME";

pub const RESPONSE_UTC_TIME: &'static str = "UTC_TIME_RESPONSE";

/// A request for the time in UTC.
#[derive(Debug)]
pub struct UtcTimeRequest {
    pub request_type: String,
}

/// The time in UTC, as the answer to a request.
#[derive(Debug)]
pub struct UtcTimeResponse {
    pub response_type: String,
    pub utc_time: String,
}

impl UtcTimeRequest {
    /// The request.
    pub fn new() -> (r: UtcTimeRequest)
        ensures
            r.request_type@ == REQUEST_GET_UTC_TIME@,
    {
        UtcTimeRequest { request_type: String::from_str(REQUEST_GET_UTC_TIME) }
    }
}

impl UtcTimeResponse {
    /// The answer that carries `utc_time`.
    pub fn new(utc_time: String) -> (r: UtcTimeResponse)
        ensures
            r.response_type@ == RESPONSE_UTC_TIME@,
            r.utc_time == utc_time,
    {
        UtcTimeResponse { response_type: String::from_str(RESPONSE_UTC_TIME), utc_time }
    }
}

} // verus!
