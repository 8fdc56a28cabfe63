//! What the service decides at its start and on its health port, apart from
//! the sockets and the protocol machinery that carry it out.

use crate::text::decimal_digits;
use crate::text::decimal_text;
use crate::text::integer_text;
use crate::text::parse_u16;
use crate::text::range_starts_with;
use crate::text::same_text;
use crate::text::starts_with_text;
use crate::text::to_chars;
use crate::text::unsigned_numeral;
use crate::text::unsigned_text;
use crate::time::unix::UnixTime;
use vstd::prelude::*;

verus! {

/// The port of the health server where none is set.
pub const DEFAULT_HEALTH_PORT: u16 = 3000;

/// What a request on the health port asks for.
#[derive(Debug, Clone, Copy, PartialEq, Eq)]
pub enum HealthRoute {
    /// The state of the service.
    Health,
    /// The time, as metrics to be scraped.
    Metrics,
    /// Nothing that is served.
    NotFound,
}

/// Which servers the process runs.
#[derive(Debug, Clone, Copy, PartialEq, Eq)]
pub enum StartupMode {
    /// The HTTP server alone: a container has no standard input to speak the
    /// protocol over.
    HttpOnly,
    /// The HTTP server beside the protocol server on standard input and
    /// output.
    HttpAndStdio,
    /// The protocol server alone.
    StdioOnly,
}

/// The signals by which the process knows at its start that it runs in a
/// container, as the caller found them in the environment.
#[derive(Debug, Clone, Copy)]
pub struct ContainerSignals {
    /// `CONTAINER_APP_NAME` is set.
    pub container_app_name: bool,
    /// `KUBERNETES_SERVICE_HOST` is set.
    pub kubernetes_service_host: bool,
    /// `HTTP_API_ONLY` is set.
    pub http_api_only: bool,
}

impl ContainerSignals {
    /// Whether any of the signals is present.
    pub open spec fn in_container(&self) -> bool {
        self.container_app_name || self.kubernetes_service_host || self.http_api_only
    }
}

/// What a request that begins with `request` asks for.
pub open spec fn health_route_of(request: Seq<char>) -> HealthRoute {
    if starts_with_text(request, "GET /health"@) {
        HealthRoute::Health
    } else if starts_with_text(request, "GET /metrics"@) {
        HealthRoute::Metrics
    } else {
        HealthRoute::NotFound
    }
}

/// The head of the answer to a request, up to and with the empty line.
pub open spec fn response_head(route: HealthRoute) -> Seq<char> {
    match route {
        HealthRoute::Health =>
            "HTTP/1.1 200 OK\r\nContent-Type: application/json\r\nConnection: close\r\n\r\n"@,
        HealthRoute::Metrics =>
            "HTTP/1.1 200 OK\r\nContent-Type: text/plain\r\nConnection: close\r\n\r\n"@,
        HealthRoute::NotFound => "HTTP/1.1 404 Not Found\r\nConnection: close\r\n\r\n"@,
    }
}

/// The body of the answer to a request: `body` where something is served,
/// and a fixed line where nothing is.
pub open spec fn response_body(route: HealthRoute, body: Seq<char>) -> Seq<char> {
    match route {
        HealthRoute::NotFound => "404 Not Found"@,
        _ => body,
    }
}

/// The metrics of an instant `nanos` nanoseconds after the second
/// `seconds`: two gauges, each with its help and its type.
pub open spec fn metrics_text(seconds: int, nanos: nat) -> Seq<char> {
    "# HELP mcp_time_seconds Current Unix timestamp\n# TYPE mcp_time_seconds gauge\nmcp_time_seconds "@
        + decimal_text(seconds)
        + "\n# HELP mcp_time_nanos Current nanoseconds component\n# TYPE mcp_time_nanos gauge\nmcp_time_nanos "@
        + decimal_digits(nanos) + "\n"@
}

/// What a switch of the environment says: `true` and `false` are read as
/// they stand, and anything else, or no setting at all, as `true`.
pub open spec fn switch_is_on(setting: Option<&str>) -> bool {
    match setting {
        Some(text) => text@ != "false"@,
        None => true,
    }
}

/// What a request on the health port asks for: it is known by how it
/// begins.
pub fn health_route(request: &str) -> (r: HealthRoute)
    ensures
        r == health_route_of(request@),
{
    let chars = to_chars(request);
    assert(chars@.subrange(0, chars@.len() as int) =~= chars@);
    if range_starts_with(&chars, 0, chars.len(), &to_chars("GET /health")) {
        HealthRoute::Health
    } else if range_starts_with(&chars, 0, chars.len(), &to_chars("GET /metrics")) {
        HealthRoute::Metrics
    } else {
        HealthRoute::NotFound
    }
}

/// The port of the health server: the number that `setting`, the value of
/// `HEALTH_PORT`, writes, and 3000 where it is not set or writes no port.
pub fn health_port(setting: Option<&str>) -> (r: u16)
    ensures
        r == match setting {
            Some(text) => match unsigned_numeral(text@, u16::MAX as int) {
                Some(port) => port,
                None => DEFAULT_HEALTH_PORT as int,
            },
            None => DEFAULT_HEALTH_PORT as int,
        },
{
    match setting {
        Some(text) => match parse_u16(text) {
            Some(port) => port,
            None => DEFAULT_HEALTH_PORT,
        },
        None => DEFAULT_HEALTH_PORT,
    }
}

/// The time as metrics to be scraped.
pub fn metrics_body(instant: &UnixTime) -> (r: String)
    ensures
        r@ == metrics_text(instant.seconds as int, instant.nanos as nat),
{
    let mut text = String::from_str(
        "# HELP mcp_time_seconds Current Unix timestamp\n# TYPE mcp_time_seconds gauge\nmcp_time_seconds ",
    );
    text.append(integer_text(instant.seconds).as_str());
    text.append(
        "\n# HELP mcp_time_nanos Current nanoseconds component\n# TYPE mcp_time_nanos gauge\nmcp_time_nanos ",
    );
    text.append(unsigned_text(instant.nanos as u64).as_str());
    text.append("\n");
    text
}

/// The answer to a request on the health port: its head, then its body.
pub fn http_response(route: HealthRoute, body: &str) -> (r: String)
    ensures
        r@ == response_head(route) + response_body(route, body@),
{
    match route {
        HealthRoute::Health => {
            let mut text = String::from_str(
                "HTTP/1.1 200 OK\r\nContent-Type: application/json\r\nConnection: close\r\n\r\n",
            );
            text.append(body);
            text
        },
        HealthRoute::Metrics => {
            let mut text = String::from_str(
                "HTTP/1.1 200 OK\r\nContent-Type: text/plain\r\nConnection: close\r\n\r\n",
            );
            text.append(body);
            text
        },
        HealthRoute::NotFound => {
            let mut text = String::from_str("HTTP/1.1 404 Not Found\r\nConnection: close\r\n\r\n");
            text.append("404 Not Found");
            text
        },
    }
}

/// Which servers the process runs: in a container, which any one of the
/// signals shows, the HTTP server alone; elsewhere the protocol server, with
/// the HTTP server beside it unless it is switched off. The switch is
/// `http_api`, the value of `ENABLE_HTTP_API`, and `health_server`, that of
/// `ENABLE_HEALTH_SERVER`, only where the first is not set.
pub fn startup_mode(
    http_api: Option<&str>,
    health_server: Option<&str>,
    signals: &ContainerSignals,
) -> (r: StartupMode)
    ensures
        r == if signals.in_container() {
            StartupMode::HttpOnly
        } else if switch_is_on(
            match http_api {
                Some(_) => http_api,
                None => health_server,
            },
        ) {
            StartupMode::HttpAndStdio
        } else {
            StartupMode::StdioOnly
        },
{
    let setting = match http_api {
        Some(_) => http_api,
        None => health_server,
    };
    let enabled = match setting {
        Some(text) => !same_text(text, "false"),
        None => true,
    };
    if signals.container_app_name || signals.kubernetes_service_host || signals.http_api_only {
        StartupMode::HttpOnly
    } else if enabled {
        StartupMode::HttpAndStdio
    } else {
        StartupMode::StdioOnly
    }
}

} // verus!
