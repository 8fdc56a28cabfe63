use mcp_utc_time_server::error::McpError;
use mcp_utc_time_server::mcp::transport::StdioTransport;
use mcp_utc_time_server::mcp::types::{McpRequest, McpResponse, ServerCapabilities};
use mcp_utc_time_server::server::handlers::{Prompt, Route, TimeHandler, Tool};
use mcp_utc_time_server::server::protocol::{
    UtcTimeRequest, UtcTimeResponse, MCP_VERSION, REQUEST_GET_UTC_TIME, RESPONSE_UTC_TIME,
};
use mcp_utc_time_server::server::{LineAction, McpServer};
use mcp_utc_time_server::time::UnixTime;

#[test]
fn what_a_method_asks_for() {
    let handler = TimeHandler::new();
    let cases = [
        ("notifications/initialized", Route::Notification),
        ("notifications/", Route::Notification),
        ("notifications", Route::Unknown),
        ("initialize", Route::Initialize),
        ("tools/list", Route::ToolsList),
        ("tools/call", Route::ToolsCall),
        ("prompts/list", Route::PromptsList),
        ("prompts/get", Route::PromptsGet),
        ("time/get", Route::TimeGet),
        ("time/get_with_format", Route::TimeGetWithFormat),
        ("time/get_with_timezone", Route::TimeGetWithTimezone),
        ("time/get_unix", Route::TimeGetUnix),
        ("time/get_nanos", Route::TimeGetNanos),
        ("time/list_timezones", Route::TimeListTimezones),
        ("time/convert", Route::TimeConvert),
        ("time/get ", Route::Unknown),
        ("Initialize", Route::Unknown),
        ("", Route::Unknown),
        ("tools", Route::Unknown),
    ];
    for (method, route) in cases {
        assert_eq!(handler.route(method), route, "{:?}", method);
    }
    match handler.unknown_method("nope") {
        McpError::MethodNotFound(m) => assert_eq!(m, "nope"),
        other => panic!("{:?}", other),
    }
    assert_eq!(handler.unknown_method("nope").code(), -32601);
}

#[test]
fn the_tools_and_their_names() {
    let handler = TimeHandler::new();
    let tools = handler.get_tool_definitions();
    let names: Vec<&str> = tools.iter().map(|t| t.name.as_str()).collect();
    assert_eq!(
        names,
        [
            "get_time",
            "get_unix_time",
            "get_nanos",
            "get_time_formatted",
            "get_time_with_timezone",
            "list_timezones",
            "convert_time"
        ]
    );
    let expected = [
        Tool::GetTime,
        Tool::GetUnixTime,
        Tool::GetNanos,
        Tool::GetTimeFormatted,
        Tool::GetTimeWithTimezone,
        Tool::ListTimezones,
        Tool::ConvertTime,
    ];
    for (definition, tool) in tools.iter().zip(expected) {
        assert_eq!(handler.tool(&definition.name), Some(tool));
        assert!(definition.title.is_some());
        assert!(!definition.description.is_empty());
    }
    assert_eq!(tools[0].title.as_deref(), Some("Get Current Time"));
    assert_eq!(
        tools[0].description,
        "Get current UTC time with full Unix/POSIX details"
    );
    assert!(tools[0].arguments.is_empty());
    assert_eq!(tools[3].arguments.len(), 1);
    assert_eq!(tools[3].arguments[0].name, "format");
    assert_eq!(tools[3].arguments[0].kind, "string");
    assert!(tools[3].arguments[0].required);
    assert_eq!(tools[4].arguments[0].name, "timezone");
    let convert: Vec<(&str, &str, bool)> = tools[6]
        .arguments
        .iter()
        .map(|a| (a.name.as_str(), a.kind.as_str(), a.required))
        .collect();
    assert_eq!(
        convert,
        [
            ("timestamp", "number", true),
            ("from_timezone", "string", false),
            ("to_timezone", "string", true)
        ]
    );
    assert_eq!(handler.tool("get_times"), None);
    assert_eq!(handler.tool(""), None);
    assert_eq!(handler.unknown_tool_text("x"), "Unknown tool: x");
}

#[test]
fn the_prompts_and_their_names() {
    let handler = TimeHandler::new();
    let prompts = handler.list_prompts();
    let names: Vec<&str> = prompts.iter().map(|p| p.name.as_str()).collect();
    assert_eq!(names, ["time", "time_in", "format_time", "unix_time"]);
    let expected = [Prompt::Time, Prompt::TimeIn, Prompt::FormatTime, Prompt::UnixTime];
    for (definition, prompt) in prompts.iter().zip(expected) {
        assert_eq!(handler.prompt(&definition.name).unwrap(), prompt);
    }
    assert_eq!(prompts[0].title.as_deref(), Some("\u{23f0} Current Time"));
    assert!(prompts[0].arguments.is_none());
    let zone = &prompts[1].arguments.as_ref().unwrap()[0];
    assert_eq!(zone.name, "timezone");
    assert_eq!(zone.required, Some(true));
    let format = &prompts[2].arguments.as_ref().unwrap()[0];
    assert_eq!(format.name, "format");
    assert!(prompts[3].arguments.is_none());
    match handler.prompt("clock") {
        Err(McpError::InvalidParams(why)) => assert_eq!(why, "Unknown prompt: clock"),
        other => panic!("{:?}", other),
    }
}

#[test]
fn the_texts_of_the_prompts() {
    let handler = TimeHandler::new();
    assert_eq!(
        handler.prompt_text(Prompt::Time, "", "{}"),
        "Here is the current UTC time:\n\n{}"
    );
    assert_eq!(
        handler.prompt_text(Prompt::TimeIn, "Asia/Tokyo", "{}"),
        "Here is the current time in Asia/Tokyo:\n\n{}"
    );
    assert_eq!(
        handler.prompt_text(Prompt::FormatTime, "%Y", "2023"),
        "Here is the current time formatted as '%Y':\n\n2023"
    );
    assert_eq!(
        handler.prompt_text(Prompt::UnixTime, "", "1"),
        "Here is the current Unix timestamp:\n\n1"
    );
    assert_eq!(
        handler.prompt_description(Prompt::Time, ""),
        "Current UTC time with full details"
    );
    assert_eq!(
        handler.prompt_description(Prompt::TimeIn, "Asia/Tokyo"),
        "Current time in Asia/Tokyo"
    );
    assert_eq!(
        handler.prompt_description(Prompt::FormatTime, "%Y"),
        "Time formatted as '%Y'"
    );
    assert_eq!(
        handler.prompt_description(Prompt::UnixTime, ""),
        "Current Unix timestamp"
    );
}

#[test]
fn the_start_of_a_session() {
    let identity = TimeHandler::new().handle_initialize();
    assert_eq!(identity.protocol_version, "2025-06-18");
    assert_eq!(identity.name, "mcp-utc-time-server");
    assert_eq!(identity.version, "0.1.0");
    let capabilities = ServerCapabilities::of_time_service();
    assert_eq!(capabilities.tools.unwrap().list_changed, Some(false));
    assert_eq!(capabilities.prompts.unwrap().list_changed, Some(false));
    assert!(capabilities.resources.is_none());
    let _ = StdioTransport::new();
}

#[test]
fn a_time_stamp_in_another_timezone() {
    let handler = TimeHandler::new();
    let answer = handler
        .convert_time(Some(1_700_000_000), None, Some("America/New_York"))
        .unwrap();
    assert_eq!(answer.original.timestamp, 1_700_000_000);
    assert_eq!(answer.original.timezone, "UTC");
    assert_eq!(answer.original.formatted, "2023-11-14T22:13:20+00:00");
    assert_eq!(answer.converted.timestamp, 1_700_000_000);
    assert_eq!(answer.converted.timezone, "America/New_York");
    assert_eq!(answer.converted.formatted, "2023-11-14T17:13:20-05:00");
    assert_eq!(answer.converted.offset, -18_000);

    let named = handler
        .convert_time(Some(0), Some("Europe/Paris"), Some("Asia/Tokyo"))
        .unwrap();
    assert_eq!(named.original.timezone, "Europe/Paris");
    assert_eq!(named.original.formatted, "1970-01-01T00:00:00+00:00");
    assert_eq!(named.converted.formatted, "1970-01-01T09:00:00+09:00");
    assert_eq!(named.converted.offset, 32_400);
}

fn invalid(result: Result<mcp_utc_time_server::server::handlers::TimeConversion, McpError>) -> String {
    match result {
        Err(McpError::InvalidParams(why)) => why,
        other => panic!("{:?}", other),
    }
}

#[test]
fn a_conversion_that_cannot_be_made() {
    let handler = TimeHandler::new();
    assert_eq!(
        invalid(handler.convert_time(None, None, Some("UTC"))),
        "timestamp required"
    );
    assert_eq!(invalid(handler.convert_time(None, None, None)), "timestamp required");
    assert_eq!(
        invalid(handler.convert_time(Some(0), Some("UTC"), None)),
        "to_timezone required"
    );
    assert_eq!(
        invalid(handler.convert_time(Some(i64::MAX), None, Some("UTC"))),
        "Invalid timestamp"
    );
    // a time stamp after the year 9999 is converted as any other
    let far = handler
        .convert_time(Some(1_000_000_000_000), None, Some("Asia/Tokyo"))
        .unwrap();
    assert_eq!(far.original.formatted, "+33658-09-27T01:46:40+00:00");
    assert_eq!(far.converted.formatted, "+33658-09-27T10:46:40+09:00");
    assert_eq!(far.converted.timestamp, 1_000_000_000_000);
    assert_eq!(far.converted.offset, 32_400);
    assert_eq!(
        invalid(handler.convert_time(Some(i64::MIN), None, Some("Nowhere"))),
        "Invalid timestamp"
    );
    assert_eq!(
        invalid(handler.convert_time(Some(0), None, Some("Nowhere"))),
        "Invalid timezone: Nowhere"
    );
}

#[test]
fn the_time_under_a_pattern_of_the_caller() {
    let handler = TimeHandler::new();
    let instant = UnixTime::new(1_700_000_000, 5).unwrap();
    let answer = handler.formatted_at(&instant, "%Y-%m-%d").unwrap();
    assert_eq!(answer.formatted, "2023-11-14");
    assert_eq!(answer.format, "%Y-%m-%d");
    assert_eq!(answer.unix_seconds, 1_700_000_000);
    assert_eq!(answer.unix_nanos, 5);
    match handler.formatted_at(&instant, "%Q") {
        Err(McpError::TimeError(why)) => assert_eq!(why, "Invalid format: %Q"),
        other => panic!("{:?}", other),
    }
    match handler.get_time_formatted(None) {
        Err(McpError::InvalidParams(why)) => assert_eq!(why, "format required"),
        other => panic!("{:?}", other),
    }
    let now = handler.get_time_formatted(Some("%Y")).unwrap();
    assert_eq!(now.formatted.len(), 4);
    assert!(matches!(
        handler.get_time_formatted(Some("%Q")),
        Err(McpError::TimeError(_))
    ));
}

#[test]
fn the_time_for_a_timezone_of_the_caller() {
    let handler = TimeHandler::new();
    let snapshot = handler.get_time_with_tz(Some("Asia/Tokyo")).unwrap();
    assert_eq!(snapshot.timezone, "Asia/Tokyo");
    assert_eq!(snapshot.offset, 32_400);
    match handler.get_time_with_tz(None) {
        Err(McpError::InvalidParams(why)) => assert_eq!(why, "timezone required"),
        other => panic!("{:?}", other),
    }
    match handler.get_time_with_tz(Some("Invalid/Zone")) {
        Err(McpError::InvalidParams(why)) => assert_eq!(why, "Invalid timezone: Invalid/Zone"),
        other => panic!("{:?}", other),
    }
    assert_eq!(handler.get_time().unwrap().timezone, "UTC");
    assert!(handler.get_unix_time().unwrap().seconds > 1_700_000_000);
    assert!(handler.list_timezones().len() > 100);
}

#[test]
fn the_lines_of_the_input() {
    let _server = McpServer::new();
    assert!(matches!(McpServer::classify_line(""), LineAction::Skip));
    assert!(matches!(McpServer::classify_line(" \t\r\n"), LineAction::Skip));
    match McpServer::classify_line("  {\"jsonrpc\":\"2.0\"}\r\n") {
        LineAction::Handle(request) => assert_eq!(request, "{\"jsonrpc\":\"2.0\"}"),
        other => panic!("{:?}", other),
    }
}

#[test]
fn the_plain_request_and_response() {
    assert_eq!(MCP_VERSION, "1.0");
    assert_eq!(UtcTimeRequest::new().request_type, "GET_UTC_TIME");
    assert_eq!(REQUEST_GET_UTC_TIME, "GET_UTC_TIME");
    let response = UtcTimeResponse::new("2023-11-14T22:13:20+00:00".to_string());
    assert_eq!(response.response_type, RESPONSE_UTC_TIME);
    assert_eq!(response.response_type, "UTC_TIME_RESPONSE");
    assert_eq!(response.utc_time, "2023-11-14T22:13:20+00:00");
}

#[test]
fn requests_and_responses() {
    let request = McpRequest::new(
        "time/get".to_string(),
        serde_json::Value::Null,
        Some(serde_json::Value::from(7)),
    );
    assert_eq!(request.jsonrpc, "2.0");
    assert_eq!(request.method, "time/get");
    assert!(request.params.is_null());
    assert_eq!(request.id, Some(serde_json::Value::from(7)));

    let ok = McpResponse::success(serde_json::Value::from("done"), request.id);
    assert_eq!(ok.jsonrpc, "2.0");
    assert_eq!(ok.result, Some(serde_json::Value::from("done")));
    assert!(ok.error.is_none());
    assert_eq!(ok.id, Some(serde_json::Value::from(7)));

    let failed = McpResponse::error(-32601, "Method not found: x".to_string(), None);
    assert_eq!(failed.jsonrpc, "2.0");
    assert!(failed.result.is_none());
    let error = failed.error.unwrap();
    assert_eq!(error.code, -32601);
    assert_eq!(error.message, "Method not found: x");
    assert!(error.data.is_none());
    assert!(failed.id.is_none());

    let reported = McpResponse::failure(
        &McpError::InvalidParams("format required".to_string()),
        Some(serde_json::Value::from("a")),
    );
    let error = reported.error.unwrap();
    assert_eq!(error.code, -32602);
    assert_eq!(error.message, "Invalid parameters: format required");
    assert_eq!(reported.id, Some(serde_json::Value::from("a")));
}
