//! What the requests of the protocol ask for, and the answers of the time
//! tools as typed values.

use crate::error::McpError;
use crate::error::TimeError;
use crate::mcp::types::PromptArgument;
use crate::mcp::types::PromptDefinition;
use crate::mcp::types::ToolArgument;
use crate::mcp::types::ToolDefinition;
use crate::text::join_text;
use crate::text::range_starts_with;
use crate::text::same_text;
use crate::text::starts_with_text;
use crate::text::to_chars;
use crate::time::formats::strftime_text;
use crate::time::timezone::zone_known;
use crate::time::timezone::zone_offset;
use crate::time::timezone::TimezoneConverter;
use crate::time::unix::instant_held;
use crate::time::unix::UnixTime;
use crate::time::utc::render_rfc3339;
use crate::time::utc::rfc3339_text;
use crate::time::utc::EnhancedTimeResponse;
use crate::time::utc::SnapshotZone;
use vstd::prelude::*;

verus! {

/// Answers the requests for the time.
#[derive(Debug, Clone, Copy, PartialEq, Eq)]
pub struct TimeHandler;

/// What a request asks for, by its method.
#[derive(Debug, Clone, Copy, PartialEq, Eq)]
pub enum Route {
    Notification,
    Initialize,
    ToolsList,
    ToolsCall,
    PromptsList,
    PromptsGet,
    TimeGet,
    TimeGetWithFormat,
    TimeGetWithTimezone,
    TimeGetUnix,
    TimeGetNanos,
    TimeListTimezones,
    TimeConvert,
    Unknown,
}

/// The tools of the service.
#[derive(Debug, Clone, Copy, PartialEq, Eq)]
pub enum Tool {
    GetTime,
    GetUnixTime,
    GetNanos,
    GetTimeFormatted,
    GetTimeWithTimezone,
    ListTimezones,
    ConvertTime,
}

/// The prompts of the service.
#[derive(Debug, Clone, Copy, PartialEq, Eq)]
pub enum Prompt {
    Time,
    TimeIn,
    FormatTime,
    UnixTime,
}

/// The time under a pattern of the caller.
#[derive(Debug, Clone)]
pub struct FormattedTime {
    pub formatted: String,
    pub format: String,
    pub unix_seconds: i64,
    pub unix_nanos: u32,
}

/// A time stamp as one timezone shows it.
#[derive(Debug, Clone)]
pub struct ZonedStamp {
    pub timestamp: i64,
    pub timezone: String,
    pub formatted: String,
    pub offset: i32,
}

/// A time stamp, and the same as another timezone shows it.
#[derive(Debug, Clone)]
pub struct TimeConversion {
    pub original: ZonedStamp,
    pub converted: ZonedStamp,
}

/// What the server says of itself at the start of a session.
#[derive(Debug, Clone)]
pub struct ServerIdentity {
    pub protocol_version: String,
    pub name: String,
    pub version: String,
}

/// What a request with the method `method` asks for. Every method that
/// begins with `notifications/` is a notification; the others are known by
/// their whole name.
pub open spec fn route_of(method: Seq<char>) -> Route {
    if starts_with_text(method, "notifications/"@) {
        Route::Notification
    } else if method == "initialize"@ {
        Route::Initialize
    } else if method == "tools/list"@ {
        Route::ToolsList
    } else if method == "tools/call"@ {
        Route::ToolsCall
    } else if method == "prompts/list"@ {
        Route::PromptsList
    } else if method == "prompts/get"@ {
        Route::PromptsGet
    } else if method == "time/get"@ {
        Route::TimeGet
    } else if method == "time/get_with_format"@ {
        Route::TimeGetWithFormat
    } else if method == "time/get_with_timezone"@ {
        Route::TimeGetWithTimezone
    } else if method == "time/get_unix"@ {
        Route::TimeGetUnix
    } else if method == "time/get_nanos"@ {
        Route::TimeGetNanos
    } else if method == "time/list_timezones"@ {
        Route::TimeListTimezones
    } else if method == "time/convert"@ {
        Route::TimeConvert
    } else {
        Route::Unknown
    }
}

/// The tool that goes by `name`.
pub open spec fn tool_of(name: Seq<char>) -> Option<Tool> {
    if name == "get_time"@ {
        Some(Tool::GetTime)
    } else if name == "get_unix_time"@ {
        Some(Tool::GetUnixTime)
    } else if name == "get_nanos"@ {
        Some(Tool::GetNanos)
    } else if name == "get_time_formatted"@ {
        Some(Tool::GetTimeFormatted)
    } else if name == "get_time_with_timezone"@ {
        Some(Tool::GetTimeWithTimezone)
    } else if name == "list_timezones"@ {
        Some(Tool::ListTimezones)
    } else if name == "convert_time"@ {
        Some(Tool::ConvertTime)
    } else {
        None
    }
}

/// The prompt that goes by `name`.
pub open spec fn prompt_of(name: Seq<char>) -> Option<Prompt> {
    if name == "time"@ {
        Some(Prompt::Time)
    } else if name == "time_in"@ {
        Some(Prompt::TimeIn)
    } else if name == "format_time"@ {
        Some(Prompt::FormatTime)
    } else if name == "unix_time"@ {
        Some(Prompt::UnixTime)
    } else {
        None
    }
}

/// The line that introduces the data of a prompt; `argument` is the
/// timezone or the pattern that the prompt was asked with.
pub open spec fn prompt_intro(prompt: Prompt, argument: Seq<char>) -> Seq<char> {
    match prompt {
        Prompt::Time => "Here is the current UTC time:\n\n"@,
        Prompt::TimeIn => "Here is the current time in "@ + argument + ":\n\n"@,
        Prompt::FormatTime => "Here is the current time formatted as '"@ + argument + "':\n\n"@,
        Prompt::UnixTime => "Here is the current Unix timestamp:\n\n"@,
    }
}

/// What a prompt is said to give; `argument` is the timezone or the pattern
/// that the prompt was asked with.
pub open spec fn prompt_summary(prompt: Prompt, argument: Seq<char>) -> Seq<char> {
    match prompt {
        Prompt::Time => "Current UTC time with full details"@,
        Prompt::TimeIn => "Current time in "@ + argument,
        Prompt::FormatTime => "Time formatted as '"@ + argument + "'"@,
        Prompt::UnixTime => "Current Unix timestamp"@,
    }
}

/// The names of the tools, in the order in which they are listed.
pub open spec fn tool_names() -> Seq<Seq<char>> {
    seq![
        "get_time"@,
        "get_unix_time"@,
        "get_nanos"@,
        "get_time_formatted"@,
        "get_time_with_timezone"@,
        "list_timezones"@,
        "convert_time"@,
    ]
}

/// The names of the prompts, in the order in which they are listed.
pub open spec fn prompt_names() -> Seq<Seq<char>> {
    seq!["time"@, "time_in"@, "format_time"@, "unix_time"@]
}

/// What an argument of a tool is to hold.
pub struct ArgumentPlan {
    pub name: Seq<char>,
    pub kind: Seq<char>,
    pub description: Seq<char>,
    pub required: bool,
}

/// The title under which the tool `tool` is shown.
pub open spec fn tool_title(tool: Tool) -> Seq<char> {
    match tool {
        Tool::GetTime => "Get Current Time"@,
        Tool::GetUnixTime => "Get Unix Time"@,
        Tool::GetNanos => "Get Nanoseconds"@,
        Tool::GetTimeFormatted => "Get Formatted Time"@,
        Tool::GetTimeWithTimezone => "Get Time in Timezone"@,
        Tool::ListTimezones => "List Timezones"@,
        Tool::ConvertTime => "Convert Time"@,
    }
}

/// What the tool `tool` is said to do.
pub open spec fn tool_summary(tool: Tool) -> Seq<char> {
    match tool {
        Tool::GetTime => "Get current UTC time with full Unix/POSIX details"@,
        Tool::GetUnixTime => "Get Unix epoch time with nanosecond precision"@,
        Tool::GetNanos => "Get nanoseconds since Unix epoch"@,
        Tool::GetTimeFormatted => "Get time formatted with strftime format string"@,
        Tool::GetTimeWithTimezone => "Get time in specified timezone"@,
        Tool::ListTimezones => "List all available IANA timezones"@,
        Tool::ConvertTime => "Convert timestamp between timezones"@,
    }
}

/// The arguments that the tool `tool` takes, in order.
pub open spec fn tool_arguments(tool: Tool) -> Seq<ArgumentPlan> {
    match tool {
        Tool::GetTimeFormatted => seq![
            ArgumentPlan {
                name: "format"@,
                kind: "string"@,
                description: "strftime format string (e.g., '%Y-%m-%d %H:%M:%S')"@,
                required: true,
            },
        ],
        Tool::GetTimeWithTimezone => seq![
            ArgumentPlan {
                name: "timezone"@,
                kind: "string"@,
                description: "IANA timezone name (e.g., 'America/New_York', 'Europe/London')"@,
                required: true,
            },
        ],
        Tool::ConvertTime => seq![
            ArgumentPlan {
                name: "timestamp"@,
                kind: "number"@,
                description: "Unix timestamp in seconds"@,
                required: true,
            },
            ArgumentPlan {
                name: "from_timezone"@,
                kind: "string"@,
                description: "Source timezone (optional, defaults to UTC)"@,
                required: false,
            },
            ArgumentPlan {
                name: "to_timezone"@,
                kind: "string"@,
                description: "Target timezone"@,
                required: true,
            },
        ],
        _ => Seq::empty(),
    }
}

/// The title under which the prompt `prompt` is shown.
pub open spec fn prompt_title(prompt: Prompt) -> Seq<char> {
    match prompt {
        Prompt::Time => "\u{23f0} Current Time"@,
        Prompt::TimeIn => "\u{1f30d} Time in Timezone"@,
        Prompt::FormatTime => "\u{1f4c5} Format Time"@,
        Prompt::UnixTime => "\u{1f550} Unix Timestamp"@,
    }
}

/// What the prompt `prompt` is said to give, in the list of prompts.
pub open spec fn prompt_listing(prompt: Prompt) -> Seq<char> {
    match prompt {
        Prompt::Time => "Get the current UTC time with detailed information"@,
        Prompt::TimeIn => "Get the current time in a specific timezone"@,
        Prompt::FormatTime => "Get the current time in a custom format"@,
        Prompt::UnixTime => "Get the current Unix timestamp with nanosecond precision"@,
    }
}

/// The argument that the prompt `prompt` takes, if it takes one: its name
/// and what is said of it.
pub open spec fn prompt_argument(prompt: Prompt) -> Option<(Seq<char>, Seq<char>)> {
    match prompt {
        Prompt::Time => None,
        Prompt::TimeIn => Some(("timezone"@, "IANA timezone name (e.g., 'America/New_York')"@)),
        Prompt::FormatTime => Some(
            ("format"@, "strftime format string (e.g., '%Y-%m-%d %H:%M:%S')"@),
        ),
        Prompt::UnixTime => None,
    }
}

/// The tools, in the order in which they are listed.
pub open spec fn listed_tools() -> Seq<Tool> {
    seq![
        Tool::GetTime,
        Tool::GetUnixTime,
        Tool::GetNanos,
        Tool::GetTimeFormatted,
        Tool::GetTimeWithTimezone,
        Tool::ListTimezones,
        Tool::ConvertTime,
    ]
}

/// The prompts, in the order in which they are listed.
pub open spec fn listed_prompts() -> Seq<Prompt> {
    seq![Prompt::Time, Prompt::TimeIn, Prompt::FormatTime, Prompt::UnixTime]
}

/// The name under which a tool is listed calls that tool and no other, and
/// the name under which a prompt is listed gets that prompt.
pub proof fn lemma_listed_names_resolve()
    ensures
        tool_names().len() == listed_tools().len(),
        forall|i: int|
            0 <= i < tool_names().len() ==> tool_of(#[trigger] tool_names()[i]) == Some(
                listed_tools()[i],
            ),
        prompt_names().len() == listed_prompts().len(),
        forall|i: int|
            0 <= i < prompt_names().len() ==> prompt_of(#[trigger] prompt_names()[i]) == Some(
                listed_prompts()[i],
            ),
{
    reveal_strlit("get_time");
    reveal_strlit("get_unix_time");
    reveal_strlit("get_nanos");
    reveal_strlit("get_time_formatted");
    reveal_strlit("get_time_with_timezone");
    reveal_strlit("list_timezones");
    reveal_strlit("convert_time");
    reveal_strlit("time");
    reveal_strlit("time_in");
    reveal_strlit("format_time");
    reveal_strlit("unix_time");
    // the names are told apart by their lengths
    assert("get_unix_time"@.len() == 13);
    assert("get_nanos"@.len() == 9);
    assert("get_time_formatted"@.len() == 18);
    assert("get_time_with_timezone"@.len() == 22);
    assert("list_timezones"@.len() == 14);
    assert("convert_time"@.len() == 12);
    assert("time_in"@.len() == 7);
    assert("format_time"@.len() == 11);
    assert("unix_time"@.len() == 9);
}

fn argument(name: &str, kind: &str, description: &str, required: bool) -> (r: ToolArgument)
    ensures
        r.name@ == name@,
        r.kind@ == kind@,
        r.description@ == description@,
        r.required == required,
{
    ToolArgument {
        name: String::from_str(name),
        kind: String::from_str(kind),
        description: String::from_str(description),
        required,
    }
}

fn definition(name: &str, title: &str, description: &str, arguments: Vec<ToolArgument>) -> (r:
    ToolDefinition)
    ensures
        r.name@ == name@,
        r.title matches Some(t) && t@ == title@,
        r.description@ == description@,
        r.arguments == arguments,
{
    ToolDefinition {
        name: String::from_str(name),
        title: Some(String::from_str(title)),
        description: String::from_str(description),
        arguments,
    }
}

fn offered_prompt(name: &str, title: &str, description: &str, argument: Option<(&str, &str)>) -> (r:
    PromptDefinition)
    ensures
        r.name@ == name@,
        r.title matches Some(t) && t@ == title@,
        r.description matches Some(d) && d@ == description@,
        match argument {
            None => r.arguments is None,
            Some(a) => r.arguments matches Some(list) && list.len() == 1 && list[0].name@ == a.0@
                && (list[0].description matches Some(d) && d@ == a.1@) && list[0].required
                == Some(true),
        },
{
    let arguments = match argument {
        None => None,
        Some((argument_name, argument_description)) => {
            let mut list: Vec<PromptArgument> = Vec::new();
            list.push(
                PromptArgument {
                    name: String::from_str(argument_name),
                    description: Some(String::from_str(argument_description)),
                    required: Some(true),
                },
            );
            Some(list)
        },
    };
    PromptDefinition {
        name: String::from_str(name),
        title: Some(String::from_str(title)),
        description: Some(String::from_str(description)),
        arguments,
    }
}

impl ToolArgument {
    /// What the argument holds.
    pub open spec fn plan(&self) -> ArgumentPlan {
        ArgumentPlan {
            name: self.name@,
            kind: self.kind@,
            description: self.description@,
            required: self.required,
        }
    }
}

impl ToolDefinition {
    /// The definition is that of the tool `tool`, under the name `name`: it
    /// has the title, the description and the arguments of the tool.
    pub open spec fn defines(&self, name: Seq<char>, tool: Tool) -> bool {
        &&& self.name@ == name
        &&& self.title matches Some(title) && title@ == tool_title(tool)
        &&& self.description@ == tool_summary(tool)
        &&& self.arguments.len() == tool_arguments(tool).len()
        &&& forall|i: int|
            0 <= i < self.arguments.len() ==> (#[trigger] self.arguments[i]).plan()
                == tool_arguments(tool)[i]
    }
}

impl PromptDefinition {
    /// The definition is that of the prompt `prompt`, under the name `name`:
    /// it has the title and the description of the prompt, and its argument,
    /// which must be given.
    pub open spec fn defines(&self, name: Seq<char>, prompt: Prompt) -> bool {
        &&& self.name@ == name
        &&& self.title matches Some(title) && title@ == prompt_title(prompt)
        &&& self.description matches Some(description) && description@ == prompt_listing(prompt)
        &&& match prompt_argument(prompt) {
            None => self.arguments is None,
            Some(argument) => self.arguments matches Some(list) && list.len() == 1
                && list[0].name@ == argument.0 && (list[0].description matches Some(d) && d@
                == argument.1) && list[0].required == Some(true),
        }
    }
}

impl TimeHandler {
    /// The tools of the service, in the order of `tool_names`, each with its
    /// title, its description and its arguments.
    pub fn get_tool_definitions(&self) -> (r: Vec<ToolDefinition>)
        ensures
            r.len() == 7,
            r[0].defines("get_time"@, Tool::GetTime),
            r[1].defines("get_unix_time"@, Tool::GetUnixTime),
            r[2].defines("get_nanos"@, Tool::GetNanos),
            r[3].defines("get_time_formatted"@, Tool::GetTimeFormatted),
            r[4].defines("get_time_with_timezone"@, Tool::GetTimeWithTimezone),
            r[5].defines("list_timezones"@, Tool::ListTimezones),
            r[6].defines("convert_time"@, Tool::ConvertTime),
    {
        let mut tools: Vec<ToolDefinition> = Vec::new();
        tools.push(
            definition(
                "get_time",
                "Get Current Time",
                "Get current UTC time with full Unix/POSIX details",
                Vec::new(),
            ),
        );
        tools.push(
            definition(
                "get_unix_time",
                "Get Unix Time",
                "Get Unix epoch time with nanosecond precision",
                Vec::new(),
            ),
        );
        tools.push(
            definition(
                "get_nanos",
                "Get Nanoseconds",
                "Get nanoseconds since Unix epoch",
                Vec::new(),
            ),
        );
        let mut format_arguments: Vec<ToolArgument> = Vec::new();
        format_arguments.push(
            argument(
                "format",
                "string",
                "strftime format string (e.g., '%Y-%m-%d %H:%M:%S')",
                true,
            ),
        );
        tools.push(
            definition(
                "get_time_formatted",
                "Get Formatted Time",
                "Get time formatted with strftime format string",
                format_arguments,
            ),
        );
        let mut zone_arguments: Vec<ToolArgument> = Vec::new();
        zone_arguments.push(
            argument(
                "timezone",
                "string",
                "IANA timezone name (e.g., 'America/New_York', 'Europe/London')",
                true,
            ),
        );
        tools.push(
            definition(
                "get_time_with_timezone",
                "Get Time in Timezone",
                "Get time in specified timezone",
                zone_arguments,
            ),
        );
        tools.push(
            definition(
                "list_timezones",
                "List Timezones",
                "List all available IANA timezones",
                Vec::new(),
            ),
        );
        let mut convert_arguments: Vec<ToolArgument> = Vec::new();
        convert_arguments.push(argument("timestamp", "number", "Unix timestamp in seconds", true));
        convert_arguments.push(
            argument(
                "from_timezone",
                "string",
                "Source timezone (optional, defaults to UTC)",
                false,
            ),
        );
        convert_arguments.push(argument("to_timezone", "string", "Target timezone", true));
        tools.push(
            definition(
                "convert_time",
                "Convert Time",
                "Convert timestamp between timezones",
                convert_arguments,
            ),
        );
        tools
    }

    /// The prompts of the service, in the order of `prompt_names`, each with
    /// its title, its description and its argument.
    pub fn list_prompts(&self) -> (r: Vec<PromptDefinition>)
        ensures
            r.len() == 4,
            r[0].defines("time"@, Prompt::Time),
            r[1].defines("time_in"@, Prompt::TimeIn),
            r[2].defines("format_time"@, Prompt::FormatTime),
            r[3].defines("unix_time"@, Prompt::UnixTime),
    {
        let mut prompts: Vec<PromptDefinition> = Vec::new();
        prompts.push(
            offered_prompt(
                "time",
                "\u{23f0} Current Time",
                "Get the current UTC time with detailed information",
                None,
            ),
        );
        prompts.push(
            offered_prompt(
                "time_in",
                "\u{1f30d} Time in Timezone",
                "Get the current time in a specific timezone",
                Some(("timezone", "IANA timezone name (e.g., 'America/New_York')")),
            ),
        );
        prompts.push(
            offered_prompt(
                "format_time",
                "\u{1f4c5} Format Time",
                "Get the current time in a custom format",
                Some(("format", "strftime format string (e.g., '%Y-%m-%d %H:%M:%S')")),
            ),
        );
        prompts.push(
            offered_prompt(
                "unix_time",
                "\u{1f550} Unix Timestamp",
                "Get the current Unix timestamp with nanosecond precision",
                None,
            ),
        );
        prompts
    }
}

impl TimeHandler {
    /// The handler.
    pub fn new() -> (r: TimeHandler)
        ensures
            r == TimeHandler,
    {
        TimeHandler
    }

    /// What a request with the method `method` asks for.
    pub fn route(&self, method: &str) -> (r: Route)
        ensures
            r == route_of(method@),
    {
        let chars = to_chars(method);
        assert(chars@.subrange(0, chars@.len() as int) =~= chars@);
        if range_starts_with(&chars, 0, chars.len(), &to_chars("notifications/")) {
            Route::Notification
        } else if same_text(method, "initialize") {
            Route::Initialize
        } else if same_text(method, "tools/list") {
            Route::ToolsList
        } else if same_text(method, "tools/call") {
            Route::ToolsCall
        } else if same_text(method, "prompts/list") {
            Route::PromptsList
        } else if same_text(method, "prompts/get") {
            Route::PromptsGet
        } else if same_text(method, "time/get") {
            Route::TimeGet
        } else if same_text(method, "time/get_with_format") {
            Route::TimeGetWithFormat
        } else if same_text(method, "time/get_with_timezone") {
            Route::TimeGetWithTimezone
        } else if same_text(method, "time/get_unix") {
            Route::TimeGetUnix
        } else if same_text(method, "time/get_nanos") {
            Route::TimeGetNanos
        } else if same_text(method, "time/list_timezones") {
            Route::TimeListTimezones
        } else if same_text(method, "time/convert") {
            Route::TimeConvert
        } else {
            Route::Unknown
        }
    }

    /// The error for a request whose method is not known: `MethodNotFound`,
    /// which carries the method.
    pub fn unknown_method(&self, method: &str) -> (r: McpError)
        ensures
            r matches McpError::MethodNotFound(m) && m@ == method@,
    {
        McpError::MethodNotFound(String::from_str(method))
    }

    /// The tool that goes by `name`.
    pub fn tool(&self, name: &str) -> (r: Option<Tool>)
        ensures
            r == tool_of(name@),
    {
        if same_text(name, "get_time") {
            Some(Tool::GetTime)
        } else if same_text(name, "get_unix_time") {
            Some(Tool::GetUnixTime)
        } else if same_text(name, "get_nanos") {
            Some(Tool::GetNanos)
        } else if same_text(name, "get_time_formatted") {
            Some(Tool::GetTimeFormatted)
        } else if same_text(name, "get_time_with_timezone") {
            Some(Tool::GetTimeWithTimezone)
        } else if same_text(name, "list_timezones") {
            Some(Tool::ListTimezones)
        } else if same_text(name, "convert_time") {
            Some(Tool::ConvertTime)
        } else {
            None
        }
    }

    /// What is answered to the call of a tool that there is not.
    pub fn unknown_tool_text(&self, name: &str) -> (r: String)
        ensures
            r@ == "Unknown tool: "@ + name@,
    {
        join_text("Unknown tool: ", name)
    }

    /// The prompt that goes by `name`.
    ///
    /// Fails with `InvalidParams`, which names the prompt, where there is no
    /// such prompt, and on no other occasion.
    pub fn prompt(&self, name: &str) -> (r: Result<Prompt, McpError>)
        ensures
            match r {
                Ok(prompt) => prompt_of(name@) == Some(prompt),
                Err(McpError::InvalidParams(why)) => prompt_of(name@) is None && why@
                    == "Unknown prompt: "@ + name@,
                Err(_) => false,
            },
    {
        if same_text(name, "time") {
            Ok(Prompt::Time)
        } else if same_text(name, "time_in") {
            Ok(Prompt::TimeIn)
        } else if same_text(name, "format_time") {
            Ok(Prompt::FormatTime)
        } else if same_text(name, "unix_time") {
            Ok(Prompt::UnixTime)
        } else {
            Err(McpError::InvalidParams(join_text("Unknown prompt: ", name)))
        }
    }

    /// The text of the message of a prompt: the line that introduces the
    /// data, then the data.
    pub fn prompt_text(&self, prompt: Prompt, argument: &str, data: &str) -> (r: String)
        ensures
            r@ == prompt_intro(prompt, argument@) + data@,
    {
        let mut text = match prompt {
            Prompt::Time => String::from_str("Here is the current UTC time:\n\n"),
            Prompt::TimeIn => {
                let mut intro = join_text("Here is the current time in ", argument);
                intro.append(":\n\n");
                intro
            },
            Prompt::FormatTime => {
                let mut intro = join_text("Here is the current time formatted as '", argument);
                intro.append("':\n\n");
                intro
            },
            Prompt::UnixTime => String::from_str("Here is the current Unix timestamp:\n\n"),
        };
        text.append(data);
        text
    }

    /// What a prompt is said to give.
    pub fn prompt_description(&self, prompt: Prompt, argument: &str) -> (r: String)
        ensures
            r@ == prompt_summary(prompt, argument@),
    {
        match prompt {
            Prompt::Time => String::from_str("Current UTC time with full details"),
            Prompt::TimeIn => join_text("Current time in ", argument),
            Prompt::FormatTime => {
                let mut summary = join_text("Time formatted as '", argument);
                summary.append("'");
                summary
            },
            Prompt::UnixTime => String::from_str("Current Unix timestamp"),
        }
    }

    /// What the server says of itself at the start of a session.
    pub fn handle_initialize(&self) -> (r: ServerIdentity)
        ensures
            r.protocol_version@ == "2025-06-18"@,
            r.name@ == "mcp-utc-time-server"@,
            r.version@ == "0.1.0"@,
    {
        ServerIdentity {
            protocol_version: String::from_str("2025-06-18"),
            name: String::from_str("mcp-utc-time-server"),
            version: String::from_str("0.1.0"),
        }
    }

    /// The time now, in UTC, with all its encodings.
    ///
    /// Fails with `TimeError`, which says why, where the system clock gives
    /// no instant or one outside the calendar range, and on no other
    /// occasion.
    pub fn get_time(&self) -> (r: Result<EnhancedTimeResponse, McpError>)
        ensures
            match r {
                Ok(snapshot) => snapshot.unix.wf() && snapshot.unix.in_range()
                    && snapshot.unix.seconds >= 0 && snapshot.describes(
                    snapshot.unix,
                    SnapshotZone::Utc,
                ),
                Err(McpError::TimeError(why)) => why@ == "System clock unavailable"@ || why@
                    == "Invalid timestamp"@,
                Err(_) => false,
            },
    {
        match EnhancedTimeResponse::now() {
            Ok(snapshot) => Ok(snapshot),
            Err(e) => Err(McpError::TimeError(e.message())),
        }
    }

    /// The time now, as an instant.
    ///
    /// Fails with `TimeError` where the system clock gives no instant, and
    /// on no other occasion.
    pub fn get_unix_time(&self) -> (r: Result<UnixTime, McpError>)
        ensures
            match r {
                Ok(instant) => instant.wf() && instant.seconds >= 0,
                Err(McpError::TimeError(why)) => why@ == "System clock unavailable"@,
                Err(_) => false,
            },
    {
        match UnixTime::now() {
            Ok(instant) => Ok(instant),
            Err(e) => Err(McpError::TimeError(e.message())),
        }
    }

    /// The instant `instant` under the pattern `format`.
    ///
    /// Fails with `TimeError`, which says why, where the parts of the instant
    /// disagree or chrono does not hold it, or the pattern cannot be
    /// rendered, and on no other occasion.
    pub fn formatted_at(&self, instant: &UnixTime, format: &str) -> (r: Result<
        FormattedTime,
        McpError,
    >)
        ensures
            match r {
                Ok(answer) => {
                    &&& instant.held()
                    &&& strftime_text(instant.seconds as int, instant.nanos as int, format@)
                        == Some(answer.formatted@)
                    &&& answer.format@ == format@
                    &&& answer.unix_seconds == instant.seconds
                    &&& answer.unix_nanos == instant.nanos
                },
                Err(McpError::TimeError(why)) => if instant.held() {
                    strftime_text(instant.seconds as int, instant.nanos as int, format@) is None
                        && why@ == "Invalid format: "@ + format@
                } else {
                    why@ == "Invalid timestamp"@
                },
                Err(_) => false,
            },
    {
        match crate::time::formats::StrftimeFormatter::format(instant, format) {
            Ok(formatted) => Ok(
                FormattedTime {
                    formatted,
                    format: String::from_str(format),
                    unix_seconds: instant.seconds,
                    unix_nanos: instant.nanos,
                },
            ),
            Err(e) => Err(McpError::TimeError(e.message())),
        }
    }

    /// The time now under the pattern `format`.
    ///
    /// Fails with `InvalidParams` where no pattern is given. For a pattern
    /// it fails with `TimeError`, which says why: where the system clock
    /// gives no instant or one that chrono does not hold, or the pattern
    /// cannot be rendered.
    pub fn get_time_formatted(&self, format: Option<&str>) -> (r: Result<FormattedTime, McpError>)
        ensures
            match r {
                Ok(answer) => format matches Some(pattern) && answer.format@ == pattern@
                    && strftime_text(
                    answer.unix_seconds as int,
                    answer.unix_nanos as int,
                    pattern@,
                ) == Some(answer.formatted@),
                Err(McpError::InvalidParams(why)) => format is None && why@ == "format required"@,
                Err(McpError::TimeError(why)) => format matches Some(pattern) && (why@
                    == "Invalid format: "@ + pattern@ || why@ == "Invalid timestamp"@ || why@
                    == "System clock unavailable"@),
                Err(_) => false,
            },
    {
        match format {
            None => Err(McpError::InvalidParams(String::from_str("format required"))),
            Some(pattern) => {
                match UnixTime::now() {
                    Ok(instant) => self.formatted_at(&instant, pattern),
                    Err(e) => Err(McpError::TimeError(e.message())),
                }
            },
        }
    }

    /// The time now for the timezone `timezone`.
    ///
    /// Fails with `InvalidParams` where no timezone is given or the name is
    /// not one of the database. For a name of the database it fails with
    /// `TimeError`, which says why, where the system clock gives no instant
    /// or one outside the calendar range.
    pub fn get_time_with_tz(&self, timezone: Option<&str>) -> (r: Result<
        EnhancedTimeResponse,
        McpError,
    >)
        ensures
            match r {
                Ok(snapshot) => timezone matches Some(name) && zone_known(name@)
                    && snapshot.describes(snapshot.unix, SnapshotZone::Named(name@)),
                Err(McpError::InvalidParams(why)) => match timezone {
                    None => why@ == "timezone required"@,
                    Some(name) => !zone_known(name@) && why@ == "Invalid timezone: "@ + name@,
                },
                Err(McpError::TimeError(why)) => timezone matches Some(name) && zone_known(name@)
                    && (why@ == "System clock unavailable"@ || why@ == "Invalid timestamp"@),
                Err(_) => false,
            },
    {
        match timezone {
            None => Err(McpError::InvalidParams(String::from_str("timezone required"))),
            Some(name) => match EnhancedTimeResponse::with_timezone(name) {
                Ok(snapshot) => Ok(snapshot),
                Err(TimeError::InvalidTimezone(unknown)) => Err(
                    McpError::InvalidParams(TimeError::InvalidTimezone(unknown).message()),
                ),
                Err(e) => Err(McpError::TimeError(e.message())),
            },
        }
    }

    /// The names of all timezones of the database.
    pub fn list_timezones(&self) -> (names: Vec<String>)
        ensures
            forall|i: int|
                0 <= i < names.len() ==> crate::time::timezone::zone_name_at(i) == Some(
                    #[trigger] names[i]@,
                ),
            forall|i: int| 0 <= i < names.len() ==> zone_known(#[trigger] names[i]@),
            names.len() < usize::MAX ==> crate::time::timezone::zone_name_at(names.len() as int)
                is None,
    {
        TimezoneConverter::list_timezones()
    }

    /// The second `timestamp`, as UTC writes it and as the timezone
    /// `to_timezone` shows it. The stamp is taken as one of UTC, whatever
    /// `from_timezone` names; that name, `UTC` where it is not given, is
    /// handed back with the original.
    ///
    /// Fails with `InvalidParams`, which says why: where no time stamp is
    /// given; else where no timezone to convert to is given; else where
    /// chrono does not hold the time stamp; else where the timezone is not
    /// one of the database.
    pub fn convert_time(
        &self,
        timestamp: Option<i64>,
        from_timezone: Option<&str>,
        to_timezone: Option<&str>,
    ) -> (r: Result<TimeConversion, McpError>)
        ensures
            match r {
                Ok(answer) => {
                    &&& timestamp matches Some(secs)
                    &&& to_timezone matches Some(to)
                    &&& instant_held(secs as int)
                    &&& zone_known(to@)
                    &&& answer.original.timestamp == secs
                    &&& answer.original.timezone@ == match from_timezone {
                        Some(from) => from@,
                        None => "UTC"@,
                    }
                    &&& answer.original.formatted@ == rfc3339_text(secs as int, 0, 0)
                    &&& answer.original.offset == 0
                    &&& answer.converted.timestamp == secs
                    &&& answer.converted.timezone@ == to@
                    &&& answer.converted.offset == zone_offset(to@, secs as int)
                    &&& answer.converted.formatted@ == rfc3339_text(
                        secs as int,
                        0,
                        zone_offset(to@, secs as int),
                    )
                },
                Err(McpError::InvalidParams(why)) => match (timestamp, to_timezone) {
                    (None, _) => why@ == "timestamp required"@,
                    (Some(_), None) => why@ == "to_timezone required"@,
                    (Some(secs), Some(to)) => if !instant_held(secs as int) {
                        why@ == "Invalid timestamp"@
                    } else {
                        !zone_known(to@) && why@ == "Invalid timezone: "@ + to@
                    },
                },
                Err(_) => false,
            },
    {
        let secs = match timestamp {
            Some(secs) => secs,
            None => {
                return Err(McpError::InvalidParams(String::from_str("timestamp required")));
            },
        };
        let from = match from_timezone {
            Some(from) => from,
            None => "UTC",
        };
        let to = match to_timezone {
            Some(to) => to,
            None => {
                return Err(McpError::InvalidParams(String::from_str("to_timezone required")));
            },
        };
        let instant = match UnixTime::new(secs, 0) {
            Some(instant) => instant,
            None => {
                return Err(McpError::InvalidParams(String::from_str("Invalid timestamp")));
            },
        };
        if !instant.is_held() {
            return Err(McpError::InvalidParams(String::from_str("Invalid timestamp")));
        }
        match TimezoneConverter::convert_to_tz(&instant, to) {
            Ok(local) => Ok(
                TimeConversion {
                    original: ZonedStamp {
                        timestamp: secs,
                        timezone: String::from_str(from),
                        formatted: render_rfc3339(secs, 0, 0),
                        offset: 0,
                    },
                    converted: ZonedStamp {
                        timestamp: local.timestamp(),
                        timezone: String::from_str(to),
                        formatted: render_rfc3339(secs, 0, local.offset_seconds),
                        offset: local.offset_seconds,
                    },
                },
            ),
            Err(e) => Err(McpError::InvalidParams(e.message())),
        }
    }
}

} // verus!
