//! The messages of the protocol, as plain data.

use vstd::prelude::*;

verus! {

/// `serde_json::Value`, a JSON value: carried in requests and responses, and
/// not looked into.
#[verifier::external_type_specification]
#[verifier::external_body]
pub struct ExValue(serde_json::Value);

/// A request of the protocol. The parameters and the identifier are JSON
/// values, which are carried as they came.
#[derive(Debug)]
pub struct McpRequest {
    pub jsonrpc: String,
    pub method: String,
    pub params: serde_json::Value,
    pub id: Option<serde_json::Value>,
}

/// A response of the protocol: it holds a result or an error, never both.
#[derive(Debug)]
pub struct McpResponse {
    pub jsonrpc: String,
    pub result: Option<serde_json::Value>,
    pub error: Option<McpErrorResponse>,
    pub id: Option<serde_json::Value>,
}

/// The error of a response.
#[derive(Debug)]
pub struct McpErrorResponse {
    pub code: i32,
    pub message: String,
    pub data: Option<serde_json::Value>,
}

impl McpRequest {
    /// The request for `method` with `params`, under version 2.0 of JSON-RPC.
    pub fn new(method: String, params: serde_json::Value, id: Option<serde_json::Value>) -> (r:
        McpRequest)
        ensures
            r.jsonrpc@ == "2.0"@,
            r.method == method,
            r.params == params,
            r.id == id,
    {
        McpRequest { jsonrpc: String::from_str("2.0"), method, params, id }
    }
}

impl McpResponse {
    /// The response that carries `result` to the request `id`.
    pub fn success(result: serde_json::Value, id: Option<serde_json::Value>) -> (r: McpResponse)
        ensures
            r.jsonrpc@ == "2.0"@,
            r.result == Some(result),
            r.error is None,
            r.id == id,
    {
        McpResponse { jsonrpc: String::from_str("2.0"), result: Some(result), error: None, id }
    }

    /// The response that carries an error, with its code and its message and
    /// no further data, to the request `id`.
    pub fn error(code: i32, message: String, id: Option<serde_json::Value>) -> (r: McpResponse)
        ensures
            r.jsonrpc@ == "2.0"@,
            r.result is None,
            r.error matches Some(e) && e.code == code && e.message == message && e.data is None,
            r.id == id,
    {
        McpResponse {
            jsonrpc: String::from_str("2.0"),
            result: None,
            error: Some(McpErrorResponse { code, message, data: None }),
            id,
        }
    }

    /// The response that reports the failure `failure` to the request `id`:
    /// it carries the code and the message of the failure.
    pub fn failure(failure: &crate::error::McpError, id: Option<serde_json::Value>) -> (r:
        McpResponse)
        ensures
            r.jsonrpc@ == "2.0"@,
            r.result is None,
            r.error matches Some(e) && e.code == crate::error::error_code(*failure) && e.message@
                == crate::error::error_heading(*failure) + crate::error::error_detail(*failure)
                && e.data is None,
            r.id == id,
    {
        Self::error(failure.code(), failure.message(), id)
    }
}

/// What a client says of itself at the start of a session.
#[derive(Debug, Clone)]
pub struct InitializeParams {
    pub client_info: ClientInfo,
    pub protocol_version: String,
}

/// The name and version of a client.
#[derive(Debug, Clone)]
pub struct ClientInfo {
    pub name: String,
    pub version: String,
}

/// What a server is able to do.
#[derive(Debug, Clone)]
pub struct ServerCapabilities {
    pub tools: Option<ToolsCapability>,
    pub prompts: Option<PromptsCapability>,
    pub resources: Option<ResourcesCapability>,
}

/// The server offers tools.
#[derive(Debug, Clone, Copy)]
pub struct ToolsCapability {
    pub list_changed: Option<bool>,
}

/// The server offers prompts.
#[derive(Debug, Clone, Copy)]
pub struct PromptsCapability {
    pub list_changed: Option<bool>,
}

/// The server offers resources.
#[derive(Debug, Clone, Copy)]
pub struct ResourcesCapability {
    pub subscribe: Option<bool>,
    pub list_changed: Option<bool>,
}

/// A prompt that the server offers.
#[derive(Debug, Clone)]
pub struct PromptDefinition {
    pub name: String,
    pub title: Option<String>,
    pub description: Option<String>,
    pub arguments: Option<Vec<PromptArgument>>,
}

/// An argument of a prompt.
#[derive(Debug, Clone)]
pub struct PromptArgument {
    pub name: String,
    pub description: Option<String>,
    pub required: Option<bool>,
}

/// A message of a prompt.
#[derive(Debug, Clone)]
pub struct PromptMessage {
    pub role: String,
    pub content: MessageContent,
}

/// What a message holds.
#[derive(Debug, Clone)]
pub enum MessageContent {
    Text { text: String },
    Image { data: String, mime_type: String },
    Resource { resource: ResourceContent },
}

/// A resource that a message or a result refers to.
#[derive(Debug, Clone)]
pub struct ResourceContent {
    pub uri: String,
    pub name: String,
    pub title: Option<String>,
    pub mime_type: Option<String>,
    pub text: Option<String>,
}

/// What the call of a tool gave.
#[derive(Debug, Clone)]
pub struct ToolCallResult {
    pub content: Vec<ToolContent>,
    pub is_error: Option<bool>,
}

/// A part of what the call of a tool gave.
#[derive(Debug, Clone)]
pub enum ToolContent {
    Text { text: String },
    Image { data: String, mime_type: String },
    Resource { resource: ResourceContent },
}

/// An argument of a tool, as its schema describes it.
#[derive(Debug, Clone)]
pub struct ToolArgument {
    pub name: String,
    pub kind: String,
    pub description: String,
    pub required: bool,
}

/// A tool that the server offers. A tool without arguments has no schema.
#[derive(Debug, Clone)]
pub struct ToolDefinition {
    pub name: String,
    pub title: Option<String>,
    pub description: String,
    pub arguments: Vec<ToolArgument>,
}

impl ServerCapabilities {
    /// What the time service is able to do: it offers tools and prompts,
    /// whose lists do not change, and no resources.
    pub fn of_time_service() -> (r: ServerCapabilities)
        ensures
            r.tools matches Some(tools) && tools.list_changed == Some(false),
            r.prompts matches Some(prompts) && prompts.list_changed == Some(false),
            r.resources is None,
    {
        ServerCapabilities {
            tools: Some(ToolsCapability { list_changed: Some(false) }),
            prompts: Some(PromptsCapability { list_changed: Some(false) }),
            resources: None,
        }
    }
}

} // verus!
