//! Model Context Protocol: the JSON-RPC message types, the request routing of
//! the MCP server, the replies it sends, and the tool-result handling of the
//! MCP client.
//!
//! Transports (stdio, SSE), process spawning and the tool registry are driven
//! by the application; this module decides what a request means and what the
//! reply says. Replies are produced as the JSON text that `serde_json` writes
//! for them (object keys in sorted order).

use vstd::prelude::*;
use std::collections::HashMap;
use vstd::utf8::encode_utf8;
use crate::audit::{
    chain_intact, AuditEntry, AuditError, AuditEventType, AuditLog, same_entry,
};
use crate::agent::{line_views, lines_of, split_lines, strip_cr};
use crate::eval::byte_len;
use crate::llm::{find, first_occurrence};
use crate::text::{
    chars_of, decimal, has_prefix, is_ws, json_quote, json_quoted, push_decimal, push_str, slice_range, starts_with,
    string_from_chars, trim_chars, trim_seq, trim_start_seq,
};

verus! {

// ── Errors ─────────────────────────────────────────────────────────────────

/// What can go wrong talking MCP.
#[derive(Debug)]
pub enum McpError {
    /// Transport failure.
    Transport(String),
    /// Malformed JSON-RPC exchange.
    JsonRpc(String),
    /// The server answered with an error.
    Server { code: i32, message: String },
    /// No such tool.
    ToolNotFound(String),
    /// Bad tool arguments.
    InvalidArguments(String),
    /// Could not connect.
    ConnectionFailed(String),
    /// No answer in time.
    Timeout(String),
    /// I/O failure (its message).
    Io(String),
    /// JSON failure (its message).
    Json(String),
}

/// The decimal text of a signed number.
pub open spec fn signed_decimal(n: int) -> Seq<char> {
    if n < 0 { "-"@ + decimal((-n) as nat) } else { decimal(n as nat) }
}

/// The text shown for an MCP error.
pub open spec fn mcp_error_text(e: McpError) -> Seq<char> {
    match e {
        McpError::Transport(m) => "Transport error: "@ + m@,
        McpError::JsonRpc(m) => "JSON-RPC error: "@ + m@,
        McpError::Server { code, message } => "Server error: "@ + signed_decimal(code as int) + " - "@ + message@,
        McpError::ToolNotFound(m) => "Tool not found: "@ + m@,
        McpError::InvalidArguments(m) => "Invalid tool arguments: "@ + m@,
        McpError::ConnectionFailed(m) => "Connection failed: "@ + m@,
        McpError::Timeout(m) => "Timeout: "@ + m@,
        McpError::Io(m) => "IO error: "@ + m@,
        McpError::Json(m) => "JSON error: "@ + m@,
    }
}

pub(crate) fn push_signed(v: &mut Vec<char>, n: i32)
    ensures
        final(v)@ == old(v)@ + signed_decimal(n as int),
{
    if n < 0 {
        push_str(v, "-");
        let m: u64 = (-(n as i64)) as u64;
        push_decimal(v, m);
    } else {
        push_decimal(v, n as u64);
    }
}

impl McpError {
    /// The human-readable message of this error.
    pub fn message(&self) -> (s: String)
        ensures
            s@ == mcp_error_text(*self),
    {
        let mut v: Vec<char> = Vec::new();
        match self {
            McpError::Transport(m) => {
                push_str(&mut v, "Transport error: ");
                push_str(&mut v, m.as_str());
            },
            McpError::JsonRpc(m) => {
                push_str(&mut v, "JSON-RPC error: ");
                push_str(&mut v, m.as_str());
            },
            McpError::Server { code, message } => {
                push_str(&mut v, "Server error: ");
                push_signed(&mut v, *code);
                push_str(&mut v, " - ");
                push_str(&mut v, message.as_str());
            },
            McpError::ToolNotFound(m) => {
                push_str(&mut v, "Tool not found: ");
                push_str(&mut v, m.as_str());
            },
            McpError::InvalidArguments(m) => {
                push_str(&mut v, "Invalid tool arguments: ");
                push_str(&mut v, m.as_str());
            },
            McpError::ConnectionFailed(m) => {
                push_str(&mut v, "Connection failed: ");
                push_str(&mut v, m.as_str());
            },
            McpError::Timeout(m) => {
                push_str(&mut v, "Timeout: ");
                push_str(&mut v, m.as_str());
            },
            McpError::Io(m) => {
                push_str(&mut v, "IO error: ");
                push_str(&mut v, m.as_str());
            },
            McpError::Json(m) => {
                push_str(&mut v, "JSON error: ");
                push_str(&mut v, m.as_str());
            },
        }
        string_from_chars(&v)
    }
}

// ── JSON-RPC ───────────────────────────────────────────────────────────────

/// JSON-RPC: the request could not be parsed.
pub const PARSE_ERROR: i32 = -32700;
/// JSON-RPC: no such method.
pub const METHOD_NOT_FOUND: i32 = -32601;
/// JSON-RPC: invalid parameters.
pub const INVALID_PARAMS: i32 = -32602;
/// JSON-RPC: server-side failure (a tool failed).
pub const SERVER_ERROR: i32 = -32000;

/// A JSON-RPC 2.0 request.
#[derive(Debug, Clone)]
pub struct JsonRpcRequest {
    pub jsonrpc: String,
    pub method: String,
    pub params: serde_json::Value,
    pub id: serde_json::Value,
}

/// The JSON value `serde_json::Value::Number` that holds the integer `id`.
pub uninterp spec fn json_number_of(id: i64) -> serde_json::Value;

/// The JSON number for `id` (`serde_json::Value::Number` of `id`).
#[verifier::external_body]
fn json_number(id: i64) -> (v: serde_json::Value)
    ensures
        v == json_number_of(id),
{
    serde_json::Value::Number(id.into())
}

impl JsonRpcRequest {
    /// A version 2.0 request with a numeric id.
    pub fn new(method: &str, params: serde_json::Value, id: i64) -> (r: Self)
        ensures
            r.jsonrpc@ == "2.0"@,
            r.method@ == method@,
            r.params == params,
            r.id == json_number_of(id),
    {
        JsonRpcRequest {
            jsonrpc: String::from_str("2.0"),
            method: String::from_str(method),
            params,
            id: json_number(id),
        }
    }
}

/// A JSON-RPC 2.0 response.
#[derive(Debug, Clone)]
pub struct JsonRpcResponse {
    pub jsonrpc: String,
    pub result: Option<serde_json::Value>,
    pub error: Option<JsonRpcError>,
    pub id: serde_json::Value,
}

/// The error part of a JSON-RPC response.
#[derive(Debug, Clone)]
pub struct JsonRpcError {
    pub code: i32,
    pub message: String,
    pub data: Option<serde_json::Value>,
}

// ── MCP protocol types ─────────────────────────────────────────────────────

/// The MCP protocol version spoken here.
pub const MCP_PROTOCOL_VERSION: &'static str = "2024-11-05";

/// This program's version, as announced in MCP handshakes.
pub const RAVENCLAWS_VERSION: &'static str = "0.1.0";

/// Client capabilities: roots.
#[derive(Debug, Clone)]
pub struct McpRootsCapability {
    pub list_changed: bool,
}

/// Capabilities a client announces.
#[derive(Debug, Clone)]
pub struct McpClientCapabilities {
    pub roots: Option<McpRootsCapability>,
    pub sampling: Option<serde_json::Value>,
}

/// Who the client is.
#[derive(Debug, Clone)]
pub struct McpClientInfo {
    pub name: String,
    pub version: String,
}

/// Parameters of `initialize`.
#[derive(Debug, Clone)]
pub struct InitializeParams {
    pub protocol_version: String,
    pub capabilities: McpClientCapabilities,
    pub client_info: McpClientInfo,
}

/// Server capabilities: tools.
#[derive(Debug, Clone)]
pub struct McpToolsCapability {
    pub list_changed: bool,
}

/// Capabilities a server announces.
#[derive(Debug, Clone)]
pub struct McpServerCapabilities {
    pub tools: Option<McpToolsCapability>,
    pub resources: Option<serde_json::Value>,
    pub prompts: Option<serde_json::Value>,
}

/// Who the server is.
#[derive(Debug, Clone)]
pub struct McpServerInfo {
    pub name: String,
    pub version: String,
}

/// The answer to `initialize`.
#[derive(Debug, Clone)]
pub struct InitializeResult {
    pub protocol_version: String,
    pub capabilities: McpServerCapabilities,
    pub server_info: McpServerInfo,
}

/// A tool offered by a server.
#[derive(Debug, Clone)]
pub struct McpTool {
    pub name: String,
    pub description: Option<String>,
    pub input_schema: serde_json::Value,
}

/// The parameters of `tools/call`.
#[derive(Debug, Clone)]
pub struct McpToolCall {
    pub name: String,
    pub arguments: Option<serde_json::Value>,
}

/// One piece of a tool's output.
#[derive(Debug, Clone)]
pub enum McpContent {
    Text { text: String },
    Image { data: String, mime_type: String },
    Resource { resource: serde_json::Value },
}

/// The answer to `tools/call`.
#[derive(Debug, Clone)]
pub struct McpToolResult {
    pub content: Vec<McpContent>,
    pub is_error: bool,
}

/// How to reach an MCP server.
#[derive(Debug, Clone)]
pub enum McpTransportConfig {
    /// Spawn a command and talk over its stdin/stdout.
    Stdio { command: String, args: Vec<String>, env: HashMap<String, String> },
    /// Connect to an HTTP endpoint with server-sent events.
    Sse { url: String },
}

/// The parameters of the `initialize` request this client sends.
pub fn client_initialize_params() -> (p: InitializeParams)
    ensures
        p.protocol_version@ == MCP_PROTOCOL_VERSION@,
        p.capabilities.roots matches Some(r) && !r.list_changed,
        p.capabilities.sampling is None,
        p.client_info.name@ == "ravenclaws"@,
        p.client_info.version@ == RAVENCLAWS_VERSION@,
{
    InitializeParams {
        protocol_version: String::from_str(MCP_PROTOCOL_VERSION),
        capabilities: McpClientCapabilities {
            roots: Some(McpRootsCapability { list_changed: false }),
            sampling: None,
        },
        client_info: McpClientInfo {
            name: String::from_str("ravenclaws"),
            version: String::from_str(RAVENCLAWS_VERSION),
        },
    }
}

/// The next request id after `current`.
pub fn next_request_id(current: i64) -> (n: i64)
    requires
        current < i64::MAX,
    ensures
        n == current + 1,
{
    current + 1
}

// ── Client side ────────────────────────────────────────────────────────────

/// A tool result that reports an error becomes a server error.
pub fn check_tool_result(result: McpToolResult) -> (r: Result<McpToolResult, McpError>)
    ensures
        result.is_error ==> (r matches Err(McpError::Server { code, message }) && code == SERVER_ERROR
            && message@ == "Tool execution failed"@),
        !result.is_error ==> r == Ok::<McpToolResult, McpError>(result),
{
    if result.is_error {
        Err(McpError::Server { code: SERVER_ERROR, message: String::from_str("Tool execution failed") })
    } else {
        Ok(result)
    }
}

/// The compact JSON text that `serde_json::Value`'s `Display` writes for `v`.
pub uninterp spec fn json_text_of(v: serde_json::Value) -> Seq<char>;

/// The compact JSON text of a value (`serde_json::Value`'s `Display`, through
/// `to_string`).
#[verifier::external_body]
fn json_display(v: &serde_json::Value) -> (s: String)
    ensures
        s@ == json_text_of(*v),
{
    v.to_string()
}

/// The text of one piece of output.
pub open spec fn content_text(c: McpContent) -> Seq<char> {
    match c {
        McpContent::Text { text } => text@,
        McpContent::Image { data, mime_type } => "[Image: "@ + decimal((encode_utf8(data@).len() as usize) as nat)
            + " bytes, "@ + mime_type@ + "]"@,
        McpContent::Resource { resource } => "[Resource: "@ + json_text_of(resource) + "]"@,
    }
}

/// The texts of the pieces joined by newlines.
pub open spec fn joined_output(cs: Seq<McpContent>) -> Seq<char>
    decreases cs.len(),
{
    if cs.len() == 0 {
        seq![]
    } else if cs.len() == 1 {
        content_text(cs[0])
    } else {
        joined_output(cs.drop_last()) + "\n"@ + content_text(cs.last())
    }
}

/// The output of a tool: the pieces' texts joined by newlines, an image shown
/// as `[Image: <bytes> bytes, <type>]` and a resource as `[Resource: <its
/// JSON>]`.
pub fn tool_output_text(content: &[McpContent]) -> (s: String)
    ensures
        s@ == joined_output(content@),
{
    let mut v: Vec<char> = Vec::new();
    let mut i: usize = 0;
    while i < content.len()
        invariant
            i <= content@.len(),
            v@ == joined_output(content@.take(i as int)),
        decreases content@.len() - i,
    {
        let ghost before = v@;
        if i > 0 {
            push_str(&mut v, "\n");
        }
        match &content[i] {
            McpContent::Text { text } => push_str(&mut v, text.as_str()),
            McpContent::Image { data, mime_type } => {
                push_str(&mut v, "[Image: ");
                push_decimal(&mut v, data.as_str().len() as u64);
                push_str(&mut v, " bytes, ");
                push_str(&mut v, mime_type.as_str());
                push_str(&mut v, "]");
            },
            McpContent::Resource { resource } => {
                push_str(&mut v, "[Resource: ");
                let j = json_display(resource);
                push_str(&mut v, j.as_str());
                push_str(&mut v, "]");
            },
        }
        proof {
            let p = content@.take(i + 1);
            assert(p.drop_last() == content@.take(i as int));
            assert(p.last() == content@[i as int]);
            if i == 0 {
                assert(p.len() == 1);
            }
        }
        i = i + 1;
    }
    proof {
        assert(content@.take(content@.len() as int) == content@);
    }
    string_from_chars(&v)
}

// ── SSE events ─────────────────────────────────────────────────────────────

/// What one line of an SSE event carries.
#[derive(Debug, Clone, PartialEq, Eq)]
pub enum SseMessage {
    /// The endpoint to post requests to (the part after `/message` when the
    /// server sent a path, or the whole URL).
    Endpoint(String),
    /// A JSON-RPC message.
    Data(String),
}

/// The message of one event line (`(true, e)` for an endpoint, `(false, d)`
/// for data); `event:` lines and other lines carry none.
pub open spec fn sse_line(line: Seq<char>) -> Option<(bool, Seq<char>)> {
    let l = trim_seq(line);
    if has_prefix(l, "event:"@) || !has_prefix(l, "data:"@) {
        None
    } else {
        let d = trim_seq(l.skip(5));
        if has_prefix(d, "/message"@) {
            Some((true, d.skip(8)))
        } else if has_prefix(d, "http"@) && first_occurrence(d, "/message"@) is Some {
            Some((true, d))
        } else {
            Some((false, d))
        }
    }
}

/// The messages of the lines, in order.
pub open spec fn sse_lines(ls: Seq<Seq<char>>) -> Seq<(bool, Seq<char>)>
    decreases ls.len(),
{
    if ls.len() == 0 {
        seq![]
    } else {
        match sse_line(ls.last()) {
            Some(m) => sse_lines(ls.drop_last()).push(m),
            None => sse_lines(ls.drop_last()),
        }
    }
}

/// The plain view of a message.
pub open spec fn sse_view(m: SseMessage) -> (bool, Seq<char>) {
    match m {
        SseMessage::Endpoint(e) => (true, e@),
        SseMessage::Data(d) => (false, d@),
    }
}

fn sse_line_message(line: &[char]) -> (r: Option<SseMessage>)
    ensures
        match sse_line(line@) {
            None => r is None,
            Some(m) => r matches Some(x) && sse_view(x) == m,
        },
{
    let l = trim_chars(line);
    let event = chars_of("event:");
    let data = chars_of("data:");
    if starts_with(&l, &event) || !starts_with(&l, &data) {
        return None;
    }
    proof {
        reveal_strlit("data:");
        reveal_strlit("/message");
        reveal_strlit("http");
    }
    let n = l.len();
    let rest = slice_range(&l, 5, n);
    assert(rest@ =~= l@.skip(5));
    let d = trim_chars(&rest);
    let path = chars_of("/message");
    let http = chars_of("http");
    if starts_with(&d, &path) {
        let m = d.len();
        let e = slice_range(&d, 8, m);
        assert(e@ =~= d@.skip(8));
        Some(SseMessage::Endpoint(string_from_chars(&e)))
    } else if starts_with(&d, &http) && find(&d, &path).is_some() {
        Some(SseMessage::Endpoint(string_from_chars(&d)))
    } else {
        Some(SseMessage::Data(string_from_chars(&d)))
    }
}

/// Reads an SSE event: each `data:` line gives an endpoint announcement or
/// a JSON-RPC message, in order.
pub fn sse_event_messages(event: &str) -> (ms: Vec<SseMessage>)
    ensures
        ms@.map_values(|m: SseMessage| sse_view(m)) == sse_lines(lines_of(event@)),
{
    let ls = split_lines(&chars_of(event));
    let ghost views = line_views(ls@);
    assert(views =~= lines_of(event@));
    let mut out: Vec<SseMessage> = Vec::new();
    let mut i: usize = 0;
    while i < ls.len()
        invariant
            i <= ls@.len(),
            views == line_views(ls@),
            out@.map_values(|m: SseMessage| sse_view(m)) == sse_lines(views.take(i as int)),
        decreases ls@.len() - i,
    {
        proof {
            let p = views.take(i + 1);
            assert(p.drop_last() =~= views.take(i as int));
            assert(p.last() == ls@[i as int]@);
        }
        let ghost before = out@;
        match sse_line_message(&ls[i]) {
            Some(m) => {
                out.push(m);
                assert(out@.map_values(|m: SseMessage| sse_view(m)) =~= before.map_values(
                    |m: SseMessage| sse_view(m),
                ).push(sse_view(out@.last())));
            },
            None => {},
        }
        i = i + 1;
    }
    proof {
        assert(views.take(ls@.len() as int) =~= views);
    }
    out
}

/// The line the client's reader reports for an endpoint announcement.
pub fn endpoint_notice(endpoint: &str) -> (t: String)
    ensures
        t@ == "endpoint:"@ + endpoint@,
{
    let mut v: Vec<char> = Vec::new();
    push_str(&mut v, "endpoint:");
    push_str(&mut v, endpoint);
    string_from_chars(&v)
}

// ── Server side ────────────────────────────────────────────────────────────

/// What the server does with a request.
#[derive(Debug, Clone, PartialEq, Eq)]
pub enum McpRoute {
    /// Answer the `initialize` handshake.
    Initialize,
    /// The client finished the handshake: answer with a null result.
    Initialized,
    /// List the tools.
    ListTools,
    /// Check the policy for, then run, this tool.
    CallTool { name: String },
    /// Answer with this JSON-RPC error.
    Reject { code: i32, message: String },
}

/// What became of a tool call.
#[derive(Debug, Clone)]
pub enum ToolCallOutcome {
    /// The policy refused it, for this reason.
    PolicyDenied(String),
    /// The tool ran.
    Executed { success: bool, output: String, error: Option<String> },
    /// The tool could not be run (this error).
    Failed(String),
}

/// The text and error flag of the reply to a tool call.
pub open spec fn tool_reply(o: ToolCallOutcome) -> (Seq<char>, bool) {
    match o {
        ToolCallOutcome::PolicyDenied(reason) => ("Policy denied: "@ + reason@, true),
        ToolCallOutcome::Executed { success, output, error } => if success {
            (output@, false)
        } else {
            (match error {
                Some(e) => e@,
                None => "Unknown error"@,
            }, true)
        },
        ToolCallOutcome::Failed(e) => ("Tool execution failed: "@ + e@, true),
    }
}

/// The text and error flag of the reply to a tool call.
pub fn tool_call_reply(o: &ToolCallOutcome) -> (r: (String, bool))
    ensures
        r.0@ == tool_reply(*o).0,
        r.1 == tool_reply(*o).1,
{
    match o {
        ToolCallOutcome::PolicyDenied(reason) => {
            let mut v: Vec<char> = Vec::new();
            push_str(&mut v, "Policy denied: ");
            push_str(&mut v, reason.as_str());
            (string_from_chars(&v), true)
        },
        ToolCallOutcome::Executed { success, output, error } => {
            if *success {
                (output.clone(), false)
            } else {
                match error {
                    Some(e) => (e.clone(), true),
                    None => (String::from_str("Unknown error"), true),
                }
            }
        },
        ToolCallOutcome::Failed(e) => {
            let mut v: Vec<char> = Vec::new();
            push_str(&mut v, "Tool execution failed: ");
            push_str(&mut v, e.as_str());
            (string_from_chars(&v), true)
        },
    }
}

/// `true` or `false`.
pub open spec fn bool_text(b: bool) -> Seq<char> {
    if b { "true"@ } else { "false"@ }
}

/// A JSON-RPC error reply.
pub open spec fn error_reply(id_json: Seq<char>, code: i32, message: Seq<char>) -> Seq<char> {
    "{\"error\":{\"code\":"@ + signed_decimal(code as int) + ",\"message\":"@ + json_quote(message) + "},\"id\":"@
        + id_json + ",\"jsonrpc\":\"2.0\"}"@
}

/// A JSON-RPC result reply.
pub open spec fn result_reply(id_json: Seq<char>, result_json: Seq<char>) -> Seq<char> {
    "{\"id\":"@ + id_json + ",\"jsonrpc\":\"2.0\",\"result\":"@ + result_json + "}"@
}

/// The result of a tool call: one text piece and the error flag.
pub open spec fn tool_result_json(text: Seq<char>, is_error: bool) -> Seq<char> {
    "{\"content\":[{\"text\":"@ + json_quote(text) + ",\"type\":\"text\"}],\"isError\":"@ + bool_text(is_error) + "}"@
}

/// The result of `initialize`: capabilities, protocol version and server info.
pub open spec fn initialize_json(name: Seq<char>, version: Seq<char>) -> Seq<char> {
    "{\"capabilities\":{\"tools\":{\"listChanged\":false}},\"protocolVersion\":"@ + json_quote(MCP_PROTOCOL_VERSION@)
        + ",\"serverInfo\":{\"name\":"@ + json_quote(name) + ",\"version\":"@ + json_quote(version) + "}}"@
}

/// The reply to a request that is not JSON: a parse error with no id.
pub open spec fn parse_error_reply(detail: Seq<char>) -> Seq<char> {
    "{\"error\":{\"code\":-32700,\"data\":"@ + json_quote(detail) + ",\"message\":\"Parse error\"},\"id\":null,\"jsonrpc\":\"2.0\"}"@
}

/// A JSON-RPC error reply to the request whose id has JSON text `id_json`.
pub fn error_reply_text(id_json: &str, code: i32, message: &str) -> (t: String)
    ensures
        t@ == error_reply(id_json@, code, message@),
{
    let mut v: Vec<char> = Vec::new();
    push_str(&mut v, "{\"error\":{\"code\":");
    push_signed(&mut v, code);
    push_str(&mut v, ",\"message\":");
    let q = json_quoted(message);
    push_str(&mut v, q.as_str());
    push_str(&mut v, "},\"id\":");
    push_str(&mut v, id_json);
    push_str(&mut v, ",\"jsonrpc\":\"2.0\"}");
    string_from_chars(&v)
}

/// A JSON-RPC result reply to the request whose id has JSON text `id_json`.
pub fn result_reply_text(id_json: &str, result_json: &str) -> (t: String)
    ensures
        t@ == result_reply(id_json@, result_json@),
{
    let mut v: Vec<char> = Vec::new();
    push_str(&mut v, "{\"id\":");
    push_str(&mut v, id_json);
    push_str(&mut v, ",\"jsonrpc\":\"2.0\",\"result\":");
    push_str(&mut v, result_json);
    push_str(&mut v, "}");
    string_from_chars(&v)
}

/// The result of a tool call, as JSON.
pub fn tool_result_text(text: &str, is_error: bool) -> (t: String)
    ensures
        t@ == tool_result_json(text@, is_error),
{
    let mut v: Vec<char> = Vec::new();
    push_str(&mut v, "{\"content\":[{\"text\":");
    let q = json_quoted(text);
    push_str(&mut v, q.as_str());
    push_str(&mut v, ",\"type\":\"text\"}],\"isError\":");
    if is_error {
        push_str(&mut v, "true");
    } else {
        push_str(&mut v, "false");
    }
    push_str(&mut v, "}");
    string_from_chars(&v)
}

/// The reply to a line that is not a JSON-RPC request.
pub fn parse_error_text(detail: &str) -> (t: String)
    ensures
        t@ == parse_error_reply(detail@),
{
    let mut v: Vec<char> = Vec::new();
    push_str(&mut v, "{\"error\":{\"code\":-32700,\"data\":");
    let q = json_quoted(detail);
    push_str(&mut v, q.as_str());
    push_str(&mut v, ",\"message\":\"Parse error\"},\"id\":null,\"jsonrpc\":\"2.0\"}");
    string_from_chars(&v)
}

/// The MCP server's protocol state: its identity, whether the handshake
/// finished, and the audit log of the tool calls it handled.
pub struct McpServer {
    /// Identity sent during `initialize`.
    pub server_info: McpServerInfo,
    /// Whether the client finished the handshake.
    pub initialized: bool,
    request_id: i64,
    audit_log: AuditLog,
}

impl McpServer {
    /// The identity the server announces.
    pub closed spec fn info(&self) -> McpServerInfo {
        self.server_info
    }

    /// Whether the handshake finished.
    pub closed spec fn handshake_done(&self) -> bool {
        self.initialized
    }

    /// The last request id handed out.
    pub closed spec fn last_id(&self) -> i64 {
        self.request_id
    }

    /// The audit trail of the server.
    pub closed spec fn audit(&self) -> Seq<AuditEntry> {
        self.audit_log.records()
    }

    /// A server named `ravenclaws`, not yet initialized, with a fresh audit
    /// log; the audit log's error when no key can be made for it.
    pub fn new() -> (r: Result<Self, AuditError>)
        ensures
            r matches Ok(s) ==> s.info().name@ == "ravenclaws"@ && s.info().version@ == RAVENCLAWS_VERSION@
                && !s.handshake_done() && s.audit().len() == 0,
            r matches Err(e) ==> e == AuditError::NotInitialized,
    {
        match AuditLog::new(String::from_str("mcp-server")) {
            Ok(audit_log) => Ok(
                McpServer {
                    server_info: McpServerInfo {
                        name: String::from_str("ravenclaws"),
                        version: String::from_str(RAVENCLAWS_VERSION),
                    },
                    initialized: false,
                    request_id: 0,
                    audit_log,
                },
            ),
            Err(e) => Err(e),
        }
    }

    /// Routes a request by method: `initialize`, `notifications/initialized`
    /// (which completes the handshake), `tools/list` and `tools/call` (which
    /// needs a non-empty tool name, else `-32602`); anything else is `-32601`.
    pub fn route(&mut self, method: &str, tool_name: Option<&str>) -> (r: McpRoute)
        ensures
            method@ == "initialize"@ ==> r == McpRoute::Initialize && final(self).handshake_done() == old(self).handshake_done(),
            method@ == "notifications/initialized"@ ==> r == McpRoute::Initialized && final(self).handshake_done(),
            method@ == "tools/list"@ ==> r == McpRoute::ListTools && final(self).handshake_done() == old(self).handshake_done(),
            method@ == "tools/call"@ ==> final(self).handshake_done() == old(self).handshake_done() && match tool_name {
                Some(n) if n@.len() > 0 => r matches McpRoute::CallTool { name } && name@ == n@,
                _ => r matches McpRoute::Reject { code, message } && code == INVALID_PARAMS && message@
                    == "Invalid params: missing tool name"@,
            },
            method@ != "initialize"@ && method@ != "notifications/initialized"@ && method@ != "tools/list"@
                && method@ != "tools/call"@ ==> final(self).handshake_done() == old(self).handshake_done() && (r matches McpRoute::Reject {
                code,
                message,
            } && code == METHOD_NOT_FOUND && message@ == "Method not found: "@ + method@),
            final(self).info() == old(self).info(),
            final(self).audit() == old(self).audit(),
    {
        proof {
            reveal_strlit("initialize");
            reveal_strlit("notifications/initialized");
            reveal_strlit("tools/list");
            reveal_strlit("tools/call");
            assert("initialize"@[0] != "tools/list"@[0]);
            assert("initialize"@[0] != "tools/call"@[0]);
            assert("tools/list"@[6] != "tools/call"@[6]);
            assert("notifications/initialized"@.len() != "initialize"@.len());
            assert("notifications/initialized"@.len() != "tools/list"@.len());
            assert("notifications/initialized"@.len() != "tools/call"@.len());
        }
        if crate::text::str_eq(method, "initialize") {
            return McpRoute::Initialize;
        }
        if crate::text::str_eq(method, "notifications/initialized") {
            self.initialized = true;
            return McpRoute::Initialized;
        }
        if crate::text::str_eq(method, "tools/list") {
            return McpRoute::ListTools;
        }
        if crate::text::str_eq(method, "tools/call") {
            return match tool_name {
                Some(n) => {
                    if n.is_empty() {
                        McpRoute::Reject {
                            code: INVALID_PARAMS,
                            message: String::from_str("Invalid params: missing tool name"),
                        }
                    } else {
                        McpRoute::CallTool { name: String::from_str(n) }
                    }
                },
                None => McpRoute::Reject {
                    code: INVALID_PARAMS,
                    message: String::from_str("Invalid params: missing tool name"),
                },
            };
        }
        let mut v: Vec<char> = Vec::new();
        push_str(&mut v, "Method not found: ");
        push_str(&mut v, method);
        McpRoute::Reject { code: METHOD_NOT_FOUND, message: string_from_chars(&v) }
    }

    /// The result of `initialize`, as JSON.
    pub fn initialize_result(&self) -> (t: String)
        ensures
            t@ == initialize_json(self.info().name@, self.info().version@),
    {
        let mut v: Vec<char> = Vec::new();
        push_str(&mut v, "{\"capabilities\":{\"tools\":{\"listChanged\":false}},\"protocolVersion\":");
        let pv = json_quoted(MCP_PROTOCOL_VERSION);
        push_str(&mut v, pv.as_str());
        push_str(&mut v, ",\"serverInfo\":{\"name\":");
        let n = json_quoted(self.server_info.name.as_str());
        push_str(&mut v, n.as_str());
        push_str(&mut v, ",\"version\":");
        let ver = json_quoted(self.server_info.version.as_str());
        push_str(&mut v, ver.as_str());
        push_str(&mut v, "}}");
        string_from_chars(&v)
    }

    /// Audits a tool call the policy allowed (`args_json`: its arguments as JSON).
    pub fn audit_tool_call(&mut self, name: &str, args_json: &str) -> (r: Result<AuditEntry, AuditError>)
        requires
            old(self).audit().len() < u64::MAX,
        ensures
            final(self).audit().drop_last() == old(self).audit(),
            final(self).audit().len() == old(self).audit().len() + 1,
            final(self).audit().last().event_type == AuditEventType::ToolCall,
            final(self).audit().last().component@ == name@,
            final(self).info() == old(self).info(),
            final(self).handshake_done() == old(self).handshake_done(),
    {
        self.audit_log.tool_call(name, args_json)
    }

    /// Audits a tool run: `MCP tool executed: <name> (success: <b>)` with the
    /// success flag, exit code and duration as metadata.
    pub fn audit_tool_result(&mut self, name: &str, success: bool, exit_code: Option<i32>, duration_ms: Option<u64>) -> (r:
        Result<AuditEntry, AuditError>)
        requires
            old(self).audit().len() < u64::MAX,
        ensures
            final(self).audit().drop_last() == old(self).audit(),
            final(self).audit().len() == old(self).audit().len() + 1,
            final(self).audit().last().event_type == AuditEventType::ToolResult,
            final(self).audit().last().component@ == name@,
            final(self).audit().last().description@ == "MCP tool executed: "@ + name@ + " (success: "@ + bool_text(success) + ")"@,
            final(self).audit().last().metadata matches Some(m) && m@ == "{\"duration_ms\":"@ + match duration_ms {
                Some(d) => decimal(d as nat),
                None => "null"@,
            } + ",\"exit_code\":"@ + match exit_code {
                Some(c) => signed_decimal(c as int),
                None => "null"@,
            } + ",\"success\":"@ + bool_text(success) + "}"@,
            final(self).info() == old(self).info(),
            final(self).handshake_done() == old(self).handshake_done(),
    {
        let mut d: Vec<char> = Vec::new();
        push_str(&mut d, "MCP tool executed: ");
        push_str(&mut d, name);
        push_str(&mut d, " (success: ");
        if success {
            push_str(&mut d, "true");
        } else {
            push_str(&mut d, "false");
        }
        push_str(&mut d, ")");
        let mut m: Vec<char> = Vec::new();
        push_str(&mut m, "{\"duration_ms\":");
        match duration_ms {
            Some(x) => push_decimal(&mut m, x),
            None => push_str(&mut m, "null"),
        }
        push_str(&mut m, ",\"exit_code\":");
        match exit_code {
            Some(c) => push_signed(&mut m, c),
            None => push_str(&mut m, "null"),
        }
        push_str(&mut m, ",\"success\":");
        if success {
            push_str(&mut m, "true");
        } else {
            push_str(&mut m, "false");
        }
        push_str(&mut m, "}");
        let desc = string_from_chars(&d);
        self.audit_log.append(AuditEventType::ToolResult, name, desc.as_str(), Some(string_from_chars(&m)))
    }

    /// The next request id.
    pub fn next_id(&mut self) -> (n: i64)
        requires
            old(self).last_id() < i64::MAX,
        ensures
            n == old(self).last_id() + 1,
            final(self).info() == old(self).info(),
            final(self).handshake_done() == old(self).handshake_done(),
    {
        self.request_id = self.request_id + 1;
        self.request_id
    }
}

// ── SSE server over HTTP ───────────────────────────────────────────────────

/// The leading run of non-whitespace characters of `s`.
pub open spec fn leading_word(s: Seq<char>) -> Seq<char>
    decreases s.len(),
{
    if s.len() > 0 && !is_ws(s[0]) {
        seq![s[0]] + leading_word(s.drop_first())
    } else {
        Seq::<char>::empty()
    }
}

/// The first two whitespace-separated words of a line (empty when missing),
/// as `split_whitespace` yields them.
pub open spec fn first_two_words(l: Seq<char>) -> (Seq<char>, Seq<char>) {
    let a = trim_start_seq(l);
    let w1 = leading_word(a);
    (w1, leading_word(trim_start_seq(a.skip(w1.len() as int))))
}

/// The first line of a non-empty request, as `str::lines` yields it.
pub open spec fn request_line(req: Seq<char>) -> Seq<char> {
    match first_occurrence(req, seq!['\n']) {
        Some(i) => strip_cr(req.take(i)),
        None => req,
    }
}

/// What an HTTP request to the SSE server asks for.
#[derive(Debug, Clone, PartialEq, Eq)]
pub enum SseHttpRequest {
    /// `GET /sse`: open an event stream.
    OpenStream,
    /// `POST /message` with this body (everything after the blank line).
    PostMessage { body: String },
    /// Any other method or path: answered with 404.
    NotFound,
}

/// The first index at or after `k` that is not whitespace (or the end).
fn skip_whitespace(s: &[char], k: usize) -> (r: usize)
    requires
        k <= s@.len(),
    ensures
        k <= r <= s@.len(),
        trim_start_seq(s@.skip(k as int)) == s@.skip(r as int),
{
    let mut i = k;
    while i < s.len() && crate::text::is_whitespace(s[i])
        invariant
            k <= i <= s@.len(),
            trim_start_seq(s@.skip(k as int)) == trim_start_seq(s@.skip(i as int)),
        decreases s@.len() - i,
    {
        assert(s@.skip(i as int).drop_first() =~= s@.skip(i + 1));
        i = i + 1;
    }
    i
}

/// The first index at or after `k` that is whitespace (or the end).
fn word_end(s: &[char], k: usize) -> (r: usize)
    requires
        k <= s@.len(),
    ensures
        k <= r <= s@.len(),
        leading_word(s@.skip(k as int)) == s@.subrange(k as int, r as int),
{
    let mut i = k;
    while i < s.len() && !crate::text::is_whitespace(s[i])
        invariant
            k <= i <= s@.len(),
            leading_word(s@.skip(k as int)) == s@.subrange(k as int, i as int) + leading_word(s@.skip(i as int)),
        decreases s@.len() - i,
    {
        assert(s@.skip(i as int).drop_first() =~= s@.skip(i + 1));
        assert(s@.subrange(k as int, i + 1) =~= s@.subrange(k as int, i as int) + seq![s@[i as int]]);
        i = i + 1;
    }
    assert(s@.subrange(k as int, i as int) + Seq::<char>::empty() =~= s@.subrange(k as int, i as int));
    i
}

/// Reads the request line and, for a message post, the body of an HTTP
/// request to the SSE server: `GET /sse` opens a stream, `POST /message`
/// carries a JSON-RPC request after the blank line, anything else is not
/// found. An empty request, a request line with fewer than two words and a
/// post without a blank line are transport errors.
pub fn route_http_request(request: &str) -> (r: Result<SseHttpRequest, McpError>)
    ensures
        request@.len() == 0 ==> (r matches Err(McpError::Transport(m)) && m@ == "Empty HTTP request"@),
        request@.len() > 0 ==> ({
            let (method, path) = first_two_words(request_line(request@));
            if method.len() == 0 || path.len() == 0 {
                r matches Err(McpError::Transport(m)) && m@ == "Invalid HTTP request"@
            } else if method == "GET"@ && path == "/sse"@ {
                r == Ok::<SseHttpRequest, McpError>(SseHttpRequest::OpenStream)
            } else if method == "POST"@ && path == "/message"@ {
                match first_occurrence(request@, "\r\n\r\n"@) {
                    Some(i) => r matches Ok(SseHttpRequest::PostMessage { body }) && body@ == request@.skip(i + 4),
                    None => r matches Err(McpError::Transport(m)) && m@ == "No body in POST request"@,
                }
            } else {
                r == Ok::<SseHttpRequest, McpError>(SseHttpRequest::NotFound)
            }
        }),
{
    let req = chars_of(request);
    if req.len() == 0 {
        return Err(McpError::Transport(String::from_str("Empty HTTP request")));
    }
    let nl: Vec<char> = vec!['\n'];
    let line: Vec<char> = match find(&req, &nl) {
        Some(i) => {
            if i > 0 && req[i - 1] == '\r' {
                proof {
                    assert(req@.subrange(0, i - 1) =~= req@.take(i as int).drop_last());
                }
                slice_range(&req, 0, i - 1)
            } else {
                proof {
                    assert(req@.subrange(0, i as int) =~= req@.take(i as int));
                }
                slice_range(&req, 0, i)
            }
        },
        None => {
            proof {
                assert(req@.subrange(0, req@.len() as int) =~= req@);
            }
            slice_range(&req, 0, req.len())
        },
    };
    assert(nl@ =~= seq!['\n']);
    assert(line@ == request_line(request@));
    let a = skip_whitespace(&line, 0);
    let e1 = word_end(&line, a);
    let b = skip_whitespace(&line, e1);
    let e2 = word_end(&line, b);
    proof {
        assert(line@.skip(0) =~= line@);
        let w1 = line@.subrange(a as int, e1 as int);
        assert(line@.skip(a as int).skip(w1.len() as int) =~= line@.skip(e1 as int));
    }
    let method = slice_range(&line, a, e1);
    let path = slice_range(&line, b, e2);
    if method.len() == 0 || path.len() == 0 {
        return Err(McpError::Transport(String::from_str("Invalid HTTP request")));
    }
    proof {
        reveal_strlit("GET");
        reveal_strlit("/sse");
        reveal_strlit("POST");
        reveal_strlit("/message");
    }
    if crate::text::chars_eq(&method, "GET") && crate::text::chars_eq(&path, "/sse") {
        Ok(SseHttpRequest::OpenStream)
    } else if crate::text::chars_eq(&method, "POST") && crate::text::chars_eq(&path, "/message") {
        let sep = chars_of("\r\n\r\n");
        match find(&req, &sep) {
            Some(i) => {
                proof {
                    reveal_strlit("\r\n\r\n");
                    assert(req@.subrange(i + 4, req@.len() as int) =~= req@.skip(i + 4));
                }
                Ok(SseHttpRequest::PostMessage { body: string_from_chars(&slice_range(&req, i + 4, req.len())) })
            },
            None => Err(McpError::Transport(String::from_str("No body in POST request"))),
        }
    } else {
        Ok(SseHttpRequest::NotFound)
    }
}

/// The HTTP response to a message post: status 200, a JSON body of the given
/// length in bytes, and, when `cors`, a header allowing any origin.
pub open spec fn http_json_response_text(body: Seq<char>, cors: bool) -> Seq<char> {
    "HTTP/1.1 200 OK\r\nContent-Type: application/json\r\nContent-Length: "@ + decimal(byte_len(body)) + "\r\n"@
        + (if cors { "Access-Control-Allow-Origin: *\r\n"@ } else { Seq::<char>::empty() }) + "\r\n"@ + body
}

/// Frames a JSON body as an HTTP 200 response.
pub fn http_json_response(body: &str, cors: bool) -> (t: String)
    ensures
        t@ == http_json_response_text(body@, cors),
{
    let mut v: Vec<char> = Vec::new();
    push_str(&mut v, "HTTP/1.1 200 OK\r\nContent-Type: application/json\r\nContent-Length: ");
    push_decimal(&mut v, body.len() as u64);
    push_str(&mut v, "\r\n");
    if cors {
        push_str(&mut v, "Access-Control-Allow-Origin: *\r\n");
    }
    push_str(&mut v, "\r\n");
    push_str(&mut v, body);
    string_from_chars(&v)
}

/// The headers that open an event stream.
pub const SSE_STREAM_HEADERS: &'static str = "HTTP/1.1 200 OK\r\nContent-Type: text/event-stream\r\nCache-Control: no-cache\r\nConnection: keep-alive\r\nAccess-Control-Allow-Origin: *\r\n\r\n";

/// The first event of a stream: where to post messages.
pub const SSE_ENDPOINT_EVENT: &'static str = "event: endpoint\ndata: /message\n\n";

/// The answer to an unknown method or path.
pub const HTTP_NOT_FOUND: &'static str = "HTTP/1.1 404 Not Found\r\nContent-Length: 0\r\n\r\n";

/// An event carrying `data` on a stream.
pub fn sse_data_event(data: &str) -> (t: String)
    ensures
        t@ == "data: "@ + data@ + "\n\n"@,
{
    let mut v: Vec<char> = Vec::new();
    push_str(&mut v, "data: ");
    push_str(&mut v, data);
    push_str(&mut v, "\n\n");
    string_from_chars(&v)
}

// ── SSE client framing ─────────────────────────────────────────────────────

/// The complete events of an SSE buffer (each ended by a blank line, `\n\n`)
/// and the incomplete rest.
pub open spec fn sse_split(buf: Seq<char>) -> (Seq<Seq<char>>, Seq<char>)
    decreases buf.len(),
{
    match first_occurrence(buf, "\n\n"@) {
        Some(i) => if 0 <= i && i + 2 <= buf.len() {
            let (events, rest) = sse_split(buf.skip(i + 2));
            (seq![buf.take(i)] + events, rest)
        } else {
            (Seq::<Seq<char>>::empty(), buf)
        },
        None => (Seq::<Seq<char>>::empty(), buf),
    }
}

/// Takes the complete events out of an SSE buffer: the events in order, and
/// what remains to be completed by the next chunk.
pub fn take_sse_events(buffer: &str) -> (r: (Vec<String>, String))
    ensures
        r.0@.len() == sse_split(buffer@).0.len(),
        forall|k: int| 0 <= k < r.0@.len() ==> #[trigger] r.0@[k]@ == sse_split(buffer@).0[k],
        r.1@ == sse_split(buffer@).1,
{
    let all = chars_of(buffer);
    let sep: Vec<char> = vec!['\n', '\n'];
    proof {
        reveal_strlit("\n\n");
        assert(sep@ =~= "\n\n"@);
    }
    let mut events: Vec<String> = Vec::new();
    let mut rest: Vec<char> = slice_range(&all, 0, all.len());
    assert(all@.subrange(0, all@.len() as int) =~= all@);
    loop
        invariant
            sep@ == "\n\n"@,
            sep@.len() == 2,
            events@.len() + sse_split(rest@).0.len() == sse_split(buffer@).0.len(),
            forall|k: int| 0 <= k < events@.len() ==> #[trigger] events@[k]@ == sse_split(buffer@).0[k],
            forall|k: int| 0 <= k < sse_split(rest@).0.len() ==> #[trigger] sse_split(rest@).0[k] == sse_split(buffer@).0[events@.len() + k],
            sse_split(rest@).1 == sse_split(buffer@).1,
        ensures
            events@.len() == sse_split(buffer@).0.len(),
            forall|k: int| 0 <= k < events@.len() ==> #[trigger] events@[k]@ == sse_split(buffer@).0[k],
            rest@ == sse_split(buffer@).1,
        decreases rest@.len(),
    {
        match find(&rest, &sep) {
            Some(i) => {
                let ghost before = rest@;
                let rlen = rest.len();
                assert(i + 2 <= rlen) by {
                    match first_occurrence(rest@, sep@) {
                        Some(j) => assert(j == i),
                        None => assert(false),
                    }
                }
                let event = slice_range(&rest, 0, i);
                let next = slice_range(&rest, i + 2, rlen);
                proof {
                    assert(event@ =~= before.take(i as int));
                    assert(next@ =~= before.skip(i + 2));
                    let (es, _) = sse_split(next@);
                    assert(sse_split(before).0 =~= seq![before.take(i as int)] + es);
                    assert forall|k: int| 0 <= k < sse_split(next@).0.len() implies #[trigger] sse_split(next@).0[k]
                        == sse_split(buffer@).0[events@.len() + 1 + k] by {
                        assert(sse_split(before).0[k + 1] == sse_split(next@).0[k]);
                    }
                    assert(sse_split(before).0[0] == event@);
                }
                events.push(string_from_chars(&event));
                rest = next;
            },
            None => {
                proof {
                    assert(sse_split(rest@).0.len() == 0);
                    assert(sse_split(rest@).1 == rest@);
                }
                break;
            },
        }
    }
    (events, string_from_chars(&rest))
}

/// `s` without its trailing `/` characters.
pub open spec fn trim_end_slashes(s: Seq<char>) -> Seq<char>
    decreases s.len(),
{
    if s.len() > 0 && s.last() == '/' { trim_end_slashes(s.drop_last()) } else { s }
}

/// `s` without its leading `/` characters.
pub open spec fn trim_start_slashes(s: Seq<char>) -> Seq<char>
    decreases s.len(),
{
    if s.len() > 0 && s[0] == '/' { trim_start_slashes(s.drop_first()) } else { s }
}

/// The URL requests are posted to, given the stream's URL and the endpoint
/// the server announced: an absolute endpoint (starting with `http`) as is,
/// else the endpoint's path joined to the stream URL with one `/`.
pub open spec fn resolved_endpoint(url: Seq<char>, endpoint: Seq<char>) -> Seq<char> {
    if has_prefix(endpoint, "http"@) {
        endpoint
    } else {
        trim_end_slashes(url) + "/"@ + trim_start_slashes(endpoint)
    }
}

/// Resolves the announced endpoint against the stream's URL.
pub fn resolve_endpoint(url: &str, endpoint: &str) -> (r: String)
    ensures
        r@ == resolved_endpoint(url@, endpoint@),
{
    let u = chars_of(url);
    let e = chars_of(endpoint);
    let http = chars_of("http");
    proof {
        reveal_strlit("http");
        reveal_strlit("/");
    }
    if starts_with(&e, &http) {
        return String::from_str(endpoint);
    }
    let mut end = u.len();
    assert(u@.take(end as int) =~= u@);
    while end > 0 && u[end - 1] == '/'
        invariant
            end <= u@.len(),
            trim_end_slashes(u@) == trim_end_slashes(u@.take(end as int)),
        decreases end,
    {
        assert(u@.take(end as int).drop_last() =~= u@.take(end - 1));
        end = end - 1;
    }
    let mut start: usize = 0;
    assert(e@.skip(0) =~= e@);
    while start < e.len() && e[start] == '/'
        invariant
            start <= e@.len(),
            trim_start_slashes(e@) == trim_start_slashes(e@.skip(start as int)),
        decreases e@.len() - start,
    {
        assert(e@.skip(start as int).drop_first() =~= e@.skip(start + 1));
        start = start + 1;
    }
    assert(u@.take(end as int) =~= u@.subrange(0, end as int));
    assert(e@.skip(start as int) =~= e@.subrange(start as int, e@.len() as int));
    let mut v = slice_range(&u, 0, end);
    push_str(&mut v, "/");
    let tail = slice_range(&e, start, e.len());
    crate::text::push_chars(&mut v, &tail);
    string_from_chars(&v)
}

} // verus!
