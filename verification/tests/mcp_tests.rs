use ravenclaws::mcp::{endpoint_notice, sse_event_messages, SseMessage};
use ravenclaws::mcp::{
    http_json_response, resolve_endpoint, route_http_request, sse_data_event, take_sse_events, SseHttpRequest,
    HTTP_NOT_FOUND, SSE_ENDPOINT_EVENT,
};
use ravenclaws::mcp::{
    check_tool_result, client_initialize_params, error_reply_text, next_request_id, parse_error_text,
    result_reply_text, tool_call_reply, tool_output_text, tool_result_text, JsonRpcRequest, McpContent, McpError,
    McpRoute, McpServer, McpToolResult, ToolCallOutcome, INVALID_PARAMS, MCP_PROTOCOL_VERSION, METHOD_NOT_FOUND,
    PARSE_ERROR, SERVER_ERROR,
};

#[test]
fn test_mcp_server_initialize_response() {
    let server = McpServer::new().unwrap();

    // Check server info
    assert_eq!(server.server_info.name, "ravenclaws");
    assert!(!server.server_info.version.is_empty());
    assert!(!server.initialized);
}

#[test]
fn test_mcp_server_json_rpc_error_codes() {
    // -32700: Parse error
    // -32601: Method not found
    // -32602: Invalid params
    // -32000: Server error (tool execution failed)
    assert_eq!(PARSE_ERROR, -32700);
    assert_eq!(METHOD_NOT_FOUND, -32601);
    assert_eq!(INVALID_PARAMS, -32602);
    assert_eq!(SERVER_ERROR, -32000);
}

#[test]
fn test_json_rpc_request() {
    let req = JsonRpcRequest::new("tools/list", serde_json::Value::Null, 1);
    assert_eq!(req.jsonrpc, "2.0");
    assert_eq!(req.method, "tools/list");
    assert_eq!(req.id, serde_json::Value::Number(1.into()));
}

#[test]
fn test_initialize_params() {
    let params = client_initialize_params();
    assert_eq!(params.protocol_version, MCP_PROTOCOL_VERSION);
    assert_eq!(params.client_info.name, "ravenclaws");
}

#[test]
fn test_mcp_server_handle_unknown_method() {
    let mut server = McpServer::new().unwrap();
    match server.route("unknown_method", None) {
        McpRoute::Reject { code, message } => {
            assert_eq!(code, -32601);
            let reply: serde_json::Value =
                serde_json::from_str(&error_reply_text("1", code, &message)).unwrap();
            assert!(reply.get("error").is_some());
            assert_eq!(reply["error"]["code"], serde_json::Value::Number((-32601).into()));
        },
        other => panic!("unexpected route {:?}", other),
    }
}

#[test]
fn test_mcp_server_handle_tools_call_missing_name() {
    let mut server = McpServer::new().unwrap();
    match server.route("tools/call", None) {
        McpRoute::Reject { code, .. } => assert_eq!(code, -32602),
        other => panic!("unexpected route {:?}", other),
    }
    assert!(matches!(server.route("tools/call", Some("")), McpRoute::Reject { code: -32602, .. }));
}

#[test]
fn test_mcp_server_handle_tools_call_unknown_tool() {
    let mut server = McpServer::new().unwrap();
    assert_eq!(
        server.route("tools/call", Some("nonexistent_tool")),
        McpRoute::CallTool { name: "nonexistent_tool".to_string() }
    );
    let (text, is_error) = tool_call_reply(&ToolCallOutcome::Failed("Unknown tool: nonexistent_tool".to_string()));
    let result: serde_json::Value = serde_json::from_str(&tool_result_text(&text, is_error)).unwrap();
    assert!(result["isError"].as_bool().unwrap_or(false));
}

// ── Additional scenarios ────────────────────────────────────────────────

#[test]
fn mcp_route_handshake() {
    let mut server = McpServer::new().unwrap();
    assert_eq!(server.route("initialize", None), McpRoute::Initialize);
    assert!(!server.initialized);
    assert_eq!(server.route("notifications/initialized", None), McpRoute::Initialized);
    assert!(server.initialized);
    assert_eq!(server.route("tools/list", None), McpRoute::ListTools);
}

#[test]
fn mcp_initialize_result_json() {
    let server = McpServer::new().unwrap();
    let v: serde_json::Value = serde_json::from_str(&server.initialize_result()).unwrap();
    assert_eq!(v["protocolVersion"], "2024-11-05");
    assert_eq!(v["serverInfo"]["name"], "ravenclaws");
    assert_eq!(v["capabilities"]["tools"]["listChanged"], false);
}

#[test]
fn mcp_reply_texts_are_exact() {
    assert_eq!(
        error_reply_text("7", -32601, "Method not found: x"),
        "{\"error\":{\"code\":-32601,\"message\":\"Method not found: x\"},\"id\":7,\"jsonrpc\":\"2.0\"}"
    );
    assert_eq!(result_reply_text("null", "{}"), "{\"id\":null,\"jsonrpc\":\"2.0\",\"result\":{}}");
    assert_eq!(
        tool_result_text("a\"b", false),
        "{\"content\":[{\"text\":\"a\\\"b\",\"type\":\"text\"}],\"isError\":false}"
    );
    let p: serde_json::Value = serde_json::from_str(&parse_error_text("bad")).unwrap();
    assert_eq!(p["error"]["code"], -32700);
    assert_eq!(p["error"]["data"], "bad");
    assert!(p["id"].is_null());
}

#[test]
fn mcp_tool_call_replies() {
    assert_eq!(tool_call_reply(&ToolCallOutcome::PolicyDenied("no".to_string())), ("Policy denied: no".to_string(), true));
    assert_eq!(
        tool_call_reply(&ToolCallOutcome::Executed { success: true, output: "out".to_string(), error: None }),
        ("out".to_string(), false)
    );
    assert_eq!(
        tool_call_reply(&ToolCallOutcome::Executed { success: false, output: String::new(), error: None }),
        ("Unknown error".to_string(), true)
    );
}

#[test]
fn mcp_client_side_helpers() {
    assert_eq!(next_request_id(41), 42);
    let ok = McpToolResult { content: vec![McpContent::Text { text: "x".to_string() }], is_error: false };
    assert!(check_tool_result(ok).is_ok());
    let bad = McpToolResult { content: vec![], is_error: true };
    match check_tool_result(bad) {
        Err(e) => assert_eq!(e.message(), "Server error: -32000 - Tool execution failed"),
        Ok(_) => panic!("expected an error"),
    }
    assert_eq!(McpError::ToolNotFound("t".to_string()).message(), "Tool not found: t");
}

#[test]
fn mcp_tool_output_text_joins_pieces() {
    let content = vec![
        McpContent::Text { text: "line one".to_string() },
        McpContent::Image { data: "AAAA".to_string(), mime_type: "image/png".to_string() },
    ];
    assert_eq!(tool_output_text(&content), "line one\n[Image: 4 bytes, image/png]");
}

#[test]
fn mcp_audits_tool_calls() {
    let mut server = McpServer::new().unwrap();
    let entry = server.audit_tool_call("shell_exec", "{\"command\":\"ls\"}").unwrap();
    assert_eq!(entry.index, 0);
    let entry2 = server.audit_tool_result("shell_exec", true, Some(0), Some(5)).unwrap();
    assert_eq!(entry2.index, 1);
    assert_eq!(server.next_id(), 1);
    assert_eq!(server.next_id(), 2);
}

#[test]
fn sse_events_are_read() {
    let ev = "event: endpoint\ndata: /message?sessionId=abc\n";
    assert_eq!(sse_event_messages(ev), vec![SseMessage::Endpoint("?sessionId=abc".to_string())]);
    let ev2 = "event: endpoint\r\ndata: http://host:1/message?x=1\r\n";
    assert_eq!(sse_event_messages(ev2), vec![SseMessage::Endpoint("http://host:1/message?x=1".to_string())]);
    let ev3 = "event: message\ndata: {\"jsonrpc\":\"2.0\",\"id\":1}\n: comment\ndata:  second ";
    assert_eq!(
        sse_event_messages(ev3),
        vec![SseMessage::Data("{\"jsonrpc\":\"2.0\",\"id\":1}".to_string()), SseMessage::Data("second".to_string())]
    );
    assert_eq!(endpoint_notice("/x"), "endpoint:/x");
}

#[test]
fn mcp_sse_http_routing() {
    assert_eq!(route_http_request("GET /sse HTTP/1.1\r\nHost: x\r\n\r\n").unwrap(), SseHttpRequest::OpenStream);
    assert_eq!(route_http_request("  GET \t /sse  ").unwrap(), SseHttpRequest::OpenStream);
    assert_eq!(
        route_http_request("POST /message HTTP/1.1\r\nContent-Type: application/json\r\n\r\n{\"a\":1}").unwrap(),
        SseHttpRequest::PostMessage { body: "{\"a\":1}".to_string() }
    );
    assert_eq!(route_http_request("DELETE /x HTTP/1.1\r\n\r\n").unwrap(), SseHttpRequest::NotFound);
    assert_eq!(route_http_request("GET /other HTTP/1.1\r\n\r\n").unwrap(), SseHttpRequest::NotFound);
    assert!(matches!(route_http_request(""), Err(McpError::Transport(m)) if m == "Empty HTTP request"));
    assert!(matches!(route_http_request("GET\r\n/sse"), Err(McpError::Transport(m)) if m == "Invalid HTTP request"));
    assert!(matches!(
        route_http_request("POST /message HTTP/1.1\r\n"),
        Err(McpError::Transport(m)) if m == "No body in POST request"
    ));
}

#[test]
fn mcp_sse_http_framing() {
    assert_eq!(
        http_json_response("{\"é\":1}", true),
        "HTTP/1.1 200 OK\r\nContent-Type: application/json\r\nContent-Length: 8\r\nAccess-Control-Allow-Origin: *\r\n\r\n{\"é\":1}"
    );
    assert_eq!(
        http_json_response("{}", false),
        "HTTP/1.1 200 OK\r\nContent-Type: application/json\r\nContent-Length: 2\r\n\r\n{}"
    );
    assert_eq!(sse_data_event("{\"id\":1}"), "data: {\"id\":1}\n\n");
    assert_eq!(SSE_ENDPOINT_EVENT, "event: endpoint\ndata: /message\n\n");
    assert_eq!(HTTP_NOT_FOUND, "HTTP/1.1 404 Not Found\r\nContent-Length: 0\r\n\r\n");
}

#[test]
fn mcp_sse_buffer_splitting() {
    let (events, rest) = take_sse_events("event: endpoint\ndata: /message\n\ndata: {\"id\":1}\n\ndata: partial");
    assert_eq!(events, vec!["event: endpoint\ndata: /message".to_string(), "data: {\"id\":1}".to_string()]);
    assert_eq!(rest, "data: partial");
    let (events, rest) = take_sse_events("");
    assert!(events.is_empty());
    assert_eq!(rest, "");
    let (events, rest) = take_sse_events("\n\n\n");
    assert_eq!(events, vec!["".to_string()]);
    assert_eq!(rest, "\n");
}

#[test]
fn mcp_sse_endpoint_resolution() {
    assert_eq!(resolve_endpoint("http://host:8080/sse/", "/message?x=1"), "http://host:8080/sse/message?x=1");
    assert_eq!(resolve_endpoint("http://h/sse", "https://other/message"), "https://other/message");
    assert_eq!(resolve_endpoint("http://h//", "//m"), "http://h/m");
    assert_eq!(resolve_endpoint("http://h", "?session=1"), "http://h/?session=1");
}

#[test]
fn mcp_tool_output_text_shows_resources_as_json() {
    let resource: serde_json::Value = serde_json::from_str("{\"uri\": \"file:///a\"}").unwrap();
    let content = vec![McpContent::Text { text: "see".to_string() }, McpContent::Resource { resource }];
    assert_eq!(tool_output_text(&content), "see\n[Resource: {\"uri\":\"file:///a\"}]");
}
