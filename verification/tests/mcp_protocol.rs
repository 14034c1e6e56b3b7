use cotrex::mcp::{
    dispatch, read_request, reply, route_tool, tool_error, tool_text, Dispatch, ToolCall, TOOLS_LIST,
};
use serde_json::Value;

/// Serve one request line the way the server does, with no inference runtime attached; only
/// tool calls that are refused can be answered here.
fn serve_line(line: &str) -> Option<Value> {
    let req = read_request(line)?;
    let outcome = match dispatch(&req.method, "3.0.0") {
        Dispatch::Reply(result) => Ok(result),
        Dispatch::Notification => return None,
        Dispatch::CallTool => match route_tool(&req.params, false) {
            ToolCall::Refused(m) => Ok(tool_error(&m)),
            _ => panic!("this helper answers refused calls only"),
        },
        Dispatch::Failure(code, message) => Err((code, message)),
    };
    reply(&req.id, &outcome).map(|frame| serde_json::from_str(&frame).unwrap())
}

fn jsonrpc(id: u64, method: &str, params: &str) -> String {
    format!(r#"{{"jsonrpc":"2.0","id":{id},"method":"{method}","params":{params}}}"#)
}

fn empty_object() -> Value {
    serde_json::from_str("{}").unwrap()
}

fn tool_names() -> Vec<String> {
    let v: Value = serde_json::from_str(TOOLS_LIST).unwrap();
    v["tools"]
        .as_array()
        .unwrap()
        .iter()
        .filter_map(|t| t["name"].as_str().map(str::to_string))
        .collect()
}

#[test]
fn tools_list_exposes_run() {
    match dispatch("tools/list", "3.0.0") {
        Dispatch::Reply(t) => {
            let r: Value = serde_json::from_str(&t).unwrap();
            assert_eq!(r["tools"][0]["name"], "run");
        }
        _ => panic!("expected a reply"),
    }
}

#[test]
fn tools_list_exposes_set_agent() {
    assert!(tool_names().contains(&"set_agent".to_string()));
}

#[test]
fn initialized_is_a_notification() {
    assert!(matches!(dispatch("notifications/initialized", "3.0.0"), Dispatch::Notification));
}

#[test]
fn unknown_method_errors() {
    assert!(matches!(dispatch("bogus", "3.0.0"), Dispatch::Failure(..)));
}

#[test]
fn tools_list_exposes_workspace_context() {
    assert!(tool_names().contains(&"workspace_context".to_string()));
}

#[test]
fn workspace_context_without_orchestrator_errors() {
    let r = serve_line(&jsonrpc(
        1,
        "tools/call",
        r#"{"name":"workspace_context","arguments":{}}"#,
    ))
    .unwrap();
    let result = &r["result"];
    assert_eq!(result["isError"], true);
    assert!(result["content"][0]["text"]
        .as_str()
        .unwrap()
        .contains("Orchestrator not initialized"));
}

#[test]
fn mcp_initialize() {
    let resp = serve_line(&jsonrpc(1, "initialize", "{}")).expect("no response");
    assert_eq!(resp["id"], 1);
    assert_eq!(resp["result"]["serverInfo"]["name"], "cotrex");
    assert!(resp["result"]["capabilities"]["tools"].is_object());
}

#[test]
fn mcp_tools_list() {
    serve_line(&jsonrpc(1, "initialize", "{}"));
    let resp = serve_line(&jsonrpc(2, "tools/list", "{}")).expect("no response");
    let names: Vec<&str> = resp["result"]["tools"]
        .as_array()
        .unwrap()
        .iter()
        .filter_map(|t| t["name"].as_str())
        .collect();
    assert!(names.contains(&"run"));
    assert!(names.contains(&"workspace_context"));
    assert!(names.contains(&"cotrex_build_summary"));
    assert!(names.contains(&"cotrex_explain_rust"));
}

#[test]
fn mcp_workspace_context_no_orchestrator() {
    serve_line(&jsonrpc(1, "initialize", "{}"));
    let resp = serve_line(&jsonrpc(
        2,
        "tools/call",
        r#"{"name":"workspace_context","arguments":{}}"#,
    ))
    .expect("no response");
    assert!(resp.get("result").is_some(), "expected a result response");
}

#[test]
fn mcp_unknown_tool_error() {
    serve_line(&jsonrpc(1, "initialize", "{}"));
    let resp = serve_line(&jsonrpc(
        2,
        "tools/call",
        r#"{"name":"nonexistent_tool","arguments":{}}"#,
    ))
    .expect("no response");
    assert_eq!(resp["result"]["isError"], true);
    assert!(resp["result"]["content"][0]["text"]
        .as_str()
        .unwrap()
        .contains("unknown tool"));
}

#[test]
fn mcp_unknown_method_error() {
    let resp = serve_line(&jsonrpc(1, "bogus_method", "{}")).expect("no response");
    assert!(resp["error"].is_object());
    assert_eq!(resp["error"]["code"], -32601);
}

#[test]
fn mcp_notification_no_response() {
    serve_line(&jsonrpc(1, "initialize", "{}"));
    let notification = r#"{"jsonrpc":"2.0","method":"notifications/initialized"}"#;
    assert!(serve_line(notification).is_none());
    let resp = serve_line(&jsonrpc(2, "ping", "{}")).expect("no response");
    assert_eq!(resp["id"], 2);
    assert_eq!(resp["result"], empty_object());
}

#[test]
fn mcp_ping() {
    serve_line(&jsonrpc(1, "initialize", "{}"));
    let resp = serve_line(&jsonrpc(2, "ping", "{}")).expect("no response");
    assert_eq!(resp["id"], 2);
    assert_eq!(resp["result"], empty_object());
}

#[test]
fn tool_text_escapes_as_serde_json_does() {
    let text = "a\"b\\c\nd\te\u{1}f\u{8}\u{c}\r/é";
    let expected = format!(
        r#"{{"content":[{{"text":{},"type":"text"}}],"isError":false}}"#,
        serde_json::to_string(text).unwrap()
    );
    assert_eq!(tool_text(text, false), expected);
    assert!(tool_text("\u{1f}", false).contains(r#""\u001f""#));
}
