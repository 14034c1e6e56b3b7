use cotrex::agent::prompt::Mode;
use cotrex::agent::qualify::{
    qualification_tests, run_qualification, single_test_result, CapabilityStatus, QualEvent,
    QualTest, RunAction,
};
use cotrex::agent::session::{fulfill, fulfill_and_capture, AgentAction, AgentEvent};
use cotrex::agent::tool::Tool;
use cotrex::config::{active_model, apply_env, Config, EnvOverrides};
use cotrex::mcp::{
    dispatch, read_request, reply, route_tool, run_result, set_agent_result, tool_error,
    tool_outcome, Dispatch, ExportFormat, ToolCall, METHOD_NOT_FOUND, PROTOCOL_VERSION,
    TOOLS_LIST,
};
use cotrex::stream::SseReader;

// ── the agent loop ──────────────────────────────────────────────────────────

#[test]
fn agent_runs_a_command_then_answers() {
    let (mut lp, step) = fulfill("how many crates are there", Mode::User, false, 6);
    match step.action {
        AgentAction::Infer { user, .. } => assert!(user.contains("how many crates are there")),
        _ => panic!("expected Infer"),
    }
    let ev = AgentEvent::Reply(Ok(r#"{"run":"ls","say":"listing"}"#.to_string()));
    assert!(lp.accepts(&ev));
    let step = lp.advance(ev);
    assert_eq!(step.say.as_deref(), Some("listing"));
    match step.action {
        AgentAction::RunShell { cmd, .. } => assert_eq!(cmd, "ls"),
        _ => panic!("expected RunShell"),
    }
    let step = lp.advance(AgentEvent::ShellDone(Ok((0, "a\nb\n".to_string()))));
    match step.action {
        AgentAction::Infer { user, .. } => {
            assert!(user.contains("$ ls"));
            assert!(user.contains("(exit 0)"));
        }
        _ => panic!("expected Infer"),
    }
    let step = lp.advance(AgentEvent::Reply(Ok(r#"{"answer":"two"}"#.to_string())));
    match step.action {
        AgentAction::Answer { text } => assert_eq!(text, "two"),
        _ => panic!("expected Answer"),
    }
}

#[test]
fn risky_command_waits_for_confirmation() {
    let (mut lp, _) = fulfill("clean up", Mode::User, false, 6);
    let step = lp.advance(AgentEvent::Reply(Ok(r#"{"run":"rm -rf build"}"#.to_string())));
    match step.action {
        AgentAction::ConfirmCommand { cmd } => assert_eq!(cmd, "rm -rf build"),
        _ => panic!("expected ConfirmCommand"),
    }
    let step = lp.advance(AgentEvent::Answered(Some("n\n".to_string())));
    assert!(matches!(step.action, AgentAction::Aborted));
}

#[test]
fn captured_run_uses_tools_without_asking() {
    let (mut lp, _) = fulfill_and_capture("read the readme", false, 6);
    let step = lp.advance(AgentEvent::Reply(Ok(
        r#"{"tool":"read","args":{"path":"README.md"}}"#.to_string(),
    )));
    match step.action {
        AgentAction::RunTool { tool, args } => {
            assert_eq!(tool, Tool::Read);
            assert_eq!(args.get_str("path").as_deref(), Some("README.md"));
        }
        _ => panic!("expected RunTool"),
    }
    let step = lp.advance(AgentEvent::ToolDone(Ok("# Title".to_string())));
    assert!(matches!(step.action, AgentAction::Infer { .. }));
}

#[test]
fn model_error_ends_the_loop() {
    let (mut lp, _) = fulfill("anything", Mode::Model, false, 6);
    let step = lp.advance(AgentEvent::Reply(Err("connection refused".to_string())));
    match step.action {
        AgentAction::Failed { error } => assert!(error.contains("connection refused")),
        _ => panic!("expected Failed"),
    }
}

// ── qualification ───────────────────────────────────────────────────────────

#[test]
fn qualification_tests_are_listed() {
    let tests = qualification_tests();
    assert_eq!(tests.len(), 3);
    assert_eq!(tests[0].name(), "tool_calling.read");
}

#[test]
fn single_test_passes_on_the_expected_tool() {
    let r = single_test_result(
        QualTest::ReadTool,
        Ok(r#"{"tool":"read","args":{"path":"README.md"}}"#.to_string()),
    );
    assert!(r.passed);
    let r = single_test_result(
        QualTest::ReadTool,
        Ok(r#"{"answer":"Hi! What would you like to do?"}"#.to_string()),
    );
    assert!(!r.passed);
    assert_eq!(
        r.reason.unwrap(),
        "expected tool call, got answer: Hi! What would you like to do?"
    );
    let r = single_test_result(
        QualTest::ReadTool,
        Ok(r#"{"tool":"glob","args":{"pattern":"*.rs"}}"#.to_string()),
    );
    assert_eq!(r.reason.unwrap(), "expected tool 'read', got 'glob'");
}

#[test]
fn qualification_run_reaches_a_result() {
    let (mut run, mut action) = run_qualification("test-model", false, 1_700_000_000);
    for _ in 0..20 {
        let ev = match &action {
            RunAction::Infer { .. } => QualEvent::Reply(Ok(r#"{"answer":"done"}"#.to_string())),
            RunAction::RunTool { .. } => QualEvent::ToolDone(Ok("x".to_string())),
            RunAction::RunShell { .. } => QualEvent::ShellDone(Ok("x".to_string())),
            RunAction::Finished { .. } => break,
        };
        assert!(run.accepts(&ev));
        action = run.advance(ev);
    }
    match action {
        RunAction::Finished { result } => {
            assert_eq!(result.model_id, "test-model");
            assert_eq!(result.timestamp, "1700000000");
            assert_eq!(result.runtime_version, "3.0.0");
            assert_eq!(result.prompt_hash.len(), 16);
            assert_eq!(
                result.capabilities,
                vec![
                    ("tool_calling".to_string(), CapabilityStatus::Failed),
                    ("multi_step".to_string(), CapabilityStatus::Passed),
                ]
            );
        }
        _ => panic!("expected a finished run"),
    }
}

// ── settings ────────────────────────────────────────────────────────────────

#[test]
fn environment_overrides_settings() {
    let env = EnvOverrides {
        compression: Some("off".to_string()),
        rtk_verbosity: None,
        graph_auto: Some("0".to_string()),
        model: Some("llama".to_string()),
    };
    let c = apply_env(Config::default(), env);
    assert_eq!(c.compression, "off");
    assert_eq!(c.rtk_verbosity, "normal");
    assert!(!c.graph_auto);
    assert_eq!(active_model(&c), "llama");
    assert_eq!(active_model(&Config::default()), "qwen3-8b");
}

// ── streaming ───────────────────────────────────────────────────────────────

#[test]
fn stream_collects_content_and_echoes_reasoning() {
    let mut r = SseReader::new("");
    let (done, echo) =
        r.feed(r#"data: {"choices":[{"delta":{"reasoning_content":"hmm"}}]}"#);
    assert!(!done);
    assert_eq!(echo, "thinking: hmm");
    let (_, echo) = r.feed(r#"data: {"choices":[{"delta":{"content":"Hel"}}]}"#);
    assert_eq!(echo, "");
    r.feed(": keep-alive");
    r.feed(r#"data: {"choices":[{"delta":{"content":"lo"}}]}"#);
    let (done, _) = r.feed("data: [DONE]");
    assert!(done);
    assert_eq!(r.content, "Hello");
}

// ── the MCP protocol ────────────────────────────────────────────────────────

#[test]
fn initialize_reports_protocol_and_name() {
    match dispatch("initialize", "3.0.0") {
        Dispatch::Reply(t) => {
            let v: serde_json::Value = serde_json::from_str(&t).unwrap();
            assert_eq!(v["protocolVersion"], PROTOCOL_VERSION);
            assert_eq!(v["serverInfo"]["name"], "cotrex");
            assert_eq!(v["serverInfo"]["version"], "3.0.0");
        }
        _ => panic!("expected a reply"),
    }
}

#[test]
fn tools_list_is_valid_json_in_serde_order() {
    let v: serde_json::Value = serde_json::from_str(TOOLS_LIST).unwrap();
    assert_eq!(v.to_string(), TOOLS_LIST);
    let names: Vec<&str> = v["tools"]
        .as_array()
        .unwrap()
        .iter()
        .map(|t| t["name"].as_str().unwrap())
        .collect();
    assert!(names.contains(&"run"));
    assert!(names.contains(&"set_agent"));
    assert!(names.contains(&"workspace_context"));
    assert_eq!(names.len(), 15);
}

#[test]
fn notifications_and_unknown_methods() {
    assert!(matches!(dispatch("notifications/initialized", "x"), Dispatch::Notification));
    assert!(matches!(dispatch("tools/call", "x"), Dispatch::CallTool));
    match dispatch("bogus", "x") {
        Dispatch::Failure(code, msg) => {
            assert_eq!(code, METHOD_NOT_FOUND);
            assert_eq!(msg, "method not found: bogus");
        }
        _ => panic!("expected a failure"),
    }
}

#[test]
fn request_lines_are_read() {
    assert!(read_request("   ").is_none());
    assert!(read_request("not json").is_none());
    let q = read_request(r#" {"jsonrpc":"2.0","id":7,"method":"ping"} "#).unwrap();
    assert_eq!(q.id.as_deref(), Some("7"));
    assert_eq!(q.method, "ping");
    assert_eq!(q.params, "{}");
    let n = read_request(r#"{"method":"notifications/initialized"}"#).unwrap();
    assert!(n.id.is_none());
}

#[test]
fn replies_are_framed() {
    let id = Some("7".to_string());
    assert_eq!(
        reply(&id, &Ok("{}".to_string())).unwrap(),
        r#"{"id":7,"jsonrpc":"2.0","result":{}}"#
    );
    assert_eq!(
        reply(&id, &Err((-32601, "method not found: x".to_string()))).unwrap(),
        r#"{"error":{"code":-32601,"message":"method not found: x"},"id":7,"jsonrpc":"2.0"}"#
    );
    assert!(reply(&None, &Ok("{}".to_string())).is_none());
}

#[test]
fn set_agent_requires_agent() {
    match route_tool(r#"{"name":"set_agent","arguments":{}}"#, false) {
        ToolCall::Refused(m) => assert_eq!(m, "missing required argument 'agent'"),
        _ => panic!("expected a refusal"),
    }
    match route_tool(r#"{"name":"set_agent","arguments":{"agent":" codex "}}"#, false) {
        ToolCall::SetAgent { agent } => assert_eq!(agent, "codex"),
        _ => panic!("expected SetAgent"),
    }
}

#[test]
fn call_without_command_is_tool_error() {
    match route_tool(r#"{"name":"run","arguments":{}}"#, false) {
        ToolCall::Refused(m) => {
            let v: serde_json::Value = serde_json::from_str(&tool_error(&m)).unwrap();
            assert_eq!(v["isError"], true);
            assert_eq!(v["content"][0]["text"], "error: missing required argument 'command'");
        }
        _ => panic!("expected a refusal"),
    }
}

#[test]
fn unknown_tool_returns_error() {
    match route_tool(r#"{"name":"bogus_tool","arguments":{}}"#, true) {
        ToolCall::Refused(m) => assert_eq!(m, "unknown tool: bogus_tool"),
        _ => panic!("expected a refusal"),
    }
}

#[test]
fn runtime_tools_need_a_runtime() {
    match route_tool(r#"{"name":"workspace_context","arguments":{}}"#, false) {
        ToolCall::Refused(m) => assert_eq!(m, "Orchestrator not initialized."),
        _ => panic!("expected a refusal"),
    }
    match route_tool(
        r#"{"name":"cotrex_build_summary","arguments":{"command":"cargo build","exit_code":-1,"stderr":"boom"}}"#,
        true,
    ) {
        ToolCall::BuildSummary { command, exit_code, stdout, stderr, prompt } => {
            assert_eq!(command, "cargo build");
            assert_eq!(exit_code, -1);
            assert_eq!(stdout, "");
            assert_eq!(stderr, "boom");
            assert_eq!(prompt, "Summarize this build output concisely.");
        }
        _ => panic!("expected BuildSummary"),
    }
}

#[test]
fn graph_tools_check_their_arguments() {
    match route_tool(r#"{"name":"graphify","arguments":{"question":"q","dfs":true,"budget":50}}"#, false) {
        ToolCall::GraphQuery { question, dfs, budget } => {
            assert_eq!(question, "q");
            assert!(dfs);
            assert_eq!(budget, 50);
        }
        _ => panic!("expected GraphQuery"),
    }
    match route_tool(r#"{"name":"graphify","arguments":{"question":"q"}}"#, false) {
        ToolCall::GraphQuery { budget, dfs, .. } => {
            assert_eq!(budget, 2000);
            assert!(!dfs);
        }
        _ => panic!("expected GraphQuery"),
    }
    match route_tool(r#"{"name":"graphify_export","arguments":{"format":"pdf"}}"#, false) {
        ToolCall::Refused(m) => {
            assert_eq!(m, "unknown export format: pdf. Supported: svg, graphml, neo4j")
        }
        _ => panic!("expected a refusal"),
    }
    match route_tool(r#"{"name":"graphify_export","arguments":{"format":"svg"}}"#, false) {
        ToolCall::GraphExport { format } => assert_eq!(format, ExportFormat::Svg),
        _ => panic!("expected GraphExport"),
    }
    match route_tool(
        r#"{"name":"graphify_save_result","arguments":{"question":"q","answer":"a","nodes":["x",1,"y"]}}"#,
        false,
    ) {
        ToolCall::GraphSave { result_type, nodes, .. } => {
            assert_eq!(result_type, "query");
            assert_eq!(nodes, vec!["x".to_string(), "y".to_string()]);
        }
        _ => panic!("expected GraphSave"),
    }
}

#[test]
fn tool_results_are_json() {
    let ok: serde_json::Value =
        serde_json::from_str(&tool_outcome(&Ok("line \"1\"\n".to_string()))).unwrap();
    assert_eq!(ok["isError"], false);
    assert_eq!(ok["content"][0]["text"], "line \"1\"\n");
    let saved: serde_json::Value =
        serde_json::from_str(&set_agent_result("codex", &Ok(()))).unwrap();
    assert_eq!(
        saved["content"][0]["text"],
        "Agent set to 'codex'. Installing the graphify skill for it in the background."
    );
    let run = run_result("cargo test", "ok\n", "footer", 1, true, false);
    let v: serde_json::Value = serde_json::from_str(&run).unwrap();
    assert_eq!(v.to_string(), run);
    assert_eq!(v["isError"], true);
    assert_eq!(v["usage"]["input_bytes"], 10);
    assert_eq!(v["usage"]["tokens_in"], 2);
    assert_eq!(v["usage"]["status"], "failed");
    assert_eq!(v["content"].as_array().unwrap().len(), 3);
}
