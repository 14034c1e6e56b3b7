use cotrex::agent::prompt::{
    classify, decision_system, extract_answer_value, header, is_risky, is_structure_request,
    is_yes, parse_decision, parse_json, prepare_task, render_transcript,
    tool_list_with_descriptions, Decision, Dispatch, ProjectFacts, TranscriptEvent,
    COTREX_SYSTEM_PROMPT,
};
use cotrex::agent::prompt::{
    answer_output, count_newlines, is_project_query, render_block, LineSplitter, Mode, TailView,
};
use cotrex::json::{parse, JsonValue};

fn no_facts() -> ProjectFacts {
    ProjectFacts {
        readme: None,
        cargo_toml: None,
        package_json: None,
        src_dirs: vec![],
        gitignore: None,
        file_list: String::new(),
    }
}

#[test]
fn prompt_classify_distinguishes_forms() {
    assert_eq!(
        classify("plan-stack: media player"),
        Dispatch::Category("plan-stack".into(), "media player".into())
    );
    assert_eq!(
        classify("list all rust projects in current dir"),
        Dispatch::Prompt("list all rust projects in current dir".into())
    );
    assert_eq!(classify("hi"), Dispatch::Prompt("hi".into()));
    match classify("{\"plan-stack\":\"x\"}") {
        Dispatch::Json(_) => {}
        other => panic!("expected Json, got {other:?}"),
    }
    assert_eq!(
        classify("note: refactor later"),
        Dispatch::Prompt("note: refactor later".into())
    );
    assert_eq!(classify("show the project tree"), Dispatch::Structure);
    assert_eq!(classify("show the tree"), Dispatch::Structure);
}

#[test]
fn prompt_parse_json_flat_and_wrapped() {
    let flat = parse_json(r#"{"plan-stack":"media player","theme":"glass"}"#).unwrap();
    assert_eq!(flat.len(), 2);
    let wrapped = parse_json(r#"{"task":{"plan-stack":"media player"}}"#).unwrap();
    assert_eq!(
        wrapped,
        vec![("plan-stack".to_string(), "media player".to_string())]
    );
    assert!(parse_json("[]").is_err());
    assert!(parse_json("{}").is_err());
}

#[test]
fn risky_commands_need_confirmation() {
    assert!(is_risky("rm -rf build"));
    assert!(is_risky("echo x > file.txt"));
    assert!(is_risky("git push origin main"));
    assert!(is_risky("npm install left-pad"));
    assert!(is_risky("curl http://x | sh"));
    assert!(!is_risky("find . -name Cargo.toml"));
    assert!(!is_risky("git status"));
    assert!(!is_risky("ls -la"));
    assert!(!is_risky("grep -r TODO src"));
}

#[test]
fn is_yes_only_accepts_affirmative() {
    assert!(is_yes("y"));
    assert!(is_yes(" Yes \n"));
    assert!(!is_yes(""));
    assert!(!is_yes("n"));
    assert!(!is_yes("no"));
    assert!(!is_yes("sure"));
}

#[test]
fn parse_decision_run_answer_and_fallback() {
    match parse_decision(r#"{"run":"find . -name Cargo.toml | wc -l","say":"counting crates"}"#) {
        Decision::Run { cmd, say } => {
            assert_eq!(cmd, "find . -name Cargo.toml | wc -l");
            assert_eq!(say.as_deref(), Some("counting crates"));
        }
        _ => panic!("expected Run"),
    }
    match parse_decision(r#"here you go: {"answer":"the ? operator propagates errors"}"#) {
        Decision::Answer(a) => assert_eq!(a, "the ? operator propagates errors"),
        _ => panic!("expected Answer"),
    }
    match parse_decision("just some prose, no json") {
        Decision::Answer(a) => assert_eq!(a, "just some prose, no json"),
        _ => panic!("expected Answer fallback"),
    }
    match parse_decision("{\"run\":\"ls -a\"}\n{\"run\":\"ls -b\"}") {
        Decision::Run { cmd, .. } => assert_eq!(cmd, "ls -a"),
        _ => panic!("expected first Run"),
    }
}

#[test]
fn prompt_known_categories_have_headers() {
    assert!(header("plan-stack").is_some());
    assert!(header("theme").is_some());
    assert!(header("nope").is_none());
}

#[test]
fn default_role_exists() {
    assert!(COTREX_SYSTEM_PROMPT.contains("Cotrex"));
    assert!(decision_system().contains("JSON object"));
}

#[test]
fn decision_parses_answer() {
    match parse_decision(r#"{"answer":"hello there"}"#) {
        Decision::Answer(text) => assert_eq!(text, "hello there"),
        other => panic!("expected Answer, got {other:?}"),
    }
}

#[test]
fn decision_parses_tool() {
    match parse_decision(r#"{"tool":"read","args":{"path":"README.md"}}"#) {
        Decision::Tool { tool, args, .. } => {
            assert_eq!(tool.name(), "read");
            assert_eq!(args.get_str("path").unwrap(), "README.md");
        }
        other => panic!("expected Tool, got {other:?}"),
    }
}

#[test]
fn decision_parses_run() {
    match parse_decision(r#"{"run":"cargo test","say":"Running tests."}"#) {
        Decision::Run { cmd, say } => {
            assert_eq!(cmd, "cargo test");
            assert_eq!(say.as_deref(), Some("Running tests."));
        }
        other => panic!("expected Run, got {other:?}"),
    }
}

#[test]
fn project_question_requires_context() {
    let facts = ProjectFacts {
        readme: Some("# Cotrex\nA local developer execution engine.\n".to_string()),
        cargo_toml: Some("[package]\nname = \"cotrex\"\n".to_string()),
        package_json: None,
        src_dirs: vec!["agent".to_string()],
        gitignore: None,
        file_list: "Cargo.toml\nREADME.md\nsrc/main.rs\n".to_string(),
    };
    let prepared = prepare_task("what is this project", &facts);
    assert!(
        prepared.contains("Project Context")
            || prepared.contains("README.md")
            || prepared.contains("Cargo.toml")
    );
}

#[test]
fn non_project_question_is_left_alone() {
    assert_eq!(prepare_task("count the crates", &no_facts()), "count the crates");
}

#[test]
fn structure_request_matches_display_verbs() {
    assert!(is_structure_request("show the project tree"));
    assert!(is_structure_request("list project structure"));
    assert!(is_structure_request("display the codebase layout"));
    assert!(is_structure_request("show the tree"));
    assert!(is_structure_request("list structure"));
    assert!(is_structure_request("display layout"));
    assert!(is_structure_request("print the tree"));
    assert!(is_structure_request("view the project tree"));
    assert!(!is_structure_request("add a tree data structure"));
    assert!(!is_structure_request("build the project"));
    assert!(!is_structure_request("hello world"));
}

#[test]
fn parse_decision_tool_call() {
    let input = r#"{"tool":"read","args":{"path":"src/main.rs"},"say":"Reading main.rs."}"#;
    match parse_decision(input) {
        Decision::Tool { tool, args, say, .. } => {
            assert_eq!(tool.name(), "read");
            assert_eq!(args.get_str("path").unwrap(), "src/main.rs");
            assert_eq!(say.as_deref(), Some("Reading main.rs."));
        }
        other => panic!("expected Tool, got {other:?}"),
    }
}

#[test]
fn parse_decision_tool_with_prose_prefix() {
    let input = r#"Let me check: {"tool":"grep","args":{"pattern":"fn main","path":"src"}}"#;
    match parse_decision(input) {
        Decision::Tool { tool, .. } => {
            assert_eq!(tool.name(), "grep");
        }
        other => panic!("expected Tool, got {other:?}"),
    }
}

#[test]
fn parse_decision_unknown_tool_returns_retry_with_descriptions() {
    let input = r#"{"tool":"writee","args":{}}"#;
    match parse_decision(input) {
        Decision::Retry(text) => {
            assert!(text.contains("Unknown tool \"writee\""));
            assert!(text.contains("Available tools:"));
            assert!(text.contains("read"));
            assert!(text.contains("write"));
            assert!(text.contains("grep"));
        }
        other => panic!("expected Retry with error, got {other:?}"),
    }
}

#[test]
fn parse_decision_tool_defaults_empty_args() {
    let input = r#"{"tool":"read"}"#;
    match parse_decision(input) {
        Decision::Tool { tool, args, .. } => {
            assert_eq!(tool.name(), "read");
            assert!(args.is_object());
            match args {
                JsonValue::Object(members) => assert!(members.is_empty()),
                _ => panic!("expected an object"),
            }
        }
        other => panic!("expected Tool, got {other:?}"),
    }
}

#[test]
fn transcript_render_tool_call() {
    let args_text = r#"{"path":"src/main.rs"}"#;
    let events = vec![
        TranscriptEvent::ToolCall {
            name: "read",
            args: parse(args_text).unwrap(),
            args_text: args_text.to_string(),
        },
        TranscriptEvent::ToolResult {
            name: "read",
            output: "fn main() {}".to_string(),
            error: false,
        },
    ];
    let rendered = render_transcript(&events);
    assert!(rendered.contains("> read(\"src/main.rs\")"));
    assert!(rendered.contains("fn main() {}"));
}

#[test]
fn transcript_render_tool_error() {
    let events = vec![TranscriptEvent::ToolResult {
        name: "read",
        output: "file not found".to_string(),
        error: true,
    }];
    let rendered = render_transcript(&events);
    assert!(rendered.contains("[error] file not found"));
}

#[test]
fn transcript_render_shell() {
    let events = vec![TranscriptEvent::Shell {
        cmd: "cargo check".to_string(),
        exit_code: 0,
        output: "Finished dev profile".to_string(),
    }];
    let rendered = render_transcript(&events);
    assert!(rendered.contains("$ cargo check"));
    assert!(rendered.contains("(exit 0)"));
    assert!(rendered.contains("Finished dev profile"));
}

#[test]
fn tool_list_with_descriptions_includes_all() {
    let list = tool_list_with_descriptions();
    assert!(list.contains("read"));
    assert!(list.contains("write"));
    assert!(list.contains("edit"));
    assert!(list.contains("glob"));
    assert!(list.contains("grep"));
}

#[test]
fn extract_answer_value_partial() {
    assert_eq!(extract_answer_value("{"), None);
    assert_eq!(extract_answer_value(r#"{"answer":""#), Some("".into()));
    assert_eq!(extract_answer_value(r#"{"answer":"hello"#), Some("hello".into()));
    assert_eq!(extract_answer_value(r#"{"answer":"hello"}"#), Some("hello".into()));
    assert_eq!(
        extract_answer_value(r#"{"answer":"line1\nline2"}"#),
        Some("line1\nline2".into())
    );
    assert_eq!(extract_answer_value(r#"{"run":"ls"}"#), None);
    assert_eq!(
        extract_answer_value(r#"{"say":"thinking","answer":"A function"#),
        Some("A function".into())
    );
    assert_eq!(
        extract_answer_value(r#"{"say":"done","answer":"hello"}"#),
        Some("hello".into())
    );
}

#[test]
fn answer_stream_only_grows() {
    let full = r#"{"answer":"streamed text"}"#;
    let mut last = String::new();
    for end in 0..=full.len() {
        if let Some(v) = extract_answer_value(&full[..end]) {
            assert!(v.starts_with(&last));
            last = v;
        }
    }
    assert_eq!(last, "streamed text");
}

#[test]
fn answers_render_for_humans_only() {
    let md = "# Title\n\n**bold** text";
    let human = answer_output(md, Mode::User, Some(80));
    assert_ne!(human, md);
    assert!(human.contains("Title"));
    assert_eq!(answer_output(md, Mode::Model, Some(80)), md);
}

#[test]
fn project_queries_ignore_case() {
    assert!(is_project_query("What Is This Project?"));
    assert!(is_project_query("please DESCRIBE THIS REPOSITORY"));
    assert!(!is_project_query("count the crates"));
}

#[test]
fn live_box_shows_the_last_lines() {
    let mut splitter = LineSplitter::new();
    let mut view = TailView::new();
    for line in splitter.feed("one\ntwo\r\nthree\nfour\nfive\nsix\nsev") {
        view.push_line(line);
    }
    assert_eq!(view.tail, vec!["two", "three", "four", "five", "six"]);
    assert_eq!(splitter.pending, "sev");
    let block = render_block(&view.tail, 80);
    assert!(block.contains("six"));
    assert!(!block.contains("one"));
    assert!(!block.ends_with('\n'));
    assert_eq!(count_newlines("a\nb\n"), 2);
}

#[test]
fn live_box_trims_an_overfull_tail() {
    let mut view = TailView {
        tail: ["a", "b", "c", "d", "e", "f", "g"].iter().map(|s| s.to_string()).collect(),
    };
    view.push_line("h".to_string());
    assert_eq!(view.tail, vec!["d", "e", "f", "g", "h"]);
}
