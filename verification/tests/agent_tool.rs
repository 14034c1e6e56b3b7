use cotrex::agent::tool::{
    builtins, compile_pattern, edit_content, graph_only_report, listing, report_readable,
    resolve, resolve_path, search_file_content, truncate_report, validate_args, write_report,
    OutputLimiter, Tool,
};
use cotrex::json::parse;

#[test]
fn validate_args_valid() {
    let args = parse(r#"{"path": "foo.rs"}"#).unwrap();
    assert!(validate_args(Tool::Read, &args).is_ok());
}

#[test]
fn validate_args_missing_required() {
    let args = parse("{}").unwrap();
    let err = validate_args(Tool::Read, &args).unwrap_err();
    assert!(err.contains("missing required field 'path'"));
}

#[test]
fn validate_args_wrong_type() {
    let args = parse(r#"{"path": 123}"#).unwrap();
    let err = validate_args(Tool::Read, &args).unwrap_err();
    assert!(err.contains("must be string, got number"));
}

#[test]
fn validate_args_not_object() {
    let args = parse(r#""just a string""#).unwrap();
    let err = validate_args(Tool::Read, &args).unwrap_err();
    assert!(err.contains("must be a JSON object"));
}

#[test]
fn resolve_finds_builtin() {
    assert!(resolve("read").is_some());
    assert!(resolve("write").is_some());
    assert!(resolve("edit").is_some());
    assert!(resolve("glob").is_some());
    assert!(resolve("grep").is_some());
    assert!(resolve("graphify_report").is_some());
    assert!(resolve("writee").is_none());
    assert!(resolve("unknown").is_none());
}

#[test]
fn resolve_gives_back_each_builtin_by_name() {
    for t in builtins() {
        assert_eq!(resolve(t.name()), Some(t));
    }
}

#[test]
fn output_limiter_truncates() {
    let limiter = OutputLimiter { max_lines: 2 };
    let output = "line1\nline2\nline3\nline4\n";
    let result = limiter.truncate(output);
    let lines: Vec<&str> = result.lines().collect();
    assert_eq!(lines.len(), 3);
    assert!(lines[2].contains("2 more lines"));
}

#[test]
fn output_limiter_no_truncation() {
    let limiter = OutputLimiter { max_lines: 10 };
    let output = "line1\nline2\n";
    let result = limiter.truncate(output);
    assert_eq!(result, "line1\nline2\n");
}

#[test]
fn unknown_tool_does_not_reach_executor() {
    assert!(resolve("writee").is_none());
    assert!(resolve("").is_none());
    assert!(resolve("rm").is_none());
    assert!(resolve("exec").is_none());
}

#[test]
fn edit_replaces_a_unique_match() {
    let r = edit_content("fn main() {}", "fn main() {}", "fn main() { println!(\"hi\"); }", "test.rs");
    assert_eq!(r.unwrap(), "fn main() { println!(\"hi\"); }");
    let r = edit_content("let a = 1; let b = 2;", "b = 2", "b = 3", "x.rs");
    assert_eq!(r.unwrap(), "let a = 1; let b = 3;");
}

#[test]
fn edit_refuses_missing_and_ambiguous_matches() {
    assert_eq!(
        edit_content("abc", "zzz", "y", "f.txt").unwrap_err(),
        "'zzz' not found in f.txt"
    );
    assert_eq!(
        edit_content("aXbXc", "X", "Y", "f.txt").unwrap_err(),
        "'X' matches 2 times in f.txt — provide more context"
    );
}

#[test]
fn write_report_counts_utf8_bytes() {
    assert_eq!(write_report("hello", "test.txt"), "wrote 5 bytes to test.txt");
    assert_eq!(write_report("é", "a"), "wrote 2 bytes to a");
}

#[test]
fn listing_sorts_or_says_none() {
    assert_eq!(listing(vec![], "no matches"), "no matches");
    assert_eq!(
        listing(vec!["src/b.rs".to_string(), "src/a.rs".to_string()], "none"),
        "src/a.rs\nsrc/b.rs"
    );
}

#[test]
fn graph_only_report_names_the_size() {
    assert_eq!(
        graph_only_report(42),
        "graphify-out/graph.json exists (42 bytes). Run 'graphify update .' to regenerate GRAPH_REPORT.md."
    );
}

#[test]
fn resolve_path_joins_relative_paths() {
    assert_eq!(resolve_path("/work", "src/main.rs"), "/work/src/main.rs");
    assert_eq!(resolve_path("/work/", "a"), "/work/a");
    assert_eq!(resolve_path("/work", "/etc/hosts"), "/etc/hosts");
}

#[test]
fn grep_reports_matching_lines() {
    let p = compile_pattern("fn main").unwrap();
    let mut results = Vec::new();
    search_file_content("src/main.rs", "use x;\nfn main() {}\n", &p, &mut results);
    assert_eq!(results, vec!["src/main.rs:2:fn main() {}".to_string()]);
    let mut none = Vec::new();
    search_file_content("a.rs", "nothing here", &p, &mut none);
    assert!(none.is_empty());
}

#[test]
fn grep_refuses_an_invalid_regex() {
    match compile_pattern("(unclosed") {
        Err(e) => assert!(e.starts_with("invalid regex: ")),
        Ok(_) => panic!("expected an error"),
    }
}

#[test]
fn report_keeps_key_sections() {
    let report = "# Graph\n## Community Hubs\n- [[a]]\n- [[b]]\n## Summary\n10 nodes\n### Community 1 - \"core\"\nCohesion: 0.5\nNodes (a, b, c, d, e, f, g)\n- a\n## End\n";
    assert!(report_readable(report));
    let out = truncate_report(report, 100);
    assert_eq!(
        out,
        "# Graph\n## Summary\n10 nodes\n### Community 1 - \"core\"\nCohesion: 0.5\nNodes (a, b, c, d, e (+2 more)\n## End"
    );
    let short = truncate_report(report, 2);
    assert_eq!(short, "# Graph\n## Summary\n… (report truncated)");
}
