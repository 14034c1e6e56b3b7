use cotrex::agent::qualify::CapabilityStatus;
use cotrex::commands::checks::{check_line, config_dir_check, models_dir_check, rtk_check};
use cotrex::commands::model::{
    check_magic, check_size, download_total, format_size, installed_names, models_dir, parse_u64,
};
use cotrex::config::Config;
use cotrex::install_agent::{agent_id, supported_agent_names};
use cotrex::json::JsonValue;
use cotrex::kernel::git::{
    count_listed, parse_branch, parse_head, parse_porcelain, porcelain_readable_exec, snapshot,
    GitSnapshot,
};
use cotrex::normalize::{classify as severity, normalize, Channel, Severity};
use cotrex::plan::{heuristic_plan, llm_plan_span, plan_from_fields, plan_span_readable};
use cotrex::prompt::{as_value, classify, header, parse_json, Dispatch};

// ── categories and prompts ──────────────────────────────────────────────────

#[test]
fn classify_distinguishes_forms() {
    assert_eq!(
        classify("plan-stack: media player"),
        Dispatch::Category("plan-stack".into(), "media player".into())
    );
    assert_eq!(
        classify("find python lib for web scrap"),
        Dispatch::Prompt("find python lib for web scrap".into())
    );
    assert_eq!(classify("ls"), Dispatch::Command("ls".into()));
    assert_eq!(classify("git status"), Dispatch::Prompt("git status".into()));
    match classify("{\"plan-stack\":\"x\"}") {
        Dispatch::Json(_) => {}
        other => panic!("expected Json, got {other:?}"),
    }
    assert_eq!(
        classify("note: refactor later"),
        Dispatch::Prompt("note: refactor later".into())
    );
}

#[test]
fn parse_json_flat_and_wrapped() {
    let flat = parse_json(r#"{"plan-stack":"media player","theme":"glass"}"#).unwrap();
    assert_eq!(flat.len(), 2);
    let wrapped = parse_json(r#"{"task":{"plan-stack":"media player"}}"#).unwrap();
    assert_eq!(wrapped, vec![("plan-stack".to_string(), "media player".to_string())]);
    assert!(parse_json("[]").is_err());
    assert!(parse_json("{}").is_err());
}

#[test]
fn as_value_parses_json_or_keeps_string() {
    assert!(as_value(r#"here: {"stack":"rust","reason":"fast"}"#).is_object());
    match as_value("just text") {
        JsonValue::Str(s) => assert_eq!(s, "just text"),
        other => panic!("expected a string, got {other:?}"),
    }
}

#[test]
fn known_categories_have_headers() {
    assert!(header("plan-stack").is_some());
    assert!(header("theme").is_some());
    assert!(header("nope").is_none());
}

// ── output normalization ────────────────────────────────────────────────────

#[test]
fn severity_classifier() {
    assert_eq!(severity("error: cannot find crate serde"), Severity::Error);
    assert_eq!(severity("test result: FAILED"), Severity::Error);
    assert_eq!(severity("warning: unused import"), Severity::Warning);
    assert_eq!(severity("Compiling tokex v0.1.0"), Severity::Info);
}

#[test]
fn normalize_tags_channel() {
    let e = normalize(Channel::Stderr, "panic at the disco".into());
    assert_eq!(e.channel, "stderr");
    assert_eq!(e.severity, Severity::Error);
}

#[test]
fn severity_ignores_case() {
    assert_eq!(severity("ERROR here"), severity("error here"));
    assert_eq!(severity("Warning: x"), Severity::Warning);
}

// ── stack plans ─────────────────────────────────────────────────────────────

#[test]
fn known_keyword_picks_stack() {
    assert_eq!(heuristic_plan("build a music player app").stack, "tauri");
    assert_eq!(heuristic_plan("portfolio site").stack, "next.js");
    assert_eq!(heuristic_plan("e-commerce site").stack, "next.js");
    assert_eq!(heuristic_plan("a fast CLI tool").stack, "rust");
    assert_eq!(heuristic_plan("scrape some data").stack, "python");
}

#[test]
fn unknown_defaults_to_python() {
    assert_eq!(heuristic_plan("zzzqqq").stack, "python");
}

#[test]
fn parses_fenced_llm_plan() {
    let reply = "```json\n{\"stack\":\"next.js\",\"reason\":\"good web default\"}\n```";
    assert!(plan_span_readable(reply));
    let span = llm_plan_span(reply).unwrap();
    let v: serde_json::Value = serde_json::from_str(&span).unwrap();
    let fields = (
        v["stack"].as_str().unwrap().to_string(),
        v["reason"].as_str().unwrap().to_string(),
    );
    let p = plan_from_fields("task", Ok(fields)).unwrap();
    assert_eq!(p.stack, "next.js");
    assert_eq!(p.reason, "good web default");
}

// ── agents and config ───────────────────────────────────────────────────────

#[test]
fn supported_agents_list() {
    assert!(supported_agent_names().iter().any(|n| *n == "opencode"));
    assert!(supported_agent_names().iter().any(|n| *n == "codex"));
}

#[test]
fn unsupported_agent_errors() {
    assert!(agent_id("nonexistent").is_err());
    assert_eq!(agent_id("codex").unwrap(), "codex");
}

#[test]
fn defaults_are_safe() {
    let c = Config::default();
    assert_eq!(c.compression, "heuristic");
}

#[test]
fn capability_status_display() {
    assert_eq!(CapabilityStatus::Passed.as_str(), "passed");
    assert_eq!(CapabilityStatus::Failed.as_str(), "failed");
    assert_eq!(CapabilityStatus::Unknown.as_str(), "unknown");
}

// ── git snapshots ───────────────────────────────────────────────────────────

#[test]
fn default_snapshot_is_empty() {
    let snap = GitSnapshot::empty();
    assert!(snap.branch.is_none());
    assert!(!snap.working_tree_dirty);
    assert!(snap.modified_files.is_empty());
    assert_eq!(snap.tracked_files, 0);
    assert!(snap.context_hash.is_none());
}

#[test]
fn parse_branch_from_rev_parse_output() {
    assert_eq!(parse_branch("main\n").unwrap(), "main");
}

#[test]
fn parse_branch_with_slash() {
    assert_eq!(
        parse_branch("feature/runtime-refactor\n").unwrap(),
        "feature/runtime-refactor"
    );
}

#[test]
fn parse_detached_head_as_none() {
    assert!(parse_branch("a1b2c3d4e5f6\n").is_none());
}

#[test]
fn parse_clean_porcelain_status() {
    let raw = "";
    assert!(porcelain_readable_exec(raw));
    let modified_files = parse_porcelain(raw);
    let tracked_files = count_listed(raw);
    assert!(modified_files.is_empty());
    assert_eq!(tracked_files, 0);
    assert!(!(!modified_files.is_empty()));
}

#[test]
fn parse_dirty_porcelain_status() {
    let raw = " M src/main.rs\nMM src/lib.rs\n M src/foo.rs\n";
    assert!(porcelain_readable_exec(raw));
    let modified_files = parse_porcelain(raw);
    let tracked_files = count_listed(raw);
    assert_eq!(modified_files.len(), 3);
    assert!(modified_files.contains(&"src/main.rs".to_string()));
    assert!(modified_files.contains(&"src/lib.rs".to_string()));
    assert!(modified_files.contains(&"src/foo.rs".to_string()));
    assert_eq!(tracked_files, 3);
}

#[test]
fn parse_untracked_files_not_counted_as_modified() {
    let raw = "?? src/new_file.rs\n";
    assert!(porcelain_readable_exec(raw));
    let tracked_files = count_listed(raw);
    assert_eq!(tracked_files, 1);
    assert_eq!(parse_porcelain(raw), vec!["src/new_file.rs".to_string()]);
}

#[test]
fn snapshot_from_command_outputs() {
    let snap = snapshot(
        Some("main\n"),
        Some(" M src/main.rs\n"),
        Some("Cargo.toml\nsrc/main.rs\n"),
        Some("0123abcd\n"),
    );
    assert_eq!(snap.branch.as_deref(), Some("main"));
    assert_eq!(snap.modified_files, vec!["src/main.rs".to_string()]);
    assert!(snap.working_tree_dirty);
    assert_eq!(snap.status.as_deref(), Some("dirty"));
    assert_eq!(snap.tracked_files, 2);
    assert_eq!(snap.context_hash.as_deref(), Some("0123abcd"));
    assert_eq!(parse_head("0123abcd\n").as_deref(), Some("0123abcd"));
    let none = snapshot(None, None, None, None);
    assert!(none.branch.is_none());
    assert_eq!(none.tracked_files, 0);
    assert!(!none.working_tree_dirty);
}

// ── models ──────────────────────────────────────────────────────────────────

fn float_size(bytes: u64) -> String {
    const KB: u64 = 1024;
    const MB: u64 = 1024 * KB;
    const GB: u64 = 1024 * MB;
    if bytes >= GB {
        format!("{:.1} GB", bytes as f64 / GB as f64)
    } else if bytes >= MB {
        format!("{:.0} MB", bytes as f64 / MB as f64)
    } else if bytes >= KB {
        format!("{:.0} KB", bytes as f64 / KB as f64)
    } else {
        format!("{bytes} B")
    }
}

#[test]
fn format_size_exact_values() {
    assert_eq!(format_size(0), "0 B");
    assert_eq!(format_size(1023), "1023 B");
    assert_eq!(format_size(1024), "1 KB");
    assert_eq!(format_size(1536), "2 KB");
    assert_eq!(format_size(2560), "2 KB");
    assert_eq!(format_size(5 * 1024 * 1024), "5 MB");
    assert_eq!(format_size(4_920_000_000), "4.6 GB");
}

#[test]
fn format_size_agrees_with_float_formatting() {
    let kb = 1024u64;
    let mb = kb * kb;
    let gb = mb * kb;
    let mut samples: Vec<u64> = vec![0, 1, 512, 1023, 1024, 1535, 1536, 1537, 2559, 2560, 2561];
    for k in 1..4000u64 {
        samples.push(k * 512);
        samples.push(k * mb / 2);
        samples.push(k * mb / 2 + 1);
        samples.push(k * gb / 20);
        samples.push(k * gb / 20 + 1);
        samples.push(k * gb / 20 - 1);
        samples.push(k * 1_234_567);
        samples.push(k * 987_654_321);
    }
    samples.push(u64::MAX);
    samples.push(u64::MAX / 3);
    for b in samples {
        assert_eq!(format_size(b), float_size(b), "bytes = {b}");
    }
}

#[test]
fn models_dir_prefers_cotrex_home() {
    assert_eq!(models_dir(Some("/opt/cx"), Some("/home/u"), None).unwrap(), "/opt/cx/models");
    assert!(models_dir(None, None, None).is_err());
}

#[test]
fn installed_names_are_sorted_stems() {
    let names = vec![
        "qwen3-8b.gguf".to_string(),
        "notes.txt".to_string(),
        "llama.gguf".to_string(),
    ];
    assert_eq!(
        installed_names(&names),
        vec!["llama".to_string(), "qwen3-8b".to_string()]
    );
}

#[test]
fn download_checks() {
    assert_eq!(download_total(10, Some("99")), 10);
    assert_eq!(download_total(0, Some("99")), 99);
    assert_eq!(download_total(0, Some("x")), 0);
    assert_eq!(parse_u64("+42"), Some(42));
    assert_eq!(parse_u64("18446744073709551616"), None);
    assert!(check_magic(*b"GGUF").is_ok());
    assert_eq!(
        check_magic(*b"ABCD").unwrap_err(),
        "not a valid GGUF file: expected GGUF, got [65, 66, 67, 68]"
    );
    assert!(check_size(0, 5).is_ok());
    assert_eq!(check_size(4, 5).unwrap_err(), "size mismatch: expected 4 bytes, got 5");
}

// ── system checks ───────────────────────────────────────────────────────────

#[test]
fn system_checks_report() {
    let c = config_dir_check(&Some(("/home/u/.config/cotrex".to_string(), false)));
    assert!(c.ok);
    assert_eq!(c.message, "created /home/u/.config/cotrex");
    assert_eq!(check_line(&c), "  ✓ Config directory: created /home/u/.config/cotrex");
    let c = config_dir_check(&None);
    assert!(!c.ok);
    assert_eq!(check_line(&c), "  ✗ Config directory: cannot determine config directory");
    let m = models_dir_check(&Err("no home".to_string()));
    assert!(!m.ok);
    assert_eq!(m.message, "no home");
    let r = rtk_check(&Some(("/data/cotrex/rtk".to_string(), true)));
    assert_eq!(r.message, "detected at /data/cotrex/rtk");
    let r = rtk_check(&None);
    assert!(r.ok);
    assert_eq!(r.message, "will be downloaded on first use");
}

#[test]
fn non_git_directory_returns_defaults() {
    let snap = snapshot(None, None, None, None);
    assert!(snap.branch.is_none());
    assert!(!snap.working_tree_dirty);
    assert!(snap.modified_files.is_empty());
    assert_eq!(snap.tracked_files, 0);
    assert!(snap.context_hash.is_none());
    assert!(snap.status.is_none());
}
