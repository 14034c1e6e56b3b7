use cotrex::normalize::Severity;
use cotrex::run::{
    check_command, command_words, count_error, echo_line, result_event, rtk_args, summary_line,
    Options,
};

fn opts(raw: bool, ultra_compact: bool) -> Options {
    Options { raw, ultra_compact, footer: true, quiet: false }
}

#[test]
fn raw_runs_go_through_run_c() {
    let args = rtk_args("  cargo test  ", vec!["ignored".to_string()], &opts(true, false));
    assert_eq!(args, vec!["run", "-c", "cargo test"]);
}

#[test]
fn ultra_compact_goes_before_the_subcommand() {
    let args = rtk_args("git status", vec!["git".into(), "status".into()], &opts(false, true));
    assert_eq!(args, vec!["--ultra-compact", "git", "status"]);
    assert_eq!(echo_line(&args), "› rtk --ultra-compact git status");
}

#[test]
fn result_event_matches_the_serialized_struct() {
    assert_eq!(result_event(0), r#"{"type":"result","status":"ok","code":0}"#);
    assert_eq!(result_event(-1), r#"{"type":"result","status":"failed","code":-1}"#);
    assert_eq!(summary_line(2, 3), "‹ failed (exit 2, 3 error line(s))");
    assert_eq!(summary_line(0, 0), "‹ ok (exit 0, 0 error line(s))");
}

#[test]
fn command_lines_split_into_words() {
    assert_eq!(command_words("  git  status\t--short "), vec!["git", "status", "--short"]);
    assert!(command_words(" \n ").is_empty());
    assert_eq!(check_command("   ").unwrap_err(), "empty command");
    assert!(check_command(" ls ").is_ok());
    assert_eq!(count_error(2, Severity::Error), 3);
    assert_eq!(count_error(2, Severity::Warning), 2);
}
