use cotrex::agent::prompt::category_header;
use cotrex::ai_runtime::{
    check_supported, from_runtime, request_kind, response_to_result, AiCapabilityIntent,
    AiRuntimeError, AiStatus, CapabilityErrorKind, CapabilityKind, CapabilityResponse,
    RuntimeErrorKind,
};
use cotrex::mcp::usage_result;

/// A provider as a test writes one: what it answers for a request.
type Provider = fn(&AiCapabilityIntent) -> Result<CapabilityResponse, RuntimeErrorKind>;

/// The client's path for a request: refuse a capability the provider does not offer, then map
/// the provider's error.
fn execute(
    supported: &Vec<CapabilityKind>,
    provider: Provider,
    request: AiCapabilityIntent,
) -> Result<CapabilityResponse, AiRuntimeError> {
    check_supported(supported, request_kind(&request))?;
    provider(&request).map_err(from_runtime)
}

fn test_provider(request: &AiCapabilityIntent) -> Result<CapabilityResponse, RuntimeErrorKind> {
    match request {
        AiCapabilityIntent::BuildSummary { exit_code, .. } => Ok(CapabilityResponse::BuildSummary {
            success: *exit_code == 0,
            summary: format!("exit {exit_code}"),
            recommendation: None,
        }),
        AiCapabilityIntent::ExplainRust { question, .. } => {
            Ok(CapabilityResponse::ExplainRust { explanation: format!("About: {question}") })
        }
    }
}

fn failing_provider(_: &AiCapabilityIntent) -> Result<CapabilityResponse, RuntimeErrorKind> {
    Err(RuntimeErrorKind::Provider)
}

fn both() -> Vec<CapabilityKind> {
    vec![CapabilityKind::BuildSummary, CapabilityKind::ExplainRust]
}

fn build(exit_code: i32, stderr: &str) -> AiCapabilityIntent {
    AiCapabilityIntent::BuildSummary {
        command: "cargo build".into(),
        stdout: String::new(),
        stderr: stderr.into(),
        exit_code,
    }
}

fn explain() -> AiCapabilityIntent {
    AiCapabilityIntent::ExplainRust { source: "let x = 1;".into(), question: "what is x?".into() }
}

#[test]
fn test_build_summary_success() {
    let response = execute(&both(), test_provider, build(0, "")).unwrap();
    let result = response_to_result(response).unwrap();
    assert_eq!(result.status, AiStatus::Success);
    assert!(result.summary.contains("succeeded"));
}

#[test]
fn test_build_summary_failure() {
    let response = execute(&both(), test_provider, build(1, "error")).unwrap();
    let result = response_to_result(response).unwrap();
    assert_eq!(result.status, AiStatus::Failed);
    assert!(result.summary.contains("failed"));
}

#[test]
fn test_explain_rust_success() {
    let response = execute(&both(), test_provider, explain()).unwrap();
    let result = response_to_result(response).unwrap();
    assert_eq!(result.status, AiStatus::Success);
    assert!(!result.summary.is_empty());
}

#[test]
fn test_unsupported_capability() {
    let result = execute(&vec![CapabilityKind::BuildSummary], test_provider, explain());
    assert!(result.is_err());
    let err_str = result.unwrap_err().message();
    assert!(err_str.contains("Unsupported AI capability"));
}

#[test]
fn test_provider_failure() {
    let result = execute(&vec![CapabilityKind::BuildSummary], failing_provider, build(1, ""));
    assert!(result.is_err());
    let err_str = result.unwrap_err().message();
    assert!(!err_str.contains("simulated failure"));
    assert!(err_str.contains("provider failure"));
}

#[test]
fn test_error_mapping_from_runtime_error() {
    let ai_err = from_runtime(RuntimeErrorKind::Provider);
    assert!(matches!(ai_err, AiRuntimeError::ProviderFailure));
    let display = ai_err.message();
    assert!(!display.contains("CUDA"));
    assert!(display.contains("provider failure"));
}

#[test]
fn refused_requests_and_invalid_responses_map() {
    assert!(matches!(
        from_runtime(RuntimeErrorKind::Capability(CapabilityErrorKind::InvalidRequest)),
        AiRuntimeError::ProviderFailure
    ));
    assert_eq!(
        from_runtime(RuntimeErrorKind::InvalidResponse).message(),
        "Invalid response from AI provider"
    );
    assert_eq!(
        check_supported(&vec![], CapabilityKind::ExplainRust).unwrap_err().message(),
        "Unsupported AI capability: ExplainRust"
    );
}

#[test]
fn build_summary_carries_its_recommendation() {
    let r = response_to_result(CapabilityResponse::BuildSummary {
        success: false,
        summary: "2 errors".into(),
        recommendation: Some("fix the imports".into()),
    })
    .unwrap();
    assert_eq!(r.summary, "Build failed: 2 errors");
    assert_eq!(r.details.as_deref(), Some("fix the imports"));
}

#[test]
fn category_headers_for_the_agent() {
    assert!(category_header("").unwrap().contains("Cotrex"));
    assert!(category_header("theme").is_ok());
    assert_eq!(category_header("nope").unwrap_err(), "unknown category 'nope'");
}

#[test]
fn usage_result_puts_figures_on_their_own_line() {
    let v: serde_json::Value = serde_json::from_str(&usage_result("3 runs", "{\"runs\":3}")).unwrap();
    assert_eq!(v["isError"], false);
    assert_eq!(v["content"][0]["text"], "3 runs");
    assert_eq!(v["content"][1]["text"], "\n{\"runs\":3}");
}
