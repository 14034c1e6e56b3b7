//! The presentation side of AI capabilities: what the agent asks for, the results it shows, the
//! errors it reports (never a provider's internals), and how a provider's responses and
//! errors map onto them.
use vstd::prelude::*;

use crate::agent::prompt::{copy_str, opt_view};
use crate::text::push_str;

verus! {

/// What the agent wants an AI capability to do.
#[derive(Debug, Clone)]
pub enum AiCapabilityIntent {
    /// Summarize build or test output.
    BuildSummary { command: String, stdout: String, stderr: String, exit_code: i32 },
    /// Explain Rust code or answer a question about it.
    ExplainRust { source: String, question: String },
}

/// Whether a result reports success.
#[derive(Debug, Clone, Copy, PartialEq, Eq)]
pub enum AiStatus {
    Success,
    Failed,
}

/// A result as the agent presents it.
#[derive(Debug, Clone)]
pub struct AiResult {
    pub status: AiStatus,
    pub summary: String,
    pub details: Option<String>,
}

impl AiResult {
    /// A successful result with no details.
    pub fn success(summary: String) -> (r: AiResult)
        ensures
            r.status == AiStatus::Success,
            r.summary@ == summary@,
            r.details is None,
    {
        AiResult { status: AiStatus::Success, summary, details: None }
    }

    /// A failed result with no details.
    pub fn failed(summary: String) -> (r: AiResult)
        ensures
            r.status == AiStatus::Failed,
            r.summary@ == summary@,
            r.details is None,
    {
        AiResult { status: AiStatus::Failed, summary, details: None }
    }

    /// A result with the given status and no details.
    pub fn new(status: AiStatus, summary: String) -> (r: AiResult)
        ensures
            r.status == status,
            r.summary@ == summary@,
            r.details is None,
    {
        AiResult { status, summary, details: None }
    }

    /// The same result with details.
    pub fn with_details(self, details: String) -> (r: AiResult)
        ensures
            r.status == self.status,
            r.summary@ == self.summary@,
            opt_view(r.details) == Some(details@),
    {
        AiResult { status: self.status, summary: self.summary, details: Some(details) }
    }
}

/// The errors the agent reports.
#[derive(Debug)]
pub enum AiRuntimeError {
    /// The provider failed to run the capability.
    ProviderFailure,
    /// The response was not of the expected kind.
    InvalidResponse,
    /// The provider does not offer the capability.
    UnsupportedCapability(String),
}

pub open spec fn error_message(e: AiRuntimeError) -> Seq<char> {
    match e {
        AiRuntimeError::ProviderFailure => "AI capability unavailable: provider failure"@,
        AiRuntimeError::InvalidResponse => "Invalid response from AI provider"@,
        AiRuntimeError::UnsupportedCapability(c) => "Unsupported AI capability: "@ + c@,
    }
}

impl AiRuntimeError {
    /// The error as it is shown.
    pub fn message(&self) -> (r: String)
        ensures
            r@ == error_message(*self),
    {
        match self {
            AiRuntimeError::ProviderFailure => copy_str("AI capability unavailable: provider failure"),
            AiRuntimeError::InvalidResponse => copy_str("Invalid response from AI provider"),
            AiRuntimeError::UnsupportedCapability(c) => {
                let mut m = copy_str("Unsupported AI capability: ");
                push_str(&mut m, c.as_str());
                m
            },
        }
    }
}

/// The kinds of capability a provider may offer.
#[derive(Debug, Clone, Copy, PartialEq, Eq)]
pub enum CapabilityKind {
    BuildSummary,
    ExplainRust,
}

pub open spec fn kind_name(k: CapabilityKind) -> Seq<char> {
    match k {
        CapabilityKind::BuildSummary => "BuildSummary"@,
        CapabilityKind::ExplainRust => "ExplainRust"@,
    }
}

/// Why a request was refused.
#[derive(Debug, Clone, Copy, PartialEq, Eq)]
pub enum CapabilityErrorKind {
    InvalidRequest,
    UnsupportedProtocolVersion,
}

/// What went wrong in the runtime.
#[derive(Debug, Clone, Copy, PartialEq, Eq)]
pub enum RuntimeErrorKind {
    /// The provider failed.
    Provider,
    /// The response was not of the expected kind.
    InvalidResponse,
    /// The request was refused.
    Capability(CapabilityErrorKind),
}

/// The agent's error for a runtime error: a provider failure or a refused request shows as a
/// provider failure, an invalid response as an invalid response.
pub open spec fn from_runtime_spec(e: RuntimeErrorKind) -> AiRuntimeError {
    match e {
        RuntimeErrorKind::InvalidResponse => AiRuntimeError::InvalidResponse,
        _ => AiRuntimeError::ProviderFailure,
    }
}

/// The error that a runtime error is reported as.
pub fn from_runtime(e: RuntimeErrorKind) -> (r: AiRuntimeError)
    ensures
        r == from_runtime_spec(e),
{
    match e {
        RuntimeErrorKind::Provider => AiRuntimeError::ProviderFailure,
        RuntimeErrorKind::InvalidResponse => AiRuntimeError::InvalidResponse,
        RuntimeErrorKind::Capability(c) => match c {
            CapabilityErrorKind::InvalidRequest => AiRuntimeError::ProviderFailure,
            CapabilityErrorKind::UnsupportedProtocolVersion => AiRuntimeError::ProviderFailure,
        },
    }
}

/// A provider's response.
#[derive(Debug)]
pub enum CapabilityResponse {
    BuildSummary { success: bool, summary: String, recommendation: Option<String> },
    ExplainRust { explanation: String },
}

/// The agent's result for a provider's response: a build summary states whether the build
/// succeeded and carries the recommendation as details; an explanation is a success.
pub open spec fn response_spec(resp: CapabilityResponse) -> (AiStatus, Seq<char>, Option<Seq<char>>) {
    match resp {
        CapabilityResponse::BuildSummary { success, summary, recommendation } => (
            if success { AiStatus::Success } else { AiStatus::Failed },
            "Build "@ + (if success { "succeeded"@ } else { "failed"@ }) + ": "@ + summary@,
            opt_view(recommendation),
        ),
        CapabilityResponse::ExplainRust { explanation } => (AiStatus::Success, explanation@, None),
    }
}

/// Convert a provider's response into the agent's result (the conversion always succeeds).
pub fn response_to_result(response: CapabilityResponse) -> (r: Result<AiResult, AiRuntimeError>)
    ensures
        r matches Ok(res) && (res.status, res.summary@, opt_view(res.details)) == response_spec(response),
{
    match response {
        CapabilityResponse::BuildSummary { success, summary, recommendation } => {
            let status = if success { AiStatus::Success } else { AiStatus::Failed };
            let mut text = copy_str("Build ");
            push_str(&mut text, if success { "succeeded" } else { "failed" });
            push_str(&mut text, ": ");
            push_str(&mut text, summary.as_str());
            let mut result = AiResult::new(status, text);
            match recommendation {
                Some(rec) => {
                    result = result.with_details(rec);
                },
                None => {},
            }
            Ok(result)
        },
        CapabilityResponse::ExplainRust { explanation } => Ok(AiResult::success(explanation)),
    }
}

/// The capability a request asks for.
pub fn request_kind(intent: &AiCapabilityIntent) -> (r: CapabilityKind)
    ensures
        intent is BuildSummary ==> r == CapabilityKind::BuildSummary,
        intent is ExplainRust ==> r == CapabilityKind::ExplainRust,
{
    match intent {
        AiCapabilityIntent::BuildSummary { .. } => CapabilityKind::BuildSummary,
        AiCapabilityIntent::ExplainRust { .. } => CapabilityKind::ExplainRust,
    }
}

/// Whether a provider offering `supported` offers `kind`.
pub fn supports(supported: &Vec<CapabilityKind>, kind: CapabilityKind) -> (r: bool)
    ensures
        r == supported@.contains(kind),
{
    let mut i: usize = 0;
    while i < supported.len()
        invariant
            i <= supported.len(),
            forall|k: int| 0 <= k < i ==> supported@[k] != kind,
        decreases supported.len() - i,
    {
        let same = match (supported[i], kind) {
            (CapabilityKind::BuildSummary, CapabilityKind::BuildSummary) => true,
            (CapabilityKind::ExplainRust, CapabilityKind::ExplainRust) => true,
            _ => false,
        };
        if same {
            assert(supported@[i as int] == kind);
            return true;
        }
        i = i + 1;
    }
    false
}

/// Fail fast when the provider does not offer the requested capability.
pub fn check_supported(supported: &Vec<CapabilityKind>, kind: CapabilityKind) -> (r: Result<(), AiRuntimeError>)
    ensures
        supported@.contains(kind) ==> r is Ok,
        !supported@.contains(kind) ==> (r matches Err(AiRuntimeError::UnsupportedCapability(c))
            && c@ == kind_name(kind)),
{
    if supports(supported, kind) {
        Ok(())
    } else {
        let name = match kind {
            CapabilityKind::BuildSummary => "BuildSummary",
            CapabilityKind::ExplainRust => "ExplainRust",
        };
        Err(AiRuntimeError::UnsupportedCapability(copy_str(name)))
    }
}

} // verus!
