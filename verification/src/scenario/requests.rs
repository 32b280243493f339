//! The answers to scenario execution requests, from what a request asked
//! and how carrying it out went.
//!
//! Carrying the request out (looking the scenario up, starting, stopping,
//! pausing or resuming its execution) and sending the answer are left to
//! the caller, which hands the outcome back here.
use vstd::prelude::*;
use crate::scenario::model::ScenarioExecution;
use crate::text::{contains_seq, owned, push_str, str_contains};

verus! {

/// A request about the execution of a scenario on an interface.
#[derive(Debug, Clone)]
pub enum ScenarioExecutionRequest {
    Start { scenario_id: String, namespace: String, interface: String, loop_execution: bool },
    Stop { namespace: String, interface: String },
    Pause { namespace: String, interface: String },
    Resume { namespace: String, interface: String },
    Status { namespace: String, interface: String },
    ListActive,
}

/// How a failed request should be taken: a malformed request, a failure
/// that retrying will not mend, or one that it may.
#[derive(Debug, Clone, Copy, PartialEq, Eq, Structural)]
pub enum ScenarioErrorKind {
    Validation,
    Permanent,
    Transient,
}

/// Why a request failed, and what the user might do about it.
#[derive(Debug, Clone)]
pub struct ScenarioError {
    pub kind: ScenarioErrorKind,
    pub message: String,
    pub suggestion: Option<String>,
}

/// The answer to a scenario execution request.
#[derive(Debug, Clone)]
pub enum ScenarioExecutionResponse {
    Started { execution_id: String, estimated_duration_ms: u64 },
    Stopped { success: bool },
    Paused { success: bool },
    Resumed { success: bool },
    Status { execution: Option<ScenarioExecution> },
    ActiveExecutions { executions: Vec<ScenarioExecution> },
    Error { error: ScenarioError },
}

/// How carrying a request out went.
#[derive(Debug, Clone)]
pub enum ExecutionOutcome {
    /// The execution started; its id and the scenario's total duration
    /// (0 when the scenario could not be read back).
    Started { execution_id: String, estimated_duration_ms: u64 },
    /// The execution could not start, with the reason.
    StartFailed { error: String },
    /// A stop, pause or resume went through; whether it found an execution.
    Done { success: bool },
    /// A stop, pause or resume failed, with the reason.
    Failed { error: String },
    /// The execution on the interface, if any.
    Status { execution: Option<ScenarioExecution> },
    /// The running executions.
    Active { executions: Vec<ScenarioExecution> },
}

/// The outcome is one that the request can have.
pub open spec fn outcome_fits(req: ScenarioExecutionRequest, outcome: ExecutionOutcome) -> bool {
    match req {
        ScenarioExecutionRequest::Start { .. } => outcome is Started || outcome is StartFailed,
        ScenarioExecutionRequest::Status { .. } => outcome is Status,
        ScenarioExecutionRequest::ListActive => outcome is Active,
        _ => outcome is Done || outcome is Failed,
    }
}

/// A start failure naming a missing scenario.
pub open spec fn names_missing(e: Seq<char>) -> bool {
    contains_seq(e, "not found"@)
}

/// A start failure naming an execution already on the interface.
pub open spec fn names_running(e: Seq<char>) -> bool {
    contains_seq(e, "already running"@)
}

/// The kind of a start failure: a missing scenario or a busy interface is
/// permanent; anything else transient.
pub open spec fn start_error_kind(e: Seq<char>) -> ScenarioErrorKind {
    if names_missing(e) || names_running(e) {
        ScenarioErrorKind::Permanent
    } else {
        ScenarioErrorKind::Transient
    }
}

/// The message of a start failure.
pub open spec fn start_error_message(e: Seq<char>) -> Seq<char> {
    if names_missing(e) {
        "Scenario not found: "@ + e
    } else if names_running(e) {
        e
    } else {
        "Failed to start execution: "@ + e
    }
}

/// The suggestion of a start failure: only a busy interface has one.
pub open spec fn start_error_suggestion(e: Seq<char>) -> Option<Seq<char>> {
    if !names_missing(e) && names_running(e) {
        Some("Stop the existing execution first."@)
    } else {
        None
    }
}

/// The message of a failed stop, pause or resume.
pub open spec fn control_error_message(req: ScenarioExecutionRequest, e: Seq<char>) -> Seq<char> {
    match req {
        ScenarioExecutionRequest::Stop { .. } => "Failed to stop execution: "@ + e,
        ScenarioExecutionRequest::Pause { .. } => "Failed to pause execution: "@ + e,
        _ => "Failed to resume execution: "@ + e,
    }
}

/// An error of the given kind, message and suggestion.
pub open spec fn error_is(
    err: ScenarioError,
    kind: ScenarioErrorKind,
    message: Seq<char>,
    suggestion: Option<Seq<char>>,
) -> bool {
    &&& err.kind == kind
    &&& err.message@ == message
    &&& match (err.suggestion, suggestion) {
        (Some(s), Some(t)) => s@ == t,
        (None, None) => true,
        _ => false,
    }
}

/// The answer to `req` whose outcome was `outcome`: a start answers with
/// the execution's id and estimated duration, or with its failure; a stop,
/// pause or resume with whether it found an execution, or with a transient
/// error; a status request with the execution, and a listing with the
/// running executions.
pub open spec fn is_execution_response(
    req: ScenarioExecutionRequest,
    outcome: ExecutionOutcome,
    r: ScenarioExecutionResponse,
) -> bool {
    match outcome {
        ExecutionOutcome::Started { execution_id, estimated_duration_ms } => r matches ScenarioExecutionResponse::Started { execution_id: id, estimated_duration_ms: d } && id@
            == execution_id@ && d == estimated_duration_ms,
        ExecutionOutcome::StartFailed { error } => r matches ScenarioExecutionResponse::Error { error: err } && error_is(
            err,
            start_error_kind(error@),
            start_error_message(error@),
            start_error_suggestion(error@),
        ),
        ExecutionOutcome::Done { success } => match req {
            ScenarioExecutionRequest::Stop { .. } => r == ScenarioExecutionResponse::Stopped {
                success,
            },
            ScenarioExecutionRequest::Pause { .. } => r == ScenarioExecutionResponse::Paused {
                success,
            },
            _ => r == ScenarioExecutionResponse::Resumed { success },
        },
        ExecutionOutcome::Failed { error } => r matches ScenarioExecutionResponse::Error { error: err } && error_is(
            err,
            ScenarioErrorKind::Transient,
            control_error_message(req, error@),
            None,
        ),
        ExecutionOutcome::Status { execution } => r == ScenarioExecutionResponse::Status {
            execution,
        },
        ExecutionOutcome::Active { executions } => r == ScenarioExecutionResponse::ActiveExecutions {
            executions,
        },
    }
}

/// The error answering a failed start.
fn start_error(error: String) -> (err: ScenarioError)
    ensures
        error_is(
            err,
            start_error_kind(error@),
            start_error_message(error@),
            start_error_suggestion(error@),
        ),
{
    let missing = str_contains(error.as_str(), "not found");
    let running = str_contains(error.as_str(), "already running");
    if missing {
        let mut message = owned("Scenario not found: ");
        push_str(&mut message, error.as_str());
        ScenarioError { kind: ScenarioErrorKind::Permanent, message, suggestion: None }
    } else if running {
        ScenarioError {
            kind: ScenarioErrorKind::Permanent,
            message: error,
            suggestion: Some(owned("Stop the existing execution first.")),
        }
    } else {
        let mut message = owned("Failed to start execution: ");
        push_str(&mut message, error.as_str());
        ScenarioError { kind: ScenarioErrorKind::Transient, message, suggestion: None }
    }
}

/// The error answering a failed stop, pause or resume.
fn control_error(req: &ScenarioExecutionRequest, error: String) -> (err: ScenarioError)
    ensures
        error_is(err, ScenarioErrorKind::Transient, control_error_message(*req, error@), None),
{
    let mut message = match req {
        ScenarioExecutionRequest::Stop { .. } => owned("Failed to stop execution: "),
        ScenarioExecutionRequest::Pause { .. } => owned("Failed to pause execution: "),
        _ => owned("Failed to resume execution: "),
    };
    push_str(&mut message, error.as_str());
    ScenarioError { kind: ScenarioErrorKind::Transient, message, suggestion: None }
}

/// The answer to `req`, whose outcome was `outcome`.
pub fn execution_response(req: &ScenarioExecutionRequest, outcome: ExecutionOutcome) -> (r:
    ScenarioExecutionResponse)
    requires
        outcome_fits(*req, outcome),
    ensures
        is_execution_response(*req, outcome, r),
{
    match outcome {
        ExecutionOutcome::Started { execution_id, estimated_duration_ms } => {
            ScenarioExecutionResponse::Started { execution_id, estimated_duration_ms }
        },
        ExecutionOutcome::StartFailed { error } => {
            ScenarioExecutionResponse::Error { error: start_error(error) }
        },
        ExecutionOutcome::Done { success } => match req {
            ScenarioExecutionRequest::Stop { .. } => ScenarioExecutionResponse::Stopped { success },
            ScenarioExecutionRequest::Pause { .. } => ScenarioExecutionResponse::Paused { success },
            _ => ScenarioExecutionResponse::Resumed { success },
        },
        ExecutionOutcome::Failed { error } => {
            ScenarioExecutionResponse::Error { error: control_error(req, error) }
        },
        ExecutionOutcome::Status { execution } => ScenarioExecutionResponse::Status { execution },
        ExecutionOutcome::Active { executions } => {
            ScenarioExecutionResponse::ActiveExecutions { executions }
        },
    }
}

/// The answer to a request that arrived without a payload.
pub fn missing_payload_response() -> (r: ScenarioExecutionResponse)
    ensures
        r matches ScenarioExecutionResponse::Error { error } && error_is(
            error,
            ScenarioErrorKind::Validation,
            "Missing request payload"@,
            None,
        ),
{
    ScenarioExecutionResponse::Error {
        error: ScenarioError {
            kind: ScenarioErrorKind::Validation,
            message: owned("Missing request payload"),
            suggestion: None,
        },
    }
}

} // verus!
