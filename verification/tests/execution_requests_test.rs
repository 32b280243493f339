//! Answers to scenario execution requests.
use tcgui_backend::scenario::requests::{
    execution_response, missing_payload_response, ExecutionOutcome, ScenarioErrorKind,
    ScenarioExecutionRequest, ScenarioExecutionResponse,
};

fn start() -> ScenarioExecutionRequest {
    ScenarioExecutionRequest::Start {
        scenario_id: "s1".to_string(),
        namespace: "default".to_string(),
        interface: "eth0".to_string(),
        loop_execution: false,
    }
}

fn start_error(message: &str) -> (ScenarioErrorKind, String, Option<String>) {
    match execution_response(&start(), ExecutionOutcome::StartFailed { error: message.to_string() }) {
        ScenarioExecutionResponse::Error { error } => (error.kind, error.message, error.suggestion),
        other => panic!("unexpected answer {:?}", other),
    }
}

#[test]
fn started_answer_carries_id_and_duration() {
    let r = execution_response(
        &start(),
        ExecutionOutcome::Started { execution_id: "default/eth0".to_string(), estimated_duration_ms: 7500 },
    );
    match r {
        ScenarioExecutionResponse::Started { execution_id, estimated_duration_ms } => {
            assert_eq!(execution_id, "default/eth0");
            assert_eq!(estimated_duration_ms, 7500);
        }
        other => panic!("unexpected answer {:?}", other),
    }
}

#[test]
fn missing_scenario_is_permanent() {
    let (kind, message, suggestion) = start_error("Scenario 's1' not found");
    assert_eq!(kind, ScenarioErrorKind::Permanent);
    assert_eq!(message, "Scenario not found: Scenario 's1' not found");
    assert_eq!(suggestion, None);
}

#[test]
fn busy_interface_is_permanent_with_suggestion() {
    let (kind, message, suggestion) = start_error("Scenario already running on interface default:eth0");
    assert_eq!(kind, ScenarioErrorKind::Permanent);
    assert_eq!(message, "Scenario already running on interface default:eth0");
    assert_eq!(suggestion.as_deref(), Some("Stop the existing execution first."));
}

#[test]
fn other_start_failures_are_transient() {
    let (kind, message, suggestion) = start_error("channel closed");
    assert_eq!(kind, ScenarioErrorKind::Transient);
    assert_eq!(message, "Failed to start execution: channel closed");
    assert_eq!(suggestion, None);
}

#[test]
fn control_answers_name_the_operation() {
    let ns = || "default".to_string();
    let ifc = || "eth0".to_string();
    let stop = ScenarioExecutionRequest::Stop { namespace: ns(), interface: ifc() };
    let pause = ScenarioExecutionRequest::Pause { namespace: ns(), interface: ifc() };
    let resume = ScenarioExecutionRequest::Resume { namespace: ns(), interface: ifc() };
    assert!(matches!(
        execution_response(&stop, ExecutionOutcome::Done { success: true }),
        ScenarioExecutionResponse::Stopped { success: true }
    ));
    assert!(matches!(
        execution_response(&pause, ExecutionOutcome::Done { success: false }),
        ScenarioExecutionResponse::Paused { success: false }
    ));
    assert!(matches!(
        execution_response(&resume, ExecutionOutcome::Done { success: true }),
        ScenarioExecutionResponse::Resumed { success: true }
    ));
    match execution_response(&pause, ExecutionOutcome::Failed { error: "boom".to_string() }) {
        ScenarioExecutionResponse::Error { error } => {
            assert_eq!(error.kind, ScenarioErrorKind::Transient);
            assert_eq!(error.message, "Failed to pause execution: boom");
            assert_eq!(error.suggestion, None);
        }
        other => panic!("unexpected answer {:?}", other),
    }
}

#[test]
fn status_and_listing_pass_executions_through() {
    let status = ScenarioExecutionRequest::Status { namespace: "default".to_string(), interface: "eth0".to_string() };
    assert!(matches!(
        execution_response(&status, ExecutionOutcome::Status { execution: None }),
        ScenarioExecutionResponse::Status { execution: None }
    ));
    match execution_response(&ScenarioExecutionRequest::ListActive, ExecutionOutcome::Active { executions: vec![] }) {
        ScenarioExecutionResponse::ActiveExecutions { executions } => assert!(executions.is_empty()),
        other => panic!("unexpected answer {:?}", other),
    }
}

#[test]
fn request_without_payload_is_a_validation_error() {
    match missing_payload_response() {
        ScenarioExecutionResponse::Error { error } => {
            assert_eq!(error.kind, ScenarioErrorKind::Validation);
            assert_eq!(error.message, "Missing request payload");
        }
        other => panic!("unexpected answer {:?}", other),
    }
}
