//! Running scenarios: the per-interface task and the table of executions.
use tcgui_backend::decimal::Decimal;
use tcgui_backend::scenario::execution::{
    execution_key, ExecutionRegistry, ExecutorControlMessage, RunnerAction, RunnerPhase,
    ScenarioRunner,
};
use tcgui_backend::scenario::{ExecutionState, NetworkScenario, ScenarioExecution, ScenarioStep};
use tcgui_backend::tc_config::{
    TcCorruptConfig, TcDelayConfig, TcDuplicateConfig, TcLossConfig, TcNetemConfig,
    TcRateLimitConfig, TcReorderConfig,
};

fn zero() -> Decimal {
    Decimal::from_int(0)
}

fn loss_config(pct: i64) -> TcNetemConfig {
    TcNetemConfig {
        loss: TcLossConfig { enabled: true, percentage: Decimal::from_int(pct), correlation: zero() },
        delay: TcDelayConfig { enabled: false, base_ms: zero(), jitter_ms: zero(), correlation: zero() },
        duplicate: TcDuplicateConfig { enabled: false, percentage: zero(), correlation: zero() },
        reorder: TcReorderConfig { enabled: false, percentage: zero(), correlation: zero(), gap: 0 },
        corrupt: TcCorruptConfig { enabled: false, percentage: zero(), correlation: zero() },
        rate_limit: TcRateLimitConfig { enabled: false, rate_kbps: 0 },
    }
}

fn create_test_scenario() -> NetworkScenario {
    NetworkScenario {
        id: "test-scenario".to_string(),
        name: "Test Scenario".to_string(),
        description: "A test scenario".to_string(),
        steps: vec![
            ScenarioStep { duration_ms: 5000, description: "Step 1".to_string(), tc_config: loss_config(5) },
            ScenarioStep { duration_ms: 150, description: "Step 2".to_string(), tc_config: loss_config(10) },
        ],
    }
}

#[test]
fn test_execution_key_format() {
    let namespace = "test-namespace";
    let interface = "eth0";
    let expected_key = execution_key(namespace, interface);

    assert_eq!(expected_key, "test-namespace/eth0");
}

#[test]
fn test_executor_control_messages() {
    let pause_msg = ExecutorControlMessage::Pause;
    let resume_msg = ExecutorControlMessage::Resume;
    let stop_msg = ExecutorControlMessage::Stop;

    assert!(matches!(pause_msg, ExecutorControlMessage::Pause));
    assert!(matches!(resume_msg, ExecutorControlMessage::Resume));
    assert!(matches!(stop_msg, ExecutorControlMessage::Stop));
}

fn fresh(scenario: NetworkScenario) -> ScenarioExecution {
    ScenarioExecution::new(scenario, "default".to_string(), "eth0".to_string(), 1000)
}

#[test]
fn runner_applies_each_step_then_completes() {
    let (mut r, actions) = ScenarioRunner::start(fresh(create_test_scenario()));
    assert_eq!(actions, vec![RunnerAction::Publish, RunnerAction::ApplyStep(0)]);
    assert_eq!(r.phase(), RunnerPhase::AwaitingTc);

    let a = r.on_tc_result(None);
    assert_eq!(a, vec![RunnerAction::Publish, RunnerAction::Sleep(100)]);
    assert_eq!(r.phase(), RunnerPhase::Sleeping { remaining_ms: 5000, chunk_ms: 100 });
    let mut sleeps = 1;
    loop {
        let a = r.on_slept();
        if a == vec![RunnerAction::Publish, RunnerAction::PollControl] {
            break;
        }
        assert_eq!(a, vec![RunnerAction::Sleep(100)]);
        sleeps += 1;
    }
    assert_eq!(sleeps, 50);
    assert_eq!(r.phase(), RunnerPhase::Draining);
    assert_eq!(r.execution().stats.steps_completed, 1);

    let a = r.on_poll(None, 7000);
    assert_eq!(a, vec![RunnerAction::ApplyStep(1)]);
    assert_eq!(r.execution().current_step, 1);

    let a = r.on_tc_result(Some("tc failed".to_string()));
    assert_eq!(a, vec![RunnerAction::Publish, RunnerAction::Sleep(100)]);
    assert_eq!(r.execution().stats.failed_operations, 1);
    assert_eq!(r.execution().stats.last_error.as_deref(), Some("tc failed"));
    assert_eq!(r.on_slept(), vec![RunnerAction::Sleep(50)]);
    assert_eq!(r.on_slept(), vec![RunnerAction::Publish, RunnerAction::PollControl]);
    let a = r.on_poll(None, 8000);
    assert!(a.contains(&RunnerAction::Finish));
    assert_eq!(r.phase(), RunnerPhase::Finished);
    assert_eq!(r.execution().state, ExecutionState::Completed);
    assert_eq!(r.execution().stats.steps_completed, 2);
    assert_eq!(r.execution().stats.tc_operations, 1);
}

#[test]
fn runner_with_no_steps_completes_at_once() {
    let mut s = create_test_scenario();
    s.steps.clear();
    let (r, actions) = ScenarioRunner::start(fresh(s));
    assert_eq!(actions, vec![RunnerAction::Publish, RunnerAction::Publish, RunnerAction::Finish]);
    assert_eq!(r.execution().state, ExecutionState::Completed);
}

#[test]
fn pause_resume_and_stop() {
    let (mut r, _) = ScenarioRunner::start(fresh(create_test_scenario()));
    r.on_tc_result(None);
    let a = r.on_control(Some(ExecutorControlMessage::Pause), 2000);
    assert_eq!(a, vec![RunnerAction::Publish, RunnerAction::WaitForControl]);
    assert_eq!(r.execution().state, ExecutionState::Paused { paused_at: 2000 });
    let a = r.on_control(Some(ExecutorControlMessage::Resume), 2500);
    assert!(a.contains(&RunnerAction::Sleep(100)));
    assert_eq!(r.execution().state, ExecutionState::Running);
    let a = r.on_control(Some(ExecutorControlMessage::Stop), 2600);
    assert!(a.contains(&RunnerAction::Finish));
    assert_eq!(r.execution().state, ExecutionState::Stopped);
    assert_eq!(r.phase(), RunnerPhase::Finished);
    assert_eq!(r.on_slept(), vec![]);
}

#[test]
fn registry_runs_one_execution_per_interface() {
    let mut reg = ExecutionRegistry::new();
    let key = reg.start(create_test_scenario(), "ns1", "eth0", 10).unwrap();
    assert_eq!(key, "ns1/eth0");
    assert!(reg.start(create_test_scenario(), "ns1", "eth0", 11).is_err());
    assert!(reg.start(create_test_scenario(), "ns1", "eth1", 12).is_ok());
    assert_eq!(reg.list_active_executions().len(), 2);

    assert!(reg.pause("ns1", "eth0", 20));
    assert!(matches!(
        reg.get_execution_status("ns1", "eth0").unwrap().state,
        ExecutionState::Paused { paused_at: 20 }
    ));
    assert!(reg.resume("ns1", "eth0"));
    assert_eq!(reg.get_execution_status("ns1", "eth0").unwrap().state, ExecutionState::Running);
    assert!(reg.resume("ns1", "eth0"));
    assert!(!reg.resume("ns9", "eth0"));

    let stopped = reg.stop("ns1", "eth0").unwrap();
    assert_eq!(stopped.state, ExecutionState::Stopped);
    assert!(reg.get_execution_status("ns1", "eth0").is_none());
    assert!(reg.stop("ns1", "eth0").is_none());
    assert!(!reg.pause("nowhere", "eth9", 1));
    assert_eq!(reg.list_active_executions().len(), 1);
}

#[test]
fn test_scenario_duration_calculation() {
    let mut scenario = create_test_scenario();
    scenario.steps[1].duration_ms = 10000;
    assert_eq!(scenario.estimated_total_duration_ms(), 15000);
    scenario.steps.clear();
    assert_eq!(scenario.estimated_total_duration_ms(), 0);
}

#[test]
fn runner_sends_each_step_to_its_own_interface() {
    let exec = ScenarioExecution::new(create_test_scenario(), "ns1".to_string(), "veth7".to_string(), 42);
    let (mut r, _) = ScenarioRunner::start(exec);
    let first = r.step_request(0);
    assert_eq!(first.namespace, "ns1");
    assert_eq!(first.interface, "veth7");
    assert_eq!(first.config.loss.percentage.units(), 5);
    r.on_tc_result(None);
    while r.on_slept() != vec![RunnerAction::Publish, RunnerAction::PollControl] {}
    assert_eq!(r.on_poll(None, 6000), vec![RunnerAction::ApplyStep(1)]);
    let second = r.step_request(1);
    assert_eq!(second.namespace, "ns1");
    assert_eq!(second.interface, "veth7");
    assert_eq!(second.config.loss.percentage.units(), 10);
    assert_eq!(r.execution().target_interface, "veth7");
    assert_eq!(r.execution().start_time, 42);
    assert_eq!(r.execution().scenario.steps.len(), 2);
}

#[test]
fn registry_changes_leave_other_interfaces_alone() {
    let mut reg = ExecutionRegistry::new();
    reg.start(create_test_scenario(), "ns1", "eth0", 10).unwrap();
    reg.start(create_test_scenario(), "ns2", "eth0", 30).unwrap();
    reg.start(create_test_scenario(), "ns1", "eth1", 20).unwrap();
    assert!(reg.pause("ns1", "eth0", 40));
    assert_eq!(reg.get_execution_status("ns2", "eth0").unwrap().state, ExecutionState::Running);
    assert_eq!(reg.get_execution_status("ns1", "eth1").unwrap().state, ExecutionState::Running);
    assert!(reg.stop("ns2", "eth0").is_some());
    let other = reg.get_execution_status("ns1", "eth1").unwrap();
    assert_eq!(other.start_time, 20);
    assert_eq!(other.target_interface, "eth1");
    assert!(matches!(
        reg.get_execution_status("ns1", "eth0").unwrap().state,
        ExecutionState::Paused { paused_at: 40 }
    ));
    assert!(reg.resume("ns1", "eth1"));
    assert!(matches!(
        reg.get_execution_status("ns1", "eth0").unwrap().state,
        ExecutionState::Paused { paused_at: 40 }
    ));
}
