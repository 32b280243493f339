//! Running a scenario on an interface: the decisions of the per-interface
//! task (which step to apply, how long to hold it, how pause, resume and
//! stop requests act) as a state machine, and the table of running
//! executions keyed by interface.
//!
//! The caller performs each action the machine asks for (publishing an
//! update, applying a step's configuration, sleeping, reading a control
//! request) and hands back what happened.
use vstd::prelude::*;
use crate::scenario::model::{ExecutionState, NetworkScenario, ScenarioExecution};
use crate::tc_config::TcNetemConfig;
use crate::text::{first_index, lemma_first_index, lemma_first_index_found, owned, push_str, str_eq};

verus! {

/// The key of an execution: `namespace/interface`.
pub open spec fn execution_key_spec(namespace: Seq<char>, interface: Seq<char>) -> Seq<char> {
    namespace + "/"@ + interface
}

/// The key of an execution: `namespace/interface`.
pub fn execution_key(namespace: &str, interface: &str) -> (k: String)
    ensures
        k@ == execution_key_spec(namespace@, interface@),
{
    let mut k = owned(namespace);
    push_str(&mut k, "/");
    push_str(&mut k, interface);
    k
}

/// A request to a running scenario.
#[derive(Debug, Clone, Copy, PartialEq, Eq, Structural)]
pub enum ExecutorControlMessage {
    Pause,
    Resume,
    Stop,
}

/// What the task is doing.
#[derive(Debug, Clone, Copy, PartialEq, Eq, Structural)]
pub enum RunnerPhase {
    /// Waiting for the result of applying the current step.
    AwaitingTc,
    /// Holding the current step: `remaining_ms` to go, sleeping `chunk_ms`.
    Sleeping { remaining_ms: u64, chunk_ms: u64 },
    /// Paused while holding the current step, `remaining_ms` to go.
    Paused { remaining_ms: u64 },
    /// The step is done; reading pending requests before the next one.
    Draining,
    /// The task has ended.
    Finished,
}

/// What the caller must do next.
#[derive(Debug, Clone, Copy, PartialEq, Eq, Structural)]
pub enum RunnerAction {
    /// Publish the execution as it now stands.
    Publish,
    /// Apply the configuration of this step.
    ApplyStep(usize),
    /// Sleep this many milliseconds, or until a request arrives.
    Sleep(u64),
    /// Wait for the next request.
    WaitForControl,
    /// Read a pending request, if any, without waiting.
    PollControl,
    /// End the task.
    Finish,
}

/// A sleep chunk: at most 100 ms.
pub open spec fn chunk_of(remaining: u64) -> u64 {
    if remaining < 100 {
        remaining
    } else {
        100
    }
}

/// Two views of one run: the same scenario on the same interface, started
/// at the same time.
pub open spec fn same_run(a: ScenarioExecution, b: ScenarioExecution) -> bool {
    &&& a.scenario == b.scenario
    &&& a.target_namespace == b.target_namespace
    &&& a.target_interface == b.target_interface
    &&& a.start_time == b.start_time
}

/// What applying a step asks for: the step's configuration on the
/// execution's interface.
#[derive(Debug, Clone)]
pub struct StepRequest {
    pub namespace: String,
    pub interface: String,
    pub config: TcNetemConfig,
}

/// The per-interface task of a running scenario.
pub struct ScenarioRunner {
    execution: ScenarioExecution,
    phase: RunnerPhase,
    pause_started: Option<u64>,
    paused_total_ms: u64,
}

impl ScenarioRunner {
    /// The execution as the task sees it.
    pub closed spec fn execution_spec(&self) -> ScenarioExecution {
        self.execution
    }

    /// What the task is doing.
    pub closed spec fn phase_spec(&self) -> RunnerPhase {
        self.phase
    }

    /// When the current pause began, if paused by a request.
    pub closed spec fn pause_started_spec(&self) -> Option<u64> {
        self.pause_started
    }

    /// Time spent paused, in milliseconds.
    pub closed spec fn paused_total_spec(&self) -> u64 {
        self.paused_total_ms
    }

    /// The number of steps.
    pub open spec fn steps_len(&self) -> nat {
        self.execution_spec().scenario.steps@.len()
    }

    /// The bookkeeping that holds between any two events: the current step
    /// exists while the task runs; every step up to the current one was
    /// applied once, successfully or not; the steps completed are those
    /// before the current one, and the current one once it has been held;
    /// the task has ended exactly when the execution is stopped or
    /// completed, and a completed execution has completed every step.
    pub open spec fn wf(&self) -> bool {
        let e = self.execution_spec();
        let n = self.steps_len();
        let ph = self.phase_spec();
        let applied = e.stats.tc_operations + e.stats.failed_operations;
        &&& (ph != RunnerPhase::Finished ==> e.current_step < n)
        &&& (ph is Finished <==> (e.state == ExecutionState::Stopped || e.state
            == ExecutionState::Completed))
        &&& (n == 0 ==> applied == 0 && e.stats.steps_completed == 0 && e.current_step == 0)
        &&& (n > 0 ==> applied == e.current_step + (if ph is AwaitingTc {
            0int
        } else {
            1int
        }))
        &&& (n > 0 ==> e.current_step < n)
        &&& n > 0 ==> e.stats.steps_completed == e.current_step + (if ph is Draining || (ph is Finished && e.state
            == ExecutionState::Completed) {
            1int
        } else {
            0int
        }) || (ph is Finished && e.state == ExecutionState::Stopped && (e.stats.steps_completed
            == e.current_step || e.stats.steps_completed == e.current_step + 1))
        &&& (e.state == ExecutionState::Completed ==> e.stats.steps_completed == n)
        &&& (ph matches RunnerPhase::Sleeping { remaining_ms, chunk_ms } ==> remaining_ms > 0
            || chunk_ms == 0)
        &&& (ph matches RunnerPhase::Sleeping { remaining_ms, chunk_ms } ==> chunk_ms == chunk_of(
            remaining_ms,
        ))
    }

    /// Starts the task: the current step is the first; the execution is
    /// published, then the first step applied; a scenario with no steps is
    /// published as started and as completed.
    pub fn start(execution: ScenarioExecution) -> (r: (ScenarioRunner, Vec<RunnerAction>))
        requires
            execution.state == ExecutionState::Running,
            execution.stats.tc_operations == 0,
            execution.stats.failed_operations == 0,
            execution.stats.steps_completed == 0,
        ensures
            r.0.wf(),
            r.0.execution_spec().current_step == 0,
            same_run(r.0.execution_spec(), execution),
            r.0.execution_spec().stats == execution.stats,
            execution.scenario.steps@.len() > 0 ==> r.0.phase_spec() == RunnerPhase::AwaitingTc
                && r.0.execution_spec().state == ExecutionState::Running && r.1@ == seq![
                RunnerAction::Publish,
                RunnerAction::ApplyStep(0),
            ],
            execution.scenario.steps@.len() == 0 ==> r.0.phase_spec() == RunnerPhase::Finished
                && r.0.execution_spec().state == ExecutionState::Completed && r.1@ == seq![
                RunnerAction::Publish,
                RunnerAction::Publish,
                RunnerAction::Finish,
            ],
    {
        let mut execution = execution;
        execution.current_step = 0;
        if execution.scenario.steps.len() == 0 {
            execution.state = ExecutionState::Completed;
            let runner = ScenarioRunner {
                execution,
                phase: RunnerPhase::Finished,
                pause_started: None,
                paused_total_ms: 0,
            };
            (runner, vec![RunnerAction::Publish, RunnerAction::Publish, RunnerAction::Finish])
        } else {
            let runner = ScenarioRunner {
                execution,
                phase: RunnerPhase::AwaitingTc,
                pause_started: None,
                paused_total_ms: 0,
            };
            (runner, vec![RunnerAction::Publish, RunnerAction::ApplyStep(0)])
        }
    }

    /// The execution as the task sees it.
    pub fn execution(&self) -> (e: &ScenarioExecution)
        ensures
            *e == self.execution_spec(),
    {
        &self.execution
    }

    /// What the task is doing.
    pub fn phase(&self) -> (p: RunnerPhase)
        ensures
            p == self.phase_spec(),
    {
        self.phase
    }

    /// The request that `ApplyStep(step)` stands for: that step's
    /// configuration on the execution's namespace and interface.
    pub fn step_request(&self, step: usize) -> (req: StepRequest)
        requires
            step < self.steps_len(),
        ensures
            req.namespace@ == self.execution_spec().target_namespace@,
            req.interface@ == self.execution_spec().target_interface@,
            req.config == self.execution_spec().scenario.steps@[step as int].tc_config,
    {
        StepRequest {
            namespace: owned(self.execution.target_namespace.as_str()),
            interface: owned(self.execution.target_interface.as_str()),
            config: self.execution.scenario.steps[step].tc_config,
        }
    }

    /// The result of applying the current step: a success or the failure
    /// message is counted, the execution published, and the step held for
    /// its duration in chunks of at most 100 ms. Outside `AwaitingTc`
    /// nothing happens.
    pub fn on_tc_result(&mut self, failure: Option<String>) -> (actions: Vec<RunnerAction>)
        requires
            old(self).wf(),
        ensures
            final(self).wf(),
            same_run(final(self).execution_spec(), old(self).execution_spec()),
            old(self).phase_spec() is AwaitingTc ==> {
                let e0 = old(self).execution_spec();
                let e1 = final(self).execution_spec();
                let d = e0.scenario.steps@[e0.current_step as int].duration_ms;
                &&& e1.current_step == e0.current_step
                &&& e1.state == e0.state
                &&& e1.scenario == e0.scenario
                &&& (failure is None ==> e1.stats.tc_operations == e0.stats.tc_operations + 1
                    && e1.stats.failed_operations == e0.stats.failed_operations && e1.stats.last_error
                    == e0.stats.last_error)
                &&& (failure is Some ==> e1.stats.tc_operations == e0.stats.tc_operations
                    && e1.stats.failed_operations == e0.stats.failed_operations + 1
                    && e1.stats.last_error == failure)
                &&& e1.stats.steps_completed == e0.stats.steps_completed
                &&& final(self).phase_spec() == (RunnerPhase::Sleeping {
                    remaining_ms: d,
                    chunk_ms: chunk_of(d),
                })
                &&& actions@ == seq![RunnerAction::Publish, RunnerAction::Sleep(chunk_of(d))]
            },
            !(old(self).phase_spec() is AwaitingTc) ==> *final(self) == *old(self) && actions@.len()
                == 0,
    {
        match self.phase {
            RunnerPhase::AwaitingTc => {},
            _ => {
                return Vec::new();
            },
        }
        let step = self.execution.current_step;
        let n = self.execution.scenario.steps.len();
        assert(step < n);
        assert(self.execution.stats.tc_operations + self.execution.stats.failed_operations == step);
        let d = self.execution.scenario.steps[step].duration_ms;
        match failure {
            None => {
                self.execution.stats.tc_operations = self.execution.stats.tc_operations + 1;
            },
            Some(msg) => {
                self.execution.stats.failed_operations = self.execution.stats.failed_operations + 1;
                self.execution.stats.last_error = Some(msg);
            },
        }
        let chunk = if d < 100 {
            d
        } else {
            100
        };
        self.phase = RunnerPhase::Sleeping { remaining_ms: d, chunk_ms: chunk };
        vec![RunnerAction::Publish, RunnerAction::Sleep(chunk)]
    }

    /// A sleep chunk ended: when the step's time is up it is completed, the
    /// execution published and pending requests read; else the next chunk
    /// is slept. Outside `Sleeping` nothing happens.
    pub fn on_slept(&mut self) -> (actions: Vec<RunnerAction>)
        requires
            old(self).wf(),
        ensures
            final(self).wf(),
            same_run(final(self).execution_spec(), old(self).execution_spec()),
            old(self).phase_spec() matches RunnerPhase::Sleeping { remaining_ms, chunk_ms } ==> {
                let left = (remaining_ms - chunk_ms) as u64;
                let e0 = old(self).execution_spec();
                let e1 = final(self).execution_spec();
                &&& e1.current_step == e0.current_step
                &&& e1.state == e0.state
                &&& e1.stats.tc_operations == e0.stats.tc_operations
                &&& e1.stats.failed_operations == e0.stats.failed_operations
                &&& if left == 0 {
                    &&& e1.stats.steps_completed == e0.stats.steps_completed + 1
                    &&& final(self).phase_spec() == RunnerPhase::Draining
                    &&& actions@ == seq![RunnerAction::Publish, RunnerAction::PollControl]
                } else {
                    &&& e1.stats.steps_completed == e0.stats.steps_completed
                    &&& final(self).phase_spec() == (RunnerPhase::Sleeping {
                        remaining_ms: left,
                        chunk_ms: chunk_of(left),
                    })
                    &&& actions@ == seq![RunnerAction::Sleep(chunk_of(left))]
                }
            },
            !(old(self).phase_spec() is Sleeping) ==> *final(self) == *old(self) && actions@.len()
                == 0,
    {
        let (remaining, chunk) = match self.phase {
            RunnerPhase::Sleeping { remaining_ms, chunk_ms } => (remaining_ms, chunk_ms),
            _ => {
                return Vec::new();
            },
        };
        let left = remaining - chunk;
        let n = self.execution.scenario.steps.len();
        assert(self.execution.current_step < n);
        assert(self.execution.stats.steps_completed == self.execution.current_step);
        if left == 0 {
            self.execution.stats.steps_completed = self.execution.stats.steps_completed + 1;
            self.phase = RunnerPhase::Draining;
            vec![RunnerAction::Publish, RunnerAction::PollControl]
        } else {
            let next = if left < 100 {
                left
            } else {
                100
            };
            self.phase = RunnerPhase::Sleeping { remaining_ms: left, chunk_ms: next };
            vec![RunnerAction::Sleep(next)]
        }
    }

    /// A request, or the end of the request channel (`None`), arrived
    /// while holding a step. While sleeping: stop or a closed channel ends
    /// the task as stopped; pause marks the execution paused at `now_ms`,
    /// publishes it and waits for requests; resume is ignored and the chunk
    /// slept again. While paused: stop ends the task; resume counts the
    /// pause, marks the execution running and sleeps again; anything else
    /// is ignored. In other phases nothing happens.
    pub fn on_control(&mut self, msg: Option<ExecutorControlMessage>, now_ms: u64) -> (actions: Vec<
        RunnerAction,
    >)
        requires
            old(self).wf(),
        ensures
            final(self).wf(),
            same_run(final(self).execution_spec(), old(self).execution_spec()),
            final(self).execution_spec().current_step == old(self).execution_spec().current_step,
            final(self).execution_spec().stats == old(self).execution_spec().stats,
            old(self).phase_spec() matches RunnerPhase::Sleeping { remaining_ms, chunk_ms } ==> match msg {
                Some(ExecutorControlMessage::Resume) => *final(self) == *old(self) && actions@
                    == seq![RunnerAction::Sleep(chunk_ms)],
                Some(ExecutorControlMessage::Pause) => {
                    &&& final(self).execution_spec().state == (ExecutionState::Paused {
                        paused_at: now_ms,
                    })
                    &&& final(self).phase_spec() == (RunnerPhase::Paused { remaining_ms })
                    &&& final(self).pause_started_spec() == Some(now_ms)
                    &&& actions@ == seq![RunnerAction::Publish, RunnerAction::WaitForControl]
                },
                _ => {
                    &&& final(self).execution_spec().state == ExecutionState::Stopped
                    &&& final(self).phase_spec() == RunnerPhase::Finished
                    &&& actions@ == seq![RunnerAction::Finish]
                },
            },
            old(self).phase_spec() matches RunnerPhase::Paused { remaining_ms } ==> match msg {
                Some(ExecutorControlMessage::Stop) => {
                    &&& final(self).execution_spec().state == ExecutionState::Stopped
                    &&& final(self).phase_spec() == RunnerPhase::Finished
                    &&& actions@ == seq![RunnerAction::Finish]
                },
                Some(ExecutorControlMessage::Resume) => {
                    &&& final(self).execution_spec().state == ExecutionState::Running
                    &&& final(self).phase_spec() == (RunnerPhase::Sleeping {
                        remaining_ms,
                        chunk_ms: chunk_of(remaining_ms),
                    })
                    &&& final(self).pause_started_spec() is None
                    &&& actions@ == seq![RunnerAction::Sleep(chunk_of(remaining_ms))]
                },
                _ => *final(self) == *old(self) && actions@ == seq![RunnerAction::WaitForControl],
            },
            !(old(self).phase_spec() is Sleeping || old(self).phase_spec() is Paused) ==> *final(self)
                == *old(self) && actions@.len() == 0,
    {
        match self.phase {
            RunnerPhase::Sleeping { remaining_ms, chunk_ms } => match msg {
                Some(ExecutorControlMessage::Resume) => vec![RunnerAction::Sleep(chunk_ms)],
                Some(ExecutorControlMessage::Pause) => {
                    self.pause_started = Some(now_ms);
                    self.execution.state = ExecutionState::Paused { paused_at: now_ms };
                    self.phase = RunnerPhase::Paused { remaining_ms };
                    vec![RunnerAction::Publish, RunnerAction::WaitForControl]
                },
                _ => {
                    self.execution.state = ExecutionState::Stopped;
                    self.phase = RunnerPhase::Finished;
                    vec![RunnerAction::Finish]
                },
            },
            RunnerPhase::Paused { remaining_ms } => match msg {
                Some(ExecutorControlMessage::Stop) => {
                    self.execution.state = ExecutionState::Stopped;
                    self.phase = RunnerPhase::Finished;
                    vec![RunnerAction::Finish]
                },
                Some(ExecutorControlMessage::Resume) => {
                    self.count_pause(now_ms);
                    self.execution.state = ExecutionState::Running;
                    let chunk = if remaining_ms < 100 {
                        remaining_ms
                    } else {
                        100
                    };
                    self.phase = RunnerPhase::Sleeping { remaining_ms, chunk_ms: chunk };
                    vec![RunnerAction::Sleep(chunk)]
                },
                _ => vec![RunnerAction::WaitForControl],
            },
            _ => Vec::new(),
        }
    }

    /// Ends a pause begun at `pause_started`, adding its length to the
    /// paused total.
    fn count_pause(&mut self, now_ms: u64)
        ensures
            final(self).execution == old(self).execution,
            final(self).phase == old(self).phase,
            final(self).pause_started is None,
    {
        match self.pause_started {
            Some(p) => {
                let elapsed = if now_ms >= p {
                    now_ms - p
                } else {
                    0
                };
                self.paused_total_ms = if self.paused_total_ms <= u64::MAX - elapsed {
                    self.paused_total_ms + elapsed
                } else {
                    u64::MAX
                };
                self.pause_started = None;
            },
            None => {},
        }
    }

    /// A pending request read after a step (`None` when there is none).
    /// Stop ends the task as stopped; pause marks the execution paused at
    /// `now_ms` and resume, after a pause, marks it running, and reading
    /// goes on; with nothing pending the next step is applied, or after
    /// the last step the execution is completed and published. In other
    /// phases nothing happens.
    pub fn on_poll(&mut self, msg: Option<ExecutorControlMessage>, now_ms: u64) -> (actions: Vec<
        RunnerAction,
    >)
        requires
            old(self).wf(),
        ensures
            final(self).wf(),
            same_run(final(self).execution_spec(), old(self).execution_spec()),
            old(self).phase_spec() is Draining ==> {
                let e0 = old(self).execution_spec();
                let e1 = final(self).execution_spec();
                match msg {
                    Some(ExecutorControlMessage::Stop) => {
                        &&& e1.state == ExecutionState::Stopped
                        &&& final(self).phase_spec() == RunnerPhase::Finished
                        &&& actions@ == seq![RunnerAction::Finish]
                    },
                    Some(ExecutorControlMessage::Pause) => {
                        &&& e1.state == (ExecutionState::Paused { paused_at: now_ms })
                        &&& final(self).phase_spec() == RunnerPhase::Draining
                        &&& final(self).pause_started_spec() == Some(now_ms)
                        &&& actions@ == seq![RunnerAction::PollControl]
                    },
                    Some(ExecutorControlMessage::Resume) => {
                        &&& (old(self).pause_started_spec() is Some ==> e1.state
                            == ExecutionState::Running)
                        &&& (old(self).pause_started_spec() is None ==> e1.state == e0.state)
                        &&& final(self).phase_spec() == RunnerPhase::Draining
                        &&& final(self).pause_started_spec() is None
                        &&& actions@ == seq![RunnerAction::PollControl]
                    },
                    None => if e0.current_step + 1 < old(self).steps_len() {
                        &&& e1.current_step == e0.current_step + 1
                        &&& e1.state == e0.state
                        &&& final(self).phase_spec() == RunnerPhase::AwaitingTc
                        &&& actions@ == seq![RunnerAction::ApplyStep((e0.current_step + 1) as usize)]
                    } else {
                        &&& e1.current_step == e0.current_step
                        &&& e1.state == ExecutionState::Completed
                        &&& final(self).phase_spec() == RunnerPhase::Finished
                        &&& actions@ == seq![RunnerAction::Publish, RunnerAction::Finish]
                    },
                }
            },
            !(old(self).phase_spec() is Draining) ==> *final(self) == *old(self) && actions@.len()
                == 0,
    {
        match self.phase {
            RunnerPhase::Draining => {},
            _ => {
                return Vec::new();
            },
        }
        match msg {
            Some(ExecutorControlMessage::Stop) => {
                self.execution.state = ExecutionState::Stopped;
                self.phase = RunnerPhase::Finished;
                vec![RunnerAction::Finish]
            },
            Some(ExecutorControlMessage::Pause) => {
                self.pause_started = Some(now_ms);
                self.execution.state = ExecutionState::Paused { paused_at: now_ms };
                vec![RunnerAction::PollControl]
            },
            Some(ExecutorControlMessage::Resume) => {
                if self.pause_started.is_some() {
                    self.count_pause(now_ms);
                    self.execution.state = ExecutionState::Running;
                }
                vec![RunnerAction::PollControl]
            },
            None => {
                let n = self.execution.scenario.steps.len();
                if self.execution.current_step + 1 < n {
                    self.execution.current_step = self.execution.current_step + 1;
                    self.phase = RunnerPhase::AwaitingTc;
                    vec![RunnerAction::ApplyStep(self.execution.current_step)]
                } else {
                    self.execution.state = ExecutionState::Completed;
                    self.phase = RunnerPhase::Finished;
                    vec![RunnerAction::Publish, RunnerAction::Finish]
                }
            },
        }
    }
}

/// A completed execution has held every step for its full time.
pub proof fn law_completed_means_every_step(r: ScenarioRunner)
    requires
        r.wf(),
        r.execution_spec().state == ExecutionState::Completed,
    ensures
        r.execution_spec().stats.steps_completed == r.steps_len(),
{
}

/// Every step applied so far was counted once, as a success or a failure,
/// and no more steps were applied than the scenario has.
pub proof fn law_each_step_applied_once(r: ScenarioRunner)
    requires
        r.wf(),
    ensures
        r.execution_spec().stats.tc_operations + r.execution_spec().stats.failed_operations
            <= r.steps_len(),
{
}

/// Over any run of events the task keeps the scenario, the namespace, the
/// interface and the start time it began with: each event keeps them, and
/// keeping them carries over from one event to the next.
pub proof fn law_run_keeps_its_targets(
    first: ScenarioExecution,
    middle: ScenarioExecution,
    last: ScenarioExecution,
)
    requires
        same_run(middle, first),
        same_run(last, middle),
    ensures
        same_run(last, first),
{
}

/// A finished task has ended with the execution stopped or completed.
pub proof fn law_finished_means_ended(r: ScenarioRunner)
    requires
        r.wf(),
        r.phase_spec() == RunnerPhase::Finished,
    ensures
        r.execution_spec().state == ExecutionState::Stopped || r.execution_spec().state
            == ExecutionState::Completed,
{
}


/// Why a scenario could not be started.
#[derive(Debug, Clone)]
pub enum ExecutionError {
    /// A scenario already runs on the interface.
    AlreadyRunning { namespace: String, interface: String },
}

/// The keys of the table.
pub open spec fn registry_keys(s: Seq<(String, ScenarioExecution)>) -> Seq<Seq<char>> {
    s.map_values(|e: (String, ScenarioExecution)| e.0@)
}

/// The execution under a key, if any.
pub open spec fn registry_lookup(s: Seq<(String, ScenarioExecution)>, key: Seq<char>) -> Option<
    ScenarioExecution,
> {
    match first_index(registry_keys(s), key) {
        Some(i) => Some(s[i].1),
        None => None,
    }
}

/// The running executions, at most one per interface.
pub struct ExecutionRegistry {
    entries: Vec<(String, ScenarioExecution)>,
}

impl ExecutionRegistry {
    #[verifier::type_invariant]
    spec fn inv(self) -> bool {
        forall|i: int, j: int|
            0 <= i < j < self.entries@.len() ==> #[trigger] registry_keys(self.entries@)[i]
                != #[trigger] registry_keys(self.entries@)[j]
    }

    /// The execution on an interface, if any.
    pub closed spec fn lookup(&self, namespace: Seq<char>, interface: Seq<char>) -> Option<
        ScenarioExecution,
    > {
        registry_lookup(self.entries@, execution_key_spec(namespace, interface))
    }

    /// The execution under a key, if any.
    pub closed spec fn lookup_key(&self, key: Seq<char>) -> Option<ScenarioExecution> {
        registry_lookup(self.entries@, key)
    }

    /// The executions, in the order they were started.
    pub closed spec fn executions(&self) -> Seq<ScenarioExecution> {
        self.entries@.map_values(|e: (String, ScenarioExecution)| e.1)
    }

    /// How many executions run.
    pub closed spec fn count(&self) -> nat {
        self.entries@.len()
    }

    /// No executions.
    pub fn new() -> (r: ExecutionRegistry)
        ensures
            r.count() == 0,
            forall|n: Seq<char>, i: Seq<char>| #[trigger] r.lookup(n, i) is None,
    {
        ExecutionRegistry { entries: Vec::new() }
    }

    fn position(&self, key: &str) -> (r: Option<usize>)
        ensures
            match r {
                Some(k) => k < self.entries@.len() && first_index(registry_keys(self.entries@), key@)
                    == Some(k as int) && self.entries@[k as int].0@ == key@,
                None => first_index(registry_keys(self.entries@), key@) is None,
            },
    {
        let mut i: usize = 0;
        while i < self.entries.len()
            invariant
                i <= self.entries@.len(),
                forall|j: int| 0 <= j < i ==> registry_keys(self.entries@)[j] != key@,
            decreases self.entries.len() - i,
        {
            if str_eq(self.entries[i].0.as_str(), key) {
                proof {
                    lemma_first_index_found(registry_keys(self.entries@), key@, Some(i as int));
                }
                return Some(i);
            }
            i = i + 1;
        }
        proof {
            lemma_first_index_found(registry_keys(self.entries@), key@, None);
        }
        None
    }

    /// Starts `scenario` on an interface at `start_time`: refused while one
    /// runs there; otherwise a running execution at step 0 is recorded and
    /// its key returned.
    pub fn start(
        &mut self,
        scenario: NetworkScenario,
        namespace: &str,
        interface: &str,
        start_time: u64,
    ) -> (r: Result<String, ExecutionError>)
        ensures
            old(self).lookup(namespace@, interface@) is Some ==> (r matches Err(
                ExecutionError::AlreadyRunning { namespace: n, interface: i },
            ) && n@ == namespace@ && i@ == interface@ && final(self).count() == old(self).count()),
            old(self).lookup(namespace@, interface@) is None ==> {
                &&& r matches Ok(k) && k@ == execution_key_spec(namespace@, interface@)
                &&& final(self).lookup(namespace@, interface@) matches Some(e) && e.scenario
                    == scenario && e.state == ExecutionState::Running && e.current_step == 0
                    && e.start_time == start_time && e.target_namespace@ == namespace@
                    && e.target_interface@ == interface@
                &&& final(self).count() == old(self).count() + 1
            },
            forall|k: Seq<char>|
                k != execution_key_spec(namespace@, interface@) ==> #[trigger] final(self).lookup_key(k)
                    == old(self).lookup_key(k),
    {
        proof {
            use_type_invariant(&*self);
        }
        let key = execution_key(namespace, interface);
        match self.position(key.as_str()) {
            Some(_) => Err(
                ExecutionError::AlreadyRunning {
                    namespace: owned(namespace),
                    interface: owned(interface),
                },
            ),
            None => {
                let execution = ScenarioExecution::new(
                    scenario,
                    owned(namespace),
                    owned(interface),
                    start_time,
                );
                let ghost before = self.entries@;
                let mut entries: Vec<(String, ScenarioExecution)> = Vec::new();
                std::mem::swap(&mut entries, &mut self.entries);
                entries.push((owned(key.as_str()), execution));
                proof {
                    let kb = registry_keys(before);
                    let ka = registry_keys(entries@);
                    assert(ka =~= kb.push(key@));
                    lemma_first_index(kb, key@);
                    lemma_first_index_found(ka, key@, Some(before.len() as int));
                    assert forall|q: Seq<char>| q != key@ implies #[trigger] registry_lookup(
                        entries@,
                        q,
                    ) == registry_lookup(before, q) by {
                        lemma_first_index(kb, q);
                        match first_index(kb, q) {
                            Some(i) => {
                                lemma_first_index_found(ka, q, Some(i));
                                assert(entries@[i] == before[i]);
                            },
                            None => {
                                lemma_first_index_found(ka, q, None);
                            },
                        }
                    }
                    assert forall|a: int, b: int| 0 <= a < b < ka.len() implies #[trigger] ka[a]
                        != #[trigger] ka[b] by {
                        if b == before.len() {
                            assert(ka[a] == kb[a]);
                        } else {
                            assert(ka[a] == kb[a] && ka[b] == kb[b]);
                        }
                    }
                }
                self.entries = entries;
                Ok(key)
            },
        }
    }

    /// Stops the execution on an interface: it is removed and given back
    /// marked stopped; `None` when nothing runs there.
    pub fn stop(&mut self, namespace: &str, interface: &str) -> (r: Option<ScenarioExecution>)
        ensures
            match old(self).lookup(namespace@, interface@) {
                Some(e) => r == Some(ScenarioExecution { state: ExecutionState::Stopped, ..e })
                    && final(self).count() + 1 == old(self).count(),
                None => r is None && final(self).count() == old(self).count(),
            },
            final(self).lookup(namespace@, interface@) is None,
            forall|k: Seq<char>|
                k != execution_key_spec(namespace@, interface@) ==> #[trigger] final(self).lookup_key(k)
                    == old(self).lookup_key(k),
    {
        proof {
            use_type_invariant(&*self);
        }
        let key = execution_key(namespace, interface);
        match self.position(key.as_str()) {
            None => None,
            Some(k) => {
                let ghost before = self.entries@;
                let mut entries: Vec<(String, ScenarioExecution)> = Vec::new();
                std::mem::swap(&mut entries, &mut self.entries);
                let (_, mut execution) = entries.remove(k);
                execution.state = ExecutionState::Stopped;
                proof {
                    let kb = registry_keys(before);
                    let ka = registry_keys(entries@);
                    assert(ka =~= kb.remove(k as int));
                    lemma_first_index(kb, key@);
                    assert forall|j: int| 0 <= j < ka.len() implies ka[j] != key@ by {
                        if j < k {
                            assert(ka[j] == kb[j]);
                        } else {
                            assert(ka[j] == kb[j + 1]);
                            assert(kb[k as int] != kb[j + 1]);
                        }
                    }
                    lemma_first_index_found(ka, key@, None);
                    assert forall|q: Seq<char>| q != key@ implies #[trigger] registry_lookup(
                        entries@,
                        q,
                    ) == registry_lookup(before, q) by {
                        lemma_first_index(kb, q);
                        match first_index(kb, q) {
                            Some(i) => {
                                if i < k {
                                    assert(ka[i] == kb[i]);
                                    assert forall|j: int| 0 <= j < i implies ka[j] != q by {
                                        assert(ka[j] == kb[j]);
                                    }
                                    lemma_first_index_found(ka, q, Some(i));
                                    assert(entries@[i] == before[i]);
                                } else {
                                    assert(i != k);
                                    assert(ka[i - 1] == kb[i]);
                                    assert forall|j: int| 0 <= j < i - 1 implies ka[j] != q by {
                                        if j < k {
                                            assert(ka[j] == kb[j]);
                                        } else {
                                            assert(ka[j] == kb[j + 1]);
                                        }
                                    }
                                    lemma_first_index_found(ka, q, Some(i - 1));
                                    assert(entries@[i - 1] == before[i]);
                                }
                            },
                            None => {
                                assert forall|j: int| 0 <= j < ka.len() implies ka[j] != q by {
                                    if j < k {
                                        assert(ka[j] == kb[j]);
                                    } else {
                                        assert(ka[j] == kb[j + 1]);
                                    }
                                }
                                lemma_first_index_found(ka, q, None);
                            },
                        }
                    }
                    assert forall|a: int, b: int| 0 <= a < b < ka.len() implies #[trigger] ka[a]
                        != #[trigger] ka[b] by {
                        let a2 = if a < k { a } else { a + 1 };
                        let b2 = if b < k { b } else { b + 1 };
                        assert(ka[a] == kb[a2] && ka[b] == kb[b2]);
                    }
                }
                self.entries = entries;
                Some(execution)
            },
        }
    }

    /// Marks the execution on an interface paused at `now_ms`; false when
    /// nothing runs there.
    pub fn pause(&mut self, namespace: &str, interface: &str, now_ms: u64) -> (r: bool)
        ensures
            r == old(self).lookup(namespace@, interface@) is Some,
            match old(self).lookup(namespace@, interface@) {
                Some(e) => final(self).lookup(namespace@, interface@) == Some(
                    ScenarioExecution { state: ExecutionState::Paused { paused_at: now_ms }, ..e },
                ),
                None => final(self).lookup(namespace@, interface@) is None,
            },
            final(self).count() == old(self).count(),
            forall|k: Seq<char>|
                k != execution_key_spec(namespace@, interface@) ==> #[trigger] final(self).lookup_key(k)
                    == old(self).lookup_key(k),
    {
        self.set_state(namespace, interface, ExecutionState::Paused { paused_at: now_ms })
    }

    /// Marks the execution on an interface running; false when nothing runs
    /// there.
    pub fn resume(&mut self, namespace: &str, interface: &str) -> (r: bool)
        ensures
            r == old(self).lookup(namespace@, interface@) is Some,
            match old(self).lookup(namespace@, interface@) {
                Some(e) => final(self).lookup(namespace@, interface@) == Some(
                    ScenarioExecution { state: ExecutionState::Running, ..e },
                ),
                None => final(self).lookup(namespace@, interface@) is None,
            },
            final(self).count() == old(self).count(),
            forall|k: Seq<char>|
                k != execution_key_spec(namespace@, interface@) ==> #[trigger] final(self).lookup_key(k)
                    == old(self).lookup_key(k),
    {
        self.set_state(namespace, interface, ExecutionState::Running)
    }

    fn set_state(&mut self, namespace: &str, interface: &str, state: ExecutionState) -> (r: bool)
        ensures
            r == old(self).lookup(namespace@, interface@) is Some,
            match old(self).lookup(namespace@, interface@) {
                Some(e) => final(self).lookup(namespace@, interface@) == Some(
                    ScenarioExecution { state, ..e },
                ),
                None => final(self).lookup(namespace@, interface@) is None,
            },
            final(self).count() == old(self).count(),
            forall|k: Seq<char>|
                k != execution_key_spec(namespace@, interface@) ==> #[trigger] final(self).lookup_key(k)
                    == old(self).lookup_key(k),
    {
        proof {
            use_type_invariant(&*self);
        }
        let key = execution_key(namespace, interface);
        match self.position(key.as_str()) {
            None => false,
            Some(k) => {
                let ghost before = self.entries@;
                let mut entries: Vec<(String, ScenarioExecution)> = Vec::new();
                std::mem::swap(&mut entries, &mut self.entries);
                let (name, mut execution) = entries.remove(k);
                execution.state = state;
                entries.insert(k, (name, execution));
                proof {
                    assert(entries@ =~= before.update(k as int, entries@[k as int]));
                    assert(registry_keys(entries@) =~= registry_keys(before));
                    lemma_first_index_found(registry_keys(entries@), key@, Some(k as int));
                    assert forall|q: Seq<char>| q != key@ implies #[trigger] registry_lookup(
                        entries@,
                        q,
                    ) == registry_lookup(before, q) by {
                        lemma_first_index(registry_keys(before), q);
                        match first_index(registry_keys(before), q) {
                            Some(i) => {
                                assert(i != k);
                                assert(entries@[i] == before[i]);
                            },
                            None => {},
                        }
                    }
                }
                self.entries = entries;
                true
            },
        }
    }

    /// The execution on an interface, if any.
    pub fn get_execution_status(&self, namespace: &str, interface: &str) -> (r: Option<
        &ScenarioExecution,
    >)
        ensures
            match r {
                Some(e) => self.lookup(namespace@, interface@) == Some(*e),
                None => self.lookup(namespace@, interface@) is None,
            },
    {
        let key = execution_key(namespace, interface);
        match self.position(key.as_str()) {
            Some(k) => Some(&self.entries[k].1),
            None => None,
        }
    }

    /// Every execution, in the order they were started.
    pub fn list_active_executions(&self) -> (r: Vec<&ScenarioExecution>)
        ensures
            r@.len() == self.count(),
            forall|i: int| 0 <= i < r@.len() ==> *r@[i] == self.executions()[i],
    {
        let mut r: Vec<&ScenarioExecution> = Vec::new();
        let mut i: usize = 0;
        while i < self.entries.len()
            invariant
                i <= self.entries@.len(),
                r@.len() == i,
                forall|j: int| 0 <= j < i ==> *r@[j] == self.entries@[j].1,
            decreases self.entries.len() - i,
        {
            r.push(&self.entries[i].1);
            i = i + 1;
        }
        r
    }
}

} // verus!
