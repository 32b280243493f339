//! Network scenarios: a sequence of netem configurations, each held for a
//! time, and the record of a scenario running on one interface.
use vstd::prelude::*;
use crate::paths::Keyed;
use crate::tc_config::TcNetemConfig;

verus! {

/// One step of a scenario: a netem configuration held for a time.
#[derive(Debug, Clone)]
pub struct ScenarioStep {
    /// How long the configuration is held, in milliseconds.
    pub duration_ms: u64,
    pub description: String,
    pub tc_config: TcNetemConfig,
}

/// A named sequence of steps.
#[derive(Debug, Clone)]
pub struct NetworkScenario {
    pub id: String,
    pub name: String,
    pub description: String,
    pub steps: Vec<ScenarioStep>,
}

impl Keyed for NetworkScenario {
    open spec fn key(&self) -> Seq<char> {
        self.id@
    }

    fn id_str(&self) -> (r: &str) {
        self.id.as_str()
    }
}

/// How long a scenario's steps take together, in milliseconds.
pub open spec fn scenario_duration(steps: Seq<ScenarioStep>) -> nat
    decreases steps.len(),
{
    if steps.len() == 0 {
        0
    } else {
        scenario_duration(steps.drop_last()) + (steps.last().duration_ms as nat)
    }
}

proof fn lemma_duration_monotone(s: Seq<ScenarioStep>, n: int)
    requires
        0 <= n <= s.len(),
    ensures
        scenario_duration(s.subrange(0, n)) <= scenario_duration(s),
    decreases s.len() - n,
{
    if n < s.len() {
        lemma_duration_monotone(s, n + 1);
        assert(s.subrange(0, n + 1).drop_last() =~= s.subrange(0, n));
    } else {
        assert(s.subrange(0, n) =~= s);
    }
}

impl NetworkScenario {
    /// How long the steps take together, in milliseconds.
    pub fn estimated_total_duration_ms(&self) -> (r: u64)
        requires
            scenario_duration(self.steps@) <= u64::MAX,
        ensures
            r == scenario_duration(self.steps@),
    {
        let steps = &self.steps;
        let mut total: u64 = 0;
        let mut i: usize = 0;
        while i < steps.len()
            invariant
                i <= steps@.len(),
                total == scenario_duration(steps@.subrange(0, i as int)),
                scenario_duration(steps@) <= u64::MAX,
            decreases steps.len() - i,
        {
            proof {
                assert(steps@.subrange(0, i + 1).drop_last() =~= steps@.subrange(0, i as int));
                lemma_duration_monotone(steps@, i + 1);
            }
            total = total + steps[i].duration_ms;
            i = i + 1;
        }
        assert(steps@.subrange(0, steps@.len() as int) =~= steps@);
        total
    }
}

/// Where a running scenario stands.
#[derive(Debug, Clone, Copy, PartialEq, Eq, Structural)]
pub enum ExecutionState {
    Running,
    /// Paused at this time, in milliseconds since the Unix epoch.
    Paused { paused_at: u64 },
    Stopped,
    Completed,
}

/// Counters of a running scenario.
#[derive(Debug, Clone)]
pub struct ExecutionStats {
    /// Steps whose configuration was applied.
    pub tc_operations: u64,
    /// Steps whose configuration could not be applied.
    pub failed_operations: u64,
    /// The last failure, if any.
    pub last_error: Option<String>,
    /// Steps held for their full time.
    pub steps_completed: u64,
}

/// A scenario running on one interface.
#[derive(Debug, Clone)]
pub struct ScenarioExecution {
    pub scenario: NetworkScenario,
    /// When it started, in milliseconds since the Unix epoch.
    pub start_time: u64,
    /// The step being applied or held.
    pub current_step: usize,
    pub state: ExecutionState,
    pub target_namespace: String,
    pub target_interface: String,
    pub stats: ExecutionStats,
}

impl ScenarioExecution {
    /// A fresh execution of `scenario` on an interface, running from
    /// `start_time` at step 0 with zero counters.
    pub fn new(scenario: NetworkScenario, namespace: String, interface: String, start_time: u64) -> (e:
        ScenarioExecution)
        ensures
            e.scenario == scenario,
            e.start_time == start_time,
            e.current_step == 0,
            e.state == ExecutionState::Running,
            e.target_namespace == namespace,
            e.target_interface == interface,
            e.stats.tc_operations == 0,
            e.stats.failed_operations == 0,
            e.stats.last_error is None,
            e.stats.steps_completed == 0,
    {
        ScenarioExecution {
            scenario,
            start_time,
            current_step: 0,
            state: ExecutionState::Running,
            target_namespace: namespace,
            target_interface: interface,
            stats: ExecutionStats {
                tc_operations: 0,
                failed_operations: 0,
                last_error: None,
                steps_completed: 0,
            },
        }
    }
}

} // verus!
