//! Network scenarios: their model, loading from directories, and running
//! them on interfaces.
pub mod model;
pub mod execution;
pub mod loader;
pub mod storage;
pub mod requests;

pub use execution::{execution_key, ExecutorControlMessage, ScenarioRunner, StepRequest};
pub use storage::{ScenarioStorageStats, ScenarioStore};
pub use model::{ExecutionState, ExecutionStats, NetworkScenario, ScenarioExecution, ScenarioStep};
