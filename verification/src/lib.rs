//! Decision logic of a harness that arbitrates one exclusive compute device
//! between a high-priority and a low-priority iterative workload.
//!
//! The library holds no threads, clocks or locks. It decides: which action a
//! worker or the supervisor takes next, given what the last action reported.
//! A driver performs the actions and feeds the outcomes back.
//!
//! - [`plan`]: the configuration of a run and the workers that follow from it.
//! - [`worker`]: the loop of one worker, as a state machine.
//! - [`worker_runs`]: what holds of a worker after any sequence of events.
//! - [`supervisor`]: the supervisor of a run, as a state machine.
//! - [`supervisor_runs`]: what holds of a supervisor after any sequence of
//!   events.
//! - [`run_info`]: the statistics that a worker hands over when it ends.

pub mod plan;
pub mod run_info;
pub mod supervisor;
pub mod supervisor_runs;
pub mod worker;
pub mod worker_runs;
