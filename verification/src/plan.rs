//! What a run is made of: the harness configuration and the workers that
//! follow from it.

use vstd::prelude::*;

verus! {

/// The time the supervisor waits before it asks the workers to stop, in
/// seconds, unless configured otherwise.
pub const DEFAULT_TIMEOUT_SECS: u64 = 300;

/// The name of the worker that may claim the device.
pub const HIGH_PRIORITY_NAME: &'static str = "high";

/// The name of the worker that runs beside it.
pub const LOW_PRIORITY_NAME: &'static str = "low";

/// The configuration of one run of the harness.
#[derive(Clone, Copy, Debug, PartialEq, Eq, Structural)]
pub struct HarnessConfig {
    /// Whether a low-priority worker runs beside the high-priority one.
    pub parallel: bool,
    /// Whether the high-priority worker claims the device before each
    /// workload run.
    pub gpu_stealing: bool,
    /// The time to wait before the workers are asked to stop, in seconds.
    pub timeout_secs: u64,
}

impl Default for HarnessConfig {
    /// Both workers, with stealing, for [`DEFAULT_TIMEOUT_SECS`].
    fn default() -> (config: HarnessConfig)
        ensures
            config == (HarnessConfig {
                parallel: true,
                gpu_stealing: true,
                timeout_secs: DEFAULT_TIMEOUT_SECS,
            }),
    {
        HarnessConfig { parallel: true, gpu_stealing: true, timeout_secs: DEFAULT_TIMEOUT_SECS }
    }
}

/// How many workers a run has.
pub open spec fn worker_count(parallel: bool) -> nat {
    if parallel {
        2
    } else {
        1
    }
}

/// The name of the worker at `index`: the high-priority worker comes first.
pub open spec fn worker_name(index: int) -> Seq<char> {
    if index == 0 {
        HIGH_PRIORITY_NAME@
    } else {
        LOW_PRIORITY_NAME@
    }
}

/// Whether the worker at `index` claims the device: only the high-priority
/// worker does, and only where the configuration says so.
pub open spec fn worker_steals(gpu_stealing: bool, index: int) -> bool {
    index == 0 && gpu_stealing
}

/// What one worker is started with. It is made once and never changed.
#[derive(Debug)]
pub struct WorkerConfig<F> {
    name: &'static str,
    steals_resource: bool,
    fixtures: F,
}

impl<F> WorkerConfig<F> {
    /// The name that identifies the worker in reports.
    pub closed spec fn spec_name(&self) -> &'static str {
        self.name
    }

    /// Whether the worker claims the device before each workload run.
    pub closed spec fn spec_steals_resource(&self) -> bool {
        self.steals_resource
    }

    /// The worker's own copy of the input data.
    pub closed spec fn spec_fixtures(&self) -> F {
        self.fixtures
    }

    /// The configuration of a worker called `name`.
    pub fn new(name: &'static str, steals_resource: bool, fixtures: F) -> (config: Self)
        ensures
            config.spec_name() == name,
            config.spec_steals_resource() == steals_resource,
            config.spec_fixtures() == fixtures,
    {
        WorkerConfig { name, steals_resource, fixtures }
    }

    /// The name that identifies the worker in reports.
    #[verifier::when_used_as_spec(spec_name)]
    pub fn name(&self) -> (name: &'static str)
        ensures
            name == self.spec_name(),
    {
        self.name
    }

    /// Whether the worker claims the device before each workload run.
    #[verifier::when_used_as_spec(spec_steals_resource)]
    pub fn steals_resource(&self) -> (steals: bool)
        ensures
            steals == self.spec_steals_resource(),
    {
        self.steals_resource
    }

    /// The worker's own copy of the input data.
    pub fn fixtures(&self) -> (fixtures: &F)
        ensures
            *fixtures == self.spec_fixtures(),
    {
        &self.fixtures
    }

    /// Gives up the configuration for the input data it holds.
    pub fn into_fixtures(self) -> (fixtures: F)
        ensures
            fixtures == self.spec_fixtures(),
    {
        self.fixtures
    }
}

/// The workers of a run, in the order in which they are started: the
/// high-priority worker, then, in a parallel run, the low-priority one.
///
/// The input data is built once by the caller. The high-priority worker gets
/// a clone of it and the low-priority worker, where there is one, the value
/// itself, so that no two workers share it.
pub fn plan_workers<F: Clone>(config: &HarnessConfig, fixtures: F) -> (plan: Vec<WorkerConfig<F>>)
    ensures
        plan@.len() == worker_count(config.parallel),
        forall|i: int|
            0 <= i < plan@.len() ==> {
                &&& (#[trigger] plan@[i]).spec_name()@ == worker_name(i)
                &&& plan@[i].spec_steals_resource() == worker_steals(config.gpu_stealing, i)
                &&& cloned(fixtures, plan@[i].spec_fixtures())
            },
        config.parallel ==> plan@[1].spec_fixtures() == fixtures,
{
    let mut plan: Vec<WorkerConfig<F>> = Vec::new();
    plan.push(WorkerConfig::new(HIGH_PRIORITY_NAME, config.gpu_stealing, fixtures.clone()));
    if config.parallel {
        plan.push(WorkerConfig::new(LOW_PRIORITY_NAME, false, fixtures));
    }
    plan
}

} // verus!
