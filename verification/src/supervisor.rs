//! The supervisor: it starts the workers, waits for the timeout, asks every
//! worker to stop, waits for each to end and reports what each has done.
//!
//! Like the worker it is a state machine. [`Supervisor::action`] names what
//! the driver must do now; [`Supervisor::step`] takes what that action
//! reported and moves on. Threads, channels and the clock belong to the
//! driver.

use crate::plan::{worker_count, worker_name, HarnessConfig, HIGH_PRIORITY_NAME, LOW_PRIORITY_NAME};
use crate::run_info::RunInfo;
use vstd::prelude::*;

verus! {

/// What ended a run before its report. The number is the worker's place in
/// the order in which the workers are started.
#[derive(Clone, Copy, Debug, PartialEq, Eq, Structural)]
pub enum Failure {
    /// The thread of this worker could not be created.
    SpawnFailure(usize),
    /// The thread of this worker ended abnormally: its workload failed.
    WorkloadFailure(usize),
}

/// Where the supervisor stands.
#[derive(Clone, Copy, Debug, PartialEq, Eq, Structural)]
pub enum SupervisorPhase {
    /// Starting the workers, one after the other.
    Spawning,
    /// All workers run; the timeout has not passed yet.
    Waiting,
    /// Sending each worker its stop request.
    Cancelling,
    /// Waiting for each worker to end, in the order in which they started.
    Joining,
    /// Every worker has ended and handed over its statistics.
    Done,
    /// The run was given up.
    Failed(Failure),
}

/// What the driver must do for the supervisor now.
#[derive(Clone, Copy, Debug, PartialEq, Eq, Structural)]
pub enum SupervisorAction {
    /// Start the worker at this place, with its own channel.
    Spawn(usize),
    /// Sleep for this many seconds.
    Sleep(u64),
    /// Send a stop request on the channel of the worker at this place.
    SendCancel(usize),
    /// Wait for the worker at this place to end.
    Join(usize),
    /// Print the reports.
    Report,
    /// Give up the run with a visible error.
    Abort(Failure),
}

/// What an action reported.
#[derive(Clone, Copy, Debug)]
pub enum SupervisorEvent {
    /// The worker was started.
    Spawned,
    /// The worker's thread could not be created.
    SpawnFailed,
    /// The sleep has ended.
    TimeoutElapsed,
    /// The stop request was sent. The flag says whether the channel took it:
    /// it does not where the worker has ended by itself before.
    CancelSent(bool),
    /// The worker ended and handed over these statistics.
    Joined(RunInfo),
    /// The worker's thread ended abnormally.
    JoinFailed,
}

/// Why [`Supervisor::step`] refused an event.
#[derive(Clone, Copy, Debug, PartialEq, Eq, Structural)]
pub enum SupervisorError {
    /// The run is over, by a report or by a failure, and takes no more events.
    AlreadyOver,
    /// The event does not answer the action that the supervisor is waiting on.
    UnexpectedEvent,
}

/// One line of the report: a worker's name and its run statistics.
#[derive(Clone, Copy, Debug)]
pub struct WorkerReport {
    /// The worker's name.
    pub name: &'static str,
    /// What the worker handed over when it ended.
    pub info: RunInfo,
}

/// The name of the worker at `index`, as the value that reports carry.
pub open spec fn name_at(index: int) -> &'static str {
    if index == 0 {
        HIGH_PRIORITY_NAME
    } else {
        LOW_PRIORITY_NAME
    }
}

/// Whether `event` is a possible outcome of the action that `phase` waits on.
pub open spec fn answers(phase: SupervisorPhase, event: SupervisorEvent) -> bool {
    match phase {
        SupervisorPhase::Spawning => event is Spawned || event is SpawnFailed,
        SupervisorPhase::Waiting => event is TimeoutElapsed,
        SupervisorPhase::Cancelling => event is CancelSent,
        SupervisorPhase::Joining => event is Joined || event is JoinFailed,
        SupervisorPhase::Done => false,
        SupervisorPhase::Failed(_) => false,
    }
}

/// The mathematical state of a supervisor.
pub ghost struct SupervisorModel {
    /// The configuration of the run.
    pub config: HarnessConfig,
    /// Where the supervisor stands.
    pub phase: SupervisorPhase,
    /// How many workers have been started.
    pub spawned: nat,
    /// How many workers have been sent their stop request.
    pub cancelled: nat,
    /// The reports of the workers that have ended, in the order in which the
    /// workers were started.
    pub reports: Seq<WorkerReport>,
}

impl SupervisorModel {
    /// The state of a supervisor before its first action.
    pub open spec fn begin(config: HarnessConfig) -> SupervisorModel {
        SupervisorModel {
            config,
            phase: SupervisorPhase::Spawning,
            spawned: 0,
            cancelled: 0,
            reports: Seq::empty(),
        }
    }

    /// How many workers the run has.
    pub open spec fn count(self) -> nat {
        worker_count(self.config.parallel)
    }

    /// The states that a supervisor can be in.
    pub open spec fn wf(self) -> bool {
        &&& match self.phase {
            SupervisorPhase::Spawning => self.spawned < self.count() && self.cancelled == 0
                && self.reports.len() == 0,
            SupervisorPhase::Waiting => self.spawned == self.count() && self.cancelled == 0
                && self.reports.len() == 0,
            SupervisorPhase::Cancelling => self.spawned == self.count() && self.cancelled
                < self.count() && self.reports.len() == 0,
            SupervisorPhase::Joining => self.spawned == self.count() && self.cancelled
                == self.count() && self.reports.len() < self.count(),
            SupervisorPhase::Done => self.spawned == self.count() && self.cancelled
                == self.count() && self.reports.len() == self.count(),
            SupervisorPhase::Failed(Failure::SpawnFailure(at)) => self.spawned == at && at
                < self.count() && self.cancelled == 0 && self.reports.len() == 0,
            SupervisorPhase::Failed(Failure::WorkloadFailure(at)) => self.spawned == self.count()
                && self.cancelled == self.count() && self.reports.len() == at && at
                < self.count(),
        }
        &&& forall|k: int|
            0 <= k < self.reports.len() ==> (#[trigger] self.reports[k]).name@ == worker_name(k)
    }

    /// Whether the run is over, by a report or by a failure.
    pub open spec fn over(self) -> bool {
        self.phase is Done || self.phase is Failed
    }

    /// What the driver must do now.
    pub open spec fn action(self) -> SupervisorAction {
        match self.phase {
            SupervisorPhase::Spawning => SupervisorAction::Spawn(self.spawned as usize),
            SupervisorPhase::Waiting => SupervisorAction::Sleep(self.config.timeout_secs),
            SupervisorPhase::Cancelling => SupervisorAction::SendCancel(self.cancelled as usize),
            SupervisorPhase::Joining => SupervisorAction::Join(self.reports.len() as usize),
            SupervisorPhase::Done => SupervisorAction::Report,
            SupervisorPhase::Failed(failure) => SupervisorAction::Abort(failure),
        }
    }

    /// Whether the supervisor takes `event` in this state.
    pub open spec fn accepts(self, event: SupervisorEvent) -> bool {
        answers(self.phase, event)
    }

    /// The state after `event`. An event that the supervisor does not take
    /// leaves the state as it is.
    pub open spec fn next(self, event: SupervisorEvent) -> SupervisorModel {
        match (self.phase, event) {
            (SupervisorPhase::Spawning, SupervisorEvent::Spawned) => SupervisorModel {
                spawned: self.spawned + 1,
                phase: if self.spawned + 1 >= self.count() {
                    SupervisorPhase::Waiting
                } else {
                    SupervisorPhase::Spawning
                },
                ..self
            },
            (SupervisorPhase::Spawning, SupervisorEvent::SpawnFailed) => SupervisorModel {
                phase: SupervisorPhase::Failed(Failure::SpawnFailure(self.spawned as usize)),
                ..self
            },
            (SupervisorPhase::Waiting, SupervisorEvent::TimeoutElapsed) => SupervisorModel {
                phase: SupervisorPhase::Cancelling,
                ..self
            },
            (SupervisorPhase::Cancelling, SupervisorEvent::CancelSent(_)) => SupervisorModel {
                cancelled: self.cancelled + 1,
                phase: if self.cancelled + 1 >= self.count() {
                    SupervisorPhase::Joining
                } else {
                    SupervisorPhase::Cancelling
                },
                ..self
            },
            (SupervisorPhase::Joining, SupervisorEvent::Joined(info)) => SupervisorModel {
                reports: self.reports.push(
                    WorkerReport { name: name_at(self.reports.len() as int), info },
                ),
                phase: if self.reports.len() + 1 >= self.count() {
                    SupervisorPhase::Done
                } else {
                    SupervisorPhase::Joining
                },
                ..self
            },
            (SupervisorPhase::Joining, SupervisorEvent::JoinFailed) => SupervisorModel {
                phase: SupervisorPhase::Failed(
                    Failure::WorkloadFailure(self.reports.len() as usize),
                ),
                ..self
            },
            _ => self,
        }
    }
}

/// The supervisor of one run, as a state machine.
#[derive(Debug)]
pub struct Supervisor {
    config: HarnessConfig,
    phase: SupervisorPhase,
    spawned: usize,
    cancelled: usize,
    reports: Vec<WorkerReport>,
}

impl View for Supervisor {
    type V = SupervisorModel;

    closed spec fn view(&self) -> SupervisorModel {
        SupervisorModel {
            config: self.config,
            phase: self.phase,
            spawned: self.spawned as nat,
            cancelled: self.cancelled as nat,
            reports: self.reports@,
        }
    }
}

impl Supervisor {
    #[verifier::type_invariant]
    spec fn inv(self) -> bool {
        self@.wf()
    }

    /// A supervisor about to start the first worker of a run.
    pub fn new(config: HarnessConfig) -> (supervisor: Supervisor)
        ensures
            supervisor@ == SupervisorModel::begin(config),
    {
        Supervisor {
            config,
            phase: SupervisorPhase::Spawning,
            spawned: 0,
            cancelled: 0,
            reports: Vec::new(),
        }
    }

    /// The configuration of the run.
    pub fn config(&self) -> (config: HarnessConfig)
        ensures
            config == self@.config,
    {
        self.config
    }

    /// How many workers the run has.
    pub fn worker_count(&self) -> (count: usize)
        ensures
            count == self@.count(),
    {
        if self.config.parallel {
            2
        } else {
            1
        }
    }

    /// Where the supervisor stands.
    pub fn phase(&self) -> (phase: SupervisorPhase)
        ensures
            phase == self@.phase,
    {
        self.phase
    }

    /// Whether the run is over, by a report or by a failure.
    pub fn is_over(&self) -> (over: bool)
        ensures
            over == self@.over(),
    {
        match self.phase {
            SupervisorPhase::Done => true,
            SupervisorPhase::Failed(_) => true,
            _ => false,
        }
    }

    /// What ended the run before its report, if anything did.
    pub fn failure(&self) -> (failure: Option<Failure>)
        ensures
            failure == match self@.phase {
                SupervisorPhase::Failed(why) => Some(why),
                _ => None,
            },
    {
        match self.phase {
            SupervisorPhase::Failed(why) => Some(why),
            _ => None,
        }
    }

    /// The reports collected so far, in the order in which the workers were
    /// started. Once the run is done there is one for each worker.
    pub fn reports(&self) -> (reports: &Vec<WorkerReport>)
        ensures
            reports@ == self@.reports,
            self@.wf(),
    {
        proof {
            use_type_invariant(self);
        }
        &self.reports
    }

    /// What the driver must do now.
    pub fn action(&self) -> (action: SupervisorAction)
        ensures
            action == self@.action(),
            self@.wf(),
    {
        proof {
            use_type_invariant(self);
        }
        match self.phase {
            SupervisorPhase::Spawning => SupervisorAction::Spawn(self.spawned),
            SupervisorPhase::Waiting => SupervisorAction::Sleep(self.config.timeout_secs),
            SupervisorPhase::Cancelling => SupervisorAction::SendCancel(self.cancelled),
            SupervisorPhase::Joining => SupervisorAction::Join(self.reports.len()),
            SupervisorPhase::Done => SupervisorAction::Report,
            SupervisorPhase::Failed(failure) => SupervisorAction::Abort(failure),
        }
    }

    /// Takes the outcome of the pending action and returns the next action.
    ///
    /// A stop request that the channel did not take counts as sent: the worker
    /// has ended by itself. An event that does not answer the pending action
    /// is refused and leaves the supervisor as it was.
    pub fn step(&mut self, event: SupervisorEvent) -> (result: Result<
        SupervisorAction,
        SupervisorError,
    >)
        ensures
            final(self)@ == old(self)@.next(event),
            final(self)@.wf(),
            old(self)@.accepts(event) ==> result == Ok::<SupervisorAction, SupervisorError>(
                final(self)@.action(),
            ),
            old(self)@.over() ==> result == Err::<SupervisorAction, SupervisorError>(
                SupervisorError::AlreadyOver,
            ),
            !old(self)@.over() && !old(self)@.accepts(event) ==> result == Err::<
                SupervisorAction,
                SupervisorError,
            >(SupervisorError::UnexpectedEvent),
    {
        proof {
            use_type_invariant(&*self);
        }
        let count = self.worker_count();
        match (self.phase, event) {
            (SupervisorPhase::Spawning, SupervisorEvent::Spawned) => {
                let spawned: usize = self.spawned + 1;
                let phase = if spawned >= count {
                    SupervisorPhase::Waiting
                } else {
                    SupervisorPhase::Spawning
                };
                *self = Supervisor {
                    config: self.config,
                    phase,
                    spawned,
                    cancelled: self.cancelled,
                    reports: Vec::new(),
                };
                assert(self.reports@ =~= old(self).reports@);
            },
            (SupervisorPhase::Spawning, SupervisorEvent::SpawnFailed) => {
                self.phase = SupervisorPhase::Failed(Failure::SpawnFailure(self.spawned));
            },
            (SupervisorPhase::Waiting, SupervisorEvent::TimeoutElapsed) => {
                self.phase = SupervisorPhase::Cancelling;
            },
            (SupervisorPhase::Cancelling, SupervisorEvent::CancelSent(_)) => {
                let cancelled: usize = self.cancelled + 1;
                let phase = if cancelled >= count {
                    SupervisorPhase::Joining
                } else {
                    SupervisorPhase::Cancelling
                };
                *self = Supervisor {
                    config: self.config,
                    phase,
                    spawned: self.spawned,
                    cancelled,
                    reports: Vec::new(),
                };
                assert(self.reports@ =~= old(self).reports@);
            },
            (SupervisorPhase::Joining, SupervisorEvent::Joined(info)) => {
                let place: usize = self.reports.len();
                let name = if place == 0 {
                    HIGH_PRIORITY_NAME
                } else {
                    LOW_PRIORITY_NAME
                };
                let phase = if place + 1 >= count {
                    SupervisorPhase::Done
                } else {
                    SupervisorPhase::Joining
                };
                let mut reports: Vec<WorkerReport> = Vec::new();
                std::mem::swap(&mut reports, &mut self.reports);
                reports.push(WorkerReport { name, info });
                *self = Supervisor {
                    config: self.config,
                    phase,
                    spawned: self.spawned,
                    cancelled: self.cancelled,
                    reports,
                };
            },
            (SupervisorPhase::Joining, SupervisorEvent::JoinFailed) => {
                self.phase = SupervisorPhase::Failed(
                    Failure::WorkloadFailure(self.reports.len()),
                );
            },
            (SupervisorPhase::Done, _) => {
                return Err(SupervisorError::AlreadyOver);
            },
            (SupervisorPhase::Failed(_), _) => {
                return Err(SupervisorError::AlreadyOver);
            },
            _ => {
                return Err(SupervisorError::UnexpectedEvent);
            },
        }
        Ok(self.action())
    }
}

} // verus!
