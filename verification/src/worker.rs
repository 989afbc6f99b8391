//! The worker: one loop that runs a workload again and again, optionally
//! staking a momentary claim on the shared device before each run, and that
//! looks for a stop request after each run.
//!
//! The loop is written as a state machine. [`Worker::action`] names what the
//! driver must do now; [`Worker::step`] takes what that action reported and
//! moves on. The machine never blocks and never touches the device itself.

use crate::run_info::RunInfo;
use std::time::Duration;
use vstd::prelude::*;

verus! {

/// The iteration ceiling of a worker made with [`Worker::new`]. It keeps the
/// counter from overflowing; a run is not expected to reach it.
pub const MAX_ITERATIONS: u8 = 255;

/// The pause between two availability polls, in milliseconds.
pub const POLL_INTERVAL_MILLIS: u64 = 100;

/// Why a worker's loop ended.
#[derive(Clone, Copy, Debug, PartialEq, Eq, Structural)]
pub enum StopReason {
    /// A stop request was read from the channel.
    Cancelled,
    /// The sending side of the channel was gone.
    ChannelClosed,
    /// The iteration counter reached the ceiling.
    CeilingReached,
}

/// Where a worker stands: which outcome it is waiting for.
#[derive(Clone, Copy, Debug, PartialEq, Eq, Structural)]
pub enum WorkerPhase {
    /// Waiting for the outcome of a non-blocking acquire.
    Claiming,
    /// Waiting for the outcome of an availability query.
    Polling,
    /// Waiting for the poll pause to pass.
    Sleeping,
    /// Waiting for the release of the handle just acquired.
    Releasing,
    /// Waiting for the workload to return.
    Working,
    /// Waiting for the outcome of the non-blocking look at the channel.
    Checking,
    /// The loop has ended.
    Stopped(StopReason),
}

/// What the driver must do for the worker now.
#[derive(Clone, Copy, Debug, PartialEq, Eq, Structural)]
pub enum WorkerAction {
    /// Try to acquire the device lock without blocking.
    TryAcquire,
    /// Ask whether the device is free, without blocking.
    CheckAvailable,
    /// Pause for the given number of milliseconds.
    Sleep(u64),
    /// Release the handle that the last acquire returned.
    Release,
    /// Run the workload once, to completion.
    RunWorkload,
    /// Look at the channel without blocking.
    CheckCancellation,
    /// Nothing is left to do but to collect the run statistics.
    Finish,
}

/// What a non-blocking look at the channel found.
#[derive(Clone, Copy, Debug, PartialEq, Eq, Structural)]
pub enum CancelCheck {
    /// A stop request was waiting.
    Signalled,
    /// The sender is gone and nothing was waiting.
    Closed,
    /// Nothing was waiting and the sender is still there.
    Pending,
}

/// What an action reported.
#[derive(Clone, Copy, Debug, PartialEq, Eq, Structural)]
pub enum WorkerEvent {
    /// The acquire returned a handle.
    Acquired,
    /// The acquire found the lock held by another.
    Busy,
    /// The availability query returned this answer.
    Availability(bool),
    /// The pause has passed.
    Slept,
    /// The handle was released.
    Released,
    /// The workload returned.
    WorkloadDone,
    /// The look at the channel found this.
    Cancellation(CancelCheck),
}

/// Why [`Worker::step`] refused an event.
#[derive(Clone, Copy, Debug, PartialEq, Eq, Structural)]
pub enum WorkerError {
    /// The worker has stopped and takes no more events.
    AlreadyStopped,
    /// The event does not answer the action that the worker is waiting on.
    UnexpectedEvent,
}

/// The mathematical state of a worker.
pub ghost struct WorkerModel {
    /// Whether the worker claims the device before each workload run.
    pub steals_resource: bool,
    /// The iteration count at which the loop ends by itself.
    pub ceiling: nat,
    /// Workload runs completed and followed by a look at the channel that
    /// found nothing.
    pub iterations: nat,
    /// The outcome the worker is waiting for.
    pub phase: WorkerPhase,
}

/// The phase in which an iteration begins.
pub open spec fn entry_phase(steals_resource: bool) -> WorkerPhase {
    if steals_resource {
        WorkerPhase::Claiming
    } else {
        WorkerPhase::Working
    }
}

/// The action that a phase waits on.
pub open spec fn action_of(phase: WorkerPhase) -> WorkerAction {
    match phase {
        WorkerPhase::Claiming => WorkerAction::TryAcquire,
        WorkerPhase::Polling => WorkerAction::CheckAvailable,
        WorkerPhase::Sleeping => WorkerAction::Sleep(POLL_INTERVAL_MILLIS),
        WorkerPhase::Releasing => WorkerAction::Release,
        WorkerPhase::Working => WorkerAction::RunWorkload,
        WorkerPhase::Checking => WorkerAction::CheckCancellation,
        WorkerPhase::Stopped(_) => WorkerAction::Finish,
    }
}

/// Whether `event` is a possible outcome of the action that `phase` waits on.
pub open spec fn answers(phase: WorkerPhase, event: WorkerEvent) -> bool {
    match phase {
        WorkerPhase::Claiming => event == WorkerEvent::Acquired || event == WorkerEvent::Busy,
        WorkerPhase::Polling => event is Availability,
        WorkerPhase::Sleeping => event == WorkerEvent::Slept,
        WorkerPhase::Releasing => event == WorkerEvent::Released,
        WorkerPhase::Working => event == WorkerEvent::WorkloadDone,
        WorkerPhase::Checking => event is Cancellation,
        WorkerPhase::Stopped(_) => false,
    }
}

impl WorkerModel {
    /// The state of a worker before its first action.
    pub open spec fn begin(steals_resource: bool, ceiling: nat) -> WorkerModel {
        WorkerModel {
            steals_resource,
            ceiling,
            iterations: 0,
            phase: if ceiling == 0 {
                WorkerPhase::Stopped(StopReason::CeilingReached)
            } else {
                entry_phase(steals_resource)
            },
        }
    }

    /// The states that a worker can be in.
    pub open spec fn wf(self) -> bool {
        &&& self.iterations <= self.ceiling
        &&& self.phase == WorkerPhase::Stopped(StopReason::CeilingReached) <==> self.iterations
            == self.ceiling
        &&& !self.steals_resource ==> self.phase is Working || self.phase is Checking
            || self.phase is Stopped
    }

    /// Whether the loop has ended.
    pub open spec fn stopped(self) -> bool {
        self.phase is Stopped
    }

    /// What the driver must do now.
    pub open spec fn action(self) -> WorkerAction {
        action_of(self.phase)
    }

    /// Whether the worker takes `event` in this state.
    pub open spec fn accepts(self, event: WorkerEvent) -> bool {
        answers(self.phase, event)
    }

    /// This state with another phase.
    pub open spec fn at(self, phase: WorkerPhase) -> WorkerModel {
        WorkerModel { phase, ..self }
    }

    /// The state after a look at the channel that found nothing: the iteration
    /// counts, and the loop ends if that reaches the ceiling.
    pub open spec fn counted(self) -> WorkerModel {
        WorkerModel {
            iterations: self.iterations + 1,
            phase: if self.iterations + 1 >= self.ceiling {
                WorkerPhase::Stopped(StopReason::CeilingReached)
            } else {
                entry_phase(self.steals_resource)
            },
            ..self
        }
    }

    /// The state after `event`. An event that the worker does not take leaves
    /// the state as it is.
    pub open spec fn next(self, event: WorkerEvent) -> WorkerModel {
        match (self.phase, event) {
            (WorkerPhase::Claiming, WorkerEvent::Acquired) => self.at(WorkerPhase::Releasing),
            (WorkerPhase::Claiming, WorkerEvent::Busy) => self.at(WorkerPhase::Polling),
            (WorkerPhase::Polling, WorkerEvent::Availability(free)) => if free {
                self.at(WorkerPhase::Claiming)
            } else {
                self.at(WorkerPhase::Sleeping)
            },
            (WorkerPhase::Sleeping, WorkerEvent::Slept) => self.at(WorkerPhase::Polling),
            (WorkerPhase::Releasing, WorkerEvent::Released) => self.at(WorkerPhase::Working),
            (WorkerPhase::Working, WorkerEvent::WorkloadDone) => self.at(WorkerPhase::Checking),
            (WorkerPhase::Checking, WorkerEvent::Cancellation(found)) => match found {
                CancelCheck::Signalled => self.at(WorkerPhase::Stopped(StopReason::Cancelled)),
                CancelCheck::Closed => self.at(WorkerPhase::Stopped(StopReason::ChannelClosed)),
                CancelCheck::Pending => self.counted(),
            },
            _ => self,
        }
    }
}

/// One worker loop, as a state machine. It is neither copied nor cloned, so
/// that [`Worker::finish`] hands over its statistics once.
#[derive(Debug)]
pub struct Worker {
    steals_resource: bool,
    ceiling: u8,
    iterations: u8,
    phase: WorkerPhase,
}

impl View for Worker {
    type V = WorkerModel;

    closed spec fn view(&self) -> WorkerModel {
        WorkerModel {
            steals_resource: self.steals_resource,
            ceiling: self.ceiling as nat,
            iterations: self.iterations as nat,
            phase: self.phase,
        }
    }
}

impl Worker {
    #[verifier::type_invariant]
    spec fn inv(self) -> bool {
        self@.wf()
    }

    /// A worker about to begin its first iteration, with the ceiling
    /// [`MAX_ITERATIONS`].
    pub fn new(steals_resource: bool) -> (worker: Worker)
        ensures
            worker@ == WorkerModel::begin(steals_resource, MAX_ITERATIONS as nat),
    {
        Worker::with_ceiling(steals_resource, MAX_ITERATIONS)
    }

    /// A worker about to begin its first iteration, whose loop ends by itself
    /// after `ceiling` counted iterations. With a ceiling of zero it has
    /// ended before it began.
    pub fn with_ceiling(steals_resource: bool, ceiling: u8) -> (worker: Worker)
        ensures
            worker@ == WorkerModel::begin(steals_resource, ceiling as nat),
    {
        let phase = if ceiling == 0 {
            WorkerPhase::Stopped(StopReason::CeilingReached)
        } else if steals_resource {
            WorkerPhase::Claiming
        } else {
            WorkerPhase::Working
        };
        Worker { steals_resource, ceiling, iterations: 0, phase }
    }

    /// Whether this worker claims the device before each workload run.
    pub fn steals_resource(&self) -> (steals: bool)
        ensures
            steals == self@.steals_resource,
    {
        self.steals_resource
    }

    /// The iteration count at which the loop ends by itself.
    pub fn ceiling(&self) -> (ceiling: u8)
        ensures
            ceiling == self@.ceiling,
    {
        self.ceiling
    }

    /// The iterations counted so far.
    pub fn iterations(&self) -> (count: u8)
        ensures
            count == self@.iterations,
            count <= self@.ceiling,
    {
        proof {
            use_type_invariant(self);
        }
        self.iterations
    }

    /// The outcome the worker is waiting for.
    pub fn phase(&self) -> (phase: WorkerPhase)
        ensures
            phase == self@.phase,
    {
        self.phase
    }

    /// Whether the loop has ended.
    pub fn is_stopped(&self) -> (stopped: bool)
        ensures
            stopped == self@.stopped(),
    {
        match self.phase {
            WorkerPhase::Stopped(_) => true,
            _ => false,
        }
    }

    /// Why the loop ended, once it has.
    pub fn stop_reason(&self) -> (reason: Option<StopReason>)
        ensures
            reason == match self@.phase {
                WorkerPhase::Stopped(why) => Some(why),
                _ => None,
            },
    {
        match self.phase {
            WorkerPhase::Stopped(why) => Some(why),
            _ => None,
        }
    }

    /// What the driver must do now.
    pub fn action(&self) -> (action: WorkerAction)
        ensures
            action == self@.action(),
            self@.wf(),
    {
        proof {
            use_type_invariant(self);
        }
        match self.phase {
            WorkerPhase::Claiming => WorkerAction::TryAcquire,
            WorkerPhase::Polling => WorkerAction::CheckAvailable,
            WorkerPhase::Sleeping => WorkerAction::Sleep(POLL_INTERVAL_MILLIS),
            WorkerPhase::Releasing => WorkerAction::Release,
            WorkerPhase::Working => WorkerAction::RunWorkload,
            WorkerPhase::Checking => WorkerAction::CheckCancellation,
            WorkerPhase::Stopped(_) => WorkerAction::Finish,
        }
    }

    /// Takes the outcome of the pending action and returns the next action.
    ///
    /// An event that does not answer the pending action is refused and leaves
    /// the worker as it was.
    pub fn step(&mut self, event: WorkerEvent) -> (result: Result<WorkerAction, WorkerError>)
        ensures
            final(self)@ == old(self)@.next(event),
            final(self)@.wf(),
            old(self)@.accepts(event) ==> result == Ok::<WorkerAction, WorkerError>(
                final(self)@.action(),
            ),
            old(self)@.stopped() ==> result == Err::<WorkerAction, WorkerError>(
                WorkerError::AlreadyStopped,
            ),
            !old(self)@.stopped() && !old(self)@.accepts(event) ==> result == Err::<
                WorkerAction,
                WorkerError,
            >(WorkerError::UnexpectedEvent),
    {
        proof {
            use_type_invariant(&*self);
        }
        let steals_resource = self.steals_resource;
        let ceiling = self.ceiling;
        let iterations = self.iterations;
        let phase = match (self.phase, event) {
            (WorkerPhase::Claiming, WorkerEvent::Acquired) => WorkerPhase::Releasing,
            (WorkerPhase::Claiming, WorkerEvent::Busy) => WorkerPhase::Polling,
            (WorkerPhase::Polling, WorkerEvent::Availability(free)) => if free {
                WorkerPhase::Claiming
            } else {
                WorkerPhase::Sleeping
            },
            (WorkerPhase::Sleeping, WorkerEvent::Slept) => WorkerPhase::Polling,
            (WorkerPhase::Releasing, WorkerEvent::Released) => WorkerPhase::Working,
            (WorkerPhase::Working, WorkerEvent::WorkloadDone) => WorkerPhase::Checking,
            (WorkerPhase::Checking, WorkerEvent::Cancellation(found)) => match found {
                CancelCheck::Signalled => WorkerPhase::Stopped(StopReason::Cancelled),
                CancelCheck::Closed => WorkerPhase::Stopped(StopReason::ChannelClosed),
                CancelCheck::Pending => {
                    let counted: u8 = iterations + 1;
                    let phase = if counted >= ceiling {
                        WorkerPhase::Stopped(StopReason::CeilingReached)
                    } else if steals_resource {
                        WorkerPhase::Claiming
                    } else {
                        WorkerPhase::Working
                    };
                    *self = Worker { steals_resource, ceiling, iterations: counted, phase };
                    return Ok(self.action());
                },
            },
            (WorkerPhase::Stopped(_), _) => {
                return Err(WorkerError::AlreadyStopped);
            },
            _ => {
                return Err(WorkerError::UnexpectedEvent);
            },
        };
        *self = Worker { steals_resource, ceiling, iterations, phase };
        Ok(self.action())
    }

    /// Ends the worker's life and hands over its run statistics, with
    /// `elapsed` as the time it was active. A worker whose loop has not ended
    /// has no statistics to give.
    pub fn finish(self, elapsed: Duration) -> (info: Option<RunInfo>)
        ensures
            info.is_some() == self@.stopped(),
            self@.stopped() ==> info.unwrap().spec_elapsed() == elapsed
                && info.unwrap().spec_iterations() == self@.iterations,
    {
        if self.is_stopped() {
            Some(RunInfo::new(elapsed, self.iterations))
        } else {
            None
        }
    }
}

} // verus!
