//! Whole runs of a worker: what holds of the state after any sequence of
//! events, whatever the device, the workload and the channel did.

use crate::plan::{worker_steals, WorkerConfig};
use crate::worker::{
    CancelCheck, StopReason, Worker, WorkerAction, WorkerEvent, WorkerModel, WorkerPhase,
};
use vstd::prelude::*;

verus! {

impl WorkerModel {
    /// The state after the events of `events`, taken in order.
    pub open spec fn run(self, events: Seq<WorkerEvent>) -> WorkerModel
        decreases events.len(),
    {
        if events.len() == 0 {
            self
        } else {
            self.run(events.drop_last()).next(events.last())
        }
    }

    /// How many workload runs come to their end during `events`.
    pub open spec fn completed(self, events: Seq<WorkerEvent>) -> nat
        decreases events.len(),
    {
        if events.len() == 0 {
            0
        } else {
            let before = self.run(events.drop_last());
            let ends_here: nat = if before.phase is Working && events.last()
                == WorkerEvent::WorkloadDone {
                1
            } else {
                0
            };
            self.completed(events.drop_last()) + ends_here
        }
    }
}

impl Worker {
    /// Feeds the worker the events of `events` in order and returns the action
    /// that is pending afterwards. An event that the worker does not take
    /// changes nothing.
    pub fn replay(&mut self, events: &Vec<WorkerEvent>) -> (action: WorkerAction)
        ensures
            final(self)@ == old(self)@.run(events@),
            final(self)@.wf(),
            action == final(self)@.action(),
    {
        let _ = self.action();
        let mut at: usize = 0;
        while at < events.len()
            invariant
                at <= events.len(),
                self@ == old(self)@.run(events@.take(at as int)),
                self@.wf(),
            decreases events.len() - at,
        {
            let _ = self.step(events[at]);
            proof {
                let upto = events@.take(at + 1);
                assert(upto.drop_last() =~= events@.take(at as int));
                assert(upto.last() == events@[at as int]);
            }
            at += 1;
        }
        proof {
            assert(events@.take(at as int) =~= events@);
        }
        self.action()
    }
}

/// Whether every look at the channel in `events` finds a stop request or a
/// closed channel: what a worker sees once its stop request has been sent.
pub open spec fn stop_requested(events: Seq<WorkerEvent>) -> bool {
    forall|k: int|
        0 <= k < events.len() ==> #[trigger] events[k] != WorkerEvent::Cancellation(
            CancelCheck::Pending,
        )
}

/// One event keeps a worker among the states that a worker can be in, keeps
/// its configuration, and never lowers its iteration count.
pub proof fn lemma_next_keeps_wf(m: WorkerModel, event: WorkerEvent)
    requires
        m.wf(),
    ensures
        m.next(event).wf(),
        m.next(event).steals_resource == m.steals_resource,
        m.next(event).ceiling == m.ceiling,
        m.iterations <= m.next(event).iterations <= m.iterations + 1,
        !m.accepts(event) ==> m.next(event) == m,
{
}

/// Running `first` and then `then` is running the two in a row.
pub proof fn lemma_run_concat(m: WorkerModel, first: Seq<WorkerEvent>, then: Seq<WorkerEvent>)
    ensures
        m.run(first + then) == m.run(first).run(then),
    decreases then.len(),
{
    if then.len() == 0 {
        assert(first + then =~= first);
    } else {
        lemma_run_concat(m, first, then.drop_last());
        assert((first + then).drop_last() =~= first + then.drop_last());
        assert((first + then).last() == then.last());
    }
}

/// Any run keeps a worker among the states that a worker can be in and keeps
/// its configuration. The iteration count never goes down and never passes
/// the ceiling.
pub proof fn lemma_run_keeps_wf(m: WorkerModel, events: Seq<WorkerEvent>)
    requires
        m.wf(),
    ensures
        m.run(events).wf(),
        m.run(events).steals_resource == m.steals_resource,
        m.run(events).ceiling == m.ceiling,
        m.iterations <= m.run(events).iterations <= m.ceiling,
        m.run(events).iterations <= m.iterations + events.len(),
    decreases events.len(),
{
    if events.len() > 0 {
        lemma_run_keeps_wf(m, events.drop_last());
        lemma_next_keeps_wf(m.run(events.drop_last()), events.last());
    }
}

/// The iteration count only grows along a run: after more events it is at
/// least what it was, and still at most the ceiling.
pub proof fn lemma_iterations_monotone(
    m: WorkerModel,
    events: Seq<WorkerEvent>,
    more: Seq<WorkerEvent>,
)
    requires
        m.wf(),
    ensures
        m.run(events).iterations <= m.run(events + more).iterations <= m.ceiling,
{
    lemma_run_keeps_wf(m, events);
    lemma_run_concat(m, events, more);
    lemma_run_keeps_wf(m.run(events), more);
}

/// A stopped worker stays as it is, whatever events follow.
pub proof fn lemma_stopped_is_final(m: WorkerModel, events: Seq<WorkerEvent>)
    requires
        m.stopped(),
    ensures
        m.run(events) == m,
        m.completed(events) == 0,
    decreases events.len(),
{
    if events.len() > 0 {
        lemma_stopped_is_final(m, events.drop_last());
    }
}

/// A worker has stopped at the ceiling exactly when its count has reached the
/// ceiling: it ends by itself there, with no stop request.
pub proof fn lemma_ceiling_ends_run(m: WorkerModel, events: Seq<WorkerEvent>)
    requires
        m.wf(),
    ensures
        m.run(events).iterations == m.ceiling <==> m.run(events).phase == WorkerPhase::Stopped(
            StopReason::CeilingReached,
        ),
        m.run(events).iterations == m.ceiling ==> m.run(events).action() == WorkerAction::Finish,
{
    lemma_run_keeps_wf(m, events);
}

/// Once a stop request has been sent, a worker completes at most one more
/// workload run and counts no further iteration, from whatever state it was
/// in when the request was sent.
pub proof fn lemma_stop_request_bounds_work(m: WorkerModel, events: Seq<WorkerEvent>)
    requires
        m.wf(),
        stop_requested(events),
    ensures
        m.run(events).iterations == m.iterations,
        m.completed(events) <= 1,
        m.completed(events) == 1 ==> m.run(events).phase is Checking || m.run(events).stopped(),
    decreases events.len(),
{
    if events.len() > 0 {
        let earlier = events.drop_last();
        assert forall|k: int| 0 <= k < earlier.len() implies #[trigger] earlier[k]
            != WorkerEvent::Cancellation(CancelCheck::Pending) by {
            assert(earlier[k] == events[k]);
        }
        lemma_stop_request_bounds_work(m, earlier);
        assert(events.last() == events[events.len() - 1]);
    }
}

/// After the workload run that was under way when the stop request was sent,
/// the very next look at the channel stops the worker.
pub proof fn lemma_stop_request_is_seen(m: WorkerModel, found: CancelCheck)
    requires
        m.phase is Checking,
        found != CancelCheck::Pending,
    ensures
        m.next(WorkerEvent::Cancellation(found)).stopped(),
        m.next(WorkerEvent::Cancellation(found)).iterations == m.iterations,
{
}

/// What `action` reports when the lock is free and a stop request waits in
/// the channel. Nothing answers [`WorkerAction::Finish`]: the event given for
/// it is one that a stopped worker refuses, as it refuses every event.
pub open spec fn outcome_when_free_and_stopping(action: WorkerAction) -> WorkerEvent {
    match action {
        WorkerAction::TryAcquire => WorkerEvent::Acquired,
        WorkerAction::CheckAvailable => WorkerEvent::Availability(true),
        WorkerAction::Sleep(_) => WorkerEvent::Slept,
        WorkerAction::Release => WorkerEvent::Released,
        WorkerAction::RunWorkload => WorkerEvent::WorkloadDone,
        WorkerAction::CheckCancellation => WorkerEvent::Cancellation(CancelCheck::Signalled),
        WorkerAction::Finish => WorkerEvent::Slept,
    }
}

impl WorkerModel {
    /// The state after `steps` actions, each answered as
    /// [`outcome_when_free_and_stopping`] says.
    pub open spec fn wind_down(self, steps: nat) -> WorkerModel
        decreases steps,
    {
        if steps == 0 {
            self
        } else {
            self.next(outcome_when_free_and_stopping(self.action())).wind_down((steps - 1) as nat)
        }
    }
}

/// With the lock free and a stop request in the channel, a worker has stopped
/// after six actions at most, wherever it stood, and has counted no further
/// iteration.
pub proof fn lemma_stop_request_stops_worker(m: WorkerModel)
    requires
        m.wf(),
    ensures
        m.wind_down(6).stopped(),
        m.wind_down(6).iterations == m.iterations,
        !m.stopped() ==> m.wind_down(6).phase == WorkerPhase::Stopped(StopReason::Cancelled),
        m.stopped() ==> m.wind_down(6) == m,
{
    reveal_with_fuel(WorkerModel::wind_down, 7);
}

/// A worker that does not steal never asks for the lock, for its
/// availability, for a release or for a pause: each of its actions is a
/// workload run, a look at the channel, or the end.
pub proof fn lemma_no_stealing_no_lock_traffic(m: WorkerModel, events: Seq<WorkerEvent>)
    requires
        m.wf(),
        !m.steals_resource,
    ensures
        ({
            let action = m.run(events).action();
            action == WorkerAction::RunWorkload || action == WorkerAction::CheckCancellation
                || action == WorkerAction::Finish
        }),
{
    lemma_run_keeps_wf(m, events);
}

/// In a run, only the high-priority worker of a configuration with stealing
/// ever touches the lock: the low-priority worker never does, and with
/// stealing switched off no worker does.
pub proof fn lemma_lock_traffic_needs_stealing(
    gpu_stealing: bool,
    index: int,
    ceiling: nat,
    events: Seq<WorkerEvent>,
)
    requires
        index != 0 || !gpu_stealing,
    ensures
        ({
            let action = WorkerModel::begin(worker_steals(gpu_stealing, index), ceiling).run(
                events,
            ).action();
            action == WorkerAction::RunWorkload || action == WorkerAction::CheckCancellation
                || action == WorkerAction::Finish
        }),
{
    lemma_no_stealing_no_lock_traffic(
        WorkerModel::begin(worker_steals(gpu_stealing, index), ceiling),
        events,
    );
}

/// The input data does not steer a worker: two workers started alike see
/// the same states, and so count the same iterations, wherever the device,
/// the workload and the channel answer them alike, whatever data each holds.
pub proof fn lemma_fixtures_do_not_steer_a_run<F>(
    one: WorkerConfig<F>,
    other: WorkerConfig<F>,
    ceiling: nat,
    events: Seq<WorkerEvent>,
)
    requires
        one.spec_steals_resource() == other.spec_steals_resource(),
    ensures
        WorkerModel::begin(one.spec_steals_resource(), ceiling).run(events) == WorkerModel::begin(
            other.spec_steals_resource(),
            ceiling,
        ).run(events),
{
}

/// A worker that steals and finds the lock free releases it at once and only
/// then runs the workload: the claim is momentary and is not held across the
/// workload run.
pub proof fn lemma_claim_is_momentary(m: WorkerModel)
    requires
        m.phase is Claiming,
    ensures
        m.next(WorkerEvent::Acquired).action() == WorkerAction::Release,
        m.next(WorkerEvent::Acquired).next(WorkerEvent::Released).action()
            == WorkerAction::RunWorkload,
{
}

} // verus!
