//! Whole runs of a supervisor: what holds of the state after any sequence of
//! events, whatever the threads, the channels and the clock did.

use crate::plan::{worker_count, worker_name, HarnessConfig, HIGH_PRIORITY_NAME, LOW_PRIORITY_NAME};
use crate::run_info::RunInfo;
use crate::supervisor::{
    Failure, Supervisor, SupervisorAction, SupervisorEvent, SupervisorModel, SupervisorPhase,
};
use vstd::prelude::*;

verus! {

impl SupervisorModel {
    /// The state after the events of `events`, taken in order.
    pub open spec fn run(self, events: Seq<SupervisorEvent>) -> SupervisorModel
        decreases events.len(),
    {
        if events.len() == 0 {
            self
        } else {
            self.run(events.drop_last()).next(events.last())
        }
    }
}

impl Supervisor {
    /// Feeds the supervisor the events of `events` in order and returns the
    /// action that is pending afterwards. An event that the supervisor does
    /// not take changes nothing.
    pub fn replay(&mut self, events: &Vec<SupervisorEvent>) -> (action: SupervisorAction)
        ensures
            final(self)@ == old(self)@.run(events@),
            final(self)@.wf(),
            action == final(self)@.action(),
    {
        let _ = self.action();
        let mut at: usize = 0;
        while at < events.len()
            invariant
                at <= events.len(),
                self@ == old(self)@.run(events@.take(at as int)),
                self@.wf(),
            decreases events.len() - at,
        {
            let _ = self.step(events[at]);
            proof {
                let upto = events@.take(at + 1);
                assert(upto.drop_last() =~= events@.take(at as int));
                assert(upto.last() == events@[at as int]);
            }
            at += 1;
        }
        proof {
            assert(events@.take(at as int) =~= events@);
        }
        self.action()
    }
}

/// Whether no event of `events` reports a thread that could not be created or
/// that ended abnormally.
pub open spec fn threads_sound(events: Seq<SupervisorEvent>) -> bool {
    forall|k: int|
        0 <= k < events.len() ==> !((#[trigger] events[k]) is SpawnFailed) && !(events[k]
            is JoinFailed)
}

/// Whether the supervisor has left the starting phase without a failure
/// there.
pub open spec fn all_started(phase: SupervisorPhase) -> bool {
    match phase {
        SupervisorPhase::Spawning => false,
        SupervisorPhase::Failed(Failure::SpawnFailure(_)) => false,
        _ => true,
    }
}

/// One event keeps a supervisor among the states that a supervisor can be in
/// and keeps its configuration. No counter goes down and no report is taken
/// back.
pub proof fn lemma_next_keeps_wf(m: SupervisorModel, event: SupervisorEvent)
    requires
        m.wf(),
    ensures
        m.next(event).wf(),
        m.next(event).config == m.config,
        m.spawned <= m.next(event).spawned,
        m.cancelled <= m.next(event).cancelled,
        m.reports.is_prefix_of(m.next(event).reports),
        !m.accepts(event) ==> m.next(event) == m,
{
}

/// Any run keeps a supervisor among the states that a supervisor can be in
/// and keeps its configuration.
pub proof fn lemma_run_keeps_wf(m: SupervisorModel, events: Seq<SupervisorEvent>)
    requires
        m.wf(),
    ensures
        m.run(events).wf(),
        m.run(events).config == m.config,
        m.spawned <= m.run(events).spawned,
        m.cancelled <= m.run(events).cancelled,
        m.reports.is_prefix_of(m.run(events).reports),
    decreases events.len(),
{
    if events.len() > 0 {
        lemma_run_keeps_wf(m, events.drop_last());
        lemma_next_keeps_wf(m.run(events.drop_last()), events.last());
    }
}

/// A run that is over stays as it is, whatever events follow.
pub proof fn lemma_over_is_final(m: SupervisorModel, events: Seq<SupervisorEvent>)
    requires
        m.over(),
    ensures
        m.run(events) == m,
    decreases events.len(),
{
    if events.len() > 0 {
        lemma_over_is_final(m, events.drop_last());
    }
}

/// The supervisor starts one worker where the run is not parallel and two
/// where it is, whatever the stealing flag says: never more, and exactly that
/// many once it has left the starting phase without a failure there.
pub proof fn lemma_spawns_one_or_two(config: HarnessConfig, events: Seq<SupervisorEvent>)
    ensures
        ({
            let end = SupervisorModel::begin(config).run(events);
            let count: nat = if config.parallel {
                2
            } else {
                1
            };
            &&& end.spawned <= count
            &&& all_started(end.phase) ==> end.spawned == count
            &&& end.action() matches SupervisorAction::Spawn(place) ==> place == end.spawned
                && place < count
        }),
{
    lemma_run_keeps_wf(SupervisorModel::begin(config), events);
}

/// The steps of a run come in order: no stop request is sent before every
/// worker has been started and the timeout has passed, no worker is waited
/// for before every stop request has been sent, and the report comes after
/// every worker has ended. Each worker is sent one stop request and waited
/// for once, in the order in which the workers were started.
pub proof fn lemma_steps_in_order(config: HarnessConfig, events: Seq<SupervisorEvent>)
    ensures
        ({
            let end = SupervisorModel::begin(config).run(events);
            &&& end.action() is SendCancel || end.cancelled > 0 ==> end.spawned == end.count()
                && !(end.phase is Spawning) && !(end.phase is Waiting)
            &&& end.action() is Join || end.reports.len() > 0 ==> end.cancelled == end.count()
            &&& end.action() is Report <==> end.phase is Done
            &&& end.phase is Done ==> end.reports.len() == end.count()
            &&& end.action() matches SupervisorAction::SendCancel(place) ==> place == end.cancelled
                && place < end.count()
            &&& end.action() matches SupervisorAction::Join(place) ==> place == end.reports.len()
                && place < end.count()
        }),
{
    lemma_run_keeps_wf(SupervisorModel::begin(config), events);
}

/// Stop requests are sent only once the timeout has passed: the supervisor
/// begins to send them on the event that ends its sleep and on no other.
pub proof fn lemma_cancel_follows_timeout(m: SupervisorModel, event: SupervisorEvent)
    requires
        m.wf(),
        !(m.phase is Cancelling),
        m.next(event).phase is Cancelling,
    ensures
        m.phase is Waiting,
        event is TimeoutElapsed,
        m.action() == SupervisorAction::Sleep(m.config.timeout_secs),
{
}

/// A stop request that the channel did not take, because the worker had ended
/// by itself, is handled exactly as one that it took.
pub proof fn lemma_undelivered_cancel_is_no_failure(m: SupervisorModel)
    ensures
        m.next(SupervisorEvent::CancelSent(false)) == m.next(SupervisorEvent::CancelSent(true)),
        !(m.phase is Failed) ==> !(m.next(SupervisorEvent::CancelSent(false)).phase is Failed),
{
}

/// A run fails only on a thread that could not be created or that ended
/// abnormally: with no such event it never fails, whatever became of the stop
/// requests.
pub proof fn lemma_only_threads_fail_a_run(m: SupervisorModel, events: Seq<SupervisorEvent>)
    requires
        !(m.phase is Failed),
        threads_sound(events),
    ensures
        !(m.run(events).phase is Failed),
    decreases events.len(),
{
    if events.len() > 0 {
        let earlier = events.drop_last();
        assert forall|k: int| 0 <= k < earlier.len() implies !((#[trigger] earlier[k])
            is SpawnFailed) && !(earlier[k] is JoinFailed) by {
            assert(earlier[k] == events[k]);
        }
        lemma_only_threads_fail_a_run(m, earlier);
        assert(events.last() == events[events.len() - 1]);
    }
}

/// A failure is final and surfaces at once: the event that reports it ends
/// the run, and the worker it concerns gets no report.
pub proof fn lemma_failure_ends_run(m: SupervisorModel)
    requires
        m.wf(),
    ensures
        m.phase is Spawning ==> m.next(SupervisorEvent::SpawnFailed).phase
            == SupervisorPhase::Failed(Failure::SpawnFailure(m.spawned as usize)),
        m.phase is Joining ==> m.next(SupervisorEvent::JoinFailed).phase
            == SupervisorPhase::Failed(Failure::WorkloadFailure(m.reports.len() as usize))
            && m.next(SupervisorEvent::JoinFailed).reports == m.reports,
{
}

/// The report of a finished run names each worker once, in the order in which
/// they were started: "high" alone where the run is not parallel, "high" and
/// then "low" where it is.
pub proof fn lemma_report_names(config: HarnessConfig, events: Seq<SupervisorEvent>)
    requires
        SupervisorModel::begin(config).run(events).phase is Done,
    ensures
        ({
            let reports = SupervisorModel::begin(config).run(events).reports;
            &&& reports.len() == worker_count(config.parallel)
            &&& reports[0].name@ == HIGH_PRIORITY_NAME@
            &&& config.parallel ==> reports[1].name@ == LOW_PRIORITY_NAME@
            &&& forall|k: int| 0 <= k < reports.len() ==> (#[trigger] reports[k]).name@ == worker_name(k)
        }),
{
    lemma_run_keeps_wf(SupervisorModel::begin(config), events);
}

/// Waiting for a worker records exactly the statistics that it handed over,
/// under its name, behind the reports of the workers started before it.
pub proof fn lemma_join_records_statistics(m: SupervisorModel, info: RunInfo)
    requires
        m.wf(),
        m.phase is Joining,
    ensures
        ({
            let after = m.next(SupervisorEvent::Joined(info));
            &&& after.reports.len() == m.reports.len() + 1
            &&& after.reports.drop_last() == m.reports
            &&& after.reports.last().info == info
            &&& after.reports.last().name@ == worker_name(m.reports.len() as int)
        }),
{
    let after = m.next(SupervisorEvent::Joined(info));
    assert(after.reports.drop_last() =~= m.reports);
}

} // verus!
