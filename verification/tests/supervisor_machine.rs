use gpu_cpu_test::plan::{HarnessConfig, DEFAULT_TIMEOUT_SECS};
use gpu_cpu_test::run_info::RunInfo;
use gpu_cpu_test::supervisor::{
    Failure, Supervisor, SupervisorAction, SupervisorError, SupervisorEvent, SupervisorPhase,
};
use std::time::Duration;

fn config(parallel: bool, gpu_stealing: bool) -> HarnessConfig {
    HarnessConfig { parallel, gpu_stealing, timeout_secs: 1 }
}

fn info(millis: u64, iterations: u8) -> RunInfo {
    RunInfo::new(Duration::from_millis(millis), iterations)
}

fn supervisor_events() -> Vec<SupervisorEvent> {
    vec![
        SupervisorEvent::Spawned,
        SupervisorEvent::SpawnFailed,
        SupervisorEvent::TimeoutElapsed,
        SupervisorEvent::CancelSent(true),
        SupervisorEvent::CancelSent(false),
        SupervisorEvent::Joined(info(5, 5)),
        SupervisorEvent::JoinFailed,
    ]
}

/// Drives a supervisor through a run in which every thread starts and ends
/// well, and returns how many workers it started.
fn drive(supervisor: &mut Supervisor, delivered: bool) -> usize {
    let mut spawned = 0;
    loop {
        let event = match supervisor.action() {
            SupervisorAction::Spawn(place) => {
                assert_eq!(place, spawned);
                spawned += 1;
                SupervisorEvent::Spawned
            }
            SupervisorAction::Sleep(_) => SupervisorEvent::TimeoutElapsed,
            SupervisorAction::SendCancel(place) => {
                assert!(place < spawned);
                SupervisorEvent::CancelSent(delivered)
            }
            SupervisorAction::Join(place) => {
                assert!(place < spawned);
                SupervisorEvent::Joined(info(1000 + place as u64, 10 + place as u8))
            }
            SupervisorAction::Report => return spawned,
            SupervisorAction::Abort(failure) => panic!("the run failed: {:?}", failure),
        };
        supervisor.step(event).unwrap();
    }
}

#[test]
fn one_worker_without_parallel_two_with_it() {
    for gpu_stealing in [false, true] {
        let mut single = Supervisor::new(config(false, gpu_stealing));
        assert_eq!(single.worker_count(), 1);
        assert_eq!(drive(&mut single, true), 1);

        let mut pair = Supervisor::new(config(true, gpu_stealing));
        assert_eq!(pair.worker_count(), 2);
        assert_eq!(drive(&mut pair, true), 2);
    }
}

#[test]
fn parallel_run_goes_through_its_steps_in_order() {
    let mut supervisor = Supervisor::new(HarnessConfig {
        parallel: true,
        gpu_stealing: true,
        timeout_secs: 300,
    });
    assert_eq!(supervisor.phase(), SupervisorPhase::Spawning);
    assert_eq!(supervisor.action(), SupervisorAction::Spawn(0));
    assert_eq!(supervisor.step(SupervisorEvent::Spawned), Ok(SupervisorAction::Spawn(1)));
    assert_eq!(supervisor.step(SupervisorEvent::Spawned), Ok(SupervisorAction::Sleep(300)));
    assert_eq!(supervisor.phase(), SupervisorPhase::Waiting);
    assert_eq!(
        supervisor.step(SupervisorEvent::TimeoutElapsed),
        Ok(SupervisorAction::SendCancel(0))
    );
    assert_eq!(
        supervisor.step(SupervisorEvent::CancelSent(true)),
        Ok(SupervisorAction::SendCancel(1))
    );
    assert_eq!(supervisor.step(SupervisorEvent::CancelSent(true)), Ok(SupervisorAction::Join(0)));
    assert_eq!(supervisor.phase(), SupervisorPhase::Joining);
    assert!(supervisor.reports().is_empty());
    assert_eq!(
        supervisor.step(SupervisorEvent::Joined(info(300_020, 17))),
        Ok(SupervisorAction::Join(1))
    );
    assert_eq!(supervisor.reports().len(), 1);
    assert!(!supervisor.is_over());
    assert_eq!(
        supervisor.step(SupervisorEvent::Joined(info(300_045, 21))),
        Ok(SupervisorAction::Report)
    );
    assert!(supervisor.is_over());
    assert_eq!(supervisor.phase(), SupervisorPhase::Done);
    assert_eq!(supervisor.failure(), None);

    let reports = supervisor.reports();
    assert_eq!(reports.len(), 2);
    assert_eq!(reports[0].name, "high");
    assert_eq!(reports[0].info.iterations(), 17);
    assert_eq!(reports[0].info.elapsed(), Duration::from_millis(300_020));
    assert_eq!(reports[1].name, "low");
    assert_eq!(reports[1].info.iterations(), 21);
    assert_eq!(reports[1].info.elapsed(), Duration::from_millis(300_045));
}

#[test]
fn single_run_reports_high_alone() {
    let mut supervisor = Supervisor::new(config(false, true));
    assert_eq!(supervisor.step(SupervisorEvent::Spawned), Ok(SupervisorAction::Sleep(1)));
    assert_eq!(
        supervisor.step(SupervisorEvent::TimeoutElapsed),
        Ok(SupervisorAction::SendCancel(0))
    );
    assert_eq!(supervisor.step(SupervisorEvent::CancelSent(true)), Ok(SupervisorAction::Join(0)));
    assert_eq!(
        supervisor.step(SupervisorEvent::Joined(info(1003, 19))),
        Ok(SupervisorAction::Report)
    );
    let reports = supervisor.reports();
    assert_eq!(reports.len(), 1);
    assert_eq!(reports[0].name, "high");
    assert_eq!(reports[0].info.iterations(), 19);
    assert!(reports.iter().all(|report| report.name != "low"));
}

#[test]
fn sleep_lasts_for_the_configured_timeout() {
    let mut supervisor = Supervisor::new(HarnessConfig::default());
    assert_eq!(supervisor.config().timeout_secs, 300);
    supervisor.step(SupervisorEvent::Spawned).unwrap();
    assert_eq!(supervisor.step(SupervisorEvent::Spawned), Ok(SupervisorAction::Sleep(300)));
    assert_eq!(DEFAULT_TIMEOUT_SECS, 5 * 60);

    let mut none = Supervisor::new(HarnessConfig {
        parallel: false,
        gpu_stealing: false,
        timeout_secs: 0,
    });
    assert_eq!(none.step(SupervisorEvent::Spawned), Ok(SupervisorAction::Sleep(0)));
}

#[test]
fn stop_request_to_a_worker_that_has_ended_is_no_failure() {
    let mut refused = Supervisor::new(config(true, true));
    assert_eq!(drive(&mut refused, false), 2);
    assert_eq!(refused.phase(), SupervisorPhase::Done);
    assert_eq!(refused.failure(), None);

    let mut taken = Supervisor::new(config(true, true));
    drive(&mut taken, true);
    assert_eq!(refused.reports().len(), taken.reports().len());
    for (left, right) in refused.reports().iter().zip(taken.reports().iter()) {
        assert_eq!(left.name, right.name);
        assert_eq!(left.info.iterations(), right.info.iterations());
        assert_eq!(left.info.elapsed(), right.info.elapsed());
    }
}

#[test]
fn thread_that_cannot_be_created_ends_the_run() {
    let mut first = Supervisor::new(config(true, true));
    assert_eq!(
        first.step(SupervisorEvent::SpawnFailed),
        Ok(SupervisorAction::Abort(Failure::SpawnFailure(0)))
    );
    assert!(first.is_over());
    assert_eq!(first.failure(), Some(Failure::SpawnFailure(0)));
    assert!(first.reports().is_empty());

    let mut second = Supervisor::new(config(true, true));
    second.step(SupervisorEvent::Spawned).unwrap();
    assert_eq!(
        second.step(SupervisorEvent::SpawnFailed),
        Ok(SupervisorAction::Abort(Failure::SpawnFailure(1)))
    );
    assert_eq!(second.phase(), SupervisorPhase::Failed(Failure::SpawnFailure(1)));
}

#[test]
fn worker_that_ended_abnormally_ends_the_run_before_its_report() {
    let mut supervisor = Supervisor::new(config(true, false));
    supervisor.step(SupervisorEvent::Spawned).unwrap();
    supervisor.step(SupervisorEvent::Spawned).unwrap();
    supervisor.step(SupervisorEvent::TimeoutElapsed).unwrap();
    supervisor.step(SupervisorEvent::CancelSent(true)).unwrap();
    supervisor.step(SupervisorEvent::CancelSent(true)).unwrap();
    supervisor.step(SupervisorEvent::Joined(info(1001, 4))).unwrap();
    assert_eq!(
        supervisor.step(SupervisorEvent::JoinFailed),
        Ok(SupervisorAction::Abort(Failure::WorkloadFailure(1)))
    );
    assert_eq!(supervisor.failure(), Some(Failure::WorkloadFailure(1)));
    assert_eq!(supervisor.reports().len(), 1);
    assert_eq!(supervisor.reports()[0].name, "high");

    let mut early = Supervisor::new(config(false, false));
    early.step(SupervisorEvent::Spawned).unwrap();
    early.step(SupervisorEvent::TimeoutElapsed).unwrap();
    early.step(SupervisorEvent::CancelSent(true)).unwrap();
    assert_eq!(
        early.step(SupervisorEvent::JoinFailed),
        Ok(SupervisorAction::Abort(Failure::WorkloadFailure(0)))
    );
    assert!(early.reports().is_empty());
}

#[test]
fn run_that_is_over_takes_no_event() {
    let mut done = Supervisor::new(config(false, true));
    drive(&mut done, true);
    let mut failed = Supervisor::new(config(false, true));
    failed.step(SupervisorEvent::SpawnFailed).unwrap();
    for event in supervisor_events() {
        assert_eq!(done.step(event), Err(SupervisorError::AlreadyOver));
        assert_eq!(done.action(), SupervisorAction::Report);
        assert_eq!(done.reports().len(), 1);
        assert_eq!(failed.step(event), Err(SupervisorError::AlreadyOver));
        assert_eq!(failed.action(), SupervisorAction::Abort(Failure::SpawnFailure(0)));
    }
}

#[test]
fn supervisor_refuses_an_event_that_answers_another_action() {
    let mut supervisor = Supervisor::new(config(true, true));
    for event in supervisor_events() {
        if matches!(event, SupervisorEvent::Spawned | SupervisorEvent::SpawnFailed) {
            continue;
        }
        assert_eq!(supervisor.step(event), Err(SupervisorError::UnexpectedEvent));
        assert_eq!(supervisor.action(), SupervisorAction::Spawn(0));
    }
    supervisor.step(SupervisorEvent::Spawned).unwrap();
    supervisor.step(SupervisorEvent::Spawned).unwrap();
    // No stop request before the timeout has passed.
    assert_eq!(
        supervisor.step(SupervisorEvent::CancelSent(true)),
        Err(SupervisorError::UnexpectedEvent)
    );
    assert_eq!(
        supervisor.step(SupervisorEvent::Joined(info(1, 1))),
        Err(SupervisorError::UnexpectedEvent)
    );
    assert_eq!(supervisor.phase(), SupervisorPhase::Waiting);
    assert!(supervisor.reports().is_empty());
}

#[test]
fn supervisor_replay_is_stepping_through_the_events() {
    let events = vec![
        SupervisorEvent::Spawned,
        SupervisorEvent::TimeoutElapsed,
        SupervisorEvent::Spawned,
        SupervisorEvent::TimeoutElapsed,
        SupervisorEvent::CancelSent(false),
        SupervisorEvent::CancelSent(true),
        SupervisorEvent::Joined(info(1010, 20)),
    ];
    let mut replayed = Supervisor::new(config(true, true));
    assert_eq!(replayed.replay(&events), SupervisorAction::Join(1));
    let mut stepped = Supervisor::new(config(true, true));
    for event in &events {
        let _ = stepped.step(*event);
    }
    assert_eq!(stepped.action(), SupervisorAction::Join(1));
    assert_eq!(replayed.reports().len(), 1);
    assert_eq!(replayed.reports()[0].name, "high");
    assert_eq!(replayed.reports()[0].info.iterations(), 20);
}
