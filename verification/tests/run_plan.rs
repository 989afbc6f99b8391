use gpu_cpu_test::plan::{
    plan_workers, HarnessConfig, WorkerConfig, DEFAULT_TIMEOUT_SECS, HIGH_PRIORITY_NAME,
    LOW_PRIORITY_NAME,
};
use gpu_cpu_test::run_info::RunInfo;
use std::time::Duration;

#[test]
fn default_configuration_runs_both_workers_with_stealing() {
    let config = HarnessConfig::default();
    assert!(config.parallel);
    assert!(config.gpu_stealing);
    assert_eq!(config.timeout_secs, 300);
    assert_eq!(DEFAULT_TIMEOUT_SECS, 300);
}

#[test]
fn names_are_high_and_low() {
    assert_eq!(HIGH_PRIORITY_NAME, "high");
    assert_eq!(LOW_PRIORITY_NAME, "low");
}

#[test]
fn parallel_plan_has_high_then_low() {
    let config = HarnessConfig { parallel: true, gpu_stealing: true, timeout_secs: 1 };
    let plan = plan_workers(&config, vec![1u8, 2, 3]);
    assert_eq!(plan.len(), 2);
    assert_eq!(plan[0].name(), "high");
    assert!(plan[0].steals_resource());
    assert_eq!(plan[1].name(), "low");
    assert!(!plan[1].steals_resource());
}

#[test]
fn single_plan_has_high_alone() {
    for gpu_stealing in [false, true] {
        let config = HarnessConfig { parallel: false, gpu_stealing, timeout_secs: 1 };
        let plan = plan_workers(&config, String::from("fixture"));
        assert_eq!(plan.len(), 1);
        assert_eq!(plan[0].name(), "high");
        assert_eq!(plan[0].steals_resource(), gpu_stealing);
        assert_eq!(plan[0].fixtures(), "fixture");
    }
}

#[test]
fn without_stealing_no_worker_steals() {
    let config = HarnessConfig { parallel: true, gpu_stealing: false, timeout_secs: 1 };
    let plan = plan_workers(&config, 0u32);
    assert_eq!(plan.len(), 2);
    assert!(plan.iter().all(|worker| !worker.steals_resource()));
}

#[test]
fn low_priority_worker_never_steals() {
    for gpu_stealing in [false, true] {
        let config = HarnessConfig { parallel: true, gpu_stealing, timeout_secs: 1 };
        let plan = plan_workers(&config, ());
        assert_eq!(plan[0].steals_resource(), gpu_stealing);
        assert!(!plan[1].steals_resource());
    }
}

#[test]
fn every_worker_gets_its_own_equal_copy_of_the_fixtures() {
    let fixtures: Vec<(u64, Vec<u8>)> = vec![(7, vec![1, 2, 3]), (9, vec![]), (11, vec![255; 32])];
    let config = HarnessConfig { parallel: true, gpu_stealing: true, timeout_secs: 1 };
    let plan = plan_workers(&config, fixtures.clone());
    assert_eq!(plan[0].fixtures(), &fixtures);
    assert_eq!(plan[1].fixtures(), &fixtures);
    assert_eq!(plan[0].fixtures(), plan[1].fixtures());
    // The copies are separate values: changing one leaves the other alone.
    let mut owned: Vec<Vec<(u64, Vec<u8>)>> =
        plan.into_iter().map(|worker| worker.into_fixtures()).collect();
    owned[0][0].1.push(4);
    assert_eq!(owned[1], fixtures);
    assert_ne!(owned[0], owned[1]);
}

#[test]
fn worker_configuration_keeps_what_it_was_made_with() {
    let config = WorkerConfig::new("high", true, vec![5u8, 6]);
    assert_eq!(config.name(), "high");
    assert!(config.steals_resource());
    assert_eq!(config.fixtures(), &vec![5u8, 6]);
    assert_eq!(config.into_fixtures(), vec![5u8, 6]);
}

#[test]
fn run_info_keeps_what_it_was_made_with() {
    let info = RunInfo::new(Duration::new(300, 17), 42);
    assert_eq!(info.elapsed(), Duration::new(300, 17));
    assert_eq!(info.iterations(), 42);
    let copy = info;
    assert_eq!(copy.iterations(), info.iterations());
    assert_eq!(format!("{:?}", info), "RunInfo { elapsed: 300.000000017s, iterations: 42 }");
}
