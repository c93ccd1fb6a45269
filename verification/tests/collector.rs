use bench_collector::collector::Collector;
use bench_collector::error::{Error, ErrorKind, Failure};
use bench_collector::estimates::{ResultFiles, Statistic};
use bench_collector::plan::{Benchmark, PlanGroup, RunPlan, Toolchain};
use bench_collector::run::{Event, ExecFailure, Run, Work};
use bench_collector::storage::{BuildKey, Entry, MeasurementKey, Store};

fn toolchain(name: &str) -> Toolchain {
    Toolchain { name: String::from(name), target_dir: format!("target-{}", name) }
}

fn plan(bench: &str, toolchain_name: Option<&str>) -> RunPlan {
    RunPlan {
        benchmark: Benchmark {
            crate_name: String::from("inflate"),
            name: String::from(bench),
            runner: Some(String::from("local")),
        },
        shield: Some(String::from("cpu0")),
        toolchain: toolchain_name.map(toolchain),
    }
}

fn good_files() -> ResultFiles {
    ResultFiles { primary: Ok(String::from("{\"Mean\": 1}")), secondary: None }
}

fn missing_files() -> ResultFiles {
    ResultFiles { primary: Err(String::from("No such file or directory")), secondary: None }
}

fn failure(message: &str, retryable: bool) -> ExecFailure {
    ExecFailure { message: String::from(message), retryable }
}

/// Drives a run to its end with a build that yields `hash`, an execution
/// that succeeds and the given files, and says which outside work was done.
fn drive(collector: &mut Collector, rp: &RunPlan, hash: &[u8], files: fn() -> ResultFiles) -> (
    Vec<Work>,
    Result<(), Failure>,
) {
    let mut done = Vec::new();
    let mut run = collector.run(rp);
    loop {
        let work = run.pending();
        let event = match work {
            Work::Build => Event::Built(Ok(hash.to_vec())),
            Work::Execute => Event::Executed(Ok(())),
            Work::Collect => Event::Collected(files()),
            Work::Install => unreachable!(),
            Work::Nothing => break,
        };
        done.push(work);
        run = collector.resume(run, event);
    }
    match run {
        Run::Finished(end) => (done, end),
        _ => unreachable!(),
    }
}

#[test]
fn first_run_does_the_work_and_second_run_does_none() {
    let mut collector = Collector::new("data");
    let rp = plan("decode", Some("stable"));
    assert!(!collector.plan_can_be_skipped_with_no_work(&rp));

    let (done, end) = drive(&mut collector, &rp, b"H", good_files);
    assert_eq!(done, vec![Work::Build, Work::Execute, Work::Collect]);
    assert_eq!(end, Ok(()));
    assert_eq!(collector.index().len(), 1);
    assert_eq!(collector.measurements().len(), 1);
    assert_eq!(collector.index().get(&BuildKey::new(&rp)), Some(&Ok(b"H".to_vec())));
    let (_, hash) = collector.existing_binary_hash(&rp);
    assert_eq!(hash, Some(b"H".to_vec()));
    let (_, estimates) = collector.existing_estimates(&rp, &b"H".to_vec());
    let estimates = estimates.unwrap().as_ref().unwrap();
    assert_eq!(
        estimates.get(&String::from("nanoseconds")),
        Some(&Statistic { record: String::from("{\"Mean\":1}") })
    );
    assert!(collector.plan_can_be_skipped_with_no_work(&rp));

    let (done, end) = drive(&mut collector, &rp, b"other", missing_files);
    assert_eq!(done, vec![]);
    assert_eq!(end, Ok(()));
    assert_eq!(collector.index().len(), 1);
    assert_eq!(collector.measurements().len(), 1);
}

#[test]
fn missing_results_fail_the_run_and_only_the_second_stage_is_retried() {
    let mut collector = Collector::new("data");
    let rp = plan("decode", Some("stable"));
    let expected = Error {
        kind: ErrorKind::PostProcess(String::from("No such file or directory")),
        num_retries: 0,
        max_retries: 2,
        retryable: false,
    };

    let (done, end) = drive(&mut collector, &rp, b"H", missing_files);
    assert_eq!(done, vec![Work::Build, Work::Execute, Work::Collect]);
    assert_eq!(end, Err(Failure::Measurement(expected.clone())));
    assert_eq!(collector.existing_binary_hash(&rp).1, Some(b"H".to_vec()));
    assert_eq!(collector.existing_estimates(&rp, &b"H".to_vec()).1, Some(&Err(expected.clone())));
    assert!(!collector.plan_can_be_skipped_with_no_work(&rp));

    // Again: nothing is built, and the failure is the same.
    let (done, end) = drive(&mut collector, &rp, b"other", missing_files);
    assert_eq!(done, vec![Work::Execute, Work::Collect]);
    assert_eq!(end, Err(Failure::Measurement(expected)));
    assert_eq!(collector.existing_binary_hash(&rp).1, Some(b"H".to_vec()));
    assert!(!collector.plan_can_be_skipped_with_no_work(&rp));

    // Once the file is there, the second stage goes through.
    let (done, end) = drive(&mut collector, &rp, b"other", good_files);
    assert_eq!(done, vec![Work::Execute, Work::Collect]);
    assert_eq!(end, Ok(()));
    assert!(collector.plan_can_be_skipped_with_no_work(&rp));
    assert_eq!(collector.measurements().len(), 1);
}

#[test]
fn a_failed_build_ends_the_run_and_records_nothing() {
    let mut collector = Collector::new("data");
    let rp = plan("decode", None);
    let run = collector.run(&rp);
    assert_eq!(run.pending(), Work::Build);
    assert!(run.end().is_none());
    let run = collector.resume(run, Event::Built(Err(String::from("linker error"))));
    assert_eq!(run.pending(), Work::Nothing);
    assert_eq!(run.end(), Some(&Err(Failure::Build(String::from("linker error")))));
    assert_eq!(collector.index().len(), 0);
    assert_eq!(collector.measurements().len(), 0);
    assert_eq!(collector.existing_binary_hash(&rp).1, None);
}

#[test]
fn a_failed_execution_is_recorded_as_a_run_failure() {
    let mut collector = Collector::new("data");
    let rp = plan("decode", None);
    let run = collector.run(&rp);
    let run = collector.resume(run, Event::Built(Ok(b"H".to_vec())));
    assert_eq!(run.pending(), Work::Execute);
    // Nothing is stored before the run is over.
    assert_eq!(collector.index().len(), 0);
    let run = collector.resume(run, Event::Executed(Err(failure("segfault", false))));
    let expected = Error {
        kind: ErrorKind::Run(String::from("segfault")),
        num_retries: 0,
        max_retries: 2,
        retryable: false,
    };
    assert_eq!(run.end(), Some(&Err(Failure::Measurement(expected.clone()))));
    assert_eq!(collector.existing_binary_hash(&rp).1, Some(b"H".to_vec()));
    assert_eq!(collector.existing_estimates(&rp, &b"H".to_vec()).1, Some(&Err(expected)));
}

#[test]
fn a_retryable_failure_is_retried_up_to_the_ceiling() {
    let mut collector = Collector::new("data");
    let rp = plan("decode", None);
    let run = collector_run(&mut collector, &rp);
    let mut run = collector.resume(run, Event::Built(Ok(vec![1])));
    for _ in 0..2 {
        run = collector.resume(run, Event::Executed(Err(failure("busy", true))));
        assert_eq!(run.pending(), Work::Execute);
        assert_eq!(collector.measurements().len(), 0);
    }
    run = collector.resume(run, Event::Executed(Err(failure("busy", true))));
    let expected = Error {
        kind: ErrorKind::Run(String::from("busy")),
        num_retries: 2,
        max_retries: 2,
        retryable: true,
    };
    assert_eq!(run.end(), Some(&Err(Failure::Measurement(expected))));
    assert_eq!(collector.measurements().len(), 1);
}

fn collector_run(collector: &mut Collector, rp: &RunPlan) -> Run {
    collector.run(rp)
}

#[test]
fn a_retry_that_succeeds_ends_the_run_well() {
    let mut collector = Collector::new("data");
    let rp = plan("decode", None);
    let run = collector.run(&rp);
    let run = collector.resume(run, Event::Built(Ok(vec![1])));
    let run = collector.resume(run, Event::Executed(Err(failure("busy", true))));
    let run = collector.resume(run, Event::Executed(Ok(())));
    assert_eq!(run.pending(), Work::Collect);
    let run = collector.resume(run, Event::Collected(missing_files()));
    // The failure to read the results comes after one repetition.
    let expected = Error {
        kind: ErrorKind::PostProcess(String::from("No such file or directory")),
        num_retries: 1,
        max_retries: 2,
        retryable: false,
    };
    assert_eq!(run.end(), Some(&Err(Failure::Measurement(expected))));
}

#[test]
fn an_event_that_is_not_waited_for_changes_nothing() {
    let mut collector = Collector::new("data");
    let rp = plan("decode", None);
    let run = collector.run(&rp);
    let run = collector.resume(run, Event::Executed(Ok(())));
    assert_eq!(run.pending(), Work::Build);
    let run = collector.resume(run, Event::Collected(good_files()));
    assert_eq!(run.pending(), Work::Build);
    let run = collector.resume(run, Event::Installed(Ok(())));
    assert_eq!(run.pending(), Work::Build);
    let run = collector.resume(run, Event::Built(Ok(vec![1])));
    let run = collector.resume(run, Event::Built(Ok(vec![2])));
    assert_eq!(run.pending(), Work::Execute);
    let run = collector.resume(run, Event::Executed(Ok(())));
    let run = collector.resume(run, Event::Collected(good_files()));
    assert_eq!(run.end(), Some(&Ok(())));
    let run = collector.resume(run, Event::Built(Ok(vec![3])));
    assert_eq!(run.end(), Some(&Ok(())));
    assert_eq!(collector.existing_binary_hash(&rp).1, Some(vec![1]));
}

#[test]
fn a_measurement_is_shared_across_toolchains() {
    let mut collector = Collector::new("data");
    let stable = plan("decode", Some("stable"));
    let nightly = plan("decode", Some("nightly"));
    let (done, end) = drive(&mut collector, &stable, b"same", good_files);
    assert_eq!(done, vec![Work::Build, Work::Execute, Work::Collect]);
    assert_eq!(end, Ok(()));
    assert!(!collector.plan_can_be_skipped_with_no_work(&nightly));

    // The other toolchain has to build, and then finds the measurement.
    let (done, end) = drive(&mut collector, &nightly, b"same", missing_files);
    assert_eq!(done, vec![Work::Build]);
    assert_eq!(end, Ok(()));
    assert!(collector.plan_can_be_skipped_with_no_work(&nightly));
    assert_eq!(collector.index().len(), 2);
    assert_eq!(collector.measurements().len(), 1);
}

#[test]
fn a_different_binary_is_measured_on_its_own() {
    let mut collector = Collector::new("data");
    let stable = plan("decode", Some("stable"));
    let nightly = plan("decode", Some("nightly"));
    drive(&mut collector, &stable, b"one", good_files);
    let (done, end) = drive(&mut collector, &nightly, b"two", good_files);
    assert_eq!(done, vec![Work::Build, Work::Execute, Work::Collect]);
    assert_eq!(end, Ok(()));
    assert_eq!(collector.measurements().len(), 2);
}

#[test]
fn a_different_environment_is_measured_on_its_own() {
    let mut collector = Collector::new("data");
    let here = plan("decode", Some("stable"));
    let mut there = plan("decode", Some("stable"));
    there.benchmark.runner = Some(String::from("remote"));
    drive(&mut collector, &here, b"same", good_files);
    let (done, _) = drive(&mut collector, &there, b"same", good_files);
    assert_eq!(done, vec![Work::Build, Work::Execute, Work::Collect]);
    let mut unshielded = plan("decode", Some("stable"));
    unshielded.shield = None;
    let (done, _) = drive(&mut collector, &unshielded, b"same", good_files);
    assert_eq!(done, vec![Work::Build, Work::Execute, Work::Collect]);
    assert_eq!(collector.measurements().len(), 3);
}

#[test]
fn a_plan_is_skipped_only_with_a_hash_and_a_good_measurement() {
    let rp = plan("decode", Some("stable"));
    let location = || String::from("data");
    let hash_entry = || Entry::New(BuildKey::new(&rp), Ok(b"H".to_vec()), location());
    let key = || {
        MeasurementKey::new(b"H".to_vec(), Some(String::from("local")), Some(String::from("cpu0")))
    };

    // Nothing stored.
    let collector = Collector::new("data");
    assert!(!collector.plan_can_be_skipped_with_no_work(&rp));

    // A hash alone.
    let mut index = Store::new(location());
    hash_entry().ensure_persisted(&mut index).unwrap();
    let collector = Collector::with_stores(index, Store::new(location()));
    assert!(!collector.plan_can_be_skipped_with_no_work(&rp));

    // A hash and a failed measurement.
    let mut index = Store::new(location());
    hash_entry().ensure_persisted(&mut index).unwrap();
    let mut measurements = Store::new(location());
    let failed = Entry::New(key(), Err(Error::run(String::from("boom"), 0, false)), location());
    assert!(failed.ensure_persisted(&mut measurements).is_err());
    let collector = Collector::with_stores(index, measurements);
    assert!(!collector.plan_can_be_skipped_with_no_work(&rp));

    // A good measurement without a hash.
    let good = || {
        let collector = Collector::new("data");
        Entry::New(key(), Ok(collector.process(good_files()).unwrap()), location())
    };
    let mut measurements = Store::new(location());
    good().ensure_persisted(&mut measurements).unwrap();
    let collector = Collector::with_stores(Store::new(location()), measurements);
    assert!(!collector.plan_can_be_skipped_with_no_work(&rp));

    // Both.
    let mut index = Store::new(location());
    hash_entry().ensure_persisted(&mut index).unwrap();
    let mut measurements = Store::new(location());
    good().ensure_persisted(&mut measurements).unwrap();
    let collector = Collector::with_stores(index, measurements);
    assert!(collector.plan_can_be_skipped_with_no_work(&rp));
}

#[test]
fn the_outcome_of_a_build_becomes_an_entry() {
    let collector = Collector::new("data");
    let rp = plan("decode", None);
    let entry = collector.compute_binary_hash(BuildKey::new(&rp), Ok(vec![4, 2])).unwrap();
    match entry {
        Entry::New(key, outcome, location) => {
            assert_eq!(key, BuildKey::new(&rp));
            assert_eq!(outcome, Ok(vec![4, 2]));
            assert_eq!(location, "data");
        }
        Entry::Existing(_) => panic!("a fresh hash is a new entry"),
    }
    let failed = collector.compute_binary_hash(BuildKey::new(&rp), Err(String::from("no")));
    assert_eq!(failed.unwrap_err(), Failure::Build(String::from("no")));
}

#[test]
fn the_outcome_of_an_attempt_becomes_an_entry() {
    let collector = Collector::new("data");
    let key = || MeasurementKey::new(vec![1], None, None);
    match collector.compute_estimates(key(), 1, Err(failure("boom", true))) {
        Entry::New(stored_key, outcome, location) => {
            assert_eq!(stored_key, key());
            assert_eq!(outcome.unwrap_err(), Error::run(String::from("boom"), 1, true));
            assert_eq!(location, "data");
        }
        Entry::Existing(_) => panic!("a fresh outcome is a new entry"),
    }
    match collector.compute_estimates(key(), 0, Ok(good_files())) {
        Entry::New(_, outcome, _) => {
            let estimates = outcome.unwrap();
            assert!(estimates.contains(&String::from("nanoseconds")));
        }
        Entry::Existing(_) => panic!("a fresh outcome is a new entry"),
    }
    match collector.compute_estimates(key(), 0, Ok(missing_files())) {
        Entry::New(_, outcome, _) => assert_eq!(
            outcome.unwrap_err(),
            Error::post_process(String::from("No such file or directory"), 0)
        ),
        Entry::Existing(_) => panic!("a fresh outcome is a new entry"),
    }
}

#[test]
fn builds_needed_mirror_the_grouping_of_the_plans() {
    let mut collector = Collector::new("data");
    let done_a = plan("decode", Some("stable"));
    let done_b = plan("encode", Some("stable"));
    let done_c = plan("decode", Some("beta"));
    drive(&mut collector, &done_a, b"a", good_files);
    drive(&mut collector, &done_b, b"b", good_files);
    drive(&mut collector, &done_c, b"c", good_files);

    let group = |name: &str, benches: &[&str]| PlanGroup {
        toolchain: toolchain(name),
        run_plans: benches.iter().map(|bench| plan(bench, Some(name))).collect(),
    };
    let plans = vec![
        group("stable", &["decode", "crc", "encode", "adler"]),
        group("beta", &["decode"]),
        group("nightly", &["encode", "decode"]),
        group("empty", &[]),
    ];
    let needed = collector.compute_builds_needed(&plans);
    assert_eq!(
        needed,
        vec![group("stable", &["crc", "adler"]), group("nightly", &["encode", "decode"])]
    );
    assert_eq!(collector.compute_builds_needed(&Vec::new()), Vec::new());
    assert_eq!(collector.index().len(), 3);
}
