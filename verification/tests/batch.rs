use bench_collector::batch::Batch;
use bench_collector::collector::Collector;
use bench_collector::error::{Error, ErrorKind, Failure};
use bench_collector::estimates::ResultFiles;
use bench_collector::plan::{Benchmark, RunPlan, Toolchain};
use bench_collector::run::{Event, ExecFailure, Work};

fn stable() -> Toolchain {
    Toolchain { name: String::from("stable"), target_dir: String::from("target-stable") }
}

fn plan(bench: &str) -> RunPlan {
    RunPlan {
        benchmark: Benchmark {
            crate_name: String::from("inflate"),
            name: String::from(bench),
            runner: None,
        },
        shield: None,
        toolchain: Some(stable()),
    }
}

fn good_files() -> ResultFiles {
    ResultFiles { primary: Ok(String::from("{\"Mean\": 1}")), secondary: None }
}

fn bench_in_hand(batch: &Batch) -> Option<String> {
    batch.plan().map(|plan| plan.benchmark.name.clone())
}

/// Takes the plan in hand through a build, an execution and good results.
fn complete(collector: &mut Collector, batch: Batch, hash: &[u8]) -> Batch {
    assert_eq!(batch.pending(), Work::Build);
    let batch = collector.advance(batch, Event::Built(Ok(hash.to_vec())));
    assert_eq!(batch.pending(), Work::Execute);
    let batch = collector.advance(batch, Event::Executed(Ok(())));
    assert_eq!(batch.pending(), Work::Collect);
    collector.advance(batch, Event::Collected(good_files()))
}

#[test]
fn a_batch_installs_first_and_then_runs_its_plans_in_order() {
    let mut collector = Collector::new("data");
    let batch =
        collector.run_benches_with_toolchain(stable(), vec![plan("a"), plan("b"), plan("c")]);
    assert_eq!(batch.toolchain(), &stable());
    assert_eq!(batch.pending(), Work::Install);
    assert_eq!(bench_in_hand(&batch), None);
    assert!(batch.end().is_none());

    let batch = collector.advance(batch, Event::Installed(Ok(())));
    assert_eq!(bench_in_hand(&batch), Some(String::from("a")));
    let batch = complete(&mut collector, batch, b"A");
    assert_eq!(bench_in_hand(&batch), Some(String::from("b")));
    let batch = complete(&mut collector, batch, b"B");
    assert_eq!(bench_in_hand(&batch), Some(String::from("c")));
    let batch = complete(&mut collector, batch, b"C");
    assert_eq!(batch.pending(), Work::Nothing);
    assert_eq!(bench_in_hand(&batch), None);
    assert_eq!(batch.end(), Some(&Ok(())));
    for bench in ["a", "b", "c"] {
        assert!(collector.plan_can_be_skipped_with_no_work(&plan(bench)));
    }
}

#[test]
fn a_toolchain_that_cannot_be_installed_ends_the_batch() {
    let mut collector = Collector::new("data");
    let batch = collector.run_benches_with_toolchain(stable(), vec![plan("a")]);
    let batch = collector.advance(batch, Event::Installed(Err(String::from("no network"))));
    assert_eq!(batch.pending(), Work::Nothing);
    assert_eq!(batch.end(), Some(&Err(Failure::Toolchain(String::from("no network")))));
    assert_eq!(collector.index().len(), 0);
}

#[test]
fn an_empty_batch_is_over_once_the_toolchain_is_installed() {
    let mut collector = Collector::new("data");
    let batch = collector.run_benches_with_toolchain(stable(), Vec::new());
    assert_eq!(batch.pending(), Work::Install);
    let batch = collector.advance(batch, Event::Installed(Ok(())));
    assert_eq!(batch.pending(), Work::Nothing);
    assert_eq!(batch.end(), Some(&Ok(())));
}

#[test]
fn plans_that_can_be_skipped_are_passed_over() {
    let mut collector = Collector::new("data");
    let first = collector.run_benches_with_toolchain(stable(), vec![plan("a"), plan("c")]);
    let first = collector.advance(first, Event::Installed(Ok(())));
    let first = complete(&mut collector, first, b"A");
    let first = complete(&mut collector, first, b"C");
    assert_eq!(first.end(), Some(&Ok(())));

    let batch = collector
        .run_benches_with_toolchain(stable(), vec![plan("a"), plan("b"), plan("c"), plan("d")]);
    let batch = collector.advance(batch, Event::Installed(Ok(())));
    assert_eq!(bench_in_hand(&batch), Some(String::from("b")));
    let batch = complete(&mut collector, batch, b"B");
    assert_eq!(bench_in_hand(&batch), Some(String::from("d")));
    let batch = complete(&mut collector, batch, b"D");
    assert_eq!(batch.end(), Some(&Ok(())));

    let again = collector.run_benches_with_toolchain(stable(), vec![plan("a"), plan("b")]);
    let again = collector.advance(again, Event::Installed(Ok(())));
    assert_eq!(again.end(), Some(&Ok(())));
}

#[test]
fn a_failed_execution_does_not_stop_the_plans_behind_it() {
    let mut collector = Collector::new("data");
    let batch =
        collector.run_benches_with_toolchain(stable(), vec![plan("a"), plan("b"), plan("c")]);
    let batch = collector.advance(batch, Event::Installed(Ok(())));
    let batch = complete(&mut collector, batch, b"A");

    // The second plan is built, and its execution fails.
    assert_eq!(bench_in_hand(&batch), Some(String::from("b")));
    let batch = collector.advance(batch, Event::Built(Ok(b"B".to_vec())));
    let failure = ExecFailure { message: String::from("segfault"), retryable: false };
    let batch = collector.advance(batch, Event::Executed(Err(failure)));

    // The batch is neither over nor failed: the third plan is in hand.
    assert!(batch.end().is_none());
    assert_eq!(bench_in_hand(&batch), Some(String::from("c")));
    let batch = complete(&mut collector, batch, b"C");
    assert_eq!(batch.end(), Some(&Ok(())));

    // The failure is what is stored for the second plan, and only for it.
    let expected = Error {
        kind: ErrorKind::Run(String::from("segfault")),
        num_retries: 0,
        max_retries: 2,
        retryable: false,
    };
    assert_eq!(collector.existing_estimates(&plan("b"), &b"B".to_vec()).1, Some(&Err(expected)));
    assert!(collector.plan_can_be_skipped_with_no_work(&plan("a")));
    assert!(!collector.plan_can_be_skipped_with_no_work(&plan("b")));
    assert!(collector.plan_can_be_skipped_with_no_work(&plan("c")));
}

#[test]
fn unreadable_results_do_not_stop_the_plans_behind_them() {
    let mut collector = Collector::new("data");
    let batch = collector.run_benches_with_toolchain(stable(), vec![plan("a"), plan("b")]);
    let batch = collector.advance(batch, Event::Installed(Ok(())));
    let batch = collector.advance(batch, Event::Built(Ok(b"A".to_vec())));
    let batch = collector.advance(batch, Event::Executed(Ok(())));
    let files = ResultFiles { primary: Ok(String::from("not json")), secondary: None };
    let batch = collector.advance(batch, Event::Collected(files));
    assert!(batch.end().is_none());
    assert_eq!(bench_in_hand(&batch), Some(String::from("b")));
    let batch = complete(&mut collector, batch, b"B");
    assert_eq!(batch.end(), Some(&Ok(())));
    assert!(!collector.plan_can_be_skipped_with_no_work(&plan("a")));
    assert!(collector.plan_can_be_skipped_with_no_work(&plan("b")));
}

#[test]
fn a_failed_build_stops_the_batch() {
    let mut collector = Collector::new("data");
    let batch = collector.run_benches_with_toolchain(stable(), vec![plan("a"), plan("b")]);
    let batch = collector.advance(batch, Event::Installed(Ok(())));
    let batch = collector.advance(batch, Event::Built(Err(String::from("linker error"))));
    assert_eq!(batch.pending(), Work::Nothing);
    assert_eq!(bench_in_hand(&batch), None);
    assert_eq!(batch.end(), Some(&Err(Failure::Build(String::from("linker error")))));
    // A batch that is over stays as it is.
    let batch = collector.advance(batch, Event::Built(Ok(b"A".to_vec())));
    assert_eq!(batch.end(), Some(&Err(Failure::Build(String::from("linker error")))));
    assert_eq!(collector.index().len(), 0);
}

#[test]
fn a_batch_ignores_events_it_does_not_wait_for() {
    let mut collector = Collector::new("data");
    let batch = collector.run_benches_with_toolchain(stable(), vec![plan("a")]);
    let batch = collector.advance(batch, Event::Built(Ok(b"A".to_vec())));
    assert_eq!(batch.pending(), Work::Install);
    let batch = collector.advance(batch, Event::Installed(Ok(())));
    let batch = collector.advance(batch, Event::Installed(Ok(())));
    assert_eq!(batch.pending(), Work::Build);
    assert_eq!(bench_in_hand(&batch), Some(String::from("a")));
}
