use bench_collector::error::{Error, ErrorKind, Failure};
use bench_collector::plan::{Benchmark, RunPlan, Toolchain};
use bench_collector::storage::{BuildKey, Entry, MeasurementKey, Store};
use bench_collector::table::Key;

fn plan_under(toolchain: Option<&str>, runner: Option<&str>) -> RunPlan {
    RunPlan {
        benchmark: Benchmark {
            crate_name: String::from("inflate"),
            name: String::from("decode"),
            runner: runner.map(String::from),
        },
        shield: None,
        toolchain: toolchain.map(|name| Toolchain {
            name: String::from(name),
            target_dir: format!("target-{}", name),
        }),
    }
}

#[test]
fn identical_plans_have_the_same_build_key() {
    let a = BuildKey::new(&plan_under(Some("stable"), Some("local")));
    let b = BuildKey::new(&plan_under(Some("stable"), Some("local")));
    assert!(a.matches(&b));
    assert_eq!(a, b);
}

#[test]
fn plans_that_differ_in_any_field_have_different_build_keys() {
    let base = BuildKey::new(&plan_under(Some("stable"), Some("local")));
    assert!(!base.matches(&BuildKey::new(&plan_under(Some("nightly"), Some("local")))));
    assert!(!base.matches(&BuildKey::new(&plan_under(None, Some("local")))));
    assert!(!base.matches(&BuildKey::new(&plan_under(Some("stable"), Some("remote")))));
    assert!(!base.matches(&BuildKey::new(&plan_under(Some("stable"), None))));
    let mut shielded = plan_under(Some("stable"), Some("local"));
    shielded.shield = Some(String::from("cpu0"));
    assert!(!base.matches(&BuildKey::new(&shielded)));
    let mut renamed = plan_under(Some("stable"), Some("local"));
    renamed.benchmark.name = String::from("encode");
    assert!(!base.matches(&BuildKey::new(&renamed)));
}

#[test]
fn measurement_keys_follow_hash_runner_and_shield() {
    let key = |hash: &[u8], runner: Option<&str>, shield: Option<&str>| {
        MeasurementKey::new(hash.to_vec(), runner.map(String::from), shield.map(String::from))
    };
    let base = key(&[1, 2, 3], Some("local"), Some("cpu0"));
    assert!(base.matches(&key(&[1, 2, 3], Some("local"), Some("cpu0"))));
    assert!(!base.matches(&key(&[1, 2, 4], Some("local"), Some("cpu0"))));
    assert!(!base.matches(&key(&[1, 2], Some("local"), Some("cpu0"))));
    assert!(!base.matches(&key(&[1, 2, 3], Some("remote"), Some("cpu0"))));
    assert!(!base.matches(&key(&[1, 2, 3], Some("local"), None)));
    assert_eq!(base.binary_hash(), &vec![1u8, 2, 3]);
    assert_eq!(base.runner(), &Some(String::from("local")));
    assert_eq!(base.shield(), &Some(String::from("cpu0")));
}

#[test]
fn an_empty_store_finds_nothing() {
    let store: Store<BuildKey, Vec<u8>> = Store::new(String::from("data"));
    assert_eq!(store.location(), "data");
    assert_eq!(store.len(), 0);
    assert!(store.get(&BuildKey::new(&plan_under(None, None))).is_none());
    assert!(store.record_at(0).is_none());
}

#[test]
fn persisting_an_existing_entry_writes_nothing() {
    let mut store: Store<BuildKey, Vec<u8>> = Store::new(String::from("data"));
    let entry: Entry<BuildKey, Vec<u8>> = Entry::Existing(vec![7, 7]);
    assert_eq!(entry.value(), Some(&vec![7u8, 7]));
    assert_eq!(entry.ensure_persisted(&mut store), Ok(()));
    assert_eq!(store.len(), 0);
}

#[test]
fn persisting_a_new_entry_writes_it_once() {
    let mut store: Store<BuildKey, Vec<u8>> = Store::new(String::from("data"));
    let key = BuildKey::new(&plan_under(Some("stable"), None));
    let other = BuildKey::new(&plan_under(Some("nightly"), None));
    let entry = Entry::New(key.clone(), Ok(vec![1, 2, 3]), String::from("data"));
    assert_eq!(entry.value(), Some(&vec![1u8, 2, 3]));
    assert_eq!(entry.ensure_persisted(&mut store), Ok(()));
    assert_eq!(store.len(), 1);
    assert_eq!(store.get(&key), Some(&Ok(vec![1u8, 2, 3])));
    assert!(store.get(&other).is_none());

    // The same write again leaves the store as it is.
    let again = Entry::New(key.clone(), Ok(vec![1, 2, 3]), String::from("data"));
    assert_eq!(again.ensure_persisted(&mut store), Ok(()));
    assert_eq!(store.len(), 1);
    assert_eq!(store.get(&key), Some(&Ok(vec![1u8, 2, 3])));
    let (stored_key, stored) = store.record_at(0).unwrap();
    assert!(stored_key.matches(&key));
    assert_eq!(stored, &Ok(vec![1u8, 2, 3]));
}

#[test]
fn a_later_write_takes_the_place_of_an_earlier_one() {
    let mut store: Store<BuildKey, Vec<u8>> = Store::new(String::from("data"));
    let key = BuildKey::new(&plan_under(Some("stable"), None));
    let first = Entry::New(key.clone(), Ok(vec![1]), String::from("data"));
    let second = Entry::New(key.clone(), Ok(vec![2]), String::from("data"));
    assert_eq!(first.ensure_persisted(&mut store), Ok(()));
    assert_eq!(second.ensure_persisted(&mut store), Ok(()));
    assert_eq!(store.len(), 1);
    assert_eq!(store.get(&key), Some(&Ok(vec![2u8])));
}

#[test]
fn a_failed_outcome_is_written_and_handed_on() {
    let mut store: Store<BuildKey, Vec<u8>> = Store::new(String::from("data"));
    let key = BuildKey::new(&plan_under(None, None));
    let error = Error::run(String::from("killed"), 0, false);
    let entry: Entry<BuildKey, Vec<u8>> =
        Entry::New(key.clone(), Err(error.clone()), String::from("data"));
    assert_eq!(entry.value(), None);
    assert_eq!(entry.ensure_persisted(&mut store), Err(Failure::Measurement(error.clone())));
    assert_eq!(store.get(&key), Some(&Err(error)));
}

#[test]
fn an_entry_for_another_location_is_refused() {
    let mut store: Store<BuildKey, Vec<u8>> = Store::new(String::from("data"));
    let key = BuildKey::new(&plan_under(None, None));
    let entry = Entry::New(key.clone(), Ok(vec![1]), String::from("elsewhere"));
    assert_eq!(
        entry.ensure_persisted(&mut store),
        Err(Failure::Storage(String::from(
            "the entry belongs to another location than the store"
        )))
    );
    assert!(store.get(&key).is_none());
    assert_eq!(store.len(), 0);
}

#[test]
fn errors_carry_their_bookkeeping() {
    let run = Error::run(String::from("boom"), 1, true);
    assert_eq!(run.kind, ErrorKind::Run(String::from("boom")));
    assert_eq!(run.num_retries, 1);
    assert_eq!(run.max_retries, 2);
    assert!(run.retryable);
    assert!(run.should_retry());
    assert_eq!(run.message(), "boom");

    let spent = Error::run(String::from("boom"), 2, true);
    assert!(!spent.should_retry());
    let hopeless = Error::run(String::from("boom"), 0, false);
    assert!(!hopeless.should_retry());

    let parse = Error::post_process(String::from("bad json"), 0);
    assert_eq!(parse.kind, ErrorKind::PostProcess(String::from("bad json")));
    assert_eq!(parse.max_retries, 2);
    assert!(!parse.retryable);
    assert!(!parse.should_retry());
}

#[test]
fn only_a_failed_measurement_lets_a_batch_go_on() {
    assert!(Failure::Storage(String::from("x")).stops_batch());
    assert!(Failure::Toolchain(String::from("x")).stops_batch());
    assert!(Failure::Build(String::from("x")).stops_batch());
    assert!(!Failure::Measurement(Error::run(String::from("x"), 0, false)).stops_batch());
}
