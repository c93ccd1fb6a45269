//! What holds of the collector whatever it is asked to do, proved of its
//! model.

use crate::error::{run_error, FailureView, DEFAULT_MAX_RETRIES};
use crate::estimates::{assembled, primary_metric, processed, with_missing, ResultFilesView};
use crate::json::ReadingView;
use crate::model::{
    advanced, attempted, builds_needed, measurement_key, pending_group, resumed,
    settled, started, BatchStageView, BatchView, CollectorView, EventView, ExecFailureView,
    HashEntryView, RunView,
};
use crate::plan::{PlanGroupView, RunPlanView, ToolchainView};
use crate::storage::{build_key, persisted, EntryView, MeasurementKeyView, StoreView};
use vstd::prelude::*;

verus! {

/// Keys are determined by what they are made of, and by nothing else. Two
/// plans have the same build key exactly if they are structurally identical.
/// Two measurements have the same key exactly if they are of the same binary
/// on the same runner under the same shield.
pub proof fn lemma_keys_are_deterministic(
    a: RunPlanView,
    b: RunPlanView,
    hash_a: Seq<u8>,
    hash_b: Seq<u8>,
)
    ensures
        build_key(a) == build_key(b) <==> a == b,
        measurement_key(hash_a, a) == measurement_key(hash_b, b) <==> (hash_a == hash_b
            && a.benchmark.runner == b.benchmark.runner && a.shield == b.shield),
{
}

/// Whether an entry can be written to a store: an existing entry always can,
/// for there is nothing to write, and a new one can where it was made for
/// the location of the store.
pub open spec fn fits<K, V>(store: StoreView<K, V>, entry: EntryView<K, V>) -> bool {
    match entry {
        EntryView::Existing(_) => true,
        EntryView::New(_, _, location) => location == store.location,
    }
}

/// Persisting an existing entry changes nothing. Persisting a new entry
/// writes it once: the outcome is found under its key afterwards, what is
/// found under every other key is what was found there before, and
/// persisting the same entry again changes nothing any more.
pub proof fn lemma_persisting_is_idempotent<K, V>(store: StoreView<K, V>, entry: EntryView<K, V>)
    requires
        fits(store, entry),
    ensures
        entry is Existing ==> persisted(store, entry) == (store, Ok::<(), FailureView>(())),
        entry matches EntryView::New(key, outcome, _) ==> {
            let after = persisted(store, entry).0;
            &&& after.found(key) == Some(outcome)
            &&& after.location == store.location
            &&& forall|other: K| other != key ==> after.found(other) == store.found(other)
            &&& persisted(after, entry) == (after, persisted(store, entry).1)
        },
{
    match entry {
        EntryView::Existing(_) => {},
        EntryView::New(key, outcome, _) => {
            let after = persisted(store, entry).0;
            assert(after.records.insert(key, outcome) =~= after.records);
        },
    }
}

/// A plan can be skipped exactly if the store holds a hash for its binary
/// and a successful measurement for that hash. A recorded failure is not a
/// measurement: a plan whose measurement is stored as a failure cannot be
/// skipped.
pub proof fn lemma_skip_invariant(collector: CollectorView, plan: RunPlanView)
    ensures
        collector.can_skip(plan) <==> {
            &&& collector.index.found(build_key(plan)) matches Some(Ok(hash))
            &&& collector.measurements.found(measurement_key(hash, plan)) matches Some(Ok(_))
        },
        ({
            &&& collector.index.found(build_key(plan)) matches Some(Ok(hash))
            &&& collector.measurements.found(measurement_key(hash, plan)) matches Some(Err(_))
        }) ==> !collector.can_skip(plan),
        collector.index.found(build_key(plan)) is None ==> !collector.can_skip(plan),
{
}

/// A run that is started ends at once, and well, exactly if the plan can be
/// skipped; it then needs no build and no execution. Starting a run never
/// changes what is stored.
pub proof fn lemma_start_reads_only(collector: CollectorView, plan: RunPlanView)
    ensures
        started(collector, plan).0 == collector,
        collector.can_skip(plan) <==> started(collector, plan).1 is Finished,
        collector.can_skip(plan) ==> started(collector, plan).1 == RunView::Finished(Ok(())),
        !collector.can_skip(plan) ==> {
            ||| started(collector, plan).1 is Building
            ||| started(collector, plan).1 is Executing
        },
{
}

/// A measurement is shared across toolchains. Let two plans differ in their
/// toolchain only, and let the results of the first arrive and be good. If
/// the build of the second then produces the binary that the first was
/// measured with, the run of the second ends at once, and well: it calls for
/// no execution, and the measurements stay as the first run left them.
pub proof fn lemma_measurement_is_shared_across_toolchains(
    collector: CollectorView,
    a: RunPlanView,
    b: RunPlanView,
    hash: Seq<u8>,
    binary_hash: HashEntryView,
    retries: u8,
    files: ResultFilesView,
)
    requires
        a.benchmark == b.benchmark,
        a.shield == b.shield,
        binary_hash.value() == Some(hash),
        fits(collector.index, binary_hash),
        processed(files) is Ok,
    ensures
        ({
            let (first, run_a) = resumed(
                collector,
                RunView::Collecting { binary_hash, key: measurement_key(hash, a), retries },
                EventView::Collected(files),
            );
            let (second, run_b) = resumed(
                first,
                RunView::Building { build_key: build_key(b) },
                EventView::Built(Ok(hash)),
            );
            &&& run_a == RunView::Finished(Ok(()))
            &&& first.estimates(hash, a) == Some(processed(files)->Ok_0)
            &&& run_b == RunView::Finished(Ok(()))
            &&& second.measurements == first.measurements
            &&& second.binary_hash(b) == Some(hash)
            &&& second.can_skip(b)
        }),
{
}

/// A run goes through to the end where the outside work goes well: whatever
/// is stored, once the binary is built where that is called for, the
/// benchmark executed and good results read, the run has ended well, and
/// the plan can be skipped from then on. A second run of the same plan
/// then ends at once and changes nothing.
pub proof fn lemma_completed_run_is_memoized(
    collector: CollectorView,
    plan: RunPlanView,
    hash: Seq<u8>,
    files: ResultFilesView,
)
    requires
        processed(files) is Ok,
    ensures
        ({
            let (c0, r0) = started(collector, plan);
            let (c1, r1) = resumed(c0, r0, EventView::Built(Ok(hash)));
            let (c2, r2) = resumed(c1, r1, EventView::Executed(Ok(())));
            let (c3, r3) = resumed(c2, r2, EventView::Collected(files));
            &&& r3 == RunView::Finished(Ok(()))
            &&& c3.can_skip(plan)
            &&& started(c3, plan) == (c3, RunView::Finished(Ok(())))
        }),
{
}

/// A failed measurement is recorded, and is not taken for a measurement.
/// Where the results of an execution cannot be interpreted, the run ends
/// with that failure. The hash of the binary is stored all the same, so that
/// a later run of the plan builds nothing: it starts by calling for an
/// execution.
pub proof fn lemma_failed_run_is_retried_from_the_second_stage(
    collector: CollectorView,
    plan: RunPlanView,
    hash: Seq<u8>,
    binary_hash: HashEntryView,
    retries: u8,
    files: ResultFilesView,
)
    requires
        processed(files) is Err,
        binary_hash == EntryView::<crate::storage::BuildKeyView, Seq<u8>>::Existing(hash)
            && collector.binary_hash(plan) == Some(hash) || binary_hash == EntryView::New(
            build_key(plan),
            Ok(hash),
            collector.index.location,
        ),
    ensures
        ({
            let key = measurement_key(hash, plan);
            let (after, run) = resumed(
                collector,
                RunView::Collecting { binary_hash, key, retries },
                EventView::Collected(files),
            );
            &&& run == RunView::Finished(
                Err(FailureView::Measurement(attempted(retries, Ok(files))->Err_0)),
            )
            &&& after.measurements.found(key) == Some(attempted(retries, Ok(files)))
            &&& after.binary_hash(plan) == Some(hash)
            &&& !after.can_skip(plan)
            &&& started(after, plan) == (
                after,
                RunView::Executing {
                    binary_hash: EntryView::Existing(hash),
                    key,
                    retries: 0,
                },
            )
        }),
{
}

/// The executions of one run are bounded: an execution is repeated only
/// after a failure that is worth it, and never once the ceiling is reached.
pub proof fn lemma_retries_are_bounded(
    collector: CollectorView,
    binary_hash: HashEntryView,
    key: MeasurementKeyView,
    retries: u8,
    failure: ExecFailureView,
)
    requires
        retries <= DEFAULT_MAX_RETRIES,
    ensures
        ({
            let (after, run) = resumed(
                collector,
                RunView::Executing { binary_hash, key, retries },
                EventView::Executed(Err(failure)),
            );
            &&& run is Executing <==> failure.retryable && retries < DEFAULT_MAX_RETRIES
            &&& run is Executing ==> after == collector && run == (RunView::Executing {
                binary_hash,
                key,
                retries: (retries + 1) as u8,
            }) && retries + 1 <= DEFAULT_MAX_RETRIES
            &&& !(run is Executing) ==> run is Finished
            &&& !(run is Executing) && fits(collector.index, binary_hash)
                && binary_hash.value() is Some ==> run
                == RunView::Finished(
                Err(
                    FailureView::Measurement(
                        run_error(failure.message, retries, failure.retryable),
                    ),
                ),
            ) && after.measurements.found(key) == Some(
                Err::<Map<Seq<char>, Seq<char>>, crate::error::ErrorView>(
                    run_error(failure.message, retries, failure.retryable),
                ),
            )
        }),
{
}

/// Whether `entries` holds an entry for `name`.
pub open spec fn names(entries: Seq<(Seq<char>, Seq<char>)>, name: Seq<char>) -> bool {
    exists|i: int| 0 <= i < entries.len() && #[trigger] entries[i].0 == name
}

/// Whether the entry at position `i` is the first of `entries` for its name.
pub open spec fn first_of_its_name(entries: Seq<(Seq<char>, Seq<char>)>, i: int) -> bool {
    0 <= i < entries.len() && forall|j: int| 0 <= j < i ==> #[trigger] entries[j].0 != entries[i].0
}

/// Merging keeps what is there and adds what is missing: every metric of
/// the base keeps its summary, the merged estimates hold just the metrics of
/// the base and of the entries, and a metric that only the entries hold gets
/// the summary of its first entry.
pub proof fn lemma_merge_keeps_and_adds(
    base: Map<Seq<char>, Seq<char>>,
    entries: Seq<(Seq<char>, Seq<char>)>,
)
    ensures
        forall|name: Seq<char>| #[trigger]
            base.contains_key(name) ==> with_missing(base, entries).contains_key(name)
                && with_missing(base, entries)[name] == base[name],
        forall|name: Seq<char>| #[trigger]
            with_missing(base, entries).contains_key(name) <==> base.contains_key(name) || names(
                entries,
                name,
            ),
        forall|i: int|
            first_of_its_name(entries, i) && !base.contains_key(entries[i].0) ==> #[trigger] with_missing(
                base,
                entries,
            )[entries[i].0] == entries[i].1,
    decreases entries.len(),
{
    if entries.len() > 0 {
        let first = entries[0];
        let rest = entries.drop_first();
        let next = if base.contains_key(first.0) {
            base
        } else {
            base.insert(first.0, first.1)
        };
        let merged = with_missing(base, entries);
        assert(merged == with_missing(next, rest));
        lemma_merge_keeps_and_adds(next, rest);
        assert forall|name: Seq<char>| #[trigger]
            merged.contains_key(name) <==> base.contains_key(name) || names(entries, name) by {
            if merged.contains_key(name) && !base.contains_key(name) && !next.contains_key(name) {
                let k = choose|k: int| 0 <= k < rest.len() && #[trigger] rest[k].0 == name;
                assert(entries[k + 1].0 == name);
            }
            if names(entries, name) {
                let k = choose|k: int| 0 <= k < entries.len() && #[trigger] entries[k].0 == name;
                if k > 0 {
                    assert(rest[k - 1].0 == name);
                }
            }
        }
        assert forall|i: int|
            first_of_its_name(entries, i) && !base.contains_key(
                entries[i].0,
            ) implies #[trigger] merged[entries[i].0] == entries[i].1 by {
            if i == 0 {
                assert(next.contains_key(entries[i].0));
            } else {
                assert(first_of_its_name(rest, i - 1)) by {
                    assert forall|j: int| 0 <= j < i - 1 implies #[trigger] rest[j].0 != rest[i
                        - 1].0 by {
                        assert(rest[j] == entries[j + 1]);
                    }
                }
            }
        }
    }
}

/// The estimates of an execution with a second record of one metric: they
/// hold the timing statistics under the primary metric, and the summary of
/// the other metric under its name. Without a second record they hold the
/// timing statistics alone, and that is no failure.
pub proof fn lemma_estimates_merge(
    first: ReadingView,
    second: ReadingView,
    name: Seq<char>,
    summary: Seq<char>,
)
    requires
        name != primary_metric(),
        second.members == Some(seq![(name, summary)]),
    ensures
        assembled(Ok(first), Some(Ok(second))) == Ok::<Map<Seq<char>, Seq<char>>, Seq<char>>(
            map![primary_metric() => first.text, name => summary],
        ),
        assembled(Ok(first), None) == Ok::<Map<Seq<char>, Seq<char>>, Seq<char>>(
            map![primary_metric() => first.text],
        ),
{
    let base = Map::<Seq<char>, Seq<char>>::empty().insert(primary_metric(), first.text);
    let entries = seq![(name, summary)];
    assert(with_missing(base.insert(name, summary), entries.drop_first()) == base.insert(
        name,
        summary,
    ));
}

/// Whatever the second record holds, the primary metric keeps the timing
/// statistics of the first.
pub proof fn lemma_primary_metric_is_kept(first: ReadingView, second: ReadingView)
    requires
        second.members is Some,
    ensures
        assembled(Ok(first), Some(Ok(second))) matches Ok(estimates) && estimates.contains_key(
            primary_metric(),
        ) && estimates[primary_metric()] == first.text,
{
    let base = Map::<Seq<char>, Seq<char>>::empty().insert(primary_metric(), first.text);
    lemma_merge_keeps_and_adds(base, second.members->Some_0);
    assert(base.contains_key(primary_metric()));
}

/// A batch, from any of its plans on, reads the store and does not change
/// it: the plans that can be skipped are passed over, and the batch stops
/// at the first plan that cannot, with the run that this plan would start
/// on its own; past the last plan it has ended well.
pub proof fn lemma_batch_settles(
    collector: CollectorView,
    toolchain: ToolchainView,
    plans: Seq<RunPlanView>,
    from: int,
)
    requires
        0 <= from <= plans.len(),
    ensures
        ({
            let (after, batch) = settled(collector, toolchain, plans, from);
            &&& after == collector
            &&& batch.toolchain == toolchain
            &&& batch.plans == plans
            &&& from <= batch.position <= plans.len()
            &&& forall|i: int| from <= i < batch.position ==> collector.can_skip(#[trigger] plans[i])
            &&& match batch.stage {
                BatchStageView::Installing => false,
                BatchStageView::Running(run) => {
                    &&& batch.position < plans.len()
                    &&& !collector.can_skip(plans[batch.position])
                    &&& run == started(collector, plans[batch.position]).1
                },
                BatchStageView::Finished(end) => end == Ok::<(), FailureView>(())
                    && batch.position == plans.len(),
            }
        }),
    decreases plans.len() - from,
{
    if from < plans.len() {
        lemma_start_reads_only(collector, plans[from]);
        if collector.can_skip(plans[from]) {
            lemma_batch_settles(collector, toolchain, plans, from + 1);
        }
    }
}

/// A failed measurement does not stop the batch. Where the run of the plan
/// in hand ends with a failed measurement, the failure is what the run
/// recorded, the batch goes on behind that plan as if it had been started
/// there, and it does not end with a failure on that account: it waits for
/// the next plan that cannot be skipped, or has ended well.
pub proof fn lemma_failure_is_isolated(collector: CollectorView, batch: BatchView, event: EventView)
    requires
        0 <= batch.position < batch.plans.len(),
        batch.stage matches BatchStageView::Running(run) && (resumed(collector, run, event).1
            matches RunView::Finished(Err(FailureView::Measurement(_)))),
    ensures
        ({
            let recorded = resumed(collector, batch.stage->Running_0, event).0;
            let (after, next) = advanced(collector, batch, event);
            &&& after == recorded
            &&& (after, next) == settled(recorded, batch.toolchain, batch.plans, batch.position + 1)
            &&& next.position > batch.position
            &&& !(next.stage matches BatchStageView::Finished(Err(_)))
        }),
{
    let recorded = resumed(collector, batch.stage->Running_0, event).0;
    lemma_batch_settles(recorded, batch.toolchain, batch.plans, batch.position + 1);
}

/// What a run makes of a plan depends on what is stored under the keys of
/// that plan, and on nothing else: the records of other plans, a failure
/// among them, make no difference to it.
pub proof fn lemma_run_depends_on_own_keys(a: CollectorView, b: CollectorView, plan: RunPlanView)
    requires
        a.index.found(build_key(plan)) == b.index.found(build_key(plan)),
        forall|hash: Seq<u8>| #[trigger]
            a.measurements.found(measurement_key(hash, plan)) == b.measurements.found(
                measurement_key(hash, plan),
            ),
    ensures
        started(a, plan).1 == started(b, plan).1,
        a.can_skip(plan) == b.can_skip(plan),
{
}

/// The work that is left holds nothing that can be skipped and nothing
/// empty: each of its groups is a group that was given, cut down to its
/// plans that cannot be skipped, and holds one such plan at least. A
/// toolchain all of whose plans can be skipped is therefore not among them,
/// and needs no installing.
pub proof fn lemma_builds_needed_hold_work_only(
    collector: CollectorView,
    groups: Seq<PlanGroupView>,
    i: int,
)
    requires
        0 <= i < builds_needed(collector, groups).len(),
    ensures
        ({
            let group = builds_needed(collector, groups)[i];
            &&& group.run_plans.len() > 0
            &&& exists|k: int|
                0 <= k < groups.len() && group == pending_group(collector, #[trigger] groups[k])
            &&& forall|j: int|
                0 <= j < group.run_plans.len() ==> !collector.can_skip(#[trigger] group.run_plans[j])
        }),
{
    let left = groups.map_values(|group: PlanGroupView| pending_group(collector, group));
    let nonempty = |group: PlanGroupView| group.run_plans.len() > 0;
    let needed = left.filter(nonempty);
    let group = needed[i];
    left.lemma_filter_pred(nonempty, i);
    left.lemma_filter_contains_rev(nonempty, group);
    let k = choose|k: int| 0 <= k < left.len() && left[k] == group;
    let wanted = |plan: RunPlanView| !collector.can_skip(plan);
    assert forall|j: int| 0 <= j < group.run_plans.len() implies !collector.can_skip(
        #[trigger] group.run_plans[j],
    ) by {
        groups[k].run_plans.lemma_filter_pred(wanted, j);
    }
}

} // verus!
