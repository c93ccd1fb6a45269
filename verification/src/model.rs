//! The model of the collector: what it holds, and what each step of a run
//! makes of it, stated over the models of the values involved.

use crate::error::{post_process_error, run_error, ErrorView, FailureView};
use crate::estimates::{processed, ResultFilesView};
use crate::plan::{PlanGroupView, RunPlanView, ToolchainView};
use crate::storage::{
    build_key, persisted, BuildKeyView, EntryView, MeasurementKeyView, StoreView,
};
use vstd::prelude::*;

verus! {

/// The model of estimates.
pub type EstimatesView = Map<Seq<char>, Seq<char>>;

/// The model of an entry that holds the hash of a binary.
pub type HashEntryView = EntryView<BuildKeyView, Seq<u8>>;

/// The model of an entry that holds estimates.
pub type EstimatesEntryView = EntryView<MeasurementKeyView, EstimatesView>;

/// The key under which the measurement of `plan` is stored once its binary
/// is known to have the hash `binary_hash`. The plan's toolchain has no part
/// in it.
pub open spec fn measurement_key(binary_hash: Seq<u8>, plan: RunPlanView) -> MeasurementKeyView {
    MeasurementKeyView { binary_hash, runner: plan.benchmark.runner, shield: plan.shield }
}

/// The model of a collector: the hashes of the binaries that have been
/// built, by plan, and the measurements that have been made, by binary and
/// environment.
pub struct CollectorView {
    pub index: StoreView<BuildKeyView, Seq<u8>>,
    pub measurements: StoreView<MeasurementKeyView, EstimatesView>,
}

impl CollectorView {
    /// The hash of the binary of `plan`, where it has been built before.
    pub open spec fn binary_hash(self, plan: RunPlanView) -> Option<Seq<u8>> {
        self.index.value(build_key(plan))
    }

    /// The estimates of `plan` for the binary with hash `binary_hash`, where
    /// it has been measured before, and well.
    pub open spec fn estimates(self, binary_hash: Seq<u8>, plan: RunPlanView) -> Option<
        EstimatesView,
    > {
        self.measurements.value(measurement_key(binary_hash, plan))
    }

    /// Whether nothing is left to do for `plan`: the hash of its binary is
    /// known, and the store holds a successful measurement for that hash.
    pub open spec fn can_skip(self, plan: RunPlanView) -> bool {
        match self.binary_hash(plan) {
            Some(binary_hash) => self.estimates(binary_hash, plan) is Some,
            None => false,
        }
    }
}

/// The model of a failed execution, as it is reported.
pub struct ExecFailureView {
    pub message: Seq<char>,
    pub retryable: bool,
}

/// The model of an event: how a piece of outside work went.
pub enum EventView {
    Installed(Result<(), Seq<char>>),
    Built(Result<Seq<u8>, Seq<char>>),
    Executed(Result<(), ExecFailureView>),
    Collected(ResultFilesView),
}

/// The model of a run: where the run of one plan stands.
pub enum RunView {
    Building { build_key: BuildKeyView },
    Executing { binary_hash: HashEntryView, key: MeasurementKeyView, retries: u8 },
    Collecting { binary_hash: HashEntryView, key: MeasurementKeyView, retries: u8 },
    Finished(Result<(), FailureView>),
}

/// The end of a run: both entries are persisted, the hash first. Where that
/// fails, the estimates are not written.
pub open spec fn finished(
    collector: CollectorView,
    binary_hash: HashEntryView,
    estimates: EstimatesEntryView,
) -> (CollectorView, RunView) {
    let (index, first) = persisted(collector.index, binary_hash);
    if first is Err {
        (CollectorView { index, measurements: collector.measurements }, RunView::Finished(first))
    } else {
        let (measurements, second) = persisted(collector.measurements, estimates);
        (CollectorView { index, measurements }, RunView::Finished(second))
    }
}

/// The outcome of an attempt at a measurement that came after `retries`
/// repetitions: the estimates, or the failure of the stage that failed. An
/// execution that failed is a failure of the run stage. One that succeeded
/// is judged by its results, and results that cannot be interpreted are a
/// failure of the post-processing stage.
pub open spec fn attempted(retries: u8, attempt: Result<ResultFilesView, ExecFailureView>) -> Result<
    EstimatesView,
    ErrorView,
> {
    match attempt {
        Err(failure) => Err(run_error(failure.message, retries, failure.retryable)),
        Ok(files) => match processed(files) {
            Ok(estimates) => Ok(estimates),
            Err(why) => Err(post_process_error(why, retries)),
        },
    }
}

/// The entry that the outcome of a build becomes: a new one for the hash.
/// A build that failed leaves no entry.
pub open spec fn built_entry(
    collector: CollectorView,
    key: BuildKeyView,
    built: Result<Seq<u8>, Seq<char>>,
) -> Result<HashEntryView, FailureView> {
    match built {
        Ok(hash) => Ok(EntryView::New(key, Ok(hash), collector.index.location)),
        Err(why) => Err(FailureView::Build(why)),
    }
}

/// The second stage of a run, once the hash of the binary of `plan` is
/// resolved: a successful measurement in the store ends the run, anything
/// else calls for an execution. Where the entry holds no hash but the failure
/// to compute one, there is nothing to measure: the entry is persisted, and
/// the run ends with its failure.
pub open spec fn measured(collector: CollectorView, plan: RunPlanView, binary_hash: HashEntryView) -> (
    CollectorView,
    RunView,
) {
    match binary_hash.value() {
        Some(hash) => match collector.estimates(hash, plan) {
            Some(estimates) => finished(collector, binary_hash, EntryView::Existing(estimates)),
            None => (
                collector,
                RunView::Executing { binary_hash, key: measurement_key(hash, plan), retries: 0 },
            ),
        },
        None => {
            let (index, end) = persisted(collector.index, binary_hash);
            (CollectorView { index, measurements: collector.measurements }, RunView::Finished(end))
        },
    }
}

/// The start of a run: a hash in the store leads on to the second stage,
/// and without one the binary has to be built.
pub open spec fn started(collector: CollectorView, plan: RunPlanView) -> (CollectorView, RunView) {
    match collector.binary_hash(plan) {
        Some(hash) => measured(collector, plan, EntryView::Existing(hash)),
        None => (collector, RunView::Building { build_key: build_key(plan) }),
    }
}

/// What an event makes of a run and of the collector.
///
/// - A build that failed ends the run, and nothing is recorded. One that
///   succeeded yields a new entry for the hash, and the second stage begins.
/// - An execution that failed is repeated where the failure is worth it and
///   the ceiling has not been reached; else the failure becomes the outcome
///   of the measurement. One that succeeded calls for its results.
/// - The results become the outcome of the measurement: the estimates, or the
///   failure to interpret them.
/// - An outcome is persisted together with the hash, as [`finished`] says.
/// - An event that the run does not wait for changes nothing.
pub open spec fn resumed(collector: CollectorView, run: RunView, event: EventView) -> (
    CollectorView,
    RunView,
) {
    match (run, event) {
        (RunView::Building { build_key }, EventView::Built(built)) => match built_entry(
            collector,
            build_key,
            built,
        ) {
            Ok(binary_hash) => measured(collector, build_key.plan, binary_hash),
            Err(failure) => (collector, RunView::Finished(Err(failure))),
        },
        (RunView::Executing { binary_hash, key, retries }, EventView::Executed(Ok(()))) => (
            collector,
            RunView::Collecting { binary_hash, key, retries },
        ),
        (RunView::Executing { binary_hash, key, retries }, EventView::Executed(Err(failure))) => {
            if run_error(failure.message, retries, failure.retryable).should_retry() {
                (
                    collector,
                    RunView::Executing { binary_hash, key, retries: (retries + 1) as u8 },
                )
            } else {
                finished(
                    collector,
                    binary_hash,
                    EntryView::New(
                        key,
                        attempted(retries, Err(failure)),
                        collector.measurements.location,
                    ),
                )
            }
        },
        (RunView::Collecting { binary_hash, key, retries }, EventView::Collected(files)) => finished(
            collector,
            binary_hash,
            EntryView::New(key, attempted(retries, Ok(files)), collector.measurements.location),
        ),
        _ => (collector, run),
    }
}

/// Those of `plans` for which something is left to do, in their order.
pub open spec fn pending(collector: CollectorView, plans: Seq<RunPlanView>) -> Seq<RunPlanView> {
    plans.filter(|plan: RunPlanView| !collector.can_skip(plan))
}

/// What is left of a group once the plans that can be skipped are taken out.
pub open spec fn pending_group(collector: CollectorView, group: PlanGroupView) -> PlanGroupView {
    PlanGroupView { toolchain: group.toolchain, run_plans: pending(collector, group.run_plans) }
}

/// The work that is left of `groups`: each group with the plans for which
/// something is left to do, and no group without such a plan. Groups and
/// plans keep their order.
pub open spec fn builds_needed(collector: CollectorView, groups: Seq<PlanGroupView>) -> Seq<
    PlanGroupView,
> {
    groups.map_values(|group: PlanGroupView| pending_group(collector, group)).filter(
        |group: PlanGroupView| group.run_plans.len() > 0,
    )
}

/// The model of where a batch stands.
pub enum BatchStageView {
    Installing,
    Running(RunView),
    Finished(Result<(), FailureView>),
}

/// The model of a batch: the plans to run under one toolchain, the position
/// of the plan in hand, and where the batch stands.
pub struct BatchView {
    pub toolchain: ToolchainView,
    pub plans: Seq<RunPlanView>,
    pub position: int,
    pub stage: BatchStageView,
}

impl BatchView {
    /// The batch at another position and stage.
    pub open spec fn at(self, position: int, stage: BatchStageView) -> BatchView {
        BatchView { toolchain: self.toolchain, plans: self.plans, position, stage }
    }
}

/// Whether the batch goes on to its next plan after a run that ended like
/// this: it does unless the failure is one that stops batches.
pub open spec fn goes_on(end: Result<(), FailureView>) -> bool {
    match end {
        Ok(()) => true,
        Err(failure) => !failure.stops_batch(),
    }
}

/// A batch of `plans` under `toolchain` from the plan at position `from`
/// on: each plan is started in its turn. The batch stops at the first plan
/// whose run waits for outside work, or ends with a failure that stops
/// batches; past the last plan the batch has ended well.
pub open spec fn settled(
    collector: CollectorView,
    toolchain: ToolchainView,
    plans: Seq<RunPlanView>,
    from: int,
) -> (CollectorView, BatchView)
    decreases plans.len() - from,
{
    if from >= plans.len() {
        (
            collector,
            BatchView {
                toolchain,
                plans,
                position: plans.len() as int,
                stage: BatchStageView::Finished(Ok(())),
            },
        )
    } else {
        let (next, run) = started(collector, plans[from]);
        match run {
            RunView::Finished(end) => if goes_on(end) {
                settled(next, toolchain, plans, from + 1)
            } else {
                (
                    next,
                    BatchView { toolchain, plans, position: from, stage: BatchStageView::Finished(end) },
                )
            },
            _ => (
                next,
                BatchView { toolchain, plans, position: from, stage: BatchStageView::Running(run) },
            ),
        }
    }
}

/// The batch once the run of the plan in hand stands at `run`: a run that
/// is not over is waited for; one that is over lets the batch go on to the
/// next plan, or ends it.
pub open spec fn carried(collector: CollectorView, batch: BatchView, run: RunView) -> (
    CollectorView,
    BatchView,
) {
    match run {
        RunView::Finished(end) => if goes_on(end) {
            settled(collector, batch.toolchain, batch.plans, batch.position + 1)
        } else {
            (collector, batch.at(batch.position, BatchStageView::Finished(end)))
        },
        _ => (collector, batch.at(batch.position, BatchStageView::Running(run))),
    }
}

/// What an event makes of a batch and of the collector. A toolchain that
/// could not be installed ends the batch; once it is installed the plans are
/// run in their order. Events go to the run of the plan in hand. A batch that
/// is over stays as it is, and so does one that gets an event it does not
/// wait for.
pub open spec fn advanced(collector: CollectorView, batch: BatchView, event: EventView) -> (
    CollectorView,
    BatchView,
) {
    match batch.stage {
        BatchStageView::Installing => match event {
            EventView::Installed(Ok(())) => settled(collector, batch.toolchain, batch.plans, 0),
            EventView::Installed(Err(why)) => (
                collector,
                batch.at(batch.position, BatchStageView::Finished(Err(FailureView::Toolchain(why)))),
            ),
            _ => (collector, batch),
        },
        BatchStageView::Running(run) => {
            let (next, run) = resumed(collector, run, event);
            carried(next, batch, run)
        },
        BatchStageView::Finished(_) => (collector, batch),
    }
}

} // verus!
