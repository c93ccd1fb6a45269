//! The collector: it resolves the hash of a plan's binary and the
//! measurement of that binary from the store where it can, and says what has
//! to be built or executed where it cannot.

use crate::error::{outcome_view, Error, Failure};
use crate::estimates::{assembly_view, processed, Estimates, ResultFiles};
use crate::json::read_json;
use crate::model::{
    attempted, builds_needed, built_entry, finished, measured, measurement_key, pending,
    pending_group, resumed, started, CollectorView,
};
use crate::plan::{
    groups_view, opt_text_clone, plans_view, PlanGroup, PlanGroupView, RunPlan, RunPlanView,
};
use crate::run::{Event, ExecFailure, Run};
use crate::storage::{
    build_key, bytes_clone, BuildKey, Entry, EntryView, MeasurementKey, Store, StoreView,
};
use vstd::prelude::*;

verus! {

/// Runs benchmarks, memoizes their results, and allows results to be shared
/// across toolchains where the binaries that they produce are identical.
#[derive(Debug)]
pub struct Collector {
    index: Store<BuildKey, Vec<u8>>,
    measurements: Store<MeasurementKey, Estimates>,
}

impl View for Collector {
    type V = CollectorView;

    closed spec fn view(&self) -> CollectorView {
        CollectorView { index: self.index@, measurements: self.measurements@ }
    }
}

/// The model of a result that may hold the result of an attempt.
pub open spec fn attempt_view(attempt: Result<ResultFiles, ExecFailure>) -> Result<
    crate::estimates::ResultFilesView,
    crate::model::ExecFailureView,
> {
    match attempt {
        Ok(files) => Ok(files@),
        Err(failure) => Err(failure@),
    }
}

/// Filtering a sequence with one more item at its end: the item is kept or
/// not, and what came before is filtered as before.
proof fn lemma_filter_push<A>(s: Seq<A>, item: A, keep: spec_fn(A) -> bool)
    ensures
        s.push(item).filter(keep) == if keep(item) {
            s.filter(keep).push(item)
        } else {
            s.filter(keep)
        },
{
    reveal(Seq::filter);
    assert(s.push(item).drop_last() =~= s);
}

impl Collector {
    /// A collector over the data directory `data_dir`, in which nothing has
    /// been stored yet.
    pub fn new(data_dir: &str) -> (collector: Self)
        ensures
            collector@ == (CollectorView {
                index: StoreView::empty(data_dir@),
                measurements: StoreView::empty(data_dir@),
            }),
    {
        Collector {
            index: Store::new(data_dir.to_owned()),
            measurements: Store::new(data_dir.to_owned()),
        }
    }

    /// A collector over what has been stored before.
    pub fn with_stores(
        index: Store<BuildKey, Vec<u8>>,
        measurements: Store<MeasurementKey, Estimates>,
    ) -> (collector: Self)
        ensures
            collector@ == (CollectorView { index: index@, measurements: measurements@ }),
    {
        Collector { index, measurements }
    }

    /// The store of the hashes of the binaries that have been built.
    pub fn index(&self) -> (index: &Store<BuildKey, Vec<u8>>)
        ensures
            index@ == self@.index,
    {
        &self.index
    }

    /// The store of the measurements that have been made.
    pub fn measurements(&self) -> (measurements: &Store<MeasurementKey, Estimates>)
        ensures
            measurements@ == self@.measurements,
    {
        &self.measurements
    }

    /// The key of the binary of `rp`, and the hash stored under it, if any.
    pub fn existing_binary_hash(&self, rp: &RunPlan) -> (found: (BuildKey, Option<Vec<u8>>))
        ensures
            found.0@ == build_key(rp@),
            (match found.1 {
                Some(hash) => Some(hash@),
                None => None,
            }) == self@.binary_hash(rp@),
    {
        let key = BuildKey::new(rp);
        let found = match self.index.get(&key) {
            Some(Ok(hash)) => Some(bytes_clone(hash)),
            _ => None,
        };
        (key, found)
    }

    /// The key of the measurement of `rp` for the binary with hash
    /// `binary_hash`, and the outcome stored under it, if any: estimates, or
    /// the failure of the last attempt.
    pub fn existing_estimates(&self, rp: &RunPlan, binary_hash: &Vec<u8>) -> (found: (
        MeasurementKey,
        Option<&Result<Estimates, Error>>,
    ))
        ensures
            found.0@ == measurement_key(binary_hash@, rp@),
            (match found.1 {
                Some(outcome) => Some(outcome_view(*outcome)),
                None => None,
            }) == self@.measurements.found(measurement_key(binary_hash@, rp@)),
    {
        let key = MeasurementKey::new(
            bytes_clone(binary_hash),
            opt_text_clone(&rp.benchmark.runner),
            opt_text_clone(&rp.shield),
        );
        let found = self.measurements.get(&key);
        (key, found)
    }

    /// Whether nothing is left to do for `rp`: the hash of its binary is
    /// stored, and so is a successful measurement for that hash. Nothing is
    /// changed by asking.
    pub fn plan_can_be_skipped_with_no_work(&self, rp: &RunPlan) -> (skip: bool)
        ensures
            skip == self@.can_skip(rp@),
    {
        match self.existing_binary_hash(rp) {
            (_, Some(hash)) => match self.existing_estimates(rp, &hash) {
                (_, Some(Ok(_))) => true,
                _ => false,
            },
            _ => false,
        }
    }

    fn pending_plans(&self, plans: &Vec<RunPlan>) -> (kept: Vec<RunPlan>)
        ensures
            plans_view(kept@) == pending(self@, plans_view(plans@)),
    {
        let ghost all = plans_view(plans@);
        let ghost wanted = |plan: RunPlanView| !self@.can_skip(plan);
        let mut kept: Vec<RunPlan> = Vec::new();
        let mut i: usize = 0;
        proof {
            reveal(Seq::filter);
        }
        while i < plans.len()
            invariant
                i <= plans.len(),
                all == plans_view(plans@),
                wanted == (|plan: RunPlanView| !self@.can_skip(plan)),
                plans_view(kept@) == all.take(i as int).filter(wanted),
            decreases plans.len() - i,
        {
            let skip = self.plan_can_be_skipped_with_no_work(&plans[i]);
            if !skip {
                kept.push(plans[i].clone());
            }
            proof {
                lemma_filter_push(all.take(i as int), all[i as int], wanted);
                assert(all.take(i + 1) =~= all.take(i as int).push(all[i as int]));
            }
            i += 1;
        }
        assert(all.take(plans.len() as int) =~= all);
        kept
    }

    /// The work that is left of `plans`, grouped as `plans` is: each
    /// toolchain with those of its plans that cannot be skipped, and no
    /// toolchain all of whose plans can. Nothing is changed by asking, and no
    /// toolchain needs to be installed for it. See [`builds_needed`].
    pub fn compute_builds_needed(&self, plans: &Vec<PlanGroup>) -> (needed: Vec<PlanGroup>)
        ensures
            groups_view(needed@) == builds_needed(self@, groups_view(plans@)),
    {
        let ghost all = groups_view(plans@);
        let ghost left = all.map_values(|group: PlanGroupView| pending_group(self@, group));
        let ghost nonempty = |group: PlanGroupView| group.run_plans.len() > 0;
        let mut needed: Vec<PlanGroup> = Vec::new();
        let mut i: usize = 0;
        proof {
            reveal(Seq::filter);
        }
        while i < plans.len()
            invariant
                i <= plans.len(),
                all == groups_view(plans@),
                left == all.map_values(|group: PlanGroupView| pending_group(self@, group)),
                nonempty == (|group: PlanGroupView| group.run_plans.len() > 0),
                groups_view(needed@) == left.take(i as int).filter(nonempty),
            decreases plans.len() - i,
        {
            let run_plans = self.pending_plans(&plans[i].run_plans);
            let kept = run_plans.len() > 0;
            if kept {
                needed.push(PlanGroup { toolchain: plans[i].toolchain.clone(), run_plans });
            }
            proof {
                lemma_filter_push(left.take(i as int), left[i as int], nonempty);
                assert(left.take(i + 1) =~= left.take(i as int).push(left[i as int]));
            }
            i += 1;
        }
        assert(left.take(plans.len() as int) =~= left);
        needed
    }

    /// The entry that the outcome of a build becomes: see [`built_entry`].
    pub fn compute_binary_hash(&self, key: BuildKey, built: Result<Vec<u8>, String>) -> (entry:
        Result<Entry<BuildKey, Vec<u8>>, Failure>)
        ensures
            (match entry {
                Ok(entry) => Ok(entry@),
                Err(failure) => Err(failure@),
            }) == built_entry(
                self@,
                key@,
                match built {
                    Ok(hash) => Ok(hash@),
                    Err(why) => Err(why@),
                },
            ),
    {
        match built {
            Ok(hash) => Ok(Entry::New(key, Ok(hash), self.index.location().clone())),
            Err(why) => Err(Failure::Build(why)),
        }
    }

    /// The entry that the outcome of an attempt at a measurement becomes,
    /// after `retries` repetitions: a new one that holds the estimates, or
    /// the failure. See [`attempted`].
    pub fn compute_estimates(
        &self,
        key: MeasurementKey,
        retries: u8,
        attempt: Result<ResultFiles, ExecFailure>,
    ) -> (entry: Entry<MeasurementKey, Estimates>)
        ensures
            entry@ == EntryView::New(
                key@,
                attempted(retries, attempt_view(attempt)),
                self@.measurements.location,
            ),
    {
        let outcome = match attempt {
            Err(failure) => Err(Error::run(failure.message, retries, failure.retryable)),
            Ok(files) => match self.process(files) {
                Ok(estimates) => Ok(estimates),
                Err(why) => Err(Error::post_process(why, retries)),
            },
        };
        Entry::New(key, outcome, self.measurements.location().clone())
    }

    /// The estimates that the result files of an execution amount to, or why
    /// they amount to none: see [`processed`].
    pub fn process(&self, files: ResultFiles) -> (assembly: Result<Estimates, String>)
        ensures
            assembly_view(assembly) == processed(files@),
    {
        let primary = match files.primary {
            Ok(text) => read_json(text.as_str()),
            Err(why) => Err(why),
        };
        let secondary = match files.secondary {
            Some(text) => Some(read_json(text.as_str())),
            None => None,
        };
        Estimates::assemble(primary, secondary)
    }

    fn finish(
        &mut self,
        binary_hash: Entry<BuildKey, Vec<u8>>,
        estimates: Entry<MeasurementKey, Estimates>,
    ) -> (run: Run)
        ensures
            (final(self)@, run@) == finished(old(self)@, binary_hash@, estimates@),
    {
        match binary_hash.ensure_persisted(&mut self.index) {
            Err(failure) => Run::Finished(Err(failure)),
            Ok(()) => Run::Finished(estimates.ensure_persisted(&mut self.measurements)),
        }
    }

    fn measure(&mut self, rp: &RunPlan, binary_hash: Entry<BuildKey, Vec<u8>>) -> (run: Run)
        ensures
            (final(self)@, run@) == measured(old(self)@, rp@, binary_hash@),
    {
        let found = match binary_hash.value() {
            Some(hash) => {
                let (key, found) = self.existing_estimates(rp, hash);
                let cached = match found {
                    Some(Ok(estimates)) => Some(estimates.clone()),
                    _ => None,
                };
                Some((key, cached))
            },
            None => None,
        };
        match found {
            Some((_, Some(estimates))) => self.finish(binary_hash, Entry::Existing(estimates)),
            Some((key, None)) => Run::Executing { binary_hash, key, retries: 0 },
            None => Run::Finished(binary_hash.ensure_persisted(&mut self.index)),
        }
    }

    /// Starts the run of `rp`: from before its binary has been built through
    /// to storing its results. The run goes as far as the store carries it,
    /// which may be to its end, and then waits for outside work; [`resume`]
    /// takes it further. See [`started`].
    ///
    /// [`resume`]: Collector::resume
    pub fn run(&mut self, rp: &RunPlan) -> (run: Run)
        ensures
            (final(self)@, run@) == started(old(self)@, rp@),
    {
        let (build_key, found) = self.existing_binary_hash(rp);
        match found {
            Some(hash) => self.measure(rp, Entry::Existing(hash)),
            None => Run::Building { build_key },
        }
    }

    /// Takes a run further, now that the outside work it waited for has been
    /// done: see [`resumed`].
    pub fn resume(&mut self, run: Run, event: Event) -> (next: Run)
        ensures
            (final(self)@, next@) == resumed(old(self)@, run@, event@),
    {
        match (run, event) {
            (Run::Building { build_key }, Event::Built(built)) => {
                let plan = build_key.plan().clone();
                match self.compute_binary_hash(build_key, built) {
                    Ok(binary_hash) => self.measure(&plan, binary_hash),
                    Err(failure) => Run::Finished(Err(failure)),
                }
            },
            (Run::Executing { binary_hash, key, retries }, Event::Executed(Ok(()))) => {
                Run::Collecting { binary_hash, key, retries }
            },
            (Run::Executing { binary_hash, key, retries }, Event::Executed(Err(failure))) => {
                if failure.retryable && retries < crate::error::DEFAULT_MAX_RETRIES {
                    Run::Executing { binary_hash, key, retries: retries + 1 }
                } else {
                    let estimates = self.compute_estimates(key, retries, Err(failure));
                    self.finish(binary_hash, estimates)
                }
            },
            (Run::Collecting { binary_hash, key, retries }, Event::Collected(files)) => {
                let estimates = self.compute_estimates(key, retries, Ok(files));
                self.finish(binary_hash, estimates)
            },
            (run, _) => run,
        }
    }
}

} // verus!
