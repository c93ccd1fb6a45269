//! The batch: the plans that are run under one toolchain, one after the
//! other, while the toolchain stays installed.

use crate::collector::Collector;
use crate::error::{end_view, Failure};
use crate::model::{advanced, goes_on, settled, BatchStageView, BatchView, RunView};
use crate::plan::{plans_view, RunPlan, Toolchain};
use crate::run::{Event, Run, Work};
use vstd::prelude::*;

verus! {

#[derive(Debug)]
enum Stage {
    Installing,
    Running(Run),
    Finished(Result<(), Failure>),
}

impl View for Stage {
    type V = BatchStageView;

    closed spec fn view(&self) -> BatchStageView {
        match self {
            Stage::Installing => BatchStageView::Installing,
            Stage::Running(run) => BatchStageView::Running(run@),
            Stage::Finished(end) => BatchStageView::Finished(end_view(*end)),
        }
    }
}

/// A batch of plans under one toolchain, and how far it has come.
#[derive(Debug)]
pub struct Batch {
    toolchain: Toolchain,
    plans: Vec<RunPlan>,
    position: usize,
    stage: Stage,
}

impl View for Batch {
    type V = BatchView;

    closed spec fn view(&self) -> BatchView {
        BatchView {
            toolchain: self.toolchain@,
            plans: plans_view(self.plans@),
            position: self.position as int,
            stage: self.stage@,
        }
    }
}

impl BatchView {
    /// The outside work that the batch waits for.
    pub open spec fn pending(self) -> Work {
        match self.stage {
            BatchStageView::Installing => Work::Install,
            BatchStageView::Running(run) => run.pending(),
            BatchStageView::Finished(_) => Work::Nothing,
        }
    }

    /// The plan in hand: the one whose run the batch waits for.
    pub open spec fn plan(self) -> Option<crate::plan::RunPlanView> {
        if self.stage is Running && 0 <= self.position < self.plans.len() {
            Some(self.plans[self.position])
        } else {
            None
        }
    }

    /// How the batch ended, once it is over.
    pub open spec fn end(self) -> Option<Result<(), crate::error::FailureView>> {
        match self.stage {
            BatchStageView::Finished(end) => Some(end),
            _ => None,
        }
    }
}

impl Batch {
    #[verifier::type_invariant]
    spec fn well_formed(self) -> bool {
        self.stage is Running ==> self.position < self.plans@.len()
    }

    /// The toolchain under which the plans are run.
    pub fn toolchain(&self) -> (toolchain: &Toolchain)
        ensures
            toolchain@ == self@.toolchain,
    {
        &self.toolchain
    }

    /// The outside work that the batch waits for.
    pub fn pending(&self) -> (work: Work)
        ensures
            work == self@.pending(),
    {
        match &self.stage {
            Stage::Installing => Work::Install,
            Stage::Running(run) => run.pending(),
            Stage::Finished(_) => Work::Nothing,
        }
    }

    /// The plan in hand: the one whose run the batch waits for.
    pub fn plan(&self) -> (plan: Option<&RunPlan>)
        ensures
            (match plan {
                Some(plan) => Some(plan@),
                None => None,
            }) == self@.plan(),
    {
        proof {
            use_type_invariant(self);
        }
        match &self.stage {
            Stage::Running(_) => Some(&self.plans[self.position]),
            _ => None,
        }
    }

    /// How the batch ended, once it is over.
    pub fn end(&self) -> (end: Option<&Result<(), Failure>>)
        ensures
            (match end {
                Some(end) => Some(end_view(*end)),
                None => None,
            }) == self@.end(),
    {
        match &self.stage {
            Stage::Finished(end) => Some(end),
            _ => None,
        }
    }
}

/// Whether the run is over in a way that lets the batch go on to its next
/// plan.
fn moves_on(run: &Run) -> (on: bool)
    ensures
        on == (run@ matches RunView::Finished(end) && goes_on(end)),
{
    match run {
        Run::Finished(Ok(())) => true,
        Run::Finished(Err(failure)) => !failure.stops_batch(),
        _ => false,
    }
}

impl Collector {
    /// Starts a batch: the plans `run_plans`, to be run in their order under
    /// `toolchain`. The batch begins by waiting for the toolchain to be
    /// installed; [`advance`] takes it further.
    ///
    /// [`advance`]: Collector::advance
    pub fn run_benches_with_toolchain(&self, toolchain: Toolchain, run_plans: Vec<RunPlan>) -> (batch:
        Batch)
        ensures
            batch@ == (BatchView {
                toolchain: toolchain@,
                plans: plans_view(run_plans@),
                position: 0,
                stage: BatchStageView::Installing,
            }),
    {
        Batch { toolchain, plans: run_plans, position: 0, stage: Stage::Installing }
    }

    fn settle(&mut self, toolchain: Toolchain, plans: Vec<RunPlan>, from: usize) -> (batch: Batch)
        requires
            from <= plans@.len(),
        ensures
            (final(self)@, batch@) == settled(
                old(self)@,
                toolchain@,
                plans_view(plans@),
                from as int,
            ),
    {
        let ghost all = plans_view(plans@);
        let mut position: usize = from;
        while position < plans.len()
            invariant
                position <= plans@.len(),
                all == plans_view(plans@),
                settled(self@, toolchain@, all, position as int) == settled(
                    old(self)@,
                    toolchain@,
                    all,
                    from as int,
                ),
            decreases plans.len() - position,
        {
            let run = self.run(&plans[position]);
            if !moves_on(&run) {
                let stage = match run {
                    Run::Finished(end) => Stage::Finished(end),
                    run => Stage::Running(run),
                };
                return Batch { toolchain, plans, position, stage };
            }
            position += 1;
        }
        Batch { toolchain, plans, position, stage: Stage::Finished(Ok(())) }
    }

    /// Takes a batch further, now that the outside work it waited for has
    /// been done: see [`advanced`].
    pub fn advance(&mut self, batch: Batch, event: Event) -> (next: Batch)
        ensures
            (final(self)@, next@) == advanced(old(self)@, batch@, event@),
    {
        proof {
            use_type_invariant(&batch);
        }
        let Batch { toolchain, plans, position, stage } = batch;
        match stage {
            Stage::Installing => match event {
                Event::Installed(Ok(())) => self.settle(toolchain, plans, 0),
                Event::Installed(Err(why)) => Batch {
                    toolchain,
                    plans,
                    position,
                    stage: Stage::Finished(Err(Failure::Toolchain(why))),
                },
                _ => Batch { toolchain, plans, position, stage: Stage::Installing },
            },
            Stage::Running(run) => {
                // The plan in hand is one of the plans: there is a position
                // behind it.
                let count = plans.len();
                assert(position < count);
                let run = self.resume(run, event);
                if moves_on(&run) {
                    self.settle(toolchain, plans, position + 1)
                } else {
                    let stage = match run {
                        Run::Finished(end) => Stage::Finished(end),
                        run => Stage::Running(run),
                    };
                    Batch { toolchain, plans, position, stage }
                }
            },
            Stage::Finished(end) => Batch { toolchain, plans, position, stage: Stage::Finished(end) },
        }
    }
}

} // verus!
