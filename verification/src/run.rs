//! The run of one plan: where it stands, what it waits for, and the events
//! that move it on.

use crate::error::{end_view, Failure};
use crate::estimates::ResultFiles;
use crate::model::{EventView, ExecFailureView, RunView};
use crate::storage::{BuildKey, Entry, MeasurementKey};
use vstd::prelude::*;

verus! {

/// An execution that failed: why, and whether another attempt may pass.
#[derive(Debug, PartialEq, Eq)]
pub struct ExecFailure {
    pub message: String,
    pub retryable: bool,
}

impl View for ExecFailure {
    type V = ExecFailureView;

    open spec fn view(&self) -> ExecFailureView {
        ExecFailureView { message: self.message@, retryable: self.retryable }
    }
}

/// How a piece of outside work went.
#[derive(Debug, PartialEq, Eq)]
pub enum Event {
    /// The toolchain was installed, or could not be.
    Installed(Result<(), String>),
    /// The binary was built and has this hash, or could not be built.
    Built(Result<Vec<u8>, String>),
    /// The benchmark was executed, or could not be.
    Executed(Result<(), ExecFailure>),
    /// The result files of the execution were looked for.
    Collected(ResultFiles),
}

impl View for Event {
    type V = EventView;

    open spec fn view(&self) -> EventView {
        match self {
            Event::Installed(Ok(())) => EventView::Installed(Ok(())),
            Event::Installed(Err(why)) => EventView::Installed(Err(why@)),
            Event::Built(Ok(hash)) => EventView::Built(Ok(hash@)),
            Event::Built(Err(why)) => EventView::Built(Err(why@)),
            Event::Executed(Ok(())) => EventView::Executed(Ok(())),
            Event::Executed(Err(failure)) => EventView::Executed(Err(failure@)),
            Event::Collected(files) => EventView::Collected(files@),
        }
    }
}

/// The outside work that a run or a batch waits for.
#[derive(Clone, Copy, Debug, PartialEq, Eq, Structural)]
pub enum Work {
    /// Install the toolchain, and keep it installed until the batch is over.
    Install,
    /// Build the binary of the plan and take its hash.
    Build,
    /// Execute the benchmark.
    Execute,
    /// Read the result files that the execution left behind.
    Collect,
    /// Nothing: it is over.
    Nothing,
}

/// Where the run of one plan stands.
#[derive(Debug)]
pub enum Run {
    /// No hash is known for the plan: its binary has to be built.
    Building { build_key: BuildKey },
    /// The hash is known, a successful measurement is not: the benchmark has
    /// to be executed. `retries` counts the executions that failed so far.
    Executing { binary_hash: Entry<BuildKey, Vec<u8>>, key: MeasurementKey, retries: u8 },
    /// The benchmark was executed: its results have to be read.
    Collecting { binary_hash: Entry<BuildKey, Vec<u8>>, key: MeasurementKey, retries: u8 },
    /// The run is over.
    Finished(Result<(), Failure>),
}

impl View for Run {
    type V = RunView;

    open spec fn view(&self) -> RunView {
        match self {
            Run::Building { build_key } => RunView::Building { build_key: build_key@ },
            Run::Executing { binary_hash, key, retries } => RunView::Executing {
                binary_hash: binary_hash@,
                key: key@,
                retries: *retries,
            },
            Run::Collecting { binary_hash, key, retries } => RunView::Collecting {
                binary_hash: binary_hash@,
                key: key@,
                retries: *retries,
            },
            Run::Finished(end) => RunView::Finished(end_view(*end)),
        }
    }
}

impl RunView {
    /// The outside work that the run waits for.
    pub open spec fn pending(self) -> Work {
        match self {
            RunView::Building { .. } => Work::Build,
            RunView::Executing { .. } => Work::Execute,
            RunView::Collecting { .. } => Work::Collect,
            RunView::Finished(_) => Work::Nothing,
        }
    }
}

impl Run {
    /// The outside work that the run waits for.
    pub fn pending(&self) -> (work: Work)
        ensures
            work == self@.pending(),
    {
        match self {
            Run::Building { .. } => Work::Build,
            Run::Executing { .. } => Work::Execute,
            Run::Collecting { .. } => Work::Collect,
            Run::Finished(_) => Work::Nothing,
        }
    }

    /// How the run ended, once it is over.
    pub fn end(&self) -> (end: Option<&Result<(), Failure>>)
        ensures
            (match end {
                Some(end) => Some(end_view(*end)),
                None => None,
            }) == (match self@ {
                RunView::Finished(end) => Some(end),
                _ => None,
            }),
    {
        match self {
            Run::Finished(end) => Some(end),
            _ => None,
        }
    }
}

} // verus!
