//! Failures: of one attempt at a measurement, and of a run as a whole.

use vstd::prelude::*;

verus! {

/// How often a failed attempt may be repeated unless something else is asked
/// for.
pub const DEFAULT_MAX_RETRIES: u8 = 2;

/// The model of an [`ErrorKind`].
pub enum ErrorKindView {
    Run(Seq<char>),
    PostProcess(Seq<char>),
}

/// The stage at which an attempt failed, with a message for people.
#[derive(Debug, PartialEq, Eq)]
pub enum ErrorKind {
    /// The benchmark itself could not be executed.
    Run(String),
    /// The benchmark ran, but what it left behind could not be interpreted.
    PostProcess(String),
}

impl View for ErrorKind {
    type V = ErrorKindView;

    open spec fn view(&self) -> ErrorKindView {
        match self {
            ErrorKind::Run(message) => ErrorKindView::Run(message@),
            ErrorKind::PostProcess(message) => ErrorKindView::PostProcess(message@),
        }
    }
}

impl Clone for ErrorKind {
    fn clone(&self) -> (copy: Self)
        ensures
            copy@ == self@,
    {
        match self {
            ErrorKind::Run(message) => ErrorKind::Run(message.clone()),
            ErrorKind::PostProcess(message) => ErrorKind::PostProcess(message.clone()),
        }
    }
}

/// The model of an [`Error`].
pub struct ErrorView {
    pub kind: ErrorKindView,
    pub num_retries: u8,
    pub max_retries: u8,
    pub retryable: bool,
}

impl ErrorView {
    /// Whether the attempt that failed is worth repeating: the failure is of
    /// a kind that may pass, and the ceiling has not been reached.
    pub open spec fn should_retry(self) -> bool {
        self.retryable && self.num_retries < self.max_retries
    }
}

/// A failed attempt at a measurement, with the bookkeeping for repeating it.
#[derive(Debug, PartialEq, Eq)]
pub struct Error {
    pub kind: ErrorKind,
    /// How many attempts had been repeated before this one.
    pub num_retries: u8,
    /// How many attempts may be repeated at most.
    pub max_retries: u8,
    /// Whether a failure of this sort is worth another attempt at all.
    pub retryable: bool,
}

impl View for Error {
    type V = ErrorView;

    open spec fn view(&self) -> ErrorView {
        ErrorView {
            kind: self.kind@,
            num_retries: self.num_retries,
            max_retries: self.max_retries,
            retryable: self.retryable,
        }
    }
}

impl Clone for Error {
    fn clone(&self) -> (copy: Self)
        ensures
            copy@ == self@,
    {
        Error {
            kind: self.kind.clone(),
            num_retries: self.num_retries,
            max_retries: self.max_retries,
            retryable: self.retryable,
        }
    }
}

/// The model of a failed execution after `num_retries` repetitions.
pub open spec fn run_error(message: Seq<char>, num_retries: u8, retryable: bool) -> ErrorView {
    ErrorView {
        kind: ErrorKindView::Run(message),
        num_retries,
        max_retries: DEFAULT_MAX_RETRIES,
        retryable,
    }
}

/// The model of a failure to interpret the results of an execution that came
/// after `num_retries` repetitions. To execute again does not mend it.
pub open spec fn post_process_error(message: Seq<char>, num_retries: u8) -> ErrorView {
    ErrorView {
        kind: ErrorKindView::PostProcess(message),
        num_retries,
        max_retries: DEFAULT_MAX_RETRIES,
        retryable: false,
    }
}

impl Error {
    /// A failed execution.
    pub fn run(message: String, num_retries: u8, retryable: bool) -> (error: Error)
        ensures
            error@ == run_error(message@, num_retries, retryable),
    {
        Error {
            kind: ErrorKind::Run(message),
            num_retries,
            max_retries: DEFAULT_MAX_RETRIES,
            retryable,
        }
    }

    /// A failure to interpret what an execution left behind.
    pub fn post_process(message: String, num_retries: u8) -> (error: Error)
        ensures
            error@ == post_process_error(message@, num_retries),
    {
        Error {
            kind: ErrorKind::PostProcess(message),
            num_retries,
            max_retries: DEFAULT_MAX_RETRIES,
            retryable: false,
        }
    }

    /// Whether the attempt that failed is worth repeating.
    pub fn should_retry(&self) -> (again: bool)
        ensures
            again == self@.should_retry(),
    {
        self.retryable && self.num_retries < self.max_retries
    }

    /// The message that the failure carries.
    pub fn message(&self) -> (message: &String)
        ensures
            message@ == (match self@.kind {
                ErrorKindView::Run(m) => m,
                ErrorKindView::PostProcess(m) => m,
            }),
    {
        match &self.kind {
            ErrorKind::Run(message) => message,
            ErrorKind::PostProcess(message) => message,
        }
    }
}

/// The model of a stored outcome: a value, or the failure to compute it.
pub open spec fn outcome_view<V: View>(outcome: Result<V, Error>) -> Result<V::V, ErrorView> {
    match outcome {
        Ok(value) => Ok(value@),
        Err(error) => Err(error@),
    }
}

/// The model of a [`Failure`].
pub enum FailureView {
    Storage(Seq<char>),
    Toolchain(Seq<char>),
    Build(Seq<char>),
    Measurement(ErrorView),
}

/// Why a run, or a batch of runs, did not end well.
#[derive(Debug, PartialEq, Eq)]
pub enum Failure {
    /// The store could not be read or written.
    Storage(String),
    /// The toolchain could not be installed.
    Toolchain(String),
    /// The binary could not be built.
    Build(String),
    /// The measurement failed; the failure has been recorded.
    Measurement(Error),
}

impl View for Failure {
    type V = FailureView;

    open spec fn view(&self) -> FailureView {
        match self {
            Failure::Storage(message) => FailureView::Storage(message@),
            Failure::Toolchain(message) => FailureView::Toolchain(message@),
            Failure::Build(message) => FailureView::Build(message@),
            Failure::Measurement(error) => FailureView::Measurement(error@),
        }
    }
}

impl Clone for Failure {
    fn clone(&self) -> (copy: Self)
        ensures
            copy@ == self@,
    {
        match self {
            Failure::Storage(message) => Failure::Storage(message.clone()),
            Failure::Toolchain(message) => Failure::Toolchain(message.clone()),
            Failure::Build(message) => Failure::Build(message.clone()),
            Failure::Measurement(error) => Failure::Measurement(error.clone()),
        }
    }
}

impl FailureView {
    /// Whether the failure ends the batch that the run belongs to. A failed
    /// measurement does not: it is the recorded result of its plan, and the
    /// plans after it are still run.
    pub open spec fn stops_batch(self) -> bool {
        !(self is Measurement)
    }
}

impl Failure {
    /// Whether the failure ends the batch that the run belongs to.
    pub fn stops_batch(&self) -> (stops: bool)
        ensures
            stops == self@.stops_batch(),
    {
        match self {
            Failure::Measurement(_) => false,
            _ => true,
        }
    }
}

/// The model of how a run ended.
pub open spec fn end_view(end: Result<(), Failure>) -> Result<(), FailureView> {
    match end {
        Ok(()) => Ok(()),
        Err(failure) => Err(failure@),
    }
}

} // verus!
