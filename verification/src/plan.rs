//! Run-plans: what to build, and where and how to benchmark it.

use vstd::prelude::*;
use vstd::string::*;

verus! {

/// The model of an optional text.
pub open spec fn opt_text(text: Option<String>) -> Option<Seq<char>> {
    match text {
        Some(t) => Some(t@),
        None => None,
    }
}

/// Whether two optional texts hold the same characters.
pub fn opt_text_matches(a: &Option<String>, b: &Option<String>) -> (same: bool)
    ensures
        same == (opt_text(*a) == opt_text(*b)),
{
    match (a, b) {
        (Some(x), Some(y)) => *x == *y,
        (None, None) => true,
        _ => false,
    }
}

/// A copy of an optional text.
pub fn opt_text_clone(text: &Option<String>) -> (copy: Option<String>)
    ensures
        opt_text(copy) == opt_text(*text),
{
    match text {
        Some(t) => Some(t.clone()),
        None => None,
    }
}

/// The model of a [`Toolchain`].
pub struct ToolchainView {
    pub name: Seq<char>,
    pub target_dir: Seq<char>,
}

/// A build configuration that can produce a binary.
#[derive(Debug, PartialEq, Eq)]
pub struct Toolchain {
    /// What identifies the toolchain.
    pub name: String,
    /// Where builds under this toolchain put their output.
    pub target_dir: String,
}

impl View for Toolchain {
    type V = ToolchainView;

    open spec fn view(&self) -> ToolchainView {
        ToolchainView { name: self.name@, target_dir: self.target_dir@ }
    }
}

impl Clone for Toolchain {
    fn clone(&self) -> (copy: Self)
        ensures
            copy@ == self@,
    {
        Toolchain { name: self.name.clone(), target_dir: self.target_dir.clone() }
    }
}

impl Toolchain {
    /// Whether two toolchains are structurally identical.
    pub fn matches(&self, other: &Toolchain) -> (same: bool)
        ensures
            same == (self@ == other@),
    {
        self.name == other.name && self.target_dir == other.target_dir
    }
}

/// The model of an optional toolchain.
pub open spec fn opt_toolchain(toolchain: Option<Toolchain>) -> Option<ToolchainView> {
    match toolchain {
        Some(t) => Some(t@),
        None => None,
    }
}

/// The model of a [`Benchmark`].
pub struct BenchmarkView {
    pub crate_name: Seq<char>,
    pub name: Seq<char>,
    pub runner: Option<Seq<char>>,
}

/// One benchmark function of one crate, and the machine that is to run it.
#[derive(Debug, PartialEq, Eq)]
pub struct Benchmark {
    /// The crate (or module) that holds the benchmark.
    pub crate_name: String,
    /// The benchmark's own name.
    pub name: String,
    /// Which runner executes the benchmark; `None` for any.
    pub runner: Option<String>,
}

impl View for Benchmark {
    type V = BenchmarkView;

    open spec fn view(&self) -> BenchmarkView {
        BenchmarkView {
            crate_name: self.crate_name@,
            name: self.name@,
            runner: opt_text(self.runner),
        }
    }
}

impl Clone for Benchmark {
    fn clone(&self) -> (copy: Self)
        ensures
            copy@ == self@,
    {
        Benchmark {
            crate_name: self.crate_name.clone(),
            name: self.name.clone(),
            runner: opt_text_clone(&self.runner),
        }
    }
}

impl Benchmark {
    /// Whether two benchmarks are structurally identical.
    pub fn matches(&self, other: &Benchmark) -> (same: bool)
        ensures
            same == (self@ == other@),
    {
        self.crate_name == other.crate_name && self.name == other.name && opt_text_matches(
            &self.runner,
            &other.runner,
        )
    }
}

/// The model of a [`RunPlan`].
pub struct RunPlanView {
    pub benchmark: BenchmarkView,
    pub shield: Option<Seq<char>>,
    pub toolchain: Option<ToolchainView>,
}

/// A fully specified request to build and benchmark one configuration. Two
/// plans with the same model are the same request.
#[derive(Debug, PartialEq, Eq)]
pub struct RunPlan {
    pub benchmark: Benchmark,
    /// How the benchmark is isolated while it runs; `None` for no isolation.
    pub shield: Option<String>,
    /// The toolchain to build with; `None` for the ambient one.
    pub toolchain: Option<Toolchain>,
}

impl View for RunPlan {
    type V = RunPlanView;

    open spec fn view(&self) -> RunPlanView {
        RunPlanView {
            benchmark: self.benchmark@,
            shield: opt_text(self.shield),
            toolchain: opt_toolchain(self.toolchain),
        }
    }
}

impl Clone for RunPlan {
    fn clone(&self) -> (copy: Self)
        ensures
            copy@ == self@,
    {
        RunPlan {
            benchmark: self.benchmark.clone(),
            shield: opt_text_clone(&self.shield),
            toolchain: match &self.toolchain {
                Some(t) => Some(t.clone()),
                None => None,
            },
        }
    }
}

/// Where a plan's output goes when it names no toolchain.
pub open spec fn default_target_dir() -> Seq<char> {
    "target"@
}

/// The directory under which the plan's build and its benchmark put their
/// output.
pub open spec fn target_dir_of(plan: RunPlanView) -> Seq<char> {
    match plan.toolchain {
        Some(t) => t.target_dir,
        None => default_target_dir(),
    }
}

/// The path, component by component, of the file `file` among the results
/// that an execution of the plan leaves behind.
pub open spec fn results_path(plan: RunPlanView, file: Seq<char>) -> Seq<Seq<char>> {
    seq![
        target_dir_of(plan),
        "criterion"@,
        plan.benchmark.crate_name + "::"@ + plan.benchmark.name,
        "new"@,
        file,
    ]
}

/// The name of the file that holds the timing statistics of an execution.
pub open spec fn primary_results_file() -> Seq<char> {
    "estimates.json"@
}

/// The name of the file that may hold the estimates of further metrics.
pub open spec fn secondary_results_file() -> Seq<char> {
    "metrics-estimates.json"@
}

impl RunPlan {
    /// Whether two plans are structurally identical.
    pub fn matches(&self, other: &RunPlan) -> (same: bool)
        ensures
            same == (self@ == other@),
    {
        let same_toolchain = match (&self.toolchain, &other.toolchain) {
            (Some(a), Some(b)) => a.matches(b),
            (None, None) => true,
            _ => false,
        };
        same_toolchain && self.benchmark.matches(&other.benchmark) && opt_text_matches(
            &self.shield,
            &other.shield,
        )
    }

    fn results_file(&self, file: &str) -> (path: Vec<String>)
        ensures
            path.deep_view() == results_path(self@, file@),
    {
        let target_dir = match &self.toolchain {
            Some(t) => t.target_dir.clone(),
            None => "target".to_owned(),
        };
        let bench = self.benchmark.crate_name.clone().concat("::").concat(
            self.benchmark.name.as_str(),
        );
        let mut path: Vec<String> = Vec::new();
        path.push(target_dir);
        path.push("criterion".to_owned());
        path.push(bench);
        path.push("new".to_owned());
        path.push(file.to_owned());
        path
    }

    /// The path of the file that holds the timing statistics once the plan has
    /// been executed.
    pub fn primary_results(&self) -> (path: Vec<String>)
        ensures
            path.deep_view() == results_path(self@, primary_results_file()),
    {
        self.results_file("estimates.json")
    }

    /// The path of the file that holds the estimates of further metrics, where
    /// the execution wrote one.
    pub fn secondary_results(&self) -> (path: Vec<String>)
        ensures
            path.deep_view() == results_path(self@, secondary_results_file()),
    {
        self.results_file("metrics-estimates.json")
    }
}

/// The models of a list of plans.
pub open spec fn plans_view(plans: Seq<RunPlan>) -> Seq<RunPlanView> {
    plans.map_values(|plan: RunPlan| plan@)
}

/// The model of a [`PlanGroup`].
pub struct PlanGroupView {
    pub toolchain: ToolchainView,
    pub run_plans: Seq<RunPlanView>,
}

/// A toolchain and the plans to run under it, so that the toolchain is
/// installed once for all of them.
#[derive(Debug, PartialEq, Eq)]
pub struct PlanGroup {
    pub toolchain: Toolchain,
    pub run_plans: Vec<RunPlan>,
}

impl View for PlanGroup {
    type V = PlanGroupView;

    open spec fn view(&self) -> PlanGroupView {
        PlanGroupView { toolchain: self.toolchain@, run_plans: plans_view(self.run_plans@) }
    }
}

/// The models of a list of groups.
pub open spec fn groups_view(groups: Seq<PlanGroup>) -> Seq<PlanGroupView> {
    groups.map_values(|group: PlanGroup| group@)
}

} // verus!
