use bench_collector::plan::{Benchmark, RunPlan, Toolchain};

fn plan(toolchain: Option<Toolchain>) -> RunPlan {
    RunPlan {
        benchmark: Benchmark {
            crate_name: String::from("inflate"),
            name: String::from("decode"),
            runner: Some(String::from("local")),
        },
        shield: None,
        toolchain,
    }
}

#[test]
fn results_default_to_the_plain_target_directory() {
    let path = plan(None).primary_results();
    assert_eq!(path, vec!["target", "criterion", "inflate::decode", "new", "estimates.json"]);
}

#[test]
fn results_follow_the_toolchain() {
    let nightly = Toolchain { name: String::from("nightly"), target_dir: String::from("target-nightly") };
    let path = plan(Some(nightly)).secondary_results();
    assert_eq!(
        path,
        vec!["target-nightly", "criterion", "inflate::decode", "new", "metrics-estimates.json"]
    );
}
