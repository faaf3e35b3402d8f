use envicutor::execution::{plan_stage, runtime_dir, Execution, Stage, Step};
use envicutor::isolate::StageResult;
use envicutor::limits::MandatoryLimits;

fn result(code: u32) -> StageResult {
    StageResult {
        memory: None,
        exit_code: Some(code),
        exit_signal: None,
        exit_message: None,
        exit_status: None,
        stdout: String::new(),
        stderr: String::new(),
        cpu_time: None,
        wall_time: None,
    }
}

fn drive(is_project: bool, is_compiled: bool, codes: &[u32]) -> (Vec<Step>, Execution) {
    let mut e = Execution::new(is_project, is_compiled);
    let mut steps = Vec::new();
    let mut codes = codes.iter();
    loop {
        let s = e.next_step();
        steps.push(s);
        match s {
            Step::RunStage(stage) => e.record(stage, result(*codes.next().unwrap())),
            Step::Renew => e.renewed(),
            Step::Respond => return (steps, e),
        }
    }
}

#[test]
fn interpreted_runs_only_the_program() {
    let (steps, e) = drive(false, false, &[0]);
    assert_eq!(steps, vec![Step::RunStage(Stage::Run), Step::Respond]);
    let r = e.into_response();
    assert!(r.extract.is_none() && r.compile.is_none());
    assert_eq!(r.run.unwrap().exit_code, Some(0));
}

#[test]
fn compiled_renews_between_compile_and_run() {
    let (steps, e) = drive(false, true, &[0, 0]);
    assert_eq!(
        steps,
        vec![Step::RunStage(Stage::Compile), Step::Renew, Step::RunStage(Stage::Run), Step::Respond]
    );
    let r = e.into_response();
    assert!(r.compile.is_some() && r.run.is_some() && r.extract.is_none());
}

#[test]
fn failing_compile_skips_run() {
    let (steps, e) = drive(false, true, &[1]);
    assert_eq!(steps, vec![Step::RunStage(Stage::Compile), Step::Respond]);
    let r = e.into_response();
    assert_eq!(r.compile.unwrap().exit_code, Some(1));
    assert!(r.run.is_none());
}

#[test]
fn project_extracts_then_compiles_then_runs() {
    let (steps, e) = drive(true, true, &[0, 0, 5]);
    assert_eq!(
        steps,
        vec![
            Step::RunStage(Stage::Extract),
            Step::Renew,
            Step::RunStage(Stage::Compile),
            Step::Renew,
            Step::RunStage(Stage::Run),
            Step::Respond
        ]
    );
    let r = e.into_response();
    assert!(r.extract.is_some() && r.compile.is_some());
    assert_eq!(r.run.unwrap().exit_code, Some(5));
}

#[test]
fn failing_extraction_stops_everything() {
    let (steps, e) = drive(true, true, &[9]);
    assert_eq!(steps, vec![Step::RunStage(Stage::Extract), Step::Respond]);
    let r = e.into_response();
    assert!(r.extract.is_some() && r.compile.is_none() && r.run.is_none());
}

#[test]
fn run_failure_is_still_answered() {
    let (steps, e) = drive(true, false, &[0, 3]);
    assert_eq!(
        steps,
        vec![Step::RunStage(Stage::Extract), Step::Renew, Step::RunStage(Stage::Run), Step::Respond]
    );
    assert!(e.into_response().compile.is_none());
}

fn limits(n: u32) -> MandatoryLimits {
    MandatoryLimits {
        wall_time: n,
        cpu_time: n,
        memory: n,
        extra_time: n,
        max_open_files: n,
        max_file_size: n,
        max_number_of_processes: n,
    }
}

#[test]
fn runtime_directory_path() {
    assert_eq!(runtime_dir("/envicutor/runtimes", 7), "/envicutor/runtimes/7");
}

#[test]
fn extract_plan() {
    let p = plan_stage(Stage::Extract, "/rt", 3, &limits(1), &limits(2), &Some("x".to_string()));
    assert_eq!(p.argv, vec!["unzip", "-qq", "source.zip"]);
    assert!(p.mounts.is_empty());
    assert_eq!(p.limits, limits(1));
    assert_eq!(p.env_file, None);
    assert_eq!(p.stdin, None);
}

#[test]
fn compile_plan() {
    let p = plan_stage(Stage::Compile, "/rt", 3, &limits(1), &limits(2), &Some("x".to_string()));
    assert_eq!(p.argv, vec!["/runtime/compile"]);
    assert_eq!(p.mounts, vec!["/nix", "/runtime=/rt/3"]);
    assert_eq!(p.limits, limits(1));
    assert_eq!(p.env_file.as_deref(), Some("/rt/3/env"));
    assert_eq!(p.stdin, None);
}

#[test]
fn run_plan_appends_newline_to_input() {
    let p = plan_stage(Stage::Run, "/rt", 3, &limits(1), &limits(2), &Some("1 2".to_string()));
    assert_eq!(p.argv, vec!["/runtime/run"]);
    assert_eq!(p.mounts, vec!["/nix", "/runtime=/rt/3"]);
    assert_eq!(p.limits, limits(2));
    assert_eq!(p.env_file.as_deref(), Some("/rt/3/env"));
    assert_eq!(p.stdin.as_deref(), Some("1 2\n"));
    let q = plan_stage(Stage::Run, "/rt", 3, &limits(1), &limits(2), &None);
    assert_eq!(q.stdin, None);
    let e = plan_stage(Stage::Run, "/rt", 3, &limits(1), &limits(2), &Some(String::new()));
    assert_eq!(e.stdin.as_deref(), Some(""));
}
