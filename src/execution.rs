use vstd::prelude::*;
use vstd::string::*;
use crate::isolate::{views, StageResult};
use crate::limits::{Limits, MandatoryLimits};
use crate::text::{concat_str, decimal_text, push_decimal, with_newline, NewLine};

verus! {

/// The file name a project archive is stored under.
pub const SOURCE_ZIP_NAME: &'static str = "source.zip";

/// The working directory of every stage, inside the sandbox.
pub const SUBMISSION_WORKDIR: &'static str = "/box/submission";

/// The query of an execution: whether the source is a base64 zip archive.
#[derive(Debug, Clone, Copy)]
pub struct ExecutionQuery {
    pub is_project: bool,
}

/// A submission.
#[derive(Debug)]
pub struct ExecutionRequest {
    pub runtime_id: u32,
    pub source_code: String,
    pub input: Option<String>,
    pub compile_limits: Option<Limits>,
    pub run_limits: Option<Limits>,
}

/// The outcome of the stages that ran.
#[derive(Debug)]
pub struct ExecutionResponse {
    pub extract: Option<StageResult>,
    pub compile: Option<StageResult>,
    pub run: Option<StageResult>,
}

/// A stage of an execution.
#[derive(Debug, Clone, Copy, PartialEq, Eq, Structural)]
pub enum Stage {
    Extract,
    Compile,
    Run,
}

/// What the coordinator does next.
#[derive(Debug, Clone, Copy, PartialEq, Eq, Structural)]
pub enum Step {
    /// Run this stage in the current sandbox.
    RunStage(Stage),
    /// Move the submission into a fresh sandbox, dropping the old one.
    Renew,
    /// Answer with the response as it stands.
    Respond,
}

/// Whether a stage's program exited with code 0.
pub open spec fn succeeded(r: Option<StageResult>) -> bool {
    match r {
        Some(res) => res.exit_code == Some(0u32),
        None => false,
    }
}

fn stage_succeeded(r: &Option<StageResult>) -> (b: bool)
    ensures
        b == succeeded(*r),
{
    match r {
        Some(res) => match res.exit_code {
            Some(c) => c == 0,
            None => false,
        },
        None => false,
    }
}

/// An execution in progress: the stages it needs, what they gave so far,
/// and whether the box is to be renewed before the next stage.
#[derive(Debug)]
pub struct Execution {
    pub is_project: bool,
    pub is_compiled: bool,
    pub response: ExecutionResponse,
    pub renew_pending: bool,
}

impl Execution {
    /// The step that follows from the state: renew when pending; else the
    /// first stage that is needed and has not run, unless a stage that ran
    /// failed; else answer.
    pub open spec fn next_step_of(&self) -> Step {
        let r = self.response;
        if self.renew_pending {
            Step::Renew
        } else if self.is_project && r.extract is None {
            Step::RunStage(Stage::Extract)
        } else if r.extract is Some && !succeeded(r.extract) {
            Step::Respond
        } else if self.is_compiled && r.compile is None {
            Step::RunStage(Stage::Compile)
        } else if r.compile is Some && !succeeded(r.compile) {
            Step::Respond
        } else if r.run is None {
            Step::RunStage(Stage::Run)
        } else {
            Step::Respond
        }
    }

    /// The states that the steps reach from a new execution.
    pub open spec fn wf(&self) -> bool {
        let r = self.response;
        &&& r.extract is Some ==> self.is_project
        &&& r.compile is Some ==> self.is_compiled && (self.is_project ==> succeeded(r.extract))
        &&& r.run is Some ==> (self.is_project ==> succeeded(r.extract)) && (self.is_compiled
            ==> succeeded(r.compile))
        &&& self.renew_pending ==> r.run is None && (if r.compile is Some {
            succeeded(r.compile)
        } else {
            r.extract is Some && succeeded(r.extract)
        })
    }

    /// Stage gating, of a response as it is answered: extraction ran exactly
    /// for a project; compilation exactly for a compiled runtime whose
    /// extraction, if any, succeeded; the run exactly when every stage before
    /// it that ran succeeded.
    pub open spec fn gated(&self) -> bool {
        let r = self.response;
        &&& (r.extract is Some <==> self.is_project)
        &&& (r.compile is Some <==> self.is_compiled && (!self.is_project || succeeded(
            r.extract,
        )))
        &&& (r.run is Some <==> (!self.is_project || succeeded(r.extract)) && (!self.is_compiled
            || succeeded(r.compile)))
    }

    /// A measure of the steps left.
    pub open spec fn steps_left(&self) -> nat {
        let r = self.response;
        (if r.extract is None { 2nat } else { 0nat }) + (if r.compile is None { 2nat } else { 0nat })
            + (if r.run is None { 2nat } else { 0nat }) + (if self.renew_pending { 1nat } else { 0nat })
    }

    /// A new execution of a submission.
    pub fn new(is_project: bool, is_compiled: bool) -> (r: Execution)
        ensures
            r.wf(),
            r.is_project == is_project,
            r.is_compiled == is_compiled,
            r.response.extract is None,
            r.response.compile is None,
            r.response.run is None,
            !r.renew_pending,
    {
        Execution {
            is_project,
            is_compiled,
            response: ExecutionResponse { extract: None, compile: None, run: None },
            renew_pending: false,
        }
    }

    /// The next step.
    pub fn next_step(&self) -> (s: Step)
        ensures
            s == self.next_step_of(),
    {
        let r = &self.response;
        if self.renew_pending {
            Step::Renew
        } else if self.is_project && r.extract.is_none() {
            Step::RunStage(Stage::Extract)
        } else if r.extract.is_some() && !stage_succeeded(&r.extract) {
            Step::Respond
        } else if self.is_compiled && r.compile.is_none() {
            Step::RunStage(Stage::Compile)
        } else if r.compile.is_some() && !stage_succeeded(&r.compile) {
            Step::Respond
        } else if r.run.is_none() {
            Step::RunStage(Stage::Run)
        } else {
            Step::Respond
        }
    }

    /// Takes in the result of the stage that the last step ran. A successful
    /// extraction or compilation asks for a renewed box before going on.
    pub fn record(&mut self, stage: Stage, result: StageResult)
        requires
            old(self).wf(),
            old(self).next_step_of() == Step::RunStage(stage),
        ensures
            final(self).wf(),
            final(self).steps_left() < old(self).steps_left(),
            final(self).is_project == old(self).is_project,
            final(self).is_compiled == old(self).is_compiled,
            final(self).renew_pending == (stage != Stage::Run && result.exit_code == Some(0u32)),
            match stage {
                Stage::Extract => final(self).response.extract == Some(result)
                    && final(self).response.compile == old(self).response.compile
                    && final(self).response.run == old(self).response.run,
                Stage::Compile => final(self).response.compile == Some(result)
                    && final(self).response.extract == old(self).response.extract
                    && final(self).response.run == old(self).response.run,
                Stage::Run => final(self).response.run == Some(result)
                    && final(self).response.extract == old(self).response.extract
                    && final(self).response.compile == old(self).response.compile,
            },
    {
        let ok = match result.exit_code {
            Some(c) => c == 0,
            None => false,
        };
        match stage {
            Stage::Extract => {
                self.response.extract = Some(result);
                self.renew_pending = ok;
            },
            Stage::Compile => {
                self.response.compile = Some(result);
                self.renew_pending = ok;
            },
            Stage::Run => {
                self.response.run = Some(result);
                self.renew_pending = false;
            },
        }
    }

    /// Takes in that the box was renewed.
    pub fn renewed(&mut self)
        requires
            old(self).wf(),
            old(self).next_step_of() == Step::Renew,
        ensures
            final(self).wf(),
            final(self).steps_left() < old(self).steps_left(),
            final(self).is_project == old(self).is_project,
            final(self).is_compiled == old(self).is_compiled,
            final(self).response == old(self).response,
            !final(self).renew_pending,
    {
        self.renew_pending = false;
    }

    /// The response, once answered.
    pub fn into_response(self) -> (r: ExecutionResponse)
        requires
            self.wf(),
            self.next_step_of() == Step::Respond,
        ensures
            r == self.response,
            self.gated(),
    {
        proof {
            lemma_stage_gating(self);
        }
        self.response
    }
}

/// Stage gating: whatever the stages reported, when an execution that
/// started new answers, extraction is present exactly for a project,
/// compilation exactly for a compiled runtime whose extraction (if any)
/// exited 0, and the run exactly when extraction and compilation, where they
/// ran, both exited 0.
pub proof fn lemma_stage_gating(e: Execution)
    requires
        e.wf(),
        e.next_step_of() == Step::Respond,
    ensures
        e.gated(),
{
}

/// What running one stage takes: the command, the mounts, the limits, the
/// environment file and what the program reads on its standard input.
#[derive(Debug)]
pub struct StagePlan {
    pub argv: Vec<String>,
    pub mounts: Vec<String>,
    pub limits: MandatoryLimits,
    pub env_file: Option<String>,
    pub stdin: Option<String>,
}

/// The directory of runtime `id` under `root`.
pub open spec fn runtime_dir_of(root: Seq<char>, id: nat) -> Seq<char> {
    root + "/"@ + decimal_text(id)
}

/// The directory of runtime `id` under `root`.
pub fn runtime_dir(root: &str, id: u32) -> (r: String)
    ensures
        r@ == runtime_dir_of(root@, id as nat),
{
    let mut r = concat_str(root, "/");
    push_decimal(&mut r, id as u64);
    r
}

/// The view of an optional string.
pub open spec fn opt_text(s: Option<String>) -> Option<Seq<char>> {
    match s {
        Some(v) => Some(v@),
        None => None,
    }
}

/// Whether `p` is the plan of `stage` for the runtime whose directory is
/// `dir`: extraction unzips the archive with no mounts and no environment
/// under the compile limits; compilation and the run mount `/nix` and the
/// runtime directory at `/runtime`, load the runtime's `env` file and run its
/// script, under the compile and the run limits; only the run reads the
/// input, ended by a newline.
pub open spec fn is_stage_plan(
    p: StagePlan,
    stage: Stage,
    dir: Seq<char>,
    compile_limits: MandatoryLimits,
    run_limits: MandatoryLimits,
    input: Option<Seq<char>>,
) -> bool {
    let mounts = seq!["/nix"@, "/runtime="@ + dir];
    let env = Some(dir + "/env"@);
    match stage {
        Stage::Extract => {
            &&& views(p.argv@) == seq!["unzip"@, "-qq"@, "source.zip"@]
            &&& p.mounts@.len() == 0
            &&& p.limits == compile_limits
            &&& p.env_file is None
            &&& p.stdin is None
        },
        Stage::Compile => {
            &&& views(p.argv@) == seq!["/runtime/compile"@]
            &&& views(p.mounts@) == mounts
            &&& p.limits == compile_limits
            &&& opt_text(p.env_file) == env
            &&& p.stdin is None
        },
        Stage::Run => {
            &&& views(p.argv@) == seq!["/runtime/run"@]
            &&& views(p.mounts@) == mounts
            &&& p.limits == run_limits
            &&& opt_text(p.env_file) == env
            &&& opt_text(p.stdin) == match input {
                Some(s) => Some(with_newline(s)),
                None => None,
            }
        },
    }
}

/// The plan of one stage of runtime `runtime_id`, whose files lie under
/// `runtimes_root`.
pub fn plan_stage(
    stage: Stage,
    runtimes_root: &str,
    runtime_id: u32,
    compile_limits: &MandatoryLimits,
    run_limits: &MandatoryLimits,
    input: &Option<String>,
) -> (p: StagePlan)
    ensures
        is_stage_plan(
            p,
            stage,
            runtime_dir_of(runtimes_root@, runtime_id as nat),
            *compile_limits,
            *run_limits,
            opt_text(*input),
        ),
{
    let dir = runtime_dir(runtimes_root, runtime_id);
    match stage {
        Stage::Extract => {
            let mut argv: Vec<String> = Vec::new();
            argv.push(String::from_str("unzip"));
            argv.push(String::from_str("-qq"));
            argv.push(String::from_str(SOURCE_ZIP_NAME));
            proof {
                reveal_strlit("source.zip");
            }
            assert(views(argv@) =~= seq!["unzip"@, "-qq"@, "source.zip"@]);
            StagePlan {
                argv,
                mounts: Vec::new(),
                limits: *compile_limits,
                env_file: None,
                stdin: None,
            }
        },
        _ => {
            let mut mounts: Vec<String> = Vec::new();
            mounts.push(String::from_str("/nix"));
            mounts.push(concat_str("/runtime=", dir.as_str()));
            assert(views(mounts@) =~= seq!["/nix"@, "/runtime="@ + dir@]);
            let env_file = Some(concat_str(dir.as_str(), "/env"));
            let mut argv: Vec<String> = Vec::new();
            if stage == Stage::Compile {
                argv.push(String::from_str("/runtime/compile"));
                assert(views(argv@) =~= seq!["/runtime/compile"@]);
                StagePlan { argv, mounts, limits: *compile_limits, env_file, stdin: None }
            } else {
                argv.push(String::from_str("/runtime/run"));
                assert(views(argv@) =~= seq!["/runtime/run"@]);
                let stdin = match input {
                    Some(s) => {
                        let mut s = s.clone();
                        s.add_new_line_if_none();
                        Some(s)
                    },
                    None => None,
                };
                StagePlan { argv, mounts, limits: *run_limits, env_file, stdin }
            }
        },
    }
}

} // verus!
