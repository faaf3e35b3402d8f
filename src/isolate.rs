use vstd::prelude::*;
use vstd::string::*;
use crate::limits::MandatoryLimits;
use crate::metadata::{metadata_of, opt_view, parse_metadata, MetadataView};
use crate::text::{concat_str, decimal_text, push_decimal, push_seconds, seconds_text};

verus! {

/// The outcome of one sandboxed stage, as reported to the client.
#[derive(Debug)]
pub struct StageResult {
    pub memory: Option<u32>,
    pub exit_code: Option<u32>,
    pub exit_signal: Option<u32>,
    pub exit_message: Option<String>,
    pub exit_status: Option<String>,
    pub stdout: String,
    pub stderr: String,
    pub cpu_time: Option<u32>,
    pub wall_time: Option<u32>,
}

/// A run that the isolator could not carry out; the captured output is kept
/// for diagnostics.
#[derive(Debug)]
pub enum SandboxError {
    /// The isolator reported status `XX`: a fault of its own.
    Internal { stdout: String, stderr: String },
    /// The isolator exited with failure and reported no outcome of the
    /// program: no exit code, no signal and no status.
    MissingExitCode { stdout: String, stderr: String },
}

/// Whether a run reported the isolator's own failure status.
pub open spec fn is_internal_failure(m: MetadataView) -> bool {
    m.exit_status == Some("XX"@)
}

/// Whether the metadata reports no outcome of the program at all.
pub open spec fn reports_no_outcome(m: MetadataView) -> bool {
    m.exit_code is None && m.exit_signal is None && m.exit_status is None
}

/// Whether a run must be reported as a sandbox failure rather than a result:
/// the isolator's own fault, or a failed isolator exit whose metadata is
/// missing every outcome field. A program that was killed by a signal or ran
/// out of time is reported with its signal and status but may have no exit
/// code; that is a result.
pub open spec fn run_failed(m: MetadataView, exited_successfully: bool) -> bool {
    is_internal_failure(m) || (!exited_successfully && reports_no_outcome(m))
}

/// Whether `r` carries the metadata `m` and the captured output.
pub open spec fn result_reports(r: StageResult, m: MetadataView, stdout: Seq<char>, stderr: Seq<char>) -> bool {
    &&& r.memory == m.memory
    &&& r.exit_code == m.exit_code
    &&& r.exit_signal == m.exit_signal
    &&& opt_view(r.exit_message) == m.exit_message
    &&& opt_view(r.exit_status) == m.exit_status
    &&& r.cpu_time == m.cpu_time
    &&& r.wall_time == m.wall_time
    &&& r.stdout@ == stdout
    &&& r.stderr@ == stderr
}

fn is_xx(s: &Option<String>) -> (r: bool)
    ensures
        r == (opt_view(*s) == Some("XX"@)),
{
    match s {
        None => false,
        Some(v) => {
            let xx = String::from_str("XX");
            proof {
                reveal_strlit("XX");
            }
            let r = *v == xx;
            assert(r ==> v@ =~= "XX"@);
            r
        },
    }
}

/// Turns what a finished isolator run left behind (its metadata file, its
/// output, whether it exited with success) into the stage's result. It fails
/// when the isolator reported a fault of its own (`status:XX`), or exited with
/// failure and reported no exit code, signal or status; a program that
/// failed, was killed or timed out is a result.
pub fn finish_run(metadata_text: &str, stdout: String, stderr: String, exited_successfully: bool) -> (r: Result<StageResult, SandboxError>)
    ensures
        match r {
            Ok(res) => !run_failed(metadata_of(metadata_text@), exited_successfully)
                && result_reports(res, metadata_of(metadata_text@), stdout@, stderr@),
            Err(SandboxError::Internal { stdout: o, stderr: e }) => is_internal_failure(
                metadata_of(metadata_text@),
            ) && o@ == stdout@ && e@ == stderr@,
            Err(SandboxError::MissingExitCode { stdout: o, stderr: e }) => !is_internal_failure(
                metadata_of(metadata_text@),
            ) && run_failed(metadata_of(metadata_text@), exited_successfully) && o@ == stdout@
                && e@ == stderr@,
        },
{
    let m = parse_metadata(metadata_text);
    if is_xx(&m.exit_status) {
        return Err(SandboxError::Internal { stdout, stderr });
    }
    if !exited_successfully && m.exit_code.is_none() && m.exit_signal.is_none()
        && m.exit_status.is_none() {
        return Err(SandboxError::MissingExitCode { stdout, stderr });
    }
    Ok(
        StageResult {
            memory: m.memory,
            exit_code: m.exit_code,
            exit_signal: m.exit_signal,
            exit_message: m.exit_message,
            exit_status: m.exit_status,
            stdout,
            stderr,
            cpu_time: m.cpu_time,
            wall_time: m.wall_time,
        },
    )
}

/// The views of a sequence of strings.
pub open spec fn views(v: Seq<String>) -> Seq<Seq<char>> {
    v.map_values(|s: String| s@)
}

/// `s` without leading and trailing white space, as `str::trim` gives it.
pub uninterp spec fn trimmed(s: Seq<char>) -> Seq<char>;

/// Relies on `str::trim`: the text without leading and trailing white space.
#[verifier::external_body]
fn trim_text(s: &str) -> (r: &str)
    ensures
        r@ == trimmed(s@),
{
    s.trim()
}

/// The isolator's `-b<id>` flag.
pub open spec fn box_flag(box_id: nat) -> Seq<char> {
    "-b"@ + decimal_text(box_id)
}

/// Where the isolator writes the metadata of a box's runs.
pub open spec fn metadata_path_of(box_id: nat) -> Seq<char> {
    "/tmp/"@ + decimal_text(box_id) + "-metadata.txt"@
}

/// The arguments that create box `box_id`.
pub open spec fn init_args_of(box_id: nat) -> Seq<Seq<char>> {
    seq!["--init"@, "--cg"@, box_flag(box_id)]
}

/// The arguments that tear down box `box_id`.
pub open spec fn cleanup_args_of(box_id: nat) -> Seq<Seq<char>> {
    seq!["--cleanup"@, "--cg"@, box_flag(box_id)]
}

/// The arguments of one run: metadata file, cgroups, no syslog, working
/// directory, cleared environment with `HOME=/tmp`, one `--dir` per mount,
/// the limits, the box, then the command.
pub open spec fn run_args_of(
    metadata_path: Seq<char>,
    workdir: Seq<char>,
    mounts: Seq<Seq<char>>,
    l: MandatoryLimits,
    box_id: nat,
    argv: Seq<Seq<char>>,
) -> Seq<Seq<char>> {
    seq![
        "--run"@,
        "--meta="@ + metadata_path,
        "--cg"@,
        "-s"@,
        "-c"@,
        workdir,
        "-e"@,
        "-E"@,
        "HOME=/tmp"@,
    ] + mounts.map_values(|m: Seq<char>| "--dir="@ + m) + seq![
        "--cg-mem="@ + decimal_text(l.memory as nat),
        "--wall-time="@ + seconds_text(l.wall_time as nat),
        "--time="@ + seconds_text(l.cpu_time as nat),
        "--extra-time="@ + seconds_text(l.extra_time as nat),
        "--open-files="@ + decimal_text(l.max_open_files as nat),
        "--fsize="@ + decimal_text(l.max_file_size as nat),
        "--processes="@ + decimal_text(l.max_number_of_processes as nat),
        box_flag(box_id),
        "--"@,
    ] + argv
}

fn box_flag_string(box_id: u64) -> (r: String)
    ensures
        r@ == box_flag(box_id as nat),
{
    let mut s = String::from_str("-b");
    push_decimal(&mut s, box_id);
    s
}

fn decimal_arg(prefix: &str, n: u32) -> (r: String)
    ensures
        r@ == prefix@ + decimal_text(n as nat),
{
    let mut s = String::from_str(prefix);
    push_decimal(&mut s, n as u64);
    s
}

fn seconds_arg(prefix: &str, ms: u32) -> (r: String)
    ensures
        r@ == prefix@ + seconds_text(ms as nat),
{
    let mut s = String::from_str(prefix);
    push_seconds(&mut s, ms as u64);
    s
}

/// A sandbox: one isolator box, the file its runs report to, the process of
/// the run in flight if any, and the box's root as the host sees it.
#[derive(Debug)]
pub struct Isolate {
    pub box_id: u64,
    pub metadata_file_path: String,
    pub run_pid: Option<u32>,
    pub box_dir: String,
}

/// What tearing a sandbox down takes: the run process to kill first, if one
/// is in flight, the isolator arguments that remove the box, and the
/// metadata file to delete.
#[derive(Debug)]
pub struct CleanupPlan {
    pub kill_pid: Option<u32>,
    pub cleanup_args: Vec<String>,
    pub metadata_file_path: String,
}

impl Isolate {
    /// Whether the metadata file is the one of this box.
    pub open spec fn wf(&self) -> bool {
        self.metadata_file_path@ == metadata_path_of(self.box_id as nat)
    }

    /// The arguments that make the isolator create box `box_id`.
    pub fn init_args(box_id: u64) -> (r: Vec<String>)
        ensures
            views(r@) == init_args_of(box_id as nat),
    {
        let mut r: Vec<String> = Vec::new();
        r.push(String::from_str("--init"));
        r.push(String::from_str("--cg"));
        r.push(box_flag_string(box_id));
        assert(views(r@) =~= init_args_of(box_id as nat));
        r
    }

    /// The sandbox of box `box_id`, from what `isolate --init` printed: the
    /// host path of the box, whose `box` directory is the sandbox's root.
    pub fn init(box_id: u64, init_stdout: &str) -> (r: Isolate)
        ensures
            r.wf(),
            r.box_id == box_id,
            r.run_pid is None,
            r.box_dir@ == trimmed(init_stdout@) + "/box"@,
    {
        let mut metadata_file_path = String::from_str("/tmp/");
        push_decimal(&mut metadata_file_path, box_id);
        metadata_file_path.append("-metadata.txt");
        let box_dir = concat_str(trim_text(init_stdout), "/box");
        Isolate { box_id, metadata_file_path, run_pid: None, box_dir }
    }

    /// The arguments of `isolate` for one run of `cmd_args` in this box.
    pub fn run_args(
        &self,
        mounts: &Vec<String>,
        limits: &MandatoryLimits,
        workdir: &str,
        cmd_args: &Vec<String>,
    ) -> (r: Vec<String>)
        ensures
            views(r@) == run_args_of(
                self.metadata_file_path@,
                workdir@,
                views(mounts@),
                *limits,
                self.box_id as nat,
                views(cmd_args@),
            ),
    {
        let mut r: Vec<String> = Vec::new();
        r.push(String::from_str("--run"));
        r.push(concat_str("--meta=", self.metadata_file_path.as_str()));
        r.push(String::from_str("--cg"));
        r.push(String::from_str("-s"));
        r.push(String::from_str("-c"));
        r.push(String::from_str(workdir));
        r.push(String::from_str("-e"));
        r.push(String::from_str("-E"));
        r.push(String::from_str("HOME=/tmp"));
        let ghost head = views(r@);
        let ghost dirs = views(mounts@).map_values(|m: Seq<char>| "--dir="@ + m);
        let mut i: usize = 0;
        assert(head + dirs.take(0) =~= head);
        while i < mounts.len()
            invariant
                i <= mounts@.len(),
                dirs.len() == mounts@.len(),
                dirs == views(mounts@).map_values(|m: Seq<char>| "--dir="@ + m),
                views(r@) == head + dirs.take(i as int),
            decreases mounts@.len() - i,
        {
            let ghost old_r = r@;
            let arg = concat_str("--dir=", mounts[i].as_str());
            r.push(arg);
            assert(views(r@) =~= views(old_r).push(arg@));
            assert(dirs[i as int] == "--dir="@ + mounts@[i as int]@);
            i = i + 1;
            assert(head + dirs.take(i as int) =~= (head + dirs.take(i - 1)).push(arg@));
        }
        assert(dirs.take(i as int) =~= dirs);
        r.push(decimal_arg("--cg-mem=", limits.memory));
        r.push(seconds_arg("--wall-time=", limits.wall_time));
        r.push(seconds_arg("--time=", limits.cpu_time));
        r.push(seconds_arg("--extra-time=", limits.extra_time));
        r.push(decimal_arg("--open-files=", limits.max_open_files));
        r.push(decimal_arg("--fsize=", limits.max_file_size));
        r.push(decimal_arg("--processes=", limits.max_number_of_processes));
        r.push(box_flag_string(self.box_id));
        r.push(String::from_str("--"));
        let ghost l = *limits;
        let ghost pre = head + dirs + seq![
            "--cg-mem="@ + decimal_text(l.memory as nat),
            "--wall-time="@ + seconds_text(l.wall_time as nat),
            "--time="@ + seconds_text(l.cpu_time as nat),
            "--extra-time="@ + seconds_text(l.extra_time as nat),
            "--open-files="@ + decimal_text(l.max_open_files as nat),
            "--fsize="@ + decimal_text(l.max_file_size as nat),
            "--processes="@ + decimal_text(l.max_number_of_processes as nat),
            box_flag(self.box_id as nat),
            "--"@,
        ];
        assert(views(r@) =~= pre);
        let mut k: usize = 0;
        assert(pre + views(cmd_args@).take(0) =~= pre);
        while k < cmd_args.len()
            invariant
                k <= cmd_args@.len(),
                views(r@) == pre + views(cmd_args@).take(k as int),
            decreases cmd_args@.len() - k,
        {
            let ghost old_r = r@;
            let arg = String::from_str(cmd_args[k].as_str());
            r.push(arg);
            assert(views(r@) =~= views(old_r).push(arg@));
            k = k + 1;
            assert(pre + views(cmd_args@).take(k as int) =~= (pre + views(cmd_args@).take(k - 1)).push(
                arg@,
            ));
        }
        assert(views(cmd_args@).take(k as int) =~= views(cmd_args@));
        assert(views(r@) =~= run_args_of(
            self.metadata_file_path@,
            workdir@,
            views(mounts@),
            *limits,
            self.box_id as nat,
            views(cmd_args@),
        ));
        r
    }

    /// Records the process of the run in flight.
    pub fn record_run_pid(&mut self, pid: u32)
        ensures
            final(self).run_pid == Some(pid),
            final(self).box_id == old(self).box_id,
            final(self).metadata_file_path == old(self).metadata_file_path,
            final(self).box_dir == old(self).box_dir,
    {
        self.run_pid = Some(pid);
    }

    /// Records that no run is in flight any more.
    pub fn clear_run_pid(&mut self)
        ensures
            final(self).run_pid is None,
            final(self).box_id == old(self).box_id,
            final(self).metadata_file_path == old(self).metadata_file_path,
            final(self).box_dir == old(self).box_dir,
    {
        self.run_pid = None;
    }

    /// What tearing this sandbox down takes: kill the run in flight, if any,
    /// remove the box, delete the metadata file.
    pub fn cleanup_plan(&self) -> (r: CleanupPlan)
        ensures
            cleans_up(*self, r),
    {
        let mut args: Vec<String> = Vec::new();
        args.push(String::from_str("--cleanup"));
        args.push(String::from_str("--cg"));
        args.push(box_flag_string(self.box_id));
        assert(views(args@) =~= cleanup_args_of(self.box_id as nat));
        CleanupPlan {
            kill_pid: self.run_pid,
            cleanup_args: args,
            metadata_file_path: self.metadata_file_path.clone(),
        }
    }
}

/// Whether `p` tears down sandbox `s`: it kills the run in flight, removes
/// the very box that `s` holds and deletes its metadata file.
pub open spec fn cleans_up(s: Isolate, p: CleanupPlan) -> bool {
    &&& p.kill_pid == s.run_pid
    &&& views(p.cleanup_args@) == cleanup_args_of(s.box_id as nat)
    &&& p.metadata_file_path@ == s.metadata_file_path@
}

/// Every sandbox that `init` gives has a teardown: the plan of any such
/// sandbox, whatever runs it went through since, removes that sandbox's own
/// box (the id that `isolate --init` was given) and its metadata file.
pub proof fn lemma_every_sandbox_is_torn_down(box_id: u64, s: Isolate, p: CleanupPlan)
    requires
        s.box_id == box_id,
        s.wf(),
        cleans_up(s, p),
    ensures
        views(p.cleanup_args@) == cleanup_args_of(box_id as nat),
        init_args_of(box_id as nat)[2] == cleanup_args_of(box_id as nat)[2],
        p.metadata_file_path@ == metadata_path_of(box_id as nat),
        p.kill_pid == s.run_pid,
{
}

} // verus!
