use vstd::prelude::*;
use vstd::string::*;
use crate::isolate::views;
use crate::registry::{name_taken, names_unique, Runtime, RuntimeCache};
use crate::text::{concat_str, decimal_text, push_decimal, with_newline, NewLine};

verus! {

/// A request to install a runtime.
#[derive(Debug, Clone)]
pub struct AddRuntimeRequest {
    pub name: String,
    pub nix_shell: String,
    pub compile_script: String,
    pub run_script: String,
    pub source_file_name: String,
}

/// Why an installation request is refused.
#[derive(Debug, Clone, Copy, PartialEq, Eq, Structural)]
pub enum ValidationError {
    EmptyName,
    EmptyNixShell,
    EmptyRunScript,
    EmptySourceFileName,
    InvalidSourceFileName,
    NameTaken,
}

/// The message answered to the client for a refused request.
pub open spec fn validation_message(e: ValidationError) -> &'static str {
    match e {
        ValidationError::EmptyName => "Name can't be empty",
        ValidationError::EmptyNixShell => "Nix shell can't be empty",
        ValidationError::EmptyRunScript => "Run command can't be empty",
        ValidationError::EmptySourceFileName => "Source file name can't be empty",
        ValidationError::InvalidSourceFileName => "Invalid source file name",
        ValidationError::NameTaken => "A runtime with this name already exists",
    }
}

impl ValidationError {
    /// The message answered to the client.
    pub fn message(&self) -> (r: &'static str)
        ensures
            r == validation_message(*self),
    {
        match self {
            ValidationError::EmptyName => "Name can't be empty",
            ValidationError::EmptyNixShell => "Nix shell can't be empty",
            ValidationError::EmptyRunScript => "Run command can't be empty",
            ValidationError::EmptySourceFileName => "Source file name can't be empty",
            ValidationError::InvalidSourceFileName => "Invalid source file name",
            ValidationError::NameTaken => "A runtime with this name already exists",
        }
    }
}

/// The first rule that a request breaks, in order: a name, a package
/// manifest, a run script and a source file name are required, and the
/// source file name must be its own sanitised form (`sanitized` is that form,
/// as the file-name sanitiser gives it).
pub open spec fn validation_of(req: AddRuntimeRequest, sanitized: Seq<char>) -> Result<
    (),
    ValidationError,
> {
    if req.name@.len() == 0 {
        Err(ValidationError::EmptyName)
    } else if req.nix_shell@.len() == 0 {
        Err(ValidationError::EmptyNixShell)
    } else if req.run_script@.len() == 0 {
        Err(ValidationError::EmptyRunScript)
    } else if req.source_file_name@.len() == 0 {
        Err(ValidationError::EmptySourceFileName)
    } else if sanitized != req.source_file_name@ {
        Err(ValidationError::InvalidSourceFileName)
    } else {
        Ok(())
    }
}

/// Checks an installation request; `sanitized_source_file_name` is the
/// request's source file name as the file-name sanitiser rewrites it.
pub fn validate_request(req: &AddRuntimeRequest, sanitized_source_file_name: &String) -> (r: Result<
    (),
    ValidationError,
>)
    ensures
        r == validation_of(*req, sanitized_source_file_name@),
{
    if req.name.as_str().unicode_len() == 0 {
        Err(ValidationError::EmptyName)
    } else if req.nix_shell.as_str().unicode_len() == 0 {
        Err(ValidationError::EmptyNixShell)
    } else if req.run_script.as_str().unicode_len() == 0 {
        Err(ValidationError::EmptyRunScript)
    } else if req.source_file_name.as_str().unicode_len() == 0 {
        Err(ValidationError::EmptySourceFileName)
    } else if *sanitized_source_file_name != req.source_file_name {
        Err(ValidationError::InvalidSourceFileName)
    } else {
        Ok(())
    }
}

/// The request with every script ended by a newline.
pub fn normalize_scripts(req: &mut AddRuntimeRequest)
    ensures
        final(req).nix_shell@ == with_newline(old(req).nix_shell@),
        final(req).compile_script@ == with_newline(old(req).compile_script@),
        final(req).run_script@ == with_newline(old(req).run_script@),
        final(req).name == old(req).name,
        final(req).source_file_name == old(req).source_file_name,
{
    req.nix_shell.add_new_line_if_none();
    req.compile_script.add_new_line_if_none();
    req.run_script.add_new_line_if_none();
}

/// The runtime that a request installs: compiled exactly when it has a
/// compile script.
pub open spec fn runtime_of_request(req: AddRuntimeRequest) -> Runtime {
    Runtime {
        name: req.name,
        source_file_name: req.source_file_name,
        is_compiled: req.compile_script@.len() > 0,
    }
}

/// The runtime that a request installs.
pub fn runtime_of(req: &AddRuntimeRequest) -> (r: Runtime)
    ensures
        r.name@ == req.name@,
        r.source_file_name@ == req.source_file_name@,
        r.is_compiled == (req.compile_script@.len() > 0),
{
    Runtime {
        name: req.name.clone(),
        source_file_name: req.source_file_name.clone(),
        is_compiled: req.compile_script.as_str().unicode_len() > 0,
    }
}

/// Refuses a name that a cached runtime already has.
pub fn check_name_free(cache: &RuntimeCache, name: &String) -> (r: Result<(), ValidationError>)
    ensures
        r == (if name_taken(cache.view(), name@) {
            Err::<(), ValidationError>(ValidationError::NameTaken)
        } else {
            Ok::<(), ValidationError>(())
        }),
{
    if cache.has_name(name) {
        Err(ValidationError::NameTaken)
    } else {
        Ok(())
    }
}

/// Name uniqueness: of two installations of one name, run one after the
/// other under the installation lock, the second is refused: once the first
/// passed the name check and entered its runtime in the cache, the name check
/// fails for the second. The cache keeps its names unique.
pub proof fn lemma_second_install_of_a_name_is_refused(
    m: Map<u32, Runtime>,
    id: u32,
    first: AddRuntimeRequest,
    second: AddRuntimeRequest,
)
    requires
        names_unique(m),
        !name_taken(m, first.name@),
        second.name@ == first.name@,
    ensures
        names_unique(m.insert(id, runtime_of_request(first))),
        name_taken(m.insert(id, runtime_of_request(first)), second.name@),
{
    let m2 = m.insert(id, runtime_of_request(first));
    assert(m2.contains_key(id));
}

/// The header that every stored script starts with.
pub open spec fn script_text(body: Seq<char>) -> Seq<char> {
    "#!/bin/bash\n\n"@ + body
}

/// A file of a runtime's directory: its name, contents, and whether it is
/// executable (mode 0755).
#[derive(Debug, Clone)]
pub struct RuntimeFile {
    pub name: String,
    pub contents: String,
    pub executable: bool,
}

/// The view of a runtime file.
pub open spec fn file_view(f: RuntimeFile) -> (Seq<char>, Seq<char>, bool) {
    (f.name@, f.contents@, f.executable)
}

/// The files of a runtime: `compile` if there is a compile script, `run`
/// and `env` (the environment dump), executable, and the `shell.nix`
/// manifest.
pub open spec fn runtime_files_of(req: AddRuntimeRequest, env_dump: Seq<char>) -> Seq<
    (Seq<char>, Seq<char>, bool),
> {
    let rest = seq![
        ("run"@, script_text(req.run_script@), true),
        ("env"@, env_dump, true),
        ("shell.nix"@, req.nix_shell@, false),
    ];
    if req.compile_script@.len() > 0 {
        seq![("compile"@, script_text(req.compile_script@), true)] + rest
    } else {
        rest
    }
}

/// The files to write into a new runtime's directory.
pub fn runtime_files(req: &AddRuntimeRequest, env_dump: &str) -> (r: Vec<RuntimeFile>)
    ensures
        r@.map_values(|f: RuntimeFile| file_view(f)) == runtime_files_of(*req, env_dump@),
{
    let mut r: Vec<RuntimeFile> = Vec::new();
    if req.compile_script.as_str().unicode_len() > 0 {
        r.push(
            RuntimeFile {
                name: String::from_str("compile"),
                contents: concat_str("#!/bin/bash\n\n", req.compile_script.as_str()),
                executable: true,
            },
        );
    }
    r.push(
        RuntimeFile {
            name: String::from_str("run"),
            contents: concat_str("#!/bin/bash\n\n", req.run_script.as_str()),
            executable: true,
        },
    );
    r.push(RuntimeFile { name: String::from_str("env"), contents: String::from_str(env_dump), executable: true });
    r.push(
        RuntimeFile {
            name: String::from_str("shell.nix"),
            contents: req.nix_shell.clone(),
            executable: false,
        },
    );
    assert(r@.map_values(|f: RuntimeFile| file_view(f)) =~= runtime_files_of(*req, env_dump@));
    r
}

/// Where the package manager's programs lie.
pub const NIX_BIN_PATH: &'static str = "/home/envicutor/.nix-profile/bin";

/// The arguments of `env` that build a runtime's environment: a bare `PATH`,
/// then `nix-shell` on the manifest, bounded by `timeout` seconds, printing
/// the environment it sets up.
pub open spec fn nix_shell_args_of(timeout: nat, manifest_path: Seq<char>) -> Seq<Seq<char>> {
    seq![
        "-i"@,
        "PATH=/bin"@,
        "/home/envicutor/.nix-profile/bin/nix-shell"@,
        "--timeout"@,
        decimal_text(timeout),
        manifest_path,
        "--run"@,
        "/bin/bash -c env"@,
    ]
}

/// The arguments of `env` that build a runtime's environment.
pub fn nix_shell_args(timeout: u32, manifest_path: &str) -> (r: Vec<String>)
    ensures
        views(r@) == nix_shell_args_of(timeout as nat, manifest_path@),
{
    let mut r: Vec<String> = Vec::new();
    r.push(String::from_str("-i"));
    r.push(String::from_str("PATH=/bin"));
    r.push(String::from_str("/home/envicutor/.nix-profile/bin/nix-shell"));
    r.push(String::from_str("--timeout"));
    let mut t = String::new();
    push_decimal(&mut t, timeout as u64);
    r.push(t);
    r.push(String::from_str(manifest_path));
    r.push(String::from_str("--run"));
    r.push(String::from_str("/bin/bash -c env"));
    assert(views(r@) =~= nix_shell_args_of(timeout as nat, manifest_path@));
    r
}

/// The arguments of `nix-env` that update the package manager, bounded by
/// `timeout` seconds.
pub open spec fn update_args_of(timeout: nat) -> Seq<Seq<char>> {
    seq![
        "--install"@,
        "--file"@,
        "<nixpkgs>"@,
        "--attr"@,
        "nix"@,
        "cacert"@,
        "-I"@,
        "nixpkgs=channel:nixpkgs-unstable"@,
        "--timeout"@,
        decimal_text(timeout),
    ]
}

/// The arguments of `nix-env` that update the package manager.
pub fn update_args(timeout: u32) -> (r: Vec<String>)
    ensures
        views(r@) == update_args_of(timeout as nat),
{
    let mut r: Vec<String> = Vec::new();
    r.push(String::from_str("--install"));
    r.push(String::from_str("--file"));
    r.push(String::from_str("<nixpkgs>"));
    r.push(String::from_str("--attr"));
    r.push(String::from_str("nix"));
    r.push(String::from_str("cacert"));
    r.push(String::from_str("-I"));
    r.push(String::from_str("nixpkgs=channel:nixpkgs-unstable"));
    r.push(String::from_str("--timeout"));
    let mut t = String::new();
    push_decimal(&mut t, timeout as u64);
    r.push(t);
    assert(views(r@) =~= update_args_of(timeout as nat));
    r
}

/// What the installation coordinator does next.
#[derive(Debug, Clone, Copy, PartialEq, Eq, Structural)]
pub enum InstallStep {
    /// Insert the runtime's row; the database gives its id.
    InsertRow,
    /// Create the runtime's directory, replacing any that is there.
    CreateDir(u32),
    /// Write the scripts, the environment file and the manifest.
    WriteFiles(u32),
    /// Enter the runtime in the cache.
    CacheRuntime(u32),
    /// Remove the runtime's directory (rollback).
    RemoveDir(u32),
    /// Delete the runtime's row (rollback).
    DeleteRow(u32),
    /// Answer: success, or failure with nothing left behind.
    Finish(bool),
}

/// Where an installation stands, after its package-manager build succeeded.
#[derive(Debug, Clone, Copy, PartialEq, Eq, Structural)]
pub enum Installation {
    Start,
    RowInserted(u32),
    DirCreated(u32),
    FilesWritten(u32),
    RollingBack { id: u32, dir: bool },
    Succeeded(u32),
    Failed,
}

/// A runtime row's contents: its name and source file name.
pub type RowView = (Seq<char>, Seq<char>);

/// The durable rows, the runtime directories and the cache (each cached
/// runtime by its name), by id.
pub struct Stores {
    pub rows: Map<u32, RowView>,
    pub dirs: Set<u32>,
    pub cached: Map<u32, Seq<char>>,
}

/// The three stores agree: an id has a row exactly when it has a directory,
/// exactly when it is cached, and a cached runtime has the name of its row.
pub open spec fn triad(s: Stores) -> bool {
    &&& s.rows.dom() == s.dirs
    &&& s.dirs == s.cached.dom()
    &&& forall|id: u32| #[trigger] s.cached.contains_key(id) ==> s.cached[id] == s.rows[id].0
}

/// What one step of installing `row` does to the stores, given whether it
/// succeeded and, for the row insertion, the id it gave.
pub open spec fn apply_step(step: InstallStep, ok: bool, new_id: u32, row: RowView, s: Stores) -> Stores {
    match step {
        InstallStep::InsertRow => if ok {
            Stores { rows: s.rows.insert(new_id, row), ..s }
        } else {
            s
        },
        InstallStep::CreateDir(id) => if ok {
            Stores { dirs: s.dirs.insert(id), ..s }
        } else {
            s
        },
        InstallStep::CacheRuntime(id) => if ok {
            Stores { cached: s.cached.insert(id, row.0), ..s }
        } else {
            s
        },
        InstallStep::RemoveDir(id) => Stores { dirs: s.dirs.remove(id), ..s },
        InstallStep::DeleteRow(id) => Stores { rows: s.rows.remove(id), ..s },
        _ => s,
    }
}

/// The stores as an installation of `row` in state `st` has left them, from
/// `s0`.
pub open spec fn stores_at(s0: Stores, row: RowView, st: Installation) -> Stores {
    match st {
        Installation::Start | Installation::Failed => s0,
        Installation::RowInserted(id) => Stores { rows: s0.rows.insert(id, row), ..s0 },
        Installation::DirCreated(id) | Installation::FilesWritten(id) => Stores {
            rows: s0.rows.insert(id, row),
            dirs: s0.dirs.insert(id),
            ..s0
        },
        Installation::RollingBack { id, dir } => Stores {
            rows: s0.rows.insert(id, row),
            dirs: if dir {
                s0.dirs.insert(id)
            } else {
                s0.dirs
            },
            ..s0
        },
        Installation::Succeeded(id) => Stores {
            rows: s0.rows.insert(id, row),
            dirs: s0.dirs.insert(id),
            cached: s0.cached.insert(id, row.0),
        },
    }
}

/// Whether the id that `st` holds is new to every store of `s0`.
pub open spec fn id_fresh(s0: Stores, st: Installation) -> bool {
    match st {
        Installation::Start | Installation::Failed => true,
        Installation::RowInserted(id) | Installation::DirCreated(id) | Installation::FilesWritten(
            id,
        ) | Installation::Succeeded(id) | Installation::RollingBack { id, .. } => !s0.rows.contains_key(
            id,
        ) && !s0.dirs.contains(id) && !s0.cached.contains_key(id),
    }
}

impl Installation {
    /// The step that follows.
    pub open spec fn step_of(self) -> InstallStep {
        match self {
            Installation::Start => InstallStep::InsertRow,
            Installation::RowInserted(id) => InstallStep::CreateDir(id),
            Installation::DirCreated(id) => InstallStep::WriteFiles(id),
            Installation::FilesWritten(id) => InstallStep::CacheRuntime(id),
            Installation::RollingBack { id, dir } => if dir {
                InstallStep::RemoveDir(id)
            } else {
                InstallStep::DeleteRow(id)
            },
            Installation::Succeeded(_) => InstallStep::Finish(true),
            Installation::Failed => InstallStep::Finish(false),
        }
    }

    /// The state after the step, given whether it succeeded and, for the row
    /// insertion, the id it gave. A failure after the row was inserted rolls
    /// back: the directory, if made, is removed, then the row is deleted. A
    /// cache entry that could not be made (its name has appeared meanwhile)
    /// rolls back the same way.
    pub open spec fn after(self, ok: bool, new_id: u32) -> Installation {
        match self {
            Installation::Start => if ok {
                Installation::RowInserted(new_id)
            } else {
                Installation::Failed
            },
            Installation::RowInserted(id) => if ok {
                Installation::DirCreated(id)
            } else {
                Installation::RollingBack { id, dir: false }
            },
            Installation::DirCreated(id) => if ok {
                Installation::FilesWritten(id)
            } else {
                Installation::RollingBack { id, dir: true }
            },
            Installation::FilesWritten(id) => if ok {
                Installation::Succeeded(id)
            } else {
                Installation::RollingBack { id, dir: true }
            },
            Installation::RollingBack { id, dir } => if dir {
                Installation::RollingBack { id, dir: false }
            } else {
                Installation::Failed
            },
            _ => self,
        }
    }

    /// Whether the installation has answered.
    pub open spec fn is_finished(self) -> bool {
        self is Succeeded || self is Failed
    }

    /// The step that follows.
    pub fn step(&self) -> (r: InstallStep)
        ensures
            r == self.step_of(),
    {
        match *self {
            Installation::Start => InstallStep::InsertRow,
            Installation::RowInserted(id) => InstallStep::CreateDir(id),
            Installation::DirCreated(id) => InstallStep::WriteFiles(id),
            Installation::FilesWritten(id) => InstallStep::CacheRuntime(id),
            Installation::RollingBack { id, dir } => if dir {
                InstallStep::RemoveDir(id)
            } else {
                InstallStep::DeleteRow(id)
            },
            Installation::Succeeded(_) => InstallStep::Finish(true),
            Installation::Failed => InstallStep::Finish(false),
        }
    }

    /// Takes in the outcome of the step: whether it succeeded and, for the
    /// row insertion, the id it gave (ignored otherwise).
    pub fn advance(self, ok: bool, new_id: u32) -> (r: Installation)
        ensures
            r == self.after(ok, new_id),
    {
        match self {
            Installation::Start => if ok {
                Installation::RowInserted(new_id)
            } else {
                Installation::Failed
            },
            Installation::RowInserted(id) => if ok {
                Installation::DirCreated(id)
            } else {
                Installation::RollingBack { id, dir: false }
            },
            Installation::DirCreated(id) => if ok {
                Installation::FilesWritten(id)
            } else {
                Installation::RollingBack { id, dir: true }
            },
            Installation::FilesWritten(id) => if ok {
                Installation::Succeeded(id)
            } else {
                Installation::RollingBack { id, dir: true }
            },
            Installation::RollingBack { id, dir } => if dir {
                Installation::RollingBack { id, dir: false }
            } else {
                Installation::Failed
            },
            _ => self,
        }
    }
}

/// Each step moves the stores exactly as the state says: the stores that a
/// state records, with the step's effect applied, are those that the next
/// state records. The id that the database gives is new to every store.
pub proof fn lemma_step_effect(s0: Stores, row: RowView, st: Installation, ok: bool, new_id: u32)
    requires
        triad(s0),
        id_fresh(s0, st),
        !st.is_finished(),
        st is Start && ok ==> !s0.rows.contains_key(new_id),
    ensures
        id_fresh(s0, st.after(ok, new_id)),
        stores_at(s0, row, st.after(ok, new_id)) == apply_step(
            st.step_of(),
            ok,
            new_id,
            row,
            stores_at(s0, row, st),
        ),
{
    let a = stores_at(s0, row, st.after(ok, new_id));
    let b = apply_step(st.step_of(), ok, new_id, row, stores_at(s0, row, st));
    match st {
        Installation::RollingBack { id, dir } => {
            assert(s0.rows.insert(id, row).remove(id) =~= s0.rows);
            assert(s0.dirs.insert(id).remove(id) =~= s0.dirs);
        },
        _ => {},
    }
    assert(a.rows =~= b.rows);
    assert(a.dirs =~= b.dirs);
    assert(a.cached =~= b.cached);
}

/// The cache, the database and the runtime directories agree after every
/// finished installation. From stores that agree, a successful one adds its
/// new id to all three, with the request's row and, in the cache, its name,
/// and changes nothing else; a failed one leaves all three as they were, so
/// the new id is in none.
pub proof fn lemma_installation_keeps_triad(s0: Stores, row: RowView, st: Installation)
    requires
        triad(s0),
        id_fresh(s0, st),
        st.is_finished(),
    ensures
        triad(stores_at(s0, row, st)),
        st is Failed ==> stores_at(s0, row, st) == s0,
        st matches Installation::Succeeded(id) ==> {
            let s = stores_at(s0, row, st);
            &&& s.rows == s0.rows.insert(id, row)
            &&& s.dirs == s0.dirs.insert(id)
            &&& s.cached == s0.cached.insert(id, row.0)
        },
{
    if let Installation::Succeeded(id) = st {
        let s = stores_at(s0, row, st);
        assert(s.rows.dom() =~= s.dirs);
        assert(s.dirs =~= s.cached.dom());
    }
}

/// What a deletion does once its row delete reported `affected_rows`.
#[derive(Debug, Clone, Copy, PartialEq, Eq, Structural)]
pub enum DeletionOutcome {
    /// No such runtime: answer 404 and touch nothing.
    NotFound,
    /// Remove the runtime's directory and cache entry, then answer 200.
    RemoveRest,
}

/// What follows a row delete that affected `affected_rows` rows.
pub fn deletion_outcome(affected_rows: usize) -> (r: DeletionOutcome)
    ensures
        r == (if affected_rows == 0 {
            DeletionOutcome::NotFound
        } else {
            DeletionOutcome::RemoveRest
        }),
{
    if affected_rows == 0 {
        DeletionOutcome::NotFound
    } else {
        DeletionOutcome::RemoveRest
    }
}

/// A deletion keeps the stores in agreement: removing an id from all three
/// stores (or, where the row was not there, from none) leaves them agreeing.
pub proof fn lemma_deletion_keeps_triad(s0: Stores, id: u32)
    requires
        triad(s0),
    ensures
        s0.rows.contains_key(id) ==> triad(
            Stores {
                rows: s0.rows.remove(id),
                dirs: s0.dirs.remove(id),
                cached: s0.cached.remove(id),
            },
        ),
        !s0.rows.contains_key(id) ==> !s0.dirs.contains(id) && !s0.cached.contains_key(id),
{
    let s = Stores { rows: s0.rows.remove(id), dirs: s0.dirs.remove(id), cached: s0.cached.remove(id) };
    assert(s.rows.dom() =~= s.dirs);
    assert(s.dirs =~= s.cached.dom());
}

} // verus!
