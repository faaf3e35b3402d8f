use envicutor::admission::{box_id_from_counter, get_next_box_id};
use envicutor::globals::MAX_BOX_ID;
use envicutor::installation::{
    check_name_free, deletion_outcome, nix_shell_args, normalize_scripts, runtime_files,
    runtime_of, update_args, validate_request, AddRuntimeRequest, DeletionOutcome, InstallStep,
    Installation,
    ValidationError,
};
use envicutor::listing::list_runtimes;
use envicutor::registry::{Runtime, RuntimeCache};
use envicutor::signals::translate_signal;
use envicutor::text::NewLine;
use std::sync::atomic::AtomicU64;
use std::sync::Arc;

fn runtime(name: &str) -> Runtime {
    Runtime { name: name.to_string(), source_file_name: "main.py".to_string(), is_compiled: false }
}

fn request(name: &str, compile: &str) -> AddRuntimeRequest {
    AddRuntimeRequest {
        name: name.to_string(),
        nix_shell: "{ pkgs ? import <nixpkgs> {} }: pkgs.mkShell {}".to_string(),
        compile_script: compile.to_string(),
        run_script: "python3 $1".to_string(),
        source_file_name: "main.py".to_string(),
    }
}

#[test]
fn cache_insert_get_remove() {
    let mut c = RuntimeCache::new();
    c.insert(1, runtime("py"));
    c.insert(2, runtime("go"));
    assert_eq!(c.get(1).unwrap().name, "py");
    assert!(c.get(3).is_none());
    assert!(c.has_name(&"go".to_string()));
    assert!(!c.has_name(&"rust".to_string()));
    assert!(c.remove(1));
    assert!(!c.remove(1));
    assert!(c.get(1).is_none());
    assert!(!c.has_name(&"py".to_string()));
}

#[test]
fn listing_gives_every_runtime_once() {
    let mut c = RuntimeCache::new();
    c.insert(4, runtime("a"));
    c.insert(9, runtime("b"));
    let mut l: Vec<(u32, String)> = list_runtimes(&c).into_iter().map(|r| (r.id, r.name)).collect();
    l.sort();
    assert_eq!(l, vec![(4, "a".to_string()), (9, "b".to_string())]);
    assert!(list_runtimes(&RuntimeCache::new()).is_empty());
}

#[test]
fn second_install_of_same_name_is_refused() {
    let mut c = RuntimeCache::new();
    let first = request("go", "");
    let second = request("go", "go build");
    assert_eq!(check_name_free(&c, &first.name), Ok(()));
    c.insert(1, runtime_of(&first));
    assert_eq!(check_name_free(&c, &second.name), Err(ValidationError::NameTaken));
    assert_eq!(ValidationError::NameTaken.message(), "A runtime with this name already exists");
    assert_eq!(check_name_free(&c, &"py".to_string()), Ok(()));
}

#[test]
fn runtime_is_compiled_iff_compile_script() {
    assert!(!runtime_of(&request("py", "")).is_compiled);
    assert!(runtime_of(&request("c", "gcc main.c")).is_compiled);
}

#[test]
fn scripts_get_trailing_newlines() {
    let mut r = request("py", "");
    normalize_scripts(&mut r);
    assert_eq!(r.run_script, "python3 $1\n");
    assert_eq!(r.compile_script, "");
    assert!(r.nix_shell.ends_with("{}\n"));
    let mut s = "done\n".to_string();
    s.add_new_line_if_none();
    assert_eq!(s, "done\n");
    let mut t = "x".to_string();
    t.add_new_line_if_none();
    assert_eq!(t, "x\n");
}

#[test]
fn files_of_interpreted_runtime() {
    let files = runtime_files(&request("py", ""), "PATH=/bin\n");
    let v: Vec<(&str, &str, bool)> =
        files.iter().map(|f| (f.name.as_str(), f.contents.as_str(), f.executable)).collect();
    assert_eq!(
        v,
        vec![
            ("run", "#!/bin/bash\n\npython3 $1", true),
            ("env", "PATH=/bin\n", true),
            ("shell.nix", "{ pkgs ? import <nixpkgs> {} }: pkgs.mkShell {}", false),
        ]
    );
}

#[test]
fn files_of_compiled_runtime() {
    let files = runtime_files(&request("c", "gcc main.c\n"), "");
    assert_eq!(files.len(), 4);
    assert_eq!(files[0].name, "compile");
    assert_eq!(files[0].contents, "#!/bin/bash\n\ngcc main.c\n");
    assert!(files[0].executable);
}

#[test]
fn package_manager_arguments() {
    assert_eq!(
        nix_shell_args(60, "/tmp/3-submission/shell.nix"),
        vec![
            "-i",
            "PATH=/bin",
            "/home/envicutor/.nix-profile/bin/nix-shell",
            "--timeout",
            "60",
            "/tmp/3-submission/shell.nix",
            "--run",
            "/bin/bash -c env",
        ]
    );
    let u = update_args(120);
    assert_eq!(u.last().unwrap(), "120");
    assert_eq!(u[0], "--install");
}

fn run_install(outcomes: &[bool], id: u32) -> Vec<InstallStep> {
    let mut st = Installation::Start;
    let mut steps = Vec::new();
    let mut it = outcomes.iter();
    loop {
        let s = st.step();
        steps.push(s);
        if let InstallStep::Finish(_) = s {
            return steps;
        }
        let ok = *it.next().unwrap_or(&true);
        st = st.advance(ok, id);
    }
}

#[test]
fn installation_success_path() {
    assert_eq!(
        run_install(&[true, true, true, true], 8),
        vec![
            InstallStep::InsertRow,
            InstallStep::CreateDir(8),
            InstallStep::WriteFiles(8),
            InstallStep::CacheRuntime(8),
            InstallStep::Finish(true),
        ]
    );
}

#[test]
fn installation_rolls_back_after_write_failure() {
    assert_eq!(
        run_install(&[true, true, false], 8),
        vec![
            InstallStep::InsertRow,
            InstallStep::CreateDir(8),
            InstallStep::WriteFiles(8),
            InstallStep::RemoveDir(8),
            InstallStep::DeleteRow(8),
            InstallStep::Finish(false),
        ]
    );
}

#[test]
fn installation_rolls_back_after_dir_failure() {
    assert_eq!(
        run_install(&[true, false], 2),
        vec![
            InstallStep::InsertRow,
            InstallStep::CreateDir(2),
            InstallStep::DeleteRow(2),
            InstallStep::Finish(false),
        ]
    );
    assert_eq!(run_install(&[false], 2), vec![InstallStep::InsertRow, InstallStep::Finish(false)]);
}

#[test]
fn deletion_of_unknown_runtime_is_not_found() {
    assert_eq!(deletion_outcome(0), DeletionOutcome::NotFound);
    assert_eq!(deletion_outcome(1), DeletionOutcome::RemoveRest);
}

#[test]
fn box_ids_rotate() {
    let counter = Arc::new(AtomicU64::new(0));
    assert_eq!(get_next_box_id(&counter), 0);
    assert_eq!(get_next_box_id(&counter), 1);
    let near = Arc::new(AtomicU64::new(MAX_BOX_ID - 1));
    assert_eq!(get_next_box_id(&near), MAX_BOX_ID - 1);
    assert_eq!(get_next_box_id(&near), 0);
}

#[test]
fn signal_names() {
    assert_eq!(translate_signal(9), "SIGKILL");
    assert_eq!(translate_signal(11), "SIGSEGV");
    assert_eq!(translate_signal(34), "SIGRTMIN");
    assert_eq!(translate_signal(64), "SIGRTMAX");
    assert_eq!(translate_signal(32), "Unknown");
    assert_eq!(translate_signal(-1), "Unknown");
}

#[test]
fn validation_checks_in_order() {
    let ok = request("py", "");
    assert_eq!(validate_request(&ok, &"main.py".to_string()), Ok(()));
    let mut r = request("", "");
    r.nix_shell = String::new();
    assert_eq!(validate_request(&r, &"main.py".to_string()), Err(ValidationError::EmptyName));
    let mut r = request("py", "");
    r.nix_shell = String::new();
    assert_eq!(validate_request(&r, &"main.py".to_string()), Err(ValidationError::EmptyNixShell));
    let mut r = request("py", "");
    r.run_script = String::new();
    assert_eq!(validate_request(&r, &"main.py".to_string()), Err(ValidationError::EmptyRunScript));
    let mut r = request("py", "");
    r.source_file_name = String::new();
    assert_eq!(validate_request(&r, &String::new()), Err(ValidationError::EmptySourceFileName));
    let mut r = request("py", "");
    r.source_file_name = "../main.py".to_string();
    assert_eq!(
        validate_request(&r, &"..main.py".to_string()),
        Err(ValidationError::InvalidSourceFileName)
    );
    assert_eq!(ValidationError::EmptyName.message(), "Name can't be empty");
}

#[test]
fn box_id_of_counter_value() {
    assert_eq!(box_id_from_counter(0), 0);
    assert_eq!(box_id_from_counter(MAX_BOX_ID), 0);
    assert_eq!(box_id_from_counter(MAX_BOX_ID + 7), 7);
    assert_eq!(box_id_from_counter(u64::MAX), u64::MAX % MAX_BOX_ID);
}

#[test]
fn installation_rolls_back_when_cache_entry_fails() {
    assert_eq!(
        run_install(&[true, true, true, false], 4),
        vec![
            InstallStep::InsertRow,
            InstallStep::CreateDir(4),
            InstallStep::WriteFiles(4),
            InstallStep::CacheRuntime(4),
            InstallStep::RemoveDir(4),
            InstallStep::DeleteRow(4),
            InstallStep::Finish(false),
        ]
    );
}
