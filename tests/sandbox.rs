use envicutor::env_file::parse_env_file;
use envicutor::isolate::Isolate;
use envicutor::limits::MandatoryLimits;

fn limits() -> MandatoryLimits {
    MandatoryLimits {
        wall_time: 3_000,
        cpu_time: 1_500,
        memory: 128_000,
        extra_time: 250,
        max_open_files: 64,
        max_file_size: 1_024,
        max_number_of_processes: 8,
    }
}

#[test]
fn init_records_box_and_paths() {
    let b = Isolate::init(17, "/var/local/lib/isolate/17\n");
    assert_eq!(b.box_id, 17);
    assert_eq!(b.box_dir, "/var/local/lib/isolate/17/box");
    assert_eq!(b.metadata_file_path, "/tmp/17-metadata.txt");
    assert_eq!(b.run_pid, None);
}

#[test]
fn init_arguments() {
    assert_eq!(Isolate::init_args(0), vec!["--init", "--cg", "-b0"]);
    assert_eq!(Isolate::init_args(899), vec!["--init", "--cg", "-b899"]);
}

#[test]
fn run_arguments_in_order() {
    let b = Isolate::init(5, "/isolate/5");
    let mounts = vec!["/nix".to_string(), "/runtime=/envicutor/runtimes/3".to_string()];
    let argv = vec!["/runtime/run".to_string()];
    let args = b.run_args(&mounts, &limits(), "/box/submission", &argv);
    assert_eq!(
        args,
        vec![
            "--run",
            "--meta=/tmp/5-metadata.txt",
            "--cg",
            "-s",
            "-c",
            "/box/submission",
            "-e",
            "-E",
            "HOME=/tmp",
            "--dir=/nix",
            "--dir=/runtime=/envicutor/runtimes/3",
            "--cg-mem=128000",
            "--wall-time=3.000",
            "--time=1.500",
            "--extra-time=0.250",
            "--open-files=64",
            "--fsize=1024",
            "--processes=8",
            "-b5",
            "--",
            "/runtime/run",
        ]
    );
}

#[test]
fn run_arguments_without_mounts() {
    let b = Isolate::init(12, "/isolate/12");
    let argv = vec!["unzip".to_string(), "-qq".to_string(), "source.zip".to_string()];
    let args = b.run_args(&vec![], &limits(), "/box/submission", &argv);
    assert_eq!(args.len(), 9 + 9 + 3);
    assert_eq!(args[9], "--cg-mem=128000");
    assert_eq!(args[16], "-b12");
    assert_eq!(&args[17..], &["--", "unzip", "-qq", "source.zip"][..]);
}

#[test]
fn cleanup_plan_kills_run_and_removes_box() {
    let mut b = Isolate::init(42, "/isolate/42");
    b.record_run_pid(4242);
    let p = b.cleanup_plan();
    assert_eq!(p.kill_pid, Some(4242));
    assert_eq!(p.cleanup_args, vec!["--cleanup", "--cg", "-b42"]);
    assert_eq!(p.metadata_file_path, "/tmp/42-metadata.txt");
    b.clear_run_pid();
    assert_eq!(b.cleanup_plan().kill_pid, None);
}

#[test]
fn env_file_simple_pairs() {
    let vars = parse_env_file("PATH=/nix/store/bin\nHOME=/tmp\n");
    assert_eq!(
        vars,
        vec![
            ("PATH".to_string(), "/nix/store/bin".to_string()),
            ("HOME".to_string(), "/tmp".to_string()),
        ]
    );
}

#[test]
fn env_file_multiline_value() {
    let vars = parse_env_file("A=first\nsecond\nthird\nB=2");
    assert_eq!(
        vars,
        vec![
            ("A".to_string(), "first\nsecond\nthird".to_string()),
            ("B".to_string(), "2".to_string()),
        ]
    );
}

#[test]
fn env_file_splits_on_last_equals() {
    let vars = parse_env_file("X=a=b\n");
    assert_eq!(vars, vec![("X=a".to_string(), "b".to_string())]);
}

#[test]
fn env_file_empty_and_leading_lines() {
    assert_eq!(parse_env_file(""), vec![]);
    assert_eq!(parse_env_file("stray\nK=v\n"), vec![("K".to_string(), "v".to_string())]);
    assert_eq!(parse_env_file("=nameless\n"), vec![(String::new(), "nameless".to_string())]);
    assert_eq!(
        parse_env_file("=v\nK=w\n"),
        vec![(String::new(), "v".to_string()), ("K".to_string(), "w".to_string())]
    );
}
