use envicutor::isolate::{finish_run, SandboxError};
use envicutor::metadata::{parse_metadata, parse_metadata_line, split_metadata_line, MetadataEntry};

#[test]
fn split_takes_the_last_colon() {
    assert_eq!(split_metadata_line("time:0.012"), (Ok("time"), Ok("0.012")));
    assert_eq!(split_metadata_line("a:b:c"), (Ok("b"), Ok("c")));
    assert_eq!(split_metadata_line("key:"), (Ok("key"), Ok("")));
}

#[test]
fn split_without_colon_has_no_key() {
    assert_eq!(split_metadata_line("nocolon"), (Err(()), Ok("nocolon")));
    assert_eq!(split_metadata_line(""), (Err(()), Ok("")));
}

#[test]
fn recognised_lines_are_read() {
    assert!(matches!(parse_metadata_line("cg-mem:2048"), MetadataEntry::Memory(2048)));
    assert!(matches!(parse_metadata_line("exitcode:1"), MetadataEntry::ExitCode(1)));
    assert!(matches!(parse_metadata_line("exitsig:9"), MetadataEntry::ExitSignal(9)));
    assert!(matches!(parse_metadata_line("time:1.5"), MetadataEntry::CpuTime(1500)));
    assert!(matches!(parse_metadata_line("time-wall:0.0123"), MetadataEntry::WallTime(12)));
    assert!(matches!(parse_metadata_line("time:2"), MetadataEntry::CpuTime(2000)));
    match parse_metadata_line("status:RE") {
        MetadataEntry::Status(s) => assert_eq!(s, "RE"),
        other => panic!("unexpected {:?}", other),
    }
    match parse_metadata_line("message:Exited with error status 1") {
        MetadataEntry::Message(s) => assert_eq!(s, "Exited with error status 1"),
        other => panic!("unexpected {:?}", other),
    }
}

#[test]
fn unknown_or_malformed_lines_are_ignored() {
    for line in [
        "killed:1",
        "max-rss:1234",
        "cg-mem:lots",
        "cg-mem:",
        "exitcode:-1",
        "exitcode:99999999999",
        "time:1.2.3",
        "time:.5x",
        "garbage without colon",
        "",
        ":",
        "\u{e9}\u{e9}:\u{e9}",
    ] {
        assert!(
            matches!(parse_metadata_line(line), MetadataEntry::Ignored),
            "line {:?}",
            line
        );
    }
}

#[test]
fn whole_file_later_lines_win() {
    let m = parse_metadata("time:0.100\ntime-wall:0.250\ncg-mem:512\nexitcode:0\nstatus:OK\nexitcode:3\n");
    assert_eq!(m.cpu_time, Some(100));
    assert_eq!(m.wall_time, Some(250));
    assert_eq!(m.memory, Some(512));
    assert_eq!(m.exit_code, Some(3));
    assert_eq!(m.exit_status.as_deref(), Some("OK"));
    assert_eq!(m.exit_signal, None);
    assert_eq!(m.exit_message, None);
}

#[test]
fn crlf_lines_are_read() {
    let m = parse_metadata("exitcode:7\r\nstatus:RE\r\n");
    assert_eq!(m.exit_code, Some(7));
    assert_eq!(m.exit_status.as_deref(), Some("RE"));
}

#[test]
fn empty_file_reports_nothing() {
    let m = parse_metadata("");
    assert_eq!(m.exit_code, None);
    assert_eq!(m.exit_status, None);
    assert_eq!(m.cpu_time, None);
}

#[test]
fn finished_run_carries_metadata_and_output() {
    let r = finish_run(
        "time:0.004\ntime-wall:0.010\ncg-mem:300\nexitcode:0\n",
        "3\n".to_string(),
        String::new(),
        true,
    )
    .unwrap();
    assert_eq!(r.exit_code, Some(0));
    assert_eq!(r.stdout, "3\n");
    assert_eq!(r.stderr, "");
    assert_eq!(r.cpu_time, Some(4));
    assert_eq!(r.wall_time, Some(10));
    assert_eq!(r.memory, Some(300));
}

#[test]
fn failing_program_is_a_result_not_an_error() {
    let r = finish_run("exitcode:1\nstatus:RE\n", String::new(), "boom".to_string(), false).unwrap();
    assert_eq!(r.exit_code, Some(1));
    assert_eq!(r.exit_status.as_deref(), Some("RE"));
    assert_eq!(r.stderr, "boom");
}

#[test]
fn timeout_is_reported_as_result() {
    let r = finish_run(
        "status:TO\nmessage:Time limit exceeded\nexitsig:9\nexitcode:137\ntime:1.001\n",
        String::new(),
        String::new(),
        false,
    )
    .unwrap();
    assert_eq!(r.exit_status.as_deref(), Some("TO"));
    assert_eq!(r.exit_signal, Some(9));
    assert_eq!(r.exit_code, Some(137));
    assert_eq!(r.cpu_time, Some(1001));
}

#[test]
fn killed_program_without_exit_code_is_a_result() {
    let r = finish_run(
        "status:TO\nmessage:Time limit exceeded\nkilled:1\ntime:1.003\n",
        String::new(),
        String::new(),
        false,
    )
    .unwrap();
    assert_eq!(r.exit_status.as_deref(), Some("TO"));
    assert_eq!(r.exit_code, None);
    let s = finish_run("status:SG\nexitsig:11\n", String::new(), String::new(), false).unwrap();
    assert_eq!(s.exit_signal, Some(11));
    assert_eq!(s.exit_code, None);
}

#[test]
fn isolator_fault_is_an_error() {
    let r = finish_run("status:XX\nmessage:internal\n", "o".to_string(), "e".to_string(), false);
    match r {
        Err(SandboxError::Internal { stdout, stderr }) => {
            assert_eq!(stdout, "o");
            assert_eq!(stderr, "e");
        }
        other => panic!("unexpected {:?}", other),
    }
}

#[test]
fn failure_without_exit_code_is_an_error() {
    let r = finish_run("time:0.100\ncg-mem:20\n", String::new(), String::new(), false);
    assert!(matches!(r, Err(SandboxError::MissingExitCode { .. })));
    let e = finish_run("", String::new(), String::new(), false);
    assert!(matches!(e, Err(SandboxError::MissingExitCode { .. })));
    let ok = finish_run("time:0.100\n", String::new(), String::new(), true);
    assert!(ok.is_ok());
}
