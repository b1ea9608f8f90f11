use rshim::runc::{
    check_kill_error, command_outcome, parse_ps_output, temp_spec_path, ChildWait, CreateOpts,
    DeleteOpts, ExecOpts, KillOpts, Runc, RuncConfiguration, RuncError, RuncLogFormat, ECHILD,
};
use rshim::errors::Code;

fn client() -> Runc {
    let mut config = RuncConfiguration::default();
    config.root = Some("/run/containerd/runc/default".to_string());
    config.log = Some("/bundle/log.json".to_string());
    config.log_format = Some(RuncLogFormat::Json);
    Runc::new(config)
}

#[test]
fn new_applies_defaults() {
    let r = Runc::new(RuncConfiguration::default());
    assert_eq!(r.command, "runc");
    assert_eq!(r.timeout_ms, 5000);
    assert!(r.root.is_none());
}

#[test]
fn global_args_in_order() {
    let r = client();
    assert_eq!(
        r.args(),
        vec![
            "--root",
            "/run/containerd/runc/default",
            "--log",
            "/bundle/log.json",
            "--log-format",
            "json",
        ]
    );
}

#[test]
fn create_args_full_vector() {
    let r = client();
    let opts = CreateOpts {
        pid_file: Some("/bundle/init.pid".to_string()),
        console_socket: None,
        no_pivot: false,
        no_new_keyring: false,
        detach: false,
    };
    assert_eq!(
        r.create_args("c1", "/bundle", Some(&opts)),
        vec![
            "--root",
            "/run/containerd/runc/default",
            "--log",
            "/bundle/log.json",
            "--log-format",
            "json",
            "create",
            "--pid-file",
            "/bundle/init.pid",
            "--bundle",
            "/bundle",
            "c1",
        ]
    );
}

#[test]
fn kill_args_carry_signal_text() {
    let r = Runc::new(RuncConfiguration::default());
    assert_eq!(
        r.kill_args("c1", 15, Some(&KillOpts { all: false })),
        vec!["kill", "c1", "15"]
    );
    assert_eq!(
        r.kill_args("c1", 9, Some(&KillOpts { all: true })),
        vec!["kill", "--all", "c1", "9"]
    );
}

#[test]
fn exec_and_update_args() {
    let r = Runc::new(RuncConfiguration::default());
    let opts = ExecOpts {
        pid_file: Some("/p/e1.pid".to_string()),
        console_socket: None,
        detach: true,
    };
    assert_eq!(
        r.exec_args("/tmp/runc-process-x", "c1", Some(&opts)),
        vec![
            "exec",
            "--process",
            "/tmp/runc-process-x",
            "--detach",
            "--pid-file",
            "/p/e1.pid",
            "c1",
        ]
    );
    assert_eq!(
        r.update_args("/tmp/runc-process-y", "c1"),
        vec!["update", "--resources", "/tmp/runc-process-y", "c1"]
    );
    assert_eq!(
        r.delete_args("c1", Some(&DeleteOpts { force: false })),
        vec!["delete", "c1"]
    );
    assert_eq!(r.start_args("c1"), vec!["start", "c1"]);
    assert_eq!(r.ps_args("c1"), vec!["ps", "--format=json", "c1"]);
    assert_eq!(r.events_args("c1", 5), vec!["events", "--interval=5s", "c1"]);
    assert_eq!(r.stats_args("c1"), vec!["events", "--stats", "c1"]);
    assert_eq!(
        r.top_args("c1", Some("-ef")),
        vec!["ps", "--format", "table", "c1", "-ef"]
    );
    assert_eq!(r.version_args(), vec!["--version"]);
}

#[test]
fn ps_null_decodes_to_empty_list() {
    assert_eq!(parse_ps_output("null").unwrap(), Vec::<usize>::new());
    assert_eq!(parse_ps_output("null\n").unwrap(), Vec::<usize>::new());
}

#[test]
fn ps_list_decodes() {
    assert_eq!(parse_ps_output("[1,2,3]\n").unwrap(), vec![1usize, 2, 3]);
}

#[test]
fn ps_garbage_is_a_decode_error() {
    match parse_ps_output("not json") {
        Err(RuncError::JsonDeserialization) => {}
        other => panic!("unexpected: {:?}", other),
    }
}

#[test]
fn kill_error_classification() {
    let s = check_kill_error("exec failed: Process Already Finished".to_string());
    assert_eq!(s.code, Code::NotFound);
    assert_eq!(s.message, "process already finished");

    let s = check_kill_error("container not running".to_string());
    assert_eq!(s.code, Code::NotFound);

    let s = check_kill_error("No Such Process".to_string());
    assert_eq!(s.code, Code::NotFound);
    assert_eq!(s.message, "process already finished");

    let s = check_kill_error("container \"x\" does not exist".to_string());
    assert_eq!(s.code, Code::NotFound);
    assert_eq!(s.message, "no such container");

    let s = check_kill_error("disk on fire".to_string());
    assert_eq!(s.code, Code::Internal);
    assert_eq!(s.message, "unknown error after kill disk on fire");
}

#[test]
fn command_outcome_policies() {
    let out = command_outcome(
        ChildWait::Exited { success: true },
        String::new(),
        None,
        "hello".to_string(),
        "warn".to_string(),
        true,
    );
    assert_eq!(out.unwrap(), "hellowarn");

    let out = command_outcome(
        ChildWait::Exited { success: true },
        String::new(),
        None,
        "hello".to_string(),
        "warn".to_string(),
        false,
    );
    assert_eq!(out.unwrap(), "hello");

    match command_outcome(
        ChildWait::Exited { success: false },
        String::new(),
        None,
        "o".to_string(),
        "e".to_string(),
        true,
    ) {
        Err(RuncError::CommandFailed { stdout, stderr }) => {
            assert_eq!(stdout, "o");
            assert_eq!(stderr, "e");
        }
        other => panic!("unexpected: {:?}", other),
    }

    // reaped by the subreaper: a zero recorded code is success
    let out = command_outcome(
        ChildWait::WaitError { errno: ECHILD },
        "echild".to_string(),
        Some(0),
        "ok".to_string(),
        String::new(),
        false,
    );
    assert_eq!(out.unwrap(), "ok");

    // a non-zero recorded code fails with the captured streams
    assert!(command_outcome(
        ChildWait::WaitError { errno: ECHILD },
        "echild".to_string(),
        Some(137),
        String::new(),
        String::new(),
        false,
    )
    .is_err());

    // no record at all falls through to the output
    let out = command_outcome(
        ChildWait::WaitError { errno: ECHILD },
        "echild".to_string(),
        None,
        "ok".to_string(),
        String::new(),
        false,
    );
    assert_eq!(out.unwrap(), "ok");

    match command_outcome(
        ChildWait::WaitError { errno: 5 },
        "io error".to_string(),
        None,
        String::new(),
        String::new(),
        false,
    ) {
        Err(RuncError::Command(m)) => assert_eq!(m, "io error"),
        other => panic!("unexpected: {:?}", other),
    }
}

#[test]
fn temp_spec_paths() {
    assert_eq!(
        temp_spec_path("/run/user/0", "abcd"),
        "/run/user/0/runc-process-abcd"
    );
}

#[test]
fn version_output_decodes() {
    let out = "runc version 1.0.0-rc10\ncommit: d1e2f3\nspec: 1.0.1-dev\n";
    let v = rshim::runc::parse_version_output(out).expect("version");
    assert_eq!(v.runc_version, Some("1.0.0-rc10".to_string()));
    assert_eq!(v.spec_version, Some("1.0.1-dev".to_string()));
    assert_eq!(v.commit, Some("d1e2f3".to_string()));
}

#[test]
fn version_line_without_value_is_invalid() {
    match rshim::runc::parse_version_output("runc version\n") {
        Err(rshim::runc::RuncError::InvalidVersion) => {}
        other => panic!("unexpected: {:?}", other),
    }
}

#[test]
fn top_output_decodes() {
    let out = "UID PID PPID CMD\nroot 1 0 /bin/sh -c sleep 10\nroot - 1 ps\n\n";
    let rows = rshim::runc::parse_top_output(out).expect("rows");
    assert_eq!(rows.len(), 1, "the dash-pid row and the empty line are skipped");
    let row = &rows[0];
    assert_eq!(row[0], ("UID".to_string(), "root".to_string()));
    assert_eq!(row[1], ("PID".to_string(), "1".to_string()));
    assert_eq!(row[2], ("PPID".to_string(), "0".to_string()));
    assert_eq!(
        row[3],
        ("CMD".to_string(), "/bin/sh -c sleep 10".to_string()),
        "the last column keeps its spaces"
    );
}

#[test]
fn top_without_pid_header_is_refused() {
    match rshim::runc::parse_top_output("UID CMD\nroot sh\n") {
        Err(rshim::runc::RuncError::TopMissingPidHeader) => {}
        other => panic!("unexpected: {:?}", other),
    }
}

#[test]
fn null_listing_detection() {
    assert!(rshim::runc::is_null_listing("null"));
    assert!(rshim::runc::is_null_listing(" null\n"));
    assert!(!rshim::runc::is_null_listing("[]"));
    assert!(!rshim::runc::is_null_listing(""));
}

#[test]
fn list_output_decodes() {
    assert_eq!(rshim::runc::parse_list_output("null\n").unwrap().len(), 0);
    assert_eq!(
        rshim::runc::parse_list_output(r#"[{"id":"c1"},{"id":"c2"}]"#).unwrap().len(),
        2
    );
    match rshim::runc::parse_list_output("{") {
        Err(RuncError::JsonDeserialization) => {}
        other => panic!("unexpected: {:?}", other),
    }
}

#[test]
fn state_output_decodes() {
    let record = rshim::runc::parse_state_output(r#"{"id":"c1","status":"running","pid":7}"#)
        .expect("record");
    assert_eq!(record.get("status").and_then(|v| v.as_str()), Some("running"));
    assert!(rshim::runc::parse_state_output("nonsense").is_err());
}

#[test]
fn stats_output_requires_a_stats_member() {
    let ev = rshim::runc::stats_outcome(r#"{"type":"stats","id":"c1","stats":{"cpu":{}}}"#)
        .expect("stats present");
    assert!(ev.get("stats").is_some());
    match rshim::runc::stats_outcome(r#"{"type":"stats","id":"c1"}"#) {
        Err(RuncError::MissingContainerStats) => {}
        other => panic!("unexpected: {:?}", other),
    }
    match rshim::runc::stats_outcome("}{") {
        Err(RuncError::JsonDeserialization) => {}
        other => panic!("unexpected: {:?}", other),
    }
}

#[test]
fn deleted_process_kill_names_the_state() {
    let s = check_kill_error("whatever".to_string());
    assert_eq!(s.code, Code::Internal);
}
