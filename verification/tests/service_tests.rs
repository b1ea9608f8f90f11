use rshim::process::{console_bind_outcome, InitProcess, IoPlan};
use rshim::reaper::{handle_reaped, reap_decode, ExitInfo, WaitOutcome};
use rshim::service::{KillAction, ProcessObj, ShimConfig, ShimService, StartEvent, StartWork};
use rshim::state::InitState;
use rshim::errors::Code;
use rshim::types;

fn config() -> ShimConfig {
    ShimConfig {
        path: "/work/cwd".to_string(),
        namespace: "default".to_string(),
        work_dir: "/work".to_string(),
        criu: String::new(),
        runtime_root: "/run/containerd/runc".to_string(),
        systemd_cgroup: false,
    }
}

fn create_request(id: &str, terminal: bool) -> types::CreateTaskRequest {
    types::CreateTaskRequest {
        id: id.to_string(),
        bundle: "/bundle".to_string(),
        runtime: "runc".to_string(),
        rootfs: Vec::new(),
        terminal,
        stdin: String::new(),
        stdout: String::new(),
        stderr: String::new(),
        io_uid: 0,
        io_gid: 0,
        no_pivot_root: false,
        no_new_keyring: false,
    }
}

fn spec_bytes() -> Vec<u8> {
    br#"{"user":{},"cwd":"/","args":["/bin/true"]}"#.to_vec()
}

/// Builds a service holding one created container with the given pid.
fn created_service(id: &str, pid: i32) -> ShimService {
    let mut service = ShimService::new(config());
    let req = create_request(id, false);
    let (rootfs, mounts) = service.create_mounts(&req);
    assert_eq!(rootfs, "/bundle/rootfs");
    assert!(mounts.is_empty(), "an empty rootfs list plans no mounts");
    let (mut init, plan) = service.create_process(&req, &rootfs, "/tmp");
    assert_eq!(plan.pid_file, "/bundle/init.pid");
    assert!(matches!(plan.io, IoPlan::Null));
    init.create_commit(pid, None, None);
    let (resp, ev) = service.create_commit(init).expect("create");
    assert_eq!(resp.pid, pid as u32);
    assert_eq!(ev.container_id, id);
    assert_eq!(ev.pid, pid as u32);
    service
}

fn start_container(service: &mut ShimService, id: &str) {
    let req = types::StartRequest { id: id.to_string() };
    match service.start_prepare(&req, "/tmp", "/tmp/spec").expect("start prepare") {
        StartWork::Init { argv } => assert_eq!(argv.last().unwrap(), id),
        StartWork::Exec { .. } => panic!("expected an init start"),
    }
    let (resp, ev, register_oom) = service.start_commit(&req, 0, None, None).expect("start");
    assert!(register_oom, "starting the init registers the OOM monitor");
    assert!(matches!(ev, StartEvent::Started(_)));
    assert!(resp.pid > 0);
}

#[test]
fn create_start_wait_exit() {
    let mut service = created_service("c1", 4242);
    start_container(&mut service, "c1");

    // before the exit, a waiter blocks
    let wreq = types::WaitRequest { id: "c1".to_string() };
    assert_eq!(service.wait_poll(&wreq).expect("wait").is_none(), true);

    // the container is killed from outside; the reaper observes the wait
    // status and records 128 + 9
    let decoded = reap_decode(&WaitOutcome::Signaled { pid: 4242, signal: 9 }).unwrap();
    assert_eq!(decoded, (4242, 137));

    let mut exits = ExitInfo::new();
    let before = std::time::SystemTime::now()
        .duration_since(std::time::UNIX_EPOCH)
        .unwrap()
        .as_secs() as i64;
    let ev = handle_reaped(&mut service, &mut exits, decoded.0, decoded.1).expect("matched");
    assert_eq!(ev.container_id, "c1");
    assert_eq!(ev.id, "c1");
    assert_eq!(ev.pid, 4242);
    assert_eq!(ev.exit_status, 137);

    // the waiter wakes and observes the same pair the reaper recorded
    let resp = service.wait_poll(&wreq).expect("wait").expect("exited");
    assert_eq!(resp.exit_status, 137);
    assert_eq!(resp.exited_at, ev.exited_at);
    let after = std::time::SystemTime::now()
        .duration_since(std::time::UNIX_EPOCH)
        .unwrap()
        .as_secs() as i64;
    assert!(resp.exited_at.seconds >= before - 2 && resp.exited_at.seconds <= after + 2);

    // the state RPC reports the stop
    let sreq = types::StateRequest { id: "c1".to_string() };
    let state = service.state(&sreq).expect("state");
    assert_eq!(state.status, types::TaskStatus::Stopped);
    assert_eq!(state.exit_status, 137);
}

#[test]
fn exec_lifecycle() {
    let mut service = created_service("c1", 4242);
    start_container(&mut service, "c1");

    let ereq = types::ExecProcessRequest {
        id: "e1".to_string(),
        terminal: false,
        stdin: String::new(),
        stdout: String::new(),
        stderr: String::new(),
        spec: spec_bytes(),
    };
    let added = service.exec(ereq).expect("exec added");
    assert_eq!(added.container_id, "c1");
    assert_eq!(added.exec_id, "e1");

    let sreq = types::StartRequest { id: "e1".to_string() };
    match service.start_prepare(&sreq, "/tmp", "/tmp/spec-e1").expect("prepare") {
        StartWork::Exec { plan, spec, terminal } => {
            assert_eq!(plan.pid_file, "/work/cwd/e1.pid");
            assert_eq!(spec, spec_bytes());
            assert!(!terminal);
        }
        StartWork::Init { .. } => panic!("expected an exec start"),
    }
    let (resp, ev, register_oom) = service.start_commit(&sreq, 5000, None, None).expect("start");
    assert_eq!(resp.pid, 5000);
    assert!(!register_oom, "exec starts register no OOM monitor");
    match ev {
        StartEvent::ExecStarted(e) => {
            assert_eq!(e.exec_id, "e1");
            assert_eq!(e.pid, 5000);
        }
        StartEvent::Started(_) => panic!("expected an exec event"),
    }

    // the exec exits cleanly
    let mut exits = ExitInfo::new();
    let ev = handle_reaped(&mut service, &mut exits, 5000, 0).expect("matched");
    assert_eq!(ev.id, "e1");
    assert_eq!(ev.exit_status, 0);

    let wreq = types::WaitRequest { id: "e1".to_string() };
    let resp = service.wait_poll(&wreq).expect("wait").expect("exited");
    assert_eq!(resp.exit_status, 0);

    // delete the exec; a second delete reports NotFound
    let dreq = types::DeleteProcessRequest { id: "e1".to_string() };
    let (resp, _ev, pid_file) = service.delete_process(&dreq).expect("delete");
    assert_eq!(resp.pid, 5000);
    assert_eq!(resp.exit_status, 0);
    assert_eq!(pid_file, "/work/cwd/e1.pid");
    let err = service.delete_process(&dreq).expect_err("gone");
    assert_eq!(err.code, Code::NotFound);
}

#[test]
fn illegal_transitions() {
    let mut service = created_service("c1", 4242);
    start_container(&mut service, "c1");

    // starting an exec id that does not exist reports NotFound
    let sreq = types::StartRequest { id: "e1".to_string() };
    let err = service.start_prepare(&sreq, "/tmp", "/tmp/x").expect_err("no such exec");
    assert_eq!(err.code, Code::NotFound);

    // deleting a running container must kill or stop it first
    let err = service.delete_prepare().expect_err("running");
    assert_eq!(err.code, Code::FailedPrecondition);
    let err = service.delete_commit().expect_err("running");
    assert_eq!(err.code, Code::FailedPrecondition);
}

#[test]
fn delete_after_exit_clears_the_map() {
    let mut service = created_service("c1", 4242);
    start_container(&mut service, "c1");
    let mut exits = ExitInfo::new();
    handle_reaped(&mut service, &mut exits, 4242, 137).expect("matched");

    let (argv, umount) = service.delete_prepare().expect("stopped");
    assert_eq!(argv, vec!["--root", "/run/containerd/runc/default", "--log", "/work/cwd/log.json", "--log-format", "json", "delete", "c1"]);
    assert_eq!(umount, Some("/bundle/rootfs".to_string()));

    let (resp, ev) = service.delete_commit().expect("delete");
    assert_eq!(resp.pid, 4242);
    assert_eq!(resp.exit_status, 137);
    assert_eq!(ev.container_id, "c1");
    assert!(service.processes.is_empty(), "nothing of the container remains");
}

#[test]
fn kill_classification_after_exit() {
    let mut service = created_service("c1", 4242);
    start_container(&mut service, "c1");

    // exec kills are classified in the library itself
    let ereq = types::ExecProcessRequest {
        id: "e1".to_string(),
        terminal: false,
        stdin: String::new(),
        stdout: String::new(),
        stderr: String::new(),
        spec: spec_bytes(),
    };
    service.exec(ereq).expect("exec");
    let sreq = types::StartRequest { id: "e1".to_string() };
    service.start_prepare(&sreq, "/tmp", "/tmp/s").expect("prepare");
    service.start_commit(&sreq, 5000, None, None).expect("start");
    let mut exits = ExitInfo::new();
    handle_reaped(&mut service, &mut exits, 5000, 0).expect("matched");

    let kreq = types::KillRequest { id: "e1".to_string(), signal: 15, all: false };
    let err = service.kill_plan(&kreq).expect_err("already finished");
    assert_eq!(err.code, Code::NotFound);
    assert_eq!(err.message, "process already finished");

    // an init kill turns into a runtime invocation
    let kreq = types::KillRequest { id: "c1".to_string(), signal: 15, all: false };
    match service.kill_plan(&kreq).expect("plan") {
        KillAction::Runtime(argv) => assert_eq!(&argv[argv.len() - 3..], &["kill", "c1", "15"]),
        KillAction::Signal(_, _) => panic!("init kills go through the runtime"),
    }

    // an empty id targets the container
    let kreq = types::KillRequest { id: String::new(), signal: 9, all: true };
    assert!(service.kill_plan(&kreq).is_ok());
}

#[test]
fn double_shutdown_fires_once() {
    let mut service = ShimService::new(config());
    assert!(service.shutdown(), "first shutdown on an empty map fires");
    assert!(!service.shutdown(), "the second returns but does not fire again");

    // with a container in the map, shutdown is a no-op
    let mut busy = created_service("c1", 1);
    assert!(!busy.shutdown());
}

#[test]
fn close_io_is_idempotent() {
    let mut service = created_service("c1", 4242);
    let req = types::CloseIORequest { id: "c1".to_string() };
    // the null-io container retains no stdin: both calls are no-ops
    assert_eq!(service.close_io(&req), None);
    assert_eq!(service.close_io(&req), None);
    // an unknown id is a no-op too
    let req = types::CloseIORequest { id: "nope".to_string() };
    assert_eq!(service.close_io(&req), None);
}

#[test]
fn exec_id_collision() {
    let mut service = created_service("c1", 4242);
    start_container(&mut service, "c1");
    let mk = || types::ExecProcessRequest {
        id: "e1".to_string(),
        terminal: false,
        stdin: String::new(),
        stdout: String::new(),
        stderr: String::new(),
        spec: spec_bytes(),
    };
    service.exec(mk()).expect("first");
    let err = service.exec(mk()).expect_err("collision");
    assert_eq!(err.code, Code::AlreadyExists);
}

#[test]
fn exec_rejects_bad_spec() {
    let mut service = created_service("c1", 4242);
    let req = types::ExecProcessRequest {
        id: "e1".to_string(),
        terminal: false,
        stdin: String::new(),
        stdout: String::new(),
        stderr: String::new(),
        spec: b"{".to_vec(),
    };
    let err = service.exec(req).expect_err("unparsable spec");
    assert_eq!(err.code, Code::Internal);
}

#[test]
fn state_of_missing_container() {
    let service = ShimService::new(config());
    let err = service.state(&types::StateRequest { id: "c1".to_string() }).expect_err("empty");
    assert_eq!(err.code, Code::NotFound);
}

#[test]
fn list_pids_attaches_exec_ids() {
    let mut service = created_service("c1", 4242);
    start_container(&mut service, "c1");
    let resp = service.list_pids(&vec![4242usize, 7777usize]);
    assert_eq!(resp.processes.len(), 2);
    assert_eq!(resp.processes[0].pid, 4242);
    assert_eq!(resp.processes[0].exec_id, Some("c1".to_string()));
    assert_eq!(resp.processes[1].pid, 7777);
    assert_eq!(resp.processes[1].exec_id, None);
}

#[test]
fn pause_and_resume() {
    let mut service = created_service("c1", 4242);
    // pausing a created container is rejected
    let err = service.pause_prepare().expect_err("not running");
    assert_eq!(err.code, Code::FailedPrecondition);

    start_container(&mut service, "c1");
    let argv = service.pause_prepare().expect("running");
    assert_eq!(&argv[argv.len() - 2..], &["pause", "c1"]);
    service.pause_commit().expect("pause");

    let argv = service.resume_prepare().expect("paused");
    assert_eq!(&argv[argv.len() - 2..], &["resume", "c1"]);
    service.resume_commit().expect("resume");

    // resuming a running container is rejected
    let err = service.resume_prepare().expect_err("not paused");
    assert_eq!(err.code, Code::FailedPrecondition);
}

#[test]
fn checkpoint_not_implemented() {
    let service = ShimService::new(config());
    assert_eq!(service.checkpoint().code, Code::NotImplemented);
}

#[test]
fn connect_reports_task_pid() {
    let service = created_service("c1", 4242);
    assert_eq!(service.connect("c1").expect("known"), 4242);
    assert_eq!(service.connect("zz").expect_err("unknown").code, Code::NotFound);
}

#[test]
fn terminal_create_plans_console_handover() {
    let service = ShimService::new(config());
    let req = create_request("c1", true);
    let (rootfs, _mounts) = service.create_mounts(&req);
    let (_init, plan) = service.create_process(&req, &rootfs, "/tmp");
    match plan.io {
        IoPlan::Terminal { console_socket } => {
            assert_eq!(console_socket, "/tmp/c1.console");
        }
        _ => panic!("terminal create must await the PTY over the console socket"),
    }
    let argv = plan.create_argv;
    let pos = argv.iter().position(|a| a == "--console-socket").expect("flag");
    assert_eq!(argv[pos + 1], "/tmp/c1.console");
}

#[test]
fn resize_needs_a_console() {
    let mut service = created_service("c1", 4242);
    let req = types::ResizePtyRequest { id: "c1".to_string(), width: 80, height: 24 };
    // no PTY master was received for a null-io container
    assert_eq!(service.resize_pty(&req).expect("known id"), None);
    // hand the init a console descriptor and ask again
    match &mut service.processes[0].1 {
        ProcessObj::Init(p) => p.console = Some(7),
        _ => unreachable!(),
    }
    let (fd, ws) = service.resize_pty(&req).expect("known id").expect("console");
    assert_eq!(fd, 7);
    assert_eq!((ws.height, ws.width), (24, 80));
    // an empty id is rejected
    let req = types::ResizePtyRequest { id: String::new(), width: 1, height: 1 };
    assert_eq!(service.resize_pty(&req).expect_err("empty id").code, Code::InvalidArgument);
}

#[test]
fn second_container_is_rejected() {
    let mut service = created_service("c1", 4242);
    let req = create_request("c2", false);
    let (rootfs, _m) = service.create_mounts(&req);
    let (mut init, _plan) = service.create_process(&req, &rootfs, "/tmp");
    init.create_commit(1, None, None);
    let err = service.create_commit(init).expect_err("one container per shim");
    assert_eq!(err.code, Code::FailedPrecondition);
}

#[test]
fn update_prepare_checks_resources() {
    let mut service = created_service("c1", 4242);
    start_container(&mut service, "c1");
    let req = types::UpdateTaskRequest {
        resources: Some(br#"{"memory":{"limit":268435456}}"#.to_vec()),
    };
    let (resources, argv) = service.update_prepare(&req, "/tmp/runc-process-u").expect("ok");
    assert_eq!(resources, br#"{"memory":{"limit":268435456}}"#.to_vec());
    assert_eq!(
        &argv[argv.len() - 4..],
        &["update", "--resources", "/tmp/runc-process-u", "c1"]
    );
    let req = types::UpdateTaskRequest { resources: Some(b"{".to_vec()) };
    assert_eq!(
        service.update_prepare(&req, "/tmp/x").expect_err("bad json").code,
        Code::Internal
    );
    let req = types::UpdateTaskRequest { resources: None };
    assert_eq!(
        service.update_prepare(&req, "/tmp/x").expect_err("missing").code,
        Code::Internal
    );
}

#[test]
fn init_process_records_exit_once() {
    let req = create_request("c1", false);
    let mut init = InitProcess::new("/w", "/w", "/root", "ns", false, &req, "");
    init.create_commit(99, None, None);
    assert_eq!(init.state, InitState::Created);
    init.set_exited(137);
    assert_eq!(init.state, InitState::Stopped);
    assert_eq!(init.status, 137);
    assert!(init.exited.is_some());
    let first = init.exited;
    // recording again changes nothing
    init.set_exited(1);
    assert_eq!(init.status, 137);
    assert_eq!(init.exited, first);
    assert_eq!(init.wait_poll().map(|p| p.0), Some(137));
}

#[test]
fn refused_transitions_name_the_state() {
    let mut service = created_service("c1", 4242);
    // pausing a created container names Created
    let err = service.pause_prepare().expect_err("not running");
    assert_eq!(err.message, "cannot pause a Created process");

    start_container(&mut service, "c1");
    // deleting a running container names Running
    let err = service.delete_prepare().expect_err("running");
    assert_eq!(err.code, Code::FailedPrecondition);
    assert_eq!(err.message, "cannot delete a Running process");
    let err = service.delete_commit().expect_err("running");
    assert_eq!(err.message, "cannot delete a Running process");
    // a second start names Running too
    let sreq = types::StartRequest { id: "c1".to_string() };
    let err = service.start_prepare(&sreq, "/tmp", "/tmp/x").expect_err("already started");
    assert_eq!(err.code, Code::FailedPrecondition);
    assert_eq!(err.message, "cannot start a Running process");
    // resuming a running container names Running
    let err = service.resume_prepare().expect_err("not paused");
    assert_eq!(err.message, "cannot resume a Running process");
}

#[test]
fn console_bind_decides_terminal_creates() {
    let terminal = IoPlan::Terminal { console_socket: "/tmp/c1.console".to_string() };
    // a failed bind fails the create with Internal before the runtime runs
    let err = console_bind_outcome(&terminal, false).expect_err("bind failed");
    assert_eq!(err.code, Code::Internal);
    assert_eq!(err.message, "unix socket should be created ok");
    assert!(console_bind_outcome(&terminal, true).is_ok());
    // plans without a console socket never consult the bind
    assert!(console_bind_outcome(&IoPlan::Null, false).is_ok());
}
