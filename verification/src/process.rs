//! The per-process objects of the shim: the init process of a container and
//! secondary exec processes. Each carries its lifecycle state machine, exit
//! latch, stdio wiring and runtime client. Operations that need the OCI
//! runtime are split into a plan (what to run) and a commit (what the
//! outcome does to the object); the unverified binary runs the plans.

use vstd::prelude::*;
use vstd::string::StrSliceExecFns;
use vstd::string::StringExecFns;
use crate::errors::{Code, Status, ttrpc_error};
use crate::io_setup::{Stdio, WinSize, stdio_is_null, stdio_model, has_no_io, console_path_spec};
use crate::runc::{
    Runc, RuncConfiguration, RuncLogFormat, CreateOpts, ExecOpts, DeleteOpts, KillOpts,
    global_args_spec, create_opts_args_spec, exec_opts_args_spec, delete_opts_args_spec,
    kill_opts_args_spec, views,
};
use crate::state::{InitState, ExecState, TransitionEvent, init_table, exec_table, init_state_label, init_state_text, exec_state_label, exec_state_text, cannot_label, cannot_text};
use crate::strutil;
use crate::time::{Timestamp, now};
use crate::types;

verus! {

/// The signal sent to collect a container's orphans.
pub const SIGKILL: i32 = 9;

/// Builds the runtime client an init process uses: the runtime root joined
/// with the namespace, the bundle's JSON log, and the systemd-cgroup flag.
/// A runtime named other than `runc` becomes the binary to run.
pub fn new_runc(root: &str, path: &str, namespace: &str, runtime: &str, systemd: bool) -> (r:
    Runc)
    ensures
        r.command@ == (if runtime@ == "runc"@ {
            "runc"@
        } else {
            runtime@
        }),
        (r.root matches Some(p) && p@ == root@ + "/"@ + namespace@),
        (r.log matches Some(p) && p@ == path@ + "/log.json"@),
        r.log_format == Some(RuncLogFormat::Json),
        r.systemd_cgroup == systemd,
        r.debug == false,
        r.rootless is None,
        r.timeout_ms == 5000,
{
    let mut config = RuncConfiguration::default();
    if !strutil::str_eq(runtime, "runc") {
        config.command = Some(String::from_str(runtime));
    }
    let mut rootdir = String::from_str(root);
    rootdir.append("/");
    rootdir.append(namespace);
    config.root = Some(rootdir);
    let mut log = String::from_str(path);
    log.append("/log.json");
    config.log = Some(log);
    config.log_format = Some(RuncLogFormat::Json);
    config.systemd_cgroup = systemd;
    Runc::new(config)
}

/// How an init or exec process's streams are to be created.
#[derive(Debug)]
pub enum IoPlan {
    /// Listen on the console socket and await the PTY master.
    Terminal { console_socket: String },
    /// Route stdout and stderr to /dev/null.
    Null,
    /// Create one OS pipe per wired stream, owned by the given ids.
    Pipes { open_stdin: bool, open_stdout: bool, open_stderr: bool, io_uid: u32, io_gid: u32 },
}

/// The mathematical value of an I/O plan.
pub enum IoPlanModel {
    Terminal { console_socket: Seq<char> },
    Null,
    Pipes { open_stdin: bool, open_stdout: bool, open_stderr: bool, io_uid: u32, io_gid: u32 },
}

/// The mathematical value of an executable I/O plan.
pub open spec fn io_plan_model(p: IoPlan) -> IoPlanModel {
    match p {
        IoPlan::Terminal { console_socket } => IoPlanModel::Terminal {
            console_socket: console_socket@,
        },
        IoPlan::Null => IoPlanModel::Null,
        IoPlan::Pipes { open_stdin, open_stdout, open_stderr, io_uid, io_gid } => {
            IoPlanModel::Pipes { open_stdin, open_stdout, open_stderr, io_uid, io_gid }
        },
    }
}

/// The I/O wiring a stdio request selects for a process started through
/// the runtime: a PTY handover when a terminal was asked for, nothing when
/// no stream is wired, pipes otherwise.
pub open spec fn io_plan_of(
    s: crate::io_setup::StdioModel,
    console_socket: Seq<char>,
    io_uid: u32,
    io_gid: u32,
) -> IoPlanModel {
    if s.terminal {
        IoPlanModel::Terminal { console_socket }
    } else if stdio_is_null(s) {
        IoPlanModel::Null
    } else {
        IoPlanModel::Pipes {
            open_stdin: s.stdin.len() > 0,
            open_stdout: s.stdout.len() > 0,
            open_stderr: s.stderr.len() > 0,
            io_uid,
            io_gid,
        }
    }
}

/// What a failed console-socket bind means for a terminal start: the
/// operation fails with Internal before the runtime is ever invoked, and
/// no pid file can have been written. A plan that needs no console socket
/// proceeds regardless.
pub fn console_bind_outcome(io: &IoPlan, bind_ok: bool) -> (r: Result<(), Status>)
    ensures
        (r is Ok) <==> (!(io matches IoPlan::Terminal { .. }) || bind_ok),
        match r {
            Ok(()) => true,
            Err(e) => (io matches IoPlan::Terminal { .. }) && !bind_ok && e.code == Code::Internal
                && e.message@ == "unix socket should be created ok"@,
        },
{
    match io {
        IoPlan::Terminal { .. } => {
            if bind_ok {
                Ok(())
            } else {
                Err(
                    ttrpc_error(
                        Code::Internal,
                        String::from_str("unix socket should be created ok"),
                    ),
                )
            }
        },
        _ => Ok(()),
    }
}

/// The init process of a container.
#[derive(Debug)]
pub struct InitProcess {
    pub id: String,
    pub container_id: String,
    pub state: InitState,
    pub work_dir: String,
    pub bundle: String,
    pub console: Option<i32>,
    pub runtime: Runc,
    pub status: i32,
    pub exited: Option<Timestamp>,
    pub pid: i32,
    pub stdin_fd: Option<i32>,
    pub stdio: Stdio,
    pub rootfs: String,
    pub io_uid: u32,
    pub io_gid: u32,
    pub no_pivot_root: bool,
    pub no_new_keyring: bool,
    pub latch_released: bool,
}

/// The init process's internal invariant: a live (running, paused or
/// stopped) process has a pid; a stopped process has its exit recorded;
/// the exit latch is released exactly when the exit is recorded.
pub open spec fn init_wf(p: InitProcess) -> bool {
    &&& (p.state == InitState::Running || p.state == InitState::Paused || p.state
        == InitState::Stopped) ==> p.pid != 0
    &&& p.state == InitState::Stopped ==> (p.exited is Some)
    &&& p.latch_released <==> (p.exited is Some)
}

/// The planned work of creating the container.
#[derive(Debug)]
pub struct CreatePlan {
    pub io: IoPlan,
    pub pid_file: String,
    pub create_argv: Vec<String>,
    pub open_stdin_path: Option<String>,
    pub copy_stdio: Stdio,
}

impl InitProcess {
    /// A fresh init process from a create request: state Created, no pid,
    /// no exit, the runtime client configured for this container.
    pub fn new(
        path: &str,
        work_dir: &str,
        runtime_root: &str,
        namespace: &str,
        systemd_cgroup: bool,
        req: &types::CreateTaskRequest,
        rootfs: &str,
    ) -> (r: InitProcess)
        ensures
            init_wf(r),
            r.id@ == req.id@,
            r.container_id@ == req.id@,
            r.state == InitState::Created,
            r.work_dir@ == work_dir@,
            r.bundle@ == req.bundle@,
            r.console is None,
            r.status == 0,
            r.exited is None,
            r.pid == 0,
            r.stdin_fd is None,
            stdio_model(r.stdio) == (crate::io_setup::StdioModel {
                stdin: req.stdin@,
                stdout: req.stdout@,
                stderr: req.stderr@,
                terminal: req.terminal,
            }),
            r.rootfs@ == rootfs@,
            r.io_uid == req.io_uid,
            r.io_gid == req.io_gid,
            r.no_pivot_root == req.no_pivot_root,
            r.no_new_keyring == req.no_new_keyring,
            !r.latch_released,
            r.runtime.command@ == (if req.runtime@ == "runc"@ {
                "runc"@
            } else {
                req.runtime@
            }),
            (r.runtime.root matches Some(p) && p@ == runtime_root@ + "/"@ + namespace@),
            (r.runtime.log matches Some(p) && p@ == path@ + "/log.json"@),
            r.runtime.log_format == Some(RuncLogFormat::Json),
            r.runtime.systemd_cgroup == systemd_cgroup,
    {
        let runtime = new_runc(runtime_root, path, namespace, req.runtime.as_str(), systemd_cgroup);
        InitProcess {
            id: strutil::clone_string(&req.id),
            container_id: strutil::clone_string(&req.id),
            state: InitState::Created,
            work_dir: String::from_str(work_dir),
            bundle: strutil::clone_string(&req.bundle),
            console: None,
            runtime,
            status: 0,
            exited: None,
            pid: 0,
            stdin_fd: None,
            stdio: Stdio {
                stdin: strutil::clone_string(&req.stdin),
                stdout: strutil::clone_string(&req.stdout),
                stderr: strutil::clone_string(&req.stderr),
                terminal: req.terminal,
            },
            rootfs: String::from_str(rootfs),
            io_uid: req.io_uid,
            io_gid: req.io_gid,
            no_pivot_root: req.no_pivot_root,
            no_new_keyring: req.no_new_keyring,
            latch_released: false,
        }
    }

    /// Plans the container creation: the I/O wiring, the pid file at
    /// `<bundle>/init.pid`, the runtime create invocation (console socket
    /// passed through when a terminal was asked for), and the stdin fifo to
    /// hold open afterwards.
    pub fn create_plan(&self, tmpdir: &str) -> (r: CreatePlan)
        ensures
            io_plan_model(r.io) == io_plan_of(
                stdio_model(self.stdio),
                console_path_spec(tmpdir@, self.id@),
                self.io_uid,
                self.io_gid,
            ),
            r.pid_file@ == self.bundle@ + "/init.pid"@,
            views(r.create_argv@) == global_args_spec(self.runtime) + seq!["create"@]
                + create_opts_args_spec_norm(
                r.pid_file@,
                (if self.stdio.terminal {
                    Some(console_path_spec(tmpdir@, self.id@))
                } else {
                    None
                }),
                self.no_pivot_root,
                self.no_new_keyring,
            ) + seq!["--bundle"@, self.bundle@, self.id@],
            match r.open_stdin_path {
                Some(p) => self.stdio.stdin@.len() > 0 && p@ == self.stdio.stdin@,
                None => self.stdio.stdin@.len() == 0,
            },
            stdio_model(r.copy_stdio) == stdio_model(self.stdio),
    {
        let console_socket_path = crate::io_setup::console_socket_path(tmpdir, self.id.as_str());
        let io = if self.stdio.terminal {
            IoPlan::Terminal { console_socket: strutil::clone_string(&console_socket_path) }
        } else if has_no_io(&self.stdio) {
            IoPlan::Null
        } else {
            IoPlan::Pipes {
                open_stdin: self.stdio.stdin.as_str().unicode_len() > 0,
                open_stdout: self.stdio.stdout.as_str().unicode_len() > 0,
                open_stderr: self.stdio.stderr.as_str().unicode_len() > 0,
                io_uid: self.io_uid,
                io_gid: self.io_gid,
            }
        };
        let mut pid_file = strutil::clone_string(&self.bundle);
        pid_file.append("/init.pid");
        let opts = CreateOpts {
            pid_file: Some(strutil::clone_string(&pid_file)),
            console_socket: if self.stdio.terminal {
                Some(strutil::clone_string(&console_socket_path))
            } else {
                None
            },
            no_pivot: self.no_pivot_root,
            no_new_keyring: self.no_new_keyring,
            detach: false,
        };
        let create_argv = self.runtime.create_args(
            self.id.as_str(),
            self.bundle.as_str(),
            Some(&opts),
        );
        proof {
            assert(create_opts_args_spec(opts) =~= create_opts_args_spec_norm(
                pid_file@,
                if self.stdio.terminal {
                    Some(console_path_spec(tmpdir@, self.id@))
                } else {
                    None
                },
                self.no_pivot_root,
                self.no_new_keyring,
            ));
        }
        let open_stdin_path = if self.stdio.stdin.as_str().unicode_len() > 0 {
            Some(strutil::clone_string(&self.stdio.stdin))
        } else {
            None
        };
        CreatePlan {
            io,
            pid_file,
            create_argv,
            open_stdin_path,
            copy_stdio: Stdio {
                stdin: strutil::clone_string(&self.stdio.stdin),
                stdout: strutil::clone_string(&self.stdio.stdout),
                stderr: strutil::clone_string(&self.stdio.stderr),
                terminal: self.stdio.terminal,
            },
        }
    }

    /// Applies a successful creation: the pid read back from the pid file,
    /// the PTY master when one was received, and the retained stdin handle.
    pub fn create_commit(&mut self, pid: i32, console: Option<i32>, stdin_fd: Option<i32>)
        requires
            init_wf(*old(self)),
            old(self).state == InitState::Created || old(self).state
                == InitState::CreatedCheckpoint,
        ensures
            init_wf(*final(self)),
            *final(self) == (InitProcess { pid, console, stdin_fd, ..*old(self) }),
    {
        self.pid = pid;
        self.console = console;
        self.stdin_fd = stdin_fd;
    }

    /// Plans starting the container. Only a created container can start.
    pub fn start_plan(&self) -> (r: Result<Vec<String>, Status>)
        ensures
            match r {
                Ok(argv) => (self.state == InitState::Created || self.state
                    == InitState::CreatedCheckpoint) && views(argv@) == global_args_spec(
                    self.runtime,
                ) + seq!["start"@, self.id@],
                Err(e) => !(self.state == InitState::Created || self.state
                    == InitState::CreatedCheckpoint) && e.code == Code::FailedPrecondition
                    && e.message@ == cannot_label("start"@, init_state_label(self.state)),
            },
    {
        if matches!(self.state, InitState::Created) || matches!(
            self.state,
            InitState::CreatedCheckpoint,
        ) {
            Ok(self.runtime.start_args(self.id.as_str()))
        } else {
            Err(
                ttrpc_error(
                    Code::FailedPrecondition,
                    cannot_text("start", init_state_text(self.state)),
                ),
            )
        }
    }

    /// Applies a successful start: the created container is now running.
    pub fn start_commit(&mut self)
        requires
            init_wf(*old(self)),
            old(self).state == InitState::Created || old(self).state
                == InitState::CreatedCheckpoint,
            old(self).pid != 0,
        ensures
            init_wf(*final(self)),
            *final(self) == (InitProcess { state: InitState::Running, ..*old(self) }),
            init_table(old(self).state, TransitionEvent::Start) == Some(final(self).state),
    {
        let next = self.state.step(TransitionEvent::Start);
        match next {
            Some(s) => {
                self.state = s;
            },
            None => {
                proof {
                    assert(false);
                }
            },
        }
    }

    /// Builds the exec process a running (or created) container may host.
    /// The spec bytes must decode as a process spec; the exec process
    /// remembers the directory its pid file will live in.
    pub fn exec(&self, path: &str, r: types::ExecConfig) -> (res: Result<ExecProcess, Status>)
        ensures
            match res {
                Ok(e) => {
                    &&& (self.state == InitState::Running || self.state == InitState::Created)
                    &&& spec_wellformed(r.spec@)
                    &&& exec_wf(e)
                    &&& e.id@ == r.id@
                    &&& e.container_id@ == self.container_id@
                    &&& e.state == ExecState::ExecCreated
                    &&& e.console is None
                    &&& e.io_uid == self.io_uid
                    &&& e.io_gid == self.io_gid
                    &&& e.status == 0
                    &&& (e.exited is None)
                    &&& e.pid == 0
                    &&& stdio_model(e.stdio) == crate::io_setup::StdioModel {
                        stdin: r.stdin@,
                        stdout: r.stdout@,
                        stderr: r.stderr@,
                        terminal: r.terminal,
                    }
                    &&& (e.stdin_fd is None)
                    &&& e.path@ == path@
                    &&& e.spec@ == r.spec@
                    &&& e.terminal == r.terminal
                    &&& !e.latch_released
                    &&& e.runtime.command@ == self.runtime.command@
                    &&& global_args_spec(e.runtime) == global_args_spec(self.runtime)
                    &&& e.runtime.log_format == self.runtime.log_format
                    &&& e.runtime.systemd_cgroup == self.runtime.systemd_cgroup
                    &&& e.runtime.rootless == self.runtime.rootless
                },
                Err(e) => {
                    &&& !(self.state == InitState::Running || self.state == InitState::Created)
                        ==> e.code == Code::FailedPrecondition && e.message@ == cannot_label(
                        "start"@,
                        init_state_label(self.state),
                    )
                    &&& ((self.state == InitState::Running || self.state == InitState::Created)
                        && !spec_wellformed(r.spec@)) ==> e.code == Code::Internal
                    &&& ((self.state == InitState::Running || self.state == InitState::Created)
                        && spec_wellformed(r.spec@)) ==> false
                },
            },
    {
        if !(matches!(self.state, InitState::Running) || matches!(self.state, InitState::Created)) {
            return Err(
                ttrpc_error(
                    Code::FailedPrecondition,
                    cannot_text("start", init_state_text(self.state)),
                ),
            );
        }
        match parse_process_spec(&r.spec) {
            Ok(_) => {},
            Err(_) => {
                return Err(ttrpc_error(Code::Internal, String::from_str("failed to get spec")));
            },
        }
        Ok(
            ExecProcess {
                id: r.id,
                container_id: strutil::clone_string(&self.container_id),
                state: ExecState::ExecCreated,
                console: None,
                io_uid: self.io_uid,
                io_gid: self.io_gid,
                status: 0,
                exited: None,
                pid: 0,
                stdio: Stdio {
                    stdin: r.stdin,
                    stdout: r.stdout,
                    stderr: r.stderr,
                    terminal: r.terminal,
                },
                stdin_fd: None,
                runtime: self.runtime.duplicate(),
                path: String::from_str(path),
                spec: r.spec,
                terminal: r.terminal,
                latch_released: false,
            },
        )
    }

    /// The invocation that force-kills everything in the container, used
    /// when the init exits in a shared pid namespace.
    pub fn kill_all_args(&self) -> (r: Vec<String>)
        ensures
            views(r@) == global_args_spec(self.runtime) + seq!["kill"@, "--all"@, self.id@, "9"@],
    {
        let opts = KillOpts { all: true };
        let r = self.runtime.kill_args(self.id.as_str(), SIGKILL, Some(&opts));
        proof {
            reveal_strlit("9");
            assert(strutil::dec_of(9int) =~= "9"@);
            assert(global_args_spec(self.runtime) + seq!["kill"@] + kill_opts_args_spec(opts)
                + seq![self.id@, strutil::dec_of(9int)] =~= global_args_spec(self.runtime) + seq![
                "kill"@,
                "--all"@,
                self.id@,
                "9"@,
            ]);
        }
        r
    }

    /// Plans a pause: only a running container can pause.
    pub fn pause_plan(&self) -> (r: Result<Vec<String>, Status>)
        ensures
            match r {
                Ok(argv) => self.state == InitState::Running && views(argv@) == global_args_spec(
                    self.runtime,
                ) + seq!["pause"@, self.id@],
                Err(e) => self.state != InitState::Running && e.code == Code::FailedPrecondition
                    && e.message@ == cannot_label("pause"@, init_state_label(self.state)),
            },
    {
        if matches!(self.state, InitState::Running) {
            Ok(self.runtime.pause_args(self.id.as_str()))
        } else {
            Err(
                ttrpc_error(
                    Code::FailedPrecondition,
                    cannot_text("pause", init_state_text(self.state)),
                ),
            )
        }
    }

    /// Applies a successful pause.
    pub fn pause_commit(&mut self)
        requires
            init_wf(*old(self)),
            old(self).state == InitState::Running,
        ensures
            init_wf(*final(self)),
            *final(self) == (InitProcess { state: InitState::Paused, ..*old(self) }),
            init_table(old(self).state, TransitionEvent::Pause) == Some(final(self).state),
    {
        let next = self.state.step(TransitionEvent::Pause);
        match next {
            Some(s) => {
                self.state = s;
            },
            None => {
                proof {
                    assert(false);
                }
            },
        }
    }

    /// Plans a resume: only a paused container can resume.
    pub fn resume_plan(&self) -> (r: Result<Vec<String>, Status>)
        ensures
            match r {
                Ok(argv) => self.state == InitState::Paused && views(argv@) == global_args_spec(
                    self.runtime,
                ) + seq!["resume"@, self.id@],
                Err(e) => self.state != InitState::Paused && e.code == Code::FailedPrecondition
                    && e.message@ == cannot_label("resume"@, init_state_label(self.state)),
            },
    {
        if matches!(self.state, InitState::Paused) {
            Ok(self.runtime.resume_args(self.id.as_str()))
        } else {
            Err(
                ttrpc_error(
                    Code::FailedPrecondition,
                    cannot_text("resume", init_state_text(self.state)),
                ),
            )
        }
    }

    /// Applies a successful resume: the paused container runs again.
    pub fn resume_commit(&mut self)
        requires
            init_wf(*old(self)),
            old(self).state == InitState::Paused,
        ensures
            init_wf(*final(self)),
            *final(self) == (InitProcess { state: InitState::Running, ..*old(self) }),
            init_table(old(self).state, TransitionEvent::Start) == Some(final(self).state),
    {
        let next = self.state.step(TransitionEvent::Start);
        match next {
            Some(s) => {
                self.state = s;
            },
            None => {
                proof {
                    assert(false);
                }
            },
        }
    }

    /// Plans a resource update: allowed while created, running or paused;
    /// the resources ride in a temporary file.
    pub fn update_plan(&self, temp_file: &str) -> (r: Result<Vec<String>, Status>)
        ensures
            match r {
                Ok(argv) => (self.state == InitState::Created || self.state
                    == InitState::CreatedCheckpoint || self.state == InitState::Running
                    || self.state == InitState::Paused) && views(argv@) == global_args_spec(
                    self.runtime,
                ) + seq!["update"@, "--resources"@, temp_file@, self.id@],
                Err(e) => !(self.state == InitState::Created || self.state
                    == InitState::CreatedCheckpoint || self.state == InitState::Running
                    || self.state == InitState::Paused) && e.code == Code::FailedPrecondition
                    && e.message@ == cannot_label("update"@, init_state_label(self.state)),
            },
    {
        if matches!(self.state, InitState::Created) || matches!(
            self.state,
            InitState::CreatedCheckpoint,
        ) || matches!(self.state, InitState::Running) || matches!(self.state, InitState::Paused) {
            Ok(self.runtime.update_args(temp_file, self.id.as_str()))
        } else {
            Err(
                ttrpc_error(
                    Code::FailedPrecondition,
                    cannot_text("update", init_state_text(self.state)),
                ),
            )
        }
    }

    /// Checkpointing is surfaced but not performed: allowed only while
    /// running or paused, and then does nothing.
    pub fn checkpoint(&self) -> (r: Result<(), Status>)
        ensures
            match r {
                Ok(()) => self.state == InitState::Running || self.state == InitState::Paused,
                Err(e) => !(self.state == InitState::Running || self.state == InitState::Paused)
                    && e.code == Code::FailedPrecondition && e.message@ == cannot_label(
                    "checkpoint"@,
                    init_state_label(self.state),
                ),
            },
    {
        if matches!(self.state, InitState::Running) || matches!(self.state, InitState::Paused) {
            Ok(())
        } else {
            Err(
                ttrpc_error(
                    Code::FailedPrecondition,
                    cannot_text("checkpoint", init_state_text(self.state)),
                ),
            )
        }
    }

    /// Plans a deletion: only a created or stopped container can be
    /// deleted; deleting twice reports NotFound. The plan carries the
    /// rootfs to unmount when one was bound.
    pub fn delete_plan(&self) -> (r: Result<(Vec<String>, Option<String>), Status>)
        ensures
            match r {
                Ok((argv, umount)) => {
                    &&& (self.state == InitState::Created || self.state
                        == InitState::CreatedCheckpoint || self.state == InitState::Stopped)
                    &&& views(argv@) == global_args_spec(self.runtime) + seq![
                        "delete"@,
                        self.id@,
                    ]
                    &&& match umount {
                        Some(p) => self.rootfs@.len() > 0 && p@ == self.rootfs@,
                        None => self.rootfs@.len() == 0,
                    }
                },
                Err(e) => {
                    &&& !(self.state == InitState::Created || self.state
                        == InitState::CreatedCheckpoint || self.state == InitState::Stopped)
                    &&& (self.state == InitState::Deleted ==> e.code == Code::NotFound)
                    &&& (self.state != InitState::Deleted ==> e.code == Code::FailedPrecondition)
                    &&& e.message@ == cannot_label("delete"@, init_state_label(self.state))
                },
            },
    {
        if matches!(self.state, InitState::Created) || matches!(
            self.state,
            InitState::CreatedCheckpoint,
        ) || matches!(self.state, InitState::Stopped) {
            let opts = DeleteOpts { force: false };
            let argv = self.runtime.delete_args(self.id.as_str(), Some(&opts));
            proof {
                assert(global_args_spec(self.runtime) + seq!["delete"@] + delete_opts_args_spec(
                    opts,
                ) + seq![self.id@] =~= global_args_spec(self.runtime) + seq![
                    "delete"@,
                    self.id@,
                ]);
            }
            let umount = if self.rootfs.as_str().unicode_len() > 0 {
                Some(strutil::clone_string(&self.rootfs))
            } else {
                None
            };
            Ok((argv, umount))
        } else if matches!(self.state, InitState::Deleted) {
            Err(
                ttrpc_error(
                    Code::NotFound,
                    cannot_text("delete", init_state_text(self.state)),
                ),
            )
        } else {
            Err(
                ttrpc_error(
                    Code::FailedPrecondition,
                    cannot_text("delete", init_state_text(self.state)),
                ),
            )
        }
    }

    /// Applies a successful deletion.
    pub fn delete_commit(&mut self)
        requires
            init_wf(*old(self)),
            old(self).state == InitState::Created || old(self).state
                == InitState::CreatedCheckpoint || old(self).state == InitState::Stopped,
        ensures
            init_wf(*final(self)),
            *final(self) == (InitProcess { state: InitState::Deleted, ..*old(self) }),
            init_table(old(self).state, TransitionEvent::Delete) == Some(final(self).state),
    {
        let next = self.state.step(TransitionEvent::Delete);
        match next {
            Some(s) => {
                self.state = s;
            },
            None => {
                proof {
                    assert(false);
                }
            },
        }
    }

    /// Plans a kill: a deleted process reports NotFound, anything else
    /// forwards the signal to the runtime.
    pub fn kill_plan(&self, sig: u32, all: bool) -> (r: Result<Vec<String>, Status>)
        requires
            sig <= i32::MAX,
        ensures
            match r {
                Ok(argv) => self.state != InitState::Deleted && views(argv@) == global_args_spec(
                    self.runtime,
                ) + seq!["kill"@] + (if all {
                    seq!["--all"@]
                } else {
                    Seq::empty()
                }) + seq![self.id@, strutil::dec_of(sig as int)],
                Err(e) => self.state == InitState::Deleted && e.code == Code::NotFound
                    && e.message@ == cannot_label("kill"@, init_state_label(self.state)),
            },
    {
        if matches!(self.state, InitState::Deleted) {
            return Err(
                ttrpc_error(
                    Code::NotFound,
                    cannot_text("kill", init_state_text(self.state)),
                ),
            );
        }
        let opts = KillOpts { all };
        let argv = self.runtime.kill_args(self.id.as_str(), sig as i32, Some(&opts));
        proof {
            assert(global_args_spec(self.runtime) + seq!["kill"@] + kill_opts_args_spec(opts)
                + seq![self.id@, strutil::dec_of(sig as int)] =~= global_args_spec(self.runtime)
                + seq!["kill"@] + (if all {
                seq!["--all"@]
            } else {
                Seq::<Seq<char>>::empty()
            }) + seq![self.id@, strutil::dec_of(sig as int)]);
        }
        Ok(argv)
    }

    /// Records the exit of the process: sets the status and timestamp once,
    /// steps to Stopped, and releases the exit latch. Recording an exit on
    /// an already stopped process changes nothing.
    pub fn set_exited(&mut self, status: i32)
        requires
            init_wf(*old(self)),
            old(self).state != InitState::Deleted,
            old(self).state == InitState::Stopped || old(self).pid != 0,
        ensures
            init_wf(*final(self)),
            old(self).state == InitState::Stopped ==> *final(self) == *old(self),
            old(self).state != InitState::Stopped ==> {
                &&& final(self).state == InitState::Stopped
                &&& final(self).status == status
                &&& (final(self).exited is Some)
                &&& final(self).latch_released
                &&& final(self).pid == old(self).pid
                &&& final(self).id == old(self).id
                &&& final(self).container_id == old(self).container_id
            },
    {
        if matches!(self.state, InitState::Stopped) {
            return ;
        }
        let local = now();
        self.status = status;
        self.exited = Some(local);
        let next = self.state.step(TransitionEvent::Stop);
        match next {
            Some(s) => {
                self.state = s;
            },
            None => {
                proof {
                    assert(false);
                }
            },
        }
        self.latch_released = true;
    }

    /// What a waiter observes: nothing while the process lives, the exit
    /// status and time once the latch is released.
    pub fn wait_poll(&self) -> (r: Option<(i32, Timestamp)>)
        requires
            init_wf(*self),
        ensures
            match r {
                Some((status, at)) => self.latch_released && status == self.status && Some(at)
                    == self.exited,
                None => !self.latch_released,
            },
    {
        if self.latch_released {
            match &self.exited {
                Some(at) => Some((self.status, *at)),
                None => {
                    proof {
                        assert(false);
                    }
                    None
                },
            }
        } else {
            None
        }
    }

    /// The externally visible status name of the process.
    pub fn state_name(&self) -> (r: types::TaskStatus)
        ensures
            r == match self.state {
                InitState::Created => types::TaskStatus::Created,
                InitState::CreatedCheckpoint => types::TaskStatus::Created,
                InitState::Running => types::TaskStatus::Running,
                InitState::Paused => types::TaskStatus::Paused,
                InitState::Stopped => types::TaskStatus::Stopped,
                InitState::Deleted => types::TaskStatus::Stopped,
            },
    {
        match self.state {
            InitState::Created => types::TaskStatus::Created,
            InitState::CreatedCheckpoint => types::TaskStatus::Created,
            InitState::Running => types::TaskStatus::Running,
            InitState::Paused => types::TaskStatus::Paused,
            InitState::Stopped => types::TaskStatus::Stopped,
            InitState::Deleted => types::TaskStatus::Stopped,
        }
    }

    /// Drops the retained stdin handle, handing its descriptor to the
    /// caller to close; closing twice is a no-op.
    pub fn close_stdin(&mut self) -> (r: Option<i32>)
        ensures
            final(self).stdin_fd is None,
            r == old(self).stdin_fd,
            *final(self) == (InitProcess { stdin_fd: None, ..*old(self) }),
    {
        let fd = self.stdin_fd;
        self.stdin_fd = None;
        fd
    }

    /// The terminal resize to perform, when a PTY master is present.
    pub fn resize(&self, ws: &WinSize) -> (r: Option<(i32, WinSize)>)
        ensures
            match r {
                Some((fd, w)) => self.console == Some(fd) && w == *ws,
                None => self.console is None,
            },
    {
        match self.console {
            Some(fd) => Some((fd, *ws)),
            None => None,
        }
    }

    /// The invocation that lists the container's pids.
    pub fn ps_args(&self) -> (r: Vec<String>)
        ensures
            views(r@) == global_args_spec(self.runtime) + seq!["ps"@, "--format=json"@, self.id@],
    {
        self.runtime.ps_args(self.id.as_str())
    }
}

/// An exec process of a container.
#[derive(Debug)]
pub struct ExecProcess {
    pub id: String,
    pub container_id: String,
    pub state: ExecState,
    pub console: Option<i32>,
    pub io_uid: u32,
    pub io_gid: u32,
    pub status: i32,
    pub exited: Option<Timestamp>,
    pub pid: i32,
    pub stdio: Stdio,
    pub stdin_fd: Option<i32>,
    pub runtime: Runc,
    pub path: String,
    pub spec: Vec<u8>,
    pub terminal: bool,
    pub latch_released: bool,
}

/// The exec process's internal invariant, mirroring the init one.
pub open spec fn exec_wf(p: ExecProcess) -> bool {
    &&& (p.state == ExecState::ExecRunning || p.state == ExecState::ExecStopped) ==> p.pid != 0
    &&& p.state == ExecState::ExecStopped ==> (p.exited is Some)
    &&& p.latch_released <==> (p.exited is Some)
}

/// Whether a byte sequence decodes as an OCI process spec; the result
/// depends on the bytes alone.
pub uninterp spec fn spec_wellformed(bytes: Seq<u8>) -> bool;

/// Relies on serde_json::from_slice::<oci_spec::runtime::Process>: whether
/// the bytes decode as a process spec is a function of the bytes alone.
#[verifier::external_body]
fn parse_process_spec(bytes: &Vec<u8>) -> (r: Result<oci_spec::runtime::Process, serde_json::Error>)
    ensures
        (r is Ok) == spec_wellformed(bytes@),
{
    serde_json::from_slice(bytes.as_slice())
}

/// An OCI process spec value, carried through opaquely.
#[verifier::external_type_specification]
#[verifier::external_body]
pub struct ExOciProcess(oci_spec::runtime::Process);

impl Runc {
    /// A field-for-field copy of the runtime client.
    pub fn duplicate(&self) -> (r: Runc)
        ensures
            r.command@ == self.command@,
            r.timeout_ms == self.timeout_ms,
            (match (r.root, self.root) {
                (Some(a), Some(b)) => a@ == b@,
                (None, None) => true,
                _ => false,
            }),
            r.debug == self.debug,
            (match (r.log, self.log) {
                (Some(a), Some(b)) => a@ == b@,
                (None, None) => true,
                _ => false,
            }),
            r.log_format == self.log_format,
            r.systemd_cgroup == self.systemd_cgroup,
            r.rootless == self.rootless,
            global_args_spec(r) == global_args_spec(*self),
    {
        let root = match &self.root {
            Some(p) => Some(strutil::clone_string(p)),
            None => None,
        };
        let log = match &self.log {
            Some(p) => Some(strutil::clone_string(p)),
            None => None,
        };
        let r = Runc {
            command: strutil::clone_string(&self.command),
            timeout_ms: self.timeout_ms,
            root,
            debug: self.debug,
            log,
            log_format: self.log_format,
            systemd_cgroup: self.systemd_cgroup,
            rootless: self.rootless,
        };
        proof {
            assert(seg_root_eq(r, *self) && seg_log_eq(r, *self));
            assert(global_args_spec(r) =~= global_args_spec(*self));
        }
        r
    }
}

/// The root segments of two clients agree.
pub open spec fn seg_root_eq(a: Runc, b: Runc) -> bool {
    crate::runc::seg_root(a) == crate::runc::seg_root(b)
}

/// The log segments of two clients agree.
pub open spec fn seg_log_eq(a: Runc, b: Runc) -> bool {
    crate::runc::seg_log(a) == crate::runc::seg_log(b)
}

/// The normalized create-option flags, spelled over plain sequences so
/// plans can state them without naming an options value.
pub open spec fn create_opts_args_spec_norm(
    pid_file: Seq<char>,
    console_socket: Option<Seq<char>>,
    no_pivot: bool,
    no_new_keyring: bool,
) -> Seq<Seq<char>> {
    seq!["--pid-file"@, pid_file] + (match console_socket {
        Some(p) => seq!["--console-socket"@, p],
        None => Seq::empty(),
    }) + (if no_pivot {
        seq!["--no-pivot"@]
    } else {
        Seq::empty()
    }) + (if no_new_keyring {
        seq!["--no-new-keyring"@]
    } else {
        Seq::empty()
    })
}

/// The planned work of starting an exec process.
#[derive(Debug)]
pub struct ExecStartPlan {
    pub io: IoPlan,
    pub pid_file: String,
    pub exec_argv: Vec<String>,
    pub open_stdin_path: Option<String>,
    pub copy_stdio: Stdio,
}

impl ExecProcess {
    /// Plans starting the exec process: its I/O wiring, the per-exec pid
    /// file `<path>/<exec_id>.pid`, and the detached runtime exec
    /// invocation with the spec riding in the given temporary file.
    pub fn start_plan(&self, tmpdir: &str, temp_spec_file: &str) -> (r: Result<
        ExecStartPlan,
        Status,
    >)
        ensures
            match r {
                Ok(plan) => {
                    &&& self.state == ExecState::ExecCreated
                    &&& io_plan_model(plan.io) == io_plan_of(
                        stdio_model(self.stdio),
                        console_path_spec(tmpdir@, self.id@),
                        self.io_uid,
                        self.io_gid,
                    )
                    &&& plan.pid_file@ == self.path@ + "/"@ + self.id@ + ".pid"@
                    &&& views(plan.exec_argv@) == global_args_spec(self.runtime) + seq![
                        "exec"@,
                        "--process"@,
                        temp_spec_file@,
                    ] + exec_opts_args_spec_norm(
                        Some(plan.pid_file@),
                        if self.stdio.terminal {
                            Some(console_path_spec(tmpdir@, self.id@))
                        } else {
                            None
                        },
                        true,
                    ) + seq![self.container_id@]
                    &&& match plan.open_stdin_path {
                        Some(p) => self.stdio.stdin@.len() > 0 && p@ == self.stdio.stdin@,
                        None => self.stdio.stdin@.len() == 0,
                    }
                    &&& stdio_model(plan.copy_stdio) == stdio_model(self.stdio)
                },
                Err(e) => self.state != ExecState::ExecCreated && e.code
                    == Code::FailedPrecondition && e.message@ == cannot_label(
                    "start"@,
                    exec_state_label(self.state),
                ),
            },
    {
        if !matches!(self.state, ExecState::ExecCreated) {
            return Err(
                ttrpc_error(
                    Code::FailedPrecondition,
                    cannot_text("start", exec_state_text(self.state)),
                ),
            );
        }
        let console_socket_path = crate::io_setup::console_socket_path(tmpdir, self.id.as_str());
        let io = if self.stdio.terminal {
            IoPlan::Terminal { console_socket: strutil::clone_string(&console_socket_path) }
        } else if has_no_io(&self.stdio) {
            IoPlan::Null
        } else {
            IoPlan::Pipes {
                open_stdin: self.stdio.stdin.as_str().unicode_len() > 0,
                open_stdout: self.stdio.stdout.as_str().unicode_len() > 0,
                open_stderr: self.stdio.stderr.as_str().unicode_len() > 0,
                io_uid: self.io_uid,
                io_gid: self.io_gid,
            }
        };
        let mut pid_file = strutil::clone_string(&self.path);
        pid_file.append("/");
        pid_file.append(self.id.as_str());
        pid_file.append(".pid");
        let opts = ExecOpts {
            pid_file: Some(strutil::clone_string(&pid_file)),
            console_socket: if self.stdio.terminal {
                Some(strutil::clone_string(&console_socket_path))
            } else {
                None
            },
            detach: true,
        };
        let exec_argv = self.runtime.exec_args(
            temp_spec_file,
            self.container_id.as_str(),
            Some(&opts),
        );
        proof {
            assert(exec_opts_args_spec(opts) =~= exec_opts_args_spec_norm(
                Some(pid_file@),
                if self.stdio.terminal {
                    Some(console_path_spec(tmpdir@, self.id@))
                } else {
                    None
                },
                true,
            ));
        }
        let open_stdin_path = if self.stdio.stdin.as_str().unicode_len() > 0 {
            Some(strutil::clone_string(&self.stdio.stdin))
        } else {
            None
        };
        Ok(
            ExecStartPlan {
                io,
                pid_file,
                exec_argv,
                open_stdin_path,
                copy_stdio: Stdio {
                    stdin: strutil::clone_string(&self.stdio.stdin),
                    stdout: strutil::clone_string(&self.stdio.stdout),
                    stderr: strutil::clone_string(&self.stdio.stderr),
                    terminal: self.stdio.terminal,
                },
            },
        )
    }

    /// Applies a successful exec start: the pid read from the per-exec pid
    /// file, the PTY master when one was received, the retained stdin.
    pub fn start_commit(&mut self, pid: i32, console: Option<i32>, stdin_fd: Option<i32>)
        requires
            exec_wf(*old(self)),
            old(self).state == ExecState::ExecCreated,
            pid != 0,
        ensures
            exec_wf(*final(self)),
            *final(self) == (ExecProcess {
                state: ExecState::ExecRunning,
                pid,
                console,
                stdin_fd,
                ..*old(self)
            }),
            exec_table(old(self).state, TransitionEvent::Start) == Some(final(self).state),
    {
        self.pid = pid;
        self.console = console;
        self.stdin_fd = stdin_fd;
        let next = self.state.step(TransitionEvent::Start);
        match next {
            Some(s) => {
                self.state = s;
            },
            None => {
                proof {
                    assert(false);
                }
            },
        }
    }

    /// Deletes the exec process: allowed while created or stopped; a
    /// deleted one reports NotFound, a running one FailedPrecondition. On
    /// success the per-exec pid file is to be removed (a failed removal is
    /// not an error).
    pub fn delete(&mut self) -> (r: Result<String, Status>)
        requires
            exec_wf(*old(self)),
        ensures
            exec_wf(*final(self)),
            match r {
                Ok(pid_file) => {
                    &&& (old(self).state == ExecState::ExecCreated || old(self).state
                        == ExecState::ExecStopped)
                    &&& final(self).state == ExecState::ExecDeleted
                    &&& pid_file@ == old(self).path@ + "/"@ + old(self).id@ + ".pid"@
                    &&& *final(self) == (ExecProcess {
                        state: ExecState::ExecDeleted,
                        ..*old(self)
                    })
                    &&& exec_table(old(self).state, TransitionEvent::Delete) == Some(
                        final(self).state,
                    )
                },
                Err(e) => {
                    &&& !(old(self).state == ExecState::ExecCreated || old(self).state
                        == ExecState::ExecStopped)
                    &&& (old(self).state == ExecState::ExecDeleted ==> e.code == Code::NotFound)
                    &&& (old(self).state != ExecState::ExecDeleted ==> e.code
                        == Code::FailedPrecondition)
                    &&& e.message@ == cannot_label("delete"@, exec_state_label(old(self).state))
                    &&& *final(self) == *old(self)
                },
            },
    {
        if matches!(self.state, ExecState::ExecCreated) || matches!(
            self.state,
            ExecState::ExecStopped,
        ) {
            let mut pid_file = strutil::clone_string(&self.path);
            pid_file.append("/");
            pid_file.append(self.id.as_str());
            pid_file.append(".pid");
            let next = self.state.step(TransitionEvent::Delete);
            match next {
                Some(s) => {
                    self.state = s;
                },
                None => {
                    proof {
                        assert(false);
                    }
                },
            }
            Ok(pid_file)
        } else if matches!(self.state, ExecState::ExecDeleted) {
            Err(
                ttrpc_error(
                    Code::NotFound,
                    cannot_text("delete", exec_state_text(self.state)),
                ),
            )
        } else {
            Err(
                ttrpc_error(
                    Code::FailedPrecondition,
                    cannot_text("delete", exec_state_text(self.state)),
                ),
            )
        }
    }

    /// Plans a kill of the exec process: a deleted one reports NotFound, a
    /// never-started one FailedPrecondition, a finished one NotFound with
    /// the message the orchestrator matches on; otherwise the signal goes
    /// straight to the pid.
    pub fn kill_plan(&self, sig: u32) -> (r: Result<(i32, u32), Status>)
        ensures
            match r {
                Ok((pid, s)) => {
                    &&& self.state != ExecState::ExecDeleted
                    &&& self.pid != 0
                    &&& (self.exited is None)
                    &&& pid == self.pid
                    &&& s == sig
                },
                Err(e) => {
                    &&& (self.state == ExecState::ExecDeleted ==> e.code == Code::NotFound
                        && e.message@ == cannot_label("kill"@, exec_state_label(self.state)))
                    &&& (self.state != ExecState::ExecDeleted && self.pid == 0 ==> e.code
                        == Code::FailedPrecondition && e.message@ == "process not created"@)
                    &&& (self.state != ExecState::ExecDeleted && self.pid != 0 && (self.exited
                        is Some) ==> e.code == Code::NotFound && e.message@
                        == "process already finished"@)
                    &&& (self.state != ExecState::ExecDeleted && self.pid != 0 && (self.exited
                        is None) ==> false)
                },
            },
    {
        if matches!(self.state, ExecState::ExecDeleted) {
            return Err(
                ttrpc_error(
                    Code::NotFound,
                    cannot_text("kill", exec_state_text(self.state)),
                ),
            );
        }
        if self.pid == 0 {
            return Err(
                ttrpc_error(Code::FailedPrecondition, String::from_str("process not created")),
            );
        }
        match &self.exited {
            Some(_) => Err(
                ttrpc_error(Code::NotFound, String::from_str("process already finished")),
            ),
            None => Ok((self.pid, sig)),
        }
    }

    /// Records the exit of the exec process; a second exit changes nothing.
    pub fn set_exited(&mut self, status: i32)
        requires
            exec_wf(*old(self)),
            old(self).state != ExecState::ExecDeleted,
            old(self).state == ExecState::ExecStopped || old(self).pid != 0,
        ensures
            exec_wf(*final(self)),
            old(self).state == ExecState::ExecStopped ==> *final(self) == *old(self),
            old(self).state != ExecState::ExecStopped ==> {
                &&& final(self).state == ExecState::ExecStopped
                &&& final(self).status == status
                &&& (final(self).exited is Some)
                &&& final(self).latch_released
                &&& final(self).pid == old(self).pid
                &&& final(self).id == old(self).id
                &&& final(self).container_id == old(self).container_id
            },
    {
        if matches!(self.state, ExecState::ExecStopped) {
            return ;
        }
        let local = now();
        self.status = status;
        self.exited = Some(local);
        let next = self.state.step(TransitionEvent::Stop);
        match next {
            Some(s) => {
                self.state = s;
            },
            None => {
                proof {
                    assert(false);
                }
            },
        }
        self.latch_released = true;
    }

    /// What a waiter observes, as for the init process.
    pub fn wait_poll(&self) -> (r: Option<(i32, Timestamp)>)
        requires
            exec_wf(*self),
        ensures
            match r {
                Some((status, at)) => self.latch_released && status == self.status && Some(at)
                    == self.exited,
                None => !self.latch_released,
            },
    {
        if self.latch_released {
            match &self.exited {
                Some(at) => Some((self.status, *at)),
                None => {
                    proof {
                        assert(false);
                    }
                    None
                },
            }
        } else {
            None
        }
    }

    /// The externally visible status name: created until started, then
    /// stopped once an exit is recorded or no pid remains, else running.
    pub fn state_name(&self) -> (r: types::TaskStatus)
        ensures
            r == if self.state == ExecState::ExecCreated {
                types::TaskStatus::Created
            } else if (self.exited is Some) || self.pid == 0 {
                types::TaskStatus::Stopped
            } else {
                types::TaskStatus::Running
            },
    {
        if matches!(self.state, ExecState::ExecCreated) {
            return types::TaskStatus::Created;
        }
        let exited = match &self.exited {
            Some(_) => true,
            None => false,
        };
        if exited || self.pid == 0 {
            types::TaskStatus::Stopped
        } else {
            types::TaskStatus::Running
        }
    }

    /// Drops the retained stdin handle; closing twice is a no-op.
    pub fn close_stdin(&mut self) -> (r: Option<i32>)
        ensures
            final(self).stdin_fd is None,
            r == old(self).stdin_fd,
            *final(self) == (ExecProcess { stdin_fd: None, ..*old(self) }),
    {
        let fd = self.stdin_fd;
        self.stdin_fd = None;
        fd
    }

    /// The terminal resize to perform, when a PTY master is present.
    pub fn resize(&self, ws: &WinSize) -> (r: Option<(i32, WinSize)>)
        ensures
            match r {
                Some((fd, w)) => self.console == Some(fd) && w == *ws,
                None => self.console is None,
            },
    {
        match self.console {
            Some(fd) => Some((fd, *ws)),
            None => None,
        }
    }
}

/// The normalized exec-option flags, spelled over plain sequences.
pub open spec fn exec_opts_args_spec_norm(
    pid_file: Option<Seq<char>>,
    console_socket: Option<Seq<char>>,
    detach: bool,
) -> Seq<Seq<char>> {
    (match console_socket {
        Some(p) => seq!["--console-socket"@, p],
        None => Seq::empty(),
    }) + (if detach {
        seq!["--detach"@]
    } else {
        Seq::empty()
    }) + (match pid_file {
        Some(p) => seq!["--pid-file"@, p],
        None => Seq::empty(),
    })
}

} // verus!
