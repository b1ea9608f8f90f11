//! The task service: the container map, the single-container bookkeeping of
//! this shim, and every RPC's effect on them. Operations that need the OCI
//! runtime are split into a plan and a commit, as in the process objects;
//! the unverified binary holds the lock, runs the plan, and applies the
//! commit.

use vstd::prelude::*;
use vstd::string::StrSliceExecFns;
use vstd::string::StringExecFns;
use crate::errors::{Code, Status, ttrpc_error};
use crate::io_setup::WinSize;
use crate::process::{
    InitProcess, ExecProcess, CreatePlan, ExecStartPlan, init_wf, exec_wf,
};
use crate::state::{InitState, ExecState};
use crate::strutil;
use crate::time::to_proto_timestamp;
use crate::types;

verus! {

/// The per-shim configuration.
#[derive(Debug)]
pub struct ShimConfig {
    pub path: String,
    pub namespace: String,
    pub work_dir: String,
    pub criu: String,
    pub runtime_root: String,
    pub systemd_cgroup: bool,
}

/// A process object of the map: the container's init or one of its execs.
#[derive(Debug)]
pub enum ProcessObj {
    Init(InitProcess),
    Exec(ExecProcess),
}

/// The object's own invariant.
pub open spec fn obj_wf(o: ProcessObj) -> bool {
    match o {
        ProcessObj::Init(p) => init_wf(p),
        ProcessObj::Exec(p) => exec_wf(p),
    }
}

/// The object's identifier.
pub open spec fn obj_id(o: ProcessObj) -> Seq<char> {
    match o {
        ProcessObj::Init(p) => p.id@,
        ProcessObj::Exec(p) => p.id@,
    }
}

/// The object's pid.
pub open spec fn obj_pid(o: ProcessObj) -> int {
    match o {
        ProcessObj::Init(p) => p.pid as int,
        ProcessObj::Exec(p) => p.pid as int,
    }
}

/// The object's pid as the wire reports it.
pub open spec fn obj_pid_u32(o: ProcessObj) -> u32 {
    match o {
        ProcessObj::Init(p) => p.pid as u32,
        ProcessObj::Exec(p) => p.pid as u32,
    }
}

/// The id of the last entry among the first `k` whose pid is the given
/// one, if any.
pub open spec fn last_pid_match(
    entries: Seq<(String, ProcessObj)>,
    k: int,
    pid: u32,
) -> Option<Seq<char>>
    decreases k,
{
    if k <= 0 {
        None
    } else if obj_pid_u32(entries[k - 1].1) == pid {
        Some(obj_id(entries[k - 1].1))
    } else {
        last_pid_match(entries, k - 1, pid)
    }
}

/// The externally visible status of a map entry.
pub open spec fn obj_status_name(o: ProcessObj) -> types::TaskStatus {
    match o {
        ProcessObj::Init(p) => match p.state {
            InitState::Created => types::TaskStatus::Created,
            InitState::CreatedCheckpoint => types::TaskStatus::Created,
            InitState::Running => types::TaskStatus::Running,
            InitState::Paused => types::TaskStatus::Paused,
            InitState::Stopped => types::TaskStatus::Stopped,
            InitState::Deleted => types::TaskStatus::Stopped,
        },
        ProcessObj::Exec(p) => if p.state == ExecState::ExecCreated {
            types::TaskStatus::Created
        } else if (p.exited is Some) || p.pid == 0 {
            types::TaskStatus::Stopped
        } else {
            types::TaskStatus::Running
        },
    }
}

/// Whether some entry of the map carries the given key.
pub open spec fn has_key(s: Seq<(String, ProcessObj)>, id: Seq<char>) -> bool {
    exists|i: int| 0 <= i < s.len() && s[i].0@ == id
}

/// Whether some entry of the map is an exec process.
pub open spec fn has_exec_entry(s: Seq<(String, ProcessObj)>) -> bool {
    exists|i: int| 0 <= i < s.len() && ((#[trigger] s[i].1) matches ProcessObj::Exec(_))
}

/// Whether the object may be started (for an exec, with the pid its start
/// would commit).
pub open spec fn obj_startable(o: ProcessObj, exec_pid: i32) -> bool {
    match o {
        ProcessObj::Init(p) => (p.state == InitState::Created || p.state
            == InitState::CreatedCheckpoint) && p.pid != 0,
        ProcessObj::Exec(p) => p.state == ExecState::ExecCreated && exec_pid != 0,
    }
}

/// Whether a start may be planned for the object.
pub open spec fn obj_start_allowed(o: ProcessObj) -> bool {
    match o {
        ProcessObj::Init(p) => p.state == InitState::Created || p.state
            == InitState::CreatedCheckpoint,
        ProcessObj::Exec(p) => p.state == ExecState::ExecCreated,
    }
}

/// Whether a kill may be planned for the object.
pub open spec fn obj_killable(o: ProcessObj) -> bool {
    match o {
        ProcessObj::Init(p) => p.state != InitState::Deleted,
        ProcessObj::Exec(p) => p.state != ExecState::ExecDeleted && p.pid != 0 && (p.exited
            is None),
    }
}

/// Whether the container's init may be deleted.
pub open spec fn init_deletable(o: ProcessObj) -> bool {
    match o {
        ProcessObj::Init(p) => p.state == InitState::Created || p.state
            == InitState::CreatedCheckpoint || p.state == InitState::Stopped,
        ProcessObj::Exec(_) => false,
    }
}

/// What blocks registering an exec process: the id colliding with an
/// existing entry, no container recorded, the init missing or displaced,
/// the init in a state that hosts no exec, or spec bytes that do not
/// decode.
pub open spec fn exec_blocked(s: ShimService, id: Seq<char>, spec_bytes: Seq<u8>) -> bool {
    if has_key(s.processes@, id) {
        true
    } else {
        match s.id {
            None => true,
            Some(c) => {
                if !has_key(s.processes@, c@) {
                    true
                } else {
                    exists|i: int|
                        0 <= i < s.processes@.len() && (#[trigger] s.processes@[i].0@) == c@ && (
                        match s.processes@[i].1 {
                            ProcessObj::Init(p) => !(p.state == InitState::Running || p.state
                                == InitState::Created) || !crate::process::spec_wellformed(
                                spec_bytes,
                            ),
                            ProcessObj::Exec(_) => true,
                        })
                }
            },
        }
    }
}

/// What blocks deleting an exec process: no container recorded, the id
/// naming the init, the id absent, or the entry not in a deletable state.
pub open spec fn delete_process_blocked(s: ShimService, id: Seq<char>) -> bool {
    ||| (s.id is None)
    ||| (s.id matches Some(c) && id == c@)
    ||| !has_key(s.processes@, id)
    ||| exists|i: int|
        0 <= i < s.processes@.len() && (#[trigger] s.processes@[i].0@) == id && (match s.processes@[i].1 {
            ProcessObj::Exec(p) => !(p.state == ExecState::ExecCreated || p.state
                == ExecState::ExecStopped),
            ProcessObj::Init(_) => true,
        })
}

/// What blocks deleting the container: no container recorded, an exec
/// still in the map, the init entry missing, or the init in a state the
/// table does not let delete.
pub open spec fn delete_blocked(s: ShimService) -> bool {
    ||| (s.id is None)
    ||| has_exec_entry(s.processes@)
    ||| (s.id matches Some(c) && !has_key(s.processes@, c@))
    ||| exists|i: int|
        0 <= i < s.processes@.len() && ((#[trigger] s.processes@[i].1) matches ProcessObj::Init(
            p,
        ) && !(p.state == InitState::Created || p.state == InitState::CreatedCheckpoint
            || p.state == InitState::Stopped))
}

/// The task service state: the configuration, the process map, the one
/// container this shim serves, and the one-shot exit signal.
pub struct ShimService {
    pub config: ShimConfig,
    pub processes: Vec<(String, ProcessObj)>,
    pub id: Option<String>,
    pub bundle: Option<String>,
    pub exit_signaled: bool,
}

/// The service invariant: keys are unique and name their objects; every
/// object is well formed; every init process in the map is the init of the
/// one container this shim serves, and every exec belongs to it.
pub open spec fn service_wf(s: ShimService) -> bool {
    &&& forall|i: int, j: int|
        0 <= i < j < s.processes@.len() ==> s.processes@[i].0@ != s.processes@[j].0@
    &&& forall|i: int| 0 <= i < s.processes@.len() ==> obj_wf(#[trigger] s.processes@[i].1)
    &&& forall|i: int|
        0 <= i < s.processes@.len() ==> obj_id(#[trigger] s.processes@[i].1)
            == s.processes@[i].0@
    &&& forall|i: int|
        0 <= i < s.processes@.len() ==> ((#[trigger] s.processes@[i].1) matches ProcessObj::Init(
            _,
        ) ==> (s.id matches Some(c) && s.processes@[i].0@ == c@))
    &&& forall|i: int|
        0 <= i < s.processes@.len() ==> ((#[trigger] s.processes@[i].1) matches ProcessObj::Exec(
            e,
        ) ==> (s.id matches Some(c) && e.container_id@ == c@))
    &&& forall|i: int|
        0 <= i < s.processes@.len() ==> ((#[trigger] s.processes@[i].1) matches ProcessObj::Init(
            p,
        ) ==> p.container_id@ == s.processes@[i].0@)
}

impl ShimService {
    /// A fresh service: no container, nothing signalled.
    pub fn new(config: ShimConfig) -> (r: ShimService)
        ensures
            service_wf(r),
            r.processes@.len() == 0,
            r.id is None,
            r.bundle is None,
            !r.exit_signaled,
    {
        ShimService { config, processes: Vec::new(), id: None, bundle: None, exit_signaled: false }
    }

    /// The index of the entry with the given key, if one exists.
    pub fn find_index(&self, id: &str) -> (r: Option<usize>)
        requires
            service_wf(*self),
        ensures
            match r {
                Some(i) => i < self.processes@.len() && self.processes@[i as int].0@ == id@,
                None => !has_key(self.processes@, id@),
            },
    {
        let n = self.processes.len();
        let mut i: usize = 0;
        while i < n
            invariant
                i <= n,
                n == self.processes@.len(),
                forall|j: int| 0 <= j < i ==> self.processes@[j].0@ != id@,
            decreases n - i,
        {
            if strutil::str_eq(self.processes[i].0.as_str(), id) {
                return Some(i);
            }
            i += 1;
        }
        None
    }

    /// The index of the init process of the given container; a missing
    /// container reports FailedPrecondition, a non-init entry Internal.
    pub fn init_index(&self, sid: &str) -> (r: Result<usize, Status>)
        requires
            service_wf(*self),
        ensures
            match r {
                Ok(i) => i < self.processes@.len() && self.processes@[i as int].0@ == sid@ && (
                self.processes@[i as int].1 matches ProcessObj::Init(_)),
                Err(e) => {
                    &&& (!has_key(self.processes@, sid@) ==> e.code == Code::FailedPrecondition
                        && e.message@ == "container must be created"@)
                    &&& (has_key(self.processes@, sid@) ==> (exists|i: int|
                        0 <= i < self.processes@.len() && (#[trigger] self.processes@[i].0@)
                            == sid@ && (self.processes@[i].1 matches ProcessObj::Exec(_)))
                        && e.code == Code::Internal)
                },
            },
    {
        match self.find_index(sid) {
            Some(i) => match &self.processes[i].1 {
                ProcessObj::Init(_) => Ok(i),
                ProcessObj::Exec(_) => {
                    proof {
                        assert(self.processes@[i as int].1 matches ProcessObj::Exec(_));
                    }
                    Err(
                        ttrpc_error(
                            Code::Internal,
                            String::from_str("cast process to InitProcess failed."),
                        ),
                    )
                },
            },
            None => Err(
                ttrpc_error(
                    Code::FailedPrecondition,
                    String::from_str("container must be created"),
                ),
            ),
        }
    }

    /// A borrowed view of the init process of the given container.
    pub fn get_init_process(&self, sid: &str) -> (r: Result<&InitProcess, Status>)
        requires
            service_wf(*self),
        ensures
            match r {
                Ok(p) => exists|i: int|
                    0 <= i < self.processes@.len() && self.processes@[i].0@ == sid@
                        && self.processes@[i].1 == ProcessObj::Init(*p),
                Err(e) => {
                    &&& (!has_key(self.processes@, sid@) ==> e.code == Code::FailedPrecondition
                        && e.message@ == "container must be created"@)
                    &&& (has_key(self.processes@, sid@) ==> (exists|i: int|
                        0 <= i < self.processes@.len() && (#[trigger] self.processes@[i].0@)
                            == sid@ && (self.processes@[i].1 matches ProcessObj::Exec(_)))
                        && e.code == Code::Internal)
                },
            },
    {
        match self.init_index(sid) {
            Ok(i) => match &self.processes[i].1 {
                ProcessObj::Init(p) => {
                    proof {
                        assert(self.processes@[i as int].1 == ProcessObj::Init(*p));
                    }
                    Ok(p)
                },
                ProcessObj::Exec(_) => {
                    proof {
                        assert(false);
                    }
                    Err(ttrpc_error(Code::Internal, String::from_str("unreachable")))
                },
            },
            Err(e) => Err(e),
        }
    }

    /// The state RPC: the externally visible record of one process.
    pub fn state(&self, req: &types::StateRequest) -> (r: Result<types::StateResponse, Status>)
        requires
            service_wf(*self),
        ensures
            match r {
                Ok(resp) => (self.id is Some) && exists|i: int|
                    {
                        &&& 0 <= i < self.processes@.len()
                        &&& (#[trigger] self.processes@[i].0@) == req.id@
                        &&& resp.id@ == obj_id(self.processes@[i].1)
                        &&& resp.pid == obj_pid_u32(self.processes@[i].1)
                        &&& resp.status == obj_status_name(self.processes@[i].1)
                        &&& match self.processes@[i].1 {
                            ProcessObj::Init(p) => resp.stdin@ == p.stdio.stdin@ && resp.stdout@
                                == p.stdio.stdout@ && resp.stderr@ == p.stdio.stderr@
                                && resp.terminal == p.stdio.terminal && resp.exit_status
                                == p.status as u32,
                            ProcessObj::Exec(p) => resp.stdin@ == p.stdio.stdin@ && resp.stdout@
                                == p.stdio.stdout@ && resp.stderr@ == p.stdio.stderr@
                                && resp.terminal == p.stdio.terminal && resp.exit_status
                                == p.status as u32,
                        }
                        &&& resp.bundle@ == (match self.bundle {
                            Some(b) => b@,
                            None => Seq::<char>::empty(),
                        })
                    },
                Err(e) => (!has_key(self.processes@, req.id@) || (self.id is None)) && e.code
                    == Code::NotFound && e.message@ == "id: "@ + req.id@,
            },
    {
        let i = match self.find_index(req.id.as_str()) {
            Some(i) => i,
            None => {
                let mut m = String::from_str("id: ");
                m.append(req.id.as_str());
                return Err(ttrpc_error(Code::NotFound, m));
            },
        };
        let bundle = match &self.bundle {
            Some(b) => strutil::clone_string(b),
            None => String::new(),
        };
        match &self.id {
            Some(_) => {},
            None => {
                let mut m = String::from_str("id: ");
                m.append(req.id.as_str());
                return Err(ttrpc_error(Code::NotFound, m));
            },
        }
        match &self.processes[i].1 {
            ProcessObj::Init(p) => Ok(
                types::StateResponse {
                    id: strutil::clone_string(&p.id),
                    bundle,
                    pid: p.pid as u32,
                    status: p.state_name(),
                    stdin: strutil::clone_string(&p.stdio.stdin),
                    stdout: strutil::clone_string(&p.stdio.stdout),
                    stderr: strutil::clone_string(&p.stdio.stderr),
                    terminal: p.stdio.terminal,
                    exit_status: p.status as u32,
                    exited_at: match &p.exited {
                        Some(t) => to_proto_timestamp(t),
                        None => crate::time::ProtoTimestamp { seconds: 0, nanos: 0 },
                    },
                },
            ),
            ProcessObj::Exec(p) => Ok(
                types::StateResponse {
                    id: strutil::clone_string(&p.id),
                    bundle,
                    pid: p.pid as u32,
                    status: p.state_name(),
                    stdin: strutil::clone_string(&p.stdio.stdin),
                    stdout: strutil::clone_string(&p.stdio.stdout),
                    stderr: strutil::clone_string(&p.stdio.stderr),
                    terminal: p.stdio.terminal,
                    exit_status: p.status as u32,
                    exited_at: match &p.exited {
                        Some(t) => to_proto_timestamp(t),
                        None => crate::time::ProtoTimestamp { seconds: 0, nanos: 0 },
                    },
                },
            ),
        }
    }

    /// The rootfs directory of a create request and the mounts to perform
    /// there, in request order. An empty rootfs list plans no mounts.
    pub fn create_mounts(&self, req: &types::CreateTaskRequest) -> (r: (String, Vec<
        crate::mount::Mount,
    >))
        ensures
            r.0@ == req.bundle@ + "/rootfs"@,
            r.1@.len() == req.rootfs@.len(),
            forall|i: int|
                0 <= i < req.rootfs@.len() ==> {
                    &&& (#[trigger] r.1@[i]).filed_type@ == req.rootfs@[i].Type@
                    &&& r.1@[i].source@ == req.rootfs@[i].Source@
                    &&& r.1@[i].options@.len() == req.rootfs@[i].Options@.len()
                    &&& forall|j: int|
                        0 <= j < req.rootfs@[i].Options@.len() ==> (#[trigger] r.1@[i].options@[j])@
                            == req.rootfs@[i].Options@[j]@
                },
    {
        let mut rootfs = strutil::clone_string(&req.bundle);
        rootfs.append("/rootfs");
        let mut mounts: Vec<crate::mount::Mount> = Vec::new();
        let mut i: usize = 0;
        while i < req.rootfs.len()
            invariant
                i <= req.rootfs@.len(),
                mounts@.len() == i,
                forall|k: int|
                    0 <= k < i ==> {
                        &&& (#[trigger] mounts@[k]).filed_type@ == req.rootfs@[k].Type@
                        &&& mounts@[k].source@ == req.rootfs@[k].Source@
                        &&& mounts@[k].options@.len() == req.rootfs@[k].Options@.len()
                        &&& forall|j: int|
                            0 <= j < req.rootfs@[k].Options@.len() ==> (
                            #[trigger] mounts@[k].options@[j])@ == req.rootfs@[k].Options@[j]@
                    },
            decreases req.rootfs@.len() - i,
        {
            let m = &req.rootfs[i];
            let mut options: Vec<String> = Vec::new();
            let mut j: usize = 0;
            while j < m.Options.len()
                invariant
                    j <= m.Options@.len(),
                    options@.len() == j,
                    forall|k: int| 0 <= k < j ==> (#[trigger] options@[k])@ == m.Options@[k]@,
                decreases m.Options@.len() - j,
            {
                options.push(strutil::clone_string(&m.Options[j]));
                j += 1;
            }
            mounts.push(
                crate::mount::Mount {
                    filed_type: strutil::clone_string(&m.Type),
                    source: strutil::clone_string(&m.Source),
                    options,
                },
            );
            i += 1;
        }
        (rootfs, mounts)
    }

    /// Builds the init process and its creation plan for a create request.
    pub fn create_process(&self, req: &types::CreateTaskRequest, rootfs: &str, tmpdir: &str) -> (r:
        (InitProcess, CreatePlan))
        ensures
            init_wf(r.0),
            r.0.id@ == req.id@,
            r.0.container_id@ == req.id@,
            r.0.state == InitState::Created,
            r.0.pid == 0,
            r.0.bundle@ == req.bundle@,
            r.0.rootfs@ == rootfs@,
            crate::io_setup::stdio_model(r.0.stdio) == (crate::io_setup::StdioModel {
                stdin: req.stdin@,
                stdout: req.stdout@,
                stderr: req.stderr@,
                terminal: req.terminal,
            }),
            r.1.pid_file@ == req.bundle@ + "/init.pid"@,
            crate::process::io_plan_model(r.1.io) == crate::process::io_plan_of(
                crate::io_setup::stdio_model(r.0.stdio),
                crate::io_setup::console_path_spec(tmpdir@, req.id@),
                req.io_uid,
                req.io_gid,
            ),
            crate::io_setup::stdio_model(r.1.copy_stdio) == crate::io_setup::stdio_model(
                r.0.stdio,
            ),
            (match r.1.open_stdin_path {
                Some(p) => req.stdin@.len() > 0 && p@ == req.stdin@,
                None => req.stdin@.len() == 0,
            }),
    {
        let init = InitProcess::new(
            self.config.path.as_str(),
            self.config.work_dir.as_str(),
            self.config.runtime_root.as_str(),
            self.config.namespace.as_str(),
            self.config.systemd_cgroup,
            req,
            rootfs,
        );
        let plan = init.create_plan(tmpdir);
        (init, plan)
    }

    /// Applies a successful creation: the init process (with its pid and
    /// handles committed) enters the map and the container is recorded.
    /// Creating a second container, or the same id twice, is rejected.
    pub fn create_commit(&mut self, init: InitProcess) -> (r: Result<
        (types::CreateTaskResponse, types::TaskCreate),
        Status,
    >)
        requires
            service_wf(*old(self)),
            init_wf(init),
            init.state == InitState::Created || init.state == InitState::CreatedCheckpoint,
            init.id@ == init.container_id@,
        ensures
            service_wf(*final(self)),
            match r {
                Ok((resp, ev)) => {
                    &&& old(self).processes@.len() == 0
                    &&& final(self).processes@.len() == 1
                    &&& final(self).processes@[0].0@ == init.id@
                    &&& final(self).processes@[0].1 == ProcessObj::Init(init)
                    &&& (final(self).id matches Some(c) && c@ == init.id@)
                    &&& (final(self).bundle matches Some(b) && b@ == init.bundle@)
                    &&& resp.pid == init.pid as u32
                    &&& ev.container_id@ == init.id@
                    &&& ev.pid == init.pid as u32
                    &&& final(self).exit_signaled == old(self).exit_signaled
                },
                Err(e) => {
                    &&& old(self).processes@.len() != 0
                    &&& e.code == Code::FailedPrecondition
                    &&& *final(self) == *old(self)
                },
            },
    {
        if self.processes.len() != 0 {
            return Err(
                ttrpc_error(
                    Code::FailedPrecondition,
                    String::from_str("this shim already serves a container"),
                ),
            );
        }
        let resp = types::CreateTaskResponse { pid: init.pid as u32 };
        let ev = types::TaskCreate {
            container_id: strutil::clone_string(&init.id),
            bundle: strutil::clone_string(&init.bundle),
            stdin: strutil::clone_string(&init.stdio.stdin),
            stdout: strutil::clone_string(&init.stdio.stdout),
            stderr: strutil::clone_string(&init.stdio.stderr),
            terminal: init.stdio.terminal,
            pid: init.pid as u32,
        };
        let key = strutil::clone_string(&init.id);
        self.id = Some(strutil::clone_string(&init.id));
        self.bundle = Some(strutil::clone_string(&init.bundle));
        self.processes.push((key, ProcessObj::Init(init)));
        Ok((resp, ev))
    }

    /// What starting a process needs from outside.
    pub fn start_prepare(&self, req: &types::StartRequest, tmpdir: &str, temp_spec_file: &str) -> (
        r: Result<StartWork, Status>)
        requires
            service_wf(*self),
        ensures
            match r {
                Ok(w) => exists|i: int|
                    {
                        &&& 0 <= i < self.processes@.len()
                        &&& (#[trigger] self.processes@[i].0@) == req.id@
                        &&& match (self.processes@[i].1, w) {
                            (ProcessObj::Init(p), StartWork::Init { argv }) => (p.state
                                == InitState::Created || p.state == InitState::CreatedCheckpoint)
                                && crate::runc::views(argv@) == crate::runc::global_args_spec(
                                p.runtime,
                            ) + seq!["start"@, p.id@],
                            (
                                ProcessObj::Exec(p),
                                StartWork::Exec { plan, spec, terminal },
                            ) => p.state == ExecState::ExecCreated && spec@ == p.spec@ && terminal
                                == p.terminal && plan.pid_file@ == p.path@ + "/"@ + p.id@
                                + ".pid"@,
                            _ => false,
                        }
                    },
                Err(e) => {
                    &&& (!has_key(self.processes@, req.id@) ==> e.code == Code::NotFound
                        && e.message@ == "create runc failed"@)
                    &&& (has_key(self.processes@, req.id@) ==> exists|i: int|
                        {
                            &&& 0 <= i < self.processes@.len()
                            &&& (#[trigger] self.processes@[i].0@) == req.id@
                            &&& !obj_start_allowed(self.processes@[i].1)
                            &&& e.code == Code::FailedPrecondition
                            &&& match self.processes@[i].1 {
                                ProcessObj::Init(p) => e.message@ == crate::state::cannot_label(
                                    "start"@,
                                    crate::state::init_state_label(p.state),
                                ),
                                ProcessObj::Exec(p) => e.message@ == crate::state::cannot_label(
                                    "start"@,
                                    crate::state::exec_state_label(p.state),
                                ),
                            }
                        })
                },
            },
    {
        let i = match self.find_index(req.id.as_str()) {
            Some(i) => i,
            None => {
                return Err(ttrpc_error(Code::NotFound, String::from_str("create runc failed")));
            },
        };
        proof {
            assert(has_key(self.processes@, req.id@));
        }
        match &self.processes[i].1 {
            ProcessObj::Init(p) => {
                let argv = match p.start_plan() {
                    Ok(a) => a,
                    Err(e) => {
                        return Err(e);
                    },
                };
                Ok(StartWork::Init { argv })
            },
            ProcessObj::Exec(p) => {
                let plan = match p.start_plan(tmpdir, temp_spec_file) {
                    Ok(pl) => pl,
                    Err(e) => {
                        return Err(e);
                    },
                };
                let mut spec = Vec::new();
                let mut k: usize = 0;
                while k < p.spec.len()
                    invariant
                        k <= p.spec@.len(),
                        spec@ == p.spec@.subrange(0, k as int),
                    decreases p.spec@.len() - k,
                {
                    spec.push(p.spec[k]);
                    proof {
                        assert(spec@ =~= p.spec@.subrange(0, k + 1 as int));
                    }
                    k += 1;
                }
                proof {
                    assert(p.spec@.subrange(0, p.spec@.len() as int) =~= p.spec@);
                }
                Ok(StartWork::Exec { plan, spec, terminal: p.terminal })
            },
        }
    }

    /// Applies a successful start: the init transitions to Running (and the
    /// caller registers the OOM monitor), or the exec commits its pid and
    /// handles. Returns the response, the event to publish, and whether the
    /// OOM monitor is owed.
    pub fn start_commit(&mut self, req: &types::StartRequest, exec_pid: i32, console: Option<
        i32,
    >, stdin_fd: Option<i32>) -> (r: Result<(types::StartResponse, StartEvent, bool), Status>)
        requires
            service_wf(*old(self)),
        ensures
            service_wf(*final(self)),
            final(self).id == old(self).id,
            final(self).bundle == old(self).bundle,
            final(self).exit_signaled == old(self).exit_signaled,
            match r {
                Ok((resp, ev, register_oom)) => {
                    &&& (register_oom <==> (ev matches StartEvent::Started(_)))
                    &&& exists|i: int|
                        {
                            &&& 0 <= i < old(self).processes@.len()
                            &&& (#[trigger] old(self).processes@[i].0@) == req.id@
                            &&& final(self).processes@ == old(self).processes@.update(
                                i,
                                final(self).processes@[i],
                            )
                            &&& final(self).processes@[i].0@ == req.id@
                            &&& match (old(self).processes@[i].1, final(self).processes@[i].1) {
                                (ProcessObj::Init(p0), ProcessObj::Init(p1)) => (p0.state
                                    == InitState::Created || p0.state
                                    == InitState::CreatedCheckpoint) && p1.state
                                    == InitState::Running && p1.pid == p0.pid && resp.pid
                                    == p0.pid as u32 && (ev matches StartEvent::Started(t)
                                    && t.pid == p0.pid as u32 && t.container_id@
                                    == p0.container_id@),
                                (ProcessObj::Exec(p0), ProcessObj::Exec(p1)) => p0.state
                                    == ExecState::ExecCreated && p1.state
                                    == ExecState::ExecRunning && p1.pid == exec_pid && resp.pid
                                    == exec_pid as u32 && (ev matches StartEvent::ExecStarted(t)
                                    && t.pid == exec_pid as u32 && t.exec_id@ == p0.id@),
                                _ => false,
                            }
                        }
                },
                Err(e) => {
                    &&& final(self).processes@ == old(self).processes@
                    &&& (!has_key(old(self).processes@, req.id@) ==> e.code == Code::NotFound)
                    &&& (has_key(old(self).processes@, req.id@) ==> (exists|i: int|
                        0 <= i < old(self).processes@.len() && (#[trigger] old(
                            self,
                        ).processes@[i].0@) == req.id@ && !obj_startable(
                            old(self).processes@[i].1,
                            exec_pid,
                        )) && e.code == Code::FailedPrecondition)
                },
            },
    {
        let i = match self.find_index(req.id.as_str()) {
            Some(i) => i,
            None => {
                return Err(ttrpc_error(Code::NotFound, String::from_str("create runc failed")));
            },
        };
        let ghost old_entries = self.processes@;
        let mut entry = self.processes.remove(i);
        let outcome: Result<(types::StartResponse, StartEvent, bool), Status> = match &mut entry.1 {
            ProcessObj::Init(p) => {
                if matches!(p.state, InitState::Created) || matches!(
                    p.state,
                    InitState::CreatedCheckpoint,
                ) {
                    if p.pid == 0 {
                        Err(
                            ttrpc_error(
                                Code::FailedPrecondition,
                                String::from_str("container has no pid"),
                            ),
                        )
                    } else {
                        p.start_commit();
                        let resp = types::StartResponse {
                            id: strutil::clone_string(&req.id),
                            pid: p.pid as u32,
                        };
                        let ev = StartEvent::Started(
                            types::TaskStart {
                                container_id: strutil::clone_string(&p.container_id),
                                pid: p.pid as u32,
                            },
                        );
                        Ok((resp, ev, true))
                    }
                } else {
                    Err(
                        ttrpc_error(
                            Code::FailedPrecondition,
                            crate::state::cannot_text("start", crate::state::init_state_text(p.state)),
                        ),
                    )
                }
            },
            ProcessObj::Exec(p) => {
                if matches!(p.state, ExecState::ExecCreated) && exec_pid != 0 {
                    p.start_commit(exec_pid, console, stdin_fd);
                    let resp = types::StartResponse {
                        id: strutil::clone_string(&req.id),
                        pid: p.pid as u32,
                    };
                    let ev = StartEvent::ExecStarted(
                        types::TaskExecStarted {
                            container_id: strutil::clone_string(&p.container_id),
                            exec_id: strutil::clone_string(&p.id),
                            pid: p.pid as u32,
                        },
                    );
                    Ok((resp, ev, false))
                } else {
                    Err(
                        ttrpc_error(
                            Code::FailedPrecondition,
                            crate::state::cannot_text(
                                "start",
                                crate::state::exec_state_text(p.state),
                            ),
                        ),
                    )
                }
            },
        };
        let ghost new_entry = entry;
        self.processes.insert(i, entry);
        proof {
            lemma_remove_insert(old_entries, i as int, new_entry);
            assert(self.processes@ == old_entries.update(i as int, new_entry));
            assert((outcome matches Err(_)) ==> self.processes@ =~= old_entries);
        }
        outcome
    }
}

/// What the outside runner must do to start a process.
#[derive(Debug)]
pub enum StartWork {
    /// Run the runtime start invocation.
    Init { argv: Vec<String> },
    /// Write the spec (with the terminal flag applied) to the temporary
    /// file, create the I/O, run the detached exec, read the pid file.
    Exec { plan: ExecStartPlan, spec: Vec<u8>, terminal: bool },
}

/// The event a successful start publishes.
#[derive(Debug)]
pub enum StartEvent {
    Started(types::TaskStart),
    ExecStarted(types::TaskExecStarted),
}

/// Taking an entry out and putting one back at the same index is an
/// update in place.
pub proof fn lemma_remove_insert(
    s: Seq<(String, ProcessObj)>,
    i: int,
    x: (String, ProcessObj),
)
    requires
        0 <= i < s.len(),
    ensures
        s.remove(i).insert(i, x) == s.update(i, x),
{
    assert(s.remove(i).insert(i, x) =~= s.update(i, x));
}


/// What a kill must do: run the runtime kill invocation (for the init), or
/// send the signal straight to a pid (for an exec).
#[derive(Debug)]
pub enum KillAction {
    Runtime(Vec<String>),
    Signal(i32, u32),
}

impl ShimService {
    /// Plans deleting the container's init process. Rejected while any exec
    /// process of the container is still in the map, so that a deleted
    /// container leaves nothing referenced behind.
    pub fn delete_prepare(&self) -> (r: Result<(Vec<String>, Option<String>), Status>)
        requires
            service_wf(*self),
        ensures
            (r is Err) <==> delete_blocked(*self),
            match r {
                Ok((argv, umount)) => {
                    &&& (self.id is Some)
                    &&& (forall|k: int|
                        0 <= k < self.processes@.len() ==> (#[trigger] self.processes@[k].1)
                            matches ProcessObj::Init(_))
                    &&& exists|i: int|
                        {
                            &&& 0 <= i < self.processes@.len()
                            &&& (#[trigger] self.processes@[i].1) matches ProcessObj::Init(p)
                            &&& (p.state == InitState::Created || p.state
                                == InitState::CreatedCheckpoint || p.state == InitState::Stopped)
                            &&& crate::runc::views(argv@) == crate::runc::global_args_spec(
                                p.runtime,
                            ) + seq!["delete"@, p.id@]
                            &&& (match umount {
                                Some(u) => p.rootfs@.len() > 0 && u@ == p.rootfs@,
                                None => p.rootfs@.len() == 0,
                            })
                        }
                },
                Err(e) => {
                    &&& ((self.id is None) ==> e.code == Code::NotFound)
                    &&& ((self.id is Some) && has_exec_entry(self.processes@) ==> e.code
                        == Code::FailedPrecondition)
                    &&& (self.id matches Some(c) && !has_exec_entry(self.processes@)
                        && !has_key(self.processes@, c@) ==> e.code == Code::NotFound)
                    &&& (self.id matches Some(c) && !has_exec_entry(self.processes@)
                        && has_key(self.processes@, c@) ==> exists|i: int|
                        {
                            &&& 0 <= i < self.processes@.len()
                            &&& (#[trigger] self.processes@[i].1) matches ProcessObj::Init(p)
                            &&& !(p.state == InitState::Created || p.state
                                == InitState::CreatedCheckpoint || p.state == InitState::Stopped)
                            &&& (p.state == InitState::Deleted ==> e.code == Code::NotFound)
                            &&& (p.state != InitState::Deleted ==> e.code
                                == Code::FailedPrecondition)
                            &&& e.message@ == crate::state::cannot_label(
                                "delete"@,
                                crate::state::init_state_label(p.state),
                            )
                        })
                },
            },
    {
        let sid = match &self.id {
            Some(c) => strutil::clone_string(c),
            None => {
                return Err(
                    ttrpc_error(Code::NotFound, String::from_str("container must be created")),
                );
            },
        };
        let n = self.processes.len();
        let mut k: usize = 0;
        while k < n
            invariant
                k <= n,
                n == self.processes@.len(),
                (self.id is Some),
                forall|j: int|
                    0 <= j < k ==> (#[trigger] self.processes@[j].1) matches ProcessObj::Init(_),
            decreases n - k,
        {
            match &self.processes[k].1 {
                ProcessObj::Init(_) => {},
                ProcessObj::Exec(_) => {
                    proof {
                        assert(self.processes@[k as int].1 matches ProcessObj::Exec(_));
                        assert(has_exec_entry(self.processes@));
                    }
                    return Err(
                        ttrpc_error(
                            Code::FailedPrecondition,
                            String::from_str("container still has exec processes"),
                        ),
                    );
                },
            }
            k += 1;
        }
        let i = match self.find_index(sid.as_str()) {
            Some(i) => i,
            None => {
                return Err(
                    ttrpc_error(Code::NotFound, String::from_str("container must be created")),
                );
            },
        };
        match &self.processes[i].1 {
            ProcessObj::Init(p) => {
                let out = p.delete_plan();
                proof {
                    if out is Ok {
                        assert forall|k: int| 0 <= k < self.processes@.len() implies (
                        match #[trigger] self.processes@[k].1 {
                            ProcessObj::Init(q) => q.state == InitState::Created || q.state
                                == InitState::CreatedCheckpoint || q.state == InitState::Stopped,
                            ProcessObj::Exec(_) => false,
                        }) by {
                            if k != i as int {
                                assert(self.processes@[k].0@ == self.processes@[i as int].0@);
                            }
                        }
                        assert(!delete_blocked(*self));
                    }
                }
                out
            },
            ProcessObj::Exec(_) => {
                proof {
                    assert(false);
                }
                Err(ttrpc_error(Code::Internal, String::from_str("unreachable")))
            },
        }
    }

    /// Applies a successful init deletion: the process steps to Deleted and
    /// leaves the map; nothing of the container remains referenced.
    pub fn delete_commit(&mut self) -> (r: Result<(types::DeleteResponse, types::TaskDelete), Status>)
        requires
            service_wf(*old(self)),
        ensures
            service_wf(*final(self)),
            final(self).id == old(self).id,
            final(self).bundle == old(self).bundle,
            final(self).exit_signaled == old(self).exit_signaled,
            (r is Err) <==> delete_blocked(*old(self)),
            match r {
                Ok((resp, ev)) => {
                    &&& old(self).processes@.len() == 1
                    &&& final(self).processes@.len() == 0
                    &&& ev.container_id@ == resp_container(old(self))
                    &&& ev.pid == resp.pid
                    &&& ev.exit_status == resp.exit_status
                    &&& ev.exited_at == resp.exited_at
                    &&& (old(self).processes@[0].1 matches ProcessObj::Init(p) && resp.pid
                        == p.pid as u32 && resp.exit_status == p.status as u32
                        && resp.exited_at == (match p.exited {
                        Some(t) => crate::time::ProtoTimestamp {
                            seconds: t.seconds,
                            nanos: (t.nanos as int % 1_000_000_000) as i32,
                        },
                        None => crate::time::ProtoTimestamp { seconds: 0, nanos: 0 },
                    }))
                },
                Err(e) => {
                    &&& final(self).processes@ == old(self).processes@
                    &&& ((old(self).id is None) ==> e.code == Code::NotFound)
                    &&& ((old(self).id is Some) && has_exec_entry(old(self).processes@)
                        ==> e.code == Code::FailedPrecondition)
                    &&& (old(self).id matches Some(c) && !has_exec_entry(old(self).processes@)
                        && !has_key(old(self).processes@, c@) ==> e.code == Code::NotFound)
                    &&& (old(self).id matches Some(c) && !has_exec_entry(old(self).processes@)
                        && has_key(old(self).processes@, c@) ==> exists|i: int|
                        {
                            &&& 0 <= i < old(self).processes@.len()
                            &&& (#[trigger] old(self).processes@[i].1) matches ProcessObj::Init(
                                p,
                            )
                            &&& !(p.state == InitState::Created || p.state
                                == InitState::CreatedCheckpoint || p.state == InitState::Stopped)
                            &&& (p.state == InitState::Deleted ==> e.code == Code::NotFound)
                            &&& (p.state != InitState::Deleted ==> e.code
                                == Code::FailedPrecondition)
                            &&& e.message@ == crate::state::cannot_label(
                                "delete"@,
                                crate::state::init_state_label(p.state),
                            )
                        })
                },
            },
    {
        let sid = match &self.id {
            Some(c) => strutil::clone_string(c),
            None => {
                return Err(
                    ttrpc_error(Code::NotFound, String::from_str("container must be created")),
                );
            },
        };
        let n = self.processes.len();
        let mut k: usize = 0;
        while k < n
            invariant
                k <= n,
                n == self.processes@.len(),
                service_wf(*self),
                *self == *old(self),
                (self.id is Some),
                forall|j: int|
                    0 <= j < k ==> (#[trigger] self.processes@[j].1) matches ProcessObj::Init(_),
            decreases n - k,
        {
            match &self.processes[k].1 {
                ProcessObj::Init(_) => {},
                ProcessObj::Exec(_) => {
                    proof {
                        assert(self.processes@[k as int].1 matches ProcessObj::Exec(_));
                        assert(has_exec_entry(old(self).processes@));
                    }
                    return Err(
                        ttrpc_error(
                            Code::FailedPrecondition,
                            String::from_str("container still has exec processes"),
                        ),
                    );
                },
            }
            k += 1;
        }
        let i = match self.find_index(sid.as_str()) {
            Some(i) => i,
            None => {
                return Err(
                    ttrpc_error(Code::NotFound, String::from_str("container must be created")),
                );
            },
        };
        let ghost old_entries = self.processes@;
        let mut entry = self.processes.remove(i);
        let outcome: Result<(types::DeleteResponse, types::TaskDelete), Status> = match &mut entry
            .1 {
            ProcessObj::Init(p) => {
                if matches!(p.state, InitState::Created) || matches!(
                    p.state,
                    InitState::CreatedCheckpoint,
                ) || matches!(p.state, InitState::Stopped) {
                    p.delete_commit();
                    let ts = match &p.exited {
                        Some(t) => to_proto_timestamp(t),
                        None => crate::time::ProtoTimestamp { seconds: 0, nanos: 0 },
                    };
                    let resp = types::DeleteResponse {
                        pid: p.pid as u32,
                        exit_status: p.status as u32,
                        exited_at: ts,
                    };
                    let ev = types::TaskDelete {
                        container_id: strutil::clone_string(&p.container_id),
                        pid: p.pid as u32,
                        exit_status: p.status as u32,
                        exited_at: ts,
                    };
                    Ok((resp, ev))
                } else if matches!(p.state, InitState::Deleted) {
                    Err(
                        ttrpc_error(
                            Code::NotFound,
                            crate::state::cannot_text(
                                "delete",
                                crate::state::init_state_text(p.state),
                            ),
                        ),
                    )
                } else {
                    Err(
                        ttrpc_error(
                            Code::FailedPrecondition,
                            crate::state::cannot_text(
                                "delete",
                                crate::state::init_state_text(p.state),
                            ),
                        ),
                    )
                }
            },
            ProcessObj::Exec(_) => {
                proof {
                    assert(false);
                }
                Err(ttrpc_error(Code::Internal, String::from_str("unreachable")))
            },
        };
        match outcome {
            Ok(out) => {
                proof {
                    // Every entry was an init of the one container, so all
                    // keys were the container's and, keys being unique, the
                    // map held exactly the init.
                    assert(old_entries.len() <= 1) by {
                        if old_entries.len() >= 2 {
                            assert(old_entries[0].1 matches ProcessObj::Init(_));
                            assert(old_entries[1].1 matches ProcessObj::Init(_));
                            assert(old_entries[0].0@ == old_entries[1].0@);
                        }
                    }
                    assert(self.processes@.len() == 0);
                    assert(!delete_blocked(*old(self))) by {
                        assert forall|q: int| 0 <= q < old(self).processes@.len() implies (
                        match #[trigger] old(self).processes@[q].1 {
                            ProcessObj::Init(w) => w.state == InitState::Created || w.state
                                == InitState::CreatedCheckpoint || w.state == InitState::Stopped,
                            ProcessObj::Exec(_) => false,
                        }) by {
                            assert(q == i as int);
                        }
                    }
                }
                Ok(out)
            },
            Err(e) => {
                self.processes.insert(i, entry);
                proof {
                    lemma_remove_insert(old_entries, i as int, entry);
                    assert(self.processes@ =~= old_entries);
                }
                Err(e)
            },
        }
    }

    /// Deletes an exec process: the init cannot be deleted this way; on
    /// success the entry leaves the map and its pid file is to be removed
    /// (a failed removal is not an error).
    pub fn delete_process(&mut self, req: &types::DeleteProcessRequest) -> (r: Result<
        (types::DeleteResponse, types::TaskDelete, String),
        Status,
    >)
        requires
            service_wf(*old(self)),
        ensures
            service_wf(*final(self)),
            final(self).id == old(self).id,
            final(self).bundle == old(self).bundle,
            final(self).exit_signaled == old(self).exit_signaled,
            (r is Err) <==> delete_process_blocked(*old(self), req.id@),
            match r {
                Ok((resp, ev, pid_file)) => {
                    &&& final(self).processes@.len() == old(self).processes@.len() - 1
                    &&& !has_key(final(self).processes@, req.id@)
                    &&& exists|i: int|
                        {
                            &&& 0 <= i < old(self).processes@.len()
                            &&& (#[trigger] old(self).processes@[i].0@) == req.id@
                            &&& match old(self).processes@[i].1 {
                                ProcessObj::Exec(p) => {
                                    &&& (p.state == ExecState::ExecCreated || p.state
                                        == ExecState::ExecStopped)
                                    &&& resp.pid == p.pid as u32
                                    &&& resp.exit_status == p.status as u32
                                    &&& resp.exited_at == (match p.exited {
                                        Some(t) => crate::time::ProtoTimestamp {
                                            seconds: t.seconds,
                                            nanos: (t.nanos as int % 1_000_000_000) as i32,
                                        },
                                        None => crate::time::ProtoTimestamp {
                                            seconds: 0,
                                            nanos: 0,
                                        },
                                    })
                                    &&& ev.container_id@ == p.container_id@
                                    &&& ev.pid == resp.pid
                                    &&& ev.exit_status == resp.exit_status
                                    &&& ev.exited_at == resp.exited_at
                                    &&& pid_file@ == p.path@ + "/"@ + p.id@ + ".pid"@
                                },
                                ProcessObj::Init(_) => false,
                            }
                        }
                },
                Err(e) => {
                    &&& final(self).processes@ == old(self).processes@
                    &&& ((old(self).id is None) ==> e.code == Code::NotFound && e.message@
                        == "id: "@ + req.id@)
                    &&& (old(self).id matches Some(c) && req.id@ == c@ ==> e.code
                        == Code::InvalidArgument)
                    &&& (old(self).id matches Some(c) && req.id@ != c@ && !has_key(
                        old(self).processes@,
                        req.id@,
                    ) ==> e.code == Code::NotFound)
                    &&& (old(self).id matches Some(c) && req.id@ != c@ && has_key(
                        old(self).processes@,
                        req.id@,
                    ) ==> exists|i: int|
                        {
                            &&& 0 <= i < old(self).processes@.len()
                            &&& (#[trigger] old(self).processes@[i].0@) == req.id@
                            &&& match old(self).processes@[i].1 {
                                ProcessObj::Exec(p) => {
                                    &&& !(p.state == ExecState::ExecCreated || p.state
                                        == ExecState::ExecStopped)
                                    &&& (p.state == ExecState::ExecDeleted ==> e.code
                                        == Code::NotFound)
                                    &&& (p.state != ExecState::ExecDeleted ==> e.code
                                        == Code::FailedPrecondition)
                                    &&& e.message@ == crate::state::cannot_label(
                                        "delete"@,
                                        crate::state::exec_state_label(p.state),
                                    )
                                },
                                ProcessObj::Init(_) => false,
                            }
                        })
                },
            },
    {
        let sid = match &self.id {
            Some(c) => strutil::clone_string(c),
            None => {
                let mut m = String::from_str("id: ");
                m.append(req.id.as_str());
                return Err(ttrpc_error(Code::NotFound, m));
            },
        };
        if strutil::str_eq(req.id.as_str(), sid.as_str()) {
            return Err(
                ttrpc_error(
                    Code::InvalidArgument,
                    String::from_str("cannot delete init process with DeleteProcess"),
                ),
            );
        }
        let i = match self.find_index(req.id.as_str()) {
            Some(i) => i,
            None => {
                return Err(ttrpc_error(Code::NotFound, String::from_str("create runc failed")));
            },
        };
        let ghost old_entries = self.processes@;
        let mut entry = self.processes.remove(i);
        let outcome: Result<(types::DeleteResponse, types::TaskDelete, String), Status> =
            match &mut entry.1 {
            ProcessObj::Exec(p) => {
                let pid = p.pid;
                match p.delete() {
                    Ok(pid_file) => {
                        let ts = match &p.exited {
                            Some(t) => to_proto_timestamp(t),
                            None => crate::time::ProtoTimestamp { seconds: 0, nanos: 0 },
                        };
                        let resp = types::DeleteResponse {
                            pid: pid as u32,
                            exit_status: p.status as u32,
                            exited_at: ts,
                        };
                        let ev = types::TaskDelete {
                            container_id: strutil::clone_string(&p.container_id),
                            pid: pid as u32,
                            exit_status: p.status as u32,
                            exited_at: ts,
                        };
                        Ok((resp, ev, pid_file))
                    },
                    Err(e) => Err(e),
                }
            },
            ProcessObj::Init(_) => {
                proof {
                    assert(old_entries[i as int].0@ == req.id@);
                    assert(false);
                }
                Err(ttrpc_error(Code::Internal, String::from_str("unreachable")))
            },
        };
        match outcome {
            Ok(out) => {
                proof {
                    assert forall|a: int, b: int|
                        0 <= a < b < self.processes@.len() implies self.processes@[a].0@
                        != self.processes@[b].0@ by {
                        if a < i {
                            assert(self.processes@[a] == old_entries[a]);
                        } else {
                            assert(self.processes@[a] == old_entries[a + 1]);
                        }
                        if b < i {
                            assert(self.processes@[b] == old_entries[b]);
                        } else {
                            assert(self.processes@[b] == old_entries[b + 1]);
                        }
                    }
                    assert forall|k: int| 0 <= k < self.processes@.len() implies (
                    #[trigger] self.processes@[k]).0@ != req.id@ by {
                        if k < i {
                            assert(self.processes@[k] == old_entries[k]);
                        } else {
                            assert(self.processes@[k] == old_entries[k + 1]);
                        }
                    }
                }
                Ok(out)
            },
            Err(e) => {
                self.processes.insert(i, entry);
                proof {
                    lemma_remove_insert(old_entries, i as int, entry);
                    assert(self.processes@ =~= old_entries);
                }
                Err(e)
            },
        }
    }

    /// Plans a kill: the target is the request's id, or the container when
    /// the request leaves it empty.
    pub fn kill_plan(&self, req: &types::KillRequest) -> (r: Result<KillAction, Status>)
        requires
            service_wf(*self),
            req.signal <= i32::MAX,
        ensures
            ({
                let target = if req.id@.len() == 0 {
                    match self.id {
                        Some(c) => c@,
                        None => req.id@,
                    }
                } else {
                    req.id@
                };
                match r {
                    Ok(a) => exists|i: int|
                        {
                            &&& 0 <= i < self.processes@.len()
                            &&& (#[trigger] self.processes@[i].0@) == target
                            &&& match (self.processes@[i].1, a) {
                                (ProcessObj::Init(p), KillAction::Runtime(argv)) => p.state
                                    != InitState::Deleted && crate::runc::views(argv@)
                                    == crate::runc::global_args_spec(p.runtime) + seq!["kill"@]
                                    + (if req.all {
                                    seq!["--all"@]
                                } else {
                                    Seq::empty()
                                }) + seq![p.id@, crate::strutil::dec_of(req.signal as int)],
                                (ProcessObj::Exec(p), KillAction::Signal(pid, s)) => p.state
                                    != ExecState::ExecDeleted && p.pid != 0 && (p.exited is None)
                                    && pid == p.pid && s == req.signal,
                                _ => false,
                            }
                        },
                    Err(e) => {
                        &&& (!has_key(self.processes@, target) ==> e.code == Code::NotFound
                            && e.message@ == "container not found."@)
                        &&& (has_key(self.processes@, target) ==> exists|i: int|
                            {
                                &&& 0 <= i < self.processes@.len()
                                &&& (#[trigger] self.processes@[i].0@) == target
                                &&& !obj_killable(self.processes@[i].1)
                                &&& match self.processes@[i].1 {
                                    ProcessObj::Init(p) => p.state == InitState::Deleted
                                        && e.code == Code::NotFound && e.message@
                                        == crate::state::cannot_label(
                                        "kill"@,
                                        crate::state::init_state_label(p.state),
                                    ),
                                    ProcessObj::Exec(p) => {
                                        &&& (p.state == ExecState::ExecDeleted ==> e.code
                                            == Code::NotFound && e.message@
                                            == crate::state::cannot_label(
                                            "kill"@,
                                            crate::state::exec_state_label(p.state),
                                        ))
                                        &&& (p.state != ExecState::ExecDeleted && p.pid == 0
                                            ==> e.code == Code::FailedPrecondition && e.message@
                                            == "process not created"@)
                                        &&& (p.state != ExecState::ExecDeleted && p.pid != 0
                                            && (p.exited is Some) ==> e.code == Code::NotFound
                                            && e.message@ == "process already finished"@)
                                    },
                                }
                            })
                    },
                }
            }),
    {
        let sid = if req.id.as_str().unicode_len() == 0 {
            match &self.id {
                Some(c) => strutil::clone_string(c),
                None => strutil::clone_string(&req.id),
            }
        } else {
            strutil::clone_string(&req.id)
        };
        let i = match self.find_index(sid.as_str()) {
            Some(i) => i,
            None => {
                return Err(ttrpc_error(Code::NotFound, String::from_str("container not found.")));
            },
        };
        match &self.processes[i].1 {
            ProcessObj::Init(p) => match p.kill_plan(req.signal, req.all) {
                Ok(argv) => Ok(KillAction::Runtime(argv)),
                Err(e) => Err(e),
            },
            ProcessObj::Exec(p) => match p.kill_plan(req.signal) {
                Ok((pid, sig)) => Ok(KillAction::Signal(pid, sig)),
                Err(e) => Err(e),
            },
        }
    }

    /// What a waiter observes for the given process: nothing while it
    /// lives (the caller blocks on the exit latch and asks again), or the
    /// recorded exit pair once the latch is released.
    pub fn wait_poll(&self, req: &types::WaitRequest) -> (r: Result<
        Option<types::WaitResponse>,
        Status,
    >)
        requires
            service_wf(*self),
        ensures
            match r {
                Ok(out) => exists|i: int|
                    {
                        &&& 0 <= i < self.processes@.len()
                        &&& (#[trigger] self.processes@[i].0@) == req.id@
                        &&& match out {
                            Some(resp) => match self.processes@[i].1 {
                                ProcessObj::Init(p) => p.latch_released && resp.exit_status
                                    == p.status as u32 && (p.exited matches Some(t)
                                    && resp.exited_at.seconds == t.seconds),
                                ProcessObj::Exec(p) => p.latch_released && resp.exit_status
                                    == p.status as u32 && (p.exited matches Some(t)
                                    && resp.exited_at.seconds == t.seconds),
                            },
                            None => match self.processes@[i].1 {
                                ProcessObj::Init(p) => !p.latch_released,
                                ProcessObj::Exec(p) => !p.latch_released,
                            },
                        }
                    },
                Err(e) => !has_key(self.processes@, req.id@) && e.code == Code::NotFound,
            },
    {
        let i = match self.find_index(req.id.as_str()) {
            Some(i) => i,
            None => {
                return Err(ttrpc_error(Code::NotFound, String::from_str("wait failed")));
            },
        };
        match &self.processes[i].1 {
            ProcessObj::Init(p) => match p.wait_poll() {
                Some((status, at)) => Ok(
                    Some(
                        types::WaitResponse {
                            exit_status: status as u32,
                            exited_at: to_proto_timestamp(&at),
                        },
                    ),
                ),
                None => Ok(None),
            },
            ProcessObj::Exec(p) => match p.wait_poll() {
                Some((status, at)) => Ok(
                    Some(
                        types::WaitResponse {
                            exit_status: status as u32,
                            exited_at: to_proto_timestamp(&at),
                        },
                    ),
                ),
                None => Ok(None),
            },
        }
    }

    /// Adds an exec process: the id must be fresh, the container created,
    /// and the spec bytes must decode as a process spec.
    pub fn exec(&mut self, req: types::ExecProcessRequest) -> (r: Result<
        types::TaskExecAdded,
        Status,
    >)
        requires
            service_wf(*old(self)),
        ensures
            service_wf(*final(self)),
            final(self).id == old(self).id,
            final(self).bundle == old(self).bundle,
            final(self).exit_signaled == old(self).exit_signaled,
            (r is Err) <==> exec_blocked(*old(self), req.id@, req.spec@),
            match r {
                Ok(ev) => {
                    &&& !has_key(old(self).processes@, req.id@)
                    &&& final(self).processes@.len() == old(self).processes@.len() + 1
                    &&& has_key(final(self).processes@, req.id@)
                    &&& ev.exec_id@ == req.id@
                    &&& final(self).processes@ == old(self).processes@.push(
                        final(self).processes@.last(),
                    )
                    &&& (final(self).processes@.last().1 matches ProcessObj::Exec(e2) && {
                        &&& e2.state == ExecState::ExecCreated
                        &&& e2.id@ == req.id@
                        &&& e2.pid == 0
                        &&& (e2.exited is None)
                        &&& e2.spec@ == req.spec@
                        &&& e2.terminal == req.terminal
                        &&& crate::io_setup::stdio_model(e2.stdio)
                            == (crate::io_setup::StdioModel {
                            stdin: req.stdin@,
                            stdout: req.stdout@,
                            stderr: req.stderr@,
                            terminal: req.terminal,
                        })
                        &&& crate::process::spec_wellformed(req.spec@)
                    })
                },
                Err(e) => {
                    &&& final(self).processes@ == old(self).processes@
                    &&& (has_key(old(self).processes@, req.id@) ==> e.code == Code::AlreadyExists
                        && e.message@ == "id: "@ + req.id@)
                    &&& (!has_key(old(self).processes@, req.id@) && (old(self).id is None)
                        ==> e.code == Code::FailedPrecondition && e.message@
                        == "container must be created"@)
                },
            },
    {
        match self.find_index(req.id.as_str()) {
            Some(_) => {
                let mut m = String::from_str("id: ");
                m.append(req.id.as_str());
                return Err(ttrpc_error(Code::AlreadyExists, m));
            },
            None => {},
        }
        let sid = match &self.id {
            Some(c) => strutil::clone_string(c),
            None => {
                return Err(
                    ttrpc_error(
                        Code::FailedPrecondition,
                        String::from_str("container must be created"),
                    ),
                );
            },
        };
        let ghost spec_ghost = req.spec@;
        let exec = {
            let init = match self.get_init_process(sid.as_str()) {
                Ok(p) => p,
                Err(e) => {
                    proof {
                        assert(exec_blocked(*self, req.id@, spec_ghost));
                    }
                    return Err(e);
                },
            };
            proof {
                assert(init.container_id@ == sid@);
            }
            let config = types::ExecConfig {
                id: strutil::clone_string(&req.id),
                terminal: req.terminal,
                stdin: req.stdin,
                stdout: req.stdout,
                stderr: req.stderr,
                spec: req.spec,
            };
            match init.exec(self.config.path.as_str(), config) {
                Ok(e) => e,
                Err(e) => {
                    proof {
                        let w = choose|w: int|
                            0 <= w < self.processes@.len() && self.processes@[w].0@ == sid@
                                && self.processes@[w].1 == ProcessObj::Init(*init);
                        assert(self.processes@[w].0@ == sid@);
                        assert(exec_blocked(*self, req.id@, spec_ghost));
                    }
                    return Err(e);
                },
            }
        };
        proof {
            assert(exec.container_id@ == sid@);
            assert(self.id matches Some(c) && sid@ == c@);
        }
        let ev = types::TaskExecAdded {
            container_id: strutil::clone_string(&exec.container_id),
            exec_id: strutil::clone_string(&exec.id),
        };
        proof {
            // nothing blocks the registration: the one entry under the
            // container id is the init that accepted the exec
            assert forall|q: int|
                0 <= q < self.processes@.len() && (#[trigger] self.processes@[q].0@)
                    == resp_container(self) implies (match self.processes@[q].1 {
                ProcessObj::Init(p) => (p.state == InitState::Running || p.state
                    == InitState::Created) && crate::process::spec_wellformed(req.spec@),
                ProcessObj::Exec(_) => false,
            }) by {
                let w = choose|w: int|
                    0 <= w < self.processes@.len() && self.processes@[w].0@ == sid@
                        && self.processes@[w].1 matches ProcessObj::Init(_);
                assert(q == w);
            }
            assert(!exec_blocked(*self, req.id@, req.spec@));
        }
        let key = strutil::clone_string(&exec.id);
        let ghost old_entries = self.processes@;
        self.processes.push((key, ProcessObj::Exec(exec)));
        proof {
            let m = self.processes@.len() - 1;
            assert(self.processes@[m] == (key, ProcessObj::Exec(exec)));
            assert forall|a: int, b: int|
                0 <= a < b < self.processes@.len() implies self.processes@[a].0@
                != self.processes@[b].0@ by {
                if b < m {
                    assert(self.processes@[a] == old_entries[a]);
                    assert(self.processes@[b] == old_entries[b]);
                } else {
                    assert(self.processes@[b].0@ == req.id@);
                    if a < m {
                        assert(self.processes@[a] == old_entries[a]);
                        assert(!(old_entries[a].0@ == req.id@));
                    }
                }
            }
            assert forall|k: int| 0 <= k < self.processes@.len() implies obj_wf(
                #[trigger] self.processes@[k].1,
            ) && obj_id(self.processes@[k].1) == self.processes@[k].0@ by {
                if k < m {
                    assert(self.processes@[k] == old_entries[k]);
                }
            }
            assert forall|k: int|
                0 <= k < self.processes@.len() implies ((#[trigger] self.processes@[k].1) matches
                ProcessObj::Init(p) ==> (self.id matches Some(c) && self.processes@[k].0@ == c@
                    && p.container_id@ == self.processes@[k].0@)) && ((self.processes@[k].1)
                matches ProcessObj::Exec(e) ==> (self.id matches Some(c) && e.container_id@
                    == c@)) by {
                if k < m {
                    assert(self.processes@[k] == old_entries[k]);
                }
            }
        }
        Ok(ev)
    }

    /// The resize a resize-pty request asks for: the window size and the
    /// PTY master to apply it to, when the process has one.
    #[verifier::truncate]
    pub fn resize_pty(&self, req: &types::ResizePtyRequest) -> (r: Result<
        Option<(i32, WinSize)>,
        Status,
    >)
        requires
            service_wf(*self),
        ensures
            match r {
                Ok(out) => req.id@.len() > 0 && exists|i: int|
                    {
                        &&& 0 <= i < self.processes@.len()
                        &&& (#[trigger] self.processes@[i].0@) == req.id@
                        &&& match out {
                            Some((fd, w)) => (match self.processes@[i].1 {
                                ProcessObj::Init(p) => p.console == Some(fd),
                                ProcessObj::Exec(p) => p.console == Some(fd),
                            }) && w.height == req.height as u16 && w.width == req.width as u16,
                            None => match self.processes@[i].1 {
                                ProcessObj::Init(p) => p.console is None,
                                ProcessObj::Exec(p) => p.console is None,
                            },
                        }
                    },
                Err(e) => {
                    &&& (req.id@.len() == 0 || !has_key(self.processes@, req.id@))
                    &&& (req.id@.len() == 0 ==> e.code == Code::InvalidArgument && e.message@
                        == "id not provided."@)
                    &&& (req.id@.len() > 0 ==> !has_key(self.processes@, req.id@) && e.code
                        == Code::Internal && e.message@ == "resize pty failed."@)
                },
            },
    {
        if req.id.as_str().unicode_len() == 0 {
            return Err(ttrpc_error(Code::InvalidArgument, String::from_str("id not provided.")));
        }
        let i = match self.find_index(req.id.as_str()) {
            Some(i) => i,
            None => {
                return Err(ttrpc_error(Code::Internal, String::from_str("resize pty failed.")));
            },
        };
        let ws = WinSize::new(req.height as u16, req.width as u16);
        match &self.processes[i].1 {
            ProcessObj::Init(p) => Ok(p.resize(&ws)),
            ProcessObj::Exec(p) => Ok(p.resize(&ws)),
        }
    }

    /// Drops the retained stdin handle of a process, handing the
    /// descriptor out to be closed. A missing process, or a process whose
    /// stdin was already dropped, makes this a no-op: closing is
    /// idempotent.
    pub fn close_io(&mut self, req: &types::CloseIORequest) -> (r: Option<i32>)
        requires
            service_wf(*old(self)),
        ensures
            service_wf(*final(self)),
            final(self).id == old(self).id,
            final(self).bundle == old(self).bundle,
            final(self).exit_signaled == old(self).exit_signaled,
            final(self).processes@.len() == old(self).processes@.len(),
            forall|i: int|
                0 <= i < final(self).processes@.len() ==> (#[trigger] final(
                    self
                ).processes@[i].0@) == old(self).processes@[i].0@,
            forall|i: int|
                0 <= i < final(self).processes@.len() ==> (old(self).processes@[i].0@ != req.id@
                    ==> final(self).processes@[i] == old(self).processes@[i]),
            forall|i: int|
                0 <= i < final(self).processes@.len() ==> (old(self).processes@[i].0@ == req.id@
                    ==> (match final(self).processes@[i].1 {
                    ProcessObj::Init(p) => p.stdin_fd is None,
                    ProcessObj::Exec(p) => p.stdin_fd is None,
                })),
            // Idempotence: when every matching process already has no
            // retained stdin, nothing changes and nothing is handed out.
            (forall|i: int|
                0 <= i < old(self).processes@.len() ==> (old(self).processes@[i].0@ == req.id@
                    ==> (match old(self).processes@[i].1 {
                    ProcessObj::Init(p) => p.stdin_fd is None,
                    ProcessObj::Exec(p) => p.stdin_fd is None,
                }))) ==> (final(self).processes@ == old(self).processes@ && r is None),
    {
        let i = match self.find_index(req.id.as_str()) {
            Some(i) => i,
            None => {
                proof {
                    assert(final(self).processes@ =~= old(self).processes@);
                }
                return None;
            },
        };
        let ghost old_entries = self.processes@;
        let mut entry = self.processes.remove(i);
        let fd = match &mut entry.1 {
            ProcessObj::Init(p) => p.close_stdin(),
            ProcessObj::Exec(p) => p.close_stdin(),
        };
        let ghost new_entry = entry;
        self.processes.insert(i, entry);
        proof {
            lemma_remove_insert(old_entries, i as int, new_entry);
            assert(self.processes@ == old_entries.update(i as int, new_entry));
            if (match old_entries[i as int].1 {
                ProcessObj::Init(p) => p.stdin_fd is None,
                ProcessObj::Exec(p) => p.stdin_fd is None,
            }) {
                assert(self.processes@ =~= old_entries);
            }
        }
        fd
    }

    /// Shuts the service down: a no-op while the map still holds a
    /// process; otherwise fires the exit signal, and never fires it twice.
    pub fn shutdown(&mut self) -> (r: bool)
        requires
            service_wf(*old(self)),
        ensures
            service_wf(*final(self)),
            final(self).processes@ == old(self).processes@,
            final(self).id == old(self).id,
            final(self).bundle == old(self).bundle,
            old(self).processes@.len() > 0 ==> (final(self).exit_signaled == old(
                self
            ).exit_signaled && !r),
            old(self).processes@.len() == 0 ==> (final(self).exit_signaled && (r <==> !old(
                self
            ).exit_signaled)),
    {
        if self.processes.len() > 0 {
            return false;
        }
        if self.exit_signaled {
            false
        } else {
            self.exit_signaled = true;
            true
        }
    }

    /// The connect RPC: the pid of the container's task.
    #[verifier::truncate]
    pub fn connect(&self, id: &str) -> (r: Result<u32, Status>)
        requires
            service_wf(*self),
        ensures
            match r {
                Ok(pid) => exists|i: int|
                    0 <= i < self.processes@.len() && (#[trigger] self.processes@[i].0@) == id@
                        && pid == obj_pid_u32(self.processes@[i].1),
                Err(e) => !has_key(self.processes@, id@) && e.code == Code::NotFound,
            },
    {
        let i = match self.find_index(id) {
            Some(i) => i,
            None => {
                return Err(
                    ttrpc_error(Code::NotFound, String::from_str("container not found.")),
                );
            },
        };
        match &self.processes[i].1 {
            ProcessObj::Init(p) => Ok(p.pid as u32),
            ProcessObj::Exec(p) => Ok(p.pid as u32),
        }
    }

    /// The checkpoint RPC is surfaced but not implemented.
    pub fn checkpoint(&self) -> (r: Status)
        ensures
            r.code == Code::NotImplemented,
    {
        ttrpc_error(
            Code::NotImplemented,
            String::from_str("/containerd.runtime.linux.shim.v1.Shim/Checkpoint is not supported"),
        )
    }

    /// Pairs each listed pid with the exec id of the process object that
    /// owns it, when one does; when several match, the later map entry
    /// wins (see [`last_pid_match`]).
    #[verifier::truncate]
    pub fn list_pids(&self, pids: &Vec<usize>) -> (r: types::ListPidsResponse)
        requires
            service_wf(*self),
        ensures
            r.processes@.len() == pids@.len(),
            forall|i: int|
                0 <= i < pids@.len() ==> (#[trigger] r.processes@[i]).pid == pids@[i] as u32,
            forall|i: int|
                0 <= i < pids@.len() ==> (match (#[trigger] r.processes@[i]).exec_id {
                    Some(s) => last_pid_match(
                        self.processes@,
                        self.processes@.len() as int,
                        pids@[i] as u32,
                    ) == Some(s@),
                    None => last_pid_match(
                        self.processes@,
                        self.processes@.len() as int,
                        pids@[i] as u32,
                    ) is None,
                }),
    {
        let mut out: Vec<types::ProcessInfo> = Vec::new();
        let mut i: usize = 0;
        while i < pids.len()
            invariant
                i <= pids@.len(),
                service_wf(*self),
                out@.len() == i,
                forall|k: int|
                    0 <= k < i ==> (#[trigger] out@[k]).pid == pids@[k] as u32,
                forall|k: int|
                    0 <= k < i ==> (match (#[trigger] out@[k]).exec_id {
                        Some(s) => last_pid_match(
                            self.processes@,
                            self.processes@.len() as int,
                            pids@[k] as u32,
                        ) == Some(s@),
                        None => last_pid_match(
                            self.processes@,
                            self.processes@.len() as int,
                            pids@[k] as u32,
                        ) is None,
                    }),
            decreases pids@.len() - i,
        {
            let pid = pids[i] as u32;
            let mut exec_id: Option<String> = None;
            let n = self.processes.len();
            let mut j: usize = 0;
            while j < n
                invariant
                    j <= n,
                    n == self.processes@.len(),
                    service_wf(*self),
                    (match exec_id {
                        Some(s) => last_pid_match(self.processes@, j as int, pid) == Some(s@),
                        None => last_pid_match(self.processes@, j as int, pid) is None,
                    }),
                decreases n - j,
            {
                let matched = match &self.processes[j].1 {
                    ProcessObj::Init(p) => p.pid as u32 == pid,
                    ProcessObj::Exec(p) => p.pid as u32 == pid,
                };
                if matched {
                    proof {
                        assert(obj_pid_u32(self.processes@[j as int].1) == pid);
                    }
                    let idstr = match &self.processes[j].1 {
                        ProcessObj::Init(p) => strutil::clone_string(&p.id),
                        ProcessObj::Exec(p) => strutil::clone_string(&p.id),
                    };
                    proof {
                        assert(idstr@ == obj_id(self.processes@[j as int].1));
                    }
                    exec_id = Some(idstr);
                } else {
                    proof {
                        assert(obj_pid_u32(self.processes@[j as int].1) != pid);
                    }
                }
                j += 1;
            }
            out.push(types::ProcessInfo { pid, exec_id });
            i += 1;
        }
        types::ListPidsResponse { processes: out }
    }

    /// Plans pausing the container.
    pub fn pause_prepare(&self) -> (r: Result<Vec<String>, Status>)
        requires
            service_wf(*self),
        ensures
            match r {
                Ok(argv) => exists|i: int|
                    0 <= i < self.processes@.len() && ((#[trigger] self.processes@[i].1) matches
                        ProcessObj::Init(p) && p.state == InitState::Running && crate::runc::views(
                        argv@,
                    ) == crate::runc::global_args_spec(p.runtime) + seq!["pause"@, p.id@]),
                Err(e) => true,
            },
    {
        let sid = match &self.id {
            Some(c) => strutil::clone_string(c),
            None => {
                return Err(
                    ttrpc_error(
                        Code::FailedPrecondition,
                        String::from_str("container must be created"),
                    ),
                );
            },
        };
        match self.get_init_process(sid.as_str()) {
            Ok(p) => p.pause_plan(),
            Err(e) => Err(e),
        }
    }

    /// Applies a successful pause.
    pub fn pause_commit(&mut self) -> (r: Result<(), Status>)
        requires
            service_wf(*old(self)),
        ensures
            service_wf(*final(self)),
            final(self).id == old(self).id,
            final(self).bundle == old(self).bundle,
            final(self).exit_signaled == old(self).exit_signaled,
            (r is Ok) <==> init_transition_ready(*old(self), false),
            (r is Err) ==> final(self).processes@ == old(self).processes@,
            (r is Ok) ==> stepped_init(*old(self), *final(self), InitState::Running, InitState::Paused),
    {
        self.init_transition(false)
    }

    /// Plans resuming the container.
    pub fn resume_prepare(&self) -> (r: Result<Vec<String>, Status>)
        requires
            service_wf(*self),
        ensures
            match r {
                Ok(argv) => exists|i: int|
                    0 <= i < self.processes@.len() && ((#[trigger] self.processes@[i].1) matches
                        ProcessObj::Init(p) && p.state == InitState::Paused && crate::runc::views(
                        argv@,
                    ) == crate::runc::global_args_spec(p.runtime) + seq!["resume"@, p.id@]),
                Err(e) => true,
            },
    {
        let sid = match &self.id {
            Some(c) => strutil::clone_string(c),
            None => {
                return Err(
                    ttrpc_error(
                        Code::FailedPrecondition,
                        String::from_str("container must be created"),
                    ),
                );
            },
        };
        match self.get_init_process(sid.as_str()) {
            Ok(p) => p.resume_plan(),
            Err(e) => Err(e),
        }
    }

    /// Applies a successful resume.
    pub fn resume_commit(&mut self) -> (r: Result<(), Status>)
        requires
            service_wf(*old(self)),
        ensures
            service_wf(*final(self)),
            final(self).id == old(self).id,
            final(self).bundle == old(self).bundle,
            final(self).exit_signaled == old(self).exit_signaled,
            (r is Ok) <==> init_transition_ready(*old(self), true),
            (r is Err) ==> final(self).processes@ == old(self).processes@,
            (r is Ok) ==> stepped_init(*old(self), *final(self), InitState::Paused, InitState::Running),
    {
        self.init_transition(true)
    }

    /// Steps the init between Running and Paused after a successful
    /// runtime pause or resume.
    fn init_transition(&mut self, to_running: bool) -> (r: Result<(), Status>)
        requires
            service_wf(*old(self)),
        ensures
            service_wf(*final(self)),
            final(self).id == old(self).id,
            final(self).bundle == old(self).bundle,
            final(self).exit_signaled == old(self).exit_signaled,
            (r is Ok) <==> init_transition_ready(*old(self), to_running),
            (r is Err) ==> final(self).processes@ == old(self).processes@,
            (r is Ok) ==> stepped_init(
                *old(self),
                *final(self),
                (if to_running {
                    InitState::Paused
                } else {
                    InitState::Running
                }),
                (if to_running {
                    InitState::Running
                } else {
                    InitState::Paused
                }),
            ),
    {
        let sid = match &self.id {
            Some(c) => strutil::clone_string(c),
            None => {
                return Err(
                    ttrpc_error(
                        Code::FailedPrecondition,
                        String::from_str("container must be created"),
                    ),
                );
            },
        };
        let i = match self.find_index(sid.as_str()) {
            Some(i) => i,
            None => {
                return Err(
                    ttrpc_error(
                        Code::FailedPrecondition,
                        String::from_str("container must be created"),
                    ),
                );
            },
        };
        let ghost old_entries = self.processes@;
        let mut entry = self.processes.remove(i);
        let outcome: Result<(), Status> = match &mut entry.1 {
            ProcessObj::Init(p) => {
                if to_running {
                    if matches!(p.state, InitState::Paused) {
                        p.resume_commit();
                        Ok(())
                    } else {
                        Err(
                            ttrpc_error(
                                Code::FailedPrecondition,
                                crate::state::cannot_text(
                                    "resume",
                                    crate::state::init_state_text(p.state),
                                ),
                            ),
                        )
                    }
                } else {
                    if matches!(p.state, InitState::Running) {
                        p.pause_commit();
                        Ok(())
                    } else {
                        Err(
                            ttrpc_error(
                                Code::FailedPrecondition,
                                crate::state::cannot_text(
                                    "pause",
                                    crate::state::init_state_text(p.state),
                                ),
                            ),
                        )
                    }
                }
            },
            ProcessObj::Exec(_) => Err(
                ttrpc_error(
                    Code::Internal,
                    String::from_str("cast process to InitProcess failed."),
                ),
            ),
        };
        let ghost new_entry = entry;
        self.processes.insert(i, entry);
        proof {
            lemma_remove_insert(old_entries, i as int, new_entry);
            assert(self.processes@ == old_entries.update(i as int, new_entry));
            assert((outcome matches Err(_)) ==> self.processes@ =~= old_entries);
            assert(self.processes@[i as int] == new_entry);
            if outcome is Ok {
                assert(init_transition_ready(*old(self), to_running));
                assert(stepped_init(
                    *old(self),
                    *self,
                    (if to_running {
                        InitState::Paused
                    } else {
                        InitState::Running
                    }),
                    (if to_running {
                        InitState::Running
                    } else {
                        InitState::Paused
                    }),
                ));
            } else {
                assert(!init_transition_ready(*old(self), to_running)) by {
                    if init_transition_ready(*old(self), to_running) {
                        match old(self).id {
                            Some(c) => {
                                let w = choose|w: int|
                                    0 <= w < old(self).processes@.len() && (old(
                                        self,
                                    ).processes@[w].0@) == c@ && (
                                    match old(self).processes@[w].1 {
                                        ProcessObj::Init(p) => p.state == (if to_running {
                                            InitState::Paused
                                        } else {
                                            InitState::Running
                                        }),
                                        ProcessObj::Exec(_) => false,
                                    });
                                assert(w == i as int);
                            },
                            None => {},
                        }
                    }
                }
            }
        }
        outcome
    }
}

/// What blocks a resource update: no container recorded, absent or
/// undecodable resources, the init missing or displaced, or the init in a
/// state the update table refuses.
pub open spec fn update_blocked(s: ShimService, resources: Option<Vec<u8>>) -> bool {
    if s.id is None {
        true
    } else {
        match resources {
            None => true,
            Some(b) => if !resources_wellformed(b@) {
                true
            } else {
                match s.id {
                    Some(c) => !has_key(s.processes@, c@) || exists|i: int|
                        0 <= i < s.processes@.len() && (#[trigger] s.processes@[i].0@) == c@ && (
                        match s.processes@[i].1 {
                            ProcessObj::Init(p) => !(p.state == InitState::Created || p.state
                                == InitState::CreatedCheckpoint || p.state == InitState::Running
                                || p.state == InitState::Paused),
                            ProcessObj::Exec(_) => true,
                        }),
                    None => true,
                }
            },
        }
    }
}

/// Some entry of the map is an init that may be updated with the given
/// invocation.
pub open spec fn some_init_updatable(
    entries: Seq<(String, ProcessObj)>,
    argv: Seq<Seq<char>>,
    temp_file: Seq<char>,
) -> bool {
    exists|i: int|
        0 <= i < entries.len() && #[trigger] init_updatable_at(entries[i].1, argv, temp_file)
}

/// Between the two service states exactly one entry changed: the init of
/// the container stepped from the first state to the second, everything
/// else equal.
pub open spec fn stepped_init(
    pre: ShimService,
    post: ShimService,
    from: InitState,
    to: InitState,
) -> bool {
    exists|i: int|
        {
            &&& 0 <= i < pre.processes@.len()
            &&& post.processes@ == pre.processes@.update(i, (#[trigger] post.processes@[i]))
            &&& post.processes@[i].0@ == pre.processes@[i].0@
            &&& match (pre.processes@[i].1, post.processes@[i].1) {
                (ProcessObj::Init(p0), ProcessObj::Init(p1)) => p0.state == from && p1.state == to
                    && p1 == (crate::process::InitProcess { state: to, ..p0 }),
                _ => false,
            }
        }
}

/// The container's init is present and in the state the transition leaves:
/// Paused when resuming, Running when pausing.
pub open spec fn init_transition_ready(s: ShimService, to_running: bool) -> bool {
    match s.id {
        None => false,
        Some(c) => exists|i: int|
            0 <= i < s.processes@.len() && (#[trigger] s.processes@[i].0@) == c@ && (
            match s.processes@[i].1 {
                ProcessObj::Init(p) => p.state == (if to_running {
                    InitState::Paused
                } else {
                    InitState::Running
                }),
                ProcessObj::Exec(_) => false,
            }),
    }
}

/// The entry is an init that may be updated, and the vector is its update
/// invocation.
pub open spec fn init_updatable_at(o: ProcessObj, argv: Seq<Seq<char>>, temp_file: Seq<char>) -> bool {
    match o {
        ProcessObj::Init(p) => updatable_with(p, argv, temp_file),
        ProcessObj::Exec(_) => false,
    }
}

/// The init may be updated and the given vector is its update invocation
/// with the resources riding in the given temporary file.
pub open spec fn updatable_with(p: InitProcess, argv: Seq<Seq<char>>, temp_file: Seq<char>) -> bool {
    &&& (p.state == InitState::Created || p.state == InitState::CreatedCheckpoint || p.state
        == InitState::Running || p.state == InitState::Paused)
    &&& argv == crate::runc::global_args_spec(p.runtime) + seq![
        "update"@,
        "--resources"@,
        temp_file,
        p.id@,
    ]
}

/// The container id the service serves, as a sequence; empty when none.
pub open spec fn resp_container(s: &ShimService) -> Seq<char> {
    match s.id {
        Some(c) => c@,
        None => Seq::empty(),
    }
}


/// Whether a byte sequence decodes as a resources record; the result
/// depends on the bytes alone.
pub uninterp spec fn resources_wellformed(bytes: Seq<u8>) -> bool;

/// Relies on serde_json::from_slice::<oci_spec::runtime::LinuxResources>:
/// whether the bytes decode as a resources record is a function of the
/// bytes alone.
#[verifier::external_body]
fn parse_linux_resources(bytes: &Vec<u8>) -> (r: Result<
    oci_spec::runtime::LinuxResources,
    serde_json::Error,
>)
    ensures
        (r is Ok) == resources_wellformed(bytes@),
{
    serde_json::from_slice(bytes.as_slice())
}

/// A resources record value, carried through opaquely.
#[verifier::external_type_specification]
#[verifier::external_body]
pub struct ExLinuxResources(oci_spec::runtime::LinuxResources);

impl ShimService {
    /// Plans a resource update: checks the container and its state, checks
    /// that the resources decode, and returns the bytes to write to the
    /// given temporary file together with the update invocation.
    #[verifier::rlimit(60)]
    #[verifier::spinoff_prover]
    pub fn update_prepare(&self, req: &types::UpdateTaskRequest, temp_file: &str) -> (r: Result<
        (Vec<u8>, Vec<String>),
        Status,
    >)
        requires
            service_wf(*self),
        ensures
            (r is Err) <==> update_blocked(*self, req.resources),
            match r {
                Ok((resources, argv)) => {
                    &&& (req.resources matches Some(b) && resources@ == b@
                        && resources_wellformed(b@))
                    &&& some_init_updatable(
                        self.processes@,
                        crate::runc::views(argv@),
                        temp_file@,
                    )
                },
                Err(e) => {
                    &&& ((self.id is None) ==> e.code == Code::FailedPrecondition && e.message@
                        == "container must be created"@)
                    &&& ((self.id is Some) && (req.resources is None) ==> e.code == Code::Internal
                        && e.message@ == "update container failed"@)
                    &&& ((self.id is Some) && (req.resources matches Some(b)
                        && !resources_wellformed(b@)) ==> e.code == Code::Internal && e.message@
                        == "update container failed"@)
                },
            },
    {
        let sid = match &self.id {
            Some(c) => strutil::clone_string(c),
            None => {
                return Err(
                    ttrpc_error(
                        Code::FailedPrecondition,
                        String::from_str("container must be created"),
                    ),
                );
            },
        };
        let data = match &req.resources {
            Some(d) => d,
            None => {
                return Err(
                    ttrpc_error(Code::Internal, String::from_str("update container failed")),
                );
            },
        };
        let mut resources: Vec<u8> = Vec::new();
        let mut k: usize = 0;
        while k < data.len()
            invariant
                k <= data@.len(),
                resources@ == data@.subrange(0, k as int),
            decreases data@.len() - k,
        {
            resources.push(data[k]);
            proof {
                assert(resources@ =~= data@.subrange(0, k + 1 as int));
            }
            k += 1;
        }
        proof {
            assert(data@.subrange(0, data@.len() as int) =~= data@);
        }
        match parse_linux_resources(&resources) {
            Ok(_) => {},
            Err(_) => {
                return Err(
                    ttrpc_error(Code::Internal, String::from_str("update container failed")),
                );
            },
        }
        let init = match self.get_init_process(sid.as_str()) {
            Ok(p) => p,
            Err(e) => {
                proof {
                    assert(update_blocked(*self, req.resources));
                }
                return Err(e);
            },
        };
        match init.update_plan(temp_file) {
            Ok(argv) => {
                proof {
                    let i = choose|i: int|
                        0 <= i < self.processes@.len() && self.processes@[i].0@ == sid@
                            && self.processes@[i].1 == ProcessObj::Init(*init);
                    assert(init_updatable_at(
                        self.processes@[i].1,
                        crate::runc::views(argv@),
                        temp_file@,
                    ));
                    assert(some_init_updatable(
                        self.processes@,
                        crate::runc::views(argv@),
                        temp_file@,
                    ));
                    assert forall|q: int|
                        0 <= q < self.processes@.len() && (#[trigger] self.processes@[q].0@)
                            == sid@ implies (match self.processes@[q].1 {
                        ProcessObj::Init(p) => p.state == InitState::Created || p.state
                            == InitState::CreatedCheckpoint || p.state == InitState::Running
                            || p.state == InitState::Paused,
                        ProcessObj::Exec(_) => false,
                    }) by {
                        assert(q == i);
                    }
                    assert(!update_blocked(*self, req.resources));
                }
                Ok((resources, argv))
            },
            Err(e) => {
                proof {
                    let i = choose|i: int|
                        0 <= i < self.processes@.len() && self.processes@[i].0@ == sid@
                            && self.processes@[i].1 == ProcessObj::Init(*init);
                    assert(self.processes@[i].0@ == sid@);
                    assert(update_blocked(*self, req.resources));
                }
                Err(e)
            },
        }
    }
}


/// Builds the shim configuration from parsed arguments: the working
/// directory falls back to the temp directory, the namespace to `moby`,
/// and the runtime log lives under the given current directory.
pub fn config_from_arguments(
    arguments: &crate::args::Arguments,
    current_dir: String,
    temp_dir: String,
) -> (r: ShimConfig)
    requires
        arguments.wf(),
    ensures
        r.path == current_dir,
        (arguments.as_map().contains_key("workdir"@) ==> (arguments.as_map()["workdir"@] matches
            crate::args::ValueModel::OptV(Some(v)) ==> r.work_dir@ == v)),
        (!(arguments.as_map().contains_key("workdir"@) && arguments.as_map()["workdir"@] matches
            crate::args::ValueModel::OptV(Some(_))) ==> r.work_dir@ == temp_dir@),
        (arguments.as_map().contains_key("namespace"@) ==> (arguments.as_map()["namespace"@]
            matches crate::args::ValueModel::OptV(Some(v)) ==> r.namespace@ == v)),
        (!(arguments.as_map().contains_key("namespace"@) && arguments.as_map()["namespace"@]
            matches crate::args::ValueModel::OptV(Some(_))) ==> r.namespace@ == "moby"@),
        (arguments.as_map().contains_key("criu-path"@) ==> (arguments.as_map()["criu-path"@]
            matches crate::args::ValueModel::OptV(Some(v)) ==> r.criu@ == v)),
        (arguments.as_map().contains_key("runtime-root"@) ==> (arguments.as_map()[
            "runtime-root"@
        ] matches crate::args::ValueModel::OptV(Some(v)) ==> r.runtime_root@ == v)),
        r.systemd_cgroup == (arguments.as_map().contains_key("systemd-cgroup"@)
            && arguments.as_map()["systemd-cgroup"@] == crate::args::ValueModel::FlagV(true)),
{
    let work_dir = match arguments.value_of("workdir") {
        Some(v) => v,
        None => temp_dir,
    };
    let namespace = match arguments.value_of("namespace") {
        Some(v) => v,
        None => String::from_str("moby"),
    };
    let criu = match arguments.value_of("criu-path") {
        Some(v) => v,
        None => String::new(),
    };
    let runtime_root = match arguments.value_of("runtime-root") {
        Some(v) => v,
        None => String::new(),
    };
    ShimConfig {
        path: current_dir,
        namespace,
        work_dir,
        criu,
        runtime_root,
        systemd_cgroup: arguments.is_present("systemd-cgroup"),
    }
}

} // verus!
