//! Child reaping and exit-status routing: the process-wide exit table the
//! runtime adapter falls back to, the decoding of wait statuses into exit
//! codes, the correlation of reaped pids with process objects, the
//! shared-pid-namespace heuristic behind kill-all-on-exit, and the event
//! publisher's invocation. The signal handling itself (sigwaitinfo,
//! waitpid) runs in the unverified binary, which feeds reaped pids here.

use vstd::prelude::*;
use vstd::string::StrSliceExecFns;
use vstd::string::StringExecFns;
use crate::runc::views;
use crate::service::{ShimService, ProcessObj, service_wf};
use crate::strutil;
use crate::time::to_proto_timestamp;
use crate::types;

verus! {

/// Publishes lifecycle events by piping them to the orchestrator binary.
pub struct Publisher {
    pub containerd_binary: String,
    pub address: String,
    pub namespace: String,
}

impl Publisher {
    pub fn new(binary: &str, address: &str, namespace: &str) -> (r: Publisher)
        ensures
            r.containerd_binary@ == binary@,
            r.address@ == address@,
            r.namespace@ == namespace@,
    {
        Publisher {
            containerd_binary: String::from_str(binary),
            address: String::from_str(address),
            namespace: String::from_str(namespace),
        }
    }

    /// The arguments of one publish invocation of the orchestrator binary;
    /// the serialized event rides on its stdin.
    pub fn publish_args(&self, topic: &str) -> (r: Vec<String>)
        ensures
            views(r@) == seq![
                "--address"@,
                self.address@,
                "publish"@,
                "--topic"@,
                topic@,
                "--namespace"@,
                self.namespace@,
            ],
    {
        let mut v: Vec<String> = Vec::new();
        crate::runc::push_str(&mut v, "--address");
        crate::runc::push_string(&mut v, strutil::clone_string(&self.address));
        crate::runc::push_str(&mut v, "publish");
        crate::runc::push_str(&mut v, "--topic");
        crate::runc::push_str(&mut v, topic);
        crate::runc::push_str(&mut v, "--namespace");
        crate::runc::push_string(&mut v, strutil::clone_string(&self.namespace));
        proof {
            assert(views(v@) =~= seq![
                "--address"@,
                self.address@,
                "publish"@,
                "--topic"@,
                topic@,
                "--namespace"@,
                self.namespace@,
            ]);
        }
        v
    }
}

/// The topic exit events are published under.
pub fn exit_topic() -> (r: String)
    ensures
        r@ == "/tasks/exit"@,
{
    String::from_str("/tasks/exit")
}

/// The process-wide exit table: what each reaped pid exited with, until
/// the runtime adapter consumes it.
pub struct ExitInfo {
    pub entries: Vec<(i32, i32)>,
}

/// Each reaped pid appears at most once in the table until consumed.
pub open spec fn exit_wf(t: ExitInfo) -> bool {
    forall|i: int, j: int|
        0 <= i < j < t.entries@.len() ==> t.entries@[i].0 != t.entries@[j].0
}

/// Whether the table holds an entry for the pid.
pub open spec fn has_pid(t: ExitInfo, pid: i32) -> bool {
    exists|i: int| 0 <= i < t.entries@.len() && t.entries@[i].0 == pid
}

/// The code recorded for a pid.
pub open spec fn code_of(t: ExitInfo, pid: i32) -> int {
    t.entries@[choose|i: int| 0 <= i < t.entries@.len() && t.entries@[i].0 == pid].1 as int
}

impl ExitInfo {
    /// An empty exit table.
    pub fn new() -> (r: ExitInfo)
        ensures
            exit_wf(r),
            r.entries@.len() == 0,
    {
        ExitInfo { entries: Vec::new() }
    }

    fn find(&self, pid: i32) -> (r: Option<usize>)
        ensures
            match r {
                Some(i) => i < self.entries@.len() && self.entries@[i as int].0 == pid,
                None => !has_pid(*self, pid),
            },
    {
        let n = self.entries.len();
        let mut i: usize = 0;
        while i < n
            invariant
                i <= n,
                n == self.entries@.len(),
                forall|j: int| 0 <= j < i ==> self.entries@[j].0 != pid,
            decreases n - i,
        {
            if self.entries[i].0 == pid {
                return Some(i);
            }
            i += 1;
        }
        None
    }

    /// Records an exit code for a reaped pid; a pid reaped again replaces
    /// its record, so the pid still appears only once.
    pub fn insert(&mut self, pid: i32, code: i32)
        requires
            exit_wf(*old(self)),
        ensures
            exit_wf(*final(self)),
            has_pid(*final(self), pid),
            code_of(*final(self), pid) == code,
            forall|p: i32| p != pid ==> (has_pid(*final(self), p) <==> has_pid(*old(self), p)),
    {
        let ghost old_entries = self.entries@;
        match self.find(pid) {
            Some(i) => {
                self.entries.set(i, (pid, code));
                proof {
                    assert forall|a: int, b: int|
                        0 <= a < b < self.entries@.len() implies self.entries@[a].0
                        != self.entries@[b].0 by {
                        if a != i as int {
                            assert(self.entries@[a] == old_entries[a]);
                        }
                        if b != i as int {
                            assert(self.entries@[b] == old_entries[b]);
                        }
                    }
                    lemma_exit_lookup(*self, pid, i as int);
                    assert forall|p: i32| p != pid implies (has_pid(*self, p) <==> has_pid(
                        *old(self),
                        p,
                    )) by {
                        if has_pid(*self, p) {
                            let k = choose|k: int|
                                0 <= k < self.entries@.len() && self.entries@[k].0 == p;
                            assert(k != i as int);
                            assert(old_entries[k].0 == p);
                        }
                        if has_pid(*old(self), p) {
                            let k = choose|k: int|
                                0 <= k < old_entries.len() && old_entries[k].0 == p;
                            assert(k != i as int);
                            assert(self.entries@[k].0 == p);
                        }
                    }
                }
            },
            None => {
                self.entries.push((pid, code));
                proof {
                    let m = self.entries@.len() - 1;
                    assert(self.entries@[m] == (pid, code));
                    assert forall|a: int, b: int|
                        0 <= a < b < self.entries@.len() implies self.entries@[a].0
                        != self.entries@[b].0 by {
                        if b < m {
                            assert(self.entries@[a] == old_entries[a]);
                            assert(self.entries@[b] == old_entries[b]);
                        } else if a < m {
                            assert(self.entries@[a] == old_entries[a]);
                        }
                    }
                    lemma_exit_lookup(*self, pid, m);
                    assert forall|p: i32| p != pid implies (has_pid(*self, p) <==> has_pid(
                        *old(self),
                        p,
                    )) by {
                        if has_pid(*self, p) {
                            let k = choose|k: int|
                                0 <= k < self.entries@.len() && self.entries@[k].0 == p;
                            assert(k != m);
                            assert(old_entries[k].0 == p);
                        }
                        if has_pid(*old(self), p) {
                            let k = choose|k: int|
                                0 <= k < old_entries.len() && old_entries[k].0 == p;
                            assert(self.entries@[k].0 == p);
                        }
                    }
                }
            },
        }
    }

    /// Consumes the recorded exit code of a pid, removing it from the
    /// table.
    pub fn remove(&mut self, pid: i32) -> (r: Option<i32>)
        requires
            exit_wf(*old(self)),
        ensures
            exit_wf(*final(self)),
            !has_pid(*final(self), pid),
            match r {
                Some(code) => has_pid(*old(self), pid) && code == code_of(*old(self), pid),
                None => !has_pid(*old(self), pid) && final(self).entries@ == old(
                    self,
                ).entries@,
            },
    {
        let ghost old_entries = self.entries@;
        match self.find(pid) {
            Some(i) => {
                let entry = self.entries.remove(i);
                proof {
                    lemma_exit_lookup(*old(self), pid, i as int);
                    assert forall|a: int, b: int|
                        0 <= a < b < self.entries@.len() implies self.entries@[a].0
                        != self.entries@[b].0 by {
                        if a < i {
                            assert(self.entries@[a] == old_entries[a]);
                        } else {
                            assert(self.entries@[a] == old_entries[a + 1]);
                        }
                        if b < i {
                            assert(self.entries@[b] == old_entries[b]);
                        } else {
                            assert(self.entries@[b] == old_entries[b + 1]);
                        }
                    }
                    assert forall|k: int| 0 <= k < self.entries@.len() implies (
                    #[trigger] self.entries@[k]).0 != pid by {
                        if k < i {
                            assert(self.entries@[k] == old_entries[k]);
                        } else {
                            assert(self.entries@[k] == old_entries[k + 1]);
                        }
                    }
                }
                Some(entry.1)
            },
            None => None,
        }
    }
}

/// The value at a pid's unique index is the value the table records.
proof fn lemma_exit_lookup(t: ExitInfo, pid: i32, i: int)
    requires
        exit_wf(t),
        0 <= i < t.entries@.len(),
        t.entries@[i].0 == pid,
    ensures
        has_pid(t, pid),
        code_of(t, pid) == t.entries@[i].1 as int,
{
    let j = choose|j: int| 0 <= j < t.entries@.len() && t.entries@[j].0 == pid;
    assert(j == i);
}

/// One decoded wait status, as the reaping loop observes them.
pub enum WaitOutcome {
    /// The child exited with a code.
    Exited { pid: i32, code: i32 },
    /// The child was killed by a signal.
    Signaled { pid: i32, signal: i32 },
    /// Nothing further to reap right now.
    StillAlive,
    /// Some other status, ignored.
    Other,
}

/// The exit code a wait status records: the code itself for an exit, and
/// 128 plus the signal number for a death by signal.
pub fn reap_decode(ws: &WaitOutcome) -> (r: Option<(i32, i32)>)
    requires
        (*ws matches WaitOutcome::Signaled { pid, signal } ==> 0 <= signal < 128),
    ensures
        match *ws {
            WaitOutcome::Exited { pid, code } => r == Some((pid, code)),
            WaitOutcome::Signaled { pid, signal } => r matches Some(p) && p.0 == pid && p.1
                == signal + 128,
            WaitOutcome::StillAlive => r is None,
            WaitOutcome::Other => r is None,
        },
{
    match ws {
        WaitOutcome::Exited { pid, code } => Some((*pid, *code)),
        WaitOutcome::Signaled { pid, signal } => Some((*pid, *signal + 128)),
        WaitOutcome::StillAlive => None,
        WaitOutcome::Other => None,
    }
}

/// What the reaper read out of a container's `config.json`, reduced to the
/// part the kill-all heuristic consults.
#[derive(Debug)]
pub struct SpecInfo {
    pub has_linux: bool,
    pub namespaces: Option<Vec<NamespaceEntry>>,
}

/// One namespace declaration of the OCI spec.
#[derive(Debug)]
pub struct NamespaceEntry {
    pub is_pid: bool,
    pub path: Option<String>,
}

/// Whether a namespace entry declares a private pid namespace: a pid
/// namespace without a path (or with an empty one).
pub open spec fn private_pid_ns(e: NamespaceEntry) -> bool {
    e.is_pid && (match e.path {
        Some(p) => p@.len() == 0,
        None => true,
    })
}

/// Whether everything in the container must be force-killed when its init
/// exits: yes, unless the spec declares a private pid namespace (then the
/// kernel tears the namespace down by itself). An unreadable spec plays
/// safe and kills.
pub fn should_kill_all_on_exit(spec: Option<&SpecInfo>) -> (r: bool)
    ensures
        match spec {
            None => r,
            Some(s) => r == if !s.has_linux {
                true
            } else {
                match s.namespaces {
                    None => true,
                    Some(nss) => !(exists|i: int|
                        0 <= i < nss@.len() && private_pid_ns(#[trigger] nss@[i])),
                }
            },
        },
{
    let s = match spec {
        None => {
            return true;
        },
        Some(s) => s,
    };
    if !s.has_linux {
        return true;
    }
    let nss = match &s.namespaces {
        None => {
            return true;
        },
        Some(nss) => nss,
    };
    let n = nss.len();
    let mut i: usize = 0;
    while i < n
        invariant
            i <= n,
            n == nss@.len(),
            (spec matches Some(ss) && ss.has_linux && (ss.namespaces matches Some(v) && v@
                == nss@)),
            forall|j: int| 0 <= j < i ==> !private_pid_ns(#[trigger] nss@[j]),
        decreases n - i,
    {
        let e = &nss[i];
        if e.is_pid {
            let empty = match &e.path {
                Some(p) => p.as_str().unicode_len() == 0,
                None => true,
            };
            if empty {
                proof {
                    assert(private_pid_ns(nss@[i as int]));
                }
                return false;
            }
        }
        i += 1;
    }
    true
}

/// What the reaping of one pid found in the container map: nothing, or the
/// matching process (and, for an init, the bundle whose spec decides the
/// kill-all question, plus the kill-all invocation to run if it says so).
pub enum ReapMatch {
    NoMatch,
    MatchedExec,
    MatchedInit { bundle: String, kill_all_argv: Vec<String> },
}

/// Looks the reaped pid up in the container map: the first entry carrying
/// the pid decides. The caller consults the bundle's spec and runs the
/// kill-all invocation before committing the exit with [`handle_reaped`].
pub fn reap_lookup(service: &ShimService, pid: i32) -> (r: ReapMatch)
    requires
        service_wf(*service),
        pid > 0,
    ensures
        match r {
            ReapMatch::NoMatch => forall|i: int|
                0 <= i < service.processes@.len() ==> crate::service::obj_pid(
                    #[trigger] service.processes@[i].1,
                ) != pid as int,
            ReapMatch::MatchedExec => exists|i: int|
                {
                    &&& 0 <= i < service.processes@.len()
                    &&& crate::service::obj_pid(#[trigger] service.processes@[i].1) == pid as int
                    &&& (service.processes@[i].1 matches ProcessObj::Exec(_))
                    &&& forall|j: int|
                        0 <= j < i ==> crate::service::obj_pid(#[trigger] service.processes@[j].1)
                            != pid as int
                },
            ReapMatch::MatchedInit { bundle, kill_all_argv } => exists|i: int|
                {
                    &&& 0 <= i < service.processes@.len()
                    &&& crate::service::obj_pid(#[trigger] service.processes@[i].1) == pid as int
                    &&& (service.processes@[i].1 matches ProcessObj::Init(p) && p.pid == pid
                        && bundle@ == p.bundle@ && crate::runc::views(kill_all_argv@)
                        == crate::runc::global_args_spec(p.runtime) + seq![
                        "kill"@,
                        "--all"@,
                        p.id@,
                        "9"@,
                    ])
                    &&& forall|j: int|
                        0 <= j < i ==> crate::service::obj_pid(#[trigger] service.processes@[j].1)
                            != pid as int
                },
        },
{
    let n = service.processes.len();
    let mut i: usize = 0;
    while i < n
        invariant
            i <= n,
            n == service.processes@.len(),
            service_wf(*service),
            forall|j: int|
                0 <= j < i ==> crate::service::obj_pid(#[trigger] service.processes@[j].1)
                    != pid as int,
        decreases n - i,
    {
        match &service.processes[i].1 {
            ProcessObj::Init(p) => {
                if p.pid == pid {
                    let argv = p.kill_all_args();
                    return ReapMatch::MatchedInit {
                        bundle: strutil::clone_string(&p.bundle),
                        kill_all_argv: argv,
                    };
                }
            },
            ProcessObj::Exec(p) => {
                if p.pid == pid {
                    return ReapMatch::MatchedExec;
                }
            },
        }
        i += 1;
    }
    ReapMatch::NoMatch
}

/// Whether the object is a live (not deleted) process with the given pid.
pub open spec fn live_with_pid(o: ProcessObj, pid: i32) -> bool {
    match o {
        ProcessObj::Init(p) => p.pid == pid && p.state != crate::state::InitState::Deleted,
        ProcessObj::Exec(p) => p.pid == pid && p.state != crate::state::ExecState::ExecDeleted,
    }
}

/// Commits one reaped pid: records it in the exit table first, then marks
/// the matching process exited and builds the exit event. The recording in
/// the table happens before the exit latch is released, so a waiter that
/// wakes always finds a consistent pair.
pub fn handle_reaped(
    service: &mut ShimService,
    exits: &mut ExitInfo,
    pid: i32,
    status: i32,
) -> (r: Option<types::TaskExit>)
    requires
        service_wf(*old(service)),
        exit_wf(*old(exits)),
        pid > 0,
    ensures
        service_wf(*final(service)),
        exit_wf(*final(exits)),
        has_pid(*final(exits), pid),
        code_of(*final(exits), pid) == status,
        final(service).id == old(service).id,
        final(service).bundle == old(service).bundle,
        final(service).exit_signaled == old(service).exit_signaled,
        final(service).processes@.len() == old(service).processes@.len(),
        (r is None) <==> !(exists|i: int|
            0 <= i < old(service).processes@.len() && live_with_pid(
                #[trigger] old(service).processes@[i].1,
                pid,
            )),
        (r is None) ==> final(service).processes@ == old(service).processes@,
        match r {
            Some(ev) => {
                &&& ev.pid == pid as u32
                &&& ev.exit_status == status as u32
                &&& exists|i: int|
                    {
                        &&& 0 <= i < old(service).processes@.len()
                        &&& final(service).processes@ == old(service).processes@.update(
                            i,
                            (#[trigger] final(service).processes@[i]),
                        )
                        &&& match (old(service).processes@[i].1, final(service).processes@[i].1) {
                            (ProcessObj::Init(q), ProcessObj::Init(p)) => p.pid == pid && p.state
                                == crate::state::InitState::Stopped && p.latch_released && (
                            q.state != crate::state::InitState::Stopped ==> p.status == status)
                                && ev.container_id@ == p.container_id@ && ev.id@ == p.id@,
                            (ProcessObj::Exec(q), ProcessObj::Exec(p)) => p.pid == pid && p.state
                                == crate::state::ExecState::ExecStopped && p.latch_released && (
                            q.state != crate::state::ExecState::ExecStopped ==> p.status == status)
                                && ev.container_id@ == p.container_id@ && ev.id@ == p.id@,
                            _ => false,
                        }
                    }
            },
            None => true,
        },
{
    exits.insert(pid, status);
    let n = service.processes.len();
    let mut i: usize = 0;
    while i < n
        invariant
            i <= n,
            n == service.processes@.len(),
            service_wf(*service),
            *service == *old(service),
            pid > 0,
            exit_wf(*exits),
            has_pid(*exits, pid),
            code_of(*exits, pid) == status,
            forall|j: int|
                0 <= j < i ==> !live_with_pid(#[trigger] service.processes@[j].1, pid),
        decreases n - i,
    {
        let matched = match &service.processes[i].1 {
            ProcessObj::Init(p) => p.pid == pid && !matches!(p.state, crate::state::InitState::Deleted),
            ProcessObj::Exec(p) => p.pid == pid && !matches!(
                p.state,
                crate::state::ExecState::ExecDeleted,
            ),
        };
        if matched {
            proof {
                assert(crate::service::obj_wf(service.processes@[i as int].1));
            }
            let ghost old_entries = service.processes@;
            let mut entry = service.processes.remove(i);
            let ev = match &mut entry.1 {
                ProcessObj::Init(p) => {
                    p.set_exited(status);
                    types::TaskExit {
                        container_id: strutil::clone_string(&p.container_id),
                        id: strutil::clone_string(&p.id),
                        pid: pid as u32,
                        exit_status: status as u32,
                        exited_at: match &p.exited {
                            Some(t) => to_proto_timestamp(t),
                            None => crate::time::ProtoTimestamp { seconds: 0, nanos: 0 },
                        },
                    }
                },
                ProcessObj::Exec(p) => {
                    p.set_exited(status);
                    types::TaskExit {
                        container_id: strutil::clone_string(&p.container_id),
                        id: strutil::clone_string(&p.id),
                        pid: pid as u32,
                        exit_status: status as u32,
                        exited_at: match &p.exited {
                            Some(t) => to_proto_timestamp(t),
                            None => crate::time::ProtoTimestamp { seconds: 0, nanos: 0 },
                        },
                    }
                },
            };
            let ghost new_entry = entry;
            service.processes.insert(i, entry);
            proof {
                crate::service::lemma_remove_insert(old_entries, i as int, new_entry);
                assert(service.processes@ == old_entries.update(i as int, new_entry));
                assert(service.processes@[i as int] == new_entry);
                assert(service.processes@ == old(service).processes@.update(
                    i as int,
                    service.processes@[i as int],
                ));
            }
            return Some(ev);
        }
        i += 1;
    }
    None
}

} // verus!
