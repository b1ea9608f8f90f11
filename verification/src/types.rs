#![allow(non_snake_case)]
//! The task service's request, response and event payloads, as plain
//! values. The RPC transport that frames and decodes them is outside the
//! library; the handlers work on these.

use vstd::prelude::*;
use crate::time::ProtoTimestamp;

verus! {

/// Filesystem mount configuration as a create request carries it.
#[derive(Debug, Clone)]
pub struct Mount {
    pub Type: String,
    pub Source: String,
    pub Target: String,
    pub Options: Vec<String>,
}

impl Mount {
    pub fn new(Type: String, Source: String, Target: String, Options: Vec<String>) -> (r: Mount)
        ensures
            r.Type == Type,
            r.Source == Source,
            r.Target == Target,
            r.Options == Options,
    {
        Mount { Type, Source, Target, Options }
    }
}

/// The create request: identifiers, the bundle, the rootfs mounts, the
/// stdio wiring, and the creation options already decoded to plain values.
#[derive(Debug)]
pub struct CreateTaskRequest {
    pub id: String,
    pub bundle: String,
    pub runtime: String,
    pub rootfs: Vec<Mount>,
    pub terminal: bool,
    pub stdin: String,
    pub stdout: String,
    pub stderr: String,
    pub io_uid: u32,
    pub io_gid: u32,
    pub no_pivot_root: bool,
    pub no_new_keyring: bool,
}

/// Exec creation configuration: the process spec rides as its JSON bytes.
#[derive(Debug)]
pub struct ExecConfig {
    pub id: String,
    pub terminal: bool,
    pub stdin: String,
    pub stdout: String,
    pub stderr: String,
    pub spec: Vec<u8>,
}

#[derive(Debug)]
pub struct StateRequest {
    pub id: String,
}

#[derive(Debug)]
pub struct StateResponse {
    pub id: String,
    pub bundle: String,
    pub pid: u32,
    pub status: TaskStatus,
    pub stdin: String,
    pub stdout: String,
    pub stderr: String,
    pub terminal: bool,
    pub exit_status: u32,
    pub exited_at: ProtoTimestamp,
}

/// The externally visible status of a process.
#[derive(Debug, Clone, Copy, PartialEq, Eq, Structural)]
pub enum TaskStatus {
    Created,
    Running,
    Stopped,
    Paused,
    Pausing,
    Unknown,
}

#[derive(Debug)]
pub struct CreateTaskResponse {
    pub pid: u32,
}

#[derive(Debug)]
pub struct StartRequest {
    pub id: String,
}

#[derive(Debug)]
pub struct StartResponse {
    pub id: String,
    pub pid: u32,
}

#[derive(Debug)]
pub struct DeleteResponse {
    pub pid: u32,
    pub exit_status: u32,
    pub exited_at: ProtoTimestamp,
}

#[derive(Debug)]
pub struct DeleteProcessRequest {
    pub id: String,
}

#[derive(Debug)]
pub struct KillRequest {
    pub id: String,
    pub signal: u32,
    pub all: bool,
}

#[derive(Debug)]
pub struct ExecProcessRequest {
    pub id: String,
    pub terminal: bool,
    pub stdin: String,
    pub stdout: String,
    pub stderr: String,
    pub spec: Vec<u8>,
}

#[derive(Debug)]
pub struct ResizePtyRequest {
    pub id: String,
    pub width: u32,
    pub height: u32,
}

#[derive(Debug)]
pub struct CloseIORequest {
    pub id: String,
}

#[derive(Debug)]
pub struct UpdateTaskRequest {
    pub resources: Option<Vec<u8>>,
}

#[derive(Debug)]
pub struct WaitRequest {
    pub id: String,
}

#[derive(Debug)]
pub struct WaitResponse {
    pub exit_status: u32,
    pub exited_at: ProtoTimestamp,
}

#[derive(Debug)]
pub struct ListPidsResponse {
    pub processes: Vec<ProcessInfo>,
}

/// One process of a container: its pid, and the exec id it belongs to when
/// it is a known exec process.
#[derive(Debug)]
pub struct ProcessInfo {
    pub pid: u32,
    pub exec_id: Option<String>,
}

/// The exit event published when a process of a container exits.
#[derive(Debug)]
pub struct TaskExit {
    pub container_id: String,
    pub id: String,
    pub pid: u32,
    pub exit_status: u32,
    pub exited_at: ProtoTimestamp,
}


/// The event published when a container is created.
#[derive(Debug)]
pub struct TaskCreate {
    pub container_id: String,
    pub bundle: String,
    pub stdin: String,
    pub stdout: String,
    pub stderr: String,
    pub terminal: bool,
    pub pid: u32,
}

/// The event published when the init process starts.
#[derive(Debug)]
pub struct TaskStart {
    pub container_id: String,
    pub pid: u32,
}

/// The event published when an exec process is added.
#[derive(Debug)]
pub struct TaskExecAdded {
    pub container_id: String,
    pub exec_id: String,
}

/// The event published when an exec process starts.
#[derive(Debug)]
pub struct TaskExecStarted {
    pub container_id: String,
    pub exec_id: String,
    pub pid: u32,
}

/// The event published when a process object is deleted.
#[derive(Debug)]
pub struct TaskDelete {
    pub container_id: String,
    pub pid: u32,
    pub exit_status: u32,
    pub exited_at: ProtoTimestamp,
}

/// The event published each time the container's memory cgroup reports an
/// out-of-memory condition.
#[derive(Debug)]
pub struct TaskOOM {
    pub container_id: String,
}

} // verus!
