//! Verified core of a container shim: the supervisor logic that sits between
//! a container orchestrator and a low-level OCI runtime.
//!
//! The library holds the shim's decision logic — process lifecycle state
//! machines, I/O wiring selection, runtime argument composition, output
//! parsing, exit-status routing and the task-service state — each stated in
//! contracts and verified. The surrounding process plumbing (spawning the
//! runtime, file descriptors, signals) is driven by an unverified binary that
//! calls into this crate.

pub mod args;
pub mod copier;
pub mod errors;
pub mod io_setup;
pub mod laws;
pub mod mount;
pub mod process;
pub mod reaper;
pub mod runc;
pub mod service;
pub mod state;
pub mod strutil;
pub mod time;
pub mod types;
