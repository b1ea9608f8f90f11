//! The I/O copier's decision logic. Copying runs on dedicated threads in
//! the unverified binary: an edge-triggered poll wakes them per endpoint,
//! and the state machines here say what each wakeup means — what to copy,
//! which direction to close on a hangup, and when the copier is finished.

use vstd::prelude::*;

verus! {

/// The copy buffer: reads come in chunks of this size.
pub const BUFFER_SIZE: usize = 2048;

/// The endpoints a copier watches.
#[derive(Clone, Copy, Debug, PartialEq, Eq, Hash, Structural)]
pub enum CopyToken {
    Console,
    Stdin,
    Stdout,
    Stderr,
}

/// What one poll wakeup asks of the copier.
#[derive(Clone, Copy, Debug, PartialEq, Eq, Structural)]
pub enum CopyAction {
    /// Copy from the orchestrator's stdin fifo into the container.
    CopyStdin,
    /// Copy the remaining stdin, then close the container-stdin side only.
    CopyStdinThenCloseIn,
    /// Copy container stdout to the stdout fifo.
    CopyStdout,
    /// Copy the rest of stdout, close both stdout endpoints, finish.
    CopyStdoutThenFinish,
    /// Copy container stderr to the stderr fifo.
    CopyStderr,
    /// Copy the rest of stderr, close both stderr endpoints, finish.
    CopyStderrThenFinish,
    /// Copy the PTY master to the stdout fifo.
    CopyConsole,
    /// Copy the rest of the PTY output, then finish: the terminal is gone.
    CopyConsoleThenFinish,
    /// Nothing to do for this event.
    Ignore,
}

/// The pipe-topology copier: which directions are still open, and whether
/// the copier has terminated.
#[derive(Debug, Clone, Copy, PartialEq, Eq, Structural)]
pub struct PipeCopier {
    pub stdin_open: bool,
    pub stdout_open: bool,
    pub stderr_open: bool,
    pub done: bool,
}

impl PipeCopier {
    /// A fresh pipe copier; stdin copying only when a stdin fifo is wired.
    pub fn new(has_stdin: bool) -> (r: PipeCopier)
        ensures
            r.stdin_open == has_stdin,
            r.stdout_open,
            r.stderr_open,
            !r.done,
    {
        PipeCopier { stdin_open: has_stdin, stdout_open: true, stderr_open: true, done: false }
    }

    /// Decides one poll event. A hangup on stdout or stderr closes both
    /// endpoints of that direction and terminates the copier (the
    /// orchestrator sees EOF); a hangup on stdin closes only the
    /// container-stdin side and copying of the other directions goes on.
    pub fn on_event(&mut self, token: CopyToken, hup: bool) -> (r: CopyAction)
        ensures
            match token {
                CopyToken::Stdin => {
                    &&& final(self).stdout_open == old(self).stdout_open
                    &&& final(self).stderr_open == old(self).stderr_open
                    &&& final(self).done == old(self).done
                    &&& (old(self).stdin_open && !hup ==> r == CopyAction::CopyStdin && final(self).stdin_open)
                    &&& (old(self).stdin_open && hup ==> r == CopyAction::CopyStdinThenCloseIn
                        && !final(self).stdin_open)
                    &&& (!old(self).stdin_open ==> r == CopyAction::Ignore && !final(self).stdin_open)
                },
                CopyToken::Stdout => {
                    &&& final(self).stdin_open == old(self).stdin_open
                    &&& final(self).stderr_open == old(self).stderr_open
                    &&& (old(self).stdout_open && !hup ==> r == CopyAction::CopyStdout && final(self).stdout_open && final(self).done == old(self).done)
                    &&& (old(self).stdout_open && hup ==> r == CopyAction::CopyStdoutThenFinish
                        && !final(self).stdout_open && final(self).done)
                    &&& (!old(self).stdout_open ==> r == CopyAction::Ignore && *final(self) == *old(self))
                },
                CopyToken::Stderr => {
                    &&& final(self).stdin_open == old(self).stdin_open
                    &&& final(self).stdout_open == old(self).stdout_open
                    &&& (old(self).stderr_open && !hup ==> r == CopyAction::CopyStderr && final(self).stderr_open && final(self).done == old(self).done)
                    &&& (old(self).stderr_open && hup ==> r == CopyAction::CopyStderrThenFinish
                        && !final(self).stderr_open && final(self).done)
                    &&& (!old(self).stderr_open ==> r == CopyAction::Ignore && *final(self) == *old(self))
                },
                CopyToken::Console => r == CopyAction::Ignore && *final(self) == *old(self),
            },
    {
        match token {
            CopyToken::Stdin => {
                if self.stdin_open {
                    if hup {
                        self.stdin_open = false;
                        CopyAction::CopyStdinThenCloseIn
                    } else {
                        CopyAction::CopyStdin
                    }
                } else {
                    CopyAction::Ignore
                }
            },
            CopyToken::Stdout => {
                if self.stdout_open {
                    if hup {
                        self.stdout_open = false;
                        self.done = true;
                        CopyAction::CopyStdoutThenFinish
                    } else {
                        CopyAction::CopyStdout
                    }
                } else {
                    CopyAction::Ignore
                }
            },
            CopyToken::Stderr => {
                if self.stderr_open {
                    if hup {
                        self.stderr_open = false;
                        self.done = true;
                        CopyAction::CopyStderrThenFinish
                    } else {
                        CopyAction::CopyStderr
                    }
                } else {
                    CopyAction::Ignore
                }
            },
            CopyToken::Console => CopyAction::Ignore,
        }
    }
}

/// The console-topology copier: stdin fifo to PTY master and PTY master to
/// stdout fifo; a hangup on the PTY terminates.
#[derive(Debug, Clone, Copy, PartialEq, Eq, Structural)]
pub struct ConsoleCopier {
    pub has_stdin: bool,
    pub done: bool,
}

impl ConsoleCopier {
    pub fn new(has_stdin: bool) -> (r: ConsoleCopier)
        ensures
            r.has_stdin == has_stdin,
            !r.done,
    {
        ConsoleCopier { has_stdin, done: false }
    }

    /// Decides one poll event of the console topology.
    pub fn on_event(&mut self, token: CopyToken, hup: bool) -> (r: CopyAction)
        ensures
            final(self).has_stdin == old(self).has_stdin,
            match token {
                CopyToken::Console => {
                    &&& (!hup ==> r == CopyAction::CopyConsole && final(self).done == old(self).done)
                    &&& (hup ==> r == CopyAction::CopyConsoleThenFinish && final(self).done)
                },
                CopyToken::Stdin => {
                    &&& final(self).done == old(self).done
                    &&& (old(self).has_stdin ==> r == CopyAction::CopyStdin)
                    &&& (!old(self).has_stdin ==> r == CopyAction::Ignore)
                },
                _ => r == CopyAction::Ignore && final(self).done == old(self).done,
            },
    {
        match token {
            CopyToken::Console => {
                if hup {
                    self.done = true;
                    CopyAction::CopyConsoleThenFinish
                } else {
                    CopyAction::CopyConsole
                }
            },
            CopyToken::Stdin => {
                if self.has_stdin {
                    CopyAction::CopyStdin
                } else {
                    CopyAction::Ignore
                }
            },
            _ => CopyAction::Ignore,
        }
    }
}

/// How one read from an endpoint ended.
pub enum ReadOutcome {
    /// `n` bytes were read.
    Read(usize),
    /// The read was interrupted by a signal.
    Interrupted,
    /// The read failed.
    Failed,
}

/// What the inner copy loop does after one read: write what was read and
/// keep going on a full buffer; write and stop on a short read (back to
/// the poll, so one noisy stream cannot starve the others); stop at end of
/// stream; retry after an interrupt; give up on a failure.
#[derive(Clone, Copy, Debug, PartialEq, Eq, Structural)]
pub enum CopyStep {
    WriteAndContinue(usize),
    WriteAndStop(usize),
    Stop,
    Retry,
    Fail,
}

pub fn copy_step(outcome: &ReadOutcome, buf_len: usize) -> (r: CopyStep)
    ensures
        match *outcome {
            ReadOutcome::Read(n) => r == if n == 0 {
                CopyStep::Stop
            } else if n < buf_len {
                CopyStep::WriteAndStop(n)
            } else {
                CopyStep::WriteAndContinue(n)
            },
            ReadOutcome::Interrupted => r == CopyStep::Retry,
            ReadOutcome::Failed => r == CopyStep::Fail,
        },
{
    match outcome {
        ReadOutcome::Read(n) => {
            if *n == 0 {
                CopyStep::Stop
            } else if *n < buf_len {
                CopyStep::WriteAndStop(*n)
            } else {
                CopyStep::WriteAndContinue(*n)
            }
        },
        ReadOutcome::Interrupted => CopyStep::Retry,
        ReadOutcome::Failed => CopyStep::Fail,
    }
}

} // verus!
