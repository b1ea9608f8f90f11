//! Lifecycle state machines for the init process of a container and for
//! secondary exec processes. Transitions outside the tables below are
//! programming errors; callers test with [`init_table`] / [`exec_table`]
//! before stepping.

use vstd::prelude::*;
use vstd::string::StringExecFns;

verus! {

/// Event: start a created or paused process.
#[derive(Clone, Copy, Debug, PartialEq, Eq, Structural)]
pub struct Start;

/// Event: the process stopped (exited or was stopped).
#[derive(Clone, Copy, Debug, PartialEq, Eq, Structural)]
pub struct Stop;

/// Event: delete the process object.
#[derive(Clone, Copy, Debug, PartialEq, Eq, Structural)]
pub struct Delete;

/// Event: pause a running process.
#[derive(Clone, Copy, Debug, PartialEq, Eq, Structural)]
pub struct Pause;

/// The states of an init process.
#[derive(Clone, Copy, Debug, PartialEq, Eq, Structural)]
pub enum InitState {
    Created,
    CreatedCheckpoint,
    Running,
    Paused,
    Stopped,
    Deleted,
}

/// The states of an exec process.
#[derive(Clone, Copy, Debug, PartialEq, Eq, Structural)]
pub enum ExecState {
    ExecCreated,
    ExecRunning,
    ExecStopped,
    ExecDeleted,
}

/// The events the two machines step on.
#[derive(Clone, Copy, Debug, PartialEq, Eq, Structural)]
pub enum TransitionEvent {
    Start,
    Stop,
    Delete,
    Pause,
}

/// The transition table of the init machine: `Some(next)` for the allowed
/// transitions, `None` everywhere else.
pub open spec fn init_table(s: InitState, e: TransitionEvent) -> Option<InitState> {
    match (s, e) {
        (InitState::Created, TransitionEvent::Start) => Some(InitState::Running),
        (InitState::Created, TransitionEvent::Stop) => Some(InitState::Stopped),
        (InitState::Created, TransitionEvent::Delete) => Some(InitState::Deleted),
        (InitState::CreatedCheckpoint, TransitionEvent::Start) => Some(InitState::Running),
        (InitState::CreatedCheckpoint, TransitionEvent::Stop) => Some(InitState::Stopped),
        (InitState::CreatedCheckpoint, TransitionEvent::Delete) => Some(InitState::Deleted),
        (InitState::Running, TransitionEvent::Stop) => Some(InitState::Stopped),
        (InitState::Running, TransitionEvent::Pause) => Some(InitState::Paused),
        (InitState::Paused, TransitionEvent::Start) => Some(InitState::Running),
        (InitState::Paused, TransitionEvent::Stop) => Some(InitState::Stopped),
        (InitState::Stopped, TransitionEvent::Delete) => Some(InitState::Deleted),
        _ => None,
    }
}

/// The transition table of the exec machine.
pub open spec fn exec_table(s: ExecState, e: TransitionEvent) -> Option<ExecState> {
    match (s, e) {
        (ExecState::ExecCreated, TransitionEvent::Start) => Some(ExecState::ExecRunning),
        (ExecState::ExecCreated, TransitionEvent::Stop) => Some(ExecState::ExecStopped),
        (ExecState::ExecCreated, TransitionEvent::Delete) => Some(ExecState::ExecDeleted),
        (ExecState::ExecRunning, TransitionEvent::Stop) => Some(ExecState::ExecStopped),
        (ExecState::ExecStopped, TransitionEvent::Delete) => Some(ExecState::ExecDeleted),
        _ => None,
    }
}

impl InitState {
    /// Steps the machine by one event, if the table allows it.
    pub fn step(self, e: TransitionEvent) -> (r: Option<InitState>)
        ensures
            r == init_table(self, e),
    {
        match (self, e) {
            (InitState::Created, TransitionEvent::Start) => Some(InitState::Running),
            (InitState::Created, TransitionEvent::Stop) => Some(InitState::Stopped),
            (InitState::Created, TransitionEvent::Delete) => Some(InitState::Deleted),
            (InitState::CreatedCheckpoint, TransitionEvent::Start) => Some(InitState::Running),
            (InitState::CreatedCheckpoint, TransitionEvent::Stop) => Some(InitState::Stopped),
            (InitState::CreatedCheckpoint, TransitionEvent::Delete) => Some(InitState::Deleted),
            (InitState::Running, TransitionEvent::Stop) => Some(InitState::Stopped),
            (InitState::Running, TransitionEvent::Pause) => Some(InitState::Paused),
            (InitState::Paused, TransitionEvent::Start) => Some(InitState::Running),
            (InitState::Paused, TransitionEvent::Stop) => Some(InitState::Stopped),
            (InitState::Stopped, TransitionEvent::Delete) => Some(InitState::Deleted),
            _ => None,
        }
    }
}

impl ExecState {
    /// Steps the machine by one event, if the table allows it.
    pub fn step(self, e: TransitionEvent) -> (r: Option<ExecState>)
        ensures
            r == exec_table(self, e),
    {
        match (self, e) {
            (ExecState::ExecCreated, TransitionEvent::Start) => Some(ExecState::ExecRunning),
            (ExecState::ExecCreated, TransitionEvent::Stop) => Some(ExecState::ExecStopped),
            (ExecState::ExecCreated, TransitionEvent::Delete) => Some(ExecState::ExecDeleted),
            (ExecState::ExecRunning, TransitionEvent::Stop) => Some(ExecState::ExecStopped),
            (ExecState::ExecStopped, TransitionEvent::Delete) => Some(ExecState::ExecDeleted),
            _ => None,
        }
    }
}

/// Deleted is terminal in both machines: no event steps out of it, so a
/// deleted process object can never come back to life.
pub proof fn lemma_deleted_is_terminal()
    ensures
        forall|e: TransitionEvent| init_table(InitState::Deleted, e) is None,
        forall|e: TransitionEvent| exec_table(ExecState::ExecDeleted, e) is None,
{
}

/// The typed per-state transition views of the init machine: each state is a
/// unit marker with exactly the steps the table allows.
#[derive(Clone, Copy, Debug, PartialEq, Eq, Structural)]
pub struct Created;

#[derive(Clone, Copy, Debug, PartialEq, Eq, Structural)]
pub struct CreatedCheckpoint;

#[derive(Clone, Copy, Debug, PartialEq, Eq, Structural)]
pub struct Running;

#[derive(Clone, Copy, Debug, PartialEq, Eq, Structural)]
pub struct Paused;

#[derive(Clone, Copy, Debug, PartialEq, Eq, Structural)]
pub struct Stopped;

#[derive(Clone, Copy, Debug, PartialEq, Eq, Structural)]
pub struct Deleted;

#[derive(Clone, Copy, Debug, PartialEq, Eq, Structural)]
pub struct ExecCreated;

#[derive(Clone, Copy, Debug, PartialEq, Eq, Structural)]
pub struct ExecRunning;

#[derive(Clone, Copy, Debug, PartialEq, Eq, Structural)]
pub struct ExecStopped;

#[derive(Clone, Copy, Debug, PartialEq, Eq, Structural)]
pub struct ExecDeleted;

impl Created {
    pub fn on_start(self, _e: Start) -> Running {
        Running
    }

    pub fn on_stop(self, _e: Stop) -> Stopped {
        Stopped
    }

    pub fn on_delete(self, _e: Delete) -> Deleted {
        Deleted
    }
}

impl CreatedCheckpoint {
    pub fn on_start(self, _e: Start) -> Running {
        Running
    }

    pub fn on_stop(self, _e: Stop) -> Stopped {
        Stopped
    }

    pub fn on_delete(self, _e: Delete) -> Deleted {
        Deleted
    }
}

impl Running {
    pub fn on_stop(self, _e: Stop) -> Stopped {
        Stopped
    }

    pub fn on_pause(self, _e: Pause) -> Paused {
        Paused
    }
}

impl Paused {
    pub fn on_start(self, _e: Start) -> Running {
        Running
    }

    pub fn on_stop(self, _e: Stop) -> Stopped {
        Stopped
    }
}

impl Stopped {
    pub fn on_delete(self, _e: Delete) -> Deleted {
        Deleted
    }
}

impl ExecCreated {
    pub fn on_start(self, _e: Start) -> ExecRunning {
        ExecRunning
    }

    pub fn on_stop(self, _e: Stop) -> ExecStopped {
        ExecStopped
    }

    pub fn on_delete(self, _e: Delete) -> ExecDeleted {
        ExecDeleted
    }
}

impl ExecRunning {
    pub fn on_stop(self, _e: Stop) -> ExecStopped {
        ExecStopped
    }
}

impl ExecStopped {
    pub fn on_delete(self, _e: Delete) -> ExecDeleted {
        ExecDeleted
    }
}


/// The printable name of an init state, as error messages carry it.
pub open spec fn init_state_label(s: InitState) -> Seq<char> {
    match s {
        InitState::Created => "Created"@,
        InitState::CreatedCheckpoint => "CreatedCheckpoint"@,
        InitState::Running => "Running"@,
        InitState::Paused => "Paused"@,
        InitState::Stopped => "Stopped"@,
        InitState::Deleted => "Deleted"@,
    }
}

/// The printable name of an init state.
pub fn init_state_text(s: InitState) -> (r: String)
    ensures
        r@ == init_state_label(s),
{
    match s {
        InitState::Created => String::from_str("Created"),
        InitState::CreatedCheckpoint => String::from_str("CreatedCheckpoint"),
        InitState::Running => String::from_str("Running"),
        InitState::Paused => String::from_str("Paused"),
        InitState::Stopped => String::from_str("Stopped"),
        InitState::Deleted => String::from_str("Deleted"),
    }
}

/// The printable name of an exec state, as error messages carry it.
pub open spec fn exec_state_label(s: ExecState) -> Seq<char> {
    match s {
        ExecState::ExecCreated => "ExecCreated"@,
        ExecState::ExecRunning => "ExecRunning"@,
        ExecState::ExecStopped => "ExecStopped"@,
        ExecState::ExecDeleted => "ExecDeleted"@,
    }
}

/// The printable name of an exec state.
pub fn exec_state_text(s: ExecState) -> (r: String)
    ensures
        r@ == exec_state_label(s),
{
    match s {
        ExecState::ExecCreated => String::from_str("ExecCreated"),
        ExecState::ExecRunning => String::from_str("ExecRunning"),
        ExecState::ExecStopped => String::from_str("ExecStopped"),
        ExecState::ExecDeleted => String::from_str("ExecDeleted"),
    }
}

/// The message of a refused lifecycle operation: it names the attempted
/// verb and the state the process is in.
pub open spec fn cannot_label(verb: Seq<char>, state_label: Seq<char>) -> Seq<char> {
    "cannot "@ + verb + " a "@ + state_label + " process"@
}

/// Builds the message of a refused lifecycle operation.
pub fn cannot_text(verb: &str, state_label: String) -> (r: String)
    ensures
        r@ == cannot_label(verb@, state_label@),
{
    let mut r = String::from_str("cannot ");
    r.append(verb);
    r.append(" a ");
    r.append(state_label.as_str());
    r.append(" process");
    r
}

} // verus!
