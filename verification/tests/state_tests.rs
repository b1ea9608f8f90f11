use rshim::errors::{Code, ShimError, Status, ttrpc_error};
use rshim::state::{
    Created, CreatedCheckpoint, Delete, ExecCreated, ExecRunning, ExecState, ExecStopped,
    InitState, Pause, Paused, Running, Start, Stop, Stopped, TransitionEvent,
};

#[test]
fn init_allowed_transitions() {
    assert_eq!(
        InitState::Created.step(TransitionEvent::Start),
        Some(InitState::Running)
    );
    assert_eq!(
        InitState::Created.step(TransitionEvent::Stop),
        Some(InitState::Stopped)
    );
    assert_eq!(
        InitState::Created.step(TransitionEvent::Delete),
        Some(InitState::Deleted)
    );
    assert_eq!(
        InitState::CreatedCheckpoint.step(TransitionEvent::Start),
        Some(InitState::Running)
    );
    assert_eq!(
        InitState::Running.step(TransitionEvent::Stop),
        Some(InitState::Stopped)
    );
    assert_eq!(
        InitState::Running.step(TransitionEvent::Pause),
        Some(InitState::Paused)
    );
    assert_eq!(
        InitState::Paused.step(TransitionEvent::Start),
        Some(InitState::Running)
    );
    assert_eq!(
        InitState::Paused.step(TransitionEvent::Stop),
        Some(InitState::Stopped)
    );
    assert_eq!(
        InitState::Stopped.step(TransitionEvent::Delete),
        Some(InitState::Deleted)
    );
}

#[test]
fn init_rejected_transitions() {
    assert_eq!(InitState::Running.step(TransitionEvent::Start), None);
    assert_eq!(InitState::Running.step(TransitionEvent::Delete), None);
    assert_eq!(InitState::Paused.step(TransitionEvent::Pause), None);
    assert_eq!(InitState::Paused.step(TransitionEvent::Delete), None);
    assert_eq!(InitState::Stopped.step(TransitionEvent::Start), None);
    assert_eq!(InitState::Stopped.step(TransitionEvent::Stop), None);
    assert_eq!(InitState::Deleted.step(TransitionEvent::Start), None);
    assert_eq!(InitState::Deleted.step(TransitionEvent::Stop), None);
    assert_eq!(InitState::Deleted.step(TransitionEvent::Delete), None);
    assert_eq!(InitState::Created.step(TransitionEvent::Pause), None);
}

#[test]
fn exec_transitions() {
    assert_eq!(
        ExecState::ExecCreated.step(TransitionEvent::Start),
        Some(ExecState::ExecRunning)
    );
    assert_eq!(
        ExecState::ExecCreated.step(TransitionEvent::Stop),
        Some(ExecState::ExecStopped)
    );
    assert_eq!(
        ExecState::ExecCreated.step(TransitionEvent::Delete),
        Some(ExecState::ExecDeleted)
    );
    assert_eq!(
        ExecState::ExecRunning.step(TransitionEvent::Stop),
        Some(ExecState::ExecStopped)
    );
    assert_eq!(
        ExecState::ExecStopped.step(TransitionEvent::Delete),
        Some(ExecState::ExecDeleted)
    );
    assert_eq!(ExecState::ExecRunning.step(TransitionEvent::Start), None);
    assert_eq!(ExecState::ExecRunning.step(TransitionEvent::Delete), None);
    assert_eq!(ExecState::ExecDeleted.step(TransitionEvent::Stop), None);
}

#[test]
fn typed_state_steps() {
    let _running: Running = Created.on_start(Start);
    let _stopped: Stopped = Created.on_stop(Stop);
    let _deleted = Created.on_delete(Delete);
    let _running2 = CreatedCheckpoint.on_start(Start);
    let _paused: Paused = Running.on_pause(Pause);
    let _running3 = Paused.on_start(Start);
    let _stopped2 = Running.on_stop(Stop);
    let _deleted2 = Stopped.on_delete(Delete);
    let _er: ExecRunning = ExecCreated.on_start(Start);
    let _es = ExecRunning.on_stop(Stop);
    let _ed = ExecStopped.on_delete(Delete);
}

#[test]
fn shim_errors_surface_as_statuses() {
    let e = ShimError::Rpc(ttrpc_error(Code::NotFound, "gone".to_string()));
    assert_eq!(e.code(), Code::NotFound);
    let s: Status = e.to_status();
    assert_eq!(s.code, Code::NotFound);
    assert_eq!(s.message, "gone");
    let e = ShimError::Internal("broken".to_string());
    assert_eq!(e.code(), Code::Internal);
    let s = e.to_status();
    assert_eq!(s.code, Code::Internal);
    assert_eq!(s.message, "broken");
}
