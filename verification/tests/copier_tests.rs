use rshim::copier::{
    copy_step, ConsoleCopier, CopyAction, CopyStep, CopyToken, PipeCopier, ReadOutcome,
    BUFFER_SIZE,
};

#[test]
fn stdout_hup_terminates_the_pipe_copier() {
    let mut c = PipeCopier::new(true);
    assert_eq!(c.on_event(CopyToken::Stdout, false), CopyAction::CopyStdout);
    assert!(!c.done);
    assert_eq!(c.on_event(CopyToken::Stdout, true), CopyAction::CopyStdoutThenFinish);
    assert!(c.done);
    assert!(!c.stdout_open);
    // further stdout events are ignored
    assert_eq!(c.on_event(CopyToken::Stdout, false), CopyAction::Ignore);
}

#[test]
fn stderr_hup_terminates_the_pipe_copier() {
    let mut c = PipeCopier::new(false);
    assert_eq!(c.on_event(CopyToken::Stderr, true), CopyAction::CopyStderrThenFinish);
    assert!(c.done);
}

#[test]
fn stdin_hup_closes_only_the_container_side() {
    let mut c = PipeCopier::new(true);
    assert_eq!(c.on_event(CopyToken::Stdin, false), CopyAction::CopyStdin);
    assert_eq!(c.on_event(CopyToken::Stdin, true), CopyAction::CopyStdinThenCloseIn);
    assert!(!c.done, "stdin hangup does not terminate the copier");
    assert!(c.stdout_open && c.stderr_open);
    assert_eq!(c.on_event(CopyToken::Stdin, false), CopyAction::Ignore);
    // an unwired stdin never copies
    let mut c = PipeCopier::new(false);
    assert_eq!(c.on_event(CopyToken::Stdin, false), CopyAction::Ignore);
}

#[test]
fn console_copier_events() {
    let mut c = ConsoleCopier::new(true);
    assert_eq!(c.on_event(CopyToken::Console, false), CopyAction::CopyConsole);
    assert_eq!(c.on_event(CopyToken::Stdin, false), CopyAction::CopyStdin);
    assert!(!c.done);
    assert_eq!(c.on_event(CopyToken::Console, true), CopyAction::CopyConsoleThenFinish);
    assert!(c.done);
}

#[test]
fn copy_step_policy() {
    assert_eq!(copy_step(&ReadOutcome::Read(0), BUFFER_SIZE), CopyStep::Stop);
    assert_eq!(
        copy_step(&ReadOutcome::Read(100), BUFFER_SIZE),
        CopyStep::WriteAndStop(100),
        "a short read goes back to the poll so nothing is starved"
    );
    assert_eq!(
        copy_step(&ReadOutcome::Read(BUFFER_SIZE), BUFFER_SIZE),
        CopyStep::WriteAndContinue(BUFFER_SIZE)
    );
    assert_eq!(copy_step(&ReadOutcome::Interrupted, BUFFER_SIZE), CopyStep::Retry);
    assert_eq!(copy_step(&ReadOutcome::Failed, BUFFER_SIZE), CopyStep::Fail);
}
