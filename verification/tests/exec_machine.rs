use wasix_core::errno::{Errno, ExitCode};
use wasix_core::exec::{
    run_exec, ExecAction, ExecEvent, RewindResult, StartOutcome, TaintReason, ThreadStatus,
};
use wasix_core::rewind::RewindState;

fn payload() -> RewindState {
    RewindState {
        memory_stack: vec![1, 2, 3],
        rewind_stack: vec![4, 5],
        store_data: vec![6],
        is_64bit: false,
    }
}

#[test]
fn simple_run_finishes_with_zero_and_recycles_once() {
    // _start returns normally: exit code 0, no taint, recycler once
    let (mut session, action) = run_exec(false, true);
    assert!(matches!(action, ExecAction::Bootstrap));
    let action = session.step(ExecEvent::BootstrapReturned { ok: true });
    assert!(matches!(action, ExecAction::CallStart));
    let action = session.step(ExecEvent::StartReturned { outcome: StartOutcome::Completed });
    match action {
        ExecAction::Finish { code, taint, diagnostic } => {
            assert_eq!(code, ExitCode { code: 0 });
            assert!(taint.is_none());
            assert!(!diagnostic);
        }
        other => panic!("expected termination, got {:?}", other),
    }
    assert_eq!(
        session.thread_status(),
        ThreadStatus::Finished { result: Ok(ExitCode { code: 0 }) }
    );
}

#[test]
fn initialize_is_called_first_when_exported() {
    let (mut session, action) = run_exec(true, true);
    assert!(matches!(action, ExecAction::CallInitialize));
    let action = session.step(ExecEvent::InitializeReturned { ok: true });
    assert!(matches!(action, ExecAction::Bootstrap));
}

#[test]
fn initialize_failure_finishes_noexec() {
    let (mut session, _) = run_exec(true, true);
    let action = session.step(ExecEvent::InitializeReturned { ok: false });
    match action {
        ExecAction::Finish { code, taint, .. } => {
            assert_eq!(code, ExitCode { code: 45 });
            assert!(taint.is_none());
        }
        other => panic!("expected termination, got {:?}", other),
    }
    assert_eq!(
        session.thread_status(),
        ThreadStatus::Finished { result: Err(ExitCode { code: 45 }) }
    );
}

#[test]
fn bootstrap_failure_finishes_noexec() {
    let (mut session, _) = run_exec(false, true);
    let action = session.step(ExecEvent::BootstrapReturned { ok: false });
    assert!(matches!(action, ExecAction::Finish { code: ExitCode { code: 45 }, .. }));
}

#[test]
fn missing_start_finishes_noexec() {
    // no _start export: exit code NOEXEC, thread finished with the error
    let (mut session, action) = run_exec(false, false);
    assert!(matches!(action, ExecAction::Bootstrap));
    let action = session.step(ExecEvent::BootstrapReturned { ok: true });
    assert!(matches!(action, ExecAction::Finish { code: ExitCode { code: 45 }, taint: None, .. }));
    assert_eq!(
        session.thread_status(),
        ThreadStatus::Finished { result: Err(ExitCode { code: 45 }) }
    );
}

#[test]
fn nonzero_exit_taints_with_its_code() {
    // _start throws Exit(7): exit code 7, taint NonZeroExitCode(7), no
    // stderr line for a coded error
    let (mut session, _) = run_exec(false, true);
    session.step(ExecEvent::BootstrapReturned { ok: true });
    let action = session.step(ExecEvent::StartReturned {
        outcome: StartOutcome::Exit { code: 7 },
    });
    match action {
        ExecAction::Finish { code, taint, diagnostic } => {
            assert_eq!(code, ExitCode { code: 7 });
            assert_eq!(taint, Some(TaintReason::NonZeroExitCode { code: 7 }));
            assert!(!diagnostic);
        }
        other => panic!("expected termination, got {:?}", other),
    }
    assert_eq!(
        session.thread_status(),
        ThreadStatus::Finished { result: Err(ExitCode { code: 7 }) }
    );
}

#[test]
fn zero_exit_and_thread_exit_are_benign() {
    let (mut session, _) = run_exec(false, true);
    session.step(ExecEvent::BootstrapReturned { ok: true });
    let action = session.step(ExecEvent::StartReturned {
        outcome: StartOutcome::Exit { code: 0 },
    });
    assert!(matches!(action, ExecAction::Finish { code: ExitCode { code: 0 }, taint: None, .. }));

    let (mut session, _) = run_exec(false, true);
    session.step(ExecEvent::BootstrapReturned { ok: true });
    let action = session.step(ExecEvent::StartReturned { outcome: StartOutcome::ThreadExit });
    assert!(matches!(action, ExecAction::Finish { code: ExitCode { code: 0 }, taint: None, .. }));
}

#[test]
fn deep_sleep_then_resume_runs_recycler_once() {
    // _start throws DeepSleep: the task returns without finishing the
    // thread; after the trigger resolves with V, the rewind is applied
    // with rewind-result V; the eventual normal exit gives code 0
    let (mut session, _) = run_exec(false, true);
    session.step(ExecEvent::BootstrapReturned { ok: true });
    let action = session.step(ExecEvent::StartReturned {
        outcome: StartOutcome::DeepSleep { rewind: payload() },
    });
    assert!(matches!(action, ExecAction::ScheduleResume));
    // suspension finishes nothing and does not recycle
    assert_eq!(session.thread_status(), ThreadStatus::Running);

    let action = session.step(ExecEvent::TriggerFired { value: vec![42, 43] });
    match action {
        ExecAction::ApplyRewind { rewind, result } => {
            assert_eq!(rewind.memory_stack, vec![1, 2, 3]);
            assert_eq!(rewind.rewind_stack, vec![4, 5]);
            assert_eq!(rewind.store_data, vec![6]);
            assert!(!rewind.is_64bit);
            match result {
                RewindResult::Value { bytes } => assert_eq!(bytes, vec![42, 43]),
                RewindResult::Empty => panic!("a resumption delivers the trigger's value"),
            }
        }
        other => panic!("expected a rewind, got {:?}", other),
    }
    assert_eq!(session.thread_status(), ThreadStatus::Running);

    let action = session.step(ExecEvent::RewindApplied { errno: Errno::Success });
    assert!(matches!(action, ExecAction::CallStart));

    let action = session.step(ExecEvent::StartReturned { outcome: StartOutcome::Completed });
    assert!(matches!(action, ExecAction::Finish { code: ExitCode { code: 0 }, taint: None, .. }));
    assert_eq!(
        session.thread_status(),
        ThreadStatus::Finished { result: Ok(ExitCode { code: 0 }) }
    );
}

#[test]
fn rewind_failure_finishes_with_its_errno() {
    let (mut session, _) = run_exec(false, true);
    session.step(ExecEvent::BootstrapReturned { ok: true });
    session.step(ExecEvent::StartReturned {
        outcome: StartOutcome::DeepSleep { rewind: payload() },
    });
    session.step(ExecEvent::TriggerFired { value: Vec::new() });
    let action = session.step(ExecEvent::RewindApplied { errno: Errno::Inval });
    assert!(matches!(action, ExecAction::Finish { code: ExitCode { code: 28 }, taint: None, .. }));
    assert_eq!(
        session.thread_status(),
        ThreadStatus::Finished { result: Err(ExitCode { code: 28 }) }
    );
}

#[test]
fn failed_resume_scheduling_leaves_thread_unfinished() {
    let (mut session, _) = run_exec(false, true);
    session.step(ExecEvent::BootstrapReturned { ok: true });
    session.step(ExecEvent::StartReturned {
        outcome: StartOutcome::DeepSleep { rewind: payload() },
    });
    let action = session.step(ExecEvent::ResumeScheduleFailed);
    assert!(matches!(action, ExecAction::Halt));
    // the guest is left as if it had exited, without a Finished transition
    assert_eq!(session.thread_status(), ThreadStatus::Running);
}

#[test]
fn unknown_wasi_version_taints_and_exits_noexec() {
    let (mut session, _) = run_exec(false, true);
    session.step(ExecEvent::BootstrapReturned { ok: true });
    let action = session.step(ExecEvent::StartReturned {
        outcome: StartOutcome::UnknownWasiVersion,
    });
    match action {
        ExecAction::Finish { code, taint, diagnostic } => {
            assert_eq!(code, ExitCode { code: 45 });
            assert_eq!(taint, Some(TaintReason::UnknownWasiVersion));
            assert!(!diagnostic);
        }
        other => panic!("expected termination, got {:?}", other),
    }
}

#[test]
fn runtime_error_with_code_uses_it() {
    let (mut session, _) = run_exec(false, true);
    session.step(ExecEvent::BootstrapReturned { ok: true });
    let action = session.step(ExecEvent::StartReturned {
        outcome: StartOutcome::RuntimeError { exit_code: Some(70) },
    });
    match action {
        ExecAction::Finish { code, taint, diagnostic } => {
            assert_eq!(code, ExitCode { code: 70 });
            assert_eq!(taint, Some(TaintReason::RuntimeError));
            assert!(!diagnostic);
        }
        other => panic!("expected termination, got {:?}", other),
    }
}

#[test]
fn uncoded_runtime_error_is_noexec_with_diagnostic() {
    let (mut session, _) = run_exec(false, true);
    session.step(ExecEvent::BootstrapReturned { ok: true });
    let action = session.step(ExecEvent::StartReturned {
        outcome: StartOutcome::RuntimeError { exit_code: None },
    });
    match action {
        ExecAction::Finish { code, taint, diagnostic } => {
            assert_eq!(code, ExitCode { code: 45 });
            assert_eq!(taint, Some(TaintReason::RuntimeError));
            assert!(diagnostic);
        }
        other => panic!("expected termination, got {:?}", other),
    }
    assert_eq!(
        session.thread_status(),
        ThreadStatus::Finished { result: Err(ExitCode { code: 45 }) }
    );
}
