use porkg::classify_signal;
use porkg::classify_wait;
use porkg::ms_of_timespec;
use porkg::guard_step;
use porkg::phase_signal;
use porkg::ChildProcess;
use porkg::GuardPhase;
use porkg::GuardStep;
use porkg::TermSignal;
use porkg::WorkerError;
use porkg::IntoExitCode;
use porkg::PollResult;
use porkg::WaitOutcome;

#[test]
fn classify_wait_reaped_states() {
    assert_eq!(
        classify_wait(&WaitOutcome::Exited { pid: 10, status: 0 }),
        PollResult::Reaped
    );
    assert_eq!(
        classify_wait(&WaitOutcome::Signaled { pid: 10, signal: 9, core_dumped: false }),
        PollResult::Reaped
    );
    assert_eq!(
        classify_wait(&WaitOutcome::Stopped { pid: 10, signal: 19 }),
        PollResult::Reaped
    );
    // No child left means already reaped.
    assert_eq!(
        classify_wait(&WaitOutcome::Failed { errno: 10 }),
        PollResult::Reaped
    );
}

#[test]
fn classify_wait_running_states() {
    assert_eq!(classify_wait(&WaitOutcome::StillAlive), PollResult::StillRunning);
    assert_eq!(classify_wait(&WaitOutcome::Continued), PollResult::StillRunning);
    assert_eq!(classify_wait(&WaitOutcome::PtraceEvent), PollResult::StillRunning);
    assert_eq!(classify_wait(&WaitOutcome::PtraceSyscall), PollResult::StillRunning);
    assert_eq!(
        classify_wait(&WaitOutcome::Failed { errno: 5 }),
        PollResult::Error { errno: 5 }
    );
}

#[test]
fn signal_on_gone_child_succeeds() {
    // ESRCH from the signal: the child already exited; no escalation follows.
    assert_eq!(classify_signal(Err(3), &WaitOutcome::StillAlive), Ok(true));
    // ECHILD from the follow-up poll counts the same way.
    assert_eq!(
        classify_signal(Ok(()), &WaitOutcome::Failed { errno: 10 }),
        Ok(true)
    );
    // A still-running child needs the wait loop.
    assert_eq!(classify_signal(Ok(()), &WaitOutcome::StillAlive), Ok(false));
    // Any other signalling failure is surfaced.
    assert_eq!(classify_signal(Err(1), &WaitOutcome::StillAlive), Err(1));
}

#[test]
fn timespec_to_millis() {
    assert_eq!(ms_of_timespec(0, 0), 0);
    assert_eq!(ms_of_timespec(2, 500_000_000), 2500);
    assert_eq!(ms_of_timespec(-5, 0), 0);
    assert_eq!(ms_of_timespec(1, 999_999), 1000);
}

#[test]
fn guard_handles() {
    let guard = ChildProcess::new(4321);
    assert_eq!(guard.inner(), 4321);
    assert_eq!(guard.forget(), 4321);

    let mut guard = ChildProcess::new(1234);
    assert_eq!(guard.take(), Some(1234));
    assert_eq!(guard.take(), None);
}

#[test]
fn empty_guard_drops_quietly() {
    // ChildProcess idempotence: once the pid is gone, releasing the guard
    // does nothing and succeeds.
    let mut guard = ChildProcess::new(4321);
    let _ = guard.take();
    assert_eq!(guard.try_drop(), Ok(()));
    assert_eq!(guard.try_drop(), Ok(()));
}

#[test]
fn exit_codes_pass_through() {
    let ok: Result<(), i32> = Ok(());
    assert_eq!(ok.report(), 0);
    let err: Result<(), i32> = Err(-1);
    assert_eq!(err.report(), -1);
    assert_eq!(17i32.report(), 17);
}

#[test]
fn worker_error_reports_task_code() {
    let task_failure: WorkerError<i32> = WorkerError::Task { error: 3 };
    assert_eq!(task_failure.report(), 3);
    let io_failure: WorkerError<i32> = WorkerError::Io { errno: 5 };
    assert_eq!(io_failure.report(), -1);
    let id_failure: WorkerError<i32> = WorkerError::SetId { errno: 1 };
    assert_eq!(id_failure.report(), -1);
}

#[test]
fn guard_policy_steps() {
    // A reaped child always finishes, whatever the phase or window.
    assert_eq!(
        guard_step(GuardPhase::Term, PollResult::Reaped, true),
        GuardStep::Finished
    );
    assert_eq!(
        guard_step(GuardPhase::Kill, PollResult::Reaped, false),
        GuardStep::Finished
    );
    // A failed poll surfaces its errno.
    assert_eq!(
        guard_step(GuardPhase::Term, PollResult::Error { errno: 5 }, true),
        GuardStep::Fail { errno: 5 }
    );
    // Within the window the guard keeps polling.
    assert_eq!(
        guard_step(GuardPhase::Term, PollResult::StillRunning, true),
        GuardStep::Sleep
    );
    assert_eq!(
        guard_step(GuardPhase::Kill, PollResult::StillRunning, true),
        GuardStep::Sleep
    );
    // A closed window escalates once, then gives up.
    assert_eq!(
        guard_step(GuardPhase::Term, PollResult::StillRunning, false),
        GuardStep::Escalate
    );
    assert_eq!(
        guard_step(GuardPhase::Kill, PollResult::StillRunning, false),
        GuardStep::GiveUp
    );
}

#[test]
fn phase_signals() {
    assert_eq!(phase_signal(GuardPhase::Term), TermSignal::Term);
    assert_eq!(phase_signal(GuardPhase::Kill), TermSignal::Kill);
}
