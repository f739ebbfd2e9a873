//! The child-process lifetime guard.
//!
//! A [`ChildProcess`] owns a pid. Releasing it signals the child with SIGTERM,
//! polls for the exit, and escalates to SIGKILL when the child does not leave
//! within the drop window. The classification of every kernel answer — which
//! wait statuses count as reaped, which errnos mean the child is already gone,
//! when escalation happens — is verified; the signal, wait and clock calls are
//! trusted wrappers.

use vstd::prelude::*;

use nix::sys::wait::waitpid;
use nix::sys::wait::WaitPidFlag as WPF;
use nix::sys::wait::WaitStatus as WS;
use nix::unistd::Pid;

verus! {

/// The errno that says the caller has no such child left to wait for.
pub const ECHILD: i32 = 10;

/// The errno that says the signalled process does not exist.
pub const ESRCH: i32 = 3;

/// How long a dropped child may take to leave after SIGTERM, in milliseconds.
pub const CHILD_DROP_WAIT_MILLIS: u64 = 4500;

/// How long a dropped child may take to leave after SIGKILL, in milliseconds.
pub const CHILD_KILL_WAIT_MILLIS: u64 = 500;

/// How long the guard sleeps between two polls, in milliseconds.
pub const POLL_INTERVAL_MILLIS: u64 = 15;

/// What one non-blocking wait on a pid reported.
#[derive(Debug, Clone, Copy, PartialEq, Eq, Structural)]
pub enum WaitOutcome {
    /// The process exited with the given code.
    Exited { pid: i32, status: i32 },
    /// The process was killed by the given signal.
    Signaled { pid: i32, signal: i32, core_dumped: bool },
    /// The process was stopped by the given signal.
    Stopped { pid: i32, signal: i32 },
    /// The traced process was stopped by a ptrace event.
    PtraceEvent,
    /// The traced process was stopped entering a system call.
    PtraceSyscall,
    /// The process was resumed.
    Continued,
    /// The process has not changed state.
    StillAlive,
    /// The wait itself failed with this errno.
    Failed { errno: i32 },
}

/// What a poll means for the guard.
#[derive(Debug, Clone, Copy, PartialEq, Eq, Structural)]
pub enum PollResult {
    /// The child is gone: it exited, was signalled or stopped, or the kernel
    /// no longer knows it as our child.
    Reaped,
    /// The child still runs.
    StillRunning,
    /// The poll failed with this errno.
    Error { errno: i32 },
}

/// The signals the guard sends.
#[derive(Debug, Clone, Copy, PartialEq, Eq, Structural)]
pub enum TermSignal {
    /// SIGTERM: ask the child to leave.
    Term,
    /// SIGKILL: make it leave.
    Kill,
}

/// How the guard reads a wait outcome: exited, signalled and stopped children
/// count as reaped, as does `ECHILD`; ptrace stops, a resume and no change
/// count as still running.
pub open spec fn spec_classify_wait(w: WaitOutcome) -> PollResult {
    match w {
        WaitOutcome::Exited { .. } => PollResult::Reaped,
        WaitOutcome::Signaled { .. } => PollResult::Reaped,
        WaitOutcome::Stopped { .. } => PollResult::Reaped,
        WaitOutcome::PtraceEvent => PollResult::StillRunning,
        WaitOutcome::PtraceSyscall => PollResult::StillRunning,
        WaitOutcome::Continued => PollResult::StillRunning,
        WaitOutcome::StillAlive => PollResult::StillRunning,
        WaitOutcome::Failed { errno } => if errno == ECHILD {
            PollResult::Reaped
        } else {
            PollResult::Error { errno }
        },
    }
}

/// How the guard reads the answer to a signal it sent: `ESRCH` means the
/// child is already gone and counts as reaped; after a delivered signal the
/// follow-up poll decides.
pub open spec fn spec_signal_outcome(kill_res: Result<(), i32>, w: WaitOutcome) -> Result<
    bool,
    i32,
> {
    match kill_res {
        Ok(()) => match spec_classify_wait(w) {
            PollResult::Reaped => Ok(true),
            PollResult::StillRunning => Ok(false),
            PollResult::Error { errno } => Err(errno),
        },
        Err(e) => if e == ESRCH {
            Ok(true)
        } else {
            Err(e)
        },
    }
}

/// Idempotence of the guard: when the child has already exited, the guard's
/// first step already reports it reaped and succeeds — a signal answered with
/// `ESRCH` counts as reaped, as does a poll answered with `ECHILD` — so the
/// guard returns without escalating.
pub proof fn lemma_guard_idempotent(w: WaitOutcome)
    ensures
        spec_signal_outcome(Err(ESRCH), w) == Ok::<bool, i32>(true),
        spec_signal_outcome(Ok(()), WaitOutcome::Failed { errno: ECHILD }) == Ok::<bool, i32>(
            true,
        ),
{
}

/// Classifies one wait outcome.
pub fn classify_wait(w: &WaitOutcome) -> (r: PollResult)
    ensures
        r == spec_classify_wait(*w),
{
    match w {
        WaitOutcome::Exited { .. } => PollResult::Reaped,
        WaitOutcome::Signaled { .. } => PollResult::Reaped,
        WaitOutcome::Stopped { .. } => PollResult::Reaped,
        WaitOutcome::PtraceEvent => PollResult::StillRunning,
        WaitOutcome::PtraceSyscall => PollResult::StillRunning,
        WaitOutcome::Continued => PollResult::StillRunning,
        WaitOutcome::StillAlive => PollResult::StillRunning,
        WaitOutcome::Failed { errno } => {
            if *errno == ECHILD {
                PollResult::Reaped
            } else {
                PollResult::Error { errno: *errno }
            }
        },
    }
}

/// Classifies the answer to a signal together with the follow-up poll; the
/// poll is only meaningful when the signal was delivered.
pub fn classify_signal(kill_res: Result<(), i32>, w: &WaitOutcome) -> (r: Result<bool, i32>)
    ensures
        r == spec_signal_outcome(kill_res, *w),
{
    match kill_res {
        Ok(()) => match classify_wait(w) {
            PollResult::Reaped => Ok(true),
            PollResult::StillRunning => Ok(false),
            PollResult::Error { errno } => Err(errno),
        },
        Err(e) => {
            if e == ESRCH {
                Ok(true)
            } else {
                Err(e)
            }
        },
    }
}

/// The guard's two escalation phases: after SIGTERM, and after SIGKILL.
#[derive(Debug, Clone, Copy, PartialEq, Eq, Structural)]
pub enum GuardPhase {
    /// SIGTERM was sent; the drop window is open.
    Term,
    /// SIGKILL was sent; the kill window is open.
    Kill,
}

/// What the guard does next, given one poll and the state of its window.
#[derive(Debug, Clone, Copy, PartialEq, Eq, Structural)]
pub enum GuardStep {
    /// The child is reaped: stop, successfully.
    Finished,
    /// The poll failed: stop with this errno.
    Fail { errno: i32 },
    /// Still running and the window is open: sleep one interval, poll again.
    Sleep,
    /// Still running and the SIGTERM window closed: send SIGKILL and open
    /// the kill window.
    Escalate,
    /// Still running and the SIGKILL window closed too: give up quietly.
    GiveUp,
}

/// The guard's escalation policy: a reaped child finishes, a failed poll
/// fails, and a child that still runs is waited for while its window is
/// open — once the window closes, SIGTERM escalates to SIGKILL, and SIGKILL
/// is given up on.
pub open spec fn spec_guard_step(phase: GuardPhase, poll: PollResult, window_open: bool) -> GuardStep {
    match poll {
        PollResult::Reaped => GuardStep::Finished,
        PollResult::Error { errno } => GuardStep::Fail { errno },
        PollResult::StillRunning => if window_open {
            GuardStep::Sleep
        } else if phase is Term {
            GuardStep::Escalate
        } else {
            GuardStep::GiveUp
        },
    }
}

/// Decides the guard's next move.
pub fn guard_step(phase: GuardPhase, poll: PollResult, window_open: bool) -> (r: GuardStep)
    ensures
        r == spec_guard_step(phase, poll, window_open),
{
    match poll {
        PollResult::Reaped => GuardStep::Finished,
        PollResult::Error { errno } => GuardStep::Fail { errno },
        PollResult::StillRunning => {
            if window_open {
                GuardStep::Sleep
            } else {
                match phase {
                    GuardPhase::Term => GuardStep::Escalate,
                    GuardPhase::Kill => GuardStep::GiveUp,
                }
            }
        },
    }
}

/// Which signal each phase sends: SIGTERM first, SIGKILL on escalation.
pub fn phase_signal(phase: GuardPhase) -> (r: TermSignal)
    ensures
        phase is Term ==> r == TermSignal::Term,
        phase is Kill ==> r == TermSignal::Kill,
{
    match phase {
        GuardPhase::Term => TermSignal::Term,
        GuardPhase::Kill => TermSignal::Kill,
    }
}

/// A monotonic timestamp in milliseconds, computed from a second and
/// nanosecond pair; senseless inputs are clamped instead of wrapping.
pub open spec fn spec_ms_of_timespec(sec: i64, nsec: i64) -> u64 {
    if sec < 0 {
        0u64
    } else {
        let s: i64 = if sec > 0x7fff_ffff {
            0x7fff_ffff
        } else {
            sec
        };
        let n: i64 = if nsec < 0 {
            0
        } else if nsec > 999_999_999 {
            999_999_999
        } else {
            nsec
        };
        (s * 1000 + n / 1_000_000) as u64
    }
}

/// Converts a second and nanosecond pair to milliseconds.
pub fn ms_of_timespec(sec: i64, nsec: i64) -> (r: u64)
    ensures
        r == spec_ms_of_timespec(sec, nsec),
{
    if sec < 0 {
        return 0;
    }
    let s: i64 = if sec > 0x7fff_ffff {
        0x7fff_ffff
    } else {
        sec
    };
    let n: i64 = if nsec < 0 {
        0
    } else if nsec > 999_999_999 {
        999_999_999
    } else {
        nsec
    };
    (s * 1000 + n / 1_000_000) as u64
}

/// Relies on nix::sys::signal::kill: sends SIGTERM or SIGKILL to `pid`;
/// `Err` carries the kernel's errno.
#[verifier::external_body]
fn sys_kill(pid: i32, signal: TermSignal) -> (r: Result<(), i32>) {
    let sig = match signal {
        TermSignal::Term => nix::sys::signal::Signal::SIGTERM,
        TermSignal::Kill => nix::sys::signal::Signal::SIGKILL,
    };
    nix::sys::signal::kill(nix::unistd::Pid::from_raw(pid), sig).map_err(|e| e as i32)
}

/// Relies on nix::sys::wait::waitpid with `WNOHANG | __WALL`: reports the
/// state of `pid` without blocking, one variant per kernel answer.
#[verifier::external_body]
fn sys_waitpid_nohang(pid: i32) -> (r: WaitOutcome) {
    match waitpid(Pid::from_raw(pid), Some(WPF::WNOHANG | WPF::__WALL)) {
        Ok(WS::Exited(p, status)) => WaitOutcome::Exited { pid: p.as_raw(), status },
        Ok(WS::Signaled(p, s, c)) => WaitOutcome::Signaled { pid: p.as_raw(), signal: s as i32, core_dumped: c },
        Ok(WS::Stopped(p, s)) => WaitOutcome::Stopped { pid: p.as_raw(), signal: s as i32 },
        Ok(WS::PtraceEvent(_, _, _)) => WaitOutcome::PtraceEvent,
        Ok(WS::PtraceSyscall(_)) => WaitOutcome::PtraceSyscall,
        Ok(WS::Continued(_)) => WaitOutcome::Continued,
        Ok(WS::StillAlive) => WaitOutcome::StillAlive,
        Err(e) => WaitOutcome::Failed { errno: e as i32 },
    }
}

/// Relies on nix::time::clock_gettime(CLOCK_MONOTONIC): the monotonic clock
/// as a second and nanosecond pair; a failed read reports zero.
#[verifier::external_body]
fn sys_monotonic() -> (r: (i64, i64)) {
    match nix::time::clock_gettime(nix::time::ClockId::CLOCK_MONOTONIC) {
        Ok(ts) => (ts.tv_sec(), ts.tv_nsec()),
        Err(_) => (0, 0),
    }
}

/// Relies on nix::poll::poll with no descriptors: sleeps for the given
/// timeout in milliseconds.
#[verifier::external_body]
fn sys_poll_sleep(millis: i32) {
    let mut fds: [nix::poll::PollFd; 0] = [];
    let _ = nix::poll::poll(&mut fds, millis);
}

/// The monotonic clock in milliseconds.
fn monotonic_now_ms() -> u64 {
    let (sec, nsec) = sys_monotonic();
    ms_of_timespec(sec, nsec)
}

/// Sends `sig` to `pid` and classifies the answer together with one poll.
fn signal_and_poll(pid: i32, sig: TermSignal) -> Result<bool, i32> {
    let kill_res = sys_kill(pid, sig);
    let w = match kill_res {
        Ok(()) => sys_waitpid_nohang(pid),
        Err(_) => WaitOutcome::StillAlive,
    };
    classify_signal(kill_res, &w)
}

/// The moment `window_millis` from now runs out, on the monotonic clock.
fn window_deadline(window_millis: u64) -> (r: u64) {
    let now = monotonic_now_ms();
    if now > u64::MAX - window_millis {
        u64::MAX
    } else {
        now + window_millis
    }
}

/// Exclusive ownership of a child pid. At most one live guard holds a pid;
/// releasing the guard signals and reaps the child, and [`forget`] gives the
/// pid up without signalling.
///
/// [`forget`]: ChildProcess::forget
#[derive(Debug)]
pub struct ChildProcess {
    pid: Option<i32>,
}

impl View for ChildProcess {
    type V = Option<i32>;

    closed spec fn view(&self) -> Option<i32> {
        self.pid
    }
}

impl ChildProcess {
    /// A guard over a freshly created child.
    pub fn new(pid: i32) -> (r: Self)
        ensures
            r@ == Some(pid),
    {
        ChildProcess { pid: Some(pid) }
    }

    /// The held pid, without giving it up.
    pub fn inner(&self) -> (r: i32)
        requires
            self@ is Some,
        ensures
            self@ == Some(r),
    {
        match self.pid {
            Some(p) => p,
            None => unreached(),
        }
    }

    /// Takes the pid out; the guard is empty afterwards.
    pub fn take(&mut self) -> (r: Option<i32>)
        ensures
            r == old(self)@,
            final(self)@ is None,
    {
        let r = self.pid;
        self.pid = None;
        r
    }

    /// Gives the pid up without signalling the child.
    pub fn forget(self) -> (r: i32)
        requires
            self@ is Some,
        ensures
            self@ == Some(r),
    {
        match self.pid {
            Some(p) => p,
            None => unreached(),
        }
    }

    /// Releases the child with the default windows: SIGTERM, up to
    /// [`CHILD_DROP_WAIT_MILLIS`] of polling, then SIGKILL and up to
    /// [`CHILD_KILL_WAIT_MILLIS`] more.
    pub fn try_drop(&mut self) -> (r: Result<(), i32>)
        ensures
            final(self)@ is None,
            old(self)@ is None ==> r is Ok,
    {
        self.try_drop_with(CHILD_DROP_WAIT_MILLIS, CHILD_KILL_WAIT_MILLIS)
    }

    /// Releases the child along [`spec_guard_step`]'s policy: the signal of
    /// the current phase — SIGTERM first — then one poll per interval while
    /// the window is open; a closed SIGTERM window escalates to SIGKILL with
    /// the kill window, and a closed SIGKILL window is given up on quietly.
    /// A child that is already gone succeeds on the first step without
    /// escalation; an empty guard does nothing and succeeds.
    pub fn try_drop_with(&mut self, wait_millis: u64, kill_wait_millis: u64) -> (r: Result<
        (),
        i32,
    >)
        ensures
            final(self)@ is None,
            old(self)@ is None ==> r is Ok,
    {
        let pid = match self.take() {
            Some(p) => p,
            None => {
                return Ok(());
            },
        };

        let mut phase = GuardPhase::Term;
        let mut phase_rank: u64 = 1;
        match signal_and_poll(pid, phase_signal(phase)) {
            Ok(true) => {
                return Ok(());
            },
            Ok(false) => {},
            Err(e) => {
                return Err(e);
            },
        }

        let mut deadline = window_deadline(wait_millis);
        proof {
            assert(wait_millis / POLL_INTERVAL_MILLIS < u64::MAX);
        }
        let mut attempts: u64 = wait_millis / POLL_INTERVAL_MILLIS + 1;
        loop
            invariant
                self@ is None,
                old(self)@ == Some(pid),
                phase_rank == (if phase is Term {
                    1u64
                } else {
                    0u64
                }),
            decreases phase_rank, attempts,
        {
            let w = sys_waitpid_nohang(pid);
            let poll = classify_wait(&w);
            let window_open = attempts > 0 && monotonic_now_ms() < deadline;
            match guard_step(phase, poll, window_open) {
                GuardStep::Finished => {
                    return Ok(());
                },
                GuardStep::Fail { errno } => {
                    return Err(errno);
                },
                GuardStep::Sleep => {
                    sys_poll_sleep(POLL_INTERVAL_MILLIS as i32);
                    attempts = attempts - 1;
                },
                GuardStep::Escalate => {
                    phase = GuardPhase::Kill;
                    phase_rank = 0;
                    match signal_and_poll(pid, phase_signal(phase)) {
                        Ok(true) => {
                            return Ok(());
                        },
                        Ok(false) => {},
                        Err(e) => {
                            return Err(e);
                        },
                    }
                    deadline = window_deadline(kill_wait_millis);
                    proof {
                        assert(kill_wait_millis / POLL_INTERVAL_MILLIS < u64::MAX);
                    }
                    attempts = kill_wait_millis / POLL_INTERVAL_MILLIS + 1;
                },
                GuardStep::GiveUp => {
                    return Ok(());
                },
            }
        }
    }
}

/// A value that stands for a process outcome as an exit code.
///
/// The worker's OS exit status is the low byte of the reported code, by the
/// kernel's own truncation of `_exit` arguments.
pub trait IntoExitCode {
    /// The exit code this value stands for.
    spec fn spec_report(&self) -> i32;

    /// The exit code this value reports.
    fn report(&self) -> (r: i32)
        ensures
            r == self.spec_report(),
    ;
}

impl IntoExitCode for i32 {
    /// An integer stands for itself.
    open spec fn spec_report(&self) -> i32 {
        *self
    }

    fn report(&self) -> (r: i32)
        ensures
            r == self.spec_report(),
    {
        *self
    }
}

impl<T, E: IntoExitCode> IntoExitCode for Result<T, E> {
    /// Success reports zero; failure reports the error's own code.
    open spec fn spec_report(&self) -> i32 {
        match self {
            Ok(_) => 0,
            Err(e) => e.spec_report(),
        }
    }

    fn report(&self) -> (r: i32)
        ensures
            r == self.spec_report(),
    {
        match self {
            Ok(_) => 0,
            Err(e) => e.report(),
        }
    }
}

} // verus!
