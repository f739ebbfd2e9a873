//! Planning for the clone syscall.
//!
//! Cloning first tries `clone3`; when the kernel does not know it — or the
//! private test flag forces the slow path — it falls back to `clone(2)` with a
//! manually allocated child stack. The plan — the exit signal, the `clone3`
//! argument block, the fallback decision, the stack and guard-page sizes, and
//! the combined flag word — is verified here; performing the raw syscalls is
//! left to the unverified rim around the library, which follows the plan.

use vstd::prelude::*;

use crate::flags::CloneFlags;
use crate::flags::CLONE_PARENT;
use crate::flags::CLONE_TEST_FALLBACK;

verus! {

/// The signal number of `SIGCHLD`.
pub const SIGCHLD: u64 = 17;

/// The errno that says the kernel does not know the syscall.
pub const ENOSYS: i32 = 38;

/// The stack size used when no stack limit can be read: 8 MiB.
pub const DEFAULT_STACK_SIZE: u64 = 0x80_0000;

/// The page size assumed when the system's cannot be read: 4 KiB.
pub const DEFAULT_PAGE_SIZE: u64 = 0x1000;

/// `RLIM_INFINITY`: the resource-limit value that means unlimited.
pub const RLIM_INFINITY: u64 = 0xffff_ffff_ffff_ffff;

/// The kernel refused to clone; the errno it gave.
#[derive(Debug, Clone, Copy, PartialEq, Eq, Structural)]
pub struct CloneError {
    pub errno: i32,
}

/// The exit signal a clone requests: none when the child is created as a
/// sibling (`PARENT`), else `SIGCHLD` so the caller can wait on it.
pub open spec fn spec_exit_signal(flags: CloneFlags) -> u64 {
    if flags.bits & CLONE_PARENT == CLONE_PARENT {
        0
    } else {
        SIGCHLD
    }
}

/// The exit signal for a set of clone flags.
pub fn exit_signal_for(flags: CloneFlags) -> (r: u64)
    ensures
        r == spec_exit_signal(flags),
{
    if flags.contains(CloneFlags::parent()) {
        0
    } else {
        SIGCHLD
    }
}

/// The argument block of the `clone3` syscall, field for field.
#[derive(Debug, Clone, Copy, PartialEq, Eq, Structural)]
pub struct Clone3Args {
    pub flags: u64,
    pub pidfd: u64,
    pub child_tid: u64,
    pub parent_tid: u64,
    pub exit_signal: u64,
    pub stack: u64,
    pub stack_size: u64,
    pub tls: u64,
    pub set_tid: u64,
    pub set_tid_size: u64,
    pub cgroup: u64,
}

/// How a clone is attempted first.
#[derive(Debug, Clone, Copy, PartialEq, Eq, Structural)]
pub enum CloneAttempt {
    /// Try `clone3` with this argument block.
    UseClone3 { args: Clone3Args },
    /// The test flag forces the fallback path at once.
    ForceFallback,
}

/// Plans the first clone attempt: the test flag forces the fallback path;
/// otherwise `clone3` is tried with exactly the requested flag bits, the
/// computed exit signal, and every other field zero.
pub fn clone_attempt(flags: CloneFlags) -> (r: CloneAttempt)
    ensures
        flags.bits & CLONE_TEST_FALLBACK != 0 ==> r == CloneAttempt::ForceFallback,
        flags.bits & CLONE_TEST_FALLBACK == 0 ==> r == (CloneAttempt::UseClone3 {
            args: Clone3Args {
                flags: flags.bits,
                pidfd: 0,
                child_tid: 0,
                parent_tid: 0,
                exit_signal: spec_exit_signal(flags),
                stack: 0,
                stack_size: 0,
                tls: 0,
                set_tid: 0,
                set_tid_size: 0,
                cgroup: 0,
            },
        }),
{
    if flags.intersects(CloneFlags::test_fallback()) {
        CloneAttempt::ForceFallback
    } else {
        CloneAttempt::UseClone3 {
            args: Clone3Args {
                flags: flags.bits(),
                pidfd: 0,
                child_tid: 0,
                parent_tid: 0,
                exit_signal: exit_signal_for(flags),
                stack: 0,
                stack_size: 0,
                tls: 0,
                set_tid: 0,
                set_tid_size: 0,
                cgroup: 0,
            },
        }
    }
}

/// Whether a failed `clone3` is retried on the fallback path: only on
/// `ENOSYS`.
pub fn should_fall_back(errno: i32) -> (r: bool)
    ensures
        r == (errno == ENOSYS),
{
    errno == ENOSYS
}

/// A finite resource limit, or `None` for `RLIM_INFINITY`.
pub fn interpret_limit(limit: u64) -> (r: Option<u64>)
    ensures
        limit == RLIM_INFINITY ==> r is None,
        limit != RLIM_INFINITY ==> r == Some(limit),
{
    if limit == RLIM_INFINITY {
        None
    } else {
        Some(limit)
    }
}

/// What the fallback `clone(2)` path allocates and passes: an anonymous,
/// private, read/write child stack of `stack_size` bytes with the lowest
/// `guard_len` bytes protected as a guard page, and the clone flag word
/// combined with the exit signal.
#[derive(Debug, Clone, Copy, PartialEq, Eq, Structural)]
pub struct FallbackPlan {
    pub stack_size: u64,
    pub guard_len: u64,
    pub combined_flags: u64,
}

/// The page size taken from a `sysconf` answer; anything unusable falls back
/// to [`DEFAULT_PAGE_SIZE`].
pub open spec fn spec_page_size(page: Result<Option<i64>, i32>) -> u64 {
    match page {
        Ok(Some(s)) => if 0 < s {
            s as u64
        } else {
            DEFAULT_PAGE_SIZE
        },
        Ok(None) => DEFAULT_PAGE_SIZE,
        Err(_) => DEFAULT_PAGE_SIZE,
    }
}

/// The stack size taken from the `RLIMIT_STACK` soft limit; an unreadable or
/// unlimited limit falls back to [`DEFAULT_STACK_SIZE`].
pub open spec fn spec_stack_size(rlimit: Result<(u64, u64), i32>) -> u64 {
    match rlimit {
        Ok((cur, _)) => if cur == RLIM_INFINITY {
            DEFAULT_STACK_SIZE
        } else {
            cur
        },
        Err(_) => DEFAULT_STACK_SIZE,
    }
}

/// Relies on nix::unistd::sysconf(PAGE_SIZE): the system page size; `Err`
/// carries the kernel's errno.
#[verifier::external_body]
fn sys_page_size() -> (r: Result<Option<i64>, i32>) {
    nix::unistd::sysconf(nix::unistd::SysconfVar::PAGE_SIZE).map_err(|e| e as i32)
}

/// Relies on nix::sys::resource::getrlimit(RLIMIT_STACK): the soft and hard
/// stack limits; `Err` carries the kernel's errno.
#[verifier::external_body]
fn sys_stack_rlimit() -> (r: Result<(u64, u64), i32>) {
    nix::sys::resource::getrlimit(nix::sys::resource::Resource::RLIMIT_STACK).map_err(
        |e| e as i32,
    )
}

/// Builds the fallback plan from the system's answers: the guard page is one
/// page, the stack is the soft stack limit (or the default), and the flag
/// word is the requested bits without the test flag, combined with the exit
/// signal.
pub fn fallback_plan_from(
    flags: CloneFlags,
    page: Result<Option<i64>, i32>,
    rlimit: Result<(u64, u64), i32>,
) -> (r: FallbackPlan)
    ensures
        r.guard_len == spec_page_size(page),
        r.stack_size == spec_stack_size(rlimit),
        r.combined_flags == (flags.bits & !CLONE_TEST_FALLBACK) | spec_exit_signal(flags),
{
    let guard_len: u64 = match page {
        Ok(Some(s)) => if 0 < s {
            s as u64
        } else {
            DEFAULT_PAGE_SIZE
        },
        Ok(None) => DEFAULT_PAGE_SIZE,
        Err(_) => DEFAULT_PAGE_SIZE,
    };
    let stack_size: u64 = match rlimit {
        Ok((cur, _)) => match interpret_limit(cur) {
            Some(v) => v,
            None => DEFAULT_STACK_SIZE,
        },
        Err(_) => DEFAULT_STACK_SIZE,
    };
    let combined_flags = flags.difference(CloneFlags::test_fallback()).bits() | exit_signal_for(
        flags,
    );
    FallbackPlan { stack_size, guard_len, combined_flags }
}

/// Reads the page size and the stack limit and builds the fallback plan.
pub fn plan_fallback(flags: CloneFlags) -> (r: FallbackPlan)
    ensures
        r.combined_flags == (flags.bits & !CLONE_TEST_FALLBACK) | spec_exit_signal(flags),
{
    fallback_plan_from(flags, sys_page_size(), sys_stack_rlimit())
}

} // verus!
