//! Mount, bind-mount, unmount and pivot-root orchestration.
//!
//! Every call sequence is fixed by a verified plan: which mount calls a bind
//! makes and with which flag words, and the exact steps of a pivot — the
//! preparation decided on the mount table, the saved descriptor, the slave
//! remount and the detach — stand in contracts, and the drivers follow the
//! plans. Each kernel call goes through a trusted wrapper around `nix`.

use vstd::prelude::*;

use vstd::string::StringSliceAdditionalSpecFns;
use vstd::utf8::encode_utf8;

use crate::buf::bytes_eq;
use crate::flags::BindFlags;
use crate::flags::MountFlags;
use crate::flags::UnmountFlags;
use crate::flags::BIND_READ_ONLY;
use crate::flags::BIND_RECURSIVE;
use crate::flags::MNT_DETACH;
use crate::flags::MS_BIND;
use crate::flags::MS_PRIVATE;
use crate::flags::MS_RDONLY;
use crate::flags::MS_REC;
use crate::flags::MS_REMOUNT;
use crate::flags::MS_SLAVE;

verus! {

/// A filesystem kind the sandbox mounts.
#[derive(Debug, Clone, Copy, PartialEq, Eq, Structural)]
pub enum MountKind {
    Proc,
    SysFs,
    TmpFs,
    DevPts,
    Overlay,
    Fuse,
}

impl MountKind {
    /// The token the kernel knows this filesystem kind by.
    pub fn as_str(&self) -> (r: &'static str)
        ensures
            *self == MountKind::Proc ==> r@ == "proc"@,
            *self == MountKind::SysFs ==> r@ == "sysfs"@,
            *self == MountKind::TmpFs ==> r@ == "tmpfs"@,
            *self == MountKind::DevPts ==> r@ == "devpts"@,
            *self == MountKind::Overlay ==> r@ == "overlay"@,
            *self == MountKind::Fuse ==> r@ == "fuse"@,
    {
        match self {
            MountKind::Proc => "proc",
            MountKind::SysFs => "sysfs",
            MountKind::TmpFs => "tmpfs",
            MountKind::DevPts => "devpts",
            MountKind::Overlay => "overlay",
            MountKind::Fuse => "fuse",
        }
    }
}

/// A device node the sandbox may populate.
#[derive(Debug, Clone, Copy, PartialEq, Eq, Structural)]
pub enum DeviceKind {
    Null,
    Zero,
    Full,
    Random,
    URandom,
    Tty,
    Ptmx,
}

/// `S_IFCHR`: the file-type bits of a character device.
pub const S_IFCHR: u64 = 0x2000;

/// The kernel's encoding of a device number from a major and minor number,
/// as glibc's `makedev` lays it out.
pub open spec fn spec_makedev(major: u64, minor: u64) -> u64 {
    ((major & 0xffff_f000) << 32) | ((major & 0xfff) << 8) | ((minor & 0xffff_ff00) << 12) | (
    minor & 0xff)
}

/// The device number for a major and minor pair.
pub fn makedev(major: u64, minor: u64) -> (r: u64)
    ensures
        r == spec_makedev(major, minor),
{
    ((major & 0xffff_f000) << 32u64) | ((major & 0xfff) << 8u64) | ((minor & 0xffff_ff00)
        << 12u64) | (minor & 0xff)
}

impl DeviceKind {
    /// Every supported device is a character device.
    pub fn file_type_bits(&self) -> (r: u64)
        ensures
            r == S_IFCHR,
    {
        S_IFCHR
    }

    /// The fixed device number of this device node.
    pub fn device_number(&self) -> (r: u64)
        ensures
            *self == DeviceKind::Null ==> r == spec_makedev(1, 3),
            *self == DeviceKind::Zero ==> r == spec_makedev(1, 5),
            *self == DeviceKind::Full ==> r == spec_makedev(1, 7),
            *self == DeviceKind::Random ==> r == spec_makedev(1, 8),
            *self == DeviceKind::URandom ==> r == spec_makedev(1, 9),
            *self == DeviceKind::Tty ==> r == spec_makedev(5, 0),
            *self == DeviceKind::Ptmx ==> r == spec_makedev(5, 2),
    {
        match self {
            DeviceKind::Null => makedev(1, 3),
            DeviceKind::Zero => makedev(1, 5),
            DeviceKind::Full => makedev(1, 7),
            DeviceKind::Random => makedev(1, 8),
            DeviceKind::URandom => makedev(1, 9),
            DeviceKind::Tty => makedev(5, 0),
            DeviceKind::Ptmx => makedev(5, 2),
        }
    }
}

/// A mount failed: the target path and the kernel's errno.
#[derive(Debug, Clone, PartialEq, Eq)]
pub struct MountError {
    pub path: String,
    pub errno: i32,
}

/// A bind mount failed: the target path and the kernel's errno.
#[derive(Debug, Clone, PartialEq, Eq)]
pub struct BindError {
    pub path: String,
    pub errno: i32,
}

/// An unmount failed: the target path and the kernel's errno.
#[derive(Debug, Clone, PartialEq, Eq)]
pub struct UnmountError {
    pub path: String,
    pub errno: i32,
}

/// A pivot to a new root failed: the new root path and the kernel's errno.
#[derive(Debug, Clone, PartialEq, Eq)]
pub struct PivotError {
    pub path: String,
    pub errno: i32,
}

/// Relies on nix::mount::mount: the mount(2) syscall with the given flag
/// bits; `Err` carries the kernel's errno.
#[verifier::external_body]
fn sys_mount(
    source: Option<&str>,
    target: &str,
    fstype: Option<&str>,
    flags: u64,
    data: Option<&str>,
) -> (r: Result<(), i32>) {
    nix::mount::mount(
        source,
        target,
        fstype,
        nix::mount::MsFlags::from_bits_truncate(flags),
        data,
    )
        .map_err(|e| e as i32)
}

/// Relies on nix::mount::umount2: the umount2(2) syscall with the given flag
/// bits; `Err` carries the kernel's errno.
#[verifier::external_body]
fn sys_umount2(target: &str, flags: u64) -> (r: Result<(), i32>) {
    nix::mount::umount2(target, nix::mount::MntFlags::from_bits_truncate(flags as i32))
        .map_err(|e| e as i32)
}

/// Relies on nix::unistd::pivot_root: the pivot_root(2) syscall; `Err`
/// carries the kernel's errno.
#[verifier::external_body]
fn sys_pivot_root(new_root: &str, put_old: &str) -> (r: Result<(), i32>) {
    nix::unistd::pivot_root(new_root, put_old).map_err(|e| e as i32)
}

/// Relies on nix::fcntl::open: opens a directory read-only
/// (`O_DIRECTORY | O_RDONLY`) and returns the raw descriptor; `Err` carries
/// the kernel's errno.
#[verifier::external_body]
fn sys_open_dir(path: &str) -> (r: Result<i32, i32>) {
    nix::fcntl::open(
        path,
        nix::fcntl::OFlag::O_DIRECTORY | nix::fcntl::OFlag::O_RDONLY,
        nix::sys::stat::Mode::empty(),
    )
        .map_err(|e| e as i32)
}

/// Relies on nix::unistd::fchdir: changes the working directory to the
/// directory behind the raw descriptor; `Err` carries the kernel's errno.
#[verifier::external_body]
fn sys_fchdir(fd: i32) -> (r: Result<(), i32>) {
    nix::unistd::fchdir(fd).map_err(|e| e as i32)
}

/// Relies on nix::unistd::close: closes the raw descriptor.
#[verifier::external_body]
fn sys_close(fd: i32) {
    let _ = nix::unistd::close(fd);
}

/// One row of the mount table, as the pivot decision reads it: where the
/// mount sits and whether it is shared.
#[derive(Debug, Clone, PartialEq, Eq)]
pub struct MountEntry {
    pub mount_point: String,
    pub shared: bool,
}

/// Relies on procfs::process::Process::mountinfo, which parses
/// `/proc/self/mountinfo`: the current process's mount table as one
/// (mount point, shared?) row per mount, `None` when the table cannot be
/// read. A mount point that is not UTF-8 is carried lossily.
#[verifier::external_body]
fn sys_mount_table() -> (r: Option<Vec<MountEntry>>) {
    let myself = procfs::process::Process::myself().ok()?;
    let table = myself.mountinfo().ok()?;
    Some(table.into_iter().map(|mi| MountEntry {
        mount_point: mi.mount_point.to_string_lossy().into_owned(),
        shared: mi.opt_fields.iter().any(
            |f| matches!(f, procfs::process::MountOptFields::Shared(_)),
        ),
    }).collect())
}

/// The first mount of the table whose mount point spells `path`: whether it
/// is shared, or `None` when no row matches.
pub open spec fn spec_find_mount(table: Seq<MountEntry>, path: Seq<u8>) -> Option<bool>
    decreases table.len(),
{
    if table.len() == 0 {
        None
    } else if encode_utf8(table.first().mount_point@) == path {
        Some(table.first().shared)
    } else {
        spec_find_mount(table.drop_first(), path)
    }
}

/// Looks `path` up in the mount table rows.
fn find_mount(table: &Vec<MountEntry>, path: &str) -> (r: Option<bool>)
    ensures
        r == spec_find_mount(table@, path.spec_bytes()),
{
    let path_bytes = path.as_bytes();
    proof {
        assert(table@.skip(0) =~= table@);
    }
    let mut i: usize = 0;
    while i < table.len()
        invariant
            i <= table@.len(),
            path_bytes@ == path.spec_bytes(),
            spec_find_mount(table@, path.spec_bytes()) == spec_find_mount(
                table@.skip(i as int),
                path.spec_bytes(),
            ),
        decreases table@.len() - i,
    {
        let ghost tail = table@.skip(i as int);
        proof {
            assert(tail.first() == table@[i as int]);
            assert(tail.drop_first() =~= table@.skip(i as int + 1));
        }
        if bytes_eq(table[i].mount_point.as_str().as_bytes(), path_bytes) {
            return Some(table[i].shared);
        }
        i += 1;
    }
    proof {
        assert(table@.skip(table@.len() as int) =~= Seq::<MountEntry>::empty());
    }
    None
}

/// Whether a mount whose target equals `path` exists, and whether it is
/// shared: the verified table lookup over whatever table the process sees;
/// `None` also when the table cannot be read at all.
pub fn has_existing_shared_mount(path: &str) -> (r: Option<bool>) {
    match sys_mount_table() {
        Some(table) => find_mount(&table, path),
        None => None,
    }
}

/// One planned mount call of a bind: whether the bind source is passed, and
/// the exact flag word; the target is always the bind target.
#[derive(Debug, Clone, Copy, PartialEq, Eq, Structural)]
pub struct BindMount {
    pub with_source: bool,
    pub flags: u64,
}

/// The mount calls a bind makes, in order: first the bind itself —
/// `MS_BIND`, with `MS_REC` exactly under `RECURSIVE` — and, exactly under
/// `READ_ONLY`, the mandatory second remount `MS_REMOUNT | MS_BIND |
/// MS_RDONLY`, because the kernel may ignore the read-only bit on the
/// initial bind.
pub fn bind_plan(flags: BindFlags) -> (r: Vec<BindMount>)
    ensures
        r@[0] == (BindMount {
            with_source: true,
            flags: MS_BIND | (
            if flags.bits & BIND_RECURSIVE == BIND_RECURSIVE {
                MS_REC
            } else {
                0
            }),
        }),
        flags.bits & BIND_READ_ONLY == BIND_READ_ONLY ==> r@.len() == 2 && r@[1] == (BindMount {
            with_source: false,
            flags: MS_REMOUNT | MS_BIND | MS_RDONLY,
        }),
        flags.bits & BIND_READ_ONLY != BIND_READ_ONLY ==> r@.len() == 1,
{
    let first_flags: u64 = if flags.contains(BindFlags::recursive()) {
        MS_BIND | MS_REC
    } else {
        MS_BIND
    };
    let mut plan: Vec<BindMount> = Vec::new();
    plan.push(BindMount { with_source: true, flags: first_flags });
    if flags.contains(BindFlags::read_only()) {
        plan.push(BindMount { with_source: false, flags: MS_REMOUNT | MS_BIND | MS_RDONLY });
    }
    proof {
        assert(MS_BIND | 0u64 == MS_BIND) by (bit_vector);
    }
    plan
}

/// One step of the pivot sequence.
#[derive(Debug, Clone, Copy, PartialEq, Eq, Structural)]
pub enum PivotStep {
    /// Mount on the new root with this flag word, from the new root itself
    /// when `bind_self`, else with no source.
    MountNewRoot { bind_self: bool, flags: u64 },
    /// Open the new root `O_DIRECTORY | O_RDONLY` and save the descriptor.
    OpenNewRoot,
    /// `pivot_root(new_root, new_root)`: stack the old root over the new.
    PivotIntoNewRoot,
    /// Remount `/` — now the old root — with this flag word.
    MountOldRoot { flags: u64 },
    /// `umount2("/", flags)`: unstack the old root.
    UnmountOldRoot { flags: u64 },
    /// `fchdir` into the saved new-root descriptor.
    EnterNewRoot,
}

/// The steps every pivot takes after its preparation: save a descriptor to
/// the new root, pivot onto it, remount the old root `MS_SLAVE | MS_REC` so
/// nothing propagates to the host, detach it with `MNT_DETACH`, and move
/// into the saved descriptor.
pub open spec fn spec_pivot_tail() -> Seq<PivotStep> {
    seq![
        PivotStep::OpenNewRoot,
        PivotStep::PivotIntoNewRoot,
        PivotStep::MountOldRoot { flags: MS_SLAVE | MS_REC },
        PivotStep::UnmountOldRoot { flags: MNT_DETACH },
        PivotStep::EnterNewRoot,
    ]
}

/// The whole pivot sequence, decided on the mount-table answer for the new
/// root: an existing shared mount is first remounted `MS_PRIVATE | MS_REC`;
/// with no mount there, the new root is bound onto itself
/// `MS_PRIVATE | MS_BIND | MS_REC` so that pivot_root has a mount to enter;
/// an existing private mount needs no preparation.
pub open spec fn spec_pivot_plan(shared: Option<bool>) -> Seq<PivotStep> {
    match shared {
        Some(true) => seq![
            PivotStep::MountNewRoot { bind_self: false, flags: MS_PRIVATE | MS_REC },
        ] + spec_pivot_tail(),
        None => seq![
            PivotStep::MountNewRoot { bind_self: true, flags: MS_PRIVATE | MS_BIND | MS_REC },
        ] + spec_pivot_tail(),
        Some(false) => spec_pivot_tail(),
    }
}

/// Builds the pivot plan for a mount-table answer.
pub fn pivot_plan(shared: Option<bool>) -> (r: Vec<PivotStep>)
    ensures
        r@ == spec_pivot_plan(shared),
{
    let mut plan: Vec<PivotStep> = Vec::new();
    match shared {
        Some(true) => {
            plan.push(PivotStep::MountNewRoot { bind_self: false, flags: MS_PRIVATE | MS_REC });
        },
        None => {
            plan.push(
                PivotStep::MountNewRoot { bind_self: true, flags: MS_PRIVATE | MS_BIND | MS_REC },
            );
        },
        Some(false) => {},
    }
    plan.push(PivotStep::OpenNewRoot);
    plan.push(PivotStep::PivotIntoNewRoot);
    plan.push(PivotStep::MountOldRoot { flags: MS_SLAVE | MS_REC });
    plan.push(PivotStep::UnmountOldRoot { flags: MNT_DETACH });
    plan.push(PivotStep::EnterNewRoot);
    proof {
        assert(plan@ =~= spec_pivot_plan(shared));
    }
    plan
}

/// In every pivot plan, the step that enters the saved descriptor comes
/// after the step that saves it.
proof fn lemma_plan_opens_before_entering(shared: Option<bool>, i: int)
    requires
        0 <= i < spec_pivot_plan(shared).len(),
        spec_pivot_plan(shared)[i] is EnterNewRoot,
    ensures
        exists|j: int| 0 <= j < i && spec_pivot_plan(shared)[j] is OpenNewRoot,
{
    let p = spec_pivot_plan(shared);
    match shared {
        Some(true) => {
            assert(p.len() == 6);
            assert(p[1] is OpenNewRoot);
            if i < 5 {
                assert(!(p[0] is EnterNewRoot));
                assert(!(p[1] is EnterNewRoot));
                assert(!(p[2] is EnterNewRoot));
                assert(!(p[3] is EnterNewRoot));
                assert(!(p[4] is EnterNewRoot));
            }
        },
        None => {
            assert(p.len() == 6);
            assert(p[1] is OpenNewRoot);
            if i < 5 {
                assert(!(p[0] is EnterNewRoot));
                assert(!(p[1] is EnterNewRoot));
                assert(!(p[2] is EnterNewRoot));
                assert(!(p[3] is EnterNewRoot));
                assert(!(p[4] is EnterNewRoot));
            }
        },
        Some(false) => {
            assert(p.len() == 5);
            assert(p[0] is OpenNewRoot);
            if i < 4 {
                assert(!(p[0] is EnterNewRoot));
                assert(!(p[1] is EnterNewRoot));
                assert(!(p[2] is EnterNewRoot));
                assert(!(p[3] is EnterNewRoot));
            }
        },
    }
}

/// The syscall surface of the sandbox.
pub struct Syscall;

impl Syscall {
    /// Mounts `kind` (or binds `source`) at `target` with the given flags.
    ///
    /// On failure the error names `target` and the kernel's errno.
    pub fn mount(
        source: Option<&str>,
        target: &str,
        kind: Option<MountKind>,
        flags: MountFlags,
        options: Option<&str>,
    ) -> (r: Result<(), MountError>)
        ensures
            r matches Err(e) ==> e.path@ == target@,
    {
        let kind_str = match kind {
            Some(k) => Some(k.as_str()),
            None => None,
        };
        match sys_mount(source, target, kind_str, flags.bits(), options) {
            Ok(()) => Ok(()),
            Err(errno) => Err(MountError { path: target.to_owned(), errno }),
        }
    }

    /// Unmounts `path` with the given flags.
    ///
    /// On failure the error names `path` and the kernel's errno.
    pub fn unmount(path: &str, flags: UnmountFlags) -> (r: Result<(), UnmountError>)
        ensures
            r matches Err(e) ==> e.path@ == path@,
    {
        match sys_umount2(path, flags.bits()) {
            Ok(()) => Ok(()),
            Err(errno) => Err(UnmountError { path: path.to_owned(), errno }),
        }
    }

    /// Bind-mounts `source` onto `target`: exactly the mount calls of
    /// [`bind_plan`], in order, each stopping the sequence on failure.
    ///
    /// On failure the error names `target` and the kernel's errno.
    pub fn bind(source: &str, target: &str, flags: BindFlags) -> (r: Result<(), BindError>)
        ensures
            r matches Err(e) ==> e.path@ == target@,
    {
        let plan = bind_plan(flags);
        let mut i: usize = 0;
        while i < plan.len()
            invariant
                i <= plan@.len(),
            decreases plan@.len() - i,
        {
            let step = plan[i];
            let src: Option<&str> = if step.with_source {
                Some(source)
            } else {
                None
            };
            if let Err(errno) = sys_mount(src, target, None, step.flags, None) {
                return Err(BindError { path: target.to_owned(), errno });
            }
            i += 1;
        }
        Ok(())
    }

    /// Pivots the current root filesystem to `new_root`: looks the new root
    /// up in the mount table with the verified [`spec_find_mount`] lookup,
    /// then performs exactly the steps of [`pivot_plan`] for that answer, in
    /// order, each stopping the sequence on failure.
    ///
    /// On failure the error names `new_root` and the kernel's errno.
    pub fn pivot(new_root: &str) -> (r: Result<(), PivotError>)
        ensures
            r matches Err(e) ==> e.path@ == new_root@,
    {
        let shared = has_existing_shared_mount(new_root);
        let plan = pivot_plan(shared);
        let mut saved_fd: i32 = 0;
        let mut have_fd = false;
        let mut i: usize = 0;
        while i < plan.len()
            invariant
                i <= plan@.len(),
                plan@ == spec_pivot_plan(shared),
                have_fd <==> exists|j: int| 0 <= j < i && plan@[j] is OpenNewRoot,
            decreases plan@.len() - i,
        {
            let step = plan[i];
            proof {
                assert(step == plan@[i as int]);
            }
            match step {
                PivotStep::MountNewRoot { bind_self, flags } => {
                    let src: Option<&str> = if bind_self {
                        Some(new_root)
                    } else {
                        None
                    };
                    if let Err(errno) = sys_mount(src, new_root, None, flags, None) {
                        if have_fd {
                            sys_close(saved_fd);
                        }
                        return Err(PivotError { path: new_root.to_owned(), errno });
                    }
                },
                PivotStep::OpenNewRoot => {
                    match sys_open_dir(new_root) {
                        Ok(fd) => {
                            saved_fd = fd;
                            have_fd = true;
                        },
                        Err(errno) => {
                            return Err(PivotError { path: new_root.to_owned(), errno });
                        },
                    }
                },
                PivotStep::PivotIntoNewRoot => {
                    if let Err(errno) = sys_pivot_root(new_root, new_root) {
                        if have_fd {
                            sys_close(saved_fd);
                        }
                        return Err(PivotError { path: new_root.to_owned(), errno });
                    }
                },
                PivotStep::MountOldRoot { flags } => {
                    if let Err(errno) = sys_mount(None, "/", None, flags, None) {
                        if have_fd {
                            sys_close(saved_fd);
                        }
                        return Err(PivotError { path: new_root.to_owned(), errno });
                    }
                },
                PivotStep::UnmountOldRoot { flags } => {
                    if let Err(errno) = sys_umount2("/", flags) {
                        if have_fd {
                            sys_close(saved_fd);
                        }
                        return Err(PivotError { path: new_root.to_owned(), errno });
                    }
                },
                PivotStep::EnterNewRoot => {
                    proof {
                        lemma_plan_opens_before_entering(shared, i as int);
                    }
                    if let Err(errno) = sys_fchdir(saved_fd) {
                        sys_close(saved_fd);
                        return Err(PivotError { path: new_root.to_owned(), errno });
                    }
                },
            }
            proof {
                if !(plan@[i as int] is OpenNewRoot) {
                    assert forall|j: int| 0 <= j < i + 1 && plan@[j] is OpenNewRoot implies j
                        < i by {}
                }
            }
            i += 1;
        }
        if have_fd {
            sys_close(saved_fd);
        }
        Ok(())
    }
}

} // verus!
