//! Bit sets for the kernel flags the sandbox requests.
//!
//! Each set wraps the raw bit pattern handed to the kernel; the named
//! constructors carry the kernel's own bit values.

use vstd::prelude::*;

verus! {

/// `CLONE_PARENT`: the new child's parent is the caller's parent.
pub const CLONE_PARENT: u64 = 0x0000_8000;

/// `CLONE_NEWNS`: start the child in a new mount namespace.
pub const CLONE_NEWNS: u64 = 0x0002_0000;

/// `CLONE_NEWCGROUP`: start the child in a new cgroup namespace.
pub const CLONE_NEWCGROUP: u64 = 0x0200_0000;

/// `CLONE_NEWUTS`: start the child in a new UTS namespace.
pub const CLONE_NEWUTS: u64 = 0x0400_0000;

/// `CLONE_NEWIPC`: start the child in a new IPC namespace.
pub const CLONE_NEWIPC: u64 = 0x0800_0000;

/// `CLONE_NEWUSER`: start the child in a new user namespace.
pub const CLONE_NEWUSER: u64 = 0x1000_0000;

/// `CLONE_NEWPID`: start the child in a new PID namespace.
pub const CLONE_NEWPID: u64 = 0x2000_0000;

/// `CLONE_NEWNET`: start the child in a new network namespace.
pub const CLONE_NEWNET: u64 = 0x4000_0000;

/// Private flag, outside the kernel's range: force the fallback clone path.
pub const CLONE_TEST_FALLBACK: u64 = 0x1_0000_0000;

/// Flags for cloning a new process.
#[derive(Debug, Copy, Clone, PartialEq, Eq, Hash, Structural)]
pub struct CloneFlags {
    pub bits: u64,
}

impl CloneFlags {
    /// No flags.
    pub fn empty() -> (r: Self)
        ensures
            r.bits == 0,
    {
        CloneFlags { bits: 0 }
    }

    /// The set holding exactly the given bits.
    pub fn from_bits(bits: u64) -> (r: Self)
        ensures
            r.bits == bits,
    {
        CloneFlags { bits }
    }

    /// The raw bit pattern.
    pub fn bits(&self) -> (r: u64)
        ensures
            r == self.bits,
    {
        self.bits
    }

    /// Whether every flag of `other` is set in `self`.
    pub fn contains(&self, other: Self) -> (r: bool)
        ensures
            r == (self.bits & other.bits == other.bits),
    {
        self.bits & other.bits == other.bits
    }

    /// Whether any flag of `other` is set in `self`.
    pub fn intersects(&self, other: Self) -> (r: bool)
        ensures
            r == (self.bits & other.bits != 0),
    {
        self.bits & other.bits != 0
    }

    /// The flags of `self` together with those of `other`.
    pub fn union(&self, other: Self) -> (r: Self)
        ensures
            r.bits == self.bits | other.bits,
    {
        CloneFlags { bits: self.bits | other.bits }
    }

    /// The flags of `self` with those of `other` removed.
    pub fn difference(&self, other: Self) -> (r: Self)
        ensures
            r.bits == self.bits & !other.bits,
    {
        CloneFlags { bits: self.bits & !other.bits }
    }

    /// `CLONE_PARENT` alone.
    pub fn parent() -> (r: Self)
        ensures
            r.bits == CLONE_PARENT,
    {
        CloneFlags { bits: CLONE_PARENT }
    }

    /// `CLONE_NEWNS` alone.
    pub fn newns() -> (r: Self)
        ensures
            r.bits == CLONE_NEWNS,
    {
        CloneFlags { bits: CLONE_NEWNS }
    }

    /// `CLONE_NEWCGROUP` alone.
    pub fn newcgroup() -> (r: Self)
        ensures
            r.bits == CLONE_NEWCGROUP,
    {
        CloneFlags { bits: CLONE_NEWCGROUP }
    }

    /// `CLONE_NEWUTS` alone.
    pub fn newuts() -> (r: Self)
        ensures
            r.bits == CLONE_NEWUTS,
    {
        CloneFlags { bits: CLONE_NEWUTS }
    }

    /// `CLONE_NEWIPC` alone.
    pub fn newipc() -> (r: Self)
        ensures
            r.bits == CLONE_NEWIPC,
    {
        CloneFlags { bits: CLONE_NEWIPC }
    }

    /// `CLONE_NEWUSER` alone.
    pub fn newuser() -> (r: Self)
        ensures
            r.bits == CLONE_NEWUSER,
    {
        CloneFlags { bits: CLONE_NEWUSER }
    }

    /// `CLONE_NEWPID` alone.
    pub fn newpid() -> (r: Self)
        ensures
            r.bits == CLONE_NEWPID,
    {
        CloneFlags { bits: CLONE_NEWPID }
    }

    /// `CLONE_NEWNET` alone.
    pub fn newnet() -> (r: Self)
        ensures
            r.bits == CLONE_NEWNET,
    {
        CloneFlags { bits: CLONE_NEWNET }
    }

    /// The private test flag forcing the fallback clone path.
    pub fn test_fallback() -> (r: Self)
        ensures
            r.bits == CLONE_TEST_FALLBACK,
    {
        CloneFlags { bits: CLONE_TEST_FALLBACK }
    }
}

/// `MS_RDONLY`: mount read-only.
pub const MS_RDONLY: u64 = 0x0001;

/// `MS_REMOUNT`: alter an existing mount.
pub const MS_REMOUNT: u64 = 0x0020;

/// `MS_NOATIME`: do not update access times.
pub const MS_NOATIME: u64 = 0x0400;

/// `MS_NODIRATIME`: do not update access times of directories.
pub const MS_NODIRATIME: u64 = 0x0800;

/// `MS_BIND`: create a bind mount.
pub const MS_BIND: u64 = 0x1000;

/// `MS_REC`: apply to the whole subtree.
pub const MS_REC: u64 = 0x4000;

/// `MS_PRIVATE`: make this mount point private.
pub const MS_PRIVATE: u64 = 0x4_0000;

/// `MS_SLAVE`: turn a shared mount point into a slave.
pub const MS_SLAVE: u64 = 0x8_0000;

/// `MS_SHARED`: make this mount point shared.
pub const MS_SHARED: u64 = 0x10_0000;

/// `MS_RELATIME`: update atime relative to mtime and ctime.
pub const MS_RELATIME: u64 = 0x20_0000;

/// `MS_STRICTATIME`: always update atime.
pub const MS_STRICTATIME: u64 = 0x100_0000;

/// `MS_LAZYTIME`: keep timestamp updates in memory.
pub const MS_LAZYTIME: u64 = 0x200_0000;

/// Flags for a plain mount.
#[derive(Debug, Copy, Clone, PartialEq, Eq, Hash, Structural)]
pub struct MountFlags {
    pub bits: u64,
}

impl MountFlags {
    /// No flags.
    pub fn empty() -> (r: Self)
        ensures
            r.bits == 0,
    {
        MountFlags { bits: 0 }
    }

    /// The set holding exactly the given bits.
    pub fn from_bits(bits: u64) -> (r: Self)
        ensures
            r.bits == bits,
    {
        MountFlags { bits }
    }

    /// The raw bit pattern.
    pub fn bits(&self) -> (r: u64)
        ensures
            r == self.bits,
    {
        self.bits
    }

    /// The flags of `self` together with those of `other`.
    pub fn union(&self, other: Self) -> (r: Self)
        ensures
            r.bits == self.bits | other.bits,
    {
        MountFlags { bits: self.bits | other.bits }
    }

    /// `MS_RDONLY` alone.
    pub fn read_only() -> (r: Self)
        ensures
            r.bits == MS_RDONLY,
    {
        MountFlags { bits: MS_RDONLY }
    }

    /// `MS_NOATIME` alone.
    pub fn no_atime() -> (r: Self)
        ensures
            r.bits == MS_NOATIME,
    {
        MountFlags { bits: MS_NOATIME }
    }

    /// `MS_NODIRATIME` alone.
    pub fn no_dir_atime() -> (r: Self)
        ensures
            r.bits == MS_NODIRATIME,
    {
        MountFlags { bits: MS_NODIRATIME }
    }

    /// `MS_PRIVATE` alone.
    pub fn private() -> (r: Self)
        ensures
            r.bits == MS_PRIVATE,
    {
        MountFlags { bits: MS_PRIVATE }
    }

    /// `MS_SLAVE` alone.
    pub fn slave() -> (r: Self)
        ensures
            r.bits == MS_SLAVE,
    {
        MountFlags { bits: MS_SLAVE }
    }

    /// `MS_SHARED` alone.
    pub fn shared() -> (r: Self)
        ensures
            r.bits == MS_SHARED,
    {
        MountFlags { bits: MS_SHARED }
    }

    /// `MS_RELATIME` alone.
    pub fn relative_atime() -> (r: Self)
        ensures
            r.bits == MS_RELATIME,
    {
        MountFlags { bits: MS_RELATIME }
    }

    /// `MS_STRICTATIME` alone.
    pub fn strict_atime() -> (r: Self)
        ensures
            r.bits == MS_STRICTATIME,
    {
        MountFlags { bits: MS_STRICTATIME }
    }

    /// `MS_LAZYTIME` alone.
    pub fn lazy_time() -> (r: Self)
        ensures
            r.bits == MS_LAZYTIME,
    {
        MountFlags { bits: MS_LAZYTIME }
    }
}

/// Flags for a bind mount.
#[derive(Debug, Copy, Clone, PartialEq, Eq, Hash, Structural)]
pub struct BindFlags {
    pub bits: u64,
}

/// The `RECURSIVE` bind flag: bind the whole subtree (`MS_REC`).
pub const BIND_RECURSIVE: u64 = MS_REC;

/// The `READ_ONLY` bind flag: remount the bind read-only (`MS_RDONLY`).
pub const BIND_READ_ONLY: u64 = MS_RDONLY;

impl BindFlags {
    /// No flags.
    pub fn empty() -> (r: Self)
        ensures
            r.bits == 0,
    {
        BindFlags { bits: 0 }
    }

    /// The set holding exactly the given bits.
    pub fn from_bits(bits: u64) -> (r: Self)
        ensures
            r.bits == bits,
    {
        BindFlags { bits }
    }

    /// The raw bit pattern.
    pub fn bits(&self) -> (r: u64)
        ensures
            r == self.bits,
    {
        self.bits
    }

    /// Whether every flag of `other` is set in `self`.
    pub fn contains(&self, other: Self) -> (r: bool)
        ensures
            r == (self.bits & other.bits == other.bits),
    {
        self.bits & other.bits == other.bits
    }

    /// The flags of `self` together with those of `other`.
    pub fn union(&self, other: Self) -> (r: Self)
        ensures
            r.bits == self.bits | other.bits,
    {
        BindFlags { bits: self.bits | other.bits }
    }

    /// The `RECURSIVE` flag alone.
    pub fn recursive() -> (r: Self)
        ensures
            r.bits == BIND_RECURSIVE,
    {
        BindFlags { bits: BIND_RECURSIVE }
    }

    /// The `READ_ONLY` flag alone.
    pub fn read_only() -> (r: Self)
        ensures
            r.bits == BIND_READ_ONLY,
    {
        BindFlags { bits: BIND_READ_ONLY }
    }
}

/// `MNT_FORCE`: unmount even if busy.
pub const MNT_FORCE: u64 = 0x1;

/// `MNT_DETACH`: lazy unmount.
pub const MNT_DETACH: u64 = 0x2;

/// `MNT_EXPIRE`: mark the mount point as expired.
pub const MNT_EXPIRE: u64 = 0x4;

/// `UMOUNT_NOFOLLOW`: do not dereference a symlink target.
pub const UMOUNT_NOFOLLOW: u64 = 0x8;

/// Flags for unmounting.
#[derive(Debug, Copy, Clone, PartialEq, Eq, Hash, Structural)]
pub struct UnmountFlags {
    pub bits: u64,
}

impl UnmountFlags {
    /// No flags.
    pub fn empty() -> (r: Self)
        ensures
            r.bits == 0,
    {
        UnmountFlags { bits: 0 }
    }

    /// The set holding exactly the given bits.
    pub fn from_bits(bits: u64) -> (r: Self)
        ensures
            r.bits == bits,
    {
        UnmountFlags { bits }
    }

    /// The raw bit pattern.
    pub fn bits(&self) -> (r: u64)
        ensures
            r == self.bits,
    {
        self.bits
    }

    /// The flags of `self` together with those of `other`.
    pub fn union(&self, other: Self) -> (r: Self)
        ensures
            r.bits == self.bits | other.bits,
    {
        UnmountFlags { bits: self.bits | other.bits }
    }

    /// `MNT_FORCE` alone.
    pub fn force() -> (r: Self)
        ensures
            r.bits == MNT_FORCE,
    {
        UnmountFlags { bits: MNT_FORCE }
    }

    /// `MNT_DETACH` alone.
    pub fn detach() -> (r: Self)
        ensures
            r.bits == MNT_DETACH,
    {
        UnmountFlags { bits: MNT_DETACH }
    }

    /// `MNT_EXPIRE` alone.
    pub fn expire() -> (r: Self)
        ensures
            r.bits == MNT_EXPIRE,
    {
        UnmountFlags { bits: MNT_EXPIRE }
    }

    /// `UMOUNT_NOFOLLOW` alone.
    pub fn nofollow() -> (r: Self)
        ensures
            r.bits == UMOUNT_NOFOLLOW,
    {
        UnmountFlags { bits: UMOUNT_NOFOLLOW }
    }
}

/// The sandbox flag requesting a new network namespace for the worker.
pub const SANDBOX_NETWORK_ISOLATION: u64 = 0x0001;

/// Sandbox behaviour requested by a task, beyond the mandatory
/// user, PID and mount namespaces.
#[derive(Debug, Copy, Clone, PartialEq, Eq, Hash, Structural)]
pub struct SandboxFlags {
    pub bits: u64,
}

impl SandboxFlags {
    /// No flags.
    pub fn empty() -> (r: Self)
        ensures
            r.bits == 0,
    {
        SandboxFlags { bits: 0 }
    }

    /// The set holding exactly the given bits.
    pub fn from_bits(bits: u64) -> (r: Self)
        ensures
            r.bits == bits,
    {
        SandboxFlags { bits }
    }

    /// The raw bit pattern.
    pub fn bits(&self) -> (r: u64)
        ensures
            r == self.bits,
    {
        self.bits
    }

    /// Whether every flag of `other` is set in `self`.
    pub fn contains(&self, other: Self) -> (r: bool)
        ensures
            r == (self.bits & other.bits == other.bits),
    {
        self.bits & other.bits == other.bits
    }

    /// Adds every flag of `other`.
    pub fn insert(&mut self, other: Self)
        ensures
            final(self).bits == old(self).bits | other.bits,
    {
        self.bits = self.bits | other.bits;
    }

    /// Removes every flag of `other`.
    pub fn remove(&mut self, other: Self)
        ensures
            final(self).bits == old(self).bits & !other.bits,
    {
        self.bits = self.bits & !other.bits;
    }

    /// The `NETWORK_ISOLATION` flag alone.
    pub fn network_isolation() -> (r: Self)
        ensures
            r.bits == SANDBOX_NETWORK_ISOLATION,
    {
        SandboxFlags { bits: SANDBOX_NETWORK_ISOLATION }
    }
}

impl Default for SandboxFlags {
    /// The empty set.
    fn default() -> (r: Self)
        ensures
            r.bits == 0,
    {
        SandboxFlags { bits: 0 }
    }
}

} // verus!
