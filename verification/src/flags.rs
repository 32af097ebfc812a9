//! Mount flags and device permission bits used by the plan.
//!
//! The values are the Linux mount-flag bits. Each named flag is a distinct
//! single bit, so the combined constants are written as sums, which equal the
//! bitwise union of their parts; the runner hands the value to the mount
//! syscall as the flag word.

use vstd::prelude::*;

verus! {

/// Mount read-only.
pub const MS_RDONLY: u64 = 0x1;

/// Ignore suid and sgid bits on the mount.
pub const MS_NOSUID: u64 = 0x2;

/// Alter the flags of an existing mount instead of creating one.
pub const MS_REMOUNT: u64 = 0x20;

/// Bind an existing directory at the target path.
pub const MS_BIND: u64 = 0x1000;

/// Atomically move an existing mount to the target path.
pub const MS_MOVE: u64 = 0x2000;

/// Apply the operation recursively to every mount under the target.
pub const MS_REC: u64 = 0x4000;

/// Make the mount a slave of its peer group: mount events no longer
/// propagate out of it.
pub const MS_SLAVE: u64 = 0x80000;

/// Always update the last-access time.
pub const MS_STRICTATIME: u64 = 0x1000000;

/// No flags.
pub const MS_NONE: u64 = 0;

/// Flags of the make-root-slave step: recursively stop outward propagation
/// from the whole mount tree.
pub const REC_SLAVE_FLAGS: u64 = MS_REC + MS_SLAVE;

/// Flags of the read-only remount step: alter the existing bind mount in
/// place, adding the read-only bit.
pub const BIND_REMOUNT_RDONLY_FLAGS: u64 = MS_BIND + MS_REMOUNT + MS_RDONLY;

/// Flags of the dev tmpfs mount.
pub const DEV_TMPFS_FLAGS: u64 = MS_NOSUID + MS_STRICTATIME;

/// Permission mode of every created device node: read and write for owner,
/// group and other.
pub const DEV_NODE_MODE: u32 = 0o666;

/// Unshare the mount namespace.
pub const CLONE_NEWNS: u64 = 0x20000;

/// Unshare the UTS (hostname) namespace.
pub const CLONE_NEWUTS: u64 = 0x4000000;

/// Unshare the IPC namespace.
pub const CLONE_NEWIPC: u64 = 0x8000000;

/// Unshare the PID namespace.
pub const CLONE_NEWPID: u64 = 0x20000000;

/// The namespaces requested before the pipeline runs, as one atomic
/// request: mount, PID, IPC and UTS. On any failure no namespace of the set
/// is attached and the run is abandoned.
pub const NAMESPACE_FLAGS: u64 = CLONE_NEWNS + CLONE_NEWPID + CLONE_NEWIPC + CLONE_NEWUTS;

} // verus!
