//! Planning core of a namespace-based "super chroot" utility.
//!
//! The library computes, as plain verified data, everything the privileged
//! runner must do to turn a target directory into an isolated root: the
//! ordered mount sequence, the fixed device-node and symlink tables, the
//! reconstructed environment and command for the final exec, the gating
//! decision taken before any privileged operation, and the translation of a
//! child's wait outcome into the supervisor's exit code. The runner performs
//! the namespace, mount, device and exec syscalls exactly as planned here.

pub mod devices;
pub mod flags;
pub mod invocation;
pub mod launch;
pub mod mounts;
pub mod paths;
pub mod plan;
pub mod supervise;
