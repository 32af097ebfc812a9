//! The complete pipeline plan for one invocation.
//!
//! A plan bundles everything the runner performs on the child branch after
//! the namespaces are unshared and the supervisor forked: the ordered mount
//! sequence, the device and symlink tables, the root move, and the command
//! and environment of the final exec. The runner applies the parts in that
//! order, changing its working directory into the target just before the
//! root move and calling `chroot` on the current directory just after it.

use vstd::prelude::*;
use crate::devices::{device_plan, device_plan_ok, link_plan, link_plan_ok, DeviceNode, LinkSpec};
use crate::launch::{build_env, command_ok, command_or_default, env_ok};
use crate::mounts::{
    is_dev_tmpfs_mount, is_proc_mount, is_rec_slave_root, is_root_move, is_self_bind,
    is_sysfs_mount, mount_plan, mount_plan_ok, root_move_step, MountStep,
};

verus! {

/// Everything the runner performs inside the new namespaces, in order.
pub struct Plan {
    /// The mount sequence, applied first.
    pub mounts: Vec<MountStep>,
    /// The device nodes created under the fresh `dev` tmpfs.
    pub devices: Vec<DeviceNode>,
    /// The symlinks created under the fresh `dev` tmpfs.
    pub links: Vec<LinkSpec>,
    /// The step that moves the target's mount onto `/`, performed once the
    /// working directory is the target.
    pub root_move: MountStep,
    /// The reconstructed environment of the final exec.
    pub env: Vec<String>,
    /// The command the final exec runs; its first element is the program.
    pub command: Vec<String>,
}

/// The whole plan for target path `t`: the exact mount sequence, the fixed
/// device and symlink tables, the root move, the four-entry environment and
/// the (possibly defaulted) command.
pub open spec fn plan_ok(
    p: Plan,
    t: Seq<char>,
    readonly: bool,
    args: Seq<String>,
    shell: Option<String>,
    term: Option<String>,
) -> bool {
    &&& mount_plan_ok(p.mounts@, t, readonly)
    &&& device_plan_ok(p.devices@)
    &&& link_plan_ok(p.links@)
    &&& is_root_move(p.root_move)
    &&& env_ok(p.env@, shell, term)
    &&& command_ok(p.command@, args)
}

/// Builds the complete plan for one invocation from the validated target
/// path, the readonly option, the caller's command arguments, and the
/// invoker's `SHELL` and `TERM` values.
pub fn build_plan(
    target: &str,
    readonly: bool,
    args: Vec<String>,
    shell: Option<String>,
    term: Option<String>,
) -> (p: Plan)
    ensures
        plan_ok(p, target@, readonly, args@, shell, term),
{
    Plan {
        mounts: mount_plan(target, readonly),
        devices: device_plan(),
        links: link_plan(),
        root_move: root_move_step(),
        env: build_env(shell, term),
        command: command_or_default(args),
    }
}

/// A successful run re-roots the process inside the target, whatever the
/// target and the readonly setting: the plan first confines mount
/// propagation, then turns the target into a mount point by binding it onto
/// itself, populates `proc`, `sys` and `dev` under the target with fresh
/// filesystems distinct from the host's, and ends by moving that mount onto
/// `/`.
pub proof fn lemma_plan_establishes_isolated_root(
    p: Plan,
    t: Seq<char>,
    readonly: bool,
    args: Seq<String>,
    shell: Option<String>,
    term: Option<String>,
)
    requires
        plan_ok(p, t, readonly, args, shell, term),
    ensures
        p.mounts@.len() >= 5,
        is_rec_slave_root(p.mounts@[0]),
        is_self_bind(p.mounts@[1], t),
        is_proc_mount(p.mounts@[p.mounts@.len() - 3], t),
        is_sysfs_mount(p.mounts@[p.mounts@.len() - 2], t),
        is_dev_tmpfs_mount(p.mounts@[p.mounts@.len() - 1], t),
        device_plan_ok(p.devices@),
        link_plan_ok(p.links@),
        is_root_move(p.root_move),
{
}

} // verus!
