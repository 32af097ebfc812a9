//! The fixed device-node and symlink tables created under the target's
//! fresh `dev` tmpfs.
//!
//! The tables reproduce the minimal device set a POSIX shell environment
//! expects. They are fixed, not user-configurable; the runner applies each
//! entry in order and treats any single failure as fatal.

use vstd::prelude::*;
use crate::flags::DEV_NODE_MODE;

verus! {

/// One character device node to create, with its path relative to the
/// target root. The parent directory is the `dev` tmpfs mounted earlier.
pub struct DeviceNode {
    /// Path relative to the target root, such as `dev/null`.
    pub path: String,
    /// Permission bits of the node.
    pub mode: u32,
    /// Major device number.
    pub major: u64,
    /// Minor device number.
    pub minor: u64,
}

/// One symbolic link to create under the target's `dev`.
pub struct LinkSpec {
    /// What the link points at.
    pub link_target: String,
    /// Where the link is created, relative to the target root.
    pub link_path: String,
}

/// A character device entry at `path` with the given major/minor identity
/// and the fixed read/write-for-all permission mode.
pub open spec fn is_device(d: DeviceNode, path: Seq<char>, major: u64, minor: u64) -> bool {
    &&& d.path@ == path
    &&& d.mode == DEV_NODE_MODE
    &&& d.major == major
    &&& d.minor == minor
}

/// The full fixed device table, in creation order, with the exact
/// major/minor identity of each node.
pub open spec fn device_plan_ok(s: Seq<DeviceNode>) -> bool {
    &&& s.len() == 7
    &&& is_device(s[0], "dev/null"@, 1, 3)
    &&& is_device(s[1], "dev/zero"@, 1, 5)
    &&& is_device(s[2], "dev/full"@, 1, 7)
    &&& is_device(s[3], "dev/random"@, 1, 8)
    &&& is_device(s[4], "dev/urandom"@, 1, 9)
    &&& is_device(s[5], "dev/tty"@, 5, 0)
    &&& is_device(s[6], "dev/ptmx"@, 5, 2)
}

/// A symlink entry pointing at `target`, created at `path` relative to the
/// target root.
pub open spec fn is_link(l: LinkSpec, target: Seq<char>, path: Seq<char>) -> bool {
    &&& l.link_target@ == target
    &&& l.link_path@ == path
}

/// The full fixed symlink table, in creation order: the standard stream
/// aliases into the fresh proc filesystem.
pub open spec fn link_plan_ok(s: Seq<LinkSpec>) -> bool {
    &&& s.len() == 4
    &&& is_link(s[0], "/proc/self/fd"@, "dev/fd"@)
    &&& is_link(s[1], "/proc/self/fd/0"@, "dev/stdin"@)
    &&& is_link(s[2], "/proc/self/fd/1"@, "dev/stdout"@)
    &&& is_link(s[3], "/proc/self/fd/2"@, "dev/stderr"@)
}

/// Builds the fixed device table.
pub fn device_plan() -> (plan: Vec<DeviceNode>)
    ensures
        device_plan_ok(plan@),
{
    let mut plan: Vec<DeviceNode> = Vec::new();
    plan.push(DeviceNode { path: "dev/null".to_owned(), mode: DEV_NODE_MODE, major: 1, minor: 3 });
    plan.push(DeviceNode { path: "dev/zero".to_owned(), mode: DEV_NODE_MODE, major: 1, minor: 5 });
    plan.push(DeviceNode { path: "dev/full".to_owned(), mode: DEV_NODE_MODE, major: 1, minor: 7 });
    plan.push(DeviceNode {
        path: "dev/random".to_owned(),
        mode: DEV_NODE_MODE,
        major: 1,
        minor: 8,
    });
    plan.push(DeviceNode {
        path: "dev/urandom".to_owned(),
        mode: DEV_NODE_MODE,
        major: 1,
        minor: 9,
    });
    plan.push(DeviceNode { path: "dev/tty".to_owned(), mode: DEV_NODE_MODE, major: 5, minor: 0 });
    plan.push(DeviceNode { path: "dev/ptmx".to_owned(), mode: DEV_NODE_MODE, major: 5, minor: 2 });
    plan
}

/// Builds the fixed symlink table.
pub fn link_plan() -> (plan: Vec<LinkSpec>)
    ensures
        link_plan_ok(plan@),
{
    let mut plan: Vec<LinkSpec> = Vec::new();
    plan.push(LinkSpec {
        link_target: "/proc/self/fd".to_owned(),
        link_path: "dev/fd".to_owned(),
    });
    plan.push(LinkSpec {
        link_target: "/proc/self/fd/0".to_owned(),
        link_path: "dev/stdin".to_owned(),
    });
    plan.push(LinkSpec {
        link_target: "/proc/self/fd/1".to_owned(),
        link_path: "dev/stdout".to_owned(),
    });
    plan.push(LinkSpec {
        link_target: "/proc/self/fd/2".to_owned(),
        link_path: "dev/stderr".to_owned(),
    });
    plan
}

} // verus!
