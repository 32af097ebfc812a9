//! The ordered mount sequence that turns the target directory into an
//! isolated root.
//!
//! The plan is a sequence of declarative mount requests, applied in order by
//! the runner on the child branch only: first the whole mount tree is
//! recursively made a slave of its peer groups (so nothing done afterwards
//! propagates back to the host), then the target is bound onto itself to
//! promote it to a mount point, optionally remounted read-only, and finally
//! proc, sysfs and a dev tmpfs are mounted under it.

use vstd::prelude::*;
use crate::flags::{
    MS_BIND, MS_MOVE, MS_NONE, MS_RDONLY, BIND_REMOUNT_RDONLY_FLAGS, DEV_TMPFS_FLAGS,
    REC_SLAVE_FLAGS,
};
use crate::paths::{join_under, joined};

verus! {

/// One declarative mount request, consumed exactly once by the runner's
/// mount syscall.
pub struct MountStep {
    /// Source path or filesystem name, where the operation takes one.
    pub source: Option<String>,
    /// Path the operation applies to.
    pub target: String,
    /// Filesystem type, for the steps that mount a new filesystem.
    pub fstype: Option<String>,
    /// Mount-flag word handed to the syscall.
    pub flags: u64,
    /// Filesystem-specific option string.
    pub data: Option<String>,
}

/// The step that recursively makes `/` (and every mount below it) a slave
/// of its peer group, confining all later mount events to the new namespace.
pub open spec fn is_rec_slave_root(m: MountStep) -> bool {
    &&& m.source is None
    &&& m.target@ == "/"@
    &&& m.fstype is None
    &&& m.flags == REC_SLAVE_FLAGS
    &&& m.data is None
}

/// The step that bind-mounts the target onto itself, making it a mount
/// point that the root move can later relocate.
pub open spec fn is_self_bind(m: MountStep, t: Seq<char>) -> bool {
    &&& m.source matches Some(s) && s@ == t
    &&& m.target@ == t
    &&& m.fstype is None
    &&& m.flags == MS_BIND
    &&& m.data is None
}

/// The step that remounts the target's bind mount with the read-only bit
/// added, leaving the underlying filesystem untouched.
pub open spec fn is_readonly_remount(m: MountStep, t: Seq<char>) -> bool {
    &&& m.source matches Some(s) && s@ == t
    &&& m.target@ == t
    &&& m.fstype is None
    &&& m.flags == BIND_REMOUNT_RDONLY_FLAGS
    &&& m.data is None
}

/// The step that mounts a fresh proc filesystem at `<target>/proc`.
pub open spec fn is_proc_mount(m: MountStep, t: Seq<char>) -> bool {
    &&& m.source matches Some(s) && s@ == "proc"@
    &&& m.target@ == joined(t, "proc"@)
    &&& m.fstype matches Some(f) && f@ == "proc"@
    &&& m.flags == MS_NONE
    &&& m.data is None
}

/// The step that mounts a fresh sysfs at `<target>/sys`.
pub open spec fn is_sysfs_mount(m: MountStep, t: Seq<char>) -> bool {
    &&& m.source matches Some(s) && s@ == "sysfs"@
    &&& m.target@ == joined(t, "sys"@)
    &&& m.fstype matches Some(f) && f@ == "sysfs"@
    &&& m.flags == MS_NONE
    &&& m.data is None
}

/// The step that mounts a tmpfs at `<target>/dev`, nosuid and strict-atime,
/// with directory mode 0755, so device nodes can be created there.
pub open spec fn is_dev_tmpfs_mount(m: MountStep, t: Seq<char>) -> bool {
    &&& m.source matches Some(s) && s@ == "tmpfs"@
    &&& m.target@ == joined(t, "dev"@)
    &&& m.fstype matches Some(f) && f@ == "tmpfs"@
    &&& m.flags == DEV_TMPFS_FLAGS
    &&& m.data matches Some(d) && d@ == "mode=755"@
}

/// The step that atomically moves the mount at the current directory (the
/// target, after the runner has changed directory into it) onto `/`.
pub open spec fn is_root_move(m: MountStep) -> bool {
    &&& m.source matches Some(s) && s@ == "."@
    &&& m.target@ == "/"@
    &&& m.fstype is None
    &&& m.flags == MS_MOVE
    &&& m.data is None
}

/// The whole mount sequence for target path `t`: make the tree slave, bind
/// the target onto itself, remount read-only exactly when asked, then mount
/// proc, sysfs and the dev tmpfs under the target, in that order.
pub open spec fn mount_plan_ok(s: Seq<MountStep>, t: Seq<char>, readonly: bool) -> bool {
    &&& s.len() == (if readonly { 6int } else { 5int })
    &&& is_rec_slave_root(s[0])
    &&& is_self_bind(s[1], t)
    &&& (readonly ==> is_readonly_remount(s[2], t))
    &&& is_proc_mount(s[s.len() - 3], t)
    &&& is_sysfs_mount(s[s.len() - 2], t)
    &&& is_dev_tmpfs_mount(s[s.len() - 1], t)
}

/// Builds the ordered mount sequence for the target; the runner applies the
/// steps in order and treats the first failure as fatal.
pub fn mount_plan(target: &str, readonly: bool) -> (plan: Vec<MountStep>)
    ensures
        mount_plan_ok(plan@, target@, readonly),
{
    let mut plan: Vec<MountStep> = Vec::new();
    plan.push(MountStep {
        source: None,
        target: "/".to_owned(),
        fstype: None,
        flags: REC_SLAVE_FLAGS,
        data: None,
    });
    plan.push(MountStep {
        source: Some(target.to_owned()),
        target: target.to_owned(),
        fstype: None,
        flags: MS_BIND,
        data: None,
    });
    if readonly {
        plan.push(MountStep {
            source: Some(target.to_owned()),
            target: target.to_owned(),
            fstype: None,
            flags: BIND_REMOUNT_RDONLY_FLAGS,
            data: None,
        });
    }
    plan.push(MountStep {
        source: Some("proc".to_owned()),
        target: join_under(target, "proc"),
        fstype: Some("proc".to_owned()),
        flags: MS_NONE,
        data: None,
    });
    plan.push(MountStep {
        source: Some("sysfs".to_owned()),
        target: join_under(target, "sys"),
        fstype: Some("sysfs".to_owned()),
        flags: MS_NONE,
        data: None,
    });
    plan.push(MountStep {
        source: Some("tmpfs".to_owned()),
        target: join_under(target, "dev"),
        fstype: Some("tmpfs".to_owned()),
        flags: DEV_TMPFS_FLAGS,
        data: Some("mode=755".to_owned()),
    });
    plan
}

/// Builds the root-move step, performed after the mount and device steps,
/// once the runner's working directory is the target.
pub fn root_move_step() -> (m: MountStep)
    ensures
        is_root_move(m),
{
    MountStep {
        source: Some(".".to_owned()),
        target: "/".to_owned(),
        fstype: None,
        flags: MS_MOVE,
        data: None,
    }
}

/// Mount events never leak to the host: the very first step of every mount
/// plan, before any mount is created, recursively marks the whole tree as
/// slave, and no later step repeats or undoes that marking.
pub proof fn lemma_isolation_precedes_all_mounts(s: Seq<MountStep>, t: Seq<char>, readonly: bool)
    requires
        mount_plan_ok(s, t, readonly),
    ensures
        s.len() > 0,
        is_rec_slave_root(s[0]),
        forall|i: int| 1 <= i < s.len() ==> !is_rec_slave_root(#[trigger] s[i]),
{
}

/// The target is remounted read-only exactly when the readonly option is
/// set; with the option unset, no step of the plan carries the read-only
/// flag bit at all.
pub proof fn lemma_readonly_exactly_when_requested(s: Seq<MountStep>, t: Seq<char>, readonly: bool)
    requires
        mount_plan_ok(s, t, readonly),
    ensures
        readonly ==> is_readonly_remount(s[2], t),
        readonly ==> exists|i: int| 0 <= i < s.len() && is_readonly_remount(#[trigger] s[i], t),
        !readonly ==> forall|i: int| 0 <= i < s.len() ==> (#[trigger] s[i]).flags & MS_RDONLY == 0,
{
    if readonly {
        assert(is_readonly_remount(s[2], t));
    } else {
        assert(0x84000u64 & 0x1u64 == 0u64) by (bit_vector);
        assert(0x1000u64 & 0x1u64 == 0u64) by (bit_vector);
        assert(0x0u64 & 0x1u64 == 0u64) by (bit_vector);
        assert(0x1000002u64 & 0x1u64 == 0u64) by (bit_vector);
        assert forall|i: int| 0 <= i < s.len() implies (#[trigger] s[i]).flags & MS_RDONLY == 0 by {
            assert(s[i].flags == 0x84000u64 || s[i].flags == 0x1000u64 || s[i].flags == 0x0u64
                || s[i].flags == 0x1000002u64);
        }
    }
}

} // verus!
