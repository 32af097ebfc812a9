//! The admission check that precedes any privileged operation.
//!
//! Namespace and mount operations all require superuser privilege and fail
//! unsafely (with partial state) without it, so the invocation is checked
//! first: a call without a target directory is malformed and refused with
//! the usage exit code; a call by a non-root user is refused with the
//! privilege exit code; only a well-formed call by root runs the pipeline.

use vstd::prelude::*;

verus! {

/// Exit code of a malformed invocation (no target directory named).
pub const USAGE_EXIT_CODE: i32 = 2;

/// Exit code of an invocation without superuser privilege.
pub const PRIVILEGE_EXIT_CODE: i32 = 1;

/// The decision taken before any privileged operation.
#[derive(Clone, Copy, Debug, PartialEq, Eq, Structural)]
pub enum Preflight {
    /// No target directory was named: print usage and exit, performing no
    /// privileged operation.
    MissingTarget,
    /// The caller is not the superuser: exit, performing no filesystem
    /// mutation.
    NotRoot,
    /// The pipeline may run.
    Run,
}

/// Decides from the effective user id and the presence of a target argument
/// whether the pipeline may run. The argument check comes first, the
/// privilege check second, and both precede every privileged operation.
pub fn preflight(euid: u32, has_target: bool) -> (d: Preflight)
    ensures
        d is MissingTarget <==> !has_target,
        d is NotRoot <==> (has_target && euid != 0),
        d is Run <==> (has_target && euid == 0),
{
    if !has_target {
        Preflight::MissingTarget
    } else if euid != 0 {
        Preflight::NotRoot
    } else {
        Preflight::Run
    }
}

/// The exit code of a refused invocation, and nothing for an admitted one.
pub fn refusal_exit_code(d: &Preflight) -> (code: Option<i32>)
    ensures
        d is MissingTarget ==> code == Some(USAGE_EXIT_CODE),
        d is NotRoot ==> code == Some(PRIVILEGE_EXIT_CODE),
        d is Run ==> code is None,
{
    match d {
        Preflight::MissingTarget => Some(USAGE_EXIT_CODE),
        Preflight::NotRoot => Some(PRIVILEGE_EXIT_CODE),
        Preflight::Run => None,
    }
}

} // verus!
