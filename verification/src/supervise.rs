//! Exit-status translation for the supervisor process.
//!
//! After the fork, the parent blocks in a single wait on the child (the new
//! PID namespace's first process) and then exits with a code derived from the
//! child's wait outcome. The translation is a pure function from the observed
//! outcome to the supervisor's exit code.

use vstd::prelude::*;

verus! {

/// Exit code the supervisor reports when the child did not exit normally:
/// it was killed by a signal, or the wait itself failed.
pub const SUPERVISOR_FALLBACK_CODE: i32 = 1;

/// What the supervisor's single blocking wait on the child observed.
#[derive(Clone, Copy, Debug)]
pub enum WaitOutcome {
    /// The child exited normally with the given status code.
    Exited(i32),
    /// The child was terminated by a signal.
    Signaled,
    /// The wait call itself failed.
    WaitFailed,
}

/// The exit code the supervisor must exit with after observing `outcome`:
/// a normally exited child's code is propagated unchanged; a signal death or
/// a failed wait is reported with the fixed fallback code.
pub fn supervisor_exit_code(outcome: &WaitOutcome) -> (code: i32)
    ensures
        outcome matches WaitOutcome::Exited(c) ==> code == c,
        !(outcome is Exited) ==> code == SUPERVISOR_FALLBACK_CODE,
{
    match outcome {
        WaitOutcome::Exited(c) => *c,
        WaitOutcome::Signaled => SUPERVISOR_FALLBACK_CODE,
        WaitOutcome::WaitFailed => SUPERVISOR_FALLBACK_CODE,
    }
}

} // verus!
