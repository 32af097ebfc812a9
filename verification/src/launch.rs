//! The command and the reconstructed environment for the final exec.
//!
//! The process image is replaced under a deliberately minimal, fully
//! enumerated environment, assembled here rather than inherited, so nothing
//! host-specific leaks into the isolated process beyond the caller's shell
//! and terminal names. The command defaults to a single interactive shell
//! when the caller supplied none.

use vstd::prelude::*;
use vstd::string::StringExecFns;

verus! {

/// The command executed when the caller names none: an interactive shell.
pub open spec fn default_command_text() -> Seq<char> {
    "/bin/sh"@
}

/// The fixed `HOME` entry of the reconstructed environment.
pub open spec fn home_entry() -> Seq<char> {
    "HOME=/root"@
}

/// The fixed `PATH` entry of the reconstructed environment.
pub open spec fn path_entry() -> Seq<char> {
    "PATH=/usr/sbin:/usr/bin:/sbin:/bin"@
}

/// The text of an inherited variable: its value when the invoker's
/// environment has it, and empty when it does not. An unset variable is
/// still passed, with an empty value, not omitted.
pub open spec fn inherited_text(v: Option<String>) -> Seq<char> {
    match v {
        Some(s) => s@,
        None => Seq::<char>::empty(),
    }
}

/// The `SHELL` entry, inheriting the invoker's value.
pub open spec fn shell_entry(shell: Option<String>) -> Seq<char> {
    "SHELL="@ + inherited_text(shell)
}

/// The `TERM` entry, inheriting the invoker's value.
pub open spec fn term_entry(term: Option<String>) -> Seq<char> {
    "TERM="@ + inherited_text(term)
}

/// The whole reconstructed environment: exactly `HOME`, `SHELL`, `PATH` and
/// `TERM`, in that order, and nothing else.
pub open spec fn env_ok(s: Seq<String>, shell: Option<String>, term: Option<String>) -> bool {
    &&& s.len() == 4
    &&& s[0]@ == home_entry()
    &&& s[1]@ == shell_entry(shell)
    &&& s[2]@ == path_entry()
    &&& s[3]@ == term_entry(term)
}

/// The command the exec receives: the caller's arguments unchanged when any
/// were given, and the single-element default shell invocation otherwise.
pub open spec fn command_ok(cmd: Seq<String>, args: Seq<String>) -> bool {
    &&& args.len() > 0 ==> cmd == args
    &&& args.len() == 0 ==> cmd.len() == 1 && cmd[0]@ == default_command_text()
}

/// Assembles the minimal environment from the invoker's `SHELL` and `TERM`
/// values, each empty rather than omitted when unset.
pub fn build_env(shell: Option<String>, term: Option<String>) -> (env: Vec<String>)
    ensures
        env_ok(env@, shell, term),
{
    let mut env: Vec<String> = Vec::new();
    env.push("HOME=/root".to_owned());
    let mut sh = "SHELL=".to_owned();
    match &shell {
        Some(s) => sh.append(s.as_str()),
        None => {
            proof {
                assert(sh@ + Seq::<char>::empty() =~= sh@);
            }
        },
    }
    env.push(sh);
    env.push("PATH=/usr/sbin:/usr/bin:/sbin:/bin".to_owned());
    let mut tm = "TERM=".to_owned();
    match &term {
        Some(s) => tm.append(s.as_str()),
        None => {
            proof {
                assert(tm@ + Seq::<char>::empty() =~= tm@);
            }
        },
    }
    env.push(tm);
    env
}

/// Returns the caller's command, or the default shell invocation when the
/// caller supplied no command at all.
pub fn command_or_default(args: Vec<String>) -> (cmd: Vec<String>)
    ensures
        command_ok(cmd@, args@),
{
    if args.len() == 0 {
        let mut cmd: Vec<String> = Vec::new();
        cmd.push("/bin/sh".to_owned());
        cmd
    } else {
        args
    }
}

} // verus!
