//! How the child command line is put together.
//!
//! The session starts an interactive shell that first runs the target
//! program, ignores its exit status, resets the terminal, and then replaces
//! itself with a fresh interactive shell, so the user lands in a live shell
//! once the program exits.

use vstd::prelude::*;

verus! {

/// Relies on `String::push_str`: appends the given slice onto the end of
/// the string.
pub assume_specification[ String::push_str ](s: &mut String, other: &str)
    ensures
        final(s)@ == old(s)@ + other@,
;

/// What the caller must supply to start a session.
///
/// `shell` is the shell to launch (the caller resolves it from its
/// environment, or takes the default). `program` is the already-resolved
/// path of the target program; resolving it is configuration work outside
/// this library. `workdir` is the directory holding the program's bundled
/// sibling resources, when there is one: the child then runs with that
/// directory as its working directory and the program is invoked by its
/// relative name inside it, so that it finds its siblings.
pub struct LaunchConfig {
    pub shell: String,
    pub program: String,
    pub workdir: Option<String>,
}

/// The default shell used when the caller's environment names none.
pub open spec fn default_shell_spec() -> Seq<char> {
    "/bin/bash"@
}

/// Picks the caller's shell, or the default when the environment gave none.
pub fn shell_or_default(env_shell: Option<String>) -> (s: String)
    ensures
        env_shell is Some ==> s@ == env_shell->0@,
        env_shell is None ==> s@ == default_shell_spec(),
{
    match env_shell {
        Some(sh) => sh,
        None => "/bin/bash".to_owned(),
    }
}

/// How the target program is named on the child's command line: by its
/// relative name when a working directory was chosen for it, by its full
/// path otherwise.
pub open spec fn invocation_of(cfg: LaunchConfig) -> Seq<char> {
    if cfg.workdir is Some {
        "./toke"@
    } else {
        cfg.program@
    }
}

/// The script handed to `shell -c`: run the program, ignore its exit
/// status, clear and reset the terminal, then exec a fresh shell.
pub open spec fn script_of(cfg: LaunchConfig) -> Seq<char> {
    invocation_of(cfg) + " || true; printf '\\033[2J\\033[H\\033[?25h'; clear; exec "@
        + cfg.shell@
}

/// Builds the launch script for the given configuration.
pub fn launch_script(cfg: &LaunchConfig) -> (s: String)
    ensures
        s@ == script_of(*cfg),
{
    let mut s: String = if cfg.workdir.is_some() {
        "./toke".to_owned()
    } else {
        cfg.program.clone()
    };
    s.push_str(" || true; printf '\\033[2J\\033[H\\033[?25h'; clear; exec ");
    s.push_str(cfg.shell.as_str());
    s
}

} // verus!
