//! The trusted surface over `portable_pty::CommandBuilder`, and the
//! verified construction of the session's command line from a
//! [`LaunchConfig`](crate::launch::LaunchConfig).
//!
//! A builder value is opaque here; its contents are named by the three
//! spec functions below, and each wrapped method states over those names
//! what the crate's source shows it does.

use vstd::prelude::*;
use crate::launch::LaunchConfig;
use crate::launch::launch_script;
use crate::launch::script_of;

verus! {

#[verifier::external_type_specification]
#[verifier::external_body]
pub struct ExCommandBuilder(portable_pty::CommandBuilder);

/// The argument vector held by a builder, program name first.
pub uninterp spec fn cmd_argv(c: portable_pty::CommandBuilder) -> Seq<Seq<char>>;

/// The environment entries a builder will hand the child, keyed by the
/// name under which each variable was set.
pub uninterp spec fn cmd_env_of(c: portable_pty::CommandBuilder) -> Map<Seq<char>, Seq<char>>;

/// The working directory a builder will give the child, when one was set.
pub uninterp spec fn cmd_cwd(c: portable_pty::CommandBuilder) -> Option<Seq<char>>;

/// Relies on `CommandBuilder::new`: the new builder holds the program as
/// its only argument, no working directory, and the inherited base
/// environment (of which nothing is stated).
#[verifier::external_body]
pub(crate) fn cmd_new(program: &str) -> (c: portable_pty::CommandBuilder)
    ensures
        cmd_argv(c) == seq![program@],
        cmd_cwd(c) == None::<Seq<char>>,
{
    portable_pty::CommandBuilder::new(program)
}

/// Relies on `CommandBuilder::arg`: appends one argument. It panics only
/// on a builder with an empty argument vector (one made without a
/// program), which the precondition rules out.
#[verifier::external_body]
pub(crate) fn cmd_arg(c: &mut portable_pty::CommandBuilder, arg: &str)
    requires
        cmd_argv(*old(c)).len() > 0,
    ensures
        cmd_argv(*final(c)) == cmd_argv(*old(c)).push(arg@),
        cmd_env_of(*final(c)) == cmd_env_of(*old(c)),
        cmd_cwd(*final(c)) == cmd_cwd(*old(c)),
{
    c.arg(arg);
}

/// Relies on `CommandBuilder::env`: sets one environment variable for the
/// child, leaving arguments and working directory alone.
#[verifier::external_body]
pub(crate) fn cmd_env(c: &mut portable_pty::CommandBuilder, key: &str, value: &str)
    ensures
        cmd_env_of(*final(c)).contains_pair(key@, value@),
        cmd_argv(*final(c)) == cmd_argv(*old(c)),
        cmd_cwd(*final(c)) == cmd_cwd(*old(c)),
{
    c.env(key, value);
}

/// Relies on `CommandBuilder::cwd`: sets the child's working directory,
/// leaving arguments and environment alone.
#[verifier::external_body]
pub(crate) fn cmd_cwd_set(c: &mut portable_pty::CommandBuilder, dir: &str)
    ensures
        cmd_cwd(*final(c)) == Some(dir@),
        cmd_argv(*final(c)) == cmd_argv(*old(c)),
        cmd_env_of(*final(c)) == cmd_env_of(*old(c)),
{
    c.cwd(dir);
}

/// What the child's working directory must be for a configuration: the
/// bundled resource directory when one was given, otherwise inherited.
pub open spec fn cwd_of(cfg: LaunchConfig) -> Option<Seq<char>> {
    match cfg.workdir {
        Some(d) => Some(d@),
        None => None,
    }
}

/// Assembles the command line the session spawns: the configured shell,
/// given `-c` and the launch script, with the terminal type set for the
/// child and the working directory applied when one was configured.
pub fn build_command(cfg: &LaunchConfig) -> (c: portable_pty::CommandBuilder)
    ensures
        cmd_argv(c) == seq![cfg.shell@, "-c"@, script_of(*cfg)],
        cmd_env_of(c).contains_pair("TERM"@, "xterm-256color"@),
        cmd_cwd(c) == cwd_of(*cfg),
{
    let mut c = cmd_new(cfg.shell.as_str());
    cmd_env(&mut c, "TERM", "xterm-256color");
    cmd_arg(&mut c, "-c");
    let script = launch_script(cfg);
    cmd_arg(&mut c, script.as_str());
    match &cfg.workdir {
        Some(dir) => {
            cmd_cwd_set(&mut c, dir.as_str());
        }
        None => {}
    }
    proof {
        assert(cmd_argv(c) =~= seq![cfg.shell@, "-c"@, script_of(*cfg)]);
    }
    c
}

} // verus!
