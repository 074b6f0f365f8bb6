//! The plan for launching the child: its streams, its environment and its
//! working directory, as plain values that the launcher carries out.

use vstd::prelude::*;
use crate::config::{Config, EnvironmentalVariable};
use crate::environment::{distinct_names, env_map, merge_environment};
use crate::redirection::{
    file_read_mode,
    file_write_mode,
    named_target,
    stderr_redirection,
    stdin_redirection,
    stdout_redirection,
    target_path,
    StreamTarget,
};

verus! {

/// Everything that is decided about a launch before anything is opened or
/// started.
#[derive(Debug, PartialEq, Eq)]
pub struct LaunchPlan {
    pub stdin: StreamTarget,
    pub stdout: StreamTarget,
    pub stderr: StreamTarget,
    /// The complete environment of the child; no name occurs twice.
    pub env: Vec<EnvironmentalVariable>,
    /// The working directory of the child.
    pub cwd: String,
}

impl LaunchPlan {
    /// The number of files that are opened for the child's two output
    /// streams.
    pub open spec fn output_files(&self) -> nat {
        let out: nat = if self.stdout is File { 1 } else { 0 };
        let err: nat = if self.stderr is File { 1 } else { 0 };
        out + err
    }
}

/// Plans the launch of the configured command in the environment that the
/// supervisor itself inherited.
///
/// Standard input is read from its source and standard output written to
/// its sink, the null device where none is configured. Standard error is
/// merged into standard output where both name the same target, so that a
/// single file is opened for the two; otherwise it gets a sink of its own.
/// The environment is the inherited one with the configured entries laid
/// over it.
pub fn create_popen_config(config: &Config, inherited: &Vec<EnvironmentalVariable>) -> (plan:
    LaunchPlan)
    ensures
        plan.stdin.is_file(target_path(config.streams.stdin), file_read_mode()),
        plan.stdout.is_file(target_path(config.streams.stdout), file_write_mode()),
        named_target(config.streams.stdout) == named_target(config.streams.stderr) ==> plan.stderr
            == StreamTarget::Merge && plan.output_files() == 1,
        named_target(config.streams.stdout) != named_target(config.streams.stderr)
            ==> plan.stderr.is_file(target_path(config.streams.stderr), file_write_mode())
            && plan.output_files() == 2,
        distinct_names(plan.env@),
        env_map(plan.env@) == env_map(inherited@).union_prefer_right(env_map(config.env@)),
        plan.cwd@ == config.cwd@,
{
    LaunchPlan {
        stdin: stdin_redirection(config),
        stdout: stdout_redirection(config),
        stderr: stderr_redirection(config),
        env: merge_environment(inherited, &config.env),
        cwd: config.cwd.clone(),
    }
}

} // verus!
