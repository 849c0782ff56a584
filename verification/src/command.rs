//! Shared data for one command invocation: the execution context handed to a
//! backend, the constructed (not yet spawned) command, the result of a run,
//! and the errors a backend can raise before anything is spawned.

use vstd::prelude::*;
use crate::mounts::VolumeMount;

verus! {

/// View of a sequence of owned strings as a sequence of character sequences.
pub open spec fn strs_view(s: Seq<String>) -> Seq<Seq<char>> {
    s.map_values(|x: String| x@)
}

/// View of an ordered environment mapping as a sequence of key/value pairs.
pub open spec fn pairs_view(s: Seq<(String, String)>) -> Seq<(Seq<char>, Seq<char>)> {
    s.map_values(|p: (String, String)| (p.0@, p.1@))
}

/// Errors a backend can raise while building a command, before any child
/// process is spawned.
#[derive(Debug)]
pub enum RunnerError {
    /// A required external executable was not found or is not functional.
    /// Carries a remediation message telling the user how to install it.
    ToolMissing(String),
    /// The backend cannot run on this host operating system.
    UnsupportedPlatform(String),
}

impl RunnerError {
    /// The human-actionable message carried by this error.
    pub fn message(&self) -> (r: &String)
        ensures
            self matches RunnerError::ToolMissing(m) ==> r@ == m@,
            self matches RunnerError::UnsupportedPlatform(m) ==> r@ == m@,
    {
        match self {
            RunnerError::ToolMissing(m) => m,
            RunnerError::UnsupportedPlatform(m) => m,
        }
    }

    /// True when this error reports a missing external tool.
    pub fn is_tool_missing(&self) -> (r: bool)
        ensures
            r == (self matches RunnerError::ToolMissing(_)),
    {
        matches!(self, RunnerError::ToolMissing(_))
    }
}

/// The inputs shared by all backends for one invocation: argument vector,
/// working directory, environment variables, and mount list.
///
/// Constructed fresh per invocation; backends do not retain it.
pub struct ExecutionContext {
    /// The command and its arguments; never empty.
    pub command_args: Vec<String>,
    /// The working directory for the command.
    pub work_dir: String,
    /// Environment variables, in insertion order, keys unique.
    pub env_vars: Vec<(String, String)>,
    /// Volume mounts to expose inside an isolated environment.
    pub mounts: Vec<VolumeMount>,
}

impl ExecutionContext {
    /// Well-formedness: the argument vector is non-empty and environment
    /// keys are unique.
    pub open spec fn wf(&self) -> bool {
        &&& self.command_args@.len() > 0
        &&& forall|i: int, j: int|
            0 <= i < j < self.env_vars@.len() ==> self.env_vars@[i].0@ != self.env_vars@[j].0@
    }
}

/// A fully configured, not-yet-spawned process invocation: destination
/// program, arguments, working directory, environment, and stdio policy.
///
/// The streaming engine (outside this library) turns this description into a
/// real child process; building one never spawns anything.
#[derive(Debug)]
pub struct CommandSpec {
    /// The program to execute.
    pub program: String,
    /// Arguments passed to the program, in order.
    pub args: Vec<String>,
    /// Working directory for the child, when one is set.
    pub current_dir: Option<String>,
    /// Environment entries applied in order; a later entry overrides an
    /// earlier one with the same key.
    pub env: Vec<(String, String)>,
    /// Whether the child's stdin is closed.
    pub stdin_null: bool,
    /// Whether the child's stdout is captured through a pipe.
    pub stdout_piped: bool,
    /// Whether the child's stderr is captured through a pipe.
    pub stderr_piped: bool,
}

impl CommandSpec {
    /// Configure stdio for streaming capture: stdin closed, stdout and
    /// stderr piped. Everything else is left unchanged.
    pub fn configure_stdio(&mut self)
        ensures
            final(self).stdin_null,
            final(self).stdout_piped,
            final(self).stderr_piped,
            final(self).program == old(self).program,
            final(self).args == old(self).args,
            final(self).current_dir == old(self).current_dir,
            final(self).env == old(self).env,
    {
        self.stdin_null = true;
        self.stdout_piped = true;
        self.stderr_piped = true;
    }
}

/// The outcome of one command invocation: exit status plus the redacted
/// output captured from each stream.
pub struct ExecutionResult {
    /// The child's exit code, when the platform reported one.
    pub exit_code: Option<i32>,
    /// Whether the child exited successfully.
    pub success: bool,
    /// Captured, redacted stdout, one line per physical output line.
    pub stdout: String,
    /// Captured, redacted stderr, one line per physical output line.
    pub stderr: String,
}

} // verus!
