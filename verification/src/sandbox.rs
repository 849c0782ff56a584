//! Sandbox backend: executes commands under an external sandboxing tool
//! looked up on the search path.

use vstd::prelude::*;
use crate::command::{strs_view, pairs_view, CommandSpec, ExecutionContext, RunnerError};
use crate::host::{build_host_env, clone_strings, host_env};
use crate::tools::find_executable;

verus! {

/// Remediation message when the sandboxing tool is not on the search path.
pub open spec fn sandbox_missing_message() -> Seq<char> {
    "rattler-sandbox executable not found. Please install it with: pixi global install rattler-sandbox"@
}

/// The argument vector a sandbox policy renders to: its policy fragments in
/// order, then the working-directory binding when one is bound.
pub open spec fn spec_sandbox_args(policy: Seq<Seq<char>>, cwd: Option<Seq<char>>) -> Seq<
    Seq<char>,
> {
    policy + match cwd {
        Some(c) => seq!["--cwd"@, c],
        None => Seq::<Seq<char>>::empty(),
    }
}

/// The sandbox policy consumed by this engine. To the runner it is a
/// rendering object with two operations: bind to a working directory, and
/// render to an argument vector; the policy's meaning lives outside this
/// library, so it is held here as the argument fragments it renders to.
#[derive(Debug, Clone)]
pub struct SandboxConfiguration {
    /// The policy rendered as argument fragments, in order.
    pub policy_args: Vec<String>,
    /// The working directory the policy is bound to, once bound.
    pub cwd: Option<String>,
}

impl SandboxConfiguration {
    /// A policy from its rendered argument fragments, not yet bound to a
    /// working directory.
    pub fn new(policy_args: Vec<String>) -> (r: Self)
        ensures
            r.policy_args == policy_args,
            r.cwd is None,
    {
        Self { policy_args, cwd: None }
    }

    /// The same policy bound to a working directory.
    pub fn with_cwd(&self, cwd: &String) -> (r: Self)
        ensures
            strs_view(r.policy_args@) == strs_view(self.policy_args@),
            r.cwd matches Some(c) && c@ == cwd@,
    {
        Self { policy_args: clone_strings(&self.policy_args), cwd: Some(cwd.clone()) }
    }

    /// Render the policy to an argument vector.
    pub fn to_args(&self) -> (r: Vec<String>)
        ensures
            strs_view(r@) == spec_sandbox_args(
                strs_view(self.policy_args@),
                match self.cwd {
                    Some(c) => Some(c@),
                    None => None,
                },
            ),
    {
        let mut args = clone_strings(&self.policy_args);
        match &self.cwd {
            Some(c) => {
                args.push(String::from_str("--cwd"));
                args.push(c.clone());
                proof {
                    assert(strs_view(args@) =~= spec_sandbox_args(
                        strs_view(self.policy_args@),
                        Some(self.cwd->Some_0@),
                    ));
                }
            },
            None => {
                proof {
                    assert(strs_view(args@) =~= spec_sandbox_args(
                        strs_view(self.policy_args@),
                        None,
                    ));
                }
            },
        }
        args
    }
}

/// What a sandbox invocation looks like for a found tool: the policy bound
/// to the working directory and rendered, then the command arguments
/// verbatim as trailing positional arguments; working directory and
/// environment set exactly as the host backend sets them.
pub open spec fn is_sandbox_command(
    c: CommandSpec,
    exe: Seq<char>,
    config: SandboxConfiguration,
    ctx: ExecutionContext,
) -> bool {
    &&& c.program@ == exe
    &&& strs_view(c.args@) == spec_sandbox_args(
        strs_view(config.policy_args@),
        Some(ctx.work_dir@),
    ) + strs_view(ctx.command_args@)
    &&& c.current_dir matches Some(d) && d@ == ctx.work_dir@
    &&& pairs_view(c.env@) == host_env(ctx)
    &&& !c.stdin_null && !c.stdout_piped && !c.stderr_piped
}

/// Runner that executes commands in a sandboxed environment.
pub struct SandboxRunner {
    /// The sandbox policy for this runner's invocations.
    pub config: SandboxConfiguration,
}

impl SandboxRunner {
    /// Create a new sandbox runner with the given configuration.
    pub fn new(config: SandboxConfiguration) -> (r: Self)
        ensures
            r.config == config,
    {
        Self { config }
    }

    /// The command this runner builds once the sandboxing tool has been
    /// looked up: the full invocation when the tool was found at a path, and
    /// a tool-missing error with remediation text when not.
    pub fn command_for_tool(&self, sandbox_exe: Option<String>, ctx: &ExecutionContext) -> (r:
        Result<CommandSpec, RunnerError>)
        requires
            ctx.wf(),
        ensures
            sandbox_exe matches Some(exe) ==> (r matches Ok(c) && is_sandbox_command(
                c,
                exe@,
                self.config,
                *ctx,
            )),
            sandbox_exe is None ==> (r matches Err(e) && e matches RunnerError::ToolMissing(m)
                && m@ == sandbox_missing_message()),
    {
        let exe = match sandbox_exe {
            Some(exe) => exe,
            None => {
                return Err(RunnerError::ToolMissing(String::from_str(
                    "rattler-sandbox executable not found. Please install it with: pixi global install rattler-sandbox",
                )));
            },
        };
        let bound = self.config.with_cwd(&ctx.work_dir);
        let mut args = bound.to_args();
        let ghost rendered = spec_sandbox_args(
            strs_view(self.config.policy_args@),
            Some(ctx.work_dir@),
        );
        proof {
            assert(strs_view(args@) =~= rendered);
            assert(strs_view(ctx.command_args@.subrange(0, 0)) =~= Seq::<Seq<char>>::empty());
            assert(strs_view(args@) =~= rendered + strs_view(ctx.command_args@.subrange(0, 0)));
        }
        let mut j: usize = 0;
        while j < ctx.command_args.len()
            invariant
                0 <= j <= ctx.command_args@.len(),
                strs_view(args@) == rendered + strs_view(ctx.command_args@.subrange(0, j as int)),
            decreases ctx.command_args@.len() - j,
        {
            let ghost pre = strs_view(args@);
            args.push(ctx.command_args[j].clone());
            proof {
                assert(strs_view(args@) =~= pre.push(ctx.command_args@[j as int]@));
                assert(strs_view(ctx.command_args@.subrange(0, j + 1)) =~= strs_view(
                    ctx.command_args@.subrange(0, j as int),
                ).push(ctx.command_args@[j as int]@));
                assert(strs_view(args@) =~= rendered + strs_view(
                    ctx.command_args@.subrange(0, j + 1),
                ));
            }
            j += 1;
        }
        proof {
            assert(ctx.command_args@.subrange(0, ctx.command_args@.len() as int)
                =~= ctx.command_args@);
        }
        let env = build_host_env(ctx);
        Ok(CommandSpec {
            program: exe,
            args,
            current_dir: Some(ctx.work_dir.clone()),
            env,
            stdin_null: false,
            stdout_piped: false,
            stderr_piped: false,
        })
    }

    /// Build a base command for sandbox execution: look the sandboxing tool
    /// up on the search path, fail with remediation text when it is absent,
    /// and otherwise render the policy bound to the working directory,
    /// followed by the command arguments. Building never spawns anything.
    pub fn build_command(&self, ctx: &ExecutionContext) -> (r: Result<CommandSpec, RunnerError>)
        requires
            ctx.wf(),
        ensures
            r matches Ok(c) ==> exists|exe: Seq<char>|
                is_sandbox_command(c, exe, self.config, *ctx),
            r matches Err(e) ==> (e matches RunnerError::ToolMissing(m) && m@
                == sandbox_missing_message()),
    {
        let found = find_executable("rattler-sandbox");
        self.command_for_tool(found, ctx)
    }
}

} // verus!
