//! Host backend: executes the command directly on the host system.

use vstd::prelude::*;
use crate::command::{strs_view, pairs_view, CommandSpec, ExecutionContext, RunnerError};

verus! {

/// The environment a host-style invocation carries: `PWD` set explicitly to
/// the working directory (some shells misbehave when `PWD` is stale),
/// followed by all context environment variables. Applied in order, so a
/// context entry for `PWD` overrides the explicit one.
pub open spec fn host_env(ctx: ExecutionContext) -> Seq<(Seq<char>, Seq<char>)> {
    seq![("PWD"@, ctx.work_dir@)] + pairs_view(ctx.env_vars@)
}

/// Clone every string of a vector.
pub(crate) fn clone_strings(v: &Vec<String>) -> (r: Vec<String>)
    ensures
        r@.len() == v@.len(),
        forall|i: int| 0 <= i < v@.len() ==> r@[i]@ == v@[i]@,
{
    let mut r: Vec<String> = Vec::new();
    let mut i: usize = 0;
    while i < v.len()
        invariant
            0 <= i <= v@.len(),
            r@.len() == i,
            forall|j: int| 0 <= j < i ==> r@[j]@ == v@[j]@,
        decreases v@.len() - i,
    {
        r.push(v[i].clone());
        i += 1;
    }
    r
}

/// Clone every key/value pair of an ordered environment mapping.
pub(crate) fn clone_env(v: &Vec<(String, String)>) -> (r: Vec<(String, String)>)
    ensures
        r@.len() == v@.len(),
        forall|i: int|
            0 <= i < v@.len() ==> r@[i].0@ == v@[i].0@ && r@[i].1@ == v@[i].1@,
{
    let mut r: Vec<(String, String)> = Vec::new();
    let mut i: usize = 0;
    while i < v.len()
        invariant
            0 <= i <= v@.len(),
            r@.len() == i,
            forall|j: int| 0 <= j < i ==> r@[j].0@ == v@[j].0@ && r@[j].1@ == v@[j].1@,
        decreases v@.len() - i,
    {
        let pair = (v[i].0.clone(), v[i].1.clone());
        r.push(pair);
        i += 1;
    }
    r
}

/// Build the environment entries for a host-style invocation: `PWD` bound to
/// the working directory, then the context's variables.
pub(crate) fn build_host_env(ctx: &ExecutionContext) -> (r: Vec<(String, String)>)
    ensures
        pairs_view(r@) == host_env(*ctx),
{
    let mut env: Vec<(String, String)> = Vec::new();
    let pwd_pair = (String::from_str("PWD"), ctx.work_dir.clone());
    env.push(pwd_pair);
    let rest = clone_env(&ctx.env_vars);
    let mut i: usize = 0;
    while i < rest.len()
        invariant
            0 <= i <= rest@.len(),
            env@.len() == i + 1,
            env@[0].0@ == "PWD"@,
            env@[0].1@ == ctx.work_dir@,
            forall|j: int|
                1 <= j < env@.len()
                    ==> env@[j].0@ == ctx.env_vars@[j - 1].0@ && env@[j].1@ == ctx.env_vars@[j - 1].1@,
            rest@.len() == ctx.env_vars@.len(),
            forall|j: int|
                0 <= j < rest@.len()
                    ==> rest@[j].0@ == ctx.env_vars@[j].0@ && rest@[j].1@ == ctx.env_vars@[j].1@,
        decreases rest@.len() - i,
    {
        let pair = (rest[i].0.clone(), rest[i].1.clone());
        env.push(pair);
        i += 1;
    }
    proof {
        assert(pairs_view(env@) =~= host_env(*ctx));
    }
    env
}

/// What a host invocation looks like: the first context argument executed
/// with the remaining arguments, in the context's working directory, with
/// `PWD` and the context environment set, stdio not yet configured.
pub open spec fn is_host_command(c: CommandSpec, ctx: ExecutionContext) -> bool {
    &&& c.program@ == ctx.command_args@[0]@
    &&& strs_view(c.args@) == strs_view(ctx.command_args@.skip(1))
    &&& c.current_dir matches Some(d) && d@ == ctx.work_dir@
    &&& pairs_view(c.env@) == host_env(ctx)
    &&& !c.stdin_null && !c.stdout_piped && !c.stderr_piped
}

/// Runner that executes commands directly on the host system.
pub struct HostRunner;

impl HostRunner {
    /// Build a base command for host execution.
    ///
    /// The command executes the first context argument with the remaining
    /// arguments, in the context's working directory, with `PWD` and the
    /// context environment set. Building never fails and never spawns.
    pub fn build_command(&self, ctx: &ExecutionContext) -> (r: Result<CommandSpec, RunnerError>)
        requires
            ctx.wf(),
        ensures
            r is Ok,
            r matches Ok(c) ==> is_host_command(c, *ctx),
    {
        let program = ctx.command_args[0].clone();
        let mut args: Vec<String> = Vec::new();
        let mut i: usize = 1;
        while i < ctx.command_args.len()
            invariant
                1 <= i <= ctx.command_args@.len(),
                args@.len() == i - 1,
                forall|j: int| 0 <= j < args@.len() ==> args@[j]@ == ctx.command_args@[j + 1]@,
            decreases ctx.command_args@.len() - i,
        {
            args.push(ctx.command_args[i].clone());
            i += 1;
        }
        let env = build_host_env(ctx);
        proof {
            assert(strs_view(args@) =~= strs_view(ctx.command_args@.skip(1)));
        }
        Ok(CommandSpec {
            program,
            args,
            current_dir: Some(ctx.work_dir.clone()),
            env,
            stdin_null: false,
            stdout_piped: false,
            stderr_piped: false,
        })
    }
}

} // verus!
