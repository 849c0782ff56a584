//! Runner selection and dispatch: the closed set of execution backends, the
//! configuration that picks one, and the factory that binds backend state
//! (the container backend's resolved mount list).

use vstd::prelude::*;
use crate::command::{CommandSpec, ExecutionContext, RunnerError};
use crate::docker::{
    docker_missing_message, is_docker_command, DockerConfiguration, DockerRunner,
};
use crate::host::{is_host_command, HostRunner};
use crate::mounts::{
    mounts_view, resolve_mount_paths, spec_resolve, VolumeAccessMode, VolumeMount,
};
use crate::sandbox::{
    is_sandbox_command, sandbox_missing_message, SandboxConfiguration, SandboxRunner,
};

verus! {

/// A runner ready for executing commands: one of the closed set of backends,
/// together with any bound backend state.
pub enum Runner {
    /// Host runner
    Host(HostRunner),
    /// Sandbox runner
    Sandbox(SandboxRunner),
    /// Docker runner with its bound, resolved volume mounts
    Docker(DockerRunner, Vec<VolumeMount>),
}

impl Runner {
    /// Build a base command for the given execution context.
    ///
    /// The command comes back fully configured for this backend's
    /// environment and not yet spawned; spawning is the streaming engine's
    /// responsibility. `uid` and `gid` identify the invoking user and enter
    /// only the container invocation's user mapping.
    pub fn build_command(&self, ctx: &ExecutionContext, uid: u32, gid: u32) -> (r: Result<
        CommandSpec,
        RunnerError,
    >)
        requires
            ctx.wf(),
            self matches Runner::Docker(d, _) ==> d.config.wf(),
        ensures
            self matches Runner::Host(_) ==> (r matches Ok(c) && is_host_command(c, *ctx)),
            self matches Runner::Sandbox(s) ==> {
                &&& r matches Ok(c) ==> exists|exe: Seq<char>|
                    is_sandbox_command(c, exe, s.config, *ctx)
                &&& r matches Err(e) ==> (e matches RunnerError::ToolMissing(m) && m@
                    == sandbox_missing_message())
            },
            self matches Runner::Docker(d, ms) ==> {
                &&& r matches Ok(c) ==> is_docker_command(
                    c,
                    d.config,
                    mounts_view(ms@),
                    *ctx,
                    uid,
                    gid,
                )
                &&& r matches Err(e) ==> (e matches RunnerError::ToolMissing(m) && m@
                    == docker_missing_message())
            },
    {
        match self {
            Runner::Host(runner) => runner.build_command(ctx),
            Runner::Sandbox(runner) => runner.build_command(ctx),
            Runner::Docker(runner, mounts) => runner.build_command_with_mounts(
                ctx,
                mounts,
                uid,
                gid,
            ),
        }
    }
}

/// The access mode a resolved mount path gets: the working directory is
/// writable, a configured path keeps its configured mode (first entry wins),
/// and a path present only as a parent directory is read-only.
pub open spec fn spec_lookup_mode(
    ms: Seq<(Seq<char>, VolumeAccessMode)>,
    path: Seq<char>,
) -> Option<VolumeAccessMode>
    decreases ms.len(),
{
    if ms.len() == 0 {
        None
    } else if ms[0].0 == path {
        Some(ms[0].1)
    } else {
        spec_lookup_mode(ms.skip(1), path)
    }
}

/// See `spec_lookup_mode`.
pub open spec fn spec_mode_for(
    path: Seq<char>,
    work_dir: Seq<char>,
    configured: Seq<(Seq<char>, VolumeAccessMode)>,
) -> VolumeAccessMode {
    if path == work_dir {
        VolumeAccessMode::ReadWrite
    } else {
        match spec_lookup_mode(configured, path) {
            Some(m) => m,
            None => VolumeAccessMode::ReadOnly,
        }
    }
}

/// The bound mount list of the container backend: the working directory and
/// every configured path, each with its parent directory, deduplicated, each
/// resolved path carrying the mode `spec_mode_for` gives it.
pub open spec fn spec_bound_mounts(
    work_dir: Seq<char>,
    configured: Seq<(Seq<char>, VolumeAccessMode)>,
) -> Seq<(Seq<char>, VolumeAccessMode)> {
    spec_resolve(seq![work_dir] + configured.map_values(|m: (Seq<char>, VolumeAccessMode)| m.0))
        .map_values(|p: Seq<char>| (p, spec_mode_for(p, work_dir, configured)))
}

/// The access mode for one resolved path.
fn mode_for(path: &String, work_dir: &String, configured: &Vec<VolumeMount>) -> (r:
    VolumeAccessMode)
    ensures
        r == spec_mode_for(path@, work_dir@, mounts_view(configured@)),
{
    let ghost cv = mounts_view(configured@);
    if path.eq(work_dir) {
        return VolumeAccessMode::ReadWrite;
    }
    let mut i: usize = 0;
    proof {
        assert(cv.skip(0) =~= cv);
    }
    while i < configured.len()
        invariant
            0 <= i <= configured@.len(),
            cv == mounts_view(configured@),
            path@ != work_dir@,
            spec_lookup_mode(cv.skip(i as int), path@) == spec_lookup_mode(cv, path@),
        decreases configured@.len() - i,
    {
        let ghost rest = cv.skip(i as int);
        proof {
            assert(rest[0] == cv[i as int]);
            assert(rest.skip(1) =~= cv.skip(i + 1));
        }
        if configured[i].path.eq(path) {
            proof {
                assert(rest[0].0 == path@);
                assert(spec_lookup_mode(rest, path@) == Some(rest[0].1));
            }
            return configured[i].access_mode;
        }
        i += 1;
    }
    proof {
        assert(cv.skip(configured@.len() as int)
            =~= Seq::<(Seq<char>, VolumeAccessMode)>::empty());
    }
    VolumeAccessMode::ReadOnly
}

/// Resolve and bind the container backend's mounts for a build: the working
/// directory plus every configured mount path, each with its parent
/// directory, deduplicated deterministically; modes as `spec_mode_for`.
pub fn bind_mounts(work_dir: &String, configured: &Vec<VolumeMount>) -> (r: Vec<VolumeMount>)
    ensures
        mounts_view(r@) == spec_bound_mounts(work_dir@, mounts_view(configured@)),
{
    let ghost cv = mounts_view(configured@);
    let mut paths: Vec<String> = Vec::new();
    paths.push(work_dir.clone());
    let mut i: usize = 0;
    while i < configured.len()
        invariant
            0 <= i <= configured@.len(),
            paths@.len() == i + 1,
            paths@[0]@ == work_dir@,
            forall|j: int| 1 <= j < paths@.len() ==> paths@[j]@ == configured@[j - 1].path@,
        decreases configured@.len() - i,
    {
        paths.push(configured[i].path.clone());
        i += 1;
    }
    proof {
        assert(crate::command::strs_view(paths@) =~= seq![work_dir@] + cv.map_values(
            |m: (Seq<char>, VolumeAccessMode)| m.0,
        ));
    }
    let resolved = resolve_mount_paths(&paths);
    let ghost rv = crate::command::strs_view(resolved@);
    let mut out: Vec<VolumeMount> = Vec::new();
    let mut k: usize = 0;
    while k < resolved.len()
        invariant
            0 <= k <= resolved@.len(),
            rv == crate::command::strs_view(resolved@),
            cv == mounts_view(configured@),
            out@.len() == k,
            forall|j: int|
                0 <= j < k ==> out@[j].path@ == rv[j] && out@[j].access_mode == spec_mode_for(
                    rv[j],
                    work_dir@,
                    cv,
                ),
        decreases resolved@.len() - k,
    {
        let mode = mode_for(&resolved[k], work_dir, configured);
        let m = VolumeMount { path: resolved[k].clone(), access_mode: mode };
        out.push(m);
        k += 1;
    }
    proof {
        assert(mounts_view(out@) =~= spec_bound_mounts(work_dir@, cv));
    }
    out
}

/// Clone a mount list.
fn clone_mounts(v: &Vec<VolumeMount>) -> (r: Vec<VolumeMount>)
    ensures
        mounts_view(r@) == mounts_view(v@),
{
    let mut r: Vec<VolumeMount> = Vec::new();
    let mut i: usize = 0;
    while i < v.len()
        invariant
            0 <= i <= v@.len(),
            r@.len() == i,
            forall|j: int|
                0 <= j < i ==> r@[j].path@ == v@[j].path@ && r@[j].access_mode
                    == v@[j].access_mode,
        decreases v@.len() - i,
    {
        let m = VolumeMount { path: v[i].path.clone(), access_mode: v[i].access_mode };
        r.push(m);
        i += 1;
    }
    proof {
        assert(mounts_view(r@) =~= mounts_view(v@));
    }
    r
}

/// Configuration for selecting and configuring a runner: the single source
/// of truth for which backend a build uses. Constructed once per build.
#[derive(Debug, Clone)]
pub enum RunnerConfiguration {
    /// Execute directly on the host system
    Host,
    /// Execute in a sandboxed environment
    Sandbox(SandboxConfiguration),
    /// Execute in a Docker container, with additional volume mounts
    Docker(DockerConfiguration, Vec<VolumeMount>),
}

impl RunnerConfiguration {
    /// Check if this is a host runner.
    pub fn is_host(&self) -> (r: bool)
        ensures
            r == (self matches RunnerConfiguration::Host),
    {
        matches!(self, RunnerConfiguration::Host)
    }

    /// Check if this is a sandbox runner.
    pub fn is_sandbox(&self) -> (r: bool)
        ensures
            r == (self matches RunnerConfiguration::Sandbox(_)),
    {
        matches!(self, RunnerConfiguration::Sandbox(_))
    }

    /// Check if this is a docker runner.
    pub fn is_docker(&self) -> (r: bool)
        ensures
            r == (self matches RunnerConfiguration::Docker(_, _)),
    {
        matches!(self, RunnerConfiguration::Docker(_, _))
    }

    /// Instantiate the backend this configuration selects, binding the
    /// container backend's resolved mount list to the build's working
    /// directory so repeated invocations reuse it. The caller canonicalizes
    /// the configured paths first, best-effort.
    pub fn prepare(self, work_dir: &String) -> (r: Runner)
        ensures
            self matches RunnerConfiguration::Host ==> r matches Runner::Host(_),
            self matches RunnerConfiguration::Sandbox(c) ==> (r matches Runner::Sandbox(s)
                && s.config == c),
            self matches RunnerConfiguration::Docker(c, extra) ==> (r matches Runner::Docker(
                d,
                ms,
            ) && {
                &&& d.config == c
                &&& mounts_view(d.mounts@) == spec_bound_mounts(work_dir@, mounts_view(extra@))
                &&& mounts_view(ms@) == spec_bound_mounts(work_dir@, mounts_view(extra@))
            }),
    {
        match self {
            RunnerConfiguration::Host => Runner::Host(HostRunner),
            RunnerConfiguration::Sandbox(config) => Runner::Sandbox(SandboxRunner::new(config)),
            RunnerConfiguration::Docker(config, extra) => {
                let bound = bind_mounts(work_dir, &extra);
                let bound_copy = clone_mounts(&bound);
                Runner::Docker(DockerRunner::new(config, bound), bound_copy)
            },
        }
    }
}

} // verus!
