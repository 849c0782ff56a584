//! Docker backend: executes commands inside a Docker container.
//!
//! The invocation shape is fixed:
//! `run --rm --user <uid>:<gid> [--network=none] (-v <path>:<path>[:ro])* -w <work_dir> <image> <command_args...>`.
//! The user/group mapping matches the invoking user, to avoid permission
//! mismatches on mounted paths; it is always present because the backend
//! refuses to run at all on a platform without native Linux containers.

use vstd::prelude::*;
use crate::command::{strs_view, CommandSpec, ExecutionContext, RunnerError};
use crate::decimal::{spec_decimal, u32_decimal};
use crate::mounts::{mounts_view, VolumeAccessMode, VolumeMount};
use crate::tools::find_executable;

verus! {

/// Remediation message when the container engine is not on the search path.
pub open spec fn docker_missing_message() -> Seq<char> {
    "Docker is not available. Please install Docker to use the docker runner."@
}

/// Message when the host operating system cannot run Linux containers.
pub open spec fn unsupported_platform_message() -> Seq<char> {
    "Docker runner is not supported on Windows: Windows cannot reliably build packages for Linux targets"@
}

/// The user/group mapping flag value: `<uid>:<gid>`.
pub open spec fn user_mapping(uid: u32, gid: u32) -> Seq<char> {
    spec_decimal(uid as nat) + ":"@ + spec_decimal(gid as nat)
}

/// One mount flag value: the path mounted at the same path inside the
/// container, with a read-only suffix when the mount is read-only.
pub open spec fn mount_arg(path: Seq<char>, mode: VolumeAccessMode) -> Seq<char> {
    path + ":"@ + path + if mode is ReadOnly {
        ":ro"@
    } else {
        Seq::<char>::empty()
    }
}

/// The mount flags: `-v <mount_arg>` for each mount, in mount order.
pub open spec fn spec_mount_args(ms: Seq<(Seq<char>, VolumeAccessMode)>) -> Seq<Seq<char>>
    decreases ms.len(),
{
    if ms.len() == 0 {
        Seq::empty()
    } else {
        seq!["-v"@, mount_arg(ms[0].0, ms[0].1)] + spec_mount_args(ms.skip(1))
    }
}

/// The complete container argument vector for one invocation.
pub open spec fn spec_docker_argv(
    image: Seq<char>,
    allow_network: bool,
    ms: Seq<(Seq<char>, VolumeAccessMode)>,
    work_dir: Seq<char>,
    uid: u32,
    gid: u32,
    cmd: Seq<Seq<char>>,
) -> Seq<Seq<char>> {
    seq!["run"@, "--rm"@, "--user"@, user_mapping(uid, gid)] + (if !allow_network {
        seq!["--network=none"@]
    } else {
        Seq::<Seq<char>>::empty()
    }) + spec_mount_args(ms) + seq!["-w"@, work_dir, image] + cmd
}

/// Raw selection flags for the Docker backend, as upstream configuration
/// hands them over (the command line carries exactly these three).
#[derive(Debug, Clone)]
pub struct DockerArguments {
    /// Enable the Docker runner.
    pub docker: bool,
    /// Docker image to use for build execution; required when `docker` is
    /// enabled.
    pub docker_image: Option<String>,
    /// Allow network access during the Docker build; isolated by default.
    pub docker_allow_network: bool,
}

impl DockerArguments {
    /// The configuration these flags select: nothing when the Docker runner
    /// is disabled, otherwise the image with its network policy. Enabling
    /// Docker without an image is rejected before this point.
    pub fn to_configuration(self) -> (r: Option<DockerConfiguration>)
        requires
            self.docker ==> (self.docker_image matches Some(s) && s@.len() > 0),
        ensures
            !self.docker ==> r is None,
            self.docker ==> (r matches Some(c) && {
                &&& self.docker_image matches Some(s) && c.image@ == s@
                &&& c.allow_network == self.docker_allow_network
                &&& c.wf()
            }),
    {
        if !self.docker {
            return None;
        }
        match self.docker_image {
            Some(image) => Some(DockerConfiguration { image, allow_network: self.docker_allow_network }),
            None => None,
        }
    }
}

/// Configuration for the Docker runner.
#[derive(Debug, Clone)]
pub struct DockerConfiguration {
    /// The Docker image to use for execution.
    pub image: String,
    /// Whether to allow network access during execution.
    pub allow_network: bool,
}

impl DockerConfiguration {
    /// A usable configuration names a non-empty image; enabling the
    /// container backend without one is a configuration error caught before
    /// a configuration is constructed.
    pub open spec fn wf(&self) -> bool {
        self.image@.len() > 0
    }

    /// Create a new Docker configuration with the given image. Network
    /// access is isolated unless enabled afterwards.
    pub fn new(image: String) -> (r: Self)
        requires
            image@.len() > 0,
        ensures
            r.image == image,
            !r.allow_network,
            r.wf(),
    {
        Self { image, allow_network: false }
    }

    /// Set whether to allow network access.
    pub fn with_network(self, allow_network: bool) -> (r: Self)
        ensures
            r.image == self.image,
            r.allow_network == allow_network,
    {
        Self { image: self.image, allow_network }
    }
}

/// Refuse the Docker backend on a host operating system that cannot run
/// Linux-target containers natively; the caller reports whether this host
/// can. The refusal comes before any command is built.
pub fn ensure_platform_supported(native_linux_containers: bool) -> (r: Result<(), RunnerError>)
    ensures
        native_linux_containers ==> r is Ok,
        !native_linux_containers ==> (r matches Err(e)
            && e matches RunnerError::UnsupportedPlatform(m) && m@ == unsupported_platform_message()),
{
    if native_linux_containers {
        Ok(())
    } else {
        Err(RunnerError::UnsupportedPlatform(String::from_str(
            "Docker runner is not supported on Windows: Windows cannot reliably build packages for Linux targets",
        )))
    }
}

/// Build one mount flag value.
fn mount_arg_exec(m: &VolumeMount) -> (r: String)
    ensures
        r@ == mount_arg(m.path@, m.access_mode),
{
    let mut s = m.path.clone();
    s.append(":");
    s.append(m.path.as_str());
    match m.access_mode {
        VolumeAccessMode::ReadOnly => s.append(":ro"),
        VolumeAccessMode::ReadWrite => (),
    }
    s
}

/// Assemble the container argument vector.
fn docker_args(
    config: &DockerConfiguration,
    mounts: &Vec<VolumeMount>,
    work_dir: &String,
    uid: u32,
    gid: u32,
    command_args: &Vec<String>,
) -> (r: Vec<String>)
    ensures
        strs_view(r@) == spec_docker_argv(
            config.image@,
            config.allow_network,
            mounts_view(mounts@),
            work_dir@,
            uid,
            gid,
            strs_view(command_args@),
        ),
{
    let ghost mv = mounts_view(mounts@);
    let mut args: Vec<String> = Vec::new();
    args.push(String::from_str("run"));
    args.push(String::from_str("--rm"));
    args.push(String::from_str("--user"));
    let mut user = u32_decimal(uid);
    user.append(":");
    let gid_text = u32_decimal(gid);
    user.append(gid_text.as_str());
    args.push(user);
    if !config.allow_network {
        args.push(String::from_str("--network=none"));
    }
    let ghost head = seq!["run"@, "--rm"@, "--user"@, user_mapping(uid, gid)]
        + (if !config.allow_network {
        seq!["--network=none"@]
    } else {
        Seq::<Seq<char>>::empty()
    });
    proof {
        assert(strs_view(args@) =~= head);
        assert(mv.skip(0) =~= mv);
    }
    let mut i: usize = 0;
    while i < mounts.len()
        invariant
            0 <= i <= mounts@.len(),
            mv == mounts_view(mounts@),
            strs_view(args@) + spec_mount_args(mv.skip(i as int)) == head + spec_mount_args(mv),
        decreases mounts@.len() - i,
    {
        let ghost pre = strs_view(args@);
        let ghost rest = mv.skip(i as int);
        args.push(String::from_str("-v"));
        let ma = mount_arg_exec(&mounts[i]);
        args.push(ma);
        proof {
            assert(rest[0] == mv[i as int]);
            assert(strs_view(args@) =~= pre + seq!["-v"@, mount_arg(rest[0].0, rest[0].1)]);
            assert(rest.skip(1) =~= mv.skip(i + 1));
            assert(strs_view(args@) + spec_mount_args(mv.skip(i + 1)) =~= head + spec_mount_args(
                mv,
            ));
        }
        i += 1;
    }
    proof {
        assert(mv.skip(mounts@.len() as int) =~= Seq::<(Seq<char>, VolumeAccessMode)>::empty());
        assert(strs_view(args@) + Seq::<Seq<char>>::empty() =~= strs_view(args@));
        assert(strs_view(args@) == head + spec_mount_args(mv));
    }
    args.push(String::from_str("-w"));
    args.push(work_dir.clone());
    args.push(config.image.clone());
    let ghost mid = head + spec_mount_args(mv) + seq!["-w"@, work_dir@, config.image@];
    proof {
        assert(strs_view(args@) =~= mid);
        assert(strs_view(command_args@.subrange(0, 0)) =~= Seq::<Seq<char>>::empty());
        assert(strs_view(args@) =~= mid + strs_view(command_args@.subrange(0, 0)));
    }
    let mut j: usize = 0;
    while j < command_args.len()
        invariant
            0 <= j <= command_args@.len(),
            strs_view(args@) == mid + strs_view(command_args@.subrange(0, j as int)),
        decreases command_args@.len() - j,
    {
        let ghost pre = strs_view(args@);
        args.push(command_args[j].clone());
        proof {
            assert(strs_view(args@) =~= pre.push(command_args@[j as int]@));
            assert(strs_view(command_args@.subrange(0, j + 1)) =~= strs_view(
                command_args@.subrange(0, j as int),
            ).push(command_args@[j as int]@));
            assert(strs_view(args@) =~= mid + strs_view(command_args@.subrange(0, j + 1)));
        }
        j += 1;
    }
    proof {
        assert(command_args@.subrange(0, command_args@.len() as int) =~= command_args@);
        assert(strs_view(args@) =~= spec_docker_argv(
            config.image@,
            config.allow_network,
            mv,
            work_dir@,
            uid,
            gid,
            strs_view(command_args@),
        ));
    }
    args
}

/// What a container invocation looks like: the engine called by name with
/// the fixed-shape argument vector; the container's working directory comes
/// from the argument vector itself, so the client process needs neither a
/// working directory nor environment entries.
pub open spec fn is_docker_command(
    c: CommandSpec,
    config: DockerConfiguration,
    ms: Seq<(Seq<char>, VolumeAccessMode)>,
    ctx: ExecutionContext,
    uid: u32,
    gid: u32,
) -> bool {
    &&& c.program@ == "docker"@
    &&& strs_view(c.args@) == spec_docker_argv(
        config.image@,
        config.allow_network,
        ms,
        ctx.work_dir@,
        uid,
        gid,
        strs_view(ctx.command_args@),
    )
    &&& c.current_dir is None
    &&& c.env@.len() == 0
    &&& !c.stdin_null && !c.stdout_piped && !c.stderr_piped
}

/// Runner that executes commands inside a Docker container.
pub struct DockerRunner {
    /// The configuration for the container runs.
    pub config: DockerConfiguration,
    /// The resolved mounts bound to this runner.
    pub mounts: Vec<VolumeMount>,
}

impl DockerRunner {
    /// Create a new Docker runner with the given configuration and volume
    /// mounts.
    pub fn new(config: DockerConfiguration, mounts: Vec<VolumeMount>) -> (r: Self)
        ensures
            r.config == config,
            r.mounts == mounts,
    {
        Self { config, mounts }
    }

    /// The command this runner builds once the container engine has been
    /// looked up: the complete fixed-shape argument vector when the engine
    /// was found, and a tool-missing error with remediation text when not.
    ///
    /// `uid` and `gid` identify the invoking user; they appear in the
    /// user/group mapping of the invocation.
    pub fn command_for_engine(
        &self,
        engine_found: bool,
        ctx: &ExecutionContext,
        mounts: &Vec<VolumeMount>,
        uid: u32,
        gid: u32,
    ) -> (r: Result<CommandSpec, RunnerError>)
        requires
            ctx.wf(),
            self.config.wf(),
        ensures
            engine_found ==> (r matches Ok(c) && is_docker_command(
                c,
                self.config,
                mounts_view(mounts@),
                *ctx,
                uid,
                gid,
            )),
            !engine_found ==> (r matches Err(e) && e matches RunnerError::ToolMissing(m)
                && m@ == docker_missing_message()),
    {
        if !engine_found {
            return Err(RunnerError::ToolMissing(String::from_str(
                "Docker is not available. Please install Docker to use the docker runner.",
            )));
        }
        let args = docker_args(&self.config, mounts, &ctx.work_dir, uid, gid, &ctx.command_args);
        Ok(CommandSpec {
            program: String::from_str("docker"),
            args,
            current_dir: None,
            env: Vec::new(),
            stdin_null: false,
            stdout_piped: false,
            stderr_piped: false,
        })
    }

    /// Build the container invocation for an execution context and a bound
    /// mount list, after checking that the container engine is reachable on
    /// the search path. Building never spawns anything.
    pub fn build_command_with_mounts(
        &self,
        ctx: &ExecutionContext,
        mounts: &Vec<VolumeMount>,
        uid: u32,
        gid: u32,
    ) -> (r: Result<CommandSpec, RunnerError>)
        requires
            ctx.wf(),
            self.config.wf(),
        ensures
            r matches Ok(c) ==> is_docker_command(
                c,
                self.config,
                mounts_view(mounts@),
                *ctx,
                uid,
                gid,
            ),
            r matches Err(e) ==> (e matches RunnerError::ToolMissing(m) && m@
                == docker_missing_message()),
    {
        let engine = find_executable("docker");
        self.command_for_engine(engine.is_some(), ctx, mounts, uid, gid)
    }
}

/// The network-isolation law: a container argument vector built with
/// `allow_network = false` always contains the network-isolation flag; one
/// built with `allow_network = true` never does, provided no mount text,
/// working directory, image name, or command argument is itself that flag's
/// text.
pub proof fn lemma_network_isolation(
    image: Seq<char>,
    allow_network: bool,
    ms: Seq<(Seq<char>, VolumeAccessMode)>,
    work_dir: Seq<char>,
    uid: u32,
    gid: u32,
    cmd: Seq<Seq<char>>,
)
    ensures
        !allow_network ==> spec_docker_argv(image, allow_network, ms, work_dir, uid, gid, cmd)
            .contains("--network=none"@),
        allow_network && image != "--network=none"@ && work_dir != "--network=none"@ && (forall|
            i: int,
        |
            0 <= i < ms.len() ==> mount_arg(ms[i].0, ms[i].1) != "--network=none"@) && (forall|
            i: int,
        |
            0 <= i < cmd.len() ==> cmd[i] != "--network=none"@) ==> !spec_docker_argv(
            image,
            allow_network,
            ms,
            work_dir,
            uid,
            gid,
            cmd,
        ).contains("--network=none"@),
{
    let argv = spec_docker_argv(image, allow_network, ms, work_dir, uid, gid, cmd);
    reveal_strlit("run");
    reveal_strlit("--rm");
    reveal_strlit("--user");
    reveal_strlit("-v");
    reveal_strlit("-w");
    reveal_strlit("--network=none");
    if !allow_network {
        assert(argv[4] == "--network=none"@);
        assert(argv.contains("--network=none"@));
    } else {
        if image != "--network=none"@ && work_dir != "--network=none"@ && (forall|i: int|
            0 <= i < ms.len() ==> mount_arg(ms[i].0, ms[i].1) != "--network=none"@) && (forall|
            i: int,
        |
            0 <= i < cmd.len() ==> cmd[i] != "--network=none"@) {
            lemma_mount_args_no_flag(ms);
            assert(user_mapping(uid, gid) != "--network=none"@) by {
                crate::decimal::lemma_decimal_digits(uid as nat);
                crate::decimal::lemma_decimal_digits(gid as nat);
                assert(user_mapping(uid, gid)[0] == spec_decimal(uid as nat)[0]);
                assert("--network=none"@[0] == '-');
            }
            assert forall|k: int| 0 <= k < argv.len() implies argv[k] != "--network=none"@ by {
                let head_len: int = 4;
                let m_len = spec_mount_args(ms).len();
                if k < head_len {
                    assert(argv[k] == seq!["run"@, "--rm"@, "--user"@, user_mapping(uid, gid)][k]);
                } else if k < head_len + m_len {
                    assert(argv[k] == spec_mount_args(ms)[k - head_len]);
                } else if k < head_len + m_len + 3 {
                    assert(argv[k] == seq!["-w"@, work_dir, image][k - head_len - m_len]);
                } else {
                    assert(argv[k] == cmd[k - head_len - m_len - 3]);
                }
            }
            if argv.contains("--network=none"@) {
                let k = choose|k: int| 0 <= k < argv.len() && argv[k] == "--network=none"@;
                assert(false);
            }
        }
    }
}

proof fn lemma_mount_args_no_flag(ms: Seq<(Seq<char>, VolumeAccessMode)>)
    requires
        forall|i: int| 0 <= i < ms.len() ==> mount_arg(ms[i].0, ms[i].1) != "--network=none"@,
    ensures
        forall|k: int|
            0 <= k < spec_mount_args(ms).len() ==> spec_mount_args(ms)[k] != "--network=none"@,
        spec_mount_args(ms).len() == 2 * ms.len(),
    decreases ms.len(),
{
    reveal_strlit("-v");
    reveal_strlit("--network=none");
    if ms.len() == 0 {
    } else {
        lemma_mount_args_no_flag(ms.skip(1));
        assert(forall|i: int| 0 <= i < ms.skip(1).len() ==> ms.skip(1)[i] == ms[i + 1]);
        assert(spec_mount_args(ms)[0] == "-v"@);
        assert("-v"@ != "--network=none"@);
        assert(spec_mount_args(ms)[1] == mount_arg(ms[0].0, ms[0].1));
        assert(forall|k: int|
            2 <= k < spec_mount_args(ms).len() ==> spec_mount_args(ms)[k] == spec_mount_args(
                ms.skip(1),
            )[k - 2]);
    }
}

/// The determinism law: the built container argument vector is a function
/// of the configuration, mounts, working directory, user mapping, and
/// command alone, so building the command twice from identical inputs
/// yields identical argument vectors.
pub proof fn lemma_build_deterministic(
    image1: Seq<char>,
    allow1: bool,
    ms1: Seq<(Seq<char>, VolumeAccessMode)>,
    wd1: Seq<char>,
    uid1: u32,
    gid1: u32,
    cmd1: Seq<Seq<char>>,
    image2: Seq<char>,
    allow2: bool,
    ms2: Seq<(Seq<char>, VolumeAccessMode)>,
    wd2: Seq<char>,
    uid2: u32,
    gid2: u32,
    cmd2: Seq<Seq<char>>,
)
    requires
        image1 == image2,
        allow1 == allow2,
        ms1 == ms2,
        wd1 == wd2,
        uid1 == uid2,
        gid1 == gid2,
        cmd1 == cmd2,
    ensures
        spec_docker_argv(image1, allow1, ms1, wd1, uid1, gid1, cmd1) == spec_docker_argv(
            image2,
            allow2,
            ms2,
            wd2,
            uid2,
            gid2,
            cmd2,
        ),
{
}

} // verus!
