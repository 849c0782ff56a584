use script_runner::command::{ExecutionContext, RunnerError};
use script_runner::docker::{
    ensure_platform_supported, DockerArguments, DockerConfiguration, DockerRunner,
};
use script_runner::host::HostRunner;
use script_runner::mounts::{VolumeAccessMode, VolumeMount};
use script_runner::runner::{Runner, RunnerConfiguration};
use script_runner::sandbox::{SandboxConfiguration, SandboxRunner};

fn echo_context() -> ExecutionContext {
    ExecutionContext {
        command_args: vec!["echo".to_string(), "hello".to_string()],
        work_dir: "/tmp/build".to_string(),
        env_vars: vec![("PREFIX".to_string(), "/opt/env".to_string())],
        mounts: vec![],
    }
}

#[test]
fn host_command_shape() {
    let runner = HostRunner;
    let cmd = runner.build_command(&echo_context()).unwrap();
    assert_eq!(cmd.program, "echo");
    assert_eq!(cmd.args, vec!["hello".to_string()]);
    assert_eq!(cmd.current_dir, Some("/tmp/build".to_string()));
    assert_eq!(
        cmd.env,
        vec![
            ("PWD".to_string(), "/tmp/build".to_string()),
            ("PREFIX".to_string(), "/opt/env".to_string()),
        ]
    );
    assert!(!cmd.stdin_null && !cmd.stdout_piped && !cmd.stderr_piped);
}

#[test]
fn configure_stdio_closes_stdin_and_pipes_output() {
    let runner = HostRunner;
    let mut cmd = runner.build_command(&echo_context()).unwrap();
    cmd.configure_stdio();
    assert!(cmd.stdin_null);
    assert!(cmd.stdout_piped);
    assert!(cmd.stderr_piped);
    assert_eq!(cmd.program, "echo");
}

#[test]
fn docker_argument_vector_is_exact() {
    let config = DockerConfiguration::new("ubuntu:22.04".to_string());
    let runner = DockerRunner::new(config, vec![]);
    let mounts = vec![
        VolumeMount::read_only("/opt/data".to_string()),
        VolumeMount::read_write("/tmp/build".to_string()),
    ];
    let cmd = runner
        .command_for_engine(true, &echo_context(), &mounts, 1000, 100)
        .unwrap();
    assert_eq!(cmd.program, "docker");
    assert_eq!(
        cmd.args,
        vec![
            "run".to_string(),
            "--rm".to_string(),
            "--user".to_string(),
            "1000:100".to_string(),
            "--network=none".to_string(),
            "-v".to_string(),
            "/opt/data:/opt/data:ro".to_string(),
            "-v".to_string(),
            "/tmp/build:/tmp/build".to_string(),
            "-w".to_string(),
            "/tmp/build".to_string(),
            "ubuntu:22.04".to_string(),
            "echo".to_string(),
            "hello".to_string(),
        ]
    );
    assert_eq!(cmd.current_dir, None);
    assert!(cmd.env.is_empty());
}

#[test]
fn network_isolation_flag_follows_configuration() {
    let ctx = echo_context();
    let mounts: Vec<VolumeMount> = vec![];

    let isolated = DockerRunner::new(DockerConfiguration::new("img".to_string()), vec![]);
    let cmd = isolated.command_for_engine(true, &ctx, &mounts, 0, 0).unwrap();
    assert!(cmd.args.contains(&"--network=none".to_string()));

    let networked = DockerRunner::new(
        DockerConfiguration::new("img".to_string()).with_network(true),
        vec![],
    );
    let cmd = networked.command_for_engine(true, &ctx, &mounts, 0, 0).unwrap();
    assert!(!cmd.args.contains(&"--network=none".to_string()));
}

#[test]
fn docker_build_is_deterministic() {
    // Building the command twice from one configuration yields identical
    // argument vectors.
    let config = DockerConfiguration::new("img".to_string()).with_network(true);
    let runner = DockerRunner::new(config, vec![]);
    let mounts = vec![VolumeMount::read_write("/w".to_string())];
    let ctx = echo_context();
    let first = runner.command_for_engine(true, &ctx, &mounts, 7, 8).unwrap();
    let second = runner.command_for_engine(true, &ctx, &mounts, 7, 8).unwrap();
    assert_eq!(first.args, second.args);
    assert_eq!(first.program, second.program);
}

#[test]
fn user_mapping_renders_boundary_ids() {
    let runner = DockerRunner::new(DockerConfiguration::new("img".to_string()), vec![]);
    let cmd = runner
        .command_for_engine(true, &echo_context(), &vec![], u32::MAX, 0)
        .unwrap();
    assert_eq!(cmd.args[3], "4294967295:0");
}

#[test]
fn docker_engine_missing_is_tool_missing() {
    let runner = DockerRunner::new(DockerConfiguration::new("img".to_string()), vec![]);
    let err = runner
        .command_for_engine(false, &echo_context(), &vec![], 0, 0)
        .unwrap_err();
    assert!(err.is_tool_missing());
    assert_eq!(
        err.message().as_str(),
        "Docker is not available. Please install Docker to use the docker runner."
    );
}

#[test]
fn unsupported_platform_is_refused() {
    assert!(ensure_platform_supported(true).is_ok());
    let err = ensure_platform_supported(false).unwrap_err();
    assert!(!err.is_tool_missing());
    match &err {
        RunnerError::UnsupportedPlatform(m) => {
            assert!(m.contains("not supported on Windows"));
        }
        RunnerError::ToolMissing(_) => panic!("expected a platform refusal"),
    }
}

#[test]
fn docker_arguments_select_configuration() {
    let off = DockerArguments {
        docker: false,
        docker_image: None,
        docker_allow_network: false,
    };
    assert!(off.to_configuration().is_none());

    let on = DockerArguments {
        docker: true,
        docker_image: Some("img".to_string()),
        docker_allow_network: true,
    };
    let config = on.to_configuration().unwrap();
    assert_eq!(config.image, "img");
    assert!(config.allow_network);
}

#[test]
fn sandbox_command_shape() {
    let policy = vec!["--fs-exec-and-read".to_string(), "/".to_string()];
    let runner = SandboxRunner::new(SandboxConfiguration::new(policy));
    let cmd = runner
        .command_for_tool(Some("/usr/bin/sandbox-tool".to_string()), &echo_context())
        .unwrap();
    assert_eq!(cmd.program, "/usr/bin/sandbox-tool");
    assert_eq!(
        cmd.args,
        vec![
            "--fs-exec-and-read".to_string(),
            "/".to_string(),
            "--cwd".to_string(),
            "/tmp/build".to_string(),
            "echo".to_string(),
            "hello".to_string(),
        ]
    );
    assert_eq!(cmd.current_dir, Some("/tmp/build".to_string()));
    assert_eq!(cmd.env[0], ("PWD".to_string(), "/tmp/build".to_string()));
}

#[test]
fn sandbox_tool_missing_is_tool_missing() {
    let runner = SandboxRunner::new(SandboxConfiguration::new(vec![]));
    let err = runner.command_for_tool(None, &echo_context()).unwrap_err();
    assert!(err.is_tool_missing());
    assert!(err.message().contains("pixi global install rattler-sandbox"));
}

#[test]
fn sandbox_tool_absent_from_search_path() {
    // The sandboxing tool is not installed here, so the lookup fails before
    // anything is spawned.
    let runner = SandboxRunner::new(SandboxConfiguration::new(vec![]));
    match runner.build_command(&echo_context()) {
        Err(err) => assert!(err.is_tool_missing()),
        Ok(_) => panic!("the sandboxing tool should not be on the search path"),
    }
}

#[test]
fn configuration_predicates() {
    let host = RunnerConfiguration::Host;
    assert!(host.is_host() && !host.is_sandbox() && !host.is_docker());

    let sandbox = RunnerConfiguration::Sandbox(SandboxConfiguration::new(vec![]));
    assert!(!sandbox.is_host() && sandbox.is_sandbox() && !sandbox.is_docker());

    let docker = RunnerConfiguration::Docker(
        DockerConfiguration::new("img".to_string()),
        vec![],
    );
    assert!(!docker.is_host() && !docker.is_sandbox() && docker.is_docker());
}

#[test]
fn prepare_binds_resolved_mounts() {
    let configured = vec![VolumeMount::read_only("/opt/data".to_string())];
    let config = RunnerConfiguration::Docker(
        DockerConfiguration::new("img".to_string()),
        configured,
    );
    let work_dir = "/w/build".to_string();
    match config.prepare(&work_dir) {
        Runner::Docker(runner, mounts) => {
            let paths: Vec<String> = mounts.iter().map(|m| m.path.clone()).collect();
            assert_eq!(
                paths,
                vec![
                    "/w/build".to_string(),
                    "/w".to_string(),
                    "/opt/data".to_string(),
                    "/opt".to_string(),
                ]
            );
            // The working directory is writable; a configured path keeps its
            // mode; parents are read-only.
            assert_eq!(mounts[0].access_mode, VolumeAccessMode::ReadWrite);
            assert_eq!(mounts[1].access_mode, VolumeAccessMode::ReadOnly);
            assert_eq!(mounts[2].access_mode, VolumeAccessMode::ReadOnly);
            assert_eq!(mounts[3].access_mode, VolumeAccessMode::ReadOnly);
            assert_eq!(runner.mounts.len(), mounts.len());
        }
        _ => panic!("expected the docker backend"),
    }
}

#[test]
fn prepare_keeps_backend_choice() {
    let work_dir = "/w".to_string();
    assert!(matches!(
        RunnerConfiguration::Host.prepare(&work_dir),
        Runner::Host(_)
    ));
    assert!(matches!(
        RunnerConfiguration::Sandbox(SandboxConfiguration::new(vec![])).prepare(&work_dir),
        Runner::Sandbox(_)
    ));
}

#[test]
fn runner_dispatch_builds_host_command() {
    let runner = RunnerConfiguration::Host.prepare(&"/tmp/build".to_string());
    let cmd = runner.build_command(&echo_context(), 0, 0).unwrap();
    assert_eq!(cmd.program, "echo");
    assert_eq!(cmd.args, vec!["hello".to_string()]);
}
