use alice_container::cgroup::{CgroupError, CpuConfig, IoConfig, MemoryConfig};
use alice_container::clone3::clone_flags;
use alice_container::clone3::Clone3Error;
use alice_container::container::{
    Container, ContainerConfig, ContainerConfigBuilder, ContainerError, ContainerInfo,
    ContainerState, SpawnStep,
};
use alice_container::namespace::{NamespaceError, NamespaceFlags};

fn created() -> Container {
    let config = ContainerConfig::builder().rootfs("/c/root").workdir("/work").build();
    Container::create("web", config, true).unwrap().0
}

fn running() -> Container {
    let mut c = created();
    c.start(false).unwrap();
    c.started(100, false);
    c
}

fn invalid(err: ContainerError) -> (ContainerState, &'static str) {
    match err {
        ContainerError::InvalidState { current, operation } => (current, operation),
        other => panic!("expected an invalid state, found {:?}", other),
    }
}

#[test]
fn test_container_state_display() {
    assert_eq!(ContainerState::Created.to_string(), "created");
    assert_eq!(ContainerState::Running.to_string(), "running");
    assert_eq!(ContainerState::Paused.to_string(), "paused");
    assert_eq!(ContainerState::Stopped.to_string(), "stopped");
}

#[test]
fn test_container_config_builder() {
    let config = ContainerConfig::builder()
        .hostname("test-container")
        .cpu_percent(50)
        .memory_max(256 * 1024 * 1024)
        .env("FOO", "bar")
        .build();

    assert_eq!(config.hostname, "test-container");
    assert_eq!(config.cpu.quota_us, 50_000);
    assert_eq!(config.memory.max, 256 * 1024 * 1024);
}

#[test]
fn test_container_config_with_network() {
    let config = ContainerConfig::builder().with_network().build();

    assert!(config.network);
    assert!(config.namespaces.contains(NamespaceFlags::NEWNET()));
}

#[test]
fn test_container_error_display() {
    let err = ContainerError::InvalidState { current: ContainerState::Stopped, operation: "exec" };
    assert!(err.to_string().contains("stopped"));
    assert!(err.to_string().contains("exec"));
}

#[test]
fn container_error_texts() {
    assert_eq!(
        ContainerError::InvalidState { current: ContainerState::Stopped, operation: "exec" }
            .to_string(),
        "Cannot exec container in stopped state"
    );
    assert_eq!(
        ContainerError::Cgroup(CgroupError::PermissionDenied).to_string(),
        "Cgroup error: Permission denied"
    );
    assert_eq!(
        ContainerError::Namespace(NamespaceError::InvalidPath).to_string(),
        "Namespace error: Invalid path"
    );
    assert_eq!(ContainerError::ProcessError("x".into()).to_string(), "Process error: x");
    assert_eq!(ContainerError::ConfigError("x".into()).to_string(), "Config error: x");
    assert_eq!(ContainerError::IoError("x".into()).to_string(), "I/O error: x");
    assert_eq!(ContainerError::NotFound("web".into()).to_string(), "Container not found: web");
    assert_eq!(
        ContainerError::from_cgroup(CgroupError::PermissionDenied),
        ContainerError::Cgroup(CgroupError::PermissionDenied)
    );
    assert_eq!(
        ContainerError::from_namespace(NamespaceError::OutOfMemory),
        ContainerError::Namespace(NamespaceError::OutOfMemory)
    );
    let wrapped: ContainerError = CgroupError::CgroupV2NotAvailable.into();
    assert_eq!(wrapped, ContainerError::Cgroup(CgroupError::CgroupV2NotAvailable));
    let wrapped: ContainerError = NamespaceError::NotSupported.into();
    assert_eq!(wrapped, ContainerError::Namespace(NamespaceError::NotSupported));
}

#[test]
fn default_configuration() {
    let config = ContainerConfig::default();
    assert_eq!(config.rootfs, "/");
    assert_eq!(config.hostname, "container");
    assert_eq!(config.workdir, "/");
    assert_eq!(
        config.env,
        vec![
            ("PATH".to_string(), "/usr/local/bin:/usr/bin:/bin".to_string()),
            ("HOME".to_string(), "/root".to_string()),
        ]
    );
    assert_eq!(config.namespaces, NamespaceFlags::CONTAINER());
    assert_eq!(config.cpu.quota_us, u64::MAX);
    assert_eq!(config.memory.max, u64::MAX);
    assert!(config.io.is_none());
    assert!(!config.readonly_rootfs);
    assert!(!config.network);
    let built = ContainerConfigBuilder::default().build();
    assert_eq!(built.hostname, "container");
}

#[test]
fn builder_sets_each_field() {
    let config = ContainerConfigBuilder::new()
        .rootfs("/c/root")
        .workdir("/work")
        .cpu_percent(200)
        .cpu_quota_us(7)
        .readonly()
        .env("A", "1")
        .env("B", "2")
        .build();
    assert_eq!(config.rootfs, "/c/root");
    assert_eq!(config.workdir, "/work");
    assert_eq!(config.cpu.quota_us, 7);
    assert_eq!(config.cpu.period_us, 100_000);
    assert!(config.readonly_rootfs);
    assert_eq!(config.env.len(), 4);
    assert_eq!(config.env[3], ("B".to_string(), "2".to_string()));
    let net = ContainerConfig::builder().with_network().build();
    assert_eq!(net.namespaces.bits(), 0x2c020000 | 0x40000000);
}

#[test]
fn create_needs_the_root_filesystem() {
    let config = ContainerConfig::builder().rootfs("/nowhere").build();
    match Container::create("web", config, false) {
        Err(ContainerError::ConfigError(m)) => {
            assert_eq!(m, "Root filesystem does not exist: /nowhere")
        }
        _ => panic!("a missing root filesystem must be reported"),
    }
}

#[test]
fn create_plans_cgroup_and_limits() {
    let mut io = IoConfig::new("8:0");
    io.rbps = 5;
    let mut config = ContainerConfig::builder().cpu_percent(50).memory_max(1000).build();
    config.io = Some(io);
    let (c, plan, limits) = Container::create("web", config, true).unwrap();
    assert_eq!(c.id(), "web");
    assert_eq!(c.state(), ContainerState::Created);
    assert_eq!(c.pid(), None);
    assert_eq!(c.cgroup_path(), "/sys/fs/cgroup/alice/web");
    assert_eq!(c.config().cpu.quota_us, 50_000);
    assert_eq!(plan.dir, "/sys/fs/cgroup/alice/web");
    assert_eq!(plan.root, "/sys/fs/cgroup/alice");
    let got: Vec<(&str, &str)> =
        limits.iter().map(|w| (w.path.rsplit('/').next().unwrap(), w.content.as_str())).collect();
    assert_eq!(
        got,
        vec![
            ("cpu.max", "50000 100000"),
            ("cpu.weight", "100"),
            ("memory.max", "1000"),
            ("memory.high", "900"),
            ("memory.oom.group", "1"),
            ("io.max", "8:0 rbps=5"),
        ]
    );
}

#[test]
fn lifecycle_through_every_state() {
    let mut c = created();
    let plan = c.start(true).unwrap();
    let open = plan.into_cgroup.unwrap();
    assert_eq!(open.path, "/sys/fs/cgroup/alice/web");
    assert!(open.read_only && open.directory && open.close_on_exec);
    assert!(c.start(false).unwrap().into_cgroup.is_none());
    assert_eq!(c.state(), ContainerState::Created);

    // Cloned into the cgroup: nothing is left to write.
    assert!(c.started(4242, true).is_none());
    assert_eq!(c.state(), ContainerState::Running);
    assert_eq!(c.pid(), Some(4242));

    let freeze = c.pause().unwrap();
    assert_eq!(freeze.path, "/sys/fs/cgroup/alice/web/cgroup.freeze");
    assert_eq!(freeze.content, "1");
    assert_eq!(c.state(), ContainerState::Running);
    c.paused();
    assert_eq!(c.state(), ContainerState::Paused);
    assert_eq!(c.pid(), Some(4242));

    let thaw = c.resume().unwrap();
    assert_eq!(thaw.content, "0");
    c.resumed();
    assert_eq!(c.state(), ContainerState::Running);

    let stop = c.stop().unwrap();
    assert_eq!(stop.wait_for, Some(4242));
    assert_eq!(stop.kill.kill_file.path, "/sys/fs/cgroup/alice/web/cgroup.kill");
    assert_eq!(stop.kill.procs_file, "/sys/fs/cgroup/alice/web/cgroup.procs");
    c.stopped();
    assert_eq!(c.state(), ContainerState::Stopped);
    assert_eq!(c.pid(), None);

    // A stopped container can be started again.
    assert!(c.start(false).is_ok());
    let add = c.started(77, false).unwrap();
    assert_eq!(add.path, "/sys/fs/cgroup/alice/web/cgroup.procs");
    assert_eq!(add.content, "77");
    assert!(!add.only_if_exists);
    assert_eq!(c.state(), ContainerState::Running);
}

#[test]
fn illegal_edges_are_refused() {
    let mut c = created();
    assert_eq!(invalid(c.stop().unwrap_err()), (ContainerState::Created, "stop"));
    assert_eq!(invalid(c.pause().unwrap_err()), (ContainerState::Created, "pause"));
    assert_eq!(invalid(c.resume().unwrap_err()), (ContainerState::Created, "resume"));
    assert_eq!(invalid(c.exec(&["/bin/true"]).unwrap_err()), (ContainerState::Created, "exec"));

    c.started(1, true);
    assert_eq!(invalid(c.start(true).unwrap_err()), (ContainerState::Running, "start"));
    // A start that is noted out of turn changes nothing and writes nothing.
    assert!(c.started(2, false).is_none());
    assert_eq!(c.pid(), Some(1));
    assert_eq!(invalid(c.resume().unwrap_err()), (ContainerState::Running, "resume"));

    c.paused();
    assert_eq!(invalid(c.pause().unwrap_err()), (ContainerState::Paused, "pause"));
    assert_eq!(invalid(c.start(true).unwrap_err()), (ContainerState::Paused, "start"));
    assert_eq!(invalid(c.exec(&["/bin/true"]).unwrap_err()), (ContainerState::Paused, "exec"));
    assert!(c.stop().is_ok());

    c.stopped();
    assert_eq!(invalid(c.exec(&["/bin/true"]).unwrap_err()), (ContainerState::Stopped, "exec"));
    assert_eq!(invalid(c.stop().unwrap_err()), (ContainerState::Stopped, "stop"));
    assert_eq!(invalid(c.pause().unwrap_err()), (ContainerState::Stopped, "pause"));
    assert_eq!(invalid(c.resume().unwrap_err()), (ContainerState::Stopped, "resume"));
}

#[test]
fn notes_out_of_turn_change_nothing() {
    let mut c = created();
    c.paused();
    assert_eq!(c.state(), ContainerState::Created);
    c.resumed();
    assert_eq!(c.state(), ContainerState::Created);
    c.stopped();
    assert_eq!(c.state(), ContainerState::Created);
    assert_eq!(c.pid(), None);
    let mut r = running();
    r.resumed();
    assert_eq!(r.state(), ContainerState::Running);
    assert_eq!(r.pid(), Some(100));
    r.paused();
    assert!(r.started(7, true).is_none());
    assert_eq!(r.state(), ContainerState::Paused);
    assert_eq!(r.pid(), Some(100));
}

#[test]
fn exec_runs_in_the_container_environment() {
    let c = running();
    let call = c.exec(&["/bin/sh", "-c", "echo hello"]).unwrap();
    assert_eq!(call.program, "/bin/sh");
    assert_eq!(call.args, vec!["-c".to_string(), "echo hello".to_string()]);
    assert_eq!(call.workdir, "/work");
    assert_eq!(call.env.len(), 2);
    assert_eq!(call.env[0].0, "PATH");
    assert_eq!(call.env[1], ("HOME".to_string(), "/root".to_string()));
    let call = c.exec(&["/bin/true"]).unwrap();
    assert!(call.args.is_empty());
    match c.exec(&[]) {
        Err(ContainerError::ConfigError(m)) => assert_eq!(m, "Empty command"),
        _ => panic!("an empty command must be refused"),
    }
    assert_eq!(Container::exec_result(Some(3)), 3);
    assert_eq!(Container::exec_result(None), -1);
    assert_eq!(
        Container::exec_failed("not found"),
        ContainerError::ProcessError("not found".into())
    );
}

#[test]
fn init_process_creation() {
    let c = created();
    let call = c.spawn_init_clone3(9);
    assert_eq!(call.number, 435);
    assert_eq!(call.size, 88);
    assert_eq!(call.args.flags, clone_flags::CONTAINER | clone_flags::CLONE_INTO_CGROUP);
    assert_eq!(call.args.cgroup, 9);
    assert_eq!(call.args.exit_signal, libc::SIGCHLD as u64);
    assert_eq!(c.spawn_init(1234), Ok(Some(1234)));
    assert_eq!(c.spawn_init(0), Ok(None));
    assert_eq!(c.spawn_init(-1), Err(ContainerError::ProcessError("fork failed".into())));
    assert_eq!(
        Container::clone3_failed(false, &Clone3Error::PermissionDenied),
        ContainerError::ProcessError(
            "open cgroup fd: Permission denied (need CAP_SYS_ADMIN)".into()
        )
    );
    assert_eq!(
        Container::clone3_failed(true, &Clone3Error::SyscallFailed(11)),
        ContainerError::ProcessError("clone3: clone3 failed: errno 11".into())
    );
}

#[test]
fn destroy_stops_what_runs() {
    let plan = running().destroy();
    let stop = plan.stop.unwrap();
    assert_eq!(stop.wait_for, Some(100));
    assert_eq!(stop.kill.kill_file.content, "1");
    assert_eq!(plan.remove.remove_dir, "/sys/fs/cgroup/alice/web");
    assert_eq!(plan.remove.settle_millis, 100);
    let plan = created().destroy();
    assert!(plan.stop.is_none());
    assert_eq!(plan.remove.remove_dir, "/sys/fs/cgroup/alice/web");
    let mut paused = running();
    paused.paused();
    assert!(paused.destroy().stop.is_some());
}

#[test]
fn usage_counters() {
    let c = created();
    assert_eq!(c.memory_usage("4096\n"), Ok(4096));
    assert_eq!(
        c.memory_usage("x"),
        Err(ContainerError::Cgroup(CgroupError::InvalidParameter(
            "invalid digit found in string".into()
        )))
    );
    assert_eq!(c.cpu_usage("usage_usec 77\n"), Ok(77));
    assert_eq!(
        c.cpu_usage(""),
        Err(ContainerError::Cgroup(CgroupError::InvalidParameter("usage_usec not found".into())))
    );
}

#[test]
fn limit_updates() {
    let mut c = created();
    let cpu = CpuConfig::from_percent(10);
    let plan = c.update_cpu(&cpu);
    assert_eq!(plan[0].content, "10000 100000");
    assert_eq!(c.config().cpu.quota_us, u64::MAX);
    c.cpu_updated(&cpu);
    assert_eq!(c.config().cpu.quota_us, 10_000);
    let memory = MemoryConfig::with_limit(2000);
    let plan = c.update_memory(&memory);
    assert_eq!(plan[0].content, "2000");
    c.memory_updated(&memory);
    assert_eq!(c.config().memory.high, 1800);
}

#[test]
fn container_info_holds_a_listing() {
    let info = ContainerInfo {
        id: "web".into(),
        state: ContainerState::Paused,
        pid: Some(3),
        memory_usage: 1,
        cpu_usage: 2,
    };
    assert_eq!(info.state.as_str(), "paused");
    assert_eq!(info.pid, Some(3));
}

#[test]
fn a_failed_clone3_falls_back_on_fork() {
    assert_eq!(Container::clone3_outcome(&Ok(0)), SpawnStep::Child);
    assert_eq!(Container::clone3_outcome(&Ok(4242)), SpawnStep::Parent(4242));
    assert_eq!(Container::clone3_outcome(&Err(Clone3Error::NotSupported)), SpawnStep::Fork);
    assert_eq!(Container::clone3_outcome(&Err(Clone3Error::InvalidCgroupFd)), SpawnStep::Fork);
}
