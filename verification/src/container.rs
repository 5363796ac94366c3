//! Container lifecycle: the state machine that ties a cgroup, a set of
//! namespaces and a root filesystem into one container.
//!
//! ```text
//! create → start → exec → stop → destroy
//!            ↓        ↑
//!          pause → resume
//! ```
//!
//! | State | Meaning |
//! |-------|---------|
//! | Created | configured, not running |
//! | Running | the init process is alive |
//! | Paused | every process is frozen |
//! | Stopped | every process is gone |
//!
//! Each operation comes in two parts: one that tests whether the state
//! allows it and says what is to be done, and one that notes that it was done.

use vstd::prelude::*;
use vstd::string::*;
use crate::cgroup::{
    all_writes, cpu_writes, file_write, memory_reading, memory_writes, usage_scan, writes,
    CgroupController, CgroupError, CpuConfig, CreatePlan, DestroyPlan, FileWrite, IoConfig,
    KillPlan, MemoryConfig,
};
use crate::clone3::clone_flags::CLONE_INTO_CGROUP;
use crate::clone3::{clone3_raw, open_cgroup_fd, Clone3Args, Clone3Call, Clone3Error, OpenDirCall};
use crate::namespace::{NamespaceError, NamespaceFlags, CLONE_NEWNET};
use crate::rootfs::{has_nul, texts};
use crate::text::{concat2, decimal, join, lines};

verus! {

/// The state of a container.
#[derive(Debug, Clone, Copy, PartialEq, Eq, Structural)]
pub enum ContainerState {
    /// Created but not started.
    Created,
    /// Running.
    Running,
    /// Paused (frozen).
    Paused,
    /// Stopped.
    Stopped,
}

impl ContainerState {
    /// The name of this state.
    pub open spec fn name(self) -> Seq<char> {
        match self {
            ContainerState::Created => "created"@,
            ContainerState::Running => "running"@,
            ContainerState::Paused => "paused"@,
            ContainerState::Stopped => "stopped"@,
        }
    }

    /// The name of this state.
    pub fn as_str(&self) -> (r: &'static str)
        ensures
            r@ == self.name(),
    {
        match self {
            ContainerState::Created => "created",
            ContainerState::Running => "running",
            ContainerState::Paused => "paused",
            ContainerState::Stopped => "stopped",
        }
    }

    /// The name of this state.
    pub fn to_string(&self) -> (r: String)
        ensures
            r@ == self.name(),
    {
        String::from_str(self.as_str())
    }
}

/// Container operation errors.
#[derive(Debug, Clone, PartialEq, Eq)]
pub enum ContainerError {
    /// Cgroup error.
    Cgroup(CgroupError),
    /// Namespace error.
    Namespace(NamespaceError),
    /// The state does not allow the operation.
    InvalidState { current: ContainerState, operation: &'static str },
    /// Process error.
    ProcessError(String),
    /// Configuration error.
    ConfigError(String),
    /// I/O error.
    IoError(String),
    /// Container not found.
    NotFound(String),
}

impl ContainerError {
    /// The text that describes this error.
    pub open spec fn message(self) -> Seq<char> {
        match self {
            ContainerError::Cgroup(e) => "Cgroup error: "@ + e.message(),
            ContainerError::Namespace(e) => "Namespace error: "@ + e.message(),
            ContainerError::InvalidState { current, operation } => "Cannot "@ + operation@
                + " container in "@ + current.name() + " state"@,
            ContainerError::ProcessError(msg) => "Process error: "@ + msg@,
            ContainerError::ConfigError(msg) => "Config error: "@ + msg@,
            ContainerError::IoError(msg) => "I/O error: "@ + msg@,
            ContainerError::NotFound(id) => "Container not found: "@ + id@,
        }
    }

    /// The text that describes this error.
    pub fn to_string(&self) -> (r: String)
        ensures
            r@ == self.message(),
    {
        match self {
            ContainerError::Cgroup(e) => {
                let inner = e.to_string();
                concat2("Cgroup error: ", inner.as_str())
            },
            ContainerError::Namespace(e) => {
                let inner = e.to_string();
                concat2("Namespace error: ", inner.as_str())
            },
            ContainerError::InvalidState { current, operation } => {
                let mut out = concat2("Cannot ", operation);
                out.append(" container in ");
                out.append(current.as_str());
                out.append(" state");
                out
            },
            ContainerError::ProcessError(msg) => concat2("Process error: ", msg.as_str()),
            ContainerError::ConfigError(msg) => concat2("Config error: ", msg.as_str()),
            ContainerError::IoError(msg) => concat2("I/O error: ", msg.as_str()),
            ContainerError::NotFound(id) => concat2("Container not found: ", id.as_str()),
        }
    }

    /// The container error that wraps a cgroup error.
    pub fn from_cgroup(e: CgroupError) -> (r: Self)
        ensures
            r == ContainerError::Cgroup(e),
    {
        ContainerError::Cgroup(e)
    }

    /// The container error that wraps a namespace error.
    pub fn from_namespace(e: NamespaceError) -> (r: Self)
        ensures
            r == ContainerError::Namespace(e),
    {
        ContainerError::Namespace(e)
    }
}

impl From<CgroupError> for ContainerError {
    fn from(e: CgroupError) -> (r: Self) {
        ContainerError::Cgroup(e)
    }
}

impl vstd::std_specs::convert::FromSpecImpl<CgroupError> for ContainerError {
    open spec fn obeys_from_spec() -> bool {
        true
    }

    open spec fn from_spec(e: CgroupError) -> Self {
        ContainerError::Cgroup(e)
    }
}

impl From<NamespaceError> for ContainerError {
    fn from(e: NamespaceError) -> (r: Self) {
        ContainerError::Namespace(e)
    }
}

impl vstd::std_specs::convert::FromSpecImpl<NamespaceError> for ContainerError {
    open spec fn obeys_from_spec() -> bool {
        true
    }

    open spec fn from_spec(e: NamespaceError) -> Self {
        ContainerError::Namespace(e)
    }
}

/// The texts of the pairs of `v`.
pub open spec fn pairs(v: Seq<(String, String)>) -> Seq<(Seq<char>, Seq<char>)> {
    Seq::new(v.len(), |i: int| (v[i].0@, v[i].1@))
}

/// The texts of the strings of `v`.
pub open spec fn strings(v: Seq<String>) -> Seq<Seq<char>> {
    Seq::new(v.len(), |i: int| v[i]@)
}

/// Resources and isolation of a container.
#[derive(Debug, Clone)]
pub struct ContainerConfig {
    /// Root filesystem path.
    pub rootfs: String,
    /// Hostname.
    pub hostname: String,
    /// Working directory inside the container.
    pub workdir: String,
    /// Environment variables.
    pub env: Vec<(String, String)>,
    /// Namespace flags.
    pub namespaces: NamespaceFlags,
    /// CPU configuration.
    pub cpu: CpuConfig,
    /// Memory configuration.
    pub memory: MemoryConfig,
    /// I/O configuration.
    pub io: Option<IoConfig>,
    /// Read-only root filesystem.
    pub readonly_rootfs: bool,
    /// Networking in a namespace of its own.
    pub network: bool,
}

/// A `ContainerConfig` as plain values.
pub struct ContainerConfigView {
    pub rootfs: Seq<char>,
    pub hostname: Seq<char>,
    pub workdir: Seq<char>,
    pub env: Seq<(Seq<char>, Seq<char>)>,
    pub namespaces: NamespaceFlags,
    pub cpu: CpuConfig,
    pub memory: MemoryConfig,
    pub io: Option<IoConfig>,
    pub readonly_rootfs: bool,
    pub network: bool,
}

impl View for ContainerConfig {
    type V = ContainerConfigView;

    open spec fn view(&self) -> ContainerConfigView {
        ContainerConfigView {
            rootfs: self.rootfs@,
            hostname: self.hostname@,
            workdir: self.workdir@,
            env: pairs(self.env@),
            namespaces: self.namespaces,
            cpu: self.cpu,
            memory: self.memory,
            io: self.io,
            readonly_rootfs: self.readonly_rootfs,
            network: self.network,
        }
    }
}

impl ContainerConfigView {
    /// The configuration that a builder starts from: the host's root, the
    /// host name `container`, a search path and a home in the environment,
    /// the namespaces of a container, no limits.
    pub open spec fn initial() -> ContainerConfigView {
        ContainerConfigView {
            rootfs: "/"@,
            hostname: "container"@,
            workdir: "/"@,
            env: seq![("PATH"@, "/usr/local/bin:/usr/bin:/bin"@), ("HOME"@, "/root"@)],
            namespaces: NamespaceFlags(NamespaceFlags::container_bits()),
            cpu: CpuConfig { quota_us: u64::MAX, period_us: 100_000, weight: 100 },
            memory: MemoryConfig { max: u64::MAX, high: u64::MAX, min: 0, oom_kill: true },
            io: None,
            readonly_rootfs: false,
            network: false,
        }
    }
}

impl Default for ContainerConfig {
    fn default() -> (r: Self)
        ensures
            r@ == ContainerConfigView::initial(),
    {
        let mut env: Vec<(String, String)> = Vec::new();
        env.push((String::from_str("PATH"), String::from_str("/usr/local/bin:/usr/bin:/bin")));
        env.push((String::from_str("HOME"), String::from_str("/root")));
        assert(pairs(env@) =~= seq![
            ("PATH"@, "/usr/local/bin:/usr/bin:/bin"@),
            ("HOME"@, "/root"@),
        ]);
        Self {
            rootfs: String::from_str("/"),
            hostname: String::from_str("container"),
            workdir: String::from_str("/"),
            env,
            namespaces: NamespaceFlags::CONTAINER(),
            cpu: CpuConfig::default(),
            memory: MemoryConfig::default(),
            io: None,
            readonly_rootfs: false,
            network: false,
        }
    }
}

impl ContainerConfig {
    /// A builder that starts from the default configuration.
    pub fn builder() -> (r: ContainerConfigBuilder)
        ensures
            r@ == ContainerConfigView::initial(),
    {
        ContainerConfigBuilder::new()
    }
}

/// Builder for `ContainerConfig`.
#[derive(Debug, Clone)]
pub struct ContainerConfigBuilder {
    config: ContainerConfig,
}

impl View for ContainerConfigBuilder {
    type V = ContainerConfigView;

    closed spec fn view(&self) -> ContainerConfigView {
        self.config@
    }
}

impl ContainerConfigBuilder {
    /// A builder that starts from the default configuration.
    pub fn new() -> (r: Self)
        ensures
            r@ == ContainerConfigView::initial(),
    {
        Self { config: ContainerConfig::default() }
    }

    /// Sets the root filesystem path.
    pub fn rootfs(self, path: &str) -> (r: Self)
        ensures
            r@ == (ContainerConfigView { rootfs: path@, ..self@ }),
    {
        let mut b = self;
        b.config.rootfs = String::from_str(path);
        b
    }

    /// Sets the hostname.
    pub fn hostname(self, name: &str) -> (r: Self)
        ensures
            r@ == (ContainerConfigView { hostname: name@, ..self@ }),
    {
        let mut b = self;
        b.config.hostname = String::from_str(name);
        b
    }

    /// Sets the working directory.
    pub fn workdir(self, path: &str) -> (r: Self)
        ensures
            r@ == (ContainerConfigView { workdir: path@, ..self@ }),
    {
        let mut b = self;
        b.config.workdir = String::from_str(path);
        b
    }

    /// Adds an environment variable after those that are there.
    pub fn env(self, key: &str, value: &str) -> (r: Self)
        ensures
            r@ == (ContainerConfigView { env: self@.env.push((key@, value@)), ..self@ }),
    {
        let mut b = self;
        b.config.env.push((String::from_str(key), String::from_str(value)));
        assert(pairs(b.config.env@) =~= self@.env.push((key@, value@)));
        b
    }

    /// Sets the CPU quota in microseconds, leaving period and weight.
    pub fn cpu_quota_us(self, quota: u64) -> (r: Self)
        ensures
            r@ == (ContainerConfigView {
                cpu: CpuConfig { quota_us: quota, ..self@.cpu },
                ..self@
            }),
    {
        let mut b = self;
        b.config.cpu.quota_us = quota;
        b
    }

    /// Sets the CPU share in percent, at the default period and weight.
    pub fn cpu_percent(self, percent: u32) -> (r: Self)
        ensures
            r@ == (ContainerConfigView {
                cpu: CpuConfig {
                    quota_us: (1000 * percent) as u64,
                    period_us: 100_000,
                    weight: 100,
                },
                ..self@
            }),
    {
        let mut b = self;
        b.config.cpu = CpuConfig::from_percent(percent);
        b
    }

    /// Sets the memory limit in bytes, throttled from nine tenths of it on.
    pub fn memory_max(self, bytes: u64) -> (r: Self)
        ensures
            r@ == (ContainerConfigView {
                memory: MemoryConfig {
                    max: bytes,
                    high: ((bytes as int * 90) / 100) as u64,
                    min: 0,
                    oom_kill: true,
                },
                ..self@
            }),
    {
        let mut b = self;
        b.config.memory = MemoryConfig::with_limit(bytes);
        b
    }

    /// Gives the container a network namespace of its own.
    pub fn with_network(self) -> (r: Self)
        ensures
            r@ == (ContainerConfigView {
                network: true,
                namespaces: NamespaceFlags(self@.namespaces.0 | CLONE_NEWNET),
                ..self@
            }),
    {
        let mut b = self;
        b.config.network = true;
        b.config.namespaces = b.config.namespaces.union(NamespaceFlags::NEWNET());
        b
    }

    /// Makes the root filesystem read-only.
    pub fn readonly(self) -> (r: Self)
        ensures
            r@ == (ContainerConfigView { readonly_rootfs: true, ..self@ }),
    {
        let mut b = self;
        b.config.readonly_rootfs = true;
        b
    }

    /// The configuration that was built.
    pub fn build(self) -> (r: ContainerConfig)
        ensures
            r@ == self@,
    {
        self.config
    }
}

impl Default for ContainerConfigBuilder {
    fn default() -> (r: Self)
        ensures
            r@ == ContainerConfigView::initial(),
    {
        Self::new()
    }
}

/// What is known of a container, for listing.
#[derive(Debug, Clone)]
pub struct ContainerInfo {
    /// Container ID.
    pub id: String,
    /// Current state.
    pub state: ContainerState,
    /// Init PID.
    pub pid: Option<u32>,
    /// Memory usage in bytes.
    pub memory_usage: u64,
    /// CPU usage in microseconds.
    pub cpu_usage: u64,
}

/// The arguments of the command that `exec` runs.
#[derive(Debug, Clone)]
pub struct ExecCall {
    pub program: String,
    pub args: Vec<String>,
    pub workdir: String,
    pub env: Vec<(String, String)>,
}

/// How to stop a container: kill every process of its cgroup, then wait
/// for the init process, if there is one, to end.
#[derive(Debug, Clone)]
pub struct StopPlan {
    pub kill: KillPlan,
    pub wait_for: Option<u32>,
}

/// How to start a container: where `into_cgroup` holds a call, open the
/// cgroup directory with it and create the init process inside the cgroup
/// with `spawn_init_clone3`; if there is none, or any of this fails, fork
/// and add the child to the cgroup.
#[derive(Debug, Clone)]
pub struct StartPlan {
    pub into_cgroup: Option<OpenDirCall>,
}

/// How to destroy a container: stop it where it runs, then remove its cgroup.
#[derive(Debug, Clone)]
pub struct TeardownPlan {
    pub stop: Option<StopPlan>,
    pub remove: DestroyPlan,
}

/// What a start through `clone3` came to.
#[derive(Debug, Clone, Copy, PartialEq, Eq, Structural)]
pub enum SpawnStep {
    /// This is the parent, and the init process has this process id.
    Parent(u32),
    /// This is the init process itself.
    Child,
    /// The start failed: fork, and add the child to the cgroup.
    Fork,
}

/// A container as plain values.
pub struct ContainerView {
    pub id: Seq<char>,
    pub config: ContainerConfigView,
    /// The directory of the container's cgroup.
    pub cgroup_dir: Seq<char>,
    /// The identifier that the cgroup's controller holds.
    pub cgroup_id: Seq<char>,
    pub state: ContainerState,
    pub init_pid: Option<u32>,
}

impl ContainerView {
    /// There is an init process exactly while the container runs or is paused.
    pub open spec fn consistent(self) -> bool {
        (self.state == ContainerState::Running || self.state == ContainerState::Paused)
            <==> self.init_pid is Some
    }

    /// Whether the state allows a start.
    pub open spec fn can_start(self) -> bool {
        self.state == ContainerState::Created || self.state == ContainerState::Stopped
    }

    /// Whether the state allows a stop.
    pub open spec fn can_stop(self) -> bool {
        self.state == ContainerState::Running || self.state == ContainerState::Paused
    }

    /// The container after its init process `pid` was created: running
    /// with that process, if it was created or stopped.
    pub open spec fn after_start(self, pid: u32) -> ContainerView {
        if self.can_start() {
            ContainerView { state: ContainerState::Running, init_pid: Some(pid), ..self }
        } else {
            self
        }
    }

    /// The container after its cgroup was frozen: paused, if it ran.
    pub open spec fn after_pause(self) -> ContainerView {
        if self.state == ContainerState::Running {
            ContainerView { state: ContainerState::Paused, ..self }
        } else {
            self
        }
    }

    /// The container after its cgroup was thawed: running, if it was paused.
    pub open spec fn after_resume(self) -> ContainerView {
        if self.state == ContainerState::Paused {
            ContainerView { state: ContainerState::Running, ..self }
        } else {
            self
        }
    }

    /// The container after its processes were killed: stopped and without
    /// an init process, if it ran or was paused.
    pub open spec fn after_stop(self) -> ContainerView {
        if self.can_stop() {
            ContainerView { state: ContainerState::Stopped, init_pid: None, ..self }
        } else {
            self
        }
    }
}

/// The error for an operation that the state does not allow.
pub open spec fn refused(r: ContainerError, current: ContainerState, operation: Seq<char>) -> bool {
    r matches ContainerError::InvalidState { current: c, operation: o } && c == current && o@
        == operation
}

/// A container instance.
pub struct Container {
    id: String,
    config: ContainerConfig,
    cgroup: CgroupController,
    state: ContainerState,
    init_pid: Option<u32>,
}

impl View for Container {
    type V = ContainerView;

    closed spec fn view(&self) -> ContainerView {
        ContainerView {
            id: self.id@,
            config: self.config@,
            cgroup_dir: self.cgroup.dir(),
            cgroup_id: self.cgroup.id(),
            state: self.state,
            init_pid: self.init_pid,
        }
    }
}

impl Container {
    /// A new container `id` in the state `Created`, the steps that create
    /// its cgroup, and the writes that apply its limits after that: CPU,
    /// then memory, then I/O where the configuration has it.
    /// `rootfs_exists` says whether the root filesystem of `config` exists.
    pub fn create(id: &str, config: ContainerConfig, rootfs_exists: bool) -> (r: Result<
        (Self, CreatePlan, Vec<FileWrite>),
        ContainerError,
    >)
        ensures
            !rootfs_exists ==> (r matches Err(ContainerError::ConfigError(m)) && m@
                == "Root filesystem does not exist: "@ + config@.rootfs),
            rootfs_exists ==> (r matches Ok(made) && made.0@ == (ContainerView {
                id: id@,
                config: config@,
                cgroup_dir: join(crate::ALICE_CGROUP@, id@),
                cgroup_id: id@,
                state: ContainerState::Created,
                init_pid: None,
            }) && crate::cgroup::creates(made.1, made.0@.cgroup_dir) && writes(made.2@)
                == all_writes(made.0@.cgroup_dir, config.cpu, config.memory, config.io)),
    {
        if !rootfs_exists {
            return Err(
                ContainerError::ConfigError(
                    concat2("Root filesystem does not exist: ", config.rootfs.as_str()),
                ),
            );
        }
        let (cgroup, plan) = CgroupController::create(id);
        let limits = match &config.io {
            Some(io) => cgroup.set_all_direct(&config.cpu, &config.memory, Some(io)),
            None => cgroup.set_all_direct(&config.cpu, &config.memory, None),
        };
        let container = Self {
            id: String::from_str(id),
            config,
            cgroup,
            state: ContainerState::Created,
            init_pid: None,
        };
        Ok((container, plan, limits))
    }

    /// How to start the container, which must be created or stopped.
    /// `clone3_available` says whether the kernel can create a process
    /// inside a cgroup.
    pub fn start(&self, clone3_available: bool) -> (r: Result<StartPlan, ContainerError>)
        ensures
            !self@.can_start() ==> (r matches Err(e) && refused(e, self@.state, "start"@)),
            self@.can_start() ==> (r matches Ok(plan) && (match plan.into_cgroup {
                Some(call) => clone3_available && !has_nul(self@.cgroup_dir) && call.path@
                    == self@.cgroup_dir && call.read_only && call.directory && call.close_on_exec,
                None => !clone3_available || has_nul(self@.cgroup_dir),
            })),
    {
        if self.state != ContainerState::Created && self.state != ContainerState::Stopped {
            return Err(ContainerError::InvalidState { current: self.state, operation: "start" });
        }
        let into_cgroup = if clone3_available {
            match open_cgroup_fd(self.cgroup.path()) {
                Ok(call) => Some(call),
                Err(_) => None,
            }
        } else {
            None
        };
        Ok(StartPlan { into_cgroup })
    }

    /// The `clone3` call that creates the init process in the namespaces
    /// of the configuration, inside the cgroup whose directory is open as
    /// `cgroup_fd`.
    pub fn spawn_init_clone3(&self, cgroup_fd: i32) -> (r: Clone3Call)
        ensures
            r == (Clone3Call {
                number: crate::clone3::SYS_CLONE3,
                args: Clone3Args {
                    flags: (self@.config.namespaces.0 as u64) | CLONE_INTO_CGROUP,
                    cgroup: cgroup_fd as u64,
                    ..Clone3Args::initial()
                },
                size: 88,
            }),
    {
        let namespace_flags: u64 = self.config.namespaces.bits() as u64;
        let args = Clone3Args::new().flags(namespace_flags).cgroup_fd(cgroup_fd);
        clone3_raw(&args)
    }

    /// What a start through `clone3` came to: the call gives 0 in the
    /// child and the child's process id in the parent; any failure, of the
    /// call or of opening the cgroup directory before it, falls back on a
    /// fork.
    pub fn clone3_outcome(result: &Result<u32, Clone3Error>) -> (r: SpawnStep)
        ensures
            r == (match *result {
                Ok(pid) => if pid == 0 {
                    SpawnStep::Child
                } else {
                    SpawnStep::Parent(pid)
                },
                Err(_) => SpawnStep::Fork,
            }),
    {
        match result {
            Ok(pid) => {
                if *pid == 0 {
                    SpawnStep::Child
                } else {
                    SpawnStep::Parent(*pid)
                }
            },
            Err(_) => SpawnStep::Fork,
        }
    }

    /// The error for a start through `clone3` that failed: on opening the
    /// cgroup directory where `opened` is false, else on the call itself.
    pub fn clone3_failed(opened: bool, error: &Clone3Error) -> (r: ContainerError)
        ensures
            !opened ==> (r matches ContainerError::ProcessError(m) && m@ == "open cgroup fd: "@
                + error.message()),
            opened ==> (r matches ContainerError::ProcessError(m) && m@ == "clone3: "@
                + error.message()),
    {
        let text = error.to_string();
        if opened {
            ContainerError::ProcessError(concat2("clone3: ", text.as_str()))
        } else {
            ContainerError::ProcessError(concat2("open cgroup fd: ", text.as_str()))
        }
    }

    /// What a `fork` call that returned `pid` means: a failure for -1,
    /// nothing in the child, which gets 0, and the child's process id in
    /// the parent.
    pub fn spawn_init(&self, pid: i32) -> (r: Result<Option<u32>, ContainerError>)
        ensures
            pid == -1 ==> (r matches Err(ContainerError::ProcessError(m)) && m@ == "fork failed"@),
            pid == 0 ==> (r matches Ok(None)),
            pid != -1 && pid != 0 ==> (r matches Ok(Some(p)) && p == pid as u32),
    {
        if pid == -1 {
            Err(ContainerError::ProcessError(String::from_str("fork failed")))
        } else if pid == 0 {
            Ok(None)
        } else {
            Ok(Some(pid as u32))
        }
    }

    /// Notes that the init process `pid` was created: a container that
    /// was created or stopped runs. Where the process was not created
    /// inside the cgroup, the write that adds it to the cgroup is still to
    /// be done. In any other state nothing changes and nothing is written.
    pub fn started(&mut self, pid: u32, into_cgroup: bool) -> (r: Option<FileWrite>)
        ensures
            final(self)@ == old(self)@.after_start(pid),
            into_cgroup || !old(self)@.can_start() ==> r is None,
            !into_cgroup && old(self)@.can_start() ==> (r matches Some(w) && w@ == file_write(
                old(self)@.cgroup_dir,
                "cgroup.procs"@,
                decimal(pid as nat),
                false,
            )),
    {
        if self.state != ContainerState::Created && self.state != ContainerState::Stopped {
            return None;
        }
        self.init_pid = Some(pid);
        self.state = ContainerState::Running;
        if into_cgroup {
            None
        } else {
            Some(self.cgroup.add_process(pid))
        }
    }

    /// The command to run for `cmd` in the working directory and with
    /// the environment of the container, which must be running.
    pub fn exec(&self, cmd: &[&str]) -> (r: Result<ExecCall, ContainerError>)
        ensures
            self@.state != ContainerState::Running ==> (r matches Err(e) && refused(
                e,
                self@.state,
                "exec"@,
            )),
            self@.state == ContainerState::Running && cmd@.len() == 0 ==> (r matches Err(
                ContainerError::ConfigError(m),
            ) && m@ == "Empty command"@),
            self@.state == ContainerState::Running && cmd@.len() > 0 ==> (r matches Ok(call)
                && call.program@ == cmd@[0]@ && strings(call.args@) == texts(cmd@).skip(1)
                && call.workdir@ == self@.config.workdir && pairs(call.env@)
                == self@.config.env),
    {
        if self.state != ContainerState::Running {
            return Err(ContainerError::InvalidState { current: self.state, operation: "exec" });
        }
        if cmd.len() == 0 {
            return Err(ContainerError::ConfigError(String::from_str("Empty command")));
        }
        let mut args: Vec<String> = Vec::new();
        let mut i: usize = 1;
        while i < cmd.len()
            invariant
                1 <= i <= cmd@.len(),
                args@.len() == i - 1,
                forall|j: int| 0 <= j < i - 1 ==> (#[trigger] args@[j])@ == cmd@[j + 1]@,
            decreases cmd@.len() - i,
        {
            args.push(String::from_str(cmd[i]));
            i = i + 1;
        }
        let mut env: Vec<(String, String)> = Vec::new();
        let mut k: usize = 0;
        while k < self.config.env.len()
            invariant
                k <= self.config.env@.len(),
                env@.len() == k,
                forall|j: int|
                    0 <= j < k ==> (#[trigger] env@[j]).0@ == self.config.env@[j].0@ && env@[j].1@
                        == self.config.env@[j].1@,
            decreases self.config.env@.len() - k,
        {
            let pair = &self.config.env[k];
            env.push((pair.0.clone(), pair.1.clone()));
            k = k + 1;
        }
        Ok(
            ExecCall {
                program: String::from_str(cmd[0]),
                args,
                workdir: self.config.workdir.clone(),
                env,
            },
        )
    }

    /// The exit code of a command that ran: its status, or -1 where a
    /// signal ended it.
    pub fn exec_result(code: Option<i32>) -> (r: i32)
        ensures
            r == (match code {
                Some(c) => c,
                None => -1i32,
            }),
    {
        match code {
            Some(c) => c,
            None => -1,
        }
    }

    /// The error for a command that could not be run.
    pub fn exec_failed(message: &str) -> (r: ContainerError)
        ensures
            r matches ContainerError::ProcessError(m) && m@ == message@,
    {
        ContainerError::ProcessError(String::from_str(message))
    }

    /// The write that freezes the container, which must be running.
    pub fn pause(&self) -> (r: Result<FileWrite, ContainerError>)
        ensures
            self@.state != ContainerState::Running ==> (r matches Err(e) && refused(
                e,
                self@.state,
                "pause"@,
            )),
            self@.state == ContainerState::Running ==> (r matches Ok(w) && w@ == file_write(
                self@.cgroup_dir,
                "cgroup.freeze"@,
                "1"@,
                true,
            )),
    {
        if self.state != ContainerState::Running {
            return Err(ContainerError::InvalidState { current: self.state, operation: "pause" });
        }
        Ok(self.cgroup.freeze())
    }

    /// Notes that the cgroup was frozen.
    pub fn paused(&mut self)
        ensures
            final(self)@ == old(self)@.after_pause(),
    {
        if self.state == ContainerState::Running {
            self.state = ContainerState::Paused;
        }
    }

    /// The write that thaws the container, which must be paused.
    pub fn resume(&self) -> (r: Result<FileWrite, ContainerError>)
        ensures
            self@.state != ContainerState::Paused ==> (r matches Err(e) && refused(
                e,
                self@.state,
                "resume"@,
            )),
            self@.state == ContainerState::Paused ==> (r matches Ok(w) && w@ == file_write(
                self@.cgroup_dir,
                "cgroup.freeze"@,
                "0"@,
                true,
            )),
    {
        if self.state != ContainerState::Paused {
            return Err(ContainerError::InvalidState { current: self.state, operation: "resume" });
        }
        Ok(self.cgroup.unfreeze())
    }

    /// Notes that the cgroup was thawed.
    pub fn resumed(&mut self)
        ensures
            final(self)@ == old(self)@.after_resume(),
    {
        if self.state == ContainerState::Paused {
            self.state = ContainerState::Running;
        }
    }

    /// How to stop the container, which must be running or paused.
    pub fn stop(&self) -> (r: Result<StopPlan, ContainerError>)
        ensures
            !self@.can_stop() ==> (r matches Err(e) && refused(e, self@.state, "stop"@)),
            self@.can_stop() ==> (r matches Ok(plan) && crate::cgroup::kills(
                plan.kill,
                self@.cgroup_dir,
            ) && plan.wait_for == self@.init_pid),
    {
        if self.state != ContainerState::Running && self.state != ContainerState::Paused {
            return Err(ContainerError::InvalidState { current: self.state, operation: "stop" });
        }
        Ok(StopPlan { kill: self.cgroup.kill_all(), wait_for: self.init_pid })
    }

    /// Notes that the processes were killed and the init process has ended.
    pub fn stopped(&mut self)
        ensures
            final(self)@ == old(self)@.after_stop(),
    {
        if self.state == ContainerState::Running || self.state == ContainerState::Paused {
            self.init_pid = None;
            self.state = ContainerState::Stopped;
        }
    }

    /// How to destroy the container: stop it first if it runs or is
    /// paused, then remove its cgroup.
    pub fn destroy(self) -> (r: TeardownPlan)
        ensures
            self@.can_stop() ==> (r.stop matches Some(plan) && crate::cgroup::kills(
                plan.kill,
                self@.cgroup_dir,
            ) && plan.wait_for == self@.init_pid),
            !self@.can_stop() ==> r.stop is None,
            crate::cgroup::destroys(r.remove, self@.cgroup_dir),
    {
        let stop = if self.state == ContainerState::Running || self.state
            == ContainerState::Paused {
            Some(StopPlan { kill: self.cgroup.kill_all(), wait_for: self.init_pid })
        } else {
            None
        };
        TeardownPlan { stop, remove: self.cgroup.destroy() }
    }

    /// The container's identifier.
    pub fn id(&self) -> (r: &str)
        ensures
            r@ == self@.id,
    {
        self.id.as_str()
    }

    /// The current state.
    pub fn state(&self) -> (r: ContainerState)
        ensures
            r == self@.state,
    {
        self.state
    }

    /// The process id of the init process, while there is one.
    pub fn pid(&self) -> (r: Option<u32>)
        ensures
            r == self@.init_pid,
    {
        self.init_pid
    }

    /// The configuration.
    pub fn config(&self) -> (r: &ContainerConfig)
        ensures
            r@ == self@.config,
    {
        &self.config
    }

    /// The directory of the container's cgroup.
    pub fn cgroup_path(&self) -> (r: &str)
        ensures
            r@ == self@.cgroup_dir,
    {
        self.cgroup.path()
    }

    /// The memory in use, in bytes, from the content of `memory.current`.
    pub fn memory_usage(&self, content: &str) -> (r: Result<u64, ContainerError>)
        ensures
            match memory_reading(content@) {
                Ok(n) => r == Ok::<u64, ContainerError>(n as u64),
                Err(failure) => r matches Err(
                    ContainerError::Cgroup(CgroupError::InvalidParameter(m)),
                ) && m@ == failure.message(),
            },
    {
        match self.cgroup.memory_current(content) {
            Ok(n) => Ok(n),
            Err(e) => Err(ContainerError::Cgroup(e)),
        }
    }

    /// The CPU time used, in microseconds, from the content of `cpu.stat`.
    pub fn cpu_usage(&self, content: &str) -> (r: Result<u64, ContainerError>)
        ensures
            match usage_scan(lines(content@)) {
                Some(Ok(n)) => r == Ok::<u64, ContainerError>(n as u64),
                Some(Err(failure)) => r matches Err(
                    ContainerError::Cgroup(CgroupError::InvalidParameter(m)),
                ) && m@ == failure.message(),
                None => r matches Err(ContainerError::Cgroup(CgroupError::InvalidParameter(m)))
                    && m@ == "usage_usec not found"@,
            },
    {
        match self.cgroup.cpu_usage_us(content) {
            Ok(n) => Ok(n),
            Err(e) => Err(ContainerError::Cgroup(e)),
        }
    }

    /// The writes that set new CPU limits; `cpu_updated` notes them.
    pub fn update_cpu(&self, config: &CpuConfig) -> (r: Vec<FileWrite>)
        ensures
            writes(r@) == cpu_writes(self@.cgroup_dir, *config),
    {
        self.cgroup.set_cpu(config)
    }

    /// Notes that the CPU limits `config` were written.
    pub fn cpu_updated(&mut self, config: &CpuConfig)
        ensures
            final(self)@ == (ContainerView {
                config: ContainerConfigView { cpu: *config, ..old(self)@.config },
                ..old(self)@
            }),
    {
        self.config.cpu = *config;
    }

    /// The writes that set new memory limits; `memory_updated` notes them.
    pub fn update_memory(&self, config: &MemoryConfig) -> (r: Vec<FileWrite>)
        ensures
            writes(r@) == memory_writes(self@.cgroup_dir, *config),
    {
        self.cgroup.set_memory(config)
    }

    /// Notes that the memory limits `config` were written.
    pub fn memory_updated(&mut self, config: &MemoryConfig)
        ensures
            final(self)@ == (ContainerView {
                config: ContainerConfigView { memory: *config, ..old(self)@.config },
                ..old(self)@
            }),
    {
        self.config.memory = *config;
    }
}

/// Every transition keeps the rule that there is an init process exactly
/// while the container runs or is paused.
pub proof fn lemma_transitions_consistent(c: ContainerView, pid: u32)
    requires
        c.consistent(),
    ensures
        c.after_start(pid).consistent(),
        c.after_pause().consistent(),
        c.after_resume().consistent(),
        c.after_stop().consistent(),
{
}

} // verus!
