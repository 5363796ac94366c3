//! A minimal container runtime core: cgroup v2 limits, namespaces, root
//! filesystem layout, process creation arguments and two CPU quota
//! schedulers, stated as pure decisions over plain values.
//!
//! Nothing in this library touches the kernel. Every operation that ends in a
//! system call or a file access is split in two: a function that decides what
//! is to be done and returns it as a value, and a function that takes what
//! the kernel answered and decides what follows from it. The caller performs
//! the step in between.

pub mod cgroup;
pub mod clone3;
pub mod container;
pub mod crypto_bridge;
pub mod db_bridge;
pub mod io_uring;
pub mod namespace;
pub mod prelude;
pub mod psi;
pub mod rootfs;
pub mod scheduler;
pub mod sync_bridge;
pub mod sys;
pub mod text;

pub use crate::cgroup::{CgroupController, CgroupError, CpuConfig, IoConfig, MemoryConfig};
pub use crate::clone3::{clone_flags, spawn_into_cgroup, Clone3Args, Clone3Error};
pub use crate::container::{Container, ContainerConfig, ContainerError, ContainerState};
pub use crate::io_uring::{IoUring, IoUringCgroup, IoUringCqe, IoUringError, IoUringSqe};
pub use crate::namespace::{pivot_root, NamespaceFlags, Namespaces};
pub use crate::psi::{
    PsiError, PsiEvent, PsiLevel, PsiMonitor, PsiResource, PsiScheduler, PsiTrigger,
};
pub use crate::rootfs::{mount_dev, mount_proc, RootFs};
pub use crate::scheduler::{DynamicScheduler, SchedulerConfig};

use vstd::prelude::*;

verus! {

/// Default cgroup mount point.
pub const CGROUP_ROOT: &'static str = "/sys/fs/cgroup";

/// The subtree below the cgroup root that holds every container's cgroup.
pub const ALICE_CGROUP: &'static str = "/sys/fs/cgroup/alice";

/// Default CPU period (100 ms).
pub const DEFAULT_CPU_PERIOD_US: u64 = 100_000;

/// Default memory limit (1 GiB).
pub const DEFAULT_MEMORY_MAX: u64 = 1024 * 1024 * 1024;

/// Process ID type.
pub type Pid = u32;

} // verus!
