//! The items that most callers need, in one place.

pub use crate::cgroup::{CgroupController, CgroupError, CpuConfig, IoConfig, MemoryConfig};
pub use crate::clone3::{clone_flags, spawn_into_cgroup, Clone3Args, Clone3Error};
pub use crate::container::{Container, ContainerConfig, ContainerError, ContainerState};
pub use crate::io_uring::{IoUring, IoUringCgroup, IoUringCqe, IoUringError, IoUringSqe};
pub use crate::namespace::{pivot_root, NamespaceFlags, Namespaces};
pub use crate::psi::{
    PsiError, PsiEvent, PsiLevel, PsiMonitor, PsiResource, PsiScheduler, PsiTrigger,
};
pub use crate::rootfs::{mount_dev, mount_proc, RootFs};
pub use crate::scheduler::{DynamicScheduler, SchedulerConfig};
