//! Mount flags, with the values that the Linux kernel gives them.

use vstd::prelude::*;

verus! {

/// Read-only mount.
pub const MS_RDONLY: u64 = 1;

/// Do not interpret special files.
pub const MS_NODEV: u64 = 4;

/// Do not allow set-user-id.
pub const MS_NOSUID: u64 = 2;

/// Do not allow execution.
pub const MS_NOEXEC: u64 = 8;

/// Bind mount.
pub const MS_BIND: u64 = 4096;

/// Recursive.
pub const MS_REC: u64 = 16384;

/// Private mount.
pub const MS_PRIVATE: u64 = 262144;

/// Slave mount.
pub const MS_SLAVE: u64 = 524288;

/// Remount.
pub const MS_REMOUNT: u64 = 32;

} // verus!
