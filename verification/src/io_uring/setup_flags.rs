//! Flags of `io_uring_setup`.

use vstd::prelude::*;

verus! {

/// The kernel polls for completions.
pub const IORING_SETUP_IOPOLL: u32 = 1;

/// A kernel thread polls the submission queue.
pub const IORING_SETUP_SQPOLL: u32 = 2;

/// The application gives the size of the completion queue.
pub const IORING_SETUP_CQSIZE: u32 = 8;

/// Clamp the number of entries to what the kernel allows.
pub const IORING_SETUP_CLAMP: u32 = 16;

/// One task only submits.
pub const IORING_SETUP_SINGLE_ISSUER: u32 = 4096;

} // verus!
