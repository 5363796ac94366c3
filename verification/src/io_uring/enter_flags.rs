//! Flags of `io_uring_enter`.

use vstd::prelude::*;

verus! {

/// Wait for completions.
pub const IORING_ENTER_GETEVENTS: u32 = 1;

/// Wake the kernel thread that polls the submission queue.
pub const IORING_ENTER_SQ_WAKEUP: u32 = 2;

/// Wait for room in the submission queue.
pub const IORING_ENTER_SQ_WAIT: u32 = 4;

} // verus!
