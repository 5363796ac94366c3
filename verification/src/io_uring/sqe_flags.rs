//! Flags of a submission queue entry.

use vstd::prelude::*;

verus! {

/// The next entry starts only when this one is done.
pub const IOSQE_IO_LINK: u32 = 4;

/// The file descriptor is an index into the registered files.
pub const IOSQE_FIXED_FILE: u32 = 1;

/// Always run the operation asynchronously.
pub const IOSQE_ASYNC: u32 = 16;

} // verus!
