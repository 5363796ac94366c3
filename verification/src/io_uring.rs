//! Batched cgroup writes through io_uring: the entries to submit, the
//! layout of the rings that the kernel shares, the arithmetic on their
//! heads and tails, and the plain writes to fall back on.
//!
//! | Operation | One by one | Batched |
//! |-----------|------------|---------|
//! | Set CPU, memory and I/O limits | 3 system calls | 1 system call |

pub mod enter_flags;
pub mod setup_flags;
pub mod sqe_flags;

use vstd::prelude::*;
use vstd::string::*;
use crate::cgroup::{io_wire, io_max_line, CpuConfig, MemoryConfig};
use crate::rootfs::{contains_nul, has_nul};
use crate::sys::{at_fdcwd, o_trunc, o_wronly};
use crate::text::{
    concat_decimal, decimal, join, join_path, push_signed_decimal, signed_decimal, u64_to_string,
};

verus! {

/// The number of the `io_uring_setup` system call.
pub const IO_URING_SETUP: i64 = 425;

/// The number of the `io_uring_enter` system call.
pub const IO_URING_ENTER: i64 = 426;

/// The number of the `io_uring_register` system call.
pub const IO_URING_REGISTER: i64 = 427;

/// Where the submission queue ring is mapped from.
pub const IORING_OFF_SQ_RING: u64 = 0;

/// Where the completion queue ring is mapped from.
pub const IORING_OFF_CQ_RING: u64 = 0x8000000;

/// Where the submission queue entries are mapped from.
pub const IORING_OFF_SQES: u64 = 0x10000000;

/// The size of a submission queue entry in bytes.
pub const SQE_SIZE: u64 = 64;

/// The size of a completion queue entry in bytes.
pub const CQE_SIZE: u64 = 16;

/// The mark on the user data of an entry that opens a file.
pub const OPEN_MARK: u64 = 0x1000_0000;

/// The operations of io_uring, in the order of their codes from 0.
#[derive(Debug, Clone, Copy, PartialEq, Eq, Structural)]
pub enum IoUringOp {
    Nop,
    Readv,
    Writev,
    Fsync,
    ReadFixed,
    WriteFixed,
    PollAdd,
    PollRemove,
    SyncFileRange,
    Sendmsg,
    Recvmsg,
    Timeout,
    TimeoutRemove,
    Accept,
    AsyncCancel,
    LinkTimeout,
    Connect,
    Fallocate,
    Openat,
    Close,
    FilesUpdate,
    Statx,
    Read,
    Write,
    Fadvise,
    Madvise,
    Send,
    Recv,
    Openat2,
    EpollCtl,
    Splice,
    ProvideBuffers,
    RemoveBuffers,
}

impl IoUringOp {
    /// The code of this operation.
    pub open spec fn code(self) -> u8 {
        match self {
            IoUringOp::Nop => 0,
            IoUringOp::Readv => 1,
            IoUringOp::Writev => 2,
            IoUringOp::Fsync => 3,
            IoUringOp::ReadFixed => 4,
            IoUringOp::WriteFixed => 5,
            IoUringOp::PollAdd => 6,
            IoUringOp::PollRemove => 7,
            IoUringOp::SyncFileRange => 8,
            IoUringOp::Sendmsg => 9,
            IoUringOp::Recvmsg => 10,
            IoUringOp::Timeout => 11,
            IoUringOp::TimeoutRemove => 12,
            IoUringOp::Accept => 13,
            IoUringOp::AsyncCancel => 14,
            IoUringOp::LinkTimeout => 15,
            IoUringOp::Connect => 16,
            IoUringOp::Fallocate => 17,
            IoUringOp::Openat => 18,
            IoUringOp::Close => 19,
            IoUringOp::FilesUpdate => 20,
            IoUringOp::Statx => 21,
            IoUringOp::Read => 22,
            IoUringOp::Write => 23,
            IoUringOp::Fadvise => 24,
            IoUringOp::Madvise => 25,
            IoUringOp::Send => 26,
            IoUringOp::Recv => 27,
            IoUringOp::Openat2 => 28,
            IoUringOp::EpollCtl => 29,
            IoUringOp::Splice => 30,
            IoUringOp::ProvideBuffers => 31,
            IoUringOp::RemoveBuffers => 32,
        }
    }

    /// The code of this operation.
    pub fn as_u8(self) -> (r: u8)
        ensures
            r == self.code(),
    {
        match self {
            IoUringOp::Nop => 0,
            IoUringOp::Readv => 1,
            IoUringOp::Writev => 2,
            IoUringOp::Fsync => 3,
            IoUringOp::ReadFixed => 4,
            IoUringOp::WriteFixed => 5,
            IoUringOp::PollAdd => 6,
            IoUringOp::PollRemove => 7,
            IoUringOp::SyncFileRange => 8,
            IoUringOp::Sendmsg => 9,
            IoUringOp::Recvmsg => 10,
            IoUringOp::Timeout => 11,
            IoUringOp::TimeoutRemove => 12,
            IoUringOp::Accept => 13,
            IoUringOp::AsyncCancel => 14,
            IoUringOp::LinkTimeout => 15,
            IoUringOp::Connect => 16,
            IoUringOp::Fallocate => 17,
            IoUringOp::Openat => 18,
            IoUringOp::Close => 19,
            IoUringOp::FilesUpdate => 20,
            IoUringOp::Statx => 21,
            IoUringOp::Read => 22,
            IoUringOp::Write => 23,
            IoUringOp::Fadvise => 24,
            IoUringOp::Madvise => 25,
            IoUringOp::Send => 26,
            IoUringOp::Recv => 27,
            IoUringOp::Openat2 => 28,
            IoUringOp::EpollCtl => 29,
            IoUringOp::Splice => 30,
            IoUringOp::ProvideBuffers => 31,
            IoUringOp::RemoveBuffers => 32,
        }
    }
}

/// Where the parts of the submission queue ring lie in its mapping.
#[derive(Debug, Clone, Copy, PartialEq, Eq, Structural)]
pub struct SqRingOffsets {
    pub head: u32,
    pub tail: u32,
    pub ring_mask: u32,
    pub ring_entries: u32,
    pub flags: u32,
    pub dropped: u32,
    pub array: u32,
    pub resv1: u32,
    pub user_addr: u64,
}

/// Where the parts of the completion queue ring lie in its mapping.
#[derive(Debug, Clone, Copy, PartialEq, Eq, Structural)]
pub struct CqRingOffsets {
    pub head: u32,
    pub tail: u32,
    pub ring_mask: u32,
    pub ring_entries: u32,
    pub overflow: u32,
    pub cqes: u32,
    pub flags: u32,
    pub resv1: u32,
    pub user_addr: u64,
}

/// The parameters of `io_uring_setup`: the caller sets the flags, the
/// kernel fills in the rest.
#[derive(Debug, Clone, Copy)]
pub struct IoUringParams {
    pub sq_entries: u32,
    pub cq_entries: u32,
    pub flags: u32,
    pub sq_thread_cpu: u32,
    pub sq_thread_idle: u32,
    pub features: u32,
    pub wq_fd: u32,
    pub resv: [u32; 3],
    pub sq_off: SqRingOffsets,
    pub cq_off: CqRingOffsets,
}

impl SqRingOffsets {
    /// Offsets that are all zero.
    pub open spec fn zero() -> SqRingOffsets {
        SqRingOffsets {
            head: 0,
            tail: 0,
            ring_mask: 0,
            ring_entries: 0,
            flags: 0,
            dropped: 0,
            array: 0,
            resv1: 0,
            user_addr: 0,
        }
    }
}

impl CqRingOffsets {
    /// Offsets that are all zero.
    pub open spec fn zero() -> CqRingOffsets {
        CqRingOffsets {
            head: 0,
            tail: 0,
            ring_mask: 0,
            ring_entries: 0,
            overflow: 0,
            cqes: 0,
            flags: 0,
            resv1: 0,
            user_addr: 0,
        }
    }
}

impl Default for SqRingOffsets {
    fn default() -> (r: Self)
        ensures
            r == SqRingOffsets::zero(),
    {
        Self {
            head: 0,
            tail: 0,
            ring_mask: 0,
            ring_entries: 0,
            flags: 0,
            dropped: 0,
            array: 0,
            resv1: 0,
            user_addr: 0,
        }
    }
}

impl Default for CqRingOffsets {
    fn default() -> (r: Self)
        ensures
            r == CqRingOffsets::zero(),
    {
        Self {
            head: 0,
            tail: 0,
            ring_mask: 0,
            ring_entries: 0,
            overflow: 0,
            cqes: 0,
            flags: 0,
            resv1: 0,
            user_addr: 0,
        }
    }
}

impl IoUringParams {
    /// Whether these are parameters that are all zero but for `flags`.
    pub open spec fn only_flags(self, flags: u32) -> bool {
        self.sq_entries == 0 && self.cq_entries == 0 && self.flags == flags && self.sq_thread_cpu
            == 0 && self.sq_thread_idle == 0 && self.features == 0 && self.wq_fd == 0
            && self.resv@ == seq![0u32, 0u32, 0u32] && self.sq_off == SqRingOffsets::zero()
            && self.cq_off == CqRingOffsets::zero()
    }
}

impl Default for IoUringParams {
    fn default() -> (r: Self)
        ensures
            r.only_flags(0),
    {
        let resv: [u32; 3] = [0, 0, 0];
        Self {
            sq_entries: 0,
            cq_entries: 0,
            flags: 0,
            sq_thread_cpu: 0,
            sq_thread_idle: 0,
            features: 0,
            wq_fd: 0,
            resv,
            sq_off: SqRingOffsets::default(),
            cq_off: CqRingOffsets::default(),
        }
    }
}

/// A submission queue entry, laid out as the kernel's 64 bytes.
#[derive(Debug, Clone, Copy, PartialEq, Eq, Structural)]
pub struct IoUringSqe {
    pub opcode: u8,
    pub flags: u8,
    pub ioprio: u16,
    pub fd: i32,
    pub off: u64,
    pub addr: u64,
    pub len: u32,
    pub op_flags: u32,
    pub user_data: u64,
    pub buf_index: u16,
    pub personality: u16,
    pub splice_fd_in: i32,
    pub addr3: u64,
    pub pad2: u64,
}

impl IoUringSqe {
    /// An entry that is all zero: the operation that does nothing.
    pub open spec fn zero() -> IoUringSqe {
        IoUringSqe {
            opcode: 0,
            flags: 0,
            ioprio: 0,
            fd: 0,
            off: 0,
            addr: 0,
            len: 0,
            op_flags: 0,
            user_data: 0,
            buf_index: 0,
            personality: 0,
            splice_fd_in: 0,
            addr3: 0,
            pad2: 0,
        }
    }

    /// The entry of the operation `op` on `fd`, all else as given or zero.
    pub open spec fn of(op: IoUringOp, fd: i32, off: u64, addr: u64, len: u32, user_data: u64)
        -> IoUringSqe {
        IoUringSqe {
            opcode: op.code(),
            fd: fd,
            off: off,
            addr: addr,
            len: len,
            user_data: user_data,
            ..IoUringSqe::zero()
        }
    }

    fn build(op: IoUringOp, fd: i32, off: u64, addr: u64, len: u32, user_data: u64) -> (r: Self)
        ensures
            r == Self::of(op, fd, off, addr, len, user_data),
    {
        Self {
            opcode: op.as_u8(),
            flags: 0,
            ioprio: 0,
            fd,
            off,
            addr,
            len,
            op_flags: 0,
            user_data,
            buf_index: 0,
            personality: 0,
            splice_fd_in: 0,
            addr3: 0,
            pad2: 0,
        }
    }

    /// The entry that writes the `len` bytes at the address `buf_addr` to
    /// `fd` at `offset`.
    pub fn write(fd: i32, buf_addr: u64, len: u32, offset: u64, user_data: u64) -> (r: Self)
        ensures
            r == Self::of(IoUringOp::Write, fd, offset, buf_addr, len, user_data),
    {
        Self::build(IoUringOp::Write, fd, offset, buf_addr, len, user_data)
    }

    /// The entry that opens the path at the address `path_addr`, relative
    /// to `dirfd`: the open flags travel in the length field, the mode in
    /// the offset field.
    pub fn openat(dirfd: i32, path_addr: u64, flags: i32, mode: u32, user_data: u64) -> (r: Self)
        ensures
            r == Self::of(
                IoUringOp::Openat,
                dirfd,
                mode as u64,
                path_addr,
                flags as u32,
                user_data,
            ),
    {
        Self::build(IoUringOp::Openat, dirfd, mode as u64, path_addr, flags as u32, user_data)
    }

    /// The entry that closes `fd`.
    pub fn close(fd: i32, user_data: u64) -> (r: Self)
        ensures
            r == Self::of(IoUringOp::Close, fd, 0, 0, 0, user_data),
    {
        Self::build(IoUringOp::Close, fd, 0, 0, 0, user_data)
    }

    /// The same entry, linked to the one after it.
    pub fn with_link(self) -> (r: Self)
        ensures
            r == (IoUringSqe { flags: self.flags | 4, ..self }),
    {
        let mut sqe = self;
        sqe.flags = sqe.flags | (sqe_flags::IOSQE_IO_LINK as u8);
        sqe
    }
}

impl Default for IoUringSqe {
    fn default() -> (r: Self)
        ensures
            r == IoUringSqe::zero(),
    {
        Self {
            opcode: 0,
            flags: 0,
            ioprio: 0,
            fd: 0,
            off: 0,
            addr: 0,
            len: 0,
            op_flags: 0,
            user_data: 0,
            buf_index: 0,
            personality: 0,
            splice_fd_in: 0,
            addr3: 0,
            pad2: 0,
        }
    }
}

/// A completion queue entry.
#[derive(Debug, Clone, Copy, PartialEq, Eq, Structural)]
pub struct IoUringCqe {
    pub user_data: u64,
    pub res: i32,
    pub flags: u32,
}

impl Default for IoUringCqe {
    fn default() -> (r: Self)
        ensures
            r == (IoUringCqe { user_data: 0, res: 0, flags: 0 }),
    {
        Self { user_data: 0, res: 0, flags: 0 }
    }
}

/// io_uring errors.
#[derive(Debug, Clone, PartialEq, Eq)]
pub enum IoUringError {
    /// Setup failed with this error number.
    SetupFailed(i32),
    /// Submission failed with this error number.
    SubmitFailed(i32),
    /// One operation failed.
    OperationFailed { user_data: u64, errno: i32 },
    /// The submission queue is full.
    RingFull,
    /// Not supported on this platform.
    NotSupported,
    /// Invalid parameter.
    InvalidParameter(String),
}

impl IoUringError {
    /// The text that describes this error.
    pub open spec fn message(self) -> Seq<char> {
        match self {
            IoUringError::SetupFailed(e) => "io_uring setup failed: errno "@ + signed_decimal(
                e as int,
            ),
            IoUringError::SubmitFailed(e) => "io_uring submit failed: errno "@ + signed_decimal(
                e as int,
            ),
            IoUringError::OperationFailed { user_data, errno } => "io_uring op "@ + decimal(
                user_data as nat,
            ) + " failed: errno "@ + signed_decimal(errno as int),
            IoUringError::RingFull => "io_uring ring full"@,
            IoUringError::NotSupported => "io_uring not supported"@,
            IoUringError::InvalidParameter(msg) => "Invalid parameter: "@ + msg@,
        }
    }

    /// The text that describes this error.
    pub fn to_string(&self) -> (r: String)
        ensures
            r@ == self.message(),
    {
        match self {
            IoUringError::SetupFailed(e) => {
                let mut out = String::from_str("io_uring setup failed: errno ");
                push_signed_decimal(&mut out, *e);
                out
            },
            IoUringError::SubmitFailed(e) => {
                let mut out = String::from_str("io_uring submit failed: errno ");
                push_signed_decimal(&mut out, *e);
                out
            },
            IoUringError::OperationFailed { user_data, errno } => {
                let mut out = concat_decimal("io_uring op ", *user_data);
                out.append(" failed: errno ");
                push_signed_decimal(&mut out, *errno);
                out
            },
            IoUringError::RingFull => String::from_str("io_uring ring full"),
            IoUringError::NotSupported => String::from_str("io_uring not supported"),
            IoUringError::InvalidParameter(msg) => {
                let mut out = String::from_str("Invalid parameter: ");
                out.append(msg.as_str());
                out
            },
        }
    }
}

/// The arguments of an `io_uring_setup` call.
#[derive(Debug, Clone, Copy)]
pub struct SetupCall {
    pub number: i64,
    pub entries: u32,
    pub params: IoUringParams,
}

/// One region of memory that a ring maps from its file descriptor.
#[derive(Debug, Clone, Copy, PartialEq, Eq, Structural)]
pub struct Mapping {
    /// Size in bytes.
    pub size: u64,
    /// Offset in the ring's file.
    pub offset: u64,
}

/// The three regions of a ring.
#[derive(Debug, Clone, Copy, PartialEq, Eq, Structural)]
pub enum RingRegion {
    /// The submission queue ring.
    SqRing,
    /// The submission queue entries.
    Sqes,
    /// The completion queue ring.
    CqRing,
}

/// What to map of a ring that the kernel has set up, and where the parts
/// of the rings lie in the mappings. The regions are mapped in the order
/// of the fields; all are shared, readable, writable and populated.
#[derive(Debug, Clone, Copy, PartialEq, Eq, Structural)]
pub struct RingLayout {
    pub ring_fd: i32,
    pub sq_ring: Mapping,
    pub sqes: Mapping,
    pub cq_ring: Mapping,
    /// Number of submission queue entries.
    pub entries: u32,
    pub sq_off: SqRingOffsets,
    pub cq_off: CqRingOffsets,
}

/// The layout of the ring `ring_fd` with the parameters that the kernel
/// filled in: the submission ring ends with an array of one index of four
/// bytes for each entry; the completion ring ends with its entries.
pub open spec fn layout_of(ring_fd: i32, params: IoUringParams) -> RingLayout {
    RingLayout {
        ring_fd: ring_fd,
        sq_ring: Mapping {
            size: (params.sq_off.array + params.sq_entries * 4) as u64,
            offset: IORING_OFF_SQ_RING,
        },
        sqes: Mapping { size: (params.sq_entries * SQE_SIZE) as u64, offset: IORING_OFF_SQES },
        cq_ring: Mapping {
            size: (params.cq_off.cqes + params.cq_entries * CQE_SIZE) as u64,
            offset: IORING_OFF_CQ_RING,
        },
        entries: params.sq_entries,
        sq_off: params.sq_off,
        cq_off: params.cq_off,
    }
}

/// The arguments of an `io_uring_enter` call.
#[derive(Debug, Clone, Copy, PartialEq, Eq, Structural)]
pub struct EnterCall {
    pub number: i64,
    pub ring_fd: i32,
    pub to_submit: u32,
    pub min_complete: u32,
    pub flags: u32,
}

/// Where the next submission queue entry goes: write the entry and its
/// own index at `index`, make both visible, then store `new_tail`.
#[derive(Debug, Clone, Copy, PartialEq, Eq, Structural)]
pub struct SqSlot {
    pub index: u32,
    pub new_tail: u32,
}

/// `a` less `b` modulo 2^32.
pub open spec fn ring_distance(a: u32, b: u32) -> u32 {
    if a >= b {
        (a - b) as u32
    } else {
        (a + 0x1_0000_0000 - b) as u32
    }
}

/// `a` plus `n` modulo 2^32.
pub open spec fn ring_advance(a: u32, n: nat) -> u32 {
    ((a + n) % 0x1_0000_0000) as u32
}

/// The slots of the completions between `head` and `tail`, oldest first.
pub open spec fn completion_slots(head: u32, tail: u32, mask: u32) -> Seq<u32> {
    Seq::new(ring_distance(tail, head) as nat, |i: int| ring_advance(head, i as nat) & mask)
}

/// A ring that is set up and mapped.
#[derive(Debug, Clone, Copy)]
pub struct IoUring {
    ring_fd: i32,
    entries: u32,
    sq_ring_mask: u32,
    cq_ring_mask: u32,
}

impl IoUring {
    /// The file descriptor of the ring.
    pub closed spec fn descriptor(&self) -> i32 {
        self.ring_fd
    }

    /// The number of submission queue entries.
    pub closed spec fn capacity(&self) -> u32 {
        self.entries
    }

    /// The mask that turns a position in the submission queue into an index.
    pub closed spec fn sq_mask(&self) -> u32 {
        self.sq_ring_mask
    }

    /// The mask that turns a position in the completion queue into an index.
    pub closed spec fn cq_mask(&self) -> u32 {
        self.cq_ring_mask
    }

    /// The setup call for a ring of `entries` entries with no flags.
    pub fn new(entries: u32) -> (r: SetupCall)
        ensures
            r.number == IO_URING_SETUP,
            r.entries == entries,
            r.params.only_flags(0),
    {
        Self::with_params(entries, 0)
    }

    /// The setup call for a ring of `entries` entries with `flags`. Once
    /// the kernel has answered it, `layout` says what to map.
    pub fn with_params(entries: u32, flags: u32) -> (r: SetupCall)
        ensures
            r.number == IO_URING_SETUP,
            r.entries == entries,
            r.params.only_flags(flags),
    {
        let mut params = IoUringParams::default();
        params.flags = flags;
        SetupCall { number: IO_URING_SETUP, entries, params }
    }

    /// What to map after an `io_uring_setup` call that returned `ring_fd`
    /// with the error number `errno` and filled in `params`.
    pub fn layout(ring_fd: i32, errno: i32, params: &IoUringParams) -> (r: Result<
        RingLayout,
        IoUringError,
    >)
        ensures
            ring_fd < 0 ==> r == Err::<RingLayout, IoUringError>(IoUringError::SetupFailed(errno)),
            ring_fd >= 0 ==> r == Ok::<RingLayout, IoUringError>(layout_of(ring_fd, *params)),
    {
        if ring_fd < 0 {
            return Err(IoUringError::SetupFailed(errno));
        }
        let sq_ring_sz: u64 = params.sq_off.array as u64 + params.sq_entries as u64 * 4;
        let sqes_sz: u64 = params.sq_entries as u64 * SQE_SIZE;
        let cq_ring_sz: u64 = params.cq_off.cqes as u64 + params.cq_entries as u64 * CQE_SIZE;
        Ok(
            RingLayout {
                ring_fd,
                sq_ring: Mapping { size: sq_ring_sz, offset: IORING_OFF_SQ_RING },
                sqes: Mapping { size: sqes_sz, offset: IORING_OFF_SQES },
                cq_ring: Mapping { size: cq_ring_sz, offset: IORING_OFF_CQ_RING },
                entries: params.sq_entries,
                sq_off: params.sq_off,
                cq_off: params.cq_off,
            },
        )
    }

    /// What to give up when the region `failed` could not be mapped: the
    /// regions mapped before it, last first; then the ring's file
    /// descriptor is closed. The error is a failed setup with -1.
    pub fn mapping_failed(failed: RingRegion) -> (r: (Vec<RingRegion>, IoUringError))
        ensures
            r.1 == IoUringError::SetupFailed(-1i32),
            failed == RingRegion::SqRing ==> r.0@ == Seq::<RingRegion>::empty(),
            failed == RingRegion::Sqes ==> r.0@ == seq![RingRegion::SqRing],
            failed == RingRegion::CqRing ==> r.0@ == seq![RingRegion::Sqes, RingRegion::SqRing],
    {
        let mut undo: Vec<RingRegion> = Vec::new();
        match failed {
            RingRegion::SqRing => {},
            RingRegion::Sqes => {
                undo.push(RingRegion::SqRing);
            },
            RingRegion::CqRing => {
                undo.push(RingRegion::Sqes);
                undo.push(RingRegion::SqRing);
            },
        }
        (undo, IoUringError::SetupFailed(-1))
    }

    /// The regions to unmap when the ring is given up, in order, before
    /// its file descriptor is closed. `shared` says whether the two
    /// rings lie in one mapping, as newer kernels have it.
    pub fn teardown(shared: bool) -> (r: Vec<RingRegion>)
        ensures
            shared ==> r@ == seq![RingRegion::Sqes, RingRegion::SqRing],
            !shared ==> r@ == seq![RingRegion::CqRing, RingRegion::Sqes, RingRegion::SqRing],
    {
        let mut out: Vec<RingRegion> = Vec::new();
        if !shared {
            out.push(RingRegion::CqRing);
        }
        out.push(RingRegion::Sqes);
        out.push(RingRegion::SqRing);
        out
    }

    /// The ring of `layout`, once its regions are mapped and the two ring
    /// masks are read from them.
    pub fn mapped(layout: &RingLayout, sq_ring_mask: u32, cq_ring_mask: u32) -> (r: Self)
        ensures
            r.descriptor() == layout.ring_fd,
            r.capacity() == layout.entries,
            r.sq_mask() == sq_ring_mask,
            r.cq_mask() == cq_ring_mask,
    {
        Self { ring_fd: layout.ring_fd, entries: layout.entries, sq_ring_mask, cq_ring_mask }
    }

    /// The number of free submission queue entries, for the head and the
    /// tail that were read from the ring.
    pub fn sq_space_left(&self, head: u32, tail: u32) -> (r: u32)
        requires
            ring_distance(tail, head) <= self.capacity(),
        ensures
            r == self.capacity() - ring_distance(tail, head),
    {
        self.entries - tail.wrapping_sub(head)
    }

    /// Where the next entry goes, for the head and the tail that were
    /// read from the ring, or that the ring is full.
    pub fn queue_sqe(&self, head: u32, tail: u32) -> (r: Result<SqSlot, IoUringError>)
        requires
            ring_distance(tail, head) <= self.capacity(),
        ensures
            ring_distance(tail, head) == self.capacity() ==> r == Err::<SqSlot, IoUringError>(
                IoUringError::RingFull,
            ),
            ring_distance(tail, head) < self.capacity() ==> r == Ok::<SqSlot, IoUringError>(
                SqSlot { index: tail & self.sq_mask(), new_tail: ring_advance(tail, 1) },
            ),
    {
        if self.sq_space_left(head, tail) == 0 {
            return Err(IoUringError::RingFull);
        }
        Ok(SqSlot { index: tail & self.sq_ring_mask, new_tail: tail.wrapping_add(1) })
    }

    /// The `io_uring_enter` call that submits what is queued and waits
    /// for `wait_nr` completions, for the head and the tail that were
    /// read from the submission ring. With nothing queued and nothing
    /// to wait for there is no call, and 0 entries count as submitted.
    pub fn submit_and_wait(&self, head: u32, tail: u32, wait_nr: u32) -> (r: Option<EnterCall>)
        ensures
            ring_distance(tail, head) == 0 && wait_nr == 0 ==> r is None,
            !(ring_distance(tail, head) == 0 && wait_nr == 0) ==> r == Some(
                EnterCall {
                    number: IO_URING_ENTER,
                    ring_fd: self.descriptor(),
                    to_submit: ring_distance(tail, head),
                    min_complete: wait_nr,
                    flags: if wait_nr > 0 {
                        enter_flags::IORING_ENTER_GETEVENTS
                    } else {
                        0
                    },
                },
            ),
    {
        let to_submit: u32 = tail.wrapping_sub(head);
        if to_submit == 0 && wait_nr == 0 {
            return None;
        }
        let flags: u32 = if wait_nr > 0 {
            enter_flags::IORING_ENTER_GETEVENTS
        } else {
            0
        };
        Some(
            EnterCall {
                number: IO_URING_ENTER,
                ring_fd: self.ring_fd,
                to_submit,
                min_complete: wait_nr,
                flags,
            },
        )
    }

    /// The `io_uring_enter` call that submits what is queued without waiting.
    pub fn submit(&self, head: u32, tail: u32) -> (r: Option<EnterCall>)
        ensures
            ring_distance(tail, head) == 0 ==> r is None,
            ring_distance(tail, head) != 0 ==> r == Some(
                EnterCall {
                    number: IO_URING_ENTER,
                    ring_fd: self.descriptor(),
                    to_submit: ring_distance(tail, head),
                    min_complete: 0,
                    flags: 0,
                },
            ),
    {
        self.submit_and_wait(head, tail, 0)
    }

    /// What an `io_uring_enter` call that returned `ret` means: the
    /// number of entries submitted, or a failed submission with `errno`.
    pub fn enter_result(ret: i32, errno: i32) -> (r: Result<u32, IoUringError>)
        ensures
            ret >= 0 ==> r == Ok::<u32, IoUringError>(ret as u32),
            ret < 0 ==> r == Err::<u32, IoUringError>(IoUringError::SubmitFailed(errno)),
    {
        if ret < 0 {
            return Err(IoUringError::SubmitFailed(errno));
        }
        Ok(ret as u32)
    }

    /// The slots of the completion queue to read, oldest first, for the
    /// head and the tail that were read from the ring, and the head to
    /// store once they are read.
    pub fn get_completions(&self, head: u32, tail: u32) -> (r: (Vec<u32>, u32))
        ensures
            r.0@ == completion_slots(head, tail, self.cq_mask()),
            r.1 == tail,
    {
        let mut slots: Vec<u32> = Vec::new();
        let count: u32 = tail.wrapping_sub(head);
        let mut cursor: u32 = head;
        let mut i: u32 = 0;
        while i < count
            invariant
                count == ring_distance(tail, head),
                i <= count,
                cursor == ring_advance(head, i as nat),
                slots@.len() == i,
                forall|j: int|
                    0 <= j < i ==> slots@[j] == ring_advance(head, j as nat) & self.cq_mask(),
            decreases count - i,
        {
            slots.push(cursor & self.cq_ring_mask);
            cursor = cursor.wrapping_add(1);
            i = i + 1;
        }
        (slots, cursor)
    }

    /// The file descriptor of the ring.
    pub fn fd(&self) -> (r: i32)
        ensures
            r == self.descriptor(),
    {
        self.ring_fd
    }
}

/// One write to a cgroup file that waits to be submitted.
#[derive(Debug, Clone)]
pub struct CgroupOp {
    /// File name relative to the cgroup directory.
    pub file: String,
    /// Content to write.
    pub content: String,
    /// User data by which the completion is told apart.
    pub user_data: u64,
}

/// A `CgroupOp` as plain text.
pub struct CgroupOpView {
    pub file: Seq<char>,
    pub content: Seq<char>,
    pub user_data: u64,
}

impl View for CgroupOp {
    type V = CgroupOpView;

    open spec fn view(&self) -> CgroupOpView {
        CgroupOpView { file: self.file@, content: self.content@, user_data: self.user_data }
    }
}

/// The views of the operations of `v`.
pub open spec fn ops(v: Seq<CgroupOp>) -> Seq<CgroupOpView> {
    Seq::new(v.len(), |i: int| v[i]@)
}

/// One file to open through the ring: the entry to submit, in which the
/// address of the path is yet to be set, and the texts that must stay
/// in memory, NUL-terminated, until the entry completes.
#[derive(Debug, Clone)]
pub struct OpenRequest {
    pub path: String,
    pub content: String,
    /// The user data of the operation, without the mark of the open.
    pub user_data: u64,
    pub sqe: IoUringSqe,
}

/// An `OpenRequest` as plain text.
pub struct OpenRequestView {
    pub path: Seq<char>,
    pub content: Seq<char>,
    pub user_data: u64,
    pub sqe: IoUringSqe,
}

impl View for OpenRequest {
    type V = OpenRequestView;

    open spec fn view(&self) -> OpenRequestView {
        OpenRequestView {
            path: self.path@,
            content: self.content@,
            user_data: self.user_data,
            sqe: self.sqe,
        }
    }
}

/// The views of the requests of `v`.
pub open spec fn requests(v: Seq<OpenRequest>) -> Seq<OpenRequestView> {
    Seq::new(v.len(), |i: int| v[i]@)
}

/// One plain write of the fallback: open the file as it is, empty it,
/// write the content.
#[derive(Debug, Clone)]
pub struct BatchWrite {
    pub path: String,
    pub content: String,
    pub user_data: u64,
}

/// A `BatchWrite` as plain text.
pub struct BatchWriteView {
    pub path: Seq<char>,
    pub content: Seq<char>,
    pub user_data: u64,
}

impl View for BatchWrite {
    type V = BatchWriteView;

    open spec fn view(&self) -> BatchWriteView {
        BatchWriteView { path: self.path@, content: self.content@, user_data: self.user_data }
    }
}

/// The views of the writes of `v`.
pub open spec fn batch_writes(v: Seq<BatchWrite>) -> Seq<BatchWriteView> {
    Seq::new(v.len(), |i: int| v[i]@)
}

/// The entry that opens a cgroup file for the operation `user_data`:
/// relative to the current directory, for writing, emptied, linked to the
/// entry after it, marked as an open.
pub open spec fn open_entry(user_data: u64) -> IoUringSqe {
    IoUringSqe {
        flags: 4,
        ..IoUringSqe::of(
            IoUringOp::Openat,
            -100i32,
            0,
            0,
            (1i32 | 512i32) as u32,
            user_data | OPEN_MARK,
        )
    }
}

/// The request that opens the file of `op` in `dir`.
pub open spec fn open_request(dir: Seq<char>, op: CgroupOpView) -> OpenRequestView {
    OpenRequestView {
        path: join(dir, op.file),
        content: op.content,
        user_data: op.user_data,
        sqe: open_entry(op.user_data),
    }
}

/// The plain write of `op` in `dir`.
pub open spec fn batch_write(dir: Seq<char>, op: CgroupOpView) -> BatchWriteView {
    BatchWriteView { path: join(dir, op.file), content: op.content, user_data: op.user_data }
}

/// The index of the first operation whose path in `dir` or whose content
/// holds a NUL character, or the length of `pending` where none does.
pub open spec fn first_invalid(dir: Seq<char>, pending: Seq<CgroupOpView>) -> int
    decreases pending.len(),
{
    if pending.len() == 0 {
        0
    } else if has_nul(join(dir, pending[0].file)) || has_nul(pending[0].content) {
        0
    } else {
        1 + first_invalid(dir, pending.drop_first())
    }
}

/// The content of `cpu.max` for a quota and a period.
pub open spec fn cpu_max_wire(quota_us: u64, period_us: u64) -> Seq<char> {
    (CpuConfig { quota_us: quota_us, period_us: period_us, weight: 100 }).wire()
}

/// The content of `memory.max` for a limit.
pub open spec fn memory_max_wire(bytes: u64) -> Seq<char> {
    (MemoryConfig { max: bytes, high: bytes, min: 0, oom_kill: true }).max_wire()
}

/// The state of a batch as plain values.
pub struct BatchView {
    /// The directory of the cgroup.
    pub dir: Seq<char>,
    /// The operations that wait, oldest first.
    pub pending: Seq<CgroupOpView>,
    /// The number of operations queued so far.
    pub op_counter: u64,
}

impl BatchView {
    /// The batch after `content` for `file` is queued: the operation is
    /// the last to wait, with the next number as its user data.
    pub open spec fn queued(self, file: Seq<char>, content: Seq<char>) -> BatchView {
        BatchView {
            pending: self.pending.push(
                CgroupOpView {
                    file: file,
                    content: content,
                    user_data: (self.op_counter + 1) as u64,
                },
            ),
            op_counter: (self.op_counter + 1) as u64,
            ..self
        }
    }
}

/// Writes to the files of one cgroup, gathered to go to the kernel together.
pub struct IoUringCgroup {
    ring: IoUring,
    cgroup_path: String,
    pending_ops: Vec<CgroupOp>,
    op_counter: u64,
}

impl View for IoUringCgroup {
    type V = BatchView;

    closed spec fn view(&self) -> BatchView {
        BatchView {
            dir: self.cgroup_path@,
            pending: ops(self.pending_ops@),
            op_counter: self.op_counter,
        }
    }
}

impl IoUringCgroup {
    /// The ring that the batch goes through.
    pub closed spec fn ring_of(&self) -> IoUring {
        self.ring
    }

    /// An empty batch for the cgroup at `cgroup_path`, to go through `ring`.
    pub fn new(ring: IoUring, cgroup_path: &str) -> (r: Self)
        ensures
            r@ == (BatchView {
                dir: cgroup_path@,
                pending: Seq::<CgroupOpView>::empty(),
                op_counter: 0,
            }),
            r.ring_of() == ring,
    {
        let batch = Self {
            ring,
            cgroup_path: String::from_str(cgroup_path),
            pending_ops: Vec::new(),
            op_counter: 0,
        };
        assert(ops(batch.pending_ops@) =~= Seq::<CgroupOpView>::empty());
        batch
    }

    /// The ring that the batch goes through.
    pub fn ring(&self) -> (r: &IoUring)
        ensures
            *r == self.ring_of(),
    {
        &self.ring
    }

    /// Queues the CPU quota and period for `cpu.max`.
    pub fn queue_cpu_max(&mut self, quota_us: u64, period_us: u64)
        requires
            old(self)@.op_counter < u64::MAX,
        ensures
            final(self)@ == old(self)@.queued("cpu.max"@, cpu_max_wire(quota_us, period_us)),
            final(self).ring_of() == old(self).ring_of(),
    {
        let config = CpuConfig { quota_us, period_us, weight: 100 };
        self.queue_write("cpu.max", config.to_cpu_max());
    }

    /// Queues the memory limit for `memory.max`.
    pub fn queue_memory_max(&mut self, bytes: u64)
        requires
            old(self)@.op_counter < u64::MAX,
        ensures
            final(self)@ == old(self)@.queued("memory.max"@, memory_max_wire(bytes)),
            final(self).ring_of() == old(self).ring_of(),
    {
        let content = if bytes == u64::MAX {
            String::from_str("max")
        } else {
            u64_to_string(bytes)
        };
        self.queue_write("memory.max", content);
    }

    /// Queues the read and write bandwidth of `device` for `io.max`.
    pub fn queue_io_max(&mut self, device: &str, rbps: u64, wbps: u64)
        requires
            old(self)@.op_counter < u64::MAX,
        ensures
            final(self)@ == old(self)@.queued(
                "io.max"@,
                io_wire(device@, rbps, wbps, u64::MAX, u64::MAX),
            ),
            final(self).ring_of() == old(self).ring_of(),
    {
        self.queue_write("io.max", io_max_line(device, rbps, wbps, u64::MAX, u64::MAX));
    }

    /// Queues `content` for `file`.
    pub fn queue_write(&mut self, file: &str, content: String)
        requires
            old(self)@.op_counter < u64::MAX,
        ensures
            final(self)@ == old(self)@.queued(file@, content@),
            final(self).ring_of() == old(self).ring_of(),
    {
        self.op_counter = self.op_counter + 1;
        self.pending_ops.push(
            CgroupOp { file: String::from_str(file), content, user_data: self.op_counter },
        );
        assert(ops(self.pending_ops@) =~= old(self)@.queued(file@, content@).pending);
    }

    /// The requests that open the file of each waiting operation through
    /// the ring, oldest first, and the number of completions to wait for;
    /// or the first text that cannot go to the kernel because it holds a
    /// NUL character. What follows the completions of the opens is told
    /// by `follow_ups`; `clear` empties the batch in the end.
    pub fn submit_and_wait(&self) -> (r: Result<(Vec<OpenRequest>, u32), IoUringError>)
        requires
            self@.pending.len() <= u32::MAX,
        ensures
            ({
                let k = first_invalid(self@.dir, self@.pending);
                if k < self@.pending.len() {
                    r matches Err(IoUringError::InvalidParameter(m)) && m@ == (if has_nul(
                        join(self@.dir, self@.pending[k].file),
                    ) {
                        "Invalid path"@
                    } else {
                        "Invalid content"@
                    })
                } else {
                    r matches Ok(plan) && plan.1 == self@.pending.len() && requests(plan.0@)
                        == Seq::new(
                        self@.pending.len(),
                        |i: int| open_request(self@.dir, self@.pending[i]),
                    )
                }
            }),
    {
        let mut out: Vec<OpenRequest> = Vec::new();
        let n: usize = self.pending_ops.len();
        let ghost pending = ops(self.pending_ops@);
        let ghost dir = self.cgroup_path@;
        let mut i: usize = 0;
        assert(pending.skip(0) =~= pending);
        while i < n
            invariant
                n == self.pending_ops@.len(),
                n <= u32::MAX,
                i <= n,
                pending == ops(self.pending_ops@),
                dir == self.cgroup_path@,
                first_invalid(dir, pending) == i + first_invalid(dir, pending.skip(i as int)),
                out@.len() == i,
                forall|j: int|
                    0 <= j < i ==> (#[trigger] out@[j])@ == open_request(dir, pending[j]),
            decreases n - i,
        {
            let op = &self.pending_ops[i];
            assert(pending.skip(i as int).drop_first() =~= pending.skip(i + 1));
            let path = join_path(self.cgroup_path.as_str(), op.file.as_str());
            if contains_nul(path.as_str()) {
                return Err(IoUringError::InvalidParameter(String::from_str("Invalid path")));
            }
            if contains_nul(op.content.as_str()) {
                return Err(IoUringError::InvalidParameter(String::from_str("Invalid content")));
            }
            let sqe = IoUringSqe::openat(
                at_fdcwd(),
                0,
                o_wronly() | o_trunc(),
                0,
                op.user_data | OPEN_MARK,
            ).with_link();
            assert(0u8 | 4u8 == 4u8) by (bit_vector);
            out.push(
                OpenRequest { path, content: op.content.clone(), user_data: op.user_data, sqe },
            );
            i = i + 1;
        }
        assert(requests(out@) =~= Seq::new(
            pending.len(),
            |i: int| open_request(dir, pending[i]),
        ));
        Ok((out, n as u32))
    }

    /// The plain writes of the waiting operations, oldest first, for a
    /// kernel where the ring cannot take them. A write that fails ends the
    /// batch and leaves the writes before it in place; after the last,
    /// `clear` empties the batch.
    pub fn sync_batch_write(&self) -> (r: Vec<BatchWrite>)
        ensures
            batch_writes(r@) == Seq::new(
                self@.pending.len(),
                |i: int| batch_write(self@.dir, self@.pending[i]),
            ),
    {
        let mut out: Vec<BatchWrite> = Vec::new();
        let n: usize = self.pending_ops.len();
        let ghost pending = ops(self.pending_ops@);
        let ghost dir = self.cgroup_path@;
        let mut i: usize = 0;
        while i < n
            invariant
                n == self.pending_ops@.len(),
                i <= n,
                pending == ops(self.pending_ops@),
                dir == self.cgroup_path@,
                out@.len() == i,
                forall|j: int| 0 <= j < i ==> (#[trigger] out@[j])@ == batch_write(dir, pending[j]),
            decreases n - i,
        {
            let op = &self.pending_ops[i];
            out.push(
                BatchWrite {
                    path: join_path(self.cgroup_path.as_str(), op.file.as_str()),
                    content: op.content.clone(),
                    user_data: op.user_data,
                },
            );
            i = i + 1;
        }
        assert(batch_writes(out@) =~= Seq::new(
            pending.len(),
            |i: int| batch_write(dir, pending[i]),
        ));
        out
    }

    /// The two entries that follow an open that gave the descriptor
    /// `fd`: the write of the `content_len` bytes at `content_addr`, linked
    /// to the close of `fd`. Both carry the user data of the operation.
    pub fn write_and_close(fd: i32, content_addr: u64, content_len: u32, user_data: u64) -> (r: (
        IoUringSqe,
        IoUringSqe,
    ))
        ensures
            r.0 == (IoUringSqe {
                flags: 4,
                ..IoUringSqe::of(IoUringOp::Write, fd, 0, content_addr, content_len, user_data)
            }),
            r.1 == IoUringSqe::of(IoUringOp::Close, fd, 0, 0, 0, user_data),
    {
        assert(0u8 | 4u8 == 4u8) by (bit_vector);
        (
            IoUringSqe::write(fd, content_addr, content_len, 0, user_data).with_link(),
            IoUringSqe::close(fd, user_data),
        )
    }

    /// The error for the plain write of the operation `user_data` that
    /// failed; `raw_os_error` is the system's error number, if it gave one.
    pub fn write_failed(user_data: u64, raw_os_error: Option<i32>) -> (r: IoUringError)
        ensures
            r == (IoUringError::OperationFailed {
                user_data: user_data,
                errno: match raw_os_error {
                    Some(e) => e,
                    None => -1i32,
                },
            }),
    {
        let errno: i32 = match raw_os_error {
            Some(e) => e,
            None => -1,
        };
        IoUringError::OperationFailed { user_data, errno }
    }

    /// Empties the batch once its operations are done.
    pub fn clear(&mut self)
        ensures
            final(self)@ == (BatchView { pending: Seq::<CgroupOpView>::empty(), ..old(self)@ }),
            final(self).ring_of() == old(self).ring_of(),
    {
        self.pending_ops = Vec::new();
        assert(ops(self.pending_ops@) =~= Seq::<CgroupOpView>::empty());
    }

    /// The number of operations that wait.
    pub fn pending_count(&self) -> (r: usize)
        ensures
            r == self@.pending.len(),
    {
        self.pending_ops.len()
    }
}

/// What follows one open that completed: the write of the operation's
/// content, in which the address of the content is yet to be set, linked
/// to the close of the descriptor. Both carry the user data of the
/// operation, without the mark of the open.
#[derive(Debug, Clone, Copy, PartialEq, Eq, Structural)]
pub struct FollowUp {
    pub user_data: u64,
    pub write: IoUringSqe,
    pub close: IoUringSqe,
}

/// The length in bytes of `content`, as far as 32 bits hold it.
pub open spec fn byte_len(content: Seq<char>) -> u32 {
    (vstd::utf8::encode_utf8(content).len() as usize) as u32
}

/// The index of the first operation of `pending` whose open carries the
/// user data `user_data`, or the length of `pending` where none does.
pub open spec fn opened_op(pending: Seq<CgroupOpView>, user_data: u64) -> int
    decreases pending.len(),
{
    if pending.len() == 0 {
        0
    } else if (pending[0].user_data | OPEN_MARK) == user_data {
        0
    } else {
        1 + opened_op(pending.drop_first(), user_data)
    }
}

/// What follows the open of `op` that gave the descriptor `fd`.
pub open spec fn follow_up(op: CgroupOpView, fd: i32) -> FollowUp {
    FollowUp {
        user_data: op.user_data,
        write: IoUringSqe {
            flags: 4,
            ..IoUringSqe::of(IoUringOp::Write, fd, 0, 0, byte_len(op.content), op.user_data)
        },
        close: IoUringSqe::of(IoUringOp::Close, fd, 0, 0, 0, op.user_data),
    }
}

/// What follows the completions `done`, in their order: for each that
/// gave a descriptor and is the open of a waiting operation, the write
/// and the close. A failed open and a completion of anything else are
/// passed over.
pub open spec fn follow_ups_of(pending: Seq<CgroupOpView>, done: Seq<IoUringCqe>) -> Seq<
    FollowUp,
>
    decreases done.len(),
{
    if done.len() == 0 {
        Seq::<FollowUp>::empty()
    } else {
        let before = follow_ups_of(pending, done.drop_last());
        let k = opened_op(pending, done.last().user_data);
        if done.last().res >= 0 && k < pending.len() {
            before.push(follow_up(pending[k], done.last().res))
        } else {
            before
        }
    }
}

impl IoUringCgroup {
    fn find_opened(&self, user_data: u64) -> (r: usize)
        ensures
            r == opened_op(self@.pending, user_data),
            r <= self@.pending.len(),
    {
        let ghost pending = ops(self.pending_ops@);
        let n: usize = self.pending_ops.len();
        let mut i: usize = 0;
        assert(pending.skip(0) =~= pending);
        while i < n
            invariant
                n == self.pending_ops@.len(),
                i <= n,
                pending == ops(self.pending_ops@),
                opened_op(pending, user_data) == i + opened_op(pending.skip(i as int), user_data),
            decreases n - i,
        {
            assert(pending.skip(i as int)[0] == self.pending_ops@[i as int]@);
            if (self.pending_ops[i].user_data | OPEN_MARK) == user_data {
                return i;
            }
            assert(pending.skip(i as int).drop_first() =~= pending.skip(i + 1));
            i = i + 1;
        }
        i
    }

    /// The second round of a batch: what follows the completions of the
    /// opens, and the number of completions to wait for, two for each
    /// follow-up.
    pub fn follow_ups(&self, completions: &Vec<IoUringCqe>) -> (r: (Vec<FollowUp>, u32))
        requires
            completions@.len() <= 0x7fff_ffff,
        ensures
            r.0@ == follow_ups_of(self@.pending, completions@),
            r.1 == 2 * r.0@.len(),
    {
        let ghost pending = ops(self.pending_ops@);
        let mut out: Vec<FollowUp> = Vec::new();
        let n: usize = completions.len();
        let mut i: usize = 0;
        assert(completions@.take(0) =~= Seq::<IoUringCqe>::empty());
        while i < n
            invariant
                n == completions@.len(),
                n <= 0x7fff_ffff,
                i <= n,
                pending == ops(self.pending_ops@),
                out@ == follow_ups_of(pending, completions@.take(i as int)),
                out@.len() <= i,
            decreases n - i,
        {
            assert(completions@.take(i + 1).drop_last() =~= completions@.take(i as int));
            let cqe = completions[i];
            let k = self.find_opened(cqe.user_data);
            if cqe.res >= 0 && k < self.pending_ops.len() {
                let op = &self.pending_ops[k];
                assert(pending[k as int] == op@);
                let len: u32 = op.content.as_str().len() as u32;
                let (write, close) = Self::write_and_close(cqe.res, 0, len, op.user_data);
                out.push(FollowUp { user_data: op.user_data, write, close });
            }
            i = i + 1;
        }
        assert(completions@.take(n as int) =~= completions@);
        let count: u32 = (out.len() * 2) as u32;
        (out, count)
    }
}

} // verus!
