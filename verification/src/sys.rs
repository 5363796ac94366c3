//! The kernel ABI values and the one device-number computation that this
//! library takes from `libc`. Each item here is believed, not proved: the
//! numbers are those of `libc` for Linux on x86-64 and AArch64, the targets
//! that this library is written for.

use vstd::prelude::*;

verus! {

/// `libc::EPERM`: operation not permitted, 1 on Linux.
#[verifier::external_body]
pub(crate) fn eperm() -> (r: i32)
    ensures
        r == 1,
{
    libc::EPERM
}

/// `libc::EINTR`: interrupted system call, 4 on Linux.
#[verifier::external_body]
pub(crate) fn eintr() -> (r: i32)
    ensures
        r == 4,
{
    libc::EINTR
}

/// `libc::EBADF`: bad file descriptor, 9 on Linux.
#[verifier::external_body]
pub(crate) fn ebadf() -> (r: i32)
    ensures
        r == 9,
{
    libc::EBADF
}

/// `libc::ENOMEM`: out of memory, 12 on Linux.
#[verifier::external_body]
pub(crate) fn enomem() -> (r: i32)
    ensures
        r == 12,
{
    libc::ENOMEM
}

/// `libc::EEXIST`: file exists, 17 on Linux.
#[verifier::external_body]
pub(crate) fn eexist() -> (r: i32)
    ensures
        r == 17,
{
    libc::EEXIST
}

/// `libc::EINVAL`: invalid argument, 22 on Linux.
#[verifier::external_body]
pub(crate) fn einval() -> (r: i32)
    ensures
        r == 22,
{
    libc::EINVAL
}

/// `libc::ENOSYS`: function not implemented, 38 on the targets named above.
#[verifier::external_body]
pub(crate) fn enosys() -> (r: i32)
    ensures
        r == 38,
{
    libc::ENOSYS
}

/// `libc::SIGKILL`: the signal that ends a process at once, 9 on Linux.
#[verifier::external_body]
pub(crate) fn sigkill() -> (r: i32)
    ensures
        r == 9,
{
    libc::SIGKILL
}

/// `libc::SIGCHLD`: the signal that tells a parent of a child's end, 17
/// on the targets named above.
#[verifier::external_body]
pub(crate) fn sigchld() -> (r: i32)
    ensures
        r == 17,
{
    libc::SIGCHLD
}

/// `libc::EPOLLPRI`: the epoll event for urgent data, 2 on Linux.
#[verifier::external_body]
pub(crate) fn epollpri() -> (r: i32)
    ensures
        r == 2,
{
    libc::EPOLLPRI
}

/// `libc::AT_FDCWD`: the directory descriptor that stands for the
/// current directory, -100 on Linux.
#[verifier::external_body]
pub(crate) fn at_fdcwd() -> (r: i32)
    ensures
        r == -100,
{
    libc::AT_FDCWD
}

/// `libc::O_WRONLY`: open for writing only, 1 on Linux.
#[verifier::external_body]
pub(crate) fn o_wronly() -> (r: i32)
    ensures
        r == 1,
{
    libc::O_WRONLY
}

/// `libc::O_TRUNC`: empty the file on opening, 512 on the targets named above.
#[verifier::external_body]
pub(crate) fn o_trunc() -> (r: i32)
    ensures
        r == 512,
{
    libc::O_TRUNC
}

/// `libc::S_IFCHR`: the file type bits of a character device, octal 20000.
#[verifier::external_body]
pub(crate) fn s_ifchr() -> (r: u32)
    ensures
        r == 0o20000,
{
    libc::S_IFCHR
}

/// The device number that `libc::makedev` builds from a major and a minor
/// number: the low 12 bits of the major at bit 8, its other bits at bit
/// 32, the low 8 bits of the minor at bit 0, its other bits at bit 12.
pub open spec fn device_number(major: u32, minor: u32) -> u64 {
    (((major as u64) & 0x0000_0fff) << 8) | (((major as u64) & 0xffff_f000) << 32) | ((minor as u64)
        & 0x0000_00ff) | (((minor as u64) & 0xffff_ff00) << 12)
}

/// `libc::makedev`: the device number of a major and a minor number.
#[verifier::external_body]
pub(crate) fn makedev(major: u32, minor: u32) -> (r: u64)
    ensures
        r == device_number(major, minor),
{
    libc::makedev(major, minor)
}

} // verus!
