//! Process creation with `clone3`, which can place the child in a cgroup
//! as part of the call itself (`CLONE_INTO_CGROUP`, Linux 5.7): the child
//! is never a member of its parent's cgroup, and no write to
//! `cgroup.procs` is needed.

pub mod clone_flags;

use vstd::prelude::*;
use vstd::string::*;
use crate::rootfs::{contains_nul, has_nul};
use crate::sys::{ebadf, einval, enomem, enosys, eperm, sigchld};
use crate::text::{push_signed_decimal, signed_decimal};

verus! {

/// The number of the `clone3` system call.
pub const SYS_CLONE3: i64 = 435;

/// The size of the stack of a child that `spawn_into_cgroup` creates.
pub const SPAWN_STACK_SIZE: usize = 1048576;

/// The arguments of `clone3`, laid out as the kernel's `struct clone_args`:
/// eleven fields of 64 bits each.
#[derive(Debug, Clone, Copy, PartialEq, Eq, Structural)]
pub struct Clone3Args {
    /// Clone flags.
    pub flags: u64,
    /// Where the kernel stores the process file descriptor (`CLONE_PIDFD`).
    pub pidfd: u64,
    /// Where the kernel stores the child's thread id in the child.
    pub child_tid: u64,
    /// Where the kernel stores the child's thread id in the parent.
    pub parent_tid: u64,
    /// Signal sent to the parent when the child ends.
    pub exit_signal: u64,
    /// Address of the child's stack.
    pub stack: u64,
    /// Size of the child's stack.
    pub stack_size: u64,
    /// Thread-local storage.
    pub tls: u64,
    /// Address of the array of thread ids to set.
    pub set_tid: u64,
    /// Number of entries in that array.
    pub set_tid_size: u64,
    /// File descriptor of the target cgroup (`CLONE_INTO_CGROUP`).
    pub cgroup: u64,
}

impl Clone3Args {
    /// Arguments that are all zero but for the exit signal, `SIGCHLD`.
    pub open spec fn initial() -> Clone3Args {
        Clone3Args {
            flags: 0,
            pidfd: 0,
            child_tid: 0,
            parent_tid: 0,
            exit_signal: 17,
            stack: 0,
            stack_size: 0,
            tls: 0,
            set_tid: 0,
            set_tid_size: 0,
            cgroup: 0,
        }
    }
}

impl Default for Clone3Args {
    fn default() -> (r: Self)
        ensures
            r == Clone3Args::initial(),
    {
        Self {
            flags: 0,
            pidfd: 0,
            child_tid: 0,
            parent_tid: 0,
            exit_signal: sigchld() as u64,
            stack: 0,
            stack_size: 0,
            tls: 0,
            set_tid: 0,
            set_tid_size: 0,
            cgroup: 0,
        }
    }
}

impl Clone3Args {
    /// Arguments that are all zero but for the exit signal, `SIGCHLD`.
    pub fn new() -> (r: Self)
        ensures
            r == Clone3Args::initial(),
    {
        Self::default()
    }

    /// The same arguments with the flags replaced by `flags`.
    pub fn flags(self, flags: u64) -> (r: Self)
        ensures
            r == (Clone3Args { flags: flags, ..self }),
    {
        let mut args = self;
        args.flags = flags;
        args
    }

    /// The same arguments with `flags` added.
    pub fn add_flags(self, flags: u64) -> (r: Self)
        ensures
            r == (Clone3Args { flags: self.flags | flags, ..self }),
    {
        let mut args = self;
        args.flags = args.flags | flags;
        args
    }

    /// The same arguments with the exit signal `signal`.
    pub fn exit_signal(self, signal: i32) -> (r: Self)
        ensures
            r == (Clone3Args { exit_signal: signal as u64, ..self }),
    {
        let mut args = self;
        args.exit_signal = signal as u64;
        args
    }

    /// The same arguments with the stack of `size` bytes at the address `stack_addr`.
    pub fn stack(self, stack_addr: u64, size: usize) -> (r: Self)
        ensures
            r == (Clone3Args { stack: stack_addr, stack_size: size as u64, ..self }),
    {
        let mut args = self;
        args.stack = stack_addr;
        args.stack_size = size as u64;
        args
    }

    /// The same arguments with the child placed in the cgroup whose
    /// directory is open as `fd`.
    pub fn cgroup_fd(self, fd: i32) -> (r: Self)
        ensures
            r == (Clone3Args {
                flags: self.flags | clone_flags::CLONE_INTO_CGROUP,
                cgroup: fd as u64,
                ..self
            }),
    {
        let mut args = self;
        args.flags = args.flags | clone_flags::CLONE_INTO_CGROUP;
        args.cgroup = fd as u64;
        args
    }

    /// The same arguments with a process file descriptor asked for, to be
    /// stored at the address `pidfd_addr`.
    pub fn with_pidfd(self, pidfd_addr: u64) -> (r: Self)
        ensures
            r == (Clone3Args {
                flags: self.flags | clone_flags::CLONE_PIDFD,
                pidfd: pidfd_addr,
                ..self
            }),
    {
        let mut args = self;
        args.flags = args.flags | clone_flags::CLONE_PIDFD;
        args.pidfd = pidfd_addr;
        args
    }

    /// The same arguments with the namespaces of a container added.
    pub fn container_isolation(self) -> (r: Self)
        ensures
            r == (Clone3Args { flags: self.flags | clone_flags::CONTAINER, ..self }),
    {
        let mut args = self;
        args.flags = args.flags | clone_flags::CONTAINER;
        args
    }

    /// The size in bytes of the arguments as the kernel takes them.
    pub fn size() -> (r: usize)
        ensures
            r == 88,
    {
        11 * 8
    }
}

/// `clone3` errors.
#[derive(Debug, Clone, Copy, PartialEq, Eq, Structural)]
pub enum Clone3Error {
    /// The system call failed with this error number.
    SyscallFailed(i32),
    /// The kernel has no `clone3`.
    NotSupported,
    /// Permission denied.
    PermissionDenied,
    /// Invalid argument.
    InvalidArgument,
    /// Out of memory.
    OutOfMemory,
    /// The cgroup file descriptor is invalid.
    InvalidCgroupFd,
}

impl Clone3Error {
    /// The error that the error number `errno` stands for.
    pub open spec fn of_errno(errno: i32) -> Clone3Error {
        if errno == 1 {
            Clone3Error::PermissionDenied
        } else if errno == 22 {
            Clone3Error::InvalidArgument
        } else if errno == 12 {
            Clone3Error::OutOfMemory
        } else if errno == 38 {
            Clone3Error::NotSupported
        } else if errno == 9 {
            Clone3Error::InvalidCgroupFd
        } else {
            Clone3Error::SyscallFailed(errno)
        }
    }

    /// The error that the error number `errno` stands for: `EPERM`,
    /// `EINVAL`, `ENOMEM`, `ENOSYS` and `EBADF` have errors of their own.
    pub fn from_errno(errno: i32) -> (r: Self)
        ensures
            r == Self::of_errno(errno),
    {
        if errno == eperm() {
            Clone3Error::PermissionDenied
        } else if errno == einval() {
            Clone3Error::InvalidArgument
        } else if errno == enomem() {
            Clone3Error::OutOfMemory
        } else if errno == enosys() {
            Clone3Error::NotSupported
        } else if errno == ebadf() {
            Clone3Error::InvalidCgroupFd
        } else {
            Clone3Error::SyscallFailed(errno)
        }
    }

    /// The text that describes this error.
    pub open spec fn message(self) -> Seq<char> {
        match self {
            Clone3Error::SyscallFailed(e) => "clone3 failed: errno "@ + signed_decimal(e as int),
            Clone3Error::NotSupported => "clone3 not supported (requires Linux 5.3+)"@,
            Clone3Error::PermissionDenied => "Permission denied (need CAP_SYS_ADMIN)"@,
            Clone3Error::InvalidArgument => "Invalid argument"@,
            Clone3Error::OutOfMemory => "Out of memory"@,
            Clone3Error::InvalidCgroupFd => "Invalid cgroup file descriptor"@,
        }
    }

    /// The text that describes this error.
    pub fn to_string(&self) -> (r: String)
        ensures
            r@ == self.message(),
    {
        match self {
            Clone3Error::SyscallFailed(e) => {
                let mut out = String::from_str("clone3 failed: errno ");
                push_signed_decimal(&mut out, *e);
                out
            },
            Clone3Error::NotSupported => String::from_str(
                "clone3 not supported (requires Linux 5.3+)",
            ),
            Clone3Error::PermissionDenied => String::from_str(
                "Permission denied (need CAP_SYS_ADMIN)",
            ),
            Clone3Error::InvalidArgument => String::from_str("Invalid argument"),
            Clone3Error::OutOfMemory => String::from_str("Out of memory"),
            Clone3Error::InvalidCgroupFd => String::from_str("Invalid cgroup file descriptor"),
        }
    }
}

/// One `clone3` system call: its number, its arguments and their size.
#[derive(Debug, Clone, Copy, PartialEq, Eq, Structural)]
pub struct Clone3Call {
    pub number: i64,
    pub args: Clone3Args,
    pub size: usize,
}

/// The `clone3` system call with the arguments `args`.
pub fn clone3_raw(args: &Clone3Args) -> (r: Clone3Call)
    ensures
        r == (Clone3Call { number: SYS_CLONE3, args: *args, size: 88 }),
{
    Clone3Call { number: SYS_CLONE3, args: *args, size: Clone3Args::size() }
}

/// What a `clone3` call that returned `ret` means: the process id of the
/// child (0 in the child itself), or the error of `errno`.
pub fn clone3_result(ret: i64, errno: i32) -> (r: Result<u32, Clone3Error>)
    ensures
        ret >= 0 ==> r == Ok::<u32, Clone3Error>(ret as u32),
        ret < 0 ==> r == Err::<u32, Clone3Error>(Clone3Error::of_errno(errno)),
{
    if ret < 0 {
        return Err(Clone3Error::from_errno(errno));
    }
    Ok(ret as u32)
}

/// The `clone3` call for a child that runs on a stack of its own:
/// `args` with the stack of `stack_size` bytes that was mapped at
/// `stack_addr`. Where no stack could be mapped, there is no call.
pub fn clone3_with_fn(args: &Clone3Args, stack_addr: Option<u64>, stack_size: usize) -> (r: Result<
    Clone3Call,
    Clone3Error,
>)
    ensures
        stack_addr is None ==> r == Err::<Clone3Call, Clone3Error>(Clone3Error::OutOfMemory),
        stack_addr matches Some(addr) ==> r == Ok::<Clone3Call, Clone3Error>(
            Clone3Call {
                number: SYS_CLONE3,
                args: Clone3Args { stack: addr, stack_size: stack_size as u64, ..*args },
                size: 88,
            },
        ),
{
    match stack_addr {
        None => Err(Clone3Error::OutOfMemory),
        Some(addr) => {
            let mut clone_args = *args;
            clone_args.stack = addr;
            clone_args.stack_size = stack_size as u64;
            Ok(clone3_raw(&clone_args))
        },
    }
}

/// How to open a cgroup directory for `CLONE_INTO_CGROUP`: read-only, as
/// a directory, closed on exec.
#[derive(Debug, Clone)]
pub struct OpenDirCall {
    pub path: String,
    pub read_only: bool,
    pub directory: bool,
    pub close_on_exec: bool,
}

/// The call that opens the cgroup directory `cgroup_path`. A path that
/// holds a NUL character is refused.
pub fn open_cgroup_fd(cgroup_path: &str) -> (r: Result<OpenDirCall, Clone3Error>)
    ensures
        has_nul(cgroup_path@) ==> r is Err && r->Err_0 == Clone3Error::InvalidArgument,
        !has_nul(cgroup_path@) ==> (r matches Ok(call) && call.path@ == cgroup_path@
            && call.read_only && call.directory && call.close_on_exec),
{
    if contains_nul(cgroup_path) {
        return Err(Clone3Error::InvalidArgument);
    }
    Ok(
        OpenDirCall {
            path: String::from_str(cgroup_path),
            read_only: true,
            directory: true,
            close_on_exec: true,
        },
    )
}

/// What an `open` call that returned `fd` means: the file descriptor, or
/// the error of `errno`.
pub fn open_result(fd: i32, errno: i32) -> (r: Result<i32, Clone3Error>)
    ensures
        fd >= 0 ==> r == Ok::<i32, Clone3Error>(fd),
        fd < 0 ==> r == Err::<i32, Clone3Error>(Clone3Error::of_errno(errno)),
{
    if fd < 0 {
        return Err(Clone3Error::from_errno(errno));
    }
    Ok(fd)
}

/// How to create a child inside a cgroup: clone with `args` on a stack of
/// `stack_size` bytes, then close `close_fd` in the parent, whatever the
/// clone gave.
#[derive(Debug, Clone, Copy, PartialEq, Eq, Structural)]
pub struct SpawnPlan {
    pub args: Clone3Args,
    pub stack_size: usize,
    pub close_fd: i32,
}

/// The plan that creates a child in new namespaces `namespace_flags`
/// inside the cgroup whose directory is open as `cgroup_fd`.
pub fn spawn_into_cgroup(cgroup_fd: i32, namespace_flags: u64) -> (r: SpawnPlan)
    ensures
        r == (SpawnPlan {
            args: Clone3Args {
                flags: namespace_flags | clone_flags::CLONE_INTO_CGROUP,
                cgroup: cgroup_fd as u64,
                ..Clone3Args::initial()
            },
            stack_size: SPAWN_STACK_SIZE,
            close_fd: cgroup_fd,
        }),
{
    let args = Clone3Args::new().flags(namespace_flags).cgroup_fd(cgroup_fd);
    SpawnPlan { args, stack_size: SPAWN_STACK_SIZE, close_fd: cgroup_fd }
}

/// Whether the kernel has `clone3`, from what a probe call with the
/// initial arguments returned: it has unless the call failed for want of
/// the system call.
pub fn is_clone3_available(ret: i64, errno: i32) -> (r: bool)
    ensures
        r == (ret >= 0 || errno != 38),
{
    if ret < 0 {
        errno != enosys()
    } else {
        true
    }
}

/// Whether the kernel takes `CLONE_INTO_CGROUP`, from what the probe call
/// for `clone3` returned: the two are taken to come together.
pub fn is_clone_into_cgroup_available(ret: i64, errno: i32) -> (r: bool)
    ensures
        r == (ret >= 0 || errno != 38),
{
    is_clone3_available(ret, errno)
}

} // verus!
