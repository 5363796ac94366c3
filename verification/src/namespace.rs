//! Linux namespace isolation: the flag sets of `clone` and `unshare`, the
//! arguments of the calls that enter and leave mount trees, and the
//! mappings of user and group ids.
//!
//! | Namespace | Flag | Isolates |
//! |-----------|------|----------|
//! | Mount | `NEWNS` | Mount points |
//! | PID | `NEWPID` | Process IDs |
//! | Network | `NEWNET` | Network stack |
//! | UTS | `NEWUTS` | Hostname |
//! | IPC | `NEWIPC` | IPC primitives |
//! | User | `NEWUSER` | User and group IDs |
//! | Cgroup | `NEWCGROUP` | Cgroup root |

use vstd::prelude::*;
use vstd::string::*;
use crate::cgroup::FileStage;
use crate::rootfs::{contains_nul, has_nul};
use crate::sys::{einval, enomem, enosys, eperm, sigchld};
use crate::text::{concat2, decimal, push_decimal, push_signed_decimal, signed_decimal};

verus! {

/// The `umount2` flag for a lazy unmount.
pub const MNT_DETACH: i32 = 2;

/// The flag of the mount namespace.
pub const CLONE_NEWNS: i32 = 0x00020000;

/// The flag of the PID namespace.
pub const CLONE_NEWPID: i32 = 0x20000000;

/// The flag of the network namespace.
pub const CLONE_NEWNET: i32 = 0x40000000;

/// The flag of the UTS namespace (hostname).
pub const CLONE_NEWUTS: i32 = 0x04000000;

/// The flag of the IPC namespace.
pub const CLONE_NEWIPC: i32 = 0x08000000;

/// The flag of the user namespace.
pub const CLONE_NEWUSER: i32 = 0x10000000;

/// The flag of the cgroup namespace.
pub const CLONE_NEWCGROUP: i32 = 0x02000000;

/// A set of namespaces, as the flags of `clone` and `unshare`.
#[derive(Debug, Clone, Copy, PartialEq, Eq, Structural)]
pub struct NamespaceFlags(pub i32);

impl NamespaceFlags {
    /// Mount namespace.
    #[allow(non_snake_case)]
    pub fn NEWNS() -> (r: Self)
        ensures
            r.0 == CLONE_NEWNS,
    {
        Self(CLONE_NEWNS)
    }

    /// PID namespace.
    #[allow(non_snake_case)]
    pub fn NEWPID() -> (r: Self)
        ensures
            r.0 == CLONE_NEWPID,
    {
        Self(CLONE_NEWPID)
    }

    /// Network namespace.
    #[allow(non_snake_case)]
    pub fn NEWNET() -> (r: Self)
        ensures
            r.0 == CLONE_NEWNET,
    {
        Self(CLONE_NEWNET)
    }

    /// UTS namespace (hostname).
    #[allow(non_snake_case)]
    pub fn NEWUTS() -> (r: Self)
        ensures
            r.0 == CLONE_NEWUTS,
    {
        Self(CLONE_NEWUTS)
    }

    /// IPC namespace.
    #[allow(non_snake_case)]
    pub fn NEWIPC() -> (r: Self)
        ensures
            r.0 == CLONE_NEWIPC,
    {
        Self(CLONE_NEWIPC)
    }

    /// User namespace.
    #[allow(non_snake_case)]
    pub fn NEWUSER() -> (r: Self)
        ensures
            r.0 == CLONE_NEWUSER,
    {
        Self(CLONE_NEWUSER)
    }

    /// Cgroup namespace.
    #[allow(non_snake_case)]
    pub fn NEWCGROUP() -> (r: Self)
        ensures
            r.0 == CLONE_NEWCGROUP,
    {
        Self(CLONE_NEWCGROUP)
    }

    /// The flags of every namespace but the user namespace.
    pub open spec fn all_bits() -> i32 {
        CLONE_NEWNS | CLONE_NEWPID | CLONE_NEWNET | CLONE_NEWUTS | CLONE_NEWIPC | CLONE_NEWCGROUP
    }

    /// The flags of the common set for a container: mount, PID, UTS, IPC.
    pub open spec fn container_bits() -> i32 {
        CLONE_NEWNS | CLONE_NEWPID | CLONE_NEWUTS | CLONE_NEWIPC
    }

    /// All namespaces but the user namespace, which needs special handling.
    #[allow(non_snake_case)]
    pub fn ALL() -> (r: Self)
        ensures
            r.0 == Self::all_bits(),
    {
        Self(
            CLONE_NEWNS | CLONE_NEWPID | CLONE_NEWNET | CLONE_NEWUTS | CLONE_NEWIPC
                | CLONE_NEWCGROUP,
        )
    }

    /// The common set for a container: mount, PID, UTS, IPC.
    #[allow(non_snake_case)]
    pub fn CONTAINER() -> (r: Self)
        ensures
            r.0 == Self::container_bits(),
    {
        Self(CLONE_NEWNS | CLONE_NEWPID | CLONE_NEWUTS | CLONE_NEWIPC)
    }

    /// The flags as a number.
    pub fn bits(&self) -> (r: i32)
        ensures
            r == self.0,
    {
        self.0
    }

    /// The set with exactly these flags.
    pub fn from_bits(bits: i32) -> (r: Self)
        ensures
            r.0 == bits,
    {
        Self(bits)
    }

    /// Whether every flag of `other` is in this set.
    pub open spec fn has(self, other: Self) -> bool {
        (self.0 & other.0) == other.0
    }

    /// Whether every flag of `other` is in this set.
    pub fn contains(&self, other: Self) -> (r: bool)
        ensures
            r == self.has(other),
    {
        (self.0 & other.0) == other.0
    }

    /// The flags of this set and of `other`.
    pub fn union(self, other: Self) -> (r: Self)
        ensures
            r.0 == self.0 | other.0,
    {
        Self(self.0 | other.0)
    }
}

/// The container set holds the mount, PID, UTS and IPC namespaces, alone
/// and together, and not the network namespace.
pub proof fn lemma_container_set()
    ensures
        NamespaceFlags(NamespaceFlags::container_bits()).has(NamespaceFlags(CLONE_NEWNS)),
        NamespaceFlags(NamespaceFlags::container_bits()).has(NamespaceFlags(CLONE_NEWPID)),
        NamespaceFlags(NamespaceFlags::container_bits()).has(NamespaceFlags(CLONE_NEWUTS)),
        NamespaceFlags(NamespaceFlags::container_bits()).has(NamespaceFlags(CLONE_NEWIPC)),
        NamespaceFlags(NamespaceFlags::container_bits()).has(
            NamespaceFlags(CLONE_NEWNS | CLONE_NEWPID | CLONE_NEWUTS | CLONE_NEWIPC),
        ),
        !NamespaceFlags(NamespaceFlags::container_bits()).has(NamespaceFlags(CLONE_NEWNET)),
{
    let c: i32 = 0x00020000i32 | 0x20000000i32 | 0x04000000i32 | 0x08000000i32;
    assert(c & 0x00020000i32 == 0x00020000i32 && c & 0x20000000i32 == 0x20000000i32 && c
        & 0x04000000i32 == 0x04000000i32 && c & 0x08000000i32 == 0x08000000i32 && c & c == c && c
        & 0x40000000i32 != 0x40000000i32) by (bit_vector)
        requires
            c == 0x00020000i32 | 0x20000000i32 | 0x04000000i32 | 0x08000000i32,
    ;
}

/// A union holds both of its parts, and whatever either part holds.
pub proof fn lemma_union_contains(a: NamespaceFlags, b: NamespaceFlags, c: NamespaceFlags)
    ensures
        NamespaceFlags(a.0 | b.0).has(a),
        NamespaceFlags(a.0 | b.0).has(b),
        a.has(c) || b.has(c) ==> NamespaceFlags(a.0 | b.0).has(c),
{
    let x = a.0;
    let y = b.0;
    let z = c.0;
    assert((x | y) & x == x && (x | y) & y == y) by (bit_vector);
    assert((x & z) == z || (y & z) == z ==> ((x | y) & z) == z) by (bit_vector);
}

/// Namespace operation errors.
#[derive(Debug, Clone, PartialEq, Eq)]
pub enum NamespaceError {
    /// Permission denied (the caller lacks `CAP_SYS_ADMIN`).
    PermissionDenied,
    /// Invalid argument.
    InvalidArgument,
    /// Out of memory.
    OutOfMemory,
    /// Not in the namespace that the operation needs.
    NotInNamespace(&'static str),
    /// Invalid path.
    InvalidPath,
    /// Operation not supported.
    NotSupported,
    /// Any other error number.
    OsError(i32),
}

impl NamespaceError {
    /// The error that the error number `errno` stands for.
    pub open spec fn of_errno(errno: i32) -> NamespaceError {
        if errno == 1 {
            NamespaceError::PermissionDenied
        } else if errno == 22 {
            NamespaceError::InvalidArgument
        } else if errno == 12 {
            NamespaceError::OutOfMemory
        } else if errno == 38 {
            NamespaceError::NotSupported
        } else {
            NamespaceError::OsError(errno)
        }
    }

    /// The error that the error number `errno` stands for: `EPERM`,
    /// `EINVAL`, `ENOMEM` and `ENOSYS` have errors of their own.
    pub fn from_errno(errno: i32) -> (r: Self)
        ensures
            r == Self::of_errno(errno),
    {
        if errno == eperm() {
            NamespaceError::PermissionDenied
        } else if errno == einval() {
            NamespaceError::InvalidArgument
        } else if errno == enomem() {
            NamespaceError::OutOfMemory
        } else if errno == enosys() {
            NamespaceError::NotSupported
        } else {
            NamespaceError::OsError(errno)
        }
    }

    /// What a system call that returned `ret` means; `errno` is the error
    /// number read right after it.
    pub fn check(ret: i64, errno: i32) -> (r: Result<(), NamespaceError>)
        ensures
            ret >= 0 ==> r is Ok,
            ret < 0 ==> r == Err::<(), NamespaceError>(Self::of_errno(errno)),
    {
        if ret < 0 {
            Err(Self::from_errno(errno))
        } else {
            Ok(())
        }
    }

    /// The text that describes this error.
    pub open spec fn message(self) -> Seq<char> {
        match self {
            NamespaceError::PermissionDenied => "Permission denied (need CAP_SYS_ADMIN)"@,
            NamespaceError::InvalidArgument => "Invalid argument"@,
            NamespaceError::OutOfMemory => "Out of memory"@,
            NamespaceError::NotInNamespace(ns) => "Not in "@ + ns@ + " namespace"@,
            NamespaceError::InvalidPath => "Invalid path"@,
            NamespaceError::NotSupported => "Operation not supported on this platform"@,
            NamespaceError::OsError(e) => "OS error: "@ + signed_decimal(e as int),
        }
    }

    /// The text that describes this error.
    pub fn to_string(&self) -> (r: String)
        ensures
            r@ == self.message(),
    {
        match self {
            NamespaceError::PermissionDenied => String::from_str(
                "Permission denied (need CAP_SYS_ADMIN)",
            ),
            NamespaceError::InvalidArgument => String::from_str("Invalid argument"),
            NamespaceError::OutOfMemory => String::from_str("Out of memory"),
            NamespaceError::NotInNamespace(ns) => {
                let mut out = concat2("Not in ", ns);
                out.append(" namespace");
                out
            },
            NamespaceError::InvalidPath => String::from_str("Invalid path"),
            NamespaceError::NotSupported => String::from_str(
                "Operation not supported on this platform",
            ),
            NamespaceError::OsError(e) => {
                let mut out = String::from_str("OS error: ");
                push_signed_decimal(&mut out, *e);
                out
            },
        }
    }
}

/// The arguments of a `sethostname` call.
#[derive(Debug, Clone)]
pub struct SetHostnameCall {
    pub name: String,
}

/// The namespaces of one process.
pub struct Namespaces {
    flags: NamespaceFlags,
}

impl Namespaces {
    /// The flags of these namespaces.
    pub closed spec fn set(&self) -> NamespaceFlags {
        self.flags
    }

    /// The namespaces with the given flags.
    pub fn new(flags: NamespaceFlags) -> (r: Self)
        ensures
            r.set() == flags,
    {
        Self { flags }
    }

    /// The namespaces of a container: mount, PID, UTS, IPC.
    pub fn container() -> (r: Self)
        ensures
            r.set().0 == NamespaceFlags::container_bits(),
    {
        Self::new(NamespaceFlags::CONTAINER())
    }

    /// All namespaces but the user namespace.
    pub fn all() -> (r: Self)
        ensures
            r.set().0 == NamespaceFlags::all_bits(),
    {
        Self::new(NamespaceFlags::ALL())
    }

    /// The flags of these namespaces.
    pub fn flags(&self) -> (r: NamespaceFlags)
        ensures
            r == self.set(),
    {
        self.flags
    }

    /// The flags of the one `unshare` call that moves the calling process
    /// into new namespaces of these kinds. `NamespaceError::check` says
    /// what its result means.
    pub fn unshare(&self) -> (r: i32)
        ensures
            r == self.set().0,
    {
        self.flags.bits()
    }

    /// The `sethostname` call that names the host `hostname`, which needs
    /// a UTS namespace of its own.
    pub fn set_hostname(&self, hostname: &str) -> (r: Result<SetHostnameCall, NamespaceError>)
        ensures
            self.set().has(NamespaceFlags(CLONE_NEWUTS)) ==> (r matches Ok(call) && call.name@
                == hostname@),
            !self.set().has(NamespaceFlags(CLONE_NEWUTS)) ==> (r matches Err(
                NamespaceError::NotInNamespace(ns),
            ) && ns@ == "UTS"@),
    {
        if !self.flags.contains(NamespaceFlags::NEWUTS()) {
            return Err(NamespaceError::NotInNamespace("UTS"));
        }
        Ok(SetHostnameCall { name: String::from_str(hostname) })
    }
}

/// The flags for creating a child process.
#[derive(Debug, Clone, Copy)]
pub struct CloneFlags {
    /// Namespace flags.
    pub namespaces: NamespaceFlags,
    /// Additional clone flags.
    pub extra: i32,
}

/// The arguments of a `clone` call: a stack of `stack_size` bytes, mapped
/// readable and writable and growing down, and the flags, which hold the
/// signal sent to the parent when the child ends.
#[derive(Debug, Clone, Copy, PartialEq, Eq, Structural)]
pub struct CloneCall {
    pub flags: i32,
    pub stack_size: usize,
}

impl CloneFlags {
    /// The flags for a container, with nothing added.
    pub fn container() -> (r: Self)
        ensures
            r.namespaces.0 == NamespaceFlags::container_bits(),
            r.extra == 0,
    {
        Self { namespaces: NamespaceFlags::CONTAINER(), extra: 0 }
    }

    /// The namespace flags together with the additional ones.
    pub fn bits(&self) -> (r: i32)
        ensures
            r == self.namespaces.0 | self.extra,
    {
        self.namespaces.bits() | self.extra
    }
}

/// The arguments of the `clone` call that starts a child in new
/// namespaces: the flags with `SIGCHLD` as the signal to the parent.
pub fn clone_with_namespaces(flags: CloneFlags, stack_size: usize) -> (r: CloneCall)
    ensures
        r.flags == (flags.namespaces.0 | flags.extra) | 17,
        r.stack_size == stack_size,
{
    CloneCall { flags: flags.bits() | sigchld(), stack_size }
}

/// What a `clone` call that returned `pid` means: the child's process id,
/// or the error of `errno`. A failure to map the stack is reported the same way.
pub fn clone_result(pid: i32, errno: i32) -> (r: Result<u32, NamespaceError>)
    ensures
        pid >= 0 ==> r == Ok::<u32, NamespaceError>(pid as u32),
        pid < 0 ==> r == Err::<u32, NamespaceError>(NamespaceError::of_errno(errno)),
{
    if pid < 0 {
        Err(NamespaceError::from_errno(errno))
    } else {
        Ok(pid as u32)
    }
}

/// The arguments of a `pivot_root` call.
#[derive(Debug, Clone)]
pub struct PivotRootCall {
    pub new_root: String,
    pub put_old: String,
}

/// The arguments of an `umount2` call; `umount` is the same with no flags.
#[derive(Debug, Clone)]
pub struct UmountCall {
    pub target: String,
    pub flags: i32,
}

/// The `pivot_root` call that makes `new_root` the root and moves the old
/// root to `put_old`. The caller must be in a mount namespace of its own,
/// with `/` private and `new_root` a mount point. A path that holds a NUL
/// character is refused.
pub fn pivot_root(new_root: &str, put_old: &str) -> (r: Result<PivotRootCall, NamespaceError>)
    ensures
        has_nul(new_root@) || has_nul(put_old@) ==> r == Err::<PivotRootCall, NamespaceError>(
            NamespaceError::InvalidPath,
        ),
        !has_nul(new_root@) && !has_nul(put_old@) ==> (r matches Ok(call) && call.new_root@
            == new_root@ && call.put_old@ == put_old@),
{
    if contains_nul(new_root) || contains_nul(put_old) {
        return Err(NamespaceError::InvalidPath);
    }
    Ok(PivotRootCall { new_root: String::from_str(new_root), put_old: String::from_str(put_old) })
}

/// The call that unmounts `target`.
pub fn umount(target: &str) -> (r: Result<UmountCall, NamespaceError>)
    ensures
        has_nul(target@) ==> r == Err::<UmountCall, NamespaceError>(NamespaceError::InvalidPath),
        !has_nul(target@) ==> (r matches Ok(call) && call.target@ == target@ && call.flags == 0),
{
    umount2(target, 0)
}

/// The call that unmounts `target` with `flags`, such as `MNT_DETACH`.
pub fn umount2(target: &str, flags: i32) -> (r: Result<UmountCall, NamespaceError>)
    ensures
        has_nul(target@) ==> r == Err::<UmountCall, NamespaceError>(NamespaceError::InvalidPath),
        !has_nul(target@) ==> (r matches Ok(call) && call.target@ == target@ && call.flags
            == flags),
{
    if contains_nul(target) {
        return Err(NamespaceError::InvalidPath);
    }
    Ok(UmountCall { target: String::from_str(target), flags })
}

/// One entry of a user or group id map.
#[derive(Debug, Clone, Copy)]
pub struct IdMapping {
    /// First id inside the namespace.
    pub inner_id: u32,
    /// First id outside the namespace.
    pub outer_id: u32,
    /// Length of the range.
    pub count: u32,
}

/// A write to a file below `/proc/<pid>`.
#[derive(Debug, Clone)]
pub struct ProcWrite {
    pub path: String,
    pub content: String,
}

/// How to set the group id map of a process: write `deny_setgroups`
/// first, whatever becomes of it, then `map`.
#[derive(Debug, Clone)]
pub struct GidMapPlan {
    pub deny_setgroups: ProcWrite,
    pub map: ProcWrite,
}

/// The path of the file `name` of the process `pid` in `/proc`.
pub open spec fn proc_file(pid: u32, name: Seq<char>) -> Seq<char> {
    "/proc/"@ + decimal(pid as nat) + "/"@ + name
}

fn proc_path(pid: u32, name: &str) -> (r: String)
    ensures
        r@ == proc_file(pid, name@),
{
    let mut out = String::from_str("/proc/");
    push_decimal(&mut out, pid as u64);
    out.append("/");
    out.append(name);
    out
}

impl IdMapping {
    /// The text of this entry: the three numbers with one space between each.
    pub open spec fn wire(self) -> Seq<char> {
        decimal(self.inner_id as nat) + " "@ + decimal(self.outer_id as nat) + " "@ + decimal(
            self.count as nat,
        )
    }

    /// The entry that maps `id` to itself.
    pub fn identity(id: u32) -> (r: Self)
        ensures
            r.inner_id == id,
            r.outer_id == id,
            r.count == 1,
    {
        Self { inner_id: id, outer_id: id, count: 1 }
    }

    /// The entry that maps root inside the namespace to `outer_uid` outside.
    pub fn root_to_user(outer_uid: u32) -> (r: Self)
        ensures
            r.inner_id == 0,
            r.outer_id == outer_uid,
            r.count == 1,
    {
        Self { inner_id: 0, outer_id: outer_uid, count: 1 }
    }

    /// The text of this entry for `uid_map` or `gid_map`.
    pub fn to_map_string(&self) -> (r: String)
        ensures
            r@ == self.wire(),
    {
        let mut out = String::new();
        push_decimal(&mut out, self.inner_id as u64);
        out.append(" ");
        push_decimal(&mut out, self.outer_id as u64);
        out.append(" ");
        push_decimal(&mut out, self.count as u64);
        out
    }
}

/// The write that sets the user id map of the process `pid`: the entry
/// and a line feed.
pub fn write_uid_map(pid: u32, mapping: &IdMapping) -> (r: ProcWrite)
    ensures
        r.path@ == proc_file(pid, "uid_map"@),
        r.content@ == mapping.wire() + "\n"@,
{
    let mut content = mapping.to_map_string();
    content.append("\n");
    ProcWrite { path: proc_path(pid, "uid_map"), content }
}

/// The writes that set the group id map of the process `pid`: `deny` to
/// `setgroups` first, then the entry and a line feed to the map.
pub fn write_gid_map(pid: u32, mapping: &IdMapping) -> (r: GidMapPlan)
    ensures
        r.deny_setgroups.path@ == proc_file(pid, "setgroups"@),
        r.deny_setgroups.content@ == "deny"@,
        r.map.path@ == proc_file(pid, "gid_map"@),
        r.map.content@ == mapping.wire() + "\n"@,
{
    let mut content = mapping.to_map_string();
    content.append("\n");
    GidMapPlan {
        deny_setgroups: ProcWrite {
            path: proc_path(pid, "setgroups"),
            content: String::from_str("deny"),
        },
        map: ProcWrite { path: proc_path(pid, "gid_map"), content },
    }
}

/// The error for a map write that failed: permission denied where the
/// file could not be opened, invalid argument where the kernel refused
/// the content.
pub fn map_write_error(stage: FileStage) -> (r: NamespaceError)
    ensures
        stage == FileStage::Open ==> r == NamespaceError::PermissionDenied,
        stage == FileStage::Transfer ==> r == NamespaceError::InvalidArgument,
{
    match stage {
        FileStage::Open => NamespaceError::PermissionDenied,
        FileStage::Transfer => NamespaceError::InvalidArgument,
    }
}

} // verus!
