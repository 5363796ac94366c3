//! Root filesystem construction: the directories, mounts, device nodes and
//! files that make a directory tree ready for a container, as the steps to
//! take in their order.
//!
//! ```text
//! <root>/
//! ├── bin/ lib/ lib64/ usr/   (bind mounts or copies)
//! ├── etc/                    (hostname, hosts, resolv.conf)
//! ├── proc/                   (proc)
//! ├── sys/                    (sysfs)
//! ├── dev/                    (tmpfs with the basic device nodes)
//! ├── tmp/                    (tmpfs)
//! ├── root/
//! └── .old_root/              (where the old root goes on pivot_root)
//! ```

pub mod mount_flags;

use vstd::prelude::*;
use vstd::string::*;
use crate::cgroup::{FailureKind, FileFailure};
use crate::namespace::MNT_DETACH;
use crate::sys::{device_number, eexist, makedev, s_ifchr};
use crate::text::{
    concat2, find_char, first_index_of, join, join_path, push_signed_decimal, signed_decimal,
    to_chars,
};

verus! {

/// Root filesystem errors.
#[derive(Debug, Clone, PartialEq, Eq)]
pub enum RootFsError {
    /// Path does not exist.
    PathNotFound(String),
    /// Permission denied.
    PermissionDenied,
    /// Mount failed.
    MountFailed(String),
    /// Device creation failed.
    DeviceCreationFailed(String),
    /// I/O error.
    IoError(String),
    /// Not supported on this platform.
    NotSupported,
}

impl RootFsError {
    /// The text that describes this error.
    pub open spec fn message(self) -> Seq<char> {
        match self {
            RootFsError::PathNotFound(path) => "Path not found: "@ + path@,
            RootFsError::PermissionDenied => "Permission denied"@,
            RootFsError::MountFailed(msg) => "Mount failed: "@ + msg@,
            RootFsError::DeviceCreationFailed(msg) => "Device creation failed: "@ + msg@,
            RootFsError::IoError(msg) => "I/O error: "@ + msg@,
            RootFsError::NotSupported => "Not supported on this platform"@,
        }
    }

    /// The text that describes this error.
    pub fn to_string(&self) -> (r: String)
        ensures
            r@ == self.message(),
    {
        match self {
            RootFsError::PathNotFound(path) => concat2("Path not found: ", path.as_str()),
            RootFsError::PermissionDenied => String::from_str("Permission denied"),
            RootFsError::MountFailed(msg) => concat2("Mount failed: ", msg.as_str()),
            RootFsError::DeviceCreationFailed(msg) => concat2(
                "Device creation failed: ",
                msg.as_str(),
            ),
            RootFsError::IoError(msg) => concat2("I/O error: ", msg.as_str()),
            RootFsError::NotSupported => String::from_str("Not supported on this platform"),
        }
    }

    /// The error for a file operation that failed: permission denied is
    /// told apart, anything else is an I/O error with the system's message.
    pub fn from_io(failure: &FileFailure) -> (r: RootFsError)
        ensures
            failure.kind == FailureKind::PermissionDenied ==> r == RootFsError::PermissionDenied,
            failure.kind != FailureKind::PermissionDenied ==> (r matches RootFsError::IoError(m)
                && m@ == failure.message@),
    {
        match failure.kind {
            FailureKind::PermissionDenied => RootFsError::PermissionDenied,
            _ => RootFsError::IoError(failure.message.clone()),
        }
    }
}

/// The text of an optional string.
pub open spec fn text_of(o: Option<String>) -> Option<Seq<char>> {
    match o {
        Some(s) => Some(s@),
        None => None,
    }
}

/// The text of an optional string slice.
pub open spec fn str_text_of(o: Option<&str>) -> Option<Seq<char>> {
    match o {
        Some(s) => Some(s@),
        None => None,
    }
}

/// Whether `s` holds a NUL character, which no path or option handed to
/// the kernel may hold.
pub open spec fn has_nul(s: Seq<char>) -> bool {
    first_index_of(s, '\0') < s.len()
}

/// Whether `o` is a text that holds a NUL character.
pub open spec fn opt_has_nul(o: Option<Seq<char>>) -> bool {
    match o {
        Some(s) => has_nul(s),
        None => false,
    }
}

/// Whether `s` holds a NUL character.
pub fn contains_nul(s: &str) -> (r: bool)
    ensures
        r == has_nul(s@),
{
    let chars = to_chars(s);
    find_char(&chars, '\0') < chars.len()
}

fn opt_contains_nul(o: Option<&str>) -> (r: bool)
    ensures
        r == opt_has_nul(str_text_of(o)),
{
    match o {
        Some(s) => contains_nul(s),
        None => false,
    }
}

fn owned(o: Option<&str>) -> (r: Option<String>)
    ensures
        text_of(r) == str_text_of(o),
{
    match o {
        Some(s) => Some(String::from_str(s)),
        None => None,
    }
}

/// The arguments of one `mount` system call.
#[derive(Debug, Clone)]
pub struct MountCall {
    pub source: Option<String>,
    pub target: String,
    pub fstype: Option<String>,
    pub flags: u64,
    pub data: Option<String>,
}

/// A `MountCall` as plain text.
pub struct MountCallView {
    pub source: Option<Seq<char>>,
    pub target: Seq<char>,
    pub fstype: Option<Seq<char>>,
    pub flags: u64,
    pub data: Option<Seq<char>>,
}

impl View for MountCall {
    type V = MountCallView;

    open spec fn view(&self) -> MountCallView {
        MountCallView {
            source: text_of(self.source),
            target: self.target@,
            fstype: text_of(self.fstype),
            flags: self.flags,
            data: text_of(self.data),
        }
    }
}

/// The arguments of one `mknod` system call for a character device.
#[derive(Debug, Clone)]
pub struct DeviceNode {
    pub path: String,
    /// File type and permission bits.
    pub mode: u32,
    /// Device number.
    pub dev: u64,
}

/// One step of building a root filesystem.
#[derive(Debug, Clone)]
pub enum RootFsStep {
    /// Create the directory and its parents; done where it exists.
    CreateDirAll { path: String },
    /// Set the permission bits of the path.
    SetMode { path: String, mode: u32 },
    /// Mount with these arguments, which `mount` has yet to check.
    Mount(MountCall),
    /// Create the character device `name` in the directory `dir`, through
    /// `create_device_node`.
    MakeNode { dir: String, name: String, major: u32, minor: u32, mode: u32 },
    /// Create the symbolic link `link` that points to `target`; with
    /// `create_parents`, after the directories above `link`.
    Symlink { target: String, link: String, create_parents: bool },
    /// Create or empty the file and write `content` to it.
    WriteFile { path: String, content: String },
    /// Copy the file `from` to `to`, after creating the directories above `to`.
    CopyFile { from: String, to: String },
    /// Unmount `target` with these flags.
    Unmount { target: String, flags: i32 },
    /// Remove the empty directory.
    RemoveDir { path: String },
}

/// A `RootFsStep` as plain text.
pub enum RootFsStepView {
    CreateDirAll { path: Seq<char> },
    SetMode { path: Seq<char>, mode: u32 },
    Mount(MountCallView),
    MakeNode { dir: Seq<char>, name: Seq<char>, major: u32, minor: u32, mode: u32 },
    Symlink { target: Seq<char>, link: Seq<char>, create_parents: bool },
    WriteFile { path: Seq<char>, content: Seq<char> },
    CopyFile { from: Seq<char>, to: Seq<char> },
    Unmount { target: Seq<char>, flags: i32 },
    RemoveDir { path: Seq<char> },
}

impl View for RootFsStep {
    type V = RootFsStepView;

    open spec fn view(&self) -> RootFsStepView {
        match *self {
            RootFsStep::CreateDirAll { path } => RootFsStepView::CreateDirAll { path: path@ },
            RootFsStep::SetMode { path, mode } => RootFsStepView::SetMode {
                path: path@,
                mode: mode,
            },
            RootFsStep::Mount(call) => RootFsStepView::Mount(call@),
            RootFsStep::MakeNode { dir, name, major, minor, mode } => RootFsStepView::MakeNode {
                dir: dir@,
                name: name@,
                major: major,
                minor: minor,
                mode: mode,
            },
            RootFsStep::Symlink { target, link, create_parents } => RootFsStepView::Symlink {
                target: target@,
                link: link@,
                create_parents: create_parents,
            },
            RootFsStep::WriteFile { path, content } => RootFsStepView::WriteFile {
                path: path@,
                content: content@,
            },
            RootFsStep::CopyFile { from, to } => RootFsStepView::CopyFile { from: from@, to: to@ },
            RootFsStep::Unmount { target, flags } => RootFsStepView::Unmount {
                target: target@,
                flags: flags,
            },
            RootFsStep::RemoveDir { path } => RootFsStepView::RemoveDir { path: path@ },
        }
    }
}

/// The views of the steps of `v`.
pub open spec fn steps(v: Seq<RootFsStep>) -> Seq<RootFsStepView> {
    Seq::new(v.len(), |i: int| v[i]@)
}

/// The index of the step after the one at `index`, or none where the
/// plan ends: after its last step, or with the failure of a step. The
/// steps are taken in their order, and nothing is undone.
pub fn after_step(plan: &Vec<RootFsStep>, index: usize, succeeded: bool) -> (r: Option<usize>)
    ensures
        succeeded && index + 1 < plan@.len() ==> r == Some((index + 1) as usize),
        !succeeded || index + 1 >= plan@.len() ==> r is None,
{
    if succeeded && index < plan.len() && index + 1 < plan.len() {
        Some(index + 1)
    } else {
        None
    }
}

/// The error for a step on files that failed: for the unmount of
/// the old root a failed mount, for any other step the error of the file
/// operation. Mounts and device nodes have results of their own.
pub fn step_error(step: &RootFsStep, failure: &FileFailure) -> (r: RootFsError)
    ensures
        step is Unmount ==> (r matches RootFsError::MountFailed(m) && m@ == "umount old_root"@),
        !(step is Unmount) && failure.kind == FailureKind::PermissionDenied ==> r
            == RootFsError::PermissionDenied,
        !(step is Unmount) && failure.kind != FailureKind::PermissionDenied ==> (r matches
            RootFsError::IoError(m) && m@ == failure.message@),
{
    match step {
        RootFsStep::Unmount { .. } => RootFsError::MountFailed(String::from_str("umount old_root")),
        _ => RootFsError::from_io(failure),
    }
}

/// The step that creates the directory `path`.
pub open spec fn dir_step(path: Seq<char>) -> RootFsStepView {
    RootFsStepView::CreateDirAll { path: path }
}

/// The step that mounts with the given arguments.
pub open spec fn mount_step(
    source: Option<Seq<char>>,
    target: Seq<char>,
    fstype: Option<Seq<char>>,
    flags: u64,
    data: Option<Seq<char>>,
) -> RootFsStepView {
    RootFsStepView::Mount(
        MountCallView { source: source, target: target, fstype: fstype, flags: flags, data: data },
    )
}

/// The step that creates the character device `name` in `dir`.
pub open spec fn node_step(
    dir: Seq<char>,
    name: Seq<char>,
    major: u32,
    minor: u32,
    mode: u32,
) -> RootFsStepView {
    RootFsStepView::MakeNode { dir: dir, name: name, major: major, minor: minor, mode: mode }
}

/// The step that makes `name` in `dir` a link to `target`.
pub open spec fn link_step(target: Seq<char>, dir: Seq<char>, name: Seq<char>) -> RootFsStepView {
    RootFsStepView::Symlink { target: target, link: join(dir, name), create_parents: false }
}

fn make_dir(path: String) -> (r: RootFsStep)
    ensures
        r@ == dir_step(path@),
{
    RootFsStep::CreateDirAll { path }
}

fn make_mount(
    source: Option<&str>,
    target: &str,
    fstype: Option<&str>,
    flags: u64,
    data: Option<&str>,
) -> (r: RootFsStep)
    ensures
        r@ == mount_step(
            str_text_of(source),
            target@,
            str_text_of(fstype),
            flags,
            str_text_of(data),
        ),
{
    RootFsStep::Mount(
        MountCall {
            source: owned(source),
            target: String::from_str(target),
            fstype: owned(fstype),
            flags,
            data: owned(data),
        },
    )
}

fn make_node(dir: &str, name: &str, major: u32, minor: u32, mode: u32) -> (r: RootFsStep)
    ensures
        r@ == node_step(dir@, name@, major, minor, mode),
{
    RootFsStep::MakeNode {
        dir: String::from_str(dir),
        name: String::from_str(name),
        major,
        minor,
        mode,
    }
}

fn make_link(target: &str, dir: &str, name: &str) -> (r: RootFsStep)
    ensures
        r@ == link_step(target@, dir@, name@),
{
    RootFsStep::Symlink {
        target: String::from_str(target),
        link: join_path(dir, name),
        create_parents: false,
    }
}

/// The arguments of a `mount` system call, once none of them holds a NUL
/// character. The first that does is reported: source, target, file
/// system type, data.
pub fn mount(
    source: Option<&str>,
    target: &str,
    fstype: Option<&str>,
    flags: u64,
    data: Option<&str>,
) -> (r: Result<MountCall, RootFsError>)
    ensures
        opt_has_nul(str_text_of(source)) ==> (r matches Err(RootFsError::IoError(m)) && m@
            == "Invalid source path"@),
        !opt_has_nul(str_text_of(source)) && has_nul(target@) ==> (r matches Err(
            RootFsError::IoError(m),
        ) && m@ == "Invalid target path"@),
        !opt_has_nul(str_text_of(source)) && !has_nul(target@) && opt_has_nul(str_text_of(fstype))
            ==> (r matches Err(RootFsError::IoError(m)) && m@ == "Invalid filesystem type"@),
        !opt_has_nul(str_text_of(source)) && !has_nul(target@) && !opt_has_nul(
            str_text_of(fstype),
        ) && opt_has_nul(str_text_of(data)) ==> (r matches Err(RootFsError::IoError(m)) && m@
            == "Invalid mount data"@),
        !opt_has_nul(str_text_of(source)) && !has_nul(target@) && !opt_has_nul(
            str_text_of(fstype),
        ) && !opt_has_nul(str_text_of(data)) ==> (r matches Ok(call) && call@ == (MountCallView {
            source: str_text_of(source),
            target: target@,
            fstype: str_text_of(fstype),
            flags: flags,
            data: str_text_of(data),
        })),
{
    if opt_contains_nul(source) {
        return Err(RootFsError::IoError(String::from_str("Invalid source path")));
    }
    if contains_nul(target) {
        return Err(RootFsError::IoError(String::from_str("Invalid target path")));
    }
    if opt_contains_nul(fstype) {
        return Err(RootFsError::IoError(String::from_str("Invalid filesystem type")));
    }
    if opt_contains_nul(data) {
        return Err(RootFsError::IoError(String::from_str("Invalid mount data")));
    }
    Ok(
        MountCall {
            source: owned(source),
            target: String::from_str(target),
            fstype: owned(fstype),
            flags,
            data: owned(data),
        },
    )
}

/// What a `mount` system call that returned `ret` means; `errno` is the
/// error number read right after it.
pub fn mount_result(ret: i32, errno: i32) -> (r: Result<(), RootFsError>)
    ensures
        ret >= 0 ==> r is Ok,
        ret < 0 ==> (r matches Err(RootFsError::MountFailed(m)) && m@ == "errno: "@
            + signed_decimal(errno as int)),
{
    if ret < 0 {
        let mut msg = String::from_str("errno: ");
        push_signed_decimal(&mut msg, errno);
        Err(RootFsError::MountFailed(msg))
    } else {
        Ok(())
    }
}

/// The steps that mount `proc` on `target`.
pub open spec fn proc_steps(target: Seq<char>) -> Seq<RootFsStepView> {
    seq![
        dir_step(target),
        mount_step(
            Some("proc"@),
            target,
            Some("proc"@),
            mount_flags::MS_NOSUID | mount_flags::MS_NODEV | mount_flags::MS_NOEXEC,
            None,
        ),
    ]
}

/// The steps that mount `proc` on `target`.
pub fn mount_proc(target: &str) -> (r: Vec<RootFsStep>)
    ensures
        steps(r@) == proc_steps(target@),
{
    let mut out: Vec<RootFsStep> = Vec::new();
    out.push(make_dir(String::from_str(target)));
    out.push(
        make_mount(
            Some("proc"),
            target,
            Some("proc"),
            mount_flags::MS_NOSUID | mount_flags::MS_NODEV | mount_flags::MS_NOEXEC,
            None,
        ),
    );
    out
}

/// The steps that set up a minimal `/dev` on `target`: a small tmpfs, the
/// six basic character devices, the directories `pts` and `shm`, and the
/// links to the standard streams.
pub open spec fn dev_steps(target: Seq<char>) -> Seq<RootFsStepView> {
    seq![
        dir_step(target),
        mount_step(
            Some("tmpfs"@),
            target,
            Some("tmpfs"@),
            mount_flags::MS_NOSUID,
            Some("mode=755,size=64K"@),
        ),
        node_step(target, "null"@, 1, 3, 0o666),
        node_step(target, "zero"@, 1, 5, 0o666),
        node_step(target, "random"@, 1, 8, 0o666),
        node_step(target, "urandom"@, 1, 9, 0o666),
        node_step(target, "tty"@, 5, 0, 0o666),
        node_step(target, "console"@, 5, 1, 0o620),
        dir_step(join(target, "pts"@)),
        dir_step(join(target, "shm"@)),
        link_step("/proc/self/fd"@, target, "fd"@),
        link_step("/proc/self/fd/0"@, target, "stdin"@),
        link_step("/proc/self/fd/1"@, target, "stdout"@),
        link_step("/proc/self/fd/2"@, target, "stderr"@),
    ]
}

/// The steps that set up a minimal `/dev` on `target`.
pub fn mount_dev(target: &str) -> (r: Vec<RootFsStep>)
    ensures
        steps(r@) == dev_steps(target@),
{
    let mut out: Vec<RootFsStep> = Vec::new();
    out.push(make_dir(String::from_str(target)));
    out.push(
        make_mount(
            Some("tmpfs"),
            target,
            Some("tmpfs"),
            mount_flags::MS_NOSUID,
            Some("mode=755,size=64K"),
        ),
    );
    out.push(make_node(target, "null", 1, 3, 0o666));
    out.push(make_node(target, "zero", 1, 5, 0o666));
    out.push(make_node(target, "random", 1, 8, 0o666));
    out.push(make_node(target, "urandom", 1, 9, 0o666));
    out.push(make_node(target, "tty", 5, 0, 0o666));
    out.push(make_node(target, "console", 5, 1, 0o620));
    out.push(make_dir(join_path(target, "pts")));
    out.push(make_dir(join_path(target, "shm")));
    out.push(make_link("/proc/self/fd", target, "fd"));
    out.push(make_link("/proc/self/fd/0", target, "stdin"));
    out.push(make_link("/proc/self/fd/1", target, "stdout"));
    out.push(make_link("/proc/self/fd/2", target, "stderr"));
    out
}

/// The arguments of the `mknod` call that creates the character device
/// `name` in `dev_path`. A path that holds a NUL character is refused.
pub fn create_device_node(dev_path: &str, name: &str, major: u32, minor: u32, mode: u32) -> (r:
    Result<DeviceNode, RootFsError>)
    ensures
        has_nul(join(dev_path@, name@)) ==> (r matches Err(RootFsError::IoError(m)) && m@
            == "Invalid path"@),
        !has_nul(join(dev_path@, name@)) ==> (r matches Ok(node) && node.path@ == join(
            dev_path@,
            name@,
        ) && node.mode == 0o20000u32 | mode && node.dev == device_number(major, minor)),
{
    let path = join_path(dev_path, name);
    if contains_nul(path.as_str()) {
        return Err(RootFsError::IoError(String::from_str("Invalid path")));
    }
    let dev: u64 = makedev(major, minor);
    Ok(DeviceNode { path, mode: s_ifchr() | mode, dev })
}

/// What the `mknod` call for the device `name` means, having returned
/// `ret` with the error number `errno`. That the node exists already is
/// no failure.
pub fn device_node_result(name: &str, ret: i32, errno: i32) -> (r: Result<(), RootFsError>)
    ensures
        ret >= 0 || errno == 17 ==> r is Ok,
        ret < 0 && errno != 17 ==> (r matches Err(RootFsError::DeviceCreationFailed(m)) && m@
            == name@ + ": errno "@ + signed_decimal(errno as int)),
{
    if ret < 0 && errno != eexist() {
        let mut msg = concat2(name, ": errno ");
        push_signed_decimal(&mut msg, errno);
        return Err(RootFsError::DeviceCreationFailed(msg));
    }
    Ok(())
}

/// The steps that lay out a new root filesystem at `path`: the root, the
/// eleven directories below it, and `tmp` made sticky and open to all.
pub open spec fn layout_steps(path: Seq<char>) -> Seq<RootFsStepView> {
    seq![
        dir_step(path),
        dir_step(join(path, "bin"@)),
        dir_step(join(path, "lib"@)),
        dir_step(join(path, "lib64"@)),
        dir_step(join(path, "usr"@)),
        dir_step(join(path, "etc"@)),
        dir_step(join(path, "proc"@)),
        dir_step(join(path, "dev"@)),
        dir_step(join(path, "sys"@)),
        dir_step(join(path, "tmp"@)),
        dir_step(join(path, "root"@)),
        dir_step(join(path, ".old_root"@)),
        RootFsStepView::SetMode { path: join(path, "tmp"@), mode: 0o1777 },
    ]
}

/// The steps that bind `source` on `target`, with all that is mounted below it.
pub open spec fn bind_steps(source: Seq<char>, target: Seq<char>) -> Seq<RootFsStepView> {
    seq![
        dir_step(target),
        mount_step(Some(source), target, None, mount_flags::MS_BIND | mount_flags::MS_REC, None),
    ]
}

/// The step that makes the bind mount on `target` read-only.
pub open spec fn read_only_step(target: Seq<char>) -> RootFsStepView {
    mount_step(
        None,
        target,
        None,
        mount_flags::MS_REMOUNT | mount_flags::MS_BIND | mount_flags::MS_RDONLY,
        None,
    )
}

/// The steps that prepare `path` for `pivot_root`: make `/` private with
/// all below it, so that nothing done here reaches the host; bind `path`
/// on itself, so that it is a mount point; make sure the directory for
/// the old root exists. The order is required.
pub open spec fn pivot_steps(path: Seq<char>) -> Seq<RootFsStepView> {
    seq![
        mount_step(None, "/"@, None, mount_flags::MS_REC | mount_flags::MS_PRIVATE, None),
        mount_step(Some(path), path, None, mount_flags::MS_BIND | mount_flags::MS_REC, None),
        dir_step(join(path, ".old_root"@)),
    ]
}

/// The content of `resolv.conf` for these name servers: one line each.
pub open spec fn resolv_content(servers: Seq<Seq<char>>) -> Seq<char>
    decreases servers.len(),
{
    if servers.len() == 0 {
        Seq::<char>::empty()
    } else {
        resolv_content(servers.drop_last()) + "nameserver "@ + servers.last() + "\n"@
    }
}

/// The texts of `v`.
pub open spec fn texts(v: Seq<&str>) -> Seq<Seq<char>> {
    Seq::new(v.len(), |i: int| v[i]@)
}

/// A root filesystem under construction.
pub struct RootFs {
    path: String,
    cleanup: bool,
}

impl RootFs {
    /// The directory of this root filesystem.
    pub closed spec fn root(&self) -> Seq<char> {
        self.path@
    }

    /// Whether the tree is to be removed when this value is given up.
    pub closed spec fn cleans_up(&self) -> bool {
        self.cleanup
    }

    /// A new root filesystem at `path`, and the steps that lay it out.
    pub fn create(path: &str) -> (r: (Self, Vec<RootFsStep>))
        ensures
            r.0.root() == path@,
            !r.0.cleans_up(),
            steps(r.1@) == layout_steps(path@),
    {
        let mut out: Vec<RootFsStep> = Vec::new();
        out.push(make_dir(String::from_str(path)));
        out.push(make_dir(join_path(path, "bin")));
        out.push(make_dir(join_path(path, "lib")));
        out.push(make_dir(join_path(path, "lib64")));
        out.push(make_dir(join_path(path, "usr")));
        out.push(make_dir(join_path(path, "etc")));
        out.push(make_dir(join_path(path, "proc")));
        out.push(make_dir(join_path(path, "dev")));
        out.push(make_dir(join_path(path, "sys")));
        out.push(make_dir(join_path(path, "tmp")));
        out.push(make_dir(join_path(path, "root")));
        out.push(make_dir(join_path(path, ".old_root")));
        out.push(RootFsStep::SetMode { path: join_path(path, "tmp"), mode: 0o1777 });
        (Self { path: String::from_str(path), cleanup: false }, out)
    }

    /// The root filesystem at `path`, which must exist: `exists` says
    /// whether it does.
    pub fn open(path: &str, exists: bool) -> (r: Result<Self, RootFsError>)
        ensures
            exists ==> (r matches Ok(fs) && fs.root() == path@ && !fs.cleans_up()),
            !exists ==> (r matches Err(RootFsError::PathNotFound(p)) && p@ == path@),
    {
        if !exists {
            return Err(RootFsError::PathNotFound(String::from_str(path)));
        }
        Ok(Self { path: String::from_str(path), cleanup: false })
    }

    /// The same root filesystem, to be removed when it is given up.
    pub fn with_cleanup(self) -> (r: Self)
        ensures
            r.root() == self.root(),
            r.cleans_up(),
    {
        let mut fs = self;
        fs.cleanup = true;
        fs
    }

    /// The directory of this root filesystem.
    pub fn path(&self) -> (r: &str)
        ensures
            r@ == self.root(),
    {
        self.path.as_str()
    }

    /// Whether the tree is to be removed when this value is given up.
    pub fn cleanup(&self) -> (r: bool)
        ensures
            r == self.cleans_up(),
    {
        self.cleanup
    }

    /// The steps that bind the host directory `source` on `target` below the root.
    pub fn bind_mount(&self, source: &str, target: &str) -> (r: Vec<RootFsStep>)
        ensures
            steps(r@) == bind_steps(source@, join(self.root(), target@)),
    {
        let target_path = join_path(self.path.as_str(), target);
        let mut out: Vec<RootFsStep> = Vec::new();
        out.push(make_dir(target_path.clone()));
        out.push(
            make_mount(
                Some(source),
                target_path.as_str(),
                None,
                mount_flags::MS_BIND | mount_flags::MS_REC,
                None,
            ),
        );
        out
    }

    /// The steps that bind the host directory `source` on `target` below
    /// the root, read-only: the bind first, then the remount.
    pub fn bind_mount_ro(&self, source: &str, target: &str) -> (r: Vec<RootFsStep>)
        ensures
            steps(r@) == bind_steps(source@, join(self.root(), target@)).push(
                read_only_step(join(self.root(), target@)),
            ),
    {
        let mut out = self.bind_mount(source, target);
        let target_path = join_path(self.path.as_str(), target);
        out.push(
            make_mount(
                None,
                target_path.as_str(),
                None,
                mount_flags::MS_REMOUNT | mount_flags::MS_BIND | mount_flags::MS_RDONLY,
                None,
            ),
        );
        out
    }

    /// The steps that mount `proc` below the root.
    pub fn mount_proc(&self) -> (r: Vec<RootFsStep>)
        ensures
            steps(r@) == proc_steps(join(self.root(), "proc"@)),
    {
        let target = join_path(self.path.as_str(), "proc");
        mount_proc(target.as_str())
    }

    /// The step that mounts `sysfs` below the root.
    pub fn mount_sys(&self) -> (r: Vec<RootFsStep>)
        ensures
            steps(r@) == seq![
                mount_step(
                    Some("sysfs"@),
                    join(self.root(), "sys"@),
                    Some("sysfs"@),
                    mount_flags::MS_NOSUID | mount_flags::MS_NODEV | mount_flags::MS_NOEXEC,
                    None,
                ),
            ],
    {
        let target = join_path(self.path.as_str(), "sys");
        let mut out: Vec<RootFsStep> = Vec::new();
        out.push(
            make_mount(
                Some("sysfs"),
                target.as_str(),
                Some("sysfs"),
                mount_flags::MS_NOSUID | mount_flags::MS_NODEV | mount_flags::MS_NOEXEC,
                None,
            ),
        );
        assert(steps(out@) =~= seq![
            mount_step(
                Some("sysfs"@),
                join(self.root(), "sys"@),
                Some("sysfs"@),
                mount_flags::MS_NOSUID | mount_flags::MS_NODEV | mount_flags::MS_NOEXEC,
                None,
            ),
        ]);
        out
    }

    /// The step that mounts a tmpfs of 64 MiB on `tmp` below the root.
    pub fn mount_tmp(&self) -> (r: Vec<RootFsStep>)
        ensures
            steps(r@) == seq![
                mount_step(
                    Some("tmpfs"@),
                    join(self.root(), "tmp"@),
                    Some("tmpfs"@),
                    mount_flags::MS_NOSUID | mount_flags::MS_NODEV,
                    Some("size=64M,mode=1777"@),
                ),
            ],
    {
        let target = join_path(self.path.as_str(), "tmp");
        let mut out: Vec<RootFsStep> = Vec::new();
        out.push(
            make_mount(
                Some("tmpfs"),
                target.as_str(),
                Some("tmpfs"),
                mount_flags::MS_NOSUID | mount_flags::MS_NODEV,
                Some("size=64M,mode=1777"),
            ),
        );
        assert(steps(out@) =~= seq![
            mount_step(
                Some("tmpfs"@),
                join(self.root(), "tmp"@),
                Some("tmpfs"@),
                mount_flags::MS_NOSUID | mount_flags::MS_NODEV,
                Some("size=64M,mode=1777"@),
            ),
        ]);
        out
    }

    /// The steps that set up a minimal `/dev` below the root.
    pub fn setup_dev(&self) -> (r: Vec<RootFsStep>)
        ensures
            steps(r@) == dev_steps(join(self.root(), "dev"@)),
    {
        let target = join_path(self.path.as_str(), "dev");
        mount_dev(target.as_str())
    }

    /// The step that writes `etc/hostname`: the name and a line feed.
    pub fn set_hostname(&self, hostname: &str) -> (r: RootFsStep)
        ensures
            r@ == (RootFsStepView::WriteFile {
                path: join(self.root(), "etc/hostname"@),
                content: hostname@ + "\n"@,
            }),
    {
        RootFsStep::WriteFile {
            path: join_path(self.path.as_str(), "etc/hostname"),
            content: concat2(hostname, "\n"),
        }
    }

    /// The step that writes `etc/hosts`: `localhost` for both loopback
    /// addresses, then the host name for the IPv4 one.
    pub fn set_hosts(&self, hostname: &str) -> (r: RootFsStep)
        ensures
            r@ == (RootFsStepView::WriteFile {
                path: join(self.root(), "etc/hosts"@),
                content: "127.0.0.1\tlocalhost\n::1\t\tlocalhost\n127.0.0.1\t"@ + hostname@
                    + "\n"@,
            }),
    {
        let mut content = concat2("127.0.0.1\tlocalhost\n::1\t\tlocalhost\n127.0.0.1\t", hostname);
        content.append("\n");
        RootFsStep::WriteFile { path: join_path(self.path.as_str(), "etc/hosts"), content }
    }

    /// The step that writes `etc/resolv.conf` with one line for each name server.
    pub fn set_resolv_conf(&self, nameservers: &[&str]) -> (r: RootFsStep)
        ensures
            r@ == (RootFsStepView::WriteFile {
                path: join(self.root(), "etc/resolv.conf"@),
                content: resolv_content(texts(nameservers@)),
            }),
    {
        let mut content = String::new();
        let n: usize = nameservers.len();
        let mut i: usize = 0;
        let ghost all = texts(nameservers@);
        while i < n
            invariant
                n == nameservers@.len(),
                i <= n,
                all == texts(nameservers@),
                content@ == resolv_content(all.take(i as int)),
            decreases n - i,
        {
            assert(all.take(i + 1).drop_last() =~= all.take(i as int));
            content.append("nameserver ");
            content.append(nameservers[i]);
            content.append("\n");
            i = i + 1;
        }
        assert(all.take(n as int) =~= all);
        RootFsStep::WriteFile { path: join_path(self.path.as_str(), "etc/resolv.conf"), content }
    }

    /// The step that copies the host file `source` to `target` below the root.
    pub fn copy_file(&self, source: &str, target: &str) -> (r: RootFsStep)
        ensures
            r@ == (RootFsStepView::CopyFile { from: source@, to: join(self.root(), target@) }),
    {
        RootFsStep::CopyFile {
            from: String::from_str(source),
            to: join_path(self.path.as_str(), target),
        }
    }

    /// The step that makes `link` below the root a symbolic link to
    /// `target`, after the directories above it.
    pub fn symlink(&self, target: &str, link: &str) -> (r: RootFsStep)
        ensures
            r@ == (RootFsStepView::Symlink {
                target: target@,
                link: join(self.root(), link@),
                create_parents: true,
            }),
    {
        RootFsStep::Symlink {
            target: String::from_str(target),
            link: join_path(self.path.as_str(), link),
            create_parents: true,
        }
    }

    /// The steps that prepare the root for `pivot_root`, and the directory
    /// that takes the old root.
    pub fn prepare_pivot(&self) -> (r: (Vec<RootFsStep>, String))
        ensures
            steps(r.0@) == pivot_steps(self.root()),
            r.1@ == join(self.root(), ".old_root"@),
    {
        let path = self.path.as_str();
        let put_old = join_path(path, ".old_root");
        let mut out: Vec<RootFsStep> = Vec::new();
        out.push(
            make_mount(None, "/", None, mount_flags::MS_REC | mount_flags::MS_PRIVATE, None),
        );
        out.push(
            make_mount(Some(path), path, None, mount_flags::MS_BIND | mount_flags::MS_REC, None),
        );
        out.push(make_dir(put_old.clone()));
        (out, put_old)
    }

    /// The steps that give up the old root after `pivot_root`: a lazy
    /// unmount, then the removal of its directory.
    pub fn cleanup_old_root() -> (r: Vec<RootFsStep>)
        ensures
            steps(r@) == seq![
                RootFsStepView::Unmount { target: "/.old_root"@, flags: MNT_DETACH },
                RootFsStepView::RemoveDir { path: "/.old_root"@ },
            ],
    {
        let mut out: Vec<RootFsStep> = Vec::new();
        out.push(RootFsStep::Unmount { target: String::from_str("/.old_root"), flags: MNT_DETACH });
        out.push(RootFsStep::RemoveDir { path: String::from_str("/.old_root") });
        assert(steps(out@) =~= seq![
            RootFsStepView::Unmount { target: "/.old_root"@, flags: MNT_DETACH },
            RootFsStepView::RemoveDir { path: "/.old_root"@ },
        ]);
        out
    }
}

} // verus!
