//! Cgroup v2 control: the limits of one container's cgroup as the text that
//! the kernel's interface files take, the files that each operation writes
//! and in what order, and what the files that it reads say.
//!
//! | File | Content | Example |
//! |------|---------|---------|
//! | `cpu.max` | quota and period | `100000 1000000` |
//! | `memory.max` | memory limit | `268435456` |
//! | `io.max` | I/O bandwidth limit | `8:0 rbps=1048576 wbps=1048576` |
//! | `cgroup.procs` | member processes | one PID per line |

use vstd::prelude::*;
use vstd::string::*;
use crate::text::{
    concat2, concat_decimal, decimal, has_prefix, join, join_path, lines, parse_number,
    parse_unsigned, push_decimal, rows, split_lines, split_words, starts_with, to_chars, trim,
    trimmed, u64_to_string, words, ParseFailure,
};
use crate::io_uring::{
    batch_write, batch_writes, cpu_max_wire, memory_max_wire, BatchView, BatchWrite,
    CgroupOpView, IoUring, IoUringCgroup, IoUringError,
};
use crate::sys::sigkill;
use crate::ALICE_CGROUP;

verus! {

/// Cgroup operation errors.
#[derive(Debug, Clone, PartialEq, Eq)]
pub enum CgroupError {
    /// Cgroup path does not exist.
    NotFound(String),
    /// Permission denied.
    PermissionDenied,
    /// Invalid cgroup parameter.
    InvalidParameter(String),
    /// I/O error.
    IoError(String),
    /// Cgroup v2 not available.
    CgroupV2NotAvailable,
    /// Controller not enabled.
    ControllerNotEnabled(String),
}

impl CgroupError {
    /// The text that describes this error.
    pub open spec fn message(self) -> Seq<char> {
        match self {
            CgroupError::NotFound(path) => "Cgroup not found: "@ + path@,
            CgroupError::PermissionDenied => "Permission denied"@,
            CgroupError::InvalidParameter(msg) => "Invalid parameter: "@ + msg@,
            CgroupError::IoError(msg) => "I/O error: "@ + msg@,
            CgroupError::CgroupV2NotAvailable => "Cgroup v2 not available"@,
            CgroupError::ControllerNotEnabled(ctrl) => "Controller not enabled: "@ + ctrl@,
        }
    }

    /// The text that describes this error.
    pub fn to_string(&self) -> (r: String)
        ensures
            r@ == self.message(),
    {
        match self {
            CgroupError::NotFound(path) => concat2("Cgroup not found: ", path.as_str()),
            CgroupError::PermissionDenied => String::from_str("Permission denied"),
            CgroupError::InvalidParameter(msg) => concat2("Invalid parameter: ", msg.as_str()),
            CgroupError::IoError(msg) => concat2("I/O error: ", msg.as_str()),
            CgroupError::CgroupV2NotAvailable => String::from_str("Cgroup v2 not available"),
            CgroupError::ControllerNotEnabled(ctrl) => concat2(
                "Controller not enabled: ",
                ctrl.as_str(),
            ),
        }
    }
}

/// CPU controller configuration.
#[derive(Debug, Clone, Copy)]
pub struct CpuConfig {
    /// CPU quota in microseconds per period; `u64::MAX` for unlimited.
    pub quota_us: u64,
    /// CPU period in microseconds.
    pub period_us: u64,
    /// CPU weight, 1 to 10000.
    pub weight: u16,
}

impl Default for CpuConfig {
    fn default() -> (r: Self)
        ensures
            r.quota_us == u64::MAX,
            r.period_us == 100_000,
            r.weight == 100,
    {
        Self { quota_us: u64::MAX, period_us: 100_000, weight: 100 }
    }
}

impl CpuConfig {
    /// The content of `cpu.max`: the quota, or `max` where it is unlimited,
    /// then a space and the period.
    pub open spec fn wire(self) -> Seq<char> {
        if self.quota_us == u64::MAX {
            "max "@ + decimal(self.period_us as nat)
        } else {
            decimal(self.quota_us as nat) + " "@ + decimal(self.period_us as nat)
        }
    }

    /// The configuration for a share of one CPU in percent (above 100 for
    /// more than one CPU), at the default period and weight.
    pub fn from_percent(percent: u32) -> (r: Self)
        ensures
            r.period_us == 100_000,
            r.quota_us == 1000 * percent,
            r.weight == 100,
    {
        let period_us: u64 = 100_000;
        let quota_us: u64 = (period_us * percent as u64) / 100;
        Self { quota_us, period_us, weight: 100 }
    }

    /// The content of `cpu.max`.
    pub fn to_cpu_max(&self) -> (r: String)
        ensures
            r@ == self.wire(),
    {
        if self.quota_us == u64::MAX {
            concat_decimal("max ", self.period_us)
        } else {
            let mut out = u64_to_string(self.quota_us);
            out.append(" ");
            push_decimal(&mut out, self.period_us);
            out
        }
    }
}

/// Memory controller configuration.
#[derive(Debug, Clone, Copy)]
pub struct MemoryConfig {
    /// Maximum memory in bytes (`memory.max`); `u64::MAX` for unlimited.
    pub max: u64,
    /// Throttling threshold in bytes (`memory.high`).
    pub high: u64,
    /// Memory guarantee in bytes (`memory.min`).
    pub min: u64,
    /// Whether the OOM killer takes the whole group.
    pub oom_kill: bool,
}

impl Default for MemoryConfig {
    fn default() -> (r: Self)
        ensures
            r.max == u64::MAX,
            r.high == u64::MAX,
            r.min == 0,
            r.oom_kill,
    {
        Self { max: u64::MAX, high: u64::MAX, min: 0, oom_kill: true }
    }
}

impl MemoryConfig {
    /// The content of `memory.max`.
    pub open spec fn max_wire(self) -> Seq<char> {
        if self.max == u64::MAX {
            "max"@
        } else {
            decimal(self.max as nat)
        }
    }

    /// The configuration for a limit of `bytes`, throttled from nine
    /// tenths of it on.
    pub fn with_limit(bytes: u64) -> (r: Self)
        ensures
            r.max == bytes,
            r.high == (bytes as int * 90) / 100,
            r.min == 0,
            r.oom_kill,
    {
        let wide: u128 = (bytes as u128 * 90) / 100;
        Self { max: bytes, high: wide as u64, min: 0, oom_kill: true }
    }
}

/// I/O controller configuration. A limit of `u64::MAX` is no limit.
#[derive(Debug, Clone)]
pub struct IoConfig {
    /// Device as `major:minor`.
    pub device: String,
    /// Read bytes per second limit.
    pub rbps: u64,
    /// Write bytes per second limit.
    pub wbps: u64,
    /// Read operations per second limit.
    pub riops: u64,
    /// Write operations per second limit.
    pub wiops: u64,
}

/// One limit of an `io.max` line: a space, the key and the value, or
/// nothing where the value is `u64::MAX`.
pub open spec fn io_field(key: Seq<char>, value: u64) -> Seq<char> {
    if value == u64::MAX {
        Seq::<char>::empty()
    } else {
        " "@ + key + decimal(value as nat)
    }
}

/// An `io.max` line: the device, then each limit that is set.
pub open spec fn io_wire(device: Seq<char>, rbps: u64, wbps: u64, riops: u64, wiops: u64) -> Seq<
    char,
> {
    device + io_field("rbps="@, rbps) + io_field("wbps="@, wbps) + io_field("riops="@, riops)
        + io_field("wiops="@, wiops)
}

fn push_io_field(out: &mut String, key: &str, value: u64)
    ensures
        final(out)@ == old(out)@ + io_field(key@, value),
{
    if value != u64::MAX {
        out.append(" ");
        out.append(key);
        push_decimal(out, value);
    }
}

/// The `io.max` line for `device` with the given limits.
pub fn io_max_line(device: &str, rbps: u64, wbps: u64, riops: u64, wiops: u64) -> (r: String)
    ensures
        r@ == io_wire(device@, rbps, wbps, riops, wiops),
{
    let mut out = String::from_str(device);
    push_io_field(&mut out, "rbps=", rbps);
    push_io_field(&mut out, "wbps=", wbps);
    push_io_field(&mut out, "riops=", riops);
    push_io_field(&mut out, "wiops=", wiops);
    out
}

impl IoConfig {
    /// The content of `io.max`.
    pub open spec fn wire(self) -> Seq<char> {
        io_wire(self.device@, self.rbps, self.wbps, self.riops, self.wiops)
    }

    /// The configuration for `device` with no limit set.
    pub fn new(device: &str) -> (r: Self)
        ensures
            r.device@ == device@,
            r.rbps == u64::MAX,
            r.wbps == u64::MAX,
            r.riops == u64::MAX,
            r.wiops == u64::MAX,
    {
        Self {
            device: String::from_str(device),
            rbps: u64::MAX,
            wbps: u64::MAX,
            riops: u64::MAX,
            wiops: u64::MAX,
        }
    }

    /// The content of `io.max`.
    pub fn to_io_max(&self) -> (r: String)
        ensures
            r@ == self.wire(),
    {
        io_max_line(self.device.as_str(), self.rbps, self.wbps, self.riops, self.wiops)
    }
}

/// A write to one interface file: the file is opened as it is, emptied and
/// given `content`. Where `only_if_exists` holds and the file is absent,
/// the write is left out and counts as done.
#[derive(Debug, Clone)]
pub struct FileWrite {
    pub path: String,
    pub content: String,
    pub only_if_exists: bool,
}

/// A `FileWrite` as plain text.
pub struct FileWriteView {
    pub path: Seq<char>,
    pub content: Seq<char>,
    pub only_if_exists: bool,
}

impl View for FileWrite {
    type V = FileWriteView;

    open spec fn view(&self) -> FileWriteView {
        FileWriteView {
            path: self.path@,
            content: self.content@,
            only_if_exists: self.only_if_exists,
        }
    }
}

/// The views of the writes of `v`.
pub open spec fn writes(v: Seq<FileWrite>) -> Seq<FileWriteView> {
    Seq::new(v.len(), |i: int| v[i]@)
}

/// The write of `content` to the file `name` in the directory `dir`.
pub open spec fn file_write(
    dir: Seq<char>,
    name: Seq<char>,
    content: Seq<char>,
    only_if_exists: bool,
) -> FileWriteView {
    FileWriteView { path: join(dir, name), content: content, only_if_exists: only_if_exists }
}

/// The writes that set the CPU limits `config` in `dir`: `cpu.max`, which
/// must exist, then `cpu.weight`, where it exists.
pub open spec fn cpu_writes(dir: Seq<char>, config: CpuConfig) -> Seq<FileWriteView> {
    seq![
        file_write(dir, "cpu.max"@, config.wire(), false),
        file_write(dir, "cpu.weight"@, decimal(config.weight as nat), true),
    ]
}

/// The writes that set the memory limits `config` in `dir`: `memory.max`,
/// which must exist; `memory.high` unless it is unlimited; `memory.min`
/// unless it is zero; `memory.oom.group`. The last three where they exist.
pub open spec fn memory_writes(dir: Seq<char>, config: MemoryConfig) -> Seq<FileWriteView> {
    seq![file_write(dir, "memory.max"@, config.max_wire(), false)] + (if config.high != u64::MAX {
        seq![file_write(dir, "memory.high"@, decimal(config.high as nat), true)]
    } else {
        Seq::<FileWriteView>::empty()
    }) + (if config.min > 0 {
        seq![file_write(dir, "memory.min"@, decimal(config.min as nat), true)]
    } else {
        Seq::<FileWriteView>::empty()
    }) + seq![
        file_write(
            dir,
            "memory.oom.group"@,
            if config.oom_kill {
                "1"@
            } else {
                "0"@
            },
            true,
        ),
    ]
}

/// The write that sets the I/O limits `config` in `dir`: `io.max`, where it exists.
pub open spec fn io_writes(dir: Seq<char>, config: IoConfig) -> Seq<FileWriteView> {
    seq![file_write(dir, "io.max"@, config.wire(), true)]
}

/// The writes of a full set of limits: CPU, then memory, then I/O if given.
pub open spec fn all_writes(
    dir: Seq<char>,
    cpu: CpuConfig,
    memory: MemoryConfig,
    io: Option<IoConfig>,
) -> Seq<FileWriteView> {
    cpu_writes(dir, cpu) + memory_writes(dir, memory) + (match io {
        Some(config) => io_writes(dir, config),
        None => Seq::<FileWriteView>::empty(),
    })
}

/// The writes of `a` followed by those of `b`.
pub fn append_writes(a: &mut Vec<FileWrite>, b: Vec<FileWrite>)
    ensures
        writes(final(a)@) == writes(old(a)@) + writes(b@),
{
    let mut rest = b;
    a.append(&mut rest);
    assert(writes(a@) =~= writes(old(a)@) + writes(b@));
}

/// Where a file operation failed.
#[derive(Debug, Clone, Copy, PartialEq, Eq, Structural)]
pub enum FileStage {
    /// The file could not be opened.
    Open,
    /// The file was opened and could not be read or written in full.
    Transfer,
}

/// What kind of failure the system reported.
#[derive(Debug, Clone, Copy, PartialEq, Eq, Structural)]
pub enum FailureKind {
    /// No such file or directory.
    NotFound,
    /// The caller may not do this.
    PermissionDenied,
    /// Anything else.
    Other,
}

/// A failed file operation, as the caller that performed it reports it.
#[derive(Debug, Clone)]
pub struct FileFailure {
    pub stage: FileStage,
    pub kind: FailureKind,
    pub message: String,
}

/// A signal to send to one process.
#[derive(Debug, Clone, Copy, PartialEq, Eq, Structural)]
pub struct KillCall {
    pub pid: i32,
    pub signal: i32,
}

/// How to kill every process of a cgroup: write `kill_file`; where that
/// file is absent, read `procs_file` and signal each process it lists.
#[derive(Debug, Clone)]
pub struct KillPlan {
    pub kill_file: FileWrite,
    pub procs_file: String,
}

/// How to remove a cgroup: kill its processes, wait `settle_millis` for the
/// kernel to release them, remove the directory `remove_dir`.
#[derive(Debug, Clone)]
pub struct DestroyPlan {
    pub kill: KillPlan,
    pub settle_millis: u64,
    pub remove_dir: String,
}

/// How to enable the controllers of the subtree: where `combined.path`
/// exists, write `combined`; if that fails, write each of `separate` in
/// order and stop at the first that fails.
#[derive(Debug, Clone)]
pub struct EnablePlan {
    pub combined: FileWrite,
    pub separate: Vec<FileWrite>,
}

/// How to create a cgroup: create `root` with its parents unless it exists,
/// create `dir` unless it exists, then enable the controllers.
#[derive(Debug, Clone)]
pub struct CreatePlan {
    pub root: String,
    pub dir: String,
    pub enable: EnablePlan,
}

/// Whether `plan` creates the cgroup at `dir`: the subtree root first, then
/// the directory, then the three controllers, at once or one by one.
pub open spec fn creates(plan: CreatePlan, dir: Seq<char>) -> bool {
    plan.root@ == ALICE_CGROUP@ && plan.dir@ == dir && plan.enable.combined@ == file_write(
        ALICE_CGROUP@,
        "cgroup.subtree_control"@,
        "+cpu +memory +io"@,
        true,
    ) && writes(plan.enable.separate@) == seq![
        file_write(ALICE_CGROUP@, "cgroup.subtree_control"@, "+cpu"@, false),
        file_write(ALICE_CGROUP@, "cgroup.subtree_control"@, "+memory"@, false),
        file_write(ALICE_CGROUP@, "cgroup.subtree_control"@, "+io"@, false),
    ]
}

/// Whether `plan` kills the processes of the cgroup at `dir`.
pub open spec fn kills(plan: KillPlan, dir: Seq<char>) -> bool {
    plan.kill_file@ == file_write(dir, "cgroup.kill"@, "1"@, true) && plan.procs_file@ == join(
        dir,
        "cgroup.procs"@,
    )
}

/// Whether `plan` removes the cgroup at `dir`.
pub open spec fn destroys(plan: DestroyPlan, dir: Seq<char>) -> bool {
    kills(plan.kill, dir) && plan.settle_millis == 100 && plan.remove_dir@ == dir
}

/// Whether `e` is the error for a write to `path` that failed with
/// `failure`: permission denied and file not found on opening have errors
/// of their own, anything else is an I/O error with the system's message.
pub open spec fn is_write_error(e: CgroupError, path: Seq<char>, failure: FileFailure) -> bool {
    if failure.stage == FileStage::Open && failure.kind == FailureKind::PermissionDenied {
        e == CgroupError::PermissionDenied
    } else if failure.stage == FileStage::Open && failure.kind == FailureKind::NotFound {
        e matches CgroupError::NotFound(p) && p@ == path
    } else {
        e matches CgroupError::IoError(m) && m@ == failure.message@
    }
}

/// What became of one write of a plan.
#[derive(Debug, Clone)]
pub enum WriteOutcome {
    /// The file was looked for and is absent; nothing was opened.
    Absent,
    /// The content was written.
    Written,
    /// The file could not be opened or written.
    Failed(FileFailure),
}

/// What to do next in carrying out a plan of writes.
#[derive(Debug, Clone)]
pub enum PlanStep {
    /// Do the write at `index`; with `check_exists`, look first whether
    /// the file exists, and do not open it where it is absent.
    Write { index: usize, check_exists: bool },
    /// Every write is done.
    Done,
    /// A write failed: the plan ends here with this error, and the writes
    /// before it stay as they are.
    Failed(CgroupError),
}

/// Whether `step` is where a plan stands before its write at `index`:
/// that write, or the end where there is none.
pub open spec fn is_step_at(step: PlanStep, plan: Seq<FileWrite>, index: int) -> bool {
    if 0 <= index < plan.len() {
        step matches PlanStep::Write { index: i, check_exists: c } && i == index && c
            == plan[index].only_if_exists
    } else {
        step is Done
    }
}

/// Whether `step` is what follows the write at `index` with `outcome`.
/// A write that was done leads to the next one. An absent file is passed
/// over where the write is only for a file that exists, and is an error
/// otherwise. A failure ends the plan.
pub open spec fn is_next_step(
    step: PlanStep,
    plan: Seq<FileWrite>,
    index: int,
    outcome: WriteOutcome,
) -> bool {
    if !(0 <= index < plan.len()) {
        step is Done
    } else {
        match outcome {
            WriteOutcome::Written => is_step_at(step, plan, index + 1),
            WriteOutcome::Absent => if plan[index].only_if_exists {
                is_step_at(step, plan, index + 1)
            } else {
                step matches PlanStep::Failed(CgroupError::NotFound(p)) && p@ == plan[index].path@
            },
            WriteOutcome::Failed(failure) => step matches PlanStep::Failed(e) && is_write_error(
                e,
                plan[index].path@,
                failure,
            ),
        }
    }
}

/// Where a plan stands before its write at `index`.
pub fn step_at(plan: &Vec<FileWrite>, index: usize) -> (r: PlanStep)
    ensures
        is_step_at(r, plan@, index as int),
{
    if index < plan.len() {
        PlanStep::Write { index, check_exists: plan[index].only_if_exists }
    } else {
        PlanStep::Done
    }
}

/// What follows the write at `index` of `plan`, which had `outcome`.
pub fn next_step(plan: &Vec<FileWrite>, index: usize, outcome: &WriteOutcome) -> (r: PlanStep)
    ensures
        is_next_step(r, plan@, index as int, *outcome),
{
    if index >= plan.len() {
        return PlanStep::Done;
    }
    let write = &plan[index];
    match outcome {
        WriteOutcome::Written => step_at(plan, index + 1),
        WriteOutcome::Absent => {
            if write.only_if_exists {
                step_at(plan, index + 1)
            } else {
                PlanStep::Failed(CgroupError::NotFound(write.path.clone()))
            }
        },
        WriteOutcome::Failed(failure) => PlanStep::Failed(
            CgroupController::write_error(write.path.as_str(), failure),
        ),
    }
}

/// What to do after the write of the kill file.
#[derive(Debug, Clone)]
pub enum KillStep {
    /// The kernel kills the processes.
    Done,
    /// The kernel has no kill file: read the process list and signal
    /// each process.
    SignalEach,
    /// The write failed.
    Failed(CgroupError),
}

/// The stages of removing a cgroup, in their order.
#[derive(Debug, Clone, Copy, PartialEq, Eq, Structural)]
pub enum DestroyStage {
    /// Kill the processes.
    Kill,
    /// Wait for the kernel to release them.
    Settle,
    /// Remove the directory.
    Remove,
}

/// The stages of creating a cgroup, in their order.
#[derive(Debug, Clone, Copy, PartialEq, Eq, Structural)]
pub enum CreateStage {
    /// Create the subtree root with its parents, unless it exists.
    Root,
    /// Create the directory of the cgroup, unless it exists.
    Dir,
    /// Enable the controllers.
    Enable,
}

impl CreatePlan {
    /// The first stage: the subtree root comes before anything else.
    pub fn first_stage(&self) -> (r: CreateStage)
        ensures
            r == CreateStage::Root,
    {
        CreateStage::Root
    }

    /// Whether a directory is to be created, `exists` saying whether it
    /// is there already: only one that is absent is created.
    pub fn creates(&self, exists: bool) -> (r: bool)
        ensures
            r == !exists,
    {
        !exists
    }

    /// The stage after `stage`, or none where the creation ends: after
    /// the controllers are enabled, or with the failure of `stage`.
    pub fn next_stage(&self, stage: CreateStage, succeeded: bool) -> (r: Option<CreateStage>)
        ensures
            !succeeded ==> r is None,
            succeeded && stage == CreateStage::Root ==> r == Some(CreateStage::Dir),
            succeeded && stage == CreateStage::Dir ==> r == Some(CreateStage::Enable),
            succeeded && stage == CreateStage::Enable ==> r is None,
    {
        if !succeeded {
            return None;
        }
        match stage {
            CreateStage::Root => Some(CreateStage::Dir),
            CreateStage::Dir => Some(CreateStage::Enable),
            CreateStage::Enable => None,
        }
    }

    /// The error for a directory that could not be created, with the
    /// system's message.
    pub fn dir_error(message: &str) -> (r: CgroupError)
        ensures
            r matches CgroupError::IoError(m) && m@ == message@,
    {
        CgroupError::IoError(String::from_str(message))
    }
}

impl EnablePlan {
    /// Whether the separate writes are to be done after the combined
    /// write had `combined`: they are where it failed, not where it was
    /// done or the file is absent.
    pub fn falls_back(&self, combined: &WriteOutcome) -> (r: bool)
        ensures
            r == (combined is Failed),
    {
        match combined {
            WriteOutcome::Failed(_) => true,
            _ => false,
        }
    }
}

impl KillPlan {
    /// What follows the write of the kill file, which had `outcome`.
    pub fn after_kill_file(&self, outcome: &WriteOutcome) -> (r: KillStep)
        ensures
            match *outcome {
                WriteOutcome::Written => r is Done,
                WriteOutcome::Absent => r is SignalEach,
                WriteOutcome::Failed(failure) => r matches KillStep::Failed(e) && is_write_error(
                    e,
                    self.kill_file.path@,
                    failure,
                ),
            },
    {
        match outcome {
            WriteOutcome::Written => KillStep::Done,
            WriteOutcome::Absent => KillStep::SignalEach,
            WriteOutcome::Failed(failure) => KillStep::Failed(
                CgroupController::write_error(self.kill_file.path.as_str(), failure),
            ),
        }
    }
}

impl DestroyPlan {
    /// The first stage: the processes are killed before anything else.
    pub fn first_stage(&self) -> (r: DestroyStage)
        ensures
            r == DestroyStage::Kill,
    {
        DestroyStage::Kill
    }

    /// The stage after `stage`, or none where the removal ends: after the
    /// directory is removed, or with the failure of `stage`. The
    /// directory is removed only after the kill and the wait.
    pub fn next_stage(&self, stage: DestroyStage, succeeded: bool) -> (r: Option<DestroyStage>)
        ensures
            !succeeded ==> r is None,
            succeeded && stage == DestroyStage::Kill ==> r == Some(DestroyStage::Settle),
            succeeded && stage == DestroyStage::Settle ==> r == Some(DestroyStage::Remove),
            succeeded && stage == DestroyStage::Remove ==> r is None,
    {
        if !succeeded {
            return None;
        }
        match stage {
            DestroyStage::Kill => Some(DestroyStage::Settle),
            DestroyStage::Settle => Some(DestroyStage::Remove),
            DestroyStage::Remove => None,
        }
    }
}

/// The first reading of the line `usage_usec`: the second word of the first
/// line that starts with `usage_usec` and has two words, read as a number.
pub open spec fn usage_scan(ls: Seq<Seq<char>>) -> Option<Result<nat, ParseFailure>>
    decreases ls.len(),
{
    if ls.len() == 0 {
        None
    } else if starts_with(ls[0], "usage_usec"@) && words(ls[0]).len() >= 2 {
        Some(parse_unsigned(words(ls[0])[1], u64::MAX as nat))
    } else {
        usage_scan(ls.drop_first())
    }
}

/// The process ids among `ls`: each line that, without the white space
/// around it, is a number that fits 32 bits.
pub open spec fn pids(ls: Seq<Seq<char>>) -> Seq<u32>
    decreases ls.len(),
{
    if ls.len() == 0 {
        Seq::<u32>::empty()
    } else {
        match parse_unsigned(trim(ls.last()), u32::MAX as nat) {
            Ok(n) => pids(ls.drop_last()).push(n as u32),
            Err(_) => pids(ls.drop_last()),
        }
    }
}

/// The signals that kill the processes `ps`, one each, in order.
pub open spec fn kill_calls(ps: Seq<u32>) -> Seq<KillCall> {
    Seq::new(ps.len(), |i: int| KillCall { pid: ps[i] as i32, signal: 9 })
}

/// How a full set of limits goes out.
pub enum BatchedPlan {
    /// As the plain writes of `batch`, which is emptied once they are done.
    Ring { batch: IoUringCgroup, plan: Vec<BatchWrite> },
    /// File by file.
    Direct(Vec<FileWrite>),
}

/// The configuration behind an optional reference.
pub open spec fn config_of(io: Option<&IoConfig>) -> Option<IoConfig> {
    match io {
        Some(config) => Some(*config),
        None => None,
    }
}

/// The batch for the cgroup at `dir` after the three main limits are
/// queued: `cpu.max`, `memory.max` and, where I/O limits are given,
/// `io.max` with the two bandwidths.
pub open spec fn batch_of(
    dir: Seq<char>,
    cpu: CpuConfig,
    memory: MemoryConfig,
    io: Option<IoConfig>,
) -> BatchView {
    let empty = BatchView { dir: dir, pending: Seq::<CgroupOpView>::empty(), op_counter: 0 };
    let two = empty.queued("cpu.max"@, cpu_max_wire(cpu.quota_us, cpu.period_us)).queued(
        "memory.max"@,
        memory_max_wire(memory.max),
    );
    match io {
        Some(config) => two.queued(
            "io.max"@,
            io_wire(config.device@, config.rbps, config.wbps, u64::MAX, u64::MAX),
        ),
        None => two,
    }
}

/// The controller of one container's cgroup.
pub struct CgroupController {
    path: String,
    container_id: String,
}

impl CgroupController {
    /// The directory of this cgroup.
    pub closed spec fn dir(&self) -> Seq<char> {
        self.path@
    }

    /// The identifier of the container.
    pub closed spec fn id(&self) -> Seq<char> {
        self.container_id@
    }

    /// The directory of the cgroup of the container `container_id`.
    pub fn cgroup_path(container_id: &str) -> (r: String)
        ensures
            r@ == join(ALICE_CGROUP@, container_id@),
    {
        join_path(ALICE_CGROUP, container_id)
    }

    /// The controller of a new cgroup for `container_id`, and the steps
    /// that create it.
    pub fn create(container_id: &str) -> (r: (Self, CreatePlan))
        ensures
            r.0.dir() == join(ALICE_CGROUP@, container_id@),
            r.0.id() == container_id@,
            creates(r.1, r.0.dir()),
    {
        let controller = Self {
            path: Self::cgroup_path(container_id),
            container_id: String::from_str(container_id),
        };
        let enable = controller.enable_controllers();
        let plan = CreatePlan {
            root: String::from_str(ALICE_CGROUP),
            dir: controller.path.clone(),
            enable,
        };
        (controller, plan)
    }

    /// The controller of the cgroup of `container_id`, which must exist:
    /// `exists` says whether the directory `cgroup_path(container_id)` does.
    pub fn open(container_id: &str, exists: bool) -> (r: Result<Self, CgroupError>)
        ensures
            exists ==> r is Ok && r->Ok_0.dir() == join(ALICE_CGROUP@, container_id@)
                && r->Ok_0.id() == container_id@,
            !exists ==> (r matches Err(CgroupError::NotFound(p)) && p@ == join(
                ALICE_CGROUP@,
                container_id@,
            )),
    {
        let path = Self::cgroup_path(container_id);
        if !exists {
            return Err(CgroupError::NotFound(path));
        }
        Ok(Self { path, container_id: String::from_str(container_id) })
    }

    /// The writes that enable the CPU, memory and I/O controllers for the
    /// cgroups below the subtree root.
    pub fn enable_controllers(&self) -> (r: EnablePlan)
        ensures
            r.combined@ == file_write(
                ALICE_CGROUP@,
                "cgroup.subtree_control"@,
                "+cpu +memory +io"@,
                true,
            ),
            writes(r.separate@) == seq![
                file_write(ALICE_CGROUP@, "cgroup.subtree_control"@, "+cpu"@, false),
                file_write(ALICE_CGROUP@, "cgroup.subtree_control"@, "+memory"@, false),
                file_write(ALICE_CGROUP@, "cgroup.subtree_control"@, "+io"@, false),
            ],
    {
        let combined = FileWrite {
            path: join_path(ALICE_CGROUP, "cgroup.subtree_control"),
            content: String::from_str("+cpu +memory +io"),
            only_if_exists: true,
        };
        let mut separate: Vec<FileWrite> = Vec::new();
        separate.push(
            FileWrite {
                path: join_path(ALICE_CGROUP, "cgroup.subtree_control"),
                content: String::from_str("+cpu"),
                only_if_exists: false,
            },
        );
        separate.push(
            FileWrite {
                path: join_path(ALICE_CGROUP, "cgroup.subtree_control"),
                content: String::from_str("+memory"),
                only_if_exists: false,
            },
        );
        separate.push(
            FileWrite {
                path: join_path(ALICE_CGROUP, "cgroup.subtree_control"),
                content: String::from_str("+io"),
                only_if_exists: false,
            },
        );
        assert(writes(separate@) =~= seq![
            file_write(ALICE_CGROUP@, "cgroup.subtree_control"@, "+cpu"@, false),
            file_write(ALICE_CGROUP@, "cgroup.subtree_control"@, "+memory"@, false),
            file_write(ALICE_CGROUP@, "cgroup.subtree_control"@, "+io"@, false),
        ]);
        EnablePlan { combined, separate }
    }

    fn write_to(&self, name: &str, content: String, only_if_exists: bool) -> (r: FileWrite)
        ensures
            r@ == file_write(self.dir(), name@, content@, only_if_exists),
    {
        FileWrite { path: join_path(self.path.as_str(), name), content, only_if_exists }
    }

    /// The writes that set the CPU limits `config`.
    pub fn set_cpu(&self, config: &CpuConfig) -> (r: Vec<FileWrite>)
        ensures
            writes(r@) == cpu_writes(self.dir(), *config),
    {
        let mut out: Vec<FileWrite> = Vec::new();
        out.push(self.write_to("cpu.max", config.to_cpu_max(), false));
        out.push(self.write_to("cpu.weight", u64_to_string(config.weight as u64), true));
        out
    }

    /// The writes that set the CPU quota and period, at the default weight.
    pub fn set_cpu_max(&self, quota_us: u64, period_us: u64) -> (r: Vec<FileWrite>)
        ensures
            writes(r@) == cpu_writes(
                self.dir(),
                CpuConfig { quota_us: quota_us, period_us: period_us, weight: 100 },
            ),
    {
        let config = CpuConfig { quota_us, period_us, weight: 100 };
        self.set_cpu(&config)
    }

    /// The writes that set the memory limits `config`.
    pub fn set_memory(&self, config: &MemoryConfig) -> (r: Vec<FileWrite>)
        ensures
            writes(r@) == memory_writes(self.dir(), *config),
    {
        let mut out: Vec<FileWrite> = Vec::new();
        let max_str = if config.max == u64::MAX {
            String::from_str("max")
        } else {
            u64_to_string(config.max)
        };
        out.push(self.write_to("memory.max", max_str, false));
        if config.high != u64::MAX {
            out.push(self.write_to("memory.high", u64_to_string(config.high), true));
        }
        if config.min > 0 {
            out.push(self.write_to("memory.min", u64_to_string(config.min), true));
        }
        let val = if config.oom_kill {
            "1"
        } else {
            "0"
        };
        out.push(self.write_to("memory.oom.group", String::from_str(val), true));
        out
    }

    /// The writes that set a memory limit of `bytes`, throttled from nine
    /// tenths of it on.
    pub fn set_memory_max(&self, bytes: u64) -> (r: Vec<FileWrite>)
        ensures
            writes(r@) == memory_writes(
                self.dir(),
                MemoryConfig {
                    max: bytes,
                    high: ((bytes as int * 90) / 100) as u64,
                    min: 0,
                    oom_kill: true,
                },
            ),
    {
        let config = MemoryConfig::with_limit(bytes);
        self.set_memory(&config)
    }

    /// The write that sets the I/O limits `config`.
    pub fn set_io(&self, config: &IoConfig) -> (r: Vec<FileWrite>)
        ensures
            writes(r@) == io_writes(self.dir(), *config),
    {
        let mut out: Vec<FileWrite> = Vec::new();
        out.push(self.write_to("io.max", config.to_io_max(), true));
        out
    }

    /// The write that sets the read and write bandwidth of `device`.
    pub fn set_io_max(&self, device: &str, rbps: u64, wbps: u64) -> (r: Vec<FileWrite>)
        ensures
            writes(r@) == seq![
                file_write(
                    self.dir(),
                    "io.max"@,
                    io_wire(device@, rbps, wbps, u64::MAX, u64::MAX),
                    true,
                ),
            ],
    {
        let mut config = IoConfig::new(device);
        config.rbps = rbps;
        config.wbps = wbps;
        self.set_io(&config)
    }

    /// The writes of a full set of limits, one file after the other: CPU,
    /// then memory, then I/O. A write that fails ends the operation and
    /// leaves the writes before it in place.
    pub fn set_all_direct(
        &self,
        cpu: &CpuConfig,
        memory: &MemoryConfig,
        io: Option<&IoConfig>,
    ) -> (r: Vec<FileWrite>)
        ensures
            writes(r@) == all_writes(self.dir(), *cpu, *memory, config_of(io)),
    {
        let mut out = self.set_cpu(cpu);
        append_writes(&mut out, self.set_memory(memory));
        match io {
            Some(config) => {
                append_writes(&mut out, self.set_io(config));
            },
            None => {},
        }
        out
    }

    /// How to set a full set of limits at once. With a ring, the three
    /// main limits are queued as one batch, CPU, then memory, then I/O, and
    /// go out as the plain writes of that batch. Without one, because the
    /// kernel could not set it up, every limit is written file by file in the
    /// same order.
    pub fn set_all_batched(
        &self,
        cpu: &CpuConfig,
        memory: &MemoryConfig,
        io: Option<&IoConfig>,
        ring: Option<IoUring>,
    ) -> (r: BatchedPlan)
        ensures
            ring is None ==> (r matches BatchedPlan::Direct(plan) && writes(plan@) == all_writes(
                self.dir(),
                *cpu,
                *memory,
                config_of(io),
            )),
            ring matches Some(io_ring) ==> (r matches BatchedPlan::Ring { batch, plan }
                && batch.ring_of() == io_ring && batch@ == batch_of(
                self.dir(),
                *cpu,
                *memory,
                config_of(io),
            ) && batch_writes(plan@) == Seq::new(
                batch@.pending.len(),
                |i: int| batch_write(self.dir(), batch@.pending[i]),
            )),
    {
        match ring {
            None => BatchedPlan::Direct(self.set_all_direct(cpu, memory, io)),
            Some(io_ring) => {
                let mut batch = IoUringCgroup::new(io_ring, self.path.as_str());
                batch.queue_cpu_max(cpu.quota_us, cpu.period_us);
                batch.queue_memory_max(memory.max);
                match io {
                    Some(config) => {
                        batch.queue_io_max(config.device.as_str(), config.rbps, config.wbps);
                    },
                    None => {},
                }
                let plan = batch.sync_batch_write();
                BatchedPlan::Ring { batch, plan }
            },
        }
    }

    /// The error for a batch that failed: an I/O error with the text of
    /// the ring's error.
    pub fn batch_error(error: &IoUringError) -> (r: CgroupError)
        ensures
            r matches CgroupError::IoError(m) && m@ == error.message(),
    {
        CgroupError::IoError(error.to_string())
    }

    /// The write that makes the process `pid` a member of this cgroup.
    pub fn add_process(&self, pid: u32) -> (r: FileWrite)
        ensures
            r@ == file_write(self.dir(), "cgroup.procs"@, decimal(pid as nat), false),
    {
        self.write_to("cgroup.procs", u64_to_string(pid as u64), false)
    }

    /// The write that freezes every process of this cgroup.
    pub fn freeze(&self) -> (r: FileWrite)
        ensures
            r@ == file_write(self.dir(), "cgroup.freeze"@, "1"@, true),
    {
        self.write_to("cgroup.freeze", String::from_str("1"), true)
    }

    /// The write that lets the processes of this cgroup run again.
    pub fn unfreeze(&self) -> (r: FileWrite)
        ensures
            r@ == file_write(self.dir(), "cgroup.freeze"@, "0"@, true),
    {
        self.write_to("cgroup.freeze", String::from_str("0"), true)
    }

    /// How to kill every process of this cgroup.
    pub fn kill_all(&self) -> (r: KillPlan)
        ensures
            kills(r, self.dir()),
    {
        KillPlan {
            kill_file: self.write_to("cgroup.kill", String::from_str("1"), true),
            procs_file: join_path(self.path.as_str(), "cgroup.procs"),
        }
    }

    /// How to remove this cgroup.
    pub fn destroy(self) -> (r: DestroyPlan)
        ensures
            destroys(r, self.dir()),
    {
        let kill = self.kill_all();
        DestroyPlan { kill, settle_millis: 100, remove_dir: self.path }
    }

    /// The directory of this cgroup.
    pub fn path(&self) -> (r: &str)
        ensures
            r@ == self.dir(),
    {
        self.path.as_str()
    }

    /// The identifier of the container.
    pub fn container_id(&self) -> (r: &str)
        ensures
            r@ == self.id(),
    {
        self.container_id.as_str()
    }

    /// The error for a write to `path` that failed: permission denied and
    /// file not found on opening are told apart, anything else is an I/O error.
    pub fn write_error(path: &str, failure: &FileFailure) -> (r: CgroupError)
        ensures
            is_write_error(r, path@, *failure),
    {
        match failure.stage {
            FileStage::Open => match failure.kind {
                FailureKind::PermissionDenied => CgroupError::PermissionDenied,
                FailureKind::NotFound => CgroupError::NotFound(String::from_str(path)),
                FailureKind::Other => CgroupError::IoError(failure.message.clone()),
            },
            FileStage::Transfer => CgroupError::IoError(failure.message.clone()),
        }
    }

    /// The error for a read of `path` that failed: file not found on opening
    /// is told apart, anything else is an I/O error.
    pub fn read_error(path: &str, failure: &FileFailure) -> (r: CgroupError)
        ensures
            failure.stage == FileStage::Open && failure.kind == FailureKind::NotFound
                ==> (r matches CgroupError::NotFound(p) && p@ == path@),
            failure.stage == FileStage::Transfer || failure.kind != FailureKind::NotFound
                ==> (r matches CgroupError::IoError(m) && m@ == failure.message@),
    {
        match failure.stage {
            FileStage::Open => match failure.kind {
                FailureKind::NotFound => CgroupError::NotFound(String::from_str(path)),
                _ => CgroupError::IoError(failure.message.clone()),
            },
            FileStage::Transfer => CgroupError::IoError(failure.message.clone()),
        }
    }
}

/// What the content of `memory.current` says: the number that it holds
/// between white space.
pub open spec fn memory_reading(content: Seq<char>) -> Result<nat, ParseFailure> {
    parse_unsigned(trim(content), u64::MAX as nat)
}

fn invalid_parameter(failure: ParseFailure) -> (r: CgroupError)
    ensures
        r matches CgroupError::InvalidParameter(m) && m@ == failure.message(),
{
    CgroupError::InvalidParameter(failure.to_string())
}

proof fn lemma_usage_scan_skip(ls: Seq<Seq<char>>, i: int)
    requires
        0 <= i < ls.len(),
        !(starts_with(ls[i], "usage_usec"@) && words(ls[i]).len() >= 2),
    ensures
        usage_scan(ls.skip(i)) == usage_scan(ls.skip(i + 1)),
{
    assert(ls.skip(i).drop_first() =~= ls.skip(i + 1));
}

impl CgroupController {
    /// The file that holds the memory in use.
    pub fn memory_current_path(&self) -> (r: String)
        ensures
            r@ == join(self.dir(), "memory.current"@),
    {
        join_path(self.path.as_str(), "memory.current")
    }

    /// The file that holds the CPU statistics.
    pub fn cpu_stat_path(&self) -> (r: String)
        ensures
            r@ == join(self.dir(), "cpu.stat"@),
    {
        join_path(self.path.as_str(), "cpu.stat")
    }

    /// The file that lists the member processes.
    pub fn procs_path(&self) -> (r: String)
        ensures
            r@ == join(self.dir(), "cgroup.procs"@),
    {
        join_path(self.path.as_str(), "cgroup.procs")
    }

    /// The memory in use, in bytes, from the content of `memory.current`.
    pub fn memory_current(&self, content: &str) -> (r: Result<u64, CgroupError>)
        ensures
            match memory_reading(content@) {
                Ok(n) => r == Ok::<u64, CgroupError>(n as u64) && n <= u64::MAX,
                Err(failure) => r matches Err(CgroupError::InvalidParameter(m)) && m@
                    == failure.message(),
            },
    {
        let chars = to_chars(content);
        let body = trimmed(&chars);
        match parse_number(&body, u64::MAX) {
            Ok(n) => Ok(n),
            Err(failure) => Err(invalid_parameter(failure)),
        }
    }

    /// The CPU time used, in microseconds, from the content of `cpu.stat`.
    pub fn cpu_usage_us(&self, content: &str) -> (r: Result<u64, CgroupError>)
        ensures
            match usage_scan(lines(content@)) {
                Some(Ok(n)) => r == Ok::<u64, CgroupError>(n as u64) && n <= u64::MAX,
                Some(Err(failure)) => r matches Err(CgroupError::InvalidParameter(m)) && m@
                    == failure.message(),
                None => r matches Err(CgroupError::InvalidParameter(m)) && m@
                    == "usage_usec not found"@,
            },
    {
        let chars = to_chars(content);
        let ls = split_lines(&chars);
        let ghost all = lines(content@);
        let n: usize = ls.len();
        let mut i: usize = 0;
        assert(all.skip(0) =~= all);
        while i < n
            invariant
                n == ls@.len(),
                i <= n,
                rows(ls@) == all,
                all == lines(content@),
                usage_scan(all) == usage_scan(all.skip(i as int)),
            decreases n - i,
        {
            let line = &ls[i];
            if has_prefix(line, "usage_usec") {
                let ws = split_words(line);
                if ws.len() >= 2 {
                    return match parse_number(&ws[1], u64::MAX) {
                        Ok(v) => Ok(v),
                        Err(failure) => Err(invalid_parameter(failure)),
                    };
                }
            }
            proof {
                lemma_usage_scan_skip(all, i as int);
            }
            i = i + 1;
        }
        Err(CgroupError::InvalidParameter(String::from_str("usage_usec not found")))
    }

    /// The member processes, from the content of `cgroup.procs`: one per
    /// line; a line that holds no process id is passed over.
    pub fn processes(&self, content: &str) -> (r: Vec<u32>)
        ensures
            r@ == pids(lines(content@)),
    {
        read_pids(content)
    }

    /// The signals that kill the processes that `procs` lists, for a
    /// kernel without `cgroup.kill`.
    pub fn kill_each(&self, procs: &str) -> (r: Vec<KillCall>)
        ensures
            r@ == kill_calls(pids(lines(procs@))),
    {
        signals_for(procs)
    }
}

fn read_pids(content: &str) -> (r: Vec<u32>)
    ensures
        r@ == pids(lines(content@)),
{
    let chars = to_chars(content);
    let ls = split_lines(&chars);
    let ghost all = lines(content@);
    let mut out: Vec<u32> = Vec::new();
    let n: usize = ls.len();
    let mut i: usize = 0;
    while i < n
        invariant
            n == ls@.len(),
            i <= n,
            rows(ls@) == all,
            out@ == pids(all.take(i as int)),
        decreases n - i,
    {
        let line = &ls[i];
        assert(all.take(i + 1).drop_last() =~= all.take(i as int));
        let body = trimmed(line);
        match parse_number(&body, 0xffff_ffff) {
            Ok(v) => {
                out.push(v as u32);
            },
            Err(_) => {},
        }
        i = i + 1;
    }
    assert(all.take(n as int) =~= all);
    out
}

fn signals_for(procs: &str) -> (r: Vec<KillCall>)
    ensures
        r@ == kill_calls(pids(lines(procs@))),
{
    let ps = read_pids(procs);
    let signal: i32 = sigkill();
    let mut out: Vec<KillCall> = Vec::new();
    let mut i: usize = 0;
    while i < ps.len()
        invariant
            i <= ps@.len(),
            signal == 9,
            out@.len() == i,
            forall|j: int|
                0 <= j < i ==> out@[j] == (KillCall { pid: ps@[j] as i32, signal: 9 }),
        decreases ps@.len() - i,
    {
        out.push(KillCall { pid: ps[i] as i32, signal });
        i = i + 1;
    }
    out
}

impl KillPlan {
    /// The signals that kill the processes that the content of
    /// `procs_file` lists, for a kernel without `cgroup.kill`.
    pub fn signal_each(&self, procs: &str) -> (r: Vec<KillCall>)
        ensures
            r@ == kill_calls(pids(lines(procs@))),
    {
        signals_for(procs)
    }
}


/// A plan is carried out in its order and ends at the first write that
/// fails: after a write the next step is the write that follows it, the
/// end, or the failure of that write, and it is a failure whenever the
/// write failed. Nothing is ever undone.
pub proof fn lemma_plan_in_order(
    plan: Seq<FileWrite>,
    index: int,
    outcome: WriteOutcome,
    step: PlanStep,
)
    requires
        0 <= index < plan.len(),
        is_next_step(step, plan, index, outcome),
    ensures
        step matches PlanStep::Write { index: i, .. } ==> i == index + 1,
        step is Done ==> index + 1 == plan.len(),
        outcome is Failed ==> step is Failed,
        outcome is Written ==> !(step is Failed),
        outcome is Absent ==> (step is Failed <==> !plan[index].only_if_exists),
{
}

} // verus!
