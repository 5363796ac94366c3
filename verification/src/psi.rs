//! Pressure stall information (PSI): what the pressure files say, the
//! triggers that make the kernel report pressure, the events that follow,
//! and a scheduler that raises the CPU quota when they come.
//!
//! A trigger fires when tasks stall for more than a threshold within a
//! window of time. Averages are held in hundredths of a percent.

use vstd::prelude::*;
use vstd::string::*;
use crate::sys::{eintr, epollpri};
use crate::text::{
    concat2, decimal, digit_run, digit_value, find_char, first_index_of, has_prefix, is_digit,
    join, join_path, lemma_digit_run, lines, parse_number, parse_unsigned, push_decimal,
    push_signed_decimal, rows, same_text, signed_decimal, split_lines, split_words, starts_with,
    sub_vec, to_chars, words,
};
use crate::scheduler::scaled;

verus! {

/// The resource whose pressure is watched.
#[derive(Debug, Clone, Copy, PartialEq, Eq, Structural)]
pub enum PsiResource {
    /// CPU pressure.
    Cpu,
    /// Memory pressure.
    Memory,
    /// I/O pressure.
    Io,
}

impl PsiResource {
    /// The system-wide pressure file of this resource.
    pub open spec fn proc_file(self) -> Seq<char> {
        match self {
            PsiResource::Cpu => "/proc/pressure/cpu"@,
            PsiResource::Memory => "/proc/pressure/memory"@,
            PsiResource::Io => "/proc/pressure/io"@,
        }
    }

    /// The name of the pressure file of this resource in a cgroup.
    pub open spec fn cgroup_name(self) -> Seq<char> {
        match self {
            PsiResource::Cpu => "cpu.pressure"@,
            PsiResource::Memory => "memory.pressure"@,
            PsiResource::Io => "io.pressure"@,
        }
    }

    /// The system-wide pressure file of this resource.
    pub fn proc_path(&self) -> (r: &'static str)
        ensures
            r@ == self.proc_file(),
    {
        match self {
            PsiResource::Cpu => "/proc/pressure/cpu",
            PsiResource::Memory => "/proc/pressure/memory",
            PsiResource::Io => "/proc/pressure/io",
        }
    }

    /// The name of the pressure file of this resource in a cgroup.
    pub fn cgroup_file(&self) -> (r: &'static str)
        ensures
            r@ == self.cgroup_name(),
    {
        match self {
            PsiResource::Cpu => "cpu.pressure",
            PsiResource::Memory => "memory.pressure",
            PsiResource::Io => "io.pressure",
        }
    }
}

/// How many tasks stall.
#[derive(Debug, Clone, Copy, PartialEq, Eq, Structural)]
pub enum PsiLevel {
    /// Some tasks stall, not all.
    Partial,
    /// All tasks stall.
    Full,
}

impl PsiLevel {
    /// The word for this level in a pressure file.
    pub open spec fn word(self) -> Seq<char> {
        match self {
            PsiLevel::Partial => "some"@,
            PsiLevel::Full => "full"@,
        }
    }

    /// The word for this level in a pressure file.
    pub fn as_str(&self) -> (r: &'static str)
        ensures
            r@ == self.word(),
    {
        match self {
            PsiLevel::Partial => "some",
            PsiLevel::Full => "full",
        }
    }
}

/// A trigger: it fires when the stall time of `resource` at `level`
/// exceeds `threshold_us` within `window_us`.
#[derive(Debug, Clone, Copy, PartialEq, Eq, Structural)]
pub struct PsiTrigger {
    /// Resource to watch.
    pub resource: PsiResource,
    /// Pressure level.
    pub level: PsiLevel,
    /// Stall time threshold in microseconds.
    pub threshold_us: u64,
    /// Time window in microseconds.
    pub window_us: u64,
}

impl PsiTrigger {
    /// The line that registers this trigger: level, threshold, window.
    pub open spec fn wire(self) -> Seq<char> {
        self.level.word() + " "@ + decimal(self.threshold_us as nat) + " "@ + decimal(
            self.window_us as nat,
        )
    }

    /// A trigger with these values.
    pub fn new(resource: PsiResource, level: PsiLevel, threshold_us: u64, window_us: u64) -> (r:
        Self)
        ensures
            r == (PsiTrigger {
                resource: resource,
                level: level,
                threshold_us: threshold_us,
                window_us: window_us,
            }),
    {
        Self { resource, level, threshold_us, window_us }
    }

    /// A trigger on some tasks stalling for the CPU.
    pub fn cpu_some(threshold_us: u64, window_us: u64) -> (r: Self)
        ensures
            r == (PsiTrigger {
                resource: PsiResource::Cpu,
                level: PsiLevel::Partial,
                threshold_us: threshold_us,
                window_us: window_us,
            }),
    {
        Self::new(PsiResource::Cpu, PsiLevel::Partial, threshold_us, window_us)
    }

    /// A trigger on all tasks stalling for the CPU.
    pub fn cpu_full(threshold_us: u64, window_us: u64) -> (r: Self)
        ensures
            r == (PsiTrigger {
                resource: PsiResource::Cpu,
                level: PsiLevel::Full,
                threshold_us: threshold_us,
                window_us: window_us,
            }),
    {
        Self::new(PsiResource::Cpu, PsiLevel::Full, threshold_us, window_us)
    }

    /// A trigger on memory pressure.
    pub fn memory(level: PsiLevel, threshold_us: u64, window_us: u64) -> (r: Self)
        ensures
            r == (PsiTrigger {
                resource: PsiResource::Memory,
                level: level,
                threshold_us: threshold_us,
                window_us: window_us,
            }),
    {
        Self::new(PsiResource::Memory, level, threshold_us, window_us)
    }

    /// A trigger on I/O pressure.
    pub fn io(level: PsiLevel, threshold_us: u64, window_us: u64) -> (r: Self)
        ensures
            r == (PsiTrigger {
                resource: PsiResource::Io,
                level: level,
                threshold_us: threshold_us,
                window_us: window_us,
            }),
    {
        Self::new(PsiResource::Io, level, threshold_us, window_us)
    }

    /// The line that registers this trigger.
    pub fn to_trigger_string(&self) -> (r: String)
        ensures
            r@ == self.wire(),
    {
        let mut out = String::from_str(self.level.as_str());
        out.append(" ");
        push_decimal(&mut out, self.threshold_us);
        out.append(" ");
        push_decimal(&mut out, self.window_us);
        out
    }
}

/// One line of a pressure file. The averages are in hundredths of a percent.
#[derive(Debug, Clone, Copy, PartialEq, Eq, Structural)]
pub struct PsiStatLine {
    /// Average over 10 seconds, in hundredths of a percent.
    pub avg10: u64,
    /// Average over 60 seconds, in hundredths of a percent.
    pub avg60: u64,
    /// Average over 300 seconds, in hundredths of a percent.
    pub avg300: u64,
    /// Total stall time in microseconds.
    pub total: u64,
}

/// The statistics of a pressure file.
#[derive(Debug, Clone, Copy, PartialEq, Eq, Structural)]
pub struct PsiStats {
    /// The line for some tasks stalling.
    pub some: PsiStatLine,
    /// The line for all tasks stalling, which the CPU file may lack.
    pub full: Option<PsiStatLine>,
}

/// The largest whole part of an average whose hundredths fit 64 bits.
pub const WHOLE_MAX: u64 = 184467440737095515;

/// The digit at index `i` of `frac` as a number; 0 past its end.
pub open spec fn frac_digit(frac: Seq<char>, i: int) -> nat {
    if 0 <= i < frac.len() {
        digit_value(frac[i])
    } else {
        0
    }
}

/// What a decimal number with an optional fraction makes in hundredths,
/// rounded down: digits, then optionally a point and digits. Anything
/// else, and a number too large, makes 0.
pub open spec fn centi(s: Seq<char>) -> u64 {
    let dot = first_index_of(s, '.') as int;
    let whole = s.take(dot);
    let frac = if dot < s.len() {
        s.skip(dot + 1)
    } else {
        Seq::<char>::empty()
    };
    match parse_unsigned(whole, WHOLE_MAX as nat) {
        Ok(n) => if digit_run(frac) == frac.len() {
            (n * 100 + frac_digit(frac, 0) * 10 + frac_digit(frac, 1)) as u64
        } else {
            0
        },
        Err(_) => 0,
    }
}

/// The number that `value` writes, or 0 where it writes none that fits.
pub open spec fn total_of(value: Seq<char>) -> u64 {
    match parse_unsigned(value, u64::MAX as nat) {
        Ok(n) => n as u64,
        Err(_) => 0,
    }
}

/// `stat` after the word `part`: where it is `key=value` with one of the
/// four known keys, that field takes the value.
pub open spec fn stat_field(stat: PsiStatLine, part: Seq<char>) -> PsiStatLine {
    let eq = first_index_of(part, '=') as int;
    if eq >= part.len() {
        stat
    } else {
        let key = part.take(eq);
        let value = part.skip(eq + 1);
        if key == "avg10"@ {
            PsiStatLine { avg10: centi(value), ..stat }
        } else if key == "avg60"@ {
            PsiStatLine { avg60: centi(value), ..stat }
        } else if key == "avg300"@ {
            PsiStatLine { avg300: centi(value), ..stat }
        } else if key == "total"@ {
            PsiStatLine { total: total_of(value), ..stat }
        } else {
            stat
        }
    }
}

/// The statistics that the words `parts` give, read from first to last.
pub open spec fn stat_fields(parts: Seq<Seq<char>>) -> PsiStatLine
    decreases parts.len(),
{
    if parts.len() == 0 {
        PsiStatLine::zero()
    } else {
        stat_field(stat_fields(parts.drop_last()), parts.last())
    }
}

/// The statistics of one line: those of its words after the first.
pub open spec fn line_stats(line: Seq<char>) -> PsiStatLine {
    if words(line).len() == 0 {
        PsiStatLine::zero()
    } else {
        stat_fields(words(line).skip(1))
    }
}

/// `stats` after one line of a pressure file: a line that starts with
/// `some` or `full` sets that part.
pub open spec fn stats_line(stats: PsiStats, line: Seq<char>) -> PsiStats {
    if starts_with(line, "some"@) {
        PsiStats { some: line_stats(line), ..stats }
    } else if starts_with(line, "full"@) {
        PsiStats { full: Some(line_stats(line)), ..stats }
    } else {
        stats
    }
}

/// The statistics that the lines `ls` give, read from first to last.
pub open spec fn stats_lines(ls: Seq<Seq<char>>) -> PsiStats
    decreases ls.len(),
{
    if ls.len() == 0 {
        PsiStats { some: PsiStatLine::zero(), full: None }
    } else {
        stats_line(stats_lines(ls.drop_last()), ls.last())
    }
}

fn all_digits(v: &Vec<char>) -> (r: bool)
    ensures
        r == (digit_run(v@) == v@.len()),
{
    proof {
        lemma_digit_run(v@);
    }
    let mut i: usize = 0;
    while i < v.len()
        invariant
            i <= v@.len(),
            forall|j: int| 0 <= j < i ==> is_digit(#[trigger] v@[j]),
            digit_run(v@) <= v@.len(),
            forall|j: int| 0 <= j < digit_run(v@) ==> is_digit(#[trigger] v@[j]),
            digit_run(v@) == v@.len() || !is_digit(v@[digit_run(v@) as int]),
        decreases v@.len() - i,
    {
        let c: char = v[i];
        if !('0' <= c && c <= '9') {
            return false;
        }
        i = i + 1;
    }
    true
}

fn digit_at(v: &Vec<char>, i: usize) -> (r: u64)
    requires
        digit_run(v@) == v@.len(),
    ensures
        r == frac_digit(v@, i as int),
        r <= 9,
{
    proof {
        lemma_digit_run(v@);
    }
    if i < v.len() {
        let c: char = v[i];
        (c as u32 - '0' as u32) as u64
    } else {
        0
    }
}

fn parse_centi(v: &Vec<char>) -> (r: u64)
    ensures
        r == centi(v@),
{
    let n: usize = v.len();
    let dot: usize = find_char(v, '.');
    let whole = sub_vec(v, 0, dot);
    let frac = if dot < n {
        sub_vec(v, dot + 1, n)
    } else {
        Vec::new()
    };
    assert(frac@ =~= if dot < n {
        v@.skip(dot + 1)
    } else {
        Seq::<char>::empty()
    });
    match parse_number(&whole, WHOLE_MAX) {
        Ok(w) => {
            if all_digits(&frac) {
                w * 100 + digit_at(&frac, 0) * 10 + digit_at(&frac, 1)
            } else {
                0
            }
        },
        Err(_) => 0,
    }
}

fn parse_total(v: &Vec<char>) -> (r: u64)
    ensures
        r == total_of(v@),
{
    match parse_number(v, u64::MAX) {
        Ok(n) => n,
        Err(_) => 0,
    }
}

fn apply_field(stat: PsiStatLine, part: &Vec<char>) -> (r: PsiStatLine)
    ensures
        r == stat_field(stat, part@),
{
    let n: usize = part.len();
    let eq: usize = find_char(part, '=');
    if eq >= n {
        return stat;
    }
    let key = sub_vec(part, 0, eq);
    let value = sub_vec(part, eq + 1, n);
    let mut out = stat;
    if same_text(&key, "avg10") {
        out.avg10 = parse_centi(&value);
    } else if same_text(&key, "avg60") {
        out.avg60 = parse_centi(&value);
    } else if same_text(&key, "avg300") {
        out.avg300 = parse_centi(&value);
    } else if same_text(&key, "total") {
        out.total = parse_total(&value);
    }
    out
}

fn parse_chars(line: &Vec<char>) -> (r: PsiStatLine)
    ensures
        r == line_stats(line@),
{
    let ws = split_words(line);
    let mut stat = PsiStatLine { avg10: 0, avg60: 0, avg300: 0, total: 0 };
    let n: usize = ws.len();
    if n == 0 {
        return stat;
    }
    let ghost parts = words(line@).skip(1);
    let mut i: usize = 1;
    while i < n
        invariant
            n == ws@.len(),
            1 <= i <= n,
            rows(ws@) == words(line@),
            parts == words(line@).skip(1),
            stat == stat_fields(parts.take(i - 1)),
        decreases n - i,
    {
        assert(parts.take(i as int).drop_last() =~= parts.take(i - 1));
        stat = apply_field(stat, &ws[i]);
        i = i + 1;
    }
    assert(parts.take(n - 1) =~= parts);
    stat
}

impl PsiStatLine {
    /// A line that is all zero.
    pub open spec fn zero() -> PsiStatLine {
        PsiStatLine { avg10: 0, avg60: 0, avg300: 0, total: 0 }
    }

    /// The statistics of one line of a pressure file, such as
    /// `some avg10=1.23 avg60=4.56 avg300=7.89 total=123456`. A field
    /// that is missing or cannot be read is 0.
    pub fn parse_line(line: &str) -> (r: Self)
        ensures
            r == line_stats(line@),
    {
        let chars = to_chars(line);
        parse_chars(&chars)
    }
}

impl Default for PsiStatLine {
    fn default() -> (r: Self)
        ensures
            r == PsiStatLine::zero(),
    {
        Self { avg10: 0, avg60: 0, avg300: 0, total: 0 }
    }
}

impl Default for PsiStats {
    fn default() -> (r: Self)
        ensures
            r == (PsiStats { some: PsiStatLine::zero(), full: None }),
    {
        Self { some: PsiStatLine { avg10: 0, avg60: 0, avg300: 0, total: 0 }, full: None }
    }
}

impl PsiStats {
    /// The statistics in the content of a pressure file.
    pub fn parse(content: &str) -> (r: Self)
        ensures
            r == stats_lines(lines(content@)),
    {
        let chars = to_chars(content);
        let ls = split_lines(&chars);
        let ghost all = lines(content@);
        let mut stats = PsiStats {
            some: PsiStatLine { avg10: 0, avg60: 0, avg300: 0, total: 0 },
            full: None,
        };
        let n: usize = ls.len();
        let mut i: usize = 0;
        while i < n
            invariant
                n == ls@.len(),
                i <= n,
                rows(ls@) == all,
                stats == stats_lines(all.take(i as int)),
            decreases n - i,
        {
            let line = &ls[i];
            assert(all.take(i + 1).drop_last() =~= all.take(i as int));
            if has_prefix(line, "some") {
                stats.some = parse_chars(line);
            } else if has_prefix(line, "full") {
                stats.full = Some(parse_chars(line));
            }
            i = i + 1;
        }
        assert(all.take(n as int) =~= all);
        stats
    }
}

/// PSI operation errors.
#[derive(Debug, Clone, PartialEq, Eq)]
pub enum PsiError {
    /// The kernel offers no pressure information.
    NotAvailable,
    /// The kernel refused the trigger.
    TriggerFailed(String),
    /// An epoll call failed with this error number.
    EpollError(i32),
    /// I/O error.
    IoError(String),
    /// Not supported on this platform.
    NotSupported,
}

impl PsiError {
    /// The text that describes this error.
    pub open spec fn message(self) -> Seq<char> {
        match self {
            PsiError::NotAvailable => "PSI not available (requires Linux 4.20+)"@,
            PsiError::TriggerFailed(msg) => "Trigger registration failed: "@ + msg@,
            PsiError::EpollError(e) => "epoll error: errno "@ + signed_decimal(e as int),
            PsiError::IoError(msg) => "I/O error: "@ + msg@,
            PsiError::NotSupported => "PSI not supported on this platform"@,
        }
    }

    /// The text that describes this error.
    pub fn to_string(&self) -> (r: String)
        ensures
            r@ == self.message(),
    {
        match self {
            PsiError::NotAvailable => String::from_str("PSI not available (requires Linux 4.20+)"),
            PsiError::TriggerFailed(msg) => concat2("Trigger registration failed: ", msg.as_str()),
            PsiError::EpollError(e) => {
                let mut out = String::from_str("epoll error: errno ");
                push_signed_decimal(&mut out, *e);
                out
            },
            PsiError::IoError(msg) => concat2("I/O error: ", msg.as_str()),
            PsiError::NotSupported => String::from_str("PSI not supported on this platform"),
        }
    }

    /// The error for a file operation that failed with the system's
    /// message `message`.
    pub fn from_io(message: &str) -> (r: PsiError)
        ensures
            r matches PsiError::IoError(m) && m@ == message@,
    {
        PsiError::IoError(String::from_str(message))
    }
}

/// A pressure event.
#[derive(Debug, Clone, Copy, PartialEq, Eq, Structural)]
pub enum PsiEvent {
    /// CPU pressure.
    CpuPressure { level: PsiLevel, threshold_us: u64, window_us: u64 },
    /// Memory pressure.
    MemoryPressure { level: PsiLevel, threshold_us: u64, window_us: u64 },
    /// I/O pressure.
    IoPressure { level: PsiLevel, threshold_us: u64, window_us: u64 },
}

/// The event that tells that `trigger` fired.
pub open spec fn event_of(trigger: PsiTrigger) -> PsiEvent {
    match trigger.resource {
        PsiResource::Cpu => PsiEvent::CpuPressure {
            level: trigger.level,
            threshold_us: trigger.threshold_us,
            window_us: trigger.window_us,
        },
        PsiResource::Memory => PsiEvent::MemoryPressure {
            level: trigger.level,
            threshold_us: trigger.threshold_us,
            window_us: trigger.window_us,
        },
        PsiResource::Io => PsiEvent::IoPressure {
            level: trigger.level,
            threshold_us: trigger.threshold_us,
            window_us: trigger.window_us,
        },
    }
}

/// How to register a trigger: open `path` for reading and writing, write
/// `content`, and add the open file to the epoll instance for the events
/// `events` under the key `key`. The file stays open for as long as the
/// trigger is to fire.
#[derive(Debug, Clone)]
pub struct TriggerRegistration {
    pub path: String,
    pub content: String,
    pub events: u32,
    pub key: u64,
}

/// The arguments of an `epoll_wait` call.
#[derive(Debug, Clone, Copy, PartialEq, Eq, Structural)]
pub struct EpollWaitCall {
    pub max_events: i32,
    pub timeout_ms: i32,
}

/// The pressure file of `resource`: the one of the cgroup where the
/// monitor watches one, else the system-wide one.
pub open spec fn pressure_file(cgroup: Option<Seq<char>>, resource: PsiResource) -> Seq<char> {
    match cgroup {
        Some(dir) => join(dir, resource.cgroup_name()),
        None => resource.proc_file(),
    }
}

/// A monitor of pressure events: the triggers that are registered, in
/// the order of their keys.
pub struct PsiMonitor {
    triggers: Vec<PsiTrigger>,
    cgroup_path: Option<String>,
}

impl PsiMonitor {
    /// The triggers that are registered; the key of each is its index.
    pub closed spec fn registered(&self) -> Seq<PsiTrigger> {
        self.triggers@
    }

    /// The cgroup that is watched, if it is not the whole system.
    pub closed spec fn cgroup(&self) -> Option<Seq<char>> {
        match self.cgroup_path {
            Some(p) => Some(p@),
            None => None,
        }
    }

    /// A monitor of the whole system, with no trigger yet.
    /// `pressure_available` says whether `/proc/pressure` exists.
    pub fn new(pressure_available: bool) -> (r: Result<Self, PsiError>)
        ensures
            pressure_available ==> (r matches Ok(m) && m.cgroup() == None::<Seq<char>>
                && m.registered().len() == 0),
            !pressure_available ==> r is Err && r->Err_0 == PsiError::NotAvailable,
    {
        Self::with_cgroup(None, pressure_available)
    }

    /// A monitor of the cgroup at `cgroup_path`, with no trigger yet.
    pub fn for_cgroup(cgroup_path: &str, pressure_available: bool) -> (r: Result<Self, PsiError>)
        ensures
            pressure_available ==> (r matches Ok(m) && m.cgroup() == Some(cgroup_path@)
                && m.registered().len() == 0),
            !pressure_available ==> r is Err && r->Err_0 == PsiError::NotAvailable,
    {
        Self::with_cgroup(Some(String::from_str(cgroup_path)), pressure_available)
    }

    fn with_cgroup(cgroup_path: Option<String>, pressure_available: bool) -> (r: Result<
        Self,
        PsiError,
    >)
        ensures
            pressure_available ==> (r matches Ok(m) && m.cgroup() == (match cgroup_path {
                Some(p) => Some(p@),
                None => None,
            }) && m.registered().len() == 0),
            !pressure_available ==> r is Err && r->Err_0 == PsiError::NotAvailable,
    {
        if !pressure_available {
            return Err(PsiError::NotAvailable);
        }
        Ok(Self { triggers: Vec::new(), cgroup_path })
    }

    /// What an epoll call that returned `ret` means: its result, or the
    /// epoll error of `errno`.
    pub fn epoll_result(ret: i32, errno: i32) -> (r: Result<i32, PsiError>)
        ensures
            ret >= 0 ==> r == Ok::<i32, PsiError>(ret),
            ret < 0 ==> r == Err::<i32, PsiError>(PsiError::EpollError(errno)),
    {
        if ret < 0 {
            return Err(PsiError::EpollError(errno));
        }
        Ok(ret)
    }

    /// The pressure file of `resource` that this monitor reads and writes.
    pub fn stats_path(&self, resource: PsiResource) -> (r: String)
        ensures
            r@ == pressure_file(self.cgroup(), resource),
    {
        match &self.cgroup_path {
            Some(dir) => join_path(dir.as_str(), resource.cgroup_file()),
            None => String::from_str(resource.proc_path()),
        }
    }

    /// How to register `trigger`: the file, the trigger line, the
    /// priority event, and the next free key. `trigger_added` notes that
    /// it was done.
    pub fn add_trigger(&self, trigger: &PsiTrigger) -> (r: TriggerRegistration)
        ensures
            r.path@ == pressure_file(self.cgroup(), trigger.resource),
            r.content@ == trigger.wire(),
            r.events == 2,
            r.key == self.registered().len(),
    {
        TriggerRegistration {
            path: self.stats_path(trigger.resource),
            content: trigger.to_trigger_string(),
            events: epollpri() as u32,
            key: self.triggers.len() as u64,
        }
    }

    /// Notes that `trigger` was registered under the next free key.
    pub fn trigger_added(&mut self, trigger: PsiTrigger)
        ensures
            final(self).registered() == old(self).registered().push(trigger),
            final(self).cgroup() == old(self).cgroup(),
    {
        self.triggers.push(trigger);
    }

    /// The `epoll_wait` call that waits for up to `timeout_ms`
    /// milliseconds: room for sixteen events, and the low 32 bits of the
    /// timeout.
    pub fn wait_call(timeout_ms: u128) -> (r: EpollWaitCall)
        ensures
            r.max_events == 16,
            r.timeout_ms == timeout_ms as i32,
    {
        EpollWaitCall { max_events: 16, timeout_ms: timeout_ms as i32 }
    }

    /// The event that an `epoll_wait` call tells of, having returned
    /// `nfds` with the error number `errno` and, where `nfds` is above
    /// zero, the key `key` in its first event. An interrupted wait, a
    /// timeout and a key that stands for no trigger are no event; any
    /// other failure is an epoll error.
    pub fn wait_event(&self, nfds: i32, errno: i32, key: u64) -> (r: Result<
        Option<PsiEvent>,
        PsiError,
    >)
        ensures
            nfds < 0 && errno != 4 ==> r == Err::<Option<PsiEvent>, PsiError>(
                PsiError::EpollError(errno),
            ),
            nfds < 0 && errno == 4 ==> r == Ok::<Option<PsiEvent>, PsiError>(None),
            nfds == 0 ==> r == Ok::<Option<PsiEvent>, PsiError>(None),
            nfds > 0 && key >= self.registered().len() ==> r == Ok::<Option<PsiEvent>, PsiError>(
                None,
            ),
            nfds > 0 && key < self.registered().len() ==> r == Ok::<Option<PsiEvent>, PsiError>(
                Some(event_of(self.registered()[key as int])),
            ),
    {
        if nfds < 0 {
            if errno == eintr() {
                return Ok(None);
            }
            return Err(PsiError::EpollError(errno));
        }
        if nfds == 0 {
            return Ok(None);
        }
        if key < self.triggers.len() as u64 {
            let trigger = &self.triggers[key as usize];
            let psi_event = match trigger.resource {
                PsiResource::Cpu => PsiEvent::CpuPressure {
                    level: trigger.level,
                    threshold_us: trigger.threshold_us,
                    window_us: trigger.window_us,
                },
                PsiResource::Memory => PsiEvent::MemoryPressure {
                    level: trigger.level,
                    threshold_us: trigger.threshold_us,
                    window_us: trigger.window_us,
                },
                PsiResource::Io => PsiEvent::IoPressure {
                    level: trigger.level,
                    threshold_us: trigger.threshold_us,
                    window_us: trigger.window_us,
                },
            };
            return Ok(Some(psi_event));
        }
        Ok(None)
    }

    /// The statistics in the content of the pressure file at `stats_path`.
    pub fn read_stats(&self, content: &str) -> (r: PsiStats)
        ensures
            r == stats_lines(lines(content@)),
    {
        PsiStats::parse(content)
    }

    /// The number of registered triggers.
    pub fn trigger_count(&self) -> (r: usize)
        ensures
            r == self.registered().len(),
    {
        self.triggers.len()
    }

    /// The error for a registration that failed with the system's
    /// message: an I/O error where the file could not be opened, a
    /// refused trigger where the line could not be written.
    pub fn registration_error(opened: bool, message: &str) -> (r: PsiError)
        ensures
            !opened ==> (r matches PsiError::IoError(m) && m@ == message@),
            opened ==> (r matches PsiError::TriggerFailed(m) && m@ == message@),
    {
        if opened {
            PsiError::TriggerFailed(String::from_str(message))
        } else {
            PsiError::IoError(String::from_str(message))
        }
    }
}

/// A write of a quota to `cpu.max`, which is created where it is absent.
#[derive(Debug, Clone)]
pub struct QuotaWrite {
    pub path: String,
    pub content: String,
    pub quota_us: u64,
}

/// The quota after CPU pressure at `level`: for some tasks stalling, the
/// current quota times the burst multiplier, at most the maximum; for
/// all tasks stalling, the maximum.
pub open spec fn pressure_quota(
    level: PsiLevel,
    current: u64,
    max: u64,
    burst_multiplier_milli: u64,
) -> u64 {
    match level {
        PsiLevel::Partial => if scaled(current, burst_multiplier_milli) > max {
            max
        } else {
            scaled(current, burst_multiplier_milli) as u64
        },
        PsiLevel::Full => max,
    }
}

/// The state of a pressure-driven scheduler as plain values.
pub struct PsiSchedulerView {
    /// The directory of the cgroup.
    pub dir: Seq<char>,
    /// The triggers that are registered.
    pub triggers: Seq<PsiTrigger>,
    pub current_quota_us: u64,
    pub min_quota_us: u64,
    pub max_quota_us: u64,
    pub period_us: u64,
    /// Factor by which the quota grows under pressure, in thousandths.
    pub burst_multiplier_milli: u64,
}

impl PsiSchedulerView {
    /// The content of `cpu.max` for `quota_us`: the quota, a space, the period.
    pub open spec fn quota_wire(self, quota_us: u64) -> Seq<char> {
        decimal(quota_us as nat) + " "@ + decimal(self.period_us as nat)
    }

    /// The quota that an event calls for: the one after CPU pressure, or
    /// the current one for any other event.
    pub open spec fn quota_after(self, event: PsiEvent) -> u64 {
        match event {
            PsiEvent::CpuPressure { level, .. } => pressure_quota(
                level,
                self.current_quota_us,
                self.max_quota_us,
                self.burst_multiplier_milli,
            ),
            _ => self.current_quota_us,
        }
    }
}

/// A scheduler that raises the CPU quota of a cgroup when the kernel
/// reports CPU pressure in it.
pub struct PsiScheduler {
    monitor: PsiMonitor,
    cgroup_path: String,
    current_quota_us: u64,
    min_quota_us: u64,
    max_quota_us: u64,
    period_us: u64,
    burst_multiplier_milli: u64,
}

impl View for PsiScheduler {
    type V = PsiSchedulerView;

    closed spec fn view(&self) -> PsiSchedulerView {
        PsiSchedulerView {
            dir: self.cgroup_path@,
            triggers: self.monitor.registered(),
            current_quota_us: self.current_quota_us,
            min_quota_us: self.min_quota_us,
            max_quota_us: self.max_quota_us,
            period_us: self.period_us,
            burst_multiplier_milli: self.burst_multiplier_milli,
        }
    }
}

impl PsiScheduler {
    /// The monitor watches the cgroup that the quota is written to.
    /// Every scheduler that `new` made is so, and stays so.
    pub closed spec fn well_formed(&self) -> bool {
        self.monitor.cgroup() == Some(self.cgroup_path@)
    }

    /// A scheduler for the cgroup at `cgroup_path`: a full period as the
    /// quota and the maximum, a tenth of it as the minimum, a burst
    /// multiplier of one and a half.
    pub fn new(cgroup_path: &str, pressure_available: bool) -> (r: Result<Self, PsiError>)
        ensures
            pressure_available ==> (r matches Ok(s) && s.well_formed() && s@ == (PsiSchedulerView {
                dir: cgroup_path@,
                triggers: Seq::<PsiTrigger>::empty(),
                current_quota_us: 100_000,
                min_quota_us: 10_000,
                max_quota_us: 100_000,
                period_us: 100_000,
                burst_multiplier_milli: 1500,
            })),
            !pressure_available ==> r is Err && r->Err_0 == PsiError::NotAvailable,
    {
        let monitor = match PsiMonitor::for_cgroup(cgroup_path, pressure_available) {
            Ok(m) => m,
            Err(e) => {
                return Err(e);
            },
        };
        assert(monitor.registered() =~= Seq::<PsiTrigger>::empty());
        Ok(
            Self {
                monitor,
                cgroup_path: String::from_str(cgroup_path),
                current_quota_us: 100_000,
                min_quota_us: 10_000,
                max_quota_us: 100_000,
                period_us: 100_000,
                burst_multiplier_milli: 1500,
            },
        )
    }

    /// The same scheduler with other bounds and another quota to start from.
    pub fn configure(self, min_quota_us: u64, max_quota_us: u64, initial_quota_us: u64) -> (r:
        Self)
        ensures
            self.well_formed() ==> r.well_formed(),
            r@ == (PsiSchedulerView {
                min_quota_us: min_quota_us,
                max_quota_us: max_quota_us,
                current_quota_us: initial_quota_us,
                ..self@
            }),
    {
        let mut s = self;
        s.min_quota_us = min_quota_us;
        s.max_quota_us = max_quota_us;
        s.current_quota_us = initial_quota_us;
        s
    }

    /// How to start: register a trigger on some tasks stalling for the
    /// CPU for 50 ms within a second, then write the current quota.
    /// `trigger_added` notes the registration.
    pub fn start(&self) -> (r: (PsiTrigger, TriggerRegistration, QuotaWrite))
        requires
            self.well_formed(),
        ensures
            r.0 == (PsiTrigger {
                resource: PsiResource::Cpu,
                level: PsiLevel::Partial,
                threshold_us: 50_000,
                window_us: 1_000_000,
            }),
            r.1.path@ == join(self@.dir, "cpu.pressure"@),
            r.1.content@ == r.0.wire(),
            r.1.events == 2,
            r.1.key == self@.triggers.len(),
            r.2.path@ == join(self@.dir, "cpu.max"@),
            r.2.content@ == self@.quota_wire(self@.current_quota_us),
            r.2.quota_us == self@.current_quota_us,
    {
        let trigger = PsiTrigger::cpu_some(50_000, 1_000_000);
        let registration = self.monitor.add_trigger(&trigger);
        let quota = self.write_quota(self.current_quota_us);
        (trigger, registration, quota)
    }

    /// Notes that `trigger` was registered with the monitor.
    pub fn trigger_added(&mut self, trigger: PsiTrigger)
        ensures
            old(self).well_formed() ==> final(self).well_formed(),
            final(self)@ == (PsiSchedulerView {
                triggers: old(self)@.triggers.push(trigger),
                ..old(self)@
            }),
    {
        self.monitor.trigger_added(trigger);
    }

    /// The event that an `epoll_wait` call tells of; see `PsiMonitor::wait_event`.
    pub fn event(&self, nfds: i32, errno: i32, key: u64) -> (r: Result<Option<PsiEvent>, PsiError>)
        ensures
            nfds < 0 && errno != 4 ==> r == Err::<Option<PsiEvent>, PsiError>(
                PsiError::EpollError(errno),
            ),
            nfds < 0 && errno == 4 ==> r == Ok::<Option<PsiEvent>, PsiError>(None),
            nfds == 0 ==> r == Ok::<Option<PsiEvent>, PsiError>(None),
            nfds > 0 && key >= self@.triggers.len() ==> r == Ok::<Option<PsiEvent>, PsiError>(None),
            nfds > 0 && key < self@.triggers.len() ==> r == Ok::<Option<PsiEvent>, PsiError>(
                Some(event_of(self@.triggers[key as int])),
            ),
    {
        self.monitor.wait_event(nfds, errno, key)
    }

    /// What follows from the event of a wait that did not block: the
    /// write of the new quota where the event calls for another one.
    /// `quota_written` notes that it was done.
    pub fn tick(&self, event: Option<PsiEvent>) -> (r: Option<QuotaWrite>)
        ensures
            match event {
                Some(e) => if self@.quota_after(e) != self@.current_quota_us {
                    r matches Some(w) && w.path@ == join(self@.dir, "cpu.max"@) && w.content@
                        == self@.quota_wire(self@.quota_after(e)) && w.quota_us
                        == self@.quota_after(e)
                } else {
                    r is None
                },
                None => r is None,
            },
    {
        match event {
            Some(PsiEvent::CpuPressure { level, .. }) => self.handle_cpu_pressure(level),
            _ => None,
        }
    }

    /// What follows from the event of a wait that blocked: as for `tick`.
    pub fn wait(&self, event: Option<PsiEvent>) -> (r: Option<QuotaWrite>)
        ensures
            match event {
                Some(e) => if self@.quota_after(e) != self@.current_quota_us {
                    r matches Some(w) && w.path@ == join(self@.dir, "cpu.max"@) && w.content@
                        == self@.quota_wire(self@.quota_after(e)) && w.quota_us
                        == self@.quota_after(e)
                } else {
                    r is None
                },
                None => r is None,
            },
    {
        self.tick(event)
    }

    /// The write that CPU pressure at `level` calls for, if the quota
    /// changes with it.
    pub fn handle_cpu_pressure(&self, level: PsiLevel) -> (r: Option<QuotaWrite>)
        ensures
            ({
                let q = pressure_quota(
                    level,
                    self@.current_quota_us,
                    self@.max_quota_us,
                    self@.burst_multiplier_milli,
                );
                if q != self@.current_quota_us {
                    r matches Some(w) && w.path@ == join(self@.dir, "cpu.max"@) && w.content@
                        == self@.quota_wire(q) && w.quota_us == q
                } else {
                    r is None
                }
            }),
    {
        let new_quota: u64 = match level {
            PsiLevel::Partial => {
                assert(self.current_quota_us as int * self.burst_multiplier_milli as int
                    <= 0xffff_ffff_ffff_ffff * 0xffff_ffff_ffff_ffff) by (nonlinear_arith)
                    requires
                        0 <= self.current_quota_us <= 0xffff_ffff_ffff_ffff,
                        0 <= self.burst_multiplier_milli <= 0xffff_ffff_ffff_ffff,
                ;
                let wide: u128 = (self.current_quota_us as u128
                    * self.burst_multiplier_milli as u128) / 1000;
                if wide > self.max_quota_us as u128 {
                    self.max_quota_us
                } else {
                    wide as u64
                }
            },
            PsiLevel::Full => self.max_quota_us,
        };
        if new_quota != self.current_quota_us {
            Some(self.write_quota(new_quota))
        } else {
            None
        }
    }

    /// Notes that the quota `quota_us` was written.
    pub fn quota_written(&mut self, quota_us: u64)
        ensures
            old(self).well_formed() ==> final(self).well_formed(),
            final(self)@ == (PsiSchedulerView { current_quota_us: quota_us, ..old(self)@ }),
    {
        self.current_quota_us = quota_us;
    }

    /// The write of `quota_us` to `cpu.max`.
    pub fn write_quota(&self, quota_us: u64) -> (r: QuotaWrite)
        ensures
            r.path@ == join(self@.dir, "cpu.max"@),
            r.content@ == self@.quota_wire(quota_us),
            r.quota_us == quota_us,
    {
        let mut content = String::new();
        push_decimal(&mut content, quota_us);
        content.append(" ");
        push_decimal(&mut content, self.period_us);
        QuotaWrite { path: join_path(self.cgroup_path.as_str(), "cpu.max"), content, quota_us }
    }

    /// The current quota.
    pub fn current_quota(&self) -> (r: u64)
        ensures
            r == self@.current_quota_us,
    {
        self.current_quota_us
    }
}

/// Whether the kernel offers pressure information: it does where
/// `/proc/pressure/cpu` exists, which `cpu_pressure_exists` tells.
pub fn is_psi_available(cpu_pressure_exists: bool) -> (r: bool)
    ensures
        r == cpu_pressure_exists,
{
    cpu_pressure_exists
}

/// The trigger line whose write to `/proc/pressure/cpu` probes for triggers.
pub fn trigger_probe() -> (r: String)
    ensures
        r@ == "some 500000 1000000"@,
{
    String::from_str("some 500000 1000000")
}

/// Whether the kernel takes triggers (Linux 5.2): it does where the
/// system-wide CPU pressure file could be opened for writing and took the
/// probe line.
pub fn is_psi_triggers_available(opened: bool, written: bool) -> (r: bool)
    ensures
        r == (opened && written),
{
    opened && written
}

} // verus!
