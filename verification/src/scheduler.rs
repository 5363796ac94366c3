//! Dynamic CPU scheduling by quota adjustment.
//!
//! The scheduler watches how much CPU time a cgroup uses between two ticks
//! and moves the quota in `cpu.max`: up when the cgroup runs close to its
//! quota, down when it leaves most of it unused.
//!
//! Time is a count of microseconds on a clock that never goes back, which
//! the caller reads. Multipliers and thresholds are given in thousandths.

use vstd::prelude::*;
use crate::cgroup::{cpu_writes, writes, CgroupController, CpuConfig, FileWrite, FileWriteView};
use crate::text::{
    lines, parse_number, parse_unsigned, rows, same_text, split_lines, split_words, to_chars, words,
};

verus! {

/// Dynamic scheduler configuration.
#[derive(Debug, Clone, Copy)]
pub struct SchedulerConfig {
    /// Target latency in microseconds.
    pub target_latency_us: u64,
    /// Minimum CPU quota (microseconds per period).
    pub min_quota_us: u64,
    /// Maximum CPU quota (microseconds per period).
    pub max_quota_us: u64,
    /// CPU period (microseconds).
    pub period_us: u64,
    /// Shortest time between two adjustments, in milliseconds.
    pub tick_interval_ms: u64,
    /// Factor by which the quota grows under load, in thousandths.
    pub burst_multiplier_milli: u64,
    /// Factor by which the quota shrinks when idle, in thousandths.
    pub throttle_multiplier_milli: u64,
    /// Utilisation below which the cgroup counts as idle, in thousandths.
    pub low_util_threshold_milli: u64,
}

impl Default for SchedulerConfig {
    fn default() -> (r: Self)
        ensures
            r == (SchedulerConfig {
                target_latency_us: 1000,
                min_quota_us: 10_000,
                max_quota_us: 100_000,
                period_us: 100_000,
                tick_interval_ms: 10,
                burst_multiplier_milli: 1500,
                throttle_multiplier_milli: 800,
                low_util_threshold_milli: 500,
            }),
    {
        Self {
            target_latency_us: 1000,
            min_quota_us: 10_000,
            max_quota_us: 100_000,
            period_us: 100_000,
            tick_interval_ms: 10,
            burst_multiplier_milli: 1500,
            throttle_multiplier_milli: 800,
            low_util_threshold_milli: 500,
        }
    }
}

impl SchedulerConfig {
    /// The configuration for a latency-sensitive workload.
    pub fn low_latency() -> (r: Self)
        ensures
            r == (SchedulerConfig {
                target_latency_us: 100,
                min_quota_us: 50_000,
                max_quota_us: 100_000,
                period_us: 100_000,
                tick_interval_ms: 1,
                burst_multiplier_milli: 2000,
                throttle_multiplier_milli: 800,
                low_util_threshold_milli: 500,
            }),
    {
        Self {
            target_latency_us: 100,
            min_quota_us: 50_000,
            max_quota_us: 100_000,
            period_us: 100_000,
            tick_interval_ms: 1,
            burst_multiplier_milli: 2000,
            throttle_multiplier_milli: 800,
            low_util_threshold_milli: 500,
        }
    }

    /// The configuration for a batch workload.
    pub fn batch() -> (r: Self)
        ensures
            r == (SchedulerConfig {
                target_latency_us: 100_000,
                min_quota_us: 10_000,
                max_quota_us: 50_000,
                period_us: 100_000,
                tick_interval_ms: 100,
                burst_multiplier_milli: 1200,
                throttle_multiplier_milli: 800,
                low_util_threshold_milli: 500,
            }),
    {
        Self {
            target_latency_us: 100_000,
            min_quota_us: 10_000,
            max_quota_us: 50_000,
            period_us: 100_000,
            tick_interval_ms: 100,
            burst_multiplier_milli: 1200,
            throttle_multiplier_milli: 800,
            low_util_threshold_milli: 500,
        }
    }
}

/// CPU usage statistics of a cgroup.
#[derive(Debug, Clone, Copy)]
pub struct CpuStats {
    /// Total CPU usage in microseconds.
    pub usage_us: u64,
    /// User CPU time in microseconds.
    pub user_us: u64,
    /// System CPU time in microseconds.
    pub system_us: u64,
    /// Number of throttle events.
    pub nr_throttled: u64,
    /// Total throttled time in microseconds.
    pub throttled_us: u64,
}

impl Default for CpuStats {
    fn default() -> (r: Self)
        ensures
            r == CpuStats::zero(),
    {
        Self { usage_us: 0, user_us: 0, system_us: 0, nr_throttled: 0, throttled_us: 0 }
    }
}

/// `stats` after one line of `cpu.stat`: where the line has two words of
/// which the second is a number, the field that the first names, if any,
/// takes that number.
pub open spec fn stat_line(stats: CpuStats, line: Seq<char>) -> CpuStats {
    let ws = words(line);
    if ws.len() < 2 {
        stats
    } else {
        match parse_unsigned(ws[1], u64::MAX as nat) {
            Err(_) => stats,
            Ok(n) => {
                let v = n as u64;
                if ws[0] == "usage_usec"@ {
                    CpuStats { usage_us: v, ..stats }
                } else if ws[0] == "user_usec"@ {
                    CpuStats { user_us: v, ..stats }
                } else if ws[0] == "system_usec"@ {
                    CpuStats { system_us: v, ..stats }
                } else if ws[0] == "nr_throttled"@ {
                    CpuStats { nr_throttled: v, ..stats }
                } else if ws[0] == "throttled_usec"@ {
                    CpuStats { throttled_us: v, ..stats }
                } else {
                    stats
                }
            },
        }
    }
}

/// The statistics that the lines `ls` give, read from first to last.
pub open spec fn stats_of(ls: Seq<Seq<char>>) -> CpuStats
    decreases ls.len(),
{
    if ls.len() == 0 {
        CpuStats::zero()
    } else {
        stat_line(stats_of(ls.drop_last()), ls.last())
    }
}

impl CpuStats {
    /// Statistics that are all zero.
    pub open spec fn zero() -> CpuStats {
        CpuStats { usage_us: 0, user_us: 0, system_us: 0, nr_throttled: 0, throttled_us: 0 }
    }

    /// The statistics in the content of `cpu.stat`.
    pub fn from_cpu_stat(content: &str) -> (r: Self)
        ensures
            r == stats_of(lines(content@)),
    {
        let chars = to_chars(content);
        let ls = split_lines(&chars);
        let ghost all = lines(content@);
        let mut stats = CpuStats {
            usage_us: 0,
            user_us: 0,
            system_us: 0,
            nr_throttled: 0,
            throttled_us: 0,
        };
        let n: usize = ls.len();
        let mut i: usize = 0;
        while i < n
            invariant
                n == ls@.len(),
                i <= n,
                rows(ls@) == all,
                stats == stats_of(all.take(i as int)),
            decreases n - i,
        {
            let line = &ls[i];
            assert(all.take(i + 1).drop_last() =~= all.take(i as int));
            let ws = split_words(line);
            if ws.len() >= 2 {
                match parse_number(&ws[1], u64::MAX) {
                    Ok(v) => {
                        let key = &ws[0];
                        if same_text(key, "usage_usec") {
                            stats.usage_us = v;
                        } else if same_text(key, "user_usec") {
                            stats.user_us = v;
                        } else if same_text(key, "system_usec") {
                            stats.system_us = v;
                        } else if same_text(key, "nr_throttled") {
                            stats.nr_throttled = v;
                        } else if same_text(key, "throttled_usec") {
                            stats.throttled_us = v;
                        }
                    },
                    Err(_) => {},
                }
            }
            i = i + 1;
        }
        assert(all.take(n as int) =~= all);
        stats
    }
}

/// What a tick of the scheduler decided.
#[derive(Debug, Clone, Copy, PartialEq, Eq, Structural)]
pub enum SchedulerDecision {
    /// The scheduler is not running.
    Idle,
    /// Not enough time has passed since the last tick.
    TooSoon,
    /// The quota stays as it is.
    Maintain,
    /// The quota changes.
    Adjust { new_quota_us: u64 },
}

/// Scheduler statistics.
#[derive(Debug, Clone, Copy)]
pub struct SchedulerStats {
    /// Current CPU quota.
    pub current_quota_us: u64,
    /// Minimum allowed quota.
    pub min_quota_us: u64,
    /// Maximum allowed quota.
    pub max_quota_us: u64,
    /// Whether the scheduler is running.
    pub running: bool,
}

/// The quota that is `cpu_percent` hundredths of the period, rounded down.
pub open spec fn quota_of(cpu_percent: int, period_us: int) -> int {
    (period_us * cpu_percent) / 100
}

/// The hundredths of the period that the quota makes, rounded down; 0
/// where the period is 0.
pub open spec fn percent_of(quota_us: int, period_us: int) -> int {
    if period_us == 0 {
        0
    } else {
        (quota_us * 100) / period_us
    }
}

/// The CPU quota, in microseconds per period, for a share of
/// `cpu_percent` percent of one CPU.
pub fn quota_from_percent(cpu_percent: u32, period_us: u64) -> (r: u64)
    requires
        period_us * cpu_percent <= u64::MAX,
    ensures
        r == quota_of(cpu_percent as int, period_us as int),
{
    (period_us * cpu_percent as u64) / 100
}

/// The share of one CPU, in percent, that a quota gives; 0 where the
/// period is 0. The result is the low 32 bits of the quotient.
pub fn percent_from_quota(quota_us: u64, period_us: u64) -> (r: u32)
    requires
        quota_us * 100 <= u64::MAX,
    ensures
        r == percent_of(quota_us as int, period_us as int) % 0x1_0000_0000,
{
    if period_us == 0 {
        0
    } else {
        let q: u64 = (quota_us * 100) / period_us;
        (q % 0x1_0000_0000) as u32
    }
}

/// A quota computed from a percentage gives that percentage back, up to
/// rounding down: never more, exactly where the period times the
/// percentage is a multiple of 100, and at most one less where the
/// period is at least 100.
pub proof fn lemma_percent_round_trip(p: u32, period_us: u64)
    requires
        p <= 100,
        period_us > 0,
        period_us * p <= u64::MAX,
    ensures
        percent_of(quota_of(p as int, period_us as int), period_us as int) <= p,
        (period_us * p) % 100 == 0 ==> percent_of(
            quota_of(p as int, period_us as int),
            period_us as int,
        ) == p,
        period_us >= 100 ==> percent_of(quota_of(p as int, period_us as int), period_us as int)
            >= p - 1,
{
    let n: int = period_us * p;
    let q: int = n / 100;
    let r: int = n % 100;
    let d: int = period_us as int;
    assert((q * 100) / d <= p) by (nonlinear_arith)
        requires
            q * 100 <= d * p,
            d > 0,
    ;
    if r == 0 {
        assert((q * 100) / d == p) by (nonlinear_arith)
            requires
                q * 100 == d * p,
                d > 0,
        ;
    }
    if d >= 100 {
        assert((q * 100) / d >= p - 1) by (nonlinear_arith)
            requires
                q * 100 + 100 > d * p,
                d >= 100,
                q * 100 >= 0,
        ;
    }
}

/// `quota_us` times `milli` thousandths, rounded down.
pub open spec fn scaled(quota_us: u64, milli: u64) -> int {
    (quota_us as int * milli as int) / 1000
}

/// The quota after a burst: the current one times the burst multiplier,
/// at most the maximum.
pub open spec fn raised(config: SchedulerConfig, current: u64) -> u64 {
    let s = scaled(current, config.burst_multiplier_milli);
    if s > config.max_quota_us {
        config.max_quota_us
    } else {
        s as u64
    }
}

/// The quota after a throttle: the current one times the throttle
/// multiplier, at most what 64 bits hold and at least the minimum.
pub open spec fn lowered(config: SchedulerConfig, current: u64) -> u64 {
    let s = scaled(current, config.throttle_multiplier_milli);
    let capped = if s > u64::MAX {
        u64::MAX
    } else {
        s as u64
    };
    if capped < config.min_quota_us {
        config.min_quota_us
    } else {
        capped
    }
}

/// Whether `usage_delta` microseconds of CPU time in `elapsed_us`
/// microseconds are more than nine tenths.
pub open spec fn is_busy(usage_delta: u64, elapsed_us: u64) -> bool {
    elapsed_us > 0 && usage_delta * 10 > elapsed_us * 9
}

/// Whether `usage_delta` microseconds of CPU time in `elapsed_us`
/// microseconds are less than `threshold_milli` thousandths. No time
/// passed counts as no use.
pub open spec fn is_idle(usage_delta: u64, elapsed_us: u64, threshold_milli: u64) -> bool {
    if elapsed_us > 0 {
        usage_delta * 1000 < threshold_milli * elapsed_us
    } else {
        threshold_milli > 0
    }
}

/// The decision on the quota: raise it where the cgroup is busy and below
/// the maximum; else lower it where the cgroup is idle and above the
/// minimum; else keep it. A change that would give the same quota is none.
pub open spec fn decide(
    config: SchedulerConfig,
    current: u64,
    usage_delta: u64,
    elapsed_us: u64,
) -> SchedulerDecision {
    if is_busy(usage_delta, elapsed_us) && current < config.max_quota_us {
        if raised(config, current) != current {
            SchedulerDecision::Adjust { new_quota_us: raised(config, current) }
        } else {
            SchedulerDecision::Maintain
        }
    } else if is_idle(usage_delta, elapsed_us, config.low_util_threshold_milli) && current
        > config.min_quota_us {
        if lowered(config, current) != current {
            SchedulerDecision::Adjust { new_quota_us: lowered(config, current) }
        } else {
            SchedulerDecision::Maintain
        }
    } else {
        SchedulerDecision::Maintain
    }
}

/// `a` less `b`, or 0 where `b` is larger.
pub open spec fn monus(a: u64, b: u64) -> u64 {
    if a >= b {
        (a - b) as u64
    } else {
        0
    }
}

/// `quota_us` brought into the range from the minimum to the maximum; the
/// maximum where the range is empty.
pub open spec fn clamped(config: SchedulerConfig, quota_us: u64) -> u64 {
    let lower = if quota_us < config.min_quota_us {
        config.min_quota_us
    } else {
        quota_us
    };
    if lower > config.max_quota_us {
        config.max_quota_us
    } else {
        lower
    }
}

fn scale(quota_us: u64, milli: u64) -> (r: u128)
    ensures
        r == scaled(quota_us, milli),
{
    assert(quota_us as int * milli as int <= 0xffff_ffff_ffff_ffff * 0xffff_ffff_ffff_ffff)
        by (nonlinear_arith)
        requires
            0 <= quota_us <= 0xffff_ffff_ffff_ffff,
            0 <= milli <= 0xffff_ffff_ffff_ffff,
    ;
    (quota_us as u128 * milli as u128) / 1000
}

fn product(a: u64, b: u64) -> (r: u128)
    ensures
        r == a * b,
{
    assert(a as int * b as int <= 0xffff_ffff_ffff_ffff * 0xffff_ffff_ffff_ffff)
        by (nonlinear_arith)
        requires
            0 <= a <= 0xffff_ffff_ffff_ffff,
            0 <= b <= 0xffff_ffff_ffff_ffff,
    ;
    a as u128 * b as u128
}

/// The dynamic CPU scheduler of one cgroup.
pub struct DynamicScheduler {
    cgroup: CgroupController,
    config: SchedulerConfig,
    current_quota_us: u64,
    last_tick_us: u64,
    last_usage_us: u64,
    running: bool,
}

/// The state of a scheduler as plain values.
pub struct SchedulerView {
    /// The directory of the cgroup.
    pub dir: Seq<char>,
    /// The identifier of the container that the cgroup belongs to.
    pub container_id: Seq<char>,
    pub config: SchedulerConfig,
    pub current_quota_us: u64,
    /// The time of the last tick or of the start.
    pub last_tick_us: u64,
    /// The CPU time that the cgroup had used at the last tick.
    pub last_usage_us: u64,
    pub running: bool,
}

impl SchedulerView {
    /// The quota lies between the minimum and the maximum.
    pub open spec fn in_range(self) -> bool {
        self.config.min_quota_us <= self.current_quota_us <= self.config.max_quota_us
    }

    /// The time since the last tick; 0 where the clock reads less than then.
    pub open spec fn elapsed(self, now_us: u64) -> u64 {
        monus(now_us, self.last_tick_us)
    }

    /// What a tick at `now_us` decides, the cgroup having used
    /// `usage_us` microseconds of CPU time in all.
    pub open spec fn tick_decision(self, now_us: u64, usage_us: u64) -> SchedulerDecision {
        if !self.running {
            SchedulerDecision::Idle
        } else if self.elapsed(now_us) / 1000 < self.config.tick_interval_ms {
            SchedulerDecision::TooSoon
        } else {
            decide(
                self.config,
                self.current_quota_us,
                monus(usage_us, self.last_usage_us),
                self.elapsed(now_us),
            )
        }
    }

    /// The writes that a decision calls for: those of the new quota where
    /// it changes, none otherwise.
    pub open spec fn decision_writes(self, decision: SchedulerDecision) -> Seq<FileWriteView> {
        match decision {
            SchedulerDecision::Adjust { new_quota_us } => self.quota_writes(new_quota_us),
            _ => Seq::<FileWriteView>::empty(),
        }
    }

    /// The writes that set the quota to `quota_us` at the configured period.
    pub open spec fn quota_writes(self, quota_us: u64) -> Seq<FileWriteView> {
        cpu_writes(
            self.dir,
            CpuConfig { quota_us: quota_us, period_us: self.config.period_us, weight: 100 },
        )
    }

    /// The state after a tick at `now_us`: unchanged where the scheduler is
    /// idle or the tick came too soon; else the time and the usage are
    /// noted, and the quota is the new one where it changed.
    pub open spec fn after_tick(self, now_us: u64, usage_us: u64) -> SchedulerView {
        match self.tick_decision(now_us, usage_us) {
            SchedulerDecision::Idle => self,
            SchedulerDecision::TooSoon => self,
            SchedulerDecision::Maintain => SchedulerView {
                last_tick_us: now_us,
                last_usage_us: usage_us,
                ..self
            },
            SchedulerDecision::Adjust { new_quota_us } => SchedulerView {
                current_quota_us: new_quota_us,
                last_tick_us: now_us,
                last_usage_us: usage_us,
                ..self
            },
        }
    }
}

impl SchedulerConfig {
    /// The minimum is no more than the maximum, a burst does not shrink the
    /// quota and a throttle does not grow it.
    pub open spec fn consistent(self) -> bool {
        self.min_quota_us <= self.max_quota_us && self.burst_multiplier_milli >= 1000
            && self.throttle_multiplier_milli <= 1000
    }
}

/// Under a consistent configuration a decision keeps the quota between
/// the minimum and the maximum, and an adjustment changes it.
pub proof fn lemma_decide_in_range(
    config: SchedulerConfig,
    current: u64,
    usage_delta: u64,
    elapsed_us: u64,
)
    requires
        config.consistent(),
        config.min_quota_us <= current <= config.max_quota_us,
    ensures
        match decide(config, current, usage_delta, elapsed_us) {
            SchedulerDecision::Adjust { new_quota_us } => config.min_quota_us <= new_quota_us
                <= config.max_quota_us && new_quota_us != current,
            SchedulerDecision::Maintain => true,
            _ => false,
        },
{
    let b = config.burst_multiplier_milli as int;
    let t = config.throttle_multiplier_milli as int;
    let c = current as int;
    assert((c * b) / 1000 >= c) by (nonlinear_arith)
        requires
            b >= 1000,
            c >= 0,
    ;
    assert((c * t) / 1000 <= c) by (nonlinear_arith)
        requires
            0 <= t <= 1000,
            c >= 0,
    ;
}

impl View for DynamicScheduler {
    type V = SchedulerView;

    closed spec fn view(&self) -> SchedulerView {
        SchedulerView {
            dir: self.cgroup.dir(),
            container_id: self.cgroup.id(),
            config: self.config,
            current_quota_us: self.current_quota_us,
            last_tick_us: self.last_tick_us,
            last_usage_us: self.last_usage_us,
            running: self.running,
        }
    }
}

impl DynamicScheduler {
    /// A scheduler for `cgroup` that is not running yet, with the quota
    /// at the maximum. `now_us` is the time on the caller's clock.
    pub fn new(cgroup: CgroupController, config: SchedulerConfig, now_us: u64) -> (r: Self)
        ensures
            r@ == (SchedulerView {
                dir: cgroup.dir(),
                container_id: cgroup.id(),
                config: config,
                current_quota_us: config.max_quota_us,
                last_tick_us: now_us,
                last_usage_us: 0,
                running: false,
            }),
            r@.in_range() <==> config.min_quota_us <= config.max_quota_us,
    {
        Self {
            cgroup,
            config,
            current_quota_us: config.max_quota_us,
            last_tick_us: now_us,
            last_usage_us: 0,
            running: false,
        }
    }

    /// The writes that start scheduling: those of the current quota. Once
    /// they are done, `started` notes it.
    pub fn start(&self) -> (r: Vec<FileWrite>)
        ensures
            writes(r@) == self@.quota_writes(self@.current_quota_us),
    {
        self.cgroup.set_cpu_max(self.current_quota_us, self.config.period_us)
    }

    /// Notes that the writes of `start` were done at `now_us`: the
    /// scheduler runs from then on.
    pub fn started(&mut self, now_us: u64)
        ensures
            final(self)@ == (SchedulerView { running: true, last_tick_us: now_us, ..old(self)@ }),
    {
        self.running = true;
        self.last_tick_us = now_us;
    }

    /// Stops scheduling and gives the writes that lift the quota. The
    /// scheduler is stopped whether or not the writes succeed.
    pub fn stop(&mut self) -> (r: Vec<FileWrite>)
        ensures
            final(self)@ == (SchedulerView { running: false, ..old(self)@ }),
            writes(r@) == old(self)@.quota_writes(u64::MAX),
    {
        self.running = false;
        self.cgroup.set_cpu_max(u64::MAX, self.config.period_us)
    }

    /// Whether a tick at `now_us` ends before the CPU usage is read: `Idle`
    /// where the scheduler is not running, `TooSoon` where the tick
    /// interval has not passed, nothing where the usage is wanted.
    pub fn tick_due(&self, now_us: u64) -> (r: Option<SchedulerDecision>)
        ensures
            !self@.running ==> r == Some(SchedulerDecision::Idle),
            self@.running && self@.elapsed(now_us) / 1000 < self@.config.tick_interval_ms ==> r
                == Some(SchedulerDecision::TooSoon),
            self@.running && self@.elapsed(now_us) / 1000 >= self@.config.tick_interval_ms ==> r
                == None::<SchedulerDecision>,
    {
        if !self.running {
            return Some(SchedulerDecision::Idle);
        }
        let elapsed: u64 = now_us.saturating_sub(self.last_tick_us);
        if elapsed / 1000 < self.config.tick_interval_ms {
            return Some(SchedulerDecision::TooSoon);
        }
        None
    }

    /// One scheduling tick at `now_us`, the cgroup having used `usage_us`
    /// microseconds of CPU time in all: the decision, and the writes that
    /// it calls for. The scheduler itself changes only in `tick_done`,
    /// once the writes are done.
    pub fn tick(&self, now_us: u64, usage_us: u64) -> (r: (SchedulerDecision, Vec<FileWrite>))
        ensures
            r.0 == self@.tick_decision(now_us, usage_us),
            writes(r.1@) == self@.decision_writes(r.0),
    {
        let decision = match self.tick_due(now_us) {
            Some(early) => early,
            None => {
                let elapsed: u64 = now_us.saturating_sub(self.last_tick_us);
                let usage_delta: u64 = usage_us.saturating_sub(self.last_usage_us);
                self.decide_quota(usage_delta, elapsed)
            },
        };
        let plan = match decision {
            SchedulerDecision::Adjust { new_quota_us } => self.cgroup.set_cpu_max(
                new_quota_us,
                self.config.period_us,
            ),
            _ => {
                let none: Vec<FileWrite> = Vec::new();
                none
            },
        };
        (decision, plan)
    }

    /// Notes that the writes of the tick at `now_us` were done: where the
    /// tick was due, the time and the usage are kept for the next tick, and
    /// the quota is the one that was written.
    pub fn tick_done(&mut self, now_us: u64, usage_us: u64) -> (r: SchedulerDecision)
        ensures
            r == old(self)@.tick_decision(now_us, usage_us),
            final(self)@ == old(self)@.after_tick(now_us, usage_us),
    {
        let (decision, _plan) = self.tick(now_us, usage_us);
        match decision {
            SchedulerDecision::Idle => {},
            SchedulerDecision::TooSoon => {},
            SchedulerDecision::Maintain => {
                self.last_tick_us = now_us;
                self.last_usage_us = usage_us;
            },
            SchedulerDecision::Adjust { new_quota_us } => {
                self.current_quota_us = new_quota_us;
                self.last_tick_us = now_us;
                self.last_usage_us = usage_us;
            },
        }
        decision
    }

    /// The decision on the quota for `usage_delta` microseconds of CPU
    /// time used in `elapsed_us` microseconds.
    pub fn decide_quota(&self, usage_delta: u64, elapsed_us: u64) -> (r: SchedulerDecision)
        ensures
            r == decide(self@.config, self@.current_quota_us, usage_delta, elapsed_us),
    {
        let current: u64 = self.current_quota_us;
        let min: u64 = self.config.min_quota_us;
        let max: u64 = self.config.max_quota_us;
        let busy: bool = elapsed_us > 0 && product(usage_delta, 10) > product(elapsed_us, 9);
        if busy && current < max {
            let wide: u128 = scale(current, self.config.burst_multiplier_milli);
            let new_quota: u64 = if wide > max as u128 {
                max
            } else {
                wide as u64
            };
            return if new_quota != current {
                SchedulerDecision::Adjust { new_quota_us: new_quota }
            } else {
                SchedulerDecision::Maintain
            };
        }
        let idle: bool = if elapsed_us > 0 {
            product(usage_delta, 1000) < product(self.config.low_util_threshold_milli, elapsed_us)
        } else {
            self.config.low_util_threshold_milli > 0
        };
        if idle && current > min {
            let wide: u128 = scale(current, self.config.throttle_multiplier_milli);
            let capped: u64 = if wide > u64::MAX as u128 {
                u64::MAX
            } else {
                wide as u64
            };
            let new_quota: u64 = if capped < min {
                min
            } else {
                capped
            };
            return if new_quota != current {
                SchedulerDecision::Adjust { new_quota_us: new_quota }
            } else {
                SchedulerDecision::Maintain
            };
        }
        SchedulerDecision::Maintain
    }

    /// The writes that raise the quota to the maximum. The scheduler
    /// itself changes only in `burst_set`, once the writes are done.
    pub fn burst_mode(&self) -> (r: Vec<FileWrite>)
        ensures
            writes(r@) == self@.quota_writes(self@.config.max_quota_us),
    {
        self.cgroup.set_cpu_max(self.config.max_quota_us, self.config.period_us)
    }

    /// Notes that the writes of `burst_mode` were done: the quota is the
    /// maximum.
    pub fn burst_set(&mut self)
        ensures
            final(self)@ == (SchedulerView {
                current_quota_us: old(self)@.config.max_quota_us,
                ..old(self)@
            }),
            old(self)@.config.min_quota_us <= old(self)@.config.max_quota_us
                ==> final(self)@.in_range(),
    {
        self.current_quota_us = self.config.max_quota_us;
    }

    /// The writes that lower the quota to the minimum. The scheduler
    /// itself changes only in `throttle_set`, once the writes are done.
    pub fn throttle(&self) -> (r: Vec<FileWrite>)
        ensures
            writes(r@) == self@.quota_writes(self@.config.min_quota_us),
    {
        self.cgroup.set_cpu_max(self.config.min_quota_us, self.config.period_us)
    }

    /// Notes that the writes of `throttle` were done: the quota is the
    /// minimum.
    pub fn throttle_set(&mut self)
        ensures
            final(self)@ == (SchedulerView {
                current_quota_us: old(self)@.config.min_quota_us,
                ..old(self)@
            }),
            old(self)@.config.min_quota_us <= old(self)@.config.max_quota_us
                ==> final(self)@.in_range(),
    {
        self.current_quota_us = self.config.min_quota_us;
    }

    /// The writes that set the quota to `quota_us`, brought into the
    /// allowed range. The scheduler itself changes only in `quota_set`,
    /// once the writes are done: a write that fails leaves the quota as
    /// it was.
    pub fn set_quota(&self, quota_us: u64) -> (r: Vec<FileWrite>)
        ensures
            writes(r@) == self@.quota_writes(clamped(self@.config, quota_us)),
    {
        self.cgroup.set_cpu_max(self.clamp(quota_us), self.config.period_us)
    }

    /// Notes that the writes of `set_quota` for `quota_us` were done: the
    /// quota is `quota_us` brought into the allowed range.
    pub fn quota_set(&mut self, quota_us: u64)
        ensures
            final(self)@ == (SchedulerView {
                current_quota_us: clamped(old(self)@.config, quota_us),
                ..old(self)@
            }),
            old(self)@.config.min_quota_us <= old(self)@.config.max_quota_us
                ==> final(self)@.in_range(),
    {
        self.current_quota_us = self.clamp(quota_us);
    }

    fn clamp(&self, quota_us: u64) -> (r: u64)
        ensures
            r == clamped(self@.config, quota_us),
    {
        let lower: u64 = if quota_us < self.config.min_quota_us {
            self.config.min_quota_us
        } else {
            quota_us
        };
        if lower > self.config.max_quota_us {
            self.config.max_quota_us
        } else {
            lower
        }
    }

    /// The current quota.
    pub fn current_quota(&self) -> (r: u64)
        ensures
            r == self@.current_quota_us,
    {
        self.current_quota_us
    }

    /// The controller of the cgroup, whose `cpu.stat` holds the usage that
    /// a tick takes.
    pub fn cgroup(&self) -> (r: &CgroupController)
        ensures
            r.dir() == self@.dir,
            r.id() == self@.container_id,
    {
        &self.cgroup
    }

    /// The quota, its bounds and whether the scheduler runs.
    pub fn stats(&self) -> (r: SchedulerStats)
        ensures
            r.current_quota_us == self@.current_quota_us,
            r.min_quota_us == self@.config.min_quota_us,
            r.max_quota_us == self@.config.max_quota_us,
            r.running == self@.running,
    {
        SchedulerStats {
            current_quota_us: self.current_quota_us,
            min_quota_us: self.config.min_quota_us,
            max_quota_us: self.config.max_quota_us,
            running: self.running,
        }
    }
}

/// Under a consistent configuration a tick keeps the quota between the
/// minimum and the maximum.
pub proof fn lemma_tick_keeps_range(s: SchedulerView, now_us: u64, usage_us: u64)
    requires
        s.config.consistent(),
        s.in_range(),
    ensures
        s.after_tick(now_us, usage_us).in_range(),
{
    lemma_decide_in_range(
        s.config,
        s.current_quota_us,
        monus(usage_us, s.last_usage_us),
        s.elapsed(now_us),
    );
}

/// A tick that adjusted the quota is followed by `TooSoon` for as long as
/// the tick interval has not passed.
pub proof fn lemma_tick_then_too_soon(
    s: SchedulerView,
    now_us: u64,
    usage_us: u64,
    next_us: u64,
    next_usage_us: u64,
)
    requires
        s.tick_decision(now_us, usage_us) is Adjust || s.tick_decision(now_us, usage_us)
            is Maintain,
        monus(next_us, now_us) / 1000 < s.config.tick_interval_ms,
    ensures
        s.after_tick(now_us, usage_us).tick_decision(next_us, next_usage_us)
            == SchedulerDecision::TooSoon,
{
}

} // verus!
