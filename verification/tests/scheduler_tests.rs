use alice_container::cgroup::CgroupController;
use alice_container::scheduler::{
    percent_from_quota, quota_from_percent, CpuStats, DynamicScheduler, SchedulerConfig,
    SchedulerDecision,
};

fn scheduler(config: SchedulerConfig, now_us: u64) -> DynamicScheduler {
    DynamicScheduler::new(CgroupController::open("web", true).unwrap(), config, now_us)
}

#[test]
fn test_scheduler_config_default() {
    let config = SchedulerConfig::default();
    assert_eq!(config.period_us, 100_000);
    assert_eq!(config.min_quota_us, 10_000);
    assert_eq!(config.max_quota_us, 100_000);
}

#[test]
fn test_scheduler_config_low_latency() {
    let config = SchedulerConfig::low_latency();
    assert_eq!(config.target_latency_us, 100);
    assert_eq!(config.tick_interval_ms, 1);
}

#[test]
fn test_quota_from_percent() {
    assert_eq!(quota_from_percent(50, 100_000), 50_000);
    assert_eq!(quota_from_percent(100, 100_000), 100_000);
    assert_eq!(quota_from_percent(200, 100_000), 200_000);
}

#[test]
fn test_percent_from_quota() {
    assert_eq!(percent_from_quota(50_000, 100_000), 50);
    assert_eq!(percent_from_quota(100_000, 100_000), 100);
    assert_eq!(percent_from_quota(200_000, 100_000), 200);
}

#[test]
fn test_cpu_stats_parse() {
    let content = r#"usage_usec 123456
user_usec 100000
system_usec 23456
nr_throttled 5
throttled_usec 50000"#;

    let stats = CpuStats::from_cpu_stat(content);
    assert_eq!(stats.usage_us, 123456);
    assert_eq!(stats.user_us, 100000);
    assert_eq!(stats.system_us, 23456);
    assert_eq!(stats.nr_throttled, 5);
    assert_eq!(stats.throttled_us, 50000);
}

#[test]
fn test_scheduler_decision_eq() {
    assert_eq!(SchedulerDecision::Idle, SchedulerDecision::Idle);
    assert_eq!(SchedulerDecision::Maintain, SchedulerDecision::Maintain);
    assert_eq!(
        SchedulerDecision::Adjust { new_quota_us: 50000 },
        SchedulerDecision::Adjust { new_quota_us: 50000 }
    );
}

#[test]
fn config_variants() {
    let d = SchedulerConfig::default();
    assert_eq!(d.target_latency_us, 1000);
    assert_eq!(d.tick_interval_ms, 10);
    assert_eq!(d.burst_multiplier_milli, 1500);
    assert_eq!(d.throttle_multiplier_milli, 800);
    assert_eq!(d.low_util_threshold_milli, 500);
    let l = SchedulerConfig::low_latency();
    assert_eq!(l.min_quota_us, 50_000);
    assert_eq!(l.max_quota_us, 100_000);
    assert_eq!(l.burst_multiplier_milli, 2000);
    assert_eq!(l.throttle_multiplier_milli, 800);
    let b = SchedulerConfig::batch();
    assert_eq!(b.target_latency_us, 100_000);
    assert_eq!(b.min_quota_us, 10_000);
    assert_eq!(b.max_quota_us, 50_000);
    assert_eq!(b.tick_interval_ms, 100);
    assert_eq!(b.burst_multiplier_milli, 1200);
    assert_eq!(b.period_us, 100_000);
}

#[test]
fn percent_round_trip_rounds_down() {
    for p in 0..=100u32 {
        let quota = quota_from_percent(p, 100_000);
        assert_eq!(percent_from_quota(quota, 100_000), p);
        let odd = quota_from_percent(p, 333);
        let back = percent_from_quota(odd, 333);
        assert!(back <= p && back + 1 >= p);
    }
    assert_eq!(quota_from_percent(50, 3), 1);
    assert_eq!(percent_from_quota(1, 3), 33);
    assert_eq!(percent_from_quota(5, 0), 0);
}

#[test]
fn cpu_stats_ignore_what_they_do_not_know() {
    let stats = CpuStats::from_cpu_stat("usage_usec 1\nusage_usec 2\nfoo 9\nuser_usec x\nnr_throttled\n");
    assert_eq!(stats.usage_us, 2);
    assert_eq!(stats.user_us, 0);
    assert_eq!(stats.nr_throttled, 0);
    let empty = CpuStats::from_cpu_stat("");
    assert_eq!(empty.usage_us, 0);
    assert_eq!(empty.throttled_us, 0);
    let d = CpuStats::default();
    assert_eq!(d.system_us, 0);
}

#[test]
fn scheduler_starts_at_the_maximum_and_idle() {
    let mut s = scheduler(SchedulerConfig::default(), 0);
    assert_eq!(s.current_quota(), 100_000);
    assert!(!s.stats().running);
    assert_eq!(s.tick_due(1_000_000), Some(SchedulerDecision::Idle));
    let (decision, plan) = s.tick(1_000_000, 0);
    assert_eq!(decision, SchedulerDecision::Idle);
    assert!(plan.is_empty());
    assert_eq!(s.tick_done(1_000_000, 0), SchedulerDecision::Idle);
    let plan = s.start();
    assert_eq!(plan[0].path, "/sys/fs/cgroup/alice/web/cpu.max");
    assert_eq!(plan[0].content, "100000 100000");
    s.started(5);
    assert!(s.stats().running);
}

#[test]
fn scheduler_decision_scenario() {
    let mut s = scheduler(SchedulerConfig::default(), 0);
    let plan = s.set_quota(50_000);
    assert_eq!(plan[0].content, "50000 100000");
    s.quota_set(50_000);
    s.started(0);
    // 9500 us of CPU time in 10 ms: a utilisation of 0.95.
    assert_eq!(s.tick_due(10_000), None);
    let (decision, plan) = s.tick(10_000, 9_500);
    assert_eq!(decision, SchedulerDecision::Adjust { new_quota_us: 75_000 });
    assert_eq!(plan[0].path, "/sys/fs/cgroup/alice/web/cpu.max");
    assert_eq!(plan[0].content, "75000 100000");
    assert_eq!(s.current_quota(), 50_000);
    assert_eq!(s.tick_done(10_000, 9_500), SchedulerDecision::Adjust { new_quota_us: 75_000 });
    assert_eq!(s.current_quota(), 75_000);
    // The next tick comes before the interval has passed.
    assert_eq!(s.tick_due(10_001), Some(SchedulerDecision::TooSoon));
    let (decision, plan) = s.tick(19_999, 20_000);
    assert_eq!(decision, SchedulerDecision::TooSoon);
    assert!(plan.is_empty());
    assert_eq!(s.tick_done(19_999, 20_000), SchedulerDecision::TooSoon);
    assert_eq!(s.current_quota(), 75_000);
}

#[test]
fn scheduler_throttles_when_idle() {
    let mut s = scheduler(SchedulerConfig::default(), 0);
    s.started(0);
    // 1000 us of CPU time in 10 ms: a utilisation of 0.1.
    assert_eq!(s.tick_done(10_000, 1_000), SchedulerDecision::Adjust { new_quota_us: 80_000 });
    // Between the thresholds nothing changes.
    assert_eq!(s.tick_done(20_000, 8_000), SchedulerDecision::Maintain);
    assert_eq!(s.current_quota(), 80_000);
    // Exactly nine tenths is not above nine tenths.
    assert_eq!(s.decide_quota(9_000, 10_000), SchedulerDecision::Maintain);
    assert_eq!(s.decide_quota(9_001, 10_000), SchedulerDecision::Adjust { new_quota_us: 100_000 });
    // Exactly the low threshold is not below it.
    assert_eq!(s.decide_quota(5_000, 10_000), SchedulerDecision::Maintain);
    assert_eq!(s.decide_quota(4_999, 10_000), SchedulerDecision::Adjust { new_quota_us: 64_000 });
    // No time passed counts as no use.
    assert_eq!(s.decide_quota(7, 0), SchedulerDecision::Adjust { new_quota_us: 64_000 });
}

#[test]
fn scheduler_respects_the_bounds() {
    let mut s = scheduler(SchedulerConfig::default(), 0);
    s.started(0);
    // At the maximum a busy cgroup cannot be given more.
    assert_eq!(s.decide_quota(10_000, 10_000), SchedulerDecision::Maintain);
    let plan = s.throttle();
    assert_eq!(plan[0].content, "10000 100000");
    // Nothing changes before the write is noted as done.
    assert_eq!(s.current_quota(), 100_000);
    s.throttle_set();
    assert_eq!(s.current_quota(), 10_000);
    // At the minimum an idle cgroup cannot be given less.
    assert_eq!(s.decide_quota(0, 10_000), SchedulerDecision::Maintain);
    let plan = s.set_quota(12_000);
    assert_eq!(plan[0].content, "12000 100000");
    s.quota_set(12_000);
    // 12000 * 0.8 = 9600 is below the minimum.
    assert_eq!(s.decide_quota(0, 10_000), SchedulerDecision::Adjust { new_quota_us: 10_000 });
    s.quota_set(90_000);
    // 90000 * 1.5 is above the maximum.
    assert_eq!(s.decide_quota(10_000, 10_000), SchedulerDecision::Adjust { new_quota_us: 100_000 });
    let plan = s.burst_mode();
    assert_eq!(plan[0].content, "100000 100000");
    assert_eq!(s.current_quota(), 90_000);
    s.burst_set();
    assert_eq!(s.current_quota(), 100_000);
}

#[test]
fn set_quota_clamps() {
    let mut s = scheduler(SchedulerConfig::default(), 0);
    assert_eq!(s.set_quota(5)[0].content, "10000 100000");
    s.quota_set(5);
    assert_eq!(s.current_quota(), 10_000);
    assert_eq!(s.set_quota(u64::MAX)[0].content, "100000 100000");
    s.quota_set(u64::MAX);
    assert_eq!(s.current_quota(), 100_000);
    s.quota_set(55_555);
    assert_eq!(s.current_quota(), 55_555);
    let stats = s.stats();
    assert_eq!(stats.current_quota_us, 55_555);
    assert_eq!(stats.min_quota_us, 10_000);
    assert_eq!(stats.max_quota_us, 100_000);
}

#[test]
fn stop_lifts_the_quota() {
    let mut s = scheduler(SchedulerConfig::default(), 0);
    s.started(0);
    let plan = s.stop();
    assert_eq!(plan[0].content, "max 100000");
    assert!(!s.stats().running);
    assert_eq!(s.tick_due(1_000_000), Some(SchedulerDecision::Idle));
}

#[test]
fn usage_that_went_back_counts_as_none() {
    let mut s = scheduler(SchedulerConfig::default(), 0);
    s.started(0);
    assert_eq!(s.tick_done(10_000, 9_900), SchedulerDecision::Maintain);
    // The counter reads less than before: no use, so the quota shrinks.
    assert_eq!(s.tick_done(20_000, 100), SchedulerDecision::Adjust { new_quota_us: 80_000 });
    // The clock reads less than before: no time has passed.
    assert_eq!(s.tick_due(5), Some(SchedulerDecision::TooSoon));
}

#[test]
fn a_quota_that_was_not_written_is_not_kept() {
    let mut s = scheduler(SchedulerConfig::default(), 0);
    s.quota_set(40_000);
    // The writes are planned, and fail: nothing is noted.
    let plan = s.set_quota(70_000);
    assert_eq!(plan[0].content, "70000 100000");
    assert_eq!(s.current_quota(), 40_000);
    let _ = s.burst_mode();
    let _ = s.throttle();
    assert_eq!(s.current_quota(), 40_000);
    let stats = s.stats();
    assert!(stats.min_quota_us <= stats.current_quota_us);
    assert!(stats.current_quota_us <= stats.max_quota_us);
}
