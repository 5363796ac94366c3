use alice_container::psi::{
    is_psi_available, is_psi_triggers_available, trigger_probe, PsiError, PsiEvent, PsiLevel,
    PsiMonitor, PsiResource, PsiScheduler, PsiStatLine, PsiStats, PsiTrigger,
};

#[test]
fn test_psi_resource_paths() {
    assert_eq!(PsiResource::Cpu.proc_path(), "/proc/pressure/cpu");
    assert_eq!(PsiResource::Memory.proc_path(), "/proc/pressure/memory");
    assert_eq!(PsiResource::Io.proc_path(), "/proc/pressure/io");
}

#[test]
fn test_psi_trigger_string() {
    let trigger = PsiTrigger::cpu_some(50_000, 1_000_000);
    assert_eq!(trigger.to_trigger_string(), "some 50000 1000000");

    let trigger = PsiTrigger::cpu_full(100_000, 1_000_000);
    assert_eq!(trigger.to_trigger_string(), "full 100000 1000000");
}

#[test]
fn test_psi_stats_parse() {
    let content = "some avg10=0.00 avg60=0.00 avg300=0.00 total=12345\nfull avg10=0.00 avg60=0.00 avg300=0.00 total=0";
    let stats = PsiStats::parse(content);

    assert_eq!(stats.some.total, 12345);
    assert!(stats.full.is_some());
}

#[test]
fn test_psi_stat_line_parse() {
    let line = "some avg10=1.23 avg60=4.56 avg300=7.89 total=123456";
    let stat = PsiStatLine::parse_line(line);

    assert!((stat.avg10 as f64 / 100.0 - 1.23).abs() < 0.01);
    assert!((stat.avg60 as f64 / 100.0 - 4.56).abs() < 0.01);
    assert!((stat.avg300 as f64 / 100.0 - 7.89).abs() < 0.01);
    assert_eq!(stat.total, 123456);
}

#[test]
fn test_psi_error_display() {
    let err = PsiError::NotAvailable;
    assert!(err.to_string().contains("not available"));

    let err = PsiError::NotSupported;
    assert!(err.to_string().contains("not supported"));
}

#[test]
fn test_psi_level() {
    assert_eq!(PsiLevel::Partial.as_str(), "some");
    assert_eq!(PsiLevel::Full.as_str(), "full");
}

#[test]
fn psi_cgroup_files() {
    assert_eq!(PsiResource::Cpu.cgroup_file(), "cpu.pressure");
    assert_eq!(PsiResource::Memory.cgroup_file(), "memory.pressure");
    assert_eq!(PsiResource::Io.cgroup_file(), "io.pressure");
}

#[test]
fn psi_trigger_constructors() {
    let t = PsiTrigger::new(PsiResource::Io, PsiLevel::Full, 1, 2);
    assert_eq!(t, PsiTrigger::io(PsiLevel::Full, 1, 2));
    assert_eq!(t.to_trigger_string(), "full 1 2");
    let m = PsiTrigger::memory(PsiLevel::Partial, 150_000, 2_000_000);
    assert_eq!(m.resource, PsiResource::Memory);
    assert_eq!(m.to_trigger_string(), "some 150000 2000000");
    assert_eq!(PsiTrigger::cpu_some(0, u64::MAX).to_trigger_string(), "some 0 18446744073709551615");
}

#[test]
fn psi_stats_scenario() {
    let content = "some avg10=1.23 avg60=4.56 avg300=7.89 total=123456\nfull avg10=0 avg60=0 avg300=0 total=0";
    let stats = PsiStats::parse(content);
    assert_eq!(stats.some.total, 123456);
    assert_eq!(stats.some.avg10, 123);
    assert_eq!(stats.some.avg60, 456);
    assert_eq!(stats.some.avg300, 789);
    assert!((stats.some.avg10 as f64 / 100.0 - 1.23).abs() < 0.01);
    assert_eq!(stats.full, Some(PsiStatLine { avg10: 0, avg60: 0, avg300: 0, total: 0 }));
}

#[test]
fn psi_stats_tolerate_missing_fields() {
    let stats = PsiStats::parse("some total=5\n");
    assert_eq!(stats.some, PsiStatLine { avg10: 0, avg60: 0, avg300: 0, total: 5 });
    assert_eq!(stats.full, None);
    let stats = PsiStats::parse("");
    assert_eq!(stats, PsiStats::default());
    let line = PsiStatLine::parse_line("some avg10=12 avg60=3.4 avg300=0.567 total=x foo=1 bar");
    assert_eq!(line, PsiStatLine { avg10: 1200, avg60: 340, avg300: 56, total: 0 });
    let line = PsiStatLine::parse_line("some avg10=1.2.3 avg60=abc avg300=5. total=18446744073709551616");
    assert_eq!(line, PsiStatLine { avg10: 0, avg60: 0, avg300: 500, total: 0 });
    assert_eq!(PsiStatLine::parse_line(""), PsiStatLine::default());
    // The first word is the level and is never read as a field.
    assert_eq!(PsiStatLine::parse_line("total=9 total=3").total, 3);
    // A later line of the same level replaces the earlier one.
    let stats = PsiStats::parse("some total=1\nsome total=2\nfull total=3\nother total=4");
    assert_eq!(stats.some.total, 2);
    assert_eq!(stats.full.unwrap().total, 3);
}

#[test]
fn psi_error_texts() {
    assert_eq!(PsiError::NotAvailable.to_string(), "PSI not available (requires Linux 4.20+)");
    assert_eq!(
        PsiError::TriggerFailed("busy".into()).to_string(),
        "Trigger registration failed: busy"
    );
    assert_eq!(PsiError::EpollError(9).to_string(), "epoll error: errno 9");
    assert_eq!(PsiError::IoError("gone".into()).to_string(), "I/O error: gone");
    assert_eq!(PsiError::NotSupported.to_string(), "PSI not supported on this platform");
    assert_eq!(PsiError::from_io("gone"), PsiError::IoError("gone".into()));
}

#[test]
fn monitor_needs_pressure_information() {
    assert_eq!(PsiMonitor::new(false).err(), Some(PsiError::NotAvailable));
    assert_eq!(PsiMonitor::for_cgroup("/cg", false).err(), Some(PsiError::NotAvailable));
    let m = PsiMonitor::new(true).unwrap();
    assert_eq!(m.trigger_count(), 0);
    assert_eq!(m.stats_path(PsiResource::Memory), "/proc/pressure/memory");
    let m = PsiMonitor::for_cgroup("/sys/fs/cgroup/alice/web", true).unwrap();
    assert_eq!(m.stats_path(PsiResource::Io), "/sys/fs/cgroup/alice/web/io.pressure");
}

#[test]
fn monitor_registers_triggers_under_their_index() {
    let mut m = PsiMonitor::for_cgroup("/cg", true).unwrap();
    let first = PsiTrigger::cpu_some(50_000, 1_000_000);
    let reg = m.add_trigger(&first);
    assert_eq!(reg.path, "/cg/cpu.pressure");
    assert_eq!(reg.content, "some 50000 1000000");
    assert_eq!(reg.events, libc::EPOLLPRI as u32);
    assert_eq!(reg.key, 0);
    m.trigger_added(first);
    let second = PsiTrigger::memory(PsiLevel::Full, 1, 2);
    let reg = m.add_trigger(&second);
    assert_eq!(reg.path, "/cg/memory.pressure");
    assert_eq!(reg.key, 1);
    m.trigger_added(second);
    assert_eq!(m.trigger_count(), 2);
    assert_eq!(
        m.wait_event(1, 0, 0),
        Ok(Some(PsiEvent::CpuPressure {
            level: PsiLevel::Partial,
            threshold_us: 50_000,
            window_us: 1_000_000
        }))
    );
    assert_eq!(
        m.wait_event(2, 0, 1),
        Ok(Some(PsiEvent::MemoryPressure { level: PsiLevel::Full, threshold_us: 1, window_us: 2 }))
    );
    assert_eq!(m.wait_event(1, 0, 2), Ok(None));
    assert_eq!(m.wait_event(1, 0, u64::MAX), Ok(None));
    assert_eq!(m.wait_event(0, 0, 0), Ok(None));
    assert_eq!(m.wait_event(-1, libc::EINTR, 0), Ok(None));
    assert_eq!(m.wait_event(-1, libc::EBADF, 0), Err(PsiError::EpollError(libc::EBADF)));
}

#[test]
fn monitor_io_event_and_calls() {
    let mut m = PsiMonitor::new(true).unwrap();
    m.trigger_added(PsiTrigger::io(PsiLevel::Partial, 3, 4));
    assert_eq!(
        m.wait_event(1, 0, 0),
        Ok(Some(PsiEvent::IoPressure { level: PsiLevel::Partial, threshold_us: 3, window_us: 4 }))
    );
    let call = PsiMonitor::wait_call(100);
    assert_eq!((call.max_events, call.timeout_ms), (16, 100));
    assert_eq!(PsiMonitor::wait_call(0).timeout_ms, 0);
    assert_eq!(PsiMonitor::epoll_result(4, 0), Ok(4));
    assert_eq!(PsiMonitor::epoll_result(-1, 24), Err(PsiError::EpollError(24)));
    assert_eq!(PsiMonitor::registration_error(false, "no"), PsiError::IoError("no".into()));
    assert_eq!(PsiMonitor::registration_error(true, "no"), PsiError::TriggerFailed("no".into()));
    assert_eq!(m.read_stats("some total=8").some.total, 8);
}

#[test]
fn psi_scheduler_start_plan() {
    assert_eq!(PsiScheduler::new("/cg", false).err(), Some(PsiError::NotAvailable));
    let s = PsiScheduler::new("/cg", true).unwrap();
    assert_eq!(s.current_quota(), 100_000);
    let (trigger, registration, quota) = s.start();
    assert_eq!(trigger, PsiTrigger::cpu_some(50_000, 1_000_000));
    assert_eq!(registration.path, "/cg/cpu.pressure");
    assert_eq!(registration.content, "some 50000 1000000");
    assert_eq!(registration.key, 0);
    assert_eq!(quota.path, "/cg/cpu.max");
    assert_eq!(quota.content, "100000 100000");
    assert_eq!(quota.quota_us, 100_000);
}

#[test]
fn psi_scheduler_raises_the_quota_under_pressure() {
    let mut s = PsiScheduler::new("/cg", true).unwrap().configure(10_000, 100_000, 40_000);
    let (trigger, _, _) = s.start();
    s.trigger_added(trigger);
    let event = s.event(1, 0, 0).unwrap();
    assert_eq!(
        event,
        Some(PsiEvent::CpuPressure {
            level: PsiLevel::Partial,
            threshold_us: 50_000,
            window_us: 1_000_000
        })
    );
    let write = s.tick(event).unwrap();
    assert_eq!(write.quota_us, 60_000);
    assert_eq!(write.content, "60000 100000");
    assert_eq!(write.path, "/cg/cpu.max");
    assert_eq!(s.current_quota(), 40_000);
    s.quota_written(write.quota_us);
    assert_eq!(s.current_quota(), 60_000);
    // 60000 * 1.5 = 90000, then the maximum.
    let write = s.wait(event).unwrap();
    assert_eq!(write.quota_us, 90_000);
    s.quota_written(90_000);
    let write = s.handle_cpu_pressure(PsiLevel::Partial).unwrap();
    assert_eq!(write.quota_us, 100_000);
    s.quota_written(100_000);
    assert!(s.handle_cpu_pressure(PsiLevel::Partial).is_none());
    assert!(s.handle_cpu_pressure(PsiLevel::Full).is_none());
    assert!(s.tick(None).is_none());
}

#[test]
fn psi_scheduler_full_pressure_goes_to_the_maximum() {
    let s = PsiScheduler::new("/cg", true).unwrap().configure(10_000, 80_000, 20_000);
    let write = s.handle_cpu_pressure(PsiLevel::Full).unwrap();
    assert_eq!(write.quota_us, 80_000);
    assert_eq!(write.content, "80000 100000");
    let memory = PsiEvent::MemoryPressure { level: PsiLevel::Full, threshold_us: 1, window_us: 2 };
    assert!(s.tick(Some(memory)).is_none());
    let io = PsiEvent::IoPressure { level: PsiLevel::Full, threshold_us: 1, window_us: 2 };
    assert!(s.wait(Some(io)).is_none());
    assert_eq!(s.write_quota(u64::MAX).content, "18446744073709551615 100000");
}

#[test]
fn psi_availability() {
    assert!(is_psi_available(true));
    assert!(!is_psi_available(false));
    assert_eq!(trigger_probe(), "some 500000 1000000");
    assert!(is_psi_triggers_available(true, true));
    assert!(!is_psi_triggers_available(true, false));
    assert!(!is_psi_triggers_available(false, false));
}
