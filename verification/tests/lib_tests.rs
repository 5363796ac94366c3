use alice_container::{ALICE_CGROUP, CGROUP_ROOT, DEFAULT_CPU_PERIOD_US, DEFAULT_MEMORY_MAX};

#[test]
fn test_constants() {
    assert_eq!(DEFAULT_CPU_PERIOD_US, 100_000);
    assert_eq!(DEFAULT_MEMORY_MAX, 1024 * 1024 * 1024);
}

#[test]
fn cgroup_roots() {
    assert_eq!(CGROUP_ROOT, "/sys/fs/cgroup");
    assert_eq!(ALICE_CGROUP, "/sys/fs/cgroup/alice");
}
