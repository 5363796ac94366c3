use alice_container::cgroup::FileStage;
use alice_container::namespace::{
    clone_result, clone_with_namespaces, map_write_error, pivot_root, umount, umount2,
    write_gid_map, write_uid_map, CloneFlags, IdMapping, NamespaceError, NamespaceFlags,
    Namespaces, CLONE_NEWNS, CLONE_NEWPID, MNT_DETACH,
};

#[test]
fn test_namespace_flags() {
    let flags = NamespaceFlags::CONTAINER();
    assert!(flags.contains(NamespaceFlags::NEWNS()));
    assert!(flags.contains(NamespaceFlags::NEWPID()));
    assert!(!flags.contains(NamespaceFlags::NEWNET()));
}

#[test]
fn test_namespace_flags_union() {
    let flags = NamespaceFlags::NEWNS().union(NamespaceFlags::NEWPID());
    assert!(flags.contains(NamespaceFlags::NEWNS()));
    assert!(flags.contains(NamespaceFlags::NEWPID()));
}

#[test]
fn test_id_mapping() {
    let mapping = IdMapping::root_to_user(1000);
    assert_eq!(mapping.inner_id, 0);
    assert_eq!(mapping.outer_id, 1000);
    assert_eq!(mapping.to_map_string(), "0 1000 1");
}

#[test]
fn test_clone_flags() {
    let flags = CloneFlags::container();
    assert!(flags.bits() & CLONE_NEWNS != 0);
    assert!(flags.bits() & CLONE_NEWPID != 0);
}

#[test]
fn test_namespace_error_display() {
    let err = NamespaceError::PermissionDenied;
    assert!(err.to_string().contains("Permission denied"));

    let err = NamespaceError::NotInNamespace("UTS");
    assert!(err.to_string().contains("UTS"));

    let err = NamespaceError::NotSupported;
    assert!(err.to_string().contains("not supported"));
}

#[test]
fn namespace_flag_values() {
    assert_eq!(NamespaceFlags::NEWNS().bits(), 0x00020000);
    assert_eq!(NamespaceFlags::NEWUTS().bits(), 0x04000000);
    assert_eq!(NamespaceFlags::NEWIPC().bits(), 0x08000000);
    assert_eq!(NamespaceFlags::NEWUSER().bits(), 0x10000000);
    assert_eq!(NamespaceFlags::NEWPID().bits(), 0x20000000);
    assert_eq!(NamespaceFlags::NEWNET().bits(), 0x40000000);
    assert_eq!(NamespaceFlags::NEWCGROUP().bits(), 0x02000000);
    assert_eq!(NamespaceFlags::CONTAINER().bits(), 0x2c020000);
    assert_eq!(NamespaceFlags::ALL().bits(), 0x6e020000);
    assert_eq!(NamespaceFlags::from_bits(5).bits(), 5);
    assert_eq!(NamespaceFlags::NEWNS().bits(), libc::CLONE_NEWNS);
    assert_eq!(NamespaceFlags::NEWNET().bits(), libc::CLONE_NEWNET);
}

#[test]
fn container_set_holds_the_four_together() {
    let four = NamespaceFlags::NEWNS()
        .union(NamespaceFlags::NEWPID())
        .union(NamespaceFlags::NEWUTS())
        .union(NamespaceFlags::NEWIPC());
    assert!(NamespaceFlags::CONTAINER().contains(four));
    assert_eq!(four, NamespaceFlags::CONTAINER());
    assert!(!NamespaceFlags::CONTAINER().contains(NamespaceFlags::NEWUSER()));
    assert!(NamespaceFlags::ALL().contains(NamespaceFlags::CONTAINER()));
    assert!(!NamespaceFlags::ALL().contains(NamespaceFlags::NEWUSER()));
}

#[test]
fn namespaces_and_unshare() {
    assert_eq!(Namespaces::container().flags(), NamespaceFlags::CONTAINER());
    assert_eq!(Namespaces::all().flags(), NamespaceFlags::ALL());
    let ns = Namespaces::new(NamespaceFlags::NEWNET());
    assert_eq!(ns.unshare(), 0x40000000);
    assert_eq!(NamespaceError::check(0, 1), Ok(()));
    assert_eq!(NamespaceError::check(-1, libc::EPERM), Err(NamespaceError::PermissionDenied));
}

#[test]
fn set_hostname_needs_uts() {
    let ns = Namespaces::container();
    assert_eq!(ns.set_hostname("box").unwrap().name, "box");
    let ns = Namespaces::new(NamespaceFlags::NEWNS());
    assert_eq!(ns.set_hostname("box").unwrap_err(), NamespaceError::NotInNamespace("UTS"));
}

#[test]
fn namespace_errno_mapping() {
    assert_eq!(NamespaceError::from_errno(libc::EPERM), NamespaceError::PermissionDenied);
    assert_eq!(NamespaceError::from_errno(libc::EINVAL), NamespaceError::InvalidArgument);
    assert_eq!(NamespaceError::from_errno(libc::ENOMEM), NamespaceError::OutOfMemory);
    assert_eq!(NamespaceError::from_errno(libc::ENOSYS), NamespaceError::NotSupported);
    assert_eq!(NamespaceError::from_errno(libc::EACCES), NamespaceError::OsError(libc::EACCES));
    assert_eq!(NamespaceError::from_errno(0), NamespaceError::OsError(0));
}

#[test]
fn namespace_error_texts() {
    assert_eq!(
        NamespaceError::PermissionDenied.to_string(),
        "Permission denied (need CAP_SYS_ADMIN)"
    );
    assert_eq!(NamespaceError::InvalidArgument.to_string(), "Invalid argument");
    assert_eq!(NamespaceError::OutOfMemory.to_string(), "Out of memory");
    assert_eq!(NamespaceError::NotInNamespace("UTS").to_string(), "Not in UTS namespace");
    assert_eq!(NamespaceError::InvalidPath.to_string(), "Invalid path");
    assert_eq!(
        NamespaceError::NotSupported.to_string(),
        "Operation not supported on this platform"
    );
    assert_eq!(NamespaceError::OsError(13).to_string(), "OS error: 13");
    assert_eq!(NamespaceError::OsError(-7).to_string(), "OS error: -7");
    assert_eq!(NamespaceError::OsError(i32::MIN).to_string(), "OS error: -2147483648");
}

#[test]
fn clone_call_carries_sigchld() {
    let call = clone_with_namespaces(CloneFlags::container(), 1024 * 1024);
    assert_eq!(call.flags, 0x2c020000 | libc::SIGCHLD);
    assert_eq!(call.stack_size, 1024 * 1024);
    let extra = CloneFlags { namespaces: NamespaceFlags::NEWNS(), extra: 0x100 };
    assert_eq!(extra.bits(), 0x00020100);
    assert_eq!(clone_result(77, 0), Ok(77));
    assert_eq!(clone_result(-1, libc::ENOMEM), Err(NamespaceError::OutOfMemory));
}

#[test]
fn pivot_and_umount_calls() {
    let call = pivot_root("/new", "/new/.old_root").unwrap();
    assert_eq!(call.new_root, "/new");
    assert_eq!(call.put_old, "/new/.old_root");
    assert_eq!(pivot_root("/n\0ew", "/x").unwrap_err(), NamespaceError::InvalidPath);
    assert_eq!(pivot_root("/new", "\0").unwrap_err(), NamespaceError::InvalidPath);
    let call = umount("/mnt").unwrap();
    assert_eq!((call.target.as_str(), call.flags), ("/mnt", 0));
    let call = umount2("/.old_root", MNT_DETACH).unwrap();
    assert_eq!((call.target.as_str(), call.flags), ("/.old_root", 2));
    assert_eq!(umount2("a\0", 0).unwrap_err(), NamespaceError::InvalidPath);
    assert_eq!(MNT_DETACH, libc::MNT_DETACH);
}

#[test]
fn id_map_writes() {
    let identity = IdMapping::identity(1000);
    assert_eq!((identity.inner_id, identity.outer_id, identity.count), (1000, 1000, 1));
    let mapping = IdMapping { inner_id: 0, outer_id: 100000, count: 65536 };
    assert_eq!(mapping.to_map_string(), "0 100000 65536");
    let w = write_uid_map(4321, &mapping);
    assert_eq!(w.path, "/proc/4321/uid_map");
    assert_eq!(w.content, "0 100000 65536\n");
    let plan = write_gid_map(4321, &mapping);
    assert_eq!(plan.deny_setgroups.path, "/proc/4321/setgroups");
    assert_eq!(plan.deny_setgroups.content, "deny");
    assert_eq!(plan.map.path, "/proc/4321/gid_map");
    assert_eq!(plan.map.content, "0 100000 65536\n");
    assert_eq!(map_write_error(FileStage::Open), NamespaceError::PermissionDenied);
    assert_eq!(map_write_error(FileStage::Transfer), NamespaceError::InvalidArgument);
}
