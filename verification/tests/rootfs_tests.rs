use alice_container::cgroup::{FailureKind, FileFailure, FileStage};
use alice_container::rootfs::mount_flags;
use alice_container::rootfs::{
    after_step, contains_nul, create_device_node, device_node_result, mount, mount_dev,
    mount_proc, mount_result, step_error, MountCall, RootFs, RootFsError, RootFsStep,
};

fn mount_of(step: &RootFsStep) -> &MountCall {
    match step {
        RootFsStep::Mount(call) => call,
        other => panic!("expected a mount, found {:?}", other),
    }
}

fn dir_of(step: &RootFsStep) -> &str {
    match step {
        RootFsStep::CreateDirAll { path } => path.as_str(),
        other => panic!("expected a directory, found {:?}", other),
    }
}

fn rootfs() -> RootFs {
    RootFs::open("/c/root", true).unwrap()
}

#[test]
fn test_mount_flags() {
    assert!(mount_flags::MS_RDONLY > 0);
    assert!(mount_flags::MS_BIND > 0);
    assert!(mount_flags::MS_REC > 0);
}

#[test]
fn test_rootfs_error_display() {
    let err = RootFsError::PathNotFound("/test".into());
    assert!(err.to_string().contains("/test"));

    let err = RootFsError::PermissionDenied;
    assert!(err.to_string().contains("Permission"));

    let err = RootFsError::NotSupported;
    assert!(err.to_string().contains("Not supported"));
}

#[test]
fn mount_flag_values() {
    assert_eq!(mount_flags::MS_RDONLY, 1);
    assert_eq!(mount_flags::MS_NOSUID, 2);
    assert_eq!(mount_flags::MS_NODEV, 4);
    assert_eq!(mount_flags::MS_NOEXEC, 8);
    assert_eq!(mount_flags::MS_REMOUNT, 32);
    assert_eq!(mount_flags::MS_BIND, 4096);
    assert_eq!(mount_flags::MS_REC, 16384);
    assert_eq!(mount_flags::MS_PRIVATE, 1 << 18);
    assert_eq!(mount_flags::MS_SLAVE, 1 << 19);
    assert_eq!(mount_flags::MS_BIND, libc::MS_BIND as u64);
    assert_eq!(mount_flags::MS_PRIVATE, libc::MS_PRIVATE as u64);
    assert_eq!(mount_flags::MS_REMOUNT, libc::MS_REMOUNT as u64);
}

#[test]
fn rootfs_error_texts() {
    assert_eq!(RootFsError::PathNotFound("/x".into()).to_string(), "Path not found: /x");
    assert_eq!(RootFsError::PermissionDenied.to_string(), "Permission denied");
    assert_eq!(RootFsError::MountFailed("errno: 1".into()).to_string(), "Mount failed: errno: 1");
    assert_eq!(
        RootFsError::DeviceCreationFailed("null: errno 1".into()).to_string(),
        "Device creation failed: null: errno 1"
    );
    assert_eq!(RootFsError::IoError("x".into()).to_string(), "I/O error: x");
    assert_eq!(RootFsError::NotSupported.to_string(), "Not supported on this platform");
    let denied = FileFailure {
        stage: FileStage::Open,
        kind: FailureKind::PermissionDenied,
        message: "denied".into(),
    };
    assert_eq!(RootFsError::from_io(&denied), RootFsError::PermissionDenied);
    let missing =
        FileFailure { stage: FileStage::Open, kind: FailureKind::NotFound, message: "nf".into() };
    assert_eq!(RootFsError::from_io(&missing), RootFsError::IoError("nf".into()));
}

#[test]
fn mount_checks_for_nul() {
    let call = mount(Some("tmpfs"), "/t", Some("tmpfs"), 6, Some("size=64M")).unwrap();
    assert_eq!(call.source.as_deref(), Some("tmpfs"));
    assert_eq!(call.target, "/t");
    assert_eq!(call.fstype.as_deref(), Some("tmpfs"));
    assert_eq!(call.flags, 6);
    assert_eq!(call.data.as_deref(), Some("size=64M"));
    let call = mount(None, "/", None, 0, None).unwrap();
    assert!(call.source.is_none() && call.fstype.is_none() && call.data.is_none());
    assert_eq!(
        mount(Some("a\0"), "b\0", Some("c\0"), 0, Some("d\0")).unwrap_err(),
        RootFsError::IoError("Invalid source path".into())
    );
    assert_eq!(
        mount(Some("a"), "b\0", Some("c\0"), 0, Some("d\0")).unwrap_err(),
        RootFsError::IoError("Invalid target path".into())
    );
    assert_eq!(
        mount(None, "b", Some("c\0"), 0, Some("d\0")).unwrap_err(),
        RootFsError::IoError("Invalid filesystem type".into())
    );
    assert_eq!(
        mount(None, "b", None, 0, Some("d\0")).unwrap_err(),
        RootFsError::IoError("Invalid mount data".into())
    );
    assert!(contains_nul("\0"));
    assert!(!contains_nul(""));
}

#[test]
fn mount_result_reports_errno() {
    assert_eq!(mount_result(0, 5), Ok(()));
    assert_eq!(mount_result(-1, 16), Err(RootFsError::MountFailed("errno: 16".into())));
}

#[test]
fn proc_mount_steps() {
    let steps = mount_proc("/c/root/proc");
    assert_eq!(steps.len(), 2);
    assert_eq!(dir_of(&steps[0]), "/c/root/proc");
    let call = mount_of(&steps[1]);
    assert_eq!(call.source.as_deref(), Some("proc"));
    assert_eq!(call.target, "/c/root/proc");
    assert_eq!(call.fstype.as_deref(), Some("proc"));
    assert_eq!(call.flags, 2 | 4 | 8);
    assert!(call.data.is_none());
    let same = rootfs().mount_proc();
    assert_eq!(mount_of(&same[1]).target, "/c/root/proc");
}

#[test]
fn dev_setup_steps() {
    let steps = mount_dev("/c/root/dev");
    assert_eq!(steps.len(), 14);
    assert_eq!(dir_of(&steps[0]), "/c/root/dev");
    let call = mount_of(&steps[1]);
    assert_eq!(call.fstype.as_deref(), Some("tmpfs"));
    assert_eq!(call.flags, mount_flags::MS_NOSUID);
    assert_eq!(call.data.as_deref(), Some("mode=755,size=64K"));
    let mut nodes = Vec::new();
    for step in &steps[2..8] {
        match step {
            RootFsStep::MakeNode { dir, name, major, minor, mode } => {
                assert_eq!(dir, "/c/root/dev");
                nodes.push((name.clone(), *major, *minor, *mode));
            }
            other => panic!("expected a device node, found {:?}", other),
        }
    }
    assert_eq!(
        nodes,
        vec![
            ("null".to_string(), 1, 3, 0o666),
            ("zero".to_string(), 1, 5, 0o666),
            ("random".to_string(), 1, 8, 0o666),
            ("urandom".to_string(), 1, 9, 0o666),
            ("tty".to_string(), 5, 0, 0o666),
            ("console".to_string(), 5, 1, 0o620),
        ]
    );
    assert_eq!(dir_of(&steps[8]), "/c/root/dev/pts");
    assert_eq!(dir_of(&steps[9]), "/c/root/dev/shm");
    let mut links = Vec::new();
    for step in &steps[10..] {
        match step {
            RootFsStep::Symlink { target, link, create_parents } => {
                assert!(!*create_parents);
                links.push((target.clone(), link.clone()));
            }
            other => panic!("expected a link, found {:?}", other),
        }
    }
    assert_eq!(
        links,
        vec![
            ("/proc/self/fd".to_string(), "/c/root/dev/fd".to_string()),
            ("/proc/self/fd/0".to_string(), "/c/root/dev/stdin".to_string()),
            ("/proc/self/fd/1".to_string(), "/c/root/dev/stdout".to_string()),
            ("/proc/self/fd/2".to_string(), "/c/root/dev/stderr".to_string()),
        ]
    );
    assert_eq!(rootfs().setup_dev().len(), 14);
}

#[test]
fn device_nodes() {
    let node = create_device_node("/c/root/dev", "null", 1, 3, 0o666).unwrap();
    assert_eq!(node.path, "/c/root/dev/null");
    assert_eq!(node.mode, libc::S_IFCHR | 0o666);
    assert_eq!(node.dev, libc::makedev(1, 3));
    assert_eq!(node.dev, 0x103);
    let big = create_device_node("/d", "x", 0xfff_ff, 0xabc_de, 0).unwrap();
    assert_eq!(big.dev, libc::makedev(0xfff_ff, 0xabc_de));
    assert_ne!(big.dev, 0xfff_ff);
    assert_eq!(
        create_device_node("/d\0", "x", 1, 3, 0).unwrap_err(),
        RootFsError::IoError("Invalid path".into())
    );
    assert_eq!(device_node_result("null", 0, 0), Ok(()));
    assert_eq!(device_node_result("null", -1, libc::EEXIST), Ok(()));
    assert_eq!(
        device_node_result("null", -1, libc::EPERM),
        Err(RootFsError::DeviceCreationFailed("null: errno 1".into()))
    );
}

#[test]
fn layout_of_a_new_root() {
    let (fs, steps) = RootFs::create("/c/root");
    assert_eq!(fs.path(), "/c/root");
    assert!(!fs.cleanup());
    assert_eq!(steps.len(), 13);
    let dirs: Vec<&str> = steps[..12].iter().map(dir_of).collect();
    assert_eq!(
        dirs,
        vec![
            "/c/root",
            "/c/root/bin",
            "/c/root/lib",
            "/c/root/lib64",
            "/c/root/usr",
            "/c/root/etc",
            "/c/root/proc",
            "/c/root/dev",
            "/c/root/sys",
            "/c/root/tmp",
            "/c/root/root",
            "/c/root/.old_root",
        ]
    );
    match &steps[12] {
        RootFsStep::SetMode { path, mode } => {
            assert_eq!(path, "/c/root/tmp");
            assert_eq!(*mode, 0o1777);
        }
        other => panic!("expected a mode, found {:?}", other),
    }
    assert!(fs.with_cleanup().cleanup());
}

#[test]
fn open_needs_the_path() {
    assert_eq!(
        RootFs::open("/nowhere", false).err(),
        Some(RootFsError::PathNotFound("/nowhere".into()))
    );
    assert_eq!(rootfs().path(), "/c/root");
}

#[test]
fn bind_mounts() {
    let steps = rootfs().bind_mount("/usr", "usr");
    assert_eq!(steps.len(), 2);
    assert_eq!(dir_of(&steps[0]), "/c/root/usr");
    let call = mount_of(&steps[1]);
    assert_eq!(call.source.as_deref(), Some("/usr"));
    assert_eq!(call.target, "/c/root/usr");
    assert_eq!(call.flags, 4096 | 16384);
    let steps = rootfs().bind_mount_ro("/lib", "lib");
    assert_eq!(steps.len(), 3);
    assert_eq!(mount_of(&steps[1]).flags, 4096 | 16384);
    let again = mount_of(&steps[2]);
    assert!(again.source.is_none());
    assert_eq!(again.target, "/c/root/lib");
    assert_eq!(again.flags, 32 | 4096 | 1);
}

#[test]
fn sys_and_tmp_mounts() {
    let steps = rootfs().mount_sys();
    assert_eq!(steps.len(), 1);
    let call = mount_of(&steps[0]);
    assert_eq!(call.source.as_deref(), Some("sysfs"));
    assert_eq!(call.target, "/c/root/sys");
    assert_eq!(call.fstype.as_deref(), Some("sysfs"));
    assert_eq!(call.flags, 2 | 4 | 8);
    let steps = rootfs().mount_tmp();
    let call = mount_of(&steps[0]);
    assert_eq!(call.target, "/c/root/tmp");
    assert_eq!(call.fstype.as_deref(), Some("tmpfs"));
    assert_eq!(call.flags, 2 | 4);
    assert_eq!(call.data.as_deref(), Some("size=64M,mode=1777"));
}

#[test]
fn files_in_etc() {
    match rootfs().set_hostname("box") {
        RootFsStep::WriteFile { path, content } => {
            assert_eq!(path, "/c/root/etc/hostname");
            assert_eq!(content, "box\n");
        }
        other => panic!("expected a file, found {:?}", other),
    }
    match rootfs().set_hosts("box") {
        RootFsStep::WriteFile { path, content } => {
            assert_eq!(path, "/c/root/etc/hosts");
            assert_eq!(content, "127.0.0.1\tlocalhost\n::1\t\tlocalhost\n127.0.0.1\tbox\n");
        }
        other => panic!("expected a file, found {:?}", other),
    }
    match rootfs().set_resolv_conf(&["1.1.1.1", "8.8.8.8"]) {
        RootFsStep::WriteFile { path, content } => {
            assert_eq!(path, "/c/root/etc/resolv.conf");
            assert_eq!(content, "nameserver 1.1.1.1\nnameserver 8.8.8.8\n");
        }
        other => panic!("expected a file, found {:?}", other),
    }
    match rootfs().set_resolv_conf(&[]) {
        RootFsStep::WriteFile { content, .. } => assert_eq!(content, ""),
        other => panic!("expected a file, found {:?}", other),
    }
}

#[test]
fn copies_and_links() {
    match rootfs().copy_file("/bin/sh", "bin/sh") {
        RootFsStep::CopyFile { from, to } => {
            assert_eq!(from, "/bin/sh");
            assert_eq!(to, "/c/root/bin/sh");
        }
        other => panic!("expected a copy, found {:?}", other),
    }
    match rootfs().symlink("/proc/mounts", "etc/mtab") {
        RootFsStep::Symlink { target, link, create_parents } => {
            assert_eq!(target, "/proc/mounts");
            assert_eq!(link, "/c/root/etc/mtab");
            assert!(create_parents);
        }
        other => panic!("expected a link, found {:?}", other),
    }
    // A target that starts at the root replaces the root's path.
    match rootfs().copy_file("/a", "/elsewhere") {
        RootFsStep::CopyFile { to, .. } => assert_eq!(to, "/elsewhere"),
        other => panic!("expected a copy, found {:?}", other),
    }
}

#[test]
fn pivot_preparation_keeps_its_order() {
    let (steps, put_old) = rootfs().prepare_pivot();
    assert_eq!(put_old, "/c/root/.old_root");
    assert_eq!(steps.len(), 3);
    let private = mount_of(&steps[0]);
    assert!(private.source.is_none());
    assert_eq!(private.target, "/");
    assert_eq!(private.flags, 16384 | (1 << 18));
    let bind = mount_of(&steps[1]);
    assert_eq!(bind.source.as_deref(), Some("/c/root"));
    assert_eq!(bind.target, "/c/root");
    assert_eq!(bind.flags, 4096 | 16384);
    assert_eq!(dir_of(&steps[2]), "/c/root/.old_root");
}

#[test]
fn old_root_cleanup() {
    let steps = RootFs::cleanup_old_root();
    assert_eq!(steps.len(), 2);
    match &steps[0] {
        RootFsStep::Unmount { target, flags } => {
            assert_eq!(target, "/.old_root");
            assert_eq!(*flags, 2);
        }
        other => panic!("expected an unmount, found {:?}", other),
    }
    match &steps[1] {
        RootFsStep::RemoveDir { path } => assert_eq!(path, "/.old_root"),
        other => panic!("expected a removal, found {:?}", other),
    }
}

#[test]
fn steps_are_taken_in_order_up_to_the_first_failure() {
    let (steps, _) = rootfs().prepare_pivot();
    assert_eq!(after_step(&steps, 0, true), Some(1));
    assert_eq!(after_step(&steps, 1, true), Some(2));
    assert_eq!(after_step(&steps, 2, true), None);
    assert_eq!(after_step(&steps, 0, false), None);
    assert_eq!(after_step(&steps, 7, true), None);
    assert_eq!(after_step(&steps, usize::MAX, true), None);
    let denied = FileFailure {
        stage: FileStage::Open,
        kind: FailureKind::PermissionDenied,
        message: "denied".into(),
    };
    let busy =
        FileFailure { stage: FileStage::Open, kind: FailureKind::Other, message: "busy".into() };
    let cleanup = RootFs::cleanup_old_root();
    assert_eq!(step_error(&cleanup[0], &busy), RootFsError::MountFailed("umount old_root".into()));
    assert_eq!(step_error(&cleanup[1], &busy), RootFsError::IoError("busy".into()));
    assert_eq!(step_error(&steps[2], &denied), RootFsError::PermissionDenied);
}
