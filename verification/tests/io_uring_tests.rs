use alice_container::io_uring::{enter_flags, setup_flags, sqe_flags};
use alice_container::io_uring::{
    CgroupOp, CqRingOffsets, IoUring, IoUringCgroup, IoUringCqe, IoUringError, IoUringOp,
    IoUringParams, IoUringSqe, RingRegion, SqRingOffsets, IO_URING_ENTER, IO_URING_REGISTER,
    IO_URING_SETUP,
};

fn ring() -> IoUring {
    let setup = IoUring::new(32);
    let mut params = setup.params;
    params.sq_entries = 32;
    params.cq_entries = 64;
    let layout = IoUring::layout(3, 0, &params).unwrap();
    IoUring::mapped(&layout, 31, 63)
}

#[test]
fn test_sqe_write() {
    let buf = b"test";
    let sqe = IoUringSqe::write(5, buf.as_ptr() as u64, buf.len() as u32, 0, 42);
    assert_eq!(sqe.opcode, IoUringOp::Write.as_u8());
    assert_eq!(sqe.fd, 5);
    assert_eq!(sqe.len, 4);
    assert_eq!(sqe.user_data, 42);
}

#[test]
fn test_sqe_with_link() {
    let sqe = IoUringSqe::default().with_link();
    assert_eq!(sqe.flags & sqe_flags::IOSQE_IO_LINK as u8, sqe_flags::IOSQE_IO_LINK as u8);
}

#[test]
fn test_io_uring_error_display() {
    let err = IoUringError::SetupFailed(22);
    assert!(err.to_string().contains("22"));

    let err = IoUringError::RingFull;
    assert!(err.to_string().contains("full"));
}

#[test]
fn test_cgroup_op() {
    let op = CgroupOp {
        file: "cpu.max".to_string(),
        content: "50000 100000".to_string(),
        user_data: 1,
    };
    assert_eq!(op.file, "cpu.max");
}

#[test]
fn io_uring_constants() {
    assert_eq!(setup_flags::IORING_SETUP_IOPOLL, 1 << 0);
    assert_eq!(setup_flags::IORING_SETUP_SQPOLL, 1 << 1);
    assert_eq!(setup_flags::IORING_SETUP_CQSIZE, 1 << 3);
    assert_eq!(setup_flags::IORING_SETUP_CLAMP, 1 << 4);
    assert_eq!(setup_flags::IORING_SETUP_SINGLE_ISSUER, 1 << 12);
    assert_eq!(sqe_flags::IOSQE_FIXED_FILE, 1 << 0);
    assert_eq!(sqe_flags::IOSQE_IO_LINK, 1 << 2);
    assert_eq!(sqe_flags::IOSQE_ASYNC, 1 << 4);
    assert_eq!(enter_flags::IORING_ENTER_GETEVENTS, 1 << 0);
    assert_eq!(enter_flags::IORING_ENTER_SQ_WAKEUP, 1 << 1);
    assert_eq!(enter_flags::IORING_ENTER_SQ_WAIT, 1 << 2);
    assert_eq!((IO_URING_SETUP, IO_URING_ENTER, IO_URING_REGISTER), (425, 426, 427));
    assert_eq!(IO_URING_SETUP, libc::SYS_io_uring_setup as i64);
    assert_eq!(IO_URING_ENTER, libc::SYS_io_uring_enter as i64);
}

#[test]
fn operation_codes() {
    assert_eq!(IoUringOp::Nop.as_u8(), 0);
    assert_eq!(IoUringOp::Openat.as_u8(), 18);
    assert_eq!(IoUringOp::Close.as_u8(), 19);
    assert_eq!(IoUringOp::Read.as_u8(), 22);
    assert_eq!(IoUringOp::Write.as_u8(), 23);
    assert_eq!(IoUringOp::RemoveBuffers.as_u8(), 32);
}

#[test]
fn entries_of_the_three_operations() {
    let open = IoUringSqe::openat(-100, 0x1000, 0o1001, 0o644, 7);
    assert_eq!(open.opcode, 18);
    assert_eq!(open.fd, -100);
    assert_eq!(open.addr, 0x1000);
    assert_eq!(open.len, 0o1001);
    assert_eq!(open.off, 0o644);
    assert_eq!(open.user_data, 7);
    assert_eq!(open.flags, 0);
    let close = IoUringSqe::close(9, 8);
    assert_eq!((close.opcode, close.fd, close.user_data), (19, 9, 8));
    assert_eq!((close.off, close.addr, close.len), (0, 0, 0));
    let write = IoUringSqe::write(5, 0x2000, 12, 34, 42);
    assert_eq!((write.off, write.addr, write.len), (34, 0x2000, 12));
    let linked = write.with_link().with_link();
    assert_eq!(linked.flags, 4);
    assert_eq!(IoUringSqe { flags: 1, ..write }.with_link().flags, 5);
    assert_eq!(std::mem::size_of::<IoUringSqe>(), 64);
    assert_eq!(IoUringCqe::default(), IoUringCqe { user_data: 0, res: 0, flags: 0 });
}

#[test]
fn io_uring_error_texts() {
    assert_eq!(IoUringError::SetupFailed(22).to_string(), "io_uring setup failed: errno 22");
    assert_eq!(IoUringError::SubmitFailed(-1).to_string(), "io_uring submit failed: errno -1");
    assert_eq!(
        IoUringError::OperationFailed { user_data: 3, errno: 13 }.to_string(),
        "io_uring op 3 failed: errno 13"
    );
    assert_eq!(IoUringError::RingFull.to_string(), "io_uring ring full");
    assert_eq!(IoUringError::NotSupported.to_string(), "io_uring not supported");
    assert_eq!(
        IoUringError::InvalidParameter("Invalid path".into()).to_string(),
        "Invalid parameter: Invalid path"
    );
}

#[test]
fn setup_call_and_layout() {
    let setup = IoUring::with_params(8, setup_flags::IORING_SETUP_CLAMP);
    assert_eq!(setup.number, 425);
    assert_eq!(setup.entries, 8);
    assert_eq!(setup.params.flags, 16);
    assert_eq!(setup.params.sq_entries, 0);
    assert_eq!(setup.params.sq_off, SqRingOffsets::default());
    assert_eq!(setup.params.cq_off, CqRingOffsets::default());
    assert_eq!(IoUring::new(8).params.flags, 0);

    let mut params: IoUringParams = setup.params;
    params.sq_entries = 8;
    params.cq_entries = 16;
    params.sq_off.array = 128;
    params.cq_off.cqes = 64;
    params.sq_off.tail = 4;
    assert_eq!(IoUring::layout(-1, 12, &params), Err(IoUringError::SetupFailed(12)));
    let layout = IoUring::layout(5, 0, &params).unwrap();
    assert_eq!(layout.ring_fd, 5);
    assert_eq!((layout.sq_ring.size, layout.sq_ring.offset), (128 + 8 * 4, 0));
    assert_eq!((layout.sqes.size, layout.sqes.offset), (8 * 64, 0x10000000));
    assert_eq!((layout.cq_ring.size, layout.cq_ring.offset), (64 + 16 * 16, 0x8000000));
    assert_eq!(layout.entries, 8);
    assert_eq!(layout.sq_off.tail, 4);
    params.sq_entries = u32::MAX;
    params.sq_off.array = u32::MAX;
    let layout = IoUring::layout(5, 0, &params).unwrap();
    assert_eq!(layout.sq_ring.size, u32::MAX as u64 * 5);
    assert_eq!(layout.sqes.size, u32::MAX as u64 * 64);
}

#[test]
fn failed_mappings_and_teardown() {
    let (undo, err) = IoUring::mapping_failed(RingRegion::SqRing);
    assert!(undo.is_empty());
    assert_eq!(err, IoUringError::SetupFailed(-1));
    assert_eq!(IoUring::mapping_failed(RingRegion::Sqes).0, vec![RingRegion::SqRing]);
    assert_eq!(
        IoUring::mapping_failed(RingRegion::CqRing).0,
        vec![RingRegion::Sqes, RingRegion::SqRing]
    );
    assert_eq!(IoUring::teardown(true), vec![RingRegion::Sqes, RingRegion::SqRing]);
    assert_eq!(
        IoUring::teardown(false),
        vec![RingRegion::CqRing, RingRegion::Sqes, RingRegion::SqRing]
    );
}

#[test]
fn submission_queue_arithmetic() {
    let r = ring();
    assert_eq!(r.fd(), 3);
    assert_eq!(r.sq_space_left(0, 0), 32);
    assert_eq!(r.sq_space_left(10, 42), 0);
    assert_eq!(r.sq_space_left(u32::MAX, 1), 30);
    let slot = r.queue_sqe(0, 0).unwrap();
    assert_eq!((slot.index, slot.new_tail), (0, 1));
    let slot = r.queue_sqe(30, 33).unwrap();
    assert_eq!((slot.index, slot.new_tail), (1, 34));
    let slot = r.queue_sqe(u32::MAX - 1, u32::MAX).unwrap();
    assert_eq!((slot.index, slot.new_tail), (31, 0));
    assert_eq!(r.queue_sqe(10, 42), Err(IoUringError::RingFull));
}

#[test]
fn enter_calls() {
    let r = ring();
    assert_eq!(r.submit_and_wait(5, 5, 0), None);
    assert_eq!(r.submit(5, 5), None);
    let call = r.submit_and_wait(5, 8, 2).unwrap();
    assert_eq!(call.number, 426);
    assert_eq!(call.ring_fd, 3);
    assert_eq!((call.to_submit, call.min_complete, call.flags), (3, 2, 1));
    let call = r.submit(5, 8).unwrap();
    assert_eq!((call.to_submit, call.min_complete, call.flags), (3, 0, 0));
    let call = r.submit_and_wait(5, 5, 1).unwrap();
    assert_eq!((call.to_submit, call.min_complete, call.flags), (0, 1, 1));
    let call = r.submit(u32::MAX, 2).unwrap();
    assert_eq!(call.to_submit, 3);
    assert_eq!(IoUring::enter_result(3, 0), Ok(3));
    assert_eq!(IoUring::enter_result(-1, 16), Err(IoUringError::SubmitFailed(16)));
}

#[test]
fn completion_slots() {
    let r = ring();
    assert_eq!(r.get_completions(7, 7), (vec![], 7));
    assert_eq!(r.get_completions(62, 66), (vec![62, 63, 0, 1], 66));
    assert_eq!(r.get_completions(u32::MAX, 1), (vec![63, 0], 1));
}

#[test]
fn batch_queues_and_numbers_its_operations() {
    let mut batch = IoUringCgroup::new(ring(), "/sys/fs/cgroup/alice/web");
    assert_eq!(batch.ring().fd(), 3);
    assert_eq!(batch.pending_count(), 0);
    assert!(batch.sync_batch_write().is_empty());
    batch.queue_cpu_max(50_000, 100_000);
    batch.queue_cpu_max(u64::MAX, 100_000);
    batch.queue_memory_max(268435456);
    batch.queue_memory_max(u64::MAX);
    batch.queue_io_max("8:0", 1048576, u64::MAX);
    batch.queue_write("cgroup.freeze", "1".to_string());
    let writes = batch.sync_batch_write();
    let got: Vec<(&str, &str, u64)> =
        writes.iter().map(|w| (w.path.as_str(), w.content.as_str(), w.user_data)).collect();
    assert_eq!(
        got,
        vec![
            ("/sys/fs/cgroup/alice/web/cpu.max", "50000 100000", 1),
            ("/sys/fs/cgroup/alice/web/cpu.max", "max 100000", 2),
            ("/sys/fs/cgroup/alice/web/memory.max", "268435456", 3),
            ("/sys/fs/cgroup/alice/web/memory.max", "max", 4),
            ("/sys/fs/cgroup/alice/web/io.max", "8:0 rbps=1048576", 5),
            ("/sys/fs/cgroup/alice/web/cgroup.freeze", "1", 6),
        ]
    );
    assert_eq!(batch.pending_count(), 6);
    batch.clear();
    assert_eq!(batch.pending_count(), 0);
    batch.queue_memory_max(1);
    // The numbering goes on after the batch is emptied.
    assert_eq!(batch.sync_batch_write()[0].user_data, 7);
}

#[test]
fn batch_open_requests() {
    let mut batch = IoUringCgroup::new(ring(), "/cg");
    batch.queue_cpu_max(1, 2);
    batch.queue_memory_max(3);
    let (requests, wait_nr) = batch.submit_and_wait().unwrap();
    assert_eq!(wait_nr, 2);
    assert_eq!(requests.len(), 2);
    assert_eq!(requests[0].path, "/cg/cpu.max");
    assert_eq!(requests[0].content, "1 2");
    assert_eq!(requests[1].path, "/cg/memory.max");
    for (i, request) in requests.iter().enumerate() {
        let sqe = request.sqe;
        assert_eq!(sqe.opcode, 18);
        assert_eq!(sqe.fd, libc::AT_FDCWD);
        assert_eq!(sqe.len, (libc::O_WRONLY | libc::O_TRUNC) as u32);
        assert_eq!(sqe.off, 0);
        assert_eq!(sqe.addr, 0);
        assert_eq!(sqe.flags, 4);
        assert_eq!(sqe.user_data, (i as u64 + 1) | 0x1000_0000);
    }
    let (write, close) = IoUringCgroup::write_and_close(7, 0x3000, 3, 1);
    assert_eq!((write.opcode, write.fd, write.addr, write.len, write.off), (23, 7, 0x3000, 3, 0));
    assert_eq!((write.flags, write.user_data), (4, 1));
    assert_eq!((close.opcode, close.fd, close.flags, close.user_data), (19, 7, 0, 1));
    let empty = IoUringCgroup::new(ring(), "/cg");
    let (requests, wait_nr) = empty.submit_and_wait().unwrap();
    assert!(requests.is_empty());
    assert_eq!(wait_nr, 0);
}

#[test]
fn batch_follow_ups() {
    let mut batch = IoUringCgroup::new(ring(), "/cg");
    batch.queue_cpu_max(1, 2);
    batch.queue_memory_max(30);
    let (requests, _) = batch.submit_and_wait().unwrap();
    assert_eq!((requests[0].user_data, requests[1].user_data), (1, 2));
    let done = vec![
        IoUringCqe { user_data: 2 | 0x1000_0000, res: 9, flags: 0 },
        IoUringCqe { user_data: 1 | 0x1000_0000, res: -13, flags: 0 },
        IoUringCqe { user_data: 7 | 0x1000_0000, res: 5, flags: 0 },
        IoUringCqe { user_data: 1, res: 6, flags: 0 },
        IoUringCqe { user_data: 1 | 0x1000_0000, res: 8, flags: 0 },
    ];
    let (follow_ups, wait_nr) = batch.follow_ups(&done);
    assert_eq!(wait_nr, 4);
    assert_eq!(follow_ups.len(), 2);
    let first = follow_ups[0];
    assert_eq!(first.user_data, 2);
    assert_eq!((first.write.opcode, first.write.fd, first.write.len), (23, 9, 2));
    assert_eq!((first.write.flags, first.write.user_data, first.write.addr), (4, 2, 0));
    assert_eq!((first.close.opcode, first.close.fd, first.close.flags), (19, 9, 0));
    assert_eq!(first.close.user_data, 2);
    let second = follow_ups[1];
    assert_eq!((second.user_data, second.write.fd, second.write.len), (1, 8, 3));
    assert_eq!(batch.follow_ups(&Vec::new()), (Vec::new(), 0));
}

#[test]
fn batch_refuses_nul() {
    let mut batch = IoUringCgroup::new(ring(), "/cg");
    batch.queue_write("ok", "fine".to_string());
    batch.queue_write("bad", "con\0tent".to_string());
    batch.queue_write("pa\0th", "x".to_string());
    assert_eq!(
        batch.submit_and_wait().unwrap_err(),
        IoUringError::InvalidParameter("Invalid content".into())
    );
    let mut batch = IoUringCgroup::new(ring(), "/cg");
    batch.queue_write("pa\0th", "con\0tent".to_string());
    assert_eq!(
        batch.submit_and_wait().unwrap_err(),
        IoUringError::InvalidParameter("Invalid path".into())
    );
    assert_eq!(
        IoUringCgroup::write_failed(4, Some(13)),
        IoUringError::OperationFailed { user_data: 4, errno: 13 }
    );
    assert_eq!(
        IoUringCgroup::write_failed(4, None),
        IoUringError::OperationFailed { user_data: 4, errno: -1 }
    );
}
