use alice_container::db_bridge::{ContainerDbSink, ContainerRecord, DbBridgeError};

#[test]
fn test_record_serialization() {
    let record = ContainerRecord {
        container_id: 42,
        timestamp_ms: 1000,
        cpu_percent_bits: 55.5f32.to_bits(),
        memory_bytes: 1024 * 1024,
        io_read_bytes: 4096,
        io_write_bytes: 2048,
    };
    let bytes = record.to_bytes();
    let restored = ContainerRecord::from_bytes(&bytes).expect("deserialization must succeed");
    assert_eq!(restored.container_id, 42);
    assert!((f32::from_bits(restored.cpu_percent_bits) - 55.5).abs() < 0.01);
    assert_eq!(restored.memory_bytes, 1024 * 1024);
}

#[test]
fn test_try_from_slice_invalid_length() {
    let short = [0u8; 20];
    assert!(ContainerRecord::try_from_slice(&short).is_err());

    let long = [0u8; 50];
    assert!(ContainerRecord::try_from_slice(&long).is_err());
}

#[test]
fn test_try_from_slice_exact_length() {
    let record = ContainerRecord {
        container_id: 1,
        timestamp_ms: 500,
        cpu_percent_bits: 25.0f32.to_bits(),
        memory_bytes: 512,
        io_read_bytes: 128,
        io_write_bytes: 64,
    };
    let bytes = record.to_bytes();
    let restored = ContainerRecord::try_from_slice(&bytes).expect("exact 40 bytes must succeed");
    assert_eq!(restored.container_id, 1);
}

#[test]
fn record_layout_is_little_endian() {
    let record = ContainerRecord {
        container_id: 0x0102030405060708,
        timestamp_ms: 0x1112131415161718,
        cpu_percent_bits: 55.5f32.to_bits(),
        memory_bytes: 0x2122232425262728,
        io_read_bytes: 0x3132333435363738,
        io_write_bytes: 0x4142434445464748,
    };
    let bytes = record.to_bytes();
    let mut expected = Vec::new();
    expected.extend_from_slice(&0x0102030405060708u64.to_le_bytes());
    expected.extend_from_slice(&0x1112131415161718u64.to_le_bytes());
    expected.extend_from_slice(&55.5f32.to_le_bytes());
    expected.extend_from_slice(&0x2122232425262728u64.to_le_bytes());
    expected.extend_from_slice(&0x3132333435363738u64.to_le_bytes());
    expected.extend_from_slice(&0x45464748u32.to_le_bytes());
    assert_eq!(bytes.to_vec(), expected);
    let back = ContainerRecord::from_bytes(&bytes).unwrap();
    assert_eq!(back, ContainerRecord { io_write_bytes: 0x45464748, ..record });
}

#[test]
fn wrong_lengths_are_named() {
    assert_eq!(
        ContainerRecord::try_from_slice(&[0u8; 20]),
        Err(DbBridgeError::InvalidBufferLength { expected: 40, got: 20 })
    );
    assert_eq!(
        ContainerRecord::try_from_slice(&[]),
        Err(DbBridgeError::InvalidBufferLength { expected: 40, got: 0 })
    );
    assert_eq!(
        DbBridgeError::InvalidBufferLength { expected: 40, got: 50 }.to_string(),
        "invalid buffer length: expected 40 bytes, got 50"
    );
}

#[test]
fn keys_sort_by_container_then_time() {
    let key = ContainerDbSink::make_key(0x0102030405060708, 0x1112131415161718);
    let mut expected = Vec::new();
    expected.extend_from_slice(&0x0102030405060708u64.to_be_bytes());
    expected.extend_from_slice(&0x1112131415161718u64.to_be_bytes());
    assert_eq!(key.to_vec(), expected);
    assert!(ContainerDbSink::make_key(1, u64::MAX) < ContainerDbSink::make_key(2, 0));
    assert!(ContainerDbSink::make_key(1, 255) < ContainerDbSink::make_key(1, 256));
}

#[test]
fn sink_counts_what_it_stores() {
    let record = ContainerRecord {
        container_id: 7,
        timestamp_ms: 9,
        cpu_percent_bits: 0,
        memory_bytes: 1,
        io_read_bytes: 2,
        io_write_bytes: 3,
    };
    let mut sink = ContainerDbSink::new();
    let put = sink.store_record(&record);
    assert_eq!(put.key, ContainerDbSink::make_key(7, 9));
    assert_eq!(put.value, record.to_bytes());
    assert_eq!(sink.records_stored, 1);
    let later = ContainerRecord { timestamp_ms: 10, ..record };
    let puts = sink.store_batch(&[record, later]);
    assert_eq!(puts.len(), 2);
    assert_eq!(puts[1].key, ContainerDbSink::make_key(7, 10));
    assert_eq!(puts[1].value, later.to_bytes());
    assert_eq!(sink.records_stored, 3);
    let (start, end) = sink.query_container(7, 0, 100);
    assert_eq!(start, ContainerDbSink::make_key(7, 0));
    assert_eq!(end, ContainerDbSink::make_key(7, 100));
}

#[test]
fn query_selects_by_container_and_time() {
    let sink = ContainerDbSink::new();
    let record = |id: u64, ts: u64| ContainerRecord {
        container_id: id,
        timestamp_ms: ts,
        cpu_percent_bits: 0,
        memory_bytes: ts,
        io_read_bytes: 0,
        io_write_bytes: 0,
    };
    let row = |id: u64, ts: u64| {
        (ContainerDbSink::make_key(id, ts).to_vec(), record(id, ts).to_bytes().to_vec())
    };
    let rows = vec![
        row(7, 9),
        row(7, 10),
        row(7, 15),
        (ContainerDbSink::make_key(7, 16).to_vec(), vec![1, 2, 3]),
        (vec![0, 0, 0, 0, 0, 0, 0, 7], record(7, 12).to_bytes().to_vec()),
        row(8, 12),
        row(7, 19),
        row(7, 20),
        row(7, u64::MAX),
    ];
    // The start of the range is in it, the end is not.
    assert_eq!(
        sink.select_rows(7, 10, 20, &rows),
        vec![record(7, 10), record(7, 15), record(7, 19)]
    );
    assert_eq!(sink.select_rows(7, 20, 20, &rows), vec![]);
    assert_eq!(sink.select_rows(9, 0, u64::MAX, &rows), vec![]);
    assert!(ContainerDbSink::in_range(&ContainerDbSink::make_key(1, 5), 1, 5, 6));
    assert!(!ContainerDbSink::in_range(&ContainerDbSink::make_key(1, 6), 1, 5, 6));
    assert!(!ContainerDbSink::in_range(&ContainerDbSink::make_key(2, 5), 1, 5, 6));
    assert!(!ContainerDbSink::in_range(&[1, 2, 3], 1, 0, u64::MAX));
    assert!(ContainerDbSink::in_range(
        &ContainerDbSink::make_key(0x0102030405060708, 0x1112131415161718),
        0x0102030405060708,
        0x1112131415161718,
        0x1112131415161719
    ));
}
