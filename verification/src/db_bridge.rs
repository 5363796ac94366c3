//! Resource usage records for a time-series store: the 40 bytes of a
//! record, little-endian, and the 16 bytes of its key, big-endian, so
//! that keys sort by container and then by time.
//!
//! Record layout: bytes 0..8 the container id, 8..16 the time in
//! milliseconds, 16..20 the CPU percentage as the bits of a 32-bit float,
//! 20..28 the memory in bytes, 28..36 the bytes read, 36..40 the low 32
//! bits of the bytes written.

use vstd::prelude::*;
use vstd::string::*;
use crate::sync_bridge::{
    byte_at, byte_of, le_value, lemma_bytes_of_all, lemma_bytes_of_low32, low32,
};
use crate::text::{concat_decimal, decimal, push_decimal};

verus! {

/// The length of a record in bytes.
pub const RECORD_SIZE: usize = 40;

/// Errors of the store bridge.
#[derive(Debug, Clone, Copy, PartialEq, Eq, Structural)]
pub enum DbBridgeError {
    /// The buffer does not have the length of a record.
    InvalidBufferLength { expected: usize, got: usize },
}

impl DbBridgeError {
    /// The text that describes this error.
    pub open spec fn message(self) -> Seq<char> {
        match self {
            DbBridgeError::InvalidBufferLength { expected, got } =>
                "invalid buffer length: expected "@ + decimal(expected as nat) + " bytes, got "@
                    + decimal(got as nat),
        }
    }

    /// The text that describes this error.
    pub fn to_string(&self) -> (r: String)
        ensures
            r@ == self.message(),
    {
        match self {
            DbBridgeError::InvalidBufferLength { expected, got } => {
                let mut out = concat_decimal("invalid buffer length: expected ", *expected as u64);
                out.append(" bytes, got ");
                push_decimal(&mut out, *got as u64);
                out
            },
        }
    }
}

/// The resources that a container used at one time.
#[derive(Debug, Clone, Copy, PartialEq, Eq, Structural)]
pub struct ContainerRecord {
    pub container_id: u64,
    pub timestamp_ms: u64,
    /// The CPU percentage, as the bits of a 32-bit float.
    pub cpu_percent_bits: u32,
    pub memory_bytes: u64,
    pub io_read_bytes: u64,
    pub io_write_bytes: u64,
}

/// The 40 bytes of `r`.
pub open spec fn record_bytes(r: ContainerRecord) -> Seq<u8> {
    Seq::new(
        40,
        |i: int|
            if i < 8 {
                byte_of(r.container_id, i as u64)
            } else if i < 16 {
                byte_of(r.timestamp_ms, (i - 8) as u64)
            } else if i < 20 {
                byte_of(r.cpu_percent_bits as u64, (i - 16) as u64)
            } else if i < 28 {
                byte_of(r.memory_bytes, (i - 20) as u64)
            } else if i < 36 {
                byte_of(r.io_read_bytes, (i - 28) as u64)
            } else {
                byte_of(r.io_write_bytes, (i - 36) as u64)
            },
    )
}

/// The record that the 40 bytes `b` hold.
pub open spec fn record_of(b: Seq<u8>) -> ContainerRecord {
    ContainerRecord {
        container_id: le_value(b.subrange(0, 8)),
        timestamp_ms: le_value(b.subrange(8, 16)),
        cpu_percent_bits: le_value(b.subrange(16, 20)) as u32,
        memory_bytes: le_value(b.subrange(20, 28)),
        io_read_bytes: le_value(b.subrange(28, 36)),
        io_write_bytes: le_value(b.subrange(36, 40)),
    }
}

/// The 16 bytes of the key of the record of `container_id` at
/// `timestamp_ms`: both numbers with the most significant byte first.
pub open spec fn key_bytes(container_id: u64, timestamp_ms: u64) -> Seq<u8> {
    Seq::new(
        16,
        |i: int|
            if i < 8 {
                byte_of(container_id, (7 - i) as u64)
            } else {
                byte_of(timestamp_ms, (15 - i) as u64)
            },
    )
}

fn le_read(data: &[u8], from: usize, len: usize) -> (r: u64)
    requires
        len <= 8,
        from + len <= data@.len(),
    ensures
        r == le_value(data@.subrange(from as int, from + len)),
{
    let mut acc: u64 = 0;
    let mut i: usize = len;
    let n: usize = data.len();
    while i > 0
        invariant
            i <= len <= 8,
            from + len <= data@.len(),
            data@.len() == n,
            acc == le_value(data@.subrange(from + i, from + len)),
        decreases i,
    {
        assert(data@.subrange(from + i - 1, from + len).drop_first() =~= data@.subrange(
            from + i,
            from + len,
        ));
        i = i - 1;
        acc = (data[from + i] as u64) | (acc << 8);
    }
    acc
}

impl ContainerRecord {
    /// The 40 bytes of this record.
    pub fn to_bytes(&self) -> (r: [u8; 40])
        ensures
            r@ == record_bytes(*self),
    {
        let id: u64 = self.container_id;
        let ts: u64 = self.timestamp_ms;
        let cpu: u64 = self.cpu_percent_bits as u64;
        let mem: u64 = self.memory_bytes;
        let rd: u64 = self.io_read_bytes;
        let wr: u64 = self.io_write_bytes;
        let buf: [u8; 40] = [
            byte_at(id, 0),
            byte_at(id, 1),
            byte_at(id, 2),
            byte_at(id, 3),
            byte_at(id, 4),
            byte_at(id, 5),
            byte_at(id, 6),
            byte_at(id, 7),
            byte_at(ts, 0),
            byte_at(ts, 1),
            byte_at(ts, 2),
            byte_at(ts, 3),
            byte_at(ts, 4),
            byte_at(ts, 5),
            byte_at(ts, 6),
            byte_at(ts, 7),
            byte_at(cpu, 0),
            byte_at(cpu, 1),
            byte_at(cpu, 2),
            byte_at(cpu, 3),
            byte_at(mem, 0),
            byte_at(mem, 1),
            byte_at(mem, 2),
            byte_at(mem, 3),
            byte_at(mem, 4),
            byte_at(mem, 5),
            byte_at(mem, 6),
            byte_at(mem, 7),
            byte_at(rd, 0),
            byte_at(rd, 1),
            byte_at(rd, 2),
            byte_at(rd, 3),
            byte_at(rd, 4),
            byte_at(rd, 5),
            byte_at(rd, 6),
            byte_at(rd, 7),
            byte_at(wr, 0),
            byte_at(wr, 1),
            byte_at(wr, 2),
            byte_at(wr, 3),
        ];
        buf
    }

    /// The record that the 40 bytes of `buf` hold. This never fails.
    pub fn from_bytes(buf: &[u8; 40]) -> (r: Result<Self, DbBridgeError>)
        ensures
            r == Ok::<ContainerRecord, DbBridgeError>(record_of(buf@)),
    {
        let data = vstd::array::array_as_slice(buf);
        Ok(Self::read(data))
    }

    fn read(data: &[u8]) -> (r: Self)
        requires
            data@.len() == 40,
        ensures
            r == record_of(data@),
    {
        let cpu: u64 = le_read(data, 16, 4);
        Self {
            container_id: le_read(data, 0, 8),
            timestamp_ms: le_read(data, 8, 8),
            cpu_percent_bits: cpu as u32,
            memory_bytes: le_read(data, 20, 8),
            io_read_bytes: le_read(data, 28, 8),
            io_write_bytes: le_read(data, 36, 4),
        }
    }

    /// The record that `buf` holds, which must be 40 bytes long.
    pub fn try_from_slice(buf: &[u8]) -> (r: Result<Self, DbBridgeError>)
        ensures
            buf@.len() == 40 ==> r == Ok::<ContainerRecord, DbBridgeError>(record_of(buf@)),
            buf@.len() != 40 ==> r == Err::<ContainerRecord, DbBridgeError>(
                DbBridgeError::InvalidBufferLength { expected: 40, got: buf@.len() as usize },
            ),
    {
        if buf.len() != 40 {
            return Err(DbBridgeError::InvalidBufferLength { expected: 40, got: buf.len() });
        }
        Ok(Self::read(buf))
    }
}

/// A record is read back from its bytes as it was, but for the bytes
/// written, of which the low 32 bits are kept.
pub proof fn lemma_record_round_trip(r: ContainerRecord)
    ensures
        record_of(record_bytes(r)) == (ContainerRecord {
            io_write_bytes: low32(r.io_write_bytes),
            ..r
        }),
{
    let b = record_bytes(r);
    let cpu = r.cpu_percent_bits as u64;
    assert(b.subrange(0, 8) =~= seq![
        byte_of(r.container_id, 0),
        byte_of(r.container_id, 1),
        byte_of(r.container_id, 2),
        byte_of(r.container_id, 3),
        byte_of(r.container_id, 4),
        byte_of(r.container_id, 5),
        byte_of(r.container_id, 6),
        byte_of(r.container_id, 7),
    ]);
    assert(b.subrange(8, 16) =~= seq![
        byte_of(r.timestamp_ms, 0),
        byte_of(r.timestamp_ms, 1),
        byte_of(r.timestamp_ms, 2),
        byte_of(r.timestamp_ms, 3),
        byte_of(r.timestamp_ms, 4),
        byte_of(r.timestamp_ms, 5),
        byte_of(r.timestamp_ms, 6),
        byte_of(r.timestamp_ms, 7),
    ]);
    assert(b.subrange(16, 20) =~= seq![
        byte_of(cpu, 0),
        byte_of(cpu, 1),
        byte_of(cpu, 2),
        byte_of(cpu, 3),
    ]);
    assert(b.subrange(20, 28) =~= seq![
        byte_of(r.memory_bytes, 0),
        byte_of(r.memory_bytes, 1),
        byte_of(r.memory_bytes, 2),
        byte_of(r.memory_bytes, 3),
        byte_of(r.memory_bytes, 4),
        byte_of(r.memory_bytes, 5),
        byte_of(r.memory_bytes, 6),
        byte_of(r.memory_bytes, 7),
    ]);
    assert(b.subrange(28, 36) =~= seq![
        byte_of(r.io_read_bytes, 0),
        byte_of(r.io_read_bytes, 1),
        byte_of(r.io_read_bytes, 2),
        byte_of(r.io_read_bytes, 3),
        byte_of(r.io_read_bytes, 4),
        byte_of(r.io_read_bytes, 5),
        byte_of(r.io_read_bytes, 6),
        byte_of(r.io_read_bytes, 7),
    ]);
    assert(b.subrange(36, 40) =~= seq![
        byte_of(r.io_write_bytes, 0),
        byte_of(r.io_write_bytes, 1),
        byte_of(r.io_write_bytes, 2),
        byte_of(r.io_write_bytes, 3),
    ]);
    lemma_bytes_of_all(r.container_id);
    lemma_bytes_of_all(r.timestamp_ms);
    lemma_bytes_of_low32(cpu);
    lemma_bytes_of_all(r.memory_bytes);
    lemma_bytes_of_all(r.io_read_bytes);
    lemma_bytes_of_low32(r.io_write_bytes);
    assert(low32(cpu) == cpu) by (bit_vector)
        requires
            cpu <= 0xffff_ffff,
            low32(cpu) == cpu & 0xffff_ffff,
    ;
}

/// One record to put into the store.
#[derive(Debug, Clone, Copy)]
pub struct DbPut {
    pub key: [u8; 16],
    pub value: [u8; 40],
}

/// The sink that records go to: what to put into the store for each, and
/// how many were put.
pub struct ContainerDbSink {
    pub records_stored: u64,
}

impl ContainerDbSink {
    /// A sink that has stored nothing yet.
    pub fn new() -> (r: Self)
        ensures
            r.records_stored == 0,
    {
        Self { records_stored: 0 }
    }

    /// The key and the value to put for `record`, which counts as stored.
    pub fn store_record(&mut self, record: &ContainerRecord) -> (r: DbPut)
        requires
            old(self).records_stored < u64::MAX,
        ensures
            r.key@ == key_bytes(record.container_id, record.timestamp_ms),
            r.value@ == record_bytes(*record),
            final(self).records_stored == old(self).records_stored + 1,
    {
        let key = Self::make_key(record.container_id, record.timestamp_ms);
        let value = record.to_bytes();
        self.records_stored = self.records_stored + 1;
        DbPut { key, value }
    }

    /// The keys and the values to put for `records`, in their order.
    pub fn store_batch(&mut self, records: &[ContainerRecord]) -> (r: Vec<DbPut>)
        requires
            old(self).records_stored + records@.len() <= u64::MAX,
        ensures
            r@.len() == records@.len(),
            forall|i: int|
                0 <= i < records@.len() ==> (#[trigger] r@[i]).key@ == key_bytes(
                    records@[i].container_id,
                    records@[i].timestamp_ms,
                ) && r@[i].value@ == record_bytes(records@[i]),
            final(self).records_stored == old(self).records_stored + records@.len(),
    {
        let mut out: Vec<DbPut> = Vec::new();
        let mut i: usize = 0;
        while i < records.len()
            invariant
                i <= records@.len(),
                old(self).records_stored + records@.len() <= u64::MAX,
                self.records_stored == old(self).records_stored + i,
                out@.len() == i,
                forall|j: int|
                    0 <= j < i ==> (#[trigger] out@[j]).key@ == key_bytes(
                        records@[j].container_id,
                        records@[j].timestamp_ms,
                    ) && out@[j].value@ == record_bytes(records@[j]),
            decreases records@.len() - i,
        {
            let put = self.store_record(&records[i]);
            out.push(put);
            i = i + 1;
        }
        out
    }

    /// The first and the last key of the records of `container_id` from
    /// `from_ms` to `to_ms`.
    pub fn query_container(&self, container_id: u64, from_ms: u64, to_ms: u64) -> (r: (
        [u8; 16],
        [u8; 16],
    ))
        ensures
            r.0@ == key_bytes(container_id, from_ms),
            r.1@ == key_bytes(container_id, to_ms),
    {
        (Self::make_key(container_id, from_ms), Self::make_key(container_id, to_ms))
    }

    /// The key of the record of `container_id` at `timestamp_ms`.
    pub fn make_key(container_id: u64, timestamp_ms: u64) -> (r: [u8; 16])
        ensures
            r@ == key_bytes(container_id, timestamp_ms),
    {
        let key: [u8; 16] = [
            byte_at(container_id, 7),
            byte_at(container_id, 6),
            byte_at(container_id, 5),
            byte_at(container_id, 4),
            byte_at(container_id, 3),
            byte_at(container_id, 2),
            byte_at(container_id, 1),
            byte_at(container_id, 0),
            byte_at(timestamp_ms, 7),
            byte_at(timestamp_ms, 6),
            byte_at(timestamp_ms, 5),
            byte_at(timestamp_ms, 4),
            byte_at(timestamp_ms, 3),
            byte_at(timestamp_ms, 2),
            byte_at(timestamp_ms, 1),
            byte_at(timestamp_ms, 0),
        ];
        key
    }
}

/// The number whose bytes are `s`, most significant first, for up to
/// eight bytes.
pub open spec fn be_value(s: Seq<u8>) -> u64
    decreases s.len(),
{
    if s.len() == 0 || s.len() > 8 {
        0
    } else {
        (be_value(s.drop_last()) << 8) | (s.last() as u64)
    }
}

/// Whether `key` is the key of a record of `container_id` at a time from
/// `from_ms` up to, not including, `to_ms`.
pub open spec fn key_in_range(key: Seq<u8>, container_id: u64, from_ms: u64, to_ms: u64) -> bool {
    key.len() == 16 && be_value(key.subrange(0, 8)) == container_id && from_ms <= be_value(
        key.subrange(8, 16),
    ) < to_ms
}

/// The keys and values that `v` holds.
pub open spec fn entries(v: Seq<(Vec<u8>, Vec<u8>)>) -> Seq<(Seq<u8>, Seq<u8>)> {
    Seq::new(v.len(), |i: int| (v[i].0@, v[i].1@))
}

/// The records among the entries `es` whose key is in the range and whose
/// value is a record, in order.
pub open spec fn selected(
    es: Seq<(Seq<u8>, Seq<u8>)>,
    container_id: u64,
    from_ms: u64,
    to_ms: u64,
) -> Seq<ContainerRecord>
    decreases es.len(),
{
    if es.len() == 0 {
        Seq::<ContainerRecord>::empty()
    } else {
        let before = selected(es.drop_last(), container_id, from_ms, to_ms);
        if key_in_range(es.last().0, container_id, from_ms, to_ms) && es.last().1.len() == 40 {
            before.push(record_of(es.last().1))
        } else {
            before
        }
    }
}

fn be_read(data: &[u8], from: usize, len: usize) -> (r: u64)
    requires
        len <= 8,
        from + len <= data@.len(),
    ensures
        r == be_value(data@.subrange(from as int, from + len)),
{
    let mut acc: u64 = 0;
    let mut i: usize = 0;
    let n: usize = data.len();
    assert(data@.subrange(from as int, from as int) =~= Seq::<u8>::empty());
    while i < len
        invariant
            i <= len <= 8,
            from + len <= data@.len(),
            data@.len() == n,
            acc == be_value(data@.subrange(from as int, from + i)),
        decreases len - i,
    {
        assert(data@.subrange(from as int, from + i + 1).drop_last() =~= data@.subrange(
            from as int,
            from + i,
        ));
        acc = (acc << 8) | (data[from + i] as u64);
        i = i + 1;
    }
    acc
}

impl ContainerDbSink {
    /// Whether `key` is the key of a record of `container_id` at a time
    /// from `from_ms` up to, not including, `to_ms`.
    pub fn in_range(key: &[u8], container_id: u64, from_ms: u64, to_ms: u64) -> (r: bool)
        ensures
            r == key_in_range(key@, container_id, from_ms, to_ms),
    {
        if key.len() != 16 {
            return false;
        }
        let id: u64 = be_read(key, 0, 8);
        let time: u64 = be_read(key, 8, 8);
        id == container_id && from_ms <= time && time < to_ms
    }

    /// The records of `container_id` from `from_ms` up to, not including,
    /// `to_ms` among the entries that the store gave; an entry outside the
    /// range or with a value that is no record is passed over.
    pub fn select_rows(
        &self,
        container_id: u64,
        from_ms: u64,
        to_ms: u64,
        rows: &Vec<(Vec<u8>, Vec<u8>)>,
    ) -> (r: Vec<ContainerRecord>)
        ensures
            r@ == selected(entries(rows@), container_id, from_ms, to_ms),
    {
        let ghost all = entries(rows@);
        let mut out: Vec<ContainerRecord> = Vec::new();
        let mut i: usize = 0;
        assert(all.take(0) =~= Seq::<(Seq<u8>, Seq<u8>)>::empty());
        while i < rows.len()
            invariant
                i <= rows@.len(),
                all == entries(rows@),
                out@ == selected(all.take(i as int), container_id, from_ms, to_ms),
            decreases rows@.len() - i,
        {
            assert(all.take(i + 1).drop_last() =~= all.take(i as int));
            assert(all.take(i + 1).last() == (rows@[i as int].0@, rows@[i as int].1@));
            let row = &rows[i];
            if Self::in_range(row.0.as_slice(), container_id, from_ms, to_ms) {
                match ContainerRecord::try_from_slice(row.1.as_slice()) {
                    Ok(record) => {
                        out.push(record);
                    },
                    Err(_) => {},
                }
            }
            i = i + 1;
        }
        assert(all.take(rows@.len() as int) =~= all);
        out
    }
}

proof fn lemma_be_value_8(b0: u8, b1: u8, b2: u8, b3: u8, b4: u8, b5: u8, b6: u8, b7: u8)
    ensures
        be_value(seq![b7, b6, b5, b4, b3, b2, b1, b0]) == ((((((((b7 as u64) << 8 | (b6 as u64))
            << 8 | (b5 as u64)) << 8 | (b4 as u64)) << 8 | (b3 as u64)) << 8 | (b2 as u64)) << 8 | (
        b1 as u64)) << 8 | (b0 as u64)),
{
    reveal_with_fuel(be_value, 10);
    assert(seq![b7, b6, b5, b4, b3, b2, b1, b0].drop_last() =~= seq![b7, b6, b5, b4, b3, b2, b1]);
    assert(seq![b7, b6, b5, b4, b3, b2, b1].drop_last() =~= seq![b7, b6, b5, b4, b3, b2]);
    assert(seq![b7, b6, b5, b4, b3, b2].drop_last() =~= seq![b7, b6, b5, b4, b3]);
    assert(seq![b7, b6, b5, b4, b3].drop_last() =~= seq![b7, b6, b5, b4]);
    assert(seq![b7, b6, b5, b4].drop_last() =~= seq![b7, b6, b5]);
    assert(seq![b7, b6, b5].drop_last() =~= seq![b7, b6]);
    assert(seq![b7, b6].drop_last() =~= seq![b7]);
    assert(seq![b7].drop_last() =~= Seq::<u8>::empty());
    assert((0u64 << 8) | (b7 as u64) == (b7 as u64)) by (bit_vector);
}

proof fn lemma_be_bytes(v: u64)
    ensures
        be_value(
            seq![
                byte_of(v, 7),
                byte_of(v, 6),
                byte_of(v, 5),
                byte_of(v, 4),
                byte_of(v, 3),
                byte_of(v, 2),
                byte_of(v, 1),
                byte_of(v, 0),
            ],
        ) == v,
{
    let b0 = byte_of(v, 0);
    let b1 = byte_of(v, 1);
    let b2 = byte_of(v, 2);
    let b3 = byte_of(v, 3);
    let b4 = byte_of(v, 4);
    let b5 = byte_of(v, 5);
    let b6 = byte_of(v, 6);
    let b7 = byte_of(v, 7);
    lemma_be_value_8(b0, b1, b2, b3, b4, b5, b6, b7);
    assert(((((((((b7 as u64) << 8 | (b6 as u64)) << 8 | (b5 as u64)) << 8 | (b4 as u64)) << 8 | (
    b3 as u64)) << 8 | (b2 as u64)) << 8 | (b1 as u64)) << 8 | (b0 as u64)) == v) by (bit_vector)
        requires
            b0 == ((v >> (8 * 0u64)) & 0xff) as u8,
            b1 == ((v >> (8 * 1u64)) & 0xff) as u8,
            b2 == ((v >> (8 * 2u64)) & 0xff) as u8,
            b3 == ((v >> (8 * 3u64)) & 0xff) as u8,
            b4 == ((v >> (8 * 4u64)) & 0xff) as u8,
            b5 == ((v >> (8 * 5u64)) & 0xff) as u8,
            b6 == ((v >> (8 * 6u64)) & 0xff) as u8,
            b7 == ((v >> (8 * 7u64)) & 0xff) as u8,
    ;
}

/// The key of a record is in a range exactly when the record is of that
/// container and its time is from the start up to, not including, the end.
pub proof fn lemma_key_in_range(
    container_id: u64,
    timestamp_ms: u64,
    wanted_id: u64,
    from_ms: u64,
    to_ms: u64,
)
    ensures
        key_in_range(key_bytes(container_id, timestamp_ms), wanted_id, from_ms, to_ms) <==> (
        container_id == wanted_id && from_ms <= timestamp_ms < to_ms),
{
    let key = key_bytes(container_id, timestamp_ms);
    assert(key.subrange(0, 8) =~= seq![
        byte_of(container_id, 7),
        byte_of(container_id, 6),
        byte_of(container_id, 5),
        byte_of(container_id, 4),
        byte_of(container_id, 3),
        byte_of(container_id, 2),
        byte_of(container_id, 1),
        byte_of(container_id, 0),
    ]);
    assert(key.subrange(8, 16) =~= seq![
        byte_of(timestamp_ms, 7),
        byte_of(timestamp_ms, 6),
        byte_of(timestamp_ms, 5),
        byte_of(timestamp_ms, 4),
        byte_of(timestamp_ms, 3),
        byte_of(timestamp_ms, 2),
        byte_of(timestamp_ms, 1),
        byte_of(timestamp_ms, 0),
    ]);
    lemma_be_bytes(container_id);
    lemma_be_bytes(timestamp_ms);
}

} // verus!
