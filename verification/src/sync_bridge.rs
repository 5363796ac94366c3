//! Lockstep state synchronisation: an 18-byte event for each lifecycle
//! change of a container, and a hash over the states of all containers by
//! which nodes detect that they have drifted apart.
//!
//! Event layout, little-endian: bytes 0..8 the container id, byte 8 the
//! status, bytes 9..13 the low 32 bits of the CPU limit, bytes 13..17 the
//! low 32 bits of the memory limit in MiB, byte 17 the sum of bytes 0..17
//! modulo 256.

use vstd::prelude::*;

verus! {

/// Container lifecycle status.
#[derive(Debug, Clone, Copy, PartialEq, Eq, Structural)]
pub enum ContainerStatus {
    Created,
    Running,
    Paused,
    Stopped,
    Failed,
}

impl ContainerStatus {
    /// The byte that stands for this status in an event.
    pub open spec fn code(self) -> u8 {
        match self {
            ContainerStatus::Created => 0,
            ContainerStatus::Running => 1,
            ContainerStatus::Paused => 2,
            ContainerStatus::Stopped => 3,
            ContainerStatus::Failed => 4,
        }
    }

    /// The byte that stands for this status in an event.
    pub fn as_u8(self) -> (r: u8)
        ensures
            r == self.code(),
    {
        match self {
            ContainerStatus::Created => 0,
            ContainerStatus::Running => 1,
            ContainerStatus::Paused => 2,
            ContainerStatus::Stopped => 3,
            ContainerStatus::Failed => 4,
        }
    }

    /// The status that `code` stands for, if any.
    pub fn from_u8(code: u8) -> (r: Option<ContainerStatus>)
        ensures
            code <= 4 ==> r is Some && r->0.code() == code,
            code > 4 ==> r is None,
    {
        match code {
            0 => Some(ContainerStatus::Created),
            1 => Some(ContainerStatus::Running),
            2 => Some(ContainerStatus::Paused),
            3 => Some(ContainerStatus::Stopped),
            4 => Some(ContainerStatus::Failed),
            _ => None,
        }
    }
}

/// Container deployment state, synchronised across nodes.
#[derive(Debug, Clone)]
pub struct ContainerState {
    pub container_id: u64,
    pub image_hash: [u8; 32],
    pub status: ContainerStatus,
    pub cpu_limit_us: u64,
    pub memory_limit: u64,
}

/// Compact 18-byte event.
#[derive(Debug, Clone, Copy)]
pub struct ContainerSyncEvent {
    pub data: [u8; 18],
}

/// Byte `i` of `v`, counted from the least significant.
pub open spec fn byte_of(v: u64, i: u64) -> u8 {
    ((v >> (8 * i)) & 0xff) as u8
}

/// The number whose little-endian bytes are `s`, for up to eight bytes.
pub open spec fn le_value(s: Seq<u8>) -> u64
    decreases s.len(),
{
    if s.len() == 0 || s.len() > 8 {
        0
    } else {
        (s[0] as u64) | (le_value(s.drop_first()) << 8)
    }
}

/// The sum of the bytes of `s` modulo 256.
pub open spec fn checksum(s: Seq<u8>) -> u8
    decreases s.len(),
{
    if s.len() == 0 {
        0
    } else {
        ((checksum(s.drop_last()) + s.last()) % 256) as u8
    }
}

/// The low 32 bits of `v`.
pub open spec fn low32(v: u64) -> u64 {
    v & 0xffff_ffff
}

/// The seventeen bytes of an event that precede its checksum.
pub open spec fn payload(id: u64, status: u8, cpu: u64, mem: u64) -> Seq<u8> {
    seq![
        byte_of(id, 0),
        byte_of(id, 1),
        byte_of(id, 2),
        byte_of(id, 3),
        byte_of(id, 4),
        byte_of(id, 5),
        byte_of(id, 6),
        byte_of(id, 7),
        status,
        byte_of(cpu, 0),
        byte_of(cpu, 1),
        byte_of(cpu, 2),
        byte_of(cpu, 3),
        byte_of(mem >> 20, 0),
        byte_of(mem >> 20, 1),
        byte_of(mem >> 20, 2),
        byte_of(mem >> 20, 3),
    ]
}

/// The eighteen bytes of the event for the given fields.
pub open spec fn event_bytes(id: u64, status: u8, cpu: u64, mem: u64) -> Seq<u8> {
    payload(id, status, cpu, mem).push(checksum(payload(id, status, cpu, mem)))
}

/// Whether the last byte of `data` is the checksum of the bytes before it.
pub open spec fn checksum_holds(data: Seq<u8>) -> bool {
    data.len() == 18 && checksum(data.take(17)) == data[17]
}

pub(crate) fn byte_at(v: u64, i: u64) -> (r: u8)
    requires
        i < 8,
    ensures
        r == byte_of(v, i),
{
    ((v >> (8 * i)) & 0xff) as u8
}

fn sum_of_first_17(data: &[u8; 18]) -> (r: u8)
    ensures
        r == checksum(data@.take(17)),
{
    let mut sum: u8 = 0;
    let mut i: usize = 0;
    while i < 17
        invariant
            i <= 17,
            sum == checksum(data@.take(i as int)),
        decreases 17 - i,
    {
        assert(data@.take(i + 1).drop_last() =~= data@.take(i as int));
        sum = sum.wrapping_add(data[i]);
        i = i + 1;
    }
    sum
}

/// Encodes the state of a container as an 18-byte event.
pub fn encode_container_event(state: &ContainerState) -> (event: ContainerSyncEvent)
    ensures
        event.data@ == event_bytes(
            state.container_id,
            state.status.code(),
            state.cpu_limit_us,
            state.memory_limit,
        ),
        checksum_holds(event.data@),
{
    let id: u64 = state.container_id;
    let cpu: u64 = state.cpu_limit_us;
    let mem: u64 = state.memory_limit >> 20;
    let unsummed: [u8; 18] = [
        byte_at(id, 0),
        byte_at(id, 1),
        byte_at(id, 2),
        byte_at(id, 3),
        byte_at(id, 4),
        byte_at(id, 5),
        byte_at(id, 6),
        byte_at(id, 7),
        state.status.as_u8(),
        byte_at(cpu, 0),
        byte_at(cpu, 1),
        byte_at(cpu, 2),
        byte_at(cpu, 3),
        byte_at(mem, 0),
        byte_at(mem, 1),
        byte_at(mem, 2),
        byte_at(mem, 3),
        0,
    ];
    let ghost p = payload(id, state.status.code(), cpu, state.memory_limit);
    assert(unsummed@.take(17) =~= p);
    let sum: u8 = sum_of_first_17(&unsummed);
    let mut data: [u8; 18] = unsummed;
    data.set(17, sum);
    assert(data@.take(17) =~= p);
    ContainerSyncEvent { data }
}

/// The fields that an event carries.
pub struct EventFields {
    pub container_id: u64,
    pub status: ContainerStatus,
    pub cpu_limit_us: u64,
    pub memory_limit: u64,
}

/// Why an event could not be decoded.
pub enum DecodeFailure {
    /// The last byte is not the sum of the others.
    Checksum,
    /// The status byte stands for no status.
    Status,
}

impl DecodeFailure {
    /// The message reported for this failure.
    pub open spec fn message(self) -> Seq<char> {
        match self {
            DecodeFailure::Checksum => "Checksum mismatch"@,
            DecodeFailure::Status => "Invalid status"@,
        }
    }
}

/// The status that the byte `code` stands for; `Failed` for any byte above 4.
pub open spec fn status_of(code: u8) -> ContainerStatus {
    if code == 0 {
        ContainerStatus::Created
    } else if code == 1 {
        ContainerStatus::Running
    } else if code == 2 {
        ContainerStatus::Paused
    } else if code == 3 {
        ContainerStatus::Stopped
    } else {
        ContainerStatus::Failed
    }
}

/// What the eighteen bytes `data` decode to. The checksum is tested first,
/// then the status byte.
pub open spec fn decoded(data: Seq<u8>) -> Result<EventFields, DecodeFailure> {
    if !checksum_holds(data) {
        Err(DecodeFailure::Checksum)
    } else if data[8] > 4 {
        Err(DecodeFailure::Status)
    } else {
        Ok(
            EventFields {
                container_id: le_value(data.subrange(0, 8)),
                status: status_of(data[8]),
                cpu_limit_us: le_value(data.subrange(9, 13)),
                memory_limit: le_value(data.subrange(13, 17)) << 20,
            },
        )
    }
}

fn le_read(data: &[u8; 18], from: usize, len: usize) -> (r: u64)
    requires
        len <= 8,
        from + len <= 18,
    ensures
        r == le_value(data@.subrange(from as int, from + len)),
{
    let mut acc: u64 = 0;
    let mut i: usize = len;
    while i > 0
        invariant
            i <= len <= 8,
            from + len <= 18,
            acc == le_value(data@.subrange(from + i, from + len)),
        decreases i,
    {
        assert(data@.subrange(from + i - 1, from + len).drop_first() =~= data@.subrange(
            from + i,
            from + len,
        ));
        i = i - 1;
        acc = (data[from + i] as u64) | (acc << 8);
    }
    acc
}

/// Decodes an 18-byte event. The state that comes back carries an
/// all-zero image hash: an event does not hold one.
pub fn decode_container_event(event: &ContainerSyncEvent) -> (r: Result<
    ContainerState,
    &'static str,
>)
    ensures
        match r {
            Ok(state) => decoded(event.data@) == Ok::<EventFields, DecodeFailure>(
                EventFields {
                    container_id: state.container_id,
                    status: state.status,
                    cpu_limit_us: state.cpu_limit_us,
                    memory_limit: state.memory_limit,
                },
            ) && state.image_hash@ == Seq::new(32, |i: int| 0u8),
            Err(msg) => decoded(event.data@) is Err && msg@ == decoded(
                event.data@,
            )->Err_0.message(),
        },
{
    let data = &event.data;
    let sum: u8 = sum_of_first_17(data);
    if sum != data[17] {
        return Err("Checksum mismatch");
    }
    let status = match ContainerStatus::from_u8(data[8]) {
        Some(s) => s,
        None => {
            return Err("Invalid status");
        },
    };
    let container_id: u64 = le_read(data, 0, 8);
    let cpu_limit_us: u64 = le_read(data, 9, 4);
    let memory_limit: u64 = le_read(data, 13, 4) << 20;
    let image_hash: [u8; 32] = [0u8; 32];
    Ok(ContainerState { container_id, image_hash, status, cpu_limit_us, memory_limit })
}

pub proof fn lemma_le_value_4(b0: u8, b1: u8, b2: u8, b3: u8)
    ensures
        le_value(seq![b0, b1, b2, b3]) == (b0 as u64) | (((b1 as u64) | (((b2 as u64) | ((b3 as u64)
            << 8)) << 8)) << 8),
{
    reveal_with_fuel(le_value, 6);
    assert((b3 as u64) | (0u64 << 8) == (b3 as u64)) by (bit_vector);
}

pub proof fn lemma_le_value_8(b0: u8, b1: u8, b2: u8, b3: u8, b4: u8, b5: u8, b6: u8, b7: u8)
    ensures
        le_value(seq![b0, b1, b2, b3, b4, b5, b6, b7]) == (b0 as u64) | (((b1 as u64) | (le_value(
            seq![b2, b3, b4, b5, b6, b7],
        ) << 8)) << 8),
        le_value(seq![b2, b3, b4, b5, b6, b7]) == (b2 as u64) | (((b3 as u64) | (le_value(
            seq![b4, b5, b6, b7],
        ) << 8)) << 8),
{
    reveal_with_fuel(le_value, 3);
    assert(seq![b0, b1, b2, b3, b4, b5, b6, b7].drop_first() =~= seq![b1, b2, b3, b4, b5, b6, b7]);
    assert(seq![b1, b2, b3, b4, b5, b6, b7].drop_first() =~= seq![b2, b3, b4, b5, b6, b7]);
    assert(seq![b2, b3, b4, b5, b6, b7].drop_first() =~= seq![b3, b4, b5, b6, b7]);
    assert(seq![b3, b4, b5, b6, b7].drop_first() =~= seq![b4, b5, b6, b7]);
}

pub proof fn lemma_bytes_of_low32(v: u64)
    ensures
        le_value(seq![byte_of(v, 0), byte_of(v, 1), byte_of(v, 2), byte_of(v, 3)]) == low32(v),
{
    let b0 = byte_of(v, 0);
    let b1 = byte_of(v, 1);
    let b2 = byte_of(v, 2);
    let b3 = byte_of(v, 3);
    lemma_le_value_4(b0, b1, b2, b3);
    assert((b0 as u64) | (((b1 as u64) | (((b2 as u64) | ((b3 as u64) << 8)) << 8)) << 8) == v
        & 0xffff_ffff) by (bit_vector)
        requires
            b0 == ((v >> (8 * 0u64)) & 0xff) as u8,
            b1 == ((v >> (8 * 1u64)) & 0xff) as u8,
            b2 == ((v >> (8 * 2u64)) & 0xff) as u8,
            b3 == ((v >> (8 * 3u64)) & 0xff) as u8,
    ;
}

pub proof fn lemma_bytes_of_all(v: u64)
    ensures
        le_value(
            seq![
                byte_of(v, 0),
                byte_of(v, 1),
                byte_of(v, 2),
                byte_of(v, 3),
                byte_of(v, 4),
                byte_of(v, 5),
                byte_of(v, 6),
                byte_of(v, 7),
            ],
        ) == v,
{
    let b0 = byte_of(v, 0);
    let b1 = byte_of(v, 1);
    let b2 = byte_of(v, 2);
    let b3 = byte_of(v, 3);
    let b4 = byte_of(v, 4);
    let b5 = byte_of(v, 5);
    let b6 = byte_of(v, 6);
    let b7 = byte_of(v, 7);
    lemma_le_value_8(b0, b1, b2, b3, b4, b5, b6, b7);
    lemma_le_value_4(b4, b5, b6, b7);
    let hi = le_value(seq![b4, b5, b6, b7]);
    let mid = le_value(seq![b2, b3, b4, b5, b6, b7]);
    assert(hi == (v >> 32) & 0xffff_ffff) by (bit_vector)
        requires
            hi == (b4 as u64) | (((b5 as u64) | (((b6 as u64) | ((b7 as u64) << 8)) << 8)) << 8),
            b4 == ((v >> (8 * 4u64)) & 0xff) as u8,
            b5 == ((v >> (8 * 5u64)) & 0xff) as u8,
            b6 == ((v >> (8 * 6u64)) & 0xff) as u8,
            b7 == ((v >> (8 * 7u64)) & 0xff) as u8,
    ;
    assert(mid == (v >> 16)) by (bit_vector)
        requires
            mid == (b2 as u64) | (((b3 as u64) | (hi << 8)) << 8),
            hi == (v >> 32) & 0xffff_ffff,
            b2 == ((v >> (8 * 2u64)) & 0xff) as u8,
            b3 == ((v >> (8 * 3u64)) & 0xff) as u8,
    ;
    assert((b0 as u64) | (((b1 as u64) | (mid << 8)) << 8) == v) by (bit_vector)
        requires
            mid == (v >> 16),
            b0 == ((v >> (8 * 0u64)) & 0xff) as u8,
            b1 == ((v >> (8 * 1u64)) & 0xff) as u8,
    ;
}

/// An event decodes to the fields it was encoded from: the id and the
/// status as they were, the CPU limit reduced to its low 32 bits, the memory
/// limit reduced to the low 32 bits of its count of MiB.
pub proof fn lemma_event_round_trip(id: u64, status: ContainerStatus, cpu: u64, mem: u64)
    ensures
        decoded(event_bytes(id, status.code(), cpu, mem)) == Ok::<EventFields, DecodeFailure>(
            EventFields {
                container_id: id,
                status: status,
                cpu_limit_us: low32(cpu),
                memory_limit: low32(mem >> 20) << 20,
            },
        ),
{
    let p = payload(id, status.code(), cpu, mem);
    let data = event_bytes(id, status.code(), cpu, mem);
    assert(data.take(17) =~= p);
    assert(data.subrange(0, 8) =~= seq![
        byte_of(id, 0),
        byte_of(id, 1),
        byte_of(id, 2),
        byte_of(id, 3),
        byte_of(id, 4),
        byte_of(id, 5),
        byte_of(id, 6),
        byte_of(id, 7),
    ]);
    assert(data.subrange(9, 13) =~= seq![
        byte_of(cpu, 0),
        byte_of(cpu, 1),
        byte_of(cpu, 2),
        byte_of(cpu, 3),
    ]);
    assert(data.subrange(13, 17) =~= seq![
        byte_of(mem >> 20, 0),
        byte_of(mem >> 20, 1),
        byte_of(mem >> 20, 2),
        byte_of(mem >> 20, 3),
    ]);
    lemma_bytes_of_all(id);
    lemma_bytes_of_low32(cpu);
    lemma_bytes_of_low32(mem >> 20);
}

/// The sum of the bytes of `s`.
pub open spec fn byte_sum(s: Seq<u8>) -> nat
    decreases s.len(),
{
    if s.len() == 0 {
        0
    } else {
        byte_sum(s.drop_last()) + s.last() as nat
    }
}

proof fn lemma_checksum_is_sum(s: Seq<u8>)
    ensures
        checksum(s) == byte_sum(s) % 256,
    decreases s.len(),
{
    if s.len() > 0 {
        lemma_checksum_is_sum(s.drop_last());
    }
}

proof fn lemma_byte_sum_update(s: Seq<u8>, i: int, b: u8)
    requires
        0 <= i < s.len(),
    ensures
        byte_sum(s.update(i, b)) + s[i] == byte_sum(s) + b,
    decreases s.len(),
{
    if i == s.len() - 1 {
        assert(s.update(i, b).drop_last() =~= s.drop_last());
    } else {
        lemma_byte_sum_update(s.drop_last(), i, b);
        assert(s.update(i, b).drop_last() =~= s.drop_last().update(i, b));
    }
}

/// Changing any one of the first seventeen bytes of an event whose checksum
/// holds gives an event that is refused for its checksum.
pub proof fn lemma_tamper_detected(data: Seq<u8>, i: int, b: u8)
    requires
        checksum_holds(data),
        0 <= i <= 16,
        b != data[i],
    ensures
        decoded(data.update(i, b)) == Err::<EventFields, DecodeFailure>(DecodeFailure::Checksum),
{
    let p = data.take(17);
    let q = data.update(i, b).take(17);
    assert(q =~= p.update(i, b));
    lemma_checksum_is_sum(p);
    lemma_checksum_is_sum(q);
    lemma_byte_sum_update(p, i, b);
}

/// The value that the world hash starts from.
pub const HASH_OFFSET: u64 = 0xcbf29ce484222325;

/// The multiplier of each hashing step.
pub const HASH_PRIME: u64 = 0x100000001b3;

/// One hashing step: `h` combined with `v` by exclusive or, then multiplied
/// by the prime modulo 2^64.
pub open spec fn mix(h: u64, v: u64) -> u64 {
    (((h ^ v) as nat * HASH_PRIME as nat) % 0x1_0000_0000_0000_0000) as u64
}

/// The hash `h` after the four hashed fields of one state: id, status,
/// CPU limit, memory limit.
pub open spec fn mix_state(h: u64, id: u64, status: ContainerStatus, cpu: u64, mem: u64) -> u64 {
    mix(mix(mix(mix(h, id), status.code() as u64), cpu), mem)
}

/// The hash of a list of states. The image hash of a state takes no part.
pub open spec fn world_hash(states: Seq<ContainerState>) -> u64
    decreases states.len(),
{
    if states.len() == 0 {
        HASH_OFFSET
    } else {
        let s = states.last();
        mix_state(
            world_hash(states.drop_last()),
            s.container_id,
            s.status,
            s.cpu_limit_us,
            s.memory_limit,
        )
    }
}

fn mix_step(h: u64, v: u64) -> (r: u64)
    ensures
        r == mix(h, v),
{
    (h ^ v).wrapping_mul(HASH_PRIME)
}

/// A hash over the states of all containers, the same on every node that
/// holds the same list.
pub fn container_world_hash(states: &[ContainerState]) -> (h: u64)
    ensures
        h == world_hash(states@),
{
    let mut hash: u64 = HASH_OFFSET;
    let n: usize = states.len();
    let mut i: usize = 0;
    while i < n
        invariant
            n == states@.len(),
            i <= n,
            hash == world_hash(states@.take(i as int)),
        decreases n - i,
    {
        assert(states@.take(i + 1).drop_last() =~= states@.take(i as int));
        let state = &states[i];
        hash = mix_step(hash, state.container_id);
        hash = mix_step(hash, state.status.as_u8() as u64);
        hash = mix_step(hash, state.cpu_limit_us);
        hash = mix_step(hash, state.memory_limit);
        i = i + 1;
    }
    assert(states@.take(n as int) =~= states@);
    hash
}

proof fn lemma_times_prime_injective(x: u64, y: u64)
    by (bit_vector)
    requires
        (x as nat * 0x100000001b3u64 as nat) % 0x1_0000_0000_0000_0000 == (y as nat
            * 0x100000001b3u64 as nat) % 0x1_0000_0000_0000_0000,
    ensures
        x == y,
{
}

proof fn lemma_xor_injective(h: u64, v: u64, w: u64)
    by (bit_vector)
    requires
        h ^ v == h ^ w,
    ensures
        v == w,
{
}

proof fn lemma_xor_injective_left(g: u64, h: u64, v: u64)
    by (bit_vector)
    requires
        g ^ v == h ^ v,
    ensures
        g == h,
{
}

/// A hashing step gives different results for different values.
pub proof fn lemma_mix_injective_value(h: u64, v: u64, w: u64)
    requires
        v != w,
    ensures
        mix(h, v) != mix(h, w),
{
    if mix(h, v) == mix(h, w) {
        lemma_times_prime_injective(h ^ v, h ^ w);
        lemma_xor_injective(h, v, w);
    }
}

/// A hashing step gives different results from different hashes.
pub proof fn lemma_mix_injective_hash(g: u64, h: u64, v: u64)
    requires
        g != h,
    ensures
        mix(g, v) != mix(h, v),
{
    if mix(g, v) == mix(h, v) {
        lemma_times_prime_injective(g ^ v, h ^ v);
        lemma_xor_injective_left(g, h, v);
    }
}

/// Whether `a` and `b` agree in the four fields that are hashed.
pub open spec fn same_hashed_fields(a: ContainerState, b: ContainerState) -> bool {
    a.container_id == b.container_id && a.status == b.status && a.cpu_limit_us == b.cpu_limit_us
        && a.memory_limit == b.memory_limit
}

/// Whether `a` and `b` differ in exactly one of the four fields that are hashed.
pub open spec fn one_hashed_field_differs(a: ContainerState, b: ContainerState) -> bool {
    let id = a.container_id != b.container_id;
    let status = a.status != b.status;
    let cpu = a.cpu_limit_us != b.cpu_limit_us;
    let mem = a.memory_limit != b.memory_limit;
    (id && !status && !cpu && !mem) || (!id && status && !cpu && !mem) || (!id && !status && cpu
        && !mem) || (!id && !status && !cpu && mem)
}

proof fn lemma_world_hash_prefix(a: Seq<ContainerState>, b: Seq<ContainerState>, k: int, n: int)
    requires
        a.len() == b.len(),
        0 <= k < a.len(),
        0 <= n <= a.len(),
        forall|j: int| 0 <= j < a.len() && j != k ==> same_hashed_fields(#[trigger] a[j], b[j]),
        one_hashed_field_differs(a[k], b[k]),
    ensures
        n <= k ==> world_hash(a.take(n)) == world_hash(b.take(n)),
        n > k ==> world_hash(a.take(n)) != world_hash(b.take(n)),
    decreases n,
{
    if n > 0 {
        lemma_world_hash_prefix(a, b, k, n - 1);
        assert(a.take(n).drop_last() =~= a.take(n - 1));
        assert(b.take(n).drop_last() =~= b.take(n - 1));
        let g = world_hash(a.take(n - 1));
        let h = world_hash(b.take(n - 1));
        let x = a[n - 1];
        let y = b[n - 1];
        let g1 = mix(g, x.container_id);
        let h1 = mix(h, y.container_id);
        let g2 = mix(g1, x.status.code() as u64);
        let h2 = mix(h1, y.status.code() as u64);
        let g3 = mix(g2, x.cpu_limit_us);
        let h3 = mix(h2, y.cpu_limit_us);
        if n - 1 == k {
            if x.container_id != y.container_id {
                lemma_mix_injective_value(g, x.container_id, y.container_id);
                lemma_mix_injective_hash(g1, h1, x.status.code() as u64);
                lemma_mix_injective_hash(g2, h2, x.cpu_limit_us);
                lemma_mix_injective_hash(g3, h3, x.memory_limit);
            } else if x.status != y.status {
                lemma_mix_injective_value(g1, x.status.code() as u64, y.status.code() as u64);
                lemma_mix_injective_hash(g2, h2, x.cpu_limit_us);
                lemma_mix_injective_hash(g3, h3, x.memory_limit);
            } else if x.cpu_limit_us != y.cpu_limit_us {
                lemma_mix_injective_value(g2, x.cpu_limit_us, y.cpu_limit_us);
                lemma_mix_injective_hash(g3, h3, x.memory_limit);
            } else {
                lemma_mix_injective_value(g3, x.memory_limit, y.memory_limit);
            }
        } else if n - 1 > k {
            lemma_mix_injective_hash(g, h, x.container_id);
            lemma_mix_injective_hash(g1, h1, x.status.code() as u64);
            lemma_mix_injective_hash(g2, h2, x.cpu_limit_us);
            lemma_mix_injective_hash(g3, h3, x.memory_limit);
        }
    }
}

/// Two lists of states that agree in every hashed field but one, of one
/// state, have different hashes.
pub proof fn lemma_world_hash_sensitive(a: Seq<ContainerState>, b: Seq<ContainerState>, k: int)
    requires
        a.len() == b.len(),
        0 <= k < a.len(),
        forall|j: int| 0 <= j < a.len() && j != k ==> same_hashed_fields(#[trigger] a[j], b[j]),
        one_hashed_field_differs(a[k], b[k]),
    ensures
        world_hash(a) != world_hash(b),
{
    lemma_world_hash_prefix(a, b, k, a.len() as int);
    assert(a.take(a.len() as int) =~= a);
    assert(b.take(b.len() as int) =~= b);
}

} // verus!
