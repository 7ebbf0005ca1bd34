use vstd::prelude::*;

use crate::bytes::{
    lemma_u32_round_trip, lemma_u64_round_trip, read_u32, read_u64, u32_from_le, u32_le,
    u32_to_le, u64_from_le, u64_le, u64_to_le,
};
use crate::error::RtError;

verus! {

/// Length of a serialized snapshot: the size of the record laid out as in C.
pub const SNAPSHOT_BYTES: usize = 32;

/// What a thread's scheduling identity and state were when it was captured.
#[derive(Clone, Copy, Debug)]
pub struct RtPriorityThreadInfoInternal {
    /// The id of the process that holds the thread.
    pub pid: i32,
    /// The system-wide thread id, by which the broker promotes the thread.
    pub thread_id: i64,
    /// The process-local thread handle, only meaningful in the process `pid`,
    /// used to restore the scheduling state.
    pub pthread_id: u64,
    /// The scheduling policy.
    pub policy: i32,
    /// The priority of the scheduling parameters.
    pub sched_priority: i32,
}

/// The raw results of the kernel calls that describe the calling thread.
#[derive(Clone, Copy, Debug)]
pub struct ThreadQuery {
    pub pid: i32,
    pub thread_id: i64,
    pub pthread_id: u64,
    /// What the call that reads the scheduling policy and parameters returned:
    /// zero on success.
    pub status: i32,
    pub policy: i32,
    pub sched_priority: i32,
}

/// The snapshot that a successful query describes.
pub open spec fn captured(q: ThreadQuery) -> RtPriorityThreadInfoInternal {
    RtPriorityThreadInfoInternal {
        pid: q.pid,
        thread_id: q.thread_id,
        pthread_id: q.pthread_id,
        policy: q.policy,
        sched_priority: q.sched_priority,
    }
}

/// Builds the snapshot of the calling thread from what the kernel reported of it.
pub fn get_current_thread_info_internal(q: ThreadQuery) -> (r: Result<
    RtPriorityThreadInfoInternal,
    RtError,
>)
    ensures
        q.status == 0 ==> r == Ok::<RtPriorityThreadInfoInternal, RtError>(captured(q)),
        q.status != 0 ==> r == Err::<RtPriorityThreadInfoInternal, RtError>(RtError::Query),
{
    if q.status != 0 {
        return Err(RtError::Query);
    }
    Ok(
        RtPriorityThreadInfoInternal {
            pid: q.pid,
            thread_id: q.thread_id,
            pthread_id: q.pthread_id,
            policy: q.policy,
            sched_priority: q.sched_priority,
        },
    )
}

impl RtPriorityThreadInfoInternal {
    /// Two snapshots describe the same thread when both thread ids match.
    pub open spec fn same_thread(&self, other: &Self) -> bool {
        self.thread_id == other.thread_id && self.pthread_id == other.pthread_id
    }

    /// The serialized form: pid, four zero bytes of padding, thread id,
    /// thread handle, policy and priority, each little-endian.
    pub open spec fn bytes_spec(&self) -> Seq<u8> {
        u32_le(self.pid as u32) + seq![0u8, 0u8, 0u8, 0u8] + u64_le(self.thread_id as u64)
            + u64_le(self.pthread_id) + u32_le(self.policy as u32) + u32_le(
            self.sched_priority as u32,
        )
    }

    /// The snapshot that a serialized form describes; the padding is not read.
    pub open spec fn from_bytes_spec(b: Seq<u8>) -> Self {
        RtPriorityThreadInfoInternal {
            pid: u32_from_le(b, 0) as i32,
            thread_id: u64_from_le(b, 8) as i64,
            pthread_id: u64_from_le(b, 16),
            policy: u32_from_le(b, 24) as i32,
            sched_priority: u32_from_le(b, 28) as i32,
        }
    }

    /// Serializes the snapshot to a fixed-size byte buffer.
    pub fn serialize(&self) -> (r: [u8; SNAPSHOT_BYTES])
        ensures
            r@ == self.bytes_spec(),
    {
        let p = u32_to_le(self.pid as u32);
        let t = u64_to_le(self.thread_id as u64);
        let h = u64_to_le(self.pthread_id);
        let c = u32_to_le(self.policy as u32);
        let s = u32_to_le(self.sched_priority as u32);
        let r = [
            p[0], p[1], p[2], p[3], 0u8, 0u8, 0u8, 0u8,
            t[0], t[1], t[2], t[3], t[4], t[5], t[6], t[7],
            h[0], h[1], h[2], h[3], h[4], h[5], h[6], h[7],
            c[0], c[1], c[2], c[3], s[0], s[1], s[2], s[3],
        ];
        assert(r@ =~= self.bytes_spec());
        r
    }

    /// Reads a snapshot back from its serialized form.
    pub fn deserialize(bytes: [u8; SNAPSHOT_BYTES]) -> (r: Self)
        ensures
            r == Self::from_bytes_spec(bytes@),
    {
        RtPriorityThreadInfoInternal {
            pid: read_u32(&bytes, 0) as i32,
            thread_id: read_u64(&bytes, 8) as i64,
            pthread_id: read_u64(&bytes, 16),
            policy: read_u32(&bytes, 24) as i32,
            sched_priority: read_u32(&bytes, 28) as i32,
        }
    }
}

impl PartialEq for RtPriorityThreadInfoInternal {
    fn eq(&self, other: &Self) -> (r: bool)
        ensures
            r == self.same_thread(other),
    {
        self.thread_id == other.thread_id && self.pthread_id == other.pthread_id
    }
}

impl vstd::std_specs::cmp::PartialEqSpecImpl for RtPriorityThreadInfoInternal {
    open spec fn obeys_eq_spec() -> bool {
        true
    }

    open spec fn eq_spec(&self, other: &Self) -> bool {
        self.same_thread(other)
    }
}

proof fn lemma_i32_bits(x: i32)
    by (bit_vector)
    ensures
        (x as u32) as i32 == x,
{
}

proof fn lemma_i64_bits(x: i64)
    by (bit_vector)
    ensures
        (x as u64) as i64 == x,
{
}

/// Deserializing a serialized snapshot gives back every field of the
/// snapshot it came from, and so a snapshot equal to it.
pub proof fn lemma_round_trip(s: RtPriorityThreadInfoInternal)
    ensures
        RtPriorityThreadInfoInternal::from_bytes_spec(s.bytes_spec()) == s,
        RtPriorityThreadInfoInternal::from_bytes_spec(s.bytes_spec()).same_thread(&s),
{
    let b = s.bytes_spec();
    assert(b.subrange(0, 4) =~= u32_le(s.pid as u32));
    assert(b.subrange(8, 16) =~= u64_le(s.thread_id as u64));
    assert(b.subrange(16, 24) =~= u64_le(s.pthread_id));
    assert(b.subrange(24, 28) =~= u32_le(s.policy as u32));
    assert(b.subrange(28, 32) =~= u32_le(s.sched_priority as u32));
    lemma_u32_round_trip(s.pid as u32, b, 0);
    lemma_u64_round_trip(s.thread_id as u64, b, 8);
    lemma_u64_round_trip(s.pthread_id, b, 16);
    lemma_u32_round_trip(s.policy as u32, b, 24);
    lemma_u32_round_trip(s.sched_priority as u32, b, 28);
    lemma_i32_bits(s.pid);
    lemma_i64_bits(s.thread_id);
    lemma_i32_bits(s.policy);
    lemma_i32_bits(s.sched_priority);
}

/// A handle on a promoted thread: it holds the snapshot taken before the
/// promotion, which demotion restores.
#[derive(Debug)]
pub struct RtPriorityHandleInternal {
    thread_info: RtPriorityThreadInfoInternal,
}

impl View for RtPriorityHandleInternal {
    type V = RtPriorityThreadInfoInternal;

    closed spec fn view(&self) -> RtPriorityThreadInfoInternal {
        self.thread_info
    }
}

impl RtPriorityHandleInternal {
    pub(crate) fn new(thread_info: RtPriorityThreadInfoInternal) -> (r: Self)
        ensures
            r@ == thread_info,
    {
        RtPriorityHandleInternal { thread_info }
    }

    /// The snapshot taken before the promotion.
    pub fn thread_info(&self) -> (r: RtPriorityThreadInfoInternal)
        ensures
            r == self@,
    {
        self.thread_info
    }
}

} // verus!
