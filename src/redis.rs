//! How the recency list is kept in a Redis list: the commands that promote a
//! topic, what they do to the list, and how stored identifiers are read back.

use vstd::prelude::*;
use crate::recency::{promoted, truncated, without, RECENT_TOPICS_CAPACITY};

verus! {

/// The key under which the recency list is stored.
pub const RECENT_TOPICS_KEY: &'static str = "recent_topics";

/// A command on the stored list.
#[derive(Debug, Clone, Copy, PartialEq, Eq, Structural)]
pub enum ListOp {
    /// `LREM key 0 id`: remove every occurrence of `id`.
    RemoveAll(u128),
    /// `LPUSH key id`: put `id` in front.
    PushFront(u128),
    /// `LTRIM key 0 stop`: keep the items at positions `0..=stop`.
    TrimTo(usize),
}

/// What one command does to the list.
pub open spec fn apply_op(s: Seq<u128>, op: ListOp) -> Seq<u128> {
    match op {
        ListOp::RemoveAll(id) => without(s, id),
        ListOp::PushFront(id) => seq![id] + s,
        ListOp::TrimTo(stop) => truncated(s, stop as nat + 1),
    }
}

/// What a batch of commands, run in order and as one unit, does to the list.
pub open spec fn apply_ops(s: Seq<u128>, ops: Seq<ListOp>) -> Seq<u128>
    decreases ops.len(),
{
    if ops.len() == 0 {
        s
    } else {
        apply_ops(apply_op(s, ops[0]), ops.drop_first())
    }
}

/// The number that the bytes `b` spell, most significant first.
pub open spec fn be_value(b: Seq<u8>) -> int
    decreases b.len(),
{
    if b.len() == 0 {
        0
    } else {
        be_value(b.drop_last()) * 256 + b.last()
    }
}

/// A stored identifier that is not 16 bytes long.
#[derive(Debug, Clone, Copy, PartialEq, Eq, Structural)]
pub struct TopicDecodeError {
    /// Its position in the stored list.
    pub index: usize,
}

/// Relies on uuid's `Uuid::from_slice`, which fails unless it gets exactly 16
/// bytes, and `Uuid::as_u128`, which reads those bytes big-endian.
#[verifier::external_body]
fn uuid_value(bytes: &Vec<u8>) -> (r: Option<u128>)
    ensures
        r is Some <==> bytes@.len() == 16,
        r matches Some(v) ==> v as int == be_value(bytes@),
{
    match uuid::Uuid::from_slice(bytes.as_slice()) {
        Ok(u) => Some(u.as_u128()),
        Err(_) => None,
    }
}

/// Reads back the identifiers of a stored list, in order; fails at the first
/// one that is not 16 bytes long.
pub fn decode_topics(raw: &Vec<Vec<u8>>) -> (r: Result<Vec<u128>, TopicDecodeError>)
    ensures
        r is Ok <==> forall|i: int| 0 <= i < raw@.len() ==> (#[trigger] raw@[i])@.len() == 16,
        r matches Ok(v) ==> v@.len() == raw@.len() && forall|i: int|
            0 <= i < raw@.len() ==> (#[trigger] v@[i]) as int == be_value(raw@[i]@),
        r matches Err(e) ==> e.index < raw@.len() && raw@[e.index as int]@.len() != 16 && forall|i: int|
            0 <= i < e.index ==> (#[trigger] raw@[i])@.len() == 16,
{
    let mut out: Vec<u128> = Vec::new();
    let mut i: usize = 0;
    while i < raw.len()
        invariant
            i <= raw@.len(),
            out@.len() == i,
            forall|k: int| 0 <= k < i ==> (#[trigger] raw@[k])@.len() == 16,
            forall|k: int| 0 <= k < i ==> (#[trigger] out@[k]) as int == be_value(raw@[k]@),
        decreases raw@.len() - i,
    {
        match uuid_value(&raw[i]) {
            Some(v) => out.push(v),
            None => return Err(TopicDecodeError { index: i }),
        }
        i = i + 1;
    }
    Ok(out)
}

/// Where and how long the recency list is kept in Redis.
pub struct Redis {
    key: String,
    capacity: usize,
}

impl Redis {
    pub closed spec fn key_view(&self) -> Seq<char> {
        self.key@
    }

    pub closed spec fn cap(&self) -> nat {
        self.capacity as nat
    }

    /// A list under `key` that keeps at most `capacity` topics.
    pub fn with_key(key: String, capacity: usize) -> (r: Redis)
        requires
            capacity >= 1,
        ensures
            r.key_view() == key@,
            r.cap() == capacity,
    {
        Redis { key, capacity }
    }

    /// The standard list: its usual key and capacity.
    pub fn standard() -> (r: Redis)
        ensures
            r.key_view() == RECENT_TOPICS_KEY@,
            r.cap() == RECENT_TOPICS_CAPACITY,
    {
        Redis::with_key(RECENT_TOPICS_KEY.to_string(), RECENT_TOPICS_CAPACITY)
    }

    pub fn key(&self) -> (r: &String)
        ensures
            r@ == self.key_view(),
    {
        &self.key
    }

    pub fn capacity(&self) -> (r: usize)
        ensures
            r == self.cap(),
    {
        self.capacity
    }

    /// The batch that promotes `topic_id`: remove it, push it in front, trim.
    /// Run as one unit, it turns any stored list into its promotion.
    pub fn promote_ops(&self, topic_id: u128) -> (r: Vec<ListOp>)
        requires
            self.cap() >= 1,
        ensures
            r@ == seq![ListOp::RemoveAll(topic_id), ListOp::PushFront(topic_id), ListOp::TrimTo((self.cap() - 1) as usize)],
            forall|s: Seq<u128>| #[trigger] apply_ops(s, r@) == promoted(s, topic_id, self.cap()),
    {
        let ops = vec![ListOp::RemoveAll(topic_id), ListOp::PushFront(topic_id), ListOp::TrimTo(self.capacity - 1)];
        proof {
            assert forall|s: Seq<u128>| #[trigger] apply_ops(s, ops@) == promoted(s, topic_id, self.cap()) by {
                let s1 = apply_op(s, ops@[0]);
                let s2 = apply_op(s1, ops@[1]);
                let s3 = apply_op(s2, ops@[2]);
                let d1 = ops@.drop_first();
                let d2 = d1.drop_first();
                let d3 = d2.drop_first();
                assert(d1[0] == ops@[1] && d2[0] == ops@[2]);
                assert(d3 =~= Seq::<ListOp>::empty());
                assert(apply_ops(s3, d3) == s3);
                assert(apply_ops(s2, d2) == s3);
                assert(apply_ops(s1, d1) == s3);
                assert(apply_ops(s, ops@) == s3);
            }
        }
        ops
    }

    /// The last position that a read of the whole list asks for (`LRANGE key 0 stop`).
    pub fn range_stop(&self) -> (r: usize)
        requires
            self.cap() >= 1,
        ensures
            r + 1 == self.cap(),
    {
        self.capacity - 1
    }
}

} // verus!
