//! Comments and the store that keeps them ordered by topic, then timestamp.

use vstd::prelude::*;

verus! {

/// One message in a topic's discussion. `timestamp` counts microseconds since
/// the Unix epoch, in UTC, and is set when the store accepts the comment.
#[derive(Debug, Clone, PartialEq, Eq)]
pub struct Comment {
    pub topic_id: u128,
    pub sender: String,
    pub text: String,
    pub timestamp: i64,
}

/// A comment as submitted, before the store gives it a timestamp.
#[derive(Debug, Clone, PartialEq, Eq)]
pub struct CommentRequest {
    pub topic_id: u128,
    pub sender: String,
    pub text: String,
}

/// Why a store operation failed.
#[derive(Debug, Clone, Copy, PartialEq, Eq, Structural)]
pub enum StoreError {
    /// The backing store could not be reached.
    StoreUnavailable,
    /// A write was rejected.
    PersistenceError,
    /// A read was rejected.
    QueryError,
}

/// The comment that `request` becomes when accepted at `timestamp`.
pub open spec fn stamped(request: CommentRequest, timestamp: i64) -> Comment {
    Comment {
        topic_id: request.topic_id,
        sender: request.sender,
        text: request.text,
        timestamp,
    }
}

impl Comment {
    /// Gives `request` its timestamp.
    pub fn from_request(request: CommentRequest, timestamp: i64) -> (r: Comment)
        ensures
            r == stamped(request, timestamp),
    {
        Comment { topic_id: request.topic_id, sender: request.sender, text: request.text, timestamp }
    }

    /// A field-for-field copy.
    pub fn duplicate(&self) -> (r: Comment)
        ensures
            r == *self,
    {
        Comment {
            topic_id: self.topic_id,
            sender: self.sender.clone(),
            text: self.text.clone(),
            timestamp: self.timestamp,
        }
    }
}

/// `a` comes no later than `b` in the order by topic, then timestamp.
pub open spec fn key_le(a: Comment, b: Comment) -> bool {
    a.topic_id < b.topic_id || (a.topic_id == b.topic_id && a.timestamp <= b.timestamp)
}

/// `s` is ordered by topic, then timestamp.
pub open spec fn ordered_by_key(s: Seq<Comment>) -> bool {
    forall|i: int, j: int| 0 <= i < j < s.len() ==> key_le(#[trigger] s[i], #[trigger] s[j])
}

/// `s` is ordered by timestamp, oldest first.
pub open spec fn chronological(s: Seq<Comment>) -> bool {
    forall|i: int, j: int| 0 <= i < j < s.len() ==> (#[trigger] s[i]).timestamp <= (#[trigger] s[j]).timestamp
}

/// Holds of the comments of topic `t`.
pub open spec fn in_topic(t: u128) -> spec_fn(Comment) -> bool {
    |c: Comment| c.topic_id == t
}

/// The comments of topic `t`, in the order of `s`.
pub open spec fn of_topic(s: Seq<Comment>, t: u128) -> Seq<Comment> {
    s.filter(in_topic(t))
}

/// Relies on chrono's `Utc::now` and `DateTime::timestamp_micros`: the current
/// UTC time in microseconds since the Unix epoch. Its value is the machine's
/// clock, so nothing is promised of it.
#[verifier::external_body]
fn now_micros() -> (r: i64) {
    chrono::Utc::now().timestamp_micros()
}

/// The comment store: every accepted comment, kept ordered by topic and then
/// timestamp, so that one topic's comments stand together, oldest first.
pub struct CommentStore {
    entries: Vec<Comment>,
}

impl View for CommentStore {
    type V = Seq<Comment>;

    closed spec fn view(&self) -> Seq<Comment> {
        self.entries@
    }
}

impl CommentStore {
    pub open spec fn wf(&self) -> bool {
        ordered_by_key(self@)
    }

    /// An empty store.
    pub fn new() -> (r: CommentStore)
        ensures
            r.wf(),
            r@ == Seq::<Comment>::empty(),
    {
        CommentStore { entries: Vec::new() }
    }

    /// How many comments the store holds.
    pub fn len(&self) -> (r: usize)
        ensures
            r == self@.len(),
    {
        self.entries.len()
    }

    /// Stores `request` as accepted at `now`, after every comment of the same
    /// topic whose timestamp is not later, and returns the stored comment.
    pub fn append_at(&mut self, request: CommentRequest, now: i64) -> (r: Comment)
        requires
            old(self).wf(),
            old(self)@.len() < usize::MAX,
        ensures
            final(self).wf(),
            r == stamped(request, now),
            r.timestamp >= now,
            exists|p: int| 0 <= p <= old(self)@.len() && final(self)@ == old(self)@.insert(p, r),
    {
        let c = Comment::from_request(request, now);
        let mut p: usize = self.entries.len();
        while p > 0 && !(self.entries[p - 1].topic_id < c.topic_id || (self.entries[p - 1].topic_id
            == c.topic_id && self.entries[p - 1].timestamp <= c.timestamp))
            invariant
                p <= self@.len(),
                ordered_by_key(self@),
                forall|k: int| p <= k < self@.len() ==> !key_le(#[trigger] self@[k], c),
            decreases p,
        {
            p = p - 1;
        }
        let ghost before = self@;
        self.entries.insert(p, c.duplicate());
        proof {
            assert forall|i: int, j: int| 0 <= i < j < self@.len() implies key_le(#[trigger] self@[i], #[trigger] self@[j]) by {
                if j < p {
                } else if j == p {
                    if i < p - 1 {
                        assert(key_le(before[i], before[p - 1]));
                    }
                } else if i < p {
                    if i < p - 1 {
                        assert(key_le(before[i], before[p - 1]));
                    }
                    assert(!key_le(before[j - 1], c));
                } else if i == p {
                    assert(!key_le(before[j - 1], c));
                } else {
                    assert(key_le(before[i - 1], before[j - 1]));
                }
            }
        }
        c
    }

    /// Stores `request` with the current time as its timestamp.
    pub fn append(&mut self, request: CommentRequest) -> (r: Comment)
        requires
            old(self).wf(),
            old(self)@.len() < usize::MAX,
        ensures
            final(self).wf(),
            r.topic_id == request.topic_id && r.sender == request.sender && r.text == request.text,
            exists|p: int| 0 <= p <= old(self)@.len() && final(self)@ == old(self)@.insert(p, r),
    {
        let now = now_micros();
        self.append_at(request, now)
    }

    /// The comments of `topic_id`, oldest first; empty for a topic without any.
    /// A binary search finds where the topic's comments start, so the cost
    /// grows with the size of the answer and only logarithmically with the
    /// store.
    pub fn list_by_topic(&self, topic_id: u128) -> (r: Vec<Comment>)
        requires
            self.wf(),
        ensures
            r@ == of_topic(self@, topic_id),
            chronological(r@),
    {
        let ghost s = self@;
        let mut lo: usize = 0;
        let mut hi: usize = self.entries.len();
        while lo < hi
            invariant
                s == self@,
                lo <= hi <= s.len(),
                ordered_by_key(s),
                forall|k: int| 0 <= k < lo ==> (#[trigger] s[k]).topic_id < topic_id,
                forall|k: int| hi <= k < s.len() ==> (#[trigger] s[k]).topic_id >= topic_id,
            decreases hi - lo,
        {
            let mid = lo + (hi - lo) / 2;
            if self.entries[mid].topic_id < topic_id {
                proof {
                    assert forall|k: int| 0 <= k < mid + 1 implies (#[trigger] s[k]).topic_id < topic_id by {
                        if k < mid {
                            assert(key_le(s[k], s[mid as int]));
                        }
                    }
                }
                lo = mid + 1;
            } else {
                proof {
                    assert forall|k: int| mid <= k < s.len() implies (#[trigger] s[k]).topic_id >= topic_id by {
                        if k > mid {
                            assert(key_le(s[mid as int], s[k]));
                        }
                    }
                }
                hi = mid;
            }
        }
        let start = lo;
        let mut out: Vec<Comment> = Vec::new();
        let mut i: usize = start;
        while i < self.entries.len() && self.entries[i].topic_id == topic_id
            invariant
                s == self@,
                start <= i <= s.len(),
                ordered_by_key(s),
                forall|k: int| start <= k < i ==> (#[trigger] s[k]).topic_id == topic_id,
                out@ == s.subrange(start as int, i as int),
            decreases s.len() - i,
        {
            out.push(self.entries[i].duplicate());
            proof {
                assert(s.subrange(start as int, i + 1) =~= s.subrange(start as int, i as int).push(s[i as int]));
            }
            i = i + 1;
        }
        proof {
            let end = i as int;
            if end < s.len() {
                assert forall|k: int| end <= k < s.len() implies (#[trigger] s[k]).topic_id != topic_id by {
                    if k > end {
                        assert(key_le(s[end], s[k]));
                    }
                }
            }
            let a = s.subrange(0, start as int);
            let b = s.subrange(start as int, end);
            let c = s.subrange(end, s.len() as int);
            assert(s =~= a + b + c);
            lemma_filter_uniform(a, topic_id, false);
            lemma_filter_uniform(b, topic_id, true);
            lemma_filter_uniform(c, topic_id, false);
            assert(of_topic(s, topic_id) =~= b);
            assert forall|x: int, y: int| 0 <= x < y < out@.len() implies (#[trigger] out@[x]).timestamp
                <= (#[trigger] out@[y]).timestamp by {
                assert(key_le(s[start + x], s[start + y]));
            }
        }
        out
    }
}

/// A run of comments that all belong to topic `t` is kept whole by the filter;
/// a run where none does is dropped whole.
proof fn lemma_filter_uniform(s: Seq<Comment>, t: u128, all: bool)
    requires
        forall|k: int| 0 <= k < s.len() ==> ((#[trigger] s[k]).topic_id == t) == all,
    ensures
        of_topic(s, t) == if all { s } else { Seq::<Comment>::empty() },
    decreases s.len(),
{
    reveal(Seq::filter);
    if s.len() > 0 {
        let u = s.drop_last();
        assert forall|k: int| 0 <= k < u.len() implies ((#[trigger] u[k]).topic_id == t) == all by {
            assert(u[k] == s[k]);
        }
        lemma_filter_uniform(u, t, all);
        if all {
            assert(u.push(s.last()) =~= s);
        }
    }
}

/// An accepted comment is among those that its topic lists.
pub proof fn lemma_appended_is_listed(s: Seq<Comment>, p: int, c: Comment)
    requires
        0 <= p <= s.len(),
    ensures
        of_topic(s.insert(p, c), c.topic_id).contains(c),
{
    let t = s.insert(p, c);
    assert(t[p] == c);
    t.lemma_filter_contains(in_topic(c.topic_id), p);
}

} // verus!
