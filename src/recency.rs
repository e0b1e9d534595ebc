//! The "recently active topics" list: most recent first, no identifier twice,
//! never longer than its capacity.

use vstd::prelude::*;

verus! {

broadcast use vstd::seq_lib::group_filter_ensures, vstd::seq::Seq::group_seq_extra;

/// How many topics the recency list keeps.
pub const RECENT_TOPICS_CAPACITY: usize = 10;

/// The first `n` items of `s`, or all of `s` where it is shorter.
pub open spec fn truncated(s: Seq<u128>, n: nat) -> Seq<u128> {
    if s.len() <= n {
        s
    } else {
        s.take(n as int)
    }
}

/// `s` with every occurrence of `id` removed, the rest kept in order.
pub open spec fn without(s: Seq<u128>, id: u128) -> Seq<u128> {
    s.filter(other_than(id))
}

/// Holds of every identifier but `id`.
pub open spec fn other_than(id: u128) -> spec_fn(u128) -> bool {
    |x: u128| x != id
}

/// The list after `id` is moved (or inserted) to the front and the list is cut
/// back to `cap` items.
pub open spec fn promoted(s: Seq<u128>, id: u128, cap: nat) -> Seq<u128> {
    truncated(seq![id] + without(s, id), cap)
}

/// The list after each of `ids` is promoted in turn.
pub open spec fn promoted_all(s: Seq<u128>, ids: Seq<u128>, cap: nat) -> Seq<u128>
    decreases ids.len(),
{
    if ids.len() == 0 {
        s
    } else {
        promoted_all(promoted(s, ids[0], cap), ids.drop_first(), cap)
    }
}

/// A recency list as it may be stored: within capacity, no identifier twice.
pub open spec fn valid_recency(s: Seq<u128>, cap: nat) -> bool {
    s.len() <= cap && s.no_duplicates()
}

/// An in-memory recency list.
pub struct RecencyList {
    entries: Vec<u128>,
    capacity: usize,
}

impl View for RecencyList {
    type V = Seq<u128>;

    closed spec fn view(&self) -> Seq<u128> {
        self.entries@
    }
}

impl RecencyList {
    pub closed spec fn cap(&self) -> nat {
        self.capacity as nat
    }

    pub open spec fn wf(&self) -> bool {
        valid_recency(self@, self.cap())
    }

    /// An empty list that keeps at most `capacity` topics.
    pub fn new(capacity: usize) -> (r: RecencyList)
        ensures
            r.wf(),
            r@ == Seq::<u128>::empty(),
            r.cap() == capacity,
    {
        RecencyList { entries: Vec::new(), capacity }
    }

    /// An empty list with the standard capacity.
    pub fn with_default_capacity() -> (r: RecencyList)
        ensures
            r.wf(),
            r@ == Seq::<u128>::empty(),
            r.cap() == RECENT_TOPICS_CAPACITY,
    {
        RecencyList::new(RECENT_TOPICS_CAPACITY)
    }

    pub fn capacity(&self) -> (r: usize)
        ensures
            r == self.cap(),
    {
        self.capacity
    }

    pub fn len(&self) -> (r: usize)
        ensures
            r == self@.len(),
    {
        self.entries.len()
    }

    /// Moves `id` to the front, inserting it if absent, and drops whatever no
    /// longer fits.
    pub fn promote(&mut self, id: u128)
        requires
            old(self).wf(),
        ensures
            final(self).wf(),
            final(self).cap() == old(self).cap(),
            final(self)@ == promoted(old(self)@, id, old(self).cap()),
    {
        let ghost old_s = self@;
        let cap = self.capacity;
        let mut out: Vec<u128> = Vec::new();
        if cap > 0 {
            out.push(id);
        }
        let mut i: usize = 0;
        while i < self.entries.len()
            invariant
                0 <= i <= old_s.len(),
                self@ == old_s,
                self.capacity == cap,
                cap > 0 ==> out@ == truncated(seq![id] + without(old_s.take(i as int), id), cap as nat),
                cap == 0 ==> out@.len() == 0,
            decreases old_s.len() - i,
        {
            let x = self.entries[i];
            proof {
                assert(old_s.take(i + 1) =~= old_s.take(i as int).push(x));
            }
            if x != id && out.len() < cap {
                proof {
                    let f = without(old_s.take(i as int), id);
                    assert(seq![id] + f.push(x) =~= (seq![id] + f).push(x));
                }
                out.push(x);
            } else if x != id {
                proof {
                    let f = without(old_s.take(i as int), id);
                    if cap > 0 {
                        assert((seq![id] + f.push(x)).take(cap as int) =~= (seq![id] + f).take(cap as int));
                    }
                }
            }
            i = i + 1;
        }
        proof {
            assert(old_s.take(old_s.len() as int) =~= old_s);
            if cap == 0 {
                assert(out@ =~= truncated(seq![id] + without(old_s, id), 0));
            }
            lemma_promoted_valid(old_s, id, cap as nat);
        }
        self.entries = out;
    }

    /// The first `n` topics, front to back.
    pub fn top(&self, n: usize) -> (r: Vec<u128>)
        ensures
            r@ == truncated(self@, n as nat),
    {
        let mut out: Vec<u128> = Vec::new();
        let mut i: usize = 0;
        while i < self.entries.len() && i < n
            invariant
                i <= self@.len(),
                i <= n,
                out@ == self@.take(i as int),
            decreases self@.len() - i,
        {
            out.push(self.entries[i]);
            proof {
                assert(self@.take(i + 1) =~= self@.take(i as int).push(self@[i as int]));
            }
            i = i + 1;
        }
        proof {
            assert(self@.take(self@.len() as int) =~= self@);
        }
        out
    }
}

/// A list without duplicates keeps none after `id` is filtered out.
proof fn lemma_without_no_duplicates(s: Seq<u128>, id: u128)
    requires
        s.no_duplicates(),
    ensures
        without(s, id).no_duplicates(),
        !without(s, id).contains(id),
    decreases s.len(),
{
    let f = other_than(id);
    if s.len() > 0 {
        let t = s.drop_last();
        let l = s.last();
        assert(s =~= t.push(l));
        assert(t.no_duplicates());
        lemma_without_no_duplicates(t, id);
        let ft = t.filter(f);
        assert(s.filter(f) == if f(l) { ft.push(l) } else { ft });
        if f(l) {
            if ft.contains(l) {
                assert(t.contains(l));
                let j = choose|j: int| 0 <= j < t.len() && t[j] == l;
                assert(s[j] == s[t.len() as int]);
            }
            assert forall|a: int, b: int|
                0 <= a < ft.push(l).len() && 0 <= b < ft.push(l).len() && a != b
                implies ft.push(l)[a] != ft.push(l)[b] by {
                if a < ft.len() && b < ft.len() {
                } else if a < ft.len() {
                    assert(ft.contains(ft[a]));
                } else {
                    assert(ft.contains(ft[b]));
                }
            }
        }
    }
    if without(s, id).contains(id) {
        let k = choose|k: int| 0 <= k < without(s, id).len() && without(s, id)[k] == id;
        assert(f(without(s, id)[k]));
    }
}

/// Promotion keeps a list valid: within capacity and without duplicates.
pub proof fn lemma_promoted_valid(s: Seq<u128>, id: u128, cap: nat)
    requires
        valid_recency(s, cap),
    ensures
        valid_recency(promoted(s, id, cap), cap),
{
    lemma_without_no_duplicates(s, id);
    let w = without(s, id);
    vstd::seq_lib::lemma_no_dup_in_concat(seq![id], w);
    let full = seq![id] + w;
    assert(full.no_duplicates());
}

/// Whatever identifiers are promoted, and in whatever order, a valid list
/// stays within capacity and without duplicates.
pub proof fn lemma_promote_sequence_valid(s: Seq<u128>, ids: Seq<u128>, cap: nat)
    requires
        valid_recency(s, cap),
    ensures
        valid_recency(promoted_all(s, ids, cap), cap),
    decreases ids.len(),
{
    if ids.len() > 0 {
        lemma_promoted_valid(s, ids[0], cap);
        lemma_promote_sequence_valid(promoted(s, ids[0], cap), ids.drop_first(), cap);
    }
}

/// Asking for at least as many topics as the list holds gives the whole list;
/// asking for none gives none.
pub proof fn lemma_top_bounds(s: Seq<u128>, n: nat)
    ensures
        n >= s.len() ==> truncated(s, n) == s,
        truncated(s, 0) == Seq::<u128>::empty(),
{
    assert(s.take(0) =~= Seq::<u128>::empty());
}

/// Filtering out an identifier that a list does not hold leaves the list as it is.
proof fn lemma_without_absent(t: Seq<u128>, id: u128)
    requires
        !t.contains(id),
    ensures
        without(t, id) == t,
    decreases t.len(),
{
    if t.len() > 0 {
        let u = t.drop_last();
        assert(t =~= u.push(t.last()));
        if u.contains(id) {
            let j = choose|j: int| 0 <= j < u.len() && u[j] == id;
            assert(t[j] == id);
        }
        lemma_without_absent(u, id);
    }
}

/// Promoting an identifier that stands at position `i` of a valid list takes it
/// out of that position and puts it in front; all others keep their order.
pub proof fn lemma_promote_present(s: Seq<u128>, id: u128, cap: nat, i: int)
    requires
        valid_recency(s, cap),
        0 <= i < s.len(),
        s[i] == id,
    ensures
        promoted(s, id, cap) == seq![id] + s.remove(i),
{
    let a = s.take(i);
    let b = s.skip(i + 1);
    assert(s =~= a + seq![id] + b);
    assert(s.remove(i) =~= a + b);
    if a.contains(id) {
        let j = choose|j: int| 0 <= j < a.len() && a[j] == id;
        assert(s[j] == s[i]);
    }
    if b.contains(id) {
        let j = choose|j: int| 0 <= j < b.len() && b[j] == id;
        assert(s[i + 1 + j] == s[i]);
    }
    lemma_without_absent(a, id);
    lemma_without_absent(b, id);
    let f = other_than(id);
    assert(seq![id].filter(f) =~= Seq::<u128>::empty()) by {
        reveal(Seq::filter);
        assert(seq![id].drop_last() =~= Seq::<u128>::empty());
    }
    assert(without(s, id) =~= a + b);
}

/// Promoting the identifier that is already in front changes nothing.
pub proof fn lemma_promote_front_unchanged(s: Seq<u128>, id: u128, cap: nat)
    requires
        valid_recency(s, cap),
        s.len() > 0,
        s[0] == id,
    ensures
        promoted(s, id, cap) == s,
{
    lemma_promote_present(s, id, cap, 0);
    assert(seq![id] + s.remove(0) =~= s);
}

} // verus!
