//! A chronologically ordered index of revisions, with bounded range queries.

use vstd::prelude::*;

verus! {

/// One indexed revision and the time it was recorded at.
#[derive(Clone, Debug)]
pub struct TimeEntry {
    pub timestamp: i64,
    pub revision: String,
}

/// The entries of one (author, content type) partition, oldest first.
/// Entries with equal timestamps keep the order in which they were appended.
#[derive(Clone, Debug)]
pub struct TimeIndex {
    entries: Vec<TimeEntry>,
}

impl View for TimeIndex {
    type V = Seq<TimeEntry>;

    closed spec fn view(&self) -> Seq<TimeEntry> {
        self.entries@
    }
}

/// Timestamps never decrease along `s`.
pub open spec fn sorted_by_time(s: Seq<TimeEntry>) -> bool {
    forall|i: int, j: int| 0 <= i < j < s.len() ==> s[i].timestamp <= s[j].timestamp
}

/// `t` lies within the bounds; an absent bound leaves that side open.
pub open spec fn in_range(t: i64, start: Option<i64>, end: Option<i64>) -> bool {
    &&& match start {
        Some(s) => s <= t,
        None => true,
    }
    &&& match end {
        Some(e) => t <= e,
        None => true,
    }
}

/// The entries of `s` that lie within the bounds, in their order in `s`.
pub open spec fn within(s: Seq<TimeEntry>, start: Option<i64>, end: Option<i64>) -> Seq<TimeEntry>
    decreases s.len(),
{
    if s.len() == 0 {
        Seq::empty()
    } else {
        let rest = within(s.drop_last(), start, end);
        if in_range(s.last().timestamp, start, end) {
            rest.push(s.last())
        } else {
            rest
        }
    }
}

/// The first `limit` entries of `s`, or all of them without a limit.
pub open spec fn truncated(s: Seq<TimeEntry>, limit: Option<usize>) -> Seq<TimeEntry> {
    match limit {
        Some(n) => if n < s.len() {
            s.take(n as int)
        } else {
            s
        },
        None => s,
    }
}

/// `p` is where `e` goes in `s`: after every entry no later than it, before
/// every later one.
pub open spec fn insert_position(s: Seq<TimeEntry>, p: int, e: TimeEntry) -> bool {
    &&& 0 <= p <= s.len()
    &&& forall|j: int| 0 <= j < p ==> s[j].timestamp <= e.timestamp
    &&& forall|j: int| p <= j < s.len() ==> s[j].timestamp > e.timestamp
}

/// A range query keeps exactly the entries of the index that lie within the
/// bounds, and keeps them in time order.
pub proof fn lemma_within_exact(s: Seq<TimeEntry>, start: Option<i64>, end: Option<i64>)
    ensures
        forall|e: TimeEntry|
            within(s, start, end).contains(e) <==> (s.contains(e) && in_range(
                e.timestamp,
                start,
                end,
            )),
        sorted_by_time(s) ==> sorted_by_time(within(s, start, end)),
    decreases s.len(),
{
    if s.len() == 0 {
        assert(within(s, start, end) =~= Seq::<TimeEntry>::empty());
        assert forall|e: TimeEntry| !s.contains(e) && !within(s, start, end).contains(e) by {}
    } else {
        let p = s.drop_last();
        let x = s.last();
        let w = within(p, start, end);
        lemma_within_exact(p, start, end);
        assert forall|e: TimeEntry| s.contains(e) <==> (p.contains(e) || e == x) by {
            if s.contains(e) {
                let i = choose|i: int| 0 <= i < s.len() && s[i] == e;
                if i < s.len() - 1 {
                    assert(p[i] == e);
                }
            }
            if p.contains(e) {
                let i = choose|i: int| 0 <= i < p.len() && p[i] == e;
                assert(s[i] == e);
            }
            if e == x {
                assert(s[s.len() - 1] == e);
            }
        }
        assert forall|e: TimeEntry| w.push(x).contains(e) <==> (w.contains(e) || e == x) by {
            if w.push(x).contains(e) {
                let i = choose|i: int| 0 <= i < w.push(x).len() && w.push(x)[i] == e;
                if i < w.len() {
                    assert(w[i] == e);
                }
            }
            if w.contains(e) {
                let i = choose|i: int| 0 <= i < w.len() && w[i] == e;
                assert(w.push(x)[i] == e);
            }
            if e == x {
                assert(w.push(x)[w.len() as int] == e);
            }
        }
        assert(within(s, start, end) == if in_range(x.timestamp, start, end) {
            w.push(x)
        } else {
            w
        });
        assert forall|e: TimeEntry|
            within(s, start, end).contains(e) <==> (s.contains(e) && in_range(
                e.timestamp,
                start,
                end,
            )) by {
            assert(w.contains(e) <==> (p.contains(e) && in_range(e.timestamp, start, end)));
            assert(s.contains(e) <==> (p.contains(e) || e == x));
            assert(w.push(x).contains(e) <==> (w.contains(e) || e == x));
        }
        if sorted_by_time(s) {
            assert(sorted_by_time(p));
            if in_range(x.timestamp, start, end) {
                assert forall|i: int| 0 <= i < w.len() implies w[i].timestamp <= x.timestamp by {
                    assert(w.contains(w[i]));
                    assert(p.contains(w[i]));
                    let j = choose|j: int| 0 <= j < p.len() && p[j] == w[i];
                    assert(s[j] == w[i]);
                    assert(s[j].timestamp <= s[s.len() - 1].timestamp);
                }
                assert(sorted_by_time(w.push(x)));
            }
        }
    }
}

/// A query with a limit keeps the earliest entries within the bounds: what
/// it returns starts the in-range entries, and none it leaves out is earlier.
pub proof fn lemma_limited_query_keeps_earliest(
    s: Seq<TimeEntry>,
    start: Option<i64>,
    end: Option<i64>,
    n: usize,
)
    requires
        sorted_by_time(s),
    ensures
        ({
            let w = within(s, start, end);
            let r = truncated(w, Some(n));
            &&& r.len() == if n < w.len() {
                n as int
            } else {
                w.len() as int
            }
            &&& r == w.take(r.len() as int)
            &&& forall|i: int, j: int|
                0 <= i < r.len() && r.len() <= j < w.len() ==> r[i].timestamp <= w[j].timestamp
        }),
{
    lemma_within_exact(s, start, end);
    let w = within(s, start, end);
    let r = truncated(w, Some(n));
    if n >= w.len() {
        assert(w.take(w.len() as int) =~= w);
    }
}

impl TimeEntry {
    /// A copy of this entry.
    pub fn copy(&self) -> (r: TimeEntry)
        ensures
            r == *self,
    {
        TimeEntry { timestamp: self.timestamp, revision: self.revision.clone() }
    }
}

impl TimeIndex {
    /// The index is ordered by timestamp.
    pub open spec fn wf(&self) -> bool {
        sorted_by_time(self@)
    }

    /// An empty index.
    pub fn new() -> (r: TimeIndex)
        ensures
            r.wf(),
            r@ == Seq::<TimeEntry>::empty(),
    {
        TimeIndex { entries: Vec::new() }
    }

    /// The entries, oldest first.
    pub fn entries(&self) -> (r: &Vec<TimeEntry>)
        ensures
            r@ == self@,
    {
        &self.entries
    }

    /// Adds an entry after every entry no later than it.
    pub fn append(&mut self, e: TimeEntry)
        requires
            old(self).wf(),
        ensures
            final(self).wf(),
            exists|p: int|
                insert_position(old(self)@, p, e) && final(self)@ == old(self)@.insert(p, e),
    {
        let mut p: usize = 0;
        while p < self.entries.len() && self.entries[p].timestamp <= e.timestamp
            invariant
                0 <= p <= self.entries@.len(),
                forall|j: int| 0 <= j < p ==> self.entries@[j].timestamp <= e.timestamp,
            decreases self.entries@.len() - p,
        {
            p = p + 1;
        }
        let ghost before = self.entries@;
        assert(insert_position(before, p as int, e));
        self.entries.insert(p, e);
        let ghost after = self.entries@;
        assert(forall|j: int| 0 <= j < p ==> after[j] == before[j]);
        assert(after[p as int] == e);
        assert(forall|j: int| p < j < after.len() ==> after[j] == before[j - 1]);
        assert(sorted_by_time(after)) by {
            assert forall|i: int, j: int| 0 <= i < j < after.len() implies after[i].timestamp
                <= after[j].timestamp by {
                if j < p {
                } else if j == p {
                } else if i < p {
                    assert(before[i].timestamp <= e.timestamp);
                    assert(before[j - 1].timestamp > e.timestamp);
                } else if i == p {
                } else {
                }
            }
        }
    }

    /// The entries within [start, end] (a missing bound leaves that side
    /// open), oldest first, cut to the first `limit` when one is given.
    pub fn query(&self, start: Option<i64>, end: Option<i64>, limit: Option<usize>) -> (r: Vec<
        TimeEntry,
    >)
        requires
            self.wf(),
        ensures
            r@ == truncated(within(self@, start, end), limit),
    {
        let mut r: Vec<TimeEntry> = Vec::new();
        let mut i: usize = 0;
        while i < self.entries.len()
            invariant
                0 <= i <= self.entries@.len(),
                r@ == truncated(within(self.entries@.take(i as int), start, end), limit),
            decreases self.entries@.len() - i,
        {
            let ghost a = within(self.entries@.take(i as int), start, end);
            let e = &self.entries[i];
            assert(self.entries@.take(i + 1).drop_last() =~= self.entries@.take(i as int));
            let inside = match start {
                Some(s) => s <= e.timestamp,
                None => true,
            } && match end {
                Some(t) => e.timestamp <= t,
                None => true,
            };
            let room = match limit {
                Some(n) => r.len() < n,
                None => true,
            };
            if inside {
                let ghost b = a.push(*e);
                assert(within(self.entries@.take(i + 1), start, end) == b);
                if room {
                    r.push(e.copy());
                    assert(r@ =~= truncated(b, limit));
                } else {
                    let n = limit.unwrap();
                    assert(b.take(n as int) =~= a.take(n as int));
                    assert(r@ =~= truncated(b, limit));
                }
            } else {
                assert(within(self.entries@.take(i + 1), start, end) == a);
            }
            i = i + 1;
        }
        assert(self.entries@.take(self.entries@.len() as int) =~= self.entries@);
        r
    }
}

} // verus!
