//! The result aggregator: a mapping from destination port to an observation
//! count, written one increment at a time by the capture side and read once,
//! as a snapshot, by the report step.
//!
//! The table is a vector of (port, count) entries with pairwise-distinct
//! ports; a port with no entry counts as zero. Counts saturate at the
//! largest representable value instead of overflowing, so they are
//! monotonically non-decreasing over the capture window.

use vstd::prelude::*;

verus! {

/// The count that a sequence of entries assigns to a port: the count of the
/// first entry for that port, or zero where none exists.
pub open spec fn seq_count(s: Seq<(u16, u64)>, port: u16) -> u64
    decreases s.len(),
{
    if s.len() == 0 {
        0
    } else if s[0].0 == port {
        s[0].1
    } else {
        seq_count(s.drop_first(), port)
    }
}

/// A count after one more observation: one higher, saturating at the top.
pub open spec fn sat_inc(c: u64) -> u64 {
    if c < u64::MAX {
        (c + 1) as u64
    } else {
        c
    }
}

/// A sequence whose first `i` entries name no port equal to `port` assigns
/// that port whatever the rest assigns it.
proof fn lemma_count_skip_miss(s: Seq<(u16, u64)>, port: u16, i: int)
    requires
        0 <= i <= s.len(),
        forall|k: int| 0 <= k < i ==> (#[trigger] s[k]).0 != port,
    ensures
        seq_count(s, port) == seq_count(s.skip(i), port),
    decreases i,
{
    if i > 0 {
        lemma_count_skip_miss(s.drop_first(), port, i - 1);
        assert(s.drop_first().skip(i - 1) =~= s.skip(i));
    } else {
        assert(s.skip(0) =~= s);
    }
}

/// Updating an entry whose port differs from `q`, with a new entry whose
/// port also differs from `q`, leaves the count of `q` unchanged.
proof fn lemma_count_update_other(s: Seq<(u16, u64)>, i: int, x: (u16, u64), q: u16)
    requires
        0 <= i < s.len(),
        x.0 != q,
        s[i].0 != q,
    ensures
        seq_count(s.update(i, x), q) == seq_count(s, q),
    decreases i,
{
    if i == 0 {
        assert(s.update(0, x).drop_first() =~= s.drop_first());
    } else {
        lemma_count_update_other(s.drop_first(), i - 1, x, q);
        assert(s.update(i, x).drop_first() =~= s.drop_first().update(i - 1, x));
    }
}

/// Appending an entry for another port leaves the count of `q` unchanged.
proof fn lemma_count_push_other(s: Seq<(u16, u64)>, x: (u16, u64), q: u16)
    requires
        x.0 != q,
    ensures
        seq_count(s.push(x), q) == seq_count(s, q),
    decreases s.len(),
{
    if s.len() == 0 {
        assert(s.push(x)[0] == x);
        assert(s.push(x).drop_first() =~= Seq::<(u16, u64)>::empty());
        assert(seq_count(Seq::<(u16, u64)>::empty(), q) == 0);
    } else {
        lemma_count_push_other(s.drop_first(), x, q);
        assert(s.push(x)[0] == s[0]);
        assert(s.push(x).drop_first() =~= s.drop_first().push(x));
    }
}

/// Appending an entry for a port that the sequence does not name gives that
/// port the appended count.
proof fn lemma_count_push_fresh(s: Seq<(u16, u64)>, x: (u16, u64))
    requires
        forall|k: int| 0 <= k < s.len() ==> (#[trigger] s[k]).0 != x.0,
    ensures
        seq_count(s.push(x), x.0) == x.1,
    decreases s.len(),
{
    if s.len() == 0 {
        assert(s.push(x)[0] == x);
    } else {
        lemma_count_push_fresh(s.drop_first(), x);
        assert(s.push(x)[0] == s[0]);
        assert(s[0].0 != x.0);
        assert(s.push(x).drop_first() =~= s.drop_first().push(x));
    }
}

/// A nonzero count names an entry: some entry carries that port and count.
pub proof fn lemma_nonzero_count_has_entry(s: Seq<(u16, u64)>, port: u16)
    requires
        seq_count(s, port) != 0,
    ensures
        exists|i: int| 0 <= i < s.len() && s[i] == ((port, seq_count(s, port))),
    decreases s.len(),
{
    if s[0].0 == port {
        assert(s[0] == ((port, seq_count(s, port))));
    } else {
        lemma_nonzero_count_has_entry(s.drop_first(), port);
        let i = choose|i: int|
            0 <= i < s.drop_first().len() && s.drop_first()[i] == ((
            port,
            seq_count(s.drop_first(), port),
            ));
        assert(s[i + 1] == ((port, seq_count(s, port))));
    }
}

/// Where every entry records at least one observation, a port with an entry
/// has a nonzero count.
pub proof fn lemma_entry_gives_nonzero_count(s: Seq<(u16, u64)>, i: int)
    requires
        0 <= i < s.len(),
        forall|k: int| 0 <= k < s.len() ==> (#[trigger] s[k]).1 >= 1,
    ensures
        seq_count(s, s[i].0) >= 1,
    decreases s.len(),
{
    if s[0].0 == s[i].0 {
        assert(seq_count(s, s[i].0) == s[0].1);
    } else {
        assert(i != 0);
        assert(s.drop_first()[i - 1] == s[i]);
        lemma_entry_gives_nonzero_count(s.drop_first(), i - 1);
    }
}

/// The shared mapping from destination port to observation count.
pub struct ResultTable {
    pub entries: Vec<(u16, u64)>,
}

impl ResultTable {
    /// The entries name pairwise-distinct ports.
    pub open spec fn wf(self) -> bool {
        forall|i: int, j: int|
            0 <= i < j < self.entries@.len() ==> (#[trigger] self.entries@[i]).0 != (
            #[trigger] self.entries@[j]).0
    }

    /// The count recorded for a port; zero where no entry exists.
    pub open spec fn spec_count(self, port: u16) -> u64 {
        seq_count(self.entries@, port)
    }

    /// Every entry records at least one observation; a table built only by
    /// `new` and `increment` keeps this, so its entries are exactly the
    /// ports that were observed.
    pub open spec fn all_positive(self) -> bool {
        forall|k: int| 0 <= k < self.entries@.len() ==> (#[trigger] self.entries@[k]).1 >= 1
    }

    /// Creates the table, empty, at orchestration start.
    pub fn new() -> (r: ResultTable)
        ensures
            r.wf(),
            r.all_positive(),
            r.entries@.len() == 0,
            forall|q: u16| r.spec_count(q) == 0,
    {
        ResultTable { entries: Vec::new() }
    }

    /// How many ports have an entry.
    pub fn len(&self) -> (n: usize)
        ensures
            n == self.entries@.len(),
    {
        self.entries.len()
    }

    /// Records one more observation for a port: its count grows by one
    /// (saturating at the top); every other port's count is untouched.
    pub fn increment(&mut self, port: u16)
        requires
            old(self).wf(),
        ensures
            final(self).wf(),
            old(self).all_positive() ==> final(self).all_positive(),
            final(self).spec_count(port) == sat_inc(old(self).spec_count(port)),
            forall|q: u16| q != port ==> final(self).spec_count(q) == old(self).spec_count(q),
            final(self).entries@.len() <= old(self).entries@.len() + 1,
    {
        let ghost s0 = self.entries@;
        let mut i: usize = 0;
        while i < self.entries.len()
            invariant
                s0 == old(self).entries@,
                old(self).wf(),
                self.entries@ == s0,
                i <= s0.len(),
                forall|k: int| 0 <= k < i ==> (#[trigger] s0[k]).0 != port,
            decreases s0.len() - i,
        {
            if self.entries[i].0 == port {
                let c = self.entries[i].1;
                let c2 = if c < u64::MAX {
                    c + 1
                } else {
                    c
                };
                self.entries.set(i, (port, c2));
                proof {
                    let s1 = self.entries@;
                    assert(s1 == s0.update(i as int, (port, c2)));
                    assert(s1.len() == s0.len());
                    assert(forall|k: int|
                        0 <= k < s0.len() && k != i ==> (#[trigger] s1[k]) == s0[k]);
                    assert(s1[i as int] == (port, c2));
                    assert(s0[i as int].0 == port);
                    assert(forall|k: int| 0 <= k < s1.len() ==> (#[trigger] s1[k]).0 == s0[k].0);
                    lemma_count_skip_miss(s0, port, i as int);
                    assert(s0.skip(i as int)[0] == s0[i as int]);
                    assert(seq_count(s0, port) == c);
                    lemma_count_skip_miss(s1, port, i as int);
                    assert(s1.skip(i as int)[0] == (port, c2));
                    assert(seq_count(s1, port) == c2);
                    assert forall|q: u16| q != port implies seq_count(s1, q) == seq_count(
                        s0,
                        q,
                    ) by {
                        lemma_count_update_other(s0, i as int, (port, c2), q);
                    }
                }
                return ;
            }
            i += 1;
        }
        self.entries.push((port, 1));
        proof {
            lemma_count_skip_miss(s0, port, s0.len() as int);
            assert(s0.skip(s0.len() as int) =~= Seq::<(u16, u64)>::empty());
            assert(seq_count(s0, port) == 0);
            lemma_count_push_fresh(s0, (port, 1));
            assert forall|q: u16| q != port implies seq_count(self.entries@, q) == seq_count(
                s0,
                q,
            ) by {
                lemma_count_push_other(s0, (port, 1), q);
            }
        }
    }

    /// A copy of the table's entries, taken once after the capture and probe
    /// activities have both finished.
    pub fn snapshot(&self) -> (r: Vec<(u16, u64)>)
        ensures
            r@ == self.entries@,
    {
        let mut r: Vec<(u16, u64)> = Vec::new();
        let mut i: usize = 0;
        while i < self.entries.len()
            invariant
                i <= self.entries@.len(),
                r@ == self.entries@.take(i as int),
            decreases self.entries@.len() - i,
        {
            r.push(self.entries[i]);
            proof {
                assert(self.entries@.take(i + 1 as int) =~= self.entries@.take(i as int).push(
                    self.entries@[i as int],
                ));
            }
            i += 1;
        }
        proof {
            assert(self.entries@.take(self.entries@.len() as int) =~= self.entries@);
        }
        r
    }
}

} // verus!
