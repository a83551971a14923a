//! The points ledger.
//!
//! Score events carry the point value of a destroyed asteroid. The ledger
//! adds them up; since addition is commutative, the total after a tick does
//! not depend on the order in which the tick's events were drained, which
//! `lemma_sum_permutation` states and proves.

use vstd::prelude::*;

verus! {

/// Mathematical sum of a sequence of score events.
pub open spec fn spec_sum(s: Seq<u64>) -> int
    decreases s.len(),
{
    if s.len() == 0 {
        0
    } else {
        spec_sum(s.drop_last()) + s.last()
    }
}

/// Removing one event removes exactly its value from the sum.
pub proof fn lemma_sum_remove(s: Seq<u64>, j: int)
    requires
        0 <= j < s.len(),
    ensures
        spec_sum(s) == spec_sum(s.remove(j)) + s[j],
    decreases s.len(),
{
    if j == s.len() - 1 {
        assert(s.remove(j) =~= s.drop_last());
    } else {
        assert(s.remove(j).drop_last() =~= s.drop_last().remove(j));
        lemma_sum_remove(s.drop_last(), j);
    }
}

/// Two drains of the same tick's score events in different orders add up to
/// the same total: the sum only depends on the multiset of events.
pub proof fn lemma_sum_permutation(s1: Seq<u64>, s2: Seq<u64>)
    requires
        s1.to_multiset() == s2.to_multiset(),
    ensures
        spec_sum(s1) == spec_sum(s2),
    decreases s1.len(),
{
    broadcast use vstd::seq_lib::group_to_multiset_ensures;

    if s1.len() == 0 {
        assert(s2.to_multiset().len() == 0);
    } else {
        let v = s1.last();
        assert(s1[s1.len() - 1] == v);
        assert(s1.contains(v));
        assert(s2.to_multiset().count(v) > 0);
        assert(s2.contains(v));
        let j = choose|j: int| 0 <= j < s2.len() && s2[j] == v;
        assert(s1.remove(s1.len() - 1).to_multiset() =~= s1.to_multiset().remove(v));
        assert(s2.remove(j).to_multiset() =~= s2.to_multiset().remove(v));
        assert(s1.remove(s1.len() - 1) =~= s1.drop_last());
        lemma_sum_permutation(s1.drop_last(), s2.remove(j));
        lemma_sum_remove(s2, j);
    }
}

/// Monotonically non-decreasing score accumulator, reset to zero whenever the
/// in-game state is entered.
#[derive(Clone, Copy, Debug, PartialEq, Eq, Structural)]
pub struct PointsLedger {
    /// The running total.
    pub total: u64,
}

impl PointsLedger {
    /// A fresh ledger holding zero points.
    pub fn new() -> (p: PointsLedger)
        ensures
            p.total == 0,
    {
        PointsLedger { total: 0 }
    }

    /// Forgets the score; used on entering the in-game state.
    pub fn reset(&mut self)
        ensures
            final(self).total == 0,
    {
        self.total = 0;
    }

    /// Adds every score event of the current tick to the total.
    pub fn apply_events(&mut self, events: &Vec<u64>) -> (added: u64)
        requires
            old(self).total + spec_sum(events@) <= u64::MAX,
        ensures
            final(self).total == old(self).total + spec_sum(events@),
            added == spec_sum(events@),
    {
        let start = self.total;
        let mut i: usize = 0;
        let n = events.len();
        while i < n
            invariant
                n == events@.len(),
                0 <= i <= n,
                start <= self.total,
                self.total == start + spec_sum(events@.subrange(0, i as int)),
                start + spec_sum(events@) <= u64::MAX,
            decreases n - i,
        {
            proof {
                lemma_sum_prefix_next(events@, i as int);
                lemma_sum_prefix_bound(events@, i + 1);
            }
            self.total = self.total + events[i];
            i = i + 1;
        }
        proof {
            assert(events@.subrange(0, n as int) =~= events@);
        }
        self.total - start
    }
}

impl PointsLedger {
    /// Adds every score event of the current tick to the total, saturating
    /// at the largest representable total instead of overflowing.
    pub fn apply_events_saturating(&mut self, events: &Vec<u64>)
        ensures
            final(self).total as int == if old(self).total + spec_sum(events@) <= u64::MAX {
                old(self).total + spec_sum(events@)
            } else {
                u64::MAX as int
            },
    {
        let entry = self.total;
        let mut i: usize = 0;
        let n = events.len();
        while i < n
            invariant
                n == events@.len(),
                0 <= i <= n,
                self.total as int == if entry + spec_sum(events@.subrange(0, i as int))
                    <= u64::MAX {
                    entry + spec_sum(events@.subrange(0, i as int))
                } else {
                    u64::MAX as int
                },
            decreases n - i,
        {
            proof {
                lemma_sum_prefix_next(events@, i as int);
            }
            let v = events[i];
            if v <= u64::MAX - self.total {
                self.total = self.total + v;
            } else {
                self.total = u64::MAX;
            }
            i = i + 1;
        }
        proof {
            assert(events@.subrange(0, n as int) =~= events@);
        }
    }
}

/// The sum of one more event extends a prefix sum by exactly that event.
proof fn lemma_sum_prefix_next(s: Seq<u64>, i: int)
    requires
        0 <= i < s.len(),
    ensures
        spec_sum(s.subrange(0, i + 1)) == spec_sum(s.subrange(0, i)) + s[i],
{
    assert(s.subrange(0, i + 1).drop_last() =~= s.subrange(0, i));
}

/// A prefix never sums to more than the whole sequence of events.
proof fn lemma_sum_prefix_bound(s: Seq<u64>, i: int)
    requires
        0 <= i <= s.len(),
    ensures
        spec_sum(s.subrange(0, i)) <= spec_sum(s),
    decreases s.len() - i,
{
    if i == s.len() {
        assert(s.subrange(0, i) =~= s);
    } else {
        lemma_sum_prefix_next(s, i);
        lemma_sum_prefix_bound(s, i + 1);
    }
}

} // verus!
