use vstd::prelude::*;
use vstd::relations::sorted_by;
use vstd::relations::total_ordering;
use vstd::seq_lib::group_to_multiset_ensures;
use vstd::seq_lib::lemma_multiset_commutative;
use vstd::seq_lib::lemma_sorted_unique;

verus! {

/// The ordering by which cycle samples are ranked.
pub open spec fn cycle_order() -> spec_fn(u64, u64) -> bool {
    |x: u64, y: u64| x <= y
}

/// A sequence of samples in ascending order.
pub open spec fn sorted(s: Seq<u64>) -> bool {
    forall|i: int, j: int| 0 <= i < j < s.len() ==> s[i] <= s[j]
}

/// The representative per-chunk cost of a trial: the sample at rank
/// `len / 8` — about the 12.5th percentile — of the ascending sort.  Low
/// enough to approximate unperturbed throughput, yet unlike the strict
/// minimum it cannot reflect a single lucky anomaly; and deliberately not
/// the mean or the median, which noise spikes in a minority of samples
/// would drag upward.
pub open spec fn summarize_spec(s: Seq<u64>) -> u64 {
    s.sort_by(cycle_order())[s.len() as int / 8]
}

/// The sample ordering is total.
pub proof fn lemma_cycle_order_total()
    ensures
        total_ordering(cycle_order()),
{
    let leq = cycle_order();
    assert forall|x: u64| #[trigger] leq(x, x) by {}
}

/// Inserting an element anywhere in a sequence inserts it into the
/// sequence's multiset.
proof fn lemma_insert_to_multiset(s: Seq<u64>, i: int, x: u64)
    requires
        0 <= i <= s.len(),
    ensures
        s.insert(i, x).to_multiset() == s.to_multiset().insert(x),
{
    broadcast use group_to_multiset_ensures;

    let a = s.subrange(0, i);
    let b = s.subrange(i, s.len() as int);
    assert(s =~= a + b);
    assert(s.insert(i, x) =~= a.push(x) + b);
    lemma_multiset_commutative(a, b);
    lemma_multiset_commutative(a.push(x), b);
    assert(s.insert(i, x).to_multiset() =~= s.to_multiset().insert(x));
}

/// Insert `x` into a sorted vector at its rank, keeping the vector sorted.
fn insert_sorted(r: &mut Vec<u64>, x: u64)
    requires
        sorted(old(r)@),
    ensures
        sorted(final(r)@),
        final(r)@.to_multiset() == old(r)@.to_multiset().insert(x),
        final(r)@.len() == old(r)@.len() + 1,
{
    let n: usize = r.len();
    let mut pos: usize = 0;
    while pos < n && r[pos] <= x
        invariant
            pos <= n,
            n == r@.len(),
            r == old(r),
            forall|i: int| 0 <= i < pos ==> r@[i] <= x,
        decreases n - pos,
    {
        pos += 1;
    }
    proof {
        if pos < r@.len() {
            assert(forall|j: int| pos <= j < r@.len() ==> r@[pos as int] <= r@[j]);
        }
        lemma_insert_to_multiset(r@, pos as int, x);
    }
    r.insert(pos, x);
}

/// Sort the samples ascending: same values, ascending order.
fn sort_ascending(v: &Vec<u64>) -> (r: Vec<u64>)
    ensures
        sorted(r@),
        r@.to_multiset() == v@.to_multiset(),
        r@.len() == v@.len(),
{
    broadcast use group_to_multiset_ensures;

    let mut r: Vec<u64> = Vec::new();
    let n: usize = v.len();
    let mut i: usize = 0;
    assert(v@.subrange(0, 0) =~= Seq::<u64>::empty());
    while i < n
        invariant
            i <= n,
            n == v@.len(),
            sorted(r@),
            r@.len() == i,
            r@.to_multiset() == v@.subrange(0, i as int).to_multiset(),
        decreases n - i,
    {
        insert_sorted(&mut r, v[i]);
        proof {
            broadcast use group_to_multiset_ensures;

            assert(v@.subrange(0, i + 1) =~= v@.subrange(0, i as int).push(v@[i as int]));
        }
        i += 1;
    }
    proof {
        assert(v@.subrange(0, n as int) =~= v@);
    }
    r
}

/// Sort the trial's samples ascending and select the representative at
/// rank `len / 8`.
pub fn summarize(samples: &Vec<u64>) -> (r: u64)
    requires
        samples@.len() > 0,
    ensures
        r == summarize_spec(samples@),
{
    let sorted_samples = sort_ascending(samples);
    let idx: usize = samples.len() / 8;
    let r = sorted_samples[idx];
    proof {
        let leq = cycle_order();
        lemma_cycle_order_total();
        samples@.lemma_sort_by_ensures(leq);
        assert(sorted_by(sorted_samples@, leq));
        lemma_sorted_unique(sorted_samples@, samples@.sort_by(leq), leq);
    }
    r
}

/// The aggregator is deterministic in the input order: sample sequences
/// holding the same values, in any order, summarize to the same
/// representative — sort-then-index depends only on the multiset of
/// samples.
pub proof fn lemma_summarize_order_independent(s1: Seq<u64>, s2: Seq<u64>)
    requires
        s1.to_multiset() == s2.to_multiset(),
    ensures
        summarize_spec(s1) == summarize_spec(s2),
{
    broadcast use group_to_multiset_ensures;

    let leq = cycle_order();
    lemma_cycle_order_total();
    s1.lemma_sort_by_ensures(leq);
    s2.lemma_sort_by_ensures(leq);
    assert(s1.sort_by(leq).to_multiset() == s2.sort_by(leq).to_multiset());
    lemma_sorted_unique(s1.sort_by(leq), s2.sort_by(leq), leq);
    assert(s1.len() == s1.to_multiset().len());
    assert(s1.sort_by(leq) == s2.sort_by(leq));
}

} // verus!
