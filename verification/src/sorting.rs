//! An ascending in-place sort for vectors of integer magnitudes, shared by
//! the noise-floor estimator and the temporal smoother, both of which report
//! a median.

use vstd::prelude::*;
use vstd::relations::sorted_by;
use vstd::relations::total_ordering;
use vstd::seq_lib::lemma_sorted_unique;

verus! {

/// The ascending ordering that every sort and median in this crate uses.
pub open spec fn leq_fn() -> spec_fn(u64, u64) -> bool {
    |x: u64, y: u64| x <= y
}

/// The ascending rearrangement of a sequence of magnitudes.
pub open spec fn sorted_of(s: Seq<u64>) -> Seq<u64> {
    s.sort_by(leq_fn())
}

/// The median that the pipeline uses: the middle element of the ascending
/// rearrangement (the upper of the two middle elements for even lengths).
pub open spec fn median_of(s: Seq<u64>) -> u64 {
    sorted_of(s)[s.len() as int / 2]
}

proof fn lemma_leq_total()
    ensures
        total_ordering(leq_fn()),
{
}

/// Sorts the vector ascending by insertion, leaving exactly the ascending
/// rearrangement of the input.
pub fn sort_ascending(v: &mut Vec<u64>)
    ensures
        final(v)@ == sorted_of(old(v)@),
        final(v)@.len() == old(v)@.len(),
        final(v)@.to_multiset() == old(v)@.to_multiset(),
{
    broadcast use vstd::seq_lib::group_to_multiset_ensures;
    broadcast use vstd::multiset::group_multiset_axioms;

    proof {
        lemma_leq_total();
        old(v)@.lemma_sort_by_ensures(leq_fn());
    }
    if v.len() < 2 {
        proof {
            lemma_sorted_unique(v@, sorted_of(v@), leq_fn());
        }
        return ;
    }
    let ghost orig: Seq<u64> = v@;
    let mut i: usize = 1;
    while i < v.len()
        invariant
            1 <= i <= v@.len(),
            v@.len() == orig.len(),
            v@.to_multiset() == orig.to_multiset(),
            sorted_by(v@.subrange(0, i as int), leq_fn()),
        decreases v@.len() - i,
    {
        let ghost before: Seq<u64> = v@;
        let x: u64 = v.remove(i);
        let mut j: usize = 0;
        while j < i && v[j] <= x
            invariant
                j <= i,
                i < before.len(),
                v@ == before.remove(i as int),
                x == before[i as int],
                forall|k: int| 0 <= k < j ==> v@[k] <= x,
            decreases i - j,
        {
            j = j + 1;
        }
        let ghost removed: Seq<u64> = v@;
        v.insert(j, x);
        proof {
            broadcast use vstd::seq_lib::group_to_multiset_ensures;
            broadcast use vstd::multiset::group_multiset_axioms;

            assert(v@.to_multiset() == orig.to_multiset()) by {
                assert(before.remove(i as int).to_multiset() == before.to_multiset().remove(
                    before[i as int],
                ));
                assert(removed.insert(j as int, x).to_multiset() == removed.to_multiset().insert(
                    x,
                ));
                assert(before.to_multiset().contains(before[i as int])) by {
                    assert(before.contains(before[i as int]));
                }
                assert(before.to_multiset().remove(x).insert(x) =~= before.to_multiset());
            }
            let pre = before.subrange(0, i as int);
            let post = v@.subrange(0, i as int + 1);
            assert(forall|k: int| 0 <= k < i ==> pre[k] == #[trigger] removed[k]);
            assert forall|a: int, b: int| 0 <= a < b < post.len() implies (leq_fn())(
                post[a],
                post[b],
            ) by {
                if b < j {
                    assert(post[a] == pre[a] && post[b] == pre[b]);
                } else if b == j {
                    assert(post[b] == x);
                    assert(post[a] == removed[a] && removed[a] <= x);
                } else if a == j {
                    assert(post[a] == x);
                    assert(post[b] == removed[b - 1] && removed[b - 1] == pre[b - 1]);
                    assert(j < i && !(removed[j as int] <= x));
                    assert((leq_fn())(pre[j as int], pre[b - 1]));
                } else if a < j {
                    assert(post[a] == pre[a] && post[b] == pre[b - 1]);
                    assert((leq_fn())(pre[a], pre[b - 1]));
                } else {
                    assert(post[a] == pre[a - 1] && post[b] == pre[b - 1]);
                    assert((leq_fn())(pre[a - 1], pre[b - 1]));
                }
            }
        }
        i = i + 1;
    }
    proof {
        assert(v@.subrange(0, v@.len() as int) =~= v@);
        lemma_sorted_unique(v@, sorted_of(orig), leq_fn());
    }
}

} // verus!
