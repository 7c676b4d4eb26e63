//! A bubble-sort strategy, verified: the result is sorted and is a
//! rearrangement of the input.

use vstd::prelude::*;
use vstd::seq_lib::group_to_multiset_ensures;

verus! {

/// Non-decreasing from left to right.
pub open spec fn is_sorted(s: Seq<u64>) -> bool {
    forall|i: int, j: int| 0 <= i < j < s.len() ==> s[i] <= s[j]
}

proof fn lemma_swap_preserves_multiset(s: Seq<u64>, i: int, j: int)
    requires
        0 <= i < j < s.len(),
    ensures
        s.update(i, s[j]).update(j, s[i]).to_multiset() == s.to_multiset(),
{
    broadcast use group_to_multiset_ensures;

    let s1 = s.update(i, s[j]);
    assert(s.contains(s[i]));
    assert(s1.contains(s1[j]));
    assert(s1.update(j, s[i]).to_multiset() =~= s.to_multiset());
}

/// Sorts by repeatedly bubbling the largest remaining element to the end.
pub struct BubbleSorter;

impl BubbleSorter {
    /// Reorders `values` into non-decreasing order; no element is added,
    /// dropped or changed.
    pub fn sort(values: &mut Vec<u64>)
        ensures
            is_sorted(final(values)@),
            final(values)@.len() == old(values)@.len(),
            final(values)@.to_multiset() == old(values)@.to_multiset(),
    {
        let n = values.len();
        for pass in 0..n
            invariant
                values@.len() == n,
                values@.to_multiset() == old(values)@.to_multiset(),
                forall|x: int, y: int| n - pass <= x < y < n ==> values@[x] <= values@[y],
                forall|x: int, y: int| 0 <= x < n - pass <= y < n ==> values@[x] <= values@[y],
        {
            let limit = n - 1 - pass;
            for j in 0..limit
                invariant
                    values@.len() == n,
                    limit == n - 1 - pass,
                    pass < n,
                    values@.to_multiset() == old(values)@.to_multiset(),
                    forall|x: int, y: int| n - pass <= x < y < n ==> values@[x] <= values@[y],
                    forall|x: int, y: int| 0 <= x < n - pass <= y < n ==> values@[x] <= values@[y],
                    forall|k: int| 0 <= k < j ==> values@[k] <= values@[j as int],
            {
                if values[j] > values[j + 1] {
                    let ghost before = values@;
                    let larger = values[j];
                    let smaller = values[j + 1];
                    values[j] = smaller;
                    values[j + 1] = larger;
                    proof {
                        assert(values@ =~= before.update(j as int, before[j + 1]).update(
                            j + 1,
                            before[j as int],
                        ));
                        lemma_swap_preserves_multiset(before, j as int, j + 1);
                    }
                }
            }
        }
    }
}

} // verus!
