//! Ordering of records by play time. The deduplicator and the batcher expect
//! their input ascending by `listened_at`, so the pipeline sorts first when
//! the source order is not already time-ascending.

use vstd::prelude::*;
use vstd::seq_lib::{to_multiset_insert, to_multiset_remove};
use crate::record::Record;

verus! {

/// The records are in ascending play-time order.
pub open spec fn sorted_by_time(s: Seq<Record>) -> bool {
    forall|i: int, j: int| 0 <= i < j < s.len() ==> s[i].listened_at <= s[j].listened_at
}

/// Insertion sort by `listened_at`: afterwards the records are ascending by
/// play time and are a permutation of the input.
pub fn sort_by_time(v: &mut Vec<Record>)
    ensures
        sorted_by_time(final(v)@),
        final(v)@.to_multiset() == old(v)@.to_multiset(),
{
    let n = v.len();
    if n <= 1 {
        return ;
    }
    let mut i: usize = 1;
    while i < n
        invariant
            n == v@.len(),
            1 <= i <= n,
            sorted_by_time(v@.subrange(0, i as int)),
            v@.to_multiset() == old(v)@.to_multiset(),
        decreases n - i,
    {
        let t = v[i].listened_at;
        let mut p: usize = i;
        while p > 0 && v[p - 1].listened_at > t
            invariant
                n == v@.len(),
                p <= i < n,
                t == v@[i as int].listened_at,
                forall|k: int| p <= k < i ==> v@[k].listened_at > t,
            decreases p,
        {
            p = p - 1;
        }
        let ghost pre = v@;
        let x = v.remove(i);
        v.insert(p, x);
        proof {
            to_multiset_remove(pre, i as int);
            to_multiset_insert(pre.remove(i as int), p as int, x);
            assert(pre.contains(pre[i as int]));
            assert(pre.to_multiset().contains(pre[i as int])) by {
                broadcast use vstd::seq_lib::group_to_multiset_ensures;

            }
            assert(pre.to_multiset().remove(pre[i as int]).insert(x) =~= pre.to_multiset());
            assert(sorted_by_time(v@.subrange(0, i + 1))) by {
                let s = v@.subrange(0, i + 1);
                assert forall|a: int, b: int| 0 <= a < b < s.len() implies s[a].listened_at
                    <= s[b].listened_at by {
                    assert(forall|k: int| 0 <= k < p ==> s[k] == pre[k]);
                    assert(s[p as int] == x);
                    assert(forall|k: int| p < k <= i ==> s[k] == pre[k - 1]);
                }
            }
        }
        i = i + 1;
    }
    proof {
        assert(v@.subrange(0, n as int) =~= v@);
    }
}

} // verus!
