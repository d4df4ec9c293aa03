//! Grouping of an ordered record stream into fixed-size submission batches.
//!
//! Each batch is filled up to `size` records; the final batch of a run may
//! be shorter. Concatenating all batches reproduces the input exactly, in
//! the same order, and for input length `n` the number of batches is
//! `ceil(n / size)`: it is the unique `k` with `(k - 1) * size < n <= k * size`
//! (and `0` for an empty input).

use vstd::prelude::*;
use crate::record::Record;

verus! {

/// The concatenation of a run of batches.
pub open spec fn flatten_batches(bs: Seq<Vec<Record>>) -> Seq<Record> {
    bs.map_values(|b: Vec<Record>| b@).flatten()
}

/// Split an ordered record stream into batches of `size` records, in order,
/// the last batch possibly shorter. A batch is never empty and never
/// reordered.
pub fn batches(records: Vec<Record>, size: usize) -> (bs: Vec<Vec<Record>>)
    requires
        size >= 1,
    ensures
        flatten_batches(bs@) == records@,
        forall|i: int| 0 <= i < bs@.len() - 1 ==> #[trigger] bs@[i]@.len() == size,
        forall|i: int| 0 <= i < bs@.len() ==> 1 <= #[trigger] bs@[i]@.len() <= size,
        records@.len() == 0 ==> bs@.len() == 0,
        records@.len() > 0 ==> (bs@.len() - 1) * size < records@.len() <= bs@.len() * size,
        bs@.len() == (records@.len() + size - 1) / (size as int),
{
    let ghost input = records@;
    let mut rest = records;
    let mut bs: Vec<Vec<Record>> = Vec::new();
    proof {
        assert(flatten_batches(bs@) =~= Seq::<Record>::empty());
        assert(flatten_batches(bs@) + rest@ =~= input);
    }
    while rest.len() > 0
        invariant
            size >= 1,
            flatten_batches(bs@) + rest@ == input,
            flatten_batches(bs@).len() + rest@.len() == input.len(),
            forall|i: int| 0 <= i < bs@.len() ==> 1 <= #[trigger] bs@[i]@.len() <= size,
            rest@.len() > 0 ==> forall|i: int|
                0 <= i < bs@.len() ==> #[trigger] bs@[i]@.len() == size,
            forall|i: int| 0 <= i < bs@.len() - 1 ==> #[trigger] bs@[i]@.len() == size,
            rest@.len() > 0 ==> flatten_batches(bs@).len() == bs@.len() * size,
            rest@.len() == 0 && bs@.len() > 0 ==> (bs@.len() - 1) * size < input.len() <= bs@.len()
                * size,
        decreases rest@.len(),
    {
        let ghost old_bs = bs@;
        let ghost old_rest = rest@;
        let take = if rest.len() > size {
            size
        } else {
            rest.len()
        };
        let mut batch = rest;
        let tail = batch.split_off(take);
        rest = tail;
        proof {
            assert(batch@ + rest@ =~= old_rest);
        }
        bs.push(batch);
        proof {
            assert(bs@.map_values(|b: Vec<Record>| b@) =~= old_bs.map_values(
                |b: Vec<Record>| b@,
            ).push(batch@));
            old_bs.map_values(|b: Vec<Record>| b@).lemma_flatten_push(batch@);
            assert(flatten_batches(bs@) =~= flatten_batches(old_bs) + batch@);
            assert(flatten_batches(bs@) + rest@ =~= input);
            if rest@.len() > 0 {
                assert(batch@.len() == size);
                assert(flatten_batches(bs@).len() == bs@.len() * size) by {
                    assert(flatten_batches(old_bs).len() == old_bs.len() * size);
                    assert((old_bs.len() + 1) * size == old_bs.len() * size + size) by (
                    nonlinear_arith);
                }
            } else {
                assert(input.len() == flatten_batches(old_bs).len() + batch@.len());
                assert(flatten_batches(old_bs).len() == old_bs.len() * size);
                assert((bs@.len() - 1) * size == old_bs.len() * size);
                assert(input.len() <= bs@.len() * size) by {
                    assert((old_bs.len() + 1) * size == old_bs.len() * size + size) by (
                    nonlinear_arith);
                }
            }
        }
    }
    proof {
        assert(flatten_batches(bs@) =~= input);
        let n = input.len() as int;
        let k = bs@.len() as int;
        if n == 0 {
            vstd::arithmetic::div_mod::lemma_fundamental_div_mod_converse_div(
                n + size - 1,
                size as int,
                0,
                n + size - 1,
            );
        } else {
            assert((k - 1) * size < n <= k * size);
            assert(n + size - 1 == k * size + (n + size - 1 - k * size));
            assert(0 <= n + size - 1 - k * size < size) by (nonlinear_arith)
                requires
                    (k - 1) * size < n <= k * size,
                    size >= 1,
            ;
            vstd::arithmetic::div_mod::lemma_fundamental_div_mod_converse_div(
                n + size - 1,
                size as int,
                k,
                n + size - 1 - k * size,
            );
        }
    }
    bs
}

} // verus!
