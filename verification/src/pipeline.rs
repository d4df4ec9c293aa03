//! The assembled pipeline: filter, order, deduplicate where the dump format
//! needs it, and batch. The wire submission of the prepared batches is the
//! driver's part; see the submission state machine.

use vstd::prelude::*;
use crate::batch::{batches, flatten_batches};
use crate::dedup::{dedup, spec_dedup};
use crate::filter::{filter_records, keep_pred};
use crate::record::Record;
use crate::sort::{sort_by_time, sorted_by_time};

verus! {

/// Prepare a run of loaded records for submission.
///
/// The records are filtered against the time window and minimum duration,
/// put into ascending play-time order, collapsed by the deduplicator when
/// the format calls for one (`dedup_window` set; formats without the
/// duplicate failure mode pass through unchanged, dropping nothing), and
/// grouped into batches of `batch_size`, the last possibly shorter.
///
/// Returns the batches and the dropped duplicates. Concatenating the
/// batches yields the deduplication of an ascending ordering of exactly the
/// filtered records; batches and duplicates together are a permutation of
/// the filtered records.
pub fn prepare_batches(
    records: Vec<Record>,
    before: Option<i64>,
    after: Option<i64>,
    min_play_ms: Option<u32>,
    dedup_window: Option<u64>,
    batch_size: usize,
) -> (r: (Vec<Vec<Record>>, Vec<Record>))
    requires
        batch_size >= 1,
    ensures
        ({
            let filtered = records@.filter(keep_pred(before, after, min_play_ms));
            let submitted = flatten_batches(r.0@);
            &&& sorted_by_time(submitted)
            &&& submitted.to_multiset().add(r.1@.to_multiset()) == filtered.to_multiset()
            &&& dedup_window is None ==> r.1@.len() == 0
            &&& exists|s: Seq<Record>|
                {
                    &&& #[trigger] sorted_by_time(s)
                    &&& s.to_multiset() == filtered.to_multiset()
                    &&& submitted == (match dedup_window {
                        Some(w) => spec_dedup(s, w),
                        None => s,
                    })
                }
            &&& forall|i: int| 0 <= i < r.0@.len() ==> 1 <= #[trigger] r.0@[i]@.len() <= batch_size
            &&& forall|i: int|
                0 <= i < r.0@.len() - 1 ==> #[trigger] r.0@[i]@.len() == batch_size
            &&& r.0@.len() == (submitted.len() + batch_size - 1) / (batch_size as int)
        }),
{
    broadcast use vstd::multiset::group_multiset_axioms;
    broadcast use vstd::seq_lib::group_to_multiset_ensures;

    let ghost filtered_seq = records@.filter(keep_pred(before, after, min_play_ms));
    let mut ordered = filter_records(records, before, after, min_play_ms);
    sort_by_time(&mut ordered);
    let ghost witness = ordered@;
    let (kept, dropped) = match dedup_window {
        Some(window) => dedup(ordered, window),
        None => (ordered, Vec::new()),
    };
    proof {
        assert(kept@.to_multiset().add(dropped@.to_multiset()) =~= filtered_seq.to_multiset());
        if dedup_window is None {
            assert(sorted_by_time(kept@));
        }
    }
    let bs = batches(kept, batch_size);
    proof {
        assert(sorted_by_time(witness));
        assert(witness.to_multiset() == filtered_seq.to_multiset());
        assert(flatten_batches(bs@) == (match dedup_window {
            Some(w) => spec_dedup(witness, w),
            None => witness,
        }));
    }
    (bs, dropped)
}

} // verus!
