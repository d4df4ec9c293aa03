//! The temporal/duration filter: a pure predicate over one record given an
//! optional time window and an optional minimum play duration.

use vstd::prelude::*;
use crate::record::Record;

verus! {

/// A record passes the filter iff it lies strictly inside the time window
/// and, when both are known, played at least the minimum duration:
/// `after < listened_at < before`, and `ms_played >= min_play_ms` whenever
/// `ms_played` is present. A record with no recorded duration satisfies any
/// minimum-duration bound.
pub open spec fn spec_keep(
    r: Record,
    before: Option<i64>,
    after: Option<i64>,
    min_play_ms: Option<u32>,
) -> bool {
    &&& match before {
        Some(b) => r.listened_at < b,
        None => true,
    }
    &&& match after {
        Some(a) => a < r.listened_at,
        None => true,
    }
    &&& match (r.ms_played, min_play_ms) {
        (Some(ms), Some(min)) => ms >= min,
        _ => true,
    }
}

/// The filter as a predicate over one record, for a fixed window and
/// minimum duration.
pub open spec fn keep_pred(
    before: Option<i64>,
    after: Option<i64>,
    min_play_ms: Option<u32>,
) -> spec_fn(Record) -> bool {
    |rec: Record| spec_keep(rec, before, after, min_play_ms)
}

/// The streaming filter applied before deduplication and batching: rejected
/// records never reach the later stages.
pub fn keep(r: &Record, before: Option<i64>, after: Option<i64>, min_play_ms: Option<u32>) -> (k:
    bool)
    ensures
        k == spec_keep(*r, before, after, min_play_ms),
{
    let before_ok = match before {
        Some(b) => r.listened_at < b,
        None => true,
    };
    let after_ok = match after {
        Some(a) => a < r.listened_at,
        None => true,
    };
    let duration_ok = match (r.ms_played, min_play_ms) {
        (Some(ms), Some(min)) => ms >= min,
        _ => true,
    };
    before_ok && after_ok && duration_ok
}

fn reversed(records: Vec<Record>) -> (r: Vec<Record>)
    ensures
        r@ == records@.reverse(),
{
    let ghost input = records@;
    let mut rest = records;
    let mut r: Vec<Record> = Vec::new();
    while rest.len() > 0
        invariant
            rest@.len() <= input.len(),
            rest@ == input.subrange(0, rest@.len() as int),
            r@ =~= input.reverse().subrange(0, input.len() - rest@.len()),
        decreases rest@.len(),
    {
        let ghost m = rest@.len() as int;
        let x = rest.pop().unwrap();
        proof {
            assert(rest@ =~= input.subrange(0, m - 1));
            assert(x == input[m - 1]);
            assert(x == input.reverse()[input.len() - m]);
        }
        r.push(x);
        proof {
            assert(r@ =~= input.reverse().subrange(0, input.len() - (m - 1)));
        }
    }
    proof {
        assert(r@ =~= input.reverse());
    }
    r
}

/// Apply the filter to a run of records: exactly the records `keep` accepts
/// survive, in their original order, so rejected records never reach the
/// later stages.
pub fn filter_records(
    records: Vec<Record>,
    before: Option<i64>,
    after: Option<i64>,
    min_play_ms: Option<u32>,
) -> (r: Vec<Record>)
    ensures
        r@ == records@.filter(keep_pred(before, after, min_play_ms)),
{
    let ghost input = records@;
    let ghost pred = keep_pred(before, after, min_play_ms);
    let mut rev = reversed(records);
    let mut r: Vec<Record> = Vec::new();
    proof {
        reveal(Seq::filter);
        assert(input.subrange(0, 0) =~= Seq::<Record>::empty());
        assert(input.subrange(0, 0).filter(pred) =~= Seq::<Record>::empty());
    }
    while rev.len() > 0
        invariant
            rev@.len() <= input.len(),
            rev@ == input.reverse().subrange(0, rev@.len() as int),
            r@ == input.subrange(0, input.len() - rev@.len()).filter(pred),
            pred == keep_pred(before, after, min_play_ms),
        decreases rev@.len(),
    {
        let ghost m = rev@.len() as int;
        let ghost i = input.len() - m;
        let x = rev.pop().unwrap();
        proof {
            assert(rev@ =~= input.reverse().subrange(0, m - 1));
            assert(x == input.reverse()[m - 1]);
            assert(x == input[i]);
            assert(input.subrange(0, i + 1).drop_last() =~= input.subrange(0, i));
            assert(input.subrange(0, i + 1).last() == x);
        }
        let keep_x = keep(&x, before, after, min_play_ms);
        proof {
            assert(pred(x) == spec_keep(x, before, after, min_play_ms));
        }
        if keep_x {
            r.push(x);
        }
        proof {
            let s = input.subrange(0, i + 1);
            reveal(Seq::filter);
            assert(s.len() > 0);
            assert(s.drop_last() == input.subrange(0, i));
            assert(s.last() == x);
            if pred(x) {
                assert(s.filter(pred) == s.drop_last().filter(pred).push(x));
            } else {
                assert(s.filter(pred) == s.drop_last().filter(pred));
            }
            assert(r@ == s.filter(pred));
        }
    }
    proof {
        assert(input.subrange(0, input.len() as int) =~= input);
    }
    r
}

} // verus!
