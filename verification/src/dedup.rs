//! Collapsing of adjacent near-duplicate plays.
//!
//! The spotify dump format can log several rows for one real listening
//! session when playback is interrupted and resumed on the same track within
//! a short window; collapsing them prevents inflating play counts on import.
//! Records are scanned from latest to earliest; each candidate is compared
//! against the most recently kept record, and is dropped when it names the
//! same track and either its end reason marks an interruption or the time
//! gap lies within the dedup window.

use vstd::prelude::*;
use crate::record::{opt_string_eq, same_identifier, Record};
use crate::sort::sorted_by_time;

verus! {

/// The absolute time gap between two plays, in seconds.
pub open spec fn time_gap(a: i64, b: i64) -> int {
    if a >= b {
        a - b
    } else {
        b - a
    }
}

/// The candidate `c` is an artifact of the same real listen as the already
/// kept, later record `k`.
pub open spec fn duplicate_of(c: Record, k: Record, window: u64) -> bool {
    &&& same_identifier(c.track_identifier, k.track_identifier)
    &&& {
        ||| match c.end_reason {
            Some(e) => e.spec_is_interruption(),
            None => false,
        }
        ||| time_gap(k.listened_at, c.listened_at) <= window
    }
}

/// The records kept by the deduplicator, for input ascending by play time.
/// The latest record is always kept; an earlier record is kept iff it is no
/// duplicate of the earliest record kept after it.
pub open spec fn spec_dedup(s: Seq<Record>, window: u64) -> Seq<Record>
    decreases s.len(),
{
    if s.len() <= 1 {
        s
    } else {
        let rest = spec_dedup(s.drop_first(), window);
        if duplicate_of(s[0], rest[0], window) {
            rest
        } else {
            seq![s[0]] + rest
        }
    }
}

/// The deduplicator keeps at least the latest record of a nonempty input.
pub proof fn lemma_dedup_nonempty(s: Seq<Record>, window: u64)
    requires
        s.len() >= 1,
    ensures
        spec_dedup(s, window).len() >= 1,
    decreases s.len(),
{
    if s.len() > 1 {
        lemma_dedup_nonempty(s.drop_first(), window);
    }
}

/// Every record the deduplicator keeps is a record of its input.
pub proof fn lemma_dedup_contains(s: Seq<Record>, window: u64, i: int)
    requires
        0 <= i < spec_dedup(s, window).len(),
    ensures
        s.contains(spec_dedup(s, window)[i]),
    decreases s.len(),
{
    if s.len() <= 1 {
    } else {
        let rest = spec_dedup(s.drop_first(), window);
        if duplicate_of(s[0], rest[0], window) {
            lemma_dedup_contains(s.drop_first(), window, i);
            let j = choose|j: int| 0 <= j < s.drop_first().len() && s.drop_first()[j] == rest[i];
            assert(s[j + 1] == rest[i]);
        } else {
            if i > 0 {
                lemma_dedup_contains(s.drop_first(), window, i - 1);
                let j = choose|j: int|
                    0 <= j < s.drop_first().len() && s.drop_first()[j] == rest[i - 1];
                assert(s[j + 1] == rest[i - 1]);
            }
        }
    }
}

/// Deduplication keeps the ascending play-time order of its input.
pub proof fn lemma_dedup_sorted(s: Seq<Record>, window: u64)
    requires
        sorted_by_time(s),
    ensures
        sorted_by_time(spec_dedup(s, window)),
    decreases s.len(),
{
    if s.len() <= 1 {
    } else {
        let rest = spec_dedup(s.drop_first(), window);
        assert(sorted_by_time(s.drop_first()));
        lemma_dedup_sorted(s.drop_first(), window);
        if !duplicate_of(s[0], rest[0], window) {
            let d = seq![s[0]] + rest;
            assert forall|a: int, b: int| 0 <= a < b < d.len() implies d[a].listened_at
                <= d[b].listened_at by {
                if a == 0 {
                    lemma_dedup_contains(s.drop_first(), window, b - 1);
                    let j = choose|j: int|
                        0 <= j < s.drop_first().len() && s.drop_first()[j] == rest[b - 1];
                    assert(s[j + 1] == rest[b - 1]);
                }
            }
        }
    }
}

/// Applying the deduplicator to its own output yields the same output: no
/// further collapsing is possible.
pub proof fn lemma_dedup_idempotent(s: Seq<Record>, window: u64)
    ensures
        spec_dedup(spec_dedup(s, window), window) == spec_dedup(s, window),
    decreases s.len(),
{
    if s.len() <= 1 {
    } else {
        let rest = spec_dedup(s.drop_first(), window);
        lemma_dedup_idempotent(s.drop_first(), window);
        lemma_dedup_nonempty(s.drop_first(), window);
        if !duplicate_of(s[0], rest[0], window) {
            let d = seq![s[0]] + rest;
            assert(d.drop_first() =~= rest);
            assert(d[0] == s[0]);
            assert(seq![d[0]] + rest =~= d);
        }
    }
}

fn is_duplicate(c: &Record, k: &Record, window: u64) -> (r: bool)
    ensures
        r == duplicate_of(*c, *k, window),
{
    if !opt_string_eq(&c.track_identifier, &k.track_identifier) {
        return false;
    }
    let interrupted = match &c.end_reason {
        Some(e) => e.is_interruption(),
        None => false,
    };
    if interrupted {
        return true;
    }
    let gap: i128 = k.listened_at as i128 - c.listened_at as i128;
    let gap_abs: i128 = if gap >= 0 {
        gap
    } else {
        -gap
    };
    gap_abs <= window as i128
}

/// Collapse near-duplicate plays in a run of records ascending by play time.
/// Returns the kept records, still ascending, and the dropped duplicates
/// (for diagnostics, each naming the dropped track and artist); together
/// they are a permutation of the input.
pub fn dedup(records: Vec<Record>, window: u64) -> (r: (Vec<Record>, Vec<Record>))
    requires
        sorted_by_time(records@),
    ensures
        r.0@ == spec_dedup(records@, window),
        sorted_by_time(r.0@),
        r.0@.to_multiset().add(r.1@.to_multiset()) == records@.to_multiset(),
{
    broadcast use vstd::seq_lib::group_to_multiset_ensures;
    broadcast use vstd::multiset::group_multiset_axioms;

    let ghost input = records@;
    let mut remaining = records;
    let mut kept_rev: Vec<Record> = Vec::new();
    let mut dropped: Vec<Record> = Vec::new();
    proof {
        broadcast use vstd::multiset::lemma_multiset_empty_len;

        assert(input.subrange(0, input.len() as int) =~= input);
        let empty_tail = input.subrange(input.len() as int, input.len() as int);
        assert(kept_rev@.reverse() =~= spec_dedup(empty_tail, window));
        assert(kept_rev@.to_multiset().add(dropped@.to_multiset()) =~= empty_tail.to_multiset());
    }
    while remaining.len() > 0
        invariant
            remaining@.len() <= input.len(),
            remaining@ == input.subrange(0, remaining@.len() as int),
            kept_rev@.reverse() == spec_dedup(
                input.subrange(remaining@.len() as int, input.len() as int),
                window,
            ),
            kept_rev@.to_multiset().add(dropped@.to_multiset()) == input.subrange(
                remaining@.len() as int,
                input.len() as int,
            ).to_multiset(),
        decreases remaining@.len(),
    {
        let ghost m = remaining@.len() as int;
        let ghost tail = input.subrange(m, input.len() as int);
        let ghost suffix = input.subrange(m - 1, input.len() as int);
        proof {
            assert(suffix.drop_first() =~= tail);
            assert(remaining@.last() == suffix[0]);
        }
        let c = remaining.pop().unwrap();
        proof {
            assert(remaining@ =~= input.subrange(0, m - 1));
        }
        let ghost old_kept = kept_rev@;
        let ghost old_dropped = dropped@;
        if kept_rev.len() == 0 {
            kept_rev.push(c);
            proof {
                assert(tail.len() == 0) by {
                    if tail.len() >= 1 {
                        lemma_dedup_nonempty(tail, window);
                        assert(old_kept.reverse().len() >= 1);
                    }
                }
                assert(suffix.len() == 1);
                assert(spec_dedup(suffix, window) == suffix);
                assert(kept_rev@.reverse() =~= suffix);
            }
        } else {
            let ghost rest = spec_dedup(tail, window);
            proof {
                assert(old_kept.reverse().len() > 0);
                assert(old_kept[old_kept.len() - 1] == old_kept.reverse()[0]);
                assert(old_kept.reverse()[0] == rest[0]);
            }
            let last = kept_rev.len() - 1;
            if is_duplicate(&c, &kept_rev[last], window) {
                dropped.push(c);
                proof {
                    assert(tail.len() >= 1) by {
                        if tail.len() == 0 {
                            assert(old_kept.reverse().len() == 0);
                        }
                    }
                    assert(spec_dedup(suffix, window) == rest);
                }
            } else {
                kept_rev.push(c);
                proof {
                    assert(tail.len() >= 1) by {
                        if tail.len() == 0 {
                            assert(old_kept.reverse().len() == 0);
                        }
                    }
                    assert(spec_dedup(suffix, window) == seq![suffix[0]] + rest);
                    assert(kept_rev@.reverse() =~= seq![c] + old_kept.reverse());
                }
            }
        }
        proof {
            to_multiset_first(suffix);
            assert(suffix.first() == c);
            vstd::seq_lib::to_multiset_build(old_kept, c);
            vstd::seq_lib::to_multiset_build(old_dropped, c);
            assert(kept_rev@.to_multiset().add(dropped@.to_multiset()) =~= suffix.to_multiset());
        }
    }
    proof {
        assert(input.subrange(0, input.len() as int) =~= input);
    }
    // restore chronological order
    let mut kept: Vec<Record> = Vec::new();
    let ghost krev = kept_rev@;
    proof {
        assert(kept_rev@ =~= krev.subrange(0, kept_rev@.len() as int));
        assert(kept@ =~= krev.reverse().subrange(0, krev.len() - kept_rev@.len()));
    }
    while kept_rev.len() > 0
        invariant
            kept_rev@.len() <= krev.len(),
            kept_rev@ == krev.subrange(0, kept_rev@.len() as int),
            kept@ == krev.reverse().subrange(0, krev.len() - kept_rev@.len()),
        decreases kept_rev@.len(),
    {
        let ghost k = kept_rev@.len() as int;
        let x = kept_rev.pop().unwrap();
        proof {
            assert(x == krev[k - 1]);
            assert(x == krev.reverse()[krev.len() - k]);
            assert(kept_rev@ =~= krev.subrange(0, k - 1));
        }
        kept.push(x);
        proof {
            assert(kept@ =~= krev.reverse().subrange(0, krev.len() - (k - 1)));
        }
    }
    proof {
        assert(kept@ =~= krev.reverse());
        krev.lemma_reverse_to_multiset();
        lemma_dedup_sorted(input, window);
    }
    (kept, dropped)
}

/// The multiset of a nonempty sequence is the multiset of its remainder with
/// its first element added.
proof fn to_multiset_first(s: Seq<Record>)
    requires
        s.len() >= 1,
    ensures
        s.to_multiset() == s.drop_first().to_multiset().insert(s.first()),
{
    assert(s =~= s.drop_first().insert(0, s.first()));
    vstd::seq_lib::to_multiset_insert(s.drop_first(), 0, s.first());
}

} // verus!
