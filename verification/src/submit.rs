//! The submission state machine.
//!
//! Batches are submitted one at a time, in ascending time order, never in
//! parallel. The outside wire call is performed by the caller; this module
//! holds the run's bookkeeping: after each batch it updates the running
//! totals, directs the server-reported rate-limit pause, and on a failed
//! batch derives the re-run hint bounding exactly that batch's time window.
//! No batch failure aborts the run.

use vstd::prelude::*;
use crate::record::Record;

verus! {

/// The server-reported rate-limit snapshot of the latest response.
#[derive(Clone, Copy, Debug, PartialEq, Eq)]
pub struct RateLimit {
    /// Remaining submission quota.
    pub remaining: u64,
    /// Seconds until the quota resets.
    pub reset_in: u64,
}

/// The terminal outcome of one batch's wire submission.
#[derive(Clone, Copy, Debug, PartialEq, Eq)]
pub enum BatchOutcome {
    /// The server accepted the whole batch, possibly reporting a rate-limit
    /// snapshot.
    Accepted { rate_limit: Option<RateLimit> },
    /// The submission call failed; the whole batch is rejected.
    Rejected,
}

/// What the driver must do before submitting the next batch.
#[derive(Clone, Copy, Debug, PartialEq, Eq)]
pub enum SubmitAction {
    /// Submit the next batch immediately.
    Proceed,
    /// Block for the server-directed pause, then go on: no batch may be
    /// submitted during the wait.
    Wait { seconds: u64 },
}

/// The earliest and latest `listened_at` of a rejected batch: re-running the
/// import bounded by exactly this window re-submits just that batch.
#[derive(Clone, Copy, Debug, PartialEq, Eq)]
pub struct RerunHint {
    /// The rejected batch's earliest timestamp, for the `after` bound.
    pub after: i64,
    /// The rejected batch's latest timestamp, for the `before` bound.
    pub before: i64,
}

/// What one submission step directs the driver to do.
#[derive(Clone, Copy, Debug, PartialEq, Eq)]
pub struct StepReport {
    pub action: SubmitAction,
    /// Present exactly for a rejected batch.
    pub rerun: Option<RerunHint>,
}

/// The ephemeral state of one invocation: running totals, and the most
/// recent server-reported rate-limit snapshot. Every attempted record is
/// counted exactly once, as succeeded or as failed.
#[derive(Clone, Copy, Debug, PartialEq, Eq)]
pub struct RunState {
    pub total: u64,
    pub success: u64,
    pub fail: u64,
    pub rate_limit: Option<RateLimit>,
}

/// The earliest `listened_at` in a nonempty run of records.
pub open spec fn earliest_time(s: Seq<Record>) -> i64
    decreases s.len(),
{
    if s.len() <= 1 {
        s[0].listened_at
    } else {
        let prev = earliest_time(s.drop_last());
        if s.last().listened_at < prev {
            s.last().listened_at
        } else {
            prev
        }
    }
}

/// The latest `listened_at` in a nonempty run of records.
pub open spec fn latest_time(s: Seq<Record>) -> i64
    decreases s.len(),
{
    if s.len() <= 1 {
        s[0].listened_at
    } else {
        let prev = latest_time(s.drop_last());
        if s.last().listened_at > prev {
            s.last().listened_at
        } else {
            prev
        }
    }
}

/// The re-run hint's bounds enclose every record of the batch, and both are
/// timestamps of records in it: a re-run bounded by exactly this window
/// covers the whole rejected batch and nothing outside it.
pub proof fn lemma_hint_bounds(s: Seq<Record>)
    requires
        s.len() >= 1,
    ensures
        forall|i: int|
            0 <= i < s.len() ==> earliest_time(s) <= #[trigger] s[i].listened_at <= latest_time(s),
        exists|i: int| 0 <= i < s.len() && s[i].listened_at == earliest_time(s),
        exists|i: int| 0 <= i < s.len() && s[i].listened_at == latest_time(s),
    decreases s.len(),
{
    if s.len() > 1 {
        lemma_hint_bounds(s.drop_last());
        assert(forall|i: int| 0 <= i < s.len() - 1 ==> s.drop_last()[i] == s[i]);
        let j = choose|j: int|
            0 <= j < s.drop_last().len() && s.drop_last()[j].listened_at == earliest_time(
                s.drop_last(),
            );
        let k = choose|k: int|
            0 <= k < s.drop_last().len() && s.drop_last()[k].listened_at == latest_time(
                s.drop_last(),
            );
        if s.last().listened_at < earliest_time(s.drop_last()) {
            assert(s[s.len() - 1].listened_at == earliest_time(s));
        } else {
            assert(s[j].listened_at == earliest_time(s));
        }
        if s.last().listened_at > latest_time(s.drop_last()) {
            assert(s[s.len() - 1].listened_at == latest_time(s));
        } else {
            assert(s[k].listened_at == latest_time(s));
        }
    } else {
        assert(s[0].listened_at == earliest_time(s));
        assert(s[0].listened_at == latest_time(s));
    }
}

/// The rate-limit pause an accepted batch's response directs: the full reset
/// duration when the remaining quota is exhausted, none otherwise.
pub open spec fn spec_action(outcome: BatchOutcome) -> SubmitAction {
    match outcome {
        BatchOutcome::Accepted { rate_limit: Some(rl) } => if rl.remaining == 0 {
            SubmitAction::Wait { seconds: rl.reset_in }
        } else {
            SubmitAction::Proceed
        },
        _ => SubmitAction::Proceed,
    }
}

pub fn batch_earliest(batch: &Vec<Record>) -> (r: i64)
    requires
        batch@.len() >= 1,
    ensures
        r == earliest_time(batch@),
{
    let mut r = batch[0].listened_at;
    let mut i: usize = 1;
    while i < batch.len()
        invariant
            1 <= i <= batch@.len(),
            r == earliest_time(batch@.subrange(0, i as int)),
        decreases batch@.len() - i,
    {
        proof {
            assert(batch@.subrange(0, i + 1).drop_last() =~= batch@.subrange(0, i as int));
        }
        if batch[i].listened_at < r {
            r = batch[i].listened_at;
        }
        i = i + 1;
    }
    proof {
        assert(batch@.subrange(0, batch@.len() as int) =~= batch@);
    }
    r
}

pub fn batch_latest(batch: &Vec<Record>) -> (r: i64)
    requires
        batch@.len() >= 1,
    ensures
        r == latest_time(batch@),
{
    let mut r = batch[0].listened_at;
    let mut i: usize = 1;
    while i < batch.len()
        invariant
            1 <= i <= batch@.len(),
            r == latest_time(batch@.subrange(0, i as int)),
        decreases batch@.len() - i,
    {
        proof {
            assert(batch@.subrange(0, i + 1).drop_last() =~= batch@.subrange(0, i as int));
        }
        if batch[i].listened_at > r {
            r = batch[i].listened_at;
        }
        i = i + 1;
    }
    proof {
        assert(batch@.subrange(0, batch@.len() as int) =~= batch@);
    }
    r
}

impl RunState {
    /// Counters are consistent: each attempted record succeeded or failed.
    pub open spec fn wf(self) -> bool {
        self.total == self.success + self.fail
    }

    pub fn new() -> (s: RunState)
        ensures
            s.total == 0,
            s.success == 0,
            s.fail == 0,
            s.rate_limit is None,
            s.wf(),
    {
        RunState { total: 0, success: 0, fail: 0, rate_limit: None }
    }

    /// Record one batch's terminal outcome.
    ///
    /// The totals grow by the batch's size, on the side the outcome names.
    /// An accepted response whose snapshot reports an exhausted quota directs
    /// a pause of the reported reset duration before the next batch; any
    /// other response directs none. A rejected batch, and only a rejected
    /// batch, yields the re-run hint bounding exactly its time window; the
    /// run goes on either way.
    pub fn apply_outcome(&mut self, batch: &Vec<Record>, outcome: &BatchOutcome) -> (rep:
        StepReport)
        requires
            old(self).wf(),
            batch@.len() >= 1,
            old(self).total + batch@.len() <= u64::MAX,
        ensures
            final(self).wf(),
            final(self).total == old(self).total + batch@.len(),
            *outcome matches BatchOutcome::Accepted { .. } ==> final(self).success == old(
                self,
            ).success + batch@.len() && final(self).fail == old(self).fail,
            *outcome matches BatchOutcome::Rejected ==> final(self).fail == old(self).fail
                + batch@.len() && final(self).success == old(self).success,
            final(self).rate_limit == (match *outcome {
                BatchOutcome::Accepted { rate_limit: Some(rl) } => Some(rl),
                _ => old(self).rate_limit,
            }),
            rep.action == spec_action(*outcome),
            rep.rerun == (match *outcome {
                BatchOutcome::Rejected => Some(
                    RerunHint { after: earliest_time(batch@), before: latest_time(batch@) },
                ),
                _ => None::<RerunHint>,
            }),
    {
        let n = batch.len() as u64;
        self.total = self.total + n;
        match outcome {
            BatchOutcome::Accepted { rate_limit } => {
                self.success = self.success + n;
                let action = match rate_limit {
                    Some(rl) => {
                        self.rate_limit = Some(*rl);
                        if rl.remaining == 0 {
                            SubmitAction::Wait { seconds: rl.reset_in }
                        } else {
                            SubmitAction::Proceed
                        }
                    },
                    None => SubmitAction::Proceed,
                };
                StepReport { action, rerun: None }
            },
            BatchOutcome::Rejected => {
                self.fail = self.fail + n;
                StepReport {
                    action: SubmitAction::Proceed,
                    rerun: Some(
                        RerunHint { after: batch_earliest(batch), before: batch_latest(batch) },
                    ),
                }
            },
        }
    }
}

} // verus!
