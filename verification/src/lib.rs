//! Listen-import pipeline: normalization of play-history dump entries into a
//! uniform record shape, temporal/duration filtering, collapsing of
//! near-duplicate plays, ordered batching, and the submission state machine
//! with server-directed rate-limit backoff and per-batch failure recovery.

use vstd::prelude::*;

pub mod batch;
pub mod datetime;
pub mod dedup;
pub mod filter;
pub mod listenbrainz;
pub mod payload;
pub mod pipeline;
pub mod reason;
pub mod record;
pub mod sort;
pub mod spotify;
pub mod strutil;
pub mod submit;

verus! {

/// The listens decoded from one dump file. The loader skips malformed
/// entries inside an otherwise valid collection, so this may hold fewer
/// items than the file has entries.
pub struct ListenVec<T> {
    items: Vec<T>,
}

impl<T> View for ListenVec<T> {
    type V = Seq<T>;

    closed spec fn view(&self) -> Seq<T> {
        self.items@
    }
}

impl<T> ListenVec<T> {
    pub fn new() -> (r: ListenVec<T>)
        ensures
            r@ == Seq::<T>::empty(),
    {
        ListenVec { items: Vec::new() }
    }

    pub fn push(&mut self, item: T)
        ensures
            final(self)@ == old(self)@.push(item),
    {
        self.items.push(item);
    }

    pub fn len(&self) -> (n: usize)
        ensures
            n == self@.len(),
    {
        self.items.len()
    }

    pub fn into_vec(self) -> (v: Vec<T>)
        ensures
            v@ == self@,
    {
        self.items
    }
}

} // verus!
