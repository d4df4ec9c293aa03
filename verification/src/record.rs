//! The uniform in-memory shape every dump format is normalized into, and the
//! accessor capability the pipeline stages share.

use vstd::prelude::*;
use crate::reason::EndReason;

verus! {

/// One normalized play event.
///
/// `track_name` and `artist_name` are non-empty after normalization; a
/// source entry lacking either is rejected by the normalizer.
/// `extra_metadata` is an opaque key-value bag folded into the outbound
/// payload's metadata.
#[derive(Debug, PartialEq, Eq, Clone)]
pub struct Record {
    /// Unix timestamp of the play, in seconds.
    pub listened_at: i64,
    pub track_name: String,
    pub artist_name: String,
    pub release_name: Option<String>,
    /// Play duration in milliseconds; absent for formats that do not report
    /// it, in which case any minimum-duration filter is satisfied.
    pub ms_played: Option<u32>,
    /// Opaque per-service track reference, used for deduplication and
    /// enrichment metadata.
    pub track_identifier: Option<String>,
    /// Why playback stopped; used only by the deduplicator.
    pub end_reason: Option<EndReason>,
    pub extra_metadata: Vec<(String, String)>,
}

/// The view of an optional owned string.
pub open spec fn opt_str_view(o: Option<String>) -> Option<Seq<char>> {
    match o {
        Some(s) => Some(s@),
        None => None,
    }
}

/// The view of an optional borrowed string.
pub open spec fn opt_ref_view(o: Option<&str>) -> Option<Seq<char>> {
    match o {
        Some(s) => Some(s@),
        None => None,
    }
}

/// Accessors shared by every shape that carries one play event.
pub trait ListenData {
    spec fn spec_listened_at(&self) -> i64;

    spec fn spec_track_name(&self) -> Seq<char>;

    spec fn spec_artist_name(&self) -> Seq<char>;

    spec fn spec_release_name(&self) -> Option<Seq<char>>;

    fn listened_at(&self) -> (r: i64)
        ensures
            r == self.spec_listened_at(),
    ;

    fn track_name(&self) -> (r: &str)
        ensures
            r@ == self.spec_track_name(),
    ;

    fn artist_name(&self) -> (r: &str)
        ensures
            r@ == self.spec_artist_name(),
    ;

    fn release_name(&self) -> (r: Option<&str>)
        ensures
            opt_ref_view(r) == self.spec_release_name(),
    ;
}

impl ListenData for Record {
    open spec fn spec_listened_at(&self) -> i64 {
        self.listened_at
    }

    open spec fn spec_track_name(&self) -> Seq<char> {
        self.track_name@
    }

    open spec fn spec_artist_name(&self) -> Seq<char> {
        self.artist_name@
    }

    open spec fn spec_release_name(&self) -> Option<Seq<char>> {
        opt_str_view(self.release_name)
    }

    fn listened_at(&self) -> (r: i64) {
        self.listened_at
    }

    fn track_name(&self) -> (r: &str) {
        self.track_name.as_str()
    }

    fn artist_name(&self) -> (r: &str) {
        self.artist_name.as_str()
    }

    fn release_name(&self) -> (r: Option<&str>) {
        match &self.release_name {
            Some(s) => Some(s.as_str()),
            None => None,
        }
    }
}

/// Whether two optional track identifiers name the same track.
pub open spec fn same_identifier(a: Option<String>, b: Option<String>) -> bool {
    opt_str_view(a) == opt_str_view(b)
}

pub fn opt_string_eq(a: &Option<String>, b: &Option<String>) -> (r: bool)
    ensures
        r == (opt_str_view(*a) == opt_str_view(*b)),
{
    match a {
        None => match b {
            None => true,
            Some(_) => false,
        },
        Some(x) => match b {
            None => false,
            Some(y) => x.eq(y),
        },
    }
}

} // verus!
