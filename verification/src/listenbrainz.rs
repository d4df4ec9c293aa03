//! One entry of a listenbrainz export dump, and its normalization into the
//! uniform record shape.

use vstd::prelude::*;
use crate::payload::{
    additional_info,
    clone_entries_excluding,
    clone_opt_string,
    without_keys,
    HelperAttr,
    NormalizeError,
    Payload,
    PayloadT,
    IntoPayloadDerive,
};
use crate::record::{opt_str_view, ListenData, Record};

verus! {

/// The MusicBrainz identifiers an export entry carries for its recording.
#[derive(Debug, PartialEq, Eq, Clone)]
pub struct MbidMapping {
    pub recording_mbid: String,
    pub release_mbid: String,
    pub artist_mbids: Vec<String>,
}

/// The track metadata of one export entry: the names, the entry's own
/// metadata bag, and its MusicBrainz mapping.
#[derive(Debug, PartialEq, Eq, Clone)]
pub struct AdditionalInfo {
    pub track_name: String,
    pub artist_name: String,
    pub release_name: Option<String>,
    pub additional_info: Vec<(String, String)>,
    pub mbid_mapping: MbidMapping,
}

/// One entry of a listenbrainz export dump.
#[derive(Debug, PartialEq, Eq, Clone)]
pub struct LBListen {
    pub track_metadata: AdditionalInfo,
    pub listened_at: i64,
}

impl AdditionalInfo {
    /// The outbound metadata entries: the entry's own bag with any stale
    /// recording or release id removed, then the mapping's recording and
    /// release MusicBrainz ids, then one `artist_mbids` entry per artist id
    /// (a flat key-value rendering of the id list).
    pub open spec fn spec_entries(&self) -> Seq<(Seq<char>, Seq<char>)> {
        without_keys(self.additional_info.deep_view(), "recording_mbid"@, "release_mbid"@) + seq![
            ("recording_mbid"@, self.mbid_mapping.recording_mbid@),
            ("release_mbid"@, self.mbid_mapping.release_mbid@),
        ] + self.mbid_mapping.artist_mbids.deep_view().map_values(
            |m: Seq<char>| ("artist_mbids"@, m),
        )
    }

    pub fn entries(&self) -> (r: Vec<(String, String)>)
        ensures
            r.deep_view() == self.spec_entries(),
    {
        let mut r = clone_entries_excluding(&self.additional_info, "recording_mbid", "release_mbid");
        r.push(("recording_mbid".to_owned(), self.mbid_mapping.recording_mbid.clone()));
        r.push(("release_mbid".to_owned(), self.mbid_mapping.release_mbid.clone()));
        let ghost base = r.deep_view();
        let mbids = &self.mbid_mapping.artist_mbids;
        let ghost mapped = mbids.deep_view().map_values(|m: Seq<char>| ("artist_mbids"@, m));
        let mut i: usize = 0;
        while i < mbids.len()
            invariant
                i <= mbids@.len(),
                mapped == mbids.deep_view().map_values(|m: Seq<char>| ("artist_mbids"@, m)),
                r.deep_view() =~~= base + mapped.subrange(0, i as int),
            decreases mbids@.len() - i,
        {
            let m = mbids[i].clone();
            proof {
                assert(m@ == mbids@[i as int]@);
                assert(mbids.deep_view()[i as int] == mbids@[i as int]@);
                assert(mapped[i as int] == ("artist_mbids"@, mbids@[i as int]@));
            }
            let ghost prev = r.deep_view();
            r.push(("artist_mbids".to_owned(), m));
            proof {
                let lhs = r.deep_view();
                let rhs = base + mapped.subrange(0, i + 1);
                assert(mapped.len() == mbids@.len());
                assert(prev.len() == base.len() + i);
                assert(lhs.len() == prev.len() + 1);
                assert(lhs.len() == rhs.len());
                assert forall|j: int| 0 <= j < lhs.len() implies lhs[j] == rhs[j] by {
                    if j < base.len() + i {
                        assert(lhs[j] == (base + mapped.subrange(0, i as int))[j]);
                    }
                }
                assert(lhs =~= rhs);
            }
            i = i + 1;
        }
        proof {
            assert(mapped.subrange(0, mbids@.len() as int) =~~= mapped);
            assert(r.deep_view() =~~= self.spec_entries());
        }
        r
    }
}

impl ListenData for LBListen {
    open spec fn spec_listened_at(&self) -> i64 {
        self.listened_at
    }

    open spec fn spec_track_name(&self) -> Seq<char> {
        self.track_metadata.track_name@
    }

    open spec fn spec_artist_name(&self) -> Seq<char> {
        self.track_metadata.artist_name@
    }

    open spec fn spec_release_name(&self) -> Option<Seq<char>> {
        opt_str_view(self.track_metadata.release_name)
    }

    fn listened_at(&self) -> (r: i64) {
        self.listened_at
    }

    fn track_name(&self) -> (r: &str) {
        self.track_metadata.track_name.as_str()
    }

    fn artist_name(&self) -> (r: &str) {
        self.track_metadata.artist_name.as_str()
    }

    fn release_name(&self) -> (r: Option<&str>) {
        match &self.track_metadata.release_name {
            Some(s) => Some(s.as_str()),
            None => None,
        }
    }
}

impl PayloadT for LBListen {
    open spec fn spec_metadata(&self) -> Seq<(Seq<char>, Seq<char>)> {
        self.track_metadata.spec_entries()
    }

    fn to_payload(&self) -> (p: Payload) {
        let entries = self.track_metadata.entries();
        Payload {
            listened_at: self.listened_at,
            track_name: self.track_metadata.track_name.clone(),
            artist_name: self.track_metadata.artist_name.clone(),
            release_name: clone_opt_string(&self.track_metadata.release_name),
            additional_info: additional_info(&entries),
        }
    }
}

impl IntoPayloadDerive for LBListen {

}

impl LBListen {
    pub open spec fn spec_has_track(&self) -> bool {
        self.track_metadata.track_name@.len() > 0
    }

    pub open spec fn spec_has_artist(&self) -> bool {
        self.track_metadata.artist_name@.len() > 0
    }

    /// Normalization into the uniform record shape. An entry with an empty
    /// track or artist name is invalid and rejected, the track checked
    /// first. The export format reports neither play duration nor a track
    /// identifier nor an end reason.
    pub fn normalize(&self) -> (r: Result<Record, NormalizeError>)
        ensures
            r is Ok <==> self.spec_has_track() && self.spec_has_artist(),
            !self.spec_has_track() ==> r == Result::<Record, NormalizeError>::Err(
                NormalizeError { missing: HelperAttr::Track },
            ),
            self.spec_has_track() && !self.spec_has_artist() ==> r == Result::<
                Record,
                NormalizeError,
            >::Err(NormalizeError { missing: HelperAttr::Artist }),
            r matches Ok(rec) ==> {
                &&& rec.listened_at == self.listened_at
                &&& rec.track_name@ == self.spec_track_name()
                &&& rec.artist_name@ == self.spec_artist_name()
                &&& opt_str_view(rec.release_name) == self.spec_release_name()
                &&& rec.ms_played is None
                &&& rec.track_identifier is None
                &&& rec.end_reason is None
                &&& rec.extra_metadata.deep_view() == self.track_metadata.spec_entries()
            },
    {
        if self.track_metadata.track_name.as_str().is_empty() {
            return Err(NormalizeError { missing: HelperAttr::Track });
        }
        if self.track_metadata.artist_name.as_str().is_empty() {
            return Err(NormalizeError { missing: HelperAttr::Artist });
        }
        Ok(
            Record {
                listened_at: self.listened_at,
                track_name: self.track_metadata.track_name.clone(),
                artist_name: self.track_metadata.artist_name.clone(),
                release_name: clone_opt_string(&self.track_metadata.release_name),
                ms_played: None,
                track_identifier: None,
                end_reason: None,
                extra_metadata: self.track_metadata.entries(),
            },
        )
    }
}

} // verus!
