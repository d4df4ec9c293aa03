//! One entry of a spotify history dump, and its normalization into the
//! uniform record shape.
//!
//! The dump comes in two layouts (a simple streaming history and a full
//! extended history); both decode into this one shape, with the fields the
//! simple layout lacks absent.

use vstd::prelude::*;
use vstd::string::StringExecFns;
use crate::payload::{clone_opt_string, HelperAttr, NormalizeError};
use crate::reason::EndReason;
use crate::record::{opt_str_view, Record};
use crate::strutil::{after_colon, after_last_colon};

verus! {

/// An offline capture time at or below this threshold does not look like a
/// real post-epoch timestamp and is ignored in favour of the nominal time.
pub const EPOCH_GUARD_SECS: i64 = 100;

/// One entry of a spotify history dump.
#[derive(Debug, PartialEq, Eq, Clone)]
pub struct SpotifyListen {
    /// The nominal end time of the play, unix seconds.
    pub time: i64,
    /// The offline capture time, unix seconds, when the dump reports one.
    pub offline_time: Option<i64>,
    pub track: Option<String>,
    pub artist: Option<String>,
    pub album: Option<String>,
    pub spotify_track_uri: Option<String>,
    pub ms_played: u32,
    pub reason_end: Option<String>,
}

/// The enrichment metadata of one spotify play: the track's public URL,
/// when the dump carries a track URI.
#[derive(Debug, PartialEq, Eq, Clone)]
pub struct Info {
    pub spotify_id: Option<String>,
}

/// The track URL derived from a spotify track URI: the prefix joined with
/// whatever follows the URI's last colon.
pub open spec fn spec_spotify_id(uri: Option<String>) -> Option<Seq<char>> {
    match uri {
        Some(u) => match after_last_colon(u@) {
            Some(id) => Some("https://open.spotify.com/tracks/"@ + id),
            None => None,
        },
        None => None,
    }
}

/// The metadata entries of one spotify play.
pub open spec fn spec_info_entries(spotify_id: Option<Seq<char>>) -> Seq<(Seq<char>, Seq<char>)> {
    match spotify_id {
        Some(id) => seq![
            ("music_service"@, "spotify.com"@),
            ("spotify_id"@, id),
            ("origin_url"@, id),
        ],
        None => seq![("music_service"@, "spotify.com"@)],
    }
}

impl Info {
    /// The outbound metadata entries: the music service, and the track's
    /// URL under both its id and origin-url keys when it is known.
    pub fn entries(&self) -> (r: Vec<(String, String)>)
        ensures
            r.deep_view() == spec_info_entries(opt_str_view(self.spotify_id)),
    {
        let mut r: Vec<(String, String)> = Vec::new();
        r.push(("music_service".to_owned(), "spotify.com".to_owned()));
        match &self.spotify_id {
            Some(id) => {
                r.push(("spotify_id".to_owned(), id.clone()));
                r.push(("origin_url".to_owned(), id.clone()));
            },
            None => {},
        }
        proof {
            assert(r.deep_view() =~~= spec_info_entries(opt_str_view(self.spotify_id)));
        }
        r
    }
}

impl SpotifyListen {
    /// The play's effective timestamp: the offline capture time when it
    /// looks like a real timestamp, else the nominal end time.
    pub open spec fn spec_listened_at(&self) -> i64 {
        match self.offline_time {
            Some(ts) => if ts > EPOCH_GUARD_SECS {
                ts
            } else {
                self.time
            },
            None => self.time,
        }
    }

    pub open spec fn spec_has_track(&self) -> bool {
        match self.track {
            Some(t) => t@.len() > 0,
            None => false,
        }
    }

    pub open spec fn spec_has_artist(&self) -> bool {
        match self.artist {
            Some(a) => a@.len() > 0,
            None => false,
        }
    }

    pub fn listened_at(&self) -> (r: i64)
        ensures
            r == self.spec_listened_at(),
    {
        match self.offline_time {
            Some(ts) => if ts > EPOCH_GUARD_SECS {
                ts
            } else {
                self.time
            },
            None => self.time,
        }
    }

    /// The enrichment metadata of this play.
    pub fn track_metadata(&self) -> (r: Option<Info>)
        ensures
            r is Some,
            r matches Some(info) ==> opt_str_view(info.spotify_id) == spec_spotify_id(
                self.spotify_track_uri,
            ),
    {
        let spotify_id = match &self.spotify_track_uri {
            Some(u) => match after_colon(u.as_str()) {
                Some(id) => {
                    let mut url = "https://open.spotify.com/tracks/".to_owned();
                    url.append(id);
                    Some(url)
                },
                None => None,
            },
            None => None,
        };
        Some(Info { spotify_id })
    }

    /// Normalization into the uniform record shape. An entry lacking a
    /// non-empty track or artist name is invalid and rejected, the track
    /// checked first.
    pub fn normalize(&self) -> (r: Result<Record, NormalizeError>)
        ensures
            r is Ok <==> self.spec_has_track() && self.spec_has_artist(),
            !self.spec_has_track() ==> r == Result::<Record, NormalizeError>::Err(
                NormalizeError { missing: HelperAttr::Track },
            ),
            self.spec_has_track() && !self.spec_has_artist() ==> r == Result::<
                Record,
                NormalizeError,
            >::Err(NormalizeError { missing: HelperAttr::Artist }),
            r matches Ok(rec) ==> {
                &&& rec.listened_at == self.spec_listened_at()
                &&& Some(rec.track_name@) == opt_str_view(self.track)
                &&& Some(rec.artist_name@) == opt_str_view(self.artist)
                &&& opt_str_view(rec.release_name) == opt_str_view(self.album)
                &&& rec.ms_played == Some(self.ms_played)
                &&& opt_str_view(rec.track_identifier) == opt_str_view(self.spotify_track_uri)
                &&& rec.end_reason == (match self.reason_end {
                    Some(tag) => Some(EndReason::spec_from_tag(tag@)),
                    None => None::<EndReason>,
                })
                &&& rec.extra_metadata.deep_view() == spec_info_entries(
                    spec_spotify_id(self.spotify_track_uri),
                )
            },
    {
        let track_name = match &self.track {
            Some(t) => {
                if t.as_str().is_empty() {
                    return Err(NormalizeError { missing: HelperAttr::Track });
                }
                t.clone()
            },
            None => {
                return Err(NormalizeError { missing: HelperAttr::Track });
            },
        };
        let artist_name = match &self.artist {
            Some(a) => {
                if a.as_str().is_empty() {
                    return Err(NormalizeError { missing: HelperAttr::Artist });
                }
                a.clone()
            },
            None => {
                return Err(NormalizeError { missing: HelperAttr::Artist });
            },
        };
        let extra_metadata = match self.track_metadata() {
            Some(info) => info.entries(),
            None => {
                proof {
                    assert(false);
                }
                Vec::new()
            },
        };
        let end_reason = match &self.reason_end {
            Some(tag) => Some(EndReason::from_tag(tag.as_str())),
            None => None,
        };
        Ok(
            Record {
                listened_at: self.listened_at(),
                track_name,
                artist_name,
                release_name: clone_opt_string(&self.album),
                ms_played: Some(self.ms_played),
                track_identifier: clone_opt_string(&self.spotify_track_uri),
                end_reason,
                extra_metadata,
            },
        )
    }
}

} // verus!
