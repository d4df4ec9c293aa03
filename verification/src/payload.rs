//! The wire payload shape and the explicit mapping onto it.
//!
//! Every record shape that can be submitted maps onto [`Payload`] through
//! [`PayloadT`], written out per shape rather than generated: the mapping
//! folds the shape's own metadata entries plus a fixed submission-client
//! identity stamp into the outbound metadata bag, the stamp replacing any
//! client entries the bag already carries.

use vstd::prelude::*;
use crate::record::{opt_str_view, ListenData, Record};
use crate::strutil::str_eq;
use vstd::string::StringExecFns;

verus! {

/// One play event in the shape the wire protocol takes.
#[derive(Debug, PartialEq, Eq)]
pub struct Payload {
    pub listened_at: i64,
    pub track_name: String,
    pub artist_name: String,
    pub release_name: Option<String>,
    /// The outbound metadata bag, always carrying the submission-client
    /// identity stamp.
    pub additional_info: Vec<(String, String)>,
}

/// The fixed submission-client identity stamped into every outbound
/// metadata bag.
pub open spec fn stamp_entries() -> Seq<(Seq<char>, Seq<char>)> {
    seq![
        ("submission_client"@, "lb-history-importer"@),
        ("submission_client_version"@, "0.1.0"@),
    ]
}

/// The entries whose key is neither `a` nor `b`.
pub open spec fn keys_excluded(a: Seq<char>, b: Seq<char>) -> spec_fn((Seq<char>, Seq<char>)) -> bool {
    |e: (Seq<char>, Seq<char>)| e.0 != a && e.0 != b
}

/// The bag with any entries under the two given keys removed.
pub open spec fn without_keys(
    entries: Seq<(Seq<char>, Seq<char>)>,
    a: Seq<char>,
    b: Seq<char>,
) -> Seq<(Seq<char>, Seq<char>)> {
    entries.filter(keys_excluded(a, b))
}

/// Copy a metadata bag entry for entry, dropping any entries under the two
/// given keys, in order.
pub fn clone_entries_excluding(data: &Vec<(String, String)>, a: &str, b: &str) -> (r: Vec<
    (String, String),
>)
    ensures
        r.deep_view() == without_keys(data.deep_view(), a@, b@),
{
    let ghost dv = data.deep_view();
    let ghost pred = keys_excluded(a@, b@);
    let mut r: Vec<(String, String)> = Vec::new();
    proof {
        reveal(Seq::filter);
        assert(dv.subrange(0, 0) =~= Seq::<(Seq<char>, Seq<char>)>::empty());
        assert(r.deep_view() =~= dv.subrange(0, 0).filter(pred));
    }
    let mut i: usize = 0;
    while i < data.len()
        invariant
            i <= data@.len(),
            dv == data.deep_view(),
            pred == keys_excluded(a@, b@),
            r.deep_view() == dv.subrange(0, i as int).filter(pred),
        decreases data@.len() - i,
    {
        let k = data[i].0.clone();
        let v = data[i].1.clone();
        proof {
            assert(k@ == dv[i as int].0);
            assert(v@ == dv[i as int].1);
        }
        let excluded = str_eq(k.as_str(), a) || str_eq(k.as_str(), b);
        proof {
            assert(pred(dv[i as int]) == !excluded);
        }
        let ghost prev = r.deep_view();
        if !excluded {
            r.push((k, v));
            proof {
                let lhs = r.deep_view();
                let rhs = prev.push(dv[i as int]);
                assert(lhs.len() == rhs.len());
                assert(forall|j: int| 0 <= j < prev.len() ==> lhs[j] == rhs[j]);
                assert(lhs[prev.len() as int] == dv[i as int]);
                assert(lhs =~= rhs);
            }
        }
        proof {
            let s = dv.subrange(0, i + 1);
            reveal(Seq::filter);
            assert(s.drop_last() =~= dv.subrange(0, i as int));
            assert(s.last() == dv[i as int]);
            if pred(dv[i as int]) {
                assert(s.filter(pred) == s.drop_last().filter(pred).push(dv[i as int]));
            } else {
                assert(s.filter(pred) == s.drop_last().filter(pred));
            }
            assert(r.deep_view() == s.filter(pred));
        }
        i = i + 1;
    }
    proof {
        assert(dv.subrange(0, dv.len() as int) =~= dv);
    }
    r
}

/// The outbound metadata bag for a record's own entries: the entries with
/// anything under the stamp's own keys removed, followed by the fixed
/// submission-client identity stamp — the stamp replaces any client a bag
/// already names.
pub fn additional_info(data: &Vec<(String, String)>) -> (r: Vec<(String, String)>)
    ensures
        r.deep_view() == without_keys(
            data.deep_view(),
            "submission_client"@,
            "submission_client_version"@,
        ) + stamp_entries(),
{
    let mut r = clone_entries_excluding(data, "submission_client", "submission_client_version");
    r.push(("submission_client".to_owned(), "lb-history-importer".to_owned()));
    r.push(("submission_client_version".to_owned(), "0.1.0".to_owned()));
    proof {
        assert(r.deep_view() =~~= without_keys(
            data.deep_view(),
            "submission_client"@,
            "submission_client_version"@,
        ) + stamp_entries());
    }
    r
}

pub fn clone_opt_string(o: &Option<String>) -> (r: Option<String>)
    ensures
        r == *o,
{
    match o {
        Some(s) => Some(s.clone()),
        None => None,
    }
}

/// Can be converted to a wire payload: the explicit, total mapping each
/// submittable record shape implements.
pub trait PayloadT: ListenData {
    /// The shape's own metadata entries, before the submission-client stamp.
    spec fn spec_metadata(&self) -> Seq<(Seq<char>, Seq<char>)>;

    /// Pure, total mapping to the wire payload shape.
    fn to_payload(&self) -> (p: Payload)
        ensures
            p.listened_at == self.spec_listened_at(),
            p.track_name@ == self.spec_track_name(),
            p.artist_name@ == self.spec_artist_name(),
            opt_str_view(p.release_name) == self.spec_release_name(),
            p.additional_info.deep_view() == without_keys(
                self.spec_metadata(),
                "submission_client"@,
                "submission_client_version"@,
            ) + stamp_entries(),
    ;
}

/// Marker for record shapes whose payload mapping is written out explicitly.
pub trait IntoPayloadDerive: ListenData {

}

impl PayloadT for Record {
    open spec fn spec_metadata(&self) -> Seq<(Seq<char>, Seq<char>)> {
        self.extra_metadata.deep_view()
    }

    fn to_payload(&self) -> (p: Payload) {
        Payload {
            listened_at: self.listened_at,
            track_name: self.track_name.clone(),
            artist_name: self.artist_name.clone(),
            release_name: clone_opt_string(&self.release_name),
            additional_info: additional_info(&self.extra_metadata),
        }
    }
}

impl IntoPayloadDerive for Record {

}

/// The three payload roles a record field can be tagged with.
#[derive(Clone, Copy, Debug, Hash, PartialEq, Eq, Structural)]
pub enum HelperAttr {
    Track,
    Artist,
    Release,
}

impl HelperAttr {
    pub open spec fn spec_tag(self) -> Seq<char> {
        match self {
            HelperAttr::Track => "track"@,
            HelperAttr::Artist => "artist"@,
            HelperAttr::Release => "release"@,
        }
    }

    pub fn as_str(&self) -> (r: &str)
        ensures
            r@ == self.spec_tag(),
    {
        match self {
            HelperAttr::Track => "track",
            HelperAttr::Artist => "artist",
            HelperAttr::Release => "release",
        }
    }

    /// The role a raw tag names, if any.
    pub open spec fn spec_parse_tag(s: Seq<char>) -> Option<HelperAttr> {
        if s == "track"@ {
            Some(HelperAttr::Track)
        } else if s == "artist"@ {
            Some(HelperAttr::Artist)
        } else if s == "release"@ {
            Some(HelperAttr::Release)
        } else {
            None
        }
    }

    pub fn from_tag(s: &str) -> (r: Option<HelperAttr>)
        ensures
            r == HelperAttr::spec_parse_tag(s@),
    {
        if str_eq(s, "track") {
            Some(HelperAttr::Track)
        } else if str_eq(s, "artist") {
            Some(HelperAttr::Artist)
        } else if str_eq(s, "release") {
            Some(HelperAttr::Release)
        } else {
            None
        }
    }
}

/// A source entry that cannot become a valid record: the named payload role
/// is missing or empty.
#[derive(Clone, Copy, Debug, PartialEq, Eq, Structural)]
pub struct NormalizeError {
    pub missing: HelperAttr,
}

impl NormalizeError {
    /// The diagnostic line for a skipped entry.
    pub fn message(&self) -> (r: String)
        ensures
            r@ == "Missing "@ + self.missing.spec_tag() + " name"@,
    {
        let mut r = "Missing ".to_owned();
        r.append(self.missing.as_str());
        r.append(" name");
        r
    }
}

} // verus!
