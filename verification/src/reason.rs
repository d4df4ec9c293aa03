//! The reason a play ended, as logged by the spotify dump format, as a
//! closed enumeration with an explicit "interruption" classification.
//!
//! The deduplicator treats an entry whose end reason marks a non-terminal
//! interruption (or any reason tag beginning with the `unexpected-` prefix)
//! as an artifact of the same real listening session as its neighbour.

use vstd::prelude::*;
use crate::strutil::{starts_with, str_eq, str_starts_with};

verus! {

#[derive(Clone, Copy, Debug, PartialEq, Eq, Structural)]
pub enum EndReason {
    Appload,
    Backbtn,
    Clickrow,
    Endplay,
    Fwdbtn,
    Logout,
    Playbtn,
    Remote,
    Trackdone,
    Trackerror,
    UnexpectedExit,
    UnexpectedExitWhilePaused,
    Unknown,
    /// Any reason tag with the `unexpected-` prefix other than the known ones.
    OtherUnexpected,
    /// Any reason tag not recognized above.
    Other,
}

impl EndReason {
    /// The classification the deduplicator skips on: the play did not end
    /// normally, so an adjacent same-track entry is the same real listen.
    pub open spec fn spec_is_interruption(self) -> bool {
        match self {
            EndReason::Logout => true,
            EndReason::Remote => true,
            EndReason::Trackerror => true,
            EndReason::Unknown => true,
            EndReason::UnexpectedExit => true,
            EndReason::UnexpectedExitWhilePaused => true,
            EndReason::OtherUnexpected => true,
            _ => false,
        }
    }

    pub fn is_interruption(&self) -> (r: bool)
        ensures
            r == self.spec_is_interruption(),
    {
        match self {
            EndReason::Logout => true,
            EndReason::Remote => true,
            EndReason::Trackerror => true,
            EndReason::Unknown => true,
            EndReason::UnexpectedExit => true,
            EndReason::UnexpectedExitWhilePaused => true,
            EndReason::OtherUnexpected => true,
            _ => false,
        }
    }

    /// Classification of a raw reason tag.
    pub open spec fn spec_from_tag(s: Seq<char>) -> EndReason {
        if s == "appload"@ {
            EndReason::Appload
        } else if s == "backbtn"@ {
            EndReason::Backbtn
        } else if s == "clickrow"@ {
            EndReason::Clickrow
        } else if s == "endplay"@ {
            EndReason::Endplay
        } else if s == "fwdbtn"@ {
            EndReason::Fwdbtn
        } else if s == "logout"@ {
            EndReason::Logout
        } else if s == "playbtn"@ {
            EndReason::Playbtn
        } else if s == "remote"@ {
            EndReason::Remote
        } else if s == "trackdone"@ {
            EndReason::Trackdone
        } else if s == "trackerror"@ {
            EndReason::Trackerror
        } else if s == "unexpected-exit"@ {
            EndReason::UnexpectedExit
        } else if s == "unexpected-exit-while-paused"@ {
            EndReason::UnexpectedExitWhilePaused
        } else if s == "unknown"@ {
            EndReason::Unknown
        } else if starts_with(s, "unexpected-"@) {
            EndReason::OtherUnexpected
        } else {
            EndReason::Other
        }
    }

    pub fn from_tag(s: &str) -> (r: EndReason)
        ensures
            r == EndReason::spec_from_tag(s@),
    {
        if str_eq(s, "appload") {
            EndReason::Appload
        } else if str_eq(s, "backbtn") {
            EndReason::Backbtn
        } else if str_eq(s, "clickrow") {
            EndReason::Clickrow
        } else if str_eq(s, "endplay") {
            EndReason::Endplay
        } else if str_eq(s, "fwdbtn") {
            EndReason::Fwdbtn
        } else if str_eq(s, "logout") {
            EndReason::Logout
        } else if str_eq(s, "playbtn") {
            EndReason::Playbtn
        } else if str_eq(s, "remote") {
            EndReason::Remote
        } else if str_eq(s, "trackdone") {
            EndReason::Trackdone
        } else if str_eq(s, "trackerror") {
            EndReason::Trackerror
        } else if str_eq(s, "unexpected-exit") {
            EndReason::UnexpectedExit
        } else if str_eq(s, "unexpected-exit-while-paused") {
            EndReason::UnexpectedExitWhilePaused
        } else if str_eq(s, "unknown") {
            EndReason::Unknown
        } else if str_starts_with(s, "unexpected-") {
            EndReason::OtherUnexpected
        } else {
            EndReason::Other
        }
    }
}

} // verus!
