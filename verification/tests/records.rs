//! Normalization of the source shapes, the payload mapping, and the
//! end-reason classification.

use lb_importer::listenbrainz::{AdditionalInfo, LBListen, MbidMapping};
use lb_importer::payload::{additional_info, HelperAttr, PayloadT};
use lb_importer::reason::EndReason;
use lb_importer::spotify::{Info, SpotifyListen};
use lb_importer::strutil::{str_eq, str_starts_with};

const TRACK: &str = "Burn Brighter";
const ARTIST: &str = "Lansdowne";
const ALBUM: &str = "No Home but the Road";
// 2018-07-10T06:58:55Z
const FULL_TIME: i64 = 1_531_205_935;
// 2018-07-10 06:58 (UTC)
const SIMPLE_TIME: i64 = 1_531_205_880;
const MS_PLAYED: u32 = 60_265;

fn full_entry() -> SpotifyListen {
    SpotifyListen {
        time: FULL_TIME,
        offline_time: Some(1_531_090_963),
        track: Some(TRACK.to_owned()),
        artist: Some(ARTIST.to_owned()),
        album: Some(ALBUM.to_owned()),
        spotify_track_uri: Some("spotify:track:6BUMVGOnIeOIE6YetJGGDT".to_owned()),
        ms_played: MS_PLAYED,
        reason_end: Some("fwdbtn".to_owned()),
    }
}

fn simple_entry() -> SpotifyListen {
    SpotifyListen {
        time: SIMPLE_TIME,
        offline_time: None,
        track: Some(TRACK.to_owned()),
        artist: Some(ARTIST.to_owned()),
        album: None,
        spotify_track_uri: None,
        ms_played: MS_PLAYED,
        reason_end: None,
    }
}

#[test]
fn normalize_full_entry() {
    let rec = full_entry().normalize().expect("full entry is valid");
    // the offline capture time is plausible, so it wins over the nominal time
    assert_eq!(rec.listened_at, 1_531_090_963);
    assert_eq!(rec.track_name, TRACK);
    assert_eq!(rec.artist_name, ARTIST);
    assert_eq!(rec.release_name.as_deref(), Some(ALBUM));
    assert_eq!(rec.ms_played, Some(MS_PLAYED));
    assert_eq!(
        rec.track_identifier.as_deref(),
        Some("spotify:track:6BUMVGOnIeOIE6YetJGGDT")
    );
    assert_eq!(rec.end_reason, Some(EndReason::Fwdbtn));
    let url = "https://open.spotify.com/tracks/6BUMVGOnIeOIE6YetJGGDT";
    assert_eq!(
        rec.extra_metadata,
        vec![
            ("music_service".to_owned(), "spotify.com".to_owned()),
            ("spotify_id".to_owned(), url.to_owned()),
            ("origin_url".to_owned(), url.to_owned()),
        ]
    );
}

#[test]
fn normalize_simple_entry() {
    let rec = simple_entry().normalize().expect("simple entry is valid");
    assert_eq!(rec.listened_at, SIMPLE_TIME);
    assert_eq!(rec.release_name, None);
    assert_eq!(rec.track_identifier, None);
    assert_eq!(rec.end_reason, None);
    assert_eq!(
        rec.extra_metadata,
        vec![("music_service".to_owned(), "spotify.com".to_owned())]
    );
}

#[test]
fn normalize_epoch_guard_prefers_nominal_time() {
    let mut entry = full_entry();
    // an offline capture at or below the guard does not look real
    entry.offline_time = Some(100);
    let rec = entry.normalize().expect("entry is valid");
    assert_eq!(rec.listened_at, FULL_TIME);
    assert_eq!(full_entry().listened_at(), 1_531_090_963);
}

#[test]
fn normalize_rejects_missing_track() {
    let mut entry = full_entry();
    entry.track = None;
    let err = entry.normalize().expect_err("track is missing");
    assert_eq!(err.missing, HelperAttr::Track);
    assert_eq!(err.message(), "Missing track name");

    let mut entry = full_entry();
    entry.track = Some(String::new());
    let err = entry.normalize().expect_err("track is empty");
    assert_eq!(err.missing, HelperAttr::Track);
}

#[test]
fn normalize_rejects_missing_artist() {
    let mut entry = full_entry();
    entry.artist = Some(String::new());
    let err = entry.normalize().expect_err("artist is empty");
    assert_eq!(err.missing, HelperAttr::Artist);
    assert_eq!(err.message(), "Missing artist name");
}

#[test]
fn track_url_splits_uri_after_last_colon() {
    let info = full_entry().track_metadata().expect("always present");
    assert_eq!(
        info.spotify_id.as_deref(),
        Some("https://open.spotify.com/tracks/6BUMVGOnIeOIE6YetJGGDT")
    );
    // a URI without a colon has no track id
    let mut entry = full_entry();
    entry.spotify_track_uri = Some("no colon here".to_owned());
    let info = entry.track_metadata().expect("always present");
    assert_eq!(info.spotify_id, None);
}

#[test]
fn info_entries_without_id() {
    let entries = Info { spotify_id: None }.entries();
    assert_eq!(
        entries,
        vec![("music_service".to_owned(), "spotify.com".to_owned())]
    );
}

#[test]
fn payload_carries_submission_client_stamp() {
    let rec = full_entry().normalize().expect("full entry is valid");
    let p = rec.to_payload();
    assert_eq!(p.listened_at, 1_531_090_963);
    assert_eq!(p.track_name, TRACK);
    assert_eq!(p.artist_name, ARTIST);
    assert_eq!(p.release_name.as_deref(), Some(ALBUM));
    let n = p.additional_info.len();
    assert_eq!(
        p.additional_info[n - 2],
        ("submission_client".to_owned(), "lb-history-importer".to_owned())
    );
    assert_eq!(
        p.additional_info[n - 1],
        ("submission_client_version".to_owned(), "0.1.0".to_owned())
    );
    assert_eq!(&p.additional_info[..n - 2], &rec.extra_metadata[..]);
}

#[test]
fn stamping_appends_exactly_two_entries() {
    let bag = vec![("k".to_owned(), "v".to_owned())];
    let stamped = additional_info(&bag);
    assert_eq!(
        stamped,
        vec![
            ("k".to_owned(), "v".to_owned()),
            ("submission_client".to_owned(), "lb-history-importer".to_owned()),
            ("submission_client_version".to_owned(), "0.1.0".to_owned()),
        ]
    );
}

#[test]
fn stamp_replaces_previous_client_entries() {
    // a re-imported export already names the client that wrote it; the
    // fixed stamp replaces it rather than standing beside it
    let bag = vec![
        ("music_service".to_owned(), "spotify.com".to_owned()),
        ("submission_client".to_owned(), "spotify-importer".to_owned()),
        ("submission_client_version".to_owned(), "0.9".to_owned()),
        ("k".to_owned(), "v".to_owned()),
    ];
    let stamped = additional_info(&bag);
    assert_eq!(
        stamped,
        vec![
            ("music_service".to_owned(), "spotify.com".to_owned()),
            ("k".to_owned(), "v".to_owned()),
            ("submission_client".to_owned(), "lb-history-importer".to_owned()),
            ("submission_client_version".to_owned(), "0.1.0".to_owned()),
        ]
    );
}

#[test]
fn lb_entries_replace_stale_mbids() {
    let mut listen = lb_entry();
    listen
        .track_metadata
        .additional_info
        .push(("recording_mbid".to_owned(), "stale".to_owned()));
    let entries = listen.track_metadata.entries();
    let recording: Vec<&str> = entries
        .iter()
        .filter(|e| e.0 == "recording_mbid")
        .map(|e| e.1.as_str())
        .collect();
    // only the mapping's id remains
    assert_eq!(recording, vec!["b92334c4-574a-46f5-89d8-417fcd1e873f"]);
}

#[test]
fn payload_stamp_survives_reimport() {
    let mut listen = lb_entry();
    listen
        .track_metadata
        .additional_info
        .push(("submission_client".to_owned(), "spotify-importer".to_owned()));
    let p = listen.to_payload();
    let clients: Vec<&str> = p
        .additional_info
        .iter()
        .filter(|e| e.0 == "submission_client")
        .map(|e| e.1.as_str())
        .collect();
    assert_eq!(clients, vec!["lb-history-importer"]);
}

fn lb_entry() -> LBListen {
    LBListen {
        track_metadata: AdditionalInfo {
            track_name: "Angel With A Shotgun".to_owned(),
            artist_name: "The Cab".to_owned(),
            release_name: Some("Symphony Soldier".to_owned()),
            additional_info: vec![
                ("music_service".to_owned(), "spotify.com".to_owned()),
                (
                    "recording_msid".to_owned(),
                    "7407a60c-ba0e-4fcd-ba47-80194f002b20".to_owned(),
                ),
            ],
            mbid_mapping: MbidMapping {
                recording_mbid: "b92334c4-574a-46f5-89d8-417fcd1e873f".to_owned(),
                release_mbid: "c40291c6-4a66-4d96-a8a2-d144205c61b0".to_owned(),
                artist_mbids: vec!["91f7a868-d82e-4cfb-9cd9-a2ffd7faac25".to_owned()],
            },
        },
        listened_at: 1_669_318_360,
    }
}

#[test]
fn lb_normalize_and_entries() {
    let rec = lb_entry().normalize().expect("entry is valid");
    assert_eq!(rec.listened_at, 1_669_318_360);
    assert_eq!(rec.track_name, "Angel With A Shotgun");
    assert_eq!(rec.artist_name, "The Cab");
    assert_eq!(rec.release_name.as_deref(), Some("Symphony Soldier"));
    assert_eq!(rec.ms_played, None);
    assert_eq!(rec.track_identifier, None);
    assert_eq!(rec.end_reason, None);
    assert_eq!(
        rec.extra_metadata,
        vec![
            ("music_service".to_owned(), "spotify.com".to_owned()),
            (
                "recording_msid".to_owned(),
                "7407a60c-ba0e-4fcd-ba47-80194f002b20".to_owned(),
            ),
            (
                "recording_mbid".to_owned(),
                "b92334c4-574a-46f5-89d8-417fcd1e873f".to_owned(),
            ),
            (
                "release_mbid".to_owned(),
                "c40291c6-4a66-4d96-a8a2-d144205c61b0".to_owned(),
            ),
            (
                "artist_mbids".to_owned(),
                "91f7a868-d82e-4cfb-9cd9-a2ffd7faac25".to_owned(),
            ),
        ]
    );
}

#[test]
fn lb_payload_maps_names_and_stamps() {
    let listen = lb_entry();
    let p = listen.to_payload();
    assert_eq!(p.listened_at, 1_669_318_360);
    assert_eq!(p.track_name, "Angel With A Shotgun");
    assert_eq!(p.artist_name, "The Cab");
    assert_eq!(p.release_name.as_deref(), Some("Symphony Soldier"));
    let n = p.additional_info.len();
    assert_eq!(
        p.additional_info[n - 2].0,
        "submission_client".to_owned()
    );
    assert_eq!(p.additional_info[n - 1].1, "0.1.0".to_owned());
}

#[test]
fn lb_normalize_rejects_empty_names() {
    let mut listen = lb_entry();
    listen.track_metadata.track_name = String::new();
    let err = listen.normalize().expect_err("track is empty");
    assert_eq!(err.missing, HelperAttr::Track);

    let mut listen = lb_entry();
    listen.track_metadata.artist_name = String::new();
    let err = listen.normalize().expect_err("artist is empty");
    assert_eq!(err.missing, HelperAttr::Artist);
}

#[test]
fn end_reason_classification() {
    assert_eq!(EndReason::from_tag("trackdone"), EndReason::Trackdone);
    assert_eq!(EndReason::from_tag("fwdbtn"), EndReason::Fwdbtn);
    assert_eq!(EndReason::from_tag("unknown"), EndReason::Unknown);
    assert_eq!(
        EndReason::from_tag("unexpected-exit-while-paused"),
        EndReason::UnexpectedExitWhilePaused
    );
    assert_eq!(
        EndReason::from_tag("unexpected-shutdown"),
        EndReason::OtherUnexpected
    );
    // prefix must include the dash
    assert_eq!(EndReason::from_tag("unexpectedly"), EndReason::Other);
    assert_eq!(EndReason::from_tag("somethingelse"), EndReason::Other);

    for (tag, interrupts) in [
        ("appload", false),
        ("backbtn", false),
        ("clickrow", false),
        ("endplay", false),
        ("fwdbtn", false),
        ("logout", true),
        ("playbtn", false),
        ("remote", true),
        ("trackdone", false),
        ("trackerror", true),
        ("unexpected-exit", true),
        ("unexpected-exit-while-paused", true),
        ("unknown", true),
        ("unexpected-anything", true),
        ("somethingelse", false),
    ] {
        assert_eq!(
            EndReason::from_tag(tag).is_interruption(),
            interrupts,
            "tag {tag}"
        );
    }
}

#[test]
fn helper_attr_tags_round_trip() {
    for attr in [HelperAttr::Track, HelperAttr::Artist, HelperAttr::Release] {
        assert_eq!(HelperAttr::from_tag(attr.as_str()), Some(attr));
    }
    assert_eq!(HelperAttr::as_str(&HelperAttr::Track), "track");
    assert_eq!(HelperAttr::as_str(&HelperAttr::Artist), "artist");
    assert_eq!(HelperAttr::as_str(&HelperAttr::Release), "release");
    assert_eq!(HelperAttr::from_tag("payload"), None);
}

#[test]
fn string_helpers() {
    assert!(str_eq("abc", "abc"));
    assert!(!str_eq("abc", "abd"));
    assert!(!str_eq("abc", "ab"));
    assert!(str_starts_with("unexpected-exit", "unexpected-"));
    assert!(!str_starts_with("unexpected", "unexpected-"));
    assert!(str_starts_with("anything", ""));
}
