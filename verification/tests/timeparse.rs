//! Window-bound parsing and re-run hint rendering.

use lb_importer::datetime::{parse_datetime, parse_entry_datetime};
use lb_importer::submit::RerunHint;

// 2018-07-10T06:58:55Z
const FULL_TIME: i64 = 1_531_205_935;
// 2018-07-10 06:58 taken as UTC
const SIMPLE_TIME_UTC: i64 = 1_531_205_880;

#[test]
fn parse_rfc3339_bound() {
    assert_eq!(parse_datetime("2018-07-10T06:58:55Z"), Some(FULL_TIME));
    // an explicit offset shifts the instant
    assert_eq!(
        parse_datetime("2018-07-10T06:58:55+02:00"),
        Some(FULL_TIME - 7200)
    );
    assert_eq!(parse_datetime("1970-01-01T00:00:00Z"), Some(0));
}

#[test]
fn parse_fallback_patterns_read_local_dates() {
    // The fallback readings depend on the machine's local offset, which the
    // underlying crate bounds to 25:59:59 either side of UTC and may also
    // fail to determine; within that, each pattern pins the instant.
    for (input, utc) in [
        ("2018-07-10 06:58:55", FULL_TIME),
        ("2018-07-10 06:58", SIMPLE_TIME_UTC),
        ("2018-07-10 06", SIMPLE_TIME_UTC - 58 * 60),
        ("2018-07-10", SIMPLE_TIME_UTC - 6 * 3600 - 58 * 60),
    ] {
        match parse_datetime(input) {
            Some(v) => assert!(
                utc - 93_599 <= v && v <= utc + 93_599,
                "reading of {input} out of range: {v}"
            ),
            None => {}
        }
    }
}

#[test]
fn parse_rejects_nonsense() {
    assert_eq!(parse_datetime("not a date"), None);
    assert_eq!(parse_datetime(""), None);
    assert_eq!(parse_datetime("2018-13-40"), None);
    assert_eq!(parse_datetime("10.07.2018"), None);
}

#[test]
fn rerun_hint_renders_copyable_bounds() {
    let hint = RerunHint { after: 1000, before: 2000 };
    assert_eq!(
        hint.message().expect("timestamps are representable"),
        "Rerun batch using: --after 1970-01-01T00:16:40Z --before 1970-01-01T00:33:20Z"
    );
    let hint = RerunHint { after: 1_531_090_963, before: 1_531_205_935 };
    assert_eq!(
        hint.message().expect("timestamps are representable"),
        "Rerun batch using: --after 2018-07-08T23:02:43Z --before 2018-07-10T06:58:55Z"
    );
    // far beyond year 9999 there is no RFC 3339 rendering
    let hint = RerunHint { after: 0, before: i64::MAX };
    assert_eq!(hint.message(), None);
}

#[test]
fn parse_entry_timestamps_are_utc() {
    // entry timestamps never involve the machine's offset
    assert_eq!(parse_entry_datetime("2018-07-10T06:58:55Z"), Some(FULL_TIME));
    assert_eq!(parse_entry_datetime("2018-07-10 06:58"), Some(SIMPLE_TIME_UTC));
    assert_eq!(parse_entry_datetime("not a date"), None);
    assert_eq!(parse_entry_datetime("2018-07-10"), None);
}
