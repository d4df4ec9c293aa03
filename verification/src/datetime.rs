//! Timestamp parsing and rendering, through the `time` crate.
//!
//! A window bound on the command line is read as RFC 3339 first, then
//! through a family of fallback date/time patterns down to a bare date,
//! taken in the machine's local offset. The re-run hint of a rejected batch
//! renders its bounds back as RFC 3339 so they can be copied into the same
//! inputs.

use vstd::prelude::*;
use vstd::string::StringExecFns;
use crate::submit::RerunHint;

verus! {

/// The instant an RFC 3339 string denotes, as unix seconds, if it is one.
pub uninterp spec fn rfc3339_timestamp(s: Seq<char>) -> Option<i64>;

/// The instant a string denotes under a fallback pattern, read as UTC.
pub uninterp spec fn pattern_timestamp(pattern: Seq<char>, s: Seq<char>) -> Option<i64>;

/// The instant a bare `[year]-[month]-[day]` string denotes, midnight UTC.
pub uninterp spec fn date_timestamp(s: Seq<char>) -> Option<i64>;

/// The RFC 3339 rendering of a unix timestamp, if it has one.
pub uninterp spec fn rfc3339_render(ts: i64) -> Option<Seq<char>>;

/// Relies on `time::OffsetDateTime::parse` with the well-known RFC 3339
/// format: the result is a function of the input string alone, and every
/// representable instant lies within the crate's year range -9999..=9999,
/// shifted by at most the largest representable offset of 25:59:59.
#[verifier::external_body]
fn parse_rfc3339(s: &str) -> (r: Option<i64>)
    ensures
        r == rfc3339_timestamp(s@),
        r matches Some(ts) ==> -377705296799 <= ts <= 253402394398,
{
    time::OffsetDateTime::parse(s, &time::format_description::well_known::Rfc3339).ok().map(
        |dt| dt.unix_timestamp(),
    )
}

/// Relies on `time::format_description::parse` and
/// `time::PlainDateTime::parse`: both are functions of their inputs alone,
/// the parsed value is taken as UTC, and every representable instant lies
/// within the crate's year range -9999..=9999.
#[verifier::external_body]
fn parse_pattern_utc(pattern: &str, s: &str) -> (r: Option<i64>)
    ensures
        r == pattern_timestamp(pattern@, s@),
        r matches Some(ts) ==> -377705203200 <= ts <= 253402300799,
{
    let fmt = match time::format_description::parse(pattern) {
        Ok(f) => f,
        Err(_) => return None,
    };
    time::PlainDateTime::parse(s, &fmt).ok().map(|dt| dt.assume_utc().unix_timestamp())
}

/// Relies on `time::format_description::parse`, `time::Date::parse` and
/// `Date::with_hms`: functions of the input alone; midnight UTC of every
/// representable date lies within the crate's year range -9999..=9999.
#[verifier::external_body]
fn parse_date_utc(s: &str) -> (r: Option<i64>)
    ensures
        r == date_timestamp(s@),
        r matches Some(ts) ==> -377705203200 <= ts <= 253402300799,
{
    let fmt = match time::format_description::parse("[year]-[month]-[day]") {
        Ok(f) => f,
        Err(_) => return None,
    };
    time::Date::parse(s, &fmt).ok().and_then(|d| d.with_hms(0, 0, 0).ok()).map(
        |dt| dt.assume_utc().unix_timestamp(),
    )
}

/// Relies on `time::UtcOffset::current_local_offset`: the machine's local
/// offset, which the crate bounds to at most 25:59:59 either side of UTC;
/// nothing more holds of the outcome.
#[verifier::external_body]
fn local_offset_seconds() -> (r: Option<i64>)
    ensures
        r matches Some(off) ==> -93599 <= off <= 93599,
{
    time::UtcOffset::current_local_offset().ok().map(|o| o.whole_seconds() as i64)
}

/// Relies on `time::OffsetDateTime::from_unix_timestamp` and formatting
/// with the well-known RFC 3339 format: the rendering is a function of the
/// timestamp alone, and succeeds at least from the epoch through
/// 9999-12-31T23:59:59Z, the range RFC 3339 can express with nonnegative
/// timestamps.
#[verifier::external_body]
fn format_rfc3339_ts(ts: i64) -> (r: Option<String>)
    ensures
        match r {
            Some(s) => rfc3339_render(ts) == Some(s@),
            None => rfc3339_render(ts) is None,
        },
        0 <= ts <= 253402300799 ==> r is Some,
{
    time::OffsetDateTime::from_unix_timestamp(ts).ok().and_then(
        |dt| dt.format(&time::format_description::well_known::Rfc3339).ok(),
    )
}

/// The reading of a window bound under the fallback patterns, as UTC: the
/// most specific pattern that accepts it, down to a bare date.
pub open spec fn fallback_timestamp(s: Seq<char>) -> Option<i64> {
    if pattern_timestamp("[year]-[month]-[day] [hour]:[minute]:[second]"@, s) is Some {
        pattern_timestamp("[year]-[month]-[day] [hour]:[minute]:[second]"@, s)
    } else if pattern_timestamp("[year]-[month]-[day] [hour]:[minute]"@, s) is Some {
        pattern_timestamp("[year]-[month]-[day] [hour]:[minute]"@, s)
    } else if pattern_timestamp("[year]-[month]-[day] [hour]"@, s) is Some {
        pattern_timestamp("[year]-[month]-[day] [hour]"@, s)
    } else {
        date_timestamp(s)
    }
}

/// Parse a window bound: RFC 3339 first, then the fallback patterns.
///
/// An RFC 3339 bound never depends on the machine. A fallback bound is the
/// pattern's UTC reading shifted into the machine's local offset, so it is
/// pinned only to within the largest representable offset, and is `None`
/// when that offset cannot be determined.
pub fn parse_datetime(s: &str) -> (r: Option<i64>)
    ensures
        rfc3339_timestamp(s@) is Some ==> r == rfc3339_timestamp(s@),
        rfc3339_timestamp(s@) is None ==> match fallback_timestamp(s@) {
            Some(t) => r is None || (r matches Some(v) && t - 93599 <= v <= t + 93599),
            None => r is None,
        },
{
    if let Some(ts) = parse_rfc3339(s) {
        return Some(ts);
    }
    let utc = if let Some(t) = parse_pattern_utc("[year]-[month]-[day] [hour]:[minute]:[second]", s) {
        t
    } else if let Some(t) = parse_pattern_utc("[year]-[month]-[day] [hour]:[minute]", s) {
        t
    } else if let Some(t) = parse_pattern_utc("[year]-[month]-[day] [hour]", s) {
        t
    } else if let Some(t) = parse_date_utc(s) {
        t
    } else {
        return None;
    };
    let off = match local_offset_seconds() {
        Some(o) => o,
        None => return None,
    };
    Some(utc - off)
}

/// Parse the timestamp string of one dump entry: RFC 3339 first, then the
/// simple `[year]-[month]-[day] [hour]:[minute]` layout the streaming
/// history writes, taken as UTC.
pub fn parse_entry_datetime(s: &str) -> (r: Option<i64>)
    ensures
        r == (if rfc3339_timestamp(s@) is Some {
            rfc3339_timestamp(s@)
        } else {
            pattern_timestamp("[year]-[month]-[day] [hour]:[minute]"@, s@)
        }),
{
    match parse_rfc3339(s) {
        Some(ts) => Some(ts),
        None => parse_pattern_utc("[year]-[month]-[day] [hour]:[minute]", s),
    }
}

impl RerunHint {
    /// The diagnostic line for a rejected batch, its window bounds rendered
    /// as RFC 3339 so they can be copied back into the `after` and `before`
    /// inputs. `None` when a bound has no RFC 3339 rendering.
    pub fn message(&self) -> (r: Option<String>)
        ensures
            match (rfc3339_render(self.after), rfc3339_render(self.before)) {
                (Some(a), Some(b)) => r matches Some(m) && m@ == "Rerun batch using: --after "@ + a
                    + " --before "@ + b,
                _ => r is None,
            },
    {
        let a = match format_rfc3339_ts(self.after) {
            Some(a) => a,
            None => return None,
        };
        let b = match format_rfc3339_ts(self.before) {
            Some(b) => b,
            None => return None,
        };
        let mut m = "Rerun batch using: --after ".to_owned();
        m.append(a.as_str());
        m.append(" --before ");
        m.append(b.as_str());
        Some(m)
    }
}

} // verus!
