//! Helpers of the page templates.
use vstd::prelude::*;

use crate::text::{chars_of, copy_string, string_from_chars, substring};
use crate::web::{ends_with, has_suffix};

verus! {

/// A stored timestamp as the date parser takes it: a trailing `:00` (the
/// seconds of the offset) is dropped from a text longer than six bytes.
pub open spec fn normalized_timestamp(s: &str) -> Seq<char> {
    if s.len() > 6 && ends_with(s@, ":00"@) {
        s@.subrange(0, s@.len() - 3)
    } else {
        s@
    }
}

/// Drops the seconds of the offset from a stored timestamp, e.g.
/// `2025-08-27 14:49:07.498643 +00:00:00` becomes
/// `2025-08-27 14:49:07.498643 +00:00`.
pub fn normalize_timestamp(time_str: &str) -> (r: String)
    ensures
        r@ == normalized_timestamp(time_str),
{
    let c = chars_of(time_str);
    let suffix = chars_of(":00");
    proof {
        reveal_strlit(":00");
    }
    if time_str.len() > 6 && has_suffix(c.as_slice(), suffix.as_slice()) {
        substring(c.as_slice(), 0, c.len() - 3)
    } else {
        string_from_chars(c.as_slice())
    }
}

/// The layout, in chrono's strftime-style language, of a timestamp as the
/// database writes it (after `normalize_timestamp`).
pub const TIMESTAMP_FORMAT: &'static str = "%Y-%m-%d %H:%M:%S%.f %z";

/// The first second chrono represents: -262143-01-01T00:00:00 UTC.
pub const CHRONO_MIN_SECS: i64 = -8334601228800;
/// The last second chrono represents: +262142-12-31T23:59:59 UTC.
pub const CHRONO_MAX_SECS: i64 = 8210266876799;

/// Whether `chrono::DateTime::from_timestamp` represents the instant
/// `secs` seconds and `nanos` nanoseconds after the Unix epoch: the day
/// lies between the first and the last date chrono has, and the
/// nanoseconds stay under a second, or under two in the last second of a
/// minute (a leap second).
pub open spec fn chrono_represents(secs: i64, nanos: u32) -> bool {
    &&& CHRONO_MIN_SECS <= secs <= CHRONO_MAX_SECS
    &&& (nanos < 1_000_000_000 || (nanos < 2_000_000_000 && secs % 60 == 59))
}

/// The instant that chrono reads from `s` laid out as the format `fmt`, as
/// seconds and nanoseconds since the Unix epoch, or `None` when it reads
/// no date, time and offset.
pub uninterp spec fn chrono_instant(s: Seq<char>, fmt: Seq<char>) -> Option<(i64, u32)>;

/// Calls `chrono::DateTime::parse_from_str` and gives the instant read as
/// `timestamp` and `timestamp_subsec_nanos`. The result is named by
/// `chrono_instant`; chrono documents that `from_timestamp` takes such a
/// pair back.
#[verifier::external_body]
fn parse_with_format(s: &str, fmt: &str) -> (r: Option<(i64, u32)>)
    ensures
        r == chrono_instant(s@, fmt@),
        r matches Some(v) ==> chrono_represents(v.0, v.1),
{
    match chrono::DateTime::parse_from_str(s, fmt) {
        Ok(t) => Some((t.timestamp(), t.timestamp_subsec_nanos())),
        Err(_) => None,
    }
}

/// What chrono reads from `s` as an RFC 3339 date and time: the instant,
/// as seconds and nanoseconds since the Unix epoch, or the text of its
/// error.
pub uninterp spec fn rfc3339_read(s: Seq<char>) -> Result<(i64, u32), Seq<char>>;

/// Calls `chrono::DateTime::parse_from_rfc3339`; the instant is given as
/// `timestamp` and `timestamp_subsec_nanos`, an error as its text. Both are
/// named by `rfc3339_read`.
#[verifier::external_body]
fn parse_rfc3339(s: &str) -> (r: Result<(i64, u32), String>)
    ensures
        match r {
            Ok(v) => rfc3339_read(s@) == Ok::<(i64, u32), Seq<char>>(v) && chrono_represents(v.0, v.1),
            Err(e) => rfc3339_read(s@) == Err::<(i64, u32), Seq<char>>(e@),
        },
{
    match chrono::DateTime::parse_from_rfc3339(s) {
        Ok(t) => Ok((t.timestamp(), t.timestamp_subsec_nanos())),
        Err(e) => Err(e.to_string()),
    }
}

/// The current instant as `chrono::Utc::now` reads the clock, as
/// `timestamp` and `timestamp_subsec_nanos`. Any instant may come back;
/// chrono documents that `from_timestamp` takes such a pair back.
#[verifier::external_body]
fn utc_now() -> (r: (i64, u32))
    ensures
        chrono_represents(r.0, r.1),
{
    let t = chrono::Utc::now();
    (t.timestamp(), t.timestamp_subsec_nanos())
}

/// The words `chrono_humanize::HumanTime` writes for the instant `at` seen
/// from the instant `now` (both as seconds and nanoseconds since the Unix
/// epoch), e.g. "2 hours ago".
pub uninterp spec fn human_text(at: (i64, u32), now: (i64, u32)) -> Seq<char>;

/// Calls `chrono::DateTime::from_timestamp` on both instants,
/// `signed_duration_since` for the time from `now` to `at`, and writes that
/// out with `chrono_humanize::HumanTime::from` (what `HumanTime::from` does
/// with an instant and the clock). The words are named by `human_text`.
#[verifier::external_body]
fn humanize_at(at: (i64, u32), now: (i64, u32)) -> (r: Option<String>)
    ensures
        r is Some <==> (chrono_represents(at.0, at.1) && chrono_represents(now.0, now.1)),
        r matches Some(t) ==> human_text(at, now) == t@,
{
    match (chrono::DateTime::from_timestamp(at.0, at.1), chrono::DateTime::from_timestamp(now.0, now.1)) {
        (Some(a), Some(n)) => Some(chrono_humanize::HumanTime::from(a.signed_duration_since(n)).to_string()),
        _ => None,
    }
}

/// The message of a timestamp that no layout reads.
pub open spec fn parse_failure(time_str: Seq<char>, e: Seq<char>) -> Seq<char> {
    "Failed to parse timestamp '"@ + time_str + "': "@ + e
}

/// The message of a timestamp `time_str` that no layout reads, where the
/// last attempt failed with `e`.
pub fn parse_failure_message(time_str: &str, e: &str) -> (r: String)
    ensures
        r@ == parse_failure(time_str@, e@),
{
    copy_string("Failed to parse timestamp '").concat(time_str).concat("': ").concat(e)
}

/// What a stored timestamp says, once normalized: the instant chrono reads
/// in the database layout, or else the instant it reads as RFC 3339, or
/// else the RFC 3339 error.
pub open spec fn stored_reading(time_str: &str) -> Result<(i64, u32), Seq<char>> {
    match chrono_instant(normalized_timestamp(time_str), TIMESTAMP_FORMAT@) {
        Some(v) => Ok(v),
        None => rfc3339_read(normalized_timestamp(time_str)),
    }
}

/// The instant a stored timestamp names, as seconds and nanoseconds since
/// the Unix epoch: the timestamp is normalized, then read in the database
/// layout or else as RFC 3339; when neither reads it, the error names the
/// timestamp and the RFC 3339 error.
pub fn stored_instant(time_str: &str) -> (r: Result<(i64, u32), String>)
    ensures
        match stored_reading(time_str) {
            Ok(v) => r == Ok::<(i64, u32), String>(v) && chrono_represents(v.0, v.1),
            Err(e) => r matches Err(m) && m@ == parse_failure(time_str@, e),
        },
{
    let normalized = normalize_timestamp(time_str);
    match parse_with_format(normalized.as_str(), TIMESTAMP_FORMAT) {
        Some(t) => Ok(t),
        None => match parse_rfc3339(normalized.as_str()) {
            Ok(t) => Ok(t),
            Err(e) => Err(parse_failure_message(time_str, e.as_str())),
        },
    }
}

/// How far a stored timestamp lies from the instant `now`, in words.
pub fn time_ago_at(time_str: &str, now: (i64, u32)) -> (r: Result<String, String>)
    requires
        chrono_represents(now.0, now.1),
    ensures
        match stored_reading(time_str) {
            Ok(v) => r matches Ok(t) && t@ == human_text(v, now),
            Err(e) => r matches Err(m) && m@ == parse_failure(time_str@, e),
        },
{
    match stored_instant(time_str) {
        Ok(at) => Ok(humanize_at(at, now).unwrap()),
        Err(m) => Err(m),
    }
}

/// How long ago (or ahead) a stored timestamp lies, in words, seen from the
/// clock's current instant (whatever it reads).
pub fn time_ago(time_str: &str) -> (r: Result<String, String>)
    ensures
        match stored_reading(time_str) {
            Ok(v) => r matches Ok(t) && exists|now: (i64, u32)|
                chrono_represents(now.0, now.1) && t@ == human_text(v, now),
            Err(e) => r matches Err(m) && m@ == parse_failure(time_str@, e),
        },
{
    let now = utc_now();
    time_ago_at(time_str, now)
}

/// The name the pages give the application.
pub const APPLICATION: &'static str = "Bridge";
/// The version the pages show.
pub const APPLICATION_VERSION: &'static str = "v0.1.0";

/// The values every page template sees, by name: the application and its
/// version, and the configured name, company and description.
pub fn page_context(app_name: &str, company: &str, description: &str) -> (r: Vec<
    (&'static str, String),
>)
    ensures
        r@.len() == 5,
        r@[0].0@ == "application"@ && r@[0].1@ == APPLICATION@,
        r@[1].0@ == "application_version"@ && r@[1].1@ == APPLICATION_VERSION@,
        r@[2].0@ == "app_name"@ && r@[2].1@ == app_name@,
        r@[3].0@ == "company"@ && r@[3].1@ == company@,
        r@[4].0@ == "description"@ && r@[4].1@ == description@,
{
    let mut r: Vec<(&'static str, String)> = Vec::new();
    r.push(("application", copy_string(APPLICATION)));
    r.push(("application_version", copy_string(APPLICATION_VERSION)));
    r.push(("app_name", copy_string(app_name)));
    r.push(("company", copy_string(company)));
    r.push(("description", copy_string(description)));
    r
}

} // verus!
