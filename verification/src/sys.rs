//! The two host-side facts an envelope records at construction: a fresh
//! unique identifier and the current time.

use vstd::prelude::*;

verus! {

/// What chrono prints for a Unix timestamp as a whole-second UTC RFC 3339
/// string: a function of the timestamp alone.
pub uninterp spec fn rfc3339_utc_secs(ts: int) -> Seq<char>;

/// Relies on uuid::Uuid::new_v4 and its Display impl: a random (version 4)
/// identifier printed in the 36-character hyphenated form.
#[verifier::external_body]
pub(crate) fn fresh_uuid_string() -> (r: String)
    ensures
        r@.len() == 36,
{
    uuid::Uuid::new_v4().to_string()
}

/// Relies on chrono::Utc::now: the current wall-clock time as Unix seconds.
#[verifier::external_body]
pub(crate) fn now_unix_seconds() -> (r: i64) {
    chrono::Utc::now().timestamp()
}

/// Relies on chrono::DateTime::from_timestamp and to_rfc3339_opts with
/// whole-second precision and a `Z` suffix; a timestamp outside chrono's
/// range yields the empty string. The result depends on `ts` alone.
#[verifier::external_body]
pub(crate) fn format_utc_secs(ts: i64) -> (r: String)
    ensures
        r@ == rfc3339_utc_secs(ts as int),
{
    match chrono::DateTime::<chrono::Utc>::from_timestamp(ts, 0) {
        Some(dt) => dt.to_rfc3339_opts(chrono::SecondsFormat::Secs, true),
        None => String::new(),
    }
}

/// What str::to_lowercase returns: a function of the characters alone.
pub uninterp spec fn lower_of(s: Seq<char>) -> Seq<char>;

/// Relies on str::to_lowercase: the result depends on the characters alone,
/// and an empty string stays empty.
#[verifier::external_body]
pub(crate) fn lowercase(s: &str) -> (r: String)
    ensures
        r@ == lower_of(s@),
        s@.len() == 0 ==> r@.len() == 0,
{
    s.to_lowercase()
}

/// What str::to_uppercase returns: a function of the characters alone.
pub uninterp spec fn upper_of(s: Seq<char>) -> Seq<char>;

/// Relies on str::to_uppercase: the result depends on the characters alone,
/// and an empty string stays empty.
#[verifier::external_body]
pub(crate) fn uppercase(s: &str) -> (r: String)
    ensures
        r@ == upper_of(s@),
        s@.len() == 0 ==> r@.len() == 0,
{
    s.to_uppercase()
}

} // verus!
