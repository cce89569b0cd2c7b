//! The calls that the library makes into other crates, each with the
//! contract that it relies on.

use vstd::prelude::*;

use crate::models::Timestamp;
use chrono::{DateTime, Utc};
use fuzzy_matcher::skim::SkimMatcherV2;
use fuzzy_matcher::FuzzyMatcher;

verus! {

/// What std's `str::to_uppercase` makes of a string.
pub uninterp spec fn upper_of(s: Seq<char>) -> Seq<char>;

/// What chrono's `format` writes for the instant `(secs, nanos)` under a
/// strftime pattern, or `None` where chrono cannot represent the instant.
pub uninterp spec fn utc_format(secs: i64, nanos: u32, pattern: Seq<char>) -> Option<Seq<char>>;

/// The score that fuzzy-matcher's `SkimMatcherV2` (default settings) gives
/// the pattern `query` in the text `haystack`, `None` where it does not match.
pub uninterp spec fn skim_score(haystack: Seq<char>, query: Seq<char>) -> Option<i64>;

/// Relies on chrono's `Utc::now`, read back through `timestamp` and
/// `timestamp_subsec_nanos`: the current time. Nothing is promised of it.
/// (`Utc::now` panics only where the system clock reads before 1970.)
#[verifier::external_body]
pub(crate) fn now() -> (r: Timestamp) {
    let t = Utc::now();
    Timestamp { secs: t.timestamp(), nanos: t.timestamp_subsec_nanos() }
}

/// Relies on uuid's `Uuid::new_v4` and its `Display`: a random identifier
/// written in the hyphenated form, 36 characters long. (`new_v4` panics
/// only where the system gives no random bytes.)
#[verifier::external_body]
pub(crate) fn new_id() -> (r: String)
    ensures
        r@.len() == 36,
{
    uuid::Uuid::new_v4().to_string()
}

/// Relies on std's `str::to_uppercase`: the result depends on the
/// characters alone.
#[verifier::external_body]
pub(crate) fn to_upper(s: &str) -> (r: String)
    ensures
        r@ == upper_of(s@),
{
    s.to_uppercase()
}

/// Relies on chrono's `DateTime::from_timestamp` (which gives `None` out of
/// chrono's range) and `DateTime::format`, for the two patterns used here.
#[verifier::external_body]
pub(crate) fn format_utc(secs: i64, nanos: u32, pattern: &str) -> (r: Option<String>)
    requires
        pattern@ == "%b %d, %Y"@ || pattern@ == "%H:%M"@,
    ensures
        r is Some <==> utc_format(secs, nanos, pattern@) is Some,
        r is Some ==> utc_format(secs, nanos, pattern@) == Some(r->0@),
{
    match DateTime::<Utc>::from_timestamp(secs, nanos) {
        Some(t) => Some(t.format(pattern).to_string()),
        None => None,
    }
}

/// Relies on fuzzy-matcher's `SkimMatcherV2::fuzzy_match` with the
/// matcher's default settings: the score depends on the two texts alone.
#[verifier::external_body]
pub(crate) fn fuzzy_score(haystack: &str, query: &str) -> (r: Option<i64>)
    ensures
        r == skim_score(haystack@, query@),
{
    SkimMatcherV2::default().fuzzy_match(haystack, query)
}

} // verus!
