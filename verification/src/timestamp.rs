//! Instants written as RFC 3339 timestamps.

use vstd::prelude::*;

verus! {

/// The whole minutes from the instant that `earlier` writes to the instant
/// that `later` writes, both as RFC 3339 timestamps, counted towards zero;
/// nothing where either text is no RFC 3339 timestamp.
pub uninterp spec fn rfc3339_minutes_between(later: Seq<char>, earlier: Seq<char>) -> Option<i64>;

/// Reads both texts with chrono's `DateTime::parse_from_rfc3339`, takes the
/// first instant less the second with `DateTime::signed_duration_since`, and
/// counts the whole minutes of that with `TimeDelta::num_minutes`. Is nothing
/// where either text fails to parse. The contract claims that the outcome
/// depends on the two texts alone, and gives it its name.
#[verifier::external_body]
pub(crate) fn minutes_between(later: &str, earlier: &str) -> (r: Option<i64>)
    ensures
        r == rfc3339_minutes_between(later@, earlier@),
{
    match (
        chrono::DateTime::parse_from_rfc3339(later),
        chrono::DateTime::parse_from_rfc3339(earlier),
    ) {
        (Ok(later), Ok(earlier)) => Some(later.signed_duration_since(earlier).num_minutes()),
        _ => None,
    }
}

} // verus!
