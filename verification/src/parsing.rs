//! Calls into the date and URL parsers that listings use to check their input.
use vstd::prelude::*;

verus! {

/// What `chrono` makes of an RFC 3339 date: its instant in nanoseconds since
/// 1970-01-01 UTC, or `None` when the text is no RFC 3339 date or the instant
/// does not fit in an `i64`.
pub uninterp spec fn rfc3339_timestamp_nanos(s: Seq<char>) -> Option<i64>;

/// Whether the `url` crate parses the text as an absolute URL.
pub uninterp spec fn url_parses(s: Seq<char>) -> bool;

/// Calls `chrono::DateTime::parse_from_rfc3339` and then
/// `DateTime::timestamp_nanos_opt` on the result. The contract only names the
/// outcome: it is the same for the same text, and nothing more is claimed.
#[verifier::external_body]
pub(crate) fn parse_rfc3339_nanos(s: &str) -> (r: Option<i64>)
    ensures
        r == rfc3339_timestamp_nanos(s@),
{
    match chrono::DateTime::parse_from_rfc3339(s) {
        Ok(d) => d.timestamp_nanos_opt(),
        Err(_) => None,
    }
}

/// Calls `url::Url::parse` and reports whether it succeeded. The contract
/// only names the outcome as a function of the text.
#[verifier::external_body]
pub(crate) fn is_valid_url(s: &str) -> (b: bool)
    ensures
        b == url_parses(s@),
{
    url::Url::parse(s).is_ok()
}

} // verus!
