//! Trusted access to wall-clock time and timestamp parsing, through the
//! `chrono` crate. Everything time-dependent enters the library here.

use vstd::prelude::*;

verus! {

/// The epoch-seconds value that parsing an RFC 3339 text yields; a function
/// of the text alone. An unparsable text maps to the Unix epoch (zero).
pub uninterp spec fn rfc3339_epoch_of(s: Seq<char>) -> i64;

/// Relies on `chrono::Utc::now`: the current wall-clock instant. Nothing is
/// promised of its value beyond `chrono`'s own range: the call does not
/// return on a clock before the Unix epoch or past `chrono`'s last
/// representable year, so every returned timestamp lies between zero and
/// 8_210_266_876_799, the timestamp of that range's final second.
#[verifier::external_body]
pub fn now_epoch() -> (r: i64)
    ensures
        0 <= r <= 8_210_266_876_799,
{
    chrono::Utc::now().timestamp()
}

/// Relies on `chrono::DateTime::parse_from_rfc3339`: deterministic in the
/// text; a parse failure falls back to the Unix epoch, as the ingestion job
/// has always treated malformed deadlines.
#[verifier::external_body]
pub fn parse_rfc3339_epoch(s: &str) -> (r: i64)
    ensures
        r == rfc3339_epoch_of(s@),
{
    chrono::DateTime::parse_from_rfc3339(s).map(|d| d.timestamp()).unwrap_or(0)
}

} // verus!
