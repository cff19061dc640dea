//! Parsing of wire timestamps.
//!
//! Message and ban records carry their creation and expiry instants as
//! RFC 3339 strings; the engine orders and compares them by their value in
//! milliseconds since the Unix epoch.

use vstd::prelude::*;

verus! {

/// The value of an RFC 3339 timestamp string as non-leap milliseconds since
/// the Unix epoch, or `None` where the string is not a valid RFC 3339
/// timestamp. The result depends on the characters of the string alone.
pub uninterp spec fn rfc3339_millis(s: Seq<char>) -> Option<i64>;

/// Relies on chrono's `DateTime::parse_from_rfc3339` (a deterministic parse
/// of the string alone) and `timestamp_millis` for the epoch value.
#[verifier::external_body]
pub(crate) fn parse_rfc3339_millis(s: &str) -> (r: Option<i64>)
    ensures
        r == rfc3339_millis(s@),
{
    match chrono::DateTime::parse_from_rfc3339(s) {
        Ok(dt) => Some(dt.timestamp_millis()),
        Err(_) => None,
    }
}

} // verus!
