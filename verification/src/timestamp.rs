//! Reading RFC 3339 timestamps through chrono, behind a named result.

use vstd::prelude::*;

verus! {

/// The epoch second named by the RFC 3339 timestamp `s`, if `s` is one.
pub uninterp spec fn rfc3339_epoch(s: Seq<char>) -> Option<int>;

/// Relies on chrono::DateTime::parse_from_rfc3339 and DateTime::timestamp:
/// parses an RFC 3339 timestamp and returns the epoch second it names; the
/// result depends on the text alone.
#[verifier::external_body]
pub(crate) fn parse_rfc3339_epoch(s: &str) -> (r: Option<i64>)
    ensures
        match r {
            Some(t) => rfc3339_epoch(s@) == Some(t as int),
            None => rfc3339_epoch(s@) is None,
        },
{
    match chrono::DateTime::parse_from_rfc3339(s) {
        Ok(d) => Some(d.timestamp()),
        Err(_) => None,
    }
}

} // verus!
