//! Reading the stored modification times.

use vstd::prelude::*;

verus! {

/// The instant that an RFC 3339 date-time text denotes, in nanoseconds
/// relative to the UNIX epoch: `None` when the text is not an RFC 3339
/// date-time, or when the instant lies outside the nanoseconds that an
/// `i64` holds.
pub uninterp spec fn rfc3339_nanos(text: Seq<char>) -> Option<i64>;

/// chrono's `DateTime::parse_from_rfc3339`, its instant read with
/// `DateTime::timestamp_nanos_opt`: the result is `rfc3339_nanos` of the
/// text, which depends on the text alone (the offset is the text's own).
#[verifier::external_body]
pub(crate) fn parse_rfc3339_nanos(text: &str) -> (r: Option<i64>)
    ensures
        r == rfc3339_nanos(text@),
{
    match chrono::DateTime::parse_from_rfc3339(text) {
        Ok(t) => t.timestamp_nanos_opt(),
        Err(_) => None,
    }
}

} // verus!
