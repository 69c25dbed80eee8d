//! Timestamps as text.
//!
//! The store keeps a timestamp as milliseconds since the Unix epoch; the
//! rendered page shows it in the notation of RFC 3339. Both directions are
//! chrono's.

use crate::state::Timestamp;
use vstd::prelude::*;

verus! {

/// The RFC 3339 notation that chrono writes for the instant `millis`
/// milliseconds after the Unix epoch, in UTC; `None` where chrono cannot
/// represent the instant.
pub uninterp spec fn rfc3339_of(millis: Timestamp) -> Option<Seq<char>>;

/// The instant that chrono reads from a text in RFC 3339 notation, in
/// milliseconds since the Unix epoch; `None` where chrono rejects the text.
pub uninterp spec fn instant_of(text: Seq<char>) -> Option<Timestamp>;

/// `DateTime::from_timestamp_millis` and, on the instant it gives,
/// `DateTime::to_rfc3339`. The first answers `None` for a number of
/// milliseconds that is out of its range. The contract names the result.
#[verifier::external_body]
pub(crate) fn to_rfc3339(millis: Timestamp) -> (text: Option<String>)
    ensures
        match text {
            Some(written) => rfc3339_of(millis) == Some(written@),
            None => rfc3339_of(millis) is None,
        },
{
    match chrono::DateTime::from_timestamp_millis(millis) {
        Some(instant) => Some(instant.to_rfc3339()),
        None => None,
    }
}

/// `DateTime::parse_from_rfc3339` and, on the instant it gives,
/// `DateTime::timestamp_millis`. The contract names the result.
#[verifier::external_body]
pub(crate) fn parse_rfc3339(text: &str) -> (millis: Option<Timestamp>)
    ensures
        millis == instant_of(text@),
{
    match chrono::DateTime::parse_from_rfc3339(text) {
        Ok(instant) => Some(instant.timestamp_millis()),
        Err(_) => None,
    }
}

} // verus!
