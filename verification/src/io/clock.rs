//! The clock reading written into native files.
use vstd::prelude::*;

verus! {

/// The current UTC time in RFC 3339 form (the Unix epoch for a clock set
/// before it; empty past the dates chrono can represent).
///
/// Trusted: reads `std::time::SystemTime::now` since the epoch, builds the
/// date with `chrono::DateTime::from_timestamp` and writes it with
/// `to_rfc3339`; none of these panics. Nothing is claimed of the text, which
/// depends on the clock.
#[verifier::external_body]
pub(crate) fn utc_now_rfc3339() -> (r: String) {
    let d = std::time::SystemTime::now().duration_since(std::time::UNIX_EPOCH).unwrap_or_default();
    chrono::DateTime::from_timestamp(d.as_secs() as i64, d.subsec_nanos()).map(|t| t.to_rfc3339()).unwrap_or_default()
}

} // verus!
