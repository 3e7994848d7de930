//! RFC3339 rendering of an HTLC's resolve timestamp.
//!
//! The calendar arithmetic is done by the `time` crate behind a trusted
//! wrapper. Its result is a pure function of the timestamp, so it is given
//! the name [`rfc3339_bytes`]; contracts downstream speak of that name.

use vstd::prelude::*;
use vstd::utf8::*;

verus! {

/// UTF-8 bytes of the RFC3339 rendering (`YYYY-MM-DDThh:mm:ssZ`) of a unix
/// timestamp, for timestamps whose year falls in 0000..=9999.
pub uninterp spec fn rfc3339_bytes(t: int) -> Seq<u8>;

/// Unix timestamp of 0000-01-01T00:00:00Z, the earliest second RFC3339
/// rendering accepts.
pub const RFC3339_MIN_TIMESTAMP: i64 = -62167219200;

/// Unix timestamp of 9999-12-31T23:59:59Z, the latest second RFC3339
/// rendering accepts.
pub const RFC3339_MAX_TIMESTAMP: i64 = 253402300799;

/// Relies on time::OffsetDateTime::from_unix_timestamp and formatting with
/// time's well-known Rfc3339 description: for a timestamp whose year falls
/// in 0000..=9999 the result is the 20 ASCII bytes `YYYY-MM-DDThh:mm:ssZ`
/// (UTC offset, zero nanoseconds, so no subsecond or numeric-offset part);
/// outside that range one of the two steps reports an error.
#[verifier::external_body]
pub fn format_unix_rfc3339(t: i64) -> (r: Option<Vec<u8>>)
    ensures
        r is Some <==> RFC3339_MIN_TIMESTAMP <= t <= RFC3339_MAX_TIMESTAMP,
        r is Some ==> r.unwrap()@ == rfc3339_bytes(t as int),
        r is Some ==> r.unwrap()@.len() == 20,
        r is Some ==> valid_utf8(r.unwrap()@),
{
    let dt = match time::OffsetDateTime::from_unix_timestamp(t) {
        Ok(dt) => dt,
        Err(_) => return None,
    };
    match dt.format(&time::format_description::well_known::Rfc3339) {
        Ok(s) => Some(s.into_bytes()),
        Err(_) => None,
    }
}

} // verus!
