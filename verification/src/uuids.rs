//! Parsing of UUID strings from the bus into their 128-bit values.
//!
//! The daemon reports service UUIDs as strings; the events this crate
//! emits carry them as plain 128-bit values. The parse itself is done
//! by the `uuid` crate.

use vstd::prelude::*;

verus! {

/// The 128-bit value of a UUID string, or nothing when the string is
/// not a UUID in any of the formats the `uuid` crate accepts. The
/// result depends on the characters alone.
pub uninterp spec fn uuid_bits_of(s: Seq<char>) -> Option<u128>;

/// Relies on `uuid::Uuid::parse_str` and `uuid::Uuid::as_u128`:
/// parsing a string of hexadecimal digits with optional hyphens into
/// the 128-bit UUID value it denotes. The result is a function of the
/// input characters alone.
#[verifier::external_body]
pub(crate) fn parse_uuid_bits(s: &str) -> (r: Option<u128>)
    ensures
        r == uuid_bits_of(s@),
{
    match uuid::Uuid::parse_str(s) {
        Ok(u) => Some(u.as_u128()),
        Err(_) => None,
    }
}

} // verus!
