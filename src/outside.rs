//! Calls into the time and uuid crates, and the values they stand for.

use vstd::prelude::*;

verus! {

/// The instant that an RFC 3339 text denotes, as year, month, day, hour,
/// minute, second, nanosecond and offset from UTC in seconds.
pub uninterp spec fn rfc3339_fields(s: Seq<char>) -> Option<(i32, u8, u8, u8, u8, u8, u32, i32)>;

/// The 128 bits of the UUID that a text spells.
pub uninterp spec fn uuid_bits(s: Seq<char>) -> Option<u128>;

/// Relies on `time::OffsetDateTime::parse` with the `Rfc3339` description:
/// `None` where the text is refused, else the fields of the parsed instant.
#[verifier::external_body]
pub(crate) fn parse_rfc3339(s: &str) -> (r: Option<(i32, u8, u8, u8, u8, u8, u32, i32)>)
    ensures
        r == rfc3339_fields(s@),
{
    match time::OffsetDateTime::parse(s, &time::format_description::well_known::Rfc3339) {
        Ok(t) => Some((
            t.year(),
            u8::from(t.month()),
            t.day(),
            t.hour(),
            t.minute(),
            t.second(),
            t.nanosecond(),
            t.offset().whole_seconds(),
        )),
        Err(_) => None,
    }
}

/// Relies on `uuid::Uuid::parse_str` and `Uuid::as_u128`: `None` where the
/// text is refused, else the bits of the parsed UUID.
#[verifier::external_body]
pub(crate) fn parse_uuid(s: &str) -> (r: Option<u128>)
    ensures
        r == uuid_bits(s@),
{
    match uuid::Uuid::parse_str(s) {
        Ok(u) => Some(u.as_u128()),
        Err(_) => None,
    }
}

} // verus!
