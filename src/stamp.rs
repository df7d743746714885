//! Timestamps and identifiers held as plain values.

use vstd::prelude::*;
use crate::json::{Json, field, as_text, read_text};
use crate::outside::{rfc3339_fields, uuid_bits, parse_rfc3339, parse_uuid};

verus! {

/// An instant with its offset from UTC.
#[derive(Clone, Copy, Debug, PartialEq, Eq, Structural)]
pub struct Timestamp {
    pub year: i32,
    pub month: u8,
    pub day: u8,
    pub hour: u8,
    pub minute: u8,
    pub second: u8,
    pub nanosecond: u32,
    pub offset_seconds: i32,
}

pub open spec fn stamp_of(j: Option<Json>) -> Option<Timestamp> {
    match as_text(j) {
        Some(s) => match rfc3339_fields(s) {
            Some(t) => Some(
                Timestamp {
                    year: t.0,
                    month: t.1,
                    day: t.2,
                    hour: t.3,
                    minute: t.4,
                    second: t.5,
                    nanosecond: t.6,
                    offset_seconds: t.7,
                },
            ),
            None => None,
        },
        None => None,
    }
}

pub open spec fn uuid_of(j: Option<Json>) -> Option<u128> {
    match as_text(j) {
        Some(s) => uuid_bits(s),
        None => None,
    }
}

/// Reads the member `key` of `j` as an RFC 3339 timestamp.
pub fn read_stamp(j: &Json, key: &str) -> (r: Option<Timestamp>)
    ensures
        r == stamp_of(field(*j, key@)),
{
    match read_text(j, key) {
        Some(s) => match parse_rfc3339(s.as_str()) {
            Some(t) => Some(
                Timestamp {
                    year: t.0,
                    month: t.1,
                    day: t.2,
                    hour: t.3,
                    minute: t.4,
                    second: t.5,
                    nanosecond: t.6,
                    offset_seconds: t.7,
                },
            ),
            None => None,
        },
        None => None,
    }
}

/// Reads the member `key` of `j` as a UUID in text form.
pub fn read_uuid(j: &Json, key: &str) -> (r: Option<u128>)
    ensures
        r == uuid_of(field(*j, key@)),
{
    match read_text(j, key) {
        Some(s) => parse_uuid(s.as_str()),
        None => None,
    }
}

} // verus!
