//! Properties that hold across the decoders, stated and proved once.

use vstd::prelude::*;
use crate::envelope::{
    Resource, object_accepts, object_decodes_to, list_accepts, list_decodes_to, array_at,
    panel_accepts, failure_matches, body_object_accepts, all_objects_accept,
};
use crate::error::Error;
use crate::json::{Json, field, as_u32, as_text};
use crate::locations::Location;
use crate::outside::rfc3339_fields;
use crate::rate::{RateLimits, header_limits};
use crate::stamp::{Timestamp, stamp_of};

verus! {

/// The record that an instant's RFC 3339 text stands for.
pub open spec fn stamp_text_of(text: Seq<char>, t: Timestamp) -> bool {
    rfc3339_fields(text) == Some(
        (t.year, t.month, t.day, t.hour, t.minute, t.second, t.nanosecond, t.offset_seconds),
    )
}

/// Writing a location's fields into the attributes of a single-object
/// envelope and decoding that envelope gives back the same location.
pub proof fn location_envelope_round_trip(
    j: Json,
    attributes: Json,
    loc: Location,
    created: Seq<char>,
    updated: Seq<char>,
)
    requires
        field(j, "attributes"@) == Some(attributes),
        field(attributes, "id"@) == Some(Json::Int(loc.id as i128)),
        as_text(field(attributes, "short"@)) == Some(loc.short@),
        as_text(field(attributes, "long"@)) == Some(loc.long@),
        as_text(field(attributes, "created_at"@)) == Some(created),
        as_text(field(attributes, "updated_at"@)) == Some(updated),
        stamp_text_of(created, loc.created_at),
        stamp_text_of(updated, loc.updated_at),
    ensures
        object_accepts::<Location>(j),
        object_decodes_to::<Location>(j, loc),
{
    assert(as_u32(field(attributes, "id"@)) == Some(loc.id));
    assert(stamp_of(field(attributes, "created_at"@)) == Some(loc.created_at));
    assert(stamp_of(field(attributes, "updated_at"@)) == Some(loc.updated_at));
}

/// A decoded list has one record for each item of `data`, in the same
/// order, each decoded from that item's attributes.
pub proof fn list_keeps_items_in_order<T: Resource>(j: Json, vs: Seq<T>)
    requires
        list_decodes_to::<T>(j, vs),
    ensures
        array_at(j, "data"@) matches Some(items) && vs.len() == items.len() && forall|i: int|
            0 <= i < items.len() ==> object_decodes_to::<T>(#[trigger] items[i], vs[i]),
{
}

/// An empty `data` array is a list of no records, not a failure.
pub proof fn empty_list_is_accepted<T: Resource>(j: Json)
    requires
        array_at(j, "data"@) == Some(Seq::<Json>::empty()),
    ensures
        list_accepts::<T>(j),
        list_decodes_to::<T>(j, Seq::<T>::empty()),
{
    assert(all_objects_accept::<T>(Seq::<Json>::empty()));
}

/// A failure status whose body is the panel's error shape maps to a panel
/// error, never to a decoding error.
pub proof fn panel_body_gives_panel_error(status: u16, body: Option<Json>, e: Error)
    requires
        failure_matches(status, body, e),
        panel_accepts(body),
    ensures
        e is Panel,
        e != Error::Decode,
{
}

/// A failure status whose body is not the panel's error shape maps to an
/// HTTP error that carries the status.
pub proof fn other_body_gives_http_error(status: u16, body: Option<Json>, e: Error)
    requires
        failure_matches(status, body, e),
        !panel_accepts(body),
    ensures
        e == Error::Http(status),
{
}

/// A success body whose location id is not an unsigned 32-bit integer is
/// refused, so the response maps to a decoding error.
pub proof fn mistyped_field_is_refused(j: Json, attributes: Json)
    requires
        field(j, "attributes"@) == Some(attributes),
        as_u32(field(attributes, "id"@)) is None,
    ensures
        !body_object_accepts::<Location>(Some(j)),
{
}

/// After a response the snapshot is either the one held before or the one
/// that the response's headers give, whole.
pub proof fn snapshot_is_prior_or_new(
    prior: Option<RateLimits>,
    limit: Option<Seq<u8>>,
    remaining: Option<Seq<u8>>,
    next: Option<RateLimits>,
)
    requires
        header_limits(limit, remaining) matches Some(now) ==> next == Some(now),
        header_limits(limit, remaining) is None ==> next == prior,
    ensures
        next == prior || next == header_limits(limit, remaining),
{
}

} // verus!
