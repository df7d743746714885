//! Endpoints under `api/application/locations`.

use vstd::prelude::*;
use crate::application::{Application, Method, Request, plain_call, body_call, decimal, member, path_with_id};
use crate::body::{BodyValue, members_view};
use crate::envelope::Resource;
use crate::error::Error;
use crate::json::{Json, field, as_u32, as_text, read_u32, read_text};
use crate::stamp::{Timestamp, stamp_of, read_stamp};

verus! {

/// A location that nodes are placed in.
#[derive(Debug)]
#[non_exhaustive]
pub struct Location {
    /// The id of this location
    pub id: u32,
    /// The short code of this location
    pub short: String,
    /// The long description of this location
    pub long: String,
    /// When this location was created
    pub created_at: Timestamp,
    /// When this location was last updated
    pub updated_at: Timestamp,
}

impl Resource for Location {
    open spec fn accepts(j: Json) -> bool {
        &&& as_u32(field(j, "id"@)) is Some
        &&& as_text(field(j, "short"@)) is Some
        &&& as_text(field(j, "long"@)) is Some
        &&& stamp_of(field(j, "created_at"@)) is Some
        &&& stamp_of(field(j, "updated_at"@)) is Some
    }

    open spec fn decodes_to(j: Json, v: Location) -> bool {
        &&& as_u32(field(j, "id"@)) == Some(v.id)
        &&& as_text(field(j, "short"@)) == Some(v.short@)
        &&& as_text(field(j, "long"@)) == Some(v.long@)
        &&& stamp_of(field(j, "created_at"@)) == Some(v.created_at)
        &&& stamp_of(field(j, "updated_at"@)) == Some(v.updated_at)
    }

    fn decode(j: &Json) -> (r: Result<Location, Error>) {
        let id = match read_u32(j, "id") {
            Some(x) => x,
            None => {
                return Err(Error::Decode);
            },
        };
        let short = match read_text(j, "short") {
            Some(x) => x,
            None => {
                return Err(Error::Decode);
            },
        };
        let long = match read_text(j, "long") {
            Some(x) => x,
            None => {
                return Err(Error::Decode);
            },
        };
        let created_at = match read_stamp(j, "created_at") {
            Some(x) => x,
            None => {
                return Err(Error::Decode);
            },
        };
        let updated_at = match read_stamp(j, "updated_at") {
            Some(x) => x,
            None => {
                return Err(Error::Decode);
            },
        };
        Ok(Location { id, short, long, created_at, updated_at })
    }
}

impl Application {
    /// Retrieves all locations.
    pub fn list_locations(&self) -> (r: Request)
        ensures
            plain_call(r, self.url_view(), self.api_key_view(), Method::Get, "locations"@),
    {
        self.request(Method::Get, String::from_str("locations"))
    }

    /// Retrieves the location `id`.
    pub fn get_location(&self, id: u32) -> (r: Request)
        ensures
            plain_call(r, self.url_view(), self.api_key_view(), Method::Get, "locations/"@ + decimal(id as nat)),
    {
        self.request(Method::Get, path_with_id("locations/", id))
    }

    /// Adds a location with the given short code and description.
    pub fn add_location(&self, short: String, long: String) -> (r: Request)
        ensures
            body_call(
                r,
                self.url_view(),
                self.api_key_view(),
                Method::Post,
                "locations"@,
                seq![("short"@, BodyValue::Text(short)), ("long"@, BodyValue::Text(long))],
            ),
    {
        let mut ms: Vec<(String, BodyValue)> = Vec::new();
        ms.push(member("short", BodyValue::Text(short)));
        ms.push(member("long", BodyValue::Text(long)));
        proof {
            assert(members_view(ms@) =~= seq![("short"@, BodyValue::Text(short)), ("long"@, BodyValue::Text(long))]);
        }
        self.request_with_body(Method::Post, String::from_str("locations"), ms)
    }

    /// Replaces the short code and description of the location `id`.
    pub fn update_location(&self, id: u32, short: String, long: String) -> (r: Request)
        ensures
            body_call(
                r,
                self.url_view(),
                self.api_key_view(),
                Method::Patch,
                "locations/"@ + decimal(id as nat),
                seq![("short"@, BodyValue::Text(short)), ("long"@, BodyValue::Text(long))],
            ),
    {
        let mut ms: Vec<(String, BodyValue)> = Vec::new();
        ms.push(member("short", BodyValue::Text(short)));
        ms.push(member("long", BodyValue::Text(long)));
        proof {
            assert(members_view(ms@) =~= seq![("short"@, BodyValue::Text(short)), ("long"@, BodyValue::Text(long))]);
        }
        self.request_with_body(Method::Patch, path_with_id("locations/", id), ms)
    }

    /// Removes the location `id`.
    pub fn delete_location(&self, id: u32) -> (r: Request)
        ensures
            plain_call(r, self.url_view(), self.api_key_view(), Method::Delete, "locations/"@ + decimal(id as nat)),
    {
        self.request(Method::Delete, path_with_id("locations/", id))
    }
}

} // verus!
