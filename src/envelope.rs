//! The panel's response envelopes and the mapping of a response to a result.
//!
//! A single object arrives as `{"attributes": {...}}`, a list as
//! `{"data": [{"attributes": {...}}, ...], "meta": {...}}`, and a failure as
//! `{"errors": [{"code": .., "status": .., "detail": ..}, ...]}`.

use vstd::prelude::*;
use crate::error::{Error, PanelError};
use crate::json::{Json, field, as_text, text_view, get_field, read_text};

verus! {

/// A record that the panel sends as the attributes of an object.
pub trait Resource: Sized {
    /// `j` holds every field of the record, each of the right type.
    spec fn accepts(j: Json) -> bool;

    /// `v` holds exactly the fields that `j` gives.
    spec fn decodes_to(j: Json, v: Self) -> bool;

    fn decode(j: &Json) -> (r: Result<Self, Error>)
        ensures
            r is Ok <==> Self::accepts(*j),
            match r {
                Ok(v) => Self::decodes_to(*j, v),
                Err(e) => e == Error::Decode,
            },
    ;
}

pub open spec fn object_accepts<T: Resource>(j: Json) -> bool {
    match field(j, "attributes"@) {
        Some(a) => T::accepts(a),
        None => false,
    }
}

pub open spec fn object_decodes_to<T: Resource>(j: Json, v: T) -> bool {
    match field(j, "attributes"@) {
        Some(a) => T::decodes_to(a, v),
        None => false,
    }
}

/// The items of the array under `key`.
pub open spec fn array_at(j: Json, key: Seq<char>) -> Option<Seq<Json>> {
    match field(j, key) {
        Some(Json::Array(items)) => Some(items@),
        _ => None,
    }
}

pub open spec fn all_objects_accept<T: Resource>(items: Seq<Json>) -> bool {
    forall|i: int| 0 <= i < items.len() ==> object_accepts::<T>(#[trigger] items[i])
}

pub open spec fn all_objects_decode_to<T: Resource>(items: Seq<Json>, vs: Seq<T>) -> bool {
    &&& vs.len() == items.len()
    &&& forall|i: int| 0 <= i < items.len() ==> object_decodes_to::<T>(#[trigger] items[i], vs[i])
}

pub open spec fn all_panel_errors_accept(items: Seq<Json>) -> bool {
    forall|i: int| 0 <= i < items.len() ==> PanelError::accepts(#[trigger] items[i])
}

pub open spec fn all_panel_errors_decode_to(items: Seq<Json>, es: Seq<PanelError>) -> bool {
    &&& es.len() == items.len()
    &&& forall|i: int| 0 <= i < items.len() ==> PanelError::decodes_to(#[trigger] items[i], es[i])
}

pub open spec fn list_accepts<T: Resource>(j: Json) -> bool {
    match array_at(j, "data"@) {
        Some(items) => all_objects_accept::<T>(items),
        None => false,
    }
}

pub open spec fn list_decodes_to<T: Resource>(j: Json, vs: Seq<T>) -> bool {
    match array_at(j, "data"@) {
        Some(items) => all_objects_decode_to::<T>(items, vs),
        None => false,
    }
}

pub open spec fn panel_accepts(body: Option<Json>) -> bool {
    match body {
        Some(j) => match array_at(j, "errors"@) {
            Some(items) => all_panel_errors_accept(items),
            None => false,
        },
        None => false,
    }
}

pub open spec fn panel_decodes_to(body: Option<Json>, es: Seq<PanelError>) -> bool {
    match body {
        Some(j) => match array_at(j, "errors"@) {
            Some(items) => all_panel_errors_decode_to(items, es),
            None => false,
        },
        None => false,
    }
}

pub open spec fn is_success(status: u16) -> bool {
    200 <= status <= 299
}

/// `e` is what a failure status with `body` maps to.
pub open spec fn failure_matches(status: u16, body: Option<Json>, e: Error) -> bool {
    if panel_accepts(body) {
        match e {
            Error::Panel(es) => panel_decodes_to(body, es@),
            _ => false,
        }
    } else {
        e == Error::Http(status)
    }
}

pub open spec fn body_object_accepts<T: Resource>(body: Option<Json>) -> bool {
    match body {
        Some(j) => object_accepts::<T>(j),
        None => false,
    }
}

pub open spec fn body_list_accepts<T: Resource>(body: Option<Json>) -> bool {
    match body {
        Some(j) => list_accepts::<T>(j),
        None => false,
    }
}

impl Resource for PanelError {
    open spec fn accepts(j: Json) -> bool {
        &&& as_text(field(j, "code"@)) is Some
        &&& as_text(field(j, "status"@)) is Some
        &&& as_text(field(j, "detail"@)) is Some
    }

    open spec fn decodes_to(j: Json, v: PanelError) -> bool {
        &&& as_text(field(j, "code"@)) == Some(v.code@)
        &&& as_text(field(j, "status"@)) == Some(v.status@)
        &&& as_text(field(j, "detail"@)) == Some(v.detail@)
    }

    fn decode(j: &Json) -> (r: Result<PanelError, Error>) {
        let code = read_text(j, "code");
        let status = read_text(j, "status");
        let detail = read_text(j, "detail");
        match (code, status, detail) {
            (Some(code), Some(status), Some(detail)) => Ok(PanelError { code, status, detail }),
            _ => Err(Error::Decode),
        }
    }
}

/// Decodes a single-object envelope: the record under `attributes`.
pub fn decode_object<T: Resource>(j: &Json) -> (r: Result<T, Error>)
    ensures
        r is Ok <==> object_accepts::<T>(*j),
        match r {
            Ok(v) => object_decodes_to::<T>(*j, v),
            Err(e) => e == Error::Decode,
        },
{
    match get_field(j, "attributes") {
        Some(a) => T::decode(a),
        None => Err(Error::Decode),
    }
}

/// Decodes a list envelope: the record of each item of `data`, in order.
pub fn decode_list<T: Resource>(j: &Json) -> (r: Result<Vec<T>, Error>)
    ensures
        r is Ok <==> list_accepts::<T>(*j),
        match r {
            Ok(vs) => list_decodes_to::<T>(*j, vs@),
            Err(e) => e == Error::Decode,
        },
{
    match get_field(j, "data") {
        Some(Json::Array(items)) => {
            let mut out: Vec<T> = Vec::new();
            let mut i: usize = 0;
            while i < items.len()
                invariant
                    array_at(*j, "data"@) == Some(items@),
                    0 <= i <= items.len(),
                    out@.len() == i,
                    forall|k: int| 0 <= k < i ==> object_accepts::<T>(#[trigger] items@[k]),
                    forall|k: int| 0 <= k < i ==> object_decodes_to::<T>(#[trigger] items@[k], out@[k]),
                decreases items.len() - i,
            {
                match decode_object::<T>(&items[i]) {
                    Ok(v) => out.push(v),
                    Err(e) => {
                        assert(!object_accepts::<T>(items@[i as int]));
                        return Err(e);
                    },
                }
                i += 1;
            }
            Ok(out)
        },
        _ => Err(Error::Decode),
    }
}

/// Decodes the panel's failure body, where it has that shape.
pub fn decode_panel_errors(body: &Option<Json>) -> (r: Option<Vec<PanelError>>)
    ensures
        r is Some <==> panel_accepts(*body),
        r matches Some(es) ==> panel_decodes_to(*body, es@),
{
    let j = match body {
        Some(j) => j,
        None => {
            return None;
        },
    };
    match get_field(j, "errors") {
        Some(Json::Array(items)) => {
            let mut out: Vec<PanelError> = Vec::new();
            let mut i: usize = 0;
            while i < items.len()
                invariant
                    *body == Some(*j),
                    array_at(*j, "errors"@) == Some(items@),
                    0 <= i <= items.len(),
                    out@.len() == i,
                    forall|k: int| 0 <= k < i ==> PanelError::accepts(#[trigger] items@[k]),
                    forall|k: int| 0 <= k < i ==> PanelError::decodes_to(#[trigger] items@[k], out@[k]),
                decreases items.len() - i,
            {
                match PanelError::decode(&items[i]) {
                    Ok(v) => out.push(v),
                    Err(_) => {
                        assert(!PanelError::accepts(items@[i as int]));
                        return None;
                    },
                }
                i += 1;
            }
            Some(out)
        },
        _ => None,
    }
}

/// The error for a response whose status is not a success.
pub fn failure(status: u16, body: &Option<Json>) -> (e: Error)
    ensures
        failure_matches(status, *body, e),
{
    match decode_panel_errors(body) {
        Some(es) => Error::Panel(es),
        None => Error::Http(status),
    }
}

/// Maps a response whose success body is a single-object envelope.
pub fn object_response<T: Resource>(status: u16, body: &Option<Json>) -> (r: Result<T, Error>)
    ensures
        is_success(status) ==> (r is Ok <==> body_object_accepts::<T>(*body)),
        is_success(status) ==> match r {
            Ok(v) => *body matches Some(j) && object_decodes_to::<T>(j, v),
            Err(e) => e == Error::Decode,
        },
        !is_success(status) ==> match r {
            Ok(_) => false,
            Err(e) => failure_matches(status, *body, e),
        },
{
    if 200 <= status && status <= 299 {
        match body {
            Some(j) => decode_object::<T>(j),
            None => Err(Error::Decode),
        }
    } else {
        Err(failure(status, body))
    }
}

/// Maps a response whose success body is a list envelope.
pub fn list_response<T: Resource>(status: u16, body: &Option<Json>) -> (r: Result<Vec<T>, Error>)
    ensures
        is_success(status) ==> (r is Ok <==> body_list_accepts::<T>(*body)),
        is_success(status) ==> match r {
            Ok(vs) => *body matches Some(j) && list_decodes_to::<T>(j, vs@),
            Err(e) => e == Error::Decode,
        },
        !is_success(status) ==> match r {
            Ok(_) => false,
            Err(e) => failure_matches(status, *body, e),
        },
{
    if 200 <= status && status <= 299 {
        match body {
            Some(j) => decode_list::<T>(j),
            None => Err(Error::Decode),
        }
    } else {
        Err(failure(status, body))
    }
}

/// Maps a response whose success body carries nothing of interest.
pub fn empty_response(status: u16, body: &Option<Json>) -> (r: Result<(), Error>)
    ensures
        is_success(status) ==> r is Ok,
        !is_success(status) ==> match r {
            Ok(_) => false,
            Err(e) => failure_matches(status, *body, e),
        },
{
    if 200 <= status && status <= 299 {
        Ok(())
    } else {
        Err(failure(status, body))
    }
}

} // verus!
