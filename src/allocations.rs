//! Endpoints under `api/application/nodes/{node}/allocations`.

use vstd::prelude::*;
use crate::application::{Application, Method, Request, plain_call, body_call, decimal, member, path_with_id_then, append_decimal};
use crate::body::{BodyValue, members_view};
use crate::envelope::Resource;
use crate::error::Error;
use crate::json::{Json, field, as_u32, as_bool, as_text, as_opt_text, text_view, read_u32, read_bool, read_text, read_opt_text};

verus! {

/// An IP address and port of a node.
#[derive(Debug)]
#[non_exhaustive]
pub struct Allocation {
    /// The id of this allocation
    pub id: u32,
    /// The IP address of this allocation
    pub ip: String,
    /// The alias of this allocation, if any
    pub alias: Option<String>,
    /// The port of this allocation
    pub port: u32,
    /// The notes on this allocation, if any
    pub notes: Option<String>,
    /// Whether a server holds this allocation
    pub assigned: bool,
}

impl Resource for Allocation {
    open spec fn accepts(j: Json) -> bool {
        &&& as_u32(field(j, "id"@)) is Some
        &&& as_text(field(j, "ip"@)) is Some
        &&& as_opt_text(field(j, "alias"@)) is Some
        &&& as_u32(field(j, "port"@)) is Some
        &&& as_opt_text(field(j, "notes"@)) is Some
        &&& as_bool(field(j, "assigned"@)) is Some
    }

    open spec fn decodes_to(j: Json, v: Allocation) -> bool {
        &&& as_u32(field(j, "id"@)) == Some(v.id)
        &&& as_text(field(j, "ip"@)) == Some(v.ip@)
        &&& as_opt_text(field(j, "alias"@)) == Some(text_view(v.alias))
        &&& as_u32(field(j, "port"@)) == Some(v.port)
        &&& as_opt_text(field(j, "notes"@)) == Some(text_view(v.notes))
        &&& as_bool(field(j, "assigned"@)) == Some(v.assigned)
    }

    fn decode(j: &Json) -> (r: Result<Allocation, Error>) {
        let id = match read_u32(j, "id") {
            Some(x) => x,
            None => {
                return Err(Error::Decode);
            },
        };
        let ip = match read_text(j, "ip") {
            Some(x) => x,
            None => {
                return Err(Error::Decode);
            },
        };
        let alias = match read_opt_text(j, "alias") {
            Some(x) => x,
            None => {
                return Err(Error::Decode);
            },
        };
        let port = match read_u32(j, "port") {
            Some(x) => x,
            None => {
                return Err(Error::Decode);
            },
        };
        let notes = match read_opt_text(j, "notes") {
            Some(x) => x,
            None => {
                return Err(Error::Decode);
            },
        };
        let assigned = match read_bool(j, "assigned") {
            Some(x) => x,
            None => {
                return Err(Error::Decode);
            },
        };
        Ok(Allocation { id, ip, alias, port, notes, assigned })
    }
}

impl Application {
    /// Retrieves the allocations of the node `node_id`.
    pub fn list_allocations(&self, node_id: u32) -> (r: Request)
        ensures
            plain_call(r, self.url_view(), self.api_key_view(), Method::Get, "nodes/"@ + decimal(node_id as nat) + "/allocations"@),
    {
        self.request(Method::Get, path_with_id_then("nodes/", node_id, "/allocations"))
    }

    /// Creates allocations on the node `node_id`: one for each of `ports` on `ip`.
    pub fn create_allocations(&self, node_id: u32, ip: String, ports: Vec<String>) -> (r: Request)
        ensures
            body_call(
                r,
                self.url_view(),
                self.api_key_view(),
                Method::Post,
                "nodes/"@ + decimal(node_id as nat) + "/allocations"@,
                seq![("ip"@, BodyValue::Text(ip)), ("ports"@, BodyValue::TextList(ports))],
            ),
    {
        let mut ms: Vec<(String, BodyValue)> = Vec::new();
        ms.push(member("ip", BodyValue::Text(ip)));
        ms.push(member("ports", BodyValue::TextList(ports)));
        proof {
            assert(members_view(ms@) =~= seq![("ip"@, BodyValue::Text(ip)), ("ports"@, BodyValue::TextList(ports))]);
        }
        self.request_with_body(Method::Post, path_with_id_then("nodes/", node_id, "/allocations"), ms)
    }

    /// Removes the allocation `allocation_id` of the node `node_id`.
    pub fn delete_allocation(&self, node_id: u32, allocation_id: u32) -> (r: Request)
        ensures
            plain_call(r, self.url_view(), self.api_key_view(), Method::Delete, "nodes/"@ + decimal(node_id as nat) + "/allocations/"@ + decimal(allocation_id as nat)),
    {
        let mut path = path_with_id_then("nodes/", node_id, "/allocations/");
        append_decimal(&mut path, allocation_id);
        self.request(Method::Delete, path)
    }
}

} // verus!
