//! Endpoints under `api/application/nodes`.

use vstd::prelude::*;
use crate::application::{Application, Method, Request, plain_call, body_call, decimal, member, path_with_id};
use crate::body::{BodyValue, members_view};
use crate::envelope::Resource;
use crate::error::Error;
use crate::json::{Json, field, as_u32, as_i32, as_bool, as_text, read_u32, read_i32, read_bool, read_text};
use crate::stamp::{Timestamp, stamp_of, uuid_of, read_stamp, read_uuid};

verus! {

/// A machine that runs servers.
#[derive(Debug)]
#[non_exhaustive]
pub struct Node {
    /// The id of this node
    pub id: u32,
    /// The UUID of this node
    pub uuid: u128,
    /// Whether the node is public
    pub public: bool,
    /// The name of this node
    pub name: String,
    /// The description of this node
    pub description: String,
    /// The id of the location of this node
    pub location_id: u32,
    /// The fully qualified domain name of this node
    pub fqdn: String,
    /// The scheme (http or https) of this node
    pub scheme: String,
    /// Whether this node is behind a proxy
    pub behind_proxy: bool,
    /// Whether this node is in maintenance mode
    pub maintenance_mode: bool,
    /// The memory of this node
    pub memory: u32,
    /// How far memory may be overallocated
    pub memory_overallocate: i32,
    /// The disk size of this node
    pub disksize: u32,
    /// How far disk may be overallocated
    pub disk_overallocate: i32,
    /// The largest upload to this node
    pub upload_size: u32,
    /// The port the daemon listens on
    pub daemon_listen: u32,
    /// The SFTP port of the daemon
    pub daemon_sftp: u32,
    /// The base directory of the daemon
    pub daemon_base: String,
    /// When this node was created
    pub created_at: Timestamp,
    /// When this node was last updated
    pub updated_at: Timestamp,
}

impl Resource for Node {
    open spec fn accepts(j: Json) -> bool {
        &&& as_u32(field(j, "id"@)) is Some
        &&& uuid_of(field(j, "uuid"@)) is Some
        &&& as_bool(field(j, "public"@)) is Some
        &&& as_text(field(j, "name"@)) is Some
        &&& as_text(field(j, "description"@)) is Some
        &&& as_u32(field(j, "location_id"@)) is Some
        &&& as_text(field(j, "fqdn"@)) is Some
        &&& as_text(field(j, "scheme"@)) is Some
        &&& as_bool(field(j, "behind_proxy"@)) is Some
        &&& as_bool(field(j, "maintenance_mode"@)) is Some
        &&& as_u32(field(j, "memory"@)) is Some
        &&& as_i32(field(j, "memory_overallocate"@)) is Some
        &&& as_u32(field(j, "disk"@)) is Some
        &&& as_i32(field(j, "disk_overallocate"@)) is Some
        &&& as_u32(field(j, "upload_size"@)) is Some
        &&& as_u32(field(j, "daemon_listen"@)) is Some
        &&& as_u32(field(j, "daemon_sftp"@)) is Some
        &&& as_text(field(j, "daemon_base"@)) is Some
        &&& stamp_of(field(j, "created_at"@)) is Some
        &&& stamp_of(field(j, "updated_at"@)) is Some
    }

    open spec fn decodes_to(j: Json, v: Node) -> bool {
        &&& as_u32(field(j, "id"@)) == Some(v.id)
        &&& uuid_of(field(j, "uuid"@)) == Some(v.uuid)
        &&& as_bool(field(j, "public"@)) == Some(v.public)
        &&& as_text(field(j, "name"@)) == Some(v.name@)
        &&& as_text(field(j, "description"@)) == Some(v.description@)
        &&& as_u32(field(j, "location_id"@)) == Some(v.location_id)
        &&& as_text(field(j, "fqdn"@)) == Some(v.fqdn@)
        &&& as_text(field(j, "scheme"@)) == Some(v.scheme@)
        &&& as_bool(field(j, "behind_proxy"@)) == Some(v.behind_proxy)
        &&& as_bool(field(j, "maintenance_mode"@)) == Some(v.maintenance_mode)
        &&& as_u32(field(j, "memory"@)) == Some(v.memory)
        &&& as_i32(field(j, "memory_overallocate"@)) == Some(v.memory_overallocate)
        &&& as_u32(field(j, "disk"@)) == Some(v.disksize)
        &&& as_i32(field(j, "disk_overallocate"@)) == Some(v.disk_overallocate)
        &&& as_u32(field(j, "upload_size"@)) == Some(v.upload_size)
        &&& as_u32(field(j, "daemon_listen"@)) == Some(v.daemon_listen)
        &&& as_u32(field(j, "daemon_sftp"@)) == Some(v.daemon_sftp)
        &&& as_text(field(j, "daemon_base"@)) == Some(v.daemon_base@)
        &&& stamp_of(field(j, "created_at"@)) == Some(v.created_at)
        &&& stamp_of(field(j, "updated_at"@)) == Some(v.updated_at)
    }

    fn decode(j: &Json) -> (r: Result<Node, Error>) {
        let id = match read_u32(j, "id") {
            Some(x) => x,
            None => {
                return Err(Error::Decode);
            },
        };
        let uuid = match read_uuid(j, "uuid") {
            Some(x) => x,
            None => {
                return Err(Error::Decode);
            },
        };
        let public = match read_bool(j, "public") {
            Some(x) => x,
            None => {
                return Err(Error::Decode);
            },
        };
        let name = match read_text(j, "name") {
            Some(x) => x,
            None => {
                return Err(Error::Decode);
            },
        };
        let description = match read_text(j, "description") {
            Some(x) => x,
            None => {
                return Err(Error::Decode);
            },
        };
        let location_id = match read_u32(j, "location_id") {
            Some(x) => x,
            None => {
                return Err(Error::Decode);
            },
        };
        let fqdn = match read_text(j, "fqdn") {
            Some(x) => x,
            None => {
                return Err(Error::Decode);
            },
        };
        let scheme = match read_text(j, "scheme") {
            Some(x) => x,
            None => {
                return Err(Error::Decode);
            },
        };
        let behind_proxy = match read_bool(j, "behind_proxy") {
            Some(x) => x,
            None => {
                return Err(Error::Decode);
            },
        };
        let maintenance_mode = match read_bool(j, "maintenance_mode") {
            Some(x) => x,
            None => {
                return Err(Error::Decode);
            },
        };
        let memory = match read_u32(j, "memory") {
            Some(x) => x,
            None => {
                return Err(Error::Decode);
            },
        };
        let memory_overallocate = match read_i32(j, "memory_overallocate") {
            Some(x) => x,
            None => {
                return Err(Error::Decode);
            },
        };
        let disksize = match read_u32(j, "disk") {
            Some(x) => x,
            None => {
                return Err(Error::Decode);
            },
        };
        let disk_overallocate = match read_i32(j, "disk_overallocate") {
            Some(x) => x,
            None => {
                return Err(Error::Decode);
            },
        };
        let upload_size = match read_u32(j, "upload_size") {
            Some(x) => x,
            None => {
                return Err(Error::Decode);
            },
        };
        let daemon_listen = match read_u32(j, "daemon_listen") {
            Some(x) => x,
            None => {
                return Err(Error::Decode);
            },
        };
        let daemon_sftp = match read_u32(j, "daemon_sftp") {
            Some(x) => x,
            None => {
                return Err(Error::Decode);
            },
        };
        let daemon_base = match read_text(j, "daemon_base") {
            Some(x) => x,
            None => {
                return Err(Error::Decode);
            },
        };
        let created_at = match read_stamp(j, "created_at") {
            Some(x) => x,
            None => {
                return Err(Error::Decode);
            },
        };
        let updated_at = match read_stamp(j, "updated_at") {
            Some(x) => x,
            None => {
                return Err(Error::Decode);
            },
        };
        Ok(Node { id, uuid, public, name, description, location_id, fqdn, scheme, behind_proxy, maintenance_mode, memory, memory_overallocate, disksize, disk_overallocate, upload_size, daemon_listen, daemon_sftp, daemon_base, created_at, updated_at })
    }
}

impl Application {
    /// Retrieves all nodes.
    pub fn list_nodes(&self) -> (r: Request)
        ensures
            plain_call(r, self.url_view(), self.api_key_view(), Method::Get, "nodes"@),
    {
        self.request(Method::Get, String::from_str("nodes"))
    }

    /// Retrieves the node `id`.
    pub fn get_node(&self, id: u32) -> (r: Request)
        ensures
            plain_call(r, self.url_view(), self.api_key_view(), Method::Get, "nodes/"@ + decimal(id as nat)),
    {
        self.request(Method::Get, path_with_id("nodes/", id))
    }

    /// Creates a node.
    pub fn create_node(&self, name: String, location_id: u32, fqdn: String, scheme: String, memory: u32, memory_overallocate: u32, disk: u32, disk_overallocate: u32, upload_size: u32, daemon_sftp: u32, daemon_listen: u32) -> (r: Request)
        ensures
            body_call(
                r,
                self.url_view(),
                self.api_key_view(),
                Method::Post,
                "nodes"@,
                seq![("name"@, BodyValue::Text(name)), ("location_id"@, BodyValue::Number(location_id)), ("fqdn"@, BodyValue::Text(fqdn)), ("scheme"@, BodyValue::Text(scheme)), ("memory"@, BodyValue::Number(memory)), ("memory_overallocate"@, BodyValue::Number(memory_overallocate)), ("disk"@, BodyValue::Number(disk)), ("disk_overallocate"@, BodyValue::Number(disk_overallocate)), ("upload_size"@, BodyValue::Number(upload_size)), ("daemon_sftp"@, BodyValue::Number(daemon_sftp)), ("daemon_listen"@, BodyValue::Number(daemon_listen))],
            ),
    {
        let mut ms: Vec<(String, BodyValue)> = Vec::new();
        ms.push(member("name", BodyValue::Text(name)));
        ms.push(member("location_id", BodyValue::Number(location_id)));
        ms.push(member("fqdn", BodyValue::Text(fqdn)));
        ms.push(member("scheme", BodyValue::Text(scheme)));
        ms.push(member("memory", BodyValue::Number(memory)));
        ms.push(member("memory_overallocate", BodyValue::Number(memory_overallocate)));
        ms.push(member("disk", BodyValue::Number(disk)));
        ms.push(member("disk_overallocate", BodyValue::Number(disk_overallocate)));
        ms.push(member("upload_size", BodyValue::Number(upload_size)));
        ms.push(member("daemon_sftp", BodyValue::Number(daemon_sftp)));
        ms.push(member("daemon_listen", BodyValue::Number(daemon_listen)));
        proof {
            assert(members_view(ms@) =~= seq![("name"@, BodyValue::Text(name)), ("location_id"@, BodyValue::Number(location_id)), ("fqdn"@, BodyValue::Text(fqdn)), ("scheme"@, BodyValue::Text(scheme)), ("memory"@, BodyValue::Number(memory)), ("memory_overallocate"@, BodyValue::Number(memory_overallocate)), ("disk"@, BodyValue::Number(disk)), ("disk_overallocate"@, BodyValue::Number(disk_overallocate)), ("upload_size"@, BodyValue::Number(upload_size)), ("daemon_sftp"@, BodyValue::Number(daemon_sftp)), ("daemon_listen"@, BodyValue::Number(daemon_listen))]);
        }
        self.request_with_body(Method::Post, String::from_str("nodes"), ms)
    }

    /// Replaces the settings of the node `id`.
    pub fn update_node(&self, id: u32, name: String, description: String, location_id: u32, fqdn: String, scheme: String, behind_proxy: bool, maintenance_mode: bool, memory: u32, memory_overallocate: u32, disk: u32, disk_overallocate: u32, upload_size: u32, daemon_sftp: u32, daemon_listen: u32) -> (r: Request)
        ensures
            body_call(
                r,
                self.url_view(),
                self.api_key_view(),
                Method::Patch,
                "nodes/"@ + decimal(id as nat),
                seq![("name"@, BodyValue::Text(name)), ("description"@, BodyValue::Text(description)), ("location_id"@, BodyValue::Number(location_id)), ("fqdn"@, BodyValue::Text(fqdn)), ("scheme"@, BodyValue::Text(scheme)), ("behind_proxy"@, BodyValue::Flag(behind_proxy)), ("maintenance_mode"@, BodyValue::Flag(maintenance_mode)), ("memory"@, BodyValue::Number(memory)), ("memory_overallocate"@, BodyValue::Number(memory_overallocate)), ("disk"@, BodyValue::Number(disk)), ("disk_overallocate"@, BodyValue::Number(disk_overallocate)), ("upload_size"@, BodyValue::Number(upload_size)), ("daemon_sftp"@, BodyValue::Number(daemon_sftp)), ("daemon_listen"@, BodyValue::Number(daemon_listen))],
            ),
    {
        let mut ms: Vec<(String, BodyValue)> = Vec::new();
        ms.push(member("name", BodyValue::Text(name)));
        ms.push(member("description", BodyValue::Text(description)));
        ms.push(member("location_id", BodyValue::Number(location_id)));
        ms.push(member("fqdn", BodyValue::Text(fqdn)));
        ms.push(member("scheme", BodyValue::Text(scheme)));
        ms.push(member("behind_proxy", BodyValue::Flag(behind_proxy)));
        ms.push(member("maintenance_mode", BodyValue::Flag(maintenance_mode)));
        ms.push(member("memory", BodyValue::Number(memory)));
        ms.push(member("memory_overallocate", BodyValue::Number(memory_overallocate)));
        ms.push(member("disk", BodyValue::Number(disk)));
        ms.push(member("disk_overallocate", BodyValue::Number(disk_overallocate)));
        ms.push(member("upload_size", BodyValue::Number(upload_size)));
        ms.push(member("daemon_sftp", BodyValue::Number(daemon_sftp)));
        ms.push(member("daemon_listen", BodyValue::Number(daemon_listen)));
        proof {
            assert(members_view(ms@) =~= seq![("name"@, BodyValue::Text(name)), ("description"@, BodyValue::Text(description)), ("location_id"@, BodyValue::Number(location_id)), ("fqdn"@, BodyValue::Text(fqdn)), ("scheme"@, BodyValue::Text(scheme)), ("behind_proxy"@, BodyValue::Flag(behind_proxy)), ("maintenance_mode"@, BodyValue::Flag(maintenance_mode)), ("memory"@, BodyValue::Number(memory)), ("memory_overallocate"@, BodyValue::Number(memory_overallocate)), ("disk"@, BodyValue::Number(disk)), ("disk_overallocate"@, BodyValue::Number(disk_overallocate)), ("upload_size"@, BodyValue::Number(upload_size)), ("daemon_sftp"@, BodyValue::Number(daemon_sftp)), ("daemon_listen"@, BodyValue::Number(daemon_listen))]);
        }
        self.request_with_body(Method::Patch, path_with_id("nodes/", id), ms)
    }

    /// Removes the node `id`.
    pub fn delete_node(&self, id: u32) -> (r: Request)
        ensures
            plain_call(r, self.url_view(), self.api_key_view(), Method::Delete, "nodes/"@ + decimal(id as nat)),
    {
        self.request(Method::Delete, path_with_id("nodes/", id))
    }
}

} // verus!
