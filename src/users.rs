//! Endpoints under `api/application/users`.

use vstd::prelude::*;
use crate::application::{Application, Method, Request, plain_call, body_call, decimal, member, path_with_id};
use crate::body::{BodyValue, members_view};
use crate::envelope::Resource;
use crate::error::Error;
use crate::json::{Json, field, as_u32, as_bool, as_text, read_u32, read_bool, read_text};
use crate::stamp::{Timestamp, stamp_of, uuid_of, read_stamp, read_uuid};

verus! {

/// An account that can log in to the panel.
#[derive(Debug)]
#[non_exhaustive]
pub struct User {
    /// The id of this user
    pub id: u32,
    /// The id that an outside system gave this user
    pub external_id: String,
    /// The UUID of this user
    pub uuid: u128,
    /// The login name of this user
    pub username: String,
    /// The email address of this user
    pub email: String,
    /// The user's first name
    pub first_name: String,
    /// The user's last name
    pub last_name: String,
    /// The user's language
    pub language: String,
    /// Whether the user has admin rights
    pub root_admin: bool,
    /// Whether the user has two-factor authentication on
    pub two_factor_enabled: bool,
    /// When this user was created
    pub created_at: Timestamp,
    /// When this user was last updated
    pub updated_at: Timestamp,
}

impl Resource for User {
    open spec fn accepts(j: Json) -> bool {
        &&& as_u32(field(j, "id"@)) is Some
        &&& as_text(field(j, "external_id"@)) is Some
        &&& uuid_of(field(j, "uuid"@)) is Some
        &&& as_text(field(j, "username"@)) is Some
        &&& as_text(field(j, "email"@)) is Some
        &&& as_text(field(j, "first_name"@)) is Some
        &&& as_text(field(j, "last_name"@)) is Some
        &&& as_text(field(j, "language"@)) is Some
        &&& as_bool(field(j, "root_admin"@)) is Some
        &&& as_bool(field(j, "2fa"@)) is Some
        &&& stamp_of(field(j, "created_at"@)) is Some
        &&& stamp_of(field(j, "updated_at"@)) is Some
    }

    open spec fn decodes_to(j: Json, v: User) -> bool {
        &&& as_u32(field(j, "id"@)) == Some(v.id)
        &&& as_text(field(j, "external_id"@)) == Some(v.external_id@)
        &&& uuid_of(field(j, "uuid"@)) == Some(v.uuid)
        &&& as_text(field(j, "username"@)) == Some(v.username@)
        &&& as_text(field(j, "email"@)) == Some(v.email@)
        &&& as_text(field(j, "first_name"@)) == Some(v.first_name@)
        &&& as_text(field(j, "last_name"@)) == Some(v.last_name@)
        &&& as_text(field(j, "language"@)) == Some(v.language@)
        &&& as_bool(field(j, "root_admin"@)) == Some(v.root_admin)
        &&& as_bool(field(j, "2fa"@)) == Some(v.two_factor_enabled)
        &&& stamp_of(field(j, "created_at"@)) == Some(v.created_at)
        &&& stamp_of(field(j, "updated_at"@)) == Some(v.updated_at)
    }

    fn decode(j: &Json) -> (r: Result<User, Error>) {
        let id = match read_u32(j, "id") {
            Some(x) => x,
            None => {
                return Err(Error::Decode);
            },
        };
        let external_id = match read_text(j, "external_id") {
            Some(x) => x,
            None => {
                return Err(Error::Decode);
            },
        };
        let uuid = match read_uuid(j, "uuid") {
            Some(x) => x,
            None => {
                return Err(Error::Decode);
            },
        };
        let username = match read_text(j, "username") {
            Some(x) => x,
            None => {
                return Err(Error::Decode);
            },
        };
        let email = match read_text(j, "email") {
            Some(x) => x,
            None => {
                return Err(Error::Decode);
            },
        };
        let first_name = match read_text(j, "first_name") {
            Some(x) => x,
            None => {
                return Err(Error::Decode);
            },
        };
        let last_name = match read_text(j, "last_name") {
            Some(x) => x,
            None => {
                return Err(Error::Decode);
            },
        };
        let language = match read_text(j, "language") {
            Some(x) => x,
            None => {
                return Err(Error::Decode);
            },
        };
        let root_admin = match read_bool(j, "root_admin") {
            Some(x) => x,
            None => {
                return Err(Error::Decode);
            },
        };
        let two_factor_enabled = match read_bool(j, "2fa") {
            Some(x) => x,
            None => {
                return Err(Error::Decode);
            },
        };
        let created_at = match read_stamp(j, "created_at") {
            Some(x) => x,
            None => {
                return Err(Error::Decode);
            },
        };
        let updated_at = match read_stamp(j, "updated_at") {
            Some(x) => x,
            None => {
                return Err(Error::Decode);
            },
        };
        Ok(User { id, external_id, uuid, username, email, first_name, last_name, language, root_admin, two_factor_enabled, created_at, updated_at })
    }
}

fn users_path(external_id: &String) -> (r: String)
    ensures
        r@ == "users/"@ + external_id@,
{
    let mut s = String::from_str("users/");
    s.append(external_id.as_str());
    s
}

impl Application {
    /// Retrieves all users.
    pub fn list_users(&self) -> (r: Request)
        ensures
            plain_call(r, self.url_view(), self.api_key_view(), Method::Get, "users"@),
    {
        self.request(Method::Get, String::from_str("users"))
    }

    /// Retrieves the user `id`.
    pub fn get_user(&self, id: u32) -> (r: Request)
        ensures
            plain_call(r, self.url_view(), self.api_key_view(), Method::Get, "users/"@ + decimal(id as nat)),
    {
        self.request(Method::Get, path_with_id("users/", id))
    }

    /// Retrieves a user by the id that an outside system gave it.
    pub fn get_user_external(&self, external_id: String) -> (r: Request)
        ensures
            plain_call(r, self.url_view(), self.api_key_view(), Method::Get, "users/"@ + external_id@),
    {
        self.request(Method::Get, users_path(&external_id))
    }

    /// Adds a user with the given email, username and names.
    pub fn add_user(&self, email: String, username: String, first_name: String, last_name: String) -> (r: Request)
        ensures
            body_call(
                r,
                self.url_view(),
                self.api_key_view(),
                Method::Post,
                "users"@,
                seq![("email"@, BodyValue::Text(email)), ("username"@, BodyValue::Text(username)), ("first_name"@, BodyValue::Text(first_name)), ("last_name"@, BodyValue::Text(last_name))],
            ),
    {
        let mut ms: Vec<(String, BodyValue)> = Vec::new();
        ms.push(member("email", BodyValue::Text(email)));
        ms.push(member("username", BodyValue::Text(username)));
        ms.push(member("first_name", BodyValue::Text(first_name)));
        ms.push(member("last_name", BodyValue::Text(last_name)));
        proof {
            assert(members_view(ms@) =~= seq![("email"@, BodyValue::Text(email)), ("username"@, BodyValue::Text(username)), ("first_name"@, BodyValue::Text(first_name)), ("last_name"@, BodyValue::Text(last_name))]);
        }
        self.request_with_body(Method::Post, String::from_str("users"), ms)
    }

    /// Replaces the details of the user `id`.
    pub fn update_user(&self, id: u32, email: String, username: String, first_name: String, last_name: String, language: String, password: String) -> (r: Request)
        ensures
            body_call(
                r,
                self.url_view(),
                self.api_key_view(),
                Method::Patch,
                "users/"@ + decimal(id as nat),
                seq![("email"@, BodyValue::Text(email)), ("username"@, BodyValue::Text(username)), ("first_name"@, BodyValue::Text(first_name)), ("last_name"@, BodyValue::Text(last_name)), ("language"@, BodyValue::Text(language)), ("password"@, BodyValue::Text(password))],
            ),
    {
        let mut ms: Vec<(String, BodyValue)> = Vec::new();
        ms.push(member("email", BodyValue::Text(email)));
        ms.push(member("username", BodyValue::Text(username)));
        ms.push(member("first_name", BodyValue::Text(first_name)));
        ms.push(member("last_name", BodyValue::Text(last_name)));
        ms.push(member("language", BodyValue::Text(language)));
        ms.push(member("password", BodyValue::Text(password)));
        proof {
            assert(members_view(ms@) =~= seq![("email"@, BodyValue::Text(email)), ("username"@, BodyValue::Text(username)), ("first_name"@, BodyValue::Text(first_name)), ("last_name"@, BodyValue::Text(last_name)), ("language"@, BodyValue::Text(language)), ("password"@, BodyValue::Text(password))]);
        }
        self.request_with_body(Method::Patch, path_with_id("users/", id), ms)
    }

    /// Removes the user `id`.
    pub fn delete_user(&self, id: u32) -> (r: Request)
        ensures
            plain_call(r, self.url_view(), self.api_key_view(), Method::Delete, "users/"@ + decimal(id as nat)),
    {
        self.request(Method::Delete, path_with_id("users/", id))
    }
}

} // verus!
