//! The JSON values that responses carry, and typed reads of an object's fields.

use vstd::prelude::*;

verus! {

/// A JSON document as the decoders read it.
#[derive(Debug)]
pub enum Json {
    Null,
    Bool(bool),
    /// A number without a fraction or an exponent.
    Int(i128),
    /// A number with a fraction or an exponent.
    Fraction,
    Str(String),
    Array(Vec<Json>),
    /// An object's members, in the order in which they were written.
    Object(Vec<(String, Json)>),
}

/// The value of the first member named `key`.
pub open spec fn lookup(members: Seq<(String, Json)>, key: Seq<char>) -> Option<Json>
    decreases members.len(),
{
    if members.len() == 0 {
        None
    } else if members[0].0@ == key {
        Some(members[0].1)
    } else {
        lookup(members.drop_first(), key)
    }
}

/// The member `key` of `j`, when `j` is an object that has one.
pub open spec fn field(j: Json, key: Seq<char>) -> Option<Json> {
    match j {
        Json::Object(members) => lookup(members@, key),
        _ => None,
    }
}

pub open spec fn as_u32(j: Option<Json>) -> Option<u32> {
    match j {
        Some(Json::Int(n)) => if 0 <= n <= u32::MAX {
            Some(n as u32)
        } else {
            None
        },
        _ => None,
    }
}

pub open spec fn as_i32(j: Option<Json>) -> Option<i32> {
    match j {
        Some(Json::Int(n)) => if i32::MIN <= n <= i32::MAX {
            Some(n as i32)
        } else {
            None
        },
        _ => None,
    }
}

pub open spec fn as_bool(j: Option<Json>) -> Option<bool> {
    match j {
        Some(Json::Bool(b)) => Some(b),
        _ => None,
    }
}

pub open spec fn as_text(j: Option<Json>) -> Option<Seq<char>> {
    match j {
        Some(Json::Str(s)) => Some(s@),
        _ => None,
    }
}

/// An optional text: absent and `null` both read as no text.
pub open spec fn as_opt_text(j: Option<Json>) -> Option<Option<Seq<char>>> {
    match j {
        None => Some(None),
        Some(Json::Null) => Some(None),
        Some(Json::Str(s)) => Some(Some(s@)),
        _ => None,
    }
}

pub open spec fn text_view(o: Option<String>) -> Option<Seq<char>> {
    match o {
        Some(s) => Some(s@),
        None => None,
    }
}

pub open spec fn opt_text_view(o: Option<Option<String>>) -> Option<Option<Seq<char>>> {
    match o {
        Some(inner) => Some(text_view(inner)),
        None => None,
    }
}

pub fn same_text(a: &String, b: &str) -> (r: bool)
    ensures
        r == (a@ == b@),
{
    let b = b.to_owned();
    *a == b
}

/// Finds the member `key` of `j`.
pub fn get_field<'a>(j: &'a Json, key: &str) -> (r: Option<&'a Json>)
    ensures
        match r {
            Some(v) => field(*j, key@) == Some(*v),
            None => field(*j, key@) is None,
        },
{
    match j {
        Json::Object(members) => {
            let n = members.len();
            let mut i: usize = 0;
            proof {
                assert(members@.subrange(0, n as int) =~= members@);
            }
            while i < n
                invariant
                    n == members@.len(),
                    field(*j, key@) == lookup(members@, key@),
                    0 <= i <= n,
                    lookup(members@, key@) == lookup(members@.subrange(i as int, n as int), key@),
                decreases n - i,
            {
                let rest = Ghost(members@.subrange(i as int, n as int));
                if same_text(&members[i].0, key) {
                    proof {
                        assert(rest@[0] == members@[i as int]);
                        assert(lookup(rest@, key@) == Some(members@[i as int].1));
                    }
                    return Some(&members[i].1);
                }
                proof {
                    assert(rest@.drop_first() =~= members@.subrange(i + 1, n as int));
                }
                i += 1;
            }
            None
        },
        _ => None,
    }
}

pub fn read_u32(j: &Json, key: &str) -> (r: Option<u32>)
    ensures
        r == as_u32(field(*j, key@)),
{
    match get_field(j, key) {
        Some(Json::Int(n)) => if 0 <= *n && *n <= u32::MAX as i128 {
            Some(*n as u32)
        } else {
            None
        },
        _ => None,
    }
}

pub fn read_i32(j: &Json, key: &str) -> (r: Option<i32>)
    ensures
        r == as_i32(field(*j, key@)),
{
    match get_field(j, key) {
        Some(Json::Int(n)) => if i32::MIN as i128 <= *n && *n <= i32::MAX as i128 {
            Some(*n as i32)
        } else {
            None
        },
        _ => None,
    }
}

pub fn read_bool(j: &Json, key: &str) -> (r: Option<bool>)
    ensures
        r == as_bool(field(*j, key@)),
{
    match get_field(j, key) {
        Some(Json::Bool(b)) => Some(*b),
        _ => None,
    }
}

pub fn read_text(j: &Json, key: &str) -> (r: Option<String>)
    ensures
        text_view(r) == as_text(field(*j, key@)),
{
    match get_field(j, key) {
        Some(Json::Str(s)) => Some(s.clone()),
        _ => None,
    }
}

pub fn read_opt_text(j: &Json, key: &str) -> (r: Option<Option<String>>)
    ensures
        opt_text_view(r) == as_opt_text(field(*j, key@)),
{
    match get_field(j, key) {
        None => Some(None),
        Some(Json::Null) => Some(None),
        Some(Json::Str(s)) => Some(Some(s.clone())),
        _ => None,
    }
}

} // verus!
