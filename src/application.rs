//! The client for endpoints under `api/application`: where each call goes,
//! with which headers and body.

use vstd::prelude::*;
use crate::body::{BodyValue, encode_object, object_bytes, members_view};

verus! {

#[derive(Clone, Copy, Debug, PartialEq, Eq, Structural)]
pub enum Method {
    Get,
    Post,
    Patch,
    Delete,
}

/// One call to make: the transport sends it as it stands.
#[derive(Debug)]
pub struct Request {
    pub method: Method,
    pub url: String,
    pub headers: Vec<(String, String)>,
    pub body: Option<Vec<u8>>,
}

/// Builds an [`Application`] from the panel's address and an API key.
#[derive(Debug)]
pub struct ApplicationBuilder {
    url: String,
    api_key: String,
}

/// A client of one panel's application API.
#[derive(Debug)]
pub struct Application {
    url: String,
    api_key: String,
}

/// The panel's address with the fixed suffix of the application API.
pub open spec fn base_url(url: Seq<char>) -> Seq<char> {
    if url.len() > 0 && url.last() == '/' {
        url + "api/application/"@
    } else {
        url + "/"@ + "api/application/"@
    }
}

pub open spec fn digit_char(d: nat) -> char {
    if d == 0 {
        '0'
    } else if d == 1 {
        '1'
    } else if d == 2 {
        '2'
    } else if d == 3 {
        '3'
    } else if d == 4 {
        '4'
    } else if d == 5 {
        '5'
    } else if d == 6 {
        '6'
    } else if d == 7 {
        '7'
    } else if d == 8 {
        '8'
    } else {
        '9'
    }
}

/// The decimal digits of `n`, without leading zeros.
pub open spec fn decimal(n: nat) -> Seq<char>
    decreases n,
{
    if n < 10 {
        seq![digit_char(n)]
    } else {
        decimal(n / 10).push(digit_char(n % 10))
    }
}

/// The headers of every call: the API key as a bearer token, and JSON both
/// ways where a body is sent.
pub open spec fn headers_ok(headers: Seq<(String, String)>, api_key: Seq<char>, has_body: bool) -> bool {
    &&& headers.len() == if has_body { 3int } else { 2int }
    &&& headers[0].0@ == "Authorization"@ && headers[0].1@ == "Bearer "@ + api_key
    &&& headers[1].0@ == "Accept"@ && headers[1].1@ == "application/json"@
    &&& has_body ==> headers[2].0@ == "Content-Type"@ && headers[2].1@ == "application/json"@
}

/// `r` is a call of `method` to `path`, without a body.
pub open spec fn plain_call(r: Request, url: Seq<char>, api_key: Seq<char>, method: Method, path: Seq<char>) -> bool {
    &&& r.method == method
    &&& r.url@ == url + path
    &&& headers_ok(r.headers@, api_key, false)
    &&& r.body is None
}

/// `r` is a call of `method` to `path` whose body is the object with the members `ms`.
pub open spec fn body_call(
    r: Request,
    url: Seq<char>,
    api_key: Seq<char>,
    method: Method,
    path: Seq<char>,
    ms: Seq<(Seq<char>, BodyValue)>,
) -> bool {
    &&& r.method == method
    &&& r.url@ == url + path
    &&& headers_ok(r.headers@, api_key, true)
    &&& r.body matches Some(b) && b@ == object_bytes(ms)
}

fn digit_str(d: u32) -> (r: &'static str)
    requires
        d < 10,
    ensures
        r@ == seq![digit_char(d as nat)],
{
    proof {
        reveal_strlit("0");
        reveal_strlit("1");
        reveal_strlit("2");
        reveal_strlit("3");
        reveal_strlit("4");
        reveal_strlit("5");
        reveal_strlit("6");
        reveal_strlit("7");
        reveal_strlit("8");
        reveal_strlit("9");
    }
    if d == 0 {
        "0"
    } else if d == 1 {
        "1"
    } else if d == 2 {
        "2"
    } else if d == 3 {
        "3"
    } else if d == 4 {
        "4"
    } else if d == 5 {
        "5"
    } else if d == 6 {
        "6"
    } else if d == 7 {
        "7"
    } else if d == 8 {
        "8"
    } else {
        "9"
    }
}

/// Appends the decimal digits of `n`.
pub fn append_decimal(s: &mut String, n: u32)
    ensures
        final(s)@ == old(s)@ + decimal(n as nat),
    decreases n,
{
    let ghost start = s@;
    if n >= 10 {
        append_decimal(s, n / 10);
    }
    s.append(digit_str(n % 10));
    assert(s@ =~= start + decimal(n as nat));
}

impl ApplicationBuilder {
    /// A builder for the panel at `url`, authenticating with `api_key`.
    pub fn new(url: &str, api_key: &str) -> (r: ApplicationBuilder)
        ensures
            r.url_view() == base_url(url@),
            r.api_key_view() == api_key@,
    {
        let mut full = String::from_str(url);
        let n = url.unicode_len();
        if n == 0 || url.get_char(n - 1) != '/' {
            full.append("/");
        }
        full.append("api/application/");
        ApplicationBuilder { url: full, api_key: String::from_str(api_key) }
    }

    pub closed spec fn url_view(&self) -> Seq<char> {
        self.url@
    }

    pub closed spec fn api_key_view(&self) -> Seq<char> {
        self.api_key@
    }

    pub fn build(self) -> (r: Application)
        ensures
            r.url_view() == self.url_view(),
            r.api_key_view() == self.api_key_view(),
    {
        Application { url: self.url, api_key: self.api_key }
    }
}

impl Application {
    pub closed spec fn url_view(&self) -> Seq<char> {
        self.url@
    }

    pub closed spec fn api_key_view(&self) -> Seq<char> {
        self.api_key@
    }

    /// The base URL that every path is relative to.
    pub fn url(&self) -> (r: &str)
        ensures
            r@ == self.url_view(),
    {
        self.url.as_str()
    }

    fn headers(&self, has_body: bool) -> (r: Vec<(String, String)>)
        ensures
            headers_ok(r@, self.api_key_view(), has_body),
    {
        let mut bearer = String::from_str("Bearer ");
        bearer.append(self.api_key.as_str());
        let mut hs: Vec<(String, String)> = Vec::new();
        hs.push((String::from_str("Authorization"), bearer));
        hs.push((String::from_str("Accept"), String::from_str("application/json")));
        if has_body {
            hs.push((String::from_str("Content-Type"), String::from_str("application/json")));
        }
        hs
    }

    /// A call without a body to `path`, relative to the base URL.
    pub fn request(&self, method: Method, path: String) -> (r: Request)
        ensures
            plain_call(r, self.url_view(), self.api_key_view(), method, path@),
    {
        let mut url = self.url.clone();
        url.append(path.as_str());
        Request { method, url, headers: self.headers(false), body: None }
    }

    /// A call to `path` whose body is the JSON object with the members `ms`.
    pub fn request_with_body(&self, method: Method, path: String, ms: Vec<(String, BodyValue)>) -> (r: Request)
        ensures
            body_call(r, self.url_view(), self.api_key_view(), method, path@, members_view(ms@)),
    {
        let mut url = self.url.clone();
        url.append(path.as_str());
        Request { method, url, headers: self.headers(true), body: Some(encode_object(&ms)) }
    }
}

/// `prefix` followed by the decimal digits of `n`.
pub fn path_with_id(prefix: &str, n: u32) -> (r: String)
    ensures
        r@ == prefix@ + decimal(n as nat),
{
    let mut s = String::from_str(prefix);
    append_decimal(&mut s, n);
    s
}

/// `prefix`, the digits of `n`, then `suffix`.
pub fn path_with_id_then(prefix: &str, n: u32, suffix: &str) -> (r: String)
    ensures
        r@ == prefix@ + decimal(n as nat) + suffix@,
{
    let mut s = path_with_id(prefix, n);
    s.append(suffix);
    s
}

/// A member of a request body.
pub fn member(key: &str, v: BodyValue) -> (r: (String, BodyValue))
    ensures
        r.0@ == key@,
        r.1 == v,
{
    (String::from_str(key), v)
}

} // verus!
