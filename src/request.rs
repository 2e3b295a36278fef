//! The dispatch core: what request a call sends, and what its response means.

use vstd::prelude::*;
use vstd::string::{StrSliceExecFns, StringExecFns};
use crate::error::ClientError;

verus! {

/// The HTTP verbs the service is called with.
#[derive(Debug, Clone, Copy, PartialEq, Eq, Structural)]
pub enum Method {
    Get,
    Post,
    Put,
    Patch,
    Delete,
}

/// One request, ready to be sent: verb, full URL, headers in order, and the
/// JSON body if there is one. An absent body means that no payload is sent.
#[derive(Debug, Clone)]
pub struct Request {
    pub method: Method,
    pub url: String,
    pub headers: Vec<(String, String)>,
    pub body: Option<String>,
}

impl Request {
    /// This is the request `method` on `url` with `body`, carrying the API key
    /// `key` and the JSON content type as its two headers.
    pub open spec fn describes(
        &self,
        method: Method,
        url: Seq<char>,
        body: Option<Seq<char>>,
        key: Seq<char>,
    ) -> bool {
        &&& self.method == method
        &&& self.url@ == url
        &&& self.body.deep_view() == body
        &&& self.headers@.len() == 2
        &&& self.headers@[0].0@ == "X-API-Key"@
        &&& self.headers@[0].1@ == key
        &&& self.headers@[1].0@ == "Content-Type"@
        &&& self.headers@[1].1@ == "application/json"@
    }
}

/// A URL followed by its query string: with `?` between them, or alone when
/// the query string is empty, so that no query marker dangles.
pub open spec fn with_query(url: Seq<char>, query: Seq<char>) -> Seq<char> {
    if query.len() == 0 {
        url
    } else {
        url + "?"@ + query
    }
}

/// Appends a query string to a URL, as `with_query` says.
pub fn append_query(url: String, query: String) -> (r: String)
    ensures
        r@ == with_query(url@, query@),
{
    if query.as_str().unicode_len() == 0 {
        url
    } else {
        let mut r = url;
        r.append("?");
        r.append(query.as_str());
        r
    }
}

/// An entry point as it is kept: ending with `/`, which is added when missing.
pub open spec fn normalized_entry_point(e: Seq<char>) -> Seq<char> {
    if e.len() > 0 && e.last() == '/' {
        e
    } else {
        e.push('/')
    }
}

/// Where the service is and the key it is called with. It never changes
/// after it is made, so any number of calls may read it at once.
#[derive(Debug, Clone)]
pub struct ClientConfig {
    entry_point: String,
    api_key: String,
}

impl ClientConfig {
    /// The base URL under which every path is rooted.
    pub closed spec fn entry(&self) -> Seq<char> {
        self.entry_point@
    }

    /// The API key sent with every request.
    pub closed spec fn key(&self) -> Seq<char> {
        self.api_key@
    }

    /// The configuration for the service at `entry_point`, called with
    /// `api_key`.
    pub fn new(entry_point: &str, api_key: &str) -> (r: Self)
        ensures
            r.entry() == normalized_entry_point(entry_point@),
            r.key() == api_key@,
    {
        let mut e = String::from_str(entry_point);
        let n = entry_point.unicode_len();
        if n == 0 || entry_point.get_char(n - 1) != '/' {
            proof {
                reveal_strlit("/");
            }
            e.append("/");
        }
        ClientConfig { entry_point: e, api_key: String::from_str(api_key) }
    }

    /// The base URL.
    pub fn entry_point(&self) -> (r: &str)
        ensures
            r@ == self.entry(),
    {
        self.entry_point.as_str()
    }

    /// The API key.
    pub fn api_key(&self) -> (r: &str)
        ensures
            r@ == self.key(),
    {
        self.api_key.as_str()
    }

    /// The URL of `path` under the entry point.
    pub(crate) fn url(&self, path: &str) -> (r: String)
        ensures
            r@ == self.entry() + path@,
    {
        let mut r = self.entry_point.clone();
        r.append(path);
        r
    }

    /// The request `method` on `url` with `body`, with the API-key header and
    /// the JSON content-type header, whether or not a body is present.
    pub fn request(&self, method: Method, url: String, body: Option<String>) -> (r: Request)
        ensures
            r.describes(method, url@, body.deep_view(), self.key()),
    {
        let headers = vec![
            (String::from_str("X-API-Key"), self.api_key.clone()),
            (String::from_str("Content-Type"), String::from_str("application/json")),
        ];
        Request { method, url, headers, body }
    }
}

/// What a response means. Status 200: its body, to be decoded as the result.
/// Any other status: an API failure carrying that status and the whole body
/// as its message, untouched.
pub fn interpret_response(status_code: u16, body: String) -> (r: Result<String, ClientError>)
    ensures
        status_code == 200 ==> r == Ok::<String, ClientError>(body),
        status_code != 200 ==> r == Err::<String, ClientError>(
            ClientError::Api { status_code, message: body },
        ),
{
    if status_code == 200 {
        Ok(body)
    } else {
        Err(ClientError::Api { status_code, message: body })
    }
}

} // verus!
