use vstd::prelude::*;
use crate::headers::HeaderMap;

verus! {

/// HTTP request methods.
#[derive(Clone, Copy, PartialEq, Eq, Structural)]
pub enum Method {
    GET,
    POST,
}

/// An HTTP request: where it goes, the header lines it carries, and its
/// body.
pub struct Request {
    pub url: String,
    pub headers: HeaderMap,
    pub body: Vec<u8>,
}

impl Request {
    /// A request for `url`, which must already be escaped where it needs to
    /// be.
    pub fn new(url: String, headers: HeaderMap, body: Vec<u8>) -> (r: Request)
        ensures
            r.url == url,
            r.headers == headers,
            r.body == body,
    {
        Request { url, headers, body }
    }
}

} // verus!
