use vstd::prelude::*;
use crate::headers::HeaderMap;

verus! {

/// An HTTP response: its header lines and its body.
pub struct Response {
    pub headers: HeaderMap,
    pub body: Vec<u8>,
}

impl Response {
    /// A response made of the given headers and body.
    pub fn new(headers: HeaderMap, body: Vec<u8>) -> (r: Response)
        ensures
            r.headers == headers,
            r.body == body,
    {
        Response { headers, body }
    }
}

} // verus!
