use vstd::prelude::*;
use vstd::string::StringExecFns;
use crate::handle::{error_text, get, CURLE_OK};
use crate::headers::HeaderMap;
use crate::http_client::HttpClient;
use crate::request::Request;
use crate::response::Response;
use crate::text::{text_of, utf8_text};

verus! {

/// The address the examples fetch.
pub const EXAMPLE_URL: &'static str = "http://api.4chan.org/pol/threads.json";

/// The simplest use: fetches the example address and gives its body as
/// text.
pub fn example_get() -> (r: Result<String, String>)
    ensures
        match r {
            Ok(t) => exists|data: Seq<u8>| t@ == utf8_text(data),
            Err(msg) => msg@.len() > 0 && exists|code: u32| code != CURLE_OK && msg@ == error_text(code),
        },
{
    match get(EXAMPLE_URL) {
        Ok(data) => Ok(text_of(data.as_slice())),
        Err(msg) => Err(msg),
    }
}

/// A GET of the example address with no header and no body.
pub fn plain_request() -> (r: Request)
    ensures
        r.url@ == EXAMPLE_URL@,
        r.headers.wf(),
        r.headers@ == Map::<Seq<char>, Seq<char>>::empty(),
        r.body@ == Seq::<u8>::empty(),
{
    Request::new(EXAMPLE_URL.to_owned(), HeaderMap::new(), Vec::new())
}

/// A request of the example address that asks for JSON.
pub fn json_request() -> (r: Request)
    ensures
        r.url@ == EXAMPLE_URL@,
        r.headers.wf(),
        r.headers@ == Map::<Seq<char>, Seq<char>>::empty().insert("Accept"@, "application/json"@),
        r.body@ == Seq::<u8>::empty(),
{
    let mut headers = HeaderMap::new();
    headers.insert("Accept".to_owned(), "application/json".to_owned());
    Request::new(EXAMPLE_URL.to_owned(), headers, Vec::new())
}

/// The text a request's outcome shows: the body of a response, or the
/// error as it came.
pub fn render_body(outcome: Result<Response, String>) -> (r: Result<String, String>)
    ensures
        match outcome {
            Ok(resp) => r matches Ok(t) && t@ == utf8_text(resp.body@),
            Err(msg) => r == Err::<String, String>(msg),
        },
{
    match outcome {
        Ok(resp) => Ok(text_of(resp.body.as_slice())),
        Err(msg) => Err(msg),
    }
}

/// Each header as a `name: value` line, in the order given.
pub open spec fn header_listing(s: Seq<(String, String)>) -> Seq<char>
    decreases s.len(),
{
    if s.len() == 0 {
        Seq::empty()
    } else {
        header_listing(s.drop_last()) + s.last().0@ + ": "@ + s.last().1@ + "\n"@
    }
}

/// The text a request's outcome shows in full: each response header as a
/// `name: value` line, then the body; or the error as it came.
pub fn render_listing(outcome: Result<Response, String>) -> (r: Result<String, String>)
    ensures
        match outcome {
            Ok(resp) => r matches Ok(t) && t@ == header_listing(resp.headers.pairs()) + utf8_text(
                resp.body@,
            ),
            Err(msg) => r == Err::<String, String>(msg),
        },
{
    match outcome {
        Ok(resp) => {
            let pairs = resp.headers.pairs_vec();
            let mut out = String::new();
            let mut i: usize = 0;
            while i < pairs.len()
                invariant
                    i <= pairs@.len(),
                    out@ == header_listing(pairs@.take(i as int)),
                decreases pairs@.len() - i,
            {
                proof {
                    assert(pairs@.take(i + 1).drop_last() =~= pairs@.take(i as int));
                }
                out.append(pairs[i].0.as_str());
                out.append(": ");
                out.append(pairs[i].1.as_str());
                out.append("\n");
                i = i + 1;
            }
            assert(pairs@.take(i as int) =~= pairs@);
            let body = text_of(resp.body.as_slice());
            out.append(body.as_str());
            Ok(out)
        },
        Err(msg) => Err(msg),
    }
}

/// The client with a plain request (`plain_request`): the body of the
/// response as text.
pub fn example_basic_client() -> (r: Result<String, String>)
    ensures
        match r {
            Ok(t) => exists|resp: Response| t@ == utf8_text(resp.body@),
            Err(msg) => msg@.len() > 0 && exists|code: u32| code != CURLE_OK && msg@ == error_text(code),
        },
{
    let mut client = HttpClient::new();
    let req = plain_request();
    render_body(client.exec(&req))
}

/// The client with a request that asks for JSON (`json_request`): each
/// response header as a `name: value` line, then the body as text.
pub fn example_client_more() -> (r: Result<String, String>)
    ensures
        match r {
            Ok(t) => exists|resp: Response|
                resp.headers.wf() && t@ == header_listing(resp.headers.pairs()) + utf8_text(
                    resp.body@,
                ),
            Err(msg) => msg@.len() > 0 && exists|code: u32| code != CURLE_OK && msg@ == error_text(code),
        },
{
    let mut client = HttpClient::new();
    let req = json_request();
    render_listing(client.exec(&req))
}

} // verus!
