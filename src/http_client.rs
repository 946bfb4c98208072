use vstd::prelude::*;
use vstd::string::StringExecFns;
use crate::callback::{after_header_lines, set_cookie, HttpHeaders, SimpleCurlByteBuffer};
use crate::handle::{easy_strerror, error_text, Curl, CURLE_OK};
use crate::headers::HeaderMap;
use crate::opt::{texts, CURLoption, EasyCurlOption, OptModel, RawModel};
use crate::request::Request;
use crate::response::Response;

verus! {

/// The wire form of one request header.
pub open spec fn header_line(name: Seq<char>, value: Seq<char>) -> Seq<char> {
    name + ": "@ + value
}

/// Whether `line` is the wire form of one header of `m`.
pub open spec fn is_line_of(m: Map<Seq<char>, Seq<char>>, line: Seq<char>) -> bool {
    exists|k: Seq<char>| m.contains_key(k) && line == header_line(k, m[k])
}

/// The wire lines of a header map, in the order its entries are stored.
pub open spec fn header_texts(h: HeaderMap) -> Seq<Seq<char>> {
    h.pairs().map_values(|p: (String, String)| header_line(p.0@, p.1@))
}

/// The lines `name: value` of each request header, one for each name in the
/// map and nothing else.
pub fn header_lines(h: &HeaderMap) -> (r: Vec<String>)
    requires
        h.wf(),
    ensures
        texts(r@) == header_texts(*h),
        r@.len() == h@.len(),
        forall|k: Seq<char>| #[trigger]
            h@.contains_key(k) ==> exists|i: int|
                0 <= i < r@.len() && r@[i]@ == header_line(k, h@[k]),
        forall|i: int| 0 <= i < r@.len() ==> #[trigger] is_line_of(h@, r@[i]@),
{
    proof {
        h.lemma_pairs();
    }
    let pairs = h.pairs_vec();
    let mut r: Vec<String> = Vec::new();
    let mut i: usize = 0;
    while i < pairs.len()
        invariant
            pairs@ == h.pairs(),
            i <= pairs@.len(),
            r@.len() == i,
            forall|j: int|
                0 <= j < i ==> #[trigger] r@[j]@ == header_line(pairs@[j].0@, pairs@[j].1@),
        decreases pairs@.len() - i,
    {
        let mut line = pairs[i].0.clone();
        line.append(": ");
        line.append(pairs[i].1.as_str());
        r.push(line);
        i = i + 1;
    }
    assert(texts(r@) =~= header_texts(*h));
    assert forall|k: Seq<char>| #[trigger]
        h@.contains_key(k) implies exists|i: int|
            0 <= i < r@.len() && r@[i]@ == header_line(k, h@[k]) by {
        let j = choose|j: int| 0 <= j < h.pairs().len() && #[trigger] h.pairs()[j].0@ == k;
        assert(r@[j]@ == header_line(k, h@[k]));
    }
    assert forall|i: int| 0 <= i < r@.len() implies #[trigger] is_line_of(h@, r@[i]@) by {
        let k = h.pairs()[i].0@;
        assert(h@[k] == h.pairs()[i].1@);
        assert(h@.contains_key(k) && r@[i]@ == header_line(k, h@[k]));
    }
    r
}

/// The configuration a request is performed with: its URL, redirects
/// followed, and its header lines when it has any.
pub open spec fn request_settings(req: Request) -> Seq<RawModel> {
    seq![
        (CURLoption::URL, OptModel::Text(req.url@)),
        (CURLoption::FOLLOWLOCATION, OptModel::Long(1)),
    ] + if req.headers@.len() == 0 {
        Seq::empty()
    } else {
        seq![(CURLoption::HTTPHEADER, OptModel::Lines(header_texts(req.headers)))]
    }
}

/// The outcome of a transfer from its completion code: the response made of
/// what was received if the code is `CURLE_OK`, else the engine's text for
/// the code.
pub fn complete_transfer(code: u32, headers: HeaderMap, body: Vec<u8>) -> (r: Result<
    Response,
    String,
>)
    ensures
        code == CURLE_OK ==> (r matches Ok(resp) && resp.headers == headers && resp.body == body),
        code != CURLE_OK ==> (r matches Err(msg) && msg@ == error_text(code) && msg@.len() > 0),
{
    if code == CURLE_OK {
        Ok(Response::new(headers, body))
    } else {
        Err(easy_strerror(code))
    }
}

/// An HTTP client that runs one request after another on one session.
pub struct HttpClient {
    curl: Curl,
}

impl HttpClient {
    /// Between requests the session holds no configuration: nothing of one
    /// request is left for the next.
    pub closed spec fn wf(&self) -> bool {
        self.curl.settings() == Seq::<RawModel>::empty()
    }

    /// The configuration the last request was performed with, if one was.
    pub closed spec fn last_transfer(&self) -> Option<Seq<RawModel>> {
        self.curl.last_transfer()
    }

    /// A client on a fresh session.
    pub fn new() -> (r: HttpClient)
        ensures
            r.wf(),
            r.last_transfer() is None,
    {
        HttpClient { curl: Curl::new() }
    }

    /// Applies one option, or returns the code of the call that failed.
    fn configure(&mut self, opt: EasyCurlOption) -> (code: u32)
        ensures
            code == CURLE_OK ==> final(self).curl.settings() == old(self).curl.settings()
                + crate::opt::expand(opt),
            final(self).curl.last_transfer() == old(self).curl.last_transfer(),
    {
        self.curl.easy_setopt(opt)
    }

    /// Performs `req`: its URL, redirects followed, and its headers as
    /// `name: value` lines; the body and the header lines received are
    /// collected, `Set-Cookie` left out. A failure, of the configuration or
    /// of the transfer, gives the engine's text for its code. Either way the
    /// session is reset for the next request.
    pub fn exec(&mut self, req: &Request) -> (r: Result<Response, String>)
        requires
            old(self).wf(),
            req.headers.wf(),
        ensures
            final(self).wf(),
            final(self).last_transfer() == old(self).last_transfer() || final(self).last_transfer()
                == Some(request_settings(*req)),
            match r {
                Ok(resp) => {
                    &&& final(self).last_transfer() == Some(request_settings(*req))
                    &&& resp.headers.wf()
                    &&& !resp.headers@.contains_key(set_cookie())
                    &&& exists|lines: Seq<Seq<u8>>|
                        resp.headers@ == after_header_lines(
                            Map::<Seq<char>, Seq<char>>::empty(),
                            lines,
                        )
                },
                Err(msg) => msg@.len() > 0 && exists|code: u32| code != CURLE_OK && msg@ == error_text(code),
            },
    {
        let code = self.configure(EasyCurlOption::URL(req.url.clone()));
        if code != CURLE_OK {
            self.curl.easy_reset();
            return Err(easy_strerror(code));
        }
        let code = self.configure(EasyCurlOption::FollowLocation(true));
        if code != CURLE_OK {
            self.curl.easy_reset();
            return Err(easy_strerror(code));
        }
        if !req.headers.is_empty() {
            let lines = header_lines(&req.headers);
            let code = self.configure(EasyCurlOption::HttpHeader(lines));
            if code != CURLE_OK {
                self.curl.easy_reset();
                return Err(easy_strerror(code));
            }
        }
        assert(self.curl.settings() =~= request_settings(*req));
        let mut body = SimpleCurlByteBuffer::new();
        let mut headers = HttpHeaders::new();
        let code = self.curl.easy_perform(&mut body, &mut headers);
        self.curl.easy_reset();
        complete_transfer(code, headers.map, body.data)
    }
}

} // verus!
