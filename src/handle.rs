use vstd::prelude::*;
use vstd::utf8::*;
use crate::callback::{after_header_lines, HttpHeaders, SimpleCurlByteBuffer};
use crate::escape::{escaped_text, unescaped_bytes};
use crate::opt::{
    expand, expand_option, raw_models, texts, CURLoption, EasyCurlOption, OptModel, OptValue, RawModel,
    RawOption,
};
use crate::text::{text_of, utf8_text};

verus! {

#[verifier::external_type_specification]
#[verifier::external_body]
pub struct ExEasy(::curl::easy::Easy);

#[verifier::external_type_specification]
#[verifier::external_body]
pub struct ExList(::curl::easy::List);

/// The completion code of a call that succeeded.
pub const CURLE_OK: u32 = 0;

/// The completion code for a host name that could not be resolved.
pub const CURLE_COULDNT_RESOLVE_HOST: u32 = 6;

/// The completion code for a host that could not be connected to.
pub const CURLE_COULDNT_CONNECT: u32 = 7;

/// The completion code for an option given a value of the wrong kind.
pub const CURLE_BAD_FUNCTION_ARGUMENT: u32 = 43;

/// The text the engine gives for a completion code.
pub uninterp spec fn error_text(code: u32) -> Seq<char>;

/// Relies on `curl::Error::description` of a fresh error, which is the
/// engine's `curl_easy_strerror`: a fixed, non-empty text for each code.
#[verifier::external_body]
pub fn easy_strerror(code: u32) -> (r: String)
    ensures
        r@ == error_text(code),
        r@.len() > 0,
{
    ::curl::Error::new(code).description().to_owned()
}

/// Relies on `curl::easy::Easy::new`: a fresh session.
#[verifier::external_body]
fn easy_init() -> ::curl::easy::Easy {
    ::curl::easy::Easy::new()
}

/// Relies on `curl::easy::Easy::url`.
#[verifier::external_body]
fn set_url(h: &mut ::curl::easy::Easy, s: &str) -> u32 {
    match h.url(s) {
        Ok(()) => CURLE_OK,
        Err(e) => e.code(),
    }
}

/// Relies on `curl::easy::Easy::username`.
#[verifier::external_body]
fn set_username(h: &mut ::curl::easy::Easy, s: &str) -> u32 {
    match h.username(s) {
        Ok(()) => CURLE_OK,
        Err(e) => e.code(),
    }
}

/// Relies on `curl::easy::Easy::password`.
#[verifier::external_body]
fn set_password(h: &mut ::curl::easy::Easy, s: &str) -> u32 {
    match h.password(s) {
        Ok(()) => CURLE_OK,
        Err(e) => e.code(),
    }
}

/// Relies on `curl::easy::Easy::proxy`.
#[verifier::external_body]
fn set_proxy(h: &mut ::curl::easy::Easy, s: &str) -> u32 {
    match h.proxy(s) {
        Ok(()) => CURLE_OK,
        Err(e) => e.code(),
    }
}

/// Relies on `curl::easy::Easy::proxy_username`.
#[verifier::external_body]
fn set_proxy_username(h: &mut ::curl::easy::Easy, s: &str) -> u32 {
    match h.proxy_username(s) {
        Ok(()) => CURLE_OK,
        Err(e) => e.code(),
    }
}

/// Relies on `curl::easy::Easy::proxy_password`.
#[verifier::external_body]
fn set_proxy_password(h: &mut ::curl::easy::Easy, s: &str) -> u32 {
    match h.proxy_password(s) {
        Ok(()) => CURLE_OK,
        Err(e) => e.code(),
    }
}

/// Relies on `curl::easy::Easy::referer`.
#[verifier::external_body]
fn set_referer(h: &mut ::curl::easy::Easy, s: &str) -> u32 {
    match h.referer(s) {
        Ok(()) => CURLE_OK,
        Err(e) => e.code(),
    }
}

/// Relies on `curl::easy::Easy::timeout`, given whole seconds.
#[verifier::external_body]
fn set_timeout(h: &mut ::curl::easy::Easy, secs: u64) -> u32 {
    match h.timeout(std::time::Duration::from_secs(secs)) {
        Ok(()) => CURLE_OK,
        Err(e) => e.code(),
    }
}

/// Relies on `curl::easy::Easy::verbose`.
#[verifier::external_body]
fn set_verbose(h: &mut ::curl::easy::Easy, on: bool) -> u32 {
    match h.verbose(on) {
        Ok(()) => CURLE_OK,
        Err(e) => e.code(),
    }
}

/// Relies on `curl::easy::Easy::show_header`.
#[verifier::external_body]
fn set_show_header(h: &mut ::curl::easy::Easy, on: bool) -> u32 {
    match h.show_header(on) {
        Ok(()) => CURLE_OK,
        Err(e) => e.code(),
    }
}

/// Relies on `curl::easy::Easy::follow_location`.
#[verifier::external_body]
fn set_follow_location(h: &mut ::curl::easy::Easy, on: bool) -> u32 {
    match h.follow_location(on) {
        Ok(()) => CURLE_OK,
        Err(e) => e.code(),
    }
}

/// Relies on `curl::easy::Easy::http_headers`, which takes the list over.
#[verifier::external_body]
fn set_http_headers(h: &mut ::curl::easy::Easy, l: ::curl::easy::List) -> u32 {
    match h.http_headers(l) {
        Ok(()) => CURLE_OK,
        Err(e) => e.code(),
    }
}

/// The strings an engine list holds, in order.
pub uninterp spec fn list_lines(l: ::curl::easy::List) -> Seq<Seq<char>>;

/// Relies on `curl::easy::List::new`: an empty list.
#[verifier::external_body]
fn list_new() -> (r: ::curl::easy::List)
    ensures
        list_lines(r) == Seq::<Seq<char>>::empty(),
{
    ::curl::easy::List::new()
}

/// Relies on `curl::easy::List::append`: on success the string is added at
/// the end; a string it refuses (one holding a NUL) leaves the list as it
/// was.
#[verifier::external_body]
fn list_append(l: &mut ::curl::easy::List, s: &str) -> (r: u32)
    ensures
        r == CURLE_OK ==> list_lines(*final(l)) == list_lines(*old(l)).push(s@),
        r != CURLE_OK ==> list_lines(*final(l)) == list_lines(*old(l)),
{
    match l.append(s) {
        Ok(()) => CURLE_OK,
        Err(e) => e.code(),
    }
}

/// Relies on `curl::easy::Easy::reset`: every option back to its default.
#[verifier::external_body]
fn easy_reset(h: &mut ::curl::easy::Easy) {
    h.reset()
}

/// Relies on `curl::easy::Easy::url_encode`, which is the engine's
/// `curl_easy_escape`: each byte that is not an ASCII letter, digit, `-`,
/// `.`, `_` or `~` becomes `%` and two upper-case hexadecimal digits. The
/// length must fit the engine's `int`.
#[verifier::external_body]
fn url_encode(h: &mut ::curl::easy::Easy, s: &str) -> (r: String)
    requires
        encode_utf8(s@).len() <= i32::MAX,
    ensures
        r@ == escaped_text(s@),
{
    h.url_encode(s.as_bytes())
}

/// Relies on `curl::easy::Easy::url_decode`, which is the engine's
/// `curl_easy_unescape`: each `%` followed by two hexadecimal digits
/// becomes the byte they spell. The length must fit the engine's `int`.
#[verifier::external_body]
fn url_decode(h: &mut ::curl::easy::Easy, s: &str) -> (r: Vec<u8>)
    requires
        encode_utf8(s@).len() <= i32::MAX,
    ensures
        r@ == unescaped_bytes(s@),
{
    h.url_decode(s)
}

/// Relies on `curl::easy::Easy::transfer` and the `write_function`,
/// `header_function` and `perform` of the transfer it opens: the engine
/// runs the transfer and hands each body chunk to `body` and each header
/// line to `headers`, through their verified `write` and `accept`, until
/// `perform` returns. The callbacks live no longer than this call.
#[verifier::external_body]
fn perform_transfer(
    h: &mut ::curl::easy::Easy,
    body: &mut SimpleCurlByteBuffer,
    headers: &mut HttpHeaders,
) -> (r: u32)
    requires
        old(headers).wf(),
    ensures
        final(headers).wf(),
        exists|chunks: Seq<Seq<u8>>| final(body).data@ == old(body).data@ + chunks.flatten(),
        exists|lines: Seq<Seq<u8>>|
            final(headers).map@ == after_header_lines(old(headers).map@, lines),
{
    let mut t = h.transfer();
    if let Err(e) = t.write_function(|d| Ok(body.write(d))) {
        return e.code();
    }
    if let Err(e) = t.header_function(|d| headers.accept(d)) {
        return e.code();
    }
    match t.perform() {
        Ok(()) => CURLE_OK,
        Err(e) => e.code(),
    }
}

/// Relies on `curl::easy::Easy::raw`: the address of the engine's session,
/// which tells two live sessions apart.
#[verifier::external_body]
fn session_address(h: &::curl::easy::Easy) -> usize {
    h.raw() as usize
}

/// Whether a value is of the kind its slot takes.
pub open spec fn kind_fits(option: CURLoption, value: OptModel) -> bool {
    match option {
        CURLoption::TIMEOUT | CURLoption::VERBOSE | CURLoption::HEADER
        | CURLoption::FOLLOWLOCATION => value is Long,
        CURLoption::HTTPHEADER => value is Lines,
        _ => value is Text,
    }
}

/// One session of the transfer engine, with the configuration applied to it
/// since it was created or last reset.
pub struct Curl {
    handle: ::curl::easy::Easy,
    applied: Vec<RawOption>,
    performed: Ghost<Option<Seq<RawModel>>>,
}

impl Curl {
    /// The primitive configuration calls that succeeded on this session
    /// since it was created or last reset, in order.
    pub closed spec fn settings(&self) -> Seq<RawModel> {
        raw_models(self.applied@)
    }

    /// The configuration the last transfer on this session ran with, if one
    /// ran.
    pub closed spec fn last_transfer(&self) -> Option<Seq<RawModel>> {
        self.performed@
    }

    /// A fresh session with default configuration.
    pub fn new() -> (r: Curl)
        ensures
            r.settings() == Seq::<RawModel>::empty(),
            r.last_transfer() is None,
    {
        let r = Curl { handle: easy_init(), applied: Vec::new(), performed: Ghost(None) };
        assert(raw_models(r.applied@) =~= Seq::<RawModel>::empty());
        r
    }

    /// Escapes one URL component (not a whole URL: `/`, `?` and `&` are
    /// escaped too).
    pub fn easy_escape(&mut self, url: &str) -> (r: String)
        requires
            encode_utf8(url@).len() <= i32::MAX,
        ensures
            r@ == escaped_text(url@),
            final(self).settings() == old(self).settings(),
            final(self).last_transfer() == old(self).last_transfer(),
    {
        url_encode(&mut self.handle, url)
    }

    /// Unescapes one URL component; bytes that are not UTF-8 become
    /// replacement characters.
    pub fn easy_unescape(&mut self, s: &str) -> (r: String)
        requires
            encode_utf8(s@).len() <= i32::MAX,
        ensures
            r@ == utf8_text(unescaped_bytes(s@)),
            valid_utf8(unescaped_bytes(s@)) ==> r@ == decode_utf8(unescaped_bytes(s@)),
            final(self).settings() == old(self).settings(),
            final(self).last_transfer() == old(self).last_transfer(),
    {
        let bytes = url_decode(&mut self.handle, s);
        text_of(bytes.as_slice())
    }

    /// Builds the engine's list of header lines and hands it over.
    fn set_lines(h: &mut ::curl::easy::Easy, lines: &Vec<String>) -> (code: u32) {
        let mut l = list_new();
        let mut i: usize = 0;
        while i < lines.len()
            invariant
                i <= lines@.len(),
                list_lines(l) == texts(lines@).take(i as int),
            decreases lines@.len() - i,
        {
            let code = list_append(&mut l, lines[i].as_str());
            if code != CURLE_OK {
                return code;
            }
            assert(texts(lines@).take(i + 1) =~= texts(lines@).take(i as int).push(lines@[i as int]@));
            i = i + 1;
        }
        assert(list_lines(l) == texts(lines@)) by {
            assert(texts(lines@).take(i as int) =~= texts(lines@));
        }
        set_http_headers(h, l)
    }

    /// Makes one primitive configuration call. A value of the wrong kind for
    /// the slot is refused with `CURLE_BAD_FUNCTION_ARGUMENT` before the
    /// engine sees it; a call that succeeds is added to the settings, and a
    /// call that fails changes nothing.
    pub fn easy_setopt_raw(&mut self, raw: &RawOption) -> (code: u32)
        ensures
            code == CURLE_OK ==> final(self).settings() == old(self).settings().push(raw.model()),
            code != CURLE_OK ==> final(self).settings() == old(self).settings(),
            kind_fits(raw.option, raw.value.model()) || code == CURLE_BAD_FUNCTION_ARGUMENT,
            final(self).last_transfer() == old(self).last_transfer(),
    {
        let code = match (&raw.option, &raw.value) {
            (CURLoption::URL, OptValue::Text(s)) => set_url(&mut self.handle, s.as_str()),
            (CURLoption::USERNAME, OptValue::Text(s)) => set_username(&mut self.handle, s.as_str()),
            (CURLoption::PASSWORD, OptValue::Text(s)) => set_password(&mut self.handle, s.as_str()),
            (CURLoption::PROXY, OptValue::Text(s)) => set_proxy(&mut self.handle, s.as_str()),
            (CURLoption::PROXYUSERNAME, OptValue::Text(s)) => set_proxy_username(
                &mut self.handle,
                s.as_str(),
            ),
            (CURLoption::PROXYPASSWORD, OptValue::Text(s)) => set_proxy_password(
                &mut self.handle,
                s.as_str(),
            ),
            (CURLoption::REFERER, OptValue::Text(s)) => set_referer(&mut self.handle, s.as_str()),
            (CURLoption::TIMEOUT, OptValue::Long(n)) => set_timeout(&mut self.handle, *n),
            (CURLoption::VERBOSE, OptValue::Long(n)) => set_verbose(&mut self.handle, *n != 0),
            (CURLoption::HEADER, OptValue::Long(n)) => set_show_header(&mut self.handle, *n != 0),
            (CURLoption::FOLLOWLOCATION, OptValue::Long(n)) => set_follow_location(
                &mut self.handle,
                *n != 0,
            ),
            (CURLoption::HTTPHEADER, OptValue::Lines(v)) => Self::set_lines(&mut self.handle, v),
            _ => CURLE_BAD_FUNCTION_ARGUMENT,
        };
        if code == CURLE_OK {
            self.applied.push(raw.duplicate());
            assert(raw_models(self.applied@) =~= raw_models(old(self).applied@).push(raw.model()));
        }
        code
    }

    /// Applies one option: its primitive calls in order, stopping at the
    /// first that fails and returning its code.
    pub fn easy_setopt(&mut self, opt: EasyCurlOption) -> (code: u32)
        ensures
            code == CURLE_OK ==> final(self).settings() == old(self).settings() + expand(opt),
            code != CURLE_OK ==> exists|k: int|
                0 <= k < expand(opt).len() && final(self).settings() == old(self).settings()
                    + expand(opt).take(k),
            final(self).last_transfer() == old(self).last_transfer(),
    {
        let ghost start = self.settings();
        let calls = expand_option(opt);
        let ghost all = raw_models(calls@);
        let mut i: usize = 0;
        while i < calls.len()
            invariant
                all == raw_models(calls@),
                all == expand(opt),
                start == old(self).settings(),
                i <= all.len(),
                self.settings() == start + all.take(i as int),
                self.last_transfer() == old(self).last_transfer(),
            decreases calls@.len() - i,
        {
            let code = self.easy_setopt_raw(&calls[i]);
            if code != CURLE_OK {
                assert(0 <= i < expand(opt).len() && self.settings() == start + expand(opt).take(
                    i as int,
                ));
                return code;
            }
            assert(all.take(i + 1) =~= all.take(i as int).push(calls@[i as int].model()));
            i = i + 1;
        }
        assert(all.take(i as int) =~= all);
        CURLE_OK
    }

    /// Runs the configured transfer, streaming the body into `body` and the
    /// header lines into `headers`, and returns the engine's completion
    /// code. The sinks are bound to the engine for this call only.
    pub fn easy_perform(
        &mut self,
        body: &mut SimpleCurlByteBuffer,
        headers: &mut HttpHeaders,
    ) -> (code: u32)
        requires
            old(headers).wf(),
        ensures
            final(self).settings() == old(self).settings(),
            final(self).last_transfer() == Some(old(self).settings()),
            final(headers).wf(),
            exists|chunks: Seq<Seq<u8>>| final(body).data@ == old(body).data@ + chunks.flatten(),
            exists|lines: Seq<Seq<u8>>|
                final(headers).map@ == after_header_lines(old(headers).map@, lines),
    {
        let code = perform_transfer(&mut self.handle, body, headers);
        self.performed = Ghost(Some(self.settings()));
        code
    }

    /// Returns every option to its default, as on a fresh session; the
    /// session itself is kept.
    pub fn easy_reset(&mut self)
        ensures
            final(self).settings() == Seq::<RawModel>::empty(),
            final(self).last_transfer() == old(self).last_transfer(),
    {
        easy_reset(&mut self.handle);
        self.applied = Vec::new();
        assert(raw_models(self.applied@) =~= Seq::<RawModel>::empty());
    }

    /// A new, independent session carrying the same configuration; the
    /// code of the first call that cannot be applied to it again, if one
    /// cannot.
    pub fn duplicate(&self) -> (r: Result<Curl, u32>)
        ensures
            match r {
                Ok(c) => c.settings() == self.settings() && c.last_transfer() is None,
                Err(code) => code != CURLE_OK,
            },
            self.settings().len() == 0 ==> r is Ok,
    {
        let mut c = Curl::new();
        let mut i: usize = 0;
        while i < self.applied.len()
            invariant
                i <= self.applied@.len(),
                c.settings() == self.settings().take(i as int),
                c.last_transfer() is None,
            decreases self.applied@.len() - i,
        {
            let code = c.easy_setopt_raw(&self.applied[i]);
            if code != CURLE_OK {
                return Err(code);
            }
            assert(self.settings().take(i + 1) =~= self.settings().take(i as int).push(
                self.applied@[i as int].model(),
            ));
            i = i + 1;
        }
        assert(self.settings().take(i as int) =~= self.settings());
        Ok(c)
    }

    /// The address of the engine session this handle owns, for telling
    /// sessions apart; nothing is promised of its value.
    pub fn session(&self) -> usize {
        session_address(&self.handle)
    }
}

/// What a fetch gives for the completion code of its transfer: the bytes
/// streamed into `buf` if the code is `CURLE_OK`, else the engine's text for
/// that code.
pub fn finish_fetch(code: u32, buf: SimpleCurlByteBuffer) -> (r: Result<Vec<u8>, String>)
    ensures
        (code == CURLE_OK) == (r is Ok),
        r matches Ok(d) ==> d == buf.data,
        r matches Err(m) ==> m@ == error_text(code) && m@.len() > 0,
{
    if code == CURLE_OK {
        Ok(buf.data)
    } else {
        Err(easy_strerror(code))
    }
}

/// Fetches the body at `url` on a fresh session, or the engine's text for
/// the failure. The URL must already be escaped where it needs to be.
pub fn get(url: &str) -> (r: Result<Vec<u8>, String>)
    ensures
        r matches Ok(d) ==> exists|chunks: Seq<Seq<u8>>| d@ == chunks.flatten(),
        r matches Err(m) ==> m@.len() > 0 && exists|code: u32|
            code != CURLE_OK && m@ == error_text(code),
{
    let mut curl = Curl::new();
    curl.fetch(url)
}

impl Curl {
    /// Sets `url` on this session, runs the transfer and gives the body it
    /// streamed, or the engine's text for the code of the call that failed.
    /// A URL that cannot be set leaves the transfer unrun.
    pub fn fetch(&mut self, url: &str) -> (r: Result<Vec<u8>, String>)
        ensures
            final(self).last_transfer() == old(self).last_transfer()
                || final(self).last_transfer() == Some(
                old(self).settings().push((CURLoption::URL, OptModel::Text(url@))),
            ),
            r is Ok ==> final(self).last_transfer() == Some(
                old(self).settings().push((CURLoption::URL, OptModel::Text(url@))),
            ),
            r matches Ok(d) ==> exists|chunks: Seq<Seq<u8>>| d@ == chunks.flatten(),
            r matches Err(m) ==> m@.len() > 0 && exists|code: u32|
                code != CURLE_OK && m@ == error_text(code),
    {
        let opt = EasyCurlOption::URL(url.to_owned());
        assert(expand(opt) =~= seq![(CURLoption::URL, OptModel::Text(url@))]);
        let code = self.easy_setopt(opt);
        if code != CURLE_OK {
            return Err(easy_strerror(code));
        }
        let mut buf = SimpleCurlByteBuffer::new();
        let mut headers = HttpHeaders::new();
        let code = self.easy_perform(&mut buf, &mut headers);
        assert(buf.data@ == Seq::<u8>::empty() + buf.data@);
        finish_fetch(code, buf)
    }
}

} // verus!
