use vstd::prelude::*;
use crate::headers::{header_fields, parse_header_line, HeaderMap};
use crate::text::utf8_text;

verus! {

/// A growable byte accumulator that a transfer streams its body into.
pub struct SimpleCurlByteBuffer {
    pub data: Vec<u8>,
}

impl SimpleCurlByteBuffer {
    /// An empty buffer.
    pub fn new() -> (r: SimpleCurlByteBuffer)
        ensures
            r.data@ == Seq::<u8>::empty(),
    {
        SimpleCurlByteBuffer { data: Vec::new() }
    }

    /// Appends one chunk delivered by the transfer engine and acknowledges
    /// it by returning its full length.
    pub fn write(&mut self, chunk: &[u8]) -> (ack: usize)
        ensures
            final(self).data@ == old(self).data@ + chunk@,
            ack == chunk@.len(),
    {
        let mut i: usize = 0;
        while i < chunk.len()
            invariant
                i <= chunk@.len(),
                self.data@ == old(self).data@ + chunk@.subrange(0, i as int),
            decreases chunk@.len() - i,
        {
            self.data.push(chunk[i]);
            i = i + 1;
        }
        assert(chunk@.subrange(0, chunk@.len() as int) == chunk@);
        chunk.len()
    }
}

/// The header name whose values are never exposed: cookies stay out of the
/// header map.
pub open spec fn set_cookie() -> Seq<char> {
    "Set-Cookie"@
}

/// What one raw header line does to a header map: a `name: value` line
/// stores its value under its name, unless the name is `Set-Cookie`; any
/// other line leaves the map as it is.
pub open spec fn after_header_line(
    m: Map<Seq<char>, Seq<char>>,
    line: Seq<u8>,
) -> Map<Seq<char>, Seq<char>> {
    match header_fields(line) {
        Some((n, v)) => if utf8_text(n) == set_cookie() {
            m
        } else {
            m.insert(utf8_text(n), utf8_text(v))
        },
        None => m,
    }
}

/// What a sequence of header lines does to a header map, one after another.
pub open spec fn after_header_lines(
    m: Map<Seq<char>, Seq<char>>,
    lines: Seq<Seq<u8>>,
) -> Map<Seq<char>, Seq<char>>
    decreases lines.len(),
{
    if lines.len() == 0 {
        m
    } else {
        after_header_lines(after_header_line(m, lines[0]), lines.drop_first())
    }
}

/// No header line, a `Set-Cookie: ...` line included, brings a
/// `Set-Cookie` entry into a map that has none.
pub proof fn lemma_set_cookie_never_stored(m: Map<Seq<char>, Seq<char>>, line: Seq<u8>)
    requires
        !m.contains_key(set_cookie()),
    ensures
        !after_header_line(m, line).contains_key(set_cookie()),
{
}

/// A header map that a transfer streams its response header lines into.
pub struct HttpHeaders {
    pub map: HeaderMap,
}

impl HttpHeaders {
    /// The map is well formed and holds no `Set-Cookie` entry.
    pub open spec fn wf(&self) -> bool {
        &&& self.map.wf()
        &&& !self.map@.contains_key(set_cookie())
    }

    /// An empty header map.
    pub fn new() -> (r: HttpHeaders)
        ensures
            r.wf(),
            r.map@ == Map::<Seq<char>, Seq<char>>::empty(),
    {
        HttpHeaders { map: HeaderMap::new() }
    }

    /// Takes one raw header line delivered by the transfer engine and
    /// acknowledges it by returning its full length.
    pub fn write(&mut self, chunk: &[u8]) -> (ack: usize)
        requires
            old(self).wf(),
        ensures
            final(self).wf(),
            final(self).map@ == after_header_line(old(self).map@, chunk@),
            ack == chunk@.len(),
    {
        match parse_header_line(chunk) {
            Some((name, value)) => {
                let cookie = "Set-Cookie".to_owned();
                if name != cookie {
                    self.map.insert(name, value);
                }
            },
            None => {},
        }
        chunk.len()
    }

    /// The same as `write`, in the form the engine's header callback takes:
    /// `true` to go on with the transfer.
    pub fn accept(&mut self, chunk: &[u8]) -> (go_on: bool)
        requires
            old(self).wf(),
        ensures
            final(self).wf(),
            final(self).map@ == after_header_line(old(self).map@, chunk@),
            go_on,
    {
        let ack = self.write(chunk);
        ack == chunk.len()
    }
}

} // verus!
