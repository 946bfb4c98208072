use vstd::prelude::*;
use crate::text::{text_of, utf8_text};

verus! {

/// The map that a list of (name, value) entries denotes: a later entry for a
/// name overrides an earlier one.
pub open spec fn map_of(s: Seq<(String, String)>) -> Map<Seq<char>, Seq<char>>
    decreases s.len(),
{
    if s.len() == 0 {
        Map::empty()
    } else {
        map_of(s.drop_last()).insert(s.last().0@, s.last().1@)
    }
}

/// No two entries carry the same name.
pub open spec fn unique_names(s: Seq<(String, String)>) -> bool {
    forall|i: int, j: int|
        0 <= i < s.len() && 0 <= j < s.len() && i != j ==> s[i].0@ != s[j].0@
}

/// A name is in the map exactly when some entry carries it; with unique
/// names, that entry's value is the one the map holds.
pub proof fn lemma_map_of(s: Seq<(String, String)>)
    ensures
        forall|k: Seq<char>|
            map_of(s).contains_key(k) <==> exists|i: int| 0 <= i < s.len() && #[trigger] s[i].0@ == k,
        unique_names(s) ==> forall|i: int|
            0 <= i < s.len() ==> map_of(s)[#[trigger] s[i].0@] == s[i].1@,
        map_of(s).dom().finite(),
        unique_names(s) ==> map_of(s).len() == s.len(),
    decreases s.len(),
{
    if s.len() > 0 {
        let p = s.drop_last();
        lemma_map_of(p);
        assert forall|k: Seq<char>|
            map_of(s).contains_key(k) <==> exists|i: int| 0 <= i < s.len() && #[trigger] s[i].0@ == k by {
            if map_of(s).contains_key(k) && k != s.last().0@ {
                assert(map_of(p).contains_key(k));
                let i = choose|i: int| 0 <= i < p.len() && #[trigger] p[i].0@ == k;
                assert(s[i].0@ == k);
            }
            if exists|i: int| 0 <= i < s.len() && #[trigger] s[i].0@ == k {
                let i = choose|i: int| 0 <= i < s.len() && #[trigger] s[i].0@ == k;
                if i < s.len() - 1 {
                    assert(p[i].0@ == k);
                    assert(map_of(p).contains_key(k));
                }
            }
        }
        if unique_names(s) {
            assert(unique_names(p)) by {
                assert forall|i: int, j: int|
                    0 <= i < p.len() && 0 <= j < p.len() && i != j implies p[i].0@ != p[j].0@ by {
                    assert(s[i].0@ != s[j].0@);
                }
            }
            assert forall|i: int| 0 <= i < s.len() implies map_of(s)[#[trigger] s[i].0@] == s[i].1@ by {
                if i < s.len() - 1 {
                    assert(p[i].0@ == s[i].0@);
                    assert(s[i].0@ != s[s.len() - 1].0@);
                }
            }
            assert(!map_of(p).contains_key(s.last().0@)) by {
                if map_of(p).contains_key(s.last().0@) {
                    let i = choose|i: int| 0 <= i < p.len() && #[trigger] p[i].0@ == s.last().0@;
                    assert(s[i].0@ == s[s.len() - 1].0@);
                }
            }
            assert(map_of(s).dom() == map_of(p).dom().insert(s.last().0@));
        }
    }
}

/// Replacing the value of the entry for a name changes the map at that name
/// only.
proof fn lemma_map_of_update(s: Seq<(String, String)>, i: int, e: (String, String))
    requires
        unique_names(s),
        0 <= i < s.len(),
        s[i].0@ == e.0@,
    ensures
        map_of(s.update(i, e)) == map_of(s).insert(e.0@, e.1@),
    decreases s.len(),
{
    let t = s.update(i, e);
    let p = s.drop_last();
    if i == s.len() - 1 {
        assert(t.drop_last() =~= p);
        assert(map_of(t) =~= map_of(s).insert(e.0@, e.1@));
    } else {
        assert(unique_names(p)) by {
            assert forall|a: int, b: int|
                0 <= a < p.len() && 0 <= b < p.len() && a != b implies p[a].0@ != p[b].0@ by {
                assert(s[a].0@ != s[b].0@);
            }
        }
        assert(t.drop_last() =~= p.update(i, e));
        lemma_map_of_update(p, i, e);
        assert(s[i].0@ != s[s.len() - 1].0@);
        assert(map_of(t) =~= map_of(s).insert(e.0@, e.1@));
    }
}

/// A mapping from header name (case as received) to header value, with at
/// most one value for each name.
pub struct HeaderMap {
    entries: Vec<(String, String)>,
}

impl View for HeaderMap {
    type V = Map<Seq<char>, Seq<char>>;

    closed spec fn view(&self) -> Map<Seq<char>, Seq<char>> {
        map_of(self.entries@)
    }
}

impl HeaderMap {
    /// The entries in the order they are stored.
    pub closed spec fn pairs(&self) -> Seq<(String, String)> {
        self.entries@
    }

    /// Each name is stored once, and the map is what the entries denote.
    pub closed spec fn wf(&self) -> bool {
        unique_names(self.entries@)
    }

    /// What the entries of a well-formed map tell about its view.
    pub proof fn lemma_pairs(&self)
        requires
            self.wf(),
        ensures
            unique_names(self.pairs()),
            self@ == map_of(self.pairs()),
            self@.len() == self.pairs().len(),
            forall|k: Seq<char>|
                self@.contains_key(k) <==> exists|i: int|
                    0 <= i < self.pairs().len() && #[trigger] self.pairs()[i].0@ == k,
            forall|i: int|
                0 <= i < self.pairs().len() ==> self@[#[trigger] self.pairs()[i].0@]
                    == self.pairs()[i].1@,
    {
        lemma_map_of(self.entries@);
    }

    /// An empty map.
    pub fn new() -> (r: HeaderMap)
        ensures
            r.wf(),
            r@ == Map::<Seq<char>, Seq<char>>::empty(),
    {
        HeaderMap { entries: Vec::new() }
    }

    /// The number of names in the map.
    pub fn len(&self) -> (r: usize)
        requires
            self.wf(),
        ensures
            r == self@.len(),
    {
        proof {
            lemma_map_of(self.entries@);
        }
        self.entries.len()
    }

    /// Whether the map holds no name.
    pub fn is_empty(&self) -> (r: bool)
        requires
            self.wf(),
        ensures
            r == (self@.len() == 0),
    {
        proof {
            lemma_map_of(self.entries@);
        }
        self.entries.len() == 0
    }

    /// The entries of the map, for iteration.
    pub fn pairs_vec(&self) -> (r: &Vec<(String, String)>)
        ensures
            r@ == self.pairs(),
    {
        &self.entries
    }

    /// The index of the entry for `key`, if there is one.
    fn find(&self, key: &String) -> (r: Option<usize>)
        ensures
            match r {
                Some(i) => i < self.entries@.len() && self.entries@[i as int].0@ == key@,
                None => forall|i: int|
                    0 <= i < self.entries@.len() ==> #[trigger] self.entries@[i].0@ != key@,
            },
    {
        let mut i: usize = 0;
        while i < self.entries.len()
            invariant
                i <= self.entries@.len(),
                forall|j: int| 0 <= j < i ==> #[trigger] self.entries@[j].0@ != key@,
            decreases self.entries@.len() - i,
        {
            if self.entries[i].0 == *key {
                return Some(i);
            }
            i = i + 1;
        }
        None
    }

    /// Whether the map holds a value for `key`.
    pub fn contains_key(&self, key: &String) -> (r: bool)
        ensures
            r == self@.contains_key(key@),
    {
        proof {
            lemma_map_of(self.entries@);
        }
        self.find(key).is_some()
    }

    /// The value stored for `key`.
    pub fn get(&self, key: &String) -> (r: Option<String>)
        requires
            self.wf(),
        ensures
            match r {
                Some(v) => self@.contains_key(key@) && self@[key@] == v@,
                None => !self@.contains_key(key@),
            },
    {
        proof {
            lemma_map_of(self.entries@);
        }
        match self.find(key) {
            Some(i) => Some(self.entries[i].1.clone()),
            None => None,
        }
    }

    /// Stores `value` for `key`; a value stored before for that name is
    /// replaced.
    pub fn insert(&mut self, key: String, value: String)
        requires
            old(self).wf(),
        ensures
            final(self).wf(),
            final(self)@ == old(self)@.insert(key@, value@),
    {
        proof {
            lemma_map_of(self.entries@);
        }
        match self.find(&key) {
            Some(i) => {
                proof {
                    lemma_map_of_update(self.entries@, i as int, (key, value));
                }
                self.entries.set(i, (key, value));
                assert(self.entries@ == old(self).entries@.update(i as int, (key, value)));
            },
            None => {
                self.entries.push((key, value));
                assert(self.entries@.drop_last() == old(self).entries@);
                assert(unique_names(self.entries@)) by {
                    let s = self.entries@;
                    assert forall|a: int, b: int|
                        0 <= a < s.len() && 0 <= b < s.len() && a != b implies s[a].0@ != s[b].0@ by {
                        if a < s.len() - 1 && b < s.len() - 1 {
                            assert(old(self).entries@[a] == s[a]);
                            assert(old(self).entries@[b] == s[b]);
                        } else if a < s.len() - 1 {
                            assert(old(self).entries@[a] == s[a]);
                        } else if b < s.len() - 1 {
                            assert(old(self).entries@[b] == s[b]);
                        }
                    }
                }
            },
        }
    }
}

/// The index of the first `:` at or after `i`, or the length of `s` if
/// there is none.
pub open spec fn colon_from(s: Seq<u8>, i: int) -> int
    decreases s.len() - i,
{
    if i < 0 || i >= s.len() {
        s.len() as int
    } else if s[i] == 0x3au8 {
        i
    } else {
        colon_from(s, i + 1)
    }
}

/// Where the content of a line ends: before a trailing CR LF, or before a
/// trailing LF, or at its end.
pub open spec fn line_end(s: Seq<u8>) -> int {
    if s.len() >= 2 && s[s.len() - 2] == 0x0du8 && s[s.len() - 1] == 0x0au8 {
        s.len() - 2
    } else if s.len() >= 1 && s[s.len() - 1] == 0x0au8 {
        s.len() - 1
    } else {
        s.len() as int
    }
}

/// The name and value bytes of a raw header line: the name is everything
/// before the first colon; the value starts two bytes after it (past the
/// colon and the conventional space) and ends before the line terminator,
/// and is empty for a line too short to hold one. A line without a colon
/// has no fields.
pub open spec fn header_fields(line: Seq<u8>) -> Option<(Seq<u8>, Seq<u8>)> {
    let c = colon_from(line, 0);
    if c >= line.len() {
        None
    } else {
        let e = line_end(line);
        Some(
            (
                line.subrange(0, c),
                if c + 2 <= e {
                    line.subrange(c + 2, e)
                } else {
                    Seq::empty()
                },
            ),
        )
    }
}

/// Scanning from `i` finds no colon before `k`, and finds one at `k` if
/// there is one there.
proof fn lemma_colon_from(s: Seq<u8>, i: int, k: int)
    requires
        0 <= i <= k <= s.len(),
        forall|j: int| i <= j < k ==> s[j] != 0x3au8,
    ensures
        k == s.len() || s[k] == 0x3au8 ==> colon_from(s, i) == k,
        colon_from(s, i) == colon_from(s, k),
    decreases k - i,
{
    if i < k {
        lemma_colon_from(s, i + 1, k);
    }
}

/// Splits one raw header line, as the transfer engine delivers it, into its
/// name and value; `None` for a line without a colon (a status line or the
/// blank line that ends the headers). Bytes that are not UTF-8 are kept as
/// replacement characters.
pub fn parse_header_line(line: &[u8]) -> (r: Option<(String, String)>)
    ensures
        match header_fields(line@) {
            None => r is None,
            Some((n, v)) => r matches Some((rn, rv)) && rn@ == utf8_text(n) && rv@ == utf8_text(v),
        },
{
    let len = line.len();
    let mut c: usize = 0;
    while c < len && line[c] != 0x3au8
        invariant
            c <= len == line@.len(),
            forall|j: int| 0 <= j < c ==> line@[j] != 0x3au8,
        decreases len - c,
    {
        c = c + 1;
    }
    proof {
        lemma_colon_from(line@, 0, c as int);
    }
    if c == len {
        return None;
    }
    let e: usize = if len >= 2 && line[len - 2] == 0x0du8 && line[len - 1] == 0x0au8 {
        len - 2
    } else if len >= 1 && line[len - 1] == 0x0au8 {
        len - 1
    } else {
        len
    };
    let name = text_of(&line[0..c]);
    let value = if c < e && e - c >= 2 {
        text_of(&line[c + 2..e])
    } else {
        proof {
            assert(line@.subrange(0, 0) == Seq::<u8>::empty());
        }
        text_of(&line[0..0])
    };
    Some((name, value))
}

/// A line without a colon yields no header.
pub proof fn lemma_no_colon_no_header(line: Seq<u8>)
    requires
        forall|j: int| 0 <= j < line.len() ==> line[j] != 0x3au8,
    ensures
        header_fields(line) is None,
{
    lemma_colon_from(line, 0, line.len() as int);
}

/// The bytes `: ` that separate a header's name from its value.
pub open spec fn separator() -> Seq<u8> {
    seq![0x3au8, 0x20u8]
}

/// The CR LF that ends a header line.
pub open spec fn crlf() -> Seq<u8> {
    seq![0x0du8, 0x0au8]
}

/// A line `name: value` ended by CR LF, whose name holds no colon, yields
/// exactly that name and that value.
pub proof fn lemma_header_line_fields(name: Seq<u8>, value: Seq<u8>)
    requires
        forall|j: int| 0 <= j < name.len() ==> name[j] != 0x3au8,
    ensures
        header_fields(name + separator() + value + crlf()) == Some((name, value)),
{
    let line = name + separator() + value + crlf();
    let k = name.len() as int;
    assert forall|j: int| 0 <= j < k implies line[j] != 0x3au8 by {
        assert(line[j] == name[j]);
    }
    assert(line[k] == 0x3au8);
    lemma_colon_from(line, 0, k);
    assert(line_end(line) == line.len() - 2);
    assert(line.subrange(0, k) =~= name);
    assert(line.subrange(k + 2, line.len() - 2) =~= value);
}

} // verus!
