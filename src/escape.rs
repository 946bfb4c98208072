use vstd::prelude::*;
use vstd::utf8::*;

verus! {

/// Bytes that URL escaping leaves as they are: ASCII letters, digits and
/// `-`, `.`, `_`, `~`.
pub open spec fn is_unreserved(b: u8) -> bool {
    (0x30 <= b <= 0x39) || (0x41 <= b <= 0x5a) || (0x61 <= b <= 0x7a) || b == 0x2d || b == 0x2e
        || b == 0x5f || b == 0x7e
}

/// The upper-case hexadecimal digit for a value below sixteen.
pub open spec fn hex_digit(n: u8) -> u8 {
    if n < 10 {
        (0x30 + n) as u8
    } else {
        (0x41 + n - 10) as u8
    }
}

/// A hexadecimal digit of either case.
pub open spec fn is_hex(b: u8) -> bool {
    (0x30 <= b <= 0x39) || (0x41 <= b <= 0x46) || (0x61 <= b <= 0x66)
}

/// The value of a hexadecimal digit.
pub open spec fn hex_value(b: u8) -> u8 {
    if 0x30 <= b <= 0x39 {
        (b - 0x30) as u8
    } else if 0x41 <= b <= 0x46 {
        (b - 0x41 + 10) as u8
    } else {
        (b - 0x61 + 10) as u8
    }
}

/// One byte escaped: itself if unreserved, else `%` and its two upper-case
/// hexadecimal digits.
pub open spec fn escape_byte(b: u8) -> Seq<u8> {
    if is_unreserved(b) {
        seq![b]
    } else {
        seq![0x25u8, hex_digit(b / 16), hex_digit(b % 16)]
    }
}

/// A byte sequence escaped for use as one URL component.
pub open spec fn escape_bytes(s: Seq<u8>) -> Seq<u8>
    decreases s.len(),
{
    if s.len() == 0 {
        Seq::empty()
    } else {
        escape_byte(s[0]) + escape_bytes(s.drop_first())
    }
}

/// A URL component unescaped: each `%` followed by two hexadecimal digits
/// becomes the byte they spell; every other byte stays as it is.
pub open spec fn unescape_bytes(s: Seq<u8>) -> Seq<u8>
    decreases s.len(),
{
    if s.len() == 0 {
        Seq::empty()
    } else if s[0] == 0x25 && s.len() > 2 && is_hex(s[1]) && is_hex(s[2]) {
        seq![(hex_value(s[1]) * 16 + hex_value(s[2])) as u8] + unescape_bytes(s.subrange(3, s.len() as int))
    } else {
        seq![s[0]] + unescape_bytes(s.drop_first())
    }
}

/// ASCII bytes read as characters.
pub open spec fn ascii_text(b: Seq<u8>) -> Seq<char> {
    Seq::new(b.len(), |i: int| b[i] as char)
}

/// What escaping a text gives: its UTF-8 bytes escaped, as characters.
pub open spec fn escaped_text(s: Seq<char>) -> Seq<char> {
    ascii_text(escape_bytes(encode_utf8(s)))
}

/// The bytes that unescaping a text decodes to.
pub open spec fn unescaped_bytes(s: Seq<char>) -> Seq<u8> {
    unescape_bytes(encode_utf8(s))
}

proof fn lemma_hex_round_trip(b: u8)
    ensures
        is_hex(hex_digit(b / 16)),
        is_hex(hex_digit(b % 16)),
        (hex_value(hex_digit(b / 16)) * 16 + hex_value(hex_digit(b % 16))) as u8 == b,
{
}

/// Escaped bytes are ASCII.
proof fn lemma_escape_ascii(s: Seq<u8>)
    ensures
        forall|i: int| 0 <= i < escape_bytes(s).len() ==> #[trigger] escape_bytes(s)[i] < 128,
    decreases s.len(),
{
    if s.len() > 0 {
        lemma_escape_ascii(s.drop_first());
        let e = escape_bytes(s);
        let h = escape_byte(s[0]);
        let t = escape_bytes(s.drop_first());
        assert forall|i: int| 0 <= i < e.len() implies #[trigger] e[i] < 128 by {
            if i < h.len() {
                assert(e[i] == h[i]);
            } else {
                assert(e[i] == t[i - h.len()]);
            }
        }
    }
}

/// Unescaping undoes escaping, for every byte sequence.
proof fn lemma_unescape_escape_bytes(s: Seq<u8>)
    ensures
        unescape_bytes(escape_bytes(s)) == s,
    decreases s.len(),
{
    if s.len() > 0 {
        let e = escape_bytes(s);
        let t = escape_bytes(s.drop_first());
        lemma_unescape_escape_bytes(s.drop_first());
        if is_unreserved(s[0]) {
            assert(e.drop_first() =~= t);
        } else {
            lemma_hex_round_trip(s[0]);
            assert(e.subrange(3, e.len() as int) =~= t);
        }
        assert(unescape_bytes(e) =~= s);
    }
}

/// Reading ASCII bytes as characters and encoding those as UTF-8 gives the
/// bytes back.
proof fn lemma_ascii_text_bytes(b: Seq<u8>)
    requires
        forall|i: int| 0 <= i < b.len() ==> #[trigger] b[i] < 128,
    ensures
        encode_utf8(ascii_text(b)) == b,
{
    let t = ascii_text(b);
    assert(is_ascii_chars(t)) by {
        assert forall|i: int| 0 <= i < t.len() implies '\0' <= #[trigger] t[i] <= '\u{7f}' by {
            assert(t[i] == b[i] as char);
        }
    }
    is_ascii_chars_encode_utf8(t);
    assert(encode_utf8(t) =~= b);
}

/// Unescaping the escaped form of any text gives back the bytes of that
/// text, which decode as UTF-8 to the text itself.
pub proof fn lemma_unescape_escape(s: Seq<char>)
    ensures
        unescaped_bytes(escaped_text(s)) == encode_utf8(s),
        valid_utf8(unescaped_bytes(escaped_text(s))),
        decode_utf8(unescaped_bytes(escaped_text(s))) == s,
{
    let b = encode_utf8(s);
    lemma_escape_ascii(b);
    lemma_ascii_text_bytes(escape_bytes(b));
    lemma_unescape_escape_bytes(b);
    encode_utf8_valid_utf8(s);
    encode_utf8_decode_utf8(s);
}

} // verus!
