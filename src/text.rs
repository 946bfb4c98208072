use vstd::prelude::*;
use vstd::utf8::*;

verus! {

/// The text that `String::from_utf8_lossy` makes of a byte sequence: the
/// bytes decoded as UTF-8, each invalid sequence replaced by U+FFFD.
pub uninterp spec fn utf8_text(b: Seq<u8>) -> Seq<char>;

/// Relies on `String::from_utf8_lossy`: the result depends on the bytes
/// alone, and a valid UTF-8 sequence is decoded as it stands.
#[verifier::external_body]
pub(crate) fn text_of(b: &[u8]) -> (r: String)
    ensures
        r@ == utf8_text(b@),
        valid_utf8(b@) ==> r@ == decode_utf8(b@),
{
    String::from_utf8_lossy(b).into_owned()
}

} // verus!
