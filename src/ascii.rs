//! Byte strings that hold ASCII text, and their conversion to `String`.
use vstd::prelude::*;
use vstd::utf8::*;

verus! {

/// Every byte of `b` is a 7-bit ASCII code.
pub open spec fn is_ascii_bytes(b: Seq<u8>) -> bool {
    forall|i: int| 0 <= i < b.len() ==> #[trigger] b[i] < 128
}

/// The characters that the ASCII bytes `b` spell.
pub open spec fn ascii_chars(b: Seq<u8>) -> Seq<char> {
    b.map_values(|x: u8| x as char)
}

/// ASCII bytes are valid UTF-8, and decode to one character per byte.
pub proof fn lemma_ascii_decode(b: Seq<u8>)
    requires
        is_ascii_bytes(b),
    ensures
        valid_utf8(b),
        decode_utf8(b) == ascii_chars(b),
{
    let cs = ascii_chars(b);
    assert forall|i: int| 0 <= i < cs.len() implies '\0' <= #[trigger] cs[i] <= '\u{7f}' by {
        assert(b[i] < 128);
        assert(cs[i] == b[i] as char);
    }
    is_ascii_chars_encode_utf8(cs);
    assert forall|i: int| 0 <= i < b.len() implies #[trigger] encode_utf8(cs)[i] == b[i] by {
        assert(cs[i] == b[i] as char);
        assert((b[i] as char) as u8 == b[i]);
    }
    assert(encode_utf8(cs) =~= b);
    encode_utf8_valid_utf8(cs);
    encode_utf8_decode_utf8(cs);
}

/// Relies on `String::from_utf8`: `Ok` exactly when the bytes are valid UTF-8, holding the
/// characters they encode.
#[verifier::external_body]
pub(crate) fn string_from_utf8(b: Vec<u8>) -> (r: Option<String>)
    ensures
        r.is_some() == valid_utf8(b@),
        r matches Some(s) ==> s@ == decode_utf8(b@),
{
    String::from_utf8(b).ok()
}

} // verus!
