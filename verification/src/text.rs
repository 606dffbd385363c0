//! Permissive decoding of a name's bytes into text.
//!
//! A slave name is a path, and paths are bytes. Well-formed UTF-8 is decoded
//! as it stands; anything else is replaced by U+FFFD rather than refused, so
//! that decoding alone never fails a request.

use vstd::prelude::*;
use vstd::utf8::*;

verus! {

/// The text that `String::from_utf8_lossy` makes of `bytes`.
///
/// How ill-formed input is cut into replaced pieces is the standard library's
/// business and is not spelled out here. What is known of the text is
/// gathered in [`reads_as`].
pub uninterp spec fn utf8_lossy(bytes: Seq<u8>) -> Seq<char>;

/// Every byte of `bytes` is an ASCII byte.
pub open spec fn is_ascii_bytes(bytes: Seq<u8>) -> bool {
    forall|i: int| 0 <= i < bytes.len() ==> bytes[i] < 0x80
}

/// `bytes` read as text, one character for each byte.
pub open spec fn ascii_text(bytes: Seq<u8>) -> Seq<char> {
    Seq::new(bytes.len(), |i: int| bytes[i] as char)
}

/// `text` is what permissive decoding makes of `bytes`.
///
/// The first line fixes the text. The other two are what is known of it
/// without going into how ill-formed input is replaced: well-formed UTF-8
/// comes out as the characters it encodes, and no bytes vanish altogether.
pub open spec fn reads_as(bytes: Seq<u8>, text: Seq<char>) -> bool {
    &&& text == utf8_lossy(bytes)
    &&& valid_utf8(bytes) ==> text == decode_utf8(bytes)
    &&& bytes.len() > 0 ==> text.len() > 0
}

/// ASCII bytes are well-formed UTF-8, and decode to one character each.
pub proof fn lemma_ascii_is_utf8(bytes: Seq<u8>)
    requires
        is_ascii_bytes(bytes),
    ensures
        valid_utf8(bytes),
        decode_utf8(bytes) == ascii_text(bytes),
{
    let chars = ascii_text(bytes);
    assert(is_ascii_chars(chars));
    is_ascii_chars_encode_utf8(chars);
    assert(encode_utf8(chars) =~= bytes);
    encode_utf8_valid_utf8(chars);
    encode_utf8_decode_utf8(chars);
}

/// Text with a NUL character in it is encoded with a zero byte in it.
proof fn lemma_nul_is_encoded_as_zero(chars: Seq<char>)
    requires
        chars.contains('\0'),
    ensures
        encode_utf8(chars).contains(0u8),
    decreases chars.len(),
{
    let head = encode_scalar(chars[0] as u32);
    let tail = encode_utf8(chars.drop_first());
    let bytes = encode_utf8(chars);
    assert(bytes == head + tail);
    if chars[0] == '\0' {
        assert(0u32 & 0x7F == 0u32) by (bit_vector);
        assert(head[0] == 0u8);
        assert(bytes[0] == 0u8);
    } else {
        let i = choose|i: int| 0 <= i < chars.len() && chars[i] == '\0';
        assert(chars.drop_first()[i - 1] == '\0');
        lemma_nul_is_encoded_as_zero(chars.drop_first());
        let j = choose|j: int| 0 <= j < tail.len() && tail[j] == 0u8;
        assert(bytes[head.len() + j] == 0u8);
    }
}

/// Well-formed UTF-8 without a zero byte decodes to text without a NUL
/// character: only the zero byte encodes that character.
pub proof fn lemma_utf8_keeps_nul_out(bytes: Seq<u8>)
    requires
        valid_utf8(bytes),
        !bytes.contains(0u8),
    ensures
        !decode_utf8(bytes).contains('\0'),
{
    decode_utf8_encode_utf8(bytes);
    if decode_utf8(bytes).contains('\0') {
        lemma_nul_is_encoded_as_zero(decode_utf8(bytes));
    }
}

/// Decodes `bytes` with `String::from_utf8_lossy` and takes ownership of the
/// text.
///
/// Claimed of the standard library, and not proved: the text depends on the
/// bytes alone; well-formed UTF-8 comes out as the characters it encodes; and
/// since ill-formed pieces are replaced, never dropped, bytes that are there
/// give text that is there.
#[verifier::external_body]
pub(crate) fn decode_lossy(bytes: &[u8]) -> (text: String)
    ensures
        text@ == utf8_lossy(bytes@),
        valid_utf8(bytes@) ==> text@ == decode_utf8(bytes@),
        bytes@.len() > 0 ==> text@.len() > 0,
{
    String::from_utf8_lossy(bytes).into_owned()
}

} // verus!
