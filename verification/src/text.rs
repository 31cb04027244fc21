//! Text received as bytes in UTF-8, decoded with tolerance for invalid input.

use vstd::prelude::*;
use vstd::utf8::{decode_utf8, encode_utf8, is_ascii_chars, valid_utf8};

verus! {

/// The text that tolerant decoding gives for bytes that are not valid UTF-8:
/// the result of `String::from_utf8_lossy`, which puts U+FFFD in place of
/// each invalid sequence.
pub uninterp spec fn replaced_text(bytes: Seq<u8>) -> Seq<char>;

/// The text that bytes stand for: their decoding where they are valid UTF-8,
/// and the text with replacement characters where they are not.
pub open spec fn lossy_text(bytes: Seq<u8>) -> Seq<char> {
    if valid_utf8(bytes) {
        decode_utf8(bytes)
    } else {
        replaced_text(bytes)
    }
}

/// True when every byte is below 128.
pub open spec fn is_ascii_bytes(bytes: Seq<u8>) -> bool {
    forall|i: int| 0 <= i < bytes.len() ==> #[trigger] bytes[i] < 128
}

/// Decodes bytes with `String::from_utf8_lossy`. Trusted: valid UTF-8 comes
/// back as the text it encodes, and any other input as that function's
/// replacement text.
#[verifier::external_body]
pub(crate) fn decode_lossy(bytes: &[u8]) -> (text: String)
    ensures
        valid_utf8(bytes@) ==> text@ == decode_utf8(bytes@),
        !valid_utf8(bytes@) ==> text@ == replaced_text(bytes@),
{
    String::from_utf8_lossy(bytes).into_owned()
}

/// Valid UTF-8 survives decoding: encoding the decoded text gives the bytes back.
pub proof fn lemma_valid_utf8_round_trip(bytes: Seq<u8>)
    requires
        valid_utf8(bytes),
    ensures
        encode_utf8(lossy_text(bytes)) == bytes,
{
    vstd::utf8::decode_utf8_encode_utf8(bytes);
}

/// ASCII survives decoding byte for byte: the text has one character for each
/// byte, with the byte's value, and its encoding is the bytes given.
pub proof fn lemma_ascii_round_trip(bytes: Seq<u8>)
    requires
        is_ascii_bytes(bytes),
    ensures
        valid_utf8(bytes),
        lossy_text(bytes) == Seq::new(bytes.len(), |i: int| bytes[i] as char),
        encode_utf8(lossy_text(bytes)) == bytes,
{
    let chars = Seq::new(bytes.len(), |i: int| bytes[i] as char);
    assert(is_ascii_chars(chars));
    vstd::utf8::is_ascii_chars_encode_utf8(chars);
    assert(encode_utf8(chars) =~= bytes);
    vstd::utf8::encode_utf8_valid_utf8(chars);
    vstd::utf8::encode_utf8_decode_utf8(chars);
}

} // verus!
