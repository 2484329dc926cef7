//! The reading of bytes as text, whatever the bytes: done by the standard
//! library, with what is taken on trust of it.

use vstd::prelude::*;
use vstd::utf8::decode_utf8;
use vstd::utf8::encode_utf8;
use vstd::utf8::encode_utf8_decode_utf8;
use vstd::utf8::encode_utf8_valid_utf8;
use vstd::utf8::valid_utf8;

verus! {

/// The text that `bytes` stand for, with the replacement character in place
/// of what is no UTF-8: what `String::from_utf8_lossy` makes of them.
pub uninterp spec fn utf8_lossy(bytes: Seq<u8>) -> Seq<char>;

/// The text that `bytes` are read as: the text that they encode, where they
/// are UTF-8, and else what the lossy reading makes of them.
pub open spec fn text_of_bytes(bytes: Seq<u8>) -> Seq<char> {
    if valid_utf8(bytes) {
        decode_utf8(bytes)
    } else {
        utf8_lossy(bytes)
    }
}

/// A text that was written as UTF-8 is read as it was written.
pub proof fn lemma_encoded_text_is_read_back(text: Seq<char>)
    ensures
        text_of_bytes(encode_utf8(text)) == text,
{
    encode_utf8_valid_utf8(text);
    encode_utf8_decode_utf8(text);
}

/// Calls `String::from_utf8_lossy`. Its result depends on the bytes alone
/// and is named [`utf8_lossy`]; bytes that are UTF-8 give the text that
/// they encode, unchanged.
#[verifier::external_body]
pub(crate) fn lossy_text(bytes: &Vec<u8>) -> (text: String)
    ensures
        text@ == utf8_lossy(bytes@),
        valid_utf8(bytes@) ==> text@ == decode_utf8(bytes@),
{
    String::from_utf8_lossy(bytes).into_owned()
}

} // verus!
