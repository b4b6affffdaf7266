//! Text file content: UTF-8 encoding for saving and decoding for reading,
//! with the round-trip law between the two.

use vstd::prelude::*;
use vstd::utf8::{valid_utf8, encode_utf8, decode_utf8, encode_utf8_valid_utf8,
    encode_utf8_decode_utf8};
use crate::error::OpError;

verus! {

/// The bytes that saving `content` writes to disk: its UTF-8 encoding,
/// with no transformation.
pub fn encode_content(content: &str) -> (r: Vec<u8>)
    ensures
        r@ == encode_utf8(content@),
{
    content.as_bytes_vec()
}

/// Relies on `String::from_utf8`: returns the bytes as a `String` exactly
/// when they are valid UTF-8, and the string's UTF-8 bytes are the input.
#[verifier::external_body]
fn string_from_utf8(bytes: Vec<u8>) -> (r: Option<String>)
    ensures
        r is Some <==> valid_utf8(bytes@),
        r matches Some(s) ==> encode_utf8(s@) == bytes@,
{
    String::from_utf8(bytes).ok()
}

/// Turns bytes read from disk into text: succeeds exactly on valid UTF-8,
/// and then returns the text whose encoding is those bytes, unchanged.
pub fn text_from_bytes(bytes: Vec<u8>) -> (r: Result<String, OpError>)
    ensures
        valid_utf8(bytes@) ==> (r matches Ok(s) && s@ == decode_utf8(bytes@) && encode_utf8(s@)
            == bytes@),
        !valid_utf8(bytes@) ==> r == Err::<String, OpError>(OpError::NotText),
{
    match string_from_utf8(bytes) {
        Some(s) => {
            proof {
                encode_utf8_decode_utf8(s@);
            }
            Ok(s)
        },
        None => Err(OpError::NotText),
    }
}

/// Round-trip law: saving any text and reading it back yields the text
/// unchanged — its UTF-8 encoding is always valid, and decoding that
/// encoding restores every character, including none and multi-byte ones.
pub proof fn lemma_content_round_trip(content: Seq<char>)
    ensures
        valid_utf8(encode_utf8(content)),
        decode_utf8(encode_utf8(content)) == content,
{
    encode_utf8_valid_utf8(content);
    encode_utf8_decode_utf8(content);
}

} // verus!
