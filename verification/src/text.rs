use vstd::prelude::*;

use vstd::utf8::{decode_utf8, encode_utf8, valid_utf8};

use crate::models::Error;

verus! {

/// Relies on `String::from_utf8`: succeeds exactly on valid UTF-8, returning
/// the string backed by those very bytes, and otherwise reports the error's
/// text.
#[verifier::external_body]
fn utf8_to_string(bytes: Vec<u8>) -> (r: Result<String, String>)
    ensures
        r matches Ok(s) ==> encode_utf8(s@) == bytes@,
        r is Err <==> !valid_utf8(bytes@),
{
    match String::from_utf8(bytes) {
        Ok(s) => Ok(s),
        Err(e) => Err(e.to_string()),
    }
}

/// Interprets the bytes of a file as text: the decoded string when the
/// bytes are valid UTF-8, and a text-decoding error otherwise.
pub fn decode_text(bytes: Vec<u8>) -> (r: Result<String, Error>)
    ensures
        r is Ok <==> valid_utf8(bytes@),
        r matches Ok(s) ==> s@ == decode_utf8(bytes@),
        r matches Err(e) ==> e matches Error::Utf8(_),
{
    let ghost b = bytes@;
    match utf8_to_string(bytes) {
        Ok(s) => {
            proof {
                broadcast use vstd::utf8::encode_utf8_valid_utf8;
                broadcast use vstd::utf8::encode_utf8_decode_utf8;

                assert(decode_utf8(encode_utf8(s@)) == s@);
            }
            Ok(s)
        },
        Err(m) => Err(Error::Utf8(m)),
    }
}

/// The bytes a text is written to disk as: its UTF-8 encoding.
pub fn encode_text(s: &str) -> (r: Vec<u8>)
    ensures
        r@ == encode_utf8(s@),
{
    s.as_bytes_vec()
}

/// Writing a text and reading the file back yields the text unchanged: the
/// encoded bytes of any text are valid UTF-8 and decode to the text itself.
pub proof fn lemma_text_round_trip(content: Seq<char>)
    ensures
        valid_utf8(encode_utf8(content)),
        decode_utf8(encode_utf8(content)) == content,
{
    broadcast use vstd::utf8::encode_utf8_valid_utf8;
    broadcast use vstd::utf8::encode_utf8_decode_utf8;
}

} // verus!
