use vstd::prelude::*;
use vstd::utf8::*;

verus! {

/// Raised when bytes handed in by the host are not well-formed UTF-8 text.
#[derive(Debug, Clone, Copy, PartialEq, Eq)]
pub struct EncodingError;

/// Relies on `String::from_utf8`: it accepts a byte vector exactly when the bytes
/// are well-formed UTF-8, and the characters of the result encode back to those bytes.
#[verifier::external_body]
fn utf8_to_string(bytes: Vec<u8>) -> (r: Option<String>)
    ensures
        r is Some <==> valid_utf8(bytes@),
        r matches Some(s) ==> encode_utf8(s@) == bytes@,
{
    String::from_utf8(bytes).ok()
}

/// Text marshaling in: reads host bytes as text, refusing anything that is not UTF-8.
pub fn text_from_host(bytes: &[u8]) -> (r: Result<String, EncodingError>)
    ensures
        r is Ok <==> valid_utf8(bytes@),
        r matches Ok(s) ==> s@ == decode_utf8(bytes@),
{
    let owned = vstd::slice::slice_to_vec(bytes);
    match utf8_to_string(owned) {
        Some(s) => {
            proof {
                encode_utf8_decode_utf8(s@);
            }
            Ok(s)
        },
        None => Err(EncodingError),
    }
}

/// Text marshaling out: the UTF-8 bytes of a text, in a fresh buffer owned by the caller.
pub fn text_to_host(s: &str) -> (r: Vec<u8>)
    ensures
        r@ == encode_utf8(s@),
{
    vstd::slice::slice_to_vec(s.as_bytes())
}

/// Text crossing the boundary in either direction keeps every character and every byte:
/// the bytes of decoded text are the bytes that came in, and decoding the bytes of a
/// text gives that text back.
pub proof fn lemma_text_round_trip(bytes: Seq<u8>, chars: Seq<char>)
    ensures
        valid_utf8(bytes) ==> encode_utf8(decode_utf8(bytes)) == bytes,
        valid_utf8(encode_utf8(chars)),
        decode_utf8(encode_utf8(chars)) == chars,
{
    if valid_utf8(bytes) {
        decode_utf8_encode_utf8(bytes);
    }
    encode_utf8_valid_utf8(chars);
    encode_utf8_decode_utf8(chars);
}

} // verus!
