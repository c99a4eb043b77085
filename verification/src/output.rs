//! The output extractor: from captured bytes to the invocation's text.

use vstd::prelude::*;

use crate::errors::InvokeError;
use crate::host;

verus! {

/// Decode the bytes drained from a capture sink as text.
///
/// Succeeds exactly on valid UTF-8, and then returns its exact decoding:
/// bytes are never truncated or substituted.  Anything else fails with
/// `Decode`.
pub fn extract_output(bytes: Vec<u8>) -> (r: Result<String, InvokeError>)
    ensures
        (r matches Ok(text) ==> text@ == vstd::utf8::decode_utf8(bytes@)),
        (r matches Err(e) ==> e == InvokeError::Decode),
        r is Ok <==> vstd::utf8::valid_utf8(bytes@),
{
    match host::utf8_to_text(bytes) {
        Ok(text) => Ok(text),
        Err(_) => Err(InvokeError::Decode),
    }
}

/// A guest that writes text gets exactly that text back: the encoding of
/// any character sequence is valid, and decoding it restores the
/// sequence, so extraction never truncates or substitutes.
pub proof fn lemma_text_round_trip(text: Seq<char>)
    ensures
        vstd::utf8::valid_utf8(vstd::utf8::encode_utf8(text)),
        vstd::utf8::decode_utf8(vstd::utf8::encode_utf8(text)) == text,
{
    vstd::utf8::encode_utf8_valid_utf8(text);
    vstd::utf8::encode_utf8_decode_utf8(text);
}

} // verus!
