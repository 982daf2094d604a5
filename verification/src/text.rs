//! The text that the camera stack renders for a pixel format.
//!
//! The camera stack hands out the rendering as bytes in a buffer of its own.
//! This module turns the bytes into an owned string, so that the caller can
//! give the buffer back whatever the bytes held.

use vstd::prelude::*;
use vstd::string::StringSliceAdditionalSpecFns;
use vstd::utf8::{
    decode_utf8, encode_utf8, encode_utf8_decode_utf8, encode_utf8_valid_utf8, is_ascii_chars,
    is_ascii_chars_encode_utf8, valid_utf8,
};

verus! {

/// `core::str::Utf8Error`: says where bytes stopped being UTF-8. Nothing
/// here reads it.
#[verifier::external_type_specification]
#[verifier::external_body]
pub struct ExUtf8Error(core::str::Utf8Error);

/// `core::str::from_utf8`. Its documentation promises a string slice over
/// the same bytes where the bytes are valid UTF-8, and an error where they
/// are not.
pub assume_specification[ core::str::from_utf8 ](v: &[u8]) -> (text: Result<
    &str,
    core::str::Utf8Error,
>)
    ensures
        text is Ok <==> valid_utf8(v@),
        text matches Ok(slice) ==> slice.spec_bytes() == v@,
;

/// Decodes the bytes of a rendered format, without the terminating zero
/// byte, and copies the text into a string of its own.
///
/// The answer is an error exactly where the bytes are not valid UTF-8. The
/// camera stack promises that this does not happen, so a caller may treat
/// the error as fatal, after it has released the buffer.
pub fn decode_display_string(bytes: &[u8]) -> (text: Result<String, core::str::Utf8Error>)
    ensures
        text is Ok <==> valid_utf8(bytes@),
        text matches Ok(string) ==> string@ == decode_utf8(bytes@),
{
    match core::str::from_utf8(bytes) {
        Ok(slice) => {
            proof {
                encode_utf8_decode_utf8(slice@);
            }
            Ok(slice.to_owned())
        },
        Err(error) => Err(error),
    }
}

/// The characters that stand for ASCII bytes: each byte taken as the
/// character with its number.
pub open spec fn ascii_text(bytes: Seq<u8>) -> Seq<char> {
    Seq::new(bytes.len(), |i: int| bytes[i] as char)
}

/// Bytes below 128 always decode, each byte to the character with its
/// number: a rendering in plain ASCII is never refused.
pub proof fn lemma_ascii_decodes(bytes: Seq<u8>)
    requires
        forall|i: int| 0 <= i < bytes.len() ==> bytes[i] < 128,
    ensures
        valid_utf8(bytes),
        decode_utf8(bytes) == ascii_text(bytes),
{
    let chars = ascii_text(bytes);
    assert(is_ascii_chars(chars));
    is_ascii_chars_encode_utf8(chars);
    assert forall|i: int| 0 <= i < bytes.len() implies encode_utf8(chars)[i] == bytes[i] by {
        assert(chars[i] as u8 == encode_utf8(chars)[i]);
    }
    assert(encode_utf8(chars) =~= bytes);
    encode_utf8_valid_utf8(chars);
    encode_utf8_decode_utf8(chars);
}

} // verus!
