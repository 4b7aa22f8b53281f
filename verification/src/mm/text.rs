//! Text carried in user memory: bytes that must be valid UTF-8.

use crate::errno::SysError;
use vstd::prelude::*;
use vstd::utf8::{encode_utf8, valid_utf8};

verus! {

#[verifier::external_type_specification]
#[verifier::external_body]
pub struct ExFromUtf8Error(std::string::FromUtf8Error);

/// `String::from_utf8` accepts exactly the byte vectors that are valid UTF-8
/// and turns them, unchanged, into the string's own bytes.
pub assume_specification[ String::from_utf8 ](bytes: Vec<u8>) -> (r: Result<
    String,
    std::string::FromUtf8Error,
>)
    ensures
        r is Ok <==> valid_utf8(bytes@),
        r matches Ok(text) ==> encode_utf8(text@) == bytes@,
;

/// What decoding `bytes` as text gives: the bytes themselves where they are
/// valid UTF-8, an encoding error otherwise.
pub open spec fn spec_decode_text(bytes: Seq<u8>) -> Result<Seq<u8>, SysError> {
    if valid_utf8(bytes) {
        Ok(bytes)
    } else {
        Err(SysError::InvalidEncoding)
    }
}

/// A decoded string agrees with what decoding should give.
pub open spec fn spec_text_matches(r: Result<String, SysError>, expected: Result<
    Seq<u8>,
    SysError,
>) -> bool {
    match (r, expected) {
        (Ok(text), Ok(bytes)) => encode_utf8(text@) == bytes,
        (Err(e), Err(f)) => e == f,
        _ => false,
    }
}

/// Turns bytes read from user memory into a string.
pub fn decode_text(bytes: Vec<u8>) -> (r: Result<String, SysError>)
    ensures
        spec_text_matches(r, spec_decode_text(bytes@)),
{
    match String::from_utf8(bytes) {
        Ok(text) => Ok(text),
        Err(_) => Err(SysError::InvalidEncoding),
    }
}

} // verus!
