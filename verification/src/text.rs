//! Text arrives from foreign callers as bytes and is text only once it has
//! been checked.

use vstd::prelude::*;
use vstd::string::*;
use vstd::utf8::*;

use crate::status::ErrorCode;

verus! {

/// `core::str::Utf8Error`, carried from the standard library's check to the
/// place where it is turned into an `ErrorCode`. Nothing is read from it.
#[verifier::external_type_specification]
#[verifier::external_body]
pub struct ExUtf8Error(core::str::Utf8Error);

/// `core::str::from_utf8`: succeeds exactly on well-formed UTF-8, and the
/// string slice it returns has the bytes it was given.
pub assume_specification[ core::str::from_utf8 ](v: &[u8]) -> (r: Result<
    &str,
    core::str::Utf8Error,
>)
    ensures
        r is Ok <==> valid_utf8(v@),
        r matches Ok(s) ==> s.spec_bytes() == v@,
;

/// Whether the bytes are well-formed text.
pub open spec fn is_text(bytes: Seq<u8>) -> bool {
    valid_utf8(bytes)
}

/// The characters that well-formed bytes spell.
pub open spec fn text_of(bytes: Seq<u8>) -> Seq<char> {
    decode_utf8(bytes)
}

/// Reads the bytes of a C string, without its terminator, as text.
///
/// Fails with `ErrorCode::EncodingError` exactly when the bytes are not
/// well-formed UTF-8.
pub fn parse_c_str(bytes: &[u8]) -> (r: Result<&str, ErrorCode>)
    ensures
        r is Ok <==> is_text(bytes@),
        r matches Ok(s) ==> s@ == text_of(bytes@),
        r matches Err(e) ==> e == ErrorCode::EncodingError,
{
    match core::str::from_utf8(bytes) {
        Ok(s) => {
            proof {
                encode_utf8_decode_utf8(s@);
            }
            Ok(s)
        },
        Err(_) => Err(ErrorCode::EncodingError),
    }
}

} // verus!
