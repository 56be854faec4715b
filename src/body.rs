//! The limits of a fetch, the guard on the declared length, and the decoding
//! of a body into text.
use vstd::prelude::*;
use vstd::string::StringExecFns;
use vstd::utf8::{decode_utf8, encode_utf8, valid_utf8};

use crate::error::{ErrorView, FetchError};

verus! {

/// The time limit on a whole request, from connecting to the end of the body.
pub const REQUEST_TIMEOUT_SECS: u64 = 10;

/// The largest declared body length accepted: 5 MiB.
pub const MAX_DECLARED_LENGTH: u64 = 5 * 1024 * 1024;

/// Whether a response with this declared `Content-Length` is rejected before
/// its body is read. A response that declares no length is never rejected.
pub open spec fn declared_too_large(content_length: Option<u64>) -> bool {
    match content_length {
        Some(n) => n > MAX_DECLARED_LENGTH,
        None => false,
    }
}

/// The description carried by the error for a body that is not UTF-8.
pub open spec fn not_utf8_detail() -> Seq<char> {
    "the response body is not valid UTF-8"@
}

/// What a body that arrived whole turns into: its text when its bytes are
/// UTF-8, else a decoding error.
pub open spec fn body_outcome(bytes: Seq<u8>) -> Result<Seq<char>, ErrorView> {
    if valid_utf8(bytes) {
        Ok(decode_utf8(bytes))
    } else {
        Err(ErrorView::Decode(not_utf8_detail()))
    }
}

/// Whether the declared length of a response rejects it.
pub fn exceeds_size_limit(content_length: Option<u64>) -> (r: bool)
    ensures
        r == declared_too_large(content_length),
{
    match content_length {
        Some(n) => n > MAX_DECLARED_LENGTH,
        None => false,
    }
}

/// Relies on `String::from_utf8`: it succeeds exactly when the bytes are
/// UTF-8, and the string it returns holds those very bytes.
#[verifier::external_body]
fn string_from_utf8(bytes: Vec<u8>) -> (r: Option<String>)
    ensures
        r is Some <==> valid_utf8(bytes@),
        r matches Some(s) ==> encode_utf8(s@) == bytes@,
{
    match String::from_utf8(bytes) {
        Ok(s) => Some(s),
        Err(_) => None,
    }
}

/// Decodes a whole body as UTF-8 text, byte for byte; a body that is not
/// UTF-8 is an error, never text with replaced characters.
pub fn decode_body(bytes: Vec<u8>) -> (r: Result<String, FetchError>)
    ensures
        r matches Ok(s) ==> body_outcome(bytes@) == Ok::<Seq<char>, ErrorView>(s@),
        r matches Ok(s) ==> encode_utf8(s@) == bytes@,
        r matches Err(e) ==> body_outcome(bytes@) == Err::<Seq<char>, ErrorView>(e@),
{
    match string_from_utf8(bytes) {
        Some(s) => {
            proof {
                vstd::utf8::encode_utf8_decode_utf8(s@);
            }
            Ok(s)
        },
        None => Err(FetchError::Decode(String::from_str("the response body is not valid UTF-8"))),
    }
}

} // verus!
