//! Bytes as text and text as bytes: standard base64 with padding, as the
//! `base64` crate computes it, and UTF-8, as std checks it.
//!
//! Nothing in this file is proved. It describes three calls into code that
//! Verus does not read.

use base64::engine::general_purpose::STANDARD;
use base64::Engine;
use vstd::prelude::*;
use vstd::utf8::*;

verus! {

/// `base64::DecodeError`: why a text is not base64.
#[verifier::external_type_specification]
#[verifier::external_body]
pub struct ExDecodeError(base64::DecodeError);

/// `std::string::FromUtf8Error`: the bytes that were not UTF-8, and where.
#[verifier::external_type_specification]
#[verifier::external_body]
pub struct ExFromUtf8Error(std::string::FromUtf8Error);

/// The base64 text of a byte sequence, in the standard alphabet and padded
/// with `=` to a multiple of four characters.
pub uninterp spec fn base64_text(bytes: Seq<u8>) -> Seq<char>;

/// The bytes that a text stands for in base64, or `None` where the text is
/// not the padded standard form of any byte sequence.
pub uninterp spec fn base64_bytes(text: Seq<char>) -> Option<Seq<u8>>;

/// Number of characters in the base64 text of `len` bytes: four for every
/// three bytes begun.
pub open spec fn base64_len(len: nat) -> nat {
    4 * ((len + 2) / 3)
}

/// `Engine::encode` of `STANDARD`.
///
/// The crate panics where the text's length does not fit in `usize`, so such
/// input is left out. Decoding the text with the same engine gives the bytes
/// back.
#[verifier::external_body]
pub(crate) fn to_base64(bytes: &[u8]) -> (text: String)
    requires
        base64_len(bytes@.len()) <= usize::MAX,
    ensures
        text@ == base64_text(bytes@),
        base64_bytes(text@) == Some(bytes@),
{
    STANDARD.encode(bytes)
}

/// `Engine::decode` of `STANDARD`.
#[verifier::external_body]
pub(crate) fn from_base64(text: &str) -> (bytes: Result<Vec<u8>, base64::DecodeError>)
    ensures
        match bytes {
            Ok(decoded) => base64_bytes(text@) == Some(decoded@),
            Err(_) => base64_bytes(text@) is None,
        },
{
    STANDARD.decode(text)
}

/// `String::from_utf8` succeeds exactly on well-formed UTF-8, and the string
/// it returns is made of the characters that the bytes encode.
pub assume_specification[ String::from_utf8 ](bytes: Vec<u8>) -> (text: Result<
    String,
    std::string::FromUtf8Error,
>)
    ensures
        text is Ok <==> valid_utf8(bytes@),
        text matches Ok(s) ==> s@ == decode_utf8(bytes@),
;

} // verus!
