//! Reading decoded bytes as UTF-8 text.

use crate::model::{displays_as, result_view};
use std::string::FromUtf8Error;
use vstd::prelude::*;
use vstd::utf8::*;

verus! {

/// The error type of `String::from_utf8`.
#[verifier::external_type_specification]
#[verifier::external_body]
pub struct ExFromUtf8Error(FromUtf8Error);

/// The text of the error with which the standard library turns down `bytes`
/// that are not UTF-8.
pub uninterp spec fn utf8_fault(bytes: Seq<u8>) -> Seq<char>;

/// The text that `bytes` encode, or the diagnostic for bytes that encode
/// none.
pub open spec fn text_decoded(bytes: Seq<u8>) -> Result<Seq<char>, Seq<char>> {
    if valid_utf8(bytes) {
        Ok(decode_utf8(bytes))
    } else {
        Err(utf8_fault(bytes))
    }
}

/// Checks that `bytes` are UTF-8 and takes them over as a string.
///
/// Wraps `String::from_utf8`, which succeeds exactly on well-formed UTF-8
/// and then returns the text that the bytes encode. Its error depends on the
/// bytes alone; what `Display` renders for it is named by `utf8_fault`.
#[verifier::external_body]
fn string_from_utf8(bytes: Vec<u8>) -> (converted: Result<String, FromUtf8Error>)
    ensures
        match converted {
            Ok(text) => valid_utf8(bytes@) && text@ == decode_utf8(bytes@),
            Err(error) => !valid_utf8(bytes@) && displays_as(&error, utf8_fault(bytes@)),
        },
{
    String::from_utf8(bytes)
}

/// The text that `bytes` encode in UTF-8, or the conversion's diagnostic
/// where they encode none.
pub fn decode_text(bytes: Vec<u8>) -> (decoded: Result<String, String>)
    ensures
        result_view(decoded) == text_decoded(bytes@),
{
    match string_from_utf8(bytes) {
        Ok(text) => Ok(text),
        Err(error) => Err(error.to_string()),
    }
}

} // verus!
