//! Unpadded base64url decoding, done by the `base64` crate.

use crate::model::{displays_as, result_view};
use base64::engine::general_purpose::URL_SAFE_NO_PAD;
use base64::DecodeError as EngineError;
use base64::Engine;
use vstd::prelude::*;

verus! {

/// The error type of the `base64` crate's decoders, `base64::DecodeError`.
#[verifier::external_type_specification]
#[verifier::external_body]
pub struct ExEngineError(EngineError);

/// The 64 symbols of the URL-safe alphabet: letters, digits, `-` and `_`.
pub open spec fn is_base64url_symbol(c: char) -> bool {
    ||| 'A' <= c <= 'Z'
    ||| 'a' <= c <= 'z'
    ||| '0' <= c <= '9'
    ||| c == '-'
    ||| c == '_'
}

/// Whether some character of `text` lies outside the URL-safe alphabet.
pub open spec fn has_foreign_symbol(text: Seq<char>) -> bool {
    exists|i: int| 0 <= i < text.len() && !is_base64url_symbol(#[trigger] text[i])
}

/// What the crate's unpadded URL-safe engine makes of `text`: the decoded
/// bytes, or the text of the error it reports.
pub uninterp spec fn base64url_decoded(text: Seq<char>) -> Result<Seq<u8>, Seq<char>>;

/// Runs the crate's decoder on `text`.
///
/// Wraps `Engine::decode` of `URL_SAFE_NO_PAD`. The decoder is a function of
/// its input alone, so its outcome is named by `base64url_decoded`: on
/// success the bytes, on failure what `Display` renders for the error. It
/// looks every input byte up in the alphabet's table and fails on the first
/// one that is no symbol, which includes the padding sign and every byte of
/// a character beyond ASCII.
#[verifier::external_body]
fn engine_decode(text: &str) -> (decoded: Result<Vec<u8>, EngineError>)
    ensures
        match decoded {
            Ok(bytes) => base64url_decoded(text@) matches Ok(named) && named == bytes@,
            Err(error) => base64url_decoded(text@) matches Err(named) && displays_as(&error, named),
        },
        has_foreign_symbol(text@) ==> decoded is Err,
{
    URL_SAFE_NO_PAD.decode(text)
}

/// Decodes unpadded base64url `text`, or returns the decoder's diagnostic.
/// Text with a character outside the alphabet is never decoded.
pub fn decode_base64url(text: &str) -> (decoded: Result<Vec<u8>, String>)
    ensures
        result_view(decoded) == base64url_decoded(text@),
        has_foreign_symbol(text@) ==> decoded is Err,
{
    match engine_decode(text) {
        Ok(bytes) => {
            assert(bytes.deep_view() =~= bytes@);
            Ok(bytes)
        },
        Err(error) => Err(error.to_string()),
    }
}

} // verus!
