//! Decoding a token's payload into the lines that show its claims.

use crate::base64url::{base64url_decoded, decode_base64url, has_foreign_symbol};
pub use crate::error::{DecodeError, Failure};
use crate::json::{json_parsed, parse_json, Claim, ClaimView, ParsedValue, ParsedView};
use crate::model::result_view;
use crate::token::{segments, split_segments};
use crate::utf8::{decode_text, text_decoded};
use vstd::prelude::*;
use vstd::utf8::*;

verus! {

/// What decoding yields: the lines to show, or the failure.
pub type Outcome = Result<Seq<Seq<char>>, Failure>;

/// The line that shows one claim: the key, a colon and a space, the value.
pub open spec fn claim_line(claim: ClaimView) -> Seq<char> {
    claim.key + seq![':', ' '] + claim.value
}

/// The lines that show `claims`, one per claim, in the same order.
pub open spec fn claim_lines(claims: Seq<ClaimView>) -> Seq<Seq<char>> {
    Seq::new(claims.len(), |i: int| claim_line(claims[i]))
}

/// What a parsed document yields: the lines of its claims if it is an
/// object, a failure otherwise.
pub open spec fn value_outcome(value: ParsedView) -> Outcome {
    match value {
        ParsedView::Mapping(claims) => Ok(claim_lines(claims)),
        _ => Err(Failure::NotJsonObject),
    }
}

/// What the payload text yields.
pub open spec fn text_outcome(text: Seq<char>) -> Outcome {
    match json_parsed(text) {
        Err(diagnostic) => Err(Failure::InvalidJson(diagnostic)),
        Ok(value) => value_outcome(value),
    }
}

/// What the decoded payload bytes yield.
pub open spec fn bytes_outcome(bytes: Seq<u8>) -> Outcome {
    match text_decoded(bytes) {
        Err(diagnostic) => Err(Failure::InvalidUnicodeEncoding(diagnostic)),
        Ok(text) => text_outcome(text),
    }
}

/// What a token yields: it must have exactly three segments, and the middle
/// one is decoded, read as text and parsed.
pub open spec fn token_outcome(token: Seq<char>) -> Outcome {
    let parts = segments(token);
    if parts.len() != 3 {
        Err(Failure::MissingPayload)
    } else {
        match base64url_decoded(parts[1]) {
            Err(diagnostic) => Err(Failure::InvalidBase64Encoding(diagnostic)),
            Ok(bytes) => bytes_outcome(bytes),
        }
    }
}

/// Renders one claim as `key: value`.
pub fn render_claim(claim: &Claim) -> (line: String)
    ensures
        line@ == claim_line(claim.deep_view()),
{
    proof {
        reveal_strlit(": ");
        assert(": "@ =~= seq![':', ' ']);
    }
    claim.key.clone().concat(": ").concat(claim.value.as_str())
}

/// Renders every claim, in order.
pub fn render_claims(claims: &Vec<Claim>) -> (lines: Vec<String>)
    ensures
        lines.deep_view() == claim_lines(claims.deep_view()),
{
    let mut lines: Vec<String> = Vec::new();
    let mut i: usize = 0;
    while i < claims.len()
        invariant
            i <= claims.len(),
            lines.len() == i,
            forall|j: int|
                0 <= j < i ==> (#[trigger] lines[j])@ == claim_line(claims[j].deep_view()),
        decreases claims.len() - i,
    {
        lines.push(render_claim(&claims[i]));
        i += 1;
    }
    assert(lines.deep_view() =~= claim_lines(claims.deep_view()));
    lines
}

/// The lines of a parsed document's claims; a document that is no object
/// has none to show and is rejected.
pub fn value_lines(value: &ParsedValue) -> (result: Result<Vec<String>, DecodeError>)
    ensures
        result_view(result) == value_outcome(value.deep_view()),
{
    match value {
        ParsedValue::Mapping(claims) => Ok(render_claims(claims)),
        _ => Err(DecodeError::NotJsonObject),
    }
}

/// Parses the payload text and renders its claims.
pub fn decode_payload_text(text: &str) -> (result: Result<Vec<String>, DecodeError>)
    ensures
        result_view(result) == text_outcome(text@),
{
    match parse_json(text) {
        Err(diagnostic) => Err(DecodeError::InvalidJson(diagnostic)),
        Ok(value) => value_lines(&value),
    }
}

/// Reads the decoded payload bytes as text, parses it and renders its claims.
pub fn decode_payload_bytes(bytes: Vec<u8>) -> (result: Result<Vec<String>, DecodeError>)
    ensures
        result_view(result) == bytes_outcome(bytes@),
{
    match decode_text(bytes) {
        Err(diagnostic) => Err(DecodeError::InvalidUnicodeEncoding(diagnostic)),
        Ok(text) => decode_payload_text(text.as_str()),
    }
}

/// Decodes the payload of `token` and renders its claims, one line each, in
/// the order in which the payload lists them.
///
/// A token that does not split into exactly three segments is rejected
/// whatever it holds; one whose middle segment holds a character outside the
/// base64url alphabet is never decoded.
pub fn decode_jwt(token: &str) -> (result: Result<Vec<String>, DecodeError>)
    ensures
        result_view(result) == token_outcome(token@),
        segments(token@).len() == 3 && has_foreign_symbol(segments(token@)[1])
            ==> result matches Err(DecodeError::InvalidBase64Encoding(_)),
{
    let parts = split_segments(token);
    if parts.len() != 3 {
        return Err(DecodeError::MissingPayload);
    }
    assert(parts.deep_view()[1] == parts[1]@);
    match decode_base64url(parts[1].as_str()) {
        Err(diagnostic) => Err(DecodeError::InvalidBase64Encoding(diagnostic)),
        Ok(bytes) => {
            assert(bytes.deep_view() =~= bytes@);
            decode_payload_bytes(bytes)
        },
    }
}

/// A token that does not split into exactly three segments has no payload
/// part, whatever its segments hold.
pub proof fn lemma_wrong_segment_count(token: Seq<char>)
    requires
        segments(token).len() != 3,
    ensures
        token_outcome(token) == Outcome::Err(Failure::MissingPayload),
{
}

/// A three-segment token whose middle segment the decoder turns down is not
/// properly encoded.
pub proof fn lemma_payload_not_base64url(token: Seq<char>)
    requires
        segments(token).len() == 3,
        base64url_decoded(segments(token)[1]) is Err,
    ensures
        token_outcome(token) matches Err(Failure::InvalidBase64Encoding(_)),
{
}

/// A three-segment token whose middle segment decodes to bytes that are not
/// UTF-8 is not properly encoded text.
pub proof fn lemma_payload_not_utf8(token: Seq<char>)
    requires
        segments(token).len() == 3,
        base64url_decoded(segments(token)[1]) matches Ok(bytes) && !valid_utf8(bytes),
    ensures
        token_outcome(token) matches Err(Failure::InvalidUnicodeEncoding(_)),
{
}

/// A three-segment token whose payload text the parser turns down holds no
/// JSON value.
pub proof fn lemma_payload_not_json(token: Seq<char>)
    requires
        segments(token).len() == 3,
        base64url_decoded(segments(token)[1]) matches Ok(bytes) && valid_utf8(bytes)
            && json_parsed(decode_utf8(bytes)) is Err,
    ensures
        token_outcome(token) matches Err(Failure::InvalidJson(_)),
{
}

/// A three-segment token whose payload parses to anything but an object
/// (null, a boolean, a number, a string, an array) holds no JSON object.
pub proof fn lemma_payload_not_object(token: Seq<char>)
    requires
        segments(token).len() == 3,
        base64url_decoded(segments(token)[1]) matches Ok(bytes) && valid_utf8(bytes) && (
            json_parsed(decode_utf8(bytes)) matches Ok(value) && !(value is Mapping)),
    ensures
        token_outcome(token) == Outcome::Err(Failure::NotJsonObject),
{
}

/// A three-segment token whose payload parses to an object is decoded to
/// the lines of that object's entries.
pub proof fn lemma_payload_object(token: Seq<char>, claims: Seq<ClaimView>)
    requires
        segments(token).len() == 3,
        base64url_decoded(segments(token)[1]) matches Ok(bytes) && valid_utf8(bytes) && (
            json_parsed(decode_utf8(bytes)) matches Ok(ParsedView::Mapping(entries)) && entries
                == claims),
    ensures
        token_outcome(token) == Outcome::Ok(claim_lines(claims)),
{
}

/// An object has one line per entry, in the order of the entries, each made
/// of the entry's key, a colon, a space and the entry's value. An object
/// without entries has no line.
pub proof fn lemma_one_line_per_claim(claims: Seq<ClaimView>)
    ensures
        claim_lines(claims).len() == claims.len(),
        forall|i: int|
            0 <= i < claims.len() ==> #[trigger] claim_lines(claims)[i] == claims[i].key + seq![
                ':',
                ' ',
            ] + claims[i].value,
{
}

/// Decoding keeps no state: two decodings of one token give the same lines,
/// or the same failure.
pub proof fn lemma_decoding_repeats(
    token: Seq<char>,
    first: Result<Vec<String>, DecodeError>,
    second: Result<Vec<String>, DecodeError>,
)
    requires
        result_view(first) == token_outcome(token),
        result_view(second) == token_outcome(token),
    ensures
        result_view(first) == result_view(second),
        first is Ok <==> second is Ok,
{
}

} // verus!
