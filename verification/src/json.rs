//! Parsing the payload text as a JSON document, done by `serde_json`.

use crate::model::{displays_as, result_view};
use serde_json::Value;
use vstd::prelude::*;

verus! {

/// The error type of the `serde_json` parser.
#[verifier::external_type_specification]
#[verifier::external_body]
pub struct ExParserError(serde_json::Error);

/// One entry of a JSON object: its key, and its value in the compact JSON
/// notation.
#[derive(Debug, PartialEq, Eq)]
pub struct Claim {
    pub key: String,
    pub value: String,
}

/// A claim as mathematical text.
pub struct ClaimView {
    pub key: Seq<char>,
    pub value: Seq<char>,
}

impl DeepView for Claim {
    type V = ClaimView;

    open spec fn deep_view(&self) -> ClaimView {
        ClaimView { key: self.key@, value: self.value@ }
    }
}

/// A parsed JSON document, as far as decoding looks into it: which variant
/// its top-level value has and, for an object, its entries in document order.
#[derive(Debug, PartialEq, Eq)]
pub enum ParsedValue {
    Null,
    Boolean,
    Number,
    Text,
    Sequence,
    Mapping(Vec<Claim>),
}

/// A parsed document as a mathematical value.
pub enum ParsedView {
    Null,
    Boolean,
    Number,
    Text,
    Sequence,
    Mapping(Seq<ClaimView>),
}

impl DeepView for ParsedValue {
    type V = ParsedView;

    open spec fn deep_view(&self) -> ParsedView {
        match self {
            ParsedValue::Null => ParsedView::Null,
            ParsedValue::Boolean => ParsedView::Boolean,
            ParsedValue::Number => ParsedView::Number,
            ParsedValue::Text => ParsedView::Text,
            ParsedValue::Sequence => ParsedView::Sequence,
            ParsedValue::Mapping(claims) => ParsedView::Mapping(claims.deep_view()),
        }
    }
}

/// What the parser makes of `text`: the document it reads, or the text of
/// the error it reports.
pub uninterp spec fn json_parsed(text: Seq<char>) -> Result<ParsedView, Seq<char>>;

/// Parses `text` as one JSON document.
///
/// Wraps `serde_json::from_str` at type `Value`. The parser is a function of
/// its input alone, so its outcome is named by `json_parsed`. On success the
/// top-level variant is handed on as it is. Of an object, the entries are
/// handed on in the order in which `Map::iter` yields them, each value
/// rendered by the `Display` of `Value`. With the crate's `preserve_order`
/// feature the map keeps its entries in the order of their insertion,
/// whatever its hasher, which is the order of their first mention in the
/// document. On failure the name holds what `Display` renders for the error.
#[verifier::external_body]
fn parse_document(text: &str) -> (parsed: Result<ParsedValue, serde_json::Error>)
    ensures
        match parsed {
            Ok(value) => json_parsed(text@) matches Ok(named) && named == value.deep_view(),
            Err(error) => json_parsed(text@) matches Err(named) && displays_as(&error, named),
        },
{
    match serde_json::from_str::<Value>(text) {
        Err(error) => Err(error),
        Ok(Value::Null) => Ok(ParsedValue::Null),
        Ok(Value::Bool(_)) => Ok(ParsedValue::Boolean),
        Ok(Value::Number(_)) => Ok(ParsedValue::Number),
        Ok(Value::String(_)) => Ok(ParsedValue::Text),
        Ok(Value::Array(_)) => Ok(ParsedValue::Sequence),
        Ok(Value::Object(entries)) => Ok(ParsedValue::Mapping(
            entries.iter().map(|(k, v)| Claim { key: k.clone(), value: v.to_string() }).collect(),
        )),
    }
}

/// Parses `text` as one JSON document, or returns the parser's diagnostic.
pub fn parse_json(text: &str) -> (parsed: Result<ParsedValue, String>)
    ensures
        result_view(parsed) == json_parsed(text@),
{
    match parse_document(text) {
        Ok(value) => Ok(value),
        Err(error) => Err(error.to_string()),
    }
}

} // verus!
