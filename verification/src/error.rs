//! The ways in which decoding a token can fail, and how each is reported.

use vstd::prelude::*;

verus! {

/// A failed decoding. Where a decoder or parser rejected its input, the
/// error carries the text of that component's own diagnostic.
#[derive(Debug, PartialEq, Eq)]
pub enum DecodeError {
    /// The token does not consist of exactly three segments.
    MissingPayload,
    /// The payload segment is not unpadded base64url text.
    InvalidBase64Encoding(String),
    /// The decoded payload is not UTF-8 text.
    InvalidUnicodeEncoding(String),
    /// The payload text is not a JSON document.
    InvalidJson(String),
    /// The payload is a JSON document, but its top-level value is no object.
    NotJsonObject,
}

/// A failed decoding as a mathematical value.
pub enum Failure {
    MissingPayload,
    InvalidBase64Encoding(Seq<char>),
    InvalidUnicodeEncoding(Seq<char>),
    InvalidJson(Seq<char>),
    NotJsonObject,
}

impl DeepView for DecodeError {
    type V = Failure;

    open spec fn deep_view(&self) -> Failure {
        match self {
            DecodeError::MissingPayload => Failure::MissingPayload,
            DecodeError::InvalidBase64Encoding(source) => Failure::InvalidBase64Encoding(source@),
            DecodeError::InvalidUnicodeEncoding(source) => Failure::InvalidUnicodeEncoding(
                source@,
            ),
            DecodeError::InvalidJson(source) => Failure::InvalidJson(source@),
            DecodeError::NotJsonObject => Failure::NotJsonObject,
        }
    }
}

/// The message that reports `failure` to the user: a fixed sentence,
/// followed by the component's diagnostic where there is one.
pub open spec fn message_text(failure: Failure) -> Seq<char> {
    match failure {
        Failure::MissingPayload => "Payload part is missing"@,
        Failure::InvalidBase64Encoding(source) => "Payload is not encoded properly in Base64: "@
            + source,
        Failure::InvalidUnicodeEncoding(source) => "Payload is not encoded properly in UTF-8: "@
            + source,
        Failure::InvalidJson(source) => "Payload is not a valid JSON value: "@ + source,
        Failure::NotJsonObject => "Payload is not a JSON object"@,
    }
}

impl DecodeError {
    /// The text shown to the user for this failure.
    pub fn message(&self) -> (text: String)
        ensures
            text@ == message_text(self.deep_view()),
    {
        match self {
            DecodeError::MissingPayload => "Payload part is missing".to_owned(),
            DecodeError::InvalidBase64Encoding(source) => {
                "Payload is not encoded properly in Base64: ".to_owned().concat(source.as_str())
            },
            DecodeError::InvalidUnicodeEncoding(source) => {
                "Payload is not encoded properly in UTF-8: ".to_owned().concat(source.as_str())
            },
            DecodeError::InvalidJson(source) => {
                "Payload is not a valid JSON value: ".to_owned().concat(source.as_str())
            },
            DecodeError::NotJsonObject => "Payload is not a JSON object".to_owned(),
        }
    }
}

} // verus!
