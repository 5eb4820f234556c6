//! Shows what the payload of a compact three-part token holds.
//!
//! A token is three base64url segments joined by full stops: header,
//! payload and signature. [`decode_jwt`] takes the payload segment, decodes
//! it, reads the bytes as UTF-8 text, parses the text as a JSON object and
//! renders each entry of the object as one line, `key: value`. Header and
//! signature are not looked at, and no signature is checked.
//!
//! The decoding of base64url and the parsing of JSON are left to the `base64`
//! and `serde_json` crates. What they return is named, not defined, in the
//! contracts here; everything around them is proved.

pub mod base64url;
pub mod cli;
pub mod error;
pub mod json;
pub mod jwt;
pub mod model;
pub mod token;
pub mod utf8;

pub use crate::error::DecodeError;
pub use crate::jwt::decode_jwt;
