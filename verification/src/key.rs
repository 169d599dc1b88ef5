//! The key material decoder: from the text that a server resolved to the key
//! type and key value that the envelope is sealed with.
//!
//! A resolved key is standard base64 of UTF-8 text that holds a JSON document
//! with the members `key_type` and `key`.  [`decode_key`] takes the three
//! steps in turn; the first that fails names the error.

use vstd::prelude::*;
use vstd::utf8::{decode_utf8, valid_utf8};

use crate::error::PayloadDecodeError;
use crate::json::{json_document, parse_json, spec_text_at, text_at, JsonView};
use crate::text::text_from_utf8;

verus! {

/// Key material: the type of a key and its value.  In material that
/// [`key_material`] accepted the value is not empty.
#[derive(Debug, Clone, PartialEq, Eq)]
pub struct Key {
    pub key_type: String,
    pub key: String,
}

/// The view of a [`Key`].
pub struct KeyView {
    pub key_type: Seq<char>,
    pub key: Seq<char>,
}

impl View for Key {
    type V = KeyView;

    open spec fn view(&self) -> KeyView {
        KeyView { key_type: self.key_type@, key: self.key@ }
    }
}

impl Key {
    /// The key value is not empty.
    pub open spec fn wf(&self) -> bool {
        self.key@.len() > 0
    }
}

/// The base64 crate's decoding error.  It is carried, never looked into.
#[verifier::external_type_specification]
#[verifier::external_body]
pub struct ExDecodeError(base64::DecodeError);

/// The bytes that `text` stands for in standard base64 (the alphabet of
/// RFC 4648 with `+` and `/`, canonical padding required), or `None` where
/// `text` is no such encoding.
pub uninterp spec fn base64_standard_decoded(text: Seq<char>) -> Option<Seq<u8>>;

/// `decode` of the base64 crate's `STANDARD` engine.  What it returns
/// depends on the text alone and is named, not defined:
/// `base64_standard_decoded`.
#[verifier::external_body]
fn decode_base64(text: &str) -> (res: Result<Vec<u8>, base64::DecodeError>)
    ensures
        res matches Ok(bytes) ==> base64_standard_decoded(text@) == Some(bytes@),
        res is Err ==> base64_standard_decoded(text@) is None,
{
    base64::Engine::decode(&base64::engine::general_purpose::STANDARD, text)
}

/// The text that decoded bytes hold, if they are UTF-8.
pub open spec fn spec_text_of_bytes(bytes: Seq<u8>) -> Result<Seq<char>, PayloadDecodeError> {
    if valid_utf8(bytes) {
        Ok(decode_utf8(bytes))
    } else {
        Err(PayloadDecodeError::Utf8)
    }
}

/// The JSON text that a resolved key holds: the first step that fails names
/// the error.
pub open spec fn spec_key_document(resolved: Seq<char>) -> Result<Seq<char>, PayloadDecodeError> {
    match base64_standard_decoded(resolved) {
        None => Err(PayloadDecodeError::Base64),
        Some(bytes) => spec_text_of_bytes(bytes),
    }
}

/// A decoding result with its text taken by its view.
pub open spec fn text_result_view(res: Result<String, PayloadDecodeError>) -> Result<
    Seq<char>,
    PayloadDecodeError,
> {
    match res {
        Ok(text) => Ok(text@),
        Err(error) => Err(error),
    }
}

/// Reads decoded bytes as UTF-8 text: `Utf8` if they are none.
pub fn text_of_bytes(bytes: Vec<u8>) -> (res: Result<String, PayloadDecodeError>)
    ensures
        text_result_view(res) == spec_text_of_bytes(bytes@),
{
    match text_from_utf8(bytes) {
        Ok(text) => Ok(text),
        Err(_) => Err(PayloadDecodeError::Utf8),
    }
}

/// Decodes a resolved key as far as its JSON text: standard base64, then
/// UTF-8.  `Base64` if the first step fails, `Utf8` if the second does.
pub fn key_document(resolved: &str) -> (res: Result<String, PayloadDecodeError>)
    ensures
        text_result_view(res) == spec_key_document(resolved@),
{
    match decode_base64(resolved) {
        Ok(bytes) => text_of_bytes(bytes),
        Err(_) => Err(PayloadDecodeError::Base64),
    }
}

/// The key material that a reading of the JSON text amounts to.  `None`
/// stands for a text that could not be read as a key document.
pub open spec fn spec_key_material(parsed: Option<(Seq<char>, Seq<char>)>) -> Result<
    KeyView,
    PayloadDecodeError,
> {
    match parsed {
        Some((key_type, key)) => if key.len() > 0 {
            Ok(KeyView { key_type, key })
        } else {
            Err(PayloadDecodeError::Json)
        },
        None => Err(PayloadDecodeError::Json),
    }
}

/// What was read from the JSON text of a key, by its view.
pub open spec fn parsed_view(parsed: Option<(String, String)>) -> Option<(Seq<char>, Seq<char>)> {
    match parsed {
        Some(pair) => Some((pair.0@, pair.1@)),
        None => None,
    }
}

/// A decoded key by its view.
pub open spec fn key_result_view(res: Result<Key, PayloadDecodeError>) -> Result<
    KeyView,
    PayloadDecodeError,
> {
    match res {
        Ok(key) => Ok(key@),
        Err(error) => Err(error),
    }
}

/// Accepts what was read from the JSON text of a key, the key type first and
/// the key value second, as key material.  `Json` if nothing could be read
/// (`None`) or if the key value is empty.
pub fn key_material(parsed: Option<(String, String)>) -> (res: Result<Key, PayloadDecodeError>)
    ensures
        key_result_view(res) == spec_key_material(parsed_view(parsed)),
        res matches Ok(key) ==> key.wf(),
{
    match parsed {
        Some((key_type, key)) => {
            if key.as_str().is_empty() {
                Err(PayloadDecodeError::Json)
            } else {
                Ok(Key { key_type, key })
            }
        },
        None => Err(PayloadDecodeError::Json),
    }
}

/// What is read from a key document: the texts of its members `key_type`
/// and `key`, or nothing where one of them is missing or no text.
pub open spec fn spec_key_members(document: JsonView) -> Option<(Seq<char>, Seq<char>)> {
    match spec_text_at(document, "key_type"@) {
        None => None,
        Some(key_type) => match spec_text_at(document, "key"@) {
            None => None,
            Some(key) => Some((key_type, key)),
        },
    }
}

/// The key material that the JSON text of a key holds.
pub open spec fn spec_key_of_json(text: Seq<char>) -> Result<KeyView, PayloadDecodeError> {
    match json_document(text) {
        None => Err(PayloadDecodeError::Json),
        Some(document) => spec_key_material(spec_key_members(document)),
    }
}

/// The key material that a resolved key holds.
pub open spec fn spec_decode_key(resolved: Seq<char>) -> Result<KeyView, PayloadDecodeError> {
    match spec_key_document(resolved) {
        Err(error) => Err(error),
        Ok(text) => spec_key_of_json(text),
    }
}

impl Key {
    /// Reads key material from the JSON text of a key: an object with the
    /// texts `key_type` and `key`, the latter not empty.  `Json` for any
    /// other text.
    pub fn from_json(text: &str) -> (res: Result<Key, PayloadDecodeError>)
        ensures
            key_result_view(res) == spec_key_of_json(text@),
            res matches Ok(key) ==> key.wf(),
    {
        let document = match parse_json(text) {
            Ok(document) => document,
            Err(_) => {
                return Err(PayloadDecodeError::Json);
            },
        };
        let parsed = match text_at(&document, "key_type") {
            None => None,
            Some(key_type) => match text_at(&document, "key") {
                None => None,
                Some(key) => Some((key_type, key)),
            },
        };
        key_material(parsed)
    }
}

/// Decodes a resolved key into key material: standard base64, then UTF-8,
/// then JSON.  The error names the step that failed: `Base64`, `Utf8` or
/// `Json`.  None of them is a failure to resolve: the servers are not asked
/// again.
pub fn decode_key(resolved: &str) -> (res: Result<Key, PayloadDecodeError>)
    ensures
        key_result_view(res) == spec_decode_key(resolved@),
        res matches Ok(key) ==> key.wf(),
{
    match key_document(resolved) {
        Ok(text) => Key::from_json(text.as_str()),
        Err(error) => Err(error),
    }
}

} // verus!
