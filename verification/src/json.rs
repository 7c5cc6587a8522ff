//! The boundary to `serde_json` and to the UTF-8 check of the standard library.
//!
//! The three functions at the end of this file are trusted: Verus believes
//! their contracts without reading their bodies. What those contracts cannot
//! spell out, because it is the whole of a JSON parser, they give a name;
//! the rest of the crate is proved for whatever the names stand for.

use vstd::prelude::*;
use vstd::string::StringSliceAdditionalSpecFns;
use vstd::utf8::valid_utf8;

verus! {

/// A parsed JSON document, as `serde_json` holds it. Opaque to the proofs:
/// [`json_members`] names what they read of it.
#[verifier::external_type_specification]
#[verifier::external_body]
pub struct ExJsonDocument(serde_json::Value);

/// The error of `serde_json`. Nothing is read from it.
#[verifier::external_type_specification]
#[verifier::external_body]
pub struct ExJsonError(serde_json::Error);

/// What a member of a JSON object holds, as far as a payload is concerned.
pub enum JsonValue {
    /// The literal `null`.
    Null,
    /// A string, with its escapes resolved.
    Text(Seq<char>),
    /// A boolean, a number, an array or an object.
    Other,
}

/// A member of a JSON object as handed to the decoder.
#[derive(Clone, Debug, PartialEq, Eq)]
pub enum Member {
    /// The object has no member of that name (or the document is no object).
    Absent,
    /// The member is `null`.
    Null,
    /// The member is a string.
    Text(String),
    /// The member is a boolean, a number, an array or an object.
    Other,
}

impl View for Member {
    type V = Option<JsonValue>;

    open spec fn view(&self) -> Option<JsonValue> {
        match self {
            Member::Absent => None,
            Member::Null => Some(JsonValue::Null),
            Member::Text(text) => Some(JsonValue::Text(text@)),
            Member::Other => Some(JsonValue::Other),
        }
    }
}

/// The members of a parsed document: for a JSON object its names with what
/// they hold, for any other JSON value the empty map.
pub uninterp spec fn json_members(document: serde_json::Value) -> Map<Seq<char>, JsonValue>;

/// What `serde_json` makes of a text: `None` where it rejects the text,
/// otherwise the members of the document that it parses the text to.
pub uninterp spec fn json_text(text: Seq<char>) -> Option<Map<Seq<char>, JsonValue>>;

/// The member of `members` named `name`, if there is one.
pub open spec fn lookup(members: Map<Seq<char>, JsonValue>, name: Seq<char>) -> Option<JsonValue> {
    if members.contains_key(name) {
        Some(members[name])
    } else {
        None
    }
}

/// `core::str::from_utf8`: the bytes as text, exactly when they are valid
/// UTF-8; the text then encodes to the same bytes.
#[verifier::external_body]
pub(crate) fn utf8_text(bytes: &[u8]) -> (text: Option<&str>)
    ensures
        text is Some <==> valid_utf8(bytes@),
        text is Some ==> text->0.spec_bytes() == bytes@,
{
    match core::str::from_utf8(bytes) {
        Ok(text) => Some(text),
        Err(_) => None,
    }
}

/// `serde_json::from_str` at type `serde_json::Value`: parses a whole text as
/// one JSON document. The contract claims only that the outcome is a function
/// of the text, and ties the document that comes back to that function.
#[verifier::external_body]
pub(crate) fn parse_json(text: &str) -> (parsed: Result<serde_json::Value, serde_json::Error>)
    ensures
        match parsed {
            Ok(document) => json_text(text@) == Some(json_members(document)),
            Err(_) => json_text(text@) is None,
        },
{
    serde_json::from_str::<serde_json::Value>(text)
}

/// `serde_json::Value::get` with a string index, and the variant of what it
/// finds: the member of the document named `name`. On a document that is no
/// object `get` finds nothing.
#[verifier::external_body]
pub(crate) fn member(document: &serde_json::Value, name: &str) -> (found: Member)
    ensures
        found@ == lookup(json_members(*document), name@),
{
    match document.get(name) {
        None => Member::Absent,
        Some(serde_json::Value::Null) => Member::Null,
        Some(serde_json::Value::String(text)) => Member::Text(text.clone()),
        Some(serde_json::Value::Bool(_)) => Member::Other,
        Some(serde_json::Value::Number(_)) => Member::Other,
        Some(serde_json::Value::Array(_)) => Member::Other,
        Some(serde_json::Value::Object(_)) => Member::Other,
    }
}

} // verus!
