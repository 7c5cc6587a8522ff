//! Decoding of a raw payload into a [`NotificationEvent`].
//!
//! A payload is UTF-8 text that holds one JSON object. Its member
//! `message_id` is required and is a string; `title`, `body_message` and
//! `logo` are optional, and each is a string or `null`. Other members are
//! ignored. Where the object names a member twice, the last one counts.

use crate::event::{NotificationEvent, NotificationEventView, DEFAULT_BODY, DEFAULT_TITLE};
use crate::json::{json_text, lookup, member, parse_json, utf8_text, JsonValue, Member};
use vstd::prelude::*;
use vstd::string::StringExecFns;
use vstd::string::StringSliceAdditionalSpecFns;
use vstd::utf8::{decode_utf8, encode_utf8_decode_utf8, valid_utf8};

verus! {

/// The name of the member that holds the title.
pub const TITLE_KEY: &'static str = "title";

/// The name of the member that holds the body.
pub const BODY_KEY: &'static str = "body_message";

/// The name of the member that holds the identifier.
pub const ID_KEY: &'static str = "message_id";

/// The name of the member that holds the logo's file name.
pub const LOGO_KEY: &'static str = "logo";

/// The members of a payload that the decoder reads.
#[derive(Clone, Copy, Debug, PartialEq, Eq, Structural)]
pub enum PayloadField {
    Title,
    BodyMessage,
    MessageId,
    Logo,
}

/// Why a payload was not decoded. None of these ends the connection: the
/// message is reported and dropped.
#[derive(Clone, Copy, Debug, PartialEq, Eq, Structural)]
pub enum DecodeError {
    /// The payload is not valid UTF-8.
    InvalidUtf8,
    /// The text is not one JSON document.
    InvalidJson,
    /// A member that the decoder reads holds something other than a string
    /// (or, for an optional member, `null`).
    WrongType(PayloadField),
    /// The document has no member `message_id`.
    MissingMessageId,
}

/// Whether an optional member holds what the format allows: nothing,
/// `null`, or a string.
pub open spec fn optional_text(found: Option<JsonValue>) -> bool {
    match found {
        None => true,
        Some(JsonValue::Null) => true,
        Some(JsonValue::Text(_)) => true,
        Some(JsonValue::Other) => false,
    }
}

/// The string that a member holds, or `default` where it holds none.
pub open spec fn text_or(found: Option<JsonValue>, default: Seq<char>) -> Seq<char> {
    match found {
        Some(JsonValue::Text(text)) => text,
        _ => default,
    }
}

/// The string that a member holds, if it holds one.
pub open spec fn text_of(found: Option<JsonValue>) -> Option<Seq<char>> {
    match found {
        Some(JsonValue::Text(text)) => Some(text),
        _ => None,
    }
}

/// The notification that the four members of a payload stand for.
///
/// A member of the wrong type is reported first, in the order title, body,
/// identifier, logo; then a missing identifier. Otherwise the event carries
/// the identifier, the title and body with their defaults applied, and the
/// logo if one was given.
pub open spec fn event_of(
    title: Option<JsonValue>,
    body: Option<JsonValue>,
    id: Option<JsonValue>,
    logo: Option<JsonValue>,
) -> Result<NotificationEventView, DecodeError> {
    if !optional_text(title) {
        Err(DecodeError::WrongType(PayloadField::Title))
    } else if !optional_text(body) {
        Err(DecodeError::WrongType(PayloadField::BodyMessage))
    } else if id is Some && text_of(id) is None {
        Err(DecodeError::WrongType(PayloadField::MessageId))
    } else if !optional_text(logo) {
        Err(DecodeError::WrongType(PayloadField::Logo))
    } else if id is None {
        Err(DecodeError::MissingMessageId)
    } else {
        Ok(
            NotificationEventView {
                title: text_or(title, DEFAULT_TITLE@),
                body_message: text_or(body, DEFAULT_BODY@),
                message_id: text_of(id)->0,
                logo: text_of(logo),
            },
        )
    }
}

/// What a payload decodes to.
///
/// The bytes must be valid UTF-8 and the text one JSON document; the event
/// is then read from the document's members by [`event_of`].
pub open spec fn decode_spec(raw: Seq<u8>) -> Result<NotificationEventView, DecodeError> {
    if !valid_utf8(raw) {
        Err(DecodeError::InvalidUtf8)
    } else {
        match json_text(decode_utf8(raw)) {
            None => Err(DecodeError::InvalidJson),
            Some(members) => event_of(
                lookup(members, TITLE_KEY@),
                lookup(members, BODY_KEY@),
                lookup(members, ID_KEY@),
                lookup(members, LOGO_KEY@),
            ),
        }
    }
}

/// The view of a decoding result.
pub open spec fn decoded_view(decoded: Result<NotificationEvent, DecodeError>) -> Result<
    NotificationEventView,
    DecodeError,
> {
    match decoded {
        Ok(event) => Ok(event@),
        Err(error) => Err(error),
    }
}

/// The string of an optional member, or a copy of `default`.
fn text_or_default(found: Member, default: &str) -> (text: String)
    requires
        optional_text(found@),
    ensures
        text@ == text_or(found@, default@),
{
    match found {
        Member::Text(text) => text,
        _ => String::from_str(default),
    }
}

/// Builds the notification from the four members of a payload.
pub fn event_from_members(title: Member, body: Member, id: Member, logo: Member) -> (decoded: Result<
    NotificationEvent,
    DecodeError,
>)
    ensures
        decoded_view(decoded) == event_of(title@, body@, id@, logo@),
{
    if let Member::Other = title {
        return Err(DecodeError::WrongType(PayloadField::Title));
    }
    if let Member::Other = body {
        return Err(DecodeError::WrongType(PayloadField::BodyMessage));
    }
    let message_id = match id {
        Member::Text(text) => Some(text),
        Member::Absent => None,
        _ => {
            return Err(DecodeError::WrongType(PayloadField::MessageId));
        },
    };
    let logo = match logo {
        Member::Text(name) => Some(name),
        Member::Other => {
            return Err(DecodeError::WrongType(PayloadField::Logo));
        },
        _ => None,
    };
    match message_id {
        None => Err(DecodeError::MissingMessageId),
        Some(message_id) => Ok(
            NotificationEvent {
                title: text_or_default(title, DEFAULT_TITLE),
                body_message: text_or_default(body, DEFAULT_BODY),
                message_id,
                logo,
            },
        ),
    }
}

/// Decodes a raw payload.
pub fn decode(raw: &[u8]) -> (decoded: Result<NotificationEvent, DecodeError>)
    ensures
        decoded_view(decoded) == decode_spec(raw@),
{
    let text = match utf8_text(raw) {
        Some(text) => text,
        None => {
            return Err(DecodeError::InvalidUtf8);
        },
    };
    proof {
        encode_utf8_decode_utf8(text@);
    }
    let document = match parse_json(text) {
        Ok(document) => document,
        Err(_) => {
            return Err(DecodeError::InvalidJson);
        },
    };
    event_from_members(
        member(&document, TITLE_KEY),
        member(&document, BODY_KEY),
        member(&document, ID_KEY),
        member(&document, LOGO_KEY),
    )
}

/// Members without an identifier never make an event, whatever else they
/// hold.
pub proof fn lemma_missing_identifier_is_rejected(
    title: Option<JsonValue>,
    body: Option<JsonValue>,
    logo: Option<JsonValue>,
)
    ensures
        event_of(title, body, None, logo) is Err,
        optional_text(title) && optional_text(body) && optional_text(logo) ==> event_of(
            title,
            body,
            None,
            logo,
        ) == Err::<NotificationEventView, DecodeError>(DecodeError::MissingMessageId),
{
}

/// A payload whose document has no member `message_id` does not decode.
pub proof fn lemma_payload_without_identifier_is_rejected(raw: Seq<u8>)
    requires
        valid_utf8(raw),
        json_text(decode_utf8(raw)) is Some,
        !json_text(decode_utf8(raw))->0.contains_key(ID_KEY@),
    ensures
        decode_spec(raw) is Err,
{
}

/// An identifier alone makes an event with the default title and body and
/// without a logo.
pub proof fn lemma_identifier_alone_gets_the_defaults(id: Seq<char>)
    ensures
        event_of(None, None, Some(JsonValue::Text(id)), None) == Ok::<
            NotificationEventView,
            DecodeError,
        >(
            NotificationEventView {
                title: DEFAULT_TITLE@,
                body_message: DEFAULT_BODY@,
                message_id: id,
                logo: None,
            },
        ),
{
}

/// A decoded event carries the identifier of its payload, and its title and
/// body are those of the payload wherever the payload gives them.
pub proof fn lemma_event_keeps_what_the_payload_gives(
    title: Option<JsonValue>,
    body: Option<JsonValue>,
    id: Option<JsonValue>,
    logo: Option<JsonValue>,
)
    requires
        event_of(title, body, id, logo) is Ok,
    ensures
        id == Some(JsonValue::Text(event_of(title, body, id, logo)->Ok_0.message_id)),
        title matches Some(JsonValue::Text(text)) ==> event_of(title, body, id, logo)->Ok_0.title
            == text,
        body matches Some(JsonValue::Text(text)) ==> event_of(
            title,
            body,
            id,
            logo,
        )->Ok_0.body_message == text,
        logo matches Some(JsonValue::Text(name)) ==> event_of(title, body, id, logo)->Ok_0.logo
            == Some(name),
{
}

} // verus!
