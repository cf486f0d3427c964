//! The wire format of the realtime endpoint.
//!
//! A frame is a JSON object `{ "event": string, "data": value }`. The only
//! event that a session interprets is `"message"`, whose data carries the
//! text under `"content"`. JSON is read and string literals are written by
//! `serde_json`; what a frame means is decided here, on a plain mirror of the
//! parsed document.

use vstd::prelude::*;
use crate::ident::format_uuid;
use crate::ident::uuid_text;

verus! {

/// A JSON document, as `serde_json` parses it.
#[derive(Debug)]
pub enum Json {
    Null,
    Bool(bool),
    /// A number, by the digits that `serde_json` writes for it.
    Number(String),
    Text(String),
    Array(Vec<Json>),
    /// An object's members, each key once.
    Object(Vec<(String, Json)>),
}

/// Makes `serde_json::Value` known as an opaque type: a parsed document on
/// its way to becoming a [`Json`].
#[verifier::external_type_specification]
#[verifier::external_body]
pub struct ExJsonValue(serde_json::Value);

/// The document that a `serde_json::Value` holds.
pub uninterp spec fn value_json(value: serde_json::Value) -> Json;

/// The document that `serde_json` reads from a text, `None` where the text is
/// no JSON.
pub uninterp spec fn json_document(text: Seq<char>) -> Option<Json>;

/// The JSON string literal that `serde_json` writes for a text: the text in
/// double quotes, with the escapes that JSON asks for.
pub uninterp spec fn json_quoted(text: Seq<char>) -> Seq<char>;

/// Calls `serde_json::from_str` for a `serde_json::Value`. Trusted: whether
/// the text parses, and to which document, is taken to depend on the text
/// alone; the document is named [`json_document`].
#[verifier::external_body]
pub(crate) fn value_from_str(text: &str) -> (r: Option<serde_json::Value>)
    ensures
        match r {
            Some(value) => json_document(text@) == Some(value_json(value)),
            None => json_document(text@) is None,
        },
{
    serde_json::from_str::<serde_json::Value>(text).ok()
}

/// Moves a `serde_json::Value` into a [`Json`], variant by variant; a number
/// is kept by the text of its `Display` impl, an object by the entries that
/// `serde_json::Map` iterates over. Trusted: the result is named
/// [`value_json`].
#[verifier::external_body]
pub(crate) fn json_from_value(value: serde_json::Value) -> (doc: Json)
    ensures
        doc == value_json(value),
{
    match value {
        serde_json::Value::Null => Json::Null,
        serde_json::Value::Bool(b) => Json::Bool(b),
        serde_json::Value::Number(n) => Json::Number(n.to_string()),
        serde_json::Value::String(s) => Json::Text(s),
        serde_json::Value::Array(items) => Json::Array(
            items.into_iter().map(json_from_value).collect(),
        ),
        serde_json::Value::Object(members) => Json::Object(
            members.into_iter().map(|(k, v)| (k, json_from_value(v))).collect(),
        ),
    }
}

/// Writes a text as a JSON string literal, with the `Display` impl of
/// `serde_json::Value::String`. Trusted: the literal is taken to depend on the
/// text alone, named [`json_quoted`].
#[verifier::external_body]
pub(crate) fn json_string_literal(text: &str) -> (literal: String)
    ensures
        literal@ == json_quoted(text@),
{
    serde_json::Value::String(text.to_owned()).to_string()
}

/// Reads a JSON document from a text.
pub fn parse_json(text: &str) -> (doc: Option<Json>)
    ensures
        doc == json_document(text@),
{
    match value_from_str(text) {
        Some(value) => Some(json_from_value(value)),
        None => None,
    }
}

/// The value of the first member named `key`.
pub open spec fn member(members: Seq<(String, Json)>, key: Seq<char>) -> Option<Json>
    decreases members.len(),
{
    if members.len() == 0 {
        None
    } else if members[0].0@ == key {
        Some(members[0].1)
    } else {
        member(members.drop_first(), key)
    }
}

/// The value of the first member named `key`.
pub fn find_member<'a>(members: &'a Vec<(String, Json)>, key: &str) -> (found: Option<&'a Json>)
    ensures
        match found {
            Some(value) => member(members@, key@) == Some(*value),
            None => member(members@, key@) is None,
        },
{
    let wanted = String::from_str(key);
    let mut i: usize = 0;
    assert(members@.skip(0) =~= members@);
    while i < members.len()
        invariant
            i <= members.len(),
            wanted@ == key@,
            member(members@, key@) == member(members@.skip(i as int), key@),
        decreases members.len() - i,
    {
        proof {
            assert(members@.skip(i as int)[0] == members@[i as int]);
            assert(members@.skip(i as int).drop_first() =~= members@.skip(i + 1));
        }
        if members[i].0 == wanted {
            return Some(&members[i].1);
        }
        i += 1;
    }
    None
}

/// The event of a frame: the text under `"event"` of an object that also has
/// a `"data"` member. `None` for any other document.
pub open spec fn frame_event(doc: Json) -> Option<Seq<char>> {
    match doc {
        Json::Object(members) => match (member(members@, "event"@), member(members@, "data"@)) {
            (Some(Json::Text(event)), Some(_)) => Some(event@),
            _ => None,
        },
        _ => None,
    }
}

/// The text under `"content"` of a frame's `"data"` object, if it has one.
pub open spec fn frame_content(doc: Json) -> Option<Seq<char>> {
    match doc {
        Json::Object(members) => match member(members@, "data"@) {
            Some(Json::Object(data)) => match member(data@, "content"@) {
                Some(Json::Text(content)) => Some(content@),
                _ => None,
            },
            _ => None,
        },
        _ => None,
    }
}

/// What an inbound text frame asks of the session.
#[derive(Debug)]
pub enum Inbound {
    /// No JSON, or no frame: dropped.
    Malformed,
    /// A frame that asks for nothing: another event, or a message without
    /// text.
    Ignored,
    /// A message to publish, with its text.
    Message(String),
}

/// What an inbound text frame asks of the session, with texts as sequences.
pub enum Reading {
    Malformed,
    Ignored,
    Message(Seq<char>),
}

impl View for Inbound {
    type V = Reading;

    open spec fn view(&self) -> Reading {
        match self {
            Inbound::Malformed => Reading::Malformed,
            Inbound::Ignored => Reading::Ignored,
            Inbound::Message(content) => Reading::Message(content@),
        }
    }
}

/// The meaning of a parsed frame: a `"message"` event with a non-empty text
/// under `data.content` is a message; every other frame is ignored; a
/// document that is no frame, or no document at all, is malformed.
pub open spec fn reading_of(doc: Option<Json>) -> Reading {
    match doc {
        None => Reading::Malformed,
        Some(doc) => match frame_event(doc) {
            None => Reading::Malformed,
            Some(event) => if event != "message"@ {
                Reading::Ignored
            } else {
                match frame_content(doc) {
                    Some(content) => if content.len() > 0 {
                        Reading::Message(content)
                    } else {
                        Reading::Ignored
                    },
                    None => Reading::Ignored,
                }
            },
        },
    }
}

/// The text under `"content"` of a data value, if it is an object that has
/// one.
fn content_of(data: &Json) -> (content: Option<&String>)
    ensures
        match content {
            Some(text) => data is Object && member(data->Object_0@, "content"@) == Some(
                Json::Text(*text),
            ),
            None => !(data is Object && member(data->Object_0@, "content"@) is Some && member(
                data->Object_0@,
                "content"@,
            )->Some_0 is Text),
        },
{
    match data {
        Json::Object(members) => match find_member(members, "content") {
            Some(Json::Text(text)) => Some(text),
            _ => None,
        },
        _ => None,
    }
}

/// Decides what a parsed frame asks of the session.
pub fn interpret(doc: &Json) -> (inbound: Inbound)
    ensures
        inbound@ == reading_of(Some(*doc)),
{
    match doc {
        Json::Object(members) => {
            let event = find_member(members, "event");
            let data = find_member(members, "data");
            match (event, data) {
                (Some(Json::Text(event)), Some(data)) => {
                    let message = String::from_str("message");
                    if *event == message {
                        match content_of(data) {
                            Some(text) => {
                                if text.as_str().is_empty() {
                                    Inbound::Ignored
                                } else {
                                    Inbound::Message(text.clone())
                                }
                            },
                            None => Inbound::Ignored,
                        }
                    } else {
                        Inbound::Ignored
                    }
                },
                _ => Inbound::Malformed,
            }
        },
        _ => Inbound::Malformed,
    }
}

/// Reads an inbound text frame and decides what it asks of the session.
pub fn read_frame(text: &str) -> (inbound: Inbound)
    ensures
        inbound@ == reading_of(json_document(text@)),
{
    match parse_json(text) {
        Some(doc) => interpret(&doc),
        None => Inbound::Malformed,
    }
}

/// The frame that peers are sent for a message: a `"message"` event whose
/// data names the chat, the content and the author.
pub open spec fn envelope_text(chat: u128, user: u128, content: Seq<char>) -> Seq<char> {
    "{\"data\":{\"chat_uid\":"@ + json_quoted(uuid_text(chat)) + ",\"content\":"@ + json_quoted(
        content,
    ) + ",\"user_uid\":"@ + json_quoted(uuid_text(user)) + "},\"event\":\"message\"}"@
}

/// Writes the frame that peers are sent for a message.
pub fn envelope(chat: u128, user: u128, content: &str) -> (frame: String)
    ensures
        frame@ == envelope_text(chat, user, content@),
{
    let chat_text = format_uuid(chat);
    let user_text = format_uuid(user);
    let mut frame = String::from_str("{\"data\":{\"chat_uid\":");
    frame.append(json_string_literal(chat_text.as_str()).as_str());
    frame.append(",\"content\":");
    frame.append(json_string_literal(content).as_str());
    frame.append(",\"user_uid\":");
    frame.append(json_string_literal(user_text.as_str()).as_str());
    frame.append("},\"event\":\"message\"}");
    frame
}

} // verus!
