//! Identifiers of chats, users and messages.
//!
//! An identifier is a UUID. The library holds it as the 128-bit number that
//! the UUID stands for, most significant byte first, so that identifiers can
//! be compared, stored and reasoned about as plain integers. Reading an
//! identifier from text and writing it as text is left to the `uuid` crate.

use vstd::prelude::*;
use crate::errors::ServiceError;
use crate::errors::BAD_REQUEST;

verus! {

/// What `uuid::Uuid::parse_str` makes of a text: the identifier's number, or
/// the text of the parse error.
pub uninterp spec fn uuid_parse_result(text: Seq<char>) -> Result<u128, Seq<char>>;

/// The text that `uuid` writes for an identifier: lower-case hexadecimal
/// digits in hyphenated groups.
pub uninterp spec fn uuid_text(value: u128) -> Seq<char>;

/// Whether an executable parse result is the one that `expected` names.
pub open spec fn parse_result_matches(
    got: Result<u128, String>,
    expected: Result<u128, Seq<char>>,
) -> bool {
    match (got, expected) {
        (Ok(a), Ok(b)) => a == b,
        (Err(a), Err(b)) => a@ == b,
        _ => false,
    }
}

/// Calls `uuid::Uuid::parse_str` and hands back the number of the parsed
/// identifier (`Uuid::as_u128`) or the error's text. Trusted: the result is
/// taken to be a function of the text alone, named [`uuid_parse_result`].
#[verifier::external_body]
pub(crate) fn uuid_parse_str(text: &str) -> (r: Result<u128, String>)
    ensures
        parse_result_matches(r, uuid_parse_result(text@)),
{
    match uuid::Uuid::parse_str(text) {
        Ok(id) => Ok(id.as_u128()),
        Err(e) => Err(e.to_string()),
    }
}

/// Calls `uuid::Uuid::from_u128` and writes the identifier with its `Display`
/// impl. Trusted: the text is taken to be a function of the number alone,
/// named [`uuid_text`].
#[verifier::external_body]
pub(crate) fn uuid_to_string(value: u128) -> (s: String)
    ensures
        s@ == uuid_text(value),
{
    uuid::Uuid::from_u128(value).to_string()
}

/// The outcome of reading an identifier, given what the parser made of it:
/// the identifier, or a rejected input whose message is `prefix` followed by
/// the parser's complaint.
pub open spec fn parsed_identifier(
    parsed: Result<u128, Seq<char>>,
    prefix: Seq<char>,
    r: Result<u128, ServiceError>,
) -> bool {
    match parsed {
        Ok(id) => r == Ok::<u128, ServiceError>(id),
        Err(why) => r is Err && r->Err_0.is(prefix + why, BAD_REQUEST),
    }
}

/// Turns a parse result into an identifier or a rejected input. The message
/// of the rejection is `prefix` followed by the parser's complaint.
pub fn identifier_from(parsed: Result<u128, String>, prefix: &str) -> (r: Result<u128, ServiceError>)
    ensures
        match parsed {
            Ok(id) => r == Ok::<u128, ServiceError>(id),
            Err(why) => r is Err && r->Err_0.is(prefix@ + why@, BAD_REQUEST),
        },
{
    match parsed {
        Ok(id) => Ok(id),
        Err(why) => {
            let message = String::from_str(prefix).concat(why.as_str());
            Err(ServiceError::bad_request(message.as_str()))
        },
    }
}

/// Reads an identifier from text. A text that is no UUID is a rejected input
/// whose message starts with `Invalid UUID: `.
pub fn parse_uuid(uuid_str: &str) -> (r: Result<u128, ServiceError>)
    ensures
        parsed_identifier(uuid_parse_result(uuid_str@), "Invalid UUID: "@, r),
{
    identifier_from(uuid_parse_str(uuid_str), "Invalid UUID: ")
}

/// Reads an identifier from text, reporting a text that is no UUID with a
/// fixed message.
pub fn parse_uuid_or(uuid_str: &str, message: &str) -> (r: Result<u128, ServiceError>)
    ensures
        match uuid_parse_result(uuid_str@) {
            Ok(id) => r == Ok::<u128, ServiceError>(id),
            Err(_) => r is Err && r->Err_0.is(message@, BAD_REQUEST),
        },
{
    match uuid_parse_str(uuid_str) {
        Ok(id) => Ok(id),
        Err(_) => Err(ServiceError::bad_request(message)),
    }
}

/// Writes an identifier as text.
pub fn format_uuid(value: u128) -> (s: String)
    ensures
        s@ == uuid_text(value),
{
    uuid_to_string(value)
}

} // verus!
