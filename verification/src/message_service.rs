//! The rules that a message must meet before it is stored.

use vstd::prelude::*;
use vstd::std_specs::iter::IteratorSpec;
use vstd::string::*;
use vstd::utf8::encode_utf8;
use crate::errors::ServiceError;
use crate::errors::BAD_REQUEST;
use crate::ident::identifier_from;
use crate::ident::parsed_identifier;
use crate::ident::uuid_parse_result;
use crate::ident::uuid_parse_str;
use crate::models::CreateMessageDTO;

verus! {

/// The most bytes that the content of a message may take in UTF-8.
pub const MAX_CONTENT_BYTES: usize = 5000;

/// Whether a character has the Unicode property `White_Space`.
pub open spec fn is_white_space(c: char) -> bool {
    let code = c as u32;
    ||| 0x09 <= code <= 0x0D
    ||| code == 0x20
    ||| code == 0x85
    ||| code == 0xA0
    ||| code == 0x1680
    ||| 0x2000 <= code <= 0x200A
    ||| code == 0x2028
    ||| code == 0x2029
    ||| code == 0x202F
    ||| code == 0x205F
    ||| code == 0x3000
}

/// Whether a text holds nothing but white space.
pub open spec fn is_blank(text: Seq<char>) -> bool {
    forall|i: int| 0 <= i < text.len() ==> is_white_space(#[trigger] text[i])
}

/// Whether a character has the Unicode property `White_Space`.
pub fn white_space(c: char) -> (yes: bool)
    ensures
        yes == is_white_space(c),
{
    let code: u32 = c as u32;
    (0x09 <= code && code <= 0x0D) || code == 0x20 || code == 0x85 || code == 0xA0 || code
        == 0x1680 || (0x2000 <= code && code <= 0x200A) || code == 0x2028 || code == 0x2029
        || code == 0x202F || code == 0x205F || code == 0x3000
}

/// Whether a text holds nothing but white space.
pub fn blank(text: &str) -> (yes: bool)
    ensures
        yes == is_blank(text@),
{
    broadcast use vstd::string::group_string_axioms;

    let mut rest = text.chars();
    let ghost mut seen: int = 0;
    loop
        invariant
            0 <= seen <= text@.len(),
            rest.obeys_prophetic_iter_laws(),
            rest.remaining() == text@.skip(seen),
            forall|k: int| 0 <= k < seen ==> is_white_space(#[trigger] text@[k]),
        decreases text@.len() - seen,
    {
        let ghost before = rest.remaining();
        match rest.next() {
            None => {
                return true;
            },
            Some(c) => {
                assert(c == text@[seen]);
                if !white_space(c) {
                    return false;
                }
                proof {
                    assert(before.drop_first() =~= text@.skip(seen + 1));
                    seen = seen + 1;
                }
            },
        }
    }
}

/// Why a content is refused, if it is: a blank content first, then one that
/// takes more than [`MAX_CONTENT_BYTES`] bytes in UTF-8.
pub open spec fn content_fault(content: Seq<char>) -> Option<Seq<char>> {
    if is_blank(content) {
        Some("Message content cannot be empty"@)
    } else if encode_utf8(content).len() > MAX_CONTENT_BYTES {
        Some("Message content too long (maximum 5000 characters)"@)
    } else {
        None
    }
}

/// Checks the content of a message: it may not be blank, nor longer than
/// [`MAX_CONTENT_BYTES`] bytes.
pub fn validate_content(content: &str) -> (r: Result<(), ServiceError>)
    ensures
        match content_fault(content@) {
            Some(message) => r is Err && r->Err_0.is(message, BAD_REQUEST),
            None => r is Ok,
        },
{
    if blank(content) {
        return Err(ServiceError::bad_request("Message content cannot be empty"));
    }
    if content.as_bytes().len() > MAX_CONTENT_BYTES {
        return Err(
            ServiceError::bad_request("Message content too long (maximum 5000 characters)"),
        );
    }
    Ok(())
}

/// Checks a request to store a message. An accepted request is handed to the
/// store as it is.
pub fn validate_message(message: &CreateMessageDTO) -> (r: Result<(), ServiceError>)
    ensures
        match content_fault(message.content@) {
            Some(why) => r is Err && r->Err_0.is(why, BAD_REQUEST),
            None => r is Ok,
        },
{
    validate_content(message.content.as_str())
}

/// Reads the chat whose messages are asked for. A text that is no UUID is a
/// rejected input whose message starts with `Invalid UUID format: `.
pub fn parse_chat_uid(chat_uid: &str) -> (r: Result<u128, ServiceError>)
    ensures
        parsed_identifier(uuid_parse_result(chat_uid@), "Invalid UUID format: "@, r),
{
    identifier_from(uuid_parse_str(chat_uid), "Invalid UUID format: ")
}

} // verus!
