//! The error value that every request-scoped failure is reported with.

use vstd::prelude::*;

verus! {

/// Status code of a rejected input.
pub const BAD_REQUEST: u16 = 400;

/// Status code of an absent chat, message or participant.
pub const NOT_FOUND: u16 = 404;

/// Status code of a failure on the server's side.
pub const INTERNAL_ERROR: u16 = 500;

/// A failure with the message shown to the caller and its status code.
#[derive(Debug)]
pub struct ServiceError {
    pub message: String,
    pub status_code: u16,
}

impl ServiceError {
    /// Whether this error carries exactly `message` and `status_code`.
    pub open spec fn is(&self, message: Seq<char>, status_code: u16) -> bool {
        self.message@ == message && self.status_code == status_code
    }

    pub fn new(message: &str, status_code: u16) -> (e: Self)
        ensures
            e.is(message@, status_code),
    {
        Self { message: message.to_owned(), status_code }
    }

    pub fn bad_request(message: &str) -> (e: Self)
        ensures
            e.is(message@, BAD_REQUEST),
    {
        Self::new(message, BAD_REQUEST)
    }

    pub fn not_found(message: &str) -> (e: Self)
        ensures
            e.is(message@, NOT_FOUND),
    {
        Self::new(message, NOT_FOUND)
    }

    pub fn internal_error(message: &str) -> (e: Self)
        ensures
            e.is(message@, INTERNAL_ERROR),
    {
        Self::new(message, INTERNAL_ERROR)
    }

    /// The text that a caller is shown for this error: its message.
    pub fn to_text(&self) -> (s: String)
        ensures
            s@ == self.message@,
    {
        self.message.clone()
    }
}

} // verus!
