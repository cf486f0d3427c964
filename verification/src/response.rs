//! The body of a successful response.

use vstd::prelude::*;

verus! {

/// A message for the caller and, where there is one, the data asked for.
pub struct ResponseBody<T> {
    pub message: String,
    pub data: Option<T>,
}

impl<T> ResponseBody<T> {
    pub fn new(message: &str, data: Option<T>) -> (body: Self)
        ensures
            body.message@ == message@,
            body.data == data,
    {
        Self { message: message.to_owned(), data }
    }
}

} // verus!
