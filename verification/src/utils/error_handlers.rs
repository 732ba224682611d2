//! Payloads that describe a refused request.

use vstd::prelude::*;
use vstd::string::StringExecFns;

verus! {

/// Status of a request that was understood and refused.
pub const BAD_REQUEST: u16 = 400;

/// Status of a request that failed on the server's side.
pub const INTERNAL_SERVER_ERROR: u16 = 500;

/// The fields of a payload that failed validation.
#[derive(Debug, Clone)]
pub struct ValidationErrorJsonPayload {
    pub message: String,
    pub fields: Vec<String>,
}

impl ValidationErrorJsonPayload {
    /// The payload for a request of which `fields` failed validation.
    pub fn from_fields(fields: Vec<String>) -> (payload: ValidationErrorJsonPayload)
        ensures
            payload.message@ == "Validation error"@,
            payload.fields == fields,
    {
        ValidationErrorJsonPayload { message: String::from_str("Validation error"), fields }
    }

    /// The payload for a request that could not be read at all, with the
    /// reader's message.
    pub fn from_message(message: String) -> (payload: ValidationErrorJsonPayload)
        ensures
            payload.message == message,
            payload.fields@.len() == 0,
    {
        ValidationErrorJsonPayload { message, fields: Vec::new() }
    }
}

/// A lookup that found nothing.
#[derive(Debug)]
pub struct NotFoundError {
    error: String,
}

impl NotFoundError {
    /// An error with the given cause.
    pub fn new(error: String) -> (not_found: NotFoundError)
        ensures
            not_found.cause() == error@,
    {
        NotFoundError { error }
    }

    /// The cause that the error carries.
    pub closed spec fn cause(&self) -> Seq<char> {
        self.error@
    }

    /// The cause as text.
    pub fn to_string(&self) -> (text: String)
        ensures
            text@ == self.cause(),
    {
        self.error.clone()
    }

    /// The status under which the error is reported.
    pub fn status_code(&self) -> (status: u16)
        ensures
            status == BAD_REQUEST,
    {
        BAD_REQUEST
    }
}

} // verus!
