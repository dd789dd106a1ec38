//! The JSON bodies of the upload endpoint's error responses.
use crate::text::{decimal_text, unsigned_text};
use vstd::prelude::*;

verus! {

pub const BAD_REQUEST: u16 = 400;

pub const UNPROCESSABLE_ENTITY: u16 = 422;

pub const INTERNAL_SERVER_ERROR: u16 = 500;

pub const NOT_IMPLEMENTED: u16 = 501;

/// An HTTP status code and a message for the client.
#[derive(Clone, Debug)]
pub struct HttpErrorJson {
    pub code: u16,
    pub message: String,
}

/// `base`, followed by `": "` and `extra` when there is one.
pub open spec fn with_extra(base: Seq<char>, extra: Option<&str>) -> Seq<char> {
    match extra {
        Some(x) => base + ": "@ + x@,
        None => base,
    }
}

/// The message for a multipart field at `index` that could not be read.
pub open spec fn bad_multipart_message(index: nat) -> Seq<char> {
    "Unable to read file at index "@ + decimal_text(index)
        + ". Please check if the file exists and try again."@
}

fn with_extra_text(base: &str, extra: Option<&str>) -> (r: String)
    ensures
        r@ == with_extra(base@, extra),
{
    let mut message = String::from_str(base);
    if let Some(ex_message) = extra {
        message.append(": ");
        message.append(ex_message);
    }
    message
}

impl HttpErrorJson {
    /// The body for status `code` with `message`.
    pub fn new_response(code: u16, message: String) -> (r: HttpErrorJson)
        ensures
            r.code == code,
            r.message == message,
    {
        HttpErrorJson { code, message }
    }

    /// A multipart field at `index` could not be read.
    pub fn bad_multipart(index: usize) -> (r: HttpErrorJson)
        ensures
            r.code == UNPROCESSABLE_ENTITY,
            r.message@ == bad_multipart_message(index as nat),
    {
        let message = String::from_str("Unable to read file at index ").concat(
            unsigned_text(index).as_str(),
        ).concat(". Please check if the file exists and try again.");
        Self::new_response(UNPROCESSABLE_ENTITY, message)
    }

    /// The request asks for something that is not supported yet.
    pub fn unimplemented(extra_message: Option<&str>) -> (r: HttpErrorJson)
        ensures
            r.code == NOT_IMPLEMENTED,
            r.message@ == with_extra("Process not yet implemented"@, extra_message),
    {
        Self::new_response(
            NOT_IMPLEMENTED,
            with_extra_text("Process not yet implemented", extra_message),
        )
    }

    /// The request is malformed, as `message` says.
    pub fn bad_request(message: String) -> (r: HttpErrorJson)
        ensures
            r.code == BAD_REQUEST,
            r.message == message,
    {
        Self::new_response(BAD_REQUEST, message)
    }

    /// The server failed.
    pub fn internal_server_error(extra_message: Option<&str>) -> (r: HttpErrorJson)
        ensures
            r.code == INTERNAL_SERVER_ERROR,
            r.message@ == with_extra("Internal server error"@, extra_message),
    {
        Self::new_response(
            INTERNAL_SERVER_ERROR,
            with_extra_text("Internal server error", extra_message),
        )
    }
}

} // verus!
