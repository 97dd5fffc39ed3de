//! What the server's answer means: the status code first, then the body.

use crate::json::{body_of, body_view, try_parse_response, BodyView, ResponseBody};
use vstd::pervasive::unreached;
use vstd::prelude::*;
use vstd::utf8::{
    decode_utf8, encode_utf8, encode_utf8_decode_utf8, encode_utf8_valid_utf8, valid_utf8,
};

verus! {

/// What is reported for a status between 500 and 599.
pub const SERVER_ERROR: &'static str = "There was a server error, please try again later.";

/// What is reported for status 413.
pub const TOO_LARGE: &'static str =
    "The chosen file was rejected by the server because it was too large, please try a smaller file.";

/// Why an upload failed.
#[derive(Clone, Debug, PartialEq, Eq)]
pub enum UploadError {
    /// The server failed: a status between 500 and 599.
    ServerError,
    /// The text was too large for the server: status 413.
    TooLarge,
    /// The server rejected the request, status 422, and said why.
    Rejected(String),
}

impl UploadError {
    /// The line that is reported for the error.
    pub open spec fn message_text(self) -> Seq<char> {
        match self {
            UploadError::ServerError => SERVER_ERROR@,
            UploadError::TooLarge => TOO_LARGE@,
            UploadError::Rejected(reason) => reason@,
        }
    }

    /// The line that is reported for the error: a fixed one, or the
    /// server's own words.
    pub fn message(&self) -> (out: String)
        ensures
            out@ == self.message_text(),
    {
        match self {
            UploadError::ServerError => String::from_str(SERVER_ERROR),
            UploadError::TooLarge => String::from_str(TOO_LARGE),
            UploadError::Rejected(reason) => reason.clone(),
        }
    }
}

/// Whether a status says that the server failed.
pub open spec fn is_server_error(status: u32) -> bool {
    500 <= status <= 599
}

/// Whether the outcome for a status depends on the body.
pub open spec fn reads_body(status: u32) -> bool {
    !is_server_error(status) && status != 413
}

/// Whether an answer can be interpreted: where the body is read it is a JSON
/// object, and holds the server's reason where the status is 422.
pub open spec fn readable(status: u32, body: Option<BodyView>) -> bool {
    reads_body(status) ==> body is Some && (status == 422 ==> body->0.error_msg is Some)
}

/// The outcome of an upload, from the status and the body as it was read.
/// A status between 500 and 599 and status 413 are failures whatever the
/// body holds; status 422 fails with the body's `error_msg`; with any other
/// status the body is the result.
pub fn upload_outcome(status: u32, body: Option<ResponseBody>) -> (out: Result<
    ResponseBody,
    UploadError,
>)
    requires
        readable(status, body_view(body)),
    ensures
        is_server_error(status) ==> out == Err::<ResponseBody, UploadError>(
            UploadError::ServerError,
        ),
        status == 413 ==> out == Err::<ResponseBody, UploadError>(UploadError::TooLarge),
        status == 422 ==> (out matches Err(UploadError::Rejected(reason)) && Some(reason@)
            == body_view(body)->0.error_msg),
        reads_body(status) && status != 422 ==> out == Ok::<ResponseBody, UploadError>(body->0),
{
    if 500 <= status && status <= 599 {
        Err(UploadError::ServerError)
    } else if status == 413 {
        Err(UploadError::TooLarge)
    } else {
        match body {
            Some(found) => {
                if status == 422 {
                    match found.error_msg {
                        Some(reason) => Err(UploadError::Rejected(reason)),
                        None => unreached(),
                    }
                } else {
                    Ok(found)
                }
            },
            None => unreached(),
        }
    }
}

/// Calls `core::str::from_utf8`. Trusted: it hands out the bytes as a text
/// where they are UTF-8, and fails where they are not.
#[verifier::external_body]
fn utf8_text(bytes: &[u8]) -> (out: Option<&str>)
    ensures
        match out {
            Some(text) => encode_utf8(text@) == bytes@,
            None => !valid_utf8(bytes@),
        },
{
    match core::str::from_utf8(bytes) {
        Ok(text) => Some(text),
        Err(_) => None,
    }
}

/// What the bytes of an answer hold as a response body: nothing unless they
/// are UTF-8, else what their text holds.
pub open spec fn answer_body(bytes: Seq<u8>) -> Option<BodyView> {
    if valid_utf8(bytes) {
        body_of(decode_utf8(bytes))
    } else {
        None
    }
}

/// Reads the bytes of an answer as a response body, and says so where they
/// hold none.
pub fn read_answer(bytes: &[u8]) -> (out: Option<ResponseBody>)
    ensures
        body_view(out) == answer_body(bytes@),
{
    match utf8_text(bytes) {
        Some(text) => {
            proof {
                encode_utf8_valid_utf8(text@);
                encode_utf8_decode_utf8(text@);
            }
            try_parse_response(text)
        },
        None => None,
    }
}

/// Whether the outcome for a status depends on the body.
pub fn body_is_read(status: u32) -> (out: bool)
    ensures
        out == reads_body(status),
{
    !(500 <= status && status <= 599) && status != 413
}

/// Interprets the server's answer. The body is decoded and parsed only
/// where the status asks for it. Nothing comes back where the answer cannot
/// be interpreted: the body had to be read and is no JSON object in UTF-8
/// within the bounds of the parser, or the status is 422 and the object has
/// no string member `error_msg`.
pub fn interpret_response(status: u32, body: &[u8]) -> (out: Option<
    Result<ResponseBody, UploadError>,
>)
    ensures
        out is Some <==> readable(status, answer_body(body@)),
        is_server_error(status) ==> out == Some(
            Err::<ResponseBody, UploadError>(UploadError::ServerError),
        ),
        status == 413 ==> out == Some(Err::<ResponseBody, UploadError>(UploadError::TooLarge)),
        status == 422 && out is Some ==> (out->0 matches Err(UploadError::Rejected(reason))
            && Some(reason@) == answer_body(body@)->0.error_msg),
        reads_body(status) && status != 422 && out is Some ==> (out->0 matches Ok(found)
            && Some(found@) == answer_body(body@)),
{
    if !body_is_read(status) {
        Some(upload_outcome(status, None))
    } else {
        let parsed = read_answer(body);
        let usable = match &parsed {
            Some(found) => status != 422 || found.error_msg.is_some(),
            None => false,
        };
        if usable {
            Some(upload_outcome(status, parsed))
        } else {
            None
        }
    }
}

} // verus!
