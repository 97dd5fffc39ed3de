//! Reading a response body as a JSON object, through `rustc_serialize`.

use crate::scan::{is_parsable, parsable};
use rustc_serialize::json::Json;
use vstd::pervasive::unreached;
use vstd::prelude::*;

verus! {

/// Declares `rustc_serialize::json::Json`, a JSON value, as a type whose
/// inside the verifier does not see.
#[verifier::external_type_specification]
#[verifier::external_body]
pub struct ExJson(Json);

/// Whether a JSON value is an object: what `Json::is_object` answers.
pub uninterp spec fn json_is_object(value: Json) -> bool;

/// The string members of a JSON value: for an object, each member name whose
/// value is a JSON string, with the text of that string; nothing for a value
/// that is no object.
pub uninterp spec fn json_strings(value: Json) -> Map<Seq<char>, Seq<char>>;

/// What `Json::from_str` makes of a text within the bounds of `parsable`:
/// nothing where the text is no JSON document, else whether the document is
/// an object, and its string members.
pub uninterp spec fn json_document(text: Seq<char>) -> Option<(bool, Map<Seq<char>, Seq<char>>)>;

/// Calls `Json::from_str`. Trusted: on a text within the bounds the call
/// returns; the value that comes back is the one that `json_document`
/// speaks of for this text, and an error means that the text is no JSON
/// document. Beyond the bounds the parser may panic or exhaust the stack:
/// it adds the place and the length of a key in 16 bits, adds up the digits
/// of an exponent without a check, counts the elements of an array in 32
/// bits, calls itself for each level of nesting, and loses its place in an
/// object that ends with a comma. The scan of `parsable` is in a string
/// wherever the parser is, as far as the parser reads: both enter a string
/// at a quote, leave it at the next quote that no backslash stands before,
/// and the parser stops at the first byte that it cannot place.
#[verifier::external_body]
fn parse_json(text: &str) -> (out: Option<Json>)
    requires
        parsable(text@),
    ensures
        match out {
            Some(value) => json_document(text@) == Some(
                (json_is_object(value), json_strings(value)),
            ),
            None => json_document(text@) is None,
        },
{
    match Json::from_str(text) {
        Ok(value) => Some(value),
        Err(_) => None,
    }
}

/// Calls `Json::is_object`.
#[verifier::external_body]
fn is_object(value: &Json) -> (out: bool)
    ensures
        out == json_is_object(*value),
{
    value.is_object()
}

/// Calls `Json::find`, and `Json::as_string` on what it finds. Trusted:
/// `find` looks the key up in an object and finds nothing in any other
/// value; `as_string` hands out the text of a JSON string and nothing for
/// any other value.
#[verifier::external_body]
fn string_member(value: &Json, key: &str) -> (out: Option<String>)
    ensures
        match out {
            Some(text) => json_strings(*value).contains_key(key@) && json_strings(*value)[key@]
                == text@,
            None => !json_strings(*value).contains_key(key@),
        },
{
    value.find(key).and_then(Json::as_string).map(String::from)
}

/// What the client reads of a response body: two string members of a JSON
/// object, each of which may be missing.
#[derive(Clone, Debug, PartialEq, Eq)]
pub struct ResponseBody {
    /// The address of the paste.
    pub url: Option<String>,
    /// Why the server rejected the upload.
    pub error_msg: Option<String>,
}

/// The members of a `ResponseBody` as texts.
pub struct BodyView {
    pub url: Option<Seq<char>>,
    pub error_msg: Option<Seq<char>>,
}

impl View for ResponseBody {
    type V = BodyView;

    open spec fn view(&self) -> BodyView {
        BodyView {
            url: match self.url {
                Some(t) => Some(t@),
                None => None,
            },
            error_msg: match self.error_msg {
                Some(t) => Some(t@),
                None => None,
            },
        }
    }
}

/// The view of a body that may be missing.
pub open spec fn body_view(body: Option<ResponseBody>) -> Option<BodyView> {
    match body {
        Some(b) => Some(b@),
        None => None,
    }
}

/// The member of the given name, where there is one.
pub open spec fn member(strings: Map<Seq<char>, Seq<char>>, name: Seq<char>) -> Option<Seq<char>> {
    if strings.contains_key(name) {
        Some(strings[name])
    } else {
        None
    }
}

/// What a text holds as a response body: nothing unless it is within the
/// bounds of `parsable` and a JSON document that is an object, else the
/// string members `url` and `error_msg` of that object.
pub open spec fn body_of(text: Seq<char>) -> Option<BodyView> {
    if !parsable(text) {
        None
    } else {
        match json_document(text) {
            Some((true, strings)) => Some(
                BodyView { url: member(strings, "url"@), error_msg: member(strings, "error_msg"@) },
            ),
            _ => None,
        }
    }
}

fn holds_object(text: &str) -> (out: bool)
    requires
        parsable(text@),
    ensures
        out == (body_of(text@) is Some),
{
    match parse_json(text) {
        Some(value) => is_object(&value),
        None => false,
    }
}

/// Reads a response body. The text must be one: a JSON object within the
/// bounds of `parsable`.
pub fn parse_response(text: &str) -> (out: ResponseBody)
    requires
        body_of(text@) is Some,
    ensures
        Some(out@) == body_of(text@),
{
    match parse_json(text) {
        Some(value) => {
            let url = string_member(&value, "url");
            let error_msg = string_member(&value, "error_msg");
            ResponseBody { url, error_msg }
        },
        None => unreached(),
    }
}

/// Reads a response body where the text is one, and says so where it is
/// not. The text is parsed once for the test and once more for the body.
pub fn try_parse_response(text: &str) -> (out: Option<ResponseBody>)
    ensures
        body_view(out) == body_of(text@),
{
    if is_parsable(text) && holds_object(text) {
        Some(parse_response(text))
    } else {
        None
    }
}

} // verus!
