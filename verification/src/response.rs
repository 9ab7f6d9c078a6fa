//! The replies of the gateway: a status code and one of three kinds of body.

use crate::json::{
    compact_text, document, error_document, error_json, success_document, success_json,
    value_to_string,
};
use vstd::prelude::*;

verus! {

/// Status of a reply that carries what was asked for.
pub const STATUS_OK: u16 = 200;

/// Status of a reply to a request for a key or a path that does not exist.
pub const STATUS_NOT_FOUND: u16 = 404;

/// Status of a reply to a method that no path accepts.
pub const STATUS_METHOD_NOT_ALLOWED: u16 = 405;

/// Status of a reply to a request on which the cache failed.
pub const STATUS_INTERNAL_SERVER_ERROR: u16 = 500;

/// Error code in the body of a not-found reply.
pub const CODE_NOT_FOUND: i64 = -404;

/// Error code in the body of an internal-error reply.
pub const CODE_INTERNAL_SERVER_ERROR: i64 = -500;

/// The body of a reply.
#[derive(Clone, Debug, PartialEq, Eq)]
pub enum Body {
    /// JSON text.
    Json(String),
    /// The bytes of a cached value.
    Binary(Vec<u8>),
    /// Nothing.
    Empty,
}

/// What a `Body` holds.
pub enum BodyView {
    Json(Seq<char>),
    Binary(Seq<u8>),
    Empty,
}

impl View for Body {
    type V = BodyView;

    open spec fn view(&self) -> BodyView {
        match self {
            Body::Json(text) => BodyView::Json(text@),
            Body::Binary(bytes) => BodyView::Binary(bytes@),
            Body::Empty => BodyView::Empty,
        }
    }
}

/// A reply of the gateway.
#[derive(Clone, Debug, PartialEq, Eq)]
pub struct Response {
    /// The HTTP status code.
    pub status: u16,
    /// The body, whose kind decides the content type.
    pub body: Body,
}

/// What a `Response` holds.
pub struct ResponseView {
    pub status: int,
    pub body: BodyView,
}

impl View for Response {
    type V = ResponseView;

    open spec fn view(&self) -> ResponseView {
        ResponseView { status: self.status as int, body: self.body@ }
    }
}

/// The content type that goes with a body: JSON text is
/// `application/json`, the bytes of a value are `application/octet-stream`,
/// and an empty body has none.
pub open spec fn content_type_of(body: BodyView) -> Option<Seq<char>> {
    match body {
        BodyView::Json(_) => Some("application/json"@),
        BodyView::Binary(_) => Some("application/octet-stream"@),
        BodyView::Empty => None,
    }
}

/// The reply with the given status and JSON text.
pub open spec fn json_reply(status: int, text: Seq<char>) -> ResponseView {
    ResponseView { status, body: BodyView::Json(text) }
}

/// The reply that hands out a cached value: status 200 and the bytes as
/// they are.
pub open spec fn binary_reply(value: Seq<u8>) -> ResponseView {
    ResponseView { status: 200, body: BodyView::Binary(value) }
}

/// The reply that reports success: status 200 and `{"result": true}`.
pub open spec fn success_reply() -> ResponseView {
    json_reply(200, compact_text(success_json()))
}

/// The reply for a key or a path that does not exist: status 404, error
/// code -404, message "not found".
pub open spec fn not_found_reply() -> ResponseView {
    json_reply(404, compact_text(error_json(-404, "not found"@)))
}

/// The reply for a failure of the cache: status 500, error code -500,
/// message "internal server error".
pub open spec fn server_error_reply() -> ResponseView {
    json_reply(500, compact_text(error_json(-500, "internal server error"@)))
}

/// The reply to a method that no path accepts: status 405 and no body.
pub open spec fn method_not_allowed_reply() -> ResponseView {
    ResponseView { status: 405, body: BodyView::Empty }
}

impl Response {
    /// The content type to send with this reply, if it has a body.
    pub fn content_type(&self) -> (kind: Option<&'static str>)
        ensures
            kind is Some == content_type_of(self@.body) is Some,
            kind matches Some(name) ==> content_type_of(self@.body) == Some(name@),
    {
        match &self.body {
            Body::Json(_) => Some("application/json"),
            Body::Binary(_) => Some("application/octet-stream"),
            Body::Empty => None,
        }
    }
}

/// A reply with the given status and the given JSON text as its body.
pub fn json_response(status: u16, text: String) -> (reply: Response)
    ensures
        reply@ == json_reply(status as int, text@),
{
    Response { status, body: Body::Json(text) }
}

/// Status 200 with the compact text of `jval` as JSON body.
pub fn ok_json(jval: serde_json::Value) -> (reply: Response)
    ensures
        reply@ == json_reply(200, compact_text(document(jval))),
{
    json_response(STATUS_OK, value_to_string(&jval))
}

/// Status 200 with `val` as binary body, byte for byte.
pub fn ok_binary(val: Vec<u8>) -> (reply: Response)
    ensures
        reply@ == binary_reply(val@),
{
    Response { status: STATUS_OK, body: Body::Binary(val) }
}

/// Status 404 with the not-found error as JSON body.
pub fn err_not_found() -> (reply: Response)
    ensures
        reply@ == not_found_reply(),
{
    let envelope = error_document(CODE_NOT_FOUND, "not found");
    json_response(STATUS_NOT_FOUND, value_to_string(&envelope))
}

/// Status 500 with the internal error as JSON body.
pub fn err_500() -> (reply: Response)
    ensures
        reply@ == server_error_reply(),
{
    let envelope = error_document(CODE_INTERNAL_SERVER_ERROR, "internal server error");
    json_response(STATUS_INTERNAL_SERVER_ERROR, value_to_string(&envelope))
}

/// Status 200 with `{"result": true}` as JSON body.
pub fn ok_result() -> (reply: Response)
    ensures
        reply@ == success_reply(),
{
    ok_json(success_document())
}

/// Status 405 without a body.
pub fn method_not_allowed() -> (reply: Response)
    ensures
        reply@ == method_not_allowed_reply(),
{
    Response { status: STATUS_METHOD_NOT_ALLOWED, body: Body::Empty }
}

} // verus!
