//! HTTP responses as the library builds them: a status code, headers in the
//! order they are set, and a text body. The server turns them into its own
//! response type.

use vstd::prelude::*;
use crate::text::{append_str, chars_of, string_from};

verus! {

/// 101 Switching Protocols.
pub const SWITCHING_PROTOCOLS: u16 = 101;
/// 200 OK.
pub const OK: u16 = 200;
/// 400 Bad Request.
pub const BAD_REQUEST: u16 = 400;
/// 404 Not Found.
pub const NOT_FOUND: u16 = 404;
/// 500 Internal Server Error.
pub const INTERNAL_SERVER_ERROR: u16 = 500;

/// An HTTP response.
pub struct HttpResponse {
    pub status: u16,
    pub headers: Vec<(String, String)>,
    pub body: String,
}

/// The headers of a response, as texts.
pub open spec fn headers_view(h: Seq<(String, String)>) -> Seq<(Seq<char>, Seq<char>)> {
    Seq::new(h.len(), |i: int| (h[i].0@, h[i].1@))
}

/// A header.
pub fn header(name: &str, value: &str) -> (r: (String, String))
    ensures
        r.0@ == name@,
        r.1@ == value@,
{
    (name.to_string(), value.to_string())
}

/// A response with the given parts.
pub fn response(status: u16, headers: Vec<(String, String)>, body: String) -> (r: HttpResponse)
    ensures
        r.status == status,
        r.headers@ == headers@,
        r.body == body,
{
    HttpResponse { status, headers, body }
}

/// The headers of a JSON response with CORS allowed from anywhere.
pub open spec fn json_headers() -> Seq<(Seq<char>, Seq<char>)> {
    seq![("content-type"@, "application/json"@), ("access-control-allow-origin"@, "*"@)]
}

/// The body `{"error":"<message>"}`, the message put in unchanged.
pub open spec fn error_body(message: Seq<char>) -> Seq<char> {
    "{\"error\":\""@ + message + "\"}"@
}

/// The text `{"error":"<message>"}`.
pub fn error_json(message: &str) -> (r: String)
    ensures
        r@ == error_body(message@),
{
    let mut v = chars_of("{\"error\":\"");
    append_str(&mut v, message);
    append_str(&mut v, "\"}");
    string_from(&v)
}

/// A JSON response with CORS allowed from anywhere.
pub fn json_response(status: u16, body: String) -> (r: HttpResponse)
    ensures
        r.status == status,
        headers_view(r.headers@) == json_headers(),
        r.body == body,
{
    let mut h: Vec<(String, String)> = Vec::new();
    h.push(header("content-type", "application/json"));
    h.push(header("access-control-allow-origin", "*"));
    assert(headers_view(h@) =~= json_headers());
    response(status, h, body)
}

/// A 200 JSON response.
pub fn json_ok(body: String) -> (r: HttpResponse)
    ensures
        r.status == OK,
        headers_view(r.headers@) == json_headers(),
        r.body == body,
{
    json_response(OK, body)
}

/// A 400 response with body `{"error":"<message>"}`.
pub fn bad_request(error_msg: &str) -> (r: HttpResponse)
    ensures
        r.status == BAD_REQUEST,
        headers_view(r.headers@) == json_headers(),
        r.body@ == error_body(error_msg@),
{
    json_response(BAD_REQUEST, error_json(error_msg))
}

/// A 500 response with body `{"error":"<message>"}`.
pub fn internal_error(error_msg: &str) -> (r: HttpResponse)
    ensures
        r.status == INTERNAL_SERVER_ERROR,
        headers_view(r.headers@) == json_headers(),
        r.body@ == error_body(error_msg@),
{
    json_response(INTERNAL_SERVER_ERROR, error_json(error_msg))
}

/// A 404 response with body `{"error":"<message>"}`.
pub fn not_found(error_msg: &str) -> (r: HttpResponse)
    ensures
        r.status == NOT_FOUND,
        headers_view(r.headers@) == json_headers(),
        r.body@ == error_body(error_msg@),
{
    json_response(NOT_FOUND, error_json(error_msg))
}

/// The headers of the answer to a CORS preflight request.
pub open spec fn preflight_headers() -> Seq<(Seq<char>, Seq<char>)> {
    seq![
        ("access-control-allow-origin"@, "*"@),
        ("access-control-allow-methods"@, "GET, POST, PUT, DELETE, OPTIONS"@),
        ("access-control-allow-headers"@, "content-type"@),
    ]
}

/// The 200 answer, with an empty body, to a CORS preflight request.
pub fn cors_preflight() -> (r: HttpResponse)
    ensures
        r.status == OK,
        headers_view(r.headers@) == preflight_headers(),
        r.body@.len() == 0,
{
    let mut h: Vec<(String, String)> = Vec::new();
    h.push(header("access-control-allow-origin", "*"));
    h.push(header("access-control-allow-methods", "GET, POST, PUT, DELETE, OPTIONS"));
    h.push(header("access-control-allow-headers", "content-type"));
    assert(headers_view(h@) =~= preflight_headers());
    response(OK, h, String::new())
}

/// The headers of a response of the given content type, with CORS allowed
/// from anywhere.
pub open spec fn typed_headers(content_type: Seq<char>) -> Seq<(Seq<char>, Seq<char>)> {
    seq![("content-type"@, content_type), ("access-control-allow-origin"@, "*"@)]
}

/// An HTML response.
pub fn html_response(status: u16, body: String) -> (r: HttpResponse)
    ensures
        r.status == status,
        headers_view(r.headers@) == typed_headers("text/html"@),
        r.body == body,
{
    let mut h: Vec<(String, String)> = Vec::new();
    h.push(header("content-type", "text/html"));
    h.push(header("access-control-allow-origin", "*"));
    assert(headers_view(h@) =~= typed_headers("text/html"@));
    response(status, h, body)
}

/// A plain-text response.
pub fn text_response(status: u16, body: String) -> (r: HttpResponse)
    ensures
        r.status == status,
        headers_view(r.headers@) == typed_headers("text/plain"@),
        r.body == body,
{
    let mut h: Vec<(String, String)> = Vec::new();
    h.push(header("content-type", "text/plain"));
    h.push(header("access-control-allow-origin", "*"));
    assert(headers_view(h@) =~= typed_headers("text/plain"@));
    response(status, h, body)
}

/// The headers of a server-sent events stream.
pub open spec fn sse_headers() -> Seq<(Seq<char>, Seq<char>)> {
    seq![
        ("content-type"@, "text/event-stream"@),
        ("cache-control"@, "no-cache"@),
        ("access-control-allow-origin"@, "*"@),
    ]
}

/// The 200 head of a server-sent events stream; its body is streamed.
pub fn sse_response() -> (r: HttpResponse)
    ensures
        r.status == OK,
        headers_view(r.headers@) == sse_headers(),
        r.body@.len() == 0,
{
    let mut h: Vec<(String, String)> = Vec::new();
    h.push(header("content-type", "text/event-stream"));
    h.push(header("cache-control", "no-cache"));
    h.push(header("access-control-allow-origin", "*"));
    assert(headers_view(h@) =~= sse_headers());
    response(OK, h, String::new())
}

} // verus!
