//! The WebSocket handshake: the accept key of RFC 6455 and the responses
//! sent while upgrading a connection.

use vstd::prelude::*;
use vstd::utf8::encode_utf8;
use base64::engine::general_purpose;
use base64::Engine;
use sha1::Digest;
use sha1::Sha1;
use crate::response::{header, headers_view, response, HttpResponse, OK, SWITCHING_PROTOCOLS};
use crate::text::{ascii_lower_seq, ascii_lowercase_exec, chars_of, slices_equal};

verus! {

/// The SHA-1 digest of `data`, as the `sha1` crate computes it.
pub uninterp spec fn sha1_digest(data: Seq<u8>) -> Seq<u8>;

/// The standard padded base64 text of `data`, as the `base64` crate's
/// `STANDARD` engine encodes it.
pub uninterp spec fn base64_standard(data: Seq<u8>) -> Seq<char>;

/// Calls `<sha1::Sha1 as Digest>::digest`. Trusted: the result is the
/// digest named `sha1_digest(data)`, a function of the bytes alone, and is
/// 20 bytes long (SHA-1's output size).
#[verifier::external_body]
fn sha1(data: &[u8]) -> (r: Vec<u8>)
    ensures
        r@ == sha1_digest(data@),
        r@.len() == 20,
{
    Sha1::digest(data).to_vec()
}

/// Calls `base64::engine::general_purpose::STANDARD.encode`. Trusted: the
/// result is the text named `base64_standard(data)`, a function of the bytes
/// alone. The crate panics only where the encoded length overflows `usize`,
/// which the `requires` rules out.
#[verifier::external_body]
fn base64_encode(data: &[u8]) -> (r: String)
    requires
        data@.len() <= usize::MAX / 2,
    ensures
        r@ == base64_standard(data@),
{
    general_purpose::STANDARD.encode(data)
}

/// The GUID that RFC 6455 appends to the client's key.
pub open spec fn websocket_guid() -> Seq<char> {
    "258EAFA5-E914-47DA-95CA-C5AB0DC85B11"@
}

/// The accept key for a client key: the base64 text of the SHA-1 digest of
/// the key followed by the GUID, both as UTF-8 bytes.
pub open spec fn accept_key_spec(key: Seq<char>) -> Seq<char> {
    base64_standard(sha1_digest(encode_utf8(key) + encode_utf8(websocket_guid())))
}

/// Append `src` to `dst`.
fn push_bytes(dst: &mut Vec<u8>, src: &[u8])
    ensures
        final(dst)@ == old(dst)@ + src@,
{
    let mut i: usize = 0;
    while i < src.len()
        invariant
            i <= src.len(),
            dst@ == old(dst)@ + src@.take(i as int),
        decreases src.len() - i,
    {
        dst.push(src[i]);
        proof {
            assert(src@.take(i + 1) =~= src@.take(i as int).push(src@[i as int]));
            assert(dst@ =~= old(dst)@ + src@.take(i + 1));
        }
        i += 1;
    }
    proof {
        assert(src@.take(i as int) =~= src@);
    }
}

/// Calculate the WebSocket accept key for a client's key.
pub fn calculate_websocket_accept_key(key: &str) -> (r: String)
    ensures
        r@ == accept_key_spec(key@),
{
    let mut data: Vec<u8> = Vec::new();
    push_bytes(&mut data, key.as_bytes());
    push_bytes(&mut data, "258EAFA5-E914-47DA-95CA-C5AB0DC85B11".as_bytes());
    assert(data@ == encode_utf8(key@) + encode_utf8(websocket_guid()));
    let digest = sha1(data.as_slice());
    base64_encode(digest.as_slice())
}

/// Does the `upgrade` header ask for a WebSocket (in any ASCII case)?
pub fn is_websocket_upgrade(upgrade: Option<&str>) -> (r: bool)
    ensures
        r == (upgrade matches Some(u) && ascii_lower_seq(u@) == "websocket"@),
{
    match upgrade {
        Some(u) => {
            let lower = ascii_lowercase_exec(&chars_of(u));
            slices_equal(&lower, &chars_of("websocket"))
        },
        None => false,
    }
}

/// The headers of the 101 answer that upgrades a connection.
pub open spec fn upgrade_headers(accept_key: Seq<char>) -> Seq<(Seq<char>, Seq<char>)> {
    seq![
        ("upgrade"@, "websocket"@),
        ("connection"@, "upgrade"@),
        ("sec-websocket-accept"@, accept_key),
    ]
}

/// The 101 Switching Protocols answer for a WebSocket upgrade.
pub fn build_websocket_upgrade_response(accept_key: &str) -> (r: HttpResponse)
    ensures
        r.status == SWITCHING_PROTOCOLS,
        headers_view(r.headers@) == upgrade_headers(accept_key@),
        r.body@.len() == 0,
{
    let mut h: Vec<(String, String)> = Vec::new();
    h.push(header("upgrade", "websocket"));
    h.push(header("connection", "upgrade"));
    h.push(header("sec-websocket-accept", accept_key));
    assert(headers_view(h@) =~= upgrade_headers(accept_key@));
    response(SWITCHING_PROTOCOLS, h, String::new())
}

/// A JSON error response: `{"error":"<message>"}`, the message unchanged.
pub fn build_json_error_response(status: u16, message: &str) -> (r: HttpResponse)
    ensures
        r.status == status,
        headers_view(r.headers@) == seq![
            ("content-type"@, "application/json"@),
            ("access-control-allow-origin"@, "*"@),
        ],
        r.body@ == crate::response::error_body(message@),
{
    let mut h: Vec<(String, String)> = Vec::new();
    h.push(header("content-type", "application/json"));
    h.push(header("access-control-allow-origin", "*"));
    assert(headers_view(h@) =~= seq![
        ("content-type"@, "application/json"@),
        ("access-control-allow-origin"@, "*"@),
    ]);
    response(status, h, crate::response::error_json(message))
}

/// The headers of a plain JSON answer outside the WebSocket.
pub open spec fn plain_json_headers() -> Seq<(Seq<char>, Seq<char>)> {
    seq![
        ("content-type"@, "application/json"@),
        ("access-control-allow-origin"@, "*"@),
        ("access-control-allow-methods"@, "GET, POST, OPTIONS"@),
        ("access-control-allow-headers"@, "content-type"@),
    ]
}

/// A 200 JSON response with the given body.
pub fn build_json_response(json: &str) -> (r: HttpResponse)
    ensures
        r.status == OK,
        headers_view(r.headers@) == plain_json_headers(),
        r.body@ == json@,
{
    let mut h: Vec<(String, String)> = Vec::new();
    h.push(header("content-type", "application/json"));
    h.push(header("access-control-allow-origin", "*"));
    h.push(header("access-control-allow-methods", "GET, POST, OPTIONS"));
    h.push(header("access-control-allow-headers", "content-type"));
    assert(headers_view(h@) =~= plain_json_headers());
    response(OK, h, json.to_string())
}

} // verus!
