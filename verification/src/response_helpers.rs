//! Response builders shared by the route handlers: JSON bodies with the
//! full set of CORS headers.

use vstd::prelude::*;
use crate::response::{header, headers_view, response, HttpResponse, OK};
use crate::text::{append_str, chars_of, string_from};

verus! {

/// The CORS headers every helper response carries.
pub open spec fn cors_headers() -> Seq<(Seq<char>, Seq<char>)> {
    seq![
        ("access-control-allow-origin"@, "*"@),
        ("access-control-allow-methods"@, "GET, POST, PUT, DELETE, OPTIONS"@),
        ("access-control-allow-headers"@, "content-type, authorization"@),
    ]
}

/// The headers of a JSON helper response.
pub open spec fn json_cors_headers() -> Seq<(Seq<char>, Seq<char>)> {
    seq![("content-type"@, "application/json"@)] + cors_headers()
}

/// A lower-case hexadecimal digit, for `n` below 16.
pub open spec fn lower_hex_digit(n: int) -> char {
    if n < 10 {
        (('0' as int) + n) as char
    } else {
        (('a' as int) + n - 10) as char
    }
}

/// A character as it stands inside a JSON string: quote and backslash
/// escaped, the common control characters by their short escapes, the other
/// control characters as `\u00XX`, everything else as it is.
pub open spec fn json_escape_char(c: char) -> Seq<char> {
    if c == '"' {
        seq!['\\', '"']
    } else if c == '\\' {
        seq!['\\', '\\']
    } else if c == '\n' {
        seq!['\\', 'n']
    } else if c == '\r' {
        seq!['\\', 'r']
    } else if c == '\t' {
        seq!['\\', 't']
    } else if c == '\x08' {
        seq!['\\', 'b']
    } else if c == '\x0c' {
        seq!['\\', 'f']
    } else if (c as u32) < 0x20 {
        seq!['\\', 'u', '0', '0', lower_hex_digit((c as u32) as int / 16), lower_hex_digit((c as u32) as int % 16)]
    } else {
        seq![c]
    }
}

/// `s` as the inside of a JSON string literal, every character escaped as
/// JSON requires.
pub open spec fn json_escape(s: Seq<char>) -> Seq<char>
    decreases s.len(),
{
    if s.len() == 0 {
        Seq::empty()
    } else {
        json_escape(s.drop_last()) + json_escape_char(s.last())
    }
}

fn push_escaped_char(out: &mut Vec<char>, c: char)
    ensures
        final(out)@ == old(out)@ + json_escape_char(c),
{
    let ghost before = out@;
    if c == '"' {
        out.push('\\');
        out.push('"');
    } else if c == '\\' {
        out.push('\\');
        out.push('\\');
    } else if c == '\n' {
        out.push('\\');
        out.push('n');
    } else if c == '\r' {
        out.push('\\');
        out.push('r');
    } else if c == '\t' {
        out.push('\\');
        out.push('t');
    } else if c == '\x08' {
        out.push('\\');
        out.push('b');
    } else if c == '\x0c' {
        out.push('\\');
        out.push('f');
    } else if (c as u32) < 0x20 {
        let n = c as u32;
        let hi = n / 16;
        let lo = n % 16;
        let hc = if hi < 10 { char_of(48 + hi) } else { char_of(87 + hi) };
        let lc = if lo < 10 { char_of(48 + lo) } else { char_of(87 + lo) };
        out.push('\\');
        out.push('u');
        out.push('0');
        out.push('0');
        out.push(hc);
        out.push(lc);
    } else {
        out.push(c);
    }
    assert(out@ =~= before + json_escape_char(c));
}

/// The character with an ASCII code.
fn char_of(n: u32) -> (c: char)
    requires
        n < 128,
    ensures
        c as u32 == n,
{
    (n as u8) as char
}

/// Append `s`, escaped as inside a JSON string, to `out`.
fn push_escaped(out: &mut Vec<char>, s: &str)
    ensures
        final(out)@ == old(out)@ + json_escape(s@),
{
    let cs = chars_of(s);
    let mut i: usize = 0;
    while i < cs.len()
        invariant
            i <= cs.len(),
            cs@ == s@,
            out@ == old(out)@ + json_escape(s@.take(i as int)),
        decreases cs.len() - i,
    {
        let c = cs[i];
        push_escaped_char(out, c);
        proof {
            assert(s@.take(i + 1).drop_last() =~= s@.take(i as int));
            assert(out@ =~= old(out)@ + json_escape(s@.take(i + 1)));
        }
        i += 1;
    }
    proof {
        assert(s@.take(i as int) =~= s@);
    }
}

/// Append the CORS headers.
fn push_cors(h: &mut Vec<(String, String)>)
    ensures
        headers_view(final(h)@) == headers_view(old(h)@) + cors_headers(),
{
    h.push(header("access-control-allow-origin", "*"));
    h.push(header("access-control-allow-methods", "GET, POST, PUT, DELETE, OPTIONS"));
    h.push(header("access-control-allow-headers", "content-type, authorization"));
    assert(headers_view(h@) =~= headers_view(old(h)@) + cors_headers());
}

/// The headers of a JSON helper response, built.
fn json_cors() -> (h: Vec<(String, String)>)
    ensures
        headers_view(h@) == json_cors_headers(),
{
    let mut h: Vec<(String, String)> = Vec::new();
    h.push(header("content-type", "application/json"));
    push_cors(&mut h);
    assert(headers_view(h@) =~= json_cors_headers());
    h
}

/// A JSON error response: `{"error":"<message>"}` with the message escaped
/// as JSON requires.
pub fn json_error(status: u16, message: &str) -> (r: HttpResponse)
    ensures
        r.status == status,
        headers_view(r.headers@) == json_cors_headers(),
        r.body@ == "{\"error\":\""@ + json_escape(message@) + "\"}"@,
{
    let mut v = chars_of("{\"error\":\"");
    push_escaped(&mut v, message);
    append_str(&mut v, "\"}");
    response(status, json_cors(), string_from(&v))
}

/// A 200 JSON success response: `{"success":true,"message":"<message>"}`
/// with the message escaped as JSON requires.
pub fn json_success(message: &str) -> (r: HttpResponse)
    ensures
        r.status == OK,
        headers_view(r.headers@) == json_cors_headers(),
        r.body@ == "{\"success\":true,\"message\":\""@ + json_escape(message@) + "\"}"@,
{
    let mut v = chars_of("{\"success\":true,\"message\":\"");
    push_escaped(&mut v, message);
    append_str(&mut v, "\"}");
    response(OK, json_cors(), string_from(&v))
}

/// A JSON response with a body given as text.
pub fn json_raw(status: u16, json: String) -> (r: HttpResponse)
    ensures
        r.status == status,
        headers_view(r.headers@) == json_cors_headers(),
        r.body == json,
{
    response(status, json_cors(), json)
}

/// A response with CORS headers and an empty body.
pub fn empty_response(status: u16) -> (r: HttpResponse)
    ensures
        r.status == status,
        headers_view(r.headers@) == cors_headers(),
        r.body@.len() == 0,
{
    let mut h: Vec<(String, String)> = Vec::new();
    push_cors(&mut h);
    assert(headers_view(h@) =~= cors_headers());
    response(status, h, String::new())
}

/// The 200 answer to a CORS preflight request.
pub fn cors_preflight() -> (r: HttpResponse)
    ensures
        r.status == OK,
        headers_view(r.headers@) == cors_headers(),
        r.body@.len() == 0,
{
    empty_response(OK)
}

} // verus!
