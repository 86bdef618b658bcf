//! Serving the built frontend: where an asset is read from, the type it is
//! served as, and the page shown where the frontend is missing.

use vstd::prelude::*;
use crate::text::{append_str, chars_of, ends_with, ends_with_exec, string_from};

verus! {

/// The content type of an asset, by its path's extension.
pub open spec fn content_type_spec(path: Seq<char>) -> Seq<char> {
    if ends_with(path, ".js"@) {
        "application/javascript"@
    } else if ends_with(path, ".css"@) {
        "text/css"@
    } else if ends_with(path, ".png"@) {
        "image/png"@
    } else if ends_with(path, ".jpg"@) || ends_with(path, ".jpeg"@) {
        "image/jpeg"@
    } else if ends_with(path, ".svg"@) {
        "image/svg+xml"@
    } else if ends_with(path, ".json"@) {
        "application/json"@
    } else if ends_with(path, ".wasm"@) {
        "application/wasm"@
    } else if ends_with(path, ".html"@) || ends_with(path, ".htm"@) {
        "text/html"@
    } else if ends_with(path, ".txt"@) {
        "text/plain"@
    } else {
        "application/octet-stream"@
    }
}

/// The content type of an asset.
pub fn asset_content_type(path: &str) -> (r: &'static str)
    ensures
        r@ == content_type_spec(path@),
{
    let p = chars_of(path);
    if ends_with_exec(&p, &chars_of(".js")) {
        "application/javascript"
    } else if ends_with_exec(&p, &chars_of(".css")) {
        "text/css"
    } else if ends_with_exec(&p, &chars_of(".png")) {
        "image/png"
    } else if ends_with_exec(&p, &chars_of(".jpg")) || ends_with_exec(&p, &chars_of(".jpeg")) {
        "image/jpeg"
    } else if ends_with_exec(&p, &chars_of(".svg")) {
        "image/svg+xml"
    } else if ends_with_exec(&p, &chars_of(".json")) {
        "application/json"
    } else if ends_with_exec(&p, &chars_of(".wasm")) {
        "application/wasm"
    } else if ends_with_exec(&p, &chars_of(".html")) || ends_with_exec(&p, &chars_of(".htm")) {
        "text/html"
    } else if ends_with_exec(&p, &chars_of(".txt")) {
        "text/plain"
    } else {
        "application/octet-stream"
    }
}

/// The file an asset request reads: the request path under `./dist`.
pub fn asset_file(path: &str) -> (r: String)
    ensures
        r@ == "./dist"@ + path@,
{
    let mut v = chars_of("./dist");
    append_str(&mut v, path);
    string_from(&v)
}

/// How long browsers may keep an asset: a year.
pub fn asset_cache_control() -> (r: &'static str)
    ensures
        r@ == "public, max-age=31536000"@,
{
    "public, max-age=31536000"
}

/// The page served where the built frontend is missing.
pub fn fallback_index_html() -> (r: &'static str)
    ensures
        r@ == "<!DOCTYPE html>\n<html>\n<head><title>LLaMA Chat Web</title></head>\n<body>\n<h1>🦙 LLaMA Chat Web Server</h1>\n<p>Web server is running successfully!</p>\n<p>Frontend files not found. API endpoints:</p>\n<ul>\n<li>GET /health - Health check</li>\n<li>POST /api/chat - Chat endpoint</li>\n<li>GET /api/config - Configuration</li>\n</ul>\n</body>\n</html>"@,
{
    "<!DOCTYPE html>\n<html>\n<head><title>LLaMA Chat Web</title></head>\n<body>\n<h1>🦙 LLaMA Chat Web Server</h1>\n<p>Web server is running successfully!</p>\n<p>Frontend files not found. API endpoints:</p>\n<ul>\n<li>GET /health - Health check</li>\n<li>POST /api/chat - Chat endpoint</li>\n<li>GET /api/config - Configuration</li>\n</ul>\n</body>\n</html>"
}

/// The health check's answer.
pub fn health_reply() -> (r: &'static str)
    ensures
        r@ == "{\"status\":\"ok\",\"service\":\"llama-chat-web\"}"@,
{
    "{\"status\":\"ok\",\"service\":\"llama-chat-web\"}"
}

} // verus!
