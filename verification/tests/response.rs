use llama_chat::response::{bad_request, cors_preflight, not_found, BAD_REQUEST, NOT_FOUND, OK};
use llama_chat::response_helpers::{empty_response, json_error, json_raw, json_success};
use llama_chat::websocket_utils::{
    build_json_error_response, build_json_response, build_websocket_upgrade_response,
    calculate_websocket_accept_key, is_websocket_upgrade,
};

fn header<'a>(r: &'a llama_chat::response::HttpResponse, name: &str) -> Option<&'a str> {
    r.headers.iter().find(|(k, _)| k == name).map(|(_, v)| v.as_str())
}

#[test]
fn test_json_error() {
    let response = json_error(BAD_REQUEST, "Test error");
    assert_eq!(response.status, BAD_REQUEST);
    assert_eq!(response.body, r#"{"error":"Test error"}"#);
}

#[test]
fn test_json_error_escapes_quotes() {
    let response = json_error(BAD_REQUEST, r#"Error "quoted""#);
    assert_eq!(response.status, BAD_REQUEST);
    assert_eq!(response.body, r#"{"error":"Error \"quoted\""}"#);
    assert!(serde_json::from_str::<serde_json::Value>(&response.body).is_ok());
}

#[test]
fn test_calculate_websocket_accept_key() {
    let key = "dGhlIHNhbXBsZSBub25jZQ==";
    let expected = "s3pPLMBiTxaQ9kYGzzhZRbK+xOo=";
    assert_eq!(calculate_websocket_accept_key(key), expected);
}

#[test]
fn test_build_json_error_response() {
    let response = build_json_error_response(BAD_REQUEST, "Test error");
    assert_eq!(response.status, BAD_REQUEST);
    assert_eq!(header(&response, "content-type"), Some("application/json"));
}

#[test]
fn test_build_json_response() {
    let response = build_json_response(r#"{"test": "value"}"#);
    assert_eq!(response.status, OK);
    assert_eq!(header(&response, "access-control-allow-origin"), Some("*"));
    assert_eq!(response.body, r#"{"test": "value"}"#);
}

#[test]
fn helper_responses() {
    let r = json_success("done \"now\"");
    assert_eq!(r.status, OK);
    assert_eq!(r.body, r#"{"success":true,"message":"done \"now\""}"#);
    assert_eq!(header(&r, "access-control-allow-headers"), Some("content-type, authorization"));
    let r = json_raw(201, "{}".to_string());
    assert_eq!(r.status, 201);
    assert_eq!(r.body, "{}");
    let r = empty_response(204);
    assert!(r.body.is_empty());
    assert_eq!(r.headers.len(), 3);
    let r = bad_request("x");
    assert_eq!(r.body, r#"{"error":"x"}"#);
    let r = not_found("gone");
    assert_eq!(r.status, NOT_FOUND);
    let r = cors_preflight();
    assert_eq!(header(&r, "access-control-allow-methods"), Some("GET, POST, PUT, DELETE, OPTIONS"));
}

#[test]
fn websocket_handshake() {
    assert!(is_websocket_upgrade(Some("WebSocket")));
    assert!(!is_websocket_upgrade(Some("h2c")));
    assert!(!is_websocket_upgrade(None));
    let r = build_websocket_upgrade_response("abc=");
    assert_eq!(r.status, 101);
    assert_eq!(header(&r, "sec-websocket-accept"), Some("abc="));
    // The message is put in unchanged by this builder.
    let r = build_json_error_response(NOT_FOUND, "a\"b");
    assert_eq!(r.body, "{\"error\":\"a\"b\"}");
}

#[test]
fn json_bodies_escape_what_json_requires() {
    let message = "path C:\\tmp\n\ttab \u{1} end \"q\"";
    let err = json_error(BAD_REQUEST, message);
    let v: serde_json::Value = serde_json::from_str(&err.body).unwrap();
    assert_eq!(v["error"], message);
    let expected = format!("{{\"error\":{}}}", serde_json::to_string(message).unwrap());
    assert_eq!(err.body, expected);
    let ok = json_success(message);
    let v: serde_json::Value = serde_json::from_str(&ok.body).unwrap();
    assert_eq!(v["message"], message);
    assert_eq!(v["success"], true);
}
