use llama_chat::request::{extract_path_param, get_query_param, parse_query_param};

fn query_of(uri: &str) -> Option<String> {
    let uri: hyper::Uri = uri.parse().unwrap();
    uri.query().map(|q| q.to_string())
}

#[test]
fn test_get_query_param_basic() {
    let q = query_of("/api/test?foo=bar");
    assert_eq!(get_query_param(q.as_deref(), "foo"), Some("bar".to_string()));
}

#[test]
fn test_get_query_param_url_encoded() {
    let q = query_of("/api/test?path=%2Fhome%2Fuser%2Fmodel.gguf");
    assert_eq!(get_query_param(q.as_deref(), "path"), Some("/home/user/model.gguf".to_string()));
}

#[test]
fn test_get_query_param_multiple_params() {
    let q = query_of("/api/test?foo=bar&baz=qux&name=test");
    assert_eq!(get_query_param(q.as_deref(), "foo"), Some("bar".to_string()));
    assert_eq!(get_query_param(q.as_deref(), "baz"), Some("qux".to_string()));
    assert_eq!(get_query_param(q.as_deref(), "name"), Some("test".to_string()));
}

#[test]
fn test_get_query_param_not_found() {
    let q = query_of("/api/test?foo=bar");
    assert_eq!(get_query_param(q.as_deref(), "missing"), None);
}

#[test]
fn test_get_query_param_no_query() {
    let q = query_of("/api/test");
    assert_eq!(get_query_param(q.as_deref(), "foo"), None);
}

#[test]
fn test_get_query_param_empty_value() {
    let q = query_of("/api/test?foo=");
    assert_eq!(get_query_param(q.as_deref(), "foo"), Some("".to_string()));
}

#[test]
fn test_get_query_param_spaces() {
    let q = query_of("/api/test?message=hello%20world");
    assert_eq!(get_query_param(q.as_deref(), "message"), Some("hello world".to_string()));
}

#[test]
fn path_params() {
    assert_eq!(
        extract_path_param("/api/conversations/chat123.txt", "/api/conversations/"),
        Some("chat123.txt".to_string())
    );
    assert_eq!(extract_path_param("/api/other", "/api/conversations/"), None);
    assert_eq!(extract_path_param("/api/x", "/api/x"), Some(String::new()));
}

#[test]
fn query_params() {
    assert_eq!(parse_query_param("?model=foo&temp=0.7", "temp"), Some("0.7".to_string()));
    assert_eq!(parse_query_param("?model=foo&temp=0.7", "?model"), Some("foo".to_string()));
    assert_eq!(parse_query_param("a&b=1&b=2", "b"), Some("1".to_string()));
    assert_eq!(parse_query_param("k=v=w", "k"), Some("v=w".to_string()));
    assert_eq!(parse_query_param("k", "k"), None);
    assert_eq!(parse_query_param("", "k"), None);
    // A value is not decoded here.
    assert_eq!(parse_query_param("k=a%20b", "k"), Some("a%20b".to_string()));
    // A value that does not decode to UTF-8 gives nothing.
    assert_eq!(get_query_param(Some("k=%FF"), "k"), None);
}
