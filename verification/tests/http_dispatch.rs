use llama_chat::http_dispatch::{
    invalid_pid_response, needs_token, not_found_response, parse_pid, route,
    route_param_in_range, unauthorized_response, Method,
};

fn r(method: Method, path: &str) -> (String, Option<String>) {
    assert!(route_param_in_range(method, path));
    let x = route(method, path);
    (x.name.to_string(), x.param)
}

#[test]
fn exact_routes() {
    assert_eq!(r(Method::Get, "/health"), ("health".to_string(), None));
    assert_eq!(r(Method::Post, "/api/chat"), ("chat".to_string(), None));
    assert_eq!(r(Method::Get, "/api/model/info"), ("model_info".to_string(), None));
    assert_eq!(r(Method::Delete, "/api/conversations/batch"), ("batch_delete_conversations".to_string(), None));
    assert_eq!(r(Method::Get, "/"), ("index".to_string(), None));
    assert_eq!(r(Method::Put, "/api/chat"), ("not_found".to_string(), None));
}

#[test]
fn routes_with_parameters() {
    assert_eq!(
        r(Method::Get, "/api/conversations/c1/token-analysis"),
        ("conversation_token_analysis".to_string(), Some("c1".to_string()))
    );
    assert_eq!(
        r(Method::Get, "/api/conversations/c1/events"),
        ("conversation_events".to_string(), Some("/api/conversations/c1/events".to_string()))
    );
    assert_eq!(r(Method::Get, "/api/conversation/c2"), ("get_conversation".to_string(), Some("/api/conversation/c2".to_string())));
    assert_eq!(r(Method::Delete, "/api/workers/w1"), ("delete_worker".to_string(), Some("w1".to_string())));
    assert_eq!(r(Method::Get, "/api/workers/w1//status"), ("worker_status".to_string(), Some("w1".to_string())));
    assert_eq!(r(Method::Get, "/api/providers/groq/models"), ("provider_models".to_string(), Some("groq".to_string())));
    assert_eq!(r(Method::Get, "/api/agents/statuses"), ("agent_statuses".to_string(), None));
    assert_eq!(r(Method::Get, "/api/agents/a1"), ("get_agent".to_string(), Some("a1".to_string())));
    assert_eq!(r(Method::Post, "/api/conversations/c/heartbeat/fire"), ("fire_heartbeat".to_string(), Some("c".to_string())));
    assert_eq!(r(Method::Get, "/api/system/processes/12/output"), ("process_output".to_string(), Some("12".to_string())));
    assert_eq!(r(Method::Options, "/anything"), ("options".to_string(), None));
    assert_eq!(r(Method::Get, "/assets/app.js"), ("static_asset".to_string(), Some("/assets/app.js".to_string())));
    assert_eq!(r(Method::Get, "/favicon.ico"), ("static_asset".to_string(), Some("/favicon.ico".to_string())));
}

#[test]
fn overlapping_prefix_and_suffix() {
    // The server cuts the id out of such a path and fails; the check tells.
    assert!(!route_param_in_range(Method::Get, "/api/conversations/token-analysis"));
    assert!(route_param_in_range(Method::Get, "/api/conversations//token-analysis"));
}

#[test]
fn tokens_and_answers() {
    assert!(!needs_token(true, Method::Get, "/api/config"));
    assert!(needs_token(false, Method::Get, "/api/config"));
    assert!(!needs_token(false, Method::Get, "/health"));
    assert!(!needs_token(false, Method::Options, "/api/config"));
    assert!(!needs_token(false, Method::Get, "/ws/status"));
    assert!(!needs_token(false, Method::Get, "/logo.png"));
    assert!(needs_token(false, Method::Get, "/api/conversation/x.png"));
    assert!(needs_token(false, Method::Get, "/api/icons/app.svg"));
    assert!(!needs_token(false, Method::Get, "/api/remote/status"));
    let u = unauthorized_response();
    assert_eq!(u.status, 401);
    assert_eq!(u.body, r#"{"error":"Unauthorized"}"#);
    assert_eq!(not_found_response().body, "Not Found");
    assert_eq!(invalid_pid_response().status, 400);
    assert_eq!(parse_pid("12"), Some(12));
    assert_eq!(parse_pid("+7"), Some(7));
    assert_eq!(parse_pid("x"), None);
    assert_eq!(parse_pid("4294967296"), None);
}
