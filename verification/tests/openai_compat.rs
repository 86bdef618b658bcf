use llama_chat::providers::codex::{codex_args, codex_finish, codex_step, display_model_name, CodexEvent, CodexState, CodexUsage};
use llama_chat::providers::claude_code::{claude_args, normalize_model};
use llama_chat::providers::openai_compat::{
    api_key_env_var, get_preset, is_openai_compat, provider_presets, resolve_api_key,
    resolve_base_url, resolve_model,
};

#[test]
fn test_preset_lookup() {
    assert!(get_preset("groq").is_some());
    assert!(get_preset("gemini").is_some());
    assert!(get_preset("unknown_xyz").is_none());
}

#[test]
fn test_is_openai_compat() {
    assert!(is_openai_compat("groq"));
    assert!(is_openai_compat("cerebras"));
    assert!(!is_openai_compat("claude_code"));
    assert!(!is_openai_compat("local"));
}

#[test]
fn test_resolve_api_key_from_json() {
    let json = r#"{"groq": {"api_key": "gsk_test123"}, "gemini": "gem_key456"}"#;
    assert_eq!(resolve_api_key("groq", Some(json), None), Some("gsk_test123".to_string()));
    assert_eq!(resolve_api_key("gemini", Some(json), None), Some("gem_key456".to_string()));
    assert_eq!(resolve_api_key("cerebras", Some(json), None), None);
}

#[test]
fn test_resolve_base_url() {
    assert_eq!(
        resolve_base_url("groq", None),
        Some("https://api.groq.com/openai/v1".to_string())
    );
    let json = r#"{"groq": {"base_url": "http://localhost:8080/v1"}}"#;
    assert_eq!(
        resolve_base_url("groq", Some(json)),
        Some("http://localhost:8080/v1".to_string())
    );
}

#[test]
fn test_resolve_model() {
    assert_eq!(resolve_model("groq", Some("my-model")), "my-model");
    assert_eq!(resolve_model("groq", None), "llama-3.3-70b-versatile");
    assert_eq!(resolve_model("unknown", None), "default");
}

#[test]
fn preset_table_contents() {
    let presets = provider_presets();
    assert_eq!(presets.len(), 8);
    let custom = get_preset("custom_openai").unwrap();
    assert_eq!(custom.base_url, "");
    assert!(custom.models.is_empty());
    assert_eq!(get_preset("deepseek").unwrap().models, &["deepseek-chat", "deepseek-reasoner"]);
    assert_eq!(resolve_model("custom_openai", Some("")), "default");
    assert_eq!(resolve_model("openrouter", Some("")), "auto");
}

#[test]
fn api_key_from_environment_and_edge_cases() {
    assert_eq!(api_key_env_var("groq"), Some("GROQ_API_KEY"));
    assert_eq!(api_key_env_var("custom_openai"), None);
    assert_eq!(api_key_env_var("nope"), None);
    assert_eq!(resolve_api_key("cerebras", None, Some("ck")), Some("ck".to_string()));
    assert_eq!(resolve_api_key("cerebras", None, Some("")), None);
    assert_eq!(resolve_api_key("custom_openai", None, Some("x")), None);
    assert_eq!(resolve_api_key("unknown", None, Some("x")), None);
    let json = r#"{"groq": {"api_key": ""}}"#;
    assert_eq!(resolve_api_key("groq", Some(json), Some("env")), Some("env".to_string()));
    assert_eq!(resolve_api_key("groq", Some("not json"), Some("env")), Some("env".to_string()));
}

#[test]
fn base_url_edge_cases() {
    assert_eq!(resolve_base_url("custom_openai", None), None);
    let json = r#"{"custom_openai": {"base_url": "http://h/v1"}}"#;
    assert_eq!(resolve_base_url("custom_openai", Some(json)), Some("http://h/v1".to_string()));
    let json = r#"{"groq": {"base_url": ""}}"#;
    assert_eq!(resolve_base_url("groq", Some(json)), Some("https://api.groq.com/openai/v1".to_string()));
    assert_eq!(resolve_base_url("unknown", None), None);
}

#[test]
fn cli_model_names() {
    assert_eq!(normalize_model(Some("opus")), "opus");
    assert_eq!(normalize_model(Some("haiku")), "haiku");
    assert_eq!(normalize_model(Some("other")), "sonnet");
    assert_eq!(normalize_model(None), "sonnet");
    assert_eq!(display_model_name(None), "gpt-5");
    assert_eq!(display_model_name(Some("")), "gpt-5");
    assert_eq!(display_model_name(Some("o3")), "o3");
}

#[test]
fn cli_arguments() {
    let a = codex_args(None, Some("o3"), "/w", "hi");
    assert_eq!(
        a,
        vec![
            "exec", "--json", "--skip-git-repo-check", "--dangerously-bypass-approvals-and-sandbox",
            "--model", "o3", "--cd", "/w", "hi"
        ]
    );
    let a = codex_args(Some("s1"), Some(""), "/w", "hi");
    assert_eq!(
        a,
        vec!["exec", "resume", "--json", "--dangerously-bypass-approvals-and-sandbox", "s1", "--cd", "/w", "hi"]
    );
    let a = claude_args("p", "sonnet", Some("sid"), Some(3));
    assert_eq!(
        a,
        vec!["--print", "p", "--output-format", "stream-json", "--model", "sonnet", "--resume", "sid", "--max-turns", "3"]
    );
}

#[test]
fn codex_event_stream() {
    let mut st = CodexState { thread_id: None, requested_model: Some("o3".to_string()) };
    assert!(codex_step(&mut st, &CodexEvent::ThreadStarted { thread_id: "t1".to_string() }).is_none());
    assert_eq!(st.thread_id.as_deref(), Some("t1"));
    let tok = codex_step(
        &mut st,
        &CodexEvent::ItemCompleted { item_type: "agent_message".to_string(), text: Some("hello".to_string()) },
    )
    .unwrap();
    assert_eq!(tok.token, "hello");
    assert_eq!(tok.model_id.as_deref(), Some("o3"));
    assert!(codex_step(
        &mut st,
        &CodexEvent::ItemCompleted { item_type: "reasoning".to_string(), text: Some("x".to_string()) }
    )
    .is_none());
    let done = codex_step(
        &mut st,
        &CodexEvent::TurnCompleted {
            usage: Some(CodexUsage { input_tokens: Some(10), cached_input_tokens: Some(5), output_tokens: Some(7) }),
        },
    )
    .unwrap();
    assert!(done.is_done);
    assert_eq!(done.input_tokens, Some(15));
    assert_eq!(done.output_tokens, Some(7));
    assert_eq!(done.stop_reason.as_deref(), Some("turn_completed"));
    assert_eq!(done.session_id.as_deref(), Some("t1"));
    assert_eq!(done.model_id.as_deref(), Some("o3"));
    assert!(st.requested_model.is_none());
    let fin = codex_finish(&st);
    assert_eq!(fin.stop_reason.as_deref(), Some("cli_exit"));
    assert_eq!(fin.model_id, None);
}
