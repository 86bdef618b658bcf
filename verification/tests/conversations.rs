use llama_chat::json::parse_json;
use llama_chat::routes::conversation::{
    batch_delete_reply, batch_ids, conversation_file, conversation_from_path,
    conversation_matches, conversations_listing, created_reply, delete_refusal_message,
    delete_target, export_as_json, export_disposition, json_export, markdown_export,
    new_conversation_title, rename_title, renamed_reply, token_analysis, token_analysis_fits,
    truncate_from, truncated_reply, DeleteRefusal, MessageRecord,
};

fn doc(text: &str) -> serde_json::Value {
    serde_json::from_str(text).unwrap()
}

fn msg(role: &str, content: &str, compacted: bool) -> MessageRecord {
    MessageRecord { role: role.to_string(), content: content.to_string(), timestamp: 1_700_000_000, compacted }
}

#[test]
fn conversation_paths() {
    assert_eq!(
        conversation_from_path("/api/conversations/chat_1.txt/events", "/events"),
        Some("chat_1".to_string())
    );
    assert_eq!(
        conversation_from_path("/api/conversations/chat_2/metrics", "/metrics"),
        Some("chat_2".to_string())
    );
    assert_eq!(conversation_from_path("/api/conversations/chat_2/metrics", "/events"), None);
    assert_eq!(conversation_from_path("/api/other/chat_2/events", "/events"), None);
}

#[test]
fn conversation_deletes() {
    assert_eq!(delete_target("chat_1.txt").ok(), Some("chat_1".to_string()));
    match delete_target("../chat_1") {
        Err(r) => {
            assert!(matches!(r, DeleteRefusal::InvalidFilename));
            assert_eq!(delete_refusal_message(&r), "Invalid filename");
        }
        Ok(_) => panic!("expected a refusal"),
    }
    assert!(matches!(delete_target("a\\b"), Err(DeleteRefusal::InvalidFilename)));
    match delete_target("notes.txt") {
        Err(r) => assert_eq!(delete_refusal_message(&r), "Invalid conversation file"),
        Ok(_) => panic!("expected a refusal"),
    }
}

#[test]
fn conversation_token_analysis() {
    let messages = vec![
        msg("system", "You are helpful.", false),
        msg("user", "hi", false),
        msg("assistant", "<tool_call>{\"name\":\"ls\"}</tool_call>", false),
        msg("user", "<tool_response>ok</tool_response>", false),
        msg("assistant", "old summary", true),
    ];
    assert!(token_analysis_fits(&messages));
    let v = doc(&llama_chat::json::json_to_string(&token_analysis(&messages)));
    let total = 16 + 2 + 36 + 33 + 11;
    assert_eq!(v["total_messages"], 5);
    assert_eq!(v["compacted_messages"], 1);
    assert_eq!(v["total_chars"], total);
    assert_eq!(v["total_tokens_estimate"], total / 4);
    assert_eq!(v["breakdown"]["system"]["chars"], 16);
    assert_eq!(v["breakdown"]["system"]["tokens"], 4);
    assert_eq!(v["breakdown"]["system"]["pct"], 16 * 100 / total);
    assert_eq!(v["breakdown"]["user"]["chars"], 35);
    assert_eq!(v["breakdown"]["assistant"]["chars"], 36);
    assert_eq!(v["breakdown"]["tool_responses"]["chars"], 33);
    assert_eq!(v["tool_calls"], 2);
    let empty = doc(&llama_chat::json::json_to_string(&token_analysis(&vec![])));
    assert_eq!(empty["breakdown"]["user"]["pct"], 0);
}

#[test]
fn conversation_exports() {
    let messages = vec![
        msg("user", "Hello", false),
        msg("assistant", "Hi!", false),
        msg("tool", "x", false),
        msg("assistant", "gone", true),
    ];
    assert_eq!(
        markdown_export("chat_1", &messages),
        "# Conversation: chat_1\n\n### **User**\n\nHello\n\n---\n\n### **Assistant**\n\nHi!\n\n---\n\n### tool\n\nx\n\n---\n\n"
    );
    let j = doc(&json_export("chat_1", &messages));
    assert_eq!(j["conversation_id"], "chat_1");
    assert_eq!(j["messages"].as_array().unwrap().len(), 3);
    assert_eq!(j["messages"][1]["content"], "Hi!");
    assert_eq!(j["messages"][0]["timestamp"], 1_700_000_000i64);
    assert!(export_as_json(Some("json")));
    assert!(!export_as_json(Some("md")));
    assert!(!export_as_json(None));
    assert_eq!(export_disposition("chat_1", "md"), "attachment; filename=\"chat_1.md\"");
}

#[test]
fn conversation_listing_and_search() {
    let f = conversation_file("chat_2024-01-02", None, Some("codex".to_string()));
    assert_eq!(f.name, "chat_2024-01-02.txt");
    assert_eq!(f.timestamp, "2024-01-02");
    assert_eq!(f.display_name, "Chat 2024-01-02");
    let g = conversation_file("import_1", Some("Trip Plans".to_string()), None);
    assert_eq!(g.display_name, "Trip Plans");
    assert_eq!(g.timestamp, "import_1");
    assert!(conversation_matches(&g, "trip"));
    assert!(conversation_matches(&f, "2024"));
    assert!(!conversation_matches(&f, "trip"));
    let files = vec![f, g];
    let all = doc(&conversations_listing(&files, None));
    assert_eq!(all["conversations"].as_array().unwrap().len(), 2);
    assert_eq!(all["conversations"][0]["provider_id"], "codex");
    assert_eq!(all["conversations"][0]["title"], serde_json::Value::Null);
    let some = doc(&conversations_listing(&files, Some("plans")));
    assert_eq!(some["conversations"].as_array().unwrap().len(), 1);
    assert_eq!(some["conversations"][0]["name"], "import_1.txt");
}

#[test]
fn conversation_edits() {
    assert_eq!(truncate_from(r#"{"from_sequence": 3}"#), Some(3));
    assert_eq!(truncate_from(r#"{"from_sequence": -1}"#), Some(-1));
    assert_eq!(truncate_from(r#"{"from_sequence": 4294967297}"#), Some(1));
    assert_eq!(truncate_from(r#"{"from_sequence": "3"}"#), None);
    assert_eq!(truncate_from("not json"), None);
    assert_eq!(truncated_reply(4), r#"{"success":true,"deleted":4}"#);
    assert_eq!(rename_title(&parse_json(r#"{"title":"New"}"#).unwrap()), Some("New".to_string()));
    assert_eq!(rename_title(&parse_json(r#"{"title":""}"#).unwrap()), None);
    assert_eq!(doc(&renamed_reply("New")), doc(r#"{"success":true,"title":"New"}"#));
    assert_eq!(new_conversation_title(r#"{"title":"Plans"}"#), "Plans");
    assert_eq!(new_conversation_title("{}"), "New conversation");
    assert_eq!(new_conversation_title(""), "New conversation");
    assert_eq!(doc(&created_reply("chat_9", "Plans")), doc(r#"{"id":"chat_9","title":"Plans"}"#));
    assert_eq!(
        doc(&batch_delete_reply(2, 1, 3)),
        doc(r#"{"deleted":2,"failed":1,"total":3}"#)
    );
    assert_eq!(
        batch_ids(&parse_json(r#"{"ids":["a.txt",1,"b"]}"#).unwrap()),
        Some(vec!["a.txt".to_string(), "b".to_string()])
    );
    assert_eq!(batch_ids(&parse_json(r#"{"ids":"a"}"#).unwrap()), None);
}
