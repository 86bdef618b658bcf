use llama_chat::json::parse_json;
use llama_chat::routes::system::{
    api_docs, app_info, desktop_abort_reply, kill_reply, kill_request_pid, list_processes,
    BackgroundProcess,
};

fn doc(text: &str) -> serde_json::Value {
    serde_json::from_str(text).unwrap()
}

#[test]
fn api_documentation() {
    let text = api_docs();
    assert!(text.contains('\n'));
    let d = doc(&text);
    let endpoints = d["endpoints"].as_array().unwrap();
    assert_eq!(endpoints.len(), 48);
    assert_eq!(endpoints[0], doc(r#"{"method":"GET","path":"/health","description":"Health check"}"#));
    assert_eq!(endpoints[3]["body"], doc(r#"{"message":"string","conversation_id":"string?"}"#));
    let batch = endpoints.iter().find(|e| e["path"] == "/api/conversations/batch").unwrap();
    assert_eq!(batch["body"], doc(r#"{"ids":["string"]}"#));
    assert_eq!(endpoints[47]["path"], "/api/hub/downloads");
}

#[test]
fn app_information() {
    assert_eq!(
        doc(&app_info("0.1.0", "linux", "x86_64", false, true)),
        doc(r#"{"app":"llama-chat","version":"0.1.0","platform":"linux","arch":"x86_64","features":{"vision":false,"cuda":true}}"#)
    );
    assert_eq!(
        doc(&desktop_abort_reply()),
        doc(r#"{"success":true,"message":"Desktop abort signal sent"}"#)
    );
}

#[test]
fn background_processes() {
    let procs = vec![
        BackgroundProcess { pid: 10, command: "npm run dev".to_string(), conversation_id: Some("chat_1".to_string()), started_at: 5 },
        BackgroundProcess { pid: 11, command: "sleep 9".to_string(), conversation_id: None, started_at: 6 },
    ];
    let (listing, dead) = list_processes(&procs, &vec![true, false]);
    assert_eq!(
        doc(&listing),
        doc(r#"[{"pid":10,"command":"npm run dev","conversationId":"chat_1","startedAt":5,"alive":true}]"#)
    );
    assert_eq!(dead, vec![11]);
    assert_eq!(kill_request_pid(&parse_json(r#"{"pid":1234}"#).unwrap()), Some(1234));
    assert_eq!(kill_request_pid(&parse_json(r#"{"pid":4294967296}"#).unwrap()), Some(0));
    assert_eq!(kill_request_pid(&parse_json(r#"{"pid":"1"}"#).unwrap()), None);
    assert_eq!(doc(&kill_reply(true)), doc(r#"{"success":true,"message":"Process killed"}"#));
    assert_eq!(
        doc(&kill_reply(false)),
        doc(r#"{"success":false,"message":"Process may not have been killed. It might require elevated permissions."}"#)
    );
}
