use llama_chat::json::{parse_json, JsonValue};
use llama_chat::providers::claude_code::{claude_finish, claude_step, ClaudeEvent, ContentBlock};
use llama_chat::providers::openai_stream::{
    apply_chunk, classify_sse_line, completions_url, finish_stream, new_stream_state, request_body,
    ChatCompletionChunk, ChunkChoice, Delta, FunctionDelta, SseLine, ToolCallDelta, UsageInfo,
};
use llama_chat::providers::stream::tool_call_display;

fn content_chunk(text: &str) -> ChatCompletionChunk {
    ChatCompletionChunk {
        choices: vec![ChunkChoice {
            delta: Some(Delta { content: Some(text.to_string()), tool_calls: None }),
            finish_reason: None,
        }],
        model: Some("m1".to_string()),
        usage: None,
    }
}

#[test]
fn sse_lines() {
    assert!(matches!(classify_sse_line(": keep-alive"), SseLine::Skip));
    assert!(matches!(classify_sse_line("data: [DONE]"), SseLine::Done));
    match classify_sse_line("data: {\"a\":1}") {
        SseLine::Data(d) => assert_eq!(d, "{\"a\":1}"),
        _ => panic!("expected data"),
    }
}

#[test]
fn content_tokens_and_done() {
    let mut st = new_stream_state();
    let mut out = Vec::new();
    apply_chunk(&mut st, &content_chunk("Hel"), &mut out);
    apply_chunk(&mut st, &content_chunk(""), &mut out);
    let mut last = content_chunk("lo");
    last.model = Some("m2".to_string());
    last.usage = Some(UsageInfo { prompt_tokens: Some(3), completion_tokens: Some(4) });
    last.choices[0].finish_reason = Some("stop".to_string());
    apply_chunk(&mut st, &last, &mut out);
    assert_eq!(out.len(), 2);
    assert_eq!(out[0].token, "Hel");
    assert_eq!(out[1].token, "lo");
    assert_eq!(out[1].model_id.as_deref(), Some("m1"));
    let fin = finish_stream(&st, 42);
    assert_eq!(fin.len(), 1);
    assert!(fin[0].is_done);
    assert_eq!(fin[0].stop_reason.as_deref(), Some("stop"));
    assert_eq!(fin[0].input_tokens, Some(3));
    assert_eq!(fin[0].output_tokens, Some(4));
    assert_eq!(fin[0].duration_ms, Some(42));
}

#[test]
fn streamed_tool_calls() {
    let tc = |name: Option<&str>, args: Option<&str>| ToolCallDelta {
        index: Some(0),
        function: Some(FunctionDelta { name: name.map(str::to_string), arguments: args.map(str::to_string) }),
    };
    let chunk = ChatCompletionChunk {
        choices: vec![ChunkChoice {
            delta: Some(Delta {
                content: None,
                tool_calls: Some(vec![tc(Some("read_file"), Some("{\"path\":")), tc(None, Some("\"a\"}")), tc(Some("list_directory"), None)]),
            }),
            finish_reason: None,
        }],
        model: None,
        usage: None,
    };
    let mut st = new_stream_state();
    let mut out = Vec::new();
    apply_chunk(&mut st, &chunk, &mut out);
    assert_eq!(out.len(), 1);
    assert_eq!(out[0].token, "\n<tool_call>{\"name\": \"read_file\", \"arguments\": {\"path\":\"a\"}}</tool_call>\n");
    let fin = finish_stream(&st, 1);
    assert_eq!(fin.len(), 2);
    assert_eq!(fin[0].token, tool_call_display("list_directory", ""));
    assert!(fin[0].token.contains("\"arguments\": {}"));
    assert_eq!(fin[1].stop_reason.as_deref(), Some("end_turn"));
}

#[test]
fn request_parts() {
    assert_eq!(completions_url("https://api.groq.com/openai/v1//"), "https://api.groq.com/openai/v1/chat/completions");
    let body = request_body("m", "hi");
    let text = llama_chat::json::json_to_string(&body);
    let v: serde_json::Value = serde_json::from_str(&text).unwrap();
    assert_eq!(v["model"], "m");
    assert_eq!(v["messages"][0]["role"], "user");
    assert_eq!(v["messages"][0]["content"], "hi");
    assert_eq!(v["stream"], true);
    assert_eq!(v["stream_options"]["include_usage"], true);
}

#[test]
fn cli_event_stream() {
    let mut model: Option<String> = None;
    let mut out = Vec::new();
    claude_step(
        &mut model,
        &ClaudeEvent::System { subtype: "init".to_string(), session_id: None, model: Some("sonnet-x".to_string()) },
        &mut out,
    );
    assert_eq!(model.as_deref(), Some("sonnet-x"));
    let input = parse_json("{\"path\":\"a\"}").unwrap();
    claude_step(
        &mut model,
        &ClaudeEvent::Assistant {
            content: vec![
                ContentBlock::Text { text: "hi".to_string() },
                ContentBlock::ToolUse { id: "1".to_string(), name: "read_file".to_string(), input },
                ContentBlock::Other,
            ],
            session_id: None,
        },
        &mut out,
    );
    assert_eq!(out.len(), 2);
    assert_eq!(out[0].token, "hi");
    assert_eq!(out[1].token, "\n<tool_call>{\"name\": \"read_file\", \"arguments\": {\"path\":\"a\"}}</tool_call>\n");
    let items = parse_json("[{\"type\":\"text\",\"text\":\"l1\"},{\"type\":\"image\"},{\"type\":\"text\",\"text\":\"l2\"}]").unwrap();
    claude_step(
        &mut model,
        &ClaudeEvent::User { content: vec![ContentBlock::ToolResult { tool_use_id: "1".to_string(), content: items }] },
        &mut out,
    );
    assert_eq!(out[2].token, "\n<tool_response>\nl1\nl2\n</tool_response>\n");
    let long = JsonValue::Str("y".repeat(600));
    claude_step(
        &mut model,
        &ClaudeEvent::User { content: vec![ContentBlock::ToolResult { tool_use_id: "2".to_string(), content: long }] },
        &mut out,
    );
    assert_eq!(out[3].token, format!("\n<tool_response>\n{}...\n</tool_response>\n", "y".repeat(500)));
    let usage = parse_json("{\"input_tokens\":1,\"cache_read_input_tokens\":2,\"output_tokens\":5}").unwrap();
    claude_step(
        &mut model,
        &ClaudeEvent::Result {
            subtype: "success".to_string(),
            stop_reason: Some("end_turn".to_string()),
            duration_ms: Some(9),
            session_id: Some("s".to_string()),
            usage,
        },
        &mut out,
    );
    let done = &out[4];
    assert!(done.is_done);
    assert_eq!(done.input_tokens, Some(3));
    assert_eq!(done.output_tokens, Some(5));
    assert_eq!(done.session_id.as_deref(), Some("s"));
    assert_eq!(done.model_id.as_deref(), Some("sonnet-x"));
    let fin = claude_finish(&model);
    assert_eq!(fin.stop_reason.as_deref(), Some("cli_exit"));
}
