use llama_chat::browser_tools::{
    browser_step, clicked_reply, closed_reply, cut_page, eval_reply, failure_reply, full_url_exec,
    links_reply, navigated_reply, needs_session, pressed_reply, query_reply, query_script_exec,
    reopened_reply, screenshot_fallback_reply, scroll_reply, scroll_script_exec,
    session_error_reply, typed_reply, wait_reply, BrowserStep, MAX_HTML_BYTES,
};
use llama_chat::json::{parse_json, JsonValue};
use llama_chat::ws_stream::{
    abort_message, error_message, frame_action, model_status_message, positive_count,
    should_send_update, start_failure_error, token_message_exec, update_message_exec,
    watched_conversation_id, ClientFrame, FrameAction, TokenBuffer,
};

fn args(text: &str) -> JsonValue {
    parse_json(text).unwrap()
}

fn as_serde(v: &JsonValue) -> serde_json::Value {
    serde_json::from_str(&llama_chat::json::json_to_string(v)).unwrap()
}

fn doc(text: &str) -> serde_json::Value {
    serde_json::from_str(text).unwrap()
}

fn reply_text(step: BrowserStep) -> String {
    match step {
        BrowserStep::Reply { text } => text,
        _ => panic!("expected a reply"),
    }
}

#[test]
fn browser_navigate_steps() {
    assert!(!needs_session("navigate"));
    assert!(needs_session("click"));
    match browser_step("navigate", &args(r#"{"url":"example.com"}"#)) {
        BrowserStep::Navigate { url } => assert_eq!(url, "https://example.com"),
        _ => panic!("expected navigation"),
    }
    match browser_step("navigate", &args(r#"{"url":"http://a.b/c"}"#)) {
        BrowserStep::Navigate { url } => assert_eq!(url, "http://a.b/c"),
        _ => panic!("expected navigation"),
    }
    assert_eq!(reply_text(browser_step("navigate", &args(r#"{"url":"   "}"#))), "Error: 'url' is required");
    assert_eq!(reply_text(browser_step("navigate", &args("{}"))), "Error: 'url' is required");
    assert_eq!(full_url_exec("https://x"), "https://x");
}

#[test]
fn browser_argument_checks() {
    assert_eq!(reply_text(browser_step("click", &args("{}"))), "Error: 'selector' is required");
    assert_eq!(
        reply_text(browser_step("type", &args(r##"{"selector":"#q"}"##))),
        "Error: 'selector' and 'text' are required"
    );
    match browser_step("type", &args(r##"{"selector":"#q","text":"hi","press_enter":true}"##)) {
        BrowserStep::Type { selector, text, press_enter } => {
            assert_eq!(selector, "#q");
            assert_eq!(text, "hi");
            assert!(press_enter);
        }
        _ => panic!("expected typing"),
    }
    assert_eq!(reply_text(browser_step("eval", &args("{}"))), "Error: 'js' is required");
    assert_eq!(reply_text(browser_step("wait", &args("{}"))), "Error: 'selector' is required");
    match browser_step("wait", &args(r#"{"selector":"div"}"#)) {
        BrowserStep::Wait { timeout_ms, .. } => assert_eq!(timeout_ms, 5000),
        _ => panic!("expected waiting"),
    }
    assert_eq!(reply_text(browser_step("press_key", &args("{}"))), "Error: 'key' is required");
    assert_eq!(
        reply_text(browser_step("fly", &args("{}"))),
        "Unknown browser tool: browser_fly"
    );
    assert!(matches!(browser_step("close", &args("{}")), BrowserStep::Close));
    assert!(matches!(browser_step("get_links", &args("{}")), BrowserStep::GetLinks));
}

#[test]
fn browser_query_scripts() {
    assert_eq!(
        query_script_exec("a.b", "text, href,data-id", 5),
        "Array.from(document.querySelectorAll(\"a.b\")).slice(0, 5).map(el => ({ text: el.innerText?.trim() || '', href: el.href || el.getAttribute('href') || '', data-id: el.getAttribute('data-id') || '' }))"
    );
    match browser_step("query", &args(r#"{"selector":"li"}"#)) {
        BrowserStep::Query { selector, script } => {
            assert_eq!(selector, "li");
            assert_eq!(
                script,
                "Array.from(document.querySelectorAll(\"li\")).slice(0, 20).map(el => ({ text: el.innerText?.trim() || '' }))"
            );
        }
        _ => panic!("expected a query"),
    }
}

#[test]
fn browser_scroll_scripts() {
    assert_eq!(
        scroll_script_exec("", -300),
        "(() => { window.scrollBy(0, -300); return 'scrolled '+-300+' px'; })()"
    );
    assert_eq!(
        scroll_script_exec("#main", 0),
        "(() => { const el = document.querySelector(\"#main\"); if (el) { el.scrollIntoView({behavior:'smooth', block:'center'}); return 'scrolled to '+\"#main\"; } return 'element not found'; })()"
    );
    match browser_step("scroll", &args(r#"{"amount":250}"#)) {
        BrowserStep::Scroll { script } => assert!(script.contains("scrollBy(0, 250)")),
        _ => panic!("expected a scroll"),
    }
}

#[test]
fn browser_replies() {
    assert_eq!(navigated_reply("https://a"), "Navigated to https://a.");
    assert_eq!(reopened_reply("https://a"), "Opened new session at https://a.");
    assert_eq!(failure_reply("click", "gone"), "click failed: gone");
    assert_eq!(session_error_reply("no session"), "Error: no session");
    assert_eq!(clicked_reply("#b"), "Clicked '#b'");
    assert_eq!(typed_reply("#q", true), "Typed into '#q' and pressed Enter");
    assert_eq!(typed_reply("#q", false), "Typed into '#q'");
    assert_eq!(query_reply("li", &args("[]")), "No elements found matching 'li'");
    assert_eq!(query_reply("li", &args(r#"[{"text":"a"}]"#)), r#"[{"text":"a"}]"#);
    assert_eq!(eval_reply(args(r#""plain""#)), "plain");
    assert_eq!(eval_reply(args("42")), "42");
    assert_eq!(wait_reply("x", true), "Element 'x' appeared");
    assert_eq!(wait_reply("x", false), "Timeout waiting for 'x'");
    assert_eq!(scroll_reply(&args(r#"{"result":"scrolled 5 px"}"#)), "scrolled 5 px");
    assert_eq!(scroll_reply(&args("7")), "done");
    assert_eq!(pressed_reply("Enter"), "Pressed 'Enter'");
    assert_eq!(closed_reply(), "Browser session closed.");
    assert_eq!(
        screenshot_fallback_reply(Some("T — u")),
        "Visual screenshot not available. Page: T — u\nUse browser_get_text to read content or browser_query to extract structured data."
    );
    assert_eq!(
        screenshot_fallback_reply(None),
        "Screenshot not available. Use browser_get_text or browser_query instead."
    );
}

#[test]
fn browser_page_cuts() {
    assert_eq!(cut_page("short".to_string(), 10), "short");
    assert_eq!(cut_page("abcdef".to_string(), 4), "abcd\n... [truncated]");
    // "é" takes two bytes: a cut inside it steps back before it.
    assert_eq!(cut_page("aé".to_string(), 2), "a\n... [truncated]");
    let long = "x".repeat(MAX_HTML_BYTES + 1);
    let cut = cut_page(long, MAX_HTML_BYTES);
    assert!(cut.ends_with("\n... [truncated]"));
    assert_eq!(cut.len(), MAX_HTML_BYTES + "\n... [truncated]".len());
}

#[test]
fn browser_links() {
    let html = r#"<p><a class="x" href="/a">First <b>link</b></a> <a href="">empty</a> <a href="/c"> </a></p>"#;
    assert_eq!(links_reply(html), r#"[{"href":"/a","text":"First link"}]"#);
    assert_eq!(links_reply("no links"), "[]");
}

#[test]
fn token_buffer_flushes() {
    let mut b = TokenBuffer::new();
    assert!(b.flush().is_none());
    assert!(!b.push_token("Hel", 1, 100));
    assert!(!b.push_token("lo", 2, 100));
    let m = b.flush().unwrap();
    assert_eq!(
        as_serde(&m),
        doc(r#"{"type":"token","token":"Hello","tokens_used":2,"max_tokens":100}"#)
    );
    assert_eq!(b.pending, "");
    assert_eq!(b.tokens_used, None);
    assert!(b.flush().is_none());
    assert!(b.push_token(&"y".repeat(1024), 3, 100));
}

#[test]
fn stream_messages() {
    assert_eq!(
        as_serde(&token_message_exec("a".to_string(), None, Some(5))),
        doc(r#"{"type":"token","token":"a","tokens_used":null,"max_tokens":5}"#)
    );
    assert_eq!(
        as_serde(&update_message_exec("text".to_string(), Some(3), None)),
        doc(r#"{"type":"update","content":"text","tokens_used":3,"max_tokens":null}"#)
    );
    assert_eq!(
        as_serde(&model_status_message(true)),
        doc(r#"{"type":"model_status","loaded":true}"#)
    );
    assert_eq!(
        as_serde(&error_message("bad".to_string())),
        doc(r#"{"type":"error","error":"bad"}"#)
    );
    assert_eq!(as_serde(&abort_message()), doc(r#"{"type":"abort"}"#));
    assert_eq!(start_failure_error("busy"), "Failed to start generation: busy");
}

#[test]
fn watch_decisions() {
    assert_eq!(watched_conversation_id("chat_1.txt"), "chat_1");
    assert_eq!(watched_conversation_id("chat_1.txt.txt"), "chat_1");
    assert_eq!(watched_conversation_id("chat_1"), "chat_1");
    assert!(should_send_update(true, 10, 10, 0));
    assert!(!should_send_update(false, 10, 10, 1000));
    assert!(!should_send_update(false, 11, 10, 199));
    assert!(should_send_update(false, 11, 10, 200));
    assert_eq!(positive_count(0), None);
    assert_eq!(positive_count(-3), None);
    assert_eq!(positive_count(7), Some(7));
    assert!(matches!(frame_action(&ClientFrame::Ping), FrameAction::Pong));
    assert!(matches!(frame_action(&ClientFrame::Close), FrameAction::Stop));
    assert!(matches!(frame_action(&ClientFrame::Ended), FrameAction::Stop));
    assert!(matches!(frame_action(&ClientFrame::Failed), FrameAction::Stop));
    assert!(matches!(frame_action(&ClientFrame::Text), FrameAction::Ignore));
    assert!(matches!(frame_action(&ClientFrame::Pong), FrameAction::Ignore));
}
