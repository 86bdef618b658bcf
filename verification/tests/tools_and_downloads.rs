use llama_chat::json::{json_to_string, parse_json, JsonValue};
use llama_chat::routes::download::{
    content_length, done_event, download_url, error_event, etag_changed, part_file_name,
    plan_resume, progress_event, range_header, record_chunk, sse_frame, DownloadProgress,
    CHECKPOINT_INTERVAL,
};
use llama_chat::routes::tools::{
    command_output, command_result, failure_result, list_result, listing_line, path_allowed, read_result, tool_action,
    unknown_tool_result, write_result, ToolAction,
};

fn doc(text: &str) -> serde_json::Value {
    serde_json::from_str(text).unwrap()
}

fn as_serde(v: &JsonValue) -> serde_json::Value {
    doc(&json_to_string(v))
}

fn args(text: &str) -> JsonValue {
    parse_json(text).unwrap()
}

#[test]
fn tool_actions_read_and_write() {
    match tool_action("read_file", &args(r#"{"path":"/app/a.txt"}"#), "read_file") {
        Ok(ToolAction::ReadFile { path }) => assert_eq!(path, "/app/a.txt"),
        _ => panic!("expected a read"),
    }
    match tool_action("write_file", &args(r#"{"path":"b.txt","content":"hi"}"#), "write_file") {
        Ok(ToolAction::WriteFile { path, content }) => {
            assert_eq!(path, "b.txt");
            assert_eq!(content, "hi");
        }
        _ => panic!("expected a write"),
    }
    match tool_action("write_file", &args(r#"{"path":"b.txt"}"#), "write_file") {
        Ok(ToolAction::WriteFile { content, .. }) => assert_eq!(content, ""),
        _ => panic!("expected a write"),
    }
}

#[test]
fn tool_actions_missing_arguments() {
    let r = tool_action("read_file", &args("{}"), "read_file");
    match r {
        Err(resp) => {
            assert_eq!(resp.status, 400);
            assert_eq!(resp.body, r#"{"error":"File path is required"}"#);
        }
        _ => panic!("expected an error"),
    }
    match tool_action("write_file", &args(r#"{"path":""}"#), "write_file") {
        Err(resp) => assert_eq!(resp.body, r#"{"error":"File path is required"}"#),
        _ => panic!("expected an error"),
    }
    match tool_action("bash", &args(r#"{"command":""}"#), "bash") {
        Err(resp) => {
            assert_eq!(resp.status, 400);
            assert_eq!(resp.body, r#"{"error":"Command is required"}"#);
        }
        _ => panic!("expected an error"),
    }
}

#[test]
fn tool_actions_listing_commands_unknown() {
    match tool_action("list_directory", &args("{}"), "list_directory") {
        Ok(ToolAction::ListDirectory { path, recursive }) => {
            assert_eq!(path, ".");
            assert!(!recursive);
        }
        _ => panic!("expected a listing"),
    }
    match tool_action("list_directory", &args(r#"{"path":"/app","recursive":true}"#), "ls") {
        Ok(ToolAction::ListDirectory { path, recursive }) => {
            assert_eq!(path, "/app");
            assert!(recursive);
        }
        _ => panic!("expected a listing"),
    }
    match tool_action("list_directory", &args(r#"{"recursive":"yes"}"#), "ls") {
        Ok(ToolAction::ListDirectory { recursive, .. }) => assert!(!recursive),
        _ => panic!("expected a listing"),
    }
    for name in ["bash", "shell", "command"] {
        match tool_action(name, &args(r#"{"command":"ls -la"}"#), name) {
            Ok(ToolAction::Command { command }) => assert_eq!(command, "ls -la"),
            _ => panic!("expected a command"),
        }
    }
    match tool_action("fly", &args("{}"), "fly_away") {
        Ok(ToolAction::Unknown { name }) => assert_eq!(name, "fly_away"),
        _ => panic!("expected an unknown tool"),
    }
}

#[test]
fn tool_paths_allowed() {
    assert!(path_allowed("/app"));
    assert!(path_allowed("/app/models/x.gguf"));
    assert!(path_allowed("/app/"));
    assert!(!path_allowed("/application"));
    assert!(!path_allowed("/etc/passwd"));
    assert!(!path_allowed(""));
}

#[test]
fn tool_listing_lines() {
    assert_eq!(
        listing_line(false, Some(42), "a.txt"),
        "      FILE        42 bytes a.txt"
    );
    assert_eq!(listing_line(true, None, "sub"), "       DIR                 sub");
    assert_eq!(
        listing_line(false, Some(12_345_678_901), "big"),
        "      FILE 12345678901 bytes big"
    );
}

#[test]
fn tool_command_output() {
    assert_eq!(command_output("out", ""), "out");
    assert_eq!(command_output("out", "err"), "out\nSTDERR:\nerr");
    assert_eq!(command_output("", "err"), "\nSTDERR:\nerr");
}

#[test]
fn tool_results() {
    assert_eq!(
        as_serde(&failure_result("nope".to_string())),
        doc(r#"{"success":false,"error":"nope"}"#)
    );
    assert_eq!(
        as_serde(&unknown_tool_result("fly")),
        doc(r#"{"success":false,"error":"Unknown tool: fly"}"#)
    );
    assert_eq!(
        as_serde(&read_result("body".to_string(), "/app/a")),
        doc(r#"{"success":true,"result":"body","path":"/app/a"}"#)
    );
    assert_eq!(
        as_serde(&write_result(5, "/app/b")),
        doc(r#"{"success":true,"result":"Successfully wrote 5 bytes to '/app/b'","path":"/app/b","bytes_written":5}"#)
    );
}

#[test]
fn download_range_and_length() {
    assert_eq!(range_header(0), None);
    assert_eq!(range_header(1024), Some("bytes=1024-".to_string()));
    assert_eq!(content_length(Some("2048")), 2048);
    assert_eq!(content_length(Some("many")), 0);
    assert_eq!(content_length(None), 0);
}

#[test]
fn download_resume_plans() {
    let p = plan_resume(100, 206, Some("\"e1\""), Some("\"e1\""), 900);
    assert!(!p.must_restart);
    assert_eq!(p.actual_offset, 100);
    assert_eq!(p.total, 1000);
    let p = plan_resume(100, 206, Some("\"e1\""), Some("\"e2\""), 900);
    assert!(p.must_restart);
    assert_eq!(p.actual_offset, 0);
    assert_eq!(p.total, 900);
    let p = plan_resume(100, 206, None, Some("\"e2\""), 900);
    assert!(!p.must_restart);
    assert_eq!(p.total, 1000);
    let p = plan_resume(100, 200, None, None, 1000);
    assert!(p.must_restart);
    assert_eq!(p.actual_offset, 0);
    assert_eq!(p.total, 1000);
    let p = plan_resume(0, 200, None, None, 1000);
    assert!(!p.must_restart);
    assert_eq!(p.actual_offset, 0);
    assert_eq!(p.total, 1000);
}

#[test]
fn download_etags_and_checkpoints() {
    assert!(etag_changed(None, Some("a")));
    assert!(etag_changed(Some("a"), Some("b")));
    assert!(!etag_changed(Some("a"), Some("a")));
    assert!(!etag_changed(Some("a"), None));

    let mut p = DownloadProgress { downloaded: 0, last_checkpoint: 0 };
    assert!(!record_chunk(&mut p, CHECKPOINT_INTERVAL - 1, true));
    assert_eq!(p.last_checkpoint, 0);
    assert!(record_chunk(&mut p, 1, true));
    assert_eq!(p.last_checkpoint, CHECKPOINT_INTERVAL);
    assert!(!record_chunk(&mut p, CHECKPOINT_INTERVAL, false));
    assert_eq!(p.downloaded, 2 * CHECKPOINT_INTERVAL);
    assert_eq!(p.last_checkpoint, CHECKPOINT_INTERVAL);
    assert_eq!(CHECKPOINT_INTERVAL, 5 * 1024 * 1024);
}

#[test]
fn download_events_and_names() {
    assert_eq!(
        as_serde(&progress_event(10, 100, 3)),
        doc(r#"{"type":"progress","bytes":10,"total":100,"speed_kbps":3}"#)
    );
    assert_eq!(
        as_serde(&error_event("broken".to_string())),
        doc(r#"{"type":"error","message":"broken"}"#)
    );
    assert_eq!(
        as_serde(&done_event("/app/models/m.gguf", 7)),
        doc(r#"{"type":"done","path":"/app/models/m.gguf","bytes":7}"#)
    );
    assert_eq!(sse_frame("{}"), "data: {}\n\n");
    assert_eq!(
        download_url("org/model", "a b.gguf"),
        "https://huggingface.co/org/model/resolve/main/a%20b.gguf"
    );
    assert_eq!(part_file_name("m.gguf"), "m.gguf.part");
}

#[test]
fn list_and_command_results() {
    let lines = vec!["      FILE     12 bytes a.txt".to_string(), "       DIR                 sub".to_string()];
    assert_eq!(
        as_serde(&list_result(&lines, "/app/x", false)),
        doc(r#"{"success":true,"result":"      FILE     12 bytes a.txt\n       DIR                 sub","path":"/app/x","count":2,"recursive":false}"#)
    );
    assert_eq!(
        as_serde(&list_result(&Vec::new(), "/app", true)),
        doc(r#"{"success":true,"result":"","path":"/app","count":0,"recursive":true}"#)
    );
    assert_eq!(
        as_serde(&command_result("hi\n".to_string(), Some(-2))),
        doc(r#"{"success":true,"result":"hi\n","exit_code":-2}"#)
    );
    assert_eq!(
        as_serde(&command_result(String::new(), None)),
        doc(r#"{"success":true,"result":"","exit_code":null}"#)
    );
}
