use llama_chat::json_repair::{
    auto_close_json, escape_inner_quotes_in_strings, escape_invalid_backslashes_in_strings,
    escape_newlines_in_json_strings,
};
use llama_chat::native_tools::{
    dispatch_native_tool, extract_execute_command, try_parse_tool_call, NativeToolCall,
};

#[test]
fn test_dispatch_non_json_returns_none() {
    let result = dispatch_native_tool("ls -la", None);
    assert!(result.is_none());
}

#[test]
fn test_escape_invalid_backslashes_preserves_valid_escapes() {
    // Valid JSON escapes should NOT be doubled
    let input = r#"{"content":"line1\nline2\ttab\"quoted\\"}"#;
    let fixed = escape_invalid_backslashes_in_strings(input);
    assert_eq!(input, fixed, "Valid escapes should be unchanged");
}

#[test]
fn test_escape_newlines_in_json_strings() {
    let input = r#"{"name": "write_file", "arguments": {"content": "line1
line2
line3"}}"#;
    let escaped = escape_newlines_in_json_strings(input);
    let parsed: serde_json::Value = serde_json::from_str(&escaped).unwrap();
    let content = parsed["arguments"]["content"].as_str().unwrap();
    assert_eq!(content, "line1\nline2\nline3");
}

#[test]
fn test_dispatch_unknown_tool_returns_none() {
    let json = r#"{"name": "unknown_tool", "arguments": {}}"#;
    let result = dispatch_native_tool(json, None);
    assert!(result.is_none());
}

#[test]
fn test_auto_close_json_missing_brace() {
    let input = r#"{"name": "write_file", "arguments": {"path": "/tmp/test.txt", "content": "hello"}}"#;
    assert!(serde_json::from_str::<serde_json::Value>(input).is_ok());
    let broken = &input[..input.len() - 1];
    assert!(serde_json::from_str::<serde_json::Value>(broken).is_err());
    let fixed = auto_close_json(broken);
    assert_eq!(fixed, input);
    assert!(serde_json::from_str::<serde_json::Value>(&fixed).is_ok());
}

#[test]
fn test_escape_invalid_backslashes_php_namespaces() {
    let input = r#"{"name":"write_file","arguments":{"path":"Person.php","content":"namespace App\Models;\nuse Illuminate\Database\Eloquent\Model;"}}"#;
    let fixed = escape_invalid_backslashes_in_strings(input);
    assert!(fixed.contains(r"App\\Models"));
    assert!(fixed.contains(r"Illuminate\\Database\\Eloquent\\Model"));
    assert!(serde_json::from_str::<serde_json::Value>(&fixed).is_ok(), "Fixed JSON should parse: {}", fixed);
}

#[test]
fn test_dispatch_web_search_missing_query() {
    let json = r#"{"name": "web_search", "arguments": {}}"#;
    let result = dispatch_native_tool(json, None);
    assert!(result.is_some());
    match result.unwrap() {
        NativeToolCall::Reply { message } => assert!(message.contains("Error")),
        _ => panic!("expected an error reply"),
    }
}

#[test]
fn test_dispatch_web_fetch_missing_url() {
    let json = r#"{"name": "web_fetch", "arguments": {}}"#;
    let result = dispatch_native_tool(json, None);
    assert!(result.is_some());
    match result.unwrap() {
        NativeToolCall::Reply { message } => assert!(message.contains("Error")),
        _ => panic!("expected an error reply"),
    }
}

#[test]
fn dispatch_mistral_comma_execute_command_parses() {
    let input = r#"execute_command,{"command": "echo hello"}"#;
    match dispatch_native_tool(input, None) {
        Some(NativeToolCall::ExecuteCommand { command }) => assert_eq!(command, "echo hello"),
        _ => panic!("expected an execute_command call"),
    }
}

#[test]
fn dispatch_name_json_format_parses() {
    let input = r#"list_directory{"path": "."}"#;
    match dispatch_native_tool(input, None) {
        Some(NativeToolCall::ListDirectory { path }) => assert_eq!(path, "."),
        _ => panic!("expected a list_directory call"),
    }
}

#[test]
fn dispatch_llama3_xml() {
    let input = "<function=write_file> <parameter=path> /tmp/a.txt </parameter> <parameter=content> hello world </parameter> </function>";
    match dispatch_native_tool(input, None) {
        Some(NativeToolCall::WriteFile { path, content }) => {
            assert_eq!(path, "/tmp/a.txt");
            assert_eq!(content, "hello world");
        }
        _ => panic!("expected a write_file call"),
    }
}

#[test]
fn dispatch_mistral_array_and_defaults() {
    let input = r#"[{"name": "web_search", "arguments": {"query": "rust"}}]"#;
    match dispatch_native_tool(input, Some("Google")) {
        Some(NativeToolCall::WebSearch { query, max_results, provider }) => {
            assert_eq!(query, "rust");
            assert_eq!(max_results, 8);
            assert_eq!(provider, Some("Google".to_string()));
        }
        _ => panic!("expected a web_search call"),
    }
    let input = r#"{"name": "web_fetch", "arguments": {"url": "http://x", "max_length": 100}}"#;
    match dispatch_native_tool(input, None) {
        Some(NativeToolCall::WebFetch { url, max_length }) => {
            assert_eq!(url, "http://x");
            assert_eq!(max_length, 100);
        }
        _ => panic!("expected a web_fetch call"),
    }
}

#[test]
fn dispatch_multiline_and_missing_brace() {
    let json = "{\"name\": \"write_file\", \"arguments\": {\"path\": \"/tmp/t.txt\", \"content\": \"{\n  \\\"name\\\": \\\"test\\\"\n}\"}";
    match dispatch_native_tool(json, None) {
        Some(NativeToolCall::WriteFile { path, content }) => {
            assert_eq!(path, "/tmp/t.txt");
            assert!(content.contains("\"name\": \"test\""));
        }
        _ => panic!("expected a write_file call"),
    }
}

#[test]
fn dispatch_php_namespaces() {
    let json = r#"{"name":"write_file","arguments":{"path":"p.php","content":"namespace App\Models;"}}"#;
    match dispatch_native_tool(json, None) {
        Some(NativeToolCall::WriteFile { content, .. }) => assert!(content.contains(r"App\Models")),
        _ => panic!("expected a write_file call"),
    }
}

#[test]
fn dispatch_bare_arguments() {
    match dispatch_native_tool(r#"{"command": "ls"}"#, None) {
        Some(NativeToolCall::ExecuteCommand { command }) => assert_eq!(command, "ls"),
        _ => panic!("expected an execute_command call"),
    }
    match dispatch_native_tool(r#"{"path": "a.txt"}"#, None) {
        Some(NativeToolCall::ReadFile { path }) => assert_eq!(path, "a.txt"),
        _ => panic!("expected a read_file call"),
    }
    match dispatch_native_tool(r#"{"name": "execute_command", "arguments": {"command": ""}}"#, None) {
        Some(NativeToolCall::Reply { message }) => {
            assert_eq!(message, "Error: 'command' argument is required")
        }
        _ => panic!("expected an error reply"),
    }
}

#[test]
fn execute_command_extraction() {
    assert_eq!(
        extract_execute_command(r#"{"name":"execute_command","arguments":{"command":"dir"}}"#),
        Some("dir".to_string())
    );
    assert_eq!(extract_execute_command(r#"{"name":"read_file","arguments":{"path":"x"}}"#), None);
    assert_eq!(extract_execute_command(r#"  {"command": "pwd"}  "#), Some("pwd".to_string()));
    assert_eq!(extract_execute_command("plain text"), None);
}

#[test]
fn tool_call_parsing_formats() {
    let (name, _) = try_parse_tool_call(r#" {"name": "read_file"} "#).unwrap();
    assert_eq!(name, "read_file");
    assert!(try_parse_tool_call("bad name,{\"a\":1}").is_none());
    assert!(try_parse_tool_call("<function=> </function>").is_none());
}

#[test]
fn inner_quotes_escaped() {
    let input = "{\"content\": \"say \"hi\" now\"}";
    let fixed = escape_inner_quotes_in_strings(input);
    assert_eq!(fixed, "{\"content\": \"say \\\"hi\\\" now\"}");
    assert!(serde_json::from_str::<serde_json::Value>(&fixed).is_ok());
    // A quote followed by `:` counts as the end of its string.
    let nested = "{\"c\": \"{\"k\": \"v\"}\"}";
    assert_eq!(escape_inner_quotes_in_strings(nested), "{\"c\": \"{\\\"k\": \"v\"}\"}");
}

#[test]
fn auto_close_nested() {
    assert_eq!(auto_close_json("{\"a\": [1, {\"b\": \"}\""), "{\"a\": [1, {\"b\": \"}\"}]}");
    assert_eq!(auto_close_json(r#"[{"a":1"#), r#"[{"a":1}]"#);
    assert!(serde_json::from_str::<serde_json::Value>(&auto_close_json(r#"{"x":[{"y":[1,{"z":2"#)).is_ok());
    assert_eq!(auto_close_json("{]"), "{]}");
    assert_eq!(auto_close_json("}}"), "}}");
}

#[test]
fn test_dispatch_mistral_comma_execute_command() {
    let input = r#"execute_command,{"command": "echo hello"}"#;
    let result = dispatch_native_tool(input, None);
    assert!(result.is_some(), "Should parse comma format execute_command");
    match result.unwrap() {
        NativeToolCall::ExecuteCommand { command } => assert!(command.contains("hello")),
        _ => panic!("expected a command to run"),
    }
}

#[test]
fn test_dispatch_name_json_format() {
    let input = r#"list_directory{"path": "."}"#;
    let result = dispatch_native_tool(input, None);
    assert!(result.is_some(), "Should parse name+JSON format");
    match result.unwrap() {
        NativeToolCall::ListDirectory { path } => assert_eq!(path, "."),
        _ => panic!("expected a directory listing"),
    }
}

#[test]
fn unicode_escape_needs_four_hex_digits() {
    let fixed = escape_invalid_backslashes_in_strings(r#"{"p":"C:\users"}"#);
    assert_eq!(fixed, r#"{"p":"C:\\users"}"#);
    let v: serde_json::Value = serde_json::from_str(&fixed).unwrap();
    assert_eq!(v["p"], r"C:\users");
    let kept = r#"{"p":"\u0041\u00e9"}"#;
    assert_eq!(escape_invalid_backslashes_in_strings(kept), kept);
    assert_eq!(escape_invalid_backslashes_in_strings(r#"{"p":"\u12G4"}"#), r#"{"p":"\\u12G4"}"#);
    assert_eq!(escape_invalid_backslashes_in_strings(r#"{"p":"\u12"}"#), r#"{"p":"\\u12"}"#);
    let once = escape_invalid_backslashes_in_strings(r#"{"a":"x\y\"}"#);
    assert_eq!(escape_invalid_backslashes_in_strings(&once), once);
}

#[test]
fn inner_quotes_keep_other_characters() {
    assert_eq!(escape_inner_quotes_in_strings(r#"{"a":"é"}"#), r#"{"a":"é"}"#);
    assert_eq!(
        escape_inner_quotes_in_strings("{\"a\": \"日本 \"x\" ü\"}"),
        "{\"a\": \"日本 \\\"x\\\" ü\"}"
    );
}

#[test]
fn newlines_between_tokens_are_kept() {
    let input = "{\n  \"a\": \"b\",\n  \"c\": [1,\r\n 2]\n}";
    assert_eq!(escape_newlines_in_json_strings(input), input);
}

#[test]
fn auto_close_handles_deep_nesting() {
    let open: String = std::iter::repeat("[").take(40).collect();
    let closed = auto_close_json(&open);
    assert_eq!(closed.len(), 80);
    assert!(serde_json::from_str::<serde_json::Value>(&closed).is_ok());
}
