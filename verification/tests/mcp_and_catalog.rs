use llama_chat::json::{json_to_string, parse_json, JsonValue};
use llama_chat::mcp_registry::McpToolDef;
use llama_chat::mcp_tools::{
    add_server_request, added_reply, find_server_by_name, mcp_tool_schema, needs_lazy_connect,
    removed_reply, server_not_found_reply, servers_listing, tools_listing, McpServerEntry,
    McpServerStatus, McpTransport,
};
use llama_chat::tool_catalog::get_available_tools_json;

fn doc(text: &str) -> serde_json::Value {
    serde_json::from_str(text).unwrap()
}

fn as_serde(v: &JsonValue) -> serde_json::Value {
    doc(&json_to_string(v))
}

fn tool(id: &str, server: &str, name: &str, description: &str) -> McpToolDef {
    McpToolDef {
        name: name.to_string(),
        qualified_name: McpToolDef::make_qualified_name(server, name),
        description: description.to_string(),
        input_schema: parse_json(r#"{"type":"object","properties":{}}"#).unwrap(),
        server_id: id.to_string(),
        server_name: server.to_string(),
    }
}

fn entry(id: &str, name: &str, enabled: bool, transport: McpTransport) -> McpServerEntry {
    McpServerEntry { id: id.to_string(), name: name.to_string(), transport, enabled }
}

fn status(id: &str, name: &str, connected: bool, tools: &[&str]) -> McpServerStatus {
    McpServerStatus {
        id: id.to_string(),
        name: name.to_string(),
        connected,
        tool_count: tools.len() as u64,
        tools: tools.iter().map(|t| t.to_string()).collect(),
    }
}

#[test]
fn tool_catalog_for_each_os() {
    let linux = doc(&get_available_tools_json("linux"));
    let tools = linux.as_array().unwrap();
    assert_eq!(tools.len(), 4);
    assert_eq!(tools[0]["function"]["name"], "read_file");
    assert_eq!(
        tools[3]["function"]["description"],
        "Execute any Linux/macOS shell command. Use for system operations, running programs, searching, etc. You can run ANY command. OS: linux"
    );
    assert_eq!(
        tools[2]["function"]["parameters"]["properties"]["recursive"]["type"],
        "boolean"
    );
    assert_eq!(tools[1]["function"]["parameters"]["required"], doc(r#"["path","content"]"#));
    let windows = doc(&get_available_tools_json("windows"));
    assert_eq!(
        windows[0]["function"]["parameters"]["properties"]["path"]["description"],
        "Absolute or relative path to the file to read. Examples: type E:\\repo\\package.json, type C:\\Users\\file.txt"
    );
    let other = doc(&get_available_tools_json("plan9"));
    assert_eq!(
        other[3]["function"]["parameters"]["properties"]["command"]["description"],
        "The shell command to execute. Examples: Use appropriate commands for your OS"
    );
}

#[test]
fn mcp_qualified_names() {
    assert_eq!(McpToolDef::make_qualified_name("My Server-1", "read"), "mcp__my_server_1__read");
    assert_eq!(McpToolDef::make_qualified_name("files_fs", "ls"), "mcp__files_fs__ls");
    assert_eq!(McpToolDef::make_qualified_name("Ünï", "x"), "mcp__Ünï__x");
}

#[test]
fn mcp_tool_definitions() {
    let t = tool("a", "fs", "read", "Read a file. Fast.");
    assert_eq!(
        as_serde(&t.to_tool_def()),
        doc(r#"{"name":"mcp__fs__read","description":"[MCP:fs] Read a file. Fast.","parameters":{"type":"object","properties":{}}}"#)
    );
    assert_eq!(
        as_serde(&t.to_openai_function()),
        doc(r#"{"type":"function","function":{"name":"mcp__fs__read","description":"[MCP:fs] Read a file. Fast.","parameters":{"type":"object","properties":{}}}}"#)
    );
    let schema = mcp_tool_schema("mcp__fs__read", &vec![t]).unwrap();
    assert!(schema.contains('\n'));
    assert_eq!(doc(&schema)["function"]["name"], "mcp__fs__read");
    assert_eq!(mcp_tool_schema("mcp__fs__write", &vec![]), None);
}

#[test]
fn mcp_server_listings() {
    let configs = vec![
        entry(
            "a",
            "fs",
            true,
            McpTransport::Stdio { command: "npx".to_string(), args: vec!["-y".to_string(), "fs".to_string()], env_vars: vec![] },
        ),
        entry("b", "web", true, McpTransport::Http { url: "http://localhost:9".to_string() }),
        entry("c", "old", false, McpTransport::Stdio { command: "x".to_string(), args: vec![], env_vars: vec![] }),
    ];
    let statuses = vec![status("a", "fs", true, &["mcp__fs__read"])];
    assert_eq!(
        servers_listing(&configs, &statuses),
        "MCP Servers:\n  - fs [connected] (stdio: npx -y fs) — 1 tool\n      • mcp__fs__read\n  - web [disconnected] (http: http://localhost:9) — 0 tools\n  - old [disabled] (stdio: x) — 0 tools"
    );
    assert_eq!(servers_listing(&vec![], &statuses), "No MCP servers configured.");
    let tools = vec![tool("a", "fs", "read", "Read a file. Fast."), tool("b", "web", "get", "Fetch")];
    assert_eq!(
        tools_listing(&configs, &statuses, &tools),
        "## fs (connected)\n  mcp__fs__read: Read a file"
    );
    assert_eq!(
        tools_listing(&configs, &vec![], &tools),
        "No MCP servers are currently connected. Check Settings → MCP Servers and click Refresh."
    );
    assert!(needs_lazy_connect(2, &vec![]));
    assert!(!needs_lazy_connect(2, &statuses));
    assert!(!needs_lazy_connect(0, &vec![]));
}

#[test]
fn mcp_add_requests() {
    let args = parse_json(r#"{"name":"fs","command":"npx","args":["-y",3,"fs"],"env_vars":{"A":"1","B":2}}"#).unwrap();
    match add_server_request(&args) {
        Ok((name, McpTransport::Stdio { command, args, env_vars })) => {
            assert_eq!(name, "fs");
            assert_eq!(command, "npx");
            assert_eq!(args, vec!["-y".to_string(), "fs".to_string()]);
            assert_eq!(env_vars, vec![("A".to_string(), "1".to_string())]);
        }
        _ => panic!("expected a stdio server"),
    }
    let http = parse_json(r#"{"name":"w","transport":"http","url":"http://h"}"#).unwrap();
    assert!(matches!(add_server_request(&http), Ok((_, McpTransport::Http { .. }))));
    let cases = [
        (r#"{}"#, "Error: 'name' argument is required"),
        (r#"{"name":""}"#, "Error: 'name' argument is required"),
        (r#"{"name":"a"}"#, "Error: 'command' argument is required for stdio transport"),
        (r#"{"name":"a","transport":"http"}"#, "Error: 'url' argument is required for http transport"),
        (r#"{"name":"a","transport":"ws"}"#, "Error: Unknown transport type 'ws'. Use 'stdio' or 'http'."),
    ];
    for (text, error) in cases {
        match add_server_request(&parse_json(text).unwrap()) {
            Err(e) => assert_eq!(e, error),
            Ok(_) => panic!("expected an error for {text}"),
        }
    }
}

#[test]
fn mcp_add_and_remove_replies() {
    let statuses = vec![status("a", "fs", true, &["mcp__fs__read", "mcp__fs__write"])];
    assert_eq!(
        added_reply("fs", Some(&statuses)),
        "Added MCP server 'fs' successfully.\nAvailable tools: mcp__fs__read, mcp__fs__write\nNote: New tools will be available in the next message."
    );
    assert_eq!(
        added_reply("fs", None),
        "Added MCP server 'fs' successfully.\nNote: New tools will be available in the next message."
    );
    let down = vec![status("a", "fs", false, &[])];
    assert_eq!(
        added_reply("fs", Some(&down)),
        "MCP server 'fs' saved but failed to connect. Check the command/URL and try again."
    );
    let configs = vec![
        entry("a", "FileSys", true, McpTransport::Http { url: "u".to_string() }),
        entry("b", "web", true, McpTransport::Http { url: "v".to_string() }),
    ];
    assert_eq!(find_server_by_name(&configs, "filesys"), Some(0));
    assert_eq!(find_server_by_name(&configs, "WEB"), Some(1));
    assert_eq!(find_server_by_name(&configs, "mail"), None);
    assert_eq!(
        server_not_found_reply("mail", &configs),
        "MCP server 'mail' not found. Available servers: FileSys, web"
    );
    assert_eq!(
        server_not_found_reply("mail", &vec![]),
        "MCP server 'mail' not found. No MCP servers are configured."
    );
    assert_eq!(removed_reply("web"), "Removed MCP server 'web' successfully.");
}

#[test]
fn tools_are_listed_by_server_id() {
    let configs = vec![entry("s1", "My Server", true, McpTransport::Http { url: "http://x".to_string() })];
    let statuses = vec![status("s1", "My Server", true, &["mcp__my_server__look"])];
    let tools = vec![tool("s1", "My Server", "look", "Look around. More."), tool("s2", "Other", "x", "No")];
    assert_eq!(
        tools_listing(&configs, &statuses, &tools),
        format!("## My Server (connected)\n  {}: Look around", tools[0].qualified_name)
    );
}
