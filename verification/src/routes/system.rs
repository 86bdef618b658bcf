//! The system routes: app information, the list of API endpoints, the
//! background processes started by tools, and stopping one.

use vstd::prelude::*;
use crate::json::{json_get, json_serialize, json_serialize_pretty, json_to_string, json_to_string_pretty, lemma_array_view, lemma_object_of, members_view, Json, JsonValue};
use crate::text::{decimal, int_text, i64_text};

verus! {

/// An endpoint of the API: its method, path and description.
pub open spec fn endpoint(method: Seq<char>, path: Seq<char>, description: Seq<char>) -> Json {
    Json::Object(
        seq![
            ("method"@, Json::Str(method)),
            ("path"@, Json::Str(path)),
            ("description"@, Json::Str(description)),
        ],
    )
}

/// An endpoint of the API that takes a JSON body of the shape given.
pub open spec fn endpoint_with_body(method: Seq<char>, path: Seq<char>, description: Seq<char>, body: Json) -> Json {
    Json::Object(
        seq![
            ("method"@, Json::Str(method)),
            ("path"@, Json::Str(path)),
            ("description"@, Json::Str(description)),
            ("body"@, body),
        ],
    )
}

/// The general endpoints.
pub open spec fn general_endpoints() -> Seq<Json> {
    seq![
        endpoint("GET"@, "/health"@, "Health check"@),
        endpoint("GET"@, "/api/info"@, "App and system info"@),
        endpoint("GET"@, "/api/docs"@, "This endpoint — API documentation"@),
    ]
}

/// The chat endpoints.
pub open spec fn chat_endpoints() -> Seq<Json> {
    seq![
        endpoint_with_body(
            "POST"@,
            "/api/chat"@,
            "Send message (local model)"@,
            Json::Object(seq![("message"@, Json::Str("string"@)), ("conversation_id"@, Json::Str("string?"@))]),
        ),
        endpoint("POST"@, "/api/chat/stream"@, "Send message with SSE streaming (local model)"@),
        endpoint("POST"@, "/api/chat/cancel"@, "Cancel current generation"@),
    ]
}

/// The conversations endpoints.
pub open spec fn conversations_endpoints() -> Seq<Json> {
    seq![
        endpoint("GET"@, "/api/conversations"@, "List all conversations (optional ?q=term to search by title)"@),
        endpoint_with_body(
            "POST"@,
            "/api/conversations"@,
            "Create new conversation"@,
            Json::Object(seq![("title"@, Json::Str("string?"@))]),
        ),
        endpoint("GET"@, "/api/conversation/{id}"@, "Get conversation messages"@),
        endpoint("DELETE"@, "/api/conversations/{id}"@, "Delete a conversation"@),
        endpoint_with_body(
            "PATCH"@,
            "/api/conversations/{id}/title"@,
            "Rename conversation"@,
            Json::Object(seq![("title"@, Json::Str("string"@))]),
        ),
        endpoint("POST"@, "/api/conversations/{id}/truncate"@, "Truncate conversation at message"@),
        endpoint("GET"@, "/api/conversations/{id}/events"@, "Get conversation event log"@),
        endpoint("GET"@, "/api/conversations/{id}/metrics"@, "Get conversation metrics"@),
        endpoint("GET"@, "/api/conversation/{id}/export"@, "Export conversation as markdown or JSON (?format=md|json)"@),
        endpoint_with_body(
            "DELETE"@,
            "/api/conversations/batch"@,
            "Delete multiple conversations"@,
            Json::Object(seq![("ids"@, Json::Array(seq![Json::Str("string"@)]))]),
        ),
    ]
}

/// The model endpoints.
pub open spec fn model_endpoints() -> Seq<Json> {
    seq![
        endpoint("GET"@, "/api/model/status"@, "Current model status (loaded, generating, etc.)"@),
        endpoint("GET"@, "/api/model/info"@, "Detailed model info (GGUF metadata)"@),
        endpoint_with_body(
            "POST"@,
            "/api/model/load"@,
            "Load a GGUF model"@,
            Json::Object(seq![("model_path"@, Json::Str("string"@))]),
        ),
        endpoint("POST"@, "/api/model/unload"@, "Unload current model"@),
        endpoint("POST"@, "/api/model/hard-unload"@, "Force-kill worker to reclaim all VRAM"@),
        endpoint("GET"@, "/api/model/history"@, "Recently used model paths"@),
    ]
}

/// The providers endpoints.
pub open spec fn providers_endpoints() -> Seq<Json> {
    seq![
        endpoint("GET"@, "/api/providers"@, "List all providers with availability"@),
        endpoint("GET"@, "/api/providers/{id}/models"@, "Fetch available models from provider API"@),
        endpoint("POST"@, "/api/providers/{id}/generate"@, "Generate with cloud provider (blocking)"@),
        endpoint("POST"@, "/api/providers/{id}/stream"@, "Generate with cloud provider (SSE streaming)"@),
    ]
}

/// The config endpoints.
pub open spec fn config_endpoints() -> Seq<Json> {
    seq![
        endpoint("GET"@, "/api/config"@, "Get sampler/app configuration"@),
        endpoint("POST"@, "/api/config"@, "Update configuration"@),
        endpoint("GET"@, "/api/config/provider-keys"@, "Get configured provider API keys (masked)"@),
        endpoint_with_body(
            "POST"@,
            "/api/config/provider-keys"@,
            "Set a provider API key"@,
            Json::Object(seq![("provider"@, Json::Str("string"@)), ("api_key"@, Json::Str("string"@)), ("base_url"@, Json::Str("string?"@))]),
        ),
    ]
}

/// The tools endpoints.
pub open spec fn tools_endpoints() -> Seq<Json> {
    seq![
        endpoint("GET"@, "/api/tools/available"@, "List available tools with schemas"@),
        endpoint("POST"@, "/api/tools/execute"@, "Execute a tool call"@),
        endpoint("GET"@, "/api/tools/web-fetch"@, "Fetch web page as text"@),
    ]
}

/// The mcp endpoints.
pub open spec fn mcp_endpoints() -> Seq<Json> {
    seq![
        endpoint("GET"@, "/api/mcp/servers"@, "List MCP servers"@),
        endpoint("POST"@, "/api/mcp/servers"@, "Add MCP server"@),
        endpoint("DELETE"@, "/api/mcp/servers/{id}"@, "Remove MCP server"@),
        endpoint("POST"@, "/api/mcp/servers/{id}/toggle"@, "Enable/disable MCP server"@),
        endpoint("POST"@, "/api/mcp/refresh"@, "Refresh MCP connections"@),
        endpoint("GET"@, "/api/mcp/tools"@, "List discovered MCP tools"@),
    ]
}

/// The system endpoints.
pub open spec fn system_endpoints() -> Seq<Json> {
    seq![
        endpoint("GET"@, "/api/system/usage"@, "CPU/memory/GPU usage"@),
        endpoint("GET"@, "/api/system/processes"@, "List background processes"@),
        endpoint("POST"@, "/api/system/processes/kill"@, "Kill a background process"@),
        endpoint("POST"@, "/api/desktop/abort"@, "Abort current desktop automation"@),
    ]
}

/// The files endpoints.
pub open spec fn files_endpoints() -> Seq<Json> {
    seq![
        endpoint("GET"@, "/api/browse"@, "Browse filesystem for model files"@),
        endpoint("POST"@, "/api/upload"@, "Upload a model file"@),
    ]
}

/// The hub endpoints.
pub open spec fn hub_endpoints() -> Seq<Json> {
    seq![
        endpoint("GET"@, "/api/hub/search"@, "Search HuggingFace Hub"@),
        endpoint("POST"@, "/api/hub/download"@, "Download model from Hub"@),
        endpoint("GET"@, "/api/hub/downloads"@, "List active downloads"@),
    ]
}
/// The endpoints of the API, in the order they are documented.
pub open spec fn api_endpoints() -> Seq<Json> {
    general_endpoints() + chat_endpoints() + conversations_endpoints() + model_endpoints() + providers_endpoints() + config_endpoints() + tools_endpoints() + mcp_endpoints() + system_endpoints() + files_endpoints() + hub_endpoints()
}

/// An endpoint of the API.
fn endpoint_exec(method: &str, path: &str, description: &str) -> (r: JsonValue)
    ensures
        r@ == endpoint(method@, path@, description@),
{
    let mut ms: Vec<(String, JsonValue)> = Vec::new();
    ms.push(("method".to_string(), JsonValue::Str(method.to_string())));
    ms.push(("path".to_string(), JsonValue::Str(path.to_string())));
    ms.push(("description".to_string(), JsonValue::Str(description.to_string())));
    proof {
        lemma_object_of(ms);
        assert(members_view(ms@) =~= seq![
            ("method"@, Json::Str(method@)),
            ("path"@, Json::Str(path@)),
            ("description"@, Json::Str(description@)),
        ]);
    }
    JsonValue::Object(ms)
}

/// An endpoint of the API that takes a body.
fn endpoint_with_body_exec(method: &str, path: &str, description: &str, body: JsonValue) -> (r: JsonValue)
    ensures
        r@ == endpoint_with_body(method@, path@, description@, body@),
{
    let ghost b = body@;
    let mut ms: Vec<(String, JsonValue)> = Vec::new();
    ms.push(("method".to_string(), JsonValue::Str(method.to_string())));
    ms.push(("path".to_string(), JsonValue::Str(path.to_string())));
    ms.push(("description".to_string(), JsonValue::Str(description.to_string())));
    ms.push(("body".to_string(), body));
    proof {
        lemma_object_of(ms);
        assert(members_view(ms@) =~= seq![
            ("method"@, Json::Str(method@)),
            ("path"@, Json::Str(path@)),
            ("description"@, Json::Str(description@)),
            ("body"@, b),
        ]);
    }
    JsonValue::Object(ms)
}

/// An object whose members are the given texts.
fn text_object(members: Vec<(&str, &str)>) -> (r: JsonValue)
    ensures
        r@ == Json::Object(members@.map_values(|m: (&str, &str)| (m.0@, Json::Str(m.1@)))),
{
    let mut ms: Vec<(String, JsonValue)> = Vec::new();
    let mut i: usize = 0;
    while i < members.len()
        invariant
            i <= members.len(),
            members_view(ms@) == members@.take(i as int).map_values(|m: (&str, &str)| (m.0@, Json::Str(m.1@))),
        decreases members.len() - i,
    {
        let kv = members[i];
        let ghost before = ms@;
        ms.push((kv.0.to_string(), JsonValue::Str(kv.1.to_string())));
        proof {
            assert(kv == members@[i as int]);
            assert(members_view(ms@) =~= members_view(before).push((kv.0@, Json::Str(kv.1@))));
            assert(members@.take(i + 1) =~= members@.take(i as int).push(members@[i as int]));
            assert(members_view(ms@) =~= members@.take(i + 1).map_values(|m: (&str, &str)| (m.0@, Json::Str(m.1@))));
        }
        i += 1;
    }
    assert(members@.take(members.len() as int) =~= members@);
    proof {
        lemma_object_of(ms);
    }
    JsonValue::Object(ms)
}

/// The general endpoints.
fn general_endpoints_exec() -> (r: Vec<JsonValue>)
    ensures
        r@.map_values(|j: JsonValue| j@) == general_endpoints(),
{
    let mut v: Vec<JsonValue> = Vec::new();
    v.push(endpoint_exec("GET", "/health", "Health check"));
    v.push(endpoint_exec("GET", "/api/info", "App and system info"));
    v.push(endpoint_exec("GET", "/api/docs", "This endpoint — API documentation"));
    assert(v@.map_values(|j: JsonValue| j@) =~= general_endpoints());
    v
}

/// The chat endpoints.
fn chat_endpoints_exec() -> (r: Vec<JsonValue>)
    ensures
        r@.map_values(|j: JsonValue| j@) == chat_endpoints(),
{
    let mut v: Vec<JsonValue> = Vec::new();
    let mut b4: Vec<(&str, &str)> = Vec::new();
    b4.push(("message", "string"));
    b4.push(("conversation_id", "string?"));
    let o4 = text_object(b4);
    assert(o4@ =~= Json::Object(seq![("message"@, Json::Str("string"@)), ("conversation_id"@, Json::Str("string?"@))])) by {
        assert(b4@.map_values(|m: (&str, &str)| (m.0@, Json::Str(m.1@))) =~= seq![
            ("message"@, Json::Str("string"@)),
            ("conversation_id"@, Json::Str("string?"@)),
        ]);
    }
    v.push(endpoint_with_body_exec(
        "POST",
        "/api/chat",
        "Send message (local model)",
        o4,
    ));
    v.push(endpoint_exec("POST", "/api/chat/stream", "Send message with SSE streaming (local model)"));
    v.push(endpoint_exec("POST", "/api/chat/cancel", "Cancel current generation"));
    assert(v@.map_values(|j: JsonValue| j@) =~= chat_endpoints());
    v
}

/// The conversations endpoints.
fn conversations_endpoints_exec() -> (r: Vec<JsonValue>)
    ensures
        r@.map_values(|j: JsonValue| j@) == conversations_endpoints(),
{
    let mut v: Vec<JsonValue> = Vec::new();
    v.push(endpoint_exec("GET", "/api/conversations", "List all conversations (optional ?q=term to search by title)"));
    let mut b8: Vec<(&str, &str)> = Vec::new();
    b8.push(("title", "string?"));
    let o8 = text_object(b8);
    assert(o8@ =~= Json::Object(seq![("title"@, Json::Str("string?"@))])) by {
        assert(b8@.map_values(|m: (&str, &str)| (m.0@, Json::Str(m.1@))) =~= seq![
            ("title"@, Json::Str("string?"@)),
        ]);
    }
    v.push(endpoint_with_body_exec(
        "POST",
        "/api/conversations",
        "Create new conversation",
        o8,
    ));
    v.push(endpoint_exec("GET", "/api/conversation/{id}", "Get conversation messages"));
    v.push(endpoint_exec("DELETE", "/api/conversations/{id}", "Delete a conversation"));
    let mut b11: Vec<(&str, &str)> = Vec::new();
    b11.push(("title", "string"));
    let o11 = text_object(b11);
    assert(o11@ =~= Json::Object(seq![("title"@, Json::Str("string"@))])) by {
        assert(b11@.map_values(|m: (&str, &str)| (m.0@, Json::Str(m.1@))) =~= seq![
            ("title"@, Json::Str("string"@)),
        ]);
    }
    v.push(endpoint_with_body_exec(
        "PATCH",
        "/api/conversations/{id}/title",
        "Rename conversation",
        o11,
    ));
    v.push(endpoint_exec("POST", "/api/conversations/{id}/truncate", "Truncate conversation at message"));
    v.push(endpoint_exec("GET", "/api/conversations/{id}/events", "Get conversation event log"));
    v.push(endpoint_exec("GET", "/api/conversations/{id}/metrics", "Get conversation metrics"));
    v.push(endpoint_exec("GET", "/api/conversation/{id}/export", "Export conversation as markdown or JSON (?format=md|json)"));
    let mut a16: Vec<JsonValue> = Vec::new();
    a16.push(JsonValue::Str("string".to_string()));
    let arr16 = JsonValue::Array(a16);
    proof {
        lemma_array_view(arr16);
        assert(crate::json::array_items(arr16@) =~= seq![Json::Str("string"@)]);
    }
    let ghost av16 = arr16@;
    let mut m16: Vec<(String, JsonValue)> = Vec::new();
    m16.push(("ids".to_string(), arr16));
    proof {
        lemma_object_of(m16);
        assert(members_view(m16@) =~= seq![("ids"@, av16)]);
    }
    let o16 = JsonValue::Object(m16);
    assert(o16@ =~= Json::Object(seq![("ids"@, Json::Array(seq![Json::Str("string"@)]))]));
    v.push(endpoint_with_body_exec(
        "DELETE",
        "/api/conversations/batch",
        "Delete multiple conversations",
        o16,
    ));
    assert(v@.map_values(|j: JsonValue| j@) =~= conversations_endpoints());
    v
}

/// The model endpoints.
fn model_endpoints_exec() -> (r: Vec<JsonValue>)
    ensures
        r@.map_values(|j: JsonValue| j@) == model_endpoints(),
{
    let mut v: Vec<JsonValue> = Vec::new();
    v.push(endpoint_exec("GET", "/api/model/status", "Current model status (loaded, generating, etc.)"));
    v.push(endpoint_exec("GET", "/api/model/info", "Detailed model info (GGUF metadata)"));
    let mut b19: Vec<(&str, &str)> = Vec::new();
    b19.push(("model_path", "string"));
    let o19 = text_object(b19);
    assert(o19@ =~= Json::Object(seq![("model_path"@, Json::Str("string"@))])) by {
        assert(b19@.map_values(|m: (&str, &str)| (m.0@, Json::Str(m.1@))) =~= seq![
            ("model_path"@, Json::Str("string"@)),
        ]);
    }
    v.push(endpoint_with_body_exec(
        "POST",
        "/api/model/load",
        "Load a GGUF model",
        o19,
    ));
    v.push(endpoint_exec("POST", "/api/model/unload", "Unload current model"));
    v.push(endpoint_exec("POST", "/api/model/hard-unload", "Force-kill worker to reclaim all VRAM"));
    v.push(endpoint_exec("GET", "/api/model/history", "Recently used model paths"));
    assert(v@.map_values(|j: JsonValue| j@) =~= model_endpoints());
    v
}

/// The providers endpoints.
fn providers_endpoints_exec() -> (r: Vec<JsonValue>)
    ensures
        r@.map_values(|j: JsonValue| j@) == providers_endpoints(),
{
    let mut v: Vec<JsonValue> = Vec::new();
    v.push(endpoint_exec("GET", "/api/providers", "List all providers with availability"));
    v.push(endpoint_exec("GET", "/api/providers/{id}/models", "Fetch available models from provider API"));
    v.push(endpoint_exec("POST", "/api/providers/{id}/generate", "Generate with cloud provider (blocking)"));
    v.push(endpoint_exec("POST", "/api/providers/{id}/stream", "Generate with cloud provider (SSE streaming)"));
    assert(v@.map_values(|j: JsonValue| j@) =~= providers_endpoints());
    v
}

/// The config endpoints.
fn config_endpoints_exec() -> (r: Vec<JsonValue>)
    ensures
        r@.map_values(|j: JsonValue| j@) == config_endpoints(),
{
    let mut v: Vec<JsonValue> = Vec::new();
    v.push(endpoint_exec("GET", "/api/config", "Get sampler/app configuration"));
    v.push(endpoint_exec("POST", "/api/config", "Update configuration"));
    v.push(endpoint_exec("GET", "/api/config/provider-keys", "Get configured provider API keys (masked)"));
    let mut b30: Vec<(&str, &str)> = Vec::new();
    b30.push(("provider", "string"));
    b30.push(("api_key", "string"));
    b30.push(("base_url", "string?"));
    let o30 = text_object(b30);
    assert(o30@ =~= Json::Object(seq![("provider"@, Json::Str("string"@)), ("api_key"@, Json::Str("string"@)), ("base_url"@, Json::Str("string?"@))])) by {
        assert(b30@.map_values(|m: (&str, &str)| (m.0@, Json::Str(m.1@))) =~= seq![
            ("provider"@, Json::Str("string"@)),
            ("api_key"@, Json::Str("string"@)),
            ("base_url"@, Json::Str("string?"@)),
        ]);
    }
    v.push(endpoint_with_body_exec(
        "POST",
        "/api/config/provider-keys",
        "Set a provider API key",
        o30,
    ));
    assert(v@.map_values(|j: JsonValue| j@) =~= config_endpoints());
    v
}

/// The tools endpoints.
fn tools_endpoints_exec() -> (r: Vec<JsonValue>)
    ensures
        r@.map_values(|j: JsonValue| j@) == tools_endpoints(),
{
    let mut v: Vec<JsonValue> = Vec::new();
    v.push(endpoint_exec("GET", "/api/tools/available", "List available tools with schemas"));
    v.push(endpoint_exec("POST", "/api/tools/execute", "Execute a tool call"));
    v.push(endpoint_exec("GET", "/api/tools/web-fetch", "Fetch web page as text"));
    assert(v@.map_values(|j: JsonValue| j@) =~= tools_endpoints());
    v
}

/// The mcp endpoints.
fn mcp_endpoints_exec() -> (r: Vec<JsonValue>)
    ensures
        r@.map_values(|j: JsonValue| j@) == mcp_endpoints(),
{
    let mut v: Vec<JsonValue> = Vec::new();
    v.push(endpoint_exec("GET", "/api/mcp/servers", "List MCP servers"));
    v.push(endpoint_exec("POST", "/api/mcp/servers", "Add MCP server"));
    v.push(endpoint_exec("DELETE", "/api/mcp/servers/{id}", "Remove MCP server"));
    v.push(endpoint_exec("POST", "/api/mcp/servers/{id}/toggle", "Enable/disable MCP server"));
    v.push(endpoint_exec("POST", "/api/mcp/refresh", "Refresh MCP connections"));
    v.push(endpoint_exec("GET", "/api/mcp/tools", "List discovered MCP tools"));
    assert(v@.map_values(|j: JsonValue| j@) =~= mcp_endpoints());
    v
}

/// The system endpoints.
fn system_endpoints_exec() -> (r: Vec<JsonValue>)
    ensures
        r@.map_values(|j: JsonValue| j@) == system_endpoints(),
{
    let mut v: Vec<JsonValue> = Vec::new();
    v.push(endpoint_exec("GET", "/api/system/usage", "CPU/memory/GPU usage"));
    v.push(endpoint_exec("GET", "/api/system/processes", "List background processes"));
    v.push(endpoint_exec("POST", "/api/system/processes/kill", "Kill a background process"));
    v.push(endpoint_exec("POST", "/api/desktop/abort", "Abort current desktop automation"));
    assert(v@.map_values(|j: JsonValue| j@) =~= system_endpoints());
    v
}

/// The files endpoints.
fn files_endpoints_exec() -> (r: Vec<JsonValue>)
    ensures
        r@.map_values(|j: JsonValue| j@) == files_endpoints(),
{
    let mut v: Vec<JsonValue> = Vec::new();
    v.push(endpoint_exec("GET", "/api/browse", "Browse filesystem for model files"));
    v.push(endpoint_exec("POST", "/api/upload", "Upload a model file"));
    assert(v@.map_values(|j: JsonValue| j@) =~= files_endpoints());
    v
}

/// The hub endpoints.
fn hub_endpoints_exec() -> (r: Vec<JsonValue>)
    ensures
        r@.map_values(|j: JsonValue| j@) == hub_endpoints(),
{
    let mut v: Vec<JsonValue> = Vec::new();
    v.push(endpoint_exec("GET", "/api/hub/search", "Search HuggingFace Hub"));
    v.push(endpoint_exec("POST", "/api/hub/download", "Download model from Hub"));
    v.push(endpoint_exec("GET", "/api/hub/downloads", "List active downloads"));
    assert(v@.map_values(|j: JsonValue| j@) =~= hub_endpoints());
    v
}
/// The endpoints of the API.
fn api_endpoints_exec() -> (r: Vec<JsonValue>)
    ensures
        r@.map_values(|j: JsonValue| j@) == api_endpoints(),
{
    let mut all: Vec<JsonValue> = Vec::new();
    let mut part = general_endpoints_exec();
    let ghost pv = part@.map_values(|j: JsonValue| j@);
    let ghost before = all@.map_values(|j: JsonValue| j@);
    all.append(&mut part);
    proof {
        assert(all@.map_values(|j: JsonValue| j@) =~= before + pv);
    }
    let mut part = chat_endpoints_exec();
    let ghost pv = part@.map_values(|j: JsonValue| j@);
    let ghost before = all@.map_values(|j: JsonValue| j@);
    all.append(&mut part);
    proof {
        assert(all@.map_values(|j: JsonValue| j@) =~= before + pv);
    }
    let mut part = conversations_endpoints_exec();
    let ghost pv = part@.map_values(|j: JsonValue| j@);
    let ghost before = all@.map_values(|j: JsonValue| j@);
    all.append(&mut part);
    proof {
        assert(all@.map_values(|j: JsonValue| j@) =~= before + pv);
    }
    let mut part = model_endpoints_exec();
    let ghost pv = part@.map_values(|j: JsonValue| j@);
    let ghost before = all@.map_values(|j: JsonValue| j@);
    all.append(&mut part);
    proof {
        assert(all@.map_values(|j: JsonValue| j@) =~= before + pv);
    }
    let mut part = providers_endpoints_exec();
    let ghost pv = part@.map_values(|j: JsonValue| j@);
    let ghost before = all@.map_values(|j: JsonValue| j@);
    all.append(&mut part);
    proof {
        assert(all@.map_values(|j: JsonValue| j@) =~= before + pv);
    }
    let mut part = config_endpoints_exec();
    let ghost pv = part@.map_values(|j: JsonValue| j@);
    let ghost before = all@.map_values(|j: JsonValue| j@);
    all.append(&mut part);
    proof {
        assert(all@.map_values(|j: JsonValue| j@) =~= before + pv);
    }
    let mut part = tools_endpoints_exec();
    let ghost pv = part@.map_values(|j: JsonValue| j@);
    let ghost before = all@.map_values(|j: JsonValue| j@);
    all.append(&mut part);
    proof {
        assert(all@.map_values(|j: JsonValue| j@) =~= before + pv);
    }
    let mut part = mcp_endpoints_exec();
    let ghost pv = part@.map_values(|j: JsonValue| j@);
    let ghost before = all@.map_values(|j: JsonValue| j@);
    all.append(&mut part);
    proof {
        assert(all@.map_values(|j: JsonValue| j@) =~= before + pv);
    }
    let mut part = system_endpoints_exec();
    let ghost pv = part@.map_values(|j: JsonValue| j@);
    let ghost before = all@.map_values(|j: JsonValue| j@);
    all.append(&mut part);
    proof {
        assert(all@.map_values(|j: JsonValue| j@) =~= before + pv);
    }
    let mut part = files_endpoints_exec();
    let ghost pv = part@.map_values(|j: JsonValue| j@);
    let ghost before = all@.map_values(|j: JsonValue| j@);
    all.append(&mut part);
    proof {
        assert(all@.map_values(|j: JsonValue| j@) =~= before + pv);
    }
    let mut part = hub_endpoints_exec();
    let ghost pv = part@.map_values(|j: JsonValue| j@);
    let ghost before = all@.map_values(|j: JsonValue| j@);
    all.append(&mut part);
    proof {
        assert(all@.map_values(|j: JsonValue| j@) =~= before + pv);
    }
    all
}

/// The API documentation: `{"endpoints": [...]}`.
pub open spec fn api_docs_json() -> Json {
    Json::Object(seq![("endpoints"@, Json::Array(api_endpoints()))])
}

/// The API documentation, as indented JSON.
pub fn api_docs() -> (r: String)
    ensures
        r@ == json_serialize_pretty(api_docs_json()),
{
    let arr = JsonValue::Array(api_endpoints_exec());
    proof {
        lemma_array_view(arr);
        assert(crate::json::array_items(arr@) =~= api_endpoints());
    }
    let ghost av = arr@;
    let mut ms: Vec<(String, JsonValue)> = Vec::new();
    ms.push(("endpoints".to_string(), arr));
    proof {
        lemma_object_of(ms);
        assert(members_view(ms@) =~= seq![("endpoints"@, av)]);
    }
    json_to_string_pretty(&JsonValue::Object(ms))
}


/// The app information: name, version, platform, architecture and the
/// features it was built with.
pub open spec fn app_info_doc(version: Seq<char>, platform: Seq<char>, arch: Seq<char>, vision: bool, cuda: bool) -> Json {
    Json::Object(
        seq![
            ("app"@, Json::Str("llama-chat"@)),
            ("version"@, Json::Str(version)),
            ("platform"@, Json::Str(platform)),
            ("arch"@, Json::Str(arch)),
            ("features"@, Json::Object(seq![("vision"@, Json::Bool(vision)), ("cuda"@, Json::Bool(cuda))])),
        ],
    )
}

/// The app information, as JSON text.
pub fn app_info(version: &str, platform: &str, arch: &str, vision: bool, cuda: bool) -> (r: String)
    ensures
        r@ == json_serialize(app_info_doc(version@, platform@, arch@, vision, cuda)),
{
    let mut features: Vec<(String, JsonValue)> = Vec::new();
    features.push(("vision".to_string(), JsonValue::Bool(vision)));
    features.push(("cuda".to_string(), JsonValue::Bool(cuda)));
    proof {
        lemma_object_of(features);
        assert(members_view(features@) =~= seq![("vision"@, Json::Bool(vision)), ("cuda"@, Json::Bool(cuda))]);
    }
    let f = JsonValue::Object(features);
    let ghost fv = f@;
    let mut ms: Vec<(String, JsonValue)> = Vec::new();
    ms.push(("app".to_string(), JsonValue::Str("llama-chat".to_string())));
    ms.push(("version".to_string(), JsonValue::Str(version.to_string())));
    ms.push(("platform".to_string(), JsonValue::Str(platform.to_string())));
    ms.push(("arch".to_string(), JsonValue::Str(arch.to_string())));
    ms.push(("features".to_string(), f));
    proof {
        lemma_object_of(ms);
        assert(members_view(ms@) =~= seq![
            ("app"@, Json::Str("llama-chat"@)),
            ("version"@, Json::Str(version@)),
            ("platform"@, Json::Str(platform@)),
            ("arch"@, Json::Str(arch@)),
            ("features"@, fv),
        ]);
    }
    json_to_string(&JsonValue::Object(ms))
}

/// A `{"success", "message"}` answer.
pub open spec fn outcome_doc(success: bool, message: Seq<char>) -> Json {
    Json::Object(seq![("success"@, Json::Bool(success)), ("message"@, Json::Str(message))])
}

/// A `{"success", "message"}` answer, as JSON text.
fn outcome(success: bool, message: &str) -> (r: String)
    ensures
        r@ == json_serialize(outcome_doc(success, message@)),
{
    let mut ms: Vec<(String, JsonValue)> = Vec::new();
    ms.push(("success".to_string(), JsonValue::Bool(success)));
    ms.push(("message".to_string(), JsonValue::Str(message.to_string())));
    proof {
        lemma_object_of(ms);
        assert(members_view(ms@) =~= seq![("success"@, Json::Bool(success)), ("message"@, Json::Str(message@))]);
    }
    json_to_string(&JsonValue::Object(ms))
}

/// The answer after the desktop automation was told to stop.
pub fn desktop_abort_reply() -> (r: String)
    ensures
        r@ == json_serialize(outcome_doc(true, "Desktop abort signal sent"@)),
{
    outcome(true, "Desktop abort signal sent")
}

/// A background process started by a tool, as stored.
pub struct BackgroundProcess {
    pub pid: i64,
    pub command: String,
    pub conversation_id: Option<String>,
    pub started_at: i64,
}

/// A running process as listed.
pub open spec fn process_json(p: BackgroundProcess) -> Json {
    Json::Object(
        seq![
            ("pid"@, Json::Number(int_text(p.pid as int))),
            ("command"@, Json::Str(p.command@)),
            (
                "conversationId"@,
                match p.conversation_id {
                    Some(c) => Json::Str(c@),
                    None => Json::Null,
                },
            ),
            ("startedAt"@, Json::Number(int_text(p.started_at as int))),
            ("alive"@, Json::Bool(true)),
        ],
    )
}

/// The listing of the stored processes that are alive (`alive[i]` for
/// process `i`), in order, and the pids of the others, whose records are
/// dropped.
pub open spec fn process_listing(procs: Seq<BackgroundProcess>, alive: Seq<bool>) -> (Seq<Json>, Seq<i64>)
    decreases procs.len(),
{
    if procs.len() == 0 {
        (Seq::empty(), Seq::empty())
    } else {
        let (l, d) = process_listing(procs.drop_last(), alive);
        let i = procs.len() - 1;
        if i < alive.len() && alive[i] {
            (l.push(process_json(procs.last())), d)
        } else {
            (l, d.push(procs.last().pid))
        }
    }
}

/// The running processes as JSON, and the pids of the dead ones.
pub fn list_processes(procs: &Vec<BackgroundProcess>, alive: &Vec<bool>) -> (r: (String, Vec<i64>))
    requires
        alive.len() == procs.len(),
    ensures
        r.0@ == json_serialize(Json::Array(process_listing(procs@, alive@).0)),
        r.1@ == process_listing(procs@, alive@).1,
{
    let mut listed: Vec<JsonValue> = Vec::new();
    let mut dead: Vec<i64> = Vec::new();
    let mut i: usize = 0;
    while i < procs.len()
        invariant
            i <= procs.len(),
            alive.len() == procs.len(),
            listed@.map_values(|j: JsonValue| j@) == process_listing(procs@.take(i as int), alive@).0,
            dead@ == process_listing(procs@.take(i as int), alive@).1,
        decreases procs.len() - i,
    {
        proof {
            assert(procs@.take(i + 1).drop_last() =~= procs@.take(i as int));
            assert(procs@.take(i + 1).last() == procs@[i as int]);
        }
        let p = &procs[i];
        if alive[i] {
            let mut ms: Vec<(String, JsonValue)> = Vec::new();
            ms.push(("pid".to_string(), JsonValue::Number(i64_text(p.pid))));
            ms.push(("command".to_string(), JsonValue::Str(p.command.clone())));
            ms.push((
                "conversationId".to_string(),
                match &p.conversation_id {
                    Some(c) => JsonValue::Str(c.clone()),
                    None => JsonValue::Null,
                },
            ));
            ms.push(("startedAt".to_string(), JsonValue::Number(i64_text(p.started_at))));
            ms.push(("alive".to_string(), JsonValue::Bool(true)));
            proof {
                lemma_object_of(ms);
                assert(members_view(ms@) =~= crate::json::object_members(process_json(*p)));
            }
            let e = JsonValue::Object(ms);
            let ghost ev = e@;
            let ghost before = listed@;
            listed.push(e);
            proof {
                assert(listed@.map_values(|j: JsonValue| j@) =~= before.map_values(|j: JsonValue| j@).push(ev));
            }
        } else {
            dead.push(p.pid);
        }
        i += 1;
    }
    assert(procs@.take(procs.len() as int) =~= procs@);
    let arr = JsonValue::Array(listed);
    proof {
        lemma_array_view(arr);
        assert(crate::json::array_items(arr@) =~= process_listing(procs@, alive@).0);
    }
    (json_to_string(&arr), dead)
}

/// The process a kill request names: its `pid` as an unsigned number, kept
/// to its low 32 bits as `as u32` keeps them; none where it has none.
pub fn kill_request_pid(body: &JsonValue) -> (r: Option<u32>)
    ensures
        r == match json_get(body@, "pid"@) {
            Some(v) => match crate::json::json_as_u64(v) {
                Some(n) => Some(n as u32),
                None => None,
            },
            None => None::<u32>,
        },
{
    match body.get("pid") {
        Some(v) => match v.as_u64() {
            Some(n) => Some(n as u32),
            None => None,
        },
        None => None,
    }
}

/// The answer after a kill: whether the process is gone.
pub fn kill_reply(killed: bool) -> (r: String)
    ensures
        r@ == json_serialize(
            if killed {
                outcome_doc(true, "Process killed"@)
            } else {
                outcome_doc(
                    false,
                    "Process may not have been killed. It might require elevated permissions."@,
                )
            },
        ),
{
    if killed {
        outcome(true, "Process killed")
    } else {
        outcome(false, "Process may not have been killed. It might require elevated permissions.")
    }
}

} // verus!
