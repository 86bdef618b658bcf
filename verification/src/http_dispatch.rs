//! The HTTP API's route table: which handler a request goes to, with the
//! part of the path that the handler takes, and who must present a token.

use vstd::prelude::*;
use crate::response::{header, headers_view, response, HttpResponse, BAD_REQUEST, NOT_FOUND};
use crate::text::{
    chars_of, ends_with, ends_with_exec, slice_of, slices_equal, starts_with, starts_with_exec,
    string_from,
};

verus! {

/// The HTTP methods the API routes.
#[derive(PartialEq, Eq, Structural, Clone, Copy)]
pub enum Method {
    Get,
    Post,
    Put,
    Patch,
    Delete,
    Options,
    Other,
}

/// How a rule matches a path.
#[derive(Clone, Copy)]
pub enum PathRule {
    /// The path itself.
    Exact(&'static str),
    /// Paths that begin with a prefix.
    Prefix(&'static str),
    /// Paths that begin with a prefix and end with a suffix.
    Between(&'static str, &'static str),
    /// Any path.
    AnyPath,
    /// Static files: under `/assets/`, or ending in `.svg`, `.ico` or `.png`.
    StaticAsset,
}

/// What part of the path a handler takes.
#[derive(Clone, Copy)]
pub enum ParamKind {
    /// Nothing.
    NoParam,
    /// The whole path.
    WholePath,
    /// The text between a rule's prefix and suffix.
    Middle,
    /// That text without trailing `/` characters.
    MiddleTrimmed,
    /// The text after a rule's prefix.
    Rest,
    /// The path with the prefix trimmed from its start and the suffix and
    /// `/` characters trimmed from its end, each as often as it occurs.
    Trimmed,
}

/// A rule of the route table.
#[derive(Clone, Copy)]
pub struct RouteRule {
    pub method: Method,
    pub path: PathRule,
    pub name: &'static str,
    pub param: ParamKind,
}

/// The handler chosen for a request, and the part of the path it takes.
pub struct Route {
    pub name: &'static str,
    pub param: Option<String>,
}

/// The route table, in the order its rules are tried.
pub open spec fn route_table() -> Seq<RouteRule> {
    route_part0() + route_part1() + route_part2() + route_part3() + route_part4() + route_part5()
}

/// Rules 1 to 18 of the route table.
pub open spec fn route_part0() -> Seq<RouteRule> {
    seq![
        RouteRule { method: Method::Get, path: PathRule::Exact("/health"), name: "health", param: ParamKind::NoParam },
        RouteRule { method: Method::Get, path: PathRule::Exact("/api/info"), name: "app_info", param: ParamKind::NoParam },
        RouteRule { method: Method::Get, path: PathRule::Exact("/api/docs"), name: "api_docs", param: ParamKind::NoParam },
        RouteRule { method: Method::Get, path: PathRule::Exact("/api/system/usage"), name: "system_usage", param: ParamKind::NoParam },
        RouteRule { method: Method::Get, path: PathRule::Exact("/api/system/processes"), name: "background_processes", param: ParamKind::NoParam },
        RouteRule { method: Method::Get, path: PathRule::Between("/api/system/processes/", "/output"), name: "process_output", param: ParamKind::Middle },
        RouteRule { method: Method::Post, path: PathRule::Exact("/api/system/processes/kill"), name: "kill_process", param: ParamKind::NoParam },
        RouteRule { method: Method::Post, path: PathRule::Exact("/api/desktop/abort"), name: "desktop_abort", param: ParamKind::NoParam },
        RouteRule { method: Method::Post, path: PathRule::Exact("/api/browser/navigate"), name: "browser_navigate", param: ParamKind::NoParam },
        RouteRule { method: Method::Post, path: PathRule::Exact("/api/browser/close"), name: "browser_close", param: ParamKind::NoParam },
        RouteRule { method: Method::Post, path: PathRule::Exact("/api/logs/frontend"), name: "frontend_logs", param: ParamKind::NoParam },
        RouteRule { method: Method::Post, path: PathRule::Exact("/api/errors"), name: "record_app_error", param: ParamKind::NoParam },
        RouteRule { method: Method::Get, path: PathRule::Exact("/api/errors"), name: "get_app_errors", param: ParamKind::NoParam },
        RouteRule { method: Method::Delete, path: PathRule::Exact("/api/errors"), name: "clear_app_errors", param: ParamKind::NoParam },
        RouteRule { method: Method::Post, path: PathRule::Exact("/api/chat"), name: "chat", param: ParamKind::NoParam },
        RouteRule { method: Method::Post, path: PathRule::Exact("/api/chat/stream"), name: "chat_stream", param: ParamKind::NoParam },
        RouteRule { method: Method::Post, path: PathRule::Exact("/api/chat/cancel"), name: "chat_cancel", param: ParamKind::NoParam },
        RouteRule { method: Method::Get, path: PathRule::Exact("/ws/chat/stream"), name: "ws_chat_stream", param: ParamKind::NoParam },
    ]
}

/// Rules 19 to 36 of the route table.
pub open spec fn route_part1() -> Seq<RouteRule> {
    seq![
        RouteRule { method: Method::Get, path: PathRule::Prefix("/ws/conversation/watch/"), name: "ws_conversation_watch", param: ParamKind::WholePath },
        RouteRule { method: Method::Get, path: PathRule::Exact("/ws/status"), name: "ws_status", param: ParamKind::NoParam },
        RouteRule { method: Method::Get, path: PathRule::Exact("/api/config"), name: "get_config", param: ParamKind::NoParam },
        RouteRule { method: Method::Post, path: PathRule::Exact("/api/config"), name: "post_config", param: ParamKind::NoParam },
        RouteRule { method: Method::Get, path: PathRule::Exact("/api/config/provider-keys"), name: "get_provider_keys", param: ParamKind::NoParam },
        RouteRule { method: Method::Post, path: PathRule::Exact("/api/config/provider-keys"), name: "set_provider_key", param: ParamKind::NoParam },
        RouteRule { method: Method::Get, path: PathRule::Exact("/api/config/active-provider"), name: "get_active_provider", param: ParamKind::NoParam },
        RouteRule { method: Method::Post, path: PathRule::Exact("/api/config/active-provider"), name: "set_active_provider", param: ParamKind::NoParam },
        RouteRule { method: Method::Get, path: PathRule::Between("/api/conversations/", "/config"), name: "conversation_config", param: ParamKind::WholePath },
        RouteRule { method: Method::Get, path: PathRule::Between("/api/conversations/", "/events"), name: "conversation_events", param: ParamKind::WholePath },
        RouteRule { method: Method::Get, path: PathRule::Between("/api/conversations/", "/token-analysis"), name: "conversation_token_analysis", param: ParamKind::Middle },
        RouteRule { method: Method::Get, path: PathRule::Between("/api/conversations/", "/metrics"), name: "conversation_metrics", param: ParamKind::WholePath },
        RouteRule { method: Method::Post, path: PathRule::Between("/api/conversations/", "/truncate"), name: "truncate_conversation", param: ParamKind::WholePath },
        RouteRule { method: Method::Post, path: PathRule::Between("/api/conversations/", "/compact"), name: "compact_conversation", param: ParamKind::Middle },
        RouteRule { method: Method::Patch, path: PathRule::Between("/api/conversations/", "/summary"), name: "update_summary", param: ParamKind::Middle },
        RouteRule { method: Method::Delete, path: PathRule::Between("/api/conversations/", "/summary"), name: "delete_summary", param: ParamKind::Middle },
        RouteRule { method: Method::Patch, path: PathRule::Between("/api/conversations/", "/title"), name: "rename_conversation", param: ParamKind::Middle },
        RouteRule { method: Method::Get, path: PathRule::Between("/api/conversation/", "/export"), name: "export_conversation", param: ParamKind::Middle },
    ]
}

/// Rules 37 to 54 of the route table.
pub open spec fn route_part2() -> Seq<RouteRule> {
    seq![
        RouteRule { method: Method::Post, path: PathRule::Between("/api/conversation/", "/queue"), name: "queue_message", param: ParamKind::Middle },
        RouteRule { method: Method::Get, path: PathRule::Prefix("/api/conversation/"), name: "get_conversation", param: ParamKind::WholePath },
        RouteRule { method: Method::Get, path: PathRule::Exact("/api/conversations"), name: "list_conversations", param: ParamKind::NoParam },
        RouteRule { method: Method::Post, path: PathRule::Exact("/api/conversations"), name: "create_conversation", param: ParamKind::NoParam },
        RouteRule { method: Method::Patch, path: PathRule::Between("/api/conversations/", "/worker"), name: "patch_conversation_worker", param: ParamKind::Middle },
        RouteRule { method: Method::Delete, path: PathRule::Exact("/api/conversations/batch"), name: "batch_delete_conversations", param: ParamKind::NoParam },
        RouteRule { method: Method::Delete, path: PathRule::Prefix("/api/conversations/"), name: "delete_conversation", param: ParamKind::WholePath },
        RouteRule { method: Method::Get, path: PathRule::Exact("/api/providers"), name: "list_providers", param: ParamKind::NoParam },
        RouteRule { method: Method::Get, path: PathRule::Exact("/api/providers/configured"), name: "list_configured_providers", param: ParamKind::NoParam },
        RouteRule { method: Method::Get, path: PathRule::Exact("/api/providers/cli-status"), name: "list_cli_providers", param: ParamKind::NoParam },
        RouteRule { method: Method::Get, path: PathRule::Between("/api/providers/", "/models"), name: "provider_models", param: ParamKind::Trimmed },
        RouteRule { method: Method::Post, path: PathRule::Between("/api/providers/", "/stream"), name: "provider_stream", param: ParamKind::Trimmed },
        RouteRule { method: Method::Post, path: PathRule::Between("/api/providers/", "/generate"), name: "provider_generate", param: ParamKind::Trimmed },
        RouteRule { method: Method::Get, path: PathRule::Exact("/api/workers"), name: "list_workers", param: ParamKind::NoParam },
        RouteRule { method: Method::Post, path: PathRule::Exact("/api/workers"), name: "create_worker", param: ParamKind::NoParam },
        RouteRule { method: Method::Get, path: PathRule::Between("/api/workers/", "/status"), name: "worker_status", param: ParamKind::MiddleTrimmed },
        RouteRule { method: Method::Delete, path: PathRule::Prefix("/api/workers/"), name: "delete_worker", param: ParamKind::Rest },
        RouteRule { method: Method::Get, path: PathRule::Exact("/api/model/info"), name: "model_info", param: ParamKind::NoParam },
    ]
}

/// Rules 55 to 72 of the route table.
pub open spec fn route_part3() -> Seq<RouteRule> {
    seq![
        RouteRule { method: Method::Get, path: PathRule::Exact("/api/model/status"), name: "model_status", param: ParamKind::NoParam },
        RouteRule { method: Method::Get, path: PathRule::Exact("/api/model/history"), name: "get_model_history", param: ParamKind::NoParam },
        RouteRule { method: Method::Post, path: PathRule::Exact("/api/model/history"), name: "post_model_history", param: ParamKind::NoParam },
        RouteRule { method: Method::Post, path: PathRule::Exact("/api/model/load"), name: "model_load", param: ParamKind::NoParam },
        RouteRule { method: Method::Post, path: PathRule::Exact("/api/model/unload"), name: "model_unload", param: ParamKind::NoParam },
        RouteRule { method: Method::Post, path: PathRule::Exact("/api/model/hard-unload"), name: "model_hard_unload", param: ParamKind::NoParam },
        RouteRule { method: Method::Get, path: PathRule::Exact("/api/backends"), name: "get_backends", param: ParamKind::NoParam },
        RouteRule { method: Method::Post, path: PathRule::Exact("/api/backends/install"), name: "install_backends", param: ParamKind::NoParam },
        RouteRule { method: Method::Get, path: PathRule::Exact("/api/hub/search"), name: "hub_search", param: ParamKind::NoParam },
        RouteRule { method: Method::Get, path: PathRule::Exact("/api/hub/tree"), name: "hub_tree", param: ParamKind::NoParam },
        RouteRule { method: Method::Post, path: PathRule::Exact("/api/hub/download"), name: "hub_download", param: ParamKind::NoParam },
        RouteRule { method: Method::Get, path: PathRule::Exact("/api/hub/downloads"), name: "get_downloads", param: ParamKind::NoParam },
        RouteRule { method: Method::Delete, path: PathRule::Exact("/api/hub/downloads"), name: "delete_download", param: ParamKind::NoParam },
        RouteRule { method: Method::Post, path: PathRule::Exact("/api/hub/downloads/verify"), name: "verify_downloads", param: ParamKind::NoParam },
        RouteRule { method: Method::Get, path: PathRule::Exact("/api/mcp/servers"), name: "list_mcp_servers", param: ParamKind::NoParam },
        RouteRule { method: Method::Post, path: PathRule::Exact("/api/mcp/servers"), name: "save_mcp_server", param: ParamKind::NoParam },
        RouteRule { method: Method::Delete, path: PathRule::Prefix("/api/mcp/servers/"), name: "delete_mcp_server", param: ParamKind::Rest },
        RouteRule { method: Method::Post, path: PathRule::Between("/api/mcp/servers/", "/toggle"), name: "toggle_mcp_server", param: ParamKind::Middle },
    ]
}

/// Rules 73 to 90 of the route table.
pub open spec fn route_part4() -> Seq<RouteRule> {
    seq![
        RouteRule { method: Method::Post, path: PathRule::Exact("/api/mcp/refresh"), name: "refresh_mcp", param: ParamKind::NoParam },
        RouteRule { method: Method::Get, path: PathRule::Exact("/api/mcp/tools"), name: "list_mcp_tools", param: ParamKind::NoParam },
        RouteRule { method: Method::Get, path: PathRule::Exact("/api/agents"), name: "list_agents", param: ParamKind::NoParam },
        RouteRule { method: Method::Post, path: PathRule::Exact("/api/agents"), name: "create_agent", param: ParamKind::NoParam },
        RouteRule { method: Method::Get, path: PathRule::Exact("/api/agents/statuses"), name: "agent_statuses", param: ParamKind::NoParam },
        RouteRule { method: Method::Get, path: PathRule::Prefix("/api/agents/"), name: "get_agent", param: ParamKind::Rest },
        RouteRule { method: Method::Put, path: PathRule::Prefix("/api/agents/"), name: "update_agent", param: ParamKind::Rest },
        RouteRule { method: Method::Delete, path: PathRule::Prefix("/api/agents/"), name: "delete_agent", param: ParamKind::Rest },
        RouteRule { method: Method::Post, path: PathRule::Between("/api/agents/", "/activate"), name: "activate_agent", param: ParamKind::Middle },
        RouteRule { method: Method::Post, path: PathRule::Between("/api/agents/", "/stop"), name: "stop_agent", param: ParamKind::Middle },
        RouteRule { method: Method::Get, path: PathRule::Between("/api/conversations/", "/agent"), name: "get_conversation_agent", param: ParamKind::Middle },
        RouteRule { method: Method::Post, path: PathRule::Between("/api/conversations/", "/agent"), name: "set_conversation_agent", param: ParamKind::Middle },
        RouteRule { method: Method::Get, path: PathRule::Exact("/api/browse"), name: "browse", param: ParamKind::NoParam },
        RouteRule { method: Method::Post, path: PathRule::Exact("/api/browse/pick-directory"), name: "pick_directory", param: ParamKind::NoParam },
        RouteRule { method: Method::Post, path: PathRule::Exact("/api/browse/pick-file"), name: "pick_file", param: ParamKind::NoParam },
        RouteRule { method: Method::Post, path: PathRule::Exact("/api/upload"), name: "upload", param: ParamKind::NoParam },
        RouteRule { method: Method::Get, path: PathRule::Exact("/api/tools/available"), name: "available_tools", param: ParamKind::NoParam },
        RouteRule { method: Method::Post, path: PathRule::Exact("/api/tools/execute"), name: "execute_tool", param: ParamKind::NoParam },
    ]
}

/// Rules 91 to 106 of the route table.
pub open spec fn route_part5() -> Seq<RouteRule> {
    seq![
        RouteRule { method: Method::Get, path: PathRule::Exact("/api/tools/web-fetch"), name: "web_fetch", param: ParamKind::NoParam },
        RouteRule { method: Method::Post, path: PathRule::Exact("/api/file/extract-text"), name: "extract_text", param: ParamKind::NoParam },
        RouteRule { method: Method::Get, path: PathRule::Prefix("/api/images/"), name: "image", param: ParamKind::Rest },
        RouteRule { method: Method::Get, path: PathRule::Between("/api/conversations/", "/heartbeat"), name: "get_heartbeat", param: ParamKind::Middle },
        RouteRule { method: Method::Post, path: PathRule::Between("/api/conversations/", "/heartbeat"), name: "post_heartbeat", param: ParamKind::Middle },
        RouteRule { method: Method::Post, path: PathRule::Between("/api/conversations/", "/heartbeat/fire"), name: "fire_heartbeat", param: ParamKind::Middle },
        RouteRule { method: Method::Post, path: PathRule::Between("/api/conversations/", "/heartbeat/clear"), name: "clear_heartbeat", param: ParamKind::Middle },
        RouteRule { method: Method::Get, path: PathRule::Exact("/api/remote/status"), name: "remote_status", param: ParamKind::NoParam },
        RouteRule { method: Method::Post, path: PathRule::Exact("/api/remote/upnp/enable"), name: "upnp_enable", param: ParamKind::NoParam },
        RouteRule { method: Method::Post, path: PathRule::Exact("/api/remote/upnp/disable"), name: "upnp_disable", param: ParamKind::NoParam },
        RouteRule { method: Method::Post, path: PathRule::Exact("/api/remote/token/regenerate"), name: "regenerate_token", param: ParamKind::NoParam },
        RouteRule { method: Method::Get, path: PathRule::Exact("/v1/models"), name: "openai_models", param: ParamKind::NoParam },
        RouteRule { method: Method::Post, path: PathRule::Exact("/v1/chat/completions"), name: "openai_chat_completions", param: ParamKind::NoParam },
        RouteRule { method: Method::Options, path: PathRule::AnyPath, name: "options", param: ParamKind::NoParam },
        RouteRule { method: Method::Get, path: PathRule::Exact("/"), name: "index", param: ParamKind::NoParam },
        RouteRule { method: Method::Get, path: PathRule::StaticAsset, name: "static_asset", param: ParamKind::WholePath },
    ]
}

fn route_rules0() -> (t: Vec<RouteRule>)
    ensures
        t@ == route_part0(),
{
    let mut t: Vec<RouteRule> = Vec::new();
    t.push(RouteRule { method: Method::Get, path: PathRule::Exact("/health"), name: "health", param: ParamKind::NoParam });
    t.push(RouteRule { method: Method::Get, path: PathRule::Exact("/api/info"), name: "app_info", param: ParamKind::NoParam });
    t.push(RouteRule { method: Method::Get, path: PathRule::Exact("/api/docs"), name: "api_docs", param: ParamKind::NoParam });
    t.push(RouteRule { method: Method::Get, path: PathRule::Exact("/api/system/usage"), name: "system_usage", param: ParamKind::NoParam });
    t.push(RouteRule { method: Method::Get, path: PathRule::Exact("/api/system/processes"), name: "background_processes", param: ParamKind::NoParam });
    t.push(RouteRule { method: Method::Get, path: PathRule::Between("/api/system/processes/", "/output"), name: "process_output", param: ParamKind::Middle });
    t.push(RouteRule { method: Method::Post, path: PathRule::Exact("/api/system/processes/kill"), name: "kill_process", param: ParamKind::NoParam });
    t.push(RouteRule { method: Method::Post, path: PathRule::Exact("/api/desktop/abort"), name: "desktop_abort", param: ParamKind::NoParam });
    t.push(RouteRule { method: Method::Post, path: PathRule::Exact("/api/browser/navigate"), name: "browser_navigate", param: ParamKind::NoParam });
    t.push(RouteRule { method: Method::Post, path: PathRule::Exact("/api/browser/close"), name: "browser_close", param: ParamKind::NoParam });
    t.push(RouteRule { method: Method::Post, path: PathRule::Exact("/api/logs/frontend"), name: "frontend_logs", param: ParamKind::NoParam });
    t.push(RouteRule { method: Method::Post, path: PathRule::Exact("/api/errors"), name: "record_app_error", param: ParamKind::NoParam });
    t.push(RouteRule { method: Method::Get, path: PathRule::Exact("/api/errors"), name: "get_app_errors", param: ParamKind::NoParam });
    t.push(RouteRule { method: Method::Delete, path: PathRule::Exact("/api/errors"), name: "clear_app_errors", param: ParamKind::NoParam });
    t.push(RouteRule { method: Method::Post, path: PathRule::Exact("/api/chat"), name: "chat", param: ParamKind::NoParam });
    t.push(RouteRule { method: Method::Post, path: PathRule::Exact("/api/chat/stream"), name: "chat_stream", param: ParamKind::NoParam });
    t.push(RouteRule { method: Method::Post, path: PathRule::Exact("/api/chat/cancel"), name: "chat_cancel", param: ParamKind::NoParam });
    t.push(RouteRule { method: Method::Get, path: PathRule::Exact("/ws/chat/stream"), name: "ws_chat_stream", param: ParamKind::NoParam });
    assert(t@ =~= route_part0());
    t
}

fn route_rules1() -> (t: Vec<RouteRule>)
    ensures
        t@ == route_part1(),
{
    let mut t: Vec<RouteRule> = Vec::new();
    t.push(RouteRule { method: Method::Get, path: PathRule::Prefix("/ws/conversation/watch/"), name: "ws_conversation_watch", param: ParamKind::WholePath });
    t.push(RouteRule { method: Method::Get, path: PathRule::Exact("/ws/status"), name: "ws_status", param: ParamKind::NoParam });
    t.push(RouteRule { method: Method::Get, path: PathRule::Exact("/api/config"), name: "get_config", param: ParamKind::NoParam });
    t.push(RouteRule { method: Method::Post, path: PathRule::Exact("/api/config"), name: "post_config", param: ParamKind::NoParam });
    t.push(RouteRule { method: Method::Get, path: PathRule::Exact("/api/config/provider-keys"), name: "get_provider_keys", param: ParamKind::NoParam });
    t.push(RouteRule { method: Method::Post, path: PathRule::Exact("/api/config/provider-keys"), name: "set_provider_key", param: ParamKind::NoParam });
    t.push(RouteRule { method: Method::Get, path: PathRule::Exact("/api/config/active-provider"), name: "get_active_provider", param: ParamKind::NoParam });
    t.push(RouteRule { method: Method::Post, path: PathRule::Exact("/api/config/active-provider"), name: "set_active_provider", param: ParamKind::NoParam });
    t.push(RouteRule { method: Method::Get, path: PathRule::Between("/api/conversations/", "/config"), name: "conversation_config", param: ParamKind::WholePath });
    t.push(RouteRule { method: Method::Get, path: PathRule::Between("/api/conversations/", "/events"), name: "conversation_events", param: ParamKind::WholePath });
    t.push(RouteRule { method: Method::Get, path: PathRule::Between("/api/conversations/", "/token-analysis"), name: "conversation_token_analysis", param: ParamKind::Middle });
    t.push(RouteRule { method: Method::Get, path: PathRule::Between("/api/conversations/", "/metrics"), name: "conversation_metrics", param: ParamKind::WholePath });
    t.push(RouteRule { method: Method::Post, path: PathRule::Between("/api/conversations/", "/truncate"), name: "truncate_conversation", param: ParamKind::WholePath });
    t.push(RouteRule { method: Method::Post, path: PathRule::Between("/api/conversations/", "/compact"), name: "compact_conversation", param: ParamKind::Middle });
    t.push(RouteRule { method: Method::Patch, path: PathRule::Between("/api/conversations/", "/summary"), name: "update_summary", param: ParamKind::Middle });
    t.push(RouteRule { method: Method::Delete, path: PathRule::Between("/api/conversations/", "/summary"), name: "delete_summary", param: ParamKind::Middle });
    t.push(RouteRule { method: Method::Patch, path: PathRule::Between("/api/conversations/", "/title"), name: "rename_conversation", param: ParamKind::Middle });
    t.push(RouteRule { method: Method::Get, path: PathRule::Between("/api/conversation/", "/export"), name: "export_conversation", param: ParamKind::Middle });
    assert(t@ =~= route_part1());
    t
}

fn route_rules2() -> (t: Vec<RouteRule>)
    ensures
        t@ == route_part2(),
{
    let mut t: Vec<RouteRule> = Vec::new();
    t.push(RouteRule { method: Method::Post, path: PathRule::Between("/api/conversation/", "/queue"), name: "queue_message", param: ParamKind::Middle });
    t.push(RouteRule { method: Method::Get, path: PathRule::Prefix("/api/conversation/"), name: "get_conversation", param: ParamKind::WholePath });
    t.push(RouteRule { method: Method::Get, path: PathRule::Exact("/api/conversations"), name: "list_conversations", param: ParamKind::NoParam });
    t.push(RouteRule { method: Method::Post, path: PathRule::Exact("/api/conversations"), name: "create_conversation", param: ParamKind::NoParam });
    t.push(RouteRule { method: Method::Patch, path: PathRule::Between("/api/conversations/", "/worker"), name: "patch_conversation_worker", param: ParamKind::Middle });
    t.push(RouteRule { method: Method::Delete, path: PathRule::Exact("/api/conversations/batch"), name: "batch_delete_conversations", param: ParamKind::NoParam });
    t.push(RouteRule { method: Method::Delete, path: PathRule::Prefix("/api/conversations/"), name: "delete_conversation", param: ParamKind::WholePath });
    t.push(RouteRule { method: Method::Get, path: PathRule::Exact("/api/providers"), name: "list_providers", param: ParamKind::NoParam });
    t.push(RouteRule { method: Method::Get, path: PathRule::Exact("/api/providers/configured"), name: "list_configured_providers", param: ParamKind::NoParam });
    t.push(RouteRule { method: Method::Get, path: PathRule::Exact("/api/providers/cli-status"), name: "list_cli_providers", param: ParamKind::NoParam });
    t.push(RouteRule { method: Method::Get, path: PathRule::Between("/api/providers/", "/models"), name: "provider_models", param: ParamKind::Trimmed });
    t.push(RouteRule { method: Method::Post, path: PathRule::Between("/api/providers/", "/stream"), name: "provider_stream", param: ParamKind::Trimmed });
    t.push(RouteRule { method: Method::Post, path: PathRule::Between("/api/providers/", "/generate"), name: "provider_generate", param: ParamKind::Trimmed });
    t.push(RouteRule { method: Method::Get, path: PathRule::Exact("/api/workers"), name: "list_workers", param: ParamKind::NoParam });
    t.push(RouteRule { method: Method::Post, path: PathRule::Exact("/api/workers"), name: "create_worker", param: ParamKind::NoParam });
    t.push(RouteRule { method: Method::Get, path: PathRule::Between("/api/workers/", "/status"), name: "worker_status", param: ParamKind::MiddleTrimmed });
    t.push(RouteRule { method: Method::Delete, path: PathRule::Prefix("/api/workers/"), name: "delete_worker", param: ParamKind::Rest });
    t.push(RouteRule { method: Method::Get, path: PathRule::Exact("/api/model/info"), name: "model_info", param: ParamKind::NoParam });
    assert(t@ =~= route_part2());
    t
}

fn route_rules3() -> (t: Vec<RouteRule>)
    ensures
        t@ == route_part3(),
{
    let mut t: Vec<RouteRule> = Vec::new();
    t.push(RouteRule { method: Method::Get, path: PathRule::Exact("/api/model/status"), name: "model_status", param: ParamKind::NoParam });
    t.push(RouteRule { method: Method::Get, path: PathRule::Exact("/api/model/history"), name: "get_model_history", param: ParamKind::NoParam });
    t.push(RouteRule { method: Method::Post, path: PathRule::Exact("/api/model/history"), name: "post_model_history", param: ParamKind::NoParam });
    t.push(RouteRule { method: Method::Post, path: PathRule::Exact("/api/model/load"), name: "model_load", param: ParamKind::NoParam });
    t.push(RouteRule { method: Method::Post, path: PathRule::Exact("/api/model/unload"), name: "model_unload", param: ParamKind::NoParam });
    t.push(RouteRule { method: Method::Post, path: PathRule::Exact("/api/model/hard-unload"), name: "model_hard_unload", param: ParamKind::NoParam });
    t.push(RouteRule { method: Method::Get, path: PathRule::Exact("/api/backends"), name: "get_backends", param: ParamKind::NoParam });
    t.push(RouteRule { method: Method::Post, path: PathRule::Exact("/api/backends/install"), name: "install_backends", param: ParamKind::NoParam });
    t.push(RouteRule { method: Method::Get, path: PathRule::Exact("/api/hub/search"), name: "hub_search", param: ParamKind::NoParam });
    t.push(RouteRule { method: Method::Get, path: PathRule::Exact("/api/hub/tree"), name: "hub_tree", param: ParamKind::NoParam });
    t.push(RouteRule { method: Method::Post, path: PathRule::Exact("/api/hub/download"), name: "hub_download", param: ParamKind::NoParam });
    t.push(RouteRule { method: Method::Get, path: PathRule::Exact("/api/hub/downloads"), name: "get_downloads", param: ParamKind::NoParam });
    t.push(RouteRule { method: Method::Delete, path: PathRule::Exact("/api/hub/downloads"), name: "delete_download", param: ParamKind::NoParam });
    t.push(RouteRule { method: Method::Post, path: PathRule::Exact("/api/hub/downloads/verify"), name: "verify_downloads", param: ParamKind::NoParam });
    t.push(RouteRule { method: Method::Get, path: PathRule::Exact("/api/mcp/servers"), name: "list_mcp_servers", param: ParamKind::NoParam });
    t.push(RouteRule { method: Method::Post, path: PathRule::Exact("/api/mcp/servers"), name: "save_mcp_server", param: ParamKind::NoParam });
    t.push(RouteRule { method: Method::Delete, path: PathRule::Prefix("/api/mcp/servers/"), name: "delete_mcp_server", param: ParamKind::Rest });
    t.push(RouteRule { method: Method::Post, path: PathRule::Between("/api/mcp/servers/", "/toggle"), name: "toggle_mcp_server", param: ParamKind::Middle });
    assert(t@ =~= route_part3());
    t
}

fn route_rules4() -> (t: Vec<RouteRule>)
    ensures
        t@ == route_part4(),
{
    let mut t: Vec<RouteRule> = Vec::new();
    t.push(RouteRule { method: Method::Post, path: PathRule::Exact("/api/mcp/refresh"), name: "refresh_mcp", param: ParamKind::NoParam });
    t.push(RouteRule { method: Method::Get, path: PathRule::Exact("/api/mcp/tools"), name: "list_mcp_tools", param: ParamKind::NoParam });
    t.push(RouteRule { method: Method::Get, path: PathRule::Exact("/api/agents"), name: "list_agents", param: ParamKind::NoParam });
    t.push(RouteRule { method: Method::Post, path: PathRule::Exact("/api/agents"), name: "create_agent", param: ParamKind::NoParam });
    t.push(RouteRule { method: Method::Get, path: PathRule::Exact("/api/agents/statuses"), name: "agent_statuses", param: ParamKind::NoParam });
    t.push(RouteRule { method: Method::Get, path: PathRule::Prefix("/api/agents/"), name: "get_agent", param: ParamKind::Rest });
    t.push(RouteRule { method: Method::Put, path: PathRule::Prefix("/api/agents/"), name: "update_agent", param: ParamKind::Rest });
    t.push(RouteRule { method: Method::Delete, path: PathRule::Prefix("/api/agents/"), name: "delete_agent", param: ParamKind::Rest });
    t.push(RouteRule { method: Method::Post, path: PathRule::Between("/api/agents/", "/activate"), name: "activate_agent", param: ParamKind::Middle });
    t.push(RouteRule { method: Method::Post, path: PathRule::Between("/api/agents/", "/stop"), name: "stop_agent", param: ParamKind::Middle });
    t.push(RouteRule { method: Method::Get, path: PathRule::Between("/api/conversations/", "/agent"), name: "get_conversation_agent", param: ParamKind::Middle });
    t.push(RouteRule { method: Method::Post, path: PathRule::Between("/api/conversations/", "/agent"), name: "set_conversation_agent", param: ParamKind::Middle });
    t.push(RouteRule { method: Method::Get, path: PathRule::Exact("/api/browse"), name: "browse", param: ParamKind::NoParam });
    t.push(RouteRule { method: Method::Post, path: PathRule::Exact("/api/browse/pick-directory"), name: "pick_directory", param: ParamKind::NoParam });
    t.push(RouteRule { method: Method::Post, path: PathRule::Exact("/api/browse/pick-file"), name: "pick_file", param: ParamKind::NoParam });
    t.push(RouteRule { method: Method::Post, path: PathRule::Exact("/api/upload"), name: "upload", param: ParamKind::NoParam });
    t.push(RouteRule { method: Method::Get, path: PathRule::Exact("/api/tools/available"), name: "available_tools", param: ParamKind::NoParam });
    t.push(RouteRule { method: Method::Post, path: PathRule::Exact("/api/tools/execute"), name: "execute_tool", param: ParamKind::NoParam });
    assert(t@ =~= route_part4());
    t
}

fn route_rules5() -> (t: Vec<RouteRule>)
    ensures
        t@ == route_part5(),
{
    let mut t: Vec<RouteRule> = Vec::new();
    t.push(RouteRule { method: Method::Get, path: PathRule::Exact("/api/tools/web-fetch"), name: "web_fetch", param: ParamKind::NoParam });
    t.push(RouteRule { method: Method::Post, path: PathRule::Exact("/api/file/extract-text"), name: "extract_text", param: ParamKind::NoParam });
    t.push(RouteRule { method: Method::Get, path: PathRule::Prefix("/api/images/"), name: "image", param: ParamKind::Rest });
    t.push(RouteRule { method: Method::Get, path: PathRule::Between("/api/conversations/", "/heartbeat"), name: "get_heartbeat", param: ParamKind::Middle });
    t.push(RouteRule { method: Method::Post, path: PathRule::Between("/api/conversations/", "/heartbeat"), name: "post_heartbeat", param: ParamKind::Middle });
    t.push(RouteRule { method: Method::Post, path: PathRule::Between("/api/conversations/", "/heartbeat/fire"), name: "fire_heartbeat", param: ParamKind::Middle });
    t.push(RouteRule { method: Method::Post, path: PathRule::Between("/api/conversations/", "/heartbeat/clear"), name: "clear_heartbeat", param: ParamKind::Middle });
    t.push(RouteRule { method: Method::Get, path: PathRule::Exact("/api/remote/status"), name: "remote_status", param: ParamKind::NoParam });
    t.push(RouteRule { method: Method::Post, path: PathRule::Exact("/api/remote/upnp/enable"), name: "upnp_enable", param: ParamKind::NoParam });
    t.push(RouteRule { method: Method::Post, path: PathRule::Exact("/api/remote/upnp/disable"), name: "upnp_disable", param: ParamKind::NoParam });
    t.push(RouteRule { method: Method::Post, path: PathRule::Exact("/api/remote/token/regenerate"), name: "regenerate_token", param: ParamKind::NoParam });
    t.push(RouteRule { method: Method::Get, path: PathRule::Exact("/v1/models"), name: "openai_models", param: ParamKind::NoParam });
    t.push(RouteRule { method: Method::Post, path: PathRule::Exact("/v1/chat/completions"), name: "openai_chat_completions", param: ParamKind::NoParam });
    t.push(RouteRule { method: Method::Options, path: PathRule::AnyPath, name: "options", param: ParamKind::NoParam });
    t.push(RouteRule { method: Method::Get, path: PathRule::Exact("/"), name: "index", param: ParamKind::NoParam });
    t.push(RouteRule { method: Method::Get, path: PathRule::StaticAsset, name: "static_asset", param: ParamKind::WholePath });
    assert(t@ =~= route_part5());
    t
}

/// The route table, built.
fn route_rules() -> (t: Vec<RouteRule>)
    ensures
        t@ == route_table(),
{
    let mut t = route_rules0();
    let mut p1 = route_rules1();
    t.append(&mut p1);
    let mut p2 = route_rules2();
    t.append(&mut p2);
    let mut p3 = route_rules3();
    t.append(&mut p3);
    let mut p4 = route_rules4();
    t.append(&mut p4);
    let mut p5 = route_rules5();
    t.append(&mut p5);
    t
}

/// A static file path.
pub open spec fn is_static_asset(path: Seq<char>) -> bool {
    starts_with(path, "/assets/"@) || ends_with(path, ".svg"@) || ends_with(path, ".ico"@)
        || ends_with(path, ".png"@)
}

/// Does a path rule match `path`?
pub open spec fn path_matches(rule: PathRule, path: Seq<char>) -> bool {
    match rule {
        PathRule::Exact(p) => path == p@,
        PathRule::Prefix(p) => starts_with(path, p@),
        PathRule::Between(p, s) => starts_with(path, p@) && ends_with(path, s@),
        PathRule::AnyPath => true,
        PathRule::StaticAsset => is_static_asset(path),
    }
}

/// Does a rule match a request?
pub open spec fn rule_matches(r: RouteRule, method: Method, path: Seq<char>) -> bool {
    r.method == method && path_matches(r.path, path)
}

/// The first rule, from `k` on, that matches a request.
pub open spec fn first_rule_from(method: Method, path: Seq<char>, k: int) -> Option<int>
    decreases route_table().len() - k,
{
    if k < 0 || k >= route_table().len() {
        None
    } else if rule_matches(route_table()[k], method, path) {
        Some(k)
    } else {
        first_rule_from(method, path, k + 1)
    }
}

/// The rule found for a request matches it.
pub proof fn lemma_first_rule(method: Method, path: Seq<char>, k: int)
    requires
        0 <= k,
    ensures
        first_rule_from(method, path, k) matches Some(i) ==> k <= i < route_table().len()
            && rule_matches(route_table()[i], method, path),
    decreases route_table().len() - k,
{
    if k < route_table().len() && !rule_matches(route_table()[k], method, path) {
        lemma_first_rule(method, path, k + 1);
    }
}

/// `s` with prefix `p` removed as often as it begins it.
pub open spec fn trim_prefix_all(s: Seq<char>, p: Seq<char>) -> Seq<char>
    decreases s.len(),
{
    if p.len() > 0 && starts_with(s, p) {
        trim_prefix_all(s.skip(p.len() as int), p)
    } else {
        s
    }
}

/// `s` with suffix `p` removed as often as it ends it.
pub open spec fn trim_suffix_all(s: Seq<char>, p: Seq<char>) -> Seq<char>
    decreases s.len(),
{
    if p.len() > 0 && ends_with(s, p) {
        trim_suffix_all(s.take(s.len() - p.len()), p)
    } else {
        s
    }
}

/// The text between a rule's prefix and suffix.
pub open spec fn middle(path: Seq<char>, p: Seq<char>, s: Seq<char>) -> Seq<char> {
    path.subrange(p.len() as int, path.len() - s.len())
}

/// The part of `path` that rule `r` hands to its handler.
pub open spec fn param_spec(r: RouteRule, path: Seq<char>) -> Option<Seq<char>> {
    match r.param {
        ParamKind::NoParam => None,
        ParamKind::WholePath => Some(path),
        ParamKind::Middle => match r.path {
            PathRule::Between(p, s) => Some(middle(path, p@, s@)),
            _ => None,
        },
        ParamKind::MiddleTrimmed => match r.path {
            PathRule::Between(p, s) => Some(trim_suffix_all(middle(path, p@, s@), seq!['/'])),
            _ => None,
        },
        ParamKind::Rest => match r.path {
            PathRule::Prefix(p) => Some(path.skip(p@.len() as int)),
            _ => None,
        },
        ParamKind::Trimmed => match r.path {
            PathRule::Between(p, s) => Some(
                trim_suffix_all(trim_suffix_all(trim_prefix_all(path, p@), s@), seq!['/']),
            ),
            _ => None,
        },
    }
}

/// The handler chosen for a request (`not_found` where no rule matches) and
/// the part of the path it takes.
pub open spec fn route_spec(method: Method, path: Seq<char>) -> (Seq<char>, Option<Seq<char>>) {
    match first_rule_from(method, path, 0) {
        Some(k) => (route_table()[k].name@, param_spec(route_table()[k], path)),
        None => ("not_found"@, None),
    }
}

/// The rule that matches a request takes its middle text from a path long
/// enough to hold both its prefix and its suffix (the server cuts the text
/// out, and fails on a shorter path, such as a prefix and suffix that
/// overlap).
pub open spec fn route_in_range(method: Method, path: Seq<char>) -> bool {
    match first_rule_from(method, path, 0) {
        Some(k) => match (route_table()[k].param, route_table()[k].path) {
            (ParamKind::Middle, PathRule::Between(p, s)) => p@.len() + s@.len() <= path.len(),
            (ParamKind::MiddleTrimmed, PathRule::Between(p, s)) => p@.len() + s@.len() <= path.len(),
            _ => true,
        },
        None => true,
    }
}

/// Does a path rule match?
fn path_matches_exec(rule: PathRule, path: &Vec<char>) -> (r: bool)
    ensures
        r == path_matches(rule, path@),
{
    match rule {
        PathRule::Exact(p) => slices_equal(path, &chars_of(p)),
        PathRule::Prefix(p) => starts_with_exec(path, &chars_of(p)),
        PathRule::Between(p, s) => starts_with_exec(path, &chars_of(p)) && ends_with_exec(
            path,
            &chars_of(s),
        ),
        PathRule::AnyPath => true,
        PathRule::StaticAsset => starts_with_exec(path, &chars_of("/assets/")) || ends_with_exec(
            path,
            &chars_of(".svg"),
        ) || ends_with_exec(path, &chars_of(".ico")) || ends_with_exec(path, &chars_of(".png")),
    }
}

/// The position of the rule that matches a request.
fn find_rule(table: &Vec<RouteRule>, method: Method, path: &Vec<char>) -> (r: Option<usize>)
    requires
        table@ == route_table(),
    ensures
        match r {
            Some(k) => first_rule_from(method, path@, 0) == Some(k as int) && k < table.len(),
            None => first_rule_from(method, path@, 0) is None,
        },
{
    let mut k: usize = 0;
    while k < table.len()
        invariant
            k <= table.len(),
            table@ == route_table(),
            first_rule_from(method, path@, 0) == first_rule_from(method, path@, k as int),
        decreases table.len() - k,
    {
        let rule = table[k];
        if rule.method == method && path_matches_exec(rule.path, path) {
            return Some(k);
        }
        k += 1;
    }
    None
}

/// `s` with prefix `p` removed as often as it begins it.
fn trim_prefix_exec(s: &Vec<char>, p: &Vec<char>) -> (r: Vec<char>)
    ensures
        r@ == trim_prefix_all(s@, p@),
{
    let mut cur = slice_of(s, 0, s.len());
    assert(cur@ =~= s@);
    if p.len() == 0 {
        return cur;
    }
    while starts_with_exec(&cur, p)
        invariant
            p@.len() > 0,
            trim_prefix_all(cur@, p@) == trim_prefix_all(s@, p@),
        decreases cur.len(),
    {
        let n = cur.len();
        let ghost before = cur@;
        cur = slice_of(&cur, p.len(), n);
        assert(cur@ == before.skip(p@.len() as int));
    }
    cur
}

/// `s` with suffix `p` removed as often as it ends it.
fn trim_suffix_exec(s: &Vec<char>, p: &Vec<char>) -> (r: Vec<char>)
    ensures
        r@ == trim_suffix_all(s@, p@),
{
    let mut cur = slice_of(s, 0, s.len());
    assert(cur@ =~= s@);
    if p.len() == 0 {
        return cur;
    }
    while ends_with_exec(&cur, p)
        invariant
            p@.len() > 0,
            trim_suffix_all(cur@, p@) == trim_suffix_all(s@, p@),
        decreases cur.len(),
    {
        let n = cur.len();
        let ghost before = cur@;
        cur = slice_of(&cur, 0, n - p.len());
        assert(cur@ == before.take(n - p@.len()));
    }
    cur
}

/// The part of the path that a rule hands to its handler.
fn param_of(rule: RouteRule, path: &Vec<char>) -> (r: Option<String>)
    requires
        path_matches(rule.path, path@),
        rule.param is Middle || rule.param is MiddleTrimmed ==> (rule.path matches PathRule::Between(
            p,
            s,
        ) ==> p@.len() + s@.len() <= path@.len()),
    ensures
        crate::gguf_utils::opt_text(r) == param_spec(rule, path@),
{
    match rule.param {
        ParamKind::NoParam => None,
        ParamKind::WholePath => Some(string_from(path)),
        ParamKind::Middle => match rule.path {
            PathRule::Between(p, s) => {
                let a = chars_of(p).len();
                let b = chars_of(s).len();
                Some(string_from(&slice_of(path, a, path.len() - b)))
            },
            _ => None,
        },
        ParamKind::MiddleTrimmed => match rule.path {
            PathRule::Between(p, s) => {
                let a = chars_of(p).len();
                let b = chars_of(s).len();
                let mid = slice_of(path, a, path.len() - b);
                Some(string_from(&trim_suffix_exec(&mid, &crate::text::single('/'))))
            },
            _ => None,
        },
        ParamKind::Rest => match rule.path {
            PathRule::Prefix(p) => {
                let a = chars_of(p).len();
                let rest = slice_of(path, a, path.len());
                assert(rest@ == path@.skip(p@.len() as int));
                Some(string_from(&rest))
            },
            _ => None,
        },
        ParamKind::Trimmed => match rule.path {
            PathRule::Between(p, s) => {
                let t1 = trim_prefix_exec(path, &chars_of(p));
                let t2 = trim_suffix_exec(&t1, &chars_of(s));
                Some(string_from(&trim_suffix_exec(&t2, &crate::text::single('/'))))
            },
            _ => None,
        },
    }
}

/// Does the path hold the matching rule's prefix and suffix apart (see
/// `route_in_range`)?
pub fn route_param_in_range(method: Method, path: &str) -> (r: bool)
    ensures
        r == route_in_range(method, path@),
{
    let table = route_rules();
    let p = chars_of(path);
    match find_rule(&table, method, &p) {
        Some(k) => {
            let rule = table[k];
            match (rule.param, rule.path) {
                (ParamKind::Middle, PathRule::Between(a, b)) => chars_of(a).len() <= p.len()
                    && chars_of(b).len() <= p.len() - chars_of(a).len(),
                (ParamKind::MiddleTrimmed, PathRule::Between(a, b)) => chars_of(a).len() <= p.len()
                    && chars_of(b).len() <= p.len() - chars_of(a).len(),
                _ => true,
            }
        },
        None => true,
    }
}

/// The handler for a request, and the part of its path that the handler
/// takes (`not_found` where no rule matches).
pub fn route(method: Method, path: &str) -> (r: Route)
    requires
        route_in_range(method, path@),
    ensures
        (r.name@, crate::gguf_utils::opt_text(r.param)) == route_spec(method, path@),
{
    let table = route_rules();
    let p = chars_of(path);
    match find_rule(&table, method, &p) {
        Some(k) => {
            proof {
                lemma_first_rule(method, path@, 0);
            }
            let rule = table[k];
            Route { name: rule.name, param: param_of(rule, &p) }
        },
        None => Route { name: "not_found", param: None },
    }
}

/// Is `path` a static image by its extension (`.svg`, `.ico`, `.png`),
/// outside the API?
pub open spec fn is_static_image(path: Seq<char>) -> bool {
    !starts_with(path, "/api/"@) && (ends_with(path, ".svg"@) || ends_with(path, ".ico"@) || ends_with(
        path,
        ".png"@,
    ))
}

/// Requests that need no token: the health check, the remote status,
/// static files (assets, and images outside the API), the index page, CORS
/// preflights and WebSocket upgrades. No other API path is exempt.
pub open spec fn auth_exempt_spec(method: Method, path: Seq<char>) -> bool {
    path == "/health"@ || path == "/api/remote/status"@ || starts_with(path, "/assets/"@) || is_static_image(
        path,
    ) || path == "/"@ || method == Method::Options || starts_with(path, "/ws/"@)
}

/// A request for an API path other than the remote status is exempt only
/// as a CORS preflight: its extension never spares it the token.
pub proof fn lemma_api_paths_need_token(method: Method, path: Seq<char>)
    requires
        starts_with(path, "/api/"@),
        path != "/api/remote/status"@,
        method != Method::Options,
    ensures
        !auth_exempt_spec(method, path),
{
    reveal_strlit("/api/");
    reveal_strlit("/health");
    reveal_strlit("/assets/");
    reveal_strlit("/");
    reveal_strlit("/ws/");
    assert(path.take(5) == "/api/"@);
    assert(path.take(5)[1] == 'a' && path.take(5)[2] == 'p');
    assert(path[1] == 'a' && path[2] == 'p' && path.len() >= 5);
    if path == "/health"@ {
        assert("/health"@[1] == 'h');
    }
    if starts_with(path, "/assets/"@) {
        assert(path.take(8) == "/assets/"@);
        assert(path.take(8)[2] == 's');
    }
    if starts_with(path, "/ws/"@) {
        assert(path.take(4) == "/ws/"@);
        assert(path.take(4)[1] == 'w');
    }
}

/// Must a request present the remote access token? Only one that does not
/// come from this machine (a loopback peer without a forwarding header) and
/// is not exempt.
pub fn needs_token(is_local: bool, method: Method, path: &str) -> (r: bool)
    ensures
        r == (!is_local && !auth_exempt_spec(method, path@)),
{
    if is_local {
        return false;
    }
    let p = chars_of(path);
    let exempt = slices_equal(&p, &chars_of("/health")) || slices_equal(&p, &chars_of("/api/remote/status"))
        || starts_with_exec(&p, &chars_of("/assets/")) || (!starts_with_exec(&p, &chars_of("/api/")) && (
        ends_with_exec(&p, &chars_of(".svg")) || ends_with_exec(&p, &chars_of(".ico")) || ends_with_exec(
            &p,
            &chars_of(".png"),
        ))) || slices_equal(&p, &chars_of("/")) || method == Method::Options || starts_with_exec(
        &p,
        &chars_of("/ws/"),
    );
    !exempt
}

/// 401 Unauthorized.
pub const UNAUTHORIZED: u16 = 401;

/// The answer to a request without a valid token.
pub fn unauthorized_response() -> (r: HttpResponse)
    ensures
        r.status == UNAUTHORIZED,
        headers_view(r.headers@) == seq![
            ("www-authenticate"@, "Bearer"@),
            ("access-control-allow-origin"@, "*"@),
        ],
        r.body@ == "{\"error\":\"Unauthorized\"}"@,
{
    let mut h: Vec<(String, String)> = Vec::new();
    h.push(header("www-authenticate", "Bearer"));
    h.push(header("access-control-allow-origin", "*"));
    assert(headers_view(h@) =~= seq![
        ("www-authenticate"@, "Bearer"@),
        ("access-control-allow-origin"@, "*"@),
    ]);
    response(UNAUTHORIZED, h, "{\"error\":\"Unauthorized\"}".to_string())
}

/// The answer to a request that no rule matches.
pub fn not_found_response() -> (r: HttpResponse)
    ensures
        r.status == NOT_FOUND,
        r.headers@.len() == 0,
        r.body@ == "Not Found"@,
{
    response(NOT_FOUND, Vec::new(), "Not Found".to_string())
}

/// The process id in a process output request, as `parse::<u32>` reads it.
pub fn parse_pid(param: &str) -> (r: Option<u32>)
    ensures
        r == crate::gguf_info::parse_u32_spec(param@),
{
    match crate::text::parse_u64(&chars_of(param)) {
        Some(n) => if n <= 4294967295 {
            Some(n as u32)
        } else {
            None
        },
        None => None,
    }
}

/// The answer to a process output request whose id is not a number.
pub fn invalid_pid_response() -> (r: HttpResponse)
    ensures
        r.status == BAD_REQUEST,
        r.headers@.len() == 0,
        r.body@ == "Invalid PID"@,
{
    response(BAD_REQUEST, Vec::new(), "Invalid PID".to_string())
}

} // verus!
