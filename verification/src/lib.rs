//! Verified core of the llama-chat web backend: model-file metadata detection,
//! tool-call parsing and JSON repair, conversation event storage, provider
//! presets and small HTTP helpers.

pub mod text;
pub mod keyed;
pub mod json;
pub mod json_repair;
pub mod native_tools;
pub mod filename_patterns;
pub mod gguf_utils;
pub mod gguf_info;
pub mod event_log;
pub mod providers;
pub mod response;
pub mod response_helpers;
pub mod websocket_utils;
pub mod request;
pub mod routes;
pub mod model_manager;
pub mod vram_calculator;
pub mod desktop_tools;
pub mod http_dispatch;
pub mod browser_tools;
pub mod ws_stream;
pub mod html_scan;
pub mod web_fetch;
pub mod web_search;
pub mod tool_catalog;
pub mod mcp_registry;
pub mod mcp_tools;
pub mod logger;
pub mod documents;
pub mod file_tools;
