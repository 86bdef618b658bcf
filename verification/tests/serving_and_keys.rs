use llama_chat::desktop_tools::win32::{key_lparam, key_to_vk, Key};
use llama_chat::logger::{level_name, log_file_path, log_line, Level};
use llama_chat::routes::static_files::{
    asset_cache_control, asset_content_type, asset_file, fallback_index_html, health_reply,
};

#[test]
fn asset_types() {
    assert_eq!(asset_content_type("/assets/app.js"), "application/javascript");
    assert_eq!(asset_content_type("/a.css"), "text/css");
    assert_eq!(asset_content_type("/a.jpeg"), "image/jpeg");
    assert_eq!(asset_content_type("/a.jpg"), "image/jpeg");
    assert_eq!(asset_content_type("/a.svg"), "image/svg+xml");
    assert_eq!(asset_content_type("/a.htm"), "text/html");
    assert_eq!(asset_content_type("/a.wasm"), "application/wasm");
    assert_eq!(asset_content_type("/a.bin"), "application/octet-stream");
    assert_eq!(asset_file("/assets/app.js"), "./dist/assets/app.js");
    assert_eq!(asset_cache_control(), "public, max-age=31536000");
    assert!(fallback_index_html().contains("<li>GET /health - Health check</li>"));
    assert_eq!(health_reply(), r#"{"status":"ok","service":"llama-chat-web"}"#);
}

#[test]
fn conversation_logs() {
    assert_eq!(log_file_path("chat_1.txt"), "logs/conversations/chat_1.log");
    assert_eq!(log_file_path("a.txtb.txt"), "logs/conversations/ab.log");
    assert_eq!(log_file_path("system"), "logs/conversations/system.log");
    assert_eq!(log_line("2024-01-01 10:00:00.000", "INFO", "hi"), "[2024-01-01 10:00:00.000] [INFO] hi\n");
    assert_eq!(level_name(&Level::Warn), "WARN");
    assert_eq!(level_name(&Level::Debug), "DEBUG");
}

#[test]
fn virtual_keys() {
    assert_eq!(key_to_vk(&Key::Return, 0), Some(0x0D));
    assert_eq!(key_to_vk(&Key::Meta, 0), Some(0x5B));
    assert_eq!(key_to_vk(&Key::F(1), 0), Some(0x70));
    assert_eq!(key_to_vk(&Key::F(12), 0), Some(0x7B));
    assert_eq!(key_to_vk(&Key::F(13), 0), None);
    assert_eq!(key_to_vk(&Key::Unicode('a'), 0x0141), Some(0x41));
    assert_eq!(key_to_vk(&Key::Unicode('€'), -1), None);
    assert_eq!(key_to_vk(&Key::Other, 0), None);
    assert_eq!(key_lparam(0x1C, false), 0x001C_0001);
    assert_eq!(key_lparam(0x11C, true), 0xC01C_0001);
}
