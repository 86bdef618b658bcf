use llama_chat::desktop_tools::win32::{filetime_to_ms, FILETIME};
use llama_chat::desktop_tools::win32::RECT;
use llama_chat::desktop_tools::window_tools::{
    active_window_reply, capitalize_first, is_fullscreen_by_rect, pixel_color_reply, resize_reply, snap_rect,
    snapped_reply, unknown_position_reply, window_state, MonitorRect,
};
use llama_chat::gguf_utils::{GgufMetadata, GgufValue};
use llama_chat::model_manager::{
    detect_template_type, get_model_status, gpu_layers_to_use, is_already_loaded,
    parse_split_mode, read_load_metadata, ModelParams, ModelState, SplitMode,
};

#[test]
fn model_status() {
    let s = get_model_status(None);
    assert!(!s.loaded);
    assert!(s.memory_usage_mb.is_none());
    let st = ModelState { model_loaded: true, current_model_path: Some("/m.gguf".to_string()), last_used_secs: Some(17) };
    let s = get_model_status(Some(&st));
    assert!(s.loaded);
    assert_eq!(s.model_path.as_deref(), Some("/m.gguf"));
    assert_eq!(s.last_used.as_deref(), Some("17"));
    assert_eq!(s.memory_usage_mb, Some(512));
}

#[test]
fn load_parameters() {
    let p = ModelParams::default();
    assert!(!p.use_mlock);
    assert!(p.use_mmap);
    assert_eq!(p.main_gpu, 0);
    assert_eq!(p.split_mode, "layer");
    assert!(matches!(parse_split_mode("NONE"), SplitMode::Disabled));
    assert!(matches!(parse_split_mode("row"), SplitMode::Row));
    assert!(matches!(parse_split_mode("whatever"), SplitMode::Layer));
    assert_eq!(gpu_layers_to_use(Some(99), 10, Some(40)), 40);
    assert_eq!(gpu_layers_to_use(None, 10, Some(40)), 10);
    assert_eq!(gpu_layers_to_use(None, 50, None), 50);
    assert!(is_already_loaded(Some("/a"), true, "/a"));
    assert!(!is_already_loaded(Some("/a"), false, "/a"));
    assert!(!is_already_loaded(None, true, "/a"));
}

#[test]
fn template_families() {
    assert_eq!(detect_template_type("<|im_start|>user<|im_end|>"), "ChatML");
    assert_eq!(detect_template_type("[INST] x [/INST]"), "Mistral");
    assert_eq!(detect_template_type("<|start_header_id|>"), "Llama3");
    assert_eq!(detect_template_type("<start_of_turn>x<end_of_turn>"), "Gemma");
    assert_eq!(detect_template_type("<|start|><|end|><|channel|>"), "Harmony");
    assert_eq!(detect_template_type("<|observation|><|user|><|assistant|>"), "GLM");
    assert_eq!(detect_template_type("<|system|><|user|><|assistant|><|end|>"), "Phi");
    assert_eq!(detect_template_type("plain"), "Generic");
}

#[test]
fn load_time_metadata() {
    let mut m = GgufMetadata::new();
    m.insert("llama.context_length".to_string(), GgufValue::Uint64(0x1_0000_0005));
    m.insert("tokenizer.ggml.bos_token_id".to_string(), GgufValue::Uint32(0xFFFF_FFFF));
    m.insert("tokenizer.ggml.eos_token_id".to_string(), GgufValue::Int32(2));
    m.insert("tokenizer.chat_template".to_string(), GgufValue::Str("[INST][/INST]".to_string()));
    m.insert("general.name".to_string(), GgufValue::Uint8(1));
    let l = read_load_metadata(&m);
    assert_eq!(l.context_length, Some(5));
    assert_eq!(l.bos_token_id, Some(-1));
    assert_eq!(l.eos_token_id, Some(2));
    assert_eq!(l.chat_template_type, Some("Mistral"));
    assert_eq!(l.chat_template.as_deref(), Some("[INST][/INST]"));
    assert_eq!(l.general_name, None);
}

#[test]
fn desktop_geometry() {
    let monitors = vec![MonitorRect { x: 0, y: 0, width: 1920, height: 1080 }];
    assert!(is_fullscreen_by_rect(0, 0, 1920, 1080, &monitors));
    assert!(is_fullscreen_by_rect(-8, -8, 1936, 1096, &monitors));
    assert!(!is_fullscreen_by_rect(10, 10, 800, 600, &monitors));
    assert!(!is_fullscreen_by_rect(0, 0, 1920, 1080, &Vec::new()));
    assert_eq!(capitalize_first("notepad"), "Notepad");
    assert_eq!(capitalize_first("ßx"), "SSx");
    assert_eq!(capitalize_first(""), "");
    let ft = FILETIME { dw_low_date_time: 20_000, dw_high_date_time: 1 };
    assert_eq!(filetime_to_ms(&ft), (4_294_967_296u64 + 20_000) / 10_000);
}

#[test]
fn snap_geometry() {
    let work = RECT { left: 0, top: 0, right: 1920, bottom: 1040 };
    assert_eq!(snap_rect("left", &work), Some((0, 0, 960, 1040)));
    assert_eq!(snap_rect("right", &work), Some((960, 0, 960, 1040)));
    assert_eq!(snap_rect("top-left", &work), Some((0, 0, 960, 520)));
    assert_eq!(snap_rect("top-right", &work), Some((960, 0, 960, 520)));
    assert_eq!(snap_rect("bottom-left", &work), Some((0, 520, 960, 520)));
    assert_eq!(snap_rect("bottom-right", &work), Some((960, 520, 960, 520)));
    assert_eq!(snap_rect("center", &work), Some((320, 173, 1280, 693)));
    assert_eq!(snap_rect("middle", &work), None);
    let second = RECT { left: 1920, top: 0, right: 3841, bottom: 1081 };
    assert_eq!(snap_rect("right", &second), Some((2880, 0, 960, 1081)));
    let odd = RECT { left: 10, top: 10, right: 5, bottom: 5 };
    assert_eq!(snap_rect("left", &odd), Some((10, 10, -2, -5)));
    assert_eq!(
        snapped_reply("Notepad", "left", (0, 0, 960, 1040)),
        "Snapped 'Notepad' to left (0,0 960x1040)"
    );
    assert_eq!(
        unknown_position_reply("middle"),
        "Unknown position 'middle'. Use: left, right, top-left, top-right, bottom-left, bottom-right, center, maximize, restore"
    );
}

#[test]
fn window_tool_replies() {
    assert_eq!(pixel_color_reply(10, -3, 255, 0, 171), "Pixel at (10,-3): rgb(255,0,171) = #FF00AB");
    assert_eq!(window_state(false, false, false, false), "");
    assert_eq!(window_state(false, true, true, false), " [maximized, focused]");
    assert_eq!(window_state(true, false, false, true), " [minimized, fullscreen]");
    assert_eq!(
        active_window_reply("Doc", "word.exe", 42, (-8, -8, 1936, 1096), " [maximized]"),
        "Active window: \"Doc\" (word.exe) pid=42 at -8,-8 size 1936x1096 [maximized]"
    );
    assert_eq!(
        resize_reply("Doc", Some(1), Some(2), Some(300), Some(200)),
        "Window \"Doc\": moved to (1,2), resized to 300x200"
    );
    assert_eq!(resize_reply("Doc", Some(1), None, Some(300), Some(200)), "Window \"Doc\": resized to 300x200");
    assert_eq!(resize_reply("Doc", Some(1), None, None, Some(200)), "Window \"Doc\": ");
}
