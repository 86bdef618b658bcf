use llama_chat::gguf_info::{
    directory_message, estimated_layers_for_size, extract_model_info, has_gguf_extension,
    model_info, PathKind,
};
use llama_chat::gguf_utils::{GgufMetadata, GgufValue, MetadataExtractor};
use llama_chat::json::{json_to_string, JsonValue};

fn as_serde(v: &JsonValue) -> serde_json::Value {
    serde_json::from_str(&json_to_string(v)).unwrap()
}

#[test]
fn gguf_extensions() {
    assert!(has_gguf_extension("model.gguf"));
    assert!(has_gguf_extension("MODEL.GGUF"));
    assert!(has_gguf_extension("a.b.gguf"));
    assert!(!has_gguf_extension(".gguf"));
    assert!(!has_gguf_extension("model.bin"));
    assert!(!has_gguf_extension("model"));
}

#[test]
fn layer_estimates() {
    let gib: u64 = 1_073_741_824;
    assert_eq!(estimated_layers_for_size(0), 36);
    assert_eq!(estimated_layers_for_size(8 * gib), 45);
    assert_eq!(estimated_layers_for_size(15 * gib), 60);
    assert_eq!(estimated_layers_for_size(30 * gib), 80);
}

#[test]
fn directory_errors() {
    let entries = vec![
        ("a.gguf".to_string(), true),
        ("dir.gguf".to_string(), false),
        ("notes.txt".to_string(), true),
        ("b.GGUF".to_string(), true),
    ];
    assert_eq!(directory_message(&entries), "This is a directory. Found 2 .gguf file(s): a.gguf, b.GGUF");
    assert_eq!(directory_message(&Vec::new()), "This is a directory. No .gguf files found.");
}

#[test]
fn model_info_from_name_only() {
    let info = model_info("llama-2-7b-chat.Q4_K_M.gguf", "/m/llama.gguf", "3.8 GB", 4_000_000_000, None);
    let v = as_serde(&info);
    assert_eq!(v["name"], "llama-2-7b-chat.Q4_K_M.gguf");
    assert_eq!(v["architecture"], "LLaMA");
    assert_eq!(v["parameters"], "7B");
    assert_eq!(v["quantization"], "Q4_K_M");
    assert_eq!(v["file_size"], "3.8 GB");
    assert_eq!(v["context_length"], "Variable");
    assert_eq!(v["estimated_layers"], 36);
}

#[test]
fn model_info_from_metadata() {
    let mut m = GgufMetadata::new();
    m.insert("general.architecture".to_string(), GgufValue::Str("qwen2".to_string()));
    m.insert("general.name".to_string(), GgufValue::Str("Qwen2 7B".to_string()));
    m.insert("qwen2.context_length".to_string(), GgufValue::Uint32(32768));
    m.insert("qwen2.block_count".to_string(), GgufValue::Uint32(28));
    m.insert("general.sampling.temp".to_string(), GgufValue::Float32("0.7".to_string()));
    m.insert(
        "tokenizer.chat_template".to_string(),
        GgufValue::Str("{%- set default_system_message = 'Be brief.' %}".to_string()),
    );
    let info = model_info("x.gguf", "/x.gguf", "1 MB", 1_048_576, Some(&m));
    let v = as_serde(&info);
    assert_eq!(v["architecture"], "qwen2");
    assert_eq!(v["tool_format"], "qwen");
    assert_eq!(v["general_name"], "Qwen2 7B");
    assert_eq!(v["context_length"], "32768");
    assert_eq!(v["block_count"], "28");
    assert_eq!(v["estimated_layers"], 28);
    assert_eq!(v["default_system_prompt"], "Be brief.");
    assert_eq!(v["recommended_params"]["temperature"], 0.7);
    assert_eq!(v["gguf_metadata"]["qwen2.block_count"], 28);
}

#[test]
fn model_info_errors() {
    let m = extract_model_info("/nope", Some("nope"), &PathKind::Missing, None, None);
    assert_eq!(m.unwrap_err(), "Model file not found");
    let m = extract_model_info("/x.bin", Some("x.bin"), &PathKind::File, Some((1, "1 bytes".to_string())), None);
    assert_eq!(m.unwrap_err(), "File must have .gguf extension");
    let m = extract_model_info("/x.gguf", Some("x.gguf"), &PathKind::File, None, None);
    assert_eq!(m.unwrap_err(), "Failed to read file metadata");
    let m = extract_model_info("/d", Some("d"), &PathKind::Directory(Vec::new()), None, None);
    assert_eq!(m.unwrap_err(), "This is a directory. No .gguf files found.");
    let m = extract_model_info("/x.gguf", Some("x.gguf"), &PathKind::File, Some((10, "10 bytes".to_string())), None);
    assert!(m.is_ok());
}

#[test]
fn metadata_json_values() {
    let mut m = GgufMetadata::new();
    m.insert("a".to_string(), GgufValue::Array(3));
    m.insert("b".to_string(), GgufValue::Bool(true));
    m.insert("c".to_string(), GgufValue::Int8(-3));
    let ex = MetadataExtractor::new(&m);
    let v = as_serde(&ex.to_json_map());
    assert_eq!(v["a"], "[Array with 3 items]");
    assert_eq!(v["b"], true);
    assert_eq!(v["c"], -3);
    assert!(ex.get_json("zzz").is_none());
}
