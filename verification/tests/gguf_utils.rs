use llama_chat::gguf_utils::{
    detect_tool_format, extract_default_system_prompt, extract_param_count, extract_quantization,
    format_parameter_count, parse_model_filename, read_gguf_basic_metadata, value_to_display_string,
    value_to_string, GgufMetadata, GgufValue, MetadataExtractor,
};

#[test]
fn test_format_parameter_count_billions() {
    assert_eq!(format_parameter_count("7000000000"), "7B");
    assert_eq!(format_parameter_count("13000000000"), "13B");
    assert_eq!(format_parameter_count("70000000000"), "70B");
}

#[test]
fn test_format_parameter_count_millions() {
    assert_eq!(format_parameter_count("500000000"), "500M");
    assert_eq!(format_parameter_count("125000000"), "125M");
}

#[test]
fn test_format_parameter_count_invalid() {
    assert_eq!(format_parameter_count("unknown"), "unknown");
    assert_eq!(format_parameter_count("7B"), "7B");
}

#[test]
fn test_parse_model_filename_architecture() {
    let (arch, _, _) = parse_model_filename("llama-2-7b-chat.gguf");
    assert_eq!(arch, "LLaMA");

    let (arch, _, _) = parse_model_filename("mistral-7b-instruct.gguf");
    assert_eq!(arch, "Mistral");

    let (arch, _, _) = parse_model_filename("qwen2-7b.gguf");
    assert_eq!(arch, "Qwen");
}

#[test]
fn test_parse_model_filename_params() {
    let (_, params, _) = parse_model_filename("llama-2-7b-chat.gguf");
    assert_eq!(params, "7B");

    let (_, params, _) = parse_model_filename("llama-2-70b.gguf");
    assert_eq!(params, "70B");
}

#[test]
fn test_parse_model_filename_quantization() {
    let (_, _, quant) = parse_model_filename("model-q4_k_m.gguf");
    assert_eq!(quant, "Q4_K_M");

    let (_, _, quant) = parse_model_filename("model-q8_0.gguf");
    assert_eq!(quant, "Q8_0");
}

#[test]
fn test_detect_tool_format() {
    assert_eq!(detect_tool_format("mistral", "mistral-7b"), "mistral");
    assert_eq!(detect_tool_format("llama", "llama-3-8b"), "llama3");
    assert_eq!(detect_tool_format("qwen2", "qwen2-7b"), "qwen");
    assert_eq!(detect_tool_format("llama", "llama-2-7b"), "unknown");
}

#[test]
fn test_extract_default_system_prompt() {
    let template = "{%- set default_system_message = 'You are a helpful assistant.' %} rest of template";
    assert_eq!(
        extract_default_system_prompt(template),
        Some("You are a helpful assistant.".to_string())
    );

    let template_no_prompt = "no system prompt here";
    assert_eq!(extract_default_system_prompt(template_no_prompt), None);
}

#[test]
fn format_parameter_count_edges() {
    assert_eq!(format_parameter_count("999999"), "999999");
    assert_eq!(format_parameter_count("1000000"), "1M");
    assert_eq!(format_parameter_count("+2500000000"), "2B");
    assert_eq!(format_parameter_count("18446744073709551616"), "18446744073709551616");
    assert_eq!(format_parameter_count(""), "");
    assert_eq!(format_parameter_count("0"), "0");
}

#[test]
fn value_texts() {
    assert_eq!(value_to_string(&GgufValue::Int8(-128)), Some("-128".to_string()));
    assert_eq!(value_to_string(&GgufValue::Uint64(u64::MAX)), Some(u64::MAX.to_string()));
    assert_eq!(value_to_string(&GgufValue::Int64(i64::MIN)), Some(i64::MIN.to_string()));
    assert_eq!(value_to_string(&GgufValue::Bool(true)), Some("true".to_string()));
    assert_eq!(value_to_string(&GgufValue::Array(3)), None);
    assert_eq!(value_to_display_string(&GgufValue::Array(3)), "[Array with 3 items]");
    assert_eq!(value_to_display_string(&GgufValue::Str("x".to_string())), "x");
}

#[test]
fn basic_metadata_from_table() {
    let mut m = GgufMetadata::new();
    m.insert("general.architecture".to_string(), GgufValue::Str("qwen2".to_string()));
    m.insert("general.parameter_count".to_string(), GgufValue::Uint64(7_000_000_000));
    m.insert("general.file_type".to_string(), GgufValue::Uint32(15));
    m.insert("qwen2.context_length".to_string(), GgufValue::Uint32(32768));
    m.insert("llama.context_length".to_string(), GgufValue::Uint32(4096));
    let b = read_gguf_basic_metadata(&m);
    assert_eq!(b.architecture, "qwen2");
    assert_eq!(b.parameters, "7B");
    assert_eq!(b.quantization, "15");
    assert_eq!(b.context_length, "32768");

    let empty = GgufMetadata::new();
    let b = read_gguf_basic_metadata(&empty);
    assert_eq!(b.architecture, "Unknown");
    assert_eq!(b.parameters, "Unknown");
    assert_eq!(b.quantization, "Unknown");
    assert_eq!(b.context_length, "Unknown");
}

#[test]
fn metadata_insert_replaces() {
    let mut m = GgufMetadata::new();
    m.insert("k".to_string(), GgufValue::Uint8(1));
    m.insert("k".to_string(), GgufValue::Uint8(2));
    m.insert("j".to_string(), GgufValue::Uint8(3));
    let e = MetadataExtractor::new(&m);
    assert_eq!(e.get_string("k"), Some("2".to_string()));
    assert_eq!(e.get_string("j"), Some("3".to_string()));
    assert_eq!(e.get_string("missing"), None);
}

#[test]
fn arch_field_lookup() {
    let mut m = GgufMetadata::new();
    m.insert("llama.block_count".to_string(), GgufValue::Uint32(32));
    let e = MetadataExtractor::new(&m);
    assert_eq!(e.get_arch_field("llama", "block_count"), Some("32".to_string()));
    assert_eq!(e.get_arch_field("qwen", "block_count"), None);
}

#[test]
fn filename_patterns_uppercase() {
    assert_eq!(extract_param_count("model-0.5b"), "0.5B");
    assert_eq!(extract_param_count("nothing"), "Unknown");
    assert_eq!(extract_quantization("m-iq4_xs"), "IQ4_XS");
    let (arch, _, _) = parse_model_filename("codellama-7b");
    assert_eq!(arch, "LLaMA");
}
