use llama_chat::filename_patterns::{
    detect_architecture, detect_parameters, detect_quantization, extract_metadata_from_filename,
};

#[test]
fn test_detect_architecture() {
    assert_eq!(detect_architecture("llama-2-7b-chat.gguf"), "LLaMA");
    assert_eq!(
        detect_architecture("Mistral-7B-Instruct-v0.2.gguf"),
        "Mistral"
    );
    assert_eq!(detect_architecture("Qwen2.5-7B-Instruct.gguf"), "Qwen");
    assert_eq!(detect_architecture("gemma-2-9b-it.gguf"), "Gemma");
    assert_eq!(detect_architecture("unknown-model.gguf"), "Unknown");
}

#[test]
fn test_detect_parameters() {
    assert_eq!(detect_parameters("llama-2-7b-chat.gguf"), "7B");
    assert_eq!(detect_parameters("Mixtral-8x7B.gguf"), "7B");
    assert_eq!(detect_parameters("phi-3-mini-4k-instruct.gguf"), "Unknown");
    assert_eq!(detect_parameters("qwen2.5-72b-instruct.gguf"), "72B");
}

#[test]
fn test_detect_quantization() {
    assert_eq!(detect_quantization("model-Q4_K_M.gguf"), "Q4_K_M");
    assert_eq!(detect_quantization("model-q8_0.gguf"), "Q8_0");
    assert_eq!(detect_quantization("model-IQ4_XS.gguf"), "IQ4_XS");
    assert_eq!(detect_quantization("model-fp16.gguf"), "FP16");
}

#[test]
fn test_extract_metadata() {
    let meta = extract_metadata_from_filename("Qwen2.5-7B-Instruct-Q4_K_M.gguf");
    assert_eq!(meta.architecture, "Qwen");
    assert_eq!(meta.parameters, "7B");
    assert_eq!(meta.quantization, "Q4_K_M");
}

#[test]
fn detection_follows_table_order() {
    // "codellama" contains "llama", which comes first in the table.
    assert_eq!(detect_architecture("CodeLlama-13B.gguf"), "LLaMA");
    // "q5_k_m" is tried before "q5_k".
    assert_eq!(detect_quantization("x-Q5_K_M.gguf"), "Q5_K_M");
    assert_eq!(detect_quantization("x-Q5_K.gguf"), "Q5_K");
    assert_eq!(detect_quantization("plain.gguf"), "Unknown");
}

#[test]
fn detection_ignores_case() {
    assert_eq!(detect_architecture("DEEPSEEK-CODER"), "DeepSeek");
    assert_eq!(detect_parameters("MODEL-405B"), "405B");
}
