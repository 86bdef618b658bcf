use llama_chat::gguf_utils::{GgufMetadata, GgufValue};
use llama_chat::vram_calculator::{
    context_bucket, estimated_total_layers, head_dim, kv_geometry, LARGE_MODEL_LAYERS,
    MEDIUM_MODEL_LAYERS, SMALL_MODEL_LAYERS, XLARGE_MODEL_LAYERS,
};

#[test]
fn test_layer_count_thresholds() {
    assert_eq!(SMALL_MODEL_LAYERS, 32);
    assert_eq!(MEDIUM_MODEL_LAYERS, 48);
    assert_eq!(LARGE_MODEL_LAYERS, 60);
    assert_eq!(XLARGE_MODEL_LAYERS, 80);
}

#[test]
fn layer_estimate_by_size() {
    let gib: u64 = 1024 * 1024 * 1024;
    assert_eq!(estimated_total_layers(1024), 32);
    assert_eq!(estimated_total_layers(8 * gib - 1), 32);
    assert_eq!(estimated_total_layers(8 * gib), 48);
    assert_eq!(estimated_total_layers(15 * gib), 60);
    assert_eq!(estimated_total_layers(25 * gib), 80);
}

#[test]
fn context_buckets() {
    assert_eq!(context_bucket(100_000), 32768);
    assert_eq!(context_bucket(32768), 32768);
    assert_eq!(context_bucket(20000), 16384);
    assert_eq!(context_bucket(9000), 8192);
    assert_eq!(context_bucket(4096), 4096);
    assert_eq!(context_bucket(4095), 2048);
    assert_eq!(context_bucket(0), 2048);
}

#[test]
fn geometry_from_metadata() {
    let empty = GgufMetadata::new();
    assert_eq!(kv_geometry(&empty), (48, 8, 3840));
    let mut m = GgufMetadata::new();
    m.insert("llama.block_count".to_string(), GgufValue::Uint32(32));
    m.insert("gemma3.attention.head_count_kv".to_string(), GgufValue::Uint32(4));
    m.insert("llama.attention.head_count_kv".to_string(), GgufValue::Uint32(16));
    m.insert("gemma3.embedding_length".to_string(), GgufValue::Uint64(5));
    m.insert("llama.embedding_length".to_string(), GgufValue::Uint32(4096));
    // A first key that is present but not a 32-bit value gives the default.
    assert_eq!(kv_geometry(&m), (32, 4, 3840));
    assert_eq!(head_dim(3840, 8), 240);
    assert_eq!(head_dim(4096, 32), 64);
}
