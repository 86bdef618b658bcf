//! The integer parts of the GPU memory estimates: layer counts by model
//! size, the attention geometry read from a model's metadata, and the
//! context sizes offered when the requested one does not fit.

use vstd::prelude::*;
use crate::gguf_utils::{GgufMetadata, GgufValue};

verus! {

/// Layers assumed for a model under 8 GB.
pub const SMALL_MODEL_LAYERS: u32 = 32;
/// Layers assumed for a model under 15 GB.
pub const MEDIUM_MODEL_LAYERS: u32 = 48;
/// Layers assumed for a model under 25 GB.
pub const LARGE_MODEL_LAYERS: u32 = 60;
/// Layers assumed for a larger model.
pub const XLARGE_MODEL_LAYERS: u32 = 80;

/// Bytes in a gibibyte.
pub const BYTES_PER_GIB: u64 = 1_073_741_824;

/// The layer count assumed for a model file of `bytes` bytes.
pub open spec fn estimated_total_layers_spec(bytes: u64) -> u32 {
    if bytes < 8 * BYTES_PER_GIB {
        SMALL_MODEL_LAYERS
    } else if bytes < 15 * BYTES_PER_GIB {
        MEDIUM_MODEL_LAYERS
    } else if bytes < 25 * BYTES_PER_GIB {
        LARGE_MODEL_LAYERS
    } else {
        XLARGE_MODEL_LAYERS
    }
}

/// The layer count assumed for a model file of `bytes` bytes (a file under
/// 8, 15 and 25 GiB is small, medium and large).
pub fn estimated_total_layers(bytes: u64) -> (r: u32)
    ensures
        r == estimated_total_layers_spec(bytes),
{
    if bytes < 8 * BYTES_PER_GIB {
        SMALL_MODEL_LAYERS
    } else if bytes < 15 * BYTES_PER_GIB {
        MEDIUM_MODEL_LAYERS
    } else if bytes < 25 * BYTES_PER_GIB {
        LARGE_MODEL_LAYERS
    } else {
        XLARGE_MODEL_LAYERS
    }
}

/// The 32-bit value under the first of two keys that is present, or
/// `default` where that value is not a 32-bit unsigned integer or neither
/// key is present.
pub open spec fn u32_field(m: GgufMetadata, first: Seq<char>, second: Seq<char>, default: u32) -> u32 {
    let v = if m.lookup(first) is Some {
        m.lookup(first)
    } else {
        m.lookup(second)
    };
    match v {
        Some(GgufValue::Uint32(n)) => n,
        _ => default,
    }
}

fn u32_field_exec(m: &GgufMetadata, first: &str, second: &str, default: u32) -> (r: u32)
    ensures
        r == u32_field(*m, first@, second@, default),
{
    let v = match m.get(first) {
        Some(x) => Some(x),
        None => m.get(second),
    };
    match v {
        Some(GgufValue::Uint32(n)) => *n,
        _ => default,
    }
}

/// The layer count, KV head count and embedding length of a model (Gemma 3
/// keys first, then Llama keys; 48, 8 and 3840 where the metadata has none).
pub open spec fn kv_geometry_spec(m: GgufMetadata) -> (u32, u32, u32) {
    (
        u32_field(m, "gemma3.block_count"@, "llama.block_count"@, 48),
        u32_field(m, "gemma3.attention.head_count_kv"@, "llama.attention.head_count_kv"@, 8),
        u32_field(m, "gemma3.embedding_length"@, "llama.embedding_length"@, 3840),
    )
}

/// The layer count, KV head count and embedding length of a model, from
/// its metadata.
pub fn kv_geometry(m: &GgufMetadata) -> (r: (u32, u32, u32))
    ensures
        r == kv_geometry_spec(*m),
{
    (
        u32_field_exec(m, "gemma3.block_count", "llama.block_count", 48),
        u32_field_exec(m, "gemma3.attention.head_count_kv", "llama.attention.head_count_kv", 8),
        u32_field_exec(m, "gemma3.embedding_length", "llama.embedding_length", 3840),
    )
}

/// The head dimension estimated from the embedding length and KV head
/// count: `embedding / (2 * kv_heads)`.
pub fn head_dim(embedding_len: u32, n_kv_heads: u32) -> (r: u32)
    requires
        0 < n_kv_heads,
        2 * n_kv_heads <= u32::MAX,
    ensures
        r as int == embedding_len as int / (2 * n_kv_heads as int),
{
    embedding_len / (n_kv_heads * 2)
}

/// The context size offered in place of one that does not fit: the largest
/// of 32768, 16384, 8192 and 4096 that is at most `safe_tokens`, else 2048.
pub open spec fn context_bucket_spec(safe_tokens: u32) -> u32 {
    if safe_tokens >= 32768 {
        32768
    } else if safe_tokens >= 16384 {
        16384
    } else if safe_tokens >= 8192 {
        8192
    } else if safe_tokens >= 4096 {
        4096
    } else {
        2048
    }
}

/// The context size offered for a number of tokens that fit.
pub fn context_bucket(safe_tokens: u32) -> (r: u32)
    ensures
        r == context_bucket_spec(safe_tokens),
{
    if safe_tokens >= 32768 {
        32768
    } else if safe_tokens >= 16384 {
        16384
    } else if safe_tokens >= 8192 {
        8192
    } else if safe_tokens >= 4096 {
        4096
    } else {
        2048
    }
}

/// An offered context size is a power of two between 2048 and 32768, and
/// never more than the tokens that fit once at least 4096 of them do.
pub proof fn lemma_context_bucket_bounds(safe_tokens: u32)
    ensures
        2048 <= context_bucket_spec(safe_tokens) <= 32768,
        safe_tokens >= 4096 ==> context_bucket_spec(safe_tokens) <= safe_tokens,
        context_bucket_spec(safe_tokens) == 2048 || context_bucket_spec(safe_tokens) == 4096
            || context_bucket_spec(safe_tokens) == 8192 || context_bucket_spec(safe_tokens) == 16384
            || context_bucket_spec(safe_tokens) == 32768,
{
}

/// The layer count estimate grows with the file size.
pub proof fn lemma_estimated_layers_monotonic(a: u64, b: u64)
    requires
        a <= b,
    ensures
        estimated_total_layers_spec(a) <= estimated_total_layers_spec(b),
{
}

} // verus!
