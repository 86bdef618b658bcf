//! Loading a local model: the status reported for it, the parameters it is
//! loaded with, and what is read from its metadata at load time.

use vstd::prelude::*;
use crate::gguf_utils::{GgufMetadata, GgufValue};
use crate::text::{chars_of, contains, contains_exec, slices_equal, to_lowercase, unicode_lowercase, u64_text, int_text};

verus! {

/// The status of the local model as the API reports it.
pub struct ModelStatus {
    pub loaded: bool,
    pub model_path: Option<String>,
    pub last_used: Option<String>,
    pub memory_usage_mb: Option<u64>,
    pub has_vision: Option<bool>,
    /// The tool-call tags of the loaded model's template; the status does
    /// not report them.
    pub tool_tags: Option<String>,
}

/// What the model state holds, where it has been created: whether a model
/// is loaded, its path, and when it was last used (seconds since the Unix
/// epoch, where that time is after the epoch).
pub struct ModelState {
    pub model_loaded: bool,
    pub current_model_path: Option<String>,
    pub last_used_secs: Option<u64>,
}

/// The memory reported for a loaded model, in megabytes.
pub const LOADED_MODEL_MEMORY_MB: u64 = 512;

/// The status of the model state (`None` where none was created, or where
/// it could not be read).
pub fn get_model_status(state: Option<&ModelState>) -> (r: ModelStatus)
    ensures
        state is None ==> !r.loaded && r.model_path is None && r.last_used is None
            && r.memory_usage_mb is None && r.has_vision is None && r.tool_tags is None,
        state matches Some(s) ==> r.loaded == s.model_loaded && r.model_path == s.current_model_path
            && (match s.last_used_secs {
            Some(t) => r.last_used matches Some(u) && u@ == int_text(t as int),
            None => r.last_used is None,
        }) && r.memory_usage_mb == (if s.model_loaded {
            Some(LOADED_MODEL_MEMORY_MB)
        } else {
            None::<u64>
        }) && r.has_vision is None && r.tool_tags is None,
{
    match state {
        Some(s) => {
            let loaded = s.model_loaded;
            ModelStatus {
                loaded,
                model_path: match &s.current_model_path {
                    Some(p) => Some(p.clone()),
                    None => None,
                },
                last_used: match s.last_used_secs {
                    Some(t) => Some(u64_text(t)),
                    None => None,
                },
                memory_usage_mb: if loaded {
                    Some(LOADED_MODEL_MEMORY_MB)
                } else {
                    None
                },
                has_vision: None,
                tool_tags: None,
            }
        },
        None => ModelStatus {
            loaded: false,
            model_path: None,
            last_used: None,
            memory_usage_mb: None,
            has_vision: None,
            tool_tags: None,
        },
    }
}

/// Model-level parameters applied at load time.
pub struct ModelParams {
    pub use_mlock: bool,
    pub use_mmap: bool,
    pub main_gpu: i32,
    pub split_mode: String,
}

impl Default for ModelParams {
    /// No mlock, mmap on, GPU 0, split by layer.
    fn default() -> (r: ModelParams)
        ensures
            !r.use_mlock,
            r.use_mmap,
            r.main_gpu == 0,
            r.split_mode@ == "layer"@,
    {
        ModelParams { use_mlock: false, use_mmap: true, main_gpu: 0, split_mode: "layer".to_string() }
    }
}

/// How a model is split across GPUs.
pub enum SplitMode {
    /// No split: the whole model on one GPU (`none`).
    Disabled,
    Row,
    Layer,
}

/// The split mode named by a setting: `none` and `row` (in any case) as
/// named, anything else by layer.
pub open spec fn split_mode_spec(s: Seq<char>) -> SplitMode {
    let l = unicode_lowercase(s);
    if l == "none"@ {
        SplitMode::Disabled
    } else if l == "row"@ {
        SplitMode::Row
    } else {
        SplitMode::Layer
    }
}

/// Parse a split-mode setting.
pub fn parse_split_mode(s: &str) -> (r: SplitMode)
    ensures
        r == split_mode_spec(s@),
{
    let l = chars_of(to_lowercase(s).as_str());
    if slices_equal(&l, &chars_of("none")) {
        SplitMode::Disabled
    } else if slices_equal(&l, &chars_of("row")) {
        SplitMode::Row
    } else {
        SplitMode::Layer
    }
}

/// The GPU layers to load with: those requested, else the calculated
/// ones, never more than the model's block count where it is known.
pub open spec fn gpu_layers_spec(requested: Option<u32>, calculated: u32, block_count: Option<u32>) -> u32 {
    let wanted = match requested {
        Some(n) => n,
        None => calculated,
    };
    match block_count {
        Some(b) => if wanted > b {
            b
        } else {
            wanted
        },
        None => wanted,
    }
}

/// The GPU layers to load with.
pub fn gpu_layers_to_use(requested: Option<u32>, calculated: u32, block_count: Option<u32>) -> (r: u32)
    ensures
        r == gpu_layers_spec(requested, calculated, block_count),
{
    let wanted = match requested {
        Some(n) => n,
        None => calculated,
    };
    match block_count {
        Some(b) => if wanted > b {
            b
        } else {
            wanted
        },
        None => wanted,
    }
}

/// A requested layer count is used as it is where the model has at least that
/// many blocks, or where its block count is unknown.
pub proof fn lemma_requested_layers_kept(n: u32, calculated: u32, block_count: Option<u32>)
    requires
        block_count matches Some(b) ==> n <= b,
    ensures
        gpu_layers_spec(Some(n), calculated, block_count) == n,
{
}

/// Without a request the calculated count is used, as far as the model's
/// blocks allow.
pub proof fn lemma_calculated_layers_kept(calculated: u32, block_count: Option<u32>)
    requires
        block_count matches Some(b) ==> calculated <= b,
    ensures
        gpu_layers_spec(None, calculated, block_count) == calculated,
{
}

/// The layer count is the smaller of the wanted count (the requested one,
/// else the calculated one) and the model's block count: never more than the
/// blocks, and less than the wanted count only where the blocks are fewer.
pub proof fn lemma_layers_capped_by_blocks(requested: Option<u32>, calculated: u32, b: u32)
    ensures
        gpu_layers_spec(requested, calculated, Some(b)) <= b,
        ({
            let wanted = match requested {
                Some(n) => n,
                None => calculated,
            };
            &&& gpu_layers_spec(requested, calculated, Some(b)) <= wanted
            &&& (gpu_layers_spec(requested, calculated, Some(b)) == wanted
                || gpu_layers_spec(requested, calculated, Some(b)) == b)
        }),
{
}

/// Is the requested model the one already loaded?
pub fn is_already_loaded(current_path: Option<&str>, model_loaded: bool, requested: &str) -> (r: bool)
    ensures
        r == (model_loaded && (current_path matches Some(p) && p@ == requested@)),
{
    match current_path {
        Some(p) => model_loaded && slices_equal(&chars_of(p), &chars_of(requested)),
        None => false,
    }
}

/// The chat template family that a template's markers show.
pub open spec fn template_type_spec(s: Seq<char>) -> Seq<char> {
    if contains(s, "<|im_start|>"@) && contains(s, "<|im_end|>"@) {
        "ChatML"@
    } else if contains(s, "[INST]"@) && contains(s, "[/INST]"@) {
        "Mistral"@
    } else if contains(s, "<|start_header_id|>"@) {
        "Llama3"@
    } else if contains(s, "<start_of_turn>"@) && contains(s, "<end_of_turn>"@) {
        "Gemma"@
    } else if contains(s, "<|start|>"@) && contains(s, "<|end|>"@) && contains(s, "<|channel|>"@) {
        "Harmony"@
    } else if contains(s, "<|observation|>"@) && contains(s, "<|user|>"@) && contains(s, "<|assistant|>"@) {
        "GLM"@
    } else if contains(s, "<|system|>"@) && contains(s, "<|user|>"@) && contains(s, "<|assistant|>"@)
        && contains(s, "<|end|>"@) {
        "Phi"@
    } else {
        "Generic"@
    }
}

/// Detect the chat template family from a template's markers.
pub fn detect_template_type(template: &str) -> (r: &'static str)
    ensures
        r@ == template_type_spec(template@),
{
    let s = chars_of(template);
    if contains_exec(&s, &chars_of("<|im_start|>")) && contains_exec(&s, &chars_of("<|im_end|>")) {
        "ChatML"
    } else if contains_exec(&s, &chars_of("[INST]")) && contains_exec(&s, &chars_of("[/INST]")) {
        "Mistral"
    } else if contains_exec(&s, &chars_of("<|start_header_id|>")) {
        "Llama3"
    } else if contains_exec(&s, &chars_of("<start_of_turn>")) && contains_exec(&s, &chars_of("<end_of_turn>")) {
        "Gemma"
    } else if contains_exec(&s, &chars_of("<|start|>")) && contains_exec(&s, &chars_of("<|end|>"))
        && contains_exec(&s, &chars_of("<|channel|>")) {
        "Harmony"
    } else if contains_exec(&s, &chars_of("<|observation|>")) && contains_exec(&s, &chars_of("<|user|>"))
        && contains_exec(&s, &chars_of("<|assistant|>")) {
        "GLM"
    } else if contains_exec(&s, &chars_of("<|system|>")) && contains_exec(&s, &chars_of("<|user|>"))
        && contains_exec(&s, &chars_of("<|assistant|>")) && contains_exec(&s, &chars_of("<|end|>")) {
        "Phi"
    } else {
        "Generic"
    }
}

/// What is read from a model's metadata when it is loaded.
pub struct LoadMetadata {
    pub context_length: Option<u32>,
    pub bos_token_id: Option<i32>,
    pub eos_token_id: Option<i32>,
    pub chat_template_type: Option<&'static str>,
    pub chat_template: Option<String>,
    pub general_name: Option<String>,
}

/// A context length value: a 32-bit one as it is, a 64-bit one cut to its
/// low 32 bits.
pub open spec fn context_length_of(v: Option<GgufValue>) -> Option<u32> {
    match v {
        Some(GgufValue::Uint32(n)) => Some(n),
        Some(GgufValue::Uint64(n)) => Some((n % 0x1_0000_0000) as u32),
        _ => None,
    }
}

/// A token id value: a signed one as it is, an unsigned one taken as the
/// signed 32-bit value with the same bits.
pub open spec fn token_id_of(v: Option<GgufValue>) -> Option<i32> {
    match v {
        Some(GgufValue::Uint32(n)) => Some(
            if n < 0x8000_0000 {
                n as i32
            } else {
                (n - 0x1_0000_0000) as i32
            },
        ),
        Some(GgufValue::Int32(n)) => Some(n),
        _ => None,
    }
}

/// A string value.
pub open spec fn string_of(v: Option<GgufValue>) -> Option<Seq<char>> {
    match v {
        Some(GgufValue::Str(s)) => Some(s@),
        _ => None,
    }
}

fn context_length_from(v: Option<&GgufValue>) -> (r: Option<u32>)
    ensures
        r == context_length_of(
            match v {
                Some(x) => Some(*x),
                None => None,
            },
        ),
{
    match v {
        Some(GgufValue::Uint32(n)) => Some(*n),
        Some(GgufValue::Uint64(n)) => Some((*n % 0x1_0000_0000) as u32),
        _ => None,
    }
}

fn token_id_from(v: Option<&GgufValue>) -> (r: Option<i32>)
    ensures
        r == token_id_of(
            match v {
                Some(x) => Some(*x),
                None => None,
            },
        ),
{
    match v {
        Some(GgufValue::Uint32(n)) => Some(
            if *n < 0x8000_0000 {
                *n as i32
            } else {
                (*n as i64 - 0x1_0000_0000) as i32
            },
        ),
        Some(GgufValue::Int32(n)) => Some(*n),
        _ => None,
    }
}

fn string_from_value(v: Option<&GgufValue>) -> (r: Option<String>)
    ensures
        crate::gguf_utils::opt_text(r) == string_of(
            match v {
                Some(x) => Some(*x),
                None => None,
            },
        ),
{
    match v {
        Some(GgufValue::Str(s)) => Some(s.clone()),
        _ => None,
    }
}

/// What is read from a model's metadata when it is loaded: the context
/// length, the BOS and EOS token ids, the chat template with its family, and
/// the model's name.
pub fn read_load_metadata(m: &GgufMetadata) -> (r: LoadMetadata)
    ensures
        r.context_length == context_length_of(m.lookup("llama.context_length"@)),
        r.bos_token_id == token_id_of(m.lookup("tokenizer.ggml.bos_token_id"@)),
        r.eos_token_id == token_id_of(m.lookup("tokenizer.ggml.eos_token_id"@)),
        crate::gguf_utils::opt_text(r.chat_template) == string_of(m.lookup("tokenizer.chat_template"@)),
        match string_of(m.lookup("tokenizer.chat_template"@)) {
            Some(t) => r.chat_template_type matches Some(k) && k@ == template_type_spec(t),
            None => r.chat_template_type is None,
        },
        crate::gguf_utils::opt_text(r.general_name) == string_of(m.lookup("general.name"@)),
{
    let context_length = context_length_from(m.get("llama.context_length"));
    let bos_token_id = token_id_from(m.get("tokenizer.ggml.bos_token_id"));
    let eos_token_id = token_id_from(m.get("tokenizer.ggml.eos_token_id"));
    let chat_template = string_from_value(m.get("tokenizer.chat_template"));
    let chat_template_type = match &chat_template {
        Some(t) => Some(detect_template_type(t.as_str())),
        None => None,
    };
    let general_name = string_from_value(m.get("general.name"));
    LoadMetadata {
        context_length,
        bos_token_id,
        eos_token_id,
        chat_template_type,
        chat_template,
        general_name,
    }
}

} // verus!
