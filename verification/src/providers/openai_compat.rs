//! OpenAI-compatible providers: their presets, and how a request to one is
//! configured (base URL, API key, model).

use vstd::prelude::*;
use crate::json::{json_get, json_get_str, json_as_str, json_parse, parse_json, Json, JsonValue};
use crate::text::{chars_of, slices_equal};

verus! {

/// A known OpenAI-compatible provider: its id, display name, default base
/// URL, description, default models (the first is the default) and the
/// environment variable that may hold its API key.
#[derive(Clone, Copy)]
pub struct ProviderPreset {
    pub id: &'static str,
    pub name: &'static str,
    pub base_url: &'static str,
    pub description: &'static str,
    pub models: &'static [&'static str],
    pub env_key: &'static str,
}

/// The preset table, in order.
pub open spec fn preset_table() -> Seq<ProviderPreset> {
    seq![
        ProviderPreset {
            id: "groq",
            name: "Groq",
            base_url: "https://api.groq.com/openai/v1",
            description: "Ultra-fast inference (Groq LPU)",
            models: &["llama-3.3-70b-versatile", "llama-3.1-8b-instant", "mixtral-8x7b-32768"],
            env_key: "GROQ_API_KEY",
        },
        ProviderPreset {
            id: "gemini",
            name: "Gemini",
            base_url: "https://generativelanguage.googleapis.com/v1beta/openai",
            description: "Google Gemini via OpenAI-compatible API",
            models: &["gemini-2.0-flash", "gemini-2.5-flash", "gemini-1.5-flash"],
            env_key: "GEMINI_API_KEY",
        },
        ProviderPreset {
            id: "sambanova",
            name: "SambaNova",
            base_url: "https://api.sambanova.ai/v1",
            description: "SambaNova Cloud inference",
            models: &["Meta-Llama-3.1-405B-Instruct", "Meta-Llama-3.1-70B-Instruct"],
            env_key: "SAMBANOVA_API_KEY",
        },
        ProviderPreset {
            id: "cerebras",
            name: "Cerebras",
            base_url: "https://api.cerebras.ai/v1",
            description: "Cerebras fast inference",
            models: &["llama-3.3-70b", "llama-3.1-8b"],
            env_key: "CEREBRAS_API_KEY",
        },
        ProviderPreset {
            id: "openrouter",
            name: "OpenRouter",
            base_url: "https://openrouter.ai/api/v1",
            description: "Access 100+ models via OpenRouter",
            models: &["auto"],
            env_key: "OPENROUTER_API_KEY",
        },
        ProviderPreset {
            id: "together",
            name: "Together AI",
            base_url: "https://api.together.xyz/v1",
            description: "Together AI inference",
            models: &["meta-llama/Llama-3.3-70B-Instruct-Turbo"],
            env_key: "TOGETHER_API_KEY",
        },
        ProviderPreset {
            id: "deepseek",
            name: "DeepSeek",
            base_url: "https://api.deepseek.com/v1",
            description: "DeepSeek AI models",
            models: &["deepseek-chat", "deepseek-reasoner"],
            env_key: "DEEPSEEK_API_KEY",
        },
        ProviderPreset {
            id: "custom_openai",
            name: "Custom OpenAI-Compatible",
            base_url: "",
            description: "Any OpenAI-compatible endpoint (vLLM, Ollama, etc.)",
            models: &[],
            env_key: "",
        },
    ]
}

/// The preset table.
pub fn provider_presets() -> (t: Vec<ProviderPreset>)
    ensures
        t@ == preset_table(),
{
    let mut t: Vec<ProviderPreset> = Vec::new();
    t.push(
        ProviderPreset {
            id: "groq",
            name: "Groq",
            base_url: "https://api.groq.com/openai/v1",
            description: "Ultra-fast inference (Groq LPU)",
            models: &["llama-3.3-70b-versatile", "llama-3.1-8b-instant", "mixtral-8x7b-32768"],
            env_key: "GROQ_API_KEY",
        },
    );
    t.push(
        ProviderPreset {
            id: "gemini",
            name: "Gemini",
            base_url: "https://generativelanguage.googleapis.com/v1beta/openai",
            description: "Google Gemini via OpenAI-compatible API",
            models: &["gemini-2.0-flash", "gemini-2.5-flash", "gemini-1.5-flash"],
            env_key: "GEMINI_API_KEY",
        },
    );
    t.push(
        ProviderPreset {
            id: "sambanova",
            name: "SambaNova",
            base_url: "https://api.sambanova.ai/v1",
            description: "SambaNova Cloud inference",
            models: &["Meta-Llama-3.1-405B-Instruct", "Meta-Llama-3.1-70B-Instruct"],
            env_key: "SAMBANOVA_API_KEY",
        },
    );
    t.push(
        ProviderPreset {
            id: "cerebras",
            name: "Cerebras",
            base_url: "https://api.cerebras.ai/v1",
            description: "Cerebras fast inference",
            models: &["llama-3.3-70b", "llama-3.1-8b"],
            env_key: "CEREBRAS_API_KEY",
        },
    );
    t.push(
        ProviderPreset {
            id: "openrouter",
            name: "OpenRouter",
            base_url: "https://openrouter.ai/api/v1",
            description: "Access 100+ models via OpenRouter",
            models: &["auto"],
            env_key: "OPENROUTER_API_KEY",
        },
    );
    t.push(
        ProviderPreset {
            id: "together",
            name: "Together AI",
            base_url: "https://api.together.xyz/v1",
            description: "Together AI inference",
            models: &["meta-llama/Llama-3.3-70B-Instruct-Turbo"],
            env_key: "TOGETHER_API_KEY",
        },
    );
    t.push(
        ProviderPreset {
            id: "deepseek",
            name: "DeepSeek",
            base_url: "https://api.deepseek.com/v1",
            description: "DeepSeek AI models",
            models: &["deepseek-chat", "deepseek-reasoner"],
            env_key: "DEEPSEEK_API_KEY",
        },
    );
    t.push(
        ProviderPreset {
            id: "custom_openai",
            name: "Custom OpenAI-Compatible",
            base_url: "",
            description: "Any OpenAI-compatible endpoint (vLLM, Ollama, etc.)",
            models: &[],
            env_key: "",
        },
    );
    t
}

/// The position of the first preset with id `id`, from `k` on.
pub open spec fn preset_index_from(id: Seq<char>, k: int) -> Option<int>
    decreases preset_table().len() - k,
{
    if k < 0 || k >= preset_table().len() {
        None
    } else if preset_table()[k].id@ == id {
        Some(k)
    } else {
        preset_index_from(id, k + 1)
    }
}

/// The preset with id `id`, if there is one.
pub open spec fn preset_for(id: Seq<char>) -> Option<ProviderPreset> {
    match preset_index_from(id, 0) {
        Some(i) => Some(preset_table()[i]),
        None => None,
    }
}

/// Look up a provider preset by id.
pub fn get_preset(provider_id: &str) -> (r: Option<ProviderPreset>)
    ensures
        r == preset_for(provider_id@),
{
    let table = provider_presets();
    let id = chars_of(provider_id);
    let mut k: usize = 0;
    while k < table.len()
        invariant
            k <= table.len(),
            table@ == preset_table(),
            id@ == provider_id@,
            preset_index_from(provider_id@, 0) == preset_index_from(provider_id@, k as int),
        decreases table.len() - k,
    {
        if slices_equal(&chars_of(table[k].id), &id) {
            return Some(table[k]);
        }
        k += 1;
    }
    None
}

/// Is `provider_id` one of the OpenAI-compatible providers?
pub fn is_openai_compat(provider_id: &str) -> (r: bool)
    ensures
        r == (preset_for(provider_id@) is Some),
{
    get_preset(provider_id).is_some()
}

/// The model to request: the one given, where it is not empty, else the
/// preset's first model, else `default`.
pub open spec fn resolve_model_spec(provider_id: Seq<char>, model: Option<Seq<char>>) -> Seq<char> {
    if model is Some && model->0.len() > 0 {
        model->0
    } else {
        match preset_for(provider_id) {
            Some(p) => if p.models@.len() > 0 {
                p.models@[0]@
            } else {
                "default"@
            },
            None => "default"@,
        }
    }
}

/// Resolve the model name for a request.
pub fn resolve_model(provider_id: &str, model: Option<&str>) -> (r: String)
    ensures
        r@ == resolve_model_spec(
            provider_id@,
            match model {
                Some(m) => Some(m@),
                None => None,
            },
        ),
{
    match model {
        Some(m) => if !m.is_empty() {
            return m.to_string();
        },
        None => {},
    }
    match get_preset(provider_id) {
        Some(p) => if p.models.len() > 0 {
            p.models[0].to_string()
        } else {
            "default".to_string()
        },
        None => "default".to_string(),
    }
}

/// The document parsed from the provider settings text, if it parses.
pub open spec fn config_doc(api_keys_json: Option<Seq<char>>) -> Option<Json> {
    match api_keys_json {
        Some(t) => json_parse(t),
        None => None,
    }
}

/// A non-empty text.
pub open spec fn non_empty(t: Option<Seq<char>>) -> Option<Seq<char>> {
    match t {
        Some(s) => if s.len() > 0 {
            Some(s)
        } else {
            None
        },
        None => None,
    }
}

/// The base URL for a provider: a non-empty `base_url` in its settings
/// object, else the preset's non-empty default.
pub open spec fn base_url_spec(provider_id: Seq<char>, doc: Option<Json>) -> Option<Seq<char>> {
    let configured = match doc {
        Some(d) => match json_get(d, provider_id) {
            Some(obj) => non_empty(json_get_str(obj, "base_url"@)),
            None => None,
        },
        None => None,
    };
    if configured is Some {
        configured
    } else {
        match preset_for(provider_id) {
            Some(p) => non_empty(Some(p.base_url@)),
            None => None,
        }
    }
}

/// The API key for a provider: a non-empty `api_key` in its settings object,
/// else its settings value itself where that is a non-empty string, else the
/// non-empty value of the preset's environment variable.
pub open spec fn api_key_spec(provider_id: Seq<char>, doc: Option<Json>, env_value: Option<Seq<char>>) -> Option<Seq<char>> {
    let configured = match doc {
        Some(d) => match json_get(d, provider_id) {
            Some(obj) => {
                let nested = non_empty(json_get_str(obj, "api_key"@));
                if nested is Some {
                    nested
                } else {
                    non_empty(json_as_str(obj))
                }
            },
            None => None,
        },
        None => None,
    };
    if configured is Some {
        configured
    } else {
        match preset_for(provider_id) {
            Some(p) => if p.env_key@.len() > 0 {
                non_empty(env_value)
            } else {
                None
            },
            None => None,
        }
    }
}

/// The optional text of an optional string.
pub open spec fn opt_str(t: Option<String>) -> Option<Seq<char>> {
    match t {
        Some(s) => Some(s@),
        None => None,
    }
}

/// Parse the provider settings text, where there is one.
pub fn config_document(api_keys_json: Option<&str>) -> (r: Option<JsonValue>)
    ensures
        match r {
            Some(v) => config_doc(
                match api_keys_json {
                    Some(t) => Some(t@),
                    None => None,
                },
            ) == Some(v@),
            None => config_doc(
                match api_keys_json {
                    Some(t) => Some(t@),
                    None => None,
                },
            ) is None,
        },
{
    match api_keys_json {
        Some(t) => parse_json(t),
        None => None,
    }
}

/// A copy of a string that is not empty.
fn non_empty_copy(s: Option<&String>) -> (r: Option<String>)
    ensures
        opt_str(r) == non_empty(
            match s {
                Some(t) => Some(t@),
                None => None,
            },
        ),
{
    match s {
        Some(t) => if t.as_str().is_empty() {
            None
        } else {
            Some(t.clone())
        },
        None => None,
    }
}

/// The base URL for a provider, from its parsed settings document.
pub fn base_url_from(provider_id: &str, doc: Option<&JsonValue>) -> (r: Option<String>)
    ensures
        opt_str(r) == base_url_spec(
            provider_id@,
            match doc {
                Some(d) => Some(d@),
                None => None,
            },
        ),
{
    let configured = match doc {
        Some(d) => match d.get(provider_id) {
            Some(obj) => match obj.get("base_url") {
                Some(u) => non_empty_copy(u.as_str()),
                None => None,
            },
            None => None,
        },
        None => None,
    };
    if configured.is_some() {
        return configured;
    }
    match get_preset(provider_id) {
        Some(p) => if p.base_url.is_empty() {
            None
        } else {
            Some(p.base_url.to_string())
        },
        None => None,
    }
}

/// The environment variable that may hold the provider's API key.
pub fn api_key_env_var(provider_id: &str) -> (r: Option<&'static str>)
    ensures
        r matches Some(k) ==> preset_for(provider_id@) matches Some(p) && p.env_key == k
            && k@.len() > 0,
        r is None ==> preset_for(provider_id@) is None || preset_for(provider_id@)->0.env_key@.len()
            == 0,
{
    match get_preset(provider_id) {
        Some(p) => if p.env_key.is_empty() {
            None
        } else {
            Some(p.env_key)
        },
        None => None,
    }
}

/// The API key for a provider, from its parsed settings document and the
/// value of its environment variable.
pub fn api_key_from(provider_id: &str, doc: Option<&JsonValue>, env_value: Option<&str>) -> (r: Option<String>)
    ensures
        opt_str(r) == api_key_spec(
            provider_id@,
            match doc {
                Some(d) => Some(d@),
                None => None,
            },
            match env_value {
                Some(e) => Some(e@),
                None => None,
            },
        ),
{
    let configured = match doc {
        Some(d) => match d.get(provider_id) {
            Some(obj) => {
                let nested = match obj.get("api_key") {
                    Some(k) => non_empty_copy(k.as_str()),
                    None => None,
                };
                if nested.is_some() {
                    nested
                } else {
                    non_empty_copy(obj.as_str())
                }
            },
            None => None,
        },
        None => None,
    };
    if configured.is_some() {
        return configured;
    }
    match api_key_env_var(provider_id) {
        Some(_) => match env_value {
            Some(e) => if e.is_empty() {
                None
            } else {
                Some(e.to_string())
            },
            None => None,
        },
        None => None,
    }
}

/// Resolve the base URL for a provider from its settings text.
pub fn resolve_base_url(provider_id: &str, api_keys_json: Option<&str>) -> (r: Option<String>)
    ensures
        opt_str(r) == base_url_spec(
            provider_id@,
            config_doc(
                match api_keys_json {
                    Some(t) => Some(t@),
                    None => None,
                },
            ),
        ),
{
    let doc = config_document(api_keys_json);
    match doc {
        Some(d) => base_url_from(provider_id, Some(&d)),
        None => base_url_from(provider_id, None),
    }
}

/// Resolve the API key for a provider from its settings text and the value
/// of its environment variable (see `api_key_env_var`).
pub fn resolve_api_key(provider_id: &str, api_keys_json: Option<&str>, env_value: Option<&str>) -> (r: Option<String>)
    ensures
        opt_str(r) == api_key_spec(
            provider_id@,
            config_doc(
                match api_keys_json {
                    Some(t) => Some(t@),
                    None => None,
                },
            ),
            match env_value {
                Some(e) => Some(e@),
                None => None,
            },
        ),
{
    let doc = config_document(api_keys_json);
    match doc {
        Some(d) => api_key_from(provider_id, Some(&d), env_value),
        None => api_key_from(provider_id, None, env_value),
    }
}

} // verus!
