//! GGUF model metadata: the key/value table that a GGUF file header holds,
//! turned into display strings, plus file-name and chat-template helpers.

use vstd::prelude::*;
use crate::json::{json_get, lemma_object_of, member_index_from, members_view, opt_view, Json, JsonValue};
use crate::keyed::{
    key_index_from, key_lookup, key_position, lemma_append_value, lemma_key_index_found,
    lemma_replace_value,
};
use crate::text::{
    append_chars, append_str, chars_of, contains, contains_exec, decimal, first_index,
    first_list_match, first_pattern_from, find, i64_text, int_text, lemma_first_index,
    list_patterns, lookup_in_table, parse_u64, parse_u64_spec, push_decimal, slice_of,
    string_from, table_lookup, to_lowercase, to_uppercase, u64_text,
    unicode_lowercase, unicode_uppercase,
};

verus! {

/// One metadata value of a GGUF file. Floating-point values are held by the
/// text that `to_string` gives for them; an array by its item count.
pub enum GgufValue {
    Uint8(u8),
    Int8(i8),
    Uint16(u16),
    Int16(i16),
    Uint32(u32),
    Int32(i32),
    Float32(String),
    Bool(bool),
    Str(String),
    Array(usize),
    Uint64(u64),
    Int64(i64),
    Float64(String),
}

/// The text of a value, as `value_to_string` gives it (`None` for arrays).
pub open spec fn value_text(v: GgufValue) -> Option<Seq<char>> {
    match v {
        GgufValue::Uint8(n) => Some(int_text(n as int)),
        GgufValue::Int8(n) => Some(int_text(n as int)),
        GgufValue::Uint16(n) => Some(int_text(n as int)),
        GgufValue::Int16(n) => Some(int_text(n as int)),
        GgufValue::Uint32(n) => Some(int_text(n as int)),
        GgufValue::Int32(n) => Some(int_text(n as int)),
        GgufValue::Float32(t) => Some(t@),
        GgufValue::Bool(b) => Some(
            if b {
                "true"@
            } else {
                "false"@
            },
        ),
        GgufValue::Str(s) => Some(s@),
        GgufValue::Array(_) => None,
        GgufValue::Uint64(n) => Some(int_text(n as int)),
        GgufValue::Int64(n) => Some(int_text(n as int)),
        GgufValue::Float64(t) => Some(t@),
    }
}

/// The display text of a value: its text, or `[Array with N items]`.
pub open spec fn value_display(v: GgufValue) -> Seq<char> {
    match v {
        GgufValue::Array(n) => "[Array with "@ + decimal(n as nat) + " items]"@,
        _ => value_text(v).unwrap(),
    }
}

/// Convert a metadata value to a string; arrays have none.
pub fn value_to_string(value: &GgufValue) -> (r: Option<String>)
    ensures
        match r {
            Some(s) => value_text(*value) == Some(s@),
            None => value_text(*value) is None,
        },
{
    match value {
        GgufValue::Uint8(n) => Some(u64_text(*n as u64)),
        GgufValue::Int8(n) => Some(i64_text(*n as i64)),
        GgufValue::Uint16(n) => Some(u64_text(*n as u64)),
        GgufValue::Int16(n) => Some(i64_text(*n as i64)),
        GgufValue::Uint32(n) => Some(u64_text(*n as u64)),
        GgufValue::Int32(n) => Some(i64_text(*n as i64)),
        GgufValue::Float32(t) => Some(t.clone()),
        GgufValue::Bool(b) => Some(
            if *b {
                "true".to_owned()
            } else {
                "false".to_owned()
            },
        ),
        GgufValue::Str(s) => Some(s.clone()),
        GgufValue::Array(_) => None,
        GgufValue::Uint64(n) => Some(u64_text(*n)),
        GgufValue::Int64(n) => Some(i64_text(*n)),
        GgufValue::Float64(t) => Some(t.clone()),
    }
}

/// Convert a metadata value to a display string, arrays by their item count.
pub fn value_to_display_string(value: &GgufValue) -> (r: String)
    ensures
        r@ == value_display(*value),
{
    match value {
        GgufValue::Array(n) => {
            let mut v = chars_of("[Array with ");
            push_decimal(&mut v, *n as u64);
            append_str(&mut v, " items]");
            string_from(&v)
        },
        _ => match value_to_string(value) {
            Some(s) => s,
            None => String::new(),
        },
    }
}

/// The JSON form of a value: numbers by their text, arrays by their
/// display text.
pub open spec fn value_json(v: GgufValue) -> Json {
    match v {
        GgufValue::Str(s) => Json::Str(s@),
        GgufValue::Bool(b) => Json::Bool(b),
        GgufValue::Array(_) => Json::Str(value_display(v)),
        _ => Json::Number(value_text(v).unwrap()),
    }
}

/// Convert a metadata value to JSON.
pub fn value_to_json(value: &GgufValue) -> (r: JsonValue)
    ensures
        r@ == value_json(*value),
{
    match value {
        GgufValue::Str(s) => JsonValue::Str(s.clone()),
        GgufValue::Bool(b) => JsonValue::Bool(*b),
        GgufValue::Array(_) => JsonValue::Str(value_to_display_string(value)),
        _ => match value_to_string(value) {
            Some(t) => JsonValue::Number(t),
            None => JsonValue::Null,
        },
    }
}

/// The key/value metadata of a GGUF file: each key at most once.
pub struct GgufMetadata {
    entries: Vec<(String, GgufValue)>,
}

impl GgufMetadata {
    /// The value stored under `key`, if any.
    pub closed spec fn lookup(self, key: Seq<char>) -> Option<GgufValue> {
        key_lookup(self.entries@, key)
    }

    /// The number of keys.
    pub closed spec fn key_count(self) -> nat {
        self.entries@.len()
    }

    /// No metadata.
    pub fn new() -> (m: GgufMetadata)
        ensures
            forall|k: Seq<char>| m.lookup(k) is None,
            m.key_count() == 0,
    {
        GgufMetadata { entries: Vec::new() }
    }

    /// The entries as JSON object members, in order.
    pub closed spec fn json_members(self) -> Seq<(Seq<char>, Json)> {
        Seq::new(
            self.entries@.len(),
            |j: int| (self.entries@[j].0@, value_json(self.entries@[j].1)),
        )
    }

    /// An object of `json_members` holds each key with its value as JSON.
    pub proof fn lemma_json_members(self)
        ensures
            self.json_members().len() == self.key_count(),
            forall|k: Seq<char>|
                #![trigger json_get(Json::Object(self.json_members()), k)]
                json_get(Json::Object(self.json_members()), k) == meta_json(self, k),
    {
        assert forall|k: Seq<char>|
            #![trigger json_get(Json::Object(self.json_members()), k)]
            json_get(Json::Object(self.json_members()), k) == meta_json(self, k) by {
            lemma_same_names(self.json_members(), self.entries@, k, 0);
            lemma_key_index_found(self.entries@, k, 0);
        }
    }

    /// The metadata as the members of a JSON object, one per entry, in the
    /// order of the entries.
    pub fn to_json_members(&self) -> (r: Vec<(String, JsonValue)>)
        ensures
            members_view(r@) == self.json_members(),
            r.len() == self.key_count(),
            forall|k: Seq<char>|
                #![trigger json_get(Json::Object(members_view(r@)), k)]
                json_get(Json::Object(members_view(r@)), k) == match self.lookup(k) {
                    Some(v) => Some(value_json(v)),
                    None => None,
                },
    {
        let mut out: Vec<(String, JsonValue)> = Vec::new();
        let mut i: usize = 0;
        while i < self.entries.len()
            invariant
                i <= self.entries.len(),
                out.len() == i,
                forall|j: int|
                    0 <= j < i ==> #[trigger] members_view(out@)[j] == (
                        self.entries@[j].0@,
                        value_json(self.entries@[j].1),
                    ),
            decreases self.entries.len() - i,
        {
            let name = self.entries[i].0.clone();
            let v = value_to_json(&self.entries[i].1);
            let ghost before = out@;
            out.push((name, v));
            proof {
                assert forall|j: int| 0 <= j <= i implies #[trigger] members_view(out@)[j] == (
                    self.entries@[j].0@,
                    value_json(self.entries@[j].1),
                ) by {
                    assert(members_view(out@)[j] == (out@[j].0@, out@[j].1@));
                    if j < i {
                        assert(out@[j] == before[j]);
                        assert(members_view(before)[j] == (before[j].0@, before[j].1@));
                    }
                }
            }
            i += 1;
        }
        proof {
            assert(members_view(out@) =~= self.json_members());
            self.lemma_json_members();
        }
        out
    }

    /// The value stored under `key`, if any.
    pub fn get(&self, key: &str) -> (r: Option<&GgufValue>)
        ensures
            match r {
                Some(v) => self.lookup(key@) == Some(*v),
                None => self.lookup(key@) is None,
            },
    {
        match key_position(&self.entries, key) {
            Some(i) => Some(&self.entries[i].1),
            None => None,
        }
    }

    /// Store `value` under `key`, replacing any value it had.
    pub fn insert(&mut self, key: String, value: GgufValue)
        ensures
            final(self).lookup(key@) == Some(value),
            forall|k: Seq<char>| k != key@ ==> final(self).lookup(k) == old(self).lookup(k),
    {
        let ghost kv = key@;
        match key_position(&self.entries, key.as_str()) {
            Some(i) => {
                self.entries.set(i, (key, value));
                proof {
                    lemma_replace_value(old(self).entries@, self.entries@, i as int, kv);
                }
            },
            None => {
                self.entries.push((key, value));
                proof {
                    lemma_append_value(old(self).entries@, self.entries@, kv);
                }
            },
        }
    }
}

/// Member lists named as the entries are searched alike.
proof fn lemma_same_names(ms: Seq<(Seq<char>, Json)>, entries: Seq<(String, GgufValue)>, key: Seq<char>, k: int)
    requires
        0 <= k <= ms.len(),
        ms.len() == entries.len(),
        forall|j: int| 0 <= j < ms.len() ==> #[trigger] ms[j] == (entries[j].0@, value_json(entries[j].1)),
    ensures
        member_index_from(ms, key, k) == key_index_from(entries, key, k),
    decreases ms.len() - k,
{
    if k < ms.len() {
        assert(ms[k] == (entries[k].0@, value_json(entries[k].1)));
        lemma_same_names(ms, entries, key, k + 1);
    }
}

// ---------------------------------------------------------------------------
// Display of metadata
// ---------------------------------------------------------------------------

/// What `format_parameter_count` returns: a count of at least a billion in
/// whole billions with `B`, of at least a million in whole millions with `M`,
/// a smaller count as it is; text that is not a count unchanged.
pub open spec fn format_parameter_count_spec(s: Seq<char>) -> Seq<char> {
    match parse_u64_spec(s) {
        Some(count) => if count >= 1_000_000_000 {
            decimal((count / 1_000_000_000) as nat) + seq!['B']
        } else if count >= 1_000_000 {
            decimal((count / 1_000_000) as nat) + seq!['M']
        } else {
            decimal(count as nat)
        },
        None => s,
    }
}

/// Format a parameter count for display, e.g. `7000000000` as `7B`.
pub fn format_parameter_count(param_str: &str) -> (r: String)
    ensures
        r@ == format_parameter_count_spec(param_str@),
{
    let chars = chars_of(param_str);
    match parse_u64(&chars) {
        Some(count) => {
            let mut out: Vec<char> = Vec::new();
            if count >= 1_000_000_000 {
                push_decimal(&mut out, count / 1_000_000_000);
                out.push('B');
            } else if count >= 1_000_000 {
                push_decimal(&mut out, count / 1_000_000);
                out.push('M');
            } else {
                push_decimal(&mut out, count);
            }
            assert(out@ =~= format_parameter_count_spec(param_str@));
            string_from(&out)
        },
        None => string_from(&chars),
    }
}

/// The JSON form of the value under `key`.
pub open spec fn meta_json(m: GgufMetadata, key: Seq<char>) -> Option<Json> {
    match m.lookup(key) {
        Some(v) => Some(value_json(v)),
        None => None,
    }
}

/// The text of the value under `key`, if there is one with a text.
pub open spec fn meta_text(m: GgufMetadata, key: Seq<char>) -> Option<Seq<char>> {
    match m.lookup(key) {
        Some(v) => value_text(v),
        None => None,
    }
}

/// The first of two optional texts that is present.
pub open spec fn or_text(a: Option<Seq<char>>, b: Option<Seq<char>>) -> Option<Seq<char>> {
    if a is Some {
        a
    } else {
        b
    }
}

/// A text, or `Unknown` when there is none.
pub open spec fn or_unknown(a: Option<Seq<char>>) -> Seq<char> {
    match a {
        Some(t) => t,
        None => "Unknown"@,
    }
}

/// Basic model metadata: architecture, parameter count, quantization and
/// context length, each `Unknown` when the metadata does not give it.
pub struct GgufBasicMetadata {
    pub architecture: String,
    pub parameters: String,
    pub quantization: String,
    pub context_length: String,
}

/// The text of the value under `key`, copied.
fn text_of(metadata: &GgufMetadata, key: &str) -> (r: Option<String>)
    ensures
        match r {
            Some(t) => meta_text(*metadata, key@) == Some(t@),
            None => meta_text(*metadata, key@) is None,
        },
{
    match metadata.get(key) {
        Some(v) => value_to_string(v),
        None => None,
    }
}

/// The first of two keys that has a text.
fn text_of_either(metadata: &GgufMetadata, first: &str, second: &str) -> (r: Option<String>)
    ensures
        match r {
            Some(t) => or_text(meta_text(*metadata, first@), meta_text(*metadata, second@)) == Some(t@),
            None => or_text(meta_text(*metadata, first@), meta_text(*metadata, second@)) is None,
        },
{
    match text_of(metadata, first) {
        Some(t) => Some(t),
        None => text_of(metadata, second),
    }
}

/// A text, or `Unknown`.
fn unwrap_or_unknown(t: Option<String>) -> (r: String)
    ensures
        r@ == or_unknown(opt_text(t)),
{
    match t {
        Some(s) => s,
        None => "Unknown".to_owned(),
    }
}

/// The view of an optional string.
pub open spec fn opt_text(t: Option<String>) -> Option<Seq<char>> {
    match t {
        Some(s) => Some(s@),
        None => None,
    }
}

/// The basic metadata that `read_gguf_basic_metadata` reads from `m`.
pub open spec fn basic_metadata_spec(m: GgufMetadata) -> (Seq<char>, Seq<char>, Seq<char>, Seq<char>) {
    let architecture = or_unknown(
        or_text(meta_text(m, "general.architecture"@), meta_text(m, "general.arch"@)),
    );
    let parameters = match or_text(
        meta_text(m, "general.parameter_count"@),
        meta_text(m, "general.param_count"@),
    ) {
        Some(p) => format_parameter_count_spec(p),
        None => "Unknown"@,
    };
    let quantization = or_unknown(
        or_text(meta_text(m, "general.quantization_version"@), meta_text(m, "general.file_type"@)),
    );
    let context_length = or_unknown(
        or_text(
            or_text(
                meta_text(m, architecture + ".context_length"@),
                meta_text(m, "llama.context_length"@),
            ),
            or_text(meta_text(m, "general.context_length"@), meta_text(m, "context_length"@)),
        ),
    );
    (architecture, parameters, quantization, context_length)
}

/// Read the basic metadata out of a GGUF file's key/value table: the
/// architecture, the formatted parameter count, the quantization and the
/// context length (first by the architecture's own key).
pub fn read_gguf_basic_metadata(metadata: &GgufMetadata) -> (r: GgufBasicMetadata)
    ensures
        (r.architecture@, r.parameters@, r.quantization@, r.context_length@)
            == basic_metadata_spec(*metadata),
{
    let architecture = unwrap_or_unknown(
        text_of_either(metadata, "general.architecture", "general.arch"),
    );
    let parameters = match text_of_either(metadata, "general.parameter_count", "general.param_count") {
        Some(p) => format_parameter_count(p.as_str()),
        None => "Unknown".to_owned(),
    };
    let quantization = unwrap_or_unknown(
        text_of_either(metadata, "general.quantization_version", "general.file_type"),
    );
    let mut key = chars_of(architecture.as_str());
    append_str(&mut key, ".context_length");
    let arch_key = string_from(&key);
    let first = match text_of(metadata, arch_key.as_str()) {
        Some(t) => Some(t),
        None => text_of(metadata, "llama.context_length"),
    };
    let found = match first {
        Some(t) => Some(t),
        None => text_of_either(metadata, "general.context_length", "context_length"),
    };
    let context_length = unwrap_or_unknown(found);
    GgufBasicMetadata { architecture, parameters, quantization, context_length }
}

/// Reads metadata values by key, as strings.
pub struct MetadataExtractor<'a> {
    pub metadata: &'a GgufMetadata,
}

impl<'a> MetadataExtractor<'a> {
    /// An extractor over `metadata`.
    pub fn new(metadata: &'a GgufMetadata) -> (r: Self)
        ensures
            *r.metadata == *metadata,
    {
        MetadataExtractor { metadata }
    }

    /// The value under `key` as a string.
    pub fn get_string(&self, key: &str) -> (r: Option<String>)
        ensures
            opt_text(r) == meta_text(*self.metadata, key@),
    {
        text_of(self.metadata, key)
    }

    /// The value under `key` as JSON.
    pub fn get_json(&self, key: &str) -> (r: Option<JsonValue>)
        ensures
            opt_view(r) == meta_json(*self.metadata, key@),
    {
        match self.metadata.get(key) {
            Some(v) => Some(value_to_json(v)),
            None => None,
        }
    }

    /// All metadata as one JSON object: each key with its value as JSON.
    pub fn to_json_map(&self) -> (r: JsonValue)
        ensures
            r@ == Json::Object(self.metadata.json_members()),
            r is Object,
            r->Object_0.len() == self.metadata.key_count(),
            forall|k: Seq<char>| #![trigger json_get(r@, k)] json_get(r@, k) == meta_json(*self.metadata, k),
    {
        let ms = self.metadata.to_json_members();
        proof {
            lemma_object_of(ms);
        }
        JsonValue::Object(ms)
    }

    /// The value under `<arch>.<field>` as a string.
    pub fn get_arch_field(&self, arch: &str, field: &str) -> (r: Option<String>)
        ensures
            opt_text(r) == meta_text(*self.metadata, arch@ + seq!['.'] + field@),
    {
        let mut key = chars_of(arch);
        key.push('.');
        append_str(&mut key, field);
        assert(key@ =~= arch@ + seq!['.'] + field@);
        let k = string_from(&key);
        text_of(self.metadata, k.as_str())
    }
}

// ---------------------------------------------------------------------------
// Chat templates, tool formats and file names
// ---------------------------------------------------------------------------

/// The default system prompt in a chat template: the text between
/// `set default_system_message = '` and the next `' %}`.
pub open spec fn default_system_prompt_spec(t: Seq<char>) -> Option<Seq<char>> {
    let marker = "set default_system_message = '"@;
    match first_index(t, marker) {
        Some(i) => {
            let after = t.skip(i + marker.len());
            match first_index(after, "' %}"@) {
                Some(e) => Some(after.take(e)),
                None => None,
            }
        },
        None => None,
    }
}

/// Extract the default system prompt from a chat template, if it sets one.
pub fn extract_default_system_prompt(chat_template: &str) -> (r: Option<String>)
    ensures
        opt_text(r) == default_system_prompt_spec(chat_template@),
{
    let t = chars_of(chat_template);
    let marker = chars_of("set default_system_message = '");
    let end_marker = chars_of("' %}");
    let start_idx = match find(&t, &marker) {
        Some(i) => i,
        None => return None,
    };
    proof {
        lemma_first_index(t@, marker@);
    }
    let n = t.len();
    assert(start_idx + marker.len() <= n);
    let after = slice_of(&t, start_idx + marker.len(), n);
    assert(after@ == t@.skip(start_idx + marker@.len()));
    match find(&after, &end_marker) {
        Some(end_idx) => {
            proof {
                lemma_first_index(after@, end_marker@);
            }
            let prompt = slice_of(&after, 0, end_idx);
            assert(prompt@ == after@.take(end_idx as int));
            Some(string_from(&prompt))
        },
        None => None,
    }
}

/// The tool-calling format of a model, by its architecture and name.
pub open spec fn tool_format_spec(architecture: Seq<char>, model_name: Seq<char>) -> Seq<char> {
    let a = unicode_lowercase(architecture);
    let n = unicode_lowercase(model_name);
    if contains(a, "mistral"@) || contains(n, "mistral"@) || contains(n, "devstral"@) {
        "mistral"@
    } else if contains(a, "llama"@) && (contains(n, "llama-3"@) || contains(n, "llama3"@)) {
        "llama3"@
    } else if contains(a, "qwen"@) || contains(n, "qwen"@) {
        "qwen"@
    } else {
        "unknown"@
    }
}

/// Detect the tool-calling format from the architecture and model name.
pub fn detect_tool_format(architecture: &str, model_name: &str) -> (r: &'static str)
    ensures
        r@ == tool_format_spec(architecture@, model_name@),
{
    let arch_l = to_lowercase(architecture);
    let name_l = to_lowercase(model_name);
    let a = chars_of(arch_l.as_str());
    let n = chars_of(name_l.as_str());
    if contains_exec(&a, &chars_of("mistral")) || contains_exec(&n, &chars_of("mistral"))
        || contains_exec(&n, &chars_of("devstral")) {
        "mistral"
    } else if contains_exec(&a, &chars_of("llama")) && (contains_exec(&n, &chars_of("llama-3"))
        || contains_exec(&n, &chars_of("llama3"))) {
        "llama3"
    } else if contains_exec(&a, &chars_of("qwen")) || contains_exec(&n, &chars_of("qwen")) {
        "qwen"
    } else {
        "unknown"
    }
}

/// A model whose lowercased name mentions `devstral` or `mistral`, or whose
/// lowercased architecture mentions `mistral`, calls tools in the Mistral
/// format, whatever else its architecture and name say.
pub proof fn lemma_mistral_family_format(architecture: Seq<char>, model_name: Seq<char>)
    requires
        contains(unicode_lowercase(model_name), "devstral"@)
            || contains(unicode_lowercase(model_name), "mistral"@)
            || contains(unicode_lowercase(architecture), "mistral"@),
    ensures
        tool_format_spec(architecture, model_name) == "mistral"@,
{
}

/// Outside the Mistral family, a model whose lowercased architecture or name
/// mentions `qwen` and that is no Llama 3 calls tools in the Qwen format.
pub proof fn lemma_qwen_format(architecture: Seq<char>, model_name: Seq<char>)
    requires
        !contains(unicode_lowercase(model_name), "devstral"@),
        !contains(unicode_lowercase(model_name), "mistral"@),
        !contains(unicode_lowercase(architecture), "mistral"@),
        !contains(unicode_lowercase(architecture), "llama"@),
        contains(unicode_lowercase(architecture), "qwen"@)
            || contains(unicode_lowercase(model_name), "qwen"@),
    ensures
        tool_format_spec(architecture, model_name) == "qwen"@,
{
}

/// Architecture names for `parse_model_filename`, in the order they are tried.
pub open spec fn filename_architecture_table() -> Seq<(&'static str, &'static str)> {
    seq![
        ("llama", "LLaMA"),
        ("mistral", "Mistral"),
        ("qwen", "Qwen"),
        ("granite", "Granite"),
        ("codellama", "Code Llama"),
        ("phi", "Phi"),
        ("gemma", "Gemma"),
        ("falcon", "Falcon"),
        ("vicuna", "Vicuna"),
        ("deepseek", "DeepSeek"),
    ]
}

/// Parameter-count patterns for `parse_model_filename`, in the order tried.
pub open spec fn param_count_patterns() -> Seq<&'static str> {
    seq![
        "405b", "236b", "180b", "141b", "123b", "110b", "90b", "80b", "72b", "70b",
        "65b", "46b", "40b", "35b", "34b", "32b", "30b", "27b", "22b", "20b", "14b",
        "13b", "12b", "11b", "8b", "7b", "6b", "4b", "3b", "2b", "1b",
        "0.5b", "1.8b", "2.8b", "3.8b", "4.5b",
    ]
}

/// Quantization patterns for `parse_model_filename`, in the order tried.
pub open spec fn quant_patterns() -> Seq<&'static str> {
    seq![
        "q8_0", "q6_k", "q5_k_m", "q5_k_s", "q5_1", "q5_0",
        "q4_k_m", "q4_k_s", "q4_1", "q4_0", "q3_k_m", "q3_k_s",
        "q2_k", "iq4_xs", "iq3_xxs", "iq2_xxs", "f16", "f32", "bf16",
    ]
}

/// The upper-cased first pattern of `list` that occurs in `h`, or `Unknown`.
pub open spec fn upper_first_match(h: Seq<char>, list: Seq<&str>) -> Seq<char> {
    match first_pattern_from(h, list_patterns(list), 0) {
        Some(k) => unicode_uppercase(list[k]@),
        None => "Unknown"@,
    }
}

fn filename_architectures() -> (t: Vec<(&'static str, &'static str)>)
    ensures
        t@ == filename_architecture_table(),
{
    let mut t = Vec::new();
    t.push(("llama", "LLaMA"));
    t.push(("mistral", "Mistral"));
    t.push(("qwen", "Qwen"));
    t.push(("granite", "Granite"));
    t.push(("codellama", "Code Llama"));
    t.push(("phi", "Phi"));
    t.push(("gemma", "Gemma"));
    t.push(("falcon", "Falcon"));
    t.push(("vicuna", "Vicuna"));
    t.push(("deepseek", "DeepSeek"));
    t
}

fn param_count_list() -> (t: Vec<&'static str>)
    ensures
        t@ == param_count_patterns(),
{
    let mut t = Vec::new();
    t.push("405b");
    t.push("236b");
    t.push("180b");
    t.push("141b");
    t.push("123b");
    t.push("110b");
    t.push("90b");
    t.push("80b");
    t.push("72b");
    t.push("70b");
    t.push("65b");
    t.push("46b");
    t.push("40b");
    t.push("35b");
    t.push("34b");
    t.push("32b");
    t.push("30b");
    t.push("27b");
    t.push("22b");
    t.push("20b");
    t.push("14b");
    t.push("13b");
    t.push("12b");
    t.push("11b");
    t.push("8b");
    t.push("7b");
    t.push("6b");
    t.push("4b");
    t.push("3b");
    t.push("2b");
    t.push("1b");
    t.push("0.5b");
    t.push("1.8b");
    t.push("2.8b");
    t.push("3.8b");
    t.push("4.5b");
    t
}

fn quant_list() -> (t: Vec<&'static str>)
    ensures
        t@ == quant_patterns(),
{
    let mut t = Vec::new();
    t.push("q8_0");
    t.push("q6_k");
    t.push("q5_k_m");
    t.push("q5_k_s");
    t.push("q5_1");
    t.push("q5_0");
    t.push("q4_k_m");
    t.push("q4_k_s");
    t.push("q4_1");
    t.push("q4_0");
    t.push("q3_k_m");
    t.push("q3_k_s");
    t.push("q2_k");
    t.push("iq4_xs");
    t.push("iq3_xxs");
    t.push("iq2_xxs");
    t.push("f16");
    t.push("f32");
    t.push("bf16");
    t
}

/// The upper-cased first pattern of `list` that occurs in `h`, or `Unknown`.
fn upper_first(h: &Vec<char>, list: &Vec<&'static str>) -> (r: String)
    ensures
        r@ == upper_first_match(h@, list@),
{
    match first_list_match(h, list) {
        Some(k) => to_uppercase(list[k]),
        None => "Unknown".to_owned(),
    }
}

/// The parameter count that a (lower-case) file name states, upper-cased, e.g. `7B`.
pub fn extract_param_count(filename: &str) -> (r: String)
    ensures
        r@ == upper_first_match(filename@, param_count_patterns()),
{
    let f = chars_of(filename);
    upper_first(&f, &param_count_list())
}

/// The quantization that a (lower-case) file name states, upper-cased, e.g. `Q4_K_M`.
pub fn extract_quantization(filename: &str) -> (r: String)
    ensures
        r@ == upper_first_match(filename@, quant_patterns()),
{
    let f = chars_of(filename);
    upper_first(&f, &quant_list())
}

/// Architecture, parameter count and quantization from a model file name,
/// when the file's own metadata cannot be read.
pub fn parse_model_filename(filename: &str) -> (r: (String, String, String))
    ensures
        r.0@ == table_lookup(unicode_lowercase(filename@), filename_architecture_table()),
        r.1@ == upper_first_match(unicode_lowercase(filename@), param_count_patterns()),
        r.2@ == upper_first_match(unicode_lowercase(filename@), quant_patterns()),
{
    let lower = to_lowercase(filename);
    let l = chars_of(lower.as_str());
    let architecture = lookup_in_table(&l, &filename_architectures()).to_owned();
    let parameters = extract_param_count(lower.as_str());
    let quantization = extract_quantization(lower.as_str());
    (architecture, parameters, quantization)
}

} // verus!
