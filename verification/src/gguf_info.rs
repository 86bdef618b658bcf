//! The model information shown for a GGUF file: what its name, size and
//! metadata say, gathered into one JSON object.

use vstd::prelude::*;
use crate::filename_patterns::{
    architecture_table, detect_architecture, detect_parameters, detect_quantization,
    parameter_table, quantization_table,
};
use crate::gguf_utils::{
    default_system_prompt_spec, detect_tool_format, extract_default_system_prompt, meta_json,
    meta_text, opt_text, tool_format_spec, GgufMetadata, MetadataExtractor,
};
use crate::json::{
    lemma_object_of, members_insert, members_view, object_insert, Json, JsonValue,
};
use crate::text::{
    append_chars, append_str, ascii_lower_seq, ascii_lowercase_exec, chars_of, decimal,
    last_index, lemma_last_index_upto, matches_at, parse_u64, parse_u64_spec, push_decimal, rfind, single,
    slice_of, slices_equal, string_from, table_lookup, u64_text, unicode_lowercase,
};

verus! {

/// Bytes in a gibibyte.
pub const BYTES_PER_GB: u64 = 1_073_741_824;

/// The layer count assumed for a model file of `bytes` bytes before its
/// metadata is read: 36 under 8 GB, 45 under 15 GB, 60 under 25 GB, else 80.
pub open spec fn estimated_layers_spec(bytes: u64) -> u32 {
    if bytes < 8 * BYTES_PER_GB {
        36
    } else if bytes < 15 * BYTES_PER_GB {
        45
    } else if bytes < 25 * BYTES_PER_GB {
        60
    } else {
        80
    }
}

/// The layer count assumed for a model file of `bytes` bytes.
pub fn estimated_layers_for_size(bytes: u64) -> (r: u32)
    ensures
        r == estimated_layers_spec(bytes),
{
    if bytes < 8 * BYTES_PER_GB {
        36
    } else if bytes < 15 * BYTES_PER_GB {
        45
    } else if bytes < 25 * BYTES_PER_GB {
        60
    } else {
        80
    }
}

/// What `str::parse::<u32>` gives.
pub open spec fn parse_u32_spec(s: Seq<char>) -> Option<u32> {
    match parse_u64_spec(s) {
        Some(n) => if n <= u32::MAX {
            Some(n as u32)
        } else {
            None
        },
        None => None,
    }
}

/// `ms` with member `key` set to the string `v`, where there is one.
pub open spec fn set_text(ms: Seq<(Seq<char>, Json)>, key: Seq<char>, v: Option<Seq<char>>) -> Seq<(Seq<char>, Json)> {
    match v {
        Some(t) => members_insert(ms, key, Json::Str(t)),
        None => ms,
    }
}

/// `ms` with, for each `(metadata key, member name)` of `table` in turn, the
/// member set to the text of the metadata value, where there is one.
pub open spec fn set_texts(ms: Seq<(Seq<char>, Json)>, m: GgufMetadata, table: Seq<(&str, &str)>) -> Seq<(Seq<char>, Json)>
    decreases table.len(),
{
    if table.len() == 0 {
        ms
    } else {
        set_text(set_texts(ms, m, table.drop_last()), table.last().1@, meta_text(m, table.last().0@))
    }
}

/// As `set_texts`, with each metadata key read as `<arch>.<key>`.
pub open spec fn set_arch_texts(
    ms: Seq<(Seq<char>, Json)>,
    m: GgufMetadata,
    arch: Seq<char>,
    table: Seq<(&str, &str)>,
) -> Seq<(Seq<char>, Json)>
    decreases table.len(),
{
    if table.len() == 0 {
        ms
    } else {
        set_text(
            set_arch_texts(ms, m, arch, table.drop_last()),
            table.last().1@,
            meta_text(m, arch + seq!['.'] + table.last().0@),
        )
    }
}

/// `ms` with, for each `(metadata key, member name)` of `table` in turn, the
/// member set to the metadata value as JSON, where there is one.
pub open spec fn set_jsons(ms: Seq<(Seq<char>, Json)>, m: GgufMetadata, table: Seq<(&str, &str)>) -> Seq<(Seq<char>, Json)>
    decreases table.len(),
{
    if table.len() == 0 {
        ms
    } else {
        let prev = set_jsons(ms, m, table.drop_last());
        match meta_json(m, table.last().0@) {
            Some(v) => members_insert(prev, table.last().1@, v),
            None => prev,
        }
    }
}

/// General fields copied as text.
pub open spec fn general_fields() -> Seq<(&'static str, &'static str)> {
    seq![
        ("general.name", "general_name"),
        ("general.author", "author"),
        ("general.version", "version"),
        ("general.organization", "organization"),
        ("general.description", "description"),
        ("general.license", "license"),
        ("general.url", "url"),
        ("general.repo_url", "repo_url"),
        ("general.file_type", "file_type"),
        ("general.quantization_version", "quantization_version"),
    ]
}

/// Architecture fields copied as text, read under `<arch>.`.
pub open spec fn architecture_fields() -> Seq<(&'static str, &'static str)> {
    seq![
        ("embedding_length", "embedding_length"),
        ("feed_forward_length", "feed_forward_length"),
        ("attention.head_count", "attention_head_count"),
        ("attention.head_count_kv", "attention_head_count_kv"),
        ("attention.layer_norm_rms_epsilon", "layer_norm_epsilon"),
        ("rope.dimension_count", "rope_dimension_count"),
        ("rope.freq_base", "rope_freq_base"),
    ]
}

/// Tokenizer fields copied as text.
pub open spec fn tokenizer_fields() -> Seq<(&'static str, &'static str)> {
    seq![
        ("tokenizer.ggml.model", "tokenizer_model"),
        ("tokenizer.ggml.bos_token_id", "bos_token_id"),
        ("tokenizer.ggml.eos_token_id", "eos_token_id"),
        ("tokenizer.ggml.padding_token_id", "padding_token_id"),
    ]
}

/// Sampling parameters recommended by the file, copied as JSON.
pub open spec fn sampling_fields() -> Seq<(&'static str, &'static str)> {
    seq![
        ("general.sampling.temp", "temperature"),
        ("general.sampling.top_p", "top_p"),
        ("general.sampling.top_k", "top_k"),
        ("general.sampling.min_p", "min_p"),
        ("general.sampling.repetition_penalty", "repetition_penalty"),
    ]
}

pub(crate) fn general_field_table() -> (t: Vec<(&'static str, &'static str)>)
    ensures
        t@ == general_fields(),
{
    let mut t = Vec::new();
    t.push(("general.name", "general_name"));
    t.push(("general.author", "author"));
    t.push(("general.version", "version"));
    t.push(("general.organization", "organization"));
    t.push(("general.description", "description"));
    t.push(("general.license", "license"));
    t.push(("general.url", "url"));
    t.push(("general.repo_url", "repo_url"));
    t.push(("general.file_type", "file_type"));
    t.push(("general.quantization_version", "quantization_version"));
    t
}

pub(crate) fn architecture_field_table() -> (t: Vec<(&'static str, &'static str)>)
    ensures
        t@ == architecture_fields(),
{
    let mut t = Vec::new();
    t.push(("embedding_length", "embedding_length"));
    t.push(("feed_forward_length", "feed_forward_length"));
    t.push(("attention.head_count", "attention_head_count"));
    t.push(("attention.head_count_kv", "attention_head_count_kv"));
    t.push(("attention.layer_norm_rms_epsilon", "layer_norm_epsilon"));
    t.push(("rope.dimension_count", "rope_dimension_count"));
    t.push(("rope.freq_base", "rope_freq_base"));
    t
}

pub(crate) fn tokenizer_field_table() -> (t: Vec<(&'static str, &'static str)>)
    ensures
        t@ == tokenizer_fields(),
{
    let mut t = Vec::new();
    t.push(("tokenizer.ggml.model", "tokenizer_model"));
    t.push(("tokenizer.ggml.bos_token_id", "bos_token_id"));
    t.push(("tokenizer.ggml.eos_token_id", "eos_token_id"));
    t.push(("tokenizer.ggml.padding_token_id", "padding_token_id"));
    t
}

pub(crate) fn sampling_field_table() -> (t: Vec<(&'static str, &'static str)>)
    ensures
        t@ == sampling_fields(),
{
    let mut t = Vec::new();
    t.push(("general.sampling.temp", "temperature"));
    t.push(("general.sampling.top_p", "top_p"));
    t.push(("general.sampling.top_k", "top_k"));
    t.push(("general.sampling.min_p", "min_p"));
    t.push(("general.sampling.repetition_penalty", "repetition_penalty"));
    t
}

/// Set member `key` to the string `v`, where there is one.
pub(crate) fn put_text(out: &mut Vec<(String, JsonValue)>, key: &str, v: Option<String>)
    ensures
        members_view(final(out)@) == set_text(members_view(old(out)@), key@, opt_text(v)),
{
    match v {
        Some(t) => object_insert(out, key.to_string(), JsonValue::Str(t)),
        None => {},
    }
}

/// Apply `set_texts` for `table`.
pub(crate) fn put_texts(out: &mut Vec<(String, JsonValue)>, m: &GgufMetadata, table: &Vec<(&'static str, &'static str)>)
    ensures
        members_view(final(out)@) == set_texts(members_view(old(out)@), *m, table@),
{
    let ex = MetadataExtractor::new(m);
    let mut i: usize = 0;
    while i < table.len()
        invariant
            i <= table.len(),
            *ex.metadata == *m,
            members_view(out@) == set_texts(members_view(old(out)@), *m, table@.take(i as int)),
        decreases table.len() - i,
    {
        let (gguf_key, json_key) = table[i];
        let v = ex.get_string(gguf_key);
        put_text(out, json_key, v);
        proof {
            assert(table@.take(i + 1).drop_last() =~= table@.take(i as int));
        }
        i += 1;
    }
    proof {
        assert(table@.take(i as int) =~= table@);
    }
}

/// Apply `set_arch_texts` for `table`.
pub(crate) fn put_arch_texts(
    out: &mut Vec<(String, JsonValue)>,
    m: &GgufMetadata,
    arch: &str,
    table: &Vec<(&'static str, &'static str)>,
)
    ensures
        members_view(final(out)@) == set_arch_texts(members_view(old(out)@), *m, arch@, table@),
{
    let ex = MetadataExtractor::new(m);
    let mut i: usize = 0;
    while i < table.len()
        invariant
            i <= table.len(),
            *ex.metadata == *m,
            members_view(out@) == set_arch_texts(
                members_view(old(out)@),
                *m,
                arch@,
                table@.take(i as int),
            ),
        decreases table.len() - i,
    {
        let (field, json_key) = table[i];
        let v = ex.get_arch_field(arch, field);
        put_text(out, json_key, v);
        proof {
            assert(table@.take(i + 1).drop_last() =~= table@.take(i as int));
        }
        i += 1;
    }
    proof {
        assert(table@.take(i as int) =~= table@);
    }
}

/// Apply `set_jsons` for `table`.
pub(crate) fn put_jsons(out: &mut Vec<(String, JsonValue)>, m: &GgufMetadata, table: &Vec<(&'static str, &'static str)>)
    ensures
        members_view(final(out)@) == set_jsons(members_view(old(out)@), *m, table@),
{
    let ex = MetadataExtractor::new(m);
    let mut i: usize = 0;
    while i < table.len()
        invariant
            i <= table.len(),
            *ex.metadata == *m,
            members_view(out@) == set_jsons(members_view(old(out)@), *m, table@.take(i as int)),
        decreases table.len() - i,
    {
        let (gguf_key, json_key) = table[i];
        match ex.get_json(gguf_key) {
            Some(v) => object_insert(out, json_key.to_string(), v),
            None => {},
        }
        proof {
            assert(table@.take(i + 1).drop_last() =~= table@.take(i as int));
        }
        i += 1;
    }
    proof {
        assert(table@.take(i as int) =~= table@);
    }
}

/// The extension of a file name, as `Path::extension` gives it: the text
/// after the last `.`, where that `.` is not the name's first character.
pub open spec fn file_extension(name: Seq<char>) -> Option<Seq<char>> {
    match last_index(name, seq!['.']) {
        Some(i) => if i == 0 {
            None
        } else {
            Some(name.skip(i + 1))
        },
        None => None,
    }
}

/// The file name has the extension `gguf`, in any ASCII case.
pub open spec fn is_gguf_name(name: Seq<char>) -> bool {
    match file_extension(name) {
        Some(e) => ascii_lower_seq(e) == "gguf"@,
        None => false,
    }
}

/// Does the file name have the extension `gguf`, in any ASCII case?
pub fn has_gguf_extension(file_name: &str) -> (r: bool)
    ensures
        r == is_gguf_name(file_name@),
{
    let name = chars_of(file_name);
    let dot = single('.');
    match rfind(&name, &dot) {
        Some(i) => {
            if i == 0 {
                return false;
            }
            proof {
                lemma_last_index_upto(name@, dot@, name@.len() - dot@.len());
                assert(matches_at(name@, dot@, i as int));
                assert(dot@.len() == 1);
                assert(i < name.len());
            }
            let ext = slice_of(&name, i + 1, name.len());
            assert(ext@ == name@.skip(i + 1));
            let lower = ascii_lowercase_exec(&ext);
            slices_equal(&lower, &chars_of("gguf"))
        },
        None => false,
    }
}

/// `names` joined by `, `.
pub open spec fn join_names(names: Seq<Seq<char>>) -> Seq<char>
    decreases names.len(),
{
    if names.len() == 0 {
        Seq::empty()
    } else if names.len() == 1 {
        names[0]
    } else {
        join_names(names.drop_last()) + ", "@ + names.last()
    }
}

/// The names of the directory entries that are files named `*.gguf`, in order.
pub open spec fn gguf_file_names(entries: Seq<(String, bool)>) -> Seq<Seq<char>>
    decreases entries.len(),
{
    if entries.len() == 0 {
        Seq::empty()
    } else {
        let prev = gguf_file_names(entries.drop_last());
        let (name, is_file) = entries.last();
        if is_file && is_gguf_name(name@) {
            prev.push(name@)
        } else {
            prev
        }
    }
}

/// The error given for a directory, listing the GGUF files in it.
pub open spec fn directory_message_spec(names: Seq<Seq<char>>) -> Seq<char> {
    if names.len() == 0 {
        "This is a directory. No .gguf files found."@
    } else {
        "This is a directory. Found "@ + decimal(names.len()) + " .gguf file(s): "@ + join_names(
            names,
        )
    }
}

/// The error for a directory whose entries are `(name, is a file)` pairs.
pub fn directory_message(entries: &Vec<(String, bool)>) -> (r: String)
    ensures
        r@ == directory_message_spec(gguf_file_names(entries@)),
{
    let mut joined: Vec<char> = Vec::new();
    let mut count: u64 = 0;
    let mut i: usize = 0;
    while i < entries.len()
        invariant
            i <= entries.len(),
            entries.len() <= u64::MAX,
            count as nat == gguf_file_names(entries@.take(i as int)).len(),
            count <= i,
            joined@ == join_names(gguf_file_names(entries@.take(i as int))),
        decreases entries.len() - i,
    {
        let ghost prev = gguf_file_names(entries@.take(i as int));
        proof {
            assert(entries@.take(i + 1).drop_last() =~= entries@.take(i as int));
        }
        if entries[i].1 && has_gguf_extension(entries[i].0.as_str()) {
            if count > 0 {
                append_str(&mut joined, ", ");
            }
            append_str(&mut joined, entries[i].0.as_str());
            count += 1;
            proof {
                let now = prev.push(entries@[i as int].0@);
                assert(now.drop_last() =~= prev);
                if prev.len() == 0 {
                    assert(joined@ =~= join_names(now));
                } else {
                    assert(joined@ =~= join_names(now));
                }
            }
        }
        i += 1;
    }
    proof {
        assert(entries@.take(i as int) =~= entries@);
    }
    if count == 0 {
        "This is a directory. No .gguf files found.".to_string()
    } else {
        let mut out = chars_of("This is a directory. Found ");
        push_decimal(&mut out, count);
        append_str(&mut out, " .gguf file(s): ");
        append_chars(&mut out, &joined);
        string_from(&out)
    }
}

/// The members of the information object before any metadata is read.
pub open spec fn base_info_members(name: Seq<char>, path: Seq<char>, size_text: Seq<char>, bytes: u64) -> Seq<(Seq<char>, Json)> {
    let lower = unicode_lowercase(name);
    seq![
        ("name"@, Json::Str(name)),
        ("architecture"@, Json::Str(table_lookup(lower, architecture_table()))),
        ("parameters"@, Json::Str(table_lookup(lower, parameter_table()))),
        ("quantization"@, Json::Str(table_lookup(lower, quantization_table()))),
        ("file_size"@, Json::Str(size_text)),
        ("context_length"@, Json::Str("Variable"@)),
        ("path"@, Json::Str(path)),
        ("estimated_layers"@, Json::Number(decimal(estimated_layers_spec(bytes) as nat))),
    ]
}

/// `v`, or `d` where it is absent.
pub open spec fn text_or(v: Option<Seq<char>>, d: Seq<char>) -> Seq<char> {
    match v {
        Some(t) => t,
        None => d,
    }
}

/// The first of three optional texts that is present.
pub open spec fn first_text(a: Option<Seq<char>>, b: Option<Seq<char>>, c: Option<Seq<char>>) -> Option<Seq<char>> {
    if a is Some {
        a
    } else if b is Some {
        b
    } else {
        c
    }
}

/// The architecture named by the metadata, `llama` where it names none.
pub open spec fn metadata_architecture(m: GgufMetadata) -> Seq<char> {
    text_or(meta_text(m, "general.architecture"@), "llama"@)
}

/// The members `ms` with what the metadata `m` adds to them.
pub open spec fn with_metadata(ms: Seq<(Seq<char>, Json)>, m: GgufMetadata) -> Seq<(Seq<char>, Json)> {
    let ms1 = members_insert(ms, "gguf_metadata"@, Json::Object(m.json_members()));
    let arch = metadata_architecture(m);
    let ms2 = members_insert(ms1, "architecture"@, Json::Str(arch));
    let model_name = text_or(meta_text(m, "general.name"@), Seq::empty());
    let ms3 = members_insert(ms2, "tool_format"@, Json::Str(tool_format_spec(arch, model_name)));
    let ms4 = set_texts(ms3, m, general_fields());
    let ms5 = with_context_length(ms4, m, arch);
    let ms6 = set_arch_texts(ms5, m, arch, architecture_fields());
    let ms7 = with_block_count(ms6, m, arch);
    let ms8 = set_texts(ms7, m, tokenizer_fields());
    with_recommended(with_chat_template(ms8, m), m)
}

/// `ms` with the context length: the first of `<arch>.context_length`,
/// `llama.context_length` and `context_length` that the metadata has.
pub open spec fn with_context_length(ms: Seq<(Seq<char>, Json)>, m: GgufMetadata, arch: Seq<char>) -> Seq<(Seq<char>, Json)> {
    set_text(
        ms,
        "context_length"@,
        first_text(
            meta_text(m, arch + seq!['.'] + "context_length"@),
            meta_text(m, "llama.context_length"@),
            meta_text(m, "context_length"@),
        ),
    )
}

/// `ms` with the block count of architecture `arch`, where the metadata has
/// one, and the layer estimate replaced by it where it is a `u32`.
pub open spec fn with_block_count(ms: Seq<(Seq<char>, Json)>, m: GgufMetadata, arch: Seq<char>) -> Seq<(Seq<char>, Json)> {
    match meta_text(m, arch + seq!['.'] + "block_count"@) {
        Some(v) => {
            let with_count = members_insert(ms, "block_count"@, Json::Str(v));
            match parse_u32_spec(v) {
                Some(c) => members_insert(
                    with_count,
                    "estimated_layers"@,
                    Json::Number(decimal(c as nat)),
                ),
                None => with_count,
            }
        },
        None => ms,
    }
}

/// `ms` with the chat template, where the metadata has one, and the default
/// system prompt that it sets, where it sets one.
pub open spec fn with_chat_template(ms: Seq<(Seq<char>, Json)>, m: GgufMetadata) -> Seq<(Seq<char>, Json)> {
    match meta_text(m, "tokenizer.chat_template"@) {
        Some(t) => set_text(
            members_insert(ms, "chat_template"@, Json::Str(t)),
            "default_system_prompt"@,
            default_system_prompt_spec(t),
        ),
        None => ms,
    }
}

/// `ms` with the sampling parameters that the file recommends, where it
/// recommends any.
pub open spec fn with_recommended(ms: Seq<(Seq<char>, Json)>, m: GgufMetadata) -> Seq<(Seq<char>, Json)> {
    let recommended = set_jsons(Seq::empty(), m, sampling_fields());
    if recommended.len() > 0 {
        members_insert(ms, "recommended_params"@, Json::Object(recommended))
    } else {
        ms
    }
}

/// The members of the information object for a file.
pub open spec fn model_info_members(
    name: Seq<char>,
    path: Seq<char>,
    size_text: Seq<char>,
    bytes: u64,
    metadata: Option<GgufMetadata>,
) -> Seq<(Seq<char>, Json)> {
    let base = base_info_members(name, path, size_text, bytes);
    match metadata {
        Some(m) => with_metadata(base, m),
        None => base,
    }
}

/// Add to `out` what the metadata `m` says.
fn put_metadata(out: &mut Vec<(String, JsonValue)>, m: &GgufMetadata)
    ensures
        members_view(final(out)@) == with_metadata(members_view(old(out)@), *m),
{
    let ghost ms = members_view(old(out)@);
    let ex = MetadataExtractor::new(m);
    object_insert(out, "gguf_metadata".to_string(), ex.to_json_map());
    let ghost ms1 = members_insert(ms, "gguf_metadata"@, Json::Object(m.json_members()));
    assert(members_view(out@) == ms1);
    let arch = match ex.get_string("general.architecture") {
        Some(a) => a,
        None => "llama".to_string(),
    };
    assert(arch@ == metadata_architecture(*m));
    object_insert(out, "architecture".to_string(), JsonValue::Str(arch.clone()));
    let ghost ms2 = members_insert(ms1, "architecture"@, Json::Str(arch@));
    assert(members_view(out@) == ms2);
    let model_name = match ex.get_string("general.name") {
        Some(n) => n,
        None => String::new(),
    };
    assert(model_name@ == text_or(meta_text(*m, "general.name"@), Seq::empty()));
    let format = detect_tool_format(arch.as_str(), model_name.as_str());
    object_insert(out, "tool_format".to_string(), JsonValue::Str(format.to_string()));
    let ghost ms3 = members_insert(ms2, "tool_format"@, Json::Str(tool_format_spec(arch@, model_name@)));
    assert(members_view(out@) == ms3);
    put_texts(out, m, &general_field_table());
    let ghost ms4 = set_texts(ms3, *m, general_fields());
    assert(members_view(out@) == ms4);
    put_context_length(out, m, arch.as_str());
    let ghost ms5 = with_context_length(ms4, *m, arch@);
    assert(members_view(out@) == ms5);
    put_arch_texts(out, m, arch.as_str(), &architecture_field_table());
    let ghost ms6 = set_arch_texts(ms5, *m, arch@, architecture_fields());
    assert(members_view(out@) == ms6);
    put_block_count(out, m, arch.as_str());
    let ghost ms7 = with_block_count(ms6, *m, arch@);
    assert(members_view(out@) == ms7);
    put_texts(out, m, &tokenizer_field_table());
    put_chat_template(out, m);
    put_recommended(out, m);
}

/// Apply `with_context_length`.
pub(crate) fn put_context_length(out: &mut Vec<(String, JsonValue)>, m: &GgufMetadata, arch: &str)
    ensures
        members_view(final(out)@) == with_context_length(members_view(old(out)@), *m, arch@),
{
    let ex = MetadataExtractor::new(m);
    let ctx = match ex.get_arch_field(arch, "context_length") {
        Some(v) => Some(v),
        None => match ex.get_string("llama.context_length") {
            Some(v) => Some(v),
            None => ex.get_string("context_length"),
        },
    };
    put_text(out, "context_length", ctx);
}

/// Apply `with_block_count`.
pub(crate) fn put_block_count(out: &mut Vec<(String, JsonValue)>, m: &GgufMetadata, arch: &str)
    ensures
        members_view(final(out)@) == with_block_count(members_view(old(out)@), *m, arch@),
{
    let ex = MetadataExtractor::new(m);
    match ex.get_arch_field(arch, "block_count") {
        Some(v) => {
            let cs = chars_of(v.as_str());
            object_insert(out, "block_count".to_string(), JsonValue::Str(v));
            match parse_u64(&cs) {
                Some(n) => if n <= 4294967295 {
                    object_insert(out, "estimated_layers".to_string(), JsonValue::Number(u64_text(n)));
                },
                None => {},
            }
        },
        None => {},
    }
}

/// Apply `with_chat_template`.
pub(crate) fn put_chat_template(out: &mut Vec<(String, JsonValue)>, m: &GgufMetadata)
    ensures
        members_view(final(out)@) == with_chat_template(members_view(old(out)@), *m),
{
    let ex = MetadataExtractor::new(m);
    match ex.get_string("tokenizer.chat_template") {
        Some(t) => {
            let prompt = extract_default_system_prompt(t.as_str());
            object_insert(out, "chat_template".to_string(), JsonValue::Str(t));
            put_text(out, "default_system_prompt", prompt);
        },
        None => {},
    }
}

/// Apply `with_recommended`.
pub(crate) fn put_recommended(out: &mut Vec<(String, JsonValue)>, m: &GgufMetadata)
    ensures
        members_view(final(out)@) == with_recommended(members_view(old(out)@), *m),
{
    let mut recommended: Vec<(String, JsonValue)> = Vec::new();
    assert(members_view(recommended@) =~= Seq::<(Seq<char>, Json)>::empty());
    put_jsons(&mut recommended, m, &sampling_field_table());
    if recommended.len() > 0 {
        proof {
            lemma_object_of(recommended);
        }
        object_insert(out, "recommended_params".to_string(), JsonValue::Object(recommended));
    }
}

/// The information object for a GGUF file: what its name, path, size and
/// (where it could be read) its metadata say.
pub fn model_info(name: &str, path: &str, size_text: &str, bytes: u64, metadata: Option<&GgufMetadata>) -> (r: JsonValue)
    ensures
        r@ == Json::Object(
            model_info_members(
                name@,
                path@,
                size_text@,
                bytes,
                match metadata {
                    Some(m) => Some(*m),
                    None => None,
                },
            ),
        ),
{
    let mut out: Vec<(String, JsonValue)> = Vec::new();
    out.push(("name".to_string(), JsonValue::Str(name.to_string())));
    out.push(("architecture".to_string(), JsonValue::Str(detect_architecture(name).to_string())));
    out.push(("parameters".to_string(), JsonValue::Str(detect_parameters(name).to_string())));
    out.push(("quantization".to_string(), JsonValue::Str(detect_quantization(name).to_string())));
    out.push(("file_size".to_string(), JsonValue::Str(size_text.to_string())));
    out.push(("context_length".to_string(), JsonValue::Str("Variable".to_string())));
    out.push(("path".to_string(), JsonValue::Str(path.to_string())));
    let layers = estimated_layers_for_size(bytes);
    out.push(("estimated_layers".to_string(), JsonValue::Number(u64_text(layers as u64))));
    proof {
        assert(members_view(out@) =~= base_info_members(name@, path@, size_text@, bytes));
    }
    match metadata {
        Some(m) => put_metadata(&mut out, m),
        None => {},
    }
    proof {
        lemma_object_of(out);
    }
    JsonValue::Object(out)
}

/// What the file system says of a model path.
pub enum PathKind {
    /// Nothing is there.
    Missing,
    /// A directory, with its entries as `(name, is a file)` pairs.
    Directory(Vec<(String, bool)>),
    /// Something that is not a directory.
    File,
}

/// What `extract_model_info` gives: an error for a missing path, a directory,
/// a name without the `gguf` extension or a size that could not be read,
/// else the information object.
pub open spec fn model_info_result(
    path: Seq<char>,
    file_name: Option<Seq<char>>,
    kind: PathKind,
    file_size: Option<(u64, Seq<char>)>,
    metadata: Option<GgufMetadata>,
) -> Result<Json, Seq<char>> {
    match kind {
        PathKind::Missing => Err("Model file not found"@),
        PathKind::Directory(entries) => Err(directory_message_spec(gguf_file_names(entries@))),
        PathKind::File => match file_name {
            Some(name) => if !is_gguf_name(name) {
                Err("File must have .gguf extension"@)
            } else {
                match file_size {
                    Some((bytes, text)) => Ok(
                        Json::Object(model_info_members(name, path, text, bytes, metadata)),
                    ),
                    None => Err("Failed to read file metadata"@),
                }
            },
            None => Err("File must have .gguf extension"@),
        },
    }
}

/// The information for the model at `decoded_path`, from what was found
/// there: its file name, its kind, its size in bytes with the display text of
/// that size, and its metadata where it could be parsed.
pub fn extract_model_info(
    decoded_path: &str,
    file_name: Option<&str>,
    kind: &PathKind,
    file_size: Option<(u64, String)>,
    metadata: Option<&GgufMetadata>,
) -> (r: Result<JsonValue, String>)
    ensures
        match r {
            Ok(v) => model_info_result(
                decoded_path@,
                match file_name {
                    Some(n) => Some(n@),
                    None => None,
                },
                *kind,
                match file_size {
                    Some(p) => Some((p.0, p.1@)),
                    None => None,
                },
                match metadata {
                    Some(m) => Some(*m),
                    None => None,
                },
            ) == Ok::<Json, Seq<char>>(v@),
            Err(e) => model_info_result(
                decoded_path@,
                match file_name {
                    Some(n) => Some(n@),
                    None => None,
                },
                *kind,
                match file_size {
                    Some(p) => Some((p.0, p.1@)),
                    None => None,
                },
                match metadata {
                    Some(m) => Some(*m),
                    None => None,
                },
            ) == Err::<Json, Seq<char>>(e@),
        },
{
    match kind {
        PathKind::Missing => Err("Model file not found".to_string()),
        PathKind::Directory(entries) => Err(directory_message(entries)),
        PathKind::File => match file_name {
            Some(name) => {
                if !has_gguf_extension(name) {
                    return Err("File must have .gguf extension".to_string());
                }
                match file_size {
                    Some((bytes, text)) => Ok(model_info(name, decoded_path, text.as_str(), bytes, metadata)),
                    None => Err("Failed to read file metadata".to_string()),
                }
            },
            None => Err("File must have .gguf extension".to_string()),
        },
    }
}

} // verus!
