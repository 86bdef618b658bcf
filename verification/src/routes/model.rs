//! The model information route: from the `path` query parameter and what
//! the file system and the file's metadata say, the answer sent back.

use vstd::prelude::*;
use crate::gguf_info::{
    architecture_field_table, architecture_fields, base_info_members, estimated_layers_for_size,
    general_field_table, general_fields, gguf_file_names, has_gguf_extension, is_gguf_name,
    metadata_architecture, put_arch_texts, put_block_count, put_chat_template,
    put_context_length, put_recommended, put_texts, set_arch_texts, set_texts, text_or,
    tokenizer_field_table, tokenizer_fields, with_block_count, with_chat_template,
    with_context_length, with_recommended, PathKind,
};
use crate::gguf_utils::{
    detect_tool_format, meta_text, tool_format_spec, GgufMetadata, MetadataExtractor,
};
use crate::json::{
    json_serialize, json_to_string, lemma_object_of, members_insert, members_view,
    object_insert, Json, JsonValue,
};
use crate::request::{decode_url, parse_query_param, query_param_spec, url_decode};
use crate::response::{HttpResponse, BAD_REQUEST, INTERNAL_SERVER_ERROR, NOT_FOUND, OK};
use crate::response_helpers::{json_escape, json_error, json_raw};
use crate::text::{
    append_chars, append_str, ascii_lower_seq, ascii_lowercase_exec, chars_of, contains,
    contains_exec, decimal, push_decimal, string_from, u64_text,
};

verus! {

/// The status JSON sent when no model state is known.
pub fn default_model_status_json() -> (r: String)
    ensures
        r@ == "{\"loaded\":false,\"model_path\":null,\"last_used\":null,\"memory_usage_mb\":null}"@,
{
    "{\"loaded\":false,\"model_path\":null,\"last_used\":null,\"memory_usage_mb\":null}".to_string()
}

/// The names of the directory entries that are files named `*.gguf`, in order.
pub fn scan_directory_for_gguf_files(entries: &Vec<(String, bool)>) -> (r: Vec<String>)
    ensures
        r@.len() == gguf_file_names(entries@).len(),
        forall|i: int| 0 <= i < r@.len() ==> #[trigger] r@[i]@ == gguf_file_names(entries@)[i],
{
    let mut out: Vec<String> = Vec::new();
    let mut i: usize = 0;
    while i < entries.len()
        invariant
            i <= entries.len(),
            out@.len() == gguf_file_names(entries@.take(i as int)).len(),
            forall|j: int|
                0 <= j < out@.len() ==> #[trigger] out@[j]@ == gguf_file_names(
                    entries@.take(i as int),
                )[j],
        decreases entries.len() - i,
    {
        proof {
            assert(entries@.take(i + 1).drop_last() =~= entries@.take(i as int));
        }
        if entries[i].1 && has_gguf_extension(entries[i].0.as_str()) {
            out.push(entries[i].0.clone());
        }
        i += 1;
    }
    proof {
        assert(entries@.take(i as int) =~= entries@);
    }
    out
}

/// A directory entry next to a model: its name, whether it is a file, and
/// the display text of its size.
pub struct SiblingFile {
    pub name: String,
    pub is_file: bool,
    pub size_text: String,
}

/// Is this entry a multimodal projection file (a `*.gguf` file whose name
/// holds `mmproj` in any ASCII case)?
pub open spec fn is_mmproj(e: SiblingFile) -> bool {
    e.is_file && is_gguf_name(e.name@) && contains(ascii_lower_seq(e.name@), "mmproj"@)
}

/// The multimodal projection files among the entries, in order.
pub open spec fn mmproj_spec(entries: Seq<SiblingFile>) -> Seq<SiblingFile>
    decreases entries.len(),
{
    if entries.len() == 0 {
        Seq::empty()
    } else {
        let prev = mmproj_spec(entries.drop_last());
        if is_mmproj(entries.last()) {
            prev.push(entries.last())
        } else {
            prev
        }
    }
}

/// The path of a file named `name` in directory `dir` (the name alone
/// where the directory is empty).
pub open spec fn joined_path(dir: Seq<char>, separator: char, name: Seq<char>) -> Seq<char> {
    if dir.len() == 0 {
        name
    } else {
        dir + seq![separator] + name
    }
}

/// The JSON description of a multimodal projection file.
pub open spec fn mmproj_json(e: SiblingFile, dir: Seq<char>, separator: char) -> Json {
    Json::Object(
        seq![
            ("name"@, Json::Str(e.name@)),
            ("path"@, Json::Str(joined_path(dir, separator, e.name@))),
            ("file_size"@, Json::Str(e.size_text@)),
        ],
    )
}

/// The tags with which a model marks tool calls and their output.
pub struct ToolTags {
    pub exec_open: String,
    pub exec_close: String,
    pub output_open: String,
    pub output_close: String,
}

/// The tool tags as a JSON object.
pub open spec fn tool_tags_json(t: ToolTags) -> Json {
    Json::Object(
        seq![
            ("exec_open"@, Json::Str(t.exec_open@)),
            ("exec_close"@, Json::Str(t.exec_close@)),
            ("output_open"@, Json::Str(t.output_open@)),
            ("output_close"@, Json::Str(t.output_close@)),
        ],
    )
}

/// The members `ms` with what the metadata `m` adds to them, the tool tags
/// detected for the model's name included.
pub open spec fn enriched(ms: Seq<(Seq<char>, Json)>, m: GgufMetadata, tags: ToolTags) -> Seq<(Seq<char>, Json)> {
    let ms1 = members_insert(ms, "gguf_metadata"@, Json::Object(m.json_members()));
    let arch = metadata_architecture(m);
    let ms2 = members_insert(ms1, "architecture"@, Json::Str(arch));
    let model_name = text_or(meta_text(m, "general.name"@), Seq::empty());
    let ms3 = members_insert(ms2, "tool_format"@, Json::Str(tool_format_spec(arch, model_name)));
    let ms4 = members_insert(ms3, "detected_tool_tags"@, tool_tags_json(tags));
    let ms5 = set_texts(set_texts(ms4, m, general_fields()), m, tokenizer_fields());
    let ms6 = with_context_length(ms5, m, arch);
    let ms7 = set_arch_texts(ms6, m, arch, architecture_fields());
    with_recommended(with_chat_template(with_block_count(ms7, m, arch), m), m)
}

/// The model name to detect tool tags for: the metadata's `general.name`,
/// or empty.
pub fn tag_model_name(m: &GgufMetadata) -> (r: String)
    ensures
        r@ == text_or(meta_text(*m, "general.name"@), Seq::empty()),
{
    match MetadataExtractor::new(m).get_string("general.name") {
        Some(n) => n,
        None => String::new(),
    }
}

/// The tool tags as a JSON object, built.
fn tags_value(t: &ToolTags) -> (r: JsonValue)
    ensures
        r@ == tool_tags_json(*t),
{
    let mut ms: Vec<(String, JsonValue)> = Vec::new();
    ms.push(("exec_open".to_string(), JsonValue::Str(t.exec_open.clone())));
    ms.push(("exec_close".to_string(), JsonValue::Str(t.exec_close.clone())));
    ms.push(("output_open".to_string(), JsonValue::Str(t.output_open.clone())));
    ms.push(("output_close".to_string(), JsonValue::Str(t.output_close.clone())));
    proof {
        lemma_object_of(ms);
        assert(members_view(ms@) =~= seq![
            ("exec_open"@, Json::Str(t.exec_open@)),
            ("exec_close"@, Json::Str(t.exec_close@)),
            ("output_open"@, Json::Str(t.output_open@)),
            ("output_close"@, Json::Str(t.output_close@)),
        ]);
    }
    JsonValue::Object(ms)
}

/// Add to a model information object what the metadata says, with the tool
/// tags detected for the model's name (see `tag_model_name`).
pub fn enrich_model_info_from_gguf(out: &mut Vec<(String, JsonValue)>, m: &GgufMetadata, tags: &ToolTags)
    ensures
        members_view(final(out)@) == enriched(members_view(old(out)@), *m, *tags),
{
    let ghost ms = members_view(old(out)@);
    let ex = MetadataExtractor::new(m);
    object_insert(out, "gguf_metadata".to_string(), ex.to_json_map());
    let ghost ms1 = members_insert(ms, "gguf_metadata"@, Json::Object(m.json_members()));
    assert(members_view(out@) == ms1);
    let arch = match ex.get_string("general.architecture") {
        Some(a) => a,
        None => "llama".to_string(),
    };
    assert(arch@ == metadata_architecture(*m));
    object_insert(out, "architecture".to_string(), JsonValue::Str(arch.clone()));
    let model_name = tag_model_name(m);
    let format = detect_tool_format(arch.as_str(), model_name.as_str());
    object_insert(out, "tool_format".to_string(), JsonValue::Str(format.to_string()));
    object_insert(out, "detected_tool_tags".to_string(), tags_value(tags));
    let ghost ms4 = members_view(out@);
    assert(ms4 == members_insert(
        members_insert(
            members_insert(ms1, "architecture"@, Json::Str(arch@)),
            "tool_format"@,
            Json::Str(tool_format_spec(arch@, model_name@)),
        ),
        "detected_tool_tags"@,
        tool_tags_json(*tags),
    ));
    put_texts(out, m, &general_field_table());
    put_texts(out, m, &tokenizer_field_table());
    let ghost ms5 = set_texts(set_texts(ms4, *m, general_fields()), *m, tokenizer_fields());
    assert(members_view(out@) == ms5);
    put_context_length(out, m, arch.as_str());
    put_arch_texts(out, m, arch.as_str(), &architecture_field_table());
    let ghost ms7 = set_arch_texts(with_context_length(ms5, *m, arch@), *m, arch@, architecture_fields());
    assert(members_view(out@) == ms7);
    put_block_count(out, m, arch.as_str());
    put_chat_template(out, m);
    put_recommended(out, m);
}

/// The decoded `path` query parameter of a model information request:
/// `None` where it is missing or empty; a value that does not decode is used
/// as it is.
pub open spec fn model_path_spec(query: Option<Seq<char>>) -> Option<Seq<char>> {
    let q = match query {
        Some(t) => t,
        None => Seq::empty(),
    };
    match query_param_spec(q, "path"@) {
        Some(v) => if v.len() == 0 {
            None
        } else {
            Some(
                match url_decode(v) {
                    Some(d) => d,
                    None => v,
                },
            )
        },
        None => None,
    }
}

/// The decoded `path` query parameter of a model information request.
pub fn model_path_from_query(query: Option<&str>) -> (r: Option<String>)
    ensures
        crate::gguf_utils::opt_text(r) == model_path_spec(
            match query {
                Some(q) => Some(q@),
                None => None,
            },
        ),
{
    let q = match query {
        Some(t) => t,
        None => "",
    };
    assert(q@ == match query {
        Some(t) => t@,
        None => Seq::<char>::empty(),
    }) by {
        reveal_strlit("");
    }
    match parse_query_param(q, "path") {
        Some(v) => if v.as_str().is_empty() {
            None
        } else {
            match decode_url(v.as_str()) {
                Some(d) => Some(d),
                None => Some(v),
            }
        },
        None => None,
    }
}

/// What the file system and the file say of a requested model path.
pub struct ModelProbe {
    /// What is at the path.
    pub kind: PathKind,
    /// The last component of the path, where it has one.
    pub file_name: Option<String>,
    /// The file's size in bytes and its display text, where it could be read.
    pub file_size: Option<(u64, String)>,
    /// The file's metadata, where it could be parsed.
    pub metadata: Option<GgufMetadata>,
    /// The entries of the directory that holds the file.
    pub siblings: Vec<SiblingFile>,
    /// That directory, as text (empty where there is none).
    pub parent_dir: String,
    /// The path separator of the platform.
    pub separator: char,
}

/// The error text for a directory with the given GGUF files.
pub open spec fn directory_error_text(count: nat) -> Seq<char> {
    if count == 0 {
        "This is a directory. No .gguf files found in this directory."@
    } else {
        "This is a directory. Found "@ + decimal(count) + " .gguf file(s). Please select one:"@
    }
}

/// The body sent for a directory.
pub open spec fn directory_body(names: Seq<Seq<char>>) -> Json {
    Json::Object(
        seq![
            ("error"@, Json::Str(directory_error_text(names.len()))),
            ("is_directory"@, Json::Bool(true)),
            ("suggestions"@, Json::Array(names.map_values(|n: Seq<char>| Json::Str(n)))),
        ],
    )
}

/// The body of an error answer made by `json_error`.
pub open spec fn escaped_error(message: Seq<char>) -> Seq<char> {
    "{\"error\":\""@ + json_escape(message) + "\"}"@
}

/// The members of the information object for an existing GGUF file.
pub open spec fn route_members(name: Seq<char>, path: Seq<char>, size_text: Seq<char>, bytes: u64, p: ModelProbe, tags: ToolTags) -> Seq<(Seq<char>, Json)> {
    let base = base_info_members(name, path, size_text, bytes);
    let with_meta = match p.metadata {
        Some(m) => enriched(base, m, tags),
        None => base,
    };
    let mm = mmproj_spec(p.siblings@);
    if mm.len() > 0 {
        members_insert(
            members_insert(with_meta, "has_vision"@, Json::Bool(true)),
            "mmproj_files"@,
            Json::Array(mm.map_values(|e: SiblingFile| mmproj_json(e, p.parent_dir@, p.separator))),
        )
    } else {
        with_meta
    }
}

/// The status and body answered for a model information request.
pub open spec fn model_info_route_spec(path: Option<Seq<char>>, p: ModelProbe, tags: ToolTags) -> (u16, Seq<char>) {
    match path {
        None => (BAD_REQUEST, escaped_error("Model path is required"@)),
        Some(decoded) => match p.kind {
            PathKind::Missing => (NOT_FOUND, escaped_error("Model file not found"@)),
            PathKind::Directory(entries) => (
                BAD_REQUEST,
                json_serialize(directory_body(gguf_file_names(entries@))),
            ),
            PathKind::File => match p.file_name {
                Some(name) => if !is_gguf_name(name@) {
                    (BAD_REQUEST, escaped_error("File must have .gguf extension"@))
                } else {
                    match p.file_size {
                        Some((bytes, text)) => (
                            OK,
                            json_serialize(
                                Json::Object(route_members(name@, decoded, text@, bytes, p, tags)),
                            ),
                        ),
                        None => (INTERNAL_SERVER_ERROR, escaped_error("Failed to read file metadata"@)),
                    }
                },
                None => (BAD_REQUEST, escaped_error("File must have .gguf extension"@)),
            },
        },
    }
}

/// The body sent for a directory, built.
fn directory_value(entries: &Vec<(String, bool)>) -> (r: JsonValue)
    ensures
        r@ == directory_body(gguf_file_names(entries@)),
{
    let names = scan_directory_for_gguf_files(entries);
    let ghost ns = gguf_file_names(entries@);
    let count = names.len();
    let text = if count == 0 {
        "This is a directory. No .gguf files found in this directory.".to_string()
    } else {
        let mut v = chars_of("This is a directory. Found ");
        push_decimal(&mut v, count as u64);
        append_str(&mut v, " .gguf file(s). Please select one:");
        string_from(&v)
    };
    let mut items: Vec<JsonValue> = Vec::new();
    let mut i: usize = 0;
    while i < names.len()
        invariant
            i <= names.len(),
            names@.len() == ns.len(),
            forall|j: int| 0 <= j < names@.len() ==> #[trigger] names@[j]@ == ns[j],
            items@.len() == i,
            forall|j: int| 0 <= j < i ==> (#[trigger] items@[j])@ == Json::Str(ns[j]),
        decreases names.len() - i,
    {
        items.push(JsonValue::Str(names[i].clone()));
        i += 1;
    }
    let arr = JsonValue::Array(items);
    proof {
        crate::json::lemma_array_view(arr);
        assert(crate::json::array_items(arr@) =~= ns.map_values(|n: Seq<char>| Json::Str(n)));
    }
    let mut ms: Vec<(String, JsonValue)> = Vec::new();
    ms.push(("error".to_string(), JsonValue::Str(text)));
    ms.push(("is_directory".to_string(), JsonValue::Bool(true)));
    ms.push(("suggestions".to_string(), arr));
    proof {
        lemma_object_of(ms);
        assert(members_view(ms@) =~= seq![
            ("error"@, Json::Str(directory_error_text(ns.len()))),
            ("is_directory"@, Json::Bool(true)),
            ("suggestions"@, Json::Array(ns.map_values(|n: Seq<char>| Json::Str(n)))),
        ]);
    }
    JsonValue::Object(ms)
}

/// The path of a file in a directory, built.
fn join_path(dir: &str, separator: char, name: &str) -> (r: String)
    ensures
        r@ == joined_path(dir@, separator, name@),
{
    if dir.is_empty() {
        name.to_string()
    } else {
        let mut v = chars_of(dir);
        v.push(separator);
        append_str(&mut v, name);
        string_from(&v)
    }
}

/// Is the entry a multimodal projection file?
fn is_mmproj_exec(e: &SiblingFile) -> (r: bool)
    ensures
        r == is_mmproj(*e),
{
    e.is_file && has_gguf_extension(e.name.as_str()) && contains_exec(
        &ascii_lowercase_exec(&chars_of(e.name.as_str())),
        &chars_of("mmproj"),
    )
}

/// The descriptions of the multimodal projection files, built.
fn mmproj_values(siblings: &Vec<SiblingFile>, dir: &str, separator: char) -> (r: Vec<JsonValue>)
    ensures
        r@.len() == mmproj_spec(siblings@).len(),
        forall|j: int| 0 <= j < r@.len() ==> (#[trigger] r@[j])@ == mmproj_json(
            mmproj_spec(siblings@)[j],
            dir@,
            separator,
        ),
{
    let mut out: Vec<JsonValue> = Vec::new();
    let mut i: usize = 0;
    while i < siblings.len()
        invariant
            i <= siblings.len(),
            out@.len() == mmproj_spec(siblings@.take(i as int)).len(),
            forall|j: int| 0 <= j < out@.len() ==> (#[trigger] out@[j])@ == mmproj_json(
                mmproj_spec(siblings@.take(i as int))[j],
                dir@,
                separator,
            ),
        decreases siblings.len() - i,
    {
        proof {
            assert(siblings@.take(i + 1).drop_last() =~= siblings@.take(i as int));
        }
        let e = &siblings[i];
        if is_mmproj_exec(e) {
            let mut ms: Vec<(String, JsonValue)> = Vec::new();
            ms.push(("name".to_string(), JsonValue::Str(e.name.clone())));
            ms.push(("path".to_string(), JsonValue::Str(join_path(dir, separator, e.name.as_str()))));
            ms.push(("file_size".to_string(), JsonValue::Str(e.size_text.clone())));
            proof {
                lemma_object_of(ms);
                assert(members_view(ms@) =~= seq![
                    ("name"@, Json::Str(e.name@)),
                    ("path"@, Json::Str(joined_path(dir@, separator, e.name@))),
                    ("file_size"@, Json::Str(e.size_text@)),
                ]);
            }
            out.push(JsonValue::Object(ms));
        }
        i += 1;
    }
    proof {
        assert(siblings@.take(i as int) =~= siblings@);
    }
    out
}

/// The answer to a model information request for the decoded `path`
/// parameter (see `model_path_from_query`), from what was found there and
/// the tool tags detected for the model's name.
pub fn model_info_response(path: Option<&str>, probe: &ModelProbe, tags: &ToolTags) -> (r: HttpResponse)
    ensures
        (r.status, r.body@) == model_info_route_spec(
            match path {
                Some(p) => Some(p@),
                None => None,
            },
            *probe,
            *tags,
        ),
        crate::response::headers_view(r.headers@) == crate::response_helpers::json_cors_headers(),
{
    let decoded = match path {
        Some(p) => p,
        None => return json_error(BAD_REQUEST, "Model path is required"),
    };
    match &probe.kind {
        PathKind::Missing => json_error(NOT_FOUND, "Model file not found"),
        PathKind::Directory(entries) => {
            let body = directory_value(entries);
            json_raw(BAD_REQUEST, json_to_string(&body))
        },
        PathKind::File => {
            let name = match &probe.file_name {
                Some(n) => n,
                None => return json_error(BAD_REQUEST, "File must have .gguf extension"),
            };
            if !has_gguf_extension(name.as_str()) {
                return json_error(BAD_REQUEST, "File must have .gguf extension");
            }
            let (bytes, size_text) = match &probe.file_size {
                Some(fs) => (fs.0, &fs.1),
                None => return json_error(INTERNAL_SERVER_ERROR, "Failed to read file metadata"),
            };
            let info = crate::gguf_info::model_info(name.as_str(), decoded, size_text.as_str(), bytes, None);
            let ghost base = base_info_members(name@, decoded@, size_text@, bytes);
            let mut out: Vec<(String, JsonValue)> = match info {
                JsonValue::Object(ms) => {
                    proof {
                        lemma_object_of(ms);
                    }
                    ms
                },
                _ => Vec::new(),
            };
            assert(members_view(out@) == base);
            let ghost with_meta = if probe.metadata is Some {
                enriched(base, probe.metadata->0, *tags)
            } else {
                base
            };
            match &probe.metadata {
                Some(m) => enrich_model_info_from_gguf(&mut out, m, tags),
                None => {},
            }
            assert(members_view(out@) == with_meta);
            let mm = mmproj_values(&probe.siblings, probe.parent_dir.as_str(), probe.separator);
            if mm.len() > 0 {
                let arr = JsonValue::Array(mm);
                proof {
                    crate::json::lemma_array_view(arr);
                    assert(crate::json::array_items(arr@) =~= mmproj_spec(probe.siblings@).map_values(
                        |e: SiblingFile| mmproj_json(e, probe.parent_dir@, probe.separator),
                    ));
                }
                object_insert(&mut out, "has_vision".to_string(), JsonValue::Bool(true));
                object_insert(&mut out, "mmproj_files".to_string(), arr);
            }
            proof {
                lemma_object_of(out);
            }
            assert(members_view(out@) == route_members(name@, decoded@, size_text@, bytes, *probe, *tags));
            let body = JsonValue::Object(out);
            json_raw(OK, json_to_string(&body))
        },
    }
}

} // verus!
