use llama_chat::gguf_info::PathKind;
use llama_chat::gguf_utils::{GgufMetadata, GgufValue};
use llama_chat::routes::chat::{system_prompt_source, timestamp_text, SystemPromptSource};
use llama_chat::routes::frontend_logs::{check_batch, log_line, logs_written, sanitize_level, truncate_message};
use llama_chat::routes::hub::{
    extract_query_param, gguf_siblings, hub_model, search_limit, search_url, sort_field,
    tree_files, tree_url, HfModel, HfSibling, HfTreeEntry,
};
use llama_chat::routes::model::{
    default_model_status_json, model_info_response, model_path_from_query,
    scan_directory_for_gguf_files, ModelProbe, SiblingFile, ToolTags,
};

#[test]
fn clock_text() {
    assert_eq!(timestamp_text(0, 0), "00:00:00.000");
    assert_eq!(timestamp_text(3600 * 25 + 61, 7), "01:01:01.007");
    assert_eq!(timestamp_text(86399, 999), "23:59:59.999");
}

#[test]
fn system_prompt_sources() {
    assert!(matches!(system_prompt_source(Some("__AGENTIC__")), SystemPromptSource::Agentic));
    match system_prompt_source(Some("Be kind")) {
        SystemPromptSource::Custom(s) => assert_eq!(s, "Be kind"),
        _ => panic!("expected a custom prompt"),
    }
    assert!(matches!(system_prompt_source(None), SystemPromptSource::Unset));
}

#[test]
fn frontend_log_levels_and_lines() {
    assert_eq!(sanitize_level("WARNING"), "WARN");
    assert_eq!(sanitize_level("warn"), "WARN");
    assert_eq!(sanitize_level("Error"), "ERROR");
    assert_eq!(sanitize_level("debug"), "DEBUG");
    assert_eq!(sanitize_level("trace"), "INFO");
    assert_eq!(
        log_line("error", "a\nb".to_string(), Some("T"), "NOW"),
        "[T] [ERROR] a\\nb\n"
    );
    assert_eq!(log_line("info", "x".to_string(), None, "NOW"), "[NOW] [INFO] x\n");
}

#[test]
fn frontend_log_truncation() {
    let short = "abc".to_string();
    assert_eq!(truncate_message(short), "abc");
    let long = "x".repeat(20_005);
    let t = truncate_message(long);
    assert_eq!(t.len(), 20_000 + "…[truncated]".len());
    assert!(t.ends_with("…[truncated]"));
}

#[test]
fn frontend_log_batches() {
    let r = check_batch(0).unwrap();
    assert_eq!(r.status, 400);
    assert_eq!(r.body, r#"{"error":"logs must be non-empty"}"#);
    let r = check_batch(201).unwrap();
    assert_eq!(r.status, 413);
    assert!(check_batch(200).is_none());
    assert_eq!(logs_written().body, r#"{"success":true}"#);
}

#[test]
fn hub_models_and_files() {
    let m = HfModel {
        id: "user/repo".to_string(),
        model_id: None,
        author: None,
        downloads: 5,
        likes: 2,
        last_modified: Some("2024".to_string()),
        pipeline_tag: None,
        siblings: vec![
            HfSibling { rfilename: "a.gguf".to_string(), size: Some(10) },
            HfSibling { rfilename: "README.md".to_string(), size: Some(1) },
            HfSibling { rfilename: "b.gguf".to_string(), size: None },
        ],
    };
    let h = hub_model(&m);
    assert_eq!(h.id, "user/repo");
    assert_eq!(h.author, "");
    assert_eq!(h.last_modified, "2024");
    assert_eq!(h.files.len(), 2);
    assert_eq!(h.files[1].name, "b.gguf");
    assert_eq!(h.files[1].size, 0);
    assert_eq!(gguf_siblings(&m.siblings).len(), 2);
    let entries = vec![
        HfTreeEntry { entry_type: "file".to_string(), path: "x.gguf".to_string(), size: 3 },
        HfTreeEntry { entry_type: "directory".to_string(), path: "y.gguf".to_string(), size: 0 },
        HfTreeEntry { entry_type: "file".to_string(), path: "z.GGUF".to_string(), size: 1 },
    ];
    let files = tree_files(&entries);
    assert_eq!(files.len(), 1);
    assert_eq!(files[0].name, "x.gguf");
}

#[test]
fn hub_requests() {
    assert_eq!(sort_field("likes"), "likes");
    assert_eq!(sort_field("bogus"), "downloads");
    assert_eq!(search_limit(None), 20);
    assert_eq!(search_limit(Some("7")), 7);
    assert_eq!(search_limit(Some("500")), 50);
    assert_eq!(search_limit(Some("x")), 20);
    assert_eq!(
        search_url("dev stral", 20, "likes"),
        "https://huggingface.co/api/models?search=dev%20stral&filter=gguf&pipeline_tag=text-generation&sort=likes&direction=-1&limit=20&expand[]=siblings"
    );
    assert_eq!(tree_url("u/r"), "https://huggingface.co/api/models/u/r/tree/main");
    assert_eq!(extract_query_param(Some("q=a%20b&limit=3"), "q"), Some("a b".to_string()));
    assert_eq!(extract_query_param(Some("q=%FF"), "q"), Some(String::new()));
    assert_eq!(extract_query_param(None, "q"), None);
}

fn probe(kind: PathKind) -> ModelProbe {
    ModelProbe {
        kind,
        file_name: Some("model-q8_0.gguf".to_string()),
        file_size: Some((2048, "2048 bytes".to_string())),
        metadata: None,
        siblings: Vec::new(),
        parent_dir: "/models".to_string(),
        separator: '/',
    }
}

fn tags() -> ToolTags {
    ToolTags {
        exec_open: "<tool_call>".to_string(),
        exec_close: "</tool_call>".to_string(),
        output_open: "<tool_response>".to_string(),
        output_close: "</tool_response>".to_string(),
    }
}

#[test]
fn model_route_answers() {
    assert_eq!(
        default_model_status_json(),
        r#"{"loaded":false,"model_path":null,"last_used":null,"memory_usage_mb":null}"#
    );
    assert_eq!(model_path_from_query(Some("path=%2Fm%2Fa.gguf")), Some("/m/a.gguf".to_string()));
    assert_eq!(model_path_from_query(Some("path=")), None);
    assert_eq!(model_path_from_query(None), None);
    assert_eq!(model_path_from_query(Some("path=%FF")), Some("%FF".to_string()));

    let r = model_info_response(None, &probe(PathKind::File), &tags());
    assert_eq!(r.status, 400);
    assert_eq!(r.body, r#"{"error":"Model path is required"}"#);
    let r = model_info_response(Some("/m"), &probe(PathKind::Missing), &tags());
    assert_eq!(r.status, 404);
    let r = model_info_response(
        Some("/m"),
        &probe(PathKind::Directory(vec![("a.gguf".to_string(), true), ("b.txt".to_string(), true)])),
        &tags(),
    );
    assert_eq!(r.status, 400);
    let v: serde_json::Value = serde_json::from_str(&r.body).unwrap();
    assert_eq!(v["error"], "This is a directory. Found 1 .gguf file(s). Please select one:");
    assert_eq!(v["is_directory"], true);
    assert_eq!(v["suggestions"][0], "a.gguf");

    let mut p = probe(PathKind::File);
    p.siblings = vec![
        SiblingFile { name: "mmproj-F16.gguf".to_string(), is_file: true, size_text: "600 MB".to_string() },
        SiblingFile { name: "model-q8_0.gguf".to_string(), is_file: true, size_text: "7 GB".to_string() },
    ];
    let mut m = GgufMetadata::new();
    m.insert("general.architecture".to_string(), GgufValue::Str("llama".to_string()));
    m.insert("general.name".to_string(), GgufValue::Str("Llama-3 8B".to_string()));
    p.metadata = Some(m);
    let r = model_info_response(Some("/models/model-q8_0.gguf"), &p, &tags());
    assert_eq!(r.status, 200);
    let v: serde_json::Value = serde_json::from_str(&r.body).unwrap();
    assert_eq!(v["quantization"], "Q8_0");
    assert_eq!(v["tool_format"], "llama3");
    assert_eq!(v["detected_tool_tags"]["exec_open"], "<tool_call>");
    assert_eq!(v["has_vision"], true);
    assert_eq!(v["mmproj_files"][0]["path"], "/models/mmproj-F16.gguf");
    assert_eq!(v["mmproj_files"].as_array().unwrap().len(), 1);

    let mut p = probe(PathKind::File);
    p.file_name = Some("x.bin".to_string());
    assert_eq!(model_info_response(Some("/x.bin"), &p, &tags()).status, 400);
    let mut p = probe(PathKind::File);
    p.file_size = None;
    assert_eq!(model_info_response(Some("/x.gguf"), &p, &tags()).status, 500);
}

#[test]
fn directory_scan() {
    let names = scan_directory_for_gguf_files(&vec![
        ("b.gguf".to_string(), true),
        ("c.gguf".to_string(), false),
        ("a.Gguf".to_string(), true),
    ]);
    assert_eq!(names, vec!["b.gguf".to_string(), "a.Gguf".to_string()]);
}
