use llama_chat::routes::files::{
    browse_allowed, browse_path, browse_reply, is_browse_root, picked_reply, sort_files,
    upload_name, upload_progress, upload_raw_filename, uploaded_reply, FileItem,
    MAX_UPLOAD_BYTES,
};

fn doc(text: &str) -> serde_json::Value {
    serde_json::from_str(text).unwrap()
}

fn item(name: &str, dir: bool) -> FileItem {
    FileItem { name: name.to_string(), path: format!("/app/models/{name}"), is_directory: dir, size: if dir { None } else { Some(7) } }
}

#[test]
fn browse_requests() {
    assert_eq!(browse_path(""), "/app/models");
    assert_eq!(browse_path("path=%2Fapp%2Fmodels%2Fsub"), "/app/models/sub");
    assert_eq!(browse_path("path=/a&x=1&path=/app/b"), "/app/b");
    assert_eq!(browse_path("path=%E0%A4%A"), "%E0%A4%A");
    assert!(browse_allowed("/app/models/x"));
    assert!(browse_allowed("/app"));
    assert!(browse_allowed("E:\\models"));
    assert!(!browse_allowed("/etc"));
    assert!(is_browse_root("/app"));
    assert!(is_browse_root("/app/models"));
    assert!(is_browse_root("E:"));
    assert!(is_browse_root("E:\\"));
    assert!(!is_browse_root("E:\\models"));
    assert!(!is_browse_root("/app/models/sub"));
}

#[test]
fn browse_order() {
    let files = vec![
        item("b.gguf", false),
        item("Zeta", true),
        item("A.gguf", false),
        item("alpha", true),
        item("a.gguf", false),
    ];
    let names: Vec<String> = sort_files(files).into_iter().map(|f| f.name).collect();
    assert_eq!(names, vec!["alpha", "Zeta", "A.gguf", "a.gguf", "b.gguf"]);
}

#[test]
fn browse_answer() {
    let r = doc(&browse_reply(vec![item("m.gguf", false), item("sub", true)], "/app/models", None));
    assert_eq!(r["current_path"], "/app/models");
    assert_eq!(r["parent_path"], serde_json::Value::Null);
    assert_eq!(r["files"][0]["name"], "sub");
    assert_eq!(r["files"][0]["size"], serde_json::Value::Null);
    assert_eq!(r["files"][1]["is_directory"], false);
    assert_eq!(r["files"][1]["size"], 7);
    let p = doc(&browse_reply(vec![], "/app/models/sub", Some("/app/models".to_string())));
    assert_eq!(p["parent_path"], "/app/models");
}

#[test]
fn upload_names() {
    assert_eq!(
        upload_raw_filename("form-data; name=\"file\"; filename=\"m.gguf\"", ""),
        "m.gguf"
    );
    assert_eq!(upload_raw_filename("attachment; filename=plain.bin; size=3", ""), "plain.bin");
    assert_eq!(upload_raw_filename("", "a=1&filename=q.gguf&filename=r"), "q.gguf");
    assert_eq!(upload_raw_filename("", "a=1"), "uploaded_model.gguf");
    assert_eq!(upload_name(Some("m.gguf")), "m.gguf");
    assert_eq!(upload_name(Some("weights")), "weights.gguf");
    assert_eq!(upload_name(None), "uploaded_model.gguf");
    assert_eq!(upload_progress(10, 5), (15, false));
    assert_eq!(upload_progress(MAX_UPLOAD_BYTES, 1), (MAX_UPLOAD_BYTES + 1, true));
    assert_eq!(upload_progress(u64::MAX - 1, 5), (u64::MAX, true));
    assert_eq!(
        doc(&uploaded_reply("/app/models/m.gguf")),
        doc(r#"{"success":true,"message":"File uploaded successfully","file_path":"/app/models/m.gguf"}"#)
    );
    assert_eq!(doc(&picked_reply(None)), doc(r#"{"path":null}"#));
    assert_eq!(doc(&picked_reply(Some("/x".to_string()))), doc(r#"{"path":"/x"}"#));
}
