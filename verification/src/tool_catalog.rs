//! The catalog of built-in tools offered to a model, as OpenAI function
//! definitions whose descriptions suit the operating system.

use vstd::prelude::*;
use crate::json::{json_serialize, json_to_string, lemma_object_of, members_view, Json, JsonValue};
use crate::text::{append_str, chars_of, string_from};

verus! {

/// The descriptions that depend on the operating system: the shell tool's
/// description, then examples of commands, of files to read, of writes and
/// of listings.
pub open spec fn os_texts(os: Seq<char>) -> (Seq<char>, Seq<char>, Seq<char>, Seq<char>, Seq<char>) {
    if os == "windows"@ {
        (
            "Execute any Windows shell command. Use for system operations, running programs, searching, etc."@,
            "echo Hello, dir /s *.rs, cd C:\\Users, tasklist"@,
            "type E:\\repo\\package.json, type C:\\Users\\file.txt"@,
            "echo Hello World > output.txt, copy source.txt dest.txt"@,
            "dir E:\\repo, dir /s *.rs, tree /F"@,
        )
    } else if os == "linux"@ || os == "macos"@ {
        (
            "Execute any Linux/macOS shell command. Use for system operations, running programs, searching, etc."@,
            "echo Hello, ls -la, cd /home, ps aux, find . -name '*.rs'"@,
            "cat /home/user/file.txt, cat package.json"@,
            "echo 'Hello World' > output.txt, cp source.txt dest.txt"@,
            "ls -la /home, find . -type f, tree"@,
        )
    } else {
        (
            "Execute shell commands on the system."@,
            "Use appropriate commands for your OS"@,
            "Read files using system commands"@,
            "Write files using system commands"@,
            "List files using system commands"@,
        )
    }
}

/// A parameter of type `kind` with a description.
pub open spec fn param(kind: Seq<char>, description: Seq<char>) -> Json {
    Json::Object(seq![("type"@, Json::Str(kind)), ("description"@, Json::Str(description))])
}

/// A function tool: its name, description, parameters and required ones.
pub open spec fn function_tool(name: Seq<char>, description: Seq<char>, properties: Seq<(Seq<char>, Json)>, required: Seq<Json>) -> Json {
    Json::Object(
        seq![
            ("type"@, Json::Str("function"@)),
            (
                "function"@,
                Json::Object(
                    seq![
                        ("name"@, Json::Str(name)),
                        ("description"@, Json::Str(description)),
                        (
                            "parameters"@,
                            Json::Object(
                                seq![
                                    ("type"@, Json::Str("object"@)),
                                    ("properties"@, Json::Object(properties)),
                                    ("required"@, Json::Array(required)),
                                ],
                            ),
                        ),
                    ],
                ),
            ),
        ],
    )
}

/// The catalog for operating system `os`: reading, writing and listing
/// files, and running shell commands.
pub open spec fn tool_catalog(os: Seq<char>) -> Json {
    let (bash_description, bash_examples, read_examples, write_examples, list_examples) = os_texts(os);
    Json::Array(
        seq![
            function_tool(
                "read_file"@,
                "Read the complete contents of any file from anywhere in the local filesystem. You have full read access to the entire system. OS: "@
                    + os,
                seq![
                    (
                        "path"@,
                        param(
                            "string"@,
                            "Absolute or relative path to the file to read. Examples: "@ + read_examples,
                        ),
                    ),
                ],
                seq![Json::Str("path"@)],
            ),
            function_tool(
                "write_file"@,
                "Write or create a file anywhere in the local filesystem. You have full write access. OS: "@ + os,
                seq![
                    ("path"@, param("string"@, "Path where the file should be written"@)),
                    ("content"@, param("string"@, "Content to write to the file"@)),
                ],
                seq![Json::Str("path"@), Json::Str("content"@)],
            ),
            function_tool(
                "list_directory"@,
                "List all files and directories in any location. You have full access to browse the entire filesystem. OS: "@
                    + os,
                seq![
                    (
                        "path"@,
                        param("string"@, "Path to the directory to list. Examples: "@ + list_examples),
                    ),
                    (
                        "recursive"@,
                        param("boolean"@, "Whether to list files recursively (default: false)"@),
                    ),
                ],
                seq![Json::Str("path"@)],
            ),
            function_tool(
                "bash"@,
                bash_description + " You can run ANY command. OS: "@ + os,
                seq![
                    (
                        "command"@,
                        param("string"@, "The shell command to execute. Examples: "@ + bash_examples),
                    ),
                ],
                seq![Json::Str("command"@)],
            ),
        ],
    )
}

/// The descriptions that depend on the operating system.
fn os_texts_exec(os: &str) -> (r: (&'static str, &'static str, &'static str, &'static str, &'static str))
    ensures
        (r.0@, r.1@, r.2@, r.3@, r.4@) == os_texts(os@),
{
    let o = chars_of(os);
    if crate::text::slices_equal(&o, &chars_of("windows")) {
        (
            "Execute any Windows shell command. Use for system operations, running programs, searching, etc.",
            "echo Hello, dir /s *.rs, cd C:\\Users, tasklist",
            "type E:\\repo\\package.json, type C:\\Users\\file.txt",
            "echo Hello World > output.txt, copy source.txt dest.txt",
            "dir E:\\repo, dir /s *.rs, tree /F",
        )
    } else if crate::text::slices_equal(&o, &chars_of("linux")) || crate::text::slices_equal(
        &o,
        &chars_of("macos"),
    ) {
        (
            "Execute any Linux/macOS shell command. Use for system operations, running programs, searching, etc.",
            "echo Hello, ls -la, cd /home, ps aux, find . -name '*.rs'",
            "cat /home/user/file.txt, cat package.json",
            "echo 'Hello World' > output.txt, cp source.txt dest.txt",
            "ls -la /home, find . -type f, tree",
        )
    } else {
        (
            "Execute shell commands on the system.",
            "Use appropriate commands for your OS",
            "Read files using system commands",
            "Write files using system commands",
            "List files using system commands",
        )
    }
}

/// `a` followed by `b`.
fn joined(a: &str, b: &str) -> (r: String)
    ensures
        r@ == a@ + b@,
{
    let mut v = chars_of(a);
    append_str(&mut v, b);
    string_from(&v)
}

/// A parameter of type `kind` with a description.
fn param_exec(kind: &str, description: String) -> (r: JsonValue)
    ensures
        r@ == param(kind@, description@),
{
    let ghost d = description@;
    let mut ms: Vec<(String, JsonValue)> = Vec::new();
    ms.push(("type".to_string(), JsonValue::Str(kind.to_string())));
    ms.push(("description".to_string(), JsonValue::Str(description)));
    proof {
        lemma_object_of(ms);
        assert(members_view(ms@) =~= seq![("type"@, Json::Str(kind@)), ("description"@, Json::Str(d))]);
    }
    JsonValue::Object(ms)
}

/// A function tool.
fn function_tool_exec(name: &str, description: String, properties: Vec<(String, JsonValue)>, required: Vec<JsonValue>) -> (r: JsonValue)
    ensures
        r@ == function_tool(
            name@,
            description@,
            members_view(properties@),
            required@.map_values(|j: JsonValue| j@),
        ),
{
    let ghost d = description@;
    let ghost pv = members_view(properties@);
    let ghost rv = required@.map_values(|j: JsonValue| j@);
    let props = JsonValue::Object(properties);
    let req = JsonValue::Array(required);
    proof {
        lemma_object_of(properties);
        crate::json::lemma_array_view(req);
        assert(crate::json::array_items(req@) =~= rv);
    }
    let mut params: Vec<(String, JsonValue)> = Vec::new();
    params.push(("type".to_string(), JsonValue::Str("object".to_string())));
    params.push(("properties".to_string(), props));
    params.push(("required".to_string(), req));
    proof {
        lemma_object_of(params);
        assert(members_view(params@) =~= seq![
            ("type"@, Json::Str("object"@)),
            ("properties"@, Json::Object(pv)),
            ("required"@, Json::Array(rv)),
        ]);
    }
    let params_v = JsonValue::Object(params);
    let ghost params_view = params_v@;
    let mut func: Vec<(String, JsonValue)> = Vec::new();
    func.push(("name".to_string(), JsonValue::Str(name.to_string())));
    func.push(("description".to_string(), JsonValue::Str(description)));
    func.push(("parameters".to_string(), params_v));
    proof {
        lemma_object_of(func);
        assert(members_view(func@) =~= seq![
            ("name"@, Json::Str(name@)),
            ("description"@, Json::Str(d)),
            ("parameters"@, params_view),
        ]);
    }
    let func_v = JsonValue::Object(func);
    let ghost func_view = func_v@;
    let mut tool: Vec<(String, JsonValue)> = Vec::new();
    tool.push(("type".to_string(), JsonValue::Str("function".to_string())));
    tool.push(("function".to_string(), func_v));
    proof {
        lemma_object_of(tool);
        assert(members_view(tool@) =~= seq![("type"@, Json::Str("function"@)), ("function"@, func_view)]);
    }
    JsonValue::Object(tool)
}

/// The catalog for operating system `os`, as a document.
pub fn tool_catalog_exec(os: &str) -> (r: JsonValue)
    ensures
        r@ == tool_catalog(os@),
{
    let (bash_description, bash_examples, read_examples, write_examples, list_examples) = os_texts_exec(os);
    let mut tools: Vec<JsonValue> = Vec::new();

    let mut read_props: Vec<(String, JsonValue)> = Vec::new();
    read_props.push((
        "path".to_string(),
        param_exec("string", joined("Absolute or relative path to the file to read. Examples: ", read_examples)),
    ));
    let mut read_req: Vec<JsonValue> = Vec::new();
    read_req.push(JsonValue::Str("path".to_string()));
    let ghost rp = members_view(read_props@);
    let ghost rr = read_req@.map_values(|j: JsonValue| j@);
    tools.push(
        function_tool_exec(
            "read_file",
            joined(
                "Read the complete contents of any file from anywhere in the local filesystem. You have full read access to the entire system. OS: ",
                os,
            ),
            read_props,
            read_req,
        ),
    );

    let mut write_props: Vec<(String, JsonValue)> = Vec::new();
    write_props.push(("path".to_string(), param_exec("string", "Path where the file should be written".to_string())));
    write_props.push(("content".to_string(), param_exec("string", "Content to write to the file".to_string())));
    let mut write_req: Vec<JsonValue> = Vec::new();
    write_req.push(JsonValue::Str("path".to_string()));
    write_req.push(JsonValue::Str("content".to_string()));
    let ghost wp = members_view(write_props@);
    let ghost wr = write_req@.map_values(|j: JsonValue| j@);
    tools.push(
        function_tool_exec(
            "write_file",
            joined("Write or create a file anywhere in the local filesystem. You have full write access. OS: ", os),
            write_props,
            write_req,
        ),
    );

    let mut list_props: Vec<(String, JsonValue)> = Vec::new();
    list_props.push((
        "path".to_string(),
        param_exec("string", joined("Path to the directory to list. Examples: ", list_examples)),
    ));
    list_props.push((
        "recursive".to_string(),
        param_exec("boolean", "Whether to list files recursively (default: false)".to_string()),
    ));
    let mut list_req: Vec<JsonValue> = Vec::new();
    list_req.push(JsonValue::Str("path".to_string()));
    let ghost lp = members_view(list_props@);
    let ghost lr = list_req@.map_values(|j: JsonValue| j@);
    tools.push(
        function_tool_exec(
            "list_directory",
            joined(
                "List all files and directories in any location. You have full access to browse the entire filesystem. OS: ",
                os,
            ),
            list_props,
            list_req,
        ),
    );

    let mut bash_props: Vec<(String, JsonValue)> = Vec::new();
    bash_props.push((
        "command".to_string(),
        param_exec("string", joined("The shell command to execute. Examples: ", bash_examples)),
    ));
    let mut bash_req: Vec<JsonValue> = Vec::new();
    bash_req.push(JsonValue::Str("command".to_string()));
    let ghost bp = members_view(bash_props@);
    let ghost br = bash_req@.map_values(|j: JsonValue| j@);
    let bash_text = joined(joined(bash_description, " You can run ANY command. OS: ").as_str(), os);
    tools.push(function_tool_exec("bash", bash_text, bash_props, bash_req));

    let ghost (bd, be, re, we, le) = os_texts(os@);
    proof {
        assert(rp =~= seq![
            ("path"@, param("string"@, "Absolute or relative path to the file to read. Examples: "@ + re)),
        ]);
        assert(rr =~= seq![Json::Str("path"@)]);
        assert(wp =~= seq![
            ("path"@, param("string"@, "Path where the file should be written"@)),
            ("content"@, param("string"@, "Content to write to the file"@)),
        ]);
        assert(wr =~= seq![Json::Str("path"@), Json::Str("content"@)]);
        assert(lp =~= seq![
            ("path"@, param("string"@, "Path to the directory to list. Examples: "@ + le)),
            ("recursive"@, param("boolean"@, "Whether to list files recursively (default: false)"@)),
        ]);
        assert(lr =~= seq![Json::Str("path"@)]);
        assert(bp =~= seq![
            ("command"@, param("string"@, "The shell command to execute. Examples: "@ + be)),
        ]);
        assert(br =~= seq![Json::Str("command"@)]);
    }
    let doc = JsonValue::Array(tools);
    proof {
        crate::json::lemma_array_view(doc);
        assert(crate::json::array_items(doc@) =~= crate::json::array_items(tool_catalog(os@)));
    }
    doc
}

/// The catalog for operating system `os`, as JSON text.
pub fn get_available_tools_json(os: &str) -> (r: String)
    ensures
        r@ == json_serialize(tool_catalog(os@)),
{
    json_to_string(&tool_catalog_exec(os))
}

} // verus!
