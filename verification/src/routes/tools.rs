//! The tool execution route: which tool a request runs with which
//! arguments, where it may read and write, and how results are written.

use vstd::prelude::*;
use crate::json::{json_get, json_get_str, lemma_object_of, members_view, Json, JsonValue};
use crate::response::{HttpResponse, BAD_REQUEST};
use crate::response_helpers::{json_escape, json_cors_headers, json_error};
use crate::providers::codex::strings_view;
use crate::text::{
    append_str, chars_of, decimal, i64_text, int_text, join_exec, join_with, push_decimal, slices_equal, starts_with,
    starts_with_exec, string_from, u64_text,
};

verus! {

/// What a tool request asks for.
pub enum ToolAction {
    ReadFile { path: String },
    WriteFile { path: String, content: String },
    ListDirectory { path: String, recursive: bool },
    Command { command: String },
    /// A tool that the route does not know, by the name it was asked for.
    Unknown { name: String },
}

/// A JSON value's boolean (what `serde_json::Value::as_bool` gives).
pub open spec fn json_as_bool(j: Json) -> Option<bool> {
    match j {
        Json::Bool(b) => Some(b),
        _ => None,
    }
}

/// A string argument, empty where it is missing or not a string.
pub open spec fn str_arg(args: Json, key: Seq<char>, default: Seq<char>) -> Seq<char> {
    match json_get_str(args, key) {
        Some(s) => s,
        None => default,
    }
}

/// The body of an error answer made by `json_error`.
pub open spec fn error_answer(message: Seq<char>) -> Seq<char> {
    "{\"error\":\""@ + json_escape(message) + "\"}"@
}

/// The action for a request for tool `tool_name` (after any translation for
/// the model) with `args`, or the 400 error body for a missing argument;
/// `requested` is the name the request gave.
pub open spec fn tool_action_spec(tool_name: Seq<char>, args: Json, requested: Seq<char>) -> Result<
    (Seq<char>, Seq<char>, Seq<char>, bool),
    Seq<char>,
> {
    if tool_name == "read_file"@ {
        let path = str_arg(args, "path"@, Seq::empty());
        if path.len() == 0 {
            Err(error_answer("File path is required"@))
        } else {
            Ok(("read_file"@, path, Seq::empty(), false))
        }
    } else if tool_name == "write_file"@ {
        let path = str_arg(args, "path"@, Seq::empty());
        if path.len() == 0 {
            Err(error_answer("File path is required"@))
        } else {
            Ok(("write_file"@, path, str_arg(args, "content"@, Seq::empty()), false))
        }
    } else if tool_name == "list_directory"@ {
        Ok(
            (
                "list_directory"@,
                str_arg(args, "path"@, "."@),
                Seq::empty(),
                match json_get(args, "recursive"@) {
                    Some(v) => match json_as_bool(v) {
                        Some(b) => b,
                        None => false,
                    },
                    None => false,
                },
            ),
        )
    } else if tool_name == "bash"@ || tool_name == "shell"@ || tool_name == "command"@ {
        let command = str_arg(args, "command"@, Seq::empty());
        if command.len() == 0 {
            Err(error_answer("Command is required"@))
        } else {
            Ok(("command"@, command, Seq::empty(), false))
        }
    } else {
        Ok(("unknown"@, requested, Seq::empty(), false))
    }
}

/// The action as the values that `tool_action_spec` gives for it.
pub open spec fn action_view(a: ToolAction) -> (Seq<char>, Seq<char>, Seq<char>, bool) {
    match a {
        ToolAction::ReadFile { path } => ("read_file"@, path@, Seq::empty(), false),
        ToolAction::WriteFile { path, content } => ("write_file"@, path@, content@, false),
        ToolAction::ListDirectory { path, recursive } => ("list_directory"@, path@, Seq::empty(), recursive),
        ToolAction::Command { command } => ("command"@, command@, Seq::empty(), false),
        ToolAction::Unknown { name } => ("unknown"@, name@, Seq::empty(), false),
    }
}

/// A string argument.
fn str_arg_exec(args: &JsonValue, key: &str, default: &str) -> (r: String)
    ensures
        r@ == str_arg(args@, key@, default@),
{
    match args.get_str(key) {
        Some(s) => s,
        None => default.to_string(),
    }
}

/// The action for a tool request, or the answer for a missing argument.
pub fn tool_action(tool_name: &str, args: &JsonValue, requested: &str) -> (r: Result<ToolAction, HttpResponse>)
    ensures
        match r {
            Ok(a) => tool_action_spec(tool_name@, args@, requested@) == Ok::<
                (Seq<char>, Seq<char>, Seq<char>, bool),
                Seq<char>,
            >(action_view(a)),
            Err(resp) => resp.status == BAD_REQUEST && crate::response::headers_view(resp.headers@)
                == json_cors_headers() && tool_action_spec(tool_name@, args@, requested@) == Err::<
                (Seq<char>, Seq<char>, Seq<char>, bool),
                Seq<char>,
            >(resp.body@),
        },
{
    let name = chars_of(tool_name);
    if slices_equal(&name, &chars_of("read_file")) {
        let path = str_arg_exec(args, "path", "");
        proof {
            reveal_strlit("");
        }
        if path.as_str().is_empty() {
            return Err(json_error(BAD_REQUEST, "File path is required"));
        }
        assert(path@ == str_arg(args@, "path"@, Seq::empty()));
        assert(tool_name@ == "read_file"@);
        let a = ToolAction::ReadFile { path };
        assert(tool_action_spec(tool_name@, args@, requested@) == Ok::<(Seq<char>, Seq<char>, Seq<char>, bool), Seq<char>>(action_view(a)));
        Ok(a)
    } else if slices_equal(&name, &chars_of("write_file")) {
        let path = str_arg_exec(args, "path", "");
        proof {
            reveal_strlit("");
        }
        if path.as_str().is_empty() {
            return Err(json_error(BAD_REQUEST, "File path is required"));
        }
        let content = str_arg_exec(args, "content", "");
        assert(tool_name@ == "write_file"@);
        assert(tool_name@ != "read_file"@);
        assert(path@ == str_arg(args@, "path"@, Seq::empty()));
        assert(content@ == str_arg(args@, "content"@, Seq::empty()));
        let a = ToolAction::WriteFile { path, content };
        assert(tool_action_spec(tool_name@, args@, requested@) == Ok::<(Seq<char>, Seq<char>, Seq<char>, bool), Seq<char>>(action_view(a)));
        Ok(a)
    } else if slices_equal(&name, &chars_of("list_directory")) {
        let path = str_arg_exec(args, "path", ".");
        let recursive = match args.get("recursive") {
            Some(v) => match v {
                JsonValue::Bool(b) => *b,
                _ => false,
            },
            None => false,
        };
        assert(recursive == match json_get(args@, "recursive"@) {
            Some(v) => match json_as_bool(v) {
                Some(b) => b,
                None => false,
            },
            None => false,
        });
        let a = ToolAction::ListDirectory { path, recursive };
        assert(tool_action_spec(tool_name@, args@, requested@) == Ok::<(Seq<char>, Seq<char>, Seq<char>, bool), Seq<char>>(action_view(a)));
        Ok(a)
    } else if slices_equal(&name, &chars_of("bash")) || slices_equal(&name, &chars_of("shell"))
        || slices_equal(&name, &chars_of("command")) {
        let command = str_arg_exec(args, "command", "");
        proof {
            reveal_strlit("");
        }
        if command.as_str().is_empty() {
            return Err(json_error(BAD_REQUEST, "Command is required"));
        }
        let a = ToolAction::Command { command };
        assert(tool_action_spec(tool_name@, args@, requested@) == Ok::<(Seq<char>, Seq<char>, Seq<char>, bool), Seq<char>>(action_view(a)));
        Ok(a)
    } else {
        assert(tool_name@ != "read_file"@);
        assert(tool_name@ != "list_directory"@);
        assert(tool_name@ != "command"@);
        let a = ToolAction::Unknown { name: requested.to_string() };
        assert(tool_action_spec(tool_name@, args@, requested@) == Ok::<(Seq<char>, Seq<char>, Seq<char>, bool), Seq<char>>(action_view(a)));
        Ok(a)
    }
}

/// May a tool touch this resolved path: one under `/app` (which holds the
/// other allowed root, `/app/models`)? Paths are compared by components.
pub open spec fn path_allowed_spec(canonical: Seq<char>) -> bool {
    canonical == "/app"@ || starts_with(canonical, "/app/"@)
}

/// May a tool touch this resolved path?
pub fn path_allowed(canonical: &str) -> (r: bool)
    ensures
        r == path_allowed_spec(canonical@),
{
    let p = chars_of(canonical);
    slices_equal(&p, &chars_of("/app")) || starts_with_exec(&p, &chars_of("/app/"))
}

/// `t` right-aligned in `width` columns (what `{:>width}` gives).
pub open spec fn right_align(t: Seq<char>, width: nat) -> Seq<char> {
    if t.len() >= width {
        t
    } else {
        Seq::new((width - t.len()) as nat, |k: int| ' ') + t
    }
}

/// Append `t` right-aligned in `width` columns.
pub(crate) fn push_right_aligned(out: &mut Vec<char>, t: &Vec<char>, width: usize)
    ensures
        final(out)@ == old(out)@ + right_align(t@, width as nat),
{
    let mut pad: usize = 0;
    if t.len() < width {
        pad = width - t.len();
    }
    let mut i: usize = 0;
    while i < pad
        invariant
            i <= pad,
            out@ == old(out)@ + Seq::new(i as nat, |k: int| ' '),
        decreases pad - i,
    {
        out.push(' ');
        proof {
            assert(out@ =~= old(out)@ + Seq::new((i + 1) as nat, |k: int| ' '));
        }
        i += 1;
    }
    crate::text::append_chars(out, t);
    assert(out@ =~= old(out)@ + right_align(t@, width as nat));
}

/// The listing line of a directory entry: its kind in 10 columns, its size
/// (for a file whose size is known) in 15, then its name.
pub open spec fn listing_line_spec(is_dir: bool, size: Option<u64>, name: Seq<char>) -> Seq<char> {
    right_align(
        if is_dir {
            "DIR"@
        } else {
            "FILE"@
        },
        10,
    ) + seq![' '] + right_align(
        match size {
            Some(n) => decimal(n as nat) + " bytes"@,
            None => Seq::empty(),
        },
        15,
    ) + seq![' '] + name
}

/// The listing line of a directory entry.
pub fn listing_line(is_dir: bool, size: Option<u64>, name: &str) -> (r: String)
    ensures
        r@ == listing_line_spec(is_dir, size, name@),
{
    let kind = if is_dir {
        chars_of("DIR")
    } else {
        chars_of("FILE")
    };
    let mut size_text: Vec<char> = Vec::new();
    match size {
        Some(n) => {
            push_decimal(&mut size_text, n);
            append_str(&mut size_text, " bytes");
        },
        None => {},
    }
    let mut out: Vec<char> = Vec::new();
    push_right_aligned(&mut out, &kind, 10);
    out.push(' ');
    push_right_aligned(&mut out, &size_text, 15);
    out.push(' ');
    append_str(&mut out, name);
    assert(out@ =~= listing_line_spec(is_dir, size, name@));
    string_from(&out)
}

/// The output of a command: its standard output, then its standard error
/// under a `STDERR:` line where there is any.
pub open spec fn command_output_spec(stdout: Seq<char>, stderr: Seq<char>) -> Seq<char> {
    if stderr.len() > 0 {
        stdout + "\nSTDERR:\n"@ + stderr
    } else {
        stdout
    }
}

/// The output of a command.
pub fn command_output(stdout: &str, stderr: &str) -> (r: String)
    ensures
        r@ == command_output_spec(stdout@, stderr@),
{
    if stderr.is_empty() {
        stdout.to_string()
    } else {
        let mut v = chars_of(stdout);
        append_str(&mut v, "\nSTDERR:\n");
        append_str(&mut v, stderr);
        string_from(&v)
    }
}

/// A failed tool result: `{"success": false, "error": <message>}`.
pub open spec fn failure_json(message: Seq<char>) -> Json {
    Json::Object(seq![("success"@, Json::Bool(false)), ("error"@, Json::Str(message))])
}

/// A failed tool result.
pub fn failure_result(message: String) -> (r: JsonValue)
    ensures
        r@ == failure_json(message@),
{
    let mut ms: Vec<(String, JsonValue)> = Vec::new();
    ms.push(("success".to_string(), JsonValue::Bool(false)));
    let ghost m = message@;
    ms.push(("error".to_string(), JsonValue::Str(message)));
    proof {
        lemma_object_of(ms);
        assert(members_view(ms@) =~= seq![("success"@, Json::Bool(false)), ("error"@, Json::Str(m))]);
    }
    JsonValue::Object(ms)
}

/// The result for a tool the route does not know.
pub fn unknown_tool_result(requested: &str) -> (r: JsonValue)
    ensures
        r@ == failure_json("Unknown tool: "@ + requested@),
{
    let mut v = chars_of("Unknown tool: ");
    append_str(&mut v, requested);
    failure_result(string_from(&v))
}

/// A read file's result: `{"success": true, "result": <content>, "path": <path>}`.
pub open spec fn read_json(content: Seq<char>, path: Seq<char>) -> Json {
    Json::Object(
        seq![
            ("success"@, Json::Bool(true)),
            ("result"@, Json::Str(content)),
            ("path"@, Json::Str(path)),
        ],
    )
}

/// A read file's result.
pub fn read_result(content: String, path: &str) -> (r: JsonValue)
    ensures
        r@ == read_json(content@, path@),
{
    let mut ms: Vec<(String, JsonValue)> = Vec::new();
    ms.push(("success".to_string(), JsonValue::Bool(true)));
    let ghost c = content@;
    ms.push(("result".to_string(), JsonValue::Str(content)));
    ms.push(("path".to_string(), JsonValue::Str(path.to_string())));
    proof {
        lemma_object_of(ms);
        assert(members_view(ms@) =~= seq![
            ("success"@, Json::Bool(true)),
            ("result"@, Json::Str(c)),
            ("path"@, Json::Str(path@)),
        ]);
    }
    JsonValue::Object(ms)
}

/// A written file's result, with the number of bytes written.
pub open spec fn write_json(bytes: u64, path: Seq<char>) -> Json {
    Json::Object(
        seq![
            ("success"@, Json::Bool(true)),
            (
                "result"@,
                Json::Str("Successfully wrote "@ + decimal(bytes as nat) + " bytes to '"@ + path + "'"@),
            ),
            ("path"@, Json::Str(path)),
            ("bytes_written"@, Json::Number(decimal(bytes as nat))),
        ],
    )
}

/// A written file's result.
pub fn write_result(bytes: u64, path: &str) -> (r: JsonValue)
    ensures
        r@ == write_json(bytes, path@),
{
    let mut text = chars_of("Successfully wrote ");
    push_decimal(&mut text, bytes);
    append_str(&mut text, " bytes to '");
    append_str(&mut text, path);
    append_str(&mut text, "'");
    let mut ms: Vec<(String, JsonValue)> = Vec::new();
    ms.push(("success".to_string(), JsonValue::Bool(true)));
    ms.push(("result".to_string(), JsonValue::Str(string_from(&text))));
    ms.push(("path".to_string(), JsonValue::Str(path.to_string())));
    ms.push(("bytes_written".to_string(), JsonValue::Number(u64_text(bytes))));
    proof {
        lemma_object_of(ms);
        assert(members_view(ms@) =~= seq![
            ("success"@, Json::Bool(true)),
            (
                "result"@,
                Json::Str("Successfully wrote "@ + decimal(bytes as nat) + " bytes to '"@ + path@ + "'"@),
            ),
            ("path"@, Json::Str(path@)),
            ("bytes_written"@, Json::Number(decimal(bytes as nat))),
        ]);
    }
    JsonValue::Object(ms)
}

/// A directory listing's result: the lines joined by newlines, the path,
/// the number of lines and whether the listing went into subdirectories.
pub open spec fn list_json(lines: Seq<Seq<char>>, path: Seq<char>, recursive: bool) -> Json {
    Json::Object(
        seq![
            ("success"@, Json::Bool(true)),
            ("result"@, Json::Str(join_with(lines, "\n"@))),
            ("path"@, Json::Str(path)),
            ("count"@, Json::Number(decimal(lines.len()))),
            ("recursive"@, Json::Bool(recursive)),
        ],
    )
}

/// A directory listing's result.
pub fn list_result(lines: &Vec<String>, path: &str, recursive: bool) -> (r: JsonValue)
    ensures
        r@ == list_json(strings_view(lines@), path@, recursive),
{
    let mut parts: Vec<Vec<char>> = Vec::new();
    let mut i: usize = 0;
    while i < lines.len()
        invariant
            i <= lines.len(),
            parts@.len() == i,
            forall|k: int| 0 <= k < i ==> #[trigger] parts@[k]@ == lines@[k]@,
        decreases lines.len() - i,
    {
        parts.push(chars_of(lines[i].as_str()));
        i = i + 1;
    }
    assert(parts@.map_values(|p: Vec<char>| p@) =~= strings_view(lines@));
    let joined = join_exec(&parts, "\n");
    let mut ms: Vec<(String, JsonValue)> = Vec::new();
    ms.push(("success".to_string(), JsonValue::Bool(true)));
    ms.push(("result".to_string(), JsonValue::Str(joined)));
    ms.push(("path".to_string(), JsonValue::Str(path.to_string())));
    ms.push(("count".to_string(), JsonValue::Number(u64_text(lines.len() as u64))));
    ms.push(("recursive".to_string(), JsonValue::Bool(recursive)));
    proof {
        lemma_object_of(ms);
        assert(members_view(ms@) =~= seq![
            ("success"@, Json::Bool(true)),
            ("result"@, Json::Str(join_with(strings_view(lines@), "\n"@))),
            ("path"@, Json::Str(path@)),
            ("count"@, Json::Number(decimal(strings_view(lines@).len()))),
            ("recursive"@, Json::Bool(recursive)),
        ]);
    }
    JsonValue::Object(ms)
}

/// A finished command's result: its output and its exit code (null where
/// the process gave none).
pub open spec fn command_json(output: Seq<char>, exit_code: Option<i32>) -> Json {
    Json::Object(
        seq![
            ("success"@, Json::Bool(true)),
            ("result"@, Json::Str(output)),
            ("exit_code"@, exit_code_json(exit_code)),
        ],
    )
}

/// An exit code as JSON: its number, or null.
pub open spec fn exit_code_json(exit_code: Option<i32>) -> Json {
    match exit_code {
        Some(c) => Json::Number(int_text(c as int)),
        None => Json::Null,
    }
}

/// A finished command's result.
pub fn command_result(output: String, exit_code: Option<i32>) -> (r: JsonValue)
    ensures
        r@ == command_json(output@, exit_code),
{
    let code = match exit_code {
        Some(c) => JsonValue::Number(i64_text(c as i64)),
        None => JsonValue::Null,
    };
    let ghost o = output@;
    let ghost cv = code@;
    assert(cv == exit_code_json(exit_code));
    let mut ms: Vec<(String, JsonValue)> = Vec::new();
    ms.push(("success".to_string(), JsonValue::Bool(true)));
    ms.push(("result".to_string(), JsonValue::Str(output)));
    ms.push(("exit_code".to_string(), code));
    proof {
        lemma_object_of(ms);
        assert(members_view(ms@) =~= seq![
            ("success"@, Json::Bool(true)),
            ("result"@, Json::Str(o)),
            ("exit_code"@, cv),
        ]);
    }
    JsonValue::Object(ms)
}

// ---------------------------------------------------------------------------
// Touching the file system only at allowed paths
// ---------------------------------------------------------------------------

/// Status of the answer for a path a tool may not touch.
pub const FORBIDDEN: u16 = 403;

/// What a file action does once its path has been resolved: read, write or
/// list at the resolved path, or refuse with an answer.
pub enum FileStep {
    Read { path: String },
    Write { path: String, content: String },
    List { path: String, recursive: bool },
    Refuse { response: HttpResponse },
}

/// The resolved path a file action may use, or the message it is refused
/// with: the path where it lies under `/app`; else `Path not allowed`, or
/// the resolution's error.
pub open spec fn allowed_path(resolved: Result<Seq<char>, Seq<char>>) -> Result<Seq<char>, Seq<char>> {
    match resolved {
        Ok(c) => if path_allowed_spec(c) {
            Ok(c)
        } else {
            Err("Path not allowed"@)
        },
        Err(e) => Err("Failed to resolve path: "@ + e),
    }
}

/// Does the step touch the file system, and at which path?
pub open spec fn touched_path(step: FileStep) -> Option<Seq<char>> {
    match step {
        FileStep::Read { path } => Some(path@),
        FileStep::Write { path, .. } => Some(path@),
        FileStep::List { path, .. } => Some(path@),
        FileStep::Refuse { .. } => None,
    }
}

/// Is the action one on a file path?
pub open spec fn is_file_action(a: ToolAction) -> bool {
    a is ReadFile || a is WriteFile || a is ListDirectory
}

/// The step for a file action whose path resolved as `resolved` (the
/// resolved path, or the resolution's error): at an allowed path the action
/// is taken there; anywhere else it is refused with a 403 answer and no file
/// is touched.
pub fn file_step(action: ToolAction, resolved: Result<String, String>) -> (r: FileStep)
    requires
        is_file_action(action),
    ensures
        match allowed_path(
            match resolved {
                Ok(c) => Ok(c@),
                Err(e) => Err(e@),
            },
        ) {
            Ok(c) => touched_path(r) == Some(c) && match action {
                ToolAction::ReadFile { .. } => r is Read,
                ToolAction::WriteFile { content, .. } => r matches FileStep::Write { content: w, .. } && w@
                    == content@,
                ToolAction::ListDirectory { recursive, .. } => r matches FileStep::List { recursive: b, .. } && b
                    == recursive,
                _ => false,
            },
            Err(m) => r matches FileStep::Refuse { response } && response.status == FORBIDDEN
                && crate::response::headers_view(response.headers@) == json_cors_headers() && response.body@
                == error_answer(m),
        },
        touched_path(r) matches Some(p) ==> path_allowed_spec(p),
{
    let canonical = match resolved {
        Ok(c) => c,
        Err(e) => {
            let mut v = chars_of("Failed to resolve path: ");
            append_str(&mut v, e.as_str());
            let m = string_from(&v);
            return FileStep::Refuse { response: json_error(FORBIDDEN, m.as_str()) };
        },
    };
    if !path_allowed(canonical.as_str()) {
        return FileStep::Refuse { response: json_error(FORBIDDEN, "Path not allowed") };
    }
    match action {
        ToolAction::ReadFile { .. } => FileStep::Read { path: canonical },
        ToolAction::WriteFile { content, .. } => FileStep::Write { path: canonical, content },
        ToolAction::ListDirectory { recursive, .. } => FileStep::List { path: canonical, recursive },
        _ => FileStep::Refuse { response: json_error(FORBIDDEN, "Path not allowed") },
    }
}

/// A file action at a path that does not resolve, or resolves outside
/// `/app`, is answered 403 and touches no file; whatever step is taken, a
/// step that touches a file does so at an allowed path.
pub proof fn lemma_refused_path_never_touched(resolved: Result<Seq<char>, Seq<char>>, step: FileStep)
    requires
        allowed_path(resolved) is Err ==> step is Refuse,
        allowed_path(resolved) matches Ok(c) ==> touched_path(step) == Some(c),
    ensures
        touched_path(step) matches Some(p) ==> path_allowed_spec(p) && resolved == Ok::<Seq<char>, Seq<char>>(p),
        (resolved matches Ok(c) && !path_allowed_spec(c)) ==> touched_path(step) is None,
        resolved is Err ==> touched_path(step) is None,
{
}

} // verus!
