//! Recognising tool calls in model output. Several formats are accepted
//! (standard JSON, Mistral arrays and `name,{args}`, Llama3 XML, Granite
//! `name{args}`, bare arguments); malformed JSON is repaired before it is given
//! up. The result is the tool to run with its checked arguments; running it
//! is the caller's work.

use vstd::prelude::*;
use crate::json::{
    Json, JsonValue, json_get, json_get_str, json_parse, lemma_array_view, lemma_object_members,
    member_position, members_insert, members_view, opt_view, parse_json,
};
use crate::json_repair::{
    auto_close_json, auto_close_spec, escape_backslashes_spec, escape_inner_quotes_in_strings,
    escape_invalid_backslashes_in_strings, escape_newlines_in_json_strings, escape_newlines_spec,
    escape_quotes_spec,
};
use crate::text::{
    chars_of, contains, contains_exec, matches_at, find, first_index, lemma_first_index, single, slice_of,
    slices_equal, starts_with, starts_with_exec, string_from, trim, trim_exec,
};

verus! {

// ---------------------------------------------------------------------------
// Parsing with repairs
// ---------------------------------------------------------------------------

/// The document read from `s` by trying, in order: `s` itself, `s` with
/// newlines escaped, with backslashes and newlines escaped, that closed,
/// `s` with inner quotes escaped, and all repairs together.
pub open spec fn fixup_parse(s: Seq<char>) -> Option<Json> {
    let nl = escape_newlines_spec(s);
    let both = escape_newlines_spec(escape_backslashes_spec(s));
    let closed = auto_close_spec(both);
    let quotes = escape_quotes_spec(s);
    let all = auto_close_spec(escape_quotes_spec(both));
    if json_parse(s) is Some {
        json_parse(s)
    } else if json_parse(nl) is Some {
        json_parse(nl)
    } else if json_parse(both) is Some {
        json_parse(both)
    } else if json_parse(closed) is Some {
        json_parse(closed)
    } else if json_parse(quotes) is Some {
        json_parse(quotes)
    } else {
        json_parse(all)
    }
}

/// Parse `input` as JSON, applying progressively stronger repairs until one parses.
pub fn try_parse_with_fixups(input: &str) -> (r: Option<JsonValue>)
    ensures
        opt_view(r) == fixup_parse(input@),
{
    let v = parse_json(input);
    if v.is_some() {
        return v;
    }
    let escaped_nl = escape_newlines_in_json_strings(input);
    let v = parse_json(escaped_nl.as_str());
    if v.is_some() {
        return v;
    }
    let escaped_bs = escape_invalid_backslashes_in_strings(input);
    let escaped_both = escape_newlines_in_json_strings(escaped_bs.as_str());
    let v = parse_json(escaped_both.as_str());
    if v.is_some() {
        return v;
    }
    let closed = auto_close_json(escaped_both.as_str());
    let v = parse_json(closed.as_str());
    if v.is_some() {
        return v;
    }
    let escaped_quotes = escape_inner_quotes_in_strings(input);
    let v = parse_json(escaped_quotes.as_str());
    if v.is_some() {
        return v;
    }
    let all_fixed = escape_inner_quotes_in_strings(escaped_both.as_str());
    let all_closed = auto_close_json(all_fixed.as_str());
    parse_json(all_closed.as_str())
}

/// Parse a character sequence as JSON with repairs.
fn fixup_parse_chars(v: &Vec<char>) -> (r: Option<JsonValue>)
    ensures
        opt_view(r) == fixup_parse(v@),
{
    let s = string_from(v);
    try_parse_with_fixups(s.as_str())
}

/// Parse a character sequence as JSON, without repairs.
fn parse_chars(v: &Vec<char>) -> (r: Option<JsonValue>)
    ensures
        opt_view(r) == json_parse(v@),
{
    let s = string_from(v);
    parse_json(s.as_str())
}

// ---------------------------------------------------------------------------
// The accepted formats
// ---------------------------------------------------------------------------

/// An empty JSON object.
pub open spec fn empty_object() -> Json {
    Json::Object(Seq::empty())
}

/// Standard JSON `{"name": ..., "arguments": {...}}`, or an array whose first
/// element is one: the name must be a string; missing arguments are `{}`.
pub open spec fn json_format_spec(t: Seq<char>) -> Option<(Seq<char>, Json)> {
    let parsed = if starts_with(t, seq!['[']) {
        match fixup_parse(t) {
            Some(Json::Array(items)) => if items.len() > 0 {
                Some(items[0])
            } else {
                None
            },
            _ => None,
        }
    } else {
        fixup_parse(t)
    };
    match parsed {
        Some(p) => match json_get_str(p, "name"@) {
            Some(name) => Some(
                (
                    name,
                    match json_get(p, "arguments"@) {
                        Some(a) => a,
                        None => empty_object(),
                    },
                ),
            ),
            None => None,
        },
        None => None,
    }
}

/// The name and arguments of a parsed standard tool call.
fn name_and_arguments(p: JsonValue) -> (r: Option<(String, JsonValue)>)
    ensures
        match r {
            Some((n, a)) => json_get_str(p@, "name"@) == Some(n@) && a@ == match json_get(
                p@,
                "arguments"@,
            ) {
                Some(a) => a,
                None => empty_object(),
            },
            None => json_get_str(p@, "name"@) is None,
        },
{
    let name = match p.get_str("name") {
        Some(n) => n,
        None => return None,
    };
    let args = match p.take_member("arguments") {
        Some(a) => a,
        None => {
            let empty: Vec<(String, JsonValue)> = Vec::new();
            let e = JsonValue::Object(empty);
            proof {
                lemma_object_members(e);
                assert(members_view(empty@) =~= Seq::empty());
            }
            e
        },
    };
    Some((name, args))
}

/// Parse the standard JSON format, or a Mistral array of calls (first one taken).
pub fn try_parse_json_format(trimmed: &Vec<char>) -> (r: Option<(String, JsonValue)>)
    ensures
        match r {
            Some((n, a)) => json_format_spec(trimmed@) == Some((n@, a@)),
            None => json_format_spec(trimmed@) is None,
        },
{
    let open_bracket = single('[');
    let ghost t = trimmed@;
    let parsed = if starts_with_exec(trimmed, &open_bracket) {
        match fixup_parse_chars(trimmed) {
            Some(v) => match v {
                JsonValue::Array(mut items) => {
                    proof {
                        lemma_array_view(JsonValue::Array(items));
                    }
                    if items.len() > 0 {
                        items.remove(0)
                    } else {
                        return None;
                    }
                },
                _ => {
                    assert(!(v@ is Array));
                    return None;
                },
            },
            None => return None,
        }
    } else {
        match fixup_parse_chars(trimmed) {
            Some(p) => p,
            None => return None,
        }
    };
    name_and_arguments(parsed)
}

/// A name that has a space or a brace is not an identifier.
pub open spec fn bad_comma_name(name: Seq<char>) -> bool {
    name.len() == 0 || contains(name, seq![' ']) || contains(name, seq!['{'])
}

/// Mistral `name,{args}`: split at the first `,{`; the JSON after the comma is
/// the arguments (parsed without repairs).
pub open spec fn mistral_comma_spec(t: Seq<char>) -> Option<(Seq<char>, Json)> {
    match first_index(t, ",{"@) {
        Some(c) => {
            let name = trim(t.take(c));
            match json_parse(t.skip(c + 1)) {
                Some(args) => if bad_comma_name(name) {
                    None
                } else {
                    Some((name, args))
                },
                None => None,
            }
        },
        None => None,
    }
}

/// Parse the Mistral comma format `tool_name,{"arg":"val"}`.
pub fn try_parse_mistral_comma_format(trimmed: &Vec<char>) -> (r: Option<(String, JsonValue)>)
    ensures
        match r {
            Some((n, a)) => mistral_comma_spec(trimmed@) == Some((n@, a@)),
            None => mistral_comma_spec(trimmed@) is None,
        },
{
    let sep = chars_of(",{");
    proof {
        reveal_strlit(",{");
    }
    let comma_idx = match find(trimmed, &sep) {
        Some(i) => i,
        None => return None,
    };
    proof {
        lemma_first_index(trimmed@, sep@);
        assert(first_index(trimmed@, sep@) == Some(comma_idx as int));
        assert(matches_at(trimmed@, sep@, comma_idx as int));
        assert(sep@.len() == 2);
    }
    let n = trimmed.len();
    assert(comma_idx + 2 <= n);
    let before = slice_of(trimmed, 0, comma_idx);
    let name = trim_exec(&before);
    let json_part = slice_of(trimmed, comma_idx + 1, trimmed.len());
    assert(before@ == trimmed@.take(comma_idx as int));
    assert(json_part@ == trimmed@.skip(comma_idx + 1));
    let args = match parse_chars(&json_part) {
        Some(a) => a,
        None => return None,
    };
    let space = single(' ');
    let brace = single('{');
    if name.len() == 0 || contains_exec(&name, &space) || contains_exec(&name, &brace) {
        return None;
    }
    Some((string_from(&name), args))
}

/// A name with a space or an angle bracket is not an identifier.
pub open spec fn bad_brace_name(name: Seq<char>) -> bool {
    name.len() == 0 || contains(name, seq![' ']) || contains(name, seq!['<']) || contains(
        name,
        seq!['>'],
    )
}

/// Granite `name{args}`: everything before the first `{` is the name, the
/// rest (from the brace) is the arguments, parsed without repairs.
pub open spec fn name_json_spec(t: Seq<char>) -> Option<(Seq<char>, Json)> {
    match first_index(t, seq!['{']) {
        Some(b) => {
            let name = trim(t.take(b));
            if bad_brace_name(name) {
                None
            } else {
                match json_parse(t.skip(b)) {
                    Some(args) => Some((name, args)),
                    None => None,
                }
            }
        },
        None => None,
    }
}

/// Parse the direct concatenation format `tool_name{"arg":"val"}`.
pub fn try_parse_name_json_format(trimmed: &Vec<char>) -> (r: Option<(String, JsonValue)>)
    ensures
        match r {
            Some((n, a)) => name_json_spec(trimmed@) == Some((n@, a@)),
            None => name_json_spec(trimmed@) is None,
        },
{
    let brace = single('{');
    let brace_idx = match find(trimmed, &brace) {
        Some(i) => i,
        None => return None,
    };
    proof {
        lemma_first_index(trimmed@, brace@);
    }
    let before = slice_of(trimmed, 0, brace_idx);
    let name = trim_exec(&before);
    let json_part = slice_of(trimmed, brace_idx, trimmed.len());
    assert(before@ == trimmed@.take(brace_idx as int));
    assert(json_part@ == trimmed@.skip(brace_idx as int));
    let space = single(' ');
    let lt = single('<');
    let gt = single('>');
    if name.len() == 0 || contains_exec(&name, &space) || contains_exec(&name, &lt)
        || contains_exec(&name, &gt) {
        return None;
    }
    let args = match parse_chars(&json_part) {
        Some(a) => a,
        None => return None,
    };
    Some((string_from(&name), args))
}

/// A found pattern lies inside the searched sequence.
pub proof fn lemma_found(h: Seq<char>, p: Seq<char>)
    ensures
        first_index(h, p) matches Some(i) ==> 0 <= i && i + p.len() <= h.len(),
{
    lemma_first_index(h, p);
}

/// The `<parameter=NAME> VALUE </parameter>` pairs of `body` from position
/// `pos` on, added to `acc` in order (a later pair with the same name
/// replaces the value of an earlier one). Scanning stops at the first pair
/// that is not closed.
pub open spec fn xml_params_from(body: Seq<char>, pos: int, acc: Seq<(Seq<char>, Json)>) -> Seq<
    (Seq<char>, Json),
>
    decreases body.len() - pos,
{
    if pos < 0 || pos > body.len() {
        acc
    } else {
        match first_index(body.skip(pos), "<parameter="@) {
            None => acc,
            Some(ps) => {
                let name_start = pos + ps + "<parameter="@.len();
                proof {
                    lemma_found(body.skip(pos), "<parameter="@);
                }
                match first_index(body.skip(name_start), seq!['>']) {
                    None => acc,
                    Some(ne) => {
                        let name_end = name_start + ne;
                        let name = trim(body.subrange(name_start, name_end));
                        let value_start = name_end + 1;
                        proof {
                            lemma_found(body.skip(name_start), seq!['>']);
                        }
                        match first_index(body.skip(value_start), "</parameter>"@) {
                            None => acc,
                            Some(ve) => {
                                let value_end = value_start + ve;
                                let value = trim(body.subrange(value_start, value_end));
                                proof {
                                    lemma_found(body.skip(value_start), "</parameter>"@);
                                }
                                xml_params_from(
                                    body,
                                    value_end + "</parameter>"@.len(),
                                    members_insert(acc, name, Json::Str(value)),
                                )
                            },
                        }
                    },
                }
            },
        }
    }
}

/// Llama3/Hermes XML `<function=NAME> <parameter=ARG> VALUE </parameter> </function>`:
/// the arguments are an object of the (trimmed) parameter strings.
pub open spec fn llama3_xml_spec(t: Seq<char>) -> Option<(Seq<char>, Json)> {
    match first_index(t, "<function="@) {
        None => None,
        Some(fs) => {
            let name_start = fs + "<function="@.len();
            match first_index(t.skip(name_start), seq!['>']) {
                None => None,
                Some(e) => {
                    let name_end = name_start + e;
                    let name = trim(t.subrange(name_start, name_end));
                    if name.len() == 0 {
                        None
                    } else {
                        Some(
                            (
                                name,
                                Json::Object(xml_params_from(t.skip(name_end + 1), 0, Seq::empty())),
                            ),
                        )
                    }
                },
            }
        },
    }
}

/// Set member `key` of an object's members to `v`, as `members_insert` says.
fn insert_member(members: &mut Vec<(String, JsonValue)>, key: String, v: JsonValue)
    ensures
        members_view(final(members)@) == members_insert(members_view(old(members)@), key@, v@),
{
    let ghost v_view = v@;
    match member_position(members, key.as_str()) {
        Some(i) => {
            members.set(i, (key, v));
            assert(members_view(members@) =~= members_view(old(members)@).update(
                i as int,
                (key@, v_view),
            ));
        },
        None => {
            members.push((key, v));
            assert(members_view(members@) =~= members_view(old(members)@).push((key@, v_view)));
        },
    }
}

/// Find `p` in `h` from position `from` on; the position is relative to `from`.
fn find_from(h: &Vec<char>, p: &Vec<char>, from: usize) -> (r: Option<usize>)
    requires
        from <= h.len(),
    ensures
        r matches Some(i) ==> first_index(h@.skip(from as int), p@) == Some(i as int) && from + i
            + p.len() <= h.len(),
        r is None ==> first_index(h@.skip(from as int), p@) is None,
{
    let rest = slice_of(h, from, h.len());
    assert(rest@ == h@.skip(from as int));
    let r = find(&rest, p);
    proof {
        lemma_first_index(rest@, p@);
    }
    r
}

/// Parse the Llama3/Hermes XML format.
pub fn try_parse_llama3_xml_format(trimmed: &Vec<char>) -> (r: Option<(String, JsonValue)>)
    ensures
        match r {
            Some((n, a)) => llama3_xml_spec(trimmed@) == Some((n@, a@)),
            None => llama3_xml_spec(trimmed@) is None,
        },
{
    let open_fn = chars_of("<function=");
    let gt = single('>');
    let open_param = chars_of("<parameter=");
    let close_param = chars_of("</parameter>");
    let func_start = match find(trimmed, &open_fn) {
        Some(i) => i,
        None => return None,
    };
    proof {
        lemma_first_index(trimmed@, open_fn@);
        assert(matches_at(trimmed@, open_fn@, func_start as int));
    }
    let n = trimmed.len();
    assert(func_start + open_fn.len() <= n);
    let func_name_start = func_start + open_fn.len();
    let rel_end = match find_from(trimmed, &gt, func_name_start) {
        Some(i) => i,
        None => return None,
    };
    let func_name_end = func_name_start + rel_end;
    let raw_name = slice_of(trimmed, func_name_start, func_name_end);
    let name = trim_exec(&raw_name);
    if name.len() == 0 {
        return None;
    }
    let body = slice_of(trimmed, func_name_end + 1, trimmed.len());
    assert(body@ == trimmed@.skip(func_name_end + 1));
    let mut args: Vec<(String, JsonValue)> = Vec::new();
    let mut search_pos: usize = 0;
    assert(body@.skip(0) == body@);
    assert(members_view(args@) =~= Seq::empty());
    while search_pos <= body.len()
        invariant
            search_pos <= body.len() + 1,
            open_param@ == "<parameter="@,
            close_param@ == "</parameter>"@,
            gt@ == seq!['>'],
            xml_params_from(body@, 0, Seq::empty()) == xml_params_from(
                body@,
                search_pos as int,
                members_view(args@),
            ),
        ensures
            xml_params_from(body@, 0, Seq::empty()) == members_view(args@),
        decreases body.len() + 1 - search_pos,
    {
        let param_start = match find_from(&body, &open_param, search_pos) {
            Some(i) => i,
            None => break,
        };
        let name_start = search_pos + param_start + open_param.len();
        let rel_name_end = match find_from(&body, &gt, name_start) {
            Some(i) => i,
            None => break,
        };
        let name_end = name_start + rel_name_end;
        let raw_param = slice_of(&body, name_start, name_end);
        let param_name = trim_exec(&raw_param);
        let value_start = name_end + 1;
        let rel_value_end = match find_from(&body, &close_param, value_start) {
            Some(i) => i,
            None => break,
        };
        let value_end = value_start + rel_value_end;
        let raw_value = slice_of(&body, value_start, value_end);
        let param_value = trim_exec(&raw_value);
        let ghost before = members_view(args@);
        let value_string = string_from(&param_value);
        let value = JsonValue::Str(value_string);
        insert_member(&mut args, string_from(&param_name), value);
        search_pos = value_end + close_param.len();
        assert(members_view(args@) == members_insert(before, trim(body@.subrange(name_start as int, name_end as int)), Json::Str(trim(body@.subrange(value_start as int, value_end as int)))));
    }
    let obj = JsonValue::Object(args);
    proof {
        lemma_object_members(obj);
    }
    Some((string_from(&name), obj))
}

/// Does the object `j` have a member `key`?
pub open spec fn has_key(j: Json, key: Seq<char>) -> bool {
    json_get(j, key) is Some
}

/// The tool that a bare argument object calls, by the keys it has; `None`
/// when it has a `name` key or none of the known keys.
pub open spec fn inferred_tool_name(j: Json) -> Option<Seq<char>> {
    if has_key(j, "name"@) {
        None
    } else if has_key(j, "command"@) {
        Some("execute_command"@)
    } else if has_key(j, "code"@) {
        Some("execute_python"@)
    } else if has_key(j, "path"@) && has_key(j, "content"@) {
        Some("write_file"@)
    } else if has_key(j, "query"@) {
        Some("web_search"@)
    } else if has_key(j, "url"@) {
        Some("web_fetch"@)
    } else if has_key(j, "path"@) {
        Some("read_file"@)
    } else {
        None
    }
}

/// Bare arguments without the name wrapper (GLM): an object, parsed with
/// repairs, whose keys tell the tool.
pub open spec fn bare_args_spec(t: Seq<char>) -> Option<(Seq<char>, Json)> {
    match fixup_parse(t) {
        Some(p) => if p is Object {
            match inferred_tool_name(p) {
                Some(name) => Some((name, p)),
                None => None,
            }
        } else {
            None
        },
        None => None,
    }
}

/// Infer the tool name from the keys of bare arguments.
pub fn try_infer_tool_from_bare_args(trimmed: &Vec<char>) -> (r: Option<(String, JsonValue)>)
    ensures
        match r {
            Some((n, a)) => bare_args_spec(trimmed@) == Some((n@, a@)),
            None => bare_args_spec(trimmed@) is None,
        },
{
    let parsed = match fixup_parse_chars(trimmed) {
        Some(p) => p,
        None => return None,
    };
    let is_object = match &parsed {
        JsonValue::Object(_) => true,
        _ => false,
    };
    if !is_object {
        return None;
    }
    let name = if parsed.contains_key("name") {
        return None;
    } else if parsed.contains_key("command") {
        "execute_command"
    } else if parsed.contains_key("code") {
        "execute_python"
    } else if parsed.contains_key("path") && parsed.contains_key("content") {
        "write_file"
    } else if parsed.contains_key("query") {
        "web_search"
    } else if parsed.contains_key("url") {
        "web_fetch"
    } else if parsed.contains_key("path") {
        "read_file"
    } else {
        return None;
    };
    Some((name.to_owned(), parsed))
}

/// The call found in already-trimmed text by the four named formats, tried
/// in order: standard JSON, Mistral comma, Llama3 XML, name+JSON.
pub open spec fn named_call_spec(t: Seq<char>) -> Option<(Seq<char>, Json)> {
    if json_format_spec(t) is Some {
        json_format_spec(t)
    } else if mistral_comma_spec(t) is Some {
        mistral_comma_spec(t)
    } else if llama3_xml_spec(t) is Some {
        llama3_xml_spec(t)
    } else {
        name_json_spec(t)
    }
}

/// Try the four named formats on trimmed text.
fn parse_named_call(trimmed: &Vec<char>) -> (r: Option<(String, JsonValue)>)
    ensures
        match r {
            Some((n, a)) => named_call_spec(trimmed@) == Some((n@, a@)),
            None => named_call_spec(trimmed@) is None,
        },
{
    if let Some(result) = try_parse_json_format(trimmed) {
        Some(result)
    } else if let Some(result) = try_parse_mistral_comma_format(trimmed) {
        Some(result)
    } else if let Some(result) = try_parse_llama3_xml_format(trimmed) {
        Some(result)
    } else if let Some(result) = try_parse_name_json_format(trimmed) {
        Some(result)
    } else {
        None
    }
}

/// Parse a tool call in any supported format into its name and arguments.
pub fn try_parse_tool_call(text: &str) -> (r: Option<(String, JsonValue)>)
    ensures
        match r {
            Some((n, a)) => named_call_spec(trim(text@)) == Some((n@, a@)),
            None => named_call_spec(trim(text@)) is None,
        },
{
    let chars = chars_of(text);
    let trimmed = trim_exec(&chars);
    parse_named_call(&trimmed)
}

/// A non-empty string value of member `command`.
pub open spec fn nonempty_command(j: Json) -> Option<Seq<char>> {
    match json_get_str(j, "command"@) {
        Some(c) => if c.len() > 0 {
            Some(c)
        } else {
            None
        },
        None => None,
    }
}

/// The command of an `execute_command` call: from a recognised call only when
/// its name is `execute_command`; from bare `{"command": ...}` arguments when
/// no call is recognised.
pub open spec fn execute_command_spec(text: Seq<char>) -> Option<Seq<char>> {
    let t = trim(text);
    match named_call_spec(t) {
        Some((name, args)) => if name == "execute_command"@ {
            nonempty_command(args)
        } else {
            None
        },
        None => match fixup_parse(t) {
            Some(p) => nonempty_command(p),
            None => None,
        },
    }
}

/// A non-empty `command` string member, copied.
fn command_of(args: &JsonValue) -> (r: Option<String>)
    ensures
        match r {
            Some(c) => nonempty_command(args@) == Some(c@),
            None => nonempty_command(args@) is None,
        },
{
    match args.get_str("command") {
        Some(c) => if !c.as_str().is_empty() {
            Some(c)
        } else {
            None
        },
        None => None,
    }
}

/// If the text is an `execute_command` tool call, its command string.
pub fn extract_execute_command(text: &str) -> (r: Option<String>)
    ensures
        match r {
            Some(c) => execute_command_spec(text@) == Some(c@),
            None => execute_command_spec(text@) is None,
        },
{
    let chars = chars_of(text);
    let trimmed = trim_exec(&chars);
    if let Some((name, args)) = parse_named_call(&trimmed) {
        let expected = chars_of("execute_command");
        let name_chars = chars_of(name.as_str());
        if slices_equal(&name_chars, &expected) {
            return command_of(&args);
        }
        return None;
    }
    match fixup_parse_chars(&trimmed) {
        Some(p) => command_of(&p),
        None => None,
    }
}

// ---------------------------------------------------------------------------
// Dispatch
// ---------------------------------------------------------------------------

/// Characters returned by default from a web page fetch.
pub const MAX_FETCH_CHARS: u64 = 15_000;

/// Results returned by default from a web search.
pub const DEFAULT_MAX_RESULTS: u64 = 8;

/// A recognised tool call with its checked arguments: what to run, or the
/// reply to give at once when a required argument is missing.
pub enum NativeToolCall {
    ReadFile { path: String },
    WriteFile { path: String, content: String },
    ExecutePython { code: String },
    ListDirectory { path: String },
    WebSearch { query: String, max_results: u64, provider: Option<String> },
    WebFetch { url: String, max_length: u64 },
    ExecuteCommand { command: String },
    Reply { message: String },
}

/// The mathematical form of a `NativeToolCall`.
pub enum ToolCall {
    ReadFile { path: Seq<char> },
    WriteFile { path: Seq<char>, content: Seq<char> },
    ExecutePython { code: Seq<char> },
    ListDirectory { path: Seq<char> },
    WebSearch { query: Seq<char>, max_results: u64, provider: Option<Seq<char>> },
    WebFetch { url: Seq<char>, max_length: u64 },
    ExecuteCommand { command: Seq<char> },
    Reply { message: Seq<char> },
}

/// The view of an optional string.
pub open spec fn opt_str_view(s: Option<String>) -> Option<Seq<char>> {
    match s {
        Some(x) => Some(x@),
        None => None,
    }
}

impl View for NativeToolCall {
    type V = ToolCall;

    open spec fn view(&self) -> ToolCall {
        match self {
            NativeToolCall::ReadFile { path } => ToolCall::ReadFile { path: path@ },
            NativeToolCall::WriteFile { path, content } => ToolCall::WriteFile {
                path: path@,
                content: content@,
            },
            NativeToolCall::ExecutePython { code } => ToolCall::ExecutePython { code: code@ },
            NativeToolCall::ListDirectory { path } => ToolCall::ListDirectory { path: path@ },
            NativeToolCall::WebSearch { query, max_results, provider } => ToolCall::WebSearch {
                query: query@,
                max_results: *max_results,
                provider: opt_str_view(*provider),
            },
            NativeToolCall::WebFetch { url, max_length } => ToolCall::WebFetch {
                url: url@,
                max_length: *max_length,
            },
            NativeToolCall::ExecuteCommand { command } => ToolCall::ExecuteCommand {
                command: command@,
            },
            NativeToolCall::Reply { message } => ToolCall::Reply { message: message@ },
        }
    }
}

/// The reply for a missing required argument `arg`.
pub open spec fn missing_argument(arg: Seq<char>) -> ToolCall {
    ToolCall::Reply { message: "Error: '"@ + arg + "' argument is required"@ }
}

/// The unsigned integer value of member `key`, or `default`.
pub open spec fn u64_or(args: Json, key: Seq<char>, default: u64) -> u64 {
    match json_get(args, key) {
        Some(v) => match crate::json::json_as_u64(v) {
            Some(n) => n,
            None => default,
        },
        None => default,
    }
}

/// What a call of tool `name` with `args` does; `None` for a tool this
/// dispatcher does not know.
pub open spec fn tool_action(name: Seq<char>, args: Json, provider: Option<Seq<char>>) -> Option<ToolCall> {
    if name == "read_file"@ {
        Some(
            match json_get_str(args, "path"@) {
                Some(p) => ToolCall::ReadFile { path: p },
                None => missing_argument("path"@),
            },
        )
    } else if name == "write_file"@ {
        Some(
            match json_get_str(args, "path"@) {
                Some(p) => match json_get_str(args, "content"@) {
                    Some(c) => ToolCall::WriteFile { path: p, content: c },
                    None => missing_argument("content"@),
                },
                None => missing_argument("path"@),
            },
        )
    } else if name == "execute_python"@ {
        Some(
            match json_get_str(args, "code"@) {
                Some(c) => ToolCall::ExecutePython { code: c },
                None => missing_argument("code"@),
            },
        )
    } else if name == "list_directory"@ {
        Some(
            ToolCall::ListDirectory {
                path: match json_get_str(args, "path"@) {
                    Some(p) => p,
                    None => "."@,
                },
            },
        )
    } else if name == "web_search"@ {
        Some(
            match json_get_str(args, "query"@) {
                Some(q) => ToolCall::WebSearch {
                    query: q,
                    max_results: u64_or(args, "max_results"@, DEFAULT_MAX_RESULTS),
                    provider,
                },
                None => missing_argument("query"@),
            },
        )
    } else if name == "web_fetch"@ {
        Some(
            match json_get_str(args, "url"@) {
                Some(u) => ToolCall::WebFetch {
                    url: u,
                    max_length: u64_or(args, "max_length"@, MAX_FETCH_CHARS),
                },
                None => missing_argument("url"@),
            },
        )
    } else if name == "execute_command"@ {
        Some(
            match nonempty_command(args) {
                Some(c) => ToolCall::ExecuteCommand { command: c },
                None => missing_argument("command"@),
            },
        )
    } else {
        None
    }
}

/// What `dispatch_native_tool` returns for `text`.
pub open spec fn dispatch_spec(text: Seq<char>, provider: Option<Seq<char>>) -> Option<ToolCall> {
    let t = trim(text);
    let call = if named_call_spec(t) is Some {
        named_call_spec(t)
    } else {
        bare_args_spec(t)
    };
    match call {
        Some((name, args)) => tool_action(name, args, provider),
        None => None,
    }
}

/// The reply for a missing required argument.
fn missing(arg: &str) -> (r: NativeToolCall)
    ensures
        r@ == missing_argument(arg@),
{
    let mut message = chars_of("Error: '");
    crate::text::append_str(&mut message, arg);
    crate::text::append_str(&mut message, "' argument is required");
    NativeToolCall::Reply { message: string_from(&message) }
}

/// The unsigned integer value of member `key`, or `default`.
fn u64_member(args: &JsonValue, key: &str, default: u64) -> (r: u64)
    ensures
        r == u64_or(args@, key@, default),
{
    match args.get(key) {
        Some(v) => match v.as_u64() {
            Some(n) => n,
            None => default,
        },
        None => default,
    }
}

/// Is `name` the same text as `lit`?
fn name_is(name: &Vec<char>, lit: &str) -> (r: bool)
    ensures
        r == (name@ == lit@),
{
    let l = chars_of(lit);
    slices_equal(name, &l)
}

/// The action for tool `name` with `args`.
fn action_for(name: &String, args: &JsonValue, provider: Option<&str>) -> (r: Option<NativeToolCall>)
    ensures
        match r {
            Some(c) => tool_action(name@, args@, opt_ref_view(provider)) == Some(c@),
            None => tool_action(name@, args@, opt_ref_view(provider)) is None,
        },
{
    let n = chars_of(name.as_str());
    if name_is(&n, "read_file") {
        Some(
            match args.get_str("path") {
                Some(p) => NativeToolCall::ReadFile { path: p },
                None => missing("path"),
            },
        )
    } else if name_is(&n, "write_file") {
        Some(
            match args.get_str("path") {
                Some(p) => match args.get_str("content") {
                    Some(c) => NativeToolCall::WriteFile { path: p, content: c },
                    None => missing("content"),
                },
                None => missing("path"),
            },
        )
    } else if name_is(&n, "execute_python") {
        Some(
            match args.get_str("code") {
                Some(c) => NativeToolCall::ExecutePython { code: c },
                None => missing("code"),
            },
        )
    } else if name_is(&n, "list_directory") {
        Some(
            NativeToolCall::ListDirectory {
                path: match args.get_str("path") {
                    Some(p) => p,
                    None => ".".to_owned(),
                },
            },
        )
    } else if name_is(&n, "web_search") {
        Some(
            match args.get_str("query") {
                Some(q) => NativeToolCall::WebSearch {
                    query: q,
                    max_results: u64_member(args, "max_results", DEFAULT_MAX_RESULTS),
                    provider: match provider {
                        Some(p) => Some(p.to_owned()),
                        None => None,
                    },
                },
                None => missing("query"),
            },
        )
    } else if name_is(&n, "web_fetch") {
        Some(
            match args.get_str("url") {
                Some(u) => NativeToolCall::WebFetch {
                    url: u,
                    max_length: u64_member(args, "max_length", MAX_FETCH_CHARS),
                },
                None => missing("url"),
            },
        )
    } else if name_is(&n, "execute_command") {
        Some(
            match command_of(args) {
                Some(c) => NativeToolCall::ExecuteCommand { command: c },
                None => missing("command"),
            },
        )
    } else {
        None
    }
}

/// The view of an optional string slice.
pub open spec fn opt_ref_view(s: Option<&str>) -> Option<Seq<char>> {
    match s {
        Some(x) => Some(x@),
        None => None,
    }
}

/// Recognise a tool call in `text` and decide what to run: the tool with its
/// checked arguments, or the error reply for a missing argument. `None` when
/// no call is recognised or the tool is unknown, so that the caller falls
/// back to the shell.
pub fn dispatch_native_tool(text: &str, web_search_provider: Option<&str>) -> (r: Option<NativeToolCall>)
    ensures
        match r {
            Some(c) => dispatch_spec(text@, opt_ref_view(web_search_provider)) == Some(c@),
            None => dispatch_spec(text@, opt_ref_view(web_search_provider)) is None,
        },
{
    let chars = chars_of(text);
    let trimmed = trim_exec(&chars);
    let (name, args) = if let Some((n, a)) = parse_named_call(&trimmed) {
        (n, a)
    } else if let Some((n, a)) = try_infer_tool_from_bare_args(&trimmed) {
        (n, a)
    } else {
        return None;
    };
    action_for(&name, &args, web_search_provider)
}

/// A bare argument object (no `name`, `command` or `code` member) that has
/// both a `path` and a `content` member is a call of `write_file` with that
/// object, whatever else it holds.
pub proof fn lemma_bare_path_and_content_is_write(t: Seq<char>, p: Json)
    requires
        fixup_parse(t) == Some(p),
        p is Object,
        json_get(p, "name"@) is None,
        json_get(p, "command"@) is None,
        json_get(p, "code"@) is None,
        json_get(p, "path"@) is Some,
        json_get(p, "content"@) is Some,
    ensures
        bare_args_spec(t) == Some(("write_file"@, p)),
{
}

/// A bare argument object (no `name`, `command` or `code` member) that has a
/// `path` member but no `content`, `query` or `url` member is a call of
/// `read_file` with that object.
pub proof fn lemma_bare_path_alone_is_read(t: Seq<char>, p: Json)
    requires
        fixup_parse(t) == Some(p),
        p is Object,
        json_get(p, "name"@) is None,
        json_get(p, "command"@) is None,
        json_get(p, "code"@) is None,
        json_get(p, "content"@) is None,
        json_get(p, "query"@) is None,
        json_get(p, "url"@) is None,
        json_get(p, "path"@) is Some,
    ensures
        bare_args_spec(t) == Some(("read_file"@, p)),
{
}

/// Text that no named format recognises, and that is a bare argument object
/// (no `name`, `command` or `code` member) with string members `path` and
/// `content`, is dispatched as a write of that content to that path, never as
/// a read.
pub proof fn lemma_bare_write_dispatches_write(
    text: Seq<char>,
    provider: Option<Seq<char>>,
    p: Json,
    path: Seq<char>,
    content: Seq<char>,
)
    requires
        named_call_spec(trim(text)) is None,
        fixup_parse(trim(text)) == Some(p),
        p is Object,
        json_get(p, "name"@) is None,
        json_get(p, "command"@) is None,
        json_get(p, "code"@) is None,
        json_get_str(p, "path"@) == Some(path),
        json_get_str(p, "content"@) == Some(content),
    ensures
        dispatch_spec(text, provider) == Some(ToolCall::WriteFile { path, content }),
        !(dispatch_spec(text, provider) matches Some(ToolCall::ReadFile { .. })),
{
    reveal_strlit("write_file");
    reveal_strlit("read_file");
    assert(json_get(p, "path"@) is Some);
    assert(json_get(p, "content"@) is Some);
    lemma_bare_path_and_content_is_write(trim(text), p);
    assert("write_file"@[0] != "read_file"@[0]);
    assert("write_file"@ != "read_file"@);
    assert(tool_action("write_file"@, p, provider) == Some(ToolCall::WriteFile { path, content }));
}

} // verus!
