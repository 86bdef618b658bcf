//! The subscription CLI provider: which model a request names, and how the JSON
//! events it prints become token events. The caller runs the CLI and parses
//! each line; the decisions are here.

use vstd::prelude::*;
use vstd::utf8::{encode_utf8, is_char_boundary};
use crate::json::{json_as_u64, json_get, json_get_str, json_serialize, json_to_string, Json, JsonValue};
use crate::providers::stream::{copy_opt, make_text_token, ostr, text_token, TokenEvent, TokenView};
use crate::text::{append_str, byte_len, byte_prefix, chars_of, prefix_bytes, slices_equal, string_from};

verus! {

/// The model for a requested one: `opus` and `haiku` as asked,
/// anything else `sonnet`.
pub open spec fn claude_model_spec(model: Option<Seq<char>>) -> Seq<char> {
    if model == Some("opus"@) {
        "opus"@
    } else if model == Some("haiku"@) {
        "haiku"@
    } else {
        "sonnet"@
    }
}

/// Normalize a requested model name.
pub fn normalize_model(model: Option<&str>) -> (r: &'static str)
    ensures
        r@ == claude_model_spec(
            match model {
                Some(m) => Some(m@),
                None => None,
            },
        ),
{
    match model {
        Some(m) => {
            let cs = chars_of(m);
            if slices_equal(&cs, &chars_of("opus")) {
                "opus"
            } else if slices_equal(&cs, &chars_of("haiku")) {
                "haiku"
            } else {
                "sonnet"
            }
        },
        None => "sonnet",
    }
}

/// A block of a message.
pub enum ContentBlock {
    Text { text: String },
    ToolUse { id: String, name: String, input: JsonValue },
    ToolResult { tool_use_id: String, content: JsonValue },
    Other,
}

/// An event printed by the CLI.
pub enum ClaudeEvent {
    System { subtype: String, session_id: Option<String>, model: Option<String> },
    Assistant { content: Vec<ContentBlock>, session_id: Option<String> },
    Result {
        subtype: String,
        stop_reason: Option<String>,
        duration_ms: Option<u64>,
        session_id: Option<String>,
        usage: JsonValue,
    },
    User { content: Vec<ContentBlock> },
    RateLimit,
    Unknown,
}

/// The text shown for a tool the CLI used.
pub open spec fn tool_use_display(name: Seq<char>, args: Seq<char>) -> Seq<char> {
    "\n<tool_call>{\"name\": \""@ + name + "\", \"arguments\": "@ + args + "}</tool_call>\n"@
}

/// The texts of the `text` items of a tool result's content, in order.
pub open spec fn text_items(items: Seq<Json>) -> Seq<Seq<char>>
    decreases items.len(),
{
    if items.len() == 0 {
        Seq::empty()
    } else {
        let prev = text_items(items.drop_last());
        let v = items.last();
        if json_get_str(v, "type"@) == Some("text"@) && json_get_str(v, "text"@) is Some {
            prev.push(json_get_str(v, "text"@)->0)
        } else {
            prev
        }
    }
}

/// Texts joined by newlines.
pub open spec fn join_lines(parts: Seq<Seq<char>>) -> Seq<char>
    decreases parts.len(),
{
    if parts.len() == 0 {
        Seq::empty()
    } else if parts.len() == 1 {
        parts[0]
    } else {
        join_lines(parts.drop_last()) + seq!['\n'] + parts.last()
    }
}

/// The text of a tool result: a string as it is, the text items of an array
/// one per line, anything else as JSON text.
pub open spec fn tool_result_text(content: Json) -> Seq<char> {
    match content {
        Json::Str(s) => s,
        Json::Array(items) => join_lines(text_items(items)),
        _ => json_serialize(content),
    }
}

/// The longest tool result shown, in bytes.
pub const MAX_TOOL_RESULT_LEN: usize = 500;

/// The tool result text shown: cut to its first 500 bytes, with `...`
/// appended, where it is longer.
pub open spec fn shown_result(t: Seq<char>) -> Seq<char> {
    if encode_utf8(t).len() > MAX_TOOL_RESULT_LEN {
        byte_prefix(t, MAX_TOOL_RESULT_LEN as nat) + "..."@
    } else {
        t
    }
}

/// A tool result's text can be cut where it is shown: it is short enough,
/// or its 500th byte ends a character.
pub open spec fn result_cuttable(content: Json) -> bool {
    let t = tool_result_text(content);
    encode_utf8(t).len() <= MAX_TOOL_RESULT_LEN || is_char_boundary(
        encode_utf8(t),
        MAX_TOOL_RESULT_LEN as int,
    )
}

/// The token for one block of an assistant message.
pub open spec fn assistant_block_tokens(b: ContentBlock, model: Option<Seq<char>>) -> Seq<TokenView> {
    match b {
        ContentBlock::Text { text } => seq![text_token(text@, model)],
        ContentBlock::ToolUse { name, input, .. } => seq![
            text_token(tool_use_display(name@, json_serialize(input@)), model),
        ],
        _ => Seq::empty(),
    }
}

/// The token for one block of a user message: a non-empty tool result.
pub open spec fn user_block_tokens(b: ContentBlock, model: Option<Seq<char>>) -> Seq<TokenView> {
    match b {
        ContentBlock::ToolResult { content, .. } => {
            let t = tool_result_text(content@);
            if t.len() > 0 {
                seq![
                    text_token(
                        "\n<tool_response>\n"@ + shown_result(t) + "\n</tool_response>\n"@,
                        model,
                    ),
                ]
            } else {
                Seq::empty()
            }
        },
        _ => Seq::empty(),
    }
}

/// The tokens for the blocks of a message, in order.
pub open spec fn blocks_tokens(blocks: Seq<ContentBlock>, model: Option<Seq<char>>, assistant: bool) -> Seq<TokenView>
    decreases blocks.len(),
{
    if blocks.len() == 0 {
        Seq::empty()
    } else {
        blocks_tokens(blocks.drop_last(), model, assistant) + if assistant {
            assistant_block_tokens(blocks.last(), model)
        } else {
            user_block_tokens(blocks.last(), model)
        }
    }
}

/// A usage count, 0 where it is missing or not an unsigned integer.
pub open spec fn usage_count(usage: Json, key: Seq<char>) -> int {
    match json_get(usage, key) {
        Some(v) => match json_as_u64(v) {
            Some(n) => n as int,
            None => 0,
        },
        None => 0,
    }
}

/// The input tokens of a result: fresh, cache-creating and cache-read ones.
pub open spec fn result_input_tokens(usage: Json) -> int {
    usage_count(usage, "input_tokens"@) + usage_count(usage, "cache_creation_input_tokens"@)
        + usage_count(usage, "cache_read_input_tokens"@)
}

/// What an event needs to be taken: its counts add up within 64 bits, and
/// each tool result can be cut where it is shown.
pub open spec fn claude_event_ok(ev: ClaudeEvent) -> bool {
    match ev {
        ClaudeEvent::Result { usage, .. } => result_input_tokens(usage@) <= u64::MAX,
        ClaudeEvent::User { content } => forall|i: int|
            0 <= i < content.len() ==> (#[trigger] content@[i] matches ContentBlock::ToolResult {
                content: c,
                ..
            } ==> result_cuttable(c@)),
        _ => true,
    }
}

/// What an event does: the model now known, and the tokens it produces.
pub open spec fn claude_step_spec(model: Option<Seq<char>>, ev: ClaudeEvent) -> (Option<Seq<char>>, Seq<TokenView>) {
    match ev {
        ClaudeEvent::System { model: m, .. } => (ostr(m), Seq::empty()),
        ClaudeEvent::Assistant { content, .. } => (model, blocks_tokens(content@, model, true)),
        ClaudeEvent::User { content } => (model, blocks_tokens(content@, model, false)),
        ClaudeEvent::Result { stop_reason, duration_ms, session_id, usage, .. } => (
            model,
            seq![
                TokenView {
                    token: Seq::empty(),
                    is_done: true,
                    session_id: ostr(session_id),
                    stop_reason: ostr(stop_reason),
                    duration_ms,
                    model_id: model,
                    input_tokens: Some(result_input_tokens(usage@) as u64),
                    output_tokens: Some(usage_count(usage@, "output_tokens"@) as u64),
                },
            ],
        ),
        _ => (model, Seq::empty()),
    }
}

/// The text items of a tool result's array, joined by newlines.
fn join_text_items(items: &Vec<JsonValue>) -> (r: String)
    ensures
        r@ == join_lines(text_items(Seq::new(items.len() as nat, |i: int| items@[i]@))),
{
    let ghost js = Seq::new(items.len() as nat, |i: int| items@[i]@);
    let mut out: Vec<char> = Vec::new();
    let mut count: usize = 0;
    let mut i: usize = 0;
    while i < items.len()
        invariant
            i <= items.len(),
            js == Seq::new(items.len() as nat, |k: int| items@[k]@),
            count == text_items(js.take(i as int)).len(),
            count <= i,
            out@ == join_lines(text_items(js.take(i as int))),
        decreases items.len() - i,
    {
        let ghost prev = text_items(js.take(i as int));
        proof {
            assert(js.take(i + 1).drop_last() =~= js.take(i as int));
            assert(js.take(i + 1).last() == items@[i as int]@);
        }
        let item = &items[i];
        let is_text = match item.get_str("type") {
            Some(t) => slices_equal(&chars_of(t.as_str()), &chars_of("text")),
            None => false,
        };
        if is_text {
            match item.get_str("text") {
                Some(t) => {
                    if count > 0 {
                        out.push('\n');
                    }
                    append_str(&mut out, t.as_str());
                    count += 1;
                    proof {
                        let now = prev.push(t@);
                        assert(now.drop_last() =~= prev);
                        assert(out@ =~= join_lines(now));
                    }
                },
                None => {},
            }
        }
        i += 1;
    }
    proof {
        assert(js.take(i as int) =~= js);
    }
    string_from(&out)
}

/// The text of a tool result.
fn result_text(content: &JsonValue) -> (r: String)
    ensures
        r@ == tool_result_text(content@),
{
    match content {
        JsonValue::Str(s) => s.clone(),
        JsonValue::Array(items) => {
            proof {
                crate::json::lemma_array_view(*content);
                assert(crate::json::array_items(content@) =~= Seq::new(items.len() as nat, |i: int| items@[i]@));
            }
            join_text_items(items)
        },
        _ => json_to_string(content),
    }
}

/// The tokens for the blocks of a message.
fn block_tokens(blocks: &Vec<ContentBlock>, model: &Option<String>, assistant: bool, out: &mut Vec<TokenEvent>)
    requires
        !assistant ==> forall|i: int|
            0 <= i < blocks.len() ==> (#[trigger] blocks@[i] matches ContentBlock::ToolResult {
                content: c,
                ..
            } ==> result_cuttable(c@)),
    ensures
        crate::providers::stream::events_view(final(out)@) == crate::providers::stream::events_view(
            old(out)@,
        ) + blocks_tokens(blocks@, ostr(*model), assistant),
{
    let mut i: usize = 0;
    while i < blocks.len()
        invariant
            i <= blocks.len(),
            !assistant ==> forall|k: int|
                0 <= k < blocks.len() ==> (#[trigger] blocks@[k] matches ContentBlock::ToolResult {
                    content: c,
                    ..
                } ==> result_cuttable(c@)),
            crate::providers::stream::events_view(out@) == crate::providers::stream::events_view(
                old(out)@,
            ) + blocks_tokens(blocks@.take(i as int), ostr(*model), assistant),
        decreases blocks.len() - i,
    {
        proof {
            assert(blocks@.take(i + 1).drop_last() =~= blocks@.take(i as int));
        }
        let ghost before = crate::providers::stream::events_view(out@);
        let b = &blocks[i];
        if assistant {
            match b {
                ContentBlock::Text { text } => {
                    out.push(make_text_token(text.clone(), model));
                },
                ContentBlock::ToolUse { name, input, .. } => {
                    let args = json_to_string(input);
                    let mut v = chars_of("\n<tool_call>{\"name\": \"");
                    append_str(&mut v, name.as_str());
                    append_str(&mut v, "\", \"arguments\": ");
                    append_str(&mut v, args.as_str());
                    append_str(&mut v, "}</tool_call>\n");
                    assert(v@ =~= tool_use_display(name@, json_serialize(input@)));
                    out.push(make_text_token(string_from(&v), model));
                },
                _ => {},
            }
        } else {
            match b {
                ContentBlock::ToolResult { content, .. } => {
                    assert(result_cuttable(content@));
                    let t = result_text(content);
                    if !t.as_str().is_empty() {
                        let mut v = chars_of("\n<tool_response>\n");
                        if byte_len(t.as_str()) > MAX_TOOL_RESULT_LEN {
                            append_str(&mut v, prefix_bytes(t.as_str(), MAX_TOOL_RESULT_LEN).as_str());
                            append_str(&mut v, "...");
                        } else {
                            append_str(&mut v, t.as_str());
                        }
                        append_str(&mut v, "\n</tool_response>\n");
                        assert(v@ =~= "\n<tool_response>\n"@ + shown_result(t@) + "\n</tool_response>\n"@);
                        out.push(make_text_token(string_from(&v), model));
                    }
                },
                _ => {},
            }
        }
        proof {
            let toks = if assistant {
                assistant_block_tokens(blocks@[i as int], ostr(*model))
            } else {
                user_block_tokens(blocks@[i as int], ostr(*model))
            };
            assert(crate::providers::stream::events_view(out@) =~= before + toks);
            assert(blocks@.take(i + 1).last() == blocks@[i as int]);
            assert(crate::providers::stream::events_view(out@) =~= crate::providers::stream::events_view(
                old(out)@,
            ) + blocks_tokens(blocks@.take(i + 1), ostr(*model), assistant));
        }
        i += 1;
    }
    proof {
        assert(blocks@.take(i as int) =~= blocks@);
    }
}

/// A usage count of a result.
fn usage_count_of(usage: &JsonValue, key: &str) -> (r: u64)
    ensures
        r as int == usage_count(usage@, key@),
{
    match usage.get(key) {
        Some(v) => match v.as_u64() {
            Some(n) => n,
            None => 0,
        },
        None => 0,
    }
}

/// Take one event of the CLI's output: update the model known (`model`)
/// and append to `out` the tokens it produces.
pub fn claude_step(model: &mut Option<String>, ev: &ClaudeEvent, out: &mut Vec<TokenEvent>)
    requires
        claude_event_ok(*ev),
    ensures
        ostr(*final(model)) == claude_step_spec(ostr(*old(model)), *ev).0,
        crate::providers::stream::events_view(final(out)@) == crate::providers::stream::events_view(
            old(out)@,
        ) + claude_step_spec(ostr(*old(model)), *ev).1,
{
    match ev {
        ClaudeEvent::System { model: m, .. } => {
            *model = copy_opt(m);
            assert(crate::providers::stream::events_view(out@) =~= crate::providers::stream::events_view(
                old(out)@,
            ) + Seq::<TokenView>::empty());
        },
        ClaudeEvent::Assistant { content, .. } => {
            block_tokens(content, model, true, out);
        },
        ClaudeEvent::User { content } => {
            block_tokens(content, model, false, out);
        },
        ClaudeEvent::Result { stop_reason, duration_ms, session_id, usage, .. } => {
            let input = usage_count_of(usage, "input_tokens") + usage_count_of(
                usage,
                "cache_creation_input_tokens",
            ) + usage_count_of(usage, "cache_read_input_tokens");
            let output = usage_count_of(usage, "output_tokens");
            out.push(
                TokenEvent {
                    token: String::new(),
                    is_done: true,
                    session_id: copy_opt(session_id),
                    stop_reason: copy_opt(stop_reason),
                    duration_ms: *duration_ms,
                    model_id: copy_opt(model),
                    input_tokens: Some(input),
                    output_tokens: Some(output),
                },
            );
            assert(crate::providers::stream::events_view(out@) =~= crate::providers::stream::events_view(
                old(out)@,
            ) + claude_step_spec(ostr(*old(model)), *ev).1);
        },
        _ => {
            assert(crate::providers::stream::events_view(out@) =~= crate::providers::stream::events_view(
                old(out)@,
            ) + Seq::<TokenView>::empty());
        },
    }
}

/// The token sent when the CLI exits.
pub fn claude_finish(model: &Option<String>) -> (r: TokenEvent)
    ensures
        r@ == (TokenView {
            token: Seq::empty(),
            is_done: true,
            session_id: None,
            stop_reason: Some("cli_exit"@),
            duration_ms: None,
            model_id: ostr(*model),
            input_tokens: None,
            output_tokens: None,
        }),
{
    TokenEvent {
        token: String::new(),
        is_done: true,
        session_id: None,
        stop_reason: Some("cli_exit".to_string()),
        duration_ms: None,
        model_id: copy_opt(model),
        input_tokens: None,
        output_tokens: None,
    }
}

/// The arguments of the CLI for a request: print mode with streamed
/// JSON for the prompt and model, then the session to resume and the turn
/// limit where they are given.
pub open spec fn claude_args_spec(prompt: Seq<char>, model: Seq<char>, session_id: Option<Seq<char>>, max_turns: Option<u32>) -> Seq<Seq<char>> {
    let base = seq!["--print"@, prompt, "--output-format"@, "stream-json"@, "--model"@, model];
    let with_session = match session_id {
        Some(sid) => base + seq!["--resume"@, sid],
        None => base,
    };
    match max_turns {
        Some(t) => with_session + seq!["--max-turns"@, crate::text::decimal(t as nat)],
        None => with_session,
    }
}

/// The arguments of the CLI for a request, with the model already
/// normalized (see `normalize_model`).
pub fn claude_args(prompt: &str, model: &str, session_id: Option<&str>, max_turns: Option<u32>) -> (r: Vec<String>)
    ensures
        crate::providers::codex::strings_view(r@) == claude_args_spec(
            prompt@,
            model@,
            match session_id {
                Some(s) => Some(s@),
                None => None,
            },
            max_turns,
        ),
{
    let mut a: Vec<String> = Vec::new();
    a.push("--print".to_string());
    a.push(prompt.to_string());
    a.push("--output-format".to_string());
    a.push("stream-json".to_string());
    a.push("--model".to_string());
    a.push(model.to_string());
    match session_id {
        Some(sid) => {
            a.push("--resume".to_string());
            a.push(sid.to_string());
        },
        None => {},
    }
    match max_turns {
        Some(t) => {
            a.push("--max-turns".to_string());
            let text = crate::text::u64_text(t as u64);
            a.push(text);
        },
        None => {},
    }
    assert(crate::providers::codex::strings_view(a@) =~= claude_args_spec(
        prompt@,
        model@,
        match session_id {
            Some(s) => Some(s@),
            None => None,
        },
        max_turns,
    ));
    a
}

} // verus!
