//! The streamed reply of an OpenAI-compatible provider: server-sent event
//! lines carrying chat completion chunks, turned into token events. The
//! caller reads the lines and parses each chunk; the decisions are here.

use vstd::prelude::*;
use crate::providers::stream::{
    copy_opt, events_view, make_text_token, ostr, text_token, tool_call_display,
    tool_call_display_spec, TokenEvent, TokenView,
};
use crate::json::{lemma_object_of, members_view, Json, JsonValue};
use crate::text::{append_str, chars_of, slice_of, slices_equal, starts_with, starts_with_exec, string_from};

verus! {

/// The function part of a streamed tool call.
pub struct FunctionDelta {
    pub name: Option<String>,
    pub arguments: Option<String>,
}

/// A streamed piece of a tool call.
pub struct ToolCallDelta {
    pub index: Option<u32>,
    pub function: Option<FunctionDelta>,
}

/// What a chunk adds to the reply.
pub struct Delta {
    pub content: Option<String>,
    pub tool_calls: Option<Vec<ToolCallDelta>>,
}

/// One choice of a chunk.
pub struct ChunkChoice {
    pub delta: Option<Delta>,
    pub finish_reason: Option<String>,
}

/// Token usage, as the last chunk usually reports it.
pub struct UsageInfo {
    pub prompt_tokens: Option<u64>,
    pub completion_tokens: Option<u64>,
}

/// A chat completion chunk.
pub struct ChatCompletionChunk {
    pub choices: Vec<ChunkChoice>,
    pub model: Option<String>,
    pub usage: Option<UsageInfo>,
}

/// What a line of the stream is.
pub enum SseLine {
    /// Not a `data: ` line: ignored.
    Skip,
    /// `data: [DONE]`: the end of the stream.
    Done,
    /// The data of a chunk, to be parsed.
    Data(String),
}

/// The prefix of a data line.
pub open spec fn data_prefix() -> Seq<char> {
    seq!['d', 'a', 't', 'a', ':', ' ']
}

/// Classify a line of the stream.
pub fn classify_sse_line(line: &str) -> (r: SseLine)
    ensures
        !starts_with(line@, data_prefix()) ==> r is Skip,
        starts_with(line@, data_prefix()) && line@.skip(6) == "[DONE]"@ ==> r is Done,
        starts_with(line@, data_prefix()) && line@.skip(6) != "[DONE]"@ ==> (r matches SseLine::Data(
            d,
        ) && d@ == line@.skip(6)),
{
    let l = chars_of(line);
    let prefix = chars_of("data: ");
    assert(prefix@ == data_prefix()) by {
        reveal_strlit("data: ");
    }
    if !starts_with_exec(&l, &prefix) {
        return SseLine::Skip;
    }
    let n = l.len();
    let data = slice_of(&l, 6, n);
    assert(data@ == line@.skip(6));
    if slices_equal(&data, &chars_of("[DONE]")) {
        SseLine::Done
    } else {
        SseLine::Data(string_from(&data))
    }
}

/// What the stream has told so far.
pub struct StreamState {
    pub actual_model: Option<String>,
    pub input_tokens: Option<u64>,
    pub output_tokens: Option<u64>,
    pub finish_reason: Option<String>,
    pub tool_name: String,
    pub tool_args: String,
    pub in_tool_call: bool,
}

/// The stream state as values.
pub struct StreamView {
    pub actual_model: Option<Seq<char>>,
    pub input_tokens: Option<u64>,
    pub output_tokens: Option<u64>,
    pub finish_reason: Option<Seq<char>>,
    pub tool_name: Seq<char>,
    pub tool_args: Seq<char>,
    pub in_tool_call: bool,
}

impl View for StreamState {
    type V = StreamView;

    open spec fn view(&self) -> StreamView {
        StreamView {
            actual_model: ostr(self.actual_model),
            input_tokens: self.input_tokens,
            output_tokens: self.output_tokens,
            finish_reason: ostr(self.finish_reason),
            tool_name: self.tool_name@,
            tool_args: self.tool_args@,
            in_tool_call: self.in_tool_call,
        }
    }
}

/// The state before the first line.
pub fn new_stream_state() -> (r: StreamState)
    ensures
        r@ == (StreamView {
            actual_model: None,
            input_tokens: None,
            output_tokens: None,
            finish_reason: None,
            tool_name: Seq::empty(),
            tool_args: Seq::empty(),
            in_tool_call: false,
        }),
{
    StreamState {
        actual_model: None,
        input_tokens: None,
        output_tokens: None,
        finish_reason: None,
        tool_name: String::new(),
        tool_args: String::new(),
        in_tool_call: false,
    }
}

/// One piece of a tool call: a name starts a new call (showing the one
/// before it, if any), arguments are added to the current call.
pub open spec fn tool_call_step(s: StreamView, tc: ToolCallDelta) -> (StreamView, Seq<TokenView>) {
    match tc.function {
        None => (s, Seq::empty()),
        Some(f) => {
            let (s1, out) = match f.name {
                Some(n) => (
                    StreamView { tool_name: n@, tool_args: Seq::empty(), in_tool_call: true, ..s },
                    if s.in_tool_call {
                        seq![text_token(tool_call_display_spec(s.tool_name, s.tool_args), s.actual_model)]
                    } else {
                        Seq::empty()
                    },
                ),
                None => (s, Seq::empty()),
            };
            match f.arguments {
                Some(a) => (StreamView { tool_args: s1.tool_args + a@, ..s1 }, out),
                None => (s1, out),
            }
        },
    }
}

/// The pieces of tool calls of a delta, in order.
pub open spec fn tool_calls_step(s: StreamView, tcs: Seq<ToolCallDelta>) -> (StreamView, Seq<TokenView>)
    decreases tcs.len(),
{
    if tcs.len() == 0 {
        (s, Seq::empty())
    } else {
        let (s1, o1) = tool_calls_step(s, tcs.drop_last());
        let (s2, o2) = tool_call_step(s1, tcs.last());
        (s2, o1 + o2)
    }
}

/// One choice: its finish reason is kept, its non-empty content is a token,
/// and its tool call pieces are taken in turn.
pub open spec fn choice_step(s: StreamView, c: ChunkChoice) -> (StreamView, Seq<TokenView>) {
    let s1 = match c.finish_reason {
        Some(r) => StreamView { finish_reason: Some(r@), ..s },
        None => s,
    };
    match c.delta {
        None => (s1, Seq::empty()),
        Some(d) => {
            let o1 = match d.content {
                Some(t) => if t@.len() > 0 {
                    seq![text_token(t@, s1.actual_model)]
                } else {
                    Seq::empty()
                },
                None => Seq::empty(),
            };
            match d.tool_calls {
                Some(tcs) => {
                    let (s2, o2) = tool_calls_step(s1, tcs@);
                    (s2, o1 + o2)
                },
                None => (s1, o1),
            }
        },
    }
}

/// The choices of a chunk, in order.
pub open spec fn choices_step(s: StreamView, cs: Seq<ChunkChoice>) -> (StreamView, Seq<TokenView>)
    decreases cs.len(),
{
    if cs.len() == 0 {
        (s, Seq::empty())
    } else {
        let (s1, o1) = choices_step(s, cs.drop_last());
        let (s2, o2) = choice_step(s1, cs.last());
        (s2, o1 + o2)
    }
}

/// One chunk: the first model named is kept, reported usage replaces what
/// was known, then the choices are taken in turn.
pub open spec fn chunk_step(s: StreamView, ch: ChatCompletionChunk) -> (StreamView, Seq<TokenView>) {
    let s1 = if s.actual_model is None && ch.model is Some {
        StreamView { actual_model: ostr(ch.model), ..s }
    } else {
        s
    };
    let s2 = match ch.usage {
        Some(u) => StreamView {
            input_tokens: if u.prompt_tokens is Some {
                u.prompt_tokens
            } else {
                s1.input_tokens
            },
            output_tokens: if u.completion_tokens is Some {
                u.completion_tokens
            } else {
                s1.output_tokens
            },
            ..s1
        },
        None => s1,
    };
    choices_step(s2, ch.choices@)
}

/// Take one piece of a tool call.
fn apply_tool_call(state: &mut StreamState, tc: &ToolCallDelta, out: &mut Vec<TokenEvent>)
    ensures
        final(state)@ == tool_call_step(old(state)@, *tc).0,
        events_view(final(out)@) == events_view(old(out)@) + tool_call_step(old(state)@, *tc).1,
{
    match &tc.function {
        None => {
            assert(events_view(out@) =~= events_view(old(out)@) + Seq::<TokenView>::empty());
        },
        Some(f) => {
            match &f.name {
                Some(n) => {
                    if state.in_tool_call {
                        let display = tool_call_display(state.tool_name.as_str(), state.tool_args.as_str());
                        let t = make_text_token(display, &state.actual_model);
                        out.push(t);
                    }
                    state.tool_name = n.clone();
                    state.tool_args = String::new();
                    state.in_tool_call = true;
                },
                None => {},
            }
            match &f.arguments {
                Some(a) => {
                    let mut v = chars_of(state.tool_args.as_str());
                    append_str(&mut v, a.as_str());
                    state.tool_args = string_from(&v);
                },
                None => {},
            }
            assert(events_view(out@) =~= events_view(old(out)@) + tool_call_step(old(state)@, *tc).1);
        },
    }
}

/// Take the pieces of tool calls of a delta.
fn apply_tool_calls(state: &mut StreamState, tcs: &Vec<ToolCallDelta>, out: &mut Vec<TokenEvent>)
    ensures
        final(state)@ == tool_calls_step(old(state)@, tcs@).0,
        events_view(final(out)@) == events_view(old(out)@) + tool_calls_step(old(state)@, tcs@).1,
{
    let mut i: usize = 0;
    while i < tcs.len()
        invariant
            i <= tcs.len(),
            state@ == tool_calls_step(old(state)@, tcs@.take(i as int)).0,
            events_view(out@) == events_view(old(out)@) + tool_calls_step(
                old(state)@,
                tcs@.take(i as int),
            ).1,
        decreases tcs.len() - i,
    {
        let ghost before = events_view(out@);
        apply_tool_call(state, &tcs[i], out);
        proof {
            assert(tcs@.take(i + 1).drop_last() =~= tcs@.take(i as int));
            assert(events_view(out@) =~= events_view(old(out)@) + tool_calls_step(
                old(state)@,
                tcs@.take(i + 1),
            ).1);
        }
        i += 1;
    }
    proof {
        assert(tcs@.take(i as int) =~= tcs@);
    }
}

/// Take one choice.
fn apply_choice(state: &mut StreamState, c: &ChunkChoice, out: &mut Vec<TokenEvent>)
    ensures
        final(state)@ == choice_step(old(state)@, *c).0,
        events_view(final(out)@) == events_view(old(out)@) + choice_step(old(state)@, *c).1,
{
    match &c.finish_reason {
        Some(r) => {
            state.finish_reason = Some(r.clone());
        },
        None => {},
    }
    let ghost s1 = state@;
    match &c.delta {
        None => {
            assert(events_view(out@) =~= events_view(old(out)@) + Seq::<TokenView>::empty());
        },
        Some(d) => {
            match &d.content {
                Some(t) => if !t.as_str().is_empty() {
                    let tok = make_text_token(t.clone(), &state.actual_model);
                    out.push(tok);
                },
                None => {},
            }
            let ghost mid = events_view(out@);
            let ghost o1 = if d.content is Some && d.content->0@.len() > 0 {
                seq![text_token(d.content->0@, s1.actual_model)]
            } else {
                Seq::<TokenView>::empty()
            };
            assert(mid =~= events_view(old(out)@) + o1);
            match &d.tool_calls {
                Some(tcs) => {
                    apply_tool_calls(state, tcs, out);
                    assert(events_view(out@) =~= events_view(old(out)@) + (o1 + tool_calls_step(
                        s1,
                        tcs@,
                    ).1));
                },
                None => {},
            }
        },
    }
}

/// Take one chunk of the stream: update the state and append to `out` the
/// tokens it produces.
pub fn apply_chunk(state: &mut StreamState, chunk: &ChatCompletionChunk, out: &mut Vec<TokenEvent>)
    ensures
        final(state)@ == chunk_step(old(state)@, *chunk).0,
        events_view(final(out)@) == events_view(old(out)@) + chunk_step(old(state)@, *chunk).1,
{
    if state.actual_model.is_none() {
        match &chunk.model {
            Some(m) => {
                state.actual_model = Some(m.clone());
            },
            None => {},
        }
    }
    match &chunk.usage {
        Some(u) => {
            match u.prompt_tokens {
                Some(pt) => {
                    state.input_tokens = Some(pt);
                },
                None => {},
            }
            match u.completion_tokens {
                Some(ct) => {
                    state.output_tokens = Some(ct);
                },
                None => {},
            }
        },
        None => {},
    }
    let ghost s2 = state@;
    let mut i: usize = 0;
    while i < chunk.choices.len()
        invariant
            i <= chunk.choices.len(),
            state@ == choices_step(s2, chunk.choices@.take(i as int)).0,
            events_view(out@) == events_view(old(out)@) + choices_step(
                s2,
                chunk.choices@.take(i as int),
            ).1,
        decreases chunk.choices.len() - i,
    {
        apply_choice(state, &chunk.choices[i], out);
        proof {
            assert(chunk.choices@.take(i + 1).drop_last() =~= chunk.choices@.take(i as int));
            assert(events_view(out@) =~= events_view(old(out)@) + choices_step(
                s2,
                chunk.choices@.take(i + 1),
            ).1);
        }
        i += 1;
    }
    proof {
        assert(chunk.choices@.take(i as int) =~= chunk.choices@);
    }
}

/// The tokens that end the stream: the last tool call, if one is open, then
/// the final event with the finish reason (`end_turn` where none was given),
/// the time taken and the usage.
pub open spec fn finish_spec(s: StreamView, duration_ms: u64) -> Seq<TokenView> {
    let flush = if s.in_tool_call {
        seq![text_token(tool_call_display_spec(s.tool_name, s.tool_args), s.actual_model)]
    } else {
        Seq::empty()
    };
    flush.push(
        TokenView {
            token: Seq::empty(),
            is_done: true,
            session_id: None,
            stop_reason: Some(
                match s.finish_reason {
                    Some(r) => r,
                    None => "end_turn"@,
                },
            ),
            duration_ms: Some(duration_ms),
            model_id: s.actual_model,
            input_tokens: s.input_tokens,
            output_tokens: s.output_tokens,
        },
    )
}

/// The tokens that end the stream.
pub fn finish_stream(state: &StreamState, duration_ms: u64) -> (r: Vec<TokenEvent>)
    ensures
        events_view(r@) == finish_spec(state@, duration_ms),
{
    let mut out: Vec<TokenEvent> = Vec::new();
    if state.in_tool_call {
        let display = tool_call_display(state.tool_name.as_str(), state.tool_args.as_str());
        out.push(make_text_token(display, &state.actual_model));
    }
    let stop = match &state.finish_reason {
        Some(r) => r.clone(),
        None => "end_turn".to_string(),
    };
    out.push(
        TokenEvent {
            token: String::new(),
            is_done: true,
            session_id: None,
            stop_reason: Some(stop),
            duration_ms: Some(duration_ms),
            model_id: copy_opt(&state.actual_model),
            input_tokens: state.input_tokens,
            output_tokens: state.output_tokens,
        },
    );
    assert(events_view(out@) =~= finish_spec(state@, duration_ms));
    out
}

/// The URL of the chat completions endpoint under a base URL (trailing
/// slashes of the base dropped).
pub open spec fn completions_url_spec(base: Seq<char>) -> Seq<char> {
    crate::providers::openai_stream::trim_slashes(base) + "/chat/completions"@
}

/// `s` without its trailing `/` characters.
pub open spec fn trim_slashes(s: Seq<char>) -> Seq<char>
    decreases s.len(),
{
    if s.len() > 0 && s.last() == '/' {
        trim_slashes(s.drop_last())
    } else {
        s
    }
}

/// The URL of the chat completions endpoint.
pub fn completions_url(base_url: &str) -> (r: String)
    ensures
        r@ == completions_url_spec(base_url@),
{
    let mut v = chars_of(base_url);
    while v.len() > 0 && v[v.len() - 1] == '/'
        invariant
            trim_slashes(v@) == trim_slashes(base_url@),
        decreases v.len(),
    {
        let n = v.len();
        let ghost before = v@;
        v.pop();
        assert(v@ == before.drop_last());
    }
    append_str(&mut v, "/chat/completions");
    string_from(&v)
}

/// The body of a streamed chat completion request for one user message.
pub open spec fn request_body_spec(model: Seq<char>, prompt: Seq<char>) -> Json {
    Json::Object(
        seq![
            ("model"@, Json::Str(model)),
            (
                "messages"@,
                Json::Array(
                    seq![
                        Json::Object(
                            seq![("role"@, Json::Str("user"@)), ("content"@, Json::Str(prompt))],
                        ),
                    ],
                ),
            ),
            ("stream"@, Json::Bool(true)),
            ("stream_options"@, Json::Object(seq![("include_usage"@, Json::Bool(true))])),
        ],
    )
}

/// The body of a streamed chat completion request.
pub fn request_body(model: &str, prompt: &str) -> (r: JsonValue)
    ensures
        r@ == request_body_spec(model@, prompt@),
{
    let mut message: Vec<(String, JsonValue)> = Vec::new();
    message.push(("role".to_string(), JsonValue::Str("user".to_string())));
    message.push(("content".to_string(), JsonValue::Str(prompt.to_string())));
    proof {
        lemma_object_of(message);
        assert(members_view(message@) =~= seq![("role"@, Json::Str("user"@)), ("content"@, Json::Str(prompt@))]);
    }
    let message = JsonValue::Object(message);
    let mut messages: Vec<JsonValue> = Vec::new();
    messages.push(message);
    let messages = JsonValue::Array(messages);
    proof {
        crate::json::lemma_array_view(messages);
        assert(crate::json::array_items(messages@) =~= seq![
            Json::Object(seq![("role"@, Json::Str("user"@)), ("content"@, Json::Str(prompt@))]),
        ]);
    }
    let mut options: Vec<(String, JsonValue)> = Vec::new();
    options.push(("include_usage".to_string(), JsonValue::Bool(true)));
    proof {
        lemma_object_of(options);
        assert(members_view(options@) =~= seq![("include_usage"@, Json::Bool(true))]);
    }
    let mut body: Vec<(String, JsonValue)> = Vec::new();
    body.push(("model".to_string(), JsonValue::Str(model.to_string())));
    body.push(("messages".to_string(), messages));
    body.push(("stream".to_string(), JsonValue::Bool(true)));
    body.push(("stream_options".to_string(), JsonValue::Object(options)));
    proof {
        lemma_object_of(body);
        assert(members_view(body@) =~= seq![
            ("model"@, Json::Str(model@)),
            (
                "messages"@,
                Json::Array(
                    seq![
                        Json::Object(
                            seq![("role"@, Json::Str("user"@)), ("content"@, Json::Str(prompt@))],
                        ),
                    ],
                ),
            ),
            ("stream"@, Json::Bool(true)),
            ("stream_options"@, Json::Object(seq![("include_usage"@, Json::Bool(true))])),
        ]);
    }
    JsonValue::Object(body)
}

/// No token of `ts` is the final event.
pub open spec fn none_final(ts: Seq<TokenView>) -> bool {
    forall|k: int| 0 <= k < ts.len() ==> !(#[trigger] ts[k]).is_done
}

proof fn lemma_none_final_concat(a: Seq<TokenView>, b: Seq<TokenView>)
    requires
        none_final(a),
        none_final(b),
    ensures
        none_final(a + b),
{
    assert forall|k: int| 0 <= k < (a + b).len() implies !(#[trigger] (a + b)[k]).is_done by {
        if k < a.len() {
            assert((a + b)[k] == a[k]);
        } else {
            assert((a + b)[k] == b[k - a.len()]);
        }
    }
}

proof fn lemma_tool_calls_not_final(s: StreamView, tcs: Seq<ToolCallDelta>)
    ensures
        none_final(tool_calls_step(s, tcs).1),
    decreases tcs.len(),
{
    if tcs.len() > 0 {
        lemma_tool_calls_not_final(s, tcs.drop_last());
        let s1 = tool_calls_step(s, tcs.drop_last()).0;
        lemma_none_final_concat(tool_calls_step(s, tcs.drop_last()).1, tool_call_step(s1, tcs.last()).1);
    }
}

proof fn lemma_choices_not_final(s: StreamView, cs: Seq<ChunkChoice>)
    ensures
        none_final(choices_step(s, cs).1),
    decreases cs.len(),
{
    if cs.len() > 0 {
        lemma_choices_not_final(s, cs.drop_last());
        let s1 = choices_step(s, cs.drop_last()).0;
        let c = cs.last();
        let s2 = match c.finish_reason {
            Some(r) => StreamView { finish_reason: Some(r@), ..s1 },
            None => s1,
        };
        match c.delta {
            Some(d) => match d.tool_calls {
                Some(tcs) => {
                    lemma_tool_calls_not_final(s2, tcs@);
                    let o1 = match d.content {
                        Some(t) => if t@.len() > 0 {
                            seq![text_token(t@, s2.actual_model)]
                        } else {
                            Seq::empty()
                        },
                        None => Seq::empty(),
                    };
                    lemma_none_final_concat(o1, tool_calls_step(s2, tcs@).1);
                },
                None => {},
            },
            None => {},
        }
        lemma_none_final_concat(choices_step(s, cs.drop_last()).1, choice_step(s1, c).1);
    }
}

/// A stream ends once: no token that a chunk produces is the final event,
/// and the tokens that end the stream finish with exactly one final event.
pub proof fn lemma_stream_ends_once(s: StreamView, ch: ChatCompletionChunk, duration_ms: u64)
    ensures
        none_final(chunk_step(s, ch).1),
        finish_spec(s, duration_ms).last().is_done,
        none_final(finish_spec(s, duration_ms).drop_last()),
{
    let s1 = if s.actual_model is None && ch.model is Some {
        StreamView { actual_model: ostr(ch.model), ..s }
    } else {
        s
    };
    let s2 = match ch.usage {
        Some(u) => StreamView {
            input_tokens: if u.prompt_tokens is Some {
                u.prompt_tokens
            } else {
                s1.input_tokens
            },
            output_tokens: if u.completion_tokens is Some {
                u.completion_tokens
            } else {
                s1.output_tokens
            },
            ..s1
        },
        None => s1,
    };
    lemma_choices_not_final(s2, ch.choices@);
    let f = finish_spec(s, duration_ms);
    assert(f.drop_last() =~= if s.in_tool_call {
        seq![text_token(tool_call_display_spec(s.tool_name, s.tool_args), s.actual_model)]
    } else {
        Seq::<TokenView>::empty()
    });
}

} // verus!
