//! The token events that a provider streams to a chat, and the helpers
//! shared by the providers that produce them.

use vstd::prelude::*;
use crate::text::{append_str, chars_of, string_from};

verus! {

/// One streamed piece of a reply: a token, or the final event with the
/// stop reason and usage. (A cost, where a provider reports one, is carried
/// beside it by the caller.)
pub struct TokenEvent {
    pub token: String,
    pub is_done: bool,
    pub session_id: Option<String>,
    pub stop_reason: Option<String>,
    pub duration_ms: Option<u64>,
    pub model_id: Option<String>,
    pub input_tokens: Option<u64>,
    pub output_tokens: Option<u64>,
}

/// A token event as values.
pub struct TokenView {
    pub token: Seq<char>,
    pub is_done: bool,
    pub session_id: Option<Seq<char>>,
    pub stop_reason: Option<Seq<char>>,
    pub duration_ms: Option<u64>,
    pub model_id: Option<Seq<char>>,
    pub input_tokens: Option<u64>,
    pub output_tokens: Option<u64>,
}

/// The text of an optional string.
pub open spec fn ostr(s: Option<String>) -> Option<Seq<char>> {
    match s {
        Some(t) => Some(t@),
        None => None,
    }
}

impl View for TokenEvent {
    type V = TokenView;

    open spec fn view(&self) -> TokenView {
        TokenView {
            token: self.token@,
            is_done: self.is_done,
            session_id: ostr(self.session_id),
            stop_reason: ostr(self.stop_reason),
            duration_ms: self.duration_ms,
            model_id: ostr(self.model_id),
            input_tokens: self.input_tokens,
            output_tokens: self.output_tokens,
        }
    }
}

/// The views of a list of events.
pub open spec fn events_view(events: Seq<TokenEvent>) -> Seq<TokenView> {
    Seq::new(events.len(), |i: int| events[i]@)
}

/// A text token.
pub open spec fn text_token(text: Seq<char>, model_id: Option<Seq<char>>) -> TokenView {
    TokenView {
        token: text,
        is_done: false,
        session_id: None,
        stop_reason: None,
        duration_ms: None,
        model_id,
        input_tokens: None,
        output_tokens: None,
    }
}

/// A copy of an optional string.
pub fn copy_opt(s: &Option<String>) -> (r: Option<String>)
    ensures
        ostr(r) == ostr(*s),
{
    match s {
        Some(t) => Some(t.clone()),
        None => None,
    }
}

/// A text token, built.
pub fn make_text_token(text: String, model_id: &Option<String>) -> (r: TokenEvent)
    ensures
        r@ == text_token(text@, ostr(*model_id)),
{
    TokenEvent {
        token: text,
        is_done: false,
        session_id: None,
        stop_reason: None,
        duration_ms: None,
        model_id: copy_opt(model_id),
        input_tokens: None,
        output_tokens: None,
    }
}

/// The text shown for a tool call: the call in `<tool_call>` tags, with
/// `{}` for empty arguments.
pub open spec fn tool_call_display_spec(name: Seq<char>, args: Seq<char>) -> Seq<char> {
    "\n<tool_call>{\"name\": \""@ + name + "\", \"arguments\": "@ + (if args.len() == 0 {
        "{}"@
    } else {
        args
    }) + "}</tool_call>\n"@
}

/// The text shown for a tool call.
pub fn tool_call_display(name: &str, args: &str) -> (r: String)
    ensures
        r@ == tool_call_display_spec(name@, args@),
{
    let mut v = chars_of("\n<tool_call>{\"name\": \"");
    append_str(&mut v, name);
    append_str(&mut v, "\", \"arguments\": ");
    if args.is_empty() {
        append_str(&mut v, "{}");
    } else {
        append_str(&mut v, args);
    }
    append_str(&mut v, "}</tool_call>\n");
    string_from(&v)
}

} // verus!
