//! The Codex CLI provider: which model a request names, and how the JSON
//! events it prints become token events. The caller runs the CLI and parses
//! each line; the decisions are here.

use vstd::prelude::*;
use crate::providers::stream::{copy_opt, make_text_token, ostr, text_token, TokenEvent, TokenView};

verus! {

/// The Codex model for a requested one: none for an empty or missing name.
pub open spec fn codex_model_spec(model: Option<Seq<char>>) -> Option<Seq<char>> {
    crate::providers::openai_compat::non_empty(model)
}

/// Normalize a requested Codex model.
pub fn normalize_model(model: Option<&str>) -> (r: Option<&str>)
    ensures
        match r {
            Some(m) => codex_model_spec(
                match model {
                    Some(x) => Some(x@),
                    None => None,
                },
            ) == Some(m@),
            None => codex_model_spec(
                match model {
                    Some(x) => Some(x@),
                    None => None,
                },
            ) is None,
        },
{
    match model {
        Some(m) => if m.is_empty() {
            None
        } else {
            Some(m)
        },
        None => None,
    }
}

/// The display name of the Codex model used for a request: the model, or
/// `gpt-5` where none is given.
pub fn display_model_name(model: Option<&str>) -> (r: String)
    ensures
        r@ == match codex_model_spec(
            match model {
                Some(m) => Some(m@),
                None => None,
            },
        ) {
            Some(m) => m,
            None => "gpt-5"@,
        },
{
    match normalize_model(model) {
        Some(m) => m.to_string(),
        None => "gpt-5".to_string(),
    }
}

/// Token usage of a finished turn.
pub struct CodexUsage {
    pub input_tokens: Option<u64>,
    pub cached_input_tokens: Option<u64>,
    pub output_tokens: Option<u64>,
}

/// An event printed by the Codex CLI.
pub enum CodexEvent {
    ThreadStarted { thread_id: String },
    ItemCompleted { item_type: String, text: Option<String> },
    TurnCompleted { usage: Option<CodexUsage> },
    Unknown,
}

/// What the event stream has told so far: the thread id, and the model
/// requested (until a finished turn reports it).
pub struct CodexState {
    pub thread_id: Option<String>,
    pub requested_model: Option<String>,
}

/// A count, 0 where it is missing.
pub open spec fn count_or_zero(n: Option<u64>) -> int {
    match n {
        Some(v) => v as int,
        None => 0,
    }
}

/// The input tokens of a finished turn: fresh and cached ones together.
pub open spec fn turn_input_tokens(usage: Option<CodexUsage>) -> int {
    match usage {
        Some(u) => count_or_zero(u.input_tokens) + count_or_zero(u.cached_input_tokens),
        None => 0,
    }
}

/// The counts of an event add up within 64 bits.
pub open spec fn codex_event_fits(ev: CodexEvent) -> bool {
    match ev {
        CodexEvent::TurnCompleted { usage } => turn_input_tokens(usage) <= u64::MAX,
        _ => true,
    }
}

/// What an event does: the new thread id and requested model, and the
/// token it produces, if any.
pub open spec fn codex_step_spec(thread_id: Option<Seq<char>>, model: Option<Seq<char>>, ev: CodexEvent) -> (Option<Seq<char>>, Option<Seq<char>>, Option<TokenView>) {
    match ev {
        CodexEvent::ThreadStarted { thread_id: tid } => (Some(tid@), model, None),
        CodexEvent::ItemCompleted { item_type, text } => {
            let t = match text {
                Some(x) => x@,
                None => Seq::empty(),
            };
            if item_type@ == "agent_message"@ && t.len() > 0 {
                (thread_id, model, Some(text_token(t, model)))
            } else {
                (thread_id, model, None)
            }
        },
        CodexEvent::TurnCompleted { usage } => (
            thread_id,
            None,
            Some(
                TokenView {
                    token: Seq::empty(),
                    is_done: true,
                    session_id: thread_id,
                    stop_reason: Some("turn_completed"@),
                    duration_ms: None,
                    model_id: model,
                    input_tokens: Some(turn_input_tokens(usage) as u64),
                    output_tokens: Some(
                        match usage {
                            Some(u) => count_or_zero(u.output_tokens) as u64,
                            None => 0,
                        },
                    ),
                },
            ),
        ),
        CodexEvent::Unknown => (thread_id, model, None),
    }
}

/// Take one event of the CLI's output.
pub fn codex_step(state: &mut CodexState, ev: &CodexEvent) -> (r: Option<TokenEvent>)
    requires
        codex_event_fits(*ev),
    ensures
        (ostr(final(state).thread_id), ostr(final(state).requested_model), match r {
            Some(t) => Some(t@),
            None => None,
        }) == codex_step_spec(ostr(old(state).thread_id), ostr(old(state).requested_model), *ev),
{
    match ev {
        CodexEvent::ThreadStarted { thread_id } => {
            state.thread_id = Some(thread_id.clone());
            None
        },
        CodexEvent::ItemCompleted { item_type, text } => {
            let t = match text {
                Some(x) => x.clone(),
                None => String::new(),
            };
            if crate::text::slices_equal(&crate::text::chars_of(item_type.as_str()), &crate::text::chars_of("agent_message"))
                && !t.as_str().is_empty() {
                Some(make_text_token(t, &state.requested_model))
            } else {
                None
            }
        },
        CodexEvent::TurnCompleted { usage } => {
            let (input, cached, output) = match usage {
                Some(u) => (
                    match u.input_tokens {
                        Some(n) => n,
                        None => 0,
                    },
                    match u.cached_input_tokens {
                        Some(n) => n,
                        None => 0,
                    },
                    match u.output_tokens {
                        Some(n) => n,
                        None => 0,
                    },
                ),
                None => (0, 0, 0),
            };
            let model = state.requested_model.take();
            Some(
                TokenEvent {
                    token: String::new(),
                    is_done: true,
                    session_id: copy_opt(&state.thread_id),
                    stop_reason: Some("turn_completed".to_string()),
                    duration_ms: None,
                    model_id: model,
                    input_tokens: Some(input + cached),
                    output_tokens: Some(output),
                },
            )
        },
        CodexEvent::Unknown => None,
    }
}

/// The token sent when the CLI exits.
pub fn codex_finish(state: &CodexState) -> (r: TokenEvent)
    ensures
        r@ == (TokenView {
            token: Seq::empty(),
            is_done: true,
            session_id: ostr(state.thread_id),
            stop_reason: Some("cli_exit"@),
            duration_ms: None,
            model_id: ostr(state.requested_model),
            input_tokens: None,
            output_tokens: None,
        }),
{
    TokenEvent {
        token: String::new(),
        is_done: true,
        session_id: copy_opt(&state.thread_id),
        stop_reason: Some("cli_exit".to_string()),
        duration_ms: None,
        model_id: copy_opt(&state.requested_model),
        input_tokens: None,
        output_tokens: None,
    }
}

/// The views of a list of strings.
pub open spec fn strings_view(v: Seq<String>) -> Seq<Seq<char>> {
    Seq::new(v.len(), |i: int| v[i]@)
}

/// The arguments of the Codex CLI for a request: resume the session where
/// one is given, else start one; then the model where one is named, the
/// working directory and the prompt.
pub open spec fn codex_args_spec(session_id: Option<Seq<char>>, model: Option<Seq<char>>, cwd: Seq<char>, prompt: Seq<char>) -> Seq<Seq<char>> {
    let head = match session_id {
        Some(sid) => seq!["exec"@, "resume"@, "--json"@, "--dangerously-bypass-approvals-and-sandbox"@, sid],
        None => seq!["exec"@, "--json"@, "--skip-git-repo-check"@, "--dangerously-bypass-approvals-and-sandbox"@],
    };
    let with_model = match codex_model_spec(model) {
        Some(m) => head + seq!["--model"@, m],
        None => head,
    };
    with_model + seq!["--cd"@, cwd, prompt]
}

/// The arguments of the Codex CLI for a request.
pub fn codex_args(session_id: Option<&str>, model: Option<&str>, cwd: &str, prompt: &str) -> (r: Vec<String>)
    ensures
        strings_view(r@) == codex_args_spec(
            match session_id {
                Some(s) => Some(s@),
                None => None,
            },
            match model {
                Some(m) => Some(m@),
                None => None,
            },
            cwd@,
            prompt@,
        ),
{
    let mut a: Vec<String> = Vec::new();
    match session_id {
        Some(sid) => {
            a.push("exec".to_string());
            a.push("resume".to_string());
            a.push("--json".to_string());
            a.push("--dangerously-bypass-approvals-and-sandbox".to_string());
            a.push(sid.to_string());
        },
        None => {
            a.push("exec".to_string());
            a.push("--json".to_string());
            a.push("--skip-git-repo-check".to_string());
            a.push("--dangerously-bypass-approvals-and-sandbox".to_string());
        },
    }
    match normalize_model(model) {
        Some(m) => {
            a.push("--model".to_string());
            a.push(m.to_string());
        },
        None => {},
    }
    a.push("--cd".to_string());
    a.push(cwd.to_string());
    a.push(prompt.to_string());
    assert(strings_view(a@) =~= codex_args_spec(
        match session_id {
            Some(s) => Some(s@),
            None => None,
        },
        match model {
            Some(m) => Some(m@),
            None => None,
        },
        cwd@,
        prompt@,
    ));
    a
}

} // verus!
