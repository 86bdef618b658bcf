//! The chat WebSocket streams: tokens from a generation are gathered and
//! sent in chunks, a watched conversation is re-sent when it changed, and
//! the messages written on both.

use vstd::prelude::*;
use vstd::utf8::encode_utf8;
use crate::json::{lemma_object_of, members_view, Json, JsonValue};
use crate::event_log::{conversation_key, conversation_key_of};
use crate::text::{append_str, byte_len, chars_of, int_text, i64_text, string_from};

verus! {

/// Pending token text of this many bytes is sent at once.
pub const TOKEN_FLUSH_MAX_BYTES: usize = 1024;

/// Pending tokens are sent at the latest this many milliseconds after the last send.
pub const TOKEN_FLUSH_INTERVAL_MS: u64 = 40;

/// A watched conversation that is still generating is re-sent at most this often.
pub const WATCH_MIN_INTERVAL_MS: u64 = 200;

/// Tokens received from a generation and not sent yet, with the latest
/// counts that came with them.
pub struct TokenBuffer {
    pub pending: String,
    pub tokens_used: Option<i32>,
    pub max_tokens: Option<i32>,
}

/// The mathematical form of a token buffer.
pub struct BufferView {
    pub pending: Seq<char>,
    pub tokens_used: Option<i32>,
    pub max_tokens: Option<i32>,
}

/// The view of a token buffer.
pub open spec fn buffer_view(b: TokenBuffer) -> BufferView {
    BufferView { pending: b.pending@, tokens_used: b.tokens_used, max_tokens: b.max_tokens }
}

/// A JSON number for an optional count, `null` where there is none.
pub open spec fn opt_count(n: Option<i32>) -> Json {
    match n {
        Some(v) => Json::Number(int_text(v as int)),
        None => Json::Null,
    }
}

/// The message that carries a chunk of tokens.
pub open spec fn token_message(token: Seq<char>, tokens_used: Option<i32>, max_tokens: Option<i32>) -> Json {
    Json::Object(
        seq![
            ("type"@, Json::Str("token"@)),
            ("token"@, Json::Str(token)),
            ("tokens_used"@, opt_count(tokens_used)),
            ("max_tokens"@, opt_count(max_tokens)),
        ],
    )
}

/// The buffer after a token arrived with the counts `used` and `max`.
pub open spec fn pushed(b: BufferView, token: Seq<char>, used: i32, max: i32) -> BufferView {
    BufferView { pending: b.pending + token, tokens_used: Some(used), max_tokens: Some(max) }
}

/// Must the buffer be sent now, without waiting for the interval?
pub open spec fn must_flush(b: BufferView) -> bool {
    encode_utf8(b.pending).len() >= TOKEN_FLUSH_MAX_BYTES
}

/// The message a flush sends (none for an empty buffer) and the buffer after it.
pub open spec fn flushed(b: BufferView) -> (Option<Json>, BufferView) {
    if b.pending.len() == 0 {
        (None, b)
    } else {
        (
            Some(token_message(b.pending, b.tokens_used, b.max_tokens)),
            BufferView { pending: Seq::empty(), tokens_used: None, max_tokens: None },
        )
    }
}

/// A JSON number for an optional count.
fn opt_count_exec(n: Option<i32>) -> (r: JsonValue)
    ensures
        r@ == opt_count(n),
{
    match n {
        Some(v) => JsonValue::Number(i64_text(v as i64)),
        None => JsonValue::Null,
    }
}

/// The message that carries a chunk of tokens.
pub fn token_message_exec(token: String, tokens_used: Option<i32>, max_tokens: Option<i32>) -> (r: JsonValue)
    ensures
        r@ == token_message(token@, tokens_used, max_tokens),
{
    let ghost t = token@;
    let mut ms: Vec<(String, JsonValue)> = Vec::new();
    ms.push(("type".to_string(), JsonValue::Str("token".to_string())));
    ms.push(("token".to_string(), JsonValue::Str(token)));
    ms.push(("tokens_used".to_string(), opt_count_exec(tokens_used)));
    ms.push(("max_tokens".to_string(), opt_count_exec(max_tokens)));
    proof {
        lemma_object_of(ms);
        assert(members_view(ms@) =~= seq![
            ("type"@, Json::Str("token"@)),
            ("token"@, Json::Str(t)),
            ("tokens_used"@, opt_count(tokens_used)),
            ("max_tokens"@, opt_count(max_tokens)),
        ]);
    }
    JsonValue::Object(ms)
}

impl TokenBuffer {
    /// An empty buffer.
    pub fn new() -> (r: TokenBuffer)
        ensures
            buffer_view(r) == (BufferView { pending: Seq::empty(), tokens_used: None, max_tokens: None }),
    {
        TokenBuffer { pending: String::new(), tokens_used: None, max_tokens: None }
    }

    /// Add a token that came with the counts `used` and `max`; returns
    /// whether the buffer must be sent now.
    pub fn push_token(&mut self, token: &str, used: i32, max: i32) -> (flush_now: bool)
        ensures
            buffer_view(*final(self)) == pushed(buffer_view(*old(self)), token@, used, max),
            flush_now == must_flush(buffer_view(*final(self))),
    {
        let mut v = chars_of(self.pending.as_str());
        append_str(&mut v, token);
        self.pending = string_from(&v);
        self.tokens_used = Some(used);
        self.max_tokens = Some(max);
        byte_len(self.pending.as_str()) >= TOKEN_FLUSH_MAX_BYTES
    }

    /// Take what is pending as a message (none where nothing is); the
    /// buffer is then empty, its counts cleared.
    pub fn flush(&mut self) -> (msg: Option<JsonValue>)
        ensures
            (opt_json(msg), buffer_view(*final(self))) == flushed(buffer_view(*old(self))),
    {
        if self.pending.as_str().is_empty() {
            return None;
        }
        let mut token = String::new();
        std::mem::swap(&mut token, &mut self.pending);
        let used = self.tokens_used;
        let max = self.max_tokens;
        self.tokens_used = None;
        self.max_tokens = None;
        Some(token_message_exec(token, used, max))
    }
}

/// The view of an optional message.
pub open spec fn opt_json(m: Option<JsonValue>) -> Option<Json> {
    match m {
        Some(j) => Some(j@),
        None => None,
    }
}

/// No token is lost or reordered: a flush after a token arrived sends all
/// that was pending before it, then the token, with the token's counts, and
/// leaves the buffer empty.
pub proof fn lemma_flush_delivers(b: BufferView, token: Seq<char>, used: i32, max: i32)
    requires
        b.pending.len() + token.len() > 0,
    ensures
        flushed(pushed(b, token, used, max)) == (
            Some(token_message(b.pending + token, Some(used), Some(max))),
            BufferView { pending: Seq::empty(), tokens_used: None, max_tokens: None },
        ),
{
}

/// A flush of an empty buffer sends nothing and changes nothing.
pub proof fn lemma_empty_flush_is_silent(b: BufferView)
    requires
        b.pending.len() == 0,
    ensures
        flushed(b) == (None::<Json>, b),
{
}

// ---------------------------------------------------------------------------
// Watching a conversation
// ---------------------------------------------------------------------------

/// The conversation watched for an id: the id without any trailing `.txt`
/// suffixes (as `trim_end_matches(".txt")` removes them all).
pub fn watched_conversation_id(id: &str) -> (r: String)
    ensures
        r@ == conversation_key(id@),
{
    conversation_key_of(id)
}

/// Is an update of the watched conversation sent? Always when the
/// generation completed; otherwise only when the text's length changed and
/// the last send is at least `WATCH_MIN_INTERVAL_MS` old.
pub fn should_send_update(is_complete: bool, current_len: usize, last_sent_len: usize, since_last_ms: u64) -> (r: bool)
    ensures
        r == (is_complete || (current_len != last_sent_len && since_last_ms >= WATCH_MIN_INTERVAL_MS)),
{
    is_complete || (current_len != last_sent_len && since_last_ms >= WATCH_MIN_INTERVAL_MS)
}

/// A count that is only reported when positive.
pub fn positive_count(n: i32) -> (r: Option<i32>)
    ensures
        r == if n > 0 {
            Some(n)
        } else {
            None::<i32>
        },
{
    if n > 0 {
        Some(n)
    } else {
        None
    }
}

/// The message carrying the whole text of a watched conversation.
pub open spec fn update_message(content: Seq<char>, tokens_used: Option<i32>, max_tokens: Option<i32>) -> Json {
    Json::Object(
        seq![
            ("type"@, Json::Str("update"@)),
            ("content"@, Json::Str(content)),
            ("tokens_used"@, opt_count(tokens_used)),
            ("max_tokens"@, opt_count(max_tokens)),
        ],
    )
}

/// The message carrying the whole text of a watched conversation.
pub fn update_message_exec(content: String, tokens_used: Option<i32>, max_tokens: Option<i32>) -> (r: JsonValue)
    ensures
        r@ == update_message(content@, tokens_used, max_tokens),
{
    let ghost c = content@;
    let mut ms: Vec<(String, JsonValue)> = Vec::new();
    ms.push(("type".to_string(), JsonValue::Str("update".to_string())));
    ms.push(("content".to_string(), JsonValue::Str(content)));
    ms.push(("tokens_used".to_string(), opt_count_exec(tokens_used)));
    ms.push(("max_tokens".to_string(), opt_count_exec(max_tokens)));
    proof {
        lemma_object_of(ms);
        assert(members_view(ms@) =~= seq![
            ("type"@, Json::Str("update"@)),
            ("content"@, Json::Str(c)),
            ("tokens_used"@, opt_count(tokens_used)),
            ("max_tokens"@, opt_count(max_tokens)),
        ]);
    }
    JsonValue::Object(ms)
}

/// The first message of the status socket: is a model loaded?
pub fn model_status_message(loaded: bool) -> (r: JsonValue)
    ensures
        r@ == Json::Object(seq![("type"@, Json::Str("model_status"@)), ("loaded"@, Json::Bool(loaded))]),
{
    let mut ms: Vec<(String, JsonValue)> = Vec::new();
    ms.push(("type".to_string(), JsonValue::Str("model_status".to_string())));
    ms.push(("loaded".to_string(), JsonValue::Bool(loaded)));
    proof {
        lemma_object_of(ms);
        assert(members_view(ms@) =~= seq![
            ("type"@, Json::Str("model_status"@)),
            ("loaded"@, Json::Bool(loaded)),
        ]);
    }
    JsonValue::Object(ms)
}

/// An error message on a chat socket.
pub fn error_message(error: String) -> (r: JsonValue)
    ensures
        r@ == Json::Object(seq![("type"@, Json::Str("error"@)), ("error"@, Json::Str(error@))]),
{
    let ghost e = error@;
    let mut ms: Vec<(String, JsonValue)> = Vec::new();
    ms.push(("type".to_string(), JsonValue::Str("error".to_string())));
    ms.push(("error".to_string(), JsonValue::Str(error)));
    proof {
        lemma_object_of(ms);
        assert(members_view(ms@) =~= seq![("type"@, Json::Str("error"@)), ("error"@, Json::Str(e))]);
    }
    JsonValue::Object(ms)
}

/// The message sent when the generation was cancelled.
pub fn abort_message() -> (r: JsonValue)
    ensures
        r@ == Json::Object(seq![("type"@, Json::Str("abort"@))]),
{
    let mut ms: Vec<(String, JsonValue)> = Vec::new();
    ms.push(("type".to_string(), JsonValue::Str("abort".to_string())));
    proof {
        lemma_object_of(ms);
        assert(members_view(ms@) =~= seq![("type"@, Json::Str("abort"@))]);
    }
    JsonValue::Object(ms)
}

/// The error text when the first message is not a chat request.
pub fn invalid_request_error() -> (r: String)
    ensures
        r@ == "Invalid JSON format"@,
{
    "Invalid JSON format".to_string()
}

/// The error text when a generation could not start.
pub fn start_failure_error(error: &str) -> (r: String)
    ensures
        r@ == "Failed to start generation: "@ + error@,
{
    let mut v = chars_of("Failed to start generation: ");
    append_str(&mut v, error);
    string_from(&v)
}

/// The error text when the generation's result never came.
pub fn result_lost_error() -> (r: String)
    ensures
        r@ == "Generation failed: result channel closed"@,
{
    "Generation failed: result channel closed".to_string()
}

/// A frame received from the browser while a socket is open.
pub enum ClientFrame {
    Text,
    Binary,
    Ping,
    Pong,
    Close,
    /// The connection ended without a close frame.
    Ended,
    /// Reading failed.
    Failed,
}

/// What the server does with a frame.
pub enum FrameAction {
    /// Answer a ping with a pong carrying its data.
    Pong,
    /// Close the socket.
    Stop,
    /// Read on.
    Ignore,
}

/// What the server does with a frame received while streaming or watching:
/// pings are answered, a close, the end of the connection or a failed read
/// stops, anything else is ignored.
pub fn frame_action(frame: &ClientFrame) -> (r: FrameAction)
    ensures
        match frame {
            ClientFrame::Ping => r is Pong,
            ClientFrame::Close | ClientFrame::Ended | ClientFrame::Failed => r is Stop,
            _ => r is Ignore,
        },
{
    match frame {
        ClientFrame::Ping => FrameAction::Pong,
        ClientFrame::Close | ClientFrame::Ended | ClientFrame::Failed => FrameAction::Stop,
        _ => FrameAction::Ignore,
    }
}

} // verus!
