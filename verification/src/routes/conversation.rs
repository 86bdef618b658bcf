//! The conversation routes: which conversation a path names, which may be
//! deleted, the listing and its search, exports, and the estimate of how a
//! conversation's tokens are spent.

use vstd::prelude::*;
use vstd::utf8::encode_utf8;
use crate::event_log::{conversation_key, conversation_key_of};
use crate::json::{json_get, json_parse, json_serialize, json_serialize_pretty, json_to_string, json_to_string_pretty, lemma_object_of, members_view, Json, JsonValue};
use crate::text::{
    append_str, byte_len, chars_of, contains, contains_exec, decimal, ends_with, ends_with_exec,
    int_text, push_decimal, push_signed, slice_of, slices_equal, starts_with, starts_with_exec,
    string_from, u64_text, i64_text, unicode_lowercase, to_lowercase,
};

verus! {

/// A stored message of a conversation.
pub struct MessageRecord {
    pub role: String,
    pub content: String,
    pub timestamp: i64,
    /// Replaced by a summary when the conversation was compacted.
    pub compacted: bool,
}

/// The conversation named by a path `/api/conversations/<id><suffix>`: the
/// id without `.txt` suffixes; none for another path.
pub open spec fn path_conversation(path: Seq<char>, suffix: Seq<char>) -> Option<Seq<char>> {
    let prefix = "/api/conversations/"@;
    if starts_with(path, prefix) && path.len() >= prefix.len() + suffix.len() && ends_with(
        path.skip(prefix.len() as int),
        suffix,
    ) {
        Some(conversation_key(path.subrange(prefix.len() as int, path.len() - suffix.len())))
    } else {
        None
    }
}

/// The conversation named by a path ending in `suffix` (`/events`,
/// `/metrics`, `/truncate`); none where the path does not have that shape.
pub fn conversation_from_path(path: &str, suffix: &str) -> (r: Option<String>)
    ensures
        match r {
            Some(id) => path_conversation(path@, suffix@) == Some(id@),
            None => path_conversation(path@, suffix@) is None,
        },
{
    let p = chars_of(path);
    let prefix = chars_of("/api/conversations/");
    let s = chars_of(suffix);
    if !starts_with_exec(&p, &prefix) {
        return None;
    }
    let rest = slice_of(&p, prefix.len(), p.len());
    assert(rest@ == p@.skip(prefix@.len() as int));
    if !ends_with_exec(&rest, &s) {
        return None;
    }
    let id = slice_of(&p, prefix.len(), p.len() - s.len());
    Some(conversation_key_of(string_from(&id).as_str()))
}

/// Why a file name may not be deleted.
pub enum DeleteRefusal {
    /// It could reach outside the conversations (`..`, `/` or `\`).
    InvalidFilename,
    /// It is not a conversation (`chat_...`).
    NotAConversation,
}

/// The conversation a delete request names: its file name must not hold
/// `..`, `/` or `\`, and must start with `chat_`; the id is the name
/// without `.txt` suffixes.
pub open spec fn delete_target_spec(filename: Seq<char>) -> Result<Seq<char>, bool> {
    if contains(filename, ".."@) || contains(filename, "/"@) || contains(filename, "\\"@) {
        Err(true)
    } else if !starts_with(filename, "chat_"@) {
        Err(false)
    } else {
        Ok(conversation_key(filename))
    }
}

/// The conversation a delete request names, or why it is refused.
pub fn delete_target(filename: &str) -> (r: Result<String, DeleteRefusal>)
    ensures
        match r {
            Ok(id) => delete_target_spec(filename@) == Ok::<Seq<char>, bool>(id@),
            Err(DeleteRefusal::InvalidFilename) => delete_target_spec(filename@) == Err::<Seq<char>, bool>(true),
            Err(DeleteRefusal::NotAConversation) => delete_target_spec(filename@) == Err::<Seq<char>, bool>(false),
        },
{
    let f = chars_of(filename);
    if contains_exec(&f, &chars_of("..")) || contains_exec(&f, &chars_of("/")) || contains_exec(
        &f,
        &chars_of("\\"),
    ) {
        return Err(DeleteRefusal::InvalidFilename);
    }
    if !starts_with_exec(&f, &chars_of("chat_")) {
        return Err(DeleteRefusal::NotAConversation);
    }
    Ok(conversation_key_of(filename))
}

/// The error message for a refused delete.
pub fn delete_refusal_message(r: &DeleteRefusal) -> (m: &'static str)
    ensures
        m@ == match r {
            DeleteRefusal::InvalidFilename => "Invalid filename"@,
            DeleteRefusal::NotAConversation => "Invalid conversation file"@,
        },
{
    match r {
        DeleteRefusal::InvalidFilename => "Invalid filename",
        DeleteRefusal::NotAConversation => "Invalid conversation file",
    }
}

// ---------------------------------------------------------------------------
// Token analysis
// ---------------------------------------------------------------------------

/// The number of bytes of a text.
pub open spec fn bytes(s: Seq<char>) -> nat {
    encode_utf8(s).len()
}

/// The number of non-overlapping occurrences of `p` in `s`, found from the
/// left (what `str::matches(p).count()` gives for a non-empty `p`).
pub open spec fn count_matches(s: Seq<char>, p: Seq<char>) -> nat
    decreases s.len(),
{
    if s.len() == 0 || p.len() == 0 {
        0
    } else if starts_with(s, p) {
        1 + count_matches(s.skip(p.len() as int), p)
    } else {
        count_matches(s.skip(1), p)
    }
}

/// The tool calls counted in an assistant message: its `<tool_call>` tags,
/// plus its `"name"` keys up to the number of tags (at least one).
pub open spec fn tool_calls_in(content: Seq<char>) -> nat {
    let tags = count_matches(content, "<tool_call>"@);
    let names = count_matches(content, "\"name\""@);
    let cap: nat = if tags >= 1 {
        tags
    } else {
        1
    };
    tags + if names <= cap {
        names
    } else {
        cap
    }
}

/// Is a message a tool's response?
pub open spec fn is_tool_response(content: Seq<char>) -> bool {
    contains(content, "<tool_response>"@) || starts_with(content, "[TOOL_RESULTS]"@)
}

/// The tallies of a conversation: bytes in all messages; compacted
/// messages; bytes of the live user, assistant and system messages; tool
/// calls; bytes of live tool responses.
pub struct Tally {
    pub total: nat,
    pub compacted: nat,
    pub user: nat,
    pub assistant: nat,
    pub system: nat,
    pub tool_calls: nat,
    pub tool_responses: nat,
}

/// The tallies of the messages, in order.
pub open spec fn tally(messages: Seq<MessageRecord>) -> Tally
    decreases messages.len(),
{
    if messages.len() == 0 {
        Tally { total: 0, compacted: 0, user: 0, assistant: 0, system: 0, tool_calls: 0, tool_responses: 0 }
    } else {
        let t = tally(messages.drop_last());
        let m = messages.last();
        let n = bytes(m.content@);
        if m.compacted {
            Tally { total: t.total + n, compacted: t.compacted + 1, ..t }
        } else {
            let role = m.role@;
            Tally {
                total: t.total + n,
                compacted: t.compacted,
                user: t.user + if role == "user"@ {
                    n
                } else {
                    0
                },
                assistant: t.assistant + if role == "assistant"@ {
                    n
                } else {
                    0
                },
                system: t.system + if role == "system"@ {
                    n
                } else {
                    0
                },
                tool_calls: t.tool_calls + if role == "assistant"@ {
                    tool_calls_in(m.content@)
                } else {
                    0
                },
                tool_responses: t.tool_responses + if is_tool_response(m.content@) {
                    n
                } else {
                    0
                },
            }
        }
    }
}

/// The share of `part` in `total`, in whole percent (0 where there is nothing).
pub open spec fn percent(part: nat, total: nat) -> nat {
    if total > 0 {
        part * 100 / total
    } else {
        0
    }
}

/// One line of the breakdown: bytes, estimated tokens (a quarter of the
/// bytes) and share.
pub open spec fn share_json(part: nat, total: nat) -> Json {
    Json::Object(
        seq![
            ("chars"@, Json::Number(decimal(part))),
            ("tokens"@, Json::Number(decimal(part / 4))),
            ("pct"@, Json::Number(decimal(percent(part, total)))),
        ],
    )
}

/// The token analysis of a conversation.
pub open spec fn token_analysis_json(messages: Seq<MessageRecord>) -> Json {
    let t = tally(messages);
    Json::Object(
        seq![
            ("total_messages"@, Json::Number(decimal(messages.len()))),
            ("compacted_messages"@, Json::Number(decimal(t.compacted))),
            ("total_chars"@, Json::Number(decimal(t.total))),
            ("total_tokens_estimate"@, Json::Number(decimal(t.total / 4))),
            (
                "breakdown"@,
                Json::Object(
                    seq![
                        ("system"@, share_json(t.system, t.total)),
                        ("user"@, share_json(t.user, t.total)),
                        ("assistant"@, share_json(t.assistant, t.total)),
                        ("tool_responses"@, share_json(t.tool_responses, t.total)),
                    ],
                ),
            ),
            ("tool_calls"@, Json::Number(decimal(t.tool_calls))),
        ],
    )
}

/// Every part of the tally is within the whole: the live roles' bytes add
/// up to at most the total, and so do the tool responses' bytes; so no
/// share exceeds 100 percent.
pub proof fn lemma_shares_within_total(messages: Seq<MessageRecord>)
    ensures
        tally(messages).user + tally(messages).assistant + tally(messages).system <= tally(messages).total,
        tally(messages).tool_responses <= tally(messages).total,
        tally(messages).compacted <= messages.len(),
        percent(tally(messages).user, tally(messages).total) <= 100,
        percent(tally(messages).assistant, tally(messages).total) <= 100,
        percent(tally(messages).system, tally(messages).total) <= 100,
        percent(tally(messages).tool_responses, tally(messages).total) <= 100,
    decreases messages.len(),
{
    lemma_roles_distinct();
    if messages.len() > 0 {
        lemma_shares_within_total(messages.drop_last());
    }
    let t = tally(messages);
    lemma_percent_at_most_100(t.user, t.total);
    lemma_percent_at_most_100(t.assistant, t.total);
    lemma_percent_at_most_100(t.system, t.total);
    lemma_percent_at_most_100(t.tool_responses, t.total);
}

/// The three roles are different texts.
proof fn lemma_roles_distinct()
    ensures
        "user"@ != "assistant"@,
        "user"@ != "system"@,
        "assistant"@ != "system"@,
{
    reveal_strlit("user");
    reveal_strlit("assistant");
    reveal_strlit("system");
    assert("user"@.len() != "assistant"@.len());
    assert("user"@.len() != "system"@.len());
    assert("assistant"@.len() != "system"@.len());
}

/// A part's share of a larger whole is at most 100 percent.
proof fn lemma_percent_at_most_100(part: nat, total: nat)
    requires
        part <= total,
    ensures
        percent(part, total) <= 100,
{
    if total > 0 {
        assert(part * 100 <= total * 100) by (nonlinear_arith)
            requires
                part <= total,
        ;
        assert(part * 100 / total <= 100) by (nonlinear_arith)
            requires
                part * 100 <= total * 100,
                total > 0,
        ;
    }
}

/// The number of non-overlapping occurrences of `p` in `s`.
fn count_matches_exec(s: &Vec<char>, p: &Vec<char>) -> (r: u64)
    requires
        p@.len() > 0,
    ensures
        r as nat == count_matches(s@, p@),
{
    let mut n: u64 = 0;
    let mut i: usize = 0;
    assert(s@.skip(0) =~= s@);
    while i < s.len()
        invariant
            i <= s.len(),
            p@.len() > 0,
            n <= i,
            n + count_matches(s@.skip(i as int), p@) == count_matches(s@, p@),
        decreases s.len() - i,
    {
        let ghost rest = s@.skip(i as int);
        if crate::text::matches_at_exec(s, p, i) {
            proof {
                assert(rest.take(p@.len() as int) =~= s@.subrange(i as int, i + p@.len()));
                assert(rest.skip(p@.len() as int) =~= s@.skip(i + p@.len()));
            }
            n = n + 1;
            i = i + p.len();
        } else {
            proof {
                if starts_with(rest, p@) {
                    assert(s@.subrange(i as int, i + p@.len()) =~= rest.take(p@.len() as int));
                }
                assert(rest.skip(1) =~= s@.skip(i + 1));
            }
            i = i + 1;
        }
    }
    assert(s@.skip(i as int) =~= Seq::<char>::empty());
    n
}

/// Every count of matches is at most the length of the text.
proof fn lemma_count_matches_bound(s: Seq<char>, p: Seq<char>)
    ensures
        count_matches(s, p) <= s.len(),
    decreases s.len(),
{
    if s.len() > 0 && p.len() > 0 {
        if starts_with(s, p) {
            lemma_count_matches_bound(s.skip(p.len() as int), p);
        } else {
            lemma_count_matches_bound(s.skip(1), p);
        }
    }
}

/// The tool calls counted in an assistant message.
fn tool_calls_in_exec(content: &Vec<char>) -> (r: u128)
    ensures
        r as nat == tool_calls_in(content@),
{
    let tag = chars_of("<tool_call>");
    let name = chars_of("\"name\"");
    proof {
        reveal_strlit("<tool_call>");
        reveal_strlit("\"name\"");
        lemma_count_matches_bound(content@, tag@);
        lemma_count_matches_bound(content@, name@);
    }
    let tags = count_matches_exec(content, &tag);
    let names = count_matches_exec(content, &name);
    let cap: u64 = if tags >= 1 {
        tags
    } else {
        1
    };
    let extra = if names <= cap {
        names
    } else {
        cap
    };
    tags as u128 + extra as u128
}

/// A breakdown line.
fn share_json_exec(part: u64, total: u64) -> (r: JsonValue)
    requires
        part <= total,
        total * 100 <= u64::MAX,
    ensures
        r@ == share_json(part as nat, total as nat),
{
    let pct: u64 = if total > 0 {
        proof {
            assert(part * 100 <= total * 100) by (nonlinear_arith)
                requires
                    part <= total,
            ;
        }
        part * 100 / total
    } else {
        0
    };
    let mut ms: Vec<(String, JsonValue)> = Vec::new();
    ms.push(("chars".to_string(), JsonValue::Number(u64_text(part))));
    ms.push(("tokens".to_string(), JsonValue::Number(u64_text(part / 4))));
    ms.push(("pct".to_string(), JsonValue::Number(u64_text(pct))));
    proof {
        lemma_object_of(ms);
        assert(members_view(ms@) =~= seq![
            ("chars"@, Json::Number(decimal(part as nat))),
            ("tokens"@, Json::Number(decimal((part / 4) as nat))),
            ("pct"@, Json::Number(decimal(percent(part as nat, total as nat)))),
        ]);
    }
    JsonValue::Object(ms)
}

/// Can the tallies of the messages be computed in 64 bits, with room to
/// compute their shares?
pub open spec fn tally_fits(messages: Seq<MessageRecord>) -> bool {
    tally(messages).total * 100 <= u64::MAX && tally(messages).tool_calls <= u64::MAX
}

/// A tally computed in 64 bits.
struct TallyExec {
    total: u64,
    compacted: u64,
    user: u64,
    assistant: u64,
    system: u64,
    tool_calls: u64,
    tool_responses: u64,
}

/// The view of a computed tally.
spec fn tally_view(t: TallyExec) -> Tally {
    Tally {
        total: t.total as nat,
        compacted: t.compacted as nat,
        user: t.user as nat,
        assistant: t.assistant as nat,
        system: t.system as nat,
        tool_calls: t.tool_calls as nat,
        tool_responses: t.tool_responses as nat,
    }
}

/// Tallies only grow as messages are added.
proof fn lemma_tally_grows(messages: Seq<MessageRecord>, n: int)
    requires
        0 <= n <= messages.len(),
    ensures
        tally(messages.take(n)).total <= tally(messages).total,
        tally(messages.take(n)).tool_calls <= tally(messages).tool_calls,
        tally(messages.take(n)).compacted <= tally(messages).compacted,
    decreases messages.len() - n,
{
    if n < messages.len() {
        assert(messages.drop_last().take(n) =~= messages.take(n));
        lemma_tally_grows(messages.drop_last(), n);
    } else {
        assert(messages.take(n) =~= messages);
    }
}

/// The token analysis of a conversation. The tallies must fit in 64 bits
/// (with room for the shares).
pub fn token_analysis(messages: &Vec<MessageRecord>) -> (r: JsonValue)
    requires
        tally_fits(messages@),
    ensures
        r@ == token_analysis_json(messages@),
{
    let mut t = TallyExec { total: 0, compacted: 0, user: 0, assistant: 0, system: 0, tool_calls: 0, tool_responses: 0 };
    let mut i: usize = 0;
    assert(messages@.take(0) =~= Seq::<MessageRecord>::empty());
    while i < messages.len()
        invariant
            i <= messages.len(),
            tally_fits(messages@),
            tally_view(t) == tally(messages@.take(i as int)),
        decreases messages.len() - i,
    {
        proof {
            assert(messages@.take(i + 1).drop_last() =~= messages@.take(i as int));
            assert(messages@.take(i + 1).last() == messages@[i as int]);
            lemma_tally_grows(messages@, i + 1);
            lemma_shares_within_total(messages@.take(i + 1));
            lemma_roles_distinct();
        }
        let m = &messages[i];
        let n = byte_len(m.content.as_str());
        let n64 = n as u64;
        if m.compacted {
            t.total = t.total + n64;
            t.compacted = t.compacted + 1;
        } else {
            let role = chars_of(m.role.as_str());
            let content = chars_of(m.content.as_str());
            t.total = t.total + n64;
            if slices_equal(&role, &chars_of("user")) {
                t.user = t.user + n64;
            } else if slices_equal(&role, &chars_of("assistant")) {
                t.assistant = t.assistant + n64;
                let calls = tool_calls_in_exec(&content);
                t.tool_calls = t.tool_calls + calls as u64;
            } else if slices_equal(&role, &chars_of("system")) {
                t.system = t.system + n64;
            }
            if contains_exec(&content, &chars_of("<tool_response>")) || starts_with_exec(
                &content,
                &chars_of("[TOOL_RESULTS]"),
            ) {
                t.tool_responses = t.tool_responses + n64;
            }
        }
        i += 1;
    }
    assert(messages@.take(messages.len() as int) =~= messages@);
    proof {
        lemma_shares_within_total(messages@);
    }
    let mut breakdown: Vec<(String, JsonValue)> = Vec::new();
    breakdown.push(("system".to_string(), share_json_exec(t.system, t.total)));
    breakdown.push(("user".to_string(), share_json_exec(t.user, t.total)));
    breakdown.push(("assistant".to_string(), share_json_exec(t.assistant, t.total)));
    breakdown.push(("tool_responses".to_string(), share_json_exec(t.tool_responses, t.total)));
    let ghost tv = tally(messages@);
    proof {
        lemma_object_of(breakdown);
        assert(members_view(breakdown@) =~= seq![
            ("system"@, share_json(tv.system, tv.total)),
            ("user"@, share_json(tv.user, tv.total)),
            ("assistant"@, share_json(tv.assistant, tv.total)),
            ("tool_responses"@, share_json(tv.tool_responses, tv.total)),
        ]);
    }
    let b = JsonValue::Object(breakdown);
    let ghost bv = b@;
    let mut ms: Vec<(String, JsonValue)> = Vec::new();
    ms.push(("total_messages".to_string(), JsonValue::Number(u64_text(messages.len() as u64))));
    ms.push(("compacted_messages".to_string(), JsonValue::Number(u64_text(t.compacted))));
    ms.push(("total_chars".to_string(), JsonValue::Number(u64_text(t.total))));
    ms.push(("total_tokens_estimate".to_string(), JsonValue::Number(u64_text(t.total / 4))));
    ms.push(("breakdown".to_string(), b));
    ms.push(("tool_calls".to_string(), JsonValue::Number(u64_text(t.tool_calls))));
    proof {
        lemma_object_of(ms);
        assert(members_view(ms@) =~= seq![
            ("total_messages"@, Json::Number(decimal(messages@.len()))),
            ("compacted_messages"@, Json::Number(decimal(tv.compacted))),
            ("total_chars"@, Json::Number(decimal(tv.total))),
            ("total_tokens_estimate"@, Json::Number(decimal(tv.total / 4))),
            ("breakdown"@, bv),
            ("tool_calls"@, Json::Number(decimal(tv.tool_calls))),
        ]);
    }
    JsonValue::Object(ms)
}

/// Can the tallies of the messages be computed?
pub fn token_analysis_fits(messages: &Vec<MessageRecord>) -> (r: bool)
    ensures
        r == tally_fits(messages@),
{
    let mut total: u128 = 0;
    let mut calls: u128 = 0;
    let mut i: usize = 0;
    while i < messages.len()
        invariant
            i <= messages.len(),
            total == tally(messages@.take(i as int)).total,
            calls == tally(messages@.take(i as int)).tool_calls,
            total <= u64::MAX,
            calls <= u64::MAX,
        decreases messages.len() - i,
    {
        proof {
            assert(messages@.take(i + 1).drop_last() =~= messages@.take(i as int));
            assert(messages@.take(i + 1).last() == messages@[i as int]);
        }
        let m = &messages[i];
        total = total + byte_len(m.content.as_str()) as u128;
        if !m.compacted && slices_equal(&chars_of(m.role.as_str()), &chars_of("assistant")) {
            let c = tool_calls_in_exec(&chars_of(m.content.as_str()));
            proof {
                reveal_strlit("assistant");
            }
            if c > u64::MAX as u128 {
                proof {
                    lemma_tally_grows(messages@, i + 1);
                }
                return false;
            }
            calls = calls + c;
        }
        if total > u64::MAX as u128 || calls > u64::MAX as u128 {
            proof {
                lemma_tally_grows(messages@, i + 1);
            }
            return false;
        }
        i += 1;
    }
    assert(messages@.take(messages.len() as int) =~= messages@);
    total * 100 <= u64::MAX as u128
}


// ---------------------------------------------------------------------------
// Exports
// ---------------------------------------------------------------------------

/// How a role is headed in a Markdown export.
pub open spec fn role_label(role: Seq<char>) -> Seq<char> {
    if role == "user"@ {
        "**User**"@
    } else if role == "assistant"@ {
        "**Assistant**"@
    } else if role == "system"@ {
        "**System**"@
    } else {
        role
    }
}

/// The Markdown sections of the live messages, in order.
pub open spec fn markdown_sections(messages: Seq<MessageRecord>) -> Seq<char>
    decreases messages.len(),
{
    if messages.len() == 0 {
        Seq::empty()
    } else {
        let m = messages.last();
        markdown_sections(messages.drop_last()) + if m.compacted {
            Seq::empty()
        } else {
            "### "@ + role_label(m.role@) + "\n\n"@ + m.content@ + "\n\n---\n\n"@
        }
    }
}

/// A conversation exported as Markdown.
pub open spec fn markdown_export_spec(id: Seq<char>, messages: Seq<MessageRecord>) -> Seq<char> {
    "# Conversation: "@ + id + "\n\n"@ + markdown_sections(messages)
}

/// A conversation exported as Markdown: a heading, then each live message
/// under its role, compacted messages left out.
pub fn markdown_export(id: &str, messages: &Vec<MessageRecord>) -> (r: String)
    ensures
        r@ == markdown_export_spec(id@, messages@),
{
    let mut v = chars_of("# Conversation: ");
    append_str(&mut v, id);
    append_str(&mut v, "\n\n");
    let ghost head = v@;
    let mut i: usize = 0;
    while i < messages.len()
        invariant
            i <= messages.len(),
            v@ == head + markdown_sections(messages@.take(i as int)),
        decreases messages.len() - i,
    {
        proof {
            assert(messages@.take(i + 1).drop_last() =~= messages@.take(i as int));
            assert(messages@.take(i + 1).last() == messages@[i as int]);
        }
        let m = &messages[i];
        let ghost before = v@;
        if !m.compacted {
            append_str(&mut v, "### ");
            let role = chars_of(m.role.as_str());
            if slices_equal(&role, &chars_of("user")) {
                append_str(&mut v, "**User**");
            } else if slices_equal(&role, &chars_of("assistant")) {
                append_str(&mut v, "**Assistant**");
            } else if slices_equal(&role, &chars_of("system")) {
                append_str(&mut v, "**System**");
            } else {
                append_str(&mut v, m.role.as_str());
            }
            append_str(&mut v, "\n\n");
            append_str(&mut v, m.content.as_str());
            append_str(&mut v, "\n\n---\n\n");
        }
        proof {
            assert(v@ =~= head + markdown_sections(messages@.take(i + 1)));
        }
        i += 1;
    }
    assert(messages@.take(messages.len() as int) =~= messages@);
    string_from(&v)
}

/// The three known roles are told apart in an export: `user`, `assistant`
/// and `system` each get a heading of their own.
pub proof fn lemma_known_roles_labelled_apart(r1: Seq<char>, r2: Seq<char>)
    requires
        r1 == "user"@ || r1 == "assistant"@ || r1 == "system"@,
        r2 == "user"@ || r2 == "assistant"@ || r2 == "system"@,
        r1 != r2,
    ensures
        role_label(r1) != role_label(r2),
{
    reveal_strlit("user");
    reveal_strlit("assistant");
    reveal_strlit("system");
    reveal_strlit("**User**");
    reveal_strlit("**Assistant**");
    reveal_strlit("**System**");
    assert("user"@[0] != "assistant"@[0]);
    assert("user"@[0] != "system"@[0]);
    assert("assistant"@[0] != "system"@[0]);
    assert("**User**"@[2] != "**Assistant**"@[2]);
    assert("**User**"@[2] != "**System**"@[2]);
    assert("**Assistant**"@[2] != "**System**"@[2]);
}

/// Exporting one more message appends exactly its section, headed by the label
/// of its own role (`**User**`, `**Assistant**`, `**System**`, any other role
/// as it is), and a compacted message appends nothing.
pub proof fn lemma_export_appends_section(id: Seq<char>, messages: Seq<MessageRecord>, m: MessageRecord)
    ensures
        m.compacted ==> markdown_export_spec(id, messages.push(m)) == markdown_export_spec(id, messages),
        !m.compacted ==> markdown_export_spec(id, messages.push(m)) == markdown_export_spec(id, messages)
            + "### "@ + (if m.role@ == "user"@ {
                "**User**"@
            } else if m.role@ == "assistant"@ {
                "**Assistant**"@
            } else if m.role@ == "system"@ {
                "**System**"@
            } else {
                m.role@
            }) + "\n\n"@ + m.content@ + "\n\n---\n\n"@,
{
    reveal_strlit("user");
    reveal_strlit("assistant");
    reveal_strlit("system");
    assert("user"@[0] != "assistant"@[0]);
    assert("user"@[0] != "system"@[0]);
    assert("assistant"@[0] != "system"@[0]);
    assert(messages.push(m).drop_last() =~= messages);
    assert(messages.push(m).last() == m);
    if !m.compacted {
        assert(markdown_export_spec(id, messages.push(m)) =~= markdown_export_spec(id, messages)
            + "### "@ + role_label(m.role@) + "\n\n"@ + m.content@ + "\n\n---\n\n"@);
    } else {
        assert(markdown_export_spec(id, messages.push(m)) =~= markdown_export_spec(id, messages));
    }
}

/// The live messages as JSON entries `{"role", "content", "timestamp"}`.
pub open spec fn json_entries(messages: Seq<MessageRecord>) -> Seq<Json>
    decreases messages.len(),
{
    if messages.len() == 0 {
        Seq::empty()
    } else {
        let m = messages.last();
        json_entries(messages.drop_last()) + if m.compacted {
            Seq::empty()
        } else {
            seq![
                Json::Object(
                    seq![
                        ("role"@, Json::Str(m.role@)),
                        ("content"@, Json::Str(m.content@)),
                        ("timestamp"@, Json::Number(int_text(m.timestamp as int))),
                    ],
                ),
            ]
        }
    }
}

/// A conversation exported as JSON: its id and its live messages.
pub open spec fn json_export_doc(id: Seq<char>, messages: Seq<MessageRecord>) -> Json {
    Json::Object(
        seq![("conversation_id"@, Json::Str(id)), ("messages"@, Json::Array(json_entries(messages)))],
    )
}

/// A conversation exported as indented JSON.
pub fn json_export(id: &str, messages: &Vec<MessageRecord>) -> (r: String)
    ensures
        r@ == json_serialize_pretty(json_export_doc(id@, messages@)),
{
    let mut entries: Vec<JsonValue> = Vec::new();
    let mut i: usize = 0;
    while i < messages.len()
        invariant
            i <= messages.len(),
            entries@.map_values(|j: JsonValue| j@) == json_entries(messages@.take(i as int)),
        decreases messages.len() - i,
    {
        proof {
            assert(messages@.take(i + 1).drop_last() =~= messages@.take(i as int));
            assert(messages@.take(i + 1).last() == messages@[i as int]);
        }
        let m = &messages[i];
        let ghost before = entries@;
        if !m.compacted {
            let mut ms: Vec<(String, JsonValue)> = Vec::new();
            ms.push(("role".to_string(), JsonValue::Str(m.role.clone())));
            ms.push(("content".to_string(), JsonValue::Str(m.content.clone())));
            ms.push(("timestamp".to_string(), JsonValue::Number(i64_text(m.timestamp))));
            proof {
                lemma_object_of(ms);
                assert(members_view(ms@) =~= seq![
                    ("role"@, Json::Str(m.role@)),
                    ("content"@, Json::Str(m.content@)),
                    ("timestamp"@, Json::Number(int_text(m.timestamp as int))),
                ]);
            }
            let e = JsonValue::Object(ms);
            let ghost ev = e@;
            entries.push(e);
            proof {
                assert(entries@.map_values(|j: JsonValue| j@) =~= before.map_values(|j: JsonValue| j@).push(ev));
            }
        }
        proof {
            assert(entries@.map_values(|j: JsonValue| j@) =~= json_entries(messages@.take(i + 1)));
        }
        i += 1;
    }
    assert(messages@.take(messages.len() as int) =~= messages@);
    let arr = JsonValue::Array(entries);
    proof {
        crate::json::lemma_array_view(arr);
        assert(crate::json::array_items(arr@) =~= json_entries(messages@));
    }
    let ghost av = arr@;
    let mut ms: Vec<(String, JsonValue)> = Vec::new();
    ms.push(("conversation_id".to_string(), JsonValue::Str(id.to_string())));
    ms.push(("messages".to_string(), arr));
    proof {
        lemma_object_of(ms);
        assert(members_view(ms@) =~= seq![("conversation_id"@, Json::Str(id@)), ("messages"@, av)]);
    }
    json_to_string_pretty(&JsonValue::Object(ms))
}

/// Is the export asked for JSON (`format=json`)? Markdown otherwise, also
/// where no format is given.
pub fn export_as_json(format: Option<&str>) -> (r: bool)
    ensures
        r == (format matches Some(f) && f@ == "json"@),
{
    match format {
        Some(f) => slices_equal(&chars_of(f), &chars_of("json")),
        None => false,
    }
}

/// The `Content-Disposition` of an export with file extension `ext`.
pub fn export_disposition(id: &str, ext: &str) -> (r: String)
    ensures
        r@ == "attachment; filename=\""@ + id@ + "."@ + ext@ + "\""@,
{
    let mut v = chars_of("attachment; filename=\"");
    append_str(&mut v, id);
    append_str(&mut v, ".");
    append_str(&mut v, ext);
    append_str(&mut v, "\"");
    string_from(&v)
}

// ---------------------------------------------------------------------------
// Listing
// ---------------------------------------------------------------------------

/// A stored conversation as the listing shows it.
pub struct ConversationFile {
    /// The id with `.txt` after it.
    pub name: String,
    /// The title, or `Chat <time>` without one.
    pub display_name: String,
    /// The id without its `chat_` prefix.
    pub timestamp: String,
    pub title: Option<String>,
    pub provider_id: Option<String>,
}

/// The time part of a conversation id: the id without one `chat_` prefix.
pub open spec fn time_part(id: Seq<char>) -> Seq<char> {
    if starts_with(id, "chat_"@) {
        id.skip(5)
    } else {
        id
    }
}

/// How a stored conversation is listed.
pub fn conversation_file(id: &str, title: Option<String>, provider_id: Option<String>) -> (r: ConversationFile)
    ensures
        r.name@ == id@ + ".txt"@,
        r.timestamp@ == time_part(id@),
        r.display_name@ == match title {
            Some(t) => t@,
            None => "Chat "@ + time_part(id@),
        },
        r.title == title,
        r.provider_id == provider_id,
{
    let c = chars_of(id);
    let ts = if starts_with_exec(&c, &chars_of("chat_")) {
        proof {
            reveal_strlit("chat_");
        }
        string_from(&slice_of(&c, 5, c.len()))
    } else {
        id.to_string()
    };
    let display_name = match &title {
        Some(t) => t.clone(),
        None => {
            let mut v = chars_of("Chat ");
            append_str(&mut v, ts.as_str());
            string_from(&v)
        },
    };
    let mut n = chars_of(id);
    append_str(&mut n, ".txt");
    ConversationFile { name: string_from(&n), display_name, timestamp: ts, title, provider_id }
}

/// Does a conversation match a search (already in lower case): its shown
/// name, file name or title contains it, each compared in lower case?
pub open spec fn matches_search(f: ConversationFile, q: Seq<char>) -> bool {
    contains(unicode_lowercase(f.display_name@), q) || contains(unicode_lowercase(f.name@), q) || match f.title {
        Some(t) => contains(unicode_lowercase(t@), q),
        None => false,
    }
}

/// Does a conversation match a search (already in lower case)?
pub fn conversation_matches(f: &ConversationFile, q: &str) -> (r: bool)
    ensures
        r == matches_search(*f, q@),
{
    let qc = chars_of(q);
    contains_exec(&chars_of(to_lowercase(f.display_name.as_str()).as_str()), &qc) || contains_exec(
        &chars_of(to_lowercase(f.name.as_str()).as_str()),
        &qc,
    ) || match &f.title {
        Some(t) => contains_exec(&chars_of(to_lowercase(t.as_str()).as_str()), &qc),
        None => false,
    }
}

/// An optional text as JSON: the string, or `null`.
pub open spec fn opt_str_json(s: Option<String>) -> Json {
    match s {
        Some(t) => Json::Str(t@),
        None => Json::Null,
    }
}

/// A listed conversation as JSON.
pub open spec fn conversation_json(f: ConversationFile) -> Json {
    Json::Object(
        seq![
            ("name"@, Json::Str(f.name@)),
            ("display_name"@, Json::Str(f.display_name@)),
            ("timestamp"@, Json::Str(f.timestamp@)),
            ("title"@, opt_str_json(f.title)),
            ("provider_id"@, opt_str_json(f.provider_id)),
        ],
    )
}

/// The conversations that match a search (all without one), in order.
pub open spec fn kept_conversations(files: Seq<ConversationFile>, q: Option<Seq<char>>) -> Seq<Json>
    decreases files.len(),
{
    if files.len() == 0 {
        Seq::empty()
    } else {
        kept_conversations(files.drop_last(), q) + match q {
            Some(qq) if !matches_search(files.last(), qq) => Seq::empty(),
            _ => seq![conversation_json(files.last())],
        }
    }
}

/// An optional text as JSON.
fn opt_str_json_exec(s: &Option<String>) -> (r: JsonValue)
    ensures
        r@ == opt_str_json(*s),
{
    match s {
        Some(t) => JsonValue::Str(t.clone()),
        None => JsonValue::Null,
    }
}

/// A listed conversation as JSON.
fn conversation_json_exec(f: &ConversationFile) -> (r: JsonValue)
    ensures
        r@ == conversation_json(*f),
{
    let mut ms: Vec<(String, JsonValue)> = Vec::new();
    ms.push(("name".to_string(), JsonValue::Str(f.name.clone())));
    ms.push(("display_name".to_string(), JsonValue::Str(f.display_name.clone())));
    ms.push(("timestamp".to_string(), JsonValue::Str(f.timestamp.clone())));
    ms.push(("title".to_string(), opt_str_json_exec(&f.title)));
    ms.push(("provider_id".to_string(), opt_str_json_exec(&f.provider_id)));
    proof {
        lemma_object_of(ms);
        assert(members_view(ms@) =~= seq![
            ("name"@, Json::Str(f.name@)),
            ("display_name"@, Json::Str(f.display_name@)),
            ("timestamp"@, Json::Str(f.timestamp@)),
            ("title"@, opt_str_json(f.title)),
            ("provider_id"@, opt_str_json(f.provider_id)),
        ]);
    }
    JsonValue::Object(ms)
}

/// The listing `{"conversations": [...]}` of the conversations that match
/// the search `q` (already in lower case; all without one).
pub fn conversations_listing(files: &Vec<ConversationFile>, q: Option<&str>) -> (r: String)
    ensures
        r@ == json_serialize(
            Json::Object(
                seq![
                    (
                        "conversations"@,
                        Json::Array(
                            kept_conversations(
                                files@,
                                match q {
                                    Some(t) => Some(t@),
                                    None => None,
                                },
                            ),
                        ),
                    ),
                ],
            ),
        ),
{
    let ghost qv: Option<Seq<char>> = match q {
        Some(t) => Some(t@),
        None => None,
    };
    let mut kept: Vec<JsonValue> = Vec::new();
    let mut i: usize = 0;
    while i < files.len()
        invariant
            i <= files.len(),
            qv == match q {
                Some(t) => Some(t@),
                None => None::<Seq<char>>,
            },
            kept@.map_values(|j: JsonValue| j@) == kept_conversations(files@.take(i as int), qv),
        decreases files.len() - i,
    {
        proof {
            assert(files@.take(i + 1).drop_last() =~= files@.take(i as int));
            assert(files@.take(i + 1).last() == files@[i as int]);
        }
        let keep = match q {
            Some(t) => conversation_matches(&files[i], t),
            None => true,
        };
        let ghost before = kept@;
        if keep {
            let e = conversation_json_exec(&files[i]);
            let ghost ev = e@;
            kept.push(e);
            proof {
                assert(kept@.map_values(|j: JsonValue| j@) =~= before.map_values(|j: JsonValue| j@).push(ev));
            }
        }
        proof {
            assert(kept@.map_values(|j: JsonValue| j@) =~= kept_conversations(files@.take(i + 1), qv));
        }
        i += 1;
    }
    assert(files@.take(files.len() as int) =~= files@);
    let arr = JsonValue::Array(kept);
    proof {
        crate::json::lemma_array_view(arr);
        assert(crate::json::array_items(arr@) =~= kept_conversations(files@, qv));
    }
    let ghost av = arr@;
    let mut ms: Vec<(String, JsonValue)> = Vec::new();
    ms.push(("conversations".to_string(), arr));
    proof {
        lemma_object_of(ms);
        assert(members_view(ms@) =~= seq![("conversations"@, av)]);
    }
    json_to_string(&JsonValue::Object(ms))
}

// ---------------------------------------------------------------------------
// Edits
// ---------------------------------------------------------------------------

/// The message from which a truncation deletes: the request's
/// `from_sequence` where it is an integer, kept to its low 32 bits as `as
/// i32` keeps them; none where the body is not JSON or has no such number.
pub open spec fn truncate_from_spec(body: Seq<char>) -> Option<i32> {
    match json_parse(body) {
        Some(doc) => match json_get(doc, "from_sequence"@) {
            Some(v) => match crate::json::json_as_i64(v) {
                Some(n) => Some(n as i32),
                None => None,
            },
            None => None,
        },
        None => None,
    }
}

/// The message from which a truncation deletes.
pub fn truncate_from(body: &str) -> (r: Option<i32>)
    ensures
        r == truncate_from_spec(body@),
{
    match crate::json::parse_json(body) {
        Some(doc) => match doc.get("from_sequence") {
            Some(v) => match v.as_i64() {
                Some(n) => Some(n as i32),
                None => None,
            },
            None => None,
        },
        None => None,
    }
}

/// The answer after a truncation deleted `deleted` messages.
pub fn truncated_reply(deleted: u64) -> (r: String)
    ensures
        r@ == "{\"success\":true,\"deleted\":"@ + decimal(deleted as nat) + "}"@,
{
    let mut v = chars_of("{\"success\":true,\"deleted\":");
    push_decimal(&mut v, deleted);
    append_str(&mut v, "}");
    string_from(&v)
}

/// The new title a rename request gives: its non-empty `title`; none
/// where it is missing (the answer is then `title is required`).
pub fn rename_title(body: &JsonValue) -> (r: Option<String>)
    ensures
        match r {
            Some(t) => t@.len() > 0 && crate::json::json_get_str(body@, "title"@) == Some(t@),
            None => !(crate::json::json_get_str(body@, "title"@) matches Some(t) && t.len() > 0),
        },
{
    match body.get_str("title") {
        Some(t) => if t.as_str().is_empty() {
            None
        } else {
            Some(t)
        },
        None => None,
    }
}

/// The answer after a rename: `{"success": true, "title": <title>}`.
pub fn renamed_reply(title: &str) -> (r: String)
    ensures
        r@ == json_serialize(Json::Object(seq![("success"@, Json::Bool(true)), ("title"@, Json::Str(title@))])),
{
    let mut ms: Vec<(String, JsonValue)> = Vec::new();
    ms.push(("success".to_string(), JsonValue::Bool(true)));
    ms.push(("title".to_string(), JsonValue::Str(title.to_string())));
    proof {
        lemma_object_of(ms);
        assert(members_view(ms@) =~= seq![("success"@, Json::Bool(true)), ("title"@, Json::Str(title@))]);
    }
    json_to_string(&JsonValue::Object(ms))
}

/// The title of a new conversation: the request's `title` string, else
/// `New conversation` (also where the body is not JSON).
pub open spec fn new_title_spec(body: Seq<char>) -> Seq<char> {
    match json_parse(body) {
        Some(doc) => match crate::json::json_get_str(doc, "title"@) {
            Some(t) => t,
            None => "New conversation"@,
        },
        None => "New conversation"@,
    }
}

/// The title of a new conversation.
pub fn new_conversation_title(body: &str) -> (r: String)
    ensures
        r@ == new_title_spec(body@),
{
    match crate::json::parse_json(body) {
        Some(doc) => match doc.get_str("title") {
            Some(t) => t,
            None => "New conversation".to_string(),
        },
        None => "New conversation".to_string(),
    }
}

/// The answer after a conversation was created: `{"id", "title"}`.
pub fn created_reply(id: &str, title: &str) -> (r: String)
    ensures
        r@ == json_serialize(Json::Object(seq![("id"@, Json::Str(id@)), ("title"@, Json::Str(title@))])),
{
    let mut ms: Vec<(String, JsonValue)> = Vec::new();
    ms.push(("id".to_string(), JsonValue::Str(id.to_string())));
    ms.push(("title".to_string(), JsonValue::Str(title.to_string())));
    proof {
        lemma_object_of(ms);
        assert(members_view(ms@) =~= seq![("id"@, Json::Str(id@)), ("title"@, Json::Str(title@))]);
    }
    json_to_string(&JsonValue::Object(ms))
}

/// The answer after a batch delete: `{"deleted", "failed", "total"}`.
pub fn batch_delete_reply(deleted: u64, failed: u64, total: u64) -> (r: String)
    ensures
        r@ == json_serialize(
            Json::Object(
                seq![
                    ("deleted"@, Json::Number(decimal(deleted as nat))),
                    ("failed"@, Json::Number(decimal(failed as nat))),
                    ("total"@, Json::Number(decimal(total as nat))),
                ],
            ),
        ),
{
    let mut ms: Vec<(String, JsonValue)> = Vec::new();
    ms.push(("deleted".to_string(), JsonValue::Number(u64_text(deleted))));
    ms.push(("failed".to_string(), JsonValue::Number(u64_text(failed))));
    ms.push(("total".to_string(), JsonValue::Number(u64_text(total))));
    proof {
        lemma_object_of(ms);
        assert(members_view(ms@) =~= seq![
            ("deleted"@, Json::Number(decimal(deleted as nat))),
            ("failed"@, Json::Number(decimal(failed as nat))),
            ("total"@, Json::Number(decimal(total as nat))),
        ]);
    }
    json_to_string(&JsonValue::Object(ms))
}


/// The ids of a batch delete: the strings of the request's `ids` array;
/// none where there is no such array (the answer is then `ids array is
/// required`).
pub fn batch_ids(body: &JsonValue) -> (r: Option<Vec<String>>)
    ensures
        match r {
            Some(ids) => json_get(body@, "ids"@) matches Some(Json::Array(items)) && ids@.map_values(
                |a: String| a@,
            ) == crate::mcp_tools::string_items(items),
            None => !(json_get(body@, "ids"@) matches Some(Json::Array(_))),
        },
{
    match body.get("ids") {
        Some(v) => match v {
            JsonValue::Array(items) => {
                proof {
                    crate::json::lemma_array_view(*v);
                    assert(crate::json::array_items(v@) =~= items@.map_values(|j: JsonValue| j@));
                }
                Some(crate::mcp_tools::string_items_exec(items))
            },
            _ => None,
        },
        None => None,
    }
}

} // verus!
