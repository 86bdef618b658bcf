//! Log lines sent by the browser front end: how a batch is checked and how
//! each entry is written.

use vstd::prelude::*;
use vstd::utf8::{encode_utf8, is_char_boundary};
use crate::response::{BAD_REQUEST, OK, HttpResponse};
use crate::response_helpers::{json_error, json_raw};
use crate::text::{byte_len, byte_prefix, prefix_bytes, append_str, ascii_lower_seq, ascii_lowercase_exec, chars_of, slices_equal, string_from};

verus! {

/// The longest message kept, in bytes.
pub const MAX_MESSAGE_LEN: usize = 20_000;

/// The most entries accepted in one batch.
pub const MAX_ENTRIES: usize = 200;

/// 413 Payload Too Large.
pub const PAYLOAD_TOO_LARGE: u16 = 413;

/// The level written for a level sent by the front end.
pub open spec fn level_spec(level: Seq<char>) -> Seq<char> {
    let l = ascii_lower_seq(level);
    if l == "info"@ {
        "INFO"@
    } else if l == "warn"@ || l == "warning"@ {
        "WARN"@
    } else if l == "error"@ {
        "ERROR"@
    } else if l == "debug"@ {
        "DEBUG"@
    } else {
        "INFO"@
    }
}

/// The level to write for a level sent by the front end (`INFO` for any
/// level it does not know).
pub fn sanitize_level(level: &str) -> (r: &'static str)
    ensures
        r@ == level_spec(level@),
{
    let l = ascii_lowercase_exec(&chars_of(level));
    if slices_equal(&l, &chars_of("info")) {
        "INFO"
    } else if slices_equal(&l, &chars_of("warn")) || slices_equal(&l, &chars_of("warning")) {
        "WARN"
    } else if slices_equal(&l, &chars_of("error")) {
        "ERROR"
    } else if slices_equal(&l, &chars_of("debug")) {
        "DEBUG"
    } else {
        "INFO"
    }
}

/// The marker appended to a cut message.
pub open spec fn truncation_marker() -> Seq<char> {
    "…[truncated]"@
}

/// A message cut to its first `MAX_MESSAGE_LEN` bytes, with the marker
/// appended; a message no longer than that is kept whole.
pub open spec fn truncated_spec(message: Seq<char>) -> Seq<char> {
    if encode_utf8(message).len() > MAX_MESSAGE_LEN {
        byte_prefix(message, MAX_MESSAGE_LEN as nat) + truncation_marker()
    } else {
        message
    }
}

/// Cut an over-long message. As `String::truncate` does, this needs the cut
/// to fall between two characters.
pub fn truncate_message(message: String) -> (r: String)
    requires
        encode_utf8(message@).len() <= MAX_MESSAGE_LEN || is_char_boundary(
            encode_utf8(message@),
            MAX_MESSAGE_LEN as int,
        ),
    ensures
        r@ == truncated_spec(message@),
{
    let s = message.as_str();
    if byte_len(s) > MAX_MESSAGE_LEN {
        let mut v = chars_of(prefix_bytes(s, MAX_MESSAGE_LEN).as_str());
        append_str(&mut v, "…[truncated]");
        string_from(&v)
    } else {
        message
    }
}

/// `s` with each newline written as `\n`.
pub open spec fn escape_newlines(s: Seq<char>) -> Seq<char>
    decreases s.len(),
{
    if s.len() == 0 {
        Seq::empty()
    } else {
        escape_newlines(s.drop_last()) + if s.last() == '\n' {
            seq!['\\', 'n']
        } else {
            seq![s.last()]
        }
    }
}

/// The line written for one entry: `[<time>] [<LEVEL>] <message>` and a
/// newline, with the message cut and its newlines escaped; `now` is the
/// time written where the entry has none.
pub open spec fn log_line_spec(level: Seq<char>, message: Seq<char>, timestamp: Option<Seq<char>>, now: Seq<char>) -> Seq<char> {
    let ts = match timestamp {
        Some(t) => t,
        None => now,
    };
    seq!['['] + ts + "] ["@ + level_spec(level) + "] "@ + escape_newlines(truncated_spec(message))
        + seq!['\n']
}

/// The line written for one entry.
pub fn log_line(level: &str, message: String, timestamp: Option<&str>, now: &str) -> (r: String)
    requires
        encode_utf8(message@).len() <= MAX_MESSAGE_LEN || is_char_boundary(
            encode_utf8(message@),
            MAX_MESSAGE_LEN as int,
        ),
    ensures
        r@ == log_line_spec(
            level@,
            message@,
            match timestamp {
                Some(t) => Some(t@),
                None => None,
            },
            now@,
        ),
{
    let lvl = sanitize_level(level);
    let msg = truncate_message(message);
    let mut out: Vec<char> = Vec::new();
    out.push('[');
    match timestamp {
        Some(t) => append_str(&mut out, t),
        None => append_str(&mut out, now),
    }
    append_str(&mut out, "] [");
    append_str(&mut out, lvl);
    append_str(&mut out, "] ");
    let m = chars_of(msg.as_str());
    let ghost start = out@;
    let mut i: usize = 0;
    while i < m.len()
        invariant
            i <= m.len(),
            out@ == start + escape_newlines(m@.take(i as int)),
        decreases m.len() - i,
    {
        if m[i] == '\n' {
            out.push('\\');
            out.push('n');
        } else {
            out.push(m[i]);
        }
        proof {
            assert(m@.take(i + 1).drop_last() =~= m@.take(i as int));
            assert(out@ =~= start + escape_newlines(m@.take(i + 1)));
        }
        i += 1;
    }
    proof {
        assert(m@.take(i as int) =~= m@);
    }
    out.push('\n');
    let ghost ts = match timestamp {
        Some(t) => t@,
        None => now@,
    };
    assert(out@ =~= seq!['['] + ts + "] ["@ + level_spec(level@) + "] "@ + escape_newlines(
        truncated_spec(message@),
    ) + seq!['\n']);
    string_from(&out)
}

/// The error answer for a batch of `count` entries, or `None` where the
/// batch may be written: it must hold at least one and at most
/// `MAX_ENTRIES` entries.
pub fn check_batch(count: usize) -> (r: Option<HttpResponse>)
    ensures
        count == 0 ==> (r matches Some(resp) && resp.status == BAD_REQUEST && resp.body@
            == "{\"error\":\""@ + crate::response_helpers::json_escape("logs must be non-empty"@)
            + "\"}"@),
        count > MAX_ENTRIES ==> (r matches Some(resp) && resp.status == PAYLOAD_TOO_LARGE
            && resp.body@ == "{\"error\":\""@ + crate::response_helpers::json_escape(
            "too many log entries"@,
        ) + "\"}"@),
        0 < count <= MAX_ENTRIES ==> r is None,
{
    if count == 0 {
        Some(json_error(BAD_REQUEST, "logs must be non-empty"))
    } else if count > MAX_ENTRIES {
        Some(json_error(PAYLOAD_TOO_LARGE, "too many log entries"))
    } else {
        None
    }
}

/// The answer after a batch was written.
pub fn logs_written() -> (r: HttpResponse)
    ensures
        r.status == OK,
        r.body@ == "{\"success\":true}"@,
{
    json_raw(OK, "{\"success\":true}".to_string())
}

/// Escaped text holds no newline.
pub proof fn lemma_escaped_has_no_newline(s: Seq<char>)
    ensures
        forall|k: int| 0 <= k < escape_newlines(s).len() ==> escape_newlines(s)[k] != '\n',
    decreases s.len(),
{
    if s.len() > 0 {
        lemma_escape_newlines_prefix(s);
        lemma_escaped_has_no_newline(s.drop_last());
    }
}

/// The escape of `s` is that of `s` without its last character, then the
/// last character's own escape.
proof fn lemma_escape_newlines_prefix(s: Seq<char>)
    requires
        s.len() > 0,
    ensures
        escape_newlines(s) == escape_newlines(s.drop_last()) + if s.last() == '\n' {
            seq!['\\', 'n']
        } else {
            seq![s.last()]
        },
{
}

/// Each entry is written as exactly one line: the only newline of its line
/// is the last character.
pub proof fn lemma_one_line_per_entry(level: Seq<char>, message: Seq<char>, timestamp: Option<Seq<char>>, now: Seq<char>)
    requires
        forall|k: int| 0 <= k < now.len() ==> now[k] != '\n',
        timestamp matches Some(t) ==> forall|k: int| 0 <= k < t.len() ==> t[k] != '\n',
    ensures
        log_line_spec(level, message, timestamp, now).last() == '\n',
        forall|k: int|
            0 <= k < log_line_spec(level, message, timestamp, now).len() - 1 ==> log_line_spec(
                level,
                message,
                timestamp,
                now,
            )[k] != '\n',
{
    let ts = match timestamp {
        Some(t) => t,
        None => now,
    };
    let lvl = level_spec(level);
    let body = escape_newlines(truncated_spec(message));
    lemma_escaped_has_no_newline(truncated_spec(message));
    reveal_strlit("] [");
    reveal_strlit("] ");
    reveal_strlit("INFO");
    reveal_strlit("WARN");
    reveal_strlit("ERROR");
    reveal_strlit("DEBUG");
    let head = seq!['['] + ts + "] ["@ + lvl + "] "@;
    assert forall|k: int| 0 <= k < head.len() implies head[k] != '\n' by {
        if k == 0 {
        } else if k < 1 + ts.len() {
            assert(head[k] == ts[k - 1]);
        } else if k < 1 + ts.len() + 3 {
            assert(head[k] == "] ["@[k - 1 - ts.len()]);
        } else if k < 1 + ts.len() + 3 + lvl.len() {
            assert(head[k] == lvl[k - 4 - ts.len()]);
        } else {
            assert(head[k] == "] "@[k - 4 - ts.len() - lvl.len()]);
        }
    }
    let line = log_line_spec(level, message, timestamp, now);
    assert(line =~= head + body + seq!['\n']);
    assert forall|k: int| 0 <= k < line.len() - 1 implies line[k] != '\n' by {
        if k < head.len() {
            assert(line[k] == head[k]);
        } else {
            assert(line[k] == body[k - head.len()]);
        }
    }
}

} // verus!
