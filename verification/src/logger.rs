//! The per-conversation log files: where each conversation logs, and the
//! line written for each message.

use vstd::prelude::*;
use crate::text::{append_str, chars_of, replace_all, replace_all_exec, string_from};

verus! {

/// The directory of the conversation logs.
pub open spec fn log_dir() -> Seq<char> {
    "logs/conversations"@
}

/// The log file of a conversation: the id with every `.txt` taken out, in
/// the logs directory.
pub open spec fn log_file_spec(conversation_id: Seq<char>) -> Seq<char> {
    log_dir() + "/"@ + replace_all(conversation_id, ".txt"@, Seq::empty()) + ".log"@
}

/// The log file of a conversation.
pub fn log_file_path(conversation_id: &str) -> (r: String)
    ensures
        r@ == log_file_spec(conversation_id@),
{
    proof {
        reveal_strlit(".txt");
        reveal_strlit("");
        assert(""@ =~= Seq::<char>::empty());
    }
    let id = replace_all_exec(conversation_id, ".txt", "");
    let mut v = chars_of("logs/conversations");
    append_str(&mut v, "/");
    append_str(&mut v, id.as_str());
    append_str(&mut v, ".log");
    string_from(&v)
}

/// A log line: `[<time>] [<level>] <message>` and a newline.
pub fn log_line(timestamp: &str, level: &str, message: &str) -> (r: String)
    ensures
        r@ == "["@ + timestamp@ + "] ["@ + level@ + "] "@ + message@ + "\n"@,
{
    let mut v = chars_of("[");
    append_str(&mut v, timestamp);
    append_str(&mut v, "] [");
    append_str(&mut v, level);
    append_str(&mut v, "] ");
    append_str(&mut v, message);
    append_str(&mut v, "\n");
    string_from(&v)
}

/// The levels messages are logged at.
pub enum Level {
    Debug,
    Info,
    Warn,
    Error,
}

/// The name a level is written with.
pub fn level_name(level: &Level) -> (r: &'static str)
    ensures
        r@ == match level {
            Level::Debug => "DEBUG"@,
            Level::Info => "INFO"@,
            Level::Warn => "WARN"@,
            Level::Error => "ERROR"@,
        },
{
    match level {
        Level::Debug => "DEBUG",
        Level::Info => "INFO",
        Level::Warn => "WARN",
        Level::Error => "ERROR",
    }
}

} // verus!
