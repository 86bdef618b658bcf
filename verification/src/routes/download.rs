//! Model file downloads from the hub: the request sent, whether an
//! interrupted download resumes, when progress is saved, and the events
//! streamed to the browser.

use vstd::prelude::*;
use crate::json::{lemma_object_of, members_view, Json, JsonValue};
use crate::text::{append_str, chars_of, decimal, parse_u64, parse_u64_spec, push_decimal, slices_equal, string_from, u64_text};

verus! {

/// Bytes downloaded between two saves of the progress.
pub const CHECKPOINT_INTERVAL: u64 = 5 * 1024 * 1024;

/// The `Range` header asking for the rest of a file from `resume_offset`
/// (none when starting from the beginning).
pub fn range_header(resume_offset: u64) -> (r: Option<String>)
    ensures
        resume_offset == 0 ==> r is None,
        resume_offset > 0 ==> (r matches Some(h) && h@ == "bytes="@ + decimal(resume_offset as nat)
            + "-"@),
{
    if resume_offset == 0 {
        None
    } else {
        let mut v = chars_of("bytes=");
        push_decimal(&mut v, resume_offset);
        append_str(&mut v, "-");
        Some(string_from(&v))
    }
}

/// How a download goes on after the server answered.
pub struct ResumePlan {
    /// The partial file is stale and the download starts over.
    pub must_restart: bool,
    /// The offset from which the answer's bytes are written.
    pub actual_offset: u64,
    /// The size of the whole file, as far as it is known (0 where not).
    pub total: u64,
}

/// The content length a server reports: its header as a number, 0 where it
/// has none or it is not one.
pub open spec fn content_length_spec(header: Option<Seq<char>>) -> u64 {
    match header {
        Some(h) => match parse_u64_spec(h) {
            Some(n) => n,
            None => 0,
        },
        None => 0,
    }
}

/// The download restarts when a partial answer (status 206) comes with an
/// entity tag other than the one stored, or when a full answer comes for a
/// request that asked for a range. It then writes from 0; otherwise from the
/// offset asked for. The total adds the offset to the length of a partial
/// answer that is used.
pub open spec fn resume_plan_spec(resume_offset: u64, status: u16, stored_etag: Option<Seq<char>>, server_etag: Option<Seq<char>>, content_length: u64) -> (bool, u64, int) {
    let partial = status == 206;
    let must_restart = if partial {
        match (stored_etag, server_etag) {
            (Some(a), Some(b)) => a != b,
            _ => false,
        }
    } else {
        resume_offset > 0
    };
    let actual_offset: u64 = if must_restart || !partial {
        0
    } else {
        resume_offset
    };
    let total: int = if partial && !must_restart {
        content_length + actual_offset
    } else {
        content_length as int
    };
    (must_restart, actual_offset, total)
}

/// The content length a server reports.
pub fn content_length(header: Option<&str>) -> (r: u64)
    ensures
        r == content_length_spec(
            match header {
                Some(h) => Some(h@),
                None => None,
            },
        ),
{
    match header {
        Some(h) => match parse_u64(&chars_of(h)) {
            Some(n) => n,
            None => 0,
        },
        None => 0,
    }
}

/// How the download goes on after the server answered with `status`. The
/// offset and the reported length must add up within 64 bits.
pub fn plan_resume(
    resume_offset: u64,
    status: u16,
    stored_etag: Option<&str>,
    server_etag: Option<&str>,
    content_length: u64,
) -> (r: ResumePlan)
    requires
        content_length + resume_offset <= u64::MAX,
    ensures
        (r.must_restart, r.actual_offset, r.total as int) == resume_plan_spec(
            resume_offset,
            status,
            match stored_etag {
                Some(e) => Some(e@),
                None => None,
            },
            match server_etag {
                Some(e) => Some(e@),
                None => None,
            },
            content_length,
        ),
{
    let partial = status == 206;
    let must_restart = if partial {
        match (stored_etag, server_etag) {
            (Some(a), Some(b)) => !slices_equal(&chars_of(a), &chars_of(b)),
            _ => false,
        }
    } else {
        resume_offset > 0
    };
    let actual_offset: u64 = if must_restart || !partial {
        0
    } else {
        resume_offset
    };
    let total: u64 = if partial && !must_restart {
        content_length + actual_offset
    } else {
        content_length
    };
    ResumePlan { must_restart, actual_offset, total }
}

/// Must the stored record take the server's entity tag: one that it sent
/// and that differs from the stored one?
pub fn etag_changed(stored_etag: Option<&str>, server_etag: Option<&str>) -> (r: bool)
    ensures
        r == (server_etag is Some && match (stored_etag, server_etag) {
            (Some(a), Some(b)) => a@ != b@,
            _ => true,
        }),
{
    match server_etag {
        Some(b) => match stored_etag {
            Some(a) => !slices_equal(&chars_of(a), &chars_of(b)),
            None => true,
        },
        None => false,
    }
}

/// The bytes written so far and those written when progress was last saved.
pub struct DownloadProgress {
    pub downloaded: u64,
    pub last_checkpoint: u64,
}

/// Count `n` more bytes written; returns whether progress is to be saved
/// now: when a record exists and at least `CHECKPOINT_INTERVAL` bytes came
/// since the last save.
pub fn record_chunk(p: &mut DownloadProgress, n: u64, has_record: bool) -> (save: bool)
    requires
        old(p).downloaded + n <= u64::MAX,
        old(p).last_checkpoint <= old(p).downloaded,
    ensures
        final(p).downloaded == old(p).downloaded + n,
        save == (has_record && final(p).downloaded - old(p).last_checkpoint >= CHECKPOINT_INTERVAL),
        save ==> final(p).last_checkpoint == final(p).downloaded,
        !save ==> final(p).last_checkpoint == old(p).last_checkpoint,
        final(p).last_checkpoint <= final(p).downloaded,
{
    p.downloaded = p.downloaded + n;
    if has_record && p.downloaded - p.last_checkpoint >= CHECKPOINT_INTERVAL {
        p.last_checkpoint = p.downloaded;
        true
    } else {
        false
    }
}

/// A progress event: `{"type": "progress", "bytes", "total", "speed_kbps"}`.
pub open spec fn progress_json(bytes: u64, total: u64, speed_kbps: u64) -> Json {
    Json::Object(
        seq![
            ("type"@, Json::Str("progress"@)),
            ("bytes"@, Json::Number(decimal(bytes as nat))),
            ("total"@, Json::Number(decimal(total as nat))),
            ("speed_kbps"@, Json::Number(decimal(speed_kbps as nat))),
        ],
    )
}

/// A progress event.
pub fn progress_event(bytes: u64, total: u64, speed_kbps: u64) -> (r: JsonValue)
    ensures
        r@ == progress_json(bytes, total, speed_kbps),
{
    let mut ms: Vec<(String, JsonValue)> = Vec::new();
    ms.push(("type".to_string(), JsonValue::Str("progress".to_string())));
    ms.push(("bytes".to_string(), JsonValue::Number(u64_text(bytes))));
    ms.push(("total".to_string(), JsonValue::Number(u64_text(total))));
    ms.push(("speed_kbps".to_string(), JsonValue::Number(u64_text(speed_kbps))));
    proof {
        lemma_object_of(ms);
        assert(members_view(ms@) =~= seq![
            ("type"@, Json::Str("progress"@)),
            ("bytes"@, Json::Number(decimal(bytes as nat))),
            ("total"@, Json::Number(decimal(total as nat))),
            ("speed_kbps"@, Json::Number(decimal(speed_kbps as nat))),
        ]);
    }
    JsonValue::Object(ms)
}

/// An error event: `{"type": "error", "message"}`.
pub fn error_event(message: String) -> (r: JsonValue)
    ensures
        r@ == Json::Object(seq![("type"@, Json::Str("error"@)), ("message"@, Json::Str(message@))]),
{
    let ghost m = message@;
    let mut ms: Vec<(String, JsonValue)> = Vec::new();
    ms.push(("type".to_string(), JsonValue::Str("error".to_string())));
    ms.push(("message".to_string(), JsonValue::Str(message)));
    proof {
        lemma_object_of(ms);
        assert(members_view(ms@) =~= seq![("type"@, Json::Str("error"@)), ("message"@, Json::Str(m))]);
    }
    JsonValue::Object(ms)
}

/// The event for a finished download: `{"type": "done", "path", "bytes"}`.
pub fn done_event(path: &str, bytes: u64) -> (r: JsonValue)
    ensures
        r@ == Json::Object(
            seq![
                ("type"@, Json::Str("done"@)),
                ("path"@, Json::Str(path@)),
                ("bytes"@, Json::Number(decimal(bytes as nat))),
            ],
        ),
{
    let mut ms: Vec<(String, JsonValue)> = Vec::new();
    ms.push(("type".to_string(), JsonValue::Str("done".to_string())));
    ms.push(("path".to_string(), JsonValue::Str(path.to_string())));
    ms.push(("bytes".to_string(), JsonValue::Number(u64_text(bytes))));
    proof {
        lemma_object_of(ms);
        assert(members_view(ms@) =~= seq![
            ("type"@, Json::Str("done"@)),
            ("path"@, Json::Str(path@)),
            ("bytes"@, Json::Number(decimal(bytes as nat))),
        ]);
    }
    JsonValue::Object(ms)
}

/// The server-sent event line that carries a JSON event.
pub fn sse_frame(event_json: &str) -> (r: String)
    ensures
        r@ == "data: "@ + event_json@ + "\n\n"@,
{
    let mut v = chars_of("data: ");
    append_str(&mut v, event_json);
    append_str(&mut v, "\n\n");
    string_from(&v)
}

/// The address of a file of a hub model, the file name URL-encoded.
pub fn download_url(model_id: &str, filename: &str) -> (r: String)
    ensures
        r@ == "https://huggingface.co/"@ + model_id@ + "/resolve/main/"@ + crate::routes::hub::url_encode(
            filename@,
        ),
{
    let mut v = chars_of("https://huggingface.co/");
    append_str(&mut v, model_id);
    append_str(&mut v, "/resolve/main/");
    append_str(&mut v, crate::routes::hub::encode_url_text(filename).as_str());
    string_from(&v)
}

/// The name of the partial file of a download.
pub fn part_file_name(name: &str) -> (r: String)
    ensures
        r@ == name@ + ".part"@,
{
    let mut v = chars_of(name);
    append_str(&mut v, ".part");
    string_from(&v)
}

/// A download resumes: when the server sends the rest of the file (206)
/// with the same entity tag, or without one on either side, the bytes are
/// written after those already there, and the total counts both.
pub proof fn lemma_resume_continues(resume_offset: u64, etag: Option<Seq<char>>, content_length: u64)
    requires
        content_length + resume_offset <= u64::MAX,
    ensures
        resume_plan_spec(resume_offset, 206, etag, etag, content_length) == (
            false,
            resume_offset,
            content_length + resume_offset,
        ),
        resume_plan_spec(resume_offset, 200, etag, etag, content_length) == (
            resume_offset > 0,
            0u64,
            content_length as int,
        ),
{
}

} // verus!
