//! The web search tool: which search engine a request goes to, the
//! requests made, and the text written from what each engine answered
//! (Brave's API, DuckDuckGo's instant answers, DuckDuckGo's result page).

use vstd::prelude::*;
use vstd::utf8::{encode_utf8, is_char_boundary};
use crate::html_scan::{
    captures_all, decode_entities, decode_entities_exec, group_text, group_text_exec, groups_view,
    regex_captures, strip_tags, strip_tags_exec,
};
use crate::json::{array_items, json_as_str, json_get, json_get_str, lemma_array_view, Json, JsonValue};
use crate::routes::hub::{encode_url_text, url_encode};
use crate::routes::tools::str_arg;
use crate::web_fetch::{html_to_text, plain_text_of};
use crate::request::{split_chars, split_on};
use crate::text::{
    append_chars, append_str, boundary_at_or_before, byte_len, byte_prefix, last_boundary, chars_of, decimal, prefix_bytes, push_decimal,
    string_from, trim, trim_exec, contains, contains_exec, find, first_index, slice_of, starts_with,
    to_lowercase, unicode_lowercase,
};

verus! {

/// Search result text is cut to this many bytes.
pub const MAX_SEARCH_RESULT_CHARS: usize = 8000;

/// Can search output be cut to `MAX_SEARCH_RESULT_CHARS` bytes where it is
/// longer (the cut must fall between two characters, as `String::truncate`
/// demands)?
pub open spec fn cap_ok(s: Seq<char>) -> bool {
    encode_utf8(s).len() <= MAX_SEARCH_RESULT_CHARS || is_char_boundary(
        encode_utf8(s),
        MAX_SEARCH_RESULT_CHARS as int,
    )
}

/// Search output cut to `MAX_SEARCH_RESULT_CHARS` bytes, with a note, where
/// it is longer.
pub open spec fn capped(s: Seq<char>) -> Seq<char> {
    if encode_utf8(s).len() > MAX_SEARCH_RESULT_CHARS {
        byte_prefix(s, MAX_SEARCH_RESULT_CHARS as nat) + "\n...[truncated]"@
    } else {
        s
    }
}

/// Cut search output to `MAX_SEARCH_RESULT_CHARS` bytes.
pub fn cap_output(s: String) -> (r: String)
    requires
        cap_ok(s@),
    ensures
        r@ == capped(s@),
{
    if byte_len(s.as_str()) > MAX_SEARCH_RESULT_CHARS {
        let mut v = chars_of(prefix_bytes(s.as_str(), MAX_SEARCH_RESULT_CHARS).as_str());
        append_str(&mut v, "\n...[truncated]");
        string_from(&v)
    } else {
        s
    }
}

/// Can `s` be cut as search output is?
pub fn cap_ok_exec(s: &str) -> (r: bool)
    ensures
        r == cap_ok(s@),
{
    byte_len(s) <= MAX_SEARCH_RESULT_CHARS || s.is_char_boundary(MAX_SEARCH_RESULT_CHARS)
}

/// The items of array member `key` (none where it is missing or not an array).
pub open spec fn array_member(j: Json, key: Seq<char>) -> Seq<Json> {
    match json_get(j, key) {
        Some(v) => array_items(v),
        None => Seq::empty(),
    }
}

/// The items of array member `key`, where it is an array.
fn array_member_ref<'a>(j: &'a JsonValue, key: &str) -> (r: Option<&'a Vec<JsonValue>>)
    ensures
        match r {
            Some(v) => v@.map_values(|x: JsonValue| x@) == array_member(j@, key@),
            None => array_member(j@, key@) == Seq::<Json>::empty(),
        },
{
    match j.get(key) {
        Some(v) => match v {
            JsonValue::Array(items) => {
                proof {
                    lemma_array_view(*v);
                    assert(items@.map_values(|x: JsonValue| x@) =~= array_items(v@));
                }
                Some(items)
            },
            _ => None,
        },
        None => None,
    }
}

/// The items of array member `key` of member `outer` of `j`.
fn nested_array<'a>(j: &'a JsonValue, outer: &str, key: &str) -> (r: Option<&'a Vec<JsonValue>>)
    ensures
        match r {
            Some(v) => v@.map_values(|x: JsonValue| x@) == nested_array_spec(j@, outer@, key@),
            None => nested_array_spec(j@, outer@, key@) == Seq::<Json>::empty(),
        },
{
    match j.get(outer) {
        Some(w) => array_member_ref(w, key),
        None => None,
    }
}

/// The items of array member `key` of member `outer` of `j`.
pub open spec fn nested_array_spec(j: Json, outer: Seq<char>, key: Seq<char>) -> Seq<Json> {
    match json_get(j, outer) {
        Some(w) => array_member(w, key),
        None => Seq::empty(),
    }
}

/// A string member, `default` where it is missing or not a string.
fn str_member(j: &JsonValue, key: &str, default: &str) -> (r: String)
    ensures
        r@ == str_arg(j@, key@, default@),
{
    match j.get_str(key) {
        Some(s) => s,
        None => default.to_string(),
    }
}

/// A string member, trimmed.
fn trimmed_member(j: &JsonValue, key: &str) -> (r: Vec<char>)
    ensures
        r@ == trim(str_arg(j@, key@, Seq::empty())),
{
    let s = str_member(j, key, "");
    proof {
        reveal_strlit("");
        assert(""@ =~= Seq::<char>::empty());
    }
    trim_exec(&chars_of(s.as_str()))
}

/// The smaller of two counts.
pub open spec fn min_nat(a: nat, b: nat) -> nat {
    if a <= b {
        a
    } else {
        b
    }
}

// ---------------------------------------------------------------------------
// Brave
// ---------------------------------------------------------------------------

/// The text of an optional string.
pub open spec fn opt_text(s: Option<&str>) -> Option<Seq<char>> {
    match s {
        Some(t) => Some(t@),
        None => None,
    }
}

/// The Brave API key: the one configured, else the one from the
/// environment, each trimmed and only where not empty.
pub open spec fn brave_key(configured: Option<Seq<char>>, from_env: Option<Seq<char>>) -> Option<Seq<char>> {
    match configured {
        Some(k) if trim(k).len() > 0 => Some(trim(k)),
        _ => match from_env {
            Some(k) if trim(k).len() > 0 => Some(trim(k)),
            _ => None,
        },
    }
}

/// A key, trimmed, where it is not empty.
fn usable_key(k: Option<&str>) -> (r: Option<String>)
    ensures
        match k {
            Some(s) => if trim(s@).len() > 0 {
                r is Some && r->0@ == trim(s@)
            } else {
                r is None
            },
            None => r is None,
        },
{
    match k {
        Some(s) => {
            let t = trim_exec(&chars_of(s));
            if t.len() > 0 {
                Some(string_from(&t))
            } else {
                None
            }
        },
        None => None,
    }
}

/// The Brave API key.
pub fn brave_api_key(configured: Option<&str>, from_env: Option<&str>) -> (r: Option<String>)
    ensures
        match r {
            Some(k) => brave_key(opt_text(configured), opt_text(from_env)) == Some(k@),
            None => brave_key(opt_text(configured), opt_text(from_env)) is None,
        },
{
    match usable_key(configured) {
        Some(k) => Some(k),
        None => usable_key(from_env),
    }
}

/// The error when no Brave API key is set.
pub fn brave_key_missing() -> (r: String)
    ensures
        r@ == "Error: Brave API key is missing"@,
{
    "Error: Brave API key is missing".to_string()
}

/// The number of results asked of Brave: `max_results` kept within 1 to 20.
pub open spec fn brave_count(max_results: u64) -> u64 {
    if max_results < 1 {
        1
    } else if max_results > 20 {
        20
    } else {
        max_results
    }
}

/// The Brave search request.
pub fn brave_url(query: &str, max_results: u64) -> (r: String)
    ensures
        r@ == "https://api.search.brave.com/res/v1/web/search?q="@ + url_encode(query@) + "&count="@
            + decimal(brave_count(max_results) as nat),
{
    let count: u64 = if max_results < 1 {
        1
    } else if max_results > 20 {
        20
    } else {
        max_results
    };
    let mut v = chars_of("https://api.search.brave.com/res/v1/web/search?q=");
    append_str(&mut v, encode_url_text(query).as_str());
    append_str(&mut v, "&count=");
    push_decimal(&mut v, count);
    string_from(&v)
}

/// The entry for web result number `n`: its title (its address where it has
/// no title), address and description, each trimmed; nothing for a result
/// with neither title nor address.
pub open spec fn brave_entry(item: Json, n: nat) -> Seq<char> {
    let title = trim(str_arg(item, "title"@, Seq::empty()));
    let url = trim(str_arg(item, "url"@, Seq::empty()));
    let desc = trim(str_arg(item, "description"@, Seq::empty()));
    if title.len() == 0 && url.len() == 0 {
        Seq::empty()
    } else {
        decimal(n) + ". "@ + (if title.len() == 0 {
            url
        } else {
            title
        }) + "\n"@ + (if url.len() > 0 {
            "   URL: "@ + url + "\n"@
        } else {
            Seq::empty()
        }) + (if desc.len() > 0 {
            "   "@ + desc + "\n"@
        } else {
            Seq::empty()
        }) + "\n"@
    }
}

/// The entries of web results, numbered from 1 in order (a skipped result
/// keeps its number).
pub open spec fn brave_entries(items: Seq<Json>) -> Seq<char>
    decreases items.len(),
{
    if items.len() == 0 {
        Seq::empty()
    } else {
        brave_entries(items.drop_last()) + brave_entry(items.last(), items.len())
    }
}

/// The line for an image result: its title (`Image` where it has none) and
/// thumbnail, and its source page where known; nothing without a thumbnail.
pub open spec fn image_entry(item: Json) -> Seq<char> {
    let title = str_arg(item, "title"@, "Image"@);
    let thumb = match json_get(item, "thumbnail"@) {
        Some(t) => str_arg(t, "src"@, Seq::empty()),
        None => Seq::empty(),
    };
    let source = str_arg(item, "url"@, Seq::empty());
    if thumb.len() > 0 {
        "!["@ + title + "]("@ + thumb + ")\n"@ + if source.len() > 0 {
            "  Source: "@ + source + "\n"@
        } else {
            Seq::empty()
        }
    } else {
        Seq::empty()
    }
}

/// The lines for image results, in order.
pub open spec fn image_entries(items: Seq<Json>) -> Seq<char>
    decreases items.len(),
{
    if items.len() == 0 {
        Seq::empty()
    } else {
        image_entries(items.drop_last()) + image_entry(items.last())
    }
}

/// The body written from a Brave answer before it is cut: the first
/// `max_results` web results, then up to 5 image results.
pub open spec fn brave_body(payload: Json, max_results: nat) -> Seq<char> {
    let web = nested_array_spec(payload, "web"@, "results"@);
    let images = nested_array_spec(payload, "images"@, "results"@);
    brave_entries(web.take(min_nat(max_results, web.len()) as int)) + if images.len() > 0 {
        "\nImages ("@ + decimal(min_nat(5, images.len())) + " results):\n"@ + image_entries(
            images.take(min_nat(5, images.len()) as int),
        ) + "\n"@
    } else {
        Seq::empty()
    }
}

/// Does the Brave answer hold any web or image result?
pub open spec fn brave_has_results(payload: Json) -> bool {
    let web = nested_array_spec(payload, "web"@, "results"@);
    let images = nested_array_spec(payload, "images"@, "results"@);
    web.len() > 0 || images.len() > 0
}

/// The text of a Brave answer for `query`.
pub open spec fn brave_text(query: Seq<char>, payload: Json, max_results: nat) -> Seq<char> {
    if !brave_has_results(payload) {
        "Search results for '"@ + query + "' (via Brave):\n\n(no results)"@
    } else {
        "Search results for '"@ + query + "' (via Brave):\n\n"@ + capped(brave_body(payload, max_results))
    }
}

/// The entry for a web result.
fn push_brave_entry(out: &mut Vec<char>, item: &JsonValue, n: u64)
    ensures
        final(out)@ == old(out)@ + brave_entry(item@, n as nat),
{
    let title = trimmed_member(item, "title");
    let url = trimmed_member(item, "url");
    let desc = trimmed_member(item, "description");
    if title.len() == 0 && url.len() == 0 {
        assert(out@ =~= old(out)@ + brave_entry(item@, n as nat));
        return;
    }
    push_decimal(out, n);
    append_str(out, ". ");
    if title.len() == 0 {
        append_chars(out, &url);
    } else {
        append_chars(out, &title);
    }
    append_str(out, "\n");
    if url.len() > 0 {
        append_str(out, "   URL: ");
        append_chars(out, &url);
        append_str(out, "\n");
    }
    if desc.len() > 0 {
        append_str(out, "   ");
        append_chars(out, &desc);
        append_str(out, "\n");
    }
    append_str(out, "\n");
    assert(out@ =~= old(out)@ + brave_entry(item@, n as nat));
}

/// The line for an image result.
fn push_image_entry(out: &mut Vec<char>, item: &JsonValue)
    ensures
        final(out)@ == old(out)@ + image_entry(item@),
{
    let title = str_member(item, "title", "Image");
    let thumb = match item.get("thumbnail") {
        Some(t) => str_member(t, "src", ""),
        None => String::new(),
    };
    let source = str_member(item, "url", "");
    proof {
        reveal_strlit("");
        assert(""@ =~= Seq::<char>::empty());
    }
    if thumb.as_str().is_empty() {
        assert(out@ =~= old(out)@ + image_entry(item@));
        return;
    }
    append_str(out, "![");
    append_str(out, title.as_str());
    append_str(out, "](");
    append_str(out, thumb.as_str());
    append_str(out, ")\n");
    if !source.as_str().is_empty() {
        append_str(out, "  Source: ");
        append_str(out, source.as_str());
        append_str(out, "\n");
    }
    assert(out@ =~= old(out)@ + image_entry(item@));
}

/// The body written from a Brave answer before it is cut.
fn brave_body_exec(payload: &JsonValue, max_results: u64) -> (r: Vec<char>)
    ensures
        r@ == brave_body(payload@, max_results as nat),
{
    let empty: Vec<JsonValue> = Vec::new();
    assert(empty@.map_values(|x: JsonValue| x@) =~= Seq::<Json>::empty());
    let web: &Vec<JsonValue> = match nested_array(payload, "web", "results") {
        Some(v) => v,
        None => &empty,
    };
    let images: &Vec<JsonValue> = match nested_array(payload, "images", "results") {
        Some(v) => v,
        None => &empty,
    };
    let ghost wv = web@.map_values(|x: JsonValue| x@);
    let ghost iv = images@.map_values(|x: JsonValue| x@);
    let n_web: usize = if (max_results as u128) < (web.len() as u128) {
        max_results as usize
    } else {
        web.len()
    };
    let mut out: Vec<char> = Vec::new();
    let mut i: usize = 0;
    while i < n_web
        invariant
            i <= n_web <= web.len(),
            wv == web@.map_values(|x: JsonValue| x@),
            out@ == brave_entries(wv.take(i as int)),
        decreases n_web - i,
    {
        proof {
            assert(wv.take(i + 1).drop_last() =~= wv.take(i as int));
            assert(wv.take(i + 1).last() == web@[i as int]@);
        }
        push_brave_entry(&mut out, &web[i], (i + 1) as u64);
        i += 1;
    }
    assert(n_web == min_nat(max_results as nat, wv.len()));
    if images.len() > 0 {
        let n_img: usize = if images.len() < 5 {
            images.len()
        } else {
            5
        };
        let ghost head = out@;
        append_str(&mut out, "\nImages (");
        push_decimal(&mut out, n_img as u64);
        append_str(&mut out, " results):\n");
        let ghost mid = out@;
        let mut k: usize = 0;
        while k < n_img
            invariant
                k <= n_img <= images.len(),
                iv == images@.map_values(|x: JsonValue| x@),
                out@ == mid + image_entries(iv.take(k as int)),
            decreases n_img - k,
        {
            proof {
                assert(iv.take(k + 1).drop_last() =~= iv.take(k as int));
                assert(iv.take(k + 1).last() == images@[k as int]@);
            }
            push_image_entry(&mut out, &images[k]);
            assert(out@ =~= mid + image_entries(iv.take(k + 1)));
            k += 1;
        }
        append_str(&mut out, "\n");
        assert(n_img == min_nat(5, iv.len()));
        assert(out@ =~= brave_body(payload@, max_results as nat));
    } else {
        assert(out@ =~= brave_body(payload@, max_results as nat));
    }
    out
}

/// Does the Brave answer hold any result?
fn brave_has_results_exec(payload: &JsonValue) -> (r: bool)
    ensures
        r == brave_has_results(payload@),
{
    let web_n: usize = match nested_array(payload, "web", "results") {
        Some(v) => v.len(),
        None => 0,
    };
    let img_n: usize = match nested_array(payload, "images", "results") {
        Some(v) => v.len(),
        None => 0,
    };
    web_n > 0 || img_n > 0
}

/// Can the text of a Brave answer be written (its body cut where needed)?
pub open spec fn brave_text_ok(payload: Json, max_results: nat) -> bool {
    brave_has_results(payload) ==> cap_ok(brave_body(payload, max_results))
}

/// The text of a Brave answer for `query`. Where the body is longer than
/// the limit, the cut must fall between two characters.
pub fn brave_results_text(query: &str, payload: &JsonValue, max_results: u64) -> (r: String)
    requires
        brave_text_ok(payload@, max_results as nat),
    ensures
        r@ == brave_text(query@, payload@, max_results as nat),
{
    let mut v = chars_of("Search results for '");
    append_str(&mut v, query);
    if !brave_has_results_exec(payload) {
        append_str(&mut v, "' (via Brave):\n\n(no results)");
        return string_from(&v);
    }
    append_str(&mut v, "' (via Brave):\n\n");
    let body = cap_output(string_from(&brave_body_exec(payload, max_results)));
    append_str(&mut v, body.as_str());
    string_from(&v)
}


// ---------------------------------------------------------------------------
// DuckDuckGo instant answers
// ---------------------------------------------------------------------------

/// The instant answer request for `query`.
pub fn ddg_api_url(query: &str) -> (r: String)
    ensures
        r@ == "https://api.duckduckgo.com/?q="@ + url_encode(query@) + "&format=json&no_html=1&skip_disambig=1"@,
{
    let mut v = chars_of("https://api.duckduckgo.com/?q=");
    append_str(&mut v, encode_url_text(query).as_str());
    append_str(&mut v, "&format=json&no_html=1&skip_disambig=1");
    string_from(&v)
}

/// An image address of DuckDuckGo's: made absolute where it starts with `/`.
pub open spec fn ddg_image_url(u: Seq<char>) -> Seq<char> {
    if u.len() > 0 && u[0] == '/' {
        "https://duckduckgo.com"@ + u
    } else {
        u
    }
}

/// A string member, empty where it is missing or not a string.
pub open spec fn member_text(j: Json, key: Seq<char>) -> Seq<char> {
    str_arg(j, key, Seq::empty())
}

/// The address line of an entry, where it has an address.
pub open spec fn url_line(url: Seq<char>) -> Seq<char> {
    if url.len() > 0 {
        "   URL: "@ + url + "\n"@
    } else {
        Seq::empty()
    }
}

/// The image line of the abstract, where it has an image.
pub open spec fn abstract_image_line(heading: Seq<char>, image: Seq<char>) -> Seq<char> {
    if image.len() > 0 {
        "   !["@ + heading + "]("@ + ddg_image_url(image) + ")\n"@
    } else {
        Seq::empty()
    }
}

/// The abstract (usually from Wikipedia) as entry 1, where there is one.
pub open spec fn ddg_abstract(data: Json) -> Seq<char> {
    let text = member_text(data, "AbstractText"@);
    let heading = member_text(data, "Heading"@);
    if text.len() == 0 {
        Seq::empty()
    } else {
        "1. "@ + heading + "\n   Source: "@ + member_text(data, "AbstractSource"@) + "\n"@ + url_line(
            member_text(data, "AbstractURL"@),
        ) + "   "@ + text + "\n"@ + abstract_image_line(heading, member_text(data, "Image"@)) + "\n"@
    }
}

/// The direct answer as the next entry, numbered `n`, where there is one.
pub open spec fn ddg_answer(data: Json, n: nat) -> Seq<char> {
    let answer = member_text(data, "Answer"@);
    if answer.len() == 0 {
        Seq::empty()
    } else {
        decimal(n) + ". Direct Answer\n   "@ + answer + "\n\n"@
    }
}

/// The icon line of a related topic: its icon's address, made absolute,
/// unless it is empty or an `.ico` file.
pub open spec fn topic_icon(topic: Json) -> Seq<char> {
    let icon = match json_get(topic, "Icon"@) {
        Some(i) => json_get_str(i, "URL"@),
        None => None,
    };
    match icon {
        Some(u) if u.len() > 0 => {
            let full = ddg_image_url(u);
            if crate::text::ends_with(full, ".ico"@) {
                Seq::empty()
            } else {
                "   ![icon]("@ + full + ")\n"@
            }
        },
        _ => Seq::empty(),
    }
}

/// A related topic's own entry, numbered after `count`, where it has both a
/// text and an address; the count after it.
pub open spec fn topic_entry(topic: Json, count: nat) -> (nat, Seq<char>) {
    match (json_get_str(topic, "Text"@), json_get_str(topic, "FirstURL"@)) {
        (Some(text), Some(url)) => (
            count + 1,
            decimal(count + 1) + ". "@ + text + "\n   URL: "@ + url + "\n"@ + topic_icon(topic) + "\n"@,
        ),
        _ => (count, Seq::empty()),
    }
}

/// A grouped topic's entry, numbered after `count`, where it has both a text
/// and an address; the count after it.
pub open spec fn sub_entry(sub: Json, count: nat) -> (nat, Seq<char>) {
    match (json_get_str(sub, "Text"@), json_get_str(sub, "FirstURL"@)) {
        (Some(text), Some(url)) => (
            count + 1,
            decimal(count + 1) + ". "@ + text + "\n   URL: "@ + url + "\n\n"@,
        ),
        _ => (count, Seq::empty()),
    }
}

/// The entries of grouped topics until `max` entries are written; the
/// count after them.
pub open spec fn sub_entries(subs: Seq<Json>, count: nat, max: nat) -> (nat, Seq<char>)
    decreases subs.len(),
{
    if subs.len() == 0 || count >= max {
        (count, Seq::empty())
    } else {
        let (c1, t1) = sub_entry(subs[0], count);
        let (c2, t2) = sub_entries(subs.drop_first(), c1, max);
        (c2, t1 + t2)
    }
}

/// The entries of related topics, each followed by its grouped topics,
/// until `max` entries are written; the count after them.
pub open spec fn topic_entries(topics: Seq<Json>, count: nat, max: nat) -> (nat, Seq<char>)
    decreases topics.len(),
{
    if topics.len() == 0 || count >= max {
        (count, Seq::empty())
    } else {
        let (c1, t1) = topic_entry(topics[0], count);
        let (c2, t2) = sub_entries(array_member(topics[0], "Topics"@), c1, max);
        let (c3, t3) = topic_entries(topics.drop_first(), c2, max);
        (c3, t1 + t2 + t3)
    }
}

/// The body written from an instant answer before it is cut.
pub open spec fn ddg_body(data: Json, max_results: nat) -> Seq<char> {
    let c0: nat = if member_text(data, "AbstractText"@).len() > 0 {
        1
    } else {
        0
    };
    let c1: nat = if member_text(data, "Answer"@).len() > 0 {
        c0 + 1
    } else {
        c0
    };
    ddg_abstract(data) + ddg_answer(data, c0 + 1) + topic_entries(
        array_member(data, "RelatedTopics"@),
        c1,
        max_results,
    ).1
}

/// The text of an instant answer for `query`; none where it gave nothing.
pub open spec fn ddg_api_text_spec(query: Seq<char>, data: Json, max_results: nat) -> Option<Seq<char>> {
    let body = ddg_body(data, max_results);
    if body.len() == 0 {
        None
    } else {
        Some(
            "Search results for '"@ + query + "' (via DuckDuckGo):\n\n"@ + capped(body)
                + "Note: These are knowledge-based results. Use web_fetch to read specific URLs for more detail."@,
        )
    }
}

/// A string member, empty where it is missing or not a string.
fn member_text_exec(j: &JsonValue, key: &str) -> (r: String)
    ensures
        r@ == member_text(j@, key@),
{
    let s = str_member(j, key, "");
    proof {
        reveal_strlit("");
        assert(""@ =~= Seq::<char>::empty());
    }
    s
}

/// An image address of DuckDuckGo's, made absolute.
fn push_ddg_image_url(out: &mut Vec<char>, u: &str)
    ensures
        final(out)@ == old(out)@ + ddg_image_url(u@),
{
    let cs = chars_of(u);
    if cs.len() > 0 && cs[0] == '/' {
        append_str(out, "https://duckduckgo.com");
    }
    append_str(out, u);
    assert(final(out)@ =~= old(out)@ + ddg_image_url(u@)) by {
        if cs.len() > 0 && cs@[0] == '/' {
        }
    }
}

/// The address line of an entry.
fn push_url_line(out: &mut Vec<char>, url: &str)
    ensures
        final(out)@ == old(out)@ + url_line(url@),
{
    if !url.is_empty() {
        append_str(out, "   URL: ");
        append_str(out, url);
        append_str(out, "\n");
    }
    assert(out@ =~= old(out)@ + url_line(url@));
}

/// The image line of the abstract.
fn push_abstract_image_line(out: &mut Vec<char>, heading: &str, image: &str)
    ensures
        final(out)@ == old(out)@ + abstract_image_line(heading@, image@),
{
    if !image.is_empty() {
        append_str(out, "   ![");
        append_str(out, heading);
        append_str(out, "](");
        push_ddg_image_url(out, image);
        append_str(out, ")\n");
    }
    assert(out@ =~= old(out)@ + abstract_image_line(heading@, image@));
}

/// The abstract entry.
fn push_ddg_abstract(out: &mut Vec<char>, data: &JsonValue)
    ensures
        final(out)@ == old(out)@ + ddg_abstract(data@),
{
    let text = member_text_exec(data, "AbstractText");
    if text.as_str().is_empty() {
        assert(out@ =~= old(out)@ + ddg_abstract(data@));
        return;
    }
    let url = member_text_exec(data, "AbstractURL");
    let source = member_text_exec(data, "AbstractSource");
    let heading = member_text_exec(data, "Heading");
    let image = member_text_exec(data, "Image");
    let mut v: Vec<char> = chars_of("1. ");
    append_str(&mut v, heading.as_str());
    append_str(&mut v, "\n   Source: ");
    append_str(&mut v, source.as_str());
    append_str(&mut v, "\n");
    push_url_line(&mut v, url.as_str());
    append_str(&mut v, "   ");
    append_str(&mut v, text.as_str());
    append_str(&mut v, "\n");
    push_abstract_image_line(&mut v, heading.as_str(), image.as_str());
    append_str(&mut v, "\n");
    assert(v@ =~= ddg_abstract(data@));
    append_chars(out, &v);
}

/// The icon line of a related topic.
fn push_topic_icon(out: &mut Vec<char>, topic: &JsonValue)
    ensures
        final(out)@ == old(out)@ + topic_icon(topic@),
{
    let icon: Option<String> = match topic.get("Icon") {
        Some(i) => i.get_str("URL"),
        None => None,
    };
    match icon {
        Some(u) => {
            if u.as_str().is_empty() {
                return;
            }
            let mut full: Vec<char> = Vec::new();
            push_ddg_image_url(&mut full, u.as_str());
            assert(full@ =~= ddg_image_url(u@));
            if crate::text::ends_with_exec(&full, &chars_of(".ico")) {
                return;
            }
            append_str(out, "   ![icon](");
            append_chars(out, &full);
            append_str(out, ")\n");
            assert(out@ =~= old(out)@ + topic_icon(topic@));
        },
        None => {},
    }
}

/// A related topic's own entry; returns the count after it.
fn push_topic_entry(out: &mut Vec<char>, topic: &JsonValue, count: u64) -> (r: u64)
    requires
        count < u64::MAX,
    ensures
        (r as nat, final(out)@) == (topic_entry(topic@, count as nat).0, old(out)@ + topic_entry(
            topic@,
            count as nat,
        ).1),
{
    match (topic.get_str("Text"), topic.get_str("FirstURL")) {
        (Some(text), Some(url)) => {
            let n = count + 1;
            push_decimal(out, n);
            append_str(out, ". ");
            append_str(out, text.as_str());
            append_str(out, "\n   URL: ");
            append_str(out, url.as_str());
            append_str(out, "\n");
            push_topic_icon(out, topic);
            append_str(out, "\n");
            assert(out@ =~= old(out)@ + topic_entry(topic@, count as nat).1);
            n
        },
        _ => {
            assert(out@ =~= old(out)@ + topic_entry(topic@, count as nat).1);
            count
        },
    }
}

/// A grouped topic's entry; returns the count after it.
fn push_sub_entry(out: &mut Vec<char>, sub: &JsonValue, count: u64) -> (r: u64)
    requires
        count < u64::MAX,
    ensures
        (r as nat, final(out)@) == (sub_entry(sub@, count as nat).0, old(out)@ + sub_entry(
            sub@,
            count as nat,
        ).1),
{
    match (sub.get_str("Text"), sub.get_str("FirstURL")) {
        (Some(text), Some(url)) => {
            let n = count + 1;
            push_decimal(out, n);
            append_str(out, ". ");
            append_str(out, text.as_str());
            append_str(out, "\n   URL: ");
            append_str(out, url.as_str());
            append_str(out, "\n\n");
            assert(out@ =~= old(out)@ + sub_entry(sub@, count as nat).1);
            n
        },
        _ => {
            assert(out@ =~= old(out)@ + sub_entry(sub@, count as nat).1);
            count
        },
    }
}

/// The entries of grouped topics; returns the count after them.
fn push_sub_entries(out: &mut Vec<char>, subs: &Vec<JsonValue>, count: u64, max: u64) -> (r: u64)
    ensures
        r as nat == sub_entries(subs@.map_values(|x: JsonValue| x@), count as nat, max as nat).0,
        final(out)@ == old(out)@ + sub_entries(subs@.map_values(|x: JsonValue| x@), count as nat, max as nat).1,
{
    let ghost sv = subs@.map_values(|x: JsonValue| x@);
    let ghost whole = sub_entries(sv, count as nat, max as nat);
    let ghost start = out@;
    let ghost mut acc: Seq<char> = Seq::empty();
    let mut c = count;
    let mut i: usize = 0;
    assert(sv.skip(0) =~= sv);
    assert(out@ =~= start + acc);
    while i < subs.len() && c < max
        invariant
            i <= subs.len(),
            sv == subs@.map_values(|x: JsonValue| x@),
            whole == sub_entries(sv, count as nat, max as nat),
            whole.0 == sub_entries(sv.skip(i as int), c as nat, max as nat).0,
            whole.1 == acc + sub_entries(sv.skip(i as int), c as nat, max as nat).1,
            out@ == start + acc,
        decreases subs.len() - i,
    {
        let ghost rest = sv.skip(i as int);
        proof {
            assert(rest[0] == subs@[i as int]@);
            assert(rest.drop_first() =~= sv.skip(i + 1));
        }
        let ghost step = sub_entry(rest[0], c as nat);
        c = push_sub_entry(out, &subs[i], c);
        proof {
            assert(acc + step.1 + sub_entries(sv.skip(i + 1), c as nat, max as nat).1 =~= acc + (step.1
                + sub_entries(sv.skip(i + 1), c as nat, max as nat).1));
            acc = acc + step.1;
            assert(out@ =~= start + acc);
        }
        i += 1;
    }
    proof {
        if i == subs.len() {
            assert(sv.skip(i as int) =~= Seq::<Json>::empty());
        }
        assert(acc + Seq::<char>::empty() =~= acc);
    }
    c
}

/// The entries of related topics; returns the count after them.
fn push_topic_entries(out: &mut Vec<char>, topics: &Vec<JsonValue>, count: u64, max: u64) -> (r: u64)
    ensures
        r as nat == topic_entries(topics@.map_values(|x: JsonValue| x@), count as nat, max as nat).0,
        final(out)@ == old(out)@ + topic_entries(topics@.map_values(|x: JsonValue| x@), count as nat, max as nat).1,
{
    let ghost tv = topics@.map_values(|x: JsonValue| x@);
    let ghost whole = topic_entries(tv, count as nat, max as nat);
    let ghost start = out@;
    let ghost mut acc: Seq<char> = Seq::empty();
    let mut c = count;
    let mut i: usize = 0;
    assert(tv.skip(0) =~= tv);
    assert(out@ =~= start + acc);
    while i < topics.len() && c < max
        invariant
            i <= topics.len(),
            tv == topics@.map_values(|x: JsonValue| x@),
            whole == topic_entries(tv, count as nat, max as nat),
            whole.0 == topic_entries(tv.skip(i as int), c as nat, max as nat).0,
            whole.1 == acc + topic_entries(tv.skip(i as int), c as nat, max as nat).1,
            out@ == start + acc,
        decreases topics.len() - i,
    {
        let ghost rest = tv.skip(i as int);
        proof {
            assert(rest[0] == topics@[i as int]@);
            assert(rest.drop_first() =~= tv.skip(i + 1));
        }
        let ghost first = topic_entry(rest[0], c as nat);
        c = push_topic_entry(out, &topics[i], c);
        let ghost second = sub_entries(array_member(rest[0], "Topics"@), c as nat, max as nat);
        let empty: Vec<JsonValue> = Vec::new();
        assert(empty@.map_values(|x: JsonValue| x@) =~= Seq::<Json>::empty());
        let subs: &Vec<JsonValue> = match array_member_ref(&topics[i], "Topics") {
            Some(v) => v,
            None => &empty,
        };
        c = push_sub_entries(out, subs, c, max);
        proof {
            assert(acc + first.1 + second.1 + topic_entries(tv.skip(i + 1), c as nat, max as nat).1 =~= acc
                + (first.1 + second.1 + topic_entries(tv.skip(i + 1), c as nat, max as nat).1));
            acc = acc + first.1 + second.1;
            assert(out@ =~= start + acc);
        }
        i += 1;
    }
    proof {
        if i == topics.len() {
            assert(tv.skip(i as int) =~= Seq::<Json>::empty());
        }
        assert(acc + Seq::<char>::empty() =~= acc);
    }
    c
}

/// The body written from an instant answer before it is cut.
fn ddg_body_exec(data: &JsonValue, max_results: u64) -> (r: Vec<char>)
    ensures
        r@ == ddg_body(data@, max_results as nat),
{
    let mut out: Vec<char> = Vec::new();
    push_ddg_abstract(&mut out, data);
    let c0: u64 = if member_text_exec(data, "AbstractText").as_str().is_empty() {
        0
    } else {
        1
    };
    let answer = member_text_exec(data, "Answer");
    let mut c: u64 = c0;
    if !answer.as_str().is_empty() {
        c = c0 + 1;
        push_decimal(&mut out, c);
        append_str(&mut out, ". Direct Answer\n   ");
        append_str(&mut out, answer.as_str());
        append_str(&mut out, "\n\n");
    }
    let ghost head = out@;
    assert(head =~= ddg_abstract(data@) + ddg_answer(data@, c0 as nat + 1));
    let empty: Vec<JsonValue> = Vec::new();
    assert(empty@.map_values(|x: JsonValue| x@) =~= Seq::<Json>::empty());
    let topics: &Vec<JsonValue> = match array_member_ref(data, "RelatedTopics") {
        Some(v) => v,
        None => &empty,
    };
    push_topic_entries(&mut out, topics, c, max_results);
    assert(out@ =~= ddg_body(data@, max_results as nat));
    out
}

/// Can the text of an instant answer be written (its body cut where needed)?
pub open spec fn ddg_text_ok(data: Json, max_results: nat) -> bool {
    cap_ok(ddg_body(data, max_results))
}

/// The text of an instant answer for `query`; none where it gave nothing.
/// Where the body is longer than the limit, the cut must fall between two
/// characters.
pub fn ddg_api_text(query: &str, data: &JsonValue, max_results: u64) -> (r: Option<String>)
    requires
        ddg_text_ok(data@, max_results as nat),
    ensures
        match r {
            Some(t) => ddg_api_text_spec(query@, data@, max_results as nat) == Some(t@),
            None => ddg_api_text_spec(query@, data@, max_results as nat) is None,
        },
{
    let body = ddg_body_exec(data, max_results);
    if body.len() == 0 {
        return None;
    }
    let mut v = chars_of("Search results for '");
    append_str(&mut v, query);
    append_str(&mut v, "' (via DuckDuckGo):\n\n");
    append_str(&mut v, cap_output(string_from(&body)).as_str());
    append_str(
        &mut v,
        "Note: These are knowledge-based results. Use web_fetch to read specific URLs for more detail.",
    );
    Some(string_from(&v))
}


// ---------------------------------------------------------------------------
// DuckDuckGo result page
// ---------------------------------------------------------------------------

/// The pattern of a result link on DuckDuckGo's HTML page.
pub open spec fn result_link_pattern() -> Seq<char> {
    "(?s)class=\"result__a\"[^>]*href=\"([^\"]*)\"[^>]*>([^<]*)</a>"@
}

/// The pattern of a result snippet on DuckDuckGo's HTML page.
pub open spec fn result_snippet_pattern() -> Seq<char> {
    "(?s)class=\"result__snippet\"[^>]*>(.*?)</(?:a|td|div|span)"@
}

/// The first `max` matches of `pattern` in `html` (none where it does not compile).
pub open spec fn first_matches(pattern: Seq<char>, html: Seq<char>, max: nat) -> Seq<Seq<Option<Seq<char>>>> {
    match regex_captures(pattern, html) {
        Some(ms) => ms.take(min_nat(max, ms.len()) as int),
        None => Seq::empty(),
    }
}

/// A result's title: its link text, trimmed, entities written out.
pub open spec fn result_title(m: Seq<Option<Seq<char>>>) -> Seq<char> {
    decode_entities(trim(group_text(m, 2)))
}

/// A result's snippet: stripped of tags, trimmed, entities written out.
pub open spec fn result_snippet(m: Seq<Option<Seq<char>>>) -> Seq<char> {
    decode_entities(trim(strip_tags(group_text(m, 1))))
}

/// The snippet that goes with result `i` (empty where there is none).
pub open spec fn snippet_at(snippets: Seq<Seq<Option<Seq<char>>>>, i: int) -> Seq<char> {
    if 0 <= i < snippets.len() {
        result_snippet(snippets[i])
    } else {
        Seq::empty()
    }
}

/// The entry of result number `n`: title, address, snippet where there is one.
pub open spec fn result_entry(n: nat, link: Seq<Option<Seq<char>>>, snippet: Seq<char>) -> Seq<char> {
    decimal(n) + ". "@ + result_title(link) + "\n   URL: "@ + group_text(link, 1) + "\n"@ + (if snippet.len()
        > 0 {
        "   "@ + snippet + "\n"@
    } else {
        Seq::empty()
    }) + "\n"@
}

/// The entries of the results, numbered from 1, each with the snippet in
/// the same position.
pub open spec fn result_entries(links: Seq<Seq<Option<Seq<char>>>>, snippets: Seq<Seq<Option<Seq<char>>>>) -> Seq<char>
    decreases links.len(),
{
    if links.len() == 0 {
        Seq::empty()
    } else {
        result_entries(links.drop_last(), snippets) + result_entry(
            links.len(),
            links.last(),
            snippet_at(snippets, links.len() - 1),
        )
    }
}

/// The results of a DuckDuckGo page before they are cut: the first
/// `max_results` links, each with its snippet.
pub open spec fn ddg_results_body(html: Seq<char>, max_results: nat) -> Seq<char> {
    result_entries(
        first_matches(result_link_pattern(), html, max_results),
        first_matches(result_snippet_pattern(), html, max_results),
    )
}

/// The first `max` matches of a pattern.
fn first_matches_exec(pattern: &str, html: &str, max: u64) -> (r: Vec<Vec<Option<String>>>)
    ensures
        r@.map_values(|g: Vec<Option<String>>| groups_view(g)) == first_matches(pattern@, html@, max as nat),
{
    match captures_all(pattern, html) {
        Some(ms) => {
            let mut ms = ms;
            let ghost orig = ms@;
            if (max as u128) < (ms.len() as u128) {
                ms.truncate(max as usize);
            }
            proof {
                assert(ms@.map_values(|g: Vec<Option<String>>| groups_view(g)) =~= orig.map_values(
                    |g: Vec<Option<String>>| groups_view(g),
                ).take(min_nat(max as nat, orig.len()) as int));
            }
            ms
        },
        None => {
            let out: Vec<Vec<Option<String>>> = Vec::new();
            assert(out@.map_values(|g: Vec<Option<String>>| groups_view(g)) =~= Seq::<Seq<Option<Seq<char>>>>::empty());
            out
        },
    }
}



/// A result's title.
fn result_title_exec(m: &Vec<Option<String>>) -> (r: String)
    ensures
        r@ == result_title(groups_view(*m)),
{
    let t = trim_exec(&chars_of(group_text_exec(m, 2).as_str()));
    decode_entities_exec(string_from(&t).as_str())
}

/// A result's snippet.
fn result_snippet_exec(m: &Vec<Option<String>>) -> (r: String)
    ensures
        r@ == result_snippet(groups_view(*m)),
{
    let stripped = strip_tags_exec(group_text_exec(m, 1).as_str());
    let t = trim_exec(&chars_of(stripped.as_str()));
    decode_entities_exec(string_from(&t).as_str())
}

/// The entry of result number `n`.
fn push_result_entry(out: &mut Vec<char>, n: u64, link: &Vec<Option<String>>, snippet: &str)
    ensures
        final(out)@ == old(out)@ + result_entry(n as nat, groups_view(*link), snippet@),
{
    let title = result_title_exec(link);
    let href = group_text_exec(link, 1);
    push_decimal(out, n);
    append_str(out, ". ");
    append_str(out, title.as_str());
    append_str(out, "\n   URL: ");
    append_str(out, href.as_str());
    append_str(out, "\n");
    if !snippet.is_empty() {
        append_str(out, "   ");
        append_str(out, snippet);
        append_str(out, "\n");
    }
    append_str(out, "\n");
    assert(out@ =~= old(out)@ + result_entry(n as nat, groups_view(*link), snippet@));
}

/// The results of a DuckDuckGo page before they are cut.
fn ddg_results_body_exec(html: &str, max_results: u64) -> (r: Vec<char>)
    ensures
        r@ == ddg_results_body(html@, max_results as nat),
{
    let links = first_matches_exec(
        "(?s)class=\"result__a\"[^>]*href=\"([^\"]*)\"[^>]*>([^<]*)</a>",
        html,
        max_results,
    );
    let snippets = first_matches_exec(
        "(?s)class=\"result__snippet\"[^>]*>(.*?)</(?:a|td|div|span)",
        html,
        max_results,
    );
    let ghost lv = links@.map_values(|g: Vec<Option<String>>| groups_view(g));
    let ghost sv = snippets@.map_values(|g: Vec<Option<String>>| groups_view(g));
    let mut out: Vec<char> = Vec::new();
    let mut i: usize = 0;
    while i < links.len()
        invariant
            i <= links.len(),
            lv == links@.map_values(|g: Vec<Option<String>>| groups_view(g)),
            sv == snippets@.map_values(|g: Vec<Option<String>>| groups_view(g)),
            out@ == result_entries(lv.take(i as int), sv),
        decreases links.len() - i,
    {
        proof {
            assert(lv.take(i + 1).drop_last() =~= lv.take(i as int));
            assert(lv.take(i + 1).last() == groups_view(links@[i as int]));
        }
        let snippet = if i < snippets.len() {
            result_snippet_exec(&snippets[i])
        } else {
            String::new()
        };
        push_result_entry(&mut out, (i + 1) as u64, &links[i], snippet.as_str());
        proof {
            assert(snippet@ == snippet_at(sv, i as int));
        }
        i += 1;
    }
    assert(lv.take(links.len() as int) =~= lv);
    out
}

/// The results of a DuckDuckGo result page, cut to the limit (empty where
/// it has no result link). Where they are longer than the limit, the cut
/// must fall between two characters.
pub fn parse_ddg_results(html: &str, max_results: u64) -> (r: String)
    requires
        cap_ok(ddg_results_body(html@, max_results as nat)),
    ensures
        r@ == capped(ddg_results_body(html@, max_results as nat)),
{
    cap_output(string_from(&ddg_results_body_exec(html, max_results)))
}

/// The results of a DuckDuckGo result page, or `None` where they are longer
/// than the limit and the cut would fall inside a character.
pub fn parse_ddg_results_checked(html: &str, max_results: u64) -> (r: Option<String>)
    ensures
        match r {
            Some(t) => cap_ok(ddg_results_body(html@, max_results as nat)) && t@ == capped(
                ddg_results_body(html@, max_results as nat),
            ),
            None => !cap_ok(ddg_results_body(html@, max_results as nat)),
        },
{
    let body = string_from(&ddg_results_body_exec(html, max_results));
    if cap_ok_exec(body.as_str()) {
        Some(parse_ddg_results(html, max_results))
    } else {
        None
    }
}

/// The page's text where no result could be read from it: `html2text`'s
/// text at 120 columns (empty where it fails), cut at the last character
/// boundary within the limit with a note of the sizes.
pub open spec fn page_text_fallback(html: Seq<char>) -> Seq<char> {
    let text = match plain_text_of(html, 120) {
        Some(t) => t,
        None => Seq::empty(),
    };
    if encode_utf8(text).len() > MAX_SEARCH_RESULT_CHARS {
        let end = last_boundary(encode_utf8(text), MAX_SEARCH_RESULT_CHARS as nat);
        byte_prefix(text, end) + "...\n[Truncated: first "@ + decimal(end) + " of "@ + decimal(
            encode_utf8(text).len(),
        ) + " chars]"@
    } else {
        text
    }
}

/// The answer of the DuckDuckGo result page search for `query`: the
/// results, or the page's text where there are none.
pub open spec fn scrape_answer_spec(query: Seq<char>, html: Seq<char>, max_results: nat) -> Seq<char> {
    let results = capped(ddg_results_body(html, max_results));
    "Search results for '"@ + query + "':\n\n"@ + if results.len() > 0 {
        results
    } else {
        page_text_fallback(html)
    }
}

/// The answer of the DuckDuckGo result page search for `query`, or `None`
/// where the results are longer than the limit and the cut would fall
/// inside a character.
pub fn scrape_answer(query: &str, html: &str, max_results: u64) -> (r: Option<String>)
    ensures
        match r {
            Some(t) => cap_ok(ddg_results_body(html@, max_results as nat)) && t@ == scrape_answer_spec(
                query@,
                html@,
                max_results as nat,
            ),
            None => !cap_ok(ddg_results_body(html@, max_results as nat)),
        },
{
    let results = match parse_ddg_results_checked(html, max_results) {
        Some(t) => t,
        None => return None,
    };
    let mut v = chars_of("Search results for '");
    append_str(&mut v, query);
    append_str(&mut v, "':\n\n");
    if !results.as_str().is_empty() {
        append_str(&mut v, results.as_str());
        return Some(string_from(&v));
    }
    let text = match html_to_text(html, 120) {
        Some(t) => t,
        None => String::new(),
    };
    let t = text.as_str();
    let n = byte_len(t);
    if n > MAX_SEARCH_RESULT_CHARS {
        let end = boundary_at_or_before(t, MAX_SEARCH_RESULT_CHARS);
        append_str(&mut v, prefix_bytes(t, end).as_str());
        append_str(&mut v, "...\n[Truncated: first ");
        push_decimal(&mut v, end as u64);
        append_str(&mut v, " of ");
        push_decimal(&mut v, n as u64);
        append_str(&mut v, " chars]");
    } else {
        append_str(&mut v, t);
    }
    Some(string_from(&v))
}

/// The DuckDuckGo result page request for `query`.
pub fn scrape_url(query: &str) -> (r: String)
    ensures
        r@ == "https://html.duckduckgo.com/html/?q="@ + url_encode(query@),
{
    let mut v = chars_of("https://html.duckduckgo.com/html/?q=");
    append_str(&mut v, encode_url_text(query).as_str());
    string_from(&v)
}

// ---------------------------------------------------------------------------
// Choosing the engine
// ---------------------------------------------------------------------------

/// Where a search goes.
pub enum SearchPlan {
    /// Answer at once.
    Reply { text: String },
    /// Brave's API; on an error that does not name a missing key, the
    /// DuckDuckGo result page.
    Brave { query: String, max_results: u64 },
    /// Google through the browser.
    Google { query: String, max_results: u64 },
    /// The DuckDuckGo result page.
    Scrape { query: String, max_results: u64 },
    /// DuckDuckGo's instant answers, then its result page where they give nothing.
    Instant { query: String, max_results: u64 },
}

/// The mathematical form of a plan.
pub enum PlanSpec {
    Reply(Seq<char>),
    Brave(Seq<char>, u64),
    Google(Seq<char>, u64),
    Scrape(Seq<char>, u64),
    Instant(Seq<char>, u64),
}

/// The view of a plan.
pub open spec fn plan_view(p: SearchPlan) -> PlanSpec {
    match p {
        SearchPlan::Reply { text } => PlanSpec::Reply(text@),
        SearchPlan::Brave { query, max_results } => PlanSpec::Brave(query@, max_results),
        SearchPlan::Google { query, max_results } => PlanSpec::Google(query@, max_results),
        SearchPlan::Scrape { query, max_results } => PlanSpec::Scrape(query@, max_results),
        SearchPlan::Instant { query, max_results } => PlanSpec::Instant(query@, max_results),
    }
}

/// Where a search with `args` goes for the configured `provider`: no query
/// gives an error; `Brave` and `Google` choose their engine, `Camofox`
/// (whose own path shows pages, so that here the result page serves) the
/// DuckDuckGo result page; any other provider, or none, DuckDuckGo's instant
/// answers. At most `max_results` results (20 where not given).
pub open spec fn search_plan_spec(args: Json, provider: Option<Seq<char>>) -> PlanSpec {
    match json_get_str(args, "query"@) {
        None => PlanSpec::Reply("Error: 'query' argument is required"@),
        Some(q) => {
            let max: u64 = match json_get(args, "max_results"@) {
                Some(v) => match crate::json::json_as_u64(v) {
                    Some(n) => n,
                    None => 20,
                },
                None => 20,
            };
            match provider {
                Some(p) => if p == "Brave"@ {
                    PlanSpec::Brave(q, max)
                } else if p == "Google"@ {
                    PlanSpec::Google(q, max)
                } else if p == "Camofox"@ {
                    PlanSpec::Scrape(q, max)
                } else {
                    PlanSpec::Instant(q, max)
                },
                None => PlanSpec::Instant(q, max),
            }
        },
    }
}

/// The query a plan searches for; `None` for an error reply.
pub open spec fn plan_query(p: PlanSpec) -> Option<Seq<char>> {
    match p {
        PlanSpec::Reply(_) => None,
        PlanSpec::Brave(q, _) => Some(q),
        PlanSpec::Google(q, _) => Some(q),
        PlanSpec::Scrape(q, _) => Some(q),
        PlanSpec::Instant(q, _) => Some(q),
    }
}

/// How many results a plan asks for; `None` for an error reply.
pub open spec fn plan_count(p: PlanSpec) -> Option<u64> {
    match p {
        PlanSpec::Reply(_) => None,
        PlanSpec::Brave(_, n) => Some(n),
        PlanSpec::Google(_, n) => Some(n),
        PlanSpec::Scrape(_, n) => Some(n),
        PlanSpec::Instant(_, n) => Some(n),
    }
}

/// A search without a string `query` is answered with the error reply, for
/// every provider.
pub proof fn lemma_plan_without_query(args: Json, provider: Option<Seq<char>>)
    requires
        json_get_str(args, "query"@) is None,
    ensures
        search_plan_spec(args, provider) == PlanSpec::Reply("Error: 'query' argument is required"@),
{
}

/// A search with a string `query` goes to an engine, for every provider, and
/// that engine searches for the query with the count asked for: `max_results`
/// where it is an unsigned integer.
pub proof fn lemma_plan_uses_requested_count(args: Json, provider: Option<Seq<char>>, q: Seq<char>, v: Json, n: u64)
    requires
        json_get_str(args, "query"@) == Some(q),
        json_get(args, "max_results"@) == Some(v),
        crate::json::json_as_u64(v) == Some(n),
    ensures
        plan_query(search_plan_spec(args, provider)) == Some(q),
        plan_count(search_plan_spec(args, provider)) == Some(n),
{
}

/// Without a `max_results` member a search asks for 20 results, for every
/// provider.
pub proof fn lemma_plan_default_count(args: Json, provider: Option<Seq<char>>, q: Seq<char>)
    requires
        json_get_str(args, "query"@) == Some(q),
        json_get(args, "max_results"@) is None,
    ensures
        plan_query(search_plan_spec(args, provider)) == Some(q),
        plan_count(search_plan_spec(args, provider)) == Some(20u64),
{
}

/// The provider chooses the engine and nothing else: two providers plan the
/// same query with the same count.
pub proof fn lemma_plan_provider_only_picks_engine(args: Json, p1: Option<Seq<char>>, p2: Option<Seq<char>>)
    ensures
        plan_query(search_plan_spec(args, p1)) == plan_query(search_plan_spec(args, p2)),
        plan_count(search_plan_spec(args, p1)) == plan_count(search_plan_spec(args, p2)),
{
}

/// With a query, the providers `Brave` and `Google` get their own engine,
/// `Camofox` the result page, and no provider the instant answers.
pub proof fn lemma_plan_engine_by_provider(args: Json, q: Seq<char>)
    requires
        json_get_str(args, "query"@) == Some(q),
    ensures
        search_plan_spec(args, Some("Brave"@)) is Brave,
        search_plan_spec(args, Some("Google"@)) is Google,
        search_plan_spec(args, Some("Camofox"@)) is Scrape,
        search_plan_spec(args, None) is Instant,
{
    reveal_strlit("Brave");
    reveal_strlit("Google");
    reveal_strlit("Camofox");
    assert("Google"@[0] != "Brave"@[0]);
    assert("Camofox"@[0] != "Brave"@[0]);
    assert("Camofox"@[0] != "Google"@[0]);
}

/// Where a search goes.
pub fn search_plan(args: &JsonValue, provider: Option<&str>) -> (r: SearchPlan)
    ensures
        plan_view(r) == search_plan_spec(args@, opt_text(provider)),
{
    let query = match args.get_str("query") {
        Some(q) => q,
        None => return SearchPlan::Reply { text: "Error: 'query' argument is required".to_string() },
    };
    let max_results: u64 = match args.get("max_results") {
        Some(v) => match v.as_u64() {
            Some(n) => n,
            None => 20,
        },
        None => 20,
    };
    match provider {
        Some(p) => {
            let pc = chars_of(p);
            if crate::text::slices_equal(&pc, &chars_of("Brave")) {
                SearchPlan::Brave { query, max_results }
            } else if crate::text::slices_equal(&pc, &chars_of("Google")) {
                SearchPlan::Google { query, max_results }
            } else if crate::text::slices_equal(&pc, &chars_of("Camofox")) {
                SearchPlan::Scrape { query, max_results }
            } else {
                SearchPlan::Instant { query, max_results }
            }
        },
        None => SearchPlan::Instant { query, max_results },
    }
}

/// What a failed Brave search answers: the error itself where it names a
/// missing key, else nothing (the search goes on at DuckDuckGo).
pub fn brave_failure_reply(error: &str) -> (r: Option<String>)
    ensures
        match r {
            Some(t) => crate::text::contains(error@, "missing"@) && t@ == "Error: "@ + error@,
            None => !crate::text::contains(error@, "missing"@),
        },
{
    if crate::text::contains_exec(&chars_of(error), &chars_of("missing")) {
        let mut v = chars_of("Error: ");
        append_str(&mut v, error);
        Some(string_from(&v))
    } else {
        None
    }
}

/// The instant answer where it gave text; nothing (the result page is
/// searched) where it gave none or an empty one.
pub fn usable_instant(answer: Option<String>) -> (r: Option<String>)
    ensures
        match answer {
            Some(t) => if t@.len() > 0 {
                r == Some(t)
            } else {
                r is None
            },
            None => r is None,
        },
{
    match answer {
        Some(t) => if t.as_str().is_empty() {
            None
        } else {
            Some(t)
        },
        None => None,
    }
}

/// An error answer of the search tool: `Error: <what>: <error>`.
pub fn search_error(what: &str, error: &str) -> (r: String)
    ensures
        r@ == "Error: "@ + what@ + ": "@ + error@,
{
    let mut v = chars_of("Error: ");
    append_str(&mut v, what);
    append_str(&mut v, ": ");
    append_str(&mut v, error);
    string_from(&v)
}

/// Can the text of a Brave answer be written?
pub fn brave_text_fits(payload: &JsonValue, max_results: u64) -> (r: bool)
    ensures
        r == brave_text_ok(payload@, max_results as nat),
{
    if !brave_has_results_exec(payload) {
        return true;
    }
    let body = string_from(&brave_body_exec(payload, max_results));
    cap_ok_exec(body.as_str())
}

/// Can the text of an instant answer be written?
pub fn ddg_text_fits(data: &JsonValue, max_results: u64) -> (r: bool)
    ensures
        r == ddg_text_ok(data@, max_results as nat),
{
    let body = string_from(&ddg_body_exec(data, max_results));
    cap_ok_exec(body.as_str())
}


// ---------------------------------------------------------------------------
// Google through the browser
// ---------------------------------------------------------------------------

/// The Google search page for `query`, with at most 10 results.
pub fn google_url(query: &str, max_results: u64) -> (r: String)
    ensures
        r@ == "https://www.google.com/search?q="@ + url_encode(query@) + "&num="@ + decimal(
            min_nat(max_results as nat, 10),
        ) + "&hl=en"@,
{
    let n: u64 = if max_results < 10 {
        max_results
    } else {
        10
    };
    let mut v = chars_of("https://www.google.com/search?q=");
    append_str(&mut v, encode_url_text(query).as_str());
    append_str(&mut v, "&num=");
    push_decimal(&mut v, n);
    append_str(&mut v, "&hl=en");
    string_from(&v)
}

/// Did Google answer with a page asking to prove a human is there (looked
/// for in the page's lower case)?
pub open spec fn google_blocked_spec(content: Seq<char>) -> bool {
    let lower = unicode_lowercase(content);
    contains(lower, "unusual traffic"@) || contains(lower, "captcha"@) || contains(
        lower,
        "please verify you are a human"@,
    )
}

/// Did Google answer with a page asking to prove a human is there?
pub fn google_blocked(content: &str) -> (r: bool)
    ensures
        r == google_blocked_spec(content@),
{
    let lower = chars_of(to_lowercase(content).as_str());
    contains_exec(&lower, &chars_of("unusual traffic")) || contains_exec(&lower, &chars_of("captcha"))
        || contains_exec(&lower, &chars_of("please verify you are a human"))
}

/// The lines of a text: its pieces between newlines, without the empty
/// piece after a final newline (as `str::lines` gives them; a `\r` before a
/// newline stays, and is trimmed with the line where lines are used).
pub open spec fn text_lines(s: Seq<char>) -> Seq<Seq<char>> {
    let parts = split_on(s, '\n');
    if parts.len() > 0 && parts.last().len() == 0 {
        parts.drop_last()
    } else {
        parts
    }
}

/// The title and address of a Markdown link `[title](http...)` in a
/// (trimmed) line: the title from the second character to the link's
/// middle, the address up to the next `)` or the end of the line.
pub open spec fn line_link(line: Seq<char>) -> Option<(Seq<char>, Seq<char>)> {
    match first_index(line, "](http"@) {
        Some(k) => {
            let rest = line.skip(k + 2);
            let url = match first_index(rest, ")"@) {
                Some(j) => rest.take(j),
                None => rest,
            };
            Some((line.subrange(1, k), url))
        },
        None => None,
    }
}

/// Can the link of a line be read (the slices fall between characters):
/// the link does not start the line, and the line starts with an ASCII
/// character.
pub open spec fn line_link_ok(line: Seq<char>) -> bool {
    match first_index(line, "](http"@) {
        Some(k) => k >= 1 && (line[0] as u32) < 128,
        None => true,
    }
}

/// Is a link a result: not Google's own, nor a cached page, with a title of
/// more than 3 bytes?
pub open spec fn is_result_link(title: Seq<char>, url: Seq<char>) -> bool {
    !contains(url, "google.com"@) && !contains(url, "webcache"@) && title.len() > 0 && encode_utf8(title).len()
        > 3
}

/// Is a (trimmed) line a snippet: not empty, not a link, over 20 bytes?
pub open spec fn is_snippet_line(line: Seq<char>) -> bool {
    line.len() > 0 && !starts_with(line, "["@) && !starts_with(line, "http"@) && encode_utf8(line).len() > 20
}

/// Is line `i + j` a snippet line?
pub open spec fn snippet_line_at(lines: Seq<Seq<char>>, i: int, j: int) -> bool {
    i + j < lines.len() && is_snippet_line(trim(lines[i + j]))
}

/// The snippet of the result on line `i`: the first of the next three lines
/// that is a snippet line, indented.
pub open spec fn snippet_after(lines: Seq<Seq<char>>, i: int) -> Seq<char> {
    if snippet_line_at(lines, i, 1) {
        "   "@ + trim(lines[i + 1]) + "\n"@
    } else if snippet_line_at(lines, i, 2) {
        "   "@ + trim(lines[i + 2]) + "\n"@
    } else if snippet_line_at(lines, i, 3) {
        "   "@ + trim(lines[i + 3]) + "\n"@
    } else {
        Seq::empty()
    }
}

/// The results read from the lines from `i` on, numbered after `count`,
/// until `max` are read; the count after them.
pub open spec fn google_scan(lines: Seq<Seq<char>>, i: int, count: nat, max: nat) -> (nat, Seq<char>)
    decreases lines.len() - i,
{
    if i < 0 || i >= lines.len() || count >= max {
        (count, Seq::empty())
    } else {
        match line_link(trim(lines[i])) {
            Some((title, url)) => if is_result_link(title, url) {
                let entry = decimal(count + 1) + ". "@ + title + "\n   URL: "@ + url + "\n"@ + snippet_after(
                    lines,
                    i,
                ) + "\n"@;
                let (c2, rest) = google_scan(lines, i + 1, count + 1, max);
                (c2, entry + rest)
            } else {
                google_scan(lines, i + 1, count, max)
            },
            None => google_scan(lines, i + 1, count, max),
        }
    }
}

/// Can every line the scan reads have its link read?
pub open spec fn google_scan_ok(lines: Seq<Seq<char>>, i: int, count: nat, max: nat) -> bool
    decreases lines.len() - i,
{
    if i < 0 || i >= lines.len() || count >= max {
        true
    } else {
        line_link_ok(trim(lines[i])) && match line_link(trim(lines[i])) {
            Some((title, url)) => if is_result_link(title, url) {
                google_scan_ok(lines, i + 1, count + 1, max)
            } else {
                google_scan_ok(lines, i + 1, count, max)
            },
            None => google_scan_ok(lines, i + 1, count, max),
        }
    }
}

/// The page's text where no result could be read from it: cut at the last
/// character boundary within the limit, with a note of the sizes.
pub open spec fn content_fallback(content: Seq<char>) -> Seq<char> {
    if encode_utf8(content).len() > MAX_SEARCH_RESULT_CHARS {
        let end = last_boundary(encode_utf8(content), MAX_SEARCH_RESULT_CHARS as nat);
        byte_prefix(content, end) + "...\n[Truncated: "@ + decimal(end) + " of "@ + decimal(
            encode_utf8(content).len(),
        ) + " chars]"@
    } else {
        content
    }
}

/// The text of a Google result page for `query`, read from the page's text.
pub open spec fn google_text(query: Seq<char>, content: Seq<char>, max_results: nat) -> Seq<char> {
    let out = google_scan(text_lines(content), 0, 0, max_results).1;
    "Search results for '"@ + query + "' (via Google):\n\n"@ + if out.len() == 0 {
        content_fallback(content)
    } else {
        capped(out) + "Note: Use web_fetch to read specific URLs for more detail."@
    }
}

/// Can the text of a Google result page be written: every link read can be
/// sliced, and the results can be cut where they are too long?
pub open spec fn google_text_ok(content: Seq<char>, max_results: nat) -> bool {
    &&& google_scan_ok(text_lines(content), 0, 0, max_results)
    &&& cap_ok(google_scan(text_lines(content), 0, 0, max_results).1)
}

/// The lines of a text.
fn text_lines_exec(s: &str) -> (r: Vec<Vec<char>>)
    ensures
        r@.map_values(|l: Vec<char>| l@) == text_lines(s@),
{
    let mut parts = split_chars(&chars_of(s), '\n');
    proof {
        crate::request::lemma_split_nonempty(s@, '\n');
        assert(parts@.map_values(|l: Vec<char>| l@) =~= split_on(s@, '\n'));
    }
    let ghost all = parts@;
    if parts.len() > 0 && parts[parts.len() - 1].len() == 0 {
        parts.pop();
        proof {
            assert(parts@ =~= all.drop_last());
            assert(parts@.map_values(|l: Vec<char>| l@) =~= split_on(s@, '\n').drop_last());
        }
    }
    parts
}

/// The link of a line, with whether its slices fall between characters.
fn line_link_exec(line: &Vec<char>) -> (r: (bool, Option<(Vec<char>, Vec<char>)>))
    ensures
        r.0 == line_link_ok(line@),
        r.0 ==> match r.1 {
            Some((t, u)) => line_link(line@) == Some((t@, u@)),
            None => line_link(line@) is None,
        },
{
    match find(line, &chars_of("](http")) {
        Some(k) => {
            proof {
                crate::text::lemma_first_index(line@, "](http"@);
                reveal_strlit("](http");
            }
            assert(k + 6 <= line.len());
            let first = line[0];
            let ok = k >= 1 && (first as u32) < 128;
            let rest = slice_of(line, k + 2, line.len());
            assert(rest@ == line@.skip(k + 2));
            let url = match find(&rest, &chars_of(")")) {
                Some(j) => {
                    proof {
                        crate::text::lemma_first_index(rest@, ")"@);
                    }
                    slice_of(&rest, 0, j)
                },
                None => rest,
            };
            let title = if k >= 1 {
                slice_of(line, 1, k)
            } else {
                Vec::new()
            };
            (ok, Some((title, url)))
        },
        None => (true, None),
    }
}



/// Is a (trimmed) line a snippet line?
fn is_snippet_line_exec(line: &Vec<char>) -> (r: bool)
    ensures
        r == is_snippet_line(line@),
{
    line.len() > 0 && !crate::text::starts_with_exec(line, &chars_of("["))
        && !crate::text::starts_with_exec(line, &chars_of("http")) && byte_len(string_from(line).as_str())
        > 20
}

/// The snippet of the result on line `i`.
fn push_snippet_after(out: &mut Vec<char>, lines: &Vec<Vec<char>>, i: usize)
    requires
        i < lines.len(),
    ensures
        final(out)@ == old(out)@ + snippet_after(lines@.map_values(|l: Vec<char>| l@), i as int),
{
    let ghost lv = lines@.map_values(|l: Vec<char>| l@);
    let mut j: usize = 1;
    while j <= 3
        invariant
            1 <= j <= 4,
            i < lines.len(),
            lv == lines@.map_values(|l: Vec<char>| l@),
            forall|m: int| 1 <= m < j ==> !snippet_line_at(lv, i as int, m),
            out@ == old(out)@,
        decreases 4 - j,
    {
        if j < lines.len() - i {
            let next = trim_exec(&lines[i + j]);
            assert(lv[i + j] == lines@[i + j]@);
            if is_snippet_line_exec(&next) {
                append_str(out, "   ");
                append_chars(out, &next);
                append_str(out, "\n");
                assert(out@ =~= old(out)@ + snippet_after(lv, i as int));
                return;
            }
        }
        j += 1;
    }
    assert(out@ =~= old(out)@ + snippet_after(lv, i as int));
}

/// The results read from the lines, with whether every link read could be
/// sliced (the rest is only meaningful where it could).
fn google_scan_exec(lines: &Vec<Vec<char>>, max: u64) -> (r: (bool, Vec<char>))
    ensures
        r.0 == google_scan_ok(lines@.map_values(|l: Vec<char>| l@), 0, 0, max as nat),
        r.0 ==> r.1@ == google_scan(lines@.map_values(|l: Vec<char>| l@), 0, 0, max as nat).1,
{
    let ghost lv = lines@.map_values(|l: Vec<char>| l@);
    let ghost whole = google_scan(lv, 0, 0, max as nat);
    let mut out: Vec<char> = Vec::new();
    let mut count: u64 = 0;
    let mut i: usize = 0;
    while i < lines.len() && count < max
        invariant
            i <= lines.len(),
            lv == lines@.map_values(|l: Vec<char>| l@),
            whole == google_scan(lv, 0, 0, max as nat),
            google_scan_ok(lv, 0, 0, max as nat) == google_scan_ok(lv, i as int, count as nat, max as nat),
            whole.1 == out@ + google_scan(lv, i as int, count as nat, max as nat).1,
        decreases lines.len() - i,
    {
        let line = trim_exec(&lines[i]);
        assert(lv[i as int] == lines@[i as int]@);
        let (ok, link) = line_link_exec(&line);
        if !ok {
            return (false, out);
        }
        match link {
            Some((title, url)) => {
                let keep = !contains_exec(&url, &chars_of("google.com")) && !contains_exec(
                    &url,
                    &chars_of("webcache"),
                ) && title.len() > 0 && byte_len(string_from(&title).as_str()) > 3;
                if keep {
                    let ghost before = out@;
                    count = count + 1;
                    push_decimal(&mut out, count);
                    append_str(&mut out, ". ");
                    append_chars(&mut out, &title);
                    append_str(&mut out, "\n   URL: ");
                    append_chars(&mut out, &url);
                    append_str(&mut out, "\n");
                    push_snippet_after(&mut out, lines, i);
                    append_str(&mut out, "\n");
                    proof {
                        let entry = decimal(count as nat) + ". "@ + title@ + "\n   URL: "@ + url@ + "\n"@
                            + snippet_after(lv, i as int) + "\n"@;
                        assert(out@ =~= before + entry);
                        assert(before + entry + google_scan(lv, i + 1, count as nat, max as nat).1 =~= before + (
                        entry + google_scan(lv, i + 1, count as nat, max as nat).1));
                    }
                }
            },
            None => {},
        }
        i += 1;
    }
    assert(out@ + Seq::<char>::empty() =~= out@);
    (true, out)
}

/// Can the text of a Google result page be written?
pub fn google_text_fits(content: &str, max_results: u64) -> (r: bool)
    ensures
        r == google_text_ok(content@, max_results as nat),
{
    let lines = text_lines_exec(content);
    let (ok, out) = google_scan_exec(&lines, max_results);
    ok && cap_ok_exec(string_from(&out).as_str())
}

/// The text of a Google result page for `query`, read from the page's text.
pub fn google_results_text(query: &str, content: &str, max_results: u64) -> (r: String)
    requires
        google_text_ok(content@, max_results as nat),
    ensures
        r@ == google_text(query@, content@, max_results as nat),
{
    let lines = text_lines_exec(content);
    let (_, out) = google_scan_exec(&lines, max_results);
    let mut v = chars_of("Search results for '");
    append_str(&mut v, query);
    append_str(&mut v, "' (via Google):\n\n");
    if out.len() == 0 {
        let n = byte_len(content);
        if n > MAX_SEARCH_RESULT_CHARS {
            let end = boundary_at_or_before(content, MAX_SEARCH_RESULT_CHARS);
            append_str(&mut v, prefix_bytes(content, end).as_str());
            append_str(&mut v, "...\n[Truncated: ");
            push_decimal(&mut v, end as u64);
            append_str(&mut v, " of ");
            push_decimal(&mut v, n as u64);
            append_str(&mut v, " chars]");
        } else {
            append_str(&mut v, content);
        }
    } else {
        append_str(&mut v, cap_output(string_from(&out)).as_str());
        append_str(&mut v, "Note: Use web_fetch to read specific URLs for more detail.");
    }
    string_from(&v)
}

/// Does a browser error report a time-out (in its lower case)?
pub fn is_timeout_error(error: &str) -> (r: bool)
    ensures
        r == (contains(unicode_lowercase(error@), "timed out"@) || contains(unicode_lowercase(error@), "timeout"@)),
{
    let lower = chars_of(to_lowercase(error).as_str());
    contains_exec(&lower, &chars_of("timed out")) || contains_exec(&lower, &chars_of("timeout"))
}

/// The answer after Google failed and the result page was searched
/// instead: where Google timed out and that search found nothing or
/// failed, a time-out error; else what it found.
pub fn google_failure_answer(query: &str, timed_out: bool, fallback: String) -> (r: String)
    ensures
        r@ == if timed_out && (contains(fallback@, "No results"@) || starts_with(fallback@, "Error"@)) {
            "Error: Web search timed out for query '"@ + query@
                + "'. The search engine did not respond in time. Try again or use a different query."@
        } else {
            fallback@
        },
{
    let f = chars_of(fallback.as_str());
    if timed_out && (contains_exec(&f, &chars_of("No results")) || crate::text::starts_with_exec(
        &f,
        &chars_of("Error"),
    )) {
        let mut v = chars_of("Error: Web search timed out for query '");
        append_str(&mut v, query);
        append_str(
            &mut v,
            "'. The search engine did not respond in time. Try again or use a different query.",
        );
        string_from(&v)
    } else {
        fallback
    }
}

} // verus!
