//! The browser tools (`navigate`, `click`, `type`, `query`, ...): what a
//! request asks of the browser session, the scripts sent to it, and the
//! replies written from what the session answered.
//!
//! Every tool but `navigate` first needs an open session; the caller asks
//! for it before acting on the step (`needs_session`).

use vstd::prelude::*;
use vstd::utf8::encode_utf8;
use crate::gguf_info::join_names;
use crate::html_scan::{
    captures_all, captures_view, group_text, group_text_exec, groups_view, regex_captures, strip_tags,
    strip_tags_exec,
};
use crate::json::{json_as_i64, json_as_u64, json_get, json_serialize, json_to_string, lemma_object_of, members_view, Json, JsonValue};
use crate::request::{split_chars, split_on};
use crate::routes::tools::{json_as_bool, str_arg};
use crate::text::{
    append_chars, append_str, boundary_at_or_before, byte_len, byte_prefix, last_boundary, prefix_bytes, chars_of, decimal, int_text, push_decimal,
    push_signed, slices_equal, starts_with, starts_with_exec, string_from, take_chars, take_chars_exec, trim,
    trim_exec,
};

verus! {

/// What a browser tool request asks for.
pub enum BrowserStep {
    /// Open `url` (with a scheme) in the current session, or in a new one.
    Navigate { url: String },
    Click { selector: String },
    Type { selector: String, text: String, press_enter: bool },
    /// Evaluate `script`, which collects the elements matching `selector`.
    Query { selector: String, script: String },
    Eval { js: String },
    GetHtml,
    Screenshot,
    Wait { selector: String, timeout_ms: u64 },
    GetText,
    GetLinks,
    Snapshot,
    /// Evaluate `script`, which scrolls the page.
    Scroll { script: String },
    PressKey { key: String },
    Close,
    /// Answer `text` without calling the browser.
    Reply { text: String },
}

/// The mathematical form of a step.
pub enum StepSpec {
    Navigate(Seq<char>),
    Click(Seq<char>),
    Type(Seq<char>, Seq<char>, bool),
    Query(Seq<char>, Seq<char>),
    Eval(Seq<char>),
    GetHtml,
    Screenshot,
    Wait(Seq<char>, u64),
    GetText,
    GetLinks,
    Snapshot,
    Scroll(Seq<char>),
    PressKey(Seq<char>),
    Close,
    Reply(Seq<char>),
}

/// The view of a step.
pub open spec fn step_view(s: BrowserStep) -> StepSpec {
    match s {
        BrowserStep::Navigate { url } => StepSpec::Navigate(url@),
        BrowserStep::Click { selector } => StepSpec::Click(selector@),
        BrowserStep::Type { selector, text, press_enter } => StepSpec::Type(selector@, text@, press_enter),
        BrowserStep::Query { selector, script } => StepSpec::Query(selector@, script@),
        BrowserStep::Eval { js } => StepSpec::Eval(js@),
        BrowserStep::GetHtml => StepSpec::GetHtml,
        BrowserStep::Screenshot => StepSpec::Screenshot,
        BrowserStep::Wait { selector, timeout_ms } => StepSpec::Wait(selector@, timeout_ms),
        BrowserStep::GetText => StepSpec::GetText,
        BrowserStep::GetLinks => StepSpec::GetLinks,
        BrowserStep::Snapshot => StepSpec::Snapshot,
        BrowserStep::Scroll { script } => StepSpec::Scroll(script@),
        BrowserStep::PressKey { key } => StepSpec::PressKey(key@),
        BrowserStep::Close => StepSpec::Close,
        BrowserStep::Reply { text } => StepSpec::Reply(text@),
    }
}

/// The address opened for `url`: as given when it names `http://` or
/// `https://`, else with `https://` in front.
pub open spec fn full_url(url: Seq<char>) -> Seq<char> {
    if starts_with(url, "http://"@) || starts_with(url, "https://"@) {
        url
    } else {
        "https://"@ + url
    }
}

/// The piece of a query script that reads attribute `attr` of an element.
pub open spec fn attribute_reader(attr: Seq<char>) -> Seq<char> {
    if attr == "text"@ {
        "text: el.innerText?.trim() || ''"@
    } else if attr == "html"@ {
        "html: el.outerHTML"@
    } else if attr == "href"@ {
        "href: el.href || el.getAttribute('href') || ''"@
    } else if attr == "src"@ {
        "src: el.src || el.getAttribute('src') || ''"@
    } else {
        attr + ": el.getAttribute('"@ + attr + "') || ''"@
    }
}

/// The readers for a comma-separated list of attributes, each name trimmed.
pub open spec fn attribute_readers(attributes: Seq<char>) -> Seq<Seq<char>> {
    split_on(attributes, ',').map_values(|a: Seq<char>| attribute_reader(trim(a)))
}

/// A JavaScript string literal for `s` (its JSON text).
pub open spec fn js_literal(s: Seq<char>) -> Seq<char> {
    json_serialize(Json::Str(s))
}

/// The script of a query: the first `limit` elements matching `selector`,
/// each as an object of the requested attributes.
pub open spec fn query_script(selector: Seq<char>, attributes: Seq<char>, limit: u64) -> Seq<char> {
    "Array.from(document.querySelectorAll("@ + js_literal(selector) + ")).slice(0, "@ + decimal(
        limit as nat,
    ) + ").map(el => ({ "@ + join_names(attribute_readers(attributes)) + " }))"@
}

/// The script of a scroll: to the element matching `selector` where one is
/// given, else by `amount` pixels down.
pub open spec fn scroll_script(selector: Seq<char>, amount: i64) -> Seq<char> {
    if selector.len() > 0 {
        let lit = js_literal(selector);
        "(() => { const el = document.querySelector("@ + lit
            + "); if (el) { el.scrollIntoView({behavior:'smooth', block:'center'}); return 'scrolled to '+"@
            + lit + "; } return 'element not found'; })()"@
    } else {
        "(() => { window.scrollBy(0, "@ + int_text(amount as int) + "); return 'scrolled '+"@
            + int_text(amount as int) + "+' px'; })()"@
    }
}

/// A string argument, empty where it is missing or not a string.
pub open spec fn text_arg(args: Json, key: Seq<char>) -> Seq<char> {
    str_arg(args, key, Seq::empty())
}

/// A boolean argument, `false` where it is missing or not a boolean.
pub open spec fn flag_arg(args: Json, key: Seq<char>) -> bool {
    match json_get(args, key) {
        Some(v) => match json_as_bool(v) {
            Some(b) => b,
            None => false,
        },
        None => false,
    }
}

/// An unsigned integer argument, `default` where it is missing or not one.
pub open spec fn count_arg(args: Json, key: Seq<char>, default: u64) -> u64 {
    match json_get(args, key) {
        Some(v) => match json_as_u64(v) {
            Some(n) => n,
            None => default,
        },
        None => default,
    }
}

/// A signed integer argument, 0 where it is missing or not one.
pub open spec fn amount_arg(args: Json, key: Seq<char>) -> i64 {
    match json_get(args, key) {
        Some(v) => match json_as_i64(v) {
            Some(n) => n,
            None => 0,
        },
        None => 0,
    }
}

/// What tool `name` asks for with `args`: a step for the session, or the
/// answer for a missing argument or an unknown tool.
pub open spec fn browser_step_spec(name: Seq<char>, args: Json) -> StepSpec {
    if name == "navigate"@ {
        match json_get(args, "url"@) {
            Some(Json::Str(u)) => if trim(u).len() == 0 {
                StepSpec::Reply("Error: 'url' is required"@)
            } else {
                StepSpec::Navigate(full_url(u))
            },
            _ => StepSpec::Reply("Error: 'url' is required"@),
        }
    } else if name == "click"@ {
        let sel = text_arg(args, "selector"@);
        if sel.len() == 0 {
            StepSpec::Reply("Error: 'selector' is required"@)
        } else {
            StepSpec::Click(sel)
        }
    } else if name == "type"@ {
        let sel = text_arg(args, "selector"@);
        let text = text_arg(args, "text"@);
        if sel.len() == 0 || text.len() == 0 {
            StepSpec::Reply("Error: 'selector' and 'text' are required"@)
        } else {
            StepSpec::Type(sel, text, flag_arg(args, "press_enter"@))
        }
    } else if name == "query"@ {
        let sel = text_arg(args, "selector"@);
        if sel.len() == 0 {
            StepSpec::Reply("Error: 'selector' is required"@)
        } else {
            StepSpec::Query(
                sel,
                query_script(sel, str_arg(args, "attributes"@, "text"@), count_arg(args, "limit"@, 20)),
            )
        }
    } else if name == "eval"@ {
        let js = text_arg(args, "js"@);
        if js.len() == 0 {
            StepSpec::Reply("Error: 'js' is required"@)
        } else {
            StepSpec::Eval(js)
        }
    } else if name == "get_html"@ {
        StepSpec::GetHtml
    } else if name == "screenshot"@ {
        StepSpec::Screenshot
    } else if name == "wait"@ {
        let sel = text_arg(args, "selector"@);
        if sel.len() == 0 {
            StepSpec::Reply("Error: 'selector' is required"@)
        } else {
            StepSpec::Wait(sel, count_arg(args, "timeout_ms"@, 5000))
        }
    } else if name == "get_text"@ {
        StepSpec::GetText
    } else if name == "get_links"@ {
        StepSpec::GetLinks
    } else if name == "snapshot"@ {
        StepSpec::Snapshot
    } else if name == "scroll"@ {
        StepSpec::Scroll(scroll_script(text_arg(args, "selector"@), amount_arg(args, "amount"@)))
    } else if name == "press_key"@ {
        let key = text_arg(args, "key"@);
        if key.len() == 0 {
            StepSpec::Reply("Error: 'key' is required"@)
        } else {
            StepSpec::PressKey(key)
        }
    } else if name == "close"@ {
        StepSpec::Close
    } else {
        StepSpec::Reply("Unknown browser tool: browser_"@ + name)
    }
}

/// Does tool `name` need an open session before its step is taken? All but
/// `navigate` do; without one, the answer is `session_error_reply`.
pub fn needs_session(name: &str) -> (r: bool)
    ensures
        r == (name@ != "navigate"@),
{
    !slices_equal(&chars_of(name), &chars_of("navigate"))
}

/// A string argument, empty where it is missing or not a string.
fn text_arg_exec(args: &JsonValue, key: &str) -> (r: String)
    ensures
        r@ == text_arg(args@, key@),
{
    match args.get_str(key) {
        Some(s) => s,
        None => String::new(),
    }
}

/// A boolean argument.
fn flag_arg_exec(args: &JsonValue, key: &str) -> (r: bool)
    ensures
        r == flag_arg(args@, key@),
{
    match args.get(key) {
        Some(v) => match v {
            JsonValue::Bool(b) => *b,
            _ => false,
        },
        None => false,
    }
}

/// An unsigned integer argument.
fn count_arg_exec(args: &JsonValue, key: &str, default: u64) -> (r: u64)
    ensures
        r == count_arg(args@, key@, default),
{
    match args.get(key) {
        Some(v) => match v.as_u64() {
            Some(n) => n,
            None => default,
        },
        None => default,
    }
}

/// A signed integer argument.
fn amount_arg_exec(args: &JsonValue, key: &str) -> (r: i64)
    ensures
        r == amount_arg(args@, key@),
{
    match args.get(key) {
        Some(v) => match v.as_i64() {
            Some(n) => n,
            None => 0,
        },
        None => 0,
    }
}

/// A JavaScript string literal for `s`.
fn js_literal_exec(s: &str) -> (r: String)
    ensures
        r@ == js_literal(s@),
{
    json_to_string(&JsonValue::Str(s.to_string()))
}

/// The address opened for `url`.
pub fn full_url_exec(url: &str) -> (r: String)
    ensures
        r@ == full_url(url@),
{
    let u = chars_of(url);
    if starts_with_exec(&u, &chars_of("http://")) || starts_with_exec(&u, &chars_of("https://")) {
        url.to_string()
    } else {
        let mut v = chars_of("https://");
        append_str(&mut v, url);
        string_from(&v)
    }
}

/// The piece of a query script that reads attribute `attr`.
fn push_attribute_reader(out: &mut Vec<char>, attr: &Vec<char>)
    ensures
        final(out)@ == old(out)@ + attribute_reader(attr@),
{
    if slices_equal(attr, &chars_of("text")) {
        append_str(out, "text: el.innerText?.trim() || ''");
    } else if slices_equal(attr, &chars_of("html")) {
        append_str(out, "html: el.outerHTML");
    } else if slices_equal(attr, &chars_of("href")) {
        append_str(out, "href: el.href || el.getAttribute('href') || ''");
    } else if slices_equal(attr, &chars_of("src")) {
        append_str(out, "src: el.src || el.getAttribute('src') || ''");
    } else {
        append_chars(out, attr);
        append_str(out, ": el.getAttribute('");
        append_chars(out, attr);
        append_str(out, "') || ''");
        assert(out@ =~= old(out)@ + attribute_reader(attr@));
    }
}

/// The script of a query.
pub fn query_script_exec(selector: &str, attributes: &str, limit: u64) -> (r: String)
    ensures
        r@ == query_script(selector@, attributes@, limit),
{
    let parts = split_chars(&chars_of(attributes), ',');
    let ghost readers = attribute_readers(attributes@);
    let mut joined: Vec<char> = Vec::new();
    let mut i: usize = 0;
    while i < parts.len()
        invariant
            i <= parts.len(),
            parts@.len() == split_on(attributes@, ',').len(),
            forall|k: int| 0 <= k < parts@.len() ==> #[trigger] parts@[k]@ == split_on(attributes@, ',')[k],
            readers == attribute_readers(attributes@),
            readers.len() == parts@.len(),
            joined@ == join_names(readers.take(i as int)),
        decreases parts.len() - i,
    {
        let ghost before = joined@;
        if i > 0 {
            append_str(&mut joined, ", ");
        }
        let name = trim_exec(&parts[i]);
        push_attribute_reader(&mut joined, &name);
        proof {
            let now = readers.take(i + 1);
            assert(now.drop_last() =~= readers.take(i as int));
            assert(now.last() == attribute_reader(trim(split_on(attributes@, ',')[i as int])));
            assert(joined@ =~= join_names(now));
        }
        i += 1;
    }
    assert(readers.take(parts.len() as int) =~= readers);
    let mut v = chars_of("Array.from(document.querySelectorAll(");
    append_str(&mut v, js_literal_exec(selector).as_str());
    append_str(&mut v, ")).slice(0, ");
    push_decimal(&mut v, limit);
    append_str(&mut v, ").map(el => ({ ");
    append_chars(&mut v, &joined);
    append_str(&mut v, " }))");
    assert(v@ =~= query_script(selector@, attributes@, limit));
    string_from(&v)
}

/// The script of a scroll.
pub fn scroll_script_exec(selector: &str, amount: i64) -> (r: String)
    ensures
        r@ == scroll_script(selector@, amount),
{
    if selector.is_empty() {
        let mut v = chars_of("(() => { window.scrollBy(0, ");
        push_signed(&mut v, amount);
        append_str(&mut v, "); return 'scrolled '+");
        push_signed(&mut v, amount);
        append_str(&mut v, "+' px'; })()");
        assert(v@ =~= scroll_script(selector@, amount));
        string_from(&v)
    } else {
        let lit = js_literal_exec(selector);
        let mut v = chars_of("(() => { const el = document.querySelector(");
        append_str(&mut v, lit.as_str());
        append_str(
            &mut v,
            "); if (el) { el.scrollIntoView({behavior:'smooth', block:'center'}); return 'scrolled to '+",
        );
        append_str(&mut v, lit.as_str());
        append_str(&mut v, "; } return 'element not found'; })()");
        assert(v@ =~= scroll_script(selector@, amount));
        string_from(&v)
    }
}

/// A reply step.
fn reply(text: &str) -> (r: BrowserStep)
    ensures
        step_view(r) == StepSpec::Reply(text@),
{
    BrowserStep::Reply { text: text.to_string() }
}

/// The step for a request for browser tool `name` with `args`.
pub fn browser_step(name: &str, args: &JsonValue) -> (r: BrowserStep)
    ensures
        step_view(r) == browser_step_spec(name@, args@),
{
    let n = chars_of(name);
    if slices_equal(&n, &chars_of("navigate")) {
        match args.get("url") {
            Some(v) => match v {
                JsonValue::Str(u) => {
                    let t = trim_exec(&chars_of(u.as_str()));
                    if t.len() == 0 {
                        reply("Error: 'url' is required")
                    } else {
                        BrowserStep::Navigate { url: full_url_exec(u.as_str()) }
                    }
                },
                _ => reply("Error: 'url' is required"),
            },
            None => reply("Error: 'url' is required"),
        }
    } else if slices_equal(&n, &chars_of("click")) {
        let sel = text_arg_exec(args, "selector");
        if sel.as_str().is_empty() {
            reply("Error: 'selector' is required")
        } else {
            BrowserStep::Click { selector: sel }
        }
    } else if slices_equal(&n, &chars_of("type")) {
        let sel = text_arg_exec(args, "selector");
        let text = text_arg_exec(args, "text");
        if sel.as_str().is_empty() || text.as_str().is_empty() {
            reply("Error: 'selector' and 'text' are required")
        } else {
            let press_enter = flag_arg_exec(args, "press_enter");
            BrowserStep::Type { selector: sel, text, press_enter }
        }
    } else if slices_equal(&n, &chars_of("query")) {
        let sel = text_arg_exec(args, "selector");
        if sel.as_str().is_empty() {
            reply("Error: 'selector' is required")
        } else {
            let attributes = match args.get_str("attributes") {
                Some(a) => a,
                None => "text".to_string(),
            };
            let limit = count_arg_exec(args, "limit", 20);
            let script = query_script_exec(sel.as_str(), attributes.as_str(), limit);
            BrowserStep::Query { selector: sel, script }
        }
    } else if slices_equal(&n, &chars_of("eval")) {
        let js = text_arg_exec(args, "js");
        if js.as_str().is_empty() {
            reply("Error: 'js' is required")
        } else {
            BrowserStep::Eval { js }
        }
    } else if slices_equal(&n, &chars_of("get_html")) {
        BrowserStep::GetHtml
    } else if slices_equal(&n, &chars_of("screenshot")) {
        BrowserStep::Screenshot
    } else if slices_equal(&n, &chars_of("wait")) {
        let sel = text_arg_exec(args, "selector");
        if sel.as_str().is_empty() {
            reply("Error: 'selector' is required")
        } else {
            let timeout_ms = count_arg_exec(args, "timeout_ms", 5000);
            BrowserStep::Wait { selector: sel, timeout_ms }
        }
    } else if slices_equal(&n, &chars_of("get_text")) {
        BrowserStep::GetText
    } else if slices_equal(&n, &chars_of("get_links")) {
        BrowserStep::GetLinks
    } else if slices_equal(&n, &chars_of("snapshot")) {
        BrowserStep::Snapshot
    } else if slices_equal(&n, &chars_of("scroll")) {
        let sel = text_arg_exec(args, "selector");
        let amount = amount_arg_exec(args, "amount");
        BrowserStep::Scroll { script: scroll_script_exec(sel.as_str(), amount) }
    } else if slices_equal(&n, &chars_of("press_key")) {
        let key = text_arg_exec(args, "key");
        if key.as_str().is_empty() {
            reply("Error: 'key' is required")
        } else {
            BrowserStep::PressKey { key }
        }
    } else if slices_equal(&n, &chars_of("close")) {
        BrowserStep::Close
    } else {
        let mut v = chars_of("Unknown browser tool: browser_");
        append_str(&mut v, name);
        BrowserStep::Reply { text: string_from(&v) }
    }
}


// ---------------------------------------------------------------------------
// Replies
// ---------------------------------------------------------------------------

/// What navigating does next: answer, or open a new session at the URL.
pub enum NavigateAction {
    Reply { text: String },
    OpenSession,
}

/// The first navigation decision, from the current session: `None` where
/// there is none, else whether navigating it to `url` worked. A session
/// that navigated is answered; otherwise a new session is opened.
pub fn navigate_first(url: &str, existing: Option<bool>) -> (r: NavigateAction)
    ensures
        match existing {
            Some(true) => r matches NavigateAction::Reply { text } && text@ == "Navigated to "@ + url@ + "."@,
            _ => r is OpenSession,
        },
{
    match existing {
        Some(true) => NavigateAction::Reply { text: navigated_reply(url) },
        _ => NavigateAction::OpenSession,
    }
}

/// The answer once a new session was opened: its address, named as a new
/// session where the old one failed to navigate (`reopening`); or the error
/// opening it.
pub fn navigate_opened(reopening: bool, opened: Result<String, String>) -> (r: String)
    ensures
        r@ == match opened {
            Ok(u) => if reopening {
                "Opened new session at "@ + u@ + "."@
            } else {
                "Navigated to "@ + u@ + "."@
            },
            Err(e) => "navigate"@ + " failed: "@ + e@,
        },
{
    match opened {
        Ok(u) => if reopening {
            reopened_reply(u.as_str())
        } else {
            navigated_reply(u.as_str())
        },
        Err(e) => failure_reply("navigate", e.as_str()),
    }
}

/// The reply after a page opened at `url` in the session.
pub fn navigated_reply(url: &str) -> (r: String)
    ensures
        r@ == "Navigated to "@ + url@ + "."@,
{
    let mut v = chars_of("Navigated to ");
    append_str(&mut v, url);
    append_str(&mut v, ".");
    string_from(&v)
}

/// The reply after navigating the old session failed and a new session
/// opened at `url`.
pub fn reopened_reply(url: &str) -> (r: String)
    ensures
        r@ == "Opened new session at "@ + url@ + "."@,
{
    let mut v = chars_of("Opened new session at ");
    append_str(&mut v, url);
    append_str(&mut v, ".");
    string_from(&v)
}

/// The reply for a browser operation `op` that failed with `error`.
pub fn failure_reply(op: &str, error: &str) -> (r: String)
    ensures
        r@ == op@ + " failed: "@ + error@,
{
    let mut v = chars_of(op);
    append_str(&mut v, " failed: ");
    append_str(&mut v, error);
    string_from(&v)
}

/// The reply when no session is open for a tool that needs one.
pub fn session_error_reply(error: &str) -> (r: String)
    ensures
        r@ == "Error: "@ + error@,
{
    let mut v = chars_of("Error: ");
    append_str(&mut v, error);
    string_from(&v)
}

/// The reply after a click.
pub fn clicked_reply(selector: &str) -> (r: String)
    ensures
        r@ == "Clicked '"@ + selector@ + "'"@,
{
    let mut v = chars_of("Clicked '");
    append_str(&mut v, selector);
    append_str(&mut v, "'");
    string_from(&v)
}

/// The reply after typing into an element.
pub fn typed_reply(selector: &str, press_enter: bool) -> (r: String)
    ensures
        r@ == "Typed into '"@ + selector@ + "'"@ + if press_enter {
            " and pressed Enter"@
        } else {
            Seq::empty()
        },
{
    let mut v = chars_of("Typed into '");
    append_str(&mut v, selector);
    append_str(&mut v, "'");
    if press_enter {
        append_str(&mut v, " and pressed Enter");
    }
    assert(v@ =~= "Typed into '"@ + selector@ + "'"@ + if press_enter {
        " and pressed Enter"@
    } else {
        Seq::empty()
    });
    string_from(&v)
}

/// The reply for the value a query returned: a note where no element
/// matched (an empty array), else the value's JSON text.
pub open spec fn query_reply_spec(selector: Seq<char>, result: Json) -> Seq<char> {
    match result {
        Json::Array(items) if items.len() == 0 => "No elements found matching '"@ + selector + "'"@,
        _ => json_serialize(result),
    }
}

/// The reply for the value a query returned.
pub fn query_reply(selector: &str, result: &JsonValue) -> (r: String)
    ensures
        r@ == query_reply_spec(selector@, result@),
{
    match result {
        JsonValue::Array(items) => {
            if items.len() == 0 {
                let mut v = chars_of("No elements found matching '");
                append_str(&mut v, selector);
                append_str(&mut v, "'");
                return string_from(&v);
            }
        },
        _ => {},
    }
    json_to_string(result)
}

/// The reply for the value a script returned: a string as it is, any other
/// value as its JSON text.
pub fn eval_reply(result: JsonValue) -> (r: String)
    ensures
        r@ == match result@ {
            Json::Str(s) => s,
            _ => json_serialize(result@),
        },
{
    match result {
        JsonValue::Str(s) => s,
        _ => json_to_string(&result),
    }
}

/// The reply after waiting for an element: whether it appeared in time.
pub fn wait_reply(selector: &str, appeared: bool) -> (r: String)
    ensures
        r@ == if appeared {
            "Element '"@ + selector@ + "' appeared"@
        } else {
            "Timeout waiting for '"@ + selector@ + "'"@
        },
{
    let mut v = if appeared {
        chars_of("Element '")
    } else {
        chars_of("Timeout waiting for '")
    };
    append_str(&mut v, selector);
    if appeared {
        append_str(&mut v, "' appeared");
    } else {
        append_str(&mut v, "'");
    }
    string_from(&v)
}

/// The reply after a scroll script ran: its `result` member where that is a
/// string, else `done`.
pub fn scroll_reply(result: &JsonValue) -> (r: String)
    ensures
        r@ == match json_get(result@, "result"@) {
            Some(Json::Str(s)) => s,
            _ => "done"@,
        },
{
    match result.get("result") {
        Some(v) => match v {
            JsonValue::Str(s) => s.clone(),
            _ => "done".to_string(),
        },
        None => "done".to_string(),
    }
}

/// The reply after a key press.
pub fn pressed_reply(key: &str) -> (r: String)
    ensures
        r@ == "Pressed '"@ + key@ + "'"@,
{
    let mut v = chars_of("Pressed '");
    append_str(&mut v, key);
    append_str(&mut v, "'");
    string_from(&v)
}

/// The reply after the session closed.
pub fn closed_reply() -> (r: String)
    ensures
        r@ == "Browser session closed."@,
{
    "Browser session closed.".to_string()
}

/// The reply when a scroll script could not run.
pub fn scroll_unavailable_reply() -> (r: String)
    ensures
        r@ == "Scroll not available in HTTP mode (content is fetched statically)."@,
{
    "Scroll not available in HTTP mode (content is fetched statically).".to_string()
}

/// The reply that goes with a screenshot.
pub fn screenshot_reply() -> (r: String)
    ensures
        r@ == "Screenshot captured."@,
{
    "Screenshot captured.".to_string()
}

/// The reply where no screenshot could be taken: with the page's title and
/// address where the browser panel gave them.
pub fn screenshot_fallback_reply(page_info: Option<&str>) -> (r: String)
    ensures
        r@ == match page_info {
            Some(info) => "Visual screenshot not available. Page: "@ + info@
                + "\nUse browser_get_text to read content or browser_query to extract structured data."@,
            None => "Screenshot not available. Use browser_get_text or browser_query instead."@,
        },
{
    match page_info {
        Some(info) => {
            let mut v = chars_of("Visual screenshot not available. Page: ");
            append_str(&mut v, info);
            append_str(
                &mut v,
                "\nUse browser_get_text to read content or browser_query to extract structured data.",
            );
            string_from(&v)
        },
        None => "Screenshot not available. Use browser_get_text or browser_query instead.".to_string(),
    }
}

/// The script whose value the browser panel gives as the page's title and address.
pub fn page_info_script() -> (r: String)
    ensures
        r@ == "document.title + ' — ' + window.location.href"@,
{
    "document.title + ' — ' + window.location.href".to_string()
}

// ---------------------------------------------------------------------------
// Page text limits
// ---------------------------------------------------------------------------

/// Bytes of page HTML given back.
pub const MAX_HTML_BYTES: usize = 50_000;

/// Bytes of page text given back.
pub const MAX_TEXT_BYTES: usize = 30_000;

/// Bytes of a page snapshot given back.
pub const MAX_SNAPSHOT_BYTES: usize = 20_000;

/// `s` cut to at most `max` bytes at the last character boundary, with a
/// `[truncated]` line after it; unchanged where it fits.
pub open spec fn page_cut(s: Seq<char>, max: nat) -> Seq<char> {
    if encode_utf8(s).len() > max {
        byte_prefix(s, last_boundary(encode_utf8(s), max)) + "\n... [truncated]"@
    } else {
        s
    }
}

/// Cut a page's text to at most `max` bytes.
pub fn cut_page(text: String, max: usize) -> (r: String)
    ensures
        r@ == page_cut(text@, max as nat),
{
    let s = text.as_str();
    if byte_len(s) > max {
        let end = boundary_at_or_before(s, max);
        let mut v = chars_of(prefix_bytes(s, end).as_str());
        append_str(&mut v, "\n... [truncated]");
        string_from(&v)
    } else {
        text
    }
}


// ---------------------------------------------------------------------------
// Links of a page
// ---------------------------------------------------------------------------

/// At most this many links are listed.
pub const MAX_LINKS: usize = 200;

/// The pattern of a link: its address and its inner HTML.
pub open spec fn anchor_pattern() -> Seq<char> {
    "<a[^>]+href=\"([^\"]*)\"[^>]*>(.*?)</a>"@
}

/// The entry for a matched link, `{"text", "href"}`, with its text stripped
/// of tags, trimmed and cut to 80 characters; none where the address or
/// that text is empty.
pub open spec fn link_entry(groups: Seq<Option<Seq<char>>>) -> Option<Json> {
    let href = group_text(groups, 1);
    let clean = take_chars(trim(strip_tags(group_text(groups, 2))), 80);
    if href.len() > 0 && clean.len() > 0 {
        Some(Json::Object(seq![("text"@, Json::Str(clean)), ("href"@, Json::Str(href))]))
    } else {
        None
    }
}

/// The entries of the matched links, in order, up to `MAX_LINKS` of them.
pub open spec fn link_entries(matches: Seq<Seq<Option<Seq<char>>>>) -> Seq<Json>
    decreases matches.len(),
{
    if matches.len() == 0 {
        Seq::empty()
    } else {
        let prev = link_entries(matches.drop_last());
        if prev.len() >= MAX_LINKS {
            prev
        } else {
            match link_entry(matches.last()) {
                Some(e) => prev.push(e),
                None => prev,
            }
        }
    }
}

/// The reply listing a page's links: the JSON array of their entries.
pub open spec fn links_reply_spec(html: Seq<char>) -> Seq<char> {
    json_serialize(
        Json::Array(
            match regex_captures(anchor_pattern(), html) {
                Some(ms) => link_entries(ms),
                None => Seq::empty(),
            },
        ),
    )
}

/// The entry for a matched link.
fn link_entry_exec(groups: &Vec<Option<String>>) -> (r: Option<JsonValue>)
    ensures
        match r {
            Some(e) => link_entry(groups_view(*groups)) == Some(e@),
            None => link_entry(groups_view(*groups)) is None,
        },
{
    let href = group_text_exec(groups, 1);
    let inner = group_text_exec(groups, 2);
    let stripped = strip_tags_exec(inner.as_str());
    let trimmed = string_from(&trim_exec(&chars_of(stripped.as_str())));
    let clean = take_chars_exec(trimmed.as_str(), 80);
    if href.as_str().is_empty() || clean.as_str().is_empty() {
        return None;
    }
    let ghost c = clean@;
    let ghost h = href@;
    let mut ms: Vec<(String, JsonValue)> = Vec::new();
    ms.push(("text".to_string(), JsonValue::Str(clean)));
    ms.push(("href".to_string(), JsonValue::Str(href)));
    proof {
        lemma_object_of(ms);
        assert(members_view(ms@) =~= seq![("text"@, Json::Str(c)), ("href"@, Json::Str(h))]);
    }
    Some(JsonValue::Object(ms))
}

/// The reply listing a page's links.
pub fn links_reply(html: &str) -> (r: String)
    ensures
        r@ == links_reply_spec(html@),
{
    let found = captures_all("<a[^>]+href=\"([^\"]*)\"[^>]*>(.*?)</a>", html);
    let mut links: Vec<JsonValue> = Vec::new();
    let ghost ms: Seq<Seq<Option<Seq<char>>>> = match captures_view(found) {
        Some(m) => m,
        None => Seq::empty(),
    };
    match found {
        Some(matches) => {
            let mut i: usize = 0;
            while i < matches.len()
                invariant
                    i <= matches.len(),
                    ms == matches@.map_values(|g: Vec<Option<String>>| groups_view(g)),
                    links@.map_values(|j: JsonValue| j@) == link_entries(ms.take(i as int)),
                decreases matches.len() - i,
            {
                let ghost before = links@;
                proof {
                    assert(ms.take(i + 1).drop_last() =~= ms.take(i as int));
                    assert(ms.take(i + 1).last() == groups_view(matches@[i as int]));
                }
                if links.len() < MAX_LINKS {
                    match link_entry_exec(&matches[i]) {
                        Some(e) => {
                            let ghost ev = e@;
                            links.push(e);
                            proof {
                                assert(links@.map_values(|j: JsonValue| j@) =~= before.map_values(
                                    |j: JsonValue| j@,
                                ).push(ev));
                            }
                        },
                        None => {},
                    }
                }
                i += 1;
            }
            assert(ms.take(matches.len() as int) =~= ms);
        },
        None => {},
    }
    let ghost entries = links@.map_values(|j: JsonValue| j@);
    assert(entries == link_entries(ms));
    assert(ms == match regex_captures(anchor_pattern(), html@) {
        Some(m) => m,
        None => Seq::<Seq<Option<Seq<char>>>>::empty(),
    });
    let arr = JsonValue::Array(links);
    proof {
        crate::json::lemma_array_view(arr);
        assert(crate::json::array_items(arr@) =~= entries);
    }
    json_to_string(&arr)
}

} // verus!
