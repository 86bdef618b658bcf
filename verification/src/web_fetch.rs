//! Fetched web pages as text: the body of an HTML document, and its
//! conversion to Markdown (through `htmd`, or `html2text` where that fails)
//! cut to a limit.

use vstd::prelude::*;
use vstd::utf8::encode_utf8;
use crate::text::{
    append_str, ascii_lower_seq, ascii_lowercase_exec, boundary_at_or_before, byte_len, byte_prefix,
    chars_of, decimal, find, first_index, last_boundary, last_index, prefix_bytes, push_decimal, rfind,
    slice_of, string_from, contains, contains_exec, ends_with, ends_with_exec, starts_with, starts_with_exec,
};

verus! {

/// The Markdown that `htmd::HtmlToMarkdown::new().convert(html)` gives, or
/// `None` where it reports an error.
pub uninterp spec fn markdown_of(html: Seq<char>) -> Option<Seq<char>>;

/// The text that `html2text::from_read(html, width)` gives, or `None` where
/// it reports an error.
pub uninterp spec fn plain_text_of(html: Seq<char>, width: nat) -> Option<Seq<char>>;

/// Calls `htmd::HtmlToMarkdown::convert` on a default converter. Trusted:
/// the result is `markdown_of(html)`, a function of the HTML alone.
#[verifier::external_body]
fn html_to_markdown(html: &str) -> (r: Option<String>)
    ensures
        match r {
            Some(m) => markdown_of(html@) == Some(m@),
            None => markdown_of(html@) is None,
        },
{
    htmd::HtmlToMarkdown::new().convert(html).ok()
}

/// Calls `html2text::from_read` on the HTML's bytes. Trusted: the result is
/// `plain_text_of(html, width)`, a function of the HTML and the width alone.
#[verifier::external_body]
pub(crate) fn html_to_text(html: &str, width: usize) -> (r: Option<String>)
    ensures
        match r {
            Some(t) => plain_text_of(html@, width as nat) == Some(t@),
            None => plain_text_of(html@, width as nat) is None,
        },
{
    html2text::from_read(html.as_bytes(), width).ok()
}

/// The part of an HTML document between its `<body ...>` tag and its last
/// `</body>`, the tags found without regard to ASCII case; empty where
/// either is missing or they are out of order.
pub open spec fn body_content(html: Seq<char>) -> Seq<char> {
    let lower = ascii_lower_seq(html);
    let start: Option<int> = match first_index(lower, "<body"@) {
        Some(i) => match first_index(lower.skip(i), ">"@) {
            Some(j) => Some(i + j + 1),
            None => None,
        },
        None => None,
    };
    match (start, last_index(lower, "</body>"@)) {
        (Some(s), Some(e)) => if s < e {
            html.subrange(s, e)
        } else {
            Seq::empty()
        },
        _ => Seq::empty(),
    }
}

/// The part of an HTML document inside its body.
pub fn extract_body_content(html: &str) -> (r: String)
    ensures
        r@ == body_content(html@),
{
    let h = chars_of(html);
    let lower = ascii_lowercase_exec(&h);
    let start: Option<usize> = match find(&lower, &chars_of("<body")) {
        Some(i) => {
            proof {
                crate::text::lemma_first_index(lower@, "<body"@);
            }
            let rest = slice_of(&lower, i, lower.len());
            assert(rest@ == lower@.skip(i as int));
            match find(&rest, &chars_of(">")) {
                Some(j) => {
                    proof {
                        crate::text::lemma_first_index(rest@, ">"@);
                        reveal_strlit(">");
                    }
                    assert(j + 1 <= rest@.len());
                    Some(i + j + 1)
                },
                None => None,
            }
        },
        None => None,
    };
    let end = rfind(&lower, &chars_of("</body>"));
    match (start, end) {
        (Some(s), Some(e)) => {
            if s < e {
                proof {
                    crate::text::lemma_last_index_upto(lower@, "</body>"@, lower@.len() - "</body>"@.len());
                    reveal_strlit("</body>");
                }
                assert(e + 7 <= lower@.len());
                assert(lower@.len() == h@.len());
                string_from(&slice_of(&h, s, e))
            } else {
                String::new()
            }
        },
        _ => String::new(),
    }
}

/// The Markdown of an HTML source: `htmd`'s, else `html2text`'s at 120
/// columns, else nothing.
pub open spec fn converted(source: Seq<char>) -> Seq<char> {
    match markdown_of(source) {
        Some(m) => m,
        None => match plain_text_of(source, 120) {
            Some(t) => t,
            None => Seq::empty(),
        },
    }
}

/// The text given back for an HTML source: its Markdown, cut at the last
/// character boundary within `max_chars` bytes with a note of the limit;
/// `(empty page)` where there is none.
pub open spec fn converted_text(source: Seq<char>, max_chars: nat) -> Seq<char> {
    let md = converted(source);
    if md.len() == 0 {
        "(empty page)"@
    } else if encode_utf8(md).len() > max_chars {
        byte_prefix(md, last_boundary(encode_utf8(md), max_chars)) + "\n\n[Truncated at "@ + decimal(
            max_chars,
        ) + " chars]"@
    } else {
        md
    }
}

/// The Markdown of an HTML source, cut to `max_chars` bytes.
pub fn convert_and_truncate(source: &str, max_chars: usize) -> (r: String)
    requires
        max_chars <= u64::MAX,
    ensures
        r@ == converted_text(source@, max_chars as nat),
{
    let markdown = match html_to_markdown(source) {
        Some(m) => m,
        None => match html_to_text(source, 120) {
            Some(t) => t,
            None => String::new(),
        },
    };
    let md = markdown.as_str();
    if md.is_empty() {
        return "(empty page)".to_string();
    }
    if byte_len(md) > max_chars {
        let end = boundary_at_or_before(md, max_chars);
        let mut v = chars_of(prefix_bytes(md, end).as_str());
        append_str(&mut v, "\n\n[Truncated at ");
        push_decimal(&mut v, max_chars as u64);
        append_str(&mut v, " chars]");
        string_from(&v)
    } else {
        markdown
    }
}

/// The main content that `dom_smoothie`'s readability finds in an HTML
/// document, or `None` where it cannot read the document or find one.
pub uninterp spec fn article_of(html: Seq<char>) -> Option<Seq<char>>;

/// Calls `dom_smoothie::Readability::new(html, None, None)` and `parse`, and
/// takes the article's `content`. Trusted: the result is `article_of(html)`,
/// `None` where either call reports an error.
#[verifier::external_body]
fn readable_article(html: &str) -> (r: Option<String>)
    ensures
        match r {
            Some(a) => article_of(html@) == Some(a@),
            None => article_of(html@) is None,
        },
{
    let mut reader = dom_smoothie::Readability::new(html, None, None).ok()?;
    reader.parse().ok().map(|article| article.content.to_string())
}

/// The HTML to convert: the article readability finds where it has any
/// text, else the document's body, else the whole document.
pub open spec fn markdown_source(html: Seq<char>, article: Option<Seq<char>>) -> Seq<char> {
    match article {
        Some(a) => if crate::text::trim(a).len() > 0 {
            a
        } else if body_content(html).len() > 0 {
            body_content(html)
        } else {
            html
        },
        None => if body_content(html).len() > 0 {
            body_content(html)
        } else {
            html
        },
    }
}

/// The Markdown of a page from the article readability found in it.
pub fn markdown_from_article(html: &str, article: Option<String>, max_chars: usize) -> (r: String)
    requires
        max_chars <= u64::MAX,
    ensures
        r@ == converted_text(
            markdown_source(
                html@,
                match article {
                    Some(a) => Some(a@),
                    None => None,
                },
            ),
            max_chars as nat,
        ),
{
    if let Some(a) = &article {
        if crate::text::trim_exec(&chars_of(a.as_str())).len() > 0 {
            return convert_and_truncate(a.as_str(), max_chars);
        }
    }
    let body = extract_body_content(html);
    if body.as_str().is_empty() {
        convert_and_truncate(html, max_chars)
    } else {
        convert_and_truncate(body.as_str(), max_chars)
    }
}

/// The Markdown of a fetched page, cut to `max_chars` bytes: of the article
/// that readability finds, else of the page's body, else of the whole page.
pub fn html_to_markdown_truncated(html: &str, max_chars: usize) -> (r: String)
    requires
        max_chars <= u64::MAX,
    ensures
        r@ == converted_text(markdown_source(html@, article_of(html@)), max_chars as nat),
{
    markdown_from_article(html, readable_article(html), max_chars)
}

/// Does a URL name a PDF file: `.pdf` at its end or before a query or a
/// fragment, in any ASCII case?
pub open spec fn is_pdf_url_spec(url: Seq<char>) -> bool {
    ends_with(ascii_lower_seq(url), ".pdf"@) || contains(ascii_lower_seq(url), ".pdf?"@) || contains(
        ascii_lower_seq(url),
        ".pdf#"@,
    )
}

/// Does a URL name a PDF file?
pub fn is_pdf_url(url: &str) -> (r: bool)
    ensures
        r == is_pdf_url_spec(url@),
{
    let lower = ascii_lowercase_exec(&chars_of(url));
    ends_with_exec(&lower, &chars_of(".pdf")) || contains_exec(&lower, &chars_of(".pdf?")) || contains_exec(
        &lower,
        &chars_of(".pdf#"),
    )
}

/// The answer of a fetch made by HTTP after the browser failed: an error
/// after a browser time-out is prefixed by a time-out notice naming the URL.
pub open spec fn fetch_answer(url: Seq<char>, result: Seq<char>, browser_timed_out: bool) -> Seq<char> {
    if browser_timed_out && starts_with(result, "Error"@) {
        "Error: Request timed out. The URL '"@ + url + "' did not respond within the timeout period. "@ + result
    } else {
        result
    }
}

/// The answer of a fetch made by HTTP after the browser failed.
pub fn fetch_fallback_answer(url: &str, result: String, browser_timed_out: bool) -> (r: String)
    ensures
        r@ == fetch_answer(url@, result@, browser_timed_out),
{
    if browser_timed_out && starts_with_exec(&chars_of(result.as_str()), &chars_of("Error")) {
        let mut v = chars_of("Error: Request timed out. The URL '");
        append_str(&mut v, url);
        append_str(&mut v, "' did not respond within the timeout period. ");
        append_str(&mut v, result.as_str());
        string_from(&v)
    } else {
        result
    }
}

} // verus!
