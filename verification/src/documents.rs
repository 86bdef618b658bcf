//! Text out of document files: the zipped XML formats (DOCX, PPTX, ODT,
//! EPUB) through `zip` and `quick_xml`, CSV through `csv` and e-mail through
//! `mailparse`; for PDF and RTF files, the answer from what their readers
//! gave. The crates read the formats; what is kept of them, in which order,
//! with which separators and notes, is decided and proved here.

use vstd::prelude::*;
use vstd::utf8::encode_utf8;
use quick_xml::events::Event;
use crate::routes::files::{lemma_lex_irreflexive, lemma_lex_total, lemma_lex_transitive, lex_lt, lex_lt_exec};
use crate::web_fetch::{html_to_text, plain_text_of};
use crate::text::{
    append_chars, append_str, boundary_at_or_before, byte_len, byte_prefix, chars_of, decimal, last_boundary, prefix_bytes, push_decimal, string_from, trim, trim_exec, starts_with, ends_with, starts_with_exec, ends_with_exec, ascii_lower_seq, ascii_lowercase_exec, join_exec, join_with,
};

verus! {

// ---------------------------------------------------------------------------
// Cutting extracted text
// ---------------------------------------------------------------------------

/// `text` cut to at most `max` bytes at the last character boundary, with a
/// note naming the format and the limit; unchanged where it fits.
pub open spec fn cut_with_note(text: Seq<char>, max: nat, format: Seq<char>) -> Seq<char> {
    if encode_utf8(text).len() > max {
        byte_prefix(text, last_boundary(encode_utf8(text), max)) + "\n\n["@ + format + " truncated at "@ + decimal(
            max,
        ) + " chars]"@
    } else {
        text
    }
}

/// Cut `text` to at most `max` bytes, noting the cut.
fn cut_text(text: String, max: usize, format: &str) -> (r: String)
    ensures
        r@ == cut_with_note(text@, max as nat, format@),
{
    let s = text.as_str();
    if byte_len(s) > max {
        let end = boundary_at_or_before(s, max);
        let mut v = chars_of(prefix_bytes(s, end).as_str());
        append_str(&mut v, "\n\n[");
        append_str(&mut v, format);
        append_str(&mut v, " truncated at ");
        push_decimal(&mut v, max as u64);
        append_str(&mut v, " chars]");
        string_from(&v)
    } else {
        text
    }
}

/// The answer for text taken out of a document: trimmed; a note where
/// nothing is left; else cut to `max` bytes.
pub open spec fn document_text(text: Seq<char>, max: nat, format: Seq<char>, empty_note: Seq<char>) -> Seq<char> {
    if trim(text).len() == 0 {
        empty_note
    } else {
        cut_with_note(trim(text), max, format)
    }
}

fn finish_document(text: &str, max: usize, format: &str, empty_note: &str) -> (r: String)
    ensures
        r@ == document_text(text@, max as nat, format@, empty_note@),
{
    let t = trim_exec(&chars_of(text));
    if t.len() == 0 {
        empty_note.to_string()
    } else {
        cut_text(string_from(&t), max, format)
    }
}

// ---------------------------------------------------------------------------
// PDF
// ---------------------------------------------------------------------------

/// The answer for a PDF file, from what the PDF reader gave.
pub open spec fn pdf_answer(extracted: Result<Seq<char>, Seq<char>>, max: nat) -> Seq<char> {
    match extracted {
        Ok(text) => document_text(
            text,
            max,
            "PDF"@,
            "(PDF contains no extractable text — may be scanned/image-based)"@,
        ),
        Err(e) => "Error extracting PDF text: "@ + e,
    }
}

/// The answer for a PDF file from the reader's result.
pub fn pdf_reply(extracted: Result<String, String>, max_chars: usize) -> (r: String)
    ensures
        r@ == pdf_answer(
            match extracted {
                Ok(t) => Ok(t@),
                Err(e) => Err(e@),
            },
            max_chars as nat,
        ),
{
    match extracted {
        Ok(text) => finish_document(
            text.as_str(),
            max_chars,
            "PDF",
            "(PDF contains no extractable text — may be scanned/image-based)",
        ),
        Err(e) => {
            let mut v = chars_of("Error extracting PDF text: ");
            append_str(&mut v, e.as_str());
            string_from(&v)
        },
    }
}

// ---------------------------------------------------------------------------
// Zip archives
// ---------------------------------------------------------------------------

/// What reading one entry of a zip archive as text gave: the archive could
/// not be opened, it has no such entry, the entry could not be read as
/// UTF-8 text, or the entry's text. Errors carry the crate's message.
pub enum ZipText {
    BadArchive(String),
    Missing(String),
    Unreadable(String),
    Text(String),
}

/// The mathematical form of a `ZipText`.
pub enum ZipRead {
    BadArchive(Seq<char>),
    Missing(Seq<char>),
    Unreadable(Seq<char>),
    Text(Seq<char>),
}

impl View for ZipText {
    type V = ZipRead;

    open spec fn view(&self) -> ZipRead {
        match self {
            ZipText::BadArchive(e) => ZipRead::BadArchive(e@),
            ZipText::Missing(e) => ZipRead::Missing(e@),
            ZipText::Unreadable(e) => ZipRead::Unreadable(e@),
            ZipText::Text(t) => ZipRead::Text(t@),
        }
    }
}

/// What `zip` gives for entry `name` of the archive in `bytes`.
pub uninterp spec fn zip_entry_of(bytes: Seq<u8>, name: Seq<char>) -> ZipRead;

/// Opens the archive with `zip::ZipArchive::new`, finds the entry with
/// `by_name` and reads it with `read_to_string`. Trusted: the result is what
/// those calls give for these arguments, errors shown by `Display`.
#[verifier::external_body]
fn zip_entry_text(bytes: &[u8], name: &str) -> (r: ZipText)
    ensures
        r@ == zip_entry_of(bytes@, name@),
{
    let mut archive = match zip::ZipArchive::new(std::io::Cursor::new(bytes)) {
        Ok(a) => a,
        Err(e) => return ZipText::BadArchive(e.to_string()),
    };
    let mut entry = match archive.by_name(name) {
        Ok(f) => f,
        Err(e) => return ZipText::Missing(e.to_string()),
    };
    let mut text = String::new();
    match std::io::Read::read_to_string(&mut entry, &mut text) {
        Ok(_) => ZipText::Text(text),
        Err(e) => ZipText::Unreadable(e.to_string()),
    }
}

// ---------------------------------------------------------------------------
// XML events
// ---------------------------------------------------------------------------

/// An XML event as the document readers see it: elements by their local
/// names (without a namespace prefix), text unescaped (`None` where that
/// failed), the end of the document, or a parse error with its message.
pub enum XmlEvent {
    Start(String),
    Empty(String),
    End(String),
    Text(Option<String>),
    Other,
    Eof,
    Failed(String),
}

/// The mathematical form of an `XmlEvent`.
pub enum XmlItem {
    Start(Seq<char>),
    Empty(Seq<char>),
    End(Seq<char>),
    Text(Option<Seq<char>>),
    Other,
    Eof,
    Failed(Seq<char>),
}

impl View for XmlEvent {
    type V = XmlItem;

    open spec fn view(&self) -> XmlItem {
        match self {
            XmlEvent::Start(n) => XmlItem::Start(n@),
            XmlEvent::Empty(n) => XmlItem::Empty(n@),
            XmlEvent::End(n) => XmlItem::End(n@),
            XmlEvent::Text(t) => XmlItem::Text(
                match t {
                    Some(s) => Some(s@),
                    None => None,
                },
            ),
            XmlEvent::Other => XmlItem::Other,
            XmlEvent::Eof => XmlItem::Eof,
            XmlEvent::Failed(e) => XmlItem::Failed(e@),
        }
    }
}

/// The views of a list of events.
pub open spec fn items_of(v: Seq<XmlEvent>) -> Seq<XmlItem> {
    Seq::new(v.len(), |i: int| v[i]@)
}

/// Does reading stop at this event?
pub open spec fn is_last_event(e: XmlItem) -> bool {
    e is Eof || e is Failed
}

/// A stream of events that ends at its first end of document or error.
pub open spec fn well_ended(s: Seq<XmlItem>) -> bool {
    &&& s.len() > 0
    &&& is_last_event(s.last())
    &&& forall|i: int| 0 <= i < s.len() - 1 ==> !is_last_event(#[trigger] s[i])
}

#[verifier::external_type_specification]
#[verifier::external_body]
#[verifier::reject_recursive_types(R)]
pub struct ExXmlReader<R>(quick_xml::Reader<R>);

/// The events a reader has still to give, up to and including the first
/// end of document or error.
pub uninterp spec fn xml_pending(reader: quick_xml::Reader<&[u8]>) -> Seq<XmlItem>;

/// The events that `quick_xml` reads from `xml`, up to and including the
/// first end of document or error.
pub uninterp spec fn xml_events(xml: Seq<char>) -> Seq<XmlItem>;

/// Calls `quick_xml::Reader::from_str`. Trusted: the new reader will give
/// the events of `xml`, a finite stream that ends at the end of the
/// document or at the first error.
#[verifier::external_body]
fn xml_reader(xml: &str) -> (r: quick_xml::Reader<&[u8]>)
    ensures
        xml_pending(r) == xml_events(xml@),
        well_ended(xml_pending(r)),
{
    quick_xml::Reader::from_str(xml)
}

/// Calls `quick_xml::Reader::read_event`. Trusted: the event is the next one
/// the reader had to give, with local names and unescaped text as the
/// crate's `local_name` and `unescape` give them.
#[verifier::external_body]
fn next_xml_event(reader: &mut quick_xml::Reader<&[u8]>) -> (r: XmlEvent)
    requires
        xml_pending(*old(reader)).len() > 0,
    ensures
        r@ == xml_pending(*old(reader))[0],
        xml_pending(*final(reader)) == xml_pending(*old(reader)).drop_first(),
{
    match reader.read_event() {
        Ok(Event::Start(e)) => XmlEvent::Start(String::from_utf8_lossy(e.local_name().as_ref()).into_owned()),
        Ok(Event::Empty(e)) => XmlEvent::Empty(String::from_utf8_lossy(e.local_name().as_ref()).into_owned()),
        Ok(Event::End(e)) => XmlEvent::End(String::from_utf8_lossy(e.local_name().as_ref()).into_owned()),
        Ok(Event::Text(e)) => XmlEvent::Text(e.unescape().ok().map(|t| t.into_owned())),
        Ok(Event::Eof) => XmlEvent::Eof,
        Ok(_) => XmlEvent::Other,
        Err(e) => XmlEvent::Failed(e.to_string()),
    }
}

/// All events of `xml`, the last one the end of the document or an error.
pub fn read_xml_events(xml: &str) -> (r: Vec<XmlEvent>)
    ensures
        items_of(r@) == xml_events(xml@),
{
    let mut reader = xml_reader(xml);
    let ghost all = xml_events(xml@);
    let mut out: Vec<XmlEvent> = Vec::new();
    loop
        invariant_except_break
            items_of(out@) + xml_pending(reader) == all,
            well_ended(all),
            forall|i: int| 0 <= i < out@.len() ==> !is_last_event(#[trigger] out@[i]@),
        ensures
            items_of(out@) == all,
        decreases xml_pending(reader).len(),
    {
        proof {
            if xml_pending(reader).len() == 0 {
                assert(items_of(out@) == all);
                assert(out@[out@.len() - 1]@ == all.last());
            }
        }
        let ghost before = out@;
        let ghost pending = xml_pending(reader);
        let ev = next_xml_event(&mut reader);
        let stop = match &ev {
            XmlEvent::Eof => true,
            XmlEvent::Failed(_) => true,
            _ => false,
        };
        out.push(ev);
        proof {
            assert(items_of(out@) =~= items_of(before).push(pending[0]));
            assert(items_of(out@) + xml_pending(reader) =~= items_of(before) + pending);
            if stop {
                assert(all[before.len() as int] == pending[0]);
                assert(before.len() == all.len() - 1);
                assert(items_of(out@) =~= all);
            }
        }
        if stop {
            break;
        }
    }
    out
}

/// Is `name` equal to the literal `lit`? (Compared by characters.)
fn name_is(name: &String, lit: &str) -> (r: bool)
    ensures
        r == (name@ == lit@),
{
    crate::text::slices_equal(&chars_of(name.as_str()), &chars_of(lit))
}

// ---------------------------------------------------------------------------
// DOCX
// ---------------------------------------------------------------------------

/// The text of a DOCX body from event `i` on, with `text` read so far and
/// `in_t` telling whether a `t` element is open: the text of `t` elements,
/// with a line break at each paragraph after the first text. `Err` carries
/// the message of a parse error.
pub open spec fn docx_run(events: Seq<XmlItem>, i: int, text: Seq<char>, in_t: bool) -> Result<Seq<char>, Seq<char>>
    decreases events.len() - i,
{
    if i < 0 || i >= events.len() {
        Ok(text)
    } else {
        match events[i] {
            XmlItem::Eof => Ok(text),
            XmlItem::Failed(e) => Err(e),
            XmlItem::Start(n) => if n == "p"@ && text.len() > 0 {
                docx_run(events, i + 1, text.push('\n'), in_t)
            } else if n == "t"@ {
                docx_run(events, i + 1, text, true)
            } else {
                docx_run(events, i + 1, text, in_t)
            },
            XmlItem::Empty(n) => if n == "p"@ && text.len() > 0 {
                docx_run(events, i + 1, text.push('\n'), in_t)
            } else if n == "t"@ {
                docx_run(events, i + 1, text, true)
            } else {
                docx_run(events, i + 1, text, in_t)
            },
            XmlItem::End(n) => docx_run(events, i + 1, text, if n == "t"@ { false } else { in_t }),
            XmlItem::Text(Some(t)) => if in_t {
                docx_run(events, i + 1, text + t, in_t)
            } else {
                docx_run(events, i + 1, text, in_t)
            },
            _ => docx_run(events, i + 1, text, in_t),
        }
    }
}

/// The answer for the events of a DOCX body.
pub open spec fn docx_events_answer(events: Seq<XmlItem>, max: nat) -> Seq<char> {
    match docx_run(events, 0, Seq::empty(), false) {
        Ok(text) => document_text(text, max, "DOCX"@, "(DOCX contains no extractable text)"@),
        Err(e) => "Error parsing DOCX XML: "@ + e,
    }
}

/// The answer for the events of a DOCX body.
pub fn docx_from_events(events: &Vec<XmlEvent>, max_chars: usize) -> (r: String)
    ensures
        r@ == docx_events_answer(items_of(events@), max_chars as nat),
{
    let ghost ev = items_of(events@);
    let mut text: Vec<char> = Vec::new();
    let mut in_t = false;
    let mut i: usize = 0;
    while i < events.len()
        invariant
            i <= events.len(),
            ev == items_of(events@),
            docx_run(ev, i as int, text@, in_t) == docx_run(ev, 0, Seq::empty(), false),
        ensures
            docx_run(ev, 0, Seq::empty(), false) == Ok::<Seq<char>, Seq<char>>(text@),
        decreases events.len() - i,
    {
        assert(ev[i as int] == events@[i as int]@);
        match &events[i] {
            XmlEvent::Eof => {
                assert(docx_run(ev, i as int, text@, in_t) == Ok::<Seq<char>, Seq<char>>(text@));
                break;
            },
            XmlEvent::Failed(e) => {
                let mut v = chars_of("Error parsing DOCX XML: ");
                append_str(&mut v, e.as_str());
                return string_from(&v);
            },
            XmlEvent::Start(n) | XmlEvent::Empty(n) => {
                if name_is(n, "p") && text.len() > 0 {
                    text.push('\n');
                } else if name_is(n, "t") {
                    in_t = true;
                }
            },
            XmlEvent::End(n) => {
                if name_is(n, "t") {
                    in_t = false;
                }
            },
            XmlEvent::Text(Some(t)) => {
                if in_t {
                    append_str(&mut text, t.as_str());
                }
            },
            _ => {},
        }
        i = i + 1;
    }
    finish_document(string_from(&text).as_str(), max_chars, "DOCX", "(DOCX contains no extractable text)")
}

/// The answer for the `word/document.xml` entry of a DOCX file.
pub open spec fn docx_answer(entry: ZipRead, max: nat) -> Seq<char> {
    match entry {
        ZipRead::BadArchive(e) => "Error reading DOCX archive: "@ + e,
        ZipRead::Missing(e) => "Error: not a valid DOCX file (missing word/document.xml): "@ + e,
        ZipRead::Unreadable(e) => "Error reading DOCX document.xml: "@ + e,
        ZipRead::Text(xml) => docx_events_answer(xml_events(xml), max),
    }
}

/// The answer for what reading `word/document.xml` out of a DOCX file gave.
pub fn docx_from_entry(entry: ZipText, max_chars: usize) -> (r: String)
    ensures
        r@ == docx_answer(entry@, max_chars as nat),
{
    let (prefix, e) = match entry {
        ZipText::BadArchive(e) => ("Error reading DOCX archive: ", e),
        ZipText::Missing(e) => ("Error: not a valid DOCX file (missing word/document.xml): ", e),
        ZipText::Unreadable(e) => ("Error reading DOCX document.xml: ", e),
        ZipText::Text(xml) => {
            let events = read_xml_events(xml.as_str());
            return docx_from_events(&events, max_chars);
        },
    };
    let mut v = chars_of(prefix);
    append_str(&mut v, e.as_str());
    string_from(&v)
}

/// The text of a DOCX file: the text of its `w:t` elements, a line per
/// paragraph, at most `max_chars` bytes of it.
pub fn extract_docx_text(bytes: &[u8], max_chars: usize) -> (r: String)
    ensures
        r@ == docx_answer(zip_entry_of(bytes@, "word/document.xml"@), max_chars as nat),
{
    docx_from_entry(zip_entry_text(bytes, "word/document.xml"), max_chars)
}

// ---------------------------------------------------------------------------
// Entry names, in order
// ---------------------------------------------------------------------------

/// What `zip` gives as the number of entries of the archive in `bytes`, or
/// the message of the error opening it.
pub uninterp spec fn zip_count_of(bytes: Seq<u8>) -> Result<usize, Seq<char>>;

/// What `zip` gives as the name of entry `i` of the archive in `bytes`, or
/// the message of the error opening the archive, the entry or its name.
pub uninterp spec fn zip_name_at_of(bytes: Seq<u8>, i: usize) -> Result<Seq<char>, Seq<char>>;

/// Opens the archive with `zip::ZipArchive::new` and takes its `len`.
/// Trusted: the result is what those calls give for `bytes`, the error shown
/// by `Display`.
#[verifier::external_body]
fn zip_entry_count(bytes: &[u8]) -> (r: Result<usize, String>)
    ensures
        match r {
            Ok(n) => zip_count_of(bytes@) == Ok::<usize, Seq<char>>(n),
            Err(e) => zip_count_of(bytes@) == Err::<usize, Seq<char>>(e@),
        },
{
    zip::ZipArchive::new(std::io::Cursor::new(bytes)).map(|a| a.len()).map_err(|e| e.to_string())
}

/// Opens the archive with `zip::ZipArchive::new`, entry `i` with `by_index`
/// and reads its `name`. Trusted: the result is what those calls give for
/// these arguments, errors shown by `Display`.
#[verifier::external_body]
fn zip_entry_name_at(bytes: &[u8], i: usize) -> (r: Result<String, String>)
    ensures
        match r {
            Ok(n) => zip_name_at_of(bytes@, i) == Ok::<Seq<char>, Seq<char>>(n@),
            Err(e) => zip_name_at_of(bytes@, i) == Err::<Seq<char>, Seq<char>>(e@),
        },
{
    let mut archive = zip::ZipArchive::new(std::io::Cursor::new(bytes)).map_err(|e| e.to_string())?;
    let entry = archive.by_index(i).map_err(|e| e.to_string())?;
    entry.name().map(|n| n.into_owned()).map_err(|e| e.to_string())
}

/// The names of entries `0..n` that open and whose names read, in archive
/// order.
pub open spec fn names_upto(bytes: Seq<u8>, n: int) -> Seq<Seq<char>>
    decreases n,
{
    if n <= 0 {
        Seq::empty()
    } else {
        match zip_name_at_of(bytes, (n - 1) as usize) {
            Ok(name) => names_upto(bytes, n - 1).push(name),
            Err(_) => names_upto(bytes, n - 1),
        }
    }
}

/// What the archive in `bytes` lists: the names of the entries that open,
/// in archive order, or the message of the error opening it.
pub open spec fn zip_names_of(bytes: Seq<u8>) -> Result<Seq<Seq<char>>, Seq<char>> {
    match zip_count_of(bytes) {
        Ok(n) => Ok(names_upto(bytes, n as int)),
        Err(e) => Err(e),
    }
}

/// The names of the entries of the archive in `bytes` that open, in
/// archive order; an entry that cannot be opened is left out.
pub fn zip_entry_names(bytes: &[u8]) -> (r: Result<Vec<String>, String>)
    ensures
        match r {
            Ok(names) => zip_names_of(bytes@) == Ok::<Seq<Seq<char>>, Seq<char>>(
                crate::providers::codex::strings_view(names@),
            ),
            Err(e) => zip_names_of(bytes@) == Err::<Seq<Seq<char>>, Seq<char>>(e@),
        },
{
    let n = match zip_entry_count(bytes) {
        Ok(n) => n,
        Err(e) => return Err(e),
    };
    let mut names: Vec<String> = Vec::new();
    let mut i: usize = 0;
    while i < n
        invariant
            i <= n,
            zip_count_of(bytes@) == Ok::<usize, Seq<char>>(n),
            crate::providers::codex::strings_view(names@) == names_upto(bytes@, i as int),
        decreases n - i,
    {
        let ghost before = crate::providers::codex::strings_view(names@);
        match zip_entry_name_at(bytes, i) {
            Ok(name) => {
                names.push(name);
                assert(crate::providers::codex::strings_view(names@) =~= before.push(names@[names@.len() - 1]@));
            },
            Err(_) => {},
        }
        i = i + 1;
    }
    Ok(names)
}

/// `x` put into the sorted list `s`, after the names not greater than it.
pub open spec fn insert_name(s: Seq<Seq<char>>, x: Seq<char>) -> Seq<Seq<char>>
    decreases s.len(),
{
    if s.len() == 0 {
        seq![x]
    } else if lex_lt(x, s.last()) {
        insert_name(s.drop_last(), x).push(s.last())
    } else {
        s.push(x)
    }
}

/// Names in code point order (the order of `sort` on strings).
pub open spec fn sorted_names(names: Seq<Seq<char>>) -> Seq<Seq<char>>
    decreases names.len(),
{
    if names.len() == 0 {
        Seq::empty()
    } else {
        insert_name(sorted_names(names.drop_last()), names.last())
    }
}

/// Is a list of names sorted: none strictly before one ahead of it?
pub open spec fn names_in_order(s: Seq<Seq<char>>) -> bool {
    forall|i: int, j: int| 0 <= i < j < s.len() ==> !lex_lt(#[trigger] s[j], #[trigger] s[i])
}

proof fn lemma_insert_name(s: Seq<Seq<char>>, x: Seq<char>)
    requires
        names_in_order(s),
    ensures
        names_in_order(insert_name(s, x)),
        insert_name(s, x).to_multiset() =~= s.to_multiset().insert(x),
    decreases s.len(),
{
    broadcast use vstd::seq_lib::group_to_multiset_ensures;
    if s.len() > 0 {
        let last = s.last();
        if lex_lt(x, last) {
            let t = s.drop_last();
            assert(names_in_order(t));
            lemma_insert_name(t, x);
            let r = insert_name(t, x);
            assert forall|i: int| 0 <= i < r.len() implies !lex_lt(last, #[trigger] r[i]) by {
                assert(r.to_multiset().count(r[i]) > 0);
                assert(t.to_multiset().insert(x).count(r[i]) > 0);
                if r[i] == x {
                    lemma_lex_irreflexive(x);
                    if lex_lt(last, x) {
                        lemma_lex_transitive(x, last, x);
                    }
                } else {
                    assert(t.to_multiset().count(r[i]) > 0);
                    assert(t.contains(r[i]));
                    let k = choose|k: int| 0 <= k < t.len() && t[k] == r[i];
                    assert(s[k] == t[k]);
                    assert(!lex_lt(s[s.len() - 1], s[k]));
                }
            }
            assert(s =~= t.push(last));
        } else {
            assert forall|i: int| 0 <= i < s.len() implies !lex_lt(x, #[trigger] s[i]) by {
                if i < s.len() - 1 {
                    assert(!lex_lt(s[s.len() - 1], s[i]));
                    lemma_lex_total(s[i], s[s.len() - 1]);
                    if lex_lt(x, s[i]) {
                        if s[i] == last {
                        } else {
                            lemma_lex_transitive(x, s[i], last);
                        }
                    }
                }
            }
        }
    }
}

/// Names are sorted in code point order, each name kept as often as given.
pub proof fn lemma_sorted_names(names: Seq<Seq<char>>)
    ensures
        names_in_order(sorted_names(names)),
        sorted_names(names).to_multiset() =~= names.to_multiset(),
    decreases names.len(),
{
    broadcast use vstd::seq_lib::group_to_multiset_ensures;
    if names.len() > 0 {
        lemma_sorted_names(names.drop_last());
        lemma_insert_name(sorted_names(names.drop_last()), names.last());
        assert(names =~= names.drop_last().push(names.last()));
    }
}

fn insert_name_exec(v: &mut Vec<String>, x: String)
    ensures
        crate::providers::codex::strings_view(final(v)@) == insert_name(
            crate::providers::codex::strings_view(old(v)@),
            x@,
        ),
    decreases old(v)@.len(),
{
    let n = v.len();
    if n == 0 {
        v.push(x);
        assert(crate::providers::codex::strings_view(v@) =~= seq![x@]);
        return;
    }
    let ghost before = crate::providers::codex::strings_view(v@);
    let lt = lex_lt_exec(&chars_of(x.as_str()), &chars_of(v[n - 1].as_str()));
    if lt {
        let last = v.pop().unwrap();
        assert(crate::providers::codex::strings_view(v@) =~= before.drop_last());
        insert_name_exec(v, x);
        let ghost mid = crate::providers::codex::strings_view(v@);
        v.push(last);
        assert(crate::providers::codex::strings_view(v@) =~= mid.push(before.last()));
    } else {
        v.push(x);
        assert(crate::providers::codex::strings_view(v@) =~= before.push(x@));
    }
}

/// Sort names in code point order.
pub fn sort_names(names: &Vec<String>) -> (r: Vec<String>)
    ensures
        crate::providers::codex::strings_view(r@) == sorted_names(crate::providers::codex::strings_view(names@)),
{
    let ghost all = crate::providers::codex::strings_view(names@);
    let mut out: Vec<String> = Vec::new();
    let mut i: usize = 0;
    while i < names.len()
        invariant
            i <= names.len(),
            all == crate::providers::codex::strings_view(names@),
            crate::providers::codex::strings_view(out@) == sorted_names(all.take(i as int)),
        decreases names.len() - i,
    {
        let ghost prev = all.take(i as int);
        insert_name_exec(&mut out, names[i].clone());
        proof {
            assert(all.take(i + 1).drop_last() =~= prev);
            assert(all.take(i + 1).last() == names@[i as int]@);
        }
        i = i + 1;
    }
    assert(all.take(names.len() as int) =~= all);
    out
}

// ---------------------------------------------------------------------------
// PPTX
// ---------------------------------------------------------------------------

/// Is `n` the name of a slide: `ppt/slides/slide*.xml`?
pub open spec fn is_slide_name(n: Seq<char>) -> bool {
    starts_with(n, "ppt/slides/slide"@) && ends_with(n, ".xml"@)
}

/// The slide names among `names`, in their order.
pub open spec fn slide_names(names: Seq<Seq<char>>) -> Seq<Seq<char>>
    decreases names.len(),
{
    if names.len() == 0 {
        Seq::empty()
    } else if is_slide_name(names.last()) {
        slide_names(names.drop_last()).push(names.last())
    } else {
        slide_names(names.drop_last())
    }
}

/// `text` after the events of a slide from event `i` on: the text of `a:t`
/// elements, a line break at each later paragraph of a slide that has text.
pub open spec fn slide_run(events: Seq<XmlItem>, i: int, text: Seq<char>, in_t: bool, has_text: bool) -> Seq<char>
    decreases events.len() - i,
{
    if i < 0 || i >= events.len() {
        text
    } else {
        match events[i] {
            XmlItem::Eof => text,
            XmlItem::Failed(_) => text,
            XmlItem::Start(n) => if n == "t"@ {
                slide_run(events, i + 1, text, true, has_text)
            } else if n == "p"@ && has_text {
                slide_run(events, i + 1, text.push('\n'), in_t, has_text)
            } else {
                slide_run(events, i + 1, text, in_t, has_text)
            },
            XmlItem::End(n) => slide_run(events, i + 1, text, if n == "t"@ { false } else { in_t }, has_text),
            XmlItem::Text(Some(t)) => if in_t {
                slide_run(events, i + 1, text + t, in_t, true)
            } else {
                slide_run(events, i + 1, text, in_t, has_text)
            },
            _ => slide_run(events, i + 1, text, in_t, has_text),
        }
    }
}

/// `text` with the events of one slide added.
pub fn slide_from_events(text: String, events: &Vec<XmlEvent>) -> (r: String)
    ensures
        r@ == slide_run(items_of(events@), 0, text@, false, false),
{
    let ghost ev = items_of(events@);
    let mut out = chars_of(text.as_str());
    let mut in_t = false;
    let mut has_text = false;
    let mut i: usize = 0;
    while i < events.len()
        invariant
            i <= events.len(),
            ev == items_of(events@),
            slide_run(ev, i as int, out@, in_t, has_text) == slide_run(ev, 0, text@, false, false),
        ensures
            slide_run(ev, 0, text@, false, false) == out@,
        decreases events.len() - i,
    {
        assert(ev[i as int] == events@[i as int]@);
        match &events[i] {
            XmlEvent::Eof | XmlEvent::Failed(_) => {
                break;
            },
            XmlEvent::Start(n) => {
                if name_is(n, "t") {
                    in_t = true;
                } else if name_is(n, "p") && has_text {
                    out.push('\n');
                }
            },
            XmlEvent::End(n) => {
                if name_is(n, "t") {
                    in_t = false;
                }
            },
            XmlEvent::Text(Some(t)) => {
                if in_t {
                    append_str(&mut out, t.as_str());
                    has_text = true;
                }
            },
            _ => {},
        }
        i = i + 1;
    }
    string_from(&out)
}

/// The heading of slide `number`, after a line break where text came before.
pub open spec fn slide_heading(text: Seq<char>, number: nat) -> Seq<char> {
    (if text.len() > 0 {
        text.push('\n')
    } else {
        text
    }) + "--- Slide "@ + decimal(number) + " ---\n"@
}

/// `text` with the slide read from a zip entry added; a slide that could
/// not be read is left out.
pub open spec fn add_slide_spec(text: Seq<char>, number: nat, entry: ZipRead) -> Seq<char> {
    match entry {
        ZipRead::Text(xml) => slide_run(xml_events(xml), 0, slide_heading(text, number), false, false),
        _ => text,
    }
}

/// `text` with the slide read from a zip entry added.
pub fn add_slide(text: String, number: u64, entry: ZipText) -> (r: String)
    ensures
        r@ == add_slide_spec(text@, number as nat, entry@),
{
    match entry {
        ZipText::Text(xml) => {
            let mut v = chars_of(text.as_str());
            if v.len() > 0 {
                v.push('\n');
            }
            append_str(&mut v, "--- Slide ");
            push_decimal(&mut v, number);
            append_str(&mut v, " ---\n");
            let events = read_xml_events(xml.as_str());
            slide_from_events(string_from(&v), &events)
        },
        _ => text,
    }
}

/// The text of slides `k` on of a PPTX file, after `text`.
pub open spec fn slides_from(bytes: Seq<u8>, names: Seq<Seq<char>>, k: int, text: Seq<char>) -> Seq<char>
    decreases names.len() - k,
{
    if k < 0 || k >= names.len() {
        text
    } else {
        slides_from(bytes, names, k + 1, add_slide_spec(text, (k + 1) as nat, zip_entry_of(bytes, names[k])))
    }
}

/// The answer for a PPTX file, from the names its archive lists: each slide
/// in name order under a numbered heading; notes for an archive that cannot
/// be read, one without slides and slides without text.
pub open spec fn pptx_answer(bytes: Seq<u8>, listed: Result<Seq<Seq<char>>, Seq<char>>) -> Seq<char> {
    match listed {
        Err(e) => "Error reading PPTX archive: "@ + e,
        Ok(names) => {
            let slides = sorted_names(slide_names(names));
            if slides.len() == 0 {
                "(PPTX contains no slides)"@
            } else if trim(slides_from(bytes, slides, 0, Seq::empty())).len() == 0 {
                "(PPTX contains no extractable text)"@
            } else {
                trim(slides_from(bytes, slides, 0, Seq::empty()))
            }
        },
    }
}

/// The answer for a PPTX file from the names its archive lists.
pub fn pptx_from_names(bytes: &[u8], listed: Result<Vec<String>, String>) -> (r: String)
    ensures
        r@ == pptx_answer(
            bytes@,
            match listed {
                Ok(n) => Ok(crate::providers::codex::strings_view(n@)),
                Err(e) => Err(e@),
            },
        ),
{
    let names = match listed {
        Err(e) => {
            let mut v = chars_of("Error reading PPTX archive: ");
            append_str(&mut v, e.as_str());
            return string_from(&v);
        },
        Ok(n) => n,
    };
    let ghost all = crate::providers::codex::strings_view(names@);
    let mut picked: Vec<String> = Vec::new();
    let mut i: usize = 0;
    while i < names.len()
        invariant
            i <= names.len(),
            all == crate::providers::codex::strings_view(names@),
            crate::providers::codex::strings_view(picked@) == slide_names(all.take(i as int)),
        decreases names.len() - i,
    {
        let ghost prev = crate::providers::codex::strings_view(picked@);
        let n = chars_of(names[i].as_str());
        proof {
            assert(all.take(i + 1).drop_last() =~= all.take(i as int));
            assert(all.take(i + 1).last() == names@[i as int]@);
        }
        if starts_with_exec(&n, &chars_of("ppt/slides/slide")) && ends_with_exec(&n, &chars_of(".xml")) {
            picked.push(names[i].clone());
            assert(crate::providers::codex::strings_view(picked@) =~= prev.push(names@[i as int]@));
        }
        i = i + 1;
    }
    assert(all.take(names.len() as int) =~= all);
    let slides = sort_names(&picked);
    if slides.len() == 0 {
        return "(PPTX contains no slides)".to_string();
    }
    let ghost sv = crate::providers::codex::strings_view(slides@);
    let mut text = String::new();
    let mut k: usize = 0;
    while k < slides.len()
        invariant
            k <= slides.len(),
            sv == crate::providers::codex::strings_view(slides@),
            slides_from(bytes@, sv, k as int, text@) == slides_from(bytes@, sv, 0, Seq::empty()),
        decreases slides.len() - k,
    {
        let entry = zip_entry_text(bytes, slides[k].as_str());
        text = add_slide(text, (k + 1) as u64, entry);
        k = k + 1;
    }
    let t = trim_exec(&chars_of(text.as_str()));
    if t.len() == 0 {
        "(PPTX contains no extractable text)".to_string()
    } else {
        string_from(&t)
    }
}

/// The text of a PPTX file: its slides in name order, each under a numbered
/// heading, the text of their `a:t` elements a line per paragraph. The text
/// is given whole.
pub fn extract_pptx_text(bytes: &[u8]) -> (r: String)
    ensures
        r@ == pptx_answer(bytes@, zip_names_of(bytes@)),
{
    pptx_from_names(bytes, zip_entry_names(bytes))
}

// ---------------------------------------------------------------------------
// ODT
// ---------------------------------------------------------------------------

/// Does a text element start or end at an element of this name?
pub open spec fn odt_text_element(n: Seq<char>) -> bool {
    n == "p"@ || n == "h"@ || n == "span"@
}

/// `text` after an element of name `n` opened: a line break before a
/// paragraph or heading that does not start a line, a tab for `tab`, a line
/// break for `line-break`.
pub open spec fn odt_open(text: Seq<char>, n: Seq<char>) -> Seq<char> {
    let t1 = if (n == "p"@ || n == "h"@) && text.len() > 0 && text.last() != '\n' {
        text.push('\n')
    } else {
        text
    };
    let t2 = if n == "tab"@ {
        t1.push('\t')
    } else {
        t1
    };
    if n == "line-break"@ {
        t2.push('\n')
    } else {
        t2
    }
}

/// `text` after the events of an ODT body from event `i` on: the text
/// inside paragraphs, headings and spans.
pub open spec fn odt_run(events: Seq<XmlItem>, i: int, text: Seq<char>, in_text: bool) -> Seq<char>
    decreases events.len() - i,
{
    if i < 0 || i >= events.len() {
        text
    } else {
        match events[i] {
            XmlItem::Eof => text,
            XmlItem::Failed(_) => text,
            XmlItem::Start(n) => odt_run(events, i + 1, odt_open(text, n), in_text || odt_text_element(n)),
            XmlItem::Empty(n) => odt_run(events, i + 1, odt_open(text, n), in_text || odt_text_element(n)),
            XmlItem::End(n) => odt_run(events, i + 1, text, in_text && !odt_text_element(n)),
            XmlItem::Text(Some(t)) => if in_text {
                odt_run(events, i + 1, text + t, in_text)
            } else {
                odt_run(events, i + 1, text, in_text)
            },
            _ => odt_run(events, i + 1, text, in_text),
        }
    }
}

/// The answer for the events of an ODT body.
pub open spec fn odt_events_answer(events: Seq<XmlItem>) -> Seq<char> {
    if trim(odt_run(events, 0, Seq::empty(), false)).len() == 0 {
        "(ODT document contains no text)"@
    } else {
        trim(odt_run(events, 0, Seq::empty(), false))
    }
}

fn odt_open_exec(text: &mut Vec<char>, n: &String)
    ensures
        final(text)@ == odt_open(old(text)@, n@),
{
    if (name_is(n, "p") || name_is(n, "h")) && text.len() > 0 && text[text.len() - 1] != '\n' {
        text.push('\n');
    }
    if name_is(n, "tab") {
        text.push('\t');
    }
    if name_is(n, "line-break") {
        text.push('\n');
    }
}

/// The answer for the events of an ODT body.
pub fn odt_from_events(events: &Vec<XmlEvent>) -> (r: String)
    ensures
        r@ == odt_events_answer(items_of(events@)),
{
    let ghost ev = items_of(events@);
    let mut text: Vec<char> = Vec::new();
    let mut in_text = false;
    let mut i: usize = 0;
    while i < events.len()
        invariant
            i <= events.len(),
            ev == items_of(events@),
            odt_run(ev, i as int, text@, in_text) == odt_run(ev, 0, Seq::empty(), false),
        ensures
            odt_run(ev, 0, Seq::empty(), false) == text@,
        decreases events.len() - i,
    {
        assert(ev[i as int] == events@[i as int]@);
        match &events[i] {
            XmlEvent::Eof | XmlEvent::Failed(_) => {
                break;
            },
            XmlEvent::Start(n) | XmlEvent::Empty(n) => {
                let opens = name_is(n, "p") || name_is(n, "h") || name_is(n, "span");
                odt_open_exec(&mut text, n);
                in_text = in_text || opens;
            },
            XmlEvent::End(n) => {
                let closes = name_is(n, "p") || name_is(n, "h") || name_is(n, "span");
                in_text = in_text && !closes;
            },
            XmlEvent::Text(Some(t)) => {
                if in_text {
                    append_str(&mut text, t.as_str());
                }
            },
            _ => {},
        }
        i = i + 1;
    }
    let t = trim_exec(&text);
    if t.len() == 0 {
        "(ODT document contains no text)".to_string()
    } else {
        string_from(&t)
    }
}

/// The answer for the `content.xml` entry of an ODT file.
pub open spec fn odt_answer(entry: ZipRead) -> Seq<char> {
    match entry {
        ZipRead::BadArchive(e) => "Error reading ODT archive: "@ + e,
        ZipRead::Missing(e) => "Error finding content.xml in ODT: "@ + e,
        ZipRead::Unreadable(e) => "Error reading content.xml: "@ + e,
        ZipRead::Text(xml) => odt_events_answer(xml_events(xml)),
    }
}

/// The answer for what reading `content.xml` out of an ODT file gave.
pub fn odt_from_entry(entry: ZipText) -> (r: String)
    ensures
        r@ == odt_answer(entry@),
{
    let (prefix, e) = match entry {
        ZipText::BadArchive(e) => ("Error reading ODT archive: ", e),
        ZipText::Missing(e) => ("Error finding content.xml in ODT: ", e),
        ZipText::Unreadable(e) => ("Error reading content.xml: ", e),
        ZipText::Text(xml) => {
            let events = read_xml_events(xml.as_str());
            return odt_from_events(&events);
        },
    };
    let mut v = chars_of(prefix);
    append_str(&mut v, e.as_str());
    string_from(&v)
}

/// The text of an ODT file: the text of its paragraphs, headings and spans,
/// a line per paragraph, tabs and line breaks kept. The text is given whole.
pub fn extract_odt_text(bytes: &[u8]) -> (r: String)
    ensures
        r@ == odt_answer(zip_entry_of(bytes@, "content.xml"@)),
{
    odt_from_entry(zip_entry_text(bytes, "content.xml"))
}

// ---------------------------------------------------------------------------
// EPUB
// ---------------------------------------------------------------------------

/// Is `n` the name of an EPUB content file: `.xhtml`, `.html` or `.htm` in
/// any ASCII case?
pub open spec fn is_content_name(n: Seq<char>) -> bool {
    ends_with(ascii_lower_seq(n), ".xhtml"@) || ends_with(ascii_lower_seq(n), ".html"@) || ends_with(
        ascii_lower_seq(n),
        ".htm"@,
    )
}

/// The content file names among `names`, in their order.
pub open spec fn content_names(names: Seq<Seq<char>>) -> Seq<Seq<char>>
    decreases names.len(),
{
    if names.len() == 0 {
        Seq::empty()
    } else if is_content_name(names.last()) {
        content_names(names.drop_last()).push(names.last())
    } else {
        content_names(names.drop_last())
    }
}

/// The plain text of one content file, trimmed: empty where the entry
/// could not be read or the HTML could not be rendered.
pub open spec fn chapter_text(entry: ZipRead) -> Seq<char> {
    match entry {
        ZipRead::Text(html) => match plain_text_of(html, 120) {
            Some(t) => trim(t),
            None => Seq::empty(),
        },
        _ => Seq::empty(),
    }
}

/// `text` with a chapter added, after a blank line where text came before;
/// an empty chapter adds nothing.
pub open spec fn add_chapter_spec(text: Seq<char>, chapter: Seq<char>) -> Seq<char> {
    if chapter.len() == 0 {
        text
    } else if text.len() > 0 {
        text + "\n\n"@ + chapter
    } else {
        chapter
    }
}

/// `text` with a chapter read from a zip entry added.
pub fn add_chapter(text: String, entry: ZipText) -> (r: String)
    ensures
        r@ == add_chapter_spec(text@, chapter_text(entry@)),
{
    let chapter: Vec<char> = match entry {
        ZipText::Text(html) => match html_to_text(html.as_str(), 120) {
            Some(t) => trim_exec(&chars_of(t.as_str())),
            None => Vec::new(),
        },
        _ => Vec::new(),
    };
    if chapter.len() == 0 {
        return text;
    }
    let mut v = chars_of(text.as_str());
    if v.len() > 0 {
        append_str(&mut v, "\n\n");
    }
    append_chars(&mut v, &chapter);
    string_from(&v)
}

/// The chapters `k` on of an EPUB file after `text`, reading stopped once
/// the text is longer than `max` bytes.
pub open spec fn chapters_from(bytes: Seq<u8>, names: Seq<Seq<char>>, k: int, text: Seq<char>, max: nat) -> Seq<char>
    decreases names.len() - k,
{
    if k < 0 || k >= names.len() {
        text
    } else {
        let next = add_chapter_spec(text, chapter_text(zip_entry_of(bytes, names[k])));
        if encode_utf8(next).len() > max {
            next
        } else {
            chapters_from(bytes, names, k + 1, next, max)
        }
    }
}

/// The answer for an EPUB file, from the names its archive lists: the plain
/// text of its content files in name order, a blank line between them.
pub open spec fn epub_answer(bytes: Seq<u8>, listed: Result<Seq<Seq<char>>, Seq<char>>, max: nat) -> Seq<char> {
    match listed {
        Err(e) => "Error reading EPUB archive: "@ + e,
        Ok(names) => {
            let text = trim(chapters_from(bytes, sorted_names(content_names(names)), 0, Seq::empty(), max));
            if text.len() == 0 {
                "(EPUB contains no readable text)"@
            } else {
                text
            }
        },
    }
}

/// The answer for an EPUB file from the names its archive lists.
pub fn epub_from_names(bytes: &[u8], listed: Result<Vec<String>, String>, max_chars: usize) -> (r: String)
    ensures
        r@ == epub_answer(
            bytes@,
            match listed {
                Ok(n) => Ok(crate::providers::codex::strings_view(n@)),
                Err(e) => Err(e@),
            },
            max_chars as nat,
        ),
{
    let names = match listed {
        Err(e) => {
            let mut v = chars_of("Error reading EPUB archive: ");
            append_str(&mut v, e.as_str());
            return string_from(&v);
        },
        Ok(n) => n,
    };
    let ghost all = crate::providers::codex::strings_view(names@);
    let mut picked: Vec<String> = Vec::new();
    let mut i: usize = 0;
    while i < names.len()
        invariant
            i <= names.len(),
            all == crate::providers::codex::strings_view(names@),
            crate::providers::codex::strings_view(picked@) == content_names(all.take(i as int)),
        decreases names.len() - i,
    {
        let ghost prev = crate::providers::codex::strings_view(picked@);
        let lower = ascii_lowercase_exec(&chars_of(names[i].as_str()));
        proof {
            assert(all.take(i + 1).drop_last() =~= all.take(i as int));
            assert(all.take(i + 1).last() == names@[i as int]@);
        }
        if ends_with_exec(&lower, &chars_of(".xhtml")) || ends_with_exec(&lower, &chars_of(".html"))
            || ends_with_exec(&lower, &chars_of(".htm")) {
            picked.push(names[i].clone());
            assert(crate::providers::codex::strings_view(picked@) =~= prev.push(names@[i as int]@));
        }
        i = i + 1;
    }
    assert(all.take(names.len() as int) =~= all);
    let files = sort_names(&picked);
    let ghost fv = crate::providers::codex::strings_view(files@);
    let mut text = String::new();
    let mut k: usize = 0;
    while k < files.len()
        invariant_except_break
            chapters_from(bytes@, fv, k as int, text@, max_chars as nat) == chapters_from(
                bytes@,
                fv,
                0,
                Seq::empty(),
                max_chars as nat,
            ),
        invariant
            k <= files.len(),
            fv == crate::providers::codex::strings_view(files@),
        ensures
            text@ == chapters_from(bytes@, fv, 0, Seq::empty(), max_chars as nat),
        decreases files.len() - k,
    {
        let ghost before = text@;
        let entry = zip_entry_text(bytes, files[k].as_str());
        text = add_chapter(text, entry);
        if byte_len(text.as_str()) > max_chars {
            assert(chapters_from(bytes@, fv, k as int, before, max_chars as nat) == text@);
            break;
        }
        k = k + 1;
    }
    let t = trim_exec(&chars_of(text.as_str()));
    if t.len() == 0 {
        "(EPUB contains no readable text)".to_string()
    } else {
        string_from(&t)
    }
}

/// The text of an EPUB file: the plain text of its XHTML and HTML files in
/// name order, a blank line between them, reading stopped once the text is
/// longer than `max_chars` bytes. The text is given whole.
pub fn extract_epub_text(bytes: &[u8], max_chars: usize) -> (r: String)
    ensures
        r@ == epub_answer(bytes@, zip_names_of(bytes@), max_chars as nat),
{
    epub_from_names(bytes, zip_entry_names(bytes), max_chars)
}

// ---------------------------------------------------------------------------
// RTF
// ---------------------------------------------------------------------------

/// What reading an RTF file gave: its text, or the message of the lexer's
/// or the parser's error.
pub enum RtfText {
    Text(String),
    LexFailed(String),
    ParseFailed(String),
}

/// The mathematical form of an `RtfText`.
pub enum RtfRead {
    Text(Seq<char>),
    LexFailed(Seq<char>),
    ParseFailed(Seq<char>),
}

impl View for RtfText {
    type V = RtfRead;

    open spec fn view(&self) -> RtfRead {
        match self {
            RtfText::Text(t) => RtfRead::Text(t@),
            RtfText::LexFailed(e) => RtfRead::LexFailed(e@),
            RtfText::ParseFailed(e) => RtfRead::ParseFailed(e@),
        }
    }
}

/// The answer for an RTF file from what the RTF reader gave.
pub open spec fn rtf_answer(read: RtfRead) -> Seq<char> {
    match read {
        RtfRead::Text(t) => if trim(t).len() == 0 {
            "(RTF document contains no text)"@
        } else {
            trim(t)
        },
        RtfRead::LexFailed(e) => "Error lexing RTF: "@ + e,
        RtfRead::ParseFailed(e) => "Error parsing RTF: "@ + e,
    }
}

/// The answer for an RTF file from what the RTF reader gave.
pub fn rtf_reply(read: RtfText) -> (r: String)
    ensures
        r@ == rtf_answer(read@),
{
    let (prefix, e) = match read {
        RtfText::Text(t) => {
            let v = trim_exec(&chars_of(t.as_str()));
            if v.len() == 0 {
                return "(RTF document contains no text)".to_string();
            }
            return string_from(&v);
        },
        RtfText::LexFailed(e) => ("Error lexing RTF: ", e),
        RtfText::ParseFailed(e) => ("Error parsing RTF: ", e),
    };
    let mut v = chars_of(prefix);
    append_str(&mut v, e.as_str());
    string_from(&v)
}

// ---------------------------------------------------------------------------
// CSV
// ---------------------------------------------------------------------------

/// What `csv` reads from a file: its header row (`None` where reading it
/// failed) and each later record, or the message of the error reading it.
pub struct CsvTable {
    pub headers: Option<Vec<String>>,
    pub records: Vec<Result<Vec<String>, String>>,
}

/// The mathematical form of a `CsvTable`.
pub struct CsvRead {
    pub headers: Option<Seq<Seq<char>>>,
    pub records: Seq<Result<Seq<Seq<char>>, Seq<char>>>,
}

/// The view of a record, or of its error.
pub open spec fn record_view(r: Result<Vec<String>, String>) -> Result<Seq<Seq<char>>, Seq<char>> {
    match r {
        Ok(fields) => Ok(crate::providers::codex::strings_view(fields@)),
        Err(e) => Err(e@),
    }
}

impl View for CsvTable {
    type V = CsvRead;

    open spec fn view(&self) -> CsvRead {
        CsvRead {
            headers: match self.headers {
                Some(h) => Some(crate::providers::codex::strings_view(h@)),
                None => None,
            },
            records: Seq::new(self.records@.len(), |i: int| record_view(self.records@[i])),
        }
    }
}

/// What `csv` reads from the bytes of a CSV file.
pub uninterp spec fn csv_table_of(bytes: Seq<u8>) -> CsvRead;

/// Reads the file with a `csv::ReaderBuilder` set to `flexible`: the header
/// row with `headers`, then every record that `records` yields. Trusted: the
/// result is what those calls give for `bytes`, errors shown by `Display`.
#[verifier::external_body]
fn csv_table(bytes: &[u8]) -> (r: CsvTable)
    ensures
        r@ == csv_table_of(bytes@),
{
    let mut reader = csv::ReaderBuilder::new().flexible(true).from_reader(bytes);
    let headers = reader.headers().ok().map(|h| h.iter().map(String::from).collect());
    let records = reader
        .records()
        .map(|r| r.map(|rec| rec.iter().map(String::from).collect()).map_err(|e| e.to_string()))
        .collect();
    CsvTable { headers, records }
}

/// A field's underline: dashes as long as the field has bytes, at least three.
pub open spec fn underline(field: Seq<char>) -> Seq<char> {
    Seq::new(
        if encode_utf8(field).len() > 3 {
            encode_utf8(field).len()
        } else {
            3
        },
        |i: int| '-',
    )
}

/// The underlines of the header fields.
pub open spec fn underlines(fields: Seq<Seq<char>>) -> Seq<Seq<char>> {
    Seq::new(fields.len(), |i: int| underline(fields[i]))
}

/// The header lines: the fields joined by tabs, then their underlines; none
/// where there is no header row or it has no fields.
pub open spec fn csv_header_lines(headers: Option<Seq<Seq<char>>>) -> Seq<char> {
    match headers {
        Some(h) => if h.len() > 0 {
            join_with(h, "\t"@) + "\n"@ + join_with(underlines(h), "\t"@) + "\n"@
        } else {
            Seq::empty()
        },
        None => Seq::empty(),
    }
}

/// `text` with records `k` on added, a line each with the fields joined by
/// tabs; reading stops at the first error, noted, or once the text is
/// longer than `max` bytes.
pub open spec fn csv_rows(records: Seq<Result<Seq<Seq<char>>, Seq<char>>>, k: int, text: Seq<char>, max: nat) -> Seq<
    char,
>
    decreases records.len() - k,
{
    if k < 0 || k >= records.len() {
        text
    } else {
        match records[k] {
            Ok(fields) => {
                let next = text + join_with(fields, "\t"@) + "\n"@;
                if encode_utf8(next).len() > max {
                    next
                } else {
                    csv_rows(records, k + 1, next, max)
                }
            },
            Err(e) => text + "[CSV parse error: "@ + e + "]\n"@,
        }
    }
}

/// The answer for a CSV file from what the CSV reader gave.
pub open spec fn csv_answer(table: CsvRead, max: nat) -> Seq<char> {
    let text = trim(csv_rows(table.records, 0, csv_header_lines(table.headers), max));
    if text.len() == 0 {
        "(CSV file is empty)"@
    } else {
        text
    }
}

/// Strings as character lists.
fn char_lists(v: &Vec<String>) -> (r: Vec<Vec<char>>)
    ensures
        r@.map_values(|p: Vec<char>| p@) == crate::providers::codex::strings_view(v@),
{
    let mut out: Vec<Vec<char>> = Vec::new();
    let mut i: usize = 0;
    while i < v.len()
        invariant
            i <= v.len(),
            out@.len() == i,
            forall|k: int| 0 <= k < i ==> #[trigger] out@[k]@ == v@[k]@,
        decreases v.len() - i,
    {
        out.push(chars_of(v[i].as_str()));
        i = i + 1;
    }
    assert(out@.map_values(|p: Vec<char>| p@) =~= crate::providers::codex::strings_view(v@));
    out
}

/// The answer for a CSV file from what the CSV reader gave.
pub fn csv_reply(table: &CsvTable, max_chars: usize) -> (r: String)
    ensures
        r@ == csv_answer(table@, max_chars as nat),
{
    let ghost tv = table@;
    let mut text: Vec<char> = Vec::new();
    match &table.headers {
        Some(h) => {
            if h.len() > 0 {
                let fields = char_lists(h);
                let mut lines: Vec<Vec<char>> = Vec::new();
                let mut i: usize = 0;
                while i < h.len()
                    invariant
                        i <= h.len(),
                        lines@.len() == i,
                        forall|k: int| 0 <= k < i ==> #[trigger] lines@[k]@ == underline(h@[k]@),
                    decreases h.len() - i,
                {
                    let n = byte_len(h[i].as_str());
                    let width = if n > 3 {
                        n
                    } else {
                        3
                    };
                    let mut d: Vec<char> = Vec::new();
                    let mut j: usize = 0;
                    while j < width
                        invariant
                            j <= width,
                            d@ == Seq::new(j as nat, |x: int| '-'),
                        decreases width - j,
                    {
                        d.push('-');
                        assert(d@ =~= Seq::new((j + 1) as nat, |x: int| '-'));
                        j = j + 1;
                    }
                    lines.push(d);
                    i = i + 1;
                }
                assert(lines@.map_values(|p: Vec<char>| p@) =~= underlines(crate::providers::codex::strings_view(h@)));
                append_str(&mut text, join_exec(&fields, "\t").as_str());
                append_str(&mut text, "\n");
                append_str(&mut text, join_exec(&lines, "\t").as_str());
                append_str(&mut text, "\n");
            }
        },
        None => {},
    }
    assert(text@ == csv_header_lines(tv.headers));
    let mut k: usize = 0;
    while k < table.records.len()
        invariant_except_break
            csv_rows(tv.records, k as int, text@, max_chars as nat) == csv_rows(
                tv.records,
                0,
                csv_header_lines(tv.headers),
                max_chars as nat,
            ),
        invariant
            k <= table.records.len(),
            tv == table@,
        ensures
            text@ == csv_rows(tv.records, 0, csv_header_lines(tv.headers), max_chars as nat),
        decreases table.records.len() - k,
    {
        assert(tv.records[k as int] == record_view(table.records@[k as int]));
        match &table.records[k] {
            Ok(fields) => {
                let parts = char_lists(fields);
                append_str(&mut text, join_exec(&parts, "\t").as_str());
                append_str(&mut text, "\n");
                if byte_len(string_from(&text).as_str()) > max_chars {
                    break;
                }
            },
            Err(e) => {
                append_str(&mut text, "[CSV parse error: ");
                append_str(&mut text, e.as_str());
                append_str(&mut text, "]\n");
                break;
            },
        }
        k = k + 1;
    }
    let t = trim_exec(&text);
    if t.len() == 0 {
        "(CSV file is empty)".to_string()
    } else {
        string_from(&t)
    }
}

/// The text of a CSV file: the header row, its underline, and a line per
/// record with the fields joined by tabs; reading stops at the first error
/// or once the text is longer than `max_chars` bytes. The text is given whole.
pub fn extract_csv_structured(bytes: &[u8], max_chars: usize) -> (r: String)
    ensures
        r@ == csv_answer(csv_table_of(bytes@), max_chars as nat),
{
    let table = csv_table(bytes);
    csv_reply(&table, max_chars)
}

// ---------------------------------------------------------------------------
// E-mail
// ---------------------------------------------------------------------------

/// One part of a message: its MIME type, its decoded body where it decodes,
/// whether it is an attachment, and the file name its disposition gives.
pub struct MailPart {
    pub mimetype: String,
    pub body: Option<String>,
    pub attachment: bool,
    pub filename: Option<String>,
}

/// A parsed message: its headers as (name, value) pairs in order, and its
/// parts, each before the parts inside it (the message itself first).
pub struct MailDoc {
    pub headers: Vec<(String, String)>,
    pub parts: Vec<MailPart>,
}

/// The mathematical form of a `MailPart`.
pub struct PartView {
    pub mimetype: Seq<char>,
    pub body: Option<Seq<char>>,
    pub attachment: bool,
    pub filename: Option<Seq<char>>,
}

/// The mathematical form of a `MailDoc`.
pub struct MailView {
    pub headers: Seq<(Seq<char>, Seq<char>)>,
    pub parts: Seq<PartView>,
}

/// The view of an optional string.
pub open spec fn opt_view(s: Option<String>) -> Option<Seq<char>> {
    match s {
        Some(x) => Some(x@),
        None => None,
    }
}

impl View for MailPart {
    type V = PartView;

    open spec fn view(&self) -> PartView {
        PartView {
            mimetype: self.mimetype@,
            body: opt_view(self.body),
            attachment: self.attachment,
            filename: opt_view(self.filename),
        }
    }
}

impl View for MailDoc {
    type V = MailView;

    open spec fn view(&self) -> MailView {
        MailView {
            headers: Seq::new(self.headers@.len(), |i: int| (self.headers@[i].0@, self.headers@[i].1@)),
            parts: Seq::new(self.parts@.len(), |i: int| self.parts@[i]@),
        }
    }
}

/// A part of a message and the parts inside it, as values.
pub struct PartNode {
    pub info: PartView,
    pub subparts: Seq<PartNode>,
}

/// The views of a list of header pairs.
pub open spec fn header_pairs(h: Seq<(String, String)>) -> Seq<(Seq<char>, Seq<char>)> {
    Seq::new(h.len(), |i: int| (h[i].0@, h[i].1@))
}

#[verifier::external_type_specification]
#[verifier::external_body]
pub struct ExParsedMail<'a>(mailparse::ParsedMail<'a>);

/// The part tree of a parsed message: each part's MIME type, decoded body,
/// disposition and file name, with its subparts in order.
pub uninterp spec fn mail_tree(m: mailparse::ParsedMail<'_>) -> PartNode;

/// The headers of a parsed message as (name, value) pairs, in order.
pub uninterp spec fn mail_headers_of(m: mailparse::ParsedMail<'_>) -> Seq<(Seq<char>, Seq<char>)>;

/// What `mailparse::parse_mail` reads from the bytes of a message: its
/// headers and part tree, or the message of its error.
pub uninterp spec fn mail_parse_of(bytes: Seq<u8>) -> Result<(Seq<(Seq<char>, Seq<char>)>, PartNode), Seq<char>>;

/// Calls `mailparse::parse_mail`. Trusted: the message read is what the
/// crate reads from `bytes`, the error shown by `Display`.
#[verifier::external_body]
fn parse_mail(bytes: &[u8]) -> (r: Result<mailparse::ParsedMail<'_>, String>)
    ensures
        match r {
            Ok(m) => mail_parse_of(bytes@) == Ok::<(Seq<(Seq<char>, Seq<char>)>, PartNode), Seq<char>>(
                (mail_headers_of(m), mail_tree(m)),
            ),
            Err(e) => mail_parse_of(bytes@) == Err::<(Seq<(Seq<char>, Seq<char>)>, PartNode), Seq<char>>(e@),
        },
{
    mailparse::parse_mail(bytes).map_err(|e| e.to_string())
}

/// Reads the message's `headers` with `get_key` and `get_value`. Trusted:
/// the pairs are the message's headers in order.
#[verifier::external_body]
fn mail_header_list(m: &mailparse::ParsedMail<'_>) -> (r: Vec<(String, String)>)
    ensures
        header_pairs(r@) == mail_headers_of(*m),
{
    m.headers.iter().map(|h| (h.get_key(), h.get_value())).collect()
}

/// Reads a part's MIME type, `get_body` and `get_content_disposition`.
/// Trusted: the result is that part's information in the tree.
#[verifier::external_body]
fn part_info(p: &mailparse::ParsedMail<'_>) -> (r: MailPart)
    ensures
        r@ == mail_tree(*p).info,
{
    let d = p.get_content_disposition();
    MailPart {
        mimetype: p.ctype.mimetype.clone(),
        body: p.get_body().ok(),
        attachment: d.disposition == mailparse::DispositionType::Attachment,
        filename: d.params.get("filename").cloned(),
    }
}

/// The number of a part's `subparts`. Trusted: it is that of the tree.
#[verifier::external_body]
fn subpart_count(p: &mailparse::ParsedMail<'_>) -> (r: usize)
    ensures
        r == mail_tree(*p).subparts.len(),
{
    p.subparts.len()
}

/// Subpart `i` of a part. Trusted: its tree is the `i`-th subtree.
#[verifier::external_body]
fn subpart_at<'a, 'b>(p: &'b mailparse::ParsedMail<'a>, i: usize) -> (r: &'b mailparse::ParsedMail<'a>)
    requires
        i < mail_tree(*p).subparts.len(),
    ensures
        mail_tree(*r) == mail_tree(*p).subparts[i as int],
{
    &p.subparts[i]
}

/// The parts of a tree, each before the parts inside it.
pub open spec fn preorder(n: PartNode) -> Seq<PartView>
    decreases n, 0int,
{
    seq![n.info] + preorder_from(n.subparts, 0)
}

/// The parts of the trees `kids[k..]`, in order, each before its subparts.
pub open spec fn preorder_from(kids: Seq<PartNode>, k: int) -> Seq<PartView>
    decreases kids, kids.len() - k,
{
    if k < 0 || k >= kids.len() {
        Seq::empty()
    } else {
        preorder(kids[k]) + preorder_from(kids, k + 1)
    }
}

/// Append the parts of `p`'s tree to `out`, each before its subparts.
fn collect_parts(p: &mailparse::ParsedMail<'_>, out: &mut Vec<MailPart>)
    ensures
        Seq::new(final(out)@.len(), |i: int| final(out)@[i]@) == Seq::new(old(out)@.len(), |i: int| old(out)@[i]@)
            + preorder(mail_tree(*p)),
    decreases mail_tree(*p), 0int,
{
    let ghost t = mail_tree(*p);
    let ghost start = Seq::new(out@.len(), |i: int| out@[i]@);
    out.push(part_info(p));
    assert(Seq::new(out@.len(), |i: int| out@[i]@) =~= start + seq![t.info]);
    let n = subpart_count(p);
    let mut i: usize = 0;
    while i < n
        invariant
            i <= n,
            n == t.subparts.len(),
            t == mail_tree(*p),
            Seq::new(out@.len(), |j: int| out@[j]@) + preorder_from(t.subparts, i as int) == start + preorder(t),
        decreases n - i,
    {
        let sub = subpart_at(p, i);
        let ghost before = Seq::new(out@.len(), |j: int| out@[j]@);
        proof {
            assert(decreases_to!(t => t.subparts));
            assert(decreases_to!(t.subparts => t.subparts[i as int]));
        }
        collect_parts(sub, out);
        assert(preorder_from(t.subparts, i as int) == preorder(t.subparts[i as int]) + preorder_from(
            t.subparts,
            i + 1,
        ));
        assert(Seq::new(out@.len(), |j: int| out@[j]@) + preorder_from(t.subparts, i + 1) =~= before
            + preorder_from(t.subparts, i as int));
        i = i + 1;
    }
    assert(preorder_from(t.subparts, n as int) =~= Seq::<PartView>::empty());
    assert(Seq::new(out@.len(), |j: int| out@[j]@) =~= start + preorder(t));
}

/// The headers and parts of a parsed message, each part before those inside it.
fn mail_doc(m: &mailparse::ParsedMail<'_>) -> (r: MailDoc)
    ensures
        r@ == (MailView { headers: mail_headers_of(*m), parts: preorder(mail_tree(*m)) }),
{
    let headers = mail_header_list(m);
    let mut parts: Vec<MailPart> = Vec::new();
    collect_parts(m, &mut parts);
    let r = MailDoc { headers, parts };
    assert(r@.headers =~= mail_headers_of(*m));
    assert(r@.parts =~= preorder(mail_tree(*m)));
    r
}

/// What the mail parser gives for a message, as headers and parts.
pub open spec fn mail_of(bytes: Seq<u8>) -> Result<MailView, Seq<char>> {
    match mail_parse_of(bytes) {
        Ok((h, t)) => Ok(MailView { headers: h, parts: preorder(t) }),
        Err(e) => Err(e),
    }
}

/// The headers and parts of a message.
fn read_mail(bytes: &[u8]) -> (r: Result<MailDoc, String>)
    ensures
        match r {
            Ok(m) => mail_of(bytes@) == Ok::<MailView, Seq<char>>(m@),
            Err(e) => mail_of(bytes@) == Err::<MailView, Seq<char>>(e@),
        },
{
    match parse_mail(bytes) {
        Ok(m) => Ok(mail_doc(&m)),
        Err(e) => Err(e),
    }
}

/// The value of the first header named `key` in any ASCII case.
pub open spec fn header_value(headers: Seq<(Seq<char>, Seq<char>)>, key: Seq<char>) -> Option<Seq<char>>
    decreases headers.len(),
{
    if headers.len() == 0 {
        None
    } else if ascii_lower_seq(headers[0].0) == ascii_lower_seq(key) {
        Some(headers[0].1)
    } else {
        header_value(headers.drop_first(), key)
    }
}

/// The line for header `key`: `key: value`, where the first header of that
/// name has a value.
pub open spec fn header_line(headers: Seq<(Seq<char>, Seq<char>)>, key: Seq<char>) -> Seq<char> {
    match header_value(headers, key) {
        Some(v) => if v.len() > 0 {
            key + ": "@ + v + "\n"@
        } else {
            Seq::empty()
        },
        None => Seq::empty(),
    }
}

/// The lines of the headers shown: From, To, Cc, Subject, Date.
pub open spec fn header_lines(headers: Seq<(Seq<char>, Seq<char>)>) -> Seq<char> {
    header_line(headers, "From"@) + header_line(headers, "To"@) + header_line(headers, "Cc"@) + header_line(
        headers,
        "Subject"@,
    ) + header_line(headers, "Date"@)
}

/// The text a part adds: a plain or HTML body (HTML rendered as plain
/// text), trimmed, and a blank line after it; nothing where that is empty.
pub open spec fn part_text(p: PartView) -> Seq<char> {
    let ctype = ascii_lower_seq(p.mimetype);
    if ctype == "text/plain"@ || ctype == "text/html"@ {
        match p.body {
            Some(b) => {
                let shown = if ctype == "text/html"@ {
                    match plain_text_of(b, 120) {
                        Some(t) => t,
                        None => Seq::empty(),
                    }
                } else {
                    b
                };
                if trim(shown).len() > 0 {
                    trim(shown) + "\n\n"@
                } else {
                    Seq::empty()
                }
            },
            None => Seq::empty(),
        }
    } else {
        Seq::empty()
    }
}

/// The text of parts `k` on.
pub open spec fn parts_text(parts: Seq<PartView>, k: int) -> Seq<char>
    decreases parts.len() - k,
{
    if k < 0 || k >= parts.len() {
        Seq::empty()
    } else {
        part_text(parts[k]) + parts_text(parts, k + 1)
    }
}

/// The attachments among parts `k` on: `name (type)`, the name
/// `(unnamed)` where the disposition gives none.
pub open spec fn attachments(parts: Seq<PartView>, k: int) -> Seq<Seq<char>>
    decreases parts.len() - k,
{
    if k < 0 || k >= parts.len() {
        Seq::empty()
    } else if parts[k].attachment {
        seq![
            match parts[k].filename {
                Some(n) => n,
                None => "(unnamed)"@,
            } + " ("@ + parts[k].mimetype + ")"@,
        ] + attachments(parts, k + 1)
    } else {
        attachments(parts, k + 1)
    }
}

/// The attachment lines, under a heading where there are any.
pub open spec fn attachment_lines(atts: Seq<Seq<char>>) -> Seq<char>
    decreases atts.len(),
{
    if atts.len() == 0 {
        Seq::empty()
    } else {
        attachment_lines(atts.drop_last()) + (if atts.len() == 1 {
            "Attachments:\n"@
        } else {
            Seq::empty()
        }) + "  - "@ + atts.last() + "\n"@
    }
}

/// The answer for a message from what the mail parser gave.
pub open spec fn eml_answer(parsed: Result<MailView, Seq<char>>) -> Seq<char> {
    match parsed {
        Err(e) => "Error parsing email: "@ + e,
        Ok(m) => {
            let text = trim(
                header_lines(m.headers) + "\n---\n\n"@ + parts_text(m.parts, 0) + attachment_lines(
                    attachments(m.parts, 0),
                ),
            );
            if text.len() == 0 {
                "(Email contains no readable content)"@
            } else {
                text
            }
        },
    }
}

fn push_header_line(text: &mut Vec<char>, headers: &Vec<(String, String)>, key: &str, Ghost(hv): Ghost<
    Seq<(Seq<char>, Seq<char>)>,
>)
    requires
        hv == Seq::new(headers@.len(), |i: int| (headers@[i].0@, headers@[i].1@)),
    ensures
        final(text)@ == old(text)@ + header_line(hv, key@),
{
    let lk = ascii_lowercase_exec(&chars_of(key));
    let mut i: usize = 0;
    assert(hv.skip(0) =~= hv);
    while i < headers.len()
        invariant
            i <= headers.len(),
            hv == Seq::new(headers@.len(), |j: int| (headers@[j].0@, headers@[j].1@)),
            lk@ == ascii_lower_seq(key@),
            header_value(hv, key@) == header_value(hv.skip(i as int), key@),
            text@ == old(text)@,
        decreases headers.len() - i,
    {
        let hk = ascii_lowercase_exec(&chars_of(headers[i].0.as_str()));
        assert(hv.skip(i as int)[0] == hv[i as int]);
        assert(hv.skip(i as int).drop_first() =~= hv.skip(i + 1));
        if crate::text::slices_equal(&hk, &lk) {
            let v = chars_of(headers[i].1.as_str());
            if v.len() > 0 {
                append_str(text, key);
                append_str(text, ": ");
                append_chars(text, &v);
                append_str(text, "\n");
            }
            assert(header_value(hv, key@) == Some(hv[i as int].1));
            return;
        }
        i = i + 1;
    }
    assert(hv.skip(i as int) =~= Seq::<(Seq<char>, Seq<char>)>::empty());
}

/// The text a part adds.
fn part_text_exec(p: &MailPart) -> (r: Vec<char>)
    ensures
        r@ == part_text(p@),
{
    let ctype = ascii_lowercase_exec(&chars_of(p.mimetype.as_str()));
    let is_html = crate::text::slices_equal(&ctype, &chars_of("text/html"));
    if !(crate::text::slices_equal(&ctype, &chars_of("text/plain")) || is_html) {
        return Vec::new();
    }
    match &p.body {
        Some(b) => {
            let shown: Vec<char> = if is_html {
                match html_to_text(b.as_str(), 120) {
                    Some(t) => chars_of(t.as_str()),
                    None => Vec::new(),
                }
            } else {
                chars_of(b.as_str())
            };
            let mut t = trim_exec(&shown);
            if t.len() > 0 {
                append_str(&mut t, "\n\n");
                t
            } else {
                Vec::new()
            }
        },
        None => Vec::new(),
    }
}

/// The answer for a message from what the mail parser gave.
pub fn eml_reply(parsed: Result<MailDoc, String>) -> (r: String)
    ensures
        r@ == eml_answer(
            match parsed {
                Ok(m) => Ok(m@),
                Err(e) => Err(e@),
            },
        ),
{
    let m = match parsed {
        Err(e) => {
            let mut v = chars_of("Error parsing email: ");
            append_str(&mut v, e.as_str());
            return string_from(&v);
        },
        Ok(m) => m,
    };
    let ghost mv = m@;
    let mut text: Vec<char> = Vec::new();
    push_header_line(&mut text, &m.headers, "From", Ghost(mv.headers));
    push_header_line(&mut text, &m.headers, "To", Ghost(mv.headers));
    push_header_line(&mut text, &m.headers, "Cc", Ghost(mv.headers));
    push_header_line(&mut text, &m.headers, "Subject", Ghost(mv.headers));
    push_header_line(&mut text, &m.headers, "Date", Ghost(mv.headers));
    append_str(&mut text, "\n---\n\n");
    let ghost head = text@;
    assert(head =~= header_lines(mv.headers) + "\n---\n\n"@);
    let mut k: usize = 0;
    while k < m.parts.len()
        invariant
            k <= m.parts.len(),
            mv == m@,
            text@ + parts_text(mv.parts, k as int) == head + parts_text(mv.parts, 0),
        decreases m.parts.len() - k,
    {
        assert(mv.parts[k as int] == m.parts@[k as int]@);
        let pt = part_text_exec(&m.parts[k]);
        let ghost before = text@;
        append_chars(&mut text, &pt);
        assert(before + parts_text(mv.parts, k as int) =~= text@ + parts_text(mv.parts, k + 1));
        k = k + 1;
    }
    assert(text@ =~= head + parts_text(mv.parts, 0));
    let ghost body = text@;
    let mut atts: Vec<Vec<char>> = Vec::new();
    let mut j: usize = 0;
    while j < m.parts.len()
        invariant
            j <= m.parts.len(),
            mv == m@,
            atts@.map_values(|a: Vec<char>| a@) + attachments(mv.parts, j as int) == attachments(mv.parts, 0),
        decreases m.parts.len() - j,
    {
        assert(mv.parts[j as int] == m.parts@[j as int]@);
        let ghost before = atts@.map_values(|a: Vec<char>| a@);
        if m.parts[j].attachment {
            let mut a = match &m.parts[j].filename {
                Some(n) => chars_of(n.as_str()),
                None => chars_of("(unnamed)"),
            };
            append_str(&mut a, " (");
            append_str(&mut a, m.parts[j].mimetype.as_str());
            append_str(&mut a, ")");
            atts.push(a);
            assert(atts@.map_values(|x: Vec<char>| x@) =~= before.push(
                atts@[atts@.len() - 1]@,
            ));
            assert(before + attachments(mv.parts, j as int) =~= atts@.map_values(|x: Vec<char>| x@)
                + attachments(mv.parts, j + 1));
        }
        j = j + 1;
    }
    let ghost av = atts@.map_values(|a: Vec<char>| a@);
    assert(av =~= attachments(mv.parts, 0));
    let mut i: usize = 0;
    while i < atts.len()
        invariant
            i <= atts.len(),
            av == atts@.map_values(|a: Vec<char>| a@),
            text@ == body + attachment_lines(av.take(i as int)),
        decreases atts.len() - i,
    {
        let ghost before = text@;
        if i == 0 {
            append_str(&mut text, "Attachments:\n");
        }
        append_str(&mut text, "  - ");
        append_chars(&mut text, &atts[i]);
        append_str(&mut text, "\n");
        proof {
            assert(av.take(i + 1).drop_last() =~= av.take(i as int));
            assert(av.take(i + 1).last() == atts@[i as int]@);
            assert(text@ =~= body + attachment_lines(av.take(i + 1)));
        }
        i = i + 1;
    }
    assert(av.take(atts.len() as int) =~= av);
    let t = trim_exec(&text);
    if t.len() == 0 {
        "(Email contains no readable content)".to_string()
    } else {
        string_from(&t)
    }
}

/// The text of an e-mail: the From, To, Cc, Subject and Date headers, the
/// plain and HTML bodies of its parts (HTML rendered as plain text), and a
/// list of its attachments. The text is given whole.
pub fn extract_eml_text(bytes: &[u8]) -> (r: String)
    ensures
        r@ == eml_answer(mail_of(bytes@)),
{
    eml_reply(read_mail(bytes))
}

} // verus!
