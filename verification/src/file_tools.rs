//! The replies of the native file tools: a read file (cut to a limit), a
//! written file, the output of a Python run, and a directory listing sorted
//! by name. Reading, writing and running are the caller's work.

use vstd::prelude::*;
use vstd::utf8::{encode_utf8, is_char_boundary};
use crate::routes::files::{lemma_lex_irreflexive, lemma_lex_total, lemma_lex_transitive, lex_lt, lex_lt_exec};
use crate::routes::tools::{push_right_aligned, right_align};
use crate::text::{
    append_chars, append_str, byte_len, byte_prefix, chars_of, decimal, int_text, join_exec, join_with,
    prefix_bytes, push_decimal, string_from,
};

verus! {

/// Bytes of a read file given back whole.
pub const MAX_READ_SIZE: usize = 102_400;

/// The reply for a file's content: the content, or, where it is longer than
/// `MAX_READ_SIZE` bytes, its first `MAX_READ_SIZE` bytes and a note of the
/// sizes.
pub open spec fn read_reply_spec(content: Seq<char>) -> Seq<char> {
    if encode_utf8(content).len() > MAX_READ_SIZE {
        byte_prefix(content, MAX_READ_SIZE as nat) + "\n\n[Truncated: showing first "@ + decimal(
            MAX_READ_SIZE as nat,
        ) + " of "@ + decimal(encode_utf8(content).len()) + " bytes]"@
    } else {
        content
    }
}

/// Can a file's content be given back: it fits, or its cut falls on a
/// character boundary (the cut is made at a byte position, which must not
/// split a character)?
pub open spec fn read_cut_ok(content: Seq<char>) -> bool {
    encode_utf8(content).len() <= MAX_READ_SIZE || is_char_boundary(encode_utf8(content), MAX_READ_SIZE as int)
}

/// The reply for a file's content.
pub fn read_reply(content: String) -> (r: String)
    requires
        read_cut_ok(content@),
    ensures
        r@ == read_reply_spec(content@),
{
    let total = byte_len(content.as_str());
    if total > MAX_READ_SIZE {
        let mut v = chars_of(prefix_bytes(content.as_str(), MAX_READ_SIZE).as_str());
        append_str(&mut v, "\n\n[Truncated: showing first ");
        push_decimal(&mut v, MAX_READ_SIZE as u64);
        append_str(&mut v, " of ");
        push_decimal(&mut v, total as u64);
        append_str(&mut v, " bytes]");
        string_from(&v)
    } else {
        content
    }
}

/// The reply where a file could not be read.
pub fn read_error_reply(path: &str, error: &str) -> (r: String)
    ensures
        r@ == "Error reading '"@ + path@ + "': "@ + error@,
{
    let mut v = chars_of("Error reading '");
    append_str(&mut v, path);
    append_str(&mut v, "': ");
    append_str(&mut v, error);
    string_from(&v)
}

/// The reply after a file was written.
pub fn written_reply(bytes: u64, path: &str) -> (r: String)
    ensures
        r@ == "Written "@ + decimal(bytes as nat) + " bytes to "@ + path@,
{
    let mut v = chars_of("Written ");
    push_decimal(&mut v, bytes);
    append_str(&mut v, " bytes to ");
    append_str(&mut v, path);
    string_from(&v)
}

/// The reply where the directories of a file could not be created.
pub fn mkdir_error_reply(path: &str, error: &str) -> (r: String)
    ensures
        r@ == "Error creating directories for '"@ + path@ + "': "@ + error@,
{
    let mut v = chars_of("Error creating directories for '");
    append_str(&mut v, path);
    append_str(&mut v, "': ");
    append_str(&mut v, error);
    string_from(&v)
}

/// The reply where a file could not be written.
pub fn write_error_reply(path: &str, error: &str) -> (r: String)
    ensures
        r@ == "Error writing '"@ + path@ + "': "@ + error@,
{
    let mut v = chars_of("Error writing '");
    append_str(&mut v, path);
    append_str(&mut v, "': ");
    append_str(&mut v, error);
    string_from(&v)
}

/// The reply where a directory could not be listed.
pub fn dir_error_reply(path: &str, error: &str) -> (r: String)
    ensures
        r@ == "Error reading directory '"@ + path@ + "': "@ + error@,
{
    let mut v = chars_of("Error reading directory '");
    append_str(&mut v, path);
    append_str(&mut v, "': ");
    append_str(&mut v, error);
    string_from(&v)
}

/// The reply where the script file of a Python run could not be written.
pub fn temp_file_error_reply(error: &str) -> (r: String)
    ensures
        r@ == "Error writing temp file: "@ + error@,
{
    let mut v = chars_of("Error writing temp file: ");
    append_str(&mut v, error);
    string_from(&v)
}

/// The reply where Python could not be run.
pub fn python_error_reply(error: &str) -> (r: String)
    ensures
        r@ == "Error running Python: "@ + error@,
{
    let mut v = chars_of("Error running Python: ");
    append_str(&mut v, error);
    string_from(&v)
}

/// The reply for a Python run: its output with its error output after it,
/// where there is any; a note where it printed nothing.
pub open spec fn python_reply_spec(stdout: Seq<char>, stderr: Seq<char>) -> Seq<char> {
    if stderr.len() > 0 {
        stdout + "\nStderr: "@ + stderr
    } else if stdout.len() == 0 {
        "Python script executed successfully (no output)"@
    } else {
        stdout
    }
}

/// The reply for a Python run.
pub fn python_reply(stdout: &str, stderr: &str) -> (r: String)
    ensures
        r@ == python_reply_spec(stdout@, stderr@),
{
    let out = chars_of(stdout);
    let err = chars_of(stderr);
    if err.len() > 0 {
        let mut v = out;
        append_str(&mut v, "\nStderr: ");
        append_chars(&mut v, &err);
        string_from(&v)
    } else if out.len() == 0 {
        "Python script executed successfully (no output)".to_string()
    } else {
        string_from(&out)
    }
}

// ---------------------------------------------------------------------------
// Directory listings
// ---------------------------------------------------------------------------

/// The kind of a directory entry, as far as its metadata could be read.
#[derive(Clone, Copy)]
pub enum EntryKind {
    Dir,
    Link,
    File,
    Unknown,
}

/// The label of an entry kind.
pub open spec fn kind_label(k: EntryKind) -> Seq<char> {
    match k {
        EntryKind::Dir => "<DIR>"@,
        EntryKind::Link => "<LINK>"@,
        EntryKind::File => "<FILE>"@,
        EntryKind::Unknown => "<?>"@,
    }
}

/// A directory entry: its name, its size in bytes (0 where its metadata
/// could not be read) and its kind.
pub struct DirEntryInfo {
    pub name: String,
    pub size: u64,
    pub kind: EntryKind,
}

/// `t` left-aligned in `width` columns (characters).
pub open spec fn left_align(t: Seq<char>, width: nat) -> Seq<char> {
    if t.len() >= width {
        t
    } else {
        t + Seq::new((width - t.len()) as nat, |k: int| ' ')
    }
}

fn push_left_aligned(out: &mut Vec<char>, t: &Vec<char>, width: usize)
    ensures
        final(out)@ == old(out)@ + left_align(t@, width as nat),
{
    append_chars(out, t);
    let ghost mid = out@;
    let mut pad: usize = 0;
    if t.len() < width {
        pad = width - t.len();
    }
    let mut i: usize = 0;
    while i < pad
        invariant
            i <= pad,
            out@ == mid + Seq::new(i as nat, |k: int| ' '),
        decreases pad - i,
    {
        out.push(' ');
        proof {
            assert(out@ =~= mid + Seq::new((i + 1) as nat, |k: int| ' '));
        }
        i += 1;
    }
    assert(out@ =~= old(out)@ + left_align(t@, width as nat));
}

/// An entry's line: name in 40 columns, size right-aligned in 10, kind.
pub open spec fn entry_line(name: Seq<char>, size: u64, kind: EntryKind) -> Seq<char> {
    left_align(name, 40) + " "@ + right_align(decimal(size as nat), 10) + " "@ + kind_label(kind)
}

/// The header lines of a listing of `path`.
pub open spec fn listing_head(path: Seq<char>) -> Seq<Seq<char>> {
    seq![
        "Directory listing: "@ + path,
        left_align("Name"@, 40) + " "@ + right_align("Size"@, 10) + " "@ + "Type"@,
        Seq::new(60, |k: int| '-'),
    ]
}

/// `x` put into `s`, which is sorted by name, after the entries whose name
/// is not greater.
pub open spec fn insert_entry(s: Seq<(Seq<char>, u64, EntryKind)>, x: (Seq<char>, u64, EntryKind)) -> Seq<
    (Seq<char>, u64, EntryKind),
>
    decreases s.len(),
{
    if s.len() == 0 {
        seq![x]
    } else if lex_lt(x.0, s.last().0) {
        insert_entry(s.drop_last(), x).push(s.last())
    } else {
        s.push(x)
    }
}

/// Entries sorted by name in code point order, entries of equal name in the
/// order given (as a stable sort orders them).
pub open spec fn sorted_entries(es: Seq<(Seq<char>, u64, EntryKind)>) -> Seq<(Seq<char>, u64, EntryKind)>
    decreases es.len(),
{
    if es.len() == 0 {
        Seq::empty()
    } else {
        insert_entry(sorted_entries(es.drop_last()), es.last())
    }
}

/// Are entries sorted by name: none's name strictly before that of one
/// ahead of it?
pub open spec fn entries_in_order(s: Seq<(Seq<char>, u64, EntryKind)>) -> bool {
    forall|i: int, j: int| 0 <= i < j < s.len() ==> !lex_lt(#[trigger] s[j].0, #[trigger] s[i].0)
}

proof fn lemma_insert_entry(s: Seq<(Seq<char>, u64, EntryKind)>, x: (Seq<char>, u64, EntryKind))
    requires
        entries_in_order(s),
    ensures
        entries_in_order(insert_entry(s, x)),
        insert_entry(s, x).to_multiset() =~= s.to_multiset().insert(x),
    decreases s.len(),
{
    broadcast use vstd::seq_lib::group_to_multiset_ensures;
    if s.len() > 0 {
        let last = s.last();
        if lex_lt(x.0, last.0) {
            let t = s.drop_last();
            assert(entries_in_order(t));
            lemma_insert_entry(t, x);
            let r = insert_entry(t, x);
            assert forall|i: int| 0 <= i < r.len() implies !lex_lt(last.0, #[trigger] r[i].0) by {
                assert(r.to_multiset().count(r[i]) > 0);
                assert(t.to_multiset().insert(x).count(r[i]) > 0);
                if r[i] == x {
                    lemma_lex_irreflexive(x.0);
                    if lex_lt(last.0, x.0) {
                        lemma_lex_transitive(x.0, last.0, x.0);
                    }
                } else {
                    assert(t.to_multiset().count(r[i]) > 0);
                    assert(t.contains(r[i]));
                    let k = choose|k: int| 0 <= k < t.len() && t[k] == r[i];
                    assert(s[k] == t[k]);
                    assert(!lex_lt(s[s.len() - 1].0, s[k].0));
                }
            }
            assert(s =~= t.push(last));
        } else {
            assert forall|i: int| 0 <= i < s.len() implies !lex_lt(x.0, #[trigger] s[i].0) by {
                if i < s.len() - 1 {
                    assert(!lex_lt(s[s.len() - 1].0, s[i].0));
                    lemma_lex_total(s[i].0, s[s.len() - 1].0);
                    if lex_lt(x.0, s[i].0) {
                        if s[i].0 == last.0 {
                        } else {
                            lemma_lex_transitive(x.0, s[i].0, last.0);
                        }
                    }
                }
            }
        }
    }
}

/// A listing shows the entries sorted by name in code point order, each
/// entry read shown once.
pub proof fn lemma_sorted_entries(es: Seq<(Seq<char>, u64, EntryKind)>)
    ensures
        entries_in_order(sorted_entries(es)),
        sorted_entries(es).to_multiset() =~= es.to_multiset(),
    decreases es.len(),
{
    broadcast use vstd::seq_lib::group_to_multiset_ensures;
    if es.len() > 0 {
        lemma_sorted_entries(es.drop_last());
        lemma_insert_entry(sorted_entries(es.drop_last()), es.last());
        assert(es =~= es.drop_last().push(es.last()));
    }
}

/// The view of an entry.
pub open spec fn entry_view(e: DirEntryInfo) -> (Seq<char>, u64, EntryKind) {
    (e.name@, e.size, e.kind)
}

/// The views of entries.
pub open spec fn entries_view(v: Seq<DirEntryInfo>) -> Seq<(Seq<char>, u64, EntryKind)> {
    Seq::new(v.len(), |i: int| entry_view(v[i]))
}

/// The lines of sorted entries.
pub open spec fn entry_lines(es: Seq<(Seq<char>, u64, EntryKind)>) -> Seq<Seq<char>> {
    Seq::new(es.len(), |i: int| entry_line(es[i].0, es[i].1, es[i].2))
}

/// A listing of directory `path`: a heading, the column titles, a rule, and
/// a line per entry sorted by name.
pub open spec fn directory_listing_spec(path: Seq<char>, entries: Seq<(Seq<char>, u64, EntryKind)>) -> Seq<char> {
    join_with(listing_head(path) + entry_lines(sorted_entries(entries)), "\n"@)
}

fn insert_entry_exec(v: &mut Vec<DirEntryInfo>, x: DirEntryInfo)
    ensures
        entries_view(final(v)@) == insert_entry(entries_view(old(v)@), entry_view(x)),
    decreases old(v)@.len(),
{
    let n = v.len();
    let ghost before = entries_view(v@);
    if n == 0 {
        v.push(x);
        assert(entries_view(v@) =~= seq![entry_view(x)]);
        return;
    }
    let lt = lex_lt_exec(&chars_of(x.name.as_str()), &chars_of(v[n - 1].name.as_str()));
    if lt {
        let last = v.pop().unwrap();
        assert(entries_view(v@) =~= before.drop_last());
        insert_entry_exec(v, x);
        let ghost mid = entries_view(v@);
        v.push(last);
        assert(entries_view(v@) =~= mid.push(before.last()));
    } else {
        let ghost xv = entry_view(x);
        v.push(x);
        assert(entries_view(v@) =~= before.push(xv));
    }
}

fn kind_text(k: &EntryKind) -> (r: Vec<char>)
    ensures
        r@ == kind_label(*k),
{
    match k {
        EntryKind::Dir => chars_of("<DIR>"),
        EntryKind::Link => chars_of("<LINK>"),
        EntryKind::File => chars_of("<FILE>"),
        EntryKind::Unknown => chars_of("<?>"),
    }
}

/// A listing of directory `path` with its entries sorted by name.
pub fn directory_listing(path: &str, entries: Vec<DirEntryInfo>) -> (r: String)
    ensures
        r@ == directory_listing_spec(path@, entries_view(entries@)),
{
    let ghost ev = entries_view(entries@);
    let mut sorted: Vec<DirEntryInfo> = Vec::new();
    let mut j: usize = 0;
    while j < entries.len()
        invariant
            j <= entries.len(),
            ev == entries_view(entries@),
            entries_view(sorted@) == sorted_entries(ev.take(j as int)),
        decreases entries.len() - j,
    {
        let e = &entries[j];
        let copy = DirEntryInfo { name: e.name.clone(), size: e.size, kind: e.kind };
        assert(entry_view(copy) == ev[j as int]);
        insert_entry_exec(&mut sorted, copy);
        proof {
            assert(ev.take(j + 1).drop_last() =~= ev.take(j as int));
            assert(ev.take(j + 1).last() == ev[j as int]);
        }
        j += 1;
    }
    assert(ev.take(entries.len() as int) =~= ev);
    let ghost sv = entries_view(sorted@);
    let mut lines: Vec<Vec<char>> = Vec::new();
    let mut head = chars_of("Directory listing: ");
    append_str(&mut head, path);
    lines.push(head);
    let mut titles: Vec<char> = Vec::new();
    push_left_aligned(&mut titles, &chars_of("Name"), 40);
    append_str(&mut titles, " ");
    push_right_aligned(&mut titles, &chars_of("Size"), 10);
    append_str(&mut titles, " ");
    append_str(&mut titles, "Type");
    lines.push(titles);
    let mut rule: Vec<char> = Vec::new();
    let mut k: usize = 0;
    while k < 60
        invariant
            k <= 60,
            rule@ == Seq::new(k as nat, |x: int| '-'),
        decreases 60 - k,
    {
        rule.push('-');
        assert(rule@ =~= Seq::new((k + 1) as nat, |x: int| '-'));
        k += 1;
    }
    lines.push(rule);
    assert(lines@.map_values(|l: Vec<char>| l@) =~= listing_head(path@));
    let mut i: usize = 0;
    while i < sorted.len()
        invariant
            i <= sorted.len(),
            sv == entries_view(sorted@),
            lines@.map_values(|l: Vec<char>| l@) == listing_head(path@) + entry_lines(sv).take(i as int),
        decreases sorted.len() - i,
    {
        let e = &sorted[i];
        let mut line: Vec<char> = Vec::new();
        push_left_aligned(&mut line, &chars_of(e.name.as_str()), 40);
        append_str(&mut line, " ");
        let mut size: Vec<char> = Vec::new();
        push_decimal(&mut size, e.size);
        assert(size@ =~= decimal(e.size as nat));
        push_right_aligned(&mut line, &size, 10);
        append_str(&mut line, " ");
        crate::text::append_chars(&mut line, &kind_text(&e.kind));
        assert(line@ =~= entry_line(sv[i as int].0, sv[i as int].1, sv[i as int].2));
        let ghost lb = lines@.map_values(|l: Vec<char>| l@);
        let ghost lv = line@;
        lines.push(line);
        assert(lines@.map_values(|l: Vec<char>| l@) =~= lb.push(lv));
        assert(entry_lines(sv).take(i + 1) =~= entry_lines(sv).take(i as int).push(lv));
        i += 1;
    }
    assert(entry_lines(sv).take(sorted.len() as int) =~= entry_lines(sv));
    join_exec(&lines, "\n")
}

} // verus!
