//! The file browsing and upload routes: which directory is browsed, where
//! browsing may go, the order entries are shown in, and how an uploaded
//! file is named.

use vstd::prelude::*;
use vstd::utf8::encode_utf8;
use crate::json::{json_serialize, json_to_string, lemma_array_view, lemma_object_of, members_view, Json, JsonValue};
use crate::request::{decode_url, key_value, split_chars, split_on, split_pair, url_decode};
use crate::text::{
    append_str, byte_len, chars_of, contains, contains_exec, decimal, ends_with, ends_with_exec,
    push_decimal, slices_equal, starts_with, starts_with_exec, string_from, to_lowercase,
    unicode_lowercase,
};

verus! {

// ---------------------------------------------------------------------------
// Browsing
// ---------------------------------------------------------------------------

/// The value of the last `key=value` pair with key `key` (split at the
/// first `=`).
pub open spec fn last_pair_value(segments: Seq<Seq<char>>, key: Seq<char>) -> Option<Seq<char>>
    decreases segments.len(),
{
    if segments.len() == 0 {
        None
    } else {
        match key_value(segments.last()) {
            Some(kv) if kv.0 == key => Some(kv.1),
            _ => last_pair_value(segments.drop_last(), key),
        }
    }
}

/// The directory a browse request asks for: the last `path` parameter,
/// URL-decoded (as given where it does not decode), else `/app/models`.
pub open spec fn browse_path_spec(query: Seq<char>) -> Seq<char> {
    match last_pair_value(split_on(query, '&'), "path"@) {
        Some(v) => match url_decode(v) {
            Some(d) => d,
            None => v,
        },
        None => "/app/models"@,
    }
}

/// The directory a browse request asks for.
pub fn browse_path(query: &str) -> (r: String)
    ensures
        r@ == browse_path_spec(query@),
{
    let segments = split_chars(&chars_of(query), '&');
    let ghost segs = split_on(query@, '&');
    let key = chars_of("path");
    let mut found: Option<Vec<char>> = None;
    let mut i: usize = 0;
    while i < segments.len()
        invariant
            i <= segments.len(),
            key@ == "path"@,
            segs == split_on(query@, '&'),
            segments@.len() == segs.len(),
            forall|j: int| 0 <= j < segments@.len() ==> #[trigger] segments@[j]@ == segs[j],
            match found {
                Some(v) => last_pair_value(segs.take(i as int), "path"@) == Some(v@),
                None => last_pair_value(segs.take(i as int), "path"@) is None,
            },
        decreases segments.len() - i,
    {
        proof {
            assert(segs.take(i + 1).drop_last() =~= segs.take(i as int));
            assert(segs.take(i + 1).last() == segments@[i as int]@);
        }
        match split_pair(&segments[i]) {
            Some((name, value)) => {
                if slices_equal(&name, &key) {
                    found = Some(value);
                }
            },
            None => {},
        }
        i += 1;
    }
    assert(segs.take(segments.len() as int) =~= segs);
    match found {
        Some(v) => {
            let raw = string_from(&v);
            match decode_url(raw.as_str()) {
                Some(d) => d,
                None => raw,
            }
        },
        None => "/app/models".to_string(),
    }
}

/// May a directory be browsed: a drive path (a `:` as second character,
/// for the local app), or one under `/app`?
pub open spec fn browse_allowed_spec(path: Seq<char>) -> bool {
    (path.len() > 1 && path[1] == ':') || starts_with(path, "/app/models"@) || starts_with(path, "/app"@)
}

/// May a directory be browsed?
pub fn browse_allowed(path: &str) -> (r: bool)
    ensures
        r == browse_allowed_spec(path@),
{
    let p = chars_of(path);
    (p.len() > 1 && p[1] == ':') || starts_with_exec(&p, &chars_of("/app/models")) || starts_with_exec(
        &p,
        &chars_of("/app"),
    )
}

/// Is a directory a root, shown without a parent: `/app/models`, `/app`,
/// or a drive (`E:` or `E:\`, at most 3 bytes)?
pub open spec fn browse_root_spec(path: Seq<char>) -> bool {
    path == "/app/models"@ || path == "/app"@ || (encode_utf8(path).len() <= 3 && (ends_with(path, ":"@)
        || ends_with(path, ":\\"@)))
}

/// Is a directory a root?
pub fn is_browse_root(path: &str) -> (r: bool)
    ensures
        r == browse_root_spec(path@),
{
    let p = chars_of(path);
    slices_equal(&p, &chars_of("/app/models")) || slices_equal(&p, &chars_of("/app")) || (byte_len(path)
        <= 3 && (ends_with_exec(&p, &chars_of(":")) || ends_with_exec(&p, &chars_of(":\\"))))
}

/// An entry of a browsed directory.
pub struct FileItem {
    pub name: String,
    pub path: String,
    pub is_directory: bool,
    /// The size of a file (none for a directory or where unknown).
    pub size: Option<u64>,
}

/// `a` comes strictly before `b` in the order of characters' code points.
pub open spec fn lex_lt(a: Seq<char>, b: Seq<char>) -> bool
    decreases a.len(),
{
    if b.len() == 0 {
        false
    } else if a.len() == 0 {
        true
    } else if a[0] < b[0] {
        true
    } else if a[0] > b[0] {
        false
    } else {
        lex_lt(a.drop_first(), b.drop_first())
    }
}

/// The order is strict.
pub proof fn lemma_lex_irreflexive(a: Seq<char>)
    ensures
        !lex_lt(a, a),
    decreases a.len(),
{
    if a.len() > 0 {
        lemma_lex_irreflexive(a.drop_first());
    }
}

/// The order is transitive.
pub proof fn lemma_lex_transitive(a: Seq<char>, b: Seq<char>, c: Seq<char>)
    requires
        lex_lt(a, b),
        lex_lt(b, c),
    ensures
        lex_lt(a, c),
    decreases a.len(),
{
    if a.len() > 0 && b.len() > 0 && c.len() > 0 && a[0] == b[0] && b[0] == c[0] {
        lemma_lex_transitive(a.drop_first(), b.drop_first(), c.drop_first());
    }
}

/// Of two different texts, one comes first.
pub proof fn lemma_lex_total(a: Seq<char>, b: Seq<char>)
    ensures
        a == b || lex_lt(a, b) || lex_lt(b, a),
    decreases a.len(),
{
    if a.len() > 0 && b.len() > 0 {
        if a[0] == b[0] {
            lemma_lex_total(a.drop_first(), b.drop_first());
            if a.drop_first() == b.drop_first() {
                assert(a =~= seq![a[0]] + a.drop_first());
                assert(b =~= seq![b[0]] + b.drop_first());
            }
        }
    } else if a.len() == 0 && b.len() == 0 {
        assert(a =~= b);
    }
}

/// The name an entry is ordered by: its lower case.
pub open spec fn sort_name(f: FileItem) -> Seq<char> {
    unicode_lowercase(f.name@)
}

/// Does entry `a` come strictly before `b`: a directory before a file,
/// else by their names in lower case?
pub open spec fn item_lt(a: FileItem, b: FileItem) -> bool {
    (a.is_directory && !b.is_directory) || (a.is_directory == b.is_directory && lex_lt(
        sort_name(a),
        sort_name(b),
    ))
}

/// `x` put into `s` before the entries at its end that come after it.
pub open spec fn insert_item(s: Seq<FileItem>, x: FileItem) -> Seq<FileItem>
    decreases s.len(),
{
    if s.len() == 0 {
        seq![x]
    } else if item_lt(x, s.last()) {
        insert_item(s.drop_last(), x).push(s.last())
    } else {
        s.push(x)
    }
}

/// The entries in the order shown: directories first, then files, each
/// group by name in lower case, entries that tie kept in the order they
/// came (as a stable sort orders them).
pub open spec fn sorted_items(files: Seq<FileItem>) -> Seq<FileItem>
    decreases files.len(),
{
    if files.len() == 0 {
        Seq::empty()
    } else {
        insert_item(sorted_items(files.drop_last()), files.last())
    }
}

/// Is a list in the order shown: no entry comes strictly before one
/// listed ahead of it?
pub open spec fn in_order(s: Seq<FileItem>) -> bool {
    forall|i: int, j: int| 0 <= i < j < s.len() ==> !item_lt(#[trigger] s[j], #[trigger] s[i])
}

/// `a` before `b` and `b` not after `c` puts `a` before `c`... in the
/// form the insertion needs: not after is transitive.
proof fn lemma_not_after_transitive(a: FileItem, b: FileItem, c: FileItem)
    requires
        !item_lt(b, a),
        !item_lt(c, b),
    ensures
        !item_lt(c, a),
{
    if item_lt(c, a) {
        if c.is_directory == a.is_directory {
            lemma_lex_total(sort_name(b), sort_name(a));
            lemma_lex_total(sort_name(c), sort_name(b));
            if b.is_directory == a.is_directory {
                if lex_lt(sort_name(a), sort_name(b)) && lex_lt(sort_name(b), sort_name(c)) {
                    lemma_lex_transitive(sort_name(a), sort_name(b), sort_name(c));
                    lemma_lex_transitive(sort_name(c), sort_name(a), sort_name(c));
                    lemma_lex_irreflexive(sort_name(c));
                } else if sort_name(a) == sort_name(b) && lex_lt(sort_name(b), sort_name(c)) {
                    lemma_lex_transitive(sort_name(c), sort_name(a), sort_name(c));
                    lemma_lex_irreflexive(sort_name(c));
                } else if lex_lt(sort_name(a), sort_name(b)) && sort_name(b) == sort_name(c) {
                    lemma_lex_transitive(sort_name(c), sort_name(a), sort_name(b));
                    lemma_lex_irreflexive(sort_name(c));
                } else {
                    lemma_lex_irreflexive(sort_name(c));
                }
            }
        }
    }
}

/// No entry comes strictly before itself, and of two entries at most one
/// comes before the other.
proof fn lemma_item_asymmetric(a: FileItem, b: FileItem)
    ensures
        !(item_lt(a, b) && item_lt(b, a)),
{
    if item_lt(a, b) && item_lt(b, a) {
        lemma_lex_transitive(sort_name(a), sort_name(b), sort_name(a));
        lemma_lex_irreflexive(sort_name(a));
    }
}

/// Inserting keeps every entry and adds `x`.
proof fn lemma_insert_members(s: Seq<FileItem>, x: FileItem)
    ensures
        insert_item(s, x).len() == s.len() + 1,
        forall|k: int| 0 <= k < insert_item(s, x).len() ==> (#[trigger] insert_item(s, x)[k] == x || s.contains(
            insert_item(s, x)[k],
        )),
        insert_item(s, x).to_multiset() =~= s.to_multiset().insert(x),
    decreases s.len(),
{
    broadcast use vstd::seq_lib::group_to_multiset_ensures;
    if s.len() > 0 {
        let s1 = s.drop_last();
        lemma_insert_members(s1, x);
        if item_lt(x, s.last()) {
            let r = insert_item(s1, x).push(s.last());
            assert forall|k: int| 0 <= k < r.len() implies (#[trigger] r[k] == x || s.contains(r[k])) by {
                if k < r.len() - 1 {
                    if r[k] != x {
                        let w = choose|w: int| 0 <= w < s1.len() && s1[w] == r[k];
                        assert(s[w] == r[k]);
                    }
                } else {
                    assert(s[s.len() - 1] == r[k]);
                }
            }
            assert(s =~= s1.push(s.last()));
        } else {
            let r = s.push(x);
            assert forall|k: int| 0 <= k < r.len() implies (#[trigger] r[k] == x || s.contains(r[k])) by {
                if k < s.len() {
                    assert(s[k] == r[k]);
                }
            }
        }
    }
}

/// Inserting into a list in order keeps it in order.
proof fn lemma_insert_in_order(s: Seq<FileItem>, x: FileItem)
    requires
        in_order(s),
    ensures
        in_order(insert_item(s, x)),
    decreases s.len(),
{
    if s.len() > 0 {
        let s1 = s.drop_last();
        let last = s.last();
        assert(in_order(s1)) by {
            assert forall|i: int, j: int| 0 <= i < j < s1.len() implies !item_lt(#[trigger] s1[j], #[trigger] s1[i]) by {
                assert(s1[i] == s[i] && s1[j] == s[j]);
            }
        }
        if item_lt(x, last) {
            lemma_insert_in_order(s1, x);
            lemma_insert_members(s1, x);
            let r1 = insert_item(s1, x);
            let r = r1.push(last);
            assert forall|i: int, j: int| 0 <= i < j < r.len() implies !item_lt(#[trigger] r[j], #[trigger] r[i]) by {
                if j == r.len() - 1 {
                    assert(r[j] == last);
                    if r[i] == x {
                        lemma_item_asymmetric(x, last);
                    } else {
                        assert(s1.contains(r1[i]));
                        let w = choose|w: int| 0 <= w < s1.len() && s1[w] == r1[i];
                        assert(s[w] == r[i]);
                        assert(s[s.len() - 1] == last);
                    }
                } else {
                    assert(r[i] == r1[i] && r[j] == r1[j]);
                }
            }
        } else {
            let r = s.push(x);
            assert forall|i: int, j: int| 0 <= i < j < r.len() implies !item_lt(#[trigger] r[j], #[trigger] r[i]) by {
                if j == r.len() - 1 {
                    if i < s.len() - 1 {
                        assert(!item_lt(s[s.len() - 1], s[i]));
                        lemma_not_after_transitive(s[i], last, x);
                    }
                } else {
                    assert(r[i] == s[i] && r[j] == s[j]);
                }
            }
        }
    }
}

/// The entries are shown in order: directories first, then files, each
/// group by name (in lower case); and the shown list holds exactly the
/// entries read, each as often as read.
pub proof fn lemma_sorted_items_in_order(files: Seq<FileItem>)
    ensures
        in_order(sorted_items(files)),
        sorted_items(files).to_multiset() =~= files.to_multiset(),
    decreases files.len(),
{
    broadcast use vstd::seq_lib::group_to_multiset_ensures;
    if files.len() > 0 {
        lemma_sorted_items_in_order(files.drop_last());
        lemma_insert_in_order(sorted_items(files.drop_last()), files.last());
        lemma_insert_members(sorted_items(files.drop_last()), files.last());
        assert(files =~= files.drop_last().push(files.last()));
    }
}

/// Does `a` come strictly before `b` in code point order?
pub(crate) fn lex_lt_exec(a: &Vec<char>, b: &Vec<char>) -> (r: bool)
    ensures
        r == lex_lt(a@, b@),
{
    let mut i: usize = 0;
    assert(a@.skip(0) =~= a@);
    assert(b@.skip(0) =~= b@);
    while i < a.len() && i < b.len() && a[i] == b[i]
        invariant
            i <= a.len(),
            i <= b.len(),
            lex_lt(a@, b@) == lex_lt(a@.skip(i as int), b@.skip(i as int)),
        decreases a.len() - i,
    {
        proof {
            assert(a@.skip(i as int).drop_first() =~= a@.skip(i + 1));
            assert(b@.skip(i as int).drop_first() =~= b@.skip(i + 1));
            assert(a@.skip(i as int)[0] == a@[i as int]);
            assert(b@.skip(i as int)[0] == b@[i as int]);
        }
        i += 1;
    }
    proof {
        if i < a.len() {
            assert(a@.skip(i as int)[0] == a@[i as int]);
        }
        if i < b.len() {
            assert(b@.skip(i as int)[0] == b@[i as int]);
        }
    }
    if i == b.len() {
        false
    } else if i == a.len() {
        true
    } else {
        a[i] < b[i]
    }
}

/// Does entry `a` come strictly before `b`?
fn item_lt_exec(a: &FileItem, b: &FileItem) -> (r: bool)
    ensures
        r == item_lt(*a, *b),
{
    if a.is_directory && !b.is_directory {
        return true;
    }
    if a.is_directory != b.is_directory {
        return false;
    }
    let la = chars_of(to_lowercase(a.name.as_str()).as_str());
    let lb = chars_of(to_lowercase(b.name.as_str()).as_str());
    lex_lt_exec(&la, &lb)
}

/// Put `x` into a sorted list.
fn insert_item_exec(v: &mut Vec<FileItem>, x: FileItem)
    ensures
        final(v)@ == insert_item(old(v)@, x),
{
    let mut tail: Vec<FileItem> = Vec::new();
    while v.len() > 0 && item_lt_exec(&x, &v[v.len() - 1])
        invariant
            insert_item(old(v)@, x) == insert_item(v@, x) + tail@.reverse(),
        decreases v.len(),
    {
        let ghost before = v@;
        let last = v.pop().unwrap();
        proof {
            assert(before.drop_last() =~= v@);
            assert(insert_item(before, x) == insert_item(v@, x).push(last));
        }
        let ghost tb = tail@;
        tail.push(last);
        proof {
            assert(tail@.reverse() =~= seq![last] + tb.reverse());
            assert(insert_item(v@, x).push(last) + tb.reverse() =~= insert_item(v@, x) + tail@.reverse());
        }
    }
    proof {
        assert(insert_item(v@, x) == v@.push(x));
    }
    v.push(x);
    while tail.len() > 0
        invariant
            insert_item(old(v)@, x) == v@ + tail@.reverse(),
        decreases tail.len(),
    {
        let ghost tb = tail@;
        let ghost vb = v@;
        let e = tail.pop().unwrap();
        proof {
            assert(tb.reverse() =~= seq![e] + tail@.reverse());
        }
        v.push(e);
        proof {
            assert(vb + tb.reverse() =~= v@ + tail@.reverse());
        }
    }
    assert(tail@.reverse() =~= Seq::<FileItem>::empty());
    assert(v@ + tail@.reverse() =~= v@);
}

/// The entries of a browsed directory in the order shown.
pub fn sort_files(files: Vec<FileItem>) -> (r: Vec<FileItem>)
    ensures
        r@ == sorted_items(files@),
{
    let mut out: Vec<FileItem> = Vec::new();
    let mut rest = files;
    let ghost orig = rest@;
    let ghost mut i: int = 0;
    assert(orig.skip(0) =~= orig);
    assert(orig.take(0) =~= Seq::<FileItem>::empty());
    while rest.len() > 0
        invariant
            0 <= i <= orig.len(),
            rest@ == orig.skip(i),
            out@ == sorted_items(orig.take(i)),
        decreases rest.len(),
    {
        let ghost rb = rest@;
        let x = rest.remove(0);
        proof {
            assert(x == orig[i]);
            assert(rest@ =~= orig.skip(i + 1));
            assert(orig.take(i + 1).drop_last() =~= orig.take(i));
            assert(orig.take(i + 1).last() == orig[i]);
        }
        insert_item_exec(&mut out, x);
        proof {
            i = i + 1;
        }
    }
    assert(orig.take(i) =~= orig);
    out
}

/// An entry as JSON: `{"name", "path", "is_directory", "size"}`.
pub open spec fn file_item_json(f: FileItem) -> Json {
    Json::Object(
        seq![
            ("name"@, Json::Str(f.name@)),
            ("path"@, Json::Str(f.path@)),
            ("is_directory"@, Json::Bool(f.is_directory)),
            (
                "size"@,
                match f.size {
                    Some(n) => Json::Number(decimal(n as nat)),
                    None => Json::Null,
                },
            ),
        ],
    )
}

/// Entries as JSON.
pub open spec fn items_json(s: Seq<FileItem>) -> Seq<Json> {
    s.map_values(|f: FileItem| file_item_json(f))
}

/// The answer to a browse request: the entries in the order shown, the
/// directory, and its parent (none at a root).
pub open spec fn browse_doc(files: Seq<FileItem>, current: Seq<char>, parent: Option<Seq<char>>) -> Json {
    Json::Object(
        seq![
            ("files"@, Json::Array(items_json(sorted_items(files)))),
            ("current_path"@, Json::Str(current)),
            (
                "parent_path"@,
                match parent {
                    Some(p) => Json::Str(p),
                    None => Json::Null,
                },
            ),
        ],
    )
}

/// The answer to a browse request, as JSON text.
pub fn browse_reply(files: Vec<FileItem>, current: &str, parent: Option<String>) -> (r: String)
    ensures
        r@ == json_serialize(
            browse_doc(
                files@,
                current@,
                match parent {
                    Some(p) => Some(p@),
                    None => None,
                },
            ),
        ),
{
    let ghost fv = files@;
    let ghost popt: Option<Seq<char>> = match &parent {
        Some(p) => Some(p@),
        None => None,
    };
    let sorted = sort_files(files);
    assert(sorted@ == sorted_items(fv));
    let mut items: Vec<JsonValue> = Vec::new();
    let mut i: usize = 0;
    while i < sorted.len()
        invariant
            i <= sorted.len(),
            items@.map_values(|j: JsonValue| j@) == items_json(sorted@.take(i as int)),
        decreases sorted.len() - i,
    {
        let f = &sorted[i];
        let mut ms: Vec<(String, JsonValue)> = Vec::new();
        ms.push(("name".to_string(), JsonValue::Str(f.name.clone())));
        ms.push(("path".to_string(), JsonValue::Str(f.path.clone())));
        ms.push(("is_directory".to_string(), JsonValue::Bool(f.is_directory)));
        ms.push((
            "size".to_string(),
            match f.size {
                Some(n) => JsonValue::Number(crate::text::u64_text(n)),
                None => JsonValue::Null,
            },
        ));
        proof {
            lemma_object_of(ms);
            assert(members_view(ms@) =~= crate::json::object_members(file_item_json(*f)));
        }
        let e = JsonValue::Object(ms);
        let ghost ev = e@;
        let ghost before = items@;
        items.push(e);
        proof {
            assert(sorted@.take(i + 1) =~= sorted@.take(i as int).push(sorted@[i as int]));
            assert(items@.map_values(|j: JsonValue| j@) =~= before.map_values(|j: JsonValue| j@).push(ev));
        }
        i += 1;
    }
    assert(sorted@.take(sorted.len() as int) =~= sorted@);
    let arr = JsonValue::Array(items);
    proof {
        lemma_array_view(arr);
        assert(crate::json::array_items(arr@) =~= items_json(sorted@));
    }
    let ghost av = arr@;
    let ghost pv = match &parent {
        Some(p) => Json::Str(p@),
        None => Json::Null,
    };
    let mut ms: Vec<(String, JsonValue)> = Vec::new();
    ms.push(("files".to_string(), arr));
    ms.push(("current_path".to_string(), JsonValue::Str(current.to_string())));
    ms.push((
        "parent_path".to_string(),
        match parent {
            Some(p) => JsonValue::Str(p),
            None => JsonValue::Null,
        },
    ));
    proof {
        lemma_object_of(ms);
        assert(members_view(ms@) =~= seq![
            ("files"@, av),
            ("current_path"@, Json::Str(current@)),
            ("parent_path"@, pv),
        ]);
    }
    let doc = JsonValue::Object(ms);
    assert(av == Json::Array(items_json(sorted_items(fv))));
    assert(doc@ == Json::Object(seq![
        ("files"@, av),
        ("current_path"@, Json::Str(current@)),
        ("parent_path"@, pv),
    ]));
    assert(pv == match popt {
        Some(p) => Json::Str(p),
        None => Json::Null,
    });
    assert(crate::json::object_members(browse_doc(fv, current@, popt)) =~= seq![
        ("files"@, av),
        ("current_path"@, Json::Str(current@)),
        ("parent_path"@, pv),
    ]);
    json_to_string(&doc)
}


// ---------------------------------------------------------------------------
// Uploads
// ---------------------------------------------------------------------------

/// Uploads larger than this many bytes are refused.
pub const MAX_UPLOAD_BYTES: u64 = 100 * 1024 * 1024;

/// `s` without the `"` characters at its two ends (what `trim_matches('"')`
/// gives).
pub open spec fn trim_quotes(s: Seq<char>) -> Seq<char>
    decreases s.len(),
{
    if s.len() > 0 && s[0] == '"' {
        trim_quotes(s.drop_first())
    } else if s.len() > 0 && s.last() == '"' {
        trim_quotes(s.drop_last())
    } else {
        s
    }
}

/// The text after the first `filename=` of a `Content-Disposition` header,
/// up to a second `filename=` and then up to the first `;`, without
/// surrounding quotes.
pub open spec fn disposition_filename(cd: Seq<char>) -> Seq<char> {
    let after = match crate::text::first_index(cd, "filename="@) {
        Some(i) => cd.skip(i + 9),
        None => Seq::empty(),
    };
    let field = match crate::text::first_index(after, "filename="@) {
        Some(j) => after.take(j),
        None => after,
    };
    trim_quotes(split_on(field, ';')[0])
}

/// The value of the first `key=value` pair with key `key`.
pub open spec fn first_pair_value(segments: Seq<Seq<char>>, key: Seq<char>) -> Option<Seq<char>> {
    crate::request::pair_value_from(segments, key, 0)
}

/// The name an upload gives its file: from the `Content-Disposition`
/// header where it names one, else the `filename` query parameter (not
/// decoded), else `uploaded_model.gguf`.
pub open spec fn upload_raw_name(cd: Seq<char>, query: Seq<char>) -> Seq<char> {
    if contains(cd, "filename="@) {
        disposition_filename(cd)
    } else {
        match first_pair_value(split_on(query, '&'), "filename"@) {
            Some(v) => v,
            None => "uploaded_model.gguf"@,
        }
    }
}

/// `s` without `"` at its ends.
fn trim_quotes_exec(s: &Vec<char>) -> (r: Vec<char>)
    ensures
        r@ == trim_quotes(s@),
{
    let mut a: usize = 0;
    let mut b: usize = s.len();
    assert(s@.subrange(0, s@.len() as int) =~= s@);
    while a < b && (s[a] == '"' || s[b - 1] == '"')
        invariant
            a <= b <= s.len(),
            trim_quotes(s@) == trim_quotes(s@.subrange(a as int, b as int)),
        decreases b - a,
    {
        let ghost cur = s@.subrange(a as int, b as int);
        if s[a] == '"' {
            proof {
                assert(cur[0] == s@[a as int]);
                assert(cur.drop_first() =~= s@.subrange(a + 1, b as int));
            }
            a += 1;
        } else {
            proof {
                assert(cur[0] == s@[a as int]);
                assert(cur.last() == s@[b - 1]);
                assert(cur.drop_last() =~= s@.subrange(a as int, b - 1));
            }
            b -= 1;
        }
    }
    proof {
        let cur = s@.subrange(a as int, b as int);
        if a < b {
            assert(cur[0] == s@[a as int]);
            assert(cur.last() == s@[b - 1]);
        }
    }
    crate::text::slice_of(s, a, b)
}

/// The name an upload gives its file.
pub fn upload_raw_filename(content_disposition: &str, query: &str) -> (r: String)
    ensures
        r@ == upload_raw_name(content_disposition@, query@),
{
    let cd = chars_of(content_disposition);
    let marker = chars_of("filename=");
    proof {
        reveal_strlit("filename=");
    }
    if contains_exec(&cd, &marker) {
        let after: Vec<char> = match crate::text::find(&cd, &marker) {
            Some(i) => {
                proof {
                    crate::text::lemma_first_index(cd@, marker@);
                    assert(marker@.len() == 9);
                }
                assert(i + 9 <= cd.len());
                crate::text::slice_of(&cd, i + 9, cd.len())
            },
            None => Vec::new(),
        };
        let field: Vec<char> = match crate::text::find(&after, &marker) {
            Some(j) => {
                proof {
                    crate::text::lemma_first_index(after@, marker@);
                }
                crate::text::slice_of(&after, 0, j)
            },
            None => after,
        };
        let pieces = split_chars(&field, ';');
        proof {
            crate::request::lemma_split_nonempty(field@, ';');
        }
        string_from(&trim_quotes_exec(&pieces[0]))
    } else {
        match crate::request::parse_query_param(query, "filename") {
            Some(v) => v,
            None => "uploaded_model.gguf".to_string(),
        }
    }
}

/// The name an upload is saved under: its file name (as the path's last
/// part gives it, `uploaded_model.gguf` where there is none), with
/// `.gguf` added where it lacks it.
pub open spec fn upload_name_spec(file_name: Option<Seq<char>>) -> Seq<char> {
    let n = match file_name {
        Some(f) => f,
        None => "uploaded_model.gguf"@,
    };
    if ends_with(n, ".gguf"@) {
        n
    } else {
        n + ".gguf"@
    }
}

/// The name an upload is saved under.
pub fn upload_name(file_name: Option<&str>) -> (r: String)
    ensures
        r@ == upload_name_spec(
            match file_name {
                Some(f) => Some(f@),
                None => None,
            },
        ),
{
    let n = match file_name {
        Some(f) => f,
        None => "uploaded_model.gguf",
    };
    if ends_with_exec(&chars_of(n), &chars_of(".gguf")) {
        n.to_string()
    } else {
        let mut v = chars_of(n);
        append_str(&mut v, ".gguf");
        string_from(&v)
    }
}

/// Count a received chunk: the bytes so far (saturating), and whether the
/// upload is now too large.
pub fn upload_progress(total: u64, chunk: u64) -> (r: (u64, bool))
    ensures
        r.0 == if total + chunk > u64::MAX {
            u64::MAX as int
        } else {
            total + chunk
        },
        r.1 == (r.0 > MAX_UPLOAD_BYTES),
{
    let t = total.saturating_add(chunk);
    (t, t > MAX_UPLOAD_BYTES)
}

/// The answer after an upload was saved at `file_path`.
pub fn uploaded_reply(file_path: &str) -> (r: String)
    ensures
        r@ == json_serialize(
            Json::Object(
                seq![
                    ("success"@, Json::Bool(true)),
                    ("message"@, Json::Str("File uploaded successfully"@)),
                    ("file_path"@, Json::Str(file_path@)),
                ],
            ),
        ),
{
    let mut ms: Vec<(String, JsonValue)> = Vec::new();
    ms.push(("success".to_string(), JsonValue::Bool(true)));
    ms.push(("message".to_string(), JsonValue::Str("File uploaded successfully".to_string())));
    ms.push(("file_path".to_string(), JsonValue::Str(file_path.to_string())));
    proof {
        lemma_object_of(ms);
        assert(members_view(ms@) =~= seq![
            ("success"@, Json::Bool(true)),
            ("message"@, Json::Str("File uploaded successfully"@)),
            ("file_path"@, Json::Str(file_path@)),
        ]);
    }
    json_to_string(&JsonValue::Object(ms))
}

/// The answer of a file or folder picker: `{"path": <chosen path or null>}`.
pub fn picked_reply(path: Option<String>) -> (r: String)
    ensures
        r@ == json_serialize(
            Json::Object(
                seq![
                    (
                        "path"@,
                        match path {
                            Some(p) => Json::Str(p@),
                            None => Json::Null,
                        },
                    ),
                ],
            ),
        ),
{
    let ghost pv = match &path {
        Some(p) => Json::Str(p@),
        None => Json::Null,
    };
    let mut ms: Vec<(String, JsonValue)> = Vec::new();
    ms.push((
        "path".to_string(),
        match path {
            Some(p) => JsonValue::Str(p),
            None => JsonValue::Null,
        },
    ));
    proof {
        lemma_object_of(ms);
        assert(members_view(ms@) =~= seq![("path"@, pv)]);
    }
    json_to_string(&JsonValue::Object(ms))
}

} // verus!
