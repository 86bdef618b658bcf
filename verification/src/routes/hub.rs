//! The model hub proxy: which GGUF files of the hub's answers are shown,
//! and how a search request to the hub is written.

use vstd::prelude::*;
use crate::gguf_utils::opt_text;
use crate::request::{decode_url, query_param_spec, parse_query_param, url_decode};
use crate::text::{
    append_str, chars_of, ends_with, ends_with_exec, parse_u64, parse_u64_spec, push_decimal,
    slices_equal, string_from, decimal,
};

verus! {

/// A file of a hub model, as the hub lists it.
pub struct HfSibling {
    pub rfilename: String,
    pub size: Option<u64>,
}

/// A model as the hub's search answer describes it.
pub struct HfModel {
    pub id: String,
    pub model_id: Option<String>,
    pub author: Option<String>,
    pub downloads: u64,
    pub likes: u64,
    pub last_modified: Option<String>,
    pub pipeline_tag: Option<String>,
    pub siblings: Vec<HfSibling>,
}

/// An entry of a hub repository's file tree.
pub struct HfTreeEntry {
    pub entry_type: String,
    pub path: String,
    pub size: u64,
}

/// A GGUF file offered for download.
pub struct HubFile {
    pub name: String,
    pub size: u64,
}

/// A model offered for download, with its GGUF files.
pub struct HubModel {
    pub id: String,
    pub author: String,
    pub downloads: u64,
    pub likes: u64,
    pub last_modified: String,
    pub pipeline_tag: String,
    pub files: Vec<HubFile>,
}

/// The name suffix of a GGUF file.
pub open spec fn gguf_suffix() -> Seq<char> {
    seq!['.', 'g', 'g', 'u', 'f']
}

/// The files as `(name, size)` pairs.
pub open spec fn files_view(files: Seq<HubFile>) -> Seq<(Seq<char>, u64)> {
    Seq::new(files.len(), |i: int| (files[i].name@, files[i].size))
}

/// The GGUF files among a model's files, in order; a file of unknown size
/// counts as empty.
pub open spec fn gguf_siblings_spec(siblings: Seq<HfSibling>) -> Seq<(Seq<char>, u64)>
    decreases siblings.len(),
{
    if siblings.len() == 0 {
        Seq::empty()
    } else {
        let prev = gguf_siblings_spec(siblings.drop_last());
        let s = siblings.last();
        if ends_with(s.rfilename@, gguf_suffix()) {
            prev.push(
                (
                    s.rfilename@,
                    match s.size {
                        Some(n) => n,
                        None => 0,
                    },
                ),
            )
        } else {
            prev
        }
    }
}

/// The GGUF files among a model's files.
pub fn gguf_siblings(siblings: &Vec<HfSibling>) -> (r: Vec<HubFile>)
    ensures
        files_view(r@) == gguf_siblings_spec(siblings@),
{
    let suffix = chars_of(".gguf");
    assert(suffix@ == gguf_suffix()) by {
        reveal_strlit(".gguf");
    }
    let mut out: Vec<HubFile> = Vec::new();
    let mut i: usize = 0;
    while i < siblings.len()
        invariant
            i <= siblings.len(),
            suffix@ == gguf_suffix(),
            files_view(out@) == gguf_siblings_spec(siblings@.take(i as int)),
        decreases siblings.len() - i,
    {
        proof {
            assert(siblings@.take(i + 1).drop_last() =~= siblings@.take(i as int));
        }
        let s = &siblings[i];
        if ends_with_exec(&chars_of(s.rfilename.as_str()), &suffix) {
            let size = match s.size {
                Some(n) => n,
                None => 0,
            };
            let ghost before = out@;
            out.push(HubFile { name: s.rfilename.clone(), size });
            proof {
                assert(files_view(out@) =~= files_view(before).push((s.rfilename@, size)));
            }
        }
        i += 1;
    }
    proof {
        assert(siblings@.take(i as int) =~= siblings@);
    }
    out
}

/// A text, or the empty text.
fn or_empty(t: &Option<String>) -> (r: String)
    ensures
        r@ == match t {
            Some(s) => s@,
            None => Seq::<char>::empty(),
        },
{
    match t {
        Some(s) => s.clone(),
        None => String::new(),
    }
}

/// The model offered for a model of the hub's answer: its GGUF files, and
/// empty texts for what the hub left out.
pub fn hub_model(m: &HfModel) -> (r: HubModel)
    ensures
        r.id@ == m.id@,
        r.author@ == opt_text(m.author).unwrap_or(Seq::empty()),
        r.downloads == m.downloads,
        r.likes == m.likes,
        r.last_modified@ == opt_text(m.last_modified).unwrap_or(Seq::empty()),
        r.pipeline_tag@ == opt_text(m.pipeline_tag).unwrap_or(Seq::empty()),
        files_view(r.files@) == gguf_siblings_spec(m.siblings@),
{
    HubModel {
        id: m.id.clone(),
        author: or_empty(&m.author),
        downloads: m.downloads,
        likes: m.likes,
        last_modified: or_empty(&m.last_modified),
        pipeline_tag: or_empty(&m.pipeline_tag),
        files: gguf_siblings(&m.siblings),
    }
}

/// The models offered for the hub's answer, one per model, in order.
pub fn hub_models(models: &Vec<HfModel>) -> (r: Vec<HubModel>)
    ensures
        r.len() == models.len(),
        forall|i: int|
            0 <= i < models.len() ==> (#[trigger] r@[i]).id@ == models@[i].id@ && files_view(
                r@[i].files@,
            ) == gguf_siblings_spec(models@[i].siblings@) && r@[i].downloads == models@[i].downloads
                && r@[i].likes == models@[i].likes,
{
    let mut out: Vec<HubModel> = Vec::new();
    let mut i: usize = 0;
    while i < models.len()
        invariant
            i <= models.len(),
            out.len() == i,
            forall|j: int|
                0 <= j < i ==> (#[trigger] out@[j]).id@ == models@[j].id@ && files_view(
                    out@[j].files@,
                ) == gguf_siblings_spec(models@[j].siblings@) && out@[j].downloads
                    == models@[j].downloads && out@[j].likes == models@[j].likes,
        decreases models.len() - i,
    {
        out.push(hub_model(&models[i]));
        i += 1;
    }
    out
}

/// The GGUF files of a repository tree: its file entries named `*.gguf`.
pub open spec fn tree_files_spec(entries: Seq<HfTreeEntry>) -> Seq<(Seq<char>, u64)>
    decreases entries.len(),
{
    if entries.len() == 0 {
        Seq::empty()
    } else {
        let prev = tree_files_spec(entries.drop_last());
        let e = entries.last();
        if e.entry_type@ == "file"@ && ends_with(e.path@, gguf_suffix()) {
            prev.push((e.path@, e.size))
        } else {
            prev
        }
    }
}

/// The GGUF files of a repository tree.
pub fn tree_files(entries: &Vec<HfTreeEntry>) -> (r: Vec<HubFile>)
    ensures
        files_view(r@) == tree_files_spec(entries@),
{
    let suffix = chars_of(".gguf");
    assert(suffix@ == gguf_suffix()) by {
        reveal_strlit(".gguf");
    }
    let file = chars_of("file");
    let mut out: Vec<HubFile> = Vec::new();
    let mut i: usize = 0;
    while i < entries.len()
        invariant
            i <= entries.len(),
            suffix@ == gguf_suffix(),
            file@ == "file"@,
            files_view(out@) == tree_files_spec(entries@.take(i as int)),
        decreases entries.len() - i,
    {
        proof {
            assert(entries@.take(i + 1).drop_last() =~= entries@.take(i as int));
        }
        let e = &entries[i];
        if slices_equal(&chars_of(e.entry_type.as_str()), &file) && ends_with_exec(
            &chars_of(e.path.as_str()),
            &suffix,
        ) {
            let ghost before = out@;
            out.push(HubFile { name: e.path.clone(), size: e.size });
            proof {
                assert(files_view(out@) =~= files_view(before).push((e.path@, e.size)));
            }
        }
        i += 1;
    }
    proof {
        assert(entries@.take(i as int) =~= entries@);
    }
    out
}

/// The sort field sent to the hub: the one asked for where the hub knows
/// it, else `downloads`.
pub open spec fn sort_field_spec(sort: Seq<char>) -> Seq<char> {
    if sort == "downloads"@ || sort == "likes"@ || sort == "lastModified"@ || sort == "createdAt"@ {
        sort
    } else {
        "downloads"@
    }
}

/// The sort field sent to the hub.
pub fn sort_field(sort: &str) -> (r: String)
    ensures
        r@ == sort_field_spec(sort@),
{
    let s = chars_of(sort);
    if slices_equal(&s, &chars_of("downloads")) || slices_equal(&s, &chars_of("likes"))
        || slices_equal(&s, &chars_of("lastModified")) || slices_equal(&s, &chars_of("createdAt")) {
        sort.to_string()
    } else {
        "downloads".to_string()
    }
}

/// The number of results asked for: the `limit` parameter where it is a
/// number, else 20, and never more than 50.
pub open spec fn search_limit_spec(param: Option<Seq<char>>) -> u64 {
    let asked: int = match param {
        Some(p) => match parse_u64_spec(p) {
            Some(n) => if n <= usize::MAX {
                n as int
            } else {
                20
            },
            None => 20,
        },
        None => 20,
    };
    if asked > 50 {
        50
    } else {
        asked as u64
    }
}

/// The number of results asked for.
pub fn search_limit(param: Option<&str>) -> (r: usize)
    ensures
        r == search_limit_spec(
            match param {
                Some(p) => Some(p@),
                None => None,
            },
        ),
{
    let asked: u64 = match param {
        Some(p) => match parse_u64(&chars_of(p)) {
            Some(n) => if n <= usize::MAX as u64 {
                n
            } else {
                20
            },
            None => 20,
        },
        None => 20,
    };
    if asked > 50 {
        50
    } else {
        asked as usize
    }
}

/// The decoded value of a query parameter of a hub request: that of the
/// first pair with the key, decoded, or empty where it does not decode.
pub open spec fn hub_param_spec(query: Option<Seq<char>>, key: Seq<char>) -> Option<Seq<char>> {
    match query {
        Some(q) => match query_param_spec(q, key) {
            Some(v) => Some(
                match url_decode(v) {
                    Some(d) => d,
                    None => Seq::empty(),
                },
            ),
            None => None,
        },
        None => None,
    }
}

/// A query parameter of a hub request, decoded.
pub fn extract_query_param(query: Option<&str>, key: &str) -> (r: Option<String>)
    ensures
        opt_text(r) == hub_param_spec(
            match query {
                Some(q) => Some(q@),
                None => None,
            },
            key@,
        ),
{
    match query {
        Some(q) => match parse_query_param(q, key) {
            Some(v) => match decode_url(v.as_str()) {
                Some(d) => Some(d),
                None => Some(String::new()),
            },
            None => None,
        },
        None => None,
    }
}

/// The text that `urlencoding::encode` gives for `s`.
pub uninterp spec fn url_encode(s: Seq<char>) -> Seq<char>;

/// Calls `urlencoding::encode`. Trusted: the result is the text named
/// `url_encode(s)`, a function of `s` alone.
#[verifier::external_body]
pub(crate) fn encode_url_text(s: &str) -> (r: String)
    ensures
        r@ == url_encode(s@),
{
    urlencoding::encode(s).into_owned()
}

/// The hub's model search address for a query, result count and sort field.
pub open spec fn search_url_spec(query: Seq<char>, limit: usize, sort: Seq<char>) -> Seq<char> {
    "https://huggingface.co/api/models?search="@ + url_encode(query)
        + "&filter=gguf&pipeline_tag=text-generation&sort="@ + sort_field_spec(sort)
        + "&direction=-1&limit="@ + decimal(limit as nat) + "&expand[]=siblings"@
}

/// The hub's model search address.
pub fn search_url(query: &str, limit: usize, sort: &str) -> (r: String)
    ensures
        r@ == search_url_spec(query@, limit, sort@),
{
    let mut v = chars_of("https://huggingface.co/api/models?search=");
    append_str(&mut v, encode_url_text(query).as_str());
    append_str(&mut v, "&filter=gguf&pipeline_tag=text-generation&sort=");
    append_str(&mut v, sort_field(sort).as_str());
    append_str(&mut v, "&direction=-1&limit=");
    push_decimal(&mut v, limit as u64);
    append_str(&mut v, "&expand[]=siblings");
    string_from(&v)
}

/// The hub's file tree address for a model id such as `user/repo`.
pub fn tree_url(model_id: &str) -> (r: String)
    ensures
        r@ == "https://huggingface.co/api/models/"@ + model_id@ + "/tree/main"@,
{
    let mut v = chars_of("https://huggingface.co/api/models/");
    append_str(&mut v, model_id);
    append_str(&mut v, "/tree/main");
    string_from(&v)
}

/// Only GGUF files are offered: every file kept from a model's files, or
/// from a repository tree, is named `*.gguf`.
pub proof fn lemma_only_gguf_files(siblings: Seq<HfSibling>, entries: Seq<HfTreeEntry>)
    ensures
        forall|k: int|
            0 <= k < gguf_siblings_spec(siblings).len() ==> ends_with(
                #[trigger] gguf_siblings_spec(siblings)[k].0,
                gguf_suffix(),
            ),
        forall|k: int|
            0 <= k < tree_files_spec(entries).len() ==> ends_with(
                #[trigger] tree_files_spec(entries)[k].0,
                gguf_suffix(),
            ),
    decreases siblings.len() + entries.len(),
{
    if siblings.len() > 0 {
        lemma_only_gguf_files(siblings.drop_last(), entries);
        let prev = gguf_siblings_spec(siblings.drop_last());
        assert forall|k: int|
            0 <= k < gguf_siblings_spec(siblings).len() implies ends_with(
                #[trigger] gguf_siblings_spec(siblings)[k].0,
                gguf_suffix(),
            ) by {
            if k < prev.len() {
                assert(gguf_siblings_spec(siblings)[k] == prev[k]);
            }
        }
    }
    if entries.len() > 0 {
        lemma_only_gguf_files(siblings, entries.drop_last());
        let prev = tree_files_spec(entries.drop_last());
        assert forall|k: int|
            0 <= k < tree_files_spec(entries).len() implies ends_with(
                #[trigger] tree_files_spec(entries)[k].0,
                gguf_suffix(),
            ) by {
            if k < prev.len() {
                assert(tree_files_spec(entries)[k] == prev[k]);
            }
        }
    }
}

} // verus!
