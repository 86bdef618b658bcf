//! Reading request paths and query strings.

use vstd::prelude::*;
use crate::gguf_utils::opt_text;
use crate::text::{chars_of, first_index, lemma_first_index, slice_of, slices_equal, starts_with, starts_with_exec, string_from};

verus! {

/// The text of `path` after `prefix`, where `path` begins with it.
pub open spec fn path_param_spec(path: Seq<char>, prefix: Seq<char>) -> Option<Seq<char>> {
    if starts_with(path, prefix) {
        Some(path.skip(prefix.len() as int))
    } else {
        None
    }
}

/// The path parameter after `prefix`, e.g. `chat123.txt` for
/// `/api/conversations/chat123.txt` and prefix `/api/conversations/`.
pub fn extract_path_param(path: &str, prefix: &str) -> (r: Option<String>)
    ensures
        match r {
            Some(s) => path_param_spec(path@, prefix@) == Some(s@),
            None => path_param_spec(path@, prefix@) is None,
        },
{
    let p = chars_of(path);
    let pre = chars_of(prefix);
    if starts_with_exec(&p, &pre) {
        let rest = slice_of(&p, pre.len(), p.len());
        Some(string_from(&rest))
    } else {
        None
    }
}

/// `s` split at each `sep` (what `str::split` gives; never empty).
pub open spec fn split_on(s: Seq<char>, sep: char) -> Seq<Seq<char>>
    decreases s.len(),
{
    if s.len() == 0 {
        seq![Seq::empty()]
    } else {
        let prev = split_on(s.drop_last(), sep);
        if s.last() == sep {
            prev.push(Seq::empty())
        } else {
            prev.update(prev.len() - 1, prev.last().push(s.last()))
        }
    }
}

/// A split is never empty.
pub proof fn lemma_split_nonempty(s: Seq<char>, sep: char)
    ensures
        split_on(s, sep).len() >= 1,
    decreases s.len(),
{
    if s.len() > 0 {
        lemma_split_nonempty(s.drop_last(), sep);
    }
}

/// Split `s` at each `sep`.
pub fn split_chars(s: &[char], sep: char) -> (r: Vec<Vec<char>>)
    ensures
        r@.len() == split_on(s@, sep).len(),
        forall|i: int| 0 <= i < r@.len() ==> #[trigger] r@[i]@ == split_on(s@, sep)[i],
{
    let mut parts: Vec<Vec<char>> = Vec::new();
    let mut current: Vec<char> = Vec::new();
    let mut i: usize = 0;
    proof {
        assert(s@.take(0) =~= Seq::<char>::empty());
    }
    while i < s.len()
        invariant
            i <= s.len(),
            parts@.len() + 1 == split_on(s@.take(i as int), sep).len(),
            forall|j: int| 0 <= j < parts@.len() ==> #[trigger] parts@[j]@ == split_on(
                s@.take(i as int),
                sep,
            )[j],
            current@ == split_on(s@.take(i as int), sep).last(),
        decreases s.len() - i,
    {
        proof {
            lemma_split_nonempty(s@.take(i as int), sep);
            assert(s@.take(i + 1).drop_last() =~= s@.take(i as int));
        }
        if s[i] == sep {
            let done = current;
            parts.push(done);
            current = Vec::new();
        } else {
            current.push(s[i]);
        }
        i += 1;
    }
    proof {
        assert(s@.take(i as int) =~= s@);
        lemma_split_nonempty(s@, sep);
    }
    parts.push(current);
    parts
}

/// A `key=value` pair split at its first `=`.
pub open spec fn key_value(seg: Seq<char>) -> Option<(Seq<char>, Seq<char>)> {
    match first_index(seg, seq!['=']) {
        Some(i) => Some((seg.take(i), seg.skip(i + 1))),
        None => None,
    }
}

/// The value of the first pair of `segments`, from `k` on, whose key is `key`.
pub open spec fn pair_value_from(segments: Seq<Seq<char>>, key: Seq<char>, k: int) -> Option<Seq<char>>
    decreases segments.len() - k,
{
    if k < 0 || k >= segments.len() {
        None
    } else {
        match key_value(segments[k]) {
            Some(kv) => if kv.0 == key {
                Some(kv.1)
            } else {
                pair_value_from(segments, key, k + 1)
            },
            None => pair_value_from(segments, key, k + 1),
        }
    }
}

/// The value of `key` in a query string: that of the first `&`-separated
/// `key=value` pair with that key.
pub open spec fn query_param_spec(query: Seq<char>, key: Seq<char>) -> Option<Seq<char>> {
    pair_value_from(split_on(query, '&'), key, 0)
}

/// Split a segment at its first `=`.
pub(crate) fn split_pair(seg: &Vec<char>) -> (r: Option<(Vec<char>, Vec<char>)>)
    ensures
        match r {
            Some(p) => key_value(seg@) == Some((p.0@, p.1@)),
            None => key_value(seg@) is None,
        },
{
    let eq = crate::text::single('=');
    match crate::text::find(seg, &eq) {
        Some(i) => {
            proof {
                lemma_first_index(seg@, eq@);
                assert(eq@.len() == 1);
                assert(crate::text::matches_at(seg@, eq@, i as int));
                assert(i < seg.len());
            }
            let k = slice_of(seg, 0, i);
            let v = slice_of(seg, i + 1, seg.len());
            assert(k@ == seg@.take(i as int));
            assert(v@ == seg@.skip(i + 1));
            Some((k, v))
        },
        None => None,
    }
}

/// The value of query parameter `key`, e.g. `0.7` for `temp` in
/// `model=foo&temp=0.7`.
pub fn parse_query_param(query: &str, key: &str) -> (r: Option<String>)
    ensures
        match r {
            Some(v) => query_param_spec(query@, key@) == Some(v@),
            None => query_param_spec(query@, key@) is None,
        },
{
    let q = chars_of(query);
    let k = chars_of(key);
    let segments = split_chars(&q, '&');
    let ghost segs = split_on(query@, '&');
    let mut i: usize = 0;
    while i < segments.len()
        invariant
            i <= segments.len(),
            k@ == key@,
            segs == split_on(query@, '&'),
            segments@.len() == segs.len(),
            forall|j: int| 0 <= j < segments@.len() ==> #[trigger] segments@[j]@ == segs[j],
            pair_value_from(segs, key@, 0) == pair_value_from(segs, key@, i as int),
        decreases segments.len() - i,
    {
        assert(segments@[i as int]@ == segs[i as int]);
        match split_pair(&segments[i]) {
            Some((name, value)) => {
                if slices_equal(&name, &k) {
                    return Some(string_from(&value));
                }
            },
            None => {},
        }
        i += 1;
    }
    None
}

/// The text that `urlencoding::decode` gives for `s`, or `None` where the
/// decoded bytes are not UTF-8.
pub uninterp spec fn url_decode(s: Seq<char>) -> Option<Seq<char>>;

/// Calls `urlencoding::decode`. Trusted: the result is the text named
/// `url_decode(s)`, a function of `s` alone; a text without `%` comes back
/// unchanged (the crate returns its input where it finds no `%`).
#[verifier::external_body]
pub fn decode_url(s: &str) -> (r: Option<String>)
    ensures
        match r {
            Some(t) => url_decode(s@) == Some(t@),
            None => url_decode(s@) is None,
        },
        !s@.contains('%') ==> opt_text(r) == Some(s@),
{
    urlencoding::decode(s).ok().map(|c| c.into_owned())
}

/// The decoded value of query parameter `key`: `None` without a query, a
/// pair with the key, or where the value does not decode.
pub open spec fn get_query_param_spec(query: Option<Seq<char>>, key: Seq<char>) -> Option<Seq<char>> {
    match query {
        Some(q) => match query_param_spec(q, key) {
            Some(v) => url_decode(v),
            None => None,
        },
        None => None,
    }
}

/// The URL-decoded value of query parameter `key` of a request's query
/// string (`None` where the request has no query).
pub fn get_query_param(query: Option<&str>, key: &str) -> (r: Option<String>)
    ensures
        match r {
            Some(v) => get_query_param_spec(
                match query {
                    Some(q) => Some(q@),
                    None => None,
                },
                key@,
            ) == Some(v@),
            None => get_query_param_spec(
                match query {
                    Some(q) => Some(q@),
                    None => None,
                },
                key@,
            ) is None,
        },
        query matches Some(q) ==> (query_param_spec(q@, key@) is Some && !query_param_spec(
            q@,
            key@,
        )->0.contains('%') ==> opt_text(r) == query_param_spec(q@, key@)),
{
    match query {
        Some(q) => match parse_query_param(q, key) {
            Some(v) => decode_url(v.as_str()),
            None => None,
        },
        None => None,
    }
}

} // verus!
