//! Scanning fetched HTML with regular expressions (through the `regex`
//! crate): the matches of a pattern, tags stripped from a fragment, and the
//! few character entities that search results carry.

use vstd::prelude::*;
use crate::text::{replace_all, replace_all_exec};

verus! {

/// What `regex::Regex::new(pattern)` and then `captures_iter(text)` give:
/// for each match in order, its groups (group 0 first, `None` for a group
/// that took no part); `None` where the pattern does not compile.
pub uninterp spec fn regex_captures(pattern: Seq<char>, text: Seq<char>) -> Option<Seq<Seq<Option<Seq<char>>>>>;

/// What `regex::Regex::new(pattern)` and then `replace_all(text,
/// replacement)` give; `None` where the pattern does not compile.
pub uninterp spec fn regex_replaced(pattern: Seq<char>, text: Seq<char>, replacement: Seq<char>) -> Option<Seq<char>>;

/// The view of one match's groups.
pub open spec fn groups_view(g: Vec<Option<String>>) -> Seq<Option<Seq<char>>> {
    g@.map_values(|o: Option<String>| match o {
        Some(s) => Some(s@),
        None => None,
    })
}

/// The view of the matches of a pattern.
pub open spec fn captures_view(r: Option<Vec<Vec<Option<String>>>>) -> Option<Seq<Seq<Option<Seq<char>>>>> {
    match r {
        Some(ms) => Some(ms@.map_values(|g: Vec<Option<String>>| groups_view(g))),
        None => None,
    }
}

/// Calls `regex::Regex::new` and `Regex::captures_iter`, copying each
/// match's groups out. Trusted: the result is `regex_captures(pattern,
/// text)`, a function of the two texts alone; the regular-expression
/// language itself is not written out.
#[verifier::external_body]
pub(crate) fn captures_all(pattern: &str, text: &str) -> (r: Option<Vec<Vec<Option<String>>>>)
    ensures
        captures_view(r) == regex_captures(pattern@, text@),
{
    let re = regex::Regex::new(pattern).ok()?;
    Some(
        re.captures_iter(text).map(|c| c.iter().map(|m| m.map(|m| m.as_str().to_string())).collect()).collect(),
    )
}

/// Calls `regex::Regex::new` and `Regex::replace_all`. Trusted: the result
/// is `regex_replaced(pattern, text, replacement)`, a function of the three
/// texts alone.
#[verifier::external_body]
pub(crate) fn replace_matches(pattern: &str, text: &str, replacement: &str) -> (r: Option<String>)
    ensures
        match r {
            Some(s) => regex_replaced(pattern@, text@, replacement@) == Some(s@),
            None => regex_replaced(pattern@, text@, replacement@) is None,
        },
{
    let re = regex::Regex::new(pattern).ok()?;
    Some(re.replace_all(text, replacement).into_owned())
}

/// The text of group `i` of a match, empty where it took no part.
pub open spec fn group_text(groups: Seq<Option<Seq<char>>>, i: int) -> Seq<char> {
    if 0 <= i < groups.len() {
        match groups[i] {
            Some(t) => t,
            None => Seq::empty(),
        }
    } else {
        Seq::empty()
    }
}

/// The text of group `i` of a match.
pub fn group_text_exec(groups: &Vec<Option<String>>, i: usize) -> (r: String)
    ensures
        r@ == group_text(groups_view(*groups), i as int),
{
    if i < groups.len() {
        match &groups[i] {
            Some(t) => t.clone(),
            None => String::new(),
        }
    } else {
        String::new()
    }
}

/// The pattern of an HTML tag.
pub open spec fn tag_pattern() -> Seq<char> {
    "<[^>]+>"@
}

/// `text` with its HTML tags removed (unchanged should the tag pattern not
/// compile, which it does).
pub open spec fn strip_tags(text: Seq<char>) -> Seq<char> {
    match regex_replaced(tag_pattern(), text, Seq::empty()) {
        Some(t) => t,
        None => text,
    }
}

/// `text` with its HTML tags removed.
pub fn strip_tags_exec(text: &str) -> (r: String)
    ensures
        r@ == strip_tags(text@),
{
    proof {
        reveal_strlit("");
        assert(""@ =~= Seq::<char>::empty());
    }
    match replace_matches("<[^>]+>", text, "") {
        Some(t) => t,
        None => text.to_string(),
    }
}

/// `text` with the entities `&amp;`, `&lt;`, `&gt;`, `&quot;` and `&#x27;`
/// written out, replaced in that order.
pub open spec fn decode_entities(text: Seq<char>) -> Seq<char> {
    replace_all(
        replace_all(
            replace_all(replace_all(replace_all(text, "&amp;"@, "&"@), "&lt;"@, "<"@), "&gt;"@, ">"@),
            "&quot;"@,
            "\""@,
        ),
        "&#x27;"@,
        "'"@,
    )
}

/// `text` with its character entities written out.
pub fn decode_entities_exec(text: &str) -> (r: String)
    ensures
        r@ == decode_entities(text@),
{
    proof {
        reveal_strlit("&amp;");
        reveal_strlit("&lt;");
        reveal_strlit("&gt;");
        reveal_strlit("&quot;");
        reveal_strlit("&#x27;");
    }
    let a = replace_all_exec(text, "&amp;", "&");
    let b = replace_all_exec(a.as_str(), "&lt;", "<");
    let c = replace_all_exec(b.as_str(), "&gt;", ">");
    let d = replace_all_exec(c.as_str(), "&quot;", "\"");
    replace_all_exec(d.as_str(), "&#x27;", "'")
}

} // verus!
