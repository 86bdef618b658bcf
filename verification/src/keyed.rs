//! Lists of `(name, value)` pairs searched by name: the first pair with a
//! name is the one that counts.

use vstd::prelude::*;
use crate::text::{chars_of, slices_equal};

verus! {

/// The position of the first pair of `entries` named `key`, from `k` on.
pub open spec fn key_index_from<V>(entries: Seq<(String, V)>, key: Seq<char>, k: int) -> Option<int>
    decreases entries.len() - k,
{
    if k < 0 || k >= entries.len() {
        None
    } else if entries[k].0@ == key {
        Some(k)
    } else {
        key_index_from(entries, key, k + 1)
    }
}

/// The value of the first pair named `key`.
pub open spec fn key_lookup<V>(entries: Seq<(String, V)>, key: Seq<char>) -> Option<V> {
    match key_index_from(entries, key, 0) {
        Some(i) => Some(entries[i].1),
        None => None,
    }
}

/// The position of the first pair named `key`.
pub fn key_position<V>(entries: &Vec<(String, V)>, key: &str) -> (r: Option<usize>)
    ensures
        r matches Some(i) ==> key_index_from(entries@, key@, 0) == Some(i as int) && i
            < entries.len(),
        r is None ==> key_index_from(entries@, key@, 0) is None,
{
    let k = chars_of(key);
    let mut i: usize = 0;
    while i < entries.len()
        invariant
            i <= entries.len(),
            k@ == key@,
            key_index_from(entries@, key@, 0) == key_index_from(entries@, key@, i as int),
        decreases entries.len() - i,
    {
        let name = chars_of(entries[i].0.as_str());
        if slices_equal(&name, &k) {
            return Some(i);
        }
        i += 1;
    }
    None
}

/// The pair found for a name has that name.
pub proof fn lemma_key_index_found<V>(entries: Seq<(String, V)>, key: Seq<char>, k: int)
    requires
        0 <= k,
    ensures
        key_index_from(entries, key, k) matches Some(i) ==> k <= i < entries.len()
            && entries[i].0@ == key,
    decreases entries.len() - k,
{
    if k < entries.len() && entries[k].0@ != key {
        lemma_key_index_found(entries, key, k + 1);
    }
}

/// Pairs before `i` agree, so the search for `key` reaches `i` in both.
pub proof fn lemma_update_prefix<V>(e1: Seq<(String, V)>, e2: Seq<(String, V)>, i: int, key: Seq<char>, k: int)
    requires
        0 <= k <= i < e1.len(),
        e1.len() == e2.len(),
        forall|j: int| 0 <= j < e1.len() && j != i ==> e1[j] == e2[j],
        e2[i].0@ == key,
        key_index_from(e1, key, k) == Some(i),
    ensures
        key_index_from(e2, key, k) == Some(i),
    decreases i - k,
{
    if k < i {
        lemma_update_prefix(e1, e2, i, key, k + 1);
    }
}

/// Replacing a pair named `key` leaves the search for another name unchanged.
pub proof fn lemma_update_other<V>(
    e1: Seq<(String, V)>,
    e2: Seq<(String, V)>,
    i: int,
    key: Seq<char>,
    other: Seq<char>,
    k: int,
)
    requires
        0 <= k <= e1.len(),
        0 <= i < e1.len(),
        e1.len() == e2.len(),
        forall|j: int| 0 <= j < e1.len() && j != i ==> e1[j] == e2[j],
        e1[i].0@ == key,
        e2[i].0@ == key,
        other != key,
    ensures
        key_index_from(e2, other, k) == key_index_from(e1, other, k),
    decreases e1.len() - k,
{
    if k < e1.len() {
        lemma_update_other(e1, e2, i, key, other, k + 1);
    }
}

/// The appended pair is where the search for a missing name ends.
pub proof fn lemma_push_found<V>(e1: Seq<(String, V)>, e2: Seq<(String, V)>, key: Seq<char>, k: int)
    requires
        0 <= k <= e1.len(),
        e2.len() == e1.len() + 1,
        forall|j: int| 0 <= j < e1.len() ==> e1[j] == e2[j],
        e2[e1.len() as int].0@ == key,
        key_index_from(e1, key, k) is None,
    ensures
        key_index_from(e2, key, k) == Some(e1.len() as int),
    decreases e1.len() - k,
{
    if k < e1.len() {
        lemma_push_found(e1, e2, key, k + 1);
    }
}

/// Appending a pair named `key` leaves the search for another name unchanged.
pub proof fn lemma_push_other<V>(
    e1: Seq<(String, V)>,
    e2: Seq<(String, V)>,
    key: Seq<char>,
    other: Seq<char>,
    k: int,
)
    requires
        0 <= k <= e1.len(),
        e2.len() == e1.len() + 1,
        forall|j: int| 0 <= j < e1.len() ==> e1[j] == e2[j],
        e2[e1.len() as int].0@ == key,
        other != key,
    ensures
        key_index_from(e2, other, k) == key_index_from(e1, other, k),
    decreases e1.len() + 1 - k,
{
    if k < e1.len() {
        lemma_push_other(e1, e2, key, other, k + 1);
    } else {
        assert(key_index_from(e2, other, k + 1) is None);
    }
}

/// Replacing the value of the pair at the first position of `key` changes the
/// lookup of `key` and of no other name.
pub proof fn lemma_replace_value<V>(e1: Seq<(String, V)>, e2: Seq<(String, V)>, i: int, key: Seq<char>)
    requires
        key_index_from(e1, key, 0) == Some(i),
        e2 == e1.update(i, (e2[i].0, e2[i].1)),
        0 <= i < e1.len(),
        e2[i].0@ == key,
    ensures
        key_lookup(e2, key) == Some(e2[i].1),
        forall|k: Seq<char>| k != key ==> key_lookup(e2, k) == key_lookup(e1, k),
{
    lemma_key_index_found(e1, key, 0);
    lemma_update_prefix(e1, e2, i, key, 0);
    assert forall|k: Seq<char>| k != key implies key_lookup(e2, k) == key_lookup(e1, k) by {
        lemma_update_other(e1, e2, i, key, k, 0);
        lemma_key_index_found(e1, k, 0);
    }
}

/// Appending a pair for a missing name adds that name and changes no other.
pub proof fn lemma_append_value<V>(e1: Seq<(String, V)>, e2: Seq<(String, V)>, key: Seq<char>)
    requires
        key_index_from(e1, key, 0) is None,
        e2.len() == e1.len() + 1,
        forall|j: int| 0 <= j < e1.len() ==> e1[j] == e2[j],
        e2[e1.len() as int].0@ == key,
    ensures
        key_lookup(e2, key) == Some(e2[e1.len() as int].1),
        forall|k: Seq<char>| k != key ==> key_lookup(e2, k) == key_lookup(e1, k),
{
    lemma_push_found(e1, e2, key, 0);
    assert forall|k: Seq<char>| k != key implies key_lookup(e2, k) == key_lookup(e1, k) by {
        lemma_push_other(e1, e2, key, k, 0);
        lemma_key_index_found(e1, k, 0);
    }
}

} // verus!
