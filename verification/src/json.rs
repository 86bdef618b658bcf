//! JSON documents as the library reads them, and the calls into `serde_json`
//! that parse them.

use vstd::prelude::*;

verus! {

/// A JSON document. Numbers are kept as the text `serde_json` gives for
/// them; object members are kept in a list, in the order in which they were
/// built, or, for a parsed document, in the order `serde_json` gives them
/// (sorted by key, as its map sorts them).
#[derive(Debug)]
pub enum JsonValue {
    Null,
    Bool(bool),
    Number(String),
    Str(String),
    Array(Vec<JsonValue>),
    Object(Vec<(String, JsonValue)>),
}

/// The mathematical form of a JSON document.
pub enum Json {
    Null,
    Bool(bool),
    Number(Seq<char>),
    Str(Seq<char>),
    Array(Seq<Json>),
    Object(Seq<(Seq<char>, Json)>),
}

impl View for JsonValue {
    type V = Json;

    open spec fn view(&self) -> Json
        decreases self,
    {
        match self {
            JsonValue::Null => Json::Null,
            JsonValue::Bool(b) => Json::Bool(*b),
            JsonValue::Number(n) => Json::Number(n@),
            JsonValue::Str(s) => Json::Str(s@),
            JsonValue::Array(items) => Json::Array(
                Seq::new(
                    items.len() as nat,
                    |i: int|
                        if 0 <= i < items.len() {
                            proof {
                                assert(decreases_to!(items => items@));
                            }
                            items@[i].view()
                        } else {
                            Json::Null
                        },
                ),
            ),
            JsonValue::Object(members) => Json::Object(
                Seq::new(
                    members.len() as nat,
                    |i: int|
                        if 0 <= i < members.len() {
                            proof {
                                assert(decreases_to!(members => members@));
                            }
                            (members@[i].0@, members@[i].1.view())
                        } else {
                            (Seq::empty(), Json::Null)
                        },
                ),
            ),
        }
    }
}

/// The view of an optional document.
pub open spec fn opt_view(v: Option<JsonValue>) -> Option<Json> {
    match v {
        Some(j) => Some(j@),
        None => None,
    }
}

/// The members of an object (empty for any other value).
pub open spec fn object_members(j: Json) -> Seq<(Seq<char>, Json)> {
    match j {
        Json::Object(ms) => ms,
        _ => Seq::empty(),
    }
}

/// The view of an object lists the views of its members, in order.
pub proof fn lemma_object_view(v: JsonValue)
    requires
        v is Object,
    ensures
        v@ == Json::Object(object_members(v@)),
        object_members(v@).len() == v->Object_0.len(),
        forall|j: int|
            0 <= j < v->Object_0.len() ==> #[trigger] object_members(v@)[j] == (
            v->Object_0@[j].0@,
            v->Object_0@[j].1@,
        ),
{
    reveal_with_fuel(<JsonValue as View>::view, 2);
}

/// The view of an array lists the views of its items, in order.
pub proof fn lemma_array_view(v: JsonValue)
    requires
        v is Array,
    ensures
        v@ == Json::Array(array_items(v@)),
        array_items(v@).len() == v->Array_0.len(),
        forall|j: int| 0 <= j < v->Array_0.len() ==> #[trigger] array_items(v@)[j] == v->Array_0@[j]@,
{
}

/// The items of an array (empty for any other value).
pub open spec fn array_items(j: Json) -> Seq<Json> {
    match j {
        Json::Array(items) => items,
        _ => Seq::empty(),
    }
}

/// The position of the first member of `members` named `key`.
pub open spec fn member_index_from(members: Seq<(Seq<char>, Json)>, key: Seq<char>, from: int) -> Option<int>
    decreases members.len() - from,
{
    if from < 0 || from >= members.len() {
        None
    } else if members[from].0 == key {
        Some(from)
    } else {
        member_index_from(members, key, from + 1)
    }
}

/// The value of member `key` of an object (what `serde_json::Value::get` returns
/// for a string index); `None` for a missing member or a value that is not an object.
pub open spec fn json_get(j: Json, key: Seq<char>) -> Option<Json> {
    match j {
        Json::Object(members) => match member_index_from(members, key, 0) {
            Some(i) => Some(members[i].1),
            None => None,
        },
        _ => None,
    }
}

/// The text of a JSON string (what `serde_json::Value::as_str` returns).
pub open spec fn json_as_str(j: Json) -> Option<Seq<char>> {
    match j {
        Json::Str(s) => Some(s),
        _ => None,
    }
}

/// The string value of member `key`, if it is a string.
pub open spec fn json_get_str(j: Json, key: Seq<char>) -> Option<Seq<char>> {
    match json_get(j, key) {
        Some(v) => json_as_str(v),
        None => None,
    }
}

/// `members` with member `key` set to `v`: replaced in place if present,
/// appended otherwise (what inserting into a JSON object does).
pub open spec fn members_insert(members: Seq<(Seq<char>, Json)>, key: Seq<char>, v: Json) -> Seq<(Seq<char>, Json)> {
    match member_index_from(members, key, 0) {
        Some(i) => members.update(i, (key, v)),
        None => members.push((key, v)),
    }
}

/// The document `serde_json` parses from `text`, or `None` where it reports an error.
pub uninterp spec fn json_parse(text: Seq<char>) -> Option<Json>;

/// The `serde_json::Value` type, carried through unread.
#[verifier::external_type_specification]
#[verifier::external_body]
pub struct ExSerdeJsonValue(serde_json::Value);

/// Converts a `serde_json::Value` into the library's `JsonValue`, one variant
/// for one variant (numbers by their `Display` text). Trusted: nothing is
/// stated of the result; its caller `parse_json` states it.
#[verifier::external_body]
fn from_serde(v: serde_json::Value) -> JsonValue {
    match v {
        serde_json::Value::Null => JsonValue::Null,
        serde_json::Value::Bool(b) => JsonValue::Bool(b),
        serde_json::Value::Number(n) => JsonValue::Number(n.to_string()),
        serde_json::Value::String(s) => JsonValue::Str(s),
        serde_json::Value::Array(a) => JsonValue::Array(a.into_iter().map(from_serde).collect()),
        serde_json::Value::Object(m) => JsonValue::Object(
            m.into_iter().map(|(k, x)| (k, from_serde(x))).collect(),
        ),
    }
}

/// The message of the error `serde_json` reports for `text`.
pub uninterp spec fn json_parse_error(text: Seq<char>) -> Seq<char>;

/// Calls `serde_json::from_str::<serde_json::Value>`, keeping the error's
/// message. Trusted: the document is `json_parse(text)` where that is one,
/// else the message is `json_parse_error(text)`; both are functions of the
/// text alone.
#[verifier::external_body]
pub fn parse_json_detailed(text: &str) -> (r: Result<JsonValue, String>)
    ensures
        match r {
            Ok(v) => json_parse(text@) == Some(v@),
            Err(m) => json_parse(text@) is None && m@ == json_parse_error(text@),
        },
{
    match serde_json::from_str::<serde_json::Value>(text) {
        Ok(v) => Ok(from_serde(v)),
        Err(e) => Err(e.to_string()),
    }
}

/// Parse a JSON document, as `serde_json::from_str` does; `None` where it
/// reports an error.
pub fn parse_json(text: &str) -> (r: Option<JsonValue>)
    ensures
        opt_view(r) == json_parse(text@),
{
    match parse_json_detailed(text) {
        Ok(v) => Some(v),
        Err(_) => None,
    }
}

/// The compact text `serde_json` writes for a document.
pub uninterp spec fn json_serialize(j: Json) -> Seq<char>;

/// Converts the library's `JsonValue` into a `serde_json::Value`, one
/// variant for one variant (a number by parsing its text, `null` where that
/// text is not a JSON number). Trusted: nothing is stated of the result; its
/// caller `json_to_string` states it.
#[verifier::external_body]
fn to_serde(v: &JsonValue) -> serde_json::Value {
    match v {
        JsonValue::Null => serde_json::Value::Null,
        JsonValue::Bool(b) => serde_json::Value::Bool(*b),
        JsonValue::Number(t) => serde_json::from_str(t).unwrap_or(serde_json::Value::Null),
        JsonValue::Str(s) => serde_json::Value::String(s.clone()),
        JsonValue::Array(a) => serde_json::Value::Array(a.iter().map(to_serde).collect()),
        JsonValue::Object(m) => serde_json::Value::Object(
            m.iter().map(|(k, x)| (k.clone(), to_serde(x))).collect(),
        ),
    }
}

/// Calls `serde_json::Value::to_string`. Trusted: the result is the text
/// named `json_serialize(v)`, a function of the document alone.
#[verifier::external_body]
pub fn json_to_string(v: &JsonValue) -> (r: String)
    ensures
        r@ == json_serialize(v@),
{
    to_serde(v).to_string()
}

/// The indented text `serde_json::to_string_pretty` writes for a document.
pub uninterp spec fn json_serialize_pretty(j: Json) -> Seq<char>;

/// Calls `serde_json::to_string_pretty` on the document. Trusted: the result
/// is the text named `json_serialize_pretty(v)`, a function of the document
/// alone (writing a `serde_json::Value` cannot fail).
#[verifier::external_body]
pub fn json_to_string_pretty(v: &JsonValue) -> (r: String)
    ensures
        r@ == json_serialize_pretty(v@),
{
    serde_json::to_string_pretty(&to_serde(v)).unwrap_or_default()
}

impl JsonValue {
    /// The value of member `key`, as `serde_json::Value::get` gives it.
    pub fn get(&self, key: &str) -> (r: Option<&JsonValue>)
        ensures
            match r {
                Some(v) => json_get(self@, key@) == Some(v@),
                None => json_get(self@, key@) is None,
            },
    {
        match self {
            JsonValue::Object(members) => {
                let k = crate::text::chars_of(key);
                let ghost ms = object_members(self@);
                proof {
                    lemma_object_view(*self);
                }
                let mut i: usize = 0;
                while i < members.len()
                    invariant
                        i <= members.len(),
                        k@ == key@,
                        self@ == Json::Object(ms),
                        ms.len() == members.len(),
                        forall|j: int|
                            0 <= j < members.len() ==> #[trigger] ms[j] == (members@[j].0@, members@[j].1@),
                        member_index_from(ms, key@, 0) == member_index_from(ms, key@, i as int),
                    decreases members.len() - i,
                {
                    let name = crate::text::chars_of(members[i].0.as_str());
                    assert(ms[i as int] == (members@[i as int].0@, members@[i as int].1@));
                    if crate::text::slices_equal(&name, &k) {
                        return Some(&members[i].1);
                    }
                    i += 1;
                }
                None
            },
            _ => None,
        }
    }

    /// The text of a JSON string, as `serde_json::Value::as_str` gives it.
    pub fn as_str(&self) -> (r: Option<&String>)
        ensures
            match r {
                Some(s) => json_as_str(self@) == Some(s@),
                None => json_as_str(self@) is None,
            },
    {
        match self {
            JsonValue::Str(s) => Some(s),
            _ => None,
        }
    }
}

impl JsonValue {
    /// A copy of the document.
    pub fn deep_clone(&self) -> (r: JsonValue)
        ensures
            r@ == self@,
        decreases self,
    {
        match self {
            JsonValue::Null => JsonValue::Null,
            JsonValue::Bool(b) => JsonValue::Bool(*b),
            JsonValue::Number(n) => JsonValue::Number(n.clone()),
            JsonValue::Str(s) => JsonValue::Str(s.clone()),
            JsonValue::Array(items) => {
                let mut out: Vec<JsonValue> = Vec::new();
                let mut i: usize = 0;
                while i < items.len()
                    invariant
                        i <= items.len(),
                        *self == JsonValue::Array(*items),
                        out@.len() == i,
                        forall|k: int| 0 <= k < i ==> #[trigger] out@[k]@ == items@[k]@,
                    decreases items.len() - i,
                {
                    proof {
                        assert(decreases_to!(*self => (*self)->Array_0));
                        assert(decreases_to!(*items => items@));
                        assert(decreases_to!(items@ => items@[i as int]));
                        assert(decreases_to!(*self => items@[i as int]));
                    }
                    let c = items[i].deep_clone();
                    out.push(c);
                    i += 1;
                }
                let r = JsonValue::Array(out);
                proof {
                    lemma_array_view(r);
                    lemma_array_view(*self);
                    assert(array_items(r@) =~= array_items(self@));
                }
                r
            },
            JsonValue::Object(members) => {
                let mut out: Vec<(String, JsonValue)> = Vec::new();
                let mut i: usize = 0;
                while i < members.len()
                    invariant
                        i <= members.len(),
                        *self == JsonValue::Object(*members),
                        out@.len() == i,
                        forall|k: int| 0 <= k < i ==> #[trigger] out@[k].0@ == members@[k].0@ && out@[k].1@
                            == members@[k].1@,
                    decreases members.len() - i,
                {
                    proof {
                        assert(decreases_to!(*self => (*self)->Object_0));
                        assert(decreases_to!(*members => members@));
                        assert(decreases_to!(members@ => members@[i as int]));
                        assert(decreases_to!(members@[i as int] => members@[i as int].1));
                        assert(decreases_to!(*self => members@[i as int].1));
                    }
                    let c = members[i].1.deep_clone();
                    out.push((members[i].0.clone(), c));
                    i += 1;
                }
                let r = JsonValue::Object(out);
                proof {
                    lemma_object_members(r);
                    lemma_object_members(*self);
                    assert(members_view(out@) =~= members_view(members@));
                }
                r
            },
        }
    }
}

/// The views of a list of object members.
pub open spec fn members_view(ms: Seq<(String, JsonValue)>) -> Seq<(Seq<char>, Json)> {
    Seq::new(ms.len(), |i: int| (ms[i].0@, ms[i].1@))
}

/// The members of an object, as the view of the object gives them.
pub proof fn lemma_object_members(v: JsonValue)
    requires
        v is Object,
    ensures
        v@ == Json::Object(members_view(v->Object_0@)),
{
    lemma_object_view(v);
    assert(object_members(v@) =~= members_view(v->Object_0@));
}

/// The position of the first member named `key`.
pub fn member_position(members: &Vec<(String, JsonValue)>, key: &str) -> (r: Option<usize>)
    ensures
        r matches Some(i) ==> member_index_from(members_view(members@), key@, 0) == Some(i as int)
            && i < members.len(),
        r is None ==> member_index_from(members_view(members@), key@, 0) is None,
{
    let k = crate::text::chars_of(key);
    let ghost ms = members_view(members@);
    let mut i: usize = 0;
    while i < members.len()
        invariant
            i <= members.len(),
            k@ == key@,
            ms == members_view(members@),
            member_index_from(ms, key@, 0) == member_index_from(ms, key@, i as int),
        decreases members.len() - i,
    {
        let name = crate::text::chars_of(members[i].0.as_str());
        assert(ms[i as int] == (members@[i as int].0@, members@[i as int].1@));
        if crate::text::slices_equal(&name, &k) {
            return Some(i);
        }
        i += 1;
    }
    None
}

/// Set member `key` of an object's member list to `v`, as assigning to
/// `object[key]` does: in place where the key is present, appended otherwise.
pub fn object_insert(members: &mut Vec<(String, JsonValue)>, key: String, v: JsonValue)
    ensures
        members_view(final(members)@) == members_insert(members_view(old(members)@), key@, v@),
{
    let ghost kv = key@;
    let ghost vv = v@;
    match member_position(members, key.as_str()) {
        Some(i) => {
            members.set(i, (key, v));
            proof {
                assert(members_view(members@) =~= members_view(old(members)@).update(
                    i as int,
                    (kv, vv),
                ));
            }
        },
        None => {
            members.push((key, v));
            proof {
                assert(members_view(members@) =~= members_view(old(members)@).push((kv, vv)));
            }
        },
    }
}

/// An object made of `members` has exactly their views as its members.
pub proof fn lemma_object_of(members: Vec<(String, JsonValue)>)
    ensures
        JsonValue::Object(members)@ == Json::Object(members_view(members@)),
{
    lemma_object_members(JsonValue::Object(members));
}

/// A JSON number as an unsigned integer, as `serde_json::Value::as_u64`
/// reads it: numbers are kept by their `serde_json` text, in which a
/// non-negative integer is a run of plain digits.
pub open spec fn json_as_u64(j: Json) -> Option<u64> {
    match j {
        Json::Number(t) => if t.len() > 0 && crate::text::all_digits(t) {
            crate::text::parse_u64_spec(t)
        } else {
            None
        },
        _ => None,
    }
}

/// A run of one or more plain digits, read as a `u64` (`None` for anything
/// else or a value past 64 bits).
pub open spec fn digits_u64(t: Seq<char>) -> Option<u64> {
    if t.len() > 0 && crate::text::all_digits(t) {
        crate::text::parse_u64_spec(t)
    } else {
        None
    }
}

/// A JSON number as a signed integer, as `serde_json::Value::as_i64` reads
/// it from the number's text: plain digits up to `i64::MAX`, or `-` and
/// digits down to `i64::MIN`; a fraction or exponent gives `None`.
pub open spec fn json_as_i64(j: Json) -> Option<i64> {
    match j {
        Json::Number(t) => if t.len() > 0 && t[0] == '-' {
            match digits_u64(t.drop_first()) {
                Some(m) => if m <= 0x8000_0000_0000_0000u64 {
                    Some((-(m as int)) as i64)
                } else {
                    None
                },
                None => None,
            }
        } else {
            match digits_u64(t) {
                Some(m) => if m <= i64::MAX {
                    Some(m as i64)
                } else {
                    None
                },
                None => None,
            }
        },
        _ => None,
    }
}

/// Read a run of one or more plain digits as a `u64`.
fn digits_u64_exec(cs: &[char]) -> (r: Option<u64>)
    ensures
        r == digits_u64(cs@),
{
    if cs.len() == 0 {
        return None;
    }
    let mut i: usize = 0;
    while i < cs.len()
        invariant
            i <= cs.len(),
            forall|j: int| 0 <= j < i ==> crate::text::is_digit(#[trigger] cs@[j]),
        decreases cs.len() - i,
    {
        if !('0' <= cs[i] && cs[i] <= '9') {
            assert(!crate::text::is_digit(cs@[i as int]));
            return None;
        }
        i += 1;
    }
    crate::text::parse_u64(cs)
}

impl JsonValue {
    /// Take member `key` out of an object.
    pub fn take_member(self, key: &str) -> (r: Option<JsonValue>)
        ensures
            opt_view(r) == json_get(self@, key@),
    {
        match self {
            JsonValue::Object(mut members) => {
                proof {
                    lemma_object_members(JsonValue::Object(members));
                }
                match member_position(&members, key) {
                    Some(i) => {
                        let (_, v) = members.remove(i);
                        Some(v)
                    },
                    None => None,
                }
            },
            _ => None,
        }
    }

    /// Does the object have a member named `key`?
    pub fn contains_key(&self, key: &str) -> (r: bool)
        ensures
            r == (json_get(self@, key@) is Some),
    {
        self.get(key).is_some()
    }

    /// The value as an unsigned integer, as `serde_json::Value::as_u64` gives it.
    pub fn as_u64(&self) -> (r: Option<u64>)
        ensures
            r == json_as_u64(self@),
    {
        match self {
            JsonValue::Number(t) => {
                let cs = crate::text::chars_of(t.as_str());
                if cs.len() == 0 {
                    return None;
                }
                let mut i: usize = 0;
                while i < cs.len()
                    invariant
                        i <= cs.len(),
                        cs@.len() > 0,
                        self@ == Json::Number(cs@),
                        forall|j: int| 0 <= j < i ==> crate::text::is_digit(#[trigger] cs@[j]),
                    decreases cs.len() - i,
                {
                    if !('0' <= cs[i] && cs[i] <= '9') {
                        assert(!crate::text::is_digit(cs@[i as int]));
                        assert(!crate::text::all_digits(cs@));
                        return None;
                    }
                    i += 1;
                }
                crate::text::parse_u64(&cs)
            },
            _ => None,
        }
    }

    /// The value as a signed integer, as `serde_json::Value::as_i64` gives it.
    pub fn as_i64(&self) -> (r: Option<i64>)
        ensures
            r == json_as_i64(self@),
    {
        match self {
            JsonValue::Number(t) => {
                let cs = crate::text::chars_of(t.as_str());
                if cs.len() > 0 && cs[0] == '-' {
                    let rest = crate::text::slice_of(&cs, 1, cs.len());
                    assert(rest@ == cs@.drop_first());
                    match digits_u64_exec(&rest) {
                        Some(m) => if m <= 0x8000_0000_0000_0000u64 {
                            let v: i128 = -(m as i128);
                            Some(v as i64)
                        } else {
                            None
                        },
                        None => None,
                    }
                } else {
                    match digits_u64_exec(&cs) {
                        Some(m) => if m <= 0x7fff_ffff_ffff_ffffu64 {
                            Some(m as i64)
                        } else {
                            None
                        },
                        None => None,
                    }
                }
            },
            _ => None,
        }
    }

    /// The string value of member `key`, copied.
    pub fn get_str(&self, key: &str) -> (r: Option<String>)
        ensures
            match r {
                Some(s) => json_get_str(self@, key@) == Some(s@),
                None => json_get_str(self@, key@) is None,
            },
    {
        match self.get(key) {
            Some(v) => match v.as_str() {
                Some(s) => Some(s.clone()),
                None => None,
            },
            None => None,
        }
    }
}

} // verus!
