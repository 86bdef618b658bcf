//! Character-sequence helpers shared by the rest of the library: searching,
//! trimming, case mapping and decimal numbers.

use vstd::prelude::*;
use vstd::utf8::{decode_utf8, encode_utf8, is_char_boundary};

verus! {

/// `String::push` appends one character.
pub assume_specification[ String::push ](string: &mut String, ch: char)
    ensures
        final(string)@ == old(string)@.push(ch),
;

// ---------------------------------------------------------------------------
// Searching
// ---------------------------------------------------------------------------

/// `p` occurs in `h` starting at position `i`.
pub open spec fn matches_at(h: Seq<char>, p: Seq<char>, i: int) -> bool {
    0 <= i && i + p.len() <= h.len() && h.subrange(i, i + p.len()) == p
}

/// `p` occurs somewhere in `h`.
pub open spec fn contains(h: Seq<char>, p: Seq<char>) -> bool {
    exists|i: int| matches_at(h, p, i)
}

/// `h` begins with `p`.
pub open spec fn starts_with(h: Seq<char>, p: Seq<char>) -> bool {
    p.len() <= h.len() && h.take(p.len() as int) == p
}

/// `h` ends with `p`.
pub open spec fn ends_with(h: Seq<char>, p: Seq<char>) -> bool {
    p.len() <= h.len() && h.skip(h.len() - p.len()) == p
}

/// The first position at or after `from` where `p` occurs in `h`.
pub open spec fn first_index_from(h: Seq<char>, p: Seq<char>, from: int) -> Option<int>
    decreases h.len() + 1 - from,
{
    if from < 0 || from + p.len() > h.len() {
        None
    } else if matches_at(h, p, from) {
        Some(from)
    } else {
        first_index_from(h, p, from + 1)
    }
}

/// The first position where `p` occurs in `h` (what `str::find` returns).
pub open spec fn first_index(h: Seq<char>, p: Seq<char>) -> Option<int> {
    first_index_from(h, p, 0)
}

/// The last position at or before `upto` where `p` occurs in `h`.
pub open spec fn last_index_upto(h: Seq<char>, p: Seq<char>, upto: int) -> Option<int>
    decreases upto + 1,
{
    if upto < 0 {
        None
    } else if matches_at(h, p, upto) {
        Some(upto)
    } else {
        last_index_upto(h, p, upto - 1)
    }
}

/// The last position where `p` occurs in `h` (what `str::rfind` returns).
pub open spec fn last_index(h: Seq<char>, p: Seq<char>) -> Option<int> {
    last_index_upto(h, p, h.len() - p.len())
}

/// What `first_index_from` returns: the least matching position at or after `from`.
pub proof fn lemma_first_index_from(h: Seq<char>, p: Seq<char>, from: int)
    requires
        0 <= from,
    ensures
        first_index_from(h, p, from) matches Some(i) ==> from <= i && matches_at(h, p, i) && (
        forall|j: int| from <= j < i ==> !matches_at(h, p, j)),
        first_index_from(h, p, from) is None ==> forall|j: int| from <= j ==> !matches_at(h, p, j),
    decreases h.len() + 1 - from,
{
    if from + p.len() > h.len() {
    } else if matches_at(h, p, from) {
    } else {
        lemma_first_index_from(h, p, from + 1);
    }
}

/// `first_index` finds the least matching position, and finds one exactly
/// when `p` occurs in `h`.
pub proof fn lemma_first_index(h: Seq<char>, p: Seq<char>)
    ensures
        first_index(h, p) matches Some(i) ==> matches_at(h, p, i) && (forall|j: int|
            0 <= j < i ==> !matches_at(h, p, j)),
        first_index(h, p) is Some <==> contains(h, p),
{
    lemma_first_index_from(h, p, 0);
    if first_index(h, p) is None {
        assert forall|j: int| !matches_at(h, p, j) by {
            if 0 <= j {
            }
        }
    }
}

/// What `last_index_upto` returns: the greatest matching position at or before `upto`.
pub proof fn lemma_last_index_upto(h: Seq<char>, p: Seq<char>, upto: int)
    ensures
        last_index_upto(h, p, upto) matches Some(i) ==> 0 <= i <= upto && matches_at(h, p, i)
            && (forall|j: int| i < j <= upto ==> !matches_at(h, p, j)),
        last_index_upto(h, p, upto) is None ==> forall|j: int| j <= upto ==> !matches_at(h, p, j),
    decreases upto + 1,
{
    if upto >= 0 && !matches_at(h, p, upto) {
        lemma_last_index_upto(h, p, upto - 1);
    }
}

/// Does `p` occur in `h` at position `i`?
pub fn matches_at_exec(h: &[char], p: &[char], i: usize) -> (r: bool)
    ensures
        r == matches_at(h@, p@, i as int),
{
    if i > h.len() || p.len() > h.len() - i {
        return false;
    }
    let mut k: usize = 0;
    while k < p.len()
        invariant
            i + p.len() <= h.len(),
            k <= p.len(),
            forall|m: int| 0 <= m < k ==> h@[i + m] == p@[m],
        decreases p.len() - k,
    {
        if h[i + k] != p[k] {
            assert(h@.subrange(i as int, i + p.len())[k as int] != p@[k as int]);
            return false;
        }
        k += 1;
    }
    assert(h@.subrange(i as int, i + p.len()) =~= p@);
    true
}

/// The first position of `p` in `h`, as `str::find` gives it.
pub fn find(h: &[char], p: &[char]) -> (r: Option<usize>)
    ensures
        r matches Some(i) ==> first_index(h@, p@) == Some(i as int),
        r is None ==> first_index(h@, p@) is None,
{
    if p.len() == 0 {
        assert(h@.subrange(0, 0) =~= p@);
        return Some(0);
    }
    if p.len() > h.len() {
        return None;
    }
    let last = h.len() - p.len();
    let mut i: usize = 0;
    while i <= last
        invariant
            p.len() > 0,
            last == h.len() - p.len(),
            i <= last + 1,
            first_index(h@, p@) == first_index_from(h@, p@, i as int),
        decreases last + 1 - i,
    {
        if matches_at_exec(h, p, i) {
            return Some(i);
        }
        i += 1;
    }
    None
}

/// The last position of `p` in `h`, as `str::rfind` gives it.
pub fn rfind(h: &[char], p: &[char]) -> (r: Option<usize>)
    ensures
        r matches Some(i) ==> last_index(h@, p@) == Some(i as int),
        r is None ==> last_index(h@, p@) is None,
{
    if p.len() == 0 {
        assert(h@.subrange(h.len() as int, h.len() as int) =~= p@);
        return Some(h.len());
    }
    if p.len() > h.len() {
        return None;
    }
    let mut i: usize = h.len() - p.len() + 1;
    while i > 0
        invariant
            p.len() > 0,
            i <= h.len() - p.len() + 1,
            last_index(h@, p@) == last_index_upto(h@, p@, i - 1),
        decreases i,
    {
        if matches_at_exec(h, p, i - 1) {
            return Some(i - 1);
        }
        i -= 1;
    }
    None
}

/// Are `a` and `b` the same sequence?
pub fn slices_equal(a: &[char], b: &[char]) -> (r: bool)
    ensures
        r == (a@ == b@),
{
    if a.len() != b.len() {
        return false;
    }
    let r = matches_at_exec(a, b, 0);
    assert(a@.subrange(0, b@.len() as int) == a@);
    r
}

/// Does `p` occur in `h`?
pub fn contains_exec(h: &[char], p: &[char]) -> (r: bool)
    ensures
        r == contains(h@, p@),
{
    proof {
        lemma_first_index(h@, p@);
    }
    find(h, p).is_some()
}

/// Does `h` begin with `p`?
pub fn starts_with_exec(h: &[char], p: &[char]) -> (r: bool)
    ensures
        r == starts_with(h@, p@),
{
    let r = matches_at_exec(h, p, 0);
    assert(h@.subrange(0, p@.len() as int) == h@.take(p@.len() as int));
    r
}

/// Does `h` end with `p`?
pub fn ends_with_exec(h: &[char], p: &[char]) -> (r: bool)
    ensures
        r == ends_with(h@, p@),
{
    if p.len() > h.len() {
        return false;
    }
    let r = matches_at_exec(h, p, h.len() - p.len());
    assert(h@.subrange(h.len() - p.len(), h.len() as int) == h@.skip(h.len() - p.len()));
    r
}

// ---------------------------------------------------------------------------
// Copying
// ---------------------------------------------------------------------------

/// The one-character sequence `c`.
pub fn single(c: char) -> (v: Vec<char>)
    ensures
        v@ == seq![c],
{
    let mut v: Vec<char> = Vec::new();
    v.push(c);
    v
}

/// The characters of `s`, in order.
pub fn chars_of(s: &str) -> (v: Vec<char>)
    ensures
        v@ == s@,
{
    let mut v: Vec<char> = Vec::new();
    for c in it: s.chars()
        invariant
            v@ == it.seq().take(it.index() as int),
            it.seq() == s@,
    {
        v.push(c);
    }
    v
}

/// A `String` holding exactly the characters of `v`.
pub fn string_from(v: &[char]) -> (s: String)
    ensures
        s@ == v@,
{
    let mut s = String::new();
    for i in 0..v.len()
        invariant
            s@ == v@.take(i as int),
    {
        s.push(v[i]);
        assert(v@.take(i + 1) == v@.take(i as int).push(v@[i as int]));
    }
    assert(v@.take(v.len() as int) == v@);
    s
}

/// The characters of `v` from position `a` up to (not including) `b`.
pub fn slice_of(v: &[char], a: usize, b: usize) -> (r: Vec<char>)
    requires
        a <= b <= v.len(),
    ensures
        r@ == v@.subrange(a as int, b as int),
{
    let mut r: Vec<char> = Vec::new();
    let mut i = a;
    while i < b
        invariant
            a <= i <= b <= v.len(),
            r@ == v@.subrange(a as int, i as int),
        decreases b - i,
    {
        r.push(v[i]);
        assert(v@.subrange(a as int, i + 1) == v@.subrange(a as int, i as int).push(v@[i as int]));
        i += 1;
    }
    r
}

/// Append the characters of `src` to `dst`.
pub fn append_chars(dst: &mut Vec<char>, src: &[char])
    ensures
        final(dst)@ == old(dst)@ + src@,
{
    for i in 0..src.len()
        invariant
            dst@ == old(dst)@ + src@.take(i as int),
    {
        dst.push(src[i]);
        assert(src@.take(i + 1) == src@.take(i as int).push(src@[i as int]));
    }
    assert(src@.take(src.len() as int) == src@);
}

/// Append the characters of `src` to `dst`.
pub fn append_str(dst: &mut Vec<char>, src: &str)
    ensures
        final(dst)@ == old(dst)@ + src@,
{
    let cs = chars_of(src);
    append_chars(dst, &cs);
}

// ---------------------------------------------------------------------------
// Whitespace and trimming
// ---------------------------------------------------------------------------

/// Unicode `White_Space`, the property that `char::is_whitespace` tests.
pub open spec fn is_whitespace(c: char) -> bool {
    ||| '\u{9}' <= c <= '\u{d}'
    ||| c == ' '
    ||| c == '\u{85}'
    ||| c == '\u{a0}'
    ||| c == '\u{1680}'
    ||| '\u{2000}' <= c <= '\u{200a}'
    ||| c == '\u{2028}'
    ||| c == '\u{2029}'
    ||| c == '\u{202f}'
    ||| c == '\u{205f}'
    ||| c == '\u{3000}'
}

/// Is `c` Unicode white space?
pub fn is_whitespace_exec(c: char) -> (r: bool)
    ensures
        r == is_whitespace(c),
{
    ('\u{9}' <= c && c <= '\u{d}') || c == ' ' || c == '\u{85}' || c == '\u{a0}' || c
        == '\u{1680}' || ('\u{2000}' <= c && c <= '\u{200a}') || c == '\u{2028}' || c
        == '\u{2029}' || c == '\u{202f}' || c == '\u{205f}' || c == '\u{3000}'
}

/// `s` without its leading white space.
pub open spec fn trim_start(s: Seq<char>) -> Seq<char>
    decreases s.len(),
{
    if s.len() > 0 && is_whitespace(s[0]) {
        trim_start(s.drop_first())
    } else {
        s
    }
}

/// `s` without its trailing white space.
pub open spec fn trim_end(s: Seq<char>) -> Seq<char>
    decreases s.len(),
{
    if s.len() > 0 && is_whitespace(s.last()) {
        trim_end(s.drop_last())
    } else {
        s
    }
}

/// `s` without leading and trailing white space (what `str::trim` returns).
pub open spec fn trim(s: Seq<char>) -> Seq<char> {
    trim_end(trim_start(s))
}

/// `trim_start(s.skip(i))` for the first `i` past the leading white space.
proof fn lemma_trim_start_skip(s: Seq<char>, i: int)
    requires
        0 <= i <= s.len(),
        forall|j: int| 0 <= j < i ==> is_whitespace(#[trigger] s[j]),
    ensures
        trim_start(s) == trim_start(s.skip(i)),
    decreases i,
{
    if i > 0 {
        assert(s.skip(1) == s.drop_first());
        lemma_trim_start_skip(s.drop_first(), i - 1);
        assert(s.drop_first().skip(i - 1) == s.skip(i));
    } else {
        assert(s.skip(0) == s);
    }
}

/// `trim_end(s.take(i))` for the last `i` before the trailing white space.
proof fn lemma_trim_end_take(s: Seq<char>, i: int)
    requires
        0 <= i <= s.len(),
        forall|j: int| i <= j < s.len() ==> is_whitespace(#[trigger] s[j]),
    ensures
        trim_end(s) == trim_end(s.take(i)),
    decreases s.len() - i,
{
    if i < s.len() {
        lemma_trim_end_take(s.drop_last(), i);
        assert(s.drop_last().take(i) == s.take(i));
    } else {
        assert(s.take(i) == s);
    }
}

/// `s` without leading and trailing white space, as `str::trim` gives it.
pub fn trim_exec(s: &[char]) -> (r: Vec<char>)
    ensures
        r@ == trim(s@),
        r@.len() <= s@.len(),
{
    let mut a: usize = 0;
    while a < s.len() && is_whitespace_exec(s[a])
        invariant
            a <= s.len(),
            forall|j: int| 0 <= j < a ==> is_whitespace(#[trigger] s@[j]),
        decreases s.len() - a,
    {
        a += 1;
    }
    proof {
        lemma_trim_start_skip(s@, a as int);
    }
    let mut b: usize = s.len();
    while b > a && is_whitespace_exec(s[b - 1])
        invariant
            a <= b <= s.len(),
            forall|j: int| b <= j < s.len() ==> is_whitespace(#[trigger] s@[j]),
        decreases b,
    {
        b -= 1;
    }
    let r = slice_of(s, a, b);
    proof {
        let t = s@.skip(a as int);
        assert(a < s.len() ==> !is_whitespace(s@[a as int]));
        assert(trim_start(t) == t) by {
            if t.len() > 0 {
                assert(t[0] == s@[a as int]);
            }
        }
        lemma_trim_end_take(t, b - a);
        assert(t.take(b - a) == s@.subrange(a as int, b as int));
        let u = t.take(b - a);
        if u.len() > 0 {
            assert(u.last() == s@[b - 1]);
        }
    }
    r
}

// ---------------------------------------------------------------------------
// Case mapping
// ---------------------------------------------------------------------------

/// Every character of `s` is ASCII.
pub open spec fn all_ascii(s: Seq<char>) -> bool {
    forall|i: int| 0 <= i < s.len() ==> (#[trigger] s[i] as u32) < 128
}

/// ASCII lower case of one character.
pub open spec fn ascii_lower(c: char) -> char {
    if 'A' <= c <= 'Z' {
        ((c as u32) + 32) as char
    } else {
        c
    }
}

/// ASCII upper case of one character.
pub open spec fn ascii_upper(c: char) -> char {
    if 'a' <= c <= 'z' {
        ((c as u32) - 32) as char
    } else {
        c
    }
}

/// ASCII lower case of a sequence (what `str::to_ascii_lowercase` returns).
pub open spec fn ascii_lower_seq(s: Seq<char>) -> Seq<char> {
    s.map_values(|c: char| ascii_lower(c))
}

/// ASCII upper case of a sequence.
pub open spec fn ascii_upper_seq(s: Seq<char>) -> Seq<char> {
    s.map_values(|c: char| ascii_upper(c))
}

/// The Unicode lower case of a string, as `str::to_lowercase` computes it.
pub uninterp spec fn unicode_lowercase(s: Seq<char>) -> Seq<char>;

/// The Unicode upper case of a string, as `str::to_uppercase` computes it.
pub uninterp spec fn unicode_uppercase(s: Seq<char>) -> Seq<char>;

/// Calls `str::to_lowercase`. Trusted: the result is the Unicode lower case
/// of `s`, a function of `s` alone, and on an all-ASCII string it is the
/// ASCII lower case (std maps ASCII characters by `to_ascii_lowercase`).
#[verifier::external_body]
pub fn to_lowercase(s: &str) -> (r: String)
    ensures
        r@ == unicode_lowercase(s@),
        all_ascii(s@) ==> r@ == ascii_lower_seq(s@),
{
    s.to_lowercase()
}

/// Calls `str::to_uppercase`. Trusted: the result is the Unicode upper case
/// of `s`, a function of `s` alone, and on an all-ASCII string it is the
/// ASCII upper case.
#[verifier::external_body]
pub fn to_uppercase(s: &str) -> (r: String)
    ensures
        r@ == unicode_uppercase(s@),
        all_ascii(s@) ==> r@ == ascii_upper_seq(s@),
{
    s.to_uppercase()
}

/// ASCII lower case of `s`, as `str::to_ascii_lowercase` gives it.
pub fn ascii_lowercase_exec(s: &[char]) -> (r: Vec<char>)
    ensures
        r@ == ascii_lower_seq(s@),
{
    let mut r: Vec<char> = Vec::new();
    for i in 0..s.len()
        invariant
            r@ == ascii_lower_seq(s@.take(i as int)),
    {
        let c = s[i];
        let l = if 'A' <= c && c <= 'Z' {
            ((c as u8) + 32) as char
        } else {
            c
        };
        r.push(l);
        assert(ascii_lower_seq(s@.take(i + 1)) == ascii_lower_seq(s@.take(i as int)).push(
            ascii_lower(s@[i as int]),
        ));
    }
    assert(s@.take(s.len() as int) == s@);
    r
}

// ---------------------------------------------------------------------------
// Decimal numbers
// ---------------------------------------------------------------------------

/// The character of decimal digit `d` (`d < 10`).
pub open spec fn digit_char(d: nat) -> char {
    ((d + 48) as u32) as char
}

/// The decimal digits of `n`, without leading zeros (what `u64::to_string` returns).
pub open spec fn decimal(n: nat) -> Seq<char>
    decreases n,
{
    if n < 10 {
        seq![digit_char(n)]
    } else {
        decimal(n / 10).push(digit_char(n % 10))
    }
}

/// Append the decimal digits of `n` to `out`.
pub fn push_decimal(out: &mut Vec<char>, n: u64)
    ensures
        final(out)@ == old(out)@ + decimal(n as nat),
    decreases n,
{
    if n >= 10 {
        push_decimal(out, n / 10);
    }
    let d = (n % 10) as u8;
    out.push((d + 48) as char);
    assert(((d + 48) as u8) as char == digit_char((n % 10) as nat));
}

/// `c` is an ASCII decimal digit.
pub open spec fn is_digit(c: char) -> bool {
    '0' <= c <= '9'
}

/// The value of an ASCII decimal digit.
pub open spec fn digit_value(c: char) -> nat {
    ((c as u32) - 48) as nat
}

/// The value of a sequence of decimal digits.
pub open spec fn digits_value(s: Seq<char>) -> nat
    decreases s.len(),
{
    if s.len() == 0 {
        0
    } else {
        digits_value(s.drop_last()) * 10 + digit_value(s.last())
    }
}

/// `s` without one leading `+`, if it has one.
pub open spec fn sign_stripped(s: Seq<char>) -> Seq<char> {
    if s.len() > 0 && s[0] == '+' {
        s.drop_first()
    } else {
        s
    }
}

/// Every character of `s` is an ASCII digit.
pub open spec fn all_digits(s: Seq<char>) -> bool {
    forall|i: int| 0 <= i < s.len() ==> is_digit(#[trigger] s[i])
}

/// What `str::parse::<u64>` gives: an optional `+`, then one or more ASCII
/// digits whose value fits in 64 bits; anything else is an error.
pub open spec fn parse_u64_spec(s: Seq<char>) -> Option<u64> {
    let digits = sign_stripped(s);
    if digits.len() == 0 || !all_digits(digits) {
        None
    } else if digits_value(digits) > u64::MAX {
        None
    } else {
        Some(digits_value(digits) as u64)
    }
}

/// A longer run of digits is worth at least as much as its prefix.
proof fn lemma_digits_value_prefix(s: Seq<char>, i: int)
    requires
        0 <= i <= s.len(),
    ensures
        digits_value(s.take(i)) <= digits_value(s),
    decreases s.len() - i,
{
    if i < s.len() {
        lemma_digits_value_prefix(s.drop_last(), i);
        assert(s.drop_last().take(i) == s.take(i));
    } else {
        assert(s.take(i) == s);
    }
}

/// Once a prefix of the digits is worth more than `u64::MAX`, so is the whole.
proof fn lemma_overflow(digits: Seq<char>, n: int, acc: u64, d: u64)
    requires
        0 < n <= digits.len(),
        acc as nat == digits_value(digits.take(n - 1)),
        d as nat == digit_value(digits[n - 1]),
        acc * 10 + d > u64::MAX,
    ensures
        digits_value(digits) > u64::MAX,
{
    let t = digits.take(n);
    assert(t.drop_last() == digits.take(n - 1));
    assert(t.last() == digits[n - 1]);
    assert(digits_value(t) == acc * 10 + d);
    lemma_digits_value_prefix(digits, n);
}

/// Parse `s` as a `u64`, as `str::parse::<u64>` does.
pub fn parse_u64(s: &[char]) -> (r: Option<u64>)
    ensures
        r == parse_u64_spec(s@),
{
    let start: usize = if s.len() > 0 && s[0] == '+' {
        1
    } else {
        0
    };
    let ghost digits = sign_stripped(s@);
    assert(digits == s@.skip(start as int));
    if start == s.len() {
        assert(digits.len() == 0);
        return None;
    }
    let mut i: usize = start;
    while i < s.len()
        invariant
            start <= i <= s.len(),
            digits == s@.skip(start as int),
            digits == sign_stripped(s@),
            forall|j: int| start <= j < i ==> is_digit(#[trigger] s@[j]),
        decreases s.len() - i,
    {
        if !('0' <= s[i] && s[i] <= '9') {
            assert(digits[i - start] == s@[i as int]);
            assert(!is_digit(digits[i - start]));
            return None;
        }
        i += 1;
    }
    assert forall|j: int| 0 <= j < digits.len() implies is_digit(#[trigger] digits[j]) by {
        assert(digits[j] == s@[j + start]);
    }
    let mut acc: u64 = 0;
    let mut k: usize = start;
    while k < s.len()
        invariant
            start <= k <= s.len(),
            digits == s@.skip(start as int),
            digits == sign_stripped(s@),
            forall|j: int| 0 <= j < digits.len() ==> is_digit(#[trigger] digits[j]),
            acc as nat == digits_value(digits.take(k - start)),
        decreases s.len() - k,
    {
        assert(digits[k - start] == s@[k as int]);
        assert(is_digit(digits[k - start]));
        let d = (s[k] as u32 - 48) as u64;
        assert(digits.take(k + 1 - start).drop_last() == digits.take(k - start));
        assert(digits.take(k + 1 - start).last() == s@[k as int]);
        match acc.checked_mul(10) {
            Some(m) => match m.checked_add(d) {
                Some(v) => {
                    acc = v;
                },
                None => {
                    proof {
                        lemma_overflow(digits, k + 1 - start, acc, d);
                    }
                    return None;
                },
            },
            None => {
                proof {
                    lemma_overflow(digits, k + 1 - start, acc, d);
                }
                return None;
            },
        }
        k += 1;
    }
    assert(digits.take(s.len() - start) == digits);
    Some(acc)
}

// ---------------------------------------------------------------------------
// Pattern tables
// ---------------------------------------------------------------------------

/// The patterns of a table of `(pattern, display name)` pairs.
pub open spec fn table_patterns(table: Seq<(&str, &str)>) -> Seq<Seq<char>> {
    Seq::new(table.len(), |i: int| table[i].0@)
}

/// The first position at or after `k` of a pattern in `patterns` that occurs in `h`.
pub open spec fn first_pattern_from(h: Seq<char>, patterns: Seq<Seq<char>>, k: int) -> Option<int>
    decreases patterns.len() - k,
{
    if k < 0 || k >= patterns.len() {
        None
    } else if contains(h, patterns[k]) {
        Some(k)
    } else {
        first_pattern_from(h, patterns, k + 1)
    }
}

/// The display name of the first pattern of `table` that occurs in `h`, or
/// `Unknown` when none does.
pub open spec fn table_lookup(h: Seq<char>, table: Seq<(&str, &str)>) -> Seq<char> {
    match first_pattern_from(h, table_patterns(table), 0) {
        Some(k) => table[k].1@,
        None => "Unknown"@,
    }
}

/// The position of the first pattern of `table` that occurs in `h`.
pub fn first_table_match(h: &[char], table: &Vec<(&'static str, &'static str)>) -> (r: Option<usize>)
    ensures
        r matches Some(k) ==> first_pattern_from(h@, table_patterns(table@), 0) == Some(k as int)
            && k < table.len(),
        r is None ==> first_pattern_from(h@, table_patterns(table@), 0) is None,
{
    let ghost ps = table_patterns(table@);
    let mut k: usize = 0;
    while k < table.len()
        invariant
            k <= table.len(),
            ps == table_patterns(table@),
            first_pattern_from(h@, ps, 0) == first_pattern_from(h@, ps, k as int),
        decreases table.len() - k,
    {
        let p = chars_of(table[k].0);
        if contains_exec(h, &p) {
            return Some(k);
        }
        k += 1;
    }
    None
}

/// The display name of the first pattern of `table` that occurs in `h`, or `Unknown`.
pub fn lookup_in_table(h: &[char], table: &Vec<(&'static str, &'static str)>) -> (r: &'static str)
    ensures
        r@ == table_lookup(h@, table@),
{
    match first_table_match(h, table) {
        Some(k) => table[k].1,
        None => "Unknown",
    }
}

/// The decimal text of an integer, with a leading `-` when negative (what
/// `to_string` gives for the integer types).
pub open spec fn int_text(n: int) -> Seq<char> {
    if n < 0 {
        seq!['-'] + decimal((-n) as nat)
    } else {
        decimal(n as nat)
    }
}

/// Append the decimal text of a signed integer to `out`.
pub fn push_signed(out: &mut Vec<char>, n: i64)
    ensures
        final(out)@ == old(out)@ + int_text(n as int),
{
    if n < 0 {
        out.push('-');
        let ghost after_sign = out@;
        let magnitude: u64 = (-(n as i128)) as u64;
        push_decimal(out, magnitude);
        assert(out@ =~= old(out)@ + int_text(n as int));
    } else {
        push_decimal(out, n as u64);
    }
}

/// The decimal text of an unsigned integer, as `to_string` gives it.
pub fn u64_text(n: u64) -> (s: String)
    ensures
        s@ == int_text(n as int),
{
    let mut v: Vec<char> = Vec::new();
    push_decimal(&mut v, n);
    assert(v@ =~= decimal(n as nat));
    string_from(&v)
}

/// The decimal text of a signed integer, as `to_string` gives it.
pub fn i64_text(n: i64) -> (s: String)
    ensures
        s@ == int_text(n as int),
{
    let mut v: Vec<char> = Vec::new();
    push_signed(&mut v, n);
    assert(v@ =~= int_text(n as int));
    string_from(&v)
}

/// The patterns of a list of string slices.
pub open spec fn list_patterns(list: Seq<&str>) -> Seq<Seq<char>> {
    Seq::new(list.len(), |i: int| list[i]@)
}

/// The position of the first pattern of `list` that occurs in `h`.
pub fn first_list_match(h: &[char], list: &Vec<&'static str>) -> (r: Option<usize>)
    ensures
        r matches Some(k) ==> first_pattern_from(h@, list_patterns(list@), 0) == Some(k as int)
            && k < list.len(),
        r is None ==> first_pattern_from(h@, list_patterns(list@), 0) is None,
{
    let ghost ps = list_patterns(list@);
    let mut k: usize = 0;
    while k < list.len()
        invariant
            k <= list.len(),
            ps == list_patterns(list@),
            first_pattern_from(h@, ps, 0) == first_pattern_from(h@, ps, k as int),
        decreases list.len() - k,
    {
        let p = chars_of(list[k]);
        if contains_exec(h, &p) {
            return Some(k);
        }
        k += 1;
    }
    None
}

// ---------------------------------------------------------------------------
// Byte lengths
// ---------------------------------------------------------------------------

/// The text of the first `n` bytes of the UTF-8 encoding of `s`.
pub open spec fn byte_prefix(s: Seq<char>, n: nat) -> Seq<char> {
    decode_utf8(encode_utf8(s).take(n as int))
}

/// The number of bytes in the UTF-8 encoding of `s`, as `str::len` gives it.
pub fn byte_len(s: &str) -> (r: usize)
    ensures
        r == encode_utf8(s@).len(),
{
    s.as_bytes().len()
}

/// The text of the first `n` bytes of `s`, as `&s[..n]` gives it; the cut
/// must fall between two characters.
pub fn prefix_bytes(s: &str, n: usize) -> (r: String)
    requires
        is_char_boundary(encode_utf8(s@), n as int),
    ensures
        r@ == byte_prefix(s@, n as nat),
{
    let (head, _) = s.split_at(n);
    proof {
        vstd::utf8::encode_utf8_decode_utf8(head@);
        assert(encode_utf8(head@) =~= encode_utf8(s@).subrange(0, n as int));
        assert(encode_utf8(s@).subrange(0, n as int) =~= encode_utf8(s@).take(n as int));
    }
    head.to_string()
}


// ---------------------------------------------------------------------------
// Replacing
// ---------------------------------------------------------------------------

/// `s` with each occurrence of `from` replaced by `to`, scanning from the
/// left and never inside a replacement (what `str::replace` returns for a
/// non-empty `from`).
pub open spec fn replace_all(s: Seq<char>, from: Seq<char>, to: Seq<char>) -> Seq<char>
    decreases s.len(),
{
    if s.len() == 0 || from.len() == 0 {
        s
    } else if starts_with(s, from) {
        to + replace_all(s.skip(from.len() as int), from, to)
    } else {
        seq![s[0]] + replace_all(s.skip(1), from, to)
    }
}

/// Replace each occurrence of `from` in `s` by `to`, as `str::replace` does.
pub fn replace_all_exec(s: &str, from: &str, to: &str) -> (r: String)
    requires
        from@.len() > 0,
    ensures
        r@ == replace_all(s@, from@, to@),
{
    let h = chars_of(s);
    let p = chars_of(from);
    let t = chars_of(to);
    let mut out: Vec<char> = Vec::new();
    let mut i: usize = 0;
    assert(h@.skip(0) =~= h@);
    assert(out@ + replace_all(h@, p@, t@) =~= replace_all(h@, p@, t@));
    while i < h.len()
        invariant
            i <= h.len(),
            h@ == s@,
            p@ == from@,
            t@ == to@,
            p@.len() > 0,
            out@ + replace_all(h@.skip(i as int), p@, t@) == replace_all(h@, p@, t@),
        decreases h.len() - i,
    {
        let ghost rest = h@.skip(i as int);
        if matches_at_exec(&h, &p, i) {
            proof {
                assert(rest.take(p@.len() as int) =~= h@.subrange(i as int, i + p@.len()));
                assert(rest.skip(p@.len() as int) =~= h@.skip(i + p@.len()));
                assert(out@ + t@ + replace_all(h@.skip(i + p@.len()), p@, t@) =~= out@ + replace_all(rest, p@, t@));
            }
            append_chars(&mut out, &t);
            i += p.len();
        } else {
            proof {
                if starts_with(rest, p@) {
                    assert(h@.subrange(i as int, i + p@.len()) =~= rest.take(p@.len() as int));
                }
                assert(rest.skip(1) =~= h@.skip(i + 1));
                assert(rest[0] == h@[i as int]);
                assert(out@.push(h@[i as int]) + replace_all(h@.skip(i + 1), p@, t@) =~= out@ + replace_all(rest, p@, t@));
            }
            out.push(h[i]);
            i += 1;
        }
    }
    assert(h@.skip(h.len() as int) =~= Seq::<char>::empty());
    assert(out@ =~= replace_all(h@, p@, t@));
    string_from(&out)
}

/// The first `n` characters of `s` (all of it where it is shorter), as
/// `chars().take(n)` collects them.
pub open spec fn take_chars(s: Seq<char>, n: nat) -> Seq<char> {
    if s.len() <= n {
        s
    } else {
        s.take(n as int)
    }
}

/// The first `n` characters of `s`.
pub fn take_chars_exec(s: &str, n: usize) -> (r: String)
    ensures
        r@ == take_chars(s@, n as nat),
{
    let v = chars_of(s);
    if v.len() <= n {
        s.to_string()
    } else {
        string_from(&slice_of(&v, 0, n))
    }
}


/// The last character boundary of `bytes` at or before `i`.
pub open spec fn last_boundary(bytes: Seq<u8>, i: nat) -> nat
    decreases i,
{
    if i == 0 || is_char_boundary(bytes, i as int) {
        i
    } else {
        last_boundary(bytes, (i - 1) as nat)
    }
}

/// The last character boundary of `s` at or before byte `max`, as a loop
/// stepping back with `str::is_char_boundary` finds it.
pub fn boundary_at_or_before(s: &str, max: usize) -> (r: usize)
    ensures
        r == last_boundary(encode_utf8(s@), max as nat),
        r <= max,
        is_char_boundary(encode_utf8(s@), r as int),
{
    let mut end: usize = max;
    while end > 0 && !s.is_char_boundary(end)
        invariant
            end <= max,
            last_boundary(encode_utf8(s@), max as nat) == last_boundary(encode_utf8(s@), end as nat),
        decreases end,
    {
        end -= 1;
    }
    proof {
        vstd::utf8::encode_utf8_valid_utf8(s@);
        vstd::utf8::is_char_boundary_start_end_of_seq(encode_utf8(s@));
    }
    end
}


/// `parts` joined with `sep` between each two (what `join` gives).
pub open spec fn join_with(parts: Seq<Seq<char>>, sep: Seq<char>) -> Seq<char>
    decreases parts.len(),
{
    if parts.len() == 0 {
        Seq::empty()
    } else if parts.len() == 1 {
        parts[0]
    } else {
        join_with(parts.drop_last(), sep) + sep + parts.last()
    }
}

/// `parts` joined with `sep`.
pub fn join_exec(parts: &Vec<Vec<char>>, sep: &str) -> (r: String)
    ensures
        r@ == join_with(parts@.map_values(|p: Vec<char>| p@), sep@),
{
    let ghost pv = parts@.map_values(|p: Vec<char>| p@);
    let mut out: Vec<char> = Vec::new();
    let mut i: usize = 0;
    while i < parts.len()
        invariant
            i <= parts.len(),
            pv == parts@.map_values(|p: Vec<char>| p@),
            out@ == join_with(pv.take(i as int), sep@),
        decreases parts.len() - i,
    {
        if i > 0 {
            append_str(&mut out, sep);
        }
        append_chars(&mut out, &parts[i]);
        proof {
            assert(pv.take(i + 1).drop_last() =~= pv.take(i as int));
            assert(pv.take(i + 1).last() == parts@[i as int]@);
            if i == 0 {
                assert(out@ =~= join_with(pv.take(1), sep@));
            } else {
                assert(out@ =~= join_with(pv.take(i + 1), sep@));
            }
        }
        i += 1;
    }
    assert(pv.take(parts.len() as int) =~= pv);
    string_from(&out)
}

} // verus!
