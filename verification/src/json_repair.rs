//! Repairs for the malformed JSON that language models emit in tool calls:
//! raw newlines inside strings, invalid backslash escapes, missing closing
//! braces and unescaped inner quotes.

use vstd::prelude::*;
use crate::text::{chars_of, string_from};

verus! {

// ---------------------------------------------------------------------------
// Raw newlines inside strings
// ---------------------------------------------------------------------------

/// The output of `escape_newlines_in_json_strings` for `s[i..]`, scanned in
/// the given string state: inside a string a newline becomes `\n`, a
/// carriage return is dropped, and an unescaped quote ends the string.
pub open spec fn escape_newlines_from(s: Seq<char>, i: int, in_string: bool, prev_backslash: bool) -> Seq<char>
    decreases s.len() - i,
{
    if i < 0 || i >= s.len() {
        Seq::empty()
    } else {
        let ch = s[i];
        if in_string {
            if ch == '\n' {
                seq!['\\', 'n'] + escape_newlines_from(s, i + 1, true, false)
            } else if ch == '\r' {
                escape_newlines_from(s, i + 1, true, false)
            } else {
                seq![ch] + escape_newlines_from(
                    s,
                    i + 1,
                    !(ch == '"' && !prev_backslash),
                    ch == '\\' && !prev_backslash,
                )
            }
        } else if ch == '"' {
            seq![ch] + escape_newlines_from(s, i + 1, true, false)
        } else {
            seq![ch] + escape_newlines_from(s, i + 1, false, prev_backslash)
        }
    }
}

/// What `escape_newlines_in_json_strings` returns for `s`.
pub open spec fn escape_newlines_spec(s: Seq<char>) -> Seq<char> {
    escape_newlines_from(s, 0, false, false)
}

/// Each character yields at most two.
proof fn lemma_escape_newlines_len(s: Seq<char>, i: int, in_string: bool, prev: bool)
    requires
        0 <= i,
    ensures
        escape_newlines_from(s, i, in_string, prev).len() <= 2 * (s.len() - i) || i >= s.len(),
        escape_newlines_from(s, i, in_string, prev).len() <= 2 * s.len(),
    decreases s.len() - i,
{
    if i < s.len() {
        let ch = s[i];
        lemma_escape_newlines_len(s, i + 1, true, false);
        lemma_escape_newlines_len(s, i + 1, false, prev);
        lemma_escape_newlines_len(
            s,
            i + 1,
            !(ch == '"' && !prev),
            ch == '\\' && !prev,
        );
    }
}

/// Escape raw newlines inside JSON string values so that they parse: inside a
/// string, `\n` becomes the two characters `\` `n` and `\r` is dropped.
pub fn escape_newlines_in_json_strings(input: &str) -> (r: String)
    ensures
        r@ == escape_newlines_spec(input@),
        r@.len() <= 2 * input@.len(),
{
    let s = chars_of(input);
    let mut out: Vec<char> = Vec::new();
    let mut in_string = false;
    let mut prev_was_backslash = false;
    let mut i: usize = 0;
    while i < s.len()
        invariant
            i <= s.len(),
            out@ + escape_newlines_from(s@, i as int, in_string, prev_was_backslash)
                == escape_newlines_spec(s@),
        decreases s.len() - i,
    {
        let ch = s[i];
        let ghost before = out@;
        if in_string {
            if ch == '\n' {
                out.push('\\');
                out.push('n');
                prev_was_backslash = false;
                i += 1;
                assert(before + escape_newlines_from(s@, i - 1, true, prev_was_backslash) =~= before
                    + seq!['\\', 'n'] + escape_newlines_from(s@, i as int, true, false));
                assert(out@ =~= before + seq!['\\', 'n']);
                continue;
            }
            if ch == '\r' {
                prev_was_backslash = false;
                i += 1;
                continue;
            }
            let ghost old_prev = prev_was_backslash;
            if ch == '"' && !prev_was_backslash {
                in_string = false;
            }
            prev_was_backslash = ch == '\\' && !prev_was_backslash;
            assert(in_string == !(ch == '"' && !old_prev));
        } else if ch == '"' {
            in_string = true;
            prev_was_backslash = false;
        }
        out.push(ch);
        i += 1;
        assert(out@ =~= before + seq![ch]);
        assert(before + (seq![ch] + escape_newlines_from(s@, i as int, in_string, prev_was_backslash))
            =~= out@ + escape_newlines_from(s@, i as int, in_string, prev_was_backslash));
    }
    assert(out@ =~= out@ + escape_newlines_from(s@, i as int, in_string, prev_was_backslash));
    proof {
        lemma_escape_newlines_len(s@, 0, false, false);
    }
    string_from(&out)
}

/// Text without newlines or carriage returns comes back unchanged from the
/// scan of `s[i..]`, whatever the string state.
proof fn lemma_no_newlines_unchanged(s: Seq<char>, i: int, in_string: bool, prev: bool)
    requires
        0 <= i <= s.len(),
        forall|k: int| 0 <= k < s.len() ==> s[k] != '\n' && s[k] != '\r',
    ensures
        escape_newlines_from(s, i, in_string, prev) == s.skip(i),
    decreases s.len() - i,
{
    if i < s.len() {
        let ch = s[i];
        lemma_no_newlines_unchanged(s, i + 1, true, false);
        lemma_no_newlines_unchanged(s, i + 1, false, prev);
        lemma_no_newlines_unchanged(s, i + 1, !(ch == '"' && !prev), ch == '\\' && !prev);
        assert(s.skip(i) =~= seq![ch] + s.skip(i + 1));
    } else {
        assert(s.skip(i) =~= Seq::<char>::empty());
    }
}

/// Text without newlines or carriage returns needs no repair:
/// `escape_newlines_in_json_strings` returns it unchanged.
pub proof fn lemma_escape_newlines_keeps_single_lines(s: Seq<char>)
    requires
        forall|k: int| 0 <= k < s.len() ==> s[k] != '\n' && s[k] != '\r',
    ensures
        escape_newlines_spec(s) == s,
{
    lemma_no_newlines_unchanged(s, 0, false, false);
    assert(s.skip(0) =~= s);
}

/// No string of `s[i..]` (scanned from the given state, as the newline
/// repair scans it) holds a raw newline or carriage return.
pub open spec fn strings_single_line_from(s: Seq<char>, i: int, in_string: bool, prev_backslash: bool) -> bool
    decreases s.len() - i,
{
    if i < 0 || i >= s.len() {
        true
    } else {
        let ch = s[i];
        if in_string {
            ch != '\n' && ch != '\r' && strings_single_line_from(
                s,
                i + 1,
                !(ch == '"' && !prev_backslash),
                ch == '\\' && !prev_backslash,
            )
        } else if ch == '"' {
            strings_single_line_from(s, i + 1, true, false)
        } else {
            strings_single_line_from(s, i + 1, false, prev_backslash)
        }
    }
}

proof fn lemma_single_line_strings_unchanged(s: Seq<char>, i: int, in_string: bool, prev: bool)
    requires
        0 <= i <= s.len(),
        strings_single_line_from(s, i, in_string, prev),
    ensures
        escape_newlines_from(s, i, in_string, prev) == s.skip(i),
    decreases s.len() - i,
{
    if i < s.len() {
        let ch = s[i];
        if in_string {
            lemma_single_line_strings_unchanged(s, i + 1, !(ch == '"' && !prev), ch == '\\' && !prev);
        } else if ch == '"' {
            lemma_single_line_strings_unchanged(s, i + 1, true, false);
        } else {
            lemma_single_line_strings_unchanged(s, i + 1, false, prev);
        }
        assert(s.skip(i) =~= seq![ch] + s.skip(i + 1));
    } else {
        assert(s.skip(i) =~= Seq::<char>::empty());
    }
}

/// Text whose strings hold no raw newline (such as any valid JSON text,
/// whose newlines stand between tokens) comes back unchanged from
/// `escape_newlines_in_json_strings`.
pub proof fn lemma_escape_newlines_keeps_single_line_strings(s: Seq<char>)
    requires
        strings_single_line_from(s, 0, false, false),
    ensures
        escape_newlines_spec(s) == s,
{
    lemma_single_line_strings_unchanged(s, 0, false, false);
    assert(s.skip(0) =~= s);
}

// ---------------------------------------------------------------------------
// Invalid backslash escapes
// ---------------------------------------------------------------------------

/// The characters that may follow a backslash in a JSON string on their own.
pub open spec fn is_simple_escape(c: char) -> bool {
    c == '"' || c == '\\' || c == '/' || c == 'b' || c == 'f' || c == 'n' || c == 'r' || c == 't'
}

/// A hexadecimal digit.
pub open spec fn is_hex_digit(c: char) -> bool {
    ('0' <= c && c <= '9') || ('a' <= c && c <= 'f') || ('A' <= c && c <= 'F')
}

/// Does the backslash at `i` start a valid JSON escape: one of the simple
/// escapes, or `u` followed by four hexadecimal digits?
pub open spec fn is_valid_escape_at(s: Seq<char>, i: int) -> bool {
    &&& i + 1 < s.len()
    &&& (is_simple_escape(s[i + 1]) || (s[i + 1] == 'u' && i + 5 < s.len() && is_hex_digit(s[i + 2])
        && is_hex_digit(s[i + 3]) && is_hex_digit(s[i + 4]) && is_hex_digit(s[i + 5])))
}

/// The output of `escape_invalid_backslashes_in_strings` for `s[i..]`: inside
/// a string, a backslash that starts a valid escape (`\uXXXX` only with its
/// four hexadecimal digits) is kept with the character after it; any other
/// backslash (also one at the very end) is doubled.
pub open spec fn escape_backslashes_from(s: Seq<char>, i: int, in_string: bool) -> Seq<char>
    decreases s.len() - i,
{
    if i < 0 || i >= s.len() {
        Seq::empty()
    } else {
        let ch = s[i];
        if in_string {
            if ch == '\\' {
                if is_valid_escape_at(s, i) {
                    seq![ch, s[i + 1]] + escape_backslashes_from(s, i + 2, true)
                } else {
                    seq!['\\', ch] + escape_backslashes_from(s, i + 1, true)
                }
            } else if ch == '"' {
                seq![ch] + escape_backslashes_from(s, i + 1, false)
            } else {
                seq![ch] + escape_backslashes_from(s, i + 1, true)
            }
        } else {
            seq![ch] + escape_backslashes_from(s, i + 1, ch == '"')
        }
    }
}

/// What `escape_invalid_backslashes_in_strings` returns for `s`.
pub open spec fn escape_backslashes_spec(s: Seq<char>) -> Seq<char> {
    escape_backslashes_from(s, 0, false)
}

/// Each character yields at most two.
proof fn lemma_escape_backslashes_len(s: Seq<char>, i: int, in_string: bool)
    requires
        0 <= i,
    ensures
        escape_backslashes_from(s, i, in_string).len() <= 2 * (s.len() - i) || i >= s.len(),
        escape_backslashes_from(s, i, in_string).len() <= 2 * s.len(),
    decreases s.len() - i,
{
    if i < s.len() {
        let ch = s[i];
        lemma_escape_backslashes_len(s, i + 1, true);
        lemma_escape_backslashes_len(s, i + 1, false);
        lemma_escape_backslashes_len(s, i + 1, ch == '"');
        if i + 1 < s.len() {
            lemma_escape_backslashes_len(s, i + 2, true);
        }
    }
}

fn is_hex_digit_exec(c: char) -> (r: bool)
    ensures
        r == is_hex_digit(c),
{
    ('0' <= c && c <= '9') || ('a' <= c && c <= 'f') || ('A' <= c && c <= 'F')
}

/// Does the backslash at `i` start a valid JSON escape?
fn valid_escape_at(s: &Vec<char>, i: usize) -> (r: bool)
    requires
        i < s.len(),
    ensures
        r == is_valid_escape_at(s@, i as int),
{
    if i + 1 >= s.len() {
        return false;
    }
    let next = s[i + 1];
    if next == '"' || next == '\\' || next == '/' || next == 'b' || next == 'f' || next == 'n' || next == 'r'
        || next == 't' {
        return true;
    }
    next == 'u' && s.len() - i > 5 && is_hex_digit_exec(s[i + 2]) && is_hex_digit_exec(s[i + 3])
        && is_hex_digit_exec(s[i + 4]) && is_hex_digit_exec(s[i + 5])
}

/// Double the backslashes that do not start a valid JSON escape inside a
/// string (such as `\D` in a PHP namespace), keeping valid escapes as they are.
pub fn escape_invalid_backslashes_in_strings(input: &str) -> (r: String)
    ensures
        r@ == escape_backslashes_spec(input@),
        r@.len() <= 2 * input@.len(),
{
    let s = chars_of(input);
    let mut out: Vec<char> = Vec::new();
    let mut in_string = false;
    let mut i: usize = 0;
    while i < s.len()
        invariant
            i <= s.len(),
            out@ + escape_backslashes_from(s@, i as int, in_string) == escape_backslashes_spec(s@),
        decreases s.len() - i,
    {
        let ch = s[i];
        let ghost before = out@;
        let ghost old_i = i as int;
        let ghost old_in = in_string;
        if in_string {
            if ch == '\\' {
                if valid_escape_at(&s, i) {
                    let next = s[i + 1];
                    out.push(ch);
                    out.push(next);
                    i += 2;
                    assert(out@ =~= before + seq![ch, next]);
                } else {
                    out.push('\\');
                    out.push(ch);
                    i += 1;
                    assert(out@ =~= before + seq!['\\', ch]);
                }
            } else if ch == '"' {
                in_string = false;
                out.push(ch);
                i += 1;
                assert(out@ =~= before + seq![ch]);
            } else {
                out.push(ch);
                i += 1;
                assert(out@ =~= before + seq![ch]);
            }
        } else {
            if ch == '"' {
                in_string = true;
            }
            out.push(ch);
            i += 1;
            assert(out@ =~= before + seq![ch]);
        }
        assert(escape_backslashes_from(s@, old_i, old_in) =~= out@.subrange(before.len() as int, out@.len() as int)
            + escape_backslashes_from(s@, i as int, in_string));
        assert(out@ =~= before + out@.subrange(before.len() as int, out@.len() as int));
    }
    assert(out@ =~= out@ + escape_backslashes_from(s@, i as int, in_string));
    proof {
        lemma_escape_backslashes_len(s@, 0, false);
    }
    string_from(&out)
}

// ---------------------------------------------------------------------------
// Missing closing braces and brackets
// ---------------------------------------------------------------------------

/// The closers still owed after scanning `s[i..]` from the given state with
/// `open` owed before, innermost last: an opening brace or bracket owes its
/// closer; a closer pays the innermost one owed where it matches it (others
/// are ignored); what stands inside strings does not count.
pub open spec fn owed_closers_from(
    s: Seq<char>,
    i: int,
    in_string: bool,
    prev_backslash: bool,
    open: Seq<char>,
) -> Seq<char>
    decreases s.len() - i,
{
    if i < 0 || i >= s.len() {
        open
    } else {
        let ch = s[i];
        if in_string {
            owed_closers_from(s, i + 1, !(ch == '"' && !prev_backslash), ch == '\\' && !prev_backslash, open)
        } else if ch == '"' {
            owed_closers_from(s, i + 1, true, false, open)
        } else if ch == '{' {
            owed_closers_from(s, i + 1, false, prev_backslash, open.push('}'))
        } else if ch == '[' {
            owed_closers_from(s, i + 1, false, prev_backslash, open.push(']'))
        } else if (ch == '}' || ch == ']') && open.len() > 0 && open.last() == ch {
            owed_closers_from(s, i + 1, false, prev_backslash, open.drop_last())
        } else {
            owed_closers_from(s, i + 1, false, prev_backslash, open)
        }
    }
}

/// The closers `s` leaves owed, innermost last.
pub open spec fn owed_closers(s: Seq<char>) -> Seq<char> {
    owed_closers_from(s, 0, false, false, Seq::empty())
}

/// What `auto_close_json` returns for `s`: `s`, then the closers it leaves
/// owed, innermost first.
pub open spec fn auto_close_spec(s: Seq<char>) -> Seq<char> {
    s + owed_closers(s).reverse()
}

/// Close the braces and brackets that `input` leaves open (outside strings),
/// innermost first.
pub fn auto_close_json(input: &str) -> (r: String)
    ensures
        r@ == auto_close_spec(input@),
{
    let s = chars_of(input);
    let mut open: Vec<char> = Vec::new();
    let mut in_string = false;
    let mut prev_backslash = false;
    let mut i: usize = 0;
    while i < s.len()
        invariant
            i <= s.len(),
            owed_closers_from(s@, i as int, in_string, prev_backslash, open@) == owed_closers(s@),
        decreases s.len() - i,
    {
        let ch = s[i];
        if in_string {
            let old_prev = prev_backslash;
            if ch == '"' && !prev_backslash {
                in_string = false;
            }
            prev_backslash = ch == '\\' && !old_prev;
        } else {
            if ch == '"' {
                in_string = true;
                prev_backslash = false;
            } else if ch == '{' {
                open.push('}');
            } else if ch == '[' {
                open.push(']');
            } else if (ch == '}' || ch == ']') && open.len() > 0 && open[open.len() - 1] == ch {
                open.pop();
            }
        }
        i += 1;
    }
    let mut out = s;
    let ghost owed = open@;
    let ghost start = out@;
    let mut k = open.len();
    while k > 0
        invariant
            k <= owed.len(),
            open@ == owed,
            out@ == start + owed.reverse().take((owed.len() - k) as int),
        decreases k,
    {
        k -= 1;
        out.push(open[k]);
        assert(owed.reverse()[(owed.len() - k - 1) as int] == owed[k as int]);
        assert(owed.reverse().take((owed.len() - k) as int) =~= owed.reverse().take((owed.len() - k - 1) as int).push(
            owed[k as int],
        ));
    }
    assert(owed.reverse().take(owed.len() as int) =~= owed.reverse());
    string_from(&out)
}

/// Inside every string of `s[i..]` (scanned from the given state), each
/// backslash starts a valid escape: it is followed by one of the characters
/// that JSON allows there.
pub open spec fn escapes_valid_from(s: Seq<char>, i: int, in_string: bool) -> bool
    decreases s.len() - i,
{
    if i < 0 || i >= s.len() {
        true
    } else {
        let ch = s[i];
        if in_string {
            if ch == '\\' {
                is_valid_escape_at(s, i) && escapes_valid_from(s, i + 2, true)
            } else if ch == '"' {
                escapes_valid_from(s, i + 1, false)
            } else {
                escapes_valid_from(s, i + 1, true)
            }
        } else {
            escapes_valid_from(s, i + 1, ch == '"')
        }
    }
}

/// The scan of `s[i..]` keeps text whose escapes are all valid.
proof fn lemma_valid_escapes_unchanged(s: Seq<char>, i: int, in_string: bool)
    requires
        0 <= i <= s.len(),
        escapes_valid_from(s, i, in_string),
    ensures
        escape_backslashes_from(s, i, in_string) == s.skip(i),
    decreases s.len() - i,
{
    if i < s.len() {
        let ch = s[i];
        if in_string && ch == '\\' {
            lemma_valid_escapes_unchanged(s, i + 2, true);
            assert(s.skip(i) =~= seq![ch, s[i + 1]] + s.skip(i + 2));
        } else if in_string && ch == '"' {
            lemma_valid_escapes_unchanged(s, i + 1, false);
            assert(s.skip(i) =~= seq![ch] + s.skip(i + 1));
        } else if in_string {
            lemma_valid_escapes_unchanged(s, i + 1, true);
            assert(s.skip(i) =~= seq![ch] + s.skip(i + 1));
        } else {
            lemma_valid_escapes_unchanged(s, i + 1, ch == '"');
            assert(s.skip(i) =~= seq![ch] + s.skip(i + 1));
        }
    } else {
        assert(s.skip(i) =~= Seq::<char>::empty());
    }
}

/// Valid escapes are never doubled: text whose strings hold only valid
/// escapes comes back unchanged from `escape_invalid_backslashes_in_strings`.
pub proof fn lemma_valid_escapes_kept(s: Seq<char>)
    requires
        escapes_valid_from(s, 0, false),
    ensures
        escape_backslashes_spec(s) == s,
{
    lemma_valid_escapes_unchanged(s, 0, false);
    assert(s.skip(0) =~= s);
}

/// Inside a string, a character that is neither a backslash nor a quote is
/// copied and the scan stays inside the string.
proof fn lemma_plain_copied(s: Seq<char>, i: int)
    requires
        0 <= i < s.len(),
        s[i] != '\\',
        s[i] != '"',
    ensures
        escape_backslashes_from(s, i, true) == seq![s[i]] + escape_backslashes_from(s, i + 1, true),
{
}

/// The four hexadecimal digits after a kept `\u` are copied as they are.
proof fn lemma_hex_copied(s: Seq<char>, i: int)
    requires
        0 <= i,
        i + 3 < s.len(),
        is_hex_digit(s[i]),
        is_hex_digit(s[i + 1]),
        is_hex_digit(s[i + 2]),
        is_hex_digit(s[i + 3]),
    ensures
        escape_backslashes_from(s, i, true) == seq![s[i], s[i + 1], s[i + 2], s[i + 3]] + escape_backslashes_from(
            s,
            i + 4,
            true,
        ),
{
    lemma_plain_copied(s, i);
    lemma_plain_copied(s, i + 1);
    lemma_plain_copied(s, i + 2);
    lemma_plain_copied(s, i + 3);
    assert(seq![s[i]] + (seq![s[i + 1]] + (seq![s[i + 2]] + (seq![s[i + 3]] + escape_backslashes_from(s, i + 4, true))))
        =~= seq![s[i], s[i + 1], s[i + 2], s[i + 3]] + escape_backslashes_from(s, i + 4, true));
}

/// After the repair every backslash inside a string starts a valid escape:
/// the scan of the output from where the repair of `s[i..]` begins finds
/// only valid escapes.
proof fn lemma_repaired_escapes_valid(s: Seq<char>, i: int, in_string: bool, x: Seq<char>, t: Seq<char>)
    requires
        0 <= i,
        t == x + escape_backslashes_from(s, i, in_string),
    ensures
        escapes_valid_from(t, x.len() as int, in_string),
    decreases s.len() - i,
{
    let k = x.len() as int;
    if i >= s.len() {
        assert(t =~= x);
    } else {
        let ch = s[i];
        if in_string {
            if ch == '\\' {
                if is_valid_escape_at(s, i) {
                    let chunk = seq![ch, s[i + 1]];
                    assert(t =~= (x + chunk) + escape_backslashes_from(s, i + 2, true));
                    if !is_simple_escape(s[i + 1]) {
                        lemma_hex_copied(s, i + 2);
                        assert(t =~= (x + chunk + seq![s[i + 2], s[i + 3], s[i + 4], s[i + 5]])
                            + escape_backslashes_from(s, i + 6, true));
                        assert(t[k + 2] == s[i + 2]);
                        assert(t[k + 3] == s[i + 3]);
                        assert(t[k + 4] == s[i + 4]);
                        assert(t[k + 5] == s[i + 5]);
                    }
                    assert(t[k] == ch);
                    assert(t[k + 1] == s[i + 1]);
                    assert(is_valid_escape_at(t, k));
                    lemma_repaired_escapes_valid(s, i + 2, true, x + chunk, t);
                } else {
                    let chunk = seq!['\\', ch];
                    assert(t =~= (x + chunk) + escape_backslashes_from(s, i + 1, true));
                    assert(t[k] == '\\');
                    assert(t[k + 1] == '\\');
                    lemma_repaired_escapes_valid(s, i + 1, true, x + chunk, t);
                }
            } else if ch == '"' {
                assert(t =~= (x + seq![ch]) + escape_backslashes_from(s, i + 1, false));
                assert(t[k] == ch);
                lemma_repaired_escapes_valid(s, i + 1, false, x + seq![ch], t);
            } else {
                assert(t =~= (x + seq![ch]) + escape_backslashes_from(s, i + 1, true));
                assert(t[k] == ch);
                lemma_repaired_escapes_valid(s, i + 1, true, x + seq![ch], t);
            }
        } else {
            assert(t =~= (x + seq![ch]) + escape_backslashes_from(s, i + 1, ch == '"'));
            assert(t[k] == ch);
            lemma_repaired_escapes_valid(s, i + 1, ch == '"', x + seq![ch], t);
        }
    }
}

/// Repairing backslashes twice gives what repairing once gives: the output
/// holds only valid escapes, which a second pass keeps.
pub proof fn lemma_escape_backslashes_idempotent(s: Seq<char>)
    ensures
        escape_backslashes_spec(escape_backslashes_spec(s)) == escape_backslashes_spec(s),
{
    let t = escape_backslashes_spec(s);
    assert(t =~= Seq::<char>::empty() + escape_backslashes_from(s, 0, false));
    lemma_repaired_escapes_valid(s, 0, false, Seq::<char>::empty(), t);
    lemma_valid_escapes_kept(t);
}

/// Closing only appends: the repaired text begins with the input, and an
/// input that leaves no closer owed comes back unchanged.
pub proof fn lemma_auto_close_appends(s: Seq<char>)
    ensures
        auto_close_spec(s).take(s.len() as int) == s,
        owed_closers(s).len() == 0 ==> auto_close_spec(s) == s,
{
    assert(auto_close_spec(s).take(s.len() as int) =~= s);
    if owed_closers(s).len() == 0 {
        assert(owed_closers(s).reverse() =~= Seq::<char>::empty());
        assert(auto_close_spec(s) =~= s);
    }
}

// ---------------------------------------------------------------------------
// Unescaped inner quotes
// ---------------------------------------------------------------------------

/// The first position at or after `j` that is not a space or a tab.
pub open spec fn skip_blanks(s: Seq<char>, j: int) -> int
    decreases s.len() - j,
{
    if 0 <= j < s.len() && (s[j] == ' ' || s[j] == '\t') {
        skip_blanks(s, j + 1)
    } else {
        j
    }
}

/// The quote at `i` ends its string: the next character that is not a
/// blank is `,` `:` `}` `]`, or there is none (or it is a NUL).
pub open spec fn quote_is_structural(s: Seq<char>, i: int) -> bool {
    let j = skip_blanks(s, i + 1);
    let next: char = if 0 <= j < s.len() {
        s[j]
    } else {
        '\0'
    };
    next == ',' || next == ':' || next == '}' || next == ']' || next == '\0'
}

/// The output of `escape_inner_quotes_in_strings` for `s[i..]`: inside a
/// string an unescaped quote that is not structural becomes `\"`, newlines
/// become `\n`, carriage returns are dropped; every other character is kept.
pub open spec fn escape_quotes_from(s: Seq<char>, i: int, in_string: bool, prev_backslash: bool) -> Seq<char>
    decreases s.len() - i,
{
    if i < 0 || i >= s.len() {
        Seq::empty()
    } else {
        let x = s[i];
        if in_string {
            if x == '"' && !prev_backslash {
                if quote_is_structural(s, i) {
                    seq!['"'] + escape_quotes_from(s, i + 1, false, prev_backslash)
                } else {
                    seq!['\\', '"'] + escape_quotes_from(s, i + 1, true, prev_backslash)
                }
            } else if x == '\n' {
                seq!['\\', 'n'] + escape_quotes_from(s, i + 1, true, false)
            } else if x == '\r' {
                escape_quotes_from(s, i + 1, true, false)
            } else {
                seq![x] + escape_quotes_from(s, i + 1, true, x == '\\' && !prev_backslash)
            }
        } else if x == '"' {
            seq![x] + escape_quotes_from(s, i + 1, true, false)
        } else {
            seq![x] + escape_quotes_from(s, i + 1, false, prev_backslash)
        }
    }
}

/// What `escape_inner_quotes_in_strings` returns for `s`.
pub open spec fn escape_quotes_spec(s: Seq<char>) -> Seq<char> {
    escape_quotes_from(s, 0, false, false)
}

/// Each character yields at most two.
proof fn lemma_escape_quotes_len(s: Seq<char>, i: int, in_string: bool, prev: bool)
    requires
        0 <= i,
    ensures
        escape_quotes_from(s, i, in_string, prev).len() <= 2 * s.len(),
        i <= s.len() ==> escape_quotes_from(s, i, in_string, prev).len() <= 2 * (s.len() - i),
    decreases s.len() - i,
{
    if i < s.len() {
        let x = s[i];
        lemma_escape_quotes_len(s, i + 1, false, prev);
        lemma_escape_quotes_len(s, i + 1, true, prev);
        lemma_escape_quotes_len(s, i + 1, true, false);
        lemma_escape_quotes_len(s, i + 1, true, x == '\\' && !prev);
    }
}

/// Escape quotes that stand inside a JSON string but do not end it (those not
/// followed, after blanks, by `,` `:` `}` `]` or the end), and escape raw
/// newlines there; every other character is kept as it is.
pub fn escape_inner_quotes_in_strings(input: &str) -> (r: String)
    ensures
        r@ == escape_quotes_spec(input@),
        r@.len() <= 2 * input@.len(),
{
    let s = chars_of(input);
    let len = s.len();
    let mut out: Vec<char> = Vec::new();
    let mut in_string = false;
    let mut prev_backslash = false;
    let mut i: usize = 0;
    while i < len
        invariant
            len == s@.len(),
            s@ == input@,
            i <= len,
            out@ + escape_quotes_from(s@, i as int, in_string, prev_backslash) == escape_quotes_spec(s@),
        decreases len - i,
    {
        let b = s[i];
        let ghost before = out@;
        let ghost old_i = i as int;
        let ghost old_in = in_string;
        let ghost old_prev = prev_backslash;
        if in_string {
            if b == '"' && !prev_backslash {
                let mut j = i + 1;
                while j < len && (s[j] == ' ' || s[j] == '\t')
                    invariant
                        len == s@.len(),
                        i < j <= len,
                        skip_blanks(s@, i + 1) == skip_blanks(s@, j as int),
                    decreases len - j,
                {
                    j += 1;
                }
                let next: char = if j < len {
                    s[j]
                } else {
                    '\0'
                };
                if next == ',' || next == ':' || next == '}' || next == ']' || next == '\0' {
                    in_string = false;
                    out.push('"');
                    assert(out@ =~= before + seq!['"']);
                } else {
                    out.push('\\');
                    out.push('"');
                    assert(out@ =~= before + seq!['\\', '"']);
                }
            } else if b == '\n' {
                out.push('\\');
                out.push('n');
                prev_backslash = false;
                assert(out@ =~= before + seq!['\\', 'n']);
            } else if b == '\r' {
                prev_backslash = false;
                assert(out@ =~= before + Seq::<char>::empty());
            } else {
                prev_backslash = b == '\\' && !prev_backslash;
                out.push(b);
                assert(out@ =~= before + seq![b]);
            }
        } else {
            if b == '"' {
                in_string = true;
                prev_backslash = false;
            }
            out.push(b);
            assert(out@ =~= before + seq![b]);
        }
        i += 1;
        assert(escape_quotes_from(s@, old_i, old_in, old_prev) =~= out@.subrange(
            before.len() as int,
            out@.len() as int,
        ) + escape_quotes_from(s@, i as int, in_string, prev_backslash));
        assert(out@ =~= before + out@.subrange(before.len() as int, out@.len() as int));
    }
    assert(out@ =~= out@ + escape_quotes_from(s@, i as int, in_string, prev_backslash));
    proof {
        lemma_escape_quotes_len(s@, 0, false, false);
    }
    string_from(&out)
}

} // verus!
