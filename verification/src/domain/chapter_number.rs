//! The chapter number written in a chapter title.
//!
//! Titles are searched in three passes, each a small grammar over the
//! characters of the cleaned title:
//!
//! 1. the last number after a keyword (`chapter`, `capítulo`, `ch`, `ch.`,
//!    `cap`, `cap.`, `ep`, `ep.`, `episode`, `episódio` or `#`, in any
//!    case), optionally followed by spaces, one `:` or `.`, and spaces;
//! 2. else a number at the start of the title followed by its end, a space,
//!    a `-` or a `:`;
//! 3. else the last number standing alone between spaces.
//!
//! A number is decimal digits, optionally followed by `.` and more digits.
//! Digits are those of Unicode's `Decimal_Number` category and spaces those
//! of `White_Space`; a number counts only where all its digits are ASCII.

use vstd::prelude::*;
use crate::text::{ascii_upper, is_whitespace, is_ws, slice_chars};

verus! {

/// The characters of Unicode's `Decimal_Number` category (Unicode 16).
pub open spec fn is_dec_digit(c: char) -> bool {
    let u = c as u32;
    (0x30 <= u && u <= 0x39) || (0x660 <= u && u <= 0x669) || (0x6F0 <= u && u <= 0x6F9)
        || (0x7C0 <= u && u <= 0x7C9) || (0x966 <= u && u <= 0x96F) || (0x9E6 <= u && u <= 0x9EF)
        || (0xA66 <= u && u <= 0xA6F) || (0xAE6 <= u && u <= 0xAEF) || (0xB66 <= u && u <= 0xB6F)
        || (0xBE6 <= u && u <= 0xBEF) || (0xC66 <= u && u <= 0xC6F) || (0xCE6 <= u && u <= 0xCEF)
        || (0xD66 <= u && u <= 0xD6F) || (0xDE6 <= u && u <= 0xDEF) || (0xE50 <= u && u <= 0xE59)
        || (0xED0 <= u && u <= 0xED9) || (0xF20 <= u && u <= 0xF29) || (0x1040 <= u && u <= 0x1049)
        || (0x1090 <= u && u <= 0x1099) || (0x17E0 <= u && u <= 0x17E9) || (0x1810 <= u && u <= 0x1819)
        || (0x1946 <= u && u <= 0x194F) || (0x19D0 <= u && u <= 0x19D9) || (0x1A80 <= u && u <= 0x1A89)
        || (0x1A90 <= u && u <= 0x1A99) || (0x1B50 <= u && u <= 0x1B59) || (0x1BB0 <= u && u <= 0x1BB9)
        || (0x1C40 <= u && u <= 0x1C49) || (0x1C50 <= u && u <= 0x1C59) || (0xA620 <= u && u <= 0xA629)
        || (0xA8D0 <= u && u <= 0xA8D9) || (0xA900 <= u && u <= 0xA909) || (0xA9D0 <= u && u <= 0xA9D9)
        || (0xA9F0 <= u && u <= 0xA9F9) || (0xAA50 <= u && u <= 0xAA59) || (0xABF0 <= u && u <= 0xABF9)
        || (0xFF10 <= u && u <= 0xFF19) || (0x104A0 <= u && u <= 0x104A9) || (0x10D30 <= u && u <= 0x10D39)
        || (0x10D40 <= u && u <= 0x10D49) || (0x11066 <= u && u <= 0x1106F) || (0x110F0 <= u && u <= 0x110F9)
        || (0x11136 <= u && u <= 0x1113F) || (0x111D0 <= u && u <= 0x111D9) || (0x112F0 <= u && u <= 0x112F9)
        || (0x11450 <= u && u <= 0x11459) || (0x114D0 <= u && u <= 0x114D9) || (0x11650 <= u && u <= 0x11659)
        || (0x116C0 <= u && u <= 0x116C9) || (0x116D0 <= u && u <= 0x116E3) || (0x11730 <= u && u <= 0x11739)
        || (0x118E0 <= u && u <= 0x118E9) || (0x11950 <= u && u <= 0x11959) || (0x11BF0 <= u && u <= 0x11BF9)
        || (0x11C50 <= u && u <= 0x11C59) || (0x11D50 <= u && u <= 0x11D59) || (0x11DA0 <= u && u <= 0x11DA9)
        || (0x11F50 <= u && u <= 0x11F59) || (0x16130 <= u && u <= 0x16139) || (0x16A60 <= u && u <= 0x16A69)
        || (0x16AC0 <= u && u <= 0x16AC9) || (0x16B50 <= u && u <= 0x16B59) || (0x16D70 <= u && u <= 0x16D79)
        || (0x1CCF0 <= u && u <= 0x1CCF9) || (0x1D7CE <= u && u <= 0x1D7FF) || (0x1E140 <= u && u <= 0x1E149)
        || (0x1E2F0 <= u && u <= 0x1E2F9) || (0x1E4F0 <= u && u <= 0x1E4F9) || (0x1E5F1 <= u && u <= 0x1E5FA)
        || (0x1E950 <= u && u <= 0x1E959) || (0x1FBF0 <= u && u <= 0x1FBF9)
}

/// Whether a character is a Unicode decimal digit (general category Nd).
pub fn is_decimal_digit(c: char) -> (r: bool)
    ensures
        r == is_dec_digit(c),
{
    let u = c as u32;
    (0x30 <= u && u <= 0x39) || (0x660 <= u && u <= 0x669) || (0x6F0 <= u && u <= 0x6F9)
        || (0x7C0 <= u && u <= 0x7C9) || (0x966 <= u && u <= 0x96F) || (0x9E6 <= u && u <= 0x9EF)
        || (0xA66 <= u && u <= 0xA6F) || (0xAE6 <= u && u <= 0xAEF) || (0xB66 <= u && u <= 0xB6F)
        || (0xBE6 <= u && u <= 0xBEF) || (0xC66 <= u && u <= 0xC6F) || (0xCE6 <= u && u <= 0xCEF)
        || (0xD66 <= u && u <= 0xD6F) || (0xDE6 <= u && u <= 0xDEF) || (0xE50 <= u && u <= 0xE59)
        || (0xED0 <= u && u <= 0xED9) || (0xF20 <= u && u <= 0xF29) || (0x1040 <= u && u <= 0x1049)
        || (0x1090 <= u && u <= 0x1099) || (0x17E0 <= u && u <= 0x17E9) || (0x1810 <= u && u <= 0x1819)
        || (0x1946 <= u && u <= 0x194F) || (0x19D0 <= u && u <= 0x19D9) || (0x1A80 <= u && u <= 0x1A89)
        || (0x1A90 <= u && u <= 0x1A99) || (0x1B50 <= u && u <= 0x1B59) || (0x1BB0 <= u && u <= 0x1BB9)
        || (0x1C40 <= u && u <= 0x1C49) || (0x1C50 <= u && u <= 0x1C59) || (0xA620 <= u && u <= 0xA629)
        || (0xA8D0 <= u && u <= 0xA8D9) || (0xA900 <= u && u <= 0xA909) || (0xA9D0 <= u && u <= 0xA9D9)
        || (0xA9F0 <= u && u <= 0xA9F9) || (0xAA50 <= u && u <= 0xAA59) || (0xABF0 <= u && u <= 0xABF9)
        || (0xFF10 <= u && u <= 0xFF19) || (0x104A0 <= u && u <= 0x104A9) || (0x10D30 <= u && u <= 0x10D39)
        || (0x10D40 <= u && u <= 0x10D49) || (0x11066 <= u && u <= 0x1106F) || (0x110F0 <= u && u <= 0x110F9)
        || (0x11136 <= u && u <= 0x1113F) || (0x111D0 <= u && u <= 0x111D9) || (0x112F0 <= u && u <= 0x112F9)
        || (0x11450 <= u && u <= 0x11459) || (0x114D0 <= u && u <= 0x114D9) || (0x11650 <= u && u <= 0x11659)
        || (0x116C0 <= u && u <= 0x116C9) || (0x116D0 <= u && u <= 0x116E3) || (0x11730 <= u && u <= 0x11739)
        || (0x118E0 <= u && u <= 0x118E9) || (0x11950 <= u && u <= 0x11959) || (0x11BF0 <= u && u <= 0x11BF9)
        || (0x11C50 <= u && u <= 0x11C59) || (0x11D50 <= u && u <= 0x11D59) || (0x11DA0 <= u && u <= 0x11DA9)
        || (0x11F50 <= u && u <= 0x11F59) || (0x16130 <= u && u <= 0x16139) || (0x16A60 <= u && u <= 0x16A69)
        || (0x16AC0 <= u && u <= 0x16AC9) || (0x16B50 <= u && u <= 0x16B59) || (0x16D70 <= u && u <= 0x16D79)
        || (0x1CCF0 <= u && u <= 0x1CCF9) || (0x1D7CE <= u && u <= 0x1D7FF) || (0x1E140 <= u && u <= 0x1E149)
        || (0x1E2F0 <= u && u <= 0x1E2F9) || (0x1E4F0 <= u && u <= 0x1E4F9) || (0x1E5F1 <= u && u <= 0x1E5FA)
        || (0x1E950 <= u && u <= 0x1E959) || (0x1FBF0 <= u && u <= 0x1FBF9)
}

/// The number of digits from `i` on.
pub open spec fn digit_run(s: Seq<char>, i: int) -> nat
    decreases s.len() - i,
{
    if 0 <= i < s.len() && is_dec_digit(s[i]) {
        1 + digit_run(s, i + 1)
    } else {
        0
    }
}

/// The number of whitespace characters from `i` on.
pub open spec fn ws_run(s: Seq<char>, i: int) -> nat
    decreases s.len() - i,
{
    if 0 <= i < s.len() && is_ws(s[i]) {
        1 + ws_run(s, i + 1)
    } else {
        0
    }
}

/// Where the number that starts at `i` ends: the digits from `i`, and a
/// point with more digits where one follows.
pub open spec fn number_end(s: Seq<char>, i: int) -> Option<int> {
    let d = digit_run(s, i);
    if d == 0 {
        None
    } else {
        let e = i + d;
        if 0 <= e < s.len() && s[e] == '.' && digit_run(s, e + 1) > 0 {
            Some(e + 1 + digit_run(s, e + 1))
        } else {
            Some(e)
        }
    }
}

/// Whether `c` is the keyword letter `k` in either case (with `ſ` as an `s`).
pub open spec fn letter_matches(c: char, k: char) -> bool {
    c == k || c == ascii_upper(k) || (k == 's' && c == 'ſ') || (k == 'í' && c == 'Í') || (k
        == 'ó' && c == 'Ó')
}

/// The keywords in the order they are tried: each a sequence of letter
/// pairs (a letter, or either of two), and whether it must not be followed
/// by a digit.
pub open spec fn keyword_patterns() -> Seq<(Seq<(char, char)>, bool)> {
    seq![
        (seq![('c', 'c'), ('h', 'h'), ('a', 'a'), ('p', 'p'), ('t', 't'), ('e', 'e'), ('r', 'r')], false),
        (seq![('c', 'c'), ('a', 'a'), ('p', 'p'), ('i', 'í'), ('t', 't'), ('u', 'u'), ('l', 'l'), ('o', 'o')], false),
        (seq![('c', 'c'), ('h', 'h')], true),
        (seq![('c', 'c'), ('h', 'h'), ('.', '.')], false),
        (seq![('c', 'c'), ('a', 'a'), ('p', 'p')], true),
        (seq![('c', 'c'), ('a', 'a'), ('p', 'p'), ('.', '.')], false),
        (seq![('e', 'e'), ('p', 'p')], true),
        (seq![('e', 'e'), ('p', 'p'), ('.', '.')], false),
        (seq![('e', 'e'), ('p', 'p'), ('i', 'i'), ('s', 's'), ('o', 'o'), ('d', 'd'), ('e', 'e')], false),
        (seq![('e', 'e'), ('p', 'p'), ('i', 'i'), ('s', 's'), ('o', 'ó'), ('d', 'd'), ('i', 'i'), ('o', 'o')], false),
        (seq![('#', '#')], false),
    ]
}

/// Whether the keyword pattern `pat` occurs at `p`.
pub open spec fn keyword_at(s: Seq<char>, p: int, pat: Seq<(char, char)>) -> bool {
    0 <= p && p + pat.len() <= s.len() && forall|j: int|
        0 <= j < pat.len() ==> letter_matches(#[trigger] s[p + j], pat[j].0) || letter_matches(
            s[p + j],
            pat[j].1,
        )
}

/// The number after a keyword that ends at `q`: spaces, an optional `:` or
/// `.`, spaces, then the number (its start and end).
pub open spec fn number_after(s: Seq<char>, q: int) -> Option<(int, int)> {
    let q1 = q + ws_run(s, q);
    let q2 = if 0 <= q1 < s.len() && (s[q1] == ':' || s[q1] == '.') {
        q1 + 1 + ws_run(s, q1 + 1)
    } else {
        q1
    };
    match number_end(s, q2) {
        Some(e) => Some((q2, e)),
        None => None,
    }
}

/// The number that keyword pattern `k` finds at `p`. A keyword that must
/// end at a word boundary is one whose next character is no digit: what may
/// follow it (a space, `:`, `.` or a digit) is a word character only where
/// it is a digit.
pub open spec fn keyword_number(s: Seq<char>, p: int, k: int) -> Option<(int, int)> {
    let pat = keyword_patterns()[k].0;
    let q = p + pat.len();
    if keyword_at(s, p, pat) && !(keyword_patterns()[k].1 && 0 <= q < s.len() && is_dec_digit(
        s[q],
    )) {
        number_after(s, q)
    } else {
        None
    }
}

/// The number found at `p` by the first keyword pattern, from the `k`-th
/// on, that finds one.
pub open spec fn first_keyword_number(s: Seq<char>, p: int, k: int) -> Option<(int, int)>
    decreases keyword_patterns().len() - k,
{
    if k < 0 || k >= keyword_patterns().len() {
        None
    } else {
        match keyword_number(s, p, k) {
            Some(x) => Some(x),
            None => first_keyword_number(s, p, k + 1),
        }
    }
}

/// Whether a number's text reads as a value: its digits are ASCII.
pub open spec fn reads_as_value(t: Seq<char>) -> bool {
    forall|i: int| 0 <= i < t.len() ==> ('0' <= #[trigger] t[i] && t[i] <= '9') || t[i] == '.'
}

/// The last readable number after a keyword, searching from `from` on;
/// `acc` is the one found before `from`.
pub open spec fn scan_keywords(s: Seq<char>, from: int, acc: Option<Seq<char>>) -> Option<
    Seq<char>,
>
    decreases s.len() - from,
{
    if from < 0 || from >= s.len() {
        acc
    } else {
        match first_keyword_number(s, from, 0) {
            Some((a, e)) => if from < e <= s.len() {
                let t = s.subrange(a, e);
                scan_keywords(s, e, if reads_as_value(t) { Some(t) } else { acc })
            } else {
                acc
            },
            None => scan_keywords(s, from + 1, acc),
        }
    }
}

/// The readable number at the start of `s` (after spaces) followed by the
/// end, a space, a `-` or a `:`.
pub open spec fn leading_number(s: Seq<char>) -> Option<Seq<char>> {
    let p = ws_run(s, 0) as int;
    match number_end(s, p) {
        Some(e) => {
            let t = s.subrange(p, e);
            if (e == s.len() || is_ws(s[e]) || s[e] == '-' || s[e] == ':') && reads_as_value(t) {
                Some(t)
            } else {
                None
            }
        },
        None => None,
    }
}

/// A number standing alone that a match at `p` finds: at the start of `s`
/// or after a space, and followed by a space or the end. Gives the number's
/// start and end, and where the match ends (after the space that follows).
pub open spec fn standalone_at(s: Seq<char>, p: int) -> Option<(int, int, int)> {
    let first = if p == 0 {
        match number_end(s, 0) {
            Some(e) => if e == s.len() {
                Some((0int, e, e))
            } else if is_ws(s[e]) {
                Some((0int, e, e + 1))
            } else {
                None
            },
            None => None,
        }
    } else {
        None
    };
    match first {
        Some(x) => Some(x),
        None => if 0 <= p < s.len() && is_ws(s[p]) {
            match number_end(s, p + 1) {
                Some(e) => if e == s.len() {
                    Some((p + 1, e, e))
                } else if is_ws(s[e]) {
                    Some((p + 1, e, e + 1))
                } else {
                    None
                },
                None => None,
            }
        } else {
            None
        },
    }
}

/// The last readable number standing alone, searching from `from` on;
/// `acc` is the one found before `from`.
pub open spec fn scan_standalone(s: Seq<char>, from: int, acc: Option<Seq<char>>) -> Option<
    Seq<char>,
>
    decreases s.len() - from,
{
    if from < 0 || from >= s.len() {
        acc
    } else {
        match standalone_at(s, from) {
            Some((a, e, m)) => if from < m <= s.len() {
                let t = s.subrange(a, e);
                scan_standalone(s, m, if reads_as_value(t) { Some(t) } else { acc })
            } else {
                acc
            },
            None => scan_standalone(s, from + 1, acc),
        }
    }
}

/// The chapter number written in the (cleaned) title `s`: the first pass
/// that finds one decides.
pub open spec fn number_in(s: Seq<char>) -> Option<Seq<char>> {
    match scan_keywords(s, 0, None) {
        Some(t) => Some(t),
        None => match leading_number(s) {
            Some(t) => Some(t),
            None => scan_standalone(s, 0, None),
        },
    }
}

// ---------------------------------------------------------------------------
// Executable scanners
// ---------------------------------------------------------------------------

fn digit_run_exec(v: &Vec<char>, i: usize) -> (r: usize)
    requires
        i <= v@.len(),
    ensures
        r == digit_run(v@, i as int),
        i + r <= v@.len(),
{
    let mut j = i;
    while j < v.len() && is_decimal_digit(v[j])
        invariant
            i <= j <= v@.len(),
            digit_run(v@, i as int) == (j - i) + digit_run(v@, j as int),
        decreases v@.len() - j,
    {
        j = j + 1;
    }
    j - i
}

fn ws_run_exec(v: &Vec<char>, i: usize) -> (r: usize)
    requires
        i <= v@.len(),
    ensures
        r == ws_run(v@, i as int),
        i + r <= v@.len(),
{
    let mut j = i;
    while j < v.len() && is_whitespace(v[j])
        invariant
            i <= j <= v@.len(),
            ws_run(v@, i as int) == (j - i) + ws_run(v@, j as int),
        decreases v@.len() - j,
    {
        j = j + 1;
    }
    j - i
}

fn number_end_exec(v: &Vec<char>, i: usize) -> (r: Option<usize>)
    requires
        i <= v@.len(),
    ensures
        match r {
            Some(e) => number_end(v@, i as int) == Some(e as int) && i < e <= v@.len(),
            None => number_end(v@, i as int) is None,
        },
{
    let d = digit_run_exec(v, i);
    assert(v@.len() == v.len());
    if d == 0 {
        return None;
    }
    let e = i + d;
    if e < v.len() && v[e] == '.' {
        let f = digit_run_exec(v, e + 1);
        if f > 0 {
            return Some(e + 1 + f);
        }
    }
    Some(e)
}

fn keyword_pattern(k: usize) -> (r: (Vec<(char, char)>, bool))
    requires
        k < keyword_patterns().len(),
    ensures
        (r.0@, r.1) == keyword_patterns()[k as int],
{
    let r = match k {
        0 => (vec![('c', 'c'), ('h', 'h'), ('a', 'a'), ('p', 'p'), ('t', 't'), ('e', 'e'), ('r', 'r')], false),
        1 => (vec![('c', 'c'), ('a', 'a'), ('p', 'p'), ('i', 'í'), ('t', 't'), ('u', 'u'), ('l', 'l'), ('o', 'o')], false),
        2 => (vec![('c', 'c'), ('h', 'h')], true),
        3 => (vec![('c', 'c'), ('h', 'h'), ('.', '.')], false),
        4 => (vec![('c', 'c'), ('a', 'a'), ('p', 'p')], true),
        5 => (vec![('c', 'c'), ('a', 'a'), ('p', 'p'), ('.', '.')], false),
        6 => (vec![('e', 'e'), ('p', 'p')], true),
        7 => (vec![('e', 'e'), ('p', 'p'), ('.', '.')], false),
        8 => (vec![('e', 'e'), ('p', 'p'), ('i', 'i'), ('s', 's'), ('o', 'o'), ('d', 'd'), ('e', 'e')], false),
        9 => (vec![('e', 'e'), ('p', 'p'), ('i', 'i'), ('s', 's'), ('o', 'ó'), ('d', 'd'), ('i', 'i'), ('o', 'o')], false),
        _ => (vec![('#', '#')], false),
    };
    assert((r.0@, r.1) =~= keyword_patterns()[k as int]);
    r
}

fn letter_ok(c: char, k: char) -> (r: bool)
    ensures
        r == letter_matches(c, k),
{
    c == k || c == crate::text::to_ascii_upper(k) || (k == 's' && c == 'ſ') || (k == 'í' && c
        == 'Í') || (k == 'ó' && c == 'Ó')
}

fn keyword_at_exec(v: &Vec<char>, p: usize, pat: &Vec<(char, char)>) -> (r: bool)
    ensures
        r == keyword_at(v@, p as int, pat@),
{
    if pat.len() > v.len() || p > v.len() - pat.len() {
        return false;
    }
    let mut j: usize = 0;
    while j < pat.len()
        invariant
            j <= pat@.len(),
            p + pat@.len() <= v@.len(),
            v@.len() == v.len(),
            forall|m: int|
                0 <= m < j ==> letter_matches(#[trigger] v@[p + m], pat@[m].0) || letter_matches(
                    v@[p + m],
                    pat@[m].1,
                ),
        decreases pat@.len() - j,
    {
        let (a, b) = pat[j];
        if !(letter_ok(v[p + j], a) || letter_ok(v[p + j], b)) {
            return false;
        }
        j = j + 1;
    }
    true
}

fn number_after_exec(v: &Vec<char>, q: usize) -> (r: Option<(usize, usize)>)
    requires
        q <= v@.len(),
    ensures
        match r {
            Some((a, e)) => number_after(v@, q as int) == Some((a as int, e as int)) && q <= a < e
                <= v@.len(),
            None => number_after(v@, q as int) is None,
        },
{
    assert(v@.len() == v.len());
    let q1 = q + ws_run_exec(v, q);
    let q2 = if q1 < v.len() && (v[q1] == ':' || v[q1] == '.') {
        q1 + 1 + ws_run_exec(v, q1 + 1)
    } else {
        q1
    };
    match number_end_exec(v, q2) {
        Some(e) => Some((q2, e)),
        None => None,
    }
}

fn first_keyword_number_exec(v: &Vec<char>, p: usize) -> (r: Option<(usize, usize)>)
    requires
        p < v@.len(),
    ensures
        match r {
            Some((a, e)) => first_keyword_number(v@, p as int, 0) == Some((a as int, e as int))
                && p < a < e <= v@.len(),
            None => first_keyword_number(v@, p as int, 0) is None,
        },
{
    let mut k: usize = 0;
    while k < 11
        invariant
            k <= 11,
            keyword_patterns().len() == 11,
            v@.len() == v.len(),
            p < v@.len(),
            first_keyword_number(v@, p as int, 0) == first_keyword_number(v@, p as int, k as int),
        decreases 11 - k,
    {
        let (pat, boundary) = keyword_pattern(k);
        if keyword_at_exec(v, p, &pat) {
            let q = p + pat.len();
            if !(boundary && q < v.len() && is_decimal_digit(v[q])) {
                match number_after_exec(v, q) {
                    Some((a, e)) => {
                        proof {
                            assert(pat@.len() > 0);
                        }
                        return Some((a, e));
                    },
                    None => {},
                }
            }
        }
        k = k + 1;
    }
    None
}

fn reads_as_value_exec(v: &Vec<char>, a: usize, e: usize) -> (r: bool)
    requires
        a <= e <= v@.len(),
    ensures
        r == reads_as_value(v@.subrange(a as int, e as int)),
{
    let mut i = a;
    while i < e
        invariant
            a <= i <= e,
            e <= v@.len(),
            forall|m: int| a <= m < i ==> ('0' <= #[trigger] v@[m] && v@[m] <= '9') || v@[m] == '.',
        decreases e - i,
    {
        if !(('0' <= v[i] && v[i] <= '9') || v[i] == '.') {
            proof {
                assert(v@.subrange(a as int, e as int)[i - a] == v@[i as int]);
            }
            return false;
        }
        i = i + 1;
    }
    proof {
        let t = v@.subrange(a as int, e as int);
        assert forall|m: int| 0 <= m < t.len() implies ('0' <= #[trigger] t[m] && t[m] <= '9')
            || t[m] == '.' by {
            assert(t[m] == v@[a + m]);
        }
    }
    true
}

fn scan_keywords_exec(v: &Vec<char>) -> (r: Option<Vec<char>>)
    ensures
        match r {
            Some(t) => scan_keywords(v@, 0, None) == Some(t@),
            None => scan_keywords(v@, 0, None) is None,
        },
{
    let mut from: usize = 0;
    let mut found: Option<(usize, usize)> = None;
    let ghost mut acc: Option<Seq<char>> = None;
    while from < v.len()
        invariant
            from <= v@.len(),
            scan_keywords(v@, 0, None) == scan_keywords(v@, from as int, acc),
            match found {
                Some((a, e)) => a <= e <= v@.len() && acc == Some(v@.subrange(a as int, e as int)),
                None => acc is None,
            },
        decreases v@.len() - from,
    {
        match first_keyword_number_exec(v, from) {
            Some((a, e)) => {
                if reads_as_value_exec(v, a, e) {
                    found = Some((a, e));
                    proof {
                        acc = Some(v@.subrange(a as int, e as int));
                    }
                }
                from = e;
            },
            None => {
                from = from + 1;
            },
        }
    }
    match found {
        Some((a, e)) => Some(slice_chars(v, a, e)),
        None => None,
    }
}

fn leading_number_exec(v: &Vec<char>) -> (r: Option<Vec<char>>)
    ensures
        match r {
            Some(t) => leading_number(v@) == Some(t@),
            None => leading_number(v@) is None,
        },
{
    let p = ws_run_exec(v, 0);
    match number_end_exec(v, p) {
        Some(e) => {
            if (e == v.len() || is_whitespace(v[e]) || v[e] == '-' || v[e] == ':')
                && reads_as_value_exec(v, p, e) {
                Some(slice_chars(v, p, e))
            } else {
                None
            }
        },
        None => None,
    }
}

fn standalone_at_exec(v: &Vec<char>, p: usize) -> (r: Option<(usize, usize, usize)>)
    requires
        p < v@.len(),
    ensures
        match r {
            Some((a, e, m)) => standalone_at(v@, p as int) == Some((a as int, e as int, m as int))
                && a <= e <= m <= v@.len() && p < m,
            None => standalone_at(v@, p as int) is None,
        },
{
    assert(v@.len() == v.len());
    if p == 0 {
        match number_end_exec(v, 0) {
            Some(e) => {
                if e == v.len() {
                    return Some((0, e, e));
                } else if is_whitespace(v[e]) {
                    return Some((0, e, e + 1));
                }
            },
            None => {},
        }
    }
    if is_whitespace(v[p]) && p + 1 <= v.len() {
        match number_end_exec(v, p + 1) {
            Some(e) => {
                if e == v.len() {
                    Some((p + 1, e, e))
                } else if is_whitespace(v[e]) {
                    Some((p + 1, e, e + 1))
                } else {
                    None
                }
            },
            None => None,
        }
    } else {
        None
    }
}

fn scan_standalone_exec(v: &Vec<char>) -> (r: Option<Vec<char>>)
    ensures
        match r {
            Some(t) => scan_standalone(v@, 0, None) == Some(t@),
            None => scan_standalone(v@, 0, None) is None,
        },
{
    let mut from: usize = 0;
    let mut found: Option<(usize, usize)> = None;
    let ghost mut acc: Option<Seq<char>> = None;
    while from < v.len()
        invariant
            from <= v@.len(),
            scan_standalone(v@, 0, None) == scan_standalone(v@, from as int, acc),
            match found {
                Some((a, e)) => a <= e <= v@.len() && acc == Some(v@.subrange(a as int, e as int)),
                None => acc is None,
            },
        decreases v@.len() - from,
    {
        match standalone_at_exec(v, from) {
            Some((a, e, m)) => {
                if reads_as_value_exec(v, a, e) {
                    found = Some((a, e));
                    proof {
                        acc = Some(v@.subrange(a as int, e as int));
                    }
                }
                from = m;
            },
            None => {
                from = from + 1;
            },
        }
    }
    match found {
        Some((a, e)) => Some(slice_chars(v, a, e)),
        None => None,
    }
}

/// The chapter number written in the (cleaned) title `v`.
pub fn number_in_chars(v: &Vec<char>) -> (r: Option<Vec<char>>)
    ensures
        match r {
            Some(t) => number_in(v@) == Some(t@),
            None => number_in(v@) is None,
        },
{
    match scan_keywords_exec(v) {
        Some(t) => Some(t),
        None => match leading_number_exec(v) {
            Some(t) => Some(t),
            None => scan_standalone_exec(v),
        },
    }
}

} // verus!

verus! {

// ---------------------------------------------------------------------------
// Laws: a keyword, then a number
// ---------------------------------------------------------------------------

/// No keyword pass finds a number where no digit follows `p`.
proof fn lemma_no_digit_no_keyword_number(s: Seq<char>, p: int, k: int)
    requires
        0 <= p,
        forall|i: int| p <= i < s.len() ==> !is_dec_digit(#[trigger] s[i]),
    ensures
        first_keyword_number(s, p, k) is None,
    decreases keyword_patterns().len() - k,
{
    if 0 <= k < keyword_patterns().len() {
        let pat = keyword_patterns()[k].0;
        let q = p + pat.len();
        let q1 = q + ws_run(s, q);
        let q2 = if 0 <= q1 < s.len() && (s[q1] == ':' || s[q1] == '.') {
            q1 + 1 + ws_run(s, q1 + 1)
        } else {
            q1
        };
        assert(q2 >= p);
        assert(digit_run(s, q2) == 0);
        lemma_no_digit_no_keyword_number(s, p, k + 1);
    }
}

/// A keyword scan over text without digits keeps what it found before.
proof fn lemma_scan_keywords_no_digits(s: Seq<char>, from: int, acc: Option<Seq<char>>)
    requires
        0 <= from,
        forall|i: int| from <= i < s.len() ==> !is_dec_digit(#[trigger] s[i]),
    ensures
        scan_keywords(s, from, acc) == acc,
    decreases s.len() - from,
{
    if from < s.len() {
        lemma_no_digit_no_keyword_number(s, from, 0);
        lemma_scan_keywords_no_digits(s, from + 1, acc);
    }
}

/// A keyword pattern whose `j`-th letter the title does not have at `j`
/// finds nothing at the start.
proof fn lemma_kn_mismatch(s: Seq<char>, k: int, j: int)
    requires
        0 <= k < keyword_patterns().len(),
        0 <= j < keyword_patterns()[k].0.len(),
        j < s.len(),
        !letter_matches(s[j], keyword_patterns()[k].0[j].0),
        !letter_matches(s[j], keyword_patterns()[k].0[j].1),
    ensures
        keyword_number(s, 0, k) is None,
{
    assert(s[0 + j] == s[j]);
}

/// A keyword followed by a letter (no space, `:`, `.` or digit) finds no
/// number.
proof fn lemma_kn_no_number(s: Seq<char>, k: int)
    requires
        0 <= k < keyword_patterns().len(),
        keyword_patterns()[k].0.len() < s.len(),
        !is_ws(s[keyword_patterns()[k].0.len() as int]),
        s[keyword_patterns()[k].0.len() as int] != ':',
        s[keyword_patterns()[k].0.len() as int] != '.',
        !is_dec_digit(s[keyword_patterns()[k].0.len() as int]),
    ensures
        keyword_number(s, 0, k) is None,
{
    let q = keyword_patterns()[k].0.len() as int;
    assert(ws_run(s, q) == 0);
    assert(digit_run(s, q) == 0);
}

/// Whether `n` digits stand in `s` from `a` on.
pub open spec fn digits_at(s: Seq<char>, a: int, n: int) -> bool {
    0 <= a && a + n <= s.len() && forall|i: int| a <= i < a + n ==> '0' <= #[trigger] s[i] <= '9'
}

/// `n` digits followed by a character that is no digit make a run of `n`.
proof fn lemma_digit_block(s: Seq<char>, a: int, n: int)
    requires
        n >= 0,
        digits_at(s, a, n),
        a + n < s.len(),
        !is_dec_digit(s[a + n]),
    ensures
        digit_run(s, a) == n,
    decreases n,
{
    if n > 0 {
        lemma_digit_block(s, a + 1, n - 1);
        assert('0' <= s[a] <= '9');
    }
}

/// A keyword at the start followed by a space, `n` digits and `:` finds
/// those digits.
proof fn lemma_kn_hit_space(s: Seq<char>, k: int, n: int)
    requires
        0 <= k < keyword_patterns().len(),
        n >= 1,
        keyword_at(s, 0, keyword_patterns()[k].0),
        s.len() >= keyword_patterns()[k].0.len() + n + 2,
        s[keyword_patterns()[k].0.len() as int] == ' ',
        digits_at(s, keyword_patterns()[k].0.len() + 1 as int, n),
        s[keyword_patterns()[k].0.len() + 1 + n] == ':',
    ensures
        keyword_number(s, 0, k) == Some(
            ((keyword_patterns()[k].0.len() + 1) as int, keyword_patterns()[k].0.len() + 1 + n),
        ),
{
    let q = keyword_patterns()[k].0.len() as int;
    lemma_number_after_space_digits(s, q, n);
}

/// A keyword at the start followed by `.`, a space, `n` digits and `:`
/// finds those digits.
proof fn lemma_kn_hit_dot(s: Seq<char>, k: int, n: int)
    requires
        0 <= k < keyword_patterns().len(),
        n >= 1,
        keyword_at(s, 0, keyword_patterns()[k].0),
        s.len() >= keyword_patterns()[k].0.len() + n + 3,
        s[keyword_patterns()[k].0.len() as int] == '.',
        s[keyword_patterns()[k].0.len() + 1 as int] == ' ',
        digits_at(s, keyword_patterns()[k].0.len() + 2 as int, n),
        s[keyword_patterns()[k].0.len() + 2 + n] == ':',
    ensures
        keyword_number(s, 0, k) == Some(
            ((keyword_patterns()[k].0.len() + 2) as int, keyword_patterns()[k].0.len() + 2 + n),
        ),
{
    let q = keyword_patterns()[k].0.len() as int;
    assert(ws_run(s, q) == 0);
    lemma_number_after_space_digits(s, q + 1, n);
    assert('0' <= s[q + 2] <= '9');
    assert(ws_run(s, q + 2) == 0);
    assert(ws_run(s, q + 1) == 1);
}

/// The first keyword pass finds what pattern `kk` finds where the patterns
/// from `k` up to it find nothing.
proof fn lemma_fkn_chain(s: Seq<char>, k: int, kk: int, x: (int, int))
    requires
        0 <= k <= kk < keyword_patterns().len(),
        forall|j: int| k <= j < kk ==> #[trigger] keyword_number(s, 0, j) is None,
        keyword_number(s, 0, kk) == Some(x),
    ensures
        first_keyword_number(s, 0, k) == Some(x),
    decreases kk - k,
{
    if k < kk {
        lemma_fkn_chain(s, k + 1, kk, x);
    }
}

/// Where the first keyword pass at the start finds the `n` digits right
/// after the keyword and a space, and no digit follows, the title's number
/// is those digits.
proof fn lemma_first_keyword_decides(s: Seq<char>, kw_len: int, n: int)
    requires
        kw_len >= 1,
        n >= 1,
        s.len() >= kw_len + n + 2,
        first_keyword_number(s, 0, 0) == Some((kw_len + 1, kw_len + 1 + n)),
        digits_at(s, kw_len + 1, n),
        forall|i: int| kw_len + 1 + n <= i < s.len() ==> !is_dec_digit(#[trigger] s[i]),
    ensures
        number_in(s) == Some(s.subrange(kw_len + 1, kw_len + 1 + n)),
{
    let t = s.subrange(kw_len + 1, kw_len + 1 + n);
    assert forall|i: int| 0 <= i < t.len() implies ('0' <= #[trigger] t[i] && t[i] <= '9')
        || t[i] == '.' by {
        assert(t[i] == s[kw_len + 1 + i]);
    }
    assert(reads_as_value(t));
    lemma_scan_keywords_no_digits(s, kw_len + 1 + n, Some(t));
}

/// After a keyword ending at `q`: a space, `n` digits and `:` give those
/// digits.
proof fn lemma_number_after_space_digits(s: Seq<char>, q: int, n: int)
    requires
        0 <= q,
        n >= 1,
        s.len() >= q + n + 2,
        s[q] == ' ',
        digits_at(s, q + 1, n),
        s[q + 1 + n] == ':',
    ensures
        number_after(s, q) == Some((q + 1, q + 1 + n)),
{
    assert('0' <= s[q + 1] <= '9');
    assert(ws_run(s, q + 1) == 0);
    assert(ws_run(s, q) == 1);
    lemma_digit_block(s, q + 1, n);
    assert(number_end(s, q + 1) == Some(q + 1 + n));
}

/// A title made of a keyword, a space, a number's digits, `:` and words
/// without digits.
pub open spec fn keyword_title(kw: Seq<char>, d: Seq<char>, rest: Seq<char>) -> Seq<char> {
    kw + seq![' '] + d + seq![':'] + rest
}

/// The shape of a keyword title: the keyword, then a space, the digits and
/// `:`, then no digit.
proof fn lemma_title_shape(kw: Seq<char>, d: Seq<char>, rest: Seq<char>)
    requires
        d.len() >= 1,
        forall|i: int| 0 <= i < d.len() ==> '0' <= #[trigger] d[i] <= '9',
        forall|i: int| 0 <= i < rest.len() ==> !is_dec_digit(#[trigger] rest[i]),
    ensures
        ({
            let s = keyword_title(kw, d, rest);
            let l = kw.len() as int;
            let n = d.len() as int;
            &&& s.len() == l + n + 2 + rest.len()
            &&& forall|i: int| 0 <= i < l ==> #[trigger] s[i] == kw[i]
            &&& s[l] == ' '
            &&& digits_at(s, l + 1, n)
            &&& s.subrange(l + 1, l + 1 + n) == d
            &&& s[l + 1 + n] == ':'
            &&& forall|i: int| l + 1 + n <= i < s.len() ==> !is_dec_digit(#[trigger] s[i])
        }),
{
    let s = keyword_title(kw, d, rest);
    let l = kw.len() as int;
    let n = d.len() as int;
    assert forall|i: int| l + 1 <= i < l + 1 + n implies '0' <= #[trigger] s[i] <= '9' by {
        assert(s[i] == d[i - l - 1]);
    }
    assert(s.subrange(l + 1, l + 1 + n) =~= d);
    assert forall|i: int| l + 1 + n <= i < s.len() implies !is_dec_digit(#[trigger] s[i]) by {
        if i > l + 1 + n {
            assert(s[i] == rest[i - l - 2 - n]);
        }
    }
}

proof fn lemma_keyword_chapter(kw: Seq<char>, d: Seq<char>, rest: Seq<char>)
    requires
        kw == "chapter"@ || kw == "Chapter"@,
        d.len() >= 1,
        forall|i: int| 0 <= i < d.len() ==> '0' <= #[trigger] d[i] <= '9',
        forall|i: int| 0 <= i < rest.len() ==> !is_dec_digit(#[trigger] rest[i]),
    ensures
        number_in(keyword_title(kw, d, rest)) == Some(d),
{
    let s = keyword_title(kw, d, rest);
    let l = kw.len() as int;
    let n = d.len() as int;
    reveal_strlit("chapter");
    reveal_strlit("Chapter");
    lemma_title_shape(kw, d, rest);
    lemma_kn_hit_space(s, 0, n);
    lemma_fkn_chain(s, 0, 0, (l + 1, l + 1 + n));
    lemma_first_keyword_decides(s, l, n);
}

proof fn lemma_keyword_capitulo(kw: Seq<char>, d: Seq<char>, rest: Seq<char>)
    requires
        kw == "capítulo"@ || kw == "Capítulo"@ || kw == "capitulo"@ || kw == "Capitulo"@,
        d.len() >= 1,
        forall|i: int| 0 <= i < d.len() ==> '0' <= #[trigger] d[i] <= '9',
        forall|i: int| 0 <= i < rest.len() ==> !is_dec_digit(#[trigger] rest[i]),
    ensures
        number_in(keyword_title(kw, d, rest)) == Some(d),
{
    let s = keyword_title(kw, d, rest);
    let l = kw.len() as int;
    let n = d.len() as int;
    reveal_strlit("capítulo");
    reveal_strlit("Capítulo");
    reveal_strlit("capitulo");
    reveal_strlit("Capitulo");
    lemma_title_shape(kw, d, rest);
    lemma_kn_mismatch(s, 0, 1);
    lemma_kn_hit_space(s, 1, n);
    lemma_fkn_chain(s, 0, 1, (l + 1, l + 1 + n));
    lemma_first_keyword_decides(s, l, n);
}

proof fn lemma_keyword_ch(kw: Seq<char>, d: Seq<char>, rest: Seq<char>)
    requires
        kw == "ch"@ || kw == "Ch"@,
        d.len() >= 1,
        forall|i: int| 0 <= i < d.len() ==> '0' <= #[trigger] d[i] <= '9',
        forall|i: int| 0 <= i < rest.len() ==> !is_dec_digit(#[trigger] rest[i]),
    ensures
        number_in(keyword_title(kw, d, rest)) == Some(d),
{
    let s = keyword_title(kw, d, rest);
    let l = kw.len() as int;
    let n = d.len() as int;
    reveal_strlit("ch");
    reveal_strlit("Ch");
    lemma_title_shape(kw, d, rest);
    lemma_kn_mismatch(s, 0, 2);
    lemma_kn_mismatch(s, 1, 1);
    lemma_kn_hit_space(s, 2, n);
    lemma_fkn_chain(s, 0, 2, (l + 1, l + 1 + n));
    lemma_first_keyword_decides(s, l, n);
}

proof fn lemma_keyword_ch_dot(kw: Seq<char>, d: Seq<char>, rest: Seq<char>)
    requires
        kw == "ch."@ || kw == "Ch."@,
        d.len() >= 1,
        forall|i: int| 0 <= i < d.len() ==> '0' <= #[trigger] d[i] <= '9',
        forall|i: int| 0 <= i < rest.len() ==> !is_dec_digit(#[trigger] rest[i]),
    ensures
        number_in(keyword_title(kw, d, rest)) == Some(d),
{
    let s = keyword_title(kw, d, rest);
    let l = kw.len() as int;
    let n = d.len() as int;
    reveal_strlit("ch.");
    reveal_strlit("Ch.");
    lemma_title_shape(kw, d, rest);
    lemma_kn_mismatch(s, 0, 2);
    lemma_kn_mismatch(s, 1, 1);
    lemma_kn_hit_dot(s, 2, n);
    lemma_fkn_chain(s, 0, 2, (l + 1, l + 1 + n));
    lemma_first_keyword_decides(s, l, n);
}

proof fn lemma_keyword_cap(kw: Seq<char>, d: Seq<char>, rest: Seq<char>)
    requires
        kw == "cap"@ || kw == "Cap"@,
        d.len() >= 1,
        forall|i: int| 0 <= i < d.len() ==> '0' <= #[trigger] d[i] <= '9',
        forall|i: int| 0 <= i < rest.len() ==> !is_dec_digit(#[trigger] rest[i]),
    ensures
        number_in(keyword_title(kw, d, rest)) == Some(d),
{
    let s = keyword_title(kw, d, rest);
    let l = kw.len() as int;
    let n = d.len() as int;
    reveal_strlit("cap");
    reveal_strlit("Cap");
    lemma_title_shape(kw, d, rest);
    lemma_kn_mismatch(s, 0, 1);
    lemma_kn_mismatch(s, 1, 3);
    lemma_kn_mismatch(s, 2, 1);
    lemma_kn_mismatch(s, 3, 1);
    lemma_kn_hit_space(s, 4, n);
    lemma_fkn_chain(s, 0, 4, (l + 1, l + 1 + n));
    lemma_first_keyword_decides(s, l, n);
}

proof fn lemma_keyword_cap_dot(kw: Seq<char>, d: Seq<char>, rest: Seq<char>)
    requires
        kw == "cap."@ || kw == "Cap."@,
        d.len() >= 1,
        forall|i: int| 0 <= i < d.len() ==> '0' <= #[trigger] d[i] <= '9',
        forall|i: int| 0 <= i < rest.len() ==> !is_dec_digit(#[trigger] rest[i]),
    ensures
        number_in(keyword_title(kw, d, rest)) == Some(d),
{
    let s = keyword_title(kw, d, rest);
    let l = kw.len() as int;
    let n = d.len() as int;
    reveal_strlit("cap.");
    reveal_strlit("Cap.");
    lemma_title_shape(kw, d, rest);
    lemma_kn_mismatch(s, 0, 1);
    lemma_kn_mismatch(s, 1, 3);
    lemma_kn_mismatch(s, 2, 1);
    lemma_kn_mismatch(s, 3, 1);
    lemma_kn_hit_dot(s, 4, n);
    lemma_fkn_chain(s, 0, 4, (l + 1, l + 1 + n));
    lemma_first_keyword_decides(s, l, n);
}

proof fn lemma_keyword_ep(kw: Seq<char>, d: Seq<char>, rest: Seq<char>)
    requires
        kw == "ep"@ || kw == "Ep"@,
        d.len() >= 1,
        forall|i: int| 0 <= i < d.len() ==> '0' <= #[trigger] d[i] <= '9',
        forall|i: int| 0 <= i < rest.len() ==> !is_dec_digit(#[trigger] rest[i]),
    ensures
        number_in(keyword_title(kw, d, rest)) == Some(d),
{
    let s = keyword_title(kw, d, rest);
    let l = kw.len() as int;
    let n = d.len() as int;
    reveal_strlit("ep");
    reveal_strlit("Ep");
    lemma_title_shape(kw, d, rest);
    lemma_kn_mismatch(s, 0, 0);
    lemma_kn_mismatch(s, 1, 0);
    lemma_kn_mismatch(s, 2, 0);
    lemma_kn_mismatch(s, 3, 0);
    lemma_kn_mismatch(s, 4, 0);
    lemma_kn_mismatch(s, 5, 0);
    lemma_kn_hit_space(s, 6, n);
    lemma_fkn_chain(s, 0, 6, (l + 1, l + 1 + n));
    lemma_first_keyword_decides(s, l, n);
}

proof fn lemma_keyword_ep_dot(kw: Seq<char>, d: Seq<char>, rest: Seq<char>)
    requires
        kw == "ep."@ || kw == "Ep."@,
        d.len() >= 1,
        forall|i: int| 0 <= i < d.len() ==> '0' <= #[trigger] d[i] <= '9',
        forall|i: int| 0 <= i < rest.len() ==> !is_dec_digit(#[trigger] rest[i]),
    ensures
        number_in(keyword_title(kw, d, rest)) == Some(d),
{
    let s = keyword_title(kw, d, rest);
    let l = kw.len() as int;
    let n = d.len() as int;
    reveal_strlit("ep.");
    reveal_strlit("Ep.");
    lemma_title_shape(kw, d, rest);
    lemma_kn_mismatch(s, 0, 0);
    lemma_kn_mismatch(s, 1, 0);
    lemma_kn_mismatch(s, 2, 0);
    lemma_kn_mismatch(s, 3, 0);
    lemma_kn_mismatch(s, 4, 0);
    lemma_kn_mismatch(s, 5, 0);
    lemma_kn_hit_dot(s, 6, n);
    lemma_fkn_chain(s, 0, 6, (l + 1, l + 1 + n));
    lemma_first_keyword_decides(s, l, n);
}

proof fn lemma_keyword_episode(kw: Seq<char>, d: Seq<char>, rest: Seq<char>)
    requires
        kw == "episode"@ || kw == "Episode"@,
        d.len() >= 1,
        forall|i: int| 0 <= i < d.len() ==> '0' <= #[trigger] d[i] <= '9',
        forall|i: int| 0 <= i < rest.len() ==> !is_dec_digit(#[trigger] rest[i]),
    ensures
        number_in(keyword_title(kw, d, rest)) == Some(d),
{
    let s = keyword_title(kw, d, rest);
    let l = kw.len() as int;
    let n = d.len() as int;
    reveal_strlit("episode");
    reveal_strlit("Episode");
    lemma_title_shape(kw, d, rest);
    lemma_kn_mismatch(s, 0, 0);
    lemma_kn_mismatch(s, 1, 0);
    lemma_kn_mismatch(s, 2, 0);
    lemma_kn_mismatch(s, 3, 0);
    lemma_kn_mismatch(s, 4, 0);
    lemma_kn_mismatch(s, 5, 0);
    lemma_kn_no_number(s, 6);
    lemma_kn_mismatch(s, 7, 2);
    lemma_kn_hit_space(s, 8, n);
    lemma_fkn_chain(s, 0, 8, (l + 1, l + 1 + n));
    lemma_first_keyword_decides(s, l, n);
}

proof fn lemma_keyword_episodio(kw: Seq<char>, d: Seq<char>, rest: Seq<char>)
    requires
        kw == "episódio"@ || kw == "Episódio"@ || kw == "episodio"@ || kw == "Episodio"@,
        d.len() >= 1,
        forall|i: int| 0 <= i < d.len() ==> '0' <= #[trigger] d[i] <= '9',
        forall|i: int| 0 <= i < rest.len() ==> !is_dec_digit(#[trigger] rest[i]),
    ensures
        number_in(keyword_title(kw, d, rest)) == Some(d),
{
    let s = keyword_title(kw, d, rest);
    let l = kw.len() as int;
    let n = d.len() as int;
    reveal_strlit("episódio");
    reveal_strlit("Episódio");
    reveal_strlit("episodio");
    reveal_strlit("Episodio");
    lemma_title_shape(kw, d, rest);
    lemma_kn_mismatch(s, 0, 0);
    lemma_kn_mismatch(s, 1, 0);
    lemma_kn_mismatch(s, 2, 0);
    lemma_kn_mismatch(s, 3, 0);
    lemma_kn_mismatch(s, 4, 0);
    lemma_kn_mismatch(s, 5, 0);
    lemma_kn_no_number(s, 6);
    lemma_kn_mismatch(s, 7, 2);
    lemma_kn_mismatch(s, 8, 6);
    lemma_kn_hit_space(s, 9, n);
    lemma_fkn_chain(s, 0, 9, (l + 1, l + 1 + n));
    lemma_first_keyword_decides(s, l, n);
}

proof fn lemma_keyword_hash(kw: Seq<char>, d: Seq<char>, rest: Seq<char>)
    requires
        kw == "#"@,
        d.len() >= 1,
        forall|i: int| 0 <= i < d.len() ==> '0' <= #[trigger] d[i] <= '9',
        forall|i: int| 0 <= i < rest.len() ==> !is_dec_digit(#[trigger] rest[i]),
    ensures
        number_in(keyword_title(kw, d, rest)) == Some(d),
{
    let s = keyword_title(kw, d, rest);
    let l = kw.len() as int;
    let n = d.len() as int;
    reveal_strlit("#");
    lemma_title_shape(kw, d, rest);
    lemma_kn_mismatch(s, 0, 0);
    lemma_kn_mismatch(s, 1, 0);
    lemma_kn_mismatch(s, 2, 0);
    lemma_kn_mismatch(s, 3, 0);
    lemma_kn_mismatch(s, 4, 0);
    lemma_kn_mismatch(s, 5, 0);
    lemma_kn_mismatch(s, 6, 0);
    lemma_kn_mismatch(s, 7, 0);
    lemma_kn_mismatch(s, 8, 0);
    lemma_kn_mismatch(s, 9, 0);
    lemma_kn_hit_space(s, 10, n);
    lemma_fkn_chain(s, 0, 10, (l + 1, l + 1 + n));
    lemma_first_keyword_decides(s, l, n);
}

/// Every keyword a title may name its chapter with (`chapter`, `capítulo`
/// or `capitulo`, `ch`, `ch.`, `cap`, `cap.`, `ep`, `ep.`, `episode`,
/// `episódio` or `episodio`, `#`), in lower case or capitalized, followed
/// by a space, a number's ASCII digits and `:`, gives those digits as the
/// chapter number, whatever words without digits follow.
pub proof fn lemma_keyword_then_number(kw: Seq<char>, d: Seq<char>, rest: Seq<char>)
    requires
        kw == "chapter"@ || kw == "Chapter"@ || kw == "capítulo"@ || kw == "Capítulo"@
            || kw == "capitulo"@ || kw == "Capitulo"@ || kw == "ch"@ || kw == "Ch"@
            || kw == "ch."@ || kw == "Ch."@ || kw == "cap"@ || kw == "Cap"@ || kw == "cap."@
            || kw == "Cap."@ || kw == "ep"@ || kw == "Ep"@ || kw == "ep."@ || kw == "Ep."@
            || kw == "episode"@ || kw == "Episode"@ || kw == "episódio"@ || kw == "Episódio"@
            || kw == "episodio"@ || kw == "Episodio"@ || kw == "#"@,
        d.len() >= 1,
        forall|i: int| 0 <= i < d.len() ==> '0' <= #[trigger] d[i] <= '9',
        forall|i: int| 0 <= i < rest.len() ==> !is_dec_digit(#[trigger] rest[i]),
    ensures
        number_in(keyword_title(kw, d, rest)) == Some(d),
{
    if kw == "chapter"@ || kw == "Chapter"@ {
        lemma_keyword_chapter(kw, d, rest);
    } else if kw == "capítulo"@ || kw == "Capítulo"@ || kw == "capitulo"@ || kw == "Capitulo"@ {
        lemma_keyword_capitulo(kw, d, rest);
    } else if kw == "ch"@ || kw == "Ch"@ {
        lemma_keyword_ch(kw, d, rest);
    } else if kw == "ch."@ || kw == "Ch."@ {
        lemma_keyword_ch_dot(kw, d, rest);
    } else if kw == "cap"@ || kw == "Cap"@ {
        lemma_keyword_cap(kw, d, rest);
    } else if kw == "cap."@ || kw == "Cap."@ {
        lemma_keyword_cap_dot(kw, d, rest);
    } else if kw == "ep"@ || kw == "Ep"@ {
        lemma_keyword_ep(kw, d, rest);
    } else if kw == "ep."@ || kw == "Ep."@ {
        lemma_keyword_ep_dot(kw, d, rest);
    } else if kw == "episode"@ || kw == "Episode"@ {
        lemma_keyword_episode(kw, d, rest);
    } else if kw == "episódio"@ || kw == "Episódio"@ || kw == "episodio"@ || kw == "Episodio"@ {
        lemma_keyword_episodio(kw, d, rest);
    } else {
        lemma_keyword_hash(kw, d, rest);
    }
}

} // verus!
