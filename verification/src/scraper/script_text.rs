//! The text helpers the Lua scrapers call: trimming, splitting at a
//! separator, and the escaping of URL query values.

use vstd::prelude::*;
use crate::text::{chars_of, split_on, split_on_chars, string_of, trim, trim_str, views};

verus! {

/// The characters that query escaping leaves as they are: ASCII letters
/// and digits, and `-`, `_`, `.`, `~`.
pub open spec fn is_unreserved(c: char) -> bool {
    ('a' <= c && c <= 'z') || ('A' <= c && c <= 'Z') || ('0' <= c && c <= '9') || c == '-' || c == '_'
        || c == '.' || c == '~'
}

/// An upper-case hexadecimal digit.
pub open spec fn upper_hex(d: nat) -> char {
    if d < 10 {
        (48 + d) as char
    } else {
        (55 + d) as char
    }
}

/// The bytes of a character in UTF-8.
pub open spec fn utf8_bytes(c: char) -> Seq<nat> {
    let u = c as u32 as nat;
    if u < 0x80 {
        seq![u]
    } else if u < 0x800 {
        seq![0xC0 + u / 64, 0x80 + u % 64]
    } else if u < 0x10000 {
        seq![0xE0 + u / 4096, 0x80 + (u / 64) % 64, 0x80 + u % 64]
    } else {
        seq![0xF0 + u / 262144, 0x80 + (u / 4096) % 64, 0x80 + (u / 64) % 64, 0x80 + u % 64]
    }
}

/// Bytes written as `%` and two upper-case hex digits each.
pub open spec fn percent_bytes(bs: Seq<nat>) -> Seq<char>
    decreases bs.len(),
{
    if bs.len() == 0 {
        Seq::empty()
    } else {
        percent_bytes(bs.drop_last()) + seq!['%', upper_hex(bs.last() / 16), upper_hex(bs.last() % 16)]
    }
}

/// What `urlencoding::encode` gives of a text: unreserved characters as
/// they are, every byte of the others' UTF-8 as `%XX`.
pub open spec fn url_encoded(s: Seq<char>) -> Seq<char>
    decreases s.len(),
{
    if s.len() == 0 {
        Seq::empty()
    } else {
        url_encoded(s.drop_last()) + if is_unreserved(s.last()) {
            seq![s.last()]
        } else {
            percent_bytes(utf8_bytes(s.last()))
        }
    }
}

/// What `urlencoding::decode` gives of a text: each `%` and two hex digits
/// read as a byte; `None` where the bytes are not UTF-8.
pub uninterp spec fn url_decoded(s: Seq<char>) -> Option<Seq<char>>;

/// Escapes a query value with `urlencoding::encode`. Claimed: the result is
/// `url_encoded` of the text (the crate's `encode_into` keeps the bytes of
/// `0-9 A-Z a-z - . _ ~` and writes any other byte as `%` and two
/// upper-case hex digits).
#[verifier::external_body]
fn url_encode(s: &str) -> (r: String)
    ensures
        r@ == url_encoded(s@),
{
    urlencoding::encode(s).into_owned()
}

/// Unescapes a query value with `urlencoding::decode`. Claimed: the result
/// is `url_decoded` of the text, and a text without `%` comes back as it is
/// (the crate hands it back unread).
#[verifier::external_body]
fn url_decode(s: &str) -> (r: Option<String>)
    ensures
        match r {
            Some(t) => url_decoded(s@) == Some(t@),
            None => url_decoded(s@) is None,
        },
        !s@.contains('%') ==> r is Some && r.unwrap()@ == s@,
{
    urlencoding::decode(s).ok().map(|c| c.into_owned())
}

/// A text split at each occurrence of `sep`, as `str::split` gives it; an
/// empty separator splits between every two characters and at both ends.
pub open spec fn split_text_spec(s: Seq<char>, sep: Seq<char>) -> Seq<Seq<char>> {
    if sep.len() == 0 {
        seq![Seq::<char>::empty()] + s.map_values(|c: char| seq![c]) + seq![Seq::<char>::empty()]
    } else {
        split_on(s, sep)
    }
}

/// The text without leading and trailing whitespace.
pub fn trim_text(s: &str) -> (r: String)
    ensures
        r@ == trim(s@),
{
    trim_str(s)
}

/// The text split at each occurrence of `sep`.
pub fn split_text(s: &str, sep: &str) -> (r: Vec<String>)
    ensures
        r@.map_values(|t: String| t@) == split_text_spec(s@, sep@),
{
    let v = chars_of(s);
    let p = chars_of(sep);
    let pieces: Vec<Vec<char>> = if p.len() == 0 {
        let mut out: Vec<Vec<char>> = Vec::new();
        out.push(Vec::new());
        let mut i: usize = 0;
        while i < v.len()
            invariant
                i <= v@.len(),
                views(out@) == seq![Seq::<char>::empty()] + v@.subrange(0, i as int).map_values(|c: char| seq![c]),
            decreases v@.len() - i,
        {
            let ghost before = views(out@);
            let mut one: Vec<char> = Vec::new();
            one.push(v[i]);
            out.push(one);
            i = i + 1;
            assert(views(out@) =~= before.push(seq![v@[i - 1]]));
            assert(v@.subrange(0, i as int).map_values(|c: char| seq![c]) =~= v@.subrange(0, i - 1).map_values(
                |c: char| seq![c],
            ).push(seq![v@[i - 1]]));
        }
        let ghost before = views(out@);
        out.push(Vec::new());
        assert(views(out@) =~= before.push(Seq::<char>::empty()));
        assert(v@.subrange(0, v@.len() as int) =~= v@);
        out
    } else {
        split_on_chars(&v, &p)
    };
    let mut r: Vec<String> = Vec::new();
    let mut k: usize = 0;
    while k < pieces.len()
        invariant
            k <= pieces@.len(),
            r@.map_values(|t: String| t@) == views(pieces@).subrange(0, k as int),
        decreases pieces@.len() - k,
    {
        let t = string_of(pieces[k].as_slice());
        let ghost before = r@.map_values(|t: String| t@);
        r.push(t);
        k = k + 1;
        assert(r@.map_values(|t: String| t@) =~= before.push(pieces@[k - 1]@));
        assert(views(pieces@).subrange(0, k as int) =~= views(pieces@).subrange(0, k - 1).push(pieces@[k - 1]@));
    }
    assert(views(pieces@).subrange(0, k as int) =~= views(pieces@));
    r
}

/// A value escaped for a URL query.
pub fn query_escape(s: &str) -> (r: String)
    ensures
        r@ == url_encoded(s@),
{
    url_encode(s)
}

/// A query value unescaped; the text as it is where the escapes do not
/// make UTF-8.
pub fn query_unescape(s: &str) -> (r: String)
    ensures
        r@ == (match url_decoded(s@) {
            Some(t) => t,
            None => s@,
        }),
{
    match url_decode(s) {
        Some(t) => t,
        None => String::from_str(s),
    }
}

} // verus!
