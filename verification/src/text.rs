use vstd::prelude::*;

verus! {

/// The characters for which Rust's `char::is_whitespace` holds
/// (the Unicode `White_Space` property).
pub open spec fn is_ws(c: char) -> bool {
    let u = c as u32;
    (9 <= u && u <= 13) || u == 32 || u == 0x85 || u == 0xA0 || u == 0x1680
        || (0x2000 <= u && u <= 0x200A) || u == 0x2028 || u == 0x2029 || u == 0x202F
        || u == 0x205F || u == 0x3000
}

/// Whether a character is whitespace, as `char::is_whitespace` says.
pub fn is_whitespace(c: char) -> (r: bool)
    ensures
        r == is_ws(c),
{
    let u = c as u32;
    (9 <= u && u <= 13) || u == 32 || u == 0x85 || u == 0xA0 || u == 0x1680
        || (0x2000 <= u && u <= 0x200A) || u == 0x2028 || u == 0x2029 || u == 0x202F
        || u == 0x205F || u == 0x3000
}

/// Appends one character to a string: `String::push`.
#[verifier::external_body]
pub(crate) fn push_char(s: &mut String, c: char)
    ensures
        final(s)@ == old(s)@.push(c),
{
    s.push(c);
}

/// The characters of a string slice, in order.
pub fn chars_of(s: &str) -> (r: Vec<char>)
    ensures
        r@ == s@,
{
    let mut v: Vec<char> = Vec::new();
    for c in it: s.chars()
        invariant
            it.seq() == s@,
            v@ == it.seq().subrange(0, it.index() as int),
    {
        v.push(c);
    }
    v
}

/// A string made of the given characters, in order.
pub fn string_of(v: &[char]) -> (r: String)
    ensures
        r@ == v@,
{
    let mut s = String::new();
    let mut i: usize = 0;
    while i < v.len()
        invariant
            i <= v@.len(),
            s@ == v@.subrange(0, i as int),
        decreases v@.len() - i,
    {
        push_char(&mut s, v[i]);
        i = i + 1;
        assert(s@ =~= v@.subrange(0, i as int));
    }
    assert(v@.subrange(0, v@.len() as int) =~= v@);
    s
}

/// The ASCII digit of a number below ten.
pub open spec fn digit_char(d: nat) -> char {
    ((48 + d) as u32) as char
}

fn digit(d: u64) -> (c: char)
    requires
        d < 10,
    ensures
        c == digit_char(d as nat),
{
    let b: u8 = 48u8 + (d as u8);
    b as char
}

} // verus!

verus! {

// ---------------------------------------------------------------------------
// Decimal rendering
// ---------------------------------------------------------------------------

/// The decimal digits of `n`, most significant first, without leading zeros.
pub open spec fn dec(n: nat) -> Seq<char>
    decreases n,
{
    if n < 10 {
        seq![digit_char(n)]
    } else {
        dec(n / 10).push(digit_char(n % 10))
    }
}

/// `s` padded on the left with `'0'` up to `width` characters.
pub open spec fn pad_zeros(s: Seq<char>, width: nat) -> Seq<char> {
    if s.len() >= width {
        s
    } else {
        Seq::new((width - s.len()) as nat, |i: int| '0') + s
    }
}

/// Appends the decimal digits of `n`.
pub fn push_decimal(buf: &mut Vec<char>, n: u64)
    ensures
        final(buf)@ == old(buf)@ + dec(n as nat),
    decreases n,
{
    if n >= 10 {
        push_decimal(buf, n / 10);
    }
    buf.push(digit(n % 10));
    proof {
        if n >= 10 {
            assert(dec(n as nat) == dec((n / 10) as nat).push(digit_char((n % 10) as nat)));
        }
    }
}

/// The decimal rendering of `n`, as `n.to_string()` gives it.
pub fn decimal(n: u64) -> (r: String)
    ensures
        r@ == dec(n as nat),
{
    let mut v: Vec<char> = Vec::new();
    push_decimal(&mut v, n);
    assert(v@ =~= dec(n as nat));
    string_of(v.as_slice())
}

/// The decimal rendering of `n` padded with zeros to `width` characters,
/// as `format!("{:0width$}", n)` gives it.
pub fn zero_padded(n: u64, width: usize) -> (r: String)
    ensures
        r@ == pad_zeros(dec(n as nat), width as nat),
{
    let mut digits: Vec<char> = Vec::new();
    push_decimal(&mut digits, n);
    assert(digits@ =~= dec(n as nat));
    let mut out: Vec<char> = Vec::new();
    let dlen = digits.len();
    if dlen < width {
        let fill = width - dlen;
        let mut i: usize = 0;
        while i < fill
            invariant
                i <= fill,
                out@ == Seq::new(i as nat, |k: int| '0'),
            decreases fill - i,
        {
            out.push('0');
            i = i + 1;
            assert(out@ =~= Seq::new(i as nat, |k: int| '0'));
        }
    }
    let mut j: usize = 0;
    let ghost pre = out@;
    while j < dlen
        invariant
            j <= dlen,
            dlen == digits@.len(),
            out@ == pre + digits@.subrange(0, j as int),
        decreases dlen - j,
    {
        out.push(digits[j]);
        j = j + 1;
        assert(out@ =~= pre + digits@.subrange(0, j as int));
    }
    assert(digits@.subrange(0, dlen as int) =~= digits@);
    assert(out@ =~= pad_zeros(dec(n as nat), width as nat));
    string_of(out.as_slice())
}

/// `s` padded on the left with spaces up to `width` characters.
pub open spec fn pad_spaces(s: Seq<char>, width: nat) -> Seq<char> {
    if s.len() >= width {
        s
    } else {
        Seq::new((width - s.len()) as nat, |i: int| ' ') + s
    }
}

/// The decimal rendering of `n` right-aligned in `width` characters, as
/// `format!("{:width$}", n)` gives it.
pub fn space_padded(n: u64, width: usize) -> (r: String)
    ensures
        r@ == pad_spaces(dec(n as nat), width as nat),
{
    let mut digits: Vec<char> = Vec::new();
    push_decimal(&mut digits, n);
    assert(digits@ =~= dec(n as nat));
    let mut out: Vec<char> = Vec::new();
    let dlen = digits.len();
    if dlen < width {
        let fill = width - dlen;
        let mut i: usize = 0;
        while i < fill
            invariant
                i <= fill,
                out@ == Seq::new(i as nat, |k: int| ' '),
            decreases fill - i,
        {
            out.push(' ');
            i = i + 1;
            assert(out@ =~= Seq::new(i as nat, |k: int| ' '));
        }
    }
    let mut j: usize = 0;
    let ghost pre = out@;
    while j < dlen
        invariant
            j <= dlen,
            dlen == digits@.len(),
            out@ == pre + digits@.subrange(0, j as int),
        decreases dlen - j,
    {
        out.push(digits[j]);
        j = j + 1;
        assert(out@ =~= pre + digits@.subrange(0, j as int));
    }
    assert(digits@.subrange(0, dlen as int) =~= digits@);
    assert(out@ =~= pad_spaces(dec(n as nat), width as nat));
    string_of(out.as_slice())
}

/// `s` padded on the right with spaces up to `width` characters, as
/// `format!("{:<width$}", s)` gives it.
pub open spec fn pad_end(s: Seq<char>, width: nat) -> Seq<char> {
    if s.len() >= width {
        s
    } else {
        s + Seq::new((width - s.len()) as nat, |i: int| ' ')
    }
}

/// `s` left-aligned in `width` characters.
pub fn left_aligned(s: &str, width: usize) -> (r: String)
    ensures
        r@ == pad_end(s@, width as nat),
{
    let mut out = chars_of(s);
    let ghost pre = out@;
    let n = out.len();
    if n < width {
        let fill = width - n;
        let mut i: usize = 0;
        while i < fill
            invariant
                i <= fill,
                out@ == pre + Seq::new(i as nat, |k: int| ' '),
            decreases fill - i,
        {
            out.push(' ');
            i = i + 1;
            assert(out@ =~= pre + Seq::new(i as nat, |k: int| ' '));
        }
    }
    assert(out@ =~= pad_end(s@, width as nat));
    string_of(out.as_slice())
}

// ---------------------------------------------------------------------------
// Trimming
// ---------------------------------------------------------------------------

/// `s` without its leading whitespace.
pub open spec fn trim_start(s: Seq<char>) -> Seq<char>
    decreases s.len(),
{
    if s.len() > 0 && is_ws(s[0]) {
        trim_start(s.drop_first())
    } else {
        s
    }
}

/// `s` without its trailing whitespace.
pub open spec fn trim_end(s: Seq<char>) -> Seq<char>
    decreases s.len(),
{
    if s.len() > 0 && is_ws(s.last()) {
        trim_end(s.drop_last())
    } else {
        s
    }
}

/// `s` without leading and trailing whitespace, as `str::trim` gives it.
pub open spec fn trim(s: Seq<char>) -> Seq<char> {
    trim_end(trim_start(s))
}

/// Skipping leading whitespace up to `i` gives the trimmed start.
pub proof fn lemma_trim_start_skip(s: Seq<char>, i: int)
    requires
        0 <= i <= s.len(),
        forall|k: int| 0 <= k < i ==> is_ws(#[trigger] s[k]),
    ensures
        trim_start(s) == trim_start(s.subrange(i, s.len() as int)),
    decreases i,
{
    if i > 0 {
        assert(s.drop_first() =~= s.subrange(1, s.len() as int));
        lemma_trim_start_skip(s.drop_first(), i - 1);
        assert(s.drop_first().subrange(i - 1, s.drop_first().len() as int) =~= s.subrange(
            i,
            s.len() as int,
        ));
    } else {
        assert(s.subrange(0, s.len() as int) =~= s);
    }
}

/// Dropping trailing whitespace from `j` on gives the trimmed end.
pub proof fn lemma_trim_end_skip(s: Seq<char>, j: int)
    requires
        0 <= j <= s.len(),
        forall|k: int| j <= k < s.len() ==> is_ws(#[trigger] s[k]),
    ensures
        trim_end(s) == trim_end(s.subrange(0, j)),
    decreases s.len() - j,
{
    if j < s.len() {
        lemma_trim_end_skip(s.drop_last(), j);
        assert(s.drop_last().subrange(0, j) =~= s.subrange(0, j));
    } else {
        assert(s.subrange(0, j) =~= s);
    }
}

/// Index of the first non-whitespace character of `v` at or after `from`
/// (or `v.len()`).
pub fn skip_ws(v: &Vec<char>, from: usize) -> (r: usize)
    requires
        from <= v@.len(),
    ensures
        from <= r <= v@.len(),
        forall|k: int| from <= k < r ==> is_ws(#[trigger] v@[k]),
        r < v@.len() ==> !is_ws(v@[r as int]),
{
    let mut i = from;
    while i < v.len() && is_whitespace(v[i])
        invariant
            from <= i <= v@.len(),
            forall|k: int| from <= k < i ==> is_ws(#[trigger] v@[k]),
        decreases v@.len() - i,
    {
        i = i + 1;
    }
    i
}

/// Index of the first whitespace character of `v` at or after `from`
/// (or `v.len()`).
pub fn skip_non_ws(v: &Vec<char>, from: usize) -> (r: usize)
    requires
        from <= v@.len(),
    ensures
        from <= r <= v@.len(),
        forall|k: int| from <= k < r ==> !is_ws(#[trigger] v@[k]),
        r < v@.len() ==> is_ws(v@[r as int]),
{
    let mut i = from;
    while i < v.len() && !is_whitespace(v[i])
        invariant
            from <= i <= v@.len(),
            forall|k: int| from <= k < i ==> !is_ws(#[trigger] v@[k]),
        decreases v@.len() - i,
    {
        i = i + 1;
    }
    i
}

/// A copy of `v[from..to]`.
pub fn slice_chars(v: &Vec<char>, from: usize, to: usize) -> (r: Vec<char>)
    requires
        from <= to <= v@.len(),
    ensures
        r@ == v@.subrange(from as int, to as int),
{
    let mut out: Vec<char> = Vec::new();
    let mut i = from;
    while i < to
        invariant
            from <= i <= to,
            to <= v@.len(),
            out@ == v@.subrange(from as int, i as int),
        decreases to - i,
    {
        out.push(v[i]);
        i = i + 1;
        assert(out@ =~= v@.subrange(from as int, i as int));
    }
    out
}

/// `v` without leading and trailing whitespace.
pub fn trim_chars(v: &Vec<char>) -> (r: Vec<char>)
    ensures
        r@ == trim(v@),
{
    let i = skip_ws(v, 0);
    proof {
        lemma_trim_start_skip(v@, i as int);
    }
    let ghost t = v@.subrange(i as int, v@.len() as int);
    assert(trim_start(t) == t);
    let mut j = v.len();
    while j > i && is_whitespace(v[j - 1])
        invariant
            i <= j <= v@.len(),
            forall|k: int| j <= k < v@.len() ==> is_ws(#[trigger] v@[k]),
        decreases j,
    {
        j = j - 1;
    }
    proof {
        lemma_trim_end_skip(t, j - i);
        let u = t.subrange(0, j - i);
        assert(u =~= v@.subrange(i as int, j as int));
        if j > i {
            assert(u.last() == v@[j - 1]);
        }
        assert(trim_end(u) == u);
    }
    slice_chars(v, i, j)
}

/// `s.trim()`, as an owned string.
pub fn trim_str(s: &str) -> (r: String)
    ensures
        r@ == trim(s@),
{
    let v = chars_of(s);
    let t = trim_chars(&v);
    string_of(t.as_slice())
}

// ---------------------------------------------------------------------------
// Prefixes, suffixes and search
// ---------------------------------------------------------------------------

/// Whether `s` begins with `p`.
pub open spec fn starts_with(s: Seq<char>, p: Seq<char>) -> bool {
    p.len() <= s.len() && s.subrange(0, p.len() as int) == p
}

/// Whether `s` ends with `p`.
pub open spec fn ends_with(s: Seq<char>, p: Seq<char>) -> bool {
    p.len() <= s.len() && s.subrange(s.len() - p.len(), s.len() as int) == p
}

/// Whether `p` occurs in `s` at index `i`.
pub open spec fn occurs_at(s: Seq<char>, p: Seq<char>, i: int) -> bool {
    0 <= i && i + p.len() <= s.len() && s.subrange(i, i + p.len()) == p
}

/// The first index at or after `i` where `p` occurs in `s`.
pub open spec fn find_from(s: Seq<char>, p: Seq<char>, i: int) -> Option<int>
    decreases s.len() + 1 - i,
{
    if i < 0 || i + p.len() > s.len() {
        None
    } else if occurs_at(s, p, i) {
        Some(i)
    } else {
        find_from(s, p, i + 1)
    }
}

/// The first index where `p` occurs in `s`, as `str::find` gives it
/// (counted in characters).
pub open spec fn find(s: Seq<char>, p: Seq<char>) -> Option<int> {
    find_from(s, p, 0)
}

/// Whether `c` occurs in `s`.
pub open spec fn contains_char(s: Seq<char>, c: char) -> bool {
    exists|i: int| 0 <= i < s.len() && s[i] == c
}

/// Whether `p` occurs in `s` at index `i`.
pub fn occurs_at_exec(s: &Vec<char>, p: &Vec<char>, i: usize) -> (r: bool)
    ensures
        r == occurs_at(s@, p@, i as int),
{
    if i > s.len() || p.len() > s.len() - i {
        return false;
    }
    let mut k: usize = 0;
    while k < p.len()
        invariant
            i + p@.len() <= s@.len(),
            k <= p@.len(),
            forall|m: int| 0 <= m < k ==> s@[i + m] == p@[m],
        decreases p@.len() - k,
    {
        assert(i + k < s.len());
        if s[i + k] != p[k] {
            assert(s@.subrange(i as int, i + p@.len())[k as int] != p@[k as int]);
            return false;
        }
        k = k + 1;
    }
    assert(s@.subrange(i as int, i + p@.len()) =~= p@);
    true
}

/// The first index where `p` occurs in `s`.
pub fn find_chars(s: &Vec<char>, p: &Vec<char>) -> (r: Option<usize>)
    ensures
        r matches Some(i) ==> find(s@, p@) == Some(i as int),
        r is None ==> find(s@, p@) is None,
{
    if p.len() > s.len() {
        return None;
    }
    let last = s.len() - p.len();
    let mut i: usize = 0;
    loop
        invariant
            last == s@.len() - p@.len(),
            i <= last,
            find(s@, p@) == find_from(s@, p@, i as int),
        decreases last - i,
    {
        if occurs_at_exec(s, p, i) {
            return Some(i);
        }
        if i == last {
            assert(find_from(s@, p@, i + 1) is None);
            return None;
        }
        i = i + 1;
    }
}

/// Whether `s` begins with `p`.
pub fn starts_with_chars(s: &Vec<char>, p: &Vec<char>) -> (r: bool)
    ensures
        r == starts_with(s@, p@),
{
    occurs_at_exec(s, p, 0)
}

/// Whether `s` ends with `p`.
pub fn ends_with_chars(s: &Vec<char>, p: &Vec<char>) -> (r: bool)
    ensures
        r == ends_with(s@, p@),
{
    if p.len() > s.len() {
        return false;
    }
    occurs_at_exec(s, p, s.len() - p.len())
}

/// Whether `c` occurs in `s`.
pub fn contains_char_exec(s: &Vec<char>, c: char) -> (r: bool)
    ensures
        r == contains_char(s@, c),
{
    let mut i: usize = 0;
    while i < s.len()
        invariant
            i <= s@.len(),
            forall|k: int| 0 <= k < i ==> s@[k] != c,
        decreases s@.len() - i,
    {
        if s[i] == c {
            return true;
        }
        i = i + 1;
    }
    false
}

/// Whether two character lists are equal.
pub fn chars_eq(a: &Vec<char>, b: &Vec<char>) -> (r: bool)
    ensures
        r == (a@ == b@),
{
    if a.len() != b.len() {
        return false;
    }
    let r = starts_with_chars(a, b);
    assert(a@.subrange(0, b@.len() as int) =~= a@);
    r
}

/// Whether two strings hold the same characters.
pub fn str_eq(a: &str, b: &str) -> (r: bool)
    ensures
        r == (a@ == b@),
{
    let va = chars_of(a);
    let vb = chars_of(b);
    chars_eq(&va, &vb)
}

// ---------------------------------------------------------------------------
// ASCII case
// ---------------------------------------------------------------------------

/// A character in ASCII lower case.
pub open spec fn ascii_lower(c: char) -> char {
    if 'A' <= c && c <= 'Z' {
        ((c as u32) + 32) as char
    } else {
        c
    }
}

/// A character in ASCII upper case.
pub open spec fn ascii_upper(c: char) -> char {
    if 'a' <= c && c <= 'z' {
        ((c as u32) - 32) as char
    } else {
        c
    }
}

/// A string in ASCII lower case.
pub open spec fn lower_seq(s: Seq<char>) -> Seq<char> {
    s.map_values(|c: char| ascii_lower(c))
}

/// Equality up to ASCII case, as `str::eq_ignore_ascii_case` decides it.
pub open spec fn eq_ic(a: Seq<char>, b: Seq<char>) -> bool {
    lower_seq(a) == lower_seq(b)
}

/// A character in ASCII lower case.
pub fn to_ascii_lower(c: char) -> (r: char)
    ensures
        r == ascii_lower(c),
{
    if 'A' <= c && c <= 'Z' {
        let u: u32 = (c as u32) + 32;
        let b: u8 = u as u8;
        b as char
    } else {
        c
    }
}

/// A character in ASCII upper case.
pub fn to_ascii_upper(c: char) -> (r: char)
    ensures
        r == ascii_upper(c),
{
    if 'a' <= c && c <= 'z' {
        let u: u32 = (c as u32) - 32;
        let b: u8 = u as u8;
        b as char
    } else {
        c
    }
}

/// A character list in ASCII lower case.
pub fn lower_chars(v: &Vec<char>) -> (r: Vec<char>)
    ensures
        r@ == lower_seq(v@),
{
    let mut out: Vec<char> = Vec::new();
    let mut i: usize = 0;
    while i < v.len()
        invariant
            i <= v@.len(),
            out@ == lower_seq(v@.subrange(0, i as int)),
        decreases v@.len() - i,
    {
        out.push(to_ascii_lower(v[i]));
        i = i + 1;
        assert(out@ =~= lower_seq(v@.subrange(0, i as int)));
    }
    assert(v@.subrange(0, v@.len() as int) =~= v@);
    out
}

/// Whether two strings are equal ignoring ASCII case.
pub fn eq_ignore_ascii_case(a: &str, b: &str) -> (r: bool)
    ensures
        r == eq_ic(a@, b@),
{
    let la = lower_chars(&chars_of(a));
    let lb = lower_chars(&chars_of(b));
    chars_eq(&la, &lb)
}

} // verus!

verus! {

// ---------------------------------------------------------------------------
// Words and joining
// ---------------------------------------------------------------------------

/// The number of leading non-whitespace characters of `t`.
pub open spec fn word_len(t: Seq<char>) -> nat
    decreases t.len(),
{
    if t.len() == 0 || is_ws(t[0]) {
        0
    } else {
        1 + word_len(t.drop_first())
    }
}

/// A trimmed start is a suffix that begins with no whitespace.
pub proof fn lemma_trim_start_props(s: Seq<char>)
    ensures
        trim_start(s).len() <= s.len(),
        trim_start(s).len() > 0 ==> !is_ws(trim_start(s)[0]),
        trim_start(s) == s.subrange(s.len() - trim_start(s).len(), s.len() as int),
    decreases s.len(),
{
    if s.len() > 0 && is_ws(s[0]) {
        lemma_trim_start_props(s.drop_first());
        let t = trim_start(s.drop_first());
        assert(s.drop_first().subrange(s.drop_first().len() - t.len(), s.drop_first().len() as int)
            =~= s.subrange(s.len() - t.len(), s.len() as int));
    } else {
        assert(s.subrange(0, s.len() as int) =~= s);
    }
}

/// The first word is a prefix of non-whitespace characters.
pub proof fn lemma_word_len_props(t: Seq<char>)
    ensures
        word_len(t) <= t.len(),
        t.len() > 0 && !is_ws(t[0]) ==> word_len(t) >= 1,
    decreases t.len(),
{
    if t.len() > 0 && !is_ws(t[0]) {
        lemma_word_len_props(t.drop_first());
    }
}

/// The first word ends at the first whitespace.
pub proof fn lemma_word_len_exact(t: Seq<char>, k: int)
    requires
        0 <= k <= t.len(),
        forall|m: int| 0 <= m < k ==> !is_ws(#[trigger] t[m]),
        k < t.len() ==> is_ws(t[k]),
    ensures
        word_len(t) == k,
    decreases k,
{
    if k > 0 {
        lemma_word_len_exact(t.drop_first(), k - 1);
    }
}

/// The whitespace-separated words of `s`, as `str::split_whitespace` yields them.
pub open spec fn words(s: Seq<char>) -> Seq<Seq<char>>
    decreases s.len(),
{
    let t = trim_start(s);
    if t.len() == 0 {
        seq![]
    } else {
        let k = word_len(t);
        proof {
            lemma_trim_start_props(s);
            lemma_word_len_props(t);
        }
        seq![t.subrange(0, k as int)] + words(t.subrange(k as int, t.len() as int))
    }
}

/// The views of a sequence of character vectors.
pub open spec fn views(v: Seq<Vec<char>>) -> Seq<Seq<char>> {
    v.map_values(|w: Vec<char>| w@)
}

/// The whitespace-separated words of `v`, as `split_whitespace` gives them.
pub fn split_words(v: &Vec<char>) -> (r: Vec<Vec<char>>)
    ensures
        views(r@) == words(v@),
{
    let mut acc: Vec<Vec<char>> = Vec::new();
    let mut i: usize = 0;
    assert(v@.subrange(0, v@.len() as int) =~= v@);
    loop
        invariant
            i <= v@.len(),
            words(v@) == views(acc@) + words(v@.subrange(i as int, v@.len() as int)),
        decreases v@.len() - i,
    {
        let ghost rest = v@.subrange(i as int, v@.len() as int);
        let j = skip_ws(v, i);
        proof {
            lemma_trim_start_skip(rest, j - i);
            assert(rest.subrange(j - i, rest.len() as int) =~= v@.subrange(
                j as int,
                v@.len() as int,
            ));
        }
        if j == v.len() {
            proof {
                assert(trim_start(rest).len() == 0);
                assert(words(rest) =~= Seq::<Seq<char>>::empty());
                assert(views(acc@) + words(rest) =~= views(acc@));
            }
            return acc;
        }
        let k = skip_non_ws(v, j);
        let w = slice_chars(v, j, k);
        proof {
            let t = v@.subrange(j as int, v@.len() as int);
            assert(trim_start(t) == t);
            assert(trim_start(rest) == t);
            lemma_word_len_exact(t, k - j);
            assert(t.subrange(0, k - j) =~= w@);
            assert(t.subrange(k - j, t.len() as int) =~= v@.subrange(k as int, v@.len() as int));
            assert(words(rest) == seq![w@] + words(v@.subrange(k as int, v@.len() as int)));
        }
        acc.push(w);
        proof {
            assert(views(acc@) =~= views(acc@.drop_last()).push(w@));
        }
        i = k;
    }
}

/// The words joined with `sep` between them.
pub open spec fn join(ws: Seq<Seq<char>>, sep: Seq<char>) -> Seq<char>
    decreases ws.len(),
{
    if ws.len() == 0 {
        seq![]
    } else if ws.len() == 1 {
        ws[0]
    } else {
        join(ws.drop_last(), sep) + sep + ws.last()
    }
}

/// The words joined with `sep` between them.
pub fn join_chars(ws: &Vec<Vec<char>>, sep: &Vec<char>) -> (r: Vec<char>)
    ensures
        r@ == join(views(ws@), sep@),
{
    let mut out: Vec<char> = Vec::new();
    let mut i: usize = 0;
    while i < ws.len()
        invariant
            i <= ws@.len(),
            out@ == join(views(ws@.subrange(0, i as int)), sep@),
        decreases ws@.len() - i,
    {
        let ghost prev = views(ws@.subrange(0, i as int));
        if i > 0 {
            let mut k: usize = 0;
            let ghost base = out@;
            while k < sep.len()
                invariant
                    k <= sep@.len(),
                    out@ == base + sep@.subrange(0, k as int),
                decreases sep@.len() - k,
            {
                out.push(sep[k]);
                k = k + 1;
                assert(out@ =~= base + sep@.subrange(0, k as int));
            }
            assert(sep@.subrange(0, sep@.len() as int) =~= sep@);
        }
        let w = &ws[i];
        let mut k: usize = 0;
        let ghost base = out@;
        while k < w.len()
            invariant
                k <= w@.len(),
                out@ == base + w@.subrange(0, k as int),
            decreases w@.len() - k,
        {
            out.push(w[k]);
            k = k + 1;
            assert(out@ =~= base + w@.subrange(0, k as int));
        }
        proof {
            assert(w@.subrange(0, w@.len() as int) =~= w@);
            let next = views(ws@.subrange(0, i + 1));
            assert(next.drop_last() =~= prev);
            assert(next.last() == w@);
            if i == 0 {
                assert(prev.len() == 0);
                assert(out@ =~= w@);
            }
        }
        i = i + 1;
    }
    assert(ws@.subrange(0, ws@.len() as int) =~= ws@);
    out
}

} // verus!

verus! {

// ---------------------------------------------------------------------------
// UTF-8 length
// ---------------------------------------------------------------------------

/// The number of bytes `c` takes in UTF-8.
pub open spec fn char_utf8_len(c: char) -> nat {
    let u = c as u32;
    if u < 0x80 {
        1
    } else if u < 0x800 {
        2
    } else if u < 0x10000 {
        3
    } else {
        4
    }
}

/// The number of bytes `s` takes in UTF-8, as `str::len` counts them.
pub open spec fn utf8_len(s: Seq<char>) -> nat
    decreases s.len(),
{
    if s.len() == 0 {
        0
    } else {
        utf8_len(s.drop_last()) + char_utf8_len(s.last())
    }
}

/// A prefix takes no more UTF-8 bytes than the whole.
pub proof fn lemma_utf8_len_prefix(s: Seq<char>, i: int)
    requires
        0 <= i <= s.len(),
    ensures
        utf8_len(s.subrange(0, i)) <= utf8_len(s),
    decreases s.len() - i,
{
    if i < s.len() {
        lemma_utf8_len_prefix(s, i + 1);
        assert(s.subrange(0, i + 1).drop_last() =~= s.subrange(0, i));
    } else {
        assert(s.subrange(0, i) =~= s);
    }
}

/// The number of bytes `c` takes in UTF-8.
pub fn char_utf8_len_exec(c: char) -> (r: usize)
    ensures
        r == char_utf8_len(c),
{
    let u = c as u32;
    if u < 0x80 {
        1
    } else if u < 0x800 {
        2
    } else if u < 0x10000 {
        3
    } else {
        4
    }
}

/// Whether `s` takes at least `n` bytes in UTF-8.
pub fn utf8_len_at_least(s: &Vec<char>, n: usize) -> (r: bool)
    ensures
        r == (utf8_len(s@) >= n),
{
    if n == 0 {
        return true;
    }
    let mut total: usize = 0;
    let mut i: usize = 0;
    while i < s.len()
        invariant
            i <= s@.len(),
            total == utf8_len(s@.subrange(0, i as int)),
            total < n,
        decreases s@.len() - i,
    {
        let l = char_utf8_len_exec(s[i]);
        proof {
            assert(s@.subrange(0, i + 1).drop_last() =~= s@.subrange(0, i as int));
        }
        if l >= n - total {
            proof {
                lemma_utf8_len_prefix(s@, i + 1);
            }
            return true;
        }
        total = total + l;
        i = i + 1;
    }
    assert(s@.subrange(0, s@.len() as int) =~= s@);
    false
}

/// Whether `s` takes more than `n` bytes in UTF-8.
pub fn utf8_len_exceeds(s: &Vec<char>, n: usize) -> (r: bool)
    ensures
        r == (utf8_len(s@) > n),
{
    let mut total: usize = 0;
    let mut i: usize = 0;
    while i < s.len()
        invariant
            i <= s@.len(),
            total == utf8_len(s@.subrange(0, i as int)),
            total <= n,
        decreases s@.len() - i,
    {
        let l = char_utf8_len_exec(s[i]);
        proof {
            assert(s@.subrange(0, i + 1).drop_last() =~= s@.subrange(0, i as int));
        }
        if l > n - total {
            proof {
                lemma_utf8_len_prefix(s@, i + 1);
            }
            return true;
        }
        total = total + l;
        i = i + 1;
    }
    assert(s@.subrange(0, s@.len() as int) =~= s@);
    false
}

} // verus!

verus! {

/// The view of an optional string.
pub open spec fn opt_view(o: Option<String>) -> Option<Seq<char>> {
    match o {
        Some(s) => Some(s@),
        None => None,
    }
}

} // verus!

verus! {

/// A copy of an optional string.
pub fn clone_opt(o: &Option<String>) -> (r: Option<String>)
    ensures
        r == *o,
{
    match o {
        Some(s) => Some(s.clone()),
        None => None,
    }
}

} // verus!

verus! {

/// A match found from `i` on lies within the string.
pub proof fn lemma_find_from_in_bounds(s: Seq<char>, p: Seq<char>, i: int)
    ensures
        find_from(s, p, i) matches Some(k) ==> i <= k && k + p.len() <= s.len() && occurs_at(
            s,
            p,
            k,
        ),
    decreases s.len() + 1 - i,
{
    if i < 0 || i + p.len() > s.len() {
    } else if occurs_at(s, p, i) {
    } else {
        lemma_find_from_in_bounds(s, p, i + 1);
    }
}

/// Where `find` finds `p` in `s`, `p` fits in `s` from there.
pub proof fn lemma_find_in_bounds(s: Seq<char>, p: Seq<char>)
    ensures
        find(s, p) matches Some(k) ==> 0 <= k && k + p.len() <= s.len() && occurs_at(s, p, k),
{
    lemma_find_from_in_bounds(s, p, 0);
}

} // verus!

verus! {

/// Where what trimming leaves starts in the string.
pub open spec fn trim_offset(s: Seq<char>) -> int {
    s.len() - trim_start(s).len()
}

/// What trimming leaves is a piece of the string, with no whitespace at
/// either end.
pub proof fn lemma_trim_props(s: Seq<char>)
    ensures
        trim(s).len() <= s.len(),
        0 <= trim_offset(s) && trim_offset(s) + trim(s).len() <= s.len(),
        trim(s) == s.subrange(trim_offset(s), trim_offset(s) + trim(s).len()),
        trim(s).len() > 0 ==> !is_ws(trim(s)[0]) && !is_ws(trim(s).last()),
{
    lemma_trim_start_props(s);
    let t = trim_start(s);
    lemma_trim_end_props(t);
    let a = s.len() - t.len();
    assert(trim(s) == t.subrange(0, trim(s).len() as int));
    assert(trim(s) =~= s.subrange(a, a + trim(s).len()));
    if trim(s).len() > 0 {
        assert(trim(s)[0] == t[0]);
    }
}

/// A trimmed end is a prefix that ends with no whitespace.
pub proof fn lemma_trim_end_props(s: Seq<char>)
    ensures
        trim_end(s).len() <= s.len(),
        trim_end(s) == s.subrange(0, trim_end(s).len() as int),
        trim_end(s).len() > 0 ==> !is_ws(trim_end(s).last()),
        trim_end(s).len() > 0 && s.len() > 0 && !is_ws(s[0]) ==> trim_end(s)[0] == s[0],
        s.len() > 0 && !is_ws(s[0]) ==> trim_end(s).len() > 0,
    decreases s.len(),
{
    if s.len() > 0 && is_ws(s.last()) {
        lemma_trim_end_props(s.drop_last());
        let t = trim_end(s.drop_last());
        assert(s.drop_last().subrange(0, t.len() as int) =~= s.subrange(0, t.len() as int));
    } else {
        assert(s.subrange(0, s.len() as int) =~= s);
    }
}

/// A string with no whitespace at either end is its own trim.
pub proof fn lemma_trim_of_trimmed(s: Seq<char>)
    requires
        s.len() > 0 ==> !is_ws(s[0]) && !is_ws(s.last()),
    ensures
        trim(s) == s,
{
    assert(trim_start(s) == s);
}

} // verus!

verus! {

/// Equality ignoring ASCII case is symmetric.
pub proof fn lemma_eq_ic_symmetric(a: Seq<char>, b: Seq<char>)
    ensures
        eq_ic(a, b) == eq_ic(b, a),
{
}

} // verus!

verus! {

// ---------------------------------------------------------------------------
// Unicode case mapping
// ---------------------------------------------------------------------------

/// What `str::to_uppercase` gives of a string (full Unicode upper-casing).
pub uninterp spec fn unicode_upper(s: Seq<char>) -> Seq<char>;

/// What `str::to_lowercase` gives of a string (full Unicode lower-casing).
pub uninterp spec fn unicode_lower(s: Seq<char>) -> Seq<char>;

/// Upper-cases a string with `str::to_uppercase`. Claimed: the result is
/// `unicode_upper` of the string.
#[verifier::external_body]
pub(crate) fn to_uppercase(s: &str) -> (r: String)
    ensures
        r@ == unicode_upper(s@),
{
    s.to_uppercase()
}

/// Lower-cases a string with `str::to_lowercase`. Claimed: the result is
/// `unicode_lower` of the string.
#[verifier::external_body]
pub(crate) fn to_lowercase(s: &str) -> (r: String)
    ensures
        r@ == unicode_lower(s@),
{
    s.to_lowercase()
}

// ---------------------------------------------------------------------------
// Replacing and control characters
// ---------------------------------------------------------------------------

/// `s` with each occurrence of `pat` replaced by `rep`, left to right
/// without overlap, as `str::replace` does (for a non-empty `pat`).
pub open spec fn replace_all(s: Seq<char>, pat: Seq<char>, rep: Seq<char>) -> Seq<char>
    decreases s.len(),
{
    if s.len() == 0 || pat.len() == 0 {
        s
    } else if starts_with(s, pat) {
        rep + replace_all(s.subrange(pat.len() as int, s.len() as int), pat, rep)
    } else {
        seq![s[0]] + replace_all(s.drop_first(), pat, rep)
    }
}

/// Replaces each occurrence of `pat` in `v` by `rep`, left to right.
pub fn replace_chars(v: &Vec<char>, pat: &Vec<char>, rep: &Vec<char>) -> (r: Vec<char>)
    requires
        pat@.len() > 0,
    ensures
        r@ == replace_all(v@, pat@, rep@),
{
    let mut out: Vec<char> = Vec::new();
    let mut i: usize = 0;
    assert(v@.subrange(0, v@.len() as int) =~= v@);
    while i < v.len()
        invariant
            i <= v@.len(),
            pat@.len() > 0,
            replace_all(v@, pat@, rep@) == out@ + replace_all(
                v@.subrange(i as int, v@.len() as int),
                pat@,
                rep@,
            ),
        decreases v@.len() - i,
    {
        let ghost rest = v@.subrange(i as int, v@.len() as int);
        if occurs_at_exec(v, pat, i) {
            proof {
                assert(starts_with(rest, pat@)) by {
                    assert(rest.subrange(0, pat@.len() as int) =~= v@.subrange(
                        i as int,
                        i + pat@.len(),
                    ));
                }
                assert(rest.subrange(pat@.len() as int, rest.len() as int) =~= v@.subrange(
                    i + pat@.len(),
                    v@.len() as int,
                ));
            }
            let ghost before = out@;
            let mut k: usize = 0;
            while k < rep.len()
                invariant
                    k <= rep@.len(),
                    out@ == before + rep@.subrange(0, k as int),
                decreases rep@.len() - k,
            {
                out.push(rep[k]);
                k = k + 1;
                assert(out@ =~= before + rep@.subrange(0, k as int));
            }
            assert(rep@.subrange(0, rep@.len() as int) =~= rep@);
            assert(before + rep@ + replace_all(
                v@.subrange(i + pat@.len(), v@.len() as int),
                pat@,
                rep@,
            ) =~= out@ + replace_all(v@.subrange(i + pat@.len(), v@.len() as int), pat@, rep@));
            i = i + pat.len();
        } else {
            proof {
                if starts_with(rest, pat@) {
                    assert(rest.subrange(0, pat@.len() as int) =~= v@.subrange(
                        i as int,
                        i + pat@.len(),
                    ));
                }
                assert(rest.drop_first() =~= v@.subrange(i + 1, v@.len() as int));
            }
            let ghost before = out@;
            out.push(v[i]);
            assert(before + (seq![v@[i as int]] + replace_all(
                v@.subrange(i + 1, v@.len() as int),
                pat@,
                rep@,
            )) =~= out@ + replace_all(v@.subrange(i + 1, v@.len() as int), pat@, rep@));
            i = i + 1;
        }
    }
    assert(out@ + replace_all(v@.subrange(v@.len() as int, v@.len() as int), pat@, rep@) =~= out@);
    out
}

/// The control characters (`char::is_control`: general category Cc).
pub open spec fn is_control_char(c: char) -> bool {
    let u = c as u32;
    u <= 0x1F || (0x7F <= u && u <= 0x9F)
}

/// Whether a character is a control character, as `char::is_control` says.
pub fn is_control(c: char) -> (r: bool)
    ensures
        r == is_control_char(c),
{
    let u = c as u32;
    u <= 0x1F || (0x7F <= u && u <= 0x9F)
}

/// `v` without its last character (unchanged where empty), as `String::pop` leaves it.
pub open spec fn without_last(s: Seq<char>) -> Seq<char> {
    if s.len() == 0 {
        s
    } else {
        s.drop_last()
    }
}

/// Removes the last character of a string, as `String::pop` does.
pub fn pop_char(s: &mut String)
    ensures
        final(s)@ == without_last(old(s)@),
{
    let v = chars_of(s.as_str());
    if v.len() > 0 {
        let w = slice_chars(&v, 0, v.len() - 1);
        assert(w@ =~= v@.drop_last());
        *s = string_of(w.as_slice());
    }
}

} // verus!

verus! {

/// The index of the last `c` in `s`, or -1.
pub open spec fn last_index_of(s: Seq<char>, c: char) -> int
    decreases s.len(),
{
    if s.len() == 0 {
        -1
    } else if s.last() == c {
        s.len() - 1
    } else {
        last_index_of(s.drop_last(), c)
    }
}

/// The index of the last `c` in `v`, as `str::rfind` with a character gives it.
pub fn rfind_char(v: &Vec<char>, c: char) -> (r: Option<usize>)
    ensures
        match r {
            Some(k) => k < v@.len() && last_index_of(v@, c) == k,
            None => last_index_of(v@, c) == -1,
        },
{
    let mut j = v.len();
    assert(v@.subrange(0, j as int) =~= v@);
    while j > 0
        invariant
            j <= v@.len(),
            last_index_of(v@, c) == last_index_of(v@.subrange(0, j as int), c),
        decreases j,
    {
        proof {
            assert(v@.subrange(0, j as int).drop_last() =~= v@.subrange(0, j - 1));
        }
        if v[j - 1] == c {
            return Some(j - 1);
        }
        j = j - 1;
    }
    None
}

/// The number of bytes of a string slice (`str::len`). Claimed: the UTF-8
/// length of its characters.
#[verifier::external_body]
pub(crate) fn byte_len(s: &str) -> (r: usize)
    ensures
        r == utf8_len(s@),
{
    s.len()
}

} // verus!

verus! {

/// The longest end of `s` that takes at most `n` bytes in UTF-8.
pub open spec fn utf8_tail(s: Seq<char>, n: nat) -> Seq<char>
    decreases s.len(),
{
    if s.len() == 0 {
        s
    } else if char_utf8_len(s.last()) <= n {
        utf8_tail(s.drop_last(), (n - char_utf8_len(s.last())) as nat).push(s.last())
    } else {
        Seq::empty()
    }
}

/// `s` as a box of limited width shows it: where it takes more than
/// `limit` bytes in UTF-8, `...` and its last `keep` bytes.
pub open spec fn ellipsized(s: Seq<char>, limit: nat, keep: nat) -> Seq<char> {
    if utf8_len(s) > limit {
        "..."@ + utf8_tail(s, keep)
    } else {
        s
    }
}

/// Whether the cut that `ellipsized` makes falls between two characters:
/// the last `keep` bytes of a text longer than `limit` bytes start on a
/// character.
pub open spec fn cut_on_char(s: Seq<char>, limit: nat, keep: nat) -> bool {
    utf8_len(s) > limit ==> utf8_len(utf8_tail(s, keep)) == keep
}

/// The longest end of `v` that takes at most `n` bytes in UTF-8.
pub fn utf8_tail_chars(v: &Vec<char>, n: usize) -> (r: Vec<char>)
    ensures
        r@ == utf8_tail(v@, n as nat),
{
    let mut i: usize = v.len();
    let mut rem: usize = n;
    assert(v@.subrange(0, v@.len() as int) =~= v@);
    assert(v@.subrange(i as int, v@.len() as int) =~= Seq::<char>::empty());
    while i > 0 && char_utf8_len_exec(v[i - 1]) <= rem
        invariant
            i <= v@.len(),
            rem <= n,
            utf8_tail(v@, n as nat) == utf8_tail(v@.subrange(0, i as int), rem as nat) + v@.subrange(
                i as int,
                v@.len() as int,
            ),
        decreases i,
    {
        let l = char_utf8_len_exec(v[i - 1]);
        proof {
            let pre = v@.subrange(0, i as int);
            assert(pre.drop_last() =~= v@.subrange(0, i - 1));
            assert(pre.last() == v@[i - 1]);
            assert(v@.subrange(i - 1, v@.len() as int) =~= seq![v@[i - 1]] + v@.subrange(
                i as int,
                v@.len() as int,
            ));
            assert(utf8_tail(v@.subrange(0, i - 1), (rem - l) as nat).push(v@[i - 1]) + v@.subrange(
                i as int,
                v@.len() as int,
            ) =~= utf8_tail(v@.subrange(0, i - 1), (rem - l) as nat) + v@.subrange(
                i - 1,
                v@.len() as int,
            ));
        }
        rem = rem - l;
        i = i - 1;
    }
    proof {
        let pre = v@.subrange(0, i as int);
        assert(utf8_tail(pre, rem as nat) =~= Seq::<char>::empty());
        assert(utf8_tail(v@, n as nat) =~= v@.subrange(i as int, v@.len() as int));
    }
    slice_chars(v, i, v.len())
}

/// The UTF-8 length of two texts joined is the sum of their lengths.
pub proof fn lemma_utf8_len_concat(a: Seq<char>, b: Seq<char>)
    ensures
        utf8_len(a + b) == utf8_len(a) + utf8_len(b),
    decreases b.len(),
{
    if b.len() > 0 {
        lemma_utf8_len_concat(a, b.drop_last());
        assert((a + b).drop_last() =~= a + b.drop_last());
        assert((a + b).last() == b.last());
    } else {
        assert(a + b =~= a);
    }
}

/// A box that cuts a long text keeps what it shows within its limit,
/// where the kept end and the `...` before it fit.
pub proof fn lemma_ellipsized_fits(s: Seq<char>, limit: nat, keep: nat)
    requires
        cut_on_char(s, limit, keep),
        keep + 3 <= limit,
    ensures
        utf8_len(ellipsized(s, limit, keep)) <= limit,
{
    if utf8_len(s) > limit {
        lemma_utf8_len_concat("..."@, utf8_tail(s, keep));
        reveal_strlit("...");
        assert(utf8_len("..."@) == 3) by {
            reveal_with_fuel(utf8_len, 4);
        }
    }
}

/// Whether the cut that `ellipsize` makes falls between two characters.
pub fn cut_falls_on_char(s: &str, limit: usize, keep: usize) -> (r: bool)
    ensures
        r == cut_on_char(s@, limit as nat, keep as nat),
{
    let v = chars_of(s);
    if !utf8_len_exceeds(&v, limit) {
        return true;
    }
    let t = utf8_tail_chars(&v, keep);
    utf8_len_at_least(&t, keep) && !utf8_len_exceeds(&t, keep)
}

/// `s` as a box of limited width shows it: where it takes more than
/// `limit` bytes, `...` and its last `keep` bytes.
pub fn ellipsize(s: &str, limit: usize, keep: usize) -> (r: String)
    requires
        cut_on_char(s@, limit as nat, keep as nat),
    ensures
        r@ == ellipsized(s@, limit as nat, keep as nat),
{
    let v = chars_of(s);
    if !utf8_len_exceeds(&v, limit) {
        return String::from_str(s);
    }
    let t = utf8_tail_chars(&v, keep);
    let mut out = String::from_str("...");
    out.append(string_of(t.as_slice()).as_str());
    proof {
        reveal_strlit("...");
    }
    out
}

} // verus!

verus! {

/// The pieces of `s` between the occurrences of `sep`, `cur` being the
/// start of the piece that `s` continues, as `str::split` gives them.
pub open spec fn split_from(s: Seq<char>, sep: Seq<char>, cur: Seq<char>) -> Seq<Seq<char>>
    decreases s.len(),
{
    if s.len() == 0 {
        seq![cur]
    } else if sep.len() > 0 && starts_with(s, sep) {
        seq![cur] + split_from(s.subrange(sep.len() as int, s.len() as int), sep, Seq::empty())
    } else {
        split_from(s.drop_first(), sep, cur.push(s[0]))
    }
}

/// The pieces of `s` between the occurrences of `sep`.
pub open spec fn split_on(s: Seq<char>, sep: Seq<char>) -> Seq<Seq<char>> {
    split_from(s, sep, Seq::empty())
}

/// The pieces of `v` between the occurrences of `sep`.
pub fn split_on_chars(v: &Vec<char>, sep: &Vec<char>) -> (r: Vec<Vec<char>>)
    ensures
        views(r@) == split_on(v@, sep@),
{
    let mut done: Vec<Vec<char>> = Vec::new();
    let mut cur: Vec<char> = Vec::new();
    let mut i: usize = 0;
    assert(v@.subrange(0, v@.len() as int) =~= v@);
    while i < v.len()
        invariant
            i <= v@.len(),
            split_on(v@, sep@) == views(done@) + split_from(v@.subrange(i as int, v@.len() as int), sep@, cur@),
        decreases v@.len() - i,
    {
        let ghost rest = v@.subrange(i as int, v@.len() as int);
        if sep.len() > 0 && occurs_at_exec(v, sep, i) {
            proof {
                assert(rest.subrange(0, sep@.len() as int) =~= v@.subrange(i as int, i + sep@.len()));
                assert(starts_with(rest, sep@));
                assert(rest.subrange(sep@.len() as int, rest.len() as int) =~= v@.subrange(
                    i + sep@.len(),
                    v@.len() as int,
                ));
            }
            let ghost before = done@;
            done.push(cur);
            cur = Vec::new();
            proof {
                assert(views(done@) =~= views(before).push(done@[before.len() as int]@));
                assert(views(done@) + split_from(
                    v@.subrange(i + sep@.len(), v@.len() as int),
                    sep@,
                    cur@,
                ) =~= views(before) + (seq![done@[before.len() as int]@] + split_from(
                    v@.subrange(i + sep@.len(), v@.len() as int),
                    sep@,
                    Seq::empty(),
                )));
            }
            i = i + sep.len();
        } else {
            proof {
                if sep@.len() > 0 && starts_with(rest, sep@) {
                    assert(rest.subrange(0, sep@.len() as int) =~= v@.subrange(i as int, i + sep@.len()));
                    assert(occurs_at(v@, sep@, i as int));
                }
                assert(rest.drop_first() =~= v@.subrange(i + 1, v@.len() as int));
            }
            cur.push(v[i]);
            i = i + 1;
        }
    }
    proof {
        assert(v@.subrange(i as int, v@.len() as int) =~= Seq::<char>::empty());
    }
    let ghost before = done@;
    done.push(cur);
    assert(views(done@) =~= views(before) + seq![done@[before.len() as int]@]);
    done
}

} // verus!
