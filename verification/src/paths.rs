//! Paths as character sequences, joined and taken apart the way
//! `std::path` does it on Unix, where `/` is the only separator.

use vstd::prelude::*;
use crate::text::{chars_of, slice_chars, string_of};

verus! {

/// `base` with `seg` pushed onto it, as `Path::join` does on Unix: an
/// absolute `seg` replaces `base`; otherwise a `/` separates the two unless
/// `base` is empty or already ends with one.
pub open spec fn join_path(base: Seq<char>, seg: Seq<char>) -> Seq<char> {
    if seg.len() > 0 && seg[0] == '/' {
        seg
    } else if base.len() == 0 || base.last() == '/' {
        base + seg
    } else {
        base + seq!['/'] + seg
    }
}

/// A joined path is at least as long as its segment.
pub proof fn lemma_join_len(base: Seq<char>, seg: Seq<char>)
    ensures
        join_path(base, seg).len() >= seg.len(),
{
}

/// Joins `seg` onto `base` as `Path::join` does on Unix.
pub fn path_join(base: &str, seg: &str) -> (r: String)
    ensures
        r@ == join_path(base@, seg@),
{
    let b = chars_of(base);
    let s = chars_of(seg);
    if s.len() > 0 && s[0] == '/' {
        return string_of(s.as_slice());
    }
    let mut out = b.clone();
    if b.len() > 0 && b[b.len() - 1] != '/' {
        out.push('/');
    }
    let ghost pre = out@;
    let mut i: usize = 0;
    while i < s.len()
        invariant
            i <= s@.len(),
            out@ == pre + s@.subrange(0, i as int),
        decreases s@.len() - i,
    {
        out.push(s[i]);
        i = i + 1;
        assert(out@ =~= pre + s@.subrange(0, i as int));
    }
    assert(s@.subrange(0, s@.len() as int) =~= s@);
    assert(out@ =~= join_path(base@, seg@));
    string_of(out.as_slice())
}

} // verus!

verus! {

/// The index of the last `/` in `s`, or -1.
pub open spec fn last_slash(s: Seq<char>) -> int
    decreases s.len(),
{
    if s.len() == 0 {
        -1
    } else if s.last() == '/' {
        s.len() - 1
    } else {
        last_slash(s.drop_last())
    }
}

/// The last slash of a path is a slash, and none follows it.
pub proof fn lemma_last_slash(s: Seq<char>)
    ensures
        -1 <= last_slash(s) < s.len(),
        last_slash(s) >= 0 ==> s[last_slash(s)] == '/',
        forall|i: int| last_slash(s) < i < s.len() ==> s[i] != '/',
    decreases s.len(),
{
    if s.len() > 0 && s.last() != '/' {
        lemma_last_slash(s.drop_last());
        assert forall|i: int| last_slash(s) < i < s.len() implies s[i] != '/' by {
            if i < s.len() - 1 {
                assert(s.drop_last()[i] == s[i]);
            }
        }
    }
}

/// The last component of a path, as `Path::file_name` gives it on Unix:
/// trailing `/` and `.` components are passed over, and a path that ends in
/// `..` (or has no normal component) has none.
pub open spec fn file_name_of(s: Seq<char>) -> Option<Seq<char>>
    decreases s.len(),
{
    if s.len() == 0 {
        None
    } else if s.last() == '/' {
        file_name_of(s.drop_last())
    } else {
        let k = last_slash(s);
        let seg = s.subrange(k + 1, s.len() as int);
        if seg == seq!['.'] {
            if k < 0 {
                None
            } else {
                proof {
                    lemma_last_slash(s);
                }
                file_name_of(s.subrange(0, k))
            }
        } else if seg == seq!['.', '.'] {
            None
        } else {
            Some(seg)
        }
    }
}

/// The index of the last `.` in `s`, or -1.
pub open spec fn last_dot(s: Seq<char>) -> int
    decreases s.len(),
{
    if s.len() == 0 {
        -1
    } else if s.last() == '.' {
        s.len() - 1
    } else {
        last_dot(s.drop_last())
    }
}

/// A file name split into stem and extension as `Path::file_stem` and
/// `Path::extension` do: at the last `.`, unless that is the first
/// character (or the name is `..`), in which case there is no extension.
pub open spec fn split_ext(name: Seq<char>) -> (Seq<char>, Option<Seq<char>>) {
    let d = last_dot(name);
    if name == seq!['.', '.'] || d <= 0 {
        (name, None)
    } else {
        (name.subrange(0, d), Some(name.subrange(d + 1, name.len() as int)))
    }
}

/// The extension of a path, as `Path::extension` gives it.
pub open spec fn extension_of(s: Seq<char>) -> Option<Seq<char>> {
    match file_name_of(s) {
        Some(n) => split_ext(n).1,
        None => None,
    }
}

/// The stem of a path, as `Path::file_stem` gives it.
pub open spec fn stem_of(s: Seq<char>) -> Option<Seq<char>> {
    match file_name_of(s) {
        Some(n) => Some(split_ext(n).0),
        None => None,
    }
}

fn last_index_of(v: &Vec<char>, end: usize, c: char) -> (r: Option<usize>)
    requires
        end <= v@.len(),
    ensures
        match r {
            Some(k) => k < end && v@.subrange(0, end as int)[k as int] == c,
            None => true,
        },
        c == '/' ==> (match r {
            Some(k) => last_slash(v@.subrange(0, end as int)) == k,
            None => last_slash(v@.subrange(0, end as int)) == -1,
        }),
        c == '.' ==> (match r {
            Some(k) => last_dot(v@.subrange(0, end as int)) == k,
            None => last_dot(v@.subrange(0, end as int)) == -1,
        }),
{
    let mut j = end;
    while j > 0
        invariant
            j <= end <= v@.len(),
            c == '/' ==> last_slash(v@.subrange(0, end as int)) == last_slash(
                v@.subrange(0, j as int),
            ),
            c == '.' ==> last_dot(v@.subrange(0, end as int)) == last_dot(v@.subrange(0, j as int)),
        decreases j,
    {
        proof {
            assert(v@.subrange(0, j as int).drop_last() =~= v@.subrange(0, j - 1));
        }
        if v[j - 1] == c {
            return Some(j - 1);
        }
        j = j - 1;
    }
    None
}

/// The last component of a path, as `Path::file_name` gives it on Unix.
pub fn file_name(path: &str) -> (r: Option<String>)
    ensures
        crate::text::opt_view(r) == file_name_of(path@),
{
    let v = chars_of(path);
    let mut end = v.len();
    assert(v@.subrange(0, end as int) =~= v@);
    loop
        invariant
            end <= v@.len(),
            v@ == path@,
            file_name_of(v@) == file_name_of(v@.subrange(0, end as int)),
        decreases end,
    {
        let ghost s = v@.subrange(0, end as int);
        if end == 0 {
            return None;
        }
        if v[end - 1] == '/' {
            proof {
                assert(s.drop_last() =~= v@.subrange(0, end - 1));
            }
            end = end - 1;
        } else {
            let k = last_index_of(&v, end, '/');
            let start = match k {
                Some(k) => k + 1,
                None => 0,
            };
            let seg = slice_chars(&v, start, end);
            proof {
                lemma_last_slash(s);
                assert(seg@ =~= s.subrange(last_slash(s) + 1, s.len() as int));
            }
            if seg.len() == 1 && seg[0] == '.' {
                assert(seg@ =~= seq!['.']);
                match k {
                    Some(k) => {
                        proof {
                            assert(s.subrange(0, k as int) =~= v@.subrange(0, k as int));
                        }
                        end = k;
                    },
                    None => {
                        return None;
                    },
                }
            } else if seg.len() == 2 && seg[0] == '.' && seg[1] == '.' {
                assert(seg@ =~= seq!['.', '.']);
                return None;
            } else {
                proof {
                    if seg@ == seq!['.'] {
                        assert(seg@.len() == 1);
                    }
                    if seg@ == seq!['.', '.'] {
                        assert(seg@.len() == 2);
                    }
                }
                return Some(string_of(seg.as_slice()));
            }
        }
    }
}

fn split_name(name: &Vec<char>) -> (r: (Vec<char>, Option<Vec<char>>))
    ensures
        r.0@ == split_ext(name@).0,
        match r.1 {
            Some(e) => split_ext(name@).1 == Some(e@),
            None => split_ext(name@).1 is None,
        },
{
    assert(name@.subrange(0, name@.len() as int) =~= name@);
    let d = last_index_of(name, name.len(), '.');
    let is_dotdot = name.len() == 2 && name[0] == '.' && name[1] == '.';
    proof {
        if name@ == seq!['.', '.'] {
            assert(name@.len() == 2);
        }
        if is_dotdot {
            assert(name@ =~= seq!['.', '.']);
        }
    }
    match d {
        Some(k) => {
            if is_dotdot || k == 0 {
                (slice_chars(name, 0, name.len()), None)
            } else {
                (slice_chars(name, 0, k), Some(slice_chars(name, k + 1, name.len())))
            }
        },
        None => (slice_chars(name, 0, name.len()), None),
    }
}

/// The extension of a path, as `Path::extension` gives it.
pub fn extension(path: &str) -> (r: Option<String>)
    ensures
        crate::text::opt_view(r) == extension_of(path@),
{
    match file_name(path) {
        Some(n) => {
            let (_, e) = split_name(&chars_of(n.as_str()));
            match e {
                Some(e) => Some(string_of(e.as_slice())),
                None => None,
            }
        },
        None => None,
    }
}

/// The stem of a path, as `Path::file_stem` gives it.
pub fn file_stem(path: &str) -> (r: Option<String>)
    ensures
        crate::text::opt_view(r) == stem_of(path@),
{
    match file_name(path) {
        Some(n) => {
            let (s, _) = split_name(&chars_of(n.as_str()));
            Some(string_of(s.as_slice()))
        },
        None => None,
    }
}


/// A path without a `/` has no last slash.
pub proof fn lemma_no_slash(s: Seq<char>)
    requires
        forall|i: int| 0 <= i < s.len() ==> s[i] != '/',
    ensures
        last_slash(s) == -1,
    decreases s.len(),
{
    if s.len() > 0 {
        lemma_no_slash(s.drop_last());
    }
}

/// Text without a `.` appended after `a` leaves the last `.` where it was.
pub proof fn lemma_last_dot_append(a: Seq<char>, b: Seq<char>)
    requires
        forall|i: int| 0 <= i < b.len() ==> b[i] != '.',
    ensures
        last_dot(a + b) == last_dot(a),
    decreases b.len(),
{
    if b.len() == 0 {
        assert(a + b =~= a);
    } else {
        assert((a + b).drop_last() =~= a + b.drop_last());
        lemma_last_dot_append(a, b.drop_last());
    }
}

/// A name made of a stem without `/`, a `.` and an extension without `.`
/// or `/` has that extension, where neither is empty.
pub proof fn lemma_extension_of_name(stem: Seq<char>, e: Seq<char>)
    requires
        stem.len() > 0,
        e.len() > 0,
        forall|i: int| 0 <= i < stem.len() ==> stem[i] != '/',
        forall|i: int| 0 <= i < e.len() ==> e[i] != '.' && e[i] != '/',
    ensures
        extension_of(stem + seq!['.'] + e) == Some(e),
{
    let n = stem + seq!['.'] + e;
    let h = stem + seq!['.'];
    assert(n =~= h + e);
    assert forall|i: int| 0 <= i < n.len() implies n[i] != '/' by {
        if i < stem.len() {
            assert(n[i] == stem[i]);
        } else if i > stem.len() {
            assert(n[i] == e[i - stem.len() - 1]);
        }
    }
    lemma_no_slash(n);
    assert(n.last() != '/');
    assert(n.subrange(-1 + 1, n.len() as int) =~= n);
    assert(n != seq!['.']);
    assert(n.len() >= 3);
    assert(n != seq!['.', '.']);
    assert(file_name_of(n) == Some(n));
    lemma_last_dot_append(h, e);
    assert(h.last() == '.');
    assert(last_dot(h) == stem.len());
    assert(n.subrange(stem.len() + 1 as int, n.len() as int) =~= e);
}

} // verus!
