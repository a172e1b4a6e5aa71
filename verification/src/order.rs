//! Strings in lexicographic order of their characters: the order in which
//! `Ord` puts file names that are valid UTF-8.

use vstd::prelude::*;
use crate::text::chars_of;

verus! {

broadcast use {vstd::seq_lib::to_multiset_build, vstd::seq_lib::to_multiset_insert};

/// Whether `a` comes no later than `b`, character by character.
pub open spec fn chars_le(a: Seq<char>, b: Seq<char>) -> bool
    decreases a.len(),
{
    if a.len() == 0 {
        true
    } else if b.len() == 0 {
        false
    } else if a[0] != b[0] {
        a[0] < b[0]
    } else {
        chars_le(a.drop_first(), b.drop_first())
    }
}

/// Any two strings are ordered one way or the other.
pub proof fn lemma_le_total(a: Seq<char>, b: Seq<char>)
    ensures
        chars_le(a, b) || chars_le(b, a),
    decreases a.len(),
{
    if a.len() > 0 && b.len() > 0 {
        if a[0] == b[0] {
            lemma_le_total(a.drop_first(), b.drop_first());
        }
    }
}

/// The order of strings is transitive.
pub proof fn lemma_le_trans(a: Seq<char>, b: Seq<char>, c: Seq<char>)
    requires
        chars_le(a, b),
        chars_le(b, c),
    ensures
        chars_le(a, c),
    decreases a.len(),
{
    if a.len() > 0 && b.len() > 0 && c.len() > 0 && a[0] == b[0] && b[0] == c[0] {
        lemma_le_trans(a.drop_first(), b.drop_first(), c.drop_first());
    }
}

/// Whether the strings are in order.
pub open spec fn is_sorted(s: Seq<Seq<char>>) -> bool {
    forall|i: int, j: int| 0 <= i < j < s.len() ==> chars_le(s[i], s[j])
}

/// The views of a list of strings.
pub open spec fn string_seq(v: Seq<String>) -> Seq<Seq<char>> {
    v.map_values(|s: String| s@)
}

/// Whether `a` comes no later than `b`.
pub fn str_le(a: &str, b: &str) -> (r: bool)
    ensures
        r == chars_le(a@, b@),
{
    let x = chars_of(a);
    let y = chars_of(b);
    let mut i: usize = 0;
    assert(x@.subrange(0, x@.len() as int) =~= x@);
    assert(y@.subrange(0, y@.len() as int) =~= y@);
    while i < x.len() && i < y.len() && x[i] == y[i]
        invariant
            i <= x@.len(),
            i <= y@.len(),
            chars_le(x@, y@) == chars_le(x@.subrange(i as int, x@.len() as int), y@.subrange(
                i as int,
                y@.len() as int,
            )),
        decreases x@.len() - i,
    {
        proof {
            let xs = x@.subrange(i as int, x@.len() as int);
            let ys = y@.subrange(i as int, y@.len() as int);
            assert(xs.drop_first() =~= x@.subrange(i + 1, x@.len() as int));
            assert(ys.drop_first() =~= y@.subrange(i + 1, y@.len() as int));
        }
        i = i + 1;
    }
    if i == x.len() {
        true
    } else if i == y.len() {
        false
    } else {
        let cx = x[i];
        let cy = y[i];
        proof {
            let xs = x@.subrange(i as int, x@.len() as int);
            let ys = y@.subrange(i as int, y@.len() as int);
            assert(xs[0] == x@[i as int]);
            assert(ys[0] == y@[i as int]);
        }
        cx < cy
    }
}

/// The strings in order; the same strings, each as often as given.
pub fn sort_strings(v: Vec<String>) -> (r: Vec<String>)
    ensures
        is_sorted(string_seq(r@)),
        string_seq(r@).to_multiset() == string_seq(v@).to_multiset(),
{
    let mut out: Vec<String> = Vec::new();
    let mut i: usize = 0;
    let ghost input = string_seq(v@);
    assert(input.subrange(0, 0) =~= Seq::<Seq<char>>::empty());
    assert(string_seq(out@) =~= Seq::<Seq<char>>::empty());
    while i < v.len()
        invariant
            i <= v@.len(),
            input == string_seq(v@),
            is_sorted(string_seq(out@)),
            string_seq(out@).to_multiset() == input.subrange(0, i as int).to_multiset(),
        decreases v@.len() - i,
    {
        let x = v[i].clone();
        let ghost xv = x@;
        let ghost before = string_seq(out@);
        let mut k: usize = 0;
        while k < out.len() && str_le(out[k].as_str(), x.as_str())
            invariant
                k <= out@.len(),
                before == string_seq(out@),
                xv == x@,
                forall|m: int| 0 <= m < k ==> chars_le(#[trigger] before[m], xv),
            decreases out@.len() - k,
        {
            k = k + 1;
        }
        proof {
            if k < out@.len() {
                lemma_le_total(before[k as int], xv);
            }
        }
        out.insert(k, x);
        proof {
            let after = string_seq(out@);
            assert(after =~= before.insert(k as int, xv));
            assert forall|a: int, b: int| 0 <= a < b < after.len() implies chars_le(
                after[a],
                after[b],
            ) by {
                if b < k {
                } else if a < k && b == k {
                } else if a < k && b > k {
                    assert(after[b] == before[b - 1]);
                } else if a == k {
                    assert(after[b] == before[b - 1]);
                    if b - 1 > k {
                        lemma_le_trans(xv, before[k as int], before[b - 1]);
                    }
                } else {
                    assert(after[a] == before[a - 1]);
                    assert(after[b] == before[b - 1]);
                }
            }
            assert(input.subrange(0, i + 1) =~= input.subrange(0, i as int).push(xv));
        }
        i = i + 1;
    }
    assert(input.subrange(0, v@.len() as int) =~= input);
    out
}

} // verus!

verus! {

/// Where an item with `key` goes in a list sorted by key: after every item
/// whose key comes no later.
pub open spec fn key_position(sorted: Seq<(Seq<char>, Seq<char>)>, key: Seq<char>) -> nat
    decreases sorted.len(),
{
    if sorted.len() == 0 {
        0
    } else if chars_le(sorted[0].0, key) {
        1 + key_position(sorted.drop_first(), key)
    } else {
        0
    }
}

/// The (key, item) pairs sorted by key, pairs with equal keys kept in the
/// order given: a stable sort, as `slice::sort_by` does.
pub open spec fn sort_by_key(s: Seq<(Seq<char>, Seq<char>)>) -> Seq<(Seq<char>, Seq<char>)>
    decreases s.len(),
{
    if s.len() == 0 {
        s
    } else {
        let sorted = sort_by_key(s.drop_last());
        let k = key_position(sorted, s.last().0);
        proof {
            lemma_key_position_bound(sorted, s.last().0);
        }
        sorted.insert(k as int, s.last())
    }
}

/// The place of a key in a sorted list of pairs is at most the list's length.
pub proof fn lemma_key_position_bound(sorted: Seq<(Seq<char>, Seq<char>)>, key: Seq<char>)
    ensures
        key_position(sorted, key) <= sorted.len(),
    decreases sorted.len(),
{
    if sorted.len() > 0 && chars_le(sorted[0].0, key) {
        lemma_key_position_bound(sorted.drop_first(), key);
    }
}

/// The views of (key, item) string pairs.
pub open spec fn pair_seq(v: Seq<(String, String)>) -> Seq<(Seq<char>, Seq<char>)> {
    v.map_values(|p: (String, String)| (p.0@, p.1@))
}

/// Sorts (key, item) pairs by key, stably.
pub fn sort_pairs_by_key(v: Vec<(String, String)>) -> (r: Vec<(String, String)>)
    ensures
        pair_seq(r@) == sort_by_key(pair_seq(v@)),
{
    let mut out: Vec<(String, String)> = Vec::new();
    let ghost input = pair_seq(v@);
    let mut i: usize = 0;
    assert(input.subrange(0, 0) =~= Seq::<(Seq<char>, Seq<char>)>::empty());
    assert(pair_seq(out@) =~= Seq::<(Seq<char>, Seq<char>)>::empty());
    while i < v.len()
        invariant
            i <= v@.len(),
            input == pair_seq(v@),
            pair_seq(out@) == sort_by_key(input.subrange(0, i as int)),
        decreases v@.len() - i,
    {
        let x = (v[i].0.clone(), v[i].1.clone());
        let ghost before = pair_seq(out@);
        let mut k: usize = 0;
        assert(before.subrange(0, before.len() as int) =~= before);
        while k < out.len() && str_le(out[k].0.as_str(), x.0.as_str())
            invariant
                k <= out@.len(),
                before == pair_seq(out@),
                key_position(before, x.0@) == k + key_position(
                    before.subrange(k as int, before.len() as int),
                    x.0@,
                ),
            decreases out@.len() - k,
        {
            proof {
                let rest = before.subrange(k as int, before.len() as int);
                assert(rest[0] == before[k as int]);
                assert(rest.drop_first() =~= before.subrange(k + 1, before.len() as int));
            }
            k = k + 1;
        }
        proof {
            let rest = before.subrange(k as int, before.len() as int);
            if k < out@.len() {
                assert(rest[0] == before[k as int]);
            }
            assert(key_position(before, x.0@) == k);
            let sub = input.subrange(0, i + 1);
            assert(sub.drop_last() =~= input.subrange(0, i as int));
            assert(sub.last() == (x.0@, x.1@));
        }
        out.insert(k, x);
        proof {
            assert(pair_seq(out@) =~= before.insert(k as int, (x.0@, x.1@)));
        }
        i = i + 1;
    }
    assert(input.subrange(0, v@.len() as int) =~= input);
    out
}

} // verus!
