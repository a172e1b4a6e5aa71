//! The window that picks which sources a search asks.

use vstd::prelude::*;
use crate::text::str_eq;

verus! {

broadcast use vstd::seq_lib::group_seq_properties;

/// The views of a list of strings.
pub open spec fn names_of(v: Seq<String>) -> Seq<Seq<char>> {
    v.map_values(|s: String| s@)
}

/// A set of source names, each held once.
#[derive(Debug)]
pub struct NameSet {
    items: Vec<String>,
}

impl NameSet {
    /// The names in the order they were added.
    pub closed spec fn names(&self) -> Seq<Seq<char>> {
        names_of(self.items@)
    }

    #[verifier::type_invariant]
    closed spec fn wf(&self) -> bool {
        self.names().no_duplicates()
    }
}

impl View for NameSet {
    type V = Set<Seq<char>>;

    closed spec fn view(&self) -> Set<Seq<char>> {
        self.names().to_set()
    }
}

impl NameSet {
    /// The empty set.
    pub fn new() -> (r: NameSet)
        ensures
            r@ == Set::<Seq<char>>::empty(),
    {
        let r = NameSet { items: Vec::new() };
        assert(r.names() =~= Seq::<Seq<char>>::empty());
        assert(r@ =~= Set::<Seq<char>>::empty());
        r
    }

    /// The set is finite.
    pub proof fn lemma_finite(&self)
        ensures
            self@.finite(),
    {
        vstd::seq_lib::seq_to_set_is_finite(self.names());
    }

    fn find(&self, name: &str) -> (r: Option<usize>)
        ensures
            match r {
                Some(k) => k < self.items@.len() && self.names()[k as int] == name@,
                None => !self.names().contains(name@),
            },
    {
        let mut i: usize = 0;
        while i < self.items.len()
            invariant
                i <= self.items@.len(),
                forall|j: int| 0 <= j < i ==> self.names()[j] != name@,
            decreases self.items@.len() - i,
        {
            if str_eq(self.items[i].as_str(), name) {
                return Some(i);
            }
            i = i + 1;
        }
        None
    }

    /// Whether `name` is in the set.
    pub fn contains(&self, name: &str) -> (r: bool)
        ensures
            r == self@.contains(name@),
    {
        let f = self.find(name);
        proof {
            if let Some(k) = f {
                assert(self.names().contains(name@));
            }
        }
        f.is_some()
    }

    /// The number of names in the set.
    pub fn len(&self) -> (r: usize)
        ensures
            r == self@.len(),
    {
        proof {
            use_type_invariant(self);
            self.names().unique_seq_to_set();
        }
        self.items.len()
    }

    /// Whether the set is empty.
    pub fn is_empty(&self) -> (r: bool)
        ensures
            r == (self@.len() == 0),
    {
        self.len() == 0
    }

    /// Adds `name`; a name already there stays once.
    pub fn insert(&mut self, name: String)
        ensures
            final(self)@ == old(self)@.insert(name@),
    {
        proof {
            use_type_invariant(&*self);
        }
        if !self.contains(name.as_str()) {
            let ghost old_names = self.names();
            let mut items: Vec<String> = Vec::new();
            std::mem::swap(&mut items, &mut self.items);
            let ghost n = name@;
            items.push(name);
            proof {
                assert(names_of(items@) =~= old_names.push(n));
                assert(old_names.no_duplicates());
                assert(!old_names.contains(n));
                assert forall|i: int, j: int|
                    0 <= i < j < old_names.len() + 1 implies old_names.push(n)[i] != old_names.push(
                        n,
                    )[j] by {
                    if j == old_names.len() {
                        assert(old_names[i] != n);
                    }
                }
            }
            self.items = items;
            proof {
                assert(self.names() =~= old_names.push(name@));
            }
        } else {
            proof {
                assert(self@.insert(name@) =~= self@);
            }
        }
    }

    /// Takes `name` out of the set.
    pub fn remove(&mut self, name: &str)
        ensures
            final(self)@ == old(self)@.remove(name@),
    {
        proof {
            use_type_invariant(&*self);
        }
        match self.find(name) {
            Some(k) => {
                let ghost old_names = self.names();
                let mut items: Vec<String> = Vec::new();
                std::mem::swap(&mut items, &mut self.items);
                assert(names_of(items@) == old_names);
                items.remove(k);
                assert(names_of(items@) =~= old_names.remove(k as int));
                self.items = items;
                proof {
                    let new_names = self.names();
                    assert(new_names =~= old_names.remove(k as int));
                    assert forall|y: Seq<char>|
                        new_names.to_set().contains(y) <==> old_names.to_set().remove(
                            name@,
                        ).contains(y) by {
                        if new_names.contains(y) {
                            let j = choose|j: int| 0 <= j < new_names.len() && new_names[j] == y;
                            if j < k {
                                assert(old_names[j] == y);
                            } else {
                                assert(old_names[j + 1] == y);
                            }
                        }
                        if old_names.contains(y) && y != name@ {
                            let j = choose|j: int| 0 <= j < old_names.len() && old_names[j] == y;
                            if j < k {
                                assert(new_names[j] == y);
                            } else {
                                assert(new_names[j - 1] == y);
                            }
                        }
                    }
                    assert(new_names.to_set() =~= old_names.to_set().remove(name@));
                }
            },
            None => {
                proof {
                    assert(self@.remove(name@) =~= self@);
                }
            },
        }
    }

    /// Empties the set.
    pub fn clear(&mut self)
        ensures
            final(self)@ == Set::<Seq<char>>::empty(),
    {
        self.items = Vec::new();
        proof {
            assert(self.names() =~= Seq::<Seq<char>>::empty());
            assert(self@ =~= Set::<Seq<char>>::empty());
        }
    }
}


/// Whether some string of `v` has the characters of `s`.
pub fn contains_name(v: &Vec<String>, s: &str) -> (r: bool)
    ensures
        r == names_of(v@).contains(s@),
{
    let mut i: usize = 0;
    while i < v.len()
        invariant
            i <= v@.len(),
            forall|j: int| 0 <= j < i ==> names_of(v@)[j] != s@,
        decreases v@.len() - i,
    {
        if str_eq(v[i].as_str(), s) {
            assert(names_of(v@)[i as int] == s@);
            return true;
        }
        i = i + 1;
    }
    false
}

/// The sources checked when the window opens: the preselected ones that are
/// available, or every available one where none of them is.
pub open spec fn initial_checked(sources: Seq<Seq<char>>, pre: Seq<Seq<char>>) -> Set<Seq<char>> {
    let chosen = Set::new(|x: Seq<char>| pre.contains(x) && sources.contains(x));
    if chosen == Set::<Seq<char>>::empty() {
        sources.to_set()
    } else {
        chosen
    }
}

/// The index above `idx` in a list of `len` rows, wrapping to the last.
pub open spec fn index_up(idx: nat, len: nat) -> nat {
    if len == 0 {
        idx
    } else if idx == 0 {
        (len - 1) as nat
    } else {
        (idx - 1) as nat
    }
}

/// The index below `idx` in a list of `len` rows, wrapping to the first.
pub open spec fn index_down(idx: nat, len: nat) -> nat {
    if len == 0 {
        idx
    } else if idx + 1 >= len {
        0
    } else {
        idx + 1
    }
}

/// The checked sources, in list order.
pub open spec fn checked_in_order(sources: Seq<Seq<char>>, checked: Set<Seq<char>>) -> Seq<
    Seq<char>,
>
    decreases sources.len(),
{
    if sources.len() == 0 {
        Seq::empty()
    } else {
        let rest = checked_in_order(sources.drop_last(), checked);
        if checked.contains(sources.last()) {
            rest.push(sources.last())
        } else {
            rest
        }
    }
}

/// The sources a search asks: the checked ones in list order, or, where
/// none is checked, the one under the cursor.
pub open spec fn selected_sources(sources: Seq<Seq<char>>, idx: nat, checked: Set<Seq<char>>) -> Seq<
    Seq<char>,
> {
    let list = checked_in_order(sources, checked);
    if list.len() == 0 && idx < sources.len() {
        seq![sources[idx as int]]
    } else {
        list
    }
}

/// The window that picks the sources to search.
#[derive(Debug)]
pub struct SourceSelectModal {
    pub sources: Vec<String>,
    pub selected_idx: usize,
    pub checked_sources: NameSet,
}

impl SourceSelectModal {
    /// The window over the available `sources`, with the cursor on the first
    /// and the preselected sources checked (all of them where none is
    /// available).
    pub fn new(sources: Vec<String>, preselected: &[String]) -> (r: SourceSelectModal)
        ensures
            r.sources@ == sources@,
            r.selected_idx == 0,
            r.checked_sources@ == initial_checked(names_of(sources@), names_of(preselected@)),
    {
        let mut checked = NameSet::new();
        let mut i: usize = 0;
        let ghost src = names_of(sources@);
        let ghost pre = names_of(preselected@);
        while i < preselected.len()
            invariant
                i <= pre.len(),
                src == names_of(sources@),
                pre == names_of(preselected@),
                checked@ == Set::new(
                    |x: Seq<char>| pre.subrange(0, i as int).contains(x) && src.contains(x),
                ),
            decreases pre.len() - i,
        {
            if contains_name(&sources, preselected[i].as_str()) {
                checked.insert(preselected[i].clone());
            }
            proof {
                assert(pre.subrange(0, i + 1) =~= pre.subrange(0, i as int).push(pre[i as int]));
            }
            i = i + 1;
            assert(checked@ =~= Set::new(
                |x: Seq<char>| pre.subrange(0, i as int).contains(x) && src.contains(x),
            ));
        }
        assert(pre.subrange(0, pre.len() as int) =~= pre);
        let ghost chosen = checked@;
        if checked.is_empty() {
            proof {
                checked.lemma_finite();
                assert(checked@ =~= Set::<Seq<char>>::empty());
            }
            let mut j: usize = 0;
            while j < sources.len()
                invariant
                    j <= src.len(),
                    src == names_of(sources@),
                    checked@ == src.subrange(0, j as int).to_set(),
                decreases src.len() - j,
            {
                checked.insert(sources[j].clone());
                proof {
                    assert(src.subrange(0, j + 1) =~= src.subrange(0, j as int).push(src[j as int]));
                }
                j = j + 1;
            }
            assert(src.subrange(0, src.len() as int) =~= src);
        } else {
            proof {
                checked.lemma_finite();
            }
        }
        SourceSelectModal { sources, selected_idx: 0, checked_sources: checked }
    }

    /// Checks or unchecks the source under the cursor.
    pub fn toggle_check(&mut self)
        ensures
            final(self).sources@ == old(self).sources@,
            final(self).selected_idx == old(self).selected_idx,
            final(self).checked_sources@ == (if old(self).selected_idx < old(self).sources@.len() {
                let x = old(self).sources@[old(self).selected_idx as int]@;
                if old(self).checked_sources@.contains(x) {
                    old(self).checked_sources@.remove(x)
                } else {
                    old(self).checked_sources@.insert(x)
                }
            } else {
                old(self).checked_sources@
            }),
    {
        if self.selected_idx < self.sources.len() {
            let src = self.sources[self.selected_idx].clone();
            if self.checked_sources.contains(src.as_str()) {
                self.checked_sources.remove(src.as_str());
            } else {
                self.checked_sources.insert(src);
            }
        }
    }

    /// Unchecks every source where all are checked, else checks them all.
    pub fn toggle_all(&mut self)
        ensures
            final(self).sources@ == old(self).sources@,
            final(self).selected_idx == old(self).selected_idx,
            final(self).checked_sources@ == (if old(self).checked_sources@.len()
                == old(self).sources@.len() {
                Set::<Seq<char>>::empty()
            } else {
                old(self).checked_sources@.union(names_of(old(self).sources@).to_set())
            }),
    {
        if self.checked_sources.len() == self.sources.len() {
            self.checked_sources.clear();
        } else {
            let ghost start = self.checked_sources@;
            let ghost src = names_of(self.sources@);
            let mut j: usize = 0;
            while j < self.sources.len()
                invariant
                    j <= src.len(),
                    src == names_of(self.sources@),
                    self.sources@ == old(self).sources@,
                    self.selected_idx == old(self).selected_idx,
                    self.checked_sources@ == start.union(src.subrange(0, j as int).to_set()),
                decreases src.len() - j,
            {
                let s = self.sources[j].clone();
                self.checked_sources.insert(s);
                proof {
                    assert(src.subrange(0, j + 1) =~= src.subrange(0, j as int).push(src[j as int]));
                    assert(start.union(src.subrange(0, j + 1).to_set()) =~= start.union(
                        src.subrange(0, j as int).to_set(),
                    ).insert(src[j as int]));
                }
                j = j + 1;
            }
            assert(src.subrange(0, src.len() as int) =~= src);
        }
    }

    /// Moves the cursor up, wrapping to the last source.
    pub fn move_up(&mut self)
        ensures
            final(self).sources@ == old(self).sources@,
            final(self).checked_sources@ == old(self).checked_sources@,
            final(self).selected_idx == index_up(
                old(self).selected_idx as nat,
                old(self).sources@.len(),
            ),
    {
        if self.sources.len() == 0 {
            return;
        }
        if self.selected_idx == 0 {
            self.selected_idx = self.sources.len() - 1;
        } else {
            self.selected_idx = self.selected_idx - 1;
        }
    }

    /// Moves the cursor down, wrapping to the first source.
    pub fn move_down(&mut self)
        ensures
            final(self).sources@ == old(self).sources@,
            final(self).checked_sources@ == old(self).checked_sources@,
            final(self).selected_idx == index_down(
                old(self).selected_idx as nat,
                old(self).sources@.len(),
            ),
    {
        if self.sources.len() == 0 {
            return;
        }
        if self.selected_idx >= self.sources.len() - 1 {
            self.selected_idx = 0;
        } else {
            self.selected_idx = self.selected_idx + 1;
        }
    }

    /// The sources a search asks: the checked ones in list order, or the one
    /// under the cursor where none is checked.
    pub fn get_selected_sources(&self) -> (r: Vec<String>)
        ensures
            names_of(r@) == selected_sources(
                names_of(self.sources@),
                self.selected_idx as nat,
                self.checked_sources@,
            ),
    {
        let ghost src = names_of(self.sources@);
        let ghost checked = self.checked_sources@;
        let mut list: Vec<String> = Vec::new();
        let mut i: usize = 0;
        while i < self.sources.len()
            invariant
                i <= src.len(),
                src == names_of(self.sources@),
                checked == self.checked_sources@,
                names_of(list@) == checked_in_order(src.subrange(0, i as int), checked),
            decreases src.len() - i,
        {
            proof {
                assert(src.subrange(0, i + 1).drop_last() =~= src.subrange(0, i as int));
            }
            if self.checked_sources.contains(self.sources[i].as_str()) {
                list.push(self.sources[i].clone());
                assert(names_of(list@) =~= checked_in_order(src.subrange(0, i + 1), checked));
            } else {
                assert(names_of(list@) =~= checked_in_order(src.subrange(0, i + 1), checked));
            }
            i = i + 1;
        }
        assert(src.subrange(0, src.len() as int) =~= src);
        if list.len() == 0 && self.selected_idx < self.sources.len() {
            list.push(self.sources[self.selected_idx].clone());
            assert(names_of(list@) =~= seq![src[self.selected_idx as int]]);
        }
        list
    }
}

} // verus!

verus! {

/// With the cursor on a source, moving up then down (or down then up)
/// brings it back to the same source.
pub proof fn lemma_cursor_round_trip(idx: nat, len: nat)
    requires
        idx < len,
    ensures
        index_down(index_up(idx, len), len) == idx,
        index_up(index_down(idx, len), len) == idx,
        index_up(idx, len) < len,
        index_down(idx, len) < len,
{
}

/// Checking the source under the cursor twice gives back the same set.
pub proof fn lemma_toggle_twice(checked: Set<Seq<char>>, x: Seq<char>)
    ensures
        ({
            let once = if checked.contains(x) {
                checked.remove(x)
            } else {
                checked.insert(x)
            };
            let twice = if once.contains(x) {
                once.remove(x)
            } else {
                once.insert(x)
            };
            twice == checked
        }),
{
    let once = if checked.contains(x) {
        checked.remove(x)
    } else {
        checked.insert(x)
    };
    let twice = if once.contains(x) {
        once.remove(x)
    } else {
        once.insert(x)
    };
    assert(twice =~= checked);
}

/// With the cursor on a source, a search always asks at least one source,
/// and every source it asks is in the list.
pub proof fn lemma_selection_not_empty(sources: Seq<Seq<char>>, idx: nat, checked: Set<Seq<char>>)
    requires
        idx < sources.len(),
    ensures
        selected_sources(sources, idx, checked).len() > 0,
        forall|i: int|
            0 <= i < selected_sources(sources, idx, checked).len() ==> sources.contains(
                #[trigger] selected_sources(sources, idx, checked)[i],
            ),
{
    lemma_checked_in_order_sub(sources, checked);
    assert(sources.contains(sources[idx as int]));
}

/// The checked sources in order are sources, and checked ones.
pub proof fn lemma_checked_in_order_sub(sources: Seq<Seq<char>>, checked: Set<Seq<char>>)
    ensures
        forall|i: int|
            0 <= i < checked_in_order(sources, checked).len() ==> sources.contains(
                #[trigger] checked_in_order(sources, checked)[i],
            ) && checked.contains(checked_in_order(sources, checked)[i]),
    decreases sources.len(),
{
    if sources.len() > 0 {
        let rest = sources.drop_last();
        lemma_checked_in_order_sub(rest, checked);
        let r = checked_in_order(sources, checked);
        assert forall|i: int| 0 <= i < r.len() implies sources.contains(#[trigger] r[i])
            && checked.contains(r[i]) by {
            let rr = checked_in_order(rest, checked);
            if i < rr.len() {
                assert(rr[i] == r[i]);
                let j = choose|j: int| 0 <= j < rest.len() && rest[j] == rr[i];
                assert(sources[j] == r[i]);
            } else {
                assert(r[i] == sources.last());
                assert(sources[sources.len() - 1] == r[i]);
            }
        }
    }
}

} // verus!
