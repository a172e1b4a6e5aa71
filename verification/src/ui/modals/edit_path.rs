//! The window that edits the download folder, with completion of folder
//! names on Tab.

use vstd::prelude::*;
use crate::config::platform_home_dir;
use crate::order::{pair_seq, sort_by_key, sort_pairs_by_key};
use crate::paths::{join_path, path_join};
use crate::i18n::{AppLanguage, I18n, pick};
use crate::text::{
    byte_len, chars_of, cut_falls_on_char, cut_on_char, ellipsize, ellipsized, is_control, is_control_char,
    last_index_of, opt_view, pop_char, push_char, rfind_char, slice_chars, starts_with, starts_with_chars,
    str_eq, string_of, to_lowercase, trim, trim_chars, trim_str, unicode_lower, utf8_len, without_last,
};
use crate::ui::modals::styled::{Tone, pieces_view};

verus! {

/// The folder names a completion cycles through.
pub struct AutocompleteState {
    pub base_dir: String,
    pub matches: Vec<String>,
    pub current_index: usize,
}

/// A completion in progress: the folder typed so far, the matching names,
/// and which one is shown.
pub struct CompletionView {
    pub base_dir: Seq<char>,
    pub matches: Seq<Seq<char>>,
    pub current_index: nat,
}

/// The path being edited and the completion in progress.
pub struct EditPathView {
    pub input_path: Seq<char>,
    pub completion: Option<CompletionView>,
}

/// The folder to list for a completion: the folder as typed, where it is on
/// disk, and the start of the name to complete.
pub struct DirListing {
    pub resolved_dir: String,
    pub base_dir: String,
    pub prefix: String,
}

/// The views of a list of strings.
pub open spec fn strs(v: Seq<String>) -> Seq<Seq<char>> {
    v.map_values(|s: String| s@)
}

/// Edits the download folder.
pub struct EditPathModal {
    pub input_path: String,
    pub autocomplete_state: Option<AutocompleteState>,
}

impl View for EditPathModal {
    type V = EditPathView;

    open spec fn view(&self) -> EditPathView {
        EditPathView {
            input_path: self.input_path@,
            completion: match self.autocomplete_state {
                Some(s) => Some(
                    CompletionView {
                        base_dir: s.base_dir@,
                        matches: strs(s.matches@),
                        current_index: s.current_index as nat,
                    },
                ),
                None => None,
            },
        }
    }
}

/// The text typed split at its last `/` (else its last `\`): the folder
/// part with the separator, and the start of the name.
pub open spec fn split_typed(raw: Seq<char>) -> (Seq<char>, Seq<char>) {
    let k = last_index_of(raw, '/');
    let b = last_index_of(raw, '\\');
    if k >= 0 {
        (raw.subrange(0, k + 1), raw.subrange(k + 1, raw.len() as int))
    } else if b >= 0 {
        (raw.subrange(0, b + 1), raw.subrange(b + 1, raw.len() as int))
    } else {
        (Seq::empty(), raw)
    }
}

/// The folder on disk that the typed folder part names: `~` and `~/...`
/// are taken from the home folder, and nothing typed is the current folder.
pub open spec fn resolve_dir(base: Seq<char>, home: Option<Seq<char>>) -> Seq<char> {
    if starts_with(base, "~/"@) {
        match home {
            Some(h) => join_path(h, base.subrange(2, base.len() as int)),
            None => base,
        }
    } else if base == "~"@ {
        match home {
            Some(h) => h,
            None => "."@,
        }
    } else if base.len() == 0 {
        "."@
    } else {
        base
    }
}

/// What Tab does before any folder is read: the next name where a
/// completion is in progress, the home folder where nothing is typed, and
/// otherwise the folder to list (with the state unchanged).
pub open spec fn begin_step(m: EditPathView, home: Option<Seq<char>>) -> (
    EditPathView,
    Option<(Seq<char>, Seq<char>, Seq<char>)>,
) {
    match m.completion {
        Some(c) if c.matches.len() > 0 => {
            let i = (c.current_index + 1) % c.matches.len();
            (
                EditPathView {
                    input_path: c.base_dir + c.matches[i as int] + "/"@,
                    completion: Some(CompletionView { current_index: i as nat, ..c }),
                },
                None,
            )
        },
        _ => {
            let raw = trim(m.input_path);
            if raw.len() == 0 {
                (
                    EditPathView {
                        input_path: match home {
                            Some(h) => h + "/"@,
                            None => "./"@,
                        },
                        ..m
                    },
                    None,
                )
            } else {
                let (base, prefix) = split_typed(raw);
                (m, Some((resolve_dir(base, home), base, prefix)))
            }
        },
    }
}

/// The folder names that complete `prefix`: compared lower-cased, and
/// hidden folders only where the prefix itself starts with a dot.
pub open spec fn completions(names: Seq<Seq<char>>, prefix: Seq<char>) -> Seq<Seq<char>>
    decreases names.len(),
{
    if names.len() == 0 {
        names
    } else {
        let rest = completions(names.drop_last(), prefix);
        let n = names.last();
        let hidden = starts_with(n, "."@) && !starts_with(prefix, "."@);
        if !hidden && starts_with(unicode_lower(n), unicode_lower(prefix)) {
            rest.push(n)
        } else {
            rest
        }
    }
}

/// The names sorted by their lower-cased form, stably.
pub open spec fn sort_lowercase(names: Seq<Seq<char>>) -> Seq<Seq<char>> {
    sort_by_key(names.map_values(|n: Seq<char>| (unicode_lower(n), n))).map_values(
        |p: (Seq<char>, Seq<char>)| p.1,
    )
}

/// `p` shortened until `s` starts with it (comparing lower-cased); `None`
/// where even the empty prefix does not do.
pub open spec fn shrink_prefix(p: Seq<char>, s: Seq<char>) -> Option<Seq<char>>
    decreases p.len(),
{
    if starts_with(unicode_lower(s), unicode_lower(p)) {
        Some(p)
    } else if p.len() == 0 {
        None
    } else {
        shrink_prefix(p.drop_last(), s)
    }
}

/// The common prefix of `p` and the names of `rest`.
pub open spec fn common_from(p: Seq<char>, rest: Seq<Seq<char>>) -> Seq<char>
    decreases rest.len(),
{
    if rest.len() == 0 {
        p
    } else {
        match shrink_prefix(p, rest[0]) {
            Some(q) => common_from(q, rest.drop_first()),
            None => Seq::empty(),
        }
    }
}

/// The longest start of the first name that every name starts with
/// (compared lower-cased).
pub open spec fn common_prefix(names: Seq<Seq<char>>) -> Seq<char> {
    if names.len() == 0 {
        Seq::empty()
    } else {
        common_from(names[0], names.drop_first())
    }
}

/// What Tab does once the folder was read: the path completed as far as
/// the matching names allow, and the completion state for further Tabs.
pub open spec fn finish_step(
    m: EditPathView,
    base: Seq<char>,
    prefix: Seq<char>,
    names: Seq<Seq<char>>,
) -> EditPathView {
    let found = completions(names, prefix);
    if found.len() == 0 {
        m
    } else {
        let sorted = sort_lowercase(found);
        let common = common_prefix(sorted);
        let input = if sorted.len() == 1 {
            base + sorted[0] + "/"@
        } else if utf8_len(common) > utf8_len(prefix) {
            if sorted.contains(common) {
                base + common + "/"@
            } else {
                base + common
            }
        } else {
            base + sorted[0] + "/"@
        };
        EditPathView {
            input_path: input,
            completion: Some(CompletionView { base_dir: base, matches: sorted, current_index: 0 }),
        }
    }
}

fn concat3(a: &str, b: &str, c: &str) -> (r: String)
    ensures
        r@ == a@ + b@ + c@,
{
    let mut s = String::from_str(a);
    s.append(b);
    s.append(c);
    s
}

fn shrink_exec(p: String, s: &str) -> (r: Option<String>)
    ensures
        opt_view(r) == shrink_prefix(p@, s@),
    decreases p@.len(),
{
    let ls = chars_of(to_lowercase(s).as_str());
    let mut cur = p;
    loop
        invariant
            ls@ == unicode_lower(s@),
            shrink_prefix(p@, s@) == shrink_prefix(cur@, s@),
        decreases cur@.len(),
    {
        let lp = chars_of(to_lowercase(cur.as_str()).as_str());
        if starts_with_chars(&ls, &lp) {
            return Some(cur);
        }
        if chars_of(cur.as_str()).len() == 0 {
            return None;
        }
        pop_char(&mut cur);
    }
}

/// The longest start of the first name that every name starts with.
pub fn find_common_prefix(strs_in: &Vec<String>) -> (r: String)
    ensures
        r@ == common_prefix(strs(strs_in@)),
{
    if strs_in.len() == 0 {
        return String::new();
    }
    let ghost all = strs(strs_in@);
    let mut prefix = strs_in[0].clone();
    let mut i: usize = 1;
    assert(all.drop_first() =~= all.subrange(1, all.len() as int));
    while i < strs_in.len()
        invariant
            1 <= i <= strs_in@.len(),
            all == strs(strs_in@),
            common_prefix(all) == common_from(prefix@, all.subrange(i as int, all.len() as int)),
        decreases strs_in@.len() - i,
    {
        let ghost rest = all.subrange(i as int, all.len() as int);
        proof {
            assert(rest[0] == strs_in@[i as int]@);
            assert(rest.drop_first() =~= all.subrange(i + 1, all.len() as int));
        }
        match shrink_exec(prefix, strs_in[i].as_str()) {
            Some(q) => {
                prefix = q;
            },
            None => {
                return String::new();
            },
        }
        i = i + 1;
    }
    assert(all.subrange(i as int, all.len() as int).len() == 0);
    prefix
}

impl EditPathModal {
    /// The editor opened on the current folder.
    pub fn new(current_path: &str) -> (r: EditPathModal)
        ensures
            r@ == (EditPathView { input_path: current_path@, completion: None }),
    {
        EditPathModal { input_path: String::from_str(current_path), autocomplete_state: None }
    }

    /// A typed character: control characters are ignored; any other ends
    /// the completion and is appended.
    pub fn handle_char(&mut self, c: char)
        ensures
            final(self)@ == (if is_control_char(c) {
                old(self)@
            } else {
                EditPathView { input_path: old(self)@.input_path.push(c), completion: None }
            }),
    {
        if is_control(c) {
            return;
        }
        self.autocomplete_state = None;
        push_char(&mut self.input_path, c);
    }

    /// Backspace: ends the completion and removes the last character.
    pub fn handle_backspace(&mut self)
        ensures
            final(self)@ == (EditPathView {
                input_path: without_last(old(self)@.input_path),
                completion: None,
            }),
    {
        self.autocomplete_state = None;
        pop_char(&mut self.input_path);
    }

    /// Tab: completes the path. Returns the folder the caller must list
    /// (its folder names then go to `autocomplete_finish`), or `None` where
    /// Tab was handled without reading a folder.
    pub fn autocomplete_path(&mut self) -> (r: Option<DirListing>)
        ensures
            exists|home: Option<Seq<char>>|
                #![trigger begin_step(old(self)@, home)]
                begin_step(old(self)@, home).0 == final(self)@ && (match r {
                    Some(l) => begin_step(old(self)@, home).1 == Some(
                        (l.resolved_dir@, l.base_dir@, l.prefix@),
                    ),
                    None => begin_step(old(self)@, home).1 is None,
                }),
    {
        let home = platform_home_dir();
        self.autocomplete_begin(home)
    }

    /// Tab, with the user's home folder given: see `begin_step`.
    pub fn autocomplete_begin(&mut self, home: Option<String>) -> (r: Option<DirListing>)
        ensures
            begin_step(old(self)@, opt_view(home)).0 == final(self)@,
            match r {
                Some(l) => begin_step(old(self)@, opt_view(home)).1 == Some(
                    (l.resolved_dir@, l.base_dir@, l.prefix@),
                ),
                None => begin_step(old(self)@, opt_view(home)).1 is None,
            },
    {
        let cycling = match &self.autocomplete_state {
            Some(st) => st.matches.len() > 0,
            None => false,
        };
        if cycling {
            let st = self.autocomplete_state.take().unwrap();
            let n = st.matches.len();
            let c = st.current_index % n;
            let i = if c + 1 == n { 0 } else { c + 1 };
            proof {
                let idx = st.current_index as int;
                let nn = n as int;
                vstd::arithmetic::div_mod::lemma_add_mod_noop(idx, 1, nn);
                if n > 1 {
                    vstd::arithmetic::div_mod::lemma_small_mod(1, n as nat);
                }
                if c + 1 < n {
                    vstd::arithmetic::div_mod::lemma_small_mod((c + 1) as nat, n as nat);
                } else {
                    vstd::arithmetic::div_mod::lemma_mod_self_0(nn);
                }
                assert(i == (st.current_index + 1) % (n as int));
            }
            let choice = st.matches[i].clone();
            self.input_path = concat3(st.base_dir.as_str(), choice.as_str(), "/");
            self.autocomplete_state = Some(
                AutocompleteState { base_dir: st.base_dir, matches: st.matches, current_index: i },
            );
            return None;
        }
        let raw = trim_str(self.input_path.as_str());
        let rv = chars_of(raw.as_str());
        if rv.len() == 0 {
            self.input_path = match home {
                Some(h) => concat3(h.as_str(), "/", ""),
                None => String::from_str("./"),
            };
            proof {
                reveal_strlit("");
                assert(self.input_path@ =~= match opt_view(home) {
                    Some(h) => h + "/"@,
                    None => "./"@,
                });
            }
            return None;
        }
        let (base, prefix) = match rfind_char(&rv, '/') {
            Some(k) => (slice_chars(&rv, 0, k + 1), slice_chars(&rv, k + 1, rv.len())),
            None => match rfind_char(&rv, '\\') {
                Some(b) => (slice_chars(&rv, 0, b + 1), slice_chars(&rv, b + 1, rv.len())),
                None => (Vec::new(), slice_chars(&rv, 0, rv.len())),
            },
        };
        proof {
            assert(base@ =~= split_typed(raw@).0);
            assert(prefix@ =~= split_typed(raw@).1);
        }
        let base_s = string_of(base.as_slice());
        let tilde = chars_of("~/");
        let resolved = if starts_with_chars(&base, &tilde) {
            match &home {
                Some(h) => {
                    proof {
                        reveal_strlit("~/");
                    }
                    let rest = string_of(slice_chars(&base, 2, base.len()).as_slice());
                    path_join(h.as_str(), rest.as_str())
                },
                None => base_s.clone(),
            }
        } else if str_eq(base_s.as_str(), "~") {
            match &home {
                Some(h) => h.clone(),
                None => String::from_str("."),
            }
        } else if base.len() == 0 {
            String::from_str(".")
        } else {
            base_s.clone()
        };
        Some(DirListing { resolved_dir: resolved, base_dir: base_s, prefix: string_of(prefix.as_slice()) })
    }

    /// The folder names read for a completion (in the order the folder gave
    /// them): see `finish_step`.
    pub fn autocomplete_finish(&mut self, listing: DirListing, dir_names: Vec<String>)
        ensures
            final(self)@ == finish_step(
                old(self)@,
                listing.base_dir@,
                listing.prefix@,
                strs(dir_names@),
            ),
    {
        let ghost names = strs(dir_names@);
        let prefix = listing.prefix;
        let base = listing.base_dir;
        let pv = chars_of(prefix.as_str());
        let lp = chars_of(to_lowercase(prefix.as_str()).as_str());
        let dot = chars_of(".");
        let prefix_dot = starts_with_chars(&pv, &dot);
        let mut keyed: Vec<(String, String)> = Vec::new();
        let mut i: usize = 0;
        while i < dir_names.len()
            invariant
                i <= dir_names@.len(),
                names == strs(dir_names@),
                pv@ == prefix@,
                lp@ == unicode_lower(prefix@),
                dot@ == "."@,
                prefix_dot == starts_with(prefix@, "."@),
                pair_seq(keyed@) == completions(names.subrange(0, i as int), prefix@).map_values(
                    |n: Seq<char>| (unicode_lower(n), n),
                ),
            decreases dir_names@.len() - i,
        {
            let name = dir_names[i].as_str();
            let nv = chars_of(name);
            let lower = to_lowercase(name);
            let hidden = starts_with_chars(&nv, &dot) && !prefix_dot;
            let ghost before = completions(names.subrange(0, i as int), prefix@);
            proof {
                assert(names.subrange(0, i + 1).drop_last() =~= names.subrange(0, i as int));
                assert(names.subrange(0, i + 1).last() == name@);
            }
            if !hidden && starts_with_chars(&chars_of(lower.as_str()), &lp) {
                let ghost kb = pair_seq(keyed@);
                let ghost lv = lower@;
                keyed.push((lower, String::from_str(name)));
                proof {
                    assert(pair_seq(keyed@) =~= kb.push((lv, name@)));
                    assert(before.push(name@).map_values(|n: Seq<char>| (unicode_lower(n), n))
                        =~= before.map_values(|n: Seq<char>| (unicode_lower(n), n)).push(
                        (unicode_lower(name@), name@),
                    ));
                }
            }
            i = i + 1;
        }
        assert(names.subrange(0, names.len() as int) =~= names);
        let ghost found = completions(names, prefix@);
        if keyed.len() == 0 {
            return;
        }
        let sorted_pairs = sort_pairs_by_key(keyed);
        let mut matches: Vec<String> = Vec::new();
        let mut j: usize = 0;
        while j < sorted_pairs.len()
            invariant
                j <= sorted_pairs@.len(),
                strs(matches@) == pair_seq(sorted_pairs@).subrange(0, j as int).map_values(
                    |p: (Seq<char>, Seq<char>)| p.1,
                ),
            decreases sorted_pairs@.len() - j,
        {
            let ghost mb = strs(matches@);
            let item = sorted_pairs[j].1.clone();
            proof {
                assert(pair_seq(sorted_pairs@)[j as int].1 == item@);
            }
            matches.push(item);
            proof {
                assert(strs(matches@) =~= mb.push(pair_seq(sorted_pairs@)[j as int].1));
                assert(pair_seq(sorted_pairs@).subrange(0, j + 1).map_values(
                    |p: (Seq<char>, Seq<char>)| p.1,
                ) =~= pair_seq(sorted_pairs@).subrange(0, j as int).map_values(
                    |p: (Seq<char>, Seq<char>)| p.1,
                ).push(pair_seq(sorted_pairs@)[j as int].1));
            }
            j = j + 1;
        }
        assert(pair_seq(sorted_pairs@).subrange(0, sorted_pairs@.len() as int) =~= pair_seq(
            sorted_pairs@,
        ));
        assert(strs(matches@) == sort_lowercase(found));
        let common = find_common_prefix(&matches);
        let input = if matches.len() == 1 {
            concat3(base.as_str(), matches[0].as_str(), "/")
        } else if byte_len(common.as_str()) > byte_len(prefix.as_str()) {
            let mut exact = false;
            let mut k: usize = 0;
            while k < matches.len()
                invariant
                    k <= matches@.len(),
                    exact == strs(matches@).subrange(0, k as int).contains(common@),
                decreases matches@.len() - k,
            {
                proof {
                    assert(strs(matches@).subrange(0, k + 1) =~= strs(matches@).subrange(
                        0,
                        k as int,
                    ).push(matches@[k as int]@));
                }
                let ghost sub = strs(matches@).subrange(0, k + 1);
                if str_eq(matches[k].as_str(), common.as_str()) {
                    exact = true;
                    proof {
                        assert(sub[k as int] == common@);
                    }
                } else {
                    proof {
                        if sub.contains(common@) {
                            let w = choose|w: int| 0 <= w < sub.len() && sub[w] == common@;
                            assert(w != k);
                            assert(strs(matches@).subrange(0, k as int)[w] == common@);
                        }
                    }
                }
                proof {
                    if strs(matches@).subrange(0, k as int).contains(common@) {
                        let w = choose|w: int|
                            0 <= w < k && strs(matches@).subrange(0, k as int)[w] == common@;
                        assert(sub[w] == common@);
                    }
                }
                k = k + 1;
            }
            assert(strs(matches@).subrange(0, matches@.len() as int) =~= strs(matches@));
            if exact {
                concat3(base.as_str(), common.as_str(), "/")
            } else {
                proof {
                    reveal_strlit("");
                }
                concat3(base.as_str(), common.as_str(), "")
            }
        } else {
            concat3(base.as_str(), matches[0].as_str(), "/")
        };
        proof {
            assert(input@ =~= finish_step(old(self)@, base@, prefix@, names).input_path);
        }
        self.input_path = input;
        self.autocomplete_state = Some(AutocompleteState { base_dir: base, matches, current_index: 0 });
    }
}

fn pick_str(lang: AppLanguage, en: &'static str, pt: &'static str) -> (r: &'static str)
    ensures
        r@ == pick(lang, en@, pt@),
{
    match lang {
        AppLanguage::English => en,
        AppLanguage::Portuguese => pt,
    }
}

/// What the line under the box says of the typed path: an existing folder,
/// a folder that will be created, or nothing typed.
pub open spec fn path_status_text(typed: Seq<char>, is_dir: bool, lang: AppLanguage) -> (Seq<char>, Tone) {
    if is_dir {
        (pick(lang, "✓ Accessible directory found"@, "✓ Diretório existente e acessível"@), Tone::Positive)
    } else if trim(typed).len() > 0 {
        (pick(lang, "ℹ New directory: will be created automatically upon download"@,
            "ℹ Novo diretório: será criado automaticamente ao baixar"@), Tone::Warning)
    } else {
        (pick(lang, "✗ Path cannot be empty"@, "✗ Caminho não pode estar vazio"@), Tone::Failure)
    }
}

/// The keys offered at the foot of the window.
pub open spec fn edit_path_footer_text(lang: AppLanguage) -> Seq<(Seq<char>, Tone)> {
    seq![
        ("[Tab] "@, Tone::Key),
        (pick(lang, "Autocomplete   "@, "Autocompletar   "@), Tone::Plain),
        ("[Enter] "@, Tone::Key),
        (pick(lang, "Confirm   "@, "Confirmar   "@), Tone::Plain),
        ("[Esc] "@, Tone::Key),
        (pick(lang, "Cancel"@, "Cancelar"@), Tone::Plain),
    ]
}

impl EditPathModal {
    /// The title of the window.
    pub fn title(lang: AppLanguage) -> (r: &'static str)
        ensures
            r@ == pick(lang, " 󰉋 Output / Download Directory "@, " 󰉋 Diretório de Download / Saída "@),
    {
        pick_str(lang, " 󰉋 Output / Download Directory ", " 󰉋 Diretório de Download / Saída ")
    }

    /// The title of the input box.
    pub fn input_title(lang: AppLanguage) -> (r: &'static str)
        ensures
            r@ == pick(lang, " Directory Path "@, " Caminho da Pasta "@),
    {
        pick_str(lang, " Directory Path ", " Caminho da Pasta ")
    }

    /// Whether the box can show the typed path: it cuts a path of more than
    /// 55 bytes 52 bytes before its end, which must fall between two
    /// characters.
    pub fn path_fits_box(&self) -> (r: bool)
        ensures
            r == cut_on_char(self@.input_path, 55, 52),
    {
        cut_falls_on_char(self.input_path.as_str(), 55, 52)
    }

    /// What the box shows of the typed path: a path of more than 55 bytes
    /// shows as `...` and its last 52 bytes.
    pub fn path_display(&self) -> (r: String)
        requires
            cut_on_char(self@.input_path, 55, 52),
        ensures
            r@ == ellipsized(self@.input_path, 55, 52),
    {
        ellipsize(self.input_path.as_str(), 55, 52)
    }

    /// What the line under the box says, given whether the typed path
    /// names an existing folder.
    pub fn path_status(&self, is_dir: bool, lang: AppLanguage) -> (r: (&'static str, Tone))
        ensures
            (r.0@, r.1) == path_status_text(self@.input_path, is_dir, lang),
    {
        if is_dir {
            (I18n::dir_valid(lang), Tone::Positive)
        } else if trim_chars(&chars_of(self.input_path.as_str())).len() > 0 {
            (I18n::dir_will_create(lang), Tone::Warning)
        } else {
            (I18n::dir_empty_err(lang), Tone::Failure)
        }
    }

    /// The keys offered at the foot of the window.
    pub fn footer(lang: AppLanguage) -> (r: Vec<(&'static str, Tone)>)
        ensures
            pieces_view(r@) == edit_path_footer_text(lang),
    {
        let r = vec![
            ("[Tab] ", Tone::Key),
            (pick_str(lang, "Autocomplete   ", "Autocompletar   "), Tone::Plain),
            ("[Enter] ", Tone::Key),
            (pick_str(lang, "Confirm   ", "Confirmar   "), Tone::Plain),
            ("[Esc] ", Tone::Key),
            (pick_str(lang, "Cancel", "Cancelar"), Tone::Plain),
        ];
        assert(pieces_view(r@) =~= edit_path_footer_text(lang));
        r
    }
}

} // verus!
