//! A scraper source written in Lua: its name and code, and how the entries
//! its functions return become series, chapters and pages.

use vstd::prelude::*;
use crate::domain::favorite::{FavoriteManager, clean_title};
use crate::domain::chapter_number::number_in;
use crate::domain::manga::{Chapter, Manga, MangaView, Page};
use crate::paths::{file_stem, stem_of};
use crate::text::{
    chars_of, join, join_chars, opt_view, string_of, trim, trim_chars, views,
};

verus! {

/// `s` split at each `c` (the pieces between them, possibly empty).
pub open spec fn split_at_char(s: Seq<char>, c: char) -> Seq<Seq<char>>
    decreases s.len(),
{
    if s.len() == 0 {
        seq![Seq::empty()]
    } else {
        let rest = split_at_char(s.drop_last(), c);
        if s.last() == c {
            rest.push(Seq::empty())
        } else {
            rest.update(rest.len() - 1, rest.last().push(s.last()))
        }
    }
}

/// Splitting at a character gives at least one piece.
pub proof fn lemma_split_nonempty(s: Seq<char>, c: char)
    ensures
        split_at_char(s, c).len() >= 1,
    decreases s.len(),
{
    if s.len() > 0 {
        lemma_split_nonempty(s.drop_last(), c);
    }
}

/// The pieces, trimmed, without the empty ones.
pub open spec fn trimmed_nonempty(pieces: Seq<Seq<char>>) -> Seq<Seq<char>>
    decreases pieces.len(),
{
    if pieces.len() == 0 {
        pieces
    } else {
        let rest = trimmed_nonempty(pieces.drop_last());
        let t = trim(pieces.last());
        if t.len() == 0 {
            rest
        } else {
            rest.push(t)
        }
    }
}

/// A series name as a source gives it, on one line: its lines trimmed,
/// blank ones dropped, joined by single spaces.
pub open spec fn one_line(name: Seq<char>) -> Seq<char> {
    join(trimmed_nonempty(split_at_char(name, '\n')), " "@)
}

/// The name of a source read from the file `path`: the file's stem, else
/// `Unknown`.
pub open spec fn source_name_of(path: Seq<char>) -> Seq<char> {
    match stem_of(path) {
        Some(s) => s,
        None => "Unknown"@,
    }
}

/// The series a search entry stands for: kept where its name (on one line)
/// and address are not empty; the address is also its id.
pub open spec fn manga_entry(provider: Seq<char>, name: Seq<char>, url: Seq<char>, cover: Option<
    Seq<char>,
>) -> Option<MangaView> {
    let title = one_line(name);
    if title.len() > 0 && url.len() > 0 {
        Some(MangaView { id: url, title, url, cover_url: cover, provider })
    } else {
        None
    }
}

/// The number a chapter entry gets: the one the source gave, else the one
/// written in the cleaned title, else the one in the raw name.
pub open spec fn entry_number(hint: Option<Seq<char>>, name: Seq<char>) -> Option<Seq<char>> {
    match hint {
        Some(h) => Some(h),
        None => match number_in(clean_title(clean_title(name))) {
            Some(n) => Some(n),
            None => number_in(clean_title(name)),
        },
    }
}

/// A scraper source: its name and Lua code.
pub struct LuaScraper {
    pub name: String,
    pub lua_code: String,
}

impl LuaScraper {
    /// A source with the given name and code.
    pub fn from_string(name: &str, code: &str) -> (r: LuaScraper)
        ensures
            r.name@ == name@,
            r.lua_code@ == code@,
    {
        LuaScraper { name: String::from_str(name), lua_code: String::from_str(code) }
    }

    /// The source read from the file `path`, whose text is `code`: named by
    /// the file's stem.
    pub fn from_file_contents(path: &str, code: String) -> (r: LuaScraper)
        ensures
            r.name@ == source_name_of(path@),
            r.lua_code@ == code@,
    {
        let name = match file_stem(path) {
            Some(s) => s,
            None => String::from_str("Unknown"),
        };
        LuaScraper { name, lua_code: code }
    }

    /// A series name on one line.
    pub fn one_line_name(name: &str) -> (r: String)
        ensures
            r@ == one_line(name@),
    {
        let v = chars_of(name);
        let mut pieces: Vec<Vec<char>> = Vec::new();
        let mut current: Vec<char> = Vec::new();
        let mut i: usize = 0;
        assert(split_at_char(v@.subrange(0, 0), '\n') =~= seq![Seq::<char>::empty()]);
        while i < v.len()
            invariant
                i <= v@.len(),
                split_at_char(v@.subrange(0, i as int), '\n') == views(pieces@).push(current@),
            decreases v@.len() - i,
        {
            proof {
                assert(v@.subrange(0, i + 1).drop_last() =~= v@.subrange(0, i as int));
            }
            if v[i] == '\n' {
                let done = current;
                let ghost pv = views(pieces@);
                pieces.push(done);
                current = Vec::new();
                proof {
                    assert(views(pieces@) =~= pv.push(done@));
                    assert(views(pieces@).push(current@) =~= pv.push(done@).push(Seq::empty()));
                }
            } else {
                let ghost before = views(pieces@).push(current@);
                current.push(v[i]);
                proof {
                    assert(views(pieces@).push(current@) =~= before.update(
                        before.len() - 1,
                        before.last().push(v@[i as int]),
                    ));
                }
            }
            i = i + 1;
        }
        assert(v@.subrange(0, v@.len() as int) =~= v@);
        let ghost pv = views(pieces@);
        let ghost cv = current@;
        pieces.push(current);
        let ghost all = views(pieces@);
        assert(all =~= pv.push(cv));
        assert(all == split_at_char(name@, '\n'));
        let mut kept: Vec<Vec<char>> = Vec::new();
        let mut j: usize = 0;
        while j < pieces.len()
            invariant
                j <= pieces@.len(),
                all == views(pieces@),
                views(kept@) == trimmed_nonempty(all.subrange(0, j as int)),
            decreases pieces@.len() - j,
        {
            proof {
                assert(all.subrange(0, j + 1).drop_last() =~= all.subrange(0, j as int));
            }
            let t = trim_chars(&pieces[j]);
            if t.len() > 0 {
                let ghost kb = views(kept@);
                kept.push(t);
                assert(views(kept@) =~= kb.push(t@));
            }
            j = j + 1;
        }
        assert(all.subrange(0, all.len() as int) =~= all);
        let joined = join_chars(&kept, &chars_of(" "));
        string_of(joined.as_slice())
    }

    /// The series a search entry stands for, where its name and address are
    /// not empty.
    pub fn manga_from_entry(provider: &str, name: &str, url: String, cover: Option<String>) -> (r:
        Option<Manga>)
        ensures
            match r {
                Some(m) => manga_entry(provider@, name@, url@, opt_view(cover)) == Some(m@),
                None => manga_entry(provider@, name@, url@, opt_view(cover)) is None,
            },
    {
        let title = Self::one_line_name(name);
        if chars_of(title.as_str()).len() > 0 && chars_of(url.as_str()).len() > 0 {
            Some(
                Manga {
                    id: url.clone(),
                    title,
                    url,
                    cover_url: cover,
                    provider: String::from_str(provider),
                },
            )
        } else {
            None
        }
    }

    /// The chapter a chapter entry stands for, where its cleaned name and
    /// address are not empty.
    pub fn chapter_from_entry(
        manga_url: &str,
        name: &str,
        url: String,
        number_hint: Option<String>,
    ) -> (r: Option<Chapter>)
        ensures
            match r {
                Some(c) => clean_title(name@).len() > 0 && url@.len() > 0 && c.id@ == url@ && c.url@
                    == url@ && c.manga_id@ == manga_url@ && c.title@ == clean_title(name@)
                    && opt_view(c.number) == entry_number(opt_view(number_hint), name@),
                None => clean_title(name@).len() == 0 || url@.len() == 0,
            },
    {
        let clean = FavoriteManager::clean_chapter_title(name);
        if chars_of(clean.as_str()).len() == 0 || chars_of(url.as_str()).len() == 0 {
            return None;
        }
        let number = match number_hint {
            Some(h) => Some(h),
            None => match Chapter::parse_number_from_title(clean.as_str()) {
                Some(n) => Some(n),
                None => Chapter::parse_number_from_title(name),
            },
        };
        Some(
            Chapter {
                id: url.clone(),
                manga_id: String::from_str(manga_url),
                title: clean,
                url,
                number,
            },
        )
    }

    /// The page a page entry stands for, where its address is not empty:
    /// at the index the source gave, else at its position in the list.
    pub fn page_from_entry(url: String, index: Option<usize>, position: usize) -> (r: Option<Page>)
        ensures
            match r {
                Some(p) => url@.len() > 0 && p.url == url && p.index == (match index {
                    Some(i) => i,
                    None => position,
                }),
                None => url@.len() == 0,
            },
    {
        if chars_of(url.as_str()).len() == 0 {
            return None;
        }
        let idx = match index {
            Some(i) => i,
            None => position,
        };
        Some(Page { index: idx, url })
    }
}

} // verus!
