//! The list of favorite series and the cleaning of chapter titles.

use vstd::prelude::*;
use crate::domain::manga::{Manga, MangaView};
use crate::text::{
    chars_of, clone_opt, contains_char, contains_char_exec, dec, decimal, find, find_chars, join,
    join_chars, opt_view, slice_chars, split_words, string_of, str_eq, trim, trim_chars, utf8_len,
    utf8_len_at_least, views, words,
};

verus! {

/// A series the user marked as favorite, with what was last downloaded of it.
#[derive(Debug, Clone, PartialEq, Eq)]
pub struct FavoriteManga {
    pub url: String,
    pub title: String,
    pub provider: String,
    pub cover_url: Option<String>,
    pub last_downloaded_chapter: Option<String>,
    pub last_downloaded_at: Option<String>,
}

/// The fields of a favorite.
pub struct FavoriteView {
    pub url: Seq<char>,
    pub title: Seq<char>,
    pub provider: Seq<char>,
    pub cover_url: Option<Seq<char>>,
    pub last_downloaded_chapter: Option<Seq<char>>,
    pub last_downloaded_at: Option<Seq<char>>,
}

impl View for FavoriteManga {
    type V = FavoriteView;

    open spec fn view(&self) -> FavoriteView {
        FavoriteView {
            url: self.url@,
            title: self.title@,
            provider: self.provider@,
            cover_url: opt_view(self.cover_url),
            last_downloaded_chapter: opt_view(self.last_downloaded_chapter),
            last_downloaded_at: opt_view(self.last_downloaded_at),
        }
    }
}

/// The favorite made of a series, with nothing downloaded yet.
pub open spec fn favorite_of(m: MangaView) -> FavoriteView {
    FavoriteView {
        url: m.url,
        title: m.title,
        provider: m.provider,
        cover_url: m.cover_url,
        last_downloaded_chapter: None,
        last_downloaded_at: None,
    }
}

/// The series a favorite stands for; its id is its address.
pub open spec fn manga_of(f: FavoriteView) -> MangaView {
    MangaView { id: f.url, title: f.title, url: f.url, cover_url: f.cover_url, provider: f.provider }
}

/// The views of a list of favorites.
pub open spec fn fav_views(s: Seq<FavoriteManga>) -> Seq<FavoriteView> {
    s.map_values(|f: FavoriteManga| f@)
}

/// The index of the first favorite with the address `url`.
pub open spec fn first_with_url(favs: Seq<FavoriteView>, url: Seq<char>) -> Option<int>
    decreases favs.len(),
{
    if favs.len() == 0 {
        None
    } else if favs[0].url == url {
        Some(0)
    } else {
        match first_with_url(favs.drop_first(), url) {
            Some(i) => Some(i + 1),
            None => None,
        }
    }
}

/// Where no favorite before `i` has the address, the first with it is `i`
/// (where `i` has it), or there is none (where `i` is the end).
pub proof fn lemma_first_with_url(favs: Seq<FavoriteView>, url: Seq<char>, i: int)
    requires
        0 <= i <= favs.len(),
        forall|j: int| 0 <= j < i ==> favs[j].url != url,
    ensures
        i < favs.len() && favs[i].url == url ==> first_with_url(favs, url) == Some(i),
        i == favs.len() ==> first_with_url(favs, url) is None,
    decreases i,
{
    if i > 0 {
        lemma_first_with_url(favs.drop_first(), url, i - 1);
    } else if favs.len() > 0 && i == favs.len() {
    }
}

/// The favorite found first has the address and none before it does; where
/// none is found, no favorite has it.
pub proof fn lemma_first_with_url_found(favs: Seq<FavoriteView>, url: Seq<char>)
    ensures
        first_with_url(favs, url) matches Some(i) ==> 0 <= i < favs.len() && favs[i].url == url
            && forall|j: int| 0 <= j < i ==> favs[j].url != url,
        first_with_url(favs, url) is None ==> forall|j: int|
            0 <= j < favs.len() ==> favs[j].url != url,
    decreases favs.len(),
{
    if favs.len() > 0 {
        lemma_first_with_url_found(favs.drop_first(), url);
        if favs[0].url != url {
            assert forall|j: int| 0 < j < favs.len() implies favs[j] == favs.drop_first()[j - 1] by {
            }
        }
    }
}

/// Whether some favorite has the address `url`.
pub open spec fn has_url(favs: Seq<FavoriteView>, url: Seq<char>) -> bool {
    exists|j: int| 0 <= j < favs.len() && favs[j].url == url
}

// ---------------------------------------------------------------------------
// Chapter titles
// ---------------------------------------------------------------------------

/// `s` cut before the first occurrence of `pat` and trimmed, or `s` itself
/// where `pat` does not occur.
pub open spec fn cut_before(s: Seq<char>, pat: Seq<char>) -> Seq<char> {
    match find(s, pat) {
        Some(i) => trim(s.subrange(0, i)),
        None => s,
    }
}

/// Whether a character is an ASCII digit.
pub open spec fn is_ascii_digit(c: char) -> bool {
    '0' <= c && c <= '9'
}

/// A word that looks like a date or time stamp: at least ten bytes long,
/// its first (up to) four characters ASCII digits, and a `-` in it.
pub open spec fn is_stamp_word(w: Seq<char>) -> bool {
    &&& utf8_len(w) >= 10
    &&& forall|i: int| 0 <= i < w.len() && i < 4 ==> is_ascii_digit(#[trigger] w[i])
    &&& contains_char(w, '-')
}

/// The words that are not stamps, in order.
pub open spec fn without_stamps(ws: Seq<Seq<char>>) -> Seq<Seq<char>>
    decreases ws.len(),
{
    if ws.len() == 0 {
        ws
    } else {
        let rest = without_stamps(ws.drop_last());
        if is_stamp_word(ws.last()) {
            rest
        } else {
            rest.push(ws.last())
        }
    }
}

/// A chapter title without what scrapers leave in it: everything from
/// "Last Read" (or "Last read", or "last read") on, and date stamps; the
/// remaining words are joined by single spaces.
pub open spec fn clean_title(t: Seq<char>) -> Seq<char> {
    let a = cut_before(t, "Last Read"@);
    let b = cut_before(a, "Last read"@);
    let c = cut_before(b, "last read"@);
    join(without_stamps(words(c)), " "@)
}

fn cut_chars(v: Vec<char>, pat: &str) -> (r: Vec<char>)
    ensures
        r@ == cut_before(v@, pat@),
{
    let p = chars_of(pat);
    match find_chars(&v, &p) {
        Some(i) => {
            proof {
                crate::text::lemma_find_in_bounds(v@, p@);
            }
            let head = slice_chars(&v, 0, i);
            trim_chars(&head)
        },
        None => v,
    }
}

fn stamp_word(w: &Vec<char>) -> (r: bool)
    ensures
        r == is_stamp_word(w@),
{
    if !utf8_len_at_least(w, 10) {
        return false;
    }
    let mut i: usize = 0;
    while i < w.len() && i < 4
        invariant
            i <= w@.len(),
            i <= 4,
            forall|j: int| 0 <= j < i ==> is_ascii_digit(#[trigger] w@[j]),
        decreases 4 - i,
    {
        if !('0' <= w[i] && w[i] <= '9') {
            return false;
        }
        i = i + 1;
    }
    contains_char_exec(w, '-')
}

impl FavoriteManga {
    /// The favorite made of a series, with nothing downloaded yet.
    pub fn from_manga(manga: &Manga) -> (r: FavoriteManga)
        ensures
            r@ == favorite_of(manga@),
    {
        FavoriteManga {
            url: manga.url.clone(),
            title: manga.title.clone(),
            provider: manga.provider.clone(),
            cover_url: clone_opt(&manga.cover_url),
            last_downloaded_chapter: None,
            last_downloaded_at: None,
        }
    }

    /// The series this favorite stands for.
    pub fn to_manga(&self) -> (r: Manga)
        ensures
            r@ == manga_of(self@),
    {
        Manga {
            id: self.url.clone(),
            title: self.title.clone(),
            url: self.url.clone(),
            cover_url: clone_opt(&self.cover_url),
            provider: self.provider.clone(),
        }
    }
}

/// The operations on the list of favorites.
pub struct FavoriteManager;

/// Seconds since the Unix epoch, from the system clock
/// (`SystemTime::now().duration_since(UNIX_EPOCH)`), or `None` where the
/// clock is set before the epoch. Nothing is claimed of the value.
#[verifier::external_body]
fn seconds_since_epoch() -> (r: Option<u64>) {
    std::time::SystemTime::now().duration_since(std::time::UNIX_EPOCH).ok().map(|d| d.as_secs())
}

/// The label of a download time: the day number since the epoch, or
/// "recently" where the clock could not tell.
pub open spec fn stamp_label(secs: Option<u64>) -> Seq<char> {
    match secs {
        Some(s) => "day-"@ + dec((s / 86400) as nat),
        None => "recently"@,
    }
}

/// The label of a download time: `day-N` with `N` the whole days since the
/// epoch, or `recently`.
pub fn timestamp_label(secs: Option<u64>) -> (r: String)
    ensures
        r@ == stamp_label(secs),
{
    match secs {
        Some(s) => {
            let mut out = String::from_str("day-");
            out.append(decimal(s / 86400).as_str());
            out
        },
        None => String::from_str("recently"),
    }
}

fn find_url(favorites: &[FavoriteManga], url: &str) -> (r: Option<usize>)
    ensures
        match r {
            Some(i) => i < favorites@.len() && first_with_url(fav_views(favorites@), url@) == Some(
                i as int,
            ),
            None => first_with_url(fav_views(favorites@), url@) is None,
        },
{
    let ghost fv = fav_views(favorites@);
    let mut i: usize = 0;
    while i < favorites.len()
        invariant
            i <= favorites@.len(),
            fv == fav_views(favorites@),
            forall|j: int| 0 <= j < i ==> fv[j].url != url@,
        decreases favorites@.len() - i,
    {
        if str_eq(favorites[i].url.as_str(), url) {
            proof {
                lemma_first_with_url(fv, url@, i as int);
            }
            return Some(i);
        }
        i = i + 1;
    }
    proof {
        lemma_first_with_url(fv, url@, i as int);
    }
    None
}

impl FavoriteManager {
    /// A chapter title without what scrapers leave in it.
    pub fn clean_chapter_title(title: &str) -> (r: String)
        ensures
            r@ == clean_title(title@),
    {
        let a = cut_chars(chars_of(title), "Last Read");
        let b = cut_chars(a, "Last read");
        let c = cut_chars(b, "last read");
        let ws = split_words(&c);
        let mut kept: Vec<Vec<char>> = Vec::new();
        let mut i: usize = 0;
        while i < ws.len()
            invariant
                i <= ws@.len(),
                views(kept@) == without_stamps(views(ws@.subrange(0, i as int))),
            decreases ws@.len() - i,
        {
            proof {
                assert(views(ws@.subrange(0, i + 1)).drop_last() =~= views(
                    ws@.subrange(0, i as int),
                ));
            }
            if !stamp_word(&ws[i]) {
                let w = slice_chars(&ws[i], 0, ws[i].len());
                proof {
                    assert(w@ =~= ws@[i as int]@);
                }
                kept.push(w);
                proof {
                    assert(views(kept@) =~= views(kept@.drop_last()).push(w@));
                }
            }
            i = i + 1;
        }
        assert(ws@.subrange(0, ws@.len() as int) =~= ws@);
        let joined = join_chars(&kept, &chars_of(" "));
        string_of(joined.as_slice())
    }

    /// Whether some favorite has the address `url`.
    pub fn is_favorite(favorites: &[FavoriteManga], url: &str) -> (r: bool)
        ensures
            r == has_url(fav_views(favorites@), url@),
    {
        let f = find_url(favorites, url);
        proof {
            lemma_first_with_url_found(fav_views(favorites@), url@);
        }
        f.is_some()
    }

    /// Adds the series to the favorites where no favorite has its address
    /// (returning true), else takes the first such favorite out (returning
    /// false). The caller persists the list.
    pub fn toggle_favorite(favorites: &mut Vec<FavoriteManga>, manga: &Manga) -> (r: bool)
        ensures
            match first_with_url(fav_views(old(favorites)@), manga@.url) {
                Some(i) => !r && fav_views(final(favorites)@) == fav_views(old(favorites)@).remove(
                    i,
                ),
                None => r && fav_views(final(favorites)@) == fav_views(old(favorites)@).push(
                    favorite_of(manga@),
                ),
            },
    {
        match find_url(favorites.as_slice(), manga.url.as_str()) {
            Some(pos) => {
                let ghost before = fav_views(favorites@);
                favorites.remove(pos);
                assert(fav_views(favorites@) =~= before.remove(pos as int));
                false
            },
            None => {
                let ghost before = fav_views(favorites@);
                favorites.push(FavoriteManga::from_manga(manga));
                assert(fav_views(favorites@) =~= before.push(favorite_of(manga@)));
                true
            },
        }
    }

    /// Takes the first favorite with the address `url` out, returning
    /// whether there was one. The caller persists the list.
    pub fn remove_favorite(favorites: &mut Vec<FavoriteManga>, url: &str) -> (r: bool)
        ensures
            match first_with_url(fav_views(old(favorites)@), url@) {
                Some(i) => r && fav_views(final(favorites)@) == fav_views(old(favorites)@).remove(i),
                None => !r && final(favorites)@ == old(favorites)@,
            },
    {
        match find_url(favorites.as_slice(), url) {
            Some(pos) => {
                let ghost before = fav_views(favorites@);
                favorites.remove(pos);
                assert(fav_views(favorites@) =~= before.remove(pos as int));
                true
            },
            None => false,
        }
    }

    /// Records on the first favorite with the address `manga_url` the
    /// cleaned title of the chapter just downloaded and when, returning
    /// whether there was such a favorite. The caller persists the list.
    pub fn update_last_downloaded(
        favorites: &mut [FavoriteManga],
        manga_url: &str,
        chapter_title: &str,
    ) -> (r: bool)
        ensures
            match first_with_url(fav_views(old(favorites)@), manga_url@) {
                Some(i) => r && exists|secs: Option<u64>|
                    #![trigger stamp_label(secs)]
                    fav_views(final(favorites)@) == fav_views(old(favorites)@).update(
                        i,
                        FavoriteView {
                            last_downloaded_chapter: Some(clean_title(chapter_title@)),
                            last_downloaded_at: Some(stamp_label(secs)),
                            ..fav_views(old(favorites)@)[i]
                        },
                    ),
                None => !r && final(favorites)@ == old(favorites)@,
            },
    {
        match find_url(favorites, manga_url) {
            Some(pos) => {
                let ghost before = fav_views(favorites@);
                let secs = seconds_since_epoch();
                let updated = FavoriteManga {
                    url: favorites[pos].url.clone(),
                    title: favorites[pos].title.clone(),
                    provider: favorites[pos].provider.clone(),
                    cover_url: clone_opt(&favorites[pos].cover_url),
                    last_downloaded_chapter: Some(Self::clean_chapter_title(chapter_title)),
                    last_downloaded_at: Some(timestamp_label(secs)),
                };
                favorites[pos] = updated;
                proof {
                    assert(fav_views(favorites@) =~= before.update(
                        pos as int,
                        FavoriteView {
                            last_downloaded_chapter: Some(clean_title(chapter_title@)),
                            last_downloaded_at: Some(stamp_label(secs)),
                            ..before[pos as int]
                        },
                    ));
                }
                true
            },
            None => false,
        }
    }
}

} // verus!

verus! {

/// Where no favorite has the series' address, adding it puts it last: the
/// first favorite with that address is the new one.
pub proof fn lemma_first_after_push(favs: Seq<FavoriteView>, m: MangaView)
    requires
        first_with_url(favs, m.url) is None,
    ensures
        first_with_url(favs.push(favorite_of(m)), m.url) == Some(favs.len() as int),
{
    lemma_first_with_url_found(favs, m.url);
    let pushed = favs.push(favorite_of(m));
    assert forall|j: int| 0 <= j < favs.len() implies pushed[j].url != m.url by {
        assert(pushed[j] == favs[j]);
    }
    lemma_first_with_url(pushed, m.url, favs.len() as int);
}

/// Toggling a series that is not a favorite, then toggling it again, gives
/// back the list of favorites as it was.
pub proof fn lemma_toggle_twice_restores(favs: Seq<FavoriteView>, m: MangaView)
    requires
        first_with_url(favs, m.url) is None,
    ensures
        ({
            let added = favs.push(favorite_of(m));
            first_with_url(added, m.url) == Some(favs.len() as int) && added.remove(
                favs.len() as int,
            ) == favs
        }),
{
    lemma_first_after_push(favs, m);
    assert(favs.push(favorite_of(m)).remove(favs.len() as int) =~= favs);
}

/// A toggle adds the series exactly when no favorite had its address.
pub proof fn lemma_toggle_adds_iff_absent(favs: Seq<FavoriteView>, url: Seq<char>)
    ensures
        (first_with_url(favs, url) is None) == !has_url(favs, url),
{
    lemma_first_with_url_found(favs, url);
    if let Some(i) = first_with_url(favs, url) {
        assert(favs[i].url == url);
    }
}

/// A favorite made of a series stands for that same series, where the
/// series' id is its address.
pub proof fn lemma_favorite_round_trip(m: MangaView)
    requires
        m.id == m.url,
    ensures
        manga_of(favorite_of(m)) == m,
{
}

} // verus!
