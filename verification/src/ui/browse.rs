//! Browsing lists in the main window: the chapter filter, pages of
//! chapters, the cursor on each list, and the label of the active sources.

use vstd::prelude::*;
use crate::domain::manga::Chapter;
use crate::text::{
    chars_of, decimal, dec, find, find_chars, to_lowercase, trim, trim_str, unicode_lower,
};

verus! {

/// The views shown in the main window.
#[derive(Debug, Clone, Copy, PartialEq, Eq, Structural)]
pub enum CurrentView {
    Favorites,
    Search,
    SearchUnfocused,
    MangaResults,
    ChapterList,
}

/// Whether a chapter title matches the filter: it contains the filter,
/// both lower-cased.
pub open spec fn title_matches(title: Seq<char>, filter: Seq<char>) -> bool {
    find(unicode_lower(title), unicode_lower(filter)) is Some
}

/// The indices of the chapters whose titles match the filter, in order; all
/// of them where the filter is blank.
pub open spec fn matching_indices(titles: Seq<Seq<char>>, filter: Seq<char>) -> Seq<int>
    decreases titles.len(),
{
    if titles.len() == 0 {
        Seq::empty()
    } else {
        let rest = matching_indices(titles.drop_last(), filter);
        if trim(filter).len() == 0 || title_matches(titles.last(), filter) {
            rest.push(titles.len() - 1)
        } else {
            rest
        }
    }
}

/// The titles of a list of chapters.
pub open spec fn titles_of(chapters: Seq<Chapter>) -> Seq<Seq<char>> {
    chapters.map_values(|c: Chapter| c.title@)
}

/// The indices of the chapters that the filter lets through, in order.
pub fn filtered_chapters(chapters: &[Chapter], filter: &str) -> (r: Vec<usize>)
    ensures
        r@.map_values(|i: usize| i as int) == matching_indices(titles_of(chapters@), filter@),
{
    let blank = chars_of(trim_str(filter).as_str()).len() == 0;
    let q = chars_of(to_lowercase(filter).as_str());
    let ghost titles = titles_of(chapters@);
    let mut out: Vec<usize> = Vec::new();
    let mut i: usize = 0;
    while i < chapters.len()
        invariant
            i <= chapters@.len(),
            titles == titles_of(chapters@),
            blank == (trim(filter@).len() == 0),
            q@ == unicode_lower(filter@),
            out@.map_values(|k: usize| k as int) == matching_indices(
                titles.subrange(0, i as int),
                filter@,
            ),
        decreases chapters@.len() - i,
    {
        proof {
            assert(titles.subrange(0, i + 1).drop_last() =~= titles.subrange(0, i as int));
            assert(titles.subrange(0, i + 1).last() == chapters@[i as int].title@);
        }
        let keep = blank || {
            let t = chars_of(to_lowercase(chapters[i].title.as_str()).as_str());
            find_chars(&t, &q).is_some()
        };
        if keep {
            let ghost before = out@.map_values(|k: usize| k as int);
            out.push(i);
            assert(out@.map_values(|k: usize| k as int) =~= before.push(i as int));
        }
        i = i + 1;
    }
    assert(titles.subrange(0, titles.len() as int) =~= titles);
    out
}

/// The number of pages of `total` chapters, `page_size` to a page; one page
/// where there are none.
pub open spec fn page_count(total: nat, page_size: nat) -> nat {
    if total == 0 {
        1
    } else {
        ((total + page_size - 1) / page_size as int) as nat
    }
}

/// The number of pages of `total` chapters.
pub fn total_chapter_pages(total: usize, page_size: usize) -> (r: usize)
    requires
        page_size > 0,
        total + page_size <= usize::MAX,
    ensures
        r == page_count(total as nat, page_size as nat),
        r >= 1,
{
    if total == 0 {
        1
    } else {
        let r = (total + page_size - 1) / page_size;
        assert(r >= 1) by (nonlinear_arith)
            requires
                total >= 1,
                page_size > 0,
                r == (total + page_size - 1) / page_size as int,
        ;
        r
    }
}

/// Where the page `page` starts and ends among `total` chapters (empty past
/// the last page).
pub open spec fn page_bounds(total: nat, page: nat, page_size: nat) -> (nat, nat) {
    let start = page * page_size;
    if start >= total {
        (total, total)
    } else if start + page_size >= total {
        (start, total)
    } else {
        (start, start + page_size)
    }
}

/// Where the page `page` starts and ends among `total` chapters.
pub fn page_range(total: usize, page: usize, page_size: usize) -> (r: (usize, usize))
    requires
        page * page_size <= usize::MAX,
    ensures
        (r.0 as nat, r.1 as nat) == page_bounds(total as nat, page as nat, page_size as nat),
{
    let start = page * page_size;
    if start >= total {
        (total, total)
    } else if page_size >= total - start {
        (start, total)
    } else {
        (start, start + page_size)
    }
}

/// The cursor moved by `delta` in a list of `len` items, kept inside the
/// list; `None` where the list is empty (nothing moves).
pub open spec fn moved_cursor(current: Option<nat>, delta: int, len: nat) -> Option<nat> {
    if len == 0 {
        None
    } else {
        let c = match current {
            Some(i) => i as int,
            None => 0,
        };
        let n = c + delta;
        Some(
            (if n < 0 {
                0
            } else if n > len - 1 {
                len - 1
            } else {
                n
            }) as nat,
        )
    }
}

/// The cursor of the favorites or the search results moved by `delta`.
pub fn move_list_selection(current: Option<usize>, delta: isize, len: usize) -> (r: Option<usize>)
    requires
        len <= isize::MAX,
        current matches Some(c) ==> c <= isize::MAX,
        (match current {
            Some(c) => c as int,
            None => 0,
        }) + delta <= isize::MAX,
        (match current {
            Some(c) => c as int,
            None => 0,
        }) + delta >= isize::MIN,
    ensures
        match r {
            Some(i) => moved_cursor(
                match current {
                    Some(c) => Some(c as nat),
                    None => None,
                },
                delta as int,
                len as nat,
            ) == Some(i as nat),
            None => moved_cursor(
                match current {
                    Some(c) => Some(c as nat),
                    None => None,
                },
                delta as int,
                len as nat,
            ) is None,
        },
{
    if len == 0 {
        return None;
    }
    let c: isize = match current {
        Some(i) => i as isize,
        None => 0,
    };
    let n = c + delta;
    let hi = (len - 1) as isize;
    let v = if n < 0 { 0 } else if n > hi { hi } else { n };
    Some(v as usize)
}

/// Where the chapter cursor goes after moving by `delta`: within the page,
/// or past its start to the end of the previous page (the last page after
/// the first), or past its end to the start of the next page (the first
/// after the last). `None` where the page is empty.
pub open spec fn chapter_step(
    current: Option<nat>,
    delta: int,
    total: nat,
    page: nat,
    page_size: nat,
) -> Option<(nat, nat)> {
    let (s, e) = page_bounds(total, page, page_size);
    let page_len = e - s;
    if page_len == 0 {
        None
    } else {
        let c = match current {
            Some(i) => i as int,
            None => 0,
        };
        let candidate = c + delta;
        let pages = page_count(total, page_size);
        if candidate < 0 {
            let p = if page == 0 {
                (pages - 1) as nat
            } else {
                (page - 1) as nat
            };
            let (ps, pe) = page_bounds(total, p, page_size);
            Some((p, if pe - ps >= 1 { (pe - ps - 1) as nat } else { 0 }))
        } else if candidate >= page_len {
            let p = if page + 1 >= pages {
                0
            } else {
                page + 1
            };
            Some((p as nat, 0))
        } else {
            Some((page, candidate as nat))
        }
    }
}

/// The chapter cursor after moving by `delta`: the new page and the new
/// position on it.
pub fn move_chapter_selection(
    current: Option<usize>,
    delta: isize,
    total: usize,
    page: usize,
    page_size: usize,
) -> (r: Option<(usize, usize)>)
    requires
        page_size > 0,
        total + page_size <= usize::MAX,
        page + 1 <= usize::MAX,
        page * page_size <= usize::MAX,
        current matches Some(c) ==> c <= isize::MAX,
        (match current {
            Some(c) => c as int,
            None => 0,
        }) + delta <= isize::MAX,
        (match current {
            Some(c) => c as int,
            None => 0,
        }) + delta >= isize::MIN,
    ensures
        match r {
            Some((p, i)) => chapter_step(
                match current {
                    Some(c) => Some(c as nat),
                    None => None,
                },
                delta as int,
                total as nat,
                page as nat,
                page_size as nat,
            ) == Some((p as nat, i as nat)),
            None => chapter_step(
                match current {
                    Some(c) => Some(c as nat),
                    None => None,
                },
                delta as int,
                total as nat,
                page as nat,
                page_size as nat,
            ) is None,
        },
{
    let (s, e) = page_range(total, page, page_size);
    let page_len = e - s;
    if page_len == 0 {
        return None;
    }
    let c: isize = match current {
        Some(i) => i as isize,
        None => 0,
    };
    let candidate = c + delta;
    let pages = total_chapter_pages(total, page_size);
    if candidate < 0 {
        let p = if page == 0 { pages - 1 } else { page - 1 };
        proof {
            if page == 0 {
                assert(pages >= 1);
                assert((pages - 1) * page_size <= total) by (nonlinear_arith)
                    requires
                        page_size > 0,
                        total > 0,
                        pages == (total + page_size - 1) / page_size as int,
                ;
            } else {
                assert((page - 1) * page_size <= page * page_size) by (nonlinear_arith)
                    requires
                        page >= 1,
                ;
            }
        }
        let (ps, pe) = page_range(total, p, page_size);
        let sel = if pe - ps >= 1 { pe - ps - 1 } else { 0 };
        Some((p, sel))
    } else if candidate as usize >= page_len {
        let p = if page + 1 >= pages { 0 } else { page + 1 };
        Some((p, 0))
    } else {
        Some((page, candidate as usize))
    }
}

/// The label of the active sources: `None`, the one source, the two joined
/// by ` + `, or `Multi (n)`.
pub open spec fn source_label(active: Seq<Seq<char>>) -> Seq<char> {
    if active.len() == 0 {
        "None"@
    } else if active.len() == 1 {
        active[0]
    } else if active.len() == 2 {
        active[0] + " + "@ + active[1]
    } else {
        "Multi ("@ + dec(active.len()) + ")"@
    }
}

/// The views of a list of strings.
pub open spec fn views_of(v: Seq<String>) -> Seq<Seq<char>> {
    v.map_values(|s: String| s@)
}

/// The label of the active sources.
pub fn active_source_label(active: &Vec<String>) -> (r: String)
    ensures
        r@ == source_label(views_of(active@)),
{
    if active.len() == 0 {
        String::from_str("None")
    } else if active.len() == 1 {
        active[0].clone()
    } else if active.len() == 2 {
        let mut s = active[0].clone();
        s.append(" + ");
        s.append(active[1].as_str());
        s
    } else {
        let mut s = String::from_str("Multi (");
        s.append(decimal(active.len() as u64).as_str());
        s.append(")");
        s
    }
}

/// The query a search runs with: the typed text trimmed, where something
/// is left and no other work is under way; none otherwise.
pub fn search_query(input: &str, busy: bool) -> (r: Option<String>)
    ensures
        match r {
            Some(q) => !busy && trim(input@).len() > 0 && q@ == trim(input@),
            None => busy || trim(input@).len() == 0,
        },
{
    let q = trim_str(input);
    if busy || chars_of(q.as_str()).len() == 0 {
        None
    } else {
        Some(q)
    }
}

} // verus!

verus! {

/// The list cursor always lands on an item of a non-empty list.
pub proof fn lemma_moved_cursor_in_list(current: Option<nat>, delta: int, len: nat)
    requires
        len > 0,
    ensures
        moved_cursor(current, delta, len) matches Some(i) && i < len,
{
}

/// The pages of a list tile it: a page ends where the next begins, the
/// pages are full but the last, and the last page ends at the end of the
/// list.
pub proof fn lemma_pages_tile(total: nat, page_size: nat, p: nat)
    requires
        page_size > 0,
        total > 0,
        p < page_count(total, page_size),
    ensures
        page_bounds(total, p, page_size).0 < page_bounds(total, p, page_size).1,
        p + 1 < page_count(total, page_size) ==> page_bounds(total, p, page_size).1 == page_bounds(
            total,
            p + 1,
            page_size,
        ).0 && page_bounds(total, p, page_size).1 - page_bounds(total, p, page_size).0
            == page_size,
        p + 1 == page_count(total, page_size) ==> page_bounds(total, p, page_size).1 == total,
{
    let c = page_count(total, page_size);
    assert(c == (total + page_size - 1) / page_size as int);
    assert(p * page_size < total) by (nonlinear_arith)
        requires
            page_size > 0,
            p < (total + page_size - 1) / page_size as int,
    ;
    if p + 1 < c {
        assert((p + 1) * page_size < total) by (nonlinear_arith)
            requires
                page_size > 0,
                p + 1 < (total + page_size - 1) / page_size as int,
        ;
        assert((p + 1) * page_size == p * page_size + page_size) by (nonlinear_arith);
    }
    if p + 1 == c {
        assert(p * page_size + page_size >= total) by (nonlinear_arith)
            requires
                page_size > 0,
                p + 1 == (total + page_size - 1) / page_size as int,
        ;
    }
}

/// Moving the chapter cursor from a valid place leaves it on a valid place:
/// on an existing page, and on a chapter of that page.
pub proof fn lemma_chapter_step_valid(
    current: Option<nat>,
    delta: int,
    total: nat,
    page: nat,
    page_size: nat,
)
    requires
        page_size > 0,
        total > 0,
        page < page_count(total, page_size),
    ensures
        chapter_step(current, delta, total, page, page_size) matches Some((p, i)) && p
            < page_count(total, page_size) && i < page_bounds(total, p, page_size).1
            - page_bounds(total, p, page_size).0,
{
    let c = page_count(total, page_size);
    lemma_pages_tile(total, page_size, page);
    assert(c >= 1);
    if page > 0 {
        lemma_pages_tile(total, page_size, (page - 1) as nat);
    }
    lemma_pages_tile(total, page_size, (c - 1) as nat);
    lemma_pages_tile(total, page_size, 0);
    if page + 1 < c {
        lemma_pages_tile(total, page_size, page + 1);
    }
}

} // verus!

verus! {

/// The configured sources that are available, in order.
pub open spec fn available_only(configured: Seq<Seq<char>>, available: Seq<Seq<char>>) -> Seq<
    Seq<char>,
>
    decreases configured.len(),
{
    if configured.len() == 0 {
        configured
    } else {
        let rest = available_only(configured.drop_last(), available);
        if available.contains(configured.last()) {
            rest.push(configured.last())
        } else {
            rest
        }
    }
}

/// The sources in use at start.
pub fn initial_active_sources(configured: &Vec<String>, available: &Vec<String>) -> (r: Vec<String>)
    ensures
        views_of(r@) == (if configured@.len() > 0 && available_only(
            views_of(configured@),
            views_of(available@),
        ).len() > 0 {
            available_only(views_of(configured@), views_of(available@))
        } else {
            views_of(available@)
        }),
{
    let ghost conf = views_of(configured@);
    let ghost avail = views_of(available@);
    let mut valid: Vec<String> = Vec::new();
    let mut i: usize = 0;
    while i < configured.len()
        invariant
            i <= conf.len(),
            conf == views_of(configured@),
            avail == views_of(available@),
            views_of(valid@) == available_only(conf.subrange(0, i as int), avail),
        decreases conf.len() - i,
    {
        proof {
            assert(conf.subrange(0, i + 1).drop_last() =~= conf.subrange(0, i as int));
        }
        if crate::ui::modals::source_select::contains_name(available, configured[i].as_str()) {
            let ghost vb = views_of(valid@);
            valid.push(configured[i].clone());
            proof {
                assert(views_of(valid@) =~= vb.push(conf[i as int]));
                assert(crate::ui::modals::source_select::names_of(available@) == avail);
            }
        } else {
            proof {
                assert(crate::ui::modals::source_select::names_of(available@) == avail);
            }
        }
        i = i + 1;
    }
    assert(conf.subrange(0, conf.len() as int) =~= conf);
    if configured.len() > 0 && valid.len() > 0 {
        valid
    } else {
        let mut all: Vec<String> = Vec::new();
        let mut j: usize = 0;
        while j < available.len()
            invariant
                j <= avail.len(),
                avail == views_of(available@),
                views_of(all@) == avail.subrange(0, j as int),
            decreases avail.len() - j,
        {
            let ghost b = views_of(all@);
            let c = available[j].clone();
            all.push(c);
            assert(views_of(all@) =~= b.push(avail[j as int]));
            assert(views_of(all@) =~= avail.subrange(0, j + 1));
            j = j + 1;
        }
        assert(avail.subrange(0, avail.len() as int) =~= avail);
        all
    }
}

/// The view the main window opens on: the favorites where there are some,
/// else the search box.
pub fn initial_view(has_favorites: bool) -> (r: CurrentView)
    ensures
        r == (if has_favorites {
            CurrentView::Favorites
        } else {
            CurrentView::Search
        }),
{
    if has_favorites {
        CurrentView::Favorites
    } else {
        CurrentView::Search
    }
}

/// The sources a search asks: the active ones, else the one named by the label.
pub fn search_sources(active: &Vec<String>, label: &str) -> (r: Vec<String>)
    ensures
        views_of(r@) == (if active@.len() > 0 {
            views_of(active@)
        } else {
            seq![label@]
        }),
{
    if active.len() > 0 {
        let mut all: Vec<String> = Vec::new();
        let mut j: usize = 0;
        while j < active.len()
            invariant
                j <= active@.len(),
                views_of(all@) == views_of(active@).subrange(0, j as int),
            decreases active@.len() - j,
        {
            let ghost b = views_of(all@);
            let c = active[j].clone();
            all.push(c);
            assert(views_of(all@) =~= b.push(views_of(active@)[j as int]));
            assert(views_of(all@) =~= views_of(active@).subrange(0, j + 1));
            j = j + 1;
        }
        assert(views_of(active@).subrange(0, active@.len() as int) =~= views_of(active@));
        all
    } else {
        let r = vec![String::from_str(label)];
        assert(views_of(r@) =~= seq![label@]);
        r
    }
}

/// The source the chapters of a series are asked from: the series' own,
/// else the first active one, else the one named by the label.
pub fn chapter_source(provider: &str, active: &Vec<String>, label: &str) -> (r: String)
    ensures
        r@ == (if provider@.len() > 0 {
            provider@
        } else if active@.len() > 0 {
            active@[0]@
        } else {
            label@
        }),
{
    if crate::text::chars_of(provider).len() > 0 {
        String::from_str(provider)
    } else if active.len() > 0 {
        active[0].clone()
    } else {
        String::from_str(label)
    }
}

/// The successful results of all sources, in order.
pub open spec fn successes<T, E>(outcomes: Seq<Result<Vec<T>, E>>) -> Seq<T>
    decreases outcomes.len(),
{
    if outcomes.len() == 0 {
        Seq::empty()
    } else {
        let rest = successes(outcomes.drop_last());
        match outcomes.last() {
            Ok(v) => rest + v@,
            Err(_) => rest,
        }
    }
}

/// Whether some source answered.
pub open spec fn any_success<T, E>(outcomes: Seq<Result<Vec<T>, E>>) -> bool
    decreases outcomes.len(),
{
    outcomes.len() > 0 && (outcomes.last() is Ok || any_success(outcomes.drop_last()))
}

/// The error of the last source that failed, if any.
pub open spec fn last_error<T, E>(outcomes: Seq<Result<Vec<T>, E>>) -> Option<E>
    decreases outcomes.len(),
{
    if outcomes.len() == 0 {
        None
    } else {
        match outcomes.last() {
            Err(e) => Some(e),
            Ok(_) => last_error(outcomes.drop_last()),
        }
    }
}

/// The results of a search asked of several sources: all the results where
/// some source answered (or none failed), else the last failure.
pub fn merge_results<T, E>(outcomes: Vec<Result<Vec<T>, E>>) -> (r: Result<Vec<T>, E>)
    ensures
        (any_success(outcomes@) || last_error(outcomes@) is None) ==> (r matches Ok(v) && v@
            == successes(outcomes@)),
        !(any_success(outcomes@) || last_error(outcomes@) is None) ==> (r matches Err(e) && Some(
            e,
        ) == last_error(outcomes@)),
{
    let ghost all = outcomes@;
    let mut results: Vec<T> = Vec::new();
    let mut ok = false;
    let mut err: Option<E> = None;
    for o in it: outcomes.into_iter()
        invariant
            it.seq() == all,
            results@ == successes(all.subrange(0, it.index() as int)),
            ok == any_success(all.subrange(0, it.index() as int)),
            err == last_error(all.subrange(0, it.index() as int)),
    {
        let ghost k = it.index() as int;
        proof {
            assert(all.subrange(0, k + 1).drop_last() =~= all.subrange(0, k));
            assert(all.subrange(0, k + 1).last() == all[k]);
        }
        match o {
            Ok(v) => {
                let mut v = v;
                let ghost before = results@;
                results.append(&mut v);
                ok = true;

            },
            Err(e) => {
                err = Some(e);

            },
        }
    }
    assert(all.subrange(0, all.len() as int) =~= all);
    if ok || err.is_none() {
        Ok(results)
    } else {
        match err {
            Some(e) => Err(e),
            None => Ok(results),
        }
    }
}

} // verus!
