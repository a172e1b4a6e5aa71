//! What a key does in the main window when no modal window is open: the
//! view it leads to, and the command the application then carries out.

use vstd::prelude::*;
use crate::ui::browse::CurrentView;
use crate::ui::modals::source_select::NameSet;
use crate::ui::modal_keys::{modal_step, ModalAction, ModalKind};

verus! {

/// A key, as the terminal reports it (modifiers apart).
#[derive(Debug, Clone, Copy, PartialEq, Eq, Structural)]
pub enum Key {
    Char(char),
    Enter,
    Esc,
    Tab,
    Up,
    Down,
    Left,
    Right,
    Backspace,
    F(u8),
    Other,
}

/// The help pages, one per browsing view.
#[derive(Debug, Clone, Copy, PartialEq, Eq, Structural)]
pub enum HelpTopic {
    Favorites,
    SearchUnfocused,
    MangaList,
    ChapterList,
}

/// What the application is asked to do after a key.
#[derive(Debug, Clone, Copy, PartialEq, Eq, Structural)]
pub enum Command {
    Nothing,
    Quit,
    OpenSettings,
    OpenSourceSelect,
    OpenHelp(HelpTopic),
    MoveFavorite(i8),
    AskRemoveFavorite,
    OpenFavorite,
    RunSearch,
    TypeSearch(char),
    DeleteSearchChar,
    ToggleFavorite,
    MoveManga(i8),
    OpenManga,
    TypeFilter(char),
    DeleteFilterChar,
    PreviousPage,
    NextPage,
    MoveChapter(i8),
    ToggleChapter,
    ToggleAllChapters,
    MarkRead,
    Process,
}

/// The browsing state a key acts on.
#[derive(Debug, Clone, Copy, PartialEq, Eq, Structural)]
pub struct ViewState {
    pub view: CurrentView,
    pub filter_active: bool,
    pub previous_view: Option<CurrentView>,
    pub has_favorites: bool,
    pub has_mangas: bool,
    pub has_sources: bool,
}

/// The keys that work everywhere, modal windows included: Ctrl+C or
/// Ctrl+Q quit, F2 or Ctrl+S open the settings, Ctrl+P opens the source
/// choice (where there are sources).
pub open spec fn global_command_of(key: Key, ctrl: bool, has_sources: bool) -> Option<Command> {
    if ctrl && (key == Key::Char('c') || key == Key::Char('q')) {
        Some(Command::Quit)
    } else if key == Key::F(2) || (ctrl && key == Key::Char('s')) {
        Some(Command::OpenSettings)
    } else if ctrl && (key == Key::Char('p') || key == Key::Char('P')) && has_sources {
        Some(Command::OpenSourceSelect)
    } else {
        None
    }
}

/// The keys that work everywhere.
pub fn global_command(key: Key, ctrl: bool, has_sources: bool) -> (r: Option<Command>)
    ensures
        r == global_command_of(key, ctrl, has_sources),
{
    if ctrl && (key == Key::Char('c') || key == Key::Char('q')) {
        Some(Command::Quit)
    } else if key == Key::F(2) || (ctrl && key == Key::Char('s')) {
        Some(Command::OpenSettings)
    } else if ctrl && (key == Key::Char('p') || key == Key::Char('P')) && has_sources {
        Some(Command::OpenSourceSelect)
    } else {
        None
    }
}

/// `?` opens the help of the view, except while typing a search or a
/// chapter filter.
pub open spec fn help_topic_of(s: ViewState, key: Key) -> Option<HelpTopic> {
    if key == Key::Char('?') && s.view != CurrentView::Search && !(s.view
        == CurrentView::ChapterList && s.filter_active) {
        Some(
            match s.view {
                CurrentView::SearchUnfocused => HelpTopic::SearchUnfocused,
                CurrentView::MangaResults => HelpTopic::MangaList,
                CurrentView::ChapterList => HelpTopic::ChapterList,
                _ => HelpTopic::Favorites,
            },
        )
    } else {
        None
    }
}

/// The state after a view change.
pub open spec fn to_view(s: ViewState, v: CurrentView) -> ViewState {
    ViewState { view: v, ..s }
}

/// Where Esc or `b` leads back to from the chapters: the view they were
/// opened from, else the favorites, the search results or the search box.
pub open spec fn back_view(s: ViewState) -> CurrentView {
    match s.previous_view {
        Some(p) => p,
        None => if s.has_favorites {
            CurrentView::Favorites
        } else if s.has_mangas {
            CurrentView::MangaResults
        } else {
            CurrentView::Search
        },
    }
}

/// What a key does in the main window with no modal window open (after
/// the keys that work everywhere): the new state and the command.
pub open spec fn view_step(s: ViewState, key: Key) -> (ViewState, Command) {
    match help_topic_of(s, key) {
        Some(t) => (s, Command::OpenHelp(t)),
        None => match s.view {
            CurrentView::Favorites => match key {
                Key::Char('q') => (s, Command::Quit),
                Key::Char('/') | Key::Tab => (to_view(s, CurrentView::Search), Command::Nothing),
                Key::Char('p') | Key::Char('P') => (
                    s,
                    if s.has_sources {
                        Command::OpenSourceSelect
                    } else {
                        Command::Nothing
                    },
                ),
                Key::Char('s') => (s, Command::OpenSettings),
                Key::Up | Key::Char('k') => (s, Command::MoveFavorite(-1i8)),
                Key::Down | Key::Char('j') => (s, Command::MoveFavorite(1i8)),
                Key::Char('f') => (s, Command::AskRemoveFavorite),
                Key::Enter => (s, Command::OpenFavorite),
                _ => (s, Command::Nothing),
            },
            CurrentView::Search => match key {
                Key::Esc => (
                    to_view(
                        s,
                        if s.has_favorites {
                            CurrentView::Favorites
                        } else {
                            CurrentView::SearchUnfocused
                        },
                    ),
                    Command::Nothing,
                ),
                Key::Enter => (s, Command::RunSearch),
                Key::Tab | Key::Down => (
                    to_view(
                        s,
                        if s.has_mangas {
                            CurrentView::MangaResults
                        } else if s.has_favorites {
                            CurrentView::Favorites
                        } else {
                            CurrentView::SearchUnfocused
                        },
                    ),
                    Command::Nothing,
                ),
                Key::Backspace => (s, Command::DeleteSearchChar),
                Key::Char(c) => (s, Command::TypeSearch(c)),
                _ => (s, Command::Nothing),
            },
            CurrentView::SearchUnfocused => match key {
                Key::Char('q') => (s, Command::Quit),
                Key::Char('s') => (s, Command::OpenSettings),
                Key::Char('p') | Key::Char('P') => (
                    s,
                    if s.has_sources {
                        Command::OpenSourceSelect
                    } else {
                        Command::Nothing
                    },
                ),
                Key::Char('/') | Key::Enter => (to_view(s, CurrentView::Search), Command::Nothing),
                Key::Down | Key::Tab => (
                    if s.has_mangas {
                        to_view(s, CurrentView::MangaResults)
                    } else if s.has_favorites {
                        to_view(s, CurrentView::Favorites)
                    } else {
                        s
                    },
                    Command::Nothing,
                ),
                _ => (s, Command::Nothing),
            },
            CurrentView::MangaResults => match key {
                Key::Char('q') => (s, Command::Quit),
                Key::Esc | Key::Char('b') => (
                    to_view(
                        s,
                        if s.has_favorites {
                            CurrentView::Favorites
                        } else {
                            CurrentView::SearchUnfocused
                        },
                    ),
                    Command::Nothing,
                ),
                Key::Char('/') => (to_view(s, CurrentView::Search), Command::Nothing),
                Key::Char('f') => (s, Command::ToggleFavorite),
                Key::Char('p') | Key::Char('P') => (
                    s,
                    if s.has_sources {
                        Command::OpenSourceSelect
                    } else {
                        Command::Nothing
                    },
                ),
                Key::Char('s') => (s, Command::OpenSettings),
                Key::Up | Key::Char('k') => (s, Command::MoveManga(-1i8)),
                Key::Down | Key::Char('j') => (s, Command::MoveManga(1i8)),
                Key::Enter => (s, Command::OpenManga),
                _ => (s, Command::Nothing),
            },
            CurrentView::ChapterList => if s.filter_active {
                match key {
                    Key::Esc | Key::Enter => (ViewState { filter_active: false, ..s }, Command::Nothing),
                    Key::Backspace => (s, Command::DeleteFilterChar),
                    Key::Char(c) => (s, Command::TypeFilter(c)),
                    _ => (s, Command::Nothing),
                }
            } else {
                match key {
                    Key::Char('q') => (s, Command::Quit),
                    Key::Esc | Key::Char('b') => (
                        ViewState { view: back_view(s), previous_view: None, ..s },
                        Command::Nothing,
                    ),
                    Key::Char('s') => (s, Command::OpenSettings),
                    Key::Char('/') => (ViewState { filter_active: true, ..s }, Command::Nothing),
                    Key::Left | Key::Char('h') => (s, Command::PreviousPage),
                    Key::Right | Key::Char('l') => (s, Command::NextPage),
                    Key::Up | Key::Char('k') => (s, Command::MoveChapter(-1i8)),
                    Key::Down | Key::Char('j') => (s, Command::MoveChapter(1i8)),
                    Key::Char(' ') => (s, Command::ToggleChapter),
                    Key::Char('a') => (s, Command::ToggleAllChapters),
                    Key::Char('m') | Key::Char('M') => (s, Command::MarkRead),
                    Key::Enter => (s, Command::Process),
                    _ => (s, Command::Nothing),
                }
            },
        },
    }
}

/// What a key does in the main window with no modal window open.
pub fn view_key(s: ViewState, key: Key) -> (r: (ViewState, Command))
    ensures
        r == view_step(s, key),
{
    if key == Key::Char('?') && s.view != CurrentView::Search && !(s.view == CurrentView::ChapterList
        && s.filter_active) {
        let t = match s.view {
            CurrentView::SearchUnfocused => HelpTopic::SearchUnfocused,
            CurrentView::MangaResults => HelpTopic::MangaList,
            CurrentView::ChapterList => HelpTopic::ChapterList,
            _ => HelpTopic::Favorites,
        };
        return (s, Command::OpenHelp(t));
    }
    let sources = if s.has_sources {
        Command::OpenSourceSelect
    } else {
        Command::Nothing
    };
    match s.view {
        CurrentView::Favorites => match key {
            Key::Char('q') => (s, Command::Quit),
            Key::Char('/') | Key::Tab => (ViewState { view: CurrentView::Search, ..s }, Command::Nothing),
            Key::Char('p') | Key::Char('P') => (s, sources),
            Key::Char('s') => (s, Command::OpenSettings),
            Key::Up | Key::Char('k') => (s, Command::MoveFavorite(-1i8)),
            Key::Down | Key::Char('j') => (s, Command::MoveFavorite(1i8)),
            Key::Char('f') => (s, Command::AskRemoveFavorite),
            Key::Enter => (s, Command::OpenFavorite),
            _ => (s, Command::Nothing),
        },
        CurrentView::Search => match key {
            Key::Esc => {
                let v = if s.has_favorites {
                    CurrentView::Favorites
                } else {
                    CurrentView::SearchUnfocused
                };
                (ViewState { view: v, ..s }, Command::Nothing)
            },
            Key::Enter => (s, Command::RunSearch),
            Key::Tab | Key::Down => {
                let v = if s.has_mangas {
                    CurrentView::MangaResults
                } else if s.has_favorites {
                    CurrentView::Favorites
                } else {
                    CurrentView::SearchUnfocused
                };
                (ViewState { view: v, ..s }, Command::Nothing)
            },
            Key::Backspace => (s, Command::DeleteSearchChar),
            Key::Char(c) => (s, Command::TypeSearch(c)),
            _ => (s, Command::Nothing),
        },
        CurrentView::SearchUnfocused => match key {
            Key::Char('q') => (s, Command::Quit),
            Key::Char('s') => (s, Command::OpenSettings),
            Key::Char('p') | Key::Char('P') => (s, sources),
            Key::Char('/') | Key::Enter => (ViewState { view: CurrentView::Search, ..s }, Command::Nothing),
            Key::Down | Key::Tab => {
                let next = if s.has_mangas {
                    ViewState { view: CurrentView::MangaResults, ..s }
                } else if s.has_favorites {
                    ViewState { view: CurrentView::Favorites, ..s }
                } else {
                    s
                };
                (next, Command::Nothing)
            },
            _ => (s, Command::Nothing),
        },
        CurrentView::MangaResults => match key {
            Key::Char('q') => (s, Command::Quit),
            Key::Esc | Key::Char('b') => {
                let v = if s.has_favorites {
                    CurrentView::Favorites
                } else {
                    CurrentView::SearchUnfocused
                };
                (ViewState { view: v, ..s }, Command::Nothing)
            },
            Key::Char('/') => (ViewState { view: CurrentView::Search, ..s }, Command::Nothing),
            Key::Char('f') => (s, Command::ToggleFavorite),
            Key::Char('p') | Key::Char('P') => (s, sources),
            Key::Char('s') => (s, Command::OpenSettings),
            Key::Up | Key::Char('k') => (s, Command::MoveManga(-1i8)),
            Key::Down | Key::Char('j') => (s, Command::MoveManga(1i8)),
            Key::Enter => (s, Command::OpenManga),
            _ => (s, Command::Nothing),
        },
        CurrentView::ChapterList => {
            if s.filter_active {
                match key {
                    Key::Esc | Key::Enter => (ViewState { filter_active: false, ..s }, Command::Nothing),
                    Key::Backspace => (s, Command::DeleteFilterChar),
                    Key::Char(c) => (s, Command::TypeFilter(c)),
                    _ => (s, Command::Nothing),
                }
            } else {
                match key {
                    Key::Char('q') => (s, Command::Quit),
                    Key::Esc | Key::Char('b') => {
                        let v = match s.previous_view {
                            Some(p) => p,
                            None => if s.has_favorites {
                                CurrentView::Favorites
                            } else if s.has_mangas {
                                CurrentView::MangaResults
                            } else {
                                CurrentView::Search
                            },
                        };
                        (ViewState { view: v, previous_view: None, ..s }, Command::Nothing)
                    },
                    Key::Char('s') => (s, Command::OpenSettings),
                    Key::Char('/') => (ViewState { filter_active: true, ..s }, Command::Nothing),
                    Key::Left | Key::Char('h') => (s, Command::PreviousPage),
                    Key::Right | Key::Char('l') => (s, Command::NextPage),
                    Key::Up | Key::Char('k') => (s, Command::MoveChapter(-1i8)),
                    Key::Down | Key::Char('j') => (s, Command::MoveChapter(1i8)),
                    Key::Char(' ') => (s, Command::ToggleChapter),
                    Key::Char('a') => (s, Command::ToggleAllChapters),
                    Key::Char('m') | Key::Char('M') => (s, Command::MarkRead),
                    Key::Enter => (s, Command::Process),
                    _ => (s, Command::Nothing),
                }
            }
        },
    }
}

/// The page before `page` among `total` pages, wrapping to the last.
pub open spec fn page_before(page: nat, total: nat) -> nat {
    if page == 0 {
        (total - 1) as nat
    } else {
        (page - 1) as nat
    }
}

/// The page after `page` among `total` pages, wrapping to the first.
pub open spec fn page_after(page: nat, total: nat) -> nat {
    if page + 1 >= total {
        0
    } else {
        page + 1
    }
}

/// The page before `page` among `total`, wrapping to the last.
pub fn previous_page(page: usize, total: usize) -> (r: usize)
    requires
        total > 0,
    ensures
        r == page_before(page as nat, total as nat),
{
    if page == 0 {
        total - 1
    } else {
        page - 1
    }
}

/// The page after `page` among `total`, wrapping to the first.
pub fn next_page(page: usize, total: usize) -> (r: usize)
    requires
        page + 1 <= usize::MAX,
    ensures
        r == page_after(page as nat, total as nat),
{
    if page + 1 >= total {
        0
    } else {
        page + 1
    }
}

/// Selects every chapter of `ids` where some is not selected yet, else
/// unselects them all.
pub fn toggle_all_chapters(selected: &mut NameSet, ids: &Vec<String>)
    ensures
        ({
            let idset = crate::ui::modals::source_select::names_of(ids@).to_set();
            if idset.subset_of(old(selected)@) {
                final(selected)@ == old(selected)@.difference(idset)
            } else {
                final(selected)@ == old(selected)@.union(idset)
            }
        }),
{
    let ghost names = crate::ui::modals::source_select::names_of(ids@);
    let ghost start = selected@;
    let mut all = true;
    let mut i: usize = 0;
    while i < ids.len()
        invariant
            i <= ids@.len(),
            names == crate::ui::modals::source_select::names_of(ids@),
            selected@ == start,
            all == names.subrange(0, i as int).to_set().subset_of(start),
        decreases ids@.len() - i,
    {
        proof {
            assert(names.subrange(0, i + 1) =~= names.subrange(0, i as int).push(names[i as int]));
            names.subrange(0, i as int).lemma_push_to_set_commute(names[i as int]);
        }
        if !selected.contains(ids[i].as_str()) {
            all = false;
        }
        i = i + 1;
    }
    assert(names.subrange(0, names.len() as int) =~= names);
    let mut j: usize = 0;
    while j < ids.len()
        invariant
            j <= ids@.len(),
            names == crate::ui::modals::source_select::names_of(ids@),
            all ==> selected@ == start.difference(names.subrange(0, j as int).to_set()),
            !all ==> selected@ == start.union(names.subrange(0, j as int).to_set()),
        decreases ids@.len() - j,
    {
        proof {
            assert(names.subrange(0, j + 1) =~= names.subrange(0, j as int).push(names[j as int]));
            names.subrange(0, j as int).lemma_push_to_set_commute(names[j as int]);
        }
        if all {
            selected.remove(ids[j].as_str());
            proof {
                assert(start.difference(names.subrange(0, j + 1).to_set()) =~= start.difference(
                    names.subrange(0, j as int).to_set(),
                ).remove(names[j as int]));
            }
        } else {
            selected.insert(ids[j].clone());
            proof {
                assert(start.union(names.subrange(0, j + 1).to_set()) =~= start.union(
                    names.subrange(0, j as int).to_set(),
                ).insert(names[j as int]));
            }
        }
        j = j + 1;
    }
}

/// The notices the main window raises when results come back.
#[derive(Debug, Clone, Copy, PartialEq, Eq, Structural)]
pub enum Notice {
    NoResults,
    SearchFailed,
    NoChapters,
    ChaptersFailed,
}

/// After a search: `found` is the number of series found, `None` where the
/// search failed. Gives the view, the result row to select (where the
/// selection changes) and the notice to raise, if any.
pub fn after_search(found: Option<usize>) -> (r: (CurrentView, Option<usize>, Option<Notice>))
    ensures
        r == (match found {
            Some(n) => if n > 0 {
                (CurrentView::MangaResults, Some(0usize), None::<Notice>)
            } else {
                (CurrentView::SearchUnfocused, None::<usize>, Some(Notice::NoResults))
            },
            None => (CurrentView::SearchUnfocused, None::<usize>, Some(Notice::SearchFailed)),
        }),
{
    match found {
        Some(n) => if n > 0 {
            (CurrentView::MangaResults, Some(0), None)
        } else {
            (CurrentView::SearchUnfocused, None, Some(Notice::NoResults))
        },
        None => (CurrentView::SearchUnfocused, None, Some(Notice::SearchFailed)),
    }
}

/// After a chapter list was fetched from `view`: `found` is the number of
/// chapters, `None` where fetching failed. Gives the view, the chapter row
/// to select (where the selection changes) and the notice, if any.
pub fn after_chapters(view: CurrentView, found: Option<usize>) -> (r: (
    CurrentView,
    Option<usize>,
    Option<Notice>,
))
    ensures
        r == (match found {
            Some(n) => if n > 0 {
                (CurrentView::ChapterList, Some(0usize), None::<Notice>)
            } else {
                (view, None::<usize>, Some(Notice::NoChapters))
            },
            None => (view, None::<usize>, Some(Notice::ChaptersFailed)),
        }),
{
    match found {
        Some(n) => if n > 0 {
            (CurrentView::ChapterList, Some(0), None)
        } else {
            (view, None, Some(Notice::NoChapters))
        },
        None => (view, None, Some(Notice::ChaptersFailed)),
    }
}

/// The name of a view as the key hints and the help know it.
pub fn view_name(view: CurrentView, filter_active: bool) -> (r: &'static str)
    ensures
        r@ == (match view {
            CurrentView::Favorites => "favorites"@,
            CurrentView::Search => "search"@,
            CurrentView::SearchUnfocused => "search_unfocused"@,
            CurrentView::MangaResults => "manga_list"@,
            CurrentView::ChapterList => if filter_active {
                "chapter_filter"@
            } else {
                "chapter_list"@
            },
        }),
{
    match view {
        CurrentView::Favorites => "favorites",
        CurrentView::Search => "search",
        CurrentView::SearchUnfocused => "search_unfocused",
        CurrentView::MangaResults => "manga_list",
        CurrentView::ChapterList => if filter_active {
            "chapter_filter"
        } else {
            "chapter_list"
        },
    }
}

/// The name of a help page.
pub fn help_topic_name(topic: HelpTopic) -> (r: &'static str)
    ensures
        r@ == (match topic {
            HelpTopic::Favorites => "favorites"@,
            HelpTopic::SearchUnfocused => "search_unfocused"@,
            HelpTopic::MangaList => "manga_list"@,
            HelpTopic::ChapterList => "chapter_list"@,
        }),
{
    match topic {
        HelpTopic::Favorites => "favorites",
        HelpTopic::SearchUnfocused => "search_unfocused",
        HelpTopic::MangaList => "manga_list",
        HelpTopic::ChapterList => "chapter_list",
    }
}

/// Paging wraps around: the page after the last is the first, the page
/// before the first is the last, and going forward then back (or back then
/// forward) returns to the same page.
pub proof fn lemma_page_wrap(page: nat, total: nat)
    requires
        page < total,
    ensures
        page_after(page, total) < total,
        page_before(page, total) < total,
        page + 1 == total ==> page_after(page, total) == 0,
        page == 0 ==> page_before(page, total) == total - 1,
        page_before(page_after(page, total), total) == page,
        page_after(page_before(page, total), total) == page,
{
}

/// Leaving the chapters with Esc or `b` returns to the view they were
/// opened from, and forgets it.
pub proof fn lemma_back_returns_to_origin(s: ViewState, origin: CurrentView)
    requires
        s.view == CurrentView::ChapterList,
        !s.filter_active,
        s.previous_view == Some(origin),
    ensures
        view_step(s, Key::Esc).0.view == origin,
        view_step(s, Key::Esc).0.previous_view is None,
        view_step(s, Key::Char('b')).0.view == origin,
        view_step(s, Key::Char('b')).1 == Command::Nothing,
{
}

/// `?` opens the help of every browsing view but while a search or a
/// chapter filter is typed, and the same key closes the help again.
pub proof fn lemma_help_toggles(s: ViewState)
    requires
        s.view != CurrentView::Search,
        !(s.view == CurrentView::ChapterList && s.filter_active),
    ensures
        view_step(s, Key::Char('?')).1 is OpenHelp,
        view_step(s, Key::Char('?')).0 == s,
        modal_step(ModalKind::Help, Key::Char('?')) == ModalAction::Close,
{
}

} // verus!
