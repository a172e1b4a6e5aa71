use neo_mangal::ui::browse::CurrentView;
use neo_mangal::ui::modals::source_select::NameSet;
use neo_mangal::domain::manga::Chapter;
use neo_mangal::ui::jobs::target_chapters;
use neo_mangal::ui::navigation::{
    after_chapters, after_search, global_command, help_topic_name, next_page, previous_page,
    toggle_all_chapters, view_key, view_name, Command, HelpTopic, Key, Notice, ViewState,
};

fn state(view: CurrentView) -> ViewState {
    ViewState {
        view,
        filter_active: false,
        previous_view: None,
        has_favorites: true,
        has_mangas: true,
        has_sources: true,
    }
}

#[test]
fn test_global_shortcuts() {
    assert_eq!(global_command(Key::Char('c'), true, true), Some(Command::Quit));
    assert_eq!(global_command(Key::Char('q'), true, false), Some(Command::Quit));
    assert_eq!(global_command(Key::F(2), false, false), Some(Command::OpenSettings));
    assert_eq!(global_command(Key::Char('s'), true, false), Some(Command::OpenSettings));
    assert_eq!(global_command(Key::Char('p'), true, true), Some(Command::OpenSourceSelect));
    // Without any installed source, Ctrl+P falls through.
    assert_eq!(global_command(Key::Char('p'), true, false), None);
    // Plain letters are no global shortcut.
    assert_eq!(global_command(Key::Char('q'), false, true), None);
}

#[test]
fn test_help_opens_per_view() {
    let (s, c) = view_key(state(CurrentView::Favorites), Key::Char('?'));
    assert_eq!(c, Command::OpenHelp(HelpTopic::Favorites));
    assert_eq!(s, state(CurrentView::Favorites));
    let (_, c) = view_key(state(CurrentView::ChapterList), Key::Char('?'));
    assert_eq!(c, Command::OpenHelp(HelpTopic::ChapterList));
    let (_, c) = view_key(state(CurrentView::MangaResults), Key::Char('?'));
    assert_eq!(c, Command::OpenHelp(HelpTopic::MangaList));
    // While typing a search, '?' is a character of the query.
    let (_, c) = view_key(state(CurrentView::Search), Key::Char('?'));
    assert_eq!(c, Command::TypeSearch('?'));
    // While typing a chapter filter, it goes to the filter.
    let mut filtering = state(CurrentView::ChapterList);
    filtering.filter_active = true;
    let (_, c) = view_key(filtering, Key::Char('?'));
    assert_eq!(c, Command::TypeFilter('?'));
}

#[test]
fn test_back_from_chapters_returns_to_origin() {
    let mut s = state(CurrentView::ChapterList);
    s.previous_view = Some(CurrentView::Favorites);
    let (after, c) = view_key(s, Key::Esc);
    assert_eq!(c, Command::Nothing);
    assert_eq!(after.view, CurrentView::Favorites);
    assert_eq!(after.previous_view, None);

    let mut s = state(CurrentView::ChapterList);
    s.previous_view = Some(CurrentView::MangaResults);
    let (after, _) = view_key(s, Key::Char('b'));
    assert_eq!(after.view, CurrentView::MangaResults);

    // Nothing remembered: favorites first, then results, then the search box.
    let mut s = state(CurrentView::ChapterList);
    s.has_favorites = false;
    let (after, _) = view_key(s, Key::Esc);
    assert_eq!(after.view, CurrentView::MangaResults);
    s.has_mangas = false;
    let (after, _) = view_key(s, Key::Esc);
    assert_eq!(after.view, CurrentView::Search);
}

#[test]
fn test_favorites_keys() {
    let s = state(CurrentView::Favorites);
    assert_eq!(view_key(s, Key::Char('f')).1, Command::AskRemoveFavorite);
    // 'd' removes nothing.
    assert_eq!(view_key(s, Key::Char('d')).1, Command::Nothing);
    assert_eq!(view_key(s, Key::Enter).1, Command::OpenFavorite);
    assert_eq!(view_key(s, Key::Up).1, Command::MoveFavorite(-1));
    assert_eq!(view_key(s, Key::Char('j')).1, Command::MoveFavorite(1));
    assert_eq!(view_key(s, Key::Char('p')).1, Command::OpenSourceSelect);
    let mut none = s;
    none.has_sources = false;
    assert_eq!(view_key(none, Key::Char('p')).1, Command::Nothing);
    let (after, c) = view_key(s, Key::Tab);
    assert_eq!(c, Command::Nothing);
    assert_eq!(after.view, CurrentView::Search);
}

#[test]
fn test_search_box_keys() {
    let s = state(CurrentView::Search);
    assert_eq!(view_key(s, Key::Char('x')).1, Command::TypeSearch('x'));
    assert_eq!(view_key(s, Key::Backspace).1, Command::DeleteSearchChar);
    assert_eq!(view_key(s, Key::Enter).1, Command::RunSearch);
    assert_eq!(view_key(s, Key::Esc).0.view, CurrentView::Favorites);
    let mut empty = s;
    empty.has_favorites = false;
    assert_eq!(view_key(empty, Key::Esc).0.view, CurrentView::SearchUnfocused);
    assert_eq!(view_key(s, Key::Down).0.view, CurrentView::MangaResults);
}

#[test]
fn test_chapter_list_keys() {
    let s = state(CurrentView::ChapterList);
    assert_eq!(view_key(s, Key::Char(' ')).1, Command::ToggleChapter);
    assert_eq!(view_key(s, Key::Char('a')).1, Command::ToggleAllChapters);
    assert_eq!(view_key(s, Key::Char('m')).1, Command::MarkRead);
    assert_eq!(view_key(s, Key::Enter).1, Command::Process);
    assert_eq!(view_key(s, Key::Left).1, Command::PreviousPage);
    assert_eq!(view_key(s, Key::Char('l')).1, Command::NextPage);
    let (after, _) = view_key(s, Key::Char('/'));
    assert!(after.filter_active);
    let (back, _) = view_key(after, Key::Enter);
    assert!(!back.filter_active);
    assert_eq!(view_key(after, Key::Backspace).1, Command::DeleteFilterChar);
}

#[test]
fn test_page_wrap() {
    assert_eq!(previous_page(0, 3), 2);
    assert_eq!(previous_page(2, 3), 1);
    assert_eq!(next_page(2, 3), 0);
    assert_eq!(next_page(0, 3), 1);
    assert_eq!(next_page(0, 0), 0);
}

#[test]
fn test_toggle_all_chapters() {
    let ids = vec!["c1".to_string(), "c2".to_string()];
    let mut sel = NameSet::new();
    sel.insert("c1".to_string());
    // One is missing: select them all.
    toggle_all_chapters(&mut sel, &ids);
    assert!(sel.contains("c1") && sel.contains("c2"));
    assert_eq!(sel.len(), 2);
    // All selected: unselect them all.
    toggle_all_chapters(&mut sel, &ids);
    assert!(sel.is_empty());
    // Other selected ids stay where they are.
    sel.insert("other".to_string());
    toggle_all_chapters(&mut sel, &ids);
    assert_eq!(sel.len(), 3);
    toggle_all_chapters(&mut sel, &ids);
    assert!(sel.contains("other"));
    assert_eq!(sel.len(), 1);
}

#[test]
fn test_results_outcomes() {
    assert_eq!(after_search(Some(3)), (CurrentView::MangaResults, Some(0), None));
    assert_eq!(after_search(Some(0)), (CurrentView::SearchUnfocused, None, Some(Notice::NoResults)));
    assert_eq!(after_search(None), (CurrentView::SearchUnfocused, None, Some(Notice::SearchFailed)));
    assert_eq!(after_chapters(CurrentView::Favorites, Some(2)), (CurrentView::ChapterList, Some(0), None));
    assert_eq!(after_chapters(CurrentView::Favorites, Some(0)), (CurrentView::Favorites, None, Some(Notice::NoChapters)));
    assert_eq!(after_chapters(CurrentView::MangaResults, None), (CurrentView::MangaResults, None, Some(Notice::ChaptersFailed)));
    assert_eq!(view_name(CurrentView::ChapterList, true), "chapter_filter");
    assert_eq!(view_name(CurrentView::ChapterList, false), "chapter_list");
    assert_eq!(view_name(CurrentView::MangaResults, false), "manga_list");
    assert_eq!(help_topic_name(HelpTopic::Favorites), "favorites");
}

#[test]
fn test_job_targets() {
    let chapters = vec![chap("a"), chap("b"), chap("c"), chap("d")];
    let page = vec![2usize, 3usize];
    let mut sel = NameSet::new();
    // Nothing selected: the chapter under the cursor on the page.
    assert_eq!(target_chapters(&chapters, &page, &sel, Some(1)), vec![3]);
    assert_eq!(target_chapters(&chapters, &page, &sel, Some(5)), Vec::<usize>::new());
    assert_eq!(target_chapters(&chapters, &page, &sel, None), Vec::<usize>::new());
    // Selected ones, in list order, whatever the page.
    sel.insert("d".to_string());
    sel.insert("a".to_string());
    assert_eq!(target_chapters(&chapters, &page, &sel, Some(0)), vec![0, 3]);
}

fn chap(id: &str) -> Chapter {
    Chapter { id: id.into(), manga_id: "m".into(), title: id.into(), url: "u".into(), number: None }
}
