use neo_mangal::config::Config;
use neo_mangal::domain::favorite::{FavoriteManager, FavoriteManga};
use neo_mangal::domain::manga::{Chapter, Manga};
use neo_mangal::i18n::{AppLanguage, I18n};
use neo_mangal::ui::browse::CurrentView;
use neo_mangal::ui::jobs::process_title;
use neo_mangal::ui::modal_keys::{after_favorite_removed, modal_key, view_after_sources, ModalAction, ModalKind};
use neo_mangal::ui::modals::cover_prompt::ProcessModal;
use neo_mangal::ui::modals::edit_path::EditPathModal;
use neo_mangal::ui::modals::help::HelpModal;
use neo_mangal::ui::modals::settings::{SettingItem, SettingsAction, SettingsModal};
use neo_mangal::ui::modals::source_select::SourceSelectModal;
use neo_mangal::ui::navigation::{global_command, help_topic_name, view_key, Command, HelpTopic, Key, ViewState};

fn at(view: CurrentView, has_favorites: bool, has_mangas: bool) -> ViewState {
    ViewState { view, filter_active: false, previous_view: None, has_favorites, has_mangas, has_sources: true }
}

fn series(id: &str, title: &str, provider: &str) -> Manga {
    Manga {
        id: id.into(),
        title: title.into(),
        url: format!("https://example.com/{}", id),
        cover_url: None,
        provider: provider.into(),
    }
}

#[test]
fn test_help_modal_flow() {
    // '?' in the favorites opens the favorites' help ...
    let (_, cmd) = view_key(at(CurrentView::Favorites, true, false), Key::Char('?'));
    assert_eq!(cmd, Command::OpenHelp(HelpTopic::Favorites));
    let help = HelpModal::new(help_topic_name(HelpTopic::Favorites));
    assert_eq!(help.current_view, "favorites");
    // ... and '?' again closes it.
    assert_eq!(modal_key(ModalKind::Help, Key::Char('?')), ModalAction::Close);
    // In the chapter list the help is the chapter list's.
    let (_, cmd) = view_key(at(CurrentView::ChapterList, true, false), Key::Char('?'));
    assert_eq!(cmd, Command::OpenHelp(HelpTopic::ChapterList));
    assert_eq!(HelpModal::new(help_topic_name(HelpTopic::ChapterList)).current_view, "chapter_list");
    // Esc closes it.
    assert_eq!(modal_key(ModalKind::Help, Key::Esc), ModalAction::Close);
}

#[test]
fn test_confirm_remove_favorite_flow() {
    let manga = series("bleach", "Bleach", "MangaDex");
    let mut favorites = vec![FavoriteManga::from_manga(&manga)];
    let state = at(CurrentView::Favorites, true, false);
    // 'd' and Delete do nothing.
    assert_eq!(view_key(state, Key::Char('d')), (state, Command::Nothing));
    assert_eq!(view_key(state, Key::Other), (state, Command::Nothing));
    assert_eq!(favorites.len(), 1);
    // 'f' asks first; 'n' cancels.
    assert_eq!(view_key(state, Key::Char('f')).1, Command::AskRemoveFavorite);
    assert_eq!(modal_key(ModalKind::ConfirmRemove, Key::Char('n')), ModalAction::Cancel);
    assert_eq!(favorites.len(), 1);
    // 'f' again, and 's' (Portuguese "sim") confirms.
    assert_eq!(view_key(state, Key::Char('f')).1, Command::AskRemoveFavorite);
    assert_eq!(modal_key(ModalKind::ConfirmRemove, Key::Char('s')), ModalAction::Confirm);
    assert!(FavoriteManager::remove_favorite(&mut favorites, &manga.url));
    assert_eq!(favorites.len(), 0);
    // With no favorite left the search box takes over.
    let (view, selected) = after_favorite_removed(CurrentView::Favorites, favorites.len(), Some(0));
    assert_eq!(view, CurrentView::Search);
    assert_eq!(selected, None);
}

#[test]
fn test_favorite_toggle_and_last_chapter_event() {
    let manga = series("one-piece", "One Piece", "WeebCentral");
    let mut favorites: Vec<FavoriteManga> = Vec::new();
    let results = at(CurrentView::MangaResults, false, true);
    // 'f' on a result that is no favorite adds it.
    assert_eq!(view_key(results, Key::Char('f')).1, Command::ToggleFavorite);
    assert!(!FavoriteManager::is_favorite(&favorites, &manga.url));
    FavoriteManager::toggle_favorite(&mut favorites, &manga);
    assert!(favorites.iter().any(|f| f.url == manga.url));
    // A downloaded chapter is remembered.
    assert!(FavoriteManager::update_last_downloaded(&mut favorites, &manga.url, "Chapter 1111"));
    let fav = favorites.iter().find(|f| f.url == manga.url).unwrap();
    assert_eq!(fav.last_downloaded_chapter.as_deref(), Some("Chapter 1111"));
    // 'f' on a favorite asks first; Enter confirms the removal.
    assert!(FavoriteManager::is_favorite(&favorites, &manga.url));
    assert_eq!(modal_key(ModalKind::ConfirmRemove, Key::Enter), ModalAction::Confirm);
    FavoriteManager::remove_favorite(&mut favorites, &manga.url);
    assert!(!favorites.iter().any(|f| f.url == manga.url));
}

#[test]
fn test_edit_path_modal_flow() {
    let mut config = Config::default();
    let mut settings = SettingsModal::new(&config);
    // The download folder is selected first; Enter opens the folder editor.
    assert_eq!(settings.selected_item, SettingItem::DownloadDir);
    assert_eq!(modal_key(ModalKind::Settings, Key::Enter), ModalAction::SettingsEnter);
    assert_eq!(settings.handle_enter(), Some(SettingsAction::EditDownloadPath));
    let mut editor = EditPathModal::new(&settings.input_path);
    // Typing, then Esc: back to the settings with nothing kept.
    for c in "/tmp".chars() {
        assert_eq!(modal_key(ModalKind::EditPath, Key::Char(c)), ModalAction::PathChar(c));
        editor.handle_char(c);
    }
    assert_eq!(modal_key(ModalKind::EditPath, Key::Esc), ModalAction::PathCancel);
    let before = config.download_dir.clone();
    assert_eq!(config.download_dir, before);
    // Enter again, a new folder, and Enter keeps it.
    assert_eq!(settings.handle_enter(), Some(SettingsAction::EditDownloadPath));
    editor = EditPathModal::new(&settings.input_path);
    editor.input_path = "/tmp/test_download".to_string();
    assert_eq!(modal_key(ModalKind::EditPath, Key::Enter), ModalAction::PathConfirm);
    assert!(config.take_typed_download_dir(&editor.input_path));
    assert_eq!(config.download_dir, "/tmp/test_download");
}

#[test]
fn test_initial_screen_and_source_modal() {
    let available = vec!["MangaDex".to_string(), "WeebCentral".to_string()];
    // Ctrl+P opens the source choice from anywhere.
    assert_eq!(global_command(Key::Char('p'), true, true), Some(Command::OpenSourceSelect));
    let mut modal = SourceSelectModal::new(available.clone(), &[]);
    // Space toggles; Enter keeps the checked sources and closes.
    assert_eq!(modal_key(ModalKind::SourceSelect, Key::Char(' ')), ModalAction::SourcesToggle);
    modal.toggle_check();
    assert_eq!(modal_key(ModalKind::SourceSelect, Key::Enter), ModalAction::SourcesDone);
    assert!(!modal.get_selected_sources().is_empty());
    assert_eq!(view_after_sources(CurrentView::Favorites), CurrentView::Favorites);
    // In the favorites, 'p' opens it too, and Esc also keeps the choice.
    let (_, cmd) = view_key(at(CurrentView::Favorites, true, false), Key::Char('p'));
    assert_eq!(cmd, Command::OpenSourceSelect);
    let modal = SourceSelectModal::new(available, &["WeebCentral".to_string()]);
    assert_eq!(modal_key(ModalKind::SourceSelect, Key::Esc), ModalAction::SourcesDone);
    assert_eq!(modal.get_selected_sources(), vec!["WeebCentral".to_string()]);
}

#[test]
fn test_process_modal_pdf_selection() {
    // Enter in the chapter list opens the preparation window for the
    // chapter under the cursor.
    let (_, cmd) = view_key(at(CurrentView::ChapterList, false, false), Key::Enter);
    assert_eq!(cmd, Command::Process);
    let (title, count) = process_title(0, true, Some("Chapter 1"), Some("Manga")).unwrap();
    assert_eq!(count, 1);
    let mut p = ProcessModal::new(&title, count, "AZW3", true);
    while p.format != "PDF" {
        p.cycle_format();
    }
    assert_eq!(p.format, "PDF");
    // PDF needs no KCC, so starting asks for no converter tool.
    assert!(!p.is_kcc());
    assert_eq!(modal_key(ModalKind::Process, Key::Enter), ModalAction::ProcessStart);
}

#[test]
fn test_navigation_stack_and_persistence() {
    // Enter in the favorites opens the series' chapters ...
    let (_, cmd) = view_key(at(CurrentView::Favorites, true, true), Key::Enter);
    assert_eq!(cmd, Command::OpenFavorite);
    // ... and Esc in the chapters returns to the favorites, not the results.
    let mut chapters = at(CurrentView::ChapterList, true, true);
    chapters.previous_view = Some(CurrentView::Favorites);
    let (back, _) = view_key(chapters, Key::Esc);
    assert_eq!(back.view, CurrentView::Favorites);
    // From the results it is the same, back to the results.
    let (_, cmd) = view_key(at(CurrentView::MangaResults, true, true), Key::Enter);
    assert_eq!(cmd, Command::OpenManga);
    chapters.previous_view = Some(CurrentView::MangaResults);
    let (back, _) = view_key(chapters, Key::Esc);
    assert_eq!(back.view, CurrentView::MangaResults);
}

#[test]
fn test_confirm_mark_read_modal_flow() {
    // 'm' in the chapter list asks to mark the chapter as read.
    let (_, cmd) = view_key(at(CurrentView::ChapterList, false, false), Key::Char('m'));
    assert_eq!(cmd, Command::MarkRead);
    // Without a token an alert says AniList is not connected.
    let (title, _) = I18n::anilist_not_connected(AppLanguage::English);
    assert!(!title.is_empty());
    // The chapter's number comes from its title where it has none.
    assert_eq!(Chapter::parse_number_from_title("Chapter 45 - The Battle"), Some("45".to_string()));
    // Esc cancels; Enter confirms.
    assert_eq!(modal_key(ModalKind::ConfirmMarkRead, Key::Esc), ModalAction::Cancel);
    assert_eq!(modal_key(ModalKind::ConfirmMarkRead, Key::Enter), ModalAction::Confirm);
}
