use neo_mangal::config::Config;
use neo_mangal::domain::favorite::FavoriteManga;
use neo_mangal::domain::job::JobStatus;
use neo_mangal::domain::manga::{Chapter, Manga};
use neo_mangal::i18n::AppLanguage;
use neo_mangal::ui::browse::CurrentView;
use neo_mangal::ui::components::{
    ChapterListComponent, FavoritesListComponent, HeaderComponent, MangaListComponent,
    ProgressBarComponent, SearchBarComponent, StatusBarComponent,
};
use neo_mangal::ui::image_preview::{ImagePreview, PreviewCell};
use neo_mangal::ui::modal_keys::{
    after_favorite_removed, modal_key, view_after_sources, ModalAction, ModalKind,
};
use neo_mangal::ui::modals::anilist::AnilistModal;
use neo_mangal::ui::modals::settings::SettingsModal;
use neo_mangal::ui::modals::source_select::NameSet;
use neo_mangal::ui::navigation::Key;

fn manga() -> Manga {
    Manga {
        id: "bleach".into(),
        title: "Bleach".into(),
        url: "https://example.com/bleach".into(),
        cover_url: None,
        provider: "MangaDex".into(),
    }
}

#[test]
fn test_header_parts() {
    let parts = HeaderComponent::title_parts("0.1.0", "MangaDex", false, AppLanguage::English);
    assert_eq!(parts, vec![" NEO-MANGAL ", " v0.1.0 ", " |  Source: ", "MangaDex", "  ", " [READY] "]);
    let busy = HeaderComponent::title_parts("0.1.0", "X", true, AppLanguage::Portuguese);
    assert_eq!(busy[5], " [OCUPADO] ");
}

#[test]
fn test_search_bar_parts() {
    let empty = SearchBarComponent::display_parts("", false, AppLanguage::English);
    assert_eq!(empty.len(), 1);
    assert!(empty[0].starts_with("Type manga name"));
    assert_eq!(SearchBarComponent::display_parts("", true, AppLanguage::English), vec!["> ", "", "█"]);
    assert_eq!(SearchBarComponent::display_parts("one", false, AppLanguage::English), vec!["> ", "one", ""]);
}

#[test]
fn test_list_rows() {
    let m = manga();
    assert_eq!(MangaListComponent::row_parts(0, &m), vec![" 1. ", "Bleach", " [MangaDex]"]);
    assert_eq!(MangaListComponent::row_parts(11, &m)[0], "12. ");
    assert_eq!(MangaListComponent::row_parts(99, &m)[0], "100. ");

    let mut fav = FavoriteManga::from_manga(&m);
    let row = FavoritesListComponent::row_parts(0, &fav, AppLanguage::English);
    assert_eq!(row[1], "★ ");
    assert_eq!(row[4], "  󰋩 Not downloaded yet");
    fav.last_downloaded_chapter = Some("Chapter 3".into());
    let row = FavoritesListComponent::row_parts(2, &fav, AppLanguage::Portuguese);
    assert_eq!(row[0], " 3. ");
    assert_eq!(row[4], "  󰄬 Último: Chapter 3");
    assert_eq!(FavoritesListComponent::title(4, AppLanguage::English), " 󰓎 Favorite Mangas (4) ");
    assert_eq!(FavoritesListComponent::empty_lines(AppLanguage::English).len(), 5);
}

#[test]
fn test_chapter_list_parts() {
    let parts = ChapterListComponent::filter_parts("10", true, 0, 0, 3, AppLanguage::English);
    assert_eq!(parts[0], "Filter: ");
    assert_eq!(parts[1], "10");
    assert_eq!(parts[2], "█");
    // An empty result still shows one page.
    assert_eq!(parts[4], "Page 1/1 (3 matching)");
    let chapters = vec![
        Chapter { id: "a".into(), manga_id: "m".into(), title: "1".into(), url: "u".into(), number: None },
        Chapter { id: "b".into(), manga_id: "m".into(), title: "2".into(), url: "u".into(), number: None },
    ];
    let mut sel = NameSet::new();
    sel.insert("b".to_string());
    assert_eq!(ChapterListComponent::checked_rows(&chapters, &sel), vec![false, true]);
    assert_eq!(ChapterListComponent::check_mark(true), "󰄲 ");
}

#[test]
fn test_progress_labels() {
    let l = ProgressBarComponent::label(&JobStatus::Downloading { current: 3, total: 10 }, 30, AppLanguage::English);
    assert_eq!(l, "Downloading pages 3/10 (30%)");
    assert_eq!(ProgressBarComponent::label(&JobStatus::Idle, 0, AppLanguage::Portuguese), "Pronto");
    assert_eq!(ProgressBarComponent::label(&JobStatus::Failed("x".into()), 0, AppLanguage::English), "Error: x");
}

#[test]
fn test_status_bar_hints() {
    let hints = StatusBarComponent::key_hints("search", AppLanguage::English);
    assert_eq!(hints[0], (" [Enter] ", "Search  "));
    assert_eq!(hints.len(), 4);
    let hints = StatusBarComponent::key_hints("chapter_list", AppLanguage::Portuguese);
    assert_eq!(hints.len(), 8);
    assert_eq!(hints[1], (" [Espaço] ", "Marcar  "));
    assert_eq!(StatusBarComponent::key_hints("favorites", AppLanguage::English), vec![(" [q] ", "Quit")]);
    assert_eq!(StatusBarComponent::output_note("/tmp/x"), "  |  Out: /tmp/x");
}

#[test]
fn test_halfblock_rows() {
    let red = (255u8, 0u8, 0u8, 255u8);
    let clear = (0u8, 0u8, 0u8, 0u8);
    let pixels = vec![vec![red, clear], vec![clear, red]];
    let rows = ImagePreview::halfblock_rows(&pixels, 5);
    // One cell row, centred in five: two blank rows above it.
    assert_eq!(rows.len(), 3);
    assert!(rows[0].is_empty() && rows[1].is_empty());
    assert_eq!(rows[2], vec![
        PreviewCell { top: Some((255, 0, 0)), bottom: None },
        PreviewCell { top: None, bottom: Some((255, 0, 0)) },
    ]);
    assert_eq!(ImagePreview::halfblock_rows(&pixels, 1).len(), 1);
}

#[test]
fn test_modal_key_table() {
    assert_eq!(modal_key(ModalKind::Help, Key::Char('?')), ModalAction::Close);
    assert_eq!(modal_key(ModalKind::Help, Key::Char('x')), ModalAction::Ignore);
    assert_eq!(modal_key(ModalKind::ConfirmRemove, Key::Char('s')), ModalAction::Confirm);
    assert_eq!(modal_key(ModalKind::ConfirmRemove, Key::Char('n')), ModalAction::Cancel);
    assert_eq!(modal_key(ModalKind::ConfirmRemove, Key::Char('d')), ModalAction::Ignore);
    assert_eq!(modal_key(ModalKind::Settings, Key::Esc), ModalAction::SettingsSave);
    assert_eq!(modal_key(ModalKind::Settings, Key::Enter), ModalAction::SettingsEnter);
    assert_eq!(modal_key(ModalKind::EditPath, Key::Char('/')), ModalAction::PathChar('/'));
    assert_eq!(modal_key(ModalKind::EditPath, Key::Esc), ModalAction::PathCancel);
    assert_eq!(modal_key(ModalKind::Process, Key::Char('o')), ModalAction::ProcessCycleFormat);
    assert_eq!(modal_key(ModalKind::Process, Key::Char('x')), ModalAction::ProcessChar('x'));
    assert_eq!(modal_key(ModalKind::SourceSelect, Key::Char('q')), ModalAction::Quit);
    assert_eq!(modal_key(ModalKind::SourceSelect, Key::Enter), ModalAction::SourcesDone);
    assert_eq!(modal_key(ModalKind::InstallSucceeded, Key::Enter), ModalAction::InstallContinue);
    assert_eq!(modal_key(ModalKind::InstallRunning, Key::Enter), ModalAction::Ignore);
    assert_eq!(modal_key(ModalKind::Anilist, Key::Tab), ModalAction::AnilistOpenBrowser);
    assert_eq!(modal_key(ModalKind::Anilist, Key::Enter), ModalAction::AnilistSubmit);
}

#[test]
fn test_views_after_modals() {
    assert_eq!(view_after_sources(CurrentView::Favorites), CurrentView::Favorites);
    assert_eq!(view_after_sources(CurrentView::SearchUnfocused), CurrentView::Search);
    assert_eq!(after_favorite_removed(CurrentView::Favorites, 0, Some(0)), (CurrentView::Search, None));
    assert_eq!(after_favorite_removed(CurrentView::MangaResults, 0, Some(0)), (CurrentView::MangaResults, None));
    assert_eq!(after_favorite_removed(CurrentView::Favorites, 2, Some(2)), (CurrentView::Favorites, Some(1)));
    assert_eq!(after_favorite_removed(CurrentView::Favorites, 3, Some(1)), (CurrentView::Favorites, Some(1)));
    assert_eq!(after_favorite_removed(CurrentView::Favorites, 3, None), (CurrentView::Favorites, Some(0)));
}

#[test]
fn test_anilist_token_extraction() {
    let mut modal = AnilistModal::new();
    assert_eq!(modal.submitted_token(), None);
    for c in "   ".chars() {
        modal.handle_char(c);
    }
    assert_eq!(modal.submitted_token(), None);
    modal.input_token = "  abc.def  ".into();
    assert_eq!(modal.submitted_token(), Some("abc.def".to_string()));
    modal.input_token = "https://anilist.co/api/v2/oauth/pin#access_token=TOKEN123&token_type=Bearer".into();
    assert_eq!(modal.submitted_token(), Some("TOKEN123".to_string()));
    modal.input_token = "access_token= tok ".into();
    assert_eq!(modal.submitted_token(), Some("tok".to_string()));
}

#[test]
fn test_settings_store() {
    let mut config = Config::default();
    let before_dir = config.download_dir.clone();
    let mut modal = SettingsModal::new(&config);
    modal.language = "pt".into();
    modal.format = "PDF".into();
    modal.input_path = "   ".into();
    modal.store_all(&mut config);
    assert_eq!(config.language, "pt");
    assert_eq!(config.kcc_format, "PDF");
    assert_eq!(config.download_dir, before_dir);
    modal.input_path = "  /tmp/test_download ".into();
    modal.store_all(&mut config);
    assert_eq!(config.download_dir, "/tmp/test_download");
    // Reopened, the window shows what was kept.
    let again = SettingsModal::new(&config);
    assert_eq!(again.input_path, "/tmp/test_download");
    assert_eq!(again.language, "pt");

    assert!(!config.take_typed_download_dir(" "));
    assert!(config.take_typed_download_dir(" /x "));
    assert_eq!(config.download_dir, "/x");
    config.anilist_token = Some("t".into());
    config.anilist_username = Some("u".into());
    config.anilist_enabled = true;
    config.disconnect_anilist();
    assert!(config.anilist_token.is_none() && config.anilist_username.is_none() && !config.anilist_enabled);
}
