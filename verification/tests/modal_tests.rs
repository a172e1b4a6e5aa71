use neo_mangal::i18n::AppLanguage;
use neo_mangal::config::Config;
use neo_mangal::converter::toolchain::ToolchainStatus;
use neo_mangal::domain::manga::Manga;
use neo_mangal::ui::layout::{Area, settings_area, help_area, fixed_area, settings_has_info_box};
use neo_mangal::ui::modals::alert::AlertModal;
use neo_mangal::ui::modals::anilist::AnilistModal;
use neo_mangal::ui::modals::confirm_remove::ConfirmRemoveModal;
use neo_mangal::ui::image_preview::cell_color;
use neo_mangal::ui::modals::cover_prompt::ProcessModal;
use neo_mangal::ui::modals::edit_path::{find_common_prefix, EditPathModal};
use neo_mangal::ui::modals::help::HelpModal;
use neo_mangal::ui::modals::install_sources::{InstallSourcesModal, InstallState};
use neo_mangal::ui::modals::styled::Tone;
use neo_mangal::ui::modals::kcc_missing::KccMissingModal;
use neo_mangal::ui::modals::mark_read_text::{mark_read_footer, mark_read_lines, mark_read_title};

#[test]
fn test_alert_modal_new() {
    let alert = AlertModal::new("Sucesso!", "Capítulo 1 marcado como lido.", false);
    assert_eq!(alert.title, "Sucesso!");
    assert_eq!(alert.message, "Capítulo 1 marcado como lido.");
    assert!(!alert.is_error);

    let err_alert = AlertModal::new("Erro", "Falha de conexão", true);
    assert!(err_alert.is_error);
}

#[test]
fn alert_window_grows_with_lines() {
    let area = Area { x: 0, y: 0, width: 100, height: 40 };
    let one = AlertModal::new("t", "one line", false);
    assert_eq!(one.line_count(), 1);
    assert_eq!(one.window(area), Area { x: 19, y: 16, width: 62, height: 8 });
    let many = AlertModal::new("t", "a\nb\nc\nd\ne\n", false);
    assert_eq!(many.line_count(), "a\nb\nc\nd\ne\n".lines().count());
    assert_eq!(many.window(area).height, 11);
    let lots = AlertModal::new("t", &"x\n".repeat(30), false);
    assert_eq!(lots.window(area).height, 14);
}

#[test]
fn test_confirm_remove_modal_creation() {
    let manga = Manga {
        id: "m1".into(),
        title: "Naruto".into(),
        url: "https://example.com/naruto".into(),
        cover_url: None,
        provider: "MangaDex".into(),
    };
    let modal = ConfirmRemoveModal::new(manga.clone());
    assert_eq!(modal.manga.title, "Naruto");
    assert_eq!(modal.manga.provider, "MangaDex");
    let area = Area { x: 0, y: 0, width: 100, height: 40 };
    assert_eq!(modal.window(area), Area { x: 22, y: 14, width: 55, height: 11 });
}

#[test]
fn simple_windows() {
    let help = HelpModal::new("favorites");
    assert_eq!(help.current_view, "favorites");
    let area = Area { x: 0, y: 0, width: 120, height: 50 };
    assert_eq!(help.window(area), Area { x: 19, y: 13, width: 82, height: 23 });
    assert_eq!(settings_area(Area { x: 0, y: 0, width: 80, height: 20 }), Area { x: 6, y: 2, width: 68, height: 15 });
    assert_eq!(help_area(Area { x: 0, y: 0, width: 10, height: 5 }).width, 8);
    assert_eq!(fixed_area(Area { x: 2, y: 3, width: 100, height: 30 }, 72, 9), Area { x: 16, y: 13, width: 72, height: 9 });
    assert!(settings_has_info_box(19) && !settings_has_info_box(18));
    let missing = KccMissingModal::new(ToolchainStatus { kcc_cli_path: None, kindlegen_path: None });
    assert!(missing.status.kcc_cli_path.is_none());
}

#[test]
fn install_flow() {
    let mut m = InstallSourcesModal::default();
    assert_eq!(m.state, InstallState::Prompt);
    m.start_install();
    assert_eq!(m.state, InstallState::Downloading);
    assert_eq!(m.finish_local(Vec::new()), None);
    assert_eq!(m.state, InstallState::Downloading);
    assert_eq!(m.finish_local(vec!["b".into(), "a".into()]), Some(vec!["a".to_string(), "b".to_string()]));
    assert_eq!(m.state, InstallState::Success(2));
    assert_eq!(m.finish_remote(Err("offline".into())), Err("offline".to_string()));
    assert_eq!(m.state, InstallState::Error("offline".into()));
}

#[test]
fn test_anilist_modal_input() {
    let mut modal = AnilistModal::new();
    assert_eq!(modal.input_token, "");
    modal.handle_char('a');
    modal.handle_char('b');
    assert_eq!(modal.input_token, "ab");
    modal.handle_backspace();
    assert_eq!(modal.input_token, "a");
    modal.handle_char('\n');
    assert_eq!(modal.input_token, "a");
}

#[test]
fn edit_path_typing_and_completion() {
    let mut modal = EditPathModal::new("/tmp/folder_a");
    modal.handle_char('l');
    assert_eq!(modal.input_path, "/tmp/folder_al");
    modal.handle_backspace();
    assert_eq!(modal.input_path, "/tmp/folder_a");
    modal.handle_char('\u{7}');
    assert_eq!(modal.input_path, "/tmp/folder_a");
    let listing = modal.autocomplete_begin(Some("/home/u".to_string())).unwrap();
    assert_eq!(listing.resolved_dir, "/tmp/");
    assert_eq!(listing.base_dir, "/tmp/");
    assert_eq!(listing.prefix, "folder_a");
    modal.autocomplete_finish(listing, vec!["folder_beta".into(), "folder_alpha".into(), ".folder_a".into()]);
    assert_eq!(modal.input_path, "/tmp/folder_alpha/");

    let mut m2 = EditPathModal::new("~/Do");
    let l2 = m2.autocomplete_begin(Some("/home/u".to_string())).unwrap();
    assert_eq!(l2.resolved_dir, "/home/u/");
    assert_eq!(l2.base_dir, "~/");
    m2.autocomplete_finish(l2, vec!["Downloads".into(), "Documents".into(), "Desktop".into()]);
    assert_eq!(m2.input_path, "~/Documents/");
    assert!(m2.autocomplete_begin(None).is_none());
    assert_eq!(m2.input_path, "~/Downloads/");
    assert!(m2.autocomplete_begin(None).is_none());
    assert_eq!(m2.input_path, "~/Documents/");

    let mut m3 = EditPathModal::new("   ");
    assert!(m3.autocomplete_begin(Some("/home/u".to_string())).is_none());
    assert_eq!(m3.input_path, "/home/u/");
    assert_eq!(find_common_prefix(&vec!["Alpha".into(), "alps".into()]), "Alp");
    assert_eq!(find_common_prefix(&vec!["x".into(), "y".into()]), "");
}

#[test]
fn test_clean_drag_drop_path() {
    assert_eq!(ProcessModal::clean_drag_drop_path("file:///Users/test/cover.jpg"), "/Users/test/cover.jpg");
    assert_eq!(ProcessModal::clean_drag_drop_path("'/Users/test/my cover.jpg'"), "/Users/test/my cover.jpg");
    assert_eq!(ProcessModal::clean_drag_drop_path(r"/Users/test/my\ cover.jpg"), "/Users/test/my cover.jpg");
}

#[test]
fn clean_path_with_home_and_quotes() {
    assert_eq!(ProcessModal::clean_drag_drop_path_with_home("~/covers/a.png", Some("/home/u")), "/home/u/covers/a.png");
    assert_eq!(ProcessModal::clean_drag_drop_path_with_home("  \"x y.jpg\"  ", None), "x y.jpg");
    assert_eq!(ProcessModal::clean_drag_drop_path_with_home("'", None), "'");
    let mut m = ProcessModal::new("T", 1, "cbz", true);
    m.input_path = "/a/b.JPG".into();
    assert_eq!(m.cover_candidate_with_home(None), Some("/a/b.JPG".to_string()));
    m.input_path = "/a/b.gif".into();
    assert_eq!(m.cover_candidate_with_home(None), None);
    assert_eq!(cell_color((1, 2, 3, 200)), Some((1, 2, 3)));
    assert_eq!(cell_color((1, 2, 3, 100)), None);
}

#[test]
fn test_process_modal_toggles() {
    let mut modal = ProcessModal::new("Test Manga", 5, "AZW3", true);
    assert!(modal.is_kcc());
    assert!(modal.fuse_volume);
    assert_eq!(modal.format, "AZW3");

    modal.cycle_format();
    assert_eq!(modal.format, "CBZ");
    assert!(!modal.is_kcc());

    modal.cycle_format();
    assert_eq!(modal.format, "EPUB");
    assert!(modal.is_kcc());

    modal.cycle_format();
    assert_eq!(modal.format, "MOBI");
    assert!(modal.is_kcc());

    modal.cycle_format();
    assert_eq!(modal.format, "PDF");
    assert!(!modal.is_kcc());

    modal.cycle_format();
    assert_eq!(modal.format, "AZW3");
    assert!(modal.is_kcc());

    modal.toggle_kcc();
    assert_eq!(modal.format, "CBZ");
    assert!(!modal.is_kcc());

    modal.toggle_kcc();
    assert_eq!(modal.format, "AZW3");
    assert!(modal.is_kcc());

    modal.toggle_fusion();
    assert!(!modal.fuse_volume);

    let mut single_modal = ProcessModal::new("Chapter 1", 1, "CBZ", false);
    assert!(!single_modal.fuse_volume);
    single_modal.toggle_fusion();
    assert!(!single_modal.fuse_volume);
}

#[test]
fn process_modal_preview_state() {
    let mut m = ProcessModal::new("T", 1, "", true);
    assert_eq!(m.format, "AZW3");
    let p = Some("/c.png".to_string());
    assert!(!m.preview_is_current(&p, 40, 20));
    m.store_preview(p.clone(), 40, 20, Some(Vec::new()));
    assert!(m.preview_is_current(&p, 40, 20));
    assert!(!m.preview_is_current(&p, 60, 30));
    m.invalidate_preview(true);
    assert!(m.cached_preview.is_some());
    m.invalidate_preview(false);
    assert!(m.cached_preview.is_none());
    assert_eq!(m.last_preview_dims, None);
    let _ = Config::default();
}

#[test]
fn process_window_text() {
    let mut p = ProcessModal::new("One Piece (3 chapters)", 3, "AZW3", true);
    assert_eq!(p.target_line(AppLanguage::English), "󰉋 Target: One Piece (3 chapters) (3 chapter(s))");
    assert_eq!(p.cover_status(false, AppLanguage::English), "ℹ Using chapter default first page as cover");
    p.input_path = "/nope.png".to_string();
    assert_eq!(p.cover_status(false, AppLanguage::Portuguese), "󰀦 Arquivo não encontrado ou inválido");
    assert_eq!(p.cover_status(true, AppLanguage::English), "󰄬 Valid cover image detected");
    assert_eq!(p.format_badge(), "[ AZW3 ]");
    assert_eq!(p.format_summary(AppLanguage::English), "Kindle KF8 (300 ppi, max quality) via KCC");
    assert!(!p.fusion_disabled());
    p.fuse_volume = false;
    assert!(p.shows_cover_warning());
    assert_eq!(p.fusion_mark(), "󰄱");
    assert_eq!(p.action_hints(AppLanguage::English)[2], (" [f] ", "Fusion    "));
    let single = ProcessModal::new("Chapter 1", 1, "PDF", false);
    assert!(single.fusion_disabled());
    assert!(!single.shows_cover_warning());
    assert_eq!(single.fusion_mark(), "󰄱");
    assert_eq!(single.action_hints(AppLanguage::Portuguese)[2], (" [f] ", "Fusão (desabilitado)    "));
    let (pad, lines) = ProcessModal::preview_placeholder(12, AppLanguage::English);
    assert_eq!(pad, 5);
    assert_eq!(lines, vec!["No image loaded", "Drop a file to preview"]);
    assert_eq!(ProcessModal::preview_placeholder(1, AppLanguage::English).0, 0);
}

#[test]
fn help_window_text_per_view() {
    let fav = HelpModal::new("favorites");
    assert_eq!(fav.screen_title(AppLanguage::English), "[ Screen: Favorites ]");
    assert_eq!(fav.screen_title(AppLanguage::Portuguese), "[ Tela: Favoritos ]");
    let rows = fav.view_shortcuts();
    assert_eq!(rows.len(), 4);
    assert_eq!(rows[2], ("[f]", "Remove manga from favorites", "Remover mangá dos favoritos (com confirmação)"));
    let chapters = HelpModal::new("chapter_list");
    assert_eq!(chapters.view_shortcuts().len(), 7);
    assert_eq!(chapters.view_shortcuts()[1].0, "[m]");
    let other = HelpModal::new("search_unfocused");
    assert_eq!(other.screen_title(AppLanguage::English), "[ Screen: Current View ]");
    assert_eq!(other.screen_title(AppLanguage::Portuguese), "[ Tela Atual ]");
    assert_eq!(other.view_shortcuts().len(), 3);
    let global = HelpModal::global_shortcuts();
    assert_eq!(global.len(), 4);
    assert_eq!(global[3], ("[Ctrl+C] / [q]", "Quit Neo-Mangal", "Sair do Neo-Mangal"));
    assert_eq!(HelpModal::global_title(AppLanguage::Portuguese), "[ Atalhos Globais ]");
    assert_eq!(HelpModal::title(AppLanguage::English), " 󰋖 Shortcuts & Help ");
    assert_eq!(HelpModal::close_hint(AppLanguage::Portuguese), ("[Esc / Enter / ?] ", "Fechar Ajuda"));
}

#[test]
fn install_window_text_per_state() {
    let mut m = InstallSourcesModal::new();
    let body = m.body_lines(AppLanguage::English);
    assert_eq!(body.len(), 6);
    assert!(body[2].is_empty());
    assert_eq!(body[3][1], ("kalebhenrique/neo-mangal-scrapers".to_string(), Tone::Link));
    assert_eq!(m.actions(AppLanguage::Portuguese)[3], ("Pular", Tone::Plain));
    m.state = InstallState::Success(12);
    assert_eq!(m.body_lines(AppLanguage::English)[1][0].0, "󰄬 Successfully installed 12 scrapers!");
    assert_eq!(m.body_lines(AppLanguage::Portuguese)[1][0].0, "󰄬 12 scrapers instalados com sucesso!");
    assert_eq!(m.actions(AppLanguage::English), vec![(" [Enter] ", Tone::Success), ("Continue", Tone::Plain)]);
    m.state = InstallState::Error("timeout".to_string());
    assert_eq!(m.body_lines(AppLanguage::English)[1], vec![("timeout".to_string(), Tone::Muted)]);
    assert_eq!(m.actions(AppLanguage::Portuguese)[1].0, "Fechar");
    m.state = InstallState::Downloading;
    assert_eq!(m.actions(AppLanguage::English), vec![("Please wait...", Tone::Warning)]);
    assert_eq!(InstallSourcesModal::title(AppLanguage::English), " 󰋩 Manga Sources Setup ");
    assert_eq!(InstallSourcesModal::header(AppLanguage::Portuguese), "Nenhum scraper de mangá detectado no seu sistema");
}

#[test]
fn anilist_window_text() {
    let mut m = AnilistModal::new();
    for c in "abc".chars() {
        m.handle_char(c);
    }
    assert!(m.token_fits_box());
    assert_eq!(m.token_display(), "abc");
    let long: String = (0..70).map(|i| char::from(b'a' + (i % 26) as u8)).collect();
    m.input_token = long.clone();
    assert!(m.token_fits_box());
    let shown = m.token_display();
    assert_eq!(shown, format!("...{}", &long[long.len() - 57..]));
    assert_eq!(shown.len(), 60);
    // Exactly 60 bytes are shown whole.
    m.input_token = "x".repeat(60);
    assert_eq!(m.token_display(), "x".repeat(60));
    // A two-byte character straddling the cut cannot be shown.
    m.input_token = format!("{}é{}", "a".repeat(10), "b".repeat(56));
    assert!(!m.token_fits_box());
    let steps = AnilistModal::steps(AppLanguage::Portuguese);
    assert_eq!(steps.len(), 3);
    assert_eq!(steps[1][2], (" como: ", Tone::Plain));
    assert_eq!(steps[0][2], ("https://anilist.co/settings/developer", Tone::Link));
    let hints = AnilistModal::hints(AppLanguage::English);
    assert_eq!(hints[3], ("Open Browser   ", Tone::Plain));
    assert_eq!(AnilistModal::input_title(AppLanguage::Portuguese), " Access Token do AniList ");
    assert_eq!(AnilistModal::loading_text(AppLanguage::English), "⏳ Verifying token with AniList...");
}

#[test]
fn alert_window_text() {
    let ok = AlertModal::new("  Done ", "Saved to:\n/home/u/manga.cbz\r\nAniList:AniList: Chapter 3 \nC:\\books", false);
    assert_eq!(ok.title_text(), " 󰄬 Done ");
    let lines = ok.message_lines();
    assert_eq!(lines.len(), 4);
    assert_eq!(lines[0], vec![("Saved to:".to_string(), Tone::Strong)]);
    assert_eq!(lines[1], vec![("/home/u/manga.cbz".to_string(), Tone::Highlight)]);
    assert_eq!(
        lines[2],
        vec![("AniList: ".to_string(), Tone::Brand), ("Chapter 3".to_string(), Tone::Strong)]
    );
    assert_eq!(lines[3], vec![("C:\\books".to_string(), Tone::Highlight)]);
    let err = AlertModal::new("✗ Falha", "/tmp\n", true);
    assert_eq!(err.title_text(), " ✗ Falha ");
    assert_eq!(err.message_lines(), vec![vec![("/tmp".to_string(), Tone::Alarm)]]);
    let err2 = AlertModal::new("Erro", "", true);
    assert_eq!(err2.title_text(), " 󰅚 Erro ");
    assert!(err2.message_lines().is_empty());
    assert_eq!(AlertModal::footer(AppLanguage::Portuguese)[3], ("Fechar", Tone::Strong));
    assert_eq!(AlertModal::footer(AppLanguage::English)[1], ("OK      ", Tone::Strong));
}

#[test]
fn confirm_remove_window_text() {
    let modal = ConfirmRemoveModal::new(Manga {
        id: "m1".into(),
        title: "Naruto".into(),
        url: "https://example.com/naruto".into(),
        cover_url: None,
        provider: "MangaDex".into(),
    });
    assert_eq!(modal.quoted_title(), "\"Naruto\"");
    assert_eq!(modal.provider_line(AppLanguage::Portuguese), "Fonte: MangaDex");
    assert_eq!(modal.provider_line(AppLanguage::English), "Source: MangaDex");
    assert_eq!(ConfirmRemoveModal::title(AppLanguage::English), " 󰆴 Remove from Favorites ");
    assert_eq!(
        ConfirmRemoveModal::question(AppLanguage::Portuguese),
        "Tem certeza que deseja remover este mangá dos favoritos?"
    );
    let footer = ConfirmRemoveModal::footer(AppLanguage::Portuguese);
    assert_eq!(footer[0], ("[Enter/s] ", Tone::Success));
    assert_eq!(footer[3], ("Não", Tone::Strong));
}

#[test]
fn kcc_missing_window_text() {
    let both = KccMissingModal::new(ToolchainStatus { kcc_cli_path: None, kindlegen_path: None });
    assert_eq!(both.missing_list(), "kcc-c2e (KCC CLI), kindlegen (KindleGen)");
    let lines = both.body_lines(true, AppLanguage::English);
    // Heading, blank, then 3 lines and a blank for each of the two tools.
    assert_eq!(lines.len(), 2 + 4 + 4);
    assert_eq!(lines[0], vec![("Installation instructions for your system:".to_string(), Tone::Heading)]);
    assert!(lines[1].is_empty());
    assert_eq!(lines[2], vec![("• Kindle Comic Converter CLI (kcc-c2e):".to_string(), Tone::Highlight)]);
    assert_eq!(
        lines[4],
        vec![("  brew install pipx && pipx install git+https://github.com/ciromattia/kcc.git".to_string(), Tone::Positive)]
    );
    assert!(lines[5].is_empty());
    assert_eq!(lines[6][0].0, "• KindleGen (via Kindle Previewer 3):");
    let one = KccMissingModal::new(ToolchainStatus { kcc_cli_path: Some("/usr/bin/kcc-c2e".into()), kindlegen_path: None });
    assert_eq!(one.missing_list(), "kindlegen (KindleGen)");
    let linux = one.body_lines(false, AppLanguage::Portuguese);
    assert_eq!(linux.len(), 2 + 6 + 1);
    assert_eq!(linux[8 - 1], vec![("  kindlegen_path = \"/caminho/para/kindlegen\"".to_string(), Tone::Positive)]);
    let ready = KccMissingModal::new(ToolchainStatus { kcc_cli_path: Some("a".into()), kindlegen_path: Some("b".into()) });
    assert_eq!(ready.missing_list(), "");
    assert_eq!(KccMissingModal::footer(AppLanguage::English)[1].0, "Close this warning and return to list");
}

#[test]
fn edit_path_window_text() {
    let mut m = EditPathModal::new("/home/user/Mangas");
    assert!(m.path_fits_box());
    assert_eq!(m.path_display(), "/home/user/Mangas");
    assert_eq!(m.path_status(true, AppLanguage::English), ("✓ Accessible directory found", Tone::Positive));
    assert_eq!(
        m.path_status(false, AppLanguage::Portuguese),
        ("ℹ Novo diretório: será criado automaticamente ao baixar", Tone::Warning)
    );
    let long = format!("/{}", "d".repeat(59));
    m = EditPathModal::new(&long);
    assert_eq!(m.path_display(), format!("...{}", &long[long.len() - 52..]));
    m = EditPathModal::new("   ");
    assert_eq!(m.path_status(false, AppLanguage::English), ("✗ Path cannot be empty", Tone::Failure));
    m = EditPathModal::new(&format!("{}ç{}", "a".repeat(10), "b".repeat(51)));
    assert!(!m.path_fits_box());
    assert_eq!(EditPathModal::title(AppLanguage::Portuguese), " 󰉋 Diretório de Download / Saída ");
    assert_eq!(EditPathModal::input_title(AppLanguage::English), " Directory Path ");
    assert_eq!(EditPathModal::footer(AppLanguage::Portuguese)[1], ("Autocompletar   ", Tone::Plain));
}

#[test]
fn mark_read_window_text() {
    let lines = mark_read_lines("One Piece", "1050", "Honor", AppLanguage::English);
    assert_eq!(lines.len(), 5);
    assert_eq!(lines[0], vec![("  Manga:    ".to_string(), Tone::Muted), ("One Piece".to_string(), Tone::Emphasis)]);
    assert_eq!(lines[1][1], ("Ch. 1050 ".to_string(), Tone::Key));
    assert_eq!(lines[1][2], ("(Honor)".to_string(), Tone::Accent));
    assert!(lines[2].is_empty());
    assert_eq!(lines[4], vec![("  Progress will be set to Chapter 1050.".to_string(), Tone::Positive)]);
    let pt = mark_read_lines("Berserk", "10.5", "", AppLanguage::Portuguese);
    assert_eq!(pt[4][0].0, "  O progresso será atualizado para o Capítulo 10.5.");
    assert_eq!(pt[1][0].0, "  Capítulo: ");
    assert_eq!(mark_read_title(AppLanguage::Portuguese), " 󰚥 Marcar Leitura no AniList ");
    assert_eq!(mark_read_footer(AppLanguage::English)[1], ("Confirm      ", Tone::Plain));
}
