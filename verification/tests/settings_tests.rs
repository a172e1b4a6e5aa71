use neo_mangal::config::Config;
use neo_mangal::i18n::AppLanguage;
use neo_mangal::ui::modals::settings::{SettingItem, SettingsAction, SettingsModal};
use neo_mangal::ui::modals::settings_text::SettingsSection;

#[test]
fn test_navigation_and_toggle() {
    let config = Config::default();
    let mut modal = SettingsModal::new(&config);

    assert_eq!(modal.selected_item, SettingItem::DownloadDir);
    modal.next_item();
    assert_eq!(modal.selected_item, SettingItem::Language);
    modal.next_item();
    assert_eq!(modal.selected_item, SettingItem::KindleProfile);
    modal.prev_item();
    assert_eq!(modal.selected_item, SettingItem::Language);

    assert_eq!(modal.language, "en");
    modal.handle_enter();
    assert_eq!(modal.language, "pt-br");

    modal.selected_item = SettingItem::KindleProfile;
    assert_eq!(modal.profile, "KPW5");
    modal.cycle_profile();
    assert_eq!(modal.profile, "KV");
    modal.handle_right();
    assert_eq!(modal.profile, "KO");
    modal.handle_left();
    assert_eq!(modal.profile, "KV");

    modal.selected_item = SettingItem::OutputFormat;
    assert_eq!(modal.format, "AZW3");
    modal.handle_enter();
    assert_eq!(modal.format, "CBZ");

    modal.anilist_username = Some("testuser".to_string());
    modal.selected_item = SettingItem::AnilistAutoSync;
    assert!(!modal.anilist_sync_on_download);
    modal.handle_space();
    assert!(modal.anilist_sync_on_download);
    modal.handle_space();
    assert!(!modal.anilist_sync_on_download);
}

#[test]
fn test_cycle_format() {
    let config = Config::default();
    let mut modal = SettingsModal::new(&config);
    assert_eq!(modal.format, "AZW3");

    modal.cycle_format();
    assert_eq!(modal.format, "CBZ");

    modal.cycle_format();
    assert_eq!(modal.format, "EPUB");

    modal.cycle_format();
    assert_eq!(modal.format, "MOBI");

    modal.cycle_format();
    assert_eq!(modal.format, "PDF");

    modal.cycle_format();
    assert_eq!(modal.format, "AZW3");
}

#[test]
fn test_download_dir_edit_action() {
    let config = Config::default();
    let mut modal = SettingsModal::new(&config);
    modal.selected_item = SettingItem::DownloadDir;
    assert_eq!(modal.handle_enter(), Some(SettingsAction::EditDownloadPath));
    assert_eq!(modal.handle_space(), Some(SettingsAction::EditDownloadPath));
}

#[test]
fn items_wrap_around() {
    assert_eq!(SettingItem::AnilistAutoSync.next(), SettingItem::DownloadDir);
    assert_eq!(SettingItem::DownloadDir.prev(), SettingItem::AnilistAutoSync);
    let mut item = SettingItem::OutputFormat;
    for _ in 0..6 {
        item = item.next();
    }
    assert_eq!(item, SettingItem::OutputFormat);
}

#[test]
fn right_then_left_restores_profile_and_format() {
    let mut modal = SettingsModal::new(&Config::default());
    modal.selected_item = SettingItem::KindleProfile;
    modal.profile = "KPW".to_string();
    modal.handle_right();
    assert_eq!(modal.profile, "KPW5");
    modal.handle_left();
    assert_eq!(modal.profile, "KPW");
    modal.profile = "unknown".to_string();
    modal.handle_left();
    assert_eq!(modal.profile, "KPW");

    modal.selected_item = SettingItem::OutputFormat;
    modal.format = "pdf".to_string();
    modal.handle_right();
    assert_eq!(modal.format, "AZW3");
    modal.handle_left();
    assert_eq!(modal.format, "PDF");
    modal.format = "odd".to_string();
    modal.handle_left();
    assert_eq!(modal.format, "PDF");
}

#[test]
fn account_rows_ask_to_connect_or_disconnect() {
    let mut modal = SettingsModal::new(&Config::default());
    modal.selected_item = SettingItem::AnilistAccount;
    assert_eq!(modal.handle_enter(), Some(SettingsAction::OpenAnilist));
    modal.selected_item = SettingItem::AnilistAutoSync;
    assert_eq!(modal.handle_enter(), Some(SettingsAction::OpenAnilist));
    modal.anilist_username = Some("me".to_string());
    modal.anilist_enabled = true;
    modal.selected_item = SettingItem::AnilistAccount;
    assert_eq!(modal.handle_enter(), Some(SettingsAction::DisconnectAnilist));
    assert_eq!(modal.anilist_username, None);
    assert!(!modal.anilist_enabled);
}

#[test]
fn language_row_and_descriptions() {
    let mut modal = SettingsModal::new(&Config::default());
    modal.language = "fr".to_string();
    assert_eq!(modal.current_lang(), AppLanguage::English);
    modal.selected_item = SettingItem::Language;
    modal.handle_left();
    assert_eq!(modal.language, "pt-br");
    assert_eq!(modal.current_lang(), AppLanguage::Portuguese);
    assert_eq!(SettingsModal::profile_short_description("KO"), "Oasis 2ª/3ª Gen");
    assert_eq!(
        SettingsModal::profile_full_description("K11", AppLanguage::Portuguese),
        "Kindle Básico (11ª Geração - 300 ppi, 1072x1448)"
    );
    assert_eq!(SettingsModal::profile_full_description("X", AppLanguage::English), "Kindle Device");
}

#[test]
fn settings_rows_and_help_text() {
    let mut config = Config::default();
    config.language = "pt-br".to_string();
    let mut modal = SettingsModal::new(&config);
    assert_eq!(modal.language_display(), "Português (Brasil)");
    assert_eq!(SettingsModal::row_label(SettingItem::DownloadDir, AppLanguage::Portuguese), "Pasta Download:  ");
    assert_eq!(SettingsModal::section_title(SettingsSection::Kindle, AppLanguage::English), "[ Kindle & Converter ]");
    assert_eq!(modal.account_parts(), vec!["Desconectado  ", "[ Conectar Conta ]"]);
    assert_eq!(modal.sync_label(), "[ DESATIVADO ] (Requer login AniList)");
    modal.language = "pt".to_string();
    // Only the code "pt-br" shows the Portuguese name, though "pt" switches the texts.
    assert_eq!(modal.language_display(), "English");
    modal.anilist_username = Some("kaleb".to_string());
    modal.anilist_sync_on_download = true;
    assert_eq!(modal.account_parts(), vec!["@kaleb", " (Conectado)"]);
    assert_eq!(modal.sync_label(), "[ ATIVADO ]");

    modal.language = "en".to_string();
    modal.selected_item = SettingItem::DownloadDir;
    modal.input_path = "  ".to_string();
    assert_eq!(modal.info_lines(false).0, "Status: ✗ Path cannot be empty");
    modal.input_path = "/tmp/x".to_string();
    assert_eq!(modal.info_lines(true).0, "Status: ✓ Accessible directory found");
    modal.selected_item = SettingItem::OutputFormat;
    modal.format = "pdf".to_string();
    assert!(modal.info_lines(false).1.starts_with("Portable Document Format"));
    assert_eq!(SettingsModal::format_description("xyz", AppLanguage::English), "");
    modal.selected_item = SettingItem::AnilistAccount;
    assert_eq!(modal.info_lines(false).0, "Connected as @kaleb. Reading progress and favorites are synced.");
    assert_eq!(SettingsModal::footer_hints(AppLanguage::Portuguese)[1], ("[Enter/Espaço] ", "Alterar   "));
    assert_eq!(SettingsModal::info_title(AppLanguage::English), " ℹ Info ");
}

#[test]
fn settings_window_title() {
    assert_eq!(SettingsModal::window_title(AppLanguage::English), " 󰒓 Settings ");
    assert_eq!(SettingsModal::window_title(AppLanguage::Portuguese), " 󰒓 Configurações ");
}
