use neo_mangal::i18n::{AppLanguage, I18n};

#[test]
fn test_i18n_languages() {
    assert_eq!(AppLanguage::from_code("en"), AppLanguage::English);
    assert_eq!(AppLanguage::from_code("pt-br"), AppLanguage::Portuguese);
    assert_eq!(AppLanguage::from_code("pt"), AppLanguage::Portuguese);
    assert_eq!(AppLanguage::from_code("random"), AppLanguage::English);

    assert_eq!(I18n::search_title(AppLanguage::English), " Search Manga ");
    assert_eq!(I18n::search_title(AppLanguage::Portuguese), " Buscar Mangá ");

    assert_eq!(I18n::status_ready(AppLanguage::English), " [READY] ");
    assert_eq!(I18n::status_ready(AppLanguage::Portuguese), " [PRONTO] ");
}

#[test]
fn language_codes_ignore_case() {
    assert_eq!(AppLanguage::from_code("PT_BR"), AppLanguage::Portuguese);
    assert_eq!(AppLanguage::from_code("Portuguese"), AppLanguage::Portuguese);
    assert_eq!(AppLanguage::from_code("pt-pt"), AppLanguage::English);
    assert_eq!(AppLanguage::Portuguese.code(), "pt-br");
    assert_eq!(AppLanguage::English.display_name(), "English (Default)");
}

#[test]
fn formatted_texts_carry_their_numbers() {
    assert_eq!(I18n::series_found(AppLanguage::English, 12), " Series Found (12) ");
    assert_eq!(I18n::pagination_info(AppLanguage::Portuguese, 2, 5, 130), "Página 2/5 (130 correspondentes)");
    assert_eq!(I18n::progress_downloading(AppLanguage::English, 3, 20, 15), "Downloading pages 3/20 (15%)");
    assert_eq!(I18n::filter_chapters_title(AppLanguage::English, "Berserk"), " Filter Chapters for: \"Berserk\" ");
    assert_eq!(I18n::chapters_box_title(AppLanguage::Portuguese, 0), " Capítulos (0) ");
    assert_eq!(I18n::progress_error(AppLanguage::Portuguese, "x"), "Erro: x");
    assert_eq!(I18n::cover_valid(AppLanguage::English, "/a.png"), "Valid image detected: /a.png");
    assert_eq!(
        I18n::volume_fusion_question(AppLanguage::English, 3),
        "Fuse 3 selected chapters into a single Volume archive? Drop a Volume Cover below:"
    );
}

#[test]
fn key_hint_lists() {
    let hints = I18n::settings_instructions(AppLanguage::English);
    assert_eq!(hints.len(), 5);
    assert_eq!(hints[3], ("[Enter] ", "Save & Persist   "));
    let cover = I18n::cover_actions(AppLanguage::Portuguese);
    assert_eq!(cover[1], ("[n] / [s] ", "Pular Capa (Usar Padrão)   "));
}

#[test]
fn test_anilist_notices() {
    let (title, msg) = I18n::anilist_not_connected(AppLanguage::English);
    assert_eq!(title, "AniList Not Connected");
    assert!(msg.starts_with("Please connect"));
    assert!(I18n::token_empty(AppLanguage::Portuguese).starts_with("Token não"));
}
