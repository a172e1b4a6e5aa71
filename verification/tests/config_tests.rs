use neo_mangal::config::{Config, fallback_dir, initial_download_dir, legacy_download_dir};

#[test]
fn test_default_config_has_valid_fields() {
    let config = Config::default();
    assert_eq!(config.language, "en");
    assert_eq!(config.kcc_profile, "KPW5");
    assert_eq!(config.kcc_format, "AZW3");
    assert!(config.rename_to_azw3);
    assert!(config.kcc_manga_style);
    assert!(!config.download_dir.is_empty());
}

#[test]
fn profile_descriptions_match_known_codes() {
    assert_eq!(Config::profile_description("KPW5"), "Kindle Paperwhite (11ª / 12ª Gen - 300 ppi)");
    assert_eq!(Config::profile_description("KS"), "Kindle Scribe (10.2\" - 300 ppi)");
    assert_eq!(Config::profile_description("kpw5"), "Dispositivo Kindle");
}

#[test]
fn fallback_download_dir_prefers_platform_folder() {
    assert_eq!(fallback_dir(Some("/home/u/Downloads".to_string()), Some("/home/u".to_string())), "/home/u/Downloads/Mangas");
    assert_eq!(fallback_dir(None, Some("/home/u/".to_string())), "/home/u/Downloads/Mangas");
    assert_eq!(fallback_dir(None, None), "./Mangas");
}

#[test]
fn legacy_config_path_is_read_from_downloader_table() {
    let toml_text = "[downloader]\npath = \"/data/manga\"\n";
    assert_eq!(legacy_download_dir(toml_text), Some("/data/manga".to_string()));
    assert_eq!(legacy_download_dir("[downloader]\npath = \"   \"\n"), None);
    assert_eq!(legacy_download_dir("not = [valid"), None);
    assert_eq!(legacy_download_dir("[other]\npath = \"/x\"\n"), None);
}

#[test]
fn initial_download_dir_takes_first_usable_legacy_path() {
    let contents = vec![
        "[downloader]\npath = \"\"\n".to_string(),
        "[downloader]\npath = \"/second\"\n".to_string(),
        "[downloader]\npath = \"/third\"\n".to_string(),
    ];
    assert_eq!(initial_download_dir(&contents, None, None), "/second");
    assert_eq!(initial_download_dir(&Vec::new(), Some("/dl".to_string()), None), "/dl/Mangas");
}

#[test]
fn config_path_is_inside_config_folder() {
    assert_eq!(Config::config_path_from(Some("/home/u/.config".to_string())), "/home/u/.config/neo-mangal/config.toml");
    assert_eq!(Config::config_path_from(None), "./neo-mangal/config.toml");
}

#[test]
fn update_download_dir_sets_only_the_folder() {
    let mut config = Config::default();
    config.update_download_dir("/tmp/test_download");
    assert_eq!(config.download_dir, "/tmp/test_download");
    assert_eq!(config.kcc_profile, "KPW5");
}
