use neo_mangal::scraper::script_text::{query_escape, query_unescape, split_text, trim_text};
use neo_mangal::anilist::AnilistClient;
use neo_mangal::scraper::lua::LuaScraper;
use neo_mangal::scraper::manager::SourceManager;

#[test]
fn lua_entries_become_series_chapters_and_pages() {
    let s = LuaScraper::from_string("TestSource", "function SearchManga() end");
    assert_eq!(s.name, "TestSource");
    assert_eq!(LuaScraper::from_file_contents("/src/WeebCentral.lua", "x".into()).name, "WeebCentral");
    assert_eq!(LuaScraper::one_line_name("  Berserk \n\n  Deluxe\r\n"), "Berserk Deluxe");
    let m = LuaScraper::manga_from_entry("TestSource", "Berserk", "https://b".into(), None).unwrap();
    assert_eq!(m.id, "https://b");
    assert_eq!(m.provider, "TestSource");
    assert!(LuaScraper::manga_from_entry("P", "  \n ", "https://b".into(), None).is_none());
    assert!(LuaScraper::manga_from_entry("P", "X", "".into(), None).is_none());
    let c = LuaScraper::chapter_from_entry("https://b", "Chapter 1 Last Read", "https://b/1".into(), None).unwrap();
    assert_eq!(c.title, "Chapter 1");
    assert_eq!(c.number, Some("1".to_string()));
    let c2 = LuaScraper::chapter_from_entry("https://b", "Ch 2", "u".into(), Some("2.5".into())).unwrap();
    assert_eq!(c2.number, Some("2.5".to_string()));
    let p = LuaScraper::page_from_entry("https://example.com/berserk/1/page1.jpg".into(), None, 3).unwrap();
    assert_eq!(p.index, 3);
    assert!(LuaScraper::page_from_entry(String::new(), Some(1), 0).is_none());
}

#[test]
fn source_files_and_urls() {
    assert_eq!(SourceManager::lua_source_name("/s/MangaDex.lua"), Some("MangaDex".to_string()));
    assert_eq!(SourceManager::lua_source_name("/s/MangaDex.LUA"), None);
    assert_eq!(SourceManager::strip_lua_suffix("ComicK.lua"), "ComicK");
    assert_eq!(SourceManager::strip_lua_suffix("README"), "README");
    assert_eq!(
        SourceManager::sort_dedup(vec!["b".into(), "a".into(), "b".into()]),
        vec!["a".to_string(), "b".to_string()]
    );
    assert_eq!(
        SourceManager::api_url("kalebhenrique/neo-mangal-scrapers"),
        "https://api.github.com/repos/kalebhenrique/neo-mangal-scrapers/contents/scrapers"
    );
    assert_eq!(SourceManager::raw_url("o/r", "A.lua"), "https://raw.githubusercontent.com/o/r/main/scrapers/A.lua");
    assert_eq!(SourceManager::fallback_scrapers().len(), 8);
    assert_eq!(SourceManager::dot_config_sources("/home/u"), "/home/u/.config/neo-mangal/sources");
    assert_eq!(SourceManager::config_sources(None), "./neo-mangal/sources");
}

#[test]
fn anilist_requests_and_replies() {
    assert_eq!(AnilistClient::bearer("  tok \n"), "Bearer tok");
    let body = AnilistClient::search_body("Ber\"serk");
    let v: serde_json::Value = serde_json::from_str(&body).unwrap();
    assert_eq!(v["variables"]["search"], "Ber\"serk");
    let up = AnilistClient::progress_body(30002, -3);
    let v: serde_json::Value = serde_json::from_str(&up).unwrap();
    assert_eq!(v["variables"]["ID"], 30002);
    assert_eq!(v["variables"]["progress"], -3);
    let ok = r#"{"data":{"Viewer":{"id":1,"name":"me"}}}"#;
    assert_eq!(AnilistClient::viewer_from_body(ok), Some(Ok("me".to_string())));
    let bad = r#"{"errors":[{"message":"Invalid token"}]}"#;
    assert_eq!(AnilistClient::viewer_from_body(bad), Some(Err("AniList auth failed: Invalid token".to_string())));
    assert_eq!(AnilistClient::update_from_body(ok), Some(Ok(())));
    assert_eq!(AnilistClient::update_from_body(r#"{"errors":null}"#), Some(Err("AniList mutation error: Failed to save progress".to_string())));
    assert_eq!(AnilistClient::media_id_from_body(r#"{"data":{"Media":{"id":30002}}}"#), Some(Some(30002)));
    assert_eq!(AnilistClient::viewer_from_body("not json"), None);
}

#[test]
fn test_sources_dir_path() {
    // Both places the sources folder can be end in `sources`.
    let p = SourceManager::dot_config_sources("/home/user");
    assert!(p.contains("sources"));
    let q = SourceManager::config_sources(Some("/home/user/.config"));
    assert!(q.contains("sources"));
    assert_eq!(q, "/home/user/.config/neo-mangal/sources");
}

#[test]
fn repository_listing_gives_the_lua_downloads_in_order() {
    let body = r#"[
        {"name": "MangaDex.lua", "download_url": "https://raw.example/MangaDex.lua"},
        {"name": "README.md", "download_url": "https://raw.example/README.md"},
        {"name": "Broken.lua", "download_url": null},
        {"name": "WeebCentral.lua", "download_url": "https://raw.example/WeebCentral.lua", "size": 10},
        {"type": "dir"}
    ]"#;
    assert_eq!(
        SourceManager::lua_downloads(body),
        Some(vec![
            ("MangaDex.lua".to_string(), "https://raw.example/MangaDex.lua".to_string()),
            ("WeebCentral.lua".to_string(), "https://raw.example/WeebCentral.lua".to_string()),
        ])
    );
    assert_eq!(SourceManager::lua_downloads("[]"), Some(vec![]));
    // A rate-limit reply is an object, not a listing.
    assert_eq!(SourceManager::lua_downloads(r#"{"message": "API rate limit exceeded"}"#), None);
    assert_eq!(SourceManager::lua_downloads("not json"), None);
}

#[test]
fn search_title_is_written_as_a_json_literal() {
    let body = AnilistClient::search_body("A\\B\t\u{1}\u{1f}é\"");
    assert!(body.contains(r#""A\\B\t\u0001\u001fé\"""#));
}

#[test]
fn script_text_helpers() {
    assert_eq!(trim_text("  One Piece \n"), "One Piece");
    assert_eq!(split_text("a, b,,c", ","), vec!["a", " b", "", "c"]);
    assert_eq!(split_text("a--b--", "--"), vec!["a", "b", ""]);
    assert_eq!(split_text("abc", ""), vec!["", "a", "b", "c", ""]);
    assert_eq!(split_text("", ","), vec![""]);
    assert_eq!(query_escape("One Piece/é"), "One%20Piece%2F%C3%A9");
    assert_eq!(query_escape("Naruto-1_2.3~"), "Naruto-1_2.3~");
    assert_eq!(query_unescape("One%20Piece%2F%C3%A9"), "One Piece/é");
    // Escapes that do not make UTF-8 leave the text as it is.
    assert_eq!(query_unescape("bad%FF"), "bad%FF");
    assert_eq!(query_unescape("plain+text"), "plain+text");
}
