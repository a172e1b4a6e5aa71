use neo_mangal::domain::favorite::{FavoriteManager, FavoriteManga, timestamp_label};
use neo_mangal::domain::job::JobStatus;
use neo_mangal::domain::manga::{Chapter, Manga};

fn parsed(title: &str) -> Option<f32> {
    Chapter::parse_number_from_title(title).map(|t| t.parse::<f32>().unwrap())
}

#[test]
fn test_parse_chapter_numbers() {
    assert_eq!(parsed("Chapter 105"), Some(105.0));
    assert_eq!(parsed("Chapter 105.5"), Some(105.5));
    assert_eq!(parsed("Chapter 105: The Battle"), Some(105.0));
    assert_eq!(parsed("Capítulo 42"), Some(42.0));
    assert_eq!(parsed("Capitulo 42.1"), Some(42.1));
    assert_eq!(parsed("Cap. 12"), Some(12.0));
    assert_eq!(parsed("Ch. 77"), Some(77.0));
    assert_eq!(parsed("Ch.77"), Some(77.0));
    assert_eq!(parsed("Vol. 1 Ch. 15"), Some(15.0));
    assert_eq!(parsed("#99"), Some(99.0));
    assert_eq!(parsed("Episode 4"), Some(4.0));
    assert_eq!(parsed("Ep. 4"), Some(4.0));
    assert_eq!(parsed("105 - The Finale"), Some(105.0));
    assert_eq!(parsed("105: The Finale"), Some(105.0));
    assert_eq!(parsed("105"), Some(105.0));
    assert_eq!(parsed("One Piece 1050"), Some(1050.0));
}

#[test]
fn chapter_number_edge_cases() {
    assert_eq!(Chapter::parse_number_from_title("No number here"), None);
    assert_eq!(Chapter::parse_number_from_title("CHAPTER 7 and chapter 9"), Some("9".to_string()));
    assert_eq!(Chapter::parse_number_from_title("Chapter 12 Last Read 2024-01-01"), Some("12".to_string()));
    assert_eq!(Chapter::parse_number_from_title("ch5"), None);
    assert_eq!(Chapter::parse_number_from_title("Chapter ٣"), None);
    assert_eq!(Chapter::parse_number_from_title("EPIſODE 3"), Some("3".to_string()));
    assert_eq!(Chapter::parse_number_from_title("  8.5 extra"), Some("8.5".to_string()));
    assert_eq!(Chapter::parse_number_from_title("a 1 b 2 c"), Some("2".to_string()));
}

#[test]
fn clean_titles() {
    assert_eq!(FavoriteManager::clean_chapter_title("Chapter 5 Last Read"), "Chapter 5");
    assert_eq!(FavoriteManager::clean_chapter_title("  Chapter   6  2024-05-01T10:00 "), "Chapter 6");
    assert_eq!(FavoriteManager::clean_chapter_title("Ch 7 last read yesterday"), "Ch 7");
    assert_eq!(FavoriteManager::clean_chapter_title("12-34567890 x"), "12-34567890 x");
}

#[test]
fn test_toggle_favorite() {
    let mut favs = Vec::new();
    let manga = Manga {
        id: "u1".into(),
        title: "One Piece".into(),
        url: "https://example.com/one-piece".into(),
        cover_url: None,
        provider: "WeebCentral".into(),
    };

    let added = FavoriteManager::toggle_favorite(&mut favs, &manga);
    assert!(added);
    assert_eq!(favs.len(), 1);
    assert_eq!(favs[0].title, "One Piece");

    let updated = FavoriteManager::update_last_downloaded(&mut favs, &manga.url, "Chapter 1110");
    assert!(updated);
    assert_eq!(favs[0].last_downloaded_chapter.as_deref(), Some("Chapter 1110"));

    let removed = FavoriteManager::toggle_favorite(&mut favs, &manga);
    assert!(!removed);
    assert_eq!(favs.len(), 0);

    FavoriteManager::toggle_favorite(&mut favs, &manga);
    assert_eq!(favs.len(), 1);
    let removed_explicit = FavoriteManager::remove_favorite(&mut favs, &manga.url);
    assert!(removed_explicit);
    assert_eq!(favs.len(), 0);
    let removed_again = FavoriteManager::remove_favorite(&mut favs, &manga.url);
    assert!(!removed_again);
}

#[test]
fn favorites_round_trip_and_lookup() {
    let manga = Manga {
        id: "https://x/y".into(),
        title: "Y".into(),
        url: "https://x/y".into(),
        cover_url: Some("c.jpg".into()),
        provider: "P".into(),
    };
    let fav = FavoriteManga::from_manga(&manga);
    assert_eq!(fav.to_manga(), manga);
    let favs = vec![fav];
    assert!(FavoriteManager::is_favorite(&favs, "https://x/y"));
    assert!(!FavoriteManager::is_favorite(&favs, "https://x/z"));
    let mut favs2 = favs.clone();
    assert!(!FavoriteManager::update_last_downloaded(&mut favs2, "nope", "Ch 1"));
    assert_eq!(favs2, favs);
}

#[test]
fn timestamp_labels() {
    assert_eq!(timestamp_label(Some(86400 * 3 + 5)), "day-3");
    assert_eq!(timestamp_label(Some(0)), "day-0");
    assert_eq!(timestamp_label(None), "recently");
}

#[test]
fn job_status_messages() {
    assert_eq!(JobStatus::Downloading { current: 2, total: 9 }.message(), "Downloading pages: 2 / 9");
    assert_eq!(JobStatus::Idle.message(), "Idle");
    assert_eq!(JobStatus::Failed("x".into()).message(), "Failed: x");
    assert_eq!(JobStatus::ConvertingKcc { message: "m".into() }.message(), "KCC: m");
    assert!(JobStatus::PackagingCbz.is_active());
    assert!(!JobStatus::Done("ok".into()).is_active());
}
