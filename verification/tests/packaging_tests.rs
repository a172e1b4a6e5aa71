use neo_mangal::config::Config;
use neo_mangal::i18n::AppLanguage;
use neo_mangal::ui::jobs::fusion_renames;
use neo_mangal::ui::packaging::{
    anilist_search_failed, done_message, download_failed, failure_message, fusion_download_failed, marked_read_message,
    not_on_anilist, packaging, pages_failed, sync_failed, sync_token, synced_message, syncing_message, PackStep,
    Packaging,
};

#[test]
fn packaging_follows_the_format_and_kcc() {
    assert_eq!(packaging("PDF", true), Packaging::Pdf);
    assert_eq!(packaging("pdf", false), Packaging::Pdf);
    assert_eq!(packaging("AZW3", true), Packaging::Kindle);
    assert_eq!(packaging("CBZ", false), Packaging::Cbz);
    assert_eq!(packaging("EPUB", false), Packaging::Cbz);
}

#[test]
fn job_messages() {
    assert_eq!(done_message(Packaging::Pdf, false, "/d/One/Ch1.pdf"), "PDF save complete:\n/d/One/Ch1.pdf");
    assert_eq!(done_message(Packaging::Cbz, false, "/d/a.cbz"), "CBZ direct save complete:\n/d/a.cbz");
    assert_eq!(done_message(Packaging::Cbz, true, "/d/v.cbz"), "Volume Fusion complete!\nSaved at: /d/v.cbz");
    assert_eq!(done_message(Packaging::Pdf, true, "/d/v.pdf"), "Volume Fusion complete!\nSaved at: /d/v.pdf");
    assert_eq!(done_message(Packaging::Kindle, false, "/d/a.azw3"), "Kindle output ready:\n/d/a.azw3");
    assert_eq!(done_message(Packaging::Kindle, true, "/d/v.azw3"), "Kindle Volume ready:\n/d/v.azw3");
    assert_eq!(failure_message(PackStep::PdfPacking, false, "disk full"), "PDF Packaging failed: disk full");
    assert_eq!(failure_message(PackStep::PdfPacking, true, "x"), "Volume Fusion PDF packaging failed: x");
    assert_eq!(failure_message(PackStep::CbzPacking, false, "x"), "CBZ Packaging failed: x");
    assert_eq!(failure_message(PackStep::CbzPacking, true, "x"), "Volume Fusion CBZ packaging failed: x");
    assert_eq!(failure_message(PackStep::Conversion, true, "exit 1"), "KCC Conversion failed: exit 1");
    assert_eq!(synced_message(false, "Berserk", 12), "AniList synced: Berserk (Ch. 12)");
    assert_eq!(synced_message(true, "Berserk", -1), "AniList volume synced: Berserk (Ch. -1)");
}

#[test]
fn progress_syncs_only_when_asked() {
    let mut c = Config::default();
    c.anilist_token = Some("tok".to_string());
    c.anilist_enabled = true;
    c.anilist_sync_on_download = false;
    assert_eq!(sync_token(&c), None);
    c.anilist_sync_on_download = true;
    assert_eq!(sync_token(&c), Some("tok".to_string()));
    c.anilist_enabled = false;
    assert_eq!(sync_token(&c), None);
    c.anilist_enabled = true;
    c.anilist_token = None;
    assert_eq!(sync_token(&c), None);
}

#[test]
fn job_failure_and_sync_messages() {
    assert_eq!(pages_failed("Ch 1", "timeout"), "Failed to get pages for Ch 1: timeout");
    assert_eq!(download_failed("Ch 1", "404"), "Download failed for Ch 1: 404");
    assert_eq!(fusion_download_failed("404"), "Download failed during fusion: 404");
    assert_eq!(syncing_message(AppLanguage::English, 45), "Syncing AniList: Ch. 45...");
    assert_eq!(syncing_message(AppLanguage::Portuguese, 45), "Sincronizando AniList: Cap. 45...");
    assert_eq!(marked_read_message(45, "The Battle"), "AniList: Marked read up to Ch. 45 (The Battle)");
    assert_eq!(sync_failed("401"), "AniList sync failed: 401");
    assert_eq!(not_on_anilist("Berserk"), "Manga \"Berserk\" not found on AniList");
    assert_eq!(anilist_search_failed("dns"), "AniList search failed: dns");
}

#[test]
fn fused_pages_are_numbered_on_in_name_order() {
    let files = vec!["0002.jpg".to_string(), "0000.png".to_string(), "0001".to_string()];
    assert_eq!(
        fusion_renames(&files, 7),
        vec![
            ("0000.png".to_string(), "000007.png".to_string()),
            ("0001".to_string(), "000008.png".to_string()),
            ("0002.jpg".to_string(), "000009.jpg".to_string()),
        ]
    );
    assert!(fusion_renames(&Vec::new(), 1).is_empty());
}
