use neo_mangal::config::Config;
use neo_mangal::converter::cbz::CbzPacker;
use neo_mangal::converter::kcc::KccRunner;
use neo_mangal::converter::pdf::PdfPacker;
use neo_mangal::converter::toolchain::ToolchainStatus;
use neo_mangal::downloader::ChapterDownloader;

#[test]
fn test_toolchain_check_does_not_panic() {
    let status = ToolchainStatus { kcc_cli_path: None, kindlegen_path: Some("/usr/bin/kindlegen".to_string()) };
    println!("Toolchain status: CLI={:?}, kindlegen={:?}", status.kcc_cli_path, status.kindlegen_path);
    let _ = status.missing_tools();
    let _ = status.install_instructions(false);
    let _ = status.is_ready();
}

#[test]
fn toolchain_reports_missing_tools() {
    let none = ToolchainStatus { kcc_cli_path: None, kindlegen_path: None };
    assert!(!none.is_ready());
    assert_eq!(none.missing_tools(), vec!["kcc-c2e (KCC CLI)", "kindlegen (KindleGen)"]);
    let text = none.install_instructions(true);
    assert!(text.starts_with("• Kindle Comic Converter CLI (kcc-c2e):"));
    assert!(text.contains("\n\n• KindleGen (via Kindle Previewer 3):"));
    let ready = ToolchainStatus { kcc_cli_path: Some("a".into()), kindlegen_path: Some("b".into()) };
    assert!(ready.is_ready());
    assert!(ready.missing_tools().is_empty());
    assert_eq!(ready.install_instructions(false), "");
}

#[test]
fn toolchain_candidates_in_search_order() {
    let c = ToolchainStatus::executable_candidates("kcc-c2e", Some("/home/u"));
    assert_eq!(c[0], "/usr/local/bin/kcc-c2e");
    assert_eq!(c[4], "/opt/kindlegen/kcc-c2e");
    assert_eq!(c[5], "/home/u/.local/bin/kcc-c2e");
    assert_eq!(c[8], "/home/u/.kcc-venv/bin/kcc-c2e");
    assert_eq!(c.len(), 9);
    assert_eq!(ToolchainStatus::executable_candidates("x", None).len(), 5);
    let k = ToolchainStatus::kindlegen_candidates(Some("/my/kg"), None, Some("/Users/u"), true);
    assert_eq!(k[0], "/my/kg");
    assert_eq!(k[3], "/Users/u/Applications/Kindle Previewer 3.app/Contents/lib/fc/bin/kindlegen");
    assert_eq!(ToolchainStatus::kindlegen_candidates(None, Some("/env/kg"), None, false), vec!["/env/kg".to_string()]);
    let found = ToolchainStatus::first_found(&c, &vec![false, false, true, true]);
    assert_eq!(found, Some("/bin/kcc-c2e".to_string()));
    assert_eq!(ToolchainStatus::first_found(&c, &vec![false]), None);
}

#[test]
fn kcc_arguments_and_names() {
    let mut config = Config::with_download_dir("/d".to_string());
    config.kcc_format = "epub".to_string();
    assert_eq!(KccRunner::kcc_format_arg("azw3"), "MOBI");
    assert_eq!(KccRunner::kcc_format_arg("kfx"), "KFX");
    assert_eq!(KccRunner::kcc_format_arg("cbz"), "MOBI");
    assert_eq!(KccRunner::output_extension("Epub"), "epub");
    assert_eq!(KccRunner::output_extension("AZW3"), "mobi");
    let args = KccRunner::conversion_args(&config, "/out", "/tmp/c.cbz");
    assert_eq!(args, vec!["-p", "KPW5", "-f", "EPUB", "-o", "/out", "-m", "/tmp/c.cbz"]);
    config.rename_to_azw3 = false;
    assert!(!KccRunner::should_rename_to_azw3(&config));
    config.kcc_format = "Mobi".to_string();
    assert!(KccRunner::should_rename_to_azw3(&config));
    assert_eq!(KccRunner::output_file("/out/", "Chapter_01", "azw3"), "/out/Chapter_01.azw3");
    let names = vec!["a.txt".to_string(), "Chapter_01_kcc.MOBI".to_string(), "Chapter_01.mobi".to_string()];
    assert_eq!(KccRunner::find_mobi_output(&names, "Chapter_01"), Some(1));
    assert_eq!(KccRunner::find_mobi_output(&names, "Other"), None);
}

#[test]
fn packers_choose_and_order_images() {
    let names = vec![
        "0002.png".to_string(),
        "notes.txt".to_string(),
        "0001.PNG".to_string(),
        "0000_cover.jpg".to_string(),
        ".hidden".to_string(),
        "0003.webp".to_string(),
    ];
    assert_eq!(
        CbzPacker::archive_entries(&names, Some("0000_cover.jpg")),
        vec!["0000_cover.jpg", "0001.PNG", "0002.png", "0003.webp"]
    );
    assert_eq!(PdfPacker::page_entries(&names, None).len(), 4);
    assert_eq!(CbzPacker::cover_destination("/Users/test/my_cover.jpg"), "0000_cover.jpg");
    assert_eq!(PdfPacker::cover_destination("/x/cover"), "0000_cover.jpg");
    assert!(PdfPacker::is_jpeg(&[0xFF, 0xD8, 0xFF, 0x00]));
    assert!(!PdfPacker::is_jpeg(&[0x89, b'P', b'N', b'G']));
    let ids = PdfPacker::object_numbers(2);
    assert_eq!((ids[0].page, ids[0].content, ids[0].image), (3, 4, 5));
    assert_eq!((ids[1].page, ids[1].content, ids[1].image), (6, 7, 8));
}

#[test]
fn custom_cover_is_always_the_first_page() {
    // Pages are numbered from 0000, and `0000.png` sorts before
    // `0000_cover.jpg`; the cover still comes first.
    let names = vec!["0001.png".to_string(), "0000.png".to_string(), "0000_cover.jpg".to_string()];
    assert_eq!(
        CbzPacker::archive_entries(&names, Some("0000_cover.jpg")),
        vec!["0000_cover.jpg", "0000.png", "0001.png"]
    );
    assert_eq!(
        PdfPacker::page_entries(&names, Some("0000_cover.jpg")),
        vec!["0000_cover.jpg", "0000.png", "0001.png"]
    );
    // Without a custom cover the pages are in name order.
    assert_eq!(CbzPacker::archive_entries(&names, None), vec!["0000.png", "0000_cover.jpg", "0001.png"]);
    // A cover that is no image is not packaged.
    let names = vec!["0001.png".to_string(), "0000_cover.txt".to_string()];
    assert_eq!(CbzPacker::archive_entries(&names, Some("0000_cover.txt")), vec!["0001.png"]);
}

#[test]
fn test_sanitize_name() {
    assert_eq!(ChapterDownloader::sanitize_name("One / Piece: Void?"), "One _ Piece_ Void_");
    assert_eq!(ChapterDownloader::sanitize_name(""), "untitled");
}

#[test]
fn downloader_names() {
    assert_eq!(ChapterDownloader::sanitize_name("  <> "), "__");
    assert_eq!(ChapterDownloader::sanitize_name("   "), "untitled");
    assert_eq!(ChapterDownloader::page_file_name(7), "0007.png");
    assert_eq!(ChapterDownloader::page_file_name(12345), "12345.png");
    assert_eq!(ChapterDownloader::referer("cdn.example.com"), "https://cdn.example.com/");
    assert_eq!(ChapterDownloader::new(0).unwrap().concurrency, 1);
    assert_eq!(ChapterDownloader::new(6).unwrap().concurrency, 6);
}

#[test]
fn page_requests_carry_the_site_as_referer() {
    assert_eq!(
        ChapterDownloader::page_referer("https://img.example.com/manga/1/0001.png?x=1"),
        Some("https://img.example.com/".to_string())
    );
    assert_eq!(ChapterDownloader::page_referer("HTTPS://CDN.Example.ORG:8080/p.jpg"), Some("https://cdn.example.org/".to_string()));
    assert_eq!(ChapterDownloader::page_referer("not a url"), None);
    assert_eq!(ChapterDownloader::page_referer("data:image/png;base64,AAAA"), None);
}
