use neo_mangal::ui::browse::search_query;
use neo_mangal::domain::manga::Chapter;
use neo_mangal::ui::browse::{
    active_source_label, filtered_chapters, move_chapter_selection, move_list_selection, page_range,
    total_chapter_pages,
};

fn chapter(id: &str, title: &str) -> Chapter {
    Chapter { id: id.into(), manga_id: "m".into(), title: title.into(), url: format!("u{}", id), number: None }
}

fn dummy_chapters() -> Vec<Chapter> {
    vec![
        chapter("1", "Chapter 1 - Dawn"),
        chapter("2", "Chapter 2 - Luffy"),
        chapter("3", "Chapter 100 - Legend"),
        chapter("4", "Chapter 101 - Entry"),
        chapter("5", "Chapter 102 - Grand Line"),
    ]
}

#[test]
fn test_pagination_and_filter() {
    let chapters = dummy_chapters();
    let page_size = 2;
    let all = filtered_chapters(&chapters, "");
    assert_eq!(total_chapter_pages(all.len(), page_size), 3);
    let (s, e) = page_range(all.len(), 0, page_size);
    assert_eq!(e - s, 2);
    assert_eq!(chapters[all[s]].id, "1");

    let (s, e) = page_range(all.len(), 1, page_size);
    assert_eq!(e - s, 2);
    assert_eq!(chapters[all[s]].id, "3");

    let filtered = filtered_chapters(&chapters, "10");
    assert_eq!(filtered.len(), 3);
    assert_eq!(total_chapter_pages(filtered.len(), page_size), 2);
}

#[test]
fn test_wrap_around_pagination() {
    let total = total_chapter_pages(5, 2);
    assert_eq!(total, 3);
    assert_eq!(move_chapter_selection(Some(0), -1, 5, 0, 2), Some((2, 0)));
    assert_eq!(move_chapter_selection(Some(0), 1, 5, 2, 2), Some((0, 0)));
}

#[test]
fn cursor_moves() {
    assert_eq!(move_chapter_selection(Some(1), -1, 5, 1, 2), Some((1, 0)));
    assert_eq!(move_chapter_selection(Some(0), -1, 5, 1, 2), Some((0, 1)));
    assert_eq!(move_chapter_selection(Some(1), 1, 5, 0, 2), Some((1, 0)));
    assert_eq!(move_chapter_selection(None, 0, 0, 0, 2), None);
    assert_eq!(move_list_selection(Some(3), 5, 4), Some(3));
    assert_eq!(move_list_selection(None, -2, 4), Some(0));
    assert_eq!(move_list_selection(Some(0), 1, 0), None);
    assert_eq!(total_chapter_pages(0, 20), 1);
    assert_eq!(page_range(5, 9, 2), (5, 5));
}

#[test]
fn filter_ignores_case_and_blank() {
    let chapters = dummy_chapters();
    assert_eq!(filtered_chapters(&chapters, "LUFFY"), vec![1]);
    assert_eq!(filtered_chapters(&chapters, "   ").len(), 5);
}

#[test]
fn source_labels() {
    assert_eq!(active_source_label(&vec![]), "None");
    assert_eq!(active_source_label(&vec!["A".into()]), "A");
    assert_eq!(active_source_label(&vec!["A".into(), "B".into()]), "A + B");
    assert_eq!(active_source_label(&vec!["A".into(), "B".into(), "C".into()]), "Multi (3)");
}

use neo_mangal::ui::browse::{chapter_source, initial_active_sources, initial_view, merge_results, search_sources, CurrentView};
use neo_mangal::ui::jobs::{
    chapter_work_dir, fetch_message, fusion_chapter_dir, fusion_page_name, fusion_work_dir, output_file,
    process_title, series_folder, volume_name,
};
use neo_mangal::i18n::AppLanguage;

#[test]
fn start_state_and_sources() {
    let avail = vec!["A".to_string(), "B".to_string()];
    assert_eq!(initial_active_sources(&vec!["B".into(), "Z".into()], &avail), vec!["B".to_string()]);
    assert_eq!(initial_active_sources(&vec!["Z".into()], &avail), avail);
    assert_eq!(initial_active_sources(&vec![], &avail), avail);
    assert_eq!(initial_view(true), CurrentView::Favorites);
    assert_eq!(initial_view(false), CurrentView::Search);
    assert_eq!(search_sources(&vec![], "None"), vec!["None".to_string()]);
    assert_eq!(search_sources(&avail, "x"), avail);
    assert_eq!(chapter_source("", &avail, "x"), "A");
    assert_eq!(chapter_source("P", &avail, "x"), "P");
    assert_eq!(chapter_source("", &vec![], "x"), "x");
}

#[test]
fn merged_search_results() {
    let ok: Result<Vec<u32>, String> = merge_results(vec![Ok(vec![1, 2]), Err("a".to_string()), Ok(vec![3])]);
    assert_eq!(ok, Ok(vec![1, 2, 3]));
    let err: Result<Vec<u32>, String> = merge_results(vec![Err("a".to_string()), Err("b".to_string())]);
    assert_eq!(err, Err("b".to_string()));
    let empty: Result<Vec<u32>, String> = merge_results(vec![]);
    assert_eq!(empty, Ok(vec![]));
}

#[test]
fn job_names_and_paths() {
    assert_eq!(process_title(0, false, None, None), None);
    assert_eq!(process_title(0, true, Some("Ch 1"), Some("X")), Some(("Ch 1".to_string(), 1)));
    assert_eq!(process_title(0, true, None, None), Some(("Chapter".to_string(), 1)));
    assert_eq!(process_title(3, false, None, Some("One Piece")), Some(("One Piece (3 chapters)".to_string(), 3)));
    assert_eq!(process_title(2, false, None, None), Some(("Volume (2 chapters)".to_string(), 2)));
    assert_eq!(volume_name("OP", "Ch 1", "Ch 9", 9), "OP - Volume (Ch 1 to Ch 9)");
    assert_eq!(volume_name("OP", "Ch 1", "Ch 1", 1), "Ch 1");
    assert_eq!(output_file("/dl", "One/Piece", "Ch: 1", "cbz"), "/dl/One_Piece/Ch_ 1.cbz");
    assert_eq!(series_folder("/dl/", "A?"), "/dl/A_");
    assert_eq!(chapter_work_dir("A", "B"), "neo_mangal_A_B");
    assert_eq!(fusion_work_dir("V 1"), "neo_mangal_fusion_V 1");
    assert_eq!(fusion_chapter_dir(0), "ch_0001");
    assert_eq!(fusion_page_name(12, "jpg"), "000012.jpg");
    assert_eq!(fetch_message(AppLanguage::Portuguese, 2, 5), "Buscando capítulo 2/5...");
}

#[test]
fn searches_run_on_a_trimmed_query_when_idle() {
    assert_eq!(search_query("  naruto ", false), Some("naruto".to_string()));
    assert_eq!(search_query("naruto", true), None);
    assert_eq!(search_query("   ", false), None);
}
