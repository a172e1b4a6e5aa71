use neo_mangal::i18n::AppLanguage;
use neo_mangal::ui::modals::styled::Tone;
use neo_mangal::ui::modals::source_select::SourceSelectModal;

#[test]
fn test_multi_source_selection() {
    let sources = vec!["MangaDex".to_string(), "WeebCentral".to_string()];
    let mut modal = SourceSelectModal::new(sources.clone(), &["WeebCentral".to_string()]);
    assert_eq!(modal.checked_sources.len(), 1);
    assert!(modal.checked_sources.contains("WeebCentral"));

    modal.selected_idx = 0;
    modal.toggle_check();
    assert_eq!(modal.checked_sources.len(), 2);
    assert!(modal.checked_sources.contains("MangaDex"));

    modal.selected_idx = 1;
    modal.toggle_check();
    assert_eq!(modal.checked_sources.len(), 1);
    assert!(!modal.checked_sources.contains("WeebCentral"));

    modal.toggle_all();
    assert_eq!(modal.checked_sources.len(), 2);
}

#[test]
fn nothing_preselected_checks_everything() {
    let sources = vec!["A".to_string(), "B".to_string(), "C".to_string()];
    let modal = SourceSelectModal::new(sources, &["Z".to_string()]);
    assert_eq!(modal.checked_sources.len(), 3);
    assert_eq!(modal.get_selected_sources(), vec!["A".to_string(), "B".to_string(), "C".to_string()]);
}

#[test]
fn cursor_wraps_and_fallback_selection() {
    let sources = vec!["A".to_string(), "B".to_string(), "C".to_string()];
    let mut modal = SourceSelectModal::new(sources, &[]);
    modal.move_up();
    assert_eq!(modal.selected_idx, 2);
    modal.move_down();
    assert_eq!(modal.selected_idx, 0);
    modal.move_down();
    assert_eq!(modal.selected_idx, 1);
    modal.toggle_all();
    assert_eq!(modal.checked_sources.len(), 0);
    assert_eq!(modal.get_selected_sources(), vec!["B".to_string()]);
    modal.toggle_check();
    modal.toggle_check();
    assert_eq!(modal.checked_sources.len(), 0);
}

#[test]
fn empty_source_list() {
    let mut modal = SourceSelectModal::new(Vec::new(), &[]);
    modal.move_up();
    modal.move_down();
    modal.toggle_check();
    assert_eq!(modal.selected_idx, 0);
    assert!(modal.get_selected_sources().is_empty());
}

#[test]
fn source_window_rows_scroll_with_cursor() {
    let sources: Vec<String> = ["A", "B", "C", "D", "E"].iter().map(|s| s.to_string()).collect();
    let mut m = SourceSelectModal::new(sources, &["B".to_string()]);
    assert_eq!(m.active_count_line(AppLanguage::English), "Press [Space] to select/deselect (1/5 sources active):");
    assert_eq!(m.active_count_line(AppLanguage::Portuguese), "Pressione [Espaço] para marcar/desmarcar (1/5 fontes ativas):");
    assert_eq!(m.visible_rows(10), (0, 5));
    assert_eq!(m.visible_rows(3), (0, 3));
    m.selected_idx = 4;
    assert_eq!(m.visible_rows(3), (2, 5));
    m.selected_idx = 3;
    assert_eq!(m.visible_rows(3), (1, 4));
    let rows = m.rows(3, AppLanguage::Portuguese);
    assert_eq!(rows.len(), 3);
    // Row "B": checked, not under the cursor.
    assert_eq!(rows[0][0], ("   ".to_string(), Tone::Plain));
    assert_eq!(rows[0][1], ("󰄲 ".to_string(), Tone::Success));
    assert_eq!(rows[0][2], (format!("{:<18}", "B"), Tone::Emphasis));
    assert_eq!(rows[0][3], (" [Ativa]".to_string(), Tone::Positive));
    // Row "D": under the cursor, not checked.
    assert_eq!(rows[2].len(), 3);
    assert_eq!(rows[2][0], (" ▶ ".to_string(), Tone::Key));
    assert_eq!(rows[2][2].1, Tone::Highlight);
    assert_eq!(SourceSelectModal::hints(AppLanguage::English)[5], ("Save & Close  ", Tone::Plain));
    assert_eq!(SourceSelectModal::title(AppLanguage::Portuguese), " 󰋩 Selecionar Fontes de Mangá ");
}
