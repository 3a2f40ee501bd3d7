use clubfridge_neo::log_files::{
    log_files_from_listing, sorted_log_file_names, DirectoryListing, LogFileName,
};
use clubfridge_neo::log_line::{
    colored_lines, log_line_color, DEBUG_LOG_LINE_COLOR, ERROR_LOG_LINE_COLOR,
    TRACE_LOG_LINE_COLOR, WARN_LOG_LINE_COLOR,
};
use clubfridge_neo::log_viewer::{LogFileSelection, LogViewer, LogViewerGeneration};

fn name(text: &str) -> LogFileName {
    LogFileName(text.to_string())
}

#[test]
fn derives_date_labels_from_log_file_names() {
    let file_name = LogFileName("clubfridge-neo.2026-07-21.log".to_string());

    assert_eq!(file_name.date_label(), "2026-07-21");
}

#[test]
fn colors_log_lines_by_the_compact_formatter_level() {
    assert_eq!(
        log_line_color("2026-07-21T12:00:00.001Z ERROR clubfridge_neo: failed"),
        Some(ERROR_LOG_LINE_COLOR)
    );
    assert_eq!(
        log_line_color("2026-07-21T12:00:00.001Z  WARN clubfridge_neo: warning"),
        Some(WARN_LOG_LINE_COLOR)
    );
    assert_eq!(
        log_line_color("2026-07-21T12:00:00.001Z  INFO clubfridge_neo: started"),
        None
    );
    assert_eq!(
        log_line_color("2026-07-21T12:00:00.001Z DEBUG clubfridge_neo: update"),
        Some(DEBUG_LOG_LINE_COLOR)
    );
    assert_eq!(
        log_line_color("2026-07-21T12:00:00.001Z TRACE clubfridge_neo: detail"),
        Some(TRACE_LOG_LINE_COLOR)
    );
}

#[test]
fn does_not_color_level_words_outside_the_compact_level_column() {
    assert_eq!(
        log_line_color("2026-07-21T12:00:00.001Z  INFO clubfridge_neo: ERROR was handled"),
        None
    );
    assert_eq!(log_line_color("continuation ERROR from nested error"), None);
    assert_eq!(log_line_color("continuation mentioning WARN"), None);
}

#[test]
fn creates_one_colored_span_for_each_log_line() {
    let file_name = LogFileName("clubfridge-neo.2026-07-21.log".to_string());
    let mut viewer = LogViewer::new(LogViewerGeneration::new(1));
    viewer.apply_log_file_list(vec![file_name.clone()]);
    viewer.apply_log_file_contents(
        file_name,
        Ok(("2026-07-21T12:00:00.001Z ERROR clubfridge_neo: failed\n".to_string()
            + "2026-07-21T12:00:01.001Z  INFO clubfridge_neo: recovered")
            .as_bytes()
            .to_vec()),
    );

    let spans = viewer.log_file_contents_spans();

    assert_eq!(spans.len(), 2);
    assert_eq!(
        spans[0].text,
        "2026-07-21T12:00:00.001Z ERROR clubfridge_neo: failed\n"
    );
    assert_eq!(spans[0].color, Some(ERROR_LOG_LINE_COLOR));
    assert_eq!(
        spans[1].text,
        "2026-07-21T12:00:01.001Z  INFO clubfridge_neo: recovered"
    );
    assert_eq!(spans[1].color, None);
}

#[test]
fn refresh_preserves_the_selection_or_falls_back_to_the_newest_file() {
    let oldest = LogFileName("clubfridge-neo.2026-07-19.log".to_string());
    let selected = LogFileName("clubfridge-neo.2026-07-20.log".to_string());
    let newest = LogFileName("clubfridge-neo.2026-07-21.log".to_string());
    let mut viewer = LogViewer::new(LogViewerGeneration::new(1));

    assert_eq!(
        viewer.apply_log_file_list(vec![oldest.clone(), selected.clone()]),
        Some(selected.clone())
    );
    assert_eq!(viewer.selected_log_file(), Some(&selected));

    viewer.apply_log_file_contents(selected.clone(), Ok(Vec::new()));
    assert_eq!(viewer.select_log_file(oldest.clone()), Some(oldest.clone()));
    viewer.apply_log_file_contents(oldest.clone(), Ok(Vec::new()));
    assert_eq!(
        viewer.apply_log_file_list(vec![oldest.clone(), newest.clone()]),
        Some(oldest.clone())
    );
    assert_eq!(viewer.selected_log_file(), Some(&oldest));

    viewer.apply_log_file_contents(oldest, Ok(Vec::new()));
    assert_eq!(
        viewer.apply_log_file_list(vec![selected, newest.clone()]),
        Some(newest.clone())
    );
    assert_eq!(viewer.selected_log_file(), Some(&newest));

    viewer.apply_log_file_contents(newest, Ok(Vec::new()));
    assert_eq!(viewer.apply_log_file_list(Vec::new()), None);
    assert_eq!(viewer.selected_log_file(), None);
}

#[test]
fn serializes_log_file_scans_and_reads() {
    let first = LogFileName("clubfridge-neo.2026-07-20.log".to_string());
    let second = LogFileName("clubfridge-neo.2026-07-21.log".to_string());
    let mut viewer = LogViewer::new(LogViewerGeneration::new(1));

    drop(viewer.refresh_log_files());
    assert!(viewer.is_busy());

    viewer.apply_log_file_list(vec![first.clone(), second.clone()]);
    assert!(viewer.is_busy());
    assert_eq!(viewer.select_log_file(first.clone()), None);

    viewer.apply_log_file_contents(second, Ok(b"latest contents".to_vec()));
    assert!(!viewer.is_busy());
    assert_eq!(viewer.select_log_file(first.clone()), Some(first));
}

#[test]
fn ignores_file_contents_for_a_stale_selection() {
    let old_selection = LogFileName("clubfridge-neo.2026-07-20.log".to_string());
    let current_selection = LogFileName("clubfridge-neo.2026-07-21.log".to_string());
    let mut viewer = LogViewer::new(LogViewerGeneration::new(1));
    viewer.apply_log_file_list(vec![old_selection.clone(), current_selection.clone()]);

    viewer.apply_log_file_contents(old_selection, Ok(b"stale contents".to_vec()));
    assert_eq!(viewer.log_file_contents_text(), "Logdatei wird geladen…");

    viewer.apply_log_file_contents(current_selection, Ok(b"current \xffcontents".to_vec()));
    assert_eq!(viewer.log_file_contents_text(), "current \u{fffd}contents");
}

#[test]
fn describes_empty_files_and_read_failures_in_german() {
    let file_name = LogFileName("clubfridge-neo.2026-07-21.log".to_string());
    let mut viewer = LogViewer::new(LogViewerGeneration::new(1));

    viewer.apply_log_file_list(Vec::new());
    assert_eq!(
        viewer.log_file_contents_text(),
        "Keine Logdateien gefunden."
    );

    viewer.apply_log_file_list(vec![file_name.clone()]);
    viewer.apply_log_file_contents(file_name.clone(), Ok(Vec::new()));
    assert_eq!(viewer.log_file_contents_text(), "Logdatei ist leer.");

    viewer.apply_log_file_contents(file_name, Err("Zugriff verweigert".to_string()));
    assert_eq!(
        viewer.log_file_contents_text(),
        "Logdatei konnte nicht gelesen werden: Zugriff verweigert"
    );
}

#[test]
fn keeps_only_log_file_names_in_alphabetical_order() {
    let entries = vec![
        "clubfridge-neo.2026-07-21.log".to_string(),
        "clubfridge-neo.2026-07-19.log".to_string(),
        "clubfridge-neo.2026-07-20.txt".to_string(),
        "other.2026-07-20.log".to_string(),
    ];

    let files = sorted_log_file_names(&entries);

    assert_eq!(
        files,
        vec![
            name("clubfridge-neo.2026-07-19.log"),
            name("clubfridge-neo.2026-07-21.log"),
        ]
    );
}

#[test]
fn leaves_out_names_whose_prefix_and_suffix_overlap() {
    let entries = vec![
        "clubfridge-neo.log".to_string(),
        "clubfridge-neo..log".to_string(),
        "clubfridge-neo.2026-07-21.log".to_string(),
    ];

    let files = sorted_log_file_names(&entries);

    assert_eq!(
        files,
        vec![
            name("clubfridge-neo..log"),
            name("clubfridge-neo.2026-07-21.log"),
        ]
    );
    assert!(files.iter().all(|file| file.has_date_label()));
}

#[test]
fn sorts_by_code_point_like_str_ordering() {
    let entries = vec![
        "clubfridge-neo.b.log".to_string(),
        "clubfridge-neo.ä.log".to_string(),
        "clubfridge-neo.B.log".to_string(),
        "clubfridge-neo.a.log".to_string(),
        "clubfridge-neo.a.log".to_string(),
        "clubfridge-neo.ab.log".to_string(),
    ];
    let mut expected = entries.clone();
    expected.sort();

    let files = sorted_log_file_names(&entries);

    let names: Vec<String> = files.into_iter().map(|file| file.0).collect();
    assert_eq!(names, expected);
}

#[test]
fn treats_a_missing_directory_listing_as_no_files() {
    assert_eq!(log_files_from_listing(DirectoryListing::Missing), Ok(Vec::new()));
    assert_eq!(
        log_files_from_listing(DirectoryListing::Failed("kaputt".to_string())),
        Err("kaputt".to_string())
    );
    assert_eq!(
        log_files_from_listing(DirectoryListing::Entries(vec![
            "clubfridge-neo.2026-07-02.log".to_string(),
            "clubfridge-neo.2026-07-01.log".to_string(),
        ])),
        Ok(vec![
            name("clubfridge-neo.2026-07-01.log"),
            name("clubfridge-neo.2026-07-02.log"),
        ])
    );
}

#[test]
fn knows_when_a_name_has_a_date_label() {
    assert!(name("clubfridge-neo.2026-07-21.log").has_date_label());
    assert!(name("clubfridge-neo..log").has_date_label());
    assert_eq!(name("clubfridge-neo..log").date_label(), "");
    assert!(!name("clubfridge-neo.log").has_date_label());
    assert!(!name("other.2026-07-21.log").has_date_label());
    assert!(!name("clubfridge-neo.2026-07-21.txt").has_date_label());
}

#[test]
fn colors_only_lines_with_a_timestamp_field() {
    assert_eq!(log_line_color(""), None);
    assert_eq!(log_line_color("   "), None);
    assert_eq!(log_line_color("2026-07-21T12:00:00.001Z"), None);
    assert_eq!(log_line_color("2026-07-21T12 ERROR"), Some(ERROR_LOG_LINE_COLOR));
    assert_eq!(log_line_color("  2026-07-21T12\tWARN\n"), Some(WARN_LOG_LINE_COLOR));
    assert_eq!(log_line_color("2026-07-21 12:00 ERROR"), None);
    assert_eq!(log_line_color("2026-07-21T12 error"), None);
    assert_eq!(log_line_color("2026-07-21T12 ERRORS"), None);
    assert_eq!(log_line_color("ä026-07-2T12 TRACE"), Some(TRACE_LOG_LINE_COLOR));
    assert_eq!(log_line_color("ä26-07-2T12 TRACE"), None);
}

#[test]
fn splits_text_after_each_line_feed() {
    let spans = colored_lines("a\n\nb");
    let texts: Vec<&str> = spans.iter().map(|span| span.text.as_str()).collect();
    assert_eq!(texts, vec!["a\n", "\n", "b"]);

    let spans = colored_lines("one\ntwo\n");
    let texts: Vec<&str> = spans.iter().map(|span| span.text.as_str()).collect();
    assert_eq!(texts, vec!["one\n", "two\n"]);

    assert!(colored_lines("").is_empty());
}

#[test]
fn shows_one_message_span_without_file_contents() {
    let file_name = name("clubfridge-neo.2026-07-21.log");
    let mut viewer = LogViewer::new(LogViewerGeneration::new(3));
    assert!(viewer.refresh_log_files());
    assert!(!viewer.refresh_log_files());
    let spans = viewer.log_file_contents_spans();
    assert_eq!(spans.len(), 1);
    assert_eq!(spans[0].text, "Logdateien werden geladen…");
    assert_eq!(spans[0].color, None);

    viewer.apply_log_file_list(vec![file_name.clone()]);
    viewer.apply_log_file_contents(file_name, Ok(Vec::new()));
    let spans = viewer.log_file_contents_spans();
    assert_eq!(spans.len(), 1);
    assert_eq!(spans[0].text, "Logdatei ist leer.");
}

#[test]
fn reports_scan_failures_and_keeps_the_file_list_usable() {
    let file_name = name("clubfridge-neo.2026-07-21.log");
    let mut viewer = LogViewer::new(LogViewerGeneration::new(1));
    assert!(viewer.refresh_log_files());
    assert_eq!(
        viewer.apply_log_file_list_result(Err("Zugriff verweigert".to_string())),
        None
    );
    assert!(!viewer.is_busy());
    assert_eq!(
        viewer.log_file_contents_text(),
        "Logdateien konnten nicht geladen werden: Zugriff verweigert"
    );
    let panel = viewer.panel();
    assert_eq!(
        panel.scan_error_text.as_deref(),
        Some("Logdateien konnten nicht geladen werden: Zugriff verweigert")
    );
    assert!(!panel.shows_no_files);

    assert!(viewer.refresh_log_files());
    assert_eq!(
        viewer.apply_log_file_list_result(Ok(vec![file_name.clone()])),
        Some(file_name.clone())
    );
    assert_eq!(viewer.load_selected_log_file(file_name.clone()), None);
    viewer.apply_log_file_contents(file_name.clone(), Ok(b"x".to_vec()));
    assert_eq!(viewer.load_selected_log_file(file_name.clone()), Some(file_name.clone()));
    assert_eq!(
        viewer.load_selected_log_file(name("clubfridge-neo.2026-07-22.log")),
        None
    );
}

#[test]
fn describes_the_panel_of_the_viewer() {
    let first = name("clubfridge-neo.2026-07-20.log");
    let second = name("clubfridge-neo.2026-07-21.log");
    let mut viewer = LogViewer::new(LogViewerGeneration::new(1));

    let panel = viewer.panel();
    assert_eq!(panel.file_list_status, None);
    assert!(panel.shows_no_files);
    assert_eq!(panel.title, "Logs");
    assert!(panel.can_refresh && panel.can_select);

    viewer.refresh_log_files();
    let panel = viewer.panel();
    assert_eq!(panel.file_list_status.as_deref(), Some("Logdateien werden geladen…"));
    assert!(!panel.shows_no_files);
    assert!(!panel.can_refresh && !panel.can_select);

    viewer.apply_log_file_list(vec![first.clone(), second.clone()]);
    viewer.apply_log_file_contents(second.clone(), Ok(b"line\n".to_vec()));
    let panel = viewer.panel();
    assert_eq!(panel.title, "clubfridge-neo.2026-07-21.log");
    assert_eq!(panel.entries.len(), 2);
    assert_eq!(panel.entries[0].file_name, first);
    assert!(!panel.entries[0].is_selected);
    assert_eq!(panel.entries[1].file_name, second);
    assert!(panel.entries[1].is_selected);
    assert_eq!(panel.contents.len(), 1);
    assert_eq!(panel.contents[0].text, "line\n");

    viewer.refresh_log_files();
    let panel = viewer.panel();
    assert_eq!(
        panel.file_list_status.as_deref(),
        Some("Logdateien werden aktualisiert…")
    );
}

#[test]
fn selection_state_names_its_file() {
    let file_name = name("clubfridge-neo.2026-07-21.log");
    assert_eq!(LogFileSelection::NoFile.file_name(), None);
    assert_eq!(
        LogFileSelection::Loading(file_name.clone()).file_name(),
        Some(&file_name)
    );
    assert_eq!(
        LogFileSelection::Failed {
            file_name: file_name.clone(),
            error: "x".to_string()
        }
        .file_name(),
        Some(&file_name)
    );
    assert_eq!(file_name.as_str(), "clubfridge-neo.2026-07-21.log");
    assert!(file_name.same_as(&file_name.duplicate()));
    assert!(!file_name.same_as(&name("clubfridge-neo.2026-07-22.log")));
    assert!(LogViewerGeneration::new(4).same_as(&LogViewerGeneration::new(4)));
    assert!(!LogViewerGeneration::new(4).same_as(&LogViewerGeneration::new(5)));
}
