//! Tests of the library's stated behaviour on concrete values: the laws,
//! edge cases, each formula, each error, and each outside call.

use codex_lux::actions_chirho::{
    copy_format_chirho, copy_selection_chirho, day_complete_message_chirho,
    first_reading_reference_chirho, interlinear_or_sample_chirho, journal_display_chirho,
    mark_day_complete_chirho, next_theme_chirho, optional_text_chirho, prayer_display_chirho,
    push_lexicon_history_chirho, search_query_is_blank_chirho, search_status_chirho,
    toggle_message_chirho, versification_name_chirho,
};
use codex_lux::backend_chirho::{restored_position_chirho, saved_chapter_chirho, AppBackendChirho};
use codex_lux::bible_engine_chirho::{search_candidates_chirho, BibleEngineChirho};
use codex_lux::books_chirho::{
    book_chapters_chirho, book_name_chirho, book_position_chirho, next_book_index_chirho,
    prev_book_index_chirho,
};
use codex_lux::database_chirho::{
    session_dates_of_rows_chirho, statistics_of_chirho, streaks_of_rows_chirho,
    count_of_rows_chirho, decode_bookmark_rows_chirho, decode_history_rows_chirho,
    decode_note_rows_chirho, decode_prayer_rows_chirho, first_i64_of_rows_chirho,
    first_text_of_rows_chirho, format_duration_chirho, get_recent_history_chirho,
    get_statistics_chirho, init_database_chirho, like_pattern_chirho,
    toggle_highlight_given_chirho, verse_set_from_rows_chirho, HighlightInfoChirho,
    JournalEntryChirho, PrayerRequestChirho, SqlValueChirho,
};
use codex_lux::display_chirho::{
    label_number_chirho, mark_verses_chirho, preview_chirho, raw_verses_to_verse_chirho,
    reference_label_chirho, verse_reference_chirho,
};
use codex_lux::models_chirho::{ReadingPlanChirho, VerseChirho};
use codex_lux::nav_chirho::{
    history_entries_for_ui_chirho, quick_nav_matches_chirho, quick_nav_search_checked_chirho,
};
use codex_lux::osis_chirho::interlinear_from_osis_chirho;
use codex_lux::samples_chirho::{
    format_date_chirho, get_builtin_reading_plans_chirho, reading_for_day_chirho,
    verse_of_the_day_for_chirho,
};
use codex_lux::streaks_chirho::reading_streaks_chirho;
use codex_lux::reference_chirho::{chapter_verse_chirho, parse_reference_chirho};
use codex_lux::text_chirho::int_to_string_chirho;
use codex_lux::transfer_chirho::{
    export_file_name_chirho, highlight_import_args_chirho, import_entries_chirho,
    note_import_args_chirho, select_backup_files_chirho, ImportBookmarkChirho,
    ImportHighlightChirho, ImportNoteChirho,
};
use std::collections::HashSet;

fn temp_db_chirho(dir: &tempfile::TempDir, name: &str) -> rusqlite::Connection {
    let path = dir.path().join(name);
    init_database_chirho(path.to_str().unwrap()).unwrap()
}

fn text_chirho(s: &str) -> SqlValueChirho {
    SqlValueChirho::TextChirho(s.to_string())
}

fn int_chirho(n: i64) -> SqlValueChirho {
    SqlValueChirho::IntegerChirho(n)
}

fn plain_verse_chirho(reference: &str, text: &str) -> VerseChirho {
    raw_verses_to_verse_chirho(vec![(reference.to_string(), text.to_string())]).remove(0)
}

// ---------------------------------------------------------------------------
// Durations
// ---------------------------------------------------------------------------

#[test]
fn duration_rounds_down_to_minutes_chirho() {
    assert_eq!(format_duration_chirho(59), "0m");
    assert_eq!(format_duration_chirho(86399), "23h 59m");
    assert_eq!(format_duration_chirho(90061), "25h 1m");
}

#[test]
fn duration_of_negative_seconds_chirho() {
    assert_eq!(format_duration_chirho(-3660), "-1m");
    assert_eq!(format_duration_chirho(-59), "0m");
}

// ---------------------------------------------------------------------------
// Streaks
// ---------------------------------------------------------------------------

#[test]
fn streak_reads_calendar_dates_chirho() {
    // Consecutive across a month end and a leap day; "2024-13-01" is no date.
    let dates = vec![
        "2024-03-01".to_string(),
        "2024-02-29".to_string(),
        "2024-13-01".to_string(),
        "2024-02-28".to_string(),
        "2024-01-31".to_string(),
    ];
    assert_eq!(reading_streaks_chirho(&dates, "2024-03-01", "2024-02-29"), (3, 3));
    let year_end = vec!["2024-01-01".to_string(), "2023-12-31".to_string()];
    assert_eq!(reading_streaks_chirho(&year_end, "2024-01-02", "2024-01-01"), (2, 2));
}

#[test]
fn streak_from_today_chirho() {
    let dates = vec!["2024-01-10".to_string(), "2024-01-09".to_string(), "2024-01-07".to_string()];
    assert_eq!(reading_streaks_chirho(&dates, "2024-01-10", "2024-01-09"), (2, 2));
}

#[test]
fn streak_from_yesterday_chirho() {
    let dates = vec!["2024-01-09".to_string(), "2024-01-08".to_string(), "2024-01-07".to_string()];
    assert_eq!(reading_streaks_chirho(&dates, "2024-01-10", "2024-01-09"), (3, 3));
}

#[test]
fn streak_broken_long_ago_chirho() {
    let dates = vec![
        "2024-01-05".to_string(),
        "2024-01-04".to_string(),
        "2024-01-03".to_string(),
        "2024-01-01".to_string(),
    ];
    assert_eq!(reading_streaks_chirho(&dates, "2024-01-10", "2024-01-09"), (0, 3));
}

#[test]
fn streak_skips_unreadable_dates_chirho() {
    let dates = vec!["garbage".to_string(), "2024-01-10".to_string(), "2024-01-09".to_string()];
    assert_eq!(reading_streaks_chirho(&dates, "2024-01-10", "2024-01-09"), (1, 2));
    let none: Vec<String> = Vec::new();
    assert_eq!(reading_streaks_chirho(&none, "2024-01-10", "2024-01-09"), (0, 0));
}

#[test]
fn current_streak_never_exceeds_longest_chirho() {
    let dates = vec![
        "2024-03-02".to_string(),
        "2024-03-01".to_string(),
        "2024-02-29".to_string(),
        "2024-02-20".to_string(),
        "2024-02-19".to_string(),
    ];
    let (current, longest) = reading_streaks_chirho(&dates, "2024-03-02", "2024-03-01");
    assert_eq!((current, longest), (3, 3));
    assert!(current <= longest);
}

// ---------------------------------------------------------------------------
// Row decoding
// ---------------------------------------------------------------------------

#[test]
fn decode_rows_skips_rows_that_do_not_convert_chirho() {
    let rows = vec![
        vec![int_chirho(1), text_chirho("Genesis"), int_chirho(1), text_chirho("2024-01-01 10:00:00")],
        vec![int_chirho(2), SqlValueChirho::NullChirho, int_chirho(1), text_chirho("x")],
        vec![int_chirho(3), text_chirho("John"), int_chirho(5_000_000_000), text_chirho("x")],
        vec![int_chirho(4), text_chirho("John"), int_chirho(3), SqlValueChirho::OtherChirho],
        vec![int_chirho(5), text_chirho("Psalms"), int_chirho(23), text_chirho("y")],
    ];
    let decoded = decode_history_rows_chirho(&rows);
    assert_eq!(decoded.len(), 2);
    assert_eq!(decoded[0].id_chirho, 1);
    assert_eq!(decoded[1].book_chirho, "Psalms");
    assert_eq!(decoded[1].chapter_chirho, 23);
}

#[test]
fn decode_optional_text_columns_chirho() {
    let rows = vec![
        vec![int_chirho(7), text_chirho("KJV"), text_chirho("John"), int_chirho(3), int_chirho(16), SqlValueChirho::NullChirho],
        vec![int_chirho(8), text_chirho("KJV"), text_chirho("John"), int_chirho(3), int_chirho(17), text_chirho("Love")],
        vec![int_chirho(9), text_chirho("KJV"), text_chirho("John"), int_chirho(3), int_chirho(18), int_chirho(1)],
    ];
    let bookmarks = decode_bookmark_rows_chirho(&rows);
    assert_eq!(bookmarks.len(), 2);
    assert_eq!(bookmarks[0].label_chirho, None);
    assert_eq!(bookmarks[1].label_chirho, Some("Love".to_string()));
}

#[test]
fn decode_prayer_answered_flag_chirho() {
    let row = |answered: i64| {
        vec![
            int_chirho(1),
            text_chirho("Pray"),
            SqlValueChirho::NullChirho,
            SqlValueChirho::NullChirho,
            SqlValueChirho::NullChirho,
            int_chirho(answered),
            SqlValueChirho::NullChirho,
            text_chirho("2024-01-01 00:00:00"),
        ]
    };
    let prayers = decode_prayer_rows_chirho(&vec![row(0), row(2)]);
    assert!(!prayers[0].is_answered_chirho);
    assert!(prayers[1].is_answered_chirho);
}

#[test]
fn decode_note_rows_wrong_width_chirho() {
    let rows = vec![vec![int_chirho(1), text_chirho("KJV")]];
    assert!(decode_note_rows_chirho(&rows).is_empty());
}

#[test]
fn single_values_of_rows_chirho() {
    assert_eq!(count_of_rows_chirho(&vec![vec![int_chirho(12)]]), 12);
    assert_eq!(count_of_rows_chirho(&vec![vec![int_chirho(1 << 40)]]), 0);
    assert_eq!(count_of_rows_chirho(&Vec::new()), 0);
    assert_eq!(first_text_of_rows_chirho(&vec![vec![text_chirho("dark")], vec![text_chirho("x")]]), Some("dark".to_string()));
    assert_eq!(first_text_of_rows_chirho(&vec![vec![int_chirho(1)]]), None);
    assert_eq!(first_i64_of_rows_chirho(&vec![vec![int_chirho(-4)]]), Some(-4));
}

#[test]
fn verse_sets_from_rows_chirho() {
    let set = verse_set_from_rows_chirho(&vec![
        vec![int_chirho(3)],
        vec![int_chirho(1)],
        vec![int_chirho(3)],
        vec![text_chirho("4")],
    ]);
    let expected: HashSet<i32> = [1, 3].into_iter().collect();
    assert_eq!(set, expected);
}

#[test]
fn like_pattern_wraps_query_chirho() {
    assert_eq!(like_pattern_chirho("love"), "%love%");
    assert_eq!(like_pattern_chirho(""), "%%");
}

// ---------------------------------------------------------------------------
// The study database
// ---------------------------------------------------------------------------

#[test]
fn toggle_answers_the_opposite_chirho() {
    let dir = tempfile::tempdir().unwrap();
    let conn = temp_db_chirho(&dir, "toggle.db");
    assert_eq!(toggle_highlight_given_chirho(&conn, "KJV", "John", 3, 16, false).unwrap(), true);
    assert_eq!(toggle_highlight_given_chirho(&conn, "KJV", "John", 3, 16, true).unwrap(), false);
}

#[test]
fn toggling_twice_restores_the_highlights_chirho() {
    let dir = tempfile::tempdir().unwrap();
    let conn = temp_db_chirho(&dir, "toggle_twice.db");
    let before = codex_lux::database_chirho::get_highlights_chirho(&conn, "KJV", "John", 3).unwrap();
    assert!(codex_lux::database_chirho::toggle_highlight_chirho(&conn, "KJV", "John", 3, 16).unwrap());
    assert!(!codex_lux::database_chirho::toggle_highlight_chirho(&conn, "KJV", "John", 3, 16).unwrap());
    let after = codex_lux::database_chirho::get_highlights_chirho(&conn, "KJV", "John", 3).unwrap();
    assert_eq!(before, after);
}

#[test]
fn history_limit_beyond_sqlite_is_refused_chirho() {
    let dir = tempfile::tempdir().unwrap();
    let conn = temp_db_chirho(&dir, "limit.db");
    if usize::MAX as u128 > i64::MAX as u128 {
        assert!(get_recent_history_chirho(&conn, usize::MAX).is_err());
    }
    assert!(get_recent_history_chirho(&conn, 5).unwrap().is_empty());
}

#[test]
fn init_database_fails_without_directory_chirho() {
    let dir = tempfile::tempdir().unwrap();
    let path = dir.path().join("missing").join("deeper").join("x.db");
    assert!(init_database_chirho(path.to_str().unwrap()).is_err());
}

#[test]
fn statistics_of_an_empty_database_chirho() {
    let dir = tempfile::tempdir().unwrap();
    let conn = temp_db_chirho(&dir, "stats_empty.db");
    let stats = get_statistics_chirho(&conn).unwrap();
    assert_eq!(stats.books_completed_chirho, 0);
    assert_eq!(stats.total_reading_time_seconds_chirho, 0);
    assert_eq!(stats.books_started_chirho, 0);
}

#[test]
fn reading_sessions_add_up_chirho() {
    let dir = tempfile::tempdir().unwrap();
    let conn = temp_db_chirho(&dir, "sessions.db");
    codex_lux::database_chirho::record_reading_session_chirho(&conn, 600, 2).unwrap();
    codex_lux::database_chirho::record_reading_session_chirho(&conn, 300, 1).unwrap();
    let stats = get_statistics_chirho(&conn).unwrap();
    assert_eq!(stats.total_reading_time_seconds_chirho, 900);
    assert_eq!(stats.current_streak_chirho, 1);
    assert_eq!(stats.longest_streak_chirho, 1);
}

// ---------------------------------------------------------------------------
// Backend
// ---------------------------------------------------------------------------

#[test]
fn backend_restores_saved_place_chirho() {
    let dir = tempfile::tempdir().unwrap();
    let path = dir.path().join("backend.db");
    let path = path.to_str().unwrap();
    {
        let mut backend = AppBackendChirho::new_chirho(path).unwrap();
        assert_eq!(backend.current_module_chirho, "KJV");
        assert_eq!(backend.current_book_chirho, "Genesis");
        assert_eq!(backend.current_chapter_chirho, 1);
        backend.navigate_to_chirho("John", 3);
        backend.set_module_chirho("WLC");
    }
    let backend = AppBackendChirho::new_chirho(path).unwrap();
    assert_eq!(backend.current_book_chirho, "John");
    assert_eq!(backend.current_chapter_chirho, 3);
    assert_eq!(backend.current_module_chirho, "WLC");
}

#[test]
fn backend_marks_highlights_and_notes_chirho() {
    let dir = tempfile::tempdir().unwrap();
    let path = dir.path().join("marks.db");
    let mut backend = AppBackendChirho::new_chirho(path.to_str().unwrap()).unwrap();
    assert!(backend.toggle_highlight_chirho("2"));
    assert_eq!(backend.save_note_chirho("3", "a note"), "Note saved");
    let verses = backend.get_verses_chirho();
    assert!(!verses[0].is_highlighted_chirho);
    assert!(verses[1].is_highlighted_chirho);
    assert_eq!(verses[1].highlight_color_chirho, "yellow");
    assert!(verses[2].has_note_chirho);
    assert_eq!(backend.save_note_chirho("3", "   "), "Note deleted");
    assert!(!backend.get_verses_chirho()[2].has_note_chirho);
}

#[test]
fn backend_bookmark_toggle_chirho() {
    let dir = tempfile::tempdir().unwrap();
    let path = dir.path().join("bookmark.db");
    let backend = AppBackendChirho::new_chirho(path.to_str().unwrap()).unwrap();
    assert!(!backend.toggle_bookmark_chirho("5"));
    let shown = codex_lux::backend_chirho::load_bookmarks_for_ui_chirho(&backend.db_conn_chirho);
    assert_eq!(shown.len(), 1);
    assert_eq!(shown[0].label_chirho, "Genesis 1:5");
    assert_eq!(shown[0].reference_chirho, "Genesis 1:5");
    assert!(backend.toggle_bookmark_chirho("5"));
    assert!(codex_lux::backend_chirho::load_bookmarks_for_ui_chirho(&backend.db_conn_chirho).is_empty());
}

#[test]
fn backend_book_navigation_wraps_chirho() {
    let dir = tempfile::tempdir().unwrap();
    let path = dir.path().join("wrap.db");
    let mut backend = AppBackendChirho::new_chirho(path.to_str().unwrap()).unwrap();
    assert_eq!(backend.navigate_prev_book_chirho(), Some("Revelation"));
    assert_eq!(backend.current_chapter_chirho, 1);
    assert_eq!(backend.navigate_next_book_chirho(), Some("Genesis"));
    backend.navigate_to_chirho("Nowhere", 4);
    assert_eq!(backend.navigate_next_book_chirho(), None);
    assert_eq!(backend.current_book_chirho, "Nowhere");
}

#[test]
fn panels_show_previews_chirho() {
    let dir = tempfile::tempdir().unwrap();
    let conn = temp_db_chirho(&dir, "panels.db");
    codex_lux::database_chirho::add_highlight_with_color_chirho(&conn, "KJV", "Genesis", 1, 2, "green").unwrap();
    codex_lux::database_chirho::add_highlight_with_color_chirho(&conn, "KJV", "Exodus", 4, 4, "red").unwrap();
    let long = "x".repeat(150);
    codex_lux::database_chirho::save_note_chirho(&conn, "KJV", "John", 3, 16, &long).unwrap();
    let highlights = codex_lux::backend_chirho::load_highlights_for_ui_chirho(&conn);
    assert_eq!(highlights.len(), 2);
    let genesis = highlights.iter().find(|h| h.book_chirho == "Genesis").unwrap();
    assert_eq!(genesis.preview_chirho, format!("{}...", &"And the earth was without form, and void; and darkness was upon the face of the deep. And the Spirit of God moved upon the face of the waters."[..80]));
    let exodus = highlights.iter().find(|h| h.book_chirho == "Exodus").unwrap();
    assert_eq!(exodus.preview_chirho, "");
    let notes = codex_lux::backend_chirho::load_notes_for_ui_chirho(&conn);
    assert_eq!(notes[0].preview_chirho, format!("{}...", "x".repeat(100)));
    assert_eq!(notes[0].reference_chirho, "John 3:16");
}

#[test]
fn saved_chapter_defaults_to_one_chirho() {
    assert_eq!(saved_chapter_chirho(&Some("12".to_string())), 12);
    assert_eq!(saved_chapter_chirho(&Some("twelve".to_string())), 1);
    assert_eq!(saved_chapter_chirho(&None), 1);
}

// ---------------------------------------------------------------------------
// Display
// ---------------------------------------------------------------------------

#[test]
fn references_chirho() {
    assert_eq!(verse_reference_chirho("John", 3, 16), "John 3:16");
    assert_eq!(reference_label_chirho("Psalms", 23, "1"), "Psalms 23:1");
    assert_eq!(verse_reference_chirho("Jude", 1, -2), "Jude 1:-2");
}

#[test]
fn label_numbers_chirho() {
    assert_eq!(label_number_chirho("16"), 16);
    assert_eq!(label_number_chirho("+7"), 7);
    assert_eq!(label_number_chirho("x"), 0);
    assert_eq!(label_number_chirho(""), 0);
}

#[test]
fn previews_cut_at_character_boundaries_chirho() {
    assert_eq!(preview_chirho("short", 100), "short");
    assert_eq!(preview_chirho(&"a".repeat(100), 100), "a".repeat(100));
    assert_eq!(preview_chirho(&"a".repeat(101), 100), format!("{}...", "a".repeat(100)));
    assert_eq!(preview_chirho(&"é".repeat(60), 100), format!("{}...", "é".repeat(50)));
    assert_eq!(preview_chirho(&format!("a{}", "é".repeat(60)), 100), format!("a{}...", "é".repeat(49)));
}

#[test]
fn verses_are_marked_from_highlights_and_notes_chirho() {
    let raw = vec![
        ("1".to_string(), "one".to_string()),
        ("2".to_string(), "two".to_string()),
        ("x".to_string(), "odd".to_string()),
    ];
    let highlights = vec![
        HighlightInfoChirho { verse_chirho: 2, color_chirho: "blue".to_string() },
        HighlightInfoChirho { verse_chirho: 2, color_chirho: "green".to_string() },
        HighlightInfoChirho { verse_chirho: 0, color_chirho: "pink".to_string() },
    ];
    let notes: HashSet<i32> = [1].into_iter().collect();
    let verses = mark_verses_chirho(raw, &highlights, &notes);
    assert!(!verses[0].is_highlighted_chirho);
    assert!(verses[0].has_note_chirho);
    assert_eq!(verses[1].highlight_color_chirho, "green");
    assert_eq!(verses[2].highlight_color_chirho, "pink");
    assert_eq!(verses[2].reference_chirho, "x");
}

// ---------------------------------------------------------------------------
// Engine
// ---------------------------------------------------------------------------

#[test]
fn engine_without_modules_chirho() {
    let engine = BibleEngineChirho::without_modules_chirho();
    assert_eq!(engine.get_module_names_chirho(), vec!["KJV", "SBLGNT", "WLC"]);
    assert_eq!(engine.current_module_chirho(), "KJV");
    assert_eq!(engine.get_raw_verse_chirho("Genesis 1:1"), None);
    assert!(engine.extract_interlinear_chirho("Genesis 1:1").is_empty());
    assert_eq!(engine.get_chapter_verses_chirho("Exodus", 2).len(), 3);
}

#[test]
fn search_keeps_at_least_the_first_match_chirho() {
    let engine = BibleEngineChirho::without_modules_chirho();
    let one = engine.search_chirho("God", 0);
    assert_eq!(one.len(), 1);
    assert_eq!(one[0].0, "Genesis 1:1");
    let two = engine.search_chirho("GOD", 2);
    assert_eq!(two.len(), 2);
    assert_eq!(two[1].0, "Genesis 1:2");
    let all = engine.search_chirho("shepherd", 50);
    assert_eq!(all, vec![("Psalms 23:1".to_string(), "יְהוָ֥ה רֹ֝עִ֗י לֹ֣א אֶחְסָֽר׃ The LORD is my shepherd; I shall not want.".to_string())]);
}

#[test]
fn search_results_contain_the_query_chirho() {
    let candidates = vec![
        ("A 1:1".to_string(), "Light".to_string()),
        ("A 1:2".to_string(), "dark".to_string()),
        ("A 1:3".to_string(), "LIGHTS".to_string()),
    ];
    let results = search_candidates_chirho(&candidates, "light", 10);
    assert_eq!(results.len(), 2);
    for (_, text) in &results {
        assert!(text.to_lowercase().contains("light"));
    }
}

#[test]
fn search_lowercases_beyond_ascii_chirho() {
    let candidates = vec![
        ("A 1:1".to_string(), "ΘΕΌΣ ἦν ὁ λόγος".to_string()),
        ("A 1:2".to_string(), "light".to_string()),
    ];
    let results = search_candidates_chirho(&candidates, "θεός", 10);
    assert_eq!(results, vec![("A 1:1".to_string(), "ΘΕΌΣ ἦν ὁ λόγος".to_string())]);
    assert_eq!(parse_reference_chirho("JOHN 3:16"), Some(("John".to_string(), 3, 16)));
}

#[test]
fn written_references_parse_back_chirho() {
    for i in 0..66 {
        let book = book_name_chirho(i);
        for (chapter, verse) in [(1, 1), (0, 0), (150, 176), (i32::MAX, i32::MAX), (-3, 5)] {
            let reference = verse_reference_chirho(book, chapter, verse);
            assert_eq!(
                parse_reference_chirho(&reference),
                Some((book.to_string(), chapter, verse)),
                "{}",
                reference
            );
        }
    }
}

// ---------------------------------------------------------------------------
// OSIS
// ---------------------------------------------------------------------------

#[test]
fn osis_words_are_read_chirho() {
    let osis = r#"<verse><w lemma="strong:H7225" morph="HR/Ncfsa|x" gloss="beginning">בְּרֵאשִׁית</w> <w lemma="strong:H1254 strong:H9" morph=" V | y">created</w><wx>no</wx><w >bare</w></verse>"#;
    let words = interlinear_from_osis_chirho(osis);
    assert_eq!(words.len(), 3);
    assert_eq!(words[0].original_chirho, "בְּרֵאשִׁית");
    assert_eq!(words[0].strongs_chirho, "H7225");
    assert!(words[0].is_hebrew_chirho);
    assert_eq!(words[0].gloss_chirho, "beginning");
    assert_eq!(words[0].morphology_chirho, "HR/Ncfsa|x");
    assert_eq!(words[0].part_of_speech_chirho, "HR/Ncfsa");
    assert_eq!(words[1].strongs_chirho, "H1254, H9");
    assert_eq!(words[1].gloss_chirho, "");
    assert_eq!(words[1].part_of_speech_chirho, "V");
    assert_eq!(words[2].original_chirho, "bare");
    assert_eq!(words[2].morphology_chirho, "");
    assert!(!words[2].is_hebrew_chirho);
}

#[test]
fn osis_unclosed_words_are_skipped_chirho() {
    assert!(interlinear_from_osis_chirho("<w a>text").is_empty());
    assert!(interlinear_from_osis_chirho("<w a>text</x>").is_empty());
    let greek = interlinear_from_osis_chirho(r#"<w lemma="strong:G26">ἀγάπη</w>"#);
    assert_eq!(greek.len(), 1);
    assert!(!greek[0].is_hebrew_chirho);
}

// ---------------------------------------------------------------------------
// Quick navigation
// ---------------------------------------------------------------------------

#[test]
fn quick_nav_exact_book_lists_chapters_chirho() {
    let results = quick_nav_matches_chirho("ruth");
    let chapters: Vec<i32> = results.iter().map(|e| e.chapter_chirho).collect();
    assert_eq!(chapters, vec![1, 2, 3, 4]);
    assert!(results.iter().all(|e| e.book_chirho == "Ruth"));
}

#[test]
fn quick_nav_stops_at_fifteen_chirho() {
    let results = quick_nav_matches_chirho("e");
    assert_eq!(results.len(), 15);
}

#[test]
fn quick_nav_puts_reference_first_chirho() {
    let results = quick_nav_matches_chirho("Rom 8:28");
    assert_eq!(results[0].book_chirho, "Romans");
    assert_eq!(results[0].chapter_chirho, 8);
    let results = quick_nav_matches_chirho("1Cor 13");
    assert_eq!(results[0].book_chirho, "1 Corinthians");
    assert_eq!(results[0].chapter_chirho, 13);
    let results = quick_nav_matches_chirho("1 Cor 13");
    assert_eq!(results[0].book_chirho, "1 Chronicles");
    assert!(results.iter().any(|e| e.book_chirho == "1 Corinthians" && e.chapter_chirho == 1));
}

#[test]
fn quick_nav_refuses_uncuttable_queries_chirho() {
    let dir = tempfile::tempdir().unwrap();
    let conn = temp_db_chirho(&dir, "nav.db");
    assert!(quick_nav_search_checked_chirho("éé", &conn).is_none());
    assert!(quick_nav_search_checked_chirho("é", &conn).is_some());
    assert!(quick_nav_search_checked_chirho("", &conn).unwrap().is_empty());
}

#[test]
fn history_entries_show_dates_chirho() {
    let rows = vec![vec![int_chirho(1), text_chirho("John"), int_chirho(3), text_chirho("2024-02-03 04:05:06")]];
    let stored = decode_history_rows_chirho(&rows);
    let shown = history_entries_for_ui_chirho(&stored);
    assert_eq!(shown[0].timestamp_chirho, "2024-02-03");
    assert_eq!(shown[0].book_chirho, "John");
}

// ---------------------------------------------------------------------------
// Actions
// ---------------------------------------------------------------------------

#[test]
fn copy_formats_chirho() {
    assert_eq!(copy_format_chirho("John 3:16", "For God", 0), "For God - John 3:16");
    assert_eq!(copy_format_chirho("John 3:16", "For God", 1), "John 3:16: For God");
    assert_eq!(copy_format_chirho("John 3:16", "For God", 2), "For God");
    assert_eq!(copy_format_chirho("John 3:16", "For God", 7), "For God - John 3:16");
}

#[test]
fn copy_selection_in_either_order_chirho() {
    let verses = vec![
        plain_verse_chirho("1", "In the beginning."),
        plain_verse_chirho("2", "And the earth."),
        plain_verse_chirho("3", "And God said."),
        plain_verse_chirho("x", "Not a verse."),
    ];
    let (reference, text) = copy_selection_chirho(&verses, "Genesis", 1, 3, 2, true, 1).unwrap();
    assert_eq!(reference, "Genesis 1:2-3");
    assert_eq!(text, "Genesis 1:2-3: 2. And the earth. 3. And God said.");
    let (_, plain) = copy_selection_chirho(&verses, "Genesis", 1, 1, 2, false, 2).unwrap();
    assert_eq!(plain, "In the beginning. And the earth.");
    assert!(copy_selection_chirho(&verses, "Genesis", 1, 0, 2, false, 0).is_none());
}

#[test]
fn status_lines_chirho() {
    assert_eq!(search_status_chirho(1, "love"), "Found 1 result for 'love'");
    assert_eq!(search_status_chirho(3, "God"), "Found 3 results for 'God'");
    assert!(search_query_is_blank_chirho("  \t"));
    assert!(!search_query_is_blank_chirho(" a "));
    assert_eq!(toggle_message_chirho("Footnotes", true), "Footnotes display enabled");
    assert_eq!(toggle_message_chirho("Morphology", false), "Morphology display disabled");
    assert_eq!(day_complete_message_chirho(3), "Day 3 complete! 🎉");
}

#[test]
fn theme_flips_chirho() {
    assert_eq!(next_theme_chirho(&None), "light");
    assert_eq!(next_theme_chirho(&Some("dark".to_string())), "light");
    assert_eq!(next_theme_chirho(&Some("light".to_string())), "dark");
    assert_eq!(next_theme_chirho(&Some("sepia".to_string())), "dark");
}

#[test]
fn versification_names_chirho() {
    assert_eq!(versification_name_chirho(3), "LXX");
    assert_eq!(versification_name_chirho(5), "Luther");
    assert_eq!(versification_name_chirho(6), "KJV");
    assert_eq!(versification_name_chirho(-1), "KJV");
}

#[test]
fn optional_text_fields_chirho() {
    assert_eq!(optional_text_chirho(""), None);
    assert_eq!(optional_text_chirho("Health"), Some("Health".to_string()));
}

#[test]
fn plan_progress_chirho() {
    let mut plan = get_builtin_reading_plans_chirho().remove(0);
    plan.total_days_chirho = 30;
    mark_day_complete_chirho(&mut plan, 3);
    assert_eq!(plan.current_day_chirho, 4);
    assert_eq!(plan.progress_percent_chirho, 10);
    mark_day_complete_chirho(&mut plan, 40);
    assert_eq!(plan.progress_percent_chirho, 100);
    let mut odd = ReadingPlanChirho {
        id_chirho: 9,
        name_chirho: "x".to_string(),
        description_chirho: String::new(),
        plan_type_chirho: String::new(),
        total_days_chirho: 7,
        current_day_chirho: 1,
        is_active_chirho: false,
        progress_percent_chirho: 0,
    };
    mark_day_complete_chirho(&mut odd, -3);
    assert_eq!(odd.progress_percent_chirho, -42);
}

#[test]
fn first_reading_of_a_day_chirho() {
    assert_eq!(first_reading_reference_chirho("Romans 8, 12"), Some(("Romans".to_string(), 8, 1)));
    assert_eq!(first_reading_reference_chirho(" Psalm 23, Proverbs 1"), Some(("Psalms".to_string(), 23, 1)));
    assert_eq!(first_reading_reference_chirho("nothing"), None);
}

#[test]
fn lexicon_history_keeps_five_chirho() {
    let mut history: Vec<String> = Vec::new();
    for q in ["love", "faith", "hope", "love", "grace", "word", "logos"] {
        push_lexicon_history_chirho(&mut history, q);
    }
    assert_eq!(history, vec!["logos", "word", "grace", "hope", "faith"]);
}

#[test]
fn interlinear_falls_back_to_samples_chirho() {
    let words = interlinear_or_sample_chirho(Vec::new(), "John 3:16");
    assert_eq!(words.len(), 9);
    let kept = interlinear_or_sample_chirho(interlinear_from_osis_chirho("<w a>b</w>"), "John 3:16");
    assert_eq!(kept.len(), 1);
}

#[test]
fn journal_and_prayer_records_chirho() {
    let entry = JournalEntryChirho {
        id_chirho: 5,
        title_chirho: String::new(),
        content_chirho: "c".repeat(120),
        verse_ref_chirho: None,
        tags_chirho: None,
        created_at_chirho: "2024-01-01 00:00:00".to_string(),
        updated_at_chirho: "2024-01-01 00:00:00".to_string(),
    };
    let shown = journal_display_chirho(&entry);
    assert_eq!(shown.title_chirho, "Untitled");
    assert_eq!(shown.preview_chirho, format!("{}...", "c".repeat(100)));
    let prayer = PrayerRequestChirho {
        id_chirho: 2,
        title_chirho: "Health".to_string(),
        description_chirho: None,
        verse_ref_chirho: Some("James 5:14".to_string()),
        category_chirho: None,
        is_answered_chirho: true,
        answered_at_chirho: None,
        created_at_chirho: "2024-05-06 07:08:09".to_string(),
    };
    let shown = prayer_display_chirho(&prayer);
    assert_eq!(shown.description_chirho, "");
    assert_eq!(shown.verse_ref_chirho, "James 5:14");
    assert_eq!(shown.date_chirho, "2024-05-06");
}

// ---------------------------------------------------------------------------
// Transfer
// ---------------------------------------------------------------------------

#[test]
fn backups_newest_first_chirho() {
    let names = vec![
        "codex_lux_backup_20240101_000000.json".to_string(),
        "highlights_20240301_000000.json".to_string(),
        "codex_lux_backup_20240301_000000.json".to_string(),
        "codex_lux_backup_20240201_000000.txt".to_string(),
        "codex_lux_backup_20240201_000000.json".to_string(),
    ];
    assert_eq!(
        select_backup_files_chirho(&names),
        vec![
            "codex_lux_backup_20240301_000000.json",
            "codex_lux_backup_20240201_000000.json",
            "codex_lux_backup_20240101_000000.json",
        ]
    );
}

#[test]
fn export_file_names_chirho() {
    assert_eq!(export_file_name_chirho("notes", "20240101_120000"), "notes_20240101_120000.json");
}

#[test]
fn import_defaults_and_requirements_chirho() {
    let hl = ImportHighlightChirho {
        book_chirho: Some("John".to_string()),
        chapter_chirho: Some(3),
        verse_chirho: Some(16),
        color_chirho: None,
        module_chirho: None,
    };
    assert_eq!(
        highlight_import_args_chirho(&hl),
        Some(("KJV".to_string(), "John".to_string(), 3, 16, "yellow".to_string()))
    );
    let missing = ImportNoteChirho {
        book_chirho: Some("John".to_string()),
        chapter_chirho: Some(3),
        verse_chirho: Some(16),
        content_chirho: None,
        module_chirho: Some("ESV".to_string()),
    };
    assert_eq!(note_import_args_chirho(&missing), None);
    let wide = ImportHighlightChirho {
        book_chirho: Some("John".to_string()),
        chapter_chirho: Some(4_294_967_299),
        verse_chirho: Some(1),
        color_chirho: Some("red".to_string()),
        module_chirho: Some("ESV".to_string()),
    };
    assert_eq!(highlight_import_args_chirho(&wide).unwrap().2, 3);
}

#[test]
fn import_counts_stored_entries_chirho() {
    let dir = tempfile::tempdir().unwrap();
    let conn = temp_db_chirho(&dir, "import.db");
    let highlights = vec![
        ImportHighlightChirho {
            book_chirho: Some("John".to_string()),
            chapter_chirho: Some(3),
            verse_chirho: Some(16),
            color_chirho: Some("blue".to_string()),
            module_chirho: None,
        },
        ImportHighlightChirho {
            book_chirho: None,
            chapter_chirho: Some(3),
            verse_chirho: Some(16),
            color_chirho: None,
            module_chirho: None,
        },
    ];
    let bookmarks = vec![ImportBookmarkChirho {
        book_chirho: Some("Ruth".to_string()),
        chapter_chirho: Some(1),
        verse_chirho: Some(16),
        label_chirho: None,
        module_chirho: None,
    }];
    let notes = vec![ImportNoteChirho {
        book_chirho: Some("Ruth".to_string()),
        chapter_chirho: Some(1),
        verse_chirho: Some(16),
        content_chirho: Some("whither thou goest".to_string()),
        module_chirho: None,
    }];
    assert_eq!(import_entries_chirho(&conn, &highlights, &bookmarks, &notes), (1, 1, 1));
    let colors = codex_lux::database_chirho::get_highlights_with_colors_chirho(&conn, "KJV", "John", 3).unwrap();
    assert_eq!(colors[0].color_chirho, "blue");
}

// ---------------------------------------------------------------------------
// Samples and books
// ---------------------------------------------------------------------------

#[test]
fn dates_and_days_chirho() {
    assert_eq!(format_date_chirho(0), "January 1, 1970");
    assert_eq!(format_date_chirho(1), "January 2, 1970");
    assert_eq!(format_date_chirho(31), "February 1, 1970");
    assert_eq!(format_date_chirho(364), "December 31, 1970");
    assert_eq!(format_date_chirho(365), "January 1, 1971");
    assert_eq!(reading_for_day_chirho(7).readings_chirho, "Genesis 1-3");
    assert_eq!(reading_for_day_chirho(8).day_number_chirho, 8);
    assert_eq!(verse_of_the_day_for_chirho(0), verse_of_the_day_for_chirho(31));
}

#[test]
fn book_navigation_is_inverse_chirho() {
    for i in 0..66usize {
        assert_eq!(prev_book_index_chirho(next_book_index_chirho(i)), i);
    }
    assert_eq!(book_name_chirho(prev_book_index_chirho(0)), "Revelation");
    assert_eq!(book_position_chirho("Malachi"), Some(38));
    assert_eq!(book_chapters_chirho(18), 150);
}

#[test]
fn saved_chapter_reads_back_chirho() {
    for chapter in [1, 0, 50, 150, -7, i32::MAX, i32::MIN] {
        let saved = int_to_string_chirho(chapter as i64);
        assert_eq!(saved_chapter_chirho(&Some(saved)), chapter);
    }
}

#[test]
fn written_chapter_and_verse_read_back_chirho() {
    for (chapter, verse) in [(3, 16), (0, 0), (-2, 9), (i32::MIN, i32::MAX)] {
        let reference = verse_reference_chirho("Song of Solomon", chapter, verse);
        let rest: Vec<char> = reference["Song of Solomon".len()..].trim().chars().collect();
        assert_eq!(chapter_verse_chirho(&rest), Some((chapter, verse)));
    }
}

#[test]
fn theme_toggled_twice_returns_chirho() {
    for theme in ["dark", "light"] {
        let once = next_theme_chirho(&Some(theme.to_string()));
        assert_eq!(next_theme_chirho(&Some(once.to_string())), theme);
    }
    assert_eq!(next_theme_chirho(&Some(next_theme_chirho(&None).to_string())), "dark");
}

#[test]
fn backup_text_is_read_field_by_field_chirho() {
    let text = r#"{
        "export_info": {"app": "Codex Lux Chirho"},
        "highlights": [
            {"book": "John", "chapter": 3, "verse": 16, "color": "blue", "module": "KJV"},
            {"book": "Genesis", "chapter": "one", "verse": 1.5}
        ],
        "bookmarks": [{"book": "Psalms", "chapter": 23, "verse": 1, "label": null}],
        "notes": "not a list"
    }"#;
    let (highlights, bookmarks, notes) = codex_lux::transfer_chirho::parse_backup_chirho(text).unwrap();
    assert_eq!(highlights.len(), 2);
    assert_eq!(highlights[0].book_chirho.as_deref(), Some("John"));
    assert_eq!(highlights[0].chapter_chirho, Some(3));
    assert_eq!(highlights[0].verse_chirho, Some(16));
    assert_eq!(highlights[0].color_chirho.as_deref(), Some("blue"));
    assert_eq!(highlights[1].chapter_chirho, None);
    assert_eq!(highlights[1].verse_chirho, None);
    assert_eq!(highlights[1].module_chirho, None);
    assert_eq!(bookmarks.len(), 1);
    assert_eq!(bookmarks[0].label_chirho, None);
    assert_eq!(bookmarks[0].chapter_chirho, Some(23));
    assert!(notes.is_empty());
    assert!(codex_lux::transfer_chirho::parse_backup_chirho("{ not json").is_none());
    let (h, b, n) = codex_lux::transfer_chirho::parse_backup_chirho("[1, 2]").unwrap();
    assert!(h.is_empty() && b.is_empty() && n.is_empty());
}

#[test]
fn day_before_is_written_as_a_date_chirho() {
    let (today, yesterday) = codex_lux::streaks_chirho::day_and_day_before_chirho(738895);
    assert_eq!(today, "2024-01-10");
    assert_eq!(yesterday, "2024-01-09");
    let (today, yesterday) = codex_lux::streaks_chirho::day_and_day_before_chirho(738946);
    assert_eq!(today, "2024-03-01");
    assert_eq!(yesterday, "2024-02-29");
    let (today, yesterday) = codex_lux::streaks_chirho::day_and_day_before_chirho(i32::MIN);
    assert_eq!(today, "");
    assert_eq!(yesterday, "");
}

#[test]
fn restored_position_uses_defaults_chirho() {
    let (m, b, c) = restored_position_chirho(Some("ESV".to_string()), Some("Mark".to_string()), &Some("4".to_string()));
    assert_eq!((m.as_str(), b.as_str(), c), ("ESV", "Mark", 4));
    let (m, b, c) = restored_position_chirho(None, None, &Some("four".to_string()));
    assert_eq!((m.as_str(), b.as_str(), c), ("KJV", "Genesis", 1));
    let (_, _, c) = restored_position_chirho(None, None, &None);
    assert_eq!(c, 1);
}

#[test]
fn streaks_of_session_rows_chirho() {
    let rows = vec![
        vec![text_chirho("2024-01-10")],
        vec![int_chirho(5)],
        vec![text_chirho("2024-01-09")],
        vec![],
        vec![text_chirho("2024-01-07")],
    ];
    assert_eq!(session_dates_of_rows_chirho(&rows), vec!["2024-01-10", "2024-01-09", "2024-01-07"]);
    assert_eq!(streaks_of_rows_chirho(&rows, "2024-01-10", "2024-01-09"), (2, 2));
    let none: Vec<Vec<SqlValueChirho>> = Vec::new();
    assert_eq!(streaks_of_rows_chirho(&none, "2024-01-10", "2024-01-09"), (0, 0));
}

#[test]
fn statistics_record_of_rows_chirho() {
    let one = |n: i64| vec![vec![int_chirho(n)]];
    let none: Vec<Vec<SqlValueChirho>> = Vec::new();
    let s = statistics_of_chirho(&one(12), &one(7), &one(3600), (2, 5), &one(4), &none, &one(9_000_000_000), &one(3));
    assert_eq!(s.total_chapters_read_chirho, 12);
    assert_eq!(s.unique_chapters_read_chirho, 7);
    assert_eq!(s.total_reading_time_seconds_chirho, 3600);
    assert_eq!((s.current_streak_chirho, s.longest_streak_chirho), (2, 5));
    assert_eq!(s.highlight_count_chirho, 4);
    assert_eq!(s.note_count_chirho, 0);
    assert_eq!(s.bookmark_count_chirho, 0);
    assert_eq!(s.books_started_chirho, 3);
    assert_eq!(s.books_completed_chirho, 0);
}

#[test]
fn engine_search_and_chapters_chirho() {
    let engine = BibleEngineChirho::without_modules_chirho();
    let results = engine.search_chirho("GOD", 0);
    assert_eq!(results.len(), 1);
    assert!(results[0].1.to_lowercase().contains("god"));
    assert_eq!(engine.search_chirho("god", 10), engine.search_chirho("GOD", 10));
    assert!(engine.search_chirho("xyzabc123nonsense", 10).is_empty());
    let verses = engine.get_chapter_verses_chirho("Obadiah", 1);
    assert!(!verses.is_empty() && verses.len() <= 200);
}

#[test]
fn verses_of_the_day_parse_and_change_daily_chirho() {
    for day in 0..62u64 {
        let (reference, _) = verse_of_the_day_for_chirho(day);
        assert!(parse_reference_chirho(&reference).is_some(), "{}", reference);
        assert_ne!(reference, verse_of_the_day_for_chirho(day + 1).0);
    }
}
