//! Tests of the statements each database operation runs, of the export
//! JSON, and of the import counts.

use codex_lux::backend_chirho::{
    restore_statements_chirho, save_module_statement_chirho, save_place_statements_chirho,
    AppBackendChirho, BOOK_SETTING_KEY_CHIRHO, CHAPTER_SETTING_KEY_CHIRHO, MODULE_SETTING_KEY_CHIRHO,
};
use codex_lux::bible_engine_chirho::chapter_or_sample_chirho;
use codex_lux::database_chirho::{
    add_bookmark_statement_chirho, add_highlight_with_color_statement_chirho,
    calculate_reading_streaks_chirho, execute_statement_chirho, get_highlights_chirho,
    get_highlights_statement_chirho, get_recent_history_statement_chirho,
    get_setting_statement_chirho, init_database_chirho, read_text_chirho,
    record_reading_session_statement_chirho, save_note_statement_chirho,
    search_notes_statement_chirho, set_setting_statement_chirho, toggle_highlight_statement_chirho,
    update_bookmark_label_statement_chirho, SqlParamChirho, SqlStatementChirho,
    ADD_BOOKMARK_SQL_CHIRHO, ADD_HIGHLIGHT_WITH_COLOR_SQL_CHIRHO, GET_HIGHLIGHTS_SQL_CHIRHO,
    GET_SETTING_SQL_CHIRHO, SAVE_NOTE_SQL_CHIRHO, SET_SETTING_SQL_CHIRHO,
    TOGGLE_HIGHLIGHT_GIVEN_SQL_1_CHIRHO, TOGGLE_HIGHLIGHT_GIVEN_SQL_2_CHIRHO,
};
use codex_lux::samples_chirho::{get_sample_lexicon_entry_chirho, get_sample_verses_chirho};
use codex_lux::morphology_chirho::parse_morphology_code_chirho;
use codex_lux::database_chirho::{highlight_exists_chirho, is_bookmarked_chirho, toggle_highlight_chirho};
use codex_lux::transfer_chirho::{
    backup_export_text_chirho, backup_json_chirho, bookmark_json_chirho,
    highlights_export_text_chirho, import_entries_chirho, parse_backup_chirho, stored_count_chirho,
    ExportBookmarkChirho, ExportHighlightChirho, ExportNoteChirho, JsonValueChirho,
    EXPORT_APP_NAME_CHIRHO,
};

/// The parameters of a statement, written out for comparison.
fn params_chirho(st: &SqlStatementChirho) -> Vec<String> {
    st.params_chirho
        .iter()
        .map(|p| match p {
            SqlParamChirho::NullChirho => "NULL".to_string(),
            SqlParamChirho::IntegerChirho(i) => format!("int {}", i),
            SqlParamChirho::TextChirho(t) => format!("text {}", t),
        })
        .collect()
}

#[test]
fn test_verse_statement_parameters_in_order_chirho() {
    let st = add_highlight_with_color_statement_chirho("KJV", "John", 3, 16, "blue");
    assert_eq!(st.sql_chirho, ADD_HIGHLIGHT_WITH_COLOR_SQL_CHIRHO);
    assert_eq!(params_chirho(&st), vec!["text KJV", "text John", "int 3", "int 16", "text blue"]);
    let st = save_note_statement_chirho("WLC", "Genesis", 1, 2, "a note");
    assert_eq!(st.sql_chirho, SAVE_NOTE_SQL_CHIRHO);
    assert_eq!(params_chirho(&st), vec!["text WLC", "text Genesis", "int 1", "int 2", "text a note"]);
}

#[test]
fn test_bookmark_statement_label_or_null_chirho() {
    let st = add_bookmark_statement_chirho("KJV", "Psalms", 23, 1, None);
    assert_eq!(st.sql_chirho, ADD_BOOKMARK_SQL_CHIRHO);
    assert_eq!(params_chirho(&st), vec!["text KJV", "text Psalms", "int 23", "int 1", "NULL"]);
    let st = add_bookmark_statement_chirho("KJV", "Psalms", 23, 1, Some("shepherd"));
    assert_eq!(params_chirho(&st)[4], "text shepherd");
}

#[test]
fn test_chapter_statement_chirho() {
    let st = get_highlights_statement_chirho("KJV", "Romans", 8);
    assert_eq!(st.sql_chirho, GET_HIGHLIGHTS_SQL_CHIRHO);
    assert_eq!(params_chirho(&st), vec!["text KJV", "text Romans", "int 8"]);
}

#[test]
fn test_toggle_statement_deletes_or_inserts_chirho() {
    let st = toggle_highlight_statement_chirho("KJV", "John", 3, 16, true);
    assert_eq!(st.sql_chirho, TOGGLE_HIGHLIGHT_GIVEN_SQL_1_CHIRHO);
    assert!(st.sql_chirho.starts_with("DELETE"));
    let st = toggle_highlight_statement_chirho("KJV", "John", 3, 16, false);
    assert_eq!(st.sql_chirho, TOGGLE_HIGHLIGHT_GIVEN_SQL_2_CHIRHO);
    assert!(st.sql_chirho.starts_with("INSERT"));
    assert_eq!(params_chirho(&st), vec!["text KJV", "text John", "int 3", "int 16"]);
}

#[test]
fn test_other_statements_chirho() {
    let st = search_notes_statement_chirho("grace");
    assert_eq!(params_chirho(&st), vec!["text %grace%"]);
    let st = set_setting_statement_chirho("theme", "dark");
    assert_eq!(st.sql_chirho, SET_SETTING_SQL_CHIRHO);
    assert_eq!(params_chirho(&st), vec!["text theme", "text dark"]);
    let st = get_setting_statement_chirho("theme");
    assert_eq!(st.sql_chirho, GET_SETTING_SQL_CHIRHO);
    assert_eq!(params_chirho(&st), vec!["text theme"]);
    let st = get_recent_history_statement_chirho(10);
    assert_eq!(params_chirho(&st), vec!["int 10"]);
    let st = update_bookmark_label_statement_chirho(7, "new");
    assert_eq!(params_chirho(&st), vec!["text new", "int 7"]);
    let st = record_reading_session_statement_chirho("2024-01-10", 600, 2);
    assert_eq!(params_chirho(&st), vec!["text 2024-01-10", "int 600", "int 2"]);
}

#[test]
fn test_saved_place_statements_use_the_setting_keys_chirho() {
    assert_eq!(MODULE_SETTING_KEY_CHIRHO, "current_module");
    assert_eq!(BOOK_SETTING_KEY_CHIRHO, "current_book");
    assert_eq!(CHAPTER_SETTING_KEY_CHIRHO, "current_chapter");
    let (book, chapter) = save_place_statements_chirho("John", 3);
    assert_eq!(params_chirho(&book), vec!["text current_book", "text John"]);
    assert_eq!(params_chirho(&chapter), vec!["text current_chapter", "text 3"]);
    let module = save_module_statement_chirho("WLC");
    assert_eq!(params_chirho(&module), vec!["text current_module", "text WLC"]);
    let (m, b, c) = restore_statements_chirho();
    assert_eq!(params_chirho(&m), vec!["text current_module"]);
    assert_eq!(params_chirho(&b), vec!["text current_book"]);
    assert_eq!(params_chirho(&c), vec!["text current_chapter"]);
}

#[test]
fn test_place_is_restored_in_a_new_session_chirho() {
    let dir = tempfile::tempdir().unwrap();
    let path = dir.path().join("restore.db");
    let path = path.to_str().unwrap();
    {
        let mut backend = AppBackendChirho::new_chirho(path).unwrap();
        assert_eq!(backend.current_book_chirho, "Genesis");
        assert_eq!(backend.current_chapter_chirho, 1);
        assert_eq!(backend.current_module_chirho, "KJV");
        backend.navigate_to_chirho("Romans", 8);
        backend.set_module_chirho("WLC");
    }
    let backend = AppBackendChirho::new_chirho(path).unwrap();
    assert_eq!(backend.current_book_chirho, "Romans");
    assert_eq!(backend.current_chapter_chirho, 8);
    assert_eq!(backend.current_module_chirho, "WLC");
}

#[test]
fn test_statement_round_trip_through_sqlite_chirho() {
    let dir = tempfile::tempdir().unwrap();
    let path = dir.path().join("st.db");
    let conn = init_database_chirho(path.to_str().unwrap()).unwrap();
    execute_statement_chirho(&conn, &set_setting_statement_chirho("theme", "dark")).unwrap();
    assert_eq!(read_text_chirho(&conn, &get_setting_statement_chirho("theme")), Some("dark".to_string()));
    assert_eq!(read_text_chirho(&conn, &get_setting_statement_chirho("missing")), None);
    execute_statement_chirho(&conn, &toggle_highlight_statement_chirho("KJV", "John", 3, 16, false)).unwrap();
    let verses = get_highlights_chirho(&conn, "KJV", "John", 3).unwrap();
    assert!(verses.contains(&16));
    let (current, longest) = calculate_reading_streaks_chirho(&conn);
    assert!(0 <= current && current <= longest);
}

#[test]
fn test_stored_count_chirho() {
    assert_eq!(stored_count_chirho(&vec![]), 0);
    assert_eq!(stored_count_chirho(&vec![true, false, true, true]), 3);
    assert_eq!(stored_count_chirho(&vec![false, false]), 0);
}

#[test]
fn test_import_counts_complete_entries_chirho() {
    let dir = tempfile::tempdir().unwrap();
    let path = dir.path().join("imp.db");
    let conn = init_database_chirho(path.to_str().unwrap()).unwrap();
    let text = r#"{"highlights":[{"book":"John","chapter":3,"verse":16,"color":"blue"},{"book":"John"}],
        "bookmarks":[{"book":"Psalms","chapter":23,"verse":1,"label":"x"}],
        "notes":[{"book":"Romans","chapter":8,"verse":28,"content":"good"},{"book":"Romans","chapter":8,"verse":1}]}"#;
    let (h, b, n) = parse_backup_chirho(text).unwrap();
    assert_eq!(import_entries_chirho(&conn, &h, &b, &n), (1, 1, 1));
}

fn sample_highlight_chirho() -> ExportHighlightChirho {
    ExportHighlightChirho {
        reference_chirho: "John 3:16".to_string(),
        book_chirho: "John".to_string(),
        chapter_chirho: 3,
        verse_chirho: 16,
        color_chirho: "yellow".to_string(),
        module_chirho: "KJV".to_string(),
    }
}

#[test]
fn test_bookmark_json_label_null_chirho() {
    let b = ExportBookmarkChirho {
        reference_chirho: "Psalms 23:1".to_string(),
        book_chirho: "Psalms".to_string(),
        chapter_chirho: 23,
        verse_chirho: 1,
        label_chirho: None,
        module_chirho: "KJV".to_string(),
    };
    match bookmark_json_chirho(&b) {
        JsonValueChirho::ObjectChirho(es) => {
            assert_eq!(es.len(), 6);
            assert_eq!(es[4].0, "label");
            assert!(matches!(es[4].1, JsonValueChirho::NullChirho));
            assert_eq!(es[2].0, "chapter");
            assert!(matches!(es[2].1, JsonValueChirho::NumberChirho(Some(23))));
        }
        _ => panic!("not an object"),
    }
}

#[test]
fn test_backup_json_shape_chirho() {
    let v = backup_json_chirho(&vec![sample_highlight_chirho()], &vec![], &vec![], "0.1.8", "now");
    match v {
        JsonValueChirho::ObjectChirho(es) => {
            let keys: Vec<&str> = es.iter().map(|e| e.0.as_str()).collect();
            assert_eq!(keys, vec!["export_info", "highlights", "bookmarks", "notes"]);
            match &es[1].1 {
                JsonValueChirho::ArrayChirho(items) => assert_eq!(items.len(), 1),
                _ => panic!("not an array"),
            }
        }
        _ => panic!("not an object"),
    }
}

#[test]
fn test_backup_text_reads_back_chirho() {
    let note = ExportNoteChirho {
        reference_chirho: "Romans 8:28".to_string(),
        book_chirho: "Romans".to_string(),
        chapter_chirho: 8,
        verse_chirho: 28,
        content_chirho: "all things".to_string(),
        module_chirho: "KJV".to_string(),
        created_at_chirho: "2024-01-01 00:00:00".to_string(),
        updated_at_chirho: "2024-01-02 00:00:00".to_string(),
    };
    let text = backup_export_text_chirho(&vec![sample_highlight_chirho()], &vec![], &vec![note], "0.1.8", "now")
        .unwrap();
    assert!(text.contains(EXPORT_APP_NAME_CHIRHO));
    assert!(text.contains("\"exported_at\": \"now\""));
    let (h, b, n) = parse_backup_chirho(&text).unwrap();
    assert_eq!(h.len(), 1);
    assert_eq!(h[0].book_chirho.as_deref(), Some("John"));
    assert_eq!(h[0].verse_chirho, Some(16));
    assert_eq!(b.len(), 0);
    assert_eq!(n.len(), 1);
    assert_eq!(n[0].content_chirho.as_deref(), Some("all things"));
    let list = highlights_export_text_chirho(&vec![sample_highlight_chirho()]).unwrap();
    assert!(list.trim_start().starts_with('['));
    assert!(list.contains("\"color\": \"yellow\""));
}

#[test]
fn test_chapter_or_sample_chirho() {
    let read = vec![("1".to_string(), "text".to_string())];
    assert_eq!(chapter_or_sample_chirho(read.clone(), "John", 3), read);
    assert_eq!(chapter_or_sample_chirho(vec![], "John", 3), get_sample_verses_chirho("John", 3));
}

#[test]
fn test_strongs_occurrences_follow_lemma_chirho() {
    for n in ["H1", "H430", "G26", "G5547", "G9999", "", "h1"] {
        let e = codex_lux::samples_chirho::get_strongs_definition_chirho(n);
        assert_eq!(e.occurrences_chirho > 0, !e.lemma_chirho.is_empty());
        if e.occurrences_chirho == 0 {
            assert_eq!(e.definition_chirho, "Strong's number not found in sample data");
            assert_eq!(e.usage_chirho, "Install a lexicon module for full definitions");
        }
    }
}

#[test]
fn test_footnote_fallback_chirho() {
    let (text, kind) = codex_lux::samples_chirho::get_sample_footnote_chirho("Genesis 1:1", "b");
    assert_eq!(text, "Footnote b for Genesis 1:1");
    assert_eq!(kind, "translator");
}

#[test]
fn test_commentary_fallback_chirho() {
    let (_, module) = codex_lux::samples_chirho::get_sample_commentary_chirho("Psalms 23");
    assert_eq!(module, "MHCC");
    let (text, module) = codex_lux::samples_chirho::get_sample_commentary_chirho("Jude 1:3");
    assert_eq!(module, "");
    assert!(text.starts_with("Commentary for Jude 1:3 not found in sample data."));
}

#[test]
fn test_chapter_reference_reads_as_verse_one_chirho() {
    for (name, c) in [("Genesis", 1), ("John", 3), ("1 John", 5), ("Song of Solomon", 2), ("Revelation", 22)] {
        let text = format!("{} {}", name, c);
        assert_eq!(
            codex_lux::reference_chirho::parse_reference_chirho(&text),
            Some((name.to_string(), c, 1))
        );
    }
}

#[test]
fn test_statistics_statements_chirho() {
    let sts = codex_lux::database_chirho::statistics_statements_chirho();
    assert_eq!(sts.len(), 7);
    assert_eq!(sts[3].sql_chirho, codex_lux::database_chirho::HIGHLIGHT_COUNT_SQL_CHIRHO);
    assert_eq!(sts[4].sql_chirho, codex_lux::database_chirho::NOTE_COUNT_SQL_CHIRHO);
    assert!(sts.iter().all(|st| st.params_chirho.is_empty()));
}

#[test]
fn test_every_verse_of_the_day_parses_chirho() {
    for day in 0..31u64 {
        let (reference, _) = codex_lux::samples_chirho::verse_of_the_day_for_chirho(day);
        assert!(
            codex_lux::reference_chirho::parse_reference_chirho(&reference).is_some(),
            "{} does not parse",
            reference
        );
    }
}

#[test]
fn test_quick_nav_entries_distinct_chirho() {
    let dir = tempfile::tempdir().unwrap();
    let path = dir.path().join("nav.db");
    let conn = init_database_chirho(path.to_str().unwrap()).unwrap();
    for query in ["john", "1", "jo", "Genesis", "ps", "John 3", "Romans 99"] {
        let entries = codex_lux::nav_chirho::quick_nav_search_checked_chirho(query, &conn).unwrap();
        for i in 0..entries.len() {
            for j in i + 1..entries.len() {
                assert!(
                    !(entries[i].book_chirho == entries[j].book_chirho
                        && entries[i].chapter_chirho == entries[j].chapter_chirho),
                    "{} lists {} {} twice",
                    query,
                    entries[i].book_chirho,
                    entries[i].chapter_chirho
                );
            }
        }
    }
}

#[test]
fn test_toggle_bookmark_statement_chirho() {
    let st = codex_lux::backend_chirho::toggle_bookmark_statement_chirho("KJV", "John", 3, 16, Some(5));
    assert_eq!(st.sql_chirho, codex_lux::database_chirho::REMOVE_BOOKMARK_SQL_CHIRHO);
    assert_eq!(params_chirho(&st), vec!["int 5"]);
    let st = codex_lux::backend_chirho::toggle_bookmark_statement_chirho("KJV", "John", 3, 16, None);
    assert_eq!(st.sql_chirho, ADD_BOOKMARK_SQL_CHIRHO);
    assert_eq!(params_chirho(&st), vec!["text KJV", "text John", "int 3", "int 16", "text John 3:16"]);
}

#[test]
fn test_has_rows_chirho() {
    assert!(!codex_lux::database_chirho::has_rows_chirho(&vec![]));
    assert!(codex_lux::database_chirho::has_rows_chirho(&vec![vec![]]));
}

#[test]
fn test_toggles_answer_what_the_lookup_found_chirho() {
    let dir = tempfile::tempdir().unwrap();
    let path = dir.path().join("toggle.db");
    let conn = init_database_chirho(path.to_str().unwrap()).unwrap();
    assert!(!highlight_exists_chirho(&conn, "KJV", "John", 3, 16));
    assert_eq!(toggle_highlight_chirho(&conn, "KJV", "John", 3, 16).unwrap(), true);
    assert!(highlight_exists_chirho(&conn, "KJV", "John", 3, 16));
    assert_eq!(toggle_highlight_chirho(&conn, "KJV", "John", 3, 16).unwrap(), false);
    assert!(!is_bookmarked_chirho(&conn, "KJV", "John", 3, 16));
    drop(conn);
    let mut backend = AppBackendChirho::new_chirho(path.to_str().unwrap()).unwrap();
    backend.navigate_to_chirho("John", 3);
    assert!(backend.toggle_highlight_chirho("16"));
    assert!(!backend.toggle_highlight_chirho("16"));
    assert!(!backend.toggle_bookmark_chirho("16"));
    assert!(backend.toggle_bookmark_chirho("16"));
}

#[test]
fn test_lexicon_groups_chirho() {
    assert_eq!(get_sample_lexicon_entry_chirho("GOD"), get_sample_lexicon_entry_chirho("theos"));
    assert_eq!(get_sample_lexicon_entry_chirho("Love"), get_sample_lexicon_entry_chirho("agape"));
    let (title, text) = get_sample_lexicon_entry_chirho("Kairos");
    assert_eq!(title, "Kairos");
    assert!(text.starts_with("Entry 'Kairos' not found in sample lexicon data."));
}

#[test]
fn test_morphology_common_and_construct_chirho() {
    assert_eq!(parse_morphology_code_chirho("Ncmsc"), ("Noun, common, masculine, singular, construct".to_string(), true));
    assert_eq!(parse_morphology_code_chirho(""), ("".to_string(), true));
    assert_eq!(parse_morphology_code_chirho("V-XYZ-3S").1, false);
}
