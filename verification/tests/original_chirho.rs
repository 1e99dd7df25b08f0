//! Tests of the library: reference data, parsing, the study database and
//! the Bible engine.

use codex_lux::backend_chirho::AppBackendChirho;
use tempfile::tempdir;
use codex_lux::bible_engine_chirho;
use codex_lux::books_chirho::{
    bible_books_chirho, BIBLE_BOOK_COUNT_CHIRHO, NEW_TESTAMENT_BOOK_COUNT_CHIRHO,
    OLD_TESTAMENT_BOOK_COUNT_CHIRHO,
};
use codex_lux::database_chirho;
use codex_lux::morphology_chirho::parse_morphology_code_chirho;
use codex_lux::nav_chirho::quick_nav_search_chirho;
use codex_lux::reference_chirho::parse_reference_chirho;
use codex_lux::samples_chirho::{
    format_timestamp_chirho, get_sample_commentary_chirho, get_sample_cross_refs_chirho,
    get_sample_footnote_chirho, get_sample_interlinear_chirho, get_sample_lexicon_entry_chirho,
    get_sample_verses_chirho, get_strongs_definition_chirho,
};

#[test]
fn test_bible_book_count_chirho() {
    assert_eq!(bible_books_chirho().len(), BIBLE_BOOK_COUNT_CHIRHO);
}

#[test]
fn test_old_testament_count_chirho() {
    // Old Testament ends at Malachi (index 38, 0-indexed)
    assert_eq!(OLD_TESTAMENT_BOOK_COUNT_CHIRHO, 39);
}

#[test]
fn test_new_testament_count_chirho() {
    assert_eq!(NEW_TESTAMENT_BOOK_COUNT_CHIRHO, 27);
    assert_eq!(
        OLD_TESTAMENT_BOOK_COUNT_CHIRHO + NEW_TESTAMENT_BOOK_COUNT_CHIRHO,
        BIBLE_BOOK_COUNT_CHIRHO
    );
}

#[test]
fn test_genesis_chapters_chirho() {
    let books_chirho = bible_books_chirho();
    let genesis_chirho = books_chirho.iter().find(|(name, _)| *name == "Genesis");
    assert!(genesis_chirho.is_some());
    assert_eq!(genesis_chirho.unwrap().1, 50);
}

#[test]
fn test_psalms_chapters_chirho() {
    let books_chirho = bible_books_chirho();
    let psalms_chirho = books_chirho.iter().find(|(name, _)| *name == "Psalms");
    assert!(psalms_chirho.is_some());
    assert_eq!(psalms_chirho.unwrap().1, 150);
}

#[test]
fn test_revelation_chapters_chirho() {
    let books_chirho = bible_books_chirho();
    let revelation_chirho = books_chirho.iter().find(|(name, _)| *name == "Revelation");
    assert!(revelation_chirho.is_some());
    assert_eq!(revelation_chirho.unwrap().1, 22);
}

#[test]
fn test_sample_verses_genesis_chirho() {
    let verses_chirho = get_sample_verses_chirho("Genesis", 1);
    assert!(!verses_chirho.is_empty());
    assert_eq!(verses_chirho[0].0, "1");
    assert!(verses_chirho[0].1.contains("In the beginning"));
}

#[test]
fn test_sample_verses_john_chirho() {
    let verses_chirho = get_sample_verses_chirho("John", 3);
    assert!(!verses_chirho.is_empty());
    // John 3:16 should be present
    let has_john_316_chirho = verses_chirho.iter().any(|(_, text)| text.contains("For God so loved the world"));
    assert!(has_john_316_chirho);
}

#[test]
fn test_sample_verses_psalms_chirho() {
    let verses_chirho = get_sample_verses_chirho("Psalms", 23);
    assert!(!verses_chirho.is_empty());
    // Should contain Hebrew text
    let has_hebrew_chirho = verses_chirho.iter().any(|(_, text)| text.contains("יְהוָ֥ה"));
    assert!(has_hebrew_chirho);
}

#[test]
fn test_sample_verses_fallback_chirho() {
    let verses_chirho = get_sample_verses_chirho("Exodus", 1);
    assert!(!verses_chirho.is_empty());
    assert!(verses_chirho[0].1.contains("Sample verse"));
}

#[test]
fn test_strongs_definition_chirho() {
    // Test Hebrew Strong's lookup
    let hebrew_entry_chirho = get_strongs_definition_chirho("H430");
    assert_eq!(hebrew_entry_chirho.number_chirho.as_str(), "H430");
    assert!(hebrew_entry_chirho.is_hebrew_chirho);
    assert!(hebrew_entry_chirho.lemma_chirho.to_string().contains("אֱלֹהִים"));
    assert!(hebrew_entry_chirho.definition_chirho.to_string().contains("God"));
    assert!(hebrew_entry_chirho.occurrences_chirho > 0);

    // Test Greek Strong's lookup
    let greek_entry_chirho = get_strongs_definition_chirho("G26");
    assert_eq!(greek_entry_chirho.number_chirho.as_str(), "G26");
    assert!(!greek_entry_chirho.is_hebrew_chirho);
    assert!(greek_entry_chirho.lemma_chirho.to_string().contains("ἀγάπη"));
    assert!(greek_entry_chirho.definition_chirho.to_string().contains("Love"));

    // Test unknown Strong's number
    let unknown_entry_chirho = get_strongs_definition_chirho("H99999");
    assert!(unknown_entry_chirho.definition_chirho.to_string().contains("not found"));
}

#[test]
fn test_morphology_parsing_chirho() {
    // Test Greek morphology parsing (Robinson codes)
    let (greek_parsed_chirho, is_hebrew_chirho) = parse_morphology_code_chirho("V-AAI-3S");
    assert!(!is_hebrew_chirho);
    assert!(greek_parsed_chirho.contains("Verb"));
    assert!(greek_parsed_chirho.contains("Aorist Active Indicative"));
    assert!(greek_parsed_chirho.contains("3rd Person Singular"));

    // Test another Greek code
    let (greek_noun_chirho, _) = parse_morphology_code_chirho("N-NSM");
    assert!(greek_noun_chirho.contains("Noun"));
    assert!(greek_noun_chirho.contains("Nominative Singular Masculine"));

    // Test Hebrew morphology parsing (no hyphens)
    let (hebrew_parsed_chirho, is_hebrew_chirho) = parse_morphology_code_chirho("Ncmsa");
    assert!(is_hebrew_chirho);
    assert!(hebrew_parsed_chirho.contains("Noun"));
    assert!(hebrew_parsed_chirho.contains("masculine"));
    assert!(hebrew_parsed_chirho.contains("singular"));
    assert!(hebrew_parsed_chirho.contains("absolute"));
}

#[test]
fn test_cross_refs_chirho() {
    // Test known verse with cross-references
    let refs_chirho = get_sample_cross_refs_chirho("John 3:16");
    assert!(!refs_chirho.is_empty());
    assert!(refs_chirho.iter().any(|r_chirho| r_chirho.to_string().contains("Romans")));

    // Test Genesis 1:1
    let gen_refs_chirho = get_sample_cross_refs_chirho("Genesis 1:1");
    assert!(!gen_refs_chirho.is_empty());
    assert!(gen_refs_chirho.iter().any(|r_chirho| r_chirho.to_string().contains("John 1:1")));

    // Test unknown verse falls back to install message
    let unknown_refs_chirho = get_sample_cross_refs_chirho("Unknown 99:99");
    assert!(!unknown_refs_chirho.is_empty());
    assert!(unknown_refs_chirho[0].to_string().contains("Install"));
}

#[test]
fn test_footnotes_chirho() {
    // Test known footnote
    let (content_chirho, type_chirho) = get_sample_footnote_chirho("Genesis 1:1", "a");
    assert!(content_chirho.contains("beginning"));
    assert_eq!(type_chirho, "alternative");

    // Test John 3:16 footnote
    let (jn_content_chirho, jn_type_chirho) = get_sample_footnote_chirho("John 3:16", "a");
    assert!(jn_content_chirho.contains("Son"));
    assert_eq!(jn_type_chirho, "textual");

    // Test unknown footnote has verse ref in content
    let (unknown_content_chirho, unknown_type_chirho) = get_sample_footnote_chirho("Unknown 1:1", "z");
    assert!(unknown_content_chirho.contains("z"));
    assert_eq!(unknown_type_chirho, "translator");
}

#[test]
fn test_get_chapter_count_chirho() {
    assert_eq!(AppBackendChirho::get_chapter_count_chirho("Genesis"), Some(50));
    assert_eq!(AppBackendChirho::get_chapter_count_chirho("Psalms"), Some(150));
    assert_eq!(AppBackendChirho::get_chapter_count_chirho("InvalidBook"), None);
}

#[test]
fn test_is_valid_book_chirho() {
    assert!(AppBackendChirho::is_valid_book_chirho("Genesis"));
    assert!(AppBackendChirho::is_valid_book_chirho("Revelation"));
    assert!(!AppBackendChirho::is_valid_book_chirho("InvalidBook"));
}

#[test]
fn test_database_init_chirho() {

    let temp_dir_chirho = tempdir().unwrap();
    let db_path_chirho = temp_dir_chirho.path().join("test.db");

    let conn_chirho = database_chirho::init_database_chirho(db_path_chirho.to_str().unwrap()).unwrap();

    // Verify tables exist by querying them
    let tables_chirho: Vec<String> = conn_chirho
        .prepare("SELECT name FROM sqlite_master WHERE type='table'")
        .unwrap()
        .query_map([], |row| row.get(0))
        .unwrap()
        .filter_map(|r| r.ok())
        .collect();

    assert!(tables_chirho.contains(&"highlights_chirho".to_string()));
    assert!(tables_chirho.contains(&"bookmarks_chirho".to_string()));
    assert!(tables_chirho.contains(&"notes_chirho".to_string()));
    assert!(tables_chirho.contains(&"settings_chirho".to_string()));
}

#[test]
fn test_highlight_toggle_database_chirho() {

    let temp_dir_chirho = tempdir().unwrap();
    let db_path_chirho = temp_dir_chirho.path().join("test_highlight.db");

    let conn_chirho = database_chirho::init_database_chirho(db_path_chirho.to_str().unwrap()).unwrap();

    // Toggle on
    let result_chirho = database_chirho::toggle_highlight_chirho(&conn_chirho, "KJV", "Genesis", 1, 1).unwrap();
    assert!(result_chirho); // Should be highlighted

    // Verify it's in the set
    let highlights_chirho = database_chirho::get_highlights_chirho(&conn_chirho, "KJV", "Genesis", 1).unwrap();
    assert!(highlights_chirho.contains(&1));

    // Toggle off
    let result_chirho = database_chirho::toggle_highlight_chirho(&conn_chirho, "KJV", "Genesis", 1, 1).unwrap();
    assert!(!result_chirho); // Should not be highlighted

    // Verify it's removed
    let highlights_chirho = database_chirho::get_highlights_chirho(&conn_chirho, "KJV", "Genesis", 1).unwrap();
    assert!(!highlights_chirho.contains(&1));
}

#[test]
fn test_settings_chirho() {

    let temp_dir_chirho = tempdir().unwrap();
    let db_path_chirho = temp_dir_chirho.path().join("test_settings.db");

    let conn_chirho = database_chirho::init_database_chirho(db_path_chirho.to_str().unwrap()).unwrap();

    // Set a setting
    database_chirho::set_setting_chirho(&conn_chirho, "test_key", "test_value").unwrap();

    // Get the setting
    let value_chirho = database_chirho::get_setting_chirho(&conn_chirho, "test_key");
    assert_eq!(value_chirho, Some("test_value".to_string()));

    // Get non-existent setting
    let none_chirho = database_chirho::get_setting_chirho(&conn_chirho, "nonexistent");
    assert!(none_chirho.is_none());
}

#[test]
fn test_bible_engine_chirho() {
    let engine_chirho = bible_engine_chirho::BibleEngineChirho::new_chirho();

    // Should have at least the default modules
    let modules_chirho = engine_chirho.get_module_names_chirho();
    assert!(!modules_chirho.is_empty());

    // Should be able to get sample verses
    let verses_chirho = engine_chirho.get_chapter_verses_chirho("Genesis", 1);
    assert!(!verses_chirho.is_empty());
}

#[test]
fn test_search_chirho() {
    let engine_chirho = bible_engine_chirho::BibleEngineChirho::new_chirho();

    // Search for "God" in sample verses
    let results_chirho = engine_chirho.search_chirho("God", 10);

    // Should find at least one result (Genesis 1:1 has "God")
    assert!(!results_chirho.is_empty(), "Should find at least one result for 'God'");

    // Check that results contain the search term
    for (ref_chirho, text_chirho) in &results_chirho {
        assert!(
            text_chirho.to_lowercase().contains("god"),
            "Result '{}' should contain 'god': {}",
            ref_chirho,
            text_chirho
        );
    }
}

#[test]
fn test_search_case_insensitive_chirho() {
    let engine_chirho = bible_engine_chirho::BibleEngineChirho::new_chirho();

    // Search should be case insensitive
    let results_upper_chirho = engine_chirho.search_chirho("GOD", 10);
    let results_lower_chirho = engine_chirho.search_chirho("god", 10);

    // Both should return results
    assert!(!results_upper_chirho.is_empty());
    assert!(!results_lower_chirho.is_empty());
}

#[test]
fn test_search_no_results_chirho() {
    let engine_chirho = bible_engine_chirho::BibleEngineChirho::new_chirho();

    // Search for something that won't be found
    let results_chirho = engine_chirho.search_chirho("xyzabc123nonsense", 10);

    // Should return empty
    assert!(results_chirho.is_empty());
}

#[test]
fn test_bookmarks_chirho() {

    let temp_dir_chirho = tempdir().unwrap();
    let db_path_chirho = temp_dir_chirho.path().join("test_bookmarks.db");

    let conn_chirho = database_chirho::init_database_chirho(db_path_chirho.to_str().unwrap()).unwrap();

    // Initially no bookmarks
    let bookmarks_chirho = database_chirho::get_all_bookmarks_chirho(&conn_chirho).unwrap();
    assert!(bookmarks_chirho.is_empty());

    // Add a bookmark
    let id_chirho = database_chirho::add_bookmark_chirho(
        &conn_chirho,
        "KJV",
        "John",
        3,
        16,
        Some("John 3:16 - God's Love")
    ).unwrap();
    assert!(id_chirho > 0);

    // Verify bookmark exists
    let bookmarks_chirho = database_chirho::get_all_bookmarks_chirho(&conn_chirho).unwrap();
    assert_eq!(bookmarks_chirho.len(), 1);
    assert_eq!(bookmarks_chirho[0].book_chirho, "John");
    assert_eq!(bookmarks_chirho[0].chapter_chirho, 3);
    assert_eq!(bookmarks_chirho[0].verse_chirho, 16);

    // Check is_bookmarked
    assert!(database_chirho::is_bookmarked_chirho(&conn_chirho, "KJV", "John", 3, 16));
    assert!(!database_chirho::is_bookmarked_chirho(&conn_chirho, "KJV", "John", 3, 17));

    // Get bookmark ID
    let found_id_chirho = database_chirho::get_bookmark_id_chirho(&conn_chirho, "KJV", "John", 3, 16);
    assert_eq!(found_id_chirho, Some(id_chirho));

    // Update bookmark label
    database_chirho::update_bookmark_label_chirho(&conn_chirho, id_chirho, "Updated Label").unwrap();
    let bookmarks_chirho = database_chirho::get_all_bookmarks_chirho(&conn_chirho).unwrap();
    assert_eq!(bookmarks_chirho[0].label_chirho, Some("Updated Label".to_string()));

    // Remove bookmark
    database_chirho::remove_bookmark_chirho(&conn_chirho, id_chirho).unwrap();
    let bookmarks_chirho = database_chirho::get_all_bookmarks_chirho(&conn_chirho).unwrap();
    assert!(bookmarks_chirho.is_empty());
}

#[test]
fn test_notes_chirho() {

    let temp_dir_chirho = tempdir().unwrap();
    let db_path_chirho = temp_dir_chirho.path().join("test_notes.db");

    let conn_chirho = database_chirho::init_database_chirho(db_path_chirho.to_str().unwrap()).unwrap();

    // Initially no notes
    let notes_chirho = database_chirho::get_all_notes_chirho(&conn_chirho).unwrap();
    assert!(notes_chirho.is_empty());

    // Save a note
    database_chirho::save_note_chirho(
        &conn_chirho,
        "KJV",
        "John",
        3,
        16,
        "This is the most famous verse in the Bible!"
    ).unwrap();

    // Get the note
    let note_chirho = database_chirho::get_note_chirho(&conn_chirho, "KJV", "John", 3, 16);
    assert!(note_chirho.is_some());
    let note_chirho = note_chirho.unwrap();
    assert_eq!(note_chirho.content_chirho, "This is the most famous verse in the Bible!");

    // Update the note
    database_chirho::save_note_chirho(
        &conn_chirho,
        "KJV",
        "John",
        3,
        16,
        "Updated: God's love for the world."
    ).unwrap();

    let note_chirho = database_chirho::get_note_chirho(&conn_chirho, "KJV", "John", 3, 16).unwrap();
    assert_eq!(note_chirho.content_chirho, "Updated: God's love for the world.");

    // Search notes
    let search_results_chirho = database_chirho::search_notes_chirho(&conn_chirho, "love").unwrap();
    assert_eq!(search_results_chirho.len(), 1);

    // Get all notes
    let all_notes_chirho = database_chirho::get_all_notes_chirho(&conn_chirho).unwrap();
    assert_eq!(all_notes_chirho.len(), 1);

    // Delete the note
    database_chirho::delete_note_chirho(&conn_chirho, "KJV", "John", 3, 16).unwrap();
    let note_chirho = database_chirho::get_note_chirho(&conn_chirho, "KJV", "John", 3, 16);
    assert!(note_chirho.is_none());
}

#[test]
fn test_highlight_colors_chirho() {

    let temp_dir_chirho = tempdir().unwrap();
    let db_path_chirho = temp_dir_chirho.path().join("test_highlight_colors.db");

    let conn_chirho = database_chirho::init_database_chirho(db_path_chirho.to_str().unwrap()).unwrap();

    // Add highlight with specific color
    database_chirho::add_highlight_with_color_chirho(
        &conn_chirho,
        "KJV",
        "Genesis",
        1,
        1,
        "green"
    ).unwrap();

    // Get highlights with colors
    let highlights_chirho = database_chirho::get_highlights_with_colors_chirho(
        &conn_chirho,
        "KJV",
        "Genesis",
        1
    ).unwrap();

    assert_eq!(highlights_chirho.len(), 1);
    assert_eq!(highlights_chirho[0].verse_chirho, 1);
    assert_eq!(highlights_chirho[0].color_chirho, "green");

    // Change color (upsert)
    database_chirho::add_highlight_with_color_chirho(
        &conn_chirho,
        "KJV",
        "Genesis",
        1,
        1,
        "blue"
    ).unwrap();

    let highlights_chirho = database_chirho::get_highlights_with_colors_chirho(
        &conn_chirho,
        "KJV",
        "Genesis",
        1
    ).unwrap();

    assert_eq!(highlights_chirho.len(), 1);
    assert_eq!(highlights_chirho[0].color_chirho, "blue");
}

#[test]
fn test_reading_history_chirho() {

    let temp_dir_chirho = tempdir().unwrap();
    let db_path_chirho = temp_dir_chirho.path().join("test_history.db");

    let conn_chirho = database_chirho::init_database_chirho(db_path_chirho.to_str().unwrap()).unwrap();

    // Initially no history
    let history_chirho = database_chirho::get_recent_history_chirho(&conn_chirho, 10).unwrap();
    assert!(history_chirho.is_empty());

    // Add some history entries
    database_chirho::add_reading_history_chirho(&conn_chirho, "KJV", "Genesis", 1).unwrap();
    database_chirho::add_reading_history_chirho(&conn_chirho, "KJV", "John", 3).unwrap();
    database_chirho::add_reading_history_chirho(&conn_chirho, "KJV", "Psalms", 23).unwrap();

    // Get recent history
    let history_chirho = database_chirho::get_recent_history_chirho(&conn_chirho, 10).unwrap();
    assert_eq!(history_chirho.len(), 3);

    // Verify all entries are present (order may vary due to timestamp grouping)
    let books_chirho: Vec<&str> = history_chirho.iter().map(|h_chirho| h_chirho.book_chirho.as_str()).collect();
    assert!(books_chirho.contains(&"Genesis"));
    assert!(books_chirho.contains(&"John"));
    assert!(books_chirho.contains(&"Psalms"));

    // Test limit
    let limited_chirho = database_chirho::get_recent_history_chirho(&conn_chirho, 2).unwrap();
    assert_eq!(limited_chirho.len(), 2);
}

#[test]
fn test_statistics_chirho() {

    let temp_dir_chirho = tempdir().unwrap();
    let db_path_chirho = temp_dir_chirho.path().join("test_stats.db");

    let conn_chirho = database_chirho::init_database_chirho(db_path_chirho.to_str().unwrap()).unwrap();

    // Initially all stats should be zero
    let stats_chirho = database_chirho::get_statistics_chirho(&conn_chirho).unwrap();
    assert_eq!(stats_chirho.total_chapters_read_chirho, 0);
    assert_eq!(stats_chirho.unique_chapters_read_chirho, 0);
    assert_eq!(stats_chirho.highlight_count_chirho, 0);
    assert_eq!(stats_chirho.note_count_chirho, 0);
    assert_eq!(stats_chirho.bookmark_count_chirho, 0);
    assert_eq!(stats_chirho.current_streak_chirho, 0);
    assert_eq!(stats_chirho.longest_streak_chirho, 0);

    // Add some reading history
    database_chirho::add_reading_history_chirho(&conn_chirho, "KJV", "Genesis", 1).unwrap();
    database_chirho::add_reading_history_chirho(&conn_chirho, "KJV", "Genesis", 1).unwrap(); // duplicate
    database_chirho::add_reading_history_chirho(&conn_chirho, "KJV", "John", 3).unwrap();

    // Add highlights, notes, bookmarks
    database_chirho::toggle_highlight_chirho(&conn_chirho, "KJV", "Genesis", 1, 1).unwrap();
    database_chirho::toggle_highlight_chirho(&conn_chirho, "KJV", "John", 3, 16).unwrap();
    database_chirho::save_note_chirho(&conn_chirho, "KJV", "Genesis", 1, 1, "Test note").unwrap();
    database_chirho::add_bookmark_chirho(&conn_chirho, "KJV", "John", 3, 16, Some("Favorite")).unwrap();

    // Verify stats
    let stats_chirho = database_chirho::get_statistics_chirho(&conn_chirho).unwrap();
    assert_eq!(stats_chirho.total_chapters_read_chirho, 3); // 3 history entries
    assert_eq!(stats_chirho.unique_chapters_read_chirho, 2); // 2 unique chapters
    assert_eq!(stats_chirho.highlight_count_chirho, 2);
    assert_eq!(stats_chirho.note_count_chirho, 1);
    assert_eq!(stats_chirho.bookmark_count_chirho, 1);
    assert_eq!(stats_chirho.books_started_chirho, 2); // Genesis and John
}

#[test]
fn test_format_duration_chirho() {
    assert_eq!(database_chirho::format_duration_chirho(0), "0m");
    assert_eq!(database_chirho::format_duration_chirho(60), "1m");
    assert_eq!(database_chirho::format_duration_chirho(3600), "1h 0m");
    assert_eq!(database_chirho::format_duration_chirho(3660), "1h 1m");
    assert_eq!(database_chirho::format_duration_chirho(7200), "2h 0m");
    assert_eq!(database_chirho::format_duration_chirho(7245), "2h 0m"); // 7245 / 60 % 60 = 0
}

#[test]
fn test_journal_entries_chirho() {

    let temp_dir_chirho = tempdir().unwrap();
    let db_path_chirho = temp_dir_chirho.path().join("test_journal.db");

    let conn_chirho = database_chirho::init_database_chirho(db_path_chirho.to_str().unwrap()).unwrap();

    // Initially no entries
    let entries_chirho = database_chirho::get_all_journal_entries_chirho(&conn_chirho).unwrap();
    assert!(entries_chirho.is_empty());

    // Create an entry
    let id_chirho = database_chirho::create_journal_entry_chirho(
        &conn_chirho,
        "Test Entry",
        "This is the content of my journal entry.",
        Some("John 3:16"),
        Some("faith,love"),
    ).unwrap();
    assert!(id_chirho > 0);

    // Verify entry exists
    let entries_chirho = database_chirho::get_all_journal_entries_chirho(&conn_chirho).unwrap();
    assert_eq!(entries_chirho.len(), 1);
    assert_eq!(entries_chirho[0].title_chirho, "Test Entry");
    assert_eq!(entries_chirho[0].verse_ref_chirho, Some("John 3:16".to_string()));

    // Update entry
    database_chirho::update_journal_entry_chirho(
        &conn_chirho,
        id_chirho,
        "Updated Title",
        "Updated content.",
        Some("Romans 8:28"),
        Some("hope"),
    ).unwrap();

    let entries_chirho = database_chirho::get_all_journal_entries_chirho(&conn_chirho).unwrap();
    assert_eq!(entries_chirho[0].title_chirho, "Updated Title");
    assert_eq!(entries_chirho[0].verse_ref_chirho, Some("Romans 8:28".to_string()));

    // Delete entry
    database_chirho::delete_journal_entry_chirho(&conn_chirho, id_chirho).unwrap();
    let entries_chirho = database_chirho::get_all_journal_entries_chirho(&conn_chirho).unwrap();
    assert!(entries_chirho.is_empty());
}

#[test]
fn test_parse_reference_full_name_chirho() {
    let result_chirho = parse_reference_chirho("John 3:16");
    assert!(result_chirho.is_some());
    let (book_chirho, chapter_chirho, verse_chirho) = result_chirho.unwrap();
    assert_eq!(book_chirho, "John");
    assert_eq!(chapter_chirho, 3);
    assert_eq!(verse_chirho, 16);
}

#[test]
fn test_parse_reference_abbreviated_chirho() {
    let result_chirho = parse_reference_chirho("Gen 1:1");
    assert!(result_chirho.is_some());
    let (book_chirho, chapter_chirho, verse_chirho) = result_chirho.unwrap();
    assert_eq!(book_chirho, "Genesis");
    assert_eq!(chapter_chirho, 1);
    assert_eq!(verse_chirho, 1);
}

#[test]
fn test_parse_reference_short_abbreviation_chirho() {
    let result_chirho = parse_reference_chirho("Jn 3:16");
    assert!(result_chirho.is_some());
    let (book_chirho, chapter_chirho, verse_chirho) = result_chirho.unwrap();
    assert_eq!(book_chirho, "John");
    assert_eq!(chapter_chirho, 3);
    assert_eq!(verse_chirho, 16);
}

#[test]
fn test_parse_reference_no_verse_chirho() {
    let result_chirho = parse_reference_chirho("Psalms 23");
    assert!(result_chirho.is_some());
    let (book_chirho, chapter_chirho, verse_chirho) = result_chirho.unwrap();
    assert_eq!(book_chirho, "Psalms");
    assert_eq!(chapter_chirho, 23);
    assert_eq!(verse_chirho, 1); // Default to verse 1
}

#[test]
fn test_parse_reference_numbered_book_chirho() {
    let result_chirho = parse_reference_chirho("1Cor 13:4");
    assert!(result_chirho.is_some());
    let (book_chirho, chapter_chirho, verse_chirho) = result_chirho.unwrap();
    assert_eq!(book_chirho, "1 Corinthians");
    assert_eq!(chapter_chirho, 13);
    assert_eq!(verse_chirho, 4);
}

#[test]
fn test_parse_reference_revelation_chirho() {
    let result_chirho = parse_reference_chirho("Rev 21:4");
    assert!(result_chirho.is_some());
    let (book_chirho, chapter_chirho, verse_chirho) = result_chirho.unwrap();
    assert_eq!(book_chirho, "Revelation");
    assert_eq!(chapter_chirho, 21);
    assert_eq!(verse_chirho, 4);
}

#[test]
fn test_parse_reference_verse_range_chirho() {
    // Test verse range like "Gen 1:1-10" - should navigate to start verse
    let result_chirho = parse_reference_chirho("Gen 1:1-10");
    assert!(result_chirho.is_some());
    let (book_chirho, chapter_chirho, verse_chirho) = result_chirho.unwrap();
    assert_eq!(book_chirho, "Genesis");
    assert_eq!(chapter_chirho, 1);
    assert_eq!(verse_chirho, 1);

    // Test another range
    let result_chirho = parse_reference_chirho("John 3:16-21");
    assert!(result_chirho.is_some());
    let (book_chirho, chapter_chirho, verse_chirho) = result_chirho.unwrap();
    assert_eq!(book_chirho, "John");
    assert_eq!(chapter_chirho, 3);
    assert_eq!(verse_chirho, 16);
}

#[test]
fn test_parse_reference_case_insensitive_chirho() {
    let result_chirho = parse_reference_chirho("JOHN 3:16");
    assert!(result_chirho.is_some());
    let (book_chirho, _chapter_chirho, _verse_chirho) = result_chirho.unwrap();
    assert_eq!(book_chirho, "John");
}

#[test]
fn test_format_timestamp_chirho() {
    // Test basic timestamp formatting
    let result_chirho = format_timestamp_chirho("2024-01-15 10:30:00");
    assert_eq!(result_chirho, "2024-01-15");

    // Test empty timestamp
    let result_chirho = format_timestamp_chirho("");
    assert_eq!(result_chirho, "");
}

#[test]
fn test_bible_books_order_chirho() {
    // Verify first and last books
    assert_eq!(bible_books_chirho()[0].0, "Genesis");
    assert_eq!(bible_books_chirho()[65].0, "Revelation");

    // Verify OT/NT boundary
    assert_eq!(bible_books_chirho()[38].0, "Malachi"); // Last OT book
    assert_eq!(bible_books_chirho()[39].0, "Matthew"); // First NT book
}

#[test]
fn test_parse_reference_mixed_case_chirho() {
    // Test various case combinations
    let result_chirho = parse_reference_chirho("GeNeSiS 1:1");
    assert!(result_chirho.is_some());
    let (book_chirho, chapter_chirho, verse_chirho) = result_chirho.unwrap();
    assert_eq!(book_chirho, "Genesis");
    assert_eq!(chapter_chirho, 1);
    assert_eq!(verse_chirho, 1);
}

#[test]
fn test_parse_reference_invalid_chirho() {
    // Test invalid references
    assert!(parse_reference_chirho("").is_none());
    assert!(parse_reference_chirho("   ").is_none());
    assert!(parse_reference_chirho("NotABook 1:1").is_none());
}

#[test]
fn test_quick_nav_search_chirho() {

    let temp_dir_chirho = tempdir().unwrap();
    let db_path_chirho = temp_dir_chirho.path().join("test_quicknav.db");

    let conn_chirho = database_chirho::init_database_chirho(db_path_chirho.to_str().unwrap()).unwrap();

    // Add some reading history
    database_chirho::add_reading_history_chirho(&conn_chirho, "KJV", "Genesis", 1).unwrap();
    database_chirho::add_reading_history_chirho(&conn_chirho, "KJV", "John", 3).unwrap();

    // Test empty query returns history
    let results_chirho = quick_nav_search_chirho("", &conn_chirho);
    assert_eq!(results_chirho.len(), 2);

    // Test book name search
    let results_chirho = quick_nav_search_chirho("gen", &conn_chirho);
    assert!(!results_chirho.is_empty());
    // Should find Genesis
    assert!(results_chirho.iter().any(|r_chirho| r_chirho.book_chirho.as_str() == "Genesis"));

    // Test verse reference search
    let results_chirho = quick_nav_search_chirho("John 3", &conn_chirho);
    assert!(!results_chirho.is_empty());
    assert!(results_chirho.iter().any(|r_chirho| r_chirho.book_chirho.as_str() == "John" && r_chirho.chapter_chirho == 3));

    // Test fuzzy matching - should find Psalms
    let results_chirho = quick_nav_search_chirho("psa", &conn_chirho);
    assert!(!results_chirho.is_empty());
    assert!(results_chirho.iter().any(|r_chirho| r_chirho.book_chirho.as_str() == "Psalms"));
}

#[test]
fn test_quick_nav_search_edge_cases_chirho() {

    let temp_dir_chirho = tempdir().unwrap();
    let db_path_chirho = temp_dir_chirho.path().join("test_quicknav_edge.db");

    let conn_chirho = database_chirho::init_database_chirho(db_path_chirho.to_str().unwrap()).unwrap();

    // Test numbered book search
    let results_chirho = quick_nav_search_chirho("1 cor", &conn_chirho);
    assert!(!results_chirho.is_empty());
    assert!(results_chirho.iter().any(|r_chirho| r_chirho.book_chirho.as_str() == "1 Corinthians"));

    // Test single letter (should find nothing specific but not crash)
    let _results_chirho = quick_nav_search_chirho("x", &conn_chirho);
    // May be empty or find Exodus

    // Test exact book name
    let results_chirho = quick_nav_search_chirho("revelation", &conn_chirho);
    assert!(!results_chirho.is_empty());
    assert!(results_chirho.iter().any(|r_chirho| r_chirho.book_chirho.as_str() == "Revelation"));

    // Test case insensitivity
    let results_chirho = quick_nav_search_chirho("JOHN", &conn_chirho);
    assert!(!results_chirho.is_empty());
    assert!(results_chirho.iter().any(|r_chirho| r_chirho.book_chirho.as_str() == "John"));
}

#[test]
fn test_copy_format_helper_chirho() {
    // Test different copy format scenarios
    let text_chirho = "For God so loved the world";
    let reference_chirho = "John 3:16";

    // Format 0: text - reference
    let formatted_0_chirho = format!("{} - {}", text_chirho, reference_chirho);
    assert_eq!(formatted_0_chirho, "For God so loved the world - John 3:16");

    // Format 1: reference: text
    let formatted_1_chirho = format!("{}: {}", reference_chirho, text_chirho);
    assert_eq!(formatted_1_chirho, "John 3:16: For God so loved the world");

    // Format 2: text only
    let formatted_2_chirho = text_chirho.to_string();
    assert_eq!(formatted_2_chirho, "For God so loved the world");
}

#[test]
fn test_multi_verse_format_chirho() {
    // Test multi-verse formatting
    let verses_chirho = vec![
        (1, "In the beginning God created the heaven and the earth."),
        (2, "And the earth was without form, and void."),
        (3, "And God said, Let there be light: and there was light."),
    ];

    // With verse numbers
    let text_with_numbers_chirho: Vec<String> = verses_chirho.iter()
        .map(|(num_chirho, text_chirho)| format!("{}. {}", num_chirho, text_chirho))
        .collect();
    let combined_chirho = text_with_numbers_chirho.join(" ");
    assert!(combined_chirho.contains("1. In the beginning"));
    assert!(combined_chirho.contains("2. And the earth"));
    assert!(combined_chirho.contains("3. And God said"));

    // Without verse numbers
    let text_without_numbers_chirho: Vec<String> = verses_chirho.iter()
        .map(|(_num_chirho, text_chirho)| text_chirho.to_string())
        .collect();
    let combined_no_nums_chirho = text_without_numbers_chirho.join(" ");
    assert!(!combined_no_nums_chirho.contains("1."));
    assert!(combined_no_nums_chirho.contains("In the beginning"));
}

#[test]
fn test_prayer_requests_chirho() {

    let temp_dir_chirho = tempdir().unwrap();
    let db_path_chirho = temp_dir_chirho.path().join("test_prayer.db");

    let conn_chirho = database_chirho::init_database_chirho(db_path_chirho.to_str().unwrap()).unwrap();

    // Initially no prayer requests
    let requests_chirho = database_chirho::get_all_prayer_requests_chirho(&conn_chirho).unwrap();
    assert!(requests_chirho.is_empty());

    // Check counts
    let (active_chirho, total_chirho) = database_chirho::get_prayer_counts_chirho(&conn_chirho);
    assert_eq!(active_chirho, 0);
    assert_eq!(total_chirho, 0);

    // Create a prayer request
    let id_chirho = database_chirho::create_prayer_request_chirho(
        &conn_chirho,
        "Health for family",
        Some("Please pray for healing"),
        Some("James 5:14"),
        Some("Health"),
    ).unwrap();
    assert!(id_chirho > 0);

    // Create another prayer request
    let id2_chirho = database_chirho::create_prayer_request_chirho(
        &conn_chirho,
        "Guidance for job",
        Some("Seeking wisdom for career decisions"),
        Some("Proverbs 3:5-6"),
        Some("Career"),
    ).unwrap();
    assert!(id2_chirho > 0);

    // Verify requests exist
    let requests_chirho = database_chirho::get_all_prayer_requests_chirho(&conn_chirho).unwrap();
    assert_eq!(requests_chirho.len(), 2);

    // Check counts
    let (active_chirho, total_chirho) = database_chirho::get_prayer_counts_chirho(&conn_chirho);
    assert_eq!(active_chirho, 2);
    assert_eq!(total_chirho, 2);

    // Mark first prayer as answered
    database_chirho::mark_prayer_answered_chirho(&conn_chirho, id_chirho).unwrap();

    let requests_chirho = database_chirho::get_all_prayer_requests_chirho(&conn_chirho).unwrap();
    // Active prayers should come first
    assert!(!requests_chirho[0].is_answered_chirho);
    assert!(requests_chirho[1].is_answered_chirho);

    // Check counts after marking answered
    let (active_chirho, total_chirho) = database_chirho::get_prayer_counts_chirho(&conn_chirho);
    assert_eq!(active_chirho, 1);
    assert_eq!(total_chirho, 2);

    // Delete a prayer request
    database_chirho::delete_prayer_request_chirho(&conn_chirho, id2_chirho).unwrap();
    let requests_chirho = database_chirho::get_all_prayer_requests_chirho(&conn_chirho).unwrap();
    assert_eq!(requests_chirho.len(), 1);
    assert_eq!(requests_chirho[0].title_chirho, "Health for family");

    // Check final counts
    let (active_chirho, total_chirho) = database_chirho::get_prayer_counts_chirho(&conn_chirho);
    assert_eq!(active_chirho, 0);  // The remaining one is answered
    assert_eq!(total_chirho, 1);
}

#[test]
fn test_commentary_chirho() {
    // Test known commentary entries
    let (content_chirho, module_chirho) = get_sample_commentary_chirho("Genesis 1:1");
    assert!(content_chirho.contains("In the beginning"));
    assert!(content_chirho.contains("Hebrew"));
    assert_eq!(module_chirho, "MHCC");

    let (content_chirho, module_chirho) = get_sample_commentary_chirho("John 3:16");
    assert!(content_chirho.contains("agape"));
    assert!(content_chirho.contains("gospel in miniature"));
    assert_eq!(module_chirho, "MHCC");

    let (content_chirho, module_chirho) = get_sample_commentary_chirho("Psalm 23:1");
    assert!(content_chirho.contains("shepherd"));
    assert_eq!(module_chirho, "MHCC");

    // Test unknown verse
    let (content_chirho, module_chirho) = get_sample_commentary_chirho("Unknown 99:99");
    assert!(content_chirho.contains("not found"));
    assert!(module_chirho.is_empty());
}

#[test]
fn test_lexicon_chirho() {
    // Test known lexicon entries
    let (title_chirho, content_chirho) = get_sample_lexicon_entry_chirho("love");
    assert!(title_chirho.contains("agape"));
    assert!(content_chirho.contains("G26"));
    assert!(content_chirho.contains("unconditional"));

    let (title_chirho, content_chirho) = get_sample_lexicon_entry_chirho("logos");
    assert!(title_chirho.contains("logos"));
    assert!(content_chirho.contains("G3056"));
    assert!(content_chirho.contains("Word"));

    // Test case insensitivity
    let (title_chirho, content_chirho) = get_sample_lexicon_entry_chirho("FAITH");
    assert!(title_chirho.contains("pistis"));
    assert!(content_chirho.contains("G4102"));

    // Test Greek input
    let (title_chirho, content_chirho) = get_sample_lexicon_entry_chirho("θεός");
    assert!(title_chirho.contains("theos"));
    assert!(content_chirho.contains("G2316"));

    // Test unknown word
    let (title_chirho, content_chirho) = get_sample_lexicon_entry_chirho("unknownword");
    assert_eq!(title_chirho, "unknownword");
    assert!(content_chirho.contains("not found"));
}

#[test]
fn test_versification_chirho() {

    let temp_dir_chirho = tempdir().unwrap();
    let db_path_chirho = temp_dir_chirho.path().join("test_versification.db");

    let conn_chirho = database_chirho::init_database_chirho(db_path_chirho.to_str().unwrap()).unwrap();

    // Initially no versification setting
    let setting_chirho = database_chirho::get_setting_chirho(&conn_chirho, "versification_system");
    assert!(setting_chirho.is_none());

    // Set versification to Catholic (index 1)
    database_chirho::set_setting_chirho(&conn_chirho, "versification_system", "1").unwrap();
    let setting_chirho = database_chirho::get_setting_chirho(&conn_chirho, "versification_system");
    assert_eq!(setting_chirho, Some("1".to_string()));

    // Change to LXX (index 3)
    database_chirho::set_setting_chirho(&conn_chirho, "versification_system", "3").unwrap();
    let setting_chirho = database_chirho::get_setting_chirho(&conn_chirho, "versification_system");
    assert_eq!(setting_chirho, Some("3".to_string()));

    // Versification names for reference
    let versification_names_chirho = ["KJV", "Catholic", "Orthodox", "LXX", "Vulgate", "Luther"];
    assert_eq!(versification_names_chirho.len(), 6);
    assert_eq!(versification_names_chirho[0], "KJV");
    assert_eq!(versification_names_chirho[3], "LXX");
}

#[test]
fn test_interlinear_chirho() {
    // Test Genesis 1:1 interlinear data
    let genesis_words_chirho = get_sample_interlinear_chirho("Genesis 1:1");
    assert!(!genesis_words_chirho.is_empty());
    assert_eq!(genesis_words_chirho.len(), 7); // 7 words in Genesis 1:1 Hebrew

    // First word should be "בְּרֵאשִׁ֖ית" (bereshit)
    assert!(genesis_words_chirho[0].original_chirho.contains("בְּרֵאשִׁ֖ית"));
    assert!(genesis_words_chirho[0].is_hebrew_chirho);
    assert_eq!(genesis_words_chirho[0].strongs_chirho.as_str(), "H7225");
    assert!(genesis_words_chirho[0].gloss_chirho.contains("beginning"));

    // Third word should be Elohim
    assert!(genesis_words_chirho[2].original_chirho.contains("אֱלֹהִ֑ים"));
    assert_eq!(genesis_words_chirho[2].strongs_chirho.as_str(), "H430");
    assert!(genesis_words_chirho[2].gloss_chirho.contains("God"));

    // Test John 3:16 interlinear data
    let john_words_chirho = get_sample_interlinear_chirho("John 3:16");
    assert!(!john_words_chirho.is_empty());
    assert!(!john_words_chirho[0].is_hebrew_chirho); // Greek, not Hebrew

    // Should have "ἠγάπησεν" (loved)
    let loved_word_chirho = john_words_chirho.iter().find(|w| w.gloss_chirho.contains("loved"));
    assert!(loved_word_chirho.is_some());
    assert_eq!(loved_word_chirho.unwrap().strongs_chirho.as_str(), "G25");

    // Test unknown verse
    let unknown_words_chirho = get_sample_interlinear_chirho("Unknown 99:99");
    assert_eq!(unknown_words_chirho.len(), 1);
    assert!(unknown_words_chirho[0].gloss_chirho.contains("not available"));
}
