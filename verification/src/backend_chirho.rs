//! The application's state: where the reader is (module, book, chapter),
//! the study database and the Bible engine; and the lists the panels show.

use vstd::prelude::*;
use vstd::string::StringExecFns;
use std::collections::HashSet;
use crate::bible_engine_chirho::{
    spec_fallback_module_names_chirho, spec_numbered_verses_chirho, BibleEngineChirho,
};
use crate::samples_chirho::{spec_pairs_view_chirho, spec_sample_verses_chirho};
use crate::books_chirho::{
    book_name_chirho, book_position_chirho, next_book_index_chirho, prev_book_index_chirho,
    spec_book_chapters_chirho, spec_book_index_chirho, spec_book_name_chirho,
    spec_next_book_chirho, spec_prev_book_chirho,
};
use crate::database_chirho::{
    add_reading_history_chirho, delete_note_chirho, spec_has_rows_chirho, spec_first_i64_chirho, get_all_bookmarks_chirho,
    get_bookmark_id_chirho, save_note_chirho, get_all_highlights_chirho,
    get_all_notes_chirho, get_highlights_with_colors_chirho,
    get_verses_with_notes_chirho, init_database_chirho, execute_statement_chirho, read_text_chirho,
    get_setting_statement_chirho, set_setting_statement_chirho, spec_statement_is_chirho,
    spec_text_param_chirho, SqlStatementChirho, GET_SETTING_SQL_CHIRHO, SET_SETTING_SQL_CHIRHO,
    add_bookmark_statement_chirho, remove_bookmark_statement_chirho, spec_verse_key_chirho,
    SqlParamViewChirho, ADD_BOOKMARK_SQL_CHIRHO, REMOVE_BOOKMARK_SQL_CHIRHO,
    toggle_highlight_chirho, spec_bookmark_row_fn_chirho, spec_highlight_row_fn_chirho,
    spec_note_row_fn_chirho, BookmarkChirho, DbErrorChirho, HighlightChirho, HighlightInfoChirho,
    NoteChirho, SqlValueChirho,
};
use crate::display_chirho::{
    verse_reference_chirho, bookmark_display_chirho, highlight_display_chirho, label_number_chirho, mark_verses_chirho,
    note_display_chirho, spec_label_number_chirho, spec_marked_verse_chirho,
    spec_fitting_prefix_chirho, spec_preview_chirho, spec_sample_preview_chirho,
    spec_verse_reference_chirho,
};
use crate::models_chirho::{
    BookmarkDisplayChirho, HighlightDisplayChirho, NoteDisplayChirho, VerseChirho,
};
use crate::text_chirho::{
    chars_of_chirho, int_to_string_chirho, spec_int_decimal_chirho, parse_i32_chirho, spec_first_field_chirho,
    spec_parse_i32_chirho, spec_trim_chirho, trim_chars_chirho,
};

verus! {

/// The chapter to start at from the saved setting: its number when it
/// reads as one, else 1.
pub open spec fn spec_saved_chapter_chirho(saved: Option<Seq<char>>) -> i32 {
    match saved {
        Some(s) => match spec_parse_i32_chirho(s) {
            Some(n) => n,
            None => 1,
        },
        None => 1,
    }
}

/// The chapter to start at from the saved setting (see
/// `spec_saved_chapter_chirho`).
pub fn saved_chapter_chirho(saved: &Option<String>) -> (r: i32)
    ensures
        r == spec_saved_chapter_chirho(
            match saved {
                Some(s) => Some(s@),
                None => None,
            },
        ),
{
    match saved {
        Some(s) => match parse_i32_chirho(&chars_of_chirho(s.as_str())) {
            Some(n) => n,
            None => 1,
        },
        None => 1,
    }
}

/// `r` is the chapter `raw` of (label, text) verses, each marked with the
/// colour `highlights` records for its number and whether `notes` holds it.
pub open spec fn spec_marked_chapter_chirho(
    r: Seq<VerseChirho>,
    raw: Seq<(String, String)>,
    highlights: Seq<HighlightInfoChirho>,
    notes: Set<i32>,
) -> bool {
    &&& r.len() == raw.len()
    &&& forall|i: int|
        0 <= i < r.len() ==> spec_marked_verse_chirho(
            #[trigger] r[i],
            raw[i].0@,
            raw[i].1@,
            highlights,
            notes,
        )
}

/// A saved text setting's view.
pub open spec fn spec_setting_view_chirho(s: Option<String>) -> Option<Seq<char>> {
    match s {
        Some(t) => Some(t@),
        None => None,
    }
}

/// The place to start at from the saved module, book and chapter settings:
/// each as saved, or "KJV", "Genesis" and 1 when missing (the chapter also
/// 1 when it does not read as a number).
pub open spec fn spec_restored_position_chirho(
    module: Option<Seq<char>>,
    book: Option<Seq<char>>,
    chapter: Option<Seq<char>>,
) -> (Seq<char>, Seq<char>, i32) {
    (
        match module {
            Some(m) => m,
            None => "KJV"@,
        },
        match book {
            Some(b) => b,
            None => "Genesis"@,
        },
        spec_saved_chapter_chirho(chapter),
    )
}

/// The place to start at from the saved settings (see
/// `spec_restored_position_chirho`).
pub fn restored_position_chirho(
    module: Option<String>,
    book: Option<String>,
    chapter: &Option<String>,
) -> (r: (String, String, i32))
    ensures
        (r.0@, r.1@, r.2) == spec_restored_position_chirho(
            spec_setting_view_chirho(module),
            spec_setting_view_chirho(book),
            spec_setting_view_chirho(*chapter),
        ),
{
    let m = match module {
        Some(m) => m,
        None => String::from_str("KJV"),
    };
    let b = match book {
        Some(b) => b,
        None => String::from_str("Genesis"),
    };
    let c = saved_chapter_chirho(chapter);
    (m, b, c)
}

/// The setting that holds the module read from.
pub const MODULE_SETTING_KEY_CHIRHO: &'static str = "current_module";

/// The setting that holds the book being read.
pub const BOOK_SETTING_KEY_CHIRHO: &'static str = "current_book";

/// The setting that holds the chapter being read, in decimal.
pub const CHAPTER_SETTING_KEY_CHIRHO: &'static str = "current_chapter";

/// The lookups of the saved module, book and chapter, in that order.
pub fn restore_statements_chirho() -> (r: (SqlStatementChirho, SqlStatementChirho, SqlStatementChirho))
    ensures
        spec_statement_is_chirho(r.0, GET_SETTING_SQL_CHIRHO, seq![spec_text_param_chirho(MODULE_SETTING_KEY_CHIRHO@)]),
        spec_statement_is_chirho(r.1, GET_SETTING_SQL_CHIRHO, seq![spec_text_param_chirho(BOOK_SETTING_KEY_CHIRHO@)]),
        spec_statement_is_chirho(r.2, GET_SETTING_SQL_CHIRHO, seq![spec_text_param_chirho(CHAPTER_SETTING_KEY_CHIRHO@)]),
{
    (
        get_setting_statement_chirho(MODULE_SETTING_KEY_CHIRHO),
        get_setting_statement_chirho(BOOK_SETTING_KEY_CHIRHO),
        get_setting_statement_chirho(CHAPTER_SETTING_KEY_CHIRHO),
    )
}

/// The statements that save a place to start at: the book, then the
/// chapter in decimal.
pub fn save_place_statements_chirho(book: &str, chapter: i32) -> (r: (SqlStatementChirho, SqlStatementChirho))
    ensures
        spec_statement_is_chirho(
            r.0,
            SET_SETTING_SQL_CHIRHO,
            seq![spec_text_param_chirho(BOOK_SETTING_KEY_CHIRHO@), spec_text_param_chirho(book@)],
        ),
        spec_statement_is_chirho(
            r.1,
            SET_SETTING_SQL_CHIRHO,
            seq![
                spec_text_param_chirho(CHAPTER_SETTING_KEY_CHIRHO@),
                spec_text_param_chirho(spec_int_decimal_chirho(chapter as int)),
            ],
        ),
{
    let chapter_text = int_to_string_chirho(chapter as i64);
    (
        set_setting_statement_chirho(BOOK_SETTING_KEY_CHIRHO, book),
        set_setting_statement_chirho(CHAPTER_SETTING_KEY_CHIRHO, chapter_text.as_str()),
    )
}

/// The statement that saves the module read from.
pub fn save_module_statement_chirho(module: &str) -> (r: SqlStatementChirho)
    ensures
        spec_statement_is_chirho(
            r,
            SET_SETTING_SQL_CHIRHO,
            seq![spec_text_param_chirho(MODULE_SETTING_KEY_CHIRHO@), spec_text_param_chirho(module@)],
        ),
{
    set_setting_statement_chirho(MODULE_SETTING_KEY_CHIRHO, module)
}

/// The statement that toggles the bookmark of a verse: the removal of
/// bookmark `existing` when the verse has one, else a new bookmark of the
/// verse labelled with its reference.
pub fn toggle_bookmark_statement_chirho(
    module: &str,
    book: &str,
    chapter: i32,
    verse: i32,
    existing: Option<i64>,
) -> (r: SqlStatementChirho)
    ensures
        existing matches Some(id) ==> spec_statement_is_chirho(
            r,
            REMOVE_BOOKMARK_SQL_CHIRHO,
            seq![SqlParamViewChirho::IntegerChirho(id as int)],
        ),
        existing is None ==> spec_statement_is_chirho(
            r,
            ADD_BOOKMARK_SQL_CHIRHO,
            spec_verse_key_chirho(module@, book@, chapter as int, verse as int).push(
                spec_text_param_chirho(spec_verse_reference_chirho(book@, chapter as int, verse as int)),
            ),
        ),
{
    match existing {
        Some(id) => remove_bookmark_statement_chirho(id),
        None => {
            let label = verse_reference_chirho(book, chapter, verse);
            add_bookmark_statement_chirho(module, book, chapter, verse, Some(label.as_str()))
        },
    }
}

/// The application state.
pub struct AppBackendChirho {
    pub current_book_chirho: String,
    pub current_chapter_chirho: i32,
    pub current_module_chirho: String,
    pub db_conn_chirho: rusqlite::Connection,
    pub bible_engine_chirho: BibleEngineChirho,
}

impl AppBackendChirho {
    /// Opens the study database at `db_path` and restores the saved module,
    /// book and chapter ("KJV", "Genesis" and 1 when none are saved).
    pub fn new_chirho(db_path: &str) -> (r: Result<Self, DbErrorChirho>)
        ensures
            r matches Ok(b) ==> b.bible_engine_chirho.module_chirho() == b.current_module_chirho@,
            r matches Ok(b) ==> exists|
                module: Option<Seq<char>>,
                book: Option<Seq<char>>,
                chapter: Option<Seq<char>>,
            |
                (b.current_module_chirho@, b.current_book_chirho@, b.current_chapter_chirho)
                    == #[trigger] spec_restored_position_chirho(module, book, chapter),
    {
        let conn = init_database_chirho(db_path)?;
        let (module_lookup, book_lookup, chapter_lookup) = restore_statements_chirho();
        let saved_module = read_text_chirho(&conn, &module_lookup);
        let saved_book = read_text_chirho(&conn, &book_lookup);
        let saved_chapter = read_text_chirho(&conn, &chapter_lookup);
        let ghost views = (
            spec_setting_view_chirho(saved_module),
            spec_setting_view_chirho(saved_book),
            spec_setting_view_chirho(saved_chapter),
        );
        let (module, book, chapter) = restored_position_chirho(saved_module, saved_book, &saved_chapter);
        assert((module@, book@, chapter) == spec_restored_position_chirho(views.0, views.1, views.2));
        let mut engine = BibleEngineChirho::new_chirho();
        engine.set_module_chirho(module.as_str());
        Ok(AppBackendChirho {
            current_book_chirho: book,
            current_chapter_chirho: chapter,
            current_module_chirho: module,
            db_conn_chirho: conn,
            bible_engine_chirho: engine,
        })
    }

    /// The verses of the current chapter with their highlights and notes
    /// marked (none marked when they cannot be read). The verses are those
    /// the engine reads for the chapter, in order (the sample chapter when
    /// no module is installed); which are marked is up to the database.
    pub fn get_verses_chirho(&self) -> (r: Vec<VerseChirho>)
        ensures
            exists|raw: Seq<(String, String)>, highlights: Seq<HighlightInfoChirho>, notes: Set<i32>|
                #[trigger] spec_marked_chapter_chirho(r@, raw, highlights, notes) && (
                !self.bible_engine_chirho.has_modules_chirho() ==> spec_pairs_view_chirho(raw)
                    == spec_sample_verses_chirho(self.current_book_chirho@, self.current_chapter_chirho))
                    && (spec_pairs_view_chirho(raw) == spec_sample_verses_chirho(
                    self.current_book_chirho@,
                    self.current_chapter_chirho,
                ) || spec_numbered_verses_chirho(raw)),
    {
        let raw = self.bible_engine_chirho.get_chapter_verses_chirho(
            self.current_book_chirho.as_str(),
            self.current_chapter_chirho,
        );
        let ghost raw_view = raw@;
        let highlights = match get_highlights_with_colors_chirho(
            &self.db_conn_chirho,
            self.current_module_chirho.as_str(),
            self.current_book_chirho.as_str(),
            self.current_chapter_chirho,
        ) {
            Ok(h) => h,
            Err(_) => Vec::new(),
        };
        let notes = match get_verses_with_notes_chirho(
            &self.db_conn_chirho,
            self.current_module_chirho.as_str(),
            self.current_book_chirho.as_str(),
            self.current_chapter_chirho,
        ) {
            Ok(n) => n,
            Err(_) => HashSet::new(),
        };
        let r = mark_verses_chirho(raw, &highlights, &notes);
        assert(spec_marked_chapter_chirho(r@, raw_view, highlights@, notes@));
        r
    }

    /// Goes to a chapter: remembers it as the place to start at and records
    /// it in the reading history (failures to save are ignored).
    pub fn navigate_to_chirho(&mut self, book: &str, chapter: i32)
        ensures
            final(self).current_book_chirho@ == book@,
            final(self).current_chapter_chirho == chapter,
            final(self).current_module_chirho@ == old(self).current_module_chirho@,
    {
        self.current_book_chirho = String::from_str(book);
        self.current_chapter_chirho = chapter;
        let (save_book, save_chapter) = save_place_statements_chirho(book, chapter);
        let _ = execute_statement_chirho(&self.db_conn_chirho, &save_book);
        let _ = execute_statement_chirho(&self.db_conn_chirho, &save_chapter);
        let _ = add_reading_history_chirho(
            &self.db_conn_chirho,
            self.current_module_chirho.as_str(),
            book,
            chapter,
        );
    }

    /// Toggles the highlight of verse `verse_ref` (a verse number; 0 when it
    /// is not one) of the current chapter and answers whether it is
    /// highlighted now (true only when the lookup found no highlight, which
    /// is then added); false when that cannot be saved.
    pub fn toggle_highlight_chirho(&mut self, verse_ref: &str) -> (r: bool)
        ensures
            r ==> exists|rows: Seq<Vec<SqlValueChirho>>| !#[trigger] spec_has_rows_chirho(rows),
            final(self).current_book_chirho@ == old(self).current_book_chirho@,
            final(self).current_chapter_chirho == old(self).current_chapter_chirho,
            final(self).current_module_chirho@ == old(self).current_module_chirho@,
    {
        let verse = label_number_chirho(verse_ref);
        match toggle_highlight_chirho(
            &self.db_conn_chirho,
            self.current_module_chirho.as_str(),
            self.current_book_chirho.as_str(),
            self.current_chapter_chirho,
            verse,
        ) {
            Ok(now) => now,
            Err(_) => false,
        }
    }

    /// Switches the module read from, and remembers it.
    pub fn set_module_chirho(&mut self, module_name: &str)
        ensures
            final(self).current_module_chirho@ == module_name@,
            final(self).bible_engine_chirho.module_chirho() == module_name@,
            final(self).current_book_chirho@ == old(self).current_book_chirho@,
            final(self).current_chapter_chirho == old(self).current_chapter_chirho,
    {
        self.current_module_chirho = String::from_str(module_name);
        self.bible_engine_chirho.set_module_chirho(module_name);
        let _ = execute_statement_chirho(&self.db_conn_chirho, &save_module_statement_chirho(module_name));
    }

    /// The names of the modules that can be read (see
    /// `BibleEngineChirho::get_module_names_chirho`): never none, and "KJV",
    /// "SBLGNT" and "WLC" when no module is installed.
    pub fn get_module_names_chirho(&self) -> (r: Vec<String>)
        ensures
            !self.bible_engine_chirho.has_modules_chirho() ==> r@.map_values(|s: String| s@)
                == spec_fallback_module_names_chirho(),
            r.len() > 0,
    {
        self.bible_engine_chirho.get_module_names_chirho()
    }

    /// Goes to chapter 1 of the book before the current one (Revelation
    /// before Genesis) and answers that book; nothing happens, and `None`
    /// comes back, when the current book is not one of the canon.
    pub fn navigate_prev_book_chirho(&mut self) -> (r: Option<&'static str>)
        ensures
            match spec_book_index_chirho(old(self).current_book_chirho@) {
                Some(k) => r matches Some(b) && b@ == spec_book_name_chirho(spec_prev_book_chirho(k))
                    && final(self).current_book_chirho@ == b@ && final(self).current_chapter_chirho == 1,
                None => r is None && final(self).current_book_chirho@ == old(self).current_book_chirho@
                    && final(self).current_chapter_chirho == old(self).current_chapter_chirho,
            },
    {
        match book_position_chirho(self.current_book_chirho.as_str()) {
            Some(k) => {
                let name = book_name_chirho(prev_book_index_chirho(k));
                self.navigate_to_chirho(name, 1);
                Some(name)
            },
            None => None,
        }
    }

    /// Goes to chapter 1 of the book after the current one (Genesis after
    /// Revelation) and answers that book; nothing happens, and `None` comes
    /// back, when the current book is not one of the canon.
    pub fn navigate_next_book_chirho(&mut self) -> (r: Option<&'static str>)
        ensures
            match spec_book_index_chirho(old(self).current_book_chirho@) {
                Some(k) => r matches Some(b) && b@ == spec_book_name_chirho(spec_next_book_chirho(k))
                    && final(self).current_book_chirho@ == b@ && final(self).current_chapter_chirho == 1,
                None => r is None && final(self).current_book_chirho@ == old(self).current_book_chirho@
                    && final(self).current_chapter_chirho == old(self).current_chapter_chirho,
            },
    {
        match book_position_chirho(self.current_book_chirho.as_str()) {
            Some(k) => {
                let name = book_name_chirho(next_book_index_chirho(k));
                self.navigate_to_chirho(name, 1);
                Some(name)
            },
            None => None,
        }
    }

    /// Bookmarks verse `verse_ref` (a verse number; 1 when it is not one) of
    /// the current chapter, labelled with its reference, or removes its
    /// bookmark when it has one (the statement of
    /// `toggle_bookmark_statement_chirho`); answers whether it had one.
    pub fn toggle_bookmark_chirho(&self, verse_ref: &str) -> (r: bool)
        ensures
            exists|rows: Seq<Vec<SqlValueChirho>>| r == (#[trigger] spec_first_i64_chirho(rows) is Some),
    {
        let verse = match parse_i32_chirho(&chars_of_chirho(verse_ref)) {
            Some(n) => n,
            None => 1,
        };
        let existing = get_bookmark_id_chirho(
            &self.db_conn_chirho,
            self.current_module_chirho.as_str(),
            self.current_book_chirho.as_str(),
            self.current_chapter_chirho,
            verse,
        );
        let st = toggle_bookmark_statement_chirho(
            self.current_module_chirho.as_str(),
            self.current_book_chirho.as_str(),
            self.current_chapter_chirho,
            verse,
            existing,
        );
        let _ = execute_statement_chirho(&self.db_conn_chirho, &st);
        existing.is_some()
    }

    /// Saves the note of verse `verse_ref` (a verse number; 1 when it is not
    /// one) of the current chapter, or deletes it when the content is blank;
    /// answers the status line ("Note saved" or "Note deleted").
    pub fn save_note_chirho(&self, verse_ref: &str, content: &str) -> (r: &'static str)
        ensures
            r@ == (if spec_trim_chirho(content@).len() == 0 {
                "Note deleted"@
            } else {
                "Note saved"@
            }),
    {
        let verse = match parse_i32_chirho(&chars_of_chirho(verse_ref)) {
            Some(n) => n,
            None => 1,
        };
        if trim_chars_chirho(&chars_of_chirho(content)).len() == 0 {
            let _ = delete_note_chirho(
                &self.db_conn_chirho,
                self.current_module_chirho.as_str(),
                self.current_book_chirho.as_str(),
                self.current_chapter_chirho,
                verse,
            );
            "Note deleted"
        } else {
            let _ = save_note_chirho(
                &self.db_conn_chirho,
                self.current_module_chirho.as_str(),
                self.current_book_chirho.as_str(),
                self.current_chapter_chirho,
                verse,
                content,
            );
            "Note saved"
        }
    }

    /// The number of chapters of a book of the canon.
    pub fn get_chapter_count_chirho(book: &str) -> (r: Option<i32>)
        ensures
            r == (match spec_book_index_chirho(book@) {
                Some(k) => Some(spec_book_chapters_chirho(k) as i32),
                None => None,
            }),
    {
        crate::books_chirho::get_chapter_count_chirho(book)
    }

    /// Whether `book` names a book of the canon.
    pub fn is_valid_book_chirho(book: &str) -> (r: bool)
        ensures
            r == (exists|k: int| 0 <= k < 66 && spec_book_name_chirho(k) == book@),
    {
        crate::books_chirho::is_valid_book_chirho(book)
    }
}

// ---------------------------------------------------------------------------
// Panels
// ---------------------------------------------------------------------------

/// `d` is the bookmarks panel's record of `bm`: its id cut to `i32`, its
/// reference, its label (empty when it has none) and its place.
pub open spec fn spec_bookmark_display_chirho(d: BookmarkDisplayChirho, bm: BookmarkChirho) -> bool {
    &&& d.id_chirho == bm.id_chirho as i32
    &&& d.reference_chirho@ == spec_verse_reference_chirho(
        bm.book_chirho@,
        bm.chapter_chirho as int,
        bm.verse_chirho as int,
    )
    &&& d.label_chirho@ == (match bm.label_chirho {
        Some(l) => l@,
        None => Seq::<char>::empty(),
    })
    &&& d.book_chirho@ == bm.book_chirho@
    &&& d.chapter_chirho == bm.chapter_chirho
    &&& d.verse_chirho == bm.verse_chirho
}

/// `d` is the highlights panel's record of `hl`: its id cut to `i32`, its
/// reference, colour and place, and the preview of the verse in the sample
/// chapters.
pub open spec fn spec_highlight_display_chirho(d: HighlightDisplayChirho, hl: HighlightChirho) -> bool {
    &&& d.id_chirho == hl.id_chirho as i32
    &&& d.reference_chirho@ == spec_verse_reference_chirho(
        hl.book_chirho@,
        hl.chapter_chirho as int,
        hl.verse_chirho as int,
    )
    &&& d.color_chirho@ == hl.color_chirho@
    &&& d.book_chirho@ == hl.book_chirho@
    &&& d.chapter_chirho == hl.chapter_chirho
    &&& d.verse_chirho == hl.verse_chirho
    &&& spec_sample_preview_chirho(hl.book_chirho@, hl.chapter_chirho, hl.verse_chirho, d.preview_chirho@)
}

/// `d` is the notes panel's record of `note`: its id cut to `i32`, its
/// reference and place, the preview of its content (at most 100 bytes, cut
/// at a character boundary, then "..."), and the date of its last update.
pub open spec fn spec_note_display_chirho(d: NoteDisplayChirho, note: NoteChirho) -> bool {
    &&& d.id_chirho == note.id_chirho as i32
    &&& d.reference_chirho@ == spec_verse_reference_chirho(
        note.book_chirho@,
        note.chapter_chirho as int,
        note.verse_chirho as int,
    )
    &&& d.book_chirho@ == note.book_chirho@
    &&& d.chapter_chirho == note.chapter_chirho
    &&& d.verse_chirho == note.verse_chirho
    &&& exists|k: int|
        spec_fitting_prefix_chirho(note.content_chirho@, 100, k) && d.preview_chirho@
            == #[trigger] spec_preview_chirho(note.content_chirho@, 100, k)
    &&& d.updated_at_chirho@ == spec_first_field_chirho(note.updated_at_chirho@, ' ')
}

/// `r` holds the panel records of `list`, one for each, in order.
pub open spec fn spec_bookmark_displays_chirho(r: Seq<BookmarkDisplayChirho>, list: Seq<BookmarkChirho>) -> bool {
    r.len() == list.len() && forall|i: int| 0 <= i < r.len() ==> spec_bookmark_display_chirho(#[trigger] r[i], list[i])
}

/// `r` holds the panel records of `list`, one for each, in order.
pub open spec fn spec_highlight_displays_chirho(r: Seq<HighlightDisplayChirho>, list: Seq<HighlightChirho>) -> bool {
    r.len() == list.len() && forall|i: int| 0 <= i < r.len() ==> spec_highlight_display_chirho(#[trigger] r[i], list[i])
}

/// `r` holds the panel records of `list`, one for each, in order.
pub open spec fn spec_note_displays_chirho(r: Seq<NoteDisplayChirho>, list: Seq<NoteChirho>) -> bool {
    r.len() == list.len() && forall|i: int| 0 <= i < r.len() ==> spec_note_display_chirho(#[trigger] r[i], list[i])
}

/// The bookmarks panel's records of `list`, in order.
pub fn bookmark_displays_chirho(list: &Vec<BookmarkChirho>) -> (r: Vec<BookmarkDisplayChirho>)
    ensures
        spec_bookmark_displays_chirho(r@, list@),
{
    let mut out: Vec<BookmarkDisplayChirho> = Vec::new();
    let mut i: usize = 0;
    while i < list.len()
        invariant
            i <= list.len(),
            spec_bookmark_displays_chirho(out@, list@.take(i as int)),
        decreases list.len() - i,
    {
        out.push(bookmark_display_chirho(&list[i]));
        i = i + 1;
        assert(spec_bookmark_displays_chirho(out@, list@.take(i as int)));
    }
    assert(list@.take(list.len() as int) =~= list@);
    out
}

/// The highlights panel's records of `list`, in order.
pub fn highlight_displays_chirho(list: &Vec<HighlightChirho>) -> (r: Vec<HighlightDisplayChirho>)
    ensures
        spec_highlight_displays_chirho(r@, list@),
{
    let mut out: Vec<HighlightDisplayChirho> = Vec::new();
    let mut i: usize = 0;
    while i < list.len()
        invariant
            i <= list.len(),
            spec_highlight_displays_chirho(out@, list@.take(i as int)),
        decreases list.len() - i,
    {
        out.push(highlight_display_chirho(&list[i]));
        i = i + 1;
        assert(spec_highlight_displays_chirho(out@, list@.take(i as int)));
    }
    assert(list@.take(list.len() as int) =~= list@);
    out
}

/// The notes panel's records of `list`, in order.
pub fn note_displays_chirho(list: &Vec<NoteChirho>) -> (r: Vec<NoteDisplayChirho>)
    ensures
        spec_note_displays_chirho(r@, list@),
{
    let mut out: Vec<NoteDisplayChirho> = Vec::new();
    let mut i: usize = 0;
    while i < list.len()
        invariant
            i <= list.len(),
            spec_note_displays_chirho(out@, list@.take(i as int)),
        decreases list.len() - i,
    {
        out.push(note_display_chirho(&list[i]));
        i = i + 1;
        assert(spec_note_displays_chirho(out@, list@.take(i as int)));
    }
    assert(list@.take(list.len() as int) =~= list@);
    out
}

/// The bookmarks panel: the records of every bookmark the database holds,
/// newest first (the decoding of its rows); none when they cannot be read.
pub fn load_bookmarks_for_ui_chirho(conn: &rusqlite::Connection) -> (r: Vec<BookmarkDisplayChirho>)
    ensures
        exists|rows: Seq<Vec<SqlValueChirho>>|
            #[trigger] spec_bookmark_displays_chirho(r@, rows.filter_map(spec_bookmark_row_fn_chirho())),
{
    match get_all_bookmarks_chirho(conn) {
        Ok(list) => bookmark_displays_chirho(&list),
        Err(_) => {
            let r: Vec<BookmarkDisplayChirho> = Vec::new();
            let ghost none = Seq::<Vec<SqlValueChirho>>::empty();
            assert(none.filter_map(spec_bookmark_row_fn_chirho()) =~= Seq::<BookmarkChirho>::empty());
            assert(spec_bookmark_displays_chirho(r@, none.filter_map(spec_bookmark_row_fn_chirho())));
            r
        },
    }
}

/// The highlights panel: the records of every highlight the database holds,
/// newest first (the decoding of its rows); none when they cannot be read.
pub fn load_highlights_for_ui_chirho(conn: &rusqlite::Connection) -> (r: Vec<HighlightDisplayChirho>)
    ensures
        exists|rows: Seq<Vec<SqlValueChirho>>|
            #[trigger] spec_highlight_displays_chirho(r@, rows.filter_map(spec_highlight_row_fn_chirho())),
{
    match get_all_highlights_chirho(conn) {
        Ok(list) => highlight_displays_chirho(&list),
        Err(_) => {
            let r: Vec<HighlightDisplayChirho> = Vec::new();
            let ghost none = Seq::<Vec<SqlValueChirho>>::empty();
            assert(none.filter_map(spec_highlight_row_fn_chirho()) =~= Seq::<HighlightChirho>::empty());
            assert(spec_highlight_displays_chirho(r@, none.filter_map(spec_highlight_row_fn_chirho())));
            r
        },
    }
}

/// The notes panel: the records of every note the database holds, most
/// recently updated first (the decoding of its rows); none when they cannot
/// be read.
pub fn load_notes_for_ui_chirho(conn: &rusqlite::Connection) -> (r: Vec<NoteDisplayChirho>)
    ensures
        exists|rows: Seq<Vec<SqlValueChirho>>|
            #[trigger] spec_note_displays_chirho(r@, rows.filter_map(spec_note_row_fn_chirho())),
{
    match get_all_notes_chirho(conn) {
        Ok(list) => note_displays_chirho(&list),
        Err(_) => {
            let r: Vec<NoteDisplayChirho> = Vec::new();
            let ghost none = Seq::<Vec<SqlValueChirho>>::empty();
            assert(none.filter_map(spec_note_row_fn_chirho()) =~= Seq::<NoteChirho>::empty());
            assert(spec_note_displays_chirho(r@, none.filter_map(spec_note_row_fn_chirho())));
            r
        },
    }
}

} // verus!
