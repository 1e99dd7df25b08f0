//! Plain records that the library hands to the user interface.

use vstd::prelude::*;

verus! {

/// One verse as the reading pane shows it.
#[derive(Clone, Debug)]
pub struct VerseChirho {
    pub reference_chirho: String,
    pub text_chirho: String,
    pub is_highlighted_chirho: bool,
    pub highlight_color_chirho: String,
    pub has_note_chirho: bool,
    pub is_red_letter_chirho: bool,
    pub section_heading_chirho: String,
    pub poetry_indent_chirho: i32,
    pub is_paragraph_start_chirho: bool,
    pub strongs_text_chirho: String,
    pub has_strongs_chirho: bool,
}

/// One word of an interlinear display.
#[derive(Clone, Debug)]
pub struct InterlinearWordChirho {
    pub original_chirho: String,
    pub transliteration_chirho: String,
    pub morphology_chirho: String,
    pub strongs_chirho: String,
    pub gloss_chirho: String,
    pub part_of_speech_chirho: String,
    pub is_hebrew_chirho: bool,
}

/// The contents of an interlinear word: original, transliteration,
/// morphology, Strong's numbers, gloss, part of speech, and whether it is
/// Hebrew.
pub struct InterlinearWordViewChirho {
    pub original: Seq<char>,
    pub transliteration: Seq<char>,
    pub morphology: Seq<char>,
    pub strongs: Seq<char>,
    pub gloss: Seq<char>,
    pub part_of_speech: Seq<char>,
    pub is_hebrew: bool,
}

impl View for InterlinearWordChirho {
    type V = InterlinearWordViewChirho;

    open spec fn view(&self) -> InterlinearWordViewChirho {
        InterlinearWordViewChirho {
            original: self.original_chirho@,
            transliteration: self.transliteration_chirho@,
            morphology: self.morphology_chirho@,
            strongs: self.strongs_chirho@,
            gloss: self.gloss_chirho@,
            part_of_speech: self.part_of_speech_chirho@,
            is_hebrew: self.is_hebrew_chirho,
        }
    }
}

/// A Strong's concordance entry.
#[derive(Clone, Debug)]
pub struct StrongsEntryChirho {
    pub number_chirho: String,
    pub is_hebrew_chirho: bool,
    pub lemma_chirho: String,
    pub transliteration_chirho: String,
    pub pronunciation_chirho: String,
    pub definition_chirho: String,
    pub usage_chirho: String,
    pub occurrences_chirho: i32,
}

/// A Bible reading plan.
#[derive(Clone, Debug)]
pub struct ReadingPlanChirho {
    pub id_chirho: i32,
    pub name_chirho: String,
    pub description_chirho: String,
    pub plan_type_chirho: String,
    pub total_days_chirho: i32,
    pub current_day_chirho: i32,
    pub is_active_chirho: bool,
    pub progress_percent_chirho: i32,
}

/// The reading assigned to one day.
#[derive(Clone, Debug)]
pub struct ReadingDayChirho {
    pub day_number_chirho: i32,
    pub readings_chirho: String,
    pub is_completed_chirho: bool,
    pub is_today_chirho: bool,
}

/// A place to navigate to, as the history and quick-navigation lists show it.
#[derive(Clone, Debug)]
pub struct HistoryEntryChirho {
    pub book_chirho: String,
    pub chapter_chirho: i32,
    pub timestamp_chirho: String,
}

/// A bookmark as the bookmarks panel shows it.
#[derive(Clone, Debug)]
pub struct BookmarkDisplayChirho {
    pub id_chirho: i32,
    pub reference_chirho: String,
    pub label_chirho: String,
    pub book_chirho: String,
    pub chapter_chirho: i32,
    pub verse_chirho: i32,
}

/// A highlight as the highlights panel shows it.
#[derive(Clone, Debug)]
pub struct HighlightDisplayChirho {
    pub id_chirho: i32,
    pub reference_chirho: String,
    pub color_chirho: String,
    pub book_chirho: String,
    pub chapter_chirho: i32,
    pub verse_chirho: i32,
    pub preview_chirho: String,
}

/// A note as the notes panel shows it.
#[derive(Clone, Debug)]
pub struct NoteDisplayChirho {
    pub id_chirho: i32,
    pub reference_chirho: String,
    pub book_chirho: String,
    pub chapter_chirho: i32,
    pub verse_chirho: i32,
    pub preview_chirho: String,
    pub updated_at_chirho: String,
}

/// A journal entry as the journal panel lists it.
#[derive(Clone, Debug)]
pub struct JournalEntryDisplayChirho {
    pub id_chirho: i32,
    pub title_chirho: String,
    pub preview_chirho: String,
}

/// A prayer request as the prayer panel lists it.
#[derive(Clone, Debug)]
pub struct PrayerRequestDisplayChirho {
    pub id_chirho: i32,
    pub title_chirho: String,
    pub description_chirho: String,
    pub verse_ref_chirho: String,
    pub category_chirho: String,
    pub is_answered_chirho: bool,
    pub date_chirho: String,
}

} // verus!
