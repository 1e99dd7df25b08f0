//! The decisions behind the user interface's commands: how verses are
//! copied, what the status line says, how the theme and display toggles
//! flip, how a reading plan advances, the lexicon's search history, and
//! the records of the journal and prayer panels.

use vstd::prelude::*;
use vstd::string::StringExecFns;
use crate::database_chirho::{JournalEntryChirho, PrayerRequestChirho};
use crate::display_chirho::{
    preview_chirho, spec_fitting_prefix_chirho, spec_preview_chirho, spec_reference_label_chirho,
};
use crate::models_chirho::{
    InterlinearWordChirho, InterlinearWordViewChirho, JournalEntryDisplayChirho,
    PrayerRequestDisplayChirho, ReadingPlanChirho, VerseChirho,
};
use crate::reference_chirho::{parse_reference_chirho, spec_parse_reference_chirho};
use crate::samples_chirho::{format_timestamp_chirho, get_sample_interlinear_chirho, spec_sample_interlinear_chirho};
use crate::books_chirho::spec_book_name_chirho;
use crate::text_chirho::{
    chars_of_chirho, extend_chirho, extend_str_chirho, find_char_chirho, int_to_string_chirho,
    parse_usize_chirho, push_decimal_chirho, spec_first_field_chirho, spec_int_decimal_chirho,
    spec_join_chirho, spec_nat_decimal_chirho, spec_parse_usize_chirho, spec_trim_chirho,
    str_eq_chirho, string_from_chars_chirho, subrange_chirho, trim_chars_chirho,
};

verus! {

// ---------------------------------------------------------------------------
// Copying verses
// ---------------------------------------------------------------------------

/// A copied passage in the chosen format: 1 is "reference: text", 2 is the
/// text alone, anything else "text - reference".
pub open spec fn spec_copy_format_chirho(reference: Seq<char>, text: Seq<char>, format_index: i32) -> Seq<char> {
    if format_index == 1 {
        reference + ": "@ + text
    } else if format_index == 2 {
        text
    } else {
        text + " - "@ + reference
    }
}

/// Formats a passage for the clipboard (see `spec_copy_format_chirho`).
pub fn copy_format_chirho(reference: &str, text: &str, format_index: i32) -> (r: String)
    ensures
        r@ == spec_copy_format_chirho(reference@, text@, format_index),
{
    if format_index == 1 {
        let mut t = String::from_str(reference);
        t.append(": ");
        t.append(text);
        t
    } else if format_index == 2 {
        String::from_str(text)
    } else {
        let mut t = String::from_str(text);
        t.append(" - ");
        t.append(reference);
        t
    }
}

/// The verse number a verse label reads as (`str::parse::<usize>`).
pub open spec fn spec_verse_number_chirho(v: VerseChirho) -> Option<usize> {
    spec_parse_usize_chirho(v.reference_chirho@)
}

/// The texts of the verses numbered `lo` to `hi`, in order, each preceded
/// by "n. " when `numbered`.
pub open spec fn spec_selected_parts_chirho(
    verses: Seq<VerseChirho>,
    lo: usize,
    hi: usize,
    numbered: bool,
) -> Seq<Seq<char>>
    decreases verses.len(),
{
    if verses.len() == 0 {
        Seq::empty()
    } else {
        let rest = spec_selected_parts_chirho(verses.drop_last(), lo, hi, numbered);
        let v = verses.last();
        match spec_verse_number_chirho(v) {
            Some(n) => if lo <= n <= hi {
                rest.push(
                    if numbered {
                        spec_nat_decimal_chirho(n as nat) + ". "@ + v.text_chirho@
                    } else {
                        v.text_chirho@
                    },
                )
            } else {
                rest
            },
            None => rest,
        }
    }
}

/// The reference of a selection: "`book` `chapter`:`lo`-`hi`".
pub open spec fn spec_selection_reference_chirho(book: Seq<char>, chapter: i32, lo: usize, hi: usize) -> Seq<char> {
    spec_reference_label_chirho(book, chapter as int, spec_nat_decimal_chirho(lo as nat)) + "-"@
        + spec_nat_decimal_chirho(hi as nat)
}

/// What copying the verses from `start` to `end` (in either order) puts on
/// the clipboard, with the reference it names; nothing unless both ends
/// are selected (positive).
pub open spec fn spec_copy_selection_chirho(
    verses: Seq<VerseChirho>,
    book: Seq<char>,
    chapter: i32,
    start: i32,
    end: i32,
    numbered: bool,
    format_index: i32,
) -> Option<(Seq<char>, Seq<char>)> {
    if start > 0 && end > 0 {
        let lo = (if start < end {
            start
        } else {
            end
        }) as usize;
        let hi = (if start < end {
            end
        } else {
            start
        }) as usize;
        let reference = spec_selection_reference_chirho(book, chapter, lo, hi);
        let text = spec_join_chirho(spec_selected_parts_chirho(verses, lo, hi, numbered), " "@);
        Some((reference, spec_copy_format_chirho(reference, text, format_index)))
    } else {
        None
    }
}

fn decimal_string_chirho(n: usize) -> (r: Vec<char>)
    ensures
        r@ == spec_nat_decimal_chirho(n as nat),
{
    let mut v: Vec<char> = Vec::new();
    push_decimal_chirho(&mut v, n as u64);
    assert(v@ =~= spec_nat_decimal_chirho(n as nat));
    v
}

/// The reference and the clipboard text for copying the selected verses
/// (see `spec_copy_selection_chirho`).
pub fn copy_selection_chirho(
    verses: &Vec<VerseChirho>,
    book: &str,
    chapter: i32,
    start: i32,
    end: i32,
    numbered: bool,
    format_index: i32,
) -> (r: Option<(String, String)>)
    ensures
        match r {
            Some((reference, text)) => spec_copy_selection_chirho(
                verses@,
                book@,
                chapter,
                start,
                end,
                numbered,
                format_index,
            ) == Some((reference@, text@)),
            None => spec_copy_selection_chirho(
                verses@,
                book@,
                chapter,
                start,
                end,
                numbered,
                format_index,
            ) is None,
        },
{
    if !(start > 0 && end > 0) {
        return None;
    }
    let lo: usize = if start < end {
        start as usize
    } else {
        end as usize
    };
    let hi: usize = if start < end {
        end as usize
    } else {
        start as usize
    };
    let mut parts: Vec<Vec<char>> = Vec::new();
    let mut i: usize = 0;
    while i < verses.len()
        invariant
            i <= verses.len(),
            crate::text_chirho::spec_views_chirho(parts@) == spec_selected_parts_chirho(
                verses@.take(i as int),
                lo,
                hi,
                numbered,
            ),
        decreases verses.len() - i,
    {
        assert(verses@.take(i + 1).drop_last() =~= verses@.take(i as int));
        assert(verses@.take(i + 1).last() == verses@[i as int]);
        let ghost before = crate::text_chirho::spec_views_chirho(parts@);
        let v = &verses[i];
        match parse_usize_chirho(&chars_of_chirho(v.reference_chirho.as_str())) {
            Some(n) => {
                if lo <= n && n <= hi {
                    let mut part: Vec<char> = Vec::new();
                    if numbered {
                        part = decimal_string_chirho(n);
                        part.push('.');
                        part.push(' ');
                        extend_str_chirho(&mut part, v.text_chirho.as_str());
                        proof {
                            reveal_strlit(". ");
                        }
                        assert(part@ =~= spec_nat_decimal_chirho(n as nat) + ". "@ + v.text_chirho@);
                    } else {
                        extend_str_chirho(&mut part, v.text_chirho.as_str());
                        assert(part@ =~= v.text_chirho@);
                    }
                    parts.push(part);
                    assert(crate::text_chirho::spec_views_chirho(parts@) =~= before.push(part@));
                }
            },
            None => {},
        }
        i = i + 1;
    }
    assert(verses@.take(verses.len() as int) =~= verses@);
    let joined = crate::text_chirho::join_chirho(&parts, &chars_of_chirho(" "));
    let mut reference = String::from_str(book);
    reference.append(" ");
    reference.append(int_to_string_chirho(chapter as i64).as_str());
    reference.append(":");
    let lo_text = string_from_chars_chirho(&decimal_string_chirho(lo));
    reference.append(lo_text.as_str());
    reference.append("-");
    let hi_text = string_from_chars_chirho(&decimal_string_chirho(hi));
    reference.append(hi_text.as_str());
    proof {
        reveal_strlit(" ");
        reveal_strlit(":");
        reveal_strlit("-");
    }
    assert(reference@ =~= spec_selection_reference_chirho(book@, chapter, lo, hi));
    let text = string_from_chars_chirho(&joined);
    let formatted = copy_format_chirho(reference.as_str(), text.as_str(), format_index);
    Some((reference, formatted))
}

// ---------------------------------------------------------------------------
// Status line and toggles
// ---------------------------------------------------------------------------

/// The status line after a search: "Found `n` result(s) for '`query`'".
pub open spec fn spec_search_status_chirho(count: usize, query: Seq<char>) -> Seq<char> {
    "Found "@ + spec_nat_decimal_chirho(count as nat) + " result"@ + (if count == 1 {
        Seq::<char>::empty()
    } else {
        "s"@
    }) + " for '"@ + query + "'"@
}

/// The status line after a search that found `count` verses.
pub fn search_status_chirho(count: usize, query: &str) -> (r: String)
    ensures
        r@ == spec_search_status_chirho(count, query@),
{
    let mut t = String::from_str("Found ");
    t.append(string_from_chars_chirho(&decimal_string_chirho(count)).as_str());
    t.append(" result");
    if count != 1 {
        t.append("s");
    }
    t.append(" for '");
    t.append(query);
    t.append("'");
    proof {
        reveal_strlit("s");
    }
    assert(t@ =~= spec_search_status_chirho(count, query@));
    t
}

/// Whether a search query holds nothing but white space, so that the
/// search is not run ("Enter a search term").
pub fn search_query_is_blank_chirho(query: &str) -> (r: bool)
    ensures
        r == (spec_trim_chirho(query@).len() == 0),
{
    trim_chars_chirho(&chars_of_chirho(query)).len() == 0
}

/// The theme to switch to from the saved one: "light" from "dark" (the
/// default when none is saved), "dark" from anything else.
pub open spec fn spec_next_theme_chirho(saved: Option<Seq<char>>) -> Seq<char> {
    if (match saved {
        Some(s) => s == "dark"@,
        None => true,
    }) {
        "light"@
    } else {
        "dark"@
    }
}

/// The theme to switch to (see `spec_next_theme_chirho`).
pub fn next_theme_chirho(saved: &Option<String>) -> (r: &'static str)
    ensures
        r@ == spec_next_theme_chirho(
            match saved {
                Some(s) => Some(s@),
                None => None,
            },
        ),
{
    match saved {
        Some(s) => if str_eq_chirho(s.as_str(), "dark") {
            "light"
        } else {
            "dark"
        },
        None => "light",
    }
}

/// The status line after turning a display feature on or off: "`feature`
/// display enabled" or "... disabled".
pub fn toggle_message_chirho(feature: &str, enabled: bool) -> (r: String)
    ensures
        r@ == feature@ + " display "@ + (if enabled {
            "enabled"@
        } else {
            "disabled"@
        }),
{
    let mut t = String::from_str(feature);
    t.append(" display ");
    if enabled {
        t.append("enabled");
    } else {
        t.append("disabled");
    }
    t
}

/// The versification systems, in the order of their indexes.
pub open spec fn spec_versification_name_chirho(index: int) -> Seq<char> {
    if index == 0 {
        "KJV"@
    } else if index == 1 {
        "Catholic"@
    } else if index == 2 {
        "Orthodox"@
    } else if index == 3 {
        "LXX"@
    } else if index == 4 {
        "Vulgate"@
    } else if index == 5 {
        "Luther"@
    } else {
        "KJV"@
    }
}

/// The name of versification system `index` ("KJV" for an index out of
/// range).
pub fn versification_name_chirho(index: i32) -> (r: &'static str)
    ensures
        r@ == spec_versification_name_chirho(index as int),
{
    if index == 0 {
        "KJV"
    } else if index == 1 {
        "Catholic"
    } else if index == 2 {
        "Orthodox"
    } else if index == 3 {
        "LXX"
    } else if index == 4 {
        "Vulgate"
    } else if index == 5 {
        "Luther"
    } else {
        "KJV"
    }
}

/// An optional text field: `None` when it was left empty.
pub fn optional_text_chirho(s: &str) -> (r: Option<String>)
    ensures
        s@.len() == 0 <==> r is None,
        r matches Some(t) ==> t@ == s@,
{
    if chars_of_chirho(s).len() == 0 {
        None
    } else {
        Some(String::from_str(s))
    }
}

// ---------------------------------------------------------------------------
// Reading plans
// ---------------------------------------------------------------------------

/// Integer division as Rust computes it on signed integers: rounding toward
/// zero.
pub open spec fn spec_div_toward_zero_chirho(a: int, b: int) -> int {
    let q = (if a < 0 {
        -a
    } else {
        a
    }) / (if b < 0 {
        -b
    } else {
        b
    });
    if (a < 0) != (b < 0) {
        -q
    } else {
        q
    }
}

/// Marks day `day_number` of a plan done: the plan moves to the next day and
/// its progress becomes the share of days done, in percent, at most 100.
pub fn mark_day_complete_chirho(plan: &mut ReadingPlanChirho, day_number: i32)
    requires
        old(plan).total_days_chirho != 0,
        i32::MIN <= day_number * 100 <= i32::MAX,
        day_number < i32::MAX,
        !(day_number * 100 == i32::MIN && old(plan).total_days_chirho == -1),
    ensures
        final(plan).current_day_chirho == day_number + 1,
        final(plan).progress_percent_chirho == (if spec_div_toward_zero_chirho(
            day_number * 100,
            old(plan).total_days_chirho as int,
        ) < 100 {
            spec_div_toward_zero_chirho(day_number * 100, old(plan).total_days_chirho as int)
        } else {
            100
        }),
        final(plan).progress_percent_chirho <= 100,
        final(plan).id_chirho == old(plan).id_chirho,
        final(plan).total_days_chirho == old(plan).total_days_chirho,
        final(plan).is_active_chirho == old(plan).is_active_chirho,
{
    plan.current_day_chirho = day_number + 1;
    let a: i64 = day_number as i64 * 100;
    let b: i64 = plan.total_days_chirho as i64;
    let ua: u64 = if a < 0 {
        (0 - a) as u64
    } else {
        a as u64
    };
    let ub: u64 = if b < 0 {
        (0 - b) as u64
    } else {
        b as u64
    };
    let q: i64 = (ua / ub) as i64;
    let p: i32 = if (a < 0) != (b < 0) {
        (0 - q) as i32
    } else {
        q as i32
    };
    plan.progress_percent_chirho = if p < 100 {
        p
    } else {
        100
    };
}

/// The status line after a day of a plan is done.
pub fn day_complete_message_chirho(day_number: i32) -> (r: String)
    ensures
        r@ == "Day "@ + spec_int_decimal_chirho(day_number as int) + " complete! 🎉"@,
{
    let mut t = String::from_str("Day ");
    t.append(int_to_string_chirho(day_number as i64).as_str());
    t.append(" complete! 🎉");
    t
}

/// The place the first reference of a day's readings ("Genesis 1-3, Psalm
/// 4") leads to.
pub fn first_reading_reference_chirho(reading: &str) -> (r: Option<(String, i32, i32)>)
    ensures
        r matches Some(res) ==> spec_parse_reference_chirho(
            spec_trim_chirho(spec_first_field_chirho(reading@, ',')),
        ) matches Some(p) && res.0@ == spec_book_name_chirho(p.0) && res.1 == p.1 && res.2 == p.2,
        r is None ==> spec_parse_reference_chirho(
            spec_trim_chirho(spec_first_field_chirho(reading@, ',')),
        ) is None,
{
    let v = chars_of_chirho(reading);
    let k = find_char_chirho(&v, ',', 0);
    let field = subrange_chirho(&v, 0, k);
    assert(field@ =~= spec_first_field_chirho(reading@, ','));
    let first = trim_chars_chirho(&field);
    let text = string_from_chars_chirho(&first);
    parse_reference_chirho(text.as_str())
}

// ---------------------------------------------------------------------------
// Lexicon search history
// ---------------------------------------------------------------------------

/// The history after searching for `query`: unchanged when it already holds
/// the query; else the query first, then the earlier searches, five at
/// most.
pub open spec fn spec_lexicon_history_chirho(history: Seq<Seq<char>>, query: Seq<char>) -> Seq<Seq<char>> {
    if history.contains(query) {
        history
    } else {
        let h = seq![query] + history;
        if h.len() > 5 {
            h.take(5)
        } else {
            h
        }
    }
}

/// Records a lexicon search in the history (see
/// `spec_lexicon_history_chirho`).
pub fn push_lexicon_history_chirho(history: &mut Vec<String>, query: &str)
    ensures
        final(history)@.map_values(|s: String| s@) == spec_lexicon_history_chirho(
            old(history)@.map_values(|s: String| s@),
            query@,
        ),
{
    let ghost old_views = history@.map_values(|s: String| s@);
    let mut i: usize = 0;
    while i < history.len()
        invariant
            i <= history.len(),
            old_views == history@.map_values(|s: String| s@),
            forall|j: int| 0 <= j < i ==> old_views[j] != query@,
        decreases history.len() - i,
    {
        if str_eq_chirho(history[i].as_str(), query) {
            assert(old_views[i as int] == query@);
            assert(old_views.contains(query@));
            return;
        }
        i = i + 1;
    }
    assert(!old_views.contains(query@));
    history.insert(0, String::from_str(query));
    assert(history@.map_values(|s: String| s@) =~= seq![query@] + old_views);
    let ghost full = history@.map_values(|s: String| s@);
    history.truncate(5);
    assert(history@.map_values(|s: String| s@) =~= (if full.len() > 5 {
        full.take(5)
    } else {
        full
    }));
}

// ---------------------------------------------------------------------------
// Interlinear
// ---------------------------------------------------------------------------

/// The interlinear words to show for a verse: those read from the module,
/// or the sample words when there are none.
pub fn interlinear_or_sample_chirho(words: Vec<InterlinearWordChirho>, verse_ref: &str) -> (r: Vec<
    InterlinearWordChirho,
>)
    ensures
        words.len() > 0 ==> r@ == words@,
        words.len() == 0 ==> r@.map_values(|w: InterlinearWordChirho| w@)
            == spec_sample_interlinear_chirho(verse_ref@),
{
    if words.len() == 0 {
        get_sample_interlinear_chirho(verse_ref)
    } else {
        words
    }
}

// ---------------------------------------------------------------------------
// Journal and prayer panels
// ---------------------------------------------------------------------------

/// The journal panel's record of an entry: its id cut to `i32`, its title
/// ("Untitled" when empty) and a preview of its content (at most 100
/// bytes).
pub fn journal_display_chirho(e: &JournalEntryChirho) -> (r: JournalEntryDisplayChirho)
    ensures
        r.id_chirho == e.id_chirho as i32,
        r.title_chirho@ == (if e.title_chirho@.len() == 0 {
            "Untitled"@
        } else {
            e.title_chirho@
        }),
        exists|k: int|
            spec_fitting_prefix_chirho(e.content_chirho@, 100, k) && r.preview_chirho@
                == #[trigger] spec_preview_chirho(e.content_chirho@, 100, k),
{
    let title = if chars_of_chirho(e.title_chirho.as_str()).len() == 0 {
        String::from_str("Untitled")
    } else {
        e.title_chirho.clone()
    };
    JournalEntryDisplayChirho {
        id_chirho: e.id_chirho as i32,
        title_chirho: title,
        preview_chirho: preview_chirho(e.content_chirho.as_str(), 100),
    }
}

/// The text of an optional field, empty when absent.
pub open spec fn spec_or_empty_chirho(s: Option<String>) -> Seq<char> {
    match s {
        Some(t) => t@,
        None => Seq::empty(),
    }
}

fn or_empty_chirho(s: &Option<String>) -> (r: String)
    ensures
        r@ == spec_or_empty_chirho(*s),
{
    match s {
        Some(t) => t.clone(),
        None => String::new(),
    }
}

/// The prayer panel's record of a request: its id cut to `i32`, its fields
/// (empty when absent), whether it is answered, and the date it was made.
pub fn prayer_display_chirho(p: &PrayerRequestChirho) -> (r: PrayerRequestDisplayChirho)
    ensures
        r.id_chirho == p.id_chirho as i32,
        r.title_chirho@ == p.title_chirho@,
        r.description_chirho@ == spec_or_empty_chirho(p.description_chirho),
        r.verse_ref_chirho@ == spec_or_empty_chirho(p.verse_ref_chirho),
        r.category_chirho@ == spec_or_empty_chirho(p.category_chirho),
        r.is_answered_chirho == p.is_answered_chirho,
        r.date_chirho@ == spec_first_field_chirho(p.created_at_chirho@, ' '),
{
    PrayerRequestDisplayChirho {
        id_chirho: p.id_chirho as i32,
        title_chirho: p.title_chirho.clone(),
        description_chirho: or_empty_chirho(&p.description_chirho),
        verse_ref_chirho: or_empty_chirho(&p.verse_ref_chirho),
        category_chirho: or_empty_chirho(&p.category_chirho),
        is_answered_chirho: p.is_answered_chirho,
        date_chirho: format_timestamp_chirho(p.created_at_chirho.as_str()),
    }
}

} // verus!
