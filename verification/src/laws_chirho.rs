//! Properties of the library as a whole, proved over the specifications
//! that the functions' contracts use.

use vstd::prelude::*;
use crate::bible_engine_chirho::{spec_match_fn_chirho, spec_matches_query_chirho, spec_search_chirho};
use crate::actions_chirho::{spec_lexicon_history_chirho, spec_next_theme_chirho};
use crate::books_chirho::spec_book_name_chirho;
use crate::database_chirho::{spec_duration_hours_chirho, spec_duration_minutes_chirho};
use crate::display_chirho::{spec_fitting_prefix_chirho, spec_preview_chirho, spec_utf8_len_chirho};
use crate::nav_chirho::{
    spec_book_entries_chirho, spec_book_matches_chirho, spec_chapter_entries_chirho, spec_has_digit_chirho,
    spec_quick_nav_chirho,
};
use crate::books_chirho::spec_book_chapters_chirho;
use crate::reference_chirho::{
    lemma_first_match_is_full_name_chirho, lemma_parse_skip_chirho, spec_abbreviation_chirho,
    spec_abbreviation_matches_chirho, spec_full_name_index_chirho, spec_parse_from_chirho,
    spec_chapter_verse_chirho, spec_parse_reference_chirho, spec_remainder_chirho, spec_verse_text_chirho,
};
use crate::backend_chirho::{
    spec_restored_position_chirho, spec_saved_chapter_chirho, BOOK_SETTING_KEY_CHIRHO, CHAPTER_SETTING_KEY_CHIRHO,
    MODULE_SETTING_KEY_CHIRHO,
};
use crate::display_chirho::spec_verse_reference_chirho;
use crate::samples_chirho::{
    spec_votd_entry_chirho, spec_sample_interlinear_chirho, spec_sample_lexicon_chirho, spec_sample_verses_chirho,
    spec_strongs_fields_chirho, spec_sample_footnote_chirho, spec_sample_commentary_chirho,
};
use crate::morphology_chirho::{
    spec_greek_parts_chirho, spec_hebrew_label_chirho, spec_hebrew_parts_chirho,
    spec_parse_morphology_chirho,
};
use crate::text_chirho::{
    spec_contains_chirho, spec_join_chirho, spec_occurs_at_chirho, spec_split_chirho, spec_starts_with_chirho,
    spec_is_ascii_chirho, spec_nat_decimal_chirho,
};
use crate::text_chirho::{
    lemma_find_char_at_chirho, lemma_int_decimal_chars_chirho, lemma_int_decimal_parses_back_chirho,
    lemma_trim_unchanged_chirho, spec_after_first_chirho,
    spec_first_field_chirho, spec_first_non_ws_chirho, spec_end_non_ws_chirho, spec_int_decimal_chirho,
    spec_is_digit_chirho, spec_is_whitespace_chirho, spec_lower_chirho, spec_trim_chirho,
    spec_ascii_lower_char_chirho, spec_ascii_lowercase_chirho,
};

use crate::transfer_chirho::{
    spec_backup_json_chirho, spec_bookmark_entry_chirho, spec_bookmark_json_chirho, spec_bookmarks_json_chirho,
    spec_highlight_entry_chirho, spec_highlight_json_chirho, spec_highlights_json_chirho, spec_json_get_chirho,
    spec_json_items_chirho, spec_json_lookup_chirho, spec_note_entry_chirho, spec_note_json_chirho,
    spec_notes_json_chirho, ExportBookmarkChirho, ExportHighlightChirho, ExportNoteChirho, ImportBookmarkChirho,
    ImportHighlightChirho, ImportNoteChirho, JsonValueChirho,
};

verus! {

// ---------------------------------------------------------------------------
// Search
// ---------------------------------------------------------------------------

/// Every search result is one of the candidates and contains the query,
/// ignoring case; there are at most `max_results` of them (one when
/// `max_results` is 0).
pub proof fn law_search_results_match_chirho(
    candidates: Seq<(Seq<char>, Seq<char>)>,
    query: Seq<char>,
    max_results: int,
)
    ensures
        forall|i: int|
            0 <= i < spec_search_chirho(candidates, query, max_results).len() ==> {
                let r = #[trigger] spec_search_chirho(candidates, query, max_results)[i];
                candidates.contains(r) && spec_matches_query_chirho(r.1, query)
            },
        spec_search_chirho(candidates, query, max_results).len() <= (if max_results < 1 {
            1
        } else {
            max_results
        }),
{
    let f = spec_match_fn_chirho(query);
    let matches = candidates.filter_map(f);
    let r = spec_search_chirho(candidates, query, max_results);
    assert forall|i: int| 0 <= i < r.len() implies {
        let x = #[trigger] r[i];
        candidates.contains(x) && spec_matches_query_chirho(x.1, query)
    } by {
        assert(r[i] == matches[i]);
        assert(matches.contains(matches[i]));
        candidates.lemma_filter_map_contains(f, matches[i]);
        let j = choose|j: int| 0 <= j < candidates.len() && f(candidates[j]) == Some(matches[i]);
        assert(candidates[j] == matches[i]);
    }
}

/// Searching ignores case: queries with the same lower-case form find the
/// same verses.
pub proof fn law_search_ignores_case_chirho(
    candidates: Seq<(Seq<char>, Seq<char>)>,
    a: Seq<char>,
    b: Seq<char>,
    max_results: int,
)
    requires
        spec_lower_chirho(a) == spec_lower_chirho(b),
    ensures
        spec_search_chirho(candidates, a, max_results) == spec_search_chirho(candidates, b, max_results),
{
    assert(spec_match_fn_chirho(a) =~= spec_match_fn_chirho(b));
}

// ---------------------------------------------------------------------------
// Lexicon
// ---------------------------------------------------------------------------

/// Looking a word up in the sample lexicon ignores case: two queries with
/// the same lower-case form give the same entry, unless neither is found
/// (then each entry is titled with its own query).
pub proof fn law_lexicon_ignores_case_chirho(a: Seq<char>, b: Seq<char>)
    requires
        spec_lower_chirho(a) == spec_lower_chirho(b),
    ensures
        spec_sample_lexicon_chirho(a) == spec_sample_lexicon_chirho(b) || (
        spec_sample_lexicon_chirho(a).0 == a && spec_sample_lexicon_chirho(b).0 == b),
{
}

/// The group of known lexicon words that a lower-cased query names: 0 for
/// love, 1 for God, 2 for word, 3 for faith (each in English, transliterated
/// and in Greek), -1 for any other.
pub open spec fn spec_lexicon_group_chirho(l: Seq<char>) -> int {
    if l == "love"@ || l == "agape"@ || l == "ἀγάπη"@ {
        0
    } else if l == "god"@ || l == "theos"@ || l == "θεός"@ {
        1
    } else if l == "word"@ || l == "logos"@ || l == "λόγος"@ {
        2
    } else if l == "faith"@ || l == "pistis"@ || l == "πίστις"@ {
        3
    } else {
        -1
    }
}

/// Queries whose lower-case forms name words of the same group get the
/// same lexicon entry; a query that names none gets an entry titled with
/// the query itself, whose text starts "Entry '{query}' not found in sample
/// lexicon data.".
pub proof fn law_lexicon_groups_chirho(a: Seq<char>, b: Seq<char>)
    ensures
        spec_lexicon_group_chirho(spec_lower_chirho(a)) >= 0 && spec_lexicon_group_chirho(spec_lower_chirho(a))
            == spec_lexicon_group_chirho(spec_lower_chirho(b)) ==> spec_sample_lexicon_chirho(a)
            == spec_sample_lexicon_chirho(b),
        spec_lexicon_group_chirho(spec_lower_chirho(a)) < 0 ==> spec_sample_lexicon_chirho(a).0 == a
            && spec_starts_with_chirho(
            spec_sample_lexicon_chirho(a).1,
            "Entry '"@ + a + "' not found in sample lexicon data."@,
        ),
{
    let short = "' not found in sample lexicon data."@;
    let tail = "' not found in sample lexicon data.\n\n\
                Install lexicon modules (like Strong's Dictionary, Thayer's Greek Lexicon, \
                BDB Hebrew Lexicon) to look up word definitions.\n\n\
                You can also search by Strong's number (e.g., 'G26' or 'H430')."@;
    reveal_strlit("' not found in sample lexicon data.");
    reveal_strlit("' not found in sample lexicon data.\n\n\
                Install lexicon modules (like Strong's Dictionary, Thayer's Greek Lexicon, \
                BDB Hebrew Lexicon) to look up word definitions.\n\n\
                You can also search by Strong's number (e.g., 'G26' or 'H430').");
    assert(tail.take(short.len() as int) =~= short);
    let p = "Entry '"@ + a + short;
    let full = "Entry '"@ + a + tail;
    assert(full.take(p.len() as int) =~= p);
}

/// After a lexicon search the query is in the history; the history never
/// grows beyond five searches; and a history without repeats stays without
/// repeats.
pub proof fn law_lexicon_history_chirho(history: Seq<Seq<char>>, query: Seq<char>)
    ensures
        spec_lexicon_history_chirho(history, query).contains(query),
        history.len() <= 5 ==> spec_lexicon_history_chirho(history, query).len() <= 5,
        (forall|i: int, j: int| 0 <= i < j < history.len() ==> history[i] != history[j]) ==> (
        forall|i: int, j: int|
            0 <= i < j < spec_lexicon_history_chirho(history, query).len() ==> #[trigger] spec_lexicon_history_chirho(
                history,
                query,
            )[i] != #[trigger] spec_lexicon_history_chirho(history, query)[j]),
{
    let r = spec_lexicon_history_chirho(history, query);
    if !history.contains(query) {
        let h = seq![query] + history;
        assert(h[0] == query);
        if h.len() > 5 {
            assert(r[0] == query);
        }
        assert(r.contains(query)) by {
            assert(r[0] == query);
        }
        if forall|i: int, j: int| 0 <= i < j < history.len() ==> history[i] != history[j] {
            assert forall|i: int, j: int| 0 <= i < j < r.len() implies #[trigger] r[i] != #[trigger] r[j] by {
                assert(r[i] == h[i] && r[j] == h[j]);
                if i == 0 {
                    assert(h[j] == history[j - 1]);
                    assert(history.contains(history[j - 1]));
                } else {
                    assert(h[i] == history[i - 1] && h[j] == history[j - 1]);
                }
            }
        }
    }
}

// ---------------------------------------------------------------------------
// Quick navigation
// ---------------------------------------------------------------------------

/// The go-to box offers at most fifteen places; when the query holds a
/// digit and spells a reference whose chapter the matching books do not
/// list, that chapter comes first.
pub proof fn law_quick_nav_chirho(query: Seq<char>)
    ensures
        spec_quick_nav_chirho(query).len() <= 15,
        spec_has_digit_chirho(query) ==> (spec_parse_reference_chirho(query) matches Some(
            p,
        ) ==> ({
            let books = spec_book_entries_chirho(spec_lower_chirho(query), 0, Seq::empty());
            !(exists|i: int|
                0 <= i < books.len() && (#[trigger] books[i]).0 == spec_book_name_chirho(p.0)
                    && books[i].1 == p.1)
        }) ==> spec_quick_nav_chirho(query)[0] == (
            spec_book_name_chirho(p.0),
            p.1,
            Seq::<char>::empty(),
        )),
{
}

/// Whether no two entries name the same book and chapter.
pub open spec fn spec_nav_distinct_chirho(s: Seq<(Seq<char>, i32, Seq<char>)>) -> bool {
    forall|i: int, j: int|
        #![trigger s[i], s[j]]
        0 <= i < j < s.len() ==> !(s[i].0 == s[j].0 && s[i].1 == s[j].1)
}

/// No two books of the canon share a name.
proof fn lemma_book_names_distinct_chirho(i: int, j: int)
    requires
        0 <= i < 66,
        0 <= j < 66,
        i != j,
    ensures
        spec_book_name_chirho(i) != spec_book_name_chirho(j),
{
    let x = seq!['1'];
    lemma_first_match_is_full_name_chirho(i, x);
    lemma_first_match_is_full_name_chirho(j, x);
    if spec_book_name_chirho(i) == spec_book_name_chirho(j) {
        let fi = spec_full_name_index_chirho(i);
        let fj = spec_full_name_index_chirho(j);
        let lower = spec_ascii_lowercase_chirho(spec_book_name_chirho(i)) + seq![' '] + x;
        let a = spec_abbreviation_chirho(fi);
        assert(lower.take(a.len() as int) =~= a);
        assert(lower[a.len() as int] == ' ');
        assert(spec_abbreviation_matches_chirho(lower, a));
        assert(spec_abbreviation_chirho(fj) == a);
        if fi < fj {
            assert(!spec_abbreviation_matches_chirho(lower, spec_abbreviation_chirho(fi)));
        } else if fj < fi {
            assert(!spec_abbreviation_matches_chirho(lower, spec_abbreviation_chirho(fj)));
        }
    }
}

/// The book entries listed after `acc`, when `acc` lists only books before
/// `k` and no place twice, list no place twice.
proof fn lemma_book_entries_distinct_chirho(q: Seq<char>, k: int, acc: Seq<(Seq<char>, i32, Seq<char>)>)
    requires
        0 <= k <= 66,
        spec_nav_distinct_chirho(acc),
        forall|i: int|
            0 <= i < acc.len() ==> exists|b: int| 0 <= b < k && #[trigger] acc[i].0 == spec_book_name_chirho(b),
    ensures
        spec_nav_distinct_chirho(spec_book_entries_chirho(q, k, acc)),
    decreases 66 - k,
{
    if k < 66 {
        if spec_book_matches_chirho(q, k) {
            let name = spec_book_name_chirho(k);
            let with_first = acc.push((name, 1i32, Seq::<char>::empty()));
            let m = if spec_book_chapters_chirho(k) < 10 {
                spec_book_chapters_chirho(k)
            } else {
                10
            };
            let ch = spec_chapter_entries_chirho(k, 2, m);
            let with_chapters = if spec_lower_chirho(name) == q && with_first.len() < 10 {
                with_first + ch
            } else {
                with_first
            };
            assert forall|i: int| 0 <= i < acc.len() implies #[trigger] acc[i].0 != name by {
                let b = choose|b: int| 0 <= b < k && #[trigger] acc[i].0 == spec_book_name_chirho(b);
                lemma_book_names_distinct_chirho(b, k);
            }
            assert forall|i: int| acc.len() <= i < with_chapters.len() implies #[trigger] with_chapters[i].0
                == name && with_chapters[i].1 == (i - acc.len() + 1) by {
                if i > acc.len() {
                    assert(with_chapters[i] == ch[i - acc.len() - 1]);
                }
            }
            assert forall|i: int| 0 <= i < acc.len() implies #[trigger] with_chapters[i] == acc[i] by {}
            assert forall|i: int, j: int|
                #![trigger with_chapters[i], with_chapters[j]]
                0 <= i < j < with_chapters.len() implies !(with_chapters[i].0 == with_chapters[j].0
                && with_chapters[i].1 == with_chapters[j].1) by {
                if j < acc.len() {
                    assert(acc[i] == with_chapters[i] && acc[j] == with_chapters[j]);
                } else if i < acc.len() {
                    assert(acc[i].0 != name);
                }
            }
            assert forall|i: int| 0 <= i < with_chapters.len() implies exists|b: int|
                0 <= b < k + 1 && #[trigger] with_chapters[i].0 == spec_book_name_chirho(b) by {
                if i < acc.len() {
                    let b = choose|b: int| 0 <= b < k && #[trigger] acc[i].0 == spec_book_name_chirho(b);
                    assert(with_chapters[i].0 == spec_book_name_chirho(b));
                } else {
                    assert(with_chapters[i].0 == spec_book_name_chirho(k));
                }
            }
            if with_chapters.len() < 15 {
                lemma_book_entries_distinct_chirho(q, k + 1, with_chapters);
            }
        } else {
            assert forall|i: int| 0 <= i < acc.len() implies exists|b: int|
                0 <= b < k + 1 && #[trigger] acc[i].0 == spec_book_name_chirho(b) by {
                let b = choose|b: int| 0 <= b < k && #[trigger] acc[i].0 == spec_book_name_chirho(b);
                assert(acc[i].0 == spec_book_name_chirho(b));
            }
            lemma_book_entries_distinct_chirho(q, k + 1, acc);
        }
    }
}

/// The go-to box never offers the same book and chapter twice.
pub proof fn law_quick_nav_distinct_chirho(query: Seq<char>)
    ensures
        spec_nav_distinct_chirho(spec_quick_nav_chirho(query)),
{
    let q = spec_lower_chirho(query);
    lemma_book_entries_distinct_chirho(q, 0, Seq::empty());
    let books = spec_book_entries_chirho(q, 0, Seq::empty());
    let all = match spec_parse_reference_chirho(query) {
        Some((b, ch, _v)) => if spec_has_digit_chirho(query) && !(exists|i: int|
            0 <= i < books.len() && (#[trigger] books[i]).0 == spec_book_name_chirho(b)
                && books[i].1 == ch) {
            seq![(spec_book_name_chirho(b), ch, Seq::<char>::empty())] + books
        } else {
            books
        },
        None => books,
    };
    if all.len() != books.len() {
        assert forall|i: int, j: int|
            #![trigger all[i], all[j]]
            0 <= i < j < all.len() implies !(all[i].0 == all[j].0 && all[i].1 == all[j].1) by {
            assert(all[j] == books[j - 1]);
            if i > 0 {
                assert(all[i] == books[i - 1]);
            }
        }
    }
    assert(spec_nav_distinct_chirho(all));
    if all.len() > 15 {
        let t = all.take(15);
        assert forall|i: int, j: int|
            #![trigger t[i], t[j]]
            0 <= i < j < t.len() implies !(t[i].0 == t[j].0 && t[i].1 == t[j].1) by {
            assert(t[i] == all[i] && t[j] == all[j]);
        }
    }
}

// ---------------------------------------------------------------------------
// Durations and previews
// ---------------------------------------------------------------------------

/// A duration of zero or more seconds splits into whole hours and the
/// minutes left over: fewer than sixty minutes, and less than a minute of
/// seconds dropped.
pub proof fn law_duration_split_chirho(seconds: int)
    requires
        seconds >= 0,
    ensures
        0 <= spec_duration_minutes_chirho(seconds) < 60,
        0 <= spec_duration_hours_chirho(seconds),
        spec_duration_hours_chirho(seconds) * 3600 + spec_duration_minutes_chirho(seconds) * 60
            <= seconds,
        seconds < spec_duration_hours_chirho(seconds) * 3600 + spec_duration_minutes_chirho(seconds)
            * 60 + 60,
{
}

/// The UTF-8 length of a concatenation is the sum of the lengths.
proof fn lemma_utf8_len_add_chirho(a: Seq<char>, b: Seq<char>)
    ensures
        spec_utf8_len_chirho(a + b) == spec_utf8_len_chirho(a) + spec_utf8_len_chirho(b),
    decreases b.len(),
{
    if b.len() == 0 {
        assert(a + b =~= a);
    } else {
        lemma_utf8_len_add_chirho(a, b.drop_last());
        assert((a + b).drop_last() =~= a + b.drop_last());
    }
}

/// A preview never takes more than its limit plus the three bytes of
/// "...", and it is the whole text whenever the text fits.
pub proof fn law_preview_bounds_chirho(s: Seq<char>, limit: int, k: int)
    requires
        spec_fitting_prefix_chirho(s, limit, k),
    ensures
        spec_utf8_len_chirho(spec_preview_chirho(s, limit, k)) <= limit + 3,
        spec_utf8_len_chirho(s) <= limit ==> spec_preview_chirho(s, limit, k) == s,
{
    if spec_utf8_len_chirho(s) > limit {
        reveal_strlit("...");
        lemma_utf8_len_add_chirho(s.take(k), "..."@);
        assert(spec_utf8_len_chirho("..."@) == 3) by {
            let d = "..."@;
            assert(d =~= seq!['.', '.', '.']);
            assert(seq!['.', '.', '.'].drop_last() =~= seq!['.', '.']);
            assert(seq!['.', '.'].drop_last() =~= seq!['.']);
            assert(seq!['.'].drop_last() =~= Seq::<char>::empty());
            reveal_with_fuel(spec_utf8_len_chirho, 4);
        }
    }
}

// ---------------------------------------------------------------------------
// Written references and settings read back
// ---------------------------------------------------------------------------

/// A chapter is remembered as the decimal text of its number, and reading
/// that setting back gives the same chapter.
pub proof fn law_saved_chapter_round_trip_chirho(chapter: i32)
    ensures
        spec_saved_chapter_chirho(Some(spec_int_decimal_chirho(chapter as int))) == chapter,
{
    lemma_int_decimal_parses_back_chirho(chapter as int);
}

/// The place saved on navigating (module, book, and chapter as its decimal
/// text) is the place restored on the next start; the three are saved under
/// three different setting keys, so saving one never replaces another.
pub proof fn law_saved_place_restored_chirho(module: Seq<char>, book: Seq<char>, chapter: i32)
    ensures
        spec_restored_position_chirho(
            Some(module),
            Some(book),
            Some(spec_int_decimal_chirho(chapter as int)),
        ) == (module, book, chapter),
        MODULE_SETTING_KEY_CHIRHO@ != BOOK_SETTING_KEY_CHIRHO@,
        MODULE_SETTING_KEY_CHIRHO@ != CHAPTER_SETTING_KEY_CHIRHO@,
        BOOK_SETTING_KEY_CHIRHO@ != CHAPTER_SETTING_KEY_CHIRHO@,
{
    law_saved_chapter_round_trip_chirho(chapter);
    reveal_strlit("current_module");
    reveal_strlit("current_book");
    reveal_strlit("current_chapter");
    assert(MODULE_SETTING_KEY_CHIRHO@[8] != BOOK_SETTING_KEY_CHIRHO@[8]);
    assert(MODULE_SETTING_KEY_CHIRHO@.len() != CHAPTER_SETTING_KEY_CHIRHO@.len());
    assert(BOOK_SETTING_KEY_CHIRHO@.len() != CHAPTER_SETTING_KEY_CHIRHO@.len());
}

/// A reference that the application writes for a book of the canon
/// ("book chapter:verse", with a verse of 0 or more) parses back to that
/// book, chapter and verse: every canonical name is read as itself, never as
/// another book whose name or abbreviation it starts with.
pub proof fn law_written_reference_parses_back_chirho(k: int, chapter: i32, verse: i32)
    requires
        0 <= k < 66,
        verse >= 0,
    ensures
        spec_parse_reference_chirho(
            spec_verse_reference_chirho(spec_book_name_chirho(k), chapter as int, verse as int),
        ) == Some((k, chapter, verse)),
{
    let name = spec_book_name_chirho(k);
    let dc = spec_int_decimal_chirho(chapter as int);
    let dv = spec_int_decimal_chirho(verse as int);
    let x = dc + seq![':'] + dv;
    let t = spec_verse_reference_chirho(name, chapter as int, verse as int);
    lemma_int_decimal_chars_chirho(chapter as int);
    lemma_int_decimal_chars_chirho(verse as int);
    assert(x[0] == dc[0]);
    lemma_first_match_is_full_name_chirho(k, x);
    assert(t =~= name + seq![' '] + x);
    // The reference is already trimmed.
    assert(t[0] == name[0]);
    assert(t[t.len() - 1] == dv.last());
    lemma_trim_unchanged_chirho(t);
    // It is ASCII, so lower-casing leaves everything but the name alone.
    assert forall|j: int| 0 <= j < x.len() implies (#[trigger] x[j] as u32) < 128
        && spec_ascii_lower_char_chirho(x[j]) == x[j] by {
        if j < dc.len() {
            assert(x[j] == dc[j]);
        } else if j > dc.len() {
            assert(x[j] == dv[j - dc.len() - 1]);
        }
    }
    assert forall|j: int| 0 <= j < t.len() implies (#[trigger] t[j] as u32) < 128 by {
        if j < name.len() {
            assert(t[j] == name[j]);
        } else if j > name.len() {
            assert(t[j] == x[j - name.len() - 1]);
        }
    }
    let lname = spec_ascii_lowercase_chirho(name);
    let lower = lname + seq![' '] + x;
    assert(spec_ascii_lowercase_chirho(t) =~= lower) by {
        assert forall|j: int| 0 <= j < t.len() implies #[trigger] spec_ascii_lowercase_chirho(t)[j] == lower[j] by {
            if j < name.len() {
                assert(t[j] == name[j]);
            } else if j > name.len() {
                assert(t[j] == x[j - name.len() - 1]);
            }
        }
    }
    assert(spec_lower_chirho(t) == lower);
    // Every abbreviation before the full name fails to match.
    let idx = spec_full_name_index_chirho(k);
    lemma_parse_skip_chirho(t, lower, 0, idx);
    // The full name matches, and the rest reads back.
    let a = spec_abbreviation_chirho(idx);
    assert(a == lname);
    assert(lower.take(a.len() as int) =~= a);
    assert(lower[a.len() as int] == ' ');
    assert(spec_abbreviation_matches_chirho(lower, a));
    law_written_chapter_verse_reads_back_chirho(name, chapter, verse);
    assert(spec_parse_from_chirho(t, lower, idx) == Some((k, chapter, verse)));
}

/// A chapter reference written for a book of the canon ("book chapter",
/// without a verse) parses back to that book and chapter, at verse 1.
pub proof fn law_written_chapter_reference_parses_back_chirho(k: int, chapter: i32)
    requires
        0 <= k < 66,
    ensures
        spec_parse_reference_chirho(
            spec_book_name_chirho(k) + seq![' '] + spec_int_decimal_chirho(chapter as int),
        ) == Some((k, chapter, 1i32)),
{
    let name = spec_book_name_chirho(k);
    let dc = spec_int_decimal_chirho(chapter as int);
    let t = name + seq![' '] + dc;
    lemma_int_decimal_chars_chirho(chapter as int);
    lemma_int_decimal_parses_back_chirho(chapter as int);
    lemma_first_match_is_full_name_chirho(k, dc);
    assert(t[0] == name[0]);
    assert(t[t.len() - 1] == dc.last());
    lemma_trim_unchanged_chirho(t);
    assert forall|j: int| 0 <= j < dc.len() implies (#[trigger] dc[j] as u32) < 128
        && spec_ascii_lower_char_chirho(dc[j]) == dc[j] by {
        assert(spec_is_digit_chirho(dc[j]) || dc[j] == '-');
    }
    assert forall|j: int| 0 <= j < t.len() implies (#[trigger] t[j] as u32) < 128 by {
        if j < name.len() {
            assert(t[j] == name[j]);
        } else if j > name.len() {
            assert(t[j] == dc[j - name.len() - 1]);
        }
    }
    let lname = spec_ascii_lowercase_chirho(name);
    let lower = lname + seq![' '] + dc;
    assert(spec_ascii_lowercase_chirho(t) =~= lower) by {
        assert forall|j: int| 0 <= j < t.len() implies #[trigger] spec_ascii_lowercase_chirho(t)[j] == lower[j] by {
            if j < name.len() {
                assert(t[j] == name[j]);
            } else if j > name.len() {
                assert(t[j] == dc[j - name.len() - 1]);
            }
        }
    }
    assert(spec_lower_chirho(t) == lower);
    let idx = spec_full_name_index_chirho(k);
    lemma_parse_skip_chirho(t, lower, 0, idx);
    let a = spec_abbreviation_chirho(idx);
    assert(a == lname);
    assert(lower.take(a.len() as int) =~= a);
    assert(lower[a.len() as int] == ' ');
    assert(spec_abbreviation_matches_chirho(lower, a));
    // What follows the name is the chapter alone.
    let u = seq![' '] + dc;
    assert(t.skip(name.len() as int) =~= u);
    assert(!spec_is_whitespace_chirho(dc[0])) by {
        assert(spec_is_digit_chirho(dc[0]) || dc[0] == '-');
    }
    assert(spec_first_non_ws_chirho(u, 1) == 1) by {
        assert(u[1] == dc[0]);
    }
    assert(spec_first_non_ws_chirho(u, 0) == 1);
    assert(u[u.len() - 1] == dc.last());
    assert(spec_end_non_ws_chirho(u, u.len() as int) == u.len());
    assert(spec_trim_chirho(u) =~= dc);
    assert(spec_remainder_chirho(t, name.len() as int) == dc);
    assert forall|j: int| 0 <= j < dc.len() implies dc[j] != ':' by {
        assert(spec_is_digit_chirho(dc[j]) || dc[j] == '-');
    }
    lemma_find_char_at_chirho(dc, ':', 0, dc.len() as int);
    assert(spec_first_field_chirho(dc, ':') =~= dc);
    lemma_trim_unchanged_chirho(dc);
    assert(spec_after_first_chirho(dc, ':') is None);
    // The verse defaults to 1.
    let one = spec_int_decimal_chirho(1);
    lemma_int_decimal_chars_chirho(1);
    lemma_int_decimal_parses_back_chirho(1);
    assert(one =~= "1"@) by {
        reveal_strlit("1");
        assert(one.len() == 1);
    }
    assert(spec_verse_text_chirho(dc) == "1"@);
    lemma_find_char_at_chirho(one, '-', 0, one.len() as int);
    assert(spec_first_field_chirho(one, '-') =~= one);
    lemma_trim_unchanged_chirho(one);
    assert(spec_chapter_verse_chirho(dc) == Some((chapter, 1i32)));
    assert(spec_parse_from_chirho(t, lower, idx) == Some((k, chapter, 1i32)));
}

/// Parsing from abbreviation `j` on finds a place when abbreviation `idx`,
/// at `j` or after it, matches with a chapter that reads.
proof fn lemma_parse_from_some_chirho(t: Seq<char>, lower: Seq<char>, j: int, idx: int)
    requires
        0 <= j <= idx < 179,
        spec_abbreviation_matches_chirho(lower, spec_abbreviation_chirho(idx)),
        spec_chapter_verse_chirho(spec_remainder_chirho(t, spec_abbreviation_chirho(idx).len() as int))
            is Some,
    ensures
        spec_parse_from_chirho(t, lower, j) is Some,
    decreases idx - j,
{
    if j < idx {
        lemma_parse_from_some_chirho(t, lower, j + 1, idx);
    }
}

/// A reference "name chapter:rest" parses when `name`, lower-cased, is an
/// accepted name or abbreviation and the text is ASCII and ends in no white
/// space.
proof fn lemma_named_reference_parses_chirho(name: Seq<char>, idx: int, chapter: i32, y: Seq<char>)
    requires
        0 <= idx < 179,
        spec_abbreviation_chirho(idx) == spec_ascii_lowercase_chirho(name),
        name.len() > 0,
        !spec_is_whitespace_chirho(name[0]),
        spec_is_ascii_chirho(name),
        y.len() > 0,
        !spec_is_whitespace_chirho(y[y.len() - 1]),
        spec_is_ascii_chirho(y),
    ensures
        spec_parse_reference_chirho(
            name + seq![' '] + spec_int_decimal_chirho(chapter as int) + seq![':'] + y,
        ) is Some,
{
    let dc = spec_int_decimal_chirho(chapter as int);
    lemma_int_decimal_chars_chirho(chapter as int);
    lemma_int_decimal_parses_back_chirho(chapter as int);
    let w = dc + seq![':'] + y;
    let t = name + seq![' '] + w;
    assert(name + seq![' '] + dc + seq![':'] + y =~= t);
    assert(t[0] == name[0]);
    assert(t[t.len() - 1] == y[y.len() - 1]);
    lemma_trim_unchanged_chirho(t);
    assert forall|j: int| 0 <= j < t.len() implies (#[trigger] t[j] as u32) < 128 by {
        if j < name.len() {
            assert(t[j] == name[j]);
        } else if j > name.len() {
            let m = j - name.len() - 1;
            assert(t[j] == w[m]);
            if m < dc.len() {
                assert(w[m] == dc[m]);
                assert(spec_is_digit_chirho(dc[m]) || dc[m] == '-');
            } else if m > dc.len() {
                assert(w[m] == y[m - dc.len() - 1]);
            }
        }
    }
    let lower = spec_lower_chirho(t);
    assert(lower == spec_ascii_lowercase_chirho(t));
    let a = spec_abbreviation_chirho(idx);
    assert(a.len() == name.len());
    assert(lower.take(a.len() as int) =~= a) by {
        assert forall|j: int| 0 <= j < a.len() implies #[trigger] lower.take(a.len() as int)[j] == a[j] by {
            assert(t[j] == name[j]);
        }
    }
    assert(lower[a.len() as int] == ' ') by {
        assert(t[name.len() as int] == ' ');
    }
    assert(spec_abbreviation_matches_chirho(lower, a));
    // What follows the name is "chapter:rest".
    let u = seq![' '] + w;
    assert(t.skip(name.len() as int) =~= u);
    assert(!spec_is_whitespace_chirho(dc[0])) by {
        assert(spec_is_digit_chirho(dc[0]) || dc[0] == '-');
    }
    assert(spec_first_non_ws_chirho(u, 1) == 1) by {
        assert(u[1] == dc[0]);
    }
    assert(spec_first_non_ws_chirho(u, 0) == 1);
    assert(u[u.len() - 1] == y[y.len() - 1]);
    assert(spec_end_non_ws_chirho(u, u.len() as int) == u.len());
    assert(spec_trim_chirho(u) =~= w);
    assert(spec_remainder_chirho(t, a.len() as int) == w);
    assert forall|j: int| 0 <= j < dc.len() implies w[j] != ':' by {
        assert(w[j] == dc[j]);
        assert(spec_is_digit_chirho(dc[j]) || dc[j] == '-');
    }
    assert(w[dc.len() as int] == ':');
    lemma_find_char_at_chirho(w, ':', 0, dc.len() as int);
    assert(spec_first_field_chirho(w, ':') =~= dc);
    lemma_trim_unchanged_chirho(dc);
    assert(spec_chapter_verse_chirho(w) is Some);
    lemma_parse_from_some_chirho(t, lower, 0, idx);
}

/// "book chapter:rest" parses for a book of the canon, when the rest is
/// ASCII and ends in no white space.
proof fn lemma_votd_canonical_chirho(k: int, chapter: i32, y: Seq<char>)
    requires
        0 <= k < 66,
        y.len() > 0,
        !spec_is_whitespace_chirho(y[y.len() - 1]),
        spec_is_ascii_chirho(y),
    ensures
        spec_parse_reference_chirho(
            spec_book_name_chirho(k) + seq![' '] + spec_int_decimal_chirho(chapter as int) + seq![':'] + y,
        ) is Some,
{
    lemma_first_match_is_full_name_chirho(k, seq!['1']);
    lemma_named_reference_parses_chirho(spec_book_name_chirho(k), spec_full_name_index_chirho(k), chapter, y);
}

/// "Psalm chapter:rest" parses, when the rest is ASCII and ends in no white
/// space.
proof fn lemma_votd_psalm_chirho(chapter: i32, y: Seq<char>)
    requires
        y.len() > 0,
        !spec_is_whitespace_chirho(y[y.len() - 1]),
        spec_is_ascii_chirho(y),
    ensures
        spec_parse_reference_chirho("Psalm"@ + seq![' '] + spec_int_decimal_chirho(chapter as int) + seq![':'] + y)
            is Some,
{
    reveal_strlit("Psalm");
    reveal_strlit("psalm");
    assert(spec_ascii_lowercase_chirho("Psalm"@) =~= "psalm"@);
    assert(spec_abbreviation_chirho(50) == "psalm"@);
    lemma_named_reference_parses_chirho("Psalm"@, 50, chapter, y);
}

/// The curated verses of the day 0 to 7 parse.
#[verifier::rlimit(100)]
#[verifier::spinoff_prover]
proof fn lemma_votd_parse_first_chirho(i: int)
    requires
        0 <= i < 8,
    ensures
        spec_parse_reference_chirho(spec_votd_entry_chirho(i).0) is Some,
{
    if i == 0 {
        assert(spec_parse_reference_chirho(spec_votd_entry_chirho(0).0) is Some) by {
            reveal_with_fuel(spec_nat_decimal_chirho, 4);
            reveal_strlit("John 3:16");
            reveal_strlit("John");
            lemma_votd_canonical_chirho(42, 3, seq!['1', '6']);
            assert(spec_votd_entry_chirho(0).0 =~= spec_book_name_chirho(42) + seq![' '] + spec_int_decimal_chirho(3) + seq![':'] + seq!['1', '6']);
        }
    } else if i == 1 {
        assert(spec_parse_reference_chirho(spec_votd_entry_chirho(1).0) is Some) by {
            reveal_with_fuel(spec_nat_decimal_chirho, 4);
            reveal_strlit("Psalm 23:1");
            reveal_strlit("Psalm");
            lemma_votd_psalm_chirho(23, seq!['1']);
            assert(spec_votd_entry_chirho(1).0 =~= "Psalm"@ + seq![' '] + spec_int_decimal_chirho(23) + seq![':'] + seq!['1']);
        }
    } else if i == 2 {
        assert(spec_parse_reference_chirho(spec_votd_entry_chirho(2).0) is Some) by {
            reveal_with_fuel(spec_nat_decimal_chirho, 4);
            reveal_strlit("Jeremiah 29:11");
            reveal_strlit("Jeremiah");
            lemma_votd_canonical_chirho(23, 29, seq!['1', '1']);
            assert(spec_votd_entry_chirho(2).0 =~= spec_book_name_chirho(23) + seq![' '] + spec_int_decimal_chirho(29) + seq![':'] + seq!['1', '1']);
        }
    } else if i == 3 {
        assert(spec_parse_reference_chirho(spec_votd_entry_chirho(3).0) is Some) by {
            reveal_with_fuel(spec_nat_decimal_chirho, 4);
            reveal_strlit("Romans 8:28");
            reveal_strlit("Romans");
            lemma_votd_canonical_chirho(44, 8, seq!['2', '8']);
            assert(spec_votd_entry_chirho(3).0 =~= spec_book_name_chirho(44) + seq![' '] + spec_int_decimal_chirho(8) + seq![':'] + seq!['2', '8']);
        }
    } else if i == 4 {
        assert(spec_parse_reference_chirho(spec_votd_entry_chirho(4).0) is Some) by {
            reveal_with_fuel(spec_nat_decimal_chirho, 4);
            reveal_strlit("Philippians 4:13");
            reveal_strlit("Philippians");
            lemma_votd_canonical_chirho(49, 4, seq!['1', '3']);
            assert(spec_votd_entry_chirho(4).0 =~= spec_book_name_chirho(49) + seq![' '] + spec_int_decimal_chirho(4) + seq![':'] + seq!['1', '3']);
        }
    } else if i == 5 {
        assert(spec_parse_reference_chirho(spec_votd_entry_chirho(5).0) is Some) by {
            reveal_with_fuel(spec_nat_decimal_chirho, 4);
            reveal_strlit("Proverbs 3:5-6");
            reveal_strlit("Proverbs");
            lemma_votd_canonical_chirho(19, 3, seq!['5', '-', '6']);
            assert(spec_votd_entry_chirho(5).0 =~= spec_book_name_chirho(19) + seq![' '] + spec_int_decimal_chirho(3) + seq![':'] + seq!['5', '-', '6']);
        }
    } else if i == 6 {
        assert(spec_parse_reference_chirho(spec_votd_entry_chirho(6).0) is Some) by {
            reveal_with_fuel(spec_nat_decimal_chirho, 4);
            reveal_strlit("Isaiah 40:31");
            reveal_strlit("Isaiah");
            lemma_votd_canonical_chirho(22, 40, seq!['3', '1']);
            assert(spec_votd_entry_chirho(6).0 =~= spec_book_name_chirho(22) + seq![' '] + spec_int_decimal_chirho(40) + seq![':'] + seq!['3', '1']);
        }
    } else if i == 7 {
        assert(spec_parse_reference_chirho(spec_votd_entry_chirho(7).0) is Some) by {
            reveal_with_fuel(spec_nat_decimal_chirho, 4);
            reveal_strlit("Psalm 46:1");
            reveal_strlit("Psalm");
            lemma_votd_psalm_chirho(46, seq!['1']);
            assert(spec_votd_entry_chirho(7).0 =~= "Psalm"@ + seq![' '] + spec_int_decimal_chirho(46) + seq![':'] + seq!['1']);
        }
    }
}

/// The curated verses of the day 8 to 15 parse.
#[verifier::rlimit(100)]
#[verifier::spinoff_prover]
proof fn lemma_votd_parse_second_chirho(i: int)
    requires
        8 <= i < 16,
    ensures
        spec_parse_reference_chirho(spec_votd_entry_chirho(i).0) is Some,
{
    if i == 8 {
        assert(spec_parse_reference_chirho(spec_votd_entry_chirho(8).0) is Some) by {
            reveal_with_fuel(spec_nat_decimal_chirho, 4);
            reveal_strlit("Romans 12:2");
            reveal_strlit("Romans");
            lemma_votd_canonical_chirho(44, 12, seq!['2']);
            assert(spec_votd_entry_chirho(8).0 =~= spec_book_name_chirho(44) + seq![' '] + spec_int_decimal_chirho(12) + seq![':'] + seq!['2']);
        }
    } else if i == 9 {
        assert(spec_parse_reference_chirho(spec_votd_entry_chirho(9).0) is Some) by {
            reveal_with_fuel(spec_nat_decimal_chirho, 4);
            reveal_strlit("Matthew 6:33");
            reveal_strlit("Matthew");
            lemma_votd_canonical_chirho(39, 6, seq!['3', '3']);
            assert(spec_votd_entry_chirho(9).0 =~= spec_book_name_chirho(39) + seq![' '] + spec_int_decimal_chirho(6) + seq![':'] + seq!['3', '3']);
        }
    } else if i == 10 {
        assert(spec_parse_reference_chirho(spec_votd_entry_chirho(10).0) is Some) by {
            reveal_with_fuel(spec_nat_decimal_chirho, 4);
            reveal_strlit("Psalm 119:105");
            reveal_strlit("Psalm");
            lemma_votd_psalm_chirho(119, seq!['1', '0', '5']);
            assert(spec_votd_entry_chirho(10).0 =~= "Psalm"@ + seq![' '] + spec_int_decimal_chirho(119) + seq![':'] + seq!['1', '0', '5']);
        }
    } else if i == 11 {
        assert(spec_parse_reference_chirho(spec_votd_entry_chirho(11).0) is Some) by {
            reveal_with_fuel(spec_nat_decimal_chirho, 4);
            reveal_strlit("Ephesians 2:8-9");
            reveal_strlit("Ephesians");
            lemma_votd_canonical_chirho(48, 2, seq!['8', '-', '9']);
            assert(spec_votd_entry_chirho(11).0 =~= spec_book_name_chirho(48) + seq![' '] + spec_int_decimal_chirho(2) + seq![':'] + seq!['8', '-', '9']);
        }
    } else if i == 12 {
        assert(spec_parse_reference_chirho(spec_votd_entry_chirho(12).0) is Some) by {
            reveal_with_fuel(spec_nat_decimal_chirho, 4);
            reveal_strlit("Joshua 1:9");
            reveal_strlit("Joshua");
            lemma_votd_canonical_chirho(5, 1, seq!['9']);
            assert(spec_votd_entry_chirho(12).0 =~= spec_book_name_chirho(5) + seq![' '] + spec_int_decimal_chirho(1) + seq![':'] + seq!['9']);
        }
    } else if i == 13 {
        assert(spec_parse_reference_chirho(spec_votd_entry_chirho(13).0) is Some) by {
            reveal_with_fuel(spec_nat_decimal_chirho, 4);
            reveal_strlit("1 Corinthians 13:4-5");
            reveal_strlit("1 Corinthians");
            lemma_votd_canonical_chirho(45, 13, seq!['4', '-', '5']);
            assert(spec_votd_entry_chirho(13).0 =~= spec_book_name_chirho(45) + seq![' '] + spec_int_decimal_chirho(13) + seq![':'] + seq!['4', '-', '5']);
        }
    } else if i == 14 {
        assert(spec_parse_reference_chirho(spec_votd_entry_chirho(14).0) is Some) by {
            reveal_with_fuel(spec_nat_decimal_chirho, 4);
            reveal_strlit("Psalm 27:1");
            reveal_strlit("Psalm");
            lemma_votd_psalm_chirho(27, seq!['1']);
            assert(spec_votd_entry_chirho(14).0 =~= "Psalm"@ + seq![' '] + spec_int_decimal_chirho(27) + seq![':'] + seq!['1']);
        }
    } else if i == 15 {
        assert(spec_parse_reference_chirho(spec_votd_entry_chirho(15).0) is Some) by {
            reveal_with_fuel(spec_nat_decimal_chirho, 4);
            reveal_strlit("Galatians 5:22-23");
            reveal_strlit("Galatians");
            lemma_votd_canonical_chirho(47, 5, seq!['2', '2', '-', '2', '3']);
            assert(spec_votd_entry_chirho(15).0 =~= spec_book_name_chirho(47) + seq![' '] + spec_int_decimal_chirho(5) + seq![':'] + seq!['2', '2', '-', '2', '3']);
        }
    }
}

/// The curated verses of the day 16 to 23 parse.
#[verifier::rlimit(100)]
#[verifier::spinoff_prover]
proof fn lemma_votd_parse_third_chirho(i: int)
    requires
        16 <= i < 24,
    ensures
        spec_parse_reference_chirho(spec_votd_entry_chirho(i).0) is Some,
{
    if i == 16 {
        assert(spec_parse_reference_chirho(spec_votd_entry_chirho(16).0) is Some) by {
            reveal_with_fuel(spec_nat_decimal_chirho, 4);
            reveal_strlit("Matthew 11:28");
            reveal_strlit("Matthew");
            lemma_votd_canonical_chirho(39, 11, seq!['2', '8']);
            assert(spec_votd_entry_chirho(16).0 =~= spec_book_name_chirho(39) + seq![' '] + spec_int_decimal_chirho(11) + seq![':'] + seq!['2', '8']);
        }
    } else if i == 17 {
        assert(spec_parse_reference_chirho(spec_votd_entry_chirho(17).0) is Some) by {
            reveal_with_fuel(spec_nat_decimal_chirho, 4);
            reveal_strlit("2 Timothy 1:7");
            reveal_strlit("2 Timothy");
            lemma_votd_canonical_chirho(54, 1, seq!['7']);
            assert(spec_votd_entry_chirho(17).0 =~= spec_book_name_chirho(54) + seq![' '] + spec_int_decimal_chirho(1) + seq![':'] + seq!['7']);
        }
    } else if i == 18 {
        assert(spec_parse_reference_chirho(spec_votd_entry_chirho(18).0) is Some) by {
            reveal_with_fuel(spec_nat_decimal_chirho, 4);
            reveal_strlit("Hebrews 11:1");
            reveal_strlit("Hebrews");
            lemma_votd_canonical_chirho(57, 11, seq!['1']);
            assert(spec_votd_entry_chirho(18).0 =~= spec_book_name_chirho(57) + seq![' '] + spec_int_decimal_chirho(11) + seq![':'] + seq!['1']);
        }
    } else if i == 19 {
        assert(spec_parse_reference_chirho(spec_votd_entry_chirho(19).0) is Some) by {
            reveal_with_fuel(spec_nat_decimal_chirho, 4);
            reveal_strlit("Psalm 37:4");
            reveal_strlit("Psalm");
            lemma_votd_psalm_chirho(37, seq!['4']);
            assert(spec_votd_entry_chirho(19).0 =~= "Psalm"@ + seq![' '] + spec_int_decimal_chirho(37) + seq![':'] + seq!['4']);
        }
    } else if i == 20 {
        assert(spec_parse_reference_chirho(spec_votd_entry_chirho(20).0) is Some) by {
            reveal_with_fuel(spec_nat_decimal_chirho, 4);
            reveal_strlit("Romans 5:8");
            reveal_strlit("Romans");
            lemma_votd_canonical_chirho(44, 5, seq!['8']);
            assert(spec_votd_entry_chirho(20).0 =~= spec_book_name_chirho(44) + seq![' '] + spec_int_decimal_chirho(5) + seq![':'] + seq!['8']);
        }
    } else if i == 21 {
        assert(spec_parse_reference_chirho(spec_votd_entry_chirho(21).0) is Some) by {
            reveal_with_fuel(spec_nat_decimal_chirho, 4);
            reveal_strlit("2 Corinthians 5:17");
            reveal_strlit("2 Corinthians");
            lemma_votd_canonical_chirho(46, 5, seq!['1', '7']);
            assert(spec_votd_entry_chirho(21).0 =~= spec_book_name_chirho(46) + seq![' '] + spec_int_decimal_chirho(5) + seq![':'] + seq!['1', '7']);
        }
    } else if i == 22 {
        assert(spec_parse_reference_chirho(spec_votd_entry_chirho(22).0) is Some) by {
            reveal_with_fuel(spec_nat_decimal_chirho, 4);
            reveal_strlit("Psalm 91:1-2");
            reveal_strlit("Psalm");
            lemma_votd_psalm_chirho(91, seq!['1', '-', '2']);
            assert(spec_votd_entry_chirho(22).0 =~= "Psalm"@ + seq![' '] + spec_int_decimal_chirho(91) + seq![':'] + seq!['1', '-', '2']);
        }
    } else if i == 23 {
        assert(spec_parse_reference_chirho(spec_votd_entry_chirho(23).0) is Some) by {
            reveal_with_fuel(spec_nat_decimal_chirho, 4);
            reveal_strlit("Isaiah 41:10");
            reveal_strlit("Isaiah");
            lemma_votd_canonical_chirho(22, 41, seq!['1', '0']);
            assert(spec_votd_entry_chirho(23).0 =~= spec_book_name_chirho(22) + seq![' '] + spec_int_decimal_chirho(41) + seq![':'] + seq!['1', '0']);
        }
    }
}

/// The curated verses of the day 24 to 30 parse.
#[verifier::rlimit(100)]
#[verifier::spinoff_prover]
proof fn lemma_votd_parse_fourth_chirho(i: int)
    requires
        24 <= i < 31,
    ensures
        spec_parse_reference_chirho(spec_votd_entry_chirho(i).0) is Some,
{
    if i == 24 {
        assert(spec_parse_reference_chirho(spec_votd_entry_chirho(24).0) is Some) by {
            reveal_with_fuel(spec_nat_decimal_chirho, 4);
            reveal_strlit("1 Peter 5:7");
            reveal_strlit("1 Peter");
            lemma_votd_canonical_chirho(59, 5, seq!['7']);
            assert(spec_votd_entry_chirho(24).0 =~= spec_book_name_chirho(59) + seq![' '] + spec_int_decimal_chirho(5) + seq![':'] + seq!['7']);
        }
    } else if i == 25 {
        assert(spec_parse_reference_chirho(spec_votd_entry_chirho(25).0) is Some) by {
            reveal_with_fuel(spec_nat_decimal_chirho, 4);
            reveal_strlit("Psalm 34:8");
            reveal_strlit("Psalm");
            lemma_votd_psalm_chirho(34, seq!['8']);
            assert(spec_votd_entry_chirho(25).0 =~= "Psalm"@ + seq![' '] + spec_int_decimal_chirho(34) + seq![':'] + seq!['8']);
        }
    } else if i == 26 {
        assert(spec_parse_reference_chirho(spec_votd_entry_chirho(26).0) is Some) by {
            reveal_with_fuel(spec_nat_decimal_chirho, 4);
            reveal_strlit("James 1:2-3");
            reveal_strlit("James");
            lemma_votd_canonical_chirho(58, 1, seq!['2', '-', '3']);
            assert(spec_votd_entry_chirho(26).0 =~= spec_book_name_chirho(58) + seq![' '] + spec_int_decimal_chirho(1) + seq![':'] + seq!['2', '-', '3']);
        }
    } else if i == 27 {
        assert(spec_parse_reference_chirho(spec_votd_entry_chirho(27).0) is Some) by {
            reveal_with_fuel(spec_nat_decimal_chirho, 4);
            reveal_strlit("Colossians 3:23");
            reveal_strlit("Colossians");
            lemma_votd_canonical_chirho(50, 3, seq!['2', '3']);
            assert(spec_votd_entry_chirho(27).0 =~= spec_book_name_chirho(50) + seq![' '] + spec_int_decimal_chirho(3) + seq![':'] + seq!['2', '3']);
        }
    } else if i == 28 {
        assert(spec_parse_reference_chirho(spec_votd_entry_chirho(28).0) is Some) by {
            reveal_with_fuel(spec_nat_decimal_chirho, 4);
            reveal_strlit("Psalm 103:1");
            reveal_strlit("Psalm");
            lemma_votd_psalm_chirho(103, seq!['1']);
            assert(spec_votd_entry_chirho(28).0 =~= "Psalm"@ + seq![' '] + spec_int_decimal_chirho(103) + seq![':'] + seq!['1']);
        }
    } else if i == 29 {
        assert(spec_parse_reference_chirho(spec_votd_entry_chirho(29).0) is Some) by {
            reveal_with_fuel(spec_nat_decimal_chirho, 4);
            reveal_strlit("Matthew 5:16");
            reveal_strlit("Matthew");
            lemma_votd_canonical_chirho(39, 5, seq!['1', '6']);
            assert(spec_votd_entry_chirho(29).0 =~= spec_book_name_chirho(39) + seq![' '] + spec_int_decimal_chirho(5) + seq![':'] + seq!['1', '6']);
        }
    } else if i == 30 {
        assert(spec_parse_reference_chirho(spec_votd_entry_chirho(30).0) is Some) by {
            reveal_with_fuel(spec_nat_decimal_chirho, 4);
            reveal_strlit("Hebrews 12:2");
            reveal_strlit("Hebrews");
            lemma_votd_canonical_chirho(57, 12, seq!['2']);
            assert(spec_votd_entry_chirho(30).0 =~= spec_book_name_chirho(57) + seq![' '] + spec_int_decimal_chirho(12) + seq![':'] + seq!['2']);
        }
    }
}

/// Every curated verse of the day is a reference that parses.
pub proof fn law_votd_references_parse_chirho(i: int)
    requires
        0 <= i < 31,
    ensures
        spec_parse_reference_chirho(spec_votd_entry_chirho(i).0) is Some,
{
    if i < 8 {
        lemma_votd_parse_first_chirho(i);
    } else if i < 16 {
        lemma_votd_parse_second_chirho(i);
    } else if i < 24 {
        lemma_votd_parse_third_chirho(i);
    } else {
        lemma_votd_parse_fourth_chirho(i);
    }
}

/// Once the book name of a reference that the application writes
/// ("book chapter:verse") has been matched, what follows it reads back as
/// that chapter and verse, for a verse of 0 or more.
pub proof fn law_written_chapter_verse_reads_back_chirho(book: Seq<char>, chapter: i32, verse: i32)
    requires
        verse >= 0,
    ensures
        spec_chapter_verse_chirho(
            spec_remainder_chirho(
                spec_verse_reference_chirho(book, chapter as int, verse as int),
                book.len() as int,
            ),
        ) == Some((chapter, verse)),
{
    let dc = spec_int_decimal_chirho(chapter as int);
    let dv = spec_int_decimal_chirho(verse as int);
    lemma_int_decimal_chars_chirho(chapter as int);
    lemma_int_decimal_chars_chirho(verse as int);
    lemma_int_decimal_parses_back_chirho(chapter as int);
    lemma_int_decimal_parses_back_chirho(verse as int);
    let t = spec_verse_reference_chirho(book, chapter as int, verse as int);
    let u = seq![' '] + dc + seq![':'] + dv;
    assert(t.skip(book.len() as int) =~= u);
    let w = dc + seq![':'] + dv;
    // Trimming drops the one space before the chapter.
    assert(!spec_is_whitespace_chirho(dc[0])) by {
        assert(spec_is_digit_chirho(dc[0]) || dc[0] == '-');
    }
    assert(spec_first_non_ws_chirho(u, 1) == 1) by {
        assert(u[1] == dc[0]);
    }
    assert(spec_first_non_ws_chirho(u, 0) == 1);
    assert(u[u.len() - 1] == dv.last());
    assert(spec_end_non_ws_chirho(u, u.len() as int) == u.len());
    assert(spec_trim_chirho(u) =~= w);
    assert(spec_remainder_chirho(t, book.len() as int) == w);
    // The chapter is everything before the colon.
    assert forall|j: int| 0 <= j < dc.len() implies w[j] != ':' by {
        assert(w[j] == dc[j]);
    }
    assert(w[dc.len() as int] == ':');
    lemma_find_char_at_chirho(w, ':', 0, dc.len() as int);
    assert(spec_first_field_chirho(w, ':') =~= dc);
    lemma_trim_unchanged_chirho(dc);
    // The verse is everything after it.
    assert(w.skip(dc.len() as int + 1) =~= dv);
    assert(spec_after_first_chirho(w, ':') == Some(dv));
    assert forall|j: int| 0 <= j < dv.len() implies dv[j] != ':' && dv[j] != '-' by {
        assert(spec_is_digit_chirho(dv[j]));
    }
    lemma_find_char_at_chirho(dv, ':', 0, dv.len() as int);
    lemma_find_char_at_chirho(dv, '-', 0, dv.len() as int);
    assert(spec_first_field_chirho(dv, ':') =~= dv);
    assert(spec_first_field_chirho(dv, '-') =~= dv);
    lemma_trim_unchanged_chirho(dv);
    assert(spec_verse_text_chirho(w) == dv);
}

// ---------------------------------------------------------------------------
// Theme
// ---------------------------------------------------------------------------

/// Toggling the theme twice gives back the saved theme, when it is "dark"
/// or "light".
pub proof fn law_theme_toggle_twice_chirho(saved: Seq<char>)
    requires
        saved == "dark"@ || saved == "light"@,
    ensures
        spec_next_theme_chirho(Some(spec_next_theme_chirho(Some(saved)))) == saved,
{
    reveal_strlit("dark");
    reveal_strlit("light");
}

// ---------------------------------------------------------------------------
// Interlinear samples and morphology
// ---------------------------------------------------------------------------

/// A reference holding "Genesis 1:1" also holds "Genesis 1".
proof fn lemma_contains_prefix_chirho(s: Seq<char>, long: Seq<char>, short: Seq<char>)
    requires
        short.len() <= long.len(),
        long.take(short.len() as int) == short,
        spec_contains_chirho(s, long),
    ensures
        spec_contains_chirho(s, short),
{
    let i = choose|i: int| spec_occurs_at_chirho(s, long, i);
    assert(s.subrange(i, i + short.len()) =~= long.take(short.len() as int));
    assert(spec_occurs_at_chirho(s, short, i));
}

/// The sample interlinear words of any reference: at least one word, all
/// in one language, each Strong's number empty or starting with "H" for
/// Hebrew and "G" for Greek; a reference that holds neither "Genesis 1" nor
/// "John 3" gets the single placeholder word, without a Strong's number.
pub proof fn law_sample_interlinear_chirho(r: Seq<char>)
    ensures
        spec_sample_interlinear_chirho(r).len() >= 1,
        forall|i: int, j: int|
            0 <= i < spec_sample_interlinear_chirho(r).len() && 0 <= j
                < spec_sample_interlinear_chirho(r).len() ==> (#[trigger] spec_sample_interlinear_chirho(
                r,
            )[i]).is_hebrew == (#[trigger] spec_sample_interlinear_chirho(r)[j]).is_hebrew,
        forall|i: int|
            0 <= i < spec_sample_interlinear_chirho(r).len() ==> {
                let w = #[trigger] spec_sample_interlinear_chirho(r)[i];
                w.strongs.len() == 0 || w.strongs[0] == (if w.is_hebrew {
                    'H'
                } else {
                    'G'
                })
            },
        !spec_contains_chirho(r, "Genesis 1"@) && !spec_contains_chirho(r, "John 3"@) ==> (
        spec_sample_interlinear_chirho(r).len() == 1 && spec_sample_interlinear_chirho(r)[0].strongs.len()
            == 0),
{
    reveal_strlit("Genesis 1:1");
    reveal_strlit("Genesis 1");
    reveal_strlit("John 3:16");
    reveal_strlit("John 3");
    reveal_strlit("H7225");
    reveal_strlit("H1254");
    reveal_strlit("H430");
    reveal_strlit("H853");
    reveal_strlit("H8064");
    reveal_strlit("H776");
    reveal_strlit("G3779");
    reveal_strlit("G1063");
    reveal_strlit("G25");
    reveal_strlit("G2316");
    reveal_strlit("G2889");
    reveal_strlit("G5620");
    reveal_strlit("G5207");
    reveal_strlit("G3439");
    reveal_strlit("G1325");
    reveal_strlit("");
    assert(("Genesis 1:1"@).take(("Genesis 1"@).len() as int) =~= "Genesis 1"@);
    assert(("John 3:16"@).take(("John 3"@).len() as int) =~= "John 3"@);
    if spec_contains_chirho(r, "Genesis 1:1"@) {
        lemma_contains_prefix_chirho(r, "Genesis 1:1"@, "Genesis 1"@);
    }
    if spec_contains_chirho(r, "John 3:16"@) {
        lemma_contains_prefix_chirho(r, "John 3:16"@, "John 3"@);
    }
}

/// A morphology code is read as Hebrew exactly when it holds no `-`; a
/// Greek code gives one label per `-`-separated segment, in order, joined
/// with ", ".
pub proof fn law_morphology_labels_chirho(code: Seq<char>)
    ensures
        spec_parse_morphology_chirho(code).1 == !code.contains('-'),
        code.contains('-') ==> spec_greek_parts_chirho(code).len() == spec_split_chirho(code, '-').len()
            && spec_parse_morphology_chirho(code).0 == spec_join_chirho(
            spec_greek_parts_chirho(code),
            ", "@,
        ),
        !code.contains('-') ==> spec_parse_morphology_chirho(code).0 == spec_join_chirho(
            spec_hebrew_parts_chirho(code, code.len() as int),
            ", "@,
        ),
        spec_parse_morphology_chirho(Seq::empty()) == (Seq::<char>::empty(), true),
{
    assert(spec_hebrew_parts_chirho(Seq::<char>::empty(), 0) =~= Seq::<Seq<char>>::empty());
}

/// In a Hebrew code, a `c` right after the part of speech reads "common",
/// and one further on reads "construct".
pub proof fn law_morphology_common_or_construct_chirho(i: int)
    ensures
        spec_hebrew_label_chirho(1, 'c') == Some("common"@),
        i >= 2 ==> spec_hebrew_label_chirho(i, 'c') == Some("construct"@),
{
}

/// The verse of the day changes from one day to the next: consecutive days
/// get different references.
pub proof fn law_verse_of_the_day_changes_daily_chirho(days: int)
    requires
        days >= 0,
    ensures
        spec_votd_entry_chirho(days % 31).0 != spec_votd_entry_chirho((days + 1) % 31).0,
{
    reveal_strlit("John 3:16");
    reveal_strlit("Psalm 23:1");
    reveal_strlit("Jeremiah 29:11");
    reveal_strlit("Romans 8:28");
    reveal_strlit("Philippians 4:13");
    reveal_strlit("Proverbs 3:5-6");
    reveal_strlit("Isaiah 40:31");
    reveal_strlit("Psalm 46:1");
    reveal_strlit("Romans 12:2");
    reveal_strlit("Matthew 6:33");
    reveal_strlit("Psalm 119:105");
    reveal_strlit("Ephesians 2:8-9");
    reveal_strlit("Joshua 1:9");
    reveal_strlit("1 Corinthians 13:4-5");
    reveal_strlit("Psalm 27:1");
    reveal_strlit("Galatians 5:22-23");
    reveal_strlit("Matthew 11:28");
    reveal_strlit("2 Timothy 1:7");
    reveal_strlit("Hebrews 11:1");
    reveal_strlit("Psalm 37:4");
    reveal_strlit("Romans 5:8");
    reveal_strlit("2 Corinthians 5:17");
    reveal_strlit("Psalm 91:1-2");
    reveal_strlit("Isaiah 41:10");
    reveal_strlit("1 Peter 5:7");
    reveal_strlit("Psalm 34:8");
    reveal_strlit("James 1:2-3");
    reveal_strlit("Colossians 3:23");
    reveal_strlit("Psalm 103:1");
    reveal_strlit("Matthew 5:16");
    reveal_strlit("Hebrews 12:2");
    let i = days % 31;
    assert((days + 1) % 31 == (if i == 30 { 0 } else { i + 1 }));
    assert(spec_votd_entry_chirho(i).0[0] != spec_votd_entry_chirho(if i == 30 { 0 } else { i + 1 }).0[0]
        || spec_votd_entry_chirho(i).0.len() != spec_votd_entry_chirho(if i == 30 { 0 } else { i + 1 }).0.len());
}

// ---------------------------------------------------------------------------
// Sample text
// ---------------------------------------------------------------------------

/// Every chapter has sample verses: the built-in chapters their own, any
/// other chapter three placeholder verses.
pub proof fn law_sample_chapters_are_never_empty_chirho(book: Seq<char>, chapter: i32)
    ensures
        spec_sample_verses_chirho(book, chapter).len() >= 3,
{
}

// ---------------------------------------------------------------------------
// Sample study data
// ---------------------------------------------------------------------------

/// A Strong's entry has occurrences exactly when it has a lemma; one
/// without occurrences is the "not found" entry.
pub proof fn law_strongs_entry_chirho(n: Seq<char>)
    ensures
        (spec_strongs_fields_chirho(n).5 > 0) == (spec_strongs_fields_chirho(n).0.len() > 0),
        spec_strongs_fields_chirho(n).5 == 0 ==> spec_strongs_fields_chirho(n).3
            == "Strong's number not found in sample data"@ && spec_strongs_fields_chirho(n).4
            == "Install a lexicon module for full definitions"@,
{
    reveal_strlit("");
    reveal_strlit("אָב");
    reveal_strlit("אֱלֹהִים");
    reveal_strlit("יְהוָה");
    reveal_strlit("רֵאשִׁית");
    reveal_strlit("אֶרֶץ");
    reveal_strlit("שָׁמַיִם");
    reveal_strlit("Α");
    reveal_strlit("ἀγάπη");
    reveal_strlit("θεός");
    reveal_strlit("Ἰησοῦς");
    reveal_strlit("λόγος");
    reveal_strlit("πίστις");
    reveal_strlit("Χριστός");
}

/// Every footnote marker but "a" falls back to the generic footnote
/// "Footnote {marker} for {reference}", of kind "translator".
pub proof fn law_footnote_fallback_chirho(r: Seq<char>, m: Seq<char>)
    requires
        m != "a"@,
    ensures
        spec_sample_footnote_chirho(r, m) == ("Footnote "@ + m + " for "@ + r, "translator"@),
{
}

/// A reference gets the sample commentary (from "MHCC") exactly when it is
/// one of the ten built-in references; any other gets no module and a text
/// that starts "Commentary for {reference} not found in sample data.".
pub proof fn law_commentary_fallback_chirho(r: Seq<char>)
    ensures
        (spec_sample_commentary_chirho(r).1 == "MHCC"@) == (r == "Genesis 1:1"@ || r == "Genesis 1"@
            || r == "John 3:16"@ || r == "John 3"@ || r == "Psalm 23:1"@ || r == "Psalm 23"@ || r
            == "Psalms 23:1"@ || r == "Psalms 23"@ || r == "Romans 8:28"@ || r == "Romans 8"@),
        spec_sample_commentary_chirho(r).1 != "MHCC"@ ==> spec_sample_commentary_chirho(r).1 == ""@
            && spec_starts_with_chirho(
            spec_sample_commentary_chirho(r).0,
            "Commentary for "@ + r + " not found in sample data."@,
        ),
{
    reveal_strlit("MHCC");
    reveal_strlit("");
    assert("MHCC"@ != ""@) by {
        assert("MHCC"@.len() != ""@.len());
    }
    let tail = " not found in sample data.\n\n\
                Install commentary modules (like Matthew Henry's Commentary, Gill's Exposition, \
                Barnes' Notes) to access verse-by-verse explanations."@;
    let short = " not found in sample data."@;
    reveal_strlit(" not found in sample data.\n\n\
                Install commentary modules (like Matthew Henry's Commentary, Gill's Exposition, \
                Barnes' Notes) to access verse-by-verse explanations.");
    reveal_strlit(" not found in sample data.");
    let p = "Commentary for "@ + r + short;
    let full = "Commentary for "@ + r + tail;
    assert(tail.take(short.len() as int) =~= short);
    assert(full.take(p.len() as int) =~= p);
}

// ---------------------------------------------------------------------------
// Export and import
// ---------------------------------------------------------------------------

/// The value of the member at `k`, when no member before it has its key.
proof fn lemma_json_lookup_at_chirho(es: Seq<(String, JsonValueChirho)>, k: int, key: Seq<char>)
    requires
        0 <= k < es.len(),
        es[k].0@ == key,
        forall|j: int| 0 <= j < k ==> (#[trigger] es[j]).0@ != key,
    ensures
        spec_json_lookup_chirho(es, key) == Some(es[k].1),
    decreases k,
{
    if k > 0 {
        let rest = es.skip(1);
        assert forall|j: int| 0 <= j < k - 1 implies (#[trigger] rest[j]).0@ != key by {
            assert(rest[j] == es[j + 1]);
        }
        lemma_json_lookup_at_chirho(rest, k - 1, key);
        assert(es[0].0@ != key);
    }
}

/// The member names that an import looks up differ from the names listed
/// before them in an export record.
proof fn lemma_json_keys_distinct_chirho()
    ensures
        "reference"@ != "book"@,
        "reference"@ != "chapter"@,
        "reference"@ != "verse"@,
        "book"@ != "chapter"@,
        "book"@ != "verse"@,
        "chapter"@ != "verse"@,
        "reference"@ != "color"@,
        "book"@ != "color"@,
        "chapter"@ != "color"@,
        "verse"@ != "color"@,
        "reference"@ != "label"@,
        "book"@ != "label"@,
        "chapter"@ != "label"@,
        "verse"@ != "label"@,
        "reference"@ != "content"@,
        "book"@ != "content"@,
        "chapter"@ != "content"@,
        "verse"@ != "content"@,
        "reference"@ != "module"@,
        "book"@ != "module"@,
        "chapter"@ != "module"@,
        "verse"@ != "module"@,
        "color"@ != "module"@,
        "label"@ != "module"@,
        "content"@ != "module"@,
        "export_info"@ != "highlights"@,
        "export_info"@ != "bookmarks"@,
        "export_info"@ != "notes"@,
        "highlights"@ != "bookmarks"@,
        "highlights"@ != "notes"@,
        "bookmarks"@ != "notes"@,
{
    reveal_strlit("book");
    reveal_strlit("bookmarks");
    reveal_strlit("chapter");
    reveal_strlit("color");
    reveal_strlit("content");
    reveal_strlit("export_info");
    reveal_strlit("highlights");
    reveal_strlit("label");
    reveal_strlit("module");
    reveal_strlit("notes");
    reveal_strlit("reference");
    reveal_strlit("verse");
    assert("reference"@.len() != "book"@.len());
    assert("reference"@.len() != "chapter"@.len());
    assert("reference"@.len() != "verse"@.len());
    assert("book"@.len() != "chapter"@.len());
    assert("book"@.len() != "verse"@.len());
    assert("chapter"@.len() != "verse"@.len());
    assert("reference"@.len() != "color"@.len());
    assert("book"@.len() != "color"@.len());
    assert("chapter"@.len() != "color"@.len());
    assert("verse"@[0] != "color"@[0]);
    assert("reference"@.len() != "label"@.len());
    assert("book"@.len() != "label"@.len());
    assert("chapter"@.len() != "label"@.len());
    assert("verse"@[0] != "label"@[0]);
    assert("reference"@.len() != "content"@.len());
    assert("book"@.len() != "content"@.len());
    assert("chapter"@[1] != "content"@[1]);
    assert("verse"@.len() != "content"@.len());
    assert("reference"@.len() != "module"@.len());
    assert("book"@.len() != "module"@.len());
    assert("chapter"@.len() != "module"@.len());
    assert("verse"@.len() != "module"@.len());
    assert("color"@.len() != "module"@.len());
    assert("label"@.len() != "module"@.len());
    assert("content"@.len() != "module"@.len());
    assert("export_info"@.len() != "highlights"@.len());
    assert("export_info"@.len() != "bookmarks"@.len());
    assert("export_info"@.len() != "notes"@.len());
    assert("highlights"@.len() != "bookmarks"@.len());
    assert("highlights"@.len() != "notes"@.len());
    assert("bookmarks"@.len() != "notes"@.len());
}

/// Whether an imported highlight entry holds the values of an exported
/// highlight.
pub open spec fn spec_highlight_read_back_chirho(e: ImportHighlightChirho, h: ExportHighlightChirho) -> bool {
    &&& e.book_chirho matches Some(b) && b@ == h.book_chirho@
    &&& e.chapter_chirho == Some(h.chapter_chirho as i64)
    &&& e.verse_chirho == Some(h.verse_chirho as i64)
    &&& e.color_chirho matches Some(c) && c@ == h.color_chirho@
    &&& e.module_chirho matches Some(m) && m@ == h.module_chirho@
}

/// Whether an imported bookmark entry holds the values of an exported
/// bookmark (no label when it had none).
pub open spec fn spec_bookmark_read_back_chirho(e: ImportBookmarkChirho, h: ExportBookmarkChirho) -> bool {
    &&& e.book_chirho matches Some(b) && b@ == h.book_chirho@
    &&& e.chapter_chirho == Some(h.chapter_chirho as i64)
    &&& e.verse_chirho == Some(h.verse_chirho as i64)
    &&& match h.label_chirho {
        Some(l) => e.label_chirho matches Some(x) && x@ == l@,
        None => e.label_chirho is None,
    }
    &&& e.module_chirho matches Some(m) && m@ == h.module_chirho@
}

/// Whether an imported note entry holds the values of an exported note.
pub open spec fn spec_note_read_back_chirho(e: ImportNoteChirho, h: ExportNoteChirho) -> bool {
    &&& e.book_chirho matches Some(b) && b@ == h.book_chirho@
    &&& e.chapter_chirho == Some(h.chapter_chirho as i64)
    &&& e.verse_chirho == Some(h.verse_chirho as i64)
    &&& e.content_chirho matches Some(c) && c@ == h.content_chirho@
    &&& e.module_chirho matches Some(m) && m@ == h.module_chirho@
}

/// The entry an import reads from the JSON record of a highlight holds the
/// highlight's values.
proof fn lemma_highlight_reads_back_chirho(x: JsonValueChirho, h: ExportHighlightChirho)
    requires
        spec_highlight_json_chirho(x, h),
    ensures
        spec_highlight_read_back_chirho(spec_highlight_entry_chirho(x), h),
{
    let es = x->ObjectChirho_0;
    lemma_json_keys_distinct_chirho();
    lemma_json_lookup_at_chirho(es@, 1, "book"@);
    lemma_json_lookup_at_chirho(es@, 2, "chapter"@);
    lemma_json_lookup_at_chirho(es@, 3, "verse"@);
    lemma_json_lookup_at_chirho(es@, 4, "color"@);
    lemma_json_lookup_at_chirho(es@, 5, "module"@);
}

/// The entry an import reads from the JSON record of a bookmark holds the
/// bookmark's values.
proof fn lemma_bookmark_reads_back_chirho(x: JsonValueChirho, h: ExportBookmarkChirho)
    requires
        spec_bookmark_json_chirho(x, h),
    ensures
        spec_bookmark_read_back_chirho(spec_bookmark_entry_chirho(x), h),
{
    let es = x->ObjectChirho_0;
    lemma_json_keys_distinct_chirho();
    lemma_json_lookup_at_chirho(es@, 1, "book"@);
    lemma_json_lookup_at_chirho(es@, 2, "chapter"@);
    lemma_json_lookup_at_chirho(es@, 3, "verse"@);
    lemma_json_lookup_at_chirho(es@, 4, "label"@);
    lemma_json_lookup_at_chirho(es@, 5, "module"@);
}

/// The entry an import reads from the JSON record of a note holds the
/// note's values.
proof fn lemma_note_reads_back_chirho(x: JsonValueChirho, h: ExportNoteChirho)
    requires
        spec_note_json_chirho(x, h),
    ensures
        spec_note_read_back_chirho(spec_note_entry_chirho(x), h),
{
    let es = x->ObjectChirho_0;
    lemma_json_keys_distinct_chirho();
    lemma_json_lookup_at_chirho(es@, 1, "book"@);
    lemma_json_lookup_at_chirho(es@, 2, "chapter"@);
    lemma_json_lookup_at_chirho(es@, 3, "verse"@);
    lemma_json_lookup_at_chirho(es@, 4, "content"@);
    lemma_json_lookup_at_chirho(es@, 5, "module"@);
}

/// What an export writes, an import reads back: the entries read from a
/// full backup are, in order, its highlights, bookmarks and notes, each
/// with the values it was exported with.
pub proof fn law_backup_reads_back_chirho(
    v: JsonValueChirho,
    highlights: Seq<ExportHighlightChirho>,
    bookmarks: Seq<ExportBookmarkChirho>,
    notes: Seq<ExportNoteChirho>,
    version: Seq<char>,
    exported_at: Seq<char>,
)
    requires
        spec_backup_json_chirho(v, highlights, bookmarks, notes, version, exported_at),
    ensures
        spec_json_items_chirho(v, "highlights"@).len() == highlights.len(),
        spec_json_items_chirho(v, "bookmarks"@).len() == bookmarks.len(),
        spec_json_items_chirho(v, "notes"@).len() == notes.len(),
        forall|i: int| 0 <= i < highlights.len() ==> spec_highlight_read_back_chirho(
            spec_highlight_entry_chirho(#[trigger] spec_json_items_chirho(v, "highlights"@)[i]),
            highlights[i],
        ),
        forall|i: int| 0 <= i < bookmarks.len() ==> spec_bookmark_read_back_chirho(
            spec_bookmark_entry_chirho(#[trigger] spec_json_items_chirho(v, "bookmarks"@)[i]),
            bookmarks[i],
        ),
        forall|i: int| 0 <= i < notes.len() ==> spec_note_read_back_chirho(
            spec_note_entry_chirho(#[trigger] spec_json_items_chirho(v, "notes"@)[i]),
            notes[i],
        ),
{
    let es = v->ObjectChirho_0;
    lemma_json_keys_distinct_chirho();
    lemma_json_lookup_at_chirho(es@, 1, "highlights"@);
    lemma_json_lookup_at_chirho(es@, 2, "bookmarks"@);
    lemma_json_lookup_at_chirho(es@, 3, "notes"@);
    let hi = spec_json_items_chirho(v, "highlights"@);
    let bi = spec_json_items_chirho(v, "bookmarks"@);
    let ni = spec_json_items_chirho(v, "notes"@);
    assert forall|i: int| 0 <= i < highlights.len() implies spec_highlight_read_back_chirho(
        spec_highlight_entry_chirho(#[trigger] hi[i]),
        highlights[i],
    ) by {
        lemma_highlight_reads_back_chirho(hi[i], highlights[i]);
    }
    assert forall|i: int| 0 <= i < bookmarks.len() implies spec_bookmark_read_back_chirho(
        spec_bookmark_entry_chirho(#[trigger] bi[i]),
        bookmarks[i],
    ) by {
        lemma_bookmark_reads_back_chirho(bi[i], bookmarks[i]);
    }
    assert forall|i: int| 0 <= i < notes.len() implies spec_note_read_back_chirho(
        spec_note_entry_chirho(#[trigger] ni[i]),
        notes[i],
    ) by {
        lemma_note_reads_back_chirho(ni[i], notes[i]);
    }
}

} // verus!
