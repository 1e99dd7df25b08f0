//! How verses and references are shown: "Book chapter:verse" references,
//! the verse records of the reading pane, and the previews and labels of
//! the highlight, bookmark and note panels.

use vstd::prelude::*;
use vstd::string::StringExecFns;
use std::collections::HashSet;
use crate::database_chirho::{BookmarkChirho, HighlightChirho, HighlightInfoChirho, NoteChirho};
use crate::models_chirho::{
    BookmarkDisplayChirho, HighlightDisplayChirho, NoteDisplayChirho, VerseChirho,
};
use crate::samples_chirho::{format_timestamp_chirho, get_sample_verses_chirho, spec_pairs_view_chirho, spec_sample_verses_chirho};
use crate::text_chirho::{
    chars_of_chirho, int_to_string_chirho, parse_i32_chirho, spec_first_field_chirho,
    spec_int_decimal_chirho, spec_parse_i32_chirho, string_from_chars_chirho,
};

verus! {

/// "`book` `chapter`:`label`", the way a verse is referred to.
pub open spec fn spec_reference_label_chirho(book: Seq<char>, chapter: int, label: Seq<char>) -> Seq<char> {
    book + seq![' '] + spec_int_decimal_chirho(chapter) + seq![':'] + label
}

/// "`book` `chapter`:`verse`".
pub open spec fn spec_verse_reference_chirho(book: Seq<char>, chapter: int, verse: int) -> Seq<char> {
    spec_reference_label_chirho(book, chapter, spec_int_decimal_chirho(verse))
}

/// Builds "`book` `chapter`:`label`".
pub fn reference_label_chirho(book: &str, chapter: i32, label: &str) -> (r: String)
    ensures
        r@ == spec_reference_label_chirho(book@, chapter as int, label@),
{
    let mut t = String::from_str(book);
    t.append(" ");
    let c = int_to_string_chirho(chapter as i64);
    t.append(c.as_str());
    t.append(":");
    t.append(label);
    proof {
        reveal_strlit(" ");
        reveal_strlit(":");
    }
    assert(t@ =~= spec_reference_label_chirho(book@, chapter as int, label@));
    t
}

/// Builds "`book` `chapter`:`verse`".
pub fn verse_reference_chirho(book: &str, chapter: i32, verse: i32) -> (r: String)
    ensures
        r@ == spec_verse_reference_chirho(book@, chapter as int, verse as int),
{
    let v = int_to_string_chirho(verse as i64);
    reference_label_chirho(book, chapter, v.as_str())
}

/// A verse of the reading pane with nothing marked on it.
pub open spec fn spec_plain_verse_chirho(v: VerseChirho, reference: Seq<char>, text: Seq<char>) -> bool {
    &&& v.reference_chirho@ == reference
    &&& v.text_chirho@ == text
    &&& !v.is_highlighted_chirho
    &&& v.highlight_color_chirho@ == Seq::<char>::empty()
    &&& !v.has_note_chirho
    &&& !v.is_red_letter_chirho
    &&& v.section_heading_chirho@ == Seq::<char>::empty()
    &&& v.poetry_indent_chirho == 0
    &&& !v.is_paragraph_start_chirho
    &&& v.strongs_text_chirho@ == Seq::<char>::empty()
    &&& !v.has_strongs_chirho
}

/// A verse record for (`reference`, `text`) with the given marks.
fn verse_record_chirho(
    reference: String,
    text: String,
    is_highlighted: bool,
    highlight_color: String,
    has_note: bool,
) -> (r: VerseChirho)
    ensures
        r.reference_chirho == reference,
        r.text_chirho == text,
        r.is_highlighted_chirho == is_highlighted,
        r.highlight_color_chirho == highlight_color,
        r.has_note_chirho == has_note,
        !r.is_red_letter_chirho,
        r.section_heading_chirho@ == Seq::<char>::empty(),
        r.poetry_indent_chirho == 0,
        !r.is_paragraph_start_chirho,
        r.strongs_text_chirho@ == Seq::<char>::empty(),
        !r.has_strongs_chirho,
{
    VerseChirho {
        reference_chirho: reference,
        text_chirho: text,
        is_highlighted_chirho: is_highlighted,
        highlight_color_chirho: highlight_color,
        has_note_chirho: has_note,
        is_red_letter_chirho: false,
        section_heading_chirho: String::new(),
        poetry_indent_chirho: 0,
        is_paragraph_start_chirho: false,
        strongs_text_chirho: String::new(),
        has_strongs_chirho: false,
    }
}

/// Turns (label, text) pairs into verse records with nothing marked, as the
/// parallel view shows them.
pub fn raw_verses_to_verse_chirho(raw_verses: Vec<(String, String)>) -> (r: Vec<VerseChirho>)
    ensures
        r.len() == raw_verses.len(),
        forall|i: int|
            0 <= i < r.len() ==> spec_plain_verse_chirho(
                #[trigger] r@[i],
                raw_verses@[i].0@,
                raw_verses@[i].1@,
            ),
{
    let mut out: Vec<VerseChirho> = Vec::new();
    let mut i: usize = 0;
    while i < raw_verses.len()
        invariant
            i <= raw_verses.len(),
            out.len() == i,
            forall|k: int|
                0 <= k < i ==> spec_plain_verse_chirho(
                    #[trigger] out@[k],
                    raw_verses@[k].0@,
                    raw_verses@[k].1@,
                ),
        decreases raw_verses.len() - i,
    {
        let pair = &raw_verses[i];
        let v = verse_record_chirho(pair.0.clone(), pair.1.clone(), false, String::new(), false);
        out.push(v);
        i = i + 1;
    }
    out
}

// ---------------------------------------------------------------------------
// Marking highlights and notes
// ---------------------------------------------------------------------------

/// The verse number a label reads as, 0 when it is not a number.
pub open spec fn spec_label_number_chirho(label: Seq<char>) -> i32 {
    match spec_parse_i32_chirho(label) {
        Some(n) => n,
        None => 0,
    }
}

/// The number a verse label reads as, 0 when it is not a number.
pub fn label_number_chirho(label: &str) -> (r: i32)
    ensures
        r == spec_label_number_chirho(label@),
{
    match parse_i32_chirho(&chars_of_chirho(label)) {
        Some(n) => n,
        None => 0,
    }
}

/// The colour of verse `v` among `highlights`: that of the last entry for
/// it, as when the entries are collected into a map.
pub open spec fn spec_color_of_chirho(highlights: Seq<HighlightInfoChirho>, v: i32) -> Option<String>
    decreases highlights.len(),
{
    if highlights.len() == 0 {
        None
    } else if highlights.last().verse_chirho == v {
        Some(highlights.last().color_chirho)
    } else {
        spec_color_of_chirho(highlights.drop_last(), v)
    }
}

fn color_of_chirho(highlights: &Vec<HighlightInfoChirho>, v: i32) -> (r: Option<String>)
    ensures
        r == spec_color_of_chirho(highlights@, v),
{
    let mut i: usize = highlights.len();
    assert(highlights@.take(i as int) =~= highlights@);
    while i > 0
        invariant
            i <= highlights.len(),
            spec_color_of_chirho(highlights@, v) == spec_color_of_chirho(highlights@.take(i as int), v),
        decreases i,
    {
        assert(highlights@.take(i as int).drop_last() =~= highlights@.take(i - 1));
        if highlights[i - 1].verse_chirho == v {
            return Some(highlights[i - 1].color_chirho.clone());
        }
        i = i - 1;
    }
    None
}

/// The reading-pane verse for (`label`, `text`): highlighted in the colour
/// recorded for its number, and marked when its number has a note.
pub open spec fn spec_marked_verse_chirho(
    v: VerseChirho,
    label: Seq<char>,
    text: Seq<char>,
    highlights: Seq<HighlightInfoChirho>,
    notes: Set<i32>,
) -> bool {
    let n = spec_label_number_chirho(label);
    &&& v.reference_chirho@ == label
    &&& v.text_chirho@ == text
    &&& v.is_highlighted_chirho == spec_color_of_chirho(highlights, n) is Some
    &&& v.highlight_color_chirho@ == (match spec_color_of_chirho(highlights, n) {
        Some(c) => c@,
        None => Seq::<char>::empty(),
    })
    &&& v.has_note_chirho == notes.contains(n)
    &&& !v.is_red_letter_chirho
    &&& v.section_heading_chirho@ == Seq::<char>::empty()
    &&& v.poetry_indent_chirho == 0
    &&& !v.is_paragraph_start_chirho
    &&& v.strongs_text_chirho@ == Seq::<char>::empty()
    &&& !v.has_strongs_chirho
}

/// Builds the reading-pane verses of a chapter out of its (label, text)
/// verses, its highlights with colours, and the numbers of its verses that
/// have notes.
pub fn mark_verses_chirho(
    raw_verses: Vec<(String, String)>,
    highlights: &Vec<HighlightInfoChirho>,
    notes: &HashSet<i32>,
) -> (r: Vec<VerseChirho>)
    ensures
        r.len() == raw_verses.len(),
        forall|i: int|
            0 <= i < r.len() ==> spec_marked_verse_chirho(
                #[trigger] r@[i],
                raw_verses@[i].0@,
                raw_verses@[i].1@,
                highlights@,
                notes@,
            ),
{
    broadcast use vstd::std_specs::hash::group_hash_axioms;
    let mut out: Vec<VerseChirho> = Vec::new();
    let mut i: usize = 0;
    while i < raw_verses.len()
        invariant
            i <= raw_verses.len(),
            out.len() == i,
            forall|k: int|
                0 <= k < i ==> spec_marked_verse_chirho(
                    #[trigger] out@[k],
                    raw_verses@[k].0@,
                    raw_verses@[k].1@,
                    highlights@,
                    notes@,
                ),
        decreases raw_verses.len() - i,
    {
        let pair = &raw_verses[i];
        let n = label_number_chirho(pair.0.as_str());
        let color = color_of_chirho(highlights, n);
        let has_note = notes.contains(&n);
        let v = match color {
            Some(c) => verse_record_chirho(pair.0.clone(), pair.1.clone(), true, c, has_note),
            None => verse_record_chirho(pair.0.clone(), pair.1.clone(), false, String::new(), has_note),
        };
        out.push(v);
        i = i + 1;
    }
    out
}

// ---------------------------------------------------------------------------
// Previews
// ---------------------------------------------------------------------------

/// The number of bytes `c` takes in UTF-8.
pub open spec fn spec_utf8_width_chirho(c: char) -> int {
    if (c as u32) < 0x80 {
        1
    } else if (c as u32) < 0x800 {
        2
    } else if (c as u32) < 0x10000 {
        3
    } else {
        4
    }
}

/// The number of bytes `s` takes in UTF-8 (`str::len`).
pub open spec fn spec_utf8_len_chirho(s: Seq<char>) -> int
    decreases s.len(),
{
    if s.len() == 0 {
        0
    } else {
        spec_utf8_len_chirho(s.drop_last()) + spec_utf8_width_chirho(s.last())
    }
}

/// Whether the first `k` characters of `s` are the longest prefix that
/// fits in `limit` bytes.
pub open spec fn spec_fitting_prefix_chirho(s: Seq<char>, limit: int, k: int) -> bool {
    &&& 0 <= k <= s.len()
    &&& spec_utf8_len_chirho(s.take(k)) <= limit
    &&& (k == s.len() || spec_utf8_len_chirho(s.take(k + 1)) > limit)
}

/// The preview of `s`: `s` itself when it takes at most `limit` bytes,
/// else the longest prefix of `s` that fits in `limit` bytes, then "...".
pub open spec fn spec_preview_chirho(s: Seq<char>, limit: int, k: int) -> Seq<char> {
    if spec_utf8_len_chirho(s) <= limit {
        s
    } else {
        s.take(k) + "..."@
    }
}

fn utf8_width_chirho(c: char) -> (r: u64)
    ensures
        r == spec_utf8_width_chirho(c),
{
    if (c as u32) < 0x80 {
        1
    } else if (c as u32) < 0x800 {
        2
    } else if (c as u32) < 0x10000 {
        3
    } else {
        4
    }
}

/// The preview of `s` in at most `limit` bytes (see `spec_preview_chirho`).
pub fn preview_chirho(s: &str, limit: u64) -> (r: String)
    ensures
        exists|k: int|
            spec_fitting_prefix_chirho(s@, limit as int, k) && r@ == #[trigger] spec_preview_chirho(
                s@,
                limit as int,
                k,
            ),
{
    let v = chars_of_chirho(s);
    let mut used: u64 = 0;
    let mut k: usize = 0;
    let mut full = false;
    while k < v.len() && !full
        invariant
            k <= v@.len(),
            used == spec_utf8_len_chirho(v@.take(k as int)),
            used <= limit,
            full ==> k < v@.len() && spec_utf8_len_chirho(v@.take(k + 1)) > limit,
        decreases v@.len() - k + (if full { 0int } else { 1int }),
    {
        let w = utf8_width_chirho(v[k]);
        assert(v@.take(k + 1).drop_last() =~= v@.take(k as int));
        if w > limit - used {
            full = true;
        } else {
            used = used + w;
            k = k + 1;
        }
    }
    assert(spec_fitting_prefix_chirho(v@, limit as int, k as int));
    if k == v.len() {
        assert(v@.take(k as int) =~= v@);
        assert(spec_preview_chirho(s@, limit as int, k as int) == s@);
        return String::from_str(s);
    }
    proof {
        lemma_utf8_len_prefix_chirho(v@, k + 1);
    }
    let mut p: Vec<char> = Vec::new();
    let mut i: usize = 0;
    while i < k
        invariant
            i <= k < v@.len(),
            p@ == v@.take(i as int),
        decreases k - i,
    {
        p.push(v[i]);
        i = i + 1;
        assert(p@ =~= v@.take(i as int));
    }
    p.push('.');
    p.push('.');
    p.push('.');
    proof {
        reveal_strlit("...");
    }
    assert(p@ =~= spec_preview_chirho(s@, limit as int, k as int));
    string_from_chars_chirho(&p)
}

/// A prefix takes no more bytes than the whole.
proof fn lemma_utf8_len_prefix_chirho(s: Seq<char>, k: int)
    requires
        0 <= k <= s.len(),
    ensures
        spec_utf8_len_chirho(s.take(k)) <= spec_utf8_len_chirho(s),
    decreases s.len() - k,
{
    if k < s.len() {
        lemma_utf8_len_prefix_chirho(s, k + 1);
        assert(s.take(k + 1).drop_last() =~= s.take(k));
    } else {
        assert(s.take(k) =~= s);
    }
}

// ---------------------------------------------------------------------------
// Panels
// ---------------------------------------------------------------------------

/// The bookmarks panel's record of a bookmark: its id cut to `i32`, its
/// reference, its label (empty when it has none) and its place.
pub fn bookmark_display_chirho(bm: &BookmarkChirho) -> (r: BookmarkDisplayChirho)
    ensures
        r.id_chirho == bm.id_chirho as i32,
        r.reference_chirho@ == spec_verse_reference_chirho(
            bm.book_chirho@,
            bm.chapter_chirho as int,
            bm.verse_chirho as int,
        ),
        r.label_chirho@ == (match bm.label_chirho {
            Some(l) => l@,
            None => Seq::<char>::empty(),
        }),
        r.book_chirho@ == bm.book_chirho@,
        r.chapter_chirho == bm.chapter_chirho,
        r.verse_chirho == bm.verse_chirho,
{
    let label = match &bm.label_chirho {
        Some(l) => l.clone(),
        None => String::new(),
    };
    BookmarkDisplayChirho {
        id_chirho: bm.id_chirho as i32,
        reference_chirho: verse_reference_chirho(
            bm.book_chirho.as_str(),
            bm.chapter_chirho,
            bm.verse_chirho,
        ),
        label_chirho: label,
        book_chirho: bm.book_chirho.clone(),
        chapter_chirho: bm.chapter_chirho,
        verse_chirho: bm.verse_chirho,
    }
}

/// The text of the first sample verse of a chapter whose label reads as
/// verse `verse` (a label that is not a number reads as 0).
pub open spec fn spec_sample_text_of_chirho(verses: Seq<(Seq<char>, Seq<char>)>, verse: i32) -> Option<Seq<char>>
    decreases verses.len(),
{
    if verses.len() == 0 {
        None
    } else if spec_label_number_chirho(verses[0].0) == verse {
        Some(verses[0].1)
    } else {
        spec_sample_text_of_chirho(verses.skip(1), verse)
    }
}

fn sample_text_of_chirho(verses: &Vec<(String, String)>, verse: i32) -> (r: Option<String>)
    ensures
        match r {
            Some(t) => spec_sample_text_of_chirho(spec_pairs_view_chirho(verses@), verse) == Some(t@),
            None => spec_sample_text_of_chirho(spec_pairs_view_chirho(verses@), verse) is None,
        },
{
    let ghost all = spec_pairs_view_chirho(verses@);
    let mut i: usize = 0;
    assert(all.skip(0) =~= all);
    while i < verses.len()
        invariant
            i <= verses.len(),
            all == spec_pairs_view_chirho(verses@),
            spec_sample_text_of_chirho(all, verse) == spec_sample_text_of_chirho(all.skip(i as int), verse),
        decreases verses.len() - i,
    {
        assert(all.skip(i as int)[0] == (verses@[i as int].0@, verses@[i as int].1@));
        if label_number_chirho(verses[i].0.as_str()) == verse {
            return Some(verses[i].1.clone());
        }
        assert(all.skip(i as int).skip(1) =~= all.skip(i + 1));
        i = i + 1;
    }
    assert(all.skip(i as int) =~= Seq::<(Seq<char>, Seq<char>)>::empty());
    None
}

/// Whether `p` is the preview (at most 80 bytes) of the sample text of a
/// verse, or empty when the sample chapter has no such verse.
pub open spec fn spec_sample_preview_chirho(book: Seq<char>, chapter: i32, verse: i32, p: Seq<char>) -> bool {
    match spec_sample_text_of_chirho(spec_sample_verses_chirho(book, chapter), verse) {
        Some(t) => exists|k: int|
            spec_fitting_prefix_chirho(t, 80, k) && p == #[trigger] spec_preview_chirho(t, 80, k),
        None => p == Seq::<char>::empty(),
    }
}

/// A preview (at most 80 bytes) of the sample text of a verse, empty when
/// the sample chapter has no such verse.
fn sample_preview_chirho(book: &str, chapter: i32, verse: i32) -> (r: String)
    ensures
        spec_sample_preview_chirho(book@, chapter, verse, r@),
{
    let verses = get_sample_verses_chirho(book, chapter);
    match sample_text_of_chirho(&verses, verse) {
        Some(t) => {
            let ts = t.as_str();
            assert(ts@ == t@);
            assert(spec_pairs_view_chirho(verses@) == spec_sample_verses_chirho(book@, chapter));
            assert(spec_sample_text_of_chirho(spec_sample_verses_chirho(book@, chapter), verse) == Some(t@));
            let p = preview_chirho(ts, 80);
            proof {
                let k = choose|k: int|
                    spec_fitting_prefix_chirho(ts@, 80u64 as int, k) && p@ == #[trigger] spec_preview_chirho(
                        ts@,
                        80u64 as int,
                        k,
                    );
                assert(spec_fitting_prefix_chirho(t@, 80, k));
                assert(p@ == spec_preview_chirho(t@, 80, k));
                let tt = spec_sample_text_of_chirho(spec_sample_verses_chirho(book@, chapter), verse)->0;
                assert(tt == t@);
                assert(spec_fitting_prefix_chirho(tt, 80, k) && p@ == spec_preview_chirho(tt, 80, k));
                assert(spec_sample_preview_chirho(book@, chapter, verse, p@));
            }
            p
        },
        None => {
            assert(spec_sample_text_of_chirho(spec_sample_verses_chirho(book@, chapter), verse) is None);
            let e = String::new();
            assert(e@ == Seq::<char>::empty());
            assert(spec_sample_preview_chirho(book@, chapter, verse, e@));
            e
        },
    }
}

/// The highlights panel's record of a highlight: its id cut to `i32`, its
/// reference, colour and place, and a preview of the verse from the sample
/// chapter (at most 80 bytes of it, empty when the sample has no such
/// verse).
pub fn highlight_display_chirho(hl: &HighlightChirho) -> (r: HighlightDisplayChirho)
    ensures
        r.id_chirho == hl.id_chirho as i32,
        r.reference_chirho@ == spec_verse_reference_chirho(
            hl.book_chirho@,
            hl.chapter_chirho as int,
            hl.verse_chirho as int,
        ),
        r.color_chirho@ == hl.color_chirho@,
        r.book_chirho@ == hl.book_chirho@,
        r.chapter_chirho == hl.chapter_chirho,
        r.verse_chirho == hl.verse_chirho,
        spec_sample_preview_chirho(hl.book_chirho@, hl.chapter_chirho, hl.verse_chirho, r.preview_chirho@),
{
    let preview = sample_preview_chirho(hl.book_chirho.as_str(), hl.chapter_chirho, hl.verse_chirho);
    HighlightDisplayChirho {
        id_chirho: hl.id_chirho as i32,
        reference_chirho: verse_reference_chirho(
            hl.book_chirho.as_str(),
            hl.chapter_chirho,
            hl.verse_chirho,
        ),
        color_chirho: hl.color_chirho.clone(),
        book_chirho: hl.book_chirho.clone(),
        chapter_chirho: hl.chapter_chirho,
        verse_chirho: hl.verse_chirho,
        preview_chirho: preview,
    }
}

/// The notes panel's record of a note: its id cut to `i32`, its reference
/// and place, a preview of its content (at most 100 bytes of it), and the
/// date of its last update.
pub fn note_display_chirho(note: &NoteChirho) -> (r: NoteDisplayChirho)
    ensures
        r.id_chirho == note.id_chirho as i32,
        r.reference_chirho@ == spec_verse_reference_chirho(
            note.book_chirho@,
            note.chapter_chirho as int,
            note.verse_chirho as int,
        ),
        r.book_chirho@ == note.book_chirho@,
        r.chapter_chirho == note.chapter_chirho,
        r.verse_chirho == note.verse_chirho,
        exists|k: int|
            spec_fitting_prefix_chirho(note.content_chirho@, 100, k) && r.preview_chirho@
                == #[trigger] spec_preview_chirho(note.content_chirho@, 100, k),
        r.updated_at_chirho@ == spec_first_field_chirho(note.updated_at_chirho@, ' '),
{
    NoteDisplayChirho {
        id_chirho: note.id_chirho as i32,
        reference_chirho: verse_reference_chirho(
            note.book_chirho.as_str(),
            note.chapter_chirho,
            note.verse_chirho,
        ),
        book_chirho: note.book_chirho.clone(),
        chapter_chirho: note.chapter_chirho,
        verse_chirho: note.verse_chirho,
        preview_chirho: preview_chirho(note.content_chirho.as_str(), 100),
        updated_at_chirho: format_timestamp_chirho(note.updated_at_chirho.as_str()),
    }
}

} // verus!
