//! Quick navigation: what the "go to" box offers for what the user typed,
//! namely the recent chapters for an empty query, else the books whose
//! names match and the reference the query spells.

use vstd::prelude::*;
use vstd::string::StringExecFns;
use crate::books_chirho::{
    book_chapters_chirho, book_name_chirho, spec_book_chapters_chirho, spec_book_name_chirho,
    BIBLE_BOOK_COUNT_CHIRHO,
};
use crate::database_chirho::{get_recent_history_chirho, spec_history_row_fn_chirho, SqlValueChirho};
use crate::database_chirho::HistoryEntryChirho as StoredHistoryChirho;
use crate::display_chirho::spec_utf8_len_chirho;
use crate::models_chirho::HistoryEntryChirho;
use crate::reference_chirho::{parse_reference_chirho, spec_parse_reference_chirho};
use crate::samples_chirho::format_timestamp_chirho;
use crate::text_chirho::{
    chars_eq_chirho, chars_of_chirho, contains_chirho, spec_contains_chirho,
    spec_first_field_chirho, spec_lower_chirho, spec_starts_with_chirho, starts_with_chirho,
    subrange_chirho, to_lowercase_chirho,
};

verus! {

/// A navigation entry by its contents: book, chapter, timestamp.
pub open spec fn spec_nav_view_chirho(e: HistoryEntryChirho) -> (Seq<char>, i32, Seq<char>) {
    (e.book_chirho@, e.chapter_chirho, e.timestamp_chirho@)
}

/// The contents of a list of navigation entries.
pub open spec fn spec_nav_views_chirho(v: Seq<HistoryEntryChirho>) -> Seq<(Seq<char>, i32, Seq<char>)> {
    v.map_values(|e: HistoryEntryChirho| spec_nav_view_chirho(e))
}

// ---------------------------------------------------------------------------
// History
// ---------------------------------------------------------------------------

/// The navigation entry contents of stored history entries: book, chapter
/// and the date part of their timestamp.
pub open spec fn spec_history_nav_chirho(entries: Seq<StoredHistoryChirho>) -> Seq<(Seq<char>, i32, Seq<char>)> {
    entries.map_values(
        |e: StoredHistoryChirho|
            (e.book_chirho@, e.chapter_chirho, spec_first_field_chirho(e.timestamp_chirho@, ' ')),
    )
}

/// The navigation entries of stored history entries: book, chapter and the
/// date part of their timestamp.
pub fn history_entries_for_ui_chirho(entries: &Vec<StoredHistoryChirho>) -> (r: Vec<HistoryEntryChirho>)
    ensures
        spec_nav_views_chirho(r@) == spec_history_nav_chirho(entries@),
        r.len() == entries.len(),
        forall|i: int|
            0 <= i < r.len() ==> spec_nav_view_chirho(#[trigger] r@[i]) == (
                entries@[i].book_chirho@,
                entries@[i].chapter_chirho,
                spec_first_field_chirho(entries@[i].timestamp_chirho@, ' '),
            ),
{
    let mut out: Vec<HistoryEntryChirho> = Vec::new();
    let mut i: usize = 0;
    while i < entries.len()
        invariant
            i <= entries.len(),
            out.len() == i,
            forall|k: int|
                0 <= k < i ==> spec_nav_view_chirho(#[trigger] out@[k]) == (
                    entries@[k].book_chirho@,
                    entries@[k].chapter_chirho,
                    spec_first_field_chirho(entries@[k].timestamp_chirho@, ' '),
                ),
        decreases entries.len() - i,
    {
        let e = &entries[i];
        out.push(
            HistoryEntryChirho {
                book_chirho: e.book_chirho.clone(),
                chapter_chirho: e.chapter_chirho,
                timestamp_chirho: format_timestamp_chirho(e.timestamp_chirho.as_str()),
            },
        );
        i = i + 1;
    }
    assert(spec_nav_views_chirho(out@) =~= spec_history_nav_chirho(entries@));
    out
}

// ---------------------------------------------------------------------------
// Matching books
// ---------------------------------------------------------------------------

/// Whether the first three bytes of `q` (all of it when shorter) end on a
/// character boundary, so that they can be cut off.
pub open spec fn spec_prefix_cuttable_chirho(q: Seq<char>) -> bool {
    spec_utf8_len_chirho(q) <= 3 || exists|k: int|
        0 <= k <= q.len() && #[trigger] spec_utf8_len_chirho(q.take(k)) == 3
}

/// The first three bytes of `q` (all of it when shorter).
pub open spec fn spec_three_byte_prefix_chirho(q: Seq<char>) -> Seq<char> {
    if spec_utf8_len_chirho(q) <= 3 {
        q
    } else {
        q.take(choose|k: int| 0 <= k <= q.len() && #[trigger] spec_utf8_len_chirho(q.take(k)) == 3)
    }
}

/// Whether book `k` matches the lower-cased query `q`: its lower-cased name
/// starts with `q` or contains it, or `q` takes two bytes or more and the
/// name starts with the first three bytes of `q`.
pub open spec fn spec_book_matches_chirho(q: Seq<char>, k: int) -> bool {
    let name = spec_lower_chirho(spec_book_name_chirho(k));
    spec_starts_with_chirho(name, q) || spec_contains_chirho(name, q) || (spec_utf8_len_chirho(q)
        >= 2 && spec_starts_with_chirho(name, spec_three_byte_prefix_chirho(q)))
}

/// The entries for chapters `from` to `to` of book `k`.
pub open spec fn spec_chapter_entries_chirho(k: int, from: int, to: int) -> Seq<(Seq<char>, i32, Seq<char>)> {
    Seq::new(
        if to >= from {
            (to - from + 1) as nat
        } else {
            0
        },
        |i: int| (spec_book_name_chirho(k), (from + i) as i32, Seq::<char>::empty()),
    )
}

/// The book entries offered for the lower-cased query `q`, from book `k`
/// on, after `acc`: chapter 1 of each matching book; for a book whose name
/// is exactly the query, also its chapters 2 to 10 while fewer than ten
/// entries are listed; stopping once fifteen entries are listed.
pub open spec fn spec_book_entries_chirho(
    q: Seq<char>,
    k: int,
    acc: Seq<(Seq<char>, i32, Seq<char>)>,
) -> Seq<(Seq<char>, i32, Seq<char>)>
    decreases 66 - k,
{
    if k < 0 || k >= 66 {
        acc
    } else if spec_book_matches_chirho(q, k) {
        let with_first = acc.push((spec_book_name_chirho(k), 1i32, Seq::<char>::empty()));
        let with_chapters = if spec_lower_chirho(spec_book_name_chirho(k)) == q
            && with_first.len() < 10 {
            with_first + spec_chapter_entries_chirho(
                k,
                2,
                if spec_book_chapters_chirho(k) < 10 {
                    spec_book_chapters_chirho(k)
                } else {
                    10
                },
            )
        } else {
            with_first
        };
        if with_chapters.len() >= 15 {
            with_chapters
        } else {
            spec_book_entries_chirho(q, k + 1, with_chapters)
        }
    } else {
        spec_book_entries_chirho(q, k + 1, acc)
    }
}

/// Whether `s` holds an ASCII digit.
pub open spec fn spec_has_digit_chirho(s: Seq<char>) -> bool {
    exists|i: int| 0 <= i < s.len() && '0' <= #[trigger] s[i] && s[i] <= '9'
}

/// What the go-to box offers for a non-empty query: the matching book
/// entries, with the chapter the query spells as a reference put first when
/// the query holds a digit and that chapter is not listed yet; at most
/// fifteen entries.
pub open spec fn spec_quick_nav_chirho(query: Seq<char>) -> Seq<(Seq<char>, i32, Seq<char>)> {
    let books = spec_book_entries_chirho(spec_lower_chirho(query), 0, Seq::empty());
    let all = match spec_parse_reference_chirho(query) {
        Some((b, ch, _v)) => if spec_has_digit_chirho(query) && !(exists|i: int|
            0 <= i < books.len() && (#[trigger] books[i]).0 == spec_book_name_chirho(b)
                && books[i].1 == ch) {
            seq![(spec_book_name_chirho(b), ch, Seq::<char>::empty())] + books
        } else {
            books
        },
        None => books,
    };
    if all.len() > 15 {
        all.take(15)
    } else {
        all
    }
}

/// The UTF-8 length of a prefix grows with it.
proof fn lemma_utf8_len_grows_chirho(s: Seq<char>, a: int, b: int)
    requires
        0 <= a < b <= s.len(),
    ensures
        spec_utf8_len_chirho(s.take(a)) < spec_utf8_len_chirho(s.take(b)),
    decreases b - a,
{
    assert(s.take(b).drop_last() =~= s.take(b - 1));
    if a < b - 1 {
        lemma_utf8_len_grows_chirho(s, a, b - 1);
    }
}

/// The first three bytes of `q`, when they can be cut off.
fn three_byte_prefix_chirho(q: &Vec<char>) -> (r: Option<Vec<char>>)
    ensures
        match r {
            Some(p) => spec_prefix_cuttable_chirho(q@) && p@ == spec_three_byte_prefix_chirho(q@),
            None => !spec_prefix_cuttable_chirho(q@),
        },
{
    let mut used: u64 = 0;
    let mut k: usize = 0;
    while k < q.len() && used < 3
        invariant
            k <= q@.len(),
            used == spec_utf8_len_chirho(q@.take(k as int)),
            used <= 6,
            k > 0 ==> spec_utf8_len_chirho(q@.take(k - 1)) < 3,
        decreases q@.len() - k,
    {
        assert(q@.take(k + 1).drop_last() =~= q@.take(k as int));
        let c = q[k];
        let w: u64 = if (c as u32) < 0x80 {
            1
        } else if (c as u32) < 0x800 {
            2
        } else if (c as u32) < 0x10000 {
            3
        } else {
            4
        };
        used = used + w;
        k = k + 1;
    }
    if k == q.len() && used <= 3 {
        assert(q@.take(k as int) =~= q@);
        return Some(subrange_chirho(q, 0, k));
    }
    if used == 3 {
        let p = subrange_chirho(q, 0, k);
        proof {
            assert(p@ =~= q@.take(k as int));
            if spec_utf8_len_chirho(q@) <= 3 {
                if k < q@.len() {
                    lemma_utf8_len_grows_chirho(q@, k as int, q@.len() as int);
                    assert(q@.take(q@.len() as int) =~= q@);
                }
            } else {
                let j = choose|j: int| 0 <= j <= q@.len() && #[trigger] spec_utf8_len_chirho(q@.take(j)) == 3;
                if j < k {
                    lemma_utf8_len_grows_chirho(q@, j, k as int);
                } else if j > k {
                    lemma_utf8_len_grows_chirho(q@, k as int, j);
                }
            }
        }
        return Some(p);
    }
    proof {
        assert(used > 3);
        assert forall|j: int| 0 <= j <= q@.len() implies #[trigger] spec_utf8_len_chirho(q@.take(j)) != 3 by {
            if j < k {
                if j < k - 1 {
                    lemma_utf8_len_grows_chirho(q@, j, k - 1);
                }
            } else if j > k {
                lemma_utf8_len_grows_chirho(q@, k as int, j);
            }
        }
        if k < q@.len() {
            lemma_utf8_len_grows_chirho(q@, k as int, q@.len() as int);
        }
        assert(q@.take(q@.len() as int) =~= q@);
    }
    None
}

/// Whether `s` holds an ASCII digit.
fn has_digit_chirho(s: &Vec<char>) -> (r: bool)
    ensures
        r == spec_has_digit_chirho(s@),
{
    let mut i: usize = 0;
    while i < s.len()
        invariant
            i <= s@.len(),
            forall|j: int| 0 <= j < i ==> !('0' <= #[trigger] s@[j] && s@[j] <= '9'),
        decreases s@.len() - i,
    {
        if '0' <= s[i] && s[i] <= '9' {
            return true;
        }
        i = i + 1;
    }
    false
}

fn nav_entry_chirho(book: &str, chapter: i32) -> (r: HistoryEntryChirho)
    ensures
        spec_nav_view_chirho(r) == (book@, chapter, Seq::<char>::empty()),
{
    HistoryEntryChirho {
        book_chirho: String::from_str(book),
        chapter_chirho: chapter,
        timestamp_chirho: String::new(),
    }
}

/// The entries the go-to box offers for a non-empty query (see
/// `spec_quick_nav_chirho`). The first three bytes of the lower-cased query
/// must end on a character boundary, as cutting them off requires.
#[verifier::rlimit(80)]
pub fn quick_nav_matches_chirho(query: &str) -> (r: Vec<HistoryEntryChirho>)
    requires
        spec_prefix_cuttable_chirho(spec_lower_chirho(query@)),
    ensures
        spec_nav_views_chirho(r@) == spec_quick_nav_chirho(query@),
{
    let q = chars_of_chirho(to_lowercase_chirho(query).as_str());
    let prefix = match three_byte_prefix_chirho(&q) {
        Some(p) => p,
        None => Vec::new(),
    };
    let mut qbytes: u64 = 0;
    let mut m: usize = 0;
    while m < q.len() && qbytes < 2
        invariant
            m <= q@.len(),
            qbytes == spec_utf8_len_chirho(q@.take(m as int)),
            qbytes <= 5,
        decreases q@.len() - m,
    {
        assert(q@.take(m + 1).drop_last() =~= q@.take(m as int));
        let c = q[m];
        qbytes = qbytes + if (c as u32) < 0x80 {
            1
        } else if (c as u32) < 0x800 {
            2
        } else if (c as u32) < 0x10000 {
            3
        } else {
            4
        };
        m = m + 1;
    }
    let long_enough = qbytes >= 2;
    proof {
        if m < q@.len() {
            lemma_utf8_len_grows_chirho(q@, m as int, q@.len() as int);
        }
        assert(q@.take(q@.len() as int) =~= q@);
        assert(long_enough == (spec_utf8_len_chirho(q@) >= 2));
    }
    let mut results: Vec<HistoryEntryChirho> = Vec::new();
    let mut k: usize = 0;
    assert(spec_nav_views_chirho(results@) =~= Seq::<(Seq<char>, i32, Seq<char>)>::empty());
    while k < BIBLE_BOOK_COUNT_CHIRHO
        invariant
            k <= BIBLE_BOOK_COUNT_CHIRHO,
            q@ == spec_lower_chirho(query@),
            prefix@ == spec_three_byte_prefix_chirho(q@),
            long_enough == (spec_utf8_len_chirho(q@) >= 2),
            results.len() < 15,
            spec_book_entries_chirho(q@, 0, Seq::empty()) == spec_book_entries_chirho(
                q@,
                k as int,
                spec_nav_views_chirho(results@),
            ),
        decreases BIBLE_BOOK_COUNT_CHIRHO - k,
    {
        let name = book_name_chirho(k);
        let lower = chars_of_chirho(to_lowercase_chirho(name).as_str());
        let matches = starts_with_chirho(&lower, &q) || contains_chirho(&lower, &q) || (long_enough
            && starts_with_chirho(&lower, &prefix));
        let ghost before = spec_nav_views_chirho(results@);
        if matches {
            results.push(nav_entry_chirho(name, 1));
            let ghost with_first = spec_nav_views_chirho(results@);
            assert(with_first =~= before.push((spec_book_name_chirho(k as int), 1i32, Seq::<char>::empty())));
            if chars_eq_chirho(&lower, &q) && results.len() < 10 {
                let count = book_chapters_chirho(k);
                let last: i32 = if count < 10 {
                    count
                } else {
                    10
                };
                let mut ch: i32 = 2;
                while ch <= last
                    invariant
                        2 <= ch <= 11,
                        last <= 10,
                        ch <= last + 1 || ch == 2,
                        k < BIBLE_BOOK_COUNT_CHIRHO,
                        name@ == spec_book_name_chirho(k as int),
                        spec_nav_views_chirho(results@) == with_first + spec_chapter_entries_chirho(
                            k as int,
                            2,
                            ch - 1,
                        ),
                    decreases last - ch + 1,
                {
                    let ghost prev = spec_nav_views_chirho(results@);
                    results.push(nav_entry_chirho(name, ch));
                    assert(spec_chapter_entries_chirho(k as int, 2, ch as int) =~= spec_chapter_entries_chirho(
                        k as int,
                        2,
                        ch - 1,
                    ).push((spec_book_name_chirho(k as int), ch, Seq::<char>::empty())));
                    assert(spec_nav_views_chirho(results@) =~= prev.push(
                        (spec_book_name_chirho(k as int), ch, Seq::<char>::empty()),
                    ));
                    ch = ch + 1;
                }
                assert(spec_chapter_entries_chirho(k as int, 2, ch - 1) =~= spec_chapter_entries_chirho(
                    k as int,
                    2,
                    last as int,
                ));
            }
            if results.len() >= 15 {
                return finish_quick_nav_chirho(query, results);
            }
        }
        k = k + 1;
    }
    finish_quick_nav_chirho(query, results)
}

/// Puts the chapter the query spells first (when it holds a digit and
/// that chapter is not listed), and keeps fifteen entries at most.
fn finish_quick_nav_chirho(query: &str, results: Vec<HistoryEntryChirho>) -> (r: Vec<HistoryEntryChirho>)
    requires
        spec_nav_views_chirho(results@) == spec_book_entries_chirho(
            spec_lower_chirho(query@),
            0,
            Seq::empty(),
        ),
    ensures
        spec_nav_views_chirho(r@) == spec_quick_nav_chirho(query@),
{
    let ghost books = spec_nav_views_chirho(results@);
    let mut all = results;
    if has_digit_chirho(&chars_of_chirho(query)) {
        match parse_reference_chirho(query) {
            Some((book, chapter, _verse)) => {
                let mut found = false;
                let mut i: usize = 0;
                while i < all.len()
                    invariant
                        i <= all.len(),
                        spec_nav_views_chirho(all@) == books,
                        found == exists|j: int|
                            0 <= j < i && (#[trigger] books[j]).0 == book@ && books[j].1 == chapter,
                    decreases all.len() - i,
                {
                    assert(books[i as int] == spec_nav_view_chirho(all@[i as int]));
                    if chars_eq_chirho(&chars_of_chirho(all[i].book_chirho.as_str()), &chars_of_chirho(book.as_str()))
                        && all[i].chapter_chirho == chapter {
                        found = true;
                    }
                    i = i + 1;
                }
                if !found {
                    let e = HistoryEntryChirho {
                        book_chirho: book,
                        chapter_chirho: chapter,
                        timestamp_chirho: String::new(),
                    };
                    all.insert(0, e);
                    assert(spec_nav_views_chirho(all@) =~= seq![spec_nav_view_chirho(all@[0])] + books);
                }
            },
            None => {},
        }
    }
    let ghost full = spec_nav_views_chirho(all@);
    all.truncate(15);
    assert(spec_nav_views_chirho(all@) =~= (if full.len() > 15 {
        full.take(15)
    } else {
        full
    }));
    all
}

/// What the go-to box offers: for an empty query, the ten most recent
/// chapters read (none when they cannot be read); else the matches of
/// `quick_nav_matches_chirho`.
pub fn quick_nav_search_chirho(query: &str, conn: &rusqlite::Connection) -> (r: Vec<HistoryEntryChirho>)
    requires
        spec_prefix_cuttable_chirho(spec_lower_chirho(query@)),
    ensures
        query@.len() > 0 ==> spec_nav_views_chirho(r@) == spec_quick_nav_chirho(query@),
        query@.len() == 0 ==> exists|rows: Seq<Vec<SqlValueChirho>>|
            spec_nav_views_chirho(r@) == #[trigger] spec_history_nav_chirho(
                rows.filter_map(spec_history_row_fn_chirho()),
            ),
{
    if chars_of_chirho(query).len() == 0 {
        return match get_recent_history_chirho(conn, 10) {
            Ok(entries) => history_entries_for_ui_chirho(&entries),
            Err(_) => {
                let r: Vec<HistoryEntryChirho> = Vec::new();
                let ghost none = Seq::<Vec<SqlValueChirho>>::empty();
                assert(none.filter_map(spec_history_row_fn_chirho()) =~= Seq::<StoredHistoryChirho>::empty());
                assert(spec_nav_views_chirho(r@) =~= spec_history_nav_chirho(
                    none.filter_map(spec_history_row_fn_chirho()),
                ));
                r
            },
        };
    }
    quick_nav_matches_chirho(query)
}

/// `quick_nav_search_chirho` for any query: `None` when the first three
/// bytes of the lower-cased query cannot be cut off at a character boundary.
pub fn quick_nav_search_checked_chirho(query: &str, conn: &rusqlite::Connection) -> (r: Option<Vec<HistoryEntryChirho>>)
    ensures
        r is None <==> !spec_prefix_cuttable_chirho(spec_lower_chirho(query@)),
        query@.len() > 0 ==> (r matches Some(v) ==> spec_nav_views_chirho(v@) == spec_quick_nav_chirho(query@)),
        query@.len() == 0 ==> (r matches Some(v) ==> exists|rows: Seq<Vec<SqlValueChirho>>|
            spec_nav_views_chirho(v@) == #[trigger] spec_history_nav_chirho(
                rows.filter_map(spec_history_row_fn_chirho()),
            )),
{
    let q = chars_of_chirho(to_lowercase_chirho(query).as_str());
    match three_byte_prefix_chirho(&q) {
        Some(_) => Some(quick_nav_search_chirho(query, conn)),
        None => None,
    }
}

} // verus!
