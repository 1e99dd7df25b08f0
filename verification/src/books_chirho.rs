//! The canon of the Bible as the application knows it: the 66 books in
//! order, with their chapter counts, and navigation between books.

use vstd::prelude::*;
use crate::text_chirho::str_eq_chirho;

verus! {

/// Number of books in the Bible.
pub const BIBLE_BOOK_COUNT_CHIRHO: usize = 66;

/// Number of Old Testament books.
pub const OLD_TESTAMENT_BOOK_COUNT_CHIRHO: usize = 39;

/// Number of New Testament books.
pub const NEW_TESTAMENT_BOOK_COUNT_CHIRHO: usize = 27;

/// Default chapter number.
pub const DEFAULT_CHAPTER_CHIRHO: i32 = 1;

/// The name of the book at position `i` (0 is Genesis, 65 is Revelation).
pub open spec fn spec_book_name_chirho(i: int) -> Seq<char> {
    if i == 0 {
        "Genesis"@
    } else if i == 1 {
        "Exodus"@
    } else if i == 2 {
        "Leviticus"@
    } else if i == 3 {
        "Numbers"@
    } else if i == 4 {
        "Deuteronomy"@
    } else if i == 5 {
        "Joshua"@
    } else if i == 6 {
        "Judges"@
    } else if i == 7 {
        "Ruth"@
    } else if i == 8 {
        "1 Samuel"@
    } else if i == 9 {
        "2 Samuel"@
    } else if i == 10 {
        "1 Kings"@
    } else if i == 11 {
        "2 Kings"@
    } else if i == 12 {
        "1 Chronicles"@
    } else if i == 13 {
        "2 Chronicles"@
    } else if i == 14 {
        "Ezra"@
    } else if i == 15 {
        "Nehemiah"@
    } else if i == 16 {
        "Esther"@
    } else if i == 17 {
        "Job"@
    } else if i == 18 {
        "Psalms"@
    } else if i == 19 {
        "Proverbs"@
    } else if i == 20 {
        "Ecclesiastes"@
    } else if i == 21 {
        "Song of Solomon"@
    } else if i == 22 {
        "Isaiah"@
    } else if i == 23 {
        "Jeremiah"@
    } else if i == 24 {
        "Lamentations"@
    } else if i == 25 {
        "Ezekiel"@
    } else if i == 26 {
        "Daniel"@
    } else if i == 27 {
        "Hosea"@
    } else if i == 28 {
        "Joel"@
    } else if i == 29 {
        "Amos"@
    } else if i == 30 {
        "Obadiah"@
    } else if i == 31 {
        "Jonah"@
    } else if i == 32 {
        "Micah"@
    } else if i == 33 {
        "Nahum"@
    } else if i == 34 {
        "Habakkuk"@
    } else if i == 35 {
        "Zephaniah"@
    } else if i == 36 {
        "Haggai"@
    } else if i == 37 {
        "Zechariah"@
    } else if i == 38 {
        "Malachi"@
    } else if i == 39 {
        "Matthew"@
    } else if i == 40 {
        "Mark"@
    } else if i == 41 {
        "Luke"@
    } else if i == 42 {
        "John"@
    } else if i == 43 {
        "Acts"@
    } else if i == 44 {
        "Romans"@
    } else if i == 45 {
        "1 Corinthians"@
    } else if i == 46 {
        "2 Corinthians"@
    } else if i == 47 {
        "Galatians"@
    } else if i == 48 {
        "Ephesians"@
    } else if i == 49 {
        "Philippians"@
    } else if i == 50 {
        "Colossians"@
    } else if i == 51 {
        "1 Thessalonians"@
    } else if i == 52 {
        "2 Thessalonians"@
    } else if i == 53 {
        "1 Timothy"@
    } else if i == 54 {
        "2 Timothy"@
    } else if i == 55 {
        "Titus"@
    } else if i == 56 {
        "Philemon"@
    } else if i == 57 {
        "Hebrews"@
    } else if i == 58 {
        "James"@
    } else if i == 59 {
        "1 Peter"@
    } else if i == 60 {
        "2 Peter"@
    } else if i == 61 {
        "1 John"@
    } else if i == 62 {
        "2 John"@
    } else if i == 63 {
        "3 John"@
    } else if i == 64 {
        "Jude"@
    } else {
        "Revelation"@
    }
}

/// The number of chapters of the book at position `i`.
pub open spec fn spec_book_chapters_chirho(i: int) -> int {
    if i == 0 {
        50
    } else if i == 1 {
        40
    } else if i == 2 {
        27
    } else if i == 3 {
        36
    } else if i == 4 {
        34
    } else if i == 5 {
        24
    } else if i == 6 {
        21
    } else if i == 7 {
        4
    } else if i == 8 {
        31
    } else if i == 9 {
        24
    } else if i == 10 {
        22
    } else if i == 11 {
        25
    } else if i == 12 {
        29
    } else if i == 13 {
        36
    } else if i == 14 {
        10
    } else if i == 15 {
        13
    } else if i == 16 {
        10
    } else if i == 17 {
        42
    } else if i == 18 {
        150
    } else if i == 19 {
        31
    } else if i == 20 {
        12
    } else if i == 21 {
        8
    } else if i == 22 {
        66
    } else if i == 23 {
        52
    } else if i == 24 {
        5
    } else if i == 25 {
        48
    } else if i == 26 {
        12
    } else if i == 27 {
        14
    } else if i == 28 {
        3
    } else if i == 29 {
        9
    } else if i == 30 {
        1
    } else if i == 31 {
        4
    } else if i == 32 {
        7
    } else if i == 33 {
        3
    } else if i == 34 {
        3
    } else if i == 35 {
        3
    } else if i == 36 {
        2
    } else if i == 37 {
        14
    } else if i == 38 {
        4
    } else if i == 39 {
        28
    } else if i == 40 {
        16
    } else if i == 41 {
        24
    } else if i == 42 {
        21
    } else if i == 43 {
        28
    } else if i == 44 {
        16
    } else if i == 45 {
        16
    } else if i == 46 {
        13
    } else if i == 47 {
        6
    } else if i == 48 {
        6
    } else if i == 49 {
        4
    } else if i == 50 {
        4
    } else if i == 51 {
        5
    } else if i == 52 {
        3
    } else if i == 53 {
        6
    } else if i == 54 {
        4
    } else if i == 55 {
        3
    } else if i == 56 {
        1
    } else if i == 57 {
        13
    } else if i == 58 {
        5
    } else if i == 59 {
        5
    } else if i == 60 {
        3
    } else if i == 61 {
        5
    } else if i == 62 {
        1
    } else if i == 63 {
        1
    } else if i == 64 {
        1
    } else {
        22
    }
}

/// The name of the book at position `i`.
pub fn book_name_chirho(i: usize) -> (r: &'static str)
    requires
        i < BIBLE_BOOK_COUNT_CHIRHO,
    ensures
        r@ == spec_book_name_chirho(i as int),
{
    match i {
        0 => "Genesis",
        1 => "Exodus",
        2 => "Leviticus",
        3 => "Numbers",
        4 => "Deuteronomy",
        5 => "Joshua",
        6 => "Judges",
        7 => "Ruth",
        8 => "1 Samuel",
        9 => "2 Samuel",
        10 => "1 Kings",
        11 => "2 Kings",
        12 => "1 Chronicles",
        13 => "2 Chronicles",
        14 => "Ezra",
        15 => "Nehemiah",
        16 => "Esther",
        17 => "Job",
        18 => "Psalms",
        19 => "Proverbs",
        20 => "Ecclesiastes",
        21 => "Song of Solomon",
        22 => "Isaiah",
        23 => "Jeremiah",
        24 => "Lamentations",
        25 => "Ezekiel",
        26 => "Daniel",
        27 => "Hosea",
        28 => "Joel",
        29 => "Amos",
        30 => "Obadiah",
        31 => "Jonah",
        32 => "Micah",
        33 => "Nahum",
        34 => "Habakkuk",
        35 => "Zephaniah",
        36 => "Haggai",
        37 => "Zechariah",
        38 => "Malachi",
        39 => "Matthew",
        40 => "Mark",
        41 => "Luke",
        42 => "John",
        43 => "Acts",
        44 => "Romans",
        45 => "1 Corinthians",
        46 => "2 Corinthians",
        47 => "Galatians",
        48 => "Ephesians",
        49 => "Philippians",
        50 => "Colossians",
        51 => "1 Thessalonians",
        52 => "2 Thessalonians",
        53 => "1 Timothy",
        54 => "2 Timothy",
        55 => "Titus",
        56 => "Philemon",
        57 => "Hebrews",
        58 => "James",
        59 => "1 Peter",
        60 => "2 Peter",
        61 => "1 John",
        62 => "2 John",
        63 => "3 John",
        64 => "Jude",
        _ => "Revelation",
    }
}

/// The number of chapters of the book at position `i`.
pub fn book_chapters_chirho(i: usize) -> (r: i32)
    requires
        i < BIBLE_BOOK_COUNT_CHIRHO,
    ensures
        r == spec_book_chapters_chirho(i as int),
{
    match i {
        0 => 50,
        1 => 40,
        2 => 27,
        3 => 36,
        4 => 34,
        5 => 24,
        6 => 21,
        7 => 4,
        8 => 31,
        9 => 24,
        10 => 22,
        11 => 25,
        12 => 29,
        13 => 36,
        14 => 10,
        15 => 13,
        16 => 10,
        17 => 42,
        18 => 150,
        19 => 31,
        20 => 12,
        21 => 8,
        22 => 66,
        23 => 52,
        24 => 5,
        25 => 48,
        26 => 12,
        27 => 14,
        28 => 3,
        29 => 9,
        30 => 1,
        31 => 4,
        32 => 7,
        33 => 3,
        34 => 3,
        35 => 3,
        36 => 2,
        37 => 14,
        38 => 4,
        39 => 28,
        40 => 16,
        41 => 24,
        42 => 21,
        43 => 28,
        44 => 16,
        45 => 16,
        46 => 13,
        47 => 6,
        48 => 6,
        49 => 4,
        50 => 4,
        51 => 5,
        52 => 3,
        53 => 6,
        54 => 4,
        55 => 3,
        56 => 1,
        57 => 13,
        58 => 5,
        59 => 5,
        60 => 3,
        61 => 5,
        62 => 1,
        63 => 1,
        64 => 1,
        _ => 22,
    }
}

/// The whole table of books, in canonical order, with chapter counts.
pub fn bible_books_chirho() -> (r: Vec<(&'static str, i32)>)
    ensures
        r@.len() == BIBLE_BOOK_COUNT_CHIRHO,
        forall|i: int|
            0 <= i < r@.len() ==> (#[trigger] r@[i]).0@ == spec_book_name_chirho(i) && r@[i].1
                == spec_book_chapters_chirho(i),
{
    let mut r: Vec<(&'static str, i32)> = Vec::new();
    let mut i: usize = 0;
    while i < BIBLE_BOOK_COUNT_CHIRHO
        invariant
            i <= BIBLE_BOOK_COUNT_CHIRHO,
            r@.len() == i,
            forall|k: int|
                0 <= k < i ==> (#[trigger] r@[k]).0@ == spec_book_name_chirho(k) && r@[k].1
                    == spec_book_chapters_chirho(k),
        decreases BIBLE_BOOK_COUNT_CHIRHO - i,
    {
        r.push((book_name_chirho(i), book_chapters_chirho(i)));
        i = i + 1;
    }
    r
}

/// The position of the first book at or after `i` whose name is `name`.
pub open spec fn spec_book_index_from_chirho(name: Seq<char>, i: int) -> Option<int>
    decreases 66 - i,
{
    if i < 0 || i >= 66 {
        None
    } else if spec_book_name_chirho(i) == name {
        Some(i)
    } else {
        spec_book_index_from_chirho(name, i + 1)
    }
}

/// The position of the book named `name`, if it is one of the 66.
pub open spec fn spec_book_index_chirho(name: Seq<char>) -> Option<int> {
    spec_book_index_from_chirho(name, 0)
}

proof fn lemma_book_index_from_bounds_chirho(name: Seq<char>, i: int)
    requires
        0 <= i <= 66,
    ensures
        spec_book_index_from_chirho(name, i) matches Some(k) ==> i <= k < 66
            && spec_book_name_chirho(k) == name,
        spec_book_index_from_chirho(name, i) is None ==> forall|k: int|
            i <= k < 66 ==> spec_book_name_chirho(k) != name,
    decreases 66 - i,
{
    if i < 66 && spec_book_name_chirho(i) != name {
        lemma_book_index_from_bounds_chirho(name, i + 1);
    }
}

/// The position of the book named `book` (`iter().position()` over the
/// table), if any.
pub fn book_position_chirho(book: &str) -> (r: Option<usize>)
    ensures
        r matches Some(k) ==> spec_book_index_chirho(book@) == Some(k as int) && k
            < BIBLE_BOOK_COUNT_CHIRHO && spec_book_name_chirho(k as int) == book@,
        r is None ==> spec_book_index_chirho(book@) is None,
{
    proof {
        lemma_book_index_from_bounds_chirho(book@, 0);
    }
    let mut i: usize = 0;
    while i < BIBLE_BOOK_COUNT_CHIRHO
        invariant
            i <= BIBLE_BOOK_COUNT_CHIRHO,
            spec_book_index_chirho(book@) == spec_book_index_from_chirho(book@, i as int),
        decreases BIBLE_BOOK_COUNT_CHIRHO - i,
    {
        if str_eq_chirho(book_name_chirho(i), book) {
            return Some(i);
        }
        i = i + 1;
    }
    None
}

/// The number of chapters of the book named `book`, if it is a book of the
/// Bible.
pub fn get_chapter_count_chirho(book: &str) -> (r: Option<i32>)
    ensures
        r == (match spec_book_index_chirho(book@) {
            Some(k) => Some(spec_book_chapters_chirho(k) as i32),
            None => None,
        }),
{
    match book_position_chirho(book) {
        Some(k) => Some(book_chapters_chirho(k)),
        None => None,
    }
}

/// Whether `book` names a book of the Bible.
pub fn is_valid_book_chirho(book: &str) -> (r: bool)
    ensures
        r == spec_book_index_chirho(book@) is Some,
        r == (exists|k: int| 0 <= k < 66 && spec_book_name_chirho(k) == book@),
{
    proof {
        lemma_book_index_from_bounds_chirho(book@, 0);
    }
    book_position_chirho(book).is_some()
}

/// The book before position `i`, wrapping from Genesis to Revelation.
pub open spec fn spec_prev_book_chirho(i: int) -> int {
    if i == 0 {
        65
    } else {
        i - 1
    }
}

/// The book after position `i`, wrapping from Revelation to Genesis.
pub open spec fn spec_next_book_chirho(i: int) -> int {
    if i >= 65 {
        0
    } else {
        i + 1
    }
}

/// The position of the previous book, wrapping around at Genesis.
pub fn prev_book_index_chirho(i: usize) -> (r: usize)
    requires
        i < BIBLE_BOOK_COUNT_CHIRHO,
    ensures
        r == spec_prev_book_chirho(i as int),
        r < BIBLE_BOOK_COUNT_CHIRHO,
{
    if i == 0 {
        BIBLE_BOOK_COUNT_CHIRHO - 1
    } else {
        i - 1
    }
}

/// The position of the next book, wrapping around at Revelation.
pub fn next_book_index_chirho(i: usize) -> (r: usize)
    requires
        i < BIBLE_BOOK_COUNT_CHIRHO,
    ensures
        r == spec_next_book_chirho(i as int),
        r < BIBLE_BOOK_COUNT_CHIRHO,
{
    if i >= BIBLE_BOOK_COUNT_CHIRHO - 1 {
        0
    } else {
        i + 1
    }
}

/// Moving to the next book and then to the previous one comes back to where
/// one started, and so does the other order: the two form a cycle over the 66
/// books.
pub proof fn law_book_navigation_inverse_chirho(i: int)
    requires
        0 <= i < 66,
    ensures
        spec_prev_book_chirho(spec_next_book_chirho(i)) == i,
        spec_next_book_chirho(spec_prev_book_chirho(i)) == i,
        0 <= spec_next_book_chirho(i) < 66,
        0 <= spec_prev_book_chirho(i) < 66,
{
}

/// The Old Testament is the first 39 books and the New Testament the
/// remaining 27: together they are the whole canon, Malachi closing the one
/// and Matthew opening the other.
pub proof fn law_testaments_partition_canon_chirho()
    ensures
        OLD_TESTAMENT_BOOK_COUNT_CHIRHO + NEW_TESTAMENT_BOOK_COUNT_CHIRHO
            == BIBLE_BOOK_COUNT_CHIRHO,
        spec_book_name_chirho(OLD_TESTAMENT_BOOK_COUNT_CHIRHO - 1) == "Malachi"@,
        spec_book_name_chirho(OLD_TESTAMENT_BOOK_COUNT_CHIRHO as int) == "Matthew"@,
{
}

} // verus!
