//! Parsing of verse references typed by a reader, such as "John 3:16",
//! "Gen 1:1", "1Cor 13:4" or "Psalms 23".

use vstd::prelude::*;
use crate::books_chirho::{book_name_chirho, spec_book_name_chirho, BIBLE_BOOK_COUNT_CHIRHO};
use crate::text_chirho::{
    chars_of_chirho, lowercase_chars_chirho, parse_i32_chirho, spec_after_first_chirho,
    spec_ascii_lower_char_chirho, spec_ascii_lowercase_chirho, spec_is_ascii_chirho,
    spec_is_whitespace_chirho,
    spec_find_char_chirho, spec_first_field_chirho, spec_is_digit_chirho, spec_lower_chirho,
    spec_parse_i32_chirho, spec_starts_with_chirho, spec_trim_chirho, starts_with_chirho,
    string_from_chars_chirho, subrange_chirho, trim_chars_chirho, find_char_chirho,
    lemma_end_non_ws_bounds_chirho, lemma_find_char_bounds_chirho, lemma_first_non_ws_bounds_chirho,
    spec_first_non_ws_chirho,
};

verus! {

/// Number of book names and abbreviations that references may start with.
pub const ABBREVIATION_COUNT_CHIRHO: usize = 179;

/// The `i`-th accepted (lower-case) book name or abbreviation, in the order in
/// which they are tried.
pub open spec fn spec_abbreviation_chirho(i: int) -> Seq<char> {
    if i == 0 {
        "genesis"@
    } else if i == 1 {
        "gen"@
    } else if i == 2 {
        "exodus"@
    } else if i == 3 {
        "exo"@
    } else if i == 4 {
        "ex"@
    } else if i == 5 {
        "leviticus"@
    } else if i == 6 {
        "lev"@
    } else if i == 7 {
        "numbers"@
    } else if i == 8 {
        "num"@
    } else if i == 9 {
        "deuteronomy"@
    } else if i == 10 {
        "deut"@
    } else if i == 11 {
        "joshua"@
    } else if i == 12 {
        "josh"@
    } else if i == 13 {
        "judges"@
    } else if i == 14 {
        "judg"@
    } else if i == 15 {
        "jdg"@
    } else if i == 16 {
        "ruth"@
    } else if i == 17 {
        "1 samuel"@
    } else if i == 18 {
        "1samuel"@
    } else if i == 19 {
        "1sam"@
    } else if i == 20 {
        "1sa"@
    } else if i == 21 {
        "2 samuel"@
    } else if i == 22 {
        "2samuel"@
    } else if i == 23 {
        "2sam"@
    } else if i == 24 {
        "2sa"@
    } else if i == 25 {
        "1 kings"@
    } else if i == 26 {
        "1kings"@
    } else if i == 27 {
        "1ki"@
    } else if i == 28 {
        "1kgs"@
    } else if i == 29 {
        "2 kings"@
    } else if i == 30 {
        "2kings"@
    } else if i == 31 {
        "2ki"@
    } else if i == 32 {
        "2kgs"@
    } else if i == 33 {
        "1 chronicles"@
    } else if i == 34 {
        "1chronicles"@
    } else if i == 35 {
        "1chr"@
    } else if i == 36 {
        "1ch"@
    } else if i == 37 {
        "2 chronicles"@
    } else if i == 38 {
        "2chronicles"@
    } else if i == 39 {
        "2chr"@
    } else if i == 40 {
        "2ch"@
    } else if i == 41 {
        "ezra"@
    } else if i == 42 {
        "ezr"@
    } else if i == 43 {
        "nehemiah"@
    } else if i == 44 {
        "neh"@
    } else if i == 45 {
        "esther"@
    } else if i == 46 {
        "esth"@
    } else if i == 47 {
        "est"@
    } else if i == 48 {
        "job"@
    } else if i == 49 {
        "psalms"@
    } else if i == 50 {
        "psalm"@
    } else if i == 51 {
        "psa"@
    } else if i == 52 {
        "ps"@
    } else if i == 53 {
        "proverbs"@
    } else if i == 54 {
        "prov"@
    } else if i == 55 {
        "pro"@
    } else if i == 56 {
        "ecclesiastes"@
    } else if i == 57 {
        "eccl"@
    } else if i == 58 {
        "ecc"@
    } else if i == 59 {
        "song of solomon"@
    } else if i == 60 {
        "song"@
    } else if i == 61 {
        "sos"@
    } else if i == 62 {
        "isaiah"@
    } else if i == 63 {
        "isa"@
    } else if i == 64 {
        "jeremiah"@
    } else if i == 65 {
        "jer"@
    } else if i == 66 {
        "lamentations"@
    } else if i == 67 {
        "lam"@
    } else if i == 68 {
        "ezekiel"@
    } else if i == 69 {
        "ezek"@
    } else if i == 70 {
        "eze"@
    } else if i == 71 {
        "daniel"@
    } else if i == 72 {
        "dan"@
    } else if i == 73 {
        "hosea"@
    } else if i == 74 {
        "hos"@
    } else if i == 75 {
        "joel"@
    } else if i == 76 {
        "amos"@
    } else if i == 77 {
        "obadiah"@
    } else if i == 78 {
        "obad"@
    } else if i == 79 {
        "oba"@
    } else if i == 80 {
        "jonah"@
    } else if i == 81 {
        "jon"@
    } else if i == 82 {
        "micah"@
    } else if i == 83 {
        "mic"@
    } else if i == 84 {
        "nahum"@
    } else if i == 85 {
        "nah"@
    } else if i == 86 {
        "habakkuk"@
    } else if i == 87 {
        "hab"@
    } else if i == 88 {
        "zephaniah"@
    } else if i == 89 {
        "zeph"@
    } else if i == 90 {
        "zep"@
    } else if i == 91 {
        "haggai"@
    } else if i == 92 {
        "hag"@
    } else if i == 93 {
        "zechariah"@
    } else if i == 94 {
        "zech"@
    } else if i == 95 {
        "zec"@
    } else if i == 96 {
        "malachi"@
    } else if i == 97 {
        "mal"@
    } else if i == 98 {
        "matthew"@
    } else if i == 99 {
        "matt"@
    } else if i == 100 {
        "mat"@
    } else if i == 101 {
        "mark"@
    } else if i == 102 {
        "mk"@
    } else if i == 103 {
        "mar"@
    } else if i == 104 {
        "luke"@
    } else if i == 105 {
        "lk"@
    } else if i == 106 {
        "luk"@
    } else if i == 107 {
        "john"@
    } else if i == 108 {
        "jn"@
    } else if i == 109 {
        "joh"@
    } else if i == 110 {
        "acts"@
    } else if i == 111 {
        "romans"@
    } else if i == 112 {
        "rom"@
    } else if i == 113 {
        "1 corinthians"@
    } else if i == 114 {
        "1corinthians"@
    } else if i == 115 {
        "1cor"@
    } else if i == 116 {
        "1co"@
    } else if i == 117 {
        "2 corinthians"@
    } else if i == 118 {
        "2corinthians"@
    } else if i == 119 {
        "2cor"@
    } else if i == 120 {
        "2co"@
    } else if i == 121 {
        "galatians"@
    } else if i == 122 {
        "gal"@
    } else if i == 123 {
        "ephesians"@
    } else if i == 124 {
        "eph"@
    } else if i == 125 {
        "philippians"@
    } else if i == 126 {
        "phil"@
    } else if i == 127 {
        "php"@
    } else if i == 128 {
        "colossians"@
    } else if i == 129 {
        "col"@
    } else if i == 130 {
        "1 thessalonians"@
    } else if i == 131 {
        "1thessalonians"@
    } else if i == 132 {
        "1thess"@
    } else if i == 133 {
        "1th"@
    } else if i == 134 {
        "2 thessalonians"@
    } else if i == 135 {
        "2thessalonians"@
    } else if i == 136 {
        "2thess"@
    } else if i == 137 {
        "2th"@
    } else if i == 138 {
        "1 timothy"@
    } else if i == 139 {
        "1timothy"@
    } else if i == 140 {
        "1tim"@
    } else if i == 141 {
        "1ti"@
    } else if i == 142 {
        "2 timothy"@
    } else if i == 143 {
        "2timothy"@
    } else if i == 144 {
        "2tim"@
    } else if i == 145 {
        "2ti"@
    } else if i == 146 {
        "titus"@
    } else if i == 147 {
        "tit"@
    } else if i == 148 {
        "philemon"@
    } else if i == 149 {
        "phm"@
    } else if i == 150 {
        "phlm"@
    } else if i == 151 {
        "hebrews"@
    } else if i == 152 {
        "heb"@
    } else if i == 153 {
        "james"@
    } else if i == 154 {
        "jas"@
    } else if i == 155 {
        "jam"@
    } else if i == 156 {
        "1 peter"@
    } else if i == 157 {
        "1peter"@
    } else if i == 158 {
        "1pet"@
    } else if i == 159 {
        "1pe"@
    } else if i == 160 {
        "2 peter"@
    } else if i == 161 {
        "2peter"@
    } else if i == 162 {
        "2pet"@
    } else if i == 163 {
        "2pe"@
    } else if i == 164 {
        "1 john"@
    } else if i == 165 {
        "1john"@
    } else if i == 166 {
        "1jn"@
    } else if i == 167 {
        "1jo"@
    } else if i == 168 {
        "2 john"@
    } else if i == 169 {
        "2john"@
    } else if i == 170 {
        "2jn"@
    } else if i == 171 {
        "2jo"@
    } else if i == 172 {
        "3 john"@
    } else if i == 173 {
        "3john"@
    } else if i == 174 {
        "3jn"@
    } else if i == 175 {
        "3jo"@
    } else if i == 176 {
        "jude"@
    } else if i == 177 {
        "revelation"@
    } else {
        "rev"@
    }
}

/// The position in the canon of the book that the `i`-th abbreviation names.
pub open spec fn spec_abbreviation_book_chirho(i: int) -> int {
    if i == 0 {
        0
    } else if i == 1 {
        0
    } else if i == 2 {
        1
    } else if i == 3 {
        1
    } else if i == 4 {
        1
    } else if i == 5 {
        2
    } else if i == 6 {
        2
    } else if i == 7 {
        3
    } else if i == 8 {
        3
    } else if i == 9 {
        4
    } else if i == 10 {
        4
    } else if i == 11 {
        5
    } else if i == 12 {
        5
    } else if i == 13 {
        6
    } else if i == 14 {
        6
    } else if i == 15 {
        6
    } else if i == 16 {
        7
    } else if i == 17 {
        8
    } else if i == 18 {
        8
    } else if i == 19 {
        8
    } else if i == 20 {
        8
    } else if i == 21 {
        9
    } else if i == 22 {
        9
    } else if i == 23 {
        9
    } else if i == 24 {
        9
    } else if i == 25 {
        10
    } else if i == 26 {
        10
    } else if i == 27 {
        10
    } else if i == 28 {
        10
    } else if i == 29 {
        11
    } else if i == 30 {
        11
    } else if i == 31 {
        11
    } else if i == 32 {
        11
    } else if i == 33 {
        12
    } else if i == 34 {
        12
    } else if i == 35 {
        12
    } else if i == 36 {
        12
    } else if i == 37 {
        13
    } else if i == 38 {
        13
    } else if i == 39 {
        13
    } else if i == 40 {
        13
    } else if i == 41 {
        14
    } else if i == 42 {
        14
    } else if i == 43 {
        15
    } else if i == 44 {
        15
    } else if i == 45 {
        16
    } else if i == 46 {
        16
    } else if i == 47 {
        16
    } else if i == 48 {
        17
    } else if i == 49 {
        18
    } else if i == 50 {
        18
    } else if i == 51 {
        18
    } else if i == 52 {
        18
    } else if i == 53 {
        19
    } else if i == 54 {
        19
    } else if i == 55 {
        19
    } else if i == 56 {
        20
    } else if i == 57 {
        20
    } else if i == 58 {
        20
    } else if i == 59 {
        21
    } else if i == 60 {
        21
    } else if i == 61 {
        21
    } else if i == 62 {
        22
    } else if i == 63 {
        22
    } else if i == 64 {
        23
    } else if i == 65 {
        23
    } else if i == 66 {
        24
    } else if i == 67 {
        24
    } else if i == 68 {
        25
    } else if i == 69 {
        25
    } else if i == 70 {
        25
    } else if i == 71 {
        26
    } else if i == 72 {
        26
    } else if i == 73 {
        27
    } else if i == 74 {
        27
    } else if i == 75 {
        28
    } else if i == 76 {
        29
    } else if i == 77 {
        30
    } else if i == 78 {
        30
    } else if i == 79 {
        30
    } else if i == 80 {
        31
    } else if i == 81 {
        31
    } else if i == 82 {
        32
    } else if i == 83 {
        32
    } else if i == 84 {
        33
    } else if i == 85 {
        33
    } else if i == 86 {
        34
    } else if i == 87 {
        34
    } else if i == 88 {
        35
    } else if i == 89 {
        35
    } else if i == 90 {
        35
    } else if i == 91 {
        36
    } else if i == 92 {
        36
    } else if i == 93 {
        37
    } else if i == 94 {
        37
    } else if i == 95 {
        37
    } else if i == 96 {
        38
    } else if i == 97 {
        38
    } else if i == 98 {
        39
    } else if i == 99 {
        39
    } else if i == 100 {
        39
    } else if i == 101 {
        40
    } else if i == 102 {
        40
    } else if i == 103 {
        40
    } else if i == 104 {
        41
    } else if i == 105 {
        41
    } else if i == 106 {
        41
    } else if i == 107 {
        42
    } else if i == 108 {
        42
    } else if i == 109 {
        42
    } else if i == 110 {
        43
    } else if i == 111 {
        44
    } else if i == 112 {
        44
    } else if i == 113 {
        45
    } else if i == 114 {
        45
    } else if i == 115 {
        45
    } else if i == 116 {
        45
    } else if i == 117 {
        46
    } else if i == 118 {
        46
    } else if i == 119 {
        46
    } else if i == 120 {
        46
    } else if i == 121 {
        47
    } else if i == 122 {
        47
    } else if i == 123 {
        48
    } else if i == 124 {
        48
    } else if i == 125 {
        49
    } else if i == 126 {
        49
    } else if i == 127 {
        49
    } else if i == 128 {
        50
    } else if i == 129 {
        50
    } else if i == 130 {
        51
    } else if i == 131 {
        51
    } else if i == 132 {
        51
    } else if i == 133 {
        51
    } else if i == 134 {
        52
    } else if i == 135 {
        52
    } else if i == 136 {
        52
    } else if i == 137 {
        52
    } else if i == 138 {
        53
    } else if i == 139 {
        53
    } else if i == 140 {
        53
    } else if i == 141 {
        53
    } else if i == 142 {
        54
    } else if i == 143 {
        54
    } else if i == 144 {
        54
    } else if i == 145 {
        54
    } else if i == 146 {
        55
    } else if i == 147 {
        55
    } else if i == 148 {
        56
    } else if i == 149 {
        56
    } else if i == 150 {
        56
    } else if i == 151 {
        57
    } else if i == 152 {
        57
    } else if i == 153 {
        58
    } else if i == 154 {
        58
    } else if i == 155 {
        58
    } else if i == 156 {
        59
    } else if i == 157 {
        59
    } else if i == 158 {
        59
    } else if i == 159 {
        59
    } else if i == 160 {
        60
    } else if i == 161 {
        60
    } else if i == 162 {
        60
    } else if i == 163 {
        60
    } else if i == 164 {
        61
    } else if i == 165 {
        61
    } else if i == 166 {
        61
    } else if i == 167 {
        61
    } else if i == 168 {
        62
    } else if i == 169 {
        62
    } else if i == 170 {
        62
    } else if i == 171 {
        62
    } else if i == 172 {
        63
    } else if i == 173 {
        63
    } else if i == 174 {
        63
    } else if i == 175 {
        63
    } else if i == 176 {
        64
    } else if i == 177 {
        65
    } else {
        65
    }
}

/// The `i`-th abbreviation and the position of the book it names.
pub fn abbreviation_chirho(i: usize) -> (r: (&'static str, usize))
    requires
        i < ABBREVIATION_COUNT_CHIRHO,
    ensures
        r.0@ == spec_abbreviation_chirho(i as int),
        r.1 == spec_abbreviation_book_chirho(i as int),
        r.1 < BIBLE_BOOK_COUNT_CHIRHO,
{
    match i {
        0 => ("genesis", 0),
        1 => ("gen", 0),
        2 => ("exodus", 1),
        3 => ("exo", 1),
        4 => ("ex", 1),
        5 => ("leviticus", 2),
        6 => ("lev", 2),
        7 => ("numbers", 3),
        8 => ("num", 3),
        9 => ("deuteronomy", 4),
        10 => ("deut", 4),
        11 => ("joshua", 5),
        12 => ("josh", 5),
        13 => ("judges", 6),
        14 => ("judg", 6),
        15 => ("jdg", 6),
        16 => ("ruth", 7),
        17 => ("1 samuel", 8),
        18 => ("1samuel", 8),
        19 => ("1sam", 8),
        20 => ("1sa", 8),
        21 => ("2 samuel", 9),
        22 => ("2samuel", 9),
        23 => ("2sam", 9),
        24 => ("2sa", 9),
        25 => ("1 kings", 10),
        26 => ("1kings", 10),
        27 => ("1ki", 10),
        28 => ("1kgs", 10),
        29 => ("2 kings", 11),
        30 => ("2kings", 11),
        31 => ("2ki", 11),
        32 => ("2kgs", 11),
        33 => ("1 chronicles", 12),
        34 => ("1chronicles", 12),
        35 => ("1chr", 12),
        36 => ("1ch", 12),
        37 => ("2 chronicles", 13),
        38 => ("2chronicles", 13),
        39 => ("2chr", 13),
        40 => ("2ch", 13),
        41 => ("ezra", 14),
        42 => ("ezr", 14),
        43 => ("nehemiah", 15),
        44 => ("neh", 15),
        45 => ("esther", 16),
        46 => ("esth", 16),
        47 => ("est", 16),
        48 => ("job", 17),
        49 => ("psalms", 18),
        50 => ("psalm", 18),
        51 => ("psa", 18),
        52 => ("ps", 18),
        53 => ("proverbs", 19),
        54 => ("prov", 19),
        55 => ("pro", 19),
        56 => ("ecclesiastes", 20),
        57 => ("eccl", 20),
        58 => ("ecc", 20),
        59 => ("song of solomon", 21),
        60 => ("song", 21),
        61 => ("sos", 21),
        62 => ("isaiah", 22),
        63 => ("isa", 22),
        64 => ("jeremiah", 23),
        65 => ("jer", 23),
        66 => ("lamentations", 24),
        67 => ("lam", 24),
        68 => ("ezekiel", 25),
        69 => ("ezek", 25),
        70 => ("eze", 25),
        71 => ("daniel", 26),
        72 => ("dan", 26),
        73 => ("hosea", 27),
        74 => ("hos", 27),
        75 => ("joel", 28),
        76 => ("amos", 29),
        77 => ("obadiah", 30),
        78 => ("obad", 30),
        79 => ("oba", 30),
        80 => ("jonah", 31),
        81 => ("jon", 31),
        82 => ("micah", 32),
        83 => ("mic", 32),
        84 => ("nahum", 33),
        85 => ("nah", 33),
        86 => ("habakkuk", 34),
        87 => ("hab", 34),
        88 => ("zephaniah", 35),
        89 => ("zeph", 35),
        90 => ("zep", 35),
        91 => ("haggai", 36),
        92 => ("hag", 36),
        93 => ("zechariah", 37),
        94 => ("zech", 37),
        95 => ("zec", 37),
        96 => ("malachi", 38),
        97 => ("mal", 38),
        98 => ("matthew", 39),
        99 => ("matt", 39),
        100 => ("mat", 39),
        101 => ("mark", 40),
        102 => ("mk", 40),
        103 => ("mar", 40),
        104 => ("luke", 41),
        105 => ("lk", 41),
        106 => ("luk", 41),
        107 => ("john", 42),
        108 => ("jn", 42),
        109 => ("joh", 42),
        110 => ("acts", 43),
        111 => ("romans", 44),
        112 => ("rom", 44),
        113 => ("1 corinthians", 45),
        114 => ("1corinthians", 45),
        115 => ("1cor", 45),
        116 => ("1co", 45),
        117 => ("2 corinthians", 46),
        118 => ("2corinthians", 46),
        119 => ("2cor", 46),
        120 => ("2co", 46),
        121 => ("galatians", 47),
        122 => ("gal", 47),
        123 => ("ephesians", 48),
        124 => ("eph", 48),
        125 => ("philippians", 49),
        126 => ("phil", 49),
        127 => ("php", 49),
        128 => ("colossians", 50),
        129 => ("col", 50),
        130 => ("1 thessalonians", 51),
        131 => ("1thessalonians", 51),
        132 => ("1thess", 51),
        133 => ("1th", 51),
        134 => ("2 thessalonians", 52),
        135 => ("2thessalonians", 52),
        136 => ("2thess", 52),
        137 => ("2th", 52),
        138 => ("1 timothy", 53),
        139 => ("1timothy", 53),
        140 => ("1tim", 53),
        141 => ("1ti", 53),
        142 => ("2 timothy", 54),
        143 => ("2timothy", 54),
        144 => ("2tim", 54),
        145 => ("2ti", 54),
        146 => ("titus", 55),
        147 => ("tit", 55),
        148 => ("philemon", 56),
        149 => ("phm", 56),
        150 => ("phlm", 56),
        151 => ("hebrews", 57),
        152 => ("heb", 57),
        153 => ("james", 58),
        154 => ("jas", 58),
        155 => ("jam", 58),
        156 => ("1 peter", 59),
        157 => ("1peter", 59),
        158 => ("1pet", 59),
        159 => ("1pe", 59),
        160 => ("2 peter", 60),
        161 => ("2peter", 60),
        162 => ("2pet", 60),
        163 => ("2pe", 60),
        164 => ("1 john", 61),
        165 => ("1john", 61),
        166 => ("1jn", 61),
        167 => ("1jo", 61),
        168 => ("2 john", 62),
        169 => ("2john", 62),
        170 => ("2jn", 62),
        171 => ("2jo", 62),
        172 => ("3 john", 63),
        173 => ("3john", 63),
        174 => ("3jn", 63),
        175 => ("3jo", 63),
        176 => ("jude", 64),
        177 => ("revelation", 65),
        _ => ("rev", 65),
    }
}

/// The lower-cased reference `lower` starts with abbreviation `a`, and the
/// character that follows it is a space, a colon or an ASCII digit.
pub open spec fn spec_abbreviation_matches_chirho(lower: Seq<char>, a: Seq<char>) -> bool {
    &&& lower.len() > a.len()
    &&& spec_starts_with_chirho(lower, a)
    &&& (lower[a.len() as int] == ' ' || lower[a.len() as int] == ':' || spec_is_digit_chirho(
        lower[a.len() as int],
    ))
}

/// The verse part of a chapter-and-verse text: the second `:`-field when
/// there is one, else "1".
pub open spec fn spec_verse_text_chirho(rest: Seq<char>) -> Seq<char> {
    match spec_after_first_chirho(rest, ':') {
        Some(after) => spec_trim_chirho(spec_first_field_chirho(after, ':')),
        None => "1"@,
    }
}

/// Chapter and verse read from what follows the book name: the chapter is the
/// first `:`-field and must parse; the verse is the start of an optional
/// range `a-b` and defaults to 1.
pub open spec fn spec_chapter_verse_chirho(rest: Seq<char>) -> Option<(i32, i32)> {
    if rest.len() == 0 {
        None
    } else {
        match spec_parse_i32_chirho(spec_trim_chirho(spec_first_field_chirho(rest, ':'))) {
            None => None,
            Some(chapter) => {
                let verse = match spec_parse_i32_chirho(
                    spec_trim_chirho(spec_first_field_chirho(spec_verse_text_chirho(rest), '-')),
                ) {
                    Some(v) => v,
                    None => 1i32,
                };
                Some((chapter, verse))
            },
        }
    }
}

/// What follows the first `n` characters of the trimmed reference, trimmed.
pub open spec fn spec_remainder_chirho(t: Seq<char>, n: int) -> Seq<char> {
    if n <= t.len() {
        spec_trim_chirho(t.skip(n))
    } else {
        Seq::empty()
    }
}

/// The reading of trimmed reference `t` (lower-cased: `lower`) that the
/// abbreviations from the `i`-th on give: the first abbreviation that matches
/// and is followed by a chapter that parses decides.
pub open spec fn spec_parse_from_chirho(t: Seq<char>, lower: Seq<char>, i: int) -> Option<
    (int, i32, i32),
>
    decreases ABBREVIATION_COUNT_CHIRHO - i,
{
    if i < 0 || i >= ABBREVIATION_COUNT_CHIRHO {
        None
    } else {
        let a = spec_abbreviation_chirho(i);
        if spec_abbreviation_matches_chirho(lower, a) && spec_chapter_verse_chirho(
            spec_remainder_chirho(t, a.len() as int),
        ) is Some {
            let cv = spec_chapter_verse_chirho(spec_remainder_chirho(t, a.len() as int))->0;
            Some((spec_abbreviation_book_chirho(i), cv.0, cv.1))
        } else {
            spec_parse_from_chirho(t, lower, i + 1)
        }
    }
}

/// The book position, chapter and verse that reference `r` denotes, if any.
pub open spec fn spec_parse_reference_chirho(r: Seq<char>) -> Option<(int, i32, i32)> {
    let t = spec_trim_chirho(r);
    spec_parse_from_chirho(t, spec_lower_chirho(t), 0)
}

/// Reads chapter and verse from what follows the book name.
pub fn chapter_verse_chirho(rest: &Vec<char>) -> (r: Option<(i32, i32)>)
    ensures
        r == spec_chapter_verse_chirho(rest@),
{
    if rest.len() == 0 {
        return None;
    }
    let k = find_char_chirho(rest, ':', 0);
    let first = subrange_chirho(rest, 0, k);
    let first_t = trim_chars_chirho(&first);
    let chapter = match parse_i32_chirho(&first_t) {
        Some(c) => c,
        None => {
            return None;
        },
    };
    let verse_text: Vec<char> = if k < rest.len() {
        let after = subrange_chirho(rest, k + 1, rest.len());
        assert(after@ =~= rest@.skip(k + 1));
        let k2 = find_char_chirho(&after, ':', 0);
        let second = subrange_chirho(&after, 0, k2);
        trim_chars_chirho(&second)
    } else {
        chars_of_chirho("1")
    };
    let kd = find_char_chirho(&verse_text, '-', 0);
    let start = subrange_chirho(&verse_text, 0, kd);
    let start_t = trim_chars_chirho(&start);
    let verse = match parse_i32_chirho(&start_t) {
        Some(v) => v,
        None => 1,
    };
    Some((chapter, verse))
}

/// Whether `lower` starts with abbreviation `a` followed by a space, a colon
/// or a digit.
fn abbreviation_matches_chirho(lower: &Vec<char>, a: &Vec<char>) -> (r: bool)
    ensures
        r == spec_abbreviation_matches_chirho(lower@, a@),
{
    if lower.len() <= a.len() {
        return false;
    }
    if !starts_with_chirho(lower, a) {
        return false;
    }
    let c = lower[a.len()];
    c == ' ' || c == ':' || ('0' <= c && c <= '9')
}

/// Parses a verse reference such as "John 3:16", "Gen 1:1-10" or "Psalms 23"
/// into the canonical book name, the chapter and the (first) verse.
///
/// The reference is trimmed and matched, ignoring case, against the book
/// names and abbreviations in turn; the first one that is followed by a
/// space, a colon or a digit, and then by a chapter number, decides. The verse
/// defaults to 1 when it is missing or does not parse.
pub fn parse_reference_chirho(reference: &str) -> (r: Option<(String, i32, i32)>)
    ensures
        r matches Some(res) ==> spec_parse_reference_chirho(reference@) matches Some(p) && res.0@
            == spec_book_name_chirho(p.0) && res.1 == p.1 && res.2 == p.2,
        r is None ==> spec_parse_reference_chirho(reference@) is None,
{
    let all = chars_of_chirho(reference);
    let t = trim_chars_chirho(&all);
    let lower = lowercase_chars_chirho(&t);
    let mut i: usize = 0;
    while i < ABBREVIATION_COUNT_CHIRHO
        invariant
            i <= ABBREVIATION_COUNT_CHIRHO,
            t@ == spec_trim_chirho(reference@),
            lower@ == spec_lower_chirho(t@),
            spec_parse_reference_chirho(reference@) == spec_parse_from_chirho(t@, lower@, i as int),
        decreases ABBREVIATION_COUNT_CHIRHO - i,
    {
        let (a, book) = abbreviation_chirho(i);
        let av = chars_of_chirho(a);
        if abbreviation_matches_chirho(&lower, &av) {
            let rest: Vec<char> = if av.len() <= t.len() {
                let tail = subrange_chirho(&t, av.len(), t.len());
                assert(tail@ =~= t@.skip(av@.len() as int));
                trim_chars_chirho(&tail)
            } else {
                Vec::new()
            };
            assert(rest@ =~= spec_remainder_chirho(t@, av@.len() as int));
            match chapter_verse_chirho(&rest) {
                Some((chapter, verse)) => {
                    let name = chars_of_chirho(book_name_chirho(book));
                    return Some((string_from_chars_chirho(&name), chapter, verse));
                },
                None => {},
            }
        }
        i = i + 1;
    }
    None
}

/// The position in the abbreviation table of the full (lower-case) name of
/// book `k`.
pub open spec fn spec_full_name_index_chirho(k: int) -> int {
    if k == 0 {
        0
    } else if k == 1 {
        2
    } else if k == 2 {
        5
    } else if k == 3 {
        7
    } else if k == 4 {
        9
    } else if k == 5 {
        11
    } else if k == 6 {
        13
    } else if k == 7 {
        16
    } else if k == 8 {
        17
    } else if k == 9 {
        21
    } else if k == 10 {
        25
    } else if k == 11 {
        29
    } else if k == 12 {
        33
    } else if k == 13 {
        37
    } else if k == 14 {
        41
    } else if k == 15 {
        43
    } else if k == 16 {
        45
    } else if k == 17 {
        48
    } else if k == 18 {
        49
    } else if k == 19 {
        53
    } else if k == 20 {
        56
    } else if k == 21 {
        59
    } else if k == 22 {
        62
    } else if k == 23 {
        64
    } else if k == 24 {
        66
    } else if k == 25 {
        68
    } else if k == 26 {
        71
    } else if k == 27 {
        73
    } else if k == 28 {
        75
    } else if k == 29 {
        76
    } else if k == 30 {
        77
    } else if k == 31 {
        80
    } else if k == 32 {
        82
    } else if k == 33 {
        84
    } else if k == 34 {
        86
    } else if k == 35 {
        88
    } else if k == 36 {
        91
    } else if k == 37 {
        93
    } else if k == 38 {
        96
    } else if k == 39 {
        98
    } else if k == 40 {
        101
    } else if k == 41 {
        104
    } else if k == 42 {
        107
    } else if k == 43 {
        110
    } else if k == 44 {
        111
    } else if k == 45 {
        113
    } else if k == 46 {
        117
    } else if k == 47 {
        121
    } else if k == 48 {
        123
    } else if k == 49 {
        125
    } else if k == 50 {
        128
    } else if k == 51 {
        130
    } else if k == 52 {
        134
    } else if k == 53 {
        138
    } else if k == 54 {
        142
    } else if k == 55 {
        146
    } else if k == 56 {
        148
    } else if k == 57 {
        151
    } else if k == 58 {
        153
    } else if k == 59 {
        156
    } else if k == 60 {
        160
    } else if k == 61 {
        164
    } else if k == 62 {
        168
    } else if k == 63 {
        172
    } else if k == 64 {
        176
    } else {
        177
    }
}

/// In a lower-cased reference that starts with the full name of book `k`
/// and a space, followed by a digit or `-`, no abbreviation before that
/// full name matches; the full name matches and denotes book `k`.
#[verifier::rlimit(100)]
pub proof fn lemma_first_match_is_full_name_chirho(k: int, x: Seq<char>)
    requires
        0 <= k < BIBLE_BOOK_COUNT_CHIRHO,
        x.len() > 0,
        spec_is_digit_chirho(x[0]) || x[0] == '-',
    ensures
        forall|i: int|
            0 <= i < spec_full_name_index_chirho(k) ==> !spec_abbreviation_matches_chirho(
                spec_ascii_lowercase_chirho(spec_book_name_chirho(k)) + seq![' '] + x,
                #[trigger] spec_abbreviation_chirho(i),
            ),
        0 <= spec_full_name_index_chirho(k) < ABBREVIATION_COUNT_CHIRHO,
        spec_abbreviation_chirho(spec_full_name_index_chirho(k)) == spec_ascii_lowercase_chirho(
            spec_book_name_chirho(k),
        ),
        spec_abbreviation_book_chirho(spec_full_name_index_chirho(k)) == k,
        spec_book_name_chirho(k).len() > 0,
        !spec_is_whitespace_chirho(spec_book_name_chirho(k)[0]),
        spec_is_ascii_chirho(spec_book_name_chirho(k)),
{
    reveal_strlit("1 Chronicles");
    reveal_strlit("1 Corinthians");
    reveal_strlit("1 John");
    reveal_strlit("1 Kings");
    reveal_strlit("1 Peter");
    reveal_strlit("1 Samuel");
    reveal_strlit("1 Thessalonians");
    reveal_strlit("1 Timothy");
    reveal_strlit("1 chronicles");
    reveal_strlit("1 corinthians");
    reveal_strlit("1 john");
    reveal_strlit("1 kings");
    reveal_strlit("1 peter");
    reveal_strlit("1 samuel");
    reveal_strlit("1 thessalonians");
    reveal_strlit("1 timothy");
    reveal_strlit("1ch");
    reveal_strlit("1chr");
    reveal_strlit("1chronicles");
    reveal_strlit("1co");
    reveal_strlit("1cor");
    reveal_strlit("1corinthians");
    reveal_strlit("1jn");
    reveal_strlit("1jo");
    reveal_strlit("1john");
    reveal_strlit("1kgs");
    reveal_strlit("1ki");
    reveal_strlit("1kings");
    reveal_strlit("1pe");
    reveal_strlit("1pet");
    reveal_strlit("1peter");
    reveal_strlit("1sa");
    reveal_strlit("1sam");
    reveal_strlit("1samuel");
    reveal_strlit("1th");
    reveal_strlit("1thess");
    reveal_strlit("1thessalonians");
    reveal_strlit("1ti");
    reveal_strlit("1tim");
    reveal_strlit("1timothy");
    reveal_strlit("2 Chronicles");
    reveal_strlit("2 Corinthians");
    reveal_strlit("2 John");
    reveal_strlit("2 Kings");
    reveal_strlit("2 Peter");
    reveal_strlit("2 Samuel");
    reveal_strlit("2 Thessalonians");
    reveal_strlit("2 Timothy");
    reveal_strlit("2 chronicles");
    reveal_strlit("2 corinthians");
    reveal_strlit("2 john");
    reveal_strlit("2 kings");
    reveal_strlit("2 peter");
    reveal_strlit("2 samuel");
    reveal_strlit("2 thessalonians");
    reveal_strlit("2 timothy");
    reveal_strlit("2ch");
    reveal_strlit("2chr");
    reveal_strlit("2chronicles");
    reveal_strlit("2co");
    reveal_strlit("2cor");
    reveal_strlit("2corinthians");
    reveal_strlit("2jn");
    reveal_strlit("2jo");
    reveal_strlit("2john");
    reveal_strlit("2kgs");
    reveal_strlit("2ki");
    reveal_strlit("2kings");
    reveal_strlit("2pe");
    reveal_strlit("2pet");
    reveal_strlit("2peter");
    reveal_strlit("2sa");
    reveal_strlit("2sam");
    reveal_strlit("2samuel");
    reveal_strlit("2th");
    reveal_strlit("2thess");
    reveal_strlit("2thessalonians");
    reveal_strlit("2ti");
    reveal_strlit("2tim");
    reveal_strlit("2timothy");
    reveal_strlit("3 John");
    reveal_strlit("3 john");
    reveal_strlit("3jn");
    reveal_strlit("3jo");
    reveal_strlit("3john");
    reveal_strlit("Acts");
    reveal_strlit("Amos");
    reveal_strlit("Colossians");
    reveal_strlit("Daniel");
    reveal_strlit("Deuteronomy");
    reveal_strlit("Ecclesiastes");
    reveal_strlit("Ephesians");
    reveal_strlit("Esther");
    reveal_strlit("Exodus");
    reveal_strlit("Ezekiel");
    reveal_strlit("Ezra");
    reveal_strlit("Galatians");
    reveal_strlit("Genesis");
    reveal_strlit("Habakkuk");
    reveal_strlit("Haggai");
    reveal_strlit("Hebrews");
    reveal_strlit("Hosea");
    reveal_strlit("Isaiah");
    reveal_strlit("James");
    reveal_strlit("Jeremiah");
    reveal_strlit("Job");
    reveal_strlit("Joel");
    reveal_strlit("John");
    reveal_strlit("Jonah");
    reveal_strlit("Joshua");
    reveal_strlit("Jude");
    reveal_strlit("Judges");
    reveal_strlit("Lamentations");
    reveal_strlit("Leviticus");
    reveal_strlit("Luke");
    reveal_strlit("Malachi");
    reveal_strlit("Mark");
    reveal_strlit("Matthew");
    reveal_strlit("Micah");
    reveal_strlit("Nahum");
    reveal_strlit("Nehemiah");
    reveal_strlit("Numbers");
    reveal_strlit("Obadiah");
    reveal_strlit("Philemon");
    reveal_strlit("Philippians");
    reveal_strlit("Proverbs");
    reveal_strlit("Psalms");
    reveal_strlit("Revelation");
    reveal_strlit("Romans");
    reveal_strlit("Ruth");
    reveal_strlit("Song of Solomon");
    reveal_strlit("Titus");
    reveal_strlit("Zechariah");
    reveal_strlit("Zephaniah");
    reveal_strlit("acts");
    reveal_strlit("amos");
    reveal_strlit("col");
    reveal_strlit("colossians");
    reveal_strlit("dan");
    reveal_strlit("daniel");
    reveal_strlit("deut");
    reveal_strlit("deuteronomy");
    reveal_strlit("ecc");
    reveal_strlit("eccl");
    reveal_strlit("ecclesiastes");
    reveal_strlit("eph");
    reveal_strlit("ephesians");
    reveal_strlit("est");
    reveal_strlit("esth");
    reveal_strlit("esther");
    reveal_strlit("ex");
    reveal_strlit("exo");
    reveal_strlit("exodus");
    reveal_strlit("eze");
    reveal_strlit("ezek");
    reveal_strlit("ezekiel");
    reveal_strlit("ezr");
    reveal_strlit("ezra");
    reveal_strlit("gal");
    reveal_strlit("galatians");
    reveal_strlit("gen");
    reveal_strlit("genesis");
    reveal_strlit("hab");
    reveal_strlit("habakkuk");
    reveal_strlit("hag");
    reveal_strlit("haggai");
    reveal_strlit("heb");
    reveal_strlit("hebrews");
    reveal_strlit("hos");
    reveal_strlit("hosea");
    reveal_strlit("isa");
    reveal_strlit("isaiah");
    reveal_strlit("jam");
    reveal_strlit("james");
    reveal_strlit("jas");
    reveal_strlit("jdg");
    reveal_strlit("jer");
    reveal_strlit("jeremiah");
    reveal_strlit("jn");
    reveal_strlit("job");
    reveal_strlit("joel");
    reveal_strlit("joh");
    reveal_strlit("john");
    reveal_strlit("jon");
    reveal_strlit("jonah");
    reveal_strlit("josh");
    reveal_strlit("joshua");
    reveal_strlit("jude");
    reveal_strlit("judg");
    reveal_strlit("judges");
    reveal_strlit("lam");
    reveal_strlit("lamentations");
    reveal_strlit("lev");
    reveal_strlit("leviticus");
    reveal_strlit("lk");
    reveal_strlit("luk");
    reveal_strlit("luke");
    reveal_strlit("mal");
    reveal_strlit("malachi");
    reveal_strlit("mar");
    reveal_strlit("mark");
    reveal_strlit("mat");
    reveal_strlit("matt");
    reveal_strlit("matthew");
    reveal_strlit("mic");
    reveal_strlit("micah");
    reveal_strlit("mk");
    reveal_strlit("nah");
    reveal_strlit("nahum");
    reveal_strlit("neh");
    reveal_strlit("nehemiah");
    reveal_strlit("num");
    reveal_strlit("numbers");
    reveal_strlit("oba");
    reveal_strlit("obad");
    reveal_strlit("obadiah");
    reveal_strlit("phil");
    reveal_strlit("philemon");
    reveal_strlit("philippians");
    reveal_strlit("phlm");
    reveal_strlit("phm");
    reveal_strlit("php");
    reveal_strlit("pro");
    reveal_strlit("prov");
    reveal_strlit("proverbs");
    reveal_strlit("ps");
    reveal_strlit("psa");
    reveal_strlit("psalm");
    reveal_strlit("psalms");
    reveal_strlit("rev");
    reveal_strlit("revelation");
    reveal_strlit("rom");
    reveal_strlit("romans");
    reveal_strlit("ruth");
    reveal_strlit("song");
    reveal_strlit("song of solomon");
    reveal_strlit("sos");
    reveal_strlit("tit");
    reveal_strlit("titus");
    reveal_strlit("zec");
    reveal_strlit("zech");
    reveal_strlit("zechariah");
    reveal_strlit("zep");
    reveal_strlit("zeph");
    reveal_strlit("zephaniah");
    let name = spec_book_name_chirho(k);
    let lname = spec_ascii_lowercase_chirho(name);
    let lower = lname + seq![' '] + x;
    assert(lname =~= spec_abbreviation_chirho(spec_full_name_index_chirho(k)));
    assert forall|j: int| 0 <= j < lname.len() implies #[trigger] lower[j] == spec_ascii_lower_char_chirho(
        name[j],
    ) by {}
    assert(lower[lname.len() as int] == ' ');
    assert(lower[lname.len() as int + 1] == x[0]);
    assert forall|i: int| 0 <= i < spec_full_name_index_chirho(k) implies !spec_abbreviation_matches_chirho(
        lower,
        #[trigger] spec_abbreviation_chirho(i),
    ) by {
        let a = spec_abbreviation_chirho(i);
        if spec_abbreviation_matches_chirho(lower, a) {
            assert(forall|j: int| 0 <= j < a.len() ==> lower.take(a.len() as int)[j] == lower[j]);
            assert(forall|j: int| 0 <= j < a.len() ==> lower.take(a.len() as int)[j] == a[j]);
            assert(a.len() > 0 ==> lower[0] == a[0]);
            assert(a.len() > 1 ==> lower[1] == a[1]);
            assert(a.len() > 2 ==> lower[2] == a[2]);
            assert(a.len() > 3 ==> lower[3] == a[3]);
            assert(a.len() > 4 ==> lower[4] == a[4]);
            assert(a.len() > 5 ==> lower[5] == a[5]);
            assert(a.len() > 6 ==> lower[6] == a[6]);
            assert(a.len() > 7 ==> lower[7] == a[7]);
            assert(a.len() > 8 ==> lower[8] == a[8]);
            assert(a.len() > 9 ==> lower[9] == a[9]);
            assert(a.len() > 10 ==> lower[10] == a[10]);
            assert(a.len() > 11 ==> lower[11] == a[11]);
            assert(a.len() > 12 ==> lower[12] == a[12]);
            assert(a.len() > 13 ==> lower[13] == a[13]);
            assert(a.len() > 14 ==> lower[14] == a[14]);
            assert(a.len() > 15 ==> lower[15] == a[15]);
            assert(lower[a.len() as int] == ' ' || lower[a.len() as int] == ':' || spec_is_digit_chirho(lower[a.len() as int]));
            assert(false);
        }
    }
}

/// Abbreviations from `from` up to `to` that do not match leave the reading
/// to those from `to` on.
pub proof fn lemma_parse_skip_chirho(t: Seq<char>, lower: Seq<char>, from: int, to: int)
    requires
        0 <= from <= to <= ABBREVIATION_COUNT_CHIRHO,
        forall|i: int|
            from <= i < to ==> !spec_abbreviation_matches_chirho(lower, #[trigger] spec_abbreviation_chirho(i)),
    ensures
        spec_parse_from_chirho(t, lower, from) == spec_parse_from_chirho(t, lower, to),
    decreases to - from,
{
    if from < to {
        lemma_parse_skip_chirho(t, lower, from + 1, to);
    }
}

/// Whatever a reference parses to, the book is one of the 66 books of the
/// canon, and the verse is 0 or more (a `-` in the verse part only ends a
/// range).
pub proof fn law_parsed_book_is_canonical_chirho(r: Seq<char>)
    ensures
        spec_parse_reference_chirho(r) matches Some(p) ==> 0 <= p.0 < BIBLE_BOOK_COUNT_CHIRHO,
        spec_parse_reference_chirho(r) matches Some(p) ==> p.2 >= 0,
{
    let t = spec_trim_chirho(r);
    lemma_parse_from_canonical_chirho(t, spec_lower_chirho(t), 0);
}

proof fn lemma_parse_from_canonical_chirho(t: Seq<char>, lower: Seq<char>, i: int)
    ensures
        spec_parse_from_chirho(t, lower, i) matches Some(p) ==> 0 <= p.0 < BIBLE_BOOK_COUNT_CHIRHO,
        spec_parse_from_chirho(t, lower, i) matches Some(p) ==> p.2 >= 0,
    decreases ABBREVIATION_COUNT_CHIRHO - i,
{
    if 0 <= i < ABBREVIATION_COUNT_CHIRHO {
        lemma_abbreviation_book_in_canon_chirho(i);
        let rest = spec_remainder_chirho(t, spec_abbreviation_chirho(i).len() as int);
        lemma_verse_not_negative_chirho(spec_verse_text_chirho(rest));
        lemma_parse_from_canonical_chirho(t, lower, i + 1);
    }
}

/// A verse read from the part before a `-` never carries a minus sign.
proof fn lemma_verse_not_negative_chirho(t: Seq<char>)
    ensures
        spec_parse_i32_chirho(spec_trim_chirho(spec_first_field_chirho(t, '-'))) matches Some(v) ==> v
            >= 0,
{
    let k = spec_find_char_chirho(t, '-', 0);
    lemma_find_char_bounds_chirho(t, '-', 0);
    let f = spec_first_field_chirho(t, '-');
    assert(f =~= t.take(k));
    lemma_first_non_ws_bounds_chirho(f, 0);
    let a = spec_first_non_ws_chirho(f, 0);
    let s = spec_trim_chirho(f);
    if a < f.len() {
        lemma_end_non_ws_bounds_chirho(f, f.len() as int, a);
        assert(s[0] == f[a]);
        assert(f[a] == t[a]);
    }
}

proof fn lemma_abbreviation_book_in_canon_chirho(i: int)
    requires
        0 <= i < ABBREVIATION_COUNT_CHIRHO,
    ensures
        0 <= spec_abbreviation_book_chirho(i) < BIBLE_BOOK_COUNT_CHIRHO,
{
}

} // verus!
