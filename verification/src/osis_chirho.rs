//! Reading interlinear words out of OSIS markup: each
//! `<w attributes>text</w>` element becomes a word, with its gloss, its
//! Strong's numbers and its morphology taken from the attributes.
//!
//! The grammar is that of the patterns the reader was specified with:
//! an element is `<w`, white space, attributes up to the first `>`, text
//! up to the first `<`, then `</w>`; elements are found left to right
//! without overlapping. `gloss="..."` and `morph="..."` give the first
//! quoted value of that attribute, and every `strong:` followed by `G` or
//! `H` and ASCII digits gives a Strong's number.

use vstd::prelude::*;
use crate::models_chirho::{InterlinearWordChirho, InterlinearWordViewChirho};
use crate::text_chirho::{
    chars_of_chirho, find_char_chirho, is_whitespace_chirho, join_chirho,
    lemma_find_char_bounds_chirho, lemma_first_non_ws_bounds_chirho, occurs_at_chirho,
    spec_find_char_chirho, spec_first_field_chirho, spec_first_non_ws_chirho,
    spec_is_whitespace_chirho, spec_join_chirho, spec_occurs_at_chirho, spec_trim_chirho,
    spec_views_chirho, string_from_chars_chirho, subrange_chirho, trim_chars_chirho,
};

verus! {

// ---------------------------------------------------------------------------
// Word elements
// ---------------------------------------------------------------------------

/// The word element that starts at `i`, if one does: the index where its
/// attributes start, the index of the `>` that ends them, and the index of
/// the `<` of its closing `</w>`.
pub open spec fn spec_word_at_chirho(t: Seq<char>, i: int) -> Option<(int, int, int)> {
    if 0 <= i && i + 2 < t.len() && t[i] == '<' && t[i + 1] == 'w' && spec_is_whitespace_chirho(
        t[i + 2],
    ) {
        let a = spec_first_non_ws_chirho(t, i + 2);
        let j = spec_find_char_chirho(t, '>', a);
        let k = spec_find_char_chirho(t, '<', j + 1);
        if i < j && j < k && k + 4 <= t.len() && t[k + 1] == '/' && t[k + 2] == 'w' && t[k + 3]
            == '>' {
            Some((a, j, k))
        } else {
            None
        }
    } else {
        None
    }
}

/// The (attributes, text) of the word elements of `t` from index `i` on,
/// found left to right without overlapping.
pub open spec fn spec_words_from_chirho(t: Seq<char>, i: int) -> Seq<(Seq<char>, Seq<char>)>
    decreases t.len() - i,
{
    if i < 0 || i >= t.len() {
        Seq::empty()
    } else {
        match spec_word_at_chirho(t, i) {
            Some((a, j, k)) => seq![(t.subrange(a, j), t.subrange(j + 1, k))]
                + spec_words_from_chirho(t, k + 4),
            None => spec_words_from_chirho(t, i + 1),
        }
    }
}

/// The index of the first non-white-space character of `v` at or after `i`.
fn first_non_ws_from_chirho(v: &Vec<char>, i: usize) -> (r: usize)
    requires
        i <= v@.len(),
    ensures
        r == spec_first_non_ws_chirho(v@, i as int),
{
    let mut k: usize = i;
    while k < v.len() && is_whitespace_chirho(v[k])
        invariant
            i <= k <= v@.len(),
            spec_first_non_ws_chirho(v@, i as int) == spec_first_non_ws_chirho(v@, k as int),
        decreases v@.len() - k,
    {
        k = k + 1;
    }
    k
}

fn word_at_chirho(t: &Vec<char>, i: usize) -> (r: Option<(usize, usize, usize)>)
    requires
        i < t@.len(),
    ensures
        match r {
            Some((a, j, k)) => spec_word_at_chirho(t@, i as int) == Some(
                (a as int, j as int, k as int),
            ),
            None => spec_word_at_chirho(t@, i as int) is None,
        },
{
    if !(t.len() > 2 && i < t.len() - 2 && t[i] == '<' && t[i + 1] == 'w' && is_whitespace_chirho(t[i + 2])) {
        return None;
    }
    proof {
        lemma_first_non_ws_bounds_chirho(t@, i + 2);
    }
    let a = first_non_ws_from_chirho(t, i + 2);
    let j = find_char_chirho(t, '>', a);
    if j >= t.len() {
        proof {
            lemma_find_char_bounds_chirho(t@, '<', t@.len() as int);
        }
        return None;
    }
    let k = find_char_chirho(t, '<', j + 1);
    if i < j && j < k && k <= t.len() - 4 && t[k + 1] == '/' && t[k + 2] == 'w' && t[k + 3]
        == '>' {
        Some((a, j, k))
    } else {
        None
    }
}

/// The (attributes, text) of every word element of `t`.
pub fn osis_words_chirho(t: &Vec<char>) -> (r: Vec<(Vec<char>, Vec<char>)>)
    ensures
        r@.map_values(|p: (Vec<char>, Vec<char>)| (p.0@, p.1@)) == spec_words_from_chirho(t@, 0),
{
    let mut out: Vec<(Vec<char>, Vec<char>)> = Vec::new();
    let mut i: usize = 0;
    while i < t.len()
        invariant
            i <= t@.len(),
            out@.map_values(|p: (Vec<char>, Vec<char>)| (p.0@, p.1@)) + spec_words_from_chirho(
                t@,
                i as int,
            ) == spec_words_from_chirho(t@, 0),
        decreases t@.len() - i,
    {
        let ghost before = out@.map_values(|p: (Vec<char>, Vec<char>)| (p.0@, p.1@));
        match word_at_chirho(t, i) {
            Some((a, j, k)) => {
                proof {
                    lemma_first_non_ws_bounds_chirho(t@, i + 2);
                    lemma_find_char_bounds_chirho(t@, '>', a as int);
                    lemma_find_char_bounds_chirho(t@, '<', j + 1);
                }
                let attrs = subrange_chirho(t, a, j);
                let text = subrange_chirho(t, j + 1, k);
                out.push((attrs, text));
                proof {
                    let now = out@.map_values(|p: (Vec<char>, Vec<char>)| (p.0@, p.1@));
                    assert(now =~= before + seq![(t@.subrange(a as int, j as int), t@.subrange(j + 1, k as int))]);
                    if k + 4 < t@.len() {
                    } else {
                        assert(spec_words_from_chirho(t@, k + 4) =~= Seq::<(Seq<char>, Seq<char>)>::empty());
                    }
                }
                i = k + 4;
            },
            None => {
                i = i + 1;
            },
        }
    }
    proof {
        let fin = out@.map_values(|p: (Vec<char>, Vec<char>)| (p.0@, p.1@));
        assert(fin + Seq::<(Seq<char>, Seq<char>)>::empty() =~= fin);
    }
    out
}

// ---------------------------------------------------------------------------
// Attributes
// ---------------------------------------------------------------------------

/// The index of the first occurrence of `n` in `s` at or after `i`, or the
/// length of `s` when there is none.
pub open spec fn spec_find_sub_chirho(s: Seq<char>, n: Seq<char>, i: int) -> int
    decreases s.len() - i,
{
    if i < 0 || i >= s.len() || i + n.len() > s.len() {
        s.len() as int
    } else if spec_occurs_at_chirho(s, n, i) {
        i
    } else {
        spec_find_sub_chirho(s, n, i + 1)
    }
}

/// The value of the first `key"...."` in `attrs` (where `key` ends with
/// `="`), when a closing quote follows it.
pub open spec fn spec_quoted_attr_chirho(attrs: Seq<char>, key: Seq<char>) -> Option<Seq<char>> {
    let i = spec_find_sub_chirho(attrs, key, 0);
    if key.len() > 0 && i + key.len() <= attrs.len() {
        let q = spec_find_char_chirho(attrs, '"', i + key.len());
        if q < attrs.len() {
            Some(attrs.subrange(i + key.len(), q))
        } else {
            None
        }
    } else {
        None
    }
}

fn find_sub_chirho(s: &Vec<char>, n: &Vec<char>) -> (r: usize)
    ensures
        r == spec_find_sub_chirho(s@, n@, 0),
{
    let mut i: usize = 0;
    while i < s.len()
        invariant
            i <= s@.len(),
            spec_find_sub_chirho(s@, n@, 0) == spec_find_sub_chirho(s@, n@, i as int),
        decreases s@.len() - i,
    {
        if n.len() <= s.len() - i && occurs_at_chirho(s, n, i) {
            return i;
        }
        i = i + 1;
    }
    s.len()
}

/// The value of the first `key"...."` of `attrs` (see
/// `spec_quoted_attr_chirho`).
fn quoted_attr_chirho(attrs: &Vec<char>, key: &Vec<char>) -> (r: Option<Vec<char>>)
    ensures
        match r {
            Some(v) => spec_quoted_attr_chirho(attrs@, key@) == Some(v@),
            None => spec_quoted_attr_chirho(attrs@, key@) is None,
        },
{
    let i = find_sub_chirho(attrs, key);
    if key.len() > 0 && i <= attrs.len() && key.len() <= attrs.len() - i {
        let q = find_char_chirho(attrs, '"', i + key.len());
        if q < attrs.len() {
            Some(subrange_chirho(attrs, i + key.len(), q))
        } else {
            None
        }
    } else {
        None
    }
}

/// `c` is an ASCII digit.
pub open spec fn spec_ascii_digit_chirho(c: char) -> bool {
    '0' <= c && c <= '9'
}

/// The end of the run of ASCII digits that starts at `i`.
pub open spec fn spec_digits_end_chirho(s: Seq<char>, i: int) -> int
    decreases s.len() - i,
{
    if i < 0 || i >= s.len() {
        s.len() as int
    } else if spec_ascii_digit_chirho(s[i]) {
        spec_digits_end_chirho(s, i + 1)
    } else {
        i
    }
}

proof fn lemma_digits_end_bounds_chirho(s: Seq<char>, i: int)
    requires
        0 <= i <= s.len(),
    ensures
        i <= spec_digits_end_chirho(s, i) <= s.len(),
    decreases s.len() - i,
{
    if i < s.len() && spec_ascii_digit_chirho(s[i]) {
        lemma_digits_end_bounds_chirho(s, i + 1);
    }
}

/// A Strong's number starts at `i`: `strong:`, then `G` or `H`, then at
/// least one ASCII digit.
pub open spec fn spec_strong_at_chirho(a: Seq<char>, i: int) -> bool {
    &&& 0 <= i
    &&& i + 9 <= a.len()
    &&& a[i] == 's' && a[i + 1] == 't' && a[i + 2] == 'r' && a[i + 3] == 'o'
    &&& a[i + 4] == 'n' && a[i + 5] == 'g' && a[i + 6] == ':'
    &&& (a[i + 7] == 'G' || a[i + 7] == 'H')
    &&& spec_ascii_digit_chirho(a[i + 8])
}

/// The Strong's numbers (such as `H430`) of `a` from index `i` on, left to
/// right.
pub open spec fn spec_strongs_from_chirho(a: Seq<char>, i: int) -> Seq<Seq<char>>
    decreases a.len() - i,
{
    if i < 0 || i >= a.len() {
        Seq::empty()
    } else if spec_strong_at_chirho(a, i) {
        let e = spec_digits_end_chirho(a, i + 8);
        if i + 8 <= e <= a.len() {
            seq![a.subrange(i + 7, e)] + spec_strongs_from_chirho(a, e)
        } else {
            Seq::empty()
        }
    } else {
        spec_strongs_from_chirho(a, i + 1)
    }
}

fn digits_end_chirho(s: &Vec<char>, i: usize) -> (r: usize)
    requires
        i <= s@.len(),
    ensures
        r == spec_digits_end_chirho(s@, i as int),
        i <= r <= s@.len(),
{
    proof {
        lemma_digits_end_bounds_chirho(s@, i as int);
    }
    let mut k: usize = i;
    while k < s.len() && '0' <= s[k] && s[k] <= '9'
        invariant
            i <= k <= s@.len(),
            spec_digits_end_chirho(s@, i as int) == spec_digits_end_chirho(s@, k as int),
        decreases s@.len() - k,
    {
        k = k + 1;
    }
    k
}

fn strong_at_chirho(a: &Vec<char>, i: usize) -> (r: bool)
    ensures
        r == spec_strong_at_chirho(a@, i as int),
{
    a.len() >= 9 && i <= a.len() - 9 && a[i] == 's' && a[i + 1] == 't' && a[i + 2] == 'r' && a[i
        + 3] == 'o' && a[i + 4] == 'n' && a[i + 5] == 'g' && a[i + 6] == ':' && (a[i + 7] == 'G'
        || a[i + 7] == 'H') && '0' <= a[i + 8] && a[i + 8] <= '9'
}

/// The Strong's numbers of `a`, left to right.
fn strongs_of_chirho(a: &Vec<char>) -> (r: Vec<Vec<char>>)
    ensures
        spec_views_chirho(r@) == spec_strongs_from_chirho(a@, 0),
{
    let mut out: Vec<Vec<char>> = Vec::new();
    let mut i: usize = 0;
    while i < a.len()
        invariant
            i <= a@.len(),
            spec_views_chirho(out@) + spec_strongs_from_chirho(a@, i as int)
                == spec_strongs_from_chirho(a@, 0),
        decreases a@.len() - i,
    {
        if strong_at_chirho(a, i) {
            let e = digits_end_chirho(a, i + 8);
            assert(i + 8 <= e <= a@.len());
            let ghost before = spec_views_chirho(out@);
            out.push(subrange_chirho(a, i + 7, e));
            assert(spec_views_chirho(out@) =~= before + seq![a@.subrange(i + 7, e as int)]);
            if e >= a.len() {
                assert(spec_strongs_from_chirho(a@, e as int) =~= Seq::<Seq<char>>::empty());
            }
            i = e;
        } else {
            i = i + 1;
        }
    }
    assert(spec_views_chirho(out@) + Seq::<Seq<char>>::empty() =~= spec_views_chirho(out@));
    out
}

// ---------------------------------------------------------------------------
// Interlinear words
// ---------------------------------------------------------------------------

/// The part of speech of a morphology code: its first `|`-separated field,
/// trimmed; empty for an empty code.
pub open spec fn spec_part_of_speech_chirho(morph: Seq<char>) -> Seq<char> {
    if morph.len() == 0 {
        Seq::empty()
    } else {
        spec_trim_chirho(spec_first_field_chirho(morph, '|'))
    }
}

/// The interlinear word of an element with attributes `attrs` and text
/// `text`: gloss and morphology from their attributes (empty when absent),
/// its Strong's numbers joined with ", ", Hebrew when the first Strong's
/// number starts with `H`, and no transliteration.
pub open spec fn spec_interlinear_word_chirho(attrs: Seq<char>, text: Seq<char>) -> InterlinearWordViewChirho {
    let gloss = match spec_quoted_attr_chirho(attrs, "gloss=\""@) {
        Some(g) => g,
        None => Seq::empty(),
    };
    let morph = match spec_quoted_attr_chirho(attrs, "morph=\""@) {
        Some(m) => m,
        None => Seq::empty(),
    };
    let strongs = spec_strongs_from_chirho(attrs, 0);
    InterlinearWordViewChirho {
        original: text,
        transliteration: Seq::empty(),
        morphology: morph,
        strongs: spec_join_chirho(strongs, ", "@),
        gloss: gloss,
        part_of_speech: spec_part_of_speech_chirho(morph),
        is_hebrew: strongs.len() > 0 && strongs[0].len() > 0 && strongs[0][0] == 'H',
    }
}

/// The interlinear words of an OSIS text, one per word element.
pub open spec fn spec_interlinear_from_osis_chirho(t: Seq<char>) -> Seq<InterlinearWordViewChirho> {
    spec_words_from_chirho(t, 0).map_values(
        |p: (Seq<char>, Seq<char>)| spec_interlinear_word_chirho(p.0, p.1),
    )
}

fn interlinear_word_chirho(attrs: &Vec<char>, text: &Vec<char>) -> (r: InterlinearWordChirho)
    ensures
        r@ == spec_interlinear_word_chirho(attrs@, text@),
{
    let gloss = match quoted_attr_chirho(attrs, &chars_of_chirho("gloss=\"")) {
        Some(g) => g,
        None => Vec::new(),
    };
    let morph = match quoted_attr_chirho(attrs, &chars_of_chirho("morph=\"")) {
        Some(m) => m,
        None => Vec::new(),
    };
    let strongs = strongs_of_chirho(attrs);
    let is_hebrew = strongs.len() > 0 && strongs[0].len() > 0 && strongs[0][0] == 'H';
    let pos = if morph.len() == 0 {
        Vec::new()
    } else {
        let k = find_char_chirho(&morph, '|', 0);
        let field = subrange_chirho(&morph, 0, k);
        assert(field@ =~= spec_first_field_chirho(morph@, '|'));
        trim_chars_chirho(&field)
    };
    let joined = join_chirho(&strongs, &chars_of_chirho(", "));
    assert(pos@ =~= spec_part_of_speech_chirho(morph@));
    InterlinearWordChirho {
        original_chirho: string_from_chars_chirho(text),
        transliteration_chirho: string_from_chars_chirho(&Vec::new()),
        morphology_chirho: string_from_chars_chirho(&morph),
        strongs_chirho: string_from_chars_chirho(&joined),
        gloss_chirho: string_from_chars_chirho(&gloss),
        part_of_speech_chirho: string_from_chars_chirho(&pos),
        is_hebrew_chirho: is_hebrew,
    }
}

/// The interlinear words of an OSIS text (see
/// `spec_interlinear_from_osis_chirho`).
pub fn interlinear_from_osis_chirho(raw: &str) -> (r: Vec<InterlinearWordChirho>)
    ensures
        r@.map_values(|w: InterlinearWordChirho| w@) == spec_interlinear_from_osis_chirho(raw@),
{
    let t = chars_of_chirho(raw);
    let words = osis_words_chirho(&t);
    let ghost pairs = words@.map_values(|p: (Vec<char>, Vec<char>)| (p.0@, p.1@));
    let mut out: Vec<InterlinearWordChirho> = Vec::new();
    let mut i: usize = 0;
    while i < words.len()
        invariant
            i <= words@.len(),
            pairs == words@.map_values(|p: (Vec<char>, Vec<char>)| (p.0@, p.1@)),
            pairs == spec_words_from_chirho(t@, 0),
            t@ == raw@,
            out@.len() == i,
            forall|k: int|
                0 <= k < i ==> (#[trigger] out@[k])@ == spec_interlinear_word_chirho(
                    pairs[k].0,
                    pairs[k].1,
                ),
        decreases words@.len() - i,
    {
        let w = interlinear_word_chirho(&words[i].0, &words[i].1);
        out.push(w);
        proof {
            assert(pairs[i as int] == (words@[i as int].0@, words@[i as int].1@));
        }
        i = i + 1;
    }
    assert(out@.map_values(|w: InterlinearWordChirho| w@) =~= spec_interlinear_from_osis_chirho(
        raw@,
    ));
    out
}

} // verus!
