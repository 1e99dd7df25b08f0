//! Explanation of grammatical (morphology) codes: Robinson codes for Greek
//! (such as "V-AAI-3S") and simplified OSHM codes for Hebrew (such as "Ncmsa").

use vstd::prelude::*;
use crate::text_chirho::{
    chars_eq_chirho, chars_of_chirho, join_chirho, spec_join_chirho, spec_split_chirho,
    spec_views_chirho, split_chirho, string_from_chars_chirho, subrange_chirho,
};

verus! {

/// The label that character `c` at position `i` of a Hebrew code adds, if any.
pub open spec fn spec_hebrew_label_chirho(i: int, c: char) -> Option<Seq<char>> {
    if i == 0 && c == 'V' {
        Some("Verb"@)
    } else if i == 0 && c == 'N' {
        Some("Noun"@)
    } else if i == 0 && c == 'A' {
        Some("Adjective"@)
    } else if i == 0 && c == 'P' {
        Some("Preposition"@)
    } else if i == 0 && c == 'C' {
        Some("Conjunction"@)
    } else if i == 0 && c == 'R' {
        Some("Pronoun"@)
    } else if i == 0 && c == 'D' {
        Some("Adverb"@)
    } else if i == 0 && c == 'T' {
        Some("Particle"@)
    } else if true && c == 'm' {
        Some("masculine"@)
    } else if true && c == 'f' {
        Some("feminine"@)
    } else if i == 1 && c == 'c' {
        Some("common"@)
    } else if true && c == 's' {
        Some("singular"@)
    } else if true && c == 'p' {
        Some("plural"@)
    } else if true && c == 'd' {
        Some("dual"@)
    } else if true && c == 'a' {
        Some("absolute"@)
    } else if i >= 2 && c == 'c' {
        Some("construct"@)
    } else {
        None
    }
}

/// The labels of the first `n` characters of Hebrew code `code`, in order.
pub open spec fn spec_hebrew_parts_chirho(code: Seq<char>, n: int) -> Seq<Seq<char>>
    decreases n,
{
    if n <= 0 || n > code.len() {
        Seq::empty()
    } else {
        let prev = spec_hebrew_parts_chirho(code, n - 1);
        match spec_hebrew_label_chirho(n - 1, code[n - 1]) {
            Some(l) => prev.push(l),
            None => prev,
        }
    }
}

/// The label of segment `seg` at position `i` of a Greek code: its meaning
/// when the table knows it, else the segment itself.
pub open spec fn spec_greek_label_chirho(i: int, seg: Seq<char>) -> Seq<char> {
    if i == 0 && seg == "V"@ {
        "Verb"@
    } else if i == 0 && seg == "N"@ {
        "Noun"@
    } else if i == 0 && seg == "A"@ {
        "Adjective"@
    } else if i == 0 && seg == "ADV"@ {
        "Adverb"@
    } else if i == 0 && seg == "P"@ {
        "Preposition"@
    } else if i == 0 && seg == "C"@ {
        "Conjunction"@
    } else if i == 0 && seg == "T"@ {
        "Article"@
    } else if i == 0 && seg == "R"@ {
        "Relative Pronoun"@
    } else if i == 0 && seg == "D"@ {
        "Demonstrative"@
    } else if i == 0 && seg == "X"@ {
        "Indefinite Pronoun"@
    } else if i == 0 && seg == "I"@ {
        "Interrogative"@
    } else if i == 1 && seg == "AAI"@ {
        "Aorist Active Indicative"@
    } else if i == 1 && seg == "AAM"@ {
        "Aorist Active Imperative"@
    } else if i == 1 && seg == "AAP"@ {
        "Aorist Active Participle"@
    } else if i == 1 && seg == "API"@ {
        "Aorist Passive Indicative"@
    } else if i == 1 && seg == "PAI"@ {
        "Present Active Indicative"@
    } else if i == 1 && seg == "PAP"@ {
        "Present Active Participle"@
    } else if i == 1 && seg == "PPI"@ {
        "Present Passive Indicative"@
    } else if i == 1 && seg == "PMI"@ {
        "Present Middle Indicative"@
    } else if i == 1 && seg == "FAI"@ {
        "Future Active Indicative"@
    } else if i == 1 && seg == "PEI"@ {
        "Perfect Active Indicative"@
    } else if i == 1 && seg == "RAI"@ {
        "Perfect Active Indicative"@
    } else if true && seg == "1S"@ {
        "1st Person Singular"@
    } else if true && seg == "2S"@ {
        "2nd Person Singular"@
    } else if true && seg == "3S"@ {
        "3rd Person Singular"@
    } else if true && seg == "1P"@ {
        "1st Person Plural"@
    } else if true && seg == "2P"@ {
        "2nd Person Plural"@
    } else if true && seg == "3P"@ {
        "3rd Person Plural"@
    } else if true && seg == "NSM"@ {
        "Nominative Singular Masculine"@
    } else if true && seg == "NSF"@ {
        "Nominative Singular Feminine"@
    } else if true && seg == "NSN"@ {
        "Nominative Singular Neuter"@
    } else if true && seg == "GSM"@ {
        "Genitive Singular Masculine"@
    } else if true && seg == "GSF"@ {
        "Genitive Singular Feminine"@
    } else if true && seg == "GSN"@ {
        "Genitive Singular Neuter"@
    } else if true && seg == "DSM"@ {
        "Dative Singular Masculine"@
    } else if true && seg == "DSF"@ {
        "Dative Singular Feminine"@
    } else if true && seg == "ASM"@ {
        "Accusative Singular Masculine"@
    } else if true && seg == "ASF"@ {
        "Accusative Singular Feminine"@
    } else if true && seg == "NPM"@ {
        "Nominative Plural Masculine"@
    } else if true && seg == "NPF"@ {
        "Nominative Plural Feminine"@
    } else if true && seg == "GPM"@ {
        "Genitive Plural Masculine"@
    } else if true && seg == "DPM"@ {
        "Dative Plural Masculine"@
    } else if true && seg == "APM"@ {
        "Accusative Plural Masculine"@
    } else {
        seg
    }
}

/// The labels of the `-`-separated segments of a Greek code, in order.
pub open spec fn spec_greek_parts_chirho(code: Seq<char>) -> Seq<Seq<char>> {
    let segs = spec_split_chirho(code, '-');
    Seq::new(segs.len(), |i: int| spec_greek_label_chirho(i, segs[i]))
}

/// A code is read as Hebrew exactly when it holds no `-`.
pub open spec fn spec_is_hebrew_code_chirho(code: Seq<char>) -> bool {
    !code.contains('-')
}

/// The explanation of a morphology code and whether it was read as Hebrew.
pub open spec fn spec_parse_morphology_chirho(code: Seq<char>) -> (Seq<char>, bool) {
    if spec_is_hebrew_code_chirho(code) {
        (spec_join_chirho(spec_hebrew_parts_chirho(code, code.len() as int), ", "@), true)
    } else {
        (spec_join_chirho(spec_greek_parts_chirho(code), ", "@), false)
    }
}

fn hebrew_label_chirho(i: usize, c: char) -> (r: Option<Vec<char>>)
    ensures
        r matches Some(v) ==> spec_hebrew_label_chirho(i as int, c) == Some(v@),
        r is None ==> spec_hebrew_label_chirho(i as int, c) is None,
{
    if i == 0 && c == 'V' {
        Some(chars_of_chirho("Verb"))
    } else if i == 0 && c == 'N' {
        Some(chars_of_chirho("Noun"))
    } else if i == 0 && c == 'A' {
        Some(chars_of_chirho("Adjective"))
    } else if i == 0 && c == 'P' {
        Some(chars_of_chirho("Preposition"))
    } else if i == 0 && c == 'C' {
        Some(chars_of_chirho("Conjunction"))
    } else if i == 0 && c == 'R' {
        Some(chars_of_chirho("Pronoun"))
    } else if i == 0 && c == 'D' {
        Some(chars_of_chirho("Adverb"))
    } else if i == 0 && c == 'T' {
        Some(chars_of_chirho("Particle"))
    } else if true && c == 'm' {
        Some(chars_of_chirho("masculine"))
    } else if true && c == 'f' {
        Some(chars_of_chirho("feminine"))
    } else if i == 1 && c == 'c' {
        Some(chars_of_chirho("common"))
    } else if true && c == 's' {
        Some(chars_of_chirho("singular"))
    } else if true && c == 'p' {
        Some(chars_of_chirho("plural"))
    } else if true && c == 'd' {
        Some(chars_of_chirho("dual"))
    } else if true && c == 'a' {
        Some(chars_of_chirho("absolute"))
    } else if i >= 2 && c == 'c' {
        Some(chars_of_chirho("construct"))
    } else {
        None
    }
}

fn greek_label_chirho(i: usize, seg: &Vec<char>) -> (r: Vec<char>)
    ensures
        r@ == spec_greek_label_chirho(i as int, seg@),
{
    if i == 0 && chars_eq_chirho(seg, &chars_of_chirho("V")) {
        return chars_of_chirho("Verb");
    }
    if i == 0 && chars_eq_chirho(seg, &chars_of_chirho("N")) {
        return chars_of_chirho("Noun");
    }
    if i == 0 && chars_eq_chirho(seg, &chars_of_chirho("A")) {
        return chars_of_chirho("Adjective");
    }
    if i == 0 && chars_eq_chirho(seg, &chars_of_chirho("ADV")) {
        return chars_of_chirho("Adverb");
    }
    if i == 0 && chars_eq_chirho(seg, &chars_of_chirho("P")) {
        return chars_of_chirho("Preposition");
    }
    if i == 0 && chars_eq_chirho(seg, &chars_of_chirho("C")) {
        return chars_of_chirho("Conjunction");
    }
    if i == 0 && chars_eq_chirho(seg, &chars_of_chirho("T")) {
        return chars_of_chirho("Article");
    }
    if i == 0 && chars_eq_chirho(seg, &chars_of_chirho("R")) {
        return chars_of_chirho("Relative Pronoun");
    }
    if i == 0 && chars_eq_chirho(seg, &chars_of_chirho("D")) {
        return chars_of_chirho("Demonstrative");
    }
    if i == 0 && chars_eq_chirho(seg, &chars_of_chirho("X")) {
        return chars_of_chirho("Indefinite Pronoun");
    }
    if i == 0 && chars_eq_chirho(seg, &chars_of_chirho("I")) {
        return chars_of_chirho("Interrogative");
    }
    if i == 1 && chars_eq_chirho(seg, &chars_of_chirho("AAI")) {
        return chars_of_chirho("Aorist Active Indicative");
    }
    if i == 1 && chars_eq_chirho(seg, &chars_of_chirho("AAM")) {
        return chars_of_chirho("Aorist Active Imperative");
    }
    if i == 1 && chars_eq_chirho(seg, &chars_of_chirho("AAP")) {
        return chars_of_chirho("Aorist Active Participle");
    }
    if i == 1 && chars_eq_chirho(seg, &chars_of_chirho("API")) {
        return chars_of_chirho("Aorist Passive Indicative");
    }
    if i == 1 && chars_eq_chirho(seg, &chars_of_chirho("PAI")) {
        return chars_of_chirho("Present Active Indicative");
    }
    if i == 1 && chars_eq_chirho(seg, &chars_of_chirho("PAP")) {
        return chars_of_chirho("Present Active Participle");
    }
    if i == 1 && chars_eq_chirho(seg, &chars_of_chirho("PPI")) {
        return chars_of_chirho("Present Passive Indicative");
    }
    if i == 1 && chars_eq_chirho(seg, &chars_of_chirho("PMI")) {
        return chars_of_chirho("Present Middle Indicative");
    }
    if i == 1 && chars_eq_chirho(seg, &chars_of_chirho("FAI")) {
        return chars_of_chirho("Future Active Indicative");
    }
    if i == 1 && chars_eq_chirho(seg, &chars_of_chirho("PEI")) {
        return chars_of_chirho("Perfect Active Indicative");
    }
    if i == 1 && chars_eq_chirho(seg, &chars_of_chirho("RAI")) {
        return chars_of_chirho("Perfect Active Indicative");
    }
    if true && chars_eq_chirho(seg, &chars_of_chirho("1S")) {
        return chars_of_chirho("1st Person Singular");
    }
    if true && chars_eq_chirho(seg, &chars_of_chirho("2S")) {
        return chars_of_chirho("2nd Person Singular");
    }
    if true && chars_eq_chirho(seg, &chars_of_chirho("3S")) {
        return chars_of_chirho("3rd Person Singular");
    }
    if true && chars_eq_chirho(seg, &chars_of_chirho("1P")) {
        return chars_of_chirho("1st Person Plural");
    }
    if true && chars_eq_chirho(seg, &chars_of_chirho("2P")) {
        return chars_of_chirho("2nd Person Plural");
    }
    if true && chars_eq_chirho(seg, &chars_of_chirho("3P")) {
        return chars_of_chirho("3rd Person Plural");
    }
    if true && chars_eq_chirho(seg, &chars_of_chirho("NSM")) {
        return chars_of_chirho("Nominative Singular Masculine");
    }
    if true && chars_eq_chirho(seg, &chars_of_chirho("NSF")) {
        return chars_of_chirho("Nominative Singular Feminine");
    }
    if true && chars_eq_chirho(seg, &chars_of_chirho("NSN")) {
        return chars_of_chirho("Nominative Singular Neuter");
    }
    if true && chars_eq_chirho(seg, &chars_of_chirho("GSM")) {
        return chars_of_chirho("Genitive Singular Masculine");
    }
    if true && chars_eq_chirho(seg, &chars_of_chirho("GSF")) {
        return chars_of_chirho("Genitive Singular Feminine");
    }
    if true && chars_eq_chirho(seg, &chars_of_chirho("GSN")) {
        return chars_of_chirho("Genitive Singular Neuter");
    }
    if true && chars_eq_chirho(seg, &chars_of_chirho("DSM")) {
        return chars_of_chirho("Dative Singular Masculine");
    }
    if true && chars_eq_chirho(seg, &chars_of_chirho("DSF")) {
        return chars_of_chirho("Dative Singular Feminine");
    }
    if true && chars_eq_chirho(seg, &chars_of_chirho("ASM")) {
        return chars_of_chirho("Accusative Singular Masculine");
    }
    if true && chars_eq_chirho(seg, &chars_of_chirho("ASF")) {
        return chars_of_chirho("Accusative Singular Feminine");
    }
    if true && chars_eq_chirho(seg, &chars_of_chirho("NPM")) {
        return chars_of_chirho("Nominative Plural Masculine");
    }
    if true && chars_eq_chirho(seg, &chars_of_chirho("NPF")) {
        return chars_of_chirho("Nominative Plural Feminine");
    }
    if true && chars_eq_chirho(seg, &chars_of_chirho("GPM")) {
        return chars_of_chirho("Genitive Plural Masculine");
    }
    if true && chars_eq_chirho(seg, &chars_of_chirho("DPM")) {
        return chars_of_chirho("Dative Plural Masculine");
    }
    if true && chars_eq_chirho(seg, &chars_of_chirho("APM")) {
        return chars_of_chirho("Accusative Plural Masculine");
    }
    subrange_chirho(seg, 0, seg.len())
}

/// Whether `code` holds a `-`.
fn has_dash_chirho(code: &Vec<char>) -> (r: bool)
    ensures
        r == code@.contains('-'),
{
    let mut i: usize = 0;
    while i < code.len()
        invariant
            i <= code@.len(),
            forall|j: int| 0 <= j < i ==> code@[j] != '-',
        decreases code@.len() - i,
    {
        if code[i] == '-' {
            assert(code@[i as int] == '-');
            return true;
        }
        i = i + 1;
    }
    false
}

/// Explains a morphology code in words and tells whether it was read as a
/// Hebrew code (one without `-`) or a Greek Robinson code.
///
/// A Hebrew code is read character by character: the first character gives
/// the part of speech, and gender, number and state letters anywhere add
/// their meaning. A Greek code is split at `-`; each segment is replaced by
/// its meaning, or kept as it is when the table does not know it. The labels
/// are joined with ", ".
pub fn parse_morphology_code_chirho(code: &str) -> (r: (String, bool))
    ensures
        (r.0@, r.1) == spec_parse_morphology_chirho(code@),
{
    let cv = chars_of_chirho(code);
    let sep = chars_of_chirho(", ");
    if !has_dash_chirho(&cv) {
        let mut parts: Vec<Vec<char>> = Vec::new();
        let mut i: usize = 0;
        while i < cv.len()
            invariant
                i <= cv@.len(),
                spec_views_chirho(parts@) == spec_hebrew_parts_chirho(cv@, i as int),
            decreases cv@.len() - i,
        {
            match hebrew_label_chirho(i, cv[i]) {
                Some(l) => {
                    parts.push(l);
                    assert(spec_views_chirho(parts@) =~= spec_hebrew_parts_chirho(
                        cv@,
                        i + 1,
                    ));
                },
                None => {},
            }
            i = i + 1;
        }
        let joined = join_chirho(&parts, &sep);
        (string_from_chars_chirho(&joined), true)
    } else {
        let segs = split_chirho(&cv, '-');
        let mut parts: Vec<Vec<char>> = Vec::new();
        let mut i: usize = 0;
        while i < segs.len()
            invariant
                i <= segs@.len(),
                spec_views_chirho(segs@) == spec_split_chirho(cv@, '-'),
                parts@.len() == i,
                forall|k: int|
                    0 <= k < i ==> (#[trigger] parts@[k])@ == spec_greek_label_chirho(
                        k,
                        segs@[k]@,
                    ),
            decreases segs@.len() - i,
        {
            parts.push(greek_label_chirho(i, &segs[i]));
            i = i + 1;
        }
        assert(spec_views_chirho(parts@) =~= spec_greek_parts_chirho(cv@)) by {
            assert(spec_views_chirho(segs@).len() == segs@.len());
            assert forall|k: int| 0 <= k < parts@.len() implies spec_views_chirho(parts@)[k]
                == spec_greek_parts_chirho(cv@)[k] by {
                assert(spec_views_chirho(segs@)[k] == segs@[k]@);
            }
        }
        let joined = join_chirho(&parts, &sep);
        (string_from_chars_chirho(&joined), false)
    }
}

} // verus!
