//! Laws that say what the library's tables and searches are for, each
//! stated apart from the tables and specifications it speaks of.

use vstd::prelude::*;
use crate::books_chirho::spec_book_name_chirho;
use crate::reference_chirho::{spec_abbreviation_book_chirho, spec_abbreviation_chirho};
use crate::text_chirho::{
    spec_ascii_lowercase_chirho, spec_int_decimal_chirho, spec_join_chirho, spec_nat_decimal_chirho,
    spec_parse_usize_chirho,
    spec_starts_with_chirho,
};
use crate::actions_chirho::{
    spec_copy_format_chirho, spec_copy_selection_chirho, spec_selected_parts_chirho,
    spec_selection_reference_chirho,
};
use crate::models_chirho::VerseChirho;
use crate::bible_engine_chirho::{
    spec_match_fn_chirho, spec_matches_query_chirho, spec_sample_candidates_chirho, spec_search_chirho,
};
use crate::display_chirho::spec_reference_label_chirho;
use crate::samples_chirho::spec_sample_verses_chirho;
use crate::display_chirho::spec_verse_reference_chirho;
use crate::laws_chirho::law_written_reference_parses_back_chirho;
use crate::morphology_chirho::spec_greek_label_chirho;
use crate::osis_chirho::{
    spec_digits_end_chirho, spec_interlinear_word_chirho, spec_strong_at_chirho, spec_strongs_from_chirho,
};

verus! {

// ---------------------------------------------------------------------------
// Copying a selection of verses
// ---------------------------------------------------------------------------

/// Whether a verse's number lies between `lo` and `hi`, both included.
pub open spec fn spec_in_selection_chirho(v: VerseChirho, lo: usize, hi: usize) -> bool {
    match spec_parse_usize_chirho(v.reference_chirho@) {
        Some(n) => lo <= n && n <= hi,
        None => false,
    }
}

/// What a selected verse contributes: its text, after "n. " when numbered.
pub open spec fn spec_copied_text_chirho(v: VerseChirho, numbered: bool) -> Seq<char> {
    if numbered {
        spec_nat_decimal_chirho(spec_parse_usize_chirho(v.reference_chirho@)->0 as nat) + ". "@
            + v.text_chirho@
    } else {
        v.text_chirho@
    }
}

/// The parts a selection copies are, in order, exactly those of the verses
/// whose number lies between `lo` and `hi`, both included: no verse in
/// between is left out, and none outside is taken.
pub proof fn law_selection_keeps_the_range_chirho(verses: Seq<VerseChirho>, lo: usize, hi: usize, numbered: bool)
    ensures
        spec_selected_parts_chirho(verses, lo, hi, numbered) == verses.filter(
            |v: VerseChirho| spec_in_selection_chirho(v, lo, hi),
        ).map_values(|v: VerseChirho| spec_copied_text_chirho(v, numbered)),
    decreases verses.len(),
{
    reveal(Seq::filter);
    let pred = |v: VerseChirho| spec_in_selection_chirho(v, lo, hi);
    let g = |v: VerseChirho| spec_copied_text_chirho(v, numbered);
    if verses.len() == 0 {
        assert(verses.filter(pred) =~= Seq::<VerseChirho>::empty());
        assert(verses.filter(pred).map_values(g) =~= Seq::<Seq<char>>::empty());
    } else {
        let init = verses.drop_last();
        law_selection_keeps_the_range_chirho(init, lo, hi, numbered);
        let v = verses.last();
        if pred(v) {
            assert(verses.filter(pred) == init.filter(pred).push(v));
            assert(verses.filter(pred).map_values(g) =~= init.filter(pred).map_values(g).push(g(v)));
        } else {
            assert(verses.filter(pred) == init.filter(pred));
        }
    }
}

/// Copying the verses from `start` to `end`, in either order, copies the
/// texts of the verses numbered from the smaller to the larger end, in
/// order, joined with spaces, under the reference "book chapter:lo-hi"
/// (the two ends written smaller first);
/// nothing is copied unless both ends are verse numbers (positive).
pub proof fn law_copy_selection_chirho(
    verses: Seq<VerseChirho>,
    book: Seq<char>,
    chapter: i32,
    start: i32,
    end: i32,
    numbered: bool,
    format_index: i32,
)
    ensures
        (spec_copy_selection_chirho(verses, book, chapter, start, end, numbered, format_index) is Some)
            == (start > 0 && end > 0),
        start > 0 && end > 0 ==> ({
            let lo = (if start <= end { start } else { end }) as usize;
            let hi = (if start <= end { end } else { start }) as usize;
            let reference = book + seq![' '] + spec_int_decimal_chirho(chapter as int) + seq![':']
                + spec_nat_decimal_chirho(lo as nat) + seq!['-'] + spec_nat_decimal_chirho(hi as nat);
            let text = spec_join_chirho(
                verses.filter(|v: VerseChirho| spec_in_selection_chirho(v, lo, hi)).map_values(
                    |v: VerseChirho| spec_copied_text_chirho(v, numbered),
                ),
                " "@,
            );
            spec_copy_selection_chirho(verses, book, chapter, start, end, numbered, format_index) == Some(
                (reference, spec_copy_format_chirho(reference, text, format_index)),
            )
        }),
{
    if start > 0 && end > 0 {
        let lo = (if start <= end { start } else { end }) as usize;
        let hi = (if start <= end { end } else { start }) as usize;
        law_selection_keeps_the_range_chirho(verses, lo, hi, numbered);
        reveal_strlit("-");
        assert(spec_selection_reference_chirho(book, chapter, lo, hi) =~= book + seq![' ']
            + spec_int_decimal_chirho(chapter as int) + seq![':'] + spec_nat_decimal_chirho(lo as nat)
            + seq!['-'] + spec_nat_decimal_chirho(hi as nat));
    }
}

// ---------------------------------------------------------------------------
// Robinson morphology codes
// ---------------------------------------------------------------------------

/// The tense a Robinson tense letter stands for.
pub open spec fn spec_robinson_tense_chirho(c: char) -> Seq<char> {
    if c == 'A' {
        "Aorist"@
    } else if c == 'P' {
        "Present"@
    } else if c == 'F' {
        "Future"@
    } else if c == 'R' {
        "Perfect"@
    } else if c == 'I' {
        "Imperfect"@
    } else if c == 'L' {
        "Pluperfect"@
    } else {
        Seq::empty()
    }
}

/// The voice a Robinson voice letter stands for.
pub open spec fn spec_robinson_voice_chirho(c: char) -> Seq<char> {
    if c == 'A' {
        "Active"@
    } else if c == 'M' {
        "Middle"@
    } else if c == 'P' {
        "Passive"@
    } else {
        Seq::empty()
    }
}

/// The mood a Robinson mood letter stands for.
pub open spec fn spec_robinson_mood_chirho(c: char) -> Seq<char> {
    if c == 'I' {
        "Indicative"@
    } else if c == 'M' {
        "Imperative"@
    } else if c == 'P' {
        "Participle"@
    } else if c == 'S' {
        "Subjunctive"@
    } else if c == 'N' {
        "Infinitive"@
    } else if c == 'O' {
        "Optative"@
    } else {
        Seq::empty()
    }
}

/// The case a Robinson case letter stands for.
pub open spec fn spec_robinson_case_chirho(c: char) -> Seq<char> {
    if c == 'N' {
        "Nominative"@
    } else if c == 'G' {
        "Genitive"@
    } else if c == 'D' {
        "Dative"@
    } else if c == 'A' {
        "Accusative"@
    } else if c == 'V' {
        "Vocative"@
    } else {
        Seq::empty()
    }
}

/// The number a Robinson number letter stands for.
pub open spec fn spec_robinson_number_chirho(c: char) -> Seq<char> {
    if c == 'S' {
        "Singular"@
    } else if c == 'P' {
        "Plural"@
    } else {
        Seq::empty()
    }
}

/// The gender a Robinson gender letter stands for.
pub open spec fn spec_robinson_gender_chirho(c: char) -> Seq<char> {
    if c == 'M' {
        "Masculine"@
    } else if c == 'F' {
        "Feminine"@
    } else if c == 'N' {
        "Neuter"@
    } else {
        Seq::empty()
    }
}

/// The person a Robinson person digit stands for.
pub open spec fn spec_robinson_person_chirho(c: char) -> Seq<char> {
    if c == '1' {
        "1st"@
    } else if c == '2' {
        "2nd"@
    } else if c == '3' {
        "3rd"@
    } else {
        Seq::empty()
    }
}

/// A verb's tense-voice-mood segment that the decoder knows reads as its
/// three letters spelled out, in order: tense, voice, mood (so "PAI" reads
/// "Present Active Indicative", and an `A` in the middle always reads
/// "Active"). "PEI", which the decoder also knows, is left out: `E` is no
/// Robinson voice letter, and the decoder reads it as "Perfect Active
/// Indicative".
pub proof fn law_robinson_verb_segments_chirho(seg: Seq<char>)
    requires
        seg == "AAI"@ || seg == "AAM"@ || seg == "AAP"@ || seg == "API"@ || seg == "PAI"@ || seg == "PAP"@ || seg == "PPI"@ || seg == "PMI"@ || seg == "FAI"@ || seg == "RAI"@,
    ensures
        spec_greek_label_chirho(1, seg) == spec_robinson_tense_chirho(seg[0]) + " "@
            + spec_robinson_voice_chirho(seg[1]) + " "@ + spec_robinson_mood_chirho(seg[2]),
{
    if seg == "AAI"@ {
        reveal_strlit(" ");
        reveal_strlit("AAI");
        reveal_strlit("AAM");
        reveal_strlit("AAP");
        reveal_strlit("ADV");
        reveal_strlit("API");
        reveal_strlit("APM");
        reveal_strlit("ASF");
        reveal_strlit("ASM");
        reveal_strlit("Active");
        reveal_strlit("Aorist");
        reveal_strlit("Aorist Active Indicative");
        reveal_strlit("DPM");
        reveal_strlit("DSF");
        reveal_strlit("DSM");
        reveal_strlit("FAI");
        reveal_strlit("GPM");
        reveal_strlit("GSF");
        reveal_strlit("GSM");
        reveal_strlit("GSN");
        reveal_strlit("Indicative");
        reveal_strlit("NPF");
        reveal_strlit("NPM");
        reveal_strlit("NSF");
        reveal_strlit("NSM");
        reveal_strlit("NSN");
        reveal_strlit("PAI");
        reveal_strlit("PAP");
        reveal_strlit("PEI");
        reveal_strlit("PMI");
        reveal_strlit("PPI");
        reveal_strlit("RAI");
        assert("AAI"@[1] != "ADV"@[1]);
    } else if seg == "AAM"@ {
        reveal_strlit(" ");
        reveal_strlit("AAI");
        reveal_strlit("AAM");
        reveal_strlit("AAP");
        reveal_strlit("ADV");
        reveal_strlit("API");
        reveal_strlit("APM");
        reveal_strlit("ASF");
        reveal_strlit("ASM");
        reveal_strlit("Active");
        reveal_strlit("Aorist");
        reveal_strlit("Aorist Active Imperative");
        reveal_strlit("DPM");
        reveal_strlit("DSF");
        reveal_strlit("DSM");
        reveal_strlit("FAI");
        reveal_strlit("GPM");
        reveal_strlit("GSF");
        reveal_strlit("GSM");
        reveal_strlit("GSN");
        reveal_strlit("Imperative");
        reveal_strlit("NPF");
        reveal_strlit("NPM");
        reveal_strlit("NSF");
        reveal_strlit("NSM");
        reveal_strlit("NSN");
        reveal_strlit("PAI");
        reveal_strlit("PAP");
        reveal_strlit("PEI");
        reveal_strlit("PMI");
        reveal_strlit("PPI");
        reveal_strlit("RAI");
        assert("AAM"@[1] != "ADV"@[1]);
        assert("AAM"@[2] != "AAI"@[2]);
    } else if seg == "AAP"@ {
        reveal_strlit(" ");
        reveal_strlit("AAI");
        reveal_strlit("AAM");
        reveal_strlit("AAP");
        reveal_strlit("ADV");
        reveal_strlit("API");
        reveal_strlit("APM");
        reveal_strlit("ASF");
        reveal_strlit("ASM");
        reveal_strlit("Active");
        reveal_strlit("Aorist");
        reveal_strlit("Aorist Active Participle");
        reveal_strlit("DPM");
        reveal_strlit("DSF");
        reveal_strlit("DSM");
        reveal_strlit("FAI");
        reveal_strlit("GPM");
        reveal_strlit("GSF");
        reveal_strlit("GSM");
        reveal_strlit("GSN");
        reveal_strlit("NPF");
        reveal_strlit("NPM");
        reveal_strlit("NSF");
        reveal_strlit("NSM");
        reveal_strlit("NSN");
        reveal_strlit("PAI");
        reveal_strlit("PAP");
        reveal_strlit("PEI");
        reveal_strlit("PMI");
        reveal_strlit("PPI");
        reveal_strlit("Participle");
        reveal_strlit("RAI");
        assert("AAP"@[1] != "ADV"@[1]);
        assert("AAP"@[2] != "AAI"@[2]);
        assert("AAP"@[2] != "AAM"@[2]);
    } else if seg == "API"@ {
        reveal_strlit(" ");
        reveal_strlit("AAI");
        reveal_strlit("AAM");
        reveal_strlit("AAP");
        reveal_strlit("ADV");
        reveal_strlit("API");
        reveal_strlit("APM");
        reveal_strlit("ASF");
        reveal_strlit("ASM");
        reveal_strlit("Aorist");
        reveal_strlit("Aorist Passive Indicative");
        reveal_strlit("DPM");
        reveal_strlit("DSF");
        reveal_strlit("DSM");
        reveal_strlit("FAI");
        reveal_strlit("GPM");
        reveal_strlit("GSF");
        reveal_strlit("GSM");
        reveal_strlit("GSN");
        reveal_strlit("Indicative");
        reveal_strlit("NPF");
        reveal_strlit("NPM");
        reveal_strlit("NSF");
        reveal_strlit("NSM");
        reveal_strlit("NSN");
        reveal_strlit("PAI");
        reveal_strlit("PAP");
        reveal_strlit("PEI");
        reveal_strlit("PMI");
        reveal_strlit("PPI");
        reveal_strlit("Passive");
        reveal_strlit("RAI");
        assert("API"@[1] != "ADV"@[1]);
        assert("API"@[1] != "AAI"@[1]);
        assert("API"@[1] != "AAM"@[1]);
        assert("API"@[1] != "AAP"@[1]);
    } else if seg == "PAI"@ {
        reveal_strlit(" ");
        reveal_strlit("AAI");
        reveal_strlit("AAM");
        reveal_strlit("AAP");
        reveal_strlit("ADV");
        reveal_strlit("API");
        reveal_strlit("APM");
        reveal_strlit("ASF");
        reveal_strlit("ASM");
        reveal_strlit("Active");
        reveal_strlit("DPM");
        reveal_strlit("DSF");
        reveal_strlit("DSM");
        reveal_strlit("FAI");
        reveal_strlit("GPM");
        reveal_strlit("GSF");
        reveal_strlit("GSM");
        reveal_strlit("GSN");
        reveal_strlit("Indicative");
        reveal_strlit("NPF");
        reveal_strlit("NPM");
        reveal_strlit("NSF");
        reveal_strlit("NSM");
        reveal_strlit("NSN");
        reveal_strlit("PAI");
        reveal_strlit("PAP");
        reveal_strlit("PEI");
        reveal_strlit("PMI");
        reveal_strlit("PPI");
        reveal_strlit("Present");
        reveal_strlit("Present Active Indicative");
        reveal_strlit("RAI");
        assert("PAI"@[0] != "ADV"@[0]);
        assert("PAI"@[0] != "AAI"@[0]);
        assert("PAI"@[0] != "AAM"@[0]);
        assert("PAI"@[0] != "AAP"@[0]);
        assert("PAI"@[0] != "API"@[0]);
    } else if seg == "PAP"@ {
        reveal_strlit(" ");
        reveal_strlit("AAI");
        reveal_strlit("AAM");
        reveal_strlit("AAP");
        reveal_strlit("ADV");
        reveal_strlit("API");
        reveal_strlit("APM");
        reveal_strlit("ASF");
        reveal_strlit("ASM");
        reveal_strlit("Active");
        reveal_strlit("DPM");
        reveal_strlit("DSF");
        reveal_strlit("DSM");
        reveal_strlit("FAI");
        reveal_strlit("GPM");
        reveal_strlit("GSF");
        reveal_strlit("GSM");
        reveal_strlit("GSN");
        reveal_strlit("NPF");
        reveal_strlit("NPM");
        reveal_strlit("NSF");
        reveal_strlit("NSM");
        reveal_strlit("NSN");
        reveal_strlit("PAI");
        reveal_strlit("PAP");
        reveal_strlit("PEI");
        reveal_strlit("PMI");
        reveal_strlit("PPI");
        reveal_strlit("Participle");
        reveal_strlit("Present");
        reveal_strlit("Present Active Participle");
        reveal_strlit("RAI");
        assert("PAP"@[0] != "ADV"@[0]);
        assert("PAP"@[0] != "AAI"@[0]);
        assert("PAP"@[0] != "AAM"@[0]);
        assert("PAP"@[0] != "AAP"@[0]);
        assert("PAP"@[0] != "API"@[0]);
        assert("PAP"@[2] != "PAI"@[2]);
    } else if seg == "PPI"@ {
        reveal_strlit(" ");
        reveal_strlit("AAI");
        reveal_strlit("AAM");
        reveal_strlit("AAP");
        reveal_strlit("ADV");
        reveal_strlit("API");
        reveal_strlit("APM");
        reveal_strlit("ASF");
        reveal_strlit("ASM");
        reveal_strlit("DPM");
        reveal_strlit("DSF");
        reveal_strlit("DSM");
        reveal_strlit("FAI");
        reveal_strlit("GPM");
        reveal_strlit("GSF");
        reveal_strlit("GSM");
        reveal_strlit("GSN");
        reveal_strlit("Indicative");
        reveal_strlit("NPF");
        reveal_strlit("NPM");
        reveal_strlit("NSF");
        reveal_strlit("NSM");
        reveal_strlit("NSN");
        reveal_strlit("PAI");
        reveal_strlit("PAP");
        reveal_strlit("PEI");
        reveal_strlit("PMI");
        reveal_strlit("PPI");
        reveal_strlit("Passive");
        reveal_strlit("Present");
        reveal_strlit("Present Passive Indicative");
        reveal_strlit("RAI");
        assert("PPI"@[0] != "ADV"@[0]);
        assert("PPI"@[0] != "AAI"@[0]);
        assert("PPI"@[0] != "AAM"@[0]);
        assert("PPI"@[0] != "AAP"@[0]);
        assert("PPI"@[0] != "API"@[0]);
        assert("PPI"@[1] != "PAI"@[1]);
        assert("PPI"@[1] != "PAP"@[1]);
    } else if seg == "PMI"@ {
        reveal_strlit(" ");
        reveal_strlit("AAI");
        reveal_strlit("AAM");
        reveal_strlit("AAP");
        reveal_strlit("ADV");
        reveal_strlit("API");
        reveal_strlit("APM");
        reveal_strlit("ASF");
        reveal_strlit("ASM");
        reveal_strlit("DPM");
        reveal_strlit("DSF");
        reveal_strlit("DSM");
        reveal_strlit("FAI");
        reveal_strlit("GPM");
        reveal_strlit("GSF");
        reveal_strlit("GSM");
        reveal_strlit("GSN");
        reveal_strlit("Indicative");
        reveal_strlit("Middle");
        reveal_strlit("NPF");
        reveal_strlit("NPM");
        reveal_strlit("NSF");
        reveal_strlit("NSM");
        reveal_strlit("NSN");
        reveal_strlit("PAI");
        reveal_strlit("PAP");
        reveal_strlit("PEI");
        reveal_strlit("PMI");
        reveal_strlit("PPI");
        reveal_strlit("Present");
        reveal_strlit("Present Middle Indicative");
        reveal_strlit("RAI");
        assert("PMI"@[0] != "ADV"@[0]);
        assert("PMI"@[0] != "AAI"@[0]);
        assert("PMI"@[0] != "AAM"@[0]);
        assert("PMI"@[0] != "AAP"@[0]);
        assert("PMI"@[0] != "API"@[0]);
        assert("PMI"@[1] != "PAI"@[1]);
        assert("PMI"@[1] != "PAP"@[1]);
        assert("PMI"@[1] != "PPI"@[1]);
    } else if seg == "FAI"@ {
        reveal_strlit(" ");
        reveal_strlit("AAI");
        reveal_strlit("AAM");
        reveal_strlit("AAP");
        reveal_strlit("ADV");
        reveal_strlit("API");
        reveal_strlit("APM");
        reveal_strlit("ASF");
        reveal_strlit("ASM");
        reveal_strlit("Active");
        reveal_strlit("DPM");
        reveal_strlit("DSF");
        reveal_strlit("DSM");
        reveal_strlit("FAI");
        reveal_strlit("Future");
        reveal_strlit("Future Active Indicative");
        reveal_strlit("GPM");
        reveal_strlit("GSF");
        reveal_strlit("GSM");
        reveal_strlit("GSN");
        reveal_strlit("Indicative");
        reveal_strlit("NPF");
        reveal_strlit("NPM");
        reveal_strlit("NSF");
        reveal_strlit("NSM");
        reveal_strlit("NSN");
        reveal_strlit("PAI");
        reveal_strlit("PAP");
        reveal_strlit("PEI");
        reveal_strlit("PMI");
        reveal_strlit("PPI");
        reveal_strlit("RAI");
        assert("FAI"@[0] != "ADV"@[0]);
        assert("FAI"@[0] != "AAI"@[0]);
        assert("FAI"@[0] != "AAM"@[0]);
        assert("FAI"@[0] != "AAP"@[0]);
        assert("FAI"@[0] != "API"@[0]);
        assert("FAI"@[0] != "PAI"@[0]);
        assert("FAI"@[0] != "PAP"@[0]);
        assert("FAI"@[0] != "PPI"@[0]);
        assert("FAI"@[0] != "PMI"@[0]);
    } else if seg == "RAI"@ {
        reveal_strlit(" ");
        reveal_strlit("AAI");
        reveal_strlit("AAM");
        reveal_strlit("AAP");
        reveal_strlit("ADV");
        reveal_strlit("API");
        reveal_strlit("APM");
        reveal_strlit("ASF");
        reveal_strlit("ASM");
        reveal_strlit("Active");
        reveal_strlit("DPM");
        reveal_strlit("DSF");
        reveal_strlit("DSM");
        reveal_strlit("FAI");
        reveal_strlit("GPM");
        reveal_strlit("GSF");
        reveal_strlit("GSM");
        reveal_strlit("GSN");
        reveal_strlit("Indicative");
        reveal_strlit("NPF");
        reveal_strlit("NPM");
        reveal_strlit("NSF");
        reveal_strlit("NSM");
        reveal_strlit("NSN");
        reveal_strlit("PAI");
        reveal_strlit("PAP");
        reveal_strlit("PEI");
        reveal_strlit("PMI");
        reveal_strlit("PPI");
        reveal_strlit("Perfect");
        reveal_strlit("Perfect Active Indicative");
        reveal_strlit("RAI");
        assert("RAI"@[0] != "ADV"@[0]);
        assert("RAI"@[0] != "AAI"@[0]);
        assert("RAI"@[0] != "AAM"@[0]);
        assert("RAI"@[0] != "AAP"@[0]);
        assert("RAI"@[0] != "API"@[0]);
        assert("RAI"@[0] != "PAI"@[0]);
        assert("RAI"@[0] != "PAP"@[0]);
        assert("RAI"@[0] != "PPI"@[0]);
        assert("RAI"@[0] != "PMI"@[0]);
        assert("RAI"@[0] != "FAI"@[0]);
        assert("RAI"@[0] != "PEI"@[0]);
    }
}

/// A person-number segment that the decoder knows reads "<person> Person
/// <number>" (so "3S" reads "3rd Person Singular"), wherever it stands.
pub proof fn law_robinson_person_segments_chirho(i: int, seg: Seq<char>)
    requires
        seg == "1S"@ || seg == "2S"@ || seg == "3S"@ || seg == "1P"@ || seg == "2P"@ || seg == "3P"@,
    ensures
        spec_greek_label_chirho(i, seg) == spec_robinson_person_chirho(seg[0]) + " Person "@
            + spec_robinson_number_chirho(seg[1]),
{
    reveal_strlit("1P");
    reveal_strlit("1S");
    reveal_strlit("2P");
    reveal_strlit("2S");
    reveal_strlit("3P");
    reveal_strlit("3S");
    reveal_strlit("A");
    reveal_strlit("AAI");
    reveal_strlit("AAM");
    reveal_strlit("AAP");
    reveal_strlit("ADV");
    reveal_strlit("API");
    reveal_strlit("APM");
    reveal_strlit("ASF");
    reveal_strlit("ASM");
    reveal_strlit("C");
    reveal_strlit("D");
    reveal_strlit("DPM");
    reveal_strlit("DSF");
    reveal_strlit("DSM");
    reveal_strlit("FAI");
    reveal_strlit("GPM");
    reveal_strlit("GSF");
    reveal_strlit("GSM");
    reveal_strlit("GSN");
    reveal_strlit("I");
    reveal_strlit("N");
    reveal_strlit("NPF");
    reveal_strlit("NPM");
    reveal_strlit("NSF");
    reveal_strlit("NSM");
    reveal_strlit("NSN");
    reveal_strlit("P");
    reveal_strlit("PAI");
    reveal_strlit("PAP");
    reveal_strlit("PEI");
    reveal_strlit("PMI");
    reveal_strlit("PPI");
    reveal_strlit("R");
    reveal_strlit("RAI");
    reveal_strlit("T");
    reveal_strlit("V");
    reveal_strlit("X");
    if seg == "1S"@ {
        reveal_strlit(" Person ");
        reveal_strlit("1P");
        reveal_strlit("1S");
        reveal_strlit("1st");
        reveal_strlit("1st Person Singular");
        reveal_strlit("2P");
        reveal_strlit("2S");
        reveal_strlit("3P");
        reveal_strlit("3S");
        reveal_strlit("Singular");
    } else if seg == "2S"@ {
        reveal_strlit(" Person ");
        reveal_strlit("1P");
        reveal_strlit("1S");
        reveal_strlit("2P");
        reveal_strlit("2S");
        reveal_strlit("2nd");
        reveal_strlit("2nd Person Singular");
        reveal_strlit("3P");
        reveal_strlit("3S");
        reveal_strlit("Singular");
        assert("2S"@[0] != "1S"@[0]);
    } else if seg == "3S"@ {
        reveal_strlit(" Person ");
        reveal_strlit("1P");
        reveal_strlit("1S");
        reveal_strlit("2P");
        reveal_strlit("2S");
        reveal_strlit("3P");
        reveal_strlit("3S");
        reveal_strlit("3rd");
        reveal_strlit("3rd Person Singular");
        reveal_strlit("Singular");
        assert("3S"@[0] != "1S"@[0]);
        assert("3S"@[0] != "2S"@[0]);
    } else if seg == "1P"@ {
        reveal_strlit(" Person ");
        reveal_strlit("1P");
        reveal_strlit("1S");
        reveal_strlit("1st");
        reveal_strlit("1st Person Plural");
        reveal_strlit("2P");
        reveal_strlit("2S");
        reveal_strlit("3P");
        reveal_strlit("3S");
        reveal_strlit("Plural");
        assert("1P"@[1] != "1S"@[1]);
        assert("1P"@[0] != "2S"@[0]);
        assert("1P"@[0] != "3S"@[0]);
    } else if seg == "2P"@ {
        reveal_strlit(" Person ");
        reveal_strlit("1P");
        reveal_strlit("1S");
        reveal_strlit("2P");
        reveal_strlit("2S");
        reveal_strlit("2nd");
        reveal_strlit("2nd Person Plural");
        reveal_strlit("3P");
        reveal_strlit("3S");
        reveal_strlit("Plural");
        assert("2P"@[0] != "1S"@[0]);
        assert("2P"@[1] != "2S"@[1]);
        assert("2P"@[0] != "3S"@[0]);
        assert("2P"@[0] != "1P"@[0]);
    } else if seg == "3P"@ {
        reveal_strlit(" Person ");
        reveal_strlit("1P");
        reveal_strlit("1S");
        reveal_strlit("2P");
        reveal_strlit("2S");
        reveal_strlit("3P");
        reveal_strlit("3S");
        reveal_strlit("3rd");
        reveal_strlit("3rd Person Plural");
        reveal_strlit("Plural");
        assert("3P"@[0] != "1S"@[0]);
        assert("3P"@[0] != "2S"@[0]);
        assert("3P"@[1] != "3S"@[1]);
        assert("3P"@[0] != "1P"@[0]);
        assert("3P"@[0] != "2P"@[0]);
    }
}

/// A case-number-gender segment that the decoder knows reads as its three
/// letters spelled out (so "NSM" reads "Nominative Singular Masculine"),
/// wherever it stands.
#[verifier::rlimit(100)]
#[verifier::spinoff_prover]
pub proof fn law_robinson_noun_segments_chirho(i: int, seg: Seq<char>)
    requires
        seg == "NSM"@ || seg == "NSF"@ || seg == "NSN"@ || seg == "GSM"@ || seg == "GSF"@ || seg == "GSN"@ || seg == "DSM"@ || seg == "DSF"@ || seg == "ASM"@ || seg == "ASF"@ || seg == "NPM"@ || seg == "NPF"@ || seg == "GPM"@ || seg == "DPM"@ || seg == "APM"@,
    ensures
        spec_greek_label_chirho(i, seg) == spec_robinson_case_chirho(seg[0]) + " "@
            + spec_robinson_number_chirho(seg[1]) + " "@ + spec_robinson_gender_chirho(seg[2]),
{
    reveal_strlit("1P");
    reveal_strlit("1S");
    reveal_strlit("2P");
    reveal_strlit("2S");
    reveal_strlit("3P");
    reveal_strlit("3S");
    reveal_strlit("A");
    reveal_strlit("AAI");
    reveal_strlit("AAM");
    reveal_strlit("AAP");
    reveal_strlit("ADV");
    reveal_strlit("API");
    reveal_strlit("APM");
    reveal_strlit("ASF");
    reveal_strlit("ASM");
    reveal_strlit("C");
    reveal_strlit("D");
    reveal_strlit("DPM");
    reveal_strlit("DSF");
    reveal_strlit("DSM");
    reveal_strlit("FAI");
    reveal_strlit("GPM");
    reveal_strlit("GSF");
    reveal_strlit("GSM");
    reveal_strlit("GSN");
    reveal_strlit("I");
    reveal_strlit("N");
    reveal_strlit("NPF");
    reveal_strlit("NPM");
    reveal_strlit("NSF");
    reveal_strlit("NSM");
    reveal_strlit("NSN");
    reveal_strlit("P");
    reveal_strlit("PAI");
    reveal_strlit("PAP");
    reveal_strlit("PEI");
    reveal_strlit("PMI");
    reveal_strlit("PPI");
    reveal_strlit("R");
    reveal_strlit("RAI");
    reveal_strlit("T");
    reveal_strlit("V");
    reveal_strlit("X");
    reveal_strlit("Nominative");
    reveal_strlit("Genitive");
    reveal_strlit("Dative");
    reveal_strlit("Accusative");
    reveal_strlit("Vocative");
    reveal_strlit("Singular");
    reveal_strlit("Plural");
    reveal_strlit("Masculine");
    reveal_strlit("Feminine");
    reveal_strlit("Neuter");
    reveal_strlit(" ");
    if seg == "NSM"@ {
        assert("NSM"@.len() != "V"@.len());
        assert("NSM"@.len() != "N"@.len());
        assert("NSM"@.len() != "A"@.len());
        assert("NSM"@.len() != "P"@.len());
        assert("NSM"@.len() != "C"@.len());
        assert("NSM"@.len() != "T"@.len());
        assert("NSM"@.len() != "R"@.len());
        assert("NSM"@.len() != "D"@.len());
        assert("NSM"@.len() != "X"@.len());
        assert("NSM"@.len() != "I"@.len());
        assert("NSM"@.len() != "1S"@.len());
        assert("NSM"@.len() != "2S"@.len());
        assert("NSM"@.len() != "3S"@.len());
        assert("NSM"@.len() != "1P"@.len());
        assert("NSM"@.len() != "2P"@.len());
        assert("NSM"@.len() != "3P"@.len());
        reveal_strlit("Nominative Singular Masculine");
        assert("Nominative Singular Masculine"@ =~= "Nominative"@ + " "@ + "Singular"@ + " "@ + "Masculine"@);
        reveal_strlit(" ");
        reveal_strlit("AAI");
        reveal_strlit("AAM");
        reveal_strlit("AAP");
        reveal_strlit("ADV");
        reveal_strlit("API");
        reveal_strlit("APM");
        reveal_strlit("ASF");
        reveal_strlit("ASM");
        reveal_strlit("DPM");
        reveal_strlit("DSF");
        reveal_strlit("DSM");
        reveal_strlit("FAI");
        reveal_strlit("GPM");
        reveal_strlit("GSF");
        reveal_strlit("GSM");
        reveal_strlit("GSN");
        reveal_strlit("Masculine");
        reveal_strlit("NPF");
        reveal_strlit("NPM");
        reveal_strlit("NSF");
        reveal_strlit("NSM");
        reveal_strlit("NSN");
        reveal_strlit("Nominative");
        reveal_strlit("Nominative Singular Masculine");
        reveal_strlit("PAI");
        reveal_strlit("PAP");
        reveal_strlit("PEI");
        reveal_strlit("PMI");
        reveal_strlit("PPI");
        reveal_strlit("RAI");
        reveal_strlit("Singular");
        assert("NSM"@[0] != "ADV"@[0]);
        assert("NSM"@[0] != "AAI"@[0]);
        assert("NSM"@[0] != "AAM"@[0]);
        assert("NSM"@[0] != "AAP"@[0]);
        assert("NSM"@[0] != "API"@[0]);
        assert("NSM"@[0] != "PAI"@[0]);
        assert("NSM"@[0] != "PAP"@[0]);
        assert("NSM"@[0] != "PPI"@[0]);
        assert("NSM"@[0] != "PMI"@[0]);
        assert("NSM"@[0] != "FAI"@[0]);
        assert("NSM"@[0] != "PEI"@[0]);
        assert("NSM"@[0] != "RAI"@[0]);
    } else if seg == "NSF"@ {
        assert("NSF"@.len() != "V"@.len());
        assert("NSF"@.len() != "N"@.len());
        assert("NSF"@.len() != "A"@.len());
        assert("NSF"@.len() != "P"@.len());
        assert("NSF"@.len() != "C"@.len());
        assert("NSF"@.len() != "T"@.len());
        assert("NSF"@.len() != "R"@.len());
        assert("NSF"@.len() != "D"@.len());
        assert("NSF"@.len() != "X"@.len());
        assert("NSF"@.len() != "I"@.len());
        assert("NSF"@.len() != "1S"@.len());
        assert("NSF"@.len() != "2S"@.len());
        assert("NSF"@.len() != "3S"@.len());
        assert("NSF"@.len() != "1P"@.len());
        assert("NSF"@.len() != "2P"@.len());
        assert("NSF"@.len() != "3P"@.len());
        reveal_strlit("Nominative Singular Feminine");
        assert("Nominative Singular Feminine"@ =~= "Nominative"@ + " "@ + "Singular"@ + " "@ + "Feminine"@);
        reveal_strlit(" ");
        reveal_strlit("AAI");
        reveal_strlit("AAM");
        reveal_strlit("AAP");
        reveal_strlit("ADV");
        reveal_strlit("API");
        reveal_strlit("APM");
        reveal_strlit("ASF");
        reveal_strlit("ASM");
        reveal_strlit("DPM");
        reveal_strlit("DSF");
        reveal_strlit("DSM");
        reveal_strlit("FAI");
        reveal_strlit("Feminine");
        reveal_strlit("GPM");
        reveal_strlit("GSF");
        reveal_strlit("GSM");
        reveal_strlit("GSN");
        reveal_strlit("NPF");
        reveal_strlit("NPM");
        reveal_strlit("NSF");
        reveal_strlit("NSM");
        reveal_strlit("NSN");
        reveal_strlit("Nominative");
        reveal_strlit("Nominative Singular Feminine");
        reveal_strlit("PAI");
        reveal_strlit("PAP");
        reveal_strlit("PEI");
        reveal_strlit("PMI");
        reveal_strlit("PPI");
        reveal_strlit("RAI");
        reveal_strlit("Singular");
        assert("NSF"@[0] != "ADV"@[0]);
        assert("NSF"@[0] != "AAI"@[0]);
        assert("NSF"@[0] != "AAM"@[0]);
        assert("NSF"@[0] != "AAP"@[0]);
        assert("NSF"@[0] != "API"@[0]);
        assert("NSF"@[0] != "PAI"@[0]);
        assert("NSF"@[0] != "PAP"@[0]);
        assert("NSF"@[0] != "PPI"@[0]);
        assert("NSF"@[0] != "PMI"@[0]);
        assert("NSF"@[0] != "FAI"@[0]);
        assert("NSF"@[0] != "PEI"@[0]);
        assert("NSF"@[0] != "RAI"@[0]);
        assert("NSF"@[2] != "NSM"@[2]);
    } else if seg == "NSN"@ {
        assert("NSN"@.len() != "V"@.len());
        assert("NSN"@.len() != "N"@.len());
        assert("NSN"@.len() != "A"@.len());
        assert("NSN"@.len() != "P"@.len());
        assert("NSN"@.len() != "C"@.len());
        assert("NSN"@.len() != "T"@.len());
        assert("NSN"@.len() != "R"@.len());
        assert("NSN"@.len() != "D"@.len());
        assert("NSN"@.len() != "X"@.len());
        assert("NSN"@.len() != "I"@.len());
        assert("NSN"@.len() != "1S"@.len());
        assert("NSN"@.len() != "2S"@.len());
        assert("NSN"@.len() != "3S"@.len());
        assert("NSN"@.len() != "1P"@.len());
        assert("NSN"@.len() != "2P"@.len());
        assert("NSN"@.len() != "3P"@.len());
        reveal_strlit("Nominative Singular Neuter");
        assert("Nominative Singular Neuter"@ =~= "Nominative"@ + " "@ + "Singular"@ + " "@ + "Neuter"@);
        reveal_strlit(" ");
        reveal_strlit("AAI");
        reveal_strlit("AAM");
        reveal_strlit("AAP");
        reveal_strlit("ADV");
        reveal_strlit("API");
        reveal_strlit("APM");
        reveal_strlit("ASF");
        reveal_strlit("ASM");
        reveal_strlit("DPM");
        reveal_strlit("DSF");
        reveal_strlit("DSM");
        reveal_strlit("FAI");
        reveal_strlit("GPM");
        reveal_strlit("GSF");
        reveal_strlit("GSM");
        reveal_strlit("GSN");
        reveal_strlit("NPF");
        reveal_strlit("NPM");
        reveal_strlit("NSF");
        reveal_strlit("NSM");
        reveal_strlit("NSN");
        reveal_strlit("Neuter");
        reveal_strlit("Nominative");
        reveal_strlit("Nominative Singular Neuter");
        reveal_strlit("PAI");
        reveal_strlit("PAP");
        reveal_strlit("PEI");
        reveal_strlit("PMI");
        reveal_strlit("PPI");
        reveal_strlit("RAI");
        reveal_strlit("Singular");
        assert("NSN"@[0] != "ADV"@[0]);
        assert("NSN"@[0] != "AAI"@[0]);
        assert("NSN"@[0] != "AAM"@[0]);
        assert("NSN"@[0] != "AAP"@[0]);
        assert("NSN"@[0] != "API"@[0]);
        assert("NSN"@[0] != "PAI"@[0]);
        assert("NSN"@[0] != "PAP"@[0]);
        assert("NSN"@[0] != "PPI"@[0]);
        assert("NSN"@[0] != "PMI"@[0]);
        assert("NSN"@[0] != "FAI"@[0]);
        assert("NSN"@[0] != "PEI"@[0]);
        assert("NSN"@[0] != "RAI"@[0]);
        assert("NSN"@[2] != "NSM"@[2]);
        assert("NSN"@[2] != "NSF"@[2]);
    } else if seg == "GSM"@ {
        assert("GSM"@.len() != "V"@.len());
        assert("GSM"@.len() != "N"@.len());
        assert("GSM"@.len() != "A"@.len());
        assert("GSM"@.len() != "P"@.len());
        assert("GSM"@.len() != "C"@.len());
        assert("GSM"@.len() != "T"@.len());
        assert("GSM"@.len() != "R"@.len());
        assert("GSM"@.len() != "D"@.len());
        assert("GSM"@.len() != "X"@.len());
        assert("GSM"@.len() != "I"@.len());
        assert("GSM"@.len() != "1S"@.len());
        assert("GSM"@.len() != "2S"@.len());
        assert("GSM"@.len() != "3S"@.len());
        assert("GSM"@.len() != "1P"@.len());
        assert("GSM"@.len() != "2P"@.len());
        assert("GSM"@.len() != "3P"@.len());
        reveal_strlit("Genitive Singular Masculine");
        assert("Genitive Singular Masculine"@ =~= "Genitive"@ + " "@ + "Singular"@ + " "@ + "Masculine"@);
        reveal_strlit(" ");
        reveal_strlit("AAI");
        reveal_strlit("AAM");
        reveal_strlit("AAP");
        reveal_strlit("ADV");
        reveal_strlit("API");
        reveal_strlit("APM");
        reveal_strlit("ASF");
        reveal_strlit("ASM");
        reveal_strlit("DPM");
        reveal_strlit("DSF");
        reveal_strlit("DSM");
        reveal_strlit("FAI");
        reveal_strlit("GPM");
        reveal_strlit("GSF");
        reveal_strlit("GSM");
        reveal_strlit("GSN");
        reveal_strlit("Genitive");
        reveal_strlit("Genitive Singular Masculine");
        reveal_strlit("Masculine");
        reveal_strlit("NPF");
        reveal_strlit("NPM");
        reveal_strlit("NSF");
        reveal_strlit("NSM");
        reveal_strlit("NSN");
        reveal_strlit("PAI");
        reveal_strlit("PAP");
        reveal_strlit("PEI");
        reveal_strlit("PMI");
        reveal_strlit("PPI");
        reveal_strlit("RAI");
        reveal_strlit("Singular");
        assert("GSM"@[0] != "ADV"@[0]);
        assert("GSM"@[0] != "AAI"@[0]);
        assert("GSM"@[0] != "AAM"@[0]);
        assert("GSM"@[0] != "AAP"@[0]);
        assert("GSM"@[0] != "API"@[0]);
        assert("GSM"@[0] != "PAI"@[0]);
        assert("GSM"@[0] != "PAP"@[0]);
        assert("GSM"@[0] != "PPI"@[0]);
        assert("GSM"@[0] != "PMI"@[0]);
        assert("GSM"@[0] != "FAI"@[0]);
        assert("GSM"@[0] != "PEI"@[0]);
        assert("GSM"@[0] != "RAI"@[0]);
        assert("GSM"@[0] != "NSM"@[0]);
        assert("GSM"@[0] != "NSF"@[0]);
        assert("GSM"@[0] != "NSN"@[0]);
    } else if seg == "GSF"@ {
        assert("GSF"@.len() != "V"@.len());
        assert("GSF"@.len() != "N"@.len());
        assert("GSF"@.len() != "A"@.len());
        assert("GSF"@.len() != "P"@.len());
        assert("GSF"@.len() != "C"@.len());
        assert("GSF"@.len() != "T"@.len());
        assert("GSF"@.len() != "R"@.len());
        assert("GSF"@.len() != "D"@.len());
        assert("GSF"@.len() != "X"@.len());
        assert("GSF"@.len() != "I"@.len());
        assert("GSF"@.len() != "1S"@.len());
        assert("GSF"@.len() != "2S"@.len());
        assert("GSF"@.len() != "3S"@.len());
        assert("GSF"@.len() != "1P"@.len());
        assert("GSF"@.len() != "2P"@.len());
        assert("GSF"@.len() != "3P"@.len());
        reveal_strlit("Genitive Singular Feminine");
        assert("Genitive Singular Feminine"@ =~= "Genitive"@ + " "@ + "Singular"@ + " "@ + "Feminine"@);
        reveal_strlit(" ");
        reveal_strlit("AAI");
        reveal_strlit("AAM");
        reveal_strlit("AAP");
        reveal_strlit("ADV");
        reveal_strlit("API");
        reveal_strlit("APM");
        reveal_strlit("ASF");
        reveal_strlit("ASM");
        reveal_strlit("DPM");
        reveal_strlit("DSF");
        reveal_strlit("DSM");
        reveal_strlit("FAI");
        reveal_strlit("Feminine");
        reveal_strlit("GPM");
        reveal_strlit("GSF");
        reveal_strlit("GSM");
        reveal_strlit("GSN");
        reveal_strlit("Genitive");
        reveal_strlit("Genitive Singular Feminine");
        reveal_strlit("NPF");
        reveal_strlit("NPM");
        reveal_strlit("NSF");
        reveal_strlit("NSM");
        reveal_strlit("NSN");
        reveal_strlit("PAI");
        reveal_strlit("PAP");
        reveal_strlit("PEI");
        reveal_strlit("PMI");
        reveal_strlit("PPI");
        reveal_strlit("RAI");
        reveal_strlit("Singular");
        assert("GSF"@[0] != "ADV"@[0]);
        assert("GSF"@[0] != "AAI"@[0]);
        assert("GSF"@[0] != "AAM"@[0]);
        assert("GSF"@[0] != "AAP"@[0]);
        assert("GSF"@[0] != "API"@[0]);
        assert("GSF"@[0] != "PAI"@[0]);
        assert("GSF"@[0] != "PAP"@[0]);
        assert("GSF"@[0] != "PPI"@[0]);
        assert("GSF"@[0] != "PMI"@[0]);
        assert("GSF"@[0] != "FAI"@[0]);
        assert("GSF"@[0] != "PEI"@[0]);
        assert("GSF"@[0] != "RAI"@[0]);
        assert("GSF"@[0] != "NSM"@[0]);
        assert("GSF"@[0] != "NSF"@[0]);
        assert("GSF"@[0] != "NSN"@[0]);
        assert("GSF"@[2] != "GSM"@[2]);
    } else if seg == "GSN"@ {
        assert("GSN"@.len() != "V"@.len());
        assert("GSN"@.len() != "N"@.len());
        assert("GSN"@.len() != "A"@.len());
        assert("GSN"@.len() != "P"@.len());
        assert("GSN"@.len() != "C"@.len());
        assert("GSN"@.len() != "T"@.len());
        assert("GSN"@.len() != "R"@.len());
        assert("GSN"@.len() != "D"@.len());
        assert("GSN"@.len() != "X"@.len());
        assert("GSN"@.len() != "I"@.len());
        assert("GSN"@.len() != "1S"@.len());
        assert("GSN"@.len() != "2S"@.len());
        assert("GSN"@.len() != "3S"@.len());
        assert("GSN"@.len() != "1P"@.len());
        assert("GSN"@.len() != "2P"@.len());
        assert("GSN"@.len() != "3P"@.len());
        reveal_strlit("Genitive Singular Neuter");
        assert("Genitive Singular Neuter"@ =~= "Genitive"@ + " "@ + "Singular"@ + " "@ + "Neuter"@);
        reveal_strlit(" ");
        reveal_strlit("AAI");
        reveal_strlit("AAM");
        reveal_strlit("AAP");
        reveal_strlit("ADV");
        reveal_strlit("API");
        reveal_strlit("APM");
        reveal_strlit("ASF");
        reveal_strlit("ASM");
        reveal_strlit("DPM");
        reveal_strlit("DSF");
        reveal_strlit("DSM");
        reveal_strlit("FAI");
        reveal_strlit("GPM");
        reveal_strlit("GSF");
        reveal_strlit("GSM");
        reveal_strlit("GSN");
        reveal_strlit("Genitive");
        reveal_strlit("Genitive Singular Neuter");
        reveal_strlit("NPF");
        reveal_strlit("NPM");
        reveal_strlit("NSF");
        reveal_strlit("NSM");
        reveal_strlit("NSN");
        reveal_strlit("Neuter");
        reveal_strlit("PAI");
        reveal_strlit("PAP");
        reveal_strlit("PEI");
        reveal_strlit("PMI");
        reveal_strlit("PPI");
        reveal_strlit("RAI");
        reveal_strlit("Singular");
        assert("GSN"@[0] != "ADV"@[0]);
        assert("GSN"@[0] != "AAI"@[0]);
        assert("GSN"@[0] != "AAM"@[0]);
        assert("GSN"@[0] != "AAP"@[0]);
        assert("GSN"@[0] != "API"@[0]);
        assert("GSN"@[0] != "PAI"@[0]);
        assert("GSN"@[0] != "PAP"@[0]);
        assert("GSN"@[0] != "PPI"@[0]);
        assert("GSN"@[0] != "PMI"@[0]);
        assert("GSN"@[0] != "FAI"@[0]);
        assert("GSN"@[0] != "PEI"@[0]);
        assert("GSN"@[0] != "RAI"@[0]);
        assert("GSN"@[0] != "NSM"@[0]);
        assert("GSN"@[0] != "NSF"@[0]);
        assert("GSN"@[0] != "NSN"@[0]);
        assert("GSN"@[2] != "GSM"@[2]);
        assert("GSN"@[2] != "GSF"@[2]);
    } else if seg == "DSM"@ {
        assert("DSM"@.len() != "V"@.len());
        assert("DSM"@.len() != "N"@.len());
        assert("DSM"@.len() != "A"@.len());
        assert("DSM"@.len() != "P"@.len());
        assert("DSM"@.len() != "C"@.len());
        assert("DSM"@.len() != "T"@.len());
        assert("DSM"@.len() != "R"@.len());
        assert("DSM"@.len() != "D"@.len());
        assert("DSM"@.len() != "X"@.len());
        assert("DSM"@.len() != "I"@.len());
        assert("DSM"@.len() != "1S"@.len());
        assert("DSM"@.len() != "2S"@.len());
        assert("DSM"@.len() != "3S"@.len());
        assert("DSM"@.len() != "1P"@.len());
        assert("DSM"@.len() != "2P"@.len());
        assert("DSM"@.len() != "3P"@.len());
        reveal_strlit("Dative Singular Masculine");
        assert("Dative Singular Masculine"@ =~= "Dative"@ + " "@ + "Singular"@ + " "@ + "Masculine"@);
        reveal_strlit(" ");
        reveal_strlit("AAI");
        reveal_strlit("AAM");
        reveal_strlit("AAP");
        reveal_strlit("ADV");
        reveal_strlit("API");
        reveal_strlit("APM");
        reveal_strlit("ASF");
        reveal_strlit("ASM");
        reveal_strlit("DPM");
        reveal_strlit("DSF");
        reveal_strlit("DSM");
        reveal_strlit("Dative");
        reveal_strlit("Dative Singular Masculine");
        reveal_strlit("FAI");
        reveal_strlit("GPM");
        reveal_strlit("GSF");
        reveal_strlit("GSM");
        reveal_strlit("GSN");
        reveal_strlit("Masculine");
        reveal_strlit("NPF");
        reveal_strlit("NPM");
        reveal_strlit("NSF");
        reveal_strlit("NSM");
        reveal_strlit("NSN");
        reveal_strlit("PAI");
        reveal_strlit("PAP");
        reveal_strlit("PEI");
        reveal_strlit("PMI");
        reveal_strlit("PPI");
        reveal_strlit("RAI");
        reveal_strlit("Singular");
        assert("DSM"@[0] != "ADV"@[0]);
        assert("DSM"@[0] != "AAI"@[0]);
        assert("DSM"@[0] != "AAM"@[0]);
        assert("DSM"@[0] != "AAP"@[0]);
        assert("DSM"@[0] != "API"@[0]);
        assert("DSM"@[0] != "PAI"@[0]);
        assert("DSM"@[0] != "PAP"@[0]);
        assert("DSM"@[0] != "PPI"@[0]);
        assert("DSM"@[0] != "PMI"@[0]);
        assert("DSM"@[0] != "FAI"@[0]);
        assert("DSM"@[0] != "PEI"@[0]);
        assert("DSM"@[0] != "RAI"@[0]);
        assert("DSM"@[0] != "NSM"@[0]);
        assert("DSM"@[0] != "NSF"@[0]);
        assert("DSM"@[0] != "NSN"@[0]);
        assert("DSM"@[0] != "GSM"@[0]);
        assert("DSM"@[0] != "GSF"@[0]);
        assert("DSM"@[0] != "GSN"@[0]);
    } else if seg == "DSF"@ {
        assert("DSF"@.len() != "V"@.len());
        assert("DSF"@.len() != "N"@.len());
        assert("DSF"@.len() != "A"@.len());
        assert("DSF"@.len() != "P"@.len());
        assert("DSF"@.len() != "C"@.len());
        assert("DSF"@.len() != "T"@.len());
        assert("DSF"@.len() != "R"@.len());
        assert("DSF"@.len() != "D"@.len());
        assert("DSF"@.len() != "X"@.len());
        assert("DSF"@.len() != "I"@.len());
        assert("DSF"@.len() != "1S"@.len());
        assert("DSF"@.len() != "2S"@.len());
        assert("DSF"@.len() != "3S"@.len());
        assert("DSF"@.len() != "1P"@.len());
        assert("DSF"@.len() != "2P"@.len());
        assert("DSF"@.len() != "3P"@.len());
        reveal_strlit("Dative Singular Feminine");
        assert("Dative Singular Feminine"@ =~= "Dative"@ + " "@ + "Singular"@ + " "@ + "Feminine"@);
        reveal_strlit(" ");
        reveal_strlit("AAI");
        reveal_strlit("AAM");
        reveal_strlit("AAP");
        reveal_strlit("ADV");
        reveal_strlit("API");
        reveal_strlit("APM");
        reveal_strlit("ASF");
        reveal_strlit("ASM");
        reveal_strlit("DPM");
        reveal_strlit("DSF");
        reveal_strlit("DSM");
        reveal_strlit("Dative");
        reveal_strlit("Dative Singular Feminine");
        reveal_strlit("FAI");
        reveal_strlit("Feminine");
        reveal_strlit("GPM");
        reveal_strlit("GSF");
        reveal_strlit("GSM");
        reveal_strlit("GSN");
        reveal_strlit("NPF");
        reveal_strlit("NPM");
        reveal_strlit("NSF");
        reveal_strlit("NSM");
        reveal_strlit("NSN");
        reveal_strlit("PAI");
        reveal_strlit("PAP");
        reveal_strlit("PEI");
        reveal_strlit("PMI");
        reveal_strlit("PPI");
        reveal_strlit("RAI");
        reveal_strlit("Singular");
        assert("DSF"@[0] != "ADV"@[0]);
        assert("DSF"@[0] != "AAI"@[0]);
        assert("DSF"@[0] != "AAM"@[0]);
        assert("DSF"@[0] != "AAP"@[0]);
        assert("DSF"@[0] != "API"@[0]);
        assert("DSF"@[0] != "PAI"@[0]);
        assert("DSF"@[0] != "PAP"@[0]);
        assert("DSF"@[0] != "PPI"@[0]);
        assert("DSF"@[0] != "PMI"@[0]);
        assert("DSF"@[0] != "FAI"@[0]);
        assert("DSF"@[0] != "PEI"@[0]);
        assert("DSF"@[0] != "RAI"@[0]);
        assert("DSF"@[0] != "NSM"@[0]);
        assert("DSF"@[0] != "NSF"@[0]);
        assert("DSF"@[0] != "NSN"@[0]);
        assert("DSF"@[0] != "GSM"@[0]);
        assert("DSF"@[0] != "GSF"@[0]);
        assert("DSF"@[0] != "GSN"@[0]);
        assert("DSF"@[2] != "DSM"@[2]);
    } else if seg == "ASM"@ {
        assert("ASM"@.len() != "V"@.len());
        assert("ASM"@.len() != "N"@.len());
        assert("ASM"@.len() != "A"@.len());
        assert("ASM"@.len() != "P"@.len());
        assert("ASM"@.len() != "C"@.len());
        assert("ASM"@.len() != "T"@.len());
        assert("ASM"@.len() != "R"@.len());
        assert("ASM"@.len() != "D"@.len());
        assert("ASM"@.len() != "X"@.len());
        assert("ASM"@.len() != "I"@.len());
        assert("ASM"@.len() != "1S"@.len());
        assert("ASM"@.len() != "2S"@.len());
        assert("ASM"@.len() != "3S"@.len());
        assert("ASM"@.len() != "1P"@.len());
        assert("ASM"@.len() != "2P"@.len());
        assert("ASM"@.len() != "3P"@.len());
        reveal_strlit("Accusative Singular Masculine");
        assert("Accusative Singular Masculine"@ =~= "Accusative"@ + " "@ + "Singular"@ + " "@ + "Masculine"@);
        reveal_strlit(" ");
        reveal_strlit("AAI");
        reveal_strlit("AAM");
        reveal_strlit("AAP");
        reveal_strlit("ADV");
        reveal_strlit("API");
        reveal_strlit("APM");
        reveal_strlit("ASF");
        reveal_strlit("ASM");
        reveal_strlit("Accusative");
        reveal_strlit("Accusative Singular Masculine");
        reveal_strlit("DPM");
        reveal_strlit("DSF");
        reveal_strlit("DSM");
        reveal_strlit("FAI");
        reveal_strlit("GPM");
        reveal_strlit("GSF");
        reveal_strlit("GSM");
        reveal_strlit("GSN");
        reveal_strlit("Masculine");
        reveal_strlit("NPF");
        reveal_strlit("NPM");
        reveal_strlit("NSF");
        reveal_strlit("NSM");
        reveal_strlit("NSN");
        reveal_strlit("PAI");
        reveal_strlit("PAP");
        reveal_strlit("PEI");
        reveal_strlit("PMI");
        reveal_strlit("PPI");
        reveal_strlit("RAI");
        reveal_strlit("Singular");
        assert("ASM"@[1] != "ADV"@[1]);
        assert("ASM"@[1] != "AAI"@[1]);
        assert("ASM"@[1] != "AAM"@[1]);
        assert("ASM"@[1] != "AAP"@[1]);
        assert("ASM"@[1] != "API"@[1]);
        assert("ASM"@[0] != "PAI"@[0]);
        assert("ASM"@[0] != "PAP"@[0]);
        assert("ASM"@[0] != "PPI"@[0]);
        assert("ASM"@[0] != "PMI"@[0]);
        assert("ASM"@[0] != "FAI"@[0]);
        assert("ASM"@[0] != "PEI"@[0]);
        assert("ASM"@[0] != "RAI"@[0]);
        assert("ASM"@[0] != "NSM"@[0]);
        assert("ASM"@[0] != "NSF"@[0]);
        assert("ASM"@[0] != "NSN"@[0]);
        assert("ASM"@[0] != "GSM"@[0]);
        assert("ASM"@[0] != "GSF"@[0]);
        assert("ASM"@[0] != "GSN"@[0]);
        assert("ASM"@[0] != "DSM"@[0]);
        assert("ASM"@[0] != "DSF"@[0]);
    } else if seg == "ASF"@ {
        assert("ASF"@.len() != "V"@.len());
        assert("ASF"@.len() != "N"@.len());
        assert("ASF"@.len() != "A"@.len());
        assert("ASF"@.len() != "P"@.len());
        assert("ASF"@.len() != "C"@.len());
        assert("ASF"@.len() != "T"@.len());
        assert("ASF"@.len() != "R"@.len());
        assert("ASF"@.len() != "D"@.len());
        assert("ASF"@.len() != "X"@.len());
        assert("ASF"@.len() != "I"@.len());
        assert("ASF"@.len() != "1S"@.len());
        assert("ASF"@.len() != "2S"@.len());
        assert("ASF"@.len() != "3S"@.len());
        assert("ASF"@.len() != "1P"@.len());
        assert("ASF"@.len() != "2P"@.len());
        assert("ASF"@.len() != "3P"@.len());
        reveal_strlit("Accusative Singular Feminine");
        assert("Accusative Singular Feminine"@ =~= "Accusative"@ + " "@ + "Singular"@ + " "@ + "Feminine"@);
        reveal_strlit(" ");
        reveal_strlit("AAI");
        reveal_strlit("AAM");
        reveal_strlit("AAP");
        reveal_strlit("ADV");
        reveal_strlit("API");
        reveal_strlit("APM");
        reveal_strlit("ASF");
        reveal_strlit("ASM");
        reveal_strlit("Accusative");
        reveal_strlit("Accusative Singular Feminine");
        reveal_strlit("DPM");
        reveal_strlit("DSF");
        reveal_strlit("DSM");
        reveal_strlit("FAI");
        reveal_strlit("Feminine");
        reveal_strlit("GPM");
        reveal_strlit("GSF");
        reveal_strlit("GSM");
        reveal_strlit("GSN");
        reveal_strlit("NPF");
        reveal_strlit("NPM");
        reveal_strlit("NSF");
        reveal_strlit("NSM");
        reveal_strlit("NSN");
        reveal_strlit("PAI");
        reveal_strlit("PAP");
        reveal_strlit("PEI");
        reveal_strlit("PMI");
        reveal_strlit("PPI");
        reveal_strlit("RAI");
        reveal_strlit("Singular");
        assert("ASF"@[1] != "ADV"@[1]);
        assert("ASF"@[1] != "AAI"@[1]);
        assert("ASF"@[1] != "AAM"@[1]);
        assert("ASF"@[1] != "AAP"@[1]);
        assert("ASF"@[1] != "API"@[1]);
        assert("ASF"@[0] != "PAI"@[0]);
        assert("ASF"@[0] != "PAP"@[0]);
        assert("ASF"@[0] != "PPI"@[0]);
        assert("ASF"@[0] != "PMI"@[0]);
        assert("ASF"@[0] != "FAI"@[0]);
        assert("ASF"@[0] != "PEI"@[0]);
        assert("ASF"@[0] != "RAI"@[0]);
        assert("ASF"@[0] != "NSM"@[0]);
        assert("ASF"@[0] != "NSF"@[0]);
        assert("ASF"@[0] != "NSN"@[0]);
        assert("ASF"@[0] != "GSM"@[0]);
        assert("ASF"@[0] != "GSF"@[0]);
        assert("ASF"@[0] != "GSN"@[0]);
        assert("ASF"@[0] != "DSM"@[0]);
        assert("ASF"@[0] != "DSF"@[0]);
        assert("ASF"@[2] != "ASM"@[2]);
    } else if seg == "NPM"@ {
        assert("NPM"@.len() != "V"@.len());
        assert("NPM"@.len() != "N"@.len());
        assert("NPM"@.len() != "A"@.len());
        assert("NPM"@.len() != "P"@.len());
        assert("NPM"@.len() != "C"@.len());
        assert("NPM"@.len() != "T"@.len());
        assert("NPM"@.len() != "R"@.len());
        assert("NPM"@.len() != "D"@.len());
        assert("NPM"@.len() != "X"@.len());
        assert("NPM"@.len() != "I"@.len());
        assert("NPM"@.len() != "1S"@.len());
        assert("NPM"@.len() != "2S"@.len());
        assert("NPM"@.len() != "3S"@.len());
        assert("NPM"@.len() != "1P"@.len());
        assert("NPM"@.len() != "2P"@.len());
        assert("NPM"@.len() != "3P"@.len());
        reveal_strlit("Nominative Plural Masculine");
        assert("Nominative Plural Masculine"@ =~= "Nominative"@ + " "@ + "Plural"@ + " "@ + "Masculine"@);
        reveal_strlit(" ");
        reveal_strlit("AAI");
        reveal_strlit("AAM");
        reveal_strlit("AAP");
        reveal_strlit("ADV");
        reveal_strlit("API");
        reveal_strlit("APM");
        reveal_strlit("ASF");
        reveal_strlit("ASM");
        reveal_strlit("DPM");
        reveal_strlit("DSF");
        reveal_strlit("DSM");
        reveal_strlit("FAI");
        reveal_strlit("GPM");
        reveal_strlit("GSF");
        reveal_strlit("GSM");
        reveal_strlit("GSN");
        reveal_strlit("Masculine");
        reveal_strlit("NPF");
        reveal_strlit("NPM");
        reveal_strlit("NSF");
        reveal_strlit("NSM");
        reveal_strlit("NSN");
        reveal_strlit("Nominative");
        reveal_strlit("Nominative Plural Masculine");
        reveal_strlit("PAI");
        reveal_strlit("PAP");
        reveal_strlit("PEI");
        reveal_strlit("PMI");
        reveal_strlit("PPI");
        reveal_strlit("Plural");
        reveal_strlit("RAI");
        assert("NPM"@[0] != "ADV"@[0]);
        assert("NPM"@[0] != "AAI"@[0]);
        assert("NPM"@[0] != "AAM"@[0]);
        assert("NPM"@[0] != "AAP"@[0]);
        assert("NPM"@[0] != "API"@[0]);
        assert("NPM"@[0] != "PAI"@[0]);
        assert("NPM"@[0] != "PAP"@[0]);
        assert("NPM"@[0] != "PPI"@[0]);
        assert("NPM"@[0] != "PMI"@[0]);
        assert("NPM"@[0] != "FAI"@[0]);
        assert("NPM"@[0] != "PEI"@[0]);
        assert("NPM"@[0] != "RAI"@[0]);
        assert("NPM"@[1] != "NSM"@[1]);
        assert("NPM"@[1] != "NSF"@[1]);
        assert("NPM"@[1] != "NSN"@[1]);
        assert("NPM"@[0] != "GSM"@[0]);
        assert("NPM"@[0] != "GSF"@[0]);
        assert("NPM"@[0] != "GSN"@[0]);
        assert("NPM"@[0] != "DSM"@[0]);
        assert("NPM"@[0] != "DSF"@[0]);
        assert("NPM"@[0] != "ASM"@[0]);
        assert("NPM"@[0] != "ASF"@[0]);
    } else if seg == "NPF"@ {
        assert("NPF"@.len() != "V"@.len());
        assert("NPF"@.len() != "N"@.len());
        assert("NPF"@.len() != "A"@.len());
        assert("NPF"@.len() != "P"@.len());
        assert("NPF"@.len() != "C"@.len());
        assert("NPF"@.len() != "T"@.len());
        assert("NPF"@.len() != "R"@.len());
        assert("NPF"@.len() != "D"@.len());
        assert("NPF"@.len() != "X"@.len());
        assert("NPF"@.len() != "I"@.len());
        assert("NPF"@.len() != "1S"@.len());
        assert("NPF"@.len() != "2S"@.len());
        assert("NPF"@.len() != "3S"@.len());
        assert("NPF"@.len() != "1P"@.len());
        assert("NPF"@.len() != "2P"@.len());
        assert("NPF"@.len() != "3P"@.len());
        reveal_strlit("Nominative Plural Feminine");
        assert("Nominative Plural Feminine"@ =~= "Nominative"@ + " "@ + "Plural"@ + " "@ + "Feminine"@);
        reveal_strlit(" ");
        reveal_strlit("AAI");
        reveal_strlit("AAM");
        reveal_strlit("AAP");
        reveal_strlit("ADV");
        reveal_strlit("API");
        reveal_strlit("APM");
        reveal_strlit("ASF");
        reveal_strlit("ASM");
        reveal_strlit("DPM");
        reveal_strlit("DSF");
        reveal_strlit("DSM");
        reveal_strlit("FAI");
        reveal_strlit("Feminine");
        reveal_strlit("GPM");
        reveal_strlit("GSF");
        reveal_strlit("GSM");
        reveal_strlit("GSN");
        reveal_strlit("NPF");
        reveal_strlit("NPM");
        reveal_strlit("NSF");
        reveal_strlit("NSM");
        reveal_strlit("NSN");
        reveal_strlit("Nominative");
        reveal_strlit("Nominative Plural Feminine");
        reveal_strlit("PAI");
        reveal_strlit("PAP");
        reveal_strlit("PEI");
        reveal_strlit("PMI");
        reveal_strlit("PPI");
        reveal_strlit("Plural");
        reveal_strlit("RAI");
        assert("NPF"@[0] != "ADV"@[0]);
        assert("NPF"@[0] != "AAI"@[0]);
        assert("NPF"@[0] != "AAM"@[0]);
        assert("NPF"@[0] != "AAP"@[0]);
        assert("NPF"@[0] != "API"@[0]);
        assert("NPF"@[0] != "PAI"@[0]);
        assert("NPF"@[0] != "PAP"@[0]);
        assert("NPF"@[0] != "PPI"@[0]);
        assert("NPF"@[0] != "PMI"@[0]);
        assert("NPF"@[0] != "FAI"@[0]);
        assert("NPF"@[0] != "PEI"@[0]);
        assert("NPF"@[0] != "RAI"@[0]);
        assert("NPF"@[1] != "NSM"@[1]);
        assert("NPF"@[1] != "NSF"@[1]);
        assert("NPF"@[1] != "NSN"@[1]);
        assert("NPF"@[0] != "GSM"@[0]);
        assert("NPF"@[0] != "GSF"@[0]);
        assert("NPF"@[0] != "GSN"@[0]);
        assert("NPF"@[0] != "DSM"@[0]);
        assert("NPF"@[0] != "DSF"@[0]);
        assert("NPF"@[0] != "ASM"@[0]);
        assert("NPF"@[0] != "ASF"@[0]);
        assert("NPF"@[2] != "NPM"@[2]);
    } else if seg == "GPM"@ {
        assert("GPM"@.len() != "V"@.len());
        assert("GPM"@.len() != "N"@.len());
        assert("GPM"@.len() != "A"@.len());
        assert("GPM"@.len() != "P"@.len());
        assert("GPM"@.len() != "C"@.len());
        assert("GPM"@.len() != "T"@.len());
        assert("GPM"@.len() != "R"@.len());
        assert("GPM"@.len() != "D"@.len());
        assert("GPM"@.len() != "X"@.len());
        assert("GPM"@.len() != "I"@.len());
        assert("GPM"@.len() != "1S"@.len());
        assert("GPM"@.len() != "2S"@.len());
        assert("GPM"@.len() != "3S"@.len());
        assert("GPM"@.len() != "1P"@.len());
        assert("GPM"@.len() != "2P"@.len());
        assert("GPM"@.len() != "3P"@.len());
        reveal_strlit("Genitive Plural Masculine");
        assert("Genitive Plural Masculine"@ =~= "Genitive"@ + " "@ + "Plural"@ + " "@ + "Masculine"@);
        reveal_strlit(" ");
        reveal_strlit("AAI");
        reveal_strlit("AAM");
        reveal_strlit("AAP");
        reveal_strlit("ADV");
        reveal_strlit("API");
        reveal_strlit("APM");
        reveal_strlit("ASF");
        reveal_strlit("ASM");
        reveal_strlit("DPM");
        reveal_strlit("DSF");
        reveal_strlit("DSM");
        reveal_strlit("FAI");
        reveal_strlit("GPM");
        reveal_strlit("GSF");
        reveal_strlit("GSM");
        reveal_strlit("GSN");
        reveal_strlit("Genitive");
        reveal_strlit("Genitive Plural Masculine");
        reveal_strlit("Masculine");
        reveal_strlit("NPF");
        reveal_strlit("NPM");
        reveal_strlit("NSF");
        reveal_strlit("NSM");
        reveal_strlit("NSN");
        reveal_strlit("PAI");
        reveal_strlit("PAP");
        reveal_strlit("PEI");
        reveal_strlit("PMI");
        reveal_strlit("PPI");
        reveal_strlit("Plural");
        reveal_strlit("RAI");
        assert("GPM"@[0] != "ADV"@[0]);
        assert("GPM"@[0] != "AAI"@[0]);
        assert("GPM"@[0] != "AAM"@[0]);
        assert("GPM"@[0] != "AAP"@[0]);
        assert("GPM"@[0] != "API"@[0]);
        assert("GPM"@[0] != "PAI"@[0]);
        assert("GPM"@[0] != "PAP"@[0]);
        assert("GPM"@[0] != "PPI"@[0]);
        assert("GPM"@[0] != "PMI"@[0]);
        assert("GPM"@[0] != "FAI"@[0]);
        assert("GPM"@[0] != "PEI"@[0]);
        assert("GPM"@[0] != "RAI"@[0]);
        assert("GPM"@[0] != "NSM"@[0]);
        assert("GPM"@[0] != "NSF"@[0]);
        assert("GPM"@[0] != "NSN"@[0]);
        assert("GPM"@[1] != "GSM"@[1]);
        assert("GPM"@[1] != "GSF"@[1]);
        assert("GPM"@[1] != "GSN"@[1]);
        assert("GPM"@[0] != "DSM"@[0]);
        assert("GPM"@[0] != "DSF"@[0]);
        assert("GPM"@[0] != "ASM"@[0]);
        assert("GPM"@[0] != "ASF"@[0]);
        assert("GPM"@[0] != "NPM"@[0]);
        assert("GPM"@[0] != "NPF"@[0]);
    } else if seg == "DPM"@ {
        assert("DPM"@.len() != "V"@.len());
        assert("DPM"@.len() != "N"@.len());
        assert("DPM"@.len() != "A"@.len());
        assert("DPM"@.len() != "P"@.len());
        assert("DPM"@.len() != "C"@.len());
        assert("DPM"@.len() != "T"@.len());
        assert("DPM"@.len() != "R"@.len());
        assert("DPM"@.len() != "D"@.len());
        assert("DPM"@.len() != "X"@.len());
        assert("DPM"@.len() != "I"@.len());
        assert("DPM"@.len() != "1S"@.len());
        assert("DPM"@.len() != "2S"@.len());
        assert("DPM"@.len() != "3S"@.len());
        assert("DPM"@.len() != "1P"@.len());
        assert("DPM"@.len() != "2P"@.len());
        assert("DPM"@.len() != "3P"@.len());
        reveal_strlit("Dative Plural Masculine");
        assert("Dative Plural Masculine"@ =~= "Dative"@ + " "@ + "Plural"@ + " "@ + "Masculine"@);
        reveal_strlit(" ");
        reveal_strlit("AAI");
        reveal_strlit("AAM");
        reveal_strlit("AAP");
        reveal_strlit("ADV");
        reveal_strlit("API");
        reveal_strlit("APM");
        reveal_strlit("ASF");
        reveal_strlit("ASM");
        reveal_strlit("DPM");
        reveal_strlit("DSF");
        reveal_strlit("DSM");
        reveal_strlit("Dative");
        reveal_strlit("Dative Plural Masculine");
        reveal_strlit("FAI");
        reveal_strlit("GPM");
        reveal_strlit("GSF");
        reveal_strlit("GSM");
        reveal_strlit("GSN");
        reveal_strlit("Masculine");
        reveal_strlit("NPF");
        reveal_strlit("NPM");
        reveal_strlit("NSF");
        reveal_strlit("NSM");
        reveal_strlit("NSN");
        reveal_strlit("PAI");
        reveal_strlit("PAP");
        reveal_strlit("PEI");
        reveal_strlit("PMI");
        reveal_strlit("PPI");
        reveal_strlit("Plural");
        reveal_strlit("RAI");
        assert("DPM"@[0] != "ADV"@[0]);
        assert("DPM"@[0] != "AAI"@[0]);
        assert("DPM"@[0] != "AAM"@[0]);
        assert("DPM"@[0] != "AAP"@[0]);
        assert("DPM"@[0] != "API"@[0]);
        assert("DPM"@[0] != "PAI"@[0]);
        assert("DPM"@[0] != "PAP"@[0]);
        assert("DPM"@[0] != "PPI"@[0]);
        assert("DPM"@[0] != "PMI"@[0]);
        assert("DPM"@[0] != "FAI"@[0]);
        assert("DPM"@[0] != "PEI"@[0]);
        assert("DPM"@[0] != "RAI"@[0]);
        assert("DPM"@[0] != "NSM"@[0]);
        assert("DPM"@[0] != "NSF"@[0]);
        assert("DPM"@[0] != "NSN"@[0]);
        assert("DPM"@[0] != "GSM"@[0]);
        assert("DPM"@[0] != "GSF"@[0]);
        assert("DPM"@[0] != "GSN"@[0]);
        assert("DPM"@[1] != "DSM"@[1]);
        assert("DPM"@[1] != "DSF"@[1]);
        assert("DPM"@[0] != "ASM"@[0]);
        assert("DPM"@[0] != "ASF"@[0]);
        assert("DPM"@[0] != "NPM"@[0]);
        assert("DPM"@[0] != "NPF"@[0]);
        assert("DPM"@[0] != "GPM"@[0]);
    } else if seg == "APM"@ {
        assert("APM"@.len() != "V"@.len());
        assert("APM"@.len() != "N"@.len());
        assert("APM"@.len() != "A"@.len());
        assert("APM"@.len() != "P"@.len());
        assert("APM"@.len() != "C"@.len());
        assert("APM"@.len() != "T"@.len());
        assert("APM"@.len() != "R"@.len());
        assert("APM"@.len() != "D"@.len());
        assert("APM"@.len() != "X"@.len());
        assert("APM"@.len() != "I"@.len());
        assert("APM"@.len() != "1S"@.len());
        assert("APM"@.len() != "2S"@.len());
        assert("APM"@.len() != "3S"@.len());
        assert("APM"@.len() != "1P"@.len());
        assert("APM"@.len() != "2P"@.len());
        assert("APM"@.len() != "3P"@.len());
        reveal_strlit("Accusative Plural Masculine");
        assert("Accusative Plural Masculine"@ =~= "Accusative"@ + " "@ + "Plural"@ + " "@ + "Masculine"@);
        reveal_strlit(" ");
        reveal_strlit("AAI");
        reveal_strlit("AAM");
        reveal_strlit("AAP");
        reveal_strlit("ADV");
        reveal_strlit("API");
        reveal_strlit("APM");
        reveal_strlit("ASF");
        reveal_strlit("ASM");
        reveal_strlit("Accusative");
        reveal_strlit("Accusative Plural Masculine");
        reveal_strlit("DPM");
        reveal_strlit("DSF");
        reveal_strlit("DSM");
        reveal_strlit("FAI");
        reveal_strlit("GPM");
        reveal_strlit("GSF");
        reveal_strlit("GSM");
        reveal_strlit("GSN");
        reveal_strlit("Masculine");
        reveal_strlit("NPF");
        reveal_strlit("NPM");
        reveal_strlit("NSF");
        reveal_strlit("NSM");
        reveal_strlit("NSN");
        reveal_strlit("PAI");
        reveal_strlit("PAP");
        reveal_strlit("PEI");
        reveal_strlit("PMI");
        reveal_strlit("PPI");
        reveal_strlit("Plural");
        reveal_strlit("RAI");
        assert("APM"@[1] != "ADV"@[1]);
        assert("APM"@[1] != "AAI"@[1]);
        assert("APM"@[1] != "AAM"@[1]);
        assert("APM"@[1] != "AAP"@[1]);
        assert("APM"@[2] != "API"@[2]);
        assert("APM"@[0] != "PAI"@[0]);
        assert("APM"@[0] != "PAP"@[0]);
        assert("APM"@[0] != "PPI"@[0]);
        assert("APM"@[0] != "PMI"@[0]);
        assert("APM"@[0] != "FAI"@[0]);
        assert("APM"@[0] != "PEI"@[0]);
        assert("APM"@[0] != "RAI"@[0]);
        assert("APM"@[0] != "NSM"@[0]);
        assert("APM"@[0] != "NSF"@[0]);
        assert("APM"@[0] != "NSN"@[0]);
        assert("APM"@[0] != "GSM"@[0]);
        assert("APM"@[0] != "GSF"@[0]);
        assert("APM"@[0] != "GSN"@[0]);
        assert("APM"@[0] != "DSM"@[0]);
        assert("APM"@[0] != "DSF"@[0]);
        assert("APM"@[1] != "ASM"@[1]);
        assert("APM"@[1] != "ASF"@[1]);
        assert("APM"@[0] != "NPM"@[0]);
        assert("APM"@[0] != "NPF"@[0]);
        assert("APM"@[0] != "GPM"@[0]);
        assert("APM"@[0] != "DPM"@[0]);
    }
}

// ---------------------------------------------------------------------------
// Searching the sample chapters
// ---------------------------------------------------------------------------

/// Keeping some of a sequence's items never makes it longer.
proof fn lemma_filter_map_len_chirho<A, B>(s: Seq<A>, f: spec_fn(A) -> Option<B>)
    ensures
        s.filter_map(f).len() <= s.len(),
    decreases s.len(),
{
    if s.len() > 0 {
        lemma_filter_map_len_chirho(s.drop_last(), f);
    }
}

/// An item that `f` keeps is among what `filter_map` keeps.
proof fn lemma_filter_map_has_chirho<A, B>(s: Seq<A>, f: spec_fn(A) -> Option<B>, j: int)
    requires
        0 <= j < s.len(),
        f(s[j]) is Some,
    ensures
        s.filter_map(f).contains(f(s[j])->0),
    decreases s.len(),
{
    let rest = s.drop_last();
    if j == s.len() - 1 {
        let fm = rest.filter_map(f) + seq![f(s[j])->0];
        assert(s.filter_map(f) == fm);
        assert(fm[fm.len() - 1] == f(s[j])->0);
    } else {
        assert(rest[j] == s[j]);
        lemma_filter_map_has_chirho(rest, f, j);
        let k = choose|k: int| 0 <= k < rest.filter_map(f).len() && rest.filter_map(f)[k] == f(s[j])->0;
        match f(s.last()) {
            Some(x) => {
                assert((rest.filter_map(f) + seq![x])[k] == f(s[j])->0);
            },
            None => {},
        }
    }
}

/// The chapters that a search without modules reads: Genesis 1, John 1,
/// John 3 and Psalms 23.
pub open spec fn spec_searched_chapters_chirho() -> Seq<(Seq<char>, i32)> {
    seq![("Genesis"@, 1i32), ("John"@, 1i32), ("John"@, 3i32), ("Psalms"@, 23i32)]
}

/// How many verses the searched chapters hold together.
pub open spec fn spec_searched_verse_count_chirho() -> int {
    (spec_sample_verses_chirho("Genesis"@, 1).len() + spec_sample_verses_chirho("John"@, 1).len()
        + spec_sample_verses_chirho("John"@, 3).len() + spec_sample_verses_chirho("Psalms"@, 23).len()) as int
}

/// A search without modules finds every verse of Genesis 1, John 1, John 3
/// and Psalms 23 whose text contains the query (ignoring case), as
/// ("book chapter:verse", text), once `max_results` leaves room for all.
pub proof fn law_search_finds_every_match_chirho(query: Seq<char>, max_results: int, c: int, j: int)
    requires
        0 <= c < 4,
        0 <= j < spec_sample_verses_chirho(spec_searched_chapters_chirho()[c].0, spec_searched_chapters_chirho()[c].1).len(),
        spec_matches_query_chirho(
            spec_sample_verses_chirho(spec_searched_chapters_chirho()[c].0, spec_searched_chapters_chirho()[c].1)[j].1,
            query,
        ),
        max_results >= spec_searched_verse_count_chirho(),
    ensures
        ({
            let book = spec_searched_chapters_chirho()[c].0;
            let chapter = spec_searched_chapters_chirho()[c].1;
            let v = spec_sample_verses_chirho(book, chapter)[j];
            spec_search_chirho(spec_sample_candidates_chirho(), query, max_results).contains(
                (spec_reference_label_chirho(book, chapter as int, v.0), v.1),
            )
        }),
{
    let book = spec_searched_chapters_chirho()[c].0;
    let chapter = spec_searched_chapters_chirho()[c].1;
    let vs = spec_sample_verses_chirho(book, chapter);
    let v = vs[j];
    let g = spec_sample_verses_chirho("Genesis"@, 1);
    let j1 = spec_sample_verses_chirho("John"@, 1);
    let j3 = spec_sample_verses_chirho("John"@, 3);
    let ps = spec_sample_verses_chirho("Psalms"@, 23);
    let cands = spec_sample_candidates_chirho();
    let off = if c == 0 {
        0
    } else if c == 1 {
        g.len() as int
    } else if c == 2 {
        (g.len() + j1.len()) as int
    } else {
        (g.len() + j1.len() + j3.len()) as int
    };
    assert(cands.len() == spec_searched_verse_count_chirho());
    assert(cands[off + j] == (spec_reference_label_chirho(book, chapter as int, v.0), v.1));
    let f = spec_match_fn_chirho(query);
    assert(f(cands[off + j]) == Some(cands[off + j]));
    lemma_filter_map_has_chirho(cands, f, off + j);
    lemma_filter_map_len_chirho(cands, f);
}

/// The book, chapter and verse of the `p`-th searched sample verse.
spec fn spec_sample_place_chirho(p: int) -> (int, i32, i32) {
    if p < 10 {
        (0, 1i32, (p + 1) as i32)
    } else if p < 15 {
        (42, 1i32, (p - 9) as i32)
    } else if p < 20 {
        (42, 3i32, (p - 1) as i32)
    } else {
        (18, 23i32, (p - 19) as i32)
    }
}

/// The `p`-th searched sample verse's reference is the written reference
/// of its place.
#[verifier::rlimit(100)]
proof fn lemma_sample_reference_chirho(p: int)
    requires
        0 <= p < 26,
    ensures
        spec_sample_candidates_chirho().len() == 26,
        spec_sample_candidates_chirho()[p].0 == spec_verse_reference_chirho(
            spec_book_name_chirho(spec_sample_place_chirho(p).0),
            spec_sample_place_chirho(p).1 as int,
            spec_sample_place_chirho(p).2 as int,
        ),
{
    reveal_with_fuel(spec_nat_decimal_chirho, 3);
    reveal_strlit("Genesis");
    reveal_strlit("John");
    reveal_strlit("Psalms");
    let cands = spec_sample_candidates_chirho();
    assert(cands.len() == 26);
    assert(cands[p].0 == spec_verse_reference_chirho(
        spec_book_name_chirho(spec_sample_place_chirho(p).0),
        spec_sample_place_chirho(p).1 as int,
        spec_sample_place_chirho(p).2 as int,
    )) by {
        if p == 0 {
            reveal_strlit("1");
        } else if p == 1 {
            reveal_strlit("2");
        } else if p == 2 {
            reveal_strlit("3");
        } else if p == 3 {
            reveal_strlit("4");
        } else if p == 4 {
            reveal_strlit("5");
        } else if p == 5 {
            reveal_strlit("6");
        } else if p == 6 {
            reveal_strlit("7");
        } else if p == 7 {
            reveal_strlit("8");
        } else if p == 8 {
            reveal_strlit("9");
        } else if p == 9 {
            reveal_strlit("10");
        } else if p == 10 {
            reveal_strlit("1");
        } else if p == 11 {
            reveal_strlit("2");
        } else if p == 12 {
            reveal_strlit("3");
        } else if p == 13 {
            reveal_strlit("4");
        } else if p == 14 {
            reveal_strlit("5");
        } else if p == 15 {
            reveal_strlit("14");
        } else if p == 16 {
            reveal_strlit("15");
        } else if p == 17 {
            reveal_strlit("16");
        } else if p == 18 {
            reveal_strlit("17");
        } else if p == 19 {
            reveal_strlit("18");
        } else if p == 20 {
            reveal_strlit("1");
        } else if p == 21 {
            reveal_strlit("2");
        } else if p == 22 {
            reveal_strlit("3");
        } else if p == 23 {
            reveal_strlit("4");
        } else if p == 24 {
            reveal_strlit("5");
        } else if p == 25 {
            reveal_strlit("6");
        }
    }
}

/// What `filter_map` keeps of a sequence, when `f` keeps items as they are
/// or drops them, are items of that sequence, in the same order, so it
/// repeats none when the sequence repeats none.
proof fn lemma_filter_map_no_duplicates_chirho<A>(s: Seq<A>, f: spec_fn(A) -> Option<A>)
    requires
        s.no_duplicates(),
        forall|x: A| #[trigger] f(x) is None || f(x) == Some(x),
    ensures
        s.filter_map(f).no_duplicates(),
        forall|k: int| 0 <= k < s.filter_map(f).len() ==> s.contains(#[trigger] s.filter_map(f)[k]),
    decreases s.len(),
{
    if s.len() > 0 {
        let init = s.drop_last();
        assert(init.no_duplicates()) by {
            assert forall|i: int, j: int| 0 <= i < init.len() && 0 <= j < init.len() && i != j implies init[i] != init[j] by {
                assert(init[i] == s[i] && init[j] == s[j]);
            }
        }
        lemma_filter_map_no_duplicates_chirho(init, f);
        let fi = init.filter_map(f);
        let x = s.last();
        assert forall|k: int| 0 <= k < fi.len() implies s.contains(#[trigger] fi[k]) by {
            let m = choose|m: int| 0 <= m < init.len() && init[m] == fi[k];
            assert(s[m] == init[m]);
        }
        match f(x) {
            Some(y) => {
                assert(y == x);
                let fm = fi + seq![x];
                assert(s.filter_map(f) == fm);
                assert forall|k: int| 0 <= k < fi.len() implies fi[k] != x by {
                    let m = choose|m: int| 0 <= m < init.len() && init[m] == fi[k];
                    assert(s[m] == init[m]);
                    assert(s[s.len() - 1] == x);
                }
                assert forall|i: int, j: int| 0 <= i < fm.len() && 0 <= j < fm.len() && i != j implies fm[i] != fm[j] by {
                    if i < fi.len() && j < fi.len() {
                        assert(fm[i] == fi[i] && fm[j] == fi[j]);
                    } else if i < fi.len() {
                        assert(fm[i] == fi[i]);
                    } else if j < fi.len() {
                        assert(fm[j] == fi[j]);
                    }
                }
                assert forall|k: int| 0 <= k < fm.len() implies s.contains(#[trigger] fm[k]) by {
                    if k < fi.len() {
                        assert(fm[k] == fi[k]);
                    } else {
                        assert(s[s.len() - 1] == fm[k]);
                    }
                }
            },
            None => {
                assert(s.filter_map(f) == fi);
            },
        }
    }
}

/// A search of the sample chapters never returns the same verse twice.
pub proof fn law_search_no_repeats_chirho(query: Seq<char>, max_results: int)
    ensures
        spec_search_chirho(spec_sample_candidates_chirho(), query, max_results).no_duplicates(),
{
    let cands = spec_sample_candidates_chirho();
    lemma_sample_reference_chirho(0);
    assert(cands.no_duplicates()) by {
        assert forall|i: int, j: int| 0 <= i < cands.len() && 0 <= j < cands.len() && i != j implies cands[i] != cands[j] by {
            lemma_sample_reference_chirho(i);
            lemma_sample_reference_chirho(j);
            let pi = spec_sample_place_chirho(i);
            let pj = spec_sample_place_chirho(j);
            law_written_reference_parses_back_chirho(pi.0, pi.1, pi.2);
            law_written_reference_parses_back_chirho(pj.0, pj.1, pj.2);
        }
    }
    let f = spec_match_fn_chirho(query);
    assert forall|x: (Seq<char>, Seq<char>)| #[trigger] f(x) is None || f(x) == Some(x) by {}
    lemma_filter_map_no_duplicates_chirho(cands, f);
    let m = cands.filter_map(f);
    let r = spec_search_chirho(cands, query, max_results);
    assert forall|i: int, j: int| 0 <= i < r.len() && 0 <= j < r.len() && i != j implies r[i] != r[j] by {
        assert(r[i] == m[i] && r[j] == m[j]);
    }
}

/// What `filter_map` keeps, when `f` keeps items as they are or drops
/// them, are items of the sequence.
proof fn lemma_filter_map_items_chirho<A>(s: Seq<A>, f: spec_fn(A) -> Option<A>)
    requires
        forall|x: A| #[trigger] f(x) is None || f(x) == Some(x),
    ensures
        forall|k: int| 0 <= k < s.filter_map(f).len() ==> s.contains(#[trigger] s.filter_map(f)[k]),
    decreases s.len(),
{
    if s.len() > 0 {
        let init = s.drop_last();
        lemma_filter_map_items_chirho(init, f);
        let fi = init.filter_map(f);
        assert forall|k: int| 0 <= k < fi.len() implies s.contains(#[trigger] fi[k]) by {
            let m = choose|m: int| 0 <= m < init.len() && init[m] == fi[k];
            assert(s[m] == init[m]);
        }
        match f(s.last()) {
            Some(y) => {
                let fm = fi + seq![y];
                assert(s.filter_map(f) == fm);
                assert forall|k: int| 0 <= k < fm.len() implies s.contains(#[trigger] fm[k]) by {
                    if k < fi.len() {
                        assert(fm[k] == fi[k]);
                    } else {
                        assert(s[s.len() - 1] == fm[k]);
                    }
                }
            },
            None => {
                assert(s.filter_map(f) == fi);
            },
        }
    }
}

/// Whether `x` is ("book chapter:verse", text) of a verse of one of the
/// searched chapters.
pub open spec fn spec_is_searched_verse_chirho(x: (Seq<char>, Seq<char>)) -> bool {
    exists|c: int, j: int|
        0 <= c < 4 && 0 <= j < spec_sample_verses_chirho(
            spec_searched_chapters_chirho()[c].0,
            spec_searched_chapters_chirho()[c].1,
        ).len() && x == (
            spec_reference_label_chirho(
                spec_searched_chapters_chirho()[c].0,
                spec_searched_chapters_chirho()[c].1 as int,
                spec_sample_verses_chirho(spec_searched_chapters_chirho()[c].0, spec_searched_chapters_chirho()[c].1)[j].0,
            ),
            spec_sample_verses_chirho(spec_searched_chapters_chirho()[c].0, spec_searched_chapters_chirho()[c].1)[j].1,
        )
}

proof fn lemma_searched_verse_witness_chirho(x: (Seq<char>, Seq<char>), c: int, j: int)
    requires
        0 <= c < 4,
        0 <= j < spec_sample_verses_chirho(spec_searched_chapters_chirho()[c].0, spec_searched_chapters_chirho()[c].1).len(),
        x == (
            spec_reference_label_chirho(
                spec_searched_chapters_chirho()[c].0,
                spec_searched_chapters_chirho()[c].1 as int,
                spec_sample_verses_chirho(spec_searched_chapters_chirho()[c].0, spec_searched_chapters_chirho()[c].1)[j].0,
            ),
            spec_sample_verses_chirho(spec_searched_chapters_chirho()[c].0, spec_searched_chapters_chirho()[c].1)[j].1,
        ),
    ensures
        spec_is_searched_verse_chirho(x),
{
}

/// A search without modules returns only verses of Genesis 1, John 1, John
/// 3 and Psalms 23, each of which contains the query (ignoring case).
pub proof fn law_search_only_sample_chapters_chirho(query: Seq<char>, max_results: int)
    ensures
        forall|k: int|
            0 <= k < spec_search_chirho(spec_sample_candidates_chirho(), query, max_results).len()
                ==> spec_is_searched_verse_chirho(
                #[trigger] spec_search_chirho(spec_sample_candidates_chirho(), query, max_results)[k],
            ) && spec_matches_query_chirho(
                spec_search_chirho(spec_sample_candidates_chirho(), query, max_results)[k].1,
                query,
            ),
{
    let cands = spec_sample_candidates_chirho();
    let f = spec_match_fn_chirho(query);
    assert forall|x: (Seq<char>, Seq<char>)| #[trigger] f(x) is None || f(x) == Some(x) by {}
    lemma_filter_map_items_chirho(cands, f);
    let m = cands.filter_map(f);
    let r = spec_search_chirho(cands, query, max_results);
    let g = spec_sample_verses_chirho("Genesis"@, 1);
    let j1 = spec_sample_verses_chirho("John"@, 1);
    let j3 = spec_sample_verses_chirho("John"@, 3);
    assert forall|k: int| 0 <= k < r.len() implies spec_is_searched_verse_chirho(#[trigger] r[k])
        && spec_matches_query_chirho(r[k].1, query) by {
        assert(r[k] == m[k]);
        let p = choose|p: int| 0 <= p < cands.len() && cands[p] == m[k];
        assert(f(cands[p]) is Some) by {
            lemma_filter_map_kept_chirho(cands, f, k);
        }
        if p < g.len() {
            assert(cands[p] == (spec_reference_label_chirho("Genesis"@, 1, g[p].0), g[p].1));
            assert(spec_searched_chapters_chirho()[0] == ("Genesis"@, 1i32));
            lemma_searched_verse_witness_chirho(cands[p], 0, p);
        } else if p < g.len() + j1.len() {
            let j = p - g.len();
            assert(cands[p] == (spec_reference_label_chirho("John"@, 1, j1[j].0), j1[j].1));
            assert(spec_searched_chapters_chirho()[1] == ("John"@, 1i32));
            lemma_searched_verse_witness_chirho(cands[p], 1, j);
        } else if p < g.len() + j1.len() + j3.len() {
            let j = p - g.len() - j1.len();
            assert(cands[p] == (spec_reference_label_chirho("John"@, 3, j3[j].0), j3[j].1));
            assert(spec_searched_chapters_chirho()[2] == ("John"@, 3i32));
            lemma_searched_verse_witness_chirho(cands[p], 2, j);
        } else {
            let ps = spec_sample_verses_chirho("Psalms"@, 23);
            let j = p - g.len() - j1.len() - j3.len();
            assert(cands[p] == (spec_reference_label_chirho("Psalms"@, 23, ps[j].0), ps[j].1));
            assert(spec_searched_chapters_chirho()[3] == ("Psalms"@, 23i32));
            lemma_searched_verse_witness_chirho(cands[p], 3, j);
        }
    }
}

/// What `filter_map` keeps is an item that `f` keeps.
proof fn lemma_filter_map_kept_chirho<A>(s: Seq<A>, f: spec_fn(A) -> Option<A>, k: int)
    requires
        forall|x: A| #[trigger] f(x) is None || f(x) == Some(x),
        0 <= k < s.filter_map(f).len(),
    ensures
        f(s.filter_map(f)[k]) is Some,
    decreases s.len(),
{
    if s.len() > 0 {
        let init = s.drop_last();
        let fi = init.filter_map(f);
        match f(s.last()) {
            Some(y) => {
                assert(s.filter_map(f) == fi + seq![y]);
                if k < fi.len() {
                    assert((fi + seq![y])[k] == fi[k]);
                    lemma_filter_map_kept_chirho(init, f, k);
                } else {
                    assert(y == s.last());
                }
            },
            None => {
                assert(s.filter_map(f) == fi);
                lemma_filter_map_kept_chirho(init, f, k);
            },
        }
    }
}

// ---------------------------------------------------------------------------
// Strong's numbers in OSIS attributes
// ---------------------------------------------------------------------------

/// The run of digits of `a` that starts at `j`, inside `[lo, hi)`, ends at
/// `hi` when `hi` is the end of `a` or not a digit.
proof fn lemma_digit_run_chirho(a: Seq<char>, j: int, hi: int)
    requires
        0 <= j <= hi <= a.len(),
        forall|t: int| j <= t < hi ==> '0' <= #[trigger] a[t] && a[t] <= '9',
        hi == a.len() || !('0' <= a[hi] && a[hi] <= '9'),
    ensures
        spec_digits_end_chirho(a, j) == hi,
    decreases hi - j,
{
    if j < hi {
        lemma_digit_run_chirho(a, j + 1, hi);
    }
}

/// No Strong's number starts between `j` and `n` when those characters
/// hold no `s`.
proof fn lemma_strongs_skip_chirho(a: Seq<char>, j: int, n: int)
    requires
        0 <= j <= n <= a.len(),
        forall|t: int| j <= t < n ==> #[trigger] a[t] != 's',
    ensures
        spec_strongs_from_chirho(a, j) == spec_strongs_from_chirho(a, n),
    decreases n - j,
{
    if j < n {
        assert(!spec_strong_at_chirho(a, j));
        lemma_strongs_skip_chirho(a, j + 1, n);
    }
}

/// "strong:", a letter and digits at `n` give one Strong's number, read
/// from `n` on, before those that follow the digits.
proof fn lemma_strong_number_at_chirho(a: Seq<char>, n: int, letter: char, digits: Seq<char>)
    requires
        0 <= n,
        n + 8 + digits.len() <= a.len(),
        a.subrange(n, n + 7) == "strong:"@,
        a[n + 7] == letter,
        letter == 'G' || letter == 'H',
        digits.len() > 0,
        forall|t: int| 0 <= t < digits.len() ==> '0' <= #[trigger] digits[t] && digits[t] <= '9',
        a.subrange(n + 8, n + 8 + digits.len()) == digits,
        n + 8 + digits.len() == a.len() || !('0' <= a[n + 8 + digits.len()] && a[n + 8 + digits.len()] <= '9'),
    ensures
        spec_strongs_from_chirho(a, n) == seq![seq![letter] + digits] + spec_strongs_from_chirho(
            a,
            n + 8 + digits.len(),
        ),
{
    reveal_strlit("strong:");
    let e = n + 8 + digits.len();
    assert(a[n] == a.subrange(n, n + 7)[0]);
    assert(a[n + 1] == a.subrange(n, n + 7)[1]);
    assert(a[n + 2] == a.subrange(n, n + 7)[2]);
    assert(a[n + 3] == a.subrange(n, n + 7)[3]);
    assert(a[n + 4] == a.subrange(n, n + 7)[4]);
    assert(a[n + 5] == a.subrange(n, n + 7)[5]);
    assert(a[n + 6] == a.subrange(n, n + 7)[6]);
    assert(a[n + 8] == a.subrange(n + 8, e)[0]);
    assert(spec_strong_at_chirho(a, n));
    assert forall|t: int| n + 8 <= t < e implies '0' <= #[trigger] a[t] && a[t] <= '9' by {
        assert(a[t] == a.subrange(n + 8, e)[t - n - 8]);
    }
    lemma_digit_run_chirho(a, n + 8, e);
    assert(a.subrange(n + 7, e) =~= seq![letter] + digits);
}

/// Joined parts begin with the first part.
proof fn lemma_join_starts_with_first_chirho(parts: Seq<Seq<char>>, sep: Seq<char>)
    requires
        parts.len() > 0,
    ensures
        spec_starts_with_chirho(spec_join_chirho(parts, sep), parts[0]),
    decreases parts.len(),
{
    if parts.len() > 1 {
        let init = parts.drop_last();
        lemma_join_starts_with_first_chirho(init, sep);
        let j = spec_join_chirho(init, sep);
        assert(init[0] == parts[0]);
        assert(spec_join_chirho(parts, sep) == j + sep + parts.last());
        assert((j + sep + parts.last()).take(parts[0].len() as int) =~= j.take(parts[0].len() as int));
    } else {
        assert(parts[0].take(parts[0].len() as int) =~= parts[0]);
    }
}

/// A word's attributes that hold "strong:", then `G` (Greek) or `H`
/// (Hebrew), then digits, give that number as the word's first Strong's
/// number, whichever the letter: the word's Strong's text starts with it,
/// and the word is Hebrew exactly when the letter is `H`; with no further
/// number after it, it is the only one.
pub proof fn law_strongs_number_read_chirho(
    before: Seq<char>,
    letter: char,
    digits: Seq<char>,
    after: Seq<char>,
    text: Seq<char>,
)
    requires
        forall|t: int| 0 <= t < before.len() ==> #[trigger] before[t] != 's',
        letter == 'G' || letter == 'H',
        digits.len() > 0,
        forall|t: int| 0 <= t < digits.len() ==> '0' <= #[trigger] digits[t] && digits[t] <= '9',
        after.len() == 0 || !('0' <= after[0] && after[0] <= '9'),
    ensures
        ({
            let a = before + "strong:"@ + seq![letter] + digits + after;
            &&& spec_strongs_from_chirho(a, 0).len() > 0
            &&& spec_strongs_from_chirho(a, 0)[0] == seq![letter] + digits
            &&& spec_starts_with_chirho(spec_interlinear_word_chirho(a, text).strongs, seq![letter] + digits)
            &&& spec_interlinear_word_chirho(a, text).is_hebrew == (letter == 'H')
            &&& (forall|t: int| 0 <= t < after.len() ==> #[trigger] after[t] != 's') ==> spec_strongs_from_chirho(a, 0)
                == seq![seq![letter] + digits]
        }),
{
    reveal_strlit("strong:");
    let a = before + "strong:"@ + seq![letter] + digits + after;
    let n = before.len() as int;
    let e = n + 8 + digits.len();
    assert forall|t: int| 0 <= t < n implies #[trigger] a[t] != 's' by {
        assert(a[t] == before[t]);
    }
    lemma_strongs_skip_chirho(a, 0, n);
    assert(a.subrange(n, n + 7) =~= "strong:"@);
    assert(a.subrange(n + 8, e) =~= digits);
    if e < a.len() {
        assert(a[e] == after[0]);
    }
    lemma_strong_number_at_chirho(a, n, letter, digits);
    let strongs = spec_strongs_from_chirho(a, 0);
    assert(strongs[0] == seq![letter] + digits);
    lemma_join_starts_with_first_chirho(strongs, ", "@);
    if forall|t: int| 0 <= t < after.len() ==> #[trigger] after[t] != 's' {
        assert forall|t: int| e <= t < a.len() implies #[trigger] a[t] != 's' by {
            assert(a[t] == after[t - e]);
        }
        lemma_strongs_skip_chirho(a, e, a.len() as int);
        assert(spec_strongs_from_chirho(a, a.len() as int) =~= Seq::<Seq<char>>::empty());
        assert(strongs =~= seq![seq![letter] + digits]);
    }
}

/// Two Strong's numbers in a word's attributes, Greek or Hebrew, are both
/// read, in order, and the word's Strong's text lists them as "first,
/// second".
#[verifier::rlimit(100)]
#[verifier::spinoff_prover]
pub proof fn law_strongs_numbers_in_order_chirho(
    before: Seq<char>,
    l1: char,
    d1: Seq<char>,
    middle: Seq<char>,
    l2: char,
    d2: Seq<char>,
    after: Seq<char>,
    text: Seq<char>,
)
    requires
        forall|t: int| 0 <= t < before.len() ==> #[trigger] before[t] != 's',
        l1 == 'G' || l1 == 'H',
        l2 == 'G' || l2 == 'H',
        d1.len() > 0,
        d2.len() > 0,
        forall|t: int| 0 <= t < d1.len() ==> '0' <= #[trigger] d1[t] && d1[t] <= '9',
        forall|t: int| 0 <= t < d2.len() ==> '0' <= #[trigger] d2[t] && d2[t] <= '9',
        middle.len() > 0,
        !('0' <= middle[0] && middle[0] <= '9'),
        forall|t: int| 0 <= t < middle.len() ==> #[trigger] middle[t] != 's',
        after.len() == 0 || !('0' <= after[0] && after[0] <= '9'),
        forall|t: int| 0 <= t < after.len() ==> #[trigger] after[t] != 's',
    ensures
        ({
            let a = before + "strong:"@ + seq![l1] + d1 + middle + "strong:"@ + seq![l2] + d2 + after;
            &&& spec_strongs_from_chirho(a, 0) == seq![seq![l1] + d1, seq![l2] + d2]
            &&& spec_interlinear_word_chirho(a, text).strongs == seq![l1] + d1 + ", "@ + seq![l2] + d2
        }),
{
    reveal_strlit("strong:");
    let a = before + "strong:"@ + seq![l1] + d1 + middle + "strong:"@ + seq![l2] + d2 + after;
    let n1 = before.len() as int;
    let e1 = n1 + 8 + d1.len();
    let n2 = e1 + middle.len();
    let e2 = n2 + 8 + d2.len();
    assert forall|t: int| 0 <= t < n1 implies #[trigger] a[t] != 's' by {
        assert(a[t] == before[t]);
    }
    lemma_strongs_skip_chirho(a, 0, n1);
    assert(a.subrange(n1, n1 + 7) =~= "strong:"@);
    assert(a.subrange(n1 + 8, e1) =~= d1);
    assert(a[e1] == middle[0]);
    lemma_strong_number_at_chirho(a, n1, l1, d1);
    assert forall|t: int| e1 <= t < n2 implies #[trigger] a[t] != 's' by {
        assert(a[t] == middle[t - e1]);
    }
    lemma_strongs_skip_chirho(a, e1, n2);
    assert(a.subrange(n2, n2 + 7) =~= "strong:"@);
    assert(a[n2 + 7] == l2);
    assert(a.subrange(n2 + 8, e2) =~= d2);
    if e2 < a.len() {
        assert(a[e2] == after[0]);
    }
    lemma_strong_number_at_chirho(a, n2, l2, d2);
    assert forall|t: int| e2 <= t < a.len() implies #[trigger] a[t] != 's' by {
        assert(a[t] == after[t - e2]);
    }
    lemma_strongs_skip_chirho(a, e2, a.len() as int);
    assert(spec_strongs_from_chirho(a, a.len() as int) =~= Seq::<Seq<char>>::empty());
    let strongs = spec_strongs_from_chirho(a, 0);
    assert(strongs =~= seq![seq![l1] + d1, seq![l2] + d2]);
    reveal_with_fuel(spec_join_chirho, 3);
    assert(strongs.drop_last() =~= seq![seq![l1] + d1]);
}

// ---------------------------------------------------------------------------
// Book names and abbreviations
// ---------------------------------------------------------------------------

/// Whether `a` spells the start of book name `name` in lower case, also
/// when a numbered book's space is left out ("1kings" for "1 Kings").
pub open spec fn spec_abbreviates_chirho(a: Seq<char>, name: Seq<char>) -> bool {
    let n = spec_ascii_lowercase_chirho(name);
    spec_starts_with_chirho(n, a) || (n.len() > 1 && n[1] == ' ' && spec_starts_with_chirho(
        seq![n[0]] + n.skip(2),
        a,
    ))
}

/// The customary short forms that are not the start of their book's name.
pub open spec fn spec_short_form_chirho(a: Seq<char>, k: int) -> bool {
    (a == "jdg"@ && k == 6) || (a == "1kgs"@ && k == 10) || (a == "2kgs"@ && k == 11) || (a == "sos"@ && k == 21) || (a == "mk"@ && k == 40) || (a == "lk"@ && k == 41) || (a == "jn"@ && k == 42) || (a == "php"@ && k == 49) || (a == "phm"@ && k == 56) || (a == "phlm"@ && k == 56) || (a == "jas"@ && k == 58) || (a == "1jn"@ && k == 61) || (a == "2jn"@ && k == 62) || (a == "3jn"@ && k == 63)
}

/// Whether `a` names book `k`: it spells the start of the book's name, or
/// it is one of the customary short forms of that book.
pub open spec fn spec_names_book_chirho(a: Seq<char>, k: int) -> bool {
    spec_abbreviates_chirho(a, spec_book_name_chirho(k)) || spec_short_form_chirho(a, k)
}

/// The first letter of book `k`'s name, in lower case.
spec fn spec_book_initial_chirho(k: int) -> char {
    if k == 0 {
        'g'
    } else if k == 1 {
        'e'
    } else if k == 2 {
        'l'
    } else if k == 3 {
        'n'
    } else if k == 4 {
        'd'
    } else if k == 5 {
        'j'
    } else if k == 6 {
        'j'
    } else if k == 7 {
        'r'
    } else if k == 8 {
        '1'
    } else if k == 9 {
        '2'
    } else if k == 10 {
        '1'
    } else if k == 11 {
        '2'
    } else if k == 12 {
        '1'
    } else if k == 13 {
        '2'
    } else if k == 14 {
        'e'
    } else if k == 15 {
        'n'
    } else if k == 16 {
        'e'
    } else if k == 17 {
        'j'
    } else if k == 18 {
        'p'
    } else if k == 19 {
        'p'
    } else if k == 20 {
        'e'
    } else if k == 21 {
        's'
    } else if k == 22 {
        'i'
    } else if k == 23 {
        'j'
    } else if k == 24 {
        'l'
    } else if k == 25 {
        'e'
    } else if k == 26 {
        'd'
    } else if k == 27 {
        'h'
    } else if k == 28 {
        'j'
    } else if k == 29 {
        'a'
    } else if k == 30 {
        'o'
    } else if k == 31 {
        'j'
    } else if k == 32 {
        'm'
    } else if k == 33 {
        'n'
    } else if k == 34 {
        'h'
    } else if k == 35 {
        'z'
    } else if k == 36 {
        'h'
    } else if k == 37 {
        'z'
    } else if k == 38 {
        'm'
    } else if k == 39 {
        'm'
    } else if k == 40 {
        'm'
    } else if k == 41 {
        'l'
    } else if k == 42 {
        'j'
    } else if k == 43 {
        'a'
    } else if k == 44 {
        'r'
    } else if k == 45 {
        '1'
    } else if k == 46 {
        '2'
    } else if k == 47 {
        'g'
    } else if k == 48 {
        'e'
    } else if k == 49 {
        'p'
    } else if k == 50 {
        'c'
    } else if k == 51 {
        '1'
    } else if k == 52 {
        '2'
    } else if k == 53 {
        '1'
    } else if k == 54 {
        '2'
    } else if k == 55 {
        't'
    } else if k == 56 {
        'p'
    } else if k == 57 {
        'h'
    } else if k == 58 {
        'j'
    } else if k == 59 {
        '1'
    } else if k == 60 {
        '2'
    } else if k == 61 {
        '1'
    } else if k == 62 {
        '2'
    } else if k == 63 {
        '3'
    } else if k == 64 {
        'j'
    } else {
        'r'
    }
}

/// Book `k`'s name, in lower case, begins with `spec_book_initial_chirho(k)`.
proof fn lemma_book_initial_chirho(k: int)
    requires
        0 <= k < 66,
    ensures
        spec_ascii_lowercase_chirho(spec_book_name_chirho(k)).len() > 0,
        spec_ascii_lowercase_chirho(spec_book_name_chirho(k))[0] == spec_book_initial_chirho(k),
{
    reveal_strlit("Genesis");
    reveal_strlit("Exodus");
    reveal_strlit("Leviticus");
    reveal_strlit("Numbers");
    reveal_strlit("Deuteronomy");
    reveal_strlit("Joshua");
    reveal_strlit("Judges");
    reveal_strlit("Ruth");
    reveal_strlit("1 Samuel");
    reveal_strlit("2 Samuel");
    reveal_strlit("1 Kings");
    reveal_strlit("2 Kings");
    reveal_strlit("1 Chronicles");
    reveal_strlit("2 Chronicles");
    reveal_strlit("Ezra");
    reveal_strlit("Nehemiah");
    reveal_strlit("Esther");
    reveal_strlit("Job");
    reveal_strlit("Psalms");
    reveal_strlit("Proverbs");
    reveal_strlit("Ecclesiastes");
    reveal_strlit("Song of Solomon");
    reveal_strlit("Isaiah");
    reveal_strlit("Jeremiah");
    reveal_strlit("Lamentations");
    reveal_strlit("Ezekiel");
    reveal_strlit("Daniel");
    reveal_strlit("Hosea");
    reveal_strlit("Joel");
    reveal_strlit("Amos");
    reveal_strlit("Obadiah");
    reveal_strlit("Jonah");
    reveal_strlit("Micah");
    reveal_strlit("Nahum");
    reveal_strlit("Habakkuk");
    reveal_strlit("Zephaniah");
    reveal_strlit("Haggai");
    reveal_strlit("Zechariah");
    reveal_strlit("Malachi");
    reveal_strlit("Matthew");
    reveal_strlit("Mark");
    reveal_strlit("Luke");
    reveal_strlit("John");
    reveal_strlit("Acts");
    reveal_strlit("Romans");
    reveal_strlit("1 Corinthians");
    reveal_strlit("2 Corinthians");
    reveal_strlit("Galatians");
    reveal_strlit("Ephesians");
    reveal_strlit("Philippians");
    reveal_strlit("Colossians");
    reveal_strlit("1 Thessalonians");
    reveal_strlit("2 Thessalonians");
    reveal_strlit("1 Timothy");
    reveal_strlit("2 Timothy");
    reveal_strlit("Titus");
    reveal_strlit("Philemon");
    reveal_strlit("Hebrews");
    reveal_strlit("James");
    reveal_strlit("1 Peter");
    reveal_strlit("2 Peter");
    reveal_strlit("1 John");
    reveal_strlit("2 John");
    reveal_strlit("3 John");
    reveal_strlit("Jude");
    reveal_strlit("Revelation");
}

/// Which books begin with each letter.
proof fn lemma_book_initial_classes_chirho(k: int)
    requires
        0 <= k < 66,
    ensures
        spec_book_initial_chirho(k) == '1' ==> k == 8 || k == 10 || k == 12 || k == 45 || k == 51 || k == 53 || k == 59 || k == 61,
        spec_book_initial_chirho(k) == '2' ==> k == 9 || k == 11 || k == 13 || k == 46 || k == 52 || k == 54 || k == 60 || k == 62,
        spec_book_initial_chirho(k) == '3' ==> k == 63,
        spec_book_initial_chirho(k) == 'a' ==> k == 29 || k == 43,
        spec_book_initial_chirho(k) == 'c' ==> k == 50,
        spec_book_initial_chirho(k) == 'd' ==> k == 4 || k == 26,
        spec_book_initial_chirho(k) == 'e' ==> k == 1 || k == 14 || k == 16 || k == 20 || k == 25 || k == 48,
        spec_book_initial_chirho(k) == 'g' ==> k == 0 || k == 47,
        spec_book_initial_chirho(k) == 'h' ==> k == 27 || k == 34 || k == 36 || k == 57,
        spec_book_initial_chirho(k) == 'i' ==> k == 22,
        spec_book_initial_chirho(k) == 'j' ==> k == 5 || k == 6 || k == 17 || k == 23 || k == 28 || k == 31 || k == 42 || k == 58 || k == 64,
        spec_book_initial_chirho(k) == 'l' ==> k == 2 || k == 24 || k == 41,
        spec_book_initial_chirho(k) == 'm' ==> k == 32 || k == 38 || k == 39 || k == 40,
        spec_book_initial_chirho(k) == 'n' ==> k == 3 || k == 15 || k == 33,
        spec_book_initial_chirho(k) == 'o' ==> k == 30,
        spec_book_initial_chirho(k) == 'p' ==> k == 18 || k == 19 || k == 49 || k == 56,
        spec_book_initial_chirho(k) == 'r' ==> k == 7 || k == 44 || k == 65,
        spec_book_initial_chirho(k) == 's' ==> k == 21,
        spec_book_initial_chirho(k) == 't' ==> k == 55,
        spec_book_initial_chirho(k) == 'z' ==> k == 35 || k == 37,
{
    if k == 0 {
    } else if k == 1 {
    } else if k == 2 {
    } else if k == 3 {
    } else if k == 4 {
    } else if k == 5 {
    } else if k == 6 {
    } else if k == 7 {
    } else if k == 8 {
    } else if k == 9 {
    } else if k == 10 {
    } else if k == 11 {
    } else if k == 12 {
    } else if k == 13 {
    } else if k == 14 {
    } else if k == 15 {
    } else if k == 16 {
    } else if k == 17 {
    } else if k == 18 {
    } else if k == 19 {
    } else if k == 20 {
    } else if k == 21 {
    } else if k == 22 {
    } else if k == 23 {
    } else if k == 24 {
    } else if k == 25 {
    } else if k == 26 {
    } else if k == 27 {
    } else if k == 28 {
    } else if k == 29 {
    } else if k == 30 {
    } else if k == 31 {
    } else if k == 32 {
    } else if k == 33 {
    } else if k == 34 {
    } else if k == 35 {
    } else if k == 36 {
    } else if k == 37 {
    } else if k == 38 {
    } else if k == 39 {
    } else if k == 40 {
    } else if k == 41 {
    } else if k == 42 {
    } else if k == 43 {
    } else if k == 44 {
    } else if k == 45 {
    } else if k == 46 {
    } else if k == 47 {
    } else if k == 48 {
    } else if k == 49 {
    } else if k == 50 {
    } else if k == 51 {
    } else if k == 52 {
    } else if k == 53 {
    } else if k == 54 {
    } else if k == 55 {
    } else if k == 56 {
    } else if k == 57 {
    } else if k == 58 {
    } else if k == 59 {
    } else if k == 60 {
    } else if k == 61 {
    } else if k == 62 {
    } else if k == 63 {
    } else if k == 64 {
    } else if k == 65 {
    }
}

/// A name whose first letter differs from a text's is not spelled out by it.
proof fn lemma_first_char_rules_out_chirho(a: Seq<char>, name: Seq<char>)
    requires
        a.len() > 0,
        name.len() > 0,
        spec_ascii_lowercase_chirho(name)[0] != a[0],
    ensures
        !spec_abbreviates_chirho(a, name),
{
    let n = spec_ascii_lowercase_chirho(name);
    if spec_starts_with_chirho(n, a) {
        assert(n.take(a.len() as int)[0] == a[0]);
    }
    if n.len() > 1 && n[1] == ' ' && spec_starts_with_chirho(seq![n[0]] + n.skip(2), a) {
        assert((seq![n[0]] + n.skip(2)).take(a.len() as int)[0] == a[0]);
    }
}

/// A name that differs from a text at place `j` (or is shorter), and whose
/// form without its space differs at place `j2`, is not spelled out by it.
proof fn lemma_mismatch_rules_out_chirho(a: Seq<char>, name: Seq<char>, j: int, j2: int)
    requires
        0 <= j < a.len(),
        j >= spec_ascii_lowercase_chirho(name).len() || spec_ascii_lowercase_chirho(name)[j] != a[j],
        ({
            let n = spec_ascii_lowercase_chirho(name);
            n.len() > 1 && n[1] == ' ' ==> 0 <= j2 < a.len() && (j2 >= n.len() - 1 || (seq![n[0]]
                + n.skip(2))[j2] != a[j2])
        }),
    ensures
        !spec_abbreviates_chirho(a, name),
{
    let n = spec_ascii_lowercase_chirho(name);
    if spec_starts_with_chirho(n, a) {
        assert(n.take(a.len() as int)[j] == a[j]);
    }
    if n.len() > 1 && n[1] == ' ' && spec_starts_with_chirho(seq![n[0]] + n.skip(2), a) {
        assert((seq![n[0]] + n.skip(2)).take(a.len() as int)[j2] == a[j2]);
    }
}

proof fn lemma_abbreviation_0_chirho()
    ensures
        spec_names_book_chirho("genesis"@, 0),
        forall|k: int| 0 <= k < 0 ==> !#[trigger] spec_names_book_chirho("genesis"@, k),
{
    reveal_strlit("genesis");
    reveal_strlit("Genesis");
    reveal_strlit("jdg");
    reveal_strlit("1kgs");
    reveal_strlit("2kgs");
    reveal_strlit("sos");
    reveal_strlit("mk");
    reveal_strlit("lk");
    reveal_strlit("jn");
    reveal_strlit("php");
    reveal_strlit("phm");
    reveal_strlit("phlm");
    reveal_strlit("jas");
    reveal_strlit("1jn");
    reveal_strlit("2jn");
    reveal_strlit("3jn");
    assert(spec_ascii_lowercase_chirho("Genesis"@).take(7) =~= "genesis"@);
    assert forall|k: int| 0 <= k < 0 implies !#[trigger] spec_names_book_chirho("genesis"@, k) by {
        lemma_book_initial_chirho(k);
        lemma_book_initial_classes_chirho(k);
        lemma_first_char_rules_out_chirho("genesis"@, spec_book_name_chirho(k));
    }
}

proof fn lemma_abbreviation_1_chirho()
    ensures
        spec_names_book_chirho("gen"@, 0),
        forall|k: int| 0 <= k < 0 ==> !#[trigger] spec_names_book_chirho("gen"@, k),
{
    reveal_strlit("gen");
    reveal_strlit("Genesis");
    reveal_strlit("jdg");
    reveal_strlit("1kgs");
    reveal_strlit("2kgs");
    reveal_strlit("sos");
    reveal_strlit("mk");
    reveal_strlit("lk");
    reveal_strlit("jn");
    reveal_strlit("php");
    reveal_strlit("phm");
    reveal_strlit("phlm");
    reveal_strlit("jas");
    reveal_strlit("1jn");
    reveal_strlit("2jn");
    reveal_strlit("3jn");
    assert("gen"@[0] != "jdg"@[0]);
    assert("gen"@[0] != "sos"@[0]);
    assert("gen"@[0] != "php"@[0]);
    assert("gen"@[0] != "phm"@[0]);
    assert("gen"@[0] != "jas"@[0]);
    assert("gen"@[0] != "1jn"@[0]);
    assert("gen"@[0] != "2jn"@[0]);
    assert("gen"@[0] != "3jn"@[0]);
    assert(spec_ascii_lowercase_chirho("Genesis"@).take(3) =~= "gen"@);
    assert forall|k: int| 0 <= k < 0 implies !#[trigger] spec_names_book_chirho("gen"@, k) by {
        lemma_book_initial_chirho(k);
        lemma_book_initial_classes_chirho(k);
        lemma_first_char_rules_out_chirho("gen"@, spec_book_name_chirho(k));
    }
}

proof fn lemma_abbreviation_2_chirho()
    ensures
        spec_names_book_chirho("exodus"@, 1),
        forall|k: int| 0 <= k < 1 ==> !#[trigger] spec_names_book_chirho("exodus"@, k),
{
    reveal_strlit("exodus");
    reveal_strlit("Exodus");
    reveal_strlit("jdg");
    reveal_strlit("1kgs");
    reveal_strlit("2kgs");
    reveal_strlit("sos");
    reveal_strlit("mk");
    reveal_strlit("lk");
    reveal_strlit("jn");
    reveal_strlit("php");
    reveal_strlit("phm");
    reveal_strlit("phlm");
    reveal_strlit("jas");
    reveal_strlit("1jn");
    reveal_strlit("2jn");
    reveal_strlit("3jn");
    assert(spec_ascii_lowercase_chirho("Exodus"@).take(6) =~= "exodus"@);
    assert forall|k: int| 0 <= k < 1 implies !#[trigger] spec_names_book_chirho("exodus"@, k) by {
        lemma_book_initial_chirho(k);
        lemma_book_initial_classes_chirho(k);
        lemma_first_char_rules_out_chirho("exodus"@, spec_book_name_chirho(k));
    }
}

proof fn lemma_abbreviation_3_chirho()
    ensures
        spec_names_book_chirho("exo"@, 1),
        forall|k: int| 0 <= k < 1 ==> !#[trigger] spec_names_book_chirho("exo"@, k),
{
    reveal_strlit("exo");
    reveal_strlit("Exodus");
    reveal_strlit("jdg");
    reveal_strlit("1kgs");
    reveal_strlit("2kgs");
    reveal_strlit("sos");
    reveal_strlit("mk");
    reveal_strlit("lk");
    reveal_strlit("jn");
    reveal_strlit("php");
    reveal_strlit("phm");
    reveal_strlit("phlm");
    reveal_strlit("jas");
    reveal_strlit("1jn");
    reveal_strlit("2jn");
    reveal_strlit("3jn");
    assert("exo"@[0] != "jdg"@[0]);
    assert("exo"@[0] != "sos"@[0]);
    assert("exo"@[0] != "php"@[0]);
    assert("exo"@[0] != "phm"@[0]);
    assert("exo"@[0] != "jas"@[0]);
    assert("exo"@[0] != "1jn"@[0]);
    assert("exo"@[0] != "2jn"@[0]);
    assert("exo"@[0] != "3jn"@[0]);
    assert(spec_ascii_lowercase_chirho("Exodus"@).take(3) =~= "exo"@);
    assert forall|k: int| 0 <= k < 1 implies !#[trigger] spec_names_book_chirho("exo"@, k) by {
        lemma_book_initial_chirho(k);
        lemma_book_initial_classes_chirho(k);
        lemma_first_char_rules_out_chirho("exo"@, spec_book_name_chirho(k));
    }
}

proof fn lemma_abbreviation_4_chirho()
    ensures
        spec_names_book_chirho("ex"@, 1),
        forall|k: int| 0 <= k < 1 ==> !#[trigger] spec_names_book_chirho("ex"@, k),
{
    reveal_strlit("ex");
    reveal_strlit("Exodus");
    reveal_strlit("jdg");
    reveal_strlit("1kgs");
    reveal_strlit("2kgs");
    reveal_strlit("sos");
    reveal_strlit("mk");
    reveal_strlit("lk");
    reveal_strlit("jn");
    reveal_strlit("php");
    reveal_strlit("phm");
    reveal_strlit("phlm");
    reveal_strlit("jas");
    reveal_strlit("1jn");
    reveal_strlit("2jn");
    reveal_strlit("3jn");
    assert("ex"@[0] != "mk"@[0]);
    assert("ex"@[0] != "lk"@[0]);
    assert("ex"@[0] != "jn"@[0]);
    assert(spec_ascii_lowercase_chirho("Exodus"@).take(2) =~= "ex"@);
    assert forall|k: int| 0 <= k < 1 implies !#[trigger] spec_names_book_chirho("ex"@, k) by {
        lemma_book_initial_chirho(k);
        lemma_book_initial_classes_chirho(k);
        lemma_first_char_rules_out_chirho("ex"@, spec_book_name_chirho(k));
    }
}

proof fn lemma_abbreviation_5_chirho()
    ensures
        spec_names_book_chirho("leviticus"@, 2),
        forall|k: int| 0 <= k < 2 ==> !#[trigger] spec_names_book_chirho("leviticus"@, k),
{
    reveal_strlit("leviticus");
    reveal_strlit("Leviticus");
    reveal_strlit("jdg");
    reveal_strlit("1kgs");
    reveal_strlit("2kgs");
    reveal_strlit("sos");
    reveal_strlit("mk");
    reveal_strlit("lk");
    reveal_strlit("jn");
    reveal_strlit("php");
    reveal_strlit("phm");
    reveal_strlit("phlm");
    reveal_strlit("jas");
    reveal_strlit("1jn");
    reveal_strlit("2jn");
    reveal_strlit("3jn");
    assert(spec_ascii_lowercase_chirho("Leviticus"@).take(9) =~= "leviticus"@);
    assert forall|k: int| 0 <= k < 2 implies !#[trigger] spec_names_book_chirho("leviticus"@, k) by {
        lemma_book_initial_chirho(k);
        lemma_book_initial_classes_chirho(k);
        lemma_first_char_rules_out_chirho("leviticus"@, spec_book_name_chirho(k));
    }
}

proof fn lemma_abbreviation_6_chirho()
    ensures
        spec_names_book_chirho("lev"@, 2),
        forall|k: int| 0 <= k < 2 ==> !#[trigger] spec_names_book_chirho("lev"@, k),
{
    reveal_strlit("lev");
    reveal_strlit("Leviticus");
    reveal_strlit("jdg");
    reveal_strlit("1kgs");
    reveal_strlit("2kgs");
    reveal_strlit("sos");
    reveal_strlit("mk");
    reveal_strlit("lk");
    reveal_strlit("jn");
    reveal_strlit("php");
    reveal_strlit("phm");
    reveal_strlit("phlm");
    reveal_strlit("jas");
    reveal_strlit("1jn");
    reveal_strlit("2jn");
    reveal_strlit("3jn");
    assert("lev"@[0] != "jdg"@[0]);
    assert("lev"@[0] != "sos"@[0]);
    assert("lev"@[0] != "php"@[0]);
    assert("lev"@[0] != "phm"@[0]);
    assert("lev"@[0] != "jas"@[0]);
    assert("lev"@[0] != "1jn"@[0]);
    assert("lev"@[0] != "2jn"@[0]);
    assert("lev"@[0] != "3jn"@[0]);
    assert(spec_ascii_lowercase_chirho("Leviticus"@).take(3) =~= "lev"@);
    assert forall|k: int| 0 <= k < 2 implies !#[trigger] spec_names_book_chirho("lev"@, k) by {
        lemma_book_initial_chirho(k);
        lemma_book_initial_classes_chirho(k);
        lemma_first_char_rules_out_chirho("lev"@, spec_book_name_chirho(k));
    }
}

proof fn lemma_abbreviation_7_chirho()
    ensures
        spec_names_book_chirho("numbers"@, 3),
        forall|k: int| 0 <= k < 3 ==> !#[trigger] spec_names_book_chirho("numbers"@, k),
{
    reveal_strlit("numbers");
    reveal_strlit("Numbers");
    reveal_strlit("jdg");
    reveal_strlit("1kgs");
    reveal_strlit("2kgs");
    reveal_strlit("sos");
    reveal_strlit("mk");
    reveal_strlit("lk");
    reveal_strlit("jn");
    reveal_strlit("php");
    reveal_strlit("phm");
    reveal_strlit("phlm");
    reveal_strlit("jas");
    reveal_strlit("1jn");
    reveal_strlit("2jn");
    reveal_strlit("3jn");
    assert(spec_ascii_lowercase_chirho("Numbers"@).take(7) =~= "numbers"@);
    assert forall|k: int| 0 <= k < 3 implies !#[trigger] spec_names_book_chirho("numbers"@, k) by {
        lemma_book_initial_chirho(k);
        lemma_book_initial_classes_chirho(k);
        lemma_first_char_rules_out_chirho("numbers"@, spec_book_name_chirho(k));
    }
}

proof fn lemma_abbreviation_8_chirho()
    ensures
        spec_names_book_chirho("num"@, 3),
        forall|k: int| 0 <= k < 3 ==> !#[trigger] spec_names_book_chirho("num"@, k),
{
    reveal_strlit("num");
    reveal_strlit("Numbers");
    reveal_strlit("jdg");
    reveal_strlit("1kgs");
    reveal_strlit("2kgs");
    reveal_strlit("sos");
    reveal_strlit("mk");
    reveal_strlit("lk");
    reveal_strlit("jn");
    reveal_strlit("php");
    reveal_strlit("phm");
    reveal_strlit("phlm");
    reveal_strlit("jas");
    reveal_strlit("1jn");
    reveal_strlit("2jn");
    reveal_strlit("3jn");
    assert("num"@[0] != "jdg"@[0]);
    assert("num"@[0] != "sos"@[0]);
    assert("num"@[0] != "php"@[0]);
    assert("num"@[0] != "phm"@[0]);
    assert("num"@[0] != "jas"@[0]);
    assert("num"@[0] != "1jn"@[0]);
    assert("num"@[0] != "2jn"@[0]);
    assert("num"@[0] != "3jn"@[0]);
    assert(spec_ascii_lowercase_chirho("Numbers"@).take(3) =~= "num"@);
    assert forall|k: int| 0 <= k < 3 implies !#[trigger] spec_names_book_chirho("num"@, k) by {
        lemma_book_initial_chirho(k);
        lemma_book_initial_classes_chirho(k);
        lemma_first_char_rules_out_chirho("num"@, spec_book_name_chirho(k));
    }
}

proof fn lemma_abbreviation_9_chirho()
    ensures
        spec_names_book_chirho("deuteronomy"@, 4),
        forall|k: int| 0 <= k < 4 ==> !#[trigger] spec_names_book_chirho("deuteronomy"@, k),
{
    reveal_strlit("deuteronomy");
    reveal_strlit("Deuteronomy");
    reveal_strlit("jdg");
    reveal_strlit("1kgs");
    reveal_strlit("2kgs");
    reveal_strlit("sos");
    reveal_strlit("mk");
    reveal_strlit("lk");
    reveal_strlit("jn");
    reveal_strlit("php");
    reveal_strlit("phm");
    reveal_strlit("phlm");
    reveal_strlit("jas");
    reveal_strlit("1jn");
    reveal_strlit("2jn");
    reveal_strlit("3jn");
    assert(spec_ascii_lowercase_chirho("Deuteronomy"@).take(11) =~= "deuteronomy"@);
    assert forall|k: int| 0 <= k < 4 implies !#[trigger] spec_names_book_chirho("deuteronomy"@, k) by {
        lemma_book_initial_chirho(k);
        lemma_book_initial_classes_chirho(k);
        lemma_first_char_rules_out_chirho("deuteronomy"@, spec_book_name_chirho(k));
    }
}

proof fn lemma_abbreviation_10_chirho()
    ensures
        spec_names_book_chirho("deut"@, 4),
        forall|k: int| 0 <= k < 4 ==> !#[trigger] spec_names_book_chirho("deut"@, k),
{
    reveal_strlit("deut");
    reveal_strlit("Deuteronomy");
    reveal_strlit("jdg");
    reveal_strlit("1kgs");
    reveal_strlit("2kgs");
    reveal_strlit("sos");
    reveal_strlit("mk");
    reveal_strlit("lk");
    reveal_strlit("jn");
    reveal_strlit("php");
    reveal_strlit("phm");
    reveal_strlit("phlm");
    reveal_strlit("jas");
    reveal_strlit("1jn");
    reveal_strlit("2jn");
    reveal_strlit("3jn");
    assert("deut"@[0] != "1kgs"@[0]);
    assert("deut"@[0] != "2kgs"@[0]);
    assert("deut"@[0] != "phlm"@[0]);
    assert(spec_ascii_lowercase_chirho("Deuteronomy"@).take(4) =~= "deut"@);
    assert forall|k: int| 0 <= k < 4 implies !#[trigger] spec_names_book_chirho("deut"@, k) by {
        lemma_book_initial_chirho(k);
        lemma_book_initial_classes_chirho(k);
        lemma_first_char_rules_out_chirho("deut"@, spec_book_name_chirho(k));
    }
}

proof fn lemma_abbreviation_11_chirho()
    ensures
        spec_names_book_chirho("joshua"@, 5),
        forall|k: int| 0 <= k < 5 ==> !#[trigger] spec_names_book_chirho("joshua"@, k),
{
    reveal_strlit("joshua");
    reveal_strlit("Joshua");
    reveal_strlit("jdg");
    reveal_strlit("1kgs");
    reveal_strlit("2kgs");
    reveal_strlit("sos");
    reveal_strlit("mk");
    reveal_strlit("lk");
    reveal_strlit("jn");
    reveal_strlit("php");
    reveal_strlit("phm");
    reveal_strlit("phlm");
    reveal_strlit("jas");
    reveal_strlit("1jn");
    reveal_strlit("2jn");
    reveal_strlit("3jn");
    assert(spec_ascii_lowercase_chirho("Joshua"@).take(6) =~= "joshua"@);
    assert forall|k: int| 0 <= k < 5 implies !#[trigger] spec_names_book_chirho("joshua"@, k) by {
        lemma_book_initial_chirho(k);
        lemma_book_initial_classes_chirho(k);
        lemma_first_char_rules_out_chirho("joshua"@, spec_book_name_chirho(k));
    }
}

proof fn lemma_abbreviation_12_chirho()
    ensures
        spec_names_book_chirho("josh"@, 5),
        forall|k: int| 0 <= k < 5 ==> !#[trigger] spec_names_book_chirho("josh"@, k),
{
    reveal_strlit("josh");
    reveal_strlit("Joshua");
    reveal_strlit("jdg");
    reveal_strlit("1kgs");
    reveal_strlit("2kgs");
    reveal_strlit("sos");
    reveal_strlit("mk");
    reveal_strlit("lk");
    reveal_strlit("jn");
    reveal_strlit("php");
    reveal_strlit("phm");
    reveal_strlit("phlm");
    reveal_strlit("jas");
    reveal_strlit("1jn");
    reveal_strlit("2jn");
    reveal_strlit("3jn");
    assert("josh"@[0] != "1kgs"@[0]);
    assert("josh"@[0] != "2kgs"@[0]);
    assert("josh"@[0] != "phlm"@[0]);
    assert(spec_ascii_lowercase_chirho("Joshua"@).take(4) =~= "josh"@);
    assert forall|k: int| 0 <= k < 5 implies !#[trigger] spec_names_book_chirho("josh"@, k) by {
        lemma_book_initial_chirho(k);
        lemma_book_initial_classes_chirho(k);
        lemma_first_char_rules_out_chirho("josh"@, spec_book_name_chirho(k));
    }
}

proof fn lemma_abbreviation_13_chirho()
    ensures
        spec_names_book_chirho("judges"@, 6),
        forall|k: int| 0 <= k < 6 ==> !#[trigger] spec_names_book_chirho("judges"@, k),
{
    reveal_strlit("judges");
    reveal_strlit("Judges");
    reveal_strlit("jdg");
    reveal_strlit("1kgs");
    reveal_strlit("2kgs");
    reveal_strlit("sos");
    reveal_strlit("mk");
    reveal_strlit("lk");
    reveal_strlit("jn");
    reveal_strlit("php");
    reveal_strlit("phm");
    reveal_strlit("phlm");
    reveal_strlit("jas");
    reveal_strlit("1jn");
    reveal_strlit("2jn");
    reveal_strlit("3jn");
    assert(spec_ascii_lowercase_chirho("Judges"@).take(6) =~= "judges"@);
    assert forall|k: int| 0 <= k < 6 implies !#[trigger] spec_names_book_chirho("judges"@, k) by {
        if k == 5 {
            reveal_strlit("Joshua");
            lemma_mismatch_rules_out_chirho("judges"@, spec_book_name_chirho(5), 1, 0);
        } else {
            lemma_book_initial_chirho(k);
            lemma_book_initial_classes_chirho(k);
            lemma_first_char_rules_out_chirho("judges"@, spec_book_name_chirho(k));
        }
    }
}

proof fn lemma_abbreviation_14_chirho()
    ensures
        spec_names_book_chirho("judg"@, 6),
        forall|k: int| 0 <= k < 6 ==> !#[trigger] spec_names_book_chirho("judg"@, k),
{
    reveal_strlit("judg");
    reveal_strlit("Judges");
    reveal_strlit("jdg");
    reveal_strlit("1kgs");
    reveal_strlit("2kgs");
    reveal_strlit("sos");
    reveal_strlit("mk");
    reveal_strlit("lk");
    reveal_strlit("jn");
    reveal_strlit("php");
    reveal_strlit("phm");
    reveal_strlit("phlm");
    reveal_strlit("jas");
    reveal_strlit("1jn");
    reveal_strlit("2jn");
    reveal_strlit("3jn");
    assert("judg"@[0] != "1kgs"@[0]);
    assert("judg"@[0] != "2kgs"@[0]);
    assert("judg"@[0] != "phlm"@[0]);
    assert(spec_ascii_lowercase_chirho("Judges"@).take(4) =~= "judg"@);
    assert forall|k: int| 0 <= k < 6 implies !#[trigger] spec_names_book_chirho("judg"@, k) by {
        if k == 5 {
            reveal_strlit("Joshua");
            lemma_mismatch_rules_out_chirho("judg"@, spec_book_name_chirho(5), 1, 0);
        } else {
            lemma_book_initial_chirho(k);
            lemma_book_initial_classes_chirho(k);
            lemma_first_char_rules_out_chirho("judg"@, spec_book_name_chirho(k));
        }
    }
}

proof fn lemma_abbreviation_15_chirho()
    ensures
        spec_names_book_chirho("jdg"@, 6),
        forall|k: int| 0 <= k < 6 ==> !#[trigger] spec_names_book_chirho("jdg"@, k),
{
    reveal_strlit("jdg");
    reveal_strlit("Judges");
    reveal_strlit("jdg");
    reveal_strlit("1kgs");
    reveal_strlit("2kgs");
    reveal_strlit("sos");
    reveal_strlit("mk");
    reveal_strlit("lk");
    reveal_strlit("jn");
    reveal_strlit("php");
    reveal_strlit("phm");
    reveal_strlit("phlm");
    reveal_strlit("jas");
    reveal_strlit("1jn");
    reveal_strlit("2jn");
    reveal_strlit("3jn");
    assert("jdg"@[0] != "sos"@[0]);
    assert("jdg"@[0] != "php"@[0]);
    assert("jdg"@[0] != "phm"@[0]);
    assert("jdg"@[1] != "jas"@[1]);
    assert("jdg"@[0] != "1jn"@[0]);
    assert("jdg"@[0] != "2jn"@[0]);
    assert("jdg"@[0] != "3jn"@[0]);
    assert(spec_short_form_chirho("jdg"@, 6));
    assert forall|k: int| 0 <= k < 6 implies !#[trigger] spec_names_book_chirho("jdg"@, k) by {
        if k == 5 {
            reveal_strlit("Joshua");
            lemma_mismatch_rules_out_chirho("jdg"@, spec_book_name_chirho(5), 1, 0);
        } else {
            lemma_book_initial_chirho(k);
            lemma_book_initial_classes_chirho(k);
            lemma_first_char_rules_out_chirho("jdg"@, spec_book_name_chirho(k));
        }
    }
}

proof fn lemma_abbreviation_16_chirho()
    ensures
        spec_names_book_chirho("ruth"@, 7),
        forall|k: int| 0 <= k < 7 ==> !#[trigger] spec_names_book_chirho("ruth"@, k),
{
    reveal_strlit("ruth");
    reveal_strlit("Ruth");
    reveal_strlit("jdg");
    reveal_strlit("1kgs");
    reveal_strlit("2kgs");
    reveal_strlit("sos");
    reveal_strlit("mk");
    reveal_strlit("lk");
    reveal_strlit("jn");
    reveal_strlit("php");
    reveal_strlit("phm");
    reveal_strlit("phlm");
    reveal_strlit("jas");
    reveal_strlit("1jn");
    reveal_strlit("2jn");
    reveal_strlit("3jn");
    assert("ruth"@[0] != "1kgs"@[0]);
    assert("ruth"@[0] != "2kgs"@[0]);
    assert("ruth"@[0] != "phlm"@[0]);
    assert(spec_ascii_lowercase_chirho("Ruth"@).take(4) =~= "ruth"@);
    assert forall|k: int| 0 <= k < 7 implies !#[trigger] spec_names_book_chirho("ruth"@, k) by {
        lemma_book_initial_chirho(k);
        lemma_book_initial_classes_chirho(k);
        lemma_first_char_rules_out_chirho("ruth"@, spec_book_name_chirho(k));
    }
}

proof fn lemma_abbreviation_17_chirho()
    ensures
        spec_names_book_chirho("1 samuel"@, 8),
        forall|k: int| 0 <= k < 8 ==> !#[trigger] spec_names_book_chirho("1 samuel"@, k),
{
    reveal_strlit("1 samuel");
    reveal_strlit("1 Samuel");
    reveal_strlit("jdg");
    reveal_strlit("1kgs");
    reveal_strlit("2kgs");
    reveal_strlit("sos");
    reveal_strlit("mk");
    reveal_strlit("lk");
    reveal_strlit("jn");
    reveal_strlit("php");
    reveal_strlit("phm");
    reveal_strlit("phlm");
    reveal_strlit("jas");
    reveal_strlit("1jn");
    reveal_strlit("2jn");
    reveal_strlit("3jn");
    assert(spec_ascii_lowercase_chirho("1 Samuel"@).take(8) =~= "1 samuel"@);
    assert forall|k: int| 0 <= k < 8 implies !#[trigger] spec_names_book_chirho("1 samuel"@, k) by {
        lemma_book_initial_chirho(k);
        lemma_book_initial_classes_chirho(k);
        lemma_first_char_rules_out_chirho("1 samuel"@, spec_book_name_chirho(k));
    }
}

proof fn lemma_abbreviation_18_chirho()
    ensures
        spec_names_book_chirho("1samuel"@, 8),
        forall|k: int| 0 <= k < 8 ==> !#[trigger] spec_names_book_chirho("1samuel"@, k),
{
    reveal_strlit("1samuel");
    reveal_strlit("1 Samuel");
    reveal_strlit("jdg");
    reveal_strlit("1kgs");
    reveal_strlit("2kgs");
    reveal_strlit("sos");
    reveal_strlit("mk");
    reveal_strlit("lk");
    reveal_strlit("jn");
    reveal_strlit("php");
    reveal_strlit("phm");
    reveal_strlit("phlm");
    reveal_strlit("jas");
    reveal_strlit("1jn");
    reveal_strlit("2jn");
    reveal_strlit("3jn");
    let l = spec_ascii_lowercase_chirho("1 Samuel"@);
    assert((seq![l[0]] + l.skip(2)).take(7) =~= "1samuel"@);
    assert forall|k: int| 0 <= k < 8 implies !#[trigger] spec_names_book_chirho("1samuel"@, k) by {
        lemma_book_initial_chirho(k);
        lemma_book_initial_classes_chirho(k);
        lemma_first_char_rules_out_chirho("1samuel"@, spec_book_name_chirho(k));
    }
}

proof fn lemma_abbreviation_19_chirho()
    ensures
        spec_names_book_chirho("1sam"@, 8),
        forall|k: int| 0 <= k < 8 ==> !#[trigger] spec_names_book_chirho("1sam"@, k),
{
    reveal_strlit("1sam");
    reveal_strlit("1 Samuel");
    reveal_strlit("jdg");
    reveal_strlit("1kgs");
    reveal_strlit("2kgs");
    reveal_strlit("sos");
    reveal_strlit("mk");
    reveal_strlit("lk");
    reveal_strlit("jn");
    reveal_strlit("php");
    reveal_strlit("phm");
    reveal_strlit("phlm");
    reveal_strlit("jas");
    reveal_strlit("1jn");
    reveal_strlit("2jn");
    reveal_strlit("3jn");
    assert("1sam"@[1] != "1kgs"@[1]);
    assert("1sam"@[0] != "2kgs"@[0]);
    assert("1sam"@[0] != "phlm"@[0]);
    let l = spec_ascii_lowercase_chirho("1 Samuel"@);
    assert((seq![l[0]] + l.skip(2)).take(4) =~= "1sam"@);
    assert forall|k: int| 0 <= k < 8 implies !#[trigger] spec_names_book_chirho("1sam"@, k) by {
        lemma_book_initial_chirho(k);
        lemma_book_initial_classes_chirho(k);
        lemma_first_char_rules_out_chirho("1sam"@, spec_book_name_chirho(k));
    }
}

proof fn lemma_abbreviation_20_chirho()
    ensures
        spec_names_book_chirho("1sa"@, 8),
        forall|k: int| 0 <= k < 8 ==> !#[trigger] spec_names_book_chirho("1sa"@, k),
{
    reveal_strlit("1sa");
    reveal_strlit("1 Samuel");
    reveal_strlit("jdg");
    reveal_strlit("1kgs");
    reveal_strlit("2kgs");
    reveal_strlit("sos");
    reveal_strlit("mk");
    reveal_strlit("lk");
    reveal_strlit("jn");
    reveal_strlit("php");
    reveal_strlit("phm");
    reveal_strlit("phlm");
    reveal_strlit("jas");
    reveal_strlit("1jn");
    reveal_strlit("2jn");
    reveal_strlit("3jn");
    assert("1sa"@[0] != "jdg"@[0]);
    assert("1sa"@[0] != "sos"@[0]);
    assert("1sa"@[0] != "php"@[0]);
    assert("1sa"@[0] != "phm"@[0]);
    assert("1sa"@[0] != "jas"@[0]);
    assert("1sa"@[1] != "1jn"@[1]);
    assert("1sa"@[0] != "2jn"@[0]);
    assert("1sa"@[0] != "3jn"@[0]);
    let l = spec_ascii_lowercase_chirho("1 Samuel"@);
    assert((seq![l[0]] + l.skip(2)).take(3) =~= "1sa"@);
    assert forall|k: int| 0 <= k < 8 implies !#[trigger] spec_names_book_chirho("1sa"@, k) by {
        lemma_book_initial_chirho(k);
        lemma_book_initial_classes_chirho(k);
        lemma_first_char_rules_out_chirho("1sa"@, spec_book_name_chirho(k));
    }
}

proof fn lemma_abbreviation_21_chirho()
    ensures
        spec_names_book_chirho("2 samuel"@, 9),
        forall|k: int| 0 <= k < 9 ==> !#[trigger] spec_names_book_chirho("2 samuel"@, k),
{
    reveal_strlit("2 samuel");
    reveal_strlit("2 Samuel");
    reveal_strlit("jdg");
    reveal_strlit("1kgs");
    reveal_strlit("2kgs");
    reveal_strlit("sos");
    reveal_strlit("mk");
    reveal_strlit("lk");
    reveal_strlit("jn");
    reveal_strlit("php");
    reveal_strlit("phm");
    reveal_strlit("phlm");
    reveal_strlit("jas");
    reveal_strlit("1jn");
    reveal_strlit("2jn");
    reveal_strlit("3jn");
    assert(spec_ascii_lowercase_chirho("2 Samuel"@).take(8) =~= "2 samuel"@);
    assert forall|k: int| 0 <= k < 9 implies !#[trigger] spec_names_book_chirho("2 samuel"@, k) by {
        lemma_book_initial_chirho(k);
        lemma_book_initial_classes_chirho(k);
        lemma_first_char_rules_out_chirho("2 samuel"@, spec_book_name_chirho(k));
    }
}

proof fn lemma_abbreviation_22_chirho()
    ensures
        spec_names_book_chirho("2samuel"@, 9),
        forall|k: int| 0 <= k < 9 ==> !#[trigger] spec_names_book_chirho("2samuel"@, k),
{
    reveal_strlit("2samuel");
    reveal_strlit("2 Samuel");
    reveal_strlit("jdg");
    reveal_strlit("1kgs");
    reveal_strlit("2kgs");
    reveal_strlit("sos");
    reveal_strlit("mk");
    reveal_strlit("lk");
    reveal_strlit("jn");
    reveal_strlit("php");
    reveal_strlit("phm");
    reveal_strlit("phlm");
    reveal_strlit("jas");
    reveal_strlit("1jn");
    reveal_strlit("2jn");
    reveal_strlit("3jn");
    let l = spec_ascii_lowercase_chirho("2 Samuel"@);
    assert((seq![l[0]] + l.skip(2)).take(7) =~= "2samuel"@);
    assert forall|k: int| 0 <= k < 9 implies !#[trigger] spec_names_book_chirho("2samuel"@, k) by {
        lemma_book_initial_chirho(k);
        lemma_book_initial_classes_chirho(k);
        lemma_first_char_rules_out_chirho("2samuel"@, spec_book_name_chirho(k));
    }
}

proof fn lemma_abbreviation_23_chirho()
    ensures
        spec_names_book_chirho("2sam"@, 9),
        forall|k: int| 0 <= k < 9 ==> !#[trigger] spec_names_book_chirho("2sam"@, k),
{
    reveal_strlit("2sam");
    reveal_strlit("2 Samuel");
    reveal_strlit("jdg");
    reveal_strlit("1kgs");
    reveal_strlit("2kgs");
    reveal_strlit("sos");
    reveal_strlit("mk");
    reveal_strlit("lk");
    reveal_strlit("jn");
    reveal_strlit("php");
    reveal_strlit("phm");
    reveal_strlit("phlm");
    reveal_strlit("jas");
    reveal_strlit("1jn");
    reveal_strlit("2jn");
    reveal_strlit("3jn");
    assert("2sam"@[0] != "1kgs"@[0]);
    assert("2sam"@[1] != "2kgs"@[1]);
    assert("2sam"@[0] != "phlm"@[0]);
    let l = spec_ascii_lowercase_chirho("2 Samuel"@);
    assert((seq![l[0]] + l.skip(2)).take(4) =~= "2sam"@);
    assert forall|k: int| 0 <= k < 9 implies !#[trigger] spec_names_book_chirho("2sam"@, k) by {
        lemma_book_initial_chirho(k);
        lemma_book_initial_classes_chirho(k);
        lemma_first_char_rules_out_chirho("2sam"@, spec_book_name_chirho(k));
    }
}

proof fn lemma_abbreviation_24_chirho()
    ensures
        spec_names_book_chirho("2sa"@, 9),
        forall|k: int| 0 <= k < 9 ==> !#[trigger] spec_names_book_chirho("2sa"@, k),
{
    reveal_strlit("2sa");
    reveal_strlit("2 Samuel");
    reveal_strlit("jdg");
    reveal_strlit("1kgs");
    reveal_strlit("2kgs");
    reveal_strlit("sos");
    reveal_strlit("mk");
    reveal_strlit("lk");
    reveal_strlit("jn");
    reveal_strlit("php");
    reveal_strlit("phm");
    reveal_strlit("phlm");
    reveal_strlit("jas");
    reveal_strlit("1jn");
    reveal_strlit("2jn");
    reveal_strlit("3jn");
    assert("2sa"@[0] != "jdg"@[0]);
    assert("2sa"@[0] != "sos"@[0]);
    assert("2sa"@[0] != "php"@[0]);
    assert("2sa"@[0] != "phm"@[0]);
    assert("2sa"@[0] != "jas"@[0]);
    assert("2sa"@[0] != "1jn"@[0]);
    assert("2sa"@[1] != "2jn"@[1]);
    assert("2sa"@[0] != "3jn"@[0]);
    let l = spec_ascii_lowercase_chirho("2 Samuel"@);
    assert((seq![l[0]] + l.skip(2)).take(3) =~= "2sa"@);
    assert forall|k: int| 0 <= k < 9 implies !#[trigger] spec_names_book_chirho("2sa"@, k) by {
        lemma_book_initial_chirho(k);
        lemma_book_initial_classes_chirho(k);
        lemma_first_char_rules_out_chirho("2sa"@, spec_book_name_chirho(k));
    }
}

proof fn lemma_abbreviation_25_chirho()
    ensures
        spec_names_book_chirho("1 kings"@, 10),
        forall|k: int| 0 <= k < 10 ==> !#[trigger] spec_names_book_chirho("1 kings"@, k),
{
    reveal_strlit("1 kings");
    reveal_strlit("1 Kings");
    reveal_strlit("jdg");
    reveal_strlit("1kgs");
    reveal_strlit("2kgs");
    reveal_strlit("sos");
    reveal_strlit("mk");
    reveal_strlit("lk");
    reveal_strlit("jn");
    reveal_strlit("php");
    reveal_strlit("phm");
    reveal_strlit("phlm");
    reveal_strlit("jas");
    reveal_strlit("1jn");
    reveal_strlit("2jn");
    reveal_strlit("3jn");
    assert(spec_ascii_lowercase_chirho("1 Kings"@).take(7) =~= "1 kings"@);
    assert forall|k: int| 0 <= k < 10 implies !#[trigger] spec_names_book_chirho("1 kings"@, k) by {
        if k == 8 {
            reveal_strlit("1 Samuel");
            lemma_mismatch_rules_out_chirho("1 kings"@, spec_book_name_chirho(8), 2, 1);
        } else {
            lemma_book_initial_chirho(k);
            lemma_book_initial_classes_chirho(k);
            lemma_first_char_rules_out_chirho("1 kings"@, spec_book_name_chirho(k));
        }
    }
}

proof fn lemma_abbreviation_26_chirho()
    ensures
        spec_names_book_chirho("1kings"@, 10),
        forall|k: int| 0 <= k < 10 ==> !#[trigger] spec_names_book_chirho("1kings"@, k),
{
    reveal_strlit("1kings");
    reveal_strlit("1 Kings");
    reveal_strlit("jdg");
    reveal_strlit("1kgs");
    reveal_strlit("2kgs");
    reveal_strlit("sos");
    reveal_strlit("mk");
    reveal_strlit("lk");
    reveal_strlit("jn");
    reveal_strlit("php");
    reveal_strlit("phm");
    reveal_strlit("phlm");
    reveal_strlit("jas");
    reveal_strlit("1jn");
    reveal_strlit("2jn");
    reveal_strlit("3jn");
    let l = spec_ascii_lowercase_chirho("1 Kings"@);
    assert((seq![l[0]] + l.skip(2)).take(6) =~= "1kings"@);
    assert forall|k: int| 0 <= k < 10 implies !#[trigger] spec_names_book_chirho("1kings"@, k) by {
        if k == 8 {
            reveal_strlit("1 Samuel");
            lemma_mismatch_rules_out_chirho("1kings"@, spec_book_name_chirho(8), 1, 1);
        } else {
            lemma_book_initial_chirho(k);
            lemma_book_initial_classes_chirho(k);
            lemma_first_char_rules_out_chirho("1kings"@, spec_book_name_chirho(k));
        }
    }
}

proof fn lemma_abbreviation_27_chirho()
    ensures
        spec_names_book_chirho("1ki"@, 10),
        forall|k: int| 0 <= k < 10 ==> !#[trigger] spec_names_book_chirho("1ki"@, k),
{
    reveal_strlit("1ki");
    reveal_strlit("1 Kings");
    reveal_strlit("jdg");
    reveal_strlit("1kgs");
    reveal_strlit("2kgs");
    reveal_strlit("sos");
    reveal_strlit("mk");
    reveal_strlit("lk");
    reveal_strlit("jn");
    reveal_strlit("php");
    reveal_strlit("phm");
    reveal_strlit("phlm");
    reveal_strlit("jas");
    reveal_strlit("1jn");
    reveal_strlit("2jn");
    reveal_strlit("3jn");
    assert("1ki"@[0] != "jdg"@[0]);
    assert("1ki"@[0] != "sos"@[0]);
    assert("1ki"@[0] != "php"@[0]);
    assert("1ki"@[0] != "phm"@[0]);
    assert("1ki"@[0] != "jas"@[0]);
    assert("1ki"@[1] != "1jn"@[1]);
    assert("1ki"@[0] != "2jn"@[0]);
    assert("1ki"@[0] != "3jn"@[0]);
    let l = spec_ascii_lowercase_chirho("1 Kings"@);
    assert((seq![l[0]] + l.skip(2)).take(3) =~= "1ki"@);
    assert forall|k: int| 0 <= k < 10 implies !#[trigger] spec_names_book_chirho("1ki"@, k) by {
        if k == 8 {
            reveal_strlit("1 Samuel");
            lemma_mismatch_rules_out_chirho("1ki"@, spec_book_name_chirho(8), 1, 1);
        } else {
            lemma_book_initial_chirho(k);
            lemma_book_initial_classes_chirho(k);
            lemma_first_char_rules_out_chirho("1ki"@, spec_book_name_chirho(k));
        }
    }
}

proof fn lemma_abbreviation_28_chirho()
    ensures
        spec_names_book_chirho("1kgs"@, 10),
        forall|k: int| 0 <= k < 10 ==> !#[trigger] spec_names_book_chirho("1kgs"@, k),
{
    reveal_strlit("1kgs");
    reveal_strlit("1 Kings");
    reveal_strlit("jdg");
    reveal_strlit("1kgs");
    reveal_strlit("2kgs");
    reveal_strlit("sos");
    reveal_strlit("mk");
    reveal_strlit("lk");
    reveal_strlit("jn");
    reveal_strlit("php");
    reveal_strlit("phm");
    reveal_strlit("phlm");
    reveal_strlit("jas");
    reveal_strlit("1jn");
    reveal_strlit("2jn");
    reveal_strlit("3jn");
    assert("1kgs"@[0] != "2kgs"@[0]);
    assert("1kgs"@[0] != "phlm"@[0]);
    assert(spec_short_form_chirho("1kgs"@, 10));
    assert forall|k: int| 0 <= k < 10 implies !#[trigger] spec_names_book_chirho("1kgs"@, k) by {
        if k == 8 {
            reveal_strlit("1 Samuel");
            lemma_mismatch_rules_out_chirho("1kgs"@, spec_book_name_chirho(8), 1, 1);
        } else {
            lemma_book_initial_chirho(k);
            lemma_book_initial_classes_chirho(k);
            lemma_first_char_rules_out_chirho("1kgs"@, spec_book_name_chirho(k));
        }
    }
}

proof fn lemma_abbreviation_29_chirho()
    ensures
        spec_names_book_chirho("2 kings"@, 11),
        forall|k: int| 0 <= k < 11 ==> !#[trigger] spec_names_book_chirho("2 kings"@, k),
{
    reveal_strlit("2 kings");
    reveal_strlit("2 Kings");
    reveal_strlit("jdg");
    reveal_strlit("1kgs");
    reveal_strlit("2kgs");
    reveal_strlit("sos");
    reveal_strlit("mk");
    reveal_strlit("lk");
    reveal_strlit("jn");
    reveal_strlit("php");
    reveal_strlit("phm");
    reveal_strlit("phlm");
    reveal_strlit("jas");
    reveal_strlit("1jn");
    reveal_strlit("2jn");
    reveal_strlit("3jn");
    assert(spec_ascii_lowercase_chirho("2 Kings"@).take(7) =~= "2 kings"@);
    assert forall|k: int| 0 <= k < 11 implies !#[trigger] spec_names_book_chirho("2 kings"@, k) by {
        if k == 9 {
            reveal_strlit("2 Samuel");
            lemma_mismatch_rules_out_chirho("2 kings"@, spec_book_name_chirho(9), 2, 1);
        } else {
            lemma_book_initial_chirho(k);
            lemma_book_initial_classes_chirho(k);
            lemma_first_char_rules_out_chirho("2 kings"@, spec_book_name_chirho(k));
        }
    }
}

proof fn lemma_abbreviation_30_chirho()
    ensures
        spec_names_book_chirho("2kings"@, 11),
        forall|k: int| 0 <= k < 11 ==> !#[trigger] spec_names_book_chirho("2kings"@, k),
{
    reveal_strlit("2kings");
    reveal_strlit("2 Kings");
    reveal_strlit("jdg");
    reveal_strlit("1kgs");
    reveal_strlit("2kgs");
    reveal_strlit("sos");
    reveal_strlit("mk");
    reveal_strlit("lk");
    reveal_strlit("jn");
    reveal_strlit("php");
    reveal_strlit("phm");
    reveal_strlit("phlm");
    reveal_strlit("jas");
    reveal_strlit("1jn");
    reveal_strlit("2jn");
    reveal_strlit("3jn");
    let l = spec_ascii_lowercase_chirho("2 Kings"@);
    assert((seq![l[0]] + l.skip(2)).take(6) =~= "2kings"@);
    assert forall|k: int| 0 <= k < 11 implies !#[trigger] spec_names_book_chirho("2kings"@, k) by {
        if k == 9 {
            reveal_strlit("2 Samuel");
            lemma_mismatch_rules_out_chirho("2kings"@, spec_book_name_chirho(9), 1, 1);
        } else {
            lemma_book_initial_chirho(k);
            lemma_book_initial_classes_chirho(k);
            lemma_first_char_rules_out_chirho("2kings"@, spec_book_name_chirho(k));
        }
    }
}

proof fn lemma_abbreviation_31_chirho()
    ensures
        spec_names_book_chirho("2ki"@, 11),
        forall|k: int| 0 <= k < 11 ==> !#[trigger] spec_names_book_chirho("2ki"@, k),
{
    reveal_strlit("2ki");
    reveal_strlit("2 Kings");
    reveal_strlit("jdg");
    reveal_strlit("1kgs");
    reveal_strlit("2kgs");
    reveal_strlit("sos");
    reveal_strlit("mk");
    reveal_strlit("lk");
    reveal_strlit("jn");
    reveal_strlit("php");
    reveal_strlit("phm");
    reveal_strlit("phlm");
    reveal_strlit("jas");
    reveal_strlit("1jn");
    reveal_strlit("2jn");
    reveal_strlit("3jn");
    assert("2ki"@[0] != "jdg"@[0]);
    assert("2ki"@[0] != "sos"@[0]);
    assert("2ki"@[0] != "php"@[0]);
    assert("2ki"@[0] != "phm"@[0]);
    assert("2ki"@[0] != "jas"@[0]);
    assert("2ki"@[0] != "1jn"@[0]);
    assert("2ki"@[1] != "2jn"@[1]);
    assert("2ki"@[0] != "3jn"@[0]);
    let l = spec_ascii_lowercase_chirho("2 Kings"@);
    assert((seq![l[0]] + l.skip(2)).take(3) =~= "2ki"@);
    assert forall|k: int| 0 <= k < 11 implies !#[trigger] spec_names_book_chirho("2ki"@, k) by {
        if k == 9 {
            reveal_strlit("2 Samuel");
            lemma_mismatch_rules_out_chirho("2ki"@, spec_book_name_chirho(9), 1, 1);
        } else {
            lemma_book_initial_chirho(k);
            lemma_book_initial_classes_chirho(k);
            lemma_first_char_rules_out_chirho("2ki"@, spec_book_name_chirho(k));
        }
    }
}

proof fn lemma_abbreviation_32_chirho()
    ensures
        spec_names_book_chirho("2kgs"@, 11),
        forall|k: int| 0 <= k < 11 ==> !#[trigger] spec_names_book_chirho("2kgs"@, k),
{
    reveal_strlit("2kgs");
    reveal_strlit("2 Kings");
    reveal_strlit("jdg");
    reveal_strlit("1kgs");
    reveal_strlit("2kgs");
    reveal_strlit("sos");
    reveal_strlit("mk");
    reveal_strlit("lk");
    reveal_strlit("jn");
    reveal_strlit("php");
    reveal_strlit("phm");
    reveal_strlit("phlm");
    reveal_strlit("jas");
    reveal_strlit("1jn");
    reveal_strlit("2jn");
    reveal_strlit("3jn");
    assert("2kgs"@[0] != "1kgs"@[0]);
    assert("2kgs"@[0] != "phlm"@[0]);
    assert(spec_short_form_chirho("2kgs"@, 11));
    assert forall|k: int| 0 <= k < 11 implies !#[trigger] spec_names_book_chirho("2kgs"@, k) by {
        if k == 9 {
            reveal_strlit("2 Samuel");
            lemma_mismatch_rules_out_chirho("2kgs"@, spec_book_name_chirho(9), 1, 1);
        } else {
            lemma_book_initial_chirho(k);
            lemma_book_initial_classes_chirho(k);
            lemma_first_char_rules_out_chirho("2kgs"@, spec_book_name_chirho(k));
        }
    }
}

proof fn lemma_abbreviation_33_chirho()
    ensures
        spec_names_book_chirho("1 chronicles"@, 12),
        forall|k: int| 0 <= k < 12 ==> !#[trigger] spec_names_book_chirho("1 chronicles"@, k),
{
    reveal_strlit("1 chronicles");
    reveal_strlit("1 Chronicles");
    reveal_strlit("jdg");
    reveal_strlit("1kgs");
    reveal_strlit("2kgs");
    reveal_strlit("sos");
    reveal_strlit("mk");
    reveal_strlit("lk");
    reveal_strlit("jn");
    reveal_strlit("php");
    reveal_strlit("phm");
    reveal_strlit("phlm");
    reveal_strlit("jas");
    reveal_strlit("1jn");
    reveal_strlit("2jn");
    reveal_strlit("3jn");
    assert(spec_ascii_lowercase_chirho("1 Chronicles"@).take(12) =~= "1 chronicles"@);
    assert forall|k: int| 0 <= k < 12 implies !#[trigger] spec_names_book_chirho("1 chronicles"@, k) by {
        if k == 8 {
            reveal_strlit("1 Samuel");
            lemma_mismatch_rules_out_chirho("1 chronicles"@, spec_book_name_chirho(8), 2, 1);
        } else if k == 10 {
            reveal_strlit("1 Kings");
            lemma_mismatch_rules_out_chirho("1 chronicles"@, spec_book_name_chirho(10), 2, 1);
        } else {
            lemma_book_initial_chirho(k);
            lemma_book_initial_classes_chirho(k);
            lemma_first_char_rules_out_chirho("1 chronicles"@, spec_book_name_chirho(k));
        }
    }
}

proof fn lemma_abbreviation_34_chirho()
    ensures
        spec_names_book_chirho("1chronicles"@, 12),
        forall|k: int| 0 <= k < 12 ==> !#[trigger] spec_names_book_chirho("1chronicles"@, k),
{
    reveal_strlit("1chronicles");
    reveal_strlit("1 Chronicles");
    reveal_strlit("jdg");
    reveal_strlit("1kgs");
    reveal_strlit("2kgs");
    reveal_strlit("sos");
    reveal_strlit("mk");
    reveal_strlit("lk");
    reveal_strlit("jn");
    reveal_strlit("php");
    reveal_strlit("phm");
    reveal_strlit("phlm");
    reveal_strlit("jas");
    reveal_strlit("1jn");
    reveal_strlit("2jn");
    reveal_strlit("3jn");
    let l = spec_ascii_lowercase_chirho("1 Chronicles"@);
    assert((seq![l[0]] + l.skip(2)).take(11) =~= "1chronicles"@);
    assert forall|k: int| 0 <= k < 12 implies !#[trigger] spec_names_book_chirho("1chronicles"@, k) by {
        if k == 8 {
            reveal_strlit("1 Samuel");
            lemma_mismatch_rules_out_chirho("1chronicles"@, spec_book_name_chirho(8), 1, 1);
        } else if k == 10 {
            reveal_strlit("1 Kings");
            lemma_mismatch_rules_out_chirho("1chronicles"@, spec_book_name_chirho(10), 1, 1);
        } else {
            lemma_book_initial_chirho(k);
            lemma_book_initial_classes_chirho(k);
            lemma_first_char_rules_out_chirho("1chronicles"@, spec_book_name_chirho(k));
        }
    }
}

proof fn lemma_abbreviation_35_chirho()
    ensures
        spec_names_book_chirho("1chr"@, 12),
        forall|k: int| 0 <= k < 12 ==> !#[trigger] spec_names_book_chirho("1chr"@, k),
{
    reveal_strlit("1chr");
    reveal_strlit("1 Chronicles");
    reveal_strlit("jdg");
    reveal_strlit("1kgs");
    reveal_strlit("2kgs");
    reveal_strlit("sos");
    reveal_strlit("mk");
    reveal_strlit("lk");
    reveal_strlit("jn");
    reveal_strlit("php");
    reveal_strlit("phm");
    reveal_strlit("phlm");
    reveal_strlit("jas");
    reveal_strlit("1jn");
    reveal_strlit("2jn");
    reveal_strlit("3jn");
    assert("1chr"@[1] != "1kgs"@[1]);
    assert("1chr"@[0] != "2kgs"@[0]);
    assert("1chr"@[0] != "phlm"@[0]);
    let l = spec_ascii_lowercase_chirho("1 Chronicles"@);
    assert((seq![l[0]] + l.skip(2)).take(4) =~= "1chr"@);
    assert forall|k: int| 0 <= k < 12 implies !#[trigger] spec_names_book_chirho("1chr"@, k) by {
        if k == 8 {
            reveal_strlit("1 Samuel");
            lemma_mismatch_rules_out_chirho("1chr"@, spec_book_name_chirho(8), 1, 1);
        } else if k == 10 {
            reveal_strlit("1 Kings");
            lemma_mismatch_rules_out_chirho("1chr"@, spec_book_name_chirho(10), 1, 1);
        } else {
            lemma_book_initial_chirho(k);
            lemma_book_initial_classes_chirho(k);
            lemma_first_char_rules_out_chirho("1chr"@, spec_book_name_chirho(k));
        }
    }
}

proof fn lemma_abbreviation_36_chirho()
    ensures
        spec_names_book_chirho("1ch"@, 12),
        forall|k: int| 0 <= k < 12 ==> !#[trigger] spec_names_book_chirho("1ch"@, k),
{
    reveal_strlit("1ch");
    reveal_strlit("1 Chronicles");
    reveal_strlit("jdg");
    reveal_strlit("1kgs");
    reveal_strlit("2kgs");
    reveal_strlit("sos");
    reveal_strlit("mk");
    reveal_strlit("lk");
    reveal_strlit("jn");
    reveal_strlit("php");
    reveal_strlit("phm");
    reveal_strlit("phlm");
    reveal_strlit("jas");
    reveal_strlit("1jn");
    reveal_strlit("2jn");
    reveal_strlit("3jn");
    assert("1ch"@[0] != "jdg"@[0]);
    assert("1ch"@[0] != "sos"@[0]);
    assert("1ch"@[0] != "php"@[0]);
    assert("1ch"@[0] != "phm"@[0]);
    assert("1ch"@[0] != "jas"@[0]);
    assert("1ch"@[1] != "1jn"@[1]);
    assert("1ch"@[0] != "2jn"@[0]);
    assert("1ch"@[0] != "3jn"@[0]);
    let l = spec_ascii_lowercase_chirho("1 Chronicles"@);
    assert((seq![l[0]] + l.skip(2)).take(3) =~= "1ch"@);
    assert forall|k: int| 0 <= k < 12 implies !#[trigger] spec_names_book_chirho("1ch"@, k) by {
        if k == 8 {
            reveal_strlit("1 Samuel");
            lemma_mismatch_rules_out_chirho("1ch"@, spec_book_name_chirho(8), 1, 1);
        } else if k == 10 {
            reveal_strlit("1 Kings");
            lemma_mismatch_rules_out_chirho("1ch"@, spec_book_name_chirho(10), 1, 1);
        } else {
            lemma_book_initial_chirho(k);
            lemma_book_initial_classes_chirho(k);
            lemma_first_char_rules_out_chirho("1ch"@, spec_book_name_chirho(k));
        }
    }
}

proof fn lemma_abbreviation_37_chirho()
    ensures
        spec_names_book_chirho("2 chronicles"@, 13),
        forall|k: int| 0 <= k < 13 ==> !#[trigger] spec_names_book_chirho("2 chronicles"@, k),
{
    reveal_strlit("2 chronicles");
    reveal_strlit("2 Chronicles");
    reveal_strlit("jdg");
    reveal_strlit("1kgs");
    reveal_strlit("2kgs");
    reveal_strlit("sos");
    reveal_strlit("mk");
    reveal_strlit("lk");
    reveal_strlit("jn");
    reveal_strlit("php");
    reveal_strlit("phm");
    reveal_strlit("phlm");
    reveal_strlit("jas");
    reveal_strlit("1jn");
    reveal_strlit("2jn");
    reveal_strlit("3jn");
    assert(spec_ascii_lowercase_chirho("2 Chronicles"@).take(12) =~= "2 chronicles"@);
    assert forall|k: int| 0 <= k < 13 implies !#[trigger] spec_names_book_chirho("2 chronicles"@, k) by {
        if k == 9 {
            reveal_strlit("2 Samuel");
            lemma_mismatch_rules_out_chirho("2 chronicles"@, spec_book_name_chirho(9), 2, 1);
        } else if k == 11 {
            reveal_strlit("2 Kings");
            lemma_mismatch_rules_out_chirho("2 chronicles"@, spec_book_name_chirho(11), 2, 1);
        } else {
            lemma_book_initial_chirho(k);
            lemma_book_initial_classes_chirho(k);
            lemma_first_char_rules_out_chirho("2 chronicles"@, spec_book_name_chirho(k));
        }
    }
}

proof fn lemma_abbreviation_38_chirho()
    ensures
        spec_names_book_chirho("2chronicles"@, 13),
        forall|k: int| 0 <= k < 13 ==> !#[trigger] spec_names_book_chirho("2chronicles"@, k),
{
    reveal_strlit("2chronicles");
    reveal_strlit("2 Chronicles");
    reveal_strlit("jdg");
    reveal_strlit("1kgs");
    reveal_strlit("2kgs");
    reveal_strlit("sos");
    reveal_strlit("mk");
    reveal_strlit("lk");
    reveal_strlit("jn");
    reveal_strlit("php");
    reveal_strlit("phm");
    reveal_strlit("phlm");
    reveal_strlit("jas");
    reveal_strlit("1jn");
    reveal_strlit("2jn");
    reveal_strlit("3jn");
    let l = spec_ascii_lowercase_chirho("2 Chronicles"@);
    assert((seq![l[0]] + l.skip(2)).take(11) =~= "2chronicles"@);
    assert forall|k: int| 0 <= k < 13 implies !#[trigger] spec_names_book_chirho("2chronicles"@, k) by {
        if k == 9 {
            reveal_strlit("2 Samuel");
            lemma_mismatch_rules_out_chirho("2chronicles"@, spec_book_name_chirho(9), 1, 1);
        } else if k == 11 {
            reveal_strlit("2 Kings");
            lemma_mismatch_rules_out_chirho("2chronicles"@, spec_book_name_chirho(11), 1, 1);
        } else {
            lemma_book_initial_chirho(k);
            lemma_book_initial_classes_chirho(k);
            lemma_first_char_rules_out_chirho("2chronicles"@, spec_book_name_chirho(k));
        }
    }
}

proof fn lemma_abbreviation_39_chirho()
    ensures
        spec_names_book_chirho("2chr"@, 13),
        forall|k: int| 0 <= k < 13 ==> !#[trigger] spec_names_book_chirho("2chr"@, k),
{
    reveal_strlit("2chr");
    reveal_strlit("2 Chronicles");
    reveal_strlit("jdg");
    reveal_strlit("1kgs");
    reveal_strlit("2kgs");
    reveal_strlit("sos");
    reveal_strlit("mk");
    reveal_strlit("lk");
    reveal_strlit("jn");
    reveal_strlit("php");
    reveal_strlit("phm");
    reveal_strlit("phlm");
    reveal_strlit("jas");
    reveal_strlit("1jn");
    reveal_strlit("2jn");
    reveal_strlit("3jn");
    assert("2chr"@[0] != "1kgs"@[0]);
    assert("2chr"@[1] != "2kgs"@[1]);
    assert("2chr"@[0] != "phlm"@[0]);
    let l = spec_ascii_lowercase_chirho("2 Chronicles"@);
    assert((seq![l[0]] + l.skip(2)).take(4) =~= "2chr"@);
    assert forall|k: int| 0 <= k < 13 implies !#[trigger] spec_names_book_chirho("2chr"@, k) by {
        if k == 9 {
            reveal_strlit("2 Samuel");
            lemma_mismatch_rules_out_chirho("2chr"@, spec_book_name_chirho(9), 1, 1);
        } else if k == 11 {
            reveal_strlit("2 Kings");
            lemma_mismatch_rules_out_chirho("2chr"@, spec_book_name_chirho(11), 1, 1);
        } else {
            lemma_book_initial_chirho(k);
            lemma_book_initial_classes_chirho(k);
            lemma_first_char_rules_out_chirho("2chr"@, spec_book_name_chirho(k));
        }
    }
}

proof fn lemma_abbreviation_40_chirho()
    ensures
        spec_names_book_chirho("2ch"@, 13),
        forall|k: int| 0 <= k < 13 ==> !#[trigger] spec_names_book_chirho("2ch"@, k),
{
    reveal_strlit("2ch");
    reveal_strlit("2 Chronicles");
    reveal_strlit("jdg");
    reveal_strlit("1kgs");
    reveal_strlit("2kgs");
    reveal_strlit("sos");
    reveal_strlit("mk");
    reveal_strlit("lk");
    reveal_strlit("jn");
    reveal_strlit("php");
    reveal_strlit("phm");
    reveal_strlit("phlm");
    reveal_strlit("jas");
    reveal_strlit("1jn");
    reveal_strlit("2jn");
    reveal_strlit("3jn");
    assert("2ch"@[0] != "jdg"@[0]);
    assert("2ch"@[0] != "sos"@[0]);
    assert("2ch"@[0] != "php"@[0]);
    assert("2ch"@[0] != "phm"@[0]);
    assert("2ch"@[0] != "jas"@[0]);
    assert("2ch"@[0] != "1jn"@[0]);
    assert("2ch"@[1] != "2jn"@[1]);
    assert("2ch"@[0] != "3jn"@[0]);
    let l = spec_ascii_lowercase_chirho("2 Chronicles"@);
    assert((seq![l[0]] + l.skip(2)).take(3) =~= "2ch"@);
    assert forall|k: int| 0 <= k < 13 implies !#[trigger] spec_names_book_chirho("2ch"@, k) by {
        if k == 9 {
            reveal_strlit("2 Samuel");
            lemma_mismatch_rules_out_chirho("2ch"@, spec_book_name_chirho(9), 1, 1);
        } else if k == 11 {
            reveal_strlit("2 Kings");
            lemma_mismatch_rules_out_chirho("2ch"@, spec_book_name_chirho(11), 1, 1);
        } else {
            lemma_book_initial_chirho(k);
            lemma_book_initial_classes_chirho(k);
            lemma_first_char_rules_out_chirho("2ch"@, spec_book_name_chirho(k));
        }
    }
}

proof fn lemma_abbreviation_41_chirho()
    ensures
        spec_names_book_chirho("ezra"@, 14),
        forall|k: int| 0 <= k < 14 ==> !#[trigger] spec_names_book_chirho("ezra"@, k),
{
    reveal_strlit("ezra");
    reveal_strlit("Ezra");
    reveal_strlit("jdg");
    reveal_strlit("1kgs");
    reveal_strlit("2kgs");
    reveal_strlit("sos");
    reveal_strlit("mk");
    reveal_strlit("lk");
    reveal_strlit("jn");
    reveal_strlit("php");
    reveal_strlit("phm");
    reveal_strlit("phlm");
    reveal_strlit("jas");
    reveal_strlit("1jn");
    reveal_strlit("2jn");
    reveal_strlit("3jn");
    assert("ezra"@[0] != "1kgs"@[0]);
    assert("ezra"@[0] != "2kgs"@[0]);
    assert("ezra"@[0] != "phlm"@[0]);
    assert(spec_ascii_lowercase_chirho("Ezra"@).take(4) =~= "ezra"@);
    assert forall|k: int| 0 <= k < 14 implies !#[trigger] spec_names_book_chirho("ezra"@, k) by {
        if k == 1 {
            reveal_strlit("Exodus");
            lemma_mismatch_rules_out_chirho("ezra"@, spec_book_name_chirho(1), 1, 0);
        } else {
            lemma_book_initial_chirho(k);
            lemma_book_initial_classes_chirho(k);
            lemma_first_char_rules_out_chirho("ezra"@, spec_book_name_chirho(k));
        }
    }
}

proof fn lemma_abbreviation_42_chirho()
    ensures
        spec_names_book_chirho("ezr"@, 14),
        forall|k: int| 0 <= k < 14 ==> !#[trigger] spec_names_book_chirho("ezr"@, k),
{
    reveal_strlit("ezr");
    reveal_strlit("Ezra");
    reveal_strlit("jdg");
    reveal_strlit("1kgs");
    reveal_strlit("2kgs");
    reveal_strlit("sos");
    reveal_strlit("mk");
    reveal_strlit("lk");
    reveal_strlit("jn");
    reveal_strlit("php");
    reveal_strlit("phm");
    reveal_strlit("phlm");
    reveal_strlit("jas");
    reveal_strlit("1jn");
    reveal_strlit("2jn");
    reveal_strlit("3jn");
    assert("ezr"@[0] != "jdg"@[0]);
    assert("ezr"@[0] != "sos"@[0]);
    assert("ezr"@[0] != "php"@[0]);
    assert("ezr"@[0] != "phm"@[0]);
    assert("ezr"@[0] != "jas"@[0]);
    assert("ezr"@[0] != "1jn"@[0]);
    assert("ezr"@[0] != "2jn"@[0]);
    assert("ezr"@[0] != "3jn"@[0]);
    assert(spec_ascii_lowercase_chirho("Ezra"@).take(3) =~= "ezr"@);
    assert forall|k: int| 0 <= k < 14 implies !#[trigger] spec_names_book_chirho("ezr"@, k) by {
        if k == 1 {
            reveal_strlit("Exodus");
            lemma_mismatch_rules_out_chirho("ezr"@, spec_book_name_chirho(1), 1, 0);
        } else {
            lemma_book_initial_chirho(k);
            lemma_book_initial_classes_chirho(k);
            lemma_first_char_rules_out_chirho("ezr"@, spec_book_name_chirho(k));
        }
    }
}

proof fn lemma_abbreviation_43_chirho()
    ensures
        spec_names_book_chirho("nehemiah"@, 15),
        forall|k: int| 0 <= k < 15 ==> !#[trigger] spec_names_book_chirho("nehemiah"@, k),
{
    reveal_strlit("nehemiah");
    reveal_strlit("Nehemiah");
    reveal_strlit("jdg");
    reveal_strlit("1kgs");
    reveal_strlit("2kgs");
    reveal_strlit("sos");
    reveal_strlit("mk");
    reveal_strlit("lk");
    reveal_strlit("jn");
    reveal_strlit("php");
    reveal_strlit("phm");
    reveal_strlit("phlm");
    reveal_strlit("jas");
    reveal_strlit("1jn");
    reveal_strlit("2jn");
    reveal_strlit("3jn");
    assert(spec_ascii_lowercase_chirho("Nehemiah"@).take(8) =~= "nehemiah"@);
    assert forall|k: int| 0 <= k < 15 implies !#[trigger] spec_names_book_chirho("nehemiah"@, k) by {
        if k == 3 {
            reveal_strlit("Numbers");
            lemma_mismatch_rules_out_chirho("nehemiah"@, spec_book_name_chirho(3), 1, 0);
        } else {
            lemma_book_initial_chirho(k);
            lemma_book_initial_classes_chirho(k);
            lemma_first_char_rules_out_chirho("nehemiah"@, spec_book_name_chirho(k));
        }
    }
}

proof fn lemma_abbreviation_44_chirho()
    ensures
        spec_names_book_chirho("neh"@, 15),
        forall|k: int| 0 <= k < 15 ==> !#[trigger] spec_names_book_chirho("neh"@, k),
{
    reveal_strlit("neh");
    reveal_strlit("Nehemiah");
    reveal_strlit("jdg");
    reveal_strlit("1kgs");
    reveal_strlit("2kgs");
    reveal_strlit("sos");
    reveal_strlit("mk");
    reveal_strlit("lk");
    reveal_strlit("jn");
    reveal_strlit("php");
    reveal_strlit("phm");
    reveal_strlit("phlm");
    reveal_strlit("jas");
    reveal_strlit("1jn");
    reveal_strlit("2jn");
    reveal_strlit("3jn");
    assert("neh"@[0] != "jdg"@[0]);
    assert("neh"@[0] != "sos"@[0]);
    assert("neh"@[0] != "php"@[0]);
    assert("neh"@[0] != "phm"@[0]);
    assert("neh"@[0] != "jas"@[0]);
    assert("neh"@[0] != "1jn"@[0]);
    assert("neh"@[0] != "2jn"@[0]);
    assert("neh"@[0] != "3jn"@[0]);
    assert(spec_ascii_lowercase_chirho("Nehemiah"@).take(3) =~= "neh"@);
    assert forall|k: int| 0 <= k < 15 implies !#[trigger] spec_names_book_chirho("neh"@, k) by {
        if k == 3 {
            reveal_strlit("Numbers");
            lemma_mismatch_rules_out_chirho("neh"@, spec_book_name_chirho(3), 1, 0);
        } else {
            lemma_book_initial_chirho(k);
            lemma_book_initial_classes_chirho(k);
            lemma_first_char_rules_out_chirho("neh"@, spec_book_name_chirho(k));
        }
    }
}

proof fn lemma_abbreviation_45_chirho()
    ensures
        spec_names_book_chirho("esther"@, 16),
        forall|k: int| 0 <= k < 16 ==> !#[trigger] spec_names_book_chirho("esther"@, k),
{
    reveal_strlit("esther");
    reveal_strlit("Esther");
    reveal_strlit("jdg");
    reveal_strlit("1kgs");
    reveal_strlit("2kgs");
    reveal_strlit("sos");
    reveal_strlit("mk");
    reveal_strlit("lk");
    reveal_strlit("jn");
    reveal_strlit("php");
    reveal_strlit("phm");
    reveal_strlit("phlm");
    reveal_strlit("jas");
    reveal_strlit("1jn");
    reveal_strlit("2jn");
    reveal_strlit("3jn");
    assert(spec_ascii_lowercase_chirho("Esther"@).take(6) =~= "esther"@);
    assert forall|k: int| 0 <= k < 16 implies !#[trigger] spec_names_book_chirho("esther"@, k) by {
        if k == 1 {
            reveal_strlit("Exodus");
            lemma_mismatch_rules_out_chirho("esther"@, spec_book_name_chirho(1), 1, 0);
        } else if k == 14 {
            reveal_strlit("Ezra");
            lemma_mismatch_rules_out_chirho("esther"@, spec_book_name_chirho(14), 1, 0);
        } else {
            lemma_book_initial_chirho(k);
            lemma_book_initial_classes_chirho(k);
            lemma_first_char_rules_out_chirho("esther"@, spec_book_name_chirho(k));
        }
    }
}

proof fn lemma_abbreviation_46_chirho()
    ensures
        spec_names_book_chirho("esth"@, 16),
        forall|k: int| 0 <= k < 16 ==> !#[trigger] spec_names_book_chirho("esth"@, k),
{
    reveal_strlit("esth");
    reveal_strlit("Esther");
    reveal_strlit("jdg");
    reveal_strlit("1kgs");
    reveal_strlit("2kgs");
    reveal_strlit("sos");
    reveal_strlit("mk");
    reveal_strlit("lk");
    reveal_strlit("jn");
    reveal_strlit("php");
    reveal_strlit("phm");
    reveal_strlit("phlm");
    reveal_strlit("jas");
    reveal_strlit("1jn");
    reveal_strlit("2jn");
    reveal_strlit("3jn");
    assert("esth"@[0] != "1kgs"@[0]);
    assert("esth"@[0] != "2kgs"@[0]);
    assert("esth"@[0] != "phlm"@[0]);
    assert(spec_ascii_lowercase_chirho("Esther"@).take(4) =~= "esth"@);
    assert forall|k: int| 0 <= k < 16 implies !#[trigger] spec_names_book_chirho("esth"@, k) by {
        if k == 1 {
            reveal_strlit("Exodus");
            lemma_mismatch_rules_out_chirho("esth"@, spec_book_name_chirho(1), 1, 0);
        } else if k == 14 {
            reveal_strlit("Ezra");
            lemma_mismatch_rules_out_chirho("esth"@, spec_book_name_chirho(14), 1, 0);
        } else {
            lemma_book_initial_chirho(k);
            lemma_book_initial_classes_chirho(k);
            lemma_first_char_rules_out_chirho("esth"@, spec_book_name_chirho(k));
        }
    }
}

proof fn lemma_abbreviation_47_chirho()
    ensures
        spec_names_book_chirho("est"@, 16),
        forall|k: int| 0 <= k < 16 ==> !#[trigger] spec_names_book_chirho("est"@, k),
{
    reveal_strlit("est");
    reveal_strlit("Esther");
    reveal_strlit("jdg");
    reveal_strlit("1kgs");
    reveal_strlit("2kgs");
    reveal_strlit("sos");
    reveal_strlit("mk");
    reveal_strlit("lk");
    reveal_strlit("jn");
    reveal_strlit("php");
    reveal_strlit("phm");
    reveal_strlit("phlm");
    reveal_strlit("jas");
    reveal_strlit("1jn");
    reveal_strlit("2jn");
    reveal_strlit("3jn");
    assert("est"@[0] != "jdg"@[0]);
    assert("est"@[0] != "sos"@[0]);
    assert("est"@[0] != "php"@[0]);
    assert("est"@[0] != "phm"@[0]);
    assert("est"@[0] != "jas"@[0]);
    assert("est"@[0] != "1jn"@[0]);
    assert("est"@[0] != "2jn"@[0]);
    assert("est"@[0] != "3jn"@[0]);
    assert(spec_ascii_lowercase_chirho("Esther"@).take(3) =~= "est"@);
    assert forall|k: int| 0 <= k < 16 implies !#[trigger] spec_names_book_chirho("est"@, k) by {
        if k == 1 {
            reveal_strlit("Exodus");
            lemma_mismatch_rules_out_chirho("est"@, spec_book_name_chirho(1), 1, 0);
        } else if k == 14 {
            reveal_strlit("Ezra");
            lemma_mismatch_rules_out_chirho("est"@, spec_book_name_chirho(14), 1, 0);
        } else {
            lemma_book_initial_chirho(k);
            lemma_book_initial_classes_chirho(k);
            lemma_first_char_rules_out_chirho("est"@, spec_book_name_chirho(k));
        }
    }
}

proof fn lemma_abbreviation_48_chirho()
    ensures
        spec_names_book_chirho("job"@, 17),
        forall|k: int| 0 <= k < 17 ==> !#[trigger] spec_names_book_chirho("job"@, k),
{
    reveal_strlit("job");
    reveal_strlit("Job");
    reveal_strlit("jdg");
    reveal_strlit("1kgs");
    reveal_strlit("2kgs");
    reveal_strlit("sos");
    reveal_strlit("mk");
    reveal_strlit("lk");
    reveal_strlit("jn");
    reveal_strlit("php");
    reveal_strlit("phm");
    reveal_strlit("phlm");
    reveal_strlit("jas");
    reveal_strlit("1jn");
    reveal_strlit("2jn");
    reveal_strlit("3jn");
    assert("job"@[1] != "jdg"@[1]);
    assert("job"@[0] != "sos"@[0]);
    assert("job"@[0] != "php"@[0]);
    assert("job"@[0] != "phm"@[0]);
    assert("job"@[1] != "jas"@[1]);
    assert("job"@[0] != "1jn"@[0]);
    assert("job"@[0] != "2jn"@[0]);
    assert("job"@[0] != "3jn"@[0]);
    assert(spec_ascii_lowercase_chirho("Job"@).take(3) =~= "job"@);
    assert forall|k: int| 0 <= k < 17 implies !#[trigger] spec_names_book_chirho("job"@, k) by {
        if k == 5 {
            reveal_strlit("Joshua");
            lemma_mismatch_rules_out_chirho("job"@, spec_book_name_chirho(5), 2, 0);
        } else if k == 6 {
            reveal_strlit("Judges");
            lemma_mismatch_rules_out_chirho("job"@, spec_book_name_chirho(6), 1, 0);
        } else {
            lemma_book_initial_chirho(k);
            lemma_book_initial_classes_chirho(k);
            lemma_first_char_rules_out_chirho("job"@, spec_book_name_chirho(k));
        }
    }
}

proof fn lemma_abbreviation_49_chirho()
    ensures
        spec_names_book_chirho("psalms"@, 18),
        forall|k: int| 0 <= k < 18 ==> !#[trigger] spec_names_book_chirho("psalms"@, k),
{
    reveal_strlit("psalms");
    reveal_strlit("Psalms");
    reveal_strlit("jdg");
    reveal_strlit("1kgs");
    reveal_strlit("2kgs");
    reveal_strlit("sos");
    reveal_strlit("mk");
    reveal_strlit("lk");
    reveal_strlit("jn");
    reveal_strlit("php");
    reveal_strlit("phm");
    reveal_strlit("phlm");
    reveal_strlit("jas");
    reveal_strlit("1jn");
    reveal_strlit("2jn");
    reveal_strlit("3jn");
    assert(spec_ascii_lowercase_chirho("Psalms"@).take(6) =~= "psalms"@);
    assert forall|k: int| 0 <= k < 18 implies !#[trigger] spec_names_book_chirho("psalms"@, k) by {
        lemma_book_initial_chirho(k);
        lemma_book_initial_classes_chirho(k);
        lemma_first_char_rules_out_chirho("psalms"@, spec_book_name_chirho(k));
    }
}

proof fn lemma_abbreviation_50_chirho()
    ensures
        spec_names_book_chirho("psalm"@, 18),
        forall|k: int| 0 <= k < 18 ==> !#[trigger] spec_names_book_chirho("psalm"@, k),
{
    reveal_strlit("psalm");
    reveal_strlit("Psalms");
    reveal_strlit("jdg");
    reveal_strlit("1kgs");
    reveal_strlit("2kgs");
    reveal_strlit("sos");
    reveal_strlit("mk");
    reveal_strlit("lk");
    reveal_strlit("jn");
    reveal_strlit("php");
    reveal_strlit("phm");
    reveal_strlit("phlm");
    reveal_strlit("jas");
    reveal_strlit("1jn");
    reveal_strlit("2jn");
    reveal_strlit("3jn");
    assert(spec_ascii_lowercase_chirho("Psalms"@).take(5) =~= "psalm"@);
    assert forall|k: int| 0 <= k < 18 implies !#[trigger] spec_names_book_chirho("psalm"@, k) by {
        lemma_book_initial_chirho(k);
        lemma_book_initial_classes_chirho(k);
        lemma_first_char_rules_out_chirho("psalm"@, spec_book_name_chirho(k));
    }
}

proof fn lemma_abbreviation_51_chirho()
    ensures
        spec_names_book_chirho("psa"@, 18),
        forall|k: int| 0 <= k < 18 ==> !#[trigger] spec_names_book_chirho("psa"@, k),
{
    reveal_strlit("psa");
    reveal_strlit("Psalms");
    reveal_strlit("jdg");
    reveal_strlit("1kgs");
    reveal_strlit("2kgs");
    reveal_strlit("sos");
    reveal_strlit("mk");
    reveal_strlit("lk");
    reveal_strlit("jn");
    reveal_strlit("php");
    reveal_strlit("phm");
    reveal_strlit("phlm");
    reveal_strlit("jas");
    reveal_strlit("1jn");
    reveal_strlit("2jn");
    reveal_strlit("3jn");
    assert("psa"@[0] != "jdg"@[0]);
    assert("psa"@[0] != "sos"@[0]);
    assert("psa"@[1] != "php"@[1]);
    assert("psa"@[1] != "phm"@[1]);
    assert("psa"@[0] != "jas"@[0]);
    assert("psa"@[0] != "1jn"@[0]);
    assert("psa"@[0] != "2jn"@[0]);
    assert("psa"@[0] != "3jn"@[0]);
    assert(spec_ascii_lowercase_chirho("Psalms"@).take(3) =~= "psa"@);
    assert forall|k: int| 0 <= k < 18 implies !#[trigger] spec_names_book_chirho("psa"@, k) by {
        lemma_book_initial_chirho(k);
        lemma_book_initial_classes_chirho(k);
        lemma_first_char_rules_out_chirho("psa"@, spec_book_name_chirho(k));
    }
}

proof fn lemma_abbreviation_52_chirho()
    ensures
        spec_names_book_chirho("ps"@, 18),
        forall|k: int| 0 <= k < 18 ==> !#[trigger] spec_names_book_chirho("ps"@, k),
{
    reveal_strlit("ps");
    reveal_strlit("Psalms");
    reveal_strlit("jdg");
    reveal_strlit("1kgs");
    reveal_strlit("2kgs");
    reveal_strlit("sos");
    reveal_strlit("mk");
    reveal_strlit("lk");
    reveal_strlit("jn");
    reveal_strlit("php");
    reveal_strlit("phm");
    reveal_strlit("phlm");
    reveal_strlit("jas");
    reveal_strlit("1jn");
    reveal_strlit("2jn");
    reveal_strlit("3jn");
    assert("ps"@[0] != "mk"@[0]);
    assert("ps"@[0] != "lk"@[0]);
    assert("ps"@[0] != "jn"@[0]);
    assert(spec_ascii_lowercase_chirho("Psalms"@).take(2) =~= "ps"@);
    assert forall|k: int| 0 <= k < 18 implies !#[trigger] spec_names_book_chirho("ps"@, k) by {
        lemma_book_initial_chirho(k);
        lemma_book_initial_classes_chirho(k);
        lemma_first_char_rules_out_chirho("ps"@, spec_book_name_chirho(k));
    }
}

proof fn lemma_abbreviation_53_chirho()
    ensures
        spec_names_book_chirho("proverbs"@, 19),
        forall|k: int| 0 <= k < 19 ==> !#[trigger] spec_names_book_chirho("proverbs"@, k),
{
    reveal_strlit("proverbs");
    reveal_strlit("Proverbs");
    reveal_strlit("jdg");
    reveal_strlit("1kgs");
    reveal_strlit("2kgs");
    reveal_strlit("sos");
    reveal_strlit("mk");
    reveal_strlit("lk");
    reveal_strlit("jn");
    reveal_strlit("php");
    reveal_strlit("phm");
    reveal_strlit("phlm");
    reveal_strlit("jas");
    reveal_strlit("1jn");
    reveal_strlit("2jn");
    reveal_strlit("3jn");
    assert(spec_ascii_lowercase_chirho("Proverbs"@).take(8) =~= "proverbs"@);
    assert forall|k: int| 0 <= k < 19 implies !#[trigger] spec_names_book_chirho("proverbs"@, k) by {
        if k == 18 {
            reveal_strlit("Psalms");
            lemma_mismatch_rules_out_chirho("proverbs"@, spec_book_name_chirho(18), 1, 0);
        } else {
            lemma_book_initial_chirho(k);
            lemma_book_initial_classes_chirho(k);
            lemma_first_char_rules_out_chirho("proverbs"@, spec_book_name_chirho(k));
        }
    }
}

proof fn lemma_abbreviation_54_chirho()
    ensures
        spec_names_book_chirho("prov"@, 19),
        forall|k: int| 0 <= k < 19 ==> !#[trigger] spec_names_book_chirho("prov"@, k),
{
    reveal_strlit("prov");
    reveal_strlit("Proverbs");
    reveal_strlit("jdg");
    reveal_strlit("1kgs");
    reveal_strlit("2kgs");
    reveal_strlit("sos");
    reveal_strlit("mk");
    reveal_strlit("lk");
    reveal_strlit("jn");
    reveal_strlit("php");
    reveal_strlit("phm");
    reveal_strlit("phlm");
    reveal_strlit("jas");
    reveal_strlit("1jn");
    reveal_strlit("2jn");
    reveal_strlit("3jn");
    assert("prov"@[0] != "1kgs"@[0]);
    assert("prov"@[0] != "2kgs"@[0]);
    assert("prov"@[1] != "phlm"@[1]);
    assert(spec_ascii_lowercase_chirho("Proverbs"@).take(4) =~= "prov"@);
    assert forall|k: int| 0 <= k < 19 implies !#[trigger] spec_names_book_chirho("prov"@, k) by {
        if k == 18 {
            reveal_strlit("Psalms");
            lemma_mismatch_rules_out_chirho("prov"@, spec_book_name_chirho(18), 1, 0);
        } else {
            lemma_book_initial_chirho(k);
            lemma_book_initial_classes_chirho(k);
            lemma_first_char_rules_out_chirho("prov"@, spec_book_name_chirho(k));
        }
    }
}

proof fn lemma_abbreviation_55_chirho()
    ensures
        spec_names_book_chirho("pro"@, 19),
        forall|k: int| 0 <= k < 19 ==> !#[trigger] spec_names_book_chirho("pro"@, k),
{
    reveal_strlit("pro");
    reveal_strlit("Proverbs");
    reveal_strlit("jdg");
    reveal_strlit("1kgs");
    reveal_strlit("2kgs");
    reveal_strlit("sos");
    reveal_strlit("mk");
    reveal_strlit("lk");
    reveal_strlit("jn");
    reveal_strlit("php");
    reveal_strlit("phm");
    reveal_strlit("phlm");
    reveal_strlit("jas");
    reveal_strlit("1jn");
    reveal_strlit("2jn");
    reveal_strlit("3jn");
    assert("pro"@[0] != "jdg"@[0]);
    assert("pro"@[0] != "sos"@[0]);
    assert("pro"@[1] != "php"@[1]);
    assert("pro"@[1] != "phm"@[1]);
    assert("pro"@[0] != "jas"@[0]);
    assert("pro"@[0] != "1jn"@[0]);
    assert("pro"@[0] != "2jn"@[0]);
    assert("pro"@[0] != "3jn"@[0]);
    assert(spec_ascii_lowercase_chirho("Proverbs"@).take(3) =~= "pro"@);
    assert forall|k: int| 0 <= k < 19 implies !#[trigger] spec_names_book_chirho("pro"@, k) by {
        if k == 18 {
            reveal_strlit("Psalms");
            lemma_mismatch_rules_out_chirho("pro"@, spec_book_name_chirho(18), 1, 0);
        } else {
            lemma_book_initial_chirho(k);
            lemma_book_initial_classes_chirho(k);
            lemma_first_char_rules_out_chirho("pro"@, spec_book_name_chirho(k));
        }
    }
}

proof fn lemma_abbreviation_56_chirho()
    ensures
        spec_names_book_chirho("ecclesiastes"@, 20),
        forall|k: int| 0 <= k < 20 ==> !#[trigger] spec_names_book_chirho("ecclesiastes"@, k),
{
    reveal_strlit("ecclesiastes");
    reveal_strlit("Ecclesiastes");
    reveal_strlit("jdg");
    reveal_strlit("1kgs");
    reveal_strlit("2kgs");
    reveal_strlit("sos");
    reveal_strlit("mk");
    reveal_strlit("lk");
    reveal_strlit("jn");
    reveal_strlit("php");
    reveal_strlit("phm");
    reveal_strlit("phlm");
    reveal_strlit("jas");
    reveal_strlit("1jn");
    reveal_strlit("2jn");
    reveal_strlit("3jn");
    assert(spec_ascii_lowercase_chirho("Ecclesiastes"@).take(12) =~= "ecclesiastes"@);
    assert forall|k: int| 0 <= k < 20 implies !#[trigger] spec_names_book_chirho("ecclesiastes"@, k) by {
        if k == 1 {
            reveal_strlit("Exodus");
            lemma_mismatch_rules_out_chirho("ecclesiastes"@, spec_book_name_chirho(1), 1, 0);
        } else if k == 14 {
            reveal_strlit("Ezra");
            lemma_mismatch_rules_out_chirho("ecclesiastes"@, spec_book_name_chirho(14), 1, 0);
        } else if k == 16 {
            reveal_strlit("Esther");
            lemma_mismatch_rules_out_chirho("ecclesiastes"@, spec_book_name_chirho(16), 1, 0);
        } else {
            lemma_book_initial_chirho(k);
            lemma_book_initial_classes_chirho(k);
            lemma_first_char_rules_out_chirho("ecclesiastes"@, spec_book_name_chirho(k));
        }
    }
}

proof fn lemma_abbreviation_57_chirho()
    ensures
        spec_names_book_chirho("eccl"@, 20),
        forall|k: int| 0 <= k < 20 ==> !#[trigger] spec_names_book_chirho("eccl"@, k),
{
    reveal_strlit("eccl");
    reveal_strlit("Ecclesiastes");
    reveal_strlit("jdg");
    reveal_strlit("1kgs");
    reveal_strlit("2kgs");
    reveal_strlit("sos");
    reveal_strlit("mk");
    reveal_strlit("lk");
    reveal_strlit("jn");
    reveal_strlit("php");
    reveal_strlit("phm");
    reveal_strlit("phlm");
    reveal_strlit("jas");
    reveal_strlit("1jn");
    reveal_strlit("2jn");
    reveal_strlit("3jn");
    assert("eccl"@[0] != "1kgs"@[0]);
    assert("eccl"@[0] != "2kgs"@[0]);
    assert("eccl"@[0] != "phlm"@[0]);
    assert(spec_ascii_lowercase_chirho("Ecclesiastes"@).take(4) =~= "eccl"@);
    assert forall|k: int| 0 <= k < 20 implies !#[trigger] spec_names_book_chirho("eccl"@, k) by {
        if k == 1 {
            reveal_strlit("Exodus");
            lemma_mismatch_rules_out_chirho("eccl"@, spec_book_name_chirho(1), 1, 0);
        } else if k == 14 {
            reveal_strlit("Ezra");
            lemma_mismatch_rules_out_chirho("eccl"@, spec_book_name_chirho(14), 1, 0);
        } else if k == 16 {
            reveal_strlit("Esther");
            lemma_mismatch_rules_out_chirho("eccl"@, spec_book_name_chirho(16), 1, 0);
        } else {
            lemma_book_initial_chirho(k);
            lemma_book_initial_classes_chirho(k);
            lemma_first_char_rules_out_chirho("eccl"@, spec_book_name_chirho(k));
        }
    }
}

proof fn lemma_abbreviation_58_chirho()
    ensures
        spec_names_book_chirho("ecc"@, 20),
        forall|k: int| 0 <= k < 20 ==> !#[trigger] spec_names_book_chirho("ecc"@, k),
{
    reveal_strlit("ecc");
    reveal_strlit("Ecclesiastes");
    reveal_strlit("jdg");
    reveal_strlit("1kgs");
    reveal_strlit("2kgs");
    reveal_strlit("sos");
    reveal_strlit("mk");
    reveal_strlit("lk");
    reveal_strlit("jn");
    reveal_strlit("php");
    reveal_strlit("phm");
    reveal_strlit("phlm");
    reveal_strlit("jas");
    reveal_strlit("1jn");
    reveal_strlit("2jn");
    reveal_strlit("3jn");
    assert("ecc"@[0] != "jdg"@[0]);
    assert("ecc"@[0] != "sos"@[0]);
    assert("ecc"@[0] != "php"@[0]);
    assert("ecc"@[0] != "phm"@[0]);
    assert("ecc"@[0] != "jas"@[0]);
    assert("ecc"@[0] != "1jn"@[0]);
    assert("ecc"@[0] != "2jn"@[0]);
    assert("ecc"@[0] != "3jn"@[0]);
    assert(spec_ascii_lowercase_chirho("Ecclesiastes"@).take(3) =~= "ecc"@);
    assert forall|k: int| 0 <= k < 20 implies !#[trigger] spec_names_book_chirho("ecc"@, k) by {
        if k == 1 {
            reveal_strlit("Exodus");
            lemma_mismatch_rules_out_chirho("ecc"@, spec_book_name_chirho(1), 1, 0);
        } else if k == 14 {
            reveal_strlit("Ezra");
            lemma_mismatch_rules_out_chirho("ecc"@, spec_book_name_chirho(14), 1, 0);
        } else if k == 16 {
            reveal_strlit("Esther");
            lemma_mismatch_rules_out_chirho("ecc"@, spec_book_name_chirho(16), 1, 0);
        } else {
            lemma_book_initial_chirho(k);
            lemma_book_initial_classes_chirho(k);
            lemma_first_char_rules_out_chirho("ecc"@, spec_book_name_chirho(k));
        }
    }
}

proof fn lemma_abbreviation_59_chirho()
    ensures
        spec_names_book_chirho("song of solomon"@, 21),
        forall|k: int| 0 <= k < 21 ==> !#[trigger] spec_names_book_chirho("song of solomon"@, k),
{
    reveal_strlit("song of solomon");
    reveal_strlit("Song of Solomon");
    reveal_strlit("jdg");
    reveal_strlit("1kgs");
    reveal_strlit("2kgs");
    reveal_strlit("sos");
    reveal_strlit("mk");
    reveal_strlit("lk");
    reveal_strlit("jn");
    reveal_strlit("php");
    reveal_strlit("phm");
    reveal_strlit("phlm");
    reveal_strlit("jas");
    reveal_strlit("1jn");
    reveal_strlit("2jn");
    reveal_strlit("3jn");
    assert(spec_ascii_lowercase_chirho("Song of Solomon"@).take(15) =~= "song of solomon"@);
    assert forall|k: int| 0 <= k < 21 implies !#[trigger] spec_names_book_chirho("song of solomon"@, k) by {
        lemma_book_initial_chirho(k);
        lemma_book_initial_classes_chirho(k);
        lemma_first_char_rules_out_chirho("song of solomon"@, spec_book_name_chirho(k));
    }
}

proof fn lemma_abbreviation_60_chirho()
    ensures
        spec_names_book_chirho("song"@, 21),
        forall|k: int| 0 <= k < 21 ==> !#[trigger] spec_names_book_chirho("song"@, k),
{
    reveal_strlit("song");
    reveal_strlit("Song of Solomon");
    reveal_strlit("jdg");
    reveal_strlit("1kgs");
    reveal_strlit("2kgs");
    reveal_strlit("sos");
    reveal_strlit("mk");
    reveal_strlit("lk");
    reveal_strlit("jn");
    reveal_strlit("php");
    reveal_strlit("phm");
    reveal_strlit("phlm");
    reveal_strlit("jas");
    reveal_strlit("1jn");
    reveal_strlit("2jn");
    reveal_strlit("3jn");
    assert("song"@[0] != "1kgs"@[0]);
    assert("song"@[0] != "2kgs"@[0]);
    assert("song"@[0] != "phlm"@[0]);
    assert(spec_ascii_lowercase_chirho("Song of Solomon"@).take(4) =~= "song"@);
    assert forall|k: int| 0 <= k < 21 implies !#[trigger] spec_names_book_chirho("song"@, k) by {
        lemma_book_initial_chirho(k);
        lemma_book_initial_classes_chirho(k);
        lemma_first_char_rules_out_chirho("song"@, spec_book_name_chirho(k));
    }
}

proof fn lemma_abbreviation_61_chirho()
    ensures
        spec_names_book_chirho("sos"@, 21),
        forall|k: int| 0 <= k < 21 ==> !#[trigger] spec_names_book_chirho("sos"@, k),
{
    reveal_strlit("sos");
    reveal_strlit("Song of Solomon");
    reveal_strlit("jdg");
    reveal_strlit("1kgs");
    reveal_strlit("2kgs");
    reveal_strlit("sos");
    reveal_strlit("mk");
    reveal_strlit("lk");
    reveal_strlit("jn");
    reveal_strlit("php");
    reveal_strlit("phm");
    reveal_strlit("phlm");
    reveal_strlit("jas");
    reveal_strlit("1jn");
    reveal_strlit("2jn");
    reveal_strlit("3jn");
    assert("sos"@[0] != "jdg"@[0]);
    assert("sos"@[0] != "php"@[0]);
    assert("sos"@[0] != "phm"@[0]);
    assert("sos"@[0] != "jas"@[0]);
    assert("sos"@[0] != "1jn"@[0]);
    assert("sos"@[0] != "2jn"@[0]);
    assert("sos"@[0] != "3jn"@[0]);
    assert(spec_short_form_chirho("sos"@, 21));
    assert forall|k: int| 0 <= k < 21 implies !#[trigger] spec_names_book_chirho("sos"@, k) by {
        lemma_book_initial_chirho(k);
        lemma_book_initial_classes_chirho(k);
        lemma_first_char_rules_out_chirho("sos"@, spec_book_name_chirho(k));
    }
}

proof fn lemma_abbreviation_62_chirho()
    ensures
        spec_names_book_chirho("isaiah"@, 22),
        forall|k: int| 0 <= k < 22 ==> !#[trigger] spec_names_book_chirho("isaiah"@, k),
{
    reveal_strlit("isaiah");
    reveal_strlit("Isaiah");
    reveal_strlit("jdg");
    reveal_strlit("1kgs");
    reveal_strlit("2kgs");
    reveal_strlit("sos");
    reveal_strlit("mk");
    reveal_strlit("lk");
    reveal_strlit("jn");
    reveal_strlit("php");
    reveal_strlit("phm");
    reveal_strlit("phlm");
    reveal_strlit("jas");
    reveal_strlit("1jn");
    reveal_strlit("2jn");
    reveal_strlit("3jn");
    assert(spec_ascii_lowercase_chirho("Isaiah"@).take(6) =~= "isaiah"@);
    assert forall|k: int| 0 <= k < 22 implies !#[trigger] spec_names_book_chirho("isaiah"@, k) by {
        lemma_book_initial_chirho(k);
        lemma_book_initial_classes_chirho(k);
        lemma_first_char_rules_out_chirho("isaiah"@, spec_book_name_chirho(k));
    }
}

proof fn lemma_abbreviation_63_chirho()
    ensures
        spec_names_book_chirho("isa"@, 22),
        forall|k: int| 0 <= k < 22 ==> !#[trigger] spec_names_book_chirho("isa"@, k),
{
    reveal_strlit("isa");
    reveal_strlit("Isaiah");
    reveal_strlit("jdg");
    reveal_strlit("1kgs");
    reveal_strlit("2kgs");
    reveal_strlit("sos");
    reveal_strlit("mk");
    reveal_strlit("lk");
    reveal_strlit("jn");
    reveal_strlit("php");
    reveal_strlit("phm");
    reveal_strlit("phlm");
    reveal_strlit("jas");
    reveal_strlit("1jn");
    reveal_strlit("2jn");
    reveal_strlit("3jn");
    assert("isa"@[0] != "jdg"@[0]);
    assert("isa"@[0] != "sos"@[0]);
    assert("isa"@[0] != "php"@[0]);
    assert("isa"@[0] != "phm"@[0]);
    assert("isa"@[0] != "jas"@[0]);
    assert("isa"@[0] != "1jn"@[0]);
    assert("isa"@[0] != "2jn"@[0]);
    assert("isa"@[0] != "3jn"@[0]);
    assert(spec_ascii_lowercase_chirho("Isaiah"@).take(3) =~= "isa"@);
    assert forall|k: int| 0 <= k < 22 implies !#[trigger] spec_names_book_chirho("isa"@, k) by {
        lemma_book_initial_chirho(k);
        lemma_book_initial_classes_chirho(k);
        lemma_first_char_rules_out_chirho("isa"@, spec_book_name_chirho(k));
    }
}

proof fn lemma_abbreviation_64_chirho()
    ensures
        spec_names_book_chirho("jeremiah"@, 23),
        forall|k: int| 0 <= k < 23 ==> !#[trigger] spec_names_book_chirho("jeremiah"@, k),
{
    reveal_strlit("jeremiah");
    reveal_strlit("Jeremiah");
    reveal_strlit("jdg");
    reveal_strlit("1kgs");
    reveal_strlit("2kgs");
    reveal_strlit("sos");
    reveal_strlit("mk");
    reveal_strlit("lk");
    reveal_strlit("jn");
    reveal_strlit("php");
    reveal_strlit("phm");
    reveal_strlit("phlm");
    reveal_strlit("jas");
    reveal_strlit("1jn");
    reveal_strlit("2jn");
    reveal_strlit("3jn");
    assert(spec_ascii_lowercase_chirho("Jeremiah"@).take(8) =~= "jeremiah"@);
    assert forall|k: int| 0 <= k < 23 implies !#[trigger] spec_names_book_chirho("jeremiah"@, k) by {
        if k == 5 {
            reveal_strlit("Joshua");
            lemma_mismatch_rules_out_chirho("jeremiah"@, spec_book_name_chirho(5), 1, 0);
        } else if k == 6 {
            reveal_strlit("Judges");
            lemma_mismatch_rules_out_chirho("jeremiah"@, spec_book_name_chirho(6), 1, 0);
        } else if k == 17 {
            reveal_strlit("Job");
            lemma_mismatch_rules_out_chirho("jeremiah"@, spec_book_name_chirho(17), 1, 0);
        } else {
            lemma_book_initial_chirho(k);
            lemma_book_initial_classes_chirho(k);
            lemma_first_char_rules_out_chirho("jeremiah"@, spec_book_name_chirho(k));
        }
    }
}

proof fn lemma_abbreviation_65_chirho()
    ensures
        spec_names_book_chirho("jer"@, 23),
        forall|k: int| 0 <= k < 23 ==> !#[trigger] spec_names_book_chirho("jer"@, k),
{
    reveal_strlit("jer");
    reveal_strlit("Jeremiah");
    reveal_strlit("jdg");
    reveal_strlit("1kgs");
    reveal_strlit("2kgs");
    reveal_strlit("sos");
    reveal_strlit("mk");
    reveal_strlit("lk");
    reveal_strlit("jn");
    reveal_strlit("php");
    reveal_strlit("phm");
    reveal_strlit("phlm");
    reveal_strlit("jas");
    reveal_strlit("1jn");
    reveal_strlit("2jn");
    reveal_strlit("3jn");
    assert("jer"@[1] != "jdg"@[1]);
    assert("jer"@[0] != "sos"@[0]);
    assert("jer"@[0] != "php"@[0]);
    assert("jer"@[0] != "phm"@[0]);
    assert("jer"@[1] != "jas"@[1]);
    assert("jer"@[0] != "1jn"@[0]);
    assert("jer"@[0] != "2jn"@[0]);
    assert("jer"@[0] != "3jn"@[0]);
    assert(spec_ascii_lowercase_chirho("Jeremiah"@).take(3) =~= "jer"@);
    assert forall|k: int| 0 <= k < 23 implies !#[trigger] spec_names_book_chirho("jer"@, k) by {
        if k == 5 {
            reveal_strlit("Joshua");
            lemma_mismatch_rules_out_chirho("jer"@, spec_book_name_chirho(5), 1, 0);
        } else if k == 6 {
            reveal_strlit("Judges");
            lemma_mismatch_rules_out_chirho("jer"@, spec_book_name_chirho(6), 1, 0);
        } else if k == 17 {
            reveal_strlit("Job");
            lemma_mismatch_rules_out_chirho("jer"@, spec_book_name_chirho(17), 1, 0);
        } else {
            lemma_book_initial_chirho(k);
            lemma_book_initial_classes_chirho(k);
            lemma_first_char_rules_out_chirho("jer"@, spec_book_name_chirho(k));
        }
    }
}

proof fn lemma_abbreviation_66_chirho()
    ensures
        spec_names_book_chirho("lamentations"@, 24),
        forall|k: int| 0 <= k < 24 ==> !#[trigger] spec_names_book_chirho("lamentations"@, k),
{
    reveal_strlit("lamentations");
    reveal_strlit("Lamentations");
    reveal_strlit("jdg");
    reveal_strlit("1kgs");
    reveal_strlit("2kgs");
    reveal_strlit("sos");
    reveal_strlit("mk");
    reveal_strlit("lk");
    reveal_strlit("jn");
    reveal_strlit("php");
    reveal_strlit("phm");
    reveal_strlit("phlm");
    reveal_strlit("jas");
    reveal_strlit("1jn");
    reveal_strlit("2jn");
    reveal_strlit("3jn");
    assert(spec_ascii_lowercase_chirho("Lamentations"@).take(12) =~= "lamentations"@);
    assert forall|k: int| 0 <= k < 24 implies !#[trigger] spec_names_book_chirho("lamentations"@, k) by {
        if k == 2 {
            reveal_strlit("Leviticus");
            lemma_mismatch_rules_out_chirho("lamentations"@, spec_book_name_chirho(2), 1, 0);
        } else {
            lemma_book_initial_chirho(k);
            lemma_book_initial_classes_chirho(k);
            lemma_first_char_rules_out_chirho("lamentations"@, spec_book_name_chirho(k));
        }
    }
}

proof fn lemma_abbreviation_67_chirho()
    ensures
        spec_names_book_chirho("lam"@, 24),
        forall|k: int| 0 <= k < 24 ==> !#[trigger] spec_names_book_chirho("lam"@, k),
{
    reveal_strlit("lam");
    reveal_strlit("Lamentations");
    reveal_strlit("jdg");
    reveal_strlit("1kgs");
    reveal_strlit("2kgs");
    reveal_strlit("sos");
    reveal_strlit("mk");
    reveal_strlit("lk");
    reveal_strlit("jn");
    reveal_strlit("php");
    reveal_strlit("phm");
    reveal_strlit("phlm");
    reveal_strlit("jas");
    reveal_strlit("1jn");
    reveal_strlit("2jn");
    reveal_strlit("3jn");
    assert("lam"@[0] != "jdg"@[0]);
    assert("lam"@[0] != "sos"@[0]);
    assert("lam"@[0] != "php"@[0]);
    assert("lam"@[0] != "phm"@[0]);
    assert("lam"@[0] != "jas"@[0]);
    assert("lam"@[0] != "1jn"@[0]);
    assert("lam"@[0] != "2jn"@[0]);
    assert("lam"@[0] != "3jn"@[0]);
    assert(spec_ascii_lowercase_chirho("Lamentations"@).take(3) =~= "lam"@);
    assert forall|k: int| 0 <= k < 24 implies !#[trigger] spec_names_book_chirho("lam"@, k) by {
        if k == 2 {
            reveal_strlit("Leviticus");
            lemma_mismatch_rules_out_chirho("lam"@, spec_book_name_chirho(2), 1, 0);
        } else {
            lemma_book_initial_chirho(k);
            lemma_book_initial_classes_chirho(k);
            lemma_first_char_rules_out_chirho("lam"@, spec_book_name_chirho(k));
        }
    }
}

proof fn lemma_abbreviation_68_chirho()
    ensures
        spec_names_book_chirho("ezekiel"@, 25),
        forall|k: int| 0 <= k < 25 ==> !#[trigger] spec_names_book_chirho("ezekiel"@, k),
{
    reveal_strlit("ezekiel");
    reveal_strlit("Ezekiel");
    reveal_strlit("jdg");
    reveal_strlit("1kgs");
    reveal_strlit("2kgs");
    reveal_strlit("sos");
    reveal_strlit("mk");
    reveal_strlit("lk");
    reveal_strlit("jn");
    reveal_strlit("php");
    reveal_strlit("phm");
    reveal_strlit("phlm");
    reveal_strlit("jas");
    reveal_strlit("1jn");
    reveal_strlit("2jn");
    reveal_strlit("3jn");
    assert(spec_ascii_lowercase_chirho("Ezekiel"@).take(7) =~= "ezekiel"@);
    assert forall|k: int| 0 <= k < 25 implies !#[trigger] spec_names_book_chirho("ezekiel"@, k) by {
        if k == 1 {
            reveal_strlit("Exodus");
            lemma_mismatch_rules_out_chirho("ezekiel"@, spec_book_name_chirho(1), 1, 0);
        } else if k == 14 {
            reveal_strlit("Ezra");
            lemma_mismatch_rules_out_chirho("ezekiel"@, spec_book_name_chirho(14), 2, 0);
        } else if k == 16 {
            reveal_strlit("Esther");
            lemma_mismatch_rules_out_chirho("ezekiel"@, spec_book_name_chirho(16), 1, 0);
        } else if k == 20 {
            reveal_strlit("Ecclesiastes");
            lemma_mismatch_rules_out_chirho("ezekiel"@, spec_book_name_chirho(20), 1, 0);
        } else {
            lemma_book_initial_chirho(k);
            lemma_book_initial_classes_chirho(k);
            lemma_first_char_rules_out_chirho("ezekiel"@, spec_book_name_chirho(k));
        }
    }
}

proof fn lemma_abbreviation_69_chirho()
    ensures
        spec_names_book_chirho("ezek"@, 25),
        forall|k: int| 0 <= k < 25 ==> !#[trigger] spec_names_book_chirho("ezek"@, k),
{
    reveal_strlit("ezek");
    reveal_strlit("Ezekiel");
    reveal_strlit("jdg");
    reveal_strlit("1kgs");
    reveal_strlit("2kgs");
    reveal_strlit("sos");
    reveal_strlit("mk");
    reveal_strlit("lk");
    reveal_strlit("jn");
    reveal_strlit("php");
    reveal_strlit("phm");
    reveal_strlit("phlm");
    reveal_strlit("jas");
    reveal_strlit("1jn");
    reveal_strlit("2jn");
    reveal_strlit("3jn");
    assert("ezek"@[0] != "1kgs"@[0]);
    assert("ezek"@[0] != "2kgs"@[0]);
    assert("ezek"@[0] != "phlm"@[0]);
    assert(spec_ascii_lowercase_chirho("Ezekiel"@).take(4) =~= "ezek"@);
    assert forall|k: int| 0 <= k < 25 implies !#[trigger] spec_names_book_chirho("ezek"@, k) by {
        if k == 1 {
            reveal_strlit("Exodus");
            lemma_mismatch_rules_out_chirho("ezek"@, spec_book_name_chirho(1), 1, 0);
        } else if k == 14 {
            reveal_strlit("Ezra");
            lemma_mismatch_rules_out_chirho("ezek"@, spec_book_name_chirho(14), 2, 0);
        } else if k == 16 {
            reveal_strlit("Esther");
            lemma_mismatch_rules_out_chirho("ezek"@, spec_book_name_chirho(16), 1, 0);
        } else if k == 20 {
            reveal_strlit("Ecclesiastes");
            lemma_mismatch_rules_out_chirho("ezek"@, spec_book_name_chirho(20), 1, 0);
        } else {
            lemma_book_initial_chirho(k);
            lemma_book_initial_classes_chirho(k);
            lemma_first_char_rules_out_chirho("ezek"@, spec_book_name_chirho(k));
        }
    }
}

proof fn lemma_abbreviation_70_chirho()
    ensures
        spec_names_book_chirho("eze"@, 25),
        forall|k: int| 0 <= k < 25 ==> !#[trigger] spec_names_book_chirho("eze"@, k),
{
    reveal_strlit("eze");
    reveal_strlit("Ezekiel");
    reveal_strlit("jdg");
    reveal_strlit("1kgs");
    reveal_strlit("2kgs");
    reveal_strlit("sos");
    reveal_strlit("mk");
    reveal_strlit("lk");
    reveal_strlit("jn");
    reveal_strlit("php");
    reveal_strlit("phm");
    reveal_strlit("phlm");
    reveal_strlit("jas");
    reveal_strlit("1jn");
    reveal_strlit("2jn");
    reveal_strlit("3jn");
    assert("eze"@[0] != "jdg"@[0]);
    assert("eze"@[0] != "sos"@[0]);
    assert("eze"@[0] != "php"@[0]);
    assert("eze"@[0] != "phm"@[0]);
    assert("eze"@[0] != "jas"@[0]);
    assert("eze"@[0] != "1jn"@[0]);
    assert("eze"@[0] != "2jn"@[0]);
    assert("eze"@[0] != "3jn"@[0]);
    assert(spec_ascii_lowercase_chirho("Ezekiel"@).take(3) =~= "eze"@);
    assert forall|k: int| 0 <= k < 25 implies !#[trigger] spec_names_book_chirho("eze"@, k) by {
        if k == 1 {
            reveal_strlit("Exodus");
            lemma_mismatch_rules_out_chirho("eze"@, spec_book_name_chirho(1), 1, 0);
        } else if k == 14 {
            reveal_strlit("Ezra");
            lemma_mismatch_rules_out_chirho("eze"@, spec_book_name_chirho(14), 2, 0);
        } else if k == 16 {
            reveal_strlit("Esther");
            lemma_mismatch_rules_out_chirho("eze"@, spec_book_name_chirho(16), 1, 0);
        } else if k == 20 {
            reveal_strlit("Ecclesiastes");
            lemma_mismatch_rules_out_chirho("eze"@, spec_book_name_chirho(20), 1, 0);
        } else {
            lemma_book_initial_chirho(k);
            lemma_book_initial_classes_chirho(k);
            lemma_first_char_rules_out_chirho("eze"@, spec_book_name_chirho(k));
        }
    }
}

proof fn lemma_abbreviation_71_chirho()
    ensures
        spec_names_book_chirho("daniel"@, 26),
        forall|k: int| 0 <= k < 26 ==> !#[trigger] spec_names_book_chirho("daniel"@, k),
{
    reveal_strlit("daniel");
    reveal_strlit("Daniel");
    reveal_strlit("jdg");
    reveal_strlit("1kgs");
    reveal_strlit("2kgs");
    reveal_strlit("sos");
    reveal_strlit("mk");
    reveal_strlit("lk");
    reveal_strlit("jn");
    reveal_strlit("php");
    reveal_strlit("phm");
    reveal_strlit("phlm");
    reveal_strlit("jas");
    reveal_strlit("1jn");
    reveal_strlit("2jn");
    reveal_strlit("3jn");
    assert(spec_ascii_lowercase_chirho("Daniel"@).take(6) =~= "daniel"@);
    assert forall|k: int| 0 <= k < 26 implies !#[trigger] spec_names_book_chirho("daniel"@, k) by {
        if k == 4 {
            reveal_strlit("Deuteronomy");
            lemma_mismatch_rules_out_chirho("daniel"@, spec_book_name_chirho(4), 1, 0);
        } else {
            lemma_book_initial_chirho(k);
            lemma_book_initial_classes_chirho(k);
            lemma_first_char_rules_out_chirho("daniel"@, spec_book_name_chirho(k));
        }
    }
}

proof fn lemma_abbreviation_72_chirho()
    ensures
        spec_names_book_chirho("dan"@, 26),
        forall|k: int| 0 <= k < 26 ==> !#[trigger] spec_names_book_chirho("dan"@, k),
{
    reveal_strlit("dan");
    reveal_strlit("Daniel");
    reveal_strlit("jdg");
    reveal_strlit("1kgs");
    reveal_strlit("2kgs");
    reveal_strlit("sos");
    reveal_strlit("mk");
    reveal_strlit("lk");
    reveal_strlit("jn");
    reveal_strlit("php");
    reveal_strlit("phm");
    reveal_strlit("phlm");
    reveal_strlit("jas");
    reveal_strlit("1jn");
    reveal_strlit("2jn");
    reveal_strlit("3jn");
    assert("dan"@[0] != "jdg"@[0]);
    assert("dan"@[0] != "sos"@[0]);
    assert("dan"@[0] != "php"@[0]);
    assert("dan"@[0] != "phm"@[0]);
    assert("dan"@[0] != "jas"@[0]);
    assert("dan"@[0] != "1jn"@[0]);
    assert("dan"@[0] != "2jn"@[0]);
    assert("dan"@[0] != "3jn"@[0]);
    assert(spec_ascii_lowercase_chirho("Daniel"@).take(3) =~= "dan"@);
    assert forall|k: int| 0 <= k < 26 implies !#[trigger] spec_names_book_chirho("dan"@, k) by {
        if k == 4 {
            reveal_strlit("Deuteronomy");
            lemma_mismatch_rules_out_chirho("dan"@, spec_book_name_chirho(4), 1, 0);
        } else {
            lemma_book_initial_chirho(k);
            lemma_book_initial_classes_chirho(k);
            lemma_first_char_rules_out_chirho("dan"@, spec_book_name_chirho(k));
        }
    }
}

proof fn lemma_abbreviation_73_chirho()
    ensures
        spec_names_book_chirho("hosea"@, 27),
        forall|k: int| 0 <= k < 27 ==> !#[trigger] spec_names_book_chirho("hosea"@, k),
{
    reveal_strlit("hosea");
    reveal_strlit("Hosea");
    reveal_strlit("jdg");
    reveal_strlit("1kgs");
    reveal_strlit("2kgs");
    reveal_strlit("sos");
    reveal_strlit("mk");
    reveal_strlit("lk");
    reveal_strlit("jn");
    reveal_strlit("php");
    reveal_strlit("phm");
    reveal_strlit("phlm");
    reveal_strlit("jas");
    reveal_strlit("1jn");
    reveal_strlit("2jn");
    reveal_strlit("3jn");
    assert(spec_ascii_lowercase_chirho("Hosea"@).take(5) =~= "hosea"@);
    assert forall|k: int| 0 <= k < 27 implies !#[trigger] spec_names_book_chirho("hosea"@, k) by {
        lemma_book_initial_chirho(k);
        lemma_book_initial_classes_chirho(k);
        lemma_first_char_rules_out_chirho("hosea"@, spec_book_name_chirho(k));
    }
}

proof fn lemma_abbreviation_74_chirho()
    ensures
        spec_names_book_chirho("hos"@, 27),
        forall|k: int| 0 <= k < 27 ==> !#[trigger] spec_names_book_chirho("hos"@, k),
{
    reveal_strlit("hos");
    reveal_strlit("Hosea");
    reveal_strlit("jdg");
    reveal_strlit("1kgs");
    reveal_strlit("2kgs");
    reveal_strlit("sos");
    reveal_strlit("mk");
    reveal_strlit("lk");
    reveal_strlit("jn");
    reveal_strlit("php");
    reveal_strlit("phm");
    reveal_strlit("phlm");
    reveal_strlit("jas");
    reveal_strlit("1jn");
    reveal_strlit("2jn");
    reveal_strlit("3jn");
    assert("hos"@[0] != "jdg"@[0]);
    assert("hos"@[0] != "sos"@[0]);
    assert("hos"@[0] != "php"@[0]);
    assert("hos"@[0] != "phm"@[0]);
    assert("hos"@[0] != "jas"@[0]);
    assert("hos"@[0] != "1jn"@[0]);
    assert("hos"@[0] != "2jn"@[0]);
    assert("hos"@[0] != "3jn"@[0]);
    assert(spec_ascii_lowercase_chirho("Hosea"@).take(3) =~= "hos"@);
    assert forall|k: int| 0 <= k < 27 implies !#[trigger] spec_names_book_chirho("hos"@, k) by {
        lemma_book_initial_chirho(k);
        lemma_book_initial_classes_chirho(k);
        lemma_first_char_rules_out_chirho("hos"@, spec_book_name_chirho(k));
    }
}

proof fn lemma_abbreviation_75_chirho()
    ensures
        spec_names_book_chirho("joel"@, 28),
        forall|k: int| 0 <= k < 28 ==> !#[trigger] spec_names_book_chirho("joel"@, k),
{
    reveal_strlit("joel");
    reveal_strlit("Joel");
    reveal_strlit("jdg");
    reveal_strlit("1kgs");
    reveal_strlit("2kgs");
    reveal_strlit("sos");
    reveal_strlit("mk");
    reveal_strlit("lk");
    reveal_strlit("jn");
    reveal_strlit("php");
    reveal_strlit("phm");
    reveal_strlit("phlm");
    reveal_strlit("jas");
    reveal_strlit("1jn");
    reveal_strlit("2jn");
    reveal_strlit("3jn");
    assert("joel"@[0] != "1kgs"@[0]);
    assert("joel"@[0] != "2kgs"@[0]);
    assert("joel"@[0] != "phlm"@[0]);
    assert(spec_ascii_lowercase_chirho("Joel"@).take(4) =~= "joel"@);
    assert forall|k: int| 0 <= k < 28 implies !#[trigger] spec_names_book_chirho("joel"@, k) by {
        if k == 5 {
            reveal_strlit("Joshua");
            lemma_mismatch_rules_out_chirho("joel"@, spec_book_name_chirho(5), 2, 0);
        } else if k == 6 {
            reveal_strlit("Judges");
            lemma_mismatch_rules_out_chirho("joel"@, spec_book_name_chirho(6), 1, 0);
        } else if k == 17 {
            reveal_strlit("Job");
            lemma_mismatch_rules_out_chirho("joel"@, spec_book_name_chirho(17), 2, 0);
        } else if k == 23 {
            reveal_strlit("Jeremiah");
            lemma_mismatch_rules_out_chirho("joel"@, spec_book_name_chirho(23), 1, 0);
        } else {
            lemma_book_initial_chirho(k);
            lemma_book_initial_classes_chirho(k);
            lemma_first_char_rules_out_chirho("joel"@, spec_book_name_chirho(k));
        }
    }
}

proof fn lemma_abbreviation_76_chirho()
    ensures
        spec_names_book_chirho("amos"@, 29),
        forall|k: int| 0 <= k < 29 ==> !#[trigger] spec_names_book_chirho("amos"@, k),
{
    reveal_strlit("amos");
    reveal_strlit("Amos");
    reveal_strlit("jdg");
    reveal_strlit("1kgs");
    reveal_strlit("2kgs");
    reveal_strlit("sos");
    reveal_strlit("mk");
    reveal_strlit("lk");
    reveal_strlit("jn");
    reveal_strlit("php");
    reveal_strlit("phm");
    reveal_strlit("phlm");
    reveal_strlit("jas");
    reveal_strlit("1jn");
    reveal_strlit("2jn");
    reveal_strlit("3jn");
    assert("amos"@[0] != "1kgs"@[0]);
    assert("amos"@[0] != "2kgs"@[0]);
    assert("amos"@[0] != "phlm"@[0]);
    assert(spec_ascii_lowercase_chirho("Amos"@).take(4) =~= "amos"@);
    assert forall|k: int| 0 <= k < 29 implies !#[trigger] spec_names_book_chirho("amos"@, k) by {
        lemma_book_initial_chirho(k);
        lemma_book_initial_classes_chirho(k);
        lemma_first_char_rules_out_chirho("amos"@, spec_book_name_chirho(k));
    }
}

proof fn lemma_abbreviation_77_chirho()
    ensures
        spec_names_book_chirho("obadiah"@, 30),
        forall|k: int| 0 <= k < 30 ==> !#[trigger] spec_names_book_chirho("obadiah"@, k),
{
    reveal_strlit("obadiah");
    reveal_strlit("Obadiah");
    reveal_strlit("jdg");
    reveal_strlit("1kgs");
    reveal_strlit("2kgs");
    reveal_strlit("sos");
    reveal_strlit("mk");
    reveal_strlit("lk");
    reveal_strlit("jn");
    reveal_strlit("php");
    reveal_strlit("phm");
    reveal_strlit("phlm");
    reveal_strlit("jas");
    reveal_strlit("1jn");
    reveal_strlit("2jn");
    reveal_strlit("3jn");
    assert(spec_ascii_lowercase_chirho("Obadiah"@).take(7) =~= "obadiah"@);
    assert forall|k: int| 0 <= k < 30 implies !#[trigger] spec_names_book_chirho("obadiah"@, k) by {
        lemma_book_initial_chirho(k);
        lemma_book_initial_classes_chirho(k);
        lemma_first_char_rules_out_chirho("obadiah"@, spec_book_name_chirho(k));
    }
}

proof fn lemma_abbreviation_78_chirho()
    ensures
        spec_names_book_chirho("obad"@, 30),
        forall|k: int| 0 <= k < 30 ==> !#[trigger] spec_names_book_chirho("obad"@, k),
{
    reveal_strlit("obad");
    reveal_strlit("Obadiah");
    reveal_strlit("jdg");
    reveal_strlit("1kgs");
    reveal_strlit("2kgs");
    reveal_strlit("sos");
    reveal_strlit("mk");
    reveal_strlit("lk");
    reveal_strlit("jn");
    reveal_strlit("php");
    reveal_strlit("phm");
    reveal_strlit("phlm");
    reveal_strlit("jas");
    reveal_strlit("1jn");
    reveal_strlit("2jn");
    reveal_strlit("3jn");
    assert("obad"@[0] != "1kgs"@[0]);
    assert("obad"@[0] != "2kgs"@[0]);
    assert("obad"@[0] != "phlm"@[0]);
    assert(spec_ascii_lowercase_chirho("Obadiah"@).take(4) =~= "obad"@);
    assert forall|k: int| 0 <= k < 30 implies !#[trigger] spec_names_book_chirho("obad"@, k) by {
        lemma_book_initial_chirho(k);
        lemma_book_initial_classes_chirho(k);
        lemma_first_char_rules_out_chirho("obad"@, spec_book_name_chirho(k));
    }
}

proof fn lemma_abbreviation_79_chirho()
    ensures
        spec_names_book_chirho("oba"@, 30),
        forall|k: int| 0 <= k < 30 ==> !#[trigger] spec_names_book_chirho("oba"@, k),
{
    reveal_strlit("oba");
    reveal_strlit("Obadiah");
    reveal_strlit("jdg");
    reveal_strlit("1kgs");
    reveal_strlit("2kgs");
    reveal_strlit("sos");
    reveal_strlit("mk");
    reveal_strlit("lk");
    reveal_strlit("jn");
    reveal_strlit("php");
    reveal_strlit("phm");
    reveal_strlit("phlm");
    reveal_strlit("jas");
    reveal_strlit("1jn");
    reveal_strlit("2jn");
    reveal_strlit("3jn");
    assert("oba"@[0] != "jdg"@[0]);
    assert("oba"@[0] != "sos"@[0]);
    assert("oba"@[0] != "php"@[0]);
    assert("oba"@[0] != "phm"@[0]);
    assert("oba"@[0] != "jas"@[0]);
    assert("oba"@[0] != "1jn"@[0]);
    assert("oba"@[0] != "2jn"@[0]);
    assert("oba"@[0] != "3jn"@[0]);
    assert(spec_ascii_lowercase_chirho("Obadiah"@).take(3) =~= "oba"@);
    assert forall|k: int| 0 <= k < 30 implies !#[trigger] spec_names_book_chirho("oba"@, k) by {
        lemma_book_initial_chirho(k);
        lemma_book_initial_classes_chirho(k);
        lemma_first_char_rules_out_chirho("oba"@, spec_book_name_chirho(k));
    }
}

proof fn lemma_abbreviation_80_chirho()
    ensures
        spec_names_book_chirho("jonah"@, 31),
        forall|k: int| 0 <= k < 31 ==> !#[trigger] spec_names_book_chirho("jonah"@, k),
{
    reveal_strlit("jonah");
    reveal_strlit("Jonah");
    reveal_strlit("jdg");
    reveal_strlit("1kgs");
    reveal_strlit("2kgs");
    reveal_strlit("sos");
    reveal_strlit("mk");
    reveal_strlit("lk");
    reveal_strlit("jn");
    reveal_strlit("php");
    reveal_strlit("phm");
    reveal_strlit("phlm");
    reveal_strlit("jas");
    reveal_strlit("1jn");
    reveal_strlit("2jn");
    reveal_strlit("3jn");
    assert(spec_ascii_lowercase_chirho("Jonah"@).take(5) =~= "jonah"@);
    assert forall|k: int| 0 <= k < 31 implies !#[trigger] spec_names_book_chirho("jonah"@, k) by {
        if k == 5 {
            reveal_strlit("Joshua");
            lemma_mismatch_rules_out_chirho("jonah"@, spec_book_name_chirho(5), 2, 0);
        } else if k == 6 {
            reveal_strlit("Judges");
            lemma_mismatch_rules_out_chirho("jonah"@, spec_book_name_chirho(6), 1, 0);
        } else if k == 17 {
            reveal_strlit("Job");
            lemma_mismatch_rules_out_chirho("jonah"@, spec_book_name_chirho(17), 2, 0);
        } else if k == 23 {
            reveal_strlit("Jeremiah");
            lemma_mismatch_rules_out_chirho("jonah"@, spec_book_name_chirho(23), 1, 0);
        } else if k == 28 {
            reveal_strlit("Joel");
            lemma_mismatch_rules_out_chirho("jonah"@, spec_book_name_chirho(28), 2, 0);
        } else {
            lemma_book_initial_chirho(k);
            lemma_book_initial_classes_chirho(k);
            lemma_first_char_rules_out_chirho("jonah"@, spec_book_name_chirho(k));
        }
    }
}

proof fn lemma_abbreviation_81_chirho()
    ensures
        spec_names_book_chirho("jon"@, 31),
        forall|k: int| 0 <= k < 31 ==> !#[trigger] spec_names_book_chirho("jon"@, k),
{
    reveal_strlit("jon");
    reveal_strlit("Jonah");
    reveal_strlit("jdg");
    reveal_strlit("1kgs");
    reveal_strlit("2kgs");
    reveal_strlit("sos");
    reveal_strlit("mk");
    reveal_strlit("lk");
    reveal_strlit("jn");
    reveal_strlit("php");
    reveal_strlit("phm");
    reveal_strlit("phlm");
    reveal_strlit("jas");
    reveal_strlit("1jn");
    reveal_strlit("2jn");
    reveal_strlit("3jn");
    assert("jon"@[1] != "jdg"@[1]);
    assert("jon"@[0] != "sos"@[0]);
    assert("jon"@[0] != "php"@[0]);
    assert("jon"@[0] != "phm"@[0]);
    assert("jon"@[1] != "jas"@[1]);
    assert("jon"@[0] != "1jn"@[0]);
    assert("jon"@[0] != "2jn"@[0]);
    assert("jon"@[0] != "3jn"@[0]);
    assert(spec_ascii_lowercase_chirho("Jonah"@).take(3) =~= "jon"@);
    assert forall|k: int| 0 <= k < 31 implies !#[trigger] spec_names_book_chirho("jon"@, k) by {
        if k == 5 {
            reveal_strlit("Joshua");
            lemma_mismatch_rules_out_chirho("jon"@, spec_book_name_chirho(5), 2, 0);
        } else if k == 6 {
            reveal_strlit("Judges");
            lemma_mismatch_rules_out_chirho("jon"@, spec_book_name_chirho(6), 1, 0);
        } else if k == 17 {
            reveal_strlit("Job");
            lemma_mismatch_rules_out_chirho("jon"@, spec_book_name_chirho(17), 2, 0);
        } else if k == 23 {
            reveal_strlit("Jeremiah");
            lemma_mismatch_rules_out_chirho("jon"@, spec_book_name_chirho(23), 1, 0);
        } else if k == 28 {
            reveal_strlit("Joel");
            lemma_mismatch_rules_out_chirho("jon"@, spec_book_name_chirho(28), 2, 0);
        } else {
            lemma_book_initial_chirho(k);
            lemma_book_initial_classes_chirho(k);
            lemma_first_char_rules_out_chirho("jon"@, spec_book_name_chirho(k));
        }
    }
}

proof fn lemma_abbreviation_82_chirho()
    ensures
        spec_names_book_chirho("micah"@, 32),
        forall|k: int| 0 <= k < 32 ==> !#[trigger] spec_names_book_chirho("micah"@, k),
{
    reveal_strlit("micah");
    reveal_strlit("Micah");
    reveal_strlit("jdg");
    reveal_strlit("1kgs");
    reveal_strlit("2kgs");
    reveal_strlit("sos");
    reveal_strlit("mk");
    reveal_strlit("lk");
    reveal_strlit("jn");
    reveal_strlit("php");
    reveal_strlit("phm");
    reveal_strlit("phlm");
    reveal_strlit("jas");
    reveal_strlit("1jn");
    reveal_strlit("2jn");
    reveal_strlit("3jn");
    assert(spec_ascii_lowercase_chirho("Micah"@).take(5) =~= "micah"@);
    assert forall|k: int| 0 <= k < 32 implies !#[trigger] spec_names_book_chirho("micah"@, k) by {
        lemma_book_initial_chirho(k);
        lemma_book_initial_classes_chirho(k);
        lemma_first_char_rules_out_chirho("micah"@, spec_book_name_chirho(k));
    }
}

proof fn lemma_abbreviation_83_chirho()
    ensures
        spec_names_book_chirho("mic"@, 32),
        forall|k: int| 0 <= k < 32 ==> !#[trigger] spec_names_book_chirho("mic"@, k),
{
    reveal_strlit("mic");
    reveal_strlit("Micah");
    reveal_strlit("jdg");
    reveal_strlit("1kgs");
    reveal_strlit("2kgs");
    reveal_strlit("sos");
    reveal_strlit("mk");
    reveal_strlit("lk");
    reveal_strlit("jn");
    reveal_strlit("php");
    reveal_strlit("phm");
    reveal_strlit("phlm");
    reveal_strlit("jas");
    reveal_strlit("1jn");
    reveal_strlit("2jn");
    reveal_strlit("3jn");
    assert("mic"@[0] != "jdg"@[0]);
    assert("mic"@[0] != "sos"@[0]);
    assert("mic"@[0] != "php"@[0]);
    assert("mic"@[0] != "phm"@[0]);
    assert("mic"@[0] != "jas"@[0]);
    assert("mic"@[0] != "1jn"@[0]);
    assert("mic"@[0] != "2jn"@[0]);
    assert("mic"@[0] != "3jn"@[0]);
    assert(spec_ascii_lowercase_chirho("Micah"@).take(3) =~= "mic"@);
    assert forall|k: int| 0 <= k < 32 implies !#[trigger] spec_names_book_chirho("mic"@, k) by {
        lemma_book_initial_chirho(k);
        lemma_book_initial_classes_chirho(k);
        lemma_first_char_rules_out_chirho("mic"@, spec_book_name_chirho(k));
    }
}

proof fn lemma_abbreviation_84_chirho()
    ensures
        spec_names_book_chirho("nahum"@, 33),
        forall|k: int| 0 <= k < 33 ==> !#[trigger] spec_names_book_chirho("nahum"@, k),
{
    reveal_strlit("nahum");
    reveal_strlit("Nahum");
    reveal_strlit("jdg");
    reveal_strlit("1kgs");
    reveal_strlit("2kgs");
    reveal_strlit("sos");
    reveal_strlit("mk");
    reveal_strlit("lk");
    reveal_strlit("jn");
    reveal_strlit("php");
    reveal_strlit("phm");
    reveal_strlit("phlm");
    reveal_strlit("jas");
    reveal_strlit("1jn");
    reveal_strlit("2jn");
    reveal_strlit("3jn");
    assert(spec_ascii_lowercase_chirho("Nahum"@).take(5) =~= "nahum"@);
    assert forall|k: int| 0 <= k < 33 implies !#[trigger] spec_names_book_chirho("nahum"@, k) by {
        if k == 3 {
            reveal_strlit("Numbers");
            lemma_mismatch_rules_out_chirho("nahum"@, spec_book_name_chirho(3), 1, 0);
        } else if k == 15 {
            reveal_strlit("Nehemiah");
            lemma_mismatch_rules_out_chirho("nahum"@, spec_book_name_chirho(15), 1, 0);
        } else {
            lemma_book_initial_chirho(k);
            lemma_book_initial_classes_chirho(k);
            lemma_first_char_rules_out_chirho("nahum"@, spec_book_name_chirho(k));
        }
    }
}

proof fn lemma_abbreviation_85_chirho()
    ensures
        spec_names_book_chirho("nah"@, 33),
        forall|k: int| 0 <= k < 33 ==> !#[trigger] spec_names_book_chirho("nah"@, k),
{
    reveal_strlit("nah");
    reveal_strlit("Nahum");
    reveal_strlit("jdg");
    reveal_strlit("1kgs");
    reveal_strlit("2kgs");
    reveal_strlit("sos");
    reveal_strlit("mk");
    reveal_strlit("lk");
    reveal_strlit("jn");
    reveal_strlit("php");
    reveal_strlit("phm");
    reveal_strlit("phlm");
    reveal_strlit("jas");
    reveal_strlit("1jn");
    reveal_strlit("2jn");
    reveal_strlit("3jn");
    assert("nah"@[0] != "jdg"@[0]);
    assert("nah"@[0] != "sos"@[0]);
    assert("nah"@[0] != "php"@[0]);
    assert("nah"@[0] != "phm"@[0]);
    assert("nah"@[0] != "jas"@[0]);
    assert("nah"@[0] != "1jn"@[0]);
    assert("nah"@[0] != "2jn"@[0]);
    assert("nah"@[0] != "3jn"@[0]);
    assert(spec_ascii_lowercase_chirho("Nahum"@).take(3) =~= "nah"@);
    assert forall|k: int| 0 <= k < 33 implies !#[trigger] spec_names_book_chirho("nah"@, k) by {
        if k == 3 {
            reveal_strlit("Numbers");
            lemma_mismatch_rules_out_chirho("nah"@, spec_book_name_chirho(3), 1, 0);
        } else if k == 15 {
            reveal_strlit("Nehemiah");
            lemma_mismatch_rules_out_chirho("nah"@, spec_book_name_chirho(15), 1, 0);
        } else {
            lemma_book_initial_chirho(k);
            lemma_book_initial_classes_chirho(k);
            lemma_first_char_rules_out_chirho("nah"@, spec_book_name_chirho(k));
        }
    }
}

proof fn lemma_abbreviation_86_chirho()
    ensures
        spec_names_book_chirho("habakkuk"@, 34),
        forall|k: int| 0 <= k < 34 ==> !#[trigger] spec_names_book_chirho("habakkuk"@, k),
{
    reveal_strlit("habakkuk");
    reveal_strlit("Habakkuk");
    reveal_strlit("jdg");
    reveal_strlit("1kgs");
    reveal_strlit("2kgs");
    reveal_strlit("sos");
    reveal_strlit("mk");
    reveal_strlit("lk");
    reveal_strlit("jn");
    reveal_strlit("php");
    reveal_strlit("phm");
    reveal_strlit("phlm");
    reveal_strlit("jas");
    reveal_strlit("1jn");
    reveal_strlit("2jn");
    reveal_strlit("3jn");
    assert(spec_ascii_lowercase_chirho("Habakkuk"@).take(8) =~= "habakkuk"@);
    assert forall|k: int| 0 <= k < 34 implies !#[trigger] spec_names_book_chirho("habakkuk"@, k) by {
        if k == 27 {
            reveal_strlit("Hosea");
            lemma_mismatch_rules_out_chirho("habakkuk"@, spec_book_name_chirho(27), 1, 0);
        } else {
            lemma_book_initial_chirho(k);
            lemma_book_initial_classes_chirho(k);
            lemma_first_char_rules_out_chirho("habakkuk"@, spec_book_name_chirho(k));
        }
    }
}

proof fn lemma_abbreviation_87_chirho()
    ensures
        spec_names_book_chirho("hab"@, 34),
        forall|k: int| 0 <= k < 34 ==> !#[trigger] spec_names_book_chirho("hab"@, k),
{
    reveal_strlit("hab");
    reveal_strlit("Habakkuk");
    reveal_strlit("jdg");
    reveal_strlit("1kgs");
    reveal_strlit("2kgs");
    reveal_strlit("sos");
    reveal_strlit("mk");
    reveal_strlit("lk");
    reveal_strlit("jn");
    reveal_strlit("php");
    reveal_strlit("phm");
    reveal_strlit("phlm");
    reveal_strlit("jas");
    reveal_strlit("1jn");
    reveal_strlit("2jn");
    reveal_strlit("3jn");
    assert("hab"@[0] != "jdg"@[0]);
    assert("hab"@[0] != "sos"@[0]);
    assert("hab"@[0] != "php"@[0]);
    assert("hab"@[0] != "phm"@[0]);
    assert("hab"@[0] != "jas"@[0]);
    assert("hab"@[0] != "1jn"@[0]);
    assert("hab"@[0] != "2jn"@[0]);
    assert("hab"@[0] != "3jn"@[0]);
    assert(spec_ascii_lowercase_chirho("Habakkuk"@).take(3) =~= "hab"@);
    assert forall|k: int| 0 <= k < 34 implies !#[trigger] spec_names_book_chirho("hab"@, k) by {
        if k == 27 {
            reveal_strlit("Hosea");
            lemma_mismatch_rules_out_chirho("hab"@, spec_book_name_chirho(27), 1, 0);
        } else {
            lemma_book_initial_chirho(k);
            lemma_book_initial_classes_chirho(k);
            lemma_first_char_rules_out_chirho("hab"@, spec_book_name_chirho(k));
        }
    }
}

proof fn lemma_abbreviation_88_chirho()
    ensures
        spec_names_book_chirho("zephaniah"@, 35),
        forall|k: int| 0 <= k < 35 ==> !#[trigger] spec_names_book_chirho("zephaniah"@, k),
{
    reveal_strlit("zephaniah");
    reveal_strlit("Zephaniah");
    reveal_strlit("jdg");
    reveal_strlit("1kgs");
    reveal_strlit("2kgs");
    reveal_strlit("sos");
    reveal_strlit("mk");
    reveal_strlit("lk");
    reveal_strlit("jn");
    reveal_strlit("php");
    reveal_strlit("phm");
    reveal_strlit("phlm");
    reveal_strlit("jas");
    reveal_strlit("1jn");
    reveal_strlit("2jn");
    reveal_strlit("3jn");
    assert(spec_ascii_lowercase_chirho("Zephaniah"@).take(9) =~= "zephaniah"@);
    assert forall|k: int| 0 <= k < 35 implies !#[trigger] spec_names_book_chirho("zephaniah"@, k) by {
        lemma_book_initial_chirho(k);
        lemma_book_initial_classes_chirho(k);
        lemma_first_char_rules_out_chirho("zephaniah"@, spec_book_name_chirho(k));
    }
}

proof fn lemma_abbreviation_89_chirho()
    ensures
        spec_names_book_chirho("zeph"@, 35),
        forall|k: int| 0 <= k < 35 ==> !#[trigger] spec_names_book_chirho("zeph"@, k),
{
    reveal_strlit("zeph");
    reveal_strlit("Zephaniah");
    reveal_strlit("jdg");
    reveal_strlit("1kgs");
    reveal_strlit("2kgs");
    reveal_strlit("sos");
    reveal_strlit("mk");
    reveal_strlit("lk");
    reveal_strlit("jn");
    reveal_strlit("php");
    reveal_strlit("phm");
    reveal_strlit("phlm");
    reveal_strlit("jas");
    reveal_strlit("1jn");
    reveal_strlit("2jn");
    reveal_strlit("3jn");
    assert("zeph"@[0] != "1kgs"@[0]);
    assert("zeph"@[0] != "2kgs"@[0]);
    assert("zeph"@[0] != "phlm"@[0]);
    assert(spec_ascii_lowercase_chirho("Zephaniah"@).take(4) =~= "zeph"@);
    assert forall|k: int| 0 <= k < 35 implies !#[trigger] spec_names_book_chirho("zeph"@, k) by {
        lemma_book_initial_chirho(k);
        lemma_book_initial_classes_chirho(k);
        lemma_first_char_rules_out_chirho("zeph"@, spec_book_name_chirho(k));
    }
}

proof fn lemma_abbreviation_90_chirho()
    ensures
        spec_names_book_chirho("zep"@, 35),
        forall|k: int| 0 <= k < 35 ==> !#[trigger] spec_names_book_chirho("zep"@, k),
{
    reveal_strlit("zep");
    reveal_strlit("Zephaniah");
    reveal_strlit("jdg");
    reveal_strlit("1kgs");
    reveal_strlit("2kgs");
    reveal_strlit("sos");
    reveal_strlit("mk");
    reveal_strlit("lk");
    reveal_strlit("jn");
    reveal_strlit("php");
    reveal_strlit("phm");
    reveal_strlit("phlm");
    reveal_strlit("jas");
    reveal_strlit("1jn");
    reveal_strlit("2jn");
    reveal_strlit("3jn");
    assert("zep"@[0] != "jdg"@[0]);
    assert("zep"@[0] != "sos"@[0]);
    assert("zep"@[0] != "php"@[0]);
    assert("zep"@[0] != "phm"@[0]);
    assert("zep"@[0] != "jas"@[0]);
    assert("zep"@[0] != "1jn"@[0]);
    assert("zep"@[0] != "2jn"@[0]);
    assert("zep"@[0] != "3jn"@[0]);
    assert(spec_ascii_lowercase_chirho("Zephaniah"@).take(3) =~= "zep"@);
    assert forall|k: int| 0 <= k < 35 implies !#[trigger] spec_names_book_chirho("zep"@, k) by {
        lemma_book_initial_chirho(k);
        lemma_book_initial_classes_chirho(k);
        lemma_first_char_rules_out_chirho("zep"@, spec_book_name_chirho(k));
    }
}

proof fn lemma_abbreviation_91_chirho()
    ensures
        spec_names_book_chirho("haggai"@, 36),
        forall|k: int| 0 <= k < 36 ==> !#[trigger] spec_names_book_chirho("haggai"@, k),
{
    reveal_strlit("haggai");
    reveal_strlit("Haggai");
    reveal_strlit("jdg");
    reveal_strlit("1kgs");
    reveal_strlit("2kgs");
    reveal_strlit("sos");
    reveal_strlit("mk");
    reveal_strlit("lk");
    reveal_strlit("jn");
    reveal_strlit("php");
    reveal_strlit("phm");
    reveal_strlit("phlm");
    reveal_strlit("jas");
    reveal_strlit("1jn");
    reveal_strlit("2jn");
    reveal_strlit("3jn");
    assert(spec_ascii_lowercase_chirho("Haggai"@).take(6) =~= "haggai"@);
    assert forall|k: int| 0 <= k < 36 implies !#[trigger] spec_names_book_chirho("haggai"@, k) by {
        if k == 27 {
            reveal_strlit("Hosea");
            lemma_mismatch_rules_out_chirho("haggai"@, spec_book_name_chirho(27), 1, 0);
        } else if k == 34 {
            reveal_strlit("Habakkuk");
            lemma_mismatch_rules_out_chirho("haggai"@, spec_book_name_chirho(34), 2, 0);
        } else {
            lemma_book_initial_chirho(k);
            lemma_book_initial_classes_chirho(k);
            lemma_first_char_rules_out_chirho("haggai"@, spec_book_name_chirho(k));
        }
    }
}

proof fn lemma_abbreviation_92_chirho()
    ensures
        spec_names_book_chirho("hag"@, 36),
        forall|k: int| 0 <= k < 36 ==> !#[trigger] spec_names_book_chirho("hag"@, k),
{
    reveal_strlit("hag");
    reveal_strlit("Haggai");
    reveal_strlit("jdg");
    reveal_strlit("1kgs");
    reveal_strlit("2kgs");
    reveal_strlit("sos");
    reveal_strlit("mk");
    reveal_strlit("lk");
    reveal_strlit("jn");
    reveal_strlit("php");
    reveal_strlit("phm");
    reveal_strlit("phlm");
    reveal_strlit("jas");
    reveal_strlit("1jn");
    reveal_strlit("2jn");
    reveal_strlit("3jn");
    assert("hag"@[0] != "jdg"@[0]);
    assert("hag"@[0] != "sos"@[0]);
    assert("hag"@[0] != "php"@[0]);
    assert("hag"@[0] != "phm"@[0]);
    assert("hag"@[0] != "jas"@[0]);
    assert("hag"@[0] != "1jn"@[0]);
    assert("hag"@[0] != "2jn"@[0]);
    assert("hag"@[0] != "3jn"@[0]);
    assert(spec_ascii_lowercase_chirho("Haggai"@).take(3) =~= "hag"@);
    assert forall|k: int| 0 <= k < 36 implies !#[trigger] spec_names_book_chirho("hag"@, k) by {
        if k == 27 {
            reveal_strlit("Hosea");
            lemma_mismatch_rules_out_chirho("hag"@, spec_book_name_chirho(27), 1, 0);
        } else if k == 34 {
            reveal_strlit("Habakkuk");
            lemma_mismatch_rules_out_chirho("hag"@, spec_book_name_chirho(34), 2, 0);
        } else {
            lemma_book_initial_chirho(k);
            lemma_book_initial_classes_chirho(k);
            lemma_first_char_rules_out_chirho("hag"@, spec_book_name_chirho(k));
        }
    }
}

proof fn lemma_abbreviation_93_chirho()
    ensures
        spec_names_book_chirho("zechariah"@, 37),
        forall|k: int| 0 <= k < 37 ==> !#[trigger] spec_names_book_chirho("zechariah"@, k),
{
    reveal_strlit("zechariah");
    reveal_strlit("Zechariah");
    reveal_strlit("jdg");
    reveal_strlit("1kgs");
    reveal_strlit("2kgs");
    reveal_strlit("sos");
    reveal_strlit("mk");
    reveal_strlit("lk");
    reveal_strlit("jn");
    reveal_strlit("php");
    reveal_strlit("phm");
    reveal_strlit("phlm");
    reveal_strlit("jas");
    reveal_strlit("1jn");
    reveal_strlit("2jn");
    reveal_strlit("3jn");
    assert(spec_ascii_lowercase_chirho("Zechariah"@).take(9) =~= "zechariah"@);
    assert forall|k: int| 0 <= k < 37 implies !#[trigger] spec_names_book_chirho("zechariah"@, k) by {
        if k == 35 {
            reveal_strlit("Zephaniah");
            lemma_mismatch_rules_out_chirho("zechariah"@, spec_book_name_chirho(35), 2, 0);
        } else {
            lemma_book_initial_chirho(k);
            lemma_book_initial_classes_chirho(k);
            lemma_first_char_rules_out_chirho("zechariah"@, spec_book_name_chirho(k));
        }
    }
}

proof fn lemma_abbreviation_94_chirho()
    ensures
        spec_names_book_chirho("zech"@, 37),
        forall|k: int| 0 <= k < 37 ==> !#[trigger] spec_names_book_chirho("zech"@, k),
{
    reveal_strlit("zech");
    reveal_strlit("Zechariah");
    reveal_strlit("jdg");
    reveal_strlit("1kgs");
    reveal_strlit("2kgs");
    reveal_strlit("sos");
    reveal_strlit("mk");
    reveal_strlit("lk");
    reveal_strlit("jn");
    reveal_strlit("php");
    reveal_strlit("phm");
    reveal_strlit("phlm");
    reveal_strlit("jas");
    reveal_strlit("1jn");
    reveal_strlit("2jn");
    reveal_strlit("3jn");
    assert("zech"@[0] != "1kgs"@[0]);
    assert("zech"@[0] != "2kgs"@[0]);
    assert("zech"@[0] != "phlm"@[0]);
    assert(spec_ascii_lowercase_chirho("Zechariah"@).take(4) =~= "zech"@);
    assert forall|k: int| 0 <= k < 37 implies !#[trigger] spec_names_book_chirho("zech"@, k) by {
        if k == 35 {
            reveal_strlit("Zephaniah");
            lemma_mismatch_rules_out_chirho("zech"@, spec_book_name_chirho(35), 2, 0);
        } else {
            lemma_book_initial_chirho(k);
            lemma_book_initial_classes_chirho(k);
            lemma_first_char_rules_out_chirho("zech"@, spec_book_name_chirho(k));
        }
    }
}

proof fn lemma_abbreviation_95_chirho()
    ensures
        spec_names_book_chirho("zec"@, 37),
        forall|k: int| 0 <= k < 37 ==> !#[trigger] spec_names_book_chirho("zec"@, k),
{
    reveal_strlit("zec");
    reveal_strlit("Zechariah");
    reveal_strlit("jdg");
    reveal_strlit("1kgs");
    reveal_strlit("2kgs");
    reveal_strlit("sos");
    reveal_strlit("mk");
    reveal_strlit("lk");
    reveal_strlit("jn");
    reveal_strlit("php");
    reveal_strlit("phm");
    reveal_strlit("phlm");
    reveal_strlit("jas");
    reveal_strlit("1jn");
    reveal_strlit("2jn");
    reveal_strlit("3jn");
    assert("zec"@[0] != "jdg"@[0]);
    assert("zec"@[0] != "sos"@[0]);
    assert("zec"@[0] != "php"@[0]);
    assert("zec"@[0] != "phm"@[0]);
    assert("zec"@[0] != "jas"@[0]);
    assert("zec"@[0] != "1jn"@[0]);
    assert("zec"@[0] != "2jn"@[0]);
    assert("zec"@[0] != "3jn"@[0]);
    assert(spec_ascii_lowercase_chirho("Zechariah"@).take(3) =~= "zec"@);
    assert forall|k: int| 0 <= k < 37 implies !#[trigger] spec_names_book_chirho("zec"@, k) by {
        if k == 35 {
            reveal_strlit("Zephaniah");
            lemma_mismatch_rules_out_chirho("zec"@, spec_book_name_chirho(35), 2, 0);
        } else {
            lemma_book_initial_chirho(k);
            lemma_book_initial_classes_chirho(k);
            lemma_first_char_rules_out_chirho("zec"@, spec_book_name_chirho(k));
        }
    }
}

proof fn lemma_abbreviation_96_chirho()
    ensures
        spec_names_book_chirho("malachi"@, 38),
        forall|k: int| 0 <= k < 38 ==> !#[trigger] spec_names_book_chirho("malachi"@, k),
{
    reveal_strlit("malachi");
    reveal_strlit("Malachi");
    reveal_strlit("jdg");
    reveal_strlit("1kgs");
    reveal_strlit("2kgs");
    reveal_strlit("sos");
    reveal_strlit("mk");
    reveal_strlit("lk");
    reveal_strlit("jn");
    reveal_strlit("php");
    reveal_strlit("phm");
    reveal_strlit("phlm");
    reveal_strlit("jas");
    reveal_strlit("1jn");
    reveal_strlit("2jn");
    reveal_strlit("3jn");
    assert(spec_ascii_lowercase_chirho("Malachi"@).take(7) =~= "malachi"@);
    assert forall|k: int| 0 <= k < 38 implies !#[trigger] spec_names_book_chirho("malachi"@, k) by {
        if k == 32 {
            reveal_strlit("Micah");
            lemma_mismatch_rules_out_chirho("malachi"@, spec_book_name_chirho(32), 1, 0);
        } else {
            lemma_book_initial_chirho(k);
            lemma_book_initial_classes_chirho(k);
            lemma_first_char_rules_out_chirho("malachi"@, spec_book_name_chirho(k));
        }
    }
}

proof fn lemma_abbreviation_97_chirho()
    ensures
        spec_names_book_chirho("mal"@, 38),
        forall|k: int| 0 <= k < 38 ==> !#[trigger] spec_names_book_chirho("mal"@, k),
{
    reveal_strlit("mal");
    reveal_strlit("Malachi");
    reveal_strlit("jdg");
    reveal_strlit("1kgs");
    reveal_strlit("2kgs");
    reveal_strlit("sos");
    reveal_strlit("mk");
    reveal_strlit("lk");
    reveal_strlit("jn");
    reveal_strlit("php");
    reveal_strlit("phm");
    reveal_strlit("phlm");
    reveal_strlit("jas");
    reveal_strlit("1jn");
    reveal_strlit("2jn");
    reveal_strlit("3jn");
    assert("mal"@[0] != "jdg"@[0]);
    assert("mal"@[0] != "sos"@[0]);
    assert("mal"@[0] != "php"@[0]);
    assert("mal"@[0] != "phm"@[0]);
    assert("mal"@[0] != "jas"@[0]);
    assert("mal"@[0] != "1jn"@[0]);
    assert("mal"@[0] != "2jn"@[0]);
    assert("mal"@[0] != "3jn"@[0]);
    assert(spec_ascii_lowercase_chirho("Malachi"@).take(3) =~= "mal"@);
    assert forall|k: int| 0 <= k < 38 implies !#[trigger] spec_names_book_chirho("mal"@, k) by {
        if k == 32 {
            reveal_strlit("Micah");
            lemma_mismatch_rules_out_chirho("mal"@, spec_book_name_chirho(32), 1, 0);
        } else {
            lemma_book_initial_chirho(k);
            lemma_book_initial_classes_chirho(k);
            lemma_first_char_rules_out_chirho("mal"@, spec_book_name_chirho(k));
        }
    }
}

proof fn lemma_abbreviation_98_chirho()
    ensures
        spec_names_book_chirho("matthew"@, 39),
        forall|k: int| 0 <= k < 39 ==> !#[trigger] spec_names_book_chirho("matthew"@, k),
{
    reveal_strlit("matthew");
    reveal_strlit("Matthew");
    reveal_strlit("jdg");
    reveal_strlit("1kgs");
    reveal_strlit("2kgs");
    reveal_strlit("sos");
    reveal_strlit("mk");
    reveal_strlit("lk");
    reveal_strlit("jn");
    reveal_strlit("php");
    reveal_strlit("phm");
    reveal_strlit("phlm");
    reveal_strlit("jas");
    reveal_strlit("1jn");
    reveal_strlit("2jn");
    reveal_strlit("3jn");
    assert(spec_ascii_lowercase_chirho("Matthew"@).take(7) =~= "matthew"@);
    assert forall|k: int| 0 <= k < 39 implies !#[trigger] spec_names_book_chirho("matthew"@, k) by {
        if k == 32 {
            reveal_strlit("Micah");
            lemma_mismatch_rules_out_chirho("matthew"@, spec_book_name_chirho(32), 1, 0);
        } else if k == 38 {
            reveal_strlit("Malachi");
            lemma_mismatch_rules_out_chirho("matthew"@, spec_book_name_chirho(38), 2, 0);
        } else {
            lemma_book_initial_chirho(k);
            lemma_book_initial_classes_chirho(k);
            lemma_first_char_rules_out_chirho("matthew"@, spec_book_name_chirho(k));
        }
    }
}

proof fn lemma_abbreviation_99_chirho()
    ensures
        spec_names_book_chirho("matt"@, 39),
        forall|k: int| 0 <= k < 39 ==> !#[trigger] spec_names_book_chirho("matt"@, k),
{
    reveal_strlit("matt");
    reveal_strlit("Matthew");
    reveal_strlit("jdg");
    reveal_strlit("1kgs");
    reveal_strlit("2kgs");
    reveal_strlit("sos");
    reveal_strlit("mk");
    reveal_strlit("lk");
    reveal_strlit("jn");
    reveal_strlit("php");
    reveal_strlit("phm");
    reveal_strlit("phlm");
    reveal_strlit("jas");
    reveal_strlit("1jn");
    reveal_strlit("2jn");
    reveal_strlit("3jn");
    assert("matt"@[0] != "1kgs"@[0]);
    assert("matt"@[0] != "2kgs"@[0]);
    assert("matt"@[0] != "phlm"@[0]);
    assert(spec_ascii_lowercase_chirho("Matthew"@).take(4) =~= "matt"@);
    assert forall|k: int| 0 <= k < 39 implies !#[trigger] spec_names_book_chirho("matt"@, k) by {
        if k == 32 {
            reveal_strlit("Micah");
            lemma_mismatch_rules_out_chirho("matt"@, spec_book_name_chirho(32), 1, 0);
        } else if k == 38 {
            reveal_strlit("Malachi");
            lemma_mismatch_rules_out_chirho("matt"@, spec_book_name_chirho(38), 2, 0);
        } else {
            lemma_book_initial_chirho(k);
            lemma_book_initial_classes_chirho(k);
            lemma_first_char_rules_out_chirho("matt"@, spec_book_name_chirho(k));
        }
    }
}

proof fn lemma_abbreviation_100_chirho()
    ensures
        spec_names_book_chirho("mat"@, 39),
        forall|k: int| 0 <= k < 39 ==> !#[trigger] spec_names_book_chirho("mat"@, k),
{
    reveal_strlit("mat");
    reveal_strlit("Matthew");
    reveal_strlit("jdg");
    reveal_strlit("1kgs");
    reveal_strlit("2kgs");
    reveal_strlit("sos");
    reveal_strlit("mk");
    reveal_strlit("lk");
    reveal_strlit("jn");
    reveal_strlit("php");
    reveal_strlit("phm");
    reveal_strlit("phlm");
    reveal_strlit("jas");
    reveal_strlit("1jn");
    reveal_strlit("2jn");
    reveal_strlit("3jn");
    assert("mat"@[0] != "jdg"@[0]);
    assert("mat"@[0] != "sos"@[0]);
    assert("mat"@[0] != "php"@[0]);
    assert("mat"@[0] != "phm"@[0]);
    assert("mat"@[0] != "jas"@[0]);
    assert("mat"@[0] != "1jn"@[0]);
    assert("mat"@[0] != "2jn"@[0]);
    assert("mat"@[0] != "3jn"@[0]);
    assert(spec_ascii_lowercase_chirho("Matthew"@).take(3) =~= "mat"@);
    assert forall|k: int| 0 <= k < 39 implies !#[trigger] spec_names_book_chirho("mat"@, k) by {
        if k == 32 {
            reveal_strlit("Micah");
            lemma_mismatch_rules_out_chirho("mat"@, spec_book_name_chirho(32), 1, 0);
        } else if k == 38 {
            reveal_strlit("Malachi");
            lemma_mismatch_rules_out_chirho("mat"@, spec_book_name_chirho(38), 2, 0);
        } else {
            lemma_book_initial_chirho(k);
            lemma_book_initial_classes_chirho(k);
            lemma_first_char_rules_out_chirho("mat"@, spec_book_name_chirho(k));
        }
    }
}

proof fn lemma_abbreviation_101_chirho()
    ensures
        spec_names_book_chirho("mark"@, 40),
        forall|k: int| 0 <= k < 40 ==> !#[trigger] spec_names_book_chirho("mark"@, k),
{
    reveal_strlit("mark");
    reveal_strlit("Mark");
    reveal_strlit("jdg");
    reveal_strlit("1kgs");
    reveal_strlit("2kgs");
    reveal_strlit("sos");
    reveal_strlit("mk");
    reveal_strlit("lk");
    reveal_strlit("jn");
    reveal_strlit("php");
    reveal_strlit("phm");
    reveal_strlit("phlm");
    reveal_strlit("jas");
    reveal_strlit("1jn");
    reveal_strlit("2jn");
    reveal_strlit("3jn");
    assert("mark"@[0] != "1kgs"@[0]);
    assert("mark"@[0] != "2kgs"@[0]);
    assert("mark"@[0] != "phlm"@[0]);
    assert(spec_ascii_lowercase_chirho("Mark"@).take(4) =~= "mark"@);
    assert forall|k: int| 0 <= k < 40 implies !#[trigger] spec_names_book_chirho("mark"@, k) by {
        if k == 32 {
            reveal_strlit("Micah");
            lemma_mismatch_rules_out_chirho("mark"@, spec_book_name_chirho(32), 1, 0);
        } else if k == 38 {
            reveal_strlit("Malachi");
            lemma_mismatch_rules_out_chirho("mark"@, spec_book_name_chirho(38), 2, 0);
        } else if k == 39 {
            reveal_strlit("Matthew");
            lemma_mismatch_rules_out_chirho("mark"@, spec_book_name_chirho(39), 2, 0);
        } else {
            lemma_book_initial_chirho(k);
            lemma_book_initial_classes_chirho(k);
            lemma_first_char_rules_out_chirho("mark"@, spec_book_name_chirho(k));
        }
    }
}

proof fn lemma_abbreviation_102_chirho()
    ensures
        spec_names_book_chirho("mk"@, 40),
        forall|k: int| 0 <= k < 40 ==> !#[trigger] spec_names_book_chirho("mk"@, k),
{
    reveal_strlit("mk");
    reveal_strlit("Mark");
    reveal_strlit("jdg");
    reveal_strlit("1kgs");
    reveal_strlit("2kgs");
    reveal_strlit("sos");
    reveal_strlit("mk");
    reveal_strlit("lk");
    reveal_strlit("jn");
    reveal_strlit("php");
    reveal_strlit("phm");
    reveal_strlit("phlm");
    reveal_strlit("jas");
    reveal_strlit("1jn");
    reveal_strlit("2jn");
    reveal_strlit("3jn");
    assert("mk"@[0] != "lk"@[0]);
    assert("mk"@[0] != "jn"@[0]);
    assert(spec_short_form_chirho("mk"@, 40));
    assert forall|k: int| 0 <= k < 40 implies !#[trigger] spec_names_book_chirho("mk"@, k) by {
        if k == 32 {
            reveal_strlit("Micah");
            lemma_mismatch_rules_out_chirho("mk"@, spec_book_name_chirho(32), 1, 0);
        } else if k == 38 {
            reveal_strlit("Malachi");
            lemma_mismatch_rules_out_chirho("mk"@, spec_book_name_chirho(38), 1, 0);
        } else if k == 39 {
            reveal_strlit("Matthew");
            lemma_mismatch_rules_out_chirho("mk"@, spec_book_name_chirho(39), 1, 0);
        } else {
            lemma_book_initial_chirho(k);
            lemma_book_initial_classes_chirho(k);
            lemma_first_char_rules_out_chirho("mk"@, spec_book_name_chirho(k));
        }
    }
}

proof fn lemma_abbreviation_103_chirho()
    ensures
        spec_names_book_chirho("mar"@, 40),
        forall|k: int| 0 <= k < 40 ==> !#[trigger] spec_names_book_chirho("mar"@, k),
{
    reveal_strlit("mar");
    reveal_strlit("Mark");
    reveal_strlit("jdg");
    reveal_strlit("1kgs");
    reveal_strlit("2kgs");
    reveal_strlit("sos");
    reveal_strlit("mk");
    reveal_strlit("lk");
    reveal_strlit("jn");
    reveal_strlit("php");
    reveal_strlit("phm");
    reveal_strlit("phlm");
    reveal_strlit("jas");
    reveal_strlit("1jn");
    reveal_strlit("2jn");
    reveal_strlit("3jn");
    assert("mar"@[0] != "jdg"@[0]);
    assert("mar"@[0] != "sos"@[0]);
    assert("mar"@[0] != "php"@[0]);
    assert("mar"@[0] != "phm"@[0]);
    assert("mar"@[0] != "jas"@[0]);
    assert("mar"@[0] != "1jn"@[0]);
    assert("mar"@[0] != "2jn"@[0]);
    assert("mar"@[0] != "3jn"@[0]);
    assert(spec_ascii_lowercase_chirho("Mark"@).take(3) =~= "mar"@);
    assert forall|k: int| 0 <= k < 40 implies !#[trigger] spec_names_book_chirho("mar"@, k) by {
        if k == 32 {
            reveal_strlit("Micah");
            lemma_mismatch_rules_out_chirho("mar"@, spec_book_name_chirho(32), 1, 0);
        } else if k == 38 {
            reveal_strlit("Malachi");
            lemma_mismatch_rules_out_chirho("mar"@, spec_book_name_chirho(38), 2, 0);
        } else if k == 39 {
            reveal_strlit("Matthew");
            lemma_mismatch_rules_out_chirho("mar"@, spec_book_name_chirho(39), 2, 0);
        } else {
            lemma_book_initial_chirho(k);
            lemma_book_initial_classes_chirho(k);
            lemma_first_char_rules_out_chirho("mar"@, spec_book_name_chirho(k));
        }
    }
}

proof fn lemma_abbreviation_104_chirho()
    ensures
        spec_names_book_chirho("luke"@, 41),
        forall|k: int| 0 <= k < 41 ==> !#[trigger] spec_names_book_chirho("luke"@, k),
{
    reveal_strlit("luke");
    reveal_strlit("Luke");
    reveal_strlit("jdg");
    reveal_strlit("1kgs");
    reveal_strlit("2kgs");
    reveal_strlit("sos");
    reveal_strlit("mk");
    reveal_strlit("lk");
    reveal_strlit("jn");
    reveal_strlit("php");
    reveal_strlit("phm");
    reveal_strlit("phlm");
    reveal_strlit("jas");
    reveal_strlit("1jn");
    reveal_strlit("2jn");
    reveal_strlit("3jn");
    assert("luke"@[0] != "1kgs"@[0]);
    assert("luke"@[0] != "2kgs"@[0]);
    assert("luke"@[0] != "phlm"@[0]);
    assert(spec_ascii_lowercase_chirho("Luke"@).take(4) =~= "luke"@);
    assert forall|k: int| 0 <= k < 41 implies !#[trigger] spec_names_book_chirho("luke"@, k) by {
        if k == 2 {
            reveal_strlit("Leviticus");
            lemma_mismatch_rules_out_chirho("luke"@, spec_book_name_chirho(2), 1, 0);
        } else if k == 24 {
            reveal_strlit("Lamentations");
            lemma_mismatch_rules_out_chirho("luke"@, spec_book_name_chirho(24), 1, 0);
        } else {
            lemma_book_initial_chirho(k);
            lemma_book_initial_classes_chirho(k);
            lemma_first_char_rules_out_chirho("luke"@, spec_book_name_chirho(k));
        }
    }
}

proof fn lemma_abbreviation_105_chirho()
    ensures
        spec_names_book_chirho("lk"@, 41),
        forall|k: int| 0 <= k < 41 ==> !#[trigger] spec_names_book_chirho("lk"@, k),
{
    reveal_strlit("lk");
    reveal_strlit("Luke");
    reveal_strlit("jdg");
    reveal_strlit("1kgs");
    reveal_strlit("2kgs");
    reveal_strlit("sos");
    reveal_strlit("mk");
    reveal_strlit("lk");
    reveal_strlit("jn");
    reveal_strlit("php");
    reveal_strlit("phm");
    reveal_strlit("phlm");
    reveal_strlit("jas");
    reveal_strlit("1jn");
    reveal_strlit("2jn");
    reveal_strlit("3jn");
    assert("lk"@[0] != "mk"@[0]);
    assert("lk"@[0] != "jn"@[0]);
    assert(spec_short_form_chirho("lk"@, 41));
    assert forall|k: int| 0 <= k < 41 implies !#[trigger] spec_names_book_chirho("lk"@, k) by {
        if k == 2 {
            reveal_strlit("Leviticus");
            lemma_mismatch_rules_out_chirho("lk"@, spec_book_name_chirho(2), 1, 0);
        } else if k == 24 {
            reveal_strlit("Lamentations");
            lemma_mismatch_rules_out_chirho("lk"@, spec_book_name_chirho(24), 1, 0);
        } else {
            lemma_book_initial_chirho(k);
            lemma_book_initial_classes_chirho(k);
            lemma_first_char_rules_out_chirho("lk"@, spec_book_name_chirho(k));
        }
    }
}

proof fn lemma_abbreviation_106_chirho()
    ensures
        spec_names_book_chirho("luk"@, 41),
        forall|k: int| 0 <= k < 41 ==> !#[trigger] spec_names_book_chirho("luk"@, k),
{
    reveal_strlit("luk");
    reveal_strlit("Luke");
    reveal_strlit("jdg");
    reveal_strlit("1kgs");
    reveal_strlit("2kgs");
    reveal_strlit("sos");
    reveal_strlit("mk");
    reveal_strlit("lk");
    reveal_strlit("jn");
    reveal_strlit("php");
    reveal_strlit("phm");
    reveal_strlit("phlm");
    reveal_strlit("jas");
    reveal_strlit("1jn");
    reveal_strlit("2jn");
    reveal_strlit("3jn");
    assert("luk"@[0] != "jdg"@[0]);
    assert("luk"@[0] != "sos"@[0]);
    assert("luk"@[0] != "php"@[0]);
    assert("luk"@[0] != "phm"@[0]);
    assert("luk"@[0] != "jas"@[0]);
    assert("luk"@[0] != "1jn"@[0]);
    assert("luk"@[0] != "2jn"@[0]);
    assert("luk"@[0] != "3jn"@[0]);
    assert(spec_ascii_lowercase_chirho("Luke"@).take(3) =~= "luk"@);
    assert forall|k: int| 0 <= k < 41 implies !#[trigger] spec_names_book_chirho("luk"@, k) by {
        if k == 2 {
            reveal_strlit("Leviticus");
            lemma_mismatch_rules_out_chirho("luk"@, spec_book_name_chirho(2), 1, 0);
        } else if k == 24 {
            reveal_strlit("Lamentations");
            lemma_mismatch_rules_out_chirho("luk"@, spec_book_name_chirho(24), 1, 0);
        } else {
            lemma_book_initial_chirho(k);
            lemma_book_initial_classes_chirho(k);
            lemma_first_char_rules_out_chirho("luk"@, spec_book_name_chirho(k));
        }
    }
}

proof fn lemma_abbreviation_107_chirho()
    ensures
        spec_names_book_chirho("john"@, 42),
        forall|k: int| 0 <= k < 42 ==> !#[trigger] spec_names_book_chirho("john"@, k),
{
    reveal_strlit("john");
    reveal_strlit("John");
    reveal_strlit("jdg");
    reveal_strlit("1kgs");
    reveal_strlit("2kgs");
    reveal_strlit("sos");
    reveal_strlit("mk");
    reveal_strlit("lk");
    reveal_strlit("jn");
    reveal_strlit("php");
    reveal_strlit("phm");
    reveal_strlit("phlm");
    reveal_strlit("jas");
    reveal_strlit("1jn");
    reveal_strlit("2jn");
    reveal_strlit("3jn");
    assert("john"@[0] != "1kgs"@[0]);
    assert("john"@[0] != "2kgs"@[0]);
    assert("john"@[0] != "phlm"@[0]);
    assert(spec_ascii_lowercase_chirho("John"@).take(4) =~= "john"@);
    assert forall|k: int| 0 <= k < 42 implies !#[trigger] spec_names_book_chirho("john"@, k) by {
        if k == 5 {
            reveal_strlit("Joshua");
            lemma_mismatch_rules_out_chirho("john"@, spec_book_name_chirho(5), 2, 0);
        } else if k == 6 {
            reveal_strlit("Judges");
            lemma_mismatch_rules_out_chirho("john"@, spec_book_name_chirho(6), 1, 0);
        } else if k == 17 {
            reveal_strlit("Job");
            lemma_mismatch_rules_out_chirho("john"@, spec_book_name_chirho(17), 2, 0);
        } else if k == 23 {
            reveal_strlit("Jeremiah");
            lemma_mismatch_rules_out_chirho("john"@, spec_book_name_chirho(23), 1, 0);
        } else if k == 28 {
            reveal_strlit("Joel");
            lemma_mismatch_rules_out_chirho("john"@, spec_book_name_chirho(28), 2, 0);
        } else if k == 31 {
            reveal_strlit("Jonah");
            lemma_mismatch_rules_out_chirho("john"@, spec_book_name_chirho(31), 2, 0);
        } else {
            lemma_book_initial_chirho(k);
            lemma_book_initial_classes_chirho(k);
            lemma_first_char_rules_out_chirho("john"@, spec_book_name_chirho(k));
        }
    }
}

proof fn lemma_abbreviation_108_chirho()
    ensures
        spec_names_book_chirho("jn"@, 42),
        forall|k: int| 0 <= k < 42 ==> !#[trigger] spec_names_book_chirho("jn"@, k),
{
    reveal_strlit("jn");
    reveal_strlit("John");
    reveal_strlit("jdg");
    reveal_strlit("1kgs");
    reveal_strlit("2kgs");
    reveal_strlit("sos");
    reveal_strlit("mk");
    reveal_strlit("lk");
    reveal_strlit("jn");
    reveal_strlit("php");
    reveal_strlit("phm");
    reveal_strlit("phlm");
    reveal_strlit("jas");
    reveal_strlit("1jn");
    reveal_strlit("2jn");
    reveal_strlit("3jn");
    assert("jn"@[0] != "mk"@[0]);
    assert("jn"@[0] != "lk"@[0]);
    assert(spec_short_form_chirho("jn"@, 42));
    assert forall|k: int| 0 <= k < 42 implies !#[trigger] spec_names_book_chirho("jn"@, k) by {
        if k == 5 {
            reveal_strlit("Joshua");
            lemma_mismatch_rules_out_chirho("jn"@, spec_book_name_chirho(5), 1, 0);
        } else if k == 6 {
            reveal_strlit("Judges");
            lemma_mismatch_rules_out_chirho("jn"@, spec_book_name_chirho(6), 1, 0);
        } else if k == 17 {
            reveal_strlit("Job");
            lemma_mismatch_rules_out_chirho("jn"@, spec_book_name_chirho(17), 1, 0);
        } else if k == 23 {
            reveal_strlit("Jeremiah");
            lemma_mismatch_rules_out_chirho("jn"@, spec_book_name_chirho(23), 1, 0);
        } else if k == 28 {
            reveal_strlit("Joel");
            lemma_mismatch_rules_out_chirho("jn"@, spec_book_name_chirho(28), 1, 0);
        } else if k == 31 {
            reveal_strlit("Jonah");
            lemma_mismatch_rules_out_chirho("jn"@, spec_book_name_chirho(31), 1, 0);
        } else {
            lemma_book_initial_chirho(k);
            lemma_book_initial_classes_chirho(k);
            lemma_first_char_rules_out_chirho("jn"@, spec_book_name_chirho(k));
        }
    }
}

proof fn lemma_abbreviation_109_chirho()
    ensures
        spec_names_book_chirho("joh"@, 42),
        forall|k: int| 0 <= k < 42 ==> !#[trigger] spec_names_book_chirho("joh"@, k),
{
    reveal_strlit("joh");
    reveal_strlit("John");
    reveal_strlit("jdg");
    reveal_strlit("1kgs");
    reveal_strlit("2kgs");
    reveal_strlit("sos");
    reveal_strlit("mk");
    reveal_strlit("lk");
    reveal_strlit("jn");
    reveal_strlit("php");
    reveal_strlit("phm");
    reveal_strlit("phlm");
    reveal_strlit("jas");
    reveal_strlit("1jn");
    reveal_strlit("2jn");
    reveal_strlit("3jn");
    assert("joh"@[1] != "jdg"@[1]);
    assert("joh"@[0] != "sos"@[0]);
    assert("joh"@[0] != "php"@[0]);
    assert("joh"@[0] != "phm"@[0]);
    assert("joh"@[1] != "jas"@[1]);
    assert("joh"@[0] != "1jn"@[0]);
    assert("joh"@[0] != "2jn"@[0]);
    assert("joh"@[0] != "3jn"@[0]);
    assert(spec_ascii_lowercase_chirho("John"@).take(3) =~= "joh"@);
    assert forall|k: int| 0 <= k < 42 implies !#[trigger] spec_names_book_chirho("joh"@, k) by {
        if k == 5 {
            reveal_strlit("Joshua");
            lemma_mismatch_rules_out_chirho("joh"@, spec_book_name_chirho(5), 2, 0);
        } else if k == 6 {
            reveal_strlit("Judges");
            lemma_mismatch_rules_out_chirho("joh"@, spec_book_name_chirho(6), 1, 0);
        } else if k == 17 {
            reveal_strlit("Job");
            lemma_mismatch_rules_out_chirho("joh"@, spec_book_name_chirho(17), 2, 0);
        } else if k == 23 {
            reveal_strlit("Jeremiah");
            lemma_mismatch_rules_out_chirho("joh"@, spec_book_name_chirho(23), 1, 0);
        } else if k == 28 {
            reveal_strlit("Joel");
            lemma_mismatch_rules_out_chirho("joh"@, spec_book_name_chirho(28), 2, 0);
        } else if k == 31 {
            reveal_strlit("Jonah");
            lemma_mismatch_rules_out_chirho("joh"@, spec_book_name_chirho(31), 2, 0);
        } else {
            lemma_book_initial_chirho(k);
            lemma_book_initial_classes_chirho(k);
            lemma_first_char_rules_out_chirho("joh"@, spec_book_name_chirho(k));
        }
    }
}

proof fn lemma_abbreviation_110_chirho()
    ensures
        spec_names_book_chirho("acts"@, 43),
        forall|k: int| 0 <= k < 43 ==> !#[trigger] spec_names_book_chirho("acts"@, k),
{
    reveal_strlit("acts");
    reveal_strlit("Acts");
    reveal_strlit("jdg");
    reveal_strlit("1kgs");
    reveal_strlit("2kgs");
    reveal_strlit("sos");
    reveal_strlit("mk");
    reveal_strlit("lk");
    reveal_strlit("jn");
    reveal_strlit("php");
    reveal_strlit("phm");
    reveal_strlit("phlm");
    reveal_strlit("jas");
    reveal_strlit("1jn");
    reveal_strlit("2jn");
    reveal_strlit("3jn");
    assert("acts"@[0] != "1kgs"@[0]);
    assert("acts"@[0] != "2kgs"@[0]);
    assert("acts"@[0] != "phlm"@[0]);
    assert(spec_ascii_lowercase_chirho("Acts"@).take(4) =~= "acts"@);
    assert forall|k: int| 0 <= k < 43 implies !#[trigger] spec_names_book_chirho("acts"@, k) by {
        if k == 29 {
            reveal_strlit("Amos");
            lemma_mismatch_rules_out_chirho("acts"@, spec_book_name_chirho(29), 1, 0);
        } else {
            lemma_book_initial_chirho(k);
            lemma_book_initial_classes_chirho(k);
            lemma_first_char_rules_out_chirho("acts"@, spec_book_name_chirho(k));
        }
    }
}

proof fn lemma_abbreviation_111_chirho()
    ensures
        spec_names_book_chirho("romans"@, 44),
        forall|k: int| 0 <= k < 44 ==> !#[trigger] spec_names_book_chirho("romans"@, k),
{
    reveal_strlit("romans");
    reveal_strlit("Romans");
    reveal_strlit("jdg");
    reveal_strlit("1kgs");
    reveal_strlit("2kgs");
    reveal_strlit("sos");
    reveal_strlit("mk");
    reveal_strlit("lk");
    reveal_strlit("jn");
    reveal_strlit("php");
    reveal_strlit("phm");
    reveal_strlit("phlm");
    reveal_strlit("jas");
    reveal_strlit("1jn");
    reveal_strlit("2jn");
    reveal_strlit("3jn");
    assert(spec_ascii_lowercase_chirho("Romans"@).take(6) =~= "romans"@);
    assert forall|k: int| 0 <= k < 44 implies !#[trigger] spec_names_book_chirho("romans"@, k) by {
        if k == 7 {
            reveal_strlit("Ruth");
            lemma_mismatch_rules_out_chirho("romans"@, spec_book_name_chirho(7), 1, 0);
        } else {
            lemma_book_initial_chirho(k);
            lemma_book_initial_classes_chirho(k);
            lemma_first_char_rules_out_chirho("romans"@, spec_book_name_chirho(k));
        }
    }
}

proof fn lemma_abbreviation_112_chirho()
    ensures
        spec_names_book_chirho("rom"@, 44),
        forall|k: int| 0 <= k < 44 ==> !#[trigger] spec_names_book_chirho("rom"@, k),
{
    reveal_strlit("rom");
    reveal_strlit("Romans");
    reveal_strlit("jdg");
    reveal_strlit("1kgs");
    reveal_strlit("2kgs");
    reveal_strlit("sos");
    reveal_strlit("mk");
    reveal_strlit("lk");
    reveal_strlit("jn");
    reveal_strlit("php");
    reveal_strlit("phm");
    reveal_strlit("phlm");
    reveal_strlit("jas");
    reveal_strlit("1jn");
    reveal_strlit("2jn");
    reveal_strlit("3jn");
    assert("rom"@[0] != "jdg"@[0]);
    assert("rom"@[0] != "sos"@[0]);
    assert("rom"@[0] != "php"@[0]);
    assert("rom"@[0] != "phm"@[0]);
    assert("rom"@[0] != "jas"@[0]);
    assert("rom"@[0] != "1jn"@[0]);
    assert("rom"@[0] != "2jn"@[0]);
    assert("rom"@[0] != "3jn"@[0]);
    assert(spec_ascii_lowercase_chirho("Romans"@).take(3) =~= "rom"@);
    assert forall|k: int| 0 <= k < 44 implies !#[trigger] spec_names_book_chirho("rom"@, k) by {
        if k == 7 {
            reveal_strlit("Ruth");
            lemma_mismatch_rules_out_chirho("rom"@, spec_book_name_chirho(7), 1, 0);
        } else {
            lemma_book_initial_chirho(k);
            lemma_book_initial_classes_chirho(k);
            lemma_first_char_rules_out_chirho("rom"@, spec_book_name_chirho(k));
        }
    }
}

proof fn lemma_abbreviation_113_chirho()
    ensures
        spec_names_book_chirho("1 corinthians"@, 45),
        forall|k: int| 0 <= k < 45 ==> !#[trigger] spec_names_book_chirho("1 corinthians"@, k),
{
    reveal_strlit("1 corinthians");
    reveal_strlit("1 Corinthians");
    reveal_strlit("jdg");
    reveal_strlit("1kgs");
    reveal_strlit("2kgs");
    reveal_strlit("sos");
    reveal_strlit("mk");
    reveal_strlit("lk");
    reveal_strlit("jn");
    reveal_strlit("php");
    reveal_strlit("phm");
    reveal_strlit("phlm");
    reveal_strlit("jas");
    reveal_strlit("1jn");
    reveal_strlit("2jn");
    reveal_strlit("3jn");
    assert(spec_ascii_lowercase_chirho("1 Corinthians"@).take(13) =~= "1 corinthians"@);
    assert forall|k: int| 0 <= k < 45 implies !#[trigger] spec_names_book_chirho("1 corinthians"@, k) by {
        if k == 8 {
            reveal_strlit("1 Samuel");
            lemma_mismatch_rules_out_chirho("1 corinthians"@, spec_book_name_chirho(8), 2, 1);
        } else if k == 10 {
            reveal_strlit("1 Kings");
            lemma_mismatch_rules_out_chirho("1 corinthians"@, spec_book_name_chirho(10), 2, 1);
        } else if k == 12 {
            reveal_strlit("1 Chronicles");
            lemma_mismatch_rules_out_chirho("1 corinthians"@, spec_book_name_chirho(12), 3, 1);
        } else {
            lemma_book_initial_chirho(k);
            lemma_book_initial_classes_chirho(k);
            lemma_first_char_rules_out_chirho("1 corinthians"@, spec_book_name_chirho(k));
        }
    }
}

proof fn lemma_abbreviation_114_chirho()
    ensures
        spec_names_book_chirho("1corinthians"@, 45),
        forall|k: int| 0 <= k < 45 ==> !#[trigger] spec_names_book_chirho("1corinthians"@, k),
{
    reveal_strlit("1corinthians");
    reveal_strlit("1 Corinthians");
    reveal_strlit("jdg");
    reveal_strlit("1kgs");
    reveal_strlit("2kgs");
    reveal_strlit("sos");
    reveal_strlit("mk");
    reveal_strlit("lk");
    reveal_strlit("jn");
    reveal_strlit("php");
    reveal_strlit("phm");
    reveal_strlit("phlm");
    reveal_strlit("jas");
    reveal_strlit("1jn");
    reveal_strlit("2jn");
    reveal_strlit("3jn");
    let l = spec_ascii_lowercase_chirho("1 Corinthians"@);
    assert((seq![l[0]] + l.skip(2)).take(12) =~= "1corinthians"@);
    assert forall|k: int| 0 <= k < 45 implies !#[trigger] spec_names_book_chirho("1corinthians"@, k) by {
        if k == 8 {
            reveal_strlit("1 Samuel");
            lemma_mismatch_rules_out_chirho("1corinthians"@, spec_book_name_chirho(8), 1, 1);
        } else if k == 10 {
            reveal_strlit("1 Kings");
            lemma_mismatch_rules_out_chirho("1corinthians"@, spec_book_name_chirho(10), 1, 1);
        } else if k == 12 {
            reveal_strlit("1 Chronicles");
            lemma_mismatch_rules_out_chirho("1corinthians"@, spec_book_name_chirho(12), 1, 2);
        } else {
            lemma_book_initial_chirho(k);
            lemma_book_initial_classes_chirho(k);
            lemma_first_char_rules_out_chirho("1corinthians"@, spec_book_name_chirho(k));
        }
    }
}

proof fn lemma_abbreviation_115_chirho()
    ensures
        spec_names_book_chirho("1cor"@, 45),
        forall|k: int| 0 <= k < 45 ==> !#[trigger] spec_names_book_chirho("1cor"@, k),
{
    reveal_strlit("1cor");
    reveal_strlit("1 Corinthians");
    reveal_strlit("jdg");
    reveal_strlit("1kgs");
    reveal_strlit("2kgs");
    reveal_strlit("sos");
    reveal_strlit("mk");
    reveal_strlit("lk");
    reveal_strlit("jn");
    reveal_strlit("php");
    reveal_strlit("phm");
    reveal_strlit("phlm");
    reveal_strlit("jas");
    reveal_strlit("1jn");
    reveal_strlit("2jn");
    reveal_strlit("3jn");
    assert("1cor"@[1] != "1kgs"@[1]);
    assert("1cor"@[0] != "2kgs"@[0]);
    assert("1cor"@[0] != "phlm"@[0]);
    let l = spec_ascii_lowercase_chirho("1 Corinthians"@);
    assert((seq![l[0]] + l.skip(2)).take(4) =~= "1cor"@);
    assert forall|k: int| 0 <= k < 45 implies !#[trigger] spec_names_book_chirho("1cor"@, k) by {
        if k == 8 {
            reveal_strlit("1 Samuel");
            lemma_mismatch_rules_out_chirho("1cor"@, spec_book_name_chirho(8), 1, 1);
        } else if k == 10 {
            reveal_strlit("1 Kings");
            lemma_mismatch_rules_out_chirho("1cor"@, spec_book_name_chirho(10), 1, 1);
        } else if k == 12 {
            reveal_strlit("1 Chronicles");
            lemma_mismatch_rules_out_chirho("1cor"@, spec_book_name_chirho(12), 1, 2);
        } else {
            lemma_book_initial_chirho(k);
            lemma_book_initial_classes_chirho(k);
            lemma_first_char_rules_out_chirho("1cor"@, spec_book_name_chirho(k));
        }
    }
}

proof fn lemma_abbreviation_116_chirho()
    ensures
        spec_names_book_chirho("1co"@, 45),
        forall|k: int| 0 <= k < 45 ==> !#[trigger] spec_names_book_chirho("1co"@, k),
{
    reveal_strlit("1co");
    reveal_strlit("1 Corinthians");
    reveal_strlit("jdg");
    reveal_strlit("1kgs");
    reveal_strlit("2kgs");
    reveal_strlit("sos");
    reveal_strlit("mk");
    reveal_strlit("lk");
    reveal_strlit("jn");
    reveal_strlit("php");
    reveal_strlit("phm");
    reveal_strlit("phlm");
    reveal_strlit("jas");
    reveal_strlit("1jn");
    reveal_strlit("2jn");
    reveal_strlit("3jn");
    assert("1co"@[0] != "jdg"@[0]);
    assert("1co"@[0] != "sos"@[0]);
    assert("1co"@[0] != "php"@[0]);
    assert("1co"@[0] != "phm"@[0]);
    assert("1co"@[0] != "jas"@[0]);
    assert("1co"@[1] != "1jn"@[1]);
    assert("1co"@[0] != "2jn"@[0]);
    assert("1co"@[0] != "3jn"@[0]);
    let l = spec_ascii_lowercase_chirho("1 Corinthians"@);
    assert((seq![l[0]] + l.skip(2)).take(3) =~= "1co"@);
    assert forall|k: int| 0 <= k < 45 implies !#[trigger] spec_names_book_chirho("1co"@, k) by {
        if k == 8 {
            reveal_strlit("1 Samuel");
            lemma_mismatch_rules_out_chirho("1co"@, spec_book_name_chirho(8), 1, 1);
        } else if k == 10 {
            reveal_strlit("1 Kings");
            lemma_mismatch_rules_out_chirho("1co"@, spec_book_name_chirho(10), 1, 1);
        } else if k == 12 {
            reveal_strlit("1 Chronicles");
            lemma_mismatch_rules_out_chirho("1co"@, spec_book_name_chirho(12), 1, 2);
        } else {
            lemma_book_initial_chirho(k);
            lemma_book_initial_classes_chirho(k);
            lemma_first_char_rules_out_chirho("1co"@, spec_book_name_chirho(k));
        }
    }
}

proof fn lemma_abbreviation_117_chirho()
    ensures
        spec_names_book_chirho("2 corinthians"@, 46),
        forall|k: int| 0 <= k < 46 ==> !#[trigger] spec_names_book_chirho("2 corinthians"@, k),
{
    reveal_strlit("2 corinthians");
    reveal_strlit("2 Corinthians");
    reveal_strlit("jdg");
    reveal_strlit("1kgs");
    reveal_strlit("2kgs");
    reveal_strlit("sos");
    reveal_strlit("mk");
    reveal_strlit("lk");
    reveal_strlit("jn");
    reveal_strlit("php");
    reveal_strlit("phm");
    reveal_strlit("phlm");
    reveal_strlit("jas");
    reveal_strlit("1jn");
    reveal_strlit("2jn");
    reveal_strlit("3jn");
    assert(spec_ascii_lowercase_chirho("2 Corinthians"@).take(13) =~= "2 corinthians"@);
    assert forall|k: int| 0 <= k < 46 implies !#[trigger] spec_names_book_chirho("2 corinthians"@, k) by {
        if k == 9 {
            reveal_strlit("2 Samuel");
            lemma_mismatch_rules_out_chirho("2 corinthians"@, spec_book_name_chirho(9), 2, 1);
        } else if k == 11 {
            reveal_strlit("2 Kings");
            lemma_mismatch_rules_out_chirho("2 corinthians"@, spec_book_name_chirho(11), 2, 1);
        } else if k == 13 {
            reveal_strlit("2 Chronicles");
            lemma_mismatch_rules_out_chirho("2 corinthians"@, spec_book_name_chirho(13), 3, 1);
        } else {
            lemma_book_initial_chirho(k);
            lemma_book_initial_classes_chirho(k);
            lemma_first_char_rules_out_chirho("2 corinthians"@, spec_book_name_chirho(k));
        }
    }
}

proof fn lemma_abbreviation_118_chirho()
    ensures
        spec_names_book_chirho("2corinthians"@, 46),
        forall|k: int| 0 <= k < 46 ==> !#[trigger] spec_names_book_chirho("2corinthians"@, k),
{
    reveal_strlit("2corinthians");
    reveal_strlit("2 Corinthians");
    reveal_strlit("jdg");
    reveal_strlit("1kgs");
    reveal_strlit("2kgs");
    reveal_strlit("sos");
    reveal_strlit("mk");
    reveal_strlit("lk");
    reveal_strlit("jn");
    reveal_strlit("php");
    reveal_strlit("phm");
    reveal_strlit("phlm");
    reveal_strlit("jas");
    reveal_strlit("1jn");
    reveal_strlit("2jn");
    reveal_strlit("3jn");
    let l = spec_ascii_lowercase_chirho("2 Corinthians"@);
    assert((seq![l[0]] + l.skip(2)).take(12) =~= "2corinthians"@);
    assert forall|k: int| 0 <= k < 46 implies !#[trigger] spec_names_book_chirho("2corinthians"@, k) by {
        if k == 9 {
            reveal_strlit("2 Samuel");
            lemma_mismatch_rules_out_chirho("2corinthians"@, spec_book_name_chirho(9), 1, 1);
        } else if k == 11 {
            reveal_strlit("2 Kings");
            lemma_mismatch_rules_out_chirho("2corinthians"@, spec_book_name_chirho(11), 1, 1);
        } else if k == 13 {
            reveal_strlit("2 Chronicles");
            lemma_mismatch_rules_out_chirho("2corinthians"@, spec_book_name_chirho(13), 1, 2);
        } else {
            lemma_book_initial_chirho(k);
            lemma_book_initial_classes_chirho(k);
            lemma_first_char_rules_out_chirho("2corinthians"@, spec_book_name_chirho(k));
        }
    }
}

proof fn lemma_abbreviation_119_chirho()
    ensures
        spec_names_book_chirho("2cor"@, 46),
        forall|k: int| 0 <= k < 46 ==> !#[trigger] spec_names_book_chirho("2cor"@, k),
{
    reveal_strlit("2cor");
    reveal_strlit("2 Corinthians");
    reveal_strlit("jdg");
    reveal_strlit("1kgs");
    reveal_strlit("2kgs");
    reveal_strlit("sos");
    reveal_strlit("mk");
    reveal_strlit("lk");
    reveal_strlit("jn");
    reveal_strlit("php");
    reveal_strlit("phm");
    reveal_strlit("phlm");
    reveal_strlit("jas");
    reveal_strlit("1jn");
    reveal_strlit("2jn");
    reveal_strlit("3jn");
    assert("2cor"@[0] != "1kgs"@[0]);
    assert("2cor"@[1] != "2kgs"@[1]);
    assert("2cor"@[0] != "phlm"@[0]);
    let l = spec_ascii_lowercase_chirho("2 Corinthians"@);
    assert((seq![l[0]] + l.skip(2)).take(4) =~= "2cor"@);
    assert forall|k: int| 0 <= k < 46 implies !#[trigger] spec_names_book_chirho("2cor"@, k) by {
        if k == 9 {
            reveal_strlit("2 Samuel");
            lemma_mismatch_rules_out_chirho("2cor"@, spec_book_name_chirho(9), 1, 1);
        } else if k == 11 {
            reveal_strlit("2 Kings");
            lemma_mismatch_rules_out_chirho("2cor"@, spec_book_name_chirho(11), 1, 1);
        } else if k == 13 {
            reveal_strlit("2 Chronicles");
            lemma_mismatch_rules_out_chirho("2cor"@, spec_book_name_chirho(13), 1, 2);
        } else {
            lemma_book_initial_chirho(k);
            lemma_book_initial_classes_chirho(k);
            lemma_first_char_rules_out_chirho("2cor"@, spec_book_name_chirho(k));
        }
    }
}

proof fn lemma_abbreviation_120_chirho()
    ensures
        spec_names_book_chirho("2co"@, 46),
        forall|k: int| 0 <= k < 46 ==> !#[trigger] spec_names_book_chirho("2co"@, k),
{
    reveal_strlit("2co");
    reveal_strlit("2 Corinthians");
    reveal_strlit("jdg");
    reveal_strlit("1kgs");
    reveal_strlit("2kgs");
    reveal_strlit("sos");
    reveal_strlit("mk");
    reveal_strlit("lk");
    reveal_strlit("jn");
    reveal_strlit("php");
    reveal_strlit("phm");
    reveal_strlit("phlm");
    reveal_strlit("jas");
    reveal_strlit("1jn");
    reveal_strlit("2jn");
    reveal_strlit("3jn");
    assert("2co"@[0] != "jdg"@[0]);
    assert("2co"@[0] != "sos"@[0]);
    assert("2co"@[0] != "php"@[0]);
    assert("2co"@[0] != "phm"@[0]);
    assert("2co"@[0] != "jas"@[0]);
    assert("2co"@[0] != "1jn"@[0]);
    assert("2co"@[1] != "2jn"@[1]);
    assert("2co"@[0] != "3jn"@[0]);
    let l = spec_ascii_lowercase_chirho("2 Corinthians"@);
    assert((seq![l[0]] + l.skip(2)).take(3) =~= "2co"@);
    assert forall|k: int| 0 <= k < 46 implies !#[trigger] spec_names_book_chirho("2co"@, k) by {
        if k == 9 {
            reveal_strlit("2 Samuel");
            lemma_mismatch_rules_out_chirho("2co"@, spec_book_name_chirho(9), 1, 1);
        } else if k == 11 {
            reveal_strlit("2 Kings");
            lemma_mismatch_rules_out_chirho("2co"@, spec_book_name_chirho(11), 1, 1);
        } else if k == 13 {
            reveal_strlit("2 Chronicles");
            lemma_mismatch_rules_out_chirho("2co"@, spec_book_name_chirho(13), 1, 2);
        } else {
            lemma_book_initial_chirho(k);
            lemma_book_initial_classes_chirho(k);
            lemma_first_char_rules_out_chirho("2co"@, spec_book_name_chirho(k));
        }
    }
}

proof fn lemma_abbreviation_121_chirho()
    ensures
        spec_names_book_chirho("galatians"@, 47),
        forall|k: int| 0 <= k < 47 ==> !#[trigger] spec_names_book_chirho("galatians"@, k),
{
    reveal_strlit("galatians");
    reveal_strlit("Galatians");
    reveal_strlit("jdg");
    reveal_strlit("1kgs");
    reveal_strlit("2kgs");
    reveal_strlit("sos");
    reveal_strlit("mk");
    reveal_strlit("lk");
    reveal_strlit("jn");
    reveal_strlit("php");
    reveal_strlit("phm");
    reveal_strlit("phlm");
    reveal_strlit("jas");
    reveal_strlit("1jn");
    reveal_strlit("2jn");
    reveal_strlit("3jn");
    assert(spec_ascii_lowercase_chirho("Galatians"@).take(9) =~= "galatians"@);
    assert forall|k: int| 0 <= k < 47 implies !#[trigger] spec_names_book_chirho("galatians"@, k) by {
        if k == 0 {
            reveal_strlit("Genesis");
            lemma_mismatch_rules_out_chirho("galatians"@, spec_book_name_chirho(0), 1, 0);
        } else {
            lemma_book_initial_chirho(k);
            lemma_book_initial_classes_chirho(k);
            lemma_first_char_rules_out_chirho("galatians"@, spec_book_name_chirho(k));
        }
    }
}

proof fn lemma_abbreviation_122_chirho()
    ensures
        spec_names_book_chirho("gal"@, 47),
        forall|k: int| 0 <= k < 47 ==> !#[trigger] spec_names_book_chirho("gal"@, k),
{
    reveal_strlit("gal");
    reveal_strlit("Galatians");
    reveal_strlit("jdg");
    reveal_strlit("1kgs");
    reveal_strlit("2kgs");
    reveal_strlit("sos");
    reveal_strlit("mk");
    reveal_strlit("lk");
    reveal_strlit("jn");
    reveal_strlit("php");
    reveal_strlit("phm");
    reveal_strlit("phlm");
    reveal_strlit("jas");
    reveal_strlit("1jn");
    reveal_strlit("2jn");
    reveal_strlit("3jn");
    assert("gal"@[0] != "jdg"@[0]);
    assert("gal"@[0] != "sos"@[0]);
    assert("gal"@[0] != "php"@[0]);
    assert("gal"@[0] != "phm"@[0]);
    assert("gal"@[0] != "jas"@[0]);
    assert("gal"@[0] != "1jn"@[0]);
    assert("gal"@[0] != "2jn"@[0]);
    assert("gal"@[0] != "3jn"@[0]);
    assert(spec_ascii_lowercase_chirho("Galatians"@).take(3) =~= "gal"@);
    assert forall|k: int| 0 <= k < 47 implies !#[trigger] spec_names_book_chirho("gal"@, k) by {
        if k == 0 {
            reveal_strlit("Genesis");
            lemma_mismatch_rules_out_chirho("gal"@, spec_book_name_chirho(0), 1, 0);
        } else {
            lemma_book_initial_chirho(k);
            lemma_book_initial_classes_chirho(k);
            lemma_first_char_rules_out_chirho("gal"@, spec_book_name_chirho(k));
        }
    }
}

proof fn lemma_abbreviation_123_chirho()
    ensures
        spec_names_book_chirho("ephesians"@, 48),
        forall|k: int| 0 <= k < 48 ==> !#[trigger] spec_names_book_chirho("ephesians"@, k),
{
    reveal_strlit("ephesians");
    reveal_strlit("Ephesians");
    reveal_strlit("jdg");
    reveal_strlit("1kgs");
    reveal_strlit("2kgs");
    reveal_strlit("sos");
    reveal_strlit("mk");
    reveal_strlit("lk");
    reveal_strlit("jn");
    reveal_strlit("php");
    reveal_strlit("phm");
    reveal_strlit("phlm");
    reveal_strlit("jas");
    reveal_strlit("1jn");
    reveal_strlit("2jn");
    reveal_strlit("3jn");
    assert(spec_ascii_lowercase_chirho("Ephesians"@).take(9) =~= "ephesians"@);
    assert forall|k: int| 0 <= k < 48 implies !#[trigger] spec_names_book_chirho("ephesians"@, k) by {
        if k == 1 {
            reveal_strlit("Exodus");
            lemma_mismatch_rules_out_chirho("ephesians"@, spec_book_name_chirho(1), 1, 0);
        } else if k == 14 {
            reveal_strlit("Ezra");
            lemma_mismatch_rules_out_chirho("ephesians"@, spec_book_name_chirho(14), 1, 0);
        } else if k == 16 {
            reveal_strlit("Esther");
            lemma_mismatch_rules_out_chirho("ephesians"@, spec_book_name_chirho(16), 1, 0);
        } else if k == 20 {
            reveal_strlit("Ecclesiastes");
            lemma_mismatch_rules_out_chirho("ephesians"@, spec_book_name_chirho(20), 1, 0);
        } else if k == 25 {
            reveal_strlit("Ezekiel");
            lemma_mismatch_rules_out_chirho("ephesians"@, spec_book_name_chirho(25), 1, 0);
        } else {
            lemma_book_initial_chirho(k);
            lemma_book_initial_classes_chirho(k);
            lemma_first_char_rules_out_chirho("ephesians"@, spec_book_name_chirho(k));
        }
    }
}

proof fn lemma_abbreviation_124_chirho()
    ensures
        spec_names_book_chirho("eph"@, 48),
        forall|k: int| 0 <= k < 48 ==> !#[trigger] spec_names_book_chirho("eph"@, k),
{
    reveal_strlit("eph");
    reveal_strlit("Ephesians");
    reveal_strlit("jdg");
    reveal_strlit("1kgs");
    reveal_strlit("2kgs");
    reveal_strlit("sos");
    reveal_strlit("mk");
    reveal_strlit("lk");
    reveal_strlit("jn");
    reveal_strlit("php");
    reveal_strlit("phm");
    reveal_strlit("phlm");
    reveal_strlit("jas");
    reveal_strlit("1jn");
    reveal_strlit("2jn");
    reveal_strlit("3jn");
    assert("eph"@[0] != "jdg"@[0]);
    assert("eph"@[0] != "sos"@[0]);
    assert("eph"@[0] != "php"@[0]);
    assert("eph"@[0] != "phm"@[0]);
    assert("eph"@[0] != "jas"@[0]);
    assert("eph"@[0] != "1jn"@[0]);
    assert("eph"@[0] != "2jn"@[0]);
    assert("eph"@[0] != "3jn"@[0]);
    assert(spec_ascii_lowercase_chirho("Ephesians"@).take(3) =~= "eph"@);
    assert forall|k: int| 0 <= k < 48 implies !#[trigger] spec_names_book_chirho("eph"@, k) by {
        if k == 1 {
            reveal_strlit("Exodus");
            lemma_mismatch_rules_out_chirho("eph"@, spec_book_name_chirho(1), 1, 0);
        } else if k == 14 {
            reveal_strlit("Ezra");
            lemma_mismatch_rules_out_chirho("eph"@, spec_book_name_chirho(14), 1, 0);
        } else if k == 16 {
            reveal_strlit("Esther");
            lemma_mismatch_rules_out_chirho("eph"@, spec_book_name_chirho(16), 1, 0);
        } else if k == 20 {
            reveal_strlit("Ecclesiastes");
            lemma_mismatch_rules_out_chirho("eph"@, spec_book_name_chirho(20), 1, 0);
        } else if k == 25 {
            reveal_strlit("Ezekiel");
            lemma_mismatch_rules_out_chirho("eph"@, spec_book_name_chirho(25), 1, 0);
        } else {
            lemma_book_initial_chirho(k);
            lemma_book_initial_classes_chirho(k);
            lemma_first_char_rules_out_chirho("eph"@, spec_book_name_chirho(k));
        }
    }
}

proof fn lemma_abbreviation_125_chirho()
    ensures
        spec_names_book_chirho("philippians"@, 49),
        forall|k: int| 0 <= k < 49 ==> !#[trigger] spec_names_book_chirho("philippians"@, k),
{
    reveal_strlit("philippians");
    reveal_strlit("Philippians");
    reveal_strlit("jdg");
    reveal_strlit("1kgs");
    reveal_strlit("2kgs");
    reveal_strlit("sos");
    reveal_strlit("mk");
    reveal_strlit("lk");
    reveal_strlit("jn");
    reveal_strlit("php");
    reveal_strlit("phm");
    reveal_strlit("phlm");
    reveal_strlit("jas");
    reveal_strlit("1jn");
    reveal_strlit("2jn");
    reveal_strlit("3jn");
    assert(spec_ascii_lowercase_chirho("Philippians"@).take(11) =~= "philippians"@);
    assert forall|k: int| 0 <= k < 49 implies !#[trigger] spec_names_book_chirho("philippians"@, k) by {
        if k == 18 {
            reveal_strlit("Psalms");
            lemma_mismatch_rules_out_chirho("philippians"@, spec_book_name_chirho(18), 1, 0);
        } else if k == 19 {
            reveal_strlit("Proverbs");
            lemma_mismatch_rules_out_chirho("philippians"@, spec_book_name_chirho(19), 1, 0);
        } else {
            lemma_book_initial_chirho(k);
            lemma_book_initial_classes_chirho(k);
            lemma_first_char_rules_out_chirho("philippians"@, spec_book_name_chirho(k));
        }
    }
}

proof fn lemma_abbreviation_126_chirho()
    ensures
        spec_names_book_chirho("phil"@, 49),
        forall|k: int| 0 <= k < 49 ==> !#[trigger] spec_names_book_chirho("phil"@, k),
{
    reveal_strlit("phil");
    reveal_strlit("Philippians");
    reveal_strlit("jdg");
    reveal_strlit("1kgs");
    reveal_strlit("2kgs");
    reveal_strlit("sos");
    reveal_strlit("mk");
    reveal_strlit("lk");
    reveal_strlit("jn");
    reveal_strlit("php");
    reveal_strlit("phm");
    reveal_strlit("phlm");
    reveal_strlit("jas");
    reveal_strlit("1jn");
    reveal_strlit("2jn");
    reveal_strlit("3jn");
    assert("phil"@[0] != "1kgs"@[0]);
    assert("phil"@[0] != "2kgs"@[0]);
    assert("phil"@[2] != "phlm"@[2]);
    assert(spec_ascii_lowercase_chirho("Philippians"@).take(4) =~= "phil"@);
    assert forall|k: int| 0 <= k < 49 implies !#[trigger] spec_names_book_chirho("phil"@, k) by {
        if k == 18 {
            reveal_strlit("Psalms");
            lemma_mismatch_rules_out_chirho("phil"@, spec_book_name_chirho(18), 1, 0);
        } else if k == 19 {
            reveal_strlit("Proverbs");
            lemma_mismatch_rules_out_chirho("phil"@, spec_book_name_chirho(19), 1, 0);
        } else {
            lemma_book_initial_chirho(k);
            lemma_book_initial_classes_chirho(k);
            lemma_first_char_rules_out_chirho("phil"@, spec_book_name_chirho(k));
        }
    }
}

proof fn lemma_abbreviation_127_chirho()
    ensures
        spec_names_book_chirho("php"@, 49),
        forall|k: int| 0 <= k < 49 ==> !#[trigger] spec_names_book_chirho("php"@, k),
{
    reveal_strlit("php");
    reveal_strlit("Philippians");
    reveal_strlit("jdg");
    reveal_strlit("1kgs");
    reveal_strlit("2kgs");
    reveal_strlit("sos");
    reveal_strlit("mk");
    reveal_strlit("lk");
    reveal_strlit("jn");
    reveal_strlit("php");
    reveal_strlit("phm");
    reveal_strlit("phlm");
    reveal_strlit("jas");
    reveal_strlit("1jn");
    reveal_strlit("2jn");
    reveal_strlit("3jn");
    assert("php"@[0] != "jdg"@[0]);
    assert("php"@[0] != "sos"@[0]);
    assert("php"@[2] != "phm"@[2]);
    assert("php"@[0] != "jas"@[0]);
    assert("php"@[0] != "1jn"@[0]);
    assert("php"@[0] != "2jn"@[0]);
    assert("php"@[0] != "3jn"@[0]);
    assert(spec_short_form_chirho("php"@, 49));
    assert forall|k: int| 0 <= k < 49 implies !#[trigger] spec_names_book_chirho("php"@, k) by {
        if k == 18 {
            reveal_strlit("Psalms");
            lemma_mismatch_rules_out_chirho("php"@, spec_book_name_chirho(18), 1, 0);
        } else if k == 19 {
            reveal_strlit("Proverbs");
            lemma_mismatch_rules_out_chirho("php"@, spec_book_name_chirho(19), 1, 0);
        } else {
            lemma_book_initial_chirho(k);
            lemma_book_initial_classes_chirho(k);
            lemma_first_char_rules_out_chirho("php"@, spec_book_name_chirho(k));
        }
    }
}

proof fn lemma_abbreviation_128_chirho()
    ensures
        spec_names_book_chirho("colossians"@, 50),
        forall|k: int| 0 <= k < 50 ==> !#[trigger] spec_names_book_chirho("colossians"@, k),
{
    reveal_strlit("colossians");
    reveal_strlit("Colossians");
    reveal_strlit("jdg");
    reveal_strlit("1kgs");
    reveal_strlit("2kgs");
    reveal_strlit("sos");
    reveal_strlit("mk");
    reveal_strlit("lk");
    reveal_strlit("jn");
    reveal_strlit("php");
    reveal_strlit("phm");
    reveal_strlit("phlm");
    reveal_strlit("jas");
    reveal_strlit("1jn");
    reveal_strlit("2jn");
    reveal_strlit("3jn");
    assert(spec_ascii_lowercase_chirho("Colossians"@).take(10) =~= "colossians"@);
    assert forall|k: int| 0 <= k < 50 implies !#[trigger] spec_names_book_chirho("colossians"@, k) by {
        lemma_book_initial_chirho(k);
        lemma_book_initial_classes_chirho(k);
        lemma_first_char_rules_out_chirho("colossians"@, spec_book_name_chirho(k));
    }
}

proof fn lemma_abbreviation_129_chirho()
    ensures
        spec_names_book_chirho("col"@, 50),
        forall|k: int| 0 <= k < 50 ==> !#[trigger] spec_names_book_chirho("col"@, k),
{
    reveal_strlit("col");
    reveal_strlit("Colossians");
    reveal_strlit("jdg");
    reveal_strlit("1kgs");
    reveal_strlit("2kgs");
    reveal_strlit("sos");
    reveal_strlit("mk");
    reveal_strlit("lk");
    reveal_strlit("jn");
    reveal_strlit("php");
    reveal_strlit("phm");
    reveal_strlit("phlm");
    reveal_strlit("jas");
    reveal_strlit("1jn");
    reveal_strlit("2jn");
    reveal_strlit("3jn");
    assert("col"@[0] != "jdg"@[0]);
    assert("col"@[0] != "sos"@[0]);
    assert("col"@[0] != "php"@[0]);
    assert("col"@[0] != "phm"@[0]);
    assert("col"@[0] != "jas"@[0]);
    assert("col"@[0] != "1jn"@[0]);
    assert("col"@[0] != "2jn"@[0]);
    assert("col"@[0] != "3jn"@[0]);
    assert(spec_ascii_lowercase_chirho("Colossians"@).take(3) =~= "col"@);
    assert forall|k: int| 0 <= k < 50 implies !#[trigger] spec_names_book_chirho("col"@, k) by {
        lemma_book_initial_chirho(k);
        lemma_book_initial_classes_chirho(k);
        lemma_first_char_rules_out_chirho("col"@, spec_book_name_chirho(k));
    }
}

proof fn lemma_abbreviation_130_chirho()
    ensures
        spec_names_book_chirho("1 thessalonians"@, 51),
        forall|k: int| 0 <= k < 51 ==> !#[trigger] spec_names_book_chirho("1 thessalonians"@, k),
{
    reveal_strlit("1 thessalonians");
    reveal_strlit("1 Thessalonians");
    reveal_strlit("jdg");
    reveal_strlit("1kgs");
    reveal_strlit("2kgs");
    reveal_strlit("sos");
    reveal_strlit("mk");
    reveal_strlit("lk");
    reveal_strlit("jn");
    reveal_strlit("php");
    reveal_strlit("phm");
    reveal_strlit("phlm");
    reveal_strlit("jas");
    reveal_strlit("1jn");
    reveal_strlit("2jn");
    reveal_strlit("3jn");
    assert(spec_ascii_lowercase_chirho("1 Thessalonians"@).take(15) =~= "1 thessalonians"@);
    assert forall|k: int| 0 <= k < 51 implies !#[trigger] spec_names_book_chirho("1 thessalonians"@, k) by {
        if k == 8 {
            reveal_strlit("1 Samuel");
            lemma_mismatch_rules_out_chirho("1 thessalonians"@, spec_book_name_chirho(8), 2, 1);
        } else if k == 10 {
            reveal_strlit("1 Kings");
            lemma_mismatch_rules_out_chirho("1 thessalonians"@, spec_book_name_chirho(10), 2, 1);
        } else if k == 12 {
            reveal_strlit("1 Chronicles");
            lemma_mismatch_rules_out_chirho("1 thessalonians"@, spec_book_name_chirho(12), 2, 1);
        } else if k == 45 {
            reveal_strlit("1 Corinthians");
            lemma_mismatch_rules_out_chirho("1 thessalonians"@, spec_book_name_chirho(45), 2, 1);
        } else {
            lemma_book_initial_chirho(k);
            lemma_book_initial_classes_chirho(k);
            lemma_first_char_rules_out_chirho("1 thessalonians"@, spec_book_name_chirho(k));
        }
    }
}

proof fn lemma_abbreviation_131_chirho()
    ensures
        spec_names_book_chirho("1thessalonians"@, 51),
        forall|k: int| 0 <= k < 51 ==> !#[trigger] spec_names_book_chirho("1thessalonians"@, k),
{
    reveal_strlit("1thessalonians");
    reveal_strlit("1 Thessalonians");
    reveal_strlit("jdg");
    reveal_strlit("1kgs");
    reveal_strlit("2kgs");
    reveal_strlit("sos");
    reveal_strlit("mk");
    reveal_strlit("lk");
    reveal_strlit("jn");
    reveal_strlit("php");
    reveal_strlit("phm");
    reveal_strlit("phlm");
    reveal_strlit("jas");
    reveal_strlit("1jn");
    reveal_strlit("2jn");
    reveal_strlit("3jn");
    let l = spec_ascii_lowercase_chirho("1 Thessalonians"@);
    assert((seq![l[0]] + l.skip(2)).take(14) =~= "1thessalonians"@);
    assert forall|k: int| 0 <= k < 51 implies !#[trigger] spec_names_book_chirho("1thessalonians"@, k) by {
        if k == 8 {
            reveal_strlit("1 Samuel");
            lemma_mismatch_rules_out_chirho("1thessalonians"@, spec_book_name_chirho(8), 1, 1);
        } else if k == 10 {
            reveal_strlit("1 Kings");
            lemma_mismatch_rules_out_chirho("1thessalonians"@, spec_book_name_chirho(10), 1, 1);
        } else if k == 12 {
            reveal_strlit("1 Chronicles");
            lemma_mismatch_rules_out_chirho("1thessalonians"@, spec_book_name_chirho(12), 1, 1);
        } else if k == 45 {
            reveal_strlit("1 Corinthians");
            lemma_mismatch_rules_out_chirho("1thessalonians"@, spec_book_name_chirho(45), 1, 1);
        } else {
            lemma_book_initial_chirho(k);
            lemma_book_initial_classes_chirho(k);
            lemma_first_char_rules_out_chirho("1thessalonians"@, spec_book_name_chirho(k));
        }
    }
}

proof fn lemma_abbreviation_132_chirho()
    ensures
        spec_names_book_chirho("1thess"@, 51),
        forall|k: int| 0 <= k < 51 ==> !#[trigger] spec_names_book_chirho("1thess"@, k),
{
    reveal_strlit("1thess");
    reveal_strlit("1 Thessalonians");
    reveal_strlit("jdg");
    reveal_strlit("1kgs");
    reveal_strlit("2kgs");
    reveal_strlit("sos");
    reveal_strlit("mk");
    reveal_strlit("lk");
    reveal_strlit("jn");
    reveal_strlit("php");
    reveal_strlit("phm");
    reveal_strlit("phlm");
    reveal_strlit("jas");
    reveal_strlit("1jn");
    reveal_strlit("2jn");
    reveal_strlit("3jn");
    let l = spec_ascii_lowercase_chirho("1 Thessalonians"@);
    assert((seq![l[0]] + l.skip(2)).take(6) =~= "1thess"@);
    assert forall|k: int| 0 <= k < 51 implies !#[trigger] spec_names_book_chirho("1thess"@, k) by {
        if k == 8 {
            reveal_strlit("1 Samuel");
            lemma_mismatch_rules_out_chirho("1thess"@, spec_book_name_chirho(8), 1, 1);
        } else if k == 10 {
            reveal_strlit("1 Kings");
            lemma_mismatch_rules_out_chirho("1thess"@, spec_book_name_chirho(10), 1, 1);
        } else if k == 12 {
            reveal_strlit("1 Chronicles");
            lemma_mismatch_rules_out_chirho("1thess"@, spec_book_name_chirho(12), 1, 1);
        } else if k == 45 {
            reveal_strlit("1 Corinthians");
            lemma_mismatch_rules_out_chirho("1thess"@, spec_book_name_chirho(45), 1, 1);
        } else {
            lemma_book_initial_chirho(k);
            lemma_book_initial_classes_chirho(k);
            lemma_first_char_rules_out_chirho("1thess"@, spec_book_name_chirho(k));
        }
    }
}

proof fn lemma_abbreviation_133_chirho()
    ensures
        spec_names_book_chirho("1th"@, 51),
        forall|k: int| 0 <= k < 51 ==> !#[trigger] spec_names_book_chirho("1th"@, k),
{
    reveal_strlit("1th");
    reveal_strlit("1 Thessalonians");
    reveal_strlit("jdg");
    reveal_strlit("1kgs");
    reveal_strlit("2kgs");
    reveal_strlit("sos");
    reveal_strlit("mk");
    reveal_strlit("lk");
    reveal_strlit("jn");
    reveal_strlit("php");
    reveal_strlit("phm");
    reveal_strlit("phlm");
    reveal_strlit("jas");
    reveal_strlit("1jn");
    reveal_strlit("2jn");
    reveal_strlit("3jn");
    assert("1th"@[0] != "jdg"@[0]);
    assert("1th"@[0] != "sos"@[0]);
    assert("1th"@[0] != "php"@[0]);
    assert("1th"@[0] != "phm"@[0]);
    assert("1th"@[0] != "jas"@[0]);
    assert("1th"@[1] != "1jn"@[1]);
    assert("1th"@[0] != "2jn"@[0]);
    assert("1th"@[0] != "3jn"@[0]);
    let l = spec_ascii_lowercase_chirho("1 Thessalonians"@);
    assert((seq![l[0]] + l.skip(2)).take(3) =~= "1th"@);
    assert forall|k: int| 0 <= k < 51 implies !#[trigger] spec_names_book_chirho("1th"@, k) by {
        if k == 8 {
            reveal_strlit("1 Samuel");
            lemma_mismatch_rules_out_chirho("1th"@, spec_book_name_chirho(8), 1, 1);
        } else if k == 10 {
            reveal_strlit("1 Kings");
            lemma_mismatch_rules_out_chirho("1th"@, spec_book_name_chirho(10), 1, 1);
        } else if k == 12 {
            reveal_strlit("1 Chronicles");
            lemma_mismatch_rules_out_chirho("1th"@, spec_book_name_chirho(12), 1, 1);
        } else if k == 45 {
            reveal_strlit("1 Corinthians");
            lemma_mismatch_rules_out_chirho("1th"@, spec_book_name_chirho(45), 1, 1);
        } else {
            lemma_book_initial_chirho(k);
            lemma_book_initial_classes_chirho(k);
            lemma_first_char_rules_out_chirho("1th"@, spec_book_name_chirho(k));
        }
    }
}

proof fn lemma_abbreviation_134_chirho()
    ensures
        spec_names_book_chirho("2 thessalonians"@, 52),
        forall|k: int| 0 <= k < 52 ==> !#[trigger] spec_names_book_chirho("2 thessalonians"@, k),
{
    reveal_strlit("2 thessalonians");
    reveal_strlit("2 Thessalonians");
    reveal_strlit("jdg");
    reveal_strlit("1kgs");
    reveal_strlit("2kgs");
    reveal_strlit("sos");
    reveal_strlit("mk");
    reveal_strlit("lk");
    reveal_strlit("jn");
    reveal_strlit("php");
    reveal_strlit("phm");
    reveal_strlit("phlm");
    reveal_strlit("jas");
    reveal_strlit("1jn");
    reveal_strlit("2jn");
    reveal_strlit("3jn");
    assert(spec_ascii_lowercase_chirho("2 Thessalonians"@).take(15) =~= "2 thessalonians"@);
    assert forall|k: int| 0 <= k < 52 implies !#[trigger] spec_names_book_chirho("2 thessalonians"@, k) by {
        if k == 9 {
            reveal_strlit("2 Samuel");
            lemma_mismatch_rules_out_chirho("2 thessalonians"@, spec_book_name_chirho(9), 2, 1);
        } else if k == 11 {
            reveal_strlit("2 Kings");
            lemma_mismatch_rules_out_chirho("2 thessalonians"@, spec_book_name_chirho(11), 2, 1);
        } else if k == 13 {
            reveal_strlit("2 Chronicles");
            lemma_mismatch_rules_out_chirho("2 thessalonians"@, spec_book_name_chirho(13), 2, 1);
        } else if k == 46 {
            reveal_strlit("2 Corinthians");
            lemma_mismatch_rules_out_chirho("2 thessalonians"@, spec_book_name_chirho(46), 2, 1);
        } else {
            lemma_book_initial_chirho(k);
            lemma_book_initial_classes_chirho(k);
            lemma_first_char_rules_out_chirho("2 thessalonians"@, spec_book_name_chirho(k));
        }
    }
}

proof fn lemma_abbreviation_135_chirho()
    ensures
        spec_names_book_chirho("2thessalonians"@, 52),
        forall|k: int| 0 <= k < 52 ==> !#[trigger] spec_names_book_chirho("2thessalonians"@, k),
{
    reveal_strlit("2thessalonians");
    reveal_strlit("2 Thessalonians");
    reveal_strlit("jdg");
    reveal_strlit("1kgs");
    reveal_strlit("2kgs");
    reveal_strlit("sos");
    reveal_strlit("mk");
    reveal_strlit("lk");
    reveal_strlit("jn");
    reveal_strlit("php");
    reveal_strlit("phm");
    reveal_strlit("phlm");
    reveal_strlit("jas");
    reveal_strlit("1jn");
    reveal_strlit("2jn");
    reveal_strlit("3jn");
    let l = spec_ascii_lowercase_chirho("2 Thessalonians"@);
    assert((seq![l[0]] + l.skip(2)).take(14) =~= "2thessalonians"@);
    assert forall|k: int| 0 <= k < 52 implies !#[trigger] spec_names_book_chirho("2thessalonians"@, k) by {
        if k == 9 {
            reveal_strlit("2 Samuel");
            lemma_mismatch_rules_out_chirho("2thessalonians"@, spec_book_name_chirho(9), 1, 1);
        } else if k == 11 {
            reveal_strlit("2 Kings");
            lemma_mismatch_rules_out_chirho("2thessalonians"@, spec_book_name_chirho(11), 1, 1);
        } else if k == 13 {
            reveal_strlit("2 Chronicles");
            lemma_mismatch_rules_out_chirho("2thessalonians"@, spec_book_name_chirho(13), 1, 1);
        } else if k == 46 {
            reveal_strlit("2 Corinthians");
            lemma_mismatch_rules_out_chirho("2thessalonians"@, spec_book_name_chirho(46), 1, 1);
        } else {
            lemma_book_initial_chirho(k);
            lemma_book_initial_classes_chirho(k);
            lemma_first_char_rules_out_chirho("2thessalonians"@, spec_book_name_chirho(k));
        }
    }
}

proof fn lemma_abbreviation_136_chirho()
    ensures
        spec_names_book_chirho("2thess"@, 52),
        forall|k: int| 0 <= k < 52 ==> !#[trigger] spec_names_book_chirho("2thess"@, k),
{
    reveal_strlit("2thess");
    reveal_strlit("2 Thessalonians");
    reveal_strlit("jdg");
    reveal_strlit("1kgs");
    reveal_strlit("2kgs");
    reveal_strlit("sos");
    reveal_strlit("mk");
    reveal_strlit("lk");
    reveal_strlit("jn");
    reveal_strlit("php");
    reveal_strlit("phm");
    reveal_strlit("phlm");
    reveal_strlit("jas");
    reveal_strlit("1jn");
    reveal_strlit("2jn");
    reveal_strlit("3jn");
    let l = spec_ascii_lowercase_chirho("2 Thessalonians"@);
    assert((seq![l[0]] + l.skip(2)).take(6) =~= "2thess"@);
    assert forall|k: int| 0 <= k < 52 implies !#[trigger] spec_names_book_chirho("2thess"@, k) by {
        if k == 9 {
            reveal_strlit("2 Samuel");
            lemma_mismatch_rules_out_chirho("2thess"@, spec_book_name_chirho(9), 1, 1);
        } else if k == 11 {
            reveal_strlit("2 Kings");
            lemma_mismatch_rules_out_chirho("2thess"@, spec_book_name_chirho(11), 1, 1);
        } else if k == 13 {
            reveal_strlit("2 Chronicles");
            lemma_mismatch_rules_out_chirho("2thess"@, spec_book_name_chirho(13), 1, 1);
        } else if k == 46 {
            reveal_strlit("2 Corinthians");
            lemma_mismatch_rules_out_chirho("2thess"@, spec_book_name_chirho(46), 1, 1);
        } else {
            lemma_book_initial_chirho(k);
            lemma_book_initial_classes_chirho(k);
            lemma_first_char_rules_out_chirho("2thess"@, spec_book_name_chirho(k));
        }
    }
}

proof fn lemma_abbreviation_137_chirho()
    ensures
        spec_names_book_chirho("2th"@, 52),
        forall|k: int| 0 <= k < 52 ==> !#[trigger] spec_names_book_chirho("2th"@, k),
{
    reveal_strlit("2th");
    reveal_strlit("2 Thessalonians");
    reveal_strlit("jdg");
    reveal_strlit("1kgs");
    reveal_strlit("2kgs");
    reveal_strlit("sos");
    reveal_strlit("mk");
    reveal_strlit("lk");
    reveal_strlit("jn");
    reveal_strlit("php");
    reveal_strlit("phm");
    reveal_strlit("phlm");
    reveal_strlit("jas");
    reveal_strlit("1jn");
    reveal_strlit("2jn");
    reveal_strlit("3jn");
    assert("2th"@[0] != "jdg"@[0]);
    assert("2th"@[0] != "sos"@[0]);
    assert("2th"@[0] != "php"@[0]);
    assert("2th"@[0] != "phm"@[0]);
    assert("2th"@[0] != "jas"@[0]);
    assert("2th"@[0] != "1jn"@[0]);
    assert("2th"@[1] != "2jn"@[1]);
    assert("2th"@[0] != "3jn"@[0]);
    let l = spec_ascii_lowercase_chirho("2 Thessalonians"@);
    assert((seq![l[0]] + l.skip(2)).take(3) =~= "2th"@);
    assert forall|k: int| 0 <= k < 52 implies !#[trigger] spec_names_book_chirho("2th"@, k) by {
        if k == 9 {
            reveal_strlit("2 Samuel");
            lemma_mismatch_rules_out_chirho("2th"@, spec_book_name_chirho(9), 1, 1);
        } else if k == 11 {
            reveal_strlit("2 Kings");
            lemma_mismatch_rules_out_chirho("2th"@, spec_book_name_chirho(11), 1, 1);
        } else if k == 13 {
            reveal_strlit("2 Chronicles");
            lemma_mismatch_rules_out_chirho("2th"@, spec_book_name_chirho(13), 1, 1);
        } else if k == 46 {
            reveal_strlit("2 Corinthians");
            lemma_mismatch_rules_out_chirho("2th"@, spec_book_name_chirho(46), 1, 1);
        } else {
            lemma_book_initial_chirho(k);
            lemma_book_initial_classes_chirho(k);
            lemma_first_char_rules_out_chirho("2th"@, spec_book_name_chirho(k));
        }
    }
}

proof fn lemma_abbreviation_138_chirho()
    ensures
        spec_names_book_chirho("1 timothy"@, 53),
        forall|k: int| 0 <= k < 53 ==> !#[trigger] spec_names_book_chirho("1 timothy"@, k),
{
    reveal_strlit("1 timothy");
    reveal_strlit("1 Timothy");
    reveal_strlit("jdg");
    reveal_strlit("1kgs");
    reveal_strlit("2kgs");
    reveal_strlit("sos");
    reveal_strlit("mk");
    reveal_strlit("lk");
    reveal_strlit("jn");
    reveal_strlit("php");
    reveal_strlit("phm");
    reveal_strlit("phlm");
    reveal_strlit("jas");
    reveal_strlit("1jn");
    reveal_strlit("2jn");
    reveal_strlit("3jn");
    assert(spec_ascii_lowercase_chirho("1 Timothy"@).take(9) =~= "1 timothy"@);
    assert forall|k: int| 0 <= k < 53 implies !#[trigger] spec_names_book_chirho("1 timothy"@, k) by {
        if k == 8 {
            reveal_strlit("1 Samuel");
            lemma_mismatch_rules_out_chirho("1 timothy"@, spec_book_name_chirho(8), 2, 1);
        } else if k == 10 {
            reveal_strlit("1 Kings");
            lemma_mismatch_rules_out_chirho("1 timothy"@, spec_book_name_chirho(10), 2, 1);
        } else if k == 12 {
            reveal_strlit("1 Chronicles");
            lemma_mismatch_rules_out_chirho("1 timothy"@, spec_book_name_chirho(12), 2, 1);
        } else if k == 45 {
            reveal_strlit("1 Corinthians");
            lemma_mismatch_rules_out_chirho("1 timothy"@, spec_book_name_chirho(45), 2, 1);
        } else if k == 51 {
            reveal_strlit("1 Thessalonians");
            lemma_mismatch_rules_out_chirho("1 timothy"@, spec_book_name_chirho(51), 3, 1);
        } else {
            lemma_book_initial_chirho(k);
            lemma_book_initial_classes_chirho(k);
            lemma_first_char_rules_out_chirho("1 timothy"@, spec_book_name_chirho(k));
        }
    }
}

proof fn lemma_abbreviation_139_chirho()
    ensures
        spec_names_book_chirho("1timothy"@, 53),
        forall|k: int| 0 <= k < 53 ==> !#[trigger] spec_names_book_chirho("1timothy"@, k),
{
    reveal_strlit("1timothy");
    reveal_strlit("1 Timothy");
    reveal_strlit("jdg");
    reveal_strlit("1kgs");
    reveal_strlit("2kgs");
    reveal_strlit("sos");
    reveal_strlit("mk");
    reveal_strlit("lk");
    reveal_strlit("jn");
    reveal_strlit("php");
    reveal_strlit("phm");
    reveal_strlit("phlm");
    reveal_strlit("jas");
    reveal_strlit("1jn");
    reveal_strlit("2jn");
    reveal_strlit("3jn");
    let l = spec_ascii_lowercase_chirho("1 Timothy"@);
    assert((seq![l[0]] + l.skip(2)).take(8) =~= "1timothy"@);
    assert forall|k: int| 0 <= k < 53 implies !#[trigger] spec_names_book_chirho("1timothy"@, k) by {
        if k == 8 {
            reveal_strlit("1 Samuel");
            lemma_mismatch_rules_out_chirho("1timothy"@, spec_book_name_chirho(8), 1, 1);
        } else if k == 10 {
            reveal_strlit("1 Kings");
            lemma_mismatch_rules_out_chirho("1timothy"@, spec_book_name_chirho(10), 1, 1);
        } else if k == 12 {
            reveal_strlit("1 Chronicles");
            lemma_mismatch_rules_out_chirho("1timothy"@, spec_book_name_chirho(12), 1, 1);
        } else if k == 45 {
            reveal_strlit("1 Corinthians");
            lemma_mismatch_rules_out_chirho("1timothy"@, spec_book_name_chirho(45), 1, 1);
        } else if k == 51 {
            reveal_strlit("1 Thessalonians");
            lemma_mismatch_rules_out_chirho("1timothy"@, spec_book_name_chirho(51), 1, 2);
        } else {
            lemma_book_initial_chirho(k);
            lemma_book_initial_classes_chirho(k);
            lemma_first_char_rules_out_chirho("1timothy"@, spec_book_name_chirho(k));
        }
    }
}

proof fn lemma_abbreviation_140_chirho()
    ensures
        spec_names_book_chirho("1tim"@, 53),
        forall|k: int| 0 <= k < 53 ==> !#[trigger] spec_names_book_chirho("1tim"@, k),
{
    reveal_strlit("1tim");
    reveal_strlit("1 Timothy");
    reveal_strlit("jdg");
    reveal_strlit("1kgs");
    reveal_strlit("2kgs");
    reveal_strlit("sos");
    reveal_strlit("mk");
    reveal_strlit("lk");
    reveal_strlit("jn");
    reveal_strlit("php");
    reveal_strlit("phm");
    reveal_strlit("phlm");
    reveal_strlit("jas");
    reveal_strlit("1jn");
    reveal_strlit("2jn");
    reveal_strlit("3jn");
    assert("1tim"@[1] != "1kgs"@[1]);
    assert("1tim"@[0] != "2kgs"@[0]);
    assert("1tim"@[0] != "phlm"@[0]);
    let l = spec_ascii_lowercase_chirho("1 Timothy"@);
    assert((seq![l[0]] + l.skip(2)).take(4) =~= "1tim"@);
    assert forall|k: int| 0 <= k < 53 implies !#[trigger] spec_names_book_chirho("1tim"@, k) by {
        if k == 8 {
            reveal_strlit("1 Samuel");
            lemma_mismatch_rules_out_chirho("1tim"@, spec_book_name_chirho(8), 1, 1);
        } else if k == 10 {
            reveal_strlit("1 Kings");
            lemma_mismatch_rules_out_chirho("1tim"@, spec_book_name_chirho(10), 1, 1);
        } else if k == 12 {
            reveal_strlit("1 Chronicles");
            lemma_mismatch_rules_out_chirho("1tim"@, spec_book_name_chirho(12), 1, 1);
        } else if k == 45 {
            reveal_strlit("1 Corinthians");
            lemma_mismatch_rules_out_chirho("1tim"@, spec_book_name_chirho(45), 1, 1);
        } else if k == 51 {
            reveal_strlit("1 Thessalonians");
            lemma_mismatch_rules_out_chirho("1tim"@, spec_book_name_chirho(51), 1, 2);
        } else {
            lemma_book_initial_chirho(k);
            lemma_book_initial_classes_chirho(k);
            lemma_first_char_rules_out_chirho("1tim"@, spec_book_name_chirho(k));
        }
    }
}

proof fn lemma_abbreviation_141_chirho()
    ensures
        spec_names_book_chirho("1ti"@, 53),
        forall|k: int| 0 <= k < 53 ==> !#[trigger] spec_names_book_chirho("1ti"@, k),
{
    reveal_strlit("1ti");
    reveal_strlit("1 Timothy");
    reveal_strlit("jdg");
    reveal_strlit("1kgs");
    reveal_strlit("2kgs");
    reveal_strlit("sos");
    reveal_strlit("mk");
    reveal_strlit("lk");
    reveal_strlit("jn");
    reveal_strlit("php");
    reveal_strlit("phm");
    reveal_strlit("phlm");
    reveal_strlit("jas");
    reveal_strlit("1jn");
    reveal_strlit("2jn");
    reveal_strlit("3jn");
    assert("1ti"@[0] != "jdg"@[0]);
    assert("1ti"@[0] != "sos"@[0]);
    assert("1ti"@[0] != "php"@[0]);
    assert("1ti"@[0] != "phm"@[0]);
    assert("1ti"@[0] != "jas"@[0]);
    assert("1ti"@[1] != "1jn"@[1]);
    assert("1ti"@[0] != "2jn"@[0]);
    assert("1ti"@[0] != "3jn"@[0]);
    let l = spec_ascii_lowercase_chirho("1 Timothy"@);
    assert((seq![l[0]] + l.skip(2)).take(3) =~= "1ti"@);
    assert forall|k: int| 0 <= k < 53 implies !#[trigger] spec_names_book_chirho("1ti"@, k) by {
        if k == 8 {
            reveal_strlit("1 Samuel");
            lemma_mismatch_rules_out_chirho("1ti"@, spec_book_name_chirho(8), 1, 1);
        } else if k == 10 {
            reveal_strlit("1 Kings");
            lemma_mismatch_rules_out_chirho("1ti"@, spec_book_name_chirho(10), 1, 1);
        } else if k == 12 {
            reveal_strlit("1 Chronicles");
            lemma_mismatch_rules_out_chirho("1ti"@, spec_book_name_chirho(12), 1, 1);
        } else if k == 45 {
            reveal_strlit("1 Corinthians");
            lemma_mismatch_rules_out_chirho("1ti"@, spec_book_name_chirho(45), 1, 1);
        } else if k == 51 {
            reveal_strlit("1 Thessalonians");
            lemma_mismatch_rules_out_chirho("1ti"@, spec_book_name_chirho(51), 1, 2);
        } else {
            lemma_book_initial_chirho(k);
            lemma_book_initial_classes_chirho(k);
            lemma_first_char_rules_out_chirho("1ti"@, spec_book_name_chirho(k));
        }
    }
}

proof fn lemma_abbreviation_142_chirho()
    ensures
        spec_names_book_chirho("2 timothy"@, 54),
        forall|k: int| 0 <= k < 54 ==> !#[trigger] spec_names_book_chirho("2 timothy"@, k),
{
    reveal_strlit("2 timothy");
    reveal_strlit("2 Timothy");
    reveal_strlit("jdg");
    reveal_strlit("1kgs");
    reveal_strlit("2kgs");
    reveal_strlit("sos");
    reveal_strlit("mk");
    reveal_strlit("lk");
    reveal_strlit("jn");
    reveal_strlit("php");
    reveal_strlit("phm");
    reveal_strlit("phlm");
    reveal_strlit("jas");
    reveal_strlit("1jn");
    reveal_strlit("2jn");
    reveal_strlit("3jn");
    assert(spec_ascii_lowercase_chirho("2 Timothy"@).take(9) =~= "2 timothy"@);
    assert forall|k: int| 0 <= k < 54 implies !#[trigger] spec_names_book_chirho("2 timothy"@, k) by {
        if k == 9 {
            reveal_strlit("2 Samuel");
            lemma_mismatch_rules_out_chirho("2 timothy"@, spec_book_name_chirho(9), 2, 1);
        } else if k == 11 {
            reveal_strlit("2 Kings");
            lemma_mismatch_rules_out_chirho("2 timothy"@, spec_book_name_chirho(11), 2, 1);
        } else if k == 13 {
            reveal_strlit("2 Chronicles");
            lemma_mismatch_rules_out_chirho("2 timothy"@, spec_book_name_chirho(13), 2, 1);
        } else if k == 46 {
            reveal_strlit("2 Corinthians");
            lemma_mismatch_rules_out_chirho("2 timothy"@, spec_book_name_chirho(46), 2, 1);
        } else if k == 52 {
            reveal_strlit("2 Thessalonians");
            lemma_mismatch_rules_out_chirho("2 timothy"@, spec_book_name_chirho(52), 3, 1);
        } else {
            lemma_book_initial_chirho(k);
            lemma_book_initial_classes_chirho(k);
            lemma_first_char_rules_out_chirho("2 timothy"@, spec_book_name_chirho(k));
        }
    }
}

proof fn lemma_abbreviation_143_chirho()
    ensures
        spec_names_book_chirho("2timothy"@, 54),
        forall|k: int| 0 <= k < 54 ==> !#[trigger] spec_names_book_chirho("2timothy"@, k),
{
    reveal_strlit("2timothy");
    reveal_strlit("2 Timothy");
    reveal_strlit("jdg");
    reveal_strlit("1kgs");
    reveal_strlit("2kgs");
    reveal_strlit("sos");
    reveal_strlit("mk");
    reveal_strlit("lk");
    reveal_strlit("jn");
    reveal_strlit("php");
    reveal_strlit("phm");
    reveal_strlit("phlm");
    reveal_strlit("jas");
    reveal_strlit("1jn");
    reveal_strlit("2jn");
    reveal_strlit("3jn");
    let l = spec_ascii_lowercase_chirho("2 Timothy"@);
    assert((seq![l[0]] + l.skip(2)).take(8) =~= "2timothy"@);
    assert forall|k: int| 0 <= k < 54 implies !#[trigger] spec_names_book_chirho("2timothy"@, k) by {
        if k == 9 {
            reveal_strlit("2 Samuel");
            lemma_mismatch_rules_out_chirho("2timothy"@, spec_book_name_chirho(9), 1, 1);
        } else if k == 11 {
            reveal_strlit("2 Kings");
            lemma_mismatch_rules_out_chirho("2timothy"@, spec_book_name_chirho(11), 1, 1);
        } else if k == 13 {
            reveal_strlit("2 Chronicles");
            lemma_mismatch_rules_out_chirho("2timothy"@, spec_book_name_chirho(13), 1, 1);
        } else if k == 46 {
            reveal_strlit("2 Corinthians");
            lemma_mismatch_rules_out_chirho("2timothy"@, spec_book_name_chirho(46), 1, 1);
        } else if k == 52 {
            reveal_strlit("2 Thessalonians");
            lemma_mismatch_rules_out_chirho("2timothy"@, spec_book_name_chirho(52), 1, 2);
        } else {
            lemma_book_initial_chirho(k);
            lemma_book_initial_classes_chirho(k);
            lemma_first_char_rules_out_chirho("2timothy"@, spec_book_name_chirho(k));
        }
    }
}

proof fn lemma_abbreviation_144_chirho()
    ensures
        spec_names_book_chirho("2tim"@, 54),
        forall|k: int| 0 <= k < 54 ==> !#[trigger] spec_names_book_chirho("2tim"@, k),
{
    reveal_strlit("2tim");
    reveal_strlit("2 Timothy");
    reveal_strlit("jdg");
    reveal_strlit("1kgs");
    reveal_strlit("2kgs");
    reveal_strlit("sos");
    reveal_strlit("mk");
    reveal_strlit("lk");
    reveal_strlit("jn");
    reveal_strlit("php");
    reveal_strlit("phm");
    reveal_strlit("phlm");
    reveal_strlit("jas");
    reveal_strlit("1jn");
    reveal_strlit("2jn");
    reveal_strlit("3jn");
    assert("2tim"@[0] != "1kgs"@[0]);
    assert("2tim"@[1] != "2kgs"@[1]);
    assert("2tim"@[0] != "phlm"@[0]);
    let l = spec_ascii_lowercase_chirho("2 Timothy"@);
    assert((seq![l[0]] + l.skip(2)).take(4) =~= "2tim"@);
    assert forall|k: int| 0 <= k < 54 implies !#[trigger] spec_names_book_chirho("2tim"@, k) by {
        if k == 9 {
            reveal_strlit("2 Samuel");
            lemma_mismatch_rules_out_chirho("2tim"@, spec_book_name_chirho(9), 1, 1);
        } else if k == 11 {
            reveal_strlit("2 Kings");
            lemma_mismatch_rules_out_chirho("2tim"@, spec_book_name_chirho(11), 1, 1);
        } else if k == 13 {
            reveal_strlit("2 Chronicles");
            lemma_mismatch_rules_out_chirho("2tim"@, spec_book_name_chirho(13), 1, 1);
        } else if k == 46 {
            reveal_strlit("2 Corinthians");
            lemma_mismatch_rules_out_chirho("2tim"@, spec_book_name_chirho(46), 1, 1);
        } else if k == 52 {
            reveal_strlit("2 Thessalonians");
            lemma_mismatch_rules_out_chirho("2tim"@, spec_book_name_chirho(52), 1, 2);
        } else {
            lemma_book_initial_chirho(k);
            lemma_book_initial_classes_chirho(k);
            lemma_first_char_rules_out_chirho("2tim"@, spec_book_name_chirho(k));
        }
    }
}

proof fn lemma_abbreviation_145_chirho()
    ensures
        spec_names_book_chirho("2ti"@, 54),
        forall|k: int| 0 <= k < 54 ==> !#[trigger] spec_names_book_chirho("2ti"@, k),
{
    reveal_strlit("2ti");
    reveal_strlit("2 Timothy");
    reveal_strlit("jdg");
    reveal_strlit("1kgs");
    reveal_strlit("2kgs");
    reveal_strlit("sos");
    reveal_strlit("mk");
    reveal_strlit("lk");
    reveal_strlit("jn");
    reveal_strlit("php");
    reveal_strlit("phm");
    reveal_strlit("phlm");
    reveal_strlit("jas");
    reveal_strlit("1jn");
    reveal_strlit("2jn");
    reveal_strlit("3jn");
    assert("2ti"@[0] != "jdg"@[0]);
    assert("2ti"@[0] != "sos"@[0]);
    assert("2ti"@[0] != "php"@[0]);
    assert("2ti"@[0] != "phm"@[0]);
    assert("2ti"@[0] != "jas"@[0]);
    assert("2ti"@[0] != "1jn"@[0]);
    assert("2ti"@[1] != "2jn"@[1]);
    assert("2ti"@[0] != "3jn"@[0]);
    let l = spec_ascii_lowercase_chirho("2 Timothy"@);
    assert((seq![l[0]] + l.skip(2)).take(3) =~= "2ti"@);
    assert forall|k: int| 0 <= k < 54 implies !#[trigger] spec_names_book_chirho("2ti"@, k) by {
        if k == 9 {
            reveal_strlit("2 Samuel");
            lemma_mismatch_rules_out_chirho("2ti"@, spec_book_name_chirho(9), 1, 1);
        } else if k == 11 {
            reveal_strlit("2 Kings");
            lemma_mismatch_rules_out_chirho("2ti"@, spec_book_name_chirho(11), 1, 1);
        } else if k == 13 {
            reveal_strlit("2 Chronicles");
            lemma_mismatch_rules_out_chirho("2ti"@, spec_book_name_chirho(13), 1, 1);
        } else if k == 46 {
            reveal_strlit("2 Corinthians");
            lemma_mismatch_rules_out_chirho("2ti"@, spec_book_name_chirho(46), 1, 1);
        } else if k == 52 {
            reveal_strlit("2 Thessalonians");
            lemma_mismatch_rules_out_chirho("2ti"@, spec_book_name_chirho(52), 1, 2);
        } else {
            lemma_book_initial_chirho(k);
            lemma_book_initial_classes_chirho(k);
            lemma_first_char_rules_out_chirho("2ti"@, spec_book_name_chirho(k));
        }
    }
}

proof fn lemma_abbreviation_146_chirho()
    ensures
        spec_names_book_chirho("titus"@, 55),
        forall|k: int| 0 <= k < 55 ==> !#[trigger] spec_names_book_chirho("titus"@, k),
{
    reveal_strlit("titus");
    reveal_strlit("Titus");
    reveal_strlit("jdg");
    reveal_strlit("1kgs");
    reveal_strlit("2kgs");
    reveal_strlit("sos");
    reveal_strlit("mk");
    reveal_strlit("lk");
    reveal_strlit("jn");
    reveal_strlit("php");
    reveal_strlit("phm");
    reveal_strlit("phlm");
    reveal_strlit("jas");
    reveal_strlit("1jn");
    reveal_strlit("2jn");
    reveal_strlit("3jn");
    assert(spec_ascii_lowercase_chirho("Titus"@).take(5) =~= "titus"@);
    assert forall|k: int| 0 <= k < 55 implies !#[trigger] spec_names_book_chirho("titus"@, k) by {
        lemma_book_initial_chirho(k);
        lemma_book_initial_classes_chirho(k);
        lemma_first_char_rules_out_chirho("titus"@, spec_book_name_chirho(k));
    }
}

proof fn lemma_abbreviation_147_chirho()
    ensures
        spec_names_book_chirho("tit"@, 55),
        forall|k: int| 0 <= k < 55 ==> !#[trigger] spec_names_book_chirho("tit"@, k),
{
    reveal_strlit("tit");
    reveal_strlit("Titus");
    reveal_strlit("jdg");
    reveal_strlit("1kgs");
    reveal_strlit("2kgs");
    reveal_strlit("sos");
    reveal_strlit("mk");
    reveal_strlit("lk");
    reveal_strlit("jn");
    reveal_strlit("php");
    reveal_strlit("phm");
    reveal_strlit("phlm");
    reveal_strlit("jas");
    reveal_strlit("1jn");
    reveal_strlit("2jn");
    reveal_strlit("3jn");
    assert("tit"@[0] != "jdg"@[0]);
    assert("tit"@[0] != "sos"@[0]);
    assert("tit"@[0] != "php"@[0]);
    assert("tit"@[0] != "phm"@[0]);
    assert("tit"@[0] != "jas"@[0]);
    assert("tit"@[0] != "1jn"@[0]);
    assert("tit"@[0] != "2jn"@[0]);
    assert("tit"@[0] != "3jn"@[0]);
    assert(spec_ascii_lowercase_chirho("Titus"@).take(3) =~= "tit"@);
    assert forall|k: int| 0 <= k < 55 implies !#[trigger] spec_names_book_chirho("tit"@, k) by {
        lemma_book_initial_chirho(k);
        lemma_book_initial_classes_chirho(k);
        lemma_first_char_rules_out_chirho("tit"@, spec_book_name_chirho(k));
    }
}

proof fn lemma_abbreviation_148_chirho()
    ensures
        spec_names_book_chirho("philemon"@, 56),
        forall|k: int| 0 <= k < 56 ==> !#[trigger] spec_names_book_chirho("philemon"@, k),
{
    reveal_strlit("philemon");
    reveal_strlit("Philemon");
    reveal_strlit("jdg");
    reveal_strlit("1kgs");
    reveal_strlit("2kgs");
    reveal_strlit("sos");
    reveal_strlit("mk");
    reveal_strlit("lk");
    reveal_strlit("jn");
    reveal_strlit("php");
    reveal_strlit("phm");
    reveal_strlit("phlm");
    reveal_strlit("jas");
    reveal_strlit("1jn");
    reveal_strlit("2jn");
    reveal_strlit("3jn");
    assert(spec_ascii_lowercase_chirho("Philemon"@).take(8) =~= "philemon"@);
    assert forall|k: int| 0 <= k < 56 implies !#[trigger] spec_names_book_chirho("philemon"@, k) by {
        if k == 18 {
            reveal_strlit("Psalms");
            lemma_mismatch_rules_out_chirho("philemon"@, spec_book_name_chirho(18), 1, 0);
        } else if k == 19 {
            reveal_strlit("Proverbs");
            lemma_mismatch_rules_out_chirho("philemon"@, spec_book_name_chirho(19), 1, 0);
        } else if k == 49 {
            reveal_strlit("Philippians");
            lemma_mismatch_rules_out_chirho("philemon"@, spec_book_name_chirho(49), 4, 0);
        } else {
            lemma_book_initial_chirho(k);
            lemma_book_initial_classes_chirho(k);
            lemma_first_char_rules_out_chirho("philemon"@, spec_book_name_chirho(k));
        }
    }
}

proof fn lemma_abbreviation_149_chirho()
    ensures
        spec_names_book_chirho("phm"@, 56),
        forall|k: int| 0 <= k < 56 ==> !#[trigger] spec_names_book_chirho("phm"@, k),
{
    reveal_strlit("phm");
    reveal_strlit("Philemon");
    reveal_strlit("jdg");
    reveal_strlit("1kgs");
    reveal_strlit("2kgs");
    reveal_strlit("sos");
    reveal_strlit("mk");
    reveal_strlit("lk");
    reveal_strlit("jn");
    reveal_strlit("php");
    reveal_strlit("phm");
    reveal_strlit("phlm");
    reveal_strlit("jas");
    reveal_strlit("1jn");
    reveal_strlit("2jn");
    reveal_strlit("3jn");
    assert("phm"@[0] != "jdg"@[0]);
    assert("phm"@[0] != "sos"@[0]);
    assert("phm"@[2] != "php"@[2]);
    assert("phm"@[0] != "jas"@[0]);
    assert("phm"@[0] != "1jn"@[0]);
    assert("phm"@[0] != "2jn"@[0]);
    assert("phm"@[0] != "3jn"@[0]);
    assert(spec_short_form_chirho("phm"@, 56));
    assert forall|k: int| 0 <= k < 56 implies !#[trigger] spec_names_book_chirho("phm"@, k) by {
        if k == 18 {
            reveal_strlit("Psalms");
            lemma_mismatch_rules_out_chirho("phm"@, spec_book_name_chirho(18), 1, 0);
        } else if k == 19 {
            reveal_strlit("Proverbs");
            lemma_mismatch_rules_out_chirho("phm"@, spec_book_name_chirho(19), 1, 0);
        } else if k == 49 {
            reveal_strlit("Philippians");
            lemma_mismatch_rules_out_chirho("phm"@, spec_book_name_chirho(49), 2, 0);
        } else {
            lemma_book_initial_chirho(k);
            lemma_book_initial_classes_chirho(k);
            lemma_first_char_rules_out_chirho("phm"@, spec_book_name_chirho(k));
        }
    }
}

proof fn lemma_abbreviation_150_chirho()
    ensures
        spec_names_book_chirho("phlm"@, 56),
        forall|k: int| 0 <= k < 56 ==> !#[trigger] spec_names_book_chirho("phlm"@, k),
{
    reveal_strlit("phlm");
    reveal_strlit("Philemon");
    reveal_strlit("jdg");
    reveal_strlit("1kgs");
    reveal_strlit("2kgs");
    reveal_strlit("sos");
    reveal_strlit("mk");
    reveal_strlit("lk");
    reveal_strlit("jn");
    reveal_strlit("php");
    reveal_strlit("phm");
    reveal_strlit("phlm");
    reveal_strlit("jas");
    reveal_strlit("1jn");
    reveal_strlit("2jn");
    reveal_strlit("3jn");
    assert("phlm"@[0] != "1kgs"@[0]);
    assert("phlm"@[0] != "2kgs"@[0]);
    assert(spec_short_form_chirho("phlm"@, 56));
    assert forall|k: int| 0 <= k < 56 implies !#[trigger] spec_names_book_chirho("phlm"@, k) by {
        if k == 18 {
            reveal_strlit("Psalms");
            lemma_mismatch_rules_out_chirho("phlm"@, spec_book_name_chirho(18), 1, 0);
        } else if k == 19 {
            reveal_strlit("Proverbs");
            lemma_mismatch_rules_out_chirho("phlm"@, spec_book_name_chirho(19), 1, 0);
        } else if k == 49 {
            reveal_strlit("Philippians");
            lemma_mismatch_rules_out_chirho("phlm"@, spec_book_name_chirho(49), 2, 0);
        } else {
            lemma_book_initial_chirho(k);
            lemma_book_initial_classes_chirho(k);
            lemma_first_char_rules_out_chirho("phlm"@, spec_book_name_chirho(k));
        }
    }
}

proof fn lemma_abbreviation_151_chirho()
    ensures
        spec_names_book_chirho("hebrews"@, 57),
        forall|k: int| 0 <= k < 57 ==> !#[trigger] spec_names_book_chirho("hebrews"@, k),
{
    reveal_strlit("hebrews");
    reveal_strlit("Hebrews");
    reveal_strlit("jdg");
    reveal_strlit("1kgs");
    reveal_strlit("2kgs");
    reveal_strlit("sos");
    reveal_strlit("mk");
    reveal_strlit("lk");
    reveal_strlit("jn");
    reveal_strlit("php");
    reveal_strlit("phm");
    reveal_strlit("phlm");
    reveal_strlit("jas");
    reveal_strlit("1jn");
    reveal_strlit("2jn");
    reveal_strlit("3jn");
    assert(spec_ascii_lowercase_chirho("Hebrews"@).take(7) =~= "hebrews"@);
    assert forall|k: int| 0 <= k < 57 implies !#[trigger] spec_names_book_chirho("hebrews"@, k) by {
        if k == 27 {
            reveal_strlit("Hosea");
            lemma_mismatch_rules_out_chirho("hebrews"@, spec_book_name_chirho(27), 1, 0);
        } else if k == 34 {
            reveal_strlit("Habakkuk");
            lemma_mismatch_rules_out_chirho("hebrews"@, spec_book_name_chirho(34), 1, 0);
        } else if k == 36 {
            reveal_strlit("Haggai");
            lemma_mismatch_rules_out_chirho("hebrews"@, spec_book_name_chirho(36), 1, 0);
        } else {
            lemma_book_initial_chirho(k);
            lemma_book_initial_classes_chirho(k);
            lemma_first_char_rules_out_chirho("hebrews"@, spec_book_name_chirho(k));
        }
    }
}

proof fn lemma_abbreviation_152_chirho()
    ensures
        spec_names_book_chirho("heb"@, 57),
        forall|k: int| 0 <= k < 57 ==> !#[trigger] spec_names_book_chirho("heb"@, k),
{
    reveal_strlit("heb");
    reveal_strlit("Hebrews");
    reveal_strlit("jdg");
    reveal_strlit("1kgs");
    reveal_strlit("2kgs");
    reveal_strlit("sos");
    reveal_strlit("mk");
    reveal_strlit("lk");
    reveal_strlit("jn");
    reveal_strlit("php");
    reveal_strlit("phm");
    reveal_strlit("phlm");
    reveal_strlit("jas");
    reveal_strlit("1jn");
    reveal_strlit("2jn");
    reveal_strlit("3jn");
    assert("heb"@[0] != "jdg"@[0]);
    assert("heb"@[0] != "sos"@[0]);
    assert("heb"@[0] != "php"@[0]);
    assert("heb"@[0] != "phm"@[0]);
    assert("heb"@[0] != "jas"@[0]);
    assert("heb"@[0] != "1jn"@[0]);
    assert("heb"@[0] != "2jn"@[0]);
    assert("heb"@[0] != "3jn"@[0]);
    assert(spec_ascii_lowercase_chirho("Hebrews"@).take(3) =~= "heb"@);
    assert forall|k: int| 0 <= k < 57 implies !#[trigger] spec_names_book_chirho("heb"@, k) by {
        if k == 27 {
            reveal_strlit("Hosea");
            lemma_mismatch_rules_out_chirho("heb"@, spec_book_name_chirho(27), 1, 0);
        } else if k == 34 {
            reveal_strlit("Habakkuk");
            lemma_mismatch_rules_out_chirho("heb"@, spec_book_name_chirho(34), 1, 0);
        } else if k == 36 {
            reveal_strlit("Haggai");
            lemma_mismatch_rules_out_chirho("heb"@, spec_book_name_chirho(36), 1, 0);
        } else {
            lemma_book_initial_chirho(k);
            lemma_book_initial_classes_chirho(k);
            lemma_first_char_rules_out_chirho("heb"@, spec_book_name_chirho(k));
        }
    }
}

proof fn lemma_abbreviation_153_chirho()
    ensures
        spec_names_book_chirho("james"@, 58),
        forall|k: int| 0 <= k < 58 ==> !#[trigger] spec_names_book_chirho("james"@, k),
{
    reveal_strlit("james");
    reveal_strlit("James");
    reveal_strlit("jdg");
    reveal_strlit("1kgs");
    reveal_strlit("2kgs");
    reveal_strlit("sos");
    reveal_strlit("mk");
    reveal_strlit("lk");
    reveal_strlit("jn");
    reveal_strlit("php");
    reveal_strlit("phm");
    reveal_strlit("phlm");
    reveal_strlit("jas");
    reveal_strlit("1jn");
    reveal_strlit("2jn");
    reveal_strlit("3jn");
    assert(spec_ascii_lowercase_chirho("James"@).take(5) =~= "james"@);
    assert forall|k: int| 0 <= k < 58 implies !#[trigger] spec_names_book_chirho("james"@, k) by {
        if k == 5 {
            reveal_strlit("Joshua");
            lemma_mismatch_rules_out_chirho("james"@, spec_book_name_chirho(5), 1, 0);
        } else if k == 6 {
            reveal_strlit("Judges");
            lemma_mismatch_rules_out_chirho("james"@, spec_book_name_chirho(6), 1, 0);
        } else if k == 17 {
            reveal_strlit("Job");
            lemma_mismatch_rules_out_chirho("james"@, spec_book_name_chirho(17), 1, 0);
        } else if k == 23 {
            reveal_strlit("Jeremiah");
            lemma_mismatch_rules_out_chirho("james"@, spec_book_name_chirho(23), 1, 0);
        } else if k == 28 {
            reveal_strlit("Joel");
            lemma_mismatch_rules_out_chirho("james"@, spec_book_name_chirho(28), 1, 0);
        } else if k == 31 {
            reveal_strlit("Jonah");
            lemma_mismatch_rules_out_chirho("james"@, spec_book_name_chirho(31), 1, 0);
        } else if k == 42 {
            reveal_strlit("John");
            lemma_mismatch_rules_out_chirho("james"@, spec_book_name_chirho(42), 1, 0);
        } else {
            lemma_book_initial_chirho(k);
            lemma_book_initial_classes_chirho(k);
            lemma_first_char_rules_out_chirho("james"@, spec_book_name_chirho(k));
        }
    }
}

proof fn lemma_abbreviation_154_chirho()
    ensures
        spec_names_book_chirho("jas"@, 58),
        forall|k: int| 0 <= k < 58 ==> !#[trigger] spec_names_book_chirho("jas"@, k),
{
    reveal_strlit("jas");
    reveal_strlit("James");
    reveal_strlit("jdg");
    reveal_strlit("1kgs");
    reveal_strlit("2kgs");
    reveal_strlit("sos");
    reveal_strlit("mk");
    reveal_strlit("lk");
    reveal_strlit("jn");
    reveal_strlit("php");
    reveal_strlit("phm");
    reveal_strlit("phlm");
    reveal_strlit("jas");
    reveal_strlit("1jn");
    reveal_strlit("2jn");
    reveal_strlit("3jn");
    assert("jas"@[1] != "jdg"@[1]);
    assert("jas"@[0] != "sos"@[0]);
    assert("jas"@[0] != "php"@[0]);
    assert("jas"@[0] != "phm"@[0]);
    assert("jas"@[0] != "1jn"@[0]);
    assert("jas"@[0] != "2jn"@[0]);
    assert("jas"@[0] != "3jn"@[0]);
    assert(spec_short_form_chirho("jas"@, 58));
    assert forall|k: int| 0 <= k < 58 implies !#[trigger] spec_names_book_chirho("jas"@, k) by {
        if k == 5 {
            reveal_strlit("Joshua");
            lemma_mismatch_rules_out_chirho("jas"@, spec_book_name_chirho(5), 1, 0);
        } else if k == 6 {
            reveal_strlit("Judges");
            lemma_mismatch_rules_out_chirho("jas"@, spec_book_name_chirho(6), 1, 0);
        } else if k == 17 {
            reveal_strlit("Job");
            lemma_mismatch_rules_out_chirho("jas"@, spec_book_name_chirho(17), 1, 0);
        } else if k == 23 {
            reveal_strlit("Jeremiah");
            lemma_mismatch_rules_out_chirho("jas"@, spec_book_name_chirho(23), 1, 0);
        } else if k == 28 {
            reveal_strlit("Joel");
            lemma_mismatch_rules_out_chirho("jas"@, spec_book_name_chirho(28), 1, 0);
        } else if k == 31 {
            reveal_strlit("Jonah");
            lemma_mismatch_rules_out_chirho("jas"@, spec_book_name_chirho(31), 1, 0);
        } else if k == 42 {
            reveal_strlit("John");
            lemma_mismatch_rules_out_chirho("jas"@, spec_book_name_chirho(42), 1, 0);
        } else {
            lemma_book_initial_chirho(k);
            lemma_book_initial_classes_chirho(k);
            lemma_first_char_rules_out_chirho("jas"@, spec_book_name_chirho(k));
        }
    }
}

proof fn lemma_abbreviation_155_chirho()
    ensures
        spec_names_book_chirho("jam"@, 58),
        forall|k: int| 0 <= k < 58 ==> !#[trigger] spec_names_book_chirho("jam"@, k),
{
    reveal_strlit("jam");
    reveal_strlit("James");
    reveal_strlit("jdg");
    reveal_strlit("1kgs");
    reveal_strlit("2kgs");
    reveal_strlit("sos");
    reveal_strlit("mk");
    reveal_strlit("lk");
    reveal_strlit("jn");
    reveal_strlit("php");
    reveal_strlit("phm");
    reveal_strlit("phlm");
    reveal_strlit("jas");
    reveal_strlit("1jn");
    reveal_strlit("2jn");
    reveal_strlit("3jn");
    assert("jam"@[1] != "jdg"@[1]);
    assert("jam"@[0] != "sos"@[0]);
    assert("jam"@[0] != "php"@[0]);
    assert("jam"@[0] != "phm"@[0]);
    assert("jam"@[2] != "jas"@[2]);
    assert("jam"@[0] != "1jn"@[0]);
    assert("jam"@[0] != "2jn"@[0]);
    assert("jam"@[0] != "3jn"@[0]);
    assert(spec_ascii_lowercase_chirho("James"@).take(3) =~= "jam"@);
    assert forall|k: int| 0 <= k < 58 implies !#[trigger] spec_names_book_chirho("jam"@, k) by {
        if k == 5 {
            reveal_strlit("Joshua");
            lemma_mismatch_rules_out_chirho("jam"@, spec_book_name_chirho(5), 1, 0);
        } else if k == 6 {
            reveal_strlit("Judges");
            lemma_mismatch_rules_out_chirho("jam"@, spec_book_name_chirho(6), 1, 0);
        } else if k == 17 {
            reveal_strlit("Job");
            lemma_mismatch_rules_out_chirho("jam"@, spec_book_name_chirho(17), 1, 0);
        } else if k == 23 {
            reveal_strlit("Jeremiah");
            lemma_mismatch_rules_out_chirho("jam"@, spec_book_name_chirho(23), 1, 0);
        } else if k == 28 {
            reveal_strlit("Joel");
            lemma_mismatch_rules_out_chirho("jam"@, spec_book_name_chirho(28), 1, 0);
        } else if k == 31 {
            reveal_strlit("Jonah");
            lemma_mismatch_rules_out_chirho("jam"@, spec_book_name_chirho(31), 1, 0);
        } else if k == 42 {
            reveal_strlit("John");
            lemma_mismatch_rules_out_chirho("jam"@, spec_book_name_chirho(42), 1, 0);
        } else {
            lemma_book_initial_chirho(k);
            lemma_book_initial_classes_chirho(k);
            lemma_first_char_rules_out_chirho("jam"@, spec_book_name_chirho(k));
        }
    }
}

proof fn lemma_abbreviation_156_chirho()
    ensures
        spec_names_book_chirho("1 peter"@, 59),
        forall|k: int| 0 <= k < 59 ==> !#[trigger] spec_names_book_chirho("1 peter"@, k),
{
    reveal_strlit("1 peter");
    reveal_strlit("1 Peter");
    reveal_strlit("jdg");
    reveal_strlit("1kgs");
    reveal_strlit("2kgs");
    reveal_strlit("sos");
    reveal_strlit("mk");
    reveal_strlit("lk");
    reveal_strlit("jn");
    reveal_strlit("php");
    reveal_strlit("phm");
    reveal_strlit("phlm");
    reveal_strlit("jas");
    reveal_strlit("1jn");
    reveal_strlit("2jn");
    reveal_strlit("3jn");
    assert(spec_ascii_lowercase_chirho("1 Peter"@).take(7) =~= "1 peter"@);
    assert forall|k: int| 0 <= k < 59 implies !#[trigger] spec_names_book_chirho("1 peter"@, k) by {
        if k == 8 {
            reveal_strlit("1 Samuel");
            lemma_mismatch_rules_out_chirho("1 peter"@, spec_book_name_chirho(8), 2, 1);
        } else if k == 10 {
            reveal_strlit("1 Kings");
            lemma_mismatch_rules_out_chirho("1 peter"@, spec_book_name_chirho(10), 2, 1);
        } else if k == 12 {
            reveal_strlit("1 Chronicles");
            lemma_mismatch_rules_out_chirho("1 peter"@, spec_book_name_chirho(12), 2, 1);
        } else if k == 45 {
            reveal_strlit("1 Corinthians");
            lemma_mismatch_rules_out_chirho("1 peter"@, spec_book_name_chirho(45), 2, 1);
        } else if k == 51 {
            reveal_strlit("1 Thessalonians");
            lemma_mismatch_rules_out_chirho("1 peter"@, spec_book_name_chirho(51), 2, 1);
        } else if k == 53 {
            reveal_strlit("1 Timothy");
            lemma_mismatch_rules_out_chirho("1 peter"@, spec_book_name_chirho(53), 2, 1);
        } else {
            lemma_book_initial_chirho(k);
            lemma_book_initial_classes_chirho(k);
            lemma_first_char_rules_out_chirho("1 peter"@, spec_book_name_chirho(k));
        }
    }
}

proof fn lemma_abbreviation_157_chirho()
    ensures
        spec_names_book_chirho("1peter"@, 59),
        forall|k: int| 0 <= k < 59 ==> !#[trigger] spec_names_book_chirho("1peter"@, k),
{
    reveal_strlit("1peter");
    reveal_strlit("1 Peter");
    reveal_strlit("jdg");
    reveal_strlit("1kgs");
    reveal_strlit("2kgs");
    reveal_strlit("sos");
    reveal_strlit("mk");
    reveal_strlit("lk");
    reveal_strlit("jn");
    reveal_strlit("php");
    reveal_strlit("phm");
    reveal_strlit("phlm");
    reveal_strlit("jas");
    reveal_strlit("1jn");
    reveal_strlit("2jn");
    reveal_strlit("3jn");
    let l = spec_ascii_lowercase_chirho("1 Peter"@);
    assert((seq![l[0]] + l.skip(2)).take(6) =~= "1peter"@);
    assert forall|k: int| 0 <= k < 59 implies !#[trigger] spec_names_book_chirho("1peter"@, k) by {
        if k == 8 {
            reveal_strlit("1 Samuel");
            lemma_mismatch_rules_out_chirho("1peter"@, spec_book_name_chirho(8), 1, 1);
        } else if k == 10 {
            reveal_strlit("1 Kings");
            lemma_mismatch_rules_out_chirho("1peter"@, spec_book_name_chirho(10), 1, 1);
        } else if k == 12 {
            reveal_strlit("1 Chronicles");
            lemma_mismatch_rules_out_chirho("1peter"@, spec_book_name_chirho(12), 1, 1);
        } else if k == 45 {
            reveal_strlit("1 Corinthians");
            lemma_mismatch_rules_out_chirho("1peter"@, spec_book_name_chirho(45), 1, 1);
        } else if k == 51 {
            reveal_strlit("1 Thessalonians");
            lemma_mismatch_rules_out_chirho("1peter"@, spec_book_name_chirho(51), 1, 1);
        } else if k == 53 {
            reveal_strlit("1 Timothy");
            lemma_mismatch_rules_out_chirho("1peter"@, spec_book_name_chirho(53), 1, 1);
        } else {
            lemma_book_initial_chirho(k);
            lemma_book_initial_classes_chirho(k);
            lemma_first_char_rules_out_chirho("1peter"@, spec_book_name_chirho(k));
        }
    }
}

proof fn lemma_abbreviation_158_chirho()
    ensures
        spec_names_book_chirho("1pet"@, 59),
        forall|k: int| 0 <= k < 59 ==> !#[trigger] spec_names_book_chirho("1pet"@, k),
{
    reveal_strlit("1pet");
    reveal_strlit("1 Peter");
    reveal_strlit("jdg");
    reveal_strlit("1kgs");
    reveal_strlit("2kgs");
    reveal_strlit("sos");
    reveal_strlit("mk");
    reveal_strlit("lk");
    reveal_strlit("jn");
    reveal_strlit("php");
    reveal_strlit("phm");
    reveal_strlit("phlm");
    reveal_strlit("jas");
    reveal_strlit("1jn");
    reveal_strlit("2jn");
    reveal_strlit("3jn");
    assert("1pet"@[1] != "1kgs"@[1]);
    assert("1pet"@[0] != "2kgs"@[0]);
    assert("1pet"@[0] != "phlm"@[0]);
    let l = spec_ascii_lowercase_chirho("1 Peter"@);
    assert((seq![l[0]] + l.skip(2)).take(4) =~= "1pet"@);
    assert forall|k: int| 0 <= k < 59 implies !#[trigger] spec_names_book_chirho("1pet"@, k) by {
        if k == 8 {
            reveal_strlit("1 Samuel");
            lemma_mismatch_rules_out_chirho("1pet"@, spec_book_name_chirho(8), 1, 1);
        } else if k == 10 {
            reveal_strlit("1 Kings");
            lemma_mismatch_rules_out_chirho("1pet"@, spec_book_name_chirho(10), 1, 1);
        } else if k == 12 {
            reveal_strlit("1 Chronicles");
            lemma_mismatch_rules_out_chirho("1pet"@, spec_book_name_chirho(12), 1, 1);
        } else if k == 45 {
            reveal_strlit("1 Corinthians");
            lemma_mismatch_rules_out_chirho("1pet"@, spec_book_name_chirho(45), 1, 1);
        } else if k == 51 {
            reveal_strlit("1 Thessalonians");
            lemma_mismatch_rules_out_chirho("1pet"@, spec_book_name_chirho(51), 1, 1);
        } else if k == 53 {
            reveal_strlit("1 Timothy");
            lemma_mismatch_rules_out_chirho("1pet"@, spec_book_name_chirho(53), 1, 1);
        } else {
            lemma_book_initial_chirho(k);
            lemma_book_initial_classes_chirho(k);
            lemma_first_char_rules_out_chirho("1pet"@, spec_book_name_chirho(k));
        }
    }
}

proof fn lemma_abbreviation_159_chirho()
    ensures
        spec_names_book_chirho("1pe"@, 59),
        forall|k: int| 0 <= k < 59 ==> !#[trigger] spec_names_book_chirho("1pe"@, k),
{
    reveal_strlit("1pe");
    reveal_strlit("1 Peter");
    reveal_strlit("jdg");
    reveal_strlit("1kgs");
    reveal_strlit("2kgs");
    reveal_strlit("sos");
    reveal_strlit("mk");
    reveal_strlit("lk");
    reveal_strlit("jn");
    reveal_strlit("php");
    reveal_strlit("phm");
    reveal_strlit("phlm");
    reveal_strlit("jas");
    reveal_strlit("1jn");
    reveal_strlit("2jn");
    reveal_strlit("3jn");
    assert("1pe"@[0] != "jdg"@[0]);
    assert("1pe"@[0] != "sos"@[0]);
    assert("1pe"@[0] != "php"@[0]);
    assert("1pe"@[0] != "phm"@[0]);
    assert("1pe"@[0] != "jas"@[0]);
    assert("1pe"@[1] != "1jn"@[1]);
    assert("1pe"@[0] != "2jn"@[0]);
    assert("1pe"@[0] != "3jn"@[0]);
    let l = spec_ascii_lowercase_chirho("1 Peter"@);
    assert((seq![l[0]] + l.skip(2)).take(3) =~= "1pe"@);
    assert forall|k: int| 0 <= k < 59 implies !#[trigger] spec_names_book_chirho("1pe"@, k) by {
        if k == 8 {
            reveal_strlit("1 Samuel");
            lemma_mismatch_rules_out_chirho("1pe"@, spec_book_name_chirho(8), 1, 1);
        } else if k == 10 {
            reveal_strlit("1 Kings");
            lemma_mismatch_rules_out_chirho("1pe"@, spec_book_name_chirho(10), 1, 1);
        } else if k == 12 {
            reveal_strlit("1 Chronicles");
            lemma_mismatch_rules_out_chirho("1pe"@, spec_book_name_chirho(12), 1, 1);
        } else if k == 45 {
            reveal_strlit("1 Corinthians");
            lemma_mismatch_rules_out_chirho("1pe"@, spec_book_name_chirho(45), 1, 1);
        } else if k == 51 {
            reveal_strlit("1 Thessalonians");
            lemma_mismatch_rules_out_chirho("1pe"@, spec_book_name_chirho(51), 1, 1);
        } else if k == 53 {
            reveal_strlit("1 Timothy");
            lemma_mismatch_rules_out_chirho("1pe"@, spec_book_name_chirho(53), 1, 1);
        } else {
            lemma_book_initial_chirho(k);
            lemma_book_initial_classes_chirho(k);
            lemma_first_char_rules_out_chirho("1pe"@, spec_book_name_chirho(k));
        }
    }
}

proof fn lemma_abbreviation_160_chirho()
    ensures
        spec_names_book_chirho("2 peter"@, 60),
        forall|k: int| 0 <= k < 60 ==> !#[trigger] spec_names_book_chirho("2 peter"@, k),
{
    reveal_strlit("2 peter");
    reveal_strlit("2 Peter");
    reveal_strlit("jdg");
    reveal_strlit("1kgs");
    reveal_strlit("2kgs");
    reveal_strlit("sos");
    reveal_strlit("mk");
    reveal_strlit("lk");
    reveal_strlit("jn");
    reveal_strlit("php");
    reveal_strlit("phm");
    reveal_strlit("phlm");
    reveal_strlit("jas");
    reveal_strlit("1jn");
    reveal_strlit("2jn");
    reveal_strlit("3jn");
    assert(spec_ascii_lowercase_chirho("2 Peter"@).take(7) =~= "2 peter"@);
    assert forall|k: int| 0 <= k < 60 implies !#[trigger] spec_names_book_chirho("2 peter"@, k) by {
        if k == 9 {
            reveal_strlit("2 Samuel");
            lemma_mismatch_rules_out_chirho("2 peter"@, spec_book_name_chirho(9), 2, 1);
        } else if k == 11 {
            reveal_strlit("2 Kings");
            lemma_mismatch_rules_out_chirho("2 peter"@, spec_book_name_chirho(11), 2, 1);
        } else if k == 13 {
            reveal_strlit("2 Chronicles");
            lemma_mismatch_rules_out_chirho("2 peter"@, spec_book_name_chirho(13), 2, 1);
        } else if k == 46 {
            reveal_strlit("2 Corinthians");
            lemma_mismatch_rules_out_chirho("2 peter"@, spec_book_name_chirho(46), 2, 1);
        } else if k == 52 {
            reveal_strlit("2 Thessalonians");
            lemma_mismatch_rules_out_chirho("2 peter"@, spec_book_name_chirho(52), 2, 1);
        } else if k == 54 {
            reveal_strlit("2 Timothy");
            lemma_mismatch_rules_out_chirho("2 peter"@, spec_book_name_chirho(54), 2, 1);
        } else {
            lemma_book_initial_chirho(k);
            lemma_book_initial_classes_chirho(k);
            lemma_first_char_rules_out_chirho("2 peter"@, spec_book_name_chirho(k));
        }
    }
}

proof fn lemma_abbreviation_161_chirho()
    ensures
        spec_names_book_chirho("2peter"@, 60),
        forall|k: int| 0 <= k < 60 ==> !#[trigger] spec_names_book_chirho("2peter"@, k),
{
    reveal_strlit("2peter");
    reveal_strlit("2 Peter");
    reveal_strlit("jdg");
    reveal_strlit("1kgs");
    reveal_strlit("2kgs");
    reveal_strlit("sos");
    reveal_strlit("mk");
    reveal_strlit("lk");
    reveal_strlit("jn");
    reveal_strlit("php");
    reveal_strlit("phm");
    reveal_strlit("phlm");
    reveal_strlit("jas");
    reveal_strlit("1jn");
    reveal_strlit("2jn");
    reveal_strlit("3jn");
    let l = spec_ascii_lowercase_chirho("2 Peter"@);
    assert((seq![l[0]] + l.skip(2)).take(6) =~= "2peter"@);
    assert forall|k: int| 0 <= k < 60 implies !#[trigger] spec_names_book_chirho("2peter"@, k) by {
        if k == 9 {
            reveal_strlit("2 Samuel");
            lemma_mismatch_rules_out_chirho("2peter"@, spec_book_name_chirho(9), 1, 1);
        } else if k == 11 {
            reveal_strlit("2 Kings");
            lemma_mismatch_rules_out_chirho("2peter"@, spec_book_name_chirho(11), 1, 1);
        } else if k == 13 {
            reveal_strlit("2 Chronicles");
            lemma_mismatch_rules_out_chirho("2peter"@, spec_book_name_chirho(13), 1, 1);
        } else if k == 46 {
            reveal_strlit("2 Corinthians");
            lemma_mismatch_rules_out_chirho("2peter"@, spec_book_name_chirho(46), 1, 1);
        } else if k == 52 {
            reveal_strlit("2 Thessalonians");
            lemma_mismatch_rules_out_chirho("2peter"@, spec_book_name_chirho(52), 1, 1);
        } else if k == 54 {
            reveal_strlit("2 Timothy");
            lemma_mismatch_rules_out_chirho("2peter"@, spec_book_name_chirho(54), 1, 1);
        } else {
            lemma_book_initial_chirho(k);
            lemma_book_initial_classes_chirho(k);
            lemma_first_char_rules_out_chirho("2peter"@, spec_book_name_chirho(k));
        }
    }
}

proof fn lemma_abbreviation_162_chirho()
    ensures
        spec_names_book_chirho("2pet"@, 60),
        forall|k: int| 0 <= k < 60 ==> !#[trigger] spec_names_book_chirho("2pet"@, k),
{
    reveal_strlit("2pet");
    reveal_strlit("2 Peter");
    reveal_strlit("jdg");
    reveal_strlit("1kgs");
    reveal_strlit("2kgs");
    reveal_strlit("sos");
    reveal_strlit("mk");
    reveal_strlit("lk");
    reveal_strlit("jn");
    reveal_strlit("php");
    reveal_strlit("phm");
    reveal_strlit("phlm");
    reveal_strlit("jas");
    reveal_strlit("1jn");
    reveal_strlit("2jn");
    reveal_strlit("3jn");
    assert("2pet"@[0] != "1kgs"@[0]);
    assert("2pet"@[1] != "2kgs"@[1]);
    assert("2pet"@[0] != "phlm"@[0]);
    let l = spec_ascii_lowercase_chirho("2 Peter"@);
    assert((seq![l[0]] + l.skip(2)).take(4) =~= "2pet"@);
    assert forall|k: int| 0 <= k < 60 implies !#[trigger] spec_names_book_chirho("2pet"@, k) by {
        if k == 9 {
            reveal_strlit("2 Samuel");
            lemma_mismatch_rules_out_chirho("2pet"@, spec_book_name_chirho(9), 1, 1);
        } else if k == 11 {
            reveal_strlit("2 Kings");
            lemma_mismatch_rules_out_chirho("2pet"@, spec_book_name_chirho(11), 1, 1);
        } else if k == 13 {
            reveal_strlit("2 Chronicles");
            lemma_mismatch_rules_out_chirho("2pet"@, spec_book_name_chirho(13), 1, 1);
        } else if k == 46 {
            reveal_strlit("2 Corinthians");
            lemma_mismatch_rules_out_chirho("2pet"@, spec_book_name_chirho(46), 1, 1);
        } else if k == 52 {
            reveal_strlit("2 Thessalonians");
            lemma_mismatch_rules_out_chirho("2pet"@, spec_book_name_chirho(52), 1, 1);
        } else if k == 54 {
            reveal_strlit("2 Timothy");
            lemma_mismatch_rules_out_chirho("2pet"@, spec_book_name_chirho(54), 1, 1);
        } else {
            lemma_book_initial_chirho(k);
            lemma_book_initial_classes_chirho(k);
            lemma_first_char_rules_out_chirho("2pet"@, spec_book_name_chirho(k));
        }
    }
}

proof fn lemma_abbreviation_163_chirho()
    ensures
        spec_names_book_chirho("2pe"@, 60),
        forall|k: int| 0 <= k < 60 ==> !#[trigger] spec_names_book_chirho("2pe"@, k),
{
    reveal_strlit("2pe");
    reveal_strlit("2 Peter");
    reveal_strlit("jdg");
    reveal_strlit("1kgs");
    reveal_strlit("2kgs");
    reveal_strlit("sos");
    reveal_strlit("mk");
    reveal_strlit("lk");
    reveal_strlit("jn");
    reveal_strlit("php");
    reveal_strlit("phm");
    reveal_strlit("phlm");
    reveal_strlit("jas");
    reveal_strlit("1jn");
    reveal_strlit("2jn");
    reveal_strlit("3jn");
    assert("2pe"@[0] != "jdg"@[0]);
    assert("2pe"@[0] != "sos"@[0]);
    assert("2pe"@[0] != "php"@[0]);
    assert("2pe"@[0] != "phm"@[0]);
    assert("2pe"@[0] != "jas"@[0]);
    assert("2pe"@[0] != "1jn"@[0]);
    assert("2pe"@[1] != "2jn"@[1]);
    assert("2pe"@[0] != "3jn"@[0]);
    let l = spec_ascii_lowercase_chirho("2 Peter"@);
    assert((seq![l[0]] + l.skip(2)).take(3) =~= "2pe"@);
    assert forall|k: int| 0 <= k < 60 implies !#[trigger] spec_names_book_chirho("2pe"@, k) by {
        if k == 9 {
            reveal_strlit("2 Samuel");
            lemma_mismatch_rules_out_chirho("2pe"@, spec_book_name_chirho(9), 1, 1);
        } else if k == 11 {
            reveal_strlit("2 Kings");
            lemma_mismatch_rules_out_chirho("2pe"@, spec_book_name_chirho(11), 1, 1);
        } else if k == 13 {
            reveal_strlit("2 Chronicles");
            lemma_mismatch_rules_out_chirho("2pe"@, spec_book_name_chirho(13), 1, 1);
        } else if k == 46 {
            reveal_strlit("2 Corinthians");
            lemma_mismatch_rules_out_chirho("2pe"@, spec_book_name_chirho(46), 1, 1);
        } else if k == 52 {
            reveal_strlit("2 Thessalonians");
            lemma_mismatch_rules_out_chirho("2pe"@, spec_book_name_chirho(52), 1, 1);
        } else if k == 54 {
            reveal_strlit("2 Timothy");
            lemma_mismatch_rules_out_chirho("2pe"@, spec_book_name_chirho(54), 1, 1);
        } else {
            lemma_book_initial_chirho(k);
            lemma_book_initial_classes_chirho(k);
            lemma_first_char_rules_out_chirho("2pe"@, spec_book_name_chirho(k));
        }
    }
}

proof fn lemma_abbreviation_164_chirho()
    ensures
        spec_names_book_chirho("1 john"@, 61),
        forall|k: int| 0 <= k < 61 ==> !#[trigger] spec_names_book_chirho("1 john"@, k),
{
    reveal_strlit("1 john");
    reveal_strlit("1 John");
    reveal_strlit("jdg");
    reveal_strlit("1kgs");
    reveal_strlit("2kgs");
    reveal_strlit("sos");
    reveal_strlit("mk");
    reveal_strlit("lk");
    reveal_strlit("jn");
    reveal_strlit("php");
    reveal_strlit("phm");
    reveal_strlit("phlm");
    reveal_strlit("jas");
    reveal_strlit("1jn");
    reveal_strlit("2jn");
    reveal_strlit("3jn");
    assert(spec_ascii_lowercase_chirho("1 John"@).take(6) =~= "1 john"@);
    assert forall|k: int| 0 <= k < 61 implies !#[trigger] spec_names_book_chirho("1 john"@, k) by {
        if k == 8 {
            reveal_strlit("1 Samuel");
            lemma_mismatch_rules_out_chirho("1 john"@, spec_book_name_chirho(8), 2, 1);
        } else if k == 10 {
            reveal_strlit("1 Kings");
            lemma_mismatch_rules_out_chirho("1 john"@, spec_book_name_chirho(10), 2, 1);
        } else if k == 12 {
            reveal_strlit("1 Chronicles");
            lemma_mismatch_rules_out_chirho("1 john"@, spec_book_name_chirho(12), 2, 1);
        } else if k == 45 {
            reveal_strlit("1 Corinthians");
            lemma_mismatch_rules_out_chirho("1 john"@, spec_book_name_chirho(45), 2, 1);
        } else if k == 51 {
            reveal_strlit("1 Thessalonians");
            lemma_mismatch_rules_out_chirho("1 john"@, spec_book_name_chirho(51), 2, 1);
        } else if k == 53 {
            reveal_strlit("1 Timothy");
            lemma_mismatch_rules_out_chirho("1 john"@, spec_book_name_chirho(53), 2, 1);
        } else if k == 59 {
            reveal_strlit("1 Peter");
            lemma_mismatch_rules_out_chirho("1 john"@, spec_book_name_chirho(59), 2, 1);
        } else {
            lemma_book_initial_chirho(k);
            lemma_book_initial_classes_chirho(k);
            lemma_first_char_rules_out_chirho("1 john"@, spec_book_name_chirho(k));
        }
    }
}

proof fn lemma_abbreviation_165_chirho()
    ensures
        spec_names_book_chirho("1john"@, 61),
        forall|k: int| 0 <= k < 61 ==> !#[trigger] spec_names_book_chirho("1john"@, k),
{
    reveal_strlit("1john");
    reveal_strlit("1 John");
    reveal_strlit("jdg");
    reveal_strlit("1kgs");
    reveal_strlit("2kgs");
    reveal_strlit("sos");
    reveal_strlit("mk");
    reveal_strlit("lk");
    reveal_strlit("jn");
    reveal_strlit("php");
    reveal_strlit("phm");
    reveal_strlit("phlm");
    reveal_strlit("jas");
    reveal_strlit("1jn");
    reveal_strlit("2jn");
    reveal_strlit("3jn");
    let l = spec_ascii_lowercase_chirho("1 John"@);
    assert((seq![l[0]] + l.skip(2)).take(5) =~= "1john"@);
    assert forall|k: int| 0 <= k < 61 implies !#[trigger] spec_names_book_chirho("1john"@, k) by {
        if k == 8 {
            reveal_strlit("1 Samuel");
            lemma_mismatch_rules_out_chirho("1john"@, spec_book_name_chirho(8), 1, 1);
        } else if k == 10 {
            reveal_strlit("1 Kings");
            lemma_mismatch_rules_out_chirho("1john"@, spec_book_name_chirho(10), 1, 1);
        } else if k == 12 {
            reveal_strlit("1 Chronicles");
            lemma_mismatch_rules_out_chirho("1john"@, spec_book_name_chirho(12), 1, 1);
        } else if k == 45 {
            reveal_strlit("1 Corinthians");
            lemma_mismatch_rules_out_chirho("1john"@, spec_book_name_chirho(45), 1, 1);
        } else if k == 51 {
            reveal_strlit("1 Thessalonians");
            lemma_mismatch_rules_out_chirho("1john"@, spec_book_name_chirho(51), 1, 1);
        } else if k == 53 {
            reveal_strlit("1 Timothy");
            lemma_mismatch_rules_out_chirho("1john"@, spec_book_name_chirho(53), 1, 1);
        } else if k == 59 {
            reveal_strlit("1 Peter");
            lemma_mismatch_rules_out_chirho("1john"@, spec_book_name_chirho(59), 1, 1);
        } else {
            lemma_book_initial_chirho(k);
            lemma_book_initial_classes_chirho(k);
            lemma_first_char_rules_out_chirho("1john"@, spec_book_name_chirho(k));
        }
    }
}

proof fn lemma_abbreviation_166_chirho()
    ensures
        spec_names_book_chirho("1jn"@, 61),
        forall|k: int| 0 <= k < 61 ==> !#[trigger] spec_names_book_chirho("1jn"@, k),
{
    reveal_strlit("1jn");
    reveal_strlit("1 John");
    reveal_strlit("jdg");
    reveal_strlit("1kgs");
    reveal_strlit("2kgs");
    reveal_strlit("sos");
    reveal_strlit("mk");
    reveal_strlit("lk");
    reveal_strlit("jn");
    reveal_strlit("php");
    reveal_strlit("phm");
    reveal_strlit("phlm");
    reveal_strlit("jas");
    reveal_strlit("1jn");
    reveal_strlit("2jn");
    reveal_strlit("3jn");
    assert("1jn"@[0] != "jdg"@[0]);
    assert("1jn"@[0] != "sos"@[0]);
    assert("1jn"@[0] != "php"@[0]);
    assert("1jn"@[0] != "phm"@[0]);
    assert("1jn"@[0] != "jas"@[0]);
    assert("1jn"@[0] != "2jn"@[0]);
    assert("1jn"@[0] != "3jn"@[0]);
    assert(spec_short_form_chirho("1jn"@, 61));
    assert forall|k: int| 0 <= k < 61 implies !#[trigger] spec_names_book_chirho("1jn"@, k) by {
        if k == 8 {
            reveal_strlit("1 Samuel");
            lemma_mismatch_rules_out_chirho("1jn"@, spec_book_name_chirho(8), 1, 1);
        } else if k == 10 {
            reveal_strlit("1 Kings");
            lemma_mismatch_rules_out_chirho("1jn"@, spec_book_name_chirho(10), 1, 1);
        } else if k == 12 {
            reveal_strlit("1 Chronicles");
            lemma_mismatch_rules_out_chirho("1jn"@, spec_book_name_chirho(12), 1, 1);
        } else if k == 45 {
            reveal_strlit("1 Corinthians");
            lemma_mismatch_rules_out_chirho("1jn"@, spec_book_name_chirho(45), 1, 1);
        } else if k == 51 {
            reveal_strlit("1 Thessalonians");
            lemma_mismatch_rules_out_chirho("1jn"@, spec_book_name_chirho(51), 1, 1);
        } else if k == 53 {
            reveal_strlit("1 Timothy");
            lemma_mismatch_rules_out_chirho("1jn"@, spec_book_name_chirho(53), 1, 1);
        } else if k == 59 {
            reveal_strlit("1 Peter");
            lemma_mismatch_rules_out_chirho("1jn"@, spec_book_name_chirho(59), 1, 1);
        } else {
            lemma_book_initial_chirho(k);
            lemma_book_initial_classes_chirho(k);
            lemma_first_char_rules_out_chirho("1jn"@, spec_book_name_chirho(k));
        }
    }
}

proof fn lemma_abbreviation_167_chirho()
    ensures
        spec_names_book_chirho("1jo"@, 61),
        forall|k: int| 0 <= k < 61 ==> !#[trigger] spec_names_book_chirho("1jo"@, k),
{
    reveal_strlit("1jo");
    reveal_strlit("1 John");
    reveal_strlit("jdg");
    reveal_strlit("1kgs");
    reveal_strlit("2kgs");
    reveal_strlit("sos");
    reveal_strlit("mk");
    reveal_strlit("lk");
    reveal_strlit("jn");
    reveal_strlit("php");
    reveal_strlit("phm");
    reveal_strlit("phlm");
    reveal_strlit("jas");
    reveal_strlit("1jn");
    reveal_strlit("2jn");
    reveal_strlit("3jn");
    assert("1jo"@[0] != "jdg"@[0]);
    assert("1jo"@[0] != "sos"@[0]);
    assert("1jo"@[0] != "php"@[0]);
    assert("1jo"@[0] != "phm"@[0]);
    assert("1jo"@[0] != "jas"@[0]);
    assert("1jo"@[2] != "1jn"@[2]);
    assert("1jo"@[0] != "2jn"@[0]);
    assert("1jo"@[0] != "3jn"@[0]);
    let l = spec_ascii_lowercase_chirho("1 John"@);
    assert((seq![l[0]] + l.skip(2)).take(3) =~= "1jo"@);
    assert forall|k: int| 0 <= k < 61 implies !#[trigger] spec_names_book_chirho("1jo"@, k) by {
        if k == 8 {
            reveal_strlit("1 Samuel");
            lemma_mismatch_rules_out_chirho("1jo"@, spec_book_name_chirho(8), 1, 1);
        } else if k == 10 {
            reveal_strlit("1 Kings");
            lemma_mismatch_rules_out_chirho("1jo"@, spec_book_name_chirho(10), 1, 1);
        } else if k == 12 {
            reveal_strlit("1 Chronicles");
            lemma_mismatch_rules_out_chirho("1jo"@, spec_book_name_chirho(12), 1, 1);
        } else if k == 45 {
            reveal_strlit("1 Corinthians");
            lemma_mismatch_rules_out_chirho("1jo"@, spec_book_name_chirho(45), 1, 1);
        } else if k == 51 {
            reveal_strlit("1 Thessalonians");
            lemma_mismatch_rules_out_chirho("1jo"@, spec_book_name_chirho(51), 1, 1);
        } else if k == 53 {
            reveal_strlit("1 Timothy");
            lemma_mismatch_rules_out_chirho("1jo"@, spec_book_name_chirho(53), 1, 1);
        } else if k == 59 {
            reveal_strlit("1 Peter");
            lemma_mismatch_rules_out_chirho("1jo"@, spec_book_name_chirho(59), 1, 1);
        } else {
            lemma_book_initial_chirho(k);
            lemma_book_initial_classes_chirho(k);
            lemma_first_char_rules_out_chirho("1jo"@, spec_book_name_chirho(k));
        }
    }
}

proof fn lemma_abbreviation_168_chirho()
    ensures
        spec_names_book_chirho("2 john"@, 62),
        forall|k: int| 0 <= k < 62 ==> !#[trigger] spec_names_book_chirho("2 john"@, k),
{
    reveal_strlit("2 john");
    reveal_strlit("2 John");
    reveal_strlit("jdg");
    reveal_strlit("1kgs");
    reveal_strlit("2kgs");
    reveal_strlit("sos");
    reveal_strlit("mk");
    reveal_strlit("lk");
    reveal_strlit("jn");
    reveal_strlit("php");
    reveal_strlit("phm");
    reveal_strlit("phlm");
    reveal_strlit("jas");
    reveal_strlit("1jn");
    reveal_strlit("2jn");
    reveal_strlit("3jn");
    assert(spec_ascii_lowercase_chirho("2 John"@).take(6) =~= "2 john"@);
    assert forall|k: int| 0 <= k < 62 implies !#[trigger] spec_names_book_chirho("2 john"@, k) by {
        if k == 9 {
            reveal_strlit("2 Samuel");
            lemma_mismatch_rules_out_chirho("2 john"@, spec_book_name_chirho(9), 2, 1);
        } else if k == 11 {
            reveal_strlit("2 Kings");
            lemma_mismatch_rules_out_chirho("2 john"@, spec_book_name_chirho(11), 2, 1);
        } else if k == 13 {
            reveal_strlit("2 Chronicles");
            lemma_mismatch_rules_out_chirho("2 john"@, spec_book_name_chirho(13), 2, 1);
        } else if k == 46 {
            reveal_strlit("2 Corinthians");
            lemma_mismatch_rules_out_chirho("2 john"@, spec_book_name_chirho(46), 2, 1);
        } else if k == 52 {
            reveal_strlit("2 Thessalonians");
            lemma_mismatch_rules_out_chirho("2 john"@, spec_book_name_chirho(52), 2, 1);
        } else if k == 54 {
            reveal_strlit("2 Timothy");
            lemma_mismatch_rules_out_chirho("2 john"@, spec_book_name_chirho(54), 2, 1);
        } else if k == 60 {
            reveal_strlit("2 Peter");
            lemma_mismatch_rules_out_chirho("2 john"@, spec_book_name_chirho(60), 2, 1);
        } else {
            lemma_book_initial_chirho(k);
            lemma_book_initial_classes_chirho(k);
            lemma_first_char_rules_out_chirho("2 john"@, spec_book_name_chirho(k));
        }
    }
}

proof fn lemma_abbreviation_169_chirho()
    ensures
        spec_names_book_chirho("2john"@, 62),
        forall|k: int| 0 <= k < 62 ==> !#[trigger] spec_names_book_chirho("2john"@, k),
{
    reveal_strlit("2john");
    reveal_strlit("2 John");
    reveal_strlit("jdg");
    reveal_strlit("1kgs");
    reveal_strlit("2kgs");
    reveal_strlit("sos");
    reveal_strlit("mk");
    reveal_strlit("lk");
    reveal_strlit("jn");
    reveal_strlit("php");
    reveal_strlit("phm");
    reveal_strlit("phlm");
    reveal_strlit("jas");
    reveal_strlit("1jn");
    reveal_strlit("2jn");
    reveal_strlit("3jn");
    let l = spec_ascii_lowercase_chirho("2 John"@);
    assert((seq![l[0]] + l.skip(2)).take(5) =~= "2john"@);
    assert forall|k: int| 0 <= k < 62 implies !#[trigger] spec_names_book_chirho("2john"@, k) by {
        if k == 9 {
            reveal_strlit("2 Samuel");
            lemma_mismatch_rules_out_chirho("2john"@, spec_book_name_chirho(9), 1, 1);
        } else if k == 11 {
            reveal_strlit("2 Kings");
            lemma_mismatch_rules_out_chirho("2john"@, spec_book_name_chirho(11), 1, 1);
        } else if k == 13 {
            reveal_strlit("2 Chronicles");
            lemma_mismatch_rules_out_chirho("2john"@, spec_book_name_chirho(13), 1, 1);
        } else if k == 46 {
            reveal_strlit("2 Corinthians");
            lemma_mismatch_rules_out_chirho("2john"@, spec_book_name_chirho(46), 1, 1);
        } else if k == 52 {
            reveal_strlit("2 Thessalonians");
            lemma_mismatch_rules_out_chirho("2john"@, spec_book_name_chirho(52), 1, 1);
        } else if k == 54 {
            reveal_strlit("2 Timothy");
            lemma_mismatch_rules_out_chirho("2john"@, spec_book_name_chirho(54), 1, 1);
        } else if k == 60 {
            reveal_strlit("2 Peter");
            lemma_mismatch_rules_out_chirho("2john"@, spec_book_name_chirho(60), 1, 1);
        } else {
            lemma_book_initial_chirho(k);
            lemma_book_initial_classes_chirho(k);
            lemma_first_char_rules_out_chirho("2john"@, spec_book_name_chirho(k));
        }
    }
}

proof fn lemma_abbreviation_170_chirho()
    ensures
        spec_names_book_chirho("2jn"@, 62),
        forall|k: int| 0 <= k < 62 ==> !#[trigger] spec_names_book_chirho("2jn"@, k),
{
    reveal_strlit("2jn");
    reveal_strlit("2 John");
    reveal_strlit("jdg");
    reveal_strlit("1kgs");
    reveal_strlit("2kgs");
    reveal_strlit("sos");
    reveal_strlit("mk");
    reveal_strlit("lk");
    reveal_strlit("jn");
    reveal_strlit("php");
    reveal_strlit("phm");
    reveal_strlit("phlm");
    reveal_strlit("jas");
    reveal_strlit("1jn");
    reveal_strlit("2jn");
    reveal_strlit("3jn");
    assert("2jn"@[0] != "jdg"@[0]);
    assert("2jn"@[0] != "sos"@[0]);
    assert("2jn"@[0] != "php"@[0]);
    assert("2jn"@[0] != "phm"@[0]);
    assert("2jn"@[0] != "jas"@[0]);
    assert("2jn"@[0] != "1jn"@[0]);
    assert("2jn"@[0] != "3jn"@[0]);
    assert(spec_short_form_chirho("2jn"@, 62));
    assert forall|k: int| 0 <= k < 62 implies !#[trigger] spec_names_book_chirho("2jn"@, k) by {
        if k == 9 {
            reveal_strlit("2 Samuel");
            lemma_mismatch_rules_out_chirho("2jn"@, spec_book_name_chirho(9), 1, 1);
        } else if k == 11 {
            reveal_strlit("2 Kings");
            lemma_mismatch_rules_out_chirho("2jn"@, spec_book_name_chirho(11), 1, 1);
        } else if k == 13 {
            reveal_strlit("2 Chronicles");
            lemma_mismatch_rules_out_chirho("2jn"@, spec_book_name_chirho(13), 1, 1);
        } else if k == 46 {
            reveal_strlit("2 Corinthians");
            lemma_mismatch_rules_out_chirho("2jn"@, spec_book_name_chirho(46), 1, 1);
        } else if k == 52 {
            reveal_strlit("2 Thessalonians");
            lemma_mismatch_rules_out_chirho("2jn"@, spec_book_name_chirho(52), 1, 1);
        } else if k == 54 {
            reveal_strlit("2 Timothy");
            lemma_mismatch_rules_out_chirho("2jn"@, spec_book_name_chirho(54), 1, 1);
        } else if k == 60 {
            reveal_strlit("2 Peter");
            lemma_mismatch_rules_out_chirho("2jn"@, spec_book_name_chirho(60), 1, 1);
        } else {
            lemma_book_initial_chirho(k);
            lemma_book_initial_classes_chirho(k);
            lemma_first_char_rules_out_chirho("2jn"@, spec_book_name_chirho(k));
        }
    }
}

proof fn lemma_abbreviation_171_chirho()
    ensures
        spec_names_book_chirho("2jo"@, 62),
        forall|k: int| 0 <= k < 62 ==> !#[trigger] spec_names_book_chirho("2jo"@, k),
{
    reveal_strlit("2jo");
    reveal_strlit("2 John");
    reveal_strlit("jdg");
    reveal_strlit("1kgs");
    reveal_strlit("2kgs");
    reveal_strlit("sos");
    reveal_strlit("mk");
    reveal_strlit("lk");
    reveal_strlit("jn");
    reveal_strlit("php");
    reveal_strlit("phm");
    reveal_strlit("phlm");
    reveal_strlit("jas");
    reveal_strlit("1jn");
    reveal_strlit("2jn");
    reveal_strlit("3jn");
    assert("2jo"@[0] != "jdg"@[0]);
    assert("2jo"@[0] != "sos"@[0]);
    assert("2jo"@[0] != "php"@[0]);
    assert("2jo"@[0] != "phm"@[0]);
    assert("2jo"@[0] != "jas"@[0]);
    assert("2jo"@[0] != "1jn"@[0]);
    assert("2jo"@[2] != "2jn"@[2]);
    assert("2jo"@[0] != "3jn"@[0]);
    let l = spec_ascii_lowercase_chirho("2 John"@);
    assert((seq![l[0]] + l.skip(2)).take(3) =~= "2jo"@);
    assert forall|k: int| 0 <= k < 62 implies !#[trigger] spec_names_book_chirho("2jo"@, k) by {
        if k == 9 {
            reveal_strlit("2 Samuel");
            lemma_mismatch_rules_out_chirho("2jo"@, spec_book_name_chirho(9), 1, 1);
        } else if k == 11 {
            reveal_strlit("2 Kings");
            lemma_mismatch_rules_out_chirho("2jo"@, spec_book_name_chirho(11), 1, 1);
        } else if k == 13 {
            reveal_strlit("2 Chronicles");
            lemma_mismatch_rules_out_chirho("2jo"@, spec_book_name_chirho(13), 1, 1);
        } else if k == 46 {
            reveal_strlit("2 Corinthians");
            lemma_mismatch_rules_out_chirho("2jo"@, spec_book_name_chirho(46), 1, 1);
        } else if k == 52 {
            reveal_strlit("2 Thessalonians");
            lemma_mismatch_rules_out_chirho("2jo"@, spec_book_name_chirho(52), 1, 1);
        } else if k == 54 {
            reveal_strlit("2 Timothy");
            lemma_mismatch_rules_out_chirho("2jo"@, spec_book_name_chirho(54), 1, 1);
        } else if k == 60 {
            reveal_strlit("2 Peter");
            lemma_mismatch_rules_out_chirho("2jo"@, spec_book_name_chirho(60), 1, 1);
        } else {
            lemma_book_initial_chirho(k);
            lemma_book_initial_classes_chirho(k);
            lemma_first_char_rules_out_chirho("2jo"@, spec_book_name_chirho(k));
        }
    }
}

proof fn lemma_abbreviation_172_chirho()
    ensures
        spec_names_book_chirho("3 john"@, 63),
        forall|k: int| 0 <= k < 63 ==> !#[trigger] spec_names_book_chirho("3 john"@, k),
{
    reveal_strlit("3 john");
    reveal_strlit("3 John");
    reveal_strlit("jdg");
    reveal_strlit("1kgs");
    reveal_strlit("2kgs");
    reveal_strlit("sos");
    reveal_strlit("mk");
    reveal_strlit("lk");
    reveal_strlit("jn");
    reveal_strlit("php");
    reveal_strlit("phm");
    reveal_strlit("phlm");
    reveal_strlit("jas");
    reveal_strlit("1jn");
    reveal_strlit("2jn");
    reveal_strlit("3jn");
    assert(spec_ascii_lowercase_chirho("3 John"@).take(6) =~= "3 john"@);
    assert forall|k: int| 0 <= k < 63 implies !#[trigger] spec_names_book_chirho("3 john"@, k) by {
        lemma_book_initial_chirho(k);
        lemma_book_initial_classes_chirho(k);
        lemma_first_char_rules_out_chirho("3 john"@, spec_book_name_chirho(k));
    }
}

proof fn lemma_abbreviation_173_chirho()
    ensures
        spec_names_book_chirho("3john"@, 63),
        forall|k: int| 0 <= k < 63 ==> !#[trigger] spec_names_book_chirho("3john"@, k),
{
    reveal_strlit("3john");
    reveal_strlit("3 John");
    reveal_strlit("jdg");
    reveal_strlit("1kgs");
    reveal_strlit("2kgs");
    reveal_strlit("sos");
    reveal_strlit("mk");
    reveal_strlit("lk");
    reveal_strlit("jn");
    reveal_strlit("php");
    reveal_strlit("phm");
    reveal_strlit("phlm");
    reveal_strlit("jas");
    reveal_strlit("1jn");
    reveal_strlit("2jn");
    reveal_strlit("3jn");
    let l = spec_ascii_lowercase_chirho("3 John"@);
    assert((seq![l[0]] + l.skip(2)).take(5) =~= "3john"@);
    assert forall|k: int| 0 <= k < 63 implies !#[trigger] spec_names_book_chirho("3john"@, k) by {
        lemma_book_initial_chirho(k);
        lemma_book_initial_classes_chirho(k);
        lemma_first_char_rules_out_chirho("3john"@, spec_book_name_chirho(k));
    }
}

proof fn lemma_abbreviation_174_chirho()
    ensures
        spec_names_book_chirho("3jn"@, 63),
        forall|k: int| 0 <= k < 63 ==> !#[trigger] spec_names_book_chirho("3jn"@, k),
{
    reveal_strlit("3jn");
    reveal_strlit("3 John");
    reveal_strlit("jdg");
    reveal_strlit("1kgs");
    reveal_strlit("2kgs");
    reveal_strlit("sos");
    reveal_strlit("mk");
    reveal_strlit("lk");
    reveal_strlit("jn");
    reveal_strlit("php");
    reveal_strlit("phm");
    reveal_strlit("phlm");
    reveal_strlit("jas");
    reveal_strlit("1jn");
    reveal_strlit("2jn");
    reveal_strlit("3jn");
    assert("3jn"@[0] != "jdg"@[0]);
    assert("3jn"@[0] != "sos"@[0]);
    assert("3jn"@[0] != "php"@[0]);
    assert("3jn"@[0] != "phm"@[0]);
    assert("3jn"@[0] != "jas"@[0]);
    assert("3jn"@[0] != "1jn"@[0]);
    assert("3jn"@[0] != "2jn"@[0]);
    assert(spec_short_form_chirho("3jn"@, 63));
    assert forall|k: int| 0 <= k < 63 implies !#[trigger] spec_names_book_chirho("3jn"@, k) by {
        lemma_book_initial_chirho(k);
        lemma_book_initial_classes_chirho(k);
        lemma_first_char_rules_out_chirho("3jn"@, spec_book_name_chirho(k));
    }
}

proof fn lemma_abbreviation_175_chirho()
    ensures
        spec_names_book_chirho("3jo"@, 63),
        forall|k: int| 0 <= k < 63 ==> !#[trigger] spec_names_book_chirho("3jo"@, k),
{
    reveal_strlit("3jo");
    reveal_strlit("3 John");
    reveal_strlit("jdg");
    reveal_strlit("1kgs");
    reveal_strlit("2kgs");
    reveal_strlit("sos");
    reveal_strlit("mk");
    reveal_strlit("lk");
    reveal_strlit("jn");
    reveal_strlit("php");
    reveal_strlit("phm");
    reveal_strlit("phlm");
    reveal_strlit("jas");
    reveal_strlit("1jn");
    reveal_strlit("2jn");
    reveal_strlit("3jn");
    assert("3jo"@[0] != "jdg"@[0]);
    assert("3jo"@[0] != "sos"@[0]);
    assert("3jo"@[0] != "php"@[0]);
    assert("3jo"@[0] != "phm"@[0]);
    assert("3jo"@[0] != "jas"@[0]);
    assert("3jo"@[0] != "1jn"@[0]);
    assert("3jo"@[0] != "2jn"@[0]);
    assert("3jo"@[2] != "3jn"@[2]);
    let l = spec_ascii_lowercase_chirho("3 John"@);
    assert((seq![l[0]] + l.skip(2)).take(3) =~= "3jo"@);
    assert forall|k: int| 0 <= k < 63 implies !#[trigger] spec_names_book_chirho("3jo"@, k) by {
        lemma_book_initial_chirho(k);
        lemma_book_initial_classes_chirho(k);
        lemma_first_char_rules_out_chirho("3jo"@, spec_book_name_chirho(k));
    }
}

proof fn lemma_abbreviation_176_chirho()
    ensures
        spec_names_book_chirho("jude"@, 64),
        forall|k: int| 0 <= k < 64 ==> !#[trigger] spec_names_book_chirho("jude"@, k),
{
    reveal_strlit("jude");
    reveal_strlit("Jude");
    reveal_strlit("jdg");
    reveal_strlit("1kgs");
    reveal_strlit("2kgs");
    reveal_strlit("sos");
    reveal_strlit("mk");
    reveal_strlit("lk");
    reveal_strlit("jn");
    reveal_strlit("php");
    reveal_strlit("phm");
    reveal_strlit("phlm");
    reveal_strlit("jas");
    reveal_strlit("1jn");
    reveal_strlit("2jn");
    reveal_strlit("3jn");
    assert("jude"@[0] != "1kgs"@[0]);
    assert("jude"@[0] != "2kgs"@[0]);
    assert("jude"@[0] != "phlm"@[0]);
    assert(spec_ascii_lowercase_chirho("Jude"@).take(4) =~= "jude"@);
    assert forall|k: int| 0 <= k < 64 implies !#[trigger] spec_names_book_chirho("jude"@, k) by {
        if k == 5 {
            reveal_strlit("Joshua");
            lemma_mismatch_rules_out_chirho("jude"@, spec_book_name_chirho(5), 1, 0);
        } else if k == 6 {
            reveal_strlit("Judges");
            lemma_mismatch_rules_out_chirho("jude"@, spec_book_name_chirho(6), 3, 0);
        } else if k == 17 {
            reveal_strlit("Job");
            lemma_mismatch_rules_out_chirho("jude"@, spec_book_name_chirho(17), 1, 0);
        } else if k == 23 {
            reveal_strlit("Jeremiah");
            lemma_mismatch_rules_out_chirho("jude"@, spec_book_name_chirho(23), 1, 0);
        } else if k == 28 {
            reveal_strlit("Joel");
            lemma_mismatch_rules_out_chirho("jude"@, spec_book_name_chirho(28), 1, 0);
        } else if k == 31 {
            reveal_strlit("Jonah");
            lemma_mismatch_rules_out_chirho("jude"@, spec_book_name_chirho(31), 1, 0);
        } else if k == 42 {
            reveal_strlit("John");
            lemma_mismatch_rules_out_chirho("jude"@, spec_book_name_chirho(42), 1, 0);
        } else if k == 58 {
            reveal_strlit("James");
            lemma_mismatch_rules_out_chirho("jude"@, spec_book_name_chirho(58), 1, 0);
        } else {
            lemma_book_initial_chirho(k);
            lemma_book_initial_classes_chirho(k);
            lemma_first_char_rules_out_chirho("jude"@, spec_book_name_chirho(k));
        }
    }
}

proof fn lemma_abbreviation_177_chirho()
    ensures
        spec_names_book_chirho("revelation"@, 65),
        forall|k: int| 0 <= k < 65 ==> !#[trigger] spec_names_book_chirho("revelation"@, k),
{
    reveal_strlit("revelation");
    reveal_strlit("Revelation");
    reveal_strlit("jdg");
    reveal_strlit("1kgs");
    reveal_strlit("2kgs");
    reveal_strlit("sos");
    reveal_strlit("mk");
    reveal_strlit("lk");
    reveal_strlit("jn");
    reveal_strlit("php");
    reveal_strlit("phm");
    reveal_strlit("phlm");
    reveal_strlit("jas");
    reveal_strlit("1jn");
    reveal_strlit("2jn");
    reveal_strlit("3jn");
    assert(spec_ascii_lowercase_chirho("Revelation"@).take(10) =~= "revelation"@);
    assert forall|k: int| 0 <= k < 65 implies !#[trigger] spec_names_book_chirho("revelation"@, k) by {
        if k == 7 {
            reveal_strlit("Ruth");
            lemma_mismatch_rules_out_chirho("revelation"@, spec_book_name_chirho(7), 1, 0);
        } else if k == 44 {
            reveal_strlit("Romans");
            lemma_mismatch_rules_out_chirho("revelation"@, spec_book_name_chirho(44), 1, 0);
        } else {
            lemma_book_initial_chirho(k);
            lemma_book_initial_classes_chirho(k);
            lemma_first_char_rules_out_chirho("revelation"@, spec_book_name_chirho(k));
        }
    }
}

proof fn lemma_abbreviation_178_chirho()
    ensures
        spec_names_book_chirho("rev"@, 65),
        forall|k: int| 0 <= k < 65 ==> !#[trigger] spec_names_book_chirho("rev"@, k),
{
    reveal_strlit("rev");
    reveal_strlit("Revelation");
    reveal_strlit("jdg");
    reveal_strlit("1kgs");
    reveal_strlit("2kgs");
    reveal_strlit("sos");
    reveal_strlit("mk");
    reveal_strlit("lk");
    reveal_strlit("jn");
    reveal_strlit("php");
    reveal_strlit("phm");
    reveal_strlit("phlm");
    reveal_strlit("jas");
    reveal_strlit("1jn");
    reveal_strlit("2jn");
    reveal_strlit("3jn");
    assert("rev"@[0] != "jdg"@[0]);
    assert("rev"@[0] != "sos"@[0]);
    assert("rev"@[0] != "php"@[0]);
    assert("rev"@[0] != "phm"@[0]);
    assert("rev"@[0] != "jas"@[0]);
    assert("rev"@[0] != "1jn"@[0]);
    assert("rev"@[0] != "2jn"@[0]);
    assert("rev"@[0] != "3jn"@[0]);
    assert(spec_ascii_lowercase_chirho("Revelation"@).take(3) =~= "rev"@);
    assert forall|k: int| 0 <= k < 65 implies !#[trigger] spec_names_book_chirho("rev"@, k) by {
        if k == 7 {
            reveal_strlit("Ruth");
            lemma_mismatch_rules_out_chirho("rev"@, spec_book_name_chirho(7), 1, 0);
        } else if k == 44 {
            reveal_strlit("Romans");
            lemma_mismatch_rules_out_chirho("rev"@, spec_book_name_chirho(44), 1, 0);
        } else {
            lemma_book_initial_chirho(k);
            lemma_book_initial_classes_chirho(k);
            lemma_first_char_rules_out_chirho("rev"@, spec_book_name_chirho(k));
        }
    }
}

/// Accepted names 0 to 44 name their books, and no earlier book.
#[verifier::rlimit(100)]
#[verifier::spinoff_prover]
proof fn lemma_abbreviations_first_chirho(i: int)
    requires
        0 <= i < 45,
    ensures
        spec_names_book_chirho(spec_abbreviation_chirho(i), spec_abbreviation_book_chirho(i)),
        forall|k: int|
            0 <= k < spec_abbreviation_book_chirho(i) ==> !#[trigger] spec_names_book_chirho(
                spec_abbreviation_chirho(i),
                k,
            ),
{
    if i == 0 {
        lemma_abbreviation_0_chirho();
    } else if i == 1 {
        lemma_abbreviation_1_chirho();
    } else if i == 2 {
        lemma_abbreviation_2_chirho();
    } else if i == 3 {
        lemma_abbreviation_3_chirho();
    } else if i == 4 {
        lemma_abbreviation_4_chirho();
    } else if i == 5 {
        lemma_abbreviation_5_chirho();
    } else if i == 6 {
        lemma_abbreviation_6_chirho();
    } else if i == 7 {
        lemma_abbreviation_7_chirho();
    } else if i == 8 {
        lemma_abbreviation_8_chirho();
    } else if i == 9 {
        lemma_abbreviation_9_chirho();
    } else if i == 10 {
        lemma_abbreviation_10_chirho();
    } else if i == 11 {
        lemma_abbreviation_11_chirho();
    } else if i == 12 {
        lemma_abbreviation_12_chirho();
    } else if i == 13 {
        lemma_abbreviation_13_chirho();
    } else if i == 14 {
        lemma_abbreviation_14_chirho();
    } else if i == 15 {
        lemma_abbreviation_15_chirho();
    } else if i == 16 {
        lemma_abbreviation_16_chirho();
    } else if i == 17 {
        lemma_abbreviation_17_chirho();
    } else if i == 18 {
        lemma_abbreviation_18_chirho();
    } else if i == 19 {
        lemma_abbreviation_19_chirho();
    } else if i == 20 {
        lemma_abbreviation_20_chirho();
    } else if i == 21 {
        lemma_abbreviation_21_chirho();
    } else if i == 22 {
        lemma_abbreviation_22_chirho();
    } else if i == 23 {
        lemma_abbreviation_23_chirho();
    } else if i == 24 {
        lemma_abbreviation_24_chirho();
    } else if i == 25 {
        lemma_abbreviation_25_chirho();
    } else if i == 26 {
        lemma_abbreviation_26_chirho();
    } else if i == 27 {
        lemma_abbreviation_27_chirho();
    } else if i == 28 {
        lemma_abbreviation_28_chirho();
    } else if i == 29 {
        lemma_abbreviation_29_chirho();
    } else if i == 30 {
        lemma_abbreviation_30_chirho();
    } else if i == 31 {
        lemma_abbreviation_31_chirho();
    } else if i == 32 {
        lemma_abbreviation_32_chirho();
    } else if i == 33 {
        lemma_abbreviation_33_chirho();
    } else if i == 34 {
        lemma_abbreviation_34_chirho();
    } else if i == 35 {
        lemma_abbreviation_35_chirho();
    } else if i == 36 {
        lemma_abbreviation_36_chirho();
    } else if i == 37 {
        lemma_abbreviation_37_chirho();
    } else if i == 38 {
        lemma_abbreviation_38_chirho();
    } else if i == 39 {
        lemma_abbreviation_39_chirho();
    } else if i == 40 {
        lemma_abbreviation_40_chirho();
    } else if i == 41 {
        lemma_abbreviation_41_chirho();
    } else if i == 42 {
        lemma_abbreviation_42_chirho();
    } else if i == 43 {
        lemma_abbreviation_43_chirho();
    } else if i == 44 {
        lemma_abbreviation_44_chirho();
    }
}

/// Accepted names 45 to 89 name their books, and no earlier book.
#[verifier::rlimit(100)]
#[verifier::spinoff_prover]
proof fn lemma_abbreviations_second_chirho(i: int)
    requires
        45 <= i < 90,
    ensures
        spec_names_book_chirho(spec_abbreviation_chirho(i), spec_abbreviation_book_chirho(i)),
        forall|k: int|
            0 <= k < spec_abbreviation_book_chirho(i) ==> !#[trigger] spec_names_book_chirho(
                spec_abbreviation_chirho(i),
                k,
            ),
{
    if i == 45 {
        lemma_abbreviation_45_chirho();
    } else if i == 46 {
        lemma_abbreviation_46_chirho();
    } else if i == 47 {
        lemma_abbreviation_47_chirho();
    } else if i == 48 {
        lemma_abbreviation_48_chirho();
    } else if i == 49 {
        lemma_abbreviation_49_chirho();
    } else if i == 50 {
        lemma_abbreviation_50_chirho();
    } else if i == 51 {
        lemma_abbreviation_51_chirho();
    } else if i == 52 {
        lemma_abbreviation_52_chirho();
    } else if i == 53 {
        lemma_abbreviation_53_chirho();
    } else if i == 54 {
        lemma_abbreviation_54_chirho();
    } else if i == 55 {
        lemma_abbreviation_55_chirho();
    } else if i == 56 {
        lemma_abbreviation_56_chirho();
    } else if i == 57 {
        lemma_abbreviation_57_chirho();
    } else if i == 58 {
        lemma_abbreviation_58_chirho();
    } else if i == 59 {
        lemma_abbreviation_59_chirho();
    } else if i == 60 {
        lemma_abbreviation_60_chirho();
    } else if i == 61 {
        lemma_abbreviation_61_chirho();
    } else if i == 62 {
        lemma_abbreviation_62_chirho();
    } else if i == 63 {
        lemma_abbreviation_63_chirho();
    } else if i == 64 {
        lemma_abbreviation_64_chirho();
    } else if i == 65 {
        lemma_abbreviation_65_chirho();
    } else if i == 66 {
        lemma_abbreviation_66_chirho();
    } else if i == 67 {
        lemma_abbreviation_67_chirho();
    } else if i == 68 {
        lemma_abbreviation_68_chirho();
    } else if i == 69 {
        lemma_abbreviation_69_chirho();
    } else if i == 70 {
        lemma_abbreviation_70_chirho();
    } else if i == 71 {
        lemma_abbreviation_71_chirho();
    } else if i == 72 {
        lemma_abbreviation_72_chirho();
    } else if i == 73 {
        lemma_abbreviation_73_chirho();
    } else if i == 74 {
        lemma_abbreviation_74_chirho();
    } else if i == 75 {
        lemma_abbreviation_75_chirho();
    } else if i == 76 {
        lemma_abbreviation_76_chirho();
    } else if i == 77 {
        lemma_abbreviation_77_chirho();
    } else if i == 78 {
        lemma_abbreviation_78_chirho();
    } else if i == 79 {
        lemma_abbreviation_79_chirho();
    } else if i == 80 {
        lemma_abbreviation_80_chirho();
    } else if i == 81 {
        lemma_abbreviation_81_chirho();
    } else if i == 82 {
        lemma_abbreviation_82_chirho();
    } else if i == 83 {
        lemma_abbreviation_83_chirho();
    } else if i == 84 {
        lemma_abbreviation_84_chirho();
    } else if i == 85 {
        lemma_abbreviation_85_chirho();
    } else if i == 86 {
        lemma_abbreviation_86_chirho();
    } else if i == 87 {
        lemma_abbreviation_87_chirho();
    } else if i == 88 {
        lemma_abbreviation_88_chirho();
    } else if i == 89 {
        lemma_abbreviation_89_chirho();
    }
}

/// Accepted names 90 to 134 name their books, and no earlier book.
#[verifier::rlimit(100)]
#[verifier::spinoff_prover]
proof fn lemma_abbreviations_third_chirho(i: int)
    requires
        90 <= i < 135,
    ensures
        spec_names_book_chirho(spec_abbreviation_chirho(i), spec_abbreviation_book_chirho(i)),
        forall|k: int|
            0 <= k < spec_abbreviation_book_chirho(i) ==> !#[trigger] spec_names_book_chirho(
                spec_abbreviation_chirho(i),
                k,
            ),
{
    if i == 90 {
        lemma_abbreviation_90_chirho();
    } else if i == 91 {
        lemma_abbreviation_91_chirho();
    } else if i == 92 {
        lemma_abbreviation_92_chirho();
    } else if i == 93 {
        lemma_abbreviation_93_chirho();
    } else if i == 94 {
        lemma_abbreviation_94_chirho();
    } else if i == 95 {
        lemma_abbreviation_95_chirho();
    } else if i == 96 {
        lemma_abbreviation_96_chirho();
    } else if i == 97 {
        lemma_abbreviation_97_chirho();
    } else if i == 98 {
        lemma_abbreviation_98_chirho();
    } else if i == 99 {
        lemma_abbreviation_99_chirho();
    } else if i == 100 {
        lemma_abbreviation_100_chirho();
    } else if i == 101 {
        lemma_abbreviation_101_chirho();
    } else if i == 102 {
        lemma_abbreviation_102_chirho();
    } else if i == 103 {
        lemma_abbreviation_103_chirho();
    } else if i == 104 {
        lemma_abbreviation_104_chirho();
    } else if i == 105 {
        lemma_abbreviation_105_chirho();
    } else if i == 106 {
        lemma_abbreviation_106_chirho();
    } else if i == 107 {
        lemma_abbreviation_107_chirho();
    } else if i == 108 {
        lemma_abbreviation_108_chirho();
    } else if i == 109 {
        lemma_abbreviation_109_chirho();
    } else if i == 110 {
        lemma_abbreviation_110_chirho();
    } else if i == 111 {
        lemma_abbreviation_111_chirho();
    } else if i == 112 {
        lemma_abbreviation_112_chirho();
    } else if i == 113 {
        lemma_abbreviation_113_chirho();
    } else if i == 114 {
        lemma_abbreviation_114_chirho();
    } else if i == 115 {
        lemma_abbreviation_115_chirho();
    } else if i == 116 {
        lemma_abbreviation_116_chirho();
    } else if i == 117 {
        lemma_abbreviation_117_chirho();
    } else if i == 118 {
        lemma_abbreviation_118_chirho();
    } else if i == 119 {
        lemma_abbreviation_119_chirho();
    } else if i == 120 {
        lemma_abbreviation_120_chirho();
    } else if i == 121 {
        lemma_abbreviation_121_chirho();
    } else if i == 122 {
        lemma_abbreviation_122_chirho();
    } else if i == 123 {
        lemma_abbreviation_123_chirho();
    } else if i == 124 {
        lemma_abbreviation_124_chirho();
    } else if i == 125 {
        lemma_abbreviation_125_chirho();
    } else if i == 126 {
        lemma_abbreviation_126_chirho();
    } else if i == 127 {
        lemma_abbreviation_127_chirho();
    } else if i == 128 {
        lemma_abbreviation_128_chirho();
    } else if i == 129 {
        lemma_abbreviation_129_chirho();
    } else if i == 130 {
        lemma_abbreviation_130_chirho();
    } else if i == 131 {
        lemma_abbreviation_131_chirho();
    } else if i == 132 {
        lemma_abbreviation_132_chirho();
    } else if i == 133 {
        lemma_abbreviation_133_chirho();
    } else if i == 134 {
        lemma_abbreviation_134_chirho();
    }
}

/// Accepted names 135 to 178 name their books, and no earlier book.
#[verifier::rlimit(100)]
#[verifier::spinoff_prover]
proof fn lemma_abbreviations_fourth_chirho(i: int)
    requires
        135 <= i < 179,
    ensures
        spec_names_book_chirho(spec_abbreviation_chirho(i), spec_abbreviation_book_chirho(i)),
        forall|k: int|
            0 <= k < spec_abbreviation_book_chirho(i) ==> !#[trigger] spec_names_book_chirho(
                spec_abbreviation_chirho(i),
                k,
            ),
{
    if i == 135 {
        lemma_abbreviation_135_chirho();
    } else if i == 136 {
        lemma_abbreviation_136_chirho();
    } else if i == 137 {
        lemma_abbreviation_137_chirho();
    } else if i == 138 {
        lemma_abbreviation_138_chirho();
    } else if i == 139 {
        lemma_abbreviation_139_chirho();
    } else if i == 140 {
        lemma_abbreviation_140_chirho();
    } else if i == 141 {
        lemma_abbreviation_141_chirho();
    } else if i == 142 {
        lemma_abbreviation_142_chirho();
    } else if i == 143 {
        lemma_abbreviation_143_chirho();
    } else if i == 144 {
        lemma_abbreviation_144_chirho();
    } else if i == 145 {
        lemma_abbreviation_145_chirho();
    } else if i == 146 {
        lemma_abbreviation_146_chirho();
    } else if i == 147 {
        lemma_abbreviation_147_chirho();
    } else if i == 148 {
        lemma_abbreviation_148_chirho();
    } else if i == 149 {
        lemma_abbreviation_149_chirho();
    } else if i == 150 {
        lemma_abbreviation_150_chirho();
    } else if i == 151 {
        lemma_abbreviation_151_chirho();
    } else if i == 152 {
        lemma_abbreviation_152_chirho();
    } else if i == 153 {
        lemma_abbreviation_153_chirho();
    } else if i == 154 {
        lemma_abbreviation_154_chirho();
    } else if i == 155 {
        lemma_abbreviation_155_chirho();
    } else if i == 156 {
        lemma_abbreviation_156_chirho();
    } else if i == 157 {
        lemma_abbreviation_157_chirho();
    } else if i == 158 {
        lemma_abbreviation_158_chirho();
    } else if i == 159 {
        lemma_abbreviation_159_chirho();
    } else if i == 160 {
        lemma_abbreviation_160_chirho();
    } else if i == 161 {
        lemma_abbreviation_161_chirho();
    } else if i == 162 {
        lemma_abbreviation_162_chirho();
    } else if i == 163 {
        lemma_abbreviation_163_chirho();
    } else if i == 164 {
        lemma_abbreviation_164_chirho();
    } else if i == 165 {
        lemma_abbreviation_165_chirho();
    } else if i == 166 {
        lemma_abbreviation_166_chirho();
    } else if i == 167 {
        lemma_abbreviation_167_chirho();
    } else if i == 168 {
        lemma_abbreviation_168_chirho();
    } else if i == 169 {
        lemma_abbreviation_169_chirho();
    } else if i == 170 {
        lemma_abbreviation_170_chirho();
    } else if i == 171 {
        lemma_abbreviation_171_chirho();
    } else if i == 172 {
        lemma_abbreviation_172_chirho();
    } else if i == 173 {
        lemma_abbreviation_173_chirho();
    } else if i == 174 {
        lemma_abbreviation_174_chirho();
    } else if i == 175 {
        lemma_abbreviation_175_chirho();
    } else if i == 176 {
        lemma_abbreviation_176_chirho();
    } else if i == 177 {
        lemma_abbreviation_177_chirho();
    } else if i == 178 {
        lemma_abbreviation_178_chirho();
    }
}

/// Every accepted book name or abbreviation names the book it is read as:
/// it spells the start of that book's name (in lower case, a numbered
/// book's space optional), or it is a customary short form of that book;
/// and no book before it in the canon is named by it, so a shared start
/// ("phil" of Philippians and Philemon) goes to the first of them.
pub proof fn law_abbreviations_name_their_books_chirho(i: int)
    requires
        0 <= i < 179,
    ensures
        spec_names_book_chirho(spec_abbreviation_chirho(i), spec_abbreviation_book_chirho(i)),
        forall|k: int|
            0 <= k < spec_abbreviation_book_chirho(i) ==> !#[trigger] spec_names_book_chirho(
                spec_abbreviation_chirho(i),
                k,
            ),
{
    if i < 45 {
        lemma_abbreviations_first_chirho(i);
    } else if i < 90 {
        lemma_abbreviations_second_chirho(i);
    } else if i < 135 {
        lemma_abbreviations_third_chirho(i);
    } else {
        lemma_abbreviations_fourth_chirho(i);
    }
}

} // verus!
