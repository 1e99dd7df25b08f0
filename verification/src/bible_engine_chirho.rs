//! The Bible engine: reads verse text from installed SWORD modules through
//! `rsword_chirho`, and falls back to the built-in sample chapters when no
//! module can be read.

use vstd::prelude::*;
use vstd::string::StringExecFns;
use rsword_chirho::FilterChirho;
use crate::display_chirho::{reference_label_chirho, spec_reference_label_chirho};
use crate::models_chirho::{InterlinearWordChirho, InterlinearWordViewChirho};
use crate::osis_chirho::{interlinear_from_osis_chirho, spec_interlinear_from_osis_chirho};
use crate::samples_chirho::{
    get_sample_verses_chirho, lemma_sample_verses_count_chirho, spec_pairs_view_chirho,
    spec_sample_verses_chirho,
};
use crate::text_chirho::{
    chars_of_chirho, contains_chirho, int_to_string_chirho, spec_contains_chirho,
    spec_int_decimal_chirho, spec_lower_chirho, spec_trim_chirho, to_lowercase_chirho,
    trim_chars_chirho,
};

verus! {

// ---------------------------------------------------------------------------
// Outside types and calls
// ---------------------------------------------------------------------------

/// The SWORD module manager of `rsword_chirho`.
#[verifier::external_type_specification]
#[verifier::external_body]
pub struct ExSwMgrChirho(rsword_chirho::SwMgrChirho);

/// A SWORD module opened for reading.
#[verifier::external_type_specification]
#[verifier::external_body]
pub struct ExLoadedModuleChirho(rsword_chirho::manager_chirho::module_factory_chirho::LoadedModuleChirho);

/// An error of `rsword_chirho`.
#[verifier::external_type_specification]
#[verifier::external_body]
pub struct ExSwordErrorChirho(rsword_chirho::ErrorChirho);

/// Finds the installed SWORD modules in the usual places
/// (`SwMgrChirho::with_system_paths_chirho`). What it finds depends on the
/// file system, so nothing is stated of it. Not settled here: whether
/// scanning malformed configuration files can panic inside `rsword_chirho`.
#[verifier::external_body]
fn open_sword_manager_chirho() -> (r: Result<rsword_chirho::SwMgrChirho, rsword_chirho::ErrorChirho>) {
    rsword_chirho::SwMgrChirho::with_system_paths_chirho()
}

/// The names of the modules a manager found (`get_module_names_chirho`),
/// in the order of its hash map, so nothing is stated of them.
#[verifier::external_body]
fn sword_module_names_chirho<'a>(mgr: &'a rsword_chirho::SwMgrChirho) -> (r: Vec<&'a str>) {
    mgr.get_module_names_chirho()
}

/// Opens a module for reading (`SwMgrChirho::load_module_chirho`); the
/// outcome depends on the file system and the module's configuration, so
/// nothing is stated of it (missing settings and paths are errors in the
/// source).
#[verifier::external_body]
fn load_sword_module_chirho(mgr: &rsword_chirho::SwMgrChirho, name: &str) -> (r: Result<
    rsword_chirho::manager_chirho::module_factory_chirho::LoadedModuleChirho,
    rsword_chirho::ErrorChirho,
>) {
    mgr.load_module_chirho(name)
}

/// Reads the entry of a key from a module
/// (`LoadedModuleChirho::read_entry_chirho`); the text comes from disk, so
/// nothing is stated of it. Every driver of the source (plain and
/// compressed text and commentary storage, 2- and 4-byte indexes, lexicon
/// string storage, and LZSS, zlib, bzip2 and xz decompression) checks its
/// slice bounds or turns bad data into an error, and the verse key parser
/// cuts text only at ASCII bytes; a corrupt size field can still ask for a
/// buffer of up to 4 GiB, which is a limit of the machine.
#[verifier::external_body]
fn read_sword_entry_chirho(
    module: &rsword_chirho::manager_chirho::module_factory_chirho::LoadedModuleChirho,
    key: &str,
) -> (r: Result<String, rsword_chirho::ErrorChirho>) {
    module.read_entry_chirho(key)
}

/// The plain text that the OSIS-to-plain filter of `rsword_chirho` makes of
/// OSIS markup.
pub uninterp spec fn spec_osis_plain_chirho(osis: Seq<char>) -> Seq<char>;

/// Strips OSIS markup with a new `OsisToPlainFilterChirho` (no options)
/// and `FilterChirho::process_chirho`. Claimed: the result is the named
/// function of the text, and it is always `Ok` (the source's filter ends in
/// `Ok` on every path).
#[verifier::external_body]
fn osis_to_plain_chirho(osis: &str) -> (r: Result<String, rsword_chirho::ErrorChirho>)
    ensures
        r is Ok,
        r matches Ok(s) ==> s@ == spec_osis_plain_chirho(osis@),
{
    rsword_chirho::OsisToPlainFilterChirho::new_chirho().process_chirho(osis)
}

// ---------------------------------------------------------------------------
// The engine
// ---------------------------------------------------------------------------

/// Reads Bible text from SWORD modules, or from the sample chapters. Reading
/// an installed module goes through `rsword_chirho`; whether malformed module
/// files can make it panic is not settled by the contracts here.
pub struct BibleEngineChirho {
    manager_chirho: Option<rsword_chirho::SwMgrChirho>,
    current_module_chirho: String,
}

/// The module names offered when no SWORD modules are installed.
pub open spec fn spec_fallback_module_names_chirho() -> Seq<Seq<char>> {
    seq!["KJV"@, "SBLGNT"@, "WLC"@]
}

/// Whether the labels of `verses` are the numbers of verses 1 to 200 in
/// increasing order, as a chapter read from a module is.
pub open spec fn spec_numbered_verses_chirho(verses: Seq<(String, String)>) -> bool {
    exists|nums: Seq<int>|
        #![trigger nums.len()]
        nums.len() == verses.len() && (forall|i: int|
            0 <= i < verses.len() ==> 1 <= #[trigger] nums[i] <= 200 && verses[i].0@
                == spec_int_decimal_chirho(nums[i])) && (forall|i: int, j: int|
            0 <= i < j < verses.len() ==> nums[i] < nums[j])
}

impl BibleEngineChirho {
    /// The manager, if SWORD modules could be found.
    pub closed spec fn has_modules_chirho(&self) -> bool {
        self.manager_chirho is Some
    }

    /// The name of the module read from.
    pub closed spec fn module_chirho(&self) -> Seq<char> {
        self.current_module_chirho@
    }

    /// Creates an engine over the installed SWORD modules, reading the KJV
    /// module first.
    pub fn new_chirho() -> (r: Self)
        ensures
            r.module_chirho() == "KJV"@,
    {
        let manager = match open_sword_manager_chirho() {
            Ok(m) => Some(m),
            Err(_) => None,
        };
        BibleEngineChirho { manager_chirho: manager, current_module_chirho: String::from_str("KJV") }
    }

    /// An engine without SWORD modules, which reads the sample chapters.
    pub fn without_modules_chirho() -> (r: Self)
        ensures
            !r.has_modules_chirho(),
            r.module_chirho() == "KJV"@,
    {
        BibleEngineChirho { manager_chirho: None, current_module_chirho: String::from_str("KJV") }
    }

    /// The names of the installed modules; without modules (none could be
    /// found, or none is installed), "KJV", "SBLGNT" and "WLC".
    pub fn get_module_names_chirho(&self) -> (r: Vec<String>)
        ensures
            !self.has_modules_chirho() ==> r@.map_values(|s: String| s@)
                == spec_fallback_module_names_chirho(),
            r.len() > 0,
    {
        match &self.manager_chirho {
            Some(mgr) => {
                let names = sword_module_names_chirho(mgr);
                if names.len() > 0 {
                    let mut owned: Vec<String> = Vec::new();
                    let mut i: usize = 0;
                    while i < names.len()
                        invariant
                            i <= names.len(),
                            owned.len() == i,
                        decreases names.len() - i,
                    {
                        owned.push(String::from_str(names[i]));
                        i = i + 1;
                    }
                    return owned;
                }
            },
            None => {},
        }
        let r = vec![String::from_str("KJV"), String::from_str("SBLGNT"), String::from_str("WLC")];
        assert(r@.map_values(|s: String| s@) =~= spec_fallback_module_names_chirho());
        r
    }

    /// The verses of a chapter read from module `module_name`: verse 1 on,
    /// up to 200, stopping at the first verse after the first that is
    /// missing or blank; each text goes through the OSIS filter. Empty when
    /// the module cannot be opened.
    fn read_chapter_chirho(
        mgr: &rsword_chirho::SwMgrChirho,
        module_name: &str,
        book: &str,
        chapter: i32,
    ) -> (r: Vec<(String, String)>)
        ensures
            spec_numbered_verses_chirho(r@),
            r.len() <= 200,
    {
        let module = match load_sword_module_chirho(mgr, module_name) {
            Ok(m) => m,
            Err(_) => {
                let r: Vec<(String, String)> = Vec::new();
                assert(spec_numbered_verses_chirho(r@)) by {
                    let nums = Seq::<int>::empty();
                    assert(nums.len() == r@.len());
                }
                return r;
            },
        };
        let mut verses: Vec<(String, String)> = Vec::new();
        let ghost mut nums: Seq<int> = Seq::empty();
        let mut n: i32 = 1;
        while n <= 200
            invariant
                1 <= n <= 201,
                nums.len() == verses@.len(),
                forall|i: int|
                    0 <= i < verses@.len() ==> 1 <= #[trigger] nums[i] < n && verses@[i].0@
                        == spec_int_decimal_chirho(nums[i]),
                forall|i: int, j: int| 0 <= i < j < verses@.len() ==> nums[i] < nums[j],
                verses@.len() < n,
            decreases 201 - n,
        {
            let n_text = int_to_string_chirho(n as i64);
            let key = reference_label_chirho(book, chapter, n_text.as_str());
            let entry = read_sword_entry_chirho(&module, key.as_str());
            let mut found = false;
            match entry {
                Ok(text) => {
                    let trimmed = trim_chars_chirho(&chars_of_chirho(text.as_str()));
                    if trimmed.len() > 0 {
                        let filtered = match osis_to_plain_chirho(text.as_str()) {
                            Ok(s) => s,
                            Err(_) => text.clone(),
                        };
                        verses.push((n_text, filtered));
                        proof {
                            nums = nums.push(n as int);
                        }
                        found = true;
                    }
                },
                Err(_) => {},
            }
            if !found && n > 1 {
                break;
            }
            n = n + 1;
        }
        assert(spec_numbered_verses_chirho(verses@)) by {
            assert(nums.len() == verses@.len());
        }
        verses
    }

    /// The verses of a chapter of the current module; the sample chapter
    /// when there are no modules, or the module cannot be loaded or gives no
    /// verse (see `get_chapter_verses_for_module_chirho`).
    pub fn get_chapter_verses_chirho(&self, book: &str, chapter: i32) -> (r: Vec<(String, String)>)
        ensures
            !self.has_modules_chirho() ==> spec_pairs_view_chirho(r@) == spec_sample_verses_chirho(
                book@,
                chapter,
            ),
            exists|read: Seq<(String, String)>|
                #[trigger] spec_numbered_verses_chirho(read) && read.len() <= 200 && (read.len() > 0
                    ==> r@ == read) && (read.len() == 0 ==> spec_pairs_view_chirho(r@)
                    == spec_sample_verses_chirho(book@, chapter)),
            r.len() > 0,
            r.len() <= 200,
    {
        self.get_chapter_verses_for_module_chirho(self.current_module_chirho.as_str(), book, chapter)
    }

    /// The verses of a chapter of module `module_name` (for the parallel
    /// view): the verses the module gives (numbered from 1, at most 200);
    /// the sample chapter when there are no modules, or the module cannot be
    /// loaded or gives no verse. Which verses a module holds is up to its
    /// files.
    pub fn get_chapter_verses_for_module_chirho(
        &self,
        module_name: &str,
        book: &str,
        chapter: i32,
    ) -> (r: Vec<(String, String)>)
        ensures
            !self.has_modules_chirho() ==> spec_pairs_view_chirho(r@) == spec_sample_verses_chirho(
                book@,
                chapter,
            ),
            exists|read: Seq<(String, String)>|
                #[trigger] spec_numbered_verses_chirho(read) && read.len() <= 200 && (read.len() > 0
                    ==> r@ == read) && (read.len() == 0 ==> spec_pairs_view_chirho(r@)
                    == spec_sample_verses_chirho(book@, chapter)),
            r.len() > 0,
            r.len() <= 200,
    {
        let read = match &self.manager_chirho {
            Some(mgr) => Self::read_chapter_chirho(mgr, module_name, book, chapter),
            None => Vec::new(),
        };
        assert(spec_numbered_verses_chirho(read@)) by {
            if read.len() == 0 {
                let nums = Seq::<int>::empty();
                assert(nums.len() == read@.len());
            }
        }
        let ghost read_view = read@;
        let r = chapter_or_sample_chirho(read, book, chapter);
        assert(spec_numbered_verses_chirho(read_view));
        r
    }

    /// Switches the module read from.
    pub fn set_module_chirho(&mut self, module_name: &str)
        ensures
            final(self).module_chirho() == module_name@,
            final(self).has_modules_chirho() == old(self).has_modules_chirho(),
    {
        self.current_module_chirho = String::from_str(module_name);
    }

    /// The name of the module read from.
    pub fn current_module_chirho(&self) -> (r: &str)
        ensures
            r@ == self.module_chirho(),
    {
        self.current_module_chirho.as_str()
    }

    /// The raw (OSIS) text of a verse of the current module, when it can be
    /// read and is not blank; never without modules.
    pub fn get_raw_verse_chirho(&self, verse_ref: &str) -> (r: Option<String>)
        ensures
            !self.has_modules_chirho() ==> r is None,
            r matches Some(s) ==> spec_trim_chirho(s@).len() > 0,
    {
        match &self.manager_chirho {
            Some(mgr) => match load_sword_module_chirho(mgr, self.current_module_chirho.as_str()) {
                Ok(module) => match read_sword_entry_chirho(&module, verse_ref) {
                    Ok(text) => {
                        let trimmed = trim_chars_chirho(&chars_of_chirho(text.as_str()));
                        if trimmed.len() > 0 {
                            Some(text)
                        } else {
                            None
                        }
                    },
                    Err(_) => None,
                },
                Err(_) => None,
            },
            None => None,
        }
    }

    /// The interlinear words of a verse, read from the word elements of its
    /// OSIS text; none when the text cannot be read.
    pub fn extract_interlinear_chirho(&self, verse_ref: &str) -> (r: Vec<InterlinearWordChirho>)
        ensures
            !self.has_modules_chirho() ==> r.len() == 0,
            r.len() == 0 || exists|raw: Seq<char>|
                spec_trim_chirho(raw).len() > 0 && r@.map_values(|w: InterlinearWordChirho| w@)
                    == #[trigger] spec_interlinear_from_osis_chirho(raw),
    {
        match self.get_raw_verse_chirho(verse_ref) {
            Some(raw) => interlinear_from_osis_chirho(raw.as_str()),
            None => Vec::new(),
        }
    }
}

// ---------------------------------------------------------------------------
// Search
// ---------------------------------------------------------------------------

/// The (reference, text) candidates of one chapter's (label, text) verses.
pub open spec fn spec_chapter_candidates_chirho(
    book: Seq<char>,
    chapter: i32,
    verses: Seq<(Seq<char>, Seq<char>)>,
) -> Seq<(Seq<char>, Seq<char>)> {
    verses.map_values(
        |v: (Seq<char>, Seq<char>)| (spec_reference_label_chirho(book, chapter as int, v.0), v.1),
    )
}

/// The candidates of the sample chapters, in order.
pub open spec fn spec_sample_candidates_chirho() -> Seq<(Seq<char>, Seq<char>)> {
    spec_chapter_candidates_chirho("Genesis"@, 1, spec_sample_verses_chirho("Genesis"@, 1))
        + spec_chapter_candidates_chirho("John"@, 1, spec_sample_verses_chirho("John"@, 1))
        + spec_chapter_candidates_chirho("John"@, 3, spec_sample_verses_chirho("John"@, 3))
        + spec_chapter_candidates_chirho("Psalms"@, 23, spec_sample_verses_chirho("Psalms"@, 23))
}

/// The book of the `j`-th searched chapter (Genesis 1, John 1, John 3,
/// Psalms 23).
pub open spec fn spec_search_book_chirho(j: int) -> Seq<char> {
    if j == 0 {
        "Genesis"@
    } else if j == 3 {
        "Psalms"@
    } else {
        "John"@
    }
}

/// The chapter number of the `j`-th searched chapter.
pub open spec fn spec_search_chapter_chirho(j: int) -> i32 {
    if j == 0 {
        1
    } else if j == 1 {
        1
    } else if j == 2 {
        3
    } else {
        23
    }
}

/// The candidates of the first `c` searched chapters, whose (label, text)
/// verses are `read`, in order.
pub open spec fn spec_candidates_upto_chirho(read: Seq<Seq<(Seq<char>, Seq<char>)>>, c: int) -> Seq<
    (Seq<char>, Seq<char>),
>
    decreases c,
{
    if c <= 0 {
        Seq::empty()
    } else {
        spec_candidates_upto_chirho(read, c - 1) + spec_chapter_candidates_chirho(
            spec_search_book_chirho(c - 1),
            spec_search_chapter_chirho(c - 1),
            read[c - 1],
        )
    }
}

/// The candidates of the first `c` chapters depend only on the first `c`
/// chapters read.
pub proof fn lemma_candidates_upto_prefix_chirho(
    a: Seq<Seq<(Seq<char>, Seq<char>)>>,
    b: Seq<Seq<(Seq<char>, Seq<char>)>>,
    c: int,
)
    requires
        0 <= c <= a.len(),
        c <= b.len(),
        forall|j: int| 0 <= j < c ==> a[j] == b[j],
    ensures
        spec_candidates_upto_chirho(a, c) == spec_candidates_upto_chirho(b, c),
    decreases c,
{
    if c > 0 {
        lemma_candidates_upto_prefix_chirho(a, b, c - 1);
    }
}

/// Whether a candidate's text contains the query, ignoring case.
pub open spec fn spec_matches_query_chirho(text: Seq<char>, query: Seq<char>) -> bool {
    spec_contains_chirho(spec_lower_chirho(text), spec_lower_chirho(query))
}

/// Keeping the candidates that match.
pub open spec fn spec_match_fn_chirho(query: Seq<char>) -> spec_fn((Seq<char>, Seq<char>)) -> Option<
    (Seq<char>, Seq<char>),
> {
    |c: (Seq<char>, Seq<char>)| if spec_matches_query_chirho(c.1, query) {
        Some(c)
    } else {
        None
    }
}

/// The search result: the matching candidates in order, at most
/// `max_results` of them, and at least the first match even when
/// `max_results` is 0.
pub open spec fn spec_search_chirho(
    candidates: Seq<(Seq<char>, Seq<char>)>,
    query: Seq<char>,
    max_results: int,
) -> Seq<(Seq<char>, Seq<char>)> {
    let matches = candidates.filter_map(spec_match_fn_chirho(query));
    let cap = if max_results < 1 {
        1
    } else {
        max_results
    };
    if matches.len() <= cap {
        matches
    } else {
        matches.take(cap)
    }
}

/// The candidates of `candidates` whose text contains `query` (ignoring
/// case), in order, stopping once `max_results` are found (after the first
/// match when `max_results` is 0).
pub fn search_candidates_chirho(
    candidates: &Vec<(String, String)>,
    query: &str,
    max_results: usize,
) -> (r: Vec<(String, String)>)
    ensures
        spec_pairs_view_chirho(r@) == spec_search_chirho(
            spec_pairs_view_chirho(candidates@),
            query@,
            max_results as int,
        ),
{
    let ghost cands = spec_pairs_view_chirho(candidates@);
    let ghost f = spec_match_fn_chirho(query@);
    let lower_query = chars_of_chirho(to_lowercase_chirho(query).as_str());
    let mut out: Vec<(String, String)> = Vec::new();
    let mut i: usize = 0;
    while i < candidates.len()
        invariant
            i <= candidates.len(),
            cands == spec_pairs_view_chirho(candidates@),
            f == spec_match_fn_chirho(query@),
            lower_query@ == spec_lower_chirho(query@),
            spec_pairs_view_chirho(out@) == cands.take(i as int).filter_map(f),
            out.len() < (if max_results < 1 {
                1
            } else {
                max_results
            }) || out.len() == 0,
            out.len() <= i,
        decreases candidates.len() - i,
    {
        proof {
            cands.lemma_filter_map_take_succ(f, i as int);
        }
        let text = &candidates[i].1;
        let lower_text = chars_of_chirho(to_lowercase_chirho(text.as_str()).as_str());
        if contains_chirho(&lower_text, &lower_query) {
            let ghost before = spec_pairs_view_chirho(out@);
            out.push((candidates[i].0.clone(), text.clone()));
            assert(spec_pairs_view_chirho(out@) =~= before + seq![cands[i as int]]);
            if out.len() >= max_results {
                proof {
                    let m = cands.filter_map(f);
                    lemma_filter_map_prefix_chirho(cands, f, i + 1);
                    assert(m.take(out@.len() as int) =~= cands.take(i + 1).filter_map(f));
                }
                return out;
            }
        }
        i = i + 1;
    }
    assert(cands.take(candidates.len() as int) =~= cands);
    out
}

/// Filtering and mapping a prefix gives a prefix of the whole.
proof fn lemma_filter_map_prefix_chirho<A, B>(s: Seq<A>, f: spec_fn(A) -> Option<B>, k: int)
    requires
        0 <= k <= s.len(),
    ensures
        s.take(k).filter_map(f).len() <= s.filter_map(f).len(),
        s.filter_map(f).take(s.take(k).filter_map(f).len() as int) == s.take(k).filter_map(f),
    decreases s.len() - k,
{
    if k == s.len() {
        assert(s.take(k) =~= s);
        assert(s.filter_map(f).take(s.filter_map(f).len() as int) =~= s.filter_map(f));
    } else {
        lemma_filter_map_prefix_chirho(s, f, k + 1);
        s.lemma_filter_map_take_succ(f, k);
        let a = s.take(k).filter_map(f);
        let b = s.take(k + 1).filter_map(f);
        assert(b.take(a.len() as int) =~= a);
        assert(s.filter_map(f).take(a.len() as int) =~= s.filter_map(f).take(b.len() as int).take(
            a.len() as int,
        ));
    }
}

impl BibleEngineChirho {
    /// The (reference, text) of the verses of the sample chapters, as this
    /// engine reads them.
    fn search_candidates_of_chirho(&self) -> (r: Vec<(String, String)>)
        ensures
            !self.has_modules_chirho() ==> spec_pairs_view_chirho(r@)
                == spec_sample_candidates_chirho(),
            exists|read: Seq<Seq<(Seq<char>, Seq<char>)>>|
                read.len() == 4 && spec_pairs_view_chirho(r@) == #[trigger] spec_candidates_upto_chirho(
                    read,
                    4,
                ),
    {
        let books: [&str; 4] = ["Genesis", "John", "John", "Psalms"];
        let chapters: [i32; 4] = [1, 1, 3, 23];
        let mut out: Vec<(String, String)> = Vec::new();
        let ghost mut read: Seq<Seq<(Seq<char>, Seq<char>)>> = Seq::empty();
        let mut c: usize = 0;
        proof {
            reveal_strlit("Genesis");
            reveal_strlit("John");
            reveal_strlit("Psalms");
        }
        while c < 4
            invariant
                c <= 4,
                books@ == seq!["Genesis", "John", "John", "Psalms"],
                chapters@ == seq![1i32, 1i32, 3i32, 23i32],
                read.len() == c,
                spec_pairs_view_chirho(out@) == spec_candidates_upto_chirho(read, c as int),
                !self.has_modules_chirho() ==> forall|j: int|
                    0 <= j < c ==> #[trigger] read[j] == spec_sample_verses_chirho(
                        spec_search_book_chirho(j),
                        spec_search_chapter_chirho(j),
                    ),
            decreases 4 - c,
        {
            let book = books[c];
            let chapter = chapters[c];
            assert(book@ == spec_search_book_chirho(c as int));
            assert(chapter == spec_search_chapter_chirho(c as int));
            let verses = self.get_chapter_verses_chirho(book, chapter);
            let ghost before = spec_pairs_view_chirho(out@);
            let mut i: usize = 0;
            while i < verses.len()
                invariant
                    i <= verses.len(),
                    spec_pairs_view_chirho(out@) == before + spec_chapter_candidates_chirho(
                        book@,
                        chapter,
                        spec_pairs_view_chirho(verses@).take(i as int),
                    ),
                decreases verses.len() - i,
            {
                let reference = reference_label_chirho(book, chapter, verses[i].0.as_str());
                let ghost prev = spec_pairs_view_chirho(out@);
                out.push((reference, verses[i].1.clone()));
                proof {
                    let vv = spec_pairs_view_chirho(verses@);
                    assert(vv.take(i + 1) =~= vv.take(i as int).push(vv[i as int]));
                    assert(vv[i as int] == (verses@[i as int].0@, verses@[i as int].1@));
                    let g = |v: (Seq<char>, Seq<char>)|
                        (spec_reference_label_chirho(book@, chapter as int, v.0), v.1);
                    assert(vv.take(i + 1).map_values(g) =~= vv.take(i as int).map_values(g).push(
                        g(vv[i as int]),
                    ));
                    assert(spec_pairs_view_chirho(out@) =~= prev.push(g(vv[i as int])));
                }
                assert(spec_pairs_view_chirho(out@) =~= before + spec_chapter_candidates_chirho(
                    book@,
                    chapter,
                    spec_pairs_view_chirho(verses@).take(i + 1),
                ));
                i = i + 1;
            }
            assert(spec_pairs_view_chirho(verses@).take(verses.len() as int) =~= spec_pairs_view_chirho(
                verses@,
            ));
            proof {
                let old_read = read;
                read = read.push(spec_pairs_view_chirho(verses@));
                assert(spec_candidates_upto_chirho(read, c as int) == spec_candidates_upto_chirho(
                    old_read,
                    c as int,
                )) by {
                    lemma_candidates_upto_prefix_chirho(old_read, read, c as int);
                }
            }
            c = c + 1;
        }
        proof {
            if !self.has_modules_chirho() {
                reveal_with_fuel(spec_candidates_upto_chirho, 5);
                assert(read[0] == spec_sample_verses_chirho(spec_search_book_chirho(0), spec_search_chapter_chirho(0)));
                assert(read[1] == spec_sample_verses_chirho(spec_search_book_chirho(1), spec_search_chapter_chirho(1)));
                assert(read[2] == spec_sample_verses_chirho(spec_search_book_chirho(2), spec_search_chapter_chirho(2)));
                assert(read[3] == spec_sample_verses_chirho(spec_search_book_chirho(3), spec_search_chapter_chirho(3)));
                assert(spec_candidates_upto_chirho(read, 4) =~= spec_sample_candidates_chirho());
            }
        }
        out
    }

    /// The verses of the sample chapters whose text contains `query`,
    /// ignoring case, as (reference, text), at most `max_results` of them
    /// (but the first match even when `max_results` is 0).
    pub fn search_chirho(&self, query: &str, max_results: usize) -> (r: Vec<(String, String)>)
        ensures
            !self.has_modules_chirho() ==> spec_pairs_view_chirho(r@) == spec_search_chirho(
                spec_sample_candidates_chirho(),
                query@,
                max_results as int,
            ),
            exists|read: Seq<Seq<(Seq<char>, Seq<char>)>>|
                read.len() == 4 && spec_pairs_view_chirho(r@) == #[trigger] spec_search_chirho(
                    spec_candidates_upto_chirho(read, 4),
                    query@,
                    max_results as int,
                ),
            r.len() <= (if max_results < 1 {
                1
            } else {
                max_results as int
            }),
            forall|i: int| 0 <= i < r.len() ==> spec_matches_query_chirho(#[trigger] r@[i].1@, query@),
    {
        let candidates = self.search_candidates_of_chirho();
        let r = search_candidates_chirho(&candidates, query, max_results);
        proof {
            let cands = spec_pairs_view_chirho(candidates@);
            crate::laws_chirho::law_search_results_match_chirho(cands, query@, max_results as int);
            let res = spec_search_chirho(cands, query@, max_results as int);
            assert forall|i: int| 0 <= i < r.len() implies spec_matches_query_chirho(
                #[trigger] r@[i].1@,
                query@,
            ) by {
                assert(spec_pairs_view_chirho(r@)[i] == (r@[i].0@, r@[i].1@));
                assert(res[i] == spec_pairs_view_chirho(r@)[i]);
            }
        }
        r
    }
}

/// The verses a module gave for a chapter, or the sample chapter when it
/// gave none.
pub fn chapter_or_sample_chirho(read: Vec<(String, String)>, book: &str, chapter: i32) -> (r: Vec<(
    String,
    String,
)>)
    ensures
        read.len() > 0 ==> r@ == read@,
        read.len() == 0 ==> spec_pairs_view_chirho(r@) == spec_sample_verses_chirho(book@, chapter) && 0
            < r.len() <= 200,
{
    if read.len() > 0 {
        return read;
    }
    let r = get_sample_verses_chirho(book, chapter);
    proof {
        lemma_sample_verses_count_chirho(book@, chapter);
        assert(spec_pairs_view_chirho(r@).len() == r.len());
    }
    r
}

} // verus!
