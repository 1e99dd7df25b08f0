//! Character-level text helpers shared by the rest of the library: conversion
//! between strings and character vectors, whitespace trimming, integer parsing
//! and printing, and substring search.

use vstd::prelude::*;
use vstd::std_specs::iter::IteratorSpec;
use vstd::string::StringExecFns;

verus! {

// ---------------------------------------------------------------------------
// Conversions
// ---------------------------------------------------------------------------

/// Collects the characters of `s` into a vector.
pub fn chars_of_chirho(s: &str) -> (v: Vec<char>)
    ensures
        v@ == s@,
{
    let mut v: Vec<char> = Vec::new();
    let mut it = s.chars();
    proof {
        broadcast use vstd::string::group_string_axioms;
    }
    let ghost total = s@;
    loop
        invariant
            it.remaining() == total.skip(v@.len() as int),
            v@ == total.take(v@.len() as int),
            v@.len() <= total.len(),
            total == s@,
        ensures
            v@ == total,
        decreases total.len() - v@.len(),
    {
        proof {
            broadcast use vstd::string::group_string_axioms;
        }
        match it.next() {
            Some(c) => {
                assert(total.skip(v@.len() as int)[0] == total[v@.len() as int]);
                v.push(c);
                assert(v@ =~= total.take(v@.len() as int));
            },
            None => {
                assert(total.skip(v@.len() as int).len() == 0);
                assert(v@ =~= total);
                break;
            },
        }
    }
    v
}

/// Builds a `String` holding exactly the characters of `v`, in order.
///
/// Trusted: calls `String::from_iter` of std, which is documented to collect
/// the characters of the iterator into a new string.
#[verifier::external_body]
pub(crate) fn string_from_chars_chirho(v: &Vec<char>) -> (s: String)
    ensures
        s@ == v@,
{
    String::from_iter(v.iter())
}

/// The Unicode lower-case form of a string, as `str::to_lowercase` of std
/// computes it.
pub uninterp spec fn spec_lowercase_chirho(s: Seq<char>) -> Seq<char>;

/// Every character of `s` is ASCII.
pub open spec fn spec_is_ascii_chirho(s: Seq<char>) -> bool {
    forall|i: int| 0 <= i < s.len() ==> (#[trigger] s[i] as u32) < 128
}

/// `c` with the ASCII capitals `A` to `Z` turned into `a` to `z`.
pub open spec fn spec_ascii_lower_char_chirho(c: char) -> char {
    if 'A' <= c && c <= 'Z' {
        ((c as u32) + 32) as char
    } else {
        c
    }
}

/// `s` with the ASCII capitals turned into small letters.
pub open spec fn spec_ascii_lowercase_chirho(s: Seq<char>) -> Seq<char> {
    s.map_values(|c: char| spec_ascii_lower_char_chirho(c))
}

/// The lower-case form of `s`: for an ASCII text its ASCII capitals made
/// small, for any other text `spec_lowercase_chirho`.
pub open spec fn spec_lower_chirho(s: Seq<char>) -> Seq<char> {
    if spec_is_ascii_chirho(s) {
        spec_ascii_lowercase_chirho(s)
    } else {
        spec_lowercase_chirho(s)
    }
}

/// Lower-cases `s`.
///
/// Trusted: calls `str::to_lowercase` of std, which lower-cases by the
/// Unicode case mappings. On ASCII text those turn `A` to `Z` into `a` to
/// `z` and leave every other character alone; on other text the result is a
/// function of the characters of `s` alone, named `spec_lowercase_chirho`,
/// and nothing more about the Unicode case tables is claimed.
#[verifier::external_body]
fn str_to_lowercase_chirho(s: &str) -> (r: String)
    ensures
        spec_is_ascii_chirho(s@) ==> r@ == spec_ascii_lowercase_chirho(s@),
        !spec_is_ascii_chirho(s@) ==> r@ == spec_lowercase_chirho(s@),
{
    s.to_lowercase()
}

/// Lower-cases `s` (see `spec_lower_chirho`).
pub(crate) fn to_lowercase_chirho(s: &str) -> (r: String)
    ensures
        r@ == spec_lower_chirho(s@),
{
    str_to_lowercase_chirho(s)
}

/// Lower-cases a character sequence (see `to_lowercase_chirho`).
pub fn lowercase_chars_chirho(v: &Vec<char>) -> (r: Vec<char>)
    ensures
        r@ == spec_lower_chirho(v@),
{
    let s = string_from_chars_chirho(v);
    let l = to_lowercase_chirho(s.as_str());
    chars_of_chirho(l.as_str())
}

/// Equality of two string slices by their characters.
pub fn str_eq_chirho(a: &str, b: &str) -> (r: bool)
    ensures
        r == (a@ == b@),
{
    let va = chars_of_chirho(a);
    let vb = chars_of_chirho(b);
    chars_eq_chirho(&va, &vb)
}

/// Equality of two character vectors.
pub fn chars_eq_chirho(a: &Vec<char>, b: &Vec<char>) -> (r: bool)
    ensures
        r == (a@ == b@),
{
    if a.len() != b.len() {
        return false;
    }
    let mut i: usize = 0;
    while i < a.len()
        invariant
            a@.len() == b@.len(),
            i <= a@.len(),
            forall|j: int| 0 <= j < i ==> a@[j] == b@[j],
        decreases a@.len() - i,
    {
        if a[i] != b[i] {
            return false;
        }
        i = i + 1;
    }
    assert(a@ =~= b@);
    true
}

/// Appends the characters of `w` to `v`.
pub fn extend_chirho(v: &mut Vec<char>, w: &Vec<char>)
    ensures
        final(v)@ == old(v)@ + w@,
{
    let mut i: usize = 0;
    let ghost start = v@;
    while i < w.len()
        invariant
            i <= w@.len(),
            v@ == start + w@.take(i as int),
        decreases w@.len() - i,
    {
        v.push(w[i]);
        i = i + 1;
        assert(v@ =~= start + w@.take(i as int));
    }
    assert(w@.take(w@.len() as int) =~= w@);
}

/// Appends the characters of the string slice `s` to `v`.
pub fn extend_str_chirho(v: &mut Vec<char>, s: &str)
    ensures
        final(v)@ == old(v)@ + s@,
{
    let w = chars_of_chirho(s);
    extend_chirho(v, &w);
}

// ---------------------------------------------------------------------------
// Whitespace and trimming
// ---------------------------------------------------------------------------

/// The characters with the Unicode `White_Space` property, which is what
/// `char::is_whitespace` of std tests.
pub open spec fn spec_is_whitespace_chirho(c: char) -> bool {
    ||| ('\u{9}' <= c && c <= '\u{d}')
    ||| c == ' '
    ||| c == '\u{85}'
    ||| c == '\u{a0}'
    ||| c == '\u{1680}'
    ||| ('\u{2000}' <= c && c <= '\u{200a}')
    ||| c == '\u{2028}'
    ||| c == '\u{2029}'
    ||| c == '\u{202f}'
    ||| c == '\u{205f}'
    ||| c == '\u{3000}'
}

/// Whether `c` is a Unicode white-space character.
pub fn is_whitespace_chirho(c: char) -> (r: bool)
    ensures
        r == spec_is_whitespace_chirho(c),
{
    ('\u{9}' <= c && c <= '\u{d}') || c == ' ' || c == '\u{85}' || c == '\u{a0}' || c
        == '\u{1680}' || ('\u{2000}' <= c && c <= '\u{200a}') || c == '\u{2028}' || c
        == '\u{2029}' || c == '\u{202f}' || c == '\u{205f}' || c == '\u{3000}'
}

/// The index of the first non-white-space character of `s` at or after `i`
/// (the length of `s` when there is none).
pub open spec fn spec_first_non_ws_chirho(s: Seq<char>, i: int) -> int
    decreases s.len() - i,
{
    if i < 0 || i >= s.len() {
        s.len() as int
    } else if spec_is_whitespace_chirho(s[i]) {
        spec_first_non_ws_chirho(s, i + 1)
    } else {
        i
    }
}

/// One past the index of the last non-white-space character of `s` before
/// index `j` (zero when there is none).
pub open spec fn spec_end_non_ws_chirho(s: Seq<char>, j: int) -> int
    decreases j,
{
    if j <= 0 || j > s.len() {
        0
    } else if spec_is_whitespace_chirho(s[j - 1]) {
        spec_end_non_ws_chirho(s, j - 1)
    } else {
        j
    }
}

/// `s` without leading and trailing white space (`str::trim`).
pub open spec fn spec_trim_chirho(s: Seq<char>) -> Seq<char> {
    let a = spec_first_non_ws_chirho(s, 0);
    if a >= s.len() {
        Seq::empty()
    } else {
        s.subrange(a, spec_end_non_ws_chirho(s, s.len() as int))
    }
}

/// The first non-whitespace position at or after `i` lies between `i` and
/// the end, and holds no whitespace when it is before the end.
pub proof fn lemma_first_non_ws_bounds_chirho(s: Seq<char>, i: int)
    requires
        0 <= i <= s.len(),
    ensures
        i <= spec_first_non_ws_chirho(s, i) <= s.len(),
        spec_first_non_ws_chirho(s, i) < s.len() ==> !spec_is_whitespace_chirho(
            s[spec_first_non_ws_chirho(s, i)],
        ),
    decreases s.len() - i,
{
    if i < s.len() && spec_is_whitespace_chirho(s[i]) {
        lemma_first_non_ws_bounds_chirho(s, i + 1);
    }
}

/// The end of the text before `j` without trailing white space lies past
/// any character before `j` that is not white space.
pub proof fn lemma_end_non_ws_bounds_chirho(s: Seq<char>, j: int, a: int)
    requires
        0 <= a < j <= s.len(),
        !spec_is_whitespace_chirho(s[a]),
    ensures
        a < spec_end_non_ws_chirho(s, j) <= j,
    decreases j,
{
    if spec_is_whitespace_chirho(s[j - 1]) {
        lemma_end_non_ws_bounds_chirho(s, j - 1, a);
    }
}

/// The index of the first non-white-space character of `v`.
fn first_non_ws_index_chirho(v: &Vec<char>) -> (r: usize)
    ensures
        r == spec_first_non_ws_chirho(v@, 0),
        r <= v@.len(),
{
    let mut i: usize = 0;
    while i < v.len() && is_whitespace_chirho(v[i])
        invariant
            i <= v@.len(),
            spec_first_non_ws_chirho(v@, 0) == spec_first_non_ws_chirho(v@, i as int),
        decreases v@.len() - i,
    {
        i = i + 1;
    }
    i
}

/// `v` without leading and trailing white space.
pub fn trim_chars_chirho(v: &Vec<char>) -> (r: Vec<char>)
    ensures
        r@ == spec_trim_chirho(v@),
{
    let a = first_non_ws_index_chirho(v);
    if a >= v.len() {
        return Vec::new();
    }
    proof {
        lemma_first_non_ws_bounds_chirho(v@, 0);
    }
    let mut j: usize = v.len();
    while j > 0 && is_whitespace_chirho(v[j - 1])
        invariant
            a < v@.len(),
            !spec_is_whitespace_chirho(v@[a as int]),
            a < j <= v@.len(),
            spec_end_non_ws_chirho(v@, v@.len() as int) == spec_end_non_ws_chirho(v@, j as int),
        decreases j,
    {
        j = j - 1;
    }
    let mut r: Vec<char> = Vec::new();
    let mut k: usize = a;
    while k < j
        invariant
            a <= k <= j <= v@.len(),
            r@ == v@.subrange(a as int, k as int),
        decreases j - k,
    {
        r.push(v[k]);
        k = k + 1;
        assert(r@ =~= v@.subrange(a as int, k as int));
    }
    r
}

/// The characters of `v` from index `from` (inclusive) to `to` (exclusive).
pub fn subrange_chirho(v: &Vec<char>, from: usize, to: usize) -> (r: Vec<char>)
    requires
        from <= to <= v@.len(),
    ensures
        r@ == v@.subrange(from as int, to as int),
{
    let mut r: Vec<char> = Vec::new();
    let mut k: usize = from;
    while k < to
        invariant
            from <= k <= to <= v@.len(),
            r@ == v@.subrange(from as int, k as int),
        decreases to - k,
    {
        r.push(v[k]);
        k = k + 1;
        assert(r@ =~= v@.subrange(from as int, k as int));
    }
    r
}

// ---------------------------------------------------------------------------
// Searching
// ---------------------------------------------------------------------------

/// `p` is a prefix of `s` (`str::starts_with`).
pub open spec fn spec_starts_with_chirho(s: Seq<char>, p: Seq<char>) -> bool {
    p.len() <= s.len() && s.take(p.len() as int) == p
}

/// `n` occurs in `s` at index `i`.
pub open spec fn spec_occurs_at_chirho(s: Seq<char>, n: Seq<char>, i: int) -> bool {
    0 <= i && i + n.len() <= s.len() && s.subrange(i, i + n.len()) == n
}

/// `n` occurs somewhere in `s` (`str::contains`).
pub open spec fn spec_contains_chirho(s: Seq<char>, n: Seq<char>) -> bool {
    exists|i: int| spec_occurs_at_chirho(s, n, i)
}

/// Whether `n` occurs in `s` at index `i`.
pub fn occurs_at_chirho(s: &Vec<char>, n: &Vec<char>, i: usize) -> (r: bool)
    ensures
        r == spec_occurs_at_chirho(s@, n@, i as int),
{
    if i > s.len() || n.len() > s.len() - i {
        return false;
    }
    let sl = s.len();
    let mut k: usize = 0;
    while k < n.len()
        invariant
            sl == s@.len(),
            i + n@.len() <= s@.len(),
            k <= n@.len(),
            forall|j: int| 0 <= j < k ==> s@[i + j] == n@[j],
        decreases n@.len() - k,
    {
        assert(i + k < s@.len());
        if s[i + k] != n[k] {
            assert(s@.subrange(i as int, i + n@.len())[k as int] != n@[k as int]);
            return false;
        }
        k = k + 1;
    }
    assert(s@.subrange(i as int, i + n@.len()) =~= n@);
    true
}

/// Whether `p` is a prefix of `s`.
pub fn starts_with_chirho(s: &Vec<char>, p: &Vec<char>) -> (r: bool)
    ensures
        r == spec_starts_with_chirho(s@, p@),
{
    let r = occurs_at_chirho(s, p, 0);
    proof {
        if r {
            assert(s@.take(p@.len() as int) =~= s@.subrange(0, p@.len() as int));
        }
        if spec_starts_with_chirho(s@, p@) {
            assert(s@.take(p@.len() as int) =~= s@.subrange(0, p@.len() as int));
        }
    }
    r
}

/// Whether `n` occurs somewhere in `s`.
pub fn contains_chirho(s: &Vec<char>, n: &Vec<char>) -> (r: bool)
    ensures
        r == spec_contains_chirho(s@, n@),
{
    if n.len() > s.len() {
        return false;
    }
    let last = s.len() - n.len();
    let mut i: usize = 0;
    loop
        invariant
            n@.len() <= s@.len(),
            last == s@.len() - n@.len(),
            i <= last,
            forall|j: int| 0 <= j < i ==> !spec_occurs_at_chirho(s@, n@, j),
        ensures
            forall|j: int| 0 <= j <= last ==> !spec_occurs_at_chirho(s@, n@, j),
        decreases last - i,
    {
        if occurs_at_chirho(s, n, i) {
            return true;
        }
        if i == last {
            break;
        }
        i = i + 1;
    }
    assert forall|j: int| !spec_occurs_at_chirho(s@, n@, j) by {
        if 0 <= j && j + n@.len() <= s@.len() {
            assert(j <= last);
        }
    }
    false
}

/// The index of the first occurrence of `c` in `s` at or after `i`, or the
/// length of `s` when there is none.
pub open spec fn spec_find_char_chirho(s: Seq<char>, c: char, i: int) -> int
    decreases s.len() - i,
{
    if i < 0 || i >= s.len() {
        s.len() as int
    } else if s[i] == c {
        i
    } else {
        spec_find_char_chirho(s, c, i + 1)
    }
}

/// The first occurrence of `c` at or after `i` lies between `i` and the
/// end, holds `c` when it is before the end, and no `c` comes before it.
pub proof fn lemma_find_char_bounds_chirho(s: Seq<char>, c: char, i: int)
    requires
        0 <= i <= s.len(),
    ensures
        i <= spec_find_char_chirho(s, c, i) <= s.len(),
        spec_find_char_chirho(s, c, i) < s.len() ==> s[spec_find_char_chirho(s, c, i)] == c,
        forall|j: int| i <= j < spec_find_char_chirho(s, c, i) ==> s[j] != c,
    decreases s.len() - i,
{
    if i < s.len() && s[i] != c {
        lemma_find_char_bounds_chirho(s, c, i + 1);
    }
}

/// When no `c` comes before index `k` and `c` stands at `k` (or `k` is the
/// end), the first `c` from `i` on is at `k`.
pub proof fn lemma_find_char_at_chirho(s: Seq<char>, c: char, i: int, k: int)
    requires
        0 <= i <= k <= s.len(),
        forall|j: int| i <= j < k ==> s[j] != c,
        k < s.len() ==> s[k] == c,
    ensures
        spec_find_char_chirho(s, c, i) == k,
    decreases k - i,
{
    if i < k {
        lemma_find_char_at_chirho(s, c, i + 1, k);
    }
}

/// Trimming leaves a text alone when it starts and ends with a character
/// that is not white space.
pub proof fn lemma_trim_unchanged_chirho(s: Seq<char>)
    requires
        s.len() > 0,
        !spec_is_whitespace_chirho(s[0]),
        !spec_is_whitespace_chirho(s[s.len() - 1]),
    ensures
        spec_trim_chirho(s) == s,
{
    assert(spec_first_non_ws_chirho(s, 0) == 0);
    assert(spec_end_non_ws_chirho(s, s.len() as int) == s.len());
    assert(s.subrange(0, s.len() as int) =~= s);
}

/// The index of the first occurrence of `c` in `v` at or after `from`.
pub fn find_char_chirho(v: &Vec<char>, c: char, from: usize) -> (r: usize)
    requires
        from <= v@.len(),
    ensures
        r == spec_find_char_chirho(v@, c, from as int),
        from <= r <= v@.len(),
{
    proof {
        lemma_find_char_bounds_chirho(v@, c, from as int);
    }
    let mut i: usize = from;
    while i < v.len() && v[i] != c
        invariant
            from <= i <= v@.len(),
            spec_find_char_chirho(v@, c, from as int) == spec_find_char_chirho(v@, c, i as int),
        decreases v@.len() - i,
    {
        i = i + 1;
    }
    i
}

/// The first field of `s` when split at `sep` (`s.split(sep).next()`).
pub open spec fn spec_first_field_chirho(s: Seq<char>, sep: char) -> Seq<char> {
    s.take(spec_find_char_chirho(s, sep, 0))
}

/// What follows the first `sep` of `s`, when `s` holds one.
pub open spec fn spec_after_first_chirho(s: Seq<char>, sep: char) -> Option<Seq<char>> {
    let k = spec_find_char_chirho(s, sep, 0);
    if k < s.len() {
        Some(s.skip(k + 1))
    } else {
        None
    }
}

// ---------------------------------------------------------------------------
// Integers
// ---------------------------------------------------------------------------

/// `c` is one of the ASCII digits `0` to `9`.
pub open spec fn spec_is_digit_chirho(c: char) -> bool {
    '0' <= c && c <= '9'
}

/// Every character of `s` is an ASCII digit.
pub open spec fn spec_all_digits_chirho(s: Seq<char>) -> bool {
    forall|i: int| 0 <= i < s.len() ==> spec_is_digit_chirho(#[trigger] s[i])
}

/// The decimal value of a string of ASCII digits.
pub open spec fn spec_digits_value_chirho(s: Seq<char>) -> nat
    decreases s.len(),
{
    if s.len() == 0 {
        0
    } else {
        spec_digits_value_chirho(s.drop_last()) * 10 + ((s.last() as int - '0' as int) as nat)
    }
}

/// What `str::parse::<i32>` gives on `s`: an optional sign followed by one or
/// more ASCII digits, whose value fits in an `i32`.
pub open spec fn spec_parse_i32_chirho(s: Seq<char>) -> Option<i32> {
    let neg = s.len() > 0 && s[0] == '-';
    let signed = s.len() > 0 && (s[0] == '-' || s[0] == '+');
    let d = if signed {
        s.skip(1)
    } else {
        s
    };
    let v: int = if neg {
        -(spec_digits_value_chirho(d) as int)
    } else {
        spec_digits_value_chirho(d) as int
    };
    if d.len() > 0 && spec_all_digits_chirho(d) && i32::MIN <= v <= i32::MAX {
        Some(v as i32)
    } else {
        None
    }
}

proof fn lemma_digits_value_step_chirho(s: Seq<char>, k: int)
    requires
        0 <= k < s.len(),
    ensures
        spec_digits_value_chirho(s.take(k + 1)) == spec_digits_value_chirho(s.take(k)) * 10 + (
        (s[k] as int - '0' as int) as nat),
{
    assert(s.take(k + 1).drop_last() =~= s.take(k));
}

/// Parses `v` as an `i32` the way `str::parse::<i32>` does.
#[verifier::loop_isolation(false)]
pub fn parse_i32_chirho(v: &Vec<char>) -> (r: Option<i32>)
    ensures
        r == spec_parse_i32_chirho(v@),
{
    let n = v.len();
    if n == 0 {
        return None;
    }
    let neg = v[0] == '-';
    let signed = v[0] == '-' || v[0] == '+';
    let start: usize = if signed {
        1
    } else {
        0
    };
    let ghost d = if signed {
        v@.skip(1)
    } else {
        v@
    };
    assert(d =~= v@.skip(start as int));
    if start >= n {
        return None;
    }
    // Magnitude so far, saturated just above what an i32 can hold.
    let limit: u64 = 2147483649;
    let mut acc: u64 = 0;
    let mut i: usize = start;
    while i < n
        invariant
            n == v@.len(),
            start <= i <= n,
            d =~= v@.skip(start as int),
            spec_all_digits_chirho(d.take(i - start)),
            acc <= limit,
            acc < limit ==> acc == spec_digits_value_chirho(d.take(i - start)),
            acc == limit ==> spec_digits_value_chirho(d.take(i - start)) >= limit,
        decreases n - i,
    {
        let c = v[i];
        if !('0' <= c && c <= '9') {
            assert(!spec_is_digit_chirho(d[i - start]));
            assert(!spec_all_digits_chirho(d));
            return None;
        }
        proof {
            lemma_digits_value_step_chirho(d, i - start);
            assert(d.take(i - start + 1) =~= d.take(i - start).push(c));
        }
        let dv: u64 = (c as u32 - '0' as u32) as u64;
        assert(dv < 10);
        if acc < limit {
            assert(acc * 10 + dv < 30000000000);
            let next = acc * 10 + dv;
            acc = if next >= limit {
                limit
            } else {
                next
            };
        }
        i = i + 1;
    }
    assert(d.take(n - start) =~= d);
    if neg {
        if acc <= 2147483648 {
            Some((0i64 - acc as i64) as i32)
        } else {
            None
        }
    } else {
        if acc <= 2147483647 {
            Some(acc as i32)
        } else {
            None
        }
    }
}

/// What `str::parse::<usize>` gives on `s`: an optional `+` followed by one
/// or more ASCII digits, whose value fits in a `usize`.
pub open spec fn spec_parse_usize_chirho(s: Seq<char>) -> Option<usize> {
    let d = if s.len() > 0 && s[0] == '+' {
        s.skip(1)
    } else {
        s
    };
    if d.len() > 0 && spec_all_digits_chirho(d) && spec_digits_value_chirho(d) <= usize::MAX {
        Some(spec_digits_value_chirho(d) as usize)
    } else {
        None
    }
}

/// Parses `v` as a `usize` the way `str::parse::<usize>` does.
#[verifier::loop_isolation(false)]
pub fn parse_usize_chirho(v: &Vec<char>) -> (r: Option<usize>)
    ensures
        r == spec_parse_usize_chirho(v@),
{
    let n = v.len();
    if n == 0 {
        return None;
    }
    let start: usize = if v[0] == '+' {
        1
    } else {
        0
    };
    let ghost d = if v[0] == '+' {
        v@.skip(1)
    } else {
        v@
    };
    assert(d =~= v@.skip(start as int));
    if start >= n {
        return None;
    }
    // Magnitude so far, saturated just above what a usize can hold.
    let limit: u128 = usize::MAX as u128 + 1;
    let mut acc: u128 = 0;
    let mut i: usize = start;
    while i < n
        invariant
            n == v@.len(),
            start <= i <= n,
            d =~= v@.skip(start as int),
            limit == usize::MAX + 1,
            spec_all_digits_chirho(d.take(i - start)),
            acc <= limit,
            acc < limit ==> acc == spec_digits_value_chirho(d.take(i - start)),
            acc == limit ==> spec_digits_value_chirho(d.take(i - start)) >= limit,
        decreases n - i,
    {
        let c = v[i];
        if !('0' <= c && c <= '9') {
            assert(!spec_is_digit_chirho(d[i - start]));
            assert(!spec_all_digits_chirho(d));
            return None;
        }
        proof {
            lemma_digits_value_step_chirho(d, i - start);
            assert(d.take(i - start + 1) =~= d.take(i - start).push(c));
        }
        let dv: u128 = (c as u32 - '0' as u32) as u128;
        assert(dv < 10);
        if acc < limit {
            assert(acc * 10 + dv < 0x1_0000_0000_0000_0000_0000_0000_0000);
            let next = acc * 10 + dv;
            acc = if next >= limit {
                limit
            } else {
                next
            };
        }
        i = i + 1;
    }
    assert(d.take(n - start) =~= d);
    if acc < limit {
        Some(acc as usize)
    } else {
        None
    }
}

/// The ASCII digit for `d`.
pub open spec fn spec_digit_char_chirho(d: nat) -> char {
    if d == 0 {
        '0'
    } else if d == 1 {
        '1'
    } else if d == 2 {
        '2'
    } else if d == 3 {
        '3'
    } else if d == 4 {
        '4'
    } else if d == 5 {
        '5'
    } else if d == 6 {
        '6'
    } else if d == 7 {
        '7'
    } else if d == 8 {
        '8'
    } else {
        '9'
    }
}

/// The decimal representation of `n`, without leading zeros.
pub open spec fn spec_nat_decimal_chirho(n: nat) -> Seq<char>
    decreases n,
{
    if n < 10 {
        seq![spec_digit_char_chirho(n)]
    } else {
        spec_nat_decimal_chirho(n / 10).push(spec_digit_char_chirho(n % 10))
    }
}

/// The decimal digits of `n` are ASCII digits, at least one, and read back
/// as `n`.
pub proof fn lemma_nat_decimal_reads_back_chirho(n: nat)
    ensures
        spec_nat_decimal_chirho(n).len() > 0,
        spec_all_digits_chirho(spec_nat_decimal_chirho(n)),
        spec_digits_value_chirho(spec_nat_decimal_chirho(n)) == n,
    decreases n,
{
    let d = spec_digit_char_chirho(n % 10);
    assert(d as int - '0' as int == n % 10);
    if n < 10 {
        assert(spec_nat_decimal_chirho(n) == seq![d]);
        assert(seq![d].drop_last() =~= Seq::<char>::empty());
        assert(spec_digits_value_chirho(Seq::<char>::empty()) == 0);
        assert(spec_digits_value_chirho(seq![d]) == n);
    } else {
        let s = spec_nat_decimal_chirho(n / 10);
        lemma_nat_decimal_reads_back_chirho(n / 10);
        let t = s.push(d);
        assert(t.drop_last() =~= s);
        assert(t.last() == d);
        assert((n / 10) * 10 + n % 10 == n);
        assert(spec_nat_decimal_chirho(n) == t);
        assert(spec_digits_value_chirho(t) == spec_digits_value_chirho(s) * 10 + ((d as int - '0' as int) as nat));
        assert(spec_all_digits_chirho(t)) by {
            assert forall|i: int| 0 <= i < t.len() implies spec_is_digit_chirho(#[trigger] t[i]) by {
                if i < s.len() {
                    assert(t[i] == s[i]);
                }
            }
        }
    }
}

/// The decimal representation of `i` as `Display` prints integers.
pub open spec fn spec_int_decimal_chirho(i: int) -> Seq<char> {
    if i < 0 {
        seq!['-'] + spec_nat_decimal_chirho((-i) as nat)
    } else {
        spec_nat_decimal_chirho(i as nat)
    }
}

/// The decimal text of `n` is not empty, ends with a digit, and each of its
/// characters is a digit, but for a leading `-` when `n` is negative.
pub proof fn lemma_int_decimal_chars_chirho(n: int)
    ensures
        spec_int_decimal_chirho(n).len() > 0,
        spec_is_digit_chirho(spec_int_decimal_chirho(n).last()),
        forall|j: int|
            0 <= j < spec_int_decimal_chirho(n).len() ==> spec_is_digit_chirho(
                #[trigger] spec_int_decimal_chirho(n)[j],
            ) || (j == 0 && n < 0 && spec_int_decimal_chirho(n)[j] == '-'),
{
    let s = spec_int_decimal_chirho(n);
    if n < 0 {
        let d = spec_nat_decimal_chirho((-n) as nat);
        lemma_nat_decimal_reads_back_chirho((-n) as nat);
        assert forall|j: int| 0 <= j < s.len() implies spec_is_digit_chirho(#[trigger] s[j]) || (j
            == 0 && n < 0 && s[j] == '-') by {
            if j > 0 {
                assert(s[j] == d[j - 1]);
            }
        }
        assert(s.last() == d.last());
    } else {
        lemma_nat_decimal_reads_back_chirho(n as nat);
    }
}

/// Printing a whole number that fits in an `i32` and parsing the text back
/// (as `str::parse::<i32>` does) gives the number again.
pub proof fn lemma_int_decimal_parses_back_chirho(n: int)
    requires
        i32::MIN <= n <= i32::MAX,
    ensures
        spec_parse_i32_chirho(spec_int_decimal_chirho(n)) == Some(n as i32),
{
    let s = spec_int_decimal_chirho(n);
    if n < 0 {
        let m = (-n) as nat;
        lemma_nat_decimal_reads_back_chirho(m);
        assert(s.skip(1) =~= spec_nat_decimal_chirho(m));
        assert(s[0] == '-');
    } else {
        lemma_nat_decimal_reads_back_chirho(n as nat);
        let d = spec_nat_decimal_chirho(n as nat);
        assert(spec_is_digit_chirho(d[0]));
    }
}

fn digit_char_chirho(d: u64) -> (c: char)
    requires
        d < 10,
    ensures
        c == spec_digit_char_chirho(d as nat),
{
    if d == 0 {
        '0'
    } else if d == 1 {
        '1'
    } else if d == 2 {
        '2'
    } else if d == 3 {
        '3'
    } else if d == 4 {
        '4'
    } else if d == 5 {
        '5'
    } else if d == 6 {
        '6'
    } else if d == 7 {
        '7'
    } else if d == 8 {
        '8'
    } else {
        '9'
    }
}

/// Appends the decimal digits of `n` to `v`.
pub fn push_decimal_chirho(v: &mut Vec<char>, n: u64)
    ensures
        final(v)@ == old(v)@ + spec_nat_decimal_chirho(n as nat),
    decreases n,
{
    if n >= 10 {
        push_decimal_chirho(v, n / 10);
    }
    v.push(digit_char_chirho(n % 10));
    proof {
        if n < 10 {
            assert(n % 10 == n);
        }
    }
    assert(final(v)@ =~= old(v)@ + spec_nat_decimal_chirho(n as nat)) by {
        reveal_with_fuel(spec_nat_decimal_chirho, 2);
    }
}

/// Appends the decimal representation of `i` to `v`.
pub fn push_int_decimal_chirho(v: &mut Vec<char>, i: i64)
    ensures
        final(v)@ == old(v)@ + spec_int_decimal_chirho(i as int),
{
    if i < 0 {
        v.push('-');
        let m: u64 = (0i128 - i as i128) as u64;
        push_decimal_chirho(v, m);
        assert(final(v)@ =~= old(v)@ + spec_int_decimal_chirho(i as int));
    } else {
        push_decimal_chirho(v, i as u64);
    }
}

/// The decimal representation of `i` as a string.
pub fn int_to_string_chirho(i: i64) -> (s: String)
    ensures
        s@ == spec_int_decimal_chirho(i as int),
{
    let mut v: Vec<char> = Vec::new();
    push_int_decimal_chirho(&mut v, i);
    assert(v@ =~= spec_int_decimal_chirho(i as int));
    string_from_chars_chirho(&v)
}

// ---------------------------------------------------------------------------
// Splitting and joining
// ---------------------------------------------------------------------------

/// The views of a vector of character vectors.
pub open spec fn spec_views_chirho(v: Seq<Vec<char>>) -> Seq<Seq<char>> {
    v.map_values(|p: Vec<char>| p@)
}

/// The elements of `parts` joined with `sep` between them (`join`).
pub open spec fn spec_join_chirho(parts: Seq<Seq<char>>, sep: Seq<char>) -> Seq<char>
    decreases parts.len(),
{
    if parts.len() == 0 {
        Seq::empty()
    } else if parts.len() == 1 {
        parts[0]
    } else {
        spec_join_chirho(parts.drop_last(), sep) + sep + parts.last()
    }
}

/// Joins `parts` with `sep` between them.
pub fn join_chirho(parts: &Vec<Vec<char>>, sep: &Vec<char>) -> (r: Vec<char>)
    ensures
        r@ == spec_join_chirho(spec_views_chirho(parts@), sep@),
{
    let mut r: Vec<char> = Vec::new();
    let mut i: usize = 0;
    while i < parts.len()
        invariant
            i <= parts@.len(),
            r@ == spec_join_chirho(spec_views_chirho(parts@).take(i as int), sep@),
        decreases parts@.len() - i,
    {
        let ghost before = r@;
        if i > 0 {
            extend_chirho(&mut r, sep);
        }
        extend_chirho(&mut r, &parts[i]);
        proof {
            let vs = spec_views_chirho(parts@);
            assert(vs.take(i + 1).drop_last() =~= vs.take(i as int));
            assert(vs.take(i + 1).last() == parts@[i as int]@);
            if i == 0 {
                assert(r@ =~= spec_join_chirho(vs.take(1), sep@));
            }
        }
        i = i + 1;
    }
    assert(spec_views_chirho(parts@).take(parts@.len() as int) =~= spec_views_chirho(parts@));
    r
}

/// The fields of `s` separated by `sep` (`str::split`): always at least one.
pub open spec fn spec_split_chirho(s: Seq<char>, sep: char) -> Seq<Seq<char>>
    decreases s.len(),
{
    let k = spec_find_char_chirho(s, sep, 0);
    if k >= s.len() {
        seq![s]
    } else {
        proof {
            lemma_find_char_bounds_chirho(s, sep, 0);
        }
        seq![s.take(k)] + spec_split_chirho(s.skip(k + 1), sep)
    }
}

/// Splits `s` at every `sep`.
pub fn split_chirho(s: &Vec<char>, sep: char) -> (r: Vec<Vec<char>>)
    ensures
        spec_views_chirho(r@) == spec_split_chirho(s@, sep),
    decreases s@.len(),
{
    proof {
        lemma_find_char_bounds_chirho(s@, sep, 0);
    }
    let k = find_char_chirho(s, sep, 0);
    if k >= s.len() {
        let mut r: Vec<Vec<char>> = Vec::new();
        r.push(subrange_chirho(s, 0, s.len()));
        assert(spec_views_chirho(r@) =~= spec_split_chirho(s@, sep)) by {
            assert(s@.subrange(0, s@.len() as int) =~= s@);
        }
        r
    } else {
        let head = subrange_chirho(s, 0, k);
        let tail = subrange_chirho(s, k + 1, s.len());
        assert(tail@ =~= s@.skip(k + 1));
        assert(head@ =~= s@.take(k as int));
        let rest = split_chirho(&tail, sep);
        let mut r: Vec<Vec<char>> = Vec::new();
        r.push(head);
        let mut j: usize = 0;
        while j < rest.len()
            invariant
                j <= rest@.len(),
                r@.len() == j + 1,
                r@[0]@ == s@.take(k as int),
                forall|m: int| 0 <= m < j ==> (#[trigger] r@[m + 1])@ == rest@[m]@,
            decreases rest@.len() - j,
        {
            r.push(rest[j].clone());
            j = j + 1;
        }
        assert(spec_views_chirho(r@) =~= seq![s@.take(k as int)] + spec_views_chirho(rest@)) by {
            assert forall|m: int| 1 <= m < r@.len() implies spec_views_chirho(r@)[m] == (seq![
                s@.take(k as int),
            ] + spec_views_chirho(rest@))[m] by {
                assert(r@[(m - 1) + 1]@ == rest@[m - 1]@);
            }
        }
        r
    }
}

} // verus!
