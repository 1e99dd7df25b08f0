//! Reading streaks: how many consecutive days the user has read, now and at
//! best, out of the dates of the recorded reading sessions.

use vstd::prelude::*;
use crate::text_chirho::str_eq_chirho;

verus! {

// ---------------------------------------------------------------------------
// Calendar dates (chrono)
// ---------------------------------------------------------------------------

/// The day number (days from 1 January of year 1, counting it as day 1) of
/// the date that `s` spells as "%Y-%m-%d", if it spells one.
pub uninterp spec fn spec_date_days_chirho(s: Seq<char>) -> Option<i32>;

/// Parses a "%Y-%m-%d" date with `chrono::NaiveDate::parse_from_str` and
/// gives its `Datelike::num_days_from_ce`. Claimed: the result is the named
/// function of the text, since parsing reads nothing but its arguments.
#[verifier::external_body]
pub(crate) fn parse_date_days_chirho(s: &str) -> (r: Option<i32>)
    ensures
        r == spec_date_days_chirho(s@),
{
    match chrono::NaiveDate::parse_from_str(s, "%Y-%m-%d") {
        Ok(d) => Some(chrono::Datelike::num_days_from_ce(&d)),
        Err(_) => None,
    }
}

/// The day number (as `spec_date_days_chirho` counts) of today's local date
/// (`chrono::Local::now`, `date_naive` and `Datelike::num_days_from_ce`).
/// It depends on the clock, so nothing is stated of it.
#[verifier::external_body]
pub(crate) fn local_today_days_chirho() -> (r: i32) {
    chrono::Datelike::num_days_from_ce(&chrono::Local::now().date_naive())
}

/// The "%Y-%m-%d" text of day number `days`, if it is a date chrono can
/// hold.
pub uninterp spec fn spec_date_text_chirho(days: i32) -> Option<Seq<char>>;

/// Writes the date of day number `days` as "%Y-%m-%d"
/// (`NaiveDate::from_num_days_from_ce_opt` and `format`). Claimed: the
/// result is the named function of `days`, since both read nothing else;
/// and a text written reads back as the same day with
/// `NaiveDate::parse_from_str` and the same format (chrono writes `%Y` with
/// a sign outside years 0 to 9999 and reads that sign back, and writes `%m`
/// and `%d` as two digits).
#[verifier::external_body]
fn date_text_chirho(days: i32) -> (r: Option<String>)
    ensures
        match r {
            Some(t) => spec_date_text_chirho(days) == Some(t@),
            None => spec_date_text_chirho(days) is None,
        },
        r matches Some(t) ==> spec_date_days_chirho(t@) == Some(days),
{
    match chrono::NaiveDate::from_num_days_from_ce_opt(days) {
        Some(d) => Some(d.format("%Y-%m-%d").to_string()),
        None => None,
    }
}

/// The text of day `days`, or empty when it is no date chrono can hold.
pub open spec fn spec_day_text_chirho(days: i32) -> Seq<char> {
    match spec_date_text_chirho(days) {
        Some(t) => t,
        None => Seq::empty(),
    }
}

/// The text of the day before day `days` (empty when there is none).
pub open spec fn spec_day_before_text_chirho(days: i32) -> Seq<char> {
    if days > i32::MIN {
        spec_day_text_chirho((days - 1) as i32)
    } else {
        Seq::empty()
    }
}

/// The dates of day `days` and of the day before it, as "%Y-%m-%d" (empty
/// for a day chrono cannot hold).
pub fn day_and_day_before_chirho(days: i32) -> (r: (String, String))
    ensures
        r.0@ == spec_day_text_chirho(days),
        r.1@ == spec_day_before_text_chirho(days),
        r.0@.len() > 0 ==> spec_date_days_chirho(r.0@) == Some(days),
        r.1@.len() > 0 ==> days > i32::MIN && spec_date_days_chirho(r.1@) == Some((days - 1) as i32),
{
    let today = match date_text_chirho(days) {
        Some(t) => t,
        None => String::new(),
    };
    let yesterday = if days > i32::MIN {
        match date_text_chirho(days - 1) {
            Some(t) => t,
            None => String::new(),
        }
    } else {
        String::new()
    };
    (today, yesterday)
}

/// Today's local date as "%Y-%m-%d". Which day today is depends on the
/// clock.
pub(crate) fn local_today_chirho() -> (r: String)
    ensures
        exists|days: i32| r@ == #[trigger] spec_day_text_chirho(days),
{
    let days = local_today_days_chirho();
    day_and_day_before_chirho(days).0
}

// ---------------------------------------------------------------------------
// Runs of consecutive days
// ---------------------------------------------------------------------------

/// The day numbers of the dates that parse, in their order.
pub open spec fn spec_parsed_days_chirho(dates: Seq<String>) -> Seq<i32> {
    dates.filter_map(spec_date_fn_chirho())
}

/// Parsing one date.
pub open spec fn spec_date_fn_chirho() -> spec_fn(String) -> Option<i32> {
    |s: String| spec_date_days_chirho(s@)
}

/// Whether `b` is the day before `a`.
pub open spec fn spec_day_before_chirho(a: int, b: int) -> bool {
    a - b == 1
}

/// The length of the run of consecutive days (each the day before the one
/// preceding it) that ends at index `j` of `days`.
pub open spec fn spec_run_ending_chirho(days: Seq<i32>, j: int) -> int
    decreases j,
{
    if j <= 0 {
        1
    } else if spec_day_before_chirho(days[j - 1] as int, days[j] as int) {
        spec_run_ending_chirho(days, j - 1) + 1
    } else {
        1
    }
}

/// The length of the longest run of consecutive days in `days`, 0 when it
/// is empty.
pub open spec fn spec_longest_run_chirho(days: Seq<i32>) -> int
    decreases days.len(),
{
    if days.len() == 0 {
        0
    } else {
        let before = spec_longest_run_chirho(days.drop_last());
        let here = spec_run_ending_chirho(days, days.len() - 1);
        if before >= here {
            before
        } else {
            here
        }
    }
}

/// Whether element `t` of `rest` falls on the day before the one preceding
/// it (`start` for the first).
pub open spec fn spec_link_chirho(start: int, rest: Seq<i32>, t: int) -> bool {
    spec_day_before_chirho(
        if t == 0 {
            start
        } else {
            rest[t - 1] as int
        },
        rest[t] as int,
    )
}

/// Whether the first `k` of `rest` each fall on the day before the one
/// preceding them, starting from `start`.
pub open spec fn spec_chain_chirho(start: int, rest: Seq<i32>, k: int) -> bool {
    &&& 0 <= k <= rest.len()
    &&& forall|t: int| 0 <= t < k ==> #[trigger] spec_link_chirho(start, rest, t)
}

/// The first date of `dates` that parses, if any.
pub open spec fn spec_first_parsed_chirho(dates: Seq<String>) -> Option<String>
    decreases dates.len(),
{
    if dates.len() == 0 {
        None
    } else if spec_date_days_chirho(dates[0]@) is Some {
        Some(dates[0])
    } else {
        spec_first_parsed_chirho(dates.skip(1))
    }
}

/// Whether `s` is today's or yesterday's date.
pub open spec fn spec_is_recent_chirho(s: Seq<char>, today: Seq<char>, yesterday: Seq<char>) -> bool {
    s == today || s == yesterday
}

/// The current streak when the newest date is today or yesterday: one for
/// that day, plus the run of consecutive days that follows it back in time
/// (`chain` of them).
pub open spec fn spec_current_streak_chirho(
    dates: Seq<String>,
    today: Seq<char>,
    yesterday: Seq<char>,
    chain: int,
) -> bool {
    if dates.len() > 0 && spec_is_recent_chirho(dates[0]@, today, yesterday) {
        let start = if dates[0]@ == today {
            spec_date_days_chirho(today)
        } else {
            spec_date_days_chirho(yesterday)
        };
        let rest = spec_parsed_days_chirho(dates.skip(1));
        match start {
            Some(p) => spec_chain_chirho(p as int, rest, chain) && (chain == rest.len()
                || !spec_link_chirho(p as int, rest, chain)),
            None => chain == 0,
        }
    } else {
        true
    }
}

/// The current streak: when the newest date is today or yesterday, one plus
/// the consecutive days before it (see `spec_current_streak_chirho`); else 1
/// when the first date that parses is today or yesterday, and 0 otherwise.
pub open spec fn spec_current_value_chirho(
    dates: Seq<String>,
    today: Seq<char>,
    yesterday: Seq<char>,
    chain: int,
) -> int {
    if dates.len() > 0 && spec_is_recent_chirho(dates[0]@, today, yesterday) {
        1 + chain
    } else {
        match spec_first_parsed_chirho(dates) {
            Some(s) => if spec_is_recent_chirho(s@, today, yesterday) {
                1
            } else {
                0
            },
            None => 0,
        }
    }
}

// ---------------------------------------------------------------------------
// Computing the streaks
// ---------------------------------------------------------------------------

/// The run ending at `j` depends only on the days up to `j`.
proof fn lemma_run_ending_prefix_chirho(days: Seq<i32>, n: int, j: int)
    requires
        0 <= j < n <= days.len(),
    ensures
        spec_run_ending_chirho(days.take(n), j) == spec_run_ending_chirho(days, j),
    decreases j,
{
    if j > 0 {
        lemma_run_ending_prefix_chirho(days, n, j - 1);
    }
}

/// The run ending at `j` is at least 1 and at most `j + 1` long.
proof fn lemma_run_ending_bounds_chirho(days: Seq<i32>, j: int)
    requires
        0 <= j,
    ensures
        1 <= spec_run_ending_chirho(days, j) <= j + 1,
    decreases j,
{
    if j > 0 {
        lemma_run_ending_bounds_chirho(days, j - 1);
    }
}

/// The longest run is never negative.
proof fn lemma_longest_run_nonnegative_chirho(days: Seq<i32>)
    ensures
        0 <= spec_longest_run_chirho(days),
    decreases days.len(),
{
    if days.len() > 0 {
        lemma_longest_run_nonnegative_chirho(days.drop_last());
    }
}

/// The day numbers of the dates from index `from` on that parse.
fn parsed_days_chirho(dates: &Vec<String>, from: usize) -> (r: Vec<i32>)
    requires
        from <= dates.len(),
    ensures
        r@ == spec_parsed_days_chirho(dates@.skip(from as int)),
        r.len() <= dates.len() - from,
{
    let ghost s = dates@.skip(from as int);
    let mut out: Vec<i32> = Vec::new();
    let mut i: usize = from;
    while i < dates.len()
        invariant
            from <= i <= dates.len(),
            s == dates@.skip(from as int),
            out@ == s.take(i - from).filter_map(spec_date_fn_chirho()),
            out.len() <= i - from,
        decreases dates.len() - i,
    {
        proof {
            s.lemma_filter_map_take_succ(spec_date_fn_chirho(), (i - from) as int);
        }
        assert(s[(i - from) as int] == dates@[i as int]);
        match parse_date_days_chirho(dates[i].as_str()) {
            Some(d) => out.push(d),
            None => {},
        }
        i += 1;
    }
    assert(s.take(s.len() as int) =~= s);
    out
}

/// The longest run of consecutive days in `days`.
fn longest_run_chirho(days: &Vec<i32>) -> (r: i32)
    requires
        days.len() <= i32::MAX,
    ensures
        r == spec_longest_run_chirho(days@),
{
    if days.len() == 0 {
        return 0;
    }
    let mut longest: i32 = 0;
    let mut temp: i32 = 1;
    let mut i: usize = 1;
    proof {
        assert(days@.take(1).drop_last() =~= Seq::<i32>::empty());
        assert(spec_longest_run_chirho(days@.take(1).drop_last()) == 0);
        assert(spec_run_ending_chirho(days@.take(1), 0) == 1);
    }
    while i < days.len()
        invariant
            1 <= i <= days.len(),
            days.len() <= i32::MAX,
            temp == spec_run_ending_chirho(days@, i - 1),
            1 <= temp <= i,
            0 <= longest <= i,
            (if longest >= temp {
                longest as int
            } else {
                temp as int
            }) == spec_longest_run_chirho(days@.take(i as int)),
        decreases days.len() - i,
    {
        let ghost old_longest = longest;
        let ghost old_temp = temp;
        if (days[i - 1] as i64) - (days[i] as i64) == 1 {
            temp = temp + 1;
        } else {
            if temp > longest {
                longest = temp;
            }
            temp = 1;
        }
        proof {
            let next = days@.take(i + 1);
            assert(next.drop_last() =~= days@.take(i as int));
            lemma_run_ending_prefix_chirho(days@, i + 1, i as int);
            assert(temp == spec_run_ending_chirho(days@, i as int));
            assert(spec_run_ending_chirho(next, next.len() - 1) == temp);
        }
        i += 1;
    }
    assert(days@.take(days.len() as int) =~= days@);
    if temp > longest {
        temp
    } else {
        longest
    }
}

/// How many of `rest` continue, day by day, the chain that starts at
/// `start`.
fn chain_length_chirho(start: i32, rest: &Vec<i32>) -> (k: usize)
    ensures
        spec_chain_chirho(start as int, rest@, k as int),
        k == rest.len() || !spec_link_chirho(start as int, rest@, k as int),
{
    let mut k: usize = 0;
    let mut p: i32 = start;
    while k < rest.len()
        invariant
            k <= rest.len(),
            spec_chain_chirho(start as int, rest@, k as int),
            k == 0 ==> p == start,
            k > 0 ==> p == rest@[k - 1],
        decreases rest.len() - k,
    {
        if (p as i64) - (rest[k] as i64) == 1 {
            assert(spec_link_chirho(start as int, rest@, k as int));
            p = rest[k];
            k += 1;
        } else {
            return k;
        }
    }
    k
}

/// Whether the first date of `dates` that parses is today or yesterday.
fn first_parsed_is_recent_chirho(dates: &Vec<String>, today: &str, yesterday: &str) -> (r: bool)
    ensures
        r == (match spec_first_parsed_chirho(dates@) {
            Some(s) => spec_is_recent_chirho(s@, today@, yesterday@),
            None => false,
        }),
{
    let mut i: usize = 0;
    assert(dates@.skip(0) =~= dates@);
    while i < dates.len()
        invariant
            i <= dates.len(),
            spec_first_parsed_chirho(dates@) == spec_first_parsed_chirho(dates@.skip(i as int)),
        decreases dates.len() - i,
    {
        let ghost s = dates@.skip(i as int);
        assert(s[0] == dates@[i as int]);
        if parse_date_days_chirho(dates[i].as_str()).is_some() {
            return str_eq_chirho(dates[i].as_str(), today) || str_eq_chirho(
                dates[i].as_str(),
                yesterday,
            );
        }
        assert(s.skip(1) =~= dates@.skip(i + 1));
        i += 1;
    }
    assert(dates@.skip(i as int) =~= Seq::<String>::empty());
    false
}

/// The current and the longest reading streak, in days, out of the dates
/// of the reading sessions (newest first, as "%Y-%m-%d") and the dates of
/// today and yesterday. Dates that do not parse are passed over.
pub fn reading_streaks_chirho(dates: &Vec<String>, today: &str, yesterday: &str) -> (r: (i32, i32))
    requires
        dates.len() <= i32::MAX,
    ensures
        0 <= r.0,
        0 <= r.1,
        r.1 == spec_longest_run_chirho(spec_parsed_days_chirho(dates@)),
        exists|chain: int|
            spec_current_streak_chirho(dates@, today@, yesterday@, chain) && r.0
                == spec_current_value_chirho(dates@, today@, yesterday@, chain),
{
    let all = parsed_days_chirho(dates, 0);
    assert(dates@.skip(0) =~= dates@);
    let longest = longest_run_chirho(&all);
    proof {
        lemma_longest_run_nonnegative_chirho(all@);
    }
    if dates.len() > 0 && (str_eq_chirho(dates[0].as_str(), today) || str_eq_chirho(
        dates[0].as_str(),
        yesterday,
    )) {
        let start = if str_eq_chirho(dates[0].as_str(), today) {
            parse_date_days_chirho(today)
        } else {
            parse_date_days_chirho(yesterday)
        };
        match start {
            Some(p) => {
                let rest = parsed_days_chirho(dates, 1);
                let k = chain_length_chirho(p, &rest);
                assert(spec_current_streak_chirho(dates@, today@, yesterday@, k as int));
                (1 + k as i32, longest)
            },
            None => {
                assert(spec_current_streak_chirho(dates@, today@, yesterday@, 0));
                (1, longest)
            },
        }
    } else {
        let recent = first_parsed_is_recent_chirho(dates, today, yesterday);
        assert(spec_current_streak_chirho(dates@, today@, yesterday@, 0));
        (
            if recent {
                1
            } else {
                0
            },
            longest,
        )
    }
}

// ---------------------------------------------------------------------------
// The current streak never exceeds the longest
// ---------------------------------------------------------------------------

/// Filtering and mapping distributes over concatenation.
proof fn lemma_filter_map_add_chirho<A, B>(a: Seq<A>, b: Seq<A>, f: spec_fn(A) -> Option<B>)
    ensures
        (a + b).filter_map(f) == a.filter_map(f) + b.filter_map(f),
    decreases b.len(),
{
    if b.len() == 0 {
        assert(a + b =~= a);
        assert(a.filter_map(f) + b.filter_map(f) =~= a.filter_map(f));
    } else {
        lemma_filter_map_add_chirho(a, b.drop_last(), f);
        assert((a + b).drop_last() =~= a + b.drop_last());
        assert((a + b).last() == b.last());
        match f(b.last()) {
            Some(x) => {
                assert(a.filter_map(f) + b.drop_last().filter_map(f) + seq![x] =~= a.filter_map(f)
                    + (b.drop_last().filter_map(f) + seq![x]));
            },
            None => {},
        }
    }
}

/// The parsed days of `dates` are those of its first date, then those of
/// the rest.
proof fn lemma_parsed_front_chirho(dates: Seq<String>)
    requires
        dates.len() > 0,
    ensures
        spec_parsed_days_chirho(dates) == (match spec_date_days_chirho(dates[0]@) {
            Some(p) => seq![p],
            None => Seq::<i32>::empty(),
        }) + spec_parsed_days_chirho(dates.skip(1)),
{
    let f = spec_date_fn_chirho();
    assert(dates =~= seq![dates[0]] + dates.skip(1));
    lemma_filter_map_add_chirho(seq![dates[0]], dates.skip(1), f);
    Seq::<String>::lemma_filter_map_singleton(dates[0], f);
    match spec_date_days_chirho(dates[0]@) {
        Some(p) => {},
        None => {
            assert(Seq::<i32>::empty() + spec_parsed_days_chirho(dates.skip(1)) =~= spec_parsed_days_chirho(dates.skip(1)));
        },
    }
}

/// The longest run is at least as long as the run ending anywhere.
proof fn lemma_longest_covers_chirho(days: Seq<i32>, j: int)
    requires
        0 <= j < days.len(),
    ensures
        spec_run_ending_chirho(days, j) <= spec_longest_run_chirho(days),
    decreases days.len(),
{
    if j < days.len() - 1 {
        let d = days.drop_last();
        assert(d =~= days.take(days.len() - 1));
        lemma_run_ending_prefix_chirho(days, days.len() - 1, j);
        lemma_longest_covers_chirho(d, j);
    }
}

/// A chain of `k` from `start` makes a run of `k + 1` in `[start] + rest`.
proof fn lemma_chain_run_chirho(start: i32, rest: Seq<i32>, k: int, t: int)
    requires
        spec_chain_chirho(start as int, rest, k),
        0 <= t <= k,
    ensures
        spec_run_ending_chirho(seq![start] + rest, t) == t + 1,
    decreases t,
{
    if t > 0 {
        lemma_chain_run_chirho(start, rest, k, t - 1);
        assert(spec_link_chirho(start as int, rest, t - 1));
    }
}

/// When some date parses, some day is parsed.
proof fn lemma_first_parsed_nonempty_chirho(dates: Seq<String>)
    requires
        spec_first_parsed_chirho(dates) is Some,
    ensures
        spec_parsed_days_chirho(dates).len() > 0,
    decreases dates.len(),
{
    lemma_parsed_front_chirho(dates);
    if spec_date_days_chirho(dates[0]@) is None {
        lemma_first_parsed_nonempty_chirho(dates.skip(1));
    }
}

/// The current reading streak is never longer than the longest one, given
/// that today's and yesterday's dates are dates.
pub proof fn law_current_streak_within_longest_chirho(
    dates: Seq<String>,
    today: Seq<char>,
    yesterday: Seq<char>,
    chain: int,
)
    requires
        spec_date_days_chirho(today) is Some,
        spec_date_days_chirho(yesterday) is Some,
        spec_current_streak_chirho(dates, today, yesterday, chain),
    ensures
        spec_current_value_chirho(dates, today, yesterday, chain) <= spec_longest_run_chirho(
            spec_parsed_days_chirho(dates),
        ),
{
    let days = spec_parsed_days_chirho(dates);
    if dates.len() > 0 && spec_is_recent_chirho(dates[0]@, today, yesterday) {
        let start = if dates[0]@ == today {
            spec_date_days_chirho(today)
        } else {
            spec_date_days_chirho(yesterday)
        };
        assert(start == spec_date_days_chirho(dates[0]@));
        let p = start->0;
        lemma_parsed_front_chirho(dates);
        let rest = spec_parsed_days_chirho(dates.skip(1));
        assert(days == seq![p] + rest);
        assert(spec_chain_chirho(p as int, rest, chain));
        assert(chain < days.len());
        lemma_chain_run_chirho(p, rest, chain, chain);
        lemma_longest_covers_chirho(days, chain);
    } else {
        if spec_first_parsed_chirho(dates) is Some {
            lemma_first_parsed_nonempty_chirho(dates);
        }
        if days.len() > 0 {
            lemma_longest_covers_chirho(days, 0);
        }
    }
}

} // verus!
