//! Pattern catalog: the structural regularities of the bulletin formats,
//! as first-match scanners over the text.  Each pattern has a spec-level
//! "occurs at" predicate, a spec first-match position, and an executable
//! scanner proved against them.  The catalog is fixed; parsers pick the
//! patterns their format needs.

use vstd::prelude::*;
use crate::text::{
    all_digits, digits_val, find_at, find_from, is_digit, is_space, lower_char, match_at_ci,
    matches_at_ci, parse_u16, digit_at, digit_run, lemma_find_from_some, str_len, sub_string,
    char_at, lower,
};
use vstd::utf8::is_ascii_chars;

verus! {

broadcast use vstd::string::group_string_axioms;

/// First position in `from..end` where the predicate holds.
pub open spec fn first_at(p: spec_fn(int) -> bool, from: int, end: int) -> Option<int>
    decreases end - from,
{
    if from >= end {
        None
    } else if p(from) {
        Some(from)
    } else {
        first_at(p, from + 1, end)
    }
}

pub proof fn lemma_first_at_some(p: spec_fn(int) -> bool, from: int, end: int, j: int)
    requires
        first_at(p, from, end) == Some(j),
    ensures
        from <= j < end,
        p(j),
    decreases end - from,
{
    if from < end && !p(from) {
        lemma_first_at_some(p, from + 1, end, j);
    }
}

/// A hit at `i` with no earlier hit pins the first match.
pub proof fn lemma_first_at_hit(p: spec_fn(int) -> bool, from: int, end: int, i: int)
    requires
        from <= i < end,
        p(i),
        forall|j: int| from <= j < i ==> !#[trigger] p(j),
    ensures
        first_at(p, from, end) == Some(i),
    decreases i - from,
{
    if from < i {
        lemma_first_at_hit(p, from + 1, end, i);
    }
}

/// No hit anywhere means no first match.
pub proof fn lemma_first_at_none(p: spec_fn(int) -> bool, from: int, end: int)
    requires
        forall|j: int| from <= j < end ==> !#[trigger] p(j),
    ensures
        first_at(p, from, end) is None,
    decreases end - from,
{
    if from < end {
        lemma_first_at_none(p, from + 1, end);
    }
}

/// Length of the run of decimal digits starting at `i`.
pub open spec fn digit_run_len(s: Seq<char>, i: int) -> int
    decreases s.len() - i,
{
    if i < 0 || i >= s.len() {
        0
    } else if is_digit(s[i]) {
        1 + digit_run_len(s, i + 1)
    } else {
        0
    }
}

pub proof fn lemma_digit_run_len(s: Seq<char>, from: int, n: int)
    requires
        0 <= from,
        0 <= n,
        from + n <= s.len(),
        all_digits(s, from, from + n),
        from + n < s.len() ==> !is_digit(s[from + n]),
    ensures
        digit_run_len(s, from) == n,
    decreases n,
{
    if n > 0 {
        assert(is_digit(s[from]));
        assert(all_digits(s, from + 1, from + n));
        lemma_digit_run_len(s, from + 1, n - 1);
    }
}

/// The characters of a digit run are digits.
pub proof fn lemma_run_all_digits(s: Seq<char>, i: int)
    requires
        0 <= i <= s.len(),
    ensures
        i + digit_run_len(s, i) <= s.len(),
        all_digits(s, i, i + digit_run_len(s, i)),
    decreases s.len() - i,
{
    if i < s.len() && is_digit(s[i]) {
        lemma_run_all_digits(s, i + 1);
    }
}

/// Executable digit-run length, tied to the spec run length.
pub fn digit_run_at(s: &str, from: usize) -> (n: usize)
    requires
        s.is_ascii(),
        from <= s@.len(),
    ensures
        n == digit_run_len(s@, from as int),
        from + n <= s@.len(),
        all_digits(s@, from as int, from + n),
{
    let n = digit_run(s, from);
    proof {
        lemma_digit_run_len(s@, from as int, n as int);
    }
    n
}

/// Whether the `n` characters at `i` are all digits.
fn digit_span(s: &str, i: usize, n: usize) -> (r: bool)
    requires
        s.is_ascii(),
        i + n <= s@.len(),
    ensures
        r == all_digits(s@, i as int, i + n),
{
    let slen = str_len(s);
    let mut k: usize = 0;
    while k < n
        invariant
            s.is_ascii(),
            slen == s@.len(),
            i + n <= slen,
            k <= n,
            forall|k2: int| i <= k2 < i + k ==> is_digit(#[trigger] s@[k2]),
        decreases n - k,
    {
        if !digit_at(s, i + k) {
            return false;
        }
        k += 1;
    }
    true
}

// --- validity window ----------------------------------------------------

/// A validity window `yyMMddTHHMMZ-yyMMddTHHMMZ` occurs at `i`, case
/// blind in the letters.
pub open spec fn valid_at(s: Seq<char>, i: int) -> bool {
    &&& 0 <= i
    &&& i + 25 <= s.len()
    &&& all_digits(s, i, i + 6)
    &&& lower_char(s[i + 6]) == 't'
    &&& all_digits(s, i + 7, i + 11)
    &&& lower_char(s[i + 11]) == 'z'
    &&& s[i + 12] == '-'
    &&& all_digits(s, i + 13, i + 19)
    &&& lower_char(s[i + 19]) == 't'
    &&& all_digits(s, i + 20, i + 24)
    &&& lower_char(s[i + 24]) == 'z'
}

pub open spec fn find_valid(s: Seq<char>) -> Option<int> {
    first_at(|j: int| valid_at(s, j), 0, s.len() as int)
}

/// The two stamps of the validity window, start and end.
pub open spec fn valid_start(s: Seq<char>, i: int) -> Seq<char> {
    s.subrange(i, i + 12)
}

pub open spec fn valid_end(s: Seq<char>, i: int) -> Seq<char> {
    s.subrange(i + 13, i + 25)
}

fn check_valid_at(s: &str, i: usize) -> (r: bool)
    requires
        s.is_ascii(),
    ensures
        r == valid_at(s@, i as int),
{
    let slen = str_len(s);
    if i > slen || slen - i < 25 {
        return false;
    }
    digit_span(s, i, 6) && lower(char_at(s, i + 6)) == 't' && digit_span(s, i + 7, 4) && lower(
        char_at(s, i + 11),
    ) == 'z' && char_at(s, i + 12) == '-' && digit_span(s, i + 13, 6) && lower(char_at(s, i + 19))
        == 't' && digit_span(s, i + 20, 4) && lower(char_at(s, i + 24)) == 'z'
}

/// Scans for the validity window; the first occurrence wins.
pub fn scan_valid(s: &str) -> (r: Option<(String, String)>)
    requires
        s.is_ascii(),
    ensures
        match r {
            Some(p) => {
                &&& find_valid(s@) is Some
                &&& p.0@ == valid_start(s@, find_valid(s@)->0)
                &&& p.1@ == valid_end(s@, find_valid(s@)->0)
                &&& is_ascii_chars(p.0@)
                &&& is_ascii_chars(p.1@)
            },
            None => find_valid(s@) is None,
        },
{
    let slen = str_len(s);
    let mut i: usize = 0;
    while i < slen
        invariant
            s.is_ascii(),
            slen == s@.len(),
            i <= slen,
            forall|j: int| 0 <= j < i ==> !#[trigger] valid_at(s@, j),
        decreases slen - i,
    {
        if check_valid_at(s, i) {
            proof {
                lemma_first_at_hit(|j: int| valid_at(s@, j), 0, slen as int, i as int);
            }
            return Some((sub_string(s, i, i + 12), sub_string(s, i + 13, i + 25)));
        }
        i += 1;
    }
    proof {
        lemma_first_at_none(|j: int| valid_at(s@, j), 0, slen as int);
    }
    None
}

// --- anchored free-text blocks -----------------------------------------

/// A block pattern: a case-blind anchor, a gap of `skip1` arbitrary
/// characters, a second case-blind anchor with its own gap, then free
/// text up to the first occurrence of a terminator, which must exist and
/// lie at least `least` characters past the gaps.  A pattern without a
/// second anchor passes an empty one.
pub open spec fn block_at(
    s: Seq<char>,
    a1: Seq<char>,
    skip1: int,
    a2: Seq<char>,
    skip2: int,
    least: int,
    term: Seq<char>,
    i: int,
) -> bool {
    &&& matches_at_ci(s, a1, i)
    &&& matches_at_ci(s, a2, i + a1.len() + skip1)
    &&& i + a1.len() + skip1 + a2.len() + skip2 <= s.len()
    &&& find_from(s, term, i + a1.len() + skip1 + a2.len() + skip2 + least) is Some
}

pub open spec fn find_block(
    s: Seq<char>,
    a1: Seq<char>,
    skip1: int,
    a2: Seq<char>,
    skip2: int,
    least: int,
    term: Seq<char>,
) -> Option<int> {
    first_at(|j: int| block_at(s, a1, skip1, a2, skip2, least, term, j), 0, s.len() as int)
}

/// Content of the block found at `i`: from the end of the second gap to
/// the first terminator.
pub open spec fn block_content(
    s: Seq<char>,
    a1: Seq<char>,
    skip1: int,
    a2: Seq<char>,
    skip2: int,
    least: int,
    term: Seq<char>,
    i: int,
) -> Seq<char> {
    let start = i + a1.len() + skip1 + a2.len() + skip2;
    s.subrange(start, find_from(s, term, start + least)->0)
}

fn check_block_at(
    s: &str,
    a1: &str,
    skip1: usize,
    a2: &str,
    skip2: usize,
    least: usize,
    term: &str,
    i: usize,
) -> (r: bool)
    requires
        s.is_ascii(),
    ensures
        r == block_at(s@, a1@, skip1 as int, a2@, skip2 as int, least as int, term@, i as int),
{
    let slen = str_len(s);
    let alen1 = a1.unicode_len();
    let alen2 = a2.unicode_len();
    if !match_at_ci(s, a1, i) {
        return false;
    }
    let base = i + alen1;
    if skip1 > slen - base {
        return false;
    }
    if !match_at_ci(s, a2, base + skip1) {
        return false;
    }
    let base2 = base + skip1 + alen2;
    if skip2 > slen - base2 {
        return false;
    }
    if least > slen - (base2 + skip2) {
        return false;
    }
    find_at(s, term, base2 + skip2 + least).is_some()
}

/// Scans for an anchored block; returns the content before the first
/// terminator.
pub fn scan_block(
    s: &str,
    a1: &str,
    skip1: usize,
    a2: &str,
    skip2: usize,
    least: usize,
    term: &str,
) -> (r: Option<String>)
    requires
        s.is_ascii(),
    ensures
        match r {
            Some(c) => {
                &&& find_block(
                    s@,
                    a1@,
                    skip1 as int,
                    a2@,
                    skip2 as int,
                    least as int,
                    term@,
                ) is Some
                &&& c@ == block_content(
                    s@,
                    a1@,
                    skip1 as int,
                    a2@,
                    skip2 as int,
                    least as int,
                    term@,
                    find_block(s@, a1@, skip1 as int, a2@, skip2 as int, least as int, term@)->0,
                )
                &&& is_ascii_chars(c@)
            },
            None => find_block(s@, a1@, skip1 as int, a2@, skip2 as int, least as int, term@)
                is None,
        },
{
    let slen = str_len(s);
    let alen1 = a1.unicode_len();
    let alen2 = a2.unicode_len();
    let mut i: usize = 0;
    while i < slen
        invariant
            s.is_ascii(),
            slen == s@.len(),
            alen1 == a1@.len(),
            alen2 == a2@.len(),
            i <= slen,
            forall|j: int|
                0 <= j < i ==> !#[trigger] block_at(
                    s@,
                    a1@,
                    skip1 as int,
                    a2@,
                    skip2 as int,
                    least as int,
                    term@,
                    j,
                ),
        decreases slen - i,
    {
        if check_block_at(s, a1, skip1, a2, skip2, least, term, i) {
            proof {
                lemma_first_at_hit(
                    |j: int| block_at(s@, a1@, skip1 as int, a2@, skip2 as int, least as int, term@, j),
                    0,
                    slen as int,
                    i as int,
                );
            }
            let start = i + alen1 + skip1 + alen2 + skip2;
            proof {
                lemma_find_from_some(
                    s@,
                    term@,
                    start + least as int,
                    find_from(s@, term@, start + least as int)->0,
                );
            }
            let stop_opt = find_at(s, term, start + least);
            let stop = match stop_opt {
                Some(j) => j,
                None => start,  // unreachable: the pattern check found the terminator
            };
            return Some(sub_string(s, start, stop));
        }
        i += 1;
    }
    proof {
        lemma_first_at_none(
            |j: int| block_at(s@, a1@, skip1 as int, a2@, skip2 as int, least as int, term@, j),
            0,
            slen as int,
        );
    }
    None
}

// --- movement source phrase --------------------------------------------

/// The source phrase occurs at `i`: two newlines, two whitespace
/// characters, the word `source`, three arbitrary characters, then free
/// text up to the first period, which must exist.
pub open spec fn src_at(s: Seq<char>, i: int) -> bool {
    &&& 0 <= i
    &&& i + 13 <= s.len()
    &&& s[i] == '\n'
    &&& s[i + 1] == '\n'
    &&& is_space(s[i + 2])
    &&& is_space(s[i + 3])
    &&& matches_at_ci(s, "source"@, i + 4)
    &&& find_from(s, "."@, i + 13) is Some
}

pub open spec fn find_src(s: Seq<char>) -> Option<int> {
    first_at(|j: int| src_at(s, j), 0, s.len() as int)
}

/// Content of the source phrase found at `i`, up to the first period.
pub open spec fn src_content(s: Seq<char>, i: int) -> Seq<char> {
    s.subrange(i + 13, find_from(s, "."@, i + 13)->0)
}

fn check_src_at(s: &str, i: usize) -> (r: bool)
    requires
        s.is_ascii(),
    ensures
        r == src_at(s@, i as int),
{
    let slen = str_len(s);
    if i > slen || slen - i < 13 {
        return false;
    }
    char_at(s, i) == '\n' && char_at(s, i + 1) == '\n' && space_char(s, i + 2) && space_char(
        s,
        i + 3,
    ) && match_at_ci(s, "source", i + 4) && find_at(s, ".", i + 13).is_some()
}

/// Scans for the movement source phrase; the first occurrence wins.
pub fn scan_source(s: &str) -> (r: Option<String>)
    requires
        s.is_ascii(),
    ensures
        match r {
            Some(c) => {
                &&& find_src(s@) is Some
                &&& c@ == src_content(s@, find_src(s@)->0)
                &&& is_ascii_chars(c@)
            },
            None => find_src(s@) is None,
        },
{
    let slen = str_len(s);
    let mut i: usize = 0;
    while i < slen
        invariant
            s.is_ascii(),
            slen == s@.len(),
            i <= slen,
            forall|j: int| 0 <= j < i ==> !#[trigger] src_at(s@, j),
        decreases slen - i,
    {
        if check_src_at(s, i) {
            proof {
                lemma_first_at_hit(|j: int| src_at(s@, j), 0, slen as int, i as int);
                lemma_find_from_some(s@, "."@, i + 13, find_from(s@, "."@, i + 13)->0);
            }
            let stop = match find_at(s, ".", i + 13) {
                Some(j) => j,
                None => i + 13,  // unreachable: the pattern check found the period
            };
            return Some(sub_string(s, i + 13, stop));
        }
        i += 1;
    }
    proof {
        lemma_first_at_none(|j: int| src_at(s@, j), 0, slen as int);
    }
    None
}

// --- numbered anchors ---------------------------------------------------

/// A case-blind anchor followed by a run of at least `lo` digits at
/// offset `skip` past the anchor.  With a nonempty `suffix` the run may
/// not be longer than `hi` and the suffix must follow it, as a bounded
/// greedy capture with a trailing literal can only match that way.
pub open spec fn number_at(
    s: Seq<char>,
    anchor: Seq<char>,
    skip: int,
    lo: int,
    hi: int,
    suffix: Seq<char>,
    i: int,
) -> bool {
    &&& matches_at_ci(s, anchor, i)
    &&& i + anchor.len() + skip + lo <= s.len()
    &&& digit_run_len(s, i + anchor.len() + skip) >= lo
    &&& (suffix.len() > 0 ==> {
        let run = digit_run_len(s, i + anchor.len() + skip);
        &&& run <= hi
        &&& matches_at_ci(s, suffix, i + anchor.len() + skip + run)
    })
}

pub open spec fn find_number(
    s: Seq<char>,
    anchor: Seq<char>,
    skip: int,
    lo: int,
    hi: int,
    suffix: Seq<char>,
) -> Option<int> {
    first_at(|j: int| number_at(s, anchor, skip, lo, hi, suffix, j), 0, s.len() as int)
}

/// The digit run at the found anchor, truncated to at most `hi` digits,
/// as a greedy bounded capture takes it.
pub open spec fn number_digits(s: Seq<char>, anchor: Seq<char>, skip: int, hi: int, i: int) -> Seq<
    char,
> {
    let start = i + anchor.len() + skip;
    let run = digit_run_len(s, start);
    let take = if run > hi {
        hi
    } else {
        run
    };
    s.subrange(start, start + take)
}

fn check_number_at(
    s: &str,
    anchor: &str,
    skip: usize,
    lo: usize,
    hi: usize,
    suffix: &str,
    i: usize,
) -> (r: bool)
    requires
        s.is_ascii(),
        1 <= lo <= 10,
    ensures
        r == number_at(s@, anchor@, skip as int, lo as int, hi as int, suffix@, i as int),
{
    let slen = str_len(s);
    let alen = anchor.unicode_len();
    let slen2 = suffix.unicode_len();
    if !match_at_ci(s, anchor, i) {
        return false;
    }
    let base = i + alen;
    if skip > slen - base {
        return false;
    }
    if lo > slen - (base + skip) {
        return false;
    }
    let run = digit_run_at(s, base + skip);
    if run < lo {
        return false;
    }
    if slen2 > 0 {
        run <= hi && match_at_ci(s, suffix, base + skip + run)
    } else {
        true
    }
}

/// Scans for an anchored digit run and returns its bounded value.
///
/// `lo` is the least digit count for a match; `hi` the most that the
/// capture takes.  The inner value is `None` exactly when the captured
/// digits exceed `u16` range, as a string parse into `u16` would fail.
pub fn scan_number(s: &str, anchor: &str, skip: usize, lo: usize, hi: usize, suffix: &str) -> (r:
    Option<Option<u16>>)
    requires
        s.is_ascii(),
        1 <= lo,
        lo <= hi <= 10,
    ensures
        match r {
            Some(v) => {
                &&& find_number(s@, anchor@, skip as int, lo as int, hi as int, suffix@) is Some
                &&& {
                    let digits = number_digits(
                        s@,
                        anchor@,
                        skip as int,
                        hi as int,
                        find_number(s@, anchor@, skip as int, lo as int, hi as int, suffix@)->0,
                    );
                    &&& (v is Some) == (digits_val(digits) <= 65535)
                    &&& v is Some ==> v->0 as int == digits_val(digits)
                }
            },
            None => find_number(s@, anchor@, skip as int, lo as int, hi as int, suffix@) is None,
        },
{
    let slen = str_len(s);
    let alen = anchor.unicode_len();
    let mut i: usize = 0;
    while i < slen
        invariant
            s.is_ascii(),
            slen == s@.len(),
            alen == anchor@.len(),
            1 <= lo <= hi <= 10,
            i <= slen,
            forall|j: int|
                0 <= j < i ==> !#[trigger] number_at(
                    s@,
                    anchor@,
                    skip as int,
                    lo as int,
                    hi as int,
                    suffix@,
                    j,
                ),
        decreases slen - i,
    {
        let hit = check_number_at(s, anchor, skip, lo, hi, suffix, i);
        if hit {
            proof {
                lemma_first_at_hit(
                    |j: int| number_at(s@, anchor@, skip as int, lo as int, hi as int, suffix@, j),
                    0,
                    slen as int,
                    i as int,
                );
            }
            let start = i + alen + skip;
            let run = digit_run_at(s, start);
            let take = if run > hi {
                hi
            } else {
                run
            };
            let v = parse_u16(s, start, start + take);
            return Some(v);
        }
        i += 1;
    }
    proof {
        lemma_first_at_none(
            |j: int| number_at(s@, anchor@, skip as int, lo as int, hi as int, suffix@, j),
            0,
            slen as int,
        );
    }
    None
}

// --- movement vector ----------------------------------------------------

/// A movement vector line occurs at `i`: newline, `time`/`mot`/`loc`
/// separated by three arbitrary characters each, then a clock stamp, a
/// bearing with a three-letter unit, a speed in knots, and a center point
/// of one four-digit latitude and one four-or-five-digit longitude.
pub open spec fn movement_at(s: Seq<char>, i: int) -> bool {
    &&& 0 <= i
    &&& i + 24 <= s.len()
    &&& s[i] == '\n'
    &&& matches_at_ci(s, "time"@, i + 1)
    &&& matches_at_ci(s, "mot"@, i + 8)
    &&& matches_at_ci(s, "loc"@, i + 14)
    &&& is_space(s[i + 17])
    &&& all_digits(s, i + 18, i + 22)
    &&& lower_char(s[i + 22]) == 'z'
    &&& is_space(s[i + 23])
    &&& digit_run_len(s, i + 24) >= 1
    &&& {
        let d = digit_run_len(s, i + 24);
        &&& i + 24 + d + 4 <= s.len()
        &&& !is_digit(s[i + 24 + d])
        &&& !is_digit(s[i + 24 + d + 1])
        &&& !is_digit(s[i + 24 + d + 2])
        &&& is_space(s[i + 24 + d + 3])
        &&& digit_run_len(s, i + 28 + d) >= 1
        &&& {
            let a = i + 28 + d;
            let k = digit_run_len(s, a);
            &&& a + k + 3 <= s.len()
            &&& matches_at_ci(s, "kt"@, a + k)
            &&& is_space(s[a + k + 2])
            &&& {
                let b = a + k + 3;
                &&& b + 5 <= s.len()
                &&& all_digits(s, b, b + 4)
                &&& is_space(s[b + 4])
                &&& b + 9 <= s.len()
                &&& all_digits(s, b + 5, b + 9)
            }
        }
    }
}

pub open spec fn find_movement(s: Seq<char>) -> Option<int> {
    first_at(|j: int| movement_at(s, j), 0, s.len() as int)
}

/// The clock stamp of the movement vector, letter included, case kept.
pub open spec fn mv_time(s: Seq<char>, i: int) -> Seq<char> {
    s.subrange(i + 18, i + 23)
}

/// The digit run of the bearing.
pub open spec fn mv_deg_digits(s: Seq<char>, i: int) -> Seq<char> {
    s.subrange(i + 24, i + 24 + digit_run_len(s, i + 24))
}

/// Start of the speed digit run.
pub open spec fn mv_kt_start(s: Seq<char>, i: int) -> int {
    i + 28 + digit_run_len(s, i + 24)
}

/// The digit run of the speed.
pub open spec fn mv_kt_digits(s: Seq<char>, i: int) -> Seq<char> {
    s.subrange(mv_kt_start(s, i), mv_kt_start(s, i) + digit_run_len(s, mv_kt_start(s, i)))
}

/// Start of the latitude digits.
pub open spec fn mv_lat_start(s: Seq<char>, i: int) -> int {
    mv_kt_start(s, i) + digit_run_len(s, mv_kt_start(s, i)) + 3
}

pub open spec fn mv_lat(s: Seq<char>, i: int) -> Seq<char> {
    s.subrange(mv_lat_start(s, i), mv_lat_start(s, i) + 4)
}

/// The longitude takes a fifth digit when one is there.
pub open spec fn mv_lon_len(s: Seq<char>, i: int) -> int {
    if mv_lat_start(s, i) + 10 <= s.len() && is_digit(s[mv_lat_start(s, i) + 9]) {
        5
    } else {
        4
    }
}

pub open spec fn mv_lon(s: Seq<char>, i: int) -> Seq<char> {
    s.subrange(mv_lat_start(s, i) + 5, mv_lat_start(s, i) + 5 + mv_lon_len(s, i))
}

/// The movement vector as a parser consumes it.  The bearing and speed
/// are `None` when their digit runs do not fit in `u16`, as the string
/// parses would fail.
pub struct Movement {
    pub time: String,
    pub deg: Option<u16>,
    pub kt: Option<u16>,
    pub lat: String,
    pub lon: String,
}

fn check_movement_at(s: &str, i: usize) -> (r: bool)
    requires
        s.is_ascii(),
    ensures
        r == movement_at(s@, i as int),
{
    let slen = str_len(s);
    if i > slen || slen - i < 24 {
        return false;
    }
    if !(char_at(s, i) == '\n' && match_at_ci(s, "time", i + 1) && match_at_ci(s, "mot", i + 8)
        && match_at_ci(s, "loc", i + 14) && space_char(s, i + 17) && digit_span(s, i + 18, 4)
        && lower(char_at(s, i + 22)) == 'z' && space_char(s, i + 23)) {
        return false;
    }
    let d = digit_run_at(s, i + 24);
    if d < 1 {
        return false;
    }
    if slen - (i + 24 + d) < 4 {
        return false;
    }
    if digit_at(s, i + 24 + d) || digit_at(s, i + 24 + d + 1) || digit_at(s, i + 24 + d + 2) {
        return false;
    }
    if !space_char(s, i + 24 + d + 3) {
        return false;
    }
    let a = i + 28 + d;
    let k = digit_run_at(s, a);
    if k < 1 {
        return false;
    }
    if slen - (a + k) < 3 {
        return false;
    }
    if !(match_at_ci(s, "kt", a + k) && space_char(s, a + k + 2)) {
        return false;
    }
    let b = a + k + 3;
    if slen - b < 9 {
        return false;
    }
    digit_span(s, b, 4) && space_char(s, b + 4) && digit_span(s, b + 5, 4)
}

fn space_char(s: &str, i: usize) -> (r: bool)
    requires
        s.is_ascii(),
        i < s@.len(),
    ensures
        r == is_space(s@[i as int]),
{
    crate::text::space_at(s, i)
}

/// Scans for the movement vector; the first occurrence wins.
pub fn scan_movement(s: &str) -> (r: Option<Movement>)
    requires
        s.is_ascii(),
    ensures
        match r {
            Some(m) => {
                &&& find_movement(s@) is Some
                &&& {
                    let i = find_movement(s@)->0;
                    &&& m.time@ == mv_time(s@, i)
                    &&& is_ascii_chars(m.time@)
                    &&& (m.deg is Some) == (digits_val(mv_deg_digits(s@, i)) <= 65535)
                    &&& m.deg is Some ==> m.deg->0 as int == digits_val(mv_deg_digits(s@, i))
                    &&& (m.kt is Some) == (digits_val(mv_kt_digits(s@, i)) <= 65535)
                    &&& m.kt is Some ==> m.kt->0 as int == digits_val(mv_kt_digits(s@, i))
                    &&& m.lat@ == mv_lat(s@, i)
                    &&& m.lon@ == mv_lon(s@, i)
                    &&& is_ascii_chars(m.lat@)
                    &&& is_ascii_chars(m.lon@)
                }
            },
            None => find_movement(s@) is None,
        },
{
    let slen = str_len(s);
    let mut i: usize = 0;
    while i < slen
        invariant
            s.is_ascii(),
            slen == s@.len(),
            i <= slen,
            forall|j: int| 0 <= j < i ==> !#[trigger] movement_at(s@, j),
        decreases slen - i,
    {
        if check_movement_at(s, i) {
            proof {
                lemma_first_at_hit(|j: int| movement_at(s@, j), 0, slen as int, i as int);
            }
            let time = sub_string(s, i + 18, i + 23);
            let d = digit_run_at(s, i + 24);
            let deg = parse_u16(s, i + 24, i + 24 + d);
            let a = i + 28 + d;
            let k = digit_run_at(s, a);
            let kt = parse_u16(s, a, a + k);
            let b = a + k + 3;
            let lat = sub_string(s, b, b + 4);
            let lon_len: usize = if slen - b >= 10 && digit_at(s, b + 9) {
                5
            } else {
                4
            };
            let lon = sub_string(s, b + 5, b + 5 + lon_len);
            return Some(Movement { time, deg, kt, lat, lon });
        }
        i += 1;
    }
    proof {
        lemma_first_at_none(|j: int| movement_at(s@, j), 0, slen as int);
    }
    None
}

// --- polygon coordinate pairs ------------------------------------------

/// A spaced coordinate pair occurs at `i`: four digits, one whitespace
/// character, then four digits with an optional fifth.
pub open spec fn pair_at(s: Seq<char>, i: int) -> bool {
    &&& 0 <= i
    &&& i + 9 <= s.len()
    &&& all_digits(s, i, i + 4)
    &&& is_space(s[i + 4])
    &&& all_digits(s, i + 5, i + 9)
}

pub open spec fn find_pair(s: Seq<char>, from: int) -> Option<int> {
    first_at(|j: int| pair_at(s, j), from, s.len() as int)
}

pub open spec fn pair_lon_len(s: Seq<char>, i: int) -> int {
    if i + 10 <= s.len() && is_digit(s[i + 9]) {
        5
    } else {
        4
    }
}

/// One past the end of the pair found at `i`; the next search resumes
/// here, so matches do not overlap.
pub open spec fn pair_end(s: Seq<char>, i: int) -> int {
    i + 5 + pair_lon_len(s, i)
}

/// A well-formed extracted coordinate pair: a four-digit latitude and a
/// four-or-five-digit longitude.
pub open spec fn good_pair(p: (Seq<char>, Seq<char>)) -> bool {
    &&& p.0.len() == 4
    &&& all_digits(p.0, 0, 4)
    &&& is_ascii_chars(p.0)
    &&& 4 <= p.1.len() <= 5
    &&& all_digits(p.1, 0, p.1.len() as int)
    &&& is_ascii_chars(p.1)
}

/// The spaced coordinate pairs of `s` from `from` on, leftmost first and
/// non-overlapping, at most `max` of them.
pub open spec fn poly_pairs(s: Seq<char>, from: int, max: int) -> Seq<(Seq<char>, Seq<char>)>
    decreases s.len() - from,
{
    if max <= 0 {
        Seq::empty()
    } else {
        match find_pair(s, from) {
            None => Seq::empty(),
            Some(i) => {
                if from <= i && i + 9 <= s.len() && pair_end(s, i) <= s.len() && pair_end(s, i)
                    > from {
                    seq![(s.subrange(i, i + 4), s.subrange(i + 5, pair_end(s, i)))] + poly_pairs(
                        s,
                        pair_end(s, i),
                        max - 1,
                    )
                } else {
                    Seq::empty()
                }
            },
        }
    }
}

fn check_pair_at(s: &str, i: usize) -> (r: bool)
    requires
        s.is_ascii(),
    ensures
        r == pair_at(s@, i as int),
{
    let slen = str_len(s);
    if i > slen || slen - i < 9 {
        return false;
    }
    digit_span(s, i, 4) && space_char(s, i + 4) && digit_span(s, i + 5, 4)
}

/// Collects the spaced coordinate pairs of `s`, at most `max`.
pub fn scan_poly(s: &str, max: usize) -> (r: Vec<(String, String)>)
    requires
        s.is_ascii(),
    ensures
        r.deep_view() == poly_pairs(s@, 0, max as int),
        forall|q: int|
            0 <= q < r.deep_view().len() ==> good_pair(#[trigger] r.deep_view()[q]),
{
    scan_poly_from(s, 0, max)
}

fn scan_poly_from(s: &str, from: usize, max: usize) -> (r: Vec<(String, String)>)
    requires
        s.is_ascii(),
        from <= s@.len(),
    ensures
        r.deep_view() == poly_pairs(s@, from as int, max as int),
        forall|q: int|
            0 <= q < r.deep_view().len() ==> good_pair(#[trigger] r.deep_view()[q]),
    decreases s@.len() - from,
{
    let slen = str_len(s);
    if max == 0 {
        let r: Vec<(String, String)> = Vec::new();
        proof {
            assert(r.deep_view() =~= poly_pairs(s@, from as int, max as int));
        }
        return r;
    }
    let mut i: usize = from;
    while i < slen
        invariant
            s.is_ascii(),
            slen == s@.len(),
            from <= i <= slen,
            max >= 1,
            forall|j: int| from <= j < i ==> !#[trigger] pair_at(s@, j),
        decreases slen - i,
    {
        if check_pair_at(s, i) {
            proof {
                lemma_first_at_hit(|j: int| pair_at(s@, j), from as int, slen as int, i as int);
            }
            let lon_len: usize = if slen - i >= 10 && digit_at(s, i + 9) {
                5
            } else {
                4
            };
            let end = i + 5 + lon_len;
            let lat = sub_string(s, i, i + 4);
            let lon = sub_string(s, i + 5, end);
            let tail = scan_poly_from(s, end, max - 1);
            let mut r: Vec<(String, String)> = Vec::new();
            r.push((lat, lon));
            let mut t = tail;
            r.append(&mut t);
            proof {
                assert(r.deep_view() =~= poly_pairs(s@, from as int, max as int));
            }
            return r;
        }
        i += 1;
    }
    proof {
        lemma_first_at_none(|j: int| pair_at(s@, j), from as int, slen as int);
    }
    let r: Vec<(String, String)> = Vec::new();
    proof {
        assert(r.deep_view() =~= poly_pairs(s@, from as int, max as int));
    }
    r
}

// --- condensed polygon coordinate pairs --------------------------------

/// A condensed coordinate pair occurs at `i`: eight digits followed by
/// one whitespace character.
pub open spec fn cond_at(s: Seq<char>, i: int) -> bool {
    &&& 0 <= i
    &&& i + 9 <= s.len()
    &&& all_digits(s, i, i + 8)
    &&& is_space(s[i + 8])
}

pub open spec fn find_cond(s: Seq<char>, from: int) -> Option<int> {
    first_at(|j: int| cond_at(s, j), from, s.len() as int)
}

/// The condensed coordinate pairs of `s` from `from` on, leftmost first
/// and non-overlapping; each match consumes its trailing whitespace.
pub open spec fn cond_pairs(s: Seq<char>, from: int) -> Seq<(Seq<char>, Seq<char>)>
    decreases s.len() - from,
{
    match find_cond(s, from) {
        None => Seq::empty(),
        Some(i) => {
            if from <= i && i + 9 <= s.len() {
                seq![(s.subrange(i, i + 4), s.subrange(i + 4, i + 8))] + cond_pairs(s, i + 9)
            } else {
                Seq::empty()
            }
        },
    }
}

fn check_cond_at(s: &str, i: usize) -> (r: bool)
    requires
        s.is_ascii(),
    ensures
        r == cond_at(s@, i as int),
{
    let slen = str_len(s);
    if i > slen || slen - i < 9 {
        return false;
    }
    digit_span(s, i, 8) && space_char(s, i + 8)
}

/// Collects the condensed coordinate pairs of `s`.
pub fn scan_cond(s: &str) -> (r: Vec<(String, String)>)
    requires
        s.is_ascii(),
    ensures
        r.deep_view() == cond_pairs(s@, 0),
        forall|q: int|
            0 <= q < r.deep_view().len() ==> good_pair(#[trigger] r.deep_view()[q]),
{
    scan_cond_from(s, 0)
}

fn scan_cond_from(s: &str, from: usize) -> (r: Vec<(String, String)>)
    requires
        s.is_ascii(),
        from <= s@.len(),
    ensures
        r.deep_view() == cond_pairs(s@, from as int),
        forall|q: int|
            0 <= q < r.deep_view().len() ==> good_pair(#[trigger] r.deep_view()[q]),
    decreases s@.len() - from,
{
    let slen = str_len(s);
    let mut i: usize = from;
    while i < slen
        invariant
            s.is_ascii(),
            slen == s@.len(),
            from <= i <= slen,
            forall|j: int| from <= j < i ==> !#[trigger] cond_at(s@, j),
        decreases slen - i,
    {
        if check_cond_at(s, i) {
            proof {
                lemma_first_at_hit(|j: int| cond_at(s@, j), from as int, slen as int, i as int);
            }
            let lat = sub_string(s, i, i + 4);
            let lon = sub_string(s, i + 4, i + 8);
            let tail = scan_cond_from(s, i + 9);
            let mut r: Vec<(String, String)> = Vec::new();
            r.push((lat, lon));
            let mut t = tail;
            r.append(&mut t);
            proof {
                assert(r.deep_view() =~= cond_pairs(s@, from as int));
            }
            return r;
        }
        i += 1;
    }
    proof {
        lemma_first_at_none(|j: int| cond_at(s@, j), from as int, slen as int);
    }
    let r: Vec<(String, String)> = Vec::new();
    proof {
        assert(r.deep_view() =~= cond_pairs(s@, from as int));
    }
    r
}

} // verus!
