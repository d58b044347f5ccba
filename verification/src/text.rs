//! Character-level text primitives: substring search (exact and
//! case-insensitive), digit runs, trimming, splitting, replacement and
//! decimal rendering.  Bulletin text is ASCII; every function that scans a
//! haystack requires it, and the parsers check it once per record.

use vstd::prelude::*;
use vstd::string::*;
use vstd::utf8::is_ascii_chars;

verus! {

broadcast use vstd::string::group_string_axioms;

/// ASCII lower-casing of a single character; characters outside `A`..`Z`
/// are unchanged.
pub open spec fn lower_char(c: char) -> char {
    if 65 <= c as u32 && c as u32 <= 90 {
        ((c as u32 + 32) as u8) as char
    } else {
        c
    }
}

/// `pat` occurs in `s` starting at index `i`.
pub open spec fn matches_at(s: Seq<char>, pat: Seq<char>, i: int) -> bool {
    &&& 0 <= i
    &&& i + pat.len() <= s.len()
    &&& forall|k: int| 0 <= k < pat.len() ==> s[i + k] == pat[k]
}

/// `pat` occurs in `s` at index `i` up to ASCII case.
pub open spec fn matches_at_ci(s: Seq<char>, pat: Seq<char>, i: int) -> bool {
    &&& 0 <= i
    &&& i + pat.len() <= s.len()
    &&& forall|k: int| 0 <= k < pat.len() ==> lower_char(s[i + k]) == lower_char(pat[k])
}

/// Index of the first occurrence of `pat` in `s` at or after `i`.
pub open spec fn find_from(s: Seq<char>, pat: Seq<char>, i: int) -> Option<int>
    decreases s.len() - i,
{
    if i < 0 || i + pat.len() > s.len() {
        None
    } else if matches_at(s, pat, i) {
        Some(i)
    } else {
        find_from(s, pat, i + 1)
    }
}

/// Index of the first occurrence of `pat` in `s` at or after `i`, up to case.
pub open spec fn find_ci_from(s: Seq<char>, pat: Seq<char>, i: int) -> Option<int>
    decreases s.len() - i,
{
    if i < 0 || i + pat.len() > s.len() {
        None
    } else if matches_at_ci(s, pat, i) {
        Some(i)
    } else {
        find_ci_from(s, pat, i + 1)
    }
}

pub open spec fn contains_seq(s: Seq<char>, pat: Seq<char>) -> bool {
    find_from(s, pat, 0) is Some
}

pub open spec fn contains_ci(s: Seq<char>, pat: Seq<char>) -> bool {
    find_ci_from(s, pat, 0) is Some
}

proof fn lemma_find_skip(s: Seq<char>, pat: Seq<char>, i: int)
    requires
        0 <= i,
        i + pat.len() <= s.len(),
        !matches_at(s, pat, i),
    ensures
        find_from(s, pat, i) == find_from(s, pat, i + 1),
{
}

proof fn lemma_find_ci_skip(s: Seq<char>, pat: Seq<char>, i: int)
    requires
        0 <= i,
        i + pat.len() <= s.len(),
        !matches_at_ci(s, pat, i),
    ensures
        find_ci_from(s, pat, i) == find_ci_from(s, pat, i + 1),
{
}

/// A found index is a real occurrence, at or after the start of the search.
pub proof fn lemma_find_from_some(s: Seq<char>, pat: Seq<char>, i: int, j: int)
    requires
        find_from(s, pat, i) == Some(j),
    ensures
        i <= j,
        matches_at(s, pat, j),
    decreases s.len() - i,
{
    if i < 0 || i + pat.len() > s.len() {
    } else if matches_at(s, pat, i) {
    } else {
        lemma_find_from_some(s, pat, i + 1, j);
    }
}

/// A found index is a real occurrence, at or after the start of the search.
pub proof fn lemma_find_ci_from_some(s: Seq<char>, pat: Seq<char>, i: int, j: int)
    requires
        find_ci_from(s, pat, i) == Some(j),
    ensures
        i <= j,
        matches_at_ci(s, pat, j),
    decreases s.len() - i,
{
    if i < 0 || i + pat.len() > s.len() {
    } else if matches_at_ci(s, pat, i) {
    } else {
        lemma_find_ci_from_some(s, pat, i + 1, j);
    }
}

/// Character length of a string.
pub fn str_len(s: &str) -> (n: usize)
    ensures
        n == s@.len(),
{
    s.unicode_len()
}

/// Character of an ASCII string at index `i`, in constant time.
pub fn char_at(s: &str, i: usize) -> (c: char)
    requires
        s.is_ascii(),
        i < s@.len(),
    ensures
        c == s@[i as int],
{
    let b = s.get_ascii(i);
    proof {
        assert('\0' <= s@[i as int] <= '\u{7f}');
        assert(s@[i as int] as u8 == b);
    }
    b as char
}

/// ASCII lower-casing, executable form.
pub fn lower(c: char) -> (r: char)
    ensures
        r == lower_char(c),
{
    let cu = c as u32;
    if 65 <= cu && cu <= 90 {
        ((cu + 32) as u8) as char
    } else {
        c
    }
}

/// Whether `pat` occurs in `s` starting exactly at `i`.
pub fn match_at(s: &str, pat: &str, i: usize) -> (r: bool)
    requires
        s.is_ascii(),
    ensures
        r == matches_at(s@, pat@, i as int),
{
    let slen = str_len(s);
    let plen = pat.unicode_len();
    if i > slen || plen > slen - i {
        return false;
    }
    let mut k: usize = 0;
    while k < plen
        invariant
            s.is_ascii(),
            slen == s@.len(),
            i + plen <= slen,
            plen == pat@.len(),
            k <= plen,
            forall|k2: int| 0 <= k2 < k ==> s@[i + k2] == pat@[k2],
        decreases plen - k,
    {
        if char_at(s, i + k) != pat.get_char(k) {
            return false;
        }
        k += 1;
    }
    true
}

/// Whether `pat` occurs in `s` starting exactly at `i`, up to ASCII case.
pub fn match_at_ci(s: &str, pat: &str, i: usize) -> (r: bool)
    requires
        s.is_ascii(),
    ensures
        r == matches_at_ci(s@, pat@, i as int),
{
    let slen = str_len(s);
    let plen = pat.unicode_len();
    if i > slen || plen > slen - i {
        return false;
    }
    let mut k: usize = 0;
    while k < plen
        invariant
            s.is_ascii(),
            slen == s@.len(),
            i + plen <= slen,
            plen == pat@.len(),
            k <= plen,
            forall|k2: int| 0 <= k2 < k ==> lower_char(s@[i + k2]) == lower_char(pat@[k2]),
        decreases plen - k,
    {
        if lower(char_at(s, i + k)) != lower(pat.get_char(k)) {
            return false;
        }
        k += 1;
    }
    true
}

/// First occurrence of `pat` in `s` at or after `from`.
pub fn find_at(s: &str, pat: &str, from: usize) -> (r: Option<usize>)
    requires
        s.is_ascii(),
    ensures
        match r {
            Some(j) => find_from(s@, pat@, from as int) == Some(j as int),
            None => find_from(s@, pat@, from as int) is None,
        },
{
    let slen = str_len(s);
    let plen = pat.unicode_len();
    if from > slen || plen > slen - from {
        return None;
    }
    let mut i: usize = from;
    while i <= slen - plen
        invariant
            s.is_ascii(),
            from <= i,
            plen == pat@.len(),
            slen == s@.len(),
            plen <= slen,
            i + plen <= slen + 1,
            find_from(s@, pat@, from as int) == find_from(s@, pat@, i as int),
        decreases slen - i,
    {
        if match_at(s, pat, i) {
            return Some(i);
        }
        proof {
            lemma_find_skip(s@, pat@, i as int);
        }
        i += 1;
    }
    None
}

/// First occurrence of `pat` in `s` at or after `from`, up to ASCII case.
pub fn find_ci_at(s: &str, pat: &str, from: usize) -> (r: Option<usize>)
    requires
        s.is_ascii(),
    ensures
        match r {
            Some(j) => find_ci_from(s@, pat@, from as int) == Some(j as int),
            None => find_ci_from(s@, pat@, from as int) is None,
        },
{
    let slen = str_len(s);
    let plen = pat.unicode_len();
    if from > slen || plen > slen - from {
        return None;
    }
    let mut i: usize = from;
    while i <= slen - plen
        invariant
            s.is_ascii(),
            from <= i,
            plen == pat@.len(),
            slen == s@.len(),
            plen <= slen,
            i + plen <= slen + 1,
            find_ci_from(s@, pat@, from as int) == find_ci_from(s@, pat@, i as int),
        decreases slen - i,
    {
        if match_at_ci(s, pat, i) {
            return Some(i);
        }
        proof {
            lemma_find_ci_skip(s@, pat@, i as int);
        }
        i += 1;
    }
    None
}

/// Whether `pat` occurs anywhere in `s`.
pub fn contains_at(s: &str, pat: &str) -> (r: bool)
    requires
        s.is_ascii(),
    ensures
        r == contains_seq(s@, pat@),
{
    find_at(s, pat, 0).is_some()
}

/// Whether `pat` occurs anywhere in `s`, up to ASCII case.
pub fn contains_ci_at(s: &str, pat: &str) -> (r: bool)
    requires
        s.is_ascii(),
    ensures
        r == contains_ci(s@, pat@),
{
    find_ci_at(s, pat, 0).is_some()
}

/// Owned copy of the character range `from..to` of `s`.
pub fn sub_string(s: &str, from: usize, to: usize) -> (r: String)
    requires
        s.is_ascii(),
        from <= to <= s@.len(),
    ensures
        r@ == s@.subrange(from as int, to as int),
        is_ascii_chars(r@),
{
    let sub = s.substring_ascii(from, to);
    sub.to_owned()
}

pub open spec fn is_digit(c: char) -> bool {
    48 <= c as u32 <= 57
}

pub open spec fn digit_val(c: char) -> int {
    c as u32 - 48
}

/// All characters of `s` in `from..to` are decimal digits.
pub open spec fn all_digits(s: Seq<char>, from: int, to: int) -> bool {
    forall|k: int| from <= k < to ==> is_digit(#[trigger] s[k])
}

/// Numeric value of a run of decimal digits, most significant first.
pub open spec fn digits_val(s: Seq<char>) -> int
    decreases s.len(),
{
    if s.len() == 0 {
        0
    } else {
        digits_val(s.drop_last()) * 10 + digit_val(s.last())
    }
}

pub open spec fn pow10(n: nat) -> int
    decreases n,
{
    if n == 0 {
        1
    } else {
        10 * pow10((n - 1) as nat)
    }
}

pub proof fn lemma_digits_val_bound(s: Seq<char>)
    requires
        all_digits(s, 0, s.len() as int),
    ensures
        0 <= digits_val(s) < pow10(s.len()),
    decreases s.len(),
{
    if s.len() > 0 {
        assert(all_digits(s.drop_last(), 0, s.drop_last().len() as int));
        lemma_digits_val_bound(s.drop_last());
    }
}

proof fn lemma_digits_val_step(s: Seq<char>, from: int, i: int)
    requires
        0 <= from <= i < s.len(),
    ensures
        digits_val(s.subrange(from, i + 1)) == digits_val(s.subrange(from, i)) * 10 + digit_val(
            s[i],
        ),
{
    assert(s.subrange(from, i + 1).drop_last() =~= s.subrange(from, i));
    assert(s.subrange(from, i + 1).last() == s[i]);
}

/// Executable digit test.
pub fn digit_at(s: &str, i: usize) -> (r: bool)
    requires
        s.is_ascii(),
        i < s@.len(),
    ensures
        r == is_digit(s@[i as int]),
{
    let c = char_at(s, i) as u32;
    48 <= c && c <= 57
}

/// Length of the run of digits starting at `from`.
pub fn digit_run(s: &str, from: usize) -> (n: usize)
    requires
        s.is_ascii(),
        from <= s@.len(),
    ensures
        from + n <= s@.len(),
        all_digits(s@, from as int, from + n),
        from + n < s@.len() ==> !is_digit(s@[from + n]),
{
    let slen = str_len(s);
    let mut i: usize = from;
    while i < slen
        invariant
            s.is_ascii(),
            slen == s@.len(),
            from <= i <= slen,
            all_digits(s@, from as int, i as int),
        decreases slen - i,
    {
        if !digit_at(s, i) {
            return i - from;
        }
        i += 1;
    }
    i - from
}

/// Value of the digit run `from..to`, when it fits in `u16`.
///
/// Returns `None` exactly when the value exceeds `u16::MAX`, as a decimal
/// string parse into `u16` would fail.
pub fn parse_u16(s: &str, from: usize, to: usize) -> (r: Option<u16>)
    requires
        s.is_ascii(),
        from <= to <= s@.len(),
        all_digits(s@, from as int, to as int),
    ensures
        (r is Some) == (digits_val(s@.subrange(from as int, to as int)) <= 65535),
        r is Some ==> r->0 as int == digits_val(s@.subrange(from as int, to as int)),
{
    let mut acc: u32 = 0;
    let mut big: bool = false;
    let mut i: usize = from;
    while i < to
        invariant
            s.is_ascii(),
            from <= i <= to <= s@.len(),
            all_digits(s@, from as int, to as int),
            !big ==> acc as int == digits_val(s@.subrange(from as int, i as int)) && acc <= 65535,
            big ==> digits_val(s@.subrange(from as int, i as int)) > 65535,
        decreases to - i,
    {
        let d = char_at(s, i) as u32 - 48;
        proof {
            lemma_digits_val_step(s@, from as int, i as int);
        }
        if !big {
            let next = acc * 10 + d;
            if next > 65535 {
                big = true;
            } else {
                acc = next;
            }
        } else {
            proof {
                assert(digits_val(s@.subrange(from as int, i + 1)) > 65535);
            }
        }
        i += 1;
    }
    if big {
        None
    } else {
        Some(acc as u16)
    }
}

/// Value of a short digit run as a `u64`; the width bound keeps it exact.
pub fn parse_u64(s: &str, from: usize, to: usize) -> (r: u64)
    requires
        s.is_ascii(),
        from <= to <= s@.len(),
        to - from <= 15,
        all_digits(s@, from as int, to as int),
    ensures
        r as int == digits_val(s@.subrange(from as int, to as int)),
{
    let mut acc: u64 = 0;
    let mut i: usize = from;
    while i < to
        invariant
            s.is_ascii(),
            from <= i <= to <= s@.len(),
            to - from <= 15,
            all_digits(s@, from as int, to as int),
            acc as int == digits_val(s@.subrange(from as int, i as int)),
            acc < pow10((i - from) as nat),
        decreases to - i,
    {
        let d = char_at(s, i) as u32 - 48;
        proof {
            lemma_digits_val_step(s@, from as int, i as int);
            lemma_digits_val_bound(s@.subrange(from as int, i + 1));
            assert(pow10(((i + 1) - from) as nat) <= pow10(15)) by {
                lemma_pow10_mono(((i + 1) - from) as nat, 15);
            }
            assert(pow10(15) == 1000000000000000) by {
                reveal_with_fuel(pow10, 16);
            }
        }
        acc = acc * 10 + (d as u64);
        i += 1;
    }
    acc
}

/// ASCII whitespace, as `char::is_whitespace` classifies ASCII characters.
pub open spec fn is_space(c: char) -> bool {
    c == ' ' || c == '\t' || c == '\n' || c == '\r' || c as u32 == 11 || c as u32 == 12
}

pub fn space_at(s: &str, i: usize) -> (r: bool)
    requires
        s.is_ascii(),
        i < s@.len(),
    ensures
        r == is_space(s@[i as int]),
{
    let c = char_at(s, i);
    let cu = c as u32;
    cu == 32 || cu == 9 || cu == 10 || cu == 13 || cu == 11 || cu == 12
}

/// Index of the first non-whitespace character at or after `i`.
pub open spec fn trim_start_idx(s: Seq<char>, i: int) -> int
    decreases s.len() - i,
{
    if i < 0 || i >= s.len() {
        s.len() as int
    } else if is_space(s[i]) {
        trim_start_idx(s, i + 1)
    } else {
        i
    }
}

/// One past the last non-whitespace character before `i`.
pub open spec fn trim_end_idx(s: Seq<char>, i: int) -> int
    decreases i,
{
    if i <= 0 || i > s.len() {
        0
    } else if is_space(s[i - 1]) {
        trim_end_idx(s, i - 1)
    } else {
        i
    }
}

/// `s` with leading and trailing whitespace removed.
pub open spec fn trim_seq(s: Seq<char>) -> Seq<char> {
    let a = trim_start_idx(s, 0);
    let b = trim_end_idx(s, s.len() as int);
    if a <= b {
        s.subrange(a, b)
    } else {
        Seq::empty()
    }
}

/// Owned copy of `s` with surrounding whitespace removed.
pub fn trim_string(s: &str) -> (r: String)
    requires
        s.is_ascii(),
    ensures
        r@ == trim_seq(s@),
        is_ascii_chars(r@),
{
    let slen = str_len(s);
    let mut a: usize = 0;
    while a < slen && space_at(s, a)
        invariant
            s.is_ascii(),
            slen == s@.len(),
            a <= slen,
            trim_start_idx(s@, 0) == trim_start_idx(s@, a as int),
        decreases slen - a,
    {
        a += 1;
    }
    let mut b: usize = slen;
    while b > 0 && space_at(s, b - 1)
        invariant
            s.is_ascii(),
            slen == s@.len(),
            b <= slen,
            trim_end_idx(s@, slen as int) == trim_end_idx(s@, b as int),
        decreases b,
    {
        b -= 1;
    }
    if a <= b {
        sub_string(s, a, b)
    } else {
        String::new()
    }
}

/// Pieces of `s` between occurrences of the delimiter `d`; empty pieces
/// are kept, as `str::split` keeps them.
pub open spec fn split_seq(s: Seq<char>, d: Seq<char>) -> Seq<Seq<char>>
    decreases s.len(),
{
    if d.len() == 0 {
        seq![s]
    } else {
        match find_from(s, d, 0) {
            None => seq![s],
            Some(i) => if 0 <= i && i + d.len() <= s.len() {
                seq![s.subrange(0, i)] + split_seq(s.subrange(i + d.len(), s.len() as int), d)
            } else {
                seq![s]
            },
        }
    }
}

pub fn split_string(s: &str, d: &str) -> (r: Vec<String>)
    requires
        s.is_ascii(),
        d@.len() > 0,
    ensures
        r.deep_view() == split_seq(s@, d@),
        forall|i: int| 0 <= i < r@.len() ==> is_ascii_chars(#[trigger] r@[i]@),
    decreases s@.len(),
{
    let slen = str_len(s);
    let dlen = d.unicode_len();
    match find_at(s, d, 0) {
        None => {
            let mut v: Vec<String> = Vec::new();
            v.push(s.to_owned());
            proof {
                assert(v.deep_view() =~= split_seq(s@, d@));
            }
            v
        },
        Some(i) => {
            proof {
                lemma_find_from_some(s@, d@, 0, i as int);
            }
            let piece = sub_string(s, 0, i);
            let rest = s.substring_ascii(i + dlen, slen);
            let mut tail = split_string(rest, d);
            let mut v: Vec<String> = Vec::new();
            v.push(piece);
            v.append(&mut tail);
            proof {
                assert(v.deep_view() =~= split_seq(s@, d@));
            }
            v
        },
    }
}

/// `s` with every non-overlapping occurrence of `p`, leftmost first,
/// replaced by `t`; the semantics of `str::replace`.
pub open spec fn replace_seq(s: Seq<char>, p: Seq<char>, t: Seq<char>) -> Seq<char>
    decreases s.len(),
{
    if p.len() == 0 || s.len() < p.len() {
        s
    } else if matches_at(s, p, 0) {
        t + replace_seq(s.subrange(p.len() as int, s.len() as int), p, t)
    } else {
        seq![s[0]] + replace_seq(s.subrange(1, s.len() as int), p, t)
    }
}

pub fn replace_string(s: &str, p: &str, t: &str) -> (r: String)
    requires
        s.is_ascii(),
        t.is_ascii(),
        p@.len() > 0,
    ensures
        r@ == replace_seq(s@, p@, t@),
        is_ascii_chars(r@),
    decreases s@.len(),
{
    let slen = str_len(s);
    let plen = p.unicode_len();
    if slen < plen {
        return s.to_owned();
    }
    if match_at(s, p, 0) {
        let rest = s.substring_ascii(plen, slen);
        let tail = replace_string(rest, p, t);
        let mut r = t.to_owned();
        r.append(tail.as_str());
        proof {
            assert(r@ =~= replace_seq(s@, p@, t@));
        }
        r
    } else {
        let head = s.substring_ascii(0, 1);
        let rest = s.substring_ascii(1, slen);
        let tail = replace_string(rest, p, t);
        let mut r = head.to_owned();
        r.append(tail.as_str());
        proof {
            assert(r@ =~= replace_seq(s@, p@, t@));
        }
        r
    }
}

/// Character-wise string equality.
pub fn str_eq(a: &str, b: &str) -> (r: bool)
    requires
        a.is_ascii(),
    ensures
        r == (a@ == b@),
{
    let alen = str_len(a);
    let blen = b.unicode_len();
    if alen != blen {
        return false;
    }
    let mut k: usize = 0;
    while k < alen
        invariant
            a.is_ascii(),
            alen == a@.len() == b@.len(),
            k <= alen,
            forall|k2: int| 0 <= k2 < k ==> a@[k2] == b@[k2],
        decreases alen - k,
    {
        if char_at(a, k) != b.get_char(k) {
            return false;
        }
        k += 1;
    }
    proof {
        assert(a@ =~= b@);
    }
    true
}

pub open spec fn digit_char(d: int) -> char {
    ((d + 48) as u8) as char
}

/// Decimal rendering of a nonnegative integer, as `Display` writes it.
pub open spec fn dec_str(n: int) -> Seq<char>
    decreases n,
{
    if n < 10 {
        seq![digit_char(if n < 0 { 0 } else { n })]
    } else {
        dec_str(n / 10) + seq![digit_char(n % 10)]
    }
}

fn digit_literal(d: u64) -> (r: &'static str)
    requires
        d < 10,
    ensures
        r@ == seq![digit_char(d as int)],
        r.is_ascii(),
{
    proof {
        reveal_strlit("0");
        reveal_strlit("1");
        reveal_strlit("2");
        reveal_strlit("3");
        reveal_strlit("4");
        reveal_strlit("5");
        reveal_strlit("6");
        reveal_strlit("7");
        reveal_strlit("8");
        reveal_strlit("9");
    }
    match d {
        0 => "0",
        1 => "1",
        2 => "2",
        3 => "3",
        4 => "4",
        5 => "5",
        6 => "6",
        7 => "7",
        8 => "8",
        _ => "9",
    }
}

/// Decimal rendering of `n`.
pub fn u64_string(n: u64) -> (r: String)
    ensures
        r@ == dec_str(n as int),
        is_ascii_chars(r@),
    decreases n,
{
    if n < 10 {
        digit_literal(n).to_owned()
    } else {
        let mut r = u64_string(n / 10);
        r.append(digit_literal(n % 10));
        proof {
            assert(r@ =~= dec_str(n as int));
        }
        r
    }
}

/// Rendering of a quantity held in hundredths, as `Display` writes the
/// equivalent fraction: whole part, then up to two fraction digits with
/// trailing zeros dropped.
pub open spec fn hundredths_str(h: int) -> Seq<char> {
    if h % 100 == 0 {
        dec_str(h / 100)
    } else if h % 10 == 0 {
        dec_str(h / 100) + seq!['.'] + seq![digit_char(h / 10 % 10)]
    } else {
        dec_str(h / 100) + seq!['.'] + seq![digit_char(h / 10 % 10)] + seq![digit_char(h % 10)]
    }
}

pub fn hundredths_string(h: u64) -> (r: String)
    ensures
        r@ == hundredths_str(h as int),
        is_ascii_chars(r@),
{
    let mut r = u64_string(h / 100);
    proof {
        reveal_strlit(".");
    }
    if h % 100 != 0 {
        r.append(".");
        r.append(digit_literal(h / 10 % 10));
        if h % 10 != 0 {
            r.append(digit_literal(h % 10));
        }
    }
    proof {
        assert(r@ =~= hundredths_str(h as int));
    }
    r
}

/// A line piece with a trailing carriage return removed.
pub open spec fn strip_cr(p: Seq<char>) -> Seq<char> {
    if p.len() > 0 && p.last() == '\r' {
        p.drop_last()
    } else {
        p
    }
}

/// The lines of `s`, as `str::lines` yields them: split on newlines, the
/// trailing empty piece dropped, carriage returns stripped.
pub open spec fn lines_spec(s: Seq<char>) -> Seq<Seq<char>> {
    let ps = split_seq(s, seq!['\n']);
    let ps2 = if ps.len() > 0 && ps.last().len() == 0 {
        ps.drop_last()
    } else {
        ps
    };
    ps2.map_values(|p: Seq<char>| strip_cr(p))
}

pub fn lines_vec(s: &str) -> (r: Vec<String>)
    requires
        s.is_ascii(),
    ensures
        r.deep_view() == lines_spec(s@),
        forall|i: int| 0 <= i < r@.len() ==> is_ascii_chars(#[trigger] r@[i]@),
{
    proof {
        reveal_strlit("\n");
        assert("\n"@ =~= seq!['\n']);
    }
    let mut ps = split_string(s, "\n");
    if ps.len() > 0 && ps[ps.len() - 1].as_str().unicode_len() == 0 {
        ps.pop();
    }
    let ghost ps2 = if split_seq(s@, seq!['\n']).len() > 0 && split_seq(
        s@,
        seq!['\n'],
    ).last().len() == 0 {
        split_seq(s@, seq!['\n']).drop_last()
    } else {
        split_seq(s@, seq!['\n'])
    };
    proof {
        assert(ps.deep_view() =~= ps2);
    }
    let mut out: Vec<String> = Vec::new();
    let mut i: usize = 0;
    while i < ps.len()
        invariant
            ps.deep_view() == ps2,
            forall|q: int| 0 <= q < ps@.len() ==> is_ascii_chars(#[trigger] ps@[q]@),
            i <= ps@.len(),
            out@.len() == i,
            forall|q: int| 0 <= q < i ==> (#[trigger] out@[q]@) == strip_cr(ps2[q]),
            forall|q: int| 0 <= q < i ==> is_ascii_chars(#[trigger] out@[q]@),
        decreases ps@.len() - i,
    {
        let piece = &ps[i];
        let plen = str_len(piece.as_str());
        if plen > 0 && char_at(piece.as_str(), plen - 1) == '\r' {
            let stripped = sub_string(piece.as_str(), 0, plen - 1);
            proof {
                assert(stripped@ =~= strip_cr(ps2[i as int]));
            }
            out.push(stripped);
        } else {
            out.push(piece.clone());
        }
        i += 1;
    }
    proof {
        assert(out.deep_view() =~= lines_spec(s@));
    }
    out
}

/// Index of the last line at or before `i` that contains `pat`.
pub open spec fn last_with(lines: Seq<Seq<char>>, pat: Seq<char>, i: int) -> Option<int>
    decreases i + 1,
{
    if i < 0 || i >= lines.len() {
        None
    } else if contains_seq(lines[i], pat) {
        Some(i)
    } else {
        last_with(lines, pat, i - 1)
    }
}

/// Index of the first line at or after `i` that contains `pat`.
pub open spec fn first_with(lines: Seq<Seq<char>>, pat: Seq<char>, i: int) -> Option<int>
    decreases lines.len() - i,
{
    if i < 0 || i >= lines.len() {
        None
    } else if contains_seq(lines[i], pat) {
        Some(i)
    } else {
        first_with(lines, pat, i + 1)
    }
}

/// Finds the last line containing `pat`.
pub fn last_line_with(lines: &Vec<String>, pat: &str) -> (r: Option<usize>)
    requires
        forall|q: int| 0 <= q < lines@.len() ==> is_ascii_chars(#[trigger] lines@[q]@),
    ensures
        match r {
            Some(i) => last_with(lines.deep_view(), pat@, lines.deep_view().len() - 1) == Some(
                i as int,
            ) && i < lines@.len(),
            None => last_with(lines.deep_view(), pat@, lines.deep_view().len() - 1) is None,
        },
{
    let mut i: usize = lines.len();
    while i > 0
        invariant
            forall|q: int| 0 <= q < lines@.len() ==> is_ascii_chars(#[trigger] lines@[q]@),
            i <= lines@.len(),
            last_with(lines.deep_view(), pat@, lines.deep_view().len() - 1) == last_with(
                lines.deep_view(),
                pat@,
                i - 1,
            ),
        decreases i,
    {
        i -= 1;
        if contains_at(lines[i].as_str(), pat) {
            return Some(i);
        }
    }
    None
}

/// Finds the first line containing `pat`.
pub fn first_line_with(lines: &Vec<String>, pat: &str) -> (r: Option<usize>)
    requires
        forall|q: int| 0 <= q < lines@.len() ==> is_ascii_chars(#[trigger] lines@[q]@),
    ensures
        match r {
            Some(i) => first_with(lines.deep_view(), pat@, 0) == Some(i as int) && i
                < lines@.len(),
            None => first_with(lines.deep_view(), pat@, 0) is None,
        },
{
    let mut i: usize = 0;
    while i < lines.len()
        invariant
            forall|q: int| 0 <= q < lines@.len() ==> is_ascii_chars(#[trigger] lines@[q]@),
            i <= lines@.len(),
            first_with(lines.deep_view(), pat@, 0) == first_with(lines.deep_view(), pat@, i as int),
        decreases lines@.len() - i,
    {
        if contains_at(lines[i].as_str(), pat) {
            return Some(i);
        }
        i += 1;
    }
    None
}

pub proof fn lemma_pow10_pos(n: nat)
    ensures
        pow10(n) >= 1,
    decreases n,
{
    if n > 0 {
        lemma_pow10_pos((n - 1) as nat);
    }
}

pub proof fn lemma_pow10_mono(a: nat, b: nat)
    requires
        a <= b,
    ensures
        pow10(a) <= pow10(b),
    decreases b - a,
{
    if a < b {
        lemma_pow10_mono(a, (b - 1) as nat);
        lemma_pow10_pos((b - 1) as nat);
    }
}

} // verus!
