//! Deduplication normalizer for spotter-network report lines.  The feed
//! has no offset, so the same report returns on every poll; worse, an
//! aging indicator digit inside the line changes as the report ages.
//! Lines are canonicalized by zeroing that digit, and a comparison
//! against the previously seen set finds what is new.

use vstd::prelude::*;
use crate::text::{lines_spec, lines_vec, match_at, matches_at, replace_seq, replace_string};
use vstd::utf8::is_ascii_chars;

verus! {

broadcast use vstd::string::group_string_axioms;

/// The canonical form of a report line: each aging digit after the icon
/// marker zeroed.
pub open spec fn normalize_spec(s: Seq<char>) -> Seq<char> {
    replace_seq(
        replace_seq(replace_seq(s, ",000,3"@, ",000,0"@), ",000,4"@, ",000,0"@),
        ",000,5"@,
        ",000,0"@,
    )
}

/// Normalizes one raw report line.
pub fn normalize_line(line: &str) -> (r: String)
    ensures
        line.is_ascii() ==> r@ == normalize_spec(line@) && is_ascii_chars(r@),
        !line.is_ascii() ==> r@ == line@,
{
    if !line.is_ascii() {
        return line.to_owned();
    }
    proof {
        reveal_strlit(",000,3");
        reveal_strlit(",000,4");
        reveal_strlit(",000,5");
        reveal_strlit(",000,0");
        assert(",000,3"@.len() == 6 && ",000,4"@.len() == 6 && ",000,5"@.len() == 6);
        assert(",000,0".is_ascii());
    }
    let a = replace_string(line, ",000,3", ",000,0");
    let b = replace_string(a.as_str(), ",000,4", ",000,0");
    replace_string(b.as_str(), ",000,5", ",000,0")
}

/// The normalized report lines of a feed body, in feed order: the lines
/// that carry the icon marker, canonicalized.
pub open spec fn icon_norms(lines: Seq<Seq<char>>) -> Seq<Seq<char>>
    decreases lines.len(),
{
    if lines.len() == 0 {
        Seq::empty()
    } else {
        icon_norms(lines.drop_last()) + if matches_at(lines.last(), "Icon:"@, 0) {
            seq![normalize_spec(lines.last())]
        } else {
            Seq::empty()
        }
    }
}

/// First-occurrence deduplication.
pub open spec fn dedup_first(s: Seq<Seq<char>>) -> Seq<Seq<char>>
    decreases s.len(),
{
    if s.len() == 0 {
        Seq::empty()
    } else {
        let t = dedup_first(s.drop_last());
        if t.contains(s.last()) {
            t
        } else {
            t + seq![s.last()]
        }
    }
}

/// The items of `latest` that the seen set does not hold, in order.
pub open spec fn unseen(latest: Seq<Seq<char>>, seen: Seq<Seq<char>>) -> Seq<Seq<char>>
    decreases latest.len(),
{
    if latest.len() == 0 {
        Seq::empty()
    } else {
        unseen(latest.drop_last(), seen) + if seen.contains(latest.last()) {
            Seq::empty()
        } else {
            seq![latest.last()]
        }
    }
}

/// The deduplicated set holds no element twice.
pub proof fn lemma_dedup_first_unique(s: Seq<Seq<char>>)
    ensures
        forall|i: int, j: int|
            0 <= i < j < dedup_first(s).len() ==> dedup_first(s)[i] != dedup_first(s)[j],
    decreases s.len(),
{
    if s.len() > 0 {
        lemma_dedup_first_unique(s.drop_last());
        let t = dedup_first(s.drop_last());
        if !t.contains(s.last()) {
            assert forall|i: int, j: int|
                0 <= i < j < dedup_first(s).len() implies dedup_first(s)[i] != dedup_first(
                s,
            )[j] by {
                if j == dedup_first(s).len() - 1 {
                    assert(dedup_first(s)[j] == s.last());
                    assert(dedup_first(s)[i] == t[i]);
                    assert(t.contains(t[i]));
                }
            }
        }
    }
}

/// Deduplication keeps exactly the elements: membership is unchanged.
pub proof fn lemma_dedup_first_same_elems(s: Seq<Seq<char>>)
    ensures
        forall|x: Seq<char>| dedup_first(s).contains(x) == s.contains(x),
    decreases s.len(),
{
    if s.len() > 0 {
        lemma_dedup_first_same_elems(s.drop_last());
        let t = dedup_first(s.drop_last());
        assert forall|x: Seq<char>| dedup_first(s).contains(x) == s.contains(x) by {
            if s.contains(x) {
                let k = choose|k: int| 0 <= k < s.len() && s[k] == x;
                if k < s.len() - 1 {
                    assert(s.drop_last().contains(x)) by {
                        assert(s.drop_last()[k] == x);
                    }
                } else {
                    assert(x == s.last());
                }
                if x == s.last() && !t.contains(x) {
                    assert(dedup_first(s).last() == x);
                    assert(dedup_first(s).contains(x));
                } else {
                    assert(t.contains(x));
                    let m = choose|m: int| 0 <= m < t.len() && t[m] == x;
                    assert(dedup_first(s)[m] == x);
                }
            }
            if dedup_first(s).contains(x) {
                let k = choose|k: int| 0 <= k < dedup_first(s).len() && dedup_first(s)[k] == x;
                if k < t.len() {
                    assert(t[k] == x);
                    assert(s.drop_last().contains(x));
                    let m = choose|m: int| 0 <= m < s.drop_last().len() && s.drop_last()[m] == x;
                    assert(s[m] == x);
                } else {
                    assert(x == s.last());
                    assert(s[s.len() - 1] == x);
                }
            }
        }
    }
}

/// Replacement of a pattern that occurs nowhere changes nothing.
proof fn lemma_replace_identity(s: Seq<char>, p: Seq<char>, t: Seq<char>)
    requires
        p.len() > 0,
        forall|j: int| !matches_at(s, p, j),
    ensures
        replace_seq(s, p, t) == s,
    decreases s.len(),
{
    if s.len() >= p.len() {
        let tail = s.subrange(1, s.len() as int);
        assert forall|j: int| !matches_at(tail, p, j) by {
            if matches_at(tail, p, j) {
                assert forall|k: int| 0 <= k < p.len() implies s[j + 1 + k] == p[k] by {
                    assert(tail[j + k] == p[k]);
                }
                assert(matches_at(s, p, j + 1));
            }
        }
        lemma_replace_identity(tail, p, t);
        assert(replace_seq(s, p, t) =~= s);
    }
}

/// Replacement of a pattern with one occurrence, none earlier and none
/// past its end, splices the replacement in at that occurrence.
proof fn lemma_replace_single(s: Seq<char>, p: Seq<char>, t: Seq<char>, i: int)
    requires
        p.len() > 0,
        matches_at(s, p, i),
        forall|j: int| 0 <= j < i ==> !matches_at(s, p, j),
        forall|j: int| j >= i + p.len() ==> !matches_at(s, p, j),
    ensures
        replace_seq(s, p, t) == s.subrange(0, i) + t + s.subrange(i + p.len(), s.len() as int),
    decreases i,
{
    if i == 0 {
        let tail = s.subrange(p.len() as int, s.len() as int);
        assert forall|j: int| !matches_at(tail, p, j) by {
            if matches_at(tail, p, j) {
                assert forall|k: int| 0 <= k < p.len() implies s[j + p.len() + k] == p[k] by {
                    assert(tail[j + k] == p[k]);
                }
                assert(matches_at(s, p, j + p.len()));
            }
        }
        lemma_replace_identity(tail, p, t);
        assert(replace_seq(s, p, t) =~= s.subrange(0, 0) + t + tail);
    } else {
        assert(!matches_at(s, p, 0));
        let tail = s.subrange(1, s.len() as int);
        assert(matches_at(tail, p, i - 1)) by {
            assert forall|k: int| 0 <= k < p.len() implies tail[i - 1 + k] == p[k] by {
                assert(s[i + k] == p[k]);
            }
        }
        assert forall|j: int| 0 <= j < i - 1 implies !matches_at(tail, p, j) by {
            if matches_at(tail, p, j) {
                assert forall|k: int| 0 <= k < p.len() implies s[j + 1 + k] == p[k] by {
                    assert(tail[j + k] == p[k]);
                }
                assert(matches_at(s, p, j + 1));
            }
        }
        assert forall|j: int| j >= i - 1 + p.len() implies !matches_at(tail, p, j) by {
            if matches_at(tail, p, j) {
                assert forall|k: int| 0 <= k < p.len() implies s[j + 1 + k] == p[k] by {
                    assert(tail[j + k] == p[k]);
                }
                assert(matches_at(s, p, j + 1));
            }
        }
        lemma_replace_single(tail, p, t, i - 1);
        assert(replace_seq(s, p, t) =~= s.subrange(0, i) + t + s.subrange(
            i + p.len(),
            s.len() as int,
        ));
    }
}

/// The aging digits that the normalizer zeroes.
pub open spec fn aging_digit(c: char) -> bool {
    c == '3' || c == '4' || c == '5'
}

/// The shape of a report line around its aging digit: the text before
/// the icon digits, which holds no marker of its own; the digit; and the
/// rest of the line, which neither holds a marker nor begins like the
/// tail of one.
pub open spec fn aging_shape(prefix: Seq<char>, suffix: Seq<char>) -> bool {
    &&& (forall|j: int| 0 <= j < prefix.len() ==> !matches_at(prefix + ",000,"@, ",000,"@, j))
    &&& (forall|j: int| !matches_at(suffix, ",000,"@, j))
    &&& !matches_at(suffix, "00,"@, 0)
}

/// The line with aging digit `d`.
pub open spec fn aging_line(prefix: Seq<char>, d: char, suffix: Seq<char>) -> Seq<char> {
    prefix + ",000,"@ + seq![d] + suffix
}

/// In a well-shaped line whose aging digit is `d`, a six-character
/// marker-digit window matches only at the marker, and only with the
/// digit `d` itself.
proof fn lemma_aging_windows(prefix: Seq<char>, d: char, suffix: Seq<char>, pat: Seq<char>)
    requires
        aging_shape(prefix, suffix),
        d != '0' && d != ',',
        pat.len() == 6,
        pat[0] == ',' && pat[1] == '0' && pat[2] == '0' && pat[3] == '0' && pat[4] == ',',
        pat[5] != '0' && pat[5] != ',',
    ensures
        forall|j: int|
            #[trigger] matches_at(aging_line(prefix, d, suffix), pat, j) <==> (j == prefix.len()
                && pat[5] == d),
{
    let s = aging_line(prefix, d, suffix);
    let pn = prefix.len() as int;
    reveal_strlit(",000,");
    assert(",000,"@.len() == 5);
    assert(",000,"@[0] == ',' && ",000,"@[1] == '0' && ",000,"@[2] == '0' && ",000,"@[3]
        == '0' && ",000,"@[4] == ',');
    assert forall|j: int| #[trigger] matches_at(s, pat, j) implies (j == pn && pat[5] == d) by {
        if j < pn {
            assert(matches_at(prefix + ",000,"@, ",000,"@, j)) by {
                assert forall|k: int| 0 <= k < 5 implies (prefix + ",000,"@)[j + k] == ",000,"@[k]
                    by {
                    assert(s[j + k] == pat[k]);
                    assert((prefix + ",000,"@)[j + k] == s[j + k]);
                }
            }
        } else if j == pn {
            assert(s[j + 5] == d);
            assert(pat[5] == d);
        } else if j <= pn + 3 {
            assert(s[j] == '0');
            assert(s[j] == pat[0]);
        } else if j == pn + 4 {
            assert(s[j + 1] == d);
            assert(s[j + 1] == pat[1]);
        } else if j == pn + 5 {
            assert(s[j] == d);
            assert(s[j] == pat[0]);
        } else {
            assert(matches_at(suffix, ",000,"@, j - pn - 6)) by {
                assert forall|k: int| 0 <= k < 5 implies suffix[j - pn - 6 + k] == ",000,"@[k] by {
                    assert(s[j + k] == pat[k]);
                    assert(s[j + k] == suffix[j - pn - 6 + k]);
                }
            }
        }
    }
    if pat[5] == d {
        assert(matches_at(s, pat, pn)) by {
            assert forall|k: int| 0 <= k < 6 implies s[pn + k] == pat[k] by {
                if k < 5 {
                    assert(s[pn + k] == ",000,"@[k]);
                } else {
                    assert(s[pn + 5] == d);
                }
            }
        }
    }
}

/// In a well-shaped line whose aging digit has been zeroed, no
/// marker-digit window matches anywhere.
proof fn lemma_zeroed_windows(prefix: Seq<char>, suffix: Seq<char>, pat: Seq<char>)
    requires
        aging_shape(prefix, suffix),
        pat.len() == 6,
        pat[0] == ',' && pat[1] == '0' && pat[2] == '0' && pat[3] == '0' && pat[4] == ',',
        pat[5] != '0' && pat[5] != ',',
    ensures
        forall|j: int| !matches_at(aging_line(prefix, '0', suffix), pat, j),
{
    let s = aging_line(prefix, '0', suffix);
    let pn = prefix.len() as int;
    reveal_strlit(",000,");
    reveal_strlit("00,");
    assert(",000,"@.len() == 5);
    assert(",000,"@[0] == ',' && ",000,"@[1] == '0' && ",000,"@[2] == '0' && ",000,"@[3]
        == '0' && ",000,"@[4] == ',');
    assert("00,"@.len() == 3);
    assert("00,"@[0] == '0' && "00,"@[1] == '0' && "00,"@[2] == ',');
    assert forall|j: int| !matches_at(s, pat, j) by {
        if matches_at(s, pat, j) {
            if j < pn {
                assert(matches_at(prefix + ",000,"@, ",000,"@, j)) by {
                    assert forall|k: int| 0 <= k < 5 implies (prefix + ",000,"@)[j + k]
                        == ",000,"@[k] by {
                        assert(s[j + k] == pat[k]);
                        assert((prefix + ",000,"@)[j + k] == s[j + k]);
                    }
                }
            } else if j == pn {
                assert(s[j + 5] == '0');
                assert(s[j + 5] == pat[5]);
            } else if j <= pn + 3 {
                assert(s[j] == '0');
                assert(s[j] == pat[0]);
            } else if j == pn + 4 {
                assert(matches_at(suffix, "00,"@, 0)) by {
                    assert(suffix[0] == s[pn + 6] == pat[2]);
                    assert(suffix[1] == s[pn + 7] == pat[3]);
                    assert(suffix[2] == s[pn + 8] == pat[4]);
                }
            } else if j == pn + 5 {
                assert(s[j] == '0');
                assert(s[j] == pat[0]);
            } else {
                assert(matches_at(suffix, ",000,"@, j - pn - 6)) by {
                    assert forall|k: int| 0 <= k < 5 implies suffix[j - pn - 6 + k] == ",000,"@[k]
                        by {
                        assert(s[j + k] == pat[k]);
                        assert(s[j + k] == suffix[j - pn - 6 + k]);
                    }
                }
            }
        }
    }
}

/// One pass of the normalizer on a well-shaped line: the aging digit is
/// zeroed and nothing else changes.
proof fn lemma_replace_aging(prefix: Seq<char>, d: char, suffix: Seq<char>, pat: Seq<char>)
    requires
        aging_shape(prefix, suffix),
        aging_digit(d),
        pat.len() == 6,
        pat[0] == ',' && pat[1] == '0' && pat[2] == '0' && pat[3] == '0' && pat[4] == ',',
        pat[5] != '0' && pat[5] != ',',
    ensures
        replace_seq(aging_line(prefix, d, suffix), pat, ",000,0"@) == (if pat[5] == d {
            aging_line(prefix, '0', suffix)
        } else {
            aging_line(prefix, d, suffix)
        }),
{
    let s = aging_line(prefix, d, suffix);
    let pn = prefix.len() as int;
    reveal_strlit(",000,0");
    reveal_strlit(",000,");
    assert(",000,"@.len() == 5);
    assert(",000,0"@.len() == 6);
    assert(",000,0"@[0] == ',' && ",000,0"@[1] == '0' && ",000,0"@[2] == '0' && ",000,0"@[3]
        == '0' && ",000,0"@[4] == ',' && ",000,0"@[5] == '0');
    assert(",000,0"@[0] == ',' && ",000,0"@[1] == '0' && ",000,0"@[2] == '0' && ",000,0"@[3]
        == '0' && ",000,0"@[4] == ',' && ",000,0"@[5] == '0');
    lemma_aging_windows(prefix, d, suffix, pat);
    if pat[5] == d {
        lemma_replace_single(s, pat, ",000,0"@, pn);
        assert(s.subrange(0, pn) =~= prefix);
        assert(s.subrange(pn + 6, s.len() as int) =~= suffix);
        assert(prefix + ",000,0"@ + suffix =~= aging_line(prefix, '0', suffix));
    } else {
        lemma_replace_identity(s, pat, ",000,0"@);
    }
}

/// One pass of the normalizer on a zeroed line changes nothing.
proof fn lemma_replace_zeroed(prefix: Seq<char>, suffix: Seq<char>, pat: Seq<char>)
    requires
        aging_shape(prefix, suffix),
        pat.len() == 6,
        pat[0] == ',' && pat[1] == '0' && pat[2] == '0' && pat[3] == '0' && pat[4] == ',',
        pat[5] != '0' && pat[5] != ',',
    ensures
        replace_seq(aging_line(prefix, '0', suffix), pat, ",000,0"@) == aging_line(
            prefix,
            '0',
            suffix,
        ),
{
    lemma_zeroed_windows(prefix, suffix, pat);
    lemma_replace_identity(aging_line(prefix, '0', suffix), pat, ",000,0"@);
}

/// Normalizing a well-shaped line zeroes its aging digit.
pub proof fn lemma_normalize_one(prefix: Seq<char>, d: char, suffix: Seq<char>)
    requires
        aging_shape(prefix, suffix),
        aging_digit(d),
    ensures
        normalize_spec(aging_line(prefix, d, suffix)) == aging_line(prefix, '0', suffix),
{
    reveal_strlit(",000,3");
    reveal_strlit(",000,4");
    reveal_strlit(",000,5");
    assert(",000,3"@.len() == 6 && ",000,3"@[0] == ',' && ",000,3"@[1] == '0' && ",000,3"@[2]
        == '0' && ",000,3"@[3] == '0' && ",000,3"@[4] == ',' && ",000,3"@[5] == '3');
    assert(",000,4"@.len() == 6 && ",000,4"@[0] == ',' && ",000,4"@[1] == '0' && ",000,4"@[2]
        == '0' && ",000,4"@[3] == '0' && ",000,4"@[4] == ',' && ",000,4"@[5] == '4');
    assert(",000,5"@.len() == 6 && ",000,5"@[0] == ',' && ",000,5"@[1] == '0' && ",000,5"@[2]
        == '0' && ",000,5"@[3] == '0' && ",000,5"@[4] == ',' && ",000,5"@[5] == '5');
    lemma_replace_aging(prefix, d, suffix, ",000,3"@);
    if d == '3' {
        lemma_replace_zeroed(prefix, suffix, ",000,4"@);
        lemma_replace_zeroed(prefix, suffix, ",000,5"@);
    } else {
        lemma_replace_aging(prefix, d, suffix, ",000,4"@);
        if d == '4' {
            lemma_replace_zeroed(prefix, suffix, ",000,5"@);
        } else {
            lemma_replace_aging(prefix, d, suffix, ",000,5"@);
        }
    }
}

/// Two report lines identical but for the aging digit normalize to the
/// same canonical line, so the comparison sees them as one report.
pub proof fn lemma_normalize_aging(prefix: Seq<char>, d1: char, d2: char, suffix: Seq<char>)
    requires
        aging_shape(prefix, suffix),
        aging_digit(d1),
        aging_digit(d2),
    ensures
        normalize_spec(aging_line(prefix, d1, suffix)) == normalize_spec(
            aging_line(prefix, d2, suffix),
        ),
{
    lemma_normalize_one(prefix, d1, suffix);
    lemma_normalize_one(prefix, d2, suffix);
}

/// The latest set of seen report lines and the lines never seen before.
pub struct Comparison {
    pub latest_set: Vec<String>,
    pub new: Vec<String>,
}

fn vec_contains_str(v: &Vec<String>, x: &String) -> (r: bool)
    ensures
        r == v.deep_view().contains(x@),
{
    let mut i: usize = 0;
    while i < v.len()
        invariant
            i <= v@.len(),
            forall|q: int| 0 <= q < i ==> v.deep_view()[q] != x@,
        decreases v@.len() - i,
    {
        if v[i] == *x {
            proof {
                assert(v.deep_view()[i as int] == x@);
            }
            return true;
        }
        i += 1;
    }
    proof {
        if v.deep_view().contains(x@) {
            let k = choose|k: int| 0 <= k < v.deep_view().len() && v.deep_view()[k] == x@;
        }
    }
    false
}

/// Splits a feed body into its canonical report-line set and the lines
/// not in the previously seen set.  The body's lines that do not start
/// with the icon marker are ignored.
pub fn get_comparison(body: &str, seen: &Vec<String>) -> (c: Comparison)
    requires
        body.is_ascii(),
    ensures
        c.latest_set.deep_view() == dedup_first(icon_norms(lines_spec(body@))),
        c.new.deep_view() == unseen(
            dedup_first(icon_norms(lines_spec(body@))),
            seen.deep_view(),
        ),
{
    proof {
        reveal_strlit("Icon:");
    }
    let lines = lines_vec(body);
    let mut latest_set: Vec<String> = Vec::new();
    let mut i: usize = 0;
    while i < lines.len()
        invariant
            lines.deep_view() == lines_spec(body@),
            forall|q: int| 0 <= q < lines@.len() ==> is_ascii_chars(#[trigger] lines@[q]@),
            i <= lines@.len(),
            latest_set.deep_view() == dedup_first(
                icon_norms(lines.deep_view().subrange(0, i as int)),
            ),
            forall|q: int|
                0 <= q < latest_set@.len() ==> is_ascii_chars(#[trigger] latest_set@[q]@),
        decreases lines@.len() - i,
    {
        proof {
            assert(lines.deep_view().subrange(0, i + 1).drop_last() =~= lines.deep_view()
                .subrange(0, i as int));
            assert(lines.deep_view().subrange(0, i + 1).last() == lines.deep_view()[i as int]);
        }
        let ghost prev = icon_norms(lines.deep_view().subrange(0, i as int));
        if match_at(lines[i].as_str(), "Icon:", 0) {
            let norm = normalize_line(lines[i].as_str());
            proof {
                let x = normalize_spec(lines.deep_view()[i as int]);
                assert(icon_norms(lines.deep_view().subrange(0, i + 1)) == prev + seq![x]);
                assert((prev + seq![x]).drop_last() =~= prev);
                assert((prev + seq![x]).last() == x);
            }
            if !vec_contains_str(&latest_set, &norm) {
                latest_set.push(norm);
            }
            proof {
                assert(latest_set.deep_view() =~= dedup_first(
                    icon_norms(lines.deep_view().subrange(0, i + 1)),
                ));
            }
        } else {
            proof {
                assert(icon_norms(lines.deep_view().subrange(0, i + 1)) =~= prev);
                assert(latest_set.deep_view() =~= dedup_first(
                    icon_norms(lines.deep_view().subrange(0, i + 1)),
                ));
            }
        }
        i += 1;
    }
    proof {
        assert(lines.deep_view().subrange(0, lines.deep_view().len() as int) =~= lines
            .deep_view());
    }
    let mut new: Vec<String> = Vec::new();
    let mut j: usize = 0;
    while j < latest_set.len()
        invariant
            latest_set.deep_view() == dedup_first(icon_norms(lines_spec(body@))),
            j <= latest_set@.len(),
            new.deep_view() == unseen(
                latest_set.deep_view().subrange(0, j as int),
                seen.deep_view(),
            ),
        decreases latest_set@.len() - j,
    {
        proof {
            assert(latest_set.deep_view().subrange(0, j + 1).drop_last() =~= latest_set
                .deep_view().subrange(0, j as int));
            assert(latest_set.deep_view().subrange(0, j + 1).last() == latest_set.deep_view()[j as int]);
        }
        if !vec_contains_str(seen, &latest_set[j]) {
            new.push(latest_set[j].clone());
        }
        proof {
            assert(new.deep_view() =~= unseen(
                latest_set.deep_view().subrange(0, j + 1),
                seen.deep_view(),
            ));
        }
        j += 1;
    }
    proof {
        assert(latest_set.deep_view().subrange(0, latest_set.deep_view().len() as int)
            =~= latest_set.deep_view());
    }
    Comparison { latest_set, new }
}

} // verus!
