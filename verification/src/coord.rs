//! Coordinate codec: fixed-width numeric latitude/longitude encodings are
//! decoded into signed microdegrees.
//!
//! Bulletins write a coordinate as four or five digits holding hundredths
//! of a degree.  Longitudes are always written unsigned and are always in
//! the western hemisphere, so decoding with `invert` negates the value;
//! longitudes beyond 100 degrees may arrive with the leading `1` dropped,
//! which the codec corrects by adding back 10000 hundredths whenever an
//! inverted raw value is below 5000.

use vstd::prelude::*;
use crate::text::{all_digits, digits_val, find_from, lemma_digits_val_bound, lemma_find_from_some, lemma_pow10_mono, pow10, digit_run, find_at, parse_u64, str_len};

verus! {

/// Decoded value of a 4-5 digit coordinate string, in microdegrees.
pub open spec fn latlon_spec(s: Seq<char>, invert: bool) -> int {
    let raw = digits_val(s);
    let corrected = if invert && raw < 5000 {
        raw + 10000
    } else {
        raw
    };
    if invert {
        -corrected * 10000
    } else {
        corrected * 10000
    }
}

/// Decodes a fixed-width coordinate string into signed microdegrees.
///
/// Malformed numeric text is a precondition violation: callers hand in
/// digit runs that their own pattern matching has already isolated.
pub fn str_to_latlon(s: &str, invert: bool) -> (r: i64)
    requires
        s.is_ascii(),
        4 <= s@.len() <= 5,
        all_digits(s@, 0, s@.len() as int),
    ensures
        r as int == latlon_spec(s@, invert),
{
    let len = str_len(s);
    let raw = parse_u64(s, 0, len);
    proof {
        lemma_digits_val_bound(s@.subrange(0, s@.len() as int));
        lemma_pow10_mono(s@.len() as nat, 5);
        assert(pow10(5) == 100000) by {
            reveal_with_fuel(pow10, 6);
        }
        assert(s@.subrange(0, s@.len() as int) =~= s@);
    }
    let corrected: u64 = if invert && raw < 5000 {
        raw + 10000
    } else {
        raw
    };
    let micro: i64 = (corrected as i64) * 10000;
    if invert {
        -micro
    } else {
        micro
    }
}

/// The overflow-corrected short form and the explicit five-digit form of a
/// longitude beyond 100 degrees decode to the same value: adding back the
/// dropped leading `1` is exactly what the correction does.
pub proof fn lemma_overflow_correction(s1: Seq<char>, s2: Seq<char>)
    requires
        0 <= digits_val(s1) < 5000,
        digits_val(s2) == digits_val(s1) + 10000,
    ensures
        latlon_spec(s1, true) == latlon_spec(s2, true),
{
}

/// Value in nonnegative microdegrees of a plain decimal string: an integer
/// part of one to ten digits, optionally followed by a point and one to six
/// fraction digits.
pub open spec fn decimal_micro_spec(s: Seq<char>) -> Option<int> {
    match find_from(s, seq!['.'], 0) {
        None => if 1 <= s.len() <= 10 && all_digits(s, 0, s.len() as int) {
            Some(digits_val(s) * 1000000)
        } else {
            None
        },
        Some(i) => {
            let frac_len = s.len() - i - 1;
            if 1 <= i <= 10 && 1 <= frac_len <= 6 && all_digits(s, 0, i) && all_digits(
                s,
                i + 1,
                s.len() as int,
            ) {
                Some(
                    digits_val(s.subrange(0, i)) * 1000000 + digits_val(
                        s.subrange(i + 1, s.len() as int),
                    ) * pow10((6 - frac_len) as nat),
                )
            } else {
                None
            }
        },
    }
}

/// Parses a decimal degree or magnitude string into microunits.
pub fn decimal_micro(s: &str) -> (r: Option<u64>)
    requires
        s.is_ascii(),
    ensures
        match r {
            Some(v) => decimal_micro_spec(s@) == Some(v as int) && v
                <= 20000000000000000,
            None => decimal_micro_spec(s@) is None,
        },
{
    let len = str_len(s);
    proof {
        reveal_strlit(".");
        assert("."@ =~= seq!['.']);
    }
    match find_at(s, ".", 0) {
        None => {
            if 1 <= len && len <= 10 && digit_run(s, 0) == len {
                let v = parse_u64(s, 0, len);
                proof {
                    assert(s@.subrange(0, s@.len() as int) =~= s@);
                    lemma_digits_val_bound(s@);
                    lemma_pow10_mono(s@.len() as nat, 10);
                    assert(pow10(10) == 10000000000) by {
                        reveal_with_fuel(pow10, 11);
                    }
                }
                Some(v * 1000000)
            } else {
                None
            }
        },
        Some(i) => {
            proof {
                lemma_find_from_some(s@, seq!['.'], 0, i as int);
            }
            let frac_len = len - i - 1;
            if 1 <= i && i <= 10 && 1 <= frac_len && frac_len <= 6 && digit_run(s, 0) >= i
                && digit_run(s, i + 1) >= frac_len {
                let int_part = parse_u64(s, 0, i);
                let frac_part = parse_u64(s, i + 1, len);
                let scale = frac_scale(6 - frac_len);
                proof {
                    lemma_digits_val_bound(s@.subrange(0, i as int));
                    lemma_pow10_mono(i as nat, 10);
                    assert(pow10(10) == 10000000000) by {
                        reveal_with_fuel(pow10, 11);
                    }
                    lemma_digits_val_bound(s@.subrange(i + 1, s@.len() as int));
                    lemma_pow10_mono((s@.len() - i - 1) as nat, 6);
                    assert(pow10(6) == 1000000) by {
                        reveal_with_fuel(pow10, 7);
                    }
                    lemma_pow10_mono((6 - frac_len) as nat, 6);
                    assert(frac_part * scale <= 999999 * 1000000) by (nonlinear_arith)
                        requires
                            frac_part <= 999999,
                            scale <= 1000000,
                    ;
                }
                Some(int_part * 1000000 + frac_part * scale)
            } else {
                None
            }
        },
    }
}

/// Powers of ten up to one million, for fraction scaling.
fn frac_scale(n: usize) -> (r: u64)
    requires
        n <= 6,
    ensures
        r as int == pow10(n as nat),
{
    proof {
        reveal_with_fuel(pow10, 7);
    }
    if n == 0 {
        1
    } else if n == 1 {
        10
    } else if n == 2 {
        100
    } else if n == 3 {
        1000
    } else if n == 4 {
        10000
    } else if n == 5 {
        100000
    } else {
        1000000
    }
}

} // verus!
