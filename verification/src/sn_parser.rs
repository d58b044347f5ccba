//! Spotter-network report parser: one free-text line carries a
//! coordinate pair, a hazard code, the reporter, a timestamp and
//! optional size, speed and measured-flag fields.  Reports classified as
//! other-with-no-notes are discarded as non-actionable.

use vstd::prelude::*;
use vstd::string::StringExecFns;
use crate::domain::{Coordinates, Event, EventType, HazardType, Location, Report, Units, wf_event};
use crate::patterns::{digit_run_at, digit_run_len};
use crate::text::{
    all_digits, char_at, contains_at, contains_seq, dec_str, digits_val, find_at, find_from,
    hundredths_str, hundredths_string, is_digit, lemma_digits_val_bound, lemma_find_from_some,
    lemma_pow10_mono, match_at, matches_at, parse_u64, pow10, str_eq, str_len, sub_string,
    u64_string,
};
use crate::time_codec::{sn_ticks, sn_time_to_ticks};
use vstd::utf8::is_ascii_chars;

verus! {

broadcast use vstd::string::group_string_axioms;

/// The spotter-network hazard vocabulary, keyed by the numeric code in
/// the report line.
#[derive(Clone, Copy, Debug, Eq, PartialEq, Structural)]
pub enum Hazard {
    Tornado,
    Funnel,
    WallCloud,
    Hail,
    Wind,
    Flood,
    FlashFlood,
    Other,
    FreezingRain,
    Snow,
}

pub open spec fn hazard_by_code_spec(code: Seq<char>) -> Hazard {
    if code == "1"@ {
        Hazard::Tornado
    } else if code == "2"@ {
        Hazard::Funnel
    } else if code == "3"@ {
        Hazard::WallCloud
    } else if code == "4"@ {
        Hazard::Hail
    } else if code == "5"@ {
        Hazard::Wind
    } else if code == "6"@ {
        Hazard::Flood
    } else if code == "7"@ {
        Hazard::FlashFlood
    } else if code == "8"@ {
        Hazard::Other
    } else if code == "9"@ {
        Hazard::FreezingRain
    } else if code == "10"@ {
        Hazard::Snow
    } else {
        Hazard::Other
    }
}

pub open spec fn hazard_type_spec(h: Hazard) -> HazardType {
    match h {
        Hazard::Tornado => HazardType::Tornado,
        Hazard::Funnel => HazardType::Funnel,
        Hazard::WallCloud => HazardType::WallCloud,
        Hazard::Hail => HazardType::Hail,
        Hazard::Wind => HazardType::Wind,
        Hazard::Flood => HazardType::Flood,
        Hazard::FlashFlood => HazardType::Flood,
        Hazard::Other => HazardType::Other,
        Hazard::FreezingRain => HazardType::FreezingRain,
        Hazard::Snow => HazardType::Snow,
    }
}

pub open spec fn hazard_label(h: Hazard) -> Seq<char> {
    match h {
        Hazard::Tornado => "Tornado"@,
        Hazard::Funnel => "Funnel"@,
        Hazard::WallCloud => "Wall Cloud"@,
        Hazard::Hail => "Hail"@,
        Hazard::Wind => "Wind"@,
        Hazard::Flood => "Flood"@,
        Hazard::FlashFlood => "Flash Flood"@,
        Hazard::Other => "Other"@,
        Hazard::FreezingRain => "Freezing Rain"@,
        Hazard::Snow => "Snow"@,
    }
}

impl Hazard {
    /// Looks up a hazard by its report-line code; unknown codes map to
    /// the catch-all.
    pub fn get_by_code(code: &str) -> (r: Hazard)
        ensures
            r == hazard_by_code_spec(code@),
    {
        proof {
            reveal_strlit("1");
            reveal_strlit("2");
            reveal_strlit("3");
            reveal_strlit("4");
            reveal_strlit("5");
            reveal_strlit("6");
            reveal_strlit("7");
            reveal_strlit("8");
            reveal_strlit("9");
            reveal_strlit("10");
            assert("1".is_ascii() && "2".is_ascii() && "3".is_ascii() && "4".is_ascii()
                && "5".is_ascii() && "6".is_ascii() && "7".is_ascii() && "8".is_ascii()
                && "9".is_ascii() && "10".is_ascii());
        }
        if str_eq("1", code) {
            Hazard::Tornado
        } else if str_eq("2", code) {
            Hazard::Funnel
        } else if str_eq("3", code) {
            Hazard::WallCloud
        } else if str_eq("4", code) {
            Hazard::Hail
        } else if str_eq("5", code) {
            Hazard::Wind
        } else if str_eq("6", code) {
            Hazard::Flood
        } else if str_eq("7", code) {
            Hazard::FlashFlood
        } else if str_eq("8", code) {
            Hazard::Other
        } else if str_eq("9", code) {
            Hazard::FreezingRain
        } else if str_eq("10", code) {
            Hazard::Snow
        } else {
            Hazard::Other
        }
    }

    fn to_hazard_type(&self) -> (r: HazardType)
        ensures
            r == hazard_type_spec(*self),
    {
        match self {
            Hazard::Tornado => HazardType::Tornado,
            Hazard::Funnel => HazardType::Funnel,
            Hazard::WallCloud => HazardType::WallCloud,
            Hazard::Hail => HazardType::Hail,
            Hazard::Wind => HazardType::Wind,
            Hazard::Flood => HazardType::Flood,
            Hazard::FlashFlood => HazardType::Flood,
            Hazard::Other => HazardType::Other,
            Hazard::FreezingRain => HazardType::FreezingRain,
            Hazard::Snow => HazardType::Snow,
        }
    }

    fn to_string(&self) -> (r: String)
        ensures
            r@ == hazard_label(*self),
    {
        let label: &str = match self {
            Hazard::Tornado => "Tornado",
            Hazard::Funnel => "Funnel",
            Hazard::WallCloud => "Wall Cloud",
            Hazard::Hail => "Hail",
            Hazard::Wind => "Wind",
            Hazard::Flood => "Flood",
            Hazard::FlashFlood => "Flash Flood",
            Hazard::Other => "Other",
            Hazard::FreezingRain => "Freezing Rain",
            Hazard::Snow => "Snow",
        };
        String::from_str(label)
    }
}

/// Length of the longitude's whole-degree digit run.
pub open spec fn sn_d(s: Seq<char>, p: int) -> int {
    digit_run_len(s, p + 17)
}

/// Start of the reporter name.
pub open spec fn sn_r0(s: Seq<char>, p: int) -> int {
    p + 47 + sn_d(s, p)
}

/// End of the reporter name: the first escaped line break after it.
pub open spec fn sn_n1(s: Seq<char>, p: int) -> Option<int> {
    find_from(s, "\\n"@, sn_r0(s, p) + 1)
}

/// End of the hazard label line.
pub open spec fn sn_n2(s: Seq<char>, p: int) -> Option<int> {
    find_from(s, "\\n"@, sn_n1(s, p)->0 + 3)
}

/// Start of the timestamp.
pub open spec fn sn_t0(s: Seq<char>, p: int) -> int {
    sn_n2(s, p)->0 + 8
}

/// The coordinate, hazard, reporter and timestamp skeleton of a report
/// line occurs at `p`, the position of its `Icon: ` marker.
pub open spec fn sn_at(s: Seq<char>, p: int) -> bool {
    let d = sn_d(s, p);
    &&& 0 <= p
    &&& p + 17 <= s.len()
    &&& matches_at(s, "Icon: "@, p)
    &&& all_digits(s, p + 6, p + 8)
    &&& s[p + 8] == '.'
    &&& all_digits(s, p + 9, p + 15)
    &&& s[p + 15] == ','
    &&& s[p + 16] == '-'
    &&& (d == 2 || d == 3)
    &&& p + 34 + d <= s.len()
    &&& s[p + 17 + d] == '.'
    &&& all_digits(s, p + 18 + d, p + 24 + d)
    &&& s[p + 24 + d] == ','
    &&& s[p + 25 + d] == '0'
    &&& s[p + 26 + d] == '0'
    &&& s[p + 27 + d] == '0'
    &&& s[p + 28 + d] == ','
    &&& is_digit(s[p + 29 + d])
    &&& s[p + 30 + d] == ','
    &&& is_digit(s[p + 31 + d])
    &&& s[p + 32 + d] == ','
    &&& matches_at(s, "Reported By: "@, p + 34 + d)
    &&& sn_n1(s, p) is Some
    &&& sn_n2(s, p) is Some
    &&& matches_at(s, "Time: "@, sn_n2(s, p)->0 + 2)
    &&& sn_t0(s, p) + 23 <= s.len()
    &&& matches_at(s, " UTC"@, sn_t0(s, p) + 19)
}

/// Start of the optional trailing fields, just past ` UTC`.
pub open spec fn sn_u0(s: Seq<char>, p: int) -> int {
    sn_t0(s, p) + 23
}

/// The hail-size field is present: an escaped break, `Size: `, one or
/// two digits and a two-place fraction.
pub open spec fn sn_has_size(s: Seq<char>, p: int) -> bool {
    sn_has_size_raw(s, sn_u0(s, p))
}

/// The size in hundredths of an inch.
pub open spec fn sn_size_val(s: Seq<char>, p: int) -> int {
    let u0 = sn_u0(s, p);
    let d1 = digit_run_len(s, u0 + 8);
    digits_val(s.subrange(u0 + 8, u0 + 8 + d1)) * 100 + digits_val(
        s.subrange(u0 + 9 + d1, u0 + 11 + d1),
    )
}

/// The wind-speed field is present: an escaped break, one to three
/// digits and ` mph`.
pub open spec fn sn_has_mph(s: Seq<char>, p: int) -> bool {
    sn_has_mph_raw(s, sn_u0(s, p))
}

/// The wind speed in whole miles per hour.
pub open spec fn sn_mph_val(s: Seq<char>, p: int) -> int {
    let u0 = sn_u0(s, p);
    digits_val(s.subrange(u0 + 2, u0 + 2 + digit_run_len(s, u0 + 2)))
}

/// The position of the last `otes: ` marker, whose tail is the notes.
pub open spec fn rlast(s: Seq<char>, pat: Seq<char>, i: int) -> Option<int>
    decreases i + 1,
{
    if i < 0 {
        None
    } else if matches_at(s, pat, i) {
        Some(i)
    } else {
        rlast(s, pat, i - 1)
    }
}

pub open spec fn sn_notes_start(s: Seq<char>) -> Option<int> {
    match rlast(s, "otes: "@, s.len() as int) {
        None => None,
        Some(i) => if i >= 1 && s.len() - (i + 6) >= 2 {
            Some(i + 6)
        } else {
            None
        },
    }
}

/// The notes text: everything after the last `otes: ` marker, short of
/// the closing character.
pub open spec fn sn_notes(s: Seq<char>) -> Seq<char> {
    s.subrange(sn_notes_start(s)->0, s.len() - 1)
}

pub open spec fn sn_reporter(s: Seq<char>, p: int) -> Seq<char> {
    s.subrange(sn_r0(s, p), sn_n1(s, p)->0)
}

pub open spec fn sn_ts_text(s: Seq<char>, p: int) -> Seq<char> {
    s.subrange(sn_t0(s, p), sn_t0(s, p) + 19)
}

pub open spec fn sn_hazard(s: Seq<char>, p: int) -> Hazard {
    hazard_by_code_spec(s.subrange(p + 31 + sn_d(s, p), p + 32 + sn_d(s, p)))
}

/// The latitude in microdegrees.
pub open spec fn sn_lat(s: Seq<char>, p: int) -> int {
    digits_val(s.subrange(p + 6, p + 8)) * 1000000 + digits_val(s.subrange(p + 9, p + 15))
}

/// The longitude magnitude in microdegrees; the stored longitude is its
/// negation.
pub open spec fn sn_lon(s: Seq<char>, p: int) -> int {
    digits_val(s.subrange(p + 17, p + 17 + sn_d(s, p))) * 1000000 + digits_val(
        s.subrange(p + 18 + sn_d(s, p), p + 24 + sn_d(s, p)),
    )
}

/// Everything the parser guarantees of its result.
pub open spec fn sn_post(line: Seq<char>, r: Option<Event>) -> bool {
    ({
        let p_opt = find_from(line, "Icon: "@, 0);
        &&& (r is Some) == ({
            &&& is_ascii_chars(line)
            &&& p_opt is Some
            &&& sn_at(line, p_opt->0)
            &&& sn_notes_start(line) is Some
            &&& sn_ticks(sn_ts_text(line, p_opt->0)) is Some
            &&& !(hazard_type_spec(sn_hazard(line, p_opt->0)) == HazardType::Other && sn_notes(
                line,
            ) == "None"@)
        })
        &&& r matches Some(e) ==> {
            let p = p_opt->0;
            let h = sn_hazard(line, p);
            let measured = contains_seq(line, " [Measured]"@);
            &&& e.event_ts == sn_ticks(sn_ts_text(line, p))->0
            &&& e.event_type == EventType::SnReport
            &&& e.title@ == (if sn_has_size(line, p) {
                "Report: "@ + hundredths_str(sn_size_val(line, p)) + "\" "@ + hazard_label(h)
            } else if sn_has_mph(line, p) {
                "Report: "@ + dec_str(sn_mph_val(line, p)) + "mph "@ + hazard_label(h)
            } else {
                "Report: "@ + hazard_label(h)
            })
            &&& e.location matches Some(l) && {
                &&& l.wfo is None
                &&& l.county is None
                &&& l.poly is None
                &&& l.point matches Some(pt) && pt.lat as int == sn_lat(line, p) && pt.lon as int
                    == -sn_lon(line, p)
            }
            &&& e.report matches Some(rep) && {
                &&& rep.hazard == hazard_type_spec(h)
                &&& rep.reporter@ == sn_reporter(line, p)
                &&& rep.report_ts is None
                &&& rep.was_measured == (if measured {
                    Some(true)
                } else {
                    None
                })
                &&& sn_has_size(line, p) ==> (rep.units == Some(Units::Inches) && (
                rep.magnitude matches Some(v) && v as int == sn_size_val(line, p)))
                &&& (!sn_has_size(line, p) && sn_has_mph(line, p)) ==> (rep.units == Some(
                    Units::Mph,
                ) && (rep.magnitude matches Some(v) && v as int == sn_mph_val(line, p) * 100))
                &&& (!sn_has_size(line, p) && !sn_has_mph(line, p)) ==> (rep.units is None
                    && rep.magnitude is None)
            }
            &&& e.text matches Some(t) && t@ == (if sn_notes(line) == "None"@ {
                hazard_label(h) + " reported by "@ + sn_reporter(line, p)
            } else {
                hazard_label(h) + " reported by "@ + sn_reporter(line, p) + ". "@ + sn_notes(line)
            })
            &&& e.expires_ts is None
            &&& e.ext_uri is None
            &&& e.ingest_ts == 0
            &&& e.valid_ts is None
            &&& wf_event(e)
        }
    })
}

/// Scans for the last `otes: ` marker.
fn find_notes_start(s: &str) -> (r: Option<usize>)
    requires
        s.is_ascii(),
    ensures
        match r {
            Some(i) => sn_notes_start(s@) == Some(i as int),
            None => sn_notes_start(s@) is None,
        },
{
    proof {
        reveal_strlit("otes: ");
        assert("otes: "@.len() == 6);
    }
    let slen = str_len(s);
    let mut i: usize = slen;
    loop
        invariant
            s.is_ascii(),
            slen == s@.len(),
            i <= slen,
            rlast(s@, "otes: "@, slen as int) == rlast(s@, "otes: "@, i as int),
        decreases i + 1,
    {
        if match_at(s, "otes: ", i) {
            proof {
                reveal_strlit("otes: ");
                assert("otes: "@.len() == 6);
                assert(matches_at(s@, "otes: "@, i as int));
                assert(i + 6 <= slen);
            }
            if i >= 1 && slen - (i + 6) >= 2 {
                return Some(i + 6);
            } else {
                return None;
            }
        }
        if i == 0 {
            return None;
        }
        i -= 1;
    }
}

/// Parses one spotter-network report line.
#[verifier::rlimit(100)]
pub fn parse(report: &str) -> (r: Option<Event>)
    ensures
        sn_post(report@, r),
{
    let s = report;
    if !s.is_ascii() {
        return None;
    }
    let slen = str_len(s);
    let p = match find_at(s, "Icon: ", 0) {
        Some(p) => p,
        None => {
            return None;
        },
    };
    proof {
        lemma_find_from_some(s@, "Icon: "@, 0, p as int);
        reveal_strlit("Icon: ");
        reveal_strlit("Reported By: ");
        reveal_strlit("Time: ");
        reveal_strlit(" UTC");
        reveal_strlit("\\n");
        assert("Icon: "@.len() == 6);
        assert("Reported By: "@.len() == 13);
        assert("Time: "@.len() == 6);
        assert(" UTC"@.len() == 4);
        assert("\\n"@.len() == 2);
    }
    // Fixed-width coordinate block
    if !(slen - p >= 17 && digit_span_at(s, p + 6, 2) && char_at(s, p + 8) == '.' && digit_span_at(
        s,
        p + 9,
        6,
    ) && char_at(s, p + 15) == ',' && char_at(s, p + 16) == '-') {
        return None;
    }
    let d = digit_run_at(s, p + 17);
    if !(d == 2 || d == 3) {
        return None;
    }
    if !(slen - p >= 34 + d && char_at(s, p + 17 + d) == '.' && digit_span_at(s, p + 18 + d, 6)
        && char_at(s, p + 24 + d) == ',' && char_at(s, p + 25 + d) == '0' && char_at(s, p + 26 + d)
        == '0' && char_at(s, p + 27 + d) == '0' && char_at(s, p + 28 + d) == ','
        && crate::text::digit_at(s, p + 29 + d) && char_at(s, p + 30 + d) == ','
        && crate::text::digit_at(s, p + 31 + d) && char_at(s, p + 32 + d) == ',' && match_at(
        s,
        "Reported By: ",
        p + 34 + d,
    )) {
        return None;
    }
    let r0 = p + 47 + d;
    proof {
        assert(p + 47 + d <= slen);
    }
    if slen - r0 < 1 {
        return None;
    }
    let n1 = match find_at(s, "\\n", r0 + 1) {
        Some(i) => i,
        None => {
            return None;
        },
    };
    proof {
        lemma_find_from_some(s@, "\\n"@, r0 + 1, n1 as int);
    }
    if slen - n1 < 3 {
        return None;
    }
    let n2 = match find_at(s, "\\n", n1 + 3) {
        Some(i) => i,
        None => {
            return None;
        },
    };
    proof {
        lemma_find_from_some(s@, "\\n"@, n1 + 3, n2 as int);
    }
    if !match_at(s, "Time: ", n2 + 2) {
        return None;
    }
    if slen - n2 < 31 {
        return None;
    }
    let t0 = n2 + 8;
    if !match_at(s, " UTC", t0 + 19) {
        return None;
    }
    let notes_start = match find_notes_start(s) {
        Some(i) => i,
        None => {
            return None;
        },
    };
    let notes = sub_string(s, notes_start, slen - 1);
    let code_text = sub_string(s, p + 31 + d, p + 32 + d);
    let hazard = Hazard::get_by_code(code_text.as_str());
    let hazard_type = hazard.to_hazard_type();
    proof {
        reveal_strlit("None");
        assert("None".is_ascii());
    }
    let notes_is_none = str_eq("None", notes.as_str());
    if hazard_type == HazardType::Other && notes_is_none {
        return None;
    }
    let ts_text = sub_string(s, t0, t0 + 19);
    let event_ts = match sn_time_to_ticks(ts_text.as_str()) {
        Some(t) => t,
        None => {
            return None;
        },
    };
    let reporter = sub_string(s, r0, n1);
    // Coordinates, exact in microdegrees
    let lat_int = parse_u64(s, p + 6, p + 8);
    let lat_frac = parse_u64(s, p + 9, p + 15);
    let lon_int = parse_u64(s, p + 17, p + 17 + d);
    let lon_frac = parse_u64(s, p + 18 + d, p + 24 + d);
    proof {
        lemma_digits_val_bound(s@.subrange(p + 6, p + 8));
        lemma_digits_val_bound(s@.subrange(p + 9, p + 15));
        lemma_digits_val_bound(s@.subrange(p + 17, p + 17 + sn_d(s@, p as int)));
        lemma_digits_val_bound(s@.subrange(p + 18 + sn_d(s@, p as int), p + 24 + sn_d(s@, p as int)));
        lemma_pow10_mono(2, 6);
        lemma_pow10_mono(3, 6);
        assert(pow10(2) == 100 && pow10(3) == 1000 && pow10(6) == 1000000) by {
            reveal_with_fuel(pow10, 7);
        }
    }
    let lat: i64 = (lat_int as i64) * 1000000 + lat_frac as i64;
    let lon: i64 = -((lon_int as i64) * 1000000 + lon_frac as i64);
    // Optional trailing fields
    let u0 = t0 + 23;
    let mut magnitude: Option<u64> = None;
    let mut units: Option<Units> = None;
    let hazard_text = hazard.to_string();
    let mut title = String::from_str("Report: ");
    let has_size = check_size(s, u0);
    let has_mph = check_mph(s, u0);
    if has_size {
        let d1 = digit_run_at(s, u0 + 8);
        let whole = parse_u64(s, u0 + 8, u0 + 8 + d1);
        let frac = parse_u64(s, u0 + 9 + d1, u0 + 11 + d1);
        proof {
            lemma_digits_val_bound(s@.subrange(u0 + 8, u0 + 8 + digit_run_len(s@, u0 + 8)));
            lemma_digits_val_bound(
                s@.subrange(
                    u0 + 9 + digit_run_len(s@, u0 + 8),
                    u0 + 11 + digit_run_len(s@, u0 + 8),
                ),
            );
            lemma_pow10_mono(2, 6);
            assert(pow10(2) == 100 && pow10(6) == 1000000) by {
                reveal_with_fuel(pow10, 7);
            }
        }
        let size = whole * 100 + frac;
        magnitude = Some(size);
        units = Some(Units::Inches);
        let size_str = hundredths_string(size);
        title.append(size_str.as_str());
        title.append("\" ");
        title.append(hazard_text.as_str());
    } else if has_mph {
        let d2 = digit_run_at(s, u0 + 2);
        let mph = parse_u64(s, u0 + 2, u0 + 2 + d2);
        proof {
            lemma_digits_val_bound(s@.subrange(u0 + 2, u0 + 2 + digit_run_len(s@, u0 + 2)));
            lemma_pow10_mono(3, 6);
            assert(pow10(3) == 1000 && pow10(6) == 1000000) by {
                reveal_with_fuel(pow10, 7);
            }
        }
        magnitude = Some(mph * 100);
        units = Some(Units::Mph);
        let mph_str = u64_string(mph);
        title.append(mph_str.as_str());
        title.append("mph ");
        title.append(hazard_text.as_str());
    } else {
        title.append(hazard_text.as_str());
    }
    let measured = contains_at(s, " [Measured]");
    let was_measured: Option<bool> = if measured {
        Some(true)
    } else {
        None
    };
    let mut text = hazard.to_string();
    text.append(" reported by ");
    text.append(reporter.as_str());
    if !notes_is_none {
        text.append(". ");
        text.append(notes.as_str());
    }
    let location = Location {
        county: None,
        wfo: None,
        point: Some(Coordinates { lat, lon }),
        poly: None,
    };
    let rep = Report {
        hazard: hazard_type,
        magnitude,
        report_ts: None,
        reporter,
        units,
        was_measured,
    };
    let mut event = Event::new(event_ts, EventType::SnReport, title);
    event.location = Some(location);
    event.report = Some(rep);
    event.text = Some(text);
    Some(event)
}

fn digit_span_at(s: &str, i: usize, n: usize) -> (r: bool)
    requires
        s.is_ascii(),
        i + n <= s@.len(),
    ensures
        r == all_digits(s@, i as int, i + n),
{
    let mut k: usize = 0;
    let slen = str_len(s);
    while k < n
        invariant
            s.is_ascii(),
            slen == s@.len(),
            i + n <= slen,
            k <= n,
            forall|k2: int| i <= k2 < i + k ==> is_digit(#[trigger] s@[k2]),
        decreases n - k,
    {
        if !crate::text::digit_at(s, i + k) {
            return false;
        }
        k += 1;
    }
    true
}

fn check_size(s: &str, u0: usize) -> (r: bool)
    requires
        s.is_ascii(),
        u0 <= s@.len(),
    ensures
        r == sn_has_size_raw(s@, u0 as int),
{
    proof {
        reveal_strlit("\\nSize: ");
        assert("\\nSize: "@.len() == 8);
    }
    let slen = str_len(s);
    if !match_at(s, "\\nSize: ", u0) {
        return false;
    }
    let d1 = digit_run_at(s, u0 + 8);
    if !(d1 == 1 || d1 == 2) {
        return false;
    }
    if slen - u0 < 11 + d1 {
        return false;
    }
    char_at(s, u0 + 8 + d1) == '.' && digit_span_at(s, u0 + 9 + d1, 2)
}

/// The size field shape, phrased from the field start.
pub open spec fn sn_has_size_raw(s: Seq<char>, u0: int) -> bool {
    let d1 = digit_run_len(s, u0 + 8);
    &&& matches_at(s, "\\nSize: "@, u0)
    &&& (d1 == 1 || d1 == 2)
    &&& u0 + 11 + d1 <= s.len()
    &&& s[u0 + 8 + d1] == '.'
    &&& all_digits(s, u0 + 9 + d1, u0 + 11 + d1)
}

fn check_mph(s: &str, u0: usize) -> (r: bool)
    requires
        s.is_ascii(),
        u0 <= s@.len(),
    ensures
        r == sn_has_mph_raw(s@, u0 as int),
{
    proof {
        reveal_strlit("\\n");
        assert("\\n"@.len() == 2);
    }
    let slen = str_len(s);
    if !match_at(s, "\\n", u0) {
        return false;
    }
    proof {
        assert(u0 + 2 <= slen);
    }
    let d2 = digit_run_at(s, u0 + 2);
    if !(1 <= d2 && d2 <= 3) {
        return false;
    }
    match_at(s, " mph", u0 + 2 + d2)
}

/// The wind-speed field shape, phrased from the field start.
pub open spec fn sn_has_mph_raw(s: Seq<char>, u0: int) -> bool {
    let d2 = digit_run_len(s, u0 + 2);
    &&& matches_at(s, "\\n"@, u0)
    &&& 1 <= d2 <= 3
    &&& matches_at(s, " mph"@, u0 + 2 + d2)
}

} // verus!
