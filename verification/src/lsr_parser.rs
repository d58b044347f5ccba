//! Local storm report parser: the most structurally fragile format.  A
//! skeleton is located around the remarks marker, fixed-width columns are
//! decoded, the report timestamp is rebuilt from a date column, a time
//! column and a time-zone abbreviation, and reports far older than the
//! bulletin are dropped as late corrections.

use vstd::prelude::*;
use vstd::string::StringExecFns;
use crate::coord::{decimal_micro, decimal_micro_spec};
use crate::domain::{Event, EventType, HazardType, Location, Product, Report, wf_event};
use crate::text::{
    contains_at, contains_seq, find_at, find_from, first_line_with, first_with, hundredths_str,
    hundredths_string, last_line_with, last_with, lines_spec, lines_vec, replace_seq,
    replace_string, split_seq, split_string, str_eq, str_len, sub_string, trim_seq, trim_string,
};
use crate::time_codec::{get_report_ticks, report_ticks_spec, ts_ticks, ts_to_ticks, tz_offset_spec, tz_to_offset};
use vstd::utf8::is_ascii_chars;

verus! {

broadcast use vstd::string::group_string_axioms;

/// Reports whose decoded time precedes the bulletin by more than one
/// hour are late corrections or duplicates and are dropped.
pub const AGE_THRESHOLD_MICROS: u64 = 3600000000;

/// Intermediary structure of a report bulletin: the two fixed-width
/// detail lines around the remarks marker and the line bookkeeping.
pub struct Skeleton {
    pub top_line: String,
    pub bottom_line: String,
    pub lines: Vec<String>,
    pub remarks_index: usize,
    pub end_index: usize,
}

/// The record end: the last `&&` marker, else the first `$$` marker,
/// else the last line.
pub open spec fn end_idx_spec(lines: Seq<Seq<char>>) -> int {
    match last_with(lines, "&&"@, lines.len() - 1) {
        Some(i) => i,
        None => match first_with(lines, "$$"@, 0) {
            Some(i) => i,
            None => lines.len() - 1,
        },
    }
}

/// The index of the remarks marker line, the last one carrying it.
pub open spec fn remarks_idx(s: Seq<char>) -> int {
    last_with(lines_spec(s), "..REMARKS.."@, lines_spec(s).len() - 1)->0
}

/// A report bulletin has a usable skeleton: enough lines, no summary or
/// correction header, a remarks marker, and two detail lines of at least
/// the fixed width after it.
pub open spec fn skeleton_ok(s: Seq<char>) -> bool {
    let lines = lines_spec(s);
    &&& lines.len() >= 16
    &&& !contains_seq(lines[5], "SUMMARY"@)
    &&& !contains_seq(lines[5], "CORRECTED"@)
    &&& last_with(lines, "..REMARKS.."@, lines.len() - 1) is Some
    &&& remarks_idx(s) + 3 < lines.len()
    &&& lines[remarks_idx(s) + 2].len() >= 53
    &&& lines[remarks_idx(s) + 3].len() >= 53
}

pub open spec fn lsr_top(s: Seq<char>) -> Seq<char> {
    lines_spec(s)[remarks_idx(s) + 2]
}

pub open spec fn lsr_bottom(s: Seq<char>) -> Seq<char> {
    lines_spec(s)[remarks_idx(s) + 3]
}

/// Builds the skeleton of a report bulletin, or nothing when the text
/// does not carry one.
pub fn get_skeleton(text: &str) -> (r: Option<Skeleton>)
    ensures
        (r is Some) == (is_ascii_chars(text@) && skeleton_ok(text@)),
        r matches Some(sk) ==> {
            let lines = lines_spec(text@);
            &&& sk.lines.deep_view() == lines
            &&& sk.remarks_index as int == remarks_idx(text@)
            &&& sk.end_index as int == end_idx_spec(lines)
            &&& sk.top_line@ == lsr_top(text@)
            &&& sk.bottom_line@ == lsr_bottom(text@)
            &&& is_ascii_chars(sk.top_line@)
            &&& is_ascii_chars(sk.bottom_line@)
            &&& forall|q: int|
                0 <= q < sk.lines@.len() ==> is_ascii_chars(#[trigger] sk.lines@[q]@)
        },
{
    if !text.is_ascii() {
        return None;
    }
    let lines = lines_vec(text);
    if lines.len() < 16 {
        return None;
    }
    if contains_at(lines[5].as_str(), "SUMMARY") || contains_at(lines[5].as_str(), "CORRECTED") {
        return None;
    }
    let remarks_index = match last_line_with(&lines, "..REMARKS..") {
        Some(i) => i,
        None => {
            return None;
        },
    };
    let end_index = match last_line_with(&lines, "&&") {
        Some(i) => i,
        None => match first_line_with(&lines, "$$") {
            Some(i) => i,
            None => lines.len() - 1,
        },
    };
    if lines.len() - remarks_index <= 3 {
        return None;
    }
    let top_line = lines[remarks_index + 2].clone();
    let bottom_line = lines[remarks_index + 3].clone();
    if str_len(top_line.as_str()) < 53 || str_len(bottom_line.as_str()) < 53 {
        return None;
    }
    Some(Skeleton { top_line, bottom_line, lines, remarks_index, end_index })
}

/// The fixed hazard vocabulary of the report's event column; unmatched
/// text maps to the catch-all.
pub open spec fn lsr_hazard_spec(s: Seq<char>) -> HazardType {
    if s == "TORNADO"@ {
        HazardType::Tornado
    } else if s == "HAIL"@ {
        HazardType::Hail
    } else if s == "FLOOD"@ {
        HazardType::Flood
    } else if s == "FREEZING RAIN"@ {
        HazardType::FreezingRain
    } else if s == "TSTM WND GST"@ {
        HazardType::Wind
    } else if s == "TSTM WND DMG"@ {
        HazardType::Wind
    } else if s == "NON-TSTM WND GST"@ {
        HazardType::Wind
    } else if s == "NON-TSTM WND DMG"@ {
        HazardType::Wind
    } else if s == "MARINE TSTM WIND"@ {
        HazardType::Wind
    } else if s == "SNOW"@ {
        HazardType::Snow
    } else if s == "HEAVY SNOW"@ {
        HazardType::Snow
    } else {
        HazardType::Other
    }
}

/// Maps the report's event column to the hazard vocabulary.
pub fn get_lsr_hazard_type(input: &str) -> (r: HazardType)
    ensures
        r == lsr_hazard_spec(input@),
{
    proof {
        reveal_strlit("TORNADO");
        reveal_strlit("HAIL");
        reveal_strlit("FLOOD");
        reveal_strlit("FREEZING RAIN");
        reveal_strlit("TSTM WND GST");
        reveal_strlit("TSTM WND DMG");
        reveal_strlit("NON-TSTM WND GST");
        reveal_strlit("NON-TSTM WND DMG");
        reveal_strlit("MARINE TSTM WIND");
        reveal_strlit("SNOW");
        reveal_strlit("HEAVY SNOW");
        assert("TORNADO".is_ascii());
        assert("HAIL".is_ascii());
        assert("FLOOD".is_ascii());
        assert("FREEZING RAIN".is_ascii());
        assert("TSTM WND GST".is_ascii());
        assert("TSTM WND DMG".is_ascii());
        assert("NON-TSTM WND GST".is_ascii());
        assert("NON-TSTM WND DMG".is_ascii());
        assert("MARINE TSTM WIND".is_ascii());
        assert("SNOW".is_ascii());
        assert("HEAVY SNOW".is_ascii());
    }
    if str_eq("TORNADO", input) {
        HazardType::Tornado
    } else if str_eq("HAIL", input) {
        HazardType::Hail
    } else if str_eq("FLOOD", input) {
        HazardType::Flood
    } else if str_eq("FREEZING RAIN", input) {
        HazardType::FreezingRain
    } else if str_eq("TSTM WND GST", input) {
        HazardType::Wind
    } else if str_eq("TSTM WND DMG", input) {
        HazardType::Wind
    } else if str_eq("NON-TSTM WND GST", input) {
        HazardType::Wind
    } else if str_eq("NON-TSTM WND DMG", input) {
        HazardType::Wind
    } else if str_eq("MARINE TSTM WIND", input) {
        HazardType::Wind
    } else if str_eq("SNOW", input) {
        HazardType::Snow
    } else if str_eq("HEAVY SNOW", input) {
        HazardType::Snow
    } else {
        HazardType::Other
    }
}

/// Debug-style name of a hazard, as the title writes it.
pub open spec fn hazard_name(h: HazardType) -> Seq<char> {
    match h {
        HazardType::Tornado => "Tornado"@,
        HazardType::Funnel => "Funnel"@,
        HazardType::WallCloud => "WallCloud"@,
        HazardType::Hail => "Hail"@,
        HazardType::Wind => "Wind"@,
        HazardType::Flood => "Flood"@,
        HazardType::FlashFlood => "FlashFlood"@,
        HazardType::Other => "Other"@,
        HazardType::FreezingRain => "FreezingRain"@,
        HazardType::Snow => "Snow"@,
        HazardType::Downburst => "Downburst"@,
        HazardType::HeavyRain => "HeavyRain"@,
        HazardType::MarineWind => "MarineWind"@,
        HazardType::Lightning => "Lightning"@,
        HazardType::Waterspout => "Waterspout"@,
        HazardType::Wildfire => "Wildfire"@,
    }
}

fn hazard_name_str(h: HazardType) -> (r: &'static str)
    ensures
        r@ == hazard_name(h),
{
    match h {
        HazardType::Tornado => "Tornado",
        HazardType::Funnel => "Funnel",
        HazardType::WallCloud => "WallCloud",
        HazardType::Hail => "Hail",
        HazardType::Wind => "Wind",
        HazardType::Flood => "Flood",
        HazardType::FlashFlood => "FlashFlood",
        HazardType::Other => "Other",
        HazardType::FreezingRain => "FreezingRain",
        HazardType::Snow => "Snow",
        HazardType::Downburst => "Downburst",
        HazardType::HeavyRain => "HeavyRain",
        HazardType::MarineWind => "MarineWind",
        HazardType::Lightning => "Lightning",
        HazardType::Waterspout => "Waterspout",
        HazardType::Wildfire => "Wildfire",
    }
}

/// The resolved UTC offset of the report, from the time-zone
/// abbreviation in the bulletin header line.
pub open spec fn lsr_offset(s: Seq<char>) -> Option<Seq<char>> {
    let parts = split_seq(lines_spec(s)[7], seq![' ']);
    if parts.len() < 3 {
        None
    } else {
        tz_offset_spec(parts[2])
    }
}

/// The composite report timestamp text: date column, time column and
/// resolved offset.
pub open spec fn lsr_raw_ts(s: Seq<char>) -> Seq<char> {
    lsr_bottom(s).subrange(0, 10) + lsr_top(s).subrange(0, 7) + lsr_offset(s)->0
}

/// The decoded report timestamp.
pub open spec fn lsr_report_ts(s: Seq<char>) -> Option<u64> {
    if lsr_offset(s) is Some {
        report_ticks_spec(lsr_raw_ts(s))
    } else {
        None
    }
}

/// The point column with hemisphere letters dropped and whitespace
/// trimmed.
pub open spec fn lsr_raw_point(s: Seq<char>) -> Seq<char> {
    trim_seq(replace_seq(lsr_top(s).subrange(53, lsr_top(s).len() as int), "W"@, ""@))
}

/// The latitude, in nonnegative microdegrees.
pub open spec fn lsr_lat(s: Seq<char>) -> Option<int> {
    if lsr_raw_point(s).len() >= 5 {
        decimal_micro_spec(lsr_raw_point(s).subrange(0, 5))
    } else {
        None
    }
}

/// The longitude magnitude, in nonnegative microdegrees; the stored
/// longitude is its negation.
pub open spec fn lsr_lon(s: Seq<char>) -> Option<int> {
    if lsr_raw_point(s).len() >= 7 {
        decimal_micro_spec(
            trim_seq(lsr_raw_point(s).subrange(7, lsr_raw_point(s).len() as int)),
        )
    } else {
        None
    }
}

pub open spec fn lsr_raw_mag(s: Seq<char>) -> Seq<char> {
    trim_seq(lsr_bottom(s).subrange(12, 29))
}

/// The magnitude in hundredths, from the text between the measured
/// marker and the unit, when it is an exact two-place decimal.
pub open spec fn lsr_mag_val(s: Seq<char>) -> Option<int> {
    let m = lsr_raw_mag(s);
    match find_from(m, seq![' '], 0) {
        None => None,
        Some(sp) => {
            if sp < 1 {
                None
            } else {
                match decimal_micro_spec(m.subrange(1, sp)) {
                    None => None,
                    Some(v) => if v % 10000 == 0 {
                        Some(v / 10000)
                    } else {
                        None
                    },
                }
            }
        },
    }
}

/// The title fragment written for a magnitude-bearing report.
pub open spec fn lsr_mag_fragment(s: Seq<char>) -> Seq<char> {
    let m = lsr_raw_mag(s);
    if m.len() > 0 && contains_seq(m, "MPH"@) {
        " "@ + hundredths_str(lsr_mag_val(s)->0) + "mph"@
    } else if m.len() > 0 && !contains_seq(m, "MPH"@) && contains_seq(m, "INCH"@) {
        " "@ + hundredths_str(lsr_mag_val(s)->0) + "\""@
    } else {
        Seq::empty()
    }
}

/// Everything the parser guarantees of its result.
pub open spec fn lsr_post(product: Product, r: Option<Event>) -> bool {
    ({
        let text = product.product_text@;
        let m = lsr_raw_mag(text);
        &&& (r is Some) == ({
            &&& is_ascii_chars(text)
            &&& skeleton_ok(text)
            &&& ts_ticks(product.issuance_time@) is Some
            &&& lsr_report_ts(text) is Some
            &&& lsr_report_ts(text)->0 <= ts_ticks(product.issuance_time@)->0
            &&& ts_ticks(product.issuance_time@)->0 - lsr_report_ts(text)->0
                <= AGE_THRESHOLD_MICROS
            &&& lsr_raw_point(text).len() >= 7
            &&& lsr_lat(text) is Some
            &&& lsr_lon(text) is Some
            &&& (m.len() > 0 ==> find_from(m, seq![' '], 0) is Some)
            &&& (m.len() > 0 && (contains_seq(m, "MPH"@) || contains_seq(m, "INCH"@))
                ==> lsr_mag_val(text) is Some)
        })
        &&& r matches Some(e) ==> {
            let hz = lsr_hazard_spec(trim_seq(lsr_top(text).subrange(12, 29)));
            &&& e.event_ts == ts_ticks(product.issuance_time@)->0
            &&& e.event_type == EventType::NwsLsr
            &&& e.title@ == "Report: "@ + lsr_mag_fragment(text) + " "@ + hazard_name(hz) + " ("@
                + product.issuing_office@ + ")"@
            &&& e.location matches Some(l) && {
                &&& l.wfo matches Some(w) && w@ == product.issuing_office@
                &&& l.point matches Some(pt) && pt.lat as int == lsr_lat(text)->0 && pt.lon as int
                    == -lsr_lon(text)->0
                &&& l.poly is None
                &&& l.county matches Some(c) && c@ == trim_seq(lsr_bottom(text).subrange(29, 48))
            }
            &&& e.report matches Some(rep) && {
                &&& rep.hazard == hz
                &&& rep.reporter@ == trim_seq(
                    lsr_bottom(text).subrange(53, lsr_bottom(text).len() as int),
                )
                &&& rep.report_ts == Some(lsr_report_ts(text)->0)
                &&& rep.was_measured == (if m.len() > 0 {
                    Some(m[0] == 'M')
                } else {
                    None
                })
                &&& (m.len() > 0 && contains_seq(m, "MPH"@)) ==> {
                    &&& rep.units == Some(crate::domain::Units::Mph)
                    &&& rep.magnitude matches Some(v) && v as int == lsr_mag_val(text)->0
                }
                &&& (m.len() > 0 && !contains_seq(m, "MPH"@) && contains_seq(m, "INCH"@)) ==> {
                    &&& rep.units == Some(crate::domain::Units::Inches)
                    &&& rep.magnitude matches Some(v) && v as int == lsr_mag_val(text)->0
                }
                &&& (m.len() == 0 || (!contains_seq(m, "MPH"@) && !contains_seq(m, "INCH"@)))
                    ==> rep.units is None && rep.magnitude is None
            }
            &&& e.text matches Some(t) && t@ == text
            &&& e.expires_ts is None
            &&& e.ext_uri is None
            &&& e.ingest_ts == 0
            &&& e.valid_ts is None
            &&& wf_event(e)
        }
    })
}

/// The age filter: a report whose decoded time precedes the bulletin's
/// issuance by more than the threshold yields no event; one within the
/// window, with the rest of the record well-formed, yields one.
pub proof fn lemma_age_filter(product: Product, r: Option<Event>)
    requires
        lsr_post(product, r),
        lsr_report_ts(product.product_text@) is Some,
        ts_ticks(product.issuance_time@) is Some,
    ensures
        ts_ticks(product.issuance_time@)->0 - lsr_report_ts(product.product_text@)->0
            > AGE_THRESHOLD_MICROS ==> r is None,
        r is Some ==> ts_ticks(product.issuance_time@)->0 - lsr_report_ts(product.product_text@)->0
            <= AGE_THRESHOLD_MICROS,
{
}

/// Parses a local storm report record.
pub fn parse(product: &Product) -> (r: Option<Event>)
    ensures
        lsr_post(*product, r),
{
    let text = product.product_text.as_str();
    let lsr = match get_skeleton(text) {
        Some(sk) => sk,
        None => {
            return None;
        },
    };
    let event_ts = match ts_to_ticks(product.issuance_time.as_str()) {
        Some(t) => t,
        None => {
            return None;
        },
    };
    proof {
        reveal_strlit(" ");
        assert(" "@ =~= seq![' ']);
    }
    let offset_parts = split_string(lsr.lines[7].as_str(), " ");
    if offset_parts.len() < 3 {
        return None;
    }
    let offset = match tz_to_offset(offset_parts[2].as_str()) {
        Ok(o) => o,
        Err(_) => {
            return None;
        },
    };
    let mut raw_ts = sub_string(lsr.bottom_line.as_str(), 0, 10);
    let top7 = sub_string(lsr.top_line.as_str(), 0, 7);
    raw_ts.append(top7.as_str());
    raw_ts.append(offset);
    let report_ts = match get_report_ticks(raw_ts.as_str()) {
        Some(t) => t,
        None => {
            return None;
        },
    };
    // Reports far in the past are late corrections or duplicates; ones
    // stamped after the bulletin are equally out of range.
    if report_ts > event_ts {
        return None;
    }
    if event_ts - report_ts > AGE_THRESHOLD_MICROS {
        return None;
    }
    proof {
        reveal_strlit("W");
        reveal_strlit("");
        assert("W"@.len() == 1);
        assert("".is_ascii());
    }
    let top_len = str_len(lsr.top_line.as_str());
    let tail = sub_string(lsr.top_line.as_str(), 53, top_len);
    let replaced = replace_string(tail.as_str(), "W", "");
    let raw_point = trim_string(replaced.as_str());
    let rp_len = str_len(raw_point.as_str());
    if rp_len < 7 {
        return None;
    }
    let lat_text = sub_string(raw_point.as_str(), 0, 5);
    let lat_micro = match decimal_micro(lat_text.as_str()) {
        Some(v) => v,
        None => {
            return None;
        },
    };
    let lon_tail = sub_string(raw_point.as_str(), 7, rp_len);
    let lon_text = trim_string(lon_tail.as_str());
    let lon_micro = match decimal_micro(lon_text.as_str()) {
        Some(v) => v,
        None => {
            return None;
        },
    };
    let raw_hazard = {
        let h = sub_string(lsr.top_line.as_str(), 12, 29);
        trim_string(h.as_str())
    };
    let hazard = get_lsr_hazard_type(raw_hazard.as_str());
    let raw_mag = {
        let mtext = sub_string(lsr.bottom_line.as_str(), 12, 29);
        trim_string(mtext.as_str())
    };
    let county = {
        let c = sub_string(lsr.bottom_line.as_str(), 29, 48);
        trim_string(c.as_str())
    };
    let bottom_len = str_len(lsr.bottom_line.as_str());
    let reporter = {
        let rp = sub_string(lsr.bottom_line.as_str(), 53, bottom_len);
        trim_string(rp.as_str())
    };
    let mut was_measured: Option<bool> = None;
    let mut units: Option<crate::domain::Units> = None;
    let mut magnitude: Option<u64> = None;
    let mut title = String::from_str("Report: ");
    let mag_len = str_len(raw_mag.as_str());
    if mag_len > 0 {
        was_measured = Some(crate::text::char_at(raw_mag.as_str(), 0) == 'M');
        let space_index = match find_at(raw_mag.as_str(), " ", 0) {
            Some(i) => i,
            None => {
                return None;
            },
        };
        proof {
            crate::text::lemma_find_from_some(
                raw_mag@,
                " "@,
                0,
                find_from(raw_mag@, " "@, 0)->0,
            );
        }
        let has_mph = contains_at(raw_mag.as_str(), "MPH");
        let has_inch = contains_at(raw_mag.as_str(), "INCH");
        if has_mph || has_inch {
            if space_index < 1 {
                return None;
            }
            let mag_text = sub_string(raw_mag.as_str(), 1, space_index);
            let micro = match decimal_micro(mag_text.as_str()) {
                Some(v) => v,
                None => {
                    return None;
                },
            };
            if micro % 10000 != 0 {
                return None;
            }
            let hundredths = micro / 10000;
            magnitude = Some(hundredths);
            units = if has_mph {
                Some(crate::domain::Units::Mph)
            } else {
                Some(crate::domain::Units::Inches)
            };
            title.append(" ");
            let mag_str = hundredths_string(hundredths);
            title.append(mag_str.as_str());
            if has_mph {
                title.append("mph");
            } else {
                title.append("\"");
            }
        }
    }
    title.append(" ");
    title.append(hazard_name_str(hazard));
    title.append(" (");
    title.append(product.issuing_office.as_str());
    title.append(")");
    proof {
        assert(title@ =~= "Report: "@ + lsr_mag_fragment(text@) + " "@ + hazard_name(
            lsr_hazard_spec(trim_seq(lsr_top(text@).subrange(12, 29))),
        ) + " ("@ + product.issuing_office@ + ")"@);
    }
    let location = Location {
        point: Some(
            crate::domain::Coordinates { lat: lat_micro as i64, lon: -(lon_micro as i64) },
        ),
        poly: None,
        wfo: Some(product.issuing_office.clone()),
        county: Some(county),
    };
    let report = Report {
        hazard,
        magnitude,
        report_ts: Some(report_ts),
        reporter,
        units,
        was_measured,
    };
    let mut event = Event::new(event_ts, EventType::NwsLsr, title);
    event.location = Some(location);
    event.report = Some(report);
    event.text = Some(product.product_text.clone());
    Some(event)
}

} // verus!
