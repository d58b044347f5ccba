//! Storm outlook narrative parser, covering convective outlooks and
//! mesoscale discussions.  The sub-type is classified from an embedded
//! product identifier; only day-one outlooks and mesoscale discussions
//! produce events, the other sub-types are deliberately suppressed.

use vstd::prelude::*;
use vstd::string::StringExecFns;
use crate::domain::{
    Event, EventType, Location, MdConcerning, MesoscaleDiscussion, Outlook, OutlookRisk, Product,
    SwoType, wf_event,
};
use crate::coord::latlon_spec;
use crate::parser_util::pairs_to_coords;
use crate::patterns::{
    block_content, cond_pairs, find_block, find_number, lemma_first_at_some, lemma_run_all_digits,
    number_at, number_digits, scan_block, scan_cond, scan_number,
};
use crate::text::{
    contains_at, contains_seq, dec_str, digits_val, lemma_digits_val_bound, lemma_pow10_mono,
    pow10, replace_seq, replace_string, split_seq, split_string, u64_string,
};
use crate::time_codec::{ts_ticks, ts_to_ticks};
use vstd::utf8::is_ascii_chars;

verus! {

broadcast use vstd::string::group_string_axioms;

/// The outlook sub-type, classified from the embedded product identifier.
pub open spec fn swo_type_spec(text: Seq<char>) -> SwoType {
    if contains_seq(text, "ACUS01"@) {
        SwoType::Day1
    } else if contains_seq(text, "ACUS02"@) {
        SwoType::Day2
    } else if contains_seq(text, "ACUS03"@) {
        SwoType::Day3
    } else if contains_seq(text, "ACUS48"@) {
        SwoType::Day48
    } else if contains_seq(text, "ACUS11"@) {
        SwoType::MesoscaleDiscussion
    } else {
        SwoType::Unknown
    }
}

/// Classifies the outlook sub-type of a bulletin text.
pub fn get_swo_type(text: &str) -> (r: SwoType)
    ensures
        text.is_ascii() ==> r == swo_type_spec(text@),
        !text.is_ascii() ==> r == SwoType::Unknown,
{
    if !text.is_ascii() {
        return SwoType::Unknown;
    }
    if contains_at(text, "ACUS01") {
        SwoType::Day1
    } else if contains_at(text, "ACUS02") {
        SwoType::Day2
    } else if contains_at(text, "ACUS03") {
        SwoType::Day3
    } else if contains_at(text, "ACUS48") {
        SwoType::Day48
    } else if contains_at(text, "ACUS11") {
        SwoType::MesoscaleDiscussion
    } else {
        SwoType::Unknown
    }
}

/// The highest risk named by the bulletin.  Every level that applies is
/// written out, so the canonical phrases are tested in strictly
/// descending severity and the first match wins.
pub open spec fn outlook_risk_spec(text: Seq<char>) -> OutlookRisk {
    if contains_seq(text, "THERE IS A HIGH RISK"@) {
        OutlookRisk::HIGH
    } else if contains_seq(text, "THERE IS A MODERATE RISK"@) {
        OutlookRisk::MDT
    } else if contains_seq(text, "THERE IS AN ENHANCED RISK"@) {
        OutlookRisk::ENH
    } else if contains_seq(text, "THERE IS A SLIGHT RISK"@) {
        OutlookRisk::SLGT
    } else if contains_seq(text, "THERE IS A MARGINAL RISK"@) {
        OutlookRisk::MRGL
    } else {
        OutlookRisk::TSTM
    }
}

/// Classifies the maximum risk of a day-one outlook text.
pub fn get_outlook_risk(text: &str) -> (r: OutlookRisk)
    ensures
        text.is_ascii() ==> r == outlook_risk_spec(text@),
        !text.is_ascii() ==> r == OutlookRisk::TSTM,
{
    if !text.is_ascii() {
        return OutlookRisk::TSTM;
    }
    if contains_at(text, "THERE IS A HIGH RISK") {
        OutlookRisk::HIGH
    } else if contains_at(text, "THERE IS A MODERATE RISK") {
        OutlookRisk::MDT
    } else if contains_at(text, "THERE IS AN ENHANCED RISK") {
        OutlookRisk::ENH
    } else if contains_at(text, "THERE IS A SLIGHT RISK") {
        OutlookRisk::SLGT
    } else if contains_at(text, "THERE IS A MARGINAL RISK") {
        OutlookRisk::MRGL
    } else {
        OutlookRisk::TSTM
    }
}

/// Risk precedence: a bulletin that names both the moderate and the
/// slight risk classifies as moderate, never slight, wherever the two
/// phrases stand in the text.  The one proviso is that no higher phrase
/// appears: a high-risk bulletin outranks both.
pub proof fn lemma_risk_precedence(text: Seq<char>)
    requires
        contains_seq(text, "THERE IS A MODERATE RISK"@),
        contains_seq(text, "THERE IS A SLIGHT RISK"@),
        !contains_seq(text, "THERE IS A HIGH RISK"@),
    ensures
        outlook_risk_spec(text) == OutlookRisk::MDT,
{
}

pub open spec fn swo_name(t: SwoType) -> Seq<char> {
    match t {
        SwoType::Day1 => "Day1"@,
        SwoType::Day2 => "Day2"@,
        SwoType::Day3 => "Day3"@,
        SwoType::Day48 => "Day48"@,
        SwoType::MesoscaleDiscussion => "MesoscaleDiscussion"@,
        SwoType::Unknown => "Unknown"@,
    }
}

pub open spec fn risk_name(x: OutlookRisk) -> Seq<char> {
    match x {
        OutlookRisk::TSTM => "TSTM"@,
        OutlookRisk::MRGL => "MRGL"@,
        OutlookRisk::SLGT => "SLGT"@,
        OutlookRisk::ENH => "ENH"@,
        OutlookRisk::MDT => "MDT"@,
        OutlookRisk::HIGH => "HIGH"@,
    }
}

/// Everything the day-one outlook path guarantees.
pub open spec fn outlook_post(product: Product, swo_type: SwoType, r: Option<Event>) -> bool {
    ({
        let text = product.product_text@;
        &&& (r is Some) == (ts_ticks(product.issuance_time@) is Some)
        &&& r matches Some(e) ==> {
            &&& e.event_ts == ts_ticks(product.issuance_time@)->0
            &&& e.event_type == EventType::NwsSwo
            &&& e.title@ == "SPC "@ + swo_name(swo_type) + " Outlook: "@ + risk_name(
                outlook_risk_spec(text),
            )
            &&& e.outlook matches Some(o) && {
                &&& o.swo_type == swo_type
                &&& o.max_risk == outlook_risk_spec(text)
                &&& o.polys is None
            }
            &&& e.text matches Some(t) && t@ == text
            &&& e.location is None
            &&& e.md is None
            &&& e.expires_ts is None
            &&& e.ext_uri is None
            &&& e.ingest_ts == 0
            &&& e.valid_ts is None
            &&& wf_event(e)
        }
    })
}

fn parse_outlook(product: &Product, swo_type: SwoType) -> (r: Option<Event>)
    requires
        product.product_text.is_ascii(),
    ensures
        outlook_post(*product, swo_type, r),
{
    let text = product.product_text.as_str();
    let max_risk = get_outlook_risk(text);
    let event_ts = match ts_to_ticks(product.issuance_time.as_str()) {
        Some(t) => t,
        None => {
            return None;
        },
    };
    let kind_text: &str = match swo_type {
        SwoType::Day1 => "Day1",
        SwoType::Day2 => "Day2",
        SwoType::Day3 => "Day3",
        SwoType::Day48 => "Day48",
        SwoType::MesoscaleDiscussion => "MesoscaleDiscussion",
        SwoType::Unknown => "Unknown",
    };
    let risk_text: &str = match max_risk {
        OutlookRisk::TSTM => "TSTM",
        OutlookRisk::MRGL => "MRGL",
        OutlookRisk::SLGT => "SLGT",
        OutlookRisk::ENH => "ENH",
        OutlookRisk::MDT => "MDT",
        OutlookRisk::HIGH => "HIGH",
    };
    let mut title = String::from_str("SPC ");
    title.append(kind_text);
    title.append(" Outlook: ");
    title.append(risk_text);
    let outlook = Outlook { swo_type, max_risk, polys: None };
    let mut event = Event::new(event_ts, EventType::NwsSwo, title);
    event.outlook = Some(outlook);
    event.text = Some(product.product_text.clone());
    Some(event)
}

/// The discussion's "concerning" classification, from four mutually
/// exclusive phrases tested in a fixed priority order.
pub open spec fn md_concerning_spec(text: Seq<char>) -> MdConcerning {
    if contains_seq(text, "Concerning...Severe potential...Watch"@) {
        MdConcerning::NewSvrWatch
    } else if contains_seq(text, "Concerning...Severe potential...Tornado Watch"@) {
        MdConcerning::NewTorWatch
    } else if contains_seq(text, "Concerning...Severe Thunderstorm Watch"@) {
        MdConcerning::ExistingSvrWatch
    } else if contains_seq(text, "Concerning...Tornado Watch"@) {
        MdConcerning::ExistingTorWatch
    } else {
        MdConcerning::Unknown
    }
}

/// The watch issuance probability, when its phrase is present.
pub open spec fn md_prob_spec(text: Seq<char>) -> Option<int> {
    match find_number(text, "probability of watch issuance"@, 3, 1, 3, " percent"@) {
        None => None,
        Some(i) => Some(
            digits_val(number_digits(text, "probability of watch issuance"@, 3, 3, i)),
        ),
    }
}

/// The discussion number.
pub open spec fn md_id_spec(text: Seq<char>) -> int {
    digits_val(
        number_digits(
            text,
            "mesoscale discussion "@,
            0,
            4,
            find_number(text, "mesoscale discussion "@, 0, 4, 4, ""@)->0,
        ),
    )
}

pub open spec fn md_affected_spec(text: Seq<char>) -> Seq<char> {
    replace_seq(
        block_content(
            text,
            "areas affected..."@,
            0,
            ""@,
            0,
            0,
            "\n\n"@,
            find_block(text, "areas affected..."@, 0, ""@, 0, 0, "\n\n"@)->0,
        ),
        "\n"@,
        " "@,
    )
}

/// The pieces of a `...`-separated list, empty pieces dropped.
pub open spec fn nonempty_pieces(ps: Seq<Seq<char>>) -> Seq<Seq<char>>
    decreases ps.len(),
{
    if ps.len() == 0 {
        Seq::empty()
    } else {
        nonempty_pieces(ps.drop_last()) + if ps.last().len() != 0 {
            seq![ps.last()]
        } else {
            Seq::empty()
        }
    }
}

/// The attention list of forecast offices.
pub open spec fn md_wfos_spec(text: Seq<char>) -> Seq<Seq<char>> {
    nonempty_pieces(
        split_seq(
            block_content(
                text,
                "attn"@,
                3,
                "wfo"@,
                3,
                0,
                "\n\n"@,
                find_block(text, "attn"@, 3, "wfo"@, 3, 0, "\n\n"@)->0,
            ),
            "..."@,
        ),
    )
}

/// The title of a mesoscale discussion, by its classification; the new
/// watch forms carry the issuance probability.
pub open spec fn md_title_spec(c: MdConcerning, prob: Option<int>) -> Seq<char> {
    match c {
        MdConcerning::NewSvrWatch => "SPC MD: Tstm Watch "@ + dec_str(prob->0) + "%"@,
        MdConcerning::NewTorWatch => "SPC MD: Tornado Watch "@ + dec_str(prob->0) + "%"@,
        MdConcerning::ExistingSvrWatch => "SPC MD: Existing Tstm Watch"@,
        MdConcerning::ExistingTorWatch => "SPC MD: Existing Tornado Watch"@,
        MdConcerning::Unknown => "SPC Mesoscale Discussion"@,
    }
}

/// Everything the mesoscale discussion path guarantees.
pub open spec fn md_post(product: Product, r: Option<Event>) -> bool {
    ({
        let text = product.product_text@;
        let concerning = md_concerning_spec(text);
        let needs_prob = concerning == MdConcerning::NewSvrWatch || concerning
            == MdConcerning::NewTorWatch;
        &&& (r is Some) == ({
            &&& find_number(text, "mesoscale discussion "@, 0, 4, 4, ""@) is Some
            &&& find_block(text, "areas affected..."@, 0, ""@, 0, 0, "\n\n"@) is Some
            &&& find_block(text, "attn"@, 3, "wfo"@, 3, 0, "\n\n"@) is Some
            &&& (needs_prob ==> md_prob_spec(text) is Some)
            &&& ts_ticks(product.issuance_time@) is Some
        })
        &&& r matches Some(e) ==> {
            &&& e.event_ts == ts_ticks(product.issuance_time@)->0
            &&& e.event_type == EventType::NwsSwo
            &&& e.title@ == md_title_spec(concerning, md_prob_spec(text))
            &&& e.md matches Some(m) && {
                &&& m.id as int == md_id_spec(text)
                &&& m.affected@ == md_affected_spec(text)
                &&& m.concerning == concerning
                &&& match (m.watch_issuance_probability, md_prob_spec(text)) {
                    (Some(a), Some(b)) => a as int == b,
                    (None, None) => true,
                    _ => false,
                }
                &&& m.wfos.deep_view() == md_wfos_spec(text)
            }
            &&& e.location matches Some(l) && {
                &&& l.wfo is None
                &&& l.point is None
                &&& l.county is None
                &&& l.poly matches Some(p) && {
                    &&& p@.len() == cond_pairs(text, 0).len()
                    &&& forall|q: int|
                        0 <= q < p@.len() ==> {
                            &&& (#[trigger] p@[q]).lat as int == latlon_spec(
                                cond_pairs(text, 0)[q].0,
                                false,
                            )
                            &&& p@[q].lon as int == latlon_spec(cond_pairs(text, 0)[q].1, true)
                        }
                }
            }
            &&& e.text matches Some(t) && t@ == text
            &&& e.outlook is None
            &&& e.expires_ts is None
            &&& e.ext_uri is None
            &&& e.ingest_ts == 0
            &&& e.valid_ts is None
            &&& wf_event(e)
        }
    })
}

fn parse_md(product: &Product) -> (r: Option<Event>)
    requires
        product.product_text.is_ascii(),
    ensures
        md_post(*product, r),
{
    let text = product.product_text.as_str();
    let id: u16 = match scan_number(text, "mesoscale discussion ", 0, 4, 4, "") {
        None => {
            return None;
        },
        Some(v) => {
            proof {
                let i = find_number(text@, "mesoscale discussion "@, 0, 4, 4, ""@)->0;
                lemma_first_at_some(
                    |j: int| number_at(text@, "mesoscale discussion "@, 0, 4, 4, ""@, j),
                    0,
                    text@.len() as int,
                    i,
                );
                lemma_run_all_digits(text@, i + "mesoscale discussion "@.len());
                let digits = number_digits(text@, "mesoscale discussion "@, 0, 4, i);
                assert(crate::text::all_digits(digits, 0, digits.len() as int));
                lemma_digits_val_bound(digits);
                lemma_pow10_mono(digits.len() as nat, 4);
                assert(pow10(4) == 10000) by {
                    reveal_with_fuel(pow10, 5);
                }
            }
            match v {
                Some(id) => id,
                None => {
                    // dead arm: the bounded digit run always fits
                    proof {
                        assert(false);
                    }
                    return None;
                },
            }
        },
    };
    let watch_issuance_probability: Option<u16> = match scan_number(
        text,
        "probability of watch issuance",
        3,
        1,
        3,
        " percent",
    ) {
        None => None,
        Some(v) => {
            proof {
                let i = find_number(
                    text@,
                    "probability of watch issuance"@,
                    3,
                    1,
                    3,
                    " percent"@,
                )->0;
                lemma_first_at_some(
                    |j: int|
                        number_at(text@, "probability of watch issuance"@, 3, 1, 3, " percent"@, j),
                    0,
                    text@.len() as int,
                    i,
                );
                lemma_run_all_digits(text@, i + "probability of watch issuance"@.len() + 3);
                let digits = number_digits(text@, "probability of watch issuance"@, 3, 3, i);
                assert(crate::text::all_digits(digits, 0, digits.len() as int));
                lemma_digits_val_bound(digits);
                lemma_pow10_mono(digits.len() as nat, 3);
                assert(pow10(3) == 1000) by {
                    reveal_with_fuel(pow10, 4);
                }
            }
            match v {
                Some(p) => Some(p),
                None => {
                    // dead arm: the bounded digit run always fits
                    proof {
                        assert(false);
                    }
                    return None;
                },
            }
        },
    };
    let affected_raw = match scan_block(text, "areas affected...", 0, "", 0, 0, "\n\n") {
        Some(c) => c,
        None => {
            return None;
        },
    };
    proof {
        reveal_strlit("\n");
        reveal_strlit(" ");
        assert("\n"@.len() == 1);
        assert(" ".is_ascii());
    }
    let affected = replace_string(affected_raw.as_str(), "\n", " ");
    let wfos_raw = match scan_block(text, "attn", 3, "wfo", 3, 0, "\n\n") {
        Some(c) => c,
        None => {
            return None;
        },
    };
    proof {
        reveal_strlit("...");
        assert("..."@.len() == 3);
    }
    let pieces = split_string(wfos_raw.as_str(), "...");
    let mut wfos: Vec<String> = Vec::new();
    let mut pi: usize = 0;
    while pi < pieces.len()
        invariant
            pi <= pieces@.len(),
            wfos.deep_view() == nonempty_pieces(pieces.deep_view().subrange(0, pi as int)),
        decreases pieces@.len() - pi,
    {
        proof {
            assert(pieces.deep_view().subrange(0, pi + 1).drop_last() =~= pieces.deep_view()
                .subrange(0, pi as int));
            assert(pieces.deep_view().subrange(0, pi + 1).last() == pieces.deep_view()[pi as int]);
        }
        if pieces[pi].as_str().unicode_len() != 0 {
            wfos.push(pieces[pi].clone());
            proof {
                assert(wfos.deep_view() =~= nonempty_pieces(
                    pieces.deep_view().subrange(0, pi + 1),
                ));
            }
        } else {
            proof {
                assert(wfos.deep_view() =~= nonempty_pieces(
                    pieces.deep_view().subrange(0, pi + 1),
                ));
            }
        }
        pi += 1;
    }
    proof {
        assert(pieces.deep_view().subrange(0, pieces.deep_view().len() as int) =~= pieces
            .deep_view());
    }
    let cond = scan_cond(text);
    let poly = pairs_to_coords(&cond);
    let event_ts = match ts_to_ticks(product.issuance_time.as_str()) {
        Some(t) => t,
        None => {
            return None;
        },
    };
    let concerning: MdConcerning;
    let title: String;
    if contains_at(text, "Concerning...Severe potential...Watch") {
        concerning = MdConcerning::NewSvrWatch;
        let p = match watch_issuance_probability {
            Some(p) => p,
            None => {
                return None;
            },
        };
        let mut t = String::from_str("SPC MD: Tstm Watch ");
        let ps = u64_string(p as u64);
        t.append(ps.as_str());
        t.append("%");
        title = t;
    } else if contains_at(text, "Concerning...Severe potential...Tornado Watch") {
        concerning = MdConcerning::NewTorWatch;
        let p = match watch_issuance_probability {
            Some(p) => p,
            None => {
                return None;
            },
        };
        let mut t = String::from_str("SPC MD: Tornado Watch ");
        let ps = u64_string(p as u64);
        t.append(ps.as_str());
        t.append("%");
        title = t;
    } else if contains_at(text, "Concerning...Severe Thunderstorm Watch") {
        concerning = MdConcerning::ExistingSvrWatch;
        title = String::from_str("SPC MD: Existing Tstm Watch");
    } else if contains_at(text, "Concerning...Tornado Watch") {
        concerning = MdConcerning::ExistingTorWatch;
        title = String::from_str("SPC MD: Existing Tornado Watch");
    } else {
        concerning = MdConcerning::Unknown;
        title = String::from_str("SPC Mesoscale Discussion");
    }
    let md = MesoscaleDiscussion {
        id,
        affected,
        concerning,
        watch_issuance_probability,
        wfos,
    };
    let location = Location { wfo: None, point: None, poly: Some(poly), county: None };
    let mut event = Event::new(event_ts, EventType::NwsSwo, title);
    event.location = Some(location);
    event.md = Some(md);
    event.text = Some(product.product_text.clone());
    Some(event)
}

/// Everything the outlook parser guarantees of its result.
pub open spec fn swo_post(product: Product, r: Option<Event>) -> bool {
    ({
        let text = product.product_text@;
        &&& !is_ascii_chars(text) ==> r is None
        &&& is_ascii_chars(text) ==> match swo_type_spec(text) {
            SwoType::Day1 => outlook_post(product, SwoType::Day1, r),
            SwoType::MesoscaleDiscussion => md_post(product, r),
            _ => r is None,
        }
    })
}

/// Parses a storm outlook narrative record: day-one outlooks and
/// mesoscale discussions produce events, every other sub-type none.
pub fn parse(product: &Product) -> (r: Option<Event>)
    ensures
        swo_post(*product, r),
{
    let text = product.product_text.as_str();
    if !text.is_ascii() {
        return None;
    }
    let swo_type = get_swo_type(text);
    match swo_type {
        SwoType::Day1 => parse_outlook(product, swo_type),
        SwoType::Day2 => None,
        SwoType::Day3 => None,
        SwoType::Day48 => None,
        SwoType::MesoscaleDiscussion => parse_md(product),
        SwoType::Unknown => None,
    }
}

} // verus!
