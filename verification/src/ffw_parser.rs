//! Flash flood warning parser: polygon vertices, validity window and the
//! "warning for" location list.  Flash floods carry no movement vector,
//! so the warning's clock field holds a sentinel and the motion fields
//! stay unset.

use vstd::prelude::*;
use vstd::string::StringExecFns;
use crate::coord::latlon_spec;
use crate::domain::{Event, EventType, Location, Product, Warning, wf_event};
use crate::parser_util::{pairs_to_coords, scan_warning_for, warning_for_spec};
use crate::patterns::{find_valid, poly_pairs, scan_poly, scan_valid, valid_end, valid_start};
use crate::text::contains_ci;
use crate::time_codec::{short_ticks, short_time_to_ticks, ts_ticks, ts_to_ticks};
use vstd::utf8::is_ascii_chars;

verus! {

broadcast use vstd::string::group_string_axioms;

/// Everything the parser guarantees of its result.
pub open spec fn ffw_post(product: Product, r: Option<Event>) -> bool {
    ({
        let text = product.product_text@;
        &&& (r is Some) == ({
            &&& is_ascii_chars(text)
            &&& find_valid(text) is Some
            &&& warning_for_spec(text) is Some
            &&& short_ticks(valid_start(text, find_valid(text)->0)) is Some
            &&& ts_ticks(product.issuance_time@) is Some
            &&& short_ticks(valid_end(text, find_valid(text)->0)) is Some
        })
        &&& r matches Some(e) ==> {
            &&& e.event_ts == ts_ticks(product.issuance_time@)->0
            &&& e.event_type == EventType::NwsFfw
            &&& e.valid_ts == Some(short_ticks(valid_start(text, find_valid(text)->0))->0)
            &&& e.expires_ts == Some(short_ticks(valid_end(text, find_valid(text)->0))->0)
            &&& e.title@ == "Flash Flood Warning ("@ + product.issuing_office@ + ")"@
            &&& e.location matches Some(l) && {
                &&& l.wfo matches Some(w) && w@ == product.issuing_office@
                &&& l.point is None
                &&& l.county is None
                &&& l.poly matches Some(p) && {
                    &&& p@.len() == poly_pairs(text, 0, text.len() as int).len()
                    &&& forall|q: int|
                        0 <= q < p@.len() ==> {
                            &&& (#[trigger] p@[q]).lat as int == latlon_spec(
                                poly_pairs(text, 0, text.len() as int)[q].0,
                                false,
                            )
                            &&& p@[q].lon as int == latlon_spec(
                                poly_pairs(text, 0, text.len() as int)[q].1,
                                true,
                            )
                        }
                }
            }
            &&& e.warning matches Some(w) && {
                &&& w.is_pds == contains_ci(text, "particularly dangerous situation"@)
                &&& w.is_tor_emergency is None
                &&& w.was_observed is None
                &&& w.motion_deg is None
                &&& w.motion_kt is None
                &&& w.source is None
                &&& w.issued_for@ == warning_for_spec(text)->0
                &&& w.time@ == "N/A"@
            }
            &&& e.text matches Some(t) && t@ == text
            &&& e.ext_uri is None
            &&& e.ingest_ts == 0
            &&& wf_event(e)
        }
    })
}

/// Parses a flash flood warning record.
pub fn parse(product: &Product) -> (r: Option<Event>)
    ensures
        ffw_post(*product, r),
{
    let text = product.product_text.as_str();
    if !text.is_ascii() {
        return None;
    }
    let (valid_from, valid_to) = match scan_valid(text) {
        Some(p) => p,
        None => {
            return None;
        },
    };
    let issued_for = match scan_warning_for(text) {
        Some(v) => v,
        None => {
            return None;
        },
    };
    let tlen = crate::text::str_len(text);
    let pairs = scan_poly(text, tlen);
    let poly = pairs_to_coords(&pairs);
    let valid_ts = match short_time_to_ticks(valid_from.as_str()) {
        Some(t) => t,
        None => {
            return None;
        },
    };
    let event_ts = match ts_to_ticks(product.issuance_time.as_str()) {
        Some(t) => t,
        None => {
            return None;
        },
    };
    let expires_ts = match short_time_to_ticks(valid_to.as_str()) {
        Some(t) => t,
        None => {
            return None;
        },
    };
    let mut title = String::from_str("Flash Flood Warning (");
    title.append(product.issuing_office.as_str());
    title.append(")");
    let location = Location {
        wfo: Some(product.issuing_office.clone()),
        point: None,
        poly: Some(poly),
        county: None,
    };
    let warning = Warning {
        is_pds: crate::text::contains_ci_at(text, "particularly dangerous situation"),
        is_tor_emergency: None,
        was_observed: None,
        issued_for,
        motion_deg: None,
        motion_kt: None,
        source: None,
        time: String::from_str("N/A"),
    };
    let mut event = Event::new(event_ts, EventType::NwsFfw, title);
    event.expires_ts = Some(expires_ts);
    event.valid_ts = Some(valid_ts);
    event.location = Some(location);
    event.warning = Some(warning);
    event.text = Some(product.product_text.clone());
    Some(event)
}

} // verus!
