//! Severe thunderstorm warning parser: movement vector, polygon, validity
//! window, optional source phrase and the "warning for" location list.
//! The tornado-only escalation fields stay unset.

use vstd::prelude::*;
use vstd::string::StringExecFns;
use crate::coord::latlon_spec;
use crate::domain::{Coordinates, Event, EventType, Location, Product, Warning, wf_event};
use crate::parser_util::{pairs_to_coords, scan_warning_for, warning_for_spec};
use crate::patterns::{
    find_movement, find_src, find_valid, lemma_first_at_some, movement_at, mv_deg_digits,
    mv_kt_digits, mv_lat, mv_lat_start, mv_lon, mv_time, poly_pairs, scan_movement, scan_poly,
    scan_source, scan_valid, src_content, valid_end, valid_start,
};
use crate::text::{contains_ci, contains_ci_at, digits_val, is_digit};
use crate::time_codec::{short_ticks, short_time_to_ticks, ts_ticks, ts_to_ticks};
use vstd::utf8::is_ascii_chars;

verus! {

broadcast use vstd::string::group_string_axioms;

/// The optional source phrase.
pub open spec fn source_spec(text: Seq<char>) -> Option<Seq<char>> {
    match find_src(text) {
        None => None,
        Some(i) => Some(src_content(text, i)),
    }
}

/// The decoded center point of the movement vector found at `i`.
pub open spec fn mv_point(text: Seq<char>, i: int) -> Coordinates {
    Coordinates {
        lat: latlon_spec(mv_lat(text, i), false) as i64,
        lon: latlon_spec(mv_lon(text, i), true) as i64,
    }
}

/// Everything the parser guarantees of its result.
pub open spec fn svr_post(product: Product, r: Option<Event>) -> bool {
    ({
        let text = product.product_text@;
        &&& (r is Some) == ({
            &&& is_ascii_chars(text)
            &&& find_movement(text) is Some
            &&& digits_val(mv_deg_digits(text, find_movement(text)->0)) <= 65535
            &&& digits_val(mv_kt_digits(text, find_movement(text)->0)) <= 65535
            &&& find_valid(text) is Some
            &&& warning_for_spec(text) is Some
            &&& short_ticks(valid_start(text, find_valid(text)->0)) is Some
            &&& ts_ticks(product.issuance_time@) is Some
            &&& short_ticks(valid_end(text, find_valid(text)->0)) is Some
        })
        &&& r matches Some(e) ==> {
            let mi = find_movement(text)->0;
            &&& e.event_ts == ts_ticks(product.issuance_time@)->0
            &&& e.event_type == EventType::NwsSvr
            &&& e.valid_ts == Some(short_ticks(valid_start(text, find_valid(text)->0))->0)
            &&& e.expires_ts == Some(short_ticks(valid_end(text, find_valid(text)->0))->0)
            &&& e.title@ == "Severe Thunderstorm Warning ("@ + product.issuing_office@ + ")"@
            &&& e.location matches Some(l) && {
                &&& l.wfo matches Some(w) && w@ == product.issuing_office@
                &&& l.point == Some(mv_point(text, mi))
                &&& l.county is None
                &&& l.poly matches Some(p) && {
                    &&& p@.len() == poly_pairs(text, 0, 4).len()
                    &&& forall|q: int|
                        0 <= q < p@.len() ==> {
                            &&& (#[trigger] p@[q]).lat as int == latlon_spec(
                                poly_pairs(text, 0, 4)[q].0,
                                false,
                            )
                            &&& p@[q].lon as int == latlon_spec(poly_pairs(text, 0, 4)[q].1, true)
                        }
                }
            }
            &&& e.warning matches Some(w) && {
                &&& w.is_pds == contains_ci(text, "particularly dangerous situation"@)
                &&& w.is_tor_emergency is None
                &&& w.was_observed is None
                &&& w.motion_deg matches Some(d) && d as int == digits_val(mv_deg_digits(text, mi))
                &&& w.motion_kt matches Some(k) && k as int == digits_val(mv_kt_digits(text, mi))
                &&& match (w.source, source_spec(text)) {
                    (Some(a), Some(b)) => a@ == b,
                    (None, None) => true,
                    _ => false,
                }
                &&& w.issued_for@ == warning_for_spec(text)->0
                &&& w.time@ == mv_time(text, mi)
            }
            &&& e.text matches Some(t) && t@ == text
            &&& e.ext_uri is None
            &&& e.ingest_ts == 0
            &&& wf_event(e)
        }
    })
}

/// Parses a severe thunderstorm warning record.
pub fn parse(product: &Product) -> (r: Option<Event>)
    ensures
        svr_post(*product, r),
{
    let text = product.product_text.as_str();
    if !text.is_ascii() {
        return None;
    }
    let movement = match scan_movement(text) {
        Some(m) => m,
        None => {
            return None;
        },
    };
    let motion_deg = match movement.deg {
        Some(d) => d,
        None => {
            return None;
        },
    };
    let motion_kt = match movement.kt {
        Some(k) => k,
        None => {
            return None;
        },
    };
    proof {
        let i = find_movement(text@)->0;
        lemma_first_at_some(|j: int| movement_at(text@, j), 0, text@.len() as int, i);
        assert forall|k: int| 0 <= k < movement.lat@.len() implies is_digit(
            #[trigger] movement.lat@[k],
        ) by {
            assert(movement.lat@[k] == text@[mv_lat_start(text@, i) + k]);
        }
        assert forall|k: int| 0 <= k < movement.lon@.len() implies is_digit(
            #[trigger] movement.lon@[k],
        ) by {
            assert(movement.lon@[k] == text@[mv_lat_start(text@, i) + 5 + k]);
            if k == 4 {
                assert(is_digit(text@[mv_lat_start(text@, i) + 9]));
            }
        }
        assert(movement.lat@.len() == 4);
        assert(4 <= movement.lon@.len() <= 5);
    }
    let lat = crate::coord::str_to_latlon(movement.lat.as_str(), false);
    let lon = crate::coord::str_to_latlon(movement.lon.as_str(), true);
    let source: Option<String> = scan_source(text);
    let (valid_from, valid_to) = match scan_valid(text) {
        Some(p) => p,
        None => {
            return None;
        },
    };
    let issued_for = match scan_warning_for(text) {
        Some(v) => v,
        None => {
            return None;
        },
    };
    let pairs = scan_poly(text, 4);
    let poly = pairs_to_coords(&pairs);
    let valid_ts = match short_time_to_ticks(valid_from.as_str()) {
        Some(t) => t,
        None => {
            return None;
        },
    };
    let event_ts = match ts_to_ticks(product.issuance_time.as_str()) {
        Some(t) => t,
        None => {
            return None;
        },
    };
    let expires_ts = match short_time_to_ticks(valid_to.as_str()) {
        Some(t) => t,
        None => {
            return None;
        },
    };
    let mut title = String::from_str("Severe Thunderstorm Warning (");
    title.append(product.issuing_office.as_str());
    title.append(")");
    let location = Location {
        wfo: Some(product.issuing_office.clone()),
        point: Some(Coordinates { lat, lon }),
        poly: Some(poly),
        county: None,
    };
    let warning = Warning {
        is_pds: contains_ci_at(text, "particularly dangerous situation"),
        is_tor_emergency: None,
        was_observed: None,
        issued_for,
        motion_deg: Some(motion_deg),
        motion_kt: Some(motion_kt),
        source,
        time: movement.time,
    };
    let mut event = Event::new(event_ts, EventType::NwsSvr, title);
    event.expires_ts = Some(expires_ts);
    event.valid_ts = Some(valid_ts);
    event.location = Some(location);
    event.warning = Some(warning);
    event.text = Some(product.product_text.clone());
    Some(event)
}

} // verus!
