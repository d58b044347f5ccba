//! Severe weather statement parser: a filter, not a general parser.  An
//! event is produced only when the statement carries a tornado emergency
//! or a particularly-dangerous-situation escalation; anything else is
//! routine and yields nothing.

use vstd::prelude::*;
use vstd::string::StringExecFns;
use crate::domain::{Event, EventType, Location, Product, wf_event};
use crate::text::{contains_ci, contains_ci_at};
use crate::time_codec::{ts_ticks, ts_to_ticks};
use vstd::utf8::is_ascii_chars;

verus! {

/// The title fragment naming which escalations matched.
pub open spec fn svs_fragment(te: bool, pds: bool) -> Seq<char> {
    if te {
        if pds {
            "PDS Tor Emergency"@
        } else {
            "Tornado Emergency"@
        }
    } else {
        "PDS Tornado"@
    }
}

/// Everything the parser guarantees of its result.
pub open spec fn svs_post(product: Product, r: Option<Event>) -> bool {
    ({
        let text = product.product_text@;
        let te = contains_ci(text, "tornado emergency"@);
        let pds = contains_ci(text, "particularly dangerous situation"@);
        &&& (r is Some) == (is_ascii_chars(text) && (te || pds) && ts_ticks(
            product.issuance_time@,
        ) is Some)
        &&& r matches Some(e) ==> {
            &&& e.event_ts == ts_ticks(product.issuance_time@)->0
            &&& e.event_type == EventType::NwsSvs
            &&& e.title@ == product.issuing_office@ + " SVS: "@ + svs_fragment(te, pds)
            &&& e.location matches Some(l) && {
                &&& l.wfo matches Some(w) && w@ == product.issuing_office@
                &&& l.point is None
                &&& l.poly is None
                &&& l.county is None
            }
            &&& e.text matches Some(t) && t@ == text
            &&& e.expires_ts is None
            &&& e.ext_uri is None
            &&& e.ingest_ts == 0
            &&& e.valid_ts is None
        &&& wf_event(e)
        }
    })
}

/// Parses a severe weather statement record.
pub fn parse(product: &Product) -> (r: Option<Event>)
    ensures
        svs_post(*product, r),
{
    let text = product.product_text.as_str();
    if !text.is_ascii() {
        return None;
    }
    let is_tor_emergency = contains_ci_at(text, "tornado emergency");
    let is_pds = contains_ci_at(text, "particularly dangerous situation");
    if !is_tor_emergency && !is_pds {
        return None;
    }
    let event_ts = match ts_to_ticks(product.issuance_time.as_str()) {
        Some(t) => t,
        None => {
            return None;
        },
    };
    let fragment: &str = if is_tor_emergency {
        if is_pds {
            "PDS Tor Emergency"
        } else {
            "Tornado Emergency"
        }
    } else {
        "PDS Tornado"
    };
    let mut title = product.issuing_office.clone();
    title.append(" SVS: ");
    title.append(fragment);
    let location = Location {
        wfo: Some(product.issuing_office.clone()),
        point: None,
        poly: None,
        county: None,
    };
    let mut event = Event::new(event_ts, EventType::NwsSvs, title);
    event.location = Some(location);
    event.text = Some(product.product_text.clone());
    Some(event)
}

} // verus!
