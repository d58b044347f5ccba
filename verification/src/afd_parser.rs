//! Area forecast discussion parser: narrative only, so the event carries
//! a timestamp, a synthesized title and an external reference, and fails
//! only on an unparseable issuance time.

use vstd::prelude::*;
use vstd::string::StringExecFns;
use crate::domain::{Event, EventType, Product, wf_event};
use crate::time_codec::{ts_ticks, ts_to_ticks};

verus! {

/// Everything the parser guarantees of its result.
pub open spec fn afd_post(product: Product, r: Option<Event>) -> bool {
    &&& (r is Some) == (ts_ticks(product.issuance_time@) is Some)
    &&& r matches Some(e) ==> {
        &&& e.event_ts == ts_ticks(product.issuance_time@)->0
        &&& e.event_type == EventType::NwsAfd
        &&& e.title@ == "Area Forecast Discussion ("@ + product.issuing_office@ + ")"@
        &&& e.ext_uri matches Some(u) && u@ == product._id@
        &&& e.expires_ts is None
        &&& e.ingest_ts == 0
        &&& e.location is None
        &&& e.md is None
        &&& e.outlook is None
        &&& e.report is None
        &&& e.text is None
        &&& e.valid_ts is None
        &&& e.warning is None
        &&& e.watch is None
        &&& wf_event(e)
    }
}

/// Parses an area forecast discussion record.
pub fn parse(product: &Product) -> (r: Option<Event>)
    ensures
        afd_post(*product, r),
{
    let event_ts = match ts_to_ticks(product.issuance_time.as_str()) {
        Some(t) => t,
        None => {
            return None;
        },
    };
    let mut title = String::from_str("Area Forecast Discussion (");
    title.append(product.issuing_office.as_str());
    title.append(")");
    let mut event = Event::new(event_ts, EventType::NwsAfd, title);
    event.ext_uri = Some(product._id.clone());
    Some(event)
}

} // verus!
