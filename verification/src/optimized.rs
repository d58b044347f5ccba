//! The compact wire form of the schema: the same field names and values
//! as the full form, with unset optionals simply absent from the
//! encoding.  The conversion in each direction is written out here and
//! proved lossless, so the wire layer can only ever omit, never rename
//! or restructure.

use vstd::prelude::*;
use crate::domain;
use crate::domain::{Coordinates, EventType, HazardType, MdConcerning, OutlookRisk, SwoType, Units,
    WatchStatus, WatchType};

verus! {

#[derive(Clone, Debug, Eq, PartialEq)]
#[verifier::ext_equal]
pub struct Location {
    pub wfo: Option<String>,
    pub point: Option<Coordinates>,
    pub poly: Option<Vec<Coordinates>>,
    pub county: Option<String>,
}

#[derive(Clone, Debug, Eq, PartialEq)]
#[verifier::ext_equal]
pub struct Report {
    pub reporter: String,
    pub hazard: HazardType,
    pub magnitude: Option<u64>,
    pub units: Option<Units>,
    pub was_measured: Option<bool>,
    pub report_ts: Option<u64>,
}

#[derive(Clone, Debug, Eq, PartialEq)]
#[verifier::ext_equal]
pub struct Watch {
    pub is_pds: bool,
    pub id: u16,
    pub watch_type: WatchType,
    pub status: WatchStatus,
    pub issued_for: Option<String>,
}

#[derive(Clone, Debug, Eq, PartialEq)]
#[verifier::ext_equal]
pub struct Warning {
    pub is_pds: bool,
    pub is_tor_emergency: Option<bool>,
    pub was_observed: Option<bool>,
    pub issued_for: String,
    pub motion_deg: Option<u16>,
    pub motion_kt: Option<u16>,
    pub source: Option<String>,
    pub time: String,
}

#[derive(Clone, Debug, Eq, PartialEq)]
#[verifier::ext_equal]
pub struct Outlook {
    pub swo_type: SwoType,
    pub max_risk: OutlookRisk,
    pub polys: Option<Vec<(OutlookRisk, Vec<Coordinates>)>>,
}

#[derive(Clone, Debug, Eq, PartialEq)]
#[verifier::ext_equal]
pub struct MesoscaleDiscussion {
    pub id: u16,
    pub affected: String,
    pub concerning: MdConcerning,
    pub watch_issuance_probability: Option<u16>,
    pub wfos: Vec<String>,
}

/// The compact event: field for field the full event, in the order the
/// wire writes them.
#[derive(Clone, Debug, PartialEq)]
#[verifier::ext_equal]
pub struct OptimizedEvent {
    pub event_ts: u64,
    pub event_type: EventType,
    pub expires_ts: Option<u64>,
    pub ext_uri: Option<String>,
    pub ingest_ts: u128,
    pub location: Option<Location>,
    pub md: Option<MesoscaleDiscussion>,
    pub outlook: Option<Outlook>,
    pub report: Option<Report>,
    pub text: Option<String>,
    pub title: String,
    pub valid_ts: Option<u64>,
    pub warning: Option<Warning>,
    pub watch: Option<Watch>,
}

/// Encoding of a full event into the compact form.
pub open spec fn compact_of(e: domain::Event) -> OptimizedEvent {
    OptimizedEvent {
        event_ts: e.event_ts,
        event_type: e.event_type,
        expires_ts: e.expires_ts,
        ext_uri: e.ext_uri,
        ingest_ts: e.ingest_ts,
        location: match e.location {
            None => None,
            Some(l) => Some(
                Location { wfo: l.wfo, point: l.point, poly: l.poly, county: l.county },
            ),
        },
        md: match e.md {
            None => None,
            Some(m) => Some(
                MesoscaleDiscussion {
                    id: m.id,
                    affected: m.affected,
                    concerning: m.concerning,
                    watch_issuance_probability: m.watch_issuance_probability,
                    wfos: m.wfos,
                },
            ),
        },
        outlook: match e.outlook {
            None => None,
            Some(o) => Some(
                Outlook { swo_type: o.swo_type, max_risk: o.max_risk, polys: o.polys },
            ),
        },
        report: match e.report {
            None => None,
            Some(r) => Some(
                Report {
                    reporter: r.reporter,
                    hazard: r.hazard,
                    magnitude: r.magnitude,
                    units: r.units,
                    was_measured: r.was_measured,
                    report_ts: r.report_ts,
                },
            ),
        },
        text: e.text,
        title: e.title,
        valid_ts: e.valid_ts,
        warning: match e.warning {
            None => None,
            Some(w) => Some(
                Warning {
                    is_pds: w.is_pds,
                    is_tor_emergency: w.is_tor_emergency,
                    was_observed: w.was_observed,
                    issued_for: w.issued_for,
                    motion_deg: w.motion_deg,
                    motion_kt: w.motion_kt,
                    source: w.source,
                    time: w.time,
                },
            ),
        },
        watch: match e.watch {
            None => None,
            Some(w) => Some(
                Watch {
                    is_pds: w.is_pds,
                    id: w.id,
                    watch_type: w.watch_type,
                    status: w.status,
                    issued_for: w.issued_for,
                },
            ),
        },
    }
}

/// Decoding of the compact form back into a full event.
pub open spec fn event_of(o: OptimizedEvent) -> domain::Event {
    domain::Event {
        event_ts: o.event_ts,
        event_type: o.event_type,
        expires_ts: o.expires_ts,
        ext_uri: o.ext_uri,
        ingest_ts: o.ingest_ts,
        location: match o.location {
            None => None,
            Some(l) => Some(
                domain::Location { wfo: l.wfo, point: l.point, poly: l.poly, county: l.county },
            ),
        },
        md: match o.md {
            None => None,
            Some(m) => Some(
                domain::MesoscaleDiscussion {
                    id: m.id,
                    affected: m.affected,
                    concerning: m.concerning,
                    watch_issuance_probability: m.watch_issuance_probability,
                    wfos: m.wfos,
                },
            ),
        },
        outlook: match o.outlook {
            None => None,
            Some(ol) => Some(
                domain::Outlook { swo_type: ol.swo_type, max_risk: ol.max_risk, polys: ol.polys },
            ),
        },
        report: match o.report {
            None => None,
            Some(r) => Some(
                domain::Report {
                    reporter: r.reporter,
                    hazard: r.hazard,
                    magnitude: r.magnitude,
                    units: r.units,
                    was_measured: r.was_measured,
                    report_ts: r.report_ts,
                },
            ),
        },
        text: o.text,
        title: o.title,
        valid_ts: o.valid_ts,
        warning: match o.warning {
            None => None,
            Some(w) => Some(
                domain::Warning {
                    is_pds: w.is_pds,
                    is_tor_emergency: w.is_tor_emergency,
                    was_observed: w.was_observed,
                    issued_for: w.issued_for,
                    motion_deg: w.motion_deg,
                    motion_kt: w.motion_kt,
                    source: w.source,
                    time: w.time,
                },
            ),
        },
        watch: match o.watch {
            None => None,
            Some(w) => Some(
                domain::Watch {
                    is_pds: w.is_pds,
                    id: w.id,
                    watch_type: w.watch_type,
                    status: w.status,
                    issued_for: w.issued_for,
                },
            ),
        },
    }
}

/// Round trip: encoding any event to the compact form and decoding it
/// back is lossless, for every field, populated or not.
pub proof fn lemma_compact_round_trip(e: domain::Event)
    ensures
        event_of(compact_of(e)) == e,
{
    assert(event_of(compact_of(e)) =~~= e);
}

/// Encodes an event into its compact form.
pub fn to_compact(e: domain::Event) -> (r: OptimizedEvent)
    ensures
        r == compact_of(e),
{
    OptimizedEvent {
        event_ts: e.event_ts,
        event_type: e.event_type,
        expires_ts: e.expires_ts,
        ext_uri: e.ext_uri,
        ingest_ts: e.ingest_ts,
        location: match e.location {
            None => None,
            Some(l) => Some(
                Location { wfo: l.wfo, point: l.point, poly: l.poly, county: l.county },
            ),
        },
        md: match e.md {
            None => None,
            Some(m) => Some(
                MesoscaleDiscussion {
                    id: m.id,
                    affected: m.affected,
                    concerning: m.concerning,
                    watch_issuance_probability: m.watch_issuance_probability,
                    wfos: m.wfos,
                },
            ),
        },
        outlook: match e.outlook {
            None => None,
            Some(o) => Some(
                Outlook { swo_type: o.swo_type, max_risk: o.max_risk, polys: o.polys },
            ),
        },
        report: match e.report {
            None => None,
            Some(r) => Some(
                Report {
                    reporter: r.reporter,
                    hazard: r.hazard,
                    magnitude: r.magnitude,
                    units: r.units,
                    was_measured: r.was_measured,
                    report_ts: r.report_ts,
                },
            ),
        },
        text: e.text,
        title: e.title,
        valid_ts: e.valid_ts,
        warning: match e.warning {
            None => None,
            Some(w) => Some(
                Warning {
                    is_pds: w.is_pds,
                    is_tor_emergency: w.is_tor_emergency,
                    was_observed: w.was_observed,
                    issued_for: w.issued_for,
                    motion_deg: w.motion_deg,
                    motion_kt: w.motion_kt,
                    source: w.source,
                    time: w.time,
                },
            ),
        },
        watch: match e.watch {
            None => None,
            Some(w) => Some(
                Watch {
                    is_pds: w.is_pds,
                    id: w.id,
                    watch_type: w.watch_type,
                    status: w.status,
                    issued_for: w.issued_for,
                },
            ),
        },
    }
}

/// Decodes a compact event back into the full form.
pub fn from_compact(o: OptimizedEvent) -> (r: domain::Event)
    ensures
        r == event_of(o),
{
    domain::Event {
        event_ts: o.event_ts,
        event_type: o.event_type,
        expires_ts: o.expires_ts,
        ext_uri: o.ext_uri,
        ingest_ts: o.ingest_ts,
        location: match o.location {
            None => None,
            Some(l) => Some(
                domain::Location { wfo: l.wfo, point: l.point, poly: l.poly, county: l.county },
            ),
        },
        md: match o.md {
            None => None,
            Some(m) => Some(
                domain::MesoscaleDiscussion {
                    id: m.id,
                    affected: m.affected,
                    concerning: m.concerning,
                    watch_issuance_probability: m.watch_issuance_probability,
                    wfos: m.wfos,
                },
            ),
        },
        outlook: match o.outlook {
            None => None,
            Some(ol) => Some(
                domain::Outlook { swo_type: ol.swo_type, max_risk: ol.max_risk, polys: ol.polys },
            ),
        },
        report: match o.report {
            None => None,
            Some(r) => Some(
                domain::Report {
                    reporter: r.reporter,
                    hazard: r.hazard,
                    magnitude: r.magnitude,
                    units: r.units,
                    was_measured: r.was_measured,
                    report_ts: r.report_ts,
                },
            ),
        },
        text: o.text,
        title: o.title,
        valid_ts: o.valid_ts,
        warning: match o.warning {
            None => None,
            Some(w) => Some(
                domain::Warning {
                    is_pds: w.is_pds,
                    is_tor_emergency: w.is_tor_emergency,
                    was_observed: w.was_observed,
                    issued_for: w.issued_for,
                    motion_deg: w.motion_deg,
                    motion_kt: w.motion_kt,
                    source: w.source,
                    time: w.time,
                },
            ),
        },
        watch: match o.watch {
            None => None,
            Some(w) => Some(
                domain::Watch {
                    is_pds: w.is_pds,
                    id: w.id,
                    watch_type: w.watch_type,
                    status: w.status,
                    issued_for: w.issued_for,
                },
            ),
        },
    }
}

} // verus!
