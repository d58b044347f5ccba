//! The shared output data model: every parser produces an `Event`, and the
//! event type tag selects which optional substructures are meaningful.
//!
//! Coordinates are exact integers in microdegrees and magnitudes exact
//! integers in hundredths of the reported unit, so no field loses
//! precision between parsing and serving.

use vstd::prelude::*;

verus! {

/// A single latitude/longitude pair, both in signed microdegrees.
#[derive(Clone, Copy, Debug, Eq, PartialEq, Structural)]
pub struct Coordinates {
    pub lat: i64,
    pub lon: i64,
}

#[derive(Clone, Copy, Debug, Eq, PartialEq, Structural)]
pub enum EventType {
    SnReport,
    SpcSfcoa,
    NwsAfd,
    NwsFfa,
    NwsFla,
    NwsFfw,
    NwsFlw,
    NwsLsr,
    NwsPts,
    NwsSel,
    NwsSev,
    NwsSvr,
    NwsSvs,
    NwsSwo,
    NwsTor,
}

/// The fixed hazard vocabulary shared by spotter reports and storm reports.
#[derive(Clone, Copy, Debug, Eq, PartialEq, Structural)]
pub enum HazardType {
    Tornado,
    Funnel,
    WallCloud,
    Hail,
    Wind,
    Flood,
    FlashFlood,
    Other,
    FreezingRain,
    Snow,
    Downburst,
    HeavyRain,
    MarineWind,
    Lightning,
    Waterspout,
    Wildfire,
}

#[derive(Clone, Copy, Debug, Eq, PartialEq, Structural)]
pub enum Units {
    Knots,
    Mph,
    Inches,
}

#[derive(Clone, Debug, Eq, PartialEq)]
#[verifier::ext_equal]
pub struct Location {
    pub wfo: Option<String>,
    pub point: Option<Coordinates>,
    pub poly: Option<Vec<Coordinates>>,
    pub county: Option<String>,
}

#[derive(Clone, Debug, Eq, PartialEq)]
#[verifier::ext_equal]
pub struct Report {
    pub reporter: String,
    pub hazard: HazardType,
    /// Magnitude in hundredths of the unit, kept exact.
    pub magnitude: Option<u64>,
    pub units: Option<Units>,
    pub was_measured: Option<bool>,
    /// Only populated for government storm reports, never for spotter
    /// reports.
    pub report_ts: Option<u64>,
}

#[derive(Clone, Copy, Debug, Eq, PartialEq, Structural)]
pub enum WatchType {
    Tornado,
    SevereThunderstorm,
    Other,
}

#[derive(Clone, Copy, Debug, Eq, PartialEq, Structural)]
pub enum WatchStatus {
    Issued,
    Cancelled,
    Unknown,
}

#[derive(Clone, Debug, Eq, PartialEq)]
#[verifier::ext_equal]
pub struct Watch {
    pub is_pds: bool,
    pub id: u16,
    pub watch_type: WatchType,
    pub status: WatchStatus,
    pub issued_for: Option<String>,
}

#[derive(Clone, Debug, Eq, PartialEq)]
#[verifier::ext_equal]
pub struct Warning {
    pub is_pds: bool,
    /// Tornado warnings only.
    pub is_tor_emergency: Option<bool>,
    /// Tornado warnings only.
    pub was_observed: Option<bool>,
    pub issued_for: String,
    /// Tornado and severe-thunderstorm warnings only.
    pub motion_deg: Option<u16>,
    /// Tornado and severe-thunderstorm warnings only.
    pub motion_kt: Option<u16>,
    /// Tornado and severe-thunderstorm warnings only.
    pub source: Option<String>,
    pub time: String,
}

#[derive(Clone, Copy, Debug, Eq, PartialEq, Structural)]
pub enum SwoType {
    Day1,
    Day2,
    Day3,
    Day48,
    MesoscaleDiscussion,
    Unknown,
}

#[derive(Clone, Copy, Debug, Eq, PartialEq, Structural)]
pub enum OutlookRisk {
    TSTM,
    MRGL,
    SLGT,
    ENH,
    MDT,
    HIGH,
}

/// A convective outlook; the per-risk polygon list maps each risk level
/// to its vertex run, with unique keys.
#[derive(Clone, Debug, Eq, PartialEq)]
#[verifier::ext_equal]
pub struct Outlook {
    pub swo_type: SwoType,
    pub max_risk: OutlookRisk,
    pub polys: Option<Vec<(OutlookRisk, Vec<Coordinates>)>>,
}

#[derive(Clone, Copy, Debug, Eq, PartialEq, Structural)]
pub enum MdConcerning {
    ExistingTorWatch,
    ExistingSvrWatch,
    NewTorWatch,
    NewSvrWatch,
    Unknown,
}

#[derive(Clone, Debug, Eq, PartialEq)]
#[verifier::ext_equal]
pub struct MesoscaleDiscussion {
    pub id: u16,
    pub affected: String,
    pub concerning: MdConcerning,
    pub watch_issuance_probability: Option<u16>,
    pub wfos: Vec<String>,
}

/// The universal output record.
#[derive(Clone, Debug, PartialEq)]
#[verifier::ext_equal]
pub struct Event {
    pub event_ts: u64,
    pub event_type: EventType,
    pub expires_ts: Option<u64>,
    pub ext_uri: Option<String>,
    /// Assigned only by the storage collaborator; zero at parser output.
    pub ingest_ts: u128,
    pub location: Option<Location>,
    pub md: Option<MesoscaleDiscussion>,
    pub outlook: Option<Outlook>,
    pub report: Option<Report>,
    pub text: Option<String>,
    pub title: String,
    pub valid_ts: Option<u64>,
    pub warning: Option<Warning>,
    pub watch: Option<Watch>,
}

impl Event {
    /// A bare event: the required fields set, every optional field unset
    /// and the ingest stamp zero.
    pub fn new(event_ts: u64, event_type: EventType, title: String) -> (e: Event)
        ensures
            e.event_ts == event_ts,
            e.event_type == event_type,
            e.title == title,
            e.expires_ts is None,
            e.ext_uri is None,
            e.ingest_ts == 0,
            e.location is None,
            e.md is None,
            e.outlook is None,
            e.report is None,
            e.text is None,
            e.valid_ts is None,
            e.warning is None,
            e.watch is None,
    {
        Event {
            event_ts,
            event_type,
            expires_ts: None,
            ext_uri: None,
            ingest_ts: 0,
            location: None,
            md: None,
            outlook: None,
            report: None,
            text: None,
            title,
            valid_ts: None,
            warning: None,
            watch: None,
        }
    }
}

/// The variant-to-substructure rule: no parser sets substructures outside
/// its event type's set.
pub open spec fn wf_event(e: Event) -> bool {
    match e.event_type {
        EventType::SnReport | EventType::NwsLsr => e.warning is None && e.watch is None
            && e.outlook is None && e.md is None,
        EventType::NwsFfw | EventType::NwsSvr | EventType::NwsTor => e.report is None
            && e.watch is None && e.outlook is None && e.md is None,
        EventType::NwsSel => e.report is None && e.warning is None && e.outlook is None
            && e.md is None && e.location is None,
        EventType::NwsSwo => e.report is None && e.warning is None && e.watch is None,
        EventType::NwsAfd => e.report is None && e.warning is None && e.watch is None
            && e.outlook is None && e.md is None && e.location is None,
        EventType::NwsSvs => e.report is None && e.warning is None && e.watch is None
            && e.outlook is None && e.md is None,
        _ => true,
    }
}

/// A raw bulletin record as the product feed hands it over.
#[derive(Clone, Debug, PartialEq)]
pub struct Product {
    pub _id: String,
    pub id: String,
    pub wmo_collective_id: String,
    pub issuing_office: String,
    pub issuance_time: String,
    pub product_code: String,
    pub product_name: String,
    pub product_text: String,
}

/// One entry of the product listing returned by the feed.
#[derive(Clone, Debug, PartialEq)]
pub struct ListProduct {
    pub _id: String,
    pub id: String,
    pub wmo_collective_id: String,
    pub issuing_office: String,
    pub issuance_time: String,
    pub product_code: String,
    pub product_name: String,
}

/// The envelope of the product listing.
#[derive(Clone, Debug, PartialEq)]
pub struct Context {
    pub _vocab: String,
}

#[derive(Clone, Debug, PartialEq)]
pub struct ProductsResult {
    pub _context: Context,
    pub products: Vec<ListProduct>,
}

} // verus!
