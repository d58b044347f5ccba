//! Severe-weather bulletin ingestion core.
//!
//! Raw bulletin records from a forecast-office product feed and raw report
//! lines from a volunteer spotter network are converted into one normalized
//! `Event` record.  The work is done by a dispatcher that routes each record
//! by product code to one of several per-format parsers; the parsers share a
//! catalog of text patterns, a coordinate codec and a time codec.
//!
//! Latitudes and longitudes are held in microdegrees and magnitudes in
//! hundredths, so every quantity in the schema is an exact integer.

// The schema and its compact wire form.
pub mod domain;
pub mod optimized;

// Text primitives, the pattern catalog and the two codecs.
pub mod coord;
pub mod patterns;
pub mod text;
pub mod time_codec;

// The dispatcher and the per-format parsers.
pub mod afd_parser;
pub mod ffw_parser;
pub mod lsr_parser;
pub mod nws_parser;
pub mod parser_util;
pub mod sel_parser;
pub mod sn_parser;
pub mod svr_parser;
pub mod svs_parser;
pub mod swo_parser;
pub mod tor_parser;

// Feed bookkeeping around the parsers.
pub mod clock;
pub mod dedup;
pub mod loader;
