//! The system clock, for the polling loops around the library.  Nothing
//! can be promised of the current time, so the reading carries no
//! contract.

use vstd::prelude::*;
use std::time::{SystemTime, UNIX_EPOCH};

verus! {

/// Relies on std::time::SystemTime: the duration since the UNIX epoch,
/// in microseconds.  The result depends on the real clock, so no clause
/// constrains it.
#[verifier::external_body]
pub fn get_system_micros() -> u64 {
    let start = SystemTime::now();
    let since_the_epoch = start.duration_since(UNIX_EPOCH).unwrap_or_default();
    since_the_epoch.as_secs() * 1_000_000 + u64::from(since_the_epoch.subsec_micros())
}

} // verus!
