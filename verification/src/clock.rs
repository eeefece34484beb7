//! The wall clock, in whole seconds since the Unix epoch.

use vstd::prelude::*;
use std::time::{SystemTime, UNIX_EPOCH};

verus! {

/// Seconds since the Unix epoch, from the system clock.
///
/// Trusted: `SystemTime::now` with `duration_since(UNIX_EPOCH)`; the value depends on
/// the machine's clock and nothing is promised of it. A clock set before the epoch
/// reads as 0.
#[verifier::external_body]
pub(crate) fn unix_now() -> (t: u64) {
    SystemTime::now().duration_since(UNIX_EPOCH).map(|d| d.as_secs()).unwrap_or(0)
}

} // verus!
