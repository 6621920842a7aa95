//! Server-assigned values: fresh identifiers and the current time.
//!
//! Both come from outside and are unpredictable, so nothing is assumed
//! about which value comes back; every caller is verified for all values.

use vstd::prelude::*;

verus! {

/// Relies on uuid::Uuid::new_v4 for a randomly generated identifier,
/// carried as its 128-bit value. The result is random: no contract is
/// assumed about which value comes back, and in particular not that it is
/// unused — a clash is handled by the caller as the store's uniqueness
/// constraint would signal it.
#[verifier::external_body]
pub(crate) fn fresh_id() -> u128 {
    uuid::Uuid::new_v4().as_u128()
}

/// Relies on chrono::Utc::now for the current wall-clock time, carried as
/// milliseconds since the epoch. The result depends on the machine's
/// clock, so no contract is assumed about its value; chrono requires the
/// system clock not to stand before the epoch.
#[verifier::external_body]
pub(crate) fn now_millis() -> i64 {
    chrono::Utc::now().timestamp_millis()
}

} // verus!
