//! Trusted boundary to `chrono`: human-readable timestamps.
//!
//! A timestamp depends on the wall clock, so nothing is assumed about the
//! text beyond what the writer does with it afterwards.

use vstd::prelude::*;

verus! {

/// Relies on `chrono::Utc::now`, rendered through its `Display`
/// implementation: the current UTC date and time as human-readable text.
/// Caveat: `Utc::now` itself panics when the system clock reads before the
/// Unix epoch; no precondition on this wrapper can exclude that.
#[verifier::external_body]
fn utc_now_string() -> String {
    format!("{}", chrono::Utc::now())
}

/// Relies on `chrono::Local::now`, rendered through its `Display`
/// implementation: the current local date and time as human-readable text.
/// Caveat: it reads the clock through `Utc::now`, which panics when the
/// system clock reads before the Unix epoch.
#[verifier::external_body]
fn local_now_string() -> String {
    format!("{}", chrono::Local::now())
}

/// The current time in the configured clock mode: UTC when `utc` is set,
/// the machine's local time otherwise.
pub(crate) fn current_timestamp(utc: bool) -> String {
    if utc {
        utc_now_string()
    } else {
        local_now_string()
    }
}

} // verus!
