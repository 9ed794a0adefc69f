//! The wall clock.
use vstd::prelude::*;
use std::time::SystemTime;

verus! {

#[verifier::external_type_specification]
#[verifier::external_body]
pub struct ExSystemTime(SystemTime);

/// Relies on `std::time::SystemTime::now`: the current time. Nothing is
/// promised of it.
#[verifier::external_body]
fn system_now() -> (r: SystemTime) {
    SystemTime::now()
}

/// Relies on `std::time::SystemTime::duration_since` from the Unix epoch:
/// the whole seconds since then, 0 for a time before it. Nothing is promised
/// of a value read from the clock.
#[verifier::external_body]
fn secs_since_epoch(t: &SystemTime) -> (r: u64) {
    match t.duration_since(std::time::UNIX_EPOCH) {
        Ok(d) => d.as_secs(),
        Err(_) => 0,
    }
}

/// Relies on `std::time::SystemTime::duration_since` from the Unix epoch:
/// the whole milliseconds since then, 0 for a time before it. Nothing is
/// promised of a value read from the clock.
#[verifier::external_body]
fn millis_since_epoch(t: &SystemTime) -> (r: u64) {
    match t.duration_since(std::time::UNIX_EPOCH) {
        Ok(d) => d.as_millis() as u64,
        Err(_) => 0,
    }
}

/// The current Unix time in whole seconds.
pub(crate) fn unix_now_secs() -> (r: u64) {
    let t = system_now();
    secs_since_epoch(&t)
}

/// The current Unix time in whole milliseconds.
pub(crate) fn unix_now_millis() -> (r: u64) {
    let t = system_now();
    millis_since_epoch(&t)
}

} // verus!
