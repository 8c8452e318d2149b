//! The wall clock, in Unix seconds.
use vstd::prelude::*;
use std::time::SystemTime;

verus! {

#[verifier::external_type_specification]
#[verifier::external_body]
pub struct ExSystemTime(std::time::SystemTime);

/// `SystemTime::now`: the current time of the system clock. Nothing is
/// claimed of the value, which depends on the machine and the moment.
#[verifier::external_body]
fn system_now() -> SystemTime {
    SystemTime::now()
}

/// `SystemTime::duration_since(UNIX_EPOCH)`, in whole seconds: `None` for a
/// time before the epoch. Nothing is claimed of the value.
#[verifier::external_body]
fn seconds_since_epoch(t: &SystemTime) -> Option<u64> {
    t.duration_since(std::time::UNIX_EPOCH).ok().map(|d| d.as_secs())
}

/// Current Unix time in seconds, `None` when the clock is before 1970.
pub fn unix_seconds() -> Option<u64> {
    let now = system_now();
    seconds_since_epoch(&now)
}

} // verus!
