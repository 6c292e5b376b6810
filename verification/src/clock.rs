//! The process clock: a wall-clock reading in whole seconds, and the
//! elapsed seconds between a fixed start reading and now.

use vstd::prelude::*;

verus! {

/// Relies on std::time::SystemTime::now, SystemTime::duration_since and
/// Duration::as_secs: reads the wall clock as whole seconds since the Unix
/// epoch; yields nothing when the clock reports a time before the epoch.
#[verifier::external_body]
pub fn current_time_secs() -> (r: Option<u64>) {
    match std::time::SystemTime::now().duration_since(std::time::UNIX_EPOCH) {
        Ok(d) => Some(d.as_secs()),
        Err(_) => None,
    }
}

/// Seconds from `start` to `now`. A clock that moved backward past `start`
/// reads as zero elapsed seconds; the move itself is not corrected.
pub open spec fn spec_elapsed(now: u64, start: u64) -> u64 {
    if now >= start {
        (now - start) as u64
    } else {
        0
    }
}

/// The elapsed whole seconds between two clock readings.
pub fn elapsed_between(now_seconds: u64, start_seconds: u64) -> (e: u64)
    ensures
        e == spec_elapsed(now_seconds, start_seconds),
{
    if now_seconds >= start_seconds {
        now_seconds - start_seconds
    } else {
        0
    }
}

/// Whole seconds elapsed since the clock reading `start_seconds`, by the
/// wall clock now; nothing when the clock cannot be read.
pub fn secs_elapsed(start_seconds: u64) -> (r: Option<u64>)
    ensures
        r matches Some(e) ==> exists|now: u64| e == spec_elapsed(now, start_seconds),
{
    match current_time_secs() {
        Some(now) => {
            let e = elapsed_between(now, start_seconds);
            proof {
                assert(e == spec_elapsed(now, start_seconds));
            }
            Some(e)
        },
        None => None,
    }
}

} // verus!
