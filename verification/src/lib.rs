use vstd::prelude::*;

pub mod config;
pub mod duration;
pub mod linux;
pub mod log;
pub mod macos;
pub mod util;
pub mod windows;

use crate::duration::IdleDuration;

verus! {

/// A failed platform idle query, carrying a human-readable cause.
#[derive(Debug)]
pub struct Error {
    pub cause: String,
}

impl Error {
    /// Wraps a cause string describing why the platform query failed.
    pub fn new(cause: String) -> (e: Error)
        ensures
            e.cause@ == cause@,
    {
        Error { cause }
    }
}

/// The idle threshold the heartbeat caller compares against, in
/// milliseconds: two minutes.
pub const THRESHOLD_MILLIS: u64 = 120_000;

/// Whether the idle duration falls strictly below the two-minute
/// threshold — the user still counts as active and the heartbeat should
/// go out.
pub fn below_threshold(idle: &IdleDuration) -> (r: bool)
    requires
        idle.wf(),
    ensures
        r == (idle.total_nanos() < 120_000_000_000),
{
    let threshold = IdleDuration::from_millis(THRESHOLD_MILLIS);
    idle.lt(&threshold)
}

/// Collapses a probe outcome into a signed millisecond count for callers
/// across a foreign-function boundary: `-1` means the idle time could not
/// be determined, any other value is the non-negative millisecond count,
/// saturated at `i64::MAX` so that the locked-session sentinel stays a
/// large positive number.
pub fn idle_millis(outcome: Result<IdleDuration, Error>) -> (millis: i64)
    requires
        outcome matches Ok(d) ==> d.wf(),
    ensures
        outcome is Err ==> millis == -1,
        outcome matches Ok(d) ==> ({
            let m = d.total_nanos() / 1_000_000;
            &&& millis >= 0
            &&& if m > i64::MAX { millis == i64::MAX } else { millis == m }
        }),
{
    match outcome {
        Err(_) => -1,
        Ok(d) => {
            let m = d.as_millis();
            if m > i64::MAX as u128 {
                i64::MAX
            } else {
                m as i64
            }
        },
    }
}

} // verus!
