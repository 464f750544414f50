//! Elapsed time of one timed operation, in the units the benchmark reports.
use vstd::prelude::*;

verus! {

/// A duration as whole minutes, the seconds after them, and milliseconds.
#[derive(Clone, Copy, Debug, PartialEq, Eq, Structural)]
pub struct Elapsed {
    pub minutes: u64,
    pub seconds: u64,
    pub millis: u32,
}

/// Splits a duration given as whole seconds and the milliseconds after them.
pub fn split_duration(secs: u64, subsec_millis: u32) -> (r: Elapsed)
    requires
        subsec_millis < 1000,
    ensures
        r.minutes * 60 + r.seconds == secs,
        r.seconds < 60,
        r.millis == subsec_millis,
{
    Elapsed { minutes: secs / 60, seconds: secs % 60, millis: subsec_millis }
}

} // verus!
