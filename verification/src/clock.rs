//! Points in time, as the services record them.

use vstd::prelude::*;

verus! {

/// A UTC instant: whole seconds since the Unix epoch and the nanoseconds
/// past that second.
#[derive(Debug, Clone, Copy, PartialEq, Eq, Structural)]
pub struct Timestamp {
    pub secs: i64,
    pub nanos: u32,
}

/// `chrono::Utc::now()`, taken apart with `timestamp()` and
/// `timestamp_subsec_nanos()`. The instant depends on the system clock and
/// is not stated; what is claimed of every outcome is that it is not before
/// the epoch (chrono panics on a clock set before it) and that the
/// nanoseconds stay below one second (the clock is read through
/// `SystemTime`, which knows no leap seconds).
#[verifier::external_body]
pub(crate) fn utc_now() -> (t: Timestamp)
    ensures
        t.secs >= 0,
        t.nanos < 1_000_000_000,
{
    let now = chrono::Utc::now();
    Timestamp { secs: now.timestamp(), nanos: now.timestamp_subsec_nanos() }
}

} // verus!
