//! A countdown-timer engine: a value-type state machine with start, pause,
//! unpause and reset transitions, a pure remaining-time query driven by an
//! injected clock reading, and an ordered collection of timers with append,
//! removal and a per-tick auto-restart evaluation.

use vstd::prelude::*;

pub mod app;
pub mod laws;
pub mod timer;

verus! {

/// Splits a remaining time in milliseconds into whole hours, minutes and
/// seconds for display.
pub fn split_hms(rest_ms: u64) -> (r: (u64, u64, u64))
    ensures
        r.0 == rest_ms / 1000 / 3600,
        r.1 == (rest_ms / 1000 % 3600) / 60,
        r.2 == rest_ms / 1000 % 60,
        r.1 < 60,
        r.2 < 60,
{
    let secs = rest_ms / 1000;
    (secs / 3600, (secs % 3600) / 60, secs % 60)
}

} // verus!
