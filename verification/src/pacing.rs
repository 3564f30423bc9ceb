//! Frame pacing: when the next step of the machine is due.
//!
//! The host reads a clock and hands in milliseconds. A step is due when
//! a whole frame interval has gone by since the last one; time that is
//! lost is not made up for.

use vstd::prelude::*;

verus! {

/// Steps per second.
pub const FPS: u64 = 60;

/// Whole milliseconds between two steps.
pub const FPS_INTERVAL: u64 = 1000 / FPS;

/// Milliseconds gone by from `start` to `now`; zero if `start` is the
/// later of the two.
pub fn calculate_delta(start: u64, now: u64) -> (delta: u64)
    ensures
        delta == if now >= start {
            now - start
        } else {
            0
        },
{
    if now >= start {
        now - start
    } else {
        0
    }
}

/// Whether a step is due after `delta` milliseconds: whether a whole
/// interval of sixteen milliseconds has gone by.
pub fn frame_due(delta: u64) -> (due: bool)
    ensures
        due == (delta >= FPS_INTERVAL),
        due == (delta >= 16),
{
    delta >= FPS_INTERVAL
}

} // verus!
