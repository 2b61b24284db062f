//! The survival stopwatch: counts simulation time while the player lives.

use vstd::prelude::*;
use crate::{TIME_LIMIT, dt_ok};

verus! {

/// Accumulated survival time, in milliseconds.
#[derive(Clone, Copy, Debug, PartialEq, Eq, Structural)]
pub struct SurvivalTime {
    pub elapsed_ms: i64,
}

impl SurvivalTime {
    /// The accumulated time is non-negative and within the accepted range.
    pub open spec fn wf(self) -> bool {
        0 <= self.elapsed_ms <= TIME_LIMIT
    }

    /// A stopwatch with nothing accumulated.
    pub fn new() -> (t: SurvivalTime)
        ensures
            t.elapsed_ms == 0,
            t.wf(),
    {
        SurvivalTime { elapsed_ms: 0 }
    }
}

/// One tick of the stopwatch: the delta-time accrues exactly while a
/// player entity exists, and not at all once it is gone.
pub fn survival_time_system(stopwatch: &mut SurvivalTime, dt_ms: i64, player_alive: bool)
    requires
        old(stopwatch).wf(),
        dt_ok(dt_ms as int),
    ensures
        final(stopwatch).elapsed_ms == old(stopwatch).elapsed_ms + (
        if player_alive {
            dt_ms as int
        } else {
            0
        }),
{
    if player_alive {
        stopwatch.elapsed_ms = stopwatch.elapsed_ms + dt_ms;
    }
}

} // verus!
