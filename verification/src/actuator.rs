//! The actuator's cadence arithmetic: the output context applies discrete
//! actions the moment they arrive, and integrates stored axis velocity at a
//! fixed cadence. The wait before the next integration step is computed as
//! "period minus elapsed", never a fixed re-sleep, so a late wakeup shortens
//! the next wait instead of accumulating drift.

use vstd::prelude::*;

verus! {

/// The cadence of velocity integration, in milliseconds. Slower feels
/// jerky; faster leaves no room for fine control.
pub fn pulse_time() -> (r: u64)
    ensures
        r == 20,
{
    20
}

/// The actuator's wait decision, from the time already elapsed in the
/// current interval: past the period it is time to integrate once and start
/// a fresh interval; inside it, only the remaining portion is waited, so an
/// action arriving early never delays the next integration step.
pub fn next_wait(elapsed_ms: u64, period_ms: u64) -> (r: (bool, u64))
    ensures
        elapsed_ms >= period_ms ==> r == (true, period_ms),
        elapsed_ms < period_ms ==> r == (false, (period_ms - elapsed_ms) as u64),
{
    if elapsed_ms >= period_ms {
        (true, period_ms)
    } else {
        (false, period_ms - elapsed_ms)
    }
}

} // verus!
