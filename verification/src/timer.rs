//! The tick engine: the full countdown schedule for one session.
//!
//! The driver replays the schedule against an absolute start instant (the
//! tick at index `i` is due at `start + i` seconds), so per-tick processing
//! overhead does not accumulate as drift.

use vstd::prelude::*;
use crate::entities::Seconds;

verus! {

/// One second-granularity countdown update.
#[derive(Clone, Copy, Debug, PartialEq, Eq, Structural)]
pub struct Tick {
    /// Seconds left when this tick is shown.
    pub remaining: u64,
    /// Whether this is the terminal "done" tick.
    pub is_final: bool,
}

/// The countdown schedule for a duration: one tick per whole second, from
/// `remaining == duration` down to and including a terminal `remaining == 0`
/// tick, so a zero-second timer still yields exactly one tick.
pub fn run_timer(seconds: &Seconds) -> (ticks: Vec<Tick>)
    requires
        seconds.0 < usize::MAX as u64,
    ensures
        ticks@.len() == seconds.0 + 1,
        forall|i: int|
            0 <= i <= seconds.0 ==> (#[trigger] ticks@[i]).remaining == seconds.0 - i,
        forall|i: int| 0 <= i <= seconds.0 ==> ((#[trigger] ticks@[i]).is_final <==> i == seconds.0),
        forall|i: int, j: int|
            0 <= i < j <= seconds.0 ==> ticks@[i].remaining > ticks@[j].remaining,
{
    let total = seconds.0;
    let mut ticks: Vec<Tick> = Vec::new();
    let mut elapsed: u64 = 0;
    while elapsed <= total
        invariant
            total < usize::MAX as u64,
            elapsed <= total + 1,
            ticks@.len() == elapsed,
            forall|i: int|
                0 <= i < elapsed ==> (#[trigger] ticks@[i]).remaining == total - i,
            forall|i: int| 0 <= i < elapsed ==> ((#[trigger] ticks@[i]).is_final <==> i == total),
        decreases total + 1 - elapsed,
    {
        ticks.push(Tick { remaining: total - elapsed, is_final: elapsed == total });
        elapsed = elapsed + 1;
    }
    ticks
}

} // verus!
