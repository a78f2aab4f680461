//! When to wait and when to sample: the two decisions of the event loop. Times are
//! plain counts in one unit of the caller's choice.

use vstd::prelude::*;

verus! {

/// Time between two ticks, in milliseconds.
pub const TICK_RATE: u64 = 1000;

/// How long the loop may wait for a key when `elapsed` has passed since the last tick
/// and ticks are `tick_rate` apart: the time that is left until the next tick, and no
/// time at all once the tick is overdue.
pub open spec fn time_left(tick_rate: u64, elapsed: u64) -> u64 {
    if elapsed >= tick_rate {
        0
    } else {
        (tick_rate - elapsed) as u64
    }
}

/// The longest the loop may wait for a key before the next tick.
pub fn poll_timeout(tick_rate: u64, elapsed: u64) -> (timeout: u64)
    ensures
        timeout == time_left(tick_rate, elapsed),
{
    match tick_rate.checked_sub(elapsed) {
        Some(left) => left,
        None => 0,
    }
}

/// Whether it is time to sample again.
pub fn tick_due(tick_rate: u64, elapsed: u64) -> (due: bool)
    ensures
        due == (elapsed >= tick_rate),
{
    elapsed >= tick_rate
}

/// The wait never reaches past the next tick: it ends at the tick exactly where one is
/// still ahead, and there is none where the tick is due.
pub proof fn lemma_wait_ends_at_tick(tick_rate: u64, elapsed: u64)
    ensures
        elapsed + time_left(tick_rate, elapsed) == if elapsed >= tick_rate {
            elapsed
        } else {
            tick_rate
        },
        (elapsed >= tick_rate) ==> time_left(tick_rate, elapsed) == 0,
{
}

} // verus!
