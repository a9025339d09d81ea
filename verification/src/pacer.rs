//! The loop pacer: keeps the polling loop on a fixed wall-clock cadence
//! by computing how long to suspend after each iteration's work.

use vstd::prelude::*;

verus! {

/// How long the loop should sleep after an iteration whose work took
/// `elapsed_ms`: the remainder of the poll interval, and zero once the
/// work already exceeded it (saturating, never a negative wait).
pub fn pacer_delay(millis_per_loop: u32, elapsed_ms: u64) -> (d: u64)
    ensures
        elapsed_ms >= millis_per_loop ==> d == 0,
        elapsed_ms < millis_per_loop ==> d == millis_per_loop - elapsed_ms,
{
    if elapsed_ms >= millis_per_loop as u64 {
        0
    } else {
        millis_per_loop as u64 - elapsed_ms
    }
}

} // verus!
