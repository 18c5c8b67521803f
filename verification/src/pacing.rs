use vstd::prelude::*;

verus! {

/// Delay before the next cycle starts: the remaining part of the target
/// interval, but never less than the pacing floor.
pub open spec fn pacing_delay_spec(target: int, elapsed: int, floor: int) -> int {
    if target - elapsed > floor {
        target - elapsed
    } else {
        floor
    }
}

/// Computes how long the runner waits after a cycle that took `elapsed`
/// time units, aiming for one cycle every `target` units and never
/// waiting less than `floor`.
pub fn pacing_delay(target: u64, elapsed: u64, floor: u64) -> (delay: u64)
    ensures
        delay == pacing_delay_spec(target as int, elapsed as int, floor as int),
{
    if target > elapsed {
        let remaining: u64 = target - elapsed;
        if remaining > floor {
            remaining
        } else {
            floor
        }
    } else {
        floor
    }
}

/// A cycle that overran its target interval still waits for the full
/// pacing floor: the delay is exactly `floor` and, for a positive
/// floor, never zero.
pub proof fn lemma_pacing_never_busy_loops(target: int, elapsed: int, floor: int)
    requires
        elapsed >= target,
        floor > 0,
    ensures
        pacing_delay_spec(target, elapsed, floor) == floor,
        pacing_delay_spec(target, elapsed, floor) > 0,
{
}

} // verus!
