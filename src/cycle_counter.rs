//! Busy waiting on the free-running 32-bit cycle counter.
use vstd::prelude::*;

verus! {

/// The value that starts the cycle counter.
pub const CYCLE_COUNTER_ENABLE: u32 = 1;

/// The word written to the performance monitor control register to start the
/// cycle counter.
pub fn init() -> (r: u32)
    ensures
        r == CYCLE_COUNTER_ENABLE,
{
    CYCLE_COUNTER_ENABLE
}

/// The number of cycles from `now` until the counter reaches `cycle_number`,
/// across a wrap of the counter. The target must not be behind `now`: a
/// distance of a third of the counter's range or more means it was missed.
pub fn delay_until(cycle_number: u32, now: u32) -> (r: u32)
    requires
        cycle_number.wrapping_sub(now) < u32::MAX / 3,
    ensures
        r == cycle_number.wrapping_sub(now),
{
    cycle_number.wrapping_sub(now)
}

/// Whether a wait of `cycle_delay` cycles begun at `start` must go on at
/// counter value `now`.
pub fn delay(start: u32, now: u32, cycle_delay: u32) -> (waiting: bool)
    ensures
        waiting == (now.wrapping_sub(start) < cycle_delay),
{
    now.wrapping_sub(start) < cycle_delay
}

} // verus!
