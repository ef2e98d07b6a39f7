//! A bare-metal kernel runtime for a single-core ARM SoC: interrupt masking,
//! the exception vector table and trap dispatch, a periodic timer source, a
//! registry of IRQ handlers, and a cooperative thread scheduler.
use vstd::prelude::*;

pub mod bits;
pub mod bootloader_shared;
pub mod caches;
pub mod coprocessor;
pub mod cycle_counter;
pub mod debug;
pub mod gpio;
pub mod handlers;
pub mod interrupts;
pub mod profile;
pub mod round_robin;
pub mod thread;
pub mod uart;
pub mod timer;
pub mod vectors;
pub mod virtual_memory;

verus! {

/// Sum of two words that must not overflow.
pub fn add(left: u64, right: u64) -> (r: u64)
    requires
        left + right <= u64::MAX,
    ensures
        r == left + right,
{
    left + right
}

} // verus!
