//! The instruction cache and branch prediction bits of the system control
//! register.
use vstd::prelude::*;

use crate::bits::{set_bit, with_bit};
use crate::coprocessor::{CP15CR_BRANCH_PREDICTION, CP15CR_INSTRUCTION_CACHE};

verus! {

/// The system control register value `r` with the L1 instruction cache and
/// branch prediction switched on.
pub fn enable(r: u32) -> (v: u32)
    ensures
        v == with_bit(with_bit(r, 12, true), 11, true),
{
    let v = set_bit(r, CP15CR_INSTRUCTION_CACHE, true);
    set_bit(v, CP15CR_BRANCH_PREDICTION, true)
}

/// The system control register value `r` with the L1 instruction cache and
/// branch prediction switched off.
pub fn disable(r: u32) -> (v: u32)
    ensures
        v == with_bit(with_bit(r, 12, false), 11, false),
{
    let v = set_bit(r, CP15CR_INSTRUCTION_CACHE, false);
    set_bit(v, CP15CR_BRANCH_PREDICTION, false)
}

} // verus!
