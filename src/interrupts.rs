//! The processor's global interrupt-enable state.
//!
//! On the target the state lives in bit 7 (`I`) of the current program status
//! register: the bit set means IRQs are masked. The operations here compute on
//! that status word; reading and writing the register itself is left to the
//! caller.
use vstd::prelude::*;

verus! {

/// The `I` bit of the program status register: set while IRQs are masked.
pub const IRQ_MASK_BIT: u32 = 0x80;

/// Whether a status word has IRQs enabled.
pub open spec fn irq_enabled(cpsr: u32) -> bool {
    cpsr & 0x80 == 0
}

/// The status word with IRQs unmasked and every other bit kept.
pub open spec fn with_irq_enabled(cpsr: u32) -> u32 {
    cpsr & !0x80u32
}

/// The status word with IRQs masked and every other bit kept.
pub open spec fn with_irq_disabled(cpsr: u32) -> u32 {
    cpsr | 0x80u32
}

/// What closing a critical section does to the status word: it unmasks IRQs
/// only if they were enabled when the section was opened.
pub open spec fn restored(cpsr: u32, token: bool) -> u32 {
    if token {
        with_irq_enabled(cpsr)
    } else {
        cpsr
    }
}

/// Unmasks IRQs; returns whether they were enabled before.
pub fn enable_interrupts(cpsr: &mut u32) -> (was_enabled: bool)
    ensures
        was_enabled == irq_enabled(*old(cpsr)),
        *final(cpsr) == with_irq_enabled(*old(cpsr)),
        irq_enabled(*final(cpsr)),
{
    let before = *cpsr;
    let after = before & !IRQ_MASK_BIT;
    assert(after & 0x80 == 0) by (bit_vector)
        requires
            after == before & !0x80u32,
    ;
    *cpsr = after;
    before & IRQ_MASK_BIT == 0
}

/// Masks IRQs; returns whether they were enabled before.
pub fn disable_interrupts(cpsr: &mut u32) -> (was_enabled: bool)
    ensures
        was_enabled == irq_enabled(*old(cpsr)),
        *final(cpsr) == with_irq_disabled(*old(cpsr)),
        !irq_enabled(*final(cpsr)),
{
    let before = *cpsr;
    let after = before | IRQ_MASK_BIT;
    assert(after & 0x80 != 0) by (bit_vector)
        requires
            after == before | 0x80u32,
    ;
    *cpsr = after;
    before & IRQ_MASK_BIT == 0
}

/// Whether IRQs are enabled in the given status word.
pub fn interrupts_enabled(cpsr: u32) -> (r: bool)
    ensures
        r == irq_enabled(cpsr),
{
    cpsr & IRQ_MASK_BIT == 0
}

/// Opens a critical section: masks IRQs and returns the token that closing
/// the section needs.
pub fn critical_section_acquire(cpsr: &mut u32) -> (token: bool)
    ensures
        token == irq_enabled(*old(cpsr)),
        *final(cpsr) == with_irq_disabled(*old(cpsr)),
{
    disable_interrupts(cpsr)
}

/// Closes a critical section: unmasks IRQs only if the token says they were
/// enabled when the section was opened.
pub fn critical_section_release(cpsr: &mut u32, token: bool)
    ensures
        *final(cpsr) == restored(*old(cpsr), token),
{
    if token {
        enable_interrupts(cpsr);
    }
}

/// Masking IRQs and then closing the section with the returned token gives
/// back the exact status word the section started from.
pub proof fn lemma_disable_then_restore(cpsr: u32)
    ensures
        restored(with_irq_disabled(cpsr), irq_enabled(cpsr)) == cpsr,
{
    assert((cpsr & 0x80 == 0) ==> ((cpsr | 0x80u32) & !0x80u32) == cpsr) by (bit_vector);
    assert((cpsr & 0x80 != 0) ==> (cpsr | 0x80u32) == cpsr) by (bit_vector);
}

/// Critical sections nest without a counter: an inner section opened while
/// IRQs are already masked gets a token that keeps them masked when it closes,
/// and closing the outer one then restores the status word it started from.
pub proof fn lemma_nested_critical_sections(cpsr: u32)
    ensures
        ({
            let outer = irq_enabled(cpsr);
            let c1 = with_irq_disabled(cpsr);
            let inner = irq_enabled(c1);
            let c2 = with_irq_disabled(c1);
            let c3 = restored(c2, inner);
            &&& !inner
            &&& !irq_enabled(c3)
            &&& restored(c3, outer) == cpsr
        }),
{
    assert(((cpsr | 0x80u32) & 0x80) != 0) by (bit_vector);
    assert(((cpsr | 0x80u32) | 0x80u32) == (cpsr | 0x80u32)) by (bit_vector);
    lemma_disable_then_restore(cpsr);
}

} // verus!
