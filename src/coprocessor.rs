//! Values of the coprocessor registers that the kernel reads and writes.
//!
//! Moving a value to or from a coprocessor register is a single machine
//! instruction left to the caller; these types give the value its fields.
use vstd::prelude::*;

use crate::bits::{field, get_field};

verus! {

/// The system control register (CP15 c1).
#[derive(PartialEq, Eq, Structural, Debug, Clone, Copy)]
pub struct CP15CR(pub u32);

/// Bit of the system control register: subpage access bits disabled.
pub const CP15CR_XP_DISABLED: u32 = 23;

/// Bit of the system control register: L1 instruction cache enabled.
pub const CP15CR_INSTRUCTION_CACHE: u32 = 12;

/// Bit of the system control register: branch prediction enabled.
pub const CP15CR_BRANCH_PREDICTION: u32 = 11;

/// Bit of the system control register: MMU enabled.
pub const CP15CR_MMU_ENABLED: u32 = 0;

impl CP15CR {
    /// The register as read from the coprocessor.
    pub fn read(raw: u32) -> (r: Self)
        ensures
            r.0 == raw,
    {
        CP15CR(raw)
    }

    /// The word to write to the coprocessor.
    pub fn write(v: Self) -> (r: u32)
        ensures
            r == v.0,
    {
        v.0
    }
}

/// The debug status and control register.
#[derive(PartialEq, Eq, Structural, Debug, Clone, Copy)]
pub struct DSCR(pub u32);

/// Bit of the debug status and control register: monitor debug mode.
pub const DSCR_MONITOR_DEBUG_MODE: u32 = 15;

/// Bit of the debug status and control register: halting debug mode.
pub const DSCR_HALTING_DEBUG_MODE: u32 = 14;

/// Bit of the debug status and control register: interrupts disabled while
/// debugging.
pub const DSCR_INTERRUPTS_DISABLED: u32 = 11;

impl DSCR {
    /// The register as read from the coprocessor.
    pub fn read(raw: u32) -> (r: Self)
        ensures
            r.0 == raw,
    {
        DSCR(raw)
    }

    /// The word to write to the coprocessor.
    pub fn write(v: Self) -> (r: u32)
        ensures
            r == v.0,
    {
        v.0
    }
}

/// The domain access control register: two bits for each of 16 domains.
#[derive(PartialEq, Eq, Structural, Debug, Clone, Copy)]
pub struct DACR(pub u32);

/// The access a domain grants.
#[derive(PartialEq, Eq, Structural, Debug, Clone, Copy)]
pub enum Domain {
    /// Any access generates a domain fault.
    NoAccess,
    /// Accesses are checked against the TLB entry's permissions.
    Client,
    /// Accesses are not checked.
    Manager,
}

/// The two-bit encoding of a domain's access.
pub open spec fn domain_bits(d: Domain) -> u32 {
    match d {
        Domain::NoAccess => 0,
        Domain::Client => 1,
        Domain::Manager => 3,
    }
}

impl DACR {
    /// The register as read from the coprocessor.
    pub fn read(raw: u32) -> (r: Self)
        ensures
            r.0 == raw,
    {
        DACR(raw)
    }

    /// The word to write to the coprocessor.
    pub fn write(v: Self) -> (r: u32)
        ensures
            r == v.0,
    {
        v.0
    }

    /// The register that grants `d` to domain `index` and no access to every
    /// other domain.
    pub fn only(index: u32, d: Domain) -> (r: Self)
        requires
            index < 16,
        ensures
            r.0 == domain_bits(d) << (2 * index),
    {
        let bits: u32 = match d {
            Domain::NoAccess => 0,
            Domain::Client => 1,
            Domain::Manager => 3,
        };
        DACR(bits << (2 * index))
    }
}

/// The lockdown virtual address register of a TLB entry.
#[derive(PartialEq, Eq, Structural, Debug, Clone, Copy)]
pub struct LockdownVA(pub u32);

impl LockdownVA {
    /// The register as read from the coprocessor.
    pub fn read(raw: u32) -> (r: Self)
        ensures
            r.0 == raw,
    {
        LockdownVA(raw)
    }

    /// The word to write to the coprocessor.
    pub fn write(v: Self) -> (r: u32)
        ensures
            r == v.0,
    {
        v.0
    }

    /// The virtual address the entry maps: its top 20 bits.
    pub fn get_va(&self) -> (r: u32)
        ensures
            r == field(self.0, 12, 20) << 12u32,
    {
        get_field(self.0, 12, 20) << 12
    }
}

/// The lockdown physical address register of a TLB entry.
#[derive(PartialEq, Eq, Structural, Debug, Clone, Copy)]
pub struct LockdownPA(pub u32);

impl LockdownPA {
    /// The register as read from the coprocessor.
    pub fn read(raw: u32) -> (r: Self)
        ensures
            r.0 == raw,
    {
        LockdownPA(raw)
    }

    /// The word to write to the coprocessor.
    pub fn write(v: Self) -> (r: u32)
        ensures
            r == v.0,
    {
        v.0
    }

    /// The physical address the entry maps to: its top 20 bits.
    pub fn get_pa(&self) -> (r: u32)
        ensures
            r == field(self.0, 12, 20) << 12u32,
    {
        get_field(self.0, 12, 20) << 12
    }
}

/// The lockdown attributes register of a TLB entry.
#[derive(PartialEq, Eq, Structural, Debug, Clone, Copy)]
pub struct LockdownAttributes(pub u32);

impl LockdownAttributes {
    /// The register as read from the coprocessor.
    pub fn read(raw: u32) -> (r: Self)
        ensures
            r.0 == raw,
    {
        LockdownAttributes(raw)
    }

    /// The word to write to the coprocessor.
    pub fn write(v: Self) -> (r: u32)
        ensures
            r == v.0,
    {
        v.0
    }
}

/// The watchpoint control register.
#[derive(PartialEq, Eq, Structural, Debug, Clone, Copy)]
pub struct WCR0(pub u32);

impl WCR0 {
    /// The word to write to the coprocessor.
    pub fn write(v: Self) -> (r: u32)
        ensures
            r == v.0,
    {
        v.0
    }
}

/// The breakpoint control register.
#[derive(PartialEq, Eq, Structural, Debug, Clone, Copy)]
pub struct BCR0(pub u32);

impl BCR0 {
    /// The register as read from the coprocessor.
    pub fn read(raw: u32) -> (r: Self)
        ensures
            r.0 == raw,
    {
        BCR0(raw)
    }

    /// The word to write to the coprocessor.
    pub fn write(v: Self) -> (r: u32)
        ensures
            r == v.0,
    {
        v.0
    }
}

} // verus!
