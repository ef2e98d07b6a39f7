//! GPIO pins: the register writes that select a pin's function, drive an
//! output, and read an input.
//!
//! A `Pin` is the claim on one pin in one function. The register accesses
//! themselves are left to the caller, which applies the values computed here.
use vstd::prelude::*;

use crate::bits::{bit, get_bit};

verus! {

/// Pins on the SoC.
pub const PIN_COUNT: usize = 54;

/// First function select register.
pub const GPFSEL0: u32 = 0x20200000;

/// First output set register.
pub const GPSET0: u32 = 0x2020001C;

/// First output clear register.
pub const GPCLR0: u32 = 0x20200028;

/// First pin level register.
pub const GPLEV0: u32 = 0x20200034;

/// Whether `n` names a pin.
pub fn valid_pin(n: usize) -> (r: bool)
    ensures
        r == (n < PIN_COUNT),
{
    n < PIN_COUNT
}

/// A pin's function.
#[derive(PartialEq, Eq, Structural, Debug, Clone, Copy)]
pub enum PinFsel {
    Unset,
    Input,
    Output,
    Alt0,
    Alt5,
}

/// The three-bit function select code of a function.
pub open spec fn fsel_code(f: PinFsel) -> u32 {
    match f {
        PinFsel::Output => 0b001,
        PinFsel::Alt0 => 0b100,
        PinFsel::Alt5 => 0b010,
        _ => 0b000,
    }
}

/// A read-modify-write of a function select register: the new value is
/// `old & and_mask | or_mask`.
#[derive(PartialEq, Eq, Structural, Debug, Clone, Copy)]
pub struct FselUpdate {
    pub address: u32,
    pub and_mask: u32,
    pub or_mask: u32,
}

/// The function select update that gives pin `i` the function `f`: the pin's
/// three bits in the register for its group of ten.
pub open spec fn fsel_update(i: usize, f: PinFsel) -> FselUpdate {
    let shift = (3 * (i % 10)) as u32;
    FselUpdate {
        address: (GPFSEL0 + 4 * (i / 10)) as u32,
        and_mask: !(7u32 << shift),
        or_mask: fsel_code(f) << shift,
    }
}

/// A register write: `value` to `address`.
#[derive(PartialEq, Eq, Structural, Debug, Clone, Copy)]
pub struct RegisterWrite {
    pub address: u32,
    pub value: u32,
}

/// A claim on pin `index` in function `fsel`.
pub struct Pin {
    index: usize,
    fsel: PinFsel,
}

impl Pin {
    pub closed spec fn index_spec(&self) -> usize {
        self.index
    }

    pub closed spec fn fsel_spec(&self) -> PinFsel {
        self.fsel
    }

    /// Claims pin `index` as being in function `fsel`; the caller vouches
    /// that nothing else holds it.
    pub fn forge(index: usize, fsel: PinFsel) -> (r: Self)
        requires
            index < PIN_COUNT,
        ensures
            r.index_spec() == index,
            r.fsel_spec() == fsel,
    {
        Pin { index, fsel }
    }

    pub fn index(&self) -> (r: usize)
        ensures
            r == self.index_spec(),
    {
        self.index
    }

    pub fn fsel(&self) -> (r: PinFsel)
        ensures
            r == self.fsel_spec(),
    {
        self.fsel
    }

    /// The same pin with its function forgotten.
    pub fn erase(self) -> (r: Self)
        ensures
            r.index_spec() == self.index_spec(),
            r.fsel_spec() == PinFsel::Unset,
    {
        Pin { index: self.index, fsel: PinFsel::Unset }
    }

    fn set_fsel(self, f: PinFsel) -> (r: (Self, FselUpdate))
        requires
            self.index_spec() < PIN_COUNT,
        ensures
            r.0.index_spec() == self.index_spec(),
            r.0.fsel_spec() == f,
            r.1 == fsel_update(self.index_spec(), f),
    {
        let code: u32 = match f {
            PinFsel::Output => 0b001,
            PinFsel::Alt0 => 0b100,
            PinFsel::Alt5 => 0b010,
            _ => 0b000,
        };
        let shift = (3 * (self.index % 10)) as u32;
        let address = GPFSEL0 + 4 * (self.index / 10) as u32;
        let u = FselUpdate { address, and_mask: !(7u32 << shift), or_mask: code << shift };
        (Pin { index: self.index, fsel: f }, u)
    }

    /// Makes the pin an output; returns the function select update to apply.
    pub fn into_output(self) -> (r: (Self, FselUpdate))
        requires
            self.index_spec() < PIN_COUNT,
        ensures
            r.0.index_spec() == self.index_spec(),
            r.0.fsel_spec() == PinFsel::Output,
            r.1 == fsel_update(self.index_spec(), PinFsel::Output),
    {
        self.set_fsel(PinFsel::Output)
    }

    /// Makes the pin an input; returns the function select update to apply.
    pub fn into_input(self) -> (r: (Self, FselUpdate))
        requires
            self.index_spec() < PIN_COUNT,
        ensures
            r.0.index_spec() == self.index_spec(),
            r.0.fsel_spec() == PinFsel::Input,
            r.1 == fsel_update(self.index_spec(), PinFsel::Input),
    {
        self.set_fsel(PinFsel::Input)
    }

    /// Gives the pin its alternate function 0; returns the function select
    /// update to apply.
    pub fn into_alt0(self) -> (r: (Self, FselUpdate))
        requires
            self.index_spec() < PIN_COUNT,
        ensures
            r.0.index_spec() == self.index_spec(),
            r.0.fsel_spec() == PinFsel::Alt0,
            r.1 == fsel_update(self.index_spec(), PinFsel::Alt0),
    {
        self.set_fsel(PinFsel::Alt0)
    }

    /// Gives the pin its alternate function 5; returns the function select
    /// update to apply.
    pub fn into_alt5(self) -> (r: (Self, FselUpdate))
        requires
            self.index_spec() < PIN_COUNT,
        ensures
            r.0.index_spec() == self.index_spec(),
            r.0.fsel_spec() == PinFsel::Alt5,
            r.1 == fsel_update(self.index_spec(), PinFsel::Alt5),
    {
        self.set_fsel(PinFsel::Alt5)
    }

    /// The register write that drives the output pin high (`bit`) or low: the
    /// pin's bit in the set or the clear register of its bank of 32.
    pub fn write(&self, bit: bool) -> (r: RegisterWrite)
        requires
            self.index_spec() < PIN_COUNT,
            self.fsel_spec() == PinFsel::Output,
        ensures
            r.address == (if bit {
                GPSET0
            } else {
                GPCLR0
            }) + 4 * (self.index_spec() / 32),
            r.value == 1u32 << ((self.index_spec() % 32) as u32),
    {
        let base = if bit {
            GPSET0
        } else {
            GPCLR0
        };
        RegisterWrite {
            address: base + 4 * (self.index / 32) as u32,
            value: 1u32 << ((self.index % 32) as u32),
        }
    }

    /// The level register that holds the input pin's level.
    pub fn level_register(&self) -> (r: u32)
        requires
            self.index_spec() < PIN_COUNT,
        ensures
            r == GPLEV0 + 4 * (self.index_spec() / 32),
    {
        GPLEV0 + 4 * (self.index / 32) as u32
    }

    /// The input pin's level, given the value of its level register.
    pub fn read(&self, level: u32) -> (r: bool)
        requires
            self.index_spec() < PIN_COUNT,
            self.fsel_spec() == PinFsel::Input,
        ensures
            r == bit(level, (self.index_spec() % 32) as u32),
    {
        get_bit(level, (self.index % 32) as u32)
    }
}

/// The value a function select register takes under an update.
pub fn apply_fsel(old: u32, u: FselUpdate) -> (r: u32)
    ensures
        r == (old & u.and_mask) | u.or_mask,
{
    (old & u.and_mask) | u.or_mask
}

} // verus!
