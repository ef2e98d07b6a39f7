//! The exception vector table and the dispatch of traps.
//!
//! The table is a position-independent block of words that is copied, word
//! by word, to the hardware's vector base before any trap may occur. Each
//! trap enters through its slot, corrects the link register by an amount that
//! depends on the kind of trap, and is handed to its handler.
use vstd::prelude::*;

use crate::interrupts::{disable_interrupts, irq_enabled, with_irq_disabled};

verus! {

/// Slots in the vector table.
pub const VECTOR_SLOTS: usize = 7;

/// The kinds of trap, one per slot of the vector table, in table order.
#[derive(PartialEq, Eq, Structural, Debug, Clone, Copy)]
pub enum TrapKind {
    Reset,
    UndefinedInstruction,
    SoftwareInterrupt,
    PrefetchAbort,
    DataAbort,
    /// An unused slot; it jumps to the reset stub.
    Reserved,
    IrqOrFiq,
}

/// The slot of each trap kind.
pub open spec fn slot_of(kind: TrapKind) -> nat {
    match kind {
        TrapKind::Reset => 0,
        TrapKind::UndefinedInstruction => 1,
        TrapKind::SoftwareInterrupt => 2,
        TrapKind::PrefetchAbort => 3,
        TrapKind::DataAbort => 4,
        TrapKind::Reserved => 5,
        TrapKind::IrqOrFiq => 6,
    }
}

/// How far the link register is past the address of interest when a trap of
/// this kind is taken: a data abort leaves it two instructions past the
/// faulting one, every other kind one instruction past.
pub open spec fn lr_offset(kind: TrapKind) -> u32 {
    match kind {
        TrapKind::DataAbort => 8,
        _ => 4,
    }
}

/// The slot of a trap kind in the vector table.
pub fn vector_slot(kind: TrapKind) -> (r: usize)
    ensures
        r == slot_of(kind),
        r < VECTOR_SLOTS,
{
    match kind {
        TrapKind::Reset => 0,
        TrapKind::UndefinedInstruction => 1,
        TrapKind::SoftwareInterrupt => 2,
        TrapKind::PrefetchAbort => 3,
        TrapKind::DataAbort => 4,
        TrapKind::Reserved => 5,
        TrapKind::IrqOrFiq => 6,
    }
}

/// The trap kind of a slot of the vector table.
pub fn trap_kind_of_slot(slot: usize) -> (r: Option<TrapKind>)
    ensures
        r is Some <==> slot < VECTOR_SLOTS,
        r is Some ==> slot_of(r.unwrap()) == slot,
{
    match slot {
        0 => Some(TrapKind::Reset),
        1 => Some(TrapKind::UndefinedInstruction),
        2 => Some(TrapKind::SoftwareInterrupt),
        3 => Some(TrapKind::PrefetchAbort),
        4 => Some(TrapKind::DataAbort),
        5 => Some(TrapKind::Reserved),
        6 => Some(TrapKind::IrqOrFiq),
        _ => None,
    }
}

/// The amount the link register is corrected by for a trap kind.
pub fn return_address_offset(kind: TrapKind) -> (r: u32)
    ensures
        r == lr_offset(kind),
{
    match kind {
        TrapKind::DataAbort => 8,
        _ => 4,
    }
}

/// The corrected program counter handed to the handler of a trap taken with
/// link register `lr`.
pub fn corrected_pc(kind: TrapKind, lr: u32) -> (pc: u32)
    ensures
        pc == lr.wrapping_sub(lr_offset(kind)),
{
    lr.wrapping_sub(return_address_offset(kind))
}

/// Why the vector table was not installed.
#[derive(PartialEq, Eq, Structural, Debug, Clone, Copy)]
pub enum InstallError {
    /// The block is shorter than the table's slots.
    TooShort,
    /// The block does not fit in the memory at the vector base.
    TooLong,
}

/// The memory at the hardware's vector base, and whether the table has been
/// copied there.
pub struct VectorBase {
    memory: Vec<u32>,
    installed: bool,
}

/// What the vector base holds.
pub struct VectorBaseView {
    pub memory: Seq<u32>,
    pub installed: bool,
}

impl View for VectorBase {
    type V = VectorBaseView;

    closed spec fn view(&self) -> VectorBaseView {
        VectorBaseView { memory: self.memory@, installed: self.installed }
    }
}

impl VectorBase {
    /// `words` words of memory at the vector base, zeroed, with no table.
    pub fn new(words: usize) -> (r: Self)
        ensures
            r@.memory == Seq::new(words as nat, |i: int| 0u32),
            !r@.installed,
    {
        let mut memory: Vec<u32> = Vec::new();
        while memory.len() < words
            invariant
                memory.len() <= words,
                forall|i: int| 0 <= i < memory.len() ==> memory@[i] == 0,
            decreases words - memory.len(),
        {
            memory.push(0);
        }
        let r = VectorBase { memory, installed: false };
        assert(r@.memory =~= Seq::new(words as nat, |i: int| 0u32));
        r
    }

    /// The memory at the vector base.
    pub fn memory(&self) -> (r: &Vec<u32>)
        ensures
            r@ == self@.memory,
    {
        &self.memory
    }

    /// Whether the table has been installed.
    pub fn is_installed(&self) -> (r: bool)
        ensures
            r == self@.installed,
    {
        self.installed
    }

    /// Masks IRQs in the status word `cpsr`, then copies the table block word
    /// by word to the start of the vector base. It happens once per boot, and
    /// the block must hold at least the table's slots and fit in the memory
    /// there.
    pub fn interrupt_init(&mut self, cpsr: &mut u32, table: &Vec<u32>) -> (r: Result<(), InstallError>)
        requires
            !old(self)@.installed,
        ensures
            *final(cpsr) == with_irq_disabled(*old(cpsr)),
            !irq_enabled(*final(cpsr)),
            r == Err::<(), InstallError>(InstallError::TooShort) <==> table@.len() < VECTOR_SLOTS,
            r == Err::<(), InstallError>(InstallError::TooLong) <==> VECTOR_SLOTS <= table@.len()
                && table@.len() > old(self)@.memory.len(),
            r is Err ==> final(self)@ == old(self)@,
            r is Ok ==> final(self)@.installed && final(self)@.memory == table@ + old(
                self,
            )@.memory.skip(table@.len() as int),
    {
        disable_interrupts(cpsr);
        if table.len() < VECTOR_SLOTS {
            return Err(InstallError::TooShort);
        }
        if table.len() > self.memory.len() {
            return Err(InstallError::TooLong);
        }
        let ghost m0 = self.memory@;
        let mut i: usize = 0;
        while i < table.len()
            invariant
                i <= table@.len(),
                table@.len() <= m0.len(),
                self.memory@.len() == m0.len(),
                forall|k: int| 0 <= k < i ==> self.memory@[k] == table@[k],
                forall|k: int| i <= k < m0.len() ==> self.memory@[k] == m0[k],
            decreases table@.len() - i,
        {
            self.memory.set(i, table[i]);
            i = i + 1;
        }
        self.installed = true;
        assert(self.memory@ =~= table@ + m0.skip(table@.len() as int));
        Ok(())
    }
}

/// What the dispatcher does with a trap.
#[derive(PartialEq, Eq, Structural, Debug, Clone, Copy)]
pub enum TrapAction {
    /// An unexpected trap: report the address and reboot.
    Fatal { kind: TrapKind, pc: u32 },
    /// A software interrupt at `pc`: decode and run the system call.
    Syscall { pc: u32 },
    /// An interrupt: run the handlers, then the timer step.
    Interrupt { pc: u32 },
}

/// What a trap of each kind is handed to.
pub open spec fn action_for(kind: TrapKind, pc: u32) -> TrapAction {
    match kind {
        TrapKind::SoftwareInterrupt => TrapAction::Syscall { pc },
        TrapKind::IrqOrFiq => TrapAction::Interrupt { pc },
        _ => TrapAction::Fatal { kind, pc },
    }
}

/// The trap dispatcher: idle, or inside the one trap being handled.
#[derive(PartialEq, Eq, Structural, Debug, Clone, Copy)]
pub enum TrapState {
    Idle,
    InTrap { kind: TrapKind, pc: u32 },
}

impl TrapState {
    /// A trap of `kind` is taken with link register `lr`: the dispatcher enters
    /// it and says what to do. Traps do not nest.
    pub fn enter(&mut self, kind: TrapKind, lr: u32) -> (r: TrapAction)
        requires
            *old(self) == TrapState::Idle,
        ensures
            *final(self) == (TrapState::InTrap { kind, pc: lr.wrapping_sub(lr_offset(kind)) }),
            r == action_for(kind, lr.wrapping_sub(lr_offset(kind))),
    {
        let pc = corrected_pc(kind, lr);
        *self = TrapState::InTrap { kind, pc };
        match kind {
            TrapKind::SoftwareInterrupt => TrapAction::Syscall { pc },
            TrapKind::IrqOrFiq => TrapAction::Interrupt { pc },
            _ => TrapAction::Fatal { kind, pc },
        }
    }

    /// The handler ran to completion: the dispatcher is idle again.
    pub fn leave(&mut self)
        requires
            *old(self) is InTrap,
        ensures
            *final(self) == TrapState::Idle,
    {
        *self = TrapState::Idle;
    }
}

/// Whether an instruction word is a software interrupt.
pub open spec fn is_swi(instruction: u32) -> bool {
    (instruction >> 24u32) & 0xf == 0xf
}

/// The system call number a software interrupt carries.
pub open spec fn swi_number(instruction: u32) -> u32 {
    instruction & 0xfff
}

/// Whether the instruction word is a software interrupt.
pub fn is_software_interrupt(instruction: u32) -> (r: bool)
    ensures
        r == is_swi(instruction),
{
    (instruction >> 24) & 0xf == 0xf
}

/// The system call number a software-interrupt instruction carries.
pub fn swi_call_number(instruction: u32) -> (r: u32)
    ensures
        r == swi_number(instruction),
{
    instruction & 0xfff
}

/// What system call `number` returns: calls 0 and 1 return 0, call 2
/// returns -1.
pub open spec fn syscall_result(number: u32) -> i32 {
    if number == 2 {
        -1i32
    } else {
        0i32
    }
}

/// Runs the system call encoded in the software-interrupt instruction found
/// at the trap address. Only a software interrupt carrying call 0, 1 or 2 may
/// get here; anything else is fatal to the caller.
pub fn syscall_vector(instruction: u32) -> (r: i32)
    requires
        is_swi(instruction),
        swi_number(instruction) <= 2,
    ensures
        r == syscall_result(swi_number(instruction)),
{
    let number = instruction & 0xfff;
    if number == 2 {
        -1
    } else {
        0
    }
}

} // verus!
