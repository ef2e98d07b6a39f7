use pi0_kernel::vectors::{
    is_software_interrupt, swi_call_number, corrected_pc, return_address_offset, syscall_vector, trap_kind_of_slot, vector_slot,
    InstallError, TrapAction, TrapKind, TrapState, VectorBase, VECTOR_SLOTS,
};

#[test]
fn slots_follow_table_order() {
    let kinds = [
        TrapKind::Reset,
        TrapKind::UndefinedInstruction,
        TrapKind::SoftwareInterrupt,
        TrapKind::PrefetchAbort,
        TrapKind::DataAbort,
        TrapKind::Reserved,
        TrapKind::IrqOrFiq,
    ];
    for (i, k) in kinds.iter().enumerate() {
        assert_eq!(vector_slot(*k), i);
        assert_eq!(trap_kind_of_slot(i), Some(*k));
    }
    assert_eq!(trap_kind_of_slot(VECTOR_SLOTS), None);
}

#[test]
fn link_register_correction_depends_on_kind() {
    assert_eq!(return_address_offset(TrapKind::IrqOrFiq), 4);
    assert_eq!(return_address_offset(TrapKind::DataAbort), 8);
    assert_eq!(corrected_pc(TrapKind::IrqOrFiq, 0x8104), 0x8100);
    assert_eq!(corrected_pc(TrapKind::DataAbort, 0x8108), 0x8100);
    assert_eq!(corrected_pc(TrapKind::SoftwareInterrupt, 0x8004), 0x8000);
}

#[test]
fn install_masks_interrupts_and_copies() {
    let table: Vec<u32> = (0..14u32).map(|i| 0xe59ff000 + i).collect();
    let mut base = VectorBase::new(32);
    let mut cpsr: u32 = 0b10011;
    assert_eq!(base.interrupt_init(&mut cpsr, &vec![1, 2, 3]), Err(InstallError::TooShort));
    assert_eq!(cpsr, 0b10011 | 0x80);
    assert_eq!(base.interrupt_init(&mut cpsr, &vec![7; 40]), Err(InstallError::TooLong));
    assert!(!base.is_installed());
    let mut cpsr: u32 = 0b10011;
    assert_eq!(base.interrupt_init(&mut cpsr, &table), Ok(()));
    assert_eq!(cpsr, 0b10011 | 0x80);
    assert!(base.is_installed());
    assert_eq!(&base.memory()[..14], &table[..]);
    assert_eq!(base.memory()[14], 0);
}

#[test]
fn trap_state_machine() {
    let mut s = TrapState::Idle;
    assert_eq!(
        s.enter(TrapKind::DataAbort, 0x9008),
        TrapAction::Fatal { kind: TrapKind::DataAbort, pc: 0x9000 }
    );
    assert_eq!(s, TrapState::InTrap { kind: TrapKind::DataAbort, pc: 0x9000 });
    s.leave();
    assert_eq!(s, TrapState::Idle);
    assert_eq!(s.enter(TrapKind::IrqOrFiq, 0x9004), TrapAction::Interrupt { pc: 0x9000 });
    s.leave();
    assert_eq!(s.enter(TrapKind::SoftwareInterrupt, 0x9004), TrapAction::Syscall { pc: 0x9000 });
}

#[test]
fn syscalls_by_number() {
    assert_eq!(syscall_vector(0xef000000), 0);
    assert_eq!(syscall_vector(0xef000001), 0);
    assert_eq!(syscall_vector(0xef000002), -1);
    assert!(is_software_interrupt(0xef000007));
    assert_eq!(swi_call_number(0xef000007), 7);
    assert!(!is_software_interrupt(0xe12fff1e));
}
