use pi0_kernel::bootloader_shared::is_pi_get_prog_info_byte;
use pi0_kernel::caches;
use pi0_kernel::coprocessor::{Domain, LockdownPA, LockdownVA, CP15CR, DACR};
use pi0_kernel::cycle_counter::{delay, delay_until, init};
use pi0_kernel::debug::{
    data_abort_vector, get_breakpoint_status, get_watchpoint_status, set_breakpoint_status,
    set_watchpoint_status, setup, BreakpointStatus, WatchpointStatus,
};
use pi0_kernel::virtual_memory;
use pi0_kernel::virtual_memory::{
    allow_segment_illegal_access, disallow_segment_illegal_access, is_enabled, pin_mmu_sec,
    set_ctx, tex_cbs_from_bits, tlb_contains_va, to_megabyte, ApxAP, PageSize, PinAttributes,
    PinError, TexCBS,
};

#[test]
fn caches_bits() {
    assert_eq!(caches::enable(0), 0x1800);
    assert_eq!(caches::disable(0xffff_ffff), 0xffff_e7ff);
    assert_eq!(CP15CR::write(CP15CR::read(5)), 5);
}

#[test]
fn watchpoint_encoding() {
    assert_eq!(get_watchpoint_status(0), WatchpointStatus::Disabled);
    assert_eq!(
        get_watchpoint_status(0b11001),
        WatchpointStatus::Enabled { load: true, store: true }
    );
    let w = set_watchpoint_status(0x1e0, WatchpointStatus::Enabled { load: true, store: false });
    assert_eq!(w, 0x1e0 | (0b10 << 3) | 1);
    assert_eq!(get_watchpoint_status(w), WatchpointStatus::Enabled { load: true, store: false });
    assert_eq!(set_watchpoint_status(w, WatchpointStatus::Disabled), w & !1);
}

#[test]
fn breakpoint_encoding() {
    let b = set_breakpoint_status(0x1e6, BreakpointStatus::Enabled { matching: false });
    assert_eq!(b, 0x1e6 | (1 << 22) | 1);
    assert_eq!(get_breakpoint_status(b), BreakpointStatus::Enabled { matching: false });
    let b = set_breakpoint_status(b, BreakpointStatus::Enabled { matching: true });
    assert_eq!(b, 0x1e7);
    assert_eq!(get_breakpoint_status(0x1e6), BreakpointStatus::Disabled);
}

#[test]
fn data_abort_with_watchpoint_disables_it() {
    assert_eq!(data_abort_vector(0x1ff), 0x1fe);
    assert_eq!(data_abort_vector(0x1), 0x0);
}

#[test]
fn debug_setup_values() {
    let s = setup(1 << 14);
    assert_eq!(s.dscr, (1 << 15) | (1 << 11));
    assert_eq!(s.wcr, 0x1fe);
    assert_eq!(s.bcr, 0x1e6);
    assert_eq!(s.wvr, 0);
    assert_eq!(s.bvr, 0);
}

#[test]
fn domain_and_lockdown_fields() {
    assert_eq!(DACR::only(1, Domain::Client).0, 0b0100);
    assert_eq!(DACR::only(15, Domain::Manager).0, 0xc000_0000);
    assert_eq!(LockdownVA::read(0x2000_0200).get_va(), 0x2000_0000);
    assert_eq!(LockdownPA(0x2000_00c3).get_pa(), 0x2000_0000);
}

#[test]
fn pinning_sections() {
    let device = PinAttributes {
        global: true,
        asid: 0,
        domain_id: 1,
        page_size: PageSize::Mb1,
        tex_c_b_s: TexCBS::StronglyOrdered,
        memory_permissions: ApxAP::NoAccessUser,
    };
    let e = pin_mmu_sec(4, 0x2000_0000, 0x2000_0000, device).unwrap();
    assert_eq!(e.va, 0x2000_0200);
    assert_eq!(e.pa, 0x2000_00c3);
    assert_eq!(e.attributes, 0x80);
    assert_eq!(pin_mmu_sec(8, 0, 0, device), Err(PinError::IndexTooLarge));
    assert_eq!(pin_mmu_sec(0, 0x1000, 0, device), Err(PinError::UnalignedVa));
    assert_eq!(pin_mmu_sec(0, 0, 0x1000, device), Err(PinError::UnalignedPa));
    let bad = PinAttributes { domain_id: 16, ..device };
    assert_eq!(pin_mmu_sec(0, 0, 0, bad), Err(PinError::DomainTooLarge));
    let bad = PinAttributes { asid: 3, ..device };
    assert_eq!(pin_mmu_sec(0, 0, 0, bad), Err(PinError::GlobalWithAsid));
    let e = allow_segment_illegal_access();
    assert_eq!(e.index, 7);
    assert_eq!(e.va, 0x0a70_0200);
    assert_eq!(disallow_segment_illegal_access(e.pa), e.pa & !1);
}

#[test]
fn memory_helpers() {
    assert_eq!(to_megabyte(3), 0x30_0000);
    assert!(is_enabled(0x00c5_0079));
    assert!(!is_enabled(0x00c5_0078));
    assert_eq!(tlb_contains_va(0x2000_0000), Ok(0x2000_0000));
    assert_eq!(tlb_contains_va(0x0000_000d), Err(0x0000_000d));
    assert_eq!(set_ctx(128, 1), 0x8001);
    assert_eq!(tex_cbs_from_bits(4), Some(TexCBS::Uncached));
    assert_eq!(tex_cbs_from_bits(7), None);
}

#[test]
fn mmu_control_bits() {
    let c = virtual_memory::init(0x0005_0078);
    assert_eq!(c, 0x0085_0078);
    let on = virtual_memory::enable(c);
    assert_eq!(on, 0x0085_0079);
    assert!(is_enabled(on));
    assert_eq!(virtual_memory::disable(on), c);
}

#[test]
fn cycle_counter_waits() {
    assert_eq!(init(), 1);
    assert_eq!(delay_until(1000, 400), 600);
    assert_eq!(delay_until(5, 0xffff_fffb), 10);
    assert!(delay(0xffff_fff0, 0x5, 0x20));
    assert!(!delay(10, 50, 40));
}

#[test]
fn prog_info_bytes() {
    assert!(is_pi_get_prog_info_byte(0xEE));
    assert!(is_pi_get_prog_info_byte(0xFF));
    assert!(!is_pi_get_prog_info_byte(0xEF));
}
