use pi0_kernel::interrupts::{
    critical_section_acquire, critical_section_release, disable_interrupts, enable_interrupts,
    interrupts_enabled,
};

const SUPER_MODE: u32 = 0b10011;

#[test]
fn enable_and_disable_report_prior_state() {
    let mut cpsr = SUPER_MODE | 0x80;
    assert!(!interrupts_enabled(cpsr));
    assert!(!enable_interrupts(&mut cpsr));
    assert_eq!(cpsr, SUPER_MODE);
    assert!(interrupts_enabled(cpsr));
    assert!(enable_interrupts(&mut cpsr));
    assert!(disable_interrupts(&mut cpsr));
    assert_eq!(cpsr, SUPER_MODE | 0x80);
    assert!(!disable_interrupts(&mut cpsr));
    assert_eq!(cpsr, SUPER_MODE | 0x80);
}

#[test]
fn disable_then_restore_gives_back_the_status_word() {
    for start in [SUPER_MODE, SUPER_MODE | 0x80, 0xffff_ffff, 0] {
        let mut cpsr = start;
        let token = critical_section_acquire(&mut cpsr);
        assert!(!interrupts_enabled(cpsr));
        critical_section_release(&mut cpsr, token);
        assert_eq!(cpsr, start);
    }
}

#[test]
fn nested_critical_sections_stay_masked_until_the_outer_one_closes() {
    let mut cpsr = SUPER_MODE;
    let outer = critical_section_acquire(&mut cpsr);
    let inner = critical_section_acquire(&mut cpsr);
    assert!(outer);
    assert!(!inner);
    critical_section_release(&mut cpsr, inner);
    assert!(!interrupts_enabled(cpsr));
    critical_section_release(&mut cpsr, outer);
    assert!(interrupts_enabled(cpsr));
    assert_eq!(cpsr, SUPER_MODE);
}
