use pi0_kernel::timer::{delay_ms, delay_us, timer_control_word, TimerSource, ARM_TIMER_IRQ};

#[test]
fn control_word_for_each_prescale() {
    assert_eq!(timer_control_word(1), Some(0xa2));
    assert_eq!(timer_control_word(16), Some(0xa6));
    assert_eq!(timer_control_word(256), Some(0xaa));
    assert_eq!(timer_control_word(8), None);
    assert_eq!(timer_control_word(0), None);
}

#[test]
fn configure_then_count_interrupts() {
    // reload 0x100 ticks at a 1 MHz clock divided by 16: 4096 us apart.
    let reload = 0x100;
    let period = reload * 16;
    let mut t = TimerSource::new();
    assert!(!t.timer_initialized());
    let regs = t.timer_init(16, reload);
    assert!(t.timer_initialized());
    assert_eq!(regs.load, reload);
    assert_eq!(regs.control, 0xa6);
    assert_eq!(regs.irq_enable_basic, ARM_TIMER_IRQ);
    let n = 20u32;
    let start = 5_000u32;
    let mut periods = Vec::new();
    for k in 0..n {
        assert!(t.record_interrupt(true, false, start + k * period));
        periods.push(t.get_period());
    }
    assert_eq!(t.get_cnt(), n);
    assert_eq!(periods[0], 0);
    for p in &periods[1..] {
        assert!(p.abs_diff(period) <= 1);
    }
    assert_eq!(t.get_period_sum(), (n - 1) * period);
}

#[test]
fn other_sources_and_claimed_interrupts_leave_telemetry() {
    let mut t = TimerSource::new();
    t.timer_init(1, 10);
    assert!(!t.record_interrupt(false, false, 100));
    assert_eq!(t.get_cnt(), 0);
    assert!(t.record_interrupt(true, false, 100));
    assert!(!t.record_interrupt(true, true, 150));
    assert_eq!(t.get_cnt(), 1);
    assert!(t.record_interrupt(true, false, 200));
    assert_eq!(t.get_period(), 100);
}

#[test]
fn period_across_clock_wrap() {
    let mut t = TimerSource::new();
    t.timer_init(256, 1);
    t.record_interrupt(true, false, 0xffff_fff0);
    t.record_interrupt(true, false, 0x10);
    assert_eq!(t.get_period(), 0x20);
}

#[test]
fn reconfigure_forgets_last_reading() {
    let mut t = TimerSource::new();
    t.timer_init(1, 10);
    t.record_interrupt(true, false, 100);
    t.record_interrupt(true, false, 300);
    t.timer_init(1, 10);
    t.record_interrupt(true, false, 1000);
    assert_eq!(t.get_period(), 0);
    assert_eq!(t.get_cnt(), 3);
}

#[test]
fn delays() {
    assert!(delay_us(100, 150, 50));
    assert!(!delay_us(100, 149, 50));
    assert!(delay_us(0xffff_ff00, 0x10, 0x110));
    assert_eq!(delay_ms(500), 500_000);
}

#[test]
fn counts_from_boot() {
    let mut t = TimerSource::new();
    t.timer_init(256, 50);
    for k in 0..7u32 {
        t.record_interrupt(true, false, 1000 + 300 * k);
        assert_eq!(t.get_cnt(), k + 1);
        assert_eq!(t.get_period(), if k == 0 { 0 } else { 300 });
    }
}
