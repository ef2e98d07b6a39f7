use pi0_kernel::gpio::{Pin, PinFsel, GPSET0};
use pi0_kernel::profile::{Gprof, CODE_START};
use pi0_kernel::uart::{
    baud_register, read_uart_u32_timeout, setup_uart, write_uart_u32, SWUart,
    ASSUMED_CLOCK_RATE, CYCLES_PER_BIT, DESIRED_BAUD_RATE,
};

#[test]
fn words_are_little_endian() {
    assert_eq!(write_uart_u32(0x1122_3344), vec![0x44, 0x33, 0x22, 0x11]);
    assert_eq!(read_uart_u32_timeout(&vec![0xad, 0xde, 0xef, 0xbe]), Ok(0xbeef_dead));
    assert_eq!(read_uart_u32_timeout(&vec![0xad, 0xde, 0xef]), Err(()));
    assert_eq!(read_uart_u32_timeout(&write_uart_u32(0xeeee_ffff)), Ok(0xeeee_ffff));
}

#[test]
fn software_uart_frames() {
    let (u, fsel, high) = SWUart::setup_output(Pin::forge(20, PinFsel::Unset));
    assert_eq!(fsel.or_mask, 1);
    assert_eq!(high.address, GPSET0);
    assert_eq!(high.value, 1 << 20);
    let steps = u.write(&vec![0b1010_0101], 100);
    assert_eq!(steps.len(), 10);
    let levels: Vec<bool> = steps.iter().map(|s| s.level).collect();
    assert_eq!(
        levels,
        vec![false, true, false, true, false, false, true, false, true, true]
    );
    assert_eq!(steps[0].deadline, 100 + CYCLES_PER_BIT);
    assert_eq!(steps[9].deadline, 100 + 10 * CYCLES_PER_BIT);
    let wrapped = u.write(&vec![0, 0xff], 0xffff_ffff);
    assert_eq!(wrapped.len(), 20);
    assert_eq!(wrapped[0].deadline, CYCLES_PER_BIT - 1);
    assert!(wrapped[12].level);
    assert_eq!(u.consume().fsel(), PinFsel::Output);
}

#[test]
fn profile_histogram() {
    let mut g = Gprof::gprof_init(CODE_START + 64);
    assert_eq!(g.len(), 16);
    assert_eq!(g.pc_start(), CODE_START);
    g.gprof_inc(CODE_START + 8);
    g.gprof_inc(CODE_START + 9);
    g.gprof_inc(CODE_START + 60);
    assert_eq!(g.count(2), 2);
    assert_eq!(g.count(15), 1);
    assert_eq!(g.count(0), 0);
    assert_eq!(g.gprof_total(), 3);
}

#[test]
fn mini_uart_setup() {
    assert_eq!(baud_register(ASSUMED_CLOCK_RATE, DESIRED_BAUD_RATE), Some(32));
    assert_eq!(baud_register(250_000_000, 115_200), Some(270));
    assert_eq!(baud_register(100, 0), None);
    assert_eq!(baud_register(7, 1), None);
    let (_, u14, u15) = setup_uart(Pin::forge(14, PinFsel::Unset), Pin::forge(15, PinFsel::Unset));
    assert_eq!(u14.address, 0x20200004);
    assert_eq!(u14.or_mask, 0b010 << 12);
    assert_eq!(u15.or_mask, 0b010 << 15);
}
