use pi0_kernel::add;
use pi0_kernel::gpio::{apply_fsel, valid_pin, Pin, PinFsel, GPCLR0, GPLEV0, GPSET0};

#[test]
fn it_works() {
    let result = add(2, 2);
    assert_eq!(result, 4);
}

#[test]
fn valid_pin_bounds() {
    assert!(valid_pin(0));
    assert!(valid_pin(53));
    assert!(!valid_pin(54));
}

#[test]
fn into_output_selects_function_one() {
    let (pin, u) = Pin::forge(14, PinFsel::Unset).into_output();
    assert_eq!(pin.fsel(), PinFsel::Output);
    assert_eq!(pin.index(), 14);
    assert_eq!(u.address, 0x20200004);
    assert_eq!(u.and_mask, !(0b111u32 << 12));
    assert_eq!(u.or_mask, 0b001u32 << 12);
    assert_eq!(apply_fsel(0xffff_ffff, u), (0xffff_ffff & !(0b111u32 << 12)) | (1 << 12));
}

#[test]
fn into_alt5_and_alt0_codes() {
    let (_, u) = Pin::forge(15, PinFsel::Unset).into_alt5();
    assert_eq!(u.or_mask, 0b010u32 << 15);
    let (_, u) = Pin::forge(53, PinFsel::Unset).into_alt0();
    assert_eq!(u.address, 0x20200014);
    assert_eq!(u.or_mask, 0b100u32 << 9);
    let (p, u) = Pin::forge(7, PinFsel::Output).into_input();
    assert_eq!(p.fsel(), PinFsel::Input);
    assert_eq!(u.or_mask, 0);
    assert_eq!(u.and_mask, !(0b111u32 << 21));
    assert_eq!(p.erase().fsel(), PinFsel::Unset);
}

#[test]
fn output_write_targets_set_and_clear_banks() {
    let (pin, _) = Pin::forge(47, PinFsel::Unset).into_output();
    let w = pin.write(true);
    assert_eq!(w.address, GPSET0 + 4);
    assert_eq!(w.value, 1 << 15);
    let w = pin.write(false);
    assert_eq!(w.address, GPCLR0 + 4);
    let (pin, _) = Pin::forge(3, PinFsel::Unset).into_output();
    let w = pin.write(true);
    assert_eq!(w.address, GPSET0);
    assert_eq!(w.value, 1 << 3);
}

#[test]
fn input_read_picks_pin_bit() {
    let (pin, _) = Pin::forge(33, PinFsel::Unset).into_input();
    assert_eq!(pin.level_register(), GPLEV0 + 4);
    assert!(pin.read(0b10));
    assert!(!pin.read(0b01));
}
