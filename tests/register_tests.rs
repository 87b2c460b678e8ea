use cpu_registers::bits::{ADDSUB_MASK, CARRY_MASK, HALF_CARRY_MASK, ZERO_MASK};
use cpu_registers::register::{Flags, FlagsMut, Register, Registers};

#[test]
fn can_manipulate_zero_flag() {
    let mut value = 0b0011_1111;
    let mut flags = FlagsMut(&mut value);

    flags.zero_on();
    assert_eq!(0b1011_1111, value);
    assert!(Flags(value).zero());

    let mut flags = FlagsMut(&mut value);
    flags.zero_off();
    assert_eq!(0b0011_1111, value);
    assert!(!Flags(value).zero());
}

#[test]
fn wide_write_reads_back_with_halves() {
    for v in [0u16, 1, 0x00ff, 0xff00, 0x1234, 0xffff, 0x8001] {
        let mut r = Register::new();
        r.set_wide(v);
        assert_eq!(r.wide(), v);
        assert_eq!(r.high(), (v >> 8) as u8);
        assert_eq!(r.low(), v as u8);
    }
}

#[test]
fn byte_order_is_high_then_low() {
    let mut r = Register::new();
    r.set_wide(0xABCD);
    assert_eq!(r.high(), 0xAB);
    assert_eq!(r.low(), 0xCD);
    assert_eq!(Register::from_wide(0xABCD).wide(), 0xABCD);
}

#[test]
fn halves_in_either_order_build_the_pair() {
    let mut r = Register::from_wide(0x5a5a);
    r.set_high(0x12);
    r.set_low(0x34);
    assert_eq!(r.wide(), 0x1234);

    let mut r = Register::from_wide(0xffff);
    r.set_low(0x34);
    r.set_high(0x12);
    assert_eq!(r.wide(), 0x1234);
}

#[test]
fn writing_one_half_keeps_the_other() {
    let mut r = Register::from_wide(0xABCD);
    r.set_high(0x01);
    assert_eq!(r.low(), 0xCD);
    assert_eq!(r.wide(), 0x01CD);

    let mut r = Register::from_wide(0xABCD);
    r.set_low(0x02);
    assert_eq!(r.high(), 0xAB);
    assert_eq!(r.wide(), 0xAB02);
}

#[test]
fn byte_references_write_through() {
    let mut r = Register::from_wide(0xABCD);
    *r.high_mut() = 0x11;
    assert_eq!(r.wide(), 0x11CD);
    *r.low_mut() = 0x22;
    assert_eq!(r.wide(), 0x1122);
}

#[test]
fn each_flag_reads_what_was_written() {
    let mut f = 0u8;
    FlagsMut(&mut f).zero_on();
    assert!(Flags(f).zero());
    FlagsMut(&mut f).addsub_on();
    assert!(Flags(f).addsub());
    FlagsMut(&mut f).half_carry_on();
    assert!(Flags(f).half_carry());
    FlagsMut(&mut f).carry_on();
    assert!(Flags(f).carry());
    assert_eq!(f, 0xf0);

    FlagsMut(&mut f).zero_off();
    assert!(!Flags(f).zero());
    FlagsMut(&mut f).addsub_off();
    assert!(!Flags(f).addsub());
    FlagsMut(&mut f).half_carry_off();
    assert!(!Flags(f).half_carry());
    FlagsMut(&mut f).carry_off();
    assert!(!Flags(f).carry());
    assert_eq!(f, 0x00);
}

#[test]
fn flag_masks_are_the_documented_bits() {
    assert_eq!(ZERO_MASK, 0x80);
    assert_eq!(ADDSUB_MASK, 0x40);
    assert_eq!(HALF_CARRY_MASK, 0x20);
    assert_eq!(CARRY_MASK, 0x10);
}

#[test]
fn one_flag_never_moves_another() {
    let mut f = 0b0000_1010u8;
    FlagsMut(&mut f).carry_on();
    assert_eq!(f, 0b0001_1010);
    assert!(!Flags(f).zero());
    assert!(!Flags(f).addsub());
    assert!(!Flags(f).half_carry());

    FlagsMut(&mut f).addsub_on();
    assert_eq!(f, 0b0101_1010);
    FlagsMut(&mut f).half_carry_on();
    assert_eq!(f, 0b0111_1010);

    let mut g = 0xffu8;
    FlagsMut(&mut g).half_carry_off();
    assert_eq!(g, 0b1101_1111);
    assert!(Flags(g).zero());
    assert!(Flags(g).addsub());
    assert!(Flags(g).carry());
    FlagsMut(&mut g).addsub_off();
    assert_eq!(g, 0b1001_1111);
    FlagsMut(&mut g).carry_off();
    assert_eq!(g, 0b1000_1111);
}

#[test]
fn turning_a_flag_on_twice_is_turning_it_on_once() {
    let mut once = 0b0010_0101u8;
    FlagsMut(&mut once).carry_on();
    let mut twice = 0b0010_0101u8;
    let mut view = FlagsMut(&mut twice);
    view.carry_on();
    view.carry_on();
    assert_eq!(once, twice);
    assert_eq!(twice, 0b0011_0101);
}

#[test]
fn register_file_names_map_to_pair_halves() {
    let regs = Registers::from_pairs(0x1122, 0x3344, 0x5566, 0x7788);
    assert_eq!(regs.a(), 0x11);
    assert_eq!(regs.f(), 0x22);
    assert_eq!(regs.b(), 0x33);
    assert_eq!(regs.c(), 0x44);
    assert_eq!(regs.d(), 0x55);
    assert_eq!(regs.e(), 0x66);
    assert_eq!(regs.h(), 0x77);
    assert_eq!(regs.l(), 0x88);
    assert_eq!(regs.af(), 0x1122);
    assert_eq!(regs.bc(), 0x3344);
    assert_eq!(regs.de(), 0x5566);
    assert_eq!(regs.hl(), 0x7788);
}

#[test]
fn register_file_starts_at_zero() {
    let regs = Registers::new();
    assert_eq!(regs.af(), 0);
    assert_eq!(regs.bc(), 0);
    assert_eq!(regs.de(), 0);
    assert_eq!(regs.hl(), 0);
}

#[test]
fn register_file_byte_writes_touch_one_byte() {
    let mut regs = Registers::new();
    regs.set_a(0xA1);
    regs.set_f(0xF1);
    regs.set_b(0xB1);
    regs.set_c(0xC1);
    regs.set_d(0xD1);
    regs.set_e(0xE1);
    regs.set_h(0x41);
    regs.set_l(0x51);
    assert_eq!(regs.af(), 0xA1F1);
    assert_eq!(regs.bc(), 0xB1C1);
    assert_eq!(regs.de(), 0xD1E1);
    assert_eq!(regs.hl(), 0x4151);

    regs.set_bc(0x0102);
    assert_eq!(regs.b(), 0x01);
    assert_eq!(regs.c(), 0x02);
    assert_eq!(regs.af(), 0xA1F1);
    regs.set_af(0x0304);
    regs.set_de(0x0506);
    regs.set_hl(0x0708);
    assert_eq!(regs.a(), 0x03);
    assert_eq!(regs.e(), 0x06);
    assert_eq!(regs.l(), 0x08);
}

#[test]
fn flags_view_over_accumulator_pair() {
    let mut regs = Registers::from_pairs(0x127f, 0xBEEF, 0, 0);
    regs.flags_mut().zero_on();
    assert_eq!(regs.f(), 0b1111_1111);
    assert_eq!(regs.a(), 0x12);
    assert!(regs.flags().zero());
    assert!(regs.flags().addsub());
    regs.flags_mut().addsub_off();
    assert_eq!(regs.af(), 0x12bf);
    assert!(!regs.flags().addsub());
    assert!(regs.flags().zero());
    assert_eq!(regs.bc(), 0xBEEF);
}
