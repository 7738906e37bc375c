use lib::emulator::cpu::registers::Registers;

#[test]
fn registers_start_with_boot_values() {
    let r = Registers::new();
    assert_eq!(r.get_af(), 0x01B0);
    assert_eq!(r.get_bc(), 0x0013);
    assert_eq!(r.get_de(), 0x00D8);
    assert_eq!(r.get_hl(), 0x014D);
    assert_eq!(r.pc, 0x100);
    assert_eq!(r.sp, 0xFFFE);
}

#[test]
fn register_pairs_round_trip() {
    let mut r = Registers::new();
    r.set_bc(0x1234);
    assert_eq!((r.b, r.c), (0x12, 0x34));
    assert_eq!(r.get_bc(), 0x1234);
    r.set_de(0xBEEF);
    assert_eq!(r.get_de(), 0xBEEF);
    r.set_hl(0x0001);
    assert_eq!(r.get_hl(), 0x0001);
    // The low nibble of F reads as zero
    r.set_af(0x12FF);
    assert_eq!(r.f, 0xFF);
    assert_eq!(r.get_af(), 0x12F0);
}

#[test]
fn flags() {
    let mut r = Registers::new();
    r.f = 0;
    r.set_zero_flag(true);
    assert_eq!(r.f, 0x80);
    r.set_subtract_flag(true);
    r.set_halfcarry_flag(true);
    r.set_carry_flag(true);
    assert_eq!(r.f, 0xF0);
    assert!(r.get_zero_flag() && r.get_subtract_flag() && r.get_halfcarry_flag() && r.get_carry_flag());
    r.set_halfcarry_flag(false);
    assert_eq!(r.f, 0xD0);
    assert!(!r.get_halfcarry_flag());
    r.reset_flags_and_set_zero(0);
    assert_eq!(r.f, 0x80);
    r.reset_flags_and_set_zero(5);
    assert_eq!(r.f, 0x00);
}

#[test]
fn minimal_registers() {
    let mut r = lib::minimal::cpu::registers::Registers::new();
    r.set_hl(0xC0DE);
    assert_eq!(r.get_hl(), 0xC0DE);
    r.set_af(0xABCD);
    assert_eq!(r.get_af(), 0xABCD); // this register file keeps all of F
    r.reset_flags_and_set_zero(0);
    assert!(r.get_zero_flag());
}
