use gb_core::Gameboy;
use gb_core::GameboyNamedRegister16;
use gb_core::GameboyNamedRegister8;
use gb_core::GameboyRegisterFlags;
use gb_core::GameboyRegisters;

#[test]
fn power_on_defaults() {
    let regs = GameboyRegisters::new();
    assert_eq!(regs.af, 0x01B0);
    assert_eq!(regs.bc, 0x0013);
    assert_eq!(regs.de, 0x00D8);
    assert_eq!(regs.hl, 0x014D);
    assert_eq!(regs.pc, 0x0100);
    assert_eq!(regs.sp, 0xFFFE);
}

#[test]
fn reg8_roundtrip_all() {
    let mut regs = GameboyRegisters::new();
    let names = [
        GameboyNamedRegister8::A,
        GameboyNamedRegister8::B,
        GameboyNamedRegister8::C,
        GameboyNamedRegister8::D,
        GameboyNamedRegister8::E,
        GameboyNamedRegister8::H,
        GameboyNamedRegister8::L,
    ];
    for (i, name) in names.iter().enumerate() {
        let value = 0x11u8.wrapping_mul(i as u8 + 1);
        regs.set_reg8(name, value);
        assert_eq!(regs.get_reg8(name), value);
    }
}

#[test]
fn pair_halves_are_independent() {
    // Writing the high half then reading the low half returns the value
    // most recently written to the low half, for each pair.
    let pairs = [
        (GameboyNamedRegister8::B, GameboyNamedRegister8::C),
        (GameboyNamedRegister8::D, GameboyNamedRegister8::E),
        (GameboyNamedRegister8::H, GameboyNamedRegister8::L),
    ];
    for (high, low) in pairs.iter() {
        let mut regs = GameboyRegisters::new();
        regs.set_reg8(low, 0xAA);
        regs.set_reg8(high, 0x55);
        assert_eq!(regs.get_reg8(low), 0xAA);
        assert_eq!(regs.get_reg8(high), 0x55);
    }
}

#[test]
fn accumulator_does_not_disturb_flags() {
    let mut regs = GameboyRegisters::new();
    regs.set_flag(GameboyRegisterFlags::Z, true);
    regs.set_flag(GameboyRegisterFlags::C, false);
    regs.set_reg8(&GameboyNamedRegister8::A, 0xFF);
    assert!(regs.get_flag(GameboyRegisterFlags::Z));
    assert!(!regs.get_flag(GameboyRegisterFlags::C));
    regs.set_reg8(&GameboyNamedRegister8::A, 0x00);
    assert!(regs.get_flag(GameboyRegisterFlags::Z));
}

#[test]
fn reg16_roundtrip_all_supported() {
    let mut regs = GameboyRegisters::new();
    let names = [
        GameboyNamedRegister16::BC,
        GameboyNamedRegister16::DE,
        GameboyNamedRegister16::HL,
        GameboyNamedRegister16::SP,
        GameboyNamedRegister16::PC,
    ];
    for (i, name) in names.iter().enumerate() {
        let value = 0x1111u16.wrapping_mul(i as u16 + 1);
        regs.set_reg16(name, value);
        assert_eq!(regs.get_reg16(name), value);
    }
}

#[test]
fn flags_set_and_clear_each_bit() {
    let mut regs = GameboyRegisters::new();
    let flags = [
        GameboyRegisterFlags::Z,
        GameboyRegisterFlags::N,
        GameboyRegisterFlags::H,
        GameboyRegisterFlags::C,
    ];
    for flag in flags.iter() {
        regs.set_flag(*flag, true);
        assert!(regs.get_flag(*flag));
        regs.set_flag(*flag, false);
        assert!(!regs.get_flag(*flag));
    }
}

#[test]
fn setting_one_flag_leaves_others() {
    let mut regs = GameboyRegisters::new();
    regs.set_flag(GameboyRegisterFlags::Z, true);
    regs.set_flag(GameboyRegisterFlags::N, true);
    regs.set_flag(GameboyRegisterFlags::H, false);
    regs.set_flag(GameboyRegisterFlags::C, true);
    regs.set_flag(GameboyRegisterFlags::H, true);
    assert!(regs.get_flag(GameboyRegisterFlags::Z));
    assert!(regs.get_flag(GameboyRegisterFlags::N));
    assert!(regs.get_flag(GameboyRegisterFlags::C));
}

#[test]
fn flag_low_nibble_stays_zero() {
    // The low four bits of the flags byte stay zero through flag writes.
    let mut regs = GameboyRegisters::new();
    assert_eq!(regs.af & 0x000F, 0);
    regs.set_flag(GameboyRegisterFlags::Z, true);
    regs.set_flag(GameboyRegisterFlags::N, true);
    regs.set_flag(GameboyRegisterFlags::H, true);
    regs.set_flag(GameboyRegisterFlags::C, true);
    assert_eq!(regs.af & 0x000F, 0);
    regs.set_flag(GameboyRegisterFlags::Z, false);
    regs.set_flag(GameboyRegisterFlags::C, false);
    assert_eq!(regs.af & 0x000F, 0);
}

#[test]
fn machine_reset_restores_registers_keeps_memory() {
    let mut gb = Gameboy::new();
    gb.write_byte(0x4000, 0x99);
    gb.registers.pc = 0x2222;
    gb.registers.sp = 0x3333;
    gb.reset();
    assert_eq!(gb.registers.pc, 0x0100);
    assert_eq!(gb.registers.sp, 0xFFFE);
    assert_eq!(gb.read_byte(0x4000), 0x99);
}
