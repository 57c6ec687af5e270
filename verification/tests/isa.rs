use gb_core::Gameboy;
use gb_core::GameboyError;
use gb_core::GameboyInstruction;
use gb_core::GameboyInstructionFamily;
use gb_core::GameboyInstructionOperand;
use gb_core::GameboyNamedRegister16;
use gb_core::GameboyNamedRegister8;
use gb_core::GameboyRegisterFlags;

fn machine_with(program: &[u8]) -> Gameboy {
    let mut gb = Gameboy::new();
    gb.write_bytes(0x0100, program);
    gb
}

#[test]
fn decode_returns_table_entry_and_consumes_immediates() {
    let mut gb = Gameboy::new();
    gb.write_bytes(0x0100, &[0x34, 0x12]);
    let i = gb.decode(0x01).unwrap();
    assert_eq!(i.opcode, 0x01);
    assert_eq!(i.mnemonic, "LD BC, n16");
    assert_eq!(i.instruction_family, GameboyInstructionFamily::LD);
    assert_eq!(i.operand1, Some(GameboyInstructionOperand::Register16(GameboyNamedRegister16::BC)));
    assert_eq!(i.operand2, Some(GameboyInstructionOperand::Immediate16(0x1234)));
    assert_eq!(i.cycles, 12);
    assert_eq!(i.size, 3);
    assert_eq!(gb.registers.pc, 0x0102);
}

#[test]
fn decode_prefix_returns_extended_table_entry() {
    let mut gb = Gameboy::new();
    let i = gb.decode_prefix(0x37).unwrap();
    assert_eq!(i.mnemonic, "SWAP A");
    assert_eq!(i.instruction_family, GameboyInstructionFamily::SWAP);
    assert_eq!(i.operand1, Some(GameboyInstructionOperand::Register8(GameboyNamedRegister8::A)));
    let err = gb.decode_prefix(0x00).unwrap_err();
    assert!(matches!(err, GameboyError::UnknownOpcode { opcode: 0x00, .. }));
}

#[test]
fn nop_advances_pc_and_changes_nothing() {
    // Opcode 0x00 decodes to the no-op and advances the counter by one.
    let mut gb = machine_with(&[0x00]);
    let before = gb.registers;
    assert!(gb.step().is_ok());
    assert_eq!(gb.registers.pc, 0x0101);
    assert_eq!(gb.registers.af, before.af);
    assert_eq!(gb.registers.bc, before.bc);
    assert_eq!(gb.registers.de, before.de);
    assert_eq!(gb.registers.hl, before.hl);
    assert_eq!(gb.registers.sp, before.sp);
    assert_eq!(gb.read_byte(0x0100), 0x00);
}

#[test]
fn xor_a_always_zeroes_accumulator_and_sets_zero_flag() {
    for prior in [0x00u8, 0x01, 0x55, 0xAB, 0xFF] {
        let mut gb = machine_with(&[0xAF]);
        gb.registers.set_reg8(&GameboyNamedRegister8::A, prior);
        gb.registers.set_flag(GameboyRegisterFlags::Z, false);
        assert!(gb.step().is_ok());
        assert_eq!(gb.registers.get_reg8(&GameboyNamedRegister8::A), 0x00);
        assert!(gb.registers.get_flag(GameboyRegisterFlags::Z));
    }
}

#[test]
fn ld_hl_immediate_roundtrip() {
    // Loading HL with 0x1234 then reading the pair returns 0x1234, and
    // the program counter has advanced by three.
    let mut gb = machine_with(&[0x21, 0x34, 0x12]);
    assert!(gb.step().is_ok());
    assert_eq!(gb.registers.get_reg16(&GameboyNamedRegister16::HL), 0x1234);
    assert_eq!(gb.registers.pc, 0x0103);
}

#[test]
fn relative_jump_minus_two_loops_on_itself() {
    // JR with offset -2 at address 0x0100: decoding consumed the 2-byte
    // instruction, so the net effect is a one-instruction loop.
    let mut gb = machine_with(&[0x18, 0xFE]);
    assert!(gb.step().is_ok());
    assert_eq!(gb.registers.pc, 0x0100);
}

#[test]
fn unknown_opcode_reports_byte_and_address() {
    let mut gb = machine_with(&[0x00, 0x02]);
    assert!(gb.step().is_ok());
    let err = gb.step().unwrap_err();
    assert_eq!(err, GameboyError::UnknownOpcode { opcode: 0x02, address: 0x0101 });
}

#[test]
fn unknown_prefix_opcode_reports_byte_and_address() {
    let mut gb = machine_with(&[0xCB, 0x41]);
    let err = gb.step().unwrap_err();
    assert_eq!(err, GameboyError::UnknownOpcode { opcode: 0x41, address: 0x0101 });
}

#[test]
fn invalid_operand_reports_opcode_and_address() {
    // A compare dispatched with a 16-bit register operand is a shape the
    // operation does not support.
    let mut gb = Gameboy::new();
    let instruction = GameboyInstruction {
        opcode: 0xB8,
        mnemonic: "CP B",
        instruction_family: GameboyInstructionFamily::CP,
        operand1: Some(GameboyInstructionOperand::Register16(GameboyNamedRegister16::BC)),
        operand2: None,
        condition: None,
        cycles: 4,
        size: 1,
    };
    let err = gb.execute(instruction).unwrap_err();
    assert_eq!(err, GameboyError::InvalidOperand { opcode: 0xB8, address: 0x0100 });
}

#[test]
fn inc_then_dec_restores_reg8_with_wraparound() {
    let mut gb = machine_with(&[0x0C, 0x0D]);
    gb.registers.set_reg8(&GameboyNamedRegister8::C, 0xFF);
    assert!(gb.step().is_ok());
    assert_eq!(gb.registers.get_reg8(&GameboyNamedRegister8::C), 0x00);
    assert!(gb.registers.get_flag(GameboyRegisterFlags::Z));
    assert!(gb.step().is_ok());
    assert_eq!(gb.registers.get_reg8(&GameboyNamedRegister8::C), 0xFF);
}

#[test]
fn inc_then_dec_restores_reg16_with_wraparound() {
    let mut gb = machine_with(&[0x03, 0x0B]);
    gb.registers.set_reg16(&GameboyNamedRegister16::BC, 0xFFFF);
    let flags_before = gb.registers.af & 0x00FF;
    assert!(gb.step().is_ok());
    assert_eq!(gb.registers.get_reg16(&GameboyNamedRegister16::BC), 0x0000);
    assert!(gb.step().is_ok());
    assert_eq!(gb.registers.get_reg16(&GameboyNamedRegister16::BC), 0xFFFF);
    // 16-bit increment and decrement touch no flags.
    assert_eq!(gb.registers.af & 0x00FF, flags_before);
}

#[test]
fn compare_mutates_only_flags() {
    let mut gb = machine_with(&[0xB8]);
    gb.registers.set_reg8(&GameboyNamedRegister8::A, 0x42);
    gb.registers.set_reg8(&GameboyNamedRegister8::B, 0x42);
    assert!(gb.step().is_ok());
    assert_eq!(gb.registers.get_reg8(&GameboyNamedRegister8::A), 0x42);
    assert_eq!(gb.registers.get_reg8(&GameboyNamedRegister8::B), 0x42);
    assert!(gb.registers.get_flag(GameboyRegisterFlags::Z));
    assert!(gb.registers.get_flag(GameboyRegisterFlags::N));
}

#[test]
fn compare_borrow_sets_carry() {
    let mut gb = machine_with(&[0xFE, 0x50]);
    gb.registers.set_reg8(&GameboyNamedRegister8::A, 0x40);
    assert!(gb.step().is_ok());
    assert!(!gb.registers.get_flag(GameboyRegisterFlags::Z));
    assert!(gb.registers.get_flag(GameboyRegisterFlags::C));
}

#[test]
fn push_then_pop_restores_pair_and_stack_pointer() {
    let mut gb = machine_with(&[0xC5, 0xC1]);
    gb.registers.set_reg16(&GameboyNamedRegister16::BC, 0xBEEF);
    let sp_before = gb.registers.sp;
    assert!(gb.step().is_ok());
    assert_eq!(gb.registers.sp, sp_before.wrapping_sub(2));
    // Low byte at the lower address.
    assert_eq!(gb.read_byte(gb.registers.sp), 0xEF);
    assert_eq!(gb.read_byte(gb.registers.sp.wrapping_add(1)), 0xBE);
    assert!(gb.step().is_ok());
    assert_eq!(gb.registers.get_reg16(&GameboyNamedRegister16::BC), 0xBEEF);
    assert_eq!(gb.registers.sp, sp_before);
}

#[test]
fn call_pushes_return_address_and_ret_restores_it() {
    let mut gb = machine_with(&[0xCD, 0x00, 0x02]);
    gb.write_byte(0x0200, 0xC9);
    assert!(gb.step().is_ok());
    assert_eq!(gb.registers.pc, 0x0200);
    assert_eq!(gb.registers.sp, 0xFFFC);
    assert_eq!(gb.read_byte(0xFFFC), 0x03);
    assert_eq!(gb.read_byte(0xFFFD), 0x01);
    assert!(gb.step().is_ok());
    assert_eq!(gb.registers.pc, 0x0103);
    assert_eq!(gb.registers.sp, 0xFFFE);
}

#[test]
fn conditional_jump_respects_guard() {
    // JR NZ taken when the Zero flag is clear, a no-effect step when set.
    let mut gb = machine_with(&[0x20, 0x10]);
    gb.registers.set_flag(GameboyRegisterFlags::Z, false);
    assert!(gb.step().is_ok());
    assert_eq!(gb.registers.pc, 0x0112);

    let mut gb2 = machine_with(&[0x20, 0x10]);
    gb2.registers.set_flag(GameboyRegisterFlags::Z, true);
    assert!(gb2.step().is_ok());
    assert_eq!(gb2.registers.pc, 0x0102);
}

#[test]
fn conditional_return_respects_carry() {
    let mut gb = machine_with(&[0xD8]);
    gb.registers.sp = 0xFFF0;
    gb.write_byte(0xFFF0, 0x77);
    gb.write_byte(0xFFF1, 0x06);
    gb.registers.set_flag(GameboyRegisterFlags::C, true);
    assert!(gb.step().is_ok());
    assert_eq!(gb.registers.pc, 0x0677);
    assert_eq!(gb.registers.sp, 0xFFF2);
}

#[test]
fn absolute_jump_and_jump_to_hl() {
    let mut gb = machine_with(&[0xC3, 0x00, 0x40]);
    assert!(gb.step().is_ok());
    assert_eq!(gb.registers.pc, 0x4000);

    let mut gb2 = machine_with(&[0xE9]);
    gb2.registers.set_reg16(&GameboyNamedRegister16::HL, 0x5678);
    assert!(gb2.step().is_ok());
    assert_eq!(gb2.registers.pc, 0x5678);
}

#[test]
fn load_through_pointer_with_auto_increment() {
    // LD (HL+), A stores the accumulator and bumps HL afterwards.
    let mut gb = machine_with(&[0x22, 0x2A]);
    gb.registers.set_reg16(&GameboyNamedRegister16::HL, 0xC000);
    gb.registers.set_reg8(&GameboyNamedRegister8::A, 0x9A);
    assert!(gb.step().is_ok());
    assert_eq!(gb.read_byte(0xC000), 0x9A);
    assert_eq!(gb.registers.get_reg16(&GameboyNamedRegister16::HL), 0xC001);
    // LD A, (HL+) reads back and bumps again.
    gb.write_byte(0xC001, 0x77);
    assert!(gb.step().is_ok());
    assert_eq!(gb.registers.get_reg8(&GameboyNamedRegister8::A), 0x77);
    assert_eq!(gb.registers.get_reg16(&GameboyNamedRegister16::HL), 0xC002);
}

#[test]
fn load_register_to_register() {
    let mut gb = machine_with(&[0x47]);
    gb.registers.set_reg8(&GameboyNamedRegister8::A, 0x31);
    assert!(gb.step().is_ok());
    assert_eq!(gb.registers.get_reg8(&GameboyNamedRegister8::B), 0x31);
}

#[test]
fn high_page_store_and_load() {
    let mut gb = machine_with(&[0xE0, 0x80, 0x3E, 0x00, 0xF0, 0x80]);
    gb.registers.set_reg8(&GameboyNamedRegister8::A, 0x5C);
    assert!(gb.step().is_ok());
    assert_eq!(gb.read_byte(0xFF80), 0x5C);
    assert!(gb.step().is_ok());
    assert_eq!(gb.registers.get_reg8(&GameboyNamedRegister8::A), 0x00);
    assert!(gb.step().is_ok());
    assert_eq!(gb.registers.get_reg8(&GameboyNamedRegister8::A), 0x5C);
}

#[test]
fn add_immediate_sets_carry_and_half_carry() {
    let mut gb = machine_with(&[0xC6, 0x01]);
    gb.registers.set_reg8(&GameboyNamedRegister8::A, 0xFF);
    assert!(gb.step().is_ok());
    assert_eq!(gb.registers.get_reg8(&GameboyNamedRegister8::A), 0x00);
    assert!(gb.registers.get_flag(GameboyRegisterFlags::Z));
    assert!(gb.registers.get_flag(GameboyRegisterFlags::H));
    assert!(gb.registers.get_flag(GameboyRegisterFlags::C));
    assert!(!gb.registers.get_flag(GameboyRegisterFlags::N));
}

#[test]
fn add_hl_bc_sets_half_carry_out_of_bit_11() {
    let mut gb = machine_with(&[0x09]);
    gb.registers.set_reg16(&GameboyNamedRegister16::HL, 0x0FFF);
    gb.registers.set_reg16(&GameboyNamedRegister16::BC, 0x0001);
    gb.registers.set_flag(GameboyRegisterFlags::Z, true);
    assert!(gb.step().is_ok());
    assert_eq!(gb.registers.get_reg16(&GameboyNamedRegister16::HL), 0x1000);
    assert!(gb.registers.get_flag(GameboyRegisterFlags::H));
    assert!(!gb.registers.get_flag(GameboyRegisterFlags::C));
    // The 16-bit add leaves the Zero flag untouched.
    assert!(gb.registers.get_flag(GameboyRegisterFlags::Z));
}

#[test]
fn swap_exchanges_nibbles() {
    let mut gb = machine_with(&[0xCB, 0x37]);
    gb.registers.set_reg8(&GameboyNamedRegister8::A, 0xAB);
    assert!(gb.step().is_ok());
    assert_eq!(gb.registers.get_reg8(&GameboyNamedRegister8::A), 0xBA);
    assert!(!gb.registers.get_flag(GameboyRegisterFlags::Z));
    assert_eq!(gb.registers.pc, 0x0102);
}

#[test]
fn swap_of_zero_sets_zero_flag() {
    let mut gb = machine_with(&[0xCB, 0x37]);
    gb.registers.set_reg8(&GameboyNamedRegister8::A, 0x00);
    assert!(gb.step().is_ok());
    assert!(gb.registers.get_flag(GameboyRegisterFlags::Z));
}

#[test]
fn bit_test_sets_zero_from_inverse_of_bit() {
    let mut gb = machine_with(&[0xCB, 0x7C, 0xCB, 0x7C]);
    gb.registers.set_reg8(&GameboyNamedRegister8::H, 0x80);
    gb.registers.set_flag(GameboyRegisterFlags::C, true);
    assert!(gb.step().is_ok());
    assert!(!gb.registers.get_flag(GameboyRegisterFlags::Z));
    assert!(gb.registers.get_flag(GameboyRegisterFlags::H));
    assert!(!gb.registers.get_flag(GameboyRegisterFlags::N));
    // Carry is untouched by the bit test.
    assert!(gb.registers.get_flag(GameboyRegisterFlags::C));
    gb.registers.set_reg8(&GameboyNamedRegister8::H, 0x7F);
    assert!(gb.step().is_ok());
    assert!(gb.registers.get_flag(GameboyRegisterFlags::Z));
}

#[test]
fn scf_sets_carry_clears_subtract_and_half() {
    let mut gb = machine_with(&[0x37]);
    gb.registers.set_flag(GameboyRegisterFlags::N, true);
    gb.registers.set_flag(GameboyRegisterFlags::H, true);
    gb.registers.set_flag(GameboyRegisterFlags::Z, true);
    assert!(gb.step().is_ok());
    assert!(gb.registers.get_flag(GameboyRegisterFlags::C));
    assert!(!gb.registers.get_flag(GameboyRegisterFlags::N));
    assert!(!gb.registers.get_flag(GameboyRegisterFlags::H));
    assert!(gb.registers.get_flag(GameboyRegisterFlags::Z));
}

#[test]
fn and_or_set_their_flags() {
    let mut gb = machine_with(&[0xA7, 0xB0]);
    gb.registers.set_reg8(&GameboyNamedRegister8::A, 0x00);
    gb.registers.set_reg8(&GameboyNamedRegister8::B, 0x0F);
    assert!(gb.step().is_ok());
    // AND A with A == 0: zero result, half-carry set.
    assert!(gb.registers.get_flag(GameboyRegisterFlags::Z));
    assert!(gb.registers.get_flag(GameboyRegisterFlags::H));
    assert!(gb.step().is_ok());
    // OR B folds B into the accumulator.
    assert_eq!(gb.registers.get_reg8(&GameboyNamedRegister8::A), 0x0F);
    assert!(!gb.registers.get_flag(GameboyRegisterFlags::Z));
    assert!(!gb.registers.get_flag(GameboyRegisterFlags::H));
}

#[test]
fn dec_to_zero_sets_zero_and_subtract() {
    let mut gb = machine_with(&[0x0D]);
    gb.registers.set_reg8(&GameboyNamedRegister8::C, 0x01);
    assert!(gb.step().is_ok());
    assert_eq!(gb.registers.get_reg8(&GameboyNamedRegister8::C), 0x00);
    assert!(gb.registers.get_flag(GameboyRegisterFlags::Z));
    assert!(gb.registers.get_flag(GameboyRegisterFlags::N));
    // No borrow out of the low nibble: half-carry stays clear.
    assert!(!gb.registers.get_flag(GameboyRegisterFlags::H));
}

#[test]
fn dec_low_nibble_borrow_sets_half_carry() {
    let mut gb = Gameboy::new();
    gb.write_bytes(0x0100, &[0x0D]);
    gb.registers.set_reg8(&GameboyNamedRegister8::C, 0x10);
    assert!(gb.step().is_ok());
    assert_eq!(gb.registers.get_reg8(&GameboyNamedRegister8::C), 0x0F);
    assert!(gb.registers.get_flag(GameboyRegisterFlags::H));
}

#[test]
fn di_only_advances_pc() {
    let mut gb = machine_with(&[0xF3]);
    let before = gb.registers;
    assert!(gb.step().is_ok());
    assert_eq!(gb.registers.pc, 0x0101);
    assert_eq!(gb.registers.af, before.af);
    assert_eq!(gb.registers.sp, before.sp);
}

#[test]
fn run_reports_first_failure() {
    let mut gb = machine_with(&[0x00, 0x00, 0xD3]);
    let err = gb.run(1000);
    assert_eq!(err, Some(GameboyError::UnknownOpcode { opcode: 0xD3, address: 0x0102 }));
}

#[test]
fn run_stops_when_budget_exhausted() {
    let mut gb = machine_with(&[0x00, 0x00, 0xD3]);
    assert_eq!(gb.run(2), None);
    assert_eq!(gb.registers.pc, 0x0102);
}

#[test]
fn ld_b_through_hl_pointer() {
    let mut gb = machine_with(&[0x46]);
    gb.registers.set_reg16(&GameboyNamedRegister16::HL, 0xD000);
    gb.write_byte(0xD000, 0x2B);
    assert!(gb.step().is_ok());
    assert_eq!(gb.registers.get_reg8(&GameboyNamedRegister8::B), 0x2B);
    // A plain pointer read leaves HL alone.
    assert_eq!(gb.registers.get_reg16(&GameboyNamedRegister16::HL), 0xD000);
}

#[test]
fn compare_through_hl_pointer() {
    let mut gb = machine_with(&[0xBE]);
    gb.registers.set_reg16(&GameboyNamedRegister16::HL, 0xD000);
    gb.write_byte(0xD000, 0x07);
    gb.registers.set_reg8(&GameboyNamedRegister8::A, 0x07);
    assert!(gb.step().is_ok());
    assert!(gb.registers.get_flag(GameboyRegisterFlags::Z));
    assert_eq!(gb.registers.get_reg8(&GameboyNamedRegister8::A), 0x07);
}

#[test]
fn conditional_absolute_jump_respects_zero_flag() {
    let mut gb = machine_with(&[0xCA, 0x00, 0x30]);
    gb.registers.set_flag(GameboyRegisterFlags::Z, true);
    assert!(gb.step().is_ok());
    assert_eq!(gb.registers.pc, 0x3000);

    let mut gb2 = machine_with(&[0xCA, 0x00, 0x30]);
    gb2.registers.set_flag(GameboyRegisterFlags::Z, false);
    assert!(gb2.step().is_ok());
    assert_eq!(gb2.registers.pc, 0x0103);
}

#[test]
fn ld_sp_and_a_immediates() {
    let mut gb = machine_with(&[0x31, 0xCD, 0xAB, 0x3E, 0x42]);
    assert!(gb.step().is_ok());
    assert_eq!(gb.registers.sp, 0xABCD);
    assert!(gb.step().is_ok());
    assert_eq!(gb.registers.get_reg8(&GameboyNamedRegister8::A), 0x42);
    assert_eq!(gb.registers.pc, 0x0105);
}

#[test]
fn push_pop_de_and_hl() {
    let mut gb = machine_with(&[0xD5, 0xE5, 0xE1, 0xD1]);
    gb.registers.set_reg16(&GameboyNamedRegister16::DE, 0x1111);
    gb.registers.set_reg16(&GameboyNamedRegister16::HL, 0x2222);
    assert!(gb.step().is_ok());
    assert!(gb.step().is_ok());
    // Popping in reverse order restores both pairs.
    assert!(gb.step().is_ok());
    assert!(gb.step().is_ok());
    assert_eq!(gb.registers.get_reg16(&GameboyNamedRegister16::HL), 0x2222);
    assert_eq!(gb.registers.get_reg16(&GameboyNamedRegister16::DE), 0x1111);
    assert_eq!(gb.registers.sp, 0xFFFE);
}

#[test]
fn ld_a_through_de_pointer() {
    let mut gb = machine_with(&[0x1A, 0x12]);
    gb.registers.set_reg16(&GameboyNamedRegister16::DE, 0xC100);
    gb.write_byte(0xC100, 0x66);
    assert!(gb.step().is_ok());
    assert_eq!(gb.registers.get_reg8(&GameboyNamedRegister8::A), 0x66);
    // LD (DE), A writes it back unchanged.
    gb.registers.set_reg16(&GameboyNamedRegister16::DE, 0xC101);
    assert!(gb.step().is_ok());
    assert_eq!(gb.read_byte(0xC101), 0x66);
}
