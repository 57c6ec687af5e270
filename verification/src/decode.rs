use vstd::prelude::*;
use vstd::wrapping::u16_specs;
use crate::instruction::GameboyError;
use crate::instruction::GameboyInstruction;
use crate::instruction::GameboyInstructionCondition;
use crate::instruction::GameboyInstructionFamily;
use crate::instruction::GameboyInstructionOperand;
use crate::instruction::GameboyInstructionPointerOp;
use crate::machine::Gameboy;
use crate::machine::GbModel;
use crate::machine::mem_at;
use crate::machine::pc_plus;
use crate::registers::GameboyNamedRegister16;
use crate::registers::GameboyNamedRegister8;

verus! {

/// The primary opcode table. Given the opcode byte and the two bytes that
/// follow it in the instruction stream (`lo` first, then `hi`), this is the
/// instruction the decoder produces, or `None` for a byte the core does not
/// support. A 16-bit immediate is assembled low byte first.
pub open spec fn spec_decode(opcode: u8, lo: u8, hi: u8) -> Option<GameboyInstruction> {
    match opcode {
        0x00 => Some(GameboyInstruction {
            opcode,
            mnemonic: "NOP",
            instruction_family: GameboyInstructionFamily::NOP,
            operand1: None,
            operand2: None,
            condition: None,
            cycles: 4,
            size: 1,
        }),
        0x01 => Some(GameboyInstruction {
            opcode,
            mnemonic: "LD BC, n16",
            instruction_family: GameboyInstructionFamily::LD,
            operand1: Some(GameboyInstructionOperand::Register16(GameboyNamedRegister16::BC)),
            operand2: Some(GameboyInstructionOperand::Immediate16(((hi as u16) << 8) | (lo as u16))),
            condition: None,
            cycles: 12,
            size: 3,
        }),
        0x03 => Some(GameboyInstruction {
            opcode,
            mnemonic: "INC BC",
            instruction_family: GameboyInstructionFamily::INC,
            operand1: Some(GameboyInstructionOperand::Register16(GameboyNamedRegister16::BC)),
            operand2: None,
            condition: None,
            cycles: 8,
            size: 1,
        }),
        0x09 => Some(GameboyInstruction {
            opcode,
            mnemonic: "ADD HL, BC",
            instruction_family: GameboyInstructionFamily::ADD,
            operand1: Some(GameboyInstructionOperand::Register16(GameboyNamedRegister16::HL)),
            operand2: Some(GameboyInstructionOperand::Register16(GameboyNamedRegister16::BC)),
            condition: None,
            cycles: 8,
            size: 1,
        }),
        0x0B => Some(GameboyInstruction {
            opcode,
            mnemonic: "DEC BC",
            instruction_family: GameboyInstructionFamily::DEC,
            operand1: Some(GameboyInstructionOperand::Register16(GameboyNamedRegister16::BC)),
            operand2: None,
            condition: None,
            cycles: 8,
            size: 1,
        }),
        0x0C => Some(GameboyInstruction {
            opcode,
            mnemonic: "INC C",
            instruction_family: GameboyInstructionFamily::INC,
            operand1: Some(GameboyInstructionOperand::Register8(GameboyNamedRegister8::C)),
            operand2: None,
            condition: None,
            cycles: 4,
            size: 1,
        }),
        0x0D => Some(GameboyInstruction {
            opcode,
            mnemonic: "DEC C",
            instruction_family: GameboyInstructionFamily::DEC,
            operand1: Some(GameboyInstructionOperand::Register8(GameboyNamedRegister8::C)),
            operand2: None,
            condition: None,
            cycles: 4,
            size: 1,
        }),
        0x0E => Some(GameboyInstruction {
            opcode,
            mnemonic: "LD C, n8",
            instruction_family: GameboyInstructionFamily::LD,
            operand1: Some(GameboyInstructionOperand::Register8(GameboyNamedRegister8::C)),
            operand2: Some(GameboyInstructionOperand::Immediate8(lo)),
            condition: None,
            cycles: 8,
            size: 2,
        }),
        0x11 => Some(GameboyInstruction {
            opcode,
            mnemonic: "LD DE, n16",
            instruction_family: GameboyInstructionFamily::LD,
            operand1: Some(GameboyInstructionOperand::Register16(GameboyNamedRegister16::DE)),
            operand2: Some(GameboyInstructionOperand::Immediate16(((hi as u16) << 8) | (lo as u16))),
            condition: None,
            cycles: 12,
            size: 3,
        }),
        0x12 => Some(GameboyInstruction {
            opcode,
            mnemonic: "LD (DE), A",
            instruction_family: GameboyInstructionFamily::LD,
            operand1: Some(GameboyInstructionOperand::Pointer(GameboyNamedRegister16::DE, None)),
            operand2: Some(GameboyInstructionOperand::Register8(GameboyNamedRegister8::A)),
            condition: None,
            cycles: 8,
            size: 1,
        }),
        0x13 => Some(GameboyInstruction {
            opcode,
            mnemonic: "INC DE",
            instruction_family: GameboyInstructionFamily::INC,
            operand1: Some(GameboyInstructionOperand::Register16(GameboyNamedRegister16::DE)),
            operand2: None,
            condition: None,
            cycles: 8,
            size: 1,
        }),
        0x18 => Some(GameboyInstruction {
            opcode,
            mnemonic: "JR n8",
            instruction_family: GameboyInstructionFamily::JR,
            operand1: Some(GameboyInstructionOperand::ImmediateSigned8(lo as i8)),
            operand2: None,
            condition: None,
            cycles: 12,
            size: 2,
        }),
        0x1A => Some(GameboyInstruction {
            opcode,
            mnemonic: "LD A, (DE)",
            instruction_family: GameboyInstructionFamily::LD,
            operand1: Some(GameboyInstructionOperand::Register8(GameboyNamedRegister8::A)),
            operand2: Some(GameboyInstructionOperand::Pointer(GameboyNamedRegister16::DE, None)),
            condition: None,
            cycles: 8,
            size: 1,
        }),
        0x1B => Some(GameboyInstruction {
            opcode,
            mnemonic: "DEC DE",
            instruction_family: GameboyInstructionFamily::DEC,
            operand1: Some(GameboyInstructionOperand::Register16(GameboyNamedRegister16::DE)),
            operand2: None,
            condition: None,
            cycles: 8,
            size: 1,
        }),
        0x1C => Some(GameboyInstruction {
            opcode,
            mnemonic: "INC E",
            instruction_family: GameboyInstructionFamily::INC,
            operand1: Some(GameboyInstructionOperand::Register8(GameboyNamedRegister8::E)),
            operand2: None,
            condition: None,
            cycles: 4,
            size: 1,
        }),
        0x1E => Some(GameboyInstruction {
            opcode,
            mnemonic: "LD E, n8",
            instruction_family: GameboyInstructionFamily::LD,
            operand1: Some(GameboyInstructionOperand::Register8(GameboyNamedRegister8::E)),
            operand2: Some(GameboyInstructionOperand::Immediate8(lo)),
            condition: None,
            cycles: 8,
            size: 2,
        }),
        0x20 => Some(GameboyInstruction {
            opcode,
            mnemonic: "JR NZ, n8",
            instruction_family: GameboyInstructionFamily::JR,
            operand1: Some(GameboyInstructionOperand::ImmediateSigned8(lo as i8)),
            operand2: None,
            condition: Some(GameboyInstructionCondition::NZ),
            cycles: 8,
            size: 2,
        }),
        0x21 => Some(GameboyInstruction {
            opcode,
            mnemonic: "LD HL, n16",
            instruction_family: GameboyInstructionFamily::LD,
            operand1: Some(GameboyInstructionOperand::Register16(GameboyNamedRegister16::HL)),
            operand2: Some(GameboyInstructionOperand::Immediate16(((hi as u16) << 8) | (lo as u16))),
            condition: None,
            cycles: 12,
            size: 3,
        }),
        0x22 => Some(GameboyInstruction {
            opcode,
            mnemonic: "LD (HL+), A",
            instruction_family: GameboyInstructionFamily::LD,
            operand1: Some(GameboyInstructionOperand::Pointer(GameboyNamedRegister16::HL, Some(GameboyInstructionPointerOp::Increment))),
            operand2: Some(GameboyInstructionOperand::Register8(GameboyNamedRegister8::A)),
            condition: None,
            cycles: 8,
            size: 1,
        }),
        0x23 => Some(GameboyInstruction {
            opcode,
            mnemonic: "INC HL",
            instruction_family: GameboyInstructionFamily::INC,
            operand1: Some(GameboyInstructionOperand::Register16(GameboyNamedRegister16::HL)),
            operand2: None,
            condition: None,
            cycles: 8,
            size: 1,
        }),
        0x28 => Some(GameboyInstruction {
            opcode,
            mnemonic: "JR Z, n8",
            instruction_family: GameboyInstructionFamily::JR,
            operand1: Some(GameboyInstructionOperand::ImmediateSigned8(lo as i8)),
            operand2: None,
            condition: Some(GameboyInstructionCondition::Z),
            cycles: 8,
            size: 2,
        }),
        0x2A => Some(GameboyInstruction {
            opcode,
            mnemonic: "LD A, (HL+)",
            instruction_family: GameboyInstructionFamily::LD,
            operand1: Some(GameboyInstructionOperand::Register8(GameboyNamedRegister8::A)),
            operand2: Some(GameboyInstructionOperand::Pointer(GameboyNamedRegister16::HL, Some(GameboyInstructionPointerOp::Increment))),
            condition: None,
            cycles: 8,
            size: 1,
        }),
        0x31 => Some(GameboyInstruction {
            opcode,
            mnemonic: "LD SP, n16",
            instruction_family: GameboyInstructionFamily::LD,
            operand1: Some(GameboyInstructionOperand::Register16(GameboyNamedRegister16::SP)),
            operand2: Some(GameboyInstructionOperand::Immediate16(((hi as u16) << 8) | (lo as u16))),
            condition: None,
            cycles: 12,
            size: 3,
        }),
        0x37 => Some(GameboyInstruction {
            opcode,
            mnemonic: "SCF",
            instruction_family: GameboyInstructionFamily::SCF,
            operand1: None,
            operand2: None,
            condition: None,
            cycles: 4,
            size: 1,
        }),
        0x38 => Some(GameboyInstruction {
            opcode,
            mnemonic: "JR C, n8",
            instruction_family: GameboyInstructionFamily::JR,
            operand1: Some(GameboyInstructionOperand::ImmediateSigned8(lo as i8)),
            operand2: None,
            condition: Some(GameboyInstructionCondition::C),
            cycles: 8,
            size: 2,
        }),
        0x3E => Some(GameboyInstruction {
            opcode,
            mnemonic: "LD A, n8",
            instruction_family: GameboyInstructionFamily::LD,
            operand1: Some(GameboyInstructionOperand::Register8(GameboyNamedRegister8::A)),
            operand2: Some(GameboyInstructionOperand::Immediate8(lo)),
            condition: None,
            cycles: 8,
            size: 2,
        }),
        0x40 => Some(GameboyInstruction {
            opcode,
            mnemonic: "LD B, B",
            instruction_family: GameboyInstructionFamily::LD,
            operand1: Some(GameboyInstructionOperand::Register8(GameboyNamedRegister8::B)),
            operand2: Some(GameboyInstructionOperand::Register8(GameboyNamedRegister8::B)),
            condition: None,
            cycles: 4,
            size: 1,
        }),
        0x45 => Some(GameboyInstruction {
            opcode,
            mnemonic: "LD B, L",
            instruction_family: GameboyInstructionFamily::LD,
            operand1: Some(GameboyInstructionOperand::Register8(GameboyNamedRegister8::B)),
            operand2: Some(GameboyInstructionOperand::Register8(GameboyNamedRegister8::L)),
            condition: None,
            cycles: 4,
            size: 1,
        }),
        0x46 => Some(GameboyInstruction {
            opcode,
            mnemonic: "LD B, (HL)",
            instruction_family: GameboyInstructionFamily::LD,
            operand1: Some(GameboyInstructionOperand::Register8(GameboyNamedRegister8::B)),
            operand2: Some(GameboyInstructionOperand::Pointer(GameboyNamedRegister16::HL, None)),
            condition: None,
            cycles: 8,
            size: 1,
        }),
        0x47 => Some(GameboyInstruction {
            opcode,
            mnemonic: "LD B, A",
            instruction_family: GameboyInstructionFamily::LD,
            operand1: Some(GameboyInstructionOperand::Register8(GameboyNamedRegister8::B)),
            operand2: Some(GameboyInstructionOperand::Register8(GameboyNamedRegister8::A)),
            condition: None,
            cycles: 4,
            size: 1,
        }),
        0x4F => Some(GameboyInstruction {
            opcode,
            mnemonic: "LD C, A",
            instruction_family: GameboyInstructionFamily::LD,
            operand1: Some(GameboyInstructionOperand::Register8(GameboyNamedRegister8::C)),
            operand2: Some(GameboyInstructionOperand::Register8(GameboyNamedRegister8::A)),
            condition: None,
            cycles: 4,
            size: 1,
        }),
        0x54 => Some(GameboyInstruction {
            opcode,
            mnemonic: "LD D, H",
            instruction_family: GameboyInstructionFamily::LD,
            operand1: Some(GameboyInstructionOperand::Register8(GameboyNamedRegister8::D)),
            operand2: Some(GameboyInstructionOperand::Register8(GameboyNamedRegister8::H)),
            condition: None,
            cycles: 4,
            size: 1,
        }),
        0x60 => Some(GameboyInstruction {
            opcode,
            mnemonic: "LD H, B",
            instruction_family: GameboyInstructionFamily::LD,
            operand1: Some(GameboyInstructionOperand::Register8(GameboyNamedRegister8::H)),
            operand2: Some(GameboyInstructionOperand::Register8(GameboyNamedRegister8::B)),
            condition: None,
            cycles: 4,
            size: 1,
        }),
        0x66 => Some(GameboyInstruction {
            opcode,
            mnemonic: "LD H, (HL)",
            instruction_family: GameboyInstructionFamily::LD,
            operand1: Some(GameboyInstructionOperand::Register8(GameboyNamedRegister8::H)),
            operand2: Some(GameboyInstructionOperand::Pointer(GameboyNamedRegister16::HL, None)),
            condition: None,
            cycles: 8,
            size: 1,
        }),
        0x67 => Some(GameboyInstruction {
            opcode,
            mnemonic: "LD H, A",
            instruction_family: GameboyInstructionFamily::LD,
            operand1: Some(GameboyInstructionOperand::Register8(GameboyNamedRegister8::H)),
            operand2: Some(GameboyInstructionOperand::Register8(GameboyNamedRegister8::A)),
            condition: None,
            cycles: 4,
            size: 1,
        }),
        0x69 => Some(GameboyInstruction {
            opcode,
            mnemonic: "LD L, C",
            instruction_family: GameboyInstructionFamily::LD,
            operand1: Some(GameboyInstructionOperand::Register8(GameboyNamedRegister8::L)),
            operand2: Some(GameboyInstructionOperand::Register8(GameboyNamedRegister8::C)),
            condition: None,
            cycles: 4,
            size: 1,
        }),
        0x6F => Some(GameboyInstruction {
            opcode,
            mnemonic: "LD L, A",
            instruction_family: GameboyInstructionFamily::LD,
            operand1: Some(GameboyInstructionOperand::Register8(GameboyNamedRegister8::L)),
            operand2: Some(GameboyInstructionOperand::Register8(GameboyNamedRegister8::A)),
            condition: None,
            cycles: 4,
            size: 1,
        }),
        0x79 => Some(GameboyInstruction {
            opcode,
            mnemonic: "LD A, C",
            instruction_family: GameboyInstructionFamily::LD,
            operand1: Some(GameboyInstructionOperand::Register8(GameboyNamedRegister8::A)),
            operand2: Some(GameboyInstructionOperand::Register8(GameboyNamedRegister8::C)),
            condition: None,
            cycles: 4,
            size: 1,
        }),
        0x7B => Some(GameboyInstruction {
            opcode,
            mnemonic: "LD A, E",
            instruction_family: GameboyInstructionFamily::LD,
            operand1: Some(GameboyInstructionOperand::Register8(GameboyNamedRegister8::A)),
            operand2: Some(GameboyInstructionOperand::Register8(GameboyNamedRegister8::E)),
            condition: None,
            cycles: 4,
            size: 1,
        }),
        0x7C => Some(GameboyInstruction {
            opcode,
            mnemonic: "LD A, H",
            instruction_family: GameboyInstructionFamily::LD,
            operand1: Some(GameboyInstructionOperand::Register8(GameboyNamedRegister8::A)),
            operand2: Some(GameboyInstructionOperand::Register8(GameboyNamedRegister8::H)),
            condition: None,
            cycles: 4,
            size: 1,
        }),
        0x7D => Some(GameboyInstruction {
            opcode,
            mnemonic: "LD A, L",
            instruction_family: GameboyInstructionFamily::LD,
            operand1: Some(GameboyInstructionOperand::Register8(GameboyNamedRegister8::A)),
            operand2: Some(GameboyInstructionOperand::Register8(GameboyNamedRegister8::L)),
            condition: None,
            cycles: 4,
            size: 1,
        }),
        0x7E => Some(GameboyInstruction {
            opcode,
            mnemonic: "LD A, (HL)",
            instruction_family: GameboyInstructionFamily::LD,
            operand1: Some(GameboyInstructionOperand::Register8(GameboyNamedRegister8::A)),
            operand2: Some(GameboyInstructionOperand::Pointer(GameboyNamedRegister16::HL, None)),
            condition: None,
            cycles: 8,
            size: 1,
        }),
        0xA7 => Some(GameboyInstruction {
            opcode,
            mnemonic: "AND A",
            instruction_family: GameboyInstructionFamily::AND,
            operand1: Some(GameboyInstructionOperand::Register8(GameboyNamedRegister8::A)),
            operand2: None,
            condition: None,
            cycles: 4,
            size: 1,
        }),
        0xAF => Some(GameboyInstruction {
            opcode,
            mnemonic: "XOR A",
            instruction_family: GameboyInstructionFamily::XOR,
            operand1: Some(GameboyInstructionOperand::Register8(GameboyNamedRegister8::A)),
            operand2: None,
            condition: None,
            cycles: 4,
            size: 1,
        }),
        0xB0 => Some(GameboyInstruction {
            opcode,
            mnemonic: "OR B",
            instruction_family: GameboyInstructionFamily::OR,
            operand1: Some(GameboyInstructionOperand::Register8(GameboyNamedRegister8::B)),
            operand2: None,
            condition: None,
            cycles: 4,
            size: 1,
        }),
        0xB7 => Some(GameboyInstruction {
            opcode,
            mnemonic: "OR A",
            instruction_family: GameboyInstructionFamily::OR,
            operand1: Some(GameboyInstructionOperand::Register8(GameboyNamedRegister8::A)),
            operand2: None,
            condition: None,
            cycles: 4,
            size: 1,
        }),
        0xB8 => Some(GameboyInstruction {
            opcode,
            mnemonic: "CP B",
            instruction_family: GameboyInstructionFamily::CP,
            operand1: Some(GameboyInstructionOperand::Register8(GameboyNamedRegister8::B)),
            operand2: None,
            condition: None,
            cycles: 4,
            size: 1,
        }),
        0xB9 => Some(GameboyInstruction {
            opcode,
            mnemonic: "CP C",
            instruction_family: GameboyInstructionFamily::CP,
            operand1: Some(GameboyInstructionOperand::Register8(GameboyNamedRegister8::C)),
            operand2: None,
            condition: None,
            cycles: 4,
            size: 1,
        }),
        0xBE => Some(GameboyInstruction {
            opcode,
            mnemonic: "CP (HL)",
            instruction_family: GameboyInstructionFamily::CP,
            operand1: Some(GameboyInstructionOperand::Pointer(GameboyNamedRegister16::HL, None)),
            operand2: None,
            condition: None,
            cycles: 8,
            size: 1,
        }),
        0xC1 => Some(GameboyInstruction {
            opcode,
            mnemonic: "POP BC",
            instruction_family: GameboyInstructionFamily::POP,
            operand1: Some(GameboyInstructionOperand::Register16(GameboyNamedRegister16::BC)),
            operand2: None,
            condition: None,
            cycles: 12,
            size: 1,
        }),
        0xC3 => Some(GameboyInstruction {
            opcode,
            mnemonic: "JP",
            instruction_family: GameboyInstructionFamily::JP,
            operand1: Some(GameboyInstructionOperand::Address(((hi as u16) << 8) | (lo as u16))),
            operand2: None,
            condition: None,
            cycles: 16,
            size: 3,
        }),
        0xC5 => Some(GameboyInstruction {
            opcode,
            mnemonic: "PUSH BC",
            instruction_family: GameboyInstructionFamily::PUSH,
            operand1: Some(GameboyInstructionOperand::Register16(GameboyNamedRegister16::BC)),
            operand2: None,
            condition: None,
            cycles: 16,
            size: 1,
        }),
        0xC6 => Some(GameboyInstruction {
            opcode,
            mnemonic: "ADD A, n8",
            instruction_family: GameboyInstructionFamily::ADD,
            operand1: Some(GameboyInstructionOperand::Register8(GameboyNamedRegister8::A)),
            operand2: Some(GameboyInstructionOperand::Immediate8(lo)),
            condition: None,
            cycles: 8,
            size: 2,
        }),
        0xC8 => Some(GameboyInstruction {
            opcode,
            mnemonic: "RET Z",
            instruction_family: GameboyInstructionFamily::RET,
            operand1: None,
            operand2: None,
            condition: Some(GameboyInstructionCondition::Z),
            cycles: 20,
            size: 1,
        }),
        0xC9 => Some(GameboyInstruction {
            opcode,
            mnemonic: "RET",
            instruction_family: GameboyInstructionFamily::RET,
            operand1: None,
            operand2: None,
            condition: None,
            cycles: 16,
            size: 1,
        }),
        0xCA => Some(GameboyInstruction {
            opcode,
            mnemonic: "JP Z, n16",
            instruction_family: GameboyInstructionFamily::JP,
            operand1: Some(GameboyInstructionOperand::Address(((hi as u16) << 8) | (lo as u16))),
            operand2: None,
            condition: Some(GameboyInstructionCondition::Z),
            cycles: 16,
            size: 3,
        }),
        0xCD => Some(GameboyInstruction {
            opcode,
            mnemonic: "CALL",
            instruction_family: GameboyInstructionFamily::CALL,
            operand1: Some(GameboyInstructionOperand::Address(((hi as u16) << 8) | (lo as u16))),
            operand2: None,
            condition: None,
            cycles: 24,
            size: 3,
        }),
        0xD1 => Some(GameboyInstruction {
            opcode,
            mnemonic: "POP DE",
            instruction_family: GameboyInstructionFamily::POP,
            operand1: Some(GameboyInstructionOperand::Register16(GameboyNamedRegister16::DE)),
            operand2: None,
            condition: None,
            cycles: 12,
            size: 1,
        }),
        0xD5 => Some(GameboyInstruction {
            opcode,
            mnemonic: "PUSH DE",
            instruction_family: GameboyInstructionFamily::PUSH,
            operand1: Some(GameboyInstructionOperand::Register16(GameboyNamedRegister16::DE)),
            operand2: None,
            condition: None,
            cycles: 16,
            size: 1,
        }),
        0xD8 => Some(GameboyInstruction {
            opcode,
            mnemonic: "RET C",
            instruction_family: GameboyInstructionFamily::RET,
            operand1: None,
            operand2: None,
            condition: Some(GameboyInstructionCondition::C),
            cycles: 20,
            size: 1,
        }),
        0xDA => Some(GameboyInstruction {
            opcode,
            mnemonic: "JP C, n16",
            instruction_family: GameboyInstructionFamily::JP,
            operand1: Some(GameboyInstructionOperand::Address(((hi as u16) << 8) | (lo as u16))),
            operand2: None,
            condition: Some(GameboyInstructionCondition::C),
            cycles: 16,
            size: 3,
        }),
        0xE0 => Some(GameboyInstruction {
            opcode,
            mnemonic: "LDH (n8), A",
            instruction_family: GameboyInstructionFamily::LDH,
            operand1: Some(GameboyInstructionOperand::Immediate8(lo)),
            operand2: Some(GameboyInstructionOperand::Register8(GameboyNamedRegister8::A)),
            condition: None,
            cycles: 12,
            size: 2,
        }),
        0xE1 => Some(GameboyInstruction {
            opcode,
            mnemonic: "POP HL",
            instruction_family: GameboyInstructionFamily::POP,
            operand1: Some(GameboyInstructionOperand::Register16(GameboyNamedRegister16::HL)),
            operand2: None,
            condition: None,
            cycles: 12,
            size: 1,
        }),
        0xE5 => Some(GameboyInstruction {
            opcode,
            mnemonic: "PUSH HL",
            instruction_family: GameboyInstructionFamily::PUSH,
            operand1: Some(GameboyInstructionOperand::Register16(GameboyNamedRegister16::HL)),
            operand2: None,
            condition: None,
            cycles: 16,
            size: 1,
        }),
        0xE9 => Some(GameboyInstruction {
            opcode,
            mnemonic: "JP HL",
            instruction_family: GameboyInstructionFamily::JP,
            operand1: Some(GameboyInstructionOperand::Register16(GameboyNamedRegister16::HL)),
            operand2: None,
            condition: None,
            cycles: 4,
            size: 1,
        }),
        0xF0 => Some(GameboyInstruction {
            opcode,
            mnemonic: "LDH A, (n8)",
            instruction_family: GameboyInstructionFamily::LDH,
            operand1: Some(GameboyInstructionOperand::Register8(GameboyNamedRegister8::A)),
            operand2: Some(GameboyInstructionOperand::Immediate8(lo)),
            condition: None,
            cycles: 12,
            size: 2,
        }),
        0xF3 => Some(GameboyInstruction {
            opcode,
            mnemonic: "DI",
            instruction_family: GameboyInstructionFamily::DI,
            operand1: None,
            operand2: None,
            condition: None,
            cycles: 4,
            size: 1,
        }),
        0xFE => Some(GameboyInstruction {
            opcode,
            mnemonic: "CP n8",
            instruction_family: GameboyInstructionFamily::CP,
            operand1: Some(GameboyInstructionOperand::Immediate8(lo)),
            operand2: None,
            condition: None,
            cycles: 8,
            size: 2,
        }),
        _ => None,
    }
}

/// The extended opcode table, reached through the escape byte 0xCB.
pub open spec fn spec_decode_prefix(opcode: u8) -> Option<GameboyInstruction> {
    match opcode {
        0x37 => Some(GameboyInstruction {
            opcode,
            mnemonic: "SWAP A",
            instruction_family: GameboyInstructionFamily::SWAP,
            operand1: Some(GameboyInstructionOperand::Register8(GameboyNamedRegister8::A)),
            operand2: None,
            condition: None,
            cycles: 8,
            size: 2,
        }),
        0x7C => Some(GameboyInstruction {
            opcode,
            mnemonic: "BIT 7, H",
            instruction_family: GameboyInstructionFamily::BIT,
            operand1: Some(GameboyInstructionOperand::Immediate8(7)),
            operand2: Some(GameboyInstructionOperand::Register8(GameboyNamedRegister8::H)),
            condition: None,
            cycles: 8,
            size: 2,
        }),
        _ => None,
    }
}

/// How many immediate operand bytes decoding an opcode of the primary
/// table consumes from the instruction stream.
pub open spec fn spec_operand_bytes(opcode: u8) -> u16 {
    match opcode {
        0x01 | 0x11 | 0x21 | 0x31 | 0xC3 | 0xCA | 0xCD | 0xDA => 2,
        0x0E | 0x18 | 0x1E | 0x20 | 0x28 | 0x38 | 0x3E | 0xC6 | 0xE0 | 0xF0 | 0xFE => 1,
        _ => 0,
    }
}

/// The effect of decoding a primary-table opcode whose byte has already
/// been fetched: the machine afterwards, and the instruction or the
/// failure. The program counter moves past exactly the operand bytes that
/// were consumed; an unsupported opcode consumes nothing further and is
/// reported with the address it was fetched from.
pub open spec fn spec_decode_table_step(m: GbModel, opcode: u8) -> (GbModel, Result<
    GameboyInstruction,
    GameboyError,
>) {
    let lo = mem_at(m, m.regs.pc);
    let hi = mem_at(m, u16_specs::wrapping_add(m.regs.pc, 1));
    match spec_decode(opcode, lo, hi) {
        Some(i) => (GbModel { regs: pc_plus(m.regs, spec_operand_bytes(opcode)), ..m }, Ok(i)),
        None => (
            m,
            Err(GameboyError::UnknownOpcode {
                opcode,
                address: u16_specs::wrapping_sub(m.regs.pc, 1),
            }),
        ),
    }
}

/// The effect of decoding any opcode whose byte has already been fetched,
/// including the escape byte, which consumes one further byte and selects
/// from the extended table.
pub open spec fn spec_decode_step(m: GbModel, opcode: u8) -> (GbModel, Result<
    GameboyInstruction,
    GameboyError,
>) {
    if opcode == 0xCB {
        let b = mem_at(m, m.regs.pc);
        let m1 = GbModel { regs: pc_plus(m.regs, 1), ..m };
        match spec_decode_prefix(b) {
            Some(i) => (m1, Ok(i)),
            None => (m1, Err(GameboyError::UnknownOpcode { opcode: b, address: m.regs.pc })),
        }
    } else {
        spec_decode_table_step(m, opcode)
    }
}

/// Every instruction either opcode table can produce is well formed.
pub proof fn lemma_decode_valid(opcode: u8, lo: u8, hi: u8)
    ensures
        (spec_decode(opcode, lo, hi) matches Some(i) ==> i.valid()),
        (spec_decode_prefix(opcode) matches Some(i) ==> i.valid()),
{
}

impl Gameboy {
    // The primary table is handled in four opcode blocks so that each
    // function's proof against `spec_decode_table_step` stays small.
    fn decode_q0(&mut self, opcode: u8) -> (r: Result<GameboyInstruction, GameboyError>)
        requires
            old(self).wf(),
            0x00 <= opcode,
            opcode < 0x40,
            opcode != 0xCB,
        ensures
            final(self).wf(),
            ({
                let (m2, rr) = spec_decode_table_step(old(self)@, opcode);
                final(self)@ == m2 && r == rr
            }),
    {
        match opcode {
            0x00 => {
                Ok(GameboyInstruction {
                    opcode,
                    mnemonic: "NOP",
                    instruction_family: GameboyInstructionFamily::NOP,
                    operand1: None,
                    operand2: None,
                    condition: None,
                    cycles: 4,
                    size: 1,
                })
            },
            0x01 => {
                let value = self.fetch16();
                Ok(GameboyInstruction {
                    opcode,
                    mnemonic: "LD BC, n16",
                    instruction_family: GameboyInstructionFamily::LD,
                    operand1: Some(GameboyInstructionOperand::Register16(GameboyNamedRegister16::BC)),
                    operand2: Some(GameboyInstructionOperand::Immediate16(value)),
                    condition: None,
                    cycles: 12,
                    size: 3,
                })
            },
            0x03 => {
                Ok(GameboyInstruction {
                    opcode,
                    mnemonic: "INC BC",
                    instruction_family: GameboyInstructionFamily::INC,
                    operand1: Some(GameboyInstructionOperand::Register16(GameboyNamedRegister16::BC)),
                    operand2: None,
                    condition: None,
                    cycles: 8,
                    size: 1,
                })
            },
            0x09 => {
                Ok(GameboyInstruction {
                    opcode,
                    mnemonic: "ADD HL, BC",
                    instruction_family: GameboyInstructionFamily::ADD,
                    operand1: Some(GameboyInstructionOperand::Register16(GameboyNamedRegister16::HL)),
                    operand2: Some(GameboyInstructionOperand::Register16(GameboyNamedRegister16::BC)),
                    condition: None,
                    cycles: 8,
                    size: 1,
                })
            },
            0x0B => {
                Ok(GameboyInstruction {
                    opcode,
                    mnemonic: "DEC BC",
                    instruction_family: GameboyInstructionFamily::DEC,
                    operand1: Some(GameboyInstructionOperand::Register16(GameboyNamedRegister16::BC)),
                    operand2: None,
                    condition: None,
                    cycles: 8,
                    size: 1,
                })
            },
            0x0C => {
                Ok(GameboyInstruction {
                    opcode,
                    mnemonic: "INC C",
                    instruction_family: GameboyInstructionFamily::INC,
                    operand1: Some(GameboyInstructionOperand::Register8(GameboyNamedRegister8::C)),
                    operand2: None,
                    condition: None,
                    cycles: 4,
                    size: 1,
                })
            },
            0x0D => {
                Ok(GameboyInstruction {
                    opcode,
                    mnemonic: "DEC C",
                    instruction_family: GameboyInstructionFamily::DEC,
                    operand1: Some(GameboyInstructionOperand::Register8(GameboyNamedRegister8::C)),
                    operand2: None,
                    condition: None,
                    cycles: 4,
                    size: 1,
                })
            },
            0x0E => {
                let value = self.fetch();
                Ok(GameboyInstruction {
                    opcode,
                    mnemonic: "LD C, n8",
                    instruction_family: GameboyInstructionFamily::LD,
                    operand1: Some(GameboyInstructionOperand::Register8(GameboyNamedRegister8::C)),
                    operand2: Some(GameboyInstructionOperand::Immediate8(value)),
                    condition: None,
                    cycles: 8,
                    size: 2,
                })
            },
            0x11 => {
                let value = self.fetch16();
                Ok(GameboyInstruction {
                    opcode,
                    mnemonic: "LD DE, n16",
                    instruction_family: GameboyInstructionFamily::LD,
                    operand1: Some(GameboyInstructionOperand::Register16(GameboyNamedRegister16::DE)),
                    operand2: Some(GameboyInstructionOperand::Immediate16(value)),
                    condition: None,
                    cycles: 12,
                    size: 3,
                })
            },
            0x12 => {
                Ok(GameboyInstruction {
                    opcode,
                    mnemonic: "LD (DE), A",
                    instruction_family: GameboyInstructionFamily::LD,
                    operand1: Some(GameboyInstructionOperand::Pointer(GameboyNamedRegister16::DE, None)),
                    operand2: Some(GameboyInstructionOperand::Register8(GameboyNamedRegister8::A)),
                    condition: None,
                    cycles: 8,
                    size: 1,
                })
            },
            0x13 => {
                Ok(GameboyInstruction {
                    opcode,
                    mnemonic: "INC DE",
                    instruction_family: GameboyInstructionFamily::INC,
                    operand1: Some(GameboyInstructionOperand::Register16(GameboyNamedRegister16::DE)),
                    operand2: None,
                    condition: None,
                    cycles: 8,
                    size: 1,
                })
            },
            0x18 => {
                let value = #[verifier::truncate] (self.fetch() as i8);
                Ok(GameboyInstruction {
                    opcode,
                    mnemonic: "JR n8",
                    instruction_family: GameboyInstructionFamily::JR,
                    operand1: Some(GameboyInstructionOperand::ImmediateSigned8(value)),
                    operand2: None,
                    condition: None,
                    cycles: 12,
                    size: 2,
                })
            },
            0x1A => {
                Ok(GameboyInstruction {
                    opcode,
                    mnemonic: "LD A, (DE)",
                    instruction_family: GameboyInstructionFamily::LD,
                    operand1: Some(GameboyInstructionOperand::Register8(GameboyNamedRegister8::A)),
                    operand2: Some(GameboyInstructionOperand::Pointer(GameboyNamedRegister16::DE, None)),
                    condition: None,
                    cycles: 8,
                    size: 1,
                })
            },
            0x1B => {
                Ok(GameboyInstruction {
                    opcode,
                    mnemonic: "DEC DE",
                    instruction_family: GameboyInstructionFamily::DEC,
                    operand1: Some(GameboyInstructionOperand::Register16(GameboyNamedRegister16::DE)),
                    operand2: None,
                    condition: None,
                    cycles: 8,
                    size: 1,
                })
            },
            0x1C => {
                Ok(GameboyInstruction {
                    opcode,
                    mnemonic: "INC E",
                    instruction_family: GameboyInstructionFamily::INC,
                    operand1: Some(GameboyInstructionOperand::Register8(GameboyNamedRegister8::E)),
                    operand2: None,
                    condition: None,
                    cycles: 4,
                    size: 1,
                })
            },
            0x1E => {
                let value = self.fetch();
                Ok(GameboyInstruction {
                    opcode,
                    mnemonic: "LD E, n8",
                    instruction_family: GameboyInstructionFamily::LD,
                    operand1: Some(GameboyInstructionOperand::Register8(GameboyNamedRegister8::E)),
                    operand2: Some(GameboyInstructionOperand::Immediate8(value)),
                    condition: None,
                    cycles: 8,
                    size: 2,
                })
            },
            0x20 => {
                let value = #[verifier::truncate] (self.fetch() as i8);
                Ok(GameboyInstruction {
                    opcode,
                    mnemonic: "JR NZ, n8",
                    instruction_family: GameboyInstructionFamily::JR,
                    operand1: Some(GameboyInstructionOperand::ImmediateSigned8(value)),
                    operand2: None,
                    condition: Some(GameboyInstructionCondition::NZ),
                    cycles: 8,
                    size: 2,
                })
            },
            0x21 => {
                let value = self.fetch16();
                Ok(GameboyInstruction {
                    opcode,
                    mnemonic: "LD HL, n16",
                    instruction_family: GameboyInstructionFamily::LD,
                    operand1: Some(GameboyInstructionOperand::Register16(GameboyNamedRegister16::HL)),
                    operand2: Some(GameboyInstructionOperand::Immediate16(value)),
                    condition: None,
                    cycles: 12,
                    size: 3,
                })
            },
            0x22 => {
                Ok(GameboyInstruction {
                    opcode,
                    mnemonic: "LD (HL+), A",
                    instruction_family: GameboyInstructionFamily::LD,
                    operand1: Some(GameboyInstructionOperand::Pointer(GameboyNamedRegister16::HL, Some(GameboyInstructionPointerOp::Increment))),
                    operand2: Some(GameboyInstructionOperand::Register8(GameboyNamedRegister8::A)),
                    condition: None,
                    cycles: 8,
                    size: 1,
                })
            },
            0x23 => {
                Ok(GameboyInstruction {
                    opcode,
                    mnemonic: "INC HL",
                    instruction_family: GameboyInstructionFamily::INC,
                    operand1: Some(GameboyInstructionOperand::Register16(GameboyNamedRegister16::HL)),
                    operand2: None,
                    condition: None,
                    cycles: 8,
                    size: 1,
                })
            },
            0x28 => {
                let value = #[verifier::truncate] (self.fetch() as i8);
                Ok(GameboyInstruction {
                    opcode,
                    mnemonic: "JR Z, n8",
                    instruction_family: GameboyInstructionFamily::JR,
                    operand1: Some(GameboyInstructionOperand::ImmediateSigned8(value)),
                    operand2: None,
                    condition: Some(GameboyInstructionCondition::Z),
                    cycles: 8,
                    size: 2,
                })
            },
            0x2A => {
                Ok(GameboyInstruction {
                    opcode,
                    mnemonic: "LD A, (HL+)",
                    instruction_family: GameboyInstructionFamily::LD,
                    operand1: Some(GameboyInstructionOperand::Register8(GameboyNamedRegister8::A)),
                    operand2: Some(GameboyInstructionOperand::Pointer(GameboyNamedRegister16::HL, Some(GameboyInstructionPointerOp::Increment))),
                    condition: None,
                    cycles: 8,
                    size: 1,
                })
            },
            0x31 => {
                let value = self.fetch16();
                Ok(GameboyInstruction {
                    opcode,
                    mnemonic: "LD SP, n16",
                    instruction_family: GameboyInstructionFamily::LD,
                    operand1: Some(GameboyInstructionOperand::Register16(GameboyNamedRegister16::SP)),
                    operand2: Some(GameboyInstructionOperand::Immediate16(value)),
                    condition: None,
                    cycles: 12,
                    size: 3,
                })
            },
            0x37 => {
                Ok(GameboyInstruction {
                    opcode,
                    mnemonic: "SCF",
                    instruction_family: GameboyInstructionFamily::SCF,
                    operand1: None,
                    operand2: None,
                    condition: None,
                    cycles: 4,
                    size: 1,
                })
            },
            0x38 => {
                let value = #[verifier::truncate] (self.fetch() as i8);
                Ok(GameboyInstruction {
                    opcode,
                    mnemonic: "JR C, n8",
                    instruction_family: GameboyInstructionFamily::JR,
                    operand1: Some(GameboyInstructionOperand::ImmediateSigned8(value)),
                    operand2: None,
                    condition: Some(GameboyInstructionCondition::C),
                    cycles: 8,
                    size: 2,
                })
            },
            0x3E => {
                let value = self.fetch();
                Ok(GameboyInstruction {
                    opcode,
                    mnemonic: "LD A, n8",
                    instruction_family: GameboyInstructionFamily::LD,
                    operand1: Some(GameboyInstructionOperand::Register8(GameboyNamedRegister8::A)),
                    operand2: Some(GameboyInstructionOperand::Immediate8(value)),
                    condition: None,
                    cycles: 8,
                    size: 2,
                })
            },
            _ => Err(GameboyError::UnknownOpcode {
                opcode,
                address: self.registers.pc.wrapping_sub(1),
            }),
        }
    }

    fn decode_q1(&mut self, opcode: u8) -> (r: Result<GameboyInstruction, GameboyError>)
        requires
            old(self).wf(),
            0x40 <= opcode,
            opcode < 0x80,
            opcode != 0xCB,
        ensures
            final(self).wf(),
            ({
                let (m2, rr) = spec_decode_table_step(old(self)@, opcode);
                final(self)@ == m2 && r == rr
            }),
    {
        match opcode {
            0x40 => {
                Ok(GameboyInstruction {
                    opcode,
                    mnemonic: "LD B, B",
                    instruction_family: GameboyInstructionFamily::LD,
                    operand1: Some(GameboyInstructionOperand::Register8(GameboyNamedRegister8::B)),
                    operand2: Some(GameboyInstructionOperand::Register8(GameboyNamedRegister8::B)),
                    condition: None,
                    cycles: 4,
                    size: 1,
                })
            },
            0x45 => {
                Ok(GameboyInstruction {
                    opcode,
                    mnemonic: "LD B, L",
                    instruction_family: GameboyInstructionFamily::LD,
                    operand1: Some(GameboyInstructionOperand::Register8(GameboyNamedRegister8::B)),
                    operand2: Some(GameboyInstructionOperand::Register8(GameboyNamedRegister8::L)),
                    condition: None,
                    cycles: 4,
                    size: 1,
                })
            },
            0x46 => {
                Ok(GameboyInstruction {
                    opcode,
                    mnemonic: "LD B, (HL)",
                    instruction_family: GameboyInstructionFamily::LD,
                    operand1: Some(GameboyInstructionOperand::Register8(GameboyNamedRegister8::B)),
                    operand2: Some(GameboyInstructionOperand::Pointer(GameboyNamedRegister16::HL, None)),
                    condition: None,
                    cycles: 8,
                    size: 1,
                })
            },
            0x47 => {
                Ok(GameboyInstruction {
                    opcode,
                    mnemonic: "LD B, A",
                    instruction_family: GameboyInstructionFamily::LD,
                    operand1: Some(GameboyInstructionOperand::Register8(GameboyNamedRegister8::B)),
                    operand2: Some(GameboyInstructionOperand::Register8(GameboyNamedRegister8::A)),
                    condition: None,
                    cycles: 4,
                    size: 1,
                })
            },
            0x4F => {
                Ok(GameboyInstruction {
                    opcode,
                    mnemonic: "LD C, A",
                    instruction_family: GameboyInstructionFamily::LD,
                    operand1: Some(GameboyInstructionOperand::Register8(GameboyNamedRegister8::C)),
                    operand2: Some(GameboyInstructionOperand::Register8(GameboyNamedRegister8::A)),
                    condition: None,
                    cycles: 4,
                    size: 1,
                })
            },
            0x54 => {
                Ok(GameboyInstruction {
                    opcode,
                    mnemonic: "LD D, H",
                    instruction_family: GameboyInstructionFamily::LD,
                    operand1: Some(GameboyInstructionOperand::Register8(GameboyNamedRegister8::D)),
                    operand2: Some(GameboyInstructionOperand::Register8(GameboyNamedRegister8::H)),
                    condition: None,
                    cycles: 4,
                    size: 1,
                })
            },
            0x60 => {
                Ok(GameboyInstruction {
                    opcode,
                    mnemonic: "LD H, B",
                    instruction_family: GameboyInstructionFamily::LD,
                    operand1: Some(GameboyInstructionOperand::Register8(GameboyNamedRegister8::H)),
                    operand2: Some(GameboyInstructionOperand::Register8(GameboyNamedRegister8::B)),
                    condition: None,
                    cycles: 4,
                    size: 1,
                })
            },
            0x66 => {
                Ok(GameboyInstruction {
                    opcode,
                    mnemonic: "LD H, (HL)",
                    instruction_family: GameboyInstructionFamily::LD,
                    operand1: Some(GameboyInstructionOperand::Register8(GameboyNamedRegister8::H)),
                    operand2: Some(GameboyInstructionOperand::Pointer(GameboyNamedRegister16::HL, None)),
                    condition: None,
                    cycles: 8,
                    size: 1,
                })
            },
            0x67 => {
                Ok(GameboyInstruction {
                    opcode,
                    mnemonic: "LD H, A",
                    instruction_family: GameboyInstructionFamily::LD,
                    operand1: Some(GameboyInstructionOperand::Register8(GameboyNamedRegister8::H)),
                    operand2: Some(GameboyInstructionOperand::Register8(GameboyNamedRegister8::A)),
                    condition: None,
                    cycles: 4,
                    size: 1,
                })
            },
            0x69 => {
                Ok(GameboyInstruction {
                    opcode,
                    mnemonic: "LD L, C",
                    instruction_family: GameboyInstructionFamily::LD,
                    operand1: Some(GameboyInstructionOperand::Register8(GameboyNamedRegister8::L)),
                    operand2: Some(GameboyInstructionOperand::Register8(GameboyNamedRegister8::C)),
                    condition: None,
                    cycles: 4,
                    size: 1,
                })
            },
            0x6F => {
                Ok(GameboyInstruction {
                    opcode,
                    mnemonic: "LD L, A",
                    instruction_family: GameboyInstructionFamily::LD,
                    operand1: Some(GameboyInstructionOperand::Register8(GameboyNamedRegister8::L)),
                    operand2: Some(GameboyInstructionOperand::Register8(GameboyNamedRegister8::A)),
                    condition: None,
                    cycles: 4,
                    size: 1,
                })
            },
            0x79 => {
                Ok(GameboyInstruction {
                    opcode,
                    mnemonic: "LD A, C",
                    instruction_family: GameboyInstructionFamily::LD,
                    operand1: Some(GameboyInstructionOperand::Register8(GameboyNamedRegister8::A)),
                    operand2: Some(GameboyInstructionOperand::Register8(GameboyNamedRegister8::C)),
                    condition: None,
                    cycles: 4,
                    size: 1,
                })
            },
            0x7B => {
                Ok(GameboyInstruction {
                    opcode,
                    mnemonic: "LD A, E",
                    instruction_family: GameboyInstructionFamily::LD,
                    operand1: Some(GameboyInstructionOperand::Register8(GameboyNamedRegister8::A)),
                    operand2: Some(GameboyInstructionOperand::Register8(GameboyNamedRegister8::E)),
                    condition: None,
                    cycles: 4,
                    size: 1,
                })
            },
            0x7C => {
                Ok(GameboyInstruction {
                    opcode,
                    mnemonic: "LD A, H",
                    instruction_family: GameboyInstructionFamily::LD,
                    operand1: Some(GameboyInstructionOperand::Register8(GameboyNamedRegister8::A)),
                    operand2: Some(GameboyInstructionOperand::Register8(GameboyNamedRegister8::H)),
                    condition: None,
                    cycles: 4,
                    size: 1,
                })
            },
            0x7D => {
                Ok(GameboyInstruction {
                    opcode,
                    mnemonic: "LD A, L",
                    instruction_family: GameboyInstructionFamily::LD,
                    operand1: Some(GameboyInstructionOperand::Register8(GameboyNamedRegister8::A)),
                    operand2: Some(GameboyInstructionOperand::Register8(GameboyNamedRegister8::L)),
                    condition: None,
                    cycles: 4,
                    size: 1,
                })
            },
            0x7E => {
                Ok(GameboyInstruction {
                    opcode,
                    mnemonic: "LD A, (HL)",
                    instruction_family: GameboyInstructionFamily::LD,
                    operand1: Some(GameboyInstructionOperand::Register8(GameboyNamedRegister8::A)),
                    operand2: Some(GameboyInstructionOperand::Pointer(GameboyNamedRegister16::HL, None)),
                    condition: None,
                    cycles: 8,
                    size: 1,
                })
            },
            _ => Err(GameboyError::UnknownOpcode {
                opcode,
                address: self.registers.pc.wrapping_sub(1),
            }),
        }
    }

    fn decode_q2(&mut self, opcode: u8) -> (r: Result<GameboyInstruction, GameboyError>)
        requires
            old(self).wf(),
            0x80 <= opcode,
            opcode < 0xC0,
            opcode != 0xCB,
        ensures
            final(self).wf(),
            ({
                let (m2, rr) = spec_decode_table_step(old(self)@, opcode);
                final(self)@ == m2 && r == rr
            }),
    {
        match opcode {
            0xA7 => {
                Ok(GameboyInstruction {
                    opcode,
                    mnemonic: "AND A",
                    instruction_family: GameboyInstructionFamily::AND,
                    operand1: Some(GameboyInstructionOperand::Register8(GameboyNamedRegister8::A)),
                    operand2: None,
                    condition: None,
                    cycles: 4,
                    size: 1,
                })
            },
            0xAF => {
                Ok(GameboyInstruction {
                    opcode,
                    mnemonic: "XOR A",
                    instruction_family: GameboyInstructionFamily::XOR,
                    operand1: Some(GameboyInstructionOperand::Register8(GameboyNamedRegister8::A)),
                    operand2: None,
                    condition: None,
                    cycles: 4,
                    size: 1,
                })
            },
            0xB0 => {
                Ok(GameboyInstruction {
                    opcode,
                    mnemonic: "OR B",
                    instruction_family: GameboyInstructionFamily::OR,
                    operand1: Some(GameboyInstructionOperand::Register8(GameboyNamedRegister8::B)),
                    operand2: None,
                    condition: None,
                    cycles: 4,
                    size: 1,
                })
            },
            0xB7 => {
                Ok(GameboyInstruction {
                    opcode,
                    mnemonic: "OR A",
                    instruction_family: GameboyInstructionFamily::OR,
                    operand1: Some(GameboyInstructionOperand::Register8(GameboyNamedRegister8::A)),
                    operand2: None,
                    condition: None,
                    cycles: 4,
                    size: 1,
                })
            },
            0xB8 => {
                Ok(GameboyInstruction {
                    opcode,
                    mnemonic: "CP B",
                    instruction_family: GameboyInstructionFamily::CP,
                    operand1: Some(GameboyInstructionOperand::Register8(GameboyNamedRegister8::B)),
                    operand2: None,
                    condition: None,
                    cycles: 4,
                    size: 1,
                })
            },
            0xB9 => {
                Ok(GameboyInstruction {
                    opcode,
                    mnemonic: "CP C",
                    instruction_family: GameboyInstructionFamily::CP,
                    operand1: Some(GameboyInstructionOperand::Register8(GameboyNamedRegister8::C)),
                    operand2: None,
                    condition: None,
                    cycles: 4,
                    size: 1,
                })
            },
            0xBE => {
                Ok(GameboyInstruction {
                    opcode,
                    mnemonic: "CP (HL)",
                    instruction_family: GameboyInstructionFamily::CP,
                    operand1: Some(GameboyInstructionOperand::Pointer(GameboyNamedRegister16::HL, None)),
                    operand2: None,
                    condition: None,
                    cycles: 8,
                    size: 1,
                })
            },
            _ => Err(GameboyError::UnknownOpcode {
                opcode,
                address: self.registers.pc.wrapping_sub(1),
            }),
        }
    }

    fn decode_q3(&mut self, opcode: u8) -> (r: Result<GameboyInstruction, GameboyError>)
        requires
            old(self).wf(),
            0xC0 <= opcode,
            
            opcode != 0xCB,
        ensures
            final(self).wf(),
            ({
                let (m2, rr) = spec_decode_table_step(old(self)@, opcode);
                final(self)@ == m2 && r == rr
            }),
    {
        match opcode {
            0xC1 => {
                Ok(GameboyInstruction {
                    opcode,
                    mnemonic: "POP BC",
                    instruction_family: GameboyInstructionFamily::POP,
                    operand1: Some(GameboyInstructionOperand::Register16(GameboyNamedRegister16::BC)),
                    operand2: None,
                    condition: None,
                    cycles: 12,
                    size: 1,
                })
            },
            0xC3 => {
                let value = self.fetch16();
                Ok(GameboyInstruction {
                    opcode,
                    mnemonic: "JP",
                    instruction_family: GameboyInstructionFamily::JP,
                    operand1: Some(GameboyInstructionOperand::Address(value)),
                    operand2: None,
                    condition: None,
                    cycles: 16,
                    size: 3,
                })
            },
            0xC5 => {
                Ok(GameboyInstruction {
                    opcode,
                    mnemonic: "PUSH BC",
                    instruction_family: GameboyInstructionFamily::PUSH,
                    operand1: Some(GameboyInstructionOperand::Register16(GameboyNamedRegister16::BC)),
                    operand2: None,
                    condition: None,
                    cycles: 16,
                    size: 1,
                })
            },
            0xC6 => {
                let value = self.fetch();
                Ok(GameboyInstruction {
                    opcode,
                    mnemonic: "ADD A, n8",
                    instruction_family: GameboyInstructionFamily::ADD,
                    operand1: Some(GameboyInstructionOperand::Register8(GameboyNamedRegister8::A)),
                    operand2: Some(GameboyInstructionOperand::Immediate8(value)),
                    condition: None,
                    cycles: 8,
                    size: 2,
                })
            },
            0xC8 => {
                Ok(GameboyInstruction {
                    opcode,
                    mnemonic: "RET Z",
                    instruction_family: GameboyInstructionFamily::RET,
                    operand1: None,
                    operand2: None,
                    condition: Some(GameboyInstructionCondition::Z),
                    cycles: 20,
                    size: 1,
                })
            },
            0xC9 => {
                Ok(GameboyInstruction {
                    opcode,
                    mnemonic: "RET",
                    instruction_family: GameboyInstructionFamily::RET,
                    operand1: None,
                    operand2: None,
                    condition: None,
                    cycles: 16,
                    size: 1,
                })
            },
            0xCA => {
                let value = self.fetch16();
                Ok(GameboyInstruction {
                    opcode,
                    mnemonic: "JP Z, n16",
                    instruction_family: GameboyInstructionFamily::JP,
                    operand1: Some(GameboyInstructionOperand::Address(value)),
                    operand2: None,
                    condition: Some(GameboyInstructionCondition::Z),
                    cycles: 16,
                    size: 3,
                })
            },
            0xCD => {
                let value = self.fetch16();
                Ok(GameboyInstruction {
                    opcode,
                    mnemonic: "CALL",
                    instruction_family: GameboyInstructionFamily::CALL,
                    operand1: Some(GameboyInstructionOperand::Address(value)),
                    operand2: None,
                    condition: None,
                    cycles: 24,
                    size: 3,
                })
            },
            0xD1 => {
                Ok(GameboyInstruction {
                    opcode,
                    mnemonic: "POP DE",
                    instruction_family: GameboyInstructionFamily::POP,
                    operand1: Some(GameboyInstructionOperand::Register16(GameboyNamedRegister16::DE)),
                    operand2: None,
                    condition: None,
                    cycles: 12,
                    size: 1,
                })
            },
            0xD5 => {
                Ok(GameboyInstruction {
                    opcode,
                    mnemonic: "PUSH DE",
                    instruction_family: GameboyInstructionFamily::PUSH,
                    operand1: Some(GameboyInstructionOperand::Register16(GameboyNamedRegister16::DE)),
                    operand2: None,
                    condition: None,
                    cycles: 16,
                    size: 1,
                })
            },
            0xD8 => {
                Ok(GameboyInstruction {
                    opcode,
                    mnemonic: "RET C",
                    instruction_family: GameboyInstructionFamily::RET,
                    operand1: None,
                    operand2: None,
                    condition: Some(GameboyInstructionCondition::C),
                    cycles: 20,
                    size: 1,
                })
            },
            0xDA => {
                let value = self.fetch16();
                Ok(GameboyInstruction {
                    opcode,
                    mnemonic: "JP C, n16",
                    instruction_family: GameboyInstructionFamily::JP,
                    operand1: Some(GameboyInstructionOperand::Address(value)),
                    operand2: None,
                    condition: Some(GameboyInstructionCondition::C),
                    cycles: 16,
                    size: 3,
                })
            },
            0xE0 => {
                let value = self.fetch();
                Ok(GameboyInstruction {
                    opcode,
                    mnemonic: "LDH (n8), A",
                    instruction_family: GameboyInstructionFamily::LDH,
                    operand1: Some(GameboyInstructionOperand::Immediate8(value)),
                    operand2: Some(GameboyInstructionOperand::Register8(GameboyNamedRegister8::A)),
                    condition: None,
                    cycles: 12,
                    size: 2,
                })
            },
            0xE1 => {
                Ok(GameboyInstruction {
                    opcode,
                    mnemonic: "POP HL",
                    instruction_family: GameboyInstructionFamily::POP,
                    operand1: Some(GameboyInstructionOperand::Register16(GameboyNamedRegister16::HL)),
                    operand2: None,
                    condition: None,
                    cycles: 12,
                    size: 1,
                })
            },
            0xE5 => {
                Ok(GameboyInstruction {
                    opcode,
                    mnemonic: "PUSH HL",
                    instruction_family: GameboyInstructionFamily::PUSH,
                    operand1: Some(GameboyInstructionOperand::Register16(GameboyNamedRegister16::HL)),
                    operand2: None,
                    condition: None,
                    cycles: 16,
                    size: 1,
                })
            },
            0xE9 => {
                Ok(GameboyInstruction {
                    opcode,
                    mnemonic: "JP HL",
                    instruction_family: GameboyInstructionFamily::JP,
                    operand1: Some(GameboyInstructionOperand::Register16(GameboyNamedRegister16::HL)),
                    operand2: None,
                    condition: None,
                    cycles: 4,
                    size: 1,
                })
            },
            0xF0 => {
                let value = self.fetch();
                Ok(GameboyInstruction {
                    opcode,
                    mnemonic: "LDH A, (n8)",
                    instruction_family: GameboyInstructionFamily::LDH,
                    operand1: Some(GameboyInstructionOperand::Register8(GameboyNamedRegister8::A)),
                    operand2: Some(GameboyInstructionOperand::Immediate8(value)),
                    condition: None,
                    cycles: 12,
                    size: 2,
                })
            },
            0xF3 => {
                Ok(GameboyInstruction {
                    opcode,
                    mnemonic: "DI",
                    instruction_family: GameboyInstructionFamily::DI,
                    operand1: None,
                    operand2: None,
                    condition: None,
                    cycles: 4,
                    size: 1,
                })
            },
            0xFE => {
                let value = self.fetch();
                Ok(GameboyInstruction {
                    opcode,
                    mnemonic: "CP n8",
                    instruction_family: GameboyInstructionFamily::CP,
                    operand1: Some(GameboyInstructionOperand::Immediate8(value)),
                    operand2: None,
                    condition: None,
                    cycles: 8,
                    size: 2,
                })
            },
            _ => Err(GameboyError::UnknownOpcode {
                opcode,
                address: self.registers.pc.wrapping_sub(1),
            }),
        }
    }

    /// Looks up a second opcode byte in the extended table; the machine is
    /// untouched. An unsupported byte is reported with the address it was
    /// fetched from (one before the current program counter).
    pub fn decode_prefix(&mut self, opcode: u8) -> (r: Result<GameboyInstruction, GameboyError>)
        ensures
            *final(self) == *old(self),
            match spec_decode_prefix(opcode) {
                Some(i) => r == Ok::<GameboyInstruction, GameboyError>(i),
                None => r == Err::<GameboyInstruction, GameboyError>(GameboyError::UnknownOpcode {
                    opcode,
                    address: u16_specs::wrapping_sub(old(self).registers.pc, 1),
                }),
            },
    {
        match opcode {
            0x37 => {
                Ok(GameboyInstruction {
                    opcode,
                    mnemonic: "SWAP A",
                    instruction_family: GameboyInstructionFamily::SWAP,
                    operand1: Some(GameboyInstructionOperand::Register8(GameboyNamedRegister8::A)),
                    operand2: None,
                    condition: None,
                    cycles: 8,
                    size: 2,
                })
            },
            0x7C => {
                Ok(GameboyInstruction {
                    opcode,
                    mnemonic: "BIT 7, H",
                    instruction_family: GameboyInstructionFamily::BIT,
                    operand1: Some(GameboyInstructionOperand::Immediate8(7)),
                    operand2: Some(GameboyInstructionOperand::Register8(GameboyNamedRegister8::H)),
                    condition: None,
                    cycles: 8,
                    size: 2,
                })
            },
            _ => Err(GameboyError::UnknownOpcode {
                opcode,
                address: self.registers.pc.wrapping_sub(1),
            }),
        }
    }

    /// Turns one already-fetched opcode byte into an instruction, consuming
    /// any immediate operand bytes (and, for the escape byte, the second
    /// opcode byte) from the instruction stream, so the program counter
    /// ends past the whole instruction. An unsupported opcode is reported
    /// with the offending byte and the address it was fetched from.
    pub fn decode(&mut self, opcode: u8) -> (r: Result<GameboyInstruction, GameboyError>)
        requires
            old(self).wf(),
        ensures
            final(self).wf(),
            ({
                let (m2, rr) = spec_decode_step(old(self)@, opcode);
                final(self)@ == m2 && r == rr
            }),
    {
        if opcode == 0xCB {
            let prefix_opcode = self.fetch();
            self.decode_prefix(prefix_opcode)
        } else if opcode < 0x40 {
            self.decode_q0(opcode)
        } else if opcode < 0x80 {
            self.decode_q1(opcode)
        } else if opcode < 0xC0 {
            self.decode_q2(opcode)
        } else {
            self.decode_q3(opcode)
        }
    }
}

} // verus!
