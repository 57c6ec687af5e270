use vstd::prelude::*;
use crate::registers::GameboyNamedRegister16;
use crate::registers::GameboyNamedRegister8;
use crate::registers::reg16_supported;

verus! {

/// Post-access adjustment applied to a pointer register.
#[derive(Debug, Clone, Copy, PartialEq, Eq, Structural)]
pub enum GameboyInstructionPointerOp {
    Increment,
    Decrement,
}

/// A decoded operand: a description of where to read or write, never a
/// reference into the register file.
#[derive(Debug, Clone, Copy, PartialEq, Eq)]
pub enum GameboyInstructionOperand {
    Register8(GameboyNamedRegister8),
    Register16(GameboyNamedRegister16),
    Pointer(GameboyNamedRegister16, Option<GameboyInstructionPointerOp>),
    Immediate8(u8),
    ImmediateSigned8(i8),
    Immediate16(u16),
    Address(u16),
}

/// The closed set of operation kinds the execution engine dispatches on.
#[derive(Debug, Clone, Copy, PartialEq, Eq, Structural)]
pub enum GameboyInstructionFamily {
    NOP,
    JP,
    DI,
    XOR,
    LD,
    DEC,
    JR,
    CALL,
    OR,
    RET,
    LDH,
    CP,
    INC,
    AND,
    PUSH,
    POP,
    SCF,
    ADD,
    BIT,
    SWAP,
}

/// Flag-based guard on a conditional instruction.
#[derive(Debug, Clone, Copy, PartialEq, Eq, Structural)]
pub enum GameboyInstructionCondition {
    NZ,
    Z,
    NC,
    C,
}

/// An immutable decoded instruction, produced fresh on every decode and
/// discarded after execution.
#[derive(Debug, Clone, Copy, PartialEq, Eq)]
pub struct GameboyInstruction {
    pub opcode: u8,
    pub mnemonic: &'static str,
    pub instruction_family: GameboyInstructionFamily,
    pub operand1: Option<GameboyInstructionOperand>,
    pub operand2: Option<GameboyInstructionOperand>,
    pub condition: Option<GameboyInstructionCondition>,
    pub cycles: u8,
    pub size: u8,
}

/// The two fatal conditions the core can report: an opcode byte (or
/// escape-prefixed byte) absent from the tables, and an operand shape the
/// dispatched operation does not support. Both carry the offending byte and
/// the address it was read from.
#[derive(Debug, Clone, Copy, PartialEq, Eq, Structural)]
pub enum GameboyError {
    UnknownOpcode { opcode: u8, address: u16 },
    InvalidOperand { opcode: u8, address: u16 },
}

/// Any 16-bit register an operand names must be one the register file
/// supports.
pub open spec fn operand_regs_supported(operand: GameboyInstructionOperand) -> bool {
    match operand {
        GameboyInstructionOperand::Register16(r) => reg16_supported(r),
        GameboyInstructionOperand::Pointer(r, _) => reg16_supported(r),
        _ => true,
    }
}

impl GameboyInstruction {
    /// Well-formedness the decode tables establish by construction: every
    /// 16-bit register named by an operand is addressable, and a bit-test
    /// names a bit position below 8. The execution engine relies on this;
    /// a violation is a malformed table, not a runtime condition.
    pub open spec fn valid(self) -> bool {
        &&& match self.operand1 {
            Some(op) => operand_regs_supported(op),
            None => true,
        }
        &&& match self.operand2 {
            Some(op) => operand_regs_supported(op),
            None => true,
        }
        &&& (self.instruction_family == GameboyInstructionFamily::BIT ==> match self.operand1 {
            Some(GameboyInstructionOperand::Immediate8(bit)) => bit < 8,
            _ => true,
        })
    }
}

} // verus!
