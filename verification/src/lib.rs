//! A verified emulator core for an 8-bit handheld game console processor:
//! a register file, a flat byte-addressable memory bus, an instruction
//! decoder over a fixed opcode table, and an execution engine that applies
//! each instruction's documented effect on registers, memory and flags.

pub mod decode;
pub mod exec;
pub mod instruction;
pub mod laws;
pub mod machine;
pub mod registers;
pub mod step;

pub use instruction::GameboyError;
pub use instruction::GameboyInstruction;
pub use instruction::GameboyInstructionCondition;
pub use instruction::GameboyInstructionFamily;
pub use instruction::GameboyInstructionOperand;
pub use instruction::GameboyInstructionPointerOp;
pub use machine::Gameboy;
pub use registers::GameboyNamedRegister16;
pub use registers::GameboyNamedRegister8;
pub use registers::GameboyRegisterFlags;
pub use registers::GameboyRegisters;
