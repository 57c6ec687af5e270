use vstd::prelude::*;
use vstd::wrapping::u16_specs;
use vstd::wrapping::u8_specs;
use crate::instruction::GameboyError;
use crate::instruction::GameboyInstruction;
use crate::instruction::GameboyInstructionCondition;
use crate::instruction::GameboyInstructionFamily;
use crate::instruction::GameboyInstructionOperand;
use crate::instruction::GameboyInstructionPointerOp;
use crate::machine::Gameboy;
use crate::machine::GbModel;
use crate::machine::mem_at;
use crate::machine::word_at;
use crate::registers::GameboyNamedRegister16;
use crate::registers::GameboyNamedRegister8;
use crate::registers::GameboyRegisterFlags;
use crate::registers::GameboyRegisters;
use crate::registers::reg16_supported;

verus! {

/// The low byte of a 16-bit value.
pub open spec fn low_byte(value: u16) -> u8 {
    value as u8
}

/// The high byte of a 16-bit value.
pub open spec fn high_byte(value: u16) -> u8 {
    (value >> 8) as u8
}

/// Whether a guard condition holds of the current flag state; an absent
/// guard always holds.
pub open spec fn cond_holds(regs: GameboyRegisters, condition: Option<GameboyInstructionCondition>) -> bool {
    match condition {
        Some(GameboyInstructionCondition::NZ) => !regs.spec_get_flag(GameboyRegisterFlags::Z),
        Some(GameboyInstructionCondition::Z) => regs.spec_get_flag(GameboyRegisterFlags::Z),
        Some(GameboyInstructionCondition::NC) => !regs.spec_get_flag(GameboyRegisterFlags::C),
        Some(GameboyInstructionCondition::C) => regs.spec_get_flag(GameboyRegisterFlags::C),
        None => true,
    }
}

/// The failure the execution engine reports for an operand shape the
/// dispatched operation does not support.
pub open spec fn spec_invalid_operand(m: GbModel, i: GameboyInstruction) -> GameboyError {
    GameboyError::InvalidOperand { opcode: i.opcode, address: m.regs.pc }
}

/// The pointer register re-written after a memory access through it:
/// auto-increment or auto-decrement by `delta`, applied to the address the
/// access used, modulo the address space.
pub open spec fn pointer_adjust(
    regs: GameboyRegisters,
    register: GameboyNamedRegister16,
    op: Option<GameboyInstructionPointerOp>,
    address: u16,
    delta: u16,
) -> GameboyRegisters {
    match op {
        Some(GameboyInstructionPointerOp::Increment) => regs.spec_set_reg16(
            register,
            u16_specs::wrapping_add(address, delta),
        ),
        Some(GameboyInstructionPointerOp::Decrement) => regs.spec_set_reg16(
            register,
            u16_specs::wrapping_sub(address, delta),
        ),
        None => regs,
    }
}

/// Flag outcome of the three bitwise accumulator operations: Zero from the
/// result, Subtract and Carry cleared, Half-carry as the operation
/// dictates.
pub open spec fn logic_flags(regs: GameboyRegisters, result: u8, half: bool) -> GameboyRegisters {
    regs.spec_set_flag(GameboyRegisterFlags::Z, result == 0).spec_set_flag(
        GameboyRegisterFlags::N,
        false,
    ).spec_set_flag(GameboyRegisterFlags::H, half).spec_set_flag(GameboyRegisterFlags::C, false)
}

/// Flag outcome of a compare of the accumulator `a` against `value`:
/// Zero if equal, Subtract set, Half-carry on low-nibble borrow, Carry on
/// full borrow. No register other than the flags is touched.
pub open spec fn compare_flags(regs: GameboyRegisters, a: u8, value: u8) -> GameboyRegisters {
    regs.spec_set_flag(GameboyRegisterFlags::Z, u8_specs::wrapping_sub(a, value) == 0).spec_set_flag(
        GameboyRegisterFlags::N,
        true,
    ).spec_set_flag(GameboyRegisterFlags::H, (a & 0x0F) < (value & 0x0F)).spec_set_flag(
        GameboyRegisterFlags::C,
        a < value,
    )
}

/// Effect of a jump: the program counter is overwritten with the operand
/// address or the named pair's value.
pub open spec fn spec_apply_jp(m: GbModel, i: GameboyInstruction) -> Result<GbModel, GameboyError> {
    match i.operand1 {
        Some(GameboyInstructionOperand::Address(address)) => Ok(
            GbModel { regs: GameboyRegisters { pc: address, ..m.regs }, ..m },
        ),
        Some(GameboyInstructionOperand::Register16(register)) => Ok(
            GbModel { regs: GameboyRegisters { pc: m.regs.spec_get_reg16(register), ..m.regs }, ..m },
        ),
        _ => Err(spec_invalid_operand(m, i)),
    }
}

/// Effect of xor: the accumulator becomes `a ^ value`, with the bitwise
/// flag outcome (Half-carry clear).
pub open spec fn spec_apply_xor(m: GbModel, i: GameboyInstruction) -> Result<GbModel, GameboyError> {
    match i.operand1 {
        Some(GameboyInstructionOperand::Register8(register)) => {
            let value = m.regs.spec_get_reg8(register);
            let result = m.regs.spec_get_reg8(GameboyNamedRegister8::A) ^ value;
            let regs1 = m.regs.spec_set_reg8(GameboyNamedRegister8::A, result);
            Ok(GbModel { regs: logic_flags(regs1, result, false), ..m })
        },
        _ => Err(spec_invalid_operand(m, i)),
    }
}

/// Effect of or: the accumulator becomes `a | value`, with the bitwise
/// flag outcome (Half-carry clear).
pub open spec fn spec_apply_or(m: GbModel, i: GameboyInstruction) -> Result<GbModel, GameboyError> {
    match i.operand1 {
        Some(GameboyInstructionOperand::Register8(register)) => {
            let value = m.regs.spec_get_reg8(register);
            let result = m.regs.spec_get_reg8(GameboyNamedRegister8::A) | value;
            let regs1 = m.regs.spec_set_reg8(GameboyNamedRegister8::A, result);
            Ok(GbModel { regs: logic_flags(regs1, result, false), ..m })
        },
        _ => Err(spec_invalid_operand(m, i)),
    }
}

/// Effect of and: the accumulator becomes `a & value`, with the bitwise
/// flag outcome (Half-carry set).
pub open spec fn spec_apply_and(m: GbModel, i: GameboyInstruction) -> Result<GbModel, GameboyError> {
    match i.operand1 {
        Some(GameboyInstructionOperand::Register8(register)) => {
            let value = m.regs.spec_get_reg8(register);
            let result = m.regs.spec_get_reg8(GameboyNamedRegister8::A) & value;
            let regs1 = m.regs.spec_set_reg8(GameboyNamedRegister8::A, result);
            Ok(GbModel { regs: logic_flags(regs1, result, true), ..m })
        },
        _ => Err(spec_invalid_operand(m, i)),
    }
}

/// Effect of a load: a value moves between register, memory-pointer and
/// immediate operands; a pointer register is auto-adjusted after the
/// access. A 16-bit value read through a pointer is little endian; a
/// 16-bit value stored through a pointer keeps the engine's high-byte-first
/// order.
pub open spec fn spec_apply_ld(m: GbModel, i: GameboyInstruction) -> Result<GbModel, GameboyError> {
    match (i.operand1, i.operand2) {
        (Some(GameboyInstructionOperand::Register8(r1)), Some(GameboyInstructionOperand::Immediate8(value))) => Ok(
            GbModel { regs: m.regs.spec_set_reg8(r1, value), ..m },
        ),
        (Some(GameboyInstructionOperand::Register8(r1)), Some(GameboyInstructionOperand::Register8(r2))) => Ok(
            GbModel { regs: m.regs.spec_set_reg8(r1, m.regs.spec_get_reg8(r2)), ..m },
        ),
        (Some(GameboyInstructionOperand::Register8(r1)), Some(GameboyInstructionOperand::Pointer(r2, op))) => {
            let address = m.regs.spec_get_reg16(r2);
            let regs1 = m.regs.spec_set_reg8(r1, mem_at(m, address));
            Ok(GbModel { regs: pointer_adjust(regs1, r2, op, address, 1), ..m })
        },
        (Some(GameboyInstructionOperand::Pointer(r1, op)), Some(GameboyInstructionOperand::Register8(r2))) => {
            let address = m.regs.spec_get_reg16(r1);
            let mem1 = m.mem.update(address as int, m.regs.spec_get_reg8(r2));
            Ok(GbModel { regs: pointer_adjust(m.regs, r1, op, address, 1), mem: mem1 })
        },
        (Some(GameboyInstructionOperand::Pointer(r1, op)), Some(GameboyInstructionOperand::Register16(r2))) => {
            let address = m.regs.spec_get_reg16(r1);
            let value = m.regs.spec_get_reg16(r2);
            let mem1 = m.mem.update(address as int, high_byte(value)).update(
                u16_specs::wrapping_add(address, 1) as int,
                low_byte(value),
            );
            Ok(GbModel { regs: pointer_adjust(m.regs, r1, op, address, 2), mem: mem1 })
        },
        (Some(GameboyInstructionOperand::Register16(r1)), Some(GameboyInstructionOperand::Immediate16(value))) => Ok(
            GbModel { regs: m.regs.spec_set_reg16(r1, value), ..m },
        ),
        (Some(GameboyInstructionOperand::Register16(r1)), Some(GameboyInstructionOperand::Pointer(r2, op))) => {
            let address = m.regs.spec_get_reg16(r2);
            let regs1 = m.regs.spec_set_reg16(r1, word_at(m, address));
            Ok(GbModel { regs: pointer_adjust(regs1, r2, op, address, 2), ..m })
        },
        _ => Err(spec_invalid_operand(m, i)),
    }
}

/// Effect of decrement: an 8-bit register wraps down by one and rewrites
/// Zero, Subtract and Half-carry (Carry untouched); a 16-bit pair wraps
/// down by one and touches no flag.
pub open spec fn spec_apply_dec(m: GbModel, i: GameboyInstruction) -> Result<GbModel, GameboyError> {
    match i.operand1 {
        Some(GameboyInstructionOperand::Register8(register)) => {
            let value = m.regs.spec_get_reg8(register);
            let regs1 = m.regs.spec_set_reg8(register, u8_specs::wrapping_sub(value, 1));
            let regs2 = regs1.spec_set_flag(
                GameboyRegisterFlags::Z,
                regs1.spec_get_reg8(register) == 0,
            ).spec_set_flag(GameboyRegisterFlags::N, true).spec_set_flag(
                GameboyRegisterFlags::H,
                (value & 0x0F) == 0,
            );
            Ok(GbModel { regs: regs2, ..m })
        },
        Some(GameboyInstructionOperand::Register16(register)) => {
            let value = m.regs.spec_get_reg16(register);
            Ok(GbModel { regs: m.regs.spec_set_reg16(register, u16_specs::wrapping_sub(value, 1)), ..m })
        },
        _ => Err(spec_invalid_operand(m, i)),
    }
}

/// Effect of increment: an 8-bit register wraps up by one and rewrites
/// Zero, Subtract and Half-carry (Carry untouched); a 16-bit pair wraps up
/// by one and touches no flag.
pub open spec fn spec_apply_inc(m: GbModel, i: GameboyInstruction) -> Result<GbModel, GameboyError> {
    match i.operand1 {
        Some(GameboyInstructionOperand::Register8(register)) => {
            let value = m.regs.spec_get_reg8(register);
            let regs1 = m.regs.spec_set_reg8(register, u8_specs::wrapping_add(value, 1));
            let regs2 = regs1.spec_set_flag(
                GameboyRegisterFlags::Z,
                regs1.spec_get_reg8(register) == 0,
            ).spec_set_flag(GameboyRegisterFlags::N, false).spec_set_flag(
                GameboyRegisterFlags::H,
                (value & 0x0F) == 0x0F,
            );
            Ok(GbModel { regs: regs2, ..m })
        },
        Some(GameboyInstructionOperand::Register16(register)) => {
            let value = m.regs.spec_get_reg16(register);
            Ok(GbModel { regs: m.regs.spec_set_reg16(register, u16_specs::wrapping_add(value, 1)), ..m })
        },
        _ => Err(spec_invalid_operand(m, i)),
    }
}

/// Effect of a relative jump: the sign-extended offset is added to the
/// program counter (already past the instruction), modulo the address
/// space.
pub open spec fn spec_apply_jr(m: GbModel, i: GameboyInstruction) -> Result<GbModel, GameboyError> {
    match i.operand1 {
        Some(GameboyInstructionOperand::ImmediateSigned8(offset)) => Ok(
            GbModel {
                regs: GameboyRegisters {
                    pc: u16_specs::wrapping_add_signed(m.regs.pc, offset as i16),
                    ..m.regs
                },
                ..m
            },
        ),
        _ => Err(spec_invalid_operand(m, i)),
    }
}

/// Effect of a call: the return address (current program counter) is
/// pushed on the descending stack, low byte at the lower address, and the
/// program counter jumps to the operand address.
pub open spec fn spec_apply_call(m: GbModel, i: GameboyInstruction) -> Result<GbModel, GameboyError> {
    match i.operand1 {
        Some(GameboyInstructionOperand::Address(address)) => {
            let return_address = m.regs.pc;
            let sp1 = u16_specs::wrapping_sub(m.regs.sp, 2);
            let mem1 = m.mem.update(sp1 as int, low_byte(return_address)).update(
                u16_specs::wrapping_add(sp1, 1) as int,
                high_byte(return_address),
            );
            Ok(GbModel { regs: GameboyRegisters { sp: sp1, pc: address, ..m.regs }, mem: mem1 })
        },
        _ => Err(spec_invalid_operand(m, i)),
    }
}

/// Effect of a return: the program counter is popped from the stack
/// (low byte at the lower address) and the stack pointer rises by two.
pub open spec fn spec_apply_ret(m: GbModel, i: GameboyInstruction) -> Result<GbModel, GameboyError> {
    Ok(
        GbModel {
            regs: GameboyRegisters {
                sp: u16_specs::wrapping_add(m.regs.sp, 2),
                pc: word_at(m, m.regs.sp),
                ..m.regs
            },
            ..m
        },
    )
}

/// Effect of an I/O-mapped load: one byte moves between a register and the
/// high page at `0xFF00 + offset`.
pub open spec fn spec_apply_ldh(m: GbModel, i: GameboyInstruction) -> Result<GbModel, GameboyError> {
    match (i.operand1, i.operand2) {
        (Some(GameboyInstructionOperand::Immediate8(offset)), Some(GameboyInstructionOperand::Register8(register))) => Ok(
            GbModel {
                mem: m.mem.update(0xFF00 + offset as int, m.regs.spec_get_reg8(register)),
                ..m
            },
        ),
        (Some(GameboyInstructionOperand::Register8(register)), Some(GameboyInstructionOperand::Immediate8(offset))) => Ok(
            GbModel {
                regs: m.regs.spec_set_reg8(register, m.mem[0xFF00 + offset as int]),
                ..m
            },
        ),
        _ => Err(spec_invalid_operand(m, i)),
    }
}

/// Effect of a compare: flags are rewritten as for a subtraction of the
/// operand from the accumulator, which itself is left untouched; a pointer
/// operand is auto-adjusted afterwards.
pub open spec fn spec_apply_cp(m: GbModel, i: GameboyInstruction) -> Result<GbModel, GameboyError> {
    let a = m.regs.spec_get_reg8(GameboyNamedRegister8::A);
    match i.operand1 {
        Some(GameboyInstructionOperand::Immediate8(value)) => Ok(
            GbModel { regs: compare_flags(m.regs, a, value), ..m },
        ),
        Some(GameboyInstructionOperand::Register8(register)) => Ok(
            GbModel { regs: compare_flags(m.regs, a, m.regs.spec_get_reg8(register)), ..m },
        ),
        Some(GameboyInstructionOperand::Pointer(register, op)) => {
            let address = m.regs.spec_get_reg16(register);
            let regs1 = compare_flags(m.regs, a, mem_at(m, address));
            Ok(GbModel { regs: pointer_adjust(regs1, register, op, address, 1), ..m })
        },
        _ => Err(spec_invalid_operand(m, i)),
    }
}

/// Effect of a push: the pair's value goes on the descending stack, low
/// byte at the lower address, and the stack pointer drops by two.
pub open spec fn spec_apply_push(m: GbModel, i: GameboyInstruction) -> Result<GbModel, GameboyError> {
    match i.operand1 {
        Some(GameboyInstructionOperand::Register16(register)) => {
            let value = m.regs.spec_get_reg16(register);
            let sp1 = u16_specs::wrapping_sub(m.regs.sp, 2);
            let mem1 = m.mem.update(sp1 as int, low_byte(value)).update(
                u16_specs::wrapping_add(sp1, 1) as int,
                high_byte(value),
            );
            Ok(GbModel { regs: GameboyRegisters { sp: sp1, ..m.regs }, mem: mem1 })
        },
        _ => Err(spec_invalid_operand(m, i)),
    }
}

/// Effect of a pop: the pair receives the word at the stack pointer (low
/// byte at the lower address) and the stack pointer rises by two first.
pub open spec fn spec_apply_pop(m: GbModel, i: GameboyInstruction) -> Result<GbModel, GameboyError> {
    match i.operand1 {
        Some(GameboyInstructionOperand::Register16(register)) => {
            let value = word_at(m, m.regs.sp);
            let regs1 = GameboyRegisters { sp: u16_specs::wrapping_add(m.regs.sp, 2), ..m.regs };
            Ok(GbModel { regs: regs1.spec_set_reg16(register, value), ..m })
        },
        _ => Err(spec_invalid_operand(m, i)),
    }
}

/// Effect of set-carry-flag: Subtract and Half-carry clear, Carry set,
/// Zero untouched.
pub open spec fn spec_apply_scf(m: GbModel, i: GameboyInstruction) -> Result<GbModel, GameboyError> {
    Ok(
        GbModel {
            regs: m.regs.spec_set_flag(GameboyRegisterFlags::N, false).spec_set_flag(
                GameboyRegisterFlags::H,
                false,
            ).spec_set_flag(GameboyRegisterFlags::C, true),
            ..m
        },
    )
}

/// Effect of add: a 16-bit pair-to-pair add rewrites Subtract, Half-carry
/// (carry out of bit 11) and Carry, leaving Zero untouched; an 8-bit
/// immediate add to the accumulator rewrites all four flags (half-carry
/// out of bit 3).
pub open spec fn spec_apply_add(m: GbModel, i: GameboyInstruction) -> Result<GbModel, GameboyError> {
    match (i.operand1, i.operand2) {
        (Some(GameboyInstructionOperand::Register16(r1)), Some(GameboyInstructionOperand::Register16(r2))) => {
            let value1 = m.regs.spec_get_reg16(r1);
            let value2 = m.regs.spec_get_reg16(r2);
            let result = u16_specs::wrapping_add(value1, value2);
            let regs1 = m.regs.spec_set_flag(GameboyRegisterFlags::N, false).spec_set_flag(
                GameboyRegisterFlags::H,
                (value1 & 0x0FFF) + (value2 & 0x0FFF) > 0x0FFF,
            ).spec_set_flag(GameboyRegisterFlags::C, value1 > 0xFFFF - value2);
            Ok(GbModel { regs: regs1.spec_set_reg16(r1, result), ..m })
        },
        (Some(GameboyInstructionOperand::Register8(r1)), Some(GameboyInstructionOperand::Immediate8(value))) => {
            let a = m.regs.spec_get_reg8(GameboyNamedRegister8::A);
            let result = u8_specs::wrapping_add(a, value);
            let regs1 = m.regs.spec_set_flag(GameboyRegisterFlags::Z, result == 0).spec_set_flag(
                GameboyRegisterFlags::N,
                false,
            ).spec_set_flag(GameboyRegisterFlags::H, (a & 0x0F) + (value & 0x0F) > 0x0F).spec_set_flag(
                GameboyRegisterFlags::C,
                a > 0xFF - value,
            );
            Ok(GbModel { regs: regs1.spec_set_reg8(GameboyNamedRegister8::A, result), ..m })
        },
        _ => Err(spec_invalid_operand(m, i)),
    }
}

/// Effect of a bit test: Zero becomes the inverse of the tested bit,
/// Subtract clears, Half-carry sets, Carry is untouched.
pub open spec fn spec_apply_bit(m: GbModel, i: GameboyInstruction) -> Result<GbModel, GameboyError> {
    match (i.operand1, i.operand2) {
        (Some(GameboyInstructionOperand::Immediate8(bit)), Some(GameboyInstructionOperand::Register8(register))) => {
            let value = m.regs.spec_get_reg8(register);
            let result = value & (1u8 << bit) != 0;
            Ok(
                GbModel {
                    regs: m.regs.spec_set_flag(GameboyRegisterFlags::Z, !result).spec_set_flag(
                        GameboyRegisterFlags::N,
                        false,
                    ).spec_set_flag(GameboyRegisterFlags::H, true),
                    ..m
                },
            )
        },
        _ => Err(spec_invalid_operand(m, i)),
    }
}

/// Effect of nibble-swap: the register's two 4-bit groups exchange; Zero
/// comes from the result and the other three flags clear.
pub open spec fn spec_apply_swap(m: GbModel, i: GameboyInstruction) -> Result<GbModel, GameboyError> {
    match i.operand1 {
        Some(GameboyInstructionOperand::Register8(register)) => {
            let value = m.regs.spec_get_reg8(register);
            let result = (value << 4) | (value >> 4);
            let regs1 = logic_flags(m.regs, result, false);
            Ok(GbModel { regs: regs1.spec_set_reg8(register, result), ..m })
        },
        _ => Err(spec_invalid_operand(m, i)),
    }
}

/// Effect of one executed instruction on the machine, after its guard has
/// passed: the next machine state, or the invalid-operand failure. No-op
/// and interrupt-disable change nothing.
pub open spec fn spec_apply(m: GbModel, i: GameboyInstruction) -> Result<GbModel, GameboyError> {
    match i.instruction_family {
        GameboyInstructionFamily::NOP => Ok(m),
        GameboyInstructionFamily::JP => spec_apply_jp(m, i),
        GameboyInstructionFamily::DI => Ok(m),
        GameboyInstructionFamily::XOR => spec_apply_xor(m, i),
        GameboyInstructionFamily::LD => spec_apply_ld(m, i),
        GameboyInstructionFamily::DEC => spec_apply_dec(m, i),
        GameboyInstructionFamily::JR => spec_apply_jr(m, i),
        GameboyInstructionFamily::CALL => spec_apply_call(m, i),
        GameboyInstructionFamily::OR => spec_apply_or(m, i),
        GameboyInstructionFamily::RET => spec_apply_ret(m, i),
        GameboyInstructionFamily::LDH => spec_apply_ldh(m, i),
        GameboyInstructionFamily::CP => spec_apply_cp(m, i),
        GameboyInstructionFamily::INC => spec_apply_inc(m, i),
        GameboyInstructionFamily::AND => spec_apply_and(m, i),
        GameboyInstructionFamily::PUSH => spec_apply_push(m, i),
        GameboyInstructionFamily::POP => spec_apply_pop(m, i),
        GameboyInstructionFamily::SCF => spec_apply_scf(m, i),
        GameboyInstructionFamily::ADD => spec_apply_add(m, i),
        GameboyInstructionFamily::BIT => spec_apply_bit(m, i),
        GameboyInstructionFamily::SWAP => spec_apply_swap(m, i),
    }
}

/// Effect of one instruction including its guard: a failed guard makes the
/// instruction a no-effect step.
pub open spec fn spec_exec(m: GbModel, i: GameboyInstruction) -> Result<GbModel, GameboyError> {
    if cond_holds(m.regs, i.condition) {
        spec_apply(m, i)
    } else {
        Ok(m)
    }
}

impl Gameboy {
    /// Evaluates a guard condition against the current flag state; never
    /// mutates anything.
    pub fn check_condition(&self, condition: Option<GameboyInstructionCondition>) -> (holds: bool)
        ensures
            holds == cond_holds(self.registers, condition),
    {
        match condition {
            Some(GameboyInstructionCondition::NZ) => !self.registers.get_flag(GameboyRegisterFlags::Z),
            Some(GameboyInstructionCondition::Z) => self.registers.get_flag(GameboyRegisterFlags::Z),
            Some(GameboyInstructionCondition::NC) => !self.registers.get_flag(GameboyRegisterFlags::C),
            Some(GameboyInstructionCondition::C) => self.registers.get_flag(GameboyRegisterFlags::C),
            None => true,
        }
    }

    fn invalid_operand(&self, instruction: &GameboyInstruction) -> (e: GameboyError)
        ensures
            e == spec_invalid_operand(self@, *instruction),
    {
        GameboyError::InvalidOperand { opcode: instruction.opcode, address: self.registers.pc }
    }

    fn apply_pointer_op(
        &mut self,
        register: &GameboyNamedRegister16,
        op: Option<GameboyInstructionPointerOp>,
        address: u16,
        delta: u16,
    )
        requires
            old(self).wf(),
            reg16_supported(*register),
        ensures
            final(self).wf(),
            final(self)@.mem == old(self)@.mem,
            final(self).registers == pointer_adjust(old(self).registers, *register, op, address, delta),
    {
        match op {
            Some(GameboyInstructionPointerOp::Increment) => {
                self.registers.set_reg16(register, address.wrapping_add(delta));
            },
            Some(GameboyInstructionPointerOp::Decrement) => {
                self.registers.set_reg16(register, address.wrapping_sub(delta));
            },
            None => {},
        }
    }

    fn exec_jp(&mut self, instruction: &GameboyInstruction) -> (r: Result<(), GameboyError>)
        requires
            old(self).wf(),
            instruction.valid(),
        ensures
            final(self).wf(),
            match spec_apply_jp(old(self)@, *instruction) {
                Ok(m2) => r == Ok::<(), GameboyError>(()) && final(self)@ == m2,
                Err(e) => r == Err::<(), GameboyError>(e) && *final(self) == *old(self),
            },
    {
        match instruction.operand1 {
            Some(GameboyInstructionOperand::Address(address)) => {
                self.registers.pc = address;
                Ok(())
            },
            Some(GameboyInstructionOperand::Register16(register)) => {
                let address = self.registers.get_reg16(&register);
                self.registers.pc = address;
                Ok(())
            },
            _ => Err(self.invalid_operand(instruction)),
        }
    }

    fn exec_xor(&mut self, instruction: &GameboyInstruction) -> (r: Result<(), GameboyError>)
        requires
            old(self).wf(),
            instruction.valid(),
        ensures
            final(self).wf(),
            match spec_apply_xor(old(self)@, *instruction) {
                Ok(m2) => r == Ok::<(), GameboyError>(()) && final(self)@ == m2,
                Err(e) => r == Err::<(), GameboyError>(e) && *final(self) == *old(self),
            },
    {
        match instruction.operand1 {
            Some(GameboyInstructionOperand::Register8(register)) => {
                let value = self.registers.get_reg8(&register);
                let result = self.registers.get_reg8(&GameboyNamedRegister8::A) ^ value;
                self.registers.set_reg8(&GameboyNamedRegister8::A, result);
                self.registers.set_flag(GameboyRegisterFlags::Z, result == 0);
                self.registers.set_flag(GameboyRegisterFlags::N, false);
                self.registers.set_flag(GameboyRegisterFlags::H, false);
                self.registers.set_flag(GameboyRegisterFlags::C, false);
                Ok(())
            },
            _ => Err(self.invalid_operand(instruction)),
        }
    }

    fn exec_or(&mut self, instruction: &GameboyInstruction) -> (r: Result<(), GameboyError>)
        requires
            old(self).wf(),
            instruction.valid(),
        ensures
            final(self).wf(),
            match spec_apply_or(old(self)@, *instruction) {
                Ok(m2) => r == Ok::<(), GameboyError>(()) && final(self)@ == m2,
                Err(e) => r == Err::<(), GameboyError>(e) && *final(self) == *old(self),
            },
    {
        match instruction.operand1 {
            Some(GameboyInstructionOperand::Register8(register)) => {
                let value = self.registers.get_reg8(&register);
                let result = self.registers.get_reg8(&GameboyNamedRegister8::A) | value;
                self.registers.set_reg8(&GameboyNamedRegister8::A, result);
                self.registers.set_flag(GameboyRegisterFlags::Z, result == 0);
                self.registers.set_flag(GameboyRegisterFlags::N, false);
                self.registers.set_flag(GameboyRegisterFlags::H, false);
                self.registers.set_flag(GameboyRegisterFlags::C, false);
                Ok(())
            },
            _ => Err(self.invalid_operand(instruction)),
        }
    }

    fn exec_and(&mut self, instruction: &GameboyInstruction) -> (r: Result<(), GameboyError>)
        requires
            old(self).wf(),
            instruction.valid(),
        ensures
            final(self).wf(),
            match spec_apply_and(old(self)@, *instruction) {
                Ok(m2) => r == Ok::<(), GameboyError>(()) && final(self)@ == m2,
                Err(e) => r == Err::<(), GameboyError>(e) && *final(self) == *old(self),
            },
    {
        match instruction.operand1 {
            Some(GameboyInstructionOperand::Register8(register)) => {
                let value = self.registers.get_reg8(&register);
                let result = self.registers.get_reg8(&GameboyNamedRegister8::A) & value;
                self.registers.set_reg8(&GameboyNamedRegister8::A, result);
                self.registers.set_flag(GameboyRegisterFlags::Z, result == 0);
                self.registers.set_flag(GameboyRegisterFlags::N, false);
                self.registers.set_flag(GameboyRegisterFlags::H, true);
                self.registers.set_flag(GameboyRegisterFlags::C, false);
                Ok(())
            },
            _ => Err(self.invalid_operand(instruction)),
        }
    }

    fn exec_ld(&mut self, instruction: &GameboyInstruction) -> (r: Result<(), GameboyError>)
        requires
            old(self).wf(),
            instruction.valid(),
        ensures
            final(self).wf(),
            match spec_apply_ld(old(self)@, *instruction) {
                Ok(m2) => r == Ok::<(), GameboyError>(()) && final(self)@ == m2,
                Err(e) => r == Err::<(), GameboyError>(e) && *final(self) == *old(self),
            },
    {
        match (instruction.operand1, instruction.operand2) {
            (Some(GameboyInstructionOperand::Register8(r1)), Some(GameboyInstructionOperand::Immediate8(value))) => {
                self.registers.set_reg8(&r1, value);
                Ok(())
            },
            (Some(GameboyInstructionOperand::Register8(r1)), Some(GameboyInstructionOperand::Register8(r2))) => {
                let value = self.registers.get_reg8(&r2);
                self.registers.set_reg8(&r1, value);
                Ok(())
            },
            (Some(GameboyInstructionOperand::Register8(r1)), Some(GameboyInstructionOperand::Pointer(r2, op))) => {
                let address = self.registers.get_reg16(&r2);
                let value = self.read_byte(address);
                self.registers.set_reg8(&r1, value);
                self.apply_pointer_op(&r2, op, address, 1);
                Ok(())
            },
            (Some(GameboyInstructionOperand::Pointer(r1, op)), Some(GameboyInstructionOperand::Register8(r2))) => {
                let address = self.registers.get_reg16(&r1);
                let value = self.registers.get_reg8(&r2);
                self.write_byte(address, value);
                self.apply_pointer_op(&r1, op, address, 1);
                Ok(())
            },
            (Some(GameboyInstructionOperand::Pointer(r1, op)), Some(GameboyInstructionOperand::Register16(r2))) => {
                let address = self.registers.get_reg16(&r1);
                let value = self.registers.get_reg16(&r2);
                self.write_byte(address, (value >> 8) as u8);
                self.write_byte(address.wrapping_add(1), #[verifier::truncate] (value as u8));
                self.apply_pointer_op(&r1, op, address, 2);
                Ok(())
            },
            (Some(GameboyInstructionOperand::Register16(r1)), Some(GameboyInstructionOperand::Immediate16(value))) => {
                self.registers.set_reg16(&r1, value);
                Ok(())
            },
            (Some(GameboyInstructionOperand::Register16(r1)), Some(GameboyInstructionOperand::Pointer(r2, op))) => {
                let address = self.registers.get_reg16(&r2);
                let low = self.read_byte(address);
                let high = self.read_byte(address.wrapping_add(1));
                self.registers.set_reg16(&r1, ((high as u16) << 8) | (low as u16));
                self.apply_pointer_op(&r2, op, address, 2);
                Ok(())
            },
            _ => Err(self.invalid_operand(instruction)),
        }
    }

    fn exec_dec(&mut self, instruction: &GameboyInstruction) -> (r: Result<(), GameboyError>)
        requires
            old(self).wf(),
            instruction.valid(),
        ensures
            final(self).wf(),
            match spec_apply_dec(old(self)@, *instruction) {
                Ok(m2) => r == Ok::<(), GameboyError>(()) && final(self)@ == m2,
                Err(e) => r == Err::<(), GameboyError>(e) && *final(self) == *old(self),
            },
    {
        match instruction.operand1 {
            Some(GameboyInstructionOperand::Register8(register)) => {
                let value = self.registers.get_reg8(&register);
                self.registers.set_reg8(&register, value.wrapping_sub(1));
                let new_value = self.registers.get_reg8(&register);
                self.registers.set_flag(GameboyRegisterFlags::Z, new_value == 0);
                self.registers.set_flag(GameboyRegisterFlags::N, true);
                self.registers.set_flag(GameboyRegisterFlags::H, (value & 0x0F) == 0);
                Ok(())
            },
            Some(GameboyInstructionOperand::Register16(register)) => {
                let value = self.registers.get_reg16(&register);
                self.registers.set_reg16(&register, value.wrapping_sub(1));
                Ok(())
            },
            _ => Err(self.invalid_operand(instruction)),
        }
    }

    fn exec_inc(&mut self, instruction: &GameboyInstruction) -> (r: Result<(), GameboyError>)
        requires
            old(self).wf(),
            instruction.valid(),
        ensures
            final(self).wf(),
            match spec_apply_inc(old(self)@, *instruction) {
                Ok(m2) => r == Ok::<(), GameboyError>(()) && final(self)@ == m2,
                Err(e) => r == Err::<(), GameboyError>(e) && *final(self) == *old(self),
            },
    {
        match instruction.operand1 {
            Some(GameboyInstructionOperand::Register8(register)) => {
                let value = self.registers.get_reg8(&register);
                self.registers.set_reg8(&register, value.wrapping_add(1));
                let new_value = self.registers.get_reg8(&register);
                self.registers.set_flag(GameboyRegisterFlags::Z, new_value == 0);
                self.registers.set_flag(GameboyRegisterFlags::N, false);
                self.registers.set_flag(GameboyRegisterFlags::H, (value & 0x0F) == 0x0F);
                Ok(())
            },
            Some(GameboyInstructionOperand::Register16(register)) => {
                let value = self.registers.get_reg16(&register);
                self.registers.set_reg16(&register, value.wrapping_add(1));
                Ok(())
            },
            _ => Err(self.invalid_operand(instruction)),
        }
    }

    fn exec_jr(&mut self, instruction: &GameboyInstruction) -> (r: Result<(), GameboyError>)
        requires
            old(self).wf(),
            instruction.valid(),
        ensures
            final(self).wf(),
            match spec_apply_jr(old(self)@, *instruction) {
                Ok(m2) => r == Ok::<(), GameboyError>(()) && final(self)@ == m2,
                Err(e) => r == Err::<(), GameboyError>(e) && *final(self) == *old(self),
            },
    {
        match instruction.operand1 {
            Some(GameboyInstructionOperand::ImmediateSigned8(offset)) => {
                self.registers.pc = self.registers.pc.wrapping_add_signed(offset as i16);
                Ok(())
            },
            _ => Err(self.invalid_operand(instruction)),
        }
    }

    fn exec_call(&mut self, instruction: &GameboyInstruction) -> (r: Result<(), GameboyError>)
        requires
            old(self).wf(),
            instruction.valid(),
        ensures
            final(self).wf(),
            match spec_apply_call(old(self)@, *instruction) {
                Ok(m2) => r == Ok::<(), GameboyError>(()) && final(self)@ == m2,
                Err(e) => r == Err::<(), GameboyError>(e) && *final(self) == *old(self),
            },
    {
        match instruction.operand1 {
            Some(GameboyInstructionOperand::Address(address)) => {
                let return_address = self.registers.pc;
                let sp1 = self.registers.sp.wrapping_sub(2);
                self.registers.sp = sp1;
                self.write_byte(sp1, #[verifier::truncate] (return_address as u8));
                self.write_byte(sp1.wrapping_add(1), (return_address >> 8) as u8);
                self.registers.pc = address;
                Ok(())
            },
            _ => Err(self.invalid_operand(instruction)),
        }
    }

    fn exec_ret(&mut self, instruction: &GameboyInstruction) -> (r: Result<(), GameboyError>)
        requires
            old(self).wf(),
            instruction.valid(),
        ensures
            final(self).wf(),
            match spec_apply_ret(old(self)@, *instruction) {
                Ok(m2) => r == Ok::<(), GameboyError>(()) && final(self)@ == m2,
                Err(e) => r == Err::<(), GameboyError>(e) && *final(self) == *old(self),
            },
    {
        let low = self.read_byte(self.registers.sp);
        let high = self.read_byte(self.registers.sp.wrapping_add(1));
        self.registers.sp = self.registers.sp.wrapping_add(2);
        self.registers.pc = ((high as u16) << 8) | (low as u16);
        Ok(())
    }

    fn exec_ldh(&mut self, instruction: &GameboyInstruction) -> (r: Result<(), GameboyError>)
        requires
            old(self).wf(),
            instruction.valid(),
        ensures
            final(self).wf(),
            match spec_apply_ldh(old(self)@, *instruction) {
                Ok(m2) => r == Ok::<(), GameboyError>(()) && final(self)@ == m2,
                Err(e) => r == Err::<(), GameboyError>(e) && *final(self) == *old(self),
            },
    {
        match (instruction.operand1, instruction.operand2) {
            (Some(GameboyInstructionOperand::Immediate8(offset)), Some(GameboyInstructionOperand::Register8(register))) => {
                let value = self.registers.get_reg8(&register);
                self.write_byte(0xFF00u16 + (offset as u16), value);
                Ok(())
            },
            (Some(GameboyInstructionOperand::Register8(register)), Some(GameboyInstructionOperand::Immediate8(offset))) => {
                let value = self.read_byte(0xFF00u16 + (offset as u16));
                self.registers.set_reg8(&register, value);
                Ok(())
            },
            _ => Err(self.invalid_operand(instruction)),
        }
    }

    fn exec_cp(&mut self, instruction: &GameboyInstruction) -> (r: Result<(), GameboyError>)
        requires
            old(self).wf(),
            instruction.valid(),
        ensures
            final(self).wf(),
            match spec_apply_cp(old(self)@, *instruction) {
                Ok(m2) => r == Ok::<(), GameboyError>(()) && final(self)@ == m2,
                Err(e) => r == Err::<(), GameboyError>(e) && *final(self) == *old(self),
            },
    {
        match instruction.operand1 {
            Some(GameboyInstructionOperand::Immediate8(value)) => {
                let a = self.registers.get_reg8(&GameboyNamedRegister8::A);
                let result = a.wrapping_sub(value);
                self.registers.set_flag(GameboyRegisterFlags::Z, result == 0);
                self.registers.set_flag(GameboyRegisterFlags::N, true);
                self.registers.set_flag(GameboyRegisterFlags::H, (a & 0x0F) < (value & 0x0F));
                self.registers.set_flag(GameboyRegisterFlags::C, a < value);
                Ok(())
            },
            Some(GameboyInstructionOperand::Register8(register)) => {
                let a = self.registers.get_reg8(&GameboyNamedRegister8::A);
                let value = self.registers.get_reg8(&register);
                let result = a.wrapping_sub(value);
                self.registers.set_flag(GameboyRegisterFlags::Z, result == 0);
                self.registers.set_flag(GameboyRegisterFlags::N, true);
                self.registers.set_flag(GameboyRegisterFlags::H, (a & 0x0F) < (value & 0x0F));
                self.registers.set_flag(GameboyRegisterFlags::C, a < value);
                Ok(())
            },
            Some(GameboyInstructionOperand::Pointer(register, op)) => {
                let address = self.registers.get_reg16(&register);
                let value = self.read_byte(address);
                let a = self.registers.get_reg8(&GameboyNamedRegister8::A);
                let result = a.wrapping_sub(value);
                self.registers.set_flag(GameboyRegisterFlags::Z, result == 0);
                self.registers.set_flag(GameboyRegisterFlags::N, true);
                self.registers.set_flag(GameboyRegisterFlags::H, (a & 0x0F) < (value & 0x0F));
                self.registers.set_flag(GameboyRegisterFlags::C, a < value);
                self.apply_pointer_op(&register, op, address, 1);
                Ok(())
            },
            _ => Err(self.invalid_operand(instruction)),
        }
    }

    fn exec_push(&mut self, instruction: &GameboyInstruction) -> (r: Result<(), GameboyError>)
        requires
            old(self).wf(),
            instruction.valid(),
        ensures
            final(self).wf(),
            match spec_apply_push(old(self)@, *instruction) {
                Ok(m2) => r == Ok::<(), GameboyError>(()) && final(self)@ == m2,
                Err(e) => r == Err::<(), GameboyError>(e) && *final(self) == *old(self),
            },
    {
        match instruction.operand1 {
            Some(GameboyInstructionOperand::Register16(register)) => {
                let value = self.registers.get_reg16(&register);
                let sp1 = self.registers.sp.wrapping_sub(2);
                self.registers.sp = sp1;
                self.write_byte(sp1, #[verifier::truncate] (value as u8));
                self.write_byte(sp1.wrapping_add(1), (value >> 8) as u8);
                Ok(())
            },
            _ => Err(self.invalid_operand(instruction)),
        }
    }

    fn exec_pop(&mut self, instruction: &GameboyInstruction) -> (r: Result<(), GameboyError>)
        requires
            old(self).wf(),
            instruction.valid(),
        ensures
            final(self).wf(),
            match spec_apply_pop(old(self)@, *instruction) {
                Ok(m2) => r == Ok::<(), GameboyError>(()) && final(self)@ == m2,
                Err(e) => r == Err::<(), GameboyError>(e) && *final(self) == *old(self),
            },
    {
        match instruction.operand1 {
            Some(GameboyInstructionOperand::Register16(register)) => {
                let low = self.read_byte(self.registers.sp);
                let high = self.read_byte(self.registers.sp.wrapping_add(1));
                self.registers.sp = self.registers.sp.wrapping_add(2);
                self.registers.set_reg16(&register, ((high as u16) << 8) | (low as u16));
                Ok(())
            },
            _ => Err(self.invalid_operand(instruction)),
        }
    }

    fn exec_scf(&mut self, instruction: &GameboyInstruction) -> (r: Result<(), GameboyError>)
        requires
            old(self).wf(),
            instruction.valid(),
        ensures
            final(self).wf(),
            match spec_apply_scf(old(self)@, *instruction) {
                Ok(m2) => r == Ok::<(), GameboyError>(()) && final(self)@ == m2,
                Err(e) => r == Err::<(), GameboyError>(e) && *final(self) == *old(self),
            },
    {
        self.registers.set_flag(GameboyRegisterFlags::N, false);
        self.registers.set_flag(GameboyRegisterFlags::H, false);
        self.registers.set_flag(GameboyRegisterFlags::C, true);
        Ok(())
    }

    fn exec_add(&mut self, instruction: &GameboyInstruction) -> (r: Result<(), GameboyError>)
        requires
            old(self).wf(),
            instruction.valid(),
        ensures
            final(self).wf(),
            match spec_apply_add(old(self)@, *instruction) {
                Ok(m2) => r == Ok::<(), GameboyError>(()) && final(self)@ == m2,
                Err(e) => r == Err::<(), GameboyError>(e) && *final(self) == *old(self),
            },
    {
        match (instruction.operand1, instruction.operand2) {
            (Some(GameboyInstructionOperand::Register16(r1)), Some(GameboyInstructionOperand::Register16(r2))) => {
                let value1 = self.registers.get_reg16(&r1);
                let value2 = self.registers.get_reg16(&r2);
                let result = value1.wrapping_add(value2);
                self.registers.set_flag(GameboyRegisterFlags::N, false);
                self.registers.set_flag(
                    GameboyRegisterFlags::H,
                    ((value1 & 0x0FFF) as u32) + ((value2 & 0x0FFF) as u32) > 0x0FFF,
                );
                self.registers.set_flag(GameboyRegisterFlags::C, value1 > 0xFFFF - value2);
                self.registers.set_reg16(&r1, result);
                Ok(())
            },
            (Some(GameboyInstructionOperand::Register8(r1)), Some(GameboyInstructionOperand::Immediate8(value))) => {
                let a = self.registers.get_reg8(&GameboyNamedRegister8::A);
                let result = a.wrapping_add(value);
                self.registers.set_flag(GameboyRegisterFlags::Z, result == 0);
                self.registers.set_flag(GameboyRegisterFlags::N, false);
                self.registers.set_flag(
                    GameboyRegisterFlags::H,
                    ((a & 0x0F) as u16) + ((value & 0x0F) as u16) > 0x0F,
                );
                self.registers.set_flag(GameboyRegisterFlags::C, a > 0xFF - value);
                self.registers.set_reg8(&GameboyNamedRegister8::A, result);
                Ok(())
            },
            _ => Err(self.invalid_operand(instruction)),
        }
    }

    fn exec_bit(&mut self, instruction: &GameboyInstruction) -> (r: Result<(), GameboyError>)
        requires
            old(self).wf(),
            instruction.valid(),
            instruction.instruction_family == GameboyInstructionFamily::BIT,
        ensures
            final(self).wf(),
            match spec_apply_bit(old(self)@, *instruction) {
                Ok(m2) => r == Ok::<(), GameboyError>(()) && final(self)@ == m2,
                Err(e) => r == Err::<(), GameboyError>(e) && *final(self) == *old(self),
            },
    {
        match (instruction.operand1, instruction.operand2) {
            (Some(GameboyInstructionOperand::Immediate8(bit)), Some(GameboyInstructionOperand::Register8(register))) => {
                let value = self.registers.get_reg8(&register);
                let result = value & (1u8 << bit) != 0;
                self.registers.set_flag(GameboyRegisterFlags::Z, !result);
                self.registers.set_flag(GameboyRegisterFlags::N, false);
                self.registers.set_flag(GameboyRegisterFlags::H, true);
                Ok(())
            },
            _ => Err(self.invalid_operand(instruction)),
        }
    }

    fn exec_swap(&mut self, instruction: &GameboyInstruction) -> (r: Result<(), GameboyError>)
        requires
            old(self).wf(),
            instruction.valid(),
        ensures
            final(self).wf(),
            match spec_apply_swap(old(self)@, *instruction) {
                Ok(m2) => r == Ok::<(), GameboyError>(()) && final(self)@ == m2,
                Err(e) => r == Err::<(), GameboyError>(e) && *final(self) == *old(self),
            },
    {
        match instruction.operand1 {
            Some(GameboyInstructionOperand::Register8(register)) => {
                let value = self.registers.get_reg8(&register);
                let result = (value << 4) | (value >> 4);
                self.registers.set_flag(GameboyRegisterFlags::Z, result == 0);
                self.registers.set_flag(GameboyRegisterFlags::N, false);
                self.registers.set_flag(GameboyRegisterFlags::H, false);
                self.registers.set_flag(GameboyRegisterFlags::C, false);
                self.registers.set_reg8(&register, result);
                Ok(())
            },
            _ => Err(self.invalid_operand(instruction)),
        }
    }

    /// Evaluates the instruction's guard and, if it holds, applies the
    /// operation's documented effect on registers, memory and flags. An
    /// operand shape the dispatched operation does not support is reported
    /// as the invalid-operand failure, with the machine left untouched.
    pub fn execute(&mut self, instruction: GameboyInstruction) -> (r: Result<(), GameboyError>)
        requires
            old(self).wf(),
            instruction.valid(),
        ensures
            final(self).wf(),
            match spec_exec(old(self)@, instruction) {
                Ok(m2) => r == Ok::<(), GameboyError>(()) && final(self)@ == m2,
                Err(e) => r == Err::<(), GameboyError>(e) && *final(self) == *old(self),
            },
    {
        if !self.check_condition(instruction.condition) {
            return Ok(());
        }
        match instruction.instruction_family {
            GameboyInstructionFamily::NOP => Ok(()),
            GameboyInstructionFamily::JP => self.exec_jp(&instruction),
            GameboyInstructionFamily::DI => Ok(()),
            GameboyInstructionFamily::XOR => self.exec_xor(&instruction),
            GameboyInstructionFamily::LD => self.exec_ld(&instruction),
            GameboyInstructionFamily::DEC => self.exec_dec(&instruction),
            GameboyInstructionFamily::JR => self.exec_jr(&instruction),
            GameboyInstructionFamily::CALL => self.exec_call(&instruction),
            GameboyInstructionFamily::OR => self.exec_or(&instruction),
            GameboyInstructionFamily::RET => self.exec_ret(&instruction),
            GameboyInstructionFamily::LDH => self.exec_ldh(&instruction),
            GameboyInstructionFamily::CP => self.exec_cp(&instruction),
            GameboyInstructionFamily::INC => self.exec_inc(&instruction),
            GameboyInstructionFamily::AND => self.exec_and(&instruction),
            GameboyInstructionFamily::PUSH => self.exec_push(&instruction),
            GameboyInstructionFamily::POP => self.exec_pop(&instruction),
            GameboyInstructionFamily::SCF => self.exec_scf(&instruction),
            GameboyInstructionFamily::ADD => self.exec_add(&instruction),
            GameboyInstructionFamily::BIT => self.exec_bit(&instruction),
            GameboyInstructionFamily::SWAP => self.exec_swap(&instruction),
        }
    }
}

} // verus!
