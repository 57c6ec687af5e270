use vstd::prelude::*;
use vstd::wrapping::u16_specs;
use vstd::wrapping::u8_specs;
use crate::exec::spec_exec;
use crate::instruction::GameboyInstruction;
use crate::instruction::GameboyInstructionFamily;
use crate::instruction::GameboyInstructionOperand;
use crate::machine::GbModel;
use crate::machine::mem_at;
use crate::step::spec_step;
use crate::registers::GameboyNamedRegister16;
use crate::registers::GameboyNamedRegister8;
use crate::registers::GameboyRegisterFlags;
use crate::registers::GameboyRegisters;
use crate::registers::reg16_supported;
use crate::registers::spec_flag_clear_mask;
use crate::registers::spec_flag_mask;

verus! {

proof fn bv_or_flag(x: u16, m1: u16, m2: u16)
    by (bit_vector)
    requires
        m1 == 0x80 || m1 == 0x40 || m1 == 0x20 || m1 == 0x10,
        m2 == 0x80 || m2 == 0x40 || m2 == 0x20 || m2 == 0x10,
    ensures
        (x | m1) & m1 != 0,
        m1 != m2 ==> ((x | m1) & m2) == (x & m2),
        ((x | m1) >> 8) == (x >> 8),
        ((x | m1) & 0x0F) == (x & 0x0F),
{
}

proof fn bv_clear_flag(x: u16, m1: u16, c1: u16, m2: u16)
    by (bit_vector)
    requires
        (m1 == 0x80 && c1 == 0xFF7F) || (m1 == 0x40 && c1 == 0xFFBF) || (m1 == 0x20 && c1
            == 0xFFDF) || (m1 == 0x10 && c1 == 0xFFEF),
        m2 == 0x80 || m2 == 0x40 || m2 == 0x20 || m2 == 0x10,
    ensures
        (x & c1) & m1 == 0,
        m1 != m2 ==> ((x & c1) & m2) == (x & m2),
        ((x & c1) >> 8) == (x >> 8),
        ((x & c1) & 0x0F) == (x & 0x0F),
{
}

proof fn bv_set_high(x: u16, v: u8, m: u16)
    by (bit_vector)
    requires
        m == 0x80 || m == 0x40 || m == 0x20 || m == 0x10,
    ensures
        ((((x & 0x00FF) | ((v as u16) << 8)) >> 8) as u8) == v,
        (((x & 0x00FF) | ((v as u16) << 8)) as u8) == (x as u8),
        (((x & 0x00FF) | ((v as u16) << 8)) & 0x0F) == (x & 0x0F),
        (((x & 0x00FF) | ((v as u16) << 8)) & m) == (x & m),
{
}

proof fn bv_set_low(x: u16, v: u8)
    by (bit_vector)
    ensures
        (((x & 0xFF00) | (v as u16)) as u8) == v,
        ((((x & 0xFF00) | (v as u16)) >> 8) as u8) == ((x >> 8) as u8),
{
}

proof fn bv_split_bytes(v: u16)
    by (bit_vector)
    ensures
        ((((v >> 8) as u8) as u16) << 8) | ((v as u8) as u16) == v,
{
}

proof fn bv_xor_self(v: u8)
    by (bit_vector)
    ensures
        v ^ v == 0,
{
}

/// Writing one flag touches no other part of the register file: the
/// accumulator half, the low nibble of the flags byte and every other
/// 16-bit register keep their values, and the flag itself reads back as
/// written.
pub broadcast proof fn lemma_set_flag_frame(
    regs: GameboyRegisters,
    flag: GameboyRegisterFlags,
    value: bool,
)
    ensures
        (#[trigger] regs.spec_set_flag(flag, value)).bc == regs.bc,
        regs.spec_set_flag(flag, value).de == regs.de,
        regs.spec_set_flag(flag, value).hl == regs.hl,
        regs.spec_set_flag(flag, value).sp == regs.sp,
        regs.spec_set_flag(flag, value).pc == regs.pc,
        (regs.spec_set_flag(flag, value).af >> 8) == (regs.af >> 8),
        (regs.spec_set_flag(flag, value).af & 0x0F) == (regs.af & 0x0F),
        regs.spec_set_flag(flag, value).spec_get_flag(flag) == value,
{
    bv_or_flag(regs.af, spec_flag_mask(flag), spec_flag_mask(flag));
    bv_clear_flag(regs.af, spec_flag_mask(flag), spec_flag_clear_mask(flag), spec_flag_mask(flag));
}

/// Writing one flag leaves every other flag untouched.
pub broadcast proof fn lemma_set_flag_preserves_other(
    regs: GameboyRegisters,
    flag: GameboyRegisterFlags,
    value: bool,
    other: GameboyRegisterFlags,
)
    requires
        other != flag,
    ensures
        #[trigger] regs.spec_set_flag(flag, value).spec_get_flag(other) == regs.spec_get_flag(
            other,
        ),
{
    bv_or_flag(regs.af, spec_flag_mask(flag), spec_flag_mask(other));
    bv_clear_flag(regs.af, spec_flag_mask(flag), spec_flag_clear_mask(flag), spec_flag_mask(other));
}

/// Writing one flag leaves every 8-bit register untouched.
pub broadcast proof fn lemma_set_flag_preserves_reg8(
    regs: GameboyRegisters,
    flag: GameboyRegisterFlags,
    value: bool,
    register: GameboyNamedRegister8,
)
    ensures
        #[trigger] regs.spec_set_flag(flag, value).spec_get_reg8(register) == regs.spec_get_reg8(
            register,
        ),
{
    bv_or_flag(regs.af, spec_flag_mask(flag), spec_flag_mask(flag));
    bv_clear_flag(regs.af, spec_flag_mask(flag), spec_flag_clear_mask(flag), spec_flag_mask(flag));
}

/// An 8-bit register reads back exactly what was written to it.
pub broadcast proof fn lemma_get_set_reg8(
    regs: GameboyRegisters,
    register: GameboyNamedRegister8,
    value: u8,
)
    ensures
        (#[trigger] regs.spec_set_reg8(register, value)).spec_get_reg8(register) == value,
{
    match register {
        GameboyNamedRegister8::A => bv_set_high(regs.af, value, 0x80),
        GameboyNamedRegister8::B => bv_set_high(regs.bc, value, 0x80),
        GameboyNamedRegister8::C => bv_set_low(regs.bc, value),
        GameboyNamedRegister8::D => bv_set_high(regs.de, value, 0x80),
        GameboyNamedRegister8::E => bv_set_low(regs.de, value),
        GameboyNamedRegister8::H => bv_set_high(regs.hl, value, 0x80),
        GameboyNamedRegister8::L => bv_set_low(regs.hl, value),
    }
}

/// Writing an 8-bit register never disturbs the flags byte: every flag and
/// the low nibble keep their values.
pub broadcast proof fn lemma_set_reg8_preserves_flags(
    regs: GameboyRegisters,
    register: GameboyNamedRegister8,
    value: u8,
    flag: GameboyRegisterFlags,
)
    ensures
        #[trigger] regs.spec_set_reg8(register, value).spec_get_flag(flag) == regs.spec_get_flag(
            flag,
        ),
        (#[trigger] regs.spec_set_reg8(register, value)).af & 0x0F == regs.af & 0x0F,
{
    match register {
        GameboyNamedRegister8::A => bv_set_high(regs.af, value, spec_flag_mask(flag)),
        _ => {},
    }
}

/// The three general-purpose pairs, as (high half, low half).
pub open spec fn is_register_pair(high: GameboyNamedRegister8, low: GameboyNamedRegister8) -> bool {
    ||| (high == GameboyNamedRegister8::B && low == GameboyNamedRegister8::C)
    ||| (high == GameboyNamedRegister8::D && low == GameboyNamedRegister8::E)
    ||| (high == GameboyNamedRegister8::H && low == GameboyNamedRegister8::L)
}

/// The two halves of every 8-bit register pair are independent: after
/// writing the low half and then the high half, the low half still reads
/// back the value most recently written to it, and the high half reads
/// back its own value.
pub proof fn lemma_pair_halves_independent(
    regs: GameboyRegisters,
    high: GameboyNamedRegister8,
    low: GameboyNamedRegister8,
    high_value: u8,
    low_value: u8,
)
    requires
        is_register_pair(high, low),
    ensures
        regs.spec_set_reg8(low, low_value).spec_set_reg8(high, high_value).spec_get_reg8(low)
            == low_value,
        regs.spec_set_reg8(low, low_value).spec_set_reg8(high, high_value).spec_get_reg8(high)
            == high_value,
{
    let after_low = regs.spec_set_reg8(low, low_value);
    if high == GameboyNamedRegister8::B {
        bv_set_low(regs.bc, low_value);
        bv_set_high(after_low.bc, high_value, 0x80);
        assert((after_low.bc as u8) == low_value);
    } else if high == GameboyNamedRegister8::D {
        bv_set_low(regs.de, low_value);
        bv_set_high(after_low.de, high_value, 0x80);
        assert((after_low.de as u8) == low_value);
    } else {
        bv_set_low(regs.hl, low_value);
        bv_set_high(after_low.hl, high_value, 0x80);
        assert((after_low.hl as u8) == low_value);
    }
}

/// The accumulator and the flags byte are independent in the same way:
/// writing the accumulator leaves every flag as it was, and writing a flag
/// leaves the accumulator as it was.
pub proof fn lemma_accumulator_flags_independent(
    regs: GameboyRegisters,
    value: u8,
    flag: GameboyRegisterFlags,
    flag_value: bool,
)
    ensures
        regs.spec_set_reg8(GameboyNamedRegister8::A, value).spec_get_flag(flag)
            == regs.spec_get_flag(flag),
        regs.spec_set_flag(flag, flag_value).spec_get_reg8(GameboyNamedRegister8::A)
            == regs.spec_get_reg8(GameboyNamedRegister8::A),
{
    lemma_set_reg8_preserves_flags(regs, GameboyNamedRegister8::A, value, flag);
    lemma_set_flag_preserves_reg8(regs, flag, flag_value, GameboyNamedRegister8::A);
}

/// No operation ever disturbs the low nibble of the flags byte: from any
/// state in which it is zero, executing any instruction leaves it zero, so
/// it is zero in every reachable flag combination.
#[verifier::rlimit(60)]
pub proof fn lemma_flags_low_nibble_stays_zero(m: GbModel, i: GameboyInstruction)
    requires
        i.valid(),
        m.regs.af & 0x000F == 0,
    ensures
        spec_exec(m, i) matches Ok(m2) ==> m2.regs.af & 0x000F == 0,
{
    broadcast use lemma_set_flag_frame;

    assert forall|rr: GameboyRegisters, r: GameboyNamedRegister8, v: u8|
        (#[trigger] rr.spec_set_reg8(r, v)).af & 0x0F == rr.af & 0x0F by {
        lemma_set_reg8_preserves_flags(rr, r, v, GameboyRegisterFlags::Z);
    }
}

/// Incrementing then decrementing any 8-bit register restores its original
/// value, for every representable value, including wraparound at 0xFF.
/// (The flags, rewritten by both steps, are not part of the claim.)
pub proof fn lemma_inc_dec_restores_reg8(
    m: GbModel,
    inc: GameboyInstruction,
    dec: GameboyInstruction,
    register: GameboyNamedRegister8,
)
    requires
        inc.instruction_family == GameboyInstructionFamily::INC,
        inc.operand1 == Some(GameboyInstructionOperand::Register8(register)),
        inc.condition is None,
        dec.instruction_family == GameboyInstructionFamily::DEC,
        dec.operand1 == Some(GameboyInstructionOperand::Register8(register)),
        dec.condition is None,
    ensures
        spec_exec(m, inc) is Ok,
        spec_exec(spec_exec(m, inc)->Ok_0, dec) is Ok,
        spec_exec(spec_exec(m, inc)->Ok_0, dec)->Ok_0.regs.spec_get_reg8(register)
            == m.regs.spec_get_reg8(register),
{
    broadcast use lemma_set_flag_frame, lemma_set_flag_preserves_reg8, lemma_get_set_reg8,
        lemma_set_reg8_preserves_flags;

    let v = m.regs.spec_get_reg8(register);
    assert(u8_specs::wrapping_sub(u8_specs::wrapping_add(v, 1), 1) == v);
}

/// Incrementing then decrementing any 16-bit register restores its
/// original value, for every representable value, including wraparound at
/// 0xFFFF; neither step touches any flag.
pub proof fn lemma_inc_dec_restores_reg16(
    m: GbModel,
    inc: GameboyInstruction,
    dec: GameboyInstruction,
    register: GameboyNamedRegister16,
)
    requires
        reg16_supported(register),
        inc.instruction_family == GameboyInstructionFamily::INC,
        inc.operand1 == Some(GameboyInstructionOperand::Register16(register)),
        inc.condition is None,
        dec.instruction_family == GameboyInstructionFamily::DEC,
        dec.operand1 == Some(GameboyInstructionOperand::Register16(register)),
        dec.condition is None,
    ensures
        spec_exec(m, inc) is Ok,
        spec_exec(spec_exec(m, inc)->Ok_0, dec) is Ok,
        spec_exec(spec_exec(m, inc)->Ok_0, dec)->Ok_0.regs.spec_get_reg16(register)
            == m.regs.spec_get_reg16(register),
        spec_exec(spec_exec(m, inc)->Ok_0, dec)->Ok_0.regs.af == m.regs.af,
{
    let v = m.regs.spec_get_reg16(register);
    assert(u16_specs::wrapping_sub(u16_specs::wrapping_add(v, 1), 1) == v);
}

/// A compare never mutates the accumulator, any other register, or
/// memory: only the flag bits change. (Stated for the compare shapes the
/// decode tables produce, whose pointer operand carries no auto-adjust.)
pub proof fn lemma_compare_only_flags(m: GbModel, i: GameboyInstruction)
    requires
        i.valid(),
        i.instruction_family == GameboyInstructionFamily::CP,
        (i.operand1 matches Some(GameboyInstructionOperand::Pointer(_, op)) ==> op is None),
    ensures
        spec_exec(m, i) matches Ok(m2) ==> {
            &&& m2.mem == m.mem
            &&& (m2.regs.af >> 8) == (m.regs.af >> 8)
            &&& m2.regs.bc == m.regs.bc
            &&& m2.regs.de == m.regs.de
            &&& m2.regs.hl == m.regs.hl
            &&& m2.regs.sp == m.regs.sp
            &&& m2.regs.pc == m.regs.pc
        },
{
    broadcast use lemma_set_flag_frame;

}

/// Pushing a 16-bit pair and then popping into the same pair restores the
/// pair's value, for every 16-bit value, and leaves the stack pointer
/// exactly as it was before the push.
pub proof fn lemma_push_pop_roundtrip(
    m: GbModel,
    push: GameboyInstruction,
    pop: GameboyInstruction,
    register: GameboyNamedRegister16,
)
    requires
        reg16_supported(register),
        m.mem.len() == 0x10000,
        push.instruction_family == GameboyInstructionFamily::PUSH,
        push.operand1 == Some(GameboyInstructionOperand::Register16(register)),
        push.condition is None,
        pop.instruction_family == GameboyInstructionFamily::POP,
        pop.operand1 == Some(GameboyInstructionOperand::Register16(register)),
        pop.condition is None,
    ensures
        spec_exec(m, push) is Ok,
        spec_exec(spec_exec(m, push)->Ok_0, pop) is Ok,
        spec_exec(spec_exec(m, push)->Ok_0, pop)->Ok_0.regs.spec_get_reg16(register)
            == m.regs.spec_get_reg16(register),
        spec_exec(spec_exec(m, push)->Ok_0, pop)->Ok_0.regs.sp == m.regs.sp,
{
    let value = m.regs.spec_get_reg16(register);
    let sp1 = u16_specs::wrapping_sub(m.regs.sp, 2);
    assert(u16_specs::wrapping_add(sp1, 1) != sp1);
    assert(u16_specs::wrapping_add(sp1, 2) == m.regs.sp);
    bv_split_bytes(value);
}

/// A relative jump with offset -2 (the encoding 0x18 0xFE), decoded at
/// any address, leaves the program counter back at that address: decoding
/// consumed the two instruction bytes and the jump undoes exactly that
/// advance, so the net effect is a one-instruction loop.
pub proof fn lemma_relative_jump_minus_two_loops(m: GbModel)
    requires
        mem_at(m, m.regs.pc) == 0x18,
        mem_at(m, u16_specs::wrapping_add(m.regs.pc, 1)) == 0xFE,
    ensures
        spec_step(m).1 is Ok,
        spec_step(m).0.regs.pc == m.regs.pc,
{
    assert(0xFEu8 as i8 == -2) by (bit_vector);
}

/// Exclusive-or of the accumulator with itself always leaves the
/// accumulator zero and the Zero flag set, whatever the accumulator held
/// before.
pub proof fn lemma_xor_accumulator_zeroes(m: GbModel, i: GameboyInstruction)
    requires
        i.instruction_family == GameboyInstructionFamily::XOR,
        i.operand1 == Some(GameboyInstructionOperand::Register8(GameboyNamedRegister8::A)),
        i.condition is None,
    ensures
        spec_exec(m, i) is Ok,
        spec_exec(m, i)->Ok_0.regs.spec_get_reg8(GameboyNamedRegister8::A) == 0,
        spec_exec(m, i)->Ok_0.regs.spec_get_flag(GameboyRegisterFlags::Z),
{
    broadcast use lemma_set_flag_frame, lemma_set_flag_preserves_other,
        lemma_set_flag_preserves_reg8, lemma_get_set_reg8;

    bv_xor_self(m.regs.spec_get_reg8(GameboyNamedRegister8::A));
}

} // verus!
