use vstd::prelude::*;

verus! {

/// The four condition-code bits, packed into the high nibble of the flags
/// byte (the low byte of the accumulator pair).
#[derive(Debug, Clone, Copy, PartialEq, Eq, Structural)]
pub enum GameboyRegisterFlags {
    Z,
    N,
    H,
    C,
}

/// The 8-bit register names the register file can address.
#[derive(Debug, Clone, Copy, PartialEq, Eq, Structural)]
pub enum GameboyNamedRegister8 {
    A,
    B,
    C,
    D,
    E,
    H,
    L,
}

/// The 16-bit register-pair names. `AF` is listed for completeness but is
/// not addressable through the 16-bit accessors: the flags half is reached
/// only through the flag accessors.
#[derive(Debug, Clone, Copy, PartialEq, Eq, Structural)]
pub enum GameboyNamedRegister16 {
    AF,
    BC,
    DE,
    HL,
    SP,
    PC,
}

/// The register file: four 16-bit pairs plus the stack pointer and the
/// program counter. Each pair is addressable as one 16-bit value or as two
/// independent 8-bit halves.
#[derive(Debug, Clone, Copy, PartialEq, Eq, Structural)]
pub struct GameboyRegisters {
    pub af: u16,
    pub bc: u16,
    pub de: u16,
    pub hl: u16,
    pub pc: u16,
    pub sp: u16,
}

/// The bit each flag occupies inside the `af` register.
pub open spec fn spec_flag_mask(flag: GameboyRegisterFlags) -> u16 {
    match flag {
        GameboyRegisterFlags::Z => 0x0080,
        GameboyRegisterFlags::N => 0x0040,
        GameboyRegisterFlags::H => 0x0020,
        GameboyRegisterFlags::C => 0x0010,
    }
}

/// The complement of `spec_flag_mask`, used to clear one flag bit.
pub open spec fn spec_flag_clear_mask(flag: GameboyRegisterFlags) -> u16 {
    match flag {
        GameboyRegisterFlags::Z => 0xFF7F,
        GameboyRegisterFlags::N => 0xFFBF,
        GameboyRegisterFlags::H => 0xFFDF,
        GameboyRegisterFlags::C => 0xFFEF,
    }
}

/// Architectural power-on register contents.
pub open spec fn power_on_registers() -> GameboyRegisters {
    GameboyRegisters { af: 0x01B0, bc: 0x0013, de: 0x00D8, hl: 0x014D, pc: 0x0100, sp: 0xFFFE }
}

/// The 16-bit names the register file supports through `get_reg16` /
/// `set_reg16`; asking for `AF` there is a programming error.
pub open spec fn reg16_supported(register: GameboyNamedRegister16) -> bool {
    register != GameboyNamedRegister16::AF
}

fn flag_mask(flag: &GameboyRegisterFlags) -> (mask: u16)
    ensures
        mask == spec_flag_mask(*flag),
{
    match flag {
        GameboyRegisterFlags::Z => 0x0080,
        GameboyRegisterFlags::N => 0x0040,
        GameboyRegisterFlags::H => 0x0020,
        GameboyRegisterFlags::C => 0x0010,
    }
}

fn flag_clear_mask(flag: &GameboyRegisterFlags) -> (mask: u16)
    ensures
        mask == spec_flag_clear_mask(*flag),
{
    match flag {
        GameboyRegisterFlags::Z => 0xFF7F,
        GameboyRegisterFlags::N => 0xFFBF,
        GameboyRegisterFlags::H => 0xFFDF,
        GameboyRegisterFlags::C => 0xFFEF,
    }
}

impl GameboyRegisters {
    /// Whether `flag`'s bit is set in the flags byte.
    pub open spec fn spec_get_flag(self, flag: GameboyRegisterFlags) -> bool {
        self.af & spec_flag_mask(flag) != 0
    }

    /// The register file with exactly `flag`'s bit forced to `value`.
    pub open spec fn spec_set_flag(self, flag: GameboyRegisterFlags, value: bool) -> GameboyRegisters {
        if value {
            GameboyRegisters { af: self.af | spec_flag_mask(flag), ..self }
        } else {
            GameboyRegisters { af: self.af & spec_flag_clear_mask(flag), ..self }
        }
    }

    /// The value of one 8-bit register half.
    pub open spec fn spec_get_reg8(self, register: GameboyNamedRegister8) -> u8 {
        match register {
            GameboyNamedRegister8::A => (self.af >> 8) as u8,
            GameboyNamedRegister8::B => (self.bc >> 8) as u8,
            GameboyNamedRegister8::C => self.bc as u8,
            GameboyNamedRegister8::D => (self.de >> 8) as u8,
            GameboyNamedRegister8::E => self.de as u8,
            GameboyNamedRegister8::H => (self.hl >> 8) as u8,
            GameboyNamedRegister8::L => self.hl as u8,
        }
    }

    /// The register file with one 8-bit half replaced and its sibling half
    /// untouched.
    pub open spec fn spec_set_reg8(self, register: GameboyNamedRegister8, value: u8) -> GameboyRegisters {
        match register {
            GameboyNamedRegister8::A => GameboyRegisters { af: (self.af & 0x00FF) | ((value as u16) << 8), ..self },
            GameboyNamedRegister8::B => GameboyRegisters { bc: (self.bc & 0x00FF) | ((value as u16) << 8), ..self },
            GameboyNamedRegister8::C => GameboyRegisters { bc: (self.bc & 0xFF00) | (value as u16), ..self },
            GameboyNamedRegister8::D => GameboyRegisters { de: (self.de & 0x00FF) | ((value as u16) << 8), ..self },
            GameboyNamedRegister8::E => GameboyRegisters { de: (self.de & 0xFF00) | (value as u16), ..self },
            GameboyNamedRegister8::H => GameboyRegisters { hl: (self.hl & 0x00FF) | ((value as u16) << 8), ..self },
            GameboyNamedRegister8::L => GameboyRegisters { hl: (self.hl & 0xFF00) | (value as u16), ..self },
        }
    }

    /// The value of one 16-bit register; meaningful only for supported names.
    pub open spec fn spec_get_reg16(self, register: GameboyNamedRegister16) -> u16 {
        match register {
            GameboyNamedRegister16::BC => self.bc,
            GameboyNamedRegister16::DE => self.de,
            GameboyNamedRegister16::HL => self.hl,
            GameboyNamedRegister16::SP => self.sp,
            _ => self.pc,
        }
    }

    /// The register file with one 16-bit register replaced; meaningful only
    /// for supported names.
    pub open spec fn spec_set_reg16(self, register: GameboyNamedRegister16, value: u16) -> GameboyRegisters {
        match register {
            GameboyNamedRegister16::BC => GameboyRegisters { bc: value, ..self },
            GameboyNamedRegister16::DE => GameboyRegisters { de: value, ..self },
            GameboyNamedRegister16::HL => GameboyRegisters { hl: value, ..self },
            GameboyNamedRegister16::SP => GameboyRegisters { sp: value, ..self },
            _ => GameboyRegisters { pc: value, ..self },
        }
    }

    pub fn new() -> (registers: GameboyRegisters)
        ensures
            registers == power_on_registers(),
    {
        GameboyRegisters::default()
    }

    pub fn get_flag(&self, flag: GameboyRegisterFlags) -> (value: bool)
        ensures
            value == self.spec_get_flag(flag),
    {
        self.af & flag_mask(&flag) != 0
    }

    pub fn set_flag(&mut self, flag: GameboyRegisterFlags, value: bool)
        ensures
            *final(self) == old(self).spec_set_flag(flag, value),
    {
        if value {
            self.af = self.af | flag_mask(&flag);
        } else {
            self.af = self.af & flag_clear_mask(&flag);
        }
    }

    pub fn get_reg8(&self, register: &GameboyNamedRegister8) -> (value: u8)
        ensures
            value == self.spec_get_reg8(*register),
    {
        match register {
            GameboyNamedRegister8::A => (self.af >> 8) as u8,
            GameboyNamedRegister8::B => (self.bc >> 8) as u8,
            GameboyNamedRegister8::C => #[verifier::truncate] (self.bc as u8),
            GameboyNamedRegister8::D => (self.de >> 8) as u8,
            GameboyNamedRegister8::E => #[verifier::truncate] (self.de as u8),
            GameboyNamedRegister8::H => (self.hl >> 8) as u8,
            GameboyNamedRegister8::L => #[verifier::truncate] (self.hl as u8),
        }
    }

    pub fn set_reg8(&mut self, register: &GameboyNamedRegister8, value: u8)
        ensures
            *final(self) == old(self).spec_set_reg8(*register, value),
    {
        match register {
            GameboyNamedRegister8::A => self.af = (self.af & 0x00FF) | ((value as u16) << 8),
            GameboyNamedRegister8::B => self.bc = (self.bc & 0x00FF) | ((value as u16) << 8),
            GameboyNamedRegister8::C => self.bc = (self.bc & 0xFF00) | (value as u16),
            GameboyNamedRegister8::D => self.de = (self.de & 0x00FF) | ((value as u16) << 8),
            GameboyNamedRegister8::E => self.de = (self.de & 0xFF00) | (value as u16),
            GameboyNamedRegister8::H => self.hl = (self.hl & 0x00FF) | ((value as u16) << 8),
            GameboyNamedRegister8::L => self.hl = (self.hl & 0xFF00) | (value as u16),
        }
    }

    pub fn get_reg16(&self, register: &GameboyNamedRegister16) -> (value: u16)
        requires
            reg16_supported(*register),
        ensures
            value == self.spec_get_reg16(*register),
    {
        match register {
            GameboyNamedRegister16::BC => self.bc,
            GameboyNamedRegister16::DE => self.de,
            GameboyNamedRegister16::HL => self.hl,
            GameboyNamedRegister16::SP => self.sp,
            _ => self.pc,
        }
    }

    pub fn set_reg16(&mut self, register: &GameboyNamedRegister16, value: u16)
        requires
            reg16_supported(*register),
        ensures
            *final(self) == old(self).spec_set_reg16(*register, value),
    {
        match register {
            GameboyNamedRegister16::BC => self.bc = value,
            GameboyNamedRegister16::DE => self.de = value,
            GameboyNamedRegister16::HL => self.hl = value,
            GameboyNamedRegister16::SP => self.sp = value,
            _ => self.pc = value,
        }
    }
}

impl Default for GameboyRegisters {
    fn default() -> (registers: GameboyRegisters)
        ensures
            registers == power_on_registers(),
    {
        GameboyRegisters { af: 0x01B0, bc: 0x0013, de: 0x00D8, hl: 0x014D, pc: 0x0100, sp: 0xFFFE }
    }
}

} // verus!
