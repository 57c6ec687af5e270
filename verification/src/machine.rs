use vstd::prelude::*;
use vstd::wrapping::u16_specs;
use crate::registers::GameboyRegisters;
use crate::registers::power_on_registers;

verus! {

/// Number of addressable bytes: the full 16-bit address space.
pub const MEMORY_SIZE: usize = 0x10000;

/// The mathematical state of one emulated machine: its register file and
/// the contents of its memory bus.
#[verifier::ext_equal]
pub ghost struct GbModel {
    pub regs: GameboyRegisters,
    pub mem: Seq<u8>,
}

/// The byte at address `address`.
pub open spec fn mem_at(m: GbModel, address: u16) -> u8 {
    m.mem[address as int]
}

/// The 16-bit word at `address`, low byte first (little endian).
pub open spec fn word_at(m: GbModel, address: u16) -> u16 {
    ((mem_at(m, u16_specs::wrapping_add(address, 1)) as u16) << 8) | (mem_at(m, address) as u16)
}

/// The register file with the program counter advanced by `n`, modulo the
/// address space.
pub open spec fn pc_plus(regs: GameboyRegisters, n: u16) -> GameboyRegisters {
    GameboyRegisters { pc: u16_specs::wrapping_add(regs.pc, n), ..regs }
}

/// One emulated session: a register file and a flat memory bus, created
/// together and mutated in place.
pub struct Gameboy {
    pub registers: GameboyRegisters,
    pub memory: Vec<u8>,
}

impl View for Gameboy {
    type V = GbModel;

    open spec fn view(&self) -> GbModel {
        GbModel { regs: self.registers, mem: self.memory@ }
    }
}

impl Gameboy {
    /// The machine is well formed when its memory covers exactly the
    /// 16-bit address space, so every address is readable and writable.
    pub open spec fn wf(self) -> bool {
        self.memory@.len() == MEMORY_SIZE
    }

    /// A machine at architectural power-on defaults with zeroed memory.
    pub fn new() -> (gb: Gameboy)
        ensures
            gb.wf(),
            gb.registers == power_on_registers(),
            gb@.mem =~= Seq::new(MEMORY_SIZE as nat, |i: int| 0u8),
    {
        let mut memory: Vec<u8> = Vec::new();
        let mut i: usize = 0;
        while i < MEMORY_SIZE
            invariant
                i <= MEMORY_SIZE,
                memory@.len() == i,
                forall|j: int| 0 <= j < i ==> memory@[j] == 0u8,
            decreases MEMORY_SIZE - i,
        {
            memory.push(0u8);
            i = i + 1;
        }
        let gb = Gameboy { registers: GameboyRegisters::default(), memory };
        proof {
            assert(gb@.mem =~= Seq::new(MEMORY_SIZE as nat, |i: int| 0u8));
        }
        gb
    }

    /// Copies a program image into the low region of memory; the rest of
    /// memory and all registers are untouched.
    pub fn load_rom(&mut self, rom: Vec<u8>)
        requires
            old(self).wf(),
            rom@.len() <= 0x8000,
        ensures
            final(self).wf(),
            final(self).registers == old(self).registers,
            final(self)@.mem.len() == old(self)@.mem.len(),
            forall|i: int| 0 <= i < rom@.len() ==> final(self)@.mem[i] == rom@[i],
            forall|i: int| rom@.len() <= i < old(self)@.mem.len() ==> final(self)@.mem[i] == old(self)@.mem[i],
    {
        let mut i: usize = 0;
        while i < rom.len()
            invariant
                self.wf(),
                i <= rom@.len(),
                rom@.len() <= 0x8000,
                self.registers == old(self).registers,
                self@.mem.len() == old(self)@.mem.len(),
                forall|j: int| 0 <= j < i ==> self@.mem[j] == rom@[j],
                forall|j: int| i <= j < old(self)@.mem.len() ==> self@.mem[j] == old(self)@.mem[j],
            decreases rom@.len() - i,
        {
            let byte = rom[i];
            self.memory[i] = byte;
            i = i + 1;
        }
    }

    /// Re-applies power-on register defaults; memory contents are left
    /// untouched.
    pub fn reset(&mut self)
        ensures
            final(self).registers == power_on_registers(),
            final(self)@.mem == old(self)@.mem,
    {
        self.registers = GameboyRegisters::default();
    }

    /// Reads the byte at the program counter and advances the counter by
    /// one, modulo the address space.
    pub fn fetch(&mut self) -> (opcode: u8)
        requires
            old(self).wf(),
        ensures
            final(self).wf(),
            final(self)@.mem == old(self)@.mem,
            final(self).registers == pc_plus(old(self).registers, 1),
            opcode == mem_at(old(self)@, old(self).registers.pc),
    {
        let opcode = self.memory[self.registers.pc as usize];
        self.registers.pc = self.registers.pc.wrapping_add(1);
        opcode
    }

    /// Reads a 16-bit immediate at the program counter, low byte first,
    /// advancing the counter by two.
    pub fn fetch16(&mut self) -> (value: u16)
        requires
            old(self).wf(),
        ensures
            final(self).wf(),
            final(self)@.mem == old(self)@.mem,
            final(self).registers == pc_plus(old(self).registers, 2),
            value == word_at(old(self)@, old(self).registers.pc),
    {
        let low = self.fetch() as u16;
        let high = self.fetch() as u16;
        (high << 8) | low
    }

    /// Reads the byte at an arbitrary address.
    pub fn read_byte(&self, address: u16) -> (byte: u8)
        requires
            self.wf(),
        ensures
            byte == mem_at(self@, address),
    {
        self.memory[address as usize]
    }

    /// Writes one byte at an arbitrary address.
    pub fn write_byte(&mut self, address: u16, byte: u8)
        requires
            old(self).wf(),
        ensures
            final(self).wf(),
            final(self).registers == old(self).registers,
            final(self)@.mem == old(self)@.mem.update(address as int, byte),
    {
        self.memory[address as usize] = byte;
    }

    /// Writes a run of bytes starting at `address`; the run must fit in the
    /// address space.
    pub fn write_bytes(&mut self, address: u16, bytes: &[u8])
        requires
            old(self).wf(),
            address as int + bytes@.len() <= MEMORY_SIZE,
        ensures
            final(self).wf(),
            final(self).registers == old(self).registers,
            final(self)@.mem.len() == old(self)@.mem.len(),
            forall|i: int| 0 <= i < bytes@.len() ==> final(self)@.mem[address as int + i] == bytes@[i],
            forall|i: int| 0 <= i < old(self)@.mem.len() && !(address as int <= i < address as int + bytes@.len())
                ==> final(self)@.mem[i] == old(self)@.mem[i],
    {
        let mut i: usize = 0;
        while i < bytes.len()
            invariant
                self.wf(),
                i <= bytes@.len(),
                address as int + bytes@.len() <= MEMORY_SIZE,
                self.registers == old(self).registers,
                self@.mem.len() == old(self)@.mem.len(),
                forall|j: int| 0 <= j < i ==> self@.mem[address as int + j] == bytes@[j],
                forall|j: int| 0 <= j < old(self)@.mem.len() && !(address as int <= j < address as int + bytes@.len())
                    ==> self@.mem[j] == old(self)@.mem[j],
            decreases bytes@.len() - i,
        {
            let byte = bytes[i];
            self.memory[address as usize + i] = byte;
            i = i + 1;
        }
    }

    /// Reads a run of `length` bytes starting at `address`; the run must
    /// fit in the address space. The machine is unchanged.
    pub fn read_bytes(&mut self, address: u16, length: u16) -> (bytes: Vec<u8>)
        requires
            old(self).wf(),
            address as int + length as int <= MEMORY_SIZE,
        ensures
            *final(self) == *old(self),
            bytes@ == old(self)@.mem.subrange(address as int, address as int + length as int),
    {
        let mut bytes: Vec<u8> = Vec::new();
        let mut i: usize = 0;
        while i < length as usize
            invariant
                self.wf(),
                *self == *old(self),
                i <= length as int,
                address as int + length as int <= MEMORY_SIZE,
                bytes@.len() == i,
                forall|j: int| 0 <= j < i ==> bytes@[j] == self@.mem[address as int + j],
            decreases length as int - i,
        {
            let byte = self.memory[address as usize + i];
            bytes.push(byte);
            i = i + 1;
        }
        proof {
            assert(bytes@ =~= old(self)@.mem.subrange(address as int, address as int + length as int));
        }
        bytes
    }
}

} // verus!
