use gb_core::Gameboy;
use gb_core::GameboyNamedRegister16;

#[test]
fn new_machine_memory_is_zero() {
    let mut gb = Gameboy::new();
    assert_eq!(gb.memory.len(), 0x10000);
    assert_eq!(gb.read_byte(0x0000), 0);
    assert_eq!(gb.read_byte(0x8000), 0);
    assert_eq!(gb.read_byte(0xFFFF), 0);
    assert_eq!(gb.read_bytes(0x0100, 4), vec![0, 0, 0, 0]);
}

#[test]
fn write_byte_then_read_byte() {
    let mut gb = Gameboy::new();
    gb.write_byte(0xC000, 0xAB);
    gb.write_byte(0xFFFF, 0xCD);
    assert_eq!(gb.read_byte(0xC000), 0xAB);
    assert_eq!(gb.read_byte(0xFFFF), 0xCD);
    assert_eq!(gb.read_byte(0xC001), 0);
}

#[test]
fn write_bytes_then_read_bytes() {
    let mut gb = Gameboy::new();
    gb.write_bytes(0xC000, &[1, 2, 3, 4, 5]);
    assert_eq!(gb.read_bytes(0xC000, 5), vec![1, 2, 3, 4, 5]);
    assert_eq!(gb.read_byte(0xBFFF), 0);
    assert_eq!(gb.read_byte(0xC005), 0);
}

#[test]
fn load_rom_fills_low_region_only() {
    let mut gb = Gameboy::new();
    gb.write_byte(0x9000, 0x77);
    let rom: Vec<u8> = (0..=255u8).collect();
    gb.load_rom(rom);
    assert_eq!(gb.read_byte(0x0000), 0);
    assert_eq!(gb.read_byte(0x0042), 0x42);
    assert_eq!(gb.read_byte(0x00FF), 0xFF);
    // Beyond the image, memory is untouched.
    assert_eq!(gb.read_byte(0x0100), 0);
    assert_eq!(gb.read_byte(0x9000), 0x77);
    // Registers are untouched by loading.
    assert_eq!(gb.registers.pc, 0x0100);
}

#[test]
fn fetch_advances_pc() {
    let mut gb = Gameboy::new();
    gb.write_byte(0x0100, 0x3C);
    let opcode = gb.fetch();
    assert_eq!(opcode, 0x3C);
    assert_eq!(gb.registers.pc, 0x0101);
}

#[test]
fn fetch16_is_little_endian() {
    // The low byte is fetched before the high byte.
    let mut gb = Gameboy::new();
    gb.write_byte(0x0100, 0x34);
    gb.write_byte(0x0101, 0x12);
    let value = gb.fetch16();
    assert_eq!(value, 0x1234);
    assert_eq!(gb.registers.pc, 0x0102);
}

#[test]
fn load_rom_of_full_window_size() {
    let mut gb = Gameboy::new();
    let rom = vec![0xA5u8; 0x8000];
    gb.load_rom(rom);
    assert_eq!(gb.read_byte(0x0000), 0xA5);
    assert_eq!(gb.read_byte(0x7FFF), 0xA5);
    assert_eq!(gb.read_byte(0x8000), 0x00);
}

#[test]
fn push_wraps_around_address_space() {
    let mut gb = Gameboy::new();
    // PUSH BC with the stack pointer at 0x0001 wraps to 0xFFFF.
    gb.write_byte(0x0100, 0xC5);
    gb.registers.sp = 0x0001;
    gb.registers.set_reg16(&GameboyNamedRegister16::BC, 0x1234);
    assert!(gb.step().is_ok());
    assert_eq!(gb.registers.sp, 0xFFFF);
    assert_eq!(gb.read_byte(0xFFFF), 0x34);
    assert_eq!(gb.read_byte(0x0000), 0x12);
}

#[test]
fn fetch_wraps_at_address_space_end() {
    let mut gb = Gameboy::new();
    gb.registers.pc = 0xFFFF;
    gb.write_byte(0xFFFF, 0x42);
    assert_eq!(gb.fetch(), 0x42);
    assert_eq!(gb.registers.pc, 0x0000);
}
