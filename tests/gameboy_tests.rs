use gameboy::bus::Bus;
use gameboy::gameboy::{GameBoy, Keys, LoadError};

fn rom_with(program: &[u8], mapper: u8) -> Vec<u8> {
    let mut rom = vec![0u8; 0x8000];
    for (i, b) in program.iter().enumerate() {
        rom[0x100 + i] = *b;
    }
    rom[0x147] = mapper;
    rom
}

#[test]
fn load_rom_rejects_short_and_unknown_images() {
    let mut gb = GameBoy::new(Bus::new(), false);
    assert_eq!(gb.load_rom(vec![0u8; 0x100]), Err(LoadError::TooShort));
    assert_eq!(gb.load_rom(rom_with(&[], 0x13)), Err(LoadError::UnsupportedMapper(0x13)));
    assert!(gb.cpu.bus.rom.is_none());
    assert_eq!(gb.load_rom(rom_with(&[], 0x00)), Ok(()));
    assert_eq!(gb.load_rom(rom_with(&[], 0x01)), Ok(()));
    assert!(gb.cpu.bus.rom.is_some());
}

#[test]
fn reset_without_boot_program_starts_at_0100() {
    let mut gb = GameBoy::new(Bus::new(), false);
    gb.load_rom(rom_with(&[0x3C], 0)).unwrap();
    gb.reset();
    assert_eq!(gb.cpu.pc, 0x100);
    let (n, out) = gb.step();
    assert_eq!(n, 4);
    assert_eq!(out, None);
    assert_eq!(gb.cpu.registers[0], 0x02);
}

#[test]
fn serial_bytes_are_handed_out() {
    // LD A,'H'; LDH (01),A; LD A,0x81; LDH (02),A; JR -2
    let program = [0x3E, b'H', 0xE0, 0x01, 0x3E, 0x81, 0xE0, 0x02, 0x18, 0xFE];
    let mut gb = GameBoy::new(Bus::new(), false);
    gb.load_rom(rom_with(&program, 0)).unwrap();
    gb.reset();
    let out = gb.cycle();
    assert_eq!(out, vec![b'H']);
    assert_eq!(gb.cpu.bus.read(0xFF02), 0);
}

#[test]
fn a_frame_runs_its_cycles() {
    let program = [0x18, 0xFE];
    let mut gb = GameBoy::new(Bus::new(), false);
    gb.load_rom(rom_with(&program, 0)).unwrap();
    gb.reset();
    gb.cycle();
    assert!(gb.cpu.cycles >= 70224);
    assert!(gb.cpu.cycles < 70224 + 44);
    assert_eq!(gb.cpu.bus.read(0xFF0F) & 0x01, 0x01);
}

#[test]
fn key_press_clears_line_and_requests_joypad() {
    let mut gb = GameBoy::new(Bus::new(), false);
    gb.load_rom(rom_with(&[], 0)).unwrap();
    gb.cpu.bus.reset_joyp();
    gb.set_input(Keys::Start, true);
    assert_eq!(gb.cpu.bus.read(0xFF00), 0xF7);
    assert_eq!(gb.cpu.bus.read(0xFF0F) & 0x10, 0x10);
    gb.set_input(Keys::A, true);
    assert_eq!(gb.cpu.bus.read(0xFF00), 0xF6);
    gb.set_input(Keys::Start, false);
    assert_eq!(gb.cpu.bus.read(0xFF00), 0xFE);
}

#[test]
fn boot_program_runs_from_zero() {
    let mut gb = GameBoy::new(Bus::new(), true);
    gb.load_rom(rom_with(&[], 0)).unwrap();
    gb.reset();
    assert_eq!(gb.cpu.pc, 0);
    gb.step();
    assert_eq!(gb.cpu.sp, 0xFFFE);
    assert_eq!(gb.cpu.pc, 3);
}
