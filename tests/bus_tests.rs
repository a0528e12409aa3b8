use gameboy::bus::{Bus, Interrupts};
use gameboy::mbc::{Cartridge, MBC0, MBC1};

fn bus_with_rom(rom: Vec<u8>) -> Bus {
    let mut bus = Bus::new();
    bus.set_rom(Some(Cartridge::NoBanking(MBC0::new(rom))));
    bus
}

#[test]
fn io_registers_read_back_what_was_written() {
    let mut bus = bus_with_rom(vec![0u8; 0x8000]);
    for dir in 0xFF01usize..=0xFFFF {
        if dir == 0xFF04 {
            continue;
        }
        let val = (dir as u8).wrapping_mul(7).wrapping_add(3);
        bus.write(dir, val);
        assert_eq!(bus.read(dir), val, "register {:04X}", dir);
    }
}

#[test]
fn div_write_resets_the_counter() {
    let mut bus = bus_with_rom(vec![0u8; 0x8000]);
    bus.internal_div_counter = 0xAB12;
    assert_eq!(bus.read(0xFF04), 0xAB);
    bus.write(0xFF04, 0x77);
    assert_eq!(bus.read(0xFF04), 0x00);
    assert_eq!(bus.internal_div_counter, 0);
    bus.cycle(255);
    bus.cycle(1);
    assert_eq!(bus.read(0xFF04), 0x01);
}

#[test]
fn joypad_write_only_changes_select_bits() {
    let mut bus = bus_with_rom(vec![0u8; 0x8000]);
    bus.set_joyp(0xCF);
    bus.write(0xFF00, 0x10);
    assert_eq!(bus.read(0xFF00), 0xDF);
    bus.write(0xFF00, 0xE0);
    assert_eq!(bus.read(0xFF00), 0xEF);
    bus.reset_joyp();
    assert_eq!(bus.read(0xFF00), 0xFF);
}

#[test]
fn reads_have_no_side_effects() {
    let mut rom = vec![0u8; 0x8000];
    rom[0x1234] = 0x5A;
    let mut bus = bus_with_rom(rom);
    bus.write(0xC123, 0x66);
    for dir in (0usize..=0xFFFF).step_by(13) {
        let first = bus.read(dir);
        let second = bus.read(dir);
        assert_eq!(first, second);
    }
    assert_eq!(bus.read(0x1234), 0x5A);
}

#[test]
fn boot_overlay_until_ff50_written() {
    let mut rom = vec![0u8; 0x8000];
    rom[0] = 0xAA;
    let mut bus = bus_with_rom(rom);
    assert_eq!(bus.read(0x0000), 0x31);
    bus.write(0xFF50, 0x01);
    assert_eq!(bus.read(0x0000), 0xAA);
    let bus2 = bus_with_rom(vec![0xAAu8; 0x8000]).set_enable_boot_rom(false);
    assert_eq!(bus2.read(0x0000), 0xAA);
}

#[test]
fn echo_ram_and_unusable_region() {
    let mut bus = bus_with_rom(vec![0u8; 0x8000]);
    bus.write(0xC010, 0x12);
    assert_eq!(bus.read(0xE010), 0x12);
    bus.write(0xE020, 0x34);
    assert_eq!(bus.read(0xC020), 0x34);
    bus.write(0xFEA0, 0x99);
    assert_eq!(bus.read(0xFEA0), 0x00);
    bus.write(0xFE00, 0x56);
    assert_eq!(bus.read(0xFE00), 0x56);
    bus.write(0x8000, 0x78);
    assert_eq!(bus.read(0x8000), 0x78);
    assert_eq!(bus.ppu.vram[0], 0x78);
    bus.write(0xA000, 0x9A);
    assert_eq!(bus.read(0xA000), 0x9A);
}

#[test]
fn timer_counts_once_in_sixteen_cycles() {
    let mut bus = bus_with_rom(vec![0u8; 0x8000]);
    bus.write(0xFF07, 0x05);
    bus.internal_div_counter = 0xAB00;
    bus.cycle(16);
    assert_eq!(bus.read(0xFF05), 1);

    let mut bus = bus_with_rom(vec![0u8; 0x8000]);
    bus.write(0xFF07, 0x05);
    bus.internal_div_counter = 0xAB00;
    bus.cycle(15);
    assert_eq!(bus.read(0xFF05), 0);
}

#[test]
fn timer_counts_sixteen_times_in_256_cycles() {
    let mut bus = bus_with_rom(vec![0u8; 0x8000]);
    bus.write(0xFF07, 0x05);
    for _ in 0..16 {
        bus.cycle(16);
    }
    assert_eq!(bus.read(0xFF05), 16);
}

#[test]
fn timer_disabled_does_not_count() {
    let mut bus = bus_with_rom(vec![0u8; 0x8000]);
    bus.write(0xFF07, 0x01);
    bus.cycle(200);
    assert_eq!(bus.read(0xFF05), 0);
}

#[test]
fn timer_overflow_reloads_and_requests() {
    let mut bus = bus_with_rom(vec![0u8; 0x8000]);
    bus.write(0xFF07, 0x05);
    bus.write(0xFF05, 0xFF);
    bus.write(0xFF06, 0x40);
    bus.cycle(16);
    assert_eq!(bus.read(0xFF05), 0x40);
    assert_eq!(bus.read(0xFF0F) & 0x04, 0x04);
}

#[test]
fn increase_tima_reports_overflow() {
    let mut bus = bus_with_rom(vec![0u8; 0x8000]);
    bus.write(0xFF05, 0xFE);
    assert!(!bus.increase_tima());
    assert!(bus.increase_tima());
    assert_eq!(bus.read(0xFF05), 0x00);
}

#[test]
fn increase_div_moves_div_by_one() {
    let mut bus = bus_with_rom(vec![0u8; 0x8000]);
    bus.increase_div();
    assert_eq!(bus.read(0xFF04), 0x01);
}

#[test]
fn set_int_raises_if_bits() {
    let mut bus = bus_with_rom(vec![0u8; 0x8000]);
    bus.set_int(Interrupts::Serial);
    bus.set_int(Interrupts::VBlank);
    assert_eq!(bus.read(0xFF0F), 0x09);
}

#[test]
fn reset_writes_power_on_values() {
    let mut bus = bus_with_rom(vec![0u8; 0x8000]);
    bus.write(0xFFFF, 0x1F);
    bus.reset();
    assert_eq!(bus.read(0xFF40), 0x91);
    assert_eq!(bus.read(0xFF47), 0xFC);
    assert_eq!(bus.read(0xFF48), 0xFF);
    assert_eq!(bus.read(0xFF10), 0x80);
    assert_eq!(bus.read(0xFFFF), 0x00);
}

#[test]
fn flat_cartridge_reads_past_end_as_ff() {
    let bus = bus_with_rom(vec![0x11u8; 0x200]).set_enable_boot_rom(false);
    assert_eq!(bus.read(0x01FF), 0x11);
    assert_eq!(bus.read(0x0200), 0xFF);
}

#[test]
fn mbc1_switches_banks() {
    let mut rom = vec![0u8; 0x10000];
    rom[0x4000] = 1;
    rom[0x8000] = 2;
    rom[0xC000] = 3;
    let mut m = MBC1::new(rom);
    assert_eq!(m.read(0x4000), 1);
    m.write(0x2000, 3);
    assert_eq!(m.read(0x4000), 3);
    m.write(0x2000, 0);
    assert_eq!(m.read(0x4000), 1);
    m.write(0x2000, 0x22);
    assert_eq!(m.rom_bank_number, 2);
    assert_eq!(m.read(0x4000), 2);
    m.write(0x0000, 0x0A);
    assert!(m.ram_enable);
    m.write(0x6000, 1);
    assert_eq!(m.read(0x0000), 0);
}

#[test]
fn mbc0_ignores_writes() {
    let mut m = MBC0::new(vec![7u8; 0x8000]);
    m.write(0x2000, 1);
    assert_eq!(m.read(0x2000), 7);
}

#[test]
fn boot_overlay_stays_off_after_writing_zero_back() {
    let mut rom = vec![0u8; 0x8000];
    rom[0] = 0xAA;
    let mut bus = bus_with_rom(rom);
    bus.write(0xFF50, 0x01);
    bus.write(0xFF50, 0x00);
    assert_eq!(bus.read(0xFF50), 0x00);
    assert_eq!(bus.read(0x0000), 0xAA);
}

#[test]
fn new_bus_maps_the_boot_program() {
    let bus = Bus::new();
    assert_eq!(bus.read(0x00), 0x31);
    assert_eq!(bus.read(0x01), 0xFE);
    assert_eq!(bus.read(0xFF), 0x50);
    assert_eq!(bus.read(0xC000), 0x00);
    assert_eq!(bus.read(0xFFFE), 0x00);
}

#[test]
fn timer_ignores_rising_edge() {
    let mut bus = bus_with_rom(vec![0u8; 0x8000]);
    bus.write(0xFF07, 0x05);
    bus.internal_div_counter = 0x0007;
    bus.cycle(1);
    assert!(bus.last_and_result);
    assert_eq!(bus.read(0xFF05), 0);
    assert_eq!(bus.read(0xFF0F), 0);
}

#[test]
fn timer_counts_once_in_any_sixteen_cycle_window() {
    for start in 0u16..16 {
        let mut bus = bus_with_rom(vec![0u8; 0x8000]);
        bus.write(0xFF07, 0x05);
        bus.internal_div_counter = 0x1230 + start;
        bus.cycle(1);
        let t = bus.read(0xFF05);
        bus.cycle(16);
        assert_eq!(bus.read(0xFF05), t + 1, "start {}", start);
    }
}
