use gameboy::ppu::{decode_tile_row, palette_shade, shade_color, PpuMode, PPU};

fn run_dots(ppu: &mut PPU, mut n: u32) -> (bool, bool) {
    let mut ints = (false, false);
    while n > 0 {
        let k = if n > 255 { 255 } else { n };
        let r = ppu.cycle(k as u8);
        ints = (ints.0 || r.0, ints.1 || r.1);
        n -= k;
    }
    ints
}

fn lcd_on() -> PPU {
    let mut ppu = PPU::new();
    ppu.regs[0] = 0x91;
    ppu.regs[7] = 0xFC;
    ppu
}

#[test]
fn mode_schedule_over_a_line_and_frame() {
    let mut ppu = lcd_on();
    assert_eq!(ppu.mode, PpuMode::OamScaning);
    run_dots(&mut ppu, 80);
    assert_eq!(ppu.mode, PpuMode::Drawing);
    run_dots(&mut ppu, 172);
    assert_eq!(ppu.mode, PpuMode::HBlank);
    assert_eq!(ppu.regs[1] & 3, 0);
    run_dots(&mut ppu, 204);
    assert_eq!(ppu.mode, PpuMode::OamScaning);
    assert_eq!(ppu.regs[4], 1);
    run_dots(&mut ppu, 143 * 456);
    assert_eq!(ppu.mode, PpuMode::VBlank);
    assert_eq!(ppu.regs[4], 144);
    assert_eq!(ppu.regs[1] & 3, 1);
}

#[test]
fn vblank_requested_once_per_frame() {
    let mut ppu = lcd_on();
    let (v, _) = run_dots(&mut ppu, 144 * 456 - 1);
    assert!(!v);
    let (v, _) = run_dots(&mut ppu, 1);
    assert!(v);
    let (v, _) = run_dots(&mut ppu, 10 * 456 - 1);
    assert!(!v);
}

#[test]
fn lcd_off_freezes_the_ppu() {
    let mut ppu = PPU::new();
    let r = ppu.cycle(200);
    assert_eq!(r, (false, false));
    assert_eq!(ppu.mode, PpuMode::OamScaning);
    assert_eq!(ppu.regs[4], 0);
}

#[test]
fn stat_interrupt_on_hblank_when_enabled() {
    let mut ppu = lcd_on();
    ppu.regs[1] = 0x08;
    let (_, s) = run_dots(&mut ppu, 251);
    assert!(!s);
    let (_, s) = run_dots(&mut ppu, 1);
    assert!(s);
}

#[test]
fn stat_interrupt_on_lyc_match() {
    let mut ppu = lcd_on();
    ppu.regs[1] = 0x40;
    ppu.regs[5] = 2;
    let (_, s) = run_dots(&mut ppu, 2 * 456 - 1);
    assert!(!s);
    let (_, s) = run_dots(&mut ppu, 1);
    assert!(s);
    assert_eq!(ppu.regs[1] & 0x04, 0x04);
}

#[test]
fn full_frame_draws_solid_tile_through_palette() {
    let mut ppu = lcd_on();
    for i in 0..16 {
        ppu.write(0x8000 + i, 0xFF);
    }
    run_dots(&mut ppu, 70224);
    let shade = (0xFCu8 >> 6) & 3;
    let (r, g, b) = shade_color(shade);
    assert_eq!(&ppu.lcd_pixels[0..4], &[r, g, b, 0xFF]);
    assert_eq!(&ppu.lcd_pixels[0..4], &[0x08, 0x18, 0x20, 0xFF]);
    let last = (143 * 160 + 159) * 4;
    assert_eq!(&ppu.lcd_pixels[last..last + 4], &[0x08, 0x18, 0x20, 0xFF]);
}

#[test]
fn vram_write_during_draw_shows_next_frame() {
    let mut ppu = lcd_on();
    run_dots(&mut ppu, 81);
    assert_eq!(ppu.mode, PpuMode::Drawing);
    for i in 0..16 {
        ppu.write(0x8000 + i, 0xFF);
    }
    run_dots(&mut ppu, 70224);
    assert_eq!(&ppu.lcd_pixels[0..4], &[0x08, 0x18, 0x20, 0xFF]);
}

#[test]
fn blank_tiles_draw_palette_slot_zero() {
    let mut ppu = lcd_on();
    ppu.regs[7] = 0xE4;
    run_dots(&mut ppu, 70224);
    assert_eq!(&ppu.lcd_pixels[0..4], &[0xE0, 0xF8, 0xD0, 0xFF]);
}

#[test]
fn tile_row_decodes_bit_seven_first() {
    assert_eq!(decode_tile_row(0x80, 0x01), vec![1, 0, 0, 0, 0, 0, 0, 2]);
    assert_eq!(decode_tile_row(0xFF, 0xFF), vec![3; 8]);
}

#[test]
fn palette_slots() {
    assert_eq!(palette_shade(0xE4, 0), 0);
    assert_eq!(palette_shade(0xE4, 1), 1);
    assert_eq!(palette_shade(0xE4, 2), 2);
    assert_eq!(palette_shade(0xE4, 3), 3);
    assert_eq!(palette_shade(0xFC, 3), 3);
    assert_eq!(palette_shade(0xFC, 0), 0);
}

#[test]
fn ppu_register_and_oam_access() {
    let mut ppu = PPU::new();
    ppu.write_reg(0xFF42, 0x33);
    assert_eq!(ppu.read_reg(0xFF42), 0x33);
    ppu.write_oam(0xFE9F, 0x44);
    assert_eq!(ppu.read_oam(0xFE9F), 0x44);
    ppu.write(0x9FFF, 0x55);
    assert_eq!(ppu.read(0x9FFF), 0x55);
}
