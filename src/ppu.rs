use std::collections::VecDeque;
use vstd::prelude::*;

verus! {

pub const LCDC: usize = 0;
pub const STAT: usize = 1;
pub const SCY: usize = 2;
pub const SCX: usize = 3;
pub const LY: usize = 4;
pub const LYC: usize = 5;
pub const BGP: usize = 7;

/// Dots in one scanline.
pub const DOTS_PER_LINE: u16 = 456;
/// Scanlines in one frame, the last ten of them in VBlank.
pub const LINES_PER_FRAME: u8 = 154;
/// Bytes in the RGBA framebuffer: 160 x 144 pixels of four bytes.
pub const FRAME_BYTES: usize = 92160;

#[derive(PartialEq, Eq, Structural, Clone, Copy, Debug)]
pub enum PpuMode {
    HBlank,
    VBlank,
    OamScaning,
    Drawing,
}

#[derive(PartialEq, Eq, Structural, Clone, Copy, Debug)]
pub enum FetcherState {
    GetTile,
    GetDataLow,
    GetDataHigh,
    PushToFIFO,
}

/// The mode the PPU is in at dot `dot` of scanline `line`.
pub open spec fn mode_at(line: int, dot: int) -> PpuMode {
    if line >= 144 {
        PpuMode::VBlank
    } else if dot < 80 {
        PpuMode::OamScaning
    } else if dot < 252 {
        PpuMode::Drawing
    } else {
        PpuMode::HBlank
    }
}

/// The two STAT bits that report a mode.
pub open spec fn mode_bits(m: PpuMode) -> u8 {
    match m {
        PpuMode::HBlank => 0,
        PpuMode::VBlank => 1,
        PpuMode::OamScaning => 2,
        PpuMode::Drawing => 3,
    }
}

/// Bit `i` of `v`, as arithmetic.
pub open spec fn bit(v: u8, i: nat) -> bool {
    (v as nat / vstd::arithmetic::power2::pow2(i)) % 2 == 1
}

/// The 2-bit colour index of the pixel whose mask in the bitplane bytes is
/// the power of two `d` (bit 7 is the leftmost pixel).
pub open spec fn pixel_value(low: u8, high: u8, d: int) -> u8 {
    (((high as int / d) % 2) * 2 + (low as int / d) % 2) as u8
}

/// The eight colour indices of one tile row, leftmost first.
pub open spec fn tile_row(low: u8, high: u8) -> Seq<u8> {
    seq![
        pixel_value(low, high, 128),
        pixel_value(low, high, 64),
        pixel_value(low, high, 32),
        pixel_value(low, high, 16),
        pixel_value(low, high, 8),
        pixel_value(low, high, 4),
        pixel_value(low, high, 2),
        pixel_value(low, high, 1),
    ]
}

/// The shade that palette register `bgp` gives colour index `v`: slot `v`
/// is bits `2v+1..2v` of the register.
pub open spec fn shade(bgp: u8, v: u8) -> u8 {
    if v == 0 {
        bgp % 4
    } else if v == 1 {
        (bgp / 4) % 4
    } else if v == 2 {
        (bgp / 16) % 4
    } else {
        bgp / 64
    }
}

/// The red, green and blue of each of the four shades, lightest first.
pub open spec fn shade_rgb(s: u8) -> (u8, u8, u8) {
    if s == 0 {
        (0xE0, 0xF8, 0xD0)
    } else if s == 1 {
        (0x88, 0xC0, 0x70)
    } else if s == 2 {
        (0x34, 0x68, 0x56)
    } else {
        (0x08, 0x18, 0x20)
    }
}

/// The state of the PPU as plain values.
pub struct PpuView {
    pub vram: Seq<u8>,
    pub oam: Seq<u8>,
    pub regs: Seq<u8>,
    pub mode: PpuMode,
    pub line: u8,
    pub dot: u16,
    pub fetcher_x: u8,
    pub fetcher_state: FetcherState,
    pub fetcher_tile: u8,
    pub data_low: u8,
    pub data_high: u8,
    pub fifo: Seq<u8>,
    pub lcd_x: u8,
    pub pixels: Seq<u8>,
}

impl PpuView {
    pub open spec fn wf(self) -> bool {
        &&& self.vram.len() == 0x2000
        &&& self.oam.len() == 0xA0
        &&& self.regs.len() == 12
        &&& self.pixels.len() == FRAME_BYTES
        &&& self.line < LINES_PER_FRAME
        &&& self.dot < DOTS_PER_LINE
        &&& self.mode == mode_at(self.line as int, self.dot as int)
        &&& self.fetcher_x < 32
        &&& self.fifo.len() <= 16
        &&& forall|i: int| 0 <= i < self.fifo.len() ==> self.fifo[i] < 4
        &&& self.lcd_x <= 160
    }

    pub open spec fn lcd_enabled(self) -> bool {
        self.regs[LCDC as int] >= 128
    }

    /// The row inside the current tile: `(LY + SCY) % 8`.
    pub open spec fn tile_line(self) -> int {
        (self.regs[LY as int] + self.regs[SCY as int]) % 8
    }

    /// The VRAM offset of the tilemap entry the fetcher reads next.
    pub open spec fn tilemap_index(self) -> int {
        let base: int = if bit(self.regs[LCDC as int], 3) { 0x1C00 } else { 0x1800 };
        let x = (self.regs[SCX as int] / 8 + self.fetcher_x) % 32;
        let y = 32 * (((self.regs[LY as int] + self.regs[SCY as int]) % 256) / 8);
        base + x + y
    }

    /// The VRAM offset of the low bitplane byte of the current tile row,
    /// by unsigned indexing from 0x8000 or signed indexing from 0x9000.
    pub open spec fn tile_data_index(self) -> int {
        let t = self.fetcher_tile as int;
        let base = if bit(self.regs[LCDC as int], 4) {
            16 * t
        } else if t < 128 {
            0x1000 + 16 * t
        } else {
            16 * t
        };
        base + 2 * self.tile_line()
    }

    /// One step of the background fetcher.
    pub open spec fn fetcher_step(self) -> PpuView {
        match self.fetcher_state {
            FetcherState::GetTile => PpuView {
                fetcher_tile: self.vram[self.tilemap_index()],
                fetcher_state: FetcherState::GetDataLow,
                ..self
            },
            FetcherState::GetDataLow => PpuView {
                data_low: self.vram[self.tile_data_index()],
                fetcher_state: FetcherState::GetDataHigh,
                ..self
            },
            FetcherState::GetDataHigh => PpuView {
                data_high: self.vram[self.tile_data_index() + 1],
                fetcher_state: FetcherState::PushToFIFO,
                ..self
            },
            FetcherState::PushToFIFO => if self.fifo.len() > 8 {
                self
            } else {
                PpuView {
                    fifo: self.fifo + tile_row(self.data_low, self.data_high),
                    fetcher_x: ((self.fetcher_x + 1) % 32) as u8,
                    fetcher_state: FetcherState::GetTile,
                    ..self
                }
            },
        }
    }

    /// The framebuffer offset of the pixel at the current line and column.
    pub open spec fn pixel_pos(self) -> int {
        (self.line * 160 + self.lcd_x) * 4
    }

    /// One dot of the FIFO: the oldest pixel, through the palette, to the
    /// framebuffer.
    pub open spec fn fifo_step(self) -> PpuView {
        if self.fifo.len() > 0 && self.lcd_x < 160 {
            let rgb = shade_rgb(shade(self.regs[BGP as int], self.fifo[0]));
            let pos = self.pixel_pos();
            PpuView {
                pixels: self.pixels.update(pos, rgb.0).update(pos + 1, rgb.1).update(
                    pos + 2,
                    rgb.2,
                ).update(pos + 3, 0xFF),
                fifo: self.fifo.subrange(1, self.fifo.len() as int),
                lcd_x: (self.lcd_x + 1) as u8,
                ..self
            }
        } else {
            self
        }
    }

    /// The pixel work of the current dot: in Draw mode the fetcher runs on
    /// every second dot and the FIFO on each.
    pub open spec fn draw_step(self) -> PpuView {
        if self.mode == PpuMode::Drawing {
            let f = if self.dot % 2 == 0 { self.fetcher_step() } else { self };
            f.fifo_step()
        } else {
            self
        }
    }

    /// The dot counter moved on by one, the mode and the STAT and LY
    /// registers brought in line, with the (VBlank, STAT) requests raised.
    pub open spec fn advance(self) -> (PpuView, bool, bool) {
        let end_of_line = self.dot + 1 == DOTS_PER_LINE;
        let dot1: u16 = if end_of_line { 0 } else { (self.dot + 1) as u16 };
        let line1: u8 = if !end_of_line {
            self.line
        } else if self.line + 1 == LINES_PER_FRAME {
            0
        } else {
            (self.line + 1) as u8
        };
        let m1 = mode_at(line1 as int, dot1 as int);
        let entered = m1 != self.mode;
        let base = if self.mode == PpuMode::Drawing && m1 == PpuMode::HBlank {
            PpuView {
                fetcher_x: 0,
                lcd_x: 0,
                fifo: Seq::empty(),
                fetcher_state: FetcherState::GetTile,
                ..self
            }
        } else {
            self
        };
        let stat = self.regs[STAT as int];
        let coincidence = line1 == self.regs[LYC as int];
        let stat1 = ((stat / 8) * 8 + (if coincidence { 4int } else { 0int }) + mode_bits(
            m1,
        )) as u8;
        let stat_int = (entered && m1 == PpuMode::HBlank && bit(stat, 3)) || (entered && m1
            == PpuMode::VBlank && bit(stat, 4)) || (entered && m1 == PpuMode::OamScaning && bit(
            stat,
            5,
        )) || (coincidence && !bit(stat, 2) && bit(stat, 6));
        let vblank_int = entered && m1 == PpuMode::VBlank;
        (
            PpuView {
                regs: self.regs.update(LY as int, line1).update(STAT as int, stat1),
                mode: m1,
                line: line1,
                dot: dot1,
                ..base
            },
            vblank_int,
            stat_int,
        )
    }

    /// One dot of the PPU.
    pub open spec fn dot_step(self) -> (PpuView, bool, bool) {
        self.draw_step().advance()
    }

    /// `n` dots of the PPU, with the requests of all of them OR-ed.
    pub open spec fn run(self, n: nat) -> (PpuView, bool, bool)
        decreases n,
    {
        if n == 0 {
            (self, false, false)
        } else {
            let prev = self.run((n - 1) as nat);
            let next = prev.0.dot_step();
            (next.0, prev.1 || next.1, prev.2 || next.2)
        }
    }

    /// What `cycles` CPU cycles do to the PPU: nothing while the LCD is off.
    pub open spec fn cycle(self, cycles: nat) -> (PpuView, bool, bool) {
        if self.lcd_enabled() {
            self.run(cycles)
        } else {
            (self, false, false)
        }
    }
}

/// The mode schedule: the PPU's mode is a function of the line and the dot
/// alone. A line opens with 80 dots of OAM scan, then Draw from dot 80 and
/// HBlank from dot 252; from line 144 on the PPU is in VBlank.
pub proof fn lemma_mode_schedule(p: PpuView)
    requires
        p.wf(),
    ensures
        p.line < 144 && p.dot == 0 ==> p.mode == PpuMode::OamScaning,
        p.line < 144 && p.dot == 80 ==> p.mode == PpuMode::Drawing,
        p.line < 144 && p.dot == 252 ==> p.mode == PpuMode::HBlank,
        p.line == 144 && p.dot == 0 ==> p.mode == PpuMode::VBlank,
        p.line < 144 && p.dot < 80 <==> p.mode == PpuMode::OamScaning,
        p.line < 144 && 80 <= p.dot < 252 <==> p.mode == PpuMode::Drawing,
        p.line < 144 && 252 <= p.dot <==> p.mode == PpuMode::HBlank,
        p.line >= 144 <==> p.mode == PpuMode::VBlank,
{
}

proof fn lemma_tile_data_in_range(p: PpuView)
    requires
        p.wf(),
    ensures
        0 <= p.tile_data_index(),
        p.tile_data_index() + 1 < 0x1800,
        0x1800 <= p.tilemap_index() < 0x2000,
{
    vstd::arithmetic::power2::lemma2_to64();
}

proof fn lemma_dot_step_wf(p: PpuView)
    requires
        p.wf(),
    ensures
        p.draw_step().wf(),
        p.dot_step().0.wf(),
{
    vstd::arithmetic::power2::lemma2_to64();
    lemma_tile_data_in_range(p);
    let f = if p.dot % 2 == 0 { p.fetcher_step() } else { p };
    if p.mode == PpuMode::Drawing {
        assert(f.wf());
        assert(f.fifo_step().wf());
    }
    assert(p.draw_step().wf());
}

pub struct PPU {
    pub vram: Vec<u8>,
    pub oam: Vec<u8>,
    pub regs: Vec<u8>,
    pub mode: PpuMode,
    pub line: u8,
    pub scanline_counter: u16,
    pub fetcher_x: u8,
    pub fetcher_state: FetcherState,
    pub fetcher_tile: u8,
    pub data_low: u8,
    pub data_high: u8,
    pub background_fifo: VecDeque<u8>,
    pub lcd_x: u8,
    pub lcd_pixels: Vec<u8>,
}

impl View for PPU {
    type V = PpuView;

    open spec fn view(&self) -> PpuView {
        PpuView {
            vram: self.vram@,
            oam: self.oam@,
            regs: self.regs@,
            mode: self.mode,
            line: self.line,
            dot: self.scanline_counter,
            fetcher_x: self.fetcher_x,
            fetcher_state: self.fetcher_state,
            fetcher_tile: self.fetcher_tile,
            data_low: self.data_low,
            data_high: self.data_high,
            fifo: self.background_fifo@,
            lcd_x: self.lcd_x,
            pixels: self.lcd_pixels@,
        }
    }
}

fn pixel_value_of(low: u8, high: u8, d: u8) -> (r: u8)
    requires
        d > 0,
    ensures
        r == pixel_value(low, high, d as int),
        r < 4,
{
    ((high / d) % 2) * 2 + (low / d) % 2
}

/// The shade that palette register `bgp` gives colour index `v`.
pub fn palette_shade(bgp: u8, v: u8) -> (r: u8)
    ensures
        r == shade(bgp, v),
        r < 4,
{
    if v == 0 {
        bgp % 4
    } else if v == 1 {
        (bgp / 4) % 4
    } else if v == 2 {
        (bgp / 16) % 4
    } else {
        bgp / 64
    }
}

/// The red, green and blue bytes of a shade.
pub fn shade_color(s: u8) -> (r: (u8, u8, u8))
    ensures
        r == shade_rgb(s),
{
    if s == 0 {
        (0xE0, 0xF8, 0xD0)
    } else if s == 1 {
        (0x88, 0xC0, 0x70)
    } else if s == 2 {
        (0x34, 0x68, 0x56)
    } else {
        (0x08, 0x18, 0x20)
    }
}

/// The eight colour indices of the tile row whose bitplanes are `low` and
/// `high`, leftmost pixel first.
pub fn decode_tile_row(low: u8, high: u8) -> (r: Vec<u8>)
    ensures
        r@ == tile_row(low, high),
{
    let mut r: Vec<u8> = Vec::new();
    r.push(pixel_value_of(low, high, 128));
    r.push(pixel_value_of(low, high, 64));
    r.push(pixel_value_of(low, high, 32));
    r.push(pixel_value_of(low, high, 16));
    r.push(pixel_value_of(low, high, 8));
    r.push(pixel_value_of(low, high, 4));
    r.push(pixel_value_of(low, high, 2));
    r.push(pixel_value_of(low, high, 1));
    assert(r@ =~= tile_row(low, high));
    r
}

fn bit_of(v: u8, d: u8) -> (r: bool)
    requires
        d == 8 || d == 16 || d == 32 || d == 64 || d == 4,
    ensures
        d == 4 ==> r == bit(v, 2),
        d == 8 ==> r == bit(v, 3),
        d == 16 ==> r == bit(v, 4),
        d == 32 ==> r == bit(v, 5),
        d == 64 ==> r == bit(v, 6),
{
    proof {
        vstd::arithmetic::power2::lemma2_to64();
    }
    (v / d) % 2 == 1
}

impl PPU {
    pub open spec fn wf(&self) -> bool {
        self@.wf()
    }

    /// The PPU at power-up: memory and registers cleared, at the first dot
    /// of line 0.
    pub open spec fn new_view() -> PpuView {
        PpuView {
            vram: Seq::new(0x2000, |i: int| 0u8),
            oam: Seq::new(0xA0, |i: int| 0u8),
            regs: Seq::new(12, |i: int| 0u8),
            mode: PpuMode::OamScaning,
            line: 0,
            dot: 0,
            fetcher_x: 0,
            fetcher_state: FetcherState::GetTile,
            fetcher_tile: 0,
            data_low: 0,
            data_high: 0,
            fifo: Seq::empty(),
            lcd_x: 0,
            pixels: Seq::new(FRAME_BYTES as nat, |i: int| 0u8),
        }
    }

    pub fn new() -> (r: PPU)
        ensures
            r.wf(),
            r@ == PPU::new_view(),
    {
        let r = PPU {
            vram: vec![0u8; 0x2000],
            oam: vec![0u8; 0xA0],
            regs: vec![0u8; 12],
            mode: PpuMode::OamScaning,
            line: 0,
            scanline_counter: 0,
            fetcher_x: 0,
            fetcher_state: FetcherState::GetTile,
            fetcher_tile: 0,
            data_low: 0,
            data_high: 0,
            background_fifo: VecDeque::new(),
            lcd_x: 0,
            lcd_pixels: vec![0u8; FRAME_BYTES],
        };
        assert(r@.vram =~= Seq::new(0x2000, |i: int| 0u8));
        assert(r@.oam =~= Seq::new(0xA0, |i: int| 0u8));
        assert(r@.regs =~= Seq::new(12, |i: int| 0u8));
        assert(r@.pixels =~= Seq::new(FRAME_BYTES as nat, |i: int| 0u8));
        r
    }

    /// A byte of VRAM, by its bus address.
    pub fn read(&self, dir: usize) -> (r: u8)
        requires
            self.wf(),
            0x8000 <= dir <= 0x9FFF,
        ensures
            r == self@.vram[dir - 0x8000],
    {
        self.vram[dir - 0x8000]
    }

    /// Stores a byte of VRAM, by its bus address.
    pub fn write(&mut self, dir: usize, val: u8)
        requires
            old(self).wf(),
            0x8000 <= dir <= 0x9FFF,
        ensures
            final(self)@ == (PpuView { vram: old(self)@.vram.update(dir - 0x8000, val), ..old(self)@ }),
    {
        self.vram.set(dir - 0x8000, val);
    }

    pub fn read_oam(&self, dir: usize) -> (r: u8)
        requires
            self.wf(),
            0xFE00 <= dir <= 0xFE9F,
        ensures
            r == self@.oam[dir - 0xFE00],
    {
        self.oam[dir - 0xFE00]
    }

    pub fn write_oam(&mut self, dir: usize, val: u8)
        requires
            old(self).wf(),
            0xFE00 <= dir <= 0xFE9F,
        ensures
            final(self)@ == (PpuView { oam: old(self)@.oam.update(dir - 0xFE00, val), ..old(self)@ }),
    {
        self.oam.set(dir - 0xFE00, val);
    }

    pub fn read_reg(&self, dir: usize) -> (r: u8)
        requires
            self.wf(),
            0xFF40 <= dir <= 0xFF4B,
        ensures
            r == self@.regs[dir - 0xFF40],
    {
        self.regs[dir - 0xFF40]
    }

    pub fn write_reg(&mut self, dir: usize, val: u8)
        requires
            old(self).wf(),
            0xFF40 <= dir <= 0xFF4B,
        ensures
            final(self)@ == (PpuView {
                regs: old(self)@.regs.update(dir - 0xFF40, val),
                ..old(self)@
            }),
    {
        self.regs.set(dir - 0xFF40, val);
    }

    fn fetcher_cycle(&mut self)
        requires
            old(self).wf(),
        ensures
            final(self)@ == old(self)@.fetcher_step(),
    {
        proof {
            lemma_tile_data_in_range(self@);
        }
        match self.fetcher_state {
            FetcherState::GetTile => {
                let i = self.tilemap_index();
                self.fetcher_tile = self.vram[i];
                self.fetcher_state = FetcherState::GetDataLow;
            },
            FetcherState::GetDataLow => {
                let i = self.tile_data_index();
                self.data_low = self.vram[i];
                self.fetcher_state = FetcherState::GetDataHigh;
            },
            FetcherState::GetDataHigh => {
                let i = self.tile_data_index();
                self.data_high = self.vram[i + 1];
                self.fetcher_state = FetcherState::PushToFIFO;
            },
            FetcherState::PushToFIFO => {
                if self.background_fifo.len() <= 8 {
                    self.push_row();
                }
            },
        }
    }

    fn push_row(&mut self)
        requires
            old(self).wf(),
            old(self)@.fetcher_state == FetcherState::PushToFIFO,
            old(self)@.fifo.len() <= 8,
        ensures
            final(self)@ == old(self)@.fetcher_step(),
    {
        let (low, high) = (self.data_low, self.data_high);
        let ghost fifo0 = self.background_fifo@;
        self.background_fifo.push_back(pixel_value_of(low, high, 128));
        self.background_fifo.push_back(pixel_value_of(low, high, 64));
        self.background_fifo.push_back(pixel_value_of(low, high, 32));
        self.background_fifo.push_back(pixel_value_of(low, high, 16));
        self.background_fifo.push_back(pixel_value_of(low, high, 8));
        self.background_fifo.push_back(pixel_value_of(low, high, 4));
        self.background_fifo.push_back(pixel_value_of(low, high, 2));
        self.background_fifo.push_back(pixel_value_of(low, high, 1));
        assert(self.background_fifo@ =~= fifo0 + tile_row(low, high));
        self.fetcher_x = (self.fetcher_x + 1) % 32;
        self.fetcher_state = FetcherState::GetTile;
    }

    fn tilemap_index(&self) -> (r: usize)
        requires
            self.wf(),
        ensures
            r == self@.tilemap_index(),
            0x1800 <= r < 0x2000,
    {
        proof {
            lemma_tile_data_in_range(self@);
        }
        let base: usize = if bit_of(self.regs[LCDC], 8) { 0x1C00 } else { 0x1800 };
        let x = (self.regs[SCX] as usize / 8 + self.fetcher_x as usize) % 32;
        let y = 32 * (((self.regs[LY] as usize + self.regs[SCY] as usize) % 256) / 8);
        base + x + y
    }

    fn tile_data_index(&self) -> (r: usize)
        requires
            self.wf(),
        ensures
            r == self@.tile_data_index(),
            r + 1 < 0x1800,
    {
        proof {
            lemma_tile_data_in_range(self@);
            vstd::arithmetic::power2::lemma2_to64();
        }
        let t = self.fetcher_tile as usize;
        let base: usize = if bit_of(self.regs[LCDC], 16) {
            16 * t
        } else if t < 128 {
            0x1000 + 16 * t
        } else {
            16 * t
        };
        base + 2 * ((self.regs[LY] as usize + self.regs[SCY] as usize) % 8)
    }

    fn fifo_cycle(&mut self)
        requires
            old(self).wf(),
            old(self)@.line < 144,
        ensures
            final(self)@ == old(self)@.fifo_step(),
    {
        if self.background_fifo.len() == 0 || self.lcd_x >= 160 {
            return;
        }
        let pixel = self.background_fifo.pop_front().unwrap();
        let pos = (self.line as usize * 160 + self.lcd_x as usize) * 4;
        let rgb = shade_color(palette_shade(self.regs[BGP], pixel));
        self.lcd_pixels.set(pos, rgb.0);
        self.lcd_pixels.set(pos + 1, rgb.1);
        self.lcd_pixels.set(pos + 2, rgb.2);
        self.lcd_pixels.set(pos + 3, 0xFF);
        self.lcd_x = self.lcd_x + 1;
    }

    fn draw_dot(&mut self)
        requires
            old(self).wf(),
        ensures
            final(self)@ == old(self)@.draw_step(),
            final(self).wf(),
    {
        proof {
            lemma_dot_step_wf(self@);
        }
        let ghost p0 = self@;
        if self.mode == PpuMode::Drawing {
            if self.scanline_counter % 2 == 0 {
                proof {
                    lemma_tile_data_in_range(p0);
                    assert(p0.fetcher_step().wf());
                }
                self.fetcher_cycle();
            }
            self.fifo_cycle();
        }
    }

    fn advance(&mut self) -> (r: (bool, bool))
        requires
            old(self).wf(),
        ensures
            (final(self)@, r.0, r.1) == old(self)@.advance(),
    {
        let old_mode = self.mode;
        let end_of_line = self.scanline_counter + 1 == DOTS_PER_LINE;
        if end_of_line {
            self.scanline_counter = 0;
            self.line = if self.line + 1 == LINES_PER_FRAME { 0 } else { self.line + 1 };
        } else {
            self.scanline_counter = self.scanline_counter + 1;
        }
        let m1 = if self.line >= 144 {
            PpuMode::VBlank
        } else if self.scanline_counter < 80 {
            PpuMode::OamScaning
        } else if self.scanline_counter < 252 {
            PpuMode::Drawing
        } else {
            PpuMode::HBlank
        };
        let entered = m1 != old_mode;
        if old_mode == PpuMode::Drawing && m1 == PpuMode::HBlank {
            self.fetcher_x = 0;
            self.lcd_x = 0;
            self.background_fifo.clear();
            self.fetcher_state = FetcherState::GetTile;
        }
        let stat = self.regs[STAT];
        let coincidence = self.line == self.regs[LYC];
        let bits: u8 = match m1 {
            PpuMode::HBlank => 0,
            PpuMode::VBlank => 1,
            PpuMode::OamScaning => 2,
            PpuMode::Drawing => 3,
        };
        let stat1: u8 = (stat / 8) * 8 + (if coincidence { 4u8 } else { 0u8 }) + bits;
        let stat_int = (entered && m1 == PpuMode::HBlank && bit_of(stat, 8)) || (entered && m1
            == PpuMode::VBlank && bit_of(stat, 16)) || (entered && m1 == PpuMode::OamScaning
            && bit_of(stat, 32)) || (coincidence && !bit_of(stat, 4) && bit_of(stat, 64));
        let vblank_int = entered && m1 == PpuMode::VBlank;
        self.regs.set(LY, self.line);
        self.regs.set(STAT, stat1);
        self.mode = m1;
        (vblank_int, stat_int)
    }

    fn dot(&mut self) -> (r: (bool, bool))
        requires
            old(self).wf(),
        ensures
            (final(self)@, r.0, r.1) == old(self)@.dot_step(),
            final(self).wf(),
    {
        proof {
            lemma_dot_step_wf(self@);
        }
        self.draw_dot();
        self.advance()
    }

    /// Runs the PPU for `cycles` dots and reports whether a VBlank and a
    /// STAT interrupt were requested on the way, as `(vblank, stat)`.
    pub fn cycle(&mut self, cycles: u8) -> (r: (bool, bool))
        requires
            old(self).wf(),
        ensures
            (final(self)@, r.0, r.1) == old(self)@.cycle(cycles as nat),
            final(self).wf(),
    {
        let mut ints = (false, false);
        if self.regs[LCDC] < 128 {
            return ints;
        }
        let ghost p0 = self@;
        let mut done: u8 = 0;
        while done < cycles
            invariant
                self.wf(),
                done <= cycles,
                (self@, ints.0, ints.1) == p0.run(done as nat),
            decreases cycles - done,
        {
            let r = self.dot();
            ints = (ints.0 || r.0, ints.1 || r.1);
            done = done + 1;
        }
        ints
    }
}

} // verus!
