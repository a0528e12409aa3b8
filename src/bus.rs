use crate::mbc::{CartView, Cartridge};
use crate::ppu::{bit, PpuView, PPU};
use vstd::prelude::*;

verus! {

/// The five interrupt sources; the order is the dispatch priority.
#[derive(PartialEq, Eq, Structural, Clone, Copy, Debug)]
pub enum Interrupts {
    VBlank,
    LcdStat,
    Timer,
    Serial,
    Joypad,
}

/// The IF bit of an interrupt source.
pub open spec fn interrupt_mask(source: Interrupts) -> u8 {
    match source {
        Interrupts::VBlank => 1,
        Interrupts::LcdStat => 2,
        Interrupts::Timer => 4,
        Interrupts::Serial => 8,
        Interrupts::Joypad => 16,
    }
}

/// The divisor whose quotient's low bit is the counter bit that TAC's
/// frequency select (its low two bits) watches: bit 9, 3, 5 or 7.
pub open spec fn timer_divisor(tac: u8) -> int {
    let s = tac % 4;
    if s == 0 {
        512
    } else if s == 1 {
        8
    } else if s == 2 {
        32
    } else {
        128
    }
}

/// The bus and everything behind it, as plain values.
pub struct BusView {
    pub cart: Option<CartView>,
    pub ppu: PpuView,
    pub eram: Seq<u8>,
    pub wram: Seq<u8>,
    pub io: Seq<u8>,
    pub hram: Seq<u8>,
    pub ie: u8,
    pub boot: Seq<u8>,
    pub boot_enabled: bool,
    pub div_counter: u16,
    pub last_and: bool,
}

impl BusView {
    pub open spec fn wf(self) -> bool {
        &&& self.ppu.wf()
        &&& self.eram.len() == 0x2000
        &&& self.wram.len() == 0x2000
        &&& self.io.len() == 0x80
        &&& self.hram.len() == 0x80
        &&& self.boot.len() == 0x100
    }

    /// The boot program shadows the cartridge at `dir`: it is enabled, and
    /// 0xFF50 has never been written nonzero (such a write disables it).
    pub open spec fn boot_mapped(self, dir: int) -> bool {
        self.io[0x50] == 0 && dir < 0x100 && self.boot_enabled
    }

    /// `dir` is a bus address, and a cartridge is there to answer it if it
    /// falls in the cartridge's range.
    pub open spec fn can_access(self, dir: int) -> bool {
        0 <= dir <= 0xFFFF && (dir > 0x7FFF || self.boot_mapped(dir) || self.cart.is_some())
    }

    /// The byte a read of `dir` returns.
    pub open spec fn read(self, dir: int) -> u8 {
        if dir <= 0x7FFF {
            if self.boot_mapped(dir) {
                self.boot[dir]
            } else {
                self.cart.unwrap().read(dir)
            }
        } else if dir <= 0x9FFF {
            self.ppu.vram[dir - 0x8000]
        } else if dir <= 0xBFFF {
            self.eram[dir - 0xA000]
        } else if dir <= 0xDFFF {
            self.wram[dir - 0xC000]
        } else if dir <= 0xFDFF {
            self.wram[dir - 0xE000]
        } else if dir <= 0xFE9F {
            self.ppu.oam[dir - 0xFE00]
        } else if dir <= 0xFEFF {
            0
        } else if dir <= 0xFF7F {
            if dir == 0xFF04 {
                (self.div_counter / 256) as u8
            } else if 0xFF40 <= dir <= 0xFF4B {
                self.ppu.regs[dir - 0xFF40]
            } else {
                self.io[dir - 0xFF00]
            }
        } else if dir <= 0xFFFE {
            self.hram[dir - 0xFF80]
        } else {
            self.ie
        }
    }

    /// JOYP after a write of `val`: only the two select bits take it.
    pub open spec fn joyp_write(old_joyp: u8, val: u8) -> u8 {
        ((old_joyp / 64) * 64 + ((val / 16) % 4) * 16 + old_joyp % 16) as u8
    }

    /// The bus after a write of `val` to `dir`.
    pub open spec fn write(self, dir: int, val: u8) -> BusView {
        if dir <= 0x7FFF {
            BusView { cart: Some(self.cart.unwrap().write(dir, val)), ..self }
        } else if dir <= 0x9FFF {
            BusView { ppu: PpuView { vram: self.ppu.vram.update(dir - 0x8000, val), ..self.ppu }, ..self }
        } else if dir <= 0xBFFF {
            BusView { eram: self.eram.update(dir - 0xA000, val), ..self }
        } else if dir <= 0xDFFF {
            BusView { wram: self.wram.update(dir - 0xC000, val), ..self }
        } else if dir <= 0xFDFF {
            BusView { wram: self.wram.update(dir - 0xE000, val), ..self }
        } else if dir <= 0xFE9F {
            BusView { ppu: PpuView { oam: self.ppu.oam.update(dir - 0xFE00, val), ..self.ppu }, ..self }
        } else if dir <= 0xFEFF {
            self
        } else if dir <= 0xFF7F {
            if dir == 0xFF00 {
                BusView { io: self.io.update(0, Self::joyp_write(self.io[0], val)), ..self }
            } else if dir == 0xFF04 {
                BusView { div_counter: 0, ..self }
            } else if 0xFF40 <= dir <= 0xFF4B {
                BusView { ppu: PpuView { regs: self.ppu.regs.update(dir - 0xFF40, val), ..self.ppu }, ..self }
            } else if dir == 0xFF50 && val != 0 {
                BusView { io: self.io.update(0x50, val), boot_enabled: false, ..self }
            } else {
                BusView { io: self.io.update(dir - 0xFF00, val), ..self }
            }
        } else if dir <= 0xFFFE {
            BusView { hram: self.hram.update(dir - 0xFF80, val), ..self }
        } else {
            BusView { ie: val, ..self }
        }
    }

    /// The bus with the IF bits of `mask` raised.
    pub open spec fn request(self, mask: u8) -> BusView {
        BusView { io: self.io.update(0x0F, self.io[0x0F] | mask), ..self }
    }

    /// TIMA counted up by one; on overflow it is reloaded from TMA and the
    /// timer interrupt is requested.
    pub open spec fn tima_increment(self) -> BusView {
        if self.io[0x05] == 255 {
            BusView { io: self.io.update(0x05, self.io[0x06]), ..self }.request(4)
        } else {
            BusView { io: self.io.update(0x05, (self.io[0x05] + 1) as u8), ..self }
        }
    }

    /// The watched counter bit AND the timer-enable bit, for counter `c`.
    pub open spec fn and_result(self, c: u16) -> bool {
        (c as int / timer_divisor(self.io[0x07])) % 2 == 1 && bit(self.io[0x07], 2)
    }

    /// One cycle of the timer: the counter moves on, and TIMA counts when
    /// the AND result falls from true to false.
    pub open spec fn timer_tick(self) -> BusView {
        let c1 = ((self.div_counter + 1) % 65536) as u16;
        let a = self.and_result(c1);
        let b = if !a && self.last_and { self.tima_increment() } else { self };
        BusView { div_counter: c1, last_and: a, ..b }
    }

    /// `n` cycles of the timer.
    pub open spec fn timer_run(self, n: nat) -> BusView
        decreases n,
    {
        if n == 0 {
            self
        } else {
            self.timer_run((n - 1) as nat).timer_tick()
        }
    }

    /// `n` cycles of the PPU and then of the timer, with the PPU's
    /// requests raised in IF.
    pub open spec fn cycle(self, n: nat) -> BusView {
        let p = self.ppu.cycle(n);
        let b1 = BusView { ppu: p.0, ..self };
        let b2 = if p.1 { b1.request(1) } else { b1 };
        let b3 = if p.2 { b2.request(2) } else { b2 };
        b3.timer_run(n)
    }

    /// The power-on values of the timer, sound, LCD and interrupt-enable
    /// registers.
    pub open spec fn power_on(self) -> BusView {
        self.write(0xFF06, 0x00).write(0xFF07, 0x00).write(0xFF10, 0x80).write(0xFF05, 0x00).write(
            0xFF11,
            0xBF,
        ).write(0xFF12, 0xF3).write(0xFF14, 0xBF).write(0xFF16, 0x3F).write(0xFF17, 0x00).write(
            0xFF19,
            0xBF,
        ).write(0xFF1A, 0x7F).write(0xFF1B, 0xFF).write(0xFF1C, 0x9F).write(0xFF1E, 0xBF).write(
            0xFF20,
            0xFF,
        ).write(0xFF21, 0x00).write(0xFF22, 0x00).write(0xFF23, 0xBF).write(0xFF24, 0x77).write(
            0xFF25,
            0xF3,
        ).write(0xFF26, 0xF1).write(0xFF40, 0x91).write(0xFF42, 0x00).write(0xFF43, 0x00).write(
            0xFF45,
            0x00,
        ).write(0xFF47, 0xFC).write(0xFF48, 0xFF).write(0xFF49, 0xFF).write(0xFF4A, 0x00).write(
            0xFF4B,
            0x00,
        ).write(0xFFFF, 0x00)
    }
}

/// The 256-byte boot program mapped at 0x0000 until 0xFF50 is written
/// nonzero.
pub open spec fn boot_program() -> Seq<u8> {
    seq![
        0x31u8, 0xFE, 0xFF, 0xAF, 0x21, 0xFF, 0x9F, 0x32, 0xCB, 0x7C, 0x20, 0xFB, 0x21, 0x26, 0xFF, 0x0E,
        0x11, 0x3E, 0x80, 0x32, 0xE2, 0x0C, 0x3E, 0xF3, 0xE2, 0x32, 0x3E, 0x77, 0x77, 0x3E, 0xFC, 0xE0,
        0x47, 0x11, 0x04, 0x01, 0x21, 0x10, 0x80, 0x1A, 0xCD, 0x95, 0x00, 0xCD, 0x96, 0x00, 0x13, 0x7B,
        0xFE, 0x34, 0x20, 0xF3, 0x11, 0xD8, 0x00, 0x06, 0x08, 0x1A, 0x13, 0x22, 0x23, 0x05, 0x20, 0xF9,
        0x3E, 0x19, 0xEA, 0x10, 0x99, 0x21, 0x2F, 0x99, 0x0E, 0x0C, 0x3D, 0x28, 0x08, 0x32, 0x0D, 0x20,
        0xF9, 0x2E, 0x0F, 0x18, 0xF3, 0x67, 0x3E, 0x64, 0x57, 0xE0, 0x42, 0x3E, 0x91, 0xE0, 0x40, 0x04,
        0x1E, 0x02, 0x0E, 0x0C, 0xF0, 0x44, 0xFE, 0x90, 0x20, 0xFA, 0x0D, 0x20, 0xF7, 0x1D, 0x20, 0xF2,
        0x0E, 0x13, 0x24, 0x7C, 0x1E, 0x83, 0xFE, 0x62, 0x28, 0x06, 0x1E, 0xC1, 0xFE, 0x64, 0x20, 0x06,
        0x7B, 0xE2, 0x0C, 0x3E, 0x87, 0xE2, 0xF0, 0x42, 0x90, 0xE0, 0x42, 0x15, 0x20, 0xD2, 0x05, 0x20,
        0x4F, 0x16, 0x20, 0x18, 0xCB, 0x4F, 0x06, 0x04, 0xC5, 0xCB, 0x11, 0x17, 0xC1, 0xCB, 0x11, 0x17,
        0x05, 0x20, 0xF5, 0x22, 0x23, 0x22, 0x23, 0xC9, 0xCE, 0xED, 0x66, 0x66, 0xCC, 0x0D, 0x00, 0x0B,
        0x03, 0x73, 0x00, 0x83, 0x00, 0x0C, 0x00, 0x0D, 0x00, 0x08, 0x11, 0x1F, 0x88, 0x89, 0x00, 0x0E,
        0xDC, 0xCC, 0x6E, 0xE6, 0xDD, 0xDD, 0xD9, 0x99, 0xBB, 0xBB, 0x67, 0x63, 0x6E, 0x0E, 0xEC, 0xCC,
        0xDD, 0xDC, 0x99, 0x9F, 0xBB, 0xB9, 0x33, 0x3E, 0x3C, 0x42, 0xB9, 0xA5, 0xB9, 0xA5, 0x42, 0x3C,
        0x21, 0x04, 0x01, 0x11, 0xA8, 0x00, 0x1A, 0x13, 0xBE, 0x20, 0xFE, 0x23, 0x7D, 0xFE, 0x34, 0x20,
        0xF5, 0x06, 0x19, 0x78, 0x86, 0x23, 0x05, 0x20, 0xFB, 0x86, 0x20, 0xFE, 0x3E, 0x01, 0xE0, 0x50,
    ]
}

/// The boot overlay is off for good once 0xFF50 has been written nonzero:
/// that write disables it, and no later write enables it again.
pub proof fn lemma_boot_overlay_off_for_good(b: BusView, val: u8, dir: int, x: u8)
    requires
        b.wf(),
        val != 0,
    ensures
        !b.write(0xFF50, val).boot_enabled,
        !b.write(0xFF50, val).boot_mapped(0),
        !b.boot_enabled ==> !b.write(dir, x).boot_enabled,
{
}

/// A write keeps the bus well formed and a loaded cartridge loaded.
pub proof fn lemma_write_wf(b: BusView, dir: int, val: u8)
    requires
        b.wf(),
        b.can_access(dir),
        dir <= 0x7FFF ==> b.cart.is_some(),
    ensures
        b.write(dir, val).wf(),
        b.write(dir, val).cart.is_some() == b.cart.is_some(),
{
}

/// Round trip on the I/O registers, high RAM and IE: a read right after a
/// write returns the byte written. DIV reads back as the top byte of the
/// divider, which the write has cleared, and JOYP takes only bits 4-5 of
/// the byte written.
pub proof fn lemma_io_round_trip(b: BusView, dir: int, val: u8)
    requires
        b.wf(),
        0xFF00 <= dir <= 0xFFFF,
    ensures
        dir != 0xFF00 && dir != 0xFF04 ==> b.write(dir, val).read(dir) == val,
        dir == 0xFF04 ==> b.write(dir, val).read(dir) == 0,
        dir == 0xFF00 ==> b.write(dir, val).read(dir) == BusView::joyp_write(b.read(dir), val),
{
}

/// The timer under TAC = enabled, bit 3: counting from a counter value
/// `c` whose latch agrees with it, TIMA counts once at every counter value
/// that is a multiple of 16 and at no other; so any 16 cycles in a row count
/// it exactly once.
pub proof fn lemma_timer_sixteen_cycles(b: BusView)
    requires
        b.wf(),
        b.io[0x07] % 8 == 5,
        b.last_and == b.and_result(b.div_counter),
        b.io[0x05] < 255,
    ensures
        b.timer_run(16).io[0x05] == b.io[0x05] + 1,
        forall|k: nat| k < 16 ==> #[trigger] b.timer_run(k).io[0x05] == b.io[0x05] + (if (
        b.div_counter % 16) + k >= 16 { 1int } else { 0int }),
{
    assert(bit(b.io[0x07], 2)) by {
        vstd::arithmetic::power2::lemma2_to64();
    }
    lemma_timer_prefix(b, 16);
    assert forall|k: nat| k < 16 implies #[trigger] b.timer_run(k).io[0x05] == b.io[0x05] + (
    if (b.div_counter % 16) + k >= 16 { 1int } else { 0int }) by {
        lemma_timer_prefix(b, k);
    }
}

/// TIMA never counts on a rising edge: a timer cycle whose previous AND
/// result was false leaves TIMA and IF as they were.
pub proof fn lemma_timer_no_rising_edge(b: BusView)
    requires
        b.wf(),
        !b.last_and,
    ensures
        b.timer_tick().io[0x05] == b.io[0x05],
        b.timer_tick().io[0x0F] == b.io[0x0F],
{
}

/// After one timer cycle the latch holds the AND result of the current
/// counter value, whatever TAC is: a bus that has run at least one cycle
/// under its TAC meets the premise of the sixteen-cycle law.
pub proof fn lemma_timer_latch_follows(b: BusView)
    requires
        b.wf(),
    ensures
        b.timer_tick().last_and == b.timer_tick().and_result(b.timer_tick().div_counter),
        b.timer_tick().io[0x07] == b.io[0x07],
{
}

proof fn lemma_falling_edge(c: int)
    requires
        0 <= c < 65536,
    ensures
        ((((c + 1) % 65536) / 8) % 2 == 0 && (c / 8) % 2 == 1) <==> (c + 1) % 16 == 0,
{
}

#[verifier::rlimit(40)]
proof fn lemma_tick_bit3(p: BusView)
    requires
        p.wf(),
        p.io[0x07] % 8 == 5,
        bit(p.io[0x07], 2),
        p.last_and == p.and_result(p.div_counter),
    ensures
        p.timer_tick().io[0x07] == p.io[0x07],
        p.timer_tick().io.len() == p.io.len(),
        p.timer_tick().div_counter == (p.div_counter + 1) % 65536,
        p.timer_tick().last_and == p.timer_tick().and_result(p.timer_tick().div_counter),
        (p.div_counter + 1) % 16 == 0 && p.io[0x05] < 255 ==> p.timer_tick().io[0x05] == p.io[0x05]
            + 1,
        (p.div_counter + 1) % 16 != 0 ==> p.timer_tick().io[0x05] == p.io[0x05],
{
    let c1 = ((p.div_counter + 1) % 65536) as u16;
    assert(timer_divisor(p.io[0x07]) == 8);
    lemma_falling_edge(p.div_counter as int);
    assert(p.and_result(c1) == ((c1 / 8) % 2 == 1));
    assert(p.last_and == ((p.div_counter / 8) % 2 == 1));
    if !p.and_result(c1) && p.last_and {
        assert(p.tima_increment().io[0x07] == p.io[0x07]);
    }
}

#[verifier::rlimit(40)]
proof fn lemma_timer_prefix(b: BusView, k: nat)
    requires
        b.wf(),
        b.io[0x07] % 8 == 5,
        bit(b.io[0x07], 2),
        b.last_and == b.and_result(b.div_counter),
        b.io[0x05] < 255,
        k <= 16,
    ensures
        b.timer_run(k).io[0x05] == b.io[0x05] + (if (b.div_counter % 16) + k >= 16 {
            1int
        } else {
            0int
        }),
        b.timer_run(k).wf(),
        b.timer_run(k).io[0x07] == b.io[0x07],
        b.timer_run(k).div_counter == (b.div_counter + k) % 65536,
        b.timer_run(k).last_and == b.timer_run(k).and_result(b.timer_run(k).div_counter),
    decreases k,
{
    if k > 0 {
        lemma_timer_prefix(b, (k - 1) as nat);
        let p = b.timer_run((k - 1) as nat);
        lemma_tick_bit3(p);
        lemma_tick_wf(p);
        assert((p.div_counter + 1) % 16 == (b.div_counter % 16 + k) % 16);
    }
}

proof fn lemma_timer_run_cart(b: BusView, n: nat)
    ensures
        b.timer_run(n).cart == b.cart,
    decreases n,
{
    if n > 0 {
        lemma_timer_run_cart(b, (n - 1) as nat);
    }
}

proof fn lemma_tick_wf(p: BusView)
    requires
        p.wf(),
    ensures
        p.timer_tick().wf(),
{
}

pub struct Bus {
    pub rom: Option<Cartridge>,
    pub ppu: PPU,
    pub eram: Vec<u8>,
    pub wram: Vec<u8>,
    pub io_regs: Vec<u8>,
    pub hram: Vec<u8>,
    pub i_enable: u8,
    pub boot_rom: Vec<u8>,
    pub enable_boot_rom: bool,
    pub internal_div_counter: u16,
    pub last_and_result: bool,
}

impl View for Bus {
    type V = BusView;

    open spec fn view(&self) -> BusView {
        BusView {
            cart: match self.rom {
                Some(c) => Some(c@),
                None => None,
            },
            ppu: self.ppu@,
            eram: self.eram@,
            wram: self.wram@,
            io: self.io_regs@,
            hram: self.hram@,
            ie: self.i_enable,
            boot: self.boot_rom@,
            boot_enabled: self.enable_boot_rom,
            div_counter: self.internal_div_counter,
            last_and: self.last_and_result,
        }
    }
}

fn interrupt_bit(source: Interrupts) -> (r: u8)
    ensures
        r == interrupt_mask(source),
{
    match source {
        Interrupts::VBlank => 1,
        Interrupts::LcdStat => 2,
        Interrupts::Timer => 4,
        Interrupts::Serial => 8,
        Interrupts::Joypad => 16,
    }
}

impl Bus {
    pub open spec fn wf(&self) -> bool {
        self@.wf()
    }

    pub fn new() -> (r: Bus)
        ensures
            r.wf(),
            r@.cart.is_none(),
            r@.boot_enabled,
            r@.div_counter == 0,
            !r@.last_and,
            r@.ie == 0,
            r@.io == Seq::new(0x80, |i: int| 0u8),
            r@.hram == Seq::new(0x80, |i: int| 0u8),
            r@.wram == Seq::new(0x2000, |i: int| 0u8),
            r@.eram == Seq::new(0x2000, |i: int| 0u8),
            r@.ppu == PPU::new_view(),
            r@.boot == boot_program(),
    {
        let r = Bus {
            rom: None,
            ppu: PPU::new(),
            eram: vec![0u8; 0x2000],
            wram: vec![0u8; 0x2000],
            io_regs: vec![0u8; 0x80],
            hram: vec![0u8; 0x80],
            i_enable: 0x00,
            boot_rom: vec![
                0x31, 0xFE, 0xFF, 0xAF, 0x21, 0xFF, 0x9F, 0x32, 0xCB, 0x7C, 0x20, 0xFB, 0x21, 0x26, 0xFF, 0x0E,
                0x11, 0x3E, 0x80, 0x32, 0xE2, 0x0C, 0x3E, 0xF3, 0xE2, 0x32, 0x3E, 0x77, 0x77, 0x3E, 0xFC, 0xE0,
                0x47, 0x11, 0x04, 0x01, 0x21, 0x10, 0x80, 0x1A, 0xCD, 0x95, 0x00, 0xCD, 0x96, 0x00, 0x13, 0x7B,
                0xFE, 0x34, 0x20, 0xF3, 0x11, 0xD8, 0x00, 0x06, 0x08, 0x1A, 0x13, 0x22, 0x23, 0x05, 0x20, 0xF9,
                0x3E, 0x19, 0xEA, 0x10, 0x99, 0x21, 0x2F, 0x99, 0x0E, 0x0C, 0x3D, 0x28, 0x08, 0x32, 0x0D, 0x20,
                0xF9, 0x2E, 0x0F, 0x18, 0xF3, 0x67, 0x3E, 0x64, 0x57, 0xE0, 0x42, 0x3E, 0x91, 0xE0, 0x40, 0x04,
                0x1E, 0x02, 0x0E, 0x0C, 0xF0, 0x44, 0xFE, 0x90, 0x20, 0xFA, 0x0D, 0x20, 0xF7, 0x1D, 0x20, 0xF2,
                0x0E, 0x13, 0x24, 0x7C, 0x1E, 0x83, 0xFE, 0x62, 0x28, 0x06, 0x1E, 0xC1, 0xFE, 0x64, 0x20, 0x06,
                0x7B, 0xE2, 0x0C, 0x3E, 0x87, 0xE2, 0xF0, 0x42, 0x90, 0xE0, 0x42, 0x15, 0x20, 0xD2, 0x05, 0x20,
                0x4F, 0x16, 0x20, 0x18, 0xCB, 0x4F, 0x06, 0x04, 0xC5, 0xCB, 0x11, 0x17, 0xC1, 0xCB, 0x11, 0x17,
                0x05, 0x20, 0xF5, 0x22, 0x23, 0x22, 0x23, 0xC9, 0xCE, 0xED, 0x66, 0x66, 0xCC, 0x0D, 0x00, 0x0B,
                0x03, 0x73, 0x00, 0x83, 0x00, 0x0C, 0x00, 0x0D, 0x00, 0x08, 0x11, 0x1F, 0x88, 0x89, 0x00, 0x0E,
                0xDC, 0xCC, 0x6E, 0xE6, 0xDD, 0xDD, 0xD9, 0x99, 0xBB, 0xBB, 0x67, 0x63, 0x6E, 0x0E, 0xEC, 0xCC,
                0xDD, 0xDC, 0x99, 0x9F, 0xBB, 0xB9, 0x33, 0x3E, 0x3C, 0x42, 0xB9, 0xA5, 0xB9, 0xA5, 0x42, 0x3C,
                0x21, 0x04, 0x01, 0x11, 0xA8, 0x00, 0x1A, 0x13, 0xBE, 0x20, 0xFE, 0x23, 0x7D, 0xFE, 0x34, 0x20,
                0xF5, 0x06, 0x19, 0x78, 0x86, 0x23, 0x05, 0x20, 0xFB, 0x86, 0x20, 0xFE, 0x3E, 0x01, 0xE0, 0x50,
            ],
            enable_boot_rom: true,
            internal_div_counter: 0,
            last_and_result: false,
        };
        assert(r@.boot =~= boot_program());
        assert(r@.io =~= Seq::new(0x80, |i: int| 0u8));
        assert(r@.hram =~= Seq::new(0x80, |i: int| 0u8));
        assert(r@.wram =~= Seq::new(0x2000, |i: int| 0u8));
        assert(r@.eram =~= Seq::new(0x2000, |i: int| 0u8));
        r
    }

    pub fn set_rom(&mut self, rom: Option<Cartridge>)
        ensures
            final(self)@ == (BusView {
                cart: match rom {
                    Some(c) => Some(c@),
                    None => None,
                },
                ..old(self)@
            }),
    {
        self.rom = rom;
    }

    pub fn read(&self, dir: usize) -> (r: u8)
        requires
            self.wf(),
            self@.can_access(dir as int),
        ensures
            r == self@.read(dir as int),
    {
        if dir <= 0x7FFF {
            if self.io_regs[0x50] == 0 && dir < 0x100 && self.enable_boot_rom {
                self.boot_rom[dir]
            } else {
                match &self.rom {
                    Some(c) => c.read(dir),
                    None => 0xFF,
                }
            }
        } else if dir <= 0x9FFF {
            self.ppu.read(dir)
        } else if dir <= 0xBFFF {
            self.eram[dir - 0xA000]
        } else if dir <= 0xDFFF {
            self.wram[dir - 0xC000]
        } else if dir <= 0xFDFF {
            self.wram[dir - 0xE000]
        } else if dir <= 0xFE9F {
            self.ppu.read_oam(dir)
        } else if dir <= 0xFEFF {
            0x00
        } else if dir <= 0xFF7F {
            if dir == 0xFF04 {
                (self.internal_div_counter / 256) as u8
            } else if 0xFF40 <= dir && dir <= 0xFF4B {
                self.ppu.read_reg(dir)
            } else {
                self.io_regs[dir - 0xFF00]
            }
        } else if dir <= 0xFFFE {
            self.hram[dir - 0xFF80]
        } else {
            self.i_enable
        }
    }

    pub fn write(&mut self, dir: usize, val: u8)
        requires
            old(self).wf(),
            0 <= dir <= 0xFFFF,
            dir <= 0x7FFF ==> old(self)@.cart.is_some(),
        ensures
            final(self)@ == old(self)@.write(dir as int, val),
            final(self).wf(),
    {
        if dir <= 0x7FFF {
            match &mut self.rom {
                Some(c) => c.write(dir, val),
                None => {},
            }
        } else if dir <= 0x9FFF {
            self.ppu.write(dir, val);
        } else if dir <= 0xBFFF {
            self.eram.set(dir - 0xA000, val);
        } else if dir <= 0xDFFF {
            self.wram.set(dir - 0xC000, val);
        } else if dir <= 0xFDFF {
            self.wram.set(dir - 0xE000, val);
        } else if dir <= 0xFE9F {
            self.ppu.write_oam(dir, val);
        } else if dir <= 0xFEFF {
        } else if dir <= 0xFF7F {
            if dir == 0xFF00 {
                let joyp = self.io_regs[0];
                self.io_regs.set(0, (joyp / 64) * 64 + ((val / 16) % 4) * 16 + joyp % 16);
            } else if dir == 0xFF04 {
                self.internal_div_counter = 0;
            } else if 0xFF40 <= dir && dir <= 0xFF4B {
                self.ppu.write_reg(dir, val);
            } else {
                self.io_regs.set(dir - 0xFF00, val);
                if dir == 0xFF50 && val != 0 {
                    self.enable_boot_rom = false;
                }
            }
        } else if dir <= 0xFFFE {
            self.hram.set(dir - 0xFF80, val);
        } else {
            self.i_enable = val;
        }
    }

    /// Sets the whole JOYP register, as the host's input does.
    pub fn set_joyp(&mut self, val: u8)
        requires
            old(self).wf(),
        ensures
            final(self)@ == (BusView { io: old(self)@.io.update(0, val), ..old(self)@ }),
            final(self).wf(),
    {
        self.io_regs.set(0, val);
    }

    pub fn set_enable_boot_rom(self, enable_boot_rom: bool) -> (r: Bus)
        ensures
            r@ == (BusView { boot_enabled: enable_boot_rom, ..self@ }),
    {
        let mut s = self;
        s.enable_boot_rom = enable_boot_rom;
        s
    }

    /// Writes the power-on register values.
    pub fn reset(&mut self)
        requires
            old(self).wf(),
        ensures
            final(self)@ == old(self)@.power_on(),
            final(self).wf(),
    {
        self.write(0xFF06, 0x00);
        self.write(0xFF07, 0x00);
        self.write(0xFF10, 0x80);
        self.write(0xFF05, 0x00);
        self.write(0xFF11, 0xBF);
        self.write(0xFF12, 0xF3);
        self.write(0xFF14, 0xBF);
        self.write(0xFF16, 0x3F);
        self.write(0xFF17, 0x00);
        self.write(0xFF19, 0xBF);
        self.write(0xFF1A, 0x7F);
        self.write(0xFF1B, 0xFF);
        self.write(0xFF1C, 0x9F);
        self.write(0xFF1E, 0xBF);
        self.write(0xFF20, 0xFF);
        self.write(0xFF21, 0x00);
        self.write(0xFF22, 0x00);
        self.write(0xFF23, 0xBF);
        self.write(0xFF24, 0x77);
        self.write(0xFF25, 0xF3);
        self.write(0xFF26, 0xF1);
        self.write(0xFF40, 0x91);
        self.write(0xFF42, 0x00);
        self.write(0xFF43, 0x00);
        self.write(0xFF45, 0x00);
        self.write(0xFF47, 0xFC);
        self.write(0xFF48, 0xFF);
        self.write(0xFF49, 0xFF);
        self.write(0xFF4A, 0x00);
        self.write(0xFF4B, 0x00);
        self.write(0xFFFF, 0x00);
    }

    /// All buttons released, no group selected.
    pub fn reset_joyp(&mut self)
        requires
            old(self).wf(),
        ensures
            final(self)@ == (BusView { io: old(self)@.io.update(0, 0xFF), ..old(self)@ }),
            final(self).wf(),
    {
        self.io_regs.set(0, 0xFF);
    }

    /// Counts DIV up by one: the divider moves on by 256 cycles.
    pub fn increase_div(&mut self)
        ensures
            final(self)@ == (BusView {
                div_counter: ((old(self)@.div_counter + 256) % 65536) as u16,
                ..old(self)@
            }),
    {
        self.internal_div_counter = ((self.internal_div_counter as u32 + 256) % 65536) as u16;
    }

    /// Counts TIMA up by one, wrapping; returns whether it overflowed.
    pub fn increase_tima(&mut self) -> (r: bool)
        requires
            old(self).wf(),
        ensures
            final(self)@ == (BusView {
                io: old(self)@.io.update(0x05, ((old(self)@.io[0x05] + 1) % 256) as u8),
                ..old(self)@
            }),
            final(self).wf(),
            r == (old(self)@.io[0x05] == 255),
    {
        let tima = self.io_regs[0x05];
        let r = tima == 255;
        self.io_regs.set(0x05, if r { 0 } else { tima + 1 });
        r
    }

    /// Requests an interrupt: raises its bit in IF.
    pub fn set_int(&mut self, source: Interrupts)
        requires
            old(self).wf(),
        ensures
            final(self)@ == old(self)@.request(interrupt_mask(source)),
            final(self).wf(),
    {
        let int_f = self.io_regs[0x0F] | interrupt_bit(source);
        self.io_regs.set(0x0F, int_f);
    }

    /// Advances the PPU and the timer by `cycles` CPU cycles.
    pub fn cycle(&mut self, cycles: u8)
        requires
            old(self).wf(),
        ensures
            final(self)@ == old(self)@.cycle(cycles as nat),
            final(self).wf(),
            final(self)@.cart == old(self)@.cart,
    {
        proof {
            let p = self@.ppu.cycle(cycles as nat);
            lemma_timer_run_cart(BusView { ppu: p.0, ..self@ }, cycles as nat);
            lemma_timer_run_cart(BusView { ppu: p.0, ..self@ }.request(1), cycles as nat);
            lemma_timer_run_cart(BusView { ppu: p.0, ..self@ }.request(2), cycles as nat);
            lemma_timer_run_cart(BusView { ppu: p.0, ..self@ }.request(1).request(2), cycles as nat);
        }
        let ppu_ints = self.ppu.cycle(cycles);
        if ppu_ints.0 {
            self.set_int(Interrupts::VBlank);
        }
        if ppu_ints.1 {
            self.set_int(Interrupts::LcdStat);
        }
        self.update_tima(cycles);
    }

    fn tima_increment(&mut self)
        requires
            old(self).wf(),
        ensures
            final(self)@ == old(self)@.tima_increment(),
            final(self).wf(),
    {
        let ghost b0 = self@;
        let overflow = self.increase_tima();
        if overflow {
            let tma = self.io_regs[0x06];
            self.io_regs.set(0x05, tma);
            assert(self@.io =~= b0.io.update(0x05, b0.io[0x06]));
            self.set_int(Interrupts::Timer);
        }
    }

    fn timer_tick(&mut self)
        requires
            old(self).wf(),
        ensures
            final(self)@ == old(self)@.timer_tick(),
            final(self).wf(),
    {
        let ghost b0 = self@;
        let tac = self.io_regs[0x07];
        let divisor: u16 = match tac % 4 {
            0 => 512,
            1 => 8,
            2 => 32,
            _ => 128,
        };
        let c1: u16 = ((self.internal_div_counter as u32 + 1) % 65536) as u16;
        let enabled = (tac / 4) % 2 == 1;
        assert(enabled == bit(tac, 2)) by {
            vstd::arithmetic::power2::lemma2_to64();
        }
        let and_result = (c1 / divisor) % 2 == 1 && enabled;
        assert(and_result == b0.and_result(c1));
        if !and_result && self.last_and_result {
            self.tima_increment();
        }
        self.internal_div_counter = c1;
        self.last_and_result = and_result;
    }

    fn update_tima(&mut self, cycles: u8)
        requires
            old(self).wf(),
        ensures
            final(self)@ == old(self)@.timer_run(cycles as nat),
            final(self).wf(),
    {
        let ghost b0 = self@;
        let mut done: u8 = 0;
        while done < cycles
            invariant
                self.wf(),
                done <= cycles,
                self@ == b0.timer_run(done as nat),
            decreases cycles - done,
        {
            self.timer_tick();
            done = done + 1;
        }
    }
}

} // verus!
