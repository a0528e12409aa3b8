use crate::bus::{lemma_write_wf, Bus, BusView};
use crate::decode::{execute, execute_cb};
use vstd::prelude::*;

verus! {

// Register indices; a pair is its high register followed by its low one.
pub const A: usize = 0;
pub const F: usize = 1;
pub const B: usize = 2;
pub const C: usize = 3;
pub const D: usize = 4;
pub const E: usize = 5;
pub const H: usize = 6;
pub const L: usize = 7;

/// The F register holding the four flags; its low nibble is zero.
pub open spec fn flags_byte(z: bool, n: bool, h: bool, c: bool) -> u8 {
    ((if z { 128int } else { 0 }) + (if n { 64int } else { 0 }) + (if h { 32int } else { 0 }) + (
    if c { 16int } else { 0 })) as u8
}

/// The cycle counter after `n` more cycles, wrapping at 2^64.
pub open spec fn add_cycles(c: u64, n: u64) -> u64 {
    ((c + n) % 0x1_0000_0000_0000_0000) as u64
}

/// The cycles from counter value `a` to counter value `b`, across a wrap.
pub open spec fn elapsed(a: u64, b: u64) -> u64 {
    if b >= a {
        (b - a) as u64
    } else {
        (b + 0x1_0000_0000_0000_0000 - a) as u64
    }
}

/// An instruction's cost: from 4 to 24 cycles passed between the counter
/// values `a` and `b`.
pub open spec fn cost_ok(a: u64, b: u64) -> bool {
    4 <= elapsed(a, b) <= 24
}

/// `v` on 16 bits, wrapping.
pub open spec fn wrap16(v: int) -> u16 {
    (v % 0x10000) as u16
}

/// A signed 8-bit operand, sign-extended.
pub open spec fn signed8(e: u8) -> int {
    if e < 128 {
        e as int
    } else {
        e - 256
    }
}

/// The state of the CPU, and of the bus it drives, as plain values.
pub struct CpuView {
    pub regs: Seq<u8>,
    pub pc: u16,
    pub sp: u16,
    pub bus: BusView,
    pub cycles: u64,
    pub stop: bool,
    pub halt: bool,
    pub cycles_di: u8,
    pub cycles_ei: u8,
    pub ime: bool,
    pub op: u8,
    pub invalid_op: Option<u8>,
}

impl CpuView {
    pub open spec fn wf(self) -> bool {
        self.regs.len() == 8 && self.bus.wf()
    }

    /// Well formed, with a cartridge loaded, so every address can be read.
    pub open spec fn ready(self) -> bool {
        self.wf() && self.bus.cart.is_some()
    }

    pub open spec fn reg(self, r: int) -> u8 {
        self.regs[r]
    }

    pub open spec fn flag_z(self) -> bool {
        (self.regs[F as int] / 128) % 2 == 1
    }

    pub open spec fn flag_n(self) -> bool {
        (self.regs[F as int] / 64) % 2 == 1
    }

    pub open spec fn flag_h(self) -> bool {
        (self.regs[F as int] / 32) % 2 == 1
    }

    pub open spec fn flag_c(self) -> bool {
        (self.regs[F as int] / 16) % 2 == 1
    }

    /// The register pair `hi:lo` as a 16-bit value.
    pub open spec fn pair(self, hi: int, lo: int) -> u16 {
        (self.regs[hi] * 256 + self.regs[lo]) as u16
    }

    pub open spec fn hl(self) -> u16 {
        self.pair(H as int, L as int)
    }

    pub open spec fn with_reg(self, r: int, v: u8) -> CpuView {
        CpuView { regs: self.regs.update(r, v), ..self }
    }

    pub open spec fn with_pair(self, hi: int, lo: int, v: u16) -> CpuView {
        self.with_reg(hi, (v / 256) as u8).with_reg(lo, (v % 256) as u8)
    }

    pub open spec fn with_flags(self, z: bool, n: bool, h: bool, c: bool) -> CpuView {
        self.with_reg(F as int, flags_byte(z, n, h, c))
    }

    pub open spec fn with_pc(self, pc: u16) -> CpuView {
        CpuView { pc, ..self }
    }

    pub open spec fn with_sp(self, sp: u16) -> CpuView {
        CpuView { sp, ..self }
    }

    pub open spec fn tick(self, n: u64) -> CpuView {
        CpuView { cycles: add_cycles(self.cycles, n), ..self }
    }

    pub open spec fn read(self, dir: int) -> u8 {
        self.bus.read(dir)
    }

    pub open spec fn store(self, dir: int, v: u8) -> CpuView {
        CpuView { bus: self.bus.write(dir, v), ..self }
    }

    /// The byte at PC.
    pub open spec fn imm8(self) -> u8 {
        self.read(self.pc as int)
    }

    /// PC moved past one fetched byte.
    pub open spec fn fetched(self) -> CpuView {
        self.with_pc(wrap16(self.pc + 1))
    }

    /// The little-endian word at PC.
    pub open spec fn imm16(self) -> u16 {
        (self.imm8() + self.fetched().imm8() * 256) as u16
    }

    /// PC moved past a fetched word.
    pub open spec fn fetched2(self) -> CpuView {
        self.fetched().fetched()
    }

    /// `v` pushed on the stack, high byte first.
    pub open spec fn push_word(self, v: u16) -> CpuView {
        let s1 = wrap16(self.sp + 0xFFFF);
        let s2 = wrap16(self.sp + 0xFFFE);
        self.store(s1 as int, (v / 256) as u8).store(s2 as int, (v % 256) as u8).with_sp(s2)
    }

    /// The little-endian word on top of the stack.
    pub open spec fn top_word(self) -> u16 {
        (self.read(self.sp as int) + self.read(wrap16(self.sp + 1) as int) * 256) as u16
    }

    /// The stack with its top word popped.
    pub open spec fn popped(self) -> CpuView {
        self.with_sp(wrap16(self.sp + 2))
    }

    /// The EI/DI countdowns moved on; at 1 the pending change commits.
    pub open spec fn update_ime(self) -> CpuView {
        let ime1 = if self.cycles_di == 1 { false } else { self.ime };
        let di1: u8 = if self.cycles_di == 2 { 1 } else { 0 };
        let ime2 = if self.cycles_ei == 1 { true } else { ime1 };
        let ei1: u8 = if self.cycles_ei == 2 { 1 } else { 0 };
        CpuView { cycles_di: di1, cycles_ei: ei1, ime: ime2, ..self }
    }

    /// The interrupts both enabled and requested.
    pub open spec fn pending(self) -> u8 {
        self.read(0xFFFF) & self.read(0xFF0F) & 0x1F
    }

    /// Vectoring to the handler of interrupt `i`: IME and the IF bit are
    /// cleared, two idle NOP cycles (8 cycles) pass, PC is pushed and set to
    /// the vector.
    pub open spec fn dispatch(self, i: int) -> CpuView {
        let cleared = (self.read(0xFF0F) & clear_mask(i)) as u8;
        CpuView { ime: false, ..self }.store(0xFF0F, cleared).tick(8).push_word(self.pc).with_pc(
            (0x40 + 8 * i) as u16,
        )
    }

    /// The interrupt check at the start of a step: a pending interrupt ends
    /// HALT; with IME set the lowest pending one is dispatched.
    pub open spec fn interrupt(self) -> CpuView {
        let p = self.pending();
        let s = if p != 0 { CpuView { halt: false, ..self } } else { self };
        if self.ime && p != 0 {
            s.dispatch(lowest_bit(p))
        } else {
            s
        }
    }

    /// One step: the EI/DI countdowns, the interrupt check, then either an
    /// idle cycle while halted or one instruction fetched at PC and run.
    pub open spec fn step(self) -> CpuView {
        let s = self.update_ime().interrupt();
        if s.halt {
            s.tick(4)
        } else {
            let op = s.imm8();
            CpuView { op, ..s.fetched() }.execute(op)
        }
    }

    /// The CPU after a reset: without the boot program the registers get
    /// the values it would have left, and the bus its power-on values.
    pub open spec fn after_reset(self, enable_boot_rom: bool) -> CpuView {
        if enable_boot_rom {
            self
        } else {
            CpuView {
                regs: seq![0x01u8, 0x80, 0x00, 0x13, 0x00, 0xD8, 0x01, 0x4D],
                sp: 0xFFFE,
                pc: 0x100,
                bus: self.bus.power_on(),
                ..self
            }
        }
    }
}

/// The index of the lowest set bit of a nonzero 5-bit value.
pub open spec fn lowest_bit(p: u8) -> int {
    if p % 2 == 1 {
        0
    } else if (p / 2) % 2 == 1 {
        1
    } else if (p / 4) % 2 == 1 {
        2
    } else if (p / 8) % 2 == 1 {
        3
    } else {
        4
    }
}

/// IF with bit `i` cleared, as a mask.
pub open spec fn clear_mask(i: int) -> u8 {
    if i == 0 {
        0xFE
    } else if i == 1 {
        0xFD
    } else if i == 2 {
        0xFB
    } else if i == 3 {
        0xF7
    } else {
        0xEF
    }
}

pub struct CPU {
    pub registers: [u8; 8],
    pub pc: u16,
    pub sp: u16,
    pub bus: Bus,
    pub cycles: u64,
    pub stop: bool,
    pub halt: bool,
    /// Countdowns armed by DI and EI; IME changes when one reaches 1.
    pub cycles_di: u8,
    pub cycles_ei: u8,
    pub ime: bool,
    /// The opcode being executed.
    pub op: u8,
    /// The last undefined opcode met, if any.
    pub invalid_op: Option<u8>,
}

impl View for CPU {
    type V = CpuView;

    open spec fn view(&self) -> CpuView {
        CpuView {
            regs: self.registers@,
            pc: self.pc,
            sp: self.sp,
            bus: self.bus@,
            cycles: self.cycles,
            stop: self.stop,
            halt: self.halt,
            cycles_di: self.cycles_di,
            cycles_ei: self.cycles_ei,
            ime: self.ime,
            op: self.op,
            invalid_op: self.invalid_op,
        }
    }
}

impl CPU {
    pub open spec fn ready(&self) -> bool {
        self@.ready()
    }

    pub fn new(bus: Bus) -> (r: CPU)
        requires
            bus.wf(),
        ensures
            r@ == (CpuView {
                regs: Seq::new(8, |i: int| 0u8),
                pc: 0,
                sp: 0,
                bus: bus@,
                cycles: 0,
                stop: false,
                halt: false,
                cycles_di: 0,
                cycles_ei: 0,
                ime: false,
                op: 0,
                invalid_op: None,
            }),
            r@.wf(),
    {
        let r = CPU {
            registers: [0u8; 8],
            pc: 0x0000,
            sp: 0x0000,
            bus,
            cycles: 0,
            stop: false,
            halt: false,
            cycles_di: 0,
            cycles_ei: 0,
            ime: false,
            op: 0,
            invalid_op: None,
        };
        assert(r@.regs =~= Seq::new(8, |i: int| 0u8));
        r
    }

    pub fn set_reg(&mut self, r: usize, v: u8)
        requires
            old(self)@.wf(),
            r < 8,
        ensures
            final(self)@ == old(self)@.with_reg(r as int, v),
            final(self)@.wf(),
    {
        self.registers[r] = v;
    }

    pub fn get_pair(&self, hi: usize, lo: usize) -> (r: u16)
        requires
            self@.wf(),
            hi < 8,
            lo < 8,
        ensures
            r == self@.pair(hi as int, lo as int),
    {
        self.registers[hi] as u16 * 256 + self.registers[lo] as u16
    }

    pub fn set_pair(&mut self, hi: usize, lo: usize, v: u16)
        requires
            old(self)@.wf(),
            hi < 8,
            lo < 8,
        ensures
            final(self)@ == old(self)@.with_pair(hi as int, lo as int, v),
            final(self)@.wf(),
    {
        self.set_reg(hi, (v / 256) as u8);
        self.set_reg(lo, (v % 256) as u8);
    }

    pub fn set_flags(&mut self, z: bool, n: bool, h: bool, c: bool)
        requires
            old(self)@.wf(),
        ensures
            final(self)@ == old(self)@.with_flags(z, n, h, c),
            final(self)@.wf(),
    {
        let v: u8 = (if z { 128u8 } else { 0 }) + (if n { 64u8 } else { 0 }) + (if h { 32u8 } else {
            0
        }) + (if c { 16u8 } else { 0 });
        self.set_reg(F, v);
    }

    pub fn flag_z(&self) -> (r: bool)
        requires
            self@.wf(),
        ensures
            r == self@.flag_z(),
    {
        (self.registers[F] / 128) % 2 == 1
    }

    pub fn flag_n(&self) -> (r: bool)
        requires
            self@.wf(),
        ensures
            r == self@.flag_n(),
    {
        (self.registers[F] / 64) % 2 == 1
    }

    pub fn flag_h(&self) -> (r: bool)
        requires
            self@.wf(),
        ensures
            r == self@.flag_h(),
    {
        (self.registers[F] / 32) % 2 == 1
    }

    pub fn flag_c(&self) -> (r: bool)
        requires
            self@.wf(),
        ensures
            r == self@.flag_c(),
    {
        (self.registers[F] / 16) % 2 == 1
    }

    pub(crate) fn tick(&mut self, n: u64)
        ensures
            final(self)@ == old(self)@.tick(n),
            elapsed(old(self)@.cycles, final(self)@.cycles) == n,
    {
        proof {
            lemma_add_cycles(self.cycles, n, 0);
        }
        self.cycles = ((self.cycles as u128 + n as u128) % 0x1_0000_0000_0000_0000) as u64;
    }

    pub fn read(&self, dir: u16) -> (r: u8)
        requires
            self@.ready(),
        ensures
            r == self@.read(dir as int),
    {
        self.bus.read(dir as usize)
    }

    pub fn store(&mut self, dir: u16, v: u8)
        requires
            old(self)@.ready(),
        ensures
            final(self)@ == old(self)@.store(dir as int, v),
            final(self)@.ready(),
    {
        proof {
            lemma_write_wf(self.bus@, dir as int, v);
        }
        self.bus.write(dir as usize, v);
    }

    /// Reads the byte at PC and moves PC past it.
    pub fn fetch(&mut self) -> (r: u8)
        requires
            old(self)@.ready(),
        ensures
            r == old(self)@.imm8(),
            final(self)@ == old(self)@.fetched(),
            final(self)@.ready(),
    {
        let val = self.bus.read(self.pc as usize);
        self.pc = ((self.pc as u32 + 1) % 0x10000) as u16;
        val
    }

    /// Reads the little-endian word at PC and moves PC past it.
    pub fn fetch16(&mut self) -> (r: u16)
        requires
            old(self)@.ready(),
        ensures
            r == old(self)@.imm16(),
            final(self)@ == old(self)@.fetched2(),
            final(self)@.ready(),
    {
        let lo = self.fetch();
        let hi = self.fetch();
        lo as u16 + hi as u16 * 256
    }

    pub fn push_word(&mut self, v: u16)
        requires
            old(self)@.ready(),
        ensures
            final(self)@ == old(self)@.push_word(v),
            final(self)@.ready(),
    {
        let s1 = ((self.sp as u32 + 0xFFFF) % 0x10000) as u16;
        let s2 = ((self.sp as u32 + 0xFFFE) % 0x10000) as u16;
        self.store(s1, (v / 256) as u8);
        self.store(s2, (v % 256) as u8);
        self.sp = s2;
    }

    pub fn pop_word(&mut self) -> (r: u16)
        requires
            old(self)@.ready(),
        ensures
            r == old(self)@.top_word(),
            final(self)@ == old(self)@.popped(),
            final(self)@.ready(),
    {
        let lo = self.read(self.sp);
        let hi = self.read(((self.sp as u32 + 1) % 0x10000) as u16);
        self.sp = ((self.sp as u32 + 2) % 0x10000) as u16;
        lo as u16 + hi as u16 * 256
    }

    fn update_ime(&mut self)
        ensures
            final(self)@ == old(self)@.update_ime(),
    {
        if self.cycles_di == 1 {
            self.ime = false;
        }
        self.cycles_di = if self.cycles_di == 2 { 1 } else { 0 };
        if self.cycles_ei == 1 {
            self.ime = true;
        }
        self.cycles_ei = if self.cycles_ei == 2 { 1 } else { 0 };
    }

    /// Sets (`cond`) or clears bit `index` of IF.
    pub fn set_if(&mut self, index: usize, cond: bool)
        requires
            old(self)@.ready(),
            index < 5,
        ensures
            final(self)@ == old(self)@.store(
                0xFF0F,
                if cond {
                    old(self)@.read(0xFF0F) | set_mask(index as int)
                } else {
                    old(self)@.read(0xFF0F) & clear_mask(index as int)
                },
            ),
            final(self)@.ready(),
    {
        let if_reg = self.read(0xFF0F);
        let set: u8 = match index {
            0 => 0x01,
            1 => 0x02,
            2 => 0x04,
            3 => 0x08,
            _ => 0x10,
        };
        let clear: u8 = match index {
            0 => 0xFE,
            1 => 0xFD,
            2 => 0xFB,
            3 => 0xF7,
            _ => 0xEF,
        };
        if cond {
            self.store(0xFF0F, if_reg | set);
        } else {
            self.store(0xFF0F, if_reg & clear);
        }
    }

    fn interrupt_handler(&mut self, index: usize)
        requires
            old(self)@.ready(),
            index < 5,
        ensures
            final(self)@ == old(self)@.dispatch(index as int),
            final(self)@.ready(),
            elapsed(old(self)@.cycles, final(self)@.cycles) == 8,
    {
        let pc = self.pc;
        self.ime = false;
        self.set_if(index, false);
        self.tick(8);
        self.push_word(pc);
        self.pc = 0x40 + 8 * index as u16;
    }

    /// The interrupt check at the start of a step.
    pub fn interrupt(&mut self)
        requires
            old(self)@.ready(),
        ensures
            final(self)@ == old(self)@.interrupt(),
            final(self)@.ready(),
            final(self)@.cycles == old(self)@.cycles || elapsed(old(self)@.cycles, final(self)@.cycles)
                == 8,
    {
        let p = self.read(0xFFFF) & self.read(0xFF0F) & 0x1F;
        if p != 0 {
            self.halt = false;
        }
        if !self.ime || p == 0 {
            return;
        }
        let i: usize = if p % 2 == 1 {
            0
        } else if (p / 2) % 2 == 1 {
            1
        } else if (p / 4) % 2 == 1 {
            2
        } else if (p / 8) % 2 == 1 {
            3
        } else {
            4
        };
        self.interrupt_handler(i);
    }
}

/// IF with bit `i` set, as a mask.
pub open spec fn set_mask(i: int) -> u8 {
    if i == 0 {
        0x01
    } else if i == 1 {
        0x02
    } else if i == 2 {
        0x04
    } else if i == 3 {
        0x08
    } else {
        0x10
    }
}

proof fn lemma_add_cycles(c: u64, x: u64, y: u64)
    requires
        x + y < 0x1_0000_0000_0000_0000,
    ensures
        add_cycles(add_cycles(c, x), y) == add_cycles(c, (x + y) as u64),
        elapsed(c, add_cycles(c, x)) == x,
{
}

proof fn lemma_elapsed_add(a: u64, b: u64, c: u64)
    requires
        elapsed(a, b) + elapsed(b, c) < 0x1_0000_0000_0000_0000,
    ensures
        elapsed(a, c) == elapsed(a, b) + elapsed(b, c),
{
}

impl CPU {
    /// Runs the extended instruction `op`.
    pub fn decode_cb(&mut self, op: u8)
        requires
            old(self)@.ready(),
        ensures
            final(self)@ == old(self)@.cb_exec(op),
            final(self)@.ready(),
            cost_ok(old(self)@.cycles, final(self)@.cycles),
    {
        execute_cb(self, op);
    }

    fn decode_execute(&mut self, op: u8)
        requires
            old(self)@.ready(),
        ensures
            final(self)@ == (CpuView { op, ..old(self)@ }).execute(op),
            final(self)@.ready(),
            cost_ok(old(self)@.cycles, final(self)@.cycles),
    {
        self.op = op;
        execute(self, op);
    }

    /// One CPU step; returns the cycles it took.
    pub fn cycle(&mut self) -> (r: u64)
        requires
            old(self)@.ready(),
        ensures
            final(self)@ == old(self)@.step(),
            final(self)@.ready(),
            r == elapsed(old(self)@.cycles, final(self)@.cycles),
            4 <= r <= 32,
    {
        let start = self.cycles;
        self.update_ime();
        self.interrupt();
        let ghost mid = self.cycles;
        if self.halt {
            self.tick(4);
        } else {
            let op = self.fetch();
            self.decode_execute(op);
        }
        let now = self.cycles;
        proof {
            lemma_elapsed_add(start, mid, now);
        }
        if now >= start {
            now - start
        } else {
            now + (u64::MAX - start) + 1
        }
    }

    /// Without the boot program, sets the registers and the bus to the
    /// values the boot program leaves.
    pub fn reset(&mut self, enable_boot_rom: bool)
        requires
            old(self)@.wf(),
        ensures
            final(self)@ == old(self)@.after_reset(enable_boot_rom),
            final(self)@.wf(),
            final(self)@.bus.cart == old(self)@.bus.cart,
    {
        if !enable_boot_rom {
            self.registers[A] = 0x01;
            self.registers[F] = 0x80;
            self.registers[B] = 0x00;
            self.registers[C] = 0x13;
            self.registers[D] = 0x00;
            self.registers[E] = 0xD8;
            self.registers[H] = 0x01;
            self.registers[L] = 0x4D;
            self.sp = 0xFFFE;
            self.pc = 0x100;
            self.bus.reset();
            assert(self.registers@ =~= seq![0x01u8, 0x80, 0x00, 0x13, 0x00, 0xD8, 0x01, 0x4D]);
        }
    }
}

} // verus!
