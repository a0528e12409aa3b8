use crate::cpu::{cost_ok, signed8, wrap16, CpuView, A, CPU, F, H, L};
use vstd::prelude::*;

verus! {

/// The eight 8-bit ALU operations on A.
#[derive(PartialEq, Eq, Structural, Clone, Copy, Debug)]
pub enum AluOp {
    Add,
    Adc,
    Sub,
    Sbc,
    And,
    Xor,
    Or,
    Cp,
}

/// The eight rotate and shift operations of the extended set.
#[derive(PartialEq, Eq, Structural, Clone, Copy, Debug)]
pub enum Shift {
    Rlc,
    Rrc,
    Rl,
    Rr,
    Sla,
    Sra,
    Swap,
    Srl,
}

/// The result of a rotate or shift of `v`, with `cin` the old carry.
pub open spec fn shift_result(k: Shift, v: u8, cin: bool) -> u8 {
    let ci: int = if cin { 1 } else { 0 };
    let v = v as int;
    (match k {
        Shift::Rlc => (v * 2) % 256 + v / 128,
        Shift::Rrc => v / 2 + (v % 2) * 128,
        Shift::Rl => (v * 2) % 256 + ci,
        Shift::Rr => v / 2 + ci * 128,
        Shift::Sla => (v * 2) % 256,
        Shift::Sra => v / 2 + (v / 128) * 128,
        Shift::Swap => (v % 16) * 16 + v / 16,
        Shift::Srl => v / 2,
    }) as u8
}

/// The bit a rotate or shift of `v` moves into the carry.
pub open spec fn shift_carry(k: Shift, v: u8) -> bool {
    match k {
        Shift::Rlc | Shift::Rl | Shift::Sla => v >= 128,
        Shift::Swap => false,
        _ => v % 2 == 1,
    }
}

/// The 16-bit sum of SP and a signed 8-bit operand, with the half carry
/// and carry out of its low byte.
pub open spec fn sp_plus(sp: u16, e: u8) -> (u16, bool, bool) {
    (wrap16(sp + signed8(e) + 0x10000), sp % 16 + e % 16 > 15, sp % 256 + e > 255)
}

impl CpuView {
    /// An 8-bit ALU operation of A with `v`: Z from the result, N for the
    /// subtractions, H the carry out of bit 3 (borrow into it), C the carry
    /// out of bit 7 (borrow); CP sets the flags of SUB and keeps A.
    pub open spec fn alu(self, op: AluOp, v: u8) -> CpuView {
        let a = self.reg(A as int);
        let cin: int = if (op == AluOp::Adc || op == AluOp::Sbc) && self.flag_c() {
            1
        } else {
            0
        };
        match op {
            AluOp::Add | AluOp::Adc => {
                let res = ((a + v + cin) % 256) as u8;
                self.with_reg(A as int, res).with_flags(
                    res == 0,
                    false,
                    a % 16 + v % 16 + cin > 15,
                    a + v + cin > 255,
                )
            },
            AluOp::Sub | AluOp::Sbc | AluOp::Cp => {
                let res = ((a - v - cin + 512) % 256) as u8;
                let s = if op == AluOp::Cp {
                    self
                } else {
                    self.with_reg(A as int, res)
                };
                s.with_flags(res == 0, true, a % 16 < v % 16 + cin, a < v + cin)
            },
            AluOp::And => {
                let res = a & v;
                self.with_reg(A as int, res).with_flags(res == 0, false, true, false)
            },
            AluOp::Xor => {
                let res = a ^ v;
                self.with_reg(A as int, res).with_flags(res == 0, false, false, false)
            },
            AluOp::Or => {
                let res = a | v;
                self.with_reg(A as int, res).with_flags(res == 0, false, false, false)
            },
        }
    }

    /// Condition `cc` of a conditional jump, call or return: NZ, Z, NC, C.
    pub open spec fn cond(self, cc: u8) -> bool {
        if cc == 0 {
            !self.flag_z()
        } else if cc == 1 {
            self.flag_z()
        } else if cc == 2 {
            !self.flag_c()
        } else {
            self.flag_c()
        }
    }

    #[verifier::opaque]
    pub open spec fn nop(self) -> CpuView {
        self.tick(4)
    }

    #[verifier::opaque]
    pub open spec fn ld_rr(self, dst: int, src: int) -> CpuView {
        self.with_reg(dst, self.reg(src)).tick(4)
    }

    /// LD r,(rr).
    #[verifier::opaque]
    pub open spec fn ld_r_ind(self, dst: int, hi: int, lo: int) -> CpuView {
        self.with_reg(dst, self.read(self.pair(hi, lo) as int)).tick(8)
    }

    /// LD (rr),r.
    #[verifier::opaque]
    pub open spec fn ld_ind_r(self, hi: int, lo: int, src: int) -> CpuView {
        self.store(self.pair(hi, lo) as int, self.reg(src)).tick(8)
    }

    #[verifier::opaque]
    pub open spec fn ld_r_u8(self, dst: int) -> CpuView {
        self.fetched().with_reg(dst, self.imm8()).tick(8)
    }

    #[verifier::opaque]
    pub open spec fn ld_hl_u8(self) -> CpuView {
        self.fetched().store(self.hl() as int, self.imm8()).tick(12)
    }

    /// LD (HL+),A and LD (HL-),A: HL moves by `delta` (1 or 0xFFFF).
    #[verifier::opaque]
    pub open spec fn ld_hl_step_a(self, delta: int) -> CpuView {
        let hl = self.hl();
        self.store(hl as int, self.reg(A as int)).with_pair(H as int, L as int, wrap16(hl + delta)).tick(
            8,
        )
    }

    /// LD A,(HL+) and LD A,(HL-).
    #[verifier::opaque]
    pub open spec fn ld_a_hl_step(self, delta: int) -> CpuView {
        let hl = self.hl();
        self.with_reg(A as int, self.read(hl as int)).with_pair(H as int, L as int, wrap16(hl + delta)).tick(
            8,
        )
    }

    /// LDH (u8),A.
    #[verifier::opaque]
    pub open spec fn ldh_u8_a(self) -> CpuView {
        self.fetched().store(0xFF00 + self.imm8(), self.reg(A as int)).tick(12)
    }

    /// LDH A,(u8).
    #[verifier::opaque]
    pub open spec fn ldh_a_u8(self) -> CpuView {
        self.fetched().with_reg(A as int, self.read(0xFF00 + self.imm8())).tick(12)
    }

    /// LD (0xFF00+C),A.
    #[verifier::opaque]
    pub open spec fn ldh_c_a(self) -> CpuView {
        self.store(0xFF00 + self.reg(crate::cpu::C as int), self.reg(A as int)).tick(8)
    }

    /// LD A,(0xFF00+C).
    #[verifier::opaque]
    pub open spec fn ldh_a_c(self) -> CpuView {
        self.with_reg(A as int, self.read(0xFF00 + self.reg(crate::cpu::C as int))).tick(8)
    }

    #[verifier::opaque]
    pub open spec fn ld_u16_a(self) -> CpuView {
        self.fetched2().store(self.imm16() as int, self.reg(A as int)).tick(16)
    }

    #[verifier::opaque]
    pub open spec fn ld_a_u16(self) -> CpuView {
        self.fetched2().with_reg(A as int, self.read(self.imm16() as int)).tick(16)
    }

    #[verifier::opaque]
    pub open spec fn ld_pair_u16(self, hi: int, lo: int) -> CpuView {
        self.fetched2().with_pair(hi, lo, self.imm16()).tick(12)
    }

    #[verifier::opaque]
    pub open spec fn ld_sp_u16(self) -> CpuView {
        self.fetched2().with_sp(self.imm16()).tick(12)
    }

    #[verifier::opaque]
    pub open spec fn ld_u16_sp(self) -> CpuView {
        let a = self.imm16();
        self.fetched2().store(a as int, (self.sp % 256) as u8).store(
            wrap16(a + 1) as int,
            (self.sp / 256) as u8,
        ).tick(20)
    }

    #[verifier::opaque]
    pub open spec fn ld_sp_hl(self) -> CpuView {
        self.with_sp(self.hl()).tick(8)
    }

    #[verifier::opaque]
    pub open spec fn pop_pair(self, hi: int, lo: int) -> CpuView {
        self.popped().with_pair(hi, lo, self.top_word()).tick(12)
    }

    /// POP AF: the low nibble of F stays zero.
    #[verifier::opaque]
    pub open spec fn pop_af(self) -> CpuView {
        let w = self.top_word();
        self.popped().with_reg(A as int, (w / 256) as u8).with_reg(
            F as int,
            (((w % 256) / 16) * 16) as u8,
        ).tick(12)
    }

    #[verifier::opaque]
    pub open spec fn push_pair(self, hi: int, lo: int) -> CpuView {
        self.push_word(self.pair(hi, lo)).tick(16)
    }

    pub open spec fn inc_value(self, v: u8) -> (u8, CpuView) {
        let res = ((v + 1) % 256) as u8;
        (res, self.with_flags(res == 0, false, v % 16 == 15, self.flag_c()))
    }

    pub open spec fn dec_value(self, v: u8) -> (u8, CpuView) {
        let res = ((v + 255) % 256) as u8;
        (res, self.with_flags(res == 0, true, v % 16 == 0, self.flag_c()))
    }

    #[verifier::opaque]
    pub open spec fn inc_r(self, r: int) -> CpuView {
        let (res, s) = self.inc_value(self.reg(r));
        s.with_reg(r, res).tick(4)
    }

    #[verifier::opaque]
    pub open spec fn dec_r(self, r: int) -> CpuView {
        let (res, s) = self.dec_value(self.reg(r));
        s.with_reg(r, res).tick(4)
    }

    #[verifier::opaque]
    pub open spec fn inc_hl_ind(self) -> CpuView {
        let (res, s) = self.inc_value(self.read(self.hl() as int));
        s.store(self.hl() as int, res).tick(12)
    }

    #[verifier::opaque]
    pub open spec fn dec_hl_ind(self) -> CpuView {
        let (res, s) = self.dec_value(self.read(self.hl() as int));
        s.store(self.hl() as int, res).tick(12)
    }

    /// DAA: A adjusted back to packed BCD after an addition or subtraction.
    #[verifier::opaque]
    pub open spec fn daa(self) -> CpuView {
        let a = self.reg(A as int) as int;
        let (res, c) = if !self.flag_n() {
            let c = self.flag_c() || a > 0x99;
            let hi = if c { 0x60int } else { 0 };
            let lo = if self.flag_h() || a % 16 > 9 { 6int } else { 0 };
            ((a + hi + lo) % 256, c)
        } else {
            let hi = if self.flag_c() { 0x60int } else { 0 };
            let lo = if self.flag_h() { 6int } else { 0 };
            ((a - hi - lo + 256) % 256, self.flag_c())
        };
        self.with_reg(A as int, res as u8).with_flags(res == 0, self.flag_n(), false, c).tick(4)
    }

    #[verifier::opaque]
    pub open spec fn scf(self) -> CpuView {
        self.with_flags(self.flag_z(), false, false, true).tick(4)
    }

    #[verifier::opaque]
    pub open spec fn ccf(self) -> CpuView {
        self.with_flags(self.flag_z(), false, false, !self.flag_c()).tick(4)
    }

    #[verifier::opaque]
    pub open spec fn cpl(self) -> CpuView {
        self.with_reg(A as int, (255 - self.reg(A as int)) as u8).with_flags(
            self.flag_z(),
            true,
            true,
            self.flag_c(),
        ).tick(4)
    }

    #[verifier::opaque]
    pub open spec fn alu_r(self, op: AluOp, r: int) -> CpuView {
        self.alu(op, self.reg(r)).tick(4)
    }

    #[verifier::opaque]
    pub open spec fn alu_hl(self, op: AluOp) -> CpuView {
        self.alu(op, self.read(self.hl() as int)).tick(8)
    }

    #[verifier::opaque]
    pub open spec fn alu_u8(self, op: AluOp) -> CpuView {
        self.fetched().alu(op, self.imm8()).tick(8)
    }

    #[verifier::opaque]
    pub open spec fn inc_pair(self, hi: int, lo: int) -> CpuView {
        self.with_pair(hi, lo, wrap16(self.pair(hi, lo) + 1)).tick(8)
    }

    #[verifier::opaque]
    pub open spec fn dec_pair(self, hi: int, lo: int) -> CpuView {
        self.with_pair(hi, lo, wrap16(self.pair(hi, lo) + 0xFFFF)).tick(8)
    }

    #[verifier::opaque]
    pub open spec fn inc_sp(self) -> CpuView {
        self.with_sp(wrap16(self.sp + 1)).tick(8)
    }

    #[verifier::opaque]
    pub open spec fn dec_sp(self) -> CpuView {
        self.with_sp(wrap16(self.sp + 0xFFFF)).tick(8)
    }

    /// ADD HL,v: H the carry out of bit 11, C out of bit 15, Z kept.
    #[verifier::opaque]
    pub open spec fn add_hl(self, v: u16) -> CpuView {
        let hl = self.hl();
        self.with_pair(H as int, L as int, wrap16(hl + v)).with_flags(
            self.flag_z(),
            false,
            hl % 4096 + v % 4096 > 4095,
            hl + v > 65535,
        ).tick(8)
    }

    #[verifier::opaque]
    pub open spec fn add_sp_i8(self) -> CpuView {
        let (r, h, c) = sp_plus(self.sp, self.imm8());
        self.fetched().with_sp(r).with_flags(false, false, h, c).tick(16)
    }

    #[verifier::opaque]
    pub open spec fn ld_hl_sp_i8(self) -> CpuView {
        let (r, h, c) = sp_plus(self.sp, self.imm8());
        self.fetched().with_pair(H as int, L as int, r).with_flags(false, false, h, c).tick(12)
    }

    /// RLCA, RRCA, RLA, RRA: the rotate of A, with Z cleared.
    #[verifier::opaque]
    pub open spec fn rot_a(self, k: Shift) -> CpuView {
        let v = self.reg(A as int);
        self.with_reg(A as int, shift_result(k, v, self.flag_c())).with_flags(
            false,
            false,
            false,
            shift_carry(k, v),
        ).tick(4)
    }

    #[verifier::opaque]
    pub open spec fn cb_r(self, k: Shift, r: int) -> CpuView {
        let v = self.reg(r);
        let res = shift_result(k, v, self.flag_c());
        self.with_reg(r, res).with_flags(res == 0, false, false, shift_carry(k, v)).tick(8)
    }

    #[verifier::opaque]
    pub open spec fn cb_hl(self, k: Shift) -> CpuView {
        let v = self.read(self.hl() as int);
        let res = shift_result(k, v, self.flag_c());
        self.store(self.hl() as int, res).with_flags(res == 0, false, false, shift_carry(k, v)).tick(
            16,
        )
    }

    /// BIT: Z set when the bit of `mask` is clear.
    #[verifier::opaque]
    pub open spec fn bit_r(self, mask: u8, r: int) -> CpuView {
        self.with_flags(self.reg(r) & mask == 0, false, true, self.flag_c()).tick(8)
    }

    #[verifier::opaque]
    pub open spec fn bit_hl(self, mask: u8) -> CpuView {
        self.with_flags(self.read(self.hl() as int) & mask == 0, false, true, self.flag_c()).tick(12)
    }

    /// RES: the bits outside `keep` cleared.
    #[verifier::opaque]
    pub open spec fn res_r(self, keep: u8, r: int) -> CpuView {
        self.with_reg(r, self.reg(r) & keep).tick(8)
    }

    #[verifier::opaque]
    pub open spec fn res_hl(self, keep: u8) -> CpuView {
        self.store(self.hl() as int, self.read(self.hl() as int) & keep).tick(16)
    }

    #[verifier::opaque]
    pub open spec fn set_r(self, mask: u8, r: int) -> CpuView {
        self.with_reg(r, self.reg(r) | mask).tick(8)
    }

    #[verifier::opaque]
    pub open spec fn set_hl(self, mask: u8) -> CpuView {
        self.store(self.hl() as int, self.read(self.hl() as int) | mask).tick(16)
    }

    /// STOP: the stopped flag set, and the byte after the opcode skipped.
    #[verifier::opaque]
    pub open spec fn stop_op(self) -> CpuView {
        CpuView { stop: true, ..self }.fetched().tick(4)
    }

    #[verifier::opaque]
    pub open spec fn halt_op(self) -> CpuView {
        CpuView { halt: true, ..self }.tick(4)
    }

    /// DI and EI arm a countdown; IME changes two steps on.
    #[verifier::opaque]
    pub open spec fn di_op(self) -> CpuView {
        CpuView { cycles_di: 2, ..self }.tick(4)
    }

    #[verifier::opaque]
    pub open spec fn ei_op(self) -> CpuView {
        CpuView { cycles_ei: 2, ..self }.tick(4)
    }

    /// An undefined opcode: recorded, and otherwise a NOP.
    #[verifier::opaque]
    pub open spec fn invalid(self) -> CpuView {
        CpuView { invalid_op: Some(self.op), ..self }.tick(4)
    }

    /// JR: PC moved by a signed offset, when `taken`.
    #[verifier::opaque]
    pub open spec fn jr(self, taken: bool) -> CpuView {
        let s = self.fetched();
        if taken {
            s.with_pc(wrap16(s.pc + signed8(self.imm8()) + 0x10000)).tick(12)
        } else {
            s.tick(8)
        }
    }

    #[verifier::opaque]
    pub open spec fn jp(self, taken: bool) -> CpuView {
        let s = self.fetched2();
        if taken {
            s.with_pc(self.imm16()).tick(16)
        } else {
            s.tick(12)
        }
    }

    #[verifier::opaque]
    pub open spec fn jp_hl(self) -> CpuView {
        self.with_pc(self.hl()).tick(4)
    }

    #[verifier::opaque]
    pub open spec fn call(self, taken: bool) -> CpuView {
        let s = self.fetched2();
        if taken {
            s.push_word(s.pc).with_pc(self.imm16()).tick(24)
        } else {
            s.tick(12)
        }
    }

    #[verifier::opaque]
    pub open spec fn ret_if(self, taken: bool) -> CpuView {
        if taken {
            self.popped().with_pc(self.top_word()).tick(20)
        } else {
            self.tick(8)
        }
    }

    #[verifier::opaque]
    pub open spec fn ret_op(self) -> CpuView {
        self.popped().with_pc(self.top_word()).tick(16)
    }

    /// RETI: a return that sets IME at once.
    #[verifier::opaque]
    pub open spec fn reti_op(self) -> CpuView {
        CpuView { ime: true, ..self.popped().with_pc(self.top_word()) }.tick(16)
    }

    #[verifier::opaque]
    pub open spec fn rst(self, v: u16) -> CpuView {
        self.push_word(self.pc).with_pc(v).tick(16)
    }
}

/// ADD A,r: the sum wraps modulo 256; C is set iff `a + b > 255`, H iff
/// `(a & 0xF) + (b & 0xF) > 0xF`, Z iff the wrapped sum is 0; N is cleared.
pub proof fn lemma_add_flags(s: CpuView, r: int)
    requires
        s.wf(),
        0 <= r < 8,
        r != F as int,
    ensures
        ({
            let t = s.alu_r(AluOp::Add, r);
            let a = s.reg(A as int);
            let b = s.reg(r);
            &&& t.reg(A as int) == (a + b) % 256
            &&& t.flag_c() == (a + b > 255)
            &&& t.flag_h() == ((a & 0xF) + (b & 0xF) > 0xF)
            &&& t.flag_z() == ((a + b) % 256 == 0)
            &&& !t.flag_n()
        }),
{
    reveal(CpuView::alu_r);
    let a = s.reg(A as int);
    let b = s.reg(r);
    assert(a & 0xF == a % 16) by (bit_vector);
    assert(b & 0xF == b % 16) by (bit_vector);
}

/// Reads have no side effects: loading a register from (rr) twice, with no
/// write between, loads the same byte both times and leaves memory as it was.
pub proof fn lemma_read_twice(s: CpuView, dst: int, hi: int, lo: int)
    requires
        s.wf(),
        0 <= dst < 8,
        0 <= hi < 8,
        0 <= lo < 8,
        dst != hi,
        dst != lo,
    ensures
        s.ld_r_ind(dst, hi, lo).ld_r_ind(dst, hi, lo).reg(dst) == s.ld_r_ind(dst, hi, lo).reg(dst),
        s.ld_r_ind(dst, hi, lo).reg(dst) == s.read(s.pair(hi, lo) as int),
        s.ld_r_ind(dst, hi, lo).bus == s.bus,
{
    reveal(CpuView::ld_r_ind);
}

pub(crate) fn alu(cpu: &mut CPU, op: AluOp, v: u8)
    requires
        old(cpu)@.ready(),
    ensures
        final(cpu)@ == old(cpu)@.alu(op, v),
        final(cpu)@.ready(),
{
    let a = cpu.registers[A];
    let cin: u16 = if (op == AluOp::Adc || op == AluOp::Sbc) && cpu.flag_c() {
        1
    } else {
        0
    };
    match op {
        AluOp::Add | AluOp::Adc => {
            let res = ((a as u16 + v as u16 + cin) % 256) as u8;
            cpu.set_reg(A, res);
            cpu.set_flags(
                res == 0,
                false,
                (a % 16) as u16 + (v % 16) as u16 + cin > 15,
                a as u16 + v as u16 + cin > 255,
            );
        },
        AluOp::Sub | AluOp::Sbc | AluOp::Cp => {
            let res = ((a as u16 + 512 - v as u16 - cin) % 256) as u8;
            if op != AluOp::Cp {
                cpu.set_reg(A, res);
            }
            cpu.set_flags(
                res == 0,
                true,
                ((a % 16) as u16) < (v % 16) as u16 + cin,
                (a as u16) < v as u16 + cin,
            );
        },
        AluOp::And => {
            let res = a & v;
            cpu.set_reg(A, res);
            cpu.set_flags(res == 0, false, true, false);
        },
        AluOp::Xor => {
            let res = a ^ v;
            cpu.set_reg(A, res);
            cpu.set_flags(res == 0, false, false, false);
        },
        AluOp::Or => {
            let res = a | v;
            cpu.set_reg(A, res);
            cpu.set_flags(res == 0, false, false, false);
        },
    }
}

pub(crate) fn shift_value(k: Shift, v: u8, cin: bool) -> (r: (u8, bool))
    ensures
        r.0 == shift_result(k, v, cin),
        r.1 == shift_carry(k, v),
{
    let ci: u8 = if cin { 1 } else { 0 };
    match k {
        Shift::Rlc => ((v % 128) * 2 + v / 128, v >= 128),
        Shift::Rrc => (v / 2 + (v % 2) * 128, v % 2 == 1),
        Shift::Rl => ((v % 128) * 2 + ci, v >= 128),
        Shift::Rr => (v / 2 + ci * 128, v % 2 == 1),
        Shift::Sla => ((v % 128) * 2, v >= 128),
        Shift::Sra => (v / 2 + (v / 128) * 128, v % 2 == 1),
        Shift::Swap => ((v % 16) * 16 + v / 16, false),
        Shift::Srl => (v / 2, v % 2 == 1),
    }
}

pub(crate) fn cond(cpu: &CPU, cc: u8) -> (r: bool)
    requires
        cpu@.wf(),
    ensures
        r == cpu@.cond(cc),
{
    if cc == 0 {
        !cpu.flag_z()
    } else if cc == 1 {
        cpu.flag_z()
    } else if cc == 2 {
        !cpu.flag_c()
    } else {
        cpu.flag_c()
    }
}

pub(crate) fn nop(cpu: &mut CPU)
    requires
        old(cpu)@.ready(),
    ensures
        final(cpu)@ == old(cpu)@.nop(),
        final(cpu)@.ready(),
        cost_ok(old(cpu)@.cycles, final(cpu)@.cycles),
{
    proof {
        reveal(CpuView::nop);
    }
    cpu.tick(4);
}

pub(crate) fn ld_rr(cpu: &mut CPU, dst: usize, src: usize)
    requires
        old(cpu)@.ready(),
        dst < 8,
        src < 8,
    ensures
        final(cpu)@ == old(cpu)@.ld_rr(dst as int, src as int),
        final(cpu)@.ready(),
        cost_ok(old(cpu)@.cycles, final(cpu)@.cycles),
{
    proof {
        reveal(CpuView::ld_rr);
    }
    let v = cpu.registers[src];
    cpu.set_reg(dst, v);
    cpu.tick(4);
}

pub(crate) fn ld_r_ind(cpu: &mut CPU, dst: usize, hi: usize, lo: usize)
    requires
        old(cpu)@.ready(),
        dst < 8,
        hi < 8,
        lo < 8,
    ensures
        final(cpu)@ == old(cpu)@.ld_r_ind(dst as int, hi as int, lo as int),
        final(cpu)@.ready(),
        cost_ok(old(cpu)@.cycles, final(cpu)@.cycles),
{
    proof {
        reveal(CpuView::ld_r_ind);
    }
    let v = cpu.read(cpu.get_pair(hi, lo));
    cpu.set_reg(dst, v);
    cpu.tick(8);
}

pub(crate) fn ld_ind_r(cpu: &mut CPU, hi: usize, lo: usize, src: usize)
    requires
        old(cpu)@.ready(),
        src < 8,
        hi < 8,
        lo < 8,
    ensures
        final(cpu)@ == old(cpu)@.ld_ind_r(hi as int, lo as int, src as int),
        final(cpu)@.ready(),
        cost_ok(old(cpu)@.cycles, final(cpu)@.cycles),
{
    proof {
        reveal(CpuView::ld_ind_r);
    }
    let a = cpu.get_pair(hi, lo);
    let v = cpu.registers[src];
    cpu.store(a, v);
    cpu.tick(8);
}

pub(crate) fn ld_r_u8(cpu: &mut CPU, dst: usize)
    requires
        old(cpu)@.ready(),
        dst < 8,
    ensures
        final(cpu)@ == old(cpu)@.ld_r_u8(dst as int),
        final(cpu)@.ready(),
        cost_ok(old(cpu)@.cycles, final(cpu)@.cycles),
{
    proof {
        reveal(CpuView::ld_r_u8);
    }
    let v = cpu.fetch();
    cpu.set_reg(dst, v);
    cpu.tick(8);
}

pub(crate) fn ld_hl_u8(cpu: &mut CPU)
    requires
        old(cpu)@.ready(),
    ensures
        final(cpu)@ == old(cpu)@.ld_hl_u8(),
        final(cpu)@.ready(),
        cost_ok(old(cpu)@.cycles, final(cpu)@.cycles),
{
    proof {
        reveal(CpuView::ld_hl_u8);
    }
    let v = cpu.fetch();
    let a = cpu.get_pair(H, L);
    cpu.store(a, v);
    cpu.tick(12);
}

pub(crate) fn ld_hl_step_a(cpu: &mut CPU, delta: u16)
    requires
        old(cpu)@.ready(),
    ensures
        final(cpu)@ == old(cpu)@.ld_hl_step_a(delta as int),
        final(cpu)@.ready(),
        cost_ok(old(cpu)@.cycles, final(cpu)@.cycles),
{
    proof {
        reveal(CpuView::ld_hl_step_a);
    }
    let hl = cpu.get_pair(H, L);
    let v = cpu.registers[A];
    cpu.store(hl, v);
    cpu.set_pair(H, L, ((hl as u32 + delta as u32) % 0x10000) as u16);
    cpu.tick(8);
}

pub(crate) fn ld_a_hl_step(cpu: &mut CPU, delta: u16)
    requires
        old(cpu)@.ready(),
    ensures
        final(cpu)@ == old(cpu)@.ld_a_hl_step(delta as int),
        final(cpu)@.ready(),
        cost_ok(old(cpu)@.cycles, final(cpu)@.cycles),
{
    proof {
        reveal(CpuView::ld_a_hl_step);
    }
    let hl = cpu.get_pair(H, L);
    let v = cpu.read(hl);
    cpu.set_reg(A, v);
    cpu.set_pair(H, L, ((hl as u32 + delta as u32) % 0x10000) as u16);
    cpu.tick(8);
}

pub(crate) fn ldh_u8_a(cpu: &mut CPU)
    requires
        old(cpu)@.ready(),
    ensures
        final(cpu)@ == old(cpu)@.ldh_u8_a(),
        final(cpu)@.ready(),
        cost_ok(old(cpu)@.cycles, final(cpu)@.cycles),
{
    proof {
        reveal(CpuView::ldh_u8_a);
    }
    let v = cpu.fetch();
    let a = cpu.registers[A];
    cpu.store(0xFF00 + v as u16, a);
    cpu.tick(12);
}

pub(crate) fn ldh_a_u8(cpu: &mut CPU)
    requires
        old(cpu)@.ready(),
    ensures
        final(cpu)@ == old(cpu)@.ldh_a_u8(),
        final(cpu)@.ready(),
        cost_ok(old(cpu)@.cycles, final(cpu)@.cycles),
{
    proof {
        reveal(CpuView::ldh_a_u8);
    }
    let v = cpu.fetch();
    let r = cpu.read(0xFF00 + v as u16);
    cpu.set_reg(A, r);
    cpu.tick(12);
}

pub(crate) fn ldh_c_a(cpu: &mut CPU)
    requires
        old(cpu)@.ready(),
    ensures
        final(cpu)@ == old(cpu)@.ldh_c_a(),
        final(cpu)@.ready(),
        cost_ok(old(cpu)@.cycles, final(cpu)@.cycles),
{
    proof {
        reveal(CpuView::ldh_c_a);
    }
    let c = cpu.registers[crate::cpu::C];
    let a = cpu.registers[A];
    cpu.store(0xFF00 + c as u16, a);
    cpu.tick(8);
}

pub(crate) fn ldh_a_c(cpu: &mut CPU)
    requires
        old(cpu)@.ready(),
    ensures
        final(cpu)@ == old(cpu)@.ldh_a_c(),
        final(cpu)@.ready(),
        cost_ok(old(cpu)@.cycles, final(cpu)@.cycles),
{
    proof {
        reveal(CpuView::ldh_a_c);
    }
    let c = cpu.registers[crate::cpu::C];
    let r = cpu.read(0xFF00 + c as u16);
    cpu.set_reg(A, r);
    cpu.tick(8);
}

pub(crate) fn ld_u16_a(cpu: &mut CPU)
    requires
        old(cpu)@.ready(),
    ensures
        final(cpu)@ == old(cpu)@.ld_u16_a(),
        final(cpu)@.ready(),
        cost_ok(old(cpu)@.cycles, final(cpu)@.cycles),
{
    proof {
        reveal(CpuView::ld_u16_a);
    }
    let d = cpu.fetch16();
    let a = cpu.registers[A];
    cpu.store(d, a);
    cpu.tick(16);
}

pub(crate) fn ld_a_u16(cpu: &mut CPU)
    requires
        old(cpu)@.ready(),
    ensures
        final(cpu)@ == old(cpu)@.ld_a_u16(),
        final(cpu)@.ready(),
        cost_ok(old(cpu)@.cycles, final(cpu)@.cycles),
{
    proof {
        reveal(CpuView::ld_a_u16);
    }
    let d = cpu.fetch16();
    let r = cpu.read(d);
    cpu.set_reg(A, r);
    cpu.tick(16);
}

pub(crate) fn ld_pair_u16(cpu: &mut CPU, hi: usize, lo: usize)
    requires
        old(cpu)@.ready(),
        hi < 8,
        lo < 8,
    ensures
        final(cpu)@ == old(cpu)@.ld_pair_u16(hi as int, lo as int),
        final(cpu)@.ready(),
        cost_ok(old(cpu)@.cycles, final(cpu)@.cycles),
{
    proof {
        reveal(CpuView::ld_pair_u16);
    }
    let v = cpu.fetch16();
    cpu.set_pair(hi, lo, v);
    cpu.tick(12);
}

pub(crate) fn ld_sp_u16(cpu: &mut CPU)
    requires
        old(cpu)@.ready(),
    ensures
        final(cpu)@ == old(cpu)@.ld_sp_u16(),
        final(cpu)@.ready(),
        cost_ok(old(cpu)@.cycles, final(cpu)@.cycles),
{
    proof {
        reveal(CpuView::ld_sp_u16);
    }
    let v = cpu.fetch16();
    cpu.sp = v;
    cpu.tick(12);
}

pub(crate) fn ld_u16_sp(cpu: &mut CPU)
    requires
        old(cpu)@.ready(),
    ensures
        final(cpu)@ == old(cpu)@.ld_u16_sp(),
        final(cpu)@.ready(),
        cost_ok(old(cpu)@.cycles, final(cpu)@.cycles),
{
    proof {
        reveal(CpuView::ld_u16_sp);
    }
    let d = cpu.fetch16();
    let sp = cpu.sp;
    cpu.store(d, (sp % 256) as u8);
    cpu.store(((d as u32 + 1) % 0x10000) as u16, (sp / 256) as u8);
    cpu.tick(20);
}

pub(crate) fn ld_sp_hl(cpu: &mut CPU)
    requires
        old(cpu)@.ready(),
    ensures
        final(cpu)@ == old(cpu)@.ld_sp_hl(),
        final(cpu)@.ready(),
        cost_ok(old(cpu)@.cycles, final(cpu)@.cycles),
{
    proof {
        reveal(CpuView::ld_sp_hl);
    }
    cpu.sp = cpu.get_pair(H, L);
    cpu.tick(8);
}

pub(crate) fn pop_pair(cpu: &mut CPU, hi: usize, lo: usize)
    requires
        old(cpu)@.ready(),
        hi < 8,
        lo < 8,
    ensures
        final(cpu)@ == old(cpu)@.pop_pair(hi as int, lo as int),
        final(cpu)@.ready(),
        cost_ok(old(cpu)@.cycles, final(cpu)@.cycles),
{
    proof {
        reveal(CpuView::pop_pair);
    }
    let w = cpu.pop_word();
    cpu.set_pair(hi, lo, w);
    cpu.tick(12);
}

pub(crate) fn pop_af(cpu: &mut CPU)
    requires
        old(cpu)@.ready(),
    ensures
        final(cpu)@ == old(cpu)@.pop_af(),
        final(cpu)@.ready(),
        cost_ok(old(cpu)@.cycles, final(cpu)@.cycles),
{
    proof {
        reveal(CpuView::pop_af);
    }
    let w = cpu.pop_word();
    cpu.set_reg(A, (w / 256) as u8);
    cpu.set_reg(F, (((w % 256) / 16) * 16) as u8);
    cpu.tick(12);
}

pub(crate) fn push_pair(cpu: &mut CPU, hi: usize, lo: usize)
    requires
        old(cpu)@.ready(),
        hi < 8,
        lo < 8,
    ensures
        final(cpu)@ == old(cpu)@.push_pair(hi as int, lo as int),
        final(cpu)@.ready(),
        cost_ok(old(cpu)@.cycles, final(cpu)@.cycles),
{
    proof {
        reveal(CpuView::push_pair);
    }
    let w = cpu.get_pair(hi, lo);
    cpu.push_word(w);
    cpu.tick(16);
}

fn inc_value(cpu: &mut CPU, v: u8) -> (r: u8)
    requires
        old(cpu)@.ready(),
    ensures
        (r, final(cpu)@) == old(cpu)@.inc_value(v),
        final(cpu)@.ready(),
{
    let res = ((v as u16 + 1) % 256) as u8;
    let c = cpu.flag_c();
    cpu.set_flags(res == 0, false, v % 16 == 15, c);
    res
}

fn dec_value(cpu: &mut CPU, v: u8) -> (r: u8)
    requires
        old(cpu)@.ready(),
    ensures
        (r, final(cpu)@) == old(cpu)@.dec_value(v),
        final(cpu)@.ready(),
{
    let res = ((v as u16 + 255) % 256) as u8;
    let c = cpu.flag_c();
    cpu.set_flags(res == 0, true, v % 16 == 0, c);
    res
}

pub(crate) fn inc_r(cpu: &mut CPU, r: usize)
    requires
        old(cpu)@.ready(),
        r < 8,
    ensures
        final(cpu)@ == old(cpu)@.inc_r(r as int),
        final(cpu)@.ready(),
        cost_ok(old(cpu)@.cycles, final(cpu)@.cycles),
{
    proof {
        reveal(CpuView::inc_r);
    }
    let v = cpu.registers[r];
    let res = inc_value(cpu, v);
    cpu.set_reg(r, res);
    cpu.tick(4);
}

pub(crate) fn dec_r(cpu: &mut CPU, r: usize)
    requires
        old(cpu)@.ready(),
        r < 8,
    ensures
        final(cpu)@ == old(cpu)@.dec_r(r as int),
        final(cpu)@.ready(),
        cost_ok(old(cpu)@.cycles, final(cpu)@.cycles),
{
    proof {
        reveal(CpuView::dec_r);
    }
    let v = cpu.registers[r];
    let res = dec_value(cpu, v);
    cpu.set_reg(r, res);
    cpu.tick(4);
}

pub(crate) fn inc_hl_ind(cpu: &mut CPU)
    requires
        old(cpu)@.ready(),
    ensures
        final(cpu)@ == old(cpu)@.inc_hl_ind(),
        final(cpu)@.ready(),
        cost_ok(old(cpu)@.cycles, final(cpu)@.cycles),
{
    proof {
        reveal(CpuView::inc_hl_ind);
    }
    let hl = cpu.get_pair(H, L);
    let v = cpu.read(hl);
    let res = inc_value(cpu, v);
    cpu.store(hl, res);
    cpu.tick(12);
}

pub(crate) fn dec_hl_ind(cpu: &mut CPU)
    requires
        old(cpu)@.ready(),
    ensures
        final(cpu)@ == old(cpu)@.dec_hl_ind(),
        final(cpu)@.ready(),
        cost_ok(old(cpu)@.cycles, final(cpu)@.cycles),
{
    proof {
        reveal(CpuView::dec_hl_ind);
    }
    let hl = cpu.get_pair(H, L);
    let v = cpu.read(hl);
    let res = dec_value(cpu, v);
    cpu.store(hl, res);
    cpu.tick(12);
}

pub(crate) fn daa(cpu: &mut CPU)
    requires
        old(cpu)@.ready(),
    ensures
        final(cpu)@ == old(cpu)@.daa(),
        final(cpu)@.ready(),
        cost_ok(old(cpu)@.cycles, final(cpu)@.cycles),
{
    proof {
        reveal(CpuView::daa);
    }
    let a = cpu.registers[A] as u16;
    let n = cpu.flag_n();
    let h = cpu.flag_h();
    let c0 = cpu.flag_c();
    let (res, c) = if !n {
        let c = c0 || a > 0x99;
        let hi: u16 = if c { 0x60 } else { 0 };
        let lo: u16 = if h || a % 16 > 9 { 6 } else { 0 };
        ((a + hi + lo) % 256, c)
    } else {
        let hi: u16 = if c0 { 0x60 } else { 0 };
        let lo: u16 = if h { 6 } else { 0 };
        ((a + 256 - hi - lo) % 256, c0)
    };
    cpu.set_reg(A, res as u8);
    cpu.set_flags(res == 0, n, false, c);
    cpu.tick(4);
}

pub(crate) fn scf(cpu: &mut CPU)
    requires
        old(cpu)@.ready(),
    ensures
        final(cpu)@ == old(cpu)@.scf(),
        final(cpu)@.ready(),
        cost_ok(old(cpu)@.cycles, final(cpu)@.cycles),
{
    proof {
        reveal(CpuView::scf);
    }
    let z = cpu.flag_z();
    cpu.set_flags(z, false, false, true);
    cpu.tick(4);
}

pub(crate) fn ccf(cpu: &mut CPU)
    requires
        old(cpu)@.ready(),
    ensures
        final(cpu)@ == old(cpu)@.ccf(),
        final(cpu)@.ready(),
        cost_ok(old(cpu)@.cycles, final(cpu)@.cycles),
{
    proof {
        reveal(CpuView::ccf);
    }
    let z = cpu.flag_z();
    let c = cpu.flag_c();
    cpu.set_flags(z, false, false, !c);
    cpu.tick(4);
}

pub(crate) fn cpl(cpu: &mut CPU)
    requires
        old(cpu)@.ready(),
    ensures
        final(cpu)@ == old(cpu)@.cpl(),
        final(cpu)@.ready(),
        cost_ok(old(cpu)@.cycles, final(cpu)@.cycles),
{
    proof {
        reveal(CpuView::cpl);
    }
    let a = cpu.registers[A];
    let z = cpu.flag_z();
    let c = cpu.flag_c();
    cpu.set_reg(A, 255 - a);
    cpu.set_flags(z, true, true, c);
    cpu.tick(4);
}

pub(crate) fn alu_r(cpu: &mut CPU, op: AluOp, r: usize)
    requires
        old(cpu)@.ready(),
        r < 8,
    ensures
        final(cpu)@ == old(cpu)@.alu_r(op, r as int),
        final(cpu)@.ready(),
        cost_ok(old(cpu)@.cycles, final(cpu)@.cycles),
{
    proof {
        reveal(CpuView::alu_r);
    }
    let v = cpu.registers[r];
    alu(cpu, op, v);
    cpu.tick(4);
}

pub(crate) fn alu_hl(cpu: &mut CPU, op: AluOp)
    requires
        old(cpu)@.ready(),
    ensures
        final(cpu)@ == old(cpu)@.alu_hl(op),
        final(cpu)@.ready(),
        cost_ok(old(cpu)@.cycles, final(cpu)@.cycles),
{
    proof {
        reveal(CpuView::alu_hl);
    }
    let v = cpu.read(cpu.get_pair(H, L));
    alu(cpu, op, v);
    cpu.tick(8);
}

pub(crate) fn alu_u8(cpu: &mut CPU, op: AluOp)
    requires
        old(cpu)@.ready(),
    ensures
        final(cpu)@ == old(cpu)@.alu_u8(op),
        final(cpu)@.ready(),
        cost_ok(old(cpu)@.cycles, final(cpu)@.cycles),
{
    proof {
        reveal(CpuView::alu_u8);
    }
    let v = cpu.fetch();
    alu(cpu, op, v);
    cpu.tick(8);
}

pub(crate) fn inc_pair(cpu: &mut CPU, hi: usize, lo: usize)
    requires
        old(cpu)@.ready(),
        hi < 8,
        lo < 8,
    ensures
        final(cpu)@ == old(cpu)@.inc_pair(hi as int, lo as int),
        final(cpu)@.ready(),
        cost_ok(old(cpu)@.cycles, final(cpu)@.cycles),
{
    proof {
        reveal(CpuView::inc_pair);
    }
    let v = cpu.get_pair(hi, lo);
    cpu.set_pair(hi, lo, ((v as u32 + 1) % 0x10000) as u16);
    cpu.tick(8);
}

pub(crate) fn dec_pair(cpu: &mut CPU, hi: usize, lo: usize)
    requires
        old(cpu)@.ready(),
        hi < 8,
        lo < 8,
    ensures
        final(cpu)@ == old(cpu)@.dec_pair(hi as int, lo as int),
        final(cpu)@.ready(),
        cost_ok(old(cpu)@.cycles, final(cpu)@.cycles),
{
    proof {
        reveal(CpuView::dec_pair);
    }
    let v = cpu.get_pair(hi, lo);
    cpu.set_pair(hi, lo, ((v as u32 + 0xFFFF) % 0x10000) as u16);
    cpu.tick(8);
}

pub(crate) fn inc_sp(cpu: &mut CPU)
    requires
        old(cpu)@.ready(),
    ensures
        final(cpu)@ == old(cpu)@.inc_sp(),
        final(cpu)@.ready(),
        cost_ok(old(cpu)@.cycles, final(cpu)@.cycles),
{
    proof {
        reveal(CpuView::inc_sp);
    }
    cpu.sp = ((cpu.sp as u32 + 1) % 0x10000) as u16;
    cpu.tick(8);
}

pub(crate) fn dec_sp(cpu: &mut CPU)
    requires
        old(cpu)@.ready(),
    ensures
        final(cpu)@ == old(cpu)@.dec_sp(),
        final(cpu)@.ready(),
        cost_ok(old(cpu)@.cycles, final(cpu)@.cycles),
{
    proof {
        reveal(CpuView::dec_sp);
    }
    cpu.sp = ((cpu.sp as u32 + 0xFFFF) % 0x10000) as u16;
    cpu.tick(8);
}

pub(crate) fn add_hl(cpu: &mut CPU, v: u16)
    requires
        old(cpu)@.ready(),
    ensures
        final(cpu)@ == old(cpu)@.add_hl(v),
        final(cpu)@.ready(),
        cost_ok(old(cpu)@.cycles, final(cpu)@.cycles),
{
    proof {
        reveal(CpuView::add_hl);
    }
    let hl = cpu.get_pair(H, L);
    let z = cpu.flag_z();
    cpu.set_pair(H, L, ((hl as u32 + v as u32) % 0x10000) as u16);
    cpu.set_flags(z, false, hl % 4096 + v % 4096 > 4095, hl as u32 + v as u32 > 65535);
    cpu.tick(8);
}

fn sp_plus_i8(sp: u16, e: u8) -> (r: (u16, bool, bool))
    ensures
        r == sp_plus(sp, e),
{
    let s: u32 = if e < 128 {
        sp as u32 + e as u32
    } else {
        sp as u32 + 0x10000 + e as u32 - 256
    };
    ((s % 0x10000) as u16, sp % 16 + (e % 16) as u16 > 15, sp % 256 + e as u16 > 255)
}

pub(crate) fn add_sp_i8(cpu: &mut CPU)
    requires
        old(cpu)@.ready(),
    ensures
        final(cpu)@ == old(cpu)@.add_sp_i8(),
        final(cpu)@.ready(),
        cost_ok(old(cpu)@.cycles, final(cpu)@.cycles),
{
    proof {
        reveal(CpuView::add_sp_i8);
    }
    let e = cpu.fetch();
    let (r, h, c) = sp_plus_i8(cpu.sp, e);
    cpu.sp = r;
    cpu.set_flags(false, false, h, c);
    cpu.tick(16);
}

pub(crate) fn ld_hl_sp_i8(cpu: &mut CPU)
    requires
        old(cpu)@.ready(),
    ensures
        final(cpu)@ == old(cpu)@.ld_hl_sp_i8(),
        final(cpu)@.ready(),
        cost_ok(old(cpu)@.cycles, final(cpu)@.cycles),
{
    proof {
        reveal(CpuView::ld_hl_sp_i8);
    }
    let e = cpu.fetch();
    let (r, h, c) = sp_plus_i8(cpu.sp, e);
    cpu.set_pair(H, L, r);
    cpu.set_flags(false, false, h, c);
    cpu.tick(12);
}

pub(crate) fn rot_a(cpu: &mut CPU, k: Shift)
    requires
        old(cpu)@.ready(),
    ensures
        final(cpu)@ == old(cpu)@.rot_a(k),
        final(cpu)@.ready(),
        cost_ok(old(cpu)@.cycles, final(cpu)@.cycles),
{
    proof {
        reveal(CpuView::rot_a);
    }
    let v = cpu.registers[A];
    let (res, carry) = shift_value(k, v, cpu.flag_c());
    cpu.set_reg(A, res);
    cpu.set_flags(false, false, false, carry);
    cpu.tick(4);
}

pub(crate) fn cb_r(cpu: &mut CPU, k: Shift, r: usize)
    requires
        old(cpu)@.ready(),
        r < 8,
    ensures
        final(cpu)@ == old(cpu)@.cb_r(k, r as int),
        final(cpu)@.ready(),
        cost_ok(old(cpu)@.cycles, final(cpu)@.cycles),
{
    proof {
        reveal(CpuView::cb_r);
    }
    let v = cpu.registers[r];
    let (res, carry) = shift_value(k, v, cpu.flag_c());
    cpu.set_reg(r, res);
    cpu.set_flags(res == 0, false, false, carry);
    cpu.tick(8);
}

pub(crate) fn cb_hl(cpu: &mut CPU, k: Shift)
    requires
        old(cpu)@.ready(),
    ensures
        final(cpu)@ == old(cpu)@.cb_hl(k),
        final(cpu)@.ready(),
        cost_ok(old(cpu)@.cycles, final(cpu)@.cycles),
{
    proof {
        reveal(CpuView::cb_hl);
    }
    let hl = cpu.get_pair(H, L);
    let v = cpu.read(hl);
    let (res, carry) = shift_value(k, v, cpu.flag_c());
    cpu.store(hl, res);
    cpu.set_flags(res == 0, false, false, carry);
    cpu.tick(16);
}

pub(crate) fn bit_r(cpu: &mut CPU, mask: u8, r: usize)
    requires
        old(cpu)@.ready(),
        r < 8,
    ensures
        final(cpu)@ == old(cpu)@.bit_r(mask, r as int),
        final(cpu)@.ready(),
        cost_ok(old(cpu)@.cycles, final(cpu)@.cycles),
{
    proof {
        reveal(CpuView::bit_r);
    }
    let v = cpu.registers[r];
    let c = cpu.flag_c();
    cpu.set_flags(v & mask == 0, false, true, c);
    cpu.tick(8);
}

pub(crate) fn bit_hl(cpu: &mut CPU, mask: u8)
    requires
        old(cpu)@.ready(),
    ensures
        final(cpu)@ == old(cpu)@.bit_hl(mask),
        final(cpu)@.ready(),
        cost_ok(old(cpu)@.cycles, final(cpu)@.cycles),
{
    proof {
        reveal(CpuView::bit_hl);
    }
    let v = cpu.read(cpu.get_pair(H, L));
    let c = cpu.flag_c();
    cpu.set_flags(v & mask == 0, false, true, c);
    cpu.tick(12);
}

pub(crate) fn res_r(cpu: &mut CPU, keep: u8, r: usize)
    requires
        old(cpu)@.ready(),
        r < 8,
    ensures
        final(cpu)@ == old(cpu)@.res_r(keep, r as int),
        final(cpu)@.ready(),
        cost_ok(old(cpu)@.cycles, final(cpu)@.cycles),
{
    proof {
        reveal(CpuView::res_r);
    }
    let v = cpu.registers[r];
    cpu.set_reg(r, v & keep);
    cpu.tick(8);
}

pub(crate) fn res_hl(cpu: &mut CPU, keep: u8)
    requires
        old(cpu)@.ready(),
    ensures
        final(cpu)@ == old(cpu)@.res_hl(keep),
        final(cpu)@.ready(),
        cost_ok(old(cpu)@.cycles, final(cpu)@.cycles),
{
    proof {
        reveal(CpuView::res_hl);
    }
    let hl = cpu.get_pair(H, L);
    let v = cpu.read(hl);
    cpu.store(hl, v & keep);
    cpu.tick(16);
}

pub(crate) fn set_r(cpu: &mut CPU, mask: u8, r: usize)
    requires
        old(cpu)@.ready(),
        r < 8,
    ensures
        final(cpu)@ == old(cpu)@.set_r(mask, r as int),
        final(cpu)@.ready(),
        cost_ok(old(cpu)@.cycles, final(cpu)@.cycles),
{
    proof {
        reveal(CpuView::set_r);
    }
    let v = cpu.registers[r];
    cpu.set_reg(r, v | mask);
    cpu.tick(8);
}

pub(crate) fn set_hl(cpu: &mut CPU, mask: u8)
    requires
        old(cpu)@.ready(),
    ensures
        final(cpu)@ == old(cpu)@.set_hl(mask),
        final(cpu)@.ready(),
        cost_ok(old(cpu)@.cycles, final(cpu)@.cycles),
{
    proof {
        reveal(CpuView::set_hl);
    }
    let hl = cpu.get_pair(H, L);
    let v = cpu.read(hl);
    cpu.store(hl, v | mask);
    cpu.tick(16);
}

pub(crate) fn jr(cpu: &mut CPU, taken: bool)
    requires
        old(cpu)@.ready(),
    ensures
        final(cpu)@ == old(cpu)@.jr(taken),
        final(cpu)@.ready(),
        cost_ok(old(cpu)@.cycles, final(cpu)@.cycles),
{
    proof {
        reveal(CpuView::jr);
    }
    let e = cpu.fetch();
    if taken {
        let pc = cpu.pc as u32;
        cpu.pc = (if e < 128 {
            (pc + e as u32) % 0x10000
        } else {
            (pc + 0x10000 + e as u32 - 256) % 0x10000
        }) as u16;
        cpu.tick(12);
    } else {
        cpu.tick(8);
    }
}

pub(crate) fn jp(cpu: &mut CPU, taken: bool)
    requires
        old(cpu)@.ready(),
    ensures
        final(cpu)@ == old(cpu)@.jp(taken),
        final(cpu)@.ready(),
        cost_ok(old(cpu)@.cycles, final(cpu)@.cycles),
{
    proof {
        reveal(CpuView::jp);
    }
    let d = cpu.fetch16();
    if taken {
        cpu.pc = d;
        cpu.tick(16);
    } else {
        cpu.tick(12);
    }
}

pub(crate) fn jp_hl(cpu: &mut CPU)
    requires
        old(cpu)@.ready(),
    ensures
        final(cpu)@ == old(cpu)@.jp_hl(),
        final(cpu)@.ready(),
        cost_ok(old(cpu)@.cycles, final(cpu)@.cycles),
{
    proof {
        reveal(CpuView::jp_hl);
    }
    cpu.pc = cpu.get_pair(H, L);
    cpu.tick(4);
}

pub(crate) fn call(cpu: &mut CPU, taken: bool)
    requires
        old(cpu)@.ready(),
    ensures
        final(cpu)@ == old(cpu)@.call(taken),
        final(cpu)@.ready(),
        cost_ok(old(cpu)@.cycles, final(cpu)@.cycles),
{
    proof {
        reveal(CpuView::call);
    }
    let d = cpu.fetch16();
    if taken {
        let pc = cpu.pc;
        cpu.push_word(pc);
        cpu.pc = d;
        cpu.tick(24);
    } else {
        cpu.tick(12);
    }
}

pub(crate) fn ret_if(cpu: &mut CPU, taken: bool)
    requires
        old(cpu)@.ready(),
    ensures
        final(cpu)@ == old(cpu)@.ret_if(taken),
        final(cpu)@.ready(),
        cost_ok(old(cpu)@.cycles, final(cpu)@.cycles),
{
    proof {
        reveal(CpuView::ret_if);
    }
    if taken {
        cpu.pc = cpu.pop_word();
        cpu.tick(20);
    } else {
        cpu.tick(8);
    }
}

pub(crate) fn ret_op(cpu: &mut CPU)
    requires
        old(cpu)@.ready(),
    ensures
        final(cpu)@ == old(cpu)@.ret_op(),
        final(cpu)@.ready(),
        cost_ok(old(cpu)@.cycles, final(cpu)@.cycles),
{
    proof {
        reveal(CpuView::ret_op);
    }
    cpu.pc = cpu.pop_word();
    cpu.tick(16);
}

pub(crate) fn reti_op(cpu: &mut CPU)
    requires
        old(cpu)@.ready(),
    ensures
        final(cpu)@ == old(cpu)@.reti_op(),
        final(cpu)@.ready(),
        cost_ok(old(cpu)@.cycles, final(cpu)@.cycles),
{
    proof {
        reveal(CpuView::reti_op);
    }
    cpu.pc = cpu.pop_word();
    cpu.ime = true;
    cpu.tick(16);
}

pub(crate) fn rst(cpu: &mut CPU, v: u16)
    requires
        old(cpu)@.ready(),
    ensures
        final(cpu)@ == old(cpu)@.rst(v),
        final(cpu)@.ready(),
        cost_ok(old(cpu)@.cycles, final(cpu)@.cycles),
{
    proof {
        reveal(CpuView::rst);
    }
    let pc = cpu.pc;
    cpu.push_word(pc);
    cpu.pc = v;
    cpu.tick(16);
}

} // verus!
