use crate::cpu::{cost_ok, CpuView, A, B, C, CPU, D, E, F, H, L};
use crate::inst_set;
use crate::ops::{AluOp, Shift};
use vstd::prelude::*;

verus! {

impl CpuView {

    /// The instruction with opcode `op`, its operands read from PC on.
    #[verifier::opaque]
    pub open spec fn execute(self, op: u8) -> CpuView {
        match op {
            0x00 => self.nop(),
            0x01 => self.ld_pair_u16(B as int, C as int),
            0x02 => self.ld_ind_r(B as int, C as int, A as int),
            0x03 => self.inc_pair(B as int, C as int),
            0x04 => self.inc_r(B as int),
            0x05 => self.dec_r(B as int),
            0x06 => self.ld_r_u8(B as int),
            0x07 => self.rot_a(Shift::Rlc),
            0x08 => self.ld_u16_sp(),
            0x09 => self.add_hl(self.pair(B as int, C as int)),
            0x0A => self.ld_r_ind(A as int, B as int, C as int),
            0x0B => self.dec_pair(B as int, C as int),
            0x0C => self.inc_r(C as int),
            0x0D => self.dec_r(C as int),
            0x0E => self.ld_r_u8(C as int),
            0x0F => self.rot_a(Shift::Rrc),
            0x10 => self.stop_op(),
            0x11 => self.ld_pair_u16(D as int, E as int),
            0x12 => self.ld_ind_r(D as int, E as int, A as int),
            0x13 => self.inc_pair(D as int, E as int),
            0x14 => self.inc_r(D as int),
            0x15 => self.dec_r(D as int),
            0x16 => self.ld_r_u8(D as int),
            0x17 => self.rot_a(Shift::Rl),
            0x18 => self.jr(true),
            0x19 => self.add_hl(self.pair(D as int, E as int)),
            0x1A => self.ld_r_ind(A as int, D as int, E as int),
            0x1B => self.dec_pair(D as int, E as int),
            0x1C => self.inc_r(E as int),
            0x1D => self.dec_r(E as int),
            0x1E => self.ld_r_u8(E as int),
            0x1F => self.rot_a(Shift::Rr),
            0x20 => self.jr(self.cond(0)),
            0x21 => self.ld_pair_u16(H as int, L as int),
            0x22 => self.ld_hl_step_a(1),
            0x23 => self.inc_pair(H as int, L as int),
            0x24 => self.inc_r(H as int),
            0x25 => self.dec_r(H as int),
            0x26 => self.ld_r_u8(H as int),
            0x27 => self.daa(),
            0x28 => self.jr(self.cond(1)),
            0x29 => self.add_hl(self.pair(H as int, L as int)),
            0x2A => self.ld_a_hl_step(1),
            0x2B => self.dec_pair(H as int, L as int),
            0x2C => self.inc_r(L as int),
            0x2D => self.dec_r(L as int),
            0x2E => self.ld_r_u8(L as int),
            0x2F => self.cpl(),
            0x30 => self.jr(self.cond(2)),
            0x31 => self.ld_sp_u16(),
            0x32 => self.ld_hl_step_a(0xFFFF),
            0x33 => self.inc_sp(),
            0x34 => self.inc_hl_ind(),
            0x35 => self.dec_hl_ind(),
            0x36 => self.ld_hl_u8(),
            0x37 => self.scf(),
            0x38 => self.jr(self.cond(3)),
            0x39 => self.add_hl(self.sp),
            0x3A => self.ld_a_hl_step(0xFFFF),
            0x3B => self.dec_sp(),
            0x3C => self.inc_r(A as int),
            0x3D => self.dec_r(A as int),
            0x3E => self.ld_r_u8(A as int),
            0x3F => self.ccf(),
            0x40 => self.ld_rr(B as int, B as int),
            0x41 => self.ld_rr(B as int, C as int),
            0x42 => self.ld_rr(B as int, D as int),
            0x43 => self.ld_rr(B as int, E as int),
            0x44 => self.ld_rr(B as int, H as int),
            0x45 => self.ld_rr(B as int, L as int),
            0x46 => self.ld_r_ind(B as int, H as int, L as int),
            0x47 => self.ld_rr(B as int, A as int),
            0x48 => self.ld_rr(C as int, B as int),
            0x49 => self.ld_rr(C as int, C as int),
            0x4A => self.ld_rr(C as int, D as int),
            0x4B => self.ld_rr(C as int, E as int),
            0x4C => self.ld_rr(C as int, H as int),
            0x4D => self.ld_rr(C as int, L as int),
            0x4E => self.ld_r_ind(C as int, H as int, L as int),
            0x4F => self.ld_rr(C as int, A as int),
            0x50 => self.ld_rr(D as int, B as int),
            0x51 => self.ld_rr(D as int, C as int),
            0x52 => self.ld_rr(D as int, D as int),
            0x53 => self.ld_rr(D as int, E as int),
            0x54 => self.ld_rr(D as int, H as int),
            0x55 => self.ld_rr(D as int, L as int),
            0x56 => self.ld_r_ind(D as int, H as int, L as int),
            0x57 => self.ld_rr(D as int, A as int),
            0x58 => self.ld_rr(E as int, B as int),
            0x59 => self.ld_rr(E as int, C as int),
            0x5A => self.ld_rr(E as int, D as int),
            0x5B => self.ld_rr(E as int, E as int),
            0x5C => self.ld_rr(E as int, H as int),
            0x5D => self.ld_rr(E as int, L as int),
            0x5E => self.ld_r_ind(E as int, H as int, L as int),
            0x5F => self.ld_rr(E as int, A as int),
            0x60 => self.ld_rr(H as int, B as int),
            0x61 => self.ld_rr(H as int, C as int),
            0x62 => self.ld_rr(H as int, D as int),
            0x63 => self.ld_rr(H as int, E as int),
            0x64 => self.ld_rr(H as int, H as int),
            0x65 => self.ld_rr(H as int, L as int),
            0x66 => self.ld_r_ind(H as int, H as int, L as int),
            0x67 => self.ld_rr(H as int, A as int),
            0x68 => self.ld_rr(L as int, B as int),
            0x69 => self.ld_rr(L as int, C as int),
            0x6A => self.ld_rr(L as int, D as int),
            0x6B => self.ld_rr(L as int, E as int),
            0x6C => self.ld_rr(L as int, H as int),
            0x6D => self.ld_rr(L as int, L as int),
            0x6E => self.ld_r_ind(L as int, H as int, L as int),
            0x6F => self.ld_rr(L as int, A as int),
            0x70 => self.ld_ind_r(H as int, L as int, B as int),
            0x71 => self.ld_ind_r(H as int, L as int, C as int),
            0x72 => self.ld_ind_r(H as int, L as int, D as int),
            0x73 => self.ld_ind_r(H as int, L as int, E as int),
            0x74 => self.ld_ind_r(H as int, L as int, H as int),
            0x75 => self.ld_ind_r(H as int, L as int, L as int),
            0x76 => self.halt_op(),
            0x77 => self.ld_ind_r(H as int, L as int, A as int),
            0x78 => self.ld_rr(A as int, B as int),
            0x79 => self.ld_rr(A as int, C as int),
            0x7A => self.ld_rr(A as int, D as int),
            0x7B => self.ld_rr(A as int, E as int),
            0x7C => self.ld_rr(A as int, H as int),
            0x7D => self.ld_rr(A as int, L as int),
            0x7E => self.ld_r_ind(A as int, H as int, L as int),
            0x7F => self.ld_rr(A as int, A as int),
            0x80 => self.alu_r(AluOp::Add, B as int),
            0x81 => self.alu_r(AluOp::Add, C as int),
            0x82 => self.alu_r(AluOp::Add, D as int),
            0x83 => self.alu_r(AluOp::Add, E as int),
            0x84 => self.alu_r(AluOp::Add, H as int),
            0x85 => self.alu_r(AluOp::Add, L as int),
            0x86 => self.alu_hl(AluOp::Add),
            0x87 => self.alu_r(AluOp::Add, A as int),
            0x88 => self.alu_r(AluOp::Adc, B as int),
            0x89 => self.alu_r(AluOp::Adc, C as int),
            0x8A => self.alu_r(AluOp::Adc, D as int),
            0x8B => self.alu_r(AluOp::Adc, E as int),
            0x8C => self.alu_r(AluOp::Adc, H as int),
            0x8D => self.alu_r(AluOp::Adc, L as int),
            0x8E => self.alu_hl(AluOp::Adc),
            0x8F => self.alu_r(AluOp::Adc, A as int),
            0x90 => self.alu_r(AluOp::Sub, B as int),
            0x91 => self.alu_r(AluOp::Sub, C as int),
            0x92 => self.alu_r(AluOp::Sub, D as int),
            0x93 => self.alu_r(AluOp::Sub, E as int),
            0x94 => self.alu_r(AluOp::Sub, H as int),
            0x95 => self.alu_r(AluOp::Sub, L as int),
            0x96 => self.alu_hl(AluOp::Sub),
            0x97 => self.alu_r(AluOp::Sub, A as int),
            0x98 => self.alu_r(AluOp::Sbc, B as int),
            0x99 => self.alu_r(AluOp::Sbc, C as int),
            0x9A => self.alu_r(AluOp::Sbc, D as int),
            0x9B => self.alu_r(AluOp::Sbc, E as int),
            0x9C => self.alu_r(AluOp::Sbc, H as int),
            0x9D => self.alu_r(AluOp::Sbc, L as int),
            0x9E => self.alu_hl(AluOp::Sbc),
            0x9F => self.alu_r(AluOp::Sbc, A as int),
            0xA0 => self.alu_r(AluOp::And, B as int),
            0xA1 => self.alu_r(AluOp::And, C as int),
            0xA2 => self.alu_r(AluOp::And, D as int),
            0xA3 => self.alu_r(AluOp::And, E as int),
            0xA4 => self.alu_r(AluOp::And, H as int),
            0xA5 => self.alu_r(AluOp::And, L as int),
            0xA6 => self.alu_hl(AluOp::And),
            0xA7 => self.alu_r(AluOp::And, A as int),
            0xA8 => self.alu_r(AluOp::Xor, B as int),
            0xA9 => self.alu_r(AluOp::Xor, C as int),
            0xAA => self.alu_r(AluOp::Xor, D as int),
            0xAB => self.alu_r(AluOp::Xor, E as int),
            0xAC => self.alu_r(AluOp::Xor, H as int),
            0xAD => self.alu_r(AluOp::Xor, L as int),
            0xAE => self.alu_hl(AluOp::Xor),
            0xAF => self.alu_r(AluOp::Xor, A as int),
            0xB0 => self.alu_r(AluOp::Or, B as int),
            0xB1 => self.alu_r(AluOp::Or, C as int),
            0xB2 => self.alu_r(AluOp::Or, D as int),
            0xB3 => self.alu_r(AluOp::Or, E as int),
            0xB4 => self.alu_r(AluOp::Or, H as int),
            0xB5 => self.alu_r(AluOp::Or, L as int),
            0xB6 => self.alu_hl(AluOp::Or),
            0xB7 => self.alu_r(AluOp::Or, A as int),
            0xB8 => self.alu_r(AluOp::Cp, B as int),
            0xB9 => self.alu_r(AluOp::Cp, C as int),
            0xBA => self.alu_r(AluOp::Cp, D as int),
            0xBB => self.alu_r(AluOp::Cp, E as int),
            0xBC => self.alu_r(AluOp::Cp, H as int),
            0xBD => self.alu_r(AluOp::Cp, L as int),
            0xBE => self.alu_hl(AluOp::Cp),
            0xBF => self.alu_r(AluOp::Cp, A as int),
            0xC0 => self.ret_if(self.cond(0)),
            0xC1 => self.pop_pair(B as int, C as int),
            0xC2 => self.jp(self.cond(0)),
            0xC3 => self.jp(true),
            0xC4 => self.call(self.cond(0)),
            0xC5 => self.push_pair(B as int, C as int),
            0xC6 => self.alu_u8(AluOp::Add),
            0xC7 => self.rst(0x00),
            0xC8 => self.ret_if(self.cond(1)),
            0xC9 => self.ret_op(),
            0xCA => self.jp(self.cond(1)),
            0xCB => self.fetched().cb_exec(self.imm8()),
            0xCC => self.call(self.cond(1)),
            0xCD => self.call(true),
            0xCE => self.alu_u8(AluOp::Adc),
            0xCF => self.rst(0x08),
            0xD0 => self.ret_if(self.cond(2)),
            0xD1 => self.pop_pair(D as int, E as int),
            0xD2 => self.jp(self.cond(2)),
            0xD3 => self.invalid(),
            0xD4 => self.call(self.cond(2)),
            0xD5 => self.push_pair(D as int, E as int),
            0xD6 => self.alu_u8(AluOp::Sub),
            0xD7 => self.rst(0x10),
            0xD8 => self.ret_if(self.cond(3)),
            0xD9 => self.reti_op(),
            0xDA => self.jp(self.cond(3)),
            0xDB => self.invalid(),
            0xDC => self.call(self.cond(3)),
            0xDD => self.invalid(),
            0xDE => self.alu_u8(AluOp::Sbc),
            0xDF => self.rst(0x18),
            0xE0 => self.ldh_u8_a(),
            0xE1 => self.pop_pair(H as int, L as int),
            0xE2 => self.ldh_c_a(),
            0xE3 => self.invalid(),
            0xE4 => self.invalid(),
            0xE5 => self.push_pair(H as int, L as int),
            0xE6 => self.alu_u8(AluOp::And),
            0xE7 => self.rst(0x20),
            0xE8 => self.add_sp_i8(),
            0xE9 => self.jp_hl(),
            0xEA => self.ld_u16_a(),
            0xEB => self.invalid(),
            0xEC => self.invalid(),
            0xED => self.invalid(),
            0xEE => self.alu_u8(AluOp::Xor),
            0xEF => self.rst(0x28),
            0xF0 => self.ldh_a_u8(),
            0xF1 => self.pop_af(),
            0xF2 => self.ldh_a_c(),
            0xF3 => self.di_op(),
            0xF4 => self.invalid(),
            0xF5 => self.push_pair(A as int, F as int),
            0xF6 => self.alu_u8(AluOp::Or),
            0xF7 => self.rst(0x30),
            0xF8 => self.ld_hl_sp_i8(),
            0xF9 => self.ld_sp_hl(),
            0xFA => self.ld_a_u16(),
            0xFB => self.ei_op(),
            0xFC => self.invalid(),
            0xFD => self.invalid(),
            0xFE => self.alu_u8(AluOp::Cp),
            0xFF => self.rst(0x38),
        }
    }

    /// The extended instruction `op`, the byte after the 0xCB prefix.
    #[verifier::opaque]
    pub open spec fn cb_exec(self, op: u8) -> CpuView {
        match op {
            0x00 => self.cb_r(Shift::Rlc, B as int),
            0x01 => self.cb_r(Shift::Rlc, C as int),
            0x02 => self.cb_r(Shift::Rlc, D as int),
            0x03 => self.cb_r(Shift::Rlc, E as int),
            0x04 => self.cb_r(Shift::Rlc, H as int),
            0x05 => self.cb_r(Shift::Rlc, L as int),
            0x06 => self.cb_hl(Shift::Rlc),
            0x07 => self.cb_r(Shift::Rlc, A as int),
            0x08 => self.cb_r(Shift::Rrc, B as int),
            0x09 => self.cb_r(Shift::Rrc, C as int),
            0x0A => self.cb_r(Shift::Rrc, D as int),
            0x0B => self.cb_r(Shift::Rrc, E as int),
            0x0C => self.cb_r(Shift::Rrc, H as int),
            0x0D => self.cb_r(Shift::Rrc, L as int),
            0x0E => self.cb_hl(Shift::Rrc),
            0x0F => self.cb_r(Shift::Rrc, A as int),
            0x10 => self.cb_r(Shift::Rl, B as int),
            0x11 => self.cb_r(Shift::Rl, C as int),
            0x12 => self.cb_r(Shift::Rl, D as int),
            0x13 => self.cb_r(Shift::Rl, E as int),
            0x14 => self.cb_r(Shift::Rl, H as int),
            0x15 => self.cb_r(Shift::Rl, L as int),
            0x16 => self.cb_hl(Shift::Rl),
            0x17 => self.cb_r(Shift::Rl, A as int),
            0x18 => self.cb_r(Shift::Rr, B as int),
            0x19 => self.cb_r(Shift::Rr, C as int),
            0x1A => self.cb_r(Shift::Rr, D as int),
            0x1B => self.cb_r(Shift::Rr, E as int),
            0x1C => self.cb_r(Shift::Rr, H as int),
            0x1D => self.cb_r(Shift::Rr, L as int),
            0x1E => self.cb_hl(Shift::Rr),
            0x1F => self.cb_r(Shift::Rr, A as int),
            0x20 => self.cb_r(Shift::Sla, B as int),
            0x21 => self.cb_r(Shift::Sla, C as int),
            0x22 => self.cb_r(Shift::Sla, D as int),
            0x23 => self.cb_r(Shift::Sla, E as int),
            0x24 => self.cb_r(Shift::Sla, H as int),
            0x25 => self.cb_r(Shift::Sla, L as int),
            0x26 => self.cb_hl(Shift::Sla),
            0x27 => self.cb_r(Shift::Sla, A as int),
            0x28 => self.cb_r(Shift::Sra, B as int),
            0x29 => self.cb_r(Shift::Sra, C as int),
            0x2A => self.cb_r(Shift::Sra, D as int),
            0x2B => self.cb_r(Shift::Sra, E as int),
            0x2C => self.cb_r(Shift::Sra, H as int),
            0x2D => self.cb_r(Shift::Sra, L as int),
            0x2E => self.cb_hl(Shift::Sra),
            0x2F => self.cb_r(Shift::Sra, A as int),
            0x30 => self.cb_r(Shift::Swap, B as int),
            0x31 => self.cb_r(Shift::Swap, C as int),
            0x32 => self.cb_r(Shift::Swap, D as int),
            0x33 => self.cb_r(Shift::Swap, E as int),
            0x34 => self.cb_r(Shift::Swap, H as int),
            0x35 => self.cb_r(Shift::Swap, L as int),
            0x36 => self.cb_hl(Shift::Swap),
            0x37 => self.cb_r(Shift::Swap, A as int),
            0x38 => self.cb_r(Shift::Srl, B as int),
            0x39 => self.cb_r(Shift::Srl, C as int),
            0x3A => self.cb_r(Shift::Srl, D as int),
            0x3B => self.cb_r(Shift::Srl, E as int),
            0x3C => self.cb_r(Shift::Srl, H as int),
            0x3D => self.cb_r(Shift::Srl, L as int),
            0x3E => self.cb_hl(Shift::Srl),
            0x3F => self.cb_r(Shift::Srl, A as int),
            0x40 => self.bit_r(0x01, B as int),
            0x41 => self.bit_r(0x01, C as int),
            0x42 => self.bit_r(0x01, D as int),
            0x43 => self.bit_r(0x01, E as int),
            0x44 => self.bit_r(0x01, H as int),
            0x45 => self.bit_r(0x01, L as int),
            0x46 => self.bit_hl(0x01),
            0x47 => self.bit_r(0x01, A as int),
            0x48 => self.bit_r(0x02, B as int),
            0x49 => self.bit_r(0x02, C as int),
            0x4A => self.bit_r(0x02, D as int),
            0x4B => self.bit_r(0x02, E as int),
            0x4C => self.bit_r(0x02, H as int),
            0x4D => self.bit_r(0x02, L as int),
            0x4E => self.bit_hl(0x02),
            0x4F => self.bit_r(0x02, A as int),
            0x50 => self.bit_r(0x04, B as int),
            0x51 => self.bit_r(0x04, C as int),
            0x52 => self.bit_r(0x04, D as int),
            0x53 => self.bit_r(0x04, E as int),
            0x54 => self.bit_r(0x04, H as int),
            0x55 => self.bit_r(0x04, L as int),
            0x56 => self.bit_hl(0x04),
            0x57 => self.bit_r(0x04, A as int),
            0x58 => self.bit_r(0x08, B as int),
            0x59 => self.bit_r(0x08, C as int),
            0x5A => self.bit_r(0x08, D as int),
            0x5B => self.bit_r(0x08, E as int),
            0x5C => self.bit_r(0x08, H as int),
            0x5D => self.bit_r(0x08, L as int),
            0x5E => self.bit_hl(0x08),
            0x5F => self.bit_r(0x08, A as int),
            0x60 => self.bit_r(0x10, B as int),
            0x61 => self.bit_r(0x10, C as int),
            0x62 => self.bit_r(0x10, D as int),
            0x63 => self.bit_r(0x10, E as int),
            0x64 => self.bit_r(0x10, H as int),
            0x65 => self.bit_r(0x10, L as int),
            0x66 => self.bit_hl(0x10),
            0x67 => self.bit_r(0x10, A as int),
            0x68 => self.bit_r(0x20, B as int),
            0x69 => self.bit_r(0x20, C as int),
            0x6A => self.bit_r(0x20, D as int),
            0x6B => self.bit_r(0x20, E as int),
            0x6C => self.bit_r(0x20, H as int),
            0x6D => self.bit_r(0x20, L as int),
            0x6E => self.bit_hl(0x20),
            0x6F => self.bit_r(0x20, A as int),
            0x70 => self.bit_r(0x40, B as int),
            0x71 => self.bit_r(0x40, C as int),
            0x72 => self.bit_r(0x40, D as int),
            0x73 => self.bit_r(0x40, E as int),
            0x74 => self.bit_r(0x40, H as int),
            0x75 => self.bit_r(0x40, L as int),
            0x76 => self.bit_hl(0x40),
            0x77 => self.bit_r(0x40, A as int),
            0x78 => self.bit_r(0x80, B as int),
            0x79 => self.bit_r(0x80, C as int),
            0x7A => self.bit_r(0x80, D as int),
            0x7B => self.bit_r(0x80, E as int),
            0x7C => self.bit_r(0x80, H as int),
            0x7D => self.bit_r(0x80, L as int),
            0x7E => self.bit_hl(0x80),
            0x7F => self.bit_r(0x80, A as int),
            0x80 => self.res_r(0xFE, B as int),
            0x81 => self.res_r(0xFE, C as int),
            0x82 => self.res_r(0xFE, D as int),
            0x83 => self.res_r(0xFE, E as int),
            0x84 => self.res_r(0xFE, H as int),
            0x85 => self.res_r(0xFE, L as int),
            0x86 => self.res_hl(0xFE),
            0x87 => self.res_r(0xFE, A as int),
            0x88 => self.res_r(0xFD, B as int),
            0x89 => self.res_r(0xFD, C as int),
            0x8A => self.res_r(0xFD, D as int),
            0x8B => self.res_r(0xFD, E as int),
            0x8C => self.res_r(0xFD, H as int),
            0x8D => self.res_r(0xFD, L as int),
            0x8E => self.res_hl(0xFD),
            0x8F => self.res_r(0xFD, A as int),
            0x90 => self.res_r(0xFB, B as int),
            0x91 => self.res_r(0xFB, C as int),
            0x92 => self.res_r(0xFB, D as int),
            0x93 => self.res_r(0xFB, E as int),
            0x94 => self.res_r(0xFB, H as int),
            0x95 => self.res_r(0xFB, L as int),
            0x96 => self.res_hl(0xFB),
            0x97 => self.res_r(0xFB, A as int),
            0x98 => self.res_r(0xF7, B as int),
            0x99 => self.res_r(0xF7, C as int),
            0x9A => self.res_r(0xF7, D as int),
            0x9B => self.res_r(0xF7, E as int),
            0x9C => self.res_r(0xF7, H as int),
            0x9D => self.res_r(0xF7, L as int),
            0x9E => self.res_hl(0xF7),
            0x9F => self.res_r(0xF7, A as int),
            0xA0 => self.res_r(0xEF, B as int),
            0xA1 => self.res_r(0xEF, C as int),
            0xA2 => self.res_r(0xEF, D as int),
            0xA3 => self.res_r(0xEF, E as int),
            0xA4 => self.res_r(0xEF, H as int),
            0xA5 => self.res_r(0xEF, L as int),
            0xA6 => self.res_hl(0xEF),
            0xA7 => self.res_r(0xEF, A as int),
            0xA8 => self.res_r(0xDF, B as int),
            0xA9 => self.res_r(0xDF, C as int),
            0xAA => self.res_r(0xDF, D as int),
            0xAB => self.res_r(0xDF, E as int),
            0xAC => self.res_r(0xDF, H as int),
            0xAD => self.res_r(0xDF, L as int),
            0xAE => self.res_hl(0xDF),
            0xAF => self.res_r(0xDF, A as int),
            0xB0 => self.res_r(0xBF, B as int),
            0xB1 => self.res_r(0xBF, C as int),
            0xB2 => self.res_r(0xBF, D as int),
            0xB3 => self.res_r(0xBF, E as int),
            0xB4 => self.res_r(0xBF, H as int),
            0xB5 => self.res_r(0xBF, L as int),
            0xB6 => self.res_hl(0xBF),
            0xB7 => self.res_r(0xBF, A as int),
            0xB8 => self.res_r(0x7F, B as int),
            0xB9 => self.res_r(0x7F, C as int),
            0xBA => self.res_r(0x7F, D as int),
            0xBB => self.res_r(0x7F, E as int),
            0xBC => self.res_r(0x7F, H as int),
            0xBD => self.res_r(0x7F, L as int),
            0xBE => self.res_hl(0x7F),
            0xBF => self.res_r(0x7F, A as int),
            0xC0 => self.set_r(0x01, B as int),
            0xC1 => self.set_r(0x01, C as int),
            0xC2 => self.set_r(0x01, D as int),
            0xC3 => self.set_r(0x01, E as int),
            0xC4 => self.set_r(0x01, H as int),
            0xC5 => self.set_r(0x01, L as int),
            0xC6 => self.set_hl(0x01),
            0xC7 => self.set_r(0x01, A as int),
            0xC8 => self.set_r(0x02, B as int),
            0xC9 => self.set_r(0x02, C as int),
            0xCA => self.set_r(0x02, D as int),
            0xCB => self.set_r(0x02, E as int),
            0xCC => self.set_r(0x02, H as int),
            0xCD => self.set_r(0x02, L as int),
            0xCE => self.set_hl(0x02),
            0xCF => self.set_r(0x02, A as int),
            0xD0 => self.set_r(0x04, B as int),
            0xD1 => self.set_r(0x04, C as int),
            0xD2 => self.set_r(0x04, D as int),
            0xD3 => self.set_r(0x04, E as int),
            0xD4 => self.set_r(0x04, H as int),
            0xD5 => self.set_r(0x04, L as int),
            0xD6 => self.set_hl(0x04),
            0xD7 => self.set_r(0x04, A as int),
            0xD8 => self.set_r(0x08, B as int),
            0xD9 => self.set_r(0x08, C as int),
            0xDA => self.set_r(0x08, D as int),
            0xDB => self.set_r(0x08, E as int),
            0xDC => self.set_r(0x08, H as int),
            0xDD => self.set_r(0x08, L as int),
            0xDE => self.set_hl(0x08),
            0xDF => self.set_r(0x08, A as int),
            0xE0 => self.set_r(0x10, B as int),
            0xE1 => self.set_r(0x10, C as int),
            0xE2 => self.set_r(0x10, D as int),
            0xE3 => self.set_r(0x10, E as int),
            0xE4 => self.set_r(0x10, H as int),
            0xE5 => self.set_r(0x10, L as int),
            0xE6 => self.set_hl(0x10),
            0xE7 => self.set_r(0x10, A as int),
            0xE8 => self.set_r(0x20, B as int),
            0xE9 => self.set_r(0x20, C as int),
            0xEA => self.set_r(0x20, D as int),
            0xEB => self.set_r(0x20, E as int),
            0xEC => self.set_r(0x20, H as int),
            0xED => self.set_r(0x20, L as int),
            0xEE => self.set_hl(0x20),
            0xEF => self.set_r(0x20, A as int),
            0xF0 => self.set_r(0x40, B as int),
            0xF1 => self.set_r(0x40, C as int),
            0xF2 => self.set_r(0x40, D as int),
            0xF3 => self.set_r(0x40, E as int),
            0xF4 => self.set_r(0x40, H as int),
            0xF5 => self.set_r(0x40, L as int),
            0xF6 => self.set_hl(0x40),
            0xF7 => self.set_r(0x40, A as int),
            0xF8 => self.set_r(0x80, B as int),
            0xF9 => self.set_r(0x80, C as int),
            0xFA => self.set_r(0x80, D as int),
            0xFB => self.set_r(0x80, E as int),
            0xFC => self.set_r(0x80, H as int),
            0xFD => self.set_r(0x80, L as int),
            0xFE => self.set_hl(0x80),
            0xFF => self.set_r(0x80, A as int),
        }
    }
}

/// Opcodes 0x00 to 0x0F of the primary table.
fn execute_0(cpu: &mut CPU, op: u8)
    requires
        old(cpu)@.ready(),
        0x00 <= op <= 0x0F,
    ensures
        final(cpu)@ == old(cpu)@.execute(op),
        final(cpu)@.ready(),
        cost_ok(old(cpu)@.cycles, final(cpu)@.cycles),
{
    proof {
        reveal(CpuView::execute);
    }
    match op {
        0x00 => inst_set::nop(cpu),
        0x01 => inst_set::ld_bc_u16(cpu),
        0x02 => inst_set::ld_bcind_a(cpu),
        0x03 => inst_set::inc_bc(cpu),
        0x04 => inst_set::inc_b(cpu),
        0x05 => inst_set::dec_b(cpu),
        0x06 => inst_set::ld_b_u8(cpu),
        0x07 => inst_set::rlca(cpu),
        0x08 => inst_set::ld_u16ind_sp(cpu),
        0x09 => inst_set::add_hl_bc(cpu),
        0x0A => inst_set::ld_a_bcind(cpu),
        0x0B => inst_set::dec_bc(cpu),
        0x0C => inst_set::inc_c(cpu),
        0x0D => inst_set::dec_c(cpu),
        0x0E => inst_set::ld_c_u8(cpu),
        0x0F => inst_set::rrca(cpu),
        _ => {},
    }
}

/// Opcodes 0x10 to 0x1F of the primary table.
fn execute_1(cpu: &mut CPU, op: u8)
    requires
        old(cpu)@.ready(),
        0x10 <= op <= 0x1F,
    ensures
        final(cpu)@ == old(cpu)@.execute(op),
        final(cpu)@.ready(),
        cost_ok(old(cpu)@.cycles, final(cpu)@.cycles),
{
    proof {
        reveal(CpuView::execute);
    }
    match op {
        0x10 => inst_set::stop(cpu),
        0x11 => inst_set::ld_de_u16(cpu),
        0x12 => inst_set::ld_deind_a(cpu),
        0x13 => inst_set::inc_de(cpu),
        0x14 => inst_set::inc_d(cpu),
        0x15 => inst_set::dec_d(cpu),
        0x16 => inst_set::ld_d_u8(cpu),
        0x17 => inst_set::rla(cpu),
        0x18 => inst_set::jr_i8(cpu),
        0x19 => inst_set::add_hl_de(cpu),
        0x1A => inst_set::ld_a_deind(cpu),
        0x1B => inst_set::dec_de(cpu),
        0x1C => inst_set::inc_e(cpu),
        0x1D => inst_set::dec_e(cpu),
        0x1E => inst_set::ld_e_u8(cpu),
        0x1F => inst_set::rra(cpu),
        _ => {},
    }
}

/// Opcodes 0x20 to 0x2F of the primary table.
fn execute_2(cpu: &mut CPU, op: u8)
    requires
        old(cpu)@.ready(),
        0x20 <= op <= 0x2F,
    ensures
        final(cpu)@ == old(cpu)@.execute(op),
        final(cpu)@.ready(),
        cost_ok(old(cpu)@.cycles, final(cpu)@.cycles),
{
    proof {
        reveal(CpuView::execute);
    }
    match op {
        0x20 => inst_set::jr_nz_i8(cpu),
        0x21 => inst_set::ld_hl_u16(cpu),
        0x22 => inst_set::ld_hlindinc_a(cpu),
        0x23 => inst_set::inc_hl(cpu),
        0x24 => inst_set::inc_h(cpu),
        0x25 => inst_set::dec_h(cpu),
        0x26 => inst_set::ld_h_u8(cpu),
        0x27 => inst_set::daa(cpu),
        0x28 => inst_set::jr_z_i8(cpu),
        0x29 => inst_set::add_hl_hl(cpu),
        0x2A => inst_set::ld_a_hlindinc(cpu),
        0x2B => inst_set::dec_hl(cpu),
        0x2C => inst_set::inc_l(cpu),
        0x2D => inst_set::dec_l(cpu),
        0x2E => inst_set::ld_l_u8(cpu),
        0x2F => inst_set::cpl(cpu),
        _ => {},
    }
}

/// Opcodes 0x30 to 0x3F of the primary table.
fn execute_3(cpu: &mut CPU, op: u8)
    requires
        old(cpu)@.ready(),
        0x30 <= op <= 0x3F,
    ensures
        final(cpu)@ == old(cpu)@.execute(op),
        final(cpu)@.ready(),
        cost_ok(old(cpu)@.cycles, final(cpu)@.cycles),
{
    proof {
        reveal(CpuView::execute);
    }
    match op {
        0x30 => inst_set::jr_nc_i8(cpu),
        0x31 => inst_set::ld_sp_u16(cpu),
        0x32 => inst_set::ld_hlinddec_a(cpu),
        0x33 => inst_set::inc_sp(cpu),
        0x34 => inst_set::inc_hlind(cpu),
        0x35 => inst_set::dec_hlind(cpu),
        0x36 => inst_set::ld_hlind_u8(cpu),
        0x37 => inst_set::scf(cpu),
        0x38 => inst_set::jr_c_i8(cpu),
        0x39 => inst_set::add_hl_sp(cpu),
        0x3A => inst_set::ld_a_hlinddec(cpu),
        0x3B => inst_set::dec_sp(cpu),
        0x3C => inst_set::inc_a(cpu),
        0x3D => inst_set::dec_a(cpu),
        0x3E => inst_set::ld_a_u8(cpu),
        0x3F => inst_set::ccf(cpu),
        _ => {},
    }
}

/// Opcodes 0x40 to 0x4F of the primary table.
fn execute_4(cpu: &mut CPU, op: u8)
    requires
        old(cpu)@.ready(),
        0x40 <= op <= 0x4F,
    ensures
        final(cpu)@ == old(cpu)@.execute(op),
        final(cpu)@.ready(),
        cost_ok(old(cpu)@.cycles, final(cpu)@.cycles),
{
    proof {
        reveal(CpuView::execute);
    }
    match op {
        0x40 => inst_set::ld_b_b(cpu),
        0x41 => inst_set::ld_b_c(cpu),
        0x42 => inst_set::ld_b_d(cpu),
        0x43 => inst_set::ld_b_e(cpu),
        0x44 => inst_set::ld_b_h(cpu),
        0x45 => inst_set::ld_b_l(cpu),
        0x46 => inst_set::ld_b_hlind(cpu),
        0x47 => inst_set::ld_b_a(cpu),
        0x48 => inst_set::ld_c_b(cpu),
        0x49 => inst_set::ld_c_c(cpu),
        0x4A => inst_set::ld_c_d(cpu),
        0x4B => inst_set::ld_c_e(cpu),
        0x4C => inst_set::ld_c_h(cpu),
        0x4D => inst_set::ld_c_l(cpu),
        0x4E => inst_set::ld_c_hlind(cpu),
        0x4F => inst_set::ld_c_a(cpu),
        _ => {},
    }
}

/// Opcodes 0x50 to 0x5F of the primary table.
fn execute_5(cpu: &mut CPU, op: u8)
    requires
        old(cpu)@.ready(),
        0x50 <= op <= 0x5F,
    ensures
        final(cpu)@ == old(cpu)@.execute(op),
        final(cpu)@.ready(),
        cost_ok(old(cpu)@.cycles, final(cpu)@.cycles),
{
    proof {
        reveal(CpuView::execute);
    }
    match op {
        0x50 => inst_set::ld_d_b(cpu),
        0x51 => inst_set::ld_d_c(cpu),
        0x52 => inst_set::ld_d_d(cpu),
        0x53 => inst_set::ld_d_e(cpu),
        0x54 => inst_set::ld_d_h(cpu),
        0x55 => inst_set::ld_d_l(cpu),
        0x56 => inst_set::ld_d_hlind(cpu),
        0x57 => inst_set::ld_d_a(cpu),
        0x58 => inst_set::ld_e_b(cpu),
        0x59 => inst_set::ld_e_c(cpu),
        0x5A => inst_set::ld_e_d(cpu),
        0x5B => inst_set::ld_e_e(cpu),
        0x5C => inst_set::ld_e_h(cpu),
        0x5D => inst_set::ld_e_l(cpu),
        0x5E => inst_set::ld_e_hlind(cpu),
        0x5F => inst_set::ld_e_a(cpu),
        _ => {},
    }
}

/// Opcodes 0x60 to 0x6F of the primary table.
fn execute_6(cpu: &mut CPU, op: u8)
    requires
        old(cpu)@.ready(),
        0x60 <= op <= 0x6F,
    ensures
        final(cpu)@ == old(cpu)@.execute(op),
        final(cpu)@.ready(),
        cost_ok(old(cpu)@.cycles, final(cpu)@.cycles),
{
    proof {
        reveal(CpuView::execute);
    }
    match op {
        0x60 => inst_set::ld_h_b(cpu),
        0x61 => inst_set::ld_h_c(cpu),
        0x62 => inst_set::ld_h_d(cpu),
        0x63 => inst_set::ld_h_e(cpu),
        0x64 => inst_set::ld_h_h(cpu),
        0x65 => inst_set::ld_h_l(cpu),
        0x66 => inst_set::ld_h_hlind(cpu),
        0x67 => inst_set::ld_h_a(cpu),
        0x68 => inst_set::ld_l_b(cpu),
        0x69 => inst_set::ld_l_c(cpu),
        0x6A => inst_set::ld_l_d(cpu),
        0x6B => inst_set::ld_l_e(cpu),
        0x6C => inst_set::ld_l_h(cpu),
        0x6D => inst_set::ld_l_l(cpu),
        0x6E => inst_set::ld_l_hlind(cpu),
        0x6F => inst_set::ld_l_a(cpu),
        _ => {},
    }
}

/// Opcodes 0x70 to 0x7F of the primary table.
fn execute_7(cpu: &mut CPU, op: u8)
    requires
        old(cpu)@.ready(),
        0x70 <= op <= 0x7F,
    ensures
        final(cpu)@ == old(cpu)@.execute(op),
        final(cpu)@.ready(),
        cost_ok(old(cpu)@.cycles, final(cpu)@.cycles),
{
    proof {
        reveal(CpuView::execute);
    }
    match op {
        0x70 => inst_set::ld_hlind_b(cpu),
        0x71 => inst_set::ld_hlind_c(cpu),
        0x72 => inst_set::ld_hlind_d(cpu),
        0x73 => inst_set::ld_hlind_e(cpu),
        0x74 => inst_set::ld_hlind_h(cpu),
        0x75 => inst_set::ld_hlind_l(cpu),
        0x76 => inst_set::halt(cpu),
        0x77 => inst_set::ld_hlind_a(cpu),
        0x78 => inst_set::ld_a_b(cpu),
        0x79 => inst_set::ld_a_c(cpu),
        0x7A => inst_set::ld_a_d(cpu),
        0x7B => inst_set::ld_a_e(cpu),
        0x7C => inst_set::ld_a_h(cpu),
        0x7D => inst_set::ld_a_l(cpu),
        0x7E => inst_set::ld_a_hlind(cpu),
        0x7F => inst_set::ld_a_a(cpu),
        _ => {},
    }
}

/// Opcodes 0x80 to 0x8F of the primary table.
fn execute_8(cpu: &mut CPU, op: u8)
    requires
        old(cpu)@.ready(),
        0x80 <= op <= 0x8F,
    ensures
        final(cpu)@ == old(cpu)@.execute(op),
        final(cpu)@.ready(),
        cost_ok(old(cpu)@.cycles, final(cpu)@.cycles),
{
    proof {
        reveal(CpuView::execute);
    }
    match op {
        0x80 => inst_set::add_a_b(cpu),
        0x81 => inst_set::add_a_c(cpu),
        0x82 => inst_set::add_a_d(cpu),
        0x83 => inst_set::add_a_e(cpu),
        0x84 => inst_set::add_a_h(cpu),
        0x85 => inst_set::add_a_l(cpu),
        0x86 => inst_set::add_a_hlind(cpu),
        0x87 => inst_set::add_a_a(cpu),
        0x88 => inst_set::adc_a_b(cpu),
        0x89 => inst_set::adc_a_c(cpu),
        0x8A => inst_set::adc_a_d(cpu),
        0x8B => inst_set::adc_a_e(cpu),
        0x8C => inst_set::adc_a_h(cpu),
        0x8D => inst_set::adc_a_l(cpu),
        0x8E => inst_set::adc_a_hlind(cpu),
        0x8F => inst_set::adc_a_a(cpu),
        _ => {},
    }
}

/// Opcodes 0x90 to 0x9F of the primary table.
fn execute_9(cpu: &mut CPU, op: u8)
    requires
        old(cpu)@.ready(),
        0x90 <= op <= 0x9F,
    ensures
        final(cpu)@ == old(cpu)@.execute(op),
        final(cpu)@.ready(),
        cost_ok(old(cpu)@.cycles, final(cpu)@.cycles),
{
    proof {
        reveal(CpuView::execute);
    }
    match op {
        0x90 => inst_set::sub_a_b(cpu),
        0x91 => inst_set::sub_a_c(cpu),
        0x92 => inst_set::sub_a_d(cpu),
        0x93 => inst_set::sub_a_e(cpu),
        0x94 => inst_set::sub_a_h(cpu),
        0x95 => inst_set::sub_a_l(cpu),
        0x96 => inst_set::sub_a_hlind(cpu),
        0x97 => inst_set::sub_a_a(cpu),
        0x98 => inst_set::sbc_a_b(cpu),
        0x99 => inst_set::sbc_a_c(cpu),
        0x9A => inst_set::sbc_a_d(cpu),
        0x9B => inst_set::sbc_a_e(cpu),
        0x9C => inst_set::sbc_a_h(cpu),
        0x9D => inst_set::sbc_a_l(cpu),
        0x9E => inst_set::sbc_a_hlind(cpu),
        0x9F => inst_set::sbc_a_a(cpu),
        _ => {},
    }
}

/// Opcodes 0xA0 to 0xAF of the primary table.
fn execute_a(cpu: &mut CPU, op: u8)
    requires
        old(cpu)@.ready(),
        0xA0 <= op <= 0xAF,
    ensures
        final(cpu)@ == old(cpu)@.execute(op),
        final(cpu)@.ready(),
        cost_ok(old(cpu)@.cycles, final(cpu)@.cycles),
{
    proof {
        reveal(CpuView::execute);
    }
    match op {
        0xA0 => inst_set::and_a_b(cpu),
        0xA1 => inst_set::and_a_c(cpu),
        0xA2 => inst_set::and_a_d(cpu),
        0xA3 => inst_set::and_a_e(cpu),
        0xA4 => inst_set::and_a_h(cpu),
        0xA5 => inst_set::and_a_l(cpu),
        0xA6 => inst_set::and_a_hlind(cpu),
        0xA7 => inst_set::and_a_a(cpu),
        0xA8 => inst_set::xor_a_b(cpu),
        0xA9 => inst_set::xor_a_c(cpu),
        0xAA => inst_set::xor_a_d(cpu),
        0xAB => inst_set::xor_a_e(cpu),
        0xAC => inst_set::xor_a_h(cpu),
        0xAD => inst_set::xor_a_l(cpu),
        0xAE => inst_set::xor_a_hlind(cpu),
        0xAF => inst_set::xor_a_a(cpu),
        _ => {},
    }
}

/// Opcodes 0xB0 to 0xBF of the primary table.
fn execute_b(cpu: &mut CPU, op: u8)
    requires
        old(cpu)@.ready(),
        0xB0 <= op <= 0xBF,
    ensures
        final(cpu)@ == old(cpu)@.execute(op),
        final(cpu)@.ready(),
        cost_ok(old(cpu)@.cycles, final(cpu)@.cycles),
{
    proof {
        reveal(CpuView::execute);
    }
    match op {
        0xB0 => inst_set::or_a_b(cpu),
        0xB1 => inst_set::or_a_c(cpu),
        0xB2 => inst_set::or_a_d(cpu),
        0xB3 => inst_set::or_a_e(cpu),
        0xB4 => inst_set::or_a_h(cpu),
        0xB5 => inst_set::or_a_l(cpu),
        0xB6 => inst_set::or_a_hlind(cpu),
        0xB7 => inst_set::or_a_a(cpu),
        0xB8 => inst_set::cp_a_b(cpu),
        0xB9 => inst_set::cp_a_c(cpu),
        0xBA => inst_set::cp_a_d(cpu),
        0xBB => inst_set::cp_a_e(cpu),
        0xBC => inst_set::cp_a_h(cpu),
        0xBD => inst_set::cp_a_l(cpu),
        0xBE => inst_set::cp_a_hlind(cpu),
        0xBF => inst_set::cp_a_a(cpu),
        _ => {},
    }
}

/// Opcodes 0xC0 to 0xCF of the primary table.
fn execute_c(cpu: &mut CPU, op: u8)
    requires
        old(cpu)@.ready(),
        0xC0 <= op <= 0xCF,
    ensures
        final(cpu)@ == old(cpu)@.execute(op),
        final(cpu)@.ready(),
        cost_ok(old(cpu)@.cycles, final(cpu)@.cycles),
{
    proof {
        reveal(CpuView::execute);
    }
    match op {
        0xC0 => inst_set::ret_nz(cpu),
        0xC1 => inst_set::pop_bc(cpu),
        0xC2 => inst_set::jp_nz_u16(cpu),
        0xC3 => inst_set::jp_u16(cpu),
        0xC4 => inst_set::call_nz_u16(cpu),
        0xC5 => inst_set::push_bc(cpu),
        0xC6 => inst_set::add_a_u8(cpu),
        0xC7 => inst_set::rst_0x00(cpu),
        0xC8 => inst_set::ret_z(cpu),
        0xC9 => inst_set::ret(cpu),
        0xCA => inst_set::jp_z_u16(cpu),
        0xCB => inst_set::cb(cpu),
        0xCC => inst_set::call_z_u16(cpu),
        0xCD => inst_set::call_u16(cpu),
        0xCE => inst_set::adc_a_u8(cpu),
        0xCF => inst_set::rst_0x08(cpu),
        _ => {},
    }
}

/// Opcodes 0xD0 to 0xDF of the primary table.
fn execute_d(cpu: &mut CPU, op: u8)
    requires
        old(cpu)@.ready(),
        0xD0 <= op <= 0xDF,
    ensures
        final(cpu)@ == old(cpu)@.execute(op),
        final(cpu)@.ready(),
        cost_ok(old(cpu)@.cycles, final(cpu)@.cycles),
{
    proof {
        reveal(CpuView::execute);
    }
    match op {
        0xD0 => inst_set::ret_nc(cpu),
        0xD1 => inst_set::pop_de(cpu),
        0xD2 => inst_set::jp_nc_u16(cpu),
        0xD3 => inst_set::error(cpu),
        0xD4 => inst_set::call_nc_u16(cpu),
        0xD5 => inst_set::push_de(cpu),
        0xD6 => inst_set::sub_a_u8(cpu),
        0xD7 => inst_set::rst_0x10(cpu),
        0xD8 => inst_set::ret_c(cpu),
        0xD9 => inst_set::reti(cpu),
        0xDA => inst_set::jp_c_u16(cpu),
        0xDB => inst_set::error(cpu),
        0xDC => inst_set::call_c_u16(cpu),
        0xDD => inst_set::error(cpu),
        0xDE => inst_set::sbc_a_u8(cpu),
        0xDF => inst_set::rst_0x18(cpu),
        _ => {},
    }
}

/// Opcodes 0xE0 to 0xEF of the primary table.
fn execute_e(cpu: &mut CPU, op: u8)
    requires
        old(cpu)@.ready(),
        0xE0 <= op <= 0xEF,
    ensures
        final(cpu)@ == old(cpu)@.execute(op),
        final(cpu)@.ready(),
        cost_ok(old(cpu)@.cycles, final(cpu)@.cycles),
{
    proof {
        reveal(CpuView::execute);
    }
    match op {
        0xE0 => inst_set::ld_ff00u8_a(cpu),
        0xE1 => inst_set::pop_hl(cpu),
        0xE2 => inst_set::ld_ff00c_a(cpu),
        0xE3 => inst_set::error(cpu),
        0xE4 => inst_set::error(cpu),
        0xE5 => inst_set::push_hl(cpu),
        0xE6 => inst_set::and_a_u8(cpu),
        0xE7 => inst_set::rst_0x20(cpu),
        0xE8 => inst_set::add_sp_i8(cpu),
        0xE9 => inst_set::jp_hl(cpu),
        0xEA => inst_set::ld_u16ind_a(cpu),
        0xEB => inst_set::error(cpu),
        0xEC => inst_set::error(cpu),
        0xED => inst_set::error(cpu),
        0xEE => inst_set::xor_a_u8(cpu),
        0xEF => inst_set::rst_0x28(cpu),
        _ => {},
    }
}

/// Opcodes 0xF0 to 0xFF of the primary table.
fn execute_f(cpu: &mut CPU, op: u8)
    requires
        old(cpu)@.ready(),
        0xF0 <= op <= 0xFF,
    ensures
        final(cpu)@ == old(cpu)@.execute(op),
        final(cpu)@.ready(),
        cost_ok(old(cpu)@.cycles, final(cpu)@.cycles),
{
    proof {
        reveal(CpuView::execute);
    }
    match op {
        0xF0 => inst_set::ld_a_ff00u8(cpu),
        0xF1 => inst_set::pop_af(cpu),
        0xF2 => inst_set::ld_a_ff00c(cpu),
        0xF3 => inst_set::di(cpu),
        0xF4 => inst_set::error(cpu),
        0xF5 => inst_set::push_af(cpu),
        0xF6 => inst_set::or_a_u8(cpu),
        0xF7 => inst_set::rst_0x30(cpu),
        0xF8 => inst_set::ld_hl_sp_i8(cpu),
        0xF9 => inst_set::ld_sp_hl(cpu),
        0xFA => inst_set::ld_a_u16ind(cpu),
        0xFB => inst_set::ei(cpu),
        0xFC => inst_set::error(cpu),
        0xFD => inst_set::error(cpu),
        0xFE => inst_set::cp_a_u8(cpu),
        0xFF => inst_set::rst_0x38(cpu),
        _ => {},
    }
}

/// Opcodes 0x00 to 0x0F of the extended table.
fn execute_cb_0(cpu: &mut CPU, op: u8)
    requires
        old(cpu)@.ready(),
        0x00 <= op <= 0x0F,
    ensures
        final(cpu)@ == old(cpu)@.cb_exec(op),
        final(cpu)@.ready(),
        cost_ok(old(cpu)@.cycles, final(cpu)@.cycles),
{
    proof {
        reveal(CpuView::cb_exec);
    }
    match op {
        0x00 => inst_set::rlc_b(cpu),
        0x01 => inst_set::rlc_c(cpu),
        0x02 => inst_set::rlc_d(cpu),
        0x03 => inst_set::rlc_e(cpu),
        0x04 => inst_set::rlc_h(cpu),
        0x05 => inst_set::rlc_l(cpu),
        0x06 => inst_set::rlc_hlind(cpu),
        0x07 => inst_set::rlc_a(cpu),
        0x08 => inst_set::rrc_b(cpu),
        0x09 => inst_set::rrc_c(cpu),
        0x0A => inst_set::rrc_d(cpu),
        0x0B => inst_set::rrc_e(cpu),
        0x0C => inst_set::rrc_h(cpu),
        0x0D => inst_set::rrc_l(cpu),
        0x0E => inst_set::rrc_hlind(cpu),
        0x0F => inst_set::rrc_a(cpu),
        _ => {},
    }
}

/// Opcodes 0x10 to 0x1F of the extended table.
fn execute_cb_1(cpu: &mut CPU, op: u8)
    requires
        old(cpu)@.ready(),
        0x10 <= op <= 0x1F,
    ensures
        final(cpu)@ == old(cpu)@.cb_exec(op),
        final(cpu)@.ready(),
        cost_ok(old(cpu)@.cycles, final(cpu)@.cycles),
{
    proof {
        reveal(CpuView::cb_exec);
    }
    match op {
        0x10 => inst_set::rl_b(cpu),
        0x11 => inst_set::rl_c(cpu),
        0x12 => inst_set::rl_d(cpu),
        0x13 => inst_set::rl_e(cpu),
        0x14 => inst_set::rl_h(cpu),
        0x15 => inst_set::rl_l(cpu),
        0x16 => inst_set::rl_hlind(cpu),
        0x17 => inst_set::rl_a(cpu),
        0x18 => inst_set::rr_b(cpu),
        0x19 => inst_set::rr_c(cpu),
        0x1A => inst_set::rr_d(cpu),
        0x1B => inst_set::rr_e(cpu),
        0x1C => inst_set::rr_h(cpu),
        0x1D => inst_set::rr_l(cpu),
        0x1E => inst_set::rr_hlind(cpu),
        0x1F => inst_set::rr_a(cpu),
        _ => {},
    }
}

/// Opcodes 0x20 to 0x2F of the extended table.
fn execute_cb_2(cpu: &mut CPU, op: u8)
    requires
        old(cpu)@.ready(),
        0x20 <= op <= 0x2F,
    ensures
        final(cpu)@ == old(cpu)@.cb_exec(op),
        final(cpu)@.ready(),
        cost_ok(old(cpu)@.cycles, final(cpu)@.cycles),
{
    proof {
        reveal(CpuView::cb_exec);
    }
    match op {
        0x20 => inst_set::sla_b(cpu),
        0x21 => inst_set::sla_c(cpu),
        0x22 => inst_set::sla_d(cpu),
        0x23 => inst_set::sla_e(cpu),
        0x24 => inst_set::sla_h(cpu),
        0x25 => inst_set::sla_l(cpu),
        0x26 => inst_set::sla_hlind(cpu),
        0x27 => inst_set::sla_a(cpu),
        0x28 => inst_set::sra_b(cpu),
        0x29 => inst_set::sra_c(cpu),
        0x2A => inst_set::sra_d(cpu),
        0x2B => inst_set::sra_e(cpu),
        0x2C => inst_set::sra_h(cpu),
        0x2D => inst_set::sra_l(cpu),
        0x2E => inst_set::sra_hlind(cpu),
        0x2F => inst_set::sra_a(cpu),
        _ => {},
    }
}

/// Opcodes 0x30 to 0x3F of the extended table.
fn execute_cb_3(cpu: &mut CPU, op: u8)
    requires
        old(cpu)@.ready(),
        0x30 <= op <= 0x3F,
    ensures
        final(cpu)@ == old(cpu)@.cb_exec(op),
        final(cpu)@.ready(),
        cost_ok(old(cpu)@.cycles, final(cpu)@.cycles),
{
    proof {
        reveal(CpuView::cb_exec);
    }
    match op {
        0x30 => inst_set::swap_b(cpu),
        0x31 => inst_set::swap_c(cpu),
        0x32 => inst_set::swap_d(cpu),
        0x33 => inst_set::swap_e(cpu),
        0x34 => inst_set::swap_h(cpu),
        0x35 => inst_set::swap_l(cpu),
        0x36 => inst_set::swap_hlind(cpu),
        0x37 => inst_set::swap_a(cpu),
        0x38 => inst_set::srl_b(cpu),
        0x39 => inst_set::srl_c(cpu),
        0x3A => inst_set::srl_d(cpu),
        0x3B => inst_set::srl_e(cpu),
        0x3C => inst_set::srl_h(cpu),
        0x3D => inst_set::srl_l(cpu),
        0x3E => inst_set::srl_hlind(cpu),
        0x3F => inst_set::srl_a(cpu),
        _ => {},
    }
}

/// Opcodes 0x40 to 0x4F of the extended table.
fn execute_cb_4(cpu: &mut CPU, op: u8)
    requires
        old(cpu)@.ready(),
        0x40 <= op <= 0x4F,
    ensures
        final(cpu)@ == old(cpu)@.cb_exec(op),
        final(cpu)@.ready(),
        cost_ok(old(cpu)@.cycles, final(cpu)@.cycles),
{
    proof {
        reveal(CpuView::cb_exec);
    }
    match op {
        0x40 => inst_set::bit_0_b(cpu),
        0x41 => inst_set::bit_0_c(cpu),
        0x42 => inst_set::bit_0_d(cpu),
        0x43 => inst_set::bit_0_e(cpu),
        0x44 => inst_set::bit_0_h(cpu),
        0x45 => inst_set::bit_0_l(cpu),
        0x46 => inst_set::bit_0_hlind(cpu),
        0x47 => inst_set::bit_0_a(cpu),
        0x48 => inst_set::bit_1_b(cpu),
        0x49 => inst_set::bit_1_c(cpu),
        0x4A => inst_set::bit_1_d(cpu),
        0x4B => inst_set::bit_1_e(cpu),
        0x4C => inst_set::bit_1_h(cpu),
        0x4D => inst_set::bit_1_l(cpu),
        0x4E => inst_set::bit_1_hlind(cpu),
        0x4F => inst_set::bit_1_a(cpu),
        _ => {},
    }
}

/// Opcodes 0x50 to 0x5F of the extended table.
fn execute_cb_5(cpu: &mut CPU, op: u8)
    requires
        old(cpu)@.ready(),
        0x50 <= op <= 0x5F,
    ensures
        final(cpu)@ == old(cpu)@.cb_exec(op),
        final(cpu)@.ready(),
        cost_ok(old(cpu)@.cycles, final(cpu)@.cycles),
{
    proof {
        reveal(CpuView::cb_exec);
    }
    match op {
        0x50 => inst_set::bit_2_b(cpu),
        0x51 => inst_set::bit_2_c(cpu),
        0x52 => inst_set::bit_2_d(cpu),
        0x53 => inst_set::bit_2_e(cpu),
        0x54 => inst_set::bit_2_h(cpu),
        0x55 => inst_set::bit_2_l(cpu),
        0x56 => inst_set::bit_2_hlind(cpu),
        0x57 => inst_set::bit_2_a(cpu),
        0x58 => inst_set::bit_3_b(cpu),
        0x59 => inst_set::bit_3_c(cpu),
        0x5A => inst_set::bit_3_d(cpu),
        0x5B => inst_set::bit_3_e(cpu),
        0x5C => inst_set::bit_3_h(cpu),
        0x5D => inst_set::bit_3_l(cpu),
        0x5E => inst_set::bit_3_hlind(cpu),
        0x5F => inst_set::bit_3_a(cpu),
        _ => {},
    }
}

/// Opcodes 0x60 to 0x6F of the extended table.
fn execute_cb_6(cpu: &mut CPU, op: u8)
    requires
        old(cpu)@.ready(),
        0x60 <= op <= 0x6F,
    ensures
        final(cpu)@ == old(cpu)@.cb_exec(op),
        final(cpu)@.ready(),
        cost_ok(old(cpu)@.cycles, final(cpu)@.cycles),
{
    proof {
        reveal(CpuView::cb_exec);
    }
    match op {
        0x60 => inst_set::bit_4_b(cpu),
        0x61 => inst_set::bit_4_c(cpu),
        0x62 => inst_set::bit_4_d(cpu),
        0x63 => inst_set::bit_4_e(cpu),
        0x64 => inst_set::bit_4_h(cpu),
        0x65 => inst_set::bit_4_l(cpu),
        0x66 => inst_set::bit_4_hlind(cpu),
        0x67 => inst_set::bit_4_a(cpu),
        0x68 => inst_set::bit_5_b(cpu),
        0x69 => inst_set::bit_5_c(cpu),
        0x6A => inst_set::bit_5_d(cpu),
        0x6B => inst_set::bit_5_e(cpu),
        0x6C => inst_set::bit_5_h(cpu),
        0x6D => inst_set::bit_5_l(cpu),
        0x6E => inst_set::bit_5_hlind(cpu),
        0x6F => inst_set::bit_5_a(cpu),
        _ => {},
    }
}

/// Opcodes 0x70 to 0x7F of the extended table.
fn execute_cb_7(cpu: &mut CPU, op: u8)
    requires
        old(cpu)@.ready(),
        0x70 <= op <= 0x7F,
    ensures
        final(cpu)@ == old(cpu)@.cb_exec(op),
        final(cpu)@.ready(),
        cost_ok(old(cpu)@.cycles, final(cpu)@.cycles),
{
    proof {
        reveal(CpuView::cb_exec);
    }
    match op {
        0x70 => inst_set::bit_6_b(cpu),
        0x71 => inst_set::bit_6_c(cpu),
        0x72 => inst_set::bit_6_d(cpu),
        0x73 => inst_set::bit_6_e(cpu),
        0x74 => inst_set::bit_6_h(cpu),
        0x75 => inst_set::bit_6_l(cpu),
        0x76 => inst_set::bit_6_hlind(cpu),
        0x77 => inst_set::bit_6_a(cpu),
        0x78 => inst_set::bit_7_b(cpu),
        0x79 => inst_set::bit_7_c(cpu),
        0x7A => inst_set::bit_7_d(cpu),
        0x7B => inst_set::bit_7_e(cpu),
        0x7C => inst_set::bit_7_h(cpu),
        0x7D => inst_set::bit_7_l(cpu),
        0x7E => inst_set::bit_7_hlind(cpu),
        0x7F => inst_set::bit_7_a(cpu),
        _ => {},
    }
}

/// Opcodes 0x80 to 0x8F of the extended table.
fn execute_cb_8(cpu: &mut CPU, op: u8)
    requires
        old(cpu)@.ready(),
        0x80 <= op <= 0x8F,
    ensures
        final(cpu)@ == old(cpu)@.cb_exec(op),
        final(cpu)@.ready(),
        cost_ok(old(cpu)@.cycles, final(cpu)@.cycles),
{
    proof {
        reveal(CpuView::cb_exec);
    }
    match op {
        0x80 => inst_set::res_0_b(cpu),
        0x81 => inst_set::res_0_c(cpu),
        0x82 => inst_set::res_0_d(cpu),
        0x83 => inst_set::res_0_e(cpu),
        0x84 => inst_set::res_0_h(cpu),
        0x85 => inst_set::res_0_l(cpu),
        0x86 => inst_set::res_0_hlind(cpu),
        0x87 => inst_set::res_0_a(cpu),
        0x88 => inst_set::res_1_b(cpu),
        0x89 => inst_set::res_1_c(cpu),
        0x8A => inst_set::res_1_d(cpu),
        0x8B => inst_set::res_1_e(cpu),
        0x8C => inst_set::res_1_h(cpu),
        0x8D => inst_set::res_1_l(cpu),
        0x8E => inst_set::res_1_hlind(cpu),
        0x8F => inst_set::res_1_a(cpu),
        _ => {},
    }
}

/// Opcodes 0x90 to 0x9F of the extended table.
fn execute_cb_9(cpu: &mut CPU, op: u8)
    requires
        old(cpu)@.ready(),
        0x90 <= op <= 0x9F,
    ensures
        final(cpu)@ == old(cpu)@.cb_exec(op),
        final(cpu)@.ready(),
        cost_ok(old(cpu)@.cycles, final(cpu)@.cycles),
{
    proof {
        reveal(CpuView::cb_exec);
    }
    match op {
        0x90 => inst_set::res_2_b(cpu),
        0x91 => inst_set::res_2_c(cpu),
        0x92 => inst_set::res_2_d(cpu),
        0x93 => inst_set::res_2_e(cpu),
        0x94 => inst_set::res_2_h(cpu),
        0x95 => inst_set::res_2_l(cpu),
        0x96 => inst_set::res_2_hlind(cpu),
        0x97 => inst_set::res_2_a(cpu),
        0x98 => inst_set::res_3_b(cpu),
        0x99 => inst_set::res_3_c(cpu),
        0x9A => inst_set::res_3_d(cpu),
        0x9B => inst_set::res_3_e(cpu),
        0x9C => inst_set::res_3_h(cpu),
        0x9D => inst_set::res_3_l(cpu),
        0x9E => inst_set::res_3_hlind(cpu),
        0x9F => inst_set::res_3_a(cpu),
        _ => {},
    }
}

/// Opcodes 0xA0 to 0xAF of the extended table.
fn execute_cb_a(cpu: &mut CPU, op: u8)
    requires
        old(cpu)@.ready(),
        0xA0 <= op <= 0xAF,
    ensures
        final(cpu)@ == old(cpu)@.cb_exec(op),
        final(cpu)@.ready(),
        cost_ok(old(cpu)@.cycles, final(cpu)@.cycles),
{
    proof {
        reveal(CpuView::cb_exec);
    }
    match op {
        0xA0 => inst_set::res_4_b(cpu),
        0xA1 => inst_set::res_4_c(cpu),
        0xA2 => inst_set::res_4_d(cpu),
        0xA3 => inst_set::res_4_e(cpu),
        0xA4 => inst_set::res_4_h(cpu),
        0xA5 => inst_set::res_4_l(cpu),
        0xA6 => inst_set::res_4_hlind(cpu),
        0xA7 => inst_set::res_4_a(cpu),
        0xA8 => inst_set::res_5_b(cpu),
        0xA9 => inst_set::res_5_c(cpu),
        0xAA => inst_set::res_5_d(cpu),
        0xAB => inst_set::res_5_e(cpu),
        0xAC => inst_set::res_5_h(cpu),
        0xAD => inst_set::res_5_l(cpu),
        0xAE => inst_set::res_5_hlind(cpu),
        0xAF => inst_set::res_5_a(cpu),
        _ => {},
    }
}

/// Opcodes 0xB0 to 0xBF of the extended table.
fn execute_cb_b(cpu: &mut CPU, op: u8)
    requires
        old(cpu)@.ready(),
        0xB0 <= op <= 0xBF,
    ensures
        final(cpu)@ == old(cpu)@.cb_exec(op),
        final(cpu)@.ready(),
        cost_ok(old(cpu)@.cycles, final(cpu)@.cycles),
{
    proof {
        reveal(CpuView::cb_exec);
    }
    match op {
        0xB0 => inst_set::res_6_b(cpu),
        0xB1 => inst_set::res_6_c(cpu),
        0xB2 => inst_set::res_6_d(cpu),
        0xB3 => inst_set::res_6_e(cpu),
        0xB4 => inst_set::res_6_h(cpu),
        0xB5 => inst_set::res_6_l(cpu),
        0xB6 => inst_set::res_6_hlind(cpu),
        0xB7 => inst_set::res_6_a(cpu),
        0xB8 => inst_set::res_7_b(cpu),
        0xB9 => inst_set::res_7_c(cpu),
        0xBA => inst_set::res_7_d(cpu),
        0xBB => inst_set::res_7_e(cpu),
        0xBC => inst_set::res_7_h(cpu),
        0xBD => inst_set::res_7_l(cpu),
        0xBE => inst_set::res_7_hlind(cpu),
        0xBF => inst_set::res_7_a(cpu),
        _ => {},
    }
}

/// Opcodes 0xC0 to 0xCF of the extended table.
fn execute_cb_c(cpu: &mut CPU, op: u8)
    requires
        old(cpu)@.ready(),
        0xC0 <= op <= 0xCF,
    ensures
        final(cpu)@ == old(cpu)@.cb_exec(op),
        final(cpu)@.ready(),
        cost_ok(old(cpu)@.cycles, final(cpu)@.cycles),
{
    proof {
        reveal(CpuView::cb_exec);
    }
    match op {
        0xC0 => inst_set::set_0_b(cpu),
        0xC1 => inst_set::set_0_c(cpu),
        0xC2 => inst_set::set_0_d(cpu),
        0xC3 => inst_set::set_0_e(cpu),
        0xC4 => inst_set::set_0_h(cpu),
        0xC5 => inst_set::set_0_l(cpu),
        0xC6 => inst_set::set_0_hlind(cpu),
        0xC7 => inst_set::set_0_a(cpu),
        0xC8 => inst_set::set_1_b(cpu),
        0xC9 => inst_set::set_1_c(cpu),
        0xCA => inst_set::set_1_d(cpu),
        0xCB => inst_set::set_1_e(cpu),
        0xCC => inst_set::set_1_h(cpu),
        0xCD => inst_set::set_1_l(cpu),
        0xCE => inst_set::set_1_hlind(cpu),
        0xCF => inst_set::set_1_a(cpu),
        _ => {},
    }
}

/// Opcodes 0xD0 to 0xDF of the extended table.
fn execute_cb_d(cpu: &mut CPU, op: u8)
    requires
        old(cpu)@.ready(),
        0xD0 <= op <= 0xDF,
    ensures
        final(cpu)@ == old(cpu)@.cb_exec(op),
        final(cpu)@.ready(),
        cost_ok(old(cpu)@.cycles, final(cpu)@.cycles),
{
    proof {
        reveal(CpuView::cb_exec);
    }
    match op {
        0xD0 => inst_set::set_2_b(cpu),
        0xD1 => inst_set::set_2_c(cpu),
        0xD2 => inst_set::set_2_d(cpu),
        0xD3 => inst_set::set_2_e(cpu),
        0xD4 => inst_set::set_2_h(cpu),
        0xD5 => inst_set::set_2_l(cpu),
        0xD6 => inst_set::set_2_hlind(cpu),
        0xD7 => inst_set::set_2_a(cpu),
        0xD8 => inst_set::set_3_b(cpu),
        0xD9 => inst_set::set_3_c(cpu),
        0xDA => inst_set::set_3_d(cpu),
        0xDB => inst_set::set_3_e(cpu),
        0xDC => inst_set::set_3_h(cpu),
        0xDD => inst_set::set_3_l(cpu),
        0xDE => inst_set::set_3_hlind(cpu),
        0xDF => inst_set::set_3_a(cpu),
        _ => {},
    }
}

/// Opcodes 0xE0 to 0xEF of the extended table.
fn execute_cb_e(cpu: &mut CPU, op: u8)
    requires
        old(cpu)@.ready(),
        0xE0 <= op <= 0xEF,
    ensures
        final(cpu)@ == old(cpu)@.cb_exec(op),
        final(cpu)@.ready(),
        cost_ok(old(cpu)@.cycles, final(cpu)@.cycles),
{
    proof {
        reveal(CpuView::cb_exec);
    }
    match op {
        0xE0 => inst_set::set_4_b(cpu),
        0xE1 => inst_set::set_4_c(cpu),
        0xE2 => inst_set::set_4_d(cpu),
        0xE3 => inst_set::set_4_e(cpu),
        0xE4 => inst_set::set_4_h(cpu),
        0xE5 => inst_set::set_4_l(cpu),
        0xE6 => inst_set::set_4_hlind(cpu),
        0xE7 => inst_set::set_4_a(cpu),
        0xE8 => inst_set::set_5_b(cpu),
        0xE9 => inst_set::set_5_c(cpu),
        0xEA => inst_set::set_5_d(cpu),
        0xEB => inst_set::set_5_e(cpu),
        0xEC => inst_set::set_5_h(cpu),
        0xED => inst_set::set_5_l(cpu),
        0xEE => inst_set::set_5_hlind(cpu),
        0xEF => inst_set::set_5_a(cpu),
        _ => {},
    }
}

/// Opcodes 0xF0 to 0xFF of the extended table.
fn execute_cb_f(cpu: &mut CPU, op: u8)
    requires
        old(cpu)@.ready(),
        0xF0 <= op <= 0xFF,
    ensures
        final(cpu)@ == old(cpu)@.cb_exec(op),
        final(cpu)@.ready(),
        cost_ok(old(cpu)@.cycles, final(cpu)@.cycles),
{
    proof {
        reveal(CpuView::cb_exec);
    }
    match op {
        0xF0 => inst_set::set_6_b(cpu),
        0xF1 => inst_set::set_6_c(cpu),
        0xF2 => inst_set::set_6_d(cpu),
        0xF3 => inst_set::set_6_e(cpu),
        0xF4 => inst_set::set_6_h(cpu),
        0xF5 => inst_set::set_6_l(cpu),
        0xF6 => inst_set::set_6_hlind(cpu),
        0xF7 => inst_set::set_6_a(cpu),
        0xF8 => inst_set::set_7_b(cpu),
        0xF9 => inst_set::set_7_c(cpu),
        0xFA => inst_set::set_7_d(cpu),
        0xFB => inst_set::set_7_e(cpu),
        0xFC => inst_set::set_7_h(cpu),
        0xFD => inst_set::set_7_l(cpu),
        0xFE => inst_set::set_7_hlind(cpu),
        0xFF => inst_set::set_7_a(cpu),
        _ => {},
    }
}

/// Runs opcode `op` of the primary table.
pub(crate) fn execute(cpu: &mut CPU, op: u8)
    requires
        old(cpu)@.ready(),
    ensures
        final(cpu)@ == old(cpu)@.execute(op),
        final(cpu)@.ready(),
        cost_ok(old(cpu)@.cycles, final(cpu)@.cycles),
{
    match op / 16 {
        0 => execute_0(cpu, op),
        1 => execute_1(cpu, op),
        2 => execute_2(cpu, op),
        3 => execute_3(cpu, op),
        4 => execute_4(cpu, op),
        5 => execute_5(cpu, op),
        6 => execute_6(cpu, op),
        7 => execute_7(cpu, op),
        8 => execute_8(cpu, op),
        9 => execute_9(cpu, op),
        10 => execute_a(cpu, op),
        11 => execute_b(cpu, op),
        12 => execute_c(cpu, op),
        13 => execute_d(cpu, op),
        14 => execute_e(cpu, op),
        15 => execute_f(cpu, op),
        _ => {},
    }
}

/// Runs opcode `op` of the extended table.
pub(crate) fn execute_cb(cpu: &mut CPU, op: u8)
    requires
        old(cpu)@.ready(),
    ensures
        final(cpu)@ == old(cpu)@.cb_exec(op),
        final(cpu)@.ready(),
        cost_ok(old(cpu)@.cycles, final(cpu)@.cycles),
{
    match op / 16 {
        0 => execute_cb_0(cpu, op),
        1 => execute_cb_1(cpu, op),
        2 => execute_cb_2(cpu, op),
        3 => execute_cb_3(cpu, op),
        4 => execute_cb_4(cpu, op),
        5 => execute_cb_5(cpu, op),
        6 => execute_cb_6(cpu, op),
        7 => execute_cb_7(cpu, op),
        8 => execute_cb_8(cpu, op),
        9 => execute_cb_9(cpu, op),
        10 => execute_cb_a(cpu, op),
        11 => execute_cb_b(cpu, op),
        12 => execute_cb_c(cpu, op),
        13 => execute_cb_d(cpu, op),
        14 => execute_cb_e(cpu, op),
        15 => execute_cb_f(cpu, op),
        _ => {},
    }
}

} // verus!
