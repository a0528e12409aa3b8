use crate::cpu::{cost_ok, CpuView, A, B, C, CPU, D, E, F, H, L};
use crate::ops;
use crate::ops::{AluOp, Shift};
use vstd::prelude::*;

verus! {


/// NOP.
pub fn nop(cpu: &mut CPU)
    requires
        old(cpu)@.ready(),
    ensures
        final(cpu)@ == old(cpu)@.nop(),
        final(cpu)@.ready(),
        cost_ok(old(cpu)@.cycles, final(cpu)@.cycles),
{
    ops::nop(cpu)
}

/// LD BC,u16.
pub fn ld_bc_u16(cpu: &mut CPU)
    requires
        old(cpu)@.ready(),
    ensures
        final(cpu)@ == old(cpu)@.ld_pair_u16(B as int, C as int),
        final(cpu)@.ready(),
        cost_ok(old(cpu)@.cycles, final(cpu)@.cycles),
{
    ops::ld_pair_u16(cpu, B, C)
}

/// LD (BC),A.
pub fn ld_bcind_a(cpu: &mut CPU)
    requires
        old(cpu)@.ready(),
    ensures
        final(cpu)@ == old(cpu)@.ld_ind_r(B as int, C as int, A as int),
        final(cpu)@.ready(),
        cost_ok(old(cpu)@.cycles, final(cpu)@.cycles),
{
    ops::ld_ind_r(cpu, B, C, A)
}

/// INC BC.
pub fn inc_bc(cpu: &mut CPU)
    requires
        old(cpu)@.ready(),
    ensures
        final(cpu)@ == old(cpu)@.inc_pair(B as int, C as int),
        final(cpu)@.ready(),
        cost_ok(old(cpu)@.cycles, final(cpu)@.cycles),
{
    ops::inc_pair(cpu, B, C)
}

/// INC B.
pub fn inc_b(cpu: &mut CPU)
    requires
        old(cpu)@.ready(),
    ensures
        final(cpu)@ == old(cpu)@.inc_r(B as int),
        final(cpu)@.ready(),
        cost_ok(old(cpu)@.cycles, final(cpu)@.cycles),
{
    ops::inc_r(cpu, B)
}

/// DEC B.
pub fn dec_b(cpu: &mut CPU)
    requires
        old(cpu)@.ready(),
    ensures
        final(cpu)@ == old(cpu)@.dec_r(B as int),
        final(cpu)@.ready(),
        cost_ok(old(cpu)@.cycles, final(cpu)@.cycles),
{
    ops::dec_r(cpu, B)
}

/// LD B,u8.
pub fn ld_b_u8(cpu: &mut CPU)
    requires
        old(cpu)@.ready(),
    ensures
        final(cpu)@ == old(cpu)@.ld_r_u8(B as int),
        final(cpu)@.ready(),
        cost_ok(old(cpu)@.cycles, final(cpu)@.cycles),
{
    ops::ld_r_u8(cpu, B)
}

/// RLCA.
pub fn rlca(cpu: &mut CPU)
    requires
        old(cpu)@.ready(),
    ensures
        final(cpu)@ == old(cpu)@.rot_a(Shift::Rlc),
        final(cpu)@.ready(),
        cost_ok(old(cpu)@.cycles, final(cpu)@.cycles),
{
    ops::rot_a(cpu, Shift::Rlc)
}

/// LD (u16),SP.
pub fn ld_u16ind_sp(cpu: &mut CPU)
    requires
        old(cpu)@.ready(),
    ensures
        final(cpu)@ == old(cpu)@.ld_u16_sp(),
        final(cpu)@.ready(),
        cost_ok(old(cpu)@.cycles, final(cpu)@.cycles),
{
    ops::ld_u16_sp(cpu)
}

/// ADD HL,BC.
pub fn add_hl_bc(cpu: &mut CPU)
    requires
        old(cpu)@.ready(),
    ensures
        final(cpu)@ == old(cpu)@.add_hl(old(cpu)@.pair(B as int, C as int)),
        final(cpu)@.ready(),
        cost_ok(old(cpu)@.cycles, final(cpu)@.cycles),
{
    let v = cpu.get_pair(B, C);
    ops::add_hl(cpu, v)
}

/// LD A,(BC).
pub fn ld_a_bcind(cpu: &mut CPU)
    requires
        old(cpu)@.ready(),
    ensures
        final(cpu)@ == old(cpu)@.ld_r_ind(A as int, B as int, C as int),
        final(cpu)@.ready(),
        cost_ok(old(cpu)@.cycles, final(cpu)@.cycles),
{
    ops::ld_r_ind(cpu, A, B, C)
}

/// DEC BC.
pub fn dec_bc(cpu: &mut CPU)
    requires
        old(cpu)@.ready(),
    ensures
        final(cpu)@ == old(cpu)@.dec_pair(B as int, C as int),
        final(cpu)@.ready(),
        cost_ok(old(cpu)@.cycles, final(cpu)@.cycles),
{
    ops::dec_pair(cpu, B, C)
}

/// INC C.
pub fn inc_c(cpu: &mut CPU)
    requires
        old(cpu)@.ready(),
    ensures
        final(cpu)@ == old(cpu)@.inc_r(C as int),
        final(cpu)@.ready(),
        cost_ok(old(cpu)@.cycles, final(cpu)@.cycles),
{
    ops::inc_r(cpu, C)
}

/// DEC C.
pub fn dec_c(cpu: &mut CPU)
    requires
        old(cpu)@.ready(),
    ensures
        final(cpu)@ == old(cpu)@.dec_r(C as int),
        final(cpu)@.ready(),
        cost_ok(old(cpu)@.cycles, final(cpu)@.cycles),
{
    ops::dec_r(cpu, C)
}

/// LD C,u8.
pub fn ld_c_u8(cpu: &mut CPU)
    requires
        old(cpu)@.ready(),
    ensures
        final(cpu)@ == old(cpu)@.ld_r_u8(C as int),
        final(cpu)@.ready(),
        cost_ok(old(cpu)@.cycles, final(cpu)@.cycles),
{
    ops::ld_r_u8(cpu, C)
}

/// RRCA.
pub fn rrca(cpu: &mut CPU)
    requires
        old(cpu)@.ready(),
    ensures
        final(cpu)@ == old(cpu)@.rot_a(Shift::Rrc),
        final(cpu)@.ready(),
        cost_ok(old(cpu)@.cycles, final(cpu)@.cycles),
{
    ops::rot_a(cpu, Shift::Rrc)
}

/// STOP: sets the stopped flag and skips the byte after the opcode.
pub fn stop(cpu: &mut CPU)
    requires
        old(cpu)@.ready(),
    ensures
        final(cpu)@ == old(cpu)@.stop_op(),
        final(cpu)@.ready(),
        cost_ok(old(cpu)@.cycles, final(cpu)@.cycles),
{
    proof {
        reveal(CpuView::stop_op);
    }
    cpu.stop = true;
    cpu.pc = ((cpu.pc as u32 + 1) % 0x10000) as u16;
    cpu.tick(4);
}

/// LD DE,u16.
pub fn ld_de_u16(cpu: &mut CPU)
    requires
        old(cpu)@.ready(),
    ensures
        final(cpu)@ == old(cpu)@.ld_pair_u16(D as int, E as int),
        final(cpu)@.ready(),
        cost_ok(old(cpu)@.cycles, final(cpu)@.cycles),
{
    ops::ld_pair_u16(cpu, D, E)
}

/// LD (DE),A.
pub fn ld_deind_a(cpu: &mut CPU)
    requires
        old(cpu)@.ready(),
    ensures
        final(cpu)@ == old(cpu)@.ld_ind_r(D as int, E as int, A as int),
        final(cpu)@.ready(),
        cost_ok(old(cpu)@.cycles, final(cpu)@.cycles),
{
    ops::ld_ind_r(cpu, D, E, A)
}

/// INC DE.
pub fn inc_de(cpu: &mut CPU)
    requires
        old(cpu)@.ready(),
    ensures
        final(cpu)@ == old(cpu)@.inc_pair(D as int, E as int),
        final(cpu)@.ready(),
        cost_ok(old(cpu)@.cycles, final(cpu)@.cycles),
{
    ops::inc_pair(cpu, D, E)
}

/// INC D.
pub fn inc_d(cpu: &mut CPU)
    requires
        old(cpu)@.ready(),
    ensures
        final(cpu)@ == old(cpu)@.inc_r(D as int),
        final(cpu)@.ready(),
        cost_ok(old(cpu)@.cycles, final(cpu)@.cycles),
{
    ops::inc_r(cpu, D)
}

/// DEC D.
pub fn dec_d(cpu: &mut CPU)
    requires
        old(cpu)@.ready(),
    ensures
        final(cpu)@ == old(cpu)@.dec_r(D as int),
        final(cpu)@.ready(),
        cost_ok(old(cpu)@.cycles, final(cpu)@.cycles),
{
    ops::dec_r(cpu, D)
}

/// LD D,u8.
pub fn ld_d_u8(cpu: &mut CPU)
    requires
        old(cpu)@.ready(),
    ensures
        final(cpu)@ == old(cpu)@.ld_r_u8(D as int),
        final(cpu)@.ready(),
        cost_ok(old(cpu)@.cycles, final(cpu)@.cycles),
{
    ops::ld_r_u8(cpu, D)
}

/// RLA.
pub fn rla(cpu: &mut CPU)
    requires
        old(cpu)@.ready(),
    ensures
        final(cpu)@ == old(cpu)@.rot_a(Shift::Rl),
        final(cpu)@.ready(),
        cost_ok(old(cpu)@.cycles, final(cpu)@.cycles),
{
    ops::rot_a(cpu, Shift::Rl)
}

/// JR i8.
pub fn jr_i8(cpu: &mut CPU)
    requires
        old(cpu)@.ready(),
    ensures
        final(cpu)@ == old(cpu)@.jr(true),
        final(cpu)@.ready(),
        cost_ok(old(cpu)@.cycles, final(cpu)@.cycles),
{
    ops::jr(cpu, true)
}

/// ADD HL,DE.
pub fn add_hl_de(cpu: &mut CPU)
    requires
        old(cpu)@.ready(),
    ensures
        final(cpu)@ == old(cpu)@.add_hl(old(cpu)@.pair(D as int, E as int)),
        final(cpu)@.ready(),
        cost_ok(old(cpu)@.cycles, final(cpu)@.cycles),
{
    let v = cpu.get_pair(D, E);
    ops::add_hl(cpu, v)
}

/// LD A,(DE).
pub fn ld_a_deind(cpu: &mut CPU)
    requires
        old(cpu)@.ready(),
    ensures
        final(cpu)@ == old(cpu)@.ld_r_ind(A as int, D as int, E as int),
        final(cpu)@.ready(),
        cost_ok(old(cpu)@.cycles, final(cpu)@.cycles),
{
    ops::ld_r_ind(cpu, A, D, E)
}

/// DEC DE.
pub fn dec_de(cpu: &mut CPU)
    requires
        old(cpu)@.ready(),
    ensures
        final(cpu)@ == old(cpu)@.dec_pair(D as int, E as int),
        final(cpu)@.ready(),
        cost_ok(old(cpu)@.cycles, final(cpu)@.cycles),
{
    ops::dec_pair(cpu, D, E)
}

/// INC E.
pub fn inc_e(cpu: &mut CPU)
    requires
        old(cpu)@.ready(),
    ensures
        final(cpu)@ == old(cpu)@.inc_r(E as int),
        final(cpu)@.ready(),
        cost_ok(old(cpu)@.cycles, final(cpu)@.cycles),
{
    ops::inc_r(cpu, E)
}

/// DEC E.
pub fn dec_e(cpu: &mut CPU)
    requires
        old(cpu)@.ready(),
    ensures
        final(cpu)@ == old(cpu)@.dec_r(E as int),
        final(cpu)@.ready(),
        cost_ok(old(cpu)@.cycles, final(cpu)@.cycles),
{
    ops::dec_r(cpu, E)
}

/// LD E,u8.
pub fn ld_e_u8(cpu: &mut CPU)
    requires
        old(cpu)@.ready(),
    ensures
        final(cpu)@ == old(cpu)@.ld_r_u8(E as int),
        final(cpu)@.ready(),
        cost_ok(old(cpu)@.cycles, final(cpu)@.cycles),
{
    ops::ld_r_u8(cpu, E)
}

/// RRA.
pub fn rra(cpu: &mut CPU)
    requires
        old(cpu)@.ready(),
    ensures
        final(cpu)@ == old(cpu)@.rot_a(Shift::Rr),
        final(cpu)@.ready(),
        cost_ok(old(cpu)@.cycles, final(cpu)@.cycles),
{
    ops::rot_a(cpu, Shift::Rr)
}

/// JR NZ,i8.
pub fn jr_nz_i8(cpu: &mut CPU)
    requires
        old(cpu)@.ready(),
    ensures
        final(cpu)@ == old(cpu)@.jr(old(cpu)@.cond(0)),
        final(cpu)@.ready(),
        cost_ok(old(cpu)@.cycles, final(cpu)@.cycles),
{
    let t = ops::cond(cpu, 0);
    ops::jr(cpu, t)
}

/// LD HL,u16.
pub fn ld_hl_u16(cpu: &mut CPU)
    requires
        old(cpu)@.ready(),
    ensures
        final(cpu)@ == old(cpu)@.ld_pair_u16(H as int, L as int),
        final(cpu)@.ready(),
        cost_ok(old(cpu)@.cycles, final(cpu)@.cycles),
{
    ops::ld_pair_u16(cpu, H, L)
}

/// LD (HL+),A.
pub fn ld_hlindinc_a(cpu: &mut CPU)
    requires
        old(cpu)@.ready(),
    ensures
        final(cpu)@ == old(cpu)@.ld_hl_step_a(1),
        final(cpu)@.ready(),
        cost_ok(old(cpu)@.cycles, final(cpu)@.cycles),
{
    ops::ld_hl_step_a(cpu, 1)
}

/// INC HL.
pub fn inc_hl(cpu: &mut CPU)
    requires
        old(cpu)@.ready(),
    ensures
        final(cpu)@ == old(cpu)@.inc_pair(H as int, L as int),
        final(cpu)@.ready(),
        cost_ok(old(cpu)@.cycles, final(cpu)@.cycles),
{
    ops::inc_pair(cpu, H, L)
}

/// INC H.
pub fn inc_h(cpu: &mut CPU)
    requires
        old(cpu)@.ready(),
    ensures
        final(cpu)@ == old(cpu)@.inc_r(H as int),
        final(cpu)@.ready(),
        cost_ok(old(cpu)@.cycles, final(cpu)@.cycles),
{
    ops::inc_r(cpu, H)
}

/// DEC H.
pub fn dec_h(cpu: &mut CPU)
    requires
        old(cpu)@.ready(),
    ensures
        final(cpu)@ == old(cpu)@.dec_r(H as int),
        final(cpu)@.ready(),
        cost_ok(old(cpu)@.cycles, final(cpu)@.cycles),
{
    ops::dec_r(cpu, H)
}

/// LD H,u8.
pub fn ld_h_u8(cpu: &mut CPU)
    requires
        old(cpu)@.ready(),
    ensures
        final(cpu)@ == old(cpu)@.ld_r_u8(H as int),
        final(cpu)@.ready(),
        cost_ok(old(cpu)@.cycles, final(cpu)@.cycles),
{
    ops::ld_r_u8(cpu, H)
}

/// DAA.
pub fn daa(cpu: &mut CPU)
    requires
        old(cpu)@.ready(),
    ensures
        final(cpu)@ == old(cpu)@.daa(),
        final(cpu)@.ready(),
        cost_ok(old(cpu)@.cycles, final(cpu)@.cycles),
{
    ops::daa(cpu)
}

/// JR Z,i8.
pub fn jr_z_i8(cpu: &mut CPU)
    requires
        old(cpu)@.ready(),
    ensures
        final(cpu)@ == old(cpu)@.jr(old(cpu)@.cond(1)),
        final(cpu)@.ready(),
        cost_ok(old(cpu)@.cycles, final(cpu)@.cycles),
{
    let t = ops::cond(cpu, 1);
    ops::jr(cpu, t)
}

/// ADD HL,HL.
pub fn add_hl_hl(cpu: &mut CPU)
    requires
        old(cpu)@.ready(),
    ensures
        final(cpu)@ == old(cpu)@.add_hl(old(cpu)@.pair(H as int, L as int)),
        final(cpu)@.ready(),
        cost_ok(old(cpu)@.cycles, final(cpu)@.cycles),
{
    let v = cpu.get_pair(H, L);
    ops::add_hl(cpu, v)
}

/// LD A,(HL+).
pub fn ld_a_hlindinc(cpu: &mut CPU)
    requires
        old(cpu)@.ready(),
    ensures
        final(cpu)@ == old(cpu)@.ld_a_hl_step(1),
        final(cpu)@.ready(),
        cost_ok(old(cpu)@.cycles, final(cpu)@.cycles),
{
    ops::ld_a_hl_step(cpu, 1)
}

/// DEC HL.
pub fn dec_hl(cpu: &mut CPU)
    requires
        old(cpu)@.ready(),
    ensures
        final(cpu)@ == old(cpu)@.dec_pair(H as int, L as int),
        final(cpu)@.ready(),
        cost_ok(old(cpu)@.cycles, final(cpu)@.cycles),
{
    ops::dec_pair(cpu, H, L)
}

/// INC L.
pub fn inc_l(cpu: &mut CPU)
    requires
        old(cpu)@.ready(),
    ensures
        final(cpu)@ == old(cpu)@.inc_r(L as int),
        final(cpu)@.ready(),
        cost_ok(old(cpu)@.cycles, final(cpu)@.cycles),
{
    ops::inc_r(cpu, L)
}

/// DEC L.
pub fn dec_l(cpu: &mut CPU)
    requires
        old(cpu)@.ready(),
    ensures
        final(cpu)@ == old(cpu)@.dec_r(L as int),
        final(cpu)@.ready(),
        cost_ok(old(cpu)@.cycles, final(cpu)@.cycles),
{
    ops::dec_r(cpu, L)
}

/// LD L,u8.
pub fn ld_l_u8(cpu: &mut CPU)
    requires
        old(cpu)@.ready(),
    ensures
        final(cpu)@ == old(cpu)@.ld_r_u8(L as int),
        final(cpu)@.ready(),
        cost_ok(old(cpu)@.cycles, final(cpu)@.cycles),
{
    ops::ld_r_u8(cpu, L)
}

/// CPL.
pub fn cpl(cpu: &mut CPU)
    requires
        old(cpu)@.ready(),
    ensures
        final(cpu)@ == old(cpu)@.cpl(),
        final(cpu)@.ready(),
        cost_ok(old(cpu)@.cycles, final(cpu)@.cycles),
{
    ops::cpl(cpu)
}

/// JR NC,i8.
pub fn jr_nc_i8(cpu: &mut CPU)
    requires
        old(cpu)@.ready(),
    ensures
        final(cpu)@ == old(cpu)@.jr(old(cpu)@.cond(2)),
        final(cpu)@.ready(),
        cost_ok(old(cpu)@.cycles, final(cpu)@.cycles),
{
    let t = ops::cond(cpu, 2);
    ops::jr(cpu, t)
}

/// LD SP,u16.
pub fn ld_sp_u16(cpu: &mut CPU)
    requires
        old(cpu)@.ready(),
    ensures
        final(cpu)@ == old(cpu)@.ld_sp_u16(),
        final(cpu)@.ready(),
        cost_ok(old(cpu)@.cycles, final(cpu)@.cycles),
{
    ops::ld_sp_u16(cpu)
}

/// LD (HL-),A.
pub fn ld_hlinddec_a(cpu: &mut CPU)
    requires
        old(cpu)@.ready(),
    ensures
        final(cpu)@ == old(cpu)@.ld_hl_step_a(0xFFFF),
        final(cpu)@.ready(),
        cost_ok(old(cpu)@.cycles, final(cpu)@.cycles),
{
    ops::ld_hl_step_a(cpu, 0xFFFF)
}

/// INC SP.
pub fn inc_sp(cpu: &mut CPU)
    requires
        old(cpu)@.ready(),
    ensures
        final(cpu)@ == old(cpu)@.inc_sp(),
        final(cpu)@.ready(),
        cost_ok(old(cpu)@.cycles, final(cpu)@.cycles),
{
    ops::inc_sp(cpu)
}

/// INC (HL).
pub fn inc_hlind(cpu: &mut CPU)
    requires
        old(cpu)@.ready(),
    ensures
        final(cpu)@ == old(cpu)@.inc_hl_ind(),
        final(cpu)@.ready(),
        cost_ok(old(cpu)@.cycles, final(cpu)@.cycles),
{
    ops::inc_hl_ind(cpu)
}

/// DEC (HL).
pub fn dec_hlind(cpu: &mut CPU)
    requires
        old(cpu)@.ready(),
    ensures
        final(cpu)@ == old(cpu)@.dec_hl_ind(),
        final(cpu)@.ready(),
        cost_ok(old(cpu)@.cycles, final(cpu)@.cycles),
{
    ops::dec_hl_ind(cpu)
}

/// LD (HL),u8.
pub fn ld_hlind_u8(cpu: &mut CPU)
    requires
        old(cpu)@.ready(),
    ensures
        final(cpu)@ == old(cpu)@.ld_hl_u8(),
        final(cpu)@.ready(),
        cost_ok(old(cpu)@.cycles, final(cpu)@.cycles),
{
    ops::ld_hl_u8(cpu)
}

/// SCF.
pub fn scf(cpu: &mut CPU)
    requires
        old(cpu)@.ready(),
    ensures
        final(cpu)@ == old(cpu)@.scf(),
        final(cpu)@.ready(),
        cost_ok(old(cpu)@.cycles, final(cpu)@.cycles),
{
    ops::scf(cpu)
}

/// JR C,i8.
pub fn jr_c_i8(cpu: &mut CPU)
    requires
        old(cpu)@.ready(),
    ensures
        final(cpu)@ == old(cpu)@.jr(old(cpu)@.cond(3)),
        final(cpu)@.ready(),
        cost_ok(old(cpu)@.cycles, final(cpu)@.cycles),
{
    let t = ops::cond(cpu, 3);
    ops::jr(cpu, t)
}

/// ADD HL,SP.
pub fn add_hl_sp(cpu: &mut CPU)
    requires
        old(cpu)@.ready(),
    ensures
        final(cpu)@ == old(cpu)@.add_hl(old(cpu)@.sp),
        final(cpu)@.ready(),
        cost_ok(old(cpu)@.cycles, final(cpu)@.cycles),
{
    let v = cpu.sp;
    ops::add_hl(cpu, v)
}

/// LD A,(HL-).
pub fn ld_a_hlinddec(cpu: &mut CPU)
    requires
        old(cpu)@.ready(),
    ensures
        final(cpu)@ == old(cpu)@.ld_a_hl_step(0xFFFF),
        final(cpu)@.ready(),
        cost_ok(old(cpu)@.cycles, final(cpu)@.cycles),
{
    ops::ld_a_hl_step(cpu, 0xFFFF)
}

/// DEC SP.
pub fn dec_sp(cpu: &mut CPU)
    requires
        old(cpu)@.ready(),
    ensures
        final(cpu)@ == old(cpu)@.dec_sp(),
        final(cpu)@.ready(),
        cost_ok(old(cpu)@.cycles, final(cpu)@.cycles),
{
    ops::dec_sp(cpu)
}

/// INC A.
pub fn inc_a(cpu: &mut CPU)
    requires
        old(cpu)@.ready(),
    ensures
        final(cpu)@ == old(cpu)@.inc_r(A as int),
        final(cpu)@.ready(),
        cost_ok(old(cpu)@.cycles, final(cpu)@.cycles),
{
    ops::inc_r(cpu, A)
}

/// DEC A.
pub fn dec_a(cpu: &mut CPU)
    requires
        old(cpu)@.ready(),
    ensures
        final(cpu)@ == old(cpu)@.dec_r(A as int),
        final(cpu)@.ready(),
        cost_ok(old(cpu)@.cycles, final(cpu)@.cycles),
{
    ops::dec_r(cpu, A)
}

/// LD A,u8.
pub fn ld_a_u8(cpu: &mut CPU)
    requires
        old(cpu)@.ready(),
    ensures
        final(cpu)@ == old(cpu)@.ld_r_u8(A as int),
        final(cpu)@.ready(),
        cost_ok(old(cpu)@.cycles, final(cpu)@.cycles),
{
    ops::ld_r_u8(cpu, A)
}

/// CCF.
pub fn ccf(cpu: &mut CPU)
    requires
        old(cpu)@.ready(),
    ensures
        final(cpu)@ == old(cpu)@.ccf(),
        final(cpu)@.ready(),
        cost_ok(old(cpu)@.cycles, final(cpu)@.cycles),
{
    ops::ccf(cpu)
}

/// LD B,B.
pub fn ld_b_b(cpu: &mut CPU)
    requires
        old(cpu)@.ready(),
    ensures
        final(cpu)@ == old(cpu)@.ld_rr(B as int, B as int),
        final(cpu)@.ready(),
        cost_ok(old(cpu)@.cycles, final(cpu)@.cycles),
{
    ops::ld_rr(cpu, B, B)
}

/// LD B,C.
pub fn ld_b_c(cpu: &mut CPU)
    requires
        old(cpu)@.ready(),
    ensures
        final(cpu)@ == old(cpu)@.ld_rr(B as int, C as int),
        final(cpu)@.ready(),
        cost_ok(old(cpu)@.cycles, final(cpu)@.cycles),
{
    ops::ld_rr(cpu, B, C)
}

/// LD B,D.
pub fn ld_b_d(cpu: &mut CPU)
    requires
        old(cpu)@.ready(),
    ensures
        final(cpu)@ == old(cpu)@.ld_rr(B as int, D as int),
        final(cpu)@.ready(),
        cost_ok(old(cpu)@.cycles, final(cpu)@.cycles),
{
    ops::ld_rr(cpu, B, D)
}

/// LD B,E.
pub fn ld_b_e(cpu: &mut CPU)
    requires
        old(cpu)@.ready(),
    ensures
        final(cpu)@ == old(cpu)@.ld_rr(B as int, E as int),
        final(cpu)@.ready(),
        cost_ok(old(cpu)@.cycles, final(cpu)@.cycles),
{
    ops::ld_rr(cpu, B, E)
}

/// LD B,H.
pub fn ld_b_h(cpu: &mut CPU)
    requires
        old(cpu)@.ready(),
    ensures
        final(cpu)@ == old(cpu)@.ld_rr(B as int, H as int),
        final(cpu)@.ready(),
        cost_ok(old(cpu)@.cycles, final(cpu)@.cycles),
{
    ops::ld_rr(cpu, B, H)
}

/// LD B,L.
pub fn ld_b_l(cpu: &mut CPU)
    requires
        old(cpu)@.ready(),
    ensures
        final(cpu)@ == old(cpu)@.ld_rr(B as int, L as int),
        final(cpu)@.ready(),
        cost_ok(old(cpu)@.cycles, final(cpu)@.cycles),
{
    ops::ld_rr(cpu, B, L)
}

/// LD B,(HL).
pub fn ld_b_hlind(cpu: &mut CPU)
    requires
        old(cpu)@.ready(),
    ensures
        final(cpu)@ == old(cpu)@.ld_r_ind(B as int, H as int, L as int),
        final(cpu)@.ready(),
        cost_ok(old(cpu)@.cycles, final(cpu)@.cycles),
{
    ops::ld_r_ind(cpu, B, H, L)
}

/// LD B,A.
pub fn ld_b_a(cpu: &mut CPU)
    requires
        old(cpu)@.ready(),
    ensures
        final(cpu)@ == old(cpu)@.ld_rr(B as int, A as int),
        final(cpu)@.ready(),
        cost_ok(old(cpu)@.cycles, final(cpu)@.cycles),
{
    ops::ld_rr(cpu, B, A)
}

/// LD C,B.
pub fn ld_c_b(cpu: &mut CPU)
    requires
        old(cpu)@.ready(),
    ensures
        final(cpu)@ == old(cpu)@.ld_rr(C as int, B as int),
        final(cpu)@.ready(),
        cost_ok(old(cpu)@.cycles, final(cpu)@.cycles),
{
    ops::ld_rr(cpu, C, B)
}

/// LD C,C.
pub fn ld_c_c(cpu: &mut CPU)
    requires
        old(cpu)@.ready(),
    ensures
        final(cpu)@ == old(cpu)@.ld_rr(C as int, C as int),
        final(cpu)@.ready(),
        cost_ok(old(cpu)@.cycles, final(cpu)@.cycles),
{
    ops::ld_rr(cpu, C, C)
}

/// LD C,D.
pub fn ld_c_d(cpu: &mut CPU)
    requires
        old(cpu)@.ready(),
    ensures
        final(cpu)@ == old(cpu)@.ld_rr(C as int, D as int),
        final(cpu)@.ready(),
        cost_ok(old(cpu)@.cycles, final(cpu)@.cycles),
{
    ops::ld_rr(cpu, C, D)
}

/// LD C,E.
pub fn ld_c_e(cpu: &mut CPU)
    requires
        old(cpu)@.ready(),
    ensures
        final(cpu)@ == old(cpu)@.ld_rr(C as int, E as int),
        final(cpu)@.ready(),
        cost_ok(old(cpu)@.cycles, final(cpu)@.cycles),
{
    ops::ld_rr(cpu, C, E)
}

/// LD C,H.
pub fn ld_c_h(cpu: &mut CPU)
    requires
        old(cpu)@.ready(),
    ensures
        final(cpu)@ == old(cpu)@.ld_rr(C as int, H as int),
        final(cpu)@.ready(),
        cost_ok(old(cpu)@.cycles, final(cpu)@.cycles),
{
    ops::ld_rr(cpu, C, H)
}

/// LD C,L.
pub fn ld_c_l(cpu: &mut CPU)
    requires
        old(cpu)@.ready(),
    ensures
        final(cpu)@ == old(cpu)@.ld_rr(C as int, L as int),
        final(cpu)@.ready(),
        cost_ok(old(cpu)@.cycles, final(cpu)@.cycles),
{
    ops::ld_rr(cpu, C, L)
}

/// LD C,(HL).
pub fn ld_c_hlind(cpu: &mut CPU)
    requires
        old(cpu)@.ready(),
    ensures
        final(cpu)@ == old(cpu)@.ld_r_ind(C as int, H as int, L as int),
        final(cpu)@.ready(),
        cost_ok(old(cpu)@.cycles, final(cpu)@.cycles),
{
    ops::ld_r_ind(cpu, C, H, L)
}

/// LD C,A.
pub fn ld_c_a(cpu: &mut CPU)
    requires
        old(cpu)@.ready(),
    ensures
        final(cpu)@ == old(cpu)@.ld_rr(C as int, A as int),
        final(cpu)@.ready(),
        cost_ok(old(cpu)@.cycles, final(cpu)@.cycles),
{
    ops::ld_rr(cpu, C, A)
}

/// LD D,B.
pub fn ld_d_b(cpu: &mut CPU)
    requires
        old(cpu)@.ready(),
    ensures
        final(cpu)@ == old(cpu)@.ld_rr(D as int, B as int),
        final(cpu)@.ready(),
        cost_ok(old(cpu)@.cycles, final(cpu)@.cycles),
{
    ops::ld_rr(cpu, D, B)
}

/// LD D,C.
pub fn ld_d_c(cpu: &mut CPU)
    requires
        old(cpu)@.ready(),
    ensures
        final(cpu)@ == old(cpu)@.ld_rr(D as int, C as int),
        final(cpu)@.ready(),
        cost_ok(old(cpu)@.cycles, final(cpu)@.cycles),
{
    ops::ld_rr(cpu, D, C)
}

/// LD D,D.
pub fn ld_d_d(cpu: &mut CPU)
    requires
        old(cpu)@.ready(),
    ensures
        final(cpu)@ == old(cpu)@.ld_rr(D as int, D as int),
        final(cpu)@.ready(),
        cost_ok(old(cpu)@.cycles, final(cpu)@.cycles),
{
    ops::ld_rr(cpu, D, D)
}

/// LD D,E.
pub fn ld_d_e(cpu: &mut CPU)
    requires
        old(cpu)@.ready(),
    ensures
        final(cpu)@ == old(cpu)@.ld_rr(D as int, E as int),
        final(cpu)@.ready(),
        cost_ok(old(cpu)@.cycles, final(cpu)@.cycles),
{
    ops::ld_rr(cpu, D, E)
}

/// LD D,H.
pub fn ld_d_h(cpu: &mut CPU)
    requires
        old(cpu)@.ready(),
    ensures
        final(cpu)@ == old(cpu)@.ld_rr(D as int, H as int),
        final(cpu)@.ready(),
        cost_ok(old(cpu)@.cycles, final(cpu)@.cycles),
{
    ops::ld_rr(cpu, D, H)
}

/// LD D,L.
pub fn ld_d_l(cpu: &mut CPU)
    requires
        old(cpu)@.ready(),
    ensures
        final(cpu)@ == old(cpu)@.ld_rr(D as int, L as int),
        final(cpu)@.ready(),
        cost_ok(old(cpu)@.cycles, final(cpu)@.cycles),
{
    ops::ld_rr(cpu, D, L)
}

/// LD D,(HL).
pub fn ld_d_hlind(cpu: &mut CPU)
    requires
        old(cpu)@.ready(),
    ensures
        final(cpu)@ == old(cpu)@.ld_r_ind(D as int, H as int, L as int),
        final(cpu)@.ready(),
        cost_ok(old(cpu)@.cycles, final(cpu)@.cycles),
{
    ops::ld_r_ind(cpu, D, H, L)
}

/// LD D,A.
pub fn ld_d_a(cpu: &mut CPU)
    requires
        old(cpu)@.ready(),
    ensures
        final(cpu)@ == old(cpu)@.ld_rr(D as int, A as int),
        final(cpu)@.ready(),
        cost_ok(old(cpu)@.cycles, final(cpu)@.cycles),
{
    ops::ld_rr(cpu, D, A)
}

/// LD E,B.
pub fn ld_e_b(cpu: &mut CPU)
    requires
        old(cpu)@.ready(),
    ensures
        final(cpu)@ == old(cpu)@.ld_rr(E as int, B as int),
        final(cpu)@.ready(),
        cost_ok(old(cpu)@.cycles, final(cpu)@.cycles),
{
    ops::ld_rr(cpu, E, B)
}

/// LD E,C.
pub fn ld_e_c(cpu: &mut CPU)
    requires
        old(cpu)@.ready(),
    ensures
        final(cpu)@ == old(cpu)@.ld_rr(E as int, C as int),
        final(cpu)@.ready(),
        cost_ok(old(cpu)@.cycles, final(cpu)@.cycles),
{
    ops::ld_rr(cpu, E, C)
}

/// LD E,D.
pub fn ld_e_d(cpu: &mut CPU)
    requires
        old(cpu)@.ready(),
    ensures
        final(cpu)@ == old(cpu)@.ld_rr(E as int, D as int),
        final(cpu)@.ready(),
        cost_ok(old(cpu)@.cycles, final(cpu)@.cycles),
{
    ops::ld_rr(cpu, E, D)
}

/// LD E,E.
pub fn ld_e_e(cpu: &mut CPU)
    requires
        old(cpu)@.ready(),
    ensures
        final(cpu)@ == old(cpu)@.ld_rr(E as int, E as int),
        final(cpu)@.ready(),
        cost_ok(old(cpu)@.cycles, final(cpu)@.cycles),
{
    ops::ld_rr(cpu, E, E)
}

/// LD E,H.
pub fn ld_e_h(cpu: &mut CPU)
    requires
        old(cpu)@.ready(),
    ensures
        final(cpu)@ == old(cpu)@.ld_rr(E as int, H as int),
        final(cpu)@.ready(),
        cost_ok(old(cpu)@.cycles, final(cpu)@.cycles),
{
    ops::ld_rr(cpu, E, H)
}

/// LD E,L.
pub fn ld_e_l(cpu: &mut CPU)
    requires
        old(cpu)@.ready(),
    ensures
        final(cpu)@ == old(cpu)@.ld_rr(E as int, L as int),
        final(cpu)@.ready(),
        cost_ok(old(cpu)@.cycles, final(cpu)@.cycles),
{
    ops::ld_rr(cpu, E, L)
}

/// LD E,(HL).
pub fn ld_e_hlind(cpu: &mut CPU)
    requires
        old(cpu)@.ready(),
    ensures
        final(cpu)@ == old(cpu)@.ld_r_ind(E as int, H as int, L as int),
        final(cpu)@.ready(),
        cost_ok(old(cpu)@.cycles, final(cpu)@.cycles),
{
    ops::ld_r_ind(cpu, E, H, L)
}

/// LD E,A.
pub fn ld_e_a(cpu: &mut CPU)
    requires
        old(cpu)@.ready(),
    ensures
        final(cpu)@ == old(cpu)@.ld_rr(E as int, A as int),
        final(cpu)@.ready(),
        cost_ok(old(cpu)@.cycles, final(cpu)@.cycles),
{
    ops::ld_rr(cpu, E, A)
}

/// LD H,B.
pub fn ld_h_b(cpu: &mut CPU)
    requires
        old(cpu)@.ready(),
    ensures
        final(cpu)@ == old(cpu)@.ld_rr(H as int, B as int),
        final(cpu)@.ready(),
        cost_ok(old(cpu)@.cycles, final(cpu)@.cycles),
{
    ops::ld_rr(cpu, H, B)
}

/// LD H,C.
pub fn ld_h_c(cpu: &mut CPU)
    requires
        old(cpu)@.ready(),
    ensures
        final(cpu)@ == old(cpu)@.ld_rr(H as int, C as int),
        final(cpu)@.ready(),
        cost_ok(old(cpu)@.cycles, final(cpu)@.cycles),
{
    ops::ld_rr(cpu, H, C)
}

/// LD H,D.
pub fn ld_h_d(cpu: &mut CPU)
    requires
        old(cpu)@.ready(),
    ensures
        final(cpu)@ == old(cpu)@.ld_rr(H as int, D as int),
        final(cpu)@.ready(),
        cost_ok(old(cpu)@.cycles, final(cpu)@.cycles),
{
    ops::ld_rr(cpu, H, D)
}

/// LD H,E.
pub fn ld_h_e(cpu: &mut CPU)
    requires
        old(cpu)@.ready(),
    ensures
        final(cpu)@ == old(cpu)@.ld_rr(H as int, E as int),
        final(cpu)@.ready(),
        cost_ok(old(cpu)@.cycles, final(cpu)@.cycles),
{
    ops::ld_rr(cpu, H, E)
}

/// LD H,H.
pub fn ld_h_h(cpu: &mut CPU)
    requires
        old(cpu)@.ready(),
    ensures
        final(cpu)@ == old(cpu)@.ld_rr(H as int, H as int),
        final(cpu)@.ready(),
        cost_ok(old(cpu)@.cycles, final(cpu)@.cycles),
{
    ops::ld_rr(cpu, H, H)
}

/// LD H,L.
pub fn ld_h_l(cpu: &mut CPU)
    requires
        old(cpu)@.ready(),
    ensures
        final(cpu)@ == old(cpu)@.ld_rr(H as int, L as int),
        final(cpu)@.ready(),
        cost_ok(old(cpu)@.cycles, final(cpu)@.cycles),
{
    ops::ld_rr(cpu, H, L)
}

/// LD H,(HL).
pub fn ld_h_hlind(cpu: &mut CPU)
    requires
        old(cpu)@.ready(),
    ensures
        final(cpu)@ == old(cpu)@.ld_r_ind(H as int, H as int, L as int),
        final(cpu)@.ready(),
        cost_ok(old(cpu)@.cycles, final(cpu)@.cycles),
{
    ops::ld_r_ind(cpu, H, H, L)
}

/// LD H,A.
pub fn ld_h_a(cpu: &mut CPU)
    requires
        old(cpu)@.ready(),
    ensures
        final(cpu)@ == old(cpu)@.ld_rr(H as int, A as int),
        final(cpu)@.ready(),
        cost_ok(old(cpu)@.cycles, final(cpu)@.cycles),
{
    ops::ld_rr(cpu, H, A)
}

/// LD L,B.
pub fn ld_l_b(cpu: &mut CPU)
    requires
        old(cpu)@.ready(),
    ensures
        final(cpu)@ == old(cpu)@.ld_rr(L as int, B as int),
        final(cpu)@.ready(),
        cost_ok(old(cpu)@.cycles, final(cpu)@.cycles),
{
    ops::ld_rr(cpu, L, B)
}

/// LD L,C.
pub fn ld_l_c(cpu: &mut CPU)
    requires
        old(cpu)@.ready(),
    ensures
        final(cpu)@ == old(cpu)@.ld_rr(L as int, C as int),
        final(cpu)@.ready(),
        cost_ok(old(cpu)@.cycles, final(cpu)@.cycles),
{
    ops::ld_rr(cpu, L, C)
}

/// LD L,D.
pub fn ld_l_d(cpu: &mut CPU)
    requires
        old(cpu)@.ready(),
    ensures
        final(cpu)@ == old(cpu)@.ld_rr(L as int, D as int),
        final(cpu)@.ready(),
        cost_ok(old(cpu)@.cycles, final(cpu)@.cycles),
{
    ops::ld_rr(cpu, L, D)
}

/// LD L,E.
pub fn ld_l_e(cpu: &mut CPU)
    requires
        old(cpu)@.ready(),
    ensures
        final(cpu)@ == old(cpu)@.ld_rr(L as int, E as int),
        final(cpu)@.ready(),
        cost_ok(old(cpu)@.cycles, final(cpu)@.cycles),
{
    ops::ld_rr(cpu, L, E)
}

/// LD L,H.
pub fn ld_l_h(cpu: &mut CPU)
    requires
        old(cpu)@.ready(),
    ensures
        final(cpu)@ == old(cpu)@.ld_rr(L as int, H as int),
        final(cpu)@.ready(),
        cost_ok(old(cpu)@.cycles, final(cpu)@.cycles),
{
    ops::ld_rr(cpu, L, H)
}

/// LD L,L.
pub fn ld_l_l(cpu: &mut CPU)
    requires
        old(cpu)@.ready(),
    ensures
        final(cpu)@ == old(cpu)@.ld_rr(L as int, L as int),
        final(cpu)@.ready(),
        cost_ok(old(cpu)@.cycles, final(cpu)@.cycles),
{
    ops::ld_rr(cpu, L, L)
}

/// LD L,(HL).
pub fn ld_l_hlind(cpu: &mut CPU)
    requires
        old(cpu)@.ready(),
    ensures
        final(cpu)@ == old(cpu)@.ld_r_ind(L as int, H as int, L as int),
        final(cpu)@.ready(),
        cost_ok(old(cpu)@.cycles, final(cpu)@.cycles),
{
    ops::ld_r_ind(cpu, L, H, L)
}

/// LD L,A.
pub fn ld_l_a(cpu: &mut CPU)
    requires
        old(cpu)@.ready(),
    ensures
        final(cpu)@ == old(cpu)@.ld_rr(L as int, A as int),
        final(cpu)@.ready(),
        cost_ok(old(cpu)@.cycles, final(cpu)@.cycles),
{
    ops::ld_rr(cpu, L, A)
}

/// LD (HL),B.
pub fn ld_hlind_b(cpu: &mut CPU)
    requires
        old(cpu)@.ready(),
    ensures
        final(cpu)@ == old(cpu)@.ld_ind_r(H as int, L as int, B as int),
        final(cpu)@.ready(),
        cost_ok(old(cpu)@.cycles, final(cpu)@.cycles),
{
    ops::ld_ind_r(cpu, H, L, B)
}

/// LD (HL),C.
pub fn ld_hlind_c(cpu: &mut CPU)
    requires
        old(cpu)@.ready(),
    ensures
        final(cpu)@ == old(cpu)@.ld_ind_r(H as int, L as int, C as int),
        final(cpu)@.ready(),
        cost_ok(old(cpu)@.cycles, final(cpu)@.cycles),
{
    ops::ld_ind_r(cpu, H, L, C)
}

/// LD (HL),D.
pub fn ld_hlind_d(cpu: &mut CPU)
    requires
        old(cpu)@.ready(),
    ensures
        final(cpu)@ == old(cpu)@.ld_ind_r(H as int, L as int, D as int),
        final(cpu)@.ready(),
        cost_ok(old(cpu)@.cycles, final(cpu)@.cycles),
{
    ops::ld_ind_r(cpu, H, L, D)
}

/// LD (HL),E.
pub fn ld_hlind_e(cpu: &mut CPU)
    requires
        old(cpu)@.ready(),
    ensures
        final(cpu)@ == old(cpu)@.ld_ind_r(H as int, L as int, E as int),
        final(cpu)@.ready(),
        cost_ok(old(cpu)@.cycles, final(cpu)@.cycles),
{
    ops::ld_ind_r(cpu, H, L, E)
}

/// LD (HL),H.
pub fn ld_hlind_h(cpu: &mut CPU)
    requires
        old(cpu)@.ready(),
    ensures
        final(cpu)@ == old(cpu)@.ld_ind_r(H as int, L as int, H as int),
        final(cpu)@.ready(),
        cost_ok(old(cpu)@.cycles, final(cpu)@.cycles),
{
    ops::ld_ind_r(cpu, H, L, H)
}

/// LD (HL),L.
pub fn ld_hlind_l(cpu: &mut CPU)
    requires
        old(cpu)@.ready(),
    ensures
        final(cpu)@ == old(cpu)@.ld_ind_r(H as int, L as int, L as int),
        final(cpu)@.ready(),
        cost_ok(old(cpu)@.cycles, final(cpu)@.cycles),
{
    ops::ld_ind_r(cpu, H, L, L)
}

/// HALT: stops fetching until an interrupt is pending.
pub fn halt(cpu: &mut CPU)
    requires
        old(cpu)@.ready(),
    ensures
        final(cpu)@ == old(cpu)@.halt_op(),
        final(cpu)@.ready(),
        cost_ok(old(cpu)@.cycles, final(cpu)@.cycles),
{
    proof {
        reveal(CpuView::halt_op);
    }
    cpu.halt = true;
    cpu.tick(4);
}

/// LD (HL),A.
pub fn ld_hlind_a(cpu: &mut CPU)
    requires
        old(cpu)@.ready(),
    ensures
        final(cpu)@ == old(cpu)@.ld_ind_r(H as int, L as int, A as int),
        final(cpu)@.ready(),
        cost_ok(old(cpu)@.cycles, final(cpu)@.cycles),
{
    ops::ld_ind_r(cpu, H, L, A)
}

/// LD A,B.
pub fn ld_a_b(cpu: &mut CPU)
    requires
        old(cpu)@.ready(),
    ensures
        final(cpu)@ == old(cpu)@.ld_rr(A as int, B as int),
        final(cpu)@.ready(),
        cost_ok(old(cpu)@.cycles, final(cpu)@.cycles),
{
    ops::ld_rr(cpu, A, B)
}

/// LD A,C.
pub fn ld_a_c(cpu: &mut CPU)
    requires
        old(cpu)@.ready(),
    ensures
        final(cpu)@ == old(cpu)@.ld_rr(A as int, C as int),
        final(cpu)@.ready(),
        cost_ok(old(cpu)@.cycles, final(cpu)@.cycles),
{
    ops::ld_rr(cpu, A, C)
}

/// LD A,D.
pub fn ld_a_d(cpu: &mut CPU)
    requires
        old(cpu)@.ready(),
    ensures
        final(cpu)@ == old(cpu)@.ld_rr(A as int, D as int),
        final(cpu)@.ready(),
        cost_ok(old(cpu)@.cycles, final(cpu)@.cycles),
{
    ops::ld_rr(cpu, A, D)
}

/// LD A,E.
pub fn ld_a_e(cpu: &mut CPU)
    requires
        old(cpu)@.ready(),
    ensures
        final(cpu)@ == old(cpu)@.ld_rr(A as int, E as int),
        final(cpu)@.ready(),
        cost_ok(old(cpu)@.cycles, final(cpu)@.cycles),
{
    ops::ld_rr(cpu, A, E)
}

/// LD A,H.
pub fn ld_a_h(cpu: &mut CPU)
    requires
        old(cpu)@.ready(),
    ensures
        final(cpu)@ == old(cpu)@.ld_rr(A as int, H as int),
        final(cpu)@.ready(),
        cost_ok(old(cpu)@.cycles, final(cpu)@.cycles),
{
    ops::ld_rr(cpu, A, H)
}

/// LD A,L.
pub fn ld_a_l(cpu: &mut CPU)
    requires
        old(cpu)@.ready(),
    ensures
        final(cpu)@ == old(cpu)@.ld_rr(A as int, L as int),
        final(cpu)@.ready(),
        cost_ok(old(cpu)@.cycles, final(cpu)@.cycles),
{
    ops::ld_rr(cpu, A, L)
}

/// LD A,(HL).
pub fn ld_a_hlind(cpu: &mut CPU)
    requires
        old(cpu)@.ready(),
    ensures
        final(cpu)@ == old(cpu)@.ld_r_ind(A as int, H as int, L as int),
        final(cpu)@.ready(),
        cost_ok(old(cpu)@.cycles, final(cpu)@.cycles),
{
    ops::ld_r_ind(cpu, A, H, L)
}

/// LD A,A.
pub fn ld_a_a(cpu: &mut CPU)
    requires
        old(cpu)@.ready(),
    ensures
        final(cpu)@ == old(cpu)@.ld_rr(A as int, A as int),
        final(cpu)@.ready(),
        cost_ok(old(cpu)@.cycles, final(cpu)@.cycles),
{
    ops::ld_rr(cpu, A, A)
}

/// ADD A,B.
pub fn add_a_b(cpu: &mut CPU)
    requires
        old(cpu)@.ready(),
    ensures
        final(cpu)@ == old(cpu)@.alu_r(AluOp::Add, B as int),
        final(cpu)@.ready(),
        cost_ok(old(cpu)@.cycles, final(cpu)@.cycles),
{
    ops::alu_r(cpu, AluOp::Add, B)
}

/// ADD A,C.
pub fn add_a_c(cpu: &mut CPU)
    requires
        old(cpu)@.ready(),
    ensures
        final(cpu)@ == old(cpu)@.alu_r(AluOp::Add, C as int),
        final(cpu)@.ready(),
        cost_ok(old(cpu)@.cycles, final(cpu)@.cycles),
{
    ops::alu_r(cpu, AluOp::Add, C)
}

/// ADD A,D.
pub fn add_a_d(cpu: &mut CPU)
    requires
        old(cpu)@.ready(),
    ensures
        final(cpu)@ == old(cpu)@.alu_r(AluOp::Add, D as int),
        final(cpu)@.ready(),
        cost_ok(old(cpu)@.cycles, final(cpu)@.cycles),
{
    ops::alu_r(cpu, AluOp::Add, D)
}

/// ADD A,E.
pub fn add_a_e(cpu: &mut CPU)
    requires
        old(cpu)@.ready(),
    ensures
        final(cpu)@ == old(cpu)@.alu_r(AluOp::Add, E as int),
        final(cpu)@.ready(),
        cost_ok(old(cpu)@.cycles, final(cpu)@.cycles),
{
    ops::alu_r(cpu, AluOp::Add, E)
}

/// ADD A,H.
pub fn add_a_h(cpu: &mut CPU)
    requires
        old(cpu)@.ready(),
    ensures
        final(cpu)@ == old(cpu)@.alu_r(AluOp::Add, H as int),
        final(cpu)@.ready(),
        cost_ok(old(cpu)@.cycles, final(cpu)@.cycles),
{
    ops::alu_r(cpu, AluOp::Add, H)
}

/// ADD A,L.
pub fn add_a_l(cpu: &mut CPU)
    requires
        old(cpu)@.ready(),
    ensures
        final(cpu)@ == old(cpu)@.alu_r(AluOp::Add, L as int),
        final(cpu)@.ready(),
        cost_ok(old(cpu)@.cycles, final(cpu)@.cycles),
{
    ops::alu_r(cpu, AluOp::Add, L)
}

/// ADD A,(HL).
pub fn add_a_hlind(cpu: &mut CPU)
    requires
        old(cpu)@.ready(),
    ensures
        final(cpu)@ == old(cpu)@.alu_hl(AluOp::Add),
        final(cpu)@.ready(),
        cost_ok(old(cpu)@.cycles, final(cpu)@.cycles),
{
    ops::alu_hl(cpu, AluOp::Add)
}

/// ADD A,A.
pub fn add_a_a(cpu: &mut CPU)
    requires
        old(cpu)@.ready(),
    ensures
        final(cpu)@ == old(cpu)@.alu_r(AluOp::Add, A as int),
        final(cpu)@.ready(),
        cost_ok(old(cpu)@.cycles, final(cpu)@.cycles),
{
    ops::alu_r(cpu, AluOp::Add, A)
}

/// ADC A,B.
pub fn adc_a_b(cpu: &mut CPU)
    requires
        old(cpu)@.ready(),
    ensures
        final(cpu)@ == old(cpu)@.alu_r(AluOp::Adc, B as int),
        final(cpu)@.ready(),
        cost_ok(old(cpu)@.cycles, final(cpu)@.cycles),
{
    ops::alu_r(cpu, AluOp::Adc, B)
}

/// ADC A,C.
pub fn adc_a_c(cpu: &mut CPU)
    requires
        old(cpu)@.ready(),
    ensures
        final(cpu)@ == old(cpu)@.alu_r(AluOp::Adc, C as int),
        final(cpu)@.ready(),
        cost_ok(old(cpu)@.cycles, final(cpu)@.cycles),
{
    ops::alu_r(cpu, AluOp::Adc, C)
}

/// ADC A,D.
pub fn adc_a_d(cpu: &mut CPU)
    requires
        old(cpu)@.ready(),
    ensures
        final(cpu)@ == old(cpu)@.alu_r(AluOp::Adc, D as int),
        final(cpu)@.ready(),
        cost_ok(old(cpu)@.cycles, final(cpu)@.cycles),
{
    ops::alu_r(cpu, AluOp::Adc, D)
}

/// ADC A,E.
pub fn adc_a_e(cpu: &mut CPU)
    requires
        old(cpu)@.ready(),
    ensures
        final(cpu)@ == old(cpu)@.alu_r(AluOp::Adc, E as int),
        final(cpu)@.ready(),
        cost_ok(old(cpu)@.cycles, final(cpu)@.cycles),
{
    ops::alu_r(cpu, AluOp::Adc, E)
}

/// ADC A,H.
pub fn adc_a_h(cpu: &mut CPU)
    requires
        old(cpu)@.ready(),
    ensures
        final(cpu)@ == old(cpu)@.alu_r(AluOp::Adc, H as int),
        final(cpu)@.ready(),
        cost_ok(old(cpu)@.cycles, final(cpu)@.cycles),
{
    ops::alu_r(cpu, AluOp::Adc, H)
}

/// ADC A,L.
pub fn adc_a_l(cpu: &mut CPU)
    requires
        old(cpu)@.ready(),
    ensures
        final(cpu)@ == old(cpu)@.alu_r(AluOp::Adc, L as int),
        final(cpu)@.ready(),
        cost_ok(old(cpu)@.cycles, final(cpu)@.cycles),
{
    ops::alu_r(cpu, AluOp::Adc, L)
}

/// ADC A,(HL).
pub fn adc_a_hlind(cpu: &mut CPU)
    requires
        old(cpu)@.ready(),
    ensures
        final(cpu)@ == old(cpu)@.alu_hl(AluOp::Adc),
        final(cpu)@.ready(),
        cost_ok(old(cpu)@.cycles, final(cpu)@.cycles),
{
    ops::alu_hl(cpu, AluOp::Adc)
}

/// ADC A,A.
pub fn adc_a_a(cpu: &mut CPU)
    requires
        old(cpu)@.ready(),
    ensures
        final(cpu)@ == old(cpu)@.alu_r(AluOp::Adc, A as int),
        final(cpu)@.ready(),
        cost_ok(old(cpu)@.cycles, final(cpu)@.cycles),
{
    ops::alu_r(cpu, AluOp::Adc, A)
}

/// SUB A,B.
pub fn sub_a_b(cpu: &mut CPU)
    requires
        old(cpu)@.ready(),
    ensures
        final(cpu)@ == old(cpu)@.alu_r(AluOp::Sub, B as int),
        final(cpu)@.ready(),
        cost_ok(old(cpu)@.cycles, final(cpu)@.cycles),
{
    ops::alu_r(cpu, AluOp::Sub, B)
}

/// SUB A,C.
pub fn sub_a_c(cpu: &mut CPU)
    requires
        old(cpu)@.ready(),
    ensures
        final(cpu)@ == old(cpu)@.alu_r(AluOp::Sub, C as int),
        final(cpu)@.ready(),
        cost_ok(old(cpu)@.cycles, final(cpu)@.cycles),
{
    ops::alu_r(cpu, AluOp::Sub, C)
}

/// SUB A,D.
pub fn sub_a_d(cpu: &mut CPU)
    requires
        old(cpu)@.ready(),
    ensures
        final(cpu)@ == old(cpu)@.alu_r(AluOp::Sub, D as int),
        final(cpu)@.ready(),
        cost_ok(old(cpu)@.cycles, final(cpu)@.cycles),
{
    ops::alu_r(cpu, AluOp::Sub, D)
}

/// SUB A,E.
pub fn sub_a_e(cpu: &mut CPU)
    requires
        old(cpu)@.ready(),
    ensures
        final(cpu)@ == old(cpu)@.alu_r(AluOp::Sub, E as int),
        final(cpu)@.ready(),
        cost_ok(old(cpu)@.cycles, final(cpu)@.cycles),
{
    ops::alu_r(cpu, AluOp::Sub, E)
}

/// SUB A,H.
pub fn sub_a_h(cpu: &mut CPU)
    requires
        old(cpu)@.ready(),
    ensures
        final(cpu)@ == old(cpu)@.alu_r(AluOp::Sub, H as int),
        final(cpu)@.ready(),
        cost_ok(old(cpu)@.cycles, final(cpu)@.cycles),
{
    ops::alu_r(cpu, AluOp::Sub, H)
}

/// SUB A,L.
pub fn sub_a_l(cpu: &mut CPU)
    requires
        old(cpu)@.ready(),
    ensures
        final(cpu)@ == old(cpu)@.alu_r(AluOp::Sub, L as int),
        final(cpu)@.ready(),
        cost_ok(old(cpu)@.cycles, final(cpu)@.cycles),
{
    ops::alu_r(cpu, AluOp::Sub, L)
}

/// SUB A,(HL).
pub fn sub_a_hlind(cpu: &mut CPU)
    requires
        old(cpu)@.ready(),
    ensures
        final(cpu)@ == old(cpu)@.alu_hl(AluOp::Sub),
        final(cpu)@.ready(),
        cost_ok(old(cpu)@.cycles, final(cpu)@.cycles),
{
    ops::alu_hl(cpu, AluOp::Sub)
}

/// SUB A,A.
pub fn sub_a_a(cpu: &mut CPU)
    requires
        old(cpu)@.ready(),
    ensures
        final(cpu)@ == old(cpu)@.alu_r(AluOp::Sub, A as int),
        final(cpu)@.ready(),
        cost_ok(old(cpu)@.cycles, final(cpu)@.cycles),
{
    ops::alu_r(cpu, AluOp::Sub, A)
}

/// SBC A,B.
pub fn sbc_a_b(cpu: &mut CPU)
    requires
        old(cpu)@.ready(),
    ensures
        final(cpu)@ == old(cpu)@.alu_r(AluOp::Sbc, B as int),
        final(cpu)@.ready(),
        cost_ok(old(cpu)@.cycles, final(cpu)@.cycles),
{
    ops::alu_r(cpu, AluOp::Sbc, B)
}

/// SBC A,C.
pub fn sbc_a_c(cpu: &mut CPU)
    requires
        old(cpu)@.ready(),
    ensures
        final(cpu)@ == old(cpu)@.alu_r(AluOp::Sbc, C as int),
        final(cpu)@.ready(),
        cost_ok(old(cpu)@.cycles, final(cpu)@.cycles),
{
    ops::alu_r(cpu, AluOp::Sbc, C)
}

/// SBC A,D.
pub fn sbc_a_d(cpu: &mut CPU)
    requires
        old(cpu)@.ready(),
    ensures
        final(cpu)@ == old(cpu)@.alu_r(AluOp::Sbc, D as int),
        final(cpu)@.ready(),
        cost_ok(old(cpu)@.cycles, final(cpu)@.cycles),
{
    ops::alu_r(cpu, AluOp::Sbc, D)
}

/// SBC A,E.
pub fn sbc_a_e(cpu: &mut CPU)
    requires
        old(cpu)@.ready(),
    ensures
        final(cpu)@ == old(cpu)@.alu_r(AluOp::Sbc, E as int),
        final(cpu)@.ready(),
        cost_ok(old(cpu)@.cycles, final(cpu)@.cycles),
{
    ops::alu_r(cpu, AluOp::Sbc, E)
}

/// SBC A,H.
pub fn sbc_a_h(cpu: &mut CPU)
    requires
        old(cpu)@.ready(),
    ensures
        final(cpu)@ == old(cpu)@.alu_r(AluOp::Sbc, H as int),
        final(cpu)@.ready(),
        cost_ok(old(cpu)@.cycles, final(cpu)@.cycles),
{
    ops::alu_r(cpu, AluOp::Sbc, H)
}

/// SBC A,L.
pub fn sbc_a_l(cpu: &mut CPU)
    requires
        old(cpu)@.ready(),
    ensures
        final(cpu)@ == old(cpu)@.alu_r(AluOp::Sbc, L as int),
        final(cpu)@.ready(),
        cost_ok(old(cpu)@.cycles, final(cpu)@.cycles),
{
    ops::alu_r(cpu, AluOp::Sbc, L)
}

/// SBC A,(HL).
pub fn sbc_a_hlind(cpu: &mut CPU)
    requires
        old(cpu)@.ready(),
    ensures
        final(cpu)@ == old(cpu)@.alu_hl(AluOp::Sbc),
        final(cpu)@.ready(),
        cost_ok(old(cpu)@.cycles, final(cpu)@.cycles),
{
    ops::alu_hl(cpu, AluOp::Sbc)
}

/// SBC A,A.
pub fn sbc_a_a(cpu: &mut CPU)
    requires
        old(cpu)@.ready(),
    ensures
        final(cpu)@ == old(cpu)@.alu_r(AluOp::Sbc, A as int),
        final(cpu)@.ready(),
        cost_ok(old(cpu)@.cycles, final(cpu)@.cycles),
{
    ops::alu_r(cpu, AluOp::Sbc, A)
}

/// AND A,B.
pub fn and_a_b(cpu: &mut CPU)
    requires
        old(cpu)@.ready(),
    ensures
        final(cpu)@ == old(cpu)@.alu_r(AluOp::And, B as int),
        final(cpu)@.ready(),
        cost_ok(old(cpu)@.cycles, final(cpu)@.cycles),
{
    ops::alu_r(cpu, AluOp::And, B)
}

/// AND A,C.
pub fn and_a_c(cpu: &mut CPU)
    requires
        old(cpu)@.ready(),
    ensures
        final(cpu)@ == old(cpu)@.alu_r(AluOp::And, C as int),
        final(cpu)@.ready(),
        cost_ok(old(cpu)@.cycles, final(cpu)@.cycles),
{
    ops::alu_r(cpu, AluOp::And, C)
}

/// AND A,D.
pub fn and_a_d(cpu: &mut CPU)
    requires
        old(cpu)@.ready(),
    ensures
        final(cpu)@ == old(cpu)@.alu_r(AluOp::And, D as int),
        final(cpu)@.ready(),
        cost_ok(old(cpu)@.cycles, final(cpu)@.cycles),
{
    ops::alu_r(cpu, AluOp::And, D)
}

/// AND A,E.
pub fn and_a_e(cpu: &mut CPU)
    requires
        old(cpu)@.ready(),
    ensures
        final(cpu)@ == old(cpu)@.alu_r(AluOp::And, E as int),
        final(cpu)@.ready(),
        cost_ok(old(cpu)@.cycles, final(cpu)@.cycles),
{
    ops::alu_r(cpu, AluOp::And, E)
}

/// AND A,H.
pub fn and_a_h(cpu: &mut CPU)
    requires
        old(cpu)@.ready(),
    ensures
        final(cpu)@ == old(cpu)@.alu_r(AluOp::And, H as int),
        final(cpu)@.ready(),
        cost_ok(old(cpu)@.cycles, final(cpu)@.cycles),
{
    ops::alu_r(cpu, AluOp::And, H)
}

/// AND A,L.
pub fn and_a_l(cpu: &mut CPU)
    requires
        old(cpu)@.ready(),
    ensures
        final(cpu)@ == old(cpu)@.alu_r(AluOp::And, L as int),
        final(cpu)@.ready(),
        cost_ok(old(cpu)@.cycles, final(cpu)@.cycles),
{
    ops::alu_r(cpu, AluOp::And, L)
}

/// AND A,(HL).
pub fn and_a_hlind(cpu: &mut CPU)
    requires
        old(cpu)@.ready(),
    ensures
        final(cpu)@ == old(cpu)@.alu_hl(AluOp::And),
        final(cpu)@.ready(),
        cost_ok(old(cpu)@.cycles, final(cpu)@.cycles),
{
    ops::alu_hl(cpu, AluOp::And)
}

/// AND A,A.
pub fn and_a_a(cpu: &mut CPU)
    requires
        old(cpu)@.ready(),
    ensures
        final(cpu)@ == old(cpu)@.alu_r(AluOp::And, A as int),
        final(cpu)@.ready(),
        cost_ok(old(cpu)@.cycles, final(cpu)@.cycles),
{
    ops::alu_r(cpu, AluOp::And, A)
}

/// XOR A,B.
pub fn xor_a_b(cpu: &mut CPU)
    requires
        old(cpu)@.ready(),
    ensures
        final(cpu)@ == old(cpu)@.alu_r(AluOp::Xor, B as int),
        final(cpu)@.ready(),
        cost_ok(old(cpu)@.cycles, final(cpu)@.cycles),
{
    ops::alu_r(cpu, AluOp::Xor, B)
}

/// XOR A,C.
pub fn xor_a_c(cpu: &mut CPU)
    requires
        old(cpu)@.ready(),
    ensures
        final(cpu)@ == old(cpu)@.alu_r(AluOp::Xor, C as int),
        final(cpu)@.ready(),
        cost_ok(old(cpu)@.cycles, final(cpu)@.cycles),
{
    ops::alu_r(cpu, AluOp::Xor, C)
}

/// XOR A,D.
pub fn xor_a_d(cpu: &mut CPU)
    requires
        old(cpu)@.ready(),
    ensures
        final(cpu)@ == old(cpu)@.alu_r(AluOp::Xor, D as int),
        final(cpu)@.ready(),
        cost_ok(old(cpu)@.cycles, final(cpu)@.cycles),
{
    ops::alu_r(cpu, AluOp::Xor, D)
}

/// XOR A,E.
pub fn xor_a_e(cpu: &mut CPU)
    requires
        old(cpu)@.ready(),
    ensures
        final(cpu)@ == old(cpu)@.alu_r(AluOp::Xor, E as int),
        final(cpu)@.ready(),
        cost_ok(old(cpu)@.cycles, final(cpu)@.cycles),
{
    ops::alu_r(cpu, AluOp::Xor, E)
}

/// XOR A,H.
pub fn xor_a_h(cpu: &mut CPU)
    requires
        old(cpu)@.ready(),
    ensures
        final(cpu)@ == old(cpu)@.alu_r(AluOp::Xor, H as int),
        final(cpu)@.ready(),
        cost_ok(old(cpu)@.cycles, final(cpu)@.cycles),
{
    ops::alu_r(cpu, AluOp::Xor, H)
}

/// XOR A,L.
pub fn xor_a_l(cpu: &mut CPU)
    requires
        old(cpu)@.ready(),
    ensures
        final(cpu)@ == old(cpu)@.alu_r(AluOp::Xor, L as int),
        final(cpu)@.ready(),
        cost_ok(old(cpu)@.cycles, final(cpu)@.cycles),
{
    ops::alu_r(cpu, AluOp::Xor, L)
}

/// XOR A,(HL).
pub fn xor_a_hlind(cpu: &mut CPU)
    requires
        old(cpu)@.ready(),
    ensures
        final(cpu)@ == old(cpu)@.alu_hl(AluOp::Xor),
        final(cpu)@.ready(),
        cost_ok(old(cpu)@.cycles, final(cpu)@.cycles),
{
    ops::alu_hl(cpu, AluOp::Xor)
}

/// XOR A,A.
pub fn xor_a_a(cpu: &mut CPU)
    requires
        old(cpu)@.ready(),
    ensures
        final(cpu)@ == old(cpu)@.alu_r(AluOp::Xor, A as int),
        final(cpu)@.ready(),
        cost_ok(old(cpu)@.cycles, final(cpu)@.cycles),
{
    ops::alu_r(cpu, AluOp::Xor, A)
}

/// OR A,B.
pub fn or_a_b(cpu: &mut CPU)
    requires
        old(cpu)@.ready(),
    ensures
        final(cpu)@ == old(cpu)@.alu_r(AluOp::Or, B as int),
        final(cpu)@.ready(),
        cost_ok(old(cpu)@.cycles, final(cpu)@.cycles),
{
    ops::alu_r(cpu, AluOp::Or, B)
}

/// OR A,C.
pub fn or_a_c(cpu: &mut CPU)
    requires
        old(cpu)@.ready(),
    ensures
        final(cpu)@ == old(cpu)@.alu_r(AluOp::Or, C as int),
        final(cpu)@.ready(),
        cost_ok(old(cpu)@.cycles, final(cpu)@.cycles),
{
    ops::alu_r(cpu, AluOp::Or, C)
}

/// OR A,D.
pub fn or_a_d(cpu: &mut CPU)
    requires
        old(cpu)@.ready(),
    ensures
        final(cpu)@ == old(cpu)@.alu_r(AluOp::Or, D as int),
        final(cpu)@.ready(),
        cost_ok(old(cpu)@.cycles, final(cpu)@.cycles),
{
    ops::alu_r(cpu, AluOp::Or, D)
}

/// OR A,E.
pub fn or_a_e(cpu: &mut CPU)
    requires
        old(cpu)@.ready(),
    ensures
        final(cpu)@ == old(cpu)@.alu_r(AluOp::Or, E as int),
        final(cpu)@.ready(),
        cost_ok(old(cpu)@.cycles, final(cpu)@.cycles),
{
    ops::alu_r(cpu, AluOp::Or, E)
}

/// OR A,H.
pub fn or_a_h(cpu: &mut CPU)
    requires
        old(cpu)@.ready(),
    ensures
        final(cpu)@ == old(cpu)@.alu_r(AluOp::Or, H as int),
        final(cpu)@.ready(),
        cost_ok(old(cpu)@.cycles, final(cpu)@.cycles),
{
    ops::alu_r(cpu, AluOp::Or, H)
}

/// OR A,L.
pub fn or_a_l(cpu: &mut CPU)
    requires
        old(cpu)@.ready(),
    ensures
        final(cpu)@ == old(cpu)@.alu_r(AluOp::Or, L as int),
        final(cpu)@.ready(),
        cost_ok(old(cpu)@.cycles, final(cpu)@.cycles),
{
    ops::alu_r(cpu, AluOp::Or, L)
}

/// OR A,(HL).
pub fn or_a_hlind(cpu: &mut CPU)
    requires
        old(cpu)@.ready(),
    ensures
        final(cpu)@ == old(cpu)@.alu_hl(AluOp::Or),
        final(cpu)@.ready(),
        cost_ok(old(cpu)@.cycles, final(cpu)@.cycles),
{
    ops::alu_hl(cpu, AluOp::Or)
}

/// OR A,A.
pub fn or_a_a(cpu: &mut CPU)
    requires
        old(cpu)@.ready(),
    ensures
        final(cpu)@ == old(cpu)@.alu_r(AluOp::Or, A as int),
        final(cpu)@.ready(),
        cost_ok(old(cpu)@.cycles, final(cpu)@.cycles),
{
    ops::alu_r(cpu, AluOp::Or, A)
}

/// CP A,B.
pub fn cp_a_b(cpu: &mut CPU)
    requires
        old(cpu)@.ready(),
    ensures
        final(cpu)@ == old(cpu)@.alu_r(AluOp::Cp, B as int),
        final(cpu)@.ready(),
        cost_ok(old(cpu)@.cycles, final(cpu)@.cycles),
{
    ops::alu_r(cpu, AluOp::Cp, B)
}

/// CP A,C.
pub fn cp_a_c(cpu: &mut CPU)
    requires
        old(cpu)@.ready(),
    ensures
        final(cpu)@ == old(cpu)@.alu_r(AluOp::Cp, C as int),
        final(cpu)@.ready(),
        cost_ok(old(cpu)@.cycles, final(cpu)@.cycles),
{
    ops::alu_r(cpu, AluOp::Cp, C)
}

/// CP A,D.
pub fn cp_a_d(cpu: &mut CPU)
    requires
        old(cpu)@.ready(),
    ensures
        final(cpu)@ == old(cpu)@.alu_r(AluOp::Cp, D as int),
        final(cpu)@.ready(),
        cost_ok(old(cpu)@.cycles, final(cpu)@.cycles),
{
    ops::alu_r(cpu, AluOp::Cp, D)
}

/// CP A,E.
pub fn cp_a_e(cpu: &mut CPU)
    requires
        old(cpu)@.ready(),
    ensures
        final(cpu)@ == old(cpu)@.alu_r(AluOp::Cp, E as int),
        final(cpu)@.ready(),
        cost_ok(old(cpu)@.cycles, final(cpu)@.cycles),
{
    ops::alu_r(cpu, AluOp::Cp, E)
}

/// CP A,H.
pub fn cp_a_h(cpu: &mut CPU)
    requires
        old(cpu)@.ready(),
    ensures
        final(cpu)@ == old(cpu)@.alu_r(AluOp::Cp, H as int),
        final(cpu)@.ready(),
        cost_ok(old(cpu)@.cycles, final(cpu)@.cycles),
{
    ops::alu_r(cpu, AluOp::Cp, H)
}

/// CP A,L.
pub fn cp_a_l(cpu: &mut CPU)
    requires
        old(cpu)@.ready(),
    ensures
        final(cpu)@ == old(cpu)@.alu_r(AluOp::Cp, L as int),
        final(cpu)@.ready(),
        cost_ok(old(cpu)@.cycles, final(cpu)@.cycles),
{
    ops::alu_r(cpu, AluOp::Cp, L)
}

/// CP A,(HL).
pub fn cp_a_hlind(cpu: &mut CPU)
    requires
        old(cpu)@.ready(),
    ensures
        final(cpu)@ == old(cpu)@.alu_hl(AluOp::Cp),
        final(cpu)@.ready(),
        cost_ok(old(cpu)@.cycles, final(cpu)@.cycles),
{
    ops::alu_hl(cpu, AluOp::Cp)
}

/// CP A,A.
pub fn cp_a_a(cpu: &mut CPU)
    requires
        old(cpu)@.ready(),
    ensures
        final(cpu)@ == old(cpu)@.alu_r(AluOp::Cp, A as int),
        final(cpu)@.ready(),
        cost_ok(old(cpu)@.cycles, final(cpu)@.cycles),
{
    ops::alu_r(cpu, AluOp::Cp, A)
}

/// RET NZ.
pub fn ret_nz(cpu: &mut CPU)
    requires
        old(cpu)@.ready(),
    ensures
        final(cpu)@ == old(cpu)@.ret_if(old(cpu)@.cond(0)),
        final(cpu)@.ready(),
        cost_ok(old(cpu)@.cycles, final(cpu)@.cycles),
{
    let t = ops::cond(cpu, 0);
    ops::ret_if(cpu, t)
}

/// POP BC.
pub fn pop_bc(cpu: &mut CPU)
    requires
        old(cpu)@.ready(),
    ensures
        final(cpu)@ == old(cpu)@.pop_pair(B as int, C as int),
        final(cpu)@.ready(),
        cost_ok(old(cpu)@.cycles, final(cpu)@.cycles),
{
    ops::pop_pair(cpu, B, C)
}

/// JP NZ,u16.
pub fn jp_nz_u16(cpu: &mut CPU)
    requires
        old(cpu)@.ready(),
    ensures
        final(cpu)@ == old(cpu)@.jp(old(cpu)@.cond(0)),
        final(cpu)@.ready(),
        cost_ok(old(cpu)@.cycles, final(cpu)@.cycles),
{
    let t = ops::cond(cpu, 0);
    ops::jp(cpu, t)
}

/// JP u16.
pub fn jp_u16(cpu: &mut CPU)
    requires
        old(cpu)@.ready(),
    ensures
        final(cpu)@ == old(cpu)@.jp(true),
        final(cpu)@.ready(),
        cost_ok(old(cpu)@.cycles, final(cpu)@.cycles),
{
    ops::jp(cpu, true)
}

/// CALL NZ,u16.
pub fn call_nz_u16(cpu: &mut CPU)
    requires
        old(cpu)@.ready(),
    ensures
        final(cpu)@ == old(cpu)@.call(old(cpu)@.cond(0)),
        final(cpu)@.ready(),
        cost_ok(old(cpu)@.cycles, final(cpu)@.cycles),
{
    let t = ops::cond(cpu, 0);
    ops::call(cpu, t)
}

/// PUSH BC.
pub fn push_bc(cpu: &mut CPU)
    requires
        old(cpu)@.ready(),
    ensures
        final(cpu)@ == old(cpu)@.push_pair(B as int, C as int),
        final(cpu)@.ready(),
        cost_ok(old(cpu)@.cycles, final(cpu)@.cycles),
{
    ops::push_pair(cpu, B, C)
}

/// ADD A,u8.
pub fn add_a_u8(cpu: &mut CPU)
    requires
        old(cpu)@.ready(),
    ensures
        final(cpu)@ == old(cpu)@.alu_u8(AluOp::Add),
        final(cpu)@.ready(),
        cost_ok(old(cpu)@.cycles, final(cpu)@.cycles),
{
    ops::alu_u8(cpu, AluOp::Add)
}

/// RST 0x00.
pub fn rst_0x00(cpu: &mut CPU)
    requires
        old(cpu)@.ready(),
    ensures
        final(cpu)@ == old(cpu)@.rst(0x00),
        final(cpu)@.ready(),
        cost_ok(old(cpu)@.cycles, final(cpu)@.cycles),
{
    ops::rst(cpu, 0x00)
}

/// RET Z.
pub fn ret_z(cpu: &mut CPU)
    requires
        old(cpu)@.ready(),
    ensures
        final(cpu)@ == old(cpu)@.ret_if(old(cpu)@.cond(1)),
        final(cpu)@.ready(),
        cost_ok(old(cpu)@.cycles, final(cpu)@.cycles),
{
    let t = ops::cond(cpu, 1);
    ops::ret_if(cpu, t)
}

/// RET.
pub fn ret(cpu: &mut CPU)
    requires
        old(cpu)@.ready(),
    ensures
        final(cpu)@ == old(cpu)@.ret_op(),
        final(cpu)@.ready(),
        cost_ok(old(cpu)@.cycles, final(cpu)@.cycles),
{
    ops::ret_op(cpu)
}

/// JP Z,u16.
pub fn jp_z_u16(cpu: &mut CPU)
    requires
        old(cpu)@.ready(),
    ensures
        final(cpu)@ == old(cpu)@.jp(old(cpu)@.cond(1)),
        final(cpu)@.ready(),
        cost_ok(old(cpu)@.cycles, final(cpu)@.cycles),
{
    let t = ops::cond(cpu, 1);
    ops::jp(cpu, t)
}

/// The 0xCB prefix: fetches the second byte and runs the extended instruction.
pub fn cb(cpu: &mut CPU)
    requires
        old(cpu)@.ready(),
    ensures
        final(cpu)@ == old(cpu)@.fetched().cb_exec(old(cpu)@.imm8()),
        final(cpu)@.ready(),
        cost_ok(old(cpu)@.cycles, final(cpu)@.cycles),
{
    let op = cpu.fetch();
    cpu.decode_cb(op);
}

/// CALL Z,u16.
pub fn call_z_u16(cpu: &mut CPU)
    requires
        old(cpu)@.ready(),
    ensures
        final(cpu)@ == old(cpu)@.call(old(cpu)@.cond(1)),
        final(cpu)@.ready(),
        cost_ok(old(cpu)@.cycles, final(cpu)@.cycles),
{
    let t = ops::cond(cpu, 1);
    ops::call(cpu, t)
}

/// CALL u16.
pub fn call_u16(cpu: &mut CPU)
    requires
        old(cpu)@.ready(),
    ensures
        final(cpu)@ == old(cpu)@.call(true),
        final(cpu)@.ready(),
        cost_ok(old(cpu)@.cycles, final(cpu)@.cycles),
{
    ops::call(cpu, true)
}

/// ADC A,u8.
pub fn adc_a_u8(cpu: &mut CPU)
    requires
        old(cpu)@.ready(),
    ensures
        final(cpu)@ == old(cpu)@.alu_u8(AluOp::Adc),
        final(cpu)@.ready(),
        cost_ok(old(cpu)@.cycles, final(cpu)@.cycles),
{
    ops::alu_u8(cpu, AluOp::Adc)
}

/// RST 0x08.
pub fn rst_0x08(cpu: &mut CPU)
    requires
        old(cpu)@.ready(),
    ensures
        final(cpu)@ == old(cpu)@.rst(0x08),
        final(cpu)@.ready(),
        cost_ok(old(cpu)@.cycles, final(cpu)@.cycles),
{
    ops::rst(cpu, 0x08)
}

/// RET NC.
pub fn ret_nc(cpu: &mut CPU)
    requires
        old(cpu)@.ready(),
    ensures
        final(cpu)@ == old(cpu)@.ret_if(old(cpu)@.cond(2)),
        final(cpu)@.ready(),
        cost_ok(old(cpu)@.cycles, final(cpu)@.cycles),
{
    let t = ops::cond(cpu, 2);
    ops::ret_if(cpu, t)
}

/// POP DE.
pub fn pop_de(cpu: &mut CPU)
    requires
        old(cpu)@.ready(),
    ensures
        final(cpu)@ == old(cpu)@.pop_pair(D as int, E as int),
        final(cpu)@.ready(),
        cost_ok(old(cpu)@.cycles, final(cpu)@.cycles),
{
    ops::pop_pair(cpu, D, E)
}

/// JP NC,u16.
pub fn jp_nc_u16(cpu: &mut CPU)
    requires
        old(cpu)@.ready(),
    ensures
        final(cpu)@ == old(cpu)@.jp(old(cpu)@.cond(2)),
        final(cpu)@.ready(),
        cost_ok(old(cpu)@.cycles, final(cpu)@.cycles),
{
    let t = ops::cond(cpu, 2);
    ops::jp(cpu, t)
}

/// An undefined opcode: recorded in `invalid_op` and otherwise a NOP.
pub fn error(cpu: &mut CPU)
    requires
        old(cpu)@.ready(),
    ensures
        final(cpu)@ == old(cpu)@.invalid(),
        final(cpu)@.ready(),
        cost_ok(old(cpu)@.cycles, final(cpu)@.cycles),
{
    proof {
        reveal(CpuView::invalid);
    }
    cpu.invalid_op = Some(cpu.op);
    cpu.tick(4);
}

/// CALL NC,u16.
pub fn call_nc_u16(cpu: &mut CPU)
    requires
        old(cpu)@.ready(),
    ensures
        final(cpu)@ == old(cpu)@.call(old(cpu)@.cond(2)),
        final(cpu)@.ready(),
        cost_ok(old(cpu)@.cycles, final(cpu)@.cycles),
{
    let t = ops::cond(cpu, 2);
    ops::call(cpu, t)
}

/// PUSH DE.
pub fn push_de(cpu: &mut CPU)
    requires
        old(cpu)@.ready(),
    ensures
        final(cpu)@ == old(cpu)@.push_pair(D as int, E as int),
        final(cpu)@.ready(),
        cost_ok(old(cpu)@.cycles, final(cpu)@.cycles),
{
    ops::push_pair(cpu, D, E)
}

/// SUB A,u8.
pub fn sub_a_u8(cpu: &mut CPU)
    requires
        old(cpu)@.ready(),
    ensures
        final(cpu)@ == old(cpu)@.alu_u8(AluOp::Sub),
        final(cpu)@.ready(),
        cost_ok(old(cpu)@.cycles, final(cpu)@.cycles),
{
    ops::alu_u8(cpu, AluOp::Sub)
}

/// RST 0x10.
pub fn rst_0x10(cpu: &mut CPU)
    requires
        old(cpu)@.ready(),
    ensures
        final(cpu)@ == old(cpu)@.rst(0x10),
        final(cpu)@.ready(),
        cost_ok(old(cpu)@.cycles, final(cpu)@.cycles),
{
    ops::rst(cpu, 0x10)
}

/// RET C.
pub fn ret_c(cpu: &mut CPU)
    requires
        old(cpu)@.ready(),
    ensures
        final(cpu)@ == old(cpu)@.ret_if(old(cpu)@.cond(3)),
        final(cpu)@.ready(),
        cost_ok(old(cpu)@.cycles, final(cpu)@.cycles),
{
    let t = ops::cond(cpu, 3);
    ops::ret_if(cpu, t)
}

/// RETI.
pub fn reti(cpu: &mut CPU)
    requires
        old(cpu)@.ready(),
    ensures
        final(cpu)@ == old(cpu)@.reti_op(),
        final(cpu)@.ready(),
        cost_ok(old(cpu)@.cycles, final(cpu)@.cycles),
{
    ops::reti_op(cpu)
}

/// JP C,u16.
pub fn jp_c_u16(cpu: &mut CPU)
    requires
        old(cpu)@.ready(),
    ensures
        final(cpu)@ == old(cpu)@.jp(old(cpu)@.cond(3)),
        final(cpu)@.ready(),
        cost_ok(old(cpu)@.cycles, final(cpu)@.cycles),
{
    let t = ops::cond(cpu, 3);
    ops::jp(cpu, t)
}

/// CALL C,u16.
pub fn call_c_u16(cpu: &mut CPU)
    requires
        old(cpu)@.ready(),
    ensures
        final(cpu)@ == old(cpu)@.call(old(cpu)@.cond(3)),
        final(cpu)@.ready(),
        cost_ok(old(cpu)@.cycles, final(cpu)@.cycles),
{
    let t = ops::cond(cpu, 3);
    ops::call(cpu, t)
}

/// SBC A,u8.
pub fn sbc_a_u8(cpu: &mut CPU)
    requires
        old(cpu)@.ready(),
    ensures
        final(cpu)@ == old(cpu)@.alu_u8(AluOp::Sbc),
        final(cpu)@.ready(),
        cost_ok(old(cpu)@.cycles, final(cpu)@.cycles),
{
    ops::alu_u8(cpu, AluOp::Sbc)
}

/// RST 0x18.
pub fn rst_0x18(cpu: &mut CPU)
    requires
        old(cpu)@.ready(),
    ensures
        final(cpu)@ == old(cpu)@.rst(0x18),
        final(cpu)@.ready(),
        cost_ok(old(cpu)@.cycles, final(cpu)@.cycles),
{
    ops::rst(cpu, 0x18)
}

/// LD (0xFF00+u8),A.
pub fn ld_ff00u8_a(cpu: &mut CPU)
    requires
        old(cpu)@.ready(),
    ensures
        final(cpu)@ == old(cpu)@.ldh_u8_a(),
        final(cpu)@.ready(),
        cost_ok(old(cpu)@.cycles, final(cpu)@.cycles),
{
    ops::ldh_u8_a(cpu)
}

/// POP HL.
pub fn pop_hl(cpu: &mut CPU)
    requires
        old(cpu)@.ready(),
    ensures
        final(cpu)@ == old(cpu)@.pop_pair(H as int, L as int),
        final(cpu)@.ready(),
        cost_ok(old(cpu)@.cycles, final(cpu)@.cycles),
{
    ops::pop_pair(cpu, H, L)
}

/// LD (0xFF00+C),A.
pub fn ld_ff00c_a(cpu: &mut CPU)
    requires
        old(cpu)@.ready(),
    ensures
        final(cpu)@ == old(cpu)@.ldh_c_a(),
        final(cpu)@.ready(),
        cost_ok(old(cpu)@.cycles, final(cpu)@.cycles),
{
    ops::ldh_c_a(cpu)
}

/// PUSH HL.
pub fn push_hl(cpu: &mut CPU)
    requires
        old(cpu)@.ready(),
    ensures
        final(cpu)@ == old(cpu)@.push_pair(H as int, L as int),
        final(cpu)@.ready(),
        cost_ok(old(cpu)@.cycles, final(cpu)@.cycles),
{
    ops::push_pair(cpu, H, L)
}

/// AND A,u8.
pub fn and_a_u8(cpu: &mut CPU)
    requires
        old(cpu)@.ready(),
    ensures
        final(cpu)@ == old(cpu)@.alu_u8(AluOp::And),
        final(cpu)@.ready(),
        cost_ok(old(cpu)@.cycles, final(cpu)@.cycles),
{
    ops::alu_u8(cpu, AluOp::And)
}

/// RST 0x20.
pub fn rst_0x20(cpu: &mut CPU)
    requires
        old(cpu)@.ready(),
    ensures
        final(cpu)@ == old(cpu)@.rst(0x20),
        final(cpu)@.ready(),
        cost_ok(old(cpu)@.cycles, final(cpu)@.cycles),
{
    ops::rst(cpu, 0x20)
}

/// ADD SP,i8.
pub fn add_sp_i8(cpu: &mut CPU)
    requires
        old(cpu)@.ready(),
    ensures
        final(cpu)@ == old(cpu)@.add_sp_i8(),
        final(cpu)@.ready(),
        cost_ok(old(cpu)@.cycles, final(cpu)@.cycles),
{
    ops::add_sp_i8(cpu)
}

/// JP HL.
pub fn jp_hl(cpu: &mut CPU)
    requires
        old(cpu)@.ready(),
    ensures
        final(cpu)@ == old(cpu)@.jp_hl(),
        final(cpu)@.ready(),
        cost_ok(old(cpu)@.cycles, final(cpu)@.cycles),
{
    ops::jp_hl(cpu)
}

/// LD (u16),A.
pub fn ld_u16ind_a(cpu: &mut CPU)
    requires
        old(cpu)@.ready(),
    ensures
        final(cpu)@ == old(cpu)@.ld_u16_a(),
        final(cpu)@.ready(),
        cost_ok(old(cpu)@.cycles, final(cpu)@.cycles),
{
    ops::ld_u16_a(cpu)
}

/// XOR A,u8.
pub fn xor_a_u8(cpu: &mut CPU)
    requires
        old(cpu)@.ready(),
    ensures
        final(cpu)@ == old(cpu)@.alu_u8(AluOp::Xor),
        final(cpu)@.ready(),
        cost_ok(old(cpu)@.cycles, final(cpu)@.cycles),
{
    ops::alu_u8(cpu, AluOp::Xor)
}

/// RST 0x28.
pub fn rst_0x28(cpu: &mut CPU)
    requires
        old(cpu)@.ready(),
    ensures
        final(cpu)@ == old(cpu)@.rst(0x28),
        final(cpu)@.ready(),
        cost_ok(old(cpu)@.cycles, final(cpu)@.cycles),
{
    ops::rst(cpu, 0x28)
}

/// LD A,(0xFF00+u8).
pub fn ld_a_ff00u8(cpu: &mut CPU)
    requires
        old(cpu)@.ready(),
    ensures
        final(cpu)@ == old(cpu)@.ldh_a_u8(),
        final(cpu)@.ready(),
        cost_ok(old(cpu)@.cycles, final(cpu)@.cycles),
{
    ops::ldh_a_u8(cpu)
}

/// POP AF.
pub fn pop_af(cpu: &mut CPU)
    requires
        old(cpu)@.ready(),
    ensures
        final(cpu)@ == old(cpu)@.pop_af(),
        final(cpu)@.ready(),
        cost_ok(old(cpu)@.cycles, final(cpu)@.cycles),
{
    ops::pop_af(cpu)
}

/// LD A,(0xFF00+C).
pub fn ld_a_ff00c(cpu: &mut CPU)
    requires
        old(cpu)@.ready(),
    ensures
        final(cpu)@ == old(cpu)@.ldh_a_c(),
        final(cpu)@.ready(),
        cost_ok(old(cpu)@.cycles, final(cpu)@.cycles),
{
    ops::ldh_a_c(cpu)
}

/// DI: IME is cleared two steps on.
pub fn di(cpu: &mut CPU)
    requires
        old(cpu)@.ready(),
    ensures
        final(cpu)@ == old(cpu)@.di_op(),
        final(cpu)@.ready(),
        cost_ok(old(cpu)@.cycles, final(cpu)@.cycles),
{
    proof {
        reveal(CpuView::di_op);
    }
    cpu.cycles_di = 2;
    cpu.tick(4);
}

/// PUSH AF.
pub fn push_af(cpu: &mut CPU)
    requires
        old(cpu)@.ready(),
    ensures
        final(cpu)@ == old(cpu)@.push_pair(A as int, F as int),
        final(cpu)@.ready(),
        cost_ok(old(cpu)@.cycles, final(cpu)@.cycles),
{
    ops::push_pair(cpu, A, F)
}

/// OR A,u8.
pub fn or_a_u8(cpu: &mut CPU)
    requires
        old(cpu)@.ready(),
    ensures
        final(cpu)@ == old(cpu)@.alu_u8(AluOp::Or),
        final(cpu)@.ready(),
        cost_ok(old(cpu)@.cycles, final(cpu)@.cycles),
{
    ops::alu_u8(cpu, AluOp::Or)
}

/// RST 0x30.
pub fn rst_0x30(cpu: &mut CPU)
    requires
        old(cpu)@.ready(),
    ensures
        final(cpu)@ == old(cpu)@.rst(0x30),
        final(cpu)@.ready(),
        cost_ok(old(cpu)@.cycles, final(cpu)@.cycles),
{
    ops::rst(cpu, 0x30)
}

/// LD HL,SP+i8.
pub fn ld_hl_sp_i8(cpu: &mut CPU)
    requires
        old(cpu)@.ready(),
    ensures
        final(cpu)@ == old(cpu)@.ld_hl_sp_i8(),
        final(cpu)@.ready(),
        cost_ok(old(cpu)@.cycles, final(cpu)@.cycles),
{
    ops::ld_hl_sp_i8(cpu)
}

/// LD SP,HL.
pub fn ld_sp_hl(cpu: &mut CPU)
    requires
        old(cpu)@.ready(),
    ensures
        final(cpu)@ == old(cpu)@.ld_sp_hl(),
        final(cpu)@.ready(),
        cost_ok(old(cpu)@.cycles, final(cpu)@.cycles),
{
    ops::ld_sp_hl(cpu)
}

/// LD A,(u16).
pub fn ld_a_u16ind(cpu: &mut CPU)
    requires
        old(cpu)@.ready(),
    ensures
        final(cpu)@ == old(cpu)@.ld_a_u16(),
        final(cpu)@.ready(),
        cost_ok(old(cpu)@.cycles, final(cpu)@.cycles),
{
    ops::ld_a_u16(cpu)
}

/// EI: IME is set two steps on.
pub fn ei(cpu: &mut CPU)
    requires
        old(cpu)@.ready(),
    ensures
        final(cpu)@ == old(cpu)@.ei_op(),
        final(cpu)@.ready(),
        cost_ok(old(cpu)@.cycles, final(cpu)@.cycles),
{
    proof {
        reveal(CpuView::ei_op);
    }
    cpu.cycles_ei = 2;
    cpu.tick(4);
}

/// CP A,u8.
pub fn cp_a_u8(cpu: &mut CPU)
    requires
        old(cpu)@.ready(),
    ensures
        final(cpu)@ == old(cpu)@.alu_u8(AluOp::Cp),
        final(cpu)@.ready(),
        cost_ok(old(cpu)@.cycles, final(cpu)@.cycles),
{
    ops::alu_u8(cpu, AluOp::Cp)
}

/// RST 0x38.
pub fn rst_0x38(cpu: &mut CPU)
    requires
        old(cpu)@.ready(),
    ensures
        final(cpu)@ == old(cpu)@.rst(0x38),
        final(cpu)@.ready(),
        cost_ok(old(cpu)@.cycles, final(cpu)@.cycles),
{
    ops::rst(cpu, 0x38)
}

/// RLC B.
pub fn rlc_b(cpu: &mut CPU)
    requires
        old(cpu)@.ready(),
    ensures
        final(cpu)@ == old(cpu)@.cb_r(Shift::Rlc, B as int),
        final(cpu)@.ready(),
        cost_ok(old(cpu)@.cycles, final(cpu)@.cycles),
{
    ops::cb_r(cpu, Shift::Rlc, B)
}

/// RLC C.
pub fn rlc_c(cpu: &mut CPU)
    requires
        old(cpu)@.ready(),
    ensures
        final(cpu)@ == old(cpu)@.cb_r(Shift::Rlc, C as int),
        final(cpu)@.ready(),
        cost_ok(old(cpu)@.cycles, final(cpu)@.cycles),
{
    ops::cb_r(cpu, Shift::Rlc, C)
}

/// RLC D.
pub fn rlc_d(cpu: &mut CPU)
    requires
        old(cpu)@.ready(),
    ensures
        final(cpu)@ == old(cpu)@.cb_r(Shift::Rlc, D as int),
        final(cpu)@.ready(),
        cost_ok(old(cpu)@.cycles, final(cpu)@.cycles),
{
    ops::cb_r(cpu, Shift::Rlc, D)
}

/// RLC E.
pub fn rlc_e(cpu: &mut CPU)
    requires
        old(cpu)@.ready(),
    ensures
        final(cpu)@ == old(cpu)@.cb_r(Shift::Rlc, E as int),
        final(cpu)@.ready(),
        cost_ok(old(cpu)@.cycles, final(cpu)@.cycles),
{
    ops::cb_r(cpu, Shift::Rlc, E)
}

/// RLC H.
pub fn rlc_h(cpu: &mut CPU)
    requires
        old(cpu)@.ready(),
    ensures
        final(cpu)@ == old(cpu)@.cb_r(Shift::Rlc, H as int),
        final(cpu)@.ready(),
        cost_ok(old(cpu)@.cycles, final(cpu)@.cycles),
{
    ops::cb_r(cpu, Shift::Rlc, H)
}

/// RLC L.
pub fn rlc_l(cpu: &mut CPU)
    requires
        old(cpu)@.ready(),
    ensures
        final(cpu)@ == old(cpu)@.cb_r(Shift::Rlc, L as int),
        final(cpu)@.ready(),
        cost_ok(old(cpu)@.cycles, final(cpu)@.cycles),
{
    ops::cb_r(cpu, Shift::Rlc, L)
}

/// RLC (HL).
pub fn rlc_hlind(cpu: &mut CPU)
    requires
        old(cpu)@.ready(),
    ensures
        final(cpu)@ == old(cpu)@.cb_hl(Shift::Rlc),
        final(cpu)@.ready(),
        cost_ok(old(cpu)@.cycles, final(cpu)@.cycles),
{
    ops::cb_hl(cpu, Shift::Rlc)
}

/// RLC A.
pub fn rlc_a(cpu: &mut CPU)
    requires
        old(cpu)@.ready(),
    ensures
        final(cpu)@ == old(cpu)@.cb_r(Shift::Rlc, A as int),
        final(cpu)@.ready(),
        cost_ok(old(cpu)@.cycles, final(cpu)@.cycles),
{
    ops::cb_r(cpu, Shift::Rlc, A)
}

/// RRC B.
pub fn rrc_b(cpu: &mut CPU)
    requires
        old(cpu)@.ready(),
    ensures
        final(cpu)@ == old(cpu)@.cb_r(Shift::Rrc, B as int),
        final(cpu)@.ready(),
        cost_ok(old(cpu)@.cycles, final(cpu)@.cycles),
{
    ops::cb_r(cpu, Shift::Rrc, B)
}

/// RRC C.
pub fn rrc_c(cpu: &mut CPU)
    requires
        old(cpu)@.ready(),
    ensures
        final(cpu)@ == old(cpu)@.cb_r(Shift::Rrc, C as int),
        final(cpu)@.ready(),
        cost_ok(old(cpu)@.cycles, final(cpu)@.cycles),
{
    ops::cb_r(cpu, Shift::Rrc, C)
}

/// RRC D.
pub fn rrc_d(cpu: &mut CPU)
    requires
        old(cpu)@.ready(),
    ensures
        final(cpu)@ == old(cpu)@.cb_r(Shift::Rrc, D as int),
        final(cpu)@.ready(),
        cost_ok(old(cpu)@.cycles, final(cpu)@.cycles),
{
    ops::cb_r(cpu, Shift::Rrc, D)
}

/// RRC E.
pub fn rrc_e(cpu: &mut CPU)
    requires
        old(cpu)@.ready(),
    ensures
        final(cpu)@ == old(cpu)@.cb_r(Shift::Rrc, E as int),
        final(cpu)@.ready(),
        cost_ok(old(cpu)@.cycles, final(cpu)@.cycles),
{
    ops::cb_r(cpu, Shift::Rrc, E)
}

/// RRC H.
pub fn rrc_h(cpu: &mut CPU)
    requires
        old(cpu)@.ready(),
    ensures
        final(cpu)@ == old(cpu)@.cb_r(Shift::Rrc, H as int),
        final(cpu)@.ready(),
        cost_ok(old(cpu)@.cycles, final(cpu)@.cycles),
{
    ops::cb_r(cpu, Shift::Rrc, H)
}

/// RRC L.
pub fn rrc_l(cpu: &mut CPU)
    requires
        old(cpu)@.ready(),
    ensures
        final(cpu)@ == old(cpu)@.cb_r(Shift::Rrc, L as int),
        final(cpu)@.ready(),
        cost_ok(old(cpu)@.cycles, final(cpu)@.cycles),
{
    ops::cb_r(cpu, Shift::Rrc, L)
}

/// RRC (HL).
pub fn rrc_hlind(cpu: &mut CPU)
    requires
        old(cpu)@.ready(),
    ensures
        final(cpu)@ == old(cpu)@.cb_hl(Shift::Rrc),
        final(cpu)@.ready(),
        cost_ok(old(cpu)@.cycles, final(cpu)@.cycles),
{
    ops::cb_hl(cpu, Shift::Rrc)
}

/// RRC A.
pub fn rrc_a(cpu: &mut CPU)
    requires
        old(cpu)@.ready(),
    ensures
        final(cpu)@ == old(cpu)@.cb_r(Shift::Rrc, A as int),
        final(cpu)@.ready(),
        cost_ok(old(cpu)@.cycles, final(cpu)@.cycles),
{
    ops::cb_r(cpu, Shift::Rrc, A)
}

/// RL B.
pub fn rl_b(cpu: &mut CPU)
    requires
        old(cpu)@.ready(),
    ensures
        final(cpu)@ == old(cpu)@.cb_r(Shift::Rl, B as int),
        final(cpu)@.ready(),
        cost_ok(old(cpu)@.cycles, final(cpu)@.cycles),
{
    ops::cb_r(cpu, Shift::Rl, B)
}

/// RL C.
pub fn rl_c(cpu: &mut CPU)
    requires
        old(cpu)@.ready(),
    ensures
        final(cpu)@ == old(cpu)@.cb_r(Shift::Rl, C as int),
        final(cpu)@.ready(),
        cost_ok(old(cpu)@.cycles, final(cpu)@.cycles),
{
    ops::cb_r(cpu, Shift::Rl, C)
}

/// RL D.
pub fn rl_d(cpu: &mut CPU)
    requires
        old(cpu)@.ready(),
    ensures
        final(cpu)@ == old(cpu)@.cb_r(Shift::Rl, D as int),
        final(cpu)@.ready(),
        cost_ok(old(cpu)@.cycles, final(cpu)@.cycles),
{
    ops::cb_r(cpu, Shift::Rl, D)
}

/// RL E.
pub fn rl_e(cpu: &mut CPU)
    requires
        old(cpu)@.ready(),
    ensures
        final(cpu)@ == old(cpu)@.cb_r(Shift::Rl, E as int),
        final(cpu)@.ready(),
        cost_ok(old(cpu)@.cycles, final(cpu)@.cycles),
{
    ops::cb_r(cpu, Shift::Rl, E)
}

/// RL H.
pub fn rl_h(cpu: &mut CPU)
    requires
        old(cpu)@.ready(),
    ensures
        final(cpu)@ == old(cpu)@.cb_r(Shift::Rl, H as int),
        final(cpu)@.ready(),
        cost_ok(old(cpu)@.cycles, final(cpu)@.cycles),
{
    ops::cb_r(cpu, Shift::Rl, H)
}

/// RL L.
pub fn rl_l(cpu: &mut CPU)
    requires
        old(cpu)@.ready(),
    ensures
        final(cpu)@ == old(cpu)@.cb_r(Shift::Rl, L as int),
        final(cpu)@.ready(),
        cost_ok(old(cpu)@.cycles, final(cpu)@.cycles),
{
    ops::cb_r(cpu, Shift::Rl, L)
}

/// RL (HL).
pub fn rl_hlind(cpu: &mut CPU)
    requires
        old(cpu)@.ready(),
    ensures
        final(cpu)@ == old(cpu)@.cb_hl(Shift::Rl),
        final(cpu)@.ready(),
        cost_ok(old(cpu)@.cycles, final(cpu)@.cycles),
{
    ops::cb_hl(cpu, Shift::Rl)
}

/// RL A.
pub fn rl_a(cpu: &mut CPU)
    requires
        old(cpu)@.ready(),
    ensures
        final(cpu)@ == old(cpu)@.cb_r(Shift::Rl, A as int),
        final(cpu)@.ready(),
        cost_ok(old(cpu)@.cycles, final(cpu)@.cycles),
{
    ops::cb_r(cpu, Shift::Rl, A)
}

/// RR B.
pub fn rr_b(cpu: &mut CPU)
    requires
        old(cpu)@.ready(),
    ensures
        final(cpu)@ == old(cpu)@.cb_r(Shift::Rr, B as int),
        final(cpu)@.ready(),
        cost_ok(old(cpu)@.cycles, final(cpu)@.cycles),
{
    ops::cb_r(cpu, Shift::Rr, B)
}

/// RR C.
pub fn rr_c(cpu: &mut CPU)
    requires
        old(cpu)@.ready(),
    ensures
        final(cpu)@ == old(cpu)@.cb_r(Shift::Rr, C as int),
        final(cpu)@.ready(),
        cost_ok(old(cpu)@.cycles, final(cpu)@.cycles),
{
    ops::cb_r(cpu, Shift::Rr, C)
}

/// RR D.
pub fn rr_d(cpu: &mut CPU)
    requires
        old(cpu)@.ready(),
    ensures
        final(cpu)@ == old(cpu)@.cb_r(Shift::Rr, D as int),
        final(cpu)@.ready(),
        cost_ok(old(cpu)@.cycles, final(cpu)@.cycles),
{
    ops::cb_r(cpu, Shift::Rr, D)
}

/// RR E.
pub fn rr_e(cpu: &mut CPU)
    requires
        old(cpu)@.ready(),
    ensures
        final(cpu)@ == old(cpu)@.cb_r(Shift::Rr, E as int),
        final(cpu)@.ready(),
        cost_ok(old(cpu)@.cycles, final(cpu)@.cycles),
{
    ops::cb_r(cpu, Shift::Rr, E)
}

/// RR H.
pub fn rr_h(cpu: &mut CPU)
    requires
        old(cpu)@.ready(),
    ensures
        final(cpu)@ == old(cpu)@.cb_r(Shift::Rr, H as int),
        final(cpu)@.ready(),
        cost_ok(old(cpu)@.cycles, final(cpu)@.cycles),
{
    ops::cb_r(cpu, Shift::Rr, H)
}

/// RR L.
pub fn rr_l(cpu: &mut CPU)
    requires
        old(cpu)@.ready(),
    ensures
        final(cpu)@ == old(cpu)@.cb_r(Shift::Rr, L as int),
        final(cpu)@.ready(),
        cost_ok(old(cpu)@.cycles, final(cpu)@.cycles),
{
    ops::cb_r(cpu, Shift::Rr, L)
}

/// RR (HL).
pub fn rr_hlind(cpu: &mut CPU)
    requires
        old(cpu)@.ready(),
    ensures
        final(cpu)@ == old(cpu)@.cb_hl(Shift::Rr),
        final(cpu)@.ready(),
        cost_ok(old(cpu)@.cycles, final(cpu)@.cycles),
{
    ops::cb_hl(cpu, Shift::Rr)
}

/// RR A.
pub fn rr_a(cpu: &mut CPU)
    requires
        old(cpu)@.ready(),
    ensures
        final(cpu)@ == old(cpu)@.cb_r(Shift::Rr, A as int),
        final(cpu)@.ready(),
        cost_ok(old(cpu)@.cycles, final(cpu)@.cycles),
{
    ops::cb_r(cpu, Shift::Rr, A)
}

/// SLA B.
pub fn sla_b(cpu: &mut CPU)
    requires
        old(cpu)@.ready(),
    ensures
        final(cpu)@ == old(cpu)@.cb_r(Shift::Sla, B as int),
        final(cpu)@.ready(),
        cost_ok(old(cpu)@.cycles, final(cpu)@.cycles),
{
    ops::cb_r(cpu, Shift::Sla, B)
}

/// SLA C.
pub fn sla_c(cpu: &mut CPU)
    requires
        old(cpu)@.ready(),
    ensures
        final(cpu)@ == old(cpu)@.cb_r(Shift::Sla, C as int),
        final(cpu)@.ready(),
        cost_ok(old(cpu)@.cycles, final(cpu)@.cycles),
{
    ops::cb_r(cpu, Shift::Sla, C)
}

/// SLA D.
pub fn sla_d(cpu: &mut CPU)
    requires
        old(cpu)@.ready(),
    ensures
        final(cpu)@ == old(cpu)@.cb_r(Shift::Sla, D as int),
        final(cpu)@.ready(),
        cost_ok(old(cpu)@.cycles, final(cpu)@.cycles),
{
    ops::cb_r(cpu, Shift::Sla, D)
}

/// SLA E.
pub fn sla_e(cpu: &mut CPU)
    requires
        old(cpu)@.ready(),
    ensures
        final(cpu)@ == old(cpu)@.cb_r(Shift::Sla, E as int),
        final(cpu)@.ready(),
        cost_ok(old(cpu)@.cycles, final(cpu)@.cycles),
{
    ops::cb_r(cpu, Shift::Sla, E)
}

/// SLA H.
pub fn sla_h(cpu: &mut CPU)
    requires
        old(cpu)@.ready(),
    ensures
        final(cpu)@ == old(cpu)@.cb_r(Shift::Sla, H as int),
        final(cpu)@.ready(),
        cost_ok(old(cpu)@.cycles, final(cpu)@.cycles),
{
    ops::cb_r(cpu, Shift::Sla, H)
}

/// SLA L.
pub fn sla_l(cpu: &mut CPU)
    requires
        old(cpu)@.ready(),
    ensures
        final(cpu)@ == old(cpu)@.cb_r(Shift::Sla, L as int),
        final(cpu)@.ready(),
        cost_ok(old(cpu)@.cycles, final(cpu)@.cycles),
{
    ops::cb_r(cpu, Shift::Sla, L)
}

/// SLA (HL).
pub fn sla_hlind(cpu: &mut CPU)
    requires
        old(cpu)@.ready(),
    ensures
        final(cpu)@ == old(cpu)@.cb_hl(Shift::Sla),
        final(cpu)@.ready(),
        cost_ok(old(cpu)@.cycles, final(cpu)@.cycles),
{
    ops::cb_hl(cpu, Shift::Sla)
}

/// SLA A.
pub fn sla_a(cpu: &mut CPU)
    requires
        old(cpu)@.ready(),
    ensures
        final(cpu)@ == old(cpu)@.cb_r(Shift::Sla, A as int),
        final(cpu)@.ready(),
        cost_ok(old(cpu)@.cycles, final(cpu)@.cycles),
{
    ops::cb_r(cpu, Shift::Sla, A)
}

/// SRA B.
pub fn sra_b(cpu: &mut CPU)
    requires
        old(cpu)@.ready(),
    ensures
        final(cpu)@ == old(cpu)@.cb_r(Shift::Sra, B as int),
        final(cpu)@.ready(),
        cost_ok(old(cpu)@.cycles, final(cpu)@.cycles),
{
    ops::cb_r(cpu, Shift::Sra, B)
}

/// SRA C.
pub fn sra_c(cpu: &mut CPU)
    requires
        old(cpu)@.ready(),
    ensures
        final(cpu)@ == old(cpu)@.cb_r(Shift::Sra, C as int),
        final(cpu)@.ready(),
        cost_ok(old(cpu)@.cycles, final(cpu)@.cycles),
{
    ops::cb_r(cpu, Shift::Sra, C)
}

/// SRA D.
pub fn sra_d(cpu: &mut CPU)
    requires
        old(cpu)@.ready(),
    ensures
        final(cpu)@ == old(cpu)@.cb_r(Shift::Sra, D as int),
        final(cpu)@.ready(),
        cost_ok(old(cpu)@.cycles, final(cpu)@.cycles),
{
    ops::cb_r(cpu, Shift::Sra, D)
}

/// SRA E.
pub fn sra_e(cpu: &mut CPU)
    requires
        old(cpu)@.ready(),
    ensures
        final(cpu)@ == old(cpu)@.cb_r(Shift::Sra, E as int),
        final(cpu)@.ready(),
        cost_ok(old(cpu)@.cycles, final(cpu)@.cycles),
{
    ops::cb_r(cpu, Shift::Sra, E)
}

/// SRA H.
pub fn sra_h(cpu: &mut CPU)
    requires
        old(cpu)@.ready(),
    ensures
        final(cpu)@ == old(cpu)@.cb_r(Shift::Sra, H as int),
        final(cpu)@.ready(),
        cost_ok(old(cpu)@.cycles, final(cpu)@.cycles),
{
    ops::cb_r(cpu, Shift::Sra, H)
}

/// SRA L.
pub fn sra_l(cpu: &mut CPU)
    requires
        old(cpu)@.ready(),
    ensures
        final(cpu)@ == old(cpu)@.cb_r(Shift::Sra, L as int),
        final(cpu)@.ready(),
        cost_ok(old(cpu)@.cycles, final(cpu)@.cycles),
{
    ops::cb_r(cpu, Shift::Sra, L)
}

/// SRA (HL).
pub fn sra_hlind(cpu: &mut CPU)
    requires
        old(cpu)@.ready(),
    ensures
        final(cpu)@ == old(cpu)@.cb_hl(Shift::Sra),
        final(cpu)@.ready(),
        cost_ok(old(cpu)@.cycles, final(cpu)@.cycles),
{
    ops::cb_hl(cpu, Shift::Sra)
}

/// SRA A.
pub fn sra_a(cpu: &mut CPU)
    requires
        old(cpu)@.ready(),
    ensures
        final(cpu)@ == old(cpu)@.cb_r(Shift::Sra, A as int),
        final(cpu)@.ready(),
        cost_ok(old(cpu)@.cycles, final(cpu)@.cycles),
{
    ops::cb_r(cpu, Shift::Sra, A)
}

/// SWAP B.
pub fn swap_b(cpu: &mut CPU)
    requires
        old(cpu)@.ready(),
    ensures
        final(cpu)@ == old(cpu)@.cb_r(Shift::Swap, B as int),
        final(cpu)@.ready(),
        cost_ok(old(cpu)@.cycles, final(cpu)@.cycles),
{
    ops::cb_r(cpu, Shift::Swap, B)
}

/// SWAP C.
pub fn swap_c(cpu: &mut CPU)
    requires
        old(cpu)@.ready(),
    ensures
        final(cpu)@ == old(cpu)@.cb_r(Shift::Swap, C as int),
        final(cpu)@.ready(),
        cost_ok(old(cpu)@.cycles, final(cpu)@.cycles),
{
    ops::cb_r(cpu, Shift::Swap, C)
}

/// SWAP D.
pub fn swap_d(cpu: &mut CPU)
    requires
        old(cpu)@.ready(),
    ensures
        final(cpu)@ == old(cpu)@.cb_r(Shift::Swap, D as int),
        final(cpu)@.ready(),
        cost_ok(old(cpu)@.cycles, final(cpu)@.cycles),
{
    ops::cb_r(cpu, Shift::Swap, D)
}

/// SWAP E.
pub fn swap_e(cpu: &mut CPU)
    requires
        old(cpu)@.ready(),
    ensures
        final(cpu)@ == old(cpu)@.cb_r(Shift::Swap, E as int),
        final(cpu)@.ready(),
        cost_ok(old(cpu)@.cycles, final(cpu)@.cycles),
{
    ops::cb_r(cpu, Shift::Swap, E)
}

/// SWAP H.
pub fn swap_h(cpu: &mut CPU)
    requires
        old(cpu)@.ready(),
    ensures
        final(cpu)@ == old(cpu)@.cb_r(Shift::Swap, H as int),
        final(cpu)@.ready(),
        cost_ok(old(cpu)@.cycles, final(cpu)@.cycles),
{
    ops::cb_r(cpu, Shift::Swap, H)
}

/// SWAP L.
pub fn swap_l(cpu: &mut CPU)
    requires
        old(cpu)@.ready(),
    ensures
        final(cpu)@ == old(cpu)@.cb_r(Shift::Swap, L as int),
        final(cpu)@.ready(),
        cost_ok(old(cpu)@.cycles, final(cpu)@.cycles),
{
    ops::cb_r(cpu, Shift::Swap, L)
}

/// SWAP (HL).
pub fn swap_hlind(cpu: &mut CPU)
    requires
        old(cpu)@.ready(),
    ensures
        final(cpu)@ == old(cpu)@.cb_hl(Shift::Swap),
        final(cpu)@.ready(),
        cost_ok(old(cpu)@.cycles, final(cpu)@.cycles),
{
    ops::cb_hl(cpu, Shift::Swap)
}

/// SWAP A.
pub fn swap_a(cpu: &mut CPU)
    requires
        old(cpu)@.ready(),
    ensures
        final(cpu)@ == old(cpu)@.cb_r(Shift::Swap, A as int),
        final(cpu)@.ready(),
        cost_ok(old(cpu)@.cycles, final(cpu)@.cycles),
{
    ops::cb_r(cpu, Shift::Swap, A)
}

/// SRL B.
pub fn srl_b(cpu: &mut CPU)
    requires
        old(cpu)@.ready(),
    ensures
        final(cpu)@ == old(cpu)@.cb_r(Shift::Srl, B as int),
        final(cpu)@.ready(),
        cost_ok(old(cpu)@.cycles, final(cpu)@.cycles),
{
    ops::cb_r(cpu, Shift::Srl, B)
}

/// SRL C.
pub fn srl_c(cpu: &mut CPU)
    requires
        old(cpu)@.ready(),
    ensures
        final(cpu)@ == old(cpu)@.cb_r(Shift::Srl, C as int),
        final(cpu)@.ready(),
        cost_ok(old(cpu)@.cycles, final(cpu)@.cycles),
{
    ops::cb_r(cpu, Shift::Srl, C)
}

/// SRL D.
pub fn srl_d(cpu: &mut CPU)
    requires
        old(cpu)@.ready(),
    ensures
        final(cpu)@ == old(cpu)@.cb_r(Shift::Srl, D as int),
        final(cpu)@.ready(),
        cost_ok(old(cpu)@.cycles, final(cpu)@.cycles),
{
    ops::cb_r(cpu, Shift::Srl, D)
}

/// SRL E.
pub fn srl_e(cpu: &mut CPU)
    requires
        old(cpu)@.ready(),
    ensures
        final(cpu)@ == old(cpu)@.cb_r(Shift::Srl, E as int),
        final(cpu)@.ready(),
        cost_ok(old(cpu)@.cycles, final(cpu)@.cycles),
{
    ops::cb_r(cpu, Shift::Srl, E)
}

/// SRL H.
pub fn srl_h(cpu: &mut CPU)
    requires
        old(cpu)@.ready(),
    ensures
        final(cpu)@ == old(cpu)@.cb_r(Shift::Srl, H as int),
        final(cpu)@.ready(),
        cost_ok(old(cpu)@.cycles, final(cpu)@.cycles),
{
    ops::cb_r(cpu, Shift::Srl, H)
}

/// SRL L.
pub fn srl_l(cpu: &mut CPU)
    requires
        old(cpu)@.ready(),
    ensures
        final(cpu)@ == old(cpu)@.cb_r(Shift::Srl, L as int),
        final(cpu)@.ready(),
        cost_ok(old(cpu)@.cycles, final(cpu)@.cycles),
{
    ops::cb_r(cpu, Shift::Srl, L)
}

/// SRL (HL).
pub fn srl_hlind(cpu: &mut CPU)
    requires
        old(cpu)@.ready(),
    ensures
        final(cpu)@ == old(cpu)@.cb_hl(Shift::Srl),
        final(cpu)@.ready(),
        cost_ok(old(cpu)@.cycles, final(cpu)@.cycles),
{
    ops::cb_hl(cpu, Shift::Srl)
}

/// SRL A.
pub fn srl_a(cpu: &mut CPU)
    requires
        old(cpu)@.ready(),
    ensures
        final(cpu)@ == old(cpu)@.cb_r(Shift::Srl, A as int),
        final(cpu)@.ready(),
        cost_ok(old(cpu)@.cycles, final(cpu)@.cycles),
{
    ops::cb_r(cpu, Shift::Srl, A)
}

/// BIT 0,B.
pub fn bit_0_b(cpu: &mut CPU)
    requires
        old(cpu)@.ready(),
    ensures
        final(cpu)@ == old(cpu)@.bit_r(0x01, B as int),
        final(cpu)@.ready(),
        cost_ok(old(cpu)@.cycles, final(cpu)@.cycles),
{
    ops::bit_r(cpu, 0x01, B)
}

/// BIT 0,C.
pub fn bit_0_c(cpu: &mut CPU)
    requires
        old(cpu)@.ready(),
    ensures
        final(cpu)@ == old(cpu)@.bit_r(0x01, C as int),
        final(cpu)@.ready(),
        cost_ok(old(cpu)@.cycles, final(cpu)@.cycles),
{
    ops::bit_r(cpu, 0x01, C)
}

/// BIT 0,D.
pub fn bit_0_d(cpu: &mut CPU)
    requires
        old(cpu)@.ready(),
    ensures
        final(cpu)@ == old(cpu)@.bit_r(0x01, D as int),
        final(cpu)@.ready(),
        cost_ok(old(cpu)@.cycles, final(cpu)@.cycles),
{
    ops::bit_r(cpu, 0x01, D)
}

/// BIT 0,E.
pub fn bit_0_e(cpu: &mut CPU)
    requires
        old(cpu)@.ready(),
    ensures
        final(cpu)@ == old(cpu)@.bit_r(0x01, E as int),
        final(cpu)@.ready(),
        cost_ok(old(cpu)@.cycles, final(cpu)@.cycles),
{
    ops::bit_r(cpu, 0x01, E)
}

/// BIT 0,H.
pub fn bit_0_h(cpu: &mut CPU)
    requires
        old(cpu)@.ready(),
    ensures
        final(cpu)@ == old(cpu)@.bit_r(0x01, H as int),
        final(cpu)@.ready(),
        cost_ok(old(cpu)@.cycles, final(cpu)@.cycles),
{
    ops::bit_r(cpu, 0x01, H)
}

/// BIT 0,L.
pub fn bit_0_l(cpu: &mut CPU)
    requires
        old(cpu)@.ready(),
    ensures
        final(cpu)@ == old(cpu)@.bit_r(0x01, L as int),
        final(cpu)@.ready(),
        cost_ok(old(cpu)@.cycles, final(cpu)@.cycles),
{
    ops::bit_r(cpu, 0x01, L)
}

/// BIT 0,(HL).
pub fn bit_0_hlind(cpu: &mut CPU)
    requires
        old(cpu)@.ready(),
    ensures
        final(cpu)@ == old(cpu)@.bit_hl(0x01),
        final(cpu)@.ready(),
        cost_ok(old(cpu)@.cycles, final(cpu)@.cycles),
{
    ops::bit_hl(cpu, 0x01)
}

/// BIT 0,A.
pub fn bit_0_a(cpu: &mut CPU)
    requires
        old(cpu)@.ready(),
    ensures
        final(cpu)@ == old(cpu)@.bit_r(0x01, A as int),
        final(cpu)@.ready(),
        cost_ok(old(cpu)@.cycles, final(cpu)@.cycles),
{
    ops::bit_r(cpu, 0x01, A)
}

/// BIT 1,B.
pub fn bit_1_b(cpu: &mut CPU)
    requires
        old(cpu)@.ready(),
    ensures
        final(cpu)@ == old(cpu)@.bit_r(0x02, B as int),
        final(cpu)@.ready(),
        cost_ok(old(cpu)@.cycles, final(cpu)@.cycles),
{
    ops::bit_r(cpu, 0x02, B)
}

/// BIT 1,C.
pub fn bit_1_c(cpu: &mut CPU)
    requires
        old(cpu)@.ready(),
    ensures
        final(cpu)@ == old(cpu)@.bit_r(0x02, C as int),
        final(cpu)@.ready(),
        cost_ok(old(cpu)@.cycles, final(cpu)@.cycles),
{
    ops::bit_r(cpu, 0x02, C)
}

/// BIT 1,D.
pub fn bit_1_d(cpu: &mut CPU)
    requires
        old(cpu)@.ready(),
    ensures
        final(cpu)@ == old(cpu)@.bit_r(0x02, D as int),
        final(cpu)@.ready(),
        cost_ok(old(cpu)@.cycles, final(cpu)@.cycles),
{
    ops::bit_r(cpu, 0x02, D)
}

/// BIT 1,E.
pub fn bit_1_e(cpu: &mut CPU)
    requires
        old(cpu)@.ready(),
    ensures
        final(cpu)@ == old(cpu)@.bit_r(0x02, E as int),
        final(cpu)@.ready(),
        cost_ok(old(cpu)@.cycles, final(cpu)@.cycles),
{
    ops::bit_r(cpu, 0x02, E)
}

/// BIT 1,H.
pub fn bit_1_h(cpu: &mut CPU)
    requires
        old(cpu)@.ready(),
    ensures
        final(cpu)@ == old(cpu)@.bit_r(0x02, H as int),
        final(cpu)@.ready(),
        cost_ok(old(cpu)@.cycles, final(cpu)@.cycles),
{
    ops::bit_r(cpu, 0x02, H)
}

/// BIT 1,L.
pub fn bit_1_l(cpu: &mut CPU)
    requires
        old(cpu)@.ready(),
    ensures
        final(cpu)@ == old(cpu)@.bit_r(0x02, L as int),
        final(cpu)@.ready(),
        cost_ok(old(cpu)@.cycles, final(cpu)@.cycles),
{
    ops::bit_r(cpu, 0x02, L)
}

/// BIT 1,(HL).
pub fn bit_1_hlind(cpu: &mut CPU)
    requires
        old(cpu)@.ready(),
    ensures
        final(cpu)@ == old(cpu)@.bit_hl(0x02),
        final(cpu)@.ready(),
        cost_ok(old(cpu)@.cycles, final(cpu)@.cycles),
{
    ops::bit_hl(cpu, 0x02)
}

/// BIT 1,A.
pub fn bit_1_a(cpu: &mut CPU)
    requires
        old(cpu)@.ready(),
    ensures
        final(cpu)@ == old(cpu)@.bit_r(0x02, A as int),
        final(cpu)@.ready(),
        cost_ok(old(cpu)@.cycles, final(cpu)@.cycles),
{
    ops::bit_r(cpu, 0x02, A)
}

/// BIT 2,B.
pub fn bit_2_b(cpu: &mut CPU)
    requires
        old(cpu)@.ready(),
    ensures
        final(cpu)@ == old(cpu)@.bit_r(0x04, B as int),
        final(cpu)@.ready(),
        cost_ok(old(cpu)@.cycles, final(cpu)@.cycles),
{
    ops::bit_r(cpu, 0x04, B)
}

/// BIT 2,C.
pub fn bit_2_c(cpu: &mut CPU)
    requires
        old(cpu)@.ready(),
    ensures
        final(cpu)@ == old(cpu)@.bit_r(0x04, C as int),
        final(cpu)@.ready(),
        cost_ok(old(cpu)@.cycles, final(cpu)@.cycles),
{
    ops::bit_r(cpu, 0x04, C)
}

/// BIT 2,D.
pub fn bit_2_d(cpu: &mut CPU)
    requires
        old(cpu)@.ready(),
    ensures
        final(cpu)@ == old(cpu)@.bit_r(0x04, D as int),
        final(cpu)@.ready(),
        cost_ok(old(cpu)@.cycles, final(cpu)@.cycles),
{
    ops::bit_r(cpu, 0x04, D)
}

/// BIT 2,E.
pub fn bit_2_e(cpu: &mut CPU)
    requires
        old(cpu)@.ready(),
    ensures
        final(cpu)@ == old(cpu)@.bit_r(0x04, E as int),
        final(cpu)@.ready(),
        cost_ok(old(cpu)@.cycles, final(cpu)@.cycles),
{
    ops::bit_r(cpu, 0x04, E)
}

/// BIT 2,H.
pub fn bit_2_h(cpu: &mut CPU)
    requires
        old(cpu)@.ready(),
    ensures
        final(cpu)@ == old(cpu)@.bit_r(0x04, H as int),
        final(cpu)@.ready(),
        cost_ok(old(cpu)@.cycles, final(cpu)@.cycles),
{
    ops::bit_r(cpu, 0x04, H)
}

/// BIT 2,L.
pub fn bit_2_l(cpu: &mut CPU)
    requires
        old(cpu)@.ready(),
    ensures
        final(cpu)@ == old(cpu)@.bit_r(0x04, L as int),
        final(cpu)@.ready(),
        cost_ok(old(cpu)@.cycles, final(cpu)@.cycles),
{
    ops::bit_r(cpu, 0x04, L)
}

/// BIT 2,(HL).
pub fn bit_2_hlind(cpu: &mut CPU)
    requires
        old(cpu)@.ready(),
    ensures
        final(cpu)@ == old(cpu)@.bit_hl(0x04),
        final(cpu)@.ready(),
        cost_ok(old(cpu)@.cycles, final(cpu)@.cycles),
{
    ops::bit_hl(cpu, 0x04)
}

/// BIT 2,A.
pub fn bit_2_a(cpu: &mut CPU)
    requires
        old(cpu)@.ready(),
    ensures
        final(cpu)@ == old(cpu)@.bit_r(0x04, A as int),
        final(cpu)@.ready(),
        cost_ok(old(cpu)@.cycles, final(cpu)@.cycles),
{
    ops::bit_r(cpu, 0x04, A)
}

/// BIT 3,B.
pub fn bit_3_b(cpu: &mut CPU)
    requires
        old(cpu)@.ready(),
    ensures
        final(cpu)@ == old(cpu)@.bit_r(0x08, B as int),
        final(cpu)@.ready(),
        cost_ok(old(cpu)@.cycles, final(cpu)@.cycles),
{
    ops::bit_r(cpu, 0x08, B)
}

/// BIT 3,C.
pub fn bit_3_c(cpu: &mut CPU)
    requires
        old(cpu)@.ready(),
    ensures
        final(cpu)@ == old(cpu)@.bit_r(0x08, C as int),
        final(cpu)@.ready(),
        cost_ok(old(cpu)@.cycles, final(cpu)@.cycles),
{
    ops::bit_r(cpu, 0x08, C)
}

/// BIT 3,D.
pub fn bit_3_d(cpu: &mut CPU)
    requires
        old(cpu)@.ready(),
    ensures
        final(cpu)@ == old(cpu)@.bit_r(0x08, D as int),
        final(cpu)@.ready(),
        cost_ok(old(cpu)@.cycles, final(cpu)@.cycles),
{
    ops::bit_r(cpu, 0x08, D)
}

/// BIT 3,E.
pub fn bit_3_e(cpu: &mut CPU)
    requires
        old(cpu)@.ready(),
    ensures
        final(cpu)@ == old(cpu)@.bit_r(0x08, E as int),
        final(cpu)@.ready(),
        cost_ok(old(cpu)@.cycles, final(cpu)@.cycles),
{
    ops::bit_r(cpu, 0x08, E)
}

/// BIT 3,H.
pub fn bit_3_h(cpu: &mut CPU)
    requires
        old(cpu)@.ready(),
    ensures
        final(cpu)@ == old(cpu)@.bit_r(0x08, H as int),
        final(cpu)@.ready(),
        cost_ok(old(cpu)@.cycles, final(cpu)@.cycles),
{
    ops::bit_r(cpu, 0x08, H)
}

/// BIT 3,L.
pub fn bit_3_l(cpu: &mut CPU)
    requires
        old(cpu)@.ready(),
    ensures
        final(cpu)@ == old(cpu)@.bit_r(0x08, L as int),
        final(cpu)@.ready(),
        cost_ok(old(cpu)@.cycles, final(cpu)@.cycles),
{
    ops::bit_r(cpu, 0x08, L)
}

/// BIT 3,(HL).
pub fn bit_3_hlind(cpu: &mut CPU)
    requires
        old(cpu)@.ready(),
    ensures
        final(cpu)@ == old(cpu)@.bit_hl(0x08),
        final(cpu)@.ready(),
        cost_ok(old(cpu)@.cycles, final(cpu)@.cycles),
{
    ops::bit_hl(cpu, 0x08)
}

/// BIT 3,A.
pub fn bit_3_a(cpu: &mut CPU)
    requires
        old(cpu)@.ready(),
    ensures
        final(cpu)@ == old(cpu)@.bit_r(0x08, A as int),
        final(cpu)@.ready(),
        cost_ok(old(cpu)@.cycles, final(cpu)@.cycles),
{
    ops::bit_r(cpu, 0x08, A)
}

/// BIT 4,B.
pub fn bit_4_b(cpu: &mut CPU)
    requires
        old(cpu)@.ready(),
    ensures
        final(cpu)@ == old(cpu)@.bit_r(0x10, B as int),
        final(cpu)@.ready(),
        cost_ok(old(cpu)@.cycles, final(cpu)@.cycles),
{
    ops::bit_r(cpu, 0x10, B)
}

/// BIT 4,C.
pub fn bit_4_c(cpu: &mut CPU)
    requires
        old(cpu)@.ready(),
    ensures
        final(cpu)@ == old(cpu)@.bit_r(0x10, C as int),
        final(cpu)@.ready(),
        cost_ok(old(cpu)@.cycles, final(cpu)@.cycles),
{
    ops::bit_r(cpu, 0x10, C)
}

/// BIT 4,D.
pub fn bit_4_d(cpu: &mut CPU)
    requires
        old(cpu)@.ready(),
    ensures
        final(cpu)@ == old(cpu)@.bit_r(0x10, D as int),
        final(cpu)@.ready(),
        cost_ok(old(cpu)@.cycles, final(cpu)@.cycles),
{
    ops::bit_r(cpu, 0x10, D)
}

/// BIT 4,E.
pub fn bit_4_e(cpu: &mut CPU)
    requires
        old(cpu)@.ready(),
    ensures
        final(cpu)@ == old(cpu)@.bit_r(0x10, E as int),
        final(cpu)@.ready(),
        cost_ok(old(cpu)@.cycles, final(cpu)@.cycles),
{
    ops::bit_r(cpu, 0x10, E)
}

/// BIT 4,H.
pub fn bit_4_h(cpu: &mut CPU)
    requires
        old(cpu)@.ready(),
    ensures
        final(cpu)@ == old(cpu)@.bit_r(0x10, H as int),
        final(cpu)@.ready(),
        cost_ok(old(cpu)@.cycles, final(cpu)@.cycles),
{
    ops::bit_r(cpu, 0x10, H)
}

/// BIT 4,L.
pub fn bit_4_l(cpu: &mut CPU)
    requires
        old(cpu)@.ready(),
    ensures
        final(cpu)@ == old(cpu)@.bit_r(0x10, L as int),
        final(cpu)@.ready(),
        cost_ok(old(cpu)@.cycles, final(cpu)@.cycles),
{
    ops::bit_r(cpu, 0x10, L)
}

/// BIT 4,(HL).
pub fn bit_4_hlind(cpu: &mut CPU)
    requires
        old(cpu)@.ready(),
    ensures
        final(cpu)@ == old(cpu)@.bit_hl(0x10),
        final(cpu)@.ready(),
        cost_ok(old(cpu)@.cycles, final(cpu)@.cycles),
{
    ops::bit_hl(cpu, 0x10)
}

/// BIT 4,A.
pub fn bit_4_a(cpu: &mut CPU)
    requires
        old(cpu)@.ready(),
    ensures
        final(cpu)@ == old(cpu)@.bit_r(0x10, A as int),
        final(cpu)@.ready(),
        cost_ok(old(cpu)@.cycles, final(cpu)@.cycles),
{
    ops::bit_r(cpu, 0x10, A)
}

/// BIT 5,B.
pub fn bit_5_b(cpu: &mut CPU)
    requires
        old(cpu)@.ready(),
    ensures
        final(cpu)@ == old(cpu)@.bit_r(0x20, B as int),
        final(cpu)@.ready(),
        cost_ok(old(cpu)@.cycles, final(cpu)@.cycles),
{
    ops::bit_r(cpu, 0x20, B)
}

/// BIT 5,C.
pub fn bit_5_c(cpu: &mut CPU)
    requires
        old(cpu)@.ready(),
    ensures
        final(cpu)@ == old(cpu)@.bit_r(0x20, C as int),
        final(cpu)@.ready(),
        cost_ok(old(cpu)@.cycles, final(cpu)@.cycles),
{
    ops::bit_r(cpu, 0x20, C)
}

/// BIT 5,D.
pub fn bit_5_d(cpu: &mut CPU)
    requires
        old(cpu)@.ready(),
    ensures
        final(cpu)@ == old(cpu)@.bit_r(0x20, D as int),
        final(cpu)@.ready(),
        cost_ok(old(cpu)@.cycles, final(cpu)@.cycles),
{
    ops::bit_r(cpu, 0x20, D)
}

/// BIT 5,E.
pub fn bit_5_e(cpu: &mut CPU)
    requires
        old(cpu)@.ready(),
    ensures
        final(cpu)@ == old(cpu)@.bit_r(0x20, E as int),
        final(cpu)@.ready(),
        cost_ok(old(cpu)@.cycles, final(cpu)@.cycles),
{
    ops::bit_r(cpu, 0x20, E)
}

/// BIT 5,H.
pub fn bit_5_h(cpu: &mut CPU)
    requires
        old(cpu)@.ready(),
    ensures
        final(cpu)@ == old(cpu)@.bit_r(0x20, H as int),
        final(cpu)@.ready(),
        cost_ok(old(cpu)@.cycles, final(cpu)@.cycles),
{
    ops::bit_r(cpu, 0x20, H)
}

/// BIT 5,L.
pub fn bit_5_l(cpu: &mut CPU)
    requires
        old(cpu)@.ready(),
    ensures
        final(cpu)@ == old(cpu)@.bit_r(0x20, L as int),
        final(cpu)@.ready(),
        cost_ok(old(cpu)@.cycles, final(cpu)@.cycles),
{
    ops::bit_r(cpu, 0x20, L)
}

/// BIT 5,(HL).
pub fn bit_5_hlind(cpu: &mut CPU)
    requires
        old(cpu)@.ready(),
    ensures
        final(cpu)@ == old(cpu)@.bit_hl(0x20),
        final(cpu)@.ready(),
        cost_ok(old(cpu)@.cycles, final(cpu)@.cycles),
{
    ops::bit_hl(cpu, 0x20)
}

/// BIT 5,A.
pub fn bit_5_a(cpu: &mut CPU)
    requires
        old(cpu)@.ready(),
    ensures
        final(cpu)@ == old(cpu)@.bit_r(0x20, A as int),
        final(cpu)@.ready(),
        cost_ok(old(cpu)@.cycles, final(cpu)@.cycles),
{
    ops::bit_r(cpu, 0x20, A)
}

/// BIT 6,B.
pub fn bit_6_b(cpu: &mut CPU)
    requires
        old(cpu)@.ready(),
    ensures
        final(cpu)@ == old(cpu)@.bit_r(0x40, B as int),
        final(cpu)@.ready(),
        cost_ok(old(cpu)@.cycles, final(cpu)@.cycles),
{
    ops::bit_r(cpu, 0x40, B)
}

/// BIT 6,C.
pub fn bit_6_c(cpu: &mut CPU)
    requires
        old(cpu)@.ready(),
    ensures
        final(cpu)@ == old(cpu)@.bit_r(0x40, C as int),
        final(cpu)@.ready(),
        cost_ok(old(cpu)@.cycles, final(cpu)@.cycles),
{
    ops::bit_r(cpu, 0x40, C)
}

/// BIT 6,D.
pub fn bit_6_d(cpu: &mut CPU)
    requires
        old(cpu)@.ready(),
    ensures
        final(cpu)@ == old(cpu)@.bit_r(0x40, D as int),
        final(cpu)@.ready(),
        cost_ok(old(cpu)@.cycles, final(cpu)@.cycles),
{
    ops::bit_r(cpu, 0x40, D)
}

/// BIT 6,E.
pub fn bit_6_e(cpu: &mut CPU)
    requires
        old(cpu)@.ready(),
    ensures
        final(cpu)@ == old(cpu)@.bit_r(0x40, E as int),
        final(cpu)@.ready(),
        cost_ok(old(cpu)@.cycles, final(cpu)@.cycles),
{
    ops::bit_r(cpu, 0x40, E)
}

/// BIT 6,H.
pub fn bit_6_h(cpu: &mut CPU)
    requires
        old(cpu)@.ready(),
    ensures
        final(cpu)@ == old(cpu)@.bit_r(0x40, H as int),
        final(cpu)@.ready(),
        cost_ok(old(cpu)@.cycles, final(cpu)@.cycles),
{
    ops::bit_r(cpu, 0x40, H)
}

/// BIT 6,L.
pub fn bit_6_l(cpu: &mut CPU)
    requires
        old(cpu)@.ready(),
    ensures
        final(cpu)@ == old(cpu)@.bit_r(0x40, L as int),
        final(cpu)@.ready(),
        cost_ok(old(cpu)@.cycles, final(cpu)@.cycles),
{
    ops::bit_r(cpu, 0x40, L)
}

/// BIT 6,(HL).
pub fn bit_6_hlind(cpu: &mut CPU)
    requires
        old(cpu)@.ready(),
    ensures
        final(cpu)@ == old(cpu)@.bit_hl(0x40),
        final(cpu)@.ready(),
        cost_ok(old(cpu)@.cycles, final(cpu)@.cycles),
{
    ops::bit_hl(cpu, 0x40)
}

/// BIT 6,A.
pub fn bit_6_a(cpu: &mut CPU)
    requires
        old(cpu)@.ready(),
    ensures
        final(cpu)@ == old(cpu)@.bit_r(0x40, A as int),
        final(cpu)@.ready(),
        cost_ok(old(cpu)@.cycles, final(cpu)@.cycles),
{
    ops::bit_r(cpu, 0x40, A)
}

/// BIT 7,B.
pub fn bit_7_b(cpu: &mut CPU)
    requires
        old(cpu)@.ready(),
    ensures
        final(cpu)@ == old(cpu)@.bit_r(0x80, B as int),
        final(cpu)@.ready(),
        cost_ok(old(cpu)@.cycles, final(cpu)@.cycles),
{
    ops::bit_r(cpu, 0x80, B)
}

/// BIT 7,C.
pub fn bit_7_c(cpu: &mut CPU)
    requires
        old(cpu)@.ready(),
    ensures
        final(cpu)@ == old(cpu)@.bit_r(0x80, C as int),
        final(cpu)@.ready(),
        cost_ok(old(cpu)@.cycles, final(cpu)@.cycles),
{
    ops::bit_r(cpu, 0x80, C)
}

/// BIT 7,D.
pub fn bit_7_d(cpu: &mut CPU)
    requires
        old(cpu)@.ready(),
    ensures
        final(cpu)@ == old(cpu)@.bit_r(0x80, D as int),
        final(cpu)@.ready(),
        cost_ok(old(cpu)@.cycles, final(cpu)@.cycles),
{
    ops::bit_r(cpu, 0x80, D)
}

/// BIT 7,E.
pub fn bit_7_e(cpu: &mut CPU)
    requires
        old(cpu)@.ready(),
    ensures
        final(cpu)@ == old(cpu)@.bit_r(0x80, E as int),
        final(cpu)@.ready(),
        cost_ok(old(cpu)@.cycles, final(cpu)@.cycles),
{
    ops::bit_r(cpu, 0x80, E)
}

/// BIT 7,H.
pub fn bit_7_h(cpu: &mut CPU)
    requires
        old(cpu)@.ready(),
    ensures
        final(cpu)@ == old(cpu)@.bit_r(0x80, H as int),
        final(cpu)@.ready(),
        cost_ok(old(cpu)@.cycles, final(cpu)@.cycles),
{
    ops::bit_r(cpu, 0x80, H)
}

/// BIT 7,L.
pub fn bit_7_l(cpu: &mut CPU)
    requires
        old(cpu)@.ready(),
    ensures
        final(cpu)@ == old(cpu)@.bit_r(0x80, L as int),
        final(cpu)@.ready(),
        cost_ok(old(cpu)@.cycles, final(cpu)@.cycles),
{
    ops::bit_r(cpu, 0x80, L)
}

/// BIT 7,(HL).
pub fn bit_7_hlind(cpu: &mut CPU)
    requires
        old(cpu)@.ready(),
    ensures
        final(cpu)@ == old(cpu)@.bit_hl(0x80),
        final(cpu)@.ready(),
        cost_ok(old(cpu)@.cycles, final(cpu)@.cycles),
{
    ops::bit_hl(cpu, 0x80)
}

/// BIT 7,A.
pub fn bit_7_a(cpu: &mut CPU)
    requires
        old(cpu)@.ready(),
    ensures
        final(cpu)@ == old(cpu)@.bit_r(0x80, A as int),
        final(cpu)@.ready(),
        cost_ok(old(cpu)@.cycles, final(cpu)@.cycles),
{
    ops::bit_r(cpu, 0x80, A)
}

/// RES 0,B.
pub fn res_0_b(cpu: &mut CPU)
    requires
        old(cpu)@.ready(),
    ensures
        final(cpu)@ == old(cpu)@.res_r(0xFE, B as int),
        final(cpu)@.ready(),
        cost_ok(old(cpu)@.cycles, final(cpu)@.cycles),
{
    ops::res_r(cpu, 0xFE, B)
}

/// RES 0,C.
pub fn res_0_c(cpu: &mut CPU)
    requires
        old(cpu)@.ready(),
    ensures
        final(cpu)@ == old(cpu)@.res_r(0xFE, C as int),
        final(cpu)@.ready(),
        cost_ok(old(cpu)@.cycles, final(cpu)@.cycles),
{
    ops::res_r(cpu, 0xFE, C)
}

/// RES 0,D.
pub fn res_0_d(cpu: &mut CPU)
    requires
        old(cpu)@.ready(),
    ensures
        final(cpu)@ == old(cpu)@.res_r(0xFE, D as int),
        final(cpu)@.ready(),
        cost_ok(old(cpu)@.cycles, final(cpu)@.cycles),
{
    ops::res_r(cpu, 0xFE, D)
}

/// RES 0,E.
pub fn res_0_e(cpu: &mut CPU)
    requires
        old(cpu)@.ready(),
    ensures
        final(cpu)@ == old(cpu)@.res_r(0xFE, E as int),
        final(cpu)@.ready(),
        cost_ok(old(cpu)@.cycles, final(cpu)@.cycles),
{
    ops::res_r(cpu, 0xFE, E)
}

/// RES 0,H.
pub fn res_0_h(cpu: &mut CPU)
    requires
        old(cpu)@.ready(),
    ensures
        final(cpu)@ == old(cpu)@.res_r(0xFE, H as int),
        final(cpu)@.ready(),
        cost_ok(old(cpu)@.cycles, final(cpu)@.cycles),
{
    ops::res_r(cpu, 0xFE, H)
}

/// RES 0,L.
pub fn res_0_l(cpu: &mut CPU)
    requires
        old(cpu)@.ready(),
    ensures
        final(cpu)@ == old(cpu)@.res_r(0xFE, L as int),
        final(cpu)@.ready(),
        cost_ok(old(cpu)@.cycles, final(cpu)@.cycles),
{
    ops::res_r(cpu, 0xFE, L)
}

/// RES 0,(HL).
pub fn res_0_hlind(cpu: &mut CPU)
    requires
        old(cpu)@.ready(),
    ensures
        final(cpu)@ == old(cpu)@.res_hl(0xFE),
        final(cpu)@.ready(),
        cost_ok(old(cpu)@.cycles, final(cpu)@.cycles),
{
    ops::res_hl(cpu, 0xFE)
}

/// RES 0,A.
pub fn res_0_a(cpu: &mut CPU)
    requires
        old(cpu)@.ready(),
    ensures
        final(cpu)@ == old(cpu)@.res_r(0xFE, A as int),
        final(cpu)@.ready(),
        cost_ok(old(cpu)@.cycles, final(cpu)@.cycles),
{
    ops::res_r(cpu, 0xFE, A)
}

/// RES 1,B.
pub fn res_1_b(cpu: &mut CPU)
    requires
        old(cpu)@.ready(),
    ensures
        final(cpu)@ == old(cpu)@.res_r(0xFD, B as int),
        final(cpu)@.ready(),
        cost_ok(old(cpu)@.cycles, final(cpu)@.cycles),
{
    ops::res_r(cpu, 0xFD, B)
}

/// RES 1,C.
pub fn res_1_c(cpu: &mut CPU)
    requires
        old(cpu)@.ready(),
    ensures
        final(cpu)@ == old(cpu)@.res_r(0xFD, C as int),
        final(cpu)@.ready(),
        cost_ok(old(cpu)@.cycles, final(cpu)@.cycles),
{
    ops::res_r(cpu, 0xFD, C)
}

/// RES 1,D.
pub fn res_1_d(cpu: &mut CPU)
    requires
        old(cpu)@.ready(),
    ensures
        final(cpu)@ == old(cpu)@.res_r(0xFD, D as int),
        final(cpu)@.ready(),
        cost_ok(old(cpu)@.cycles, final(cpu)@.cycles),
{
    ops::res_r(cpu, 0xFD, D)
}

/// RES 1,E.
pub fn res_1_e(cpu: &mut CPU)
    requires
        old(cpu)@.ready(),
    ensures
        final(cpu)@ == old(cpu)@.res_r(0xFD, E as int),
        final(cpu)@.ready(),
        cost_ok(old(cpu)@.cycles, final(cpu)@.cycles),
{
    ops::res_r(cpu, 0xFD, E)
}

/// RES 1,H.
pub fn res_1_h(cpu: &mut CPU)
    requires
        old(cpu)@.ready(),
    ensures
        final(cpu)@ == old(cpu)@.res_r(0xFD, H as int),
        final(cpu)@.ready(),
        cost_ok(old(cpu)@.cycles, final(cpu)@.cycles),
{
    ops::res_r(cpu, 0xFD, H)
}

/// RES 1,L.
pub fn res_1_l(cpu: &mut CPU)
    requires
        old(cpu)@.ready(),
    ensures
        final(cpu)@ == old(cpu)@.res_r(0xFD, L as int),
        final(cpu)@.ready(),
        cost_ok(old(cpu)@.cycles, final(cpu)@.cycles),
{
    ops::res_r(cpu, 0xFD, L)
}

/// RES 1,(HL).
pub fn res_1_hlind(cpu: &mut CPU)
    requires
        old(cpu)@.ready(),
    ensures
        final(cpu)@ == old(cpu)@.res_hl(0xFD),
        final(cpu)@.ready(),
        cost_ok(old(cpu)@.cycles, final(cpu)@.cycles),
{
    ops::res_hl(cpu, 0xFD)
}

/// RES 1,A.
pub fn res_1_a(cpu: &mut CPU)
    requires
        old(cpu)@.ready(),
    ensures
        final(cpu)@ == old(cpu)@.res_r(0xFD, A as int),
        final(cpu)@.ready(),
        cost_ok(old(cpu)@.cycles, final(cpu)@.cycles),
{
    ops::res_r(cpu, 0xFD, A)
}

/// RES 2,B.
pub fn res_2_b(cpu: &mut CPU)
    requires
        old(cpu)@.ready(),
    ensures
        final(cpu)@ == old(cpu)@.res_r(0xFB, B as int),
        final(cpu)@.ready(),
        cost_ok(old(cpu)@.cycles, final(cpu)@.cycles),
{
    ops::res_r(cpu, 0xFB, B)
}

/// RES 2,C.
pub fn res_2_c(cpu: &mut CPU)
    requires
        old(cpu)@.ready(),
    ensures
        final(cpu)@ == old(cpu)@.res_r(0xFB, C as int),
        final(cpu)@.ready(),
        cost_ok(old(cpu)@.cycles, final(cpu)@.cycles),
{
    ops::res_r(cpu, 0xFB, C)
}

/// RES 2,D.
pub fn res_2_d(cpu: &mut CPU)
    requires
        old(cpu)@.ready(),
    ensures
        final(cpu)@ == old(cpu)@.res_r(0xFB, D as int),
        final(cpu)@.ready(),
        cost_ok(old(cpu)@.cycles, final(cpu)@.cycles),
{
    ops::res_r(cpu, 0xFB, D)
}

/// RES 2,E.
pub fn res_2_e(cpu: &mut CPU)
    requires
        old(cpu)@.ready(),
    ensures
        final(cpu)@ == old(cpu)@.res_r(0xFB, E as int),
        final(cpu)@.ready(),
        cost_ok(old(cpu)@.cycles, final(cpu)@.cycles),
{
    ops::res_r(cpu, 0xFB, E)
}

/// RES 2,H.
pub fn res_2_h(cpu: &mut CPU)
    requires
        old(cpu)@.ready(),
    ensures
        final(cpu)@ == old(cpu)@.res_r(0xFB, H as int),
        final(cpu)@.ready(),
        cost_ok(old(cpu)@.cycles, final(cpu)@.cycles),
{
    ops::res_r(cpu, 0xFB, H)
}

/// RES 2,L.
pub fn res_2_l(cpu: &mut CPU)
    requires
        old(cpu)@.ready(),
    ensures
        final(cpu)@ == old(cpu)@.res_r(0xFB, L as int),
        final(cpu)@.ready(),
        cost_ok(old(cpu)@.cycles, final(cpu)@.cycles),
{
    ops::res_r(cpu, 0xFB, L)
}

/// RES 2,(HL).
pub fn res_2_hlind(cpu: &mut CPU)
    requires
        old(cpu)@.ready(),
    ensures
        final(cpu)@ == old(cpu)@.res_hl(0xFB),
        final(cpu)@.ready(),
        cost_ok(old(cpu)@.cycles, final(cpu)@.cycles),
{
    ops::res_hl(cpu, 0xFB)
}

/// RES 2,A.
pub fn res_2_a(cpu: &mut CPU)
    requires
        old(cpu)@.ready(),
    ensures
        final(cpu)@ == old(cpu)@.res_r(0xFB, A as int),
        final(cpu)@.ready(),
        cost_ok(old(cpu)@.cycles, final(cpu)@.cycles),
{
    ops::res_r(cpu, 0xFB, A)
}

/// RES 3,B.
pub fn res_3_b(cpu: &mut CPU)
    requires
        old(cpu)@.ready(),
    ensures
        final(cpu)@ == old(cpu)@.res_r(0xF7, B as int),
        final(cpu)@.ready(),
        cost_ok(old(cpu)@.cycles, final(cpu)@.cycles),
{
    ops::res_r(cpu, 0xF7, B)
}

/// RES 3,C.
pub fn res_3_c(cpu: &mut CPU)
    requires
        old(cpu)@.ready(),
    ensures
        final(cpu)@ == old(cpu)@.res_r(0xF7, C as int),
        final(cpu)@.ready(),
        cost_ok(old(cpu)@.cycles, final(cpu)@.cycles),
{
    ops::res_r(cpu, 0xF7, C)
}

/// RES 3,D.
pub fn res_3_d(cpu: &mut CPU)
    requires
        old(cpu)@.ready(),
    ensures
        final(cpu)@ == old(cpu)@.res_r(0xF7, D as int),
        final(cpu)@.ready(),
        cost_ok(old(cpu)@.cycles, final(cpu)@.cycles),
{
    ops::res_r(cpu, 0xF7, D)
}

/// RES 3,E.
pub fn res_3_e(cpu: &mut CPU)
    requires
        old(cpu)@.ready(),
    ensures
        final(cpu)@ == old(cpu)@.res_r(0xF7, E as int),
        final(cpu)@.ready(),
        cost_ok(old(cpu)@.cycles, final(cpu)@.cycles),
{
    ops::res_r(cpu, 0xF7, E)
}

/// RES 3,H.
pub fn res_3_h(cpu: &mut CPU)
    requires
        old(cpu)@.ready(),
    ensures
        final(cpu)@ == old(cpu)@.res_r(0xF7, H as int),
        final(cpu)@.ready(),
        cost_ok(old(cpu)@.cycles, final(cpu)@.cycles),
{
    ops::res_r(cpu, 0xF7, H)
}

/// RES 3,L.
pub fn res_3_l(cpu: &mut CPU)
    requires
        old(cpu)@.ready(),
    ensures
        final(cpu)@ == old(cpu)@.res_r(0xF7, L as int),
        final(cpu)@.ready(),
        cost_ok(old(cpu)@.cycles, final(cpu)@.cycles),
{
    ops::res_r(cpu, 0xF7, L)
}

/// RES 3,(HL).
pub fn res_3_hlind(cpu: &mut CPU)
    requires
        old(cpu)@.ready(),
    ensures
        final(cpu)@ == old(cpu)@.res_hl(0xF7),
        final(cpu)@.ready(),
        cost_ok(old(cpu)@.cycles, final(cpu)@.cycles),
{
    ops::res_hl(cpu, 0xF7)
}

/// RES 3,A.
pub fn res_3_a(cpu: &mut CPU)
    requires
        old(cpu)@.ready(),
    ensures
        final(cpu)@ == old(cpu)@.res_r(0xF7, A as int),
        final(cpu)@.ready(),
        cost_ok(old(cpu)@.cycles, final(cpu)@.cycles),
{
    ops::res_r(cpu, 0xF7, A)
}

/// RES 4,B.
pub fn res_4_b(cpu: &mut CPU)
    requires
        old(cpu)@.ready(),
    ensures
        final(cpu)@ == old(cpu)@.res_r(0xEF, B as int),
        final(cpu)@.ready(),
        cost_ok(old(cpu)@.cycles, final(cpu)@.cycles),
{
    ops::res_r(cpu, 0xEF, B)
}

/// RES 4,C.
pub fn res_4_c(cpu: &mut CPU)
    requires
        old(cpu)@.ready(),
    ensures
        final(cpu)@ == old(cpu)@.res_r(0xEF, C as int),
        final(cpu)@.ready(),
        cost_ok(old(cpu)@.cycles, final(cpu)@.cycles),
{
    ops::res_r(cpu, 0xEF, C)
}

/// RES 4,D.
pub fn res_4_d(cpu: &mut CPU)
    requires
        old(cpu)@.ready(),
    ensures
        final(cpu)@ == old(cpu)@.res_r(0xEF, D as int),
        final(cpu)@.ready(),
        cost_ok(old(cpu)@.cycles, final(cpu)@.cycles),
{
    ops::res_r(cpu, 0xEF, D)
}

/// RES 4,E.
pub fn res_4_e(cpu: &mut CPU)
    requires
        old(cpu)@.ready(),
    ensures
        final(cpu)@ == old(cpu)@.res_r(0xEF, E as int),
        final(cpu)@.ready(),
        cost_ok(old(cpu)@.cycles, final(cpu)@.cycles),
{
    ops::res_r(cpu, 0xEF, E)
}

/// RES 4,H.
pub fn res_4_h(cpu: &mut CPU)
    requires
        old(cpu)@.ready(),
    ensures
        final(cpu)@ == old(cpu)@.res_r(0xEF, H as int),
        final(cpu)@.ready(),
        cost_ok(old(cpu)@.cycles, final(cpu)@.cycles),
{
    ops::res_r(cpu, 0xEF, H)
}

/// RES 4,L.
pub fn res_4_l(cpu: &mut CPU)
    requires
        old(cpu)@.ready(),
    ensures
        final(cpu)@ == old(cpu)@.res_r(0xEF, L as int),
        final(cpu)@.ready(),
        cost_ok(old(cpu)@.cycles, final(cpu)@.cycles),
{
    ops::res_r(cpu, 0xEF, L)
}

/// RES 4,(HL).
pub fn res_4_hlind(cpu: &mut CPU)
    requires
        old(cpu)@.ready(),
    ensures
        final(cpu)@ == old(cpu)@.res_hl(0xEF),
        final(cpu)@.ready(),
        cost_ok(old(cpu)@.cycles, final(cpu)@.cycles),
{
    ops::res_hl(cpu, 0xEF)
}

/// RES 4,A.
pub fn res_4_a(cpu: &mut CPU)
    requires
        old(cpu)@.ready(),
    ensures
        final(cpu)@ == old(cpu)@.res_r(0xEF, A as int),
        final(cpu)@.ready(),
        cost_ok(old(cpu)@.cycles, final(cpu)@.cycles),
{
    ops::res_r(cpu, 0xEF, A)
}

/// RES 5,B.
pub fn res_5_b(cpu: &mut CPU)
    requires
        old(cpu)@.ready(),
    ensures
        final(cpu)@ == old(cpu)@.res_r(0xDF, B as int),
        final(cpu)@.ready(),
        cost_ok(old(cpu)@.cycles, final(cpu)@.cycles),
{
    ops::res_r(cpu, 0xDF, B)
}

/// RES 5,C.
pub fn res_5_c(cpu: &mut CPU)
    requires
        old(cpu)@.ready(),
    ensures
        final(cpu)@ == old(cpu)@.res_r(0xDF, C as int),
        final(cpu)@.ready(),
        cost_ok(old(cpu)@.cycles, final(cpu)@.cycles),
{
    ops::res_r(cpu, 0xDF, C)
}

/// RES 5,D.
pub fn res_5_d(cpu: &mut CPU)
    requires
        old(cpu)@.ready(),
    ensures
        final(cpu)@ == old(cpu)@.res_r(0xDF, D as int),
        final(cpu)@.ready(),
        cost_ok(old(cpu)@.cycles, final(cpu)@.cycles),
{
    ops::res_r(cpu, 0xDF, D)
}

/// RES 5,E.
pub fn res_5_e(cpu: &mut CPU)
    requires
        old(cpu)@.ready(),
    ensures
        final(cpu)@ == old(cpu)@.res_r(0xDF, E as int),
        final(cpu)@.ready(),
        cost_ok(old(cpu)@.cycles, final(cpu)@.cycles),
{
    ops::res_r(cpu, 0xDF, E)
}

/// RES 5,H.
pub fn res_5_h(cpu: &mut CPU)
    requires
        old(cpu)@.ready(),
    ensures
        final(cpu)@ == old(cpu)@.res_r(0xDF, H as int),
        final(cpu)@.ready(),
        cost_ok(old(cpu)@.cycles, final(cpu)@.cycles),
{
    ops::res_r(cpu, 0xDF, H)
}

/// RES 5,L.
pub fn res_5_l(cpu: &mut CPU)
    requires
        old(cpu)@.ready(),
    ensures
        final(cpu)@ == old(cpu)@.res_r(0xDF, L as int),
        final(cpu)@.ready(),
        cost_ok(old(cpu)@.cycles, final(cpu)@.cycles),
{
    ops::res_r(cpu, 0xDF, L)
}

/// RES 5,(HL).
pub fn res_5_hlind(cpu: &mut CPU)
    requires
        old(cpu)@.ready(),
    ensures
        final(cpu)@ == old(cpu)@.res_hl(0xDF),
        final(cpu)@.ready(),
        cost_ok(old(cpu)@.cycles, final(cpu)@.cycles),
{
    ops::res_hl(cpu, 0xDF)
}

/// RES 5,A.
pub fn res_5_a(cpu: &mut CPU)
    requires
        old(cpu)@.ready(),
    ensures
        final(cpu)@ == old(cpu)@.res_r(0xDF, A as int),
        final(cpu)@.ready(),
        cost_ok(old(cpu)@.cycles, final(cpu)@.cycles),
{
    ops::res_r(cpu, 0xDF, A)
}

/// RES 6,B.
pub fn res_6_b(cpu: &mut CPU)
    requires
        old(cpu)@.ready(),
    ensures
        final(cpu)@ == old(cpu)@.res_r(0xBF, B as int),
        final(cpu)@.ready(),
        cost_ok(old(cpu)@.cycles, final(cpu)@.cycles),
{
    ops::res_r(cpu, 0xBF, B)
}

/// RES 6,C.
pub fn res_6_c(cpu: &mut CPU)
    requires
        old(cpu)@.ready(),
    ensures
        final(cpu)@ == old(cpu)@.res_r(0xBF, C as int),
        final(cpu)@.ready(),
        cost_ok(old(cpu)@.cycles, final(cpu)@.cycles),
{
    ops::res_r(cpu, 0xBF, C)
}

/// RES 6,D.
pub fn res_6_d(cpu: &mut CPU)
    requires
        old(cpu)@.ready(),
    ensures
        final(cpu)@ == old(cpu)@.res_r(0xBF, D as int),
        final(cpu)@.ready(),
        cost_ok(old(cpu)@.cycles, final(cpu)@.cycles),
{
    ops::res_r(cpu, 0xBF, D)
}

/// RES 6,E.
pub fn res_6_e(cpu: &mut CPU)
    requires
        old(cpu)@.ready(),
    ensures
        final(cpu)@ == old(cpu)@.res_r(0xBF, E as int),
        final(cpu)@.ready(),
        cost_ok(old(cpu)@.cycles, final(cpu)@.cycles),
{
    ops::res_r(cpu, 0xBF, E)
}

/// RES 6,H.
pub fn res_6_h(cpu: &mut CPU)
    requires
        old(cpu)@.ready(),
    ensures
        final(cpu)@ == old(cpu)@.res_r(0xBF, H as int),
        final(cpu)@.ready(),
        cost_ok(old(cpu)@.cycles, final(cpu)@.cycles),
{
    ops::res_r(cpu, 0xBF, H)
}

/// RES 6,L.
pub fn res_6_l(cpu: &mut CPU)
    requires
        old(cpu)@.ready(),
    ensures
        final(cpu)@ == old(cpu)@.res_r(0xBF, L as int),
        final(cpu)@.ready(),
        cost_ok(old(cpu)@.cycles, final(cpu)@.cycles),
{
    ops::res_r(cpu, 0xBF, L)
}

/// RES 6,(HL).
pub fn res_6_hlind(cpu: &mut CPU)
    requires
        old(cpu)@.ready(),
    ensures
        final(cpu)@ == old(cpu)@.res_hl(0xBF),
        final(cpu)@.ready(),
        cost_ok(old(cpu)@.cycles, final(cpu)@.cycles),
{
    ops::res_hl(cpu, 0xBF)
}

/// RES 6,A.
pub fn res_6_a(cpu: &mut CPU)
    requires
        old(cpu)@.ready(),
    ensures
        final(cpu)@ == old(cpu)@.res_r(0xBF, A as int),
        final(cpu)@.ready(),
        cost_ok(old(cpu)@.cycles, final(cpu)@.cycles),
{
    ops::res_r(cpu, 0xBF, A)
}

/// RES 7,B.
pub fn res_7_b(cpu: &mut CPU)
    requires
        old(cpu)@.ready(),
    ensures
        final(cpu)@ == old(cpu)@.res_r(0x7F, B as int),
        final(cpu)@.ready(),
        cost_ok(old(cpu)@.cycles, final(cpu)@.cycles),
{
    ops::res_r(cpu, 0x7F, B)
}

/// RES 7,C.
pub fn res_7_c(cpu: &mut CPU)
    requires
        old(cpu)@.ready(),
    ensures
        final(cpu)@ == old(cpu)@.res_r(0x7F, C as int),
        final(cpu)@.ready(),
        cost_ok(old(cpu)@.cycles, final(cpu)@.cycles),
{
    ops::res_r(cpu, 0x7F, C)
}

/// RES 7,D.
pub fn res_7_d(cpu: &mut CPU)
    requires
        old(cpu)@.ready(),
    ensures
        final(cpu)@ == old(cpu)@.res_r(0x7F, D as int),
        final(cpu)@.ready(),
        cost_ok(old(cpu)@.cycles, final(cpu)@.cycles),
{
    ops::res_r(cpu, 0x7F, D)
}

/// RES 7,E.
pub fn res_7_e(cpu: &mut CPU)
    requires
        old(cpu)@.ready(),
    ensures
        final(cpu)@ == old(cpu)@.res_r(0x7F, E as int),
        final(cpu)@.ready(),
        cost_ok(old(cpu)@.cycles, final(cpu)@.cycles),
{
    ops::res_r(cpu, 0x7F, E)
}

/// RES 7,H.
pub fn res_7_h(cpu: &mut CPU)
    requires
        old(cpu)@.ready(),
    ensures
        final(cpu)@ == old(cpu)@.res_r(0x7F, H as int),
        final(cpu)@.ready(),
        cost_ok(old(cpu)@.cycles, final(cpu)@.cycles),
{
    ops::res_r(cpu, 0x7F, H)
}

/// RES 7,L.
pub fn res_7_l(cpu: &mut CPU)
    requires
        old(cpu)@.ready(),
    ensures
        final(cpu)@ == old(cpu)@.res_r(0x7F, L as int),
        final(cpu)@.ready(),
        cost_ok(old(cpu)@.cycles, final(cpu)@.cycles),
{
    ops::res_r(cpu, 0x7F, L)
}

/// RES 7,(HL).
pub fn res_7_hlind(cpu: &mut CPU)
    requires
        old(cpu)@.ready(),
    ensures
        final(cpu)@ == old(cpu)@.res_hl(0x7F),
        final(cpu)@.ready(),
        cost_ok(old(cpu)@.cycles, final(cpu)@.cycles),
{
    ops::res_hl(cpu, 0x7F)
}

/// RES 7,A.
pub fn res_7_a(cpu: &mut CPU)
    requires
        old(cpu)@.ready(),
    ensures
        final(cpu)@ == old(cpu)@.res_r(0x7F, A as int),
        final(cpu)@.ready(),
        cost_ok(old(cpu)@.cycles, final(cpu)@.cycles),
{
    ops::res_r(cpu, 0x7F, A)
}

/// SET 0,B.
pub fn set_0_b(cpu: &mut CPU)
    requires
        old(cpu)@.ready(),
    ensures
        final(cpu)@ == old(cpu)@.set_r(0x01, B as int),
        final(cpu)@.ready(),
        cost_ok(old(cpu)@.cycles, final(cpu)@.cycles),
{
    ops::set_r(cpu, 0x01, B)
}

/// SET 0,C.
pub fn set_0_c(cpu: &mut CPU)
    requires
        old(cpu)@.ready(),
    ensures
        final(cpu)@ == old(cpu)@.set_r(0x01, C as int),
        final(cpu)@.ready(),
        cost_ok(old(cpu)@.cycles, final(cpu)@.cycles),
{
    ops::set_r(cpu, 0x01, C)
}

/// SET 0,D.
pub fn set_0_d(cpu: &mut CPU)
    requires
        old(cpu)@.ready(),
    ensures
        final(cpu)@ == old(cpu)@.set_r(0x01, D as int),
        final(cpu)@.ready(),
        cost_ok(old(cpu)@.cycles, final(cpu)@.cycles),
{
    ops::set_r(cpu, 0x01, D)
}

/// SET 0,E.
pub fn set_0_e(cpu: &mut CPU)
    requires
        old(cpu)@.ready(),
    ensures
        final(cpu)@ == old(cpu)@.set_r(0x01, E as int),
        final(cpu)@.ready(),
        cost_ok(old(cpu)@.cycles, final(cpu)@.cycles),
{
    ops::set_r(cpu, 0x01, E)
}

/// SET 0,H.
pub fn set_0_h(cpu: &mut CPU)
    requires
        old(cpu)@.ready(),
    ensures
        final(cpu)@ == old(cpu)@.set_r(0x01, H as int),
        final(cpu)@.ready(),
        cost_ok(old(cpu)@.cycles, final(cpu)@.cycles),
{
    ops::set_r(cpu, 0x01, H)
}

/// SET 0,L.
pub fn set_0_l(cpu: &mut CPU)
    requires
        old(cpu)@.ready(),
    ensures
        final(cpu)@ == old(cpu)@.set_r(0x01, L as int),
        final(cpu)@.ready(),
        cost_ok(old(cpu)@.cycles, final(cpu)@.cycles),
{
    ops::set_r(cpu, 0x01, L)
}

/// SET 0,(HL).
pub fn set_0_hlind(cpu: &mut CPU)
    requires
        old(cpu)@.ready(),
    ensures
        final(cpu)@ == old(cpu)@.set_hl(0x01),
        final(cpu)@.ready(),
        cost_ok(old(cpu)@.cycles, final(cpu)@.cycles),
{
    ops::set_hl(cpu, 0x01)
}

/// SET 0,A.
pub fn set_0_a(cpu: &mut CPU)
    requires
        old(cpu)@.ready(),
    ensures
        final(cpu)@ == old(cpu)@.set_r(0x01, A as int),
        final(cpu)@.ready(),
        cost_ok(old(cpu)@.cycles, final(cpu)@.cycles),
{
    ops::set_r(cpu, 0x01, A)
}

/// SET 1,B.
pub fn set_1_b(cpu: &mut CPU)
    requires
        old(cpu)@.ready(),
    ensures
        final(cpu)@ == old(cpu)@.set_r(0x02, B as int),
        final(cpu)@.ready(),
        cost_ok(old(cpu)@.cycles, final(cpu)@.cycles),
{
    ops::set_r(cpu, 0x02, B)
}

/// SET 1,C.
pub fn set_1_c(cpu: &mut CPU)
    requires
        old(cpu)@.ready(),
    ensures
        final(cpu)@ == old(cpu)@.set_r(0x02, C as int),
        final(cpu)@.ready(),
        cost_ok(old(cpu)@.cycles, final(cpu)@.cycles),
{
    ops::set_r(cpu, 0x02, C)
}

/// SET 1,D.
pub fn set_1_d(cpu: &mut CPU)
    requires
        old(cpu)@.ready(),
    ensures
        final(cpu)@ == old(cpu)@.set_r(0x02, D as int),
        final(cpu)@.ready(),
        cost_ok(old(cpu)@.cycles, final(cpu)@.cycles),
{
    ops::set_r(cpu, 0x02, D)
}

/// SET 1,E.
pub fn set_1_e(cpu: &mut CPU)
    requires
        old(cpu)@.ready(),
    ensures
        final(cpu)@ == old(cpu)@.set_r(0x02, E as int),
        final(cpu)@.ready(),
        cost_ok(old(cpu)@.cycles, final(cpu)@.cycles),
{
    ops::set_r(cpu, 0x02, E)
}

/// SET 1,H.
pub fn set_1_h(cpu: &mut CPU)
    requires
        old(cpu)@.ready(),
    ensures
        final(cpu)@ == old(cpu)@.set_r(0x02, H as int),
        final(cpu)@.ready(),
        cost_ok(old(cpu)@.cycles, final(cpu)@.cycles),
{
    ops::set_r(cpu, 0x02, H)
}

/// SET 1,L.
pub fn set_1_l(cpu: &mut CPU)
    requires
        old(cpu)@.ready(),
    ensures
        final(cpu)@ == old(cpu)@.set_r(0x02, L as int),
        final(cpu)@.ready(),
        cost_ok(old(cpu)@.cycles, final(cpu)@.cycles),
{
    ops::set_r(cpu, 0x02, L)
}

/// SET 1,(HL).
pub fn set_1_hlind(cpu: &mut CPU)
    requires
        old(cpu)@.ready(),
    ensures
        final(cpu)@ == old(cpu)@.set_hl(0x02),
        final(cpu)@.ready(),
        cost_ok(old(cpu)@.cycles, final(cpu)@.cycles),
{
    ops::set_hl(cpu, 0x02)
}

/// SET 1,A.
pub fn set_1_a(cpu: &mut CPU)
    requires
        old(cpu)@.ready(),
    ensures
        final(cpu)@ == old(cpu)@.set_r(0x02, A as int),
        final(cpu)@.ready(),
        cost_ok(old(cpu)@.cycles, final(cpu)@.cycles),
{
    ops::set_r(cpu, 0x02, A)
}

/// SET 2,B.
pub fn set_2_b(cpu: &mut CPU)
    requires
        old(cpu)@.ready(),
    ensures
        final(cpu)@ == old(cpu)@.set_r(0x04, B as int),
        final(cpu)@.ready(),
        cost_ok(old(cpu)@.cycles, final(cpu)@.cycles),
{
    ops::set_r(cpu, 0x04, B)
}

/// SET 2,C.
pub fn set_2_c(cpu: &mut CPU)
    requires
        old(cpu)@.ready(),
    ensures
        final(cpu)@ == old(cpu)@.set_r(0x04, C as int),
        final(cpu)@.ready(),
        cost_ok(old(cpu)@.cycles, final(cpu)@.cycles),
{
    ops::set_r(cpu, 0x04, C)
}

/// SET 2,D.
pub fn set_2_d(cpu: &mut CPU)
    requires
        old(cpu)@.ready(),
    ensures
        final(cpu)@ == old(cpu)@.set_r(0x04, D as int),
        final(cpu)@.ready(),
        cost_ok(old(cpu)@.cycles, final(cpu)@.cycles),
{
    ops::set_r(cpu, 0x04, D)
}

/// SET 2,E.
pub fn set_2_e(cpu: &mut CPU)
    requires
        old(cpu)@.ready(),
    ensures
        final(cpu)@ == old(cpu)@.set_r(0x04, E as int),
        final(cpu)@.ready(),
        cost_ok(old(cpu)@.cycles, final(cpu)@.cycles),
{
    ops::set_r(cpu, 0x04, E)
}

/// SET 2,H.
pub fn set_2_h(cpu: &mut CPU)
    requires
        old(cpu)@.ready(),
    ensures
        final(cpu)@ == old(cpu)@.set_r(0x04, H as int),
        final(cpu)@.ready(),
        cost_ok(old(cpu)@.cycles, final(cpu)@.cycles),
{
    ops::set_r(cpu, 0x04, H)
}

/// SET 2,L.
pub fn set_2_l(cpu: &mut CPU)
    requires
        old(cpu)@.ready(),
    ensures
        final(cpu)@ == old(cpu)@.set_r(0x04, L as int),
        final(cpu)@.ready(),
        cost_ok(old(cpu)@.cycles, final(cpu)@.cycles),
{
    ops::set_r(cpu, 0x04, L)
}

/// SET 2,(HL).
pub fn set_2_hlind(cpu: &mut CPU)
    requires
        old(cpu)@.ready(),
    ensures
        final(cpu)@ == old(cpu)@.set_hl(0x04),
        final(cpu)@.ready(),
        cost_ok(old(cpu)@.cycles, final(cpu)@.cycles),
{
    ops::set_hl(cpu, 0x04)
}

/// SET 2,A.
pub fn set_2_a(cpu: &mut CPU)
    requires
        old(cpu)@.ready(),
    ensures
        final(cpu)@ == old(cpu)@.set_r(0x04, A as int),
        final(cpu)@.ready(),
        cost_ok(old(cpu)@.cycles, final(cpu)@.cycles),
{
    ops::set_r(cpu, 0x04, A)
}

/// SET 3,B.
pub fn set_3_b(cpu: &mut CPU)
    requires
        old(cpu)@.ready(),
    ensures
        final(cpu)@ == old(cpu)@.set_r(0x08, B as int),
        final(cpu)@.ready(),
        cost_ok(old(cpu)@.cycles, final(cpu)@.cycles),
{
    ops::set_r(cpu, 0x08, B)
}

/// SET 3,C.
pub fn set_3_c(cpu: &mut CPU)
    requires
        old(cpu)@.ready(),
    ensures
        final(cpu)@ == old(cpu)@.set_r(0x08, C as int),
        final(cpu)@.ready(),
        cost_ok(old(cpu)@.cycles, final(cpu)@.cycles),
{
    ops::set_r(cpu, 0x08, C)
}

/// SET 3,D.
pub fn set_3_d(cpu: &mut CPU)
    requires
        old(cpu)@.ready(),
    ensures
        final(cpu)@ == old(cpu)@.set_r(0x08, D as int),
        final(cpu)@.ready(),
        cost_ok(old(cpu)@.cycles, final(cpu)@.cycles),
{
    ops::set_r(cpu, 0x08, D)
}

/// SET 3,E.
pub fn set_3_e(cpu: &mut CPU)
    requires
        old(cpu)@.ready(),
    ensures
        final(cpu)@ == old(cpu)@.set_r(0x08, E as int),
        final(cpu)@.ready(),
        cost_ok(old(cpu)@.cycles, final(cpu)@.cycles),
{
    ops::set_r(cpu, 0x08, E)
}

/// SET 3,H.
pub fn set_3_h(cpu: &mut CPU)
    requires
        old(cpu)@.ready(),
    ensures
        final(cpu)@ == old(cpu)@.set_r(0x08, H as int),
        final(cpu)@.ready(),
        cost_ok(old(cpu)@.cycles, final(cpu)@.cycles),
{
    ops::set_r(cpu, 0x08, H)
}

/// SET 3,L.
pub fn set_3_l(cpu: &mut CPU)
    requires
        old(cpu)@.ready(),
    ensures
        final(cpu)@ == old(cpu)@.set_r(0x08, L as int),
        final(cpu)@.ready(),
        cost_ok(old(cpu)@.cycles, final(cpu)@.cycles),
{
    ops::set_r(cpu, 0x08, L)
}

/// SET 3,(HL).
pub fn set_3_hlind(cpu: &mut CPU)
    requires
        old(cpu)@.ready(),
    ensures
        final(cpu)@ == old(cpu)@.set_hl(0x08),
        final(cpu)@.ready(),
        cost_ok(old(cpu)@.cycles, final(cpu)@.cycles),
{
    ops::set_hl(cpu, 0x08)
}

/// SET 3,A.
pub fn set_3_a(cpu: &mut CPU)
    requires
        old(cpu)@.ready(),
    ensures
        final(cpu)@ == old(cpu)@.set_r(0x08, A as int),
        final(cpu)@.ready(),
        cost_ok(old(cpu)@.cycles, final(cpu)@.cycles),
{
    ops::set_r(cpu, 0x08, A)
}

/// SET 4,B.
pub fn set_4_b(cpu: &mut CPU)
    requires
        old(cpu)@.ready(),
    ensures
        final(cpu)@ == old(cpu)@.set_r(0x10, B as int),
        final(cpu)@.ready(),
        cost_ok(old(cpu)@.cycles, final(cpu)@.cycles),
{
    ops::set_r(cpu, 0x10, B)
}

/// SET 4,C.
pub fn set_4_c(cpu: &mut CPU)
    requires
        old(cpu)@.ready(),
    ensures
        final(cpu)@ == old(cpu)@.set_r(0x10, C as int),
        final(cpu)@.ready(),
        cost_ok(old(cpu)@.cycles, final(cpu)@.cycles),
{
    ops::set_r(cpu, 0x10, C)
}

/// SET 4,D.
pub fn set_4_d(cpu: &mut CPU)
    requires
        old(cpu)@.ready(),
    ensures
        final(cpu)@ == old(cpu)@.set_r(0x10, D as int),
        final(cpu)@.ready(),
        cost_ok(old(cpu)@.cycles, final(cpu)@.cycles),
{
    ops::set_r(cpu, 0x10, D)
}

/// SET 4,E.
pub fn set_4_e(cpu: &mut CPU)
    requires
        old(cpu)@.ready(),
    ensures
        final(cpu)@ == old(cpu)@.set_r(0x10, E as int),
        final(cpu)@.ready(),
        cost_ok(old(cpu)@.cycles, final(cpu)@.cycles),
{
    ops::set_r(cpu, 0x10, E)
}

/// SET 4,H.
pub fn set_4_h(cpu: &mut CPU)
    requires
        old(cpu)@.ready(),
    ensures
        final(cpu)@ == old(cpu)@.set_r(0x10, H as int),
        final(cpu)@.ready(),
        cost_ok(old(cpu)@.cycles, final(cpu)@.cycles),
{
    ops::set_r(cpu, 0x10, H)
}

/// SET 4,L.
pub fn set_4_l(cpu: &mut CPU)
    requires
        old(cpu)@.ready(),
    ensures
        final(cpu)@ == old(cpu)@.set_r(0x10, L as int),
        final(cpu)@.ready(),
        cost_ok(old(cpu)@.cycles, final(cpu)@.cycles),
{
    ops::set_r(cpu, 0x10, L)
}

/// SET 4,(HL).
pub fn set_4_hlind(cpu: &mut CPU)
    requires
        old(cpu)@.ready(),
    ensures
        final(cpu)@ == old(cpu)@.set_hl(0x10),
        final(cpu)@.ready(),
        cost_ok(old(cpu)@.cycles, final(cpu)@.cycles),
{
    ops::set_hl(cpu, 0x10)
}

/// SET 4,A.
pub fn set_4_a(cpu: &mut CPU)
    requires
        old(cpu)@.ready(),
    ensures
        final(cpu)@ == old(cpu)@.set_r(0x10, A as int),
        final(cpu)@.ready(),
        cost_ok(old(cpu)@.cycles, final(cpu)@.cycles),
{
    ops::set_r(cpu, 0x10, A)
}

/// SET 5,B.
pub fn set_5_b(cpu: &mut CPU)
    requires
        old(cpu)@.ready(),
    ensures
        final(cpu)@ == old(cpu)@.set_r(0x20, B as int),
        final(cpu)@.ready(),
        cost_ok(old(cpu)@.cycles, final(cpu)@.cycles),
{
    ops::set_r(cpu, 0x20, B)
}

/// SET 5,C.
pub fn set_5_c(cpu: &mut CPU)
    requires
        old(cpu)@.ready(),
    ensures
        final(cpu)@ == old(cpu)@.set_r(0x20, C as int),
        final(cpu)@.ready(),
        cost_ok(old(cpu)@.cycles, final(cpu)@.cycles),
{
    ops::set_r(cpu, 0x20, C)
}

/// SET 5,D.
pub fn set_5_d(cpu: &mut CPU)
    requires
        old(cpu)@.ready(),
    ensures
        final(cpu)@ == old(cpu)@.set_r(0x20, D as int),
        final(cpu)@.ready(),
        cost_ok(old(cpu)@.cycles, final(cpu)@.cycles),
{
    ops::set_r(cpu, 0x20, D)
}

/// SET 5,E.
pub fn set_5_e(cpu: &mut CPU)
    requires
        old(cpu)@.ready(),
    ensures
        final(cpu)@ == old(cpu)@.set_r(0x20, E as int),
        final(cpu)@.ready(),
        cost_ok(old(cpu)@.cycles, final(cpu)@.cycles),
{
    ops::set_r(cpu, 0x20, E)
}

/// SET 5,H.
pub fn set_5_h(cpu: &mut CPU)
    requires
        old(cpu)@.ready(),
    ensures
        final(cpu)@ == old(cpu)@.set_r(0x20, H as int),
        final(cpu)@.ready(),
        cost_ok(old(cpu)@.cycles, final(cpu)@.cycles),
{
    ops::set_r(cpu, 0x20, H)
}

/// SET 5,L.
pub fn set_5_l(cpu: &mut CPU)
    requires
        old(cpu)@.ready(),
    ensures
        final(cpu)@ == old(cpu)@.set_r(0x20, L as int),
        final(cpu)@.ready(),
        cost_ok(old(cpu)@.cycles, final(cpu)@.cycles),
{
    ops::set_r(cpu, 0x20, L)
}

/// SET 5,(HL).
pub fn set_5_hlind(cpu: &mut CPU)
    requires
        old(cpu)@.ready(),
    ensures
        final(cpu)@ == old(cpu)@.set_hl(0x20),
        final(cpu)@.ready(),
        cost_ok(old(cpu)@.cycles, final(cpu)@.cycles),
{
    ops::set_hl(cpu, 0x20)
}

/// SET 5,A.
pub fn set_5_a(cpu: &mut CPU)
    requires
        old(cpu)@.ready(),
    ensures
        final(cpu)@ == old(cpu)@.set_r(0x20, A as int),
        final(cpu)@.ready(),
        cost_ok(old(cpu)@.cycles, final(cpu)@.cycles),
{
    ops::set_r(cpu, 0x20, A)
}

/// SET 6,B.
pub fn set_6_b(cpu: &mut CPU)
    requires
        old(cpu)@.ready(),
    ensures
        final(cpu)@ == old(cpu)@.set_r(0x40, B as int),
        final(cpu)@.ready(),
        cost_ok(old(cpu)@.cycles, final(cpu)@.cycles),
{
    ops::set_r(cpu, 0x40, B)
}

/// SET 6,C.
pub fn set_6_c(cpu: &mut CPU)
    requires
        old(cpu)@.ready(),
    ensures
        final(cpu)@ == old(cpu)@.set_r(0x40, C as int),
        final(cpu)@.ready(),
        cost_ok(old(cpu)@.cycles, final(cpu)@.cycles),
{
    ops::set_r(cpu, 0x40, C)
}

/// SET 6,D.
pub fn set_6_d(cpu: &mut CPU)
    requires
        old(cpu)@.ready(),
    ensures
        final(cpu)@ == old(cpu)@.set_r(0x40, D as int),
        final(cpu)@.ready(),
        cost_ok(old(cpu)@.cycles, final(cpu)@.cycles),
{
    ops::set_r(cpu, 0x40, D)
}

/// SET 6,E.
pub fn set_6_e(cpu: &mut CPU)
    requires
        old(cpu)@.ready(),
    ensures
        final(cpu)@ == old(cpu)@.set_r(0x40, E as int),
        final(cpu)@.ready(),
        cost_ok(old(cpu)@.cycles, final(cpu)@.cycles),
{
    ops::set_r(cpu, 0x40, E)
}

/// SET 6,H.
pub fn set_6_h(cpu: &mut CPU)
    requires
        old(cpu)@.ready(),
    ensures
        final(cpu)@ == old(cpu)@.set_r(0x40, H as int),
        final(cpu)@.ready(),
        cost_ok(old(cpu)@.cycles, final(cpu)@.cycles),
{
    ops::set_r(cpu, 0x40, H)
}

/// SET 6,L.
pub fn set_6_l(cpu: &mut CPU)
    requires
        old(cpu)@.ready(),
    ensures
        final(cpu)@ == old(cpu)@.set_r(0x40, L as int),
        final(cpu)@.ready(),
        cost_ok(old(cpu)@.cycles, final(cpu)@.cycles),
{
    ops::set_r(cpu, 0x40, L)
}

/// SET 6,(HL).
pub fn set_6_hlind(cpu: &mut CPU)
    requires
        old(cpu)@.ready(),
    ensures
        final(cpu)@ == old(cpu)@.set_hl(0x40),
        final(cpu)@.ready(),
        cost_ok(old(cpu)@.cycles, final(cpu)@.cycles),
{
    ops::set_hl(cpu, 0x40)
}

/// SET 6,A.
pub fn set_6_a(cpu: &mut CPU)
    requires
        old(cpu)@.ready(),
    ensures
        final(cpu)@ == old(cpu)@.set_r(0x40, A as int),
        final(cpu)@.ready(),
        cost_ok(old(cpu)@.cycles, final(cpu)@.cycles),
{
    ops::set_r(cpu, 0x40, A)
}

/// SET 7,B.
pub fn set_7_b(cpu: &mut CPU)
    requires
        old(cpu)@.ready(),
    ensures
        final(cpu)@ == old(cpu)@.set_r(0x80, B as int),
        final(cpu)@.ready(),
        cost_ok(old(cpu)@.cycles, final(cpu)@.cycles),
{
    ops::set_r(cpu, 0x80, B)
}

/// SET 7,C.
pub fn set_7_c(cpu: &mut CPU)
    requires
        old(cpu)@.ready(),
    ensures
        final(cpu)@ == old(cpu)@.set_r(0x80, C as int),
        final(cpu)@.ready(),
        cost_ok(old(cpu)@.cycles, final(cpu)@.cycles),
{
    ops::set_r(cpu, 0x80, C)
}

/// SET 7,D.
pub fn set_7_d(cpu: &mut CPU)
    requires
        old(cpu)@.ready(),
    ensures
        final(cpu)@ == old(cpu)@.set_r(0x80, D as int),
        final(cpu)@.ready(),
        cost_ok(old(cpu)@.cycles, final(cpu)@.cycles),
{
    ops::set_r(cpu, 0x80, D)
}

/// SET 7,E.
pub fn set_7_e(cpu: &mut CPU)
    requires
        old(cpu)@.ready(),
    ensures
        final(cpu)@ == old(cpu)@.set_r(0x80, E as int),
        final(cpu)@.ready(),
        cost_ok(old(cpu)@.cycles, final(cpu)@.cycles),
{
    ops::set_r(cpu, 0x80, E)
}

/// SET 7,H.
pub fn set_7_h(cpu: &mut CPU)
    requires
        old(cpu)@.ready(),
    ensures
        final(cpu)@ == old(cpu)@.set_r(0x80, H as int),
        final(cpu)@.ready(),
        cost_ok(old(cpu)@.cycles, final(cpu)@.cycles),
{
    ops::set_r(cpu, 0x80, H)
}

/// SET 7,L.
pub fn set_7_l(cpu: &mut CPU)
    requires
        old(cpu)@.ready(),
    ensures
        final(cpu)@ == old(cpu)@.set_r(0x80, L as int),
        final(cpu)@.ready(),
        cost_ok(old(cpu)@.cycles, final(cpu)@.cycles),
{
    ops::set_r(cpu, 0x80, L)
}

/// SET 7,(HL).
pub fn set_7_hlind(cpu: &mut CPU)
    requires
        old(cpu)@.ready(),
    ensures
        final(cpu)@ == old(cpu)@.set_hl(0x80),
        final(cpu)@.ready(),
        cost_ok(old(cpu)@.cycles, final(cpu)@.cycles),
{
    ops::set_hl(cpu, 0x80)
}

/// SET 7,A.
pub fn set_7_a(cpu: &mut CPU)
    requires
        old(cpu)@.ready(),
    ensures
        final(cpu)@ == old(cpu)@.set_r(0x80, A as int),
        final(cpu)@.ready(),
        cost_ok(old(cpu)@.cycles, final(cpu)@.cycles),
{
    ops::set_r(cpu, 0x80, A)
}

} // verus!
