use gameboy::bus::Bus;
use gameboy::cpu::{A, B, C, CPU, D, E, F, H, L};
use gameboy::inst_set;
use gameboy::mbc::{Cartridge, MBC0};

/// A CPU without the boot program, with `program` at 0x0100 of a flat
/// cartridge, PC there and SP at the top of high RAM.
fn cpu_with(program: &[u8]) -> CPU {
    let mut rom = vec![0u8; 0x8000];
    for (i, b) in program.iter().enumerate() {
        rom[0x100 + i] = *b;
    }
    let mut bus = Bus::new().set_enable_boot_rom(false);
    bus.set_rom(Some(Cartridge::NoBanking(MBC0::new(rom))));
    let mut cpu = CPU::new(bus);
    cpu.pc = 0x100;
    cpu.sp = 0xFFFE;
    cpu
}

fn flags(cpu: &CPU) -> (bool, bool, bool, bool) {
    let f = cpu.registers[F];
    (f & 0x80 != 0, f & 0x40 != 0, f & 0x20 != 0, f & 0x10 != 0)
}

#[test]
fn add_sets_all_carries_and_zero() {
    let mut cpu = cpu_with(&[]);
    cpu.registers[A] = 0x3A;
    cpu.registers[B] = 0xC6;
    inst_set::add_a_b(&mut cpu);
    assert_eq!(cpu.registers[A], 0x00);
    assert_eq!(flags(&cpu), (true, false, true, true));
    assert_eq!(cpu.cycles, 4);
}

#[test]
fn add_half_carry_only() {
    let mut cpu = cpu_with(&[]);
    cpu.registers[A] = 0x0F;
    cpu.registers[C] = 0x01;
    inst_set::add_a_c(&mut cpu);
    assert_eq!(cpu.registers[A], 0x10);
    assert_eq!(flags(&cpu), (false, false, true, false));
}

#[test]
fn add_flags_match_the_formulas_for_all_operands() {
    for a in 0..=255u16 {
        for b in (0..=255u16).step_by(7) {
            let mut cpu = cpu_with(&[]);
            cpu.registers[F] = 0x40;
            cpu.registers[A] = a as u8;
            cpu.registers[D] = b as u8;
            inst_set::add_a_d(&mut cpu);
            let (z, n, h, c) = flags(&cpu);
            assert_eq!(cpu.registers[A] as u16, (a + b) % 256);
            assert_eq!(c, a + b > 255);
            assert_eq!(h, (a & 0xF) + (b & 0xF) > 0xF);
            assert_eq!(z, (a + b) % 256 == 0);
            assert!(!n);
        }
    }
}

#[test]
fn adc_adds_the_carry() {
    let mut cpu = cpu_with(&[0x0F]);
    cpu.registers[A] = 0xE1;
    cpu.registers[F] = 0x10;
    inst_set::adc_a_u8(&mut cpu);
    assert_eq!(cpu.registers[A], 0xF1);
    assert_eq!(flags(&cpu), (false, false, true, false));
    assert_eq!(cpu.pc, 0x101);
}

#[test]
fn sub_and_cp_borrow() {
    let mut cpu = cpu_with(&[]);
    cpu.registers[A] = 0x3E;
    cpu.registers[E] = 0x3F;
    inst_set::cp_a_e(&mut cpu);
    assert_eq!(cpu.registers[A], 0x3E);
    assert_eq!(flags(&cpu), (false, true, true, true));
    inst_set::sub_a_e(&mut cpu);
    assert_eq!(cpu.registers[A], 0xFF);
    inst_set::sub_a_a(&mut cpu);
    assert_eq!(cpu.registers[A], 0x00);
    assert_eq!(flags(&cpu), (true, true, false, false));
}

#[test]
fn sbc_subtracts_the_carry() {
    let mut cpu = cpu_with(&[]);
    cpu.registers[A] = 0x3B;
    cpu.registers[H] = 0x2A;
    cpu.registers[F] = 0x10;
    inst_set::sbc_a_h(&mut cpu);
    assert_eq!(cpu.registers[A], 0x10);
    assert_eq!(flags(&cpu), (false, true, false, false));
}

#[test]
fn logic_ops_set_their_flags() {
    let mut cpu = cpu_with(&[]);
    cpu.registers[A] = 0x5A;
    cpu.registers[L] = 0x3F;
    inst_set::and_a_l(&mut cpu);
    assert_eq!(cpu.registers[A], 0x1A);
    assert_eq!(flags(&cpu), (false, false, true, false));
    inst_set::xor_a_a(&mut cpu);
    assert_eq!(cpu.registers[A], 0x00);
    assert_eq!(flags(&cpu), (true, false, false, false));
    cpu.registers[B] = 0x81;
    inst_set::or_a_b(&mut cpu);
    assert_eq!(cpu.registers[A], 0x81);
    assert_eq!(flags(&cpu), (false, false, false, false));
}

#[test]
fn inc_dec_keep_carry() {
    let mut cpu = cpu_with(&[]);
    cpu.registers[F] = 0x10;
    cpu.registers[B] = 0xFF;
    inst_set::inc_b(&mut cpu);
    assert_eq!(cpu.registers[B], 0x00);
    assert_eq!(flags(&cpu), (true, false, true, true));
    inst_set::dec_b(&mut cpu);
    assert_eq!(cpu.registers[B], 0xFF);
    assert_eq!(flags(&cpu), (false, true, true, true));
}

#[test]
fn pair_inc_dec_and_add_hl() {
    let mut cpu = cpu_with(&[]);
    cpu.registers[B] = 0xFF;
    cpu.registers[C] = 0xFF;
    inst_set::inc_bc(&mut cpu);
    assert_eq!((cpu.registers[B], cpu.registers[C]), (0, 0));
    inst_set::dec_bc(&mut cpu);
    assert_eq!((cpu.registers[B], cpu.registers[C]), (0xFF, 0xFF));
    cpu.registers[H] = 0x8A;
    cpu.registers[L] = 0x23;
    cpu.registers[D] = 0x06;
    cpu.registers[E] = 0x05;
    inst_set::add_hl_de(&mut cpu);
    assert_eq!((cpu.registers[H], cpu.registers[L]), (0x90, 0x28));
    assert_eq!(flags(&cpu), (false, false, true, false));
    inst_set::add_hl_hl(&mut cpu);
    assert_eq!((cpu.registers[H], cpu.registers[L]), (0x20, 0x50));
    assert_eq!(flags(&cpu), (false, false, false, true));
}

#[test]
fn loads_between_registers_and_memory() {
    let mut cpu = cpu_with(&[0x42, 0x00, 0xC0]);
    inst_set::ld_a_u8(&mut cpu);
    assert_eq!(cpu.registers[A], 0x42);
    inst_set::ld_hl_u16(&mut cpu);
    assert_eq!((cpu.registers[H], cpu.registers[L]), (0xC0, 0x00));
    inst_set::ld_hlindinc_a(&mut cpu);
    assert_eq!(cpu.bus.read(0xC000), 0x42);
    assert_eq!((cpu.registers[H], cpu.registers[L]), (0xC0, 0x01));
    inst_set::ld_hlinddec_a(&mut cpu);
    assert_eq!(cpu.bus.read(0xC001), 0x42);
    assert_eq!((cpu.registers[H], cpu.registers[L]), (0xC0, 0x00));
    inst_set::ld_b_hlind(&mut cpu);
    assert_eq!(cpu.registers[B], 0x42);
    inst_set::ld_c_b(&mut cpu);
    assert_eq!(cpu.registers[C], 0x42);
    assert_eq!(cpu.pc, 0x103);
}

#[test]
fn high_page_loads() {
    let mut cpu = cpu_with(&[0x80, 0x80]);
    cpu.registers[A] = 0x99;
    inst_set::ld_ff00u8_a(&mut cpu);
    assert_eq!(cpu.bus.read(0xFF80), 0x99);
    cpu.registers[A] = 0;
    inst_set::ld_a_ff00u8(&mut cpu);
    assert_eq!(cpu.registers[A], 0x99);
    cpu.registers[C] = 0x81;
    inst_set::ld_ff00c_a(&mut cpu);
    assert_eq!(cpu.bus.read(0xFF81), 0x99);
}

#[test]
fn push_pop_and_pop_af_masks_f() {
    let mut cpu = cpu_with(&[]);
    cpu.registers[D] = 0x12;
    cpu.registers[E] = 0x3F;
    inst_set::push_de(&mut cpu);
    assert_eq!(cpu.sp, 0xFFFC);
    assert_eq!(cpu.bus.read(0xFFFD), 0x12);
    assert_eq!(cpu.bus.read(0xFFFC), 0x3F);
    inst_set::pop_af(&mut cpu);
    assert_eq!(cpu.registers[A], 0x12);
    assert_eq!(cpu.registers[F], 0x30);
    assert_eq!(cpu.sp, 0xFFFE);
}

#[test]
fn call_and_ret() {
    let mut cpu = cpu_with(&[0x34, 0x12]);
    inst_set::call_u16(&mut cpu);
    assert_eq!(cpu.pc, 0x1234);
    assert_eq!(cpu.sp, 0xFFFC);
    assert_eq!(cpu.cycles, 24);
    inst_set::ret(&mut cpu);
    assert_eq!(cpu.pc, 0x102);
    assert_eq!(cpu.sp, 0xFFFE);
}

#[test]
fn rst_pushes_return_address() {
    let mut cpu = cpu_with(&[]);
    inst_set::rst_0x38(&mut cpu);
    assert_eq!(cpu.pc, 0x38);
    assert_eq!(cpu.bus.read(0xFFFD), 0x01);
    assert_eq!(cpu.bus.read(0xFFFC), 0x00);
}

#[test]
fn relative_jumps_sign_extend() {
    let mut cpu = cpu_with(&[0xFE]);
    inst_set::jr_i8(&mut cpu);
    assert_eq!(cpu.pc, 0xFF);
    cpu.registers[F] = 0x80;
    inst_set::jr_nz_i8(&mut cpu);
    assert_eq!(cpu.pc, 0x100);
    assert_eq!(cpu.cycles, 20);
}

#[test]
fn jump_taken_and_jp_hl() {
    let mut cpu = cpu_with(&[0x00, 0x20]);
    cpu.registers[F] = 0x10;
    inst_set::jp_c_u16(&mut cpu);
    assert_eq!(cpu.pc, 0x2000);
    cpu.registers[H] = 0x12;
    cpu.registers[L] = 0x34;
    inst_set::jp_hl(&mut cpu);
    assert_eq!(cpu.pc, 0x1234);
}

#[test]
fn conditional_jp_not_taken_skips_operand() {
    let mut cpu = cpu_with(&[0x00, 0x20]);
    inst_set::jp_c_u16(&mut cpu);
    assert_eq!(cpu.pc, 0x102);
    assert_eq!(cpu.cycles, 12);
}

#[test]
fn stack_pointer_offsets() {
    let mut cpu = cpu_with(&[0xFF, 0x02]);
    cpu.sp = 0x0001;
    inst_set::add_sp_i8(&mut cpu);
    assert_eq!(cpu.sp, 0x0000);
    assert_eq!(flags(&cpu), (false, false, true, true));
    inst_set::ld_hl_sp_i8(&mut cpu);
    assert_eq!((cpu.registers[H], cpu.registers[L]), (0x00, 0x02));
}

#[test]
fn rotates_through_carry() {
    let mut cpu = cpu_with(&[]);
    cpu.registers[A] = 0x85;
    inst_set::rlca(&mut cpu);
    assert_eq!(cpu.registers[A], 0x0B);
    assert_eq!(flags(&cpu), (false, false, false, true));
    inst_set::rra(&mut cpu);
    assert_eq!(cpu.registers[A], 0x85);
    assert_eq!(flags(&cpu), (false, false, false, true));
}

#[test]
fn extended_shift_ops() {
    let mut cpu = cpu_with(&[]);
    cpu.registers[B] = 0x80;
    inst_set::sla_b(&mut cpu);
    assert_eq!(cpu.registers[B], 0x00);
    assert_eq!(flags(&cpu), (true, false, false, true));
    cpu.registers[C] = 0x81;
    inst_set::sra_c(&mut cpu);
    assert_eq!(cpu.registers[C], 0xC0);
    cpu.registers[D] = 0xF1;
    inst_set::swap_d(&mut cpu);
    assert_eq!(cpu.registers[D], 0x1F);
    inst_set::srl_d(&mut cpu);
    assert_eq!(cpu.registers[D], 0x0F);
    assert_eq!(flags(&cpu), (false, false, false, true));
}

#[test]
fn bit_res_set() {
    let mut cpu = cpu_with(&[]);
    cpu.registers[E] = 0x80;
    inst_set::bit_7_e(&mut cpu);
    assert!(!flags(&cpu).0);
    inst_set::bit_6_e(&mut cpu);
    assert!(flags(&cpu).0);
    inst_set::res_7_e(&mut cpu);
    assert_eq!(cpu.registers[E], 0x00);
    inst_set::set_3_e(&mut cpu);
    assert_eq!(cpu.registers[E], 0x08);
    cpu.registers[H] = 0xC0;
    cpu.registers[L] = 0x10;
    inst_set::set_0_hlind(&mut cpu);
    assert_eq!(cpu.bus.read(0xC010), 0x01);
}

#[test]
fn cb_prefix_dispatches_extended_table() {
    let mut cpu = cpu_with(&[0x37]);
    cpu.registers[A] = 0xAB;
    inst_set::cb(&mut cpu);
    assert_eq!(cpu.registers[A], 0xBA);
    assert_eq!(cpu.pc, 0x101);
}

#[test]
fn daa_after_addition() {
    let mut cpu = cpu_with(&[]);
    cpu.registers[A] = 0x45;
    cpu.registers[B] = 0x38;
    inst_set::add_a_b(&mut cpu);
    inst_set::daa(&mut cpu);
    assert_eq!(cpu.registers[A], 0x83);
    cpu.registers[A] = 0x83;
    cpu.registers[C] = 0x38;
    inst_set::sub_a_c(&mut cpu);
    inst_set::daa(&mut cpu);
    assert_eq!(cpu.registers[A], 0x45);
}

#[test]
fn cpl_scf_ccf() {
    let mut cpu = cpu_with(&[]);
    cpu.registers[A] = 0x35;
    inst_set::cpl(&mut cpu);
    assert_eq!(cpu.registers[A], 0xCA);
    inst_set::scf(&mut cpu);
    assert_eq!(flags(&cpu), (false, false, false, true));
    inst_set::ccf(&mut cpu);
    assert_eq!(flags(&cpu), (false, false, false, false));
}

#[test]
fn undefined_opcode_is_recorded_and_skipped() {
    let mut cpu = cpu_with(&[0xD3, 0x00]);
    let n = cpu.cycle();
    assert_eq!(n, 4);
    assert_eq!(cpu.invalid_op, Some(0xD3));
    assert_eq!(cpu.pc, 0x101);
}

#[test]
fn stop_skips_one_byte() {
    let mut cpu = cpu_with(&[0x10, 0x00]);
    cpu.cycle();
    assert!(cpu.stop);
    assert_eq!(cpu.pc, 0x102);
}

#[test]
fn ei_takes_effect_after_next_instruction() {
    let mut cpu = cpu_with(&[0xFB, 0x00, 0x00]);
    cpu.bus.write(0xFFFF, 0x01);
    cpu.bus.write(0xFF0F, 0x01);
    cpu.cycle();
    assert!(!cpu.ime);
    assert_eq!(cpu.pc, 0x101);
    cpu.cycle();
    assert!(!cpu.ime);
    assert_eq!(cpu.pc, 0x102);
    let n = cpu.cycle();
    assert_eq!(cpu.pc, 0x41);
    assert!(!cpu.ime);
    assert_eq!(cpu.bus.read(0xFF0F) & 0x01, 0);
    assert_eq!(cpu.bus.read(0xFFFD), 0x01);
    assert_eq!(cpu.bus.read(0xFFFC), 0x02);
    assert_eq!(n, 12);
}

#[test]
fn di_takes_effect_after_next_instruction() {
    let mut cpu = cpu_with(&[0xF3, 0x00, 0x00]);
    cpu.ime = true;
    cpu.cycle();
    assert!(cpu.ime);
    cpu.cycle();
    assert!(cpu.ime);
    cpu.cycle();
    assert!(!cpu.ime);
}

#[test]
fn lowest_pending_interrupt_is_served_first() {
    let mut cpu = cpu_with(&[0x00]);
    cpu.ime = true;
    cpu.bus.write(0xFFFF, 0x1F);
    cpu.bus.write(0xFF0F, 0x14);
    cpu.interrupt();
    assert_eq!(cpu.cycles, 8);
    assert_eq!(cpu.sp, 0xFFFC);
    assert_eq!(cpu.pc, 0x50);
    assert_eq!(cpu.bus.read(0xFF0F), 0x10);
    assert!(!cpu.ime);
}

#[test]
fn halt_wakes_without_ime() {
    let mut cpu = cpu_with(&[0x76, 0x3C]);
    cpu.cycle();
    assert!(cpu.halt);
    let n = cpu.cycle();
    assert_eq!(n, 4);
    assert_eq!(cpu.pc, 0x101);
    cpu.bus.write(0xFFFF, 0x04);
    cpu.bus.write(0xFF0F, 0x04);
    cpu.cycle();
    assert!(!cpu.halt);
    assert_eq!(cpu.registers[A], 1);
    assert_eq!(cpu.pc, 0x102);
}

#[test]
fn set_if_sets_and_clears() {
    let mut cpu = cpu_with(&[]);
    cpu.set_if(2, true);
    assert_eq!(cpu.bus.read(0xFF0F), 0x04);
    cpu.set_if(2, false);
    assert_eq!(cpu.bus.read(0xFF0F), 0x00);
}

#[test]
fn fetch_reads_and_advances() {
    let mut cpu = cpu_with(&[0xAB, 0xCD]);
    assert_eq!(cpu.fetch(), 0xAB);
    assert_eq!(cpu.fetch(), 0xCD);
    assert_eq!(cpu.pc, 0x102);
}

#[test]
fn decode_cb_runs_extended_op() {
    let mut cpu = cpu_with(&[]);
    cpu.registers[B] = 0x01;
    cpu.decode_cb(0x00);
    assert_eq!(cpu.registers[B], 0x02);
    assert_eq!(cpu.cycles, 8);
}

#[test]
fn reset_without_boot_rom_sets_post_boot_state() {
    let mut cpu = cpu_with(&[]);
    cpu.reset(false);
    assert_eq!(cpu.registers, [0x01, 0x80, 0x00, 0x13, 0x00, 0xD8, 0x01, 0x4D]);
    assert_eq!(cpu.sp, 0xFFFE);
    assert_eq!(cpu.pc, 0x100);
    assert_eq!(cpu.bus.read(0xFF40), 0x91);
    assert_eq!(cpu.bus.read(0xFF47), 0xFC);
    assert_eq!(cpu.bus.read(0xFF26), 0xF1);
}
