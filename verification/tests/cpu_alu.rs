use rust_boy::cpu::Cpu;
use rust_boy::register_pair::{get_u16register, set_u16register};

fn flags(cpu: &Cpu) -> (bool, bool, bool, bool) {
    (cpu.get_flag_z(), cpu.get_flag_n(), cpu.get_flag_h(), cpu.get_flag_c())
}

#[test]
fn add_sets_zero_half_and_carry() {
    let mut cpu = Cpu::new();
    cpu.a = 0xFF;
    cpu.alu_add(0x01);
    assert_eq!(cpu.a, 0x00);
    assert_eq!(flags(&cpu), (true, false, true, true));
    assert_eq!(cpu.cycles, 4);
}

#[test]
fn flag_setters_change_one_bit_and_keep_low_nibble() {
    let mut cpu = Cpu::new();
    cpu.f = 0x0A;
    cpu.set_flag_z(true);
    assert_eq!(cpu.f, 0x8A);
    cpu.set_flag_c(true);
    assert_eq!(cpu.f, 0x9A);
    cpu.set_flag_z(false);
    assert_eq!(cpu.f, 0x1A);
    cpu.set_flag_n(true);
    cpu.set_flag_h(true);
    assert_eq!(cpu.f, 0x7A);
    assert_eq!(flags(&cpu), (false, true, true, true));
}

#[test]
fn register_pairs_join_and_split() {
    assert_eq!(get_u16register(0x12, 0x34), 0x1234);
    assert_eq!(set_u16register(0xBEEF), (0xBE, 0xEF));
    let (h, l) = set_u16register(get_u16register(0xAB, 0xCD));
    assert_eq!((h, l), (0xAB, 0xCD));
}

#[test]
fn adc_adds_the_carry() {
    let mut cpu = Cpu::new();
    cpu.a = 0x0E;
    cpu.set_flag_c(true);
    cpu.alu_adc(0x01);
    assert_eq!(cpu.a, 0x10);
    assert_eq!(flags(&cpu), (false, false, true, false));
}

#[test]
fn sub_and_sbc_borrow() {
    let mut cpu = Cpu::new();
    cpu.a = 0x10;
    cpu.alu_sub(0x20);
    assert_eq!(cpu.a, 0xF0);
    assert_eq!(flags(&cpu), (false, true, false, true));
    cpu.a = 0x10;
    cpu.set_flag_c(true);
    cpu.alu_sbc(0x0F);
    assert_eq!(cpu.a, 0x00);
    assert_eq!(flags(&cpu), (true, true, true, false));
}

#[test]
fn cp_sets_flags_of_sub_and_keeps_a() {
    let mut cpu = Cpu::new();
    cpu.a = 0x3C;
    cpu.alu_cp(0x3C);
    assert_eq!(cpu.a, 0x3C);
    assert_eq!(flags(&cpu), (true, true, false, false));
    cpu.alu_cp(0x40);
    assert_eq!(flags(&cpu), (false, true, false, true));
}

#[test]
fn logic_operations() {
    let mut cpu = Cpu::new();
    cpu.a = 0b1100_1010;
    cpu.alu_and(0b1010_1010);
    assert_eq!(cpu.a, 0b1000_1010);
    assert_eq!(flags(&cpu), (false, false, true, false));
    cpu.alu_xor(0b1000_1010);
    assert_eq!(cpu.a, 0);
    assert_eq!(flags(&cpu), (true, false, false, false));
    cpu.alu_or(0x81);
    assert_eq!(cpu.a, 0x81);
    assert_eq!(flags(&cpu), (false, false, false, false));
}

#[test]
fn inc_and_dec_r8_keep_carry() {
    let mut cpu = Cpu::new();
    cpu.set_flag_c(true);
    assert_eq!(cpu.inc_r8(0x0F), 0x10);
    assert_eq!(flags(&cpu), (false, false, true, true));
    assert_eq!(cpu.inc_r8(0xFF), 0x00);
    assert_eq!(flags(&cpu), (true, false, true, true));
    assert_eq!(cpu.dec_r8(0x10), 0x0F);
    assert_eq!(flags(&cpu), (false, true, true, true));
    assert_eq!(cpu.dec_r8(0x01), 0x00);
    assert_eq!(flags(&cpu), (true, true, false, true));
}

#[test]
fn inc_and_dec_r16_wrap() {
    let mut cpu = Cpu::new();
    assert_eq!(cpu.inc_r16(0xFFFF), 0x0000);
    assert_eq!(cpu.dec_r16(0x0000), 0xFFFF);
    assert_eq!(cpu.cycles, 16);
}

#[test]
fn add_hl_r16_half_carry_from_bit_11() {
    let mut cpu = Cpu::new();
    cpu.h = 0x0F;
    cpu.l = 0xFF;
    cpu.set_flag_z(true);
    cpu.add_hl_r16(0x0001);
    assert_eq!((cpu.h, cpu.l), (0x10, 0x00));
    assert_eq!(flags(&cpu), (true, false, true, false));
    cpu.add_hl_r16(0xF000);
    assert_eq!((cpu.h, cpu.l), (0x00, 0x00));
    assert!(cpu.get_flag_c());
}

#[test]
fn daa_corrects_bcd_addition() {
    let mut cpu = Cpu::new();
    cpu.a = 0x45;
    cpu.alu_add(0x38);
    cpu.daa();
    assert_eq!(cpu.a, 0x83);
    assert!(!cpu.get_flag_c());
    cpu.a = 0x99;
    cpu.alu_add(0x01);
    cpu.daa();
    assert_eq!(cpu.a, 0x00);
    assert!(cpu.get_flag_z());
    assert!(cpu.get_flag_c());
}

#[test]
fn daa_corrects_bcd_subtraction() {
    let mut cpu = Cpu::new();
    cpu.a = 0x42;
    cpu.alu_sub(0x05);
    cpu.daa();
    assert_eq!(cpu.a, 0x37);
    assert!(cpu.get_flag_n());
}

#[test]
fn cpl_scf_ccf() {
    let mut cpu = Cpu::new();
    cpu.a = 0x5A;
    cpu.cpl();
    assert_eq!(cpu.a, 0xA5);
    assert!(cpu.get_flag_n() && cpu.get_flag_h());
    cpu.scf();
    assert_eq!(flags(&cpu), (false, false, false, true));
    cpu.ccf();
    assert!(!cpu.get_flag_c());
    cpu.ccf();
    assert!(cpu.get_flag_c());
}

#[test]
fn accumulator_rotations() {
    let mut cpu = Cpu::new();
    cpu.a = 0x85;
    cpu.rlca();
    assert_eq!(cpu.a, 0x0B);
    assert_eq!(flags(&cpu), (false, false, false, true));
    cpu.a = 0x01;
    cpu.rrca();
    assert_eq!(cpu.a, 0x80);
    assert!(cpu.get_flag_c());
    cpu.a = 0x80;
    cpu.set_flag_c(false);
    cpu.rla();
    assert_eq!(cpu.a, 0x00);
    assert_eq!(flags(&cpu), (false, false, false, true));
    cpu.a = 0x00;
    cpu.rra();
    assert_eq!(cpu.a, 0x80);
    assert!(!cpu.get_flag_c());
}

#[test]
fn prefixed_rotations_and_shifts() {
    let mut cpu = Cpu::new();
    assert_eq!(cpu.rlc_r8(0x80), 0x01);
    assert!(cpu.get_flag_c());
    assert_eq!(cpu.rrc_r8(0x01), 0x80);
    assert!(cpu.get_flag_c());
    cpu.set_flag_c(true);
    assert_eq!(cpu.rl_r8(0x00), 0x01);
    assert!(!cpu.get_flag_c());
    cpu.set_flag_c(true);
    assert_eq!(cpu.rr_r8(0x00), 0x80);
    assert!(!cpu.get_flag_c());
    assert_eq!(cpu.sla_r8(0x81), 0x02);
    assert!(cpu.get_flag_c());
    assert_eq!(cpu.sra_r8(0x81), 0xC0);
    assert!(cpu.get_flag_c());
    assert_eq!(cpu.srl_r8(0x01), 0x00);
    assert_eq!(flags(&cpu), (true, false, false, true));
    assert_eq!(cpu.swap_r8(0xF0), 0x0F);
    assert_eq!(flags(&cpu), (false, false, false, false));
}

#[test]
fn rotations_undo_each_other() {
    let mut cpu = Cpu::new();
    for v in 0..=255u8 {
        let r = cpu.rlc_r8(v);
        assert_eq!(cpu.rrc_r8(r), v);
        let s = cpu.swap_r8(v);
        assert_eq!(cpu.swap_r8(s), v);
    }
}

#[test]
fn bit_res_set() {
    let mut cpu = Cpu::new();
    cpu.set_flag_c(true);
    cpu.bit_b_r8(3, 0b0000_1000);
    assert_eq!(flags(&cpu), (false, false, true, true));
    cpu.bit_b_r8(2, 0b0000_1000);
    assert!(cpu.get_flag_z());
    assert_eq!(cpu.res_b_r8(7, 0xFF), 0x7F);
    assert_eq!(cpu.set_b_r8(0, 0x00), 0x01);
    assert_eq!(cpu.cycles, 0);
}

#[test]
fn control_instructions() {
    let mut cpu = Cpu::new();
    cpu.nop();
    assert_eq!(cpu.cycles, 4);
    cpu.stop();
    assert!(cpu.stopped);
    assert_eq!(cpu.pc, 0x0101);
    cpu.ei();
    assert!(!cpu.ime);
    assert!(cpu.ime_pending);
    cpu.halt();
    assert!(cpu.halted);
    cpu.di();
    assert!(!cpu.ime);
    cpu.halted = false;
    cpu.interrupt_enable = 0x01;
    cpu.interrupt_flag = 0x01;
    cpu.halt();
    assert!(cpu.halt_bug_triggered);
    assert!(!cpu.halted);
    cpu.h = 0x12;
    cpu.l = 0x34;
    cpu.jp_hl();
    assert_eq!(cpu.pc, 0x1234);
    cpu.ld_sp_hl();
    assert_eq!(cpu.sp, 0x1234);
}

#[test]
fn bios_off_gives_post_boot_state_without_changing_cpu() {
    let mut cpu = Cpu::new();
    let booted = cpu.bios_off();
    assert_eq!(booted.a, 0x01);
    assert_eq!(booted.f, 0xB0);
    assert_eq!((booted.b, booted.c, booted.d, booted.e, booted.h, booted.l), (0x00, 0x13, 0x00, 0xD8, 0x01, 0x4D));
    assert_eq!(booted.interrupt_flag, 0xE1);
    assert_eq!(cpu.a, 0);
    assert_eq!(cpu.pc, 0x0100);
}
