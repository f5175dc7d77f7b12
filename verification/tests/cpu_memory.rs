use rust_boy::cpu::Cpu;
use rust_boy::mmu::Mmu;
use rust_boy::timer::Timer;
use rust_boy::system::System;

fn setup() -> (Cpu, Mmu, Timer) {
    (Cpu::new(), Mmu::new(), Timer::new())
}

#[test]
fn push_then_pop_gives_the_pair_back() {
    let (mut cpu, mut mmu, mut timer) = setup();
    cpu.sp = 0xD000;
    cpu.push_r16(0x12, 0x34, &mut mmu, &mut timer);
    assert_eq!(cpu.sp, 0xCFFE);
    assert_eq!(mmu.read_byte(0xCFFF, &mut timer), 0x12);
    assert_eq!(mmu.read_byte(0xCFFE, &mut timer), 0x34);
    assert_eq!(cpu.pop_r16(&mut mmu, &mut timer), 0x1234);
    assert_eq!(cpu.sp, 0xD000);
    assert_eq!(cpu.cycles, 28);
}

#[test]
fn push_af_keeps_only_flag_bits() {
    let (mut cpu, mut mmu, mut timer) = setup();
    cpu.sp = 0xD000;
    cpu.a = 0x99;
    cpu.f = 0xFF;
    cpu.push_af(&mut mmu, &mut timer);
    assert_eq!(cpu.pop_r16(&mut mmu, &mut timer), 0x99F0);
}

#[test]
fn call_then_ret_returns_after_the_call() {
    let (mut cpu, mut mmu, mut timer) = setup();
    cpu.pc = 0xC000;
    cpu.sp = 0xDFF0;
    mmu.wram[0] = 0x34;
    mmu.wram[1] = 0x12;
    cpu.call(&mut mmu, &mut timer);
    assert_eq!(cpu.pc, 0x1234);
    assert_eq!(cpu.sp, 0xDFEE);
    assert_eq!(cpu.cycles, 24);
    cpu.ret_incond(&mut mmu, &mut timer);
    assert_eq!(cpu.pc, 0xC002);
    assert_eq!(cpu.sp, 0xDFF0);
}

#[test]
fn conditional_flow() {
    let (mut cpu, mut mmu, mut timer) = setup();
    cpu.pc = 0xC000;
    mmu.wram[0] = 0xFE;
    cpu.jr_cond(true, &mut mmu, &mut timer);
    assert_eq!(cpu.pc, 0xBFFF);
    assert_eq!(cpu.cycles, 12);
    cpu.pc = 0xC000;
    cpu.jr_cond(false, &mut mmu, &mut timer);
    assert_eq!(cpu.pc, 0xC001);
    cpu.pc = 0xC000;
    cpu.jp_cond(false, &mut mmu, &mut timer);
    assert_eq!(cpu.pc, 0xC002);
    cpu.pc = 0xC000;
    cpu.call_cond(false, &mut mmu, &mut timer);
    assert_eq!(cpu.pc, 0xC002);
    cpu.sp = 0xD000;
    cpu.ret_cond(false, &mut mmu, &mut timer);
    assert_eq!(cpu.sp, 0xD000);
    cpu.pc = 0x1234;
    cpu.rst(0x38, &mut mmu, &mut timer);
    assert_eq!(cpu.pc, 0x0038);
    cpu.reti(&mut mmu, &mut timer);
    assert_eq!(cpu.pc, 0x1234);
    assert!(cpu.ime);
}

#[test]
fn hl_memory_operations() {
    let (mut cpu, mut mmu, mut timer) = setup();
    cpu.h = 0xC0;
    cpu.l = 0x10;
    mmu.wram[0x10] = 0x0F;
    cpu.inc_hl_mem(&mut mmu, &mut timer);
    assert_eq!(mmu.wram[0x10], 0x10);
    assert!(cpu.get_flag_h());
    cpu.dec_hl_mem(&mut mmu, &mut timer);
    assert_eq!(mmu.wram[0x10], 0x0F);
    cpu.a = 0x01;
    cpu.alu_add_mem_hl(&mut mmu, &mut timer);
    assert_eq!(cpu.a, 0x10);
    cpu.alu_sub_mem_hl(&mut mmu, &mut timer);
    assert_eq!(cpu.a, 0x01);
    cpu.alu_cp_mem_hl(&mut mmu, &mut timer);
    assert!(cpu.get_flag_c());
    cpu.alu_and_mem_hl(&mut mmu, &mut timer);
    assert_eq!(cpu.a, 0x01);
    cpu.alu_or_mem_hl(&mut mmu, &mut timer);
    assert_eq!(cpu.a, 0x0F);
    cpu.alu_xor_mem_hl(&mut mmu, &mut timer);
    assert_eq!(cpu.a, 0x00);
    cpu.set_flag_c(true);
    cpu.alu_adc_mem_hl(&mut mmu, &mut timer);
    assert_eq!(cpu.a, 0x10);
    cpu.set_flag_c(true);
    cpu.alu_sbc_mem_hl(&mut mmu, &mut timer);
    assert_eq!(cpu.a, 0x00);
    assert!(cpu.get_flag_z());
    cpu.a = 0x77;
    cpu.ld_hl_inc_a(&mut mmu, &mut timer);
    assert_eq!(mmu.wram[0x10], 0x77);
    assert_eq!((cpu.h, cpu.l), (0xC0, 0x11));
    cpu.ld_hl_dec_a(&mut mmu, &mut timer);
    assert_eq!((cpu.h, cpu.l), (0xC0, 0x10));
    cpu.ld_a_hl_dec(&mut mmu, &mut timer);
    assert_eq!((cpu.h, cpu.l), (0xC0, 0x0F));
    cpu.ld_a_hl_inc(&mut mmu, &mut timer);
    assert_eq!(cpu.a, 0x00);
    cpu.ld_mem_hl_r8(&mut mmu, &mut timer, 0x42);
    assert_eq!(cpu.ld_r8_mem_hl(&mut mmu, &mut timer), 0x42);
}

#[test]
fn prefixed_memory_operations() {
    let (mut cpu, mut mmu, mut timer) = setup();
    cpu.h = 0xC1;
    cpu.l = 0x00;
    mmu.wram[0x100] = 0x81;
    cpu.rlc_hl_mem(&mut mmu, &mut timer);
    assert_eq!(mmu.wram[0x100], 0x03);
    cpu.rrc_hl_mem(&mut mmu, &mut timer);
    assert_eq!(mmu.wram[0x100], 0x81);
    cpu.swap_hl_mem(&mut mmu, &mut timer);
    assert_eq!(mmu.wram[0x100], 0x18);
    cpu.sla_hl_mem(&mut mmu, &mut timer);
    assert_eq!(mmu.wram[0x100], 0x30);
    cpu.sra_hl_mem(&mut mmu, &mut timer);
    assert_eq!(mmu.wram[0x100], 0x18);
    cpu.srl_hl_mem(&mut mmu, &mut timer);
    assert_eq!(mmu.wram[0x100], 0x0C);
    cpu.set_flag_c(true);
    cpu.rl_hl_mem(&mut mmu, &mut timer);
    assert_eq!(mmu.wram[0x100], 0x19);
    cpu.rr_hl_mem(&mut mmu, &mut timer);
    assert_eq!(mmu.wram[0x100], 0x0C);
    cpu.set_b_hl_mem(7, &mut mmu, &mut timer);
    assert_eq!(mmu.wram[0x100], 0x8C);
    cpu.res_b_hl_mem(2, &mut mmu, &mut timer);
    assert_eq!(mmu.wram[0x100], 0x88);
    cpu.bit_b_hl_mem(3, &mut mmu, &mut timer);
    assert!(!cpu.get_flag_z());
    cpu.bit_b_hl_mem(0, &mut mmu, &mut timer);
    assert!(cpu.get_flag_z());
}

#[test]
fn immediate_and_high_page_loads() {
    let (mut cpu, mut mmu, mut timer) = setup();
    cpu.pc = 0xC000;
    mmu.wram[0] = 0x80;
    mmu.wram[1] = 0xFF;
    assert_eq!(cpu.ld_r16_imm16(&mut mmu, &mut timer), 0xFF80);
    assert_eq!(cpu.pc, 0xC002);
    cpu.pc = 0xC000;
    assert_eq!(cpu.ld_r8_imm8(&mut mmu, &mut timer), 0x80);
    cpu.pc = 0xC000;
    cpu.a = 0x5C;
    cpu.ldh_mem8_a(&mut mmu, &mut timer);
    assert_eq!(mmu.hram[0], 0x5C);
    cpu.pc = 0xC000;
    cpu.a = 0;
    cpu.ldh_a_mem8(&mut mmu, &mut timer);
    assert_eq!(cpu.a, 0x5C);
    cpu.c = 0x81;
    cpu.ld_mem_c_a(&mut mmu, &mut timer);
    assert_eq!(mmu.hram[1], 0x5C);
    cpu.a = 0;
    cpu.ld_a_mem_c(&mut mmu, &mut timer);
    assert_eq!(cpu.a, 0x5C);
    cpu.pc = 0xC000;
    cpu.a = 0x66;
    cpu.ld_mem16_a(&mut mmu, &mut timer);
    assert_eq!(mmu.hram[0], 0x66);
    cpu.pc = 0xC000;
    cpu.a = 0;
    cpu.ld_a_mem16(&mut mmu, &mut timer);
    assert_eq!(cpu.a, 0x66);
    cpu.pc = 0xC000;
    cpu.sp = 0xBEEF;
    cpu.ld_mem16_sp(&mut mmu, &mut timer);
    assert_eq!((mmu.hram[0], mmu.hram[1]), (0xEF, 0xBE));
    cpu.a = 0x21;
    cpu.ld_mem_r16_a(&mut mmu, &mut timer, 0xC050);
    cpu.a = 0;
    cpu.ld_a_mem_r16(&mut mmu, &mut timer, 0xC050);
    assert_eq!(cpu.a, 0x21);
    cpu.h = 0xC0;
    cpu.l = 0x60;
    cpu.pc = 0xC000;
    cpu.ld_hl_mem_imm8(&mut mmu, &mut timer);
    assert_eq!(mmu.wram[0x60], 0x80);
}

#[test]
fn immediate_alu() {
    let (mut cpu, mut mmu, mut timer) = setup();
    cpu.pc = 0xC000;
    mmu.wram[0] = 0x0F;
    cpu.a = 0x01;
    cpu.add_a_imm8(&mut mmu, &mut timer);
    assert_eq!(cpu.a, 0x10);
    assert_eq!(cpu.pc, 0xC001);
    assert_eq!(cpu.cycles, 8);
    cpu.pc = 0xC000;
    cpu.sub_a_imm8(&mut mmu, &mut timer);
    assert_eq!(cpu.a, 0x01);
    cpu.pc = 0xC000;
    cpu.and_a_imm8(&mut mmu, &mut timer);
    assert_eq!(cpu.a, 0x01);
    cpu.pc = 0xC000;
    cpu.or_a_imm8(&mut mmu, &mut timer);
    assert_eq!(cpu.a, 0x0F);
    cpu.pc = 0xC000;
    cpu.xor_a_imm8(&mut mmu, &mut timer);
    assert_eq!(cpu.a, 0x00);
    cpu.pc = 0xC000;
    cpu.cp_a_imm8(&mut mmu, &mut timer);
    assert!(cpu.get_flag_c());
    cpu.pc = 0xC000;
    cpu.adc_a_imm8(&mut mmu, &mut timer);
    assert_eq!(cpu.a, 0x10);
    cpu.pc = 0xC000;
    cpu.sbc_a_imm8(&mut mmu, &mut timer);
    assert_eq!(cpu.a, 0x01);
}

#[test]
fn stack_pointer_offsets() {
    let (mut cpu, mut mmu, mut timer) = setup();
    cpu.pc = 0xC000;
    cpu.sp = 0x00FF;
    mmu.wram[0] = 0x01;
    cpu.add_sp_e8(&mut mmu, &mut timer);
    assert_eq!(cpu.sp, 0x0100);
    assert!(cpu.get_flag_h() && cpu.get_flag_c());
    assert!(!cpu.get_flag_z() && !cpu.get_flag_n());
    cpu.pc = 0xC000;
    mmu.wram[0] = 0xFE;
    cpu.ld_hl_sp_e8(&mut mmu, &mut timer);
    assert_eq!((cpu.h, cpu.l), (0x00, 0xFE));
}

#[test]
fn step_executes_the_opcode_at_pc() {
    let (mut cpu, mut mmu, mut timer) = setup();
    cpu.pc = 0xC000;
    mmu.wram[0] = 0x3C;
    mmu.wram[1] = 0x78;
    mmu.wram[2] = 0x86;
    mmu.wram[3] = 0x06;
    mmu.wram[4] = 0x99;
    mmu.wram[0x10] = 0x45;
    cpu.a = 5;
    assert!(cpu.can_step(&mut mmu, &mut timer));
    assert_eq!(cpu.step(&mut mmu, &mut timer), 4);
    assert_eq!(cpu.a, 6);
    assert_eq!(cpu.pc, 0xC001);
    cpu.b = 0x42;
    assert_eq!(cpu.step(&mut mmu, &mut timer), 4);
    assert_eq!(cpu.a, 0x42);
    assert_eq!(cpu.pc, 0xC002);
    cpu.h = 0xC0;
    cpu.l = 0x10;
    assert_eq!(cpu.step(&mut mmu, &mut timer), 8);
    assert_eq!(cpu.a, 0x87);
    assert_eq!(cpu.pc, 0xC003);
    assert_eq!(cpu.step(&mut mmu, &mut timer), 8);
    assert_eq!(cpu.b, 0x99);
    assert_eq!(cpu.pc, 0xC005);
}

#[test]
fn step_nop_moves_pc_past_the_opcode() {
    let (mut cpu, mut mmu, mut timer) = setup();
    cpu.pc = 0xC100;
    mmu.wram[0x100] = 0x00;
    let before_a = cpu.a;
    assert_eq!(cpu.step(&mut mmu, &mut timer), 4);
    assert_eq!(cpu.pc, 0xC101);
    assert_eq!(cpu.cycles, 4);
    assert_eq!(cpu.a, before_a);
}

#[test]
fn step_call_then_ret_returns_after_the_call() {
    let (mut cpu, mut mmu, mut timer) = setup();
    cpu.pc = 0xC000;
    cpu.sp = 0xD000;
    mmu.wram[0] = 0xCD;
    mmu.wram[1] = 0x00;
    mmu.wram[2] = 0xC2;
    mmu.wram[0x200] = 0xC9;
    assert_eq!(cpu.step(&mut mmu, &mut timer), 24);
    assert_eq!(cpu.pc, 0xC200);
    assert_eq!(cpu.sp, 0xCFFE);
    assert_eq!(cpu.step(&mut mmu, &mut timer), 16);
    assert_eq!(cpu.pc, 0xC003);
    assert_eq!(cpu.sp, 0xD000);
}

#[test]
fn ei_takes_effect_after_the_next_instruction() {
    let (mut cpu, mut mmu, mut timer) = setup();
    cpu.pc = 0xC000;
    mmu.wram[0] = 0xFB;
    mmu.wram[1] = 0x00;
    mmu.wram[2] = 0xFB;
    mmu.wram[3] = 0xF3;
    mmu.wram[4] = 0x00;
    assert_eq!(cpu.step(&mut mmu, &mut timer), 4);
    assert!(!cpu.ime);
    assert!(cpu.ime_pending);
    assert_eq!(cpu.step(&mut mmu, &mut timer), 4);
    assert!(cpu.ime);
    assert!(!cpu.ime_pending);
    cpu.ime = false;
    cpu.step(&mut mmu, &mut timer);
    cpu.step(&mut mmu, &mut timer);
    assert!(!cpu.ime);
    cpu.step(&mut mmu, &mut timer);
    assert!(!cpu.ime);
}

#[test]
fn step_with_cb_prefix() {
    let (mut cpu, mut mmu, mut timer) = setup();
    cpu.pc = 0xC000;
    mmu.wram[0] = 0xCB;
    mmu.wram[1] = 0xCB;
    cpu.e = 0x00;
    assert_eq!(cpu.step(&mut mmu, &mut timer), 8);
    assert_eq!(cpu.e, 0x02);
    assert_eq!(cpu.pc, 0xC002);
    let (mut cpu, mut mmu, mut timer) = setup();
    cpu.pc = 0xC000;
    cpu.h = 0xC0;
    cpu.l = 0x10;
    mmu.wram[0] = 0xCB;
    mmu.wram[0x10] = 0x00;
    cpu.cb_prefixed(0xC6, &mut mmu, &mut timer);
    assert_eq!(mmu.wram[0x10], 0x01);
    cpu.cb_prefixed(0x37, &mut mmu, &mut timer);
    cpu.a = 0x12;
    cpu.cb_prefixed(0x37, &mut mmu, &mut timer);
    assert_eq!(cpu.a, 0x21);
}

#[test]
fn illegal_opcode_cannot_step() {
    let (mut cpu, mut mmu, mut timer) = setup();
    cpu.pc = 0xC000;
    mmu.wram[0] = 0xD3;
    assert!(!cpu.can_step(&mut mmu, &mut timer));
    mmu.wram[0] = 0x00;
    assert!(cpu.can_step(&mut mmu, &mut timer));
}

#[test]
fn unimplemented_mapper_cannot_be_read() {
    let (mut cpu, mut mmu, mut timer) = setup();
    mmu.manager(0x19);
    assert!(!mmu.readable(0x0100));
    assert!(!cpu.can_step(&mut mmu, &mut timer));
    cpu.pc = 0xC000;
    assert!(cpu.can_step(&mut mmu, &mut timer));
}

#[test]
fn frame_runs_until_its_cycles_are_spent() {
    let mut system = System::new(Mmu::new());
    system.step_frame();
    assert!(system.cpu.cycles >= 70224);
    assert!(system.cpu.cycles < 70224 + 24);
    assert_eq!(system.cycles, 16);
    assert_eq!(system.cpu.cycles, 70224);
}
