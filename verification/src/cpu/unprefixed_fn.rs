//! Instructions without the 0xCB prefix.
use vstd::prelude::*;
use crate::cpu::{Cpu, group_flags, rotate_left, rotate_right, rotate_left_through, rotate_right_through, lemma_bit7, lemma_bit0};
use crate::register_pair::{get_u16register, set_u16register, pair_value, high_byte, low_byte};
use crate::mmu::{Mmu, lemma_readable_writable, lemma_write_keeps_writable};
use crate::timer::Timer;
use crate::cpu::{offset_u16, add_signed_offset};

verus! {

broadcast use group_flags;

/// DAA on the processor's A and flags: the corrected A and the new carry.
pub open spec fn daa_spec_of(c: Cpu) -> (u8, bool) {
    daa_spec(c.a, c.flag_n(), c.flag_h(), c.flag_c())
}

/// BCD correction of DAA: the corrected accumulator and the new carry.
pub open spec fn daa_spec(a: u8, n: bool, h: bool, c: bool) -> (u8, bool) {
    if !n {
        let low = if h || (a & 0x0F) > 0x09 { 0x06u8 } else { 0u8 };
        let high = if c || a > 0x99 { 0x60u8 } else { 0u8 };
        (a.wrapping_add((low + high) as u8), c || a > 0x99)
    } else {
        let low = if h { 0x06u8 } else { 0u8 };
        let high = if c { 0x60u8 } else { 0u8 };
        (a.wrapping_sub((low + high) as u8), c)
    }
}

/// The masks of ADD SP, e8 are remainders, for operands of 16 and 8 bits.
pub proof fn lemma_offset_bits(sp: u32, b: u32)
    by (bit_vector)
    requires
        sp < 0x10000,
        b < 256,
    ensures
        sp & 0x0F == sp % 16,
        b & 0x0F == b % 16,
        sp & 0xFF == sp % 256,
        b & 0xFF == b,
{
}

/// An address in the high page 0xFF00-0xFFFF built from its low byte.
pub proof fn lemma_high_page(x: u16)
    by (bit_vector)
    requires
        x < 256,
    ensures
        0xFF00 | x == 0xFF00 + x,
{
}

impl Cpu {
    /// NOP: spends 4 cycles.
    pub fn nop(&mut self)
        ensures
            *final(self) == (Cpu { cycles: old(self).cycles.wrapping_add(4), ..*old(self) }),
    {
        self.cycles = self.cycles.wrapping_add(4);
    }

    /// STOP: skips one byte, spends 4 cycles and enters the stopped state.
    pub fn stop(&mut self)
        ensures
            *final(self) == (Cpu {
                pc: old(self).pc.wrapping_add(1),
                cycles: old(self).cycles.wrapping_add(4),
                stopped: true,
                ..*old(self)
            }),
    {
        self.pc = self.pc.wrapping_add(1);
        self.cycles = self.cycles.wrapping_add(4);
        self.stopped = true;
    }

    /// HALT: with IME set the processor halts; without it, a pending enabled
    /// interrupt triggers the halt bug, and otherwise the processor halts.
    pub fn halt(&mut self)
        ensures
            *final(self) == (if !old(self).ime && (old(self).interrupt_flag
                & old(self).interrupt_enable) & 0x1F != 0 {
                Cpu {
                    cycles: old(self).cycles.wrapping_add(4),
                    halt_bug_triggered: true,
                    ..*old(self)
                }
            } else {
                Cpu { cycles: old(self).cycles.wrapping_add(4), halted: true, ..*old(self) }
            }),
    {
        self.cycles = self.cycles.wrapping_add(4);
        if self.ime {
            self.halted = true;
        } else {
            if (self.interrupt_flag & self.interrupt_enable) & 0x1F != 0 {
                self.halt_bug_triggered = true;
            } else {
                self.halted = true;
            }
        }
    }

    /// DAA: decimal adjustment of A after a BCD addition or subtraction.
    pub fn daa(&mut self)
        ensures
            ({
                let (a, c) = daa_spec(old(self).a, old(self).flag_n(), old(self).flag_h(), old(self).flag_c());
                *final(self) == (Cpu {
                    a: a,
                    f: old(self).f_with(a == 0, old(self).flag_n(), false, c),
                    cycles: old(self).cycles.wrapping_add(4),
                    ..*old(self)
                })
            }),
    {
        let a = self.a;
        let mut correction: u8 = 0;
        if !self.get_flag_n() {
            if self.get_flag_h() || (a & 0x0F) > 0x09 {
                correction = 0x06;
            }
            if self.get_flag_c() || a > 0x99 {
                correction = correction + 0x60;
                self.set_flag_c(true);
            }
            self.a = a.wrapping_add(correction);
        } else {
            if self.get_flag_h() {
                correction = 0x06;
            }
            if self.get_flag_c() {
                correction = correction + 0x60;
            }
            self.a = a.wrapping_sub(correction);
        }
        self.set_flag_z(self.a == 0);
        self.set_flag_h(false);
        self.cycles = self.cycles.wrapping_add(4);
    }

    /// CPL: complements A and sets N and H.
    pub fn cpl(&mut self)
        ensures
            *final(self) == (Cpu {
                a: !old(self).a,
                f: old(self).f_with(old(self).flag_z(), true, true, old(self).flag_c()),
                cycles: old(self).cycles.wrapping_add(4),
                ..*old(self)
            }),
    {
        self.a = !self.a;
        self.set_flag_n(true);
        self.set_flag_h(true);
        self.cycles = self.cycles.wrapping_add(4);
    }

    /// SCF: sets the carry and clears N and H.
    pub fn scf(&mut self)
        ensures
            *final(self) == (Cpu {
                f: old(self).f_with(old(self).flag_z(), false, false, true),
                cycles: old(self).cycles.wrapping_add(4),
                ..*old(self)
            }),
    {
        self.set_flag_n(false);
        self.set_flag_h(false);
        self.set_flag_c(true);
        self.cycles = self.cycles.wrapping_add(4);
    }

    /// CCF: complements the carry and clears N and H.
    pub fn ccf(&mut self)
        ensures
            *final(self) == (Cpu {
                f: old(self).f_with(old(self).flag_z(), false, false, !old(self).flag_c()),
                cycles: old(self).cycles.wrapping_add(4),
                ..*old(self)
            }),
    {
        self.set_flag_n(false);
        self.set_flag_h(false);
        let c = self.get_flag_c();
        self.set_flag_c(!c);
        self.cycles = self.cycles.wrapping_add(4);
    }

    /// RLCA: rotates A left; bit 7 goes to bit 0 and to the carry; Z, N, H cleared.
    pub fn rlca(&mut self)
        ensures
            *final(self) == (Cpu {
                a: rotate_left(old(self).a),
                f: old(self).f_with(false, false, false, old(self).a >= 0x80),
                cycles: old(self).cycles.wrapping_add(4),
                ..*old(self)
            }),
    {
        let mut a = self.a;
        let bit_7 = (self.a >> 7) & 0x01;
        proof { lemma_bit7(a, bit_7); }
        a = (a << 1) | bit_7;
        self.a = a;
        self.set_flag_z(false);
        self.set_flag_n(false);
        self.set_flag_h(false);
        self.set_flag_c(bit_7 == 1);
        self.cycles = self.cycles.wrapping_add(4);
    }

    /// RRCA: rotates A right; bit 0 goes to bit 7 and to the carry; Z, N, H cleared.
    pub fn rrca(&mut self)
        ensures
            *final(self) == (Cpu {
                a: rotate_right(old(self).a),
                f: old(self).f_with(false, false, false, old(self).a % 2 == 1),
                cycles: old(self).cycles.wrapping_add(4),
                ..*old(self)
            }),
    {
        let mut a = self.a;
        let bit_0 = a & 0x01;
        proof { lemma_bit0(a, bit_0); }
        a = (a >> 1) | (bit_0 << 7);
        self.a = a;
        self.set_flag_z(false);
        self.set_flag_n(false);
        self.set_flag_h(false);
        self.set_flag_c(bit_0 == 1);
        self.cycles = self.cycles.wrapping_add(4);
    }

    /// RLA: rotates A left through the carry; Z, N, H cleared.
    pub fn rla(&mut self)
        ensures
            *final(self) == (Cpu {
                a: rotate_left_through(old(self).a, old(self).flag_c()),
                f: old(self).f_with(false, false, false, old(self).a >= 0x80),
                cycles: old(self).cycles.wrapping_add(4),
                ..*old(self)
            }),
    {
        let bit_7 = (self.a >> 7) & 0x01;
        proof { lemma_bit7(self.a, bit_7); }
        let carry: u8 = if self.get_flag_c() { 1 } else { 0 };
        self.a = (self.a << 1) | carry;
        self.set_flag_z(false);
        self.set_flag_n(false);
        self.set_flag_h(false);
        self.set_flag_c(bit_7 == 1);
        self.cycles = self.cycles.wrapping_add(4);
    }

    /// RRA: rotates A right through the carry; Z, N, H cleared.
    pub fn rra(&mut self)
        ensures
            *final(self) == (Cpu {
                a: rotate_right_through(old(self).a, old(self).flag_c()),
                f: old(self).f_with(false, false, false, old(self).a % 2 == 1),
                cycles: old(self).cycles.wrapping_add(4),
                ..*old(self)
            }),
    {
        let bit_0 = self.a & 0x01;
        proof { lemma_bit0(self.a, bit_0); }
        let carry: u8 = if self.get_flag_c() { 0x80 } else { 0 };
        self.a = (self.a >> 1) | carry;
        self.set_flag_z(false);
        self.set_flag_n(false);
        self.set_flag_h(false);
        self.set_flag_c(bit_0 == 1);
        self.cycles = self.cycles.wrapping_add(4);
    }

    /// ADD HL, r16: 16-bit addition; N cleared, H from bit 11, C from bit 15, Z kept.
    pub fn add_hl_r16(&mut self, src: u16)
        ensures
            *final(self) == (Cpu {
                f: old(self).f_with(
                    old(self).flag_z(),
                    false,
                    (old(self).hl() % 0x1000) + (src % 0x1000) > 0x0FFF,
                    old(self).hl() + src > 0xFFFF,
                ),
                cycles: old(self).cycles.wrapping_add(8),
                ..old(self).with_hl(old(self).hl().wrapping_add(src))
            }),
    {
        let hl = get_u16register(self.h, self.l);
        self.set_flag_n(false);
        let half_carry = ((hl & 0x0FFF) + (src & 0x0FFF)) > 0x0FFF;
        self.set_flag_h(half_carry);
        self.set_flag_c((hl as u32) + (src as u32) > 0xFFFF);
        let (high, low) = set_u16register(hl.wrapping_add(src));
        self.h = high;
        self.l = low;
        self.cycles = self.cycles.wrapping_add(8);
    }

    /// INC r16: the value plus one, wrapping; flags untouched.
    pub fn inc_r16(&mut self, src: u16) -> (r: u16)
        ensures
            r == src.wrapping_add(1),
            *final(self) == (Cpu { cycles: old(self).cycles.wrapping_add(8), ..*old(self) }),
    {
        self.cycles = self.cycles.wrapping_add(8);
        src.wrapping_add(1)
    }

    /// DEC r16: the value minus one, wrapping; flags untouched.
    pub fn dec_r16(&mut self, src: u16) -> (r: u16)
        ensures
            r == src.wrapping_sub(1),
            *final(self) == (Cpu { cycles: old(self).cycles.wrapping_add(8), ..*old(self) }),
    {
        self.cycles = self.cycles.wrapping_add(8);
        src.wrapping_sub(1)
    }

    /// INC r8: the value plus one, wrapping; Z, N, H set from it, C kept.
    pub fn inc_r8(&mut self, src: u8) -> (r: u8)
        ensures
            r == src.wrapping_add(1),
            *final(self) == (Cpu {
                f: old(self).f_after_inc(src),
                cycles: old(self).cycles.wrapping_add(4),
                ..*old(self)
            }),
    {
        let result = src.wrapping_add(1);
        self.set_flag_z(result == 0);
        self.set_flag_n(false);
        self.set_flag_h((src & 0x0F) == 0x0F);
        self.cycles = self.cycles.wrapping_add(4);
        result
    }

    /// DEC r8: the value minus one, wrapping; Z, N, H set from it, C kept.
    pub fn dec_r8(&mut self, src: u8) -> (r: u8)
        ensures
            r == src.wrapping_sub(1),
            *final(self) == (Cpu {
                f: old(self).f_after_dec(src),
                cycles: old(self).cycles.wrapping_add(4),
                ..*old(self)
            }),
    {
        let result = src.wrapping_sub(1);
        self.set_flag_z(result == 0);
        self.set_flag_n(true);
        self.set_flag_h((src & 0x0F) == 0x00);
        self.cycles = self.cycles.wrapping_add(4);
        result
    }

    /// LD r8, r8: gives back the source value and spends 4 cycles.
    pub fn ld_r8_r8(&mut self, src: u8) -> (r: u8)
        ensures
            r == src,
            *final(self) == (Cpu { cycles: old(self).cycles.wrapping_add(4), ..*old(self) }),
    {
        self.cycles = self.cycles.wrapping_add(4);
        src
    }

    /// ADD A, r8.
    pub fn alu_add(&mut self, src: u8)
        ensures
            *final(self) == (Cpu { cycles: old(self).cycles.wrapping_add(4), ..old(self).after_add(src) }),
    {
        let final_result = self.a.wrapping_add(src);
        self.set_flag_z(final_result == 0);
        self.set_flag_n(false);
        let half_carry = ((self.a & 0x0F) + (src & 0x0F)) > 0x0F;
        self.set_flag_h(half_carry);
        self.set_flag_c((self.a as u16) + (src as u16) > 0xFF);
        self.a = final_result;
        self.cycles = self.cycles.wrapping_add(4);
    }

    /// ADC A, r8.
    pub fn alu_adc(&mut self, src: u8)
        ensures
            *final(self) == (Cpu { cycles: old(self).cycles.wrapping_add(4), ..old(self).after_adc(src) }),
    {
        let carry: u8 = if self.get_flag_c() { 1 } else { 0 };
        let final_result = self.a.wrapping_add(src).wrapping_add(carry);
        self.set_flag_z(final_result == 0);
        self.set_flag_n(false);
        let half_carry = ((self.a & 0x0F) + (src & 0x0F) + carry) > 0x0F;
        self.set_flag_h(half_carry);
        let overflow_check = (self.a as u16) + (src as u16) + (carry as u16);
        self.set_flag_c(overflow_check > 0xFF);
        self.a = final_result;
        self.cycles = self.cycles.wrapping_add(4);
    }

    /// SBC A, r8.
    pub fn alu_sbc(&mut self, src: u8)
        ensures
            *final(self) == (Cpu { cycles: old(self).cycles.wrapping_add(4), ..old(self).after_sbc(src) }),
    {
        let carry: u8 = if self.get_flag_c() { 1 } else { 0 };
        let final_result = self.a.wrapping_sub(src).wrapping_sub(carry);
        self.set_flag_z(final_result == 0);
        self.set_flag_n(true);
        let half_borrow = (self.a & 0x0F) < (src & 0x0F) + carry;
        self.set_flag_h(half_borrow);
        let borrow = (self.a as u16) < (src as u16) + (carry as u16);
        self.set_flag_c(borrow);
        self.a = final_result;
        self.cycles = self.cycles.wrapping_add(4);
    }

    /// SUB A, r8.
    pub fn alu_sub(&mut self, src: u8)
        ensures
            *final(self) == (Cpu { cycles: old(self).cycles.wrapping_add(4), ..old(self).after_sub(src) }),
    {
        let final_result = self.a.wrapping_sub(src);
        self.set_flag_z(final_result == 0);
        self.set_flag_n(true);
        let half_borrow = (self.a & 0x0F) < (src & 0x0F);
        self.set_flag_h(half_borrow);
        let borrow = self.a < src;
        self.set_flag_c(borrow);
        self.a = final_result;
        self.cycles = self.cycles.wrapping_add(4);
    }

    /// AND A, r8: Z from the result, N cleared, H set, C cleared.
    pub fn alu_and(&mut self, src: u8)
        ensures
            *final(self) == (Cpu { cycles: old(self).cycles.wrapping_add(4), ..old(self).after_and(src) }),
    {
        self.a = self.a & src;
        self.set_flag_z(self.a == 0);
        self.set_flag_n(false);
        self.set_flag_h(true);
        self.set_flag_c(false);
        self.cycles = self.cycles.wrapping_add(4);
    }

    /// XOR A, r8: Z from the result, N, H, C cleared.
    pub fn alu_xor(&mut self, src: u8)
        ensures
            *final(self) == (Cpu { cycles: old(self).cycles.wrapping_add(4), ..old(self).after_xor(src) }),
    {
        self.a = self.a ^ src;
        self.set_flag_z(self.a == 0);
        self.set_flag_n(false);
        self.set_flag_h(false);
        self.set_flag_c(false);
        self.cycles = self.cycles.wrapping_add(4);
    }

    /// OR A, r8: Z from the result, N, H, C cleared.
    pub fn alu_or(&mut self, src: u8)
        ensures
            *final(self) == (Cpu { cycles: old(self).cycles.wrapping_add(4), ..old(self).after_or(src) }),
    {
        self.a = self.a | src;
        self.set_flag_z(self.a == 0);
        self.set_flag_n(false);
        self.set_flag_h(false);
        self.set_flag_c(false);
        self.cycles = self.cycles.wrapping_add(4);
    }

    /// CP A, r8: the flags of a subtraction, A kept.
    pub fn alu_cp(&mut self, src: u8)
        ensures
            *final(self) == (Cpu { cycles: old(self).cycles.wrapping_add(4), ..old(self).after_cp(src) }),
    {
        let final_result = self.a.wrapping_sub(src);
        self.set_flag_z(final_result == 0);
        self.set_flag_n(true);
        let half_carry = (self.a & 0x0F) < (src & 0x0F);
        self.set_flag_h(half_carry);
        self.set_flag_c(self.a < src);
        self.cycles = self.cycles.wrapping_add(4);
    }

    /// JP (HL): PC takes the value of HL.
    pub fn jp_hl(&mut self)
        ensures
            *final(self) == (Cpu { pc: old(self).hl(), cycles: old(self).cycles.wrapping_add(4), ..*old(self) }),
    {
        let addr = get_u16register(self.h, self.l);
        self.pc = addr;
        self.cycles = self.cycles.wrapping_add(4);
    }

    /// LD SP, HL: SP takes the value of HL.
    pub fn ld_sp_hl(&mut self)
        ensures
            *final(self) == (Cpu { sp: old(self).hl(), cycles: old(self).cycles.wrapping_add(8), ..*old(self) }),
    {
        let hl = get_u16register(self.h, self.l);
        self.sp = hl;
        self.cycles = self.cycles.wrapping_add(8);
    }

    /// DI: clears the interrupt master enable, and cancels an enable that an
    /// EI left pending.
    pub fn di(&mut self)
        ensures
            *final(self) == (Cpu {
                ime: false,
                ime_pending: false,
                cycles: old(self).cycles.wrapping_add(4),
                ..*old(self)
            }),
    {
        self.ime = false;
        self.ime_pending = false;
        self.cycles = self.cycles.wrapping_add(4);
    }

    /// EI: enables interrupts after the next instruction. IME is not set
    /// here; the enable is left pending, and `step` sets IME once the
    /// instruction that follows has finished.
    pub fn ei(&mut self)
        ensures
            *final(self) == (Cpu {
                ime_pending: true,
                cycles: old(self).cycles.wrapping_add(4),
                ..*old(self)
            }),
    {
        self.ime_pending = true;
        self.cycles = self.cycles.wrapping_add(4);
    }

    /// DEC (HL): decrements the byte at HL; Z, N, H set from it, C kept.
    pub fn dec_hl_mem(&mut self, mmu: &mut Mmu, timer: &mut Timer)
        requires
            old(mmu).can_read(old(self).hl()),
        ensures
            ({
                let v = old(mmu).read_spec(*old(timer), old(self).hl());
                &&& old(mmu).write_rel(*old(timer), old(self).hl(), v.wrapping_sub(1), *final(mmu), *final(timer))
                &&& *final(self) == (Cpu { f: old(self).f_after_dec(v), ..old(self).with_cycles(12) })
            }),
    {
        let hl = get_u16register(self.h, self.l);
        let value = mmu.read_byte(hl, timer);
        let result = value.wrapping_sub(1);
        proof { lemma_readable_writable(*mmu, hl); }
        mmu.write_byte(hl, result, timer);
        self.set_flag_z(result == 0);
        self.set_flag_n(true);
        self.set_flag_h((value & 0x0F) == 0x00);
        self.cycles = self.cycles.wrapping_add(12);
    }

    /// LD (HL), n8: stores the byte at PC to HL and moves PC past it.
    pub fn ld_hl_mem_imm8(&mut self, mmu: &mut Mmu, timer: &mut Timer)
        requires
            old(mmu).can_read(old(self).pc),
            old(mmu).can_write(old(self).hl()),
        ensures
            ({
                let v = old(mmu).read_spec(*old(timer), old(self).pc);
                &&& old(mmu).write_rel(*old(timer), old(self).hl(), v, *final(mmu), *final(timer))
                &&& *final(self) == (Cpu { pc: old(self).pc.wrapping_add(1), ..old(self).with_cycles(12) })
            }),
    {
        let hl = get_u16register(self.h, self.l);
        let value = mmu.read_byte(self.pc, timer);
        mmu.write_byte(hl, value, timer);
        self.pc = self.pc.wrapping_add(1);
        self.cycles = self.cycles.wrapping_add(12);
    }

    /// INC (HL): increments the byte at HL; Z, N, H set from it, C kept.
    pub fn inc_hl_mem(&mut self, mmu: &mut Mmu, timer: &mut Timer)
        requires
            old(mmu).can_read(old(self).hl()),
        ensures
            ({
                let v = old(mmu).read_spec(*old(timer), old(self).hl());
                &&& old(mmu).write_rel(*old(timer), old(self).hl(), v.wrapping_add(1), *final(mmu), *final(timer))
                &&& *final(self) == (Cpu { f: old(self).f_after_inc(v), ..old(self).with_cycles(12) })
            }),
    {
        let hl = get_u16register(self.h, self.l);
        let value = mmu.read_byte(hl, timer);
        let result = value.wrapping_add(1);
        proof { lemma_readable_writable(*mmu, hl); }
        mmu.write_byte(hl, result, timer);
        self.set_flag_z(result == 0);
        self.set_flag_n(false);
        self.set_flag_h((value & 0x0F) == 0x0F);
        self.cycles = self.cycles.wrapping_add(12);
    }

    /// LD (r16), A: stores A at the address `src`.
    pub fn ld_mem_r16_a(&mut self, mmu: &mut Mmu, timer: &mut Timer, src: u16)
        requires
            old(mmu).can_write(src),
        ensures
            old(mmu).write_rel(*old(timer), src, old(self).a, *final(mmu), *final(timer)),
            *final(self) == old(self).with_cycles(8),
    {
        mmu.write_byte(src, self.a, timer);
        self.cycles = self.cycles.wrapping_add(8);
    }

    /// LD A, (r16): loads A from the address `src`.
    pub fn ld_a_mem_r16(&mut self, mmu: &mut Mmu, timer: &mut Timer, src: u16)
        requires
            old(mmu).can_read(src),
        ensures
            *final(mmu) == *old(mmu),
            *final(timer) == *old(timer),
            *final(self) == (Cpu { a: old(mmu).read_spec(*old(timer), src), ..old(self).with_cycles(8) }),
    {
        self.a = mmu.read_byte(src, timer);
        self.cycles = self.cycles.wrapping_add(8);
    }

    /// The 16-bit operand at PC: low byte first.
    pub open spec fn imm16(self, m: Mmu, t: Timer) -> u16 {
        pair_value(m.read_spec(t, self.pc.wrapping_add(1)), m.read_spec(t, self.pc))
    }

    /// LD (n16), SP: stores SP, low byte first, at the address at PC.
    pub fn ld_mem16_sp(&mut self, mmu: &mut Mmu, timer: &mut Timer)
        requires
            old(mmu).can_read(old(self).pc),
            old(mmu).can_read(old(self).pc.wrapping_add(1)),
            old(mmu).can_write(old(self).imm16(*old(mmu), *old(timer))),
            old(mmu).can_write(old(self).imm16(*old(mmu), *old(timer)).wrapping_add(1)),
        ensures
            ({
                let addr = old(self).imm16(*old(mmu), *old(timer));
                &&& old(mmu).write2_rel(*old(timer), addr, low_byte(old(self).sp), addr.wrapping_add(1),
                    high_byte(old(self).sp), *final(mmu), *final(timer))
                &&& *final(self) == (Cpu { pc: old(self).pc.wrapping_add(2), ..old(self).with_cycles(20) })
            }),
    {
        let low = mmu.read_byte(self.pc, timer);
        let high = mmu.read_byte(self.pc.wrapping_add(1), timer);
        let addr = get_u16register(high, low);
        let (sp_high, sp_low) = set_u16register(self.sp);
        let ghost m0 = *mmu;
        let ghost t0 = *timer;
        mmu.write_byte(addr, sp_low, timer);
        proof { lemma_write_keeps_writable(m0, t0, addr, sp_low, *mmu, *timer); }
        let ghost m1 = *mmu;
        let ghost t1 = *timer;
        mmu.write_byte(addr.wrapping_add(1), sp_high, timer);
        assert(m0.write_rel(t0, addr, sp_low, m1, t1));
        self.pc = self.pc.wrapping_add(2);
        self.cycles = self.cycles.wrapping_add(20);
    }

    /// LD (HL+), A: stores A at HL, then increments HL.
    pub fn ld_hl_inc_a(&mut self, mmu: &mut Mmu, timer: &mut Timer)
        requires
            old(mmu).can_write(old(self).hl()),
        ensures
            old(mmu).write_rel(*old(timer), old(self).hl(), old(self).a, *final(mmu), *final(timer)),
            *final(self) == old(self).with_hl(old(self).hl().wrapping_add(1)).with_cycles(8),
    {
        let hl = get_u16register(self.h, self.l);
        mmu.write_byte(hl, self.a, timer);
        let (high, low) = set_u16register(hl.wrapping_add(1));
        self.h = high;
        self.l = low;
        self.cycles = self.cycles.wrapping_add(8);
    }

    /// LD A, (HL+): loads A from HL, then increments HL.
    pub fn ld_a_hl_inc(&mut self, mmu: &mut Mmu, timer: &mut Timer)
        requires
            old(mmu).can_read(old(self).hl()),
        ensures
            *final(mmu) == *old(mmu),
            *final(timer) == *old(timer),
            *final(self) == (Cpu {
                a: old(mmu).read_spec(*old(timer), old(self).hl()),
                ..old(self).with_hl(old(self).hl().wrapping_add(1)).with_cycles(8)
            }),
    {
        let hl = get_u16register(self.h, self.l);
        self.a = mmu.read_byte(hl, timer);
        let (high, low) = set_u16register(hl.wrapping_add(1));
        self.h = high;
        self.l = low;
        self.cycles = self.cycles.wrapping_add(8);
    }

    /// LD (HL-), A: stores A at HL, then decrements HL.
    pub fn ld_hl_dec_a(&mut self, mmu: &mut Mmu, timer: &mut Timer)
        requires
            old(mmu).can_write(old(self).hl()),
        ensures
            old(mmu).write_rel(*old(timer), old(self).hl(), old(self).a, *final(mmu), *final(timer)),
            *final(self) == old(self).with_hl(old(self).hl().wrapping_sub(1)).with_cycles(8),
    {
        let hl = get_u16register(self.h, self.l);
        mmu.write_byte(hl, self.a, timer);
        let (high, low) = set_u16register(hl.wrapping_sub(1));
        self.h = high;
        self.l = low;
        self.cycles = self.cycles.wrapping_add(8);
    }

    /// LD A, (HL-): loads A from HL, then decrements HL.
    pub fn ld_a_hl_dec(&mut self, mmu: &mut Mmu, timer: &mut Timer)
        requires
            old(mmu).can_read(old(self).hl()),
        ensures
            *final(mmu) == *old(mmu),
            *final(timer) == *old(timer),
            *final(self) == (Cpu {
                a: old(mmu).read_spec(*old(timer), old(self).hl()),
                ..old(self).with_hl(old(self).hl().wrapping_sub(1)).with_cycles(8)
            }),
    {
        let hl = get_u16register(self.h, self.l);
        self.a = mmu.read_byte(hl, timer);
        let (high, low) = set_u16register(hl.wrapping_sub(1));
        self.h = high;
        self.l = low;
        self.cycles = self.cycles.wrapping_add(8);
    }

    /// LD (HL), r8: stores `src` at HL.
    pub fn ld_mem_hl_r8(&mut self, mmu: &mut Mmu, timer: &mut Timer, src: u8)
        requires
            old(mmu).can_write(old(self).hl()),
        ensures
            old(mmu).write_rel(*old(timer), old(self).hl(), src, *final(mmu), *final(timer)),
            *final(self) == old(self).with_cycles(8),
    {
        let hl = get_u16register(self.h, self.l);
        mmu.write_byte(hl, src, timer);
        self.cycles = self.cycles.wrapping_add(8);
    }

    /// LD r8, (HL): gives the byte at HL.
    pub fn ld_r8_mem_hl(&mut self, mmu: &mut Mmu, timer: &mut Timer) -> (r: u8)
        requires
            old(mmu).can_read(old(self).hl()),
        ensures
            r == old(mmu).read_spec(*old(timer), old(self).hl()),
            *final(mmu) == *old(mmu),
            *final(timer) == *old(timer),
            *final(self) == old(self).with_cycles(8),
    {
        let hl = get_u16register(self.h, self.l);
        let data = mmu.read_byte(hl, timer);
        self.cycles = self.cycles.wrapping_add(8);
        data
    }

    /// ADD A, (HL): the operation with the byte at HL.
    pub fn alu_add_mem_hl(&mut self, mmu: &mut Mmu, timer: &mut Timer)
        requires
            old(mmu).can_read(old(self).hl()),
        ensures
            *final(mmu) == *old(mmu),
            *final(timer) == *old(timer),
            *final(self) == old(self).after_add(old(mmu).read_spec(*old(timer), old(self).hl())).with_cycles(8),
    {
        let hl = get_u16register(self.h, self.l);
        let value = mmu.read_byte(hl, timer);
        self.alu_add(value);
        self.cycles = self.cycles.wrapping_add(4);
    }

    /// SUB A, (HL): the operation with the byte at HL.
    pub fn alu_sub_mem_hl(&mut self, mmu: &mut Mmu, timer: &mut Timer)
        requires
            old(mmu).can_read(old(self).hl()),
        ensures
            *final(mmu) == *old(mmu),
            *final(timer) == *old(timer),
            *final(self) == old(self).after_sub(old(mmu).read_spec(*old(timer), old(self).hl())).with_cycles(8),
    {
        let hl = get_u16register(self.h, self.l);
        let value = mmu.read_byte(hl, timer);
        self.alu_sub(value);
        self.cycles = self.cycles.wrapping_add(4);
    }

    /// CP A, (HL): the operation with the byte at HL.
    pub fn alu_cp_mem_hl(&mut self, mmu: &mut Mmu, timer: &mut Timer)
        requires
            old(mmu).can_read(old(self).hl()),
        ensures
            *final(mmu) == *old(mmu),
            *final(timer) == *old(timer),
            *final(self) == old(self).after_cp(old(mmu).read_spec(*old(timer), old(self).hl())).with_cycles(8),
    {
        let hl = get_u16register(self.h, self.l);
        let value = mmu.read_byte(hl, timer);
        self.alu_cp(value);
        self.cycles = self.cycles.wrapping_add(4);
    }

    /// ADC A, (HL): the operation with the byte at HL.
    pub fn alu_adc_mem_hl(&mut self, mmu: &mut Mmu, timer: &mut Timer)
        requires
            old(mmu).can_read(old(self).hl()),
        ensures
            *final(mmu) == *old(mmu),
            *final(timer) == *old(timer),
            *final(self) == old(self).after_adc(old(mmu).read_spec(*old(timer), old(self).hl())).with_cycles(8),
    {
        let hl = get_u16register(self.h, self.l);
        let value = mmu.read_byte(hl, timer);
        self.alu_adc(value);
        self.cycles = self.cycles.wrapping_add(4);
    }

    /// SBC A, (HL): the operation with the byte at HL.
    pub fn alu_sbc_mem_hl(&mut self, mmu: &mut Mmu, timer: &mut Timer)
        requires
            old(mmu).can_read(old(self).hl()),
        ensures
            *final(mmu) == *old(mmu),
            *final(timer) == *old(timer),
            *final(self) == old(self).after_sbc(old(mmu).read_spec(*old(timer), old(self).hl())).with_cycles(8),
    {
        let hl = get_u16register(self.h, self.l);
        let value = mmu.read_byte(hl, timer);
        self.alu_sbc(value);
        self.cycles = self.cycles.wrapping_add(4);
    }

    /// AND A, (HL): the operation with the byte at HL.
    pub fn alu_and_mem_hl(&mut self, mmu: &mut Mmu, timer: &mut Timer)
        requires
            old(mmu).can_read(old(self).hl()),
        ensures
            *final(mmu) == *old(mmu),
            *final(timer) == *old(timer),
            *final(self) == old(self).after_and(old(mmu).read_spec(*old(timer), old(self).hl())).with_cycles(8),
    {
        let hl = get_u16register(self.h, self.l);
        let value = mmu.read_byte(hl, timer);
        self.alu_and(value);
        self.cycles = self.cycles.wrapping_add(4);
    }

    /// XOR A, (HL): the operation with the byte at HL.
    pub fn alu_xor_mem_hl(&mut self, mmu: &mut Mmu, timer: &mut Timer)
        requires
            old(mmu).can_read(old(self).hl()),
        ensures
            *final(mmu) == *old(mmu),
            *final(timer) == *old(timer),
            *final(self) == old(self).after_xor(old(mmu).read_spec(*old(timer), old(self).hl())).with_cycles(8),
    {
        let hl = get_u16register(self.h, self.l);
        let value = mmu.read_byte(hl, timer);
        self.alu_xor(value);
        self.cycles = self.cycles.wrapping_add(4);
    }

    /// OR A, (HL): the operation with the byte at HL.
    pub fn alu_or_mem_hl(&mut self, mmu: &mut Mmu, timer: &mut Timer)
        requires
            old(mmu).can_read(old(self).hl()),
        ensures
            *final(mmu) == *old(mmu),
            *final(timer) == *old(timer),
            *final(self) == old(self).after_or(old(mmu).read_spec(*old(timer), old(self).hl())).with_cycles(8),
    {
        let hl = get_u16register(self.h, self.l);
        let value = mmu.read_byte(hl, timer);
        self.alu_or(value);
        self.cycles = self.cycles.wrapping_add(4);
    }

    /// LD r16, n16: gives the 16-bit operand at PC and moves PC past it.
    pub fn ld_r16_imm16(&mut self, mmu: &mut Mmu, timer: &mut Timer) -> (r: u16)
        requires
            old(mmu).can_read(old(self).pc),
            old(mmu).can_read(old(self).pc.wrapping_add(1)),
        ensures
            r == old(self).imm16(*old(mmu), *old(timer)),
            *final(mmu) == *old(mmu),
            *final(timer) == *old(timer),
            *final(self) == (Cpu { pc: old(self).pc.wrapping_add(2), ..old(self).with_cycles(12) }),
    {
        let value_low = mmu.read_byte(self.pc, timer);
        self.pc = self.pc.wrapping_add(1);
        let value_high = mmu.read_byte(self.pc, timer);
        let final_value = get_u16register(value_high, value_low);
        self.pc = self.pc.wrapping_add(1);
        self.cycles = self.cycles.wrapping_add(12);
        final_value
    }

    /// LD r8, n8: gives the byte at PC and moves PC past it.
    pub fn ld_r8_imm8(&mut self, mmu: &mut Mmu, timer: &mut Timer) -> (r: u8)
        requires
            old(mmu).can_read(old(self).pc),
        ensures
            r == old(mmu).read_spec(*old(timer), old(self).pc),
            *final(mmu) == *old(mmu),
            *final(timer) == *old(timer),
            *final(self) == (Cpu { pc: old(self).pc.wrapping_add(1), ..old(self).with_cycles(8) }),
    {
        let value = mmu.read_byte(self.pc, timer);
        self.pc = self.pc.wrapping_add(1);
        self.cycles = self.cycles.wrapping_add(8);
        value
    }

    /// JR cond, e8: reads the signed offset at PC and moves PC past it; when
    /// `condition` holds, PC then moves by the offset.
    pub fn jr_cond(&mut self, condition: bool, mmu: &mut Mmu, timer: &mut Timer)
        requires
            old(mmu).can_read(old(self).pc),
        ensures
            *final(mmu) == *old(mmu),
            *final(timer) == *old(timer),
            ({
                let next = old(self).pc.wrapping_add(1);
                let offset = old(mmu).read_spec(*old(timer), old(self).pc);
                *final(self) == (if condition {
                    Cpu { pc: offset_u16(next, offset), ..old(self).with_cycles(12) }
                } else {
                    Cpu { pc: next, ..old(self).with_cycles(8) }
                })
            }),
    {
        let offset_raw = mmu.read_byte(self.pc, timer);
        self.pc = self.pc.wrapping_add(1);
        if condition {
            self.pc = add_signed_offset(self.pc, offset_raw);
            self.cycles = self.cycles.wrapping_add(12);
        } else {
            self.cycles = self.cycles.wrapping_add(8);
        }
    }

    /// POP r16: gives the 16-bit value at SP (low byte first) and moves SP
    /// up by two.
    pub fn pop_r16(&mut self, mmu: &mut Mmu, timer: &mut Timer) -> (r: u16)
        requires
            old(mmu).can_read(old(self).sp),
            old(mmu).can_read(old(self).sp.wrapping_add(1)),
        ensures
            r == pair_value(
                old(mmu).read_spec(*old(timer), old(self).sp.wrapping_add(1)),
                old(mmu).read_spec(*old(timer), old(self).sp),
            ),
            *final(mmu) == *old(mmu),
            *final(timer) == *old(timer),
            *final(self) == (Cpu { sp: old(self).sp.wrapping_add(2), ..old(self).with_cycles(12) }),
    {
        let low = mmu.read_byte(self.sp, timer);
        self.sp = self.sp.wrapping_add(1);
        let high = mmu.read_byte(self.sp, timer);
        self.sp = self.sp.wrapping_add(1);
        self.cycles = self.cycles.wrapping_add(12);
        get_u16register(high, low)
    }

    /// PUSH r16: stores `high` below SP and `low` below that, moving SP down
    /// by two.
    pub fn push_r16(&mut self, high: u8, low: u8, mmu: &mut Mmu, timer: &mut Timer)
        requires
            old(mmu).can_write(old(self).sp.wrapping_sub(1)),
            old(mmu).can_write(old(self).sp.wrapping_sub(2)),
        ensures
            old(mmu).write2_rel(*old(timer), old(self).sp.wrapping_sub(1), high,
                old(self).sp.wrapping_sub(2), low, *final(mmu), *final(timer)),
            *final(self) == (Cpu { sp: old(self).sp.wrapping_sub(2), ..old(self).with_cycles(16) }),
    {
        self.sp = self.sp.wrapping_sub(1);
        let ghost m0 = *mmu;
        let ghost t0 = *timer;
        mmu.write_byte(self.sp, high, timer);
        proof { lemma_write_keeps_writable(m0, t0, self.sp, high, *mmu, *timer); }
        let ghost m1 = *mmu;
        let ghost t1 = *timer;
        self.sp = self.sp.wrapping_sub(1);
        mmu.write_byte(self.sp, low, timer);
        assert(m0.write_rel(t0, old(self).sp.wrapping_sub(1), high, m1, t1));
        self.cycles = self.cycles.wrapping_add(16);
    }

    /// PUSH AF: pushes A and the four flag bits of F.
    pub fn push_af(&mut self, mmu: &mut Mmu, timer: &mut Timer)
        requires
            old(mmu).can_write(old(self).sp.wrapping_sub(1)),
            old(mmu).can_write(old(self).sp.wrapping_sub(2)),
        ensures
            old(mmu).write2_rel(*old(timer), old(self).sp.wrapping_sub(1), old(self).a,
                old(self).sp.wrapping_sub(2), old(self).f & 0xF0, *final(mmu), *final(timer)),
            *final(self) == (Cpu { sp: old(self).sp.wrapping_sub(2), ..old(self).with_cycles(16) }),
    {
        let high = self.a;
        let low = self.f & 0xF0;
        self.push_r16(high, low, mmu, timer);
    }

    /// RET: pops PC.
    pub fn ret_incond(&mut self, mmu: &mut Mmu, timer: &mut Timer)
        requires
            old(mmu).can_read(old(self).sp),
            old(mmu).can_read(old(self).sp.wrapping_add(1)),
        ensures
            *final(mmu) == *old(mmu),
            *final(timer) == *old(timer),
            *final(self) == (Cpu {
                pc: pair_value(
                    old(mmu).read_spec(*old(timer), old(self).sp.wrapping_add(1)),
                    old(mmu).read_spec(*old(timer), old(self).sp),
                ),
                sp: old(self).sp.wrapping_add(2),
                ..old(self).with_cycles(16)
            }),
    {
        self.pc = self.pop_r16(mmu, timer);
        self.cycles = self.cycles.wrapping_add(4);
    }

    /// RET cond: returns when `condition` holds.
    pub fn ret_cond(&mut self, condition: bool, mmu: &mut Mmu, timer: &mut Timer)
        requires
            condition ==> old(mmu).can_read(old(self).sp),
            condition ==> old(mmu).can_read(old(self).sp.wrapping_add(1)),
        ensures
            *final(mmu) == *old(mmu),
            *final(timer) == *old(timer),
            *final(self) == (if condition {
                Cpu {
                    pc: pair_value(
                        old(mmu).read_spec(*old(timer), old(self).sp.wrapping_add(1)),
                        old(mmu).read_spec(*old(timer), old(self).sp),
                    ),
                    sp: old(self).sp.wrapping_add(2),
                    ..old(self).with_cycles(20)
                }
            } else {
                old(self).with_cycles(8)
            }),
    {
        if condition {
            self.ret_incond(mmu, timer);
            self.cycles = self.cycles.wrapping_add(4);
        } else {
            self.cycles = self.cycles.wrapping_add(8);
        }
    }

    /// RETI: returns and sets IME.
    pub fn reti(&mut self, mmu: &mut Mmu, timer: &mut Timer)
        requires
            old(mmu).can_read(old(self).sp),
            old(mmu).can_read(old(self).sp.wrapping_add(1)),
        ensures
            *final(mmu) == *old(mmu),
            *final(timer) == *old(timer),
            *final(self) == (Cpu {
                pc: pair_value(
                    old(mmu).read_spec(*old(timer), old(self).sp.wrapping_add(1)),
                    old(mmu).read_spec(*old(timer), old(self).sp),
                ),
                sp: old(self).sp.wrapping_add(2),
                ime: true,
                ..old(self).with_cycles(16)
            }),
    {
        self.ret_incond(mmu, timer);
        self.ime = true;
    }

    /// JP cond, n16: reads the address at PC and moves PC past it; when
    /// `condition` holds, jumps there.
    pub fn jp_cond(&mut self, condition: bool, mmu: &mut Mmu, timer: &mut Timer)
        requires
            old(mmu).can_read(old(self).pc),
            old(mmu).can_read(old(self).pc.wrapping_add(1)),
        ensures
            *final(mmu) == *old(mmu),
            *final(timer) == *old(timer),
            *final(self) == (if condition {
                Cpu { pc: old(self).imm16(*old(mmu), *old(timer)), ..old(self).with_cycles(16) }
            } else {
                Cpu { pc: old(self).pc.wrapping_add(2), ..old(self).with_cycles(12) }
            }),
    {
        let addr_low = mmu.read_byte(self.pc, timer);
        self.pc = self.pc.wrapping_add(1);
        let addr_high = mmu.read_byte(self.pc, timer);
        self.pc = self.pc.wrapping_add(1);
        let addr = get_u16register(addr_high, addr_low);
        if condition {
            self.pc = addr;
            self.cycles = self.cycles.wrapping_add(16);
        } else {
            self.cycles = self.cycles.wrapping_add(12);
        }
    }

    /// JP n16: jumps to the address at PC.
    pub fn jp(&mut self, mmu: &mut Mmu, timer: &mut Timer)
        requires
            old(mmu).can_read(old(self).pc),
            old(mmu).can_read(old(self).pc.wrapping_add(1)),
        ensures
            *final(mmu) == *old(mmu),
            *final(timer) == *old(timer),
            *final(self) == (Cpu { pc: old(self).imm16(*old(mmu), *old(timer)), ..old(self).with_cycles(16) }),
    {
        let addr_low = mmu.read_byte(self.pc, timer);
        self.pc = self.pc.wrapping_add(1);
        let addr_high = mmu.read_byte(self.pc, timer);
        self.pc = self.pc.wrapping_add(1);
        let addr = get_u16register(addr_high, addr_low);
        self.pc = addr;
        self.cycles = self.cycles.wrapping_add(16);
    }

    /// CALL n16: reads the address at PC, pushes the address after the
    /// operand and jumps.
    pub fn call(&mut self, mmu: &mut Mmu, timer: &mut Timer)
        requires
            old(mmu).can_read(old(self).pc),
            old(mmu).can_read(old(self).pc.wrapping_add(1)),
            old(mmu).can_write(old(self).sp.wrapping_sub(1)),
            old(mmu).can_write(old(self).sp.wrapping_sub(2)),
        ensures
            ({
                let ret = old(self).pc.wrapping_add(2);
                &&& old(mmu).write2_rel(*old(timer), old(self).sp.wrapping_sub(1), high_byte(ret),
                    old(self).sp.wrapping_sub(2), low_byte(ret), *final(mmu), *final(timer))
                &&& *final(self) == (Cpu {
                    pc: old(self).imm16(*old(mmu), *old(timer)),
                    sp: old(self).sp.wrapping_sub(2),
                    ..old(self).with_cycles(24)
                })
            }),
    {
        let addr_low = mmu.read_byte(self.pc, timer);
        self.pc = self.pc.wrapping_add(1);
        let addr_high = mmu.read_byte(self.pc, timer);
        self.pc = self.pc.wrapping_add(1);
        let addr = get_u16register(addr_high, addr_low);
        let (pc_high, pc_low) = set_u16register(self.pc);
        self.push_r16(pc_high, pc_low, mmu, timer);
        self.pc = addr;
        self.cycles = self.cycles.wrapping_add(8);
    }

    /// CALL cond, n16: calls when `condition` holds, else skips the operand.
    pub fn call_cond(&mut self, condition: bool, mmu: &mut Mmu, timer: &mut Timer)
        requires
            condition ==> old(mmu).can_read(old(self).pc),
            condition ==> old(mmu).can_read(old(self).pc.wrapping_add(1)),
            condition ==> old(mmu).can_write(old(self).sp.wrapping_sub(1)),
            condition ==> old(mmu).can_write(old(self).sp.wrapping_sub(2)),
        ensures
            condition ==> ({
                let ret = old(self).pc.wrapping_add(2);
                &&& old(mmu).write2_rel(*old(timer), old(self).sp.wrapping_sub(1), high_byte(ret),
                    old(self).sp.wrapping_sub(2), low_byte(ret), *final(mmu), *final(timer))
                &&& *final(self) == (Cpu {
                    pc: old(self).imm16(*old(mmu), *old(timer)),
                    sp: old(self).sp.wrapping_sub(2),
                    ..old(self).with_cycles(24)
                })
            }),
            !condition ==> *final(mmu) == *old(mmu) && *final(timer) == *old(timer)
                && *final(self) == (Cpu { pc: old(self).pc.wrapping_add(2), ..old(self).with_cycles(12) }),
    {
        if condition {
            self.call(mmu, timer);
        } else {
            self.pc = self.pc.wrapping_add(2);
            self.cycles = self.cycles.wrapping_add(12);
        }
    }

    /// RST n: pushes PC and jumps to `target_addr`.
    pub fn rst(&mut self, target_addr: u16, mmu: &mut Mmu, timer: &mut Timer)
        requires
            old(mmu).can_write(old(self).sp.wrapping_sub(1)),
            old(mmu).can_write(old(self).sp.wrapping_sub(2)),
        ensures
            old(mmu).write2_rel(*old(timer), old(self).sp.wrapping_sub(1), high_byte(old(self).pc),
                old(self).sp.wrapping_sub(2), low_byte(old(self).pc), *final(mmu), *final(timer)),
            *final(self) == (Cpu {
                pc: target_addr,
                sp: old(self).sp.wrapping_sub(2),
                ..old(self).with_cycles(16)
            }),
    {
        let (pc_high, pc_low) = set_u16register(self.pc);
        self.push_r16(pc_high, pc_low, mmu, timer);
        self.pc = target_addr;
    }

    /// ADD A, n8: the operation with the byte at PC; PC moves past it.
    pub fn add_a_imm8(&mut self, mmu: &mut Mmu, timer: &mut Timer)
        requires
            old(mmu).can_read(old(self).pc),
        ensures
            *final(mmu) == *old(mmu),
            *final(timer) == *old(timer),
            *final(self) == (Cpu {
                pc: old(self).pc.wrapping_add(1),
                ..old(self).after_add(old(mmu).read_spec(*old(timer), old(self).pc)).with_cycles(8)
            }),
    {
        let value = mmu.read_byte(self.pc, timer);
        self.alu_add(value);
        self.pc = self.pc.wrapping_add(1);
        self.cycles = self.cycles.wrapping_add(4);
    }

    /// ADC A, n8: the operation with the byte at PC; PC moves past it.
    pub fn adc_a_imm8(&mut self, mmu: &mut Mmu, timer: &mut Timer)
        requires
            old(mmu).can_read(old(self).pc),
        ensures
            *final(mmu) == *old(mmu),
            *final(timer) == *old(timer),
            *final(self) == (Cpu {
                pc: old(self).pc.wrapping_add(1),
                ..old(self).after_adc(old(mmu).read_spec(*old(timer), old(self).pc)).with_cycles(8)
            }),
    {
        let value = mmu.read_byte(self.pc, timer);
        self.alu_adc(value);
        self.pc = self.pc.wrapping_add(1);
        self.cycles = self.cycles.wrapping_add(4);
    }

    /// SUB A, n8: the operation with the byte at PC; PC moves past it.
    pub fn sub_a_imm8(&mut self, mmu: &mut Mmu, timer: &mut Timer)
        requires
            old(mmu).can_read(old(self).pc),
        ensures
            *final(mmu) == *old(mmu),
            *final(timer) == *old(timer),
            *final(self) == (Cpu {
                pc: old(self).pc.wrapping_add(1),
                ..old(self).after_sub(old(mmu).read_spec(*old(timer), old(self).pc)).with_cycles(8)
            }),
    {
        let value = mmu.read_byte(self.pc, timer);
        self.alu_sub(value);
        self.pc = self.pc.wrapping_add(1);
        self.cycles = self.cycles.wrapping_add(4);
    }

    /// SBC A, n8: the operation with the byte at PC; PC moves past it.
    pub fn sbc_a_imm8(&mut self, mmu: &mut Mmu, timer: &mut Timer)
        requires
            old(mmu).can_read(old(self).pc),
        ensures
            *final(mmu) == *old(mmu),
            *final(timer) == *old(timer),
            *final(self) == (Cpu {
                pc: old(self).pc.wrapping_add(1),
                ..old(self).after_sbc(old(mmu).read_spec(*old(timer), old(self).pc)).with_cycles(8)
            }),
    {
        let value = mmu.read_byte(self.pc, timer);
        self.alu_sbc(value);
        self.pc = self.pc.wrapping_add(1);
        self.cycles = self.cycles.wrapping_add(4);
    }

    /// AND A, n8: the operation with the byte at PC; PC moves past it.
    pub fn and_a_imm8(&mut self, mmu: &mut Mmu, timer: &mut Timer)
        requires
            old(mmu).can_read(old(self).pc),
        ensures
            *final(mmu) == *old(mmu),
            *final(timer) == *old(timer),
            *final(self) == (Cpu {
                pc: old(self).pc.wrapping_add(1),
                ..old(self).after_and(old(mmu).read_spec(*old(timer), old(self).pc)).with_cycles(8)
            }),
    {
        let value = mmu.read_byte(self.pc, timer);
        self.alu_and(value);
        self.pc = self.pc.wrapping_add(1);
        self.cycles = self.cycles.wrapping_add(4);
    }

    /// XOR A, n8: the operation with the byte at PC; PC moves past it.
    pub fn xor_a_imm8(&mut self, mmu: &mut Mmu, timer: &mut Timer)
        requires
            old(mmu).can_read(old(self).pc),
        ensures
            *final(mmu) == *old(mmu),
            *final(timer) == *old(timer),
            *final(self) == (Cpu {
                pc: old(self).pc.wrapping_add(1),
                ..old(self).after_xor(old(mmu).read_spec(*old(timer), old(self).pc)).with_cycles(8)
            }),
    {
        let value = mmu.read_byte(self.pc, timer);
        self.alu_xor(value);
        self.pc = self.pc.wrapping_add(1);
        self.cycles = self.cycles.wrapping_add(4);
    }

    /// OR A, n8: the operation with the byte at PC; PC moves past it.
    pub fn or_a_imm8(&mut self, mmu: &mut Mmu, timer: &mut Timer)
        requires
            old(mmu).can_read(old(self).pc),
        ensures
            *final(mmu) == *old(mmu),
            *final(timer) == *old(timer),
            *final(self) == (Cpu {
                pc: old(self).pc.wrapping_add(1),
                ..old(self).after_or(old(mmu).read_spec(*old(timer), old(self).pc)).with_cycles(8)
            }),
    {
        let value = mmu.read_byte(self.pc, timer);
        self.alu_or(value);
        self.pc = self.pc.wrapping_add(1);
        self.cycles = self.cycles.wrapping_add(4);
    }

    /// CP A, n8: the operation with the byte at PC; PC moves past it.
    pub fn cp_a_imm8(&mut self, mmu: &mut Mmu, timer: &mut Timer)
        requires
            old(mmu).can_read(old(self).pc),
        ensures
            *final(mmu) == *old(mmu),
            *final(timer) == *old(timer),
            *final(self) == (Cpu {
                pc: old(self).pc.wrapping_add(1),
                ..old(self).after_cp(old(mmu).read_spec(*old(timer), old(self).pc)).with_cycles(8)
            }),
    {
        let value = mmu.read_byte(self.pc, timer);
        self.alu_cp(value);
        self.pc = self.pc.wrapping_add(1);
        self.cycles = self.cycles.wrapping_add(4);
    }

    /// ADD SP, e8: adds the signed offset at PC to SP; Z and N cleared, H and
    /// C from the unsigned addition of the offset to the low byte of SP.
    pub fn add_sp_e8(&mut self, mmu: &mut Mmu, timer: &mut Timer)
        requires
            old(mmu).can_read(old(self).pc),
        ensures
            *final(mmu) == *old(mmu),
            *final(timer) == *old(timer),
            ({
                let raw = old(mmu).read_spec(*old(timer), old(self).pc);
                *final(self) == (Cpu {
                    pc: old(self).pc.wrapping_add(1),
                    sp: offset_u16(old(self).sp, raw),
                    f: old(self).f_with(
                        false,
                        false,
                        (old(self).sp % 16) + (raw % 16) > 0x0F,
                        (old(self).sp % 256) + raw > 0xFF,
                    ),
                    ..old(self).with_cycles(16)
                })
            }),
    {
        let raw_offset = mmu.read_byte(self.pc, timer);
        self.pc = self.pc.wrapping_add(1);
        let result = add_signed_offset(self.sp, raw_offset);
        self.set_flag_z(false);
        self.set_flag_n(false);
        let sp_low = self.sp as u32;
        let byte_val = raw_offset as u32;
        proof { lemma_offset_bits(sp_low, byte_val); }
        self.set_flag_h(((sp_low & 0x0F) + (byte_val & 0x0F)) > 0x0F);
        self.set_flag_c(((sp_low & 0xFF) + (byte_val & 0xFF)) > 0xFF);
        self.sp = result;
        self.cycles = self.cycles.wrapping_add(16);
    }

    /// LDH (n8), A: stores A at 0xFF00 plus the byte at PC.
    pub fn ldh_mem8_a(&mut self, mmu: &mut Mmu, timer: &mut Timer)
        requires
            old(mmu).can_read(old(self).pc),
        ensures
            old(mmu).write_rel(*old(timer), (0xFF00 + old(mmu).read_spec(*old(timer), old(self).pc)) as u16,
                old(self).a, *final(mmu), *final(timer)),
            *final(self) == (Cpu { pc: old(self).pc.wrapping_add(1), ..old(self).with_cycles(12) }),
    {
        let offset = mmu.read_byte(self.pc, timer) as u16;
        self.pc = self.pc.wrapping_add(1);
        proof { lemma_high_page(offset); }
        mmu.write_byte(0xFF00 | offset, self.a, timer);
        self.cycles = self.cycles.wrapping_add(12);
    }

    /// LDH A, (n8): loads A from 0xFF00 plus the byte at PC.
    pub fn ldh_a_mem8(&mut self, mmu: &mut Mmu, timer: &mut Timer)
        requires
            old(mmu).can_read(old(self).pc),
        ensures
            *final(mmu) == *old(mmu),
            *final(timer) == *old(timer),
            *final(self) == (Cpu {
                a: old(mmu).read_spec(*old(timer), (0xFF00 + old(mmu).read_spec(*old(timer), old(self).pc)) as u16),
                pc: old(self).pc.wrapping_add(1),
                ..old(self).with_cycles(12)
            }),
    {
        let offset = mmu.read_byte(self.pc, timer) as u16;
        self.pc = self.pc.wrapping_add(1);
        proof { lemma_high_page(offset); }
        self.a = mmu.read_byte(0xFF00 | offset, timer);
        self.cycles = self.cycles.wrapping_add(12);
    }

    /// LD (C), A: stores A at 0xFF00 plus C.
    pub fn ld_mem_c_a(&mut self, mmu: &mut Mmu, timer: &mut Timer)
        ensures
            old(mmu).write_rel(*old(timer), (0xFF00 + old(self).c) as u16, old(self).a, *final(mmu), *final(timer)),
            *final(self) == old(self).with_cycles(8),
    {
        let c = self.c as u16;
        proof { lemma_high_page(c); }
        let addr = 0xFF00 | c;
        mmu.write_byte(addr, self.a, timer);
        self.cycles = self.cycles.wrapping_add(8);
    }

    /// LD A, (C): loads A from 0xFF00 plus C.
    pub fn ld_a_mem_c(&mut self, mmu: &mut Mmu, timer: &mut Timer)
        ensures
            *final(mmu) == *old(mmu),
            *final(timer) == *old(timer),
            *final(self) == (Cpu {
                a: old(mmu).read_spec(*old(timer), (0xFF00 + old(self).c) as u16),
                ..old(self).with_cycles(8)
            }),
    {
        let c = self.c as u16;
        proof { lemma_high_page(c); }
        let addr = 0xFF00 | c;
        self.a = mmu.read_byte(addr, timer);
        self.cycles = self.cycles.wrapping_add(8);
    }

    /// LD (n16), A: stores A at the address at PC.
    pub fn ld_mem16_a(&mut self, mmu: &mut Mmu, timer: &mut Timer)
        requires
            old(mmu).can_read(old(self).pc),
            old(mmu).can_read(old(self).pc.wrapping_add(1)),
            old(mmu).can_write(old(self).imm16(*old(mmu), *old(timer))),
        ensures
            old(mmu).write_rel(*old(timer), old(self).imm16(*old(mmu), *old(timer)), old(self).a,
                *final(mmu), *final(timer)),
            *final(self) == (Cpu { pc: old(self).pc.wrapping_add(2), ..old(self).with_cycles(16) }),
    {
        let low = mmu.read_byte(self.pc, timer);
        self.pc = self.pc.wrapping_add(1);
        let high = mmu.read_byte(self.pc, timer);
        self.pc = self.pc.wrapping_add(1);
        let addr = get_u16register(high, low);
        mmu.write_byte(addr, self.a, timer);
        self.cycles = self.cycles.wrapping_add(16);
    }

    /// LD A, (n16): loads A from the address at PC.
    pub fn ld_a_mem16(&mut self, mmu: &mut Mmu, timer: &mut Timer)
        requires
            old(mmu).can_read(old(self).pc),
            old(mmu).can_read(old(self).pc.wrapping_add(1)),
            old(mmu).can_read(old(self).imm16(*old(mmu), *old(timer))),
        ensures
            *final(mmu) == *old(mmu),
            *final(timer) == *old(timer),
            *final(self) == (Cpu {
                a: old(mmu).read_spec(*old(timer), old(self).imm16(*old(mmu), *old(timer))),
                pc: old(self).pc.wrapping_add(2),
                ..old(self).with_cycles(16)
            }),
    {
        let low = mmu.read_byte(self.pc, timer);
        self.pc = self.pc.wrapping_add(1);
        let high = mmu.read_byte(self.pc, timer);
        self.pc = self.pc.wrapping_add(1);
        let addr = get_u16register(high, low);
        self.a = mmu.read_byte(addr, timer);
        self.cycles = self.cycles.wrapping_add(16);
    }

    /// LD HL, SP+e8: HL takes SP plus the signed offset at PC; flags as for ADD SP, e8.
    pub fn ld_hl_sp_e8(&mut self, mmu: &mut Mmu, timer: &mut Timer)
        requires
            old(mmu).can_read(old(self).pc),
        ensures
            *final(mmu) == *old(mmu),
            *final(timer) == *old(timer),
            ({
                let raw = old(mmu).read_spec(*old(timer), old(self).pc);
                *final(self) == (Cpu {
                    pc: old(self).pc.wrapping_add(1),
                    f: old(self).f_with(
                        false,
                        false,
                        (old(self).sp % 16) + (raw % 16) > 0x0F,
                        (old(self).sp % 256) + raw > 0xFF,
                    ),
                    ..old(self).with_hl(offset_u16(old(self).sp, raw)).with_cycles(12)
                })
            }),
    {
        let raw_offset = mmu.read_byte(self.pc, timer);
        self.pc = self.pc.wrapping_add(1);
        let result = add_signed_offset(self.sp, raw_offset);
        self.set_flag_z(false);
        self.set_flag_n(false);
        let sp_low = self.sp as u32;
        let byte_val = raw_offset as u32;
        proof { lemma_offset_bits(sp_low, byte_val); }
        self.set_flag_h(((sp_low & 0x0F) + (byte_val & 0x0F)) > 0x0F);
        self.set_flag_c(((sp_low & 0xFF) + (byte_val & 0xFF)) > 0xFF);
        let (high, low) = set_u16register(result);
        self.h = high;
        self.l = low;
        self.cycles = self.cycles.wrapping_add(12);
    }

    /// CB prefix: executes the prefixed operation whose opcode is the byte at
    /// PC, then moves PC past it.
    pub fn cb(&mut self, mmu: &mut Mmu, timer: &mut Timer)
        requires
            old(mmu).can_read(old(self).pc),
            old(self).cb_can(*old(mmu), *old(timer), old(mmu).read_spec(*old(timer), old(self).pc)),
        ensures
            ({
                let op = old(mmu).read_spec(*old(timer), old(self).pc);
                let after = old(self).cb_cpu(*old(mmu), *old(timer), op);
                &&& *final(self) == (Cpu { pc: after.pc.wrapping_add(1), ..after.with_cycles(8) })
                &&& old(self).cb_mem(*old(mmu), *old(timer), op, *final(mmu), *final(timer))
            }),
    {
        let opcode = mmu.read_byte(self.pc, timer);
        self.cb_prefixed(opcode, mmu, timer);
        self.pc = self.pc.wrapping_add(1);
        self.cycles = self.cycles.wrapping_add(8);
    }
}

} // verus!
