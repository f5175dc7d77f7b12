//! Instructions behind the 0xCB prefix: rotations, shifts, nibble swap and
//! single-bit test, reset and set.
use vstd::prelude::*;
use crate::cpu::{
    Cpu, group_flags, rotate_left, rotate_right, rotate_left_through, rotate_right_through,
    lemma_bit7, lemma_bit0,
};
use crate::register_pair::get_u16register;
use crate::mmu::{Mmu, lemma_readable_writable};
use crate::timer::Timer;

verus! {

broadcast use group_flags;

/// Arithmetic shift right: bit 7 is kept.
pub open spec fn shift_right_arith(v: u8) -> u8 {
    ((v >> 1u8) | (v & 0x80)) as u8
}

/// Exchange of the two nibbles.
pub open spec fn swap_nibbles(v: u8) -> u8 {
    ((v >> 4u8) | (v << 4u8)) as u8
}

/// The single-bit mask of bit `bit`.
pub open spec fn bit_mask(bit: u8) -> u8 {
    (1u8 << bit) as u8
}

/// The result of the rotation or shift `y` (RLC, RRC, RL, RR, SLA, SRA,
/// SWAP, SRL) of `v`, the carry entering being `carry`.
pub open spec fn shift_result(y: u8, v: u8, carry: bool) -> u8 {
    if y == 0 {
        rotate_left(v)
    } else if y == 1 {
        rotate_right(v)
    } else if y == 2 {
        rotate_left_through(v, carry)
    } else if y == 3 {
        rotate_right_through(v, carry)
    } else if y == 4 {
        (v << 1u8) as u8
    } else if y == 5 {
        shift_right_arith(v)
    } else if y == 6 {
        swap_nibbles(v)
    } else {
        v >> 1u8
    }
}

/// The carry out of the rotation or shift `y` of `v`.
pub open spec fn shift_carry(y: u8, v: u8) -> bool {
    if y == 0 || y == 2 || y == 4 {
        v >= 0x80
    } else if y == 6 {
        false
    } else {
        v % 2 == 1
    }
}

/// The byte that the prefixed operation `op` makes of `v`: a rotation or
/// shift (`op` below 0x40), a bit test (0x40-0x7F, the value stays), a bit
/// reset (0x80-0xBF) or a bit set (0xC0-0xFF), on bit `(op / 8) % 8`.
pub open spec fn cb_result(op: u8, v: u8, carry: bool) -> u8 {
    let y = ((op / 8) % 8) as u8;
    if op < 0x40 {
        shift_result(y, v, carry)
    } else if op < 0x80 {
        v
    } else if op < 0xC0 {
        v & !bit_mask(y)
    } else {
        v | bit_mask(y)
    }
}

impl Cpu {
    /// F after the prefixed operation `op` on `v`.
    pub open spec fn cb_flags(self, op: u8, v: u8) -> u8 {
        let y = ((op / 8) % 8) as u8;
        if op < 0x40 {
            self.f_after_shift(shift_result(y, v, self.flag_c()), shift_carry(y, v))
        } else if op < 0x80 {
            self.f_with(v & bit_mask(y) == 0, false, true, self.flag_c())
        } else {
            self.f
        }
    }

    /// The 8-bit register with index `r` in the instruction encoding:
    /// B, C, D, E, H, L, (HL), A for 0 to 7; (HL) is not a register.
    pub open spec fn reg8(self, r: u8) -> u8 {
        if r == 0 {
            self.b
        } else if r == 1 {
            self.c
        } else if r == 2 {
            self.d
        } else if r == 3 {
            self.e
        } else if r == 4 {
            self.h
        } else if r == 5 {
            self.l
        } else {
            self.a
        }
    }

    /// The processor with register `r` (not 6) set to `v`.
    pub open spec fn with_reg8(self, r: u8, v: u8) -> Cpu {
        if r == 0 {
            Cpu { b: v, ..self }
        } else if r == 1 {
            Cpu { c: v, ..self }
        } else if r == 2 {
            Cpu { d: v, ..self }
        } else if r == 3 {
            Cpu { e: v, ..self }
        } else if r == 4 {
            Cpu { h: v, ..self }
        } else if r == 5 {
            Cpu { l: v, ..self }
        } else {
            Cpu { a: v, ..self }
        }
    }

    /// Whether the prefixed operation `op` can run: its operand at HL, when
    /// it has one, must be readable.
    pub open spec fn cb_can(self, m: Mmu, t: Timer, op: u8) -> bool {
        op % 8 == 6 ==> m.can_read(self.hl())
    }

    /// The processor after the prefixed operation `op` (without the cycles
    /// and PC step of the prefix itself).
    pub open spec fn cb_cpu(self, m: Mmu, t: Timer, op: u8) -> Cpu {
        let r = (op % 8) as u8;
        if r == 6 {
            let v = m.read_spec(t, self.hl());
            Cpu {
                f: self.cb_flags(op, v),
                ..self.with_cycles(
                    if 0x40 <= op < 0x80 {
                        4
                    } else {
                        8
                    },
                )
            }
        } else {
            let v = self.reg8(r);
            let flagged = Cpu { f: self.cb_flags(op, v), ..self };
            if 0x40 <= op < 0x80 {
                flagged
            } else {
                flagged.with_reg8(r, cb_result(op, v, self.flag_c()))
            }
        }
    }

    /// The memory and timer after the prefixed operation `op`: only the
    /// operations on (HL) other than BIT write, their result to HL.
    pub open spec fn cb_mem(self, m0: Mmu, t0: Timer, op: u8, m1: Mmu, t1: Timer) -> bool {
        if op % 8 == 6 && !(0x40 <= op < 0x80) {
            m0.write_rel(
                t0,
                self.hl(),
                cb_result(op, m0.read_spec(t0, self.hl()), self.flag_c()),
                m1,
                t1,
            )
        } else {
            m1 == m0 && t1 == t0
        }
    }

    /// F after a rotation or shift with result `res` and carry out `carry`.
    pub open spec fn f_after_shift(self, res: u8, carry: bool) -> u8 {
        self.f_with(res == 0, false, false, carry)
    }

    /// RLC r8: rotation left; bit 7 goes to bit 0 and to the carry.
    pub fn rlc_r8(&mut self, val: u8) -> (r: u8)
        ensures
            r == rotate_left(val),
            *final(self) == (Cpu { f: old(self).f_after_shift(r, val >= 0x80), ..*old(self) }),
    {
        let bit_7 = (val >> 7) & 0x01;
        proof { lemma_bit7(val, bit_7); }
        let res = (val << 1) | bit_7;
        self.set_flag_z(res == 0);
        self.set_flag_n(false);
        self.set_flag_h(false);
        self.set_flag_c(bit_7 == 1);
        res
    }

    /// RRC r8: rotation right; bit 0 goes to bit 7 and to the carry.
    pub fn rrc_r8(&mut self, val: u8) -> (r: u8)
        ensures
            r == rotate_right(val),
            *final(self) == (Cpu { f: old(self).f_after_shift(r, val % 2 == 1), ..*old(self) }),
    {
        let bit_0 = val & 0x01;
        proof { lemma_bit0(val, bit_0); }
        let res = (val >> 1) | (bit_0 << 7);
        self.set_flag_z(res == 0);
        self.set_flag_n(false);
        self.set_flag_h(false);
        self.set_flag_c(bit_0 == 1);
        res
    }

    /// RL r8: rotation left through the carry.
    pub fn rl_r8(&mut self, val: u8) -> (r: u8)
        ensures
            r == rotate_left_through(val, old(self).flag_c()),
            *final(self) == (Cpu { f: old(self).f_after_shift(r, val >= 0x80), ..*old(self) }),
    {
        let bit_7 = (val >> 7) & 0x01;
        proof { lemma_bit7(val, bit_7); }
        let c: u8 = if self.get_flag_c() { 1 } else { 0 };
        let res = (val << 1) | c;
        self.set_flag_z(res == 0);
        self.set_flag_n(false);
        self.set_flag_h(false);
        self.set_flag_c(bit_7 == 1);
        res
    }

    /// RR r8: rotation right through the carry.
    pub fn rr_r8(&mut self, val: u8) -> (r: u8)
        ensures
            r == rotate_right_through(val, old(self).flag_c()),
            *final(self) == (Cpu { f: old(self).f_after_shift(r, val % 2 == 1), ..*old(self) }),
    {
        let bit_0 = val & 0x01;
        proof { lemma_bit0(val, bit_0); }
        let c: u8 = if self.get_flag_c() { 0x80 } else { 0 };
        let res = (val >> 1) | c;
        self.set_flag_z(res == 0);
        self.set_flag_n(false);
        self.set_flag_h(false);
        self.set_flag_c(bit_0 == 1);
        res
    }

    /// SLA r8: shift left; bit 7 goes to the carry, bit 0 becomes 0.
    pub fn sla_r8(&mut self, val: u8) -> (r: u8)
        ensures
            r == (val << 1u8) as u8,
            *final(self) == (Cpu { f: old(self).f_after_shift(r, val >= 0x80), ..*old(self) }),
    {
        let bit_7 = (val >> 7) & 0x01;
        proof { lemma_bit7(val, bit_7); }
        let res = val << 1;
        self.set_flag_z(res == 0);
        self.set_flag_n(false);
        self.set_flag_h(false);
        self.set_flag_c(bit_7 == 1);
        res
    }

    /// SRA r8: shift right keeping bit 7; bit 0 goes to the carry.
    pub fn sra_r8(&mut self, val: u8) -> (r: u8)
        ensures
            r == shift_right_arith(val),
            *final(self) == (Cpu { f: old(self).f_after_shift(r, val % 2 == 1), ..*old(self) }),
    {
        let bit_0 = val & 0x01;
        proof { lemma_bit0(val, bit_0); }
        let bit_7 = val & 0x80;
        let res = (val >> 1) | bit_7;
        self.set_flag_z(res == 0);
        self.set_flag_n(false);
        self.set_flag_h(false);
        self.set_flag_c(bit_0 == 1);
        res
    }

    /// SWAP r8: exchanges the nibbles; C cleared.
    pub fn swap_r8(&mut self, val: u8) -> (r: u8)
        ensures
            r == swap_nibbles(val),
            *final(self) == (Cpu { f: old(self).f_after_shift(r, false), ..*old(self) }),
    {
        let res = (val >> 4) | (val << 4);
        self.set_flag_z(res == 0);
        self.set_flag_n(false);
        self.set_flag_h(false);
        self.set_flag_c(false);
        res
    }

    /// SRL r8: shift right; bit 7 becomes 0, bit 0 goes to the carry.
    pub fn srl_r8(&mut self, val: u8) -> (r: u8)
        ensures
            r == val >> 1u8,
            *final(self) == (Cpu { f: old(self).f_after_shift(r, val % 2 == 1), ..*old(self) }),
    {
        let bit_0 = val & 0x01;
        proof { lemma_bit0(val, bit_0); }
        let res = val >> 1;
        self.set_flag_z(res == 0);
        self.set_flag_n(false);
        self.set_flag_h(false);
        self.set_flag_c(bit_0 == 1);
        res
    }

    /// BIT b, r8: Z set when bit `bit` of the value is 0; N cleared, H set, C kept.
    pub fn bit_b_r8(&mut self, bit: u8, val: u8)
        requires
            bit < 8,
        ensures
            *final(self) == (Cpu {
                f: old(self).f_with(val & bit_mask(bit) == 0, false, true, old(self).flag_c()),
                ..*old(self)
            }),
    {
        let is_bit_set = (val & (1 << bit)) != 0;
        self.set_flag_z(!is_bit_set);
        self.set_flag_n(false);
        self.set_flag_h(true);
    }

    /// RES b, r8: the value with bit `bit` cleared.
    pub fn res_b_r8(&mut self, bit: u8, val: u8) -> (r: u8)
        requires
            bit < 8,
        ensures
            r == val & !bit_mask(bit),
            *final(self) == *old(self),
    {
        val & !(1 << bit)
    }

    /// SET b, r8: the value with bit `bit` set.
    pub fn set_b_r8(&mut self, bit: u8, val: u8) -> (r: u8)
        requires
            bit < 8,
        ensures
            r == val | bit_mask(bit),
            *final(self) == *old(self),
    {
        val | (1 << bit)
    }

    /// RLC (HL): the operation on the byte at HL, written back.
    pub fn rlc_hl_mem(&mut self, mmu: &mut Mmu, timer: &mut Timer)
        requires
            old(mmu).can_read(old(self).hl()),
        ensures
            ({
                let v = old(mmu).read_spec(*old(timer), old(self).hl());
                &&& old(mmu).write_rel(*old(timer), old(self).hl(), rotate_left(v), *final(mmu), *final(timer))
                &&& *final(self) == (Cpu {
                    f: old(self).f_after_shift(rotate_left(v), v >= 0x80),
                    ..old(self).with_cycles(8)
                })
            }),
    {
        let hl = get_u16register(self.h, self.l);
        let val = mmu.read_byte(hl, timer);
        let res = self.rlc_r8(val);
        proof { lemma_readable_writable(*mmu, hl); }
        mmu.write_byte(hl, res, timer);
        self.cycles = self.cycles.wrapping_add(8);
    }

    /// RRC (HL): the operation on the byte at HL, written back.
    pub fn rrc_hl_mem(&mut self, mmu: &mut Mmu, timer: &mut Timer)
        requires
            old(mmu).can_read(old(self).hl()),
        ensures
            ({
                let v = old(mmu).read_spec(*old(timer), old(self).hl());
                &&& old(mmu).write_rel(*old(timer), old(self).hl(), rotate_right(v), *final(mmu), *final(timer))
                &&& *final(self) == (Cpu {
                    f: old(self).f_after_shift(rotate_right(v), v % 2 == 1),
                    ..old(self).with_cycles(8)
                })
            }),
    {
        let hl = get_u16register(self.h, self.l);
        let val = mmu.read_byte(hl, timer);
        let res = self.rrc_r8(val);
        proof { lemma_readable_writable(*mmu, hl); }
        mmu.write_byte(hl, res, timer);
        self.cycles = self.cycles.wrapping_add(8);
    }

    /// RL (HL): the operation on the byte at HL, written back.
    pub fn rl_hl_mem(&mut self, mmu: &mut Mmu, timer: &mut Timer)
        requires
            old(mmu).can_read(old(self).hl()),
        ensures
            ({
                let v = old(mmu).read_spec(*old(timer), old(self).hl());
                &&& old(mmu).write_rel(*old(timer), old(self).hl(), rotate_left_through(v, old(self).flag_c()), *final(mmu), *final(timer))
                &&& *final(self) == (Cpu {
                    f: old(self).f_after_shift(rotate_left_through(v, old(self).flag_c()), v >= 0x80),
                    ..old(self).with_cycles(8)
                })
            }),
    {
        let hl = get_u16register(self.h, self.l);
        let val = mmu.read_byte(hl, timer);
        let res = self.rl_r8(val);
        proof { lemma_readable_writable(*mmu, hl); }
        mmu.write_byte(hl, res, timer);
        self.cycles = self.cycles.wrapping_add(8);
    }

    /// RR (HL): the operation on the byte at HL, written back.
    pub fn rr_hl_mem(&mut self, mmu: &mut Mmu, timer: &mut Timer)
        requires
            old(mmu).can_read(old(self).hl()),
        ensures
            ({
                let v = old(mmu).read_spec(*old(timer), old(self).hl());
                &&& old(mmu).write_rel(*old(timer), old(self).hl(), rotate_right_through(v, old(self).flag_c()), *final(mmu), *final(timer))
                &&& *final(self) == (Cpu {
                    f: old(self).f_after_shift(rotate_right_through(v, old(self).flag_c()), v % 2 == 1),
                    ..old(self).with_cycles(8)
                })
            }),
    {
        let hl = get_u16register(self.h, self.l);
        let val = mmu.read_byte(hl, timer);
        let res = self.rr_r8(val);
        proof { lemma_readable_writable(*mmu, hl); }
        mmu.write_byte(hl, res, timer);
        self.cycles = self.cycles.wrapping_add(8);
    }

    /// SLA (HL): the operation on the byte at HL, written back.
    pub fn sla_hl_mem(&mut self, mmu: &mut Mmu, timer: &mut Timer)
        requires
            old(mmu).can_read(old(self).hl()),
        ensures
            ({
                let v = old(mmu).read_spec(*old(timer), old(self).hl());
                &&& old(mmu).write_rel(*old(timer), old(self).hl(), (v << 1u8) as u8, *final(mmu), *final(timer))
                &&& *final(self) == (Cpu {
                    f: old(self).f_after_shift((v << 1u8) as u8, v >= 0x80),
                    ..old(self).with_cycles(8)
                })
            }),
    {
        let hl = get_u16register(self.h, self.l);
        let val = mmu.read_byte(hl, timer);
        let res = self.sla_r8(val);
        proof { lemma_readable_writable(*mmu, hl); }
        mmu.write_byte(hl, res, timer);
        self.cycles = self.cycles.wrapping_add(8);
    }

    /// SRA (HL): the operation on the byte at HL, written back.
    pub fn sra_hl_mem(&mut self, mmu: &mut Mmu, timer: &mut Timer)
        requires
            old(mmu).can_read(old(self).hl()),
        ensures
            ({
                let v = old(mmu).read_spec(*old(timer), old(self).hl());
                &&& old(mmu).write_rel(*old(timer), old(self).hl(), shift_right_arith(v), *final(mmu), *final(timer))
                &&& *final(self) == (Cpu {
                    f: old(self).f_after_shift(shift_right_arith(v), v % 2 == 1),
                    ..old(self).with_cycles(8)
                })
            }),
    {
        let hl = get_u16register(self.h, self.l);
        let val = mmu.read_byte(hl, timer);
        let res = self.sra_r8(val);
        proof { lemma_readable_writable(*mmu, hl); }
        mmu.write_byte(hl, res, timer);
        self.cycles = self.cycles.wrapping_add(8);
    }

    /// SWAP (HL): the operation on the byte at HL, written back.
    pub fn swap_hl_mem(&mut self, mmu: &mut Mmu, timer: &mut Timer)
        requires
            old(mmu).can_read(old(self).hl()),
        ensures
            ({
                let v = old(mmu).read_spec(*old(timer), old(self).hl());
                &&& old(mmu).write_rel(*old(timer), old(self).hl(), swap_nibbles(v), *final(mmu), *final(timer))
                &&& *final(self) == (Cpu {
                    f: old(self).f_after_shift(swap_nibbles(v), false),
                    ..old(self).with_cycles(8)
                })
            }),
    {
        let hl = get_u16register(self.h, self.l);
        let val = mmu.read_byte(hl, timer);
        let res = self.swap_r8(val);
        proof { lemma_readable_writable(*mmu, hl); }
        mmu.write_byte(hl, res, timer);
        self.cycles = self.cycles.wrapping_add(8);
    }

    /// SRL (HL): the operation on the byte at HL, written back.
    pub fn srl_hl_mem(&mut self, mmu: &mut Mmu, timer: &mut Timer)
        requires
            old(mmu).can_read(old(self).hl()),
        ensures
            ({
                let v = old(mmu).read_spec(*old(timer), old(self).hl());
                &&& old(mmu).write_rel(*old(timer), old(self).hl(), v >> 1u8, *final(mmu), *final(timer))
                &&& *final(self) == (Cpu {
                    f: old(self).f_after_shift(v >> 1u8, v % 2 == 1),
                    ..old(self).with_cycles(8)
                })
            }),
    {
        let hl = get_u16register(self.h, self.l);
        let val = mmu.read_byte(hl, timer);
        let res = self.srl_r8(val);
        proof { lemma_readable_writable(*mmu, hl); }
        mmu.write_byte(hl, res, timer);
        self.cycles = self.cycles.wrapping_add(8);
    }

    /// BIT b, (HL): tests bit `bit` of the byte at HL.
    pub fn bit_b_hl_mem(&mut self, bit: u8, mmu: &mut Mmu, timer: &mut Timer)
        requires
            bit < 8,
            old(mmu).can_read(old(self).hl()),
        ensures
            *final(mmu) == *old(mmu),
            *final(timer) == *old(timer),
            ({
                let v = old(mmu).read_spec(*old(timer), old(self).hl());
                *final(self) == (Cpu {
                    f: old(self).f_with(v & bit_mask(bit) == 0, false, true, old(self).flag_c()),
                    ..old(self).with_cycles(4)
                })
            }),
    {
        let hl = get_u16register(self.h, self.l);
        let val = mmu.read_byte(hl, timer);
        self.bit_b_r8(bit, val);
        self.cycles = self.cycles.wrapping_add(4);
    }

    /// RES b, (HL): clears bit `bit` of the byte at HL.
    pub fn res_b_hl_mem(&mut self, bit: u8, mmu: &mut Mmu, timer: &mut Timer)
        requires
            bit < 8,
            old(mmu).can_read(old(self).hl()),
        ensures
            ({
                let v = old(mmu).read_spec(*old(timer), old(self).hl());
                old(mmu).write_rel(*old(timer), old(self).hl(), v & !bit_mask(bit), *final(mmu), *final(timer))
            }),
            *final(self) == old(self).with_cycles(8),
    {
        let hl = get_u16register(self.h, self.l);
        let val = mmu.read_byte(hl, timer);
        let res = self.res_b_r8(bit, val);
        proof { lemma_readable_writable(*mmu, hl); }
        mmu.write_byte(hl, res, timer);
        self.cycles = self.cycles.wrapping_add(8);
    }

    /// SET b, (HL): sets bit `bit` of the byte at HL.
    pub fn set_b_hl_mem(&mut self, bit: u8, mmu: &mut Mmu, timer: &mut Timer)
        requires
            bit < 8,
            old(mmu).can_read(old(self).hl()),
        ensures
            ({
                let v = old(mmu).read_spec(*old(timer), old(self).hl());
                old(mmu).write_rel(*old(timer), old(self).hl(), v | bit_mask(bit), *final(mmu), *final(timer))
            }),
            *final(self) == old(self).with_cycles(8),
    {
        let hl = get_u16register(self.h, self.l);
        let val = mmu.read_byte(hl, timer);
        let res = self.set_b_r8(bit, val);
        proof { lemma_readable_writable(*mmu, hl); }
        mmu.write_byte(hl, res, timer);
        self.cycles = self.cycles.wrapping_add(8);
    }

    /// The 8-bit register with index `r` (not 6).
    pub(crate) fn read_r8(&self, r: u8) -> (v: u8)
        requires
            r < 8,
            r != 6,
        ensures
            v == self.reg8(r),
    {
        match r {
            0 => self.b,
            1 => self.c,
            2 => self.d,
            3 => self.e,
            4 => self.h,
            5 => self.l,
            _ => self.a,
        }
    }

    /// Sets the 8-bit register with index `r` (not 6).
    pub(crate) fn write_r8(&mut self, r: u8, v: u8)
        requires
            r < 8,
            r != 6,
        ensures
            *final(self) == old(self).with_reg8(r, v),
    {
        match r {
            0 => self.b = v,
            1 => self.c = v,
            2 => self.d = v,
            3 => self.e = v,
            4 => self.h = v,
            5 => self.l = v,
            _ => self.a = v,
        }
    }

    /// Executes the prefixed operation `cb_opcode`: bits 6-7 choose the
    /// group (rotations and shifts, BIT, RES, SET), bits 3-5 the operation
    /// or bit number, bits 0-2 the operand (B, C, D, E, H, L, (HL), A).
    pub fn cb_prefixed(&mut self, cb_opcode: u8, mmu: &mut Mmu, timer: &mut Timer)
        requires
            old(self).cb_can(*old(mmu), *old(timer), cb_opcode),
        ensures
            *final(self) == old(self).cb_cpu(*old(mmu), *old(timer), cb_opcode),
            old(self).cb_mem(*old(mmu), *old(timer), cb_opcode, *final(mmu), *final(timer)),
    {
        let r = cb_opcode % 8;
        let y = (cb_opcode / 8) % 8;
        if r == 6 {
            if cb_opcode < 0x40 {
                match y {
                    0 => self.rlc_hl_mem(mmu, timer),
                    1 => self.rrc_hl_mem(mmu, timer),
                    2 => self.rl_hl_mem(mmu, timer),
                    3 => self.rr_hl_mem(mmu, timer),
                    4 => self.sla_hl_mem(mmu, timer),
                    5 => self.sra_hl_mem(mmu, timer),
                    6 => self.swap_hl_mem(mmu, timer),
                    _ => self.srl_hl_mem(mmu, timer),
                }
            } else if cb_opcode < 0x80 {
                self.bit_b_hl_mem(y, mmu, timer);
            } else if cb_opcode < 0xC0 {
                self.res_b_hl_mem(y, mmu, timer);
            } else {
                self.set_b_hl_mem(y, mmu, timer);
            }
        } else {
            let v = self.read_r8(r);
            if cb_opcode < 0x40 {
                let res = match y {
                    0 => self.rlc_r8(v),
                    1 => self.rrc_r8(v),
                    2 => self.rl_r8(v),
                    3 => self.rr_r8(v),
                    4 => self.sla_r8(v),
                    5 => self.sra_r8(v),
                    6 => self.swap_r8(v),
                    _ => self.srl_r8(v),
                };
                self.write_r8(r, res);
            } else if cb_opcode < 0x80 {
                self.bit_b_r8(y, v);
            } else if cb_opcode < 0xC0 {
                let res = self.res_b_r8(y, v);
                self.write_r8(r, res);
            } else {
                let res = self.set_b_r8(y, v);
                self.write_r8(r, res);
            }
        }
    }
}

} // verus!
