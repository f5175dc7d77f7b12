//! What one instruction does: the opcode table of the processor as spec
//! functions over the processor, the bus and the timer.
use vstd::prelude::*;
use crate::cpu::{Cpu, offset_u16, daa_spec_of, rotate_left, rotate_right, rotate_left_through, rotate_right_through};
use crate::register_pair::{pair_value, high_byte, low_byte, get_u16register};
use crate::mmu::Mmu;
use crate::timer::Timer;

verus! {

/// The opcodes that the processor does not define.
pub open spec fn is_illegal(op: u8) -> bool {
    op == 0xD3 || op == 0xDB || op == 0xDD || op == 0xE3 || op == 0xE4 || op == 0xEB || op == 0xEC
        || op == 0xED || op == 0xF4 || op == 0xFC || op == 0xFD
}

/// Opcodes of the LD r8, r8 block (0x40-0x7F without HALT).
pub open spec fn in_ld_block(op: u8) -> bool {
    0x40 <= op <= 0x7F && op != 0x76
}

/// Opcodes of the 8-bit ALU block (0x80-0xBF).
pub open spec fn in_alu_block(op: u8) -> bool {
    0x80 <= op <= 0xBF
}

impl Cpu {
    /// The byte at `a`.
    pub open spec fn rd(m: Mmu, t: Timer, a: u16) -> u8 {
        m.read_spec(t, a)
    }

    /// The ALU operation `y` (ADD, ADC, SUB, SBC, AND, XOR, OR, CP) with `v`.
    pub open spec fn after_alu(self, y: u8, v: u8) -> Cpu {
        if y == 0 {
            self.after_add(v)
        } else if y == 1 {
            self.after_adc(v)
        } else if y == 2 {
            self.after_sub(v)
        } else if y == 3 {
            self.after_sbc(v)
        } else if y == 4 {
            self.after_and(v)
        } else if y == 5 {
            self.after_xor(v)
        } else if y == 6 {
            self.after_or(v)
        } else {
            self.after_cp(v)
        }
    }

    /// The value of SP + e8 with the flags that ADD SP, e8 and LD HL, SP+e8 set.
    pub open spec fn sp_offset_flags(self, raw: u8) -> u8 {
        self.f_with(false, false, (self.sp % 16) + (raw % 16) > 0x0F, (self.sp % 256) + raw > 0xFF)
    }

    /// The 16-bit value at SP, low byte first.
    pub open spec fn stack_top(self, m: Mmu, t: Timer) -> u16 {
        pair_value(Self::rd(m, t, self.sp.wrapping_add(1)), Self::rd(m, t, self.sp))
    }

    /// Whether the reads and writes of the opcode `op` (not in the LD or ALU
    /// blocks, not the CB prefix) are defined, and `op` is an opcode.
    pub open spec fn misc_can(self, op: u8, m: Mmu, t: Timer) -> bool {
        let pc = self.pc;
        let pc1 = self.pc.wrapping_add(1);
        let sp = self.sp;
        let imm = self.imm16(m, t);
        if is_illegal(op) {
            false
        } else if op == 0x01 || op == 0x11 || op == 0x21 || op == 0x31 || op == 0xC2 || op == 0xCA
            || op == 0xD2 || op == 0xDA || op == 0xC3 {
            m.can_read(pc) && m.can_read(pc1)
        } else if op == 0x34 || op == 0x35 || op == 0x2A || op == 0x3A {
            m.can_read(self.hl())
        } else if op == 0x06 || op == 0x0E || op == 0x16 || op == 0x1E || op == 0x26 || op == 0x2E
            || op == 0x3E || op == 0x18 || op == 0x20 || op == 0x28 || op == 0x30 || op == 0x38
            || op == 0xC6 || op == 0xCE || op == 0xD6 || op == 0xDE || op == 0xE6 || op == 0xEE
            || op == 0xF6 || op == 0xFE || op == 0xE0 || op == 0xF0 || op == 0xE8 || op == 0xF8 {
            m.can_read(pc)
        } else if op == 0x36 {
            m.can_read(pc) && m.can_write(self.hl())
        } else if op == 0x02 {
            m.can_write(self.bc())
        } else if op == 0x12 {
            m.can_write(self.de())
        } else if op == 0x0A {
            m.can_read(self.bc())
        } else if op == 0x1A {
            m.can_read(self.de())
        } else if op == 0x08 {
            m.can_read(pc) && m.can_read(pc1) && m.can_write(imm) && m.can_write(imm.wrapping_add(1))
        } else if op == 0x22 || op == 0x32 {
            m.can_write(self.hl())
        } else if op == 0xC1 || op == 0xD1 || op == 0xE1 || op == 0xF1 || op == 0xC9 || op == 0xD9 {
            m.can_read(sp) && m.can_read(sp.wrapping_add(1))
        } else if op == 0xC5 || op == 0xD5 || op == 0xE5 || op == 0xF5 || op == 0xC7 || op == 0xCF
            || op == 0xD7 || op == 0xDF || op == 0xE7 || op == 0xEF || op == 0xF7 || op == 0xFF {
            m.can_write(sp.wrapping_sub(1)) && m.can_write(sp.wrapping_sub(2))
        } else if op == 0xC0 || op == 0xC8 || op == 0xD0 || op == 0xD8 {
            self.condition(op) ==> m.can_read(sp) && m.can_read(sp.wrapping_add(1))
        } else if op == 0xC4 || op == 0xCC || op == 0xD4 || op == 0xDC || op == 0xCD {
            self.condition(op) ==> m.can_read(pc) && m.can_read(pc1) && m.can_write(sp.wrapping_sub(1))
                && m.can_write(sp.wrapping_sub(2))
        } else if op == 0xEA {
            m.can_read(pc) && m.can_read(pc1) && m.can_write(imm)
        } else if op == 0xFA {
            m.can_read(pc) && m.can_read(pc1) && m.can_read(imm)
        } else {
            true
        }
    }

    /// The condition of a conditional jump, call or return opcode: NZ, Z,
    /// NC or C from bits 3-4; unconditional opcodes count as true.
    pub open spec fn condition(self, op: u8) -> bool {
        if op == 0x20 || op == 0xC0 || op == 0xC2 || op == 0xC4 {
            !self.flag_z()
        } else if op == 0x28 || op == 0xC8 || op == 0xCA || op == 0xCC {
            self.flag_z()
        } else if op == 0x30 || op == 0xD0 || op == 0xD2 || op == 0xD4 {
            !self.flag_c()
        } else if op == 0x38 || op == 0xD8 || op == 0xDA || op == 0xDC {
            self.flag_c()
        } else {
            true
        }
    }

    /// The processor after the opcode `op` (not in the LD or ALU blocks, not
    /// the CB prefix), PC pointing past the opcode, at its first operand.
    pub open spec fn misc_cpu(self, op: u8, m: Mmu, t: Timer) -> Cpu {
        let pc = self.pc;
        let pc1 = self.pc.wrapping_add(1);
        let pc2 = self.pc.wrapping_add(2);
        let n8 = Self::rd(m, t, pc);
        let imm = self.imm16(m, t);
        let sp = self.sp;
        let top = self.stack_top(m, t);
        let hlv = Self::rd(m, t, self.hl());
        if op == 0x00 {
            self.with_cycles(4)
        } else if op == 0x10 {
            Cpu { pc: pc1, stopped: true, ..self.with_cycles(4) }
        } else if op == 0x76 {
            if !self.ime && (self.interrupt_flag & self.interrupt_enable) & 0x1F != 0 {
                Cpu { halt_bug_triggered: true, ..self.with_cycles(4) }
            } else {
                Cpu { halted: true, ..self.with_cycles(4) }
            }
        } else if op == 0x27 {
            let (na, nc) = daa_spec_of(self);
            Cpu { a: na, f: self.f_with(na == 0, self.flag_n(), false, nc), ..self.with_cycles(4) }
        } else if op == 0x2F {
            Cpu { a: !self.a, f: self.f_with(self.flag_z(), true, true, self.flag_c()), ..self.with_cycles(4) }
        } else if op == 0x37 {
            Cpu { f: self.f_with(self.flag_z(), false, false, true), ..self.with_cycles(4) }
        } else if op == 0x3F {
            Cpu { f: self.f_with(self.flag_z(), false, false, !self.flag_c()), ..self.with_cycles(4) }
        } else if op == 0x07 {
            Cpu { a: rotate_left(self.a), f: self.f_with(false, false, false, self.a >= 0x80), ..self.with_cycles(4) }
        } else if op == 0x0F {
            Cpu { a: rotate_right(self.a), f: self.f_with(false, false, false, self.a % 2 == 1), ..self.with_cycles(4) }
        } else if op == 0x17 {
            Cpu {
                a: rotate_left_through(self.a, self.flag_c()),
                f: self.f_with(false, false, false, self.a >= 0x80),
                ..self.with_cycles(4)
            }
        } else if op == 0x1F {
            Cpu {
                a: rotate_right_through(self.a, self.flag_c()),
                f: self.f_with(false, false, false, self.a % 2 == 1),
                ..self.with_cycles(4)
            }
        } else if op == 0x01 {
            Cpu { b: high_byte(imm), c: low_byte(imm), pc: pc2, ..self.with_cycles(12) }
        } else if op == 0x11 {
            Cpu { d: high_byte(imm), e: low_byte(imm), pc: pc2, ..self.with_cycles(12) }
        } else if op == 0x21 {
            Cpu { h: high_byte(imm), l: low_byte(imm), pc: pc2, ..self.with_cycles(12) }
        } else if op == 0x31 {
            Cpu { sp: imm, pc: pc2, ..self.with_cycles(12) }
        } else if op == 0x03 {
            let v = self.bc().wrapping_add(1);
            Cpu { b: high_byte(v), c: low_byte(v), ..self.with_cycles(8) }
        } else if op == 0x13 {
            let v = self.de().wrapping_add(1);
            Cpu { d: high_byte(v), e: low_byte(v), ..self.with_cycles(8) }
        } else if op == 0x23 {
            self.with_hl(self.hl().wrapping_add(1)).with_cycles(8)
        } else if op == 0x33 {
            Cpu { sp: sp.wrapping_add(1), ..self.with_cycles(8) }
        } else if op == 0x0B {
            let v = self.bc().wrapping_sub(1);
            Cpu { b: high_byte(v), c: low_byte(v), ..self.with_cycles(8) }
        } else if op == 0x1B {
            let v = self.de().wrapping_sub(1);
            Cpu { d: high_byte(v), e: low_byte(v), ..self.with_cycles(8) }
        } else if op == 0x2B {
            self.with_hl(self.hl().wrapping_sub(1)).with_cycles(8)
        } else if op == 0x3B {
            Cpu { sp: sp.wrapping_sub(1), ..self.with_cycles(8) }
        } else if op == 0x34 {
            Cpu { f: self.f_after_inc(hlv), ..self.with_cycles(12) }
        } else if op == 0x35 {
            Cpu { f: self.f_after_dec(hlv), ..self.with_cycles(12) }
        } else if op == 0x04 || op == 0x0C || op == 0x14 || op == 0x1C || op == 0x24 || op == 0x2C || op == 0x3C {
            let r = ((op / 8) % 8) as u8;
            let v = self.reg8(r);
            Cpu { f: self.f_after_inc(v), ..self.with_reg8(r, v.wrapping_add(1)) }.with_cycles(4)
        } else if op == 0x05 || op == 0x0D || op == 0x15 || op == 0x1D || op == 0x25 || op == 0x2D || op == 0x3D {
            let r = ((op / 8) % 8) as u8;
            let v = self.reg8(r);
            Cpu { f: self.f_after_dec(v), ..self.with_reg8(r, v.wrapping_sub(1)) }.with_cycles(4)
        } else if op == 0x06 || op == 0x0E || op == 0x16 || op == 0x1E || op == 0x26 || op == 0x2E || op == 0x3E {
            Cpu { pc: pc1, ..self.with_reg8(((op / 8) % 8) as u8, n8) }.with_cycles(8)
        } else if op == 0x36 {
            Cpu { pc: pc1, ..self.with_cycles(12) }
        } else if op == 0x09 || op == 0x19 || op == 0x29 || op == 0x39 {
            let src = if op == 0x09 {
                self.bc()
            } else if op == 0x19 {
                self.de()
            } else if op == 0x29 {
                self.hl()
            } else {
                sp
            };
            Cpu {
                f: self.f_with(self.flag_z(), false, (self.hl() % 0x1000) + (src % 0x1000) > 0x0FFF, self.hl() + src > 0xFFFF),
                ..self.with_hl(self.hl().wrapping_add(src)).with_cycles(8)
            }
        } else if op == 0x02 || op == 0x12 {
            self.with_cycles(8)
        } else if op == 0x0A {
            Cpu { a: Self::rd(m, t, self.bc()), ..self.with_cycles(8) }
        } else if op == 0x1A {
            Cpu { a: Self::rd(m, t, self.de()), ..self.with_cycles(8) }
        } else if op == 0x08 {
            Cpu { pc: pc2, ..self.with_cycles(20) }
        } else if op == 0x22 {
            self.with_hl(self.hl().wrapping_add(1)).with_cycles(8)
        } else if op == 0x2A {
            Cpu { a: hlv, ..self.with_hl(self.hl().wrapping_add(1)).with_cycles(8) }
        } else if op == 0x32 {
            self.with_hl(self.hl().wrapping_sub(1)).with_cycles(8)
        } else if op == 0x3A {
            Cpu { a: hlv, ..self.with_hl(self.hl().wrapping_sub(1)).with_cycles(8) }
        } else if op == 0x18 || op == 0x20 || op == 0x28 || op == 0x30 || op == 0x38 {
            if self.condition(op) {
                Cpu { pc: offset_u16(pc1, n8), ..self.with_cycles(12) }
            } else {
                Cpu { pc: pc1, ..self.with_cycles(8) }
            }
        } else if op == 0xC1 {
            Cpu { b: high_byte(top), c: low_byte(top), sp: sp.wrapping_add(2), ..self.with_cycles(12) }
        } else if op == 0xD1 {
            Cpu { d: high_byte(top), e: low_byte(top), sp: sp.wrapping_add(2), ..self.with_cycles(12) }
        } else if op == 0xE1 {
            Cpu { h: high_byte(top), l: low_byte(top), sp: sp.wrapping_add(2), ..self.with_cycles(12) }
        } else if op == 0xF1 {
            Cpu { a: high_byte(top), f: low_byte(top) & 0xF0, sp: sp.wrapping_add(2), ..self.with_cycles(12) }
        } else if op == 0xC5 || op == 0xD5 || op == 0xE5 || op == 0xF5 {
            Cpu { sp: sp.wrapping_sub(2), ..self.with_cycles(16) }
        } else if op == 0xC0 || op == 0xC8 || op == 0xD0 || op == 0xD8 {
            if self.condition(op) {
                Cpu { pc: top, sp: sp.wrapping_add(2), ..self.with_cycles(20) }
            } else {
                self.with_cycles(8)
            }
        } else if op == 0xC9 {
            Cpu { pc: top, sp: sp.wrapping_add(2), ..self.with_cycles(16) }
        } else if op == 0xD9 {
            Cpu { pc: top, sp: sp.wrapping_add(2), ime: true, ..self.with_cycles(16) }
        } else if op == 0xC2 || op == 0xCA || op == 0xD2 || op == 0xDA {
            if self.condition(op) {
                Cpu { pc: imm, ..self.with_cycles(16) }
            } else {
                Cpu { pc: pc2, ..self.with_cycles(12) }
            }
        } else if op == 0xC3 {
            Cpu { pc: imm, ..self.with_cycles(16) }
        } else if op == 0xE9 {
            Cpu { pc: self.hl(), ..self.with_cycles(4) }
        } else if op == 0xC4 || op == 0xCC || op == 0xD4 || op == 0xDC || op == 0xCD {
            if self.condition(op) {
                Cpu { pc: imm, sp: sp.wrapping_sub(2), ..self.with_cycles(24) }
            } else {
                Cpu { pc: pc2, ..self.with_cycles(12) }
            }
        } else if op == 0xC7 || op == 0xCF || op == 0xD7 || op == 0xDF || op == 0xE7 || op == 0xEF || op == 0xF7 || op == 0xFF {
            Cpu { pc: (op - 0xC7) as u16, sp: sp.wrapping_sub(2), ..self.with_cycles(16) }
        } else if op == 0xC6 || op == 0xCE || op == 0xD6 || op == 0xDE || op == 0xE6 || op == 0xEE || op == 0xF6 || op == 0xFE {
            Cpu { pc: pc1, ..self.after_alu(((op / 8) % 8) as u8, n8).with_cycles(8) }
        } else if op == 0xE0 {
            Cpu { pc: pc1, ..self.with_cycles(12) }
        } else if op == 0xF0 {
            Cpu { a: Self::rd(m, t, (0xFF00 + n8) as u16), pc: pc1, ..self.with_cycles(12) }
        } else if op == 0xE2 {
            self.with_cycles(8)
        } else if op == 0xF2 {
            Cpu { a: Self::rd(m, t, (0xFF00 + self.c) as u16), ..self.with_cycles(8) }
        } else if op == 0xEA {
            Cpu { pc: pc2, ..self.with_cycles(16) }
        } else if op == 0xFA {
            Cpu { a: Self::rd(m, t, imm), pc: pc2, ..self.with_cycles(16) }
        } else if op == 0xE8 {
            Cpu { pc: pc1, sp: offset_u16(sp, n8), f: self.sp_offset_flags(n8), ..self.with_cycles(16) }
        } else if op == 0xF8 {
            Cpu { pc: pc1, f: self.sp_offset_flags(n8), ..self.with_hl(offset_u16(sp, n8)).with_cycles(12) }
        } else if op == 0xF9 {
            Cpu { sp: self.hl(), ..self.with_cycles(8) }
        } else if op == 0xF3 {
            Cpu { ime: false, ime_pending: false, ..self.with_cycles(4) }
        } else if op == 0xFB {
            Cpu { ime_pending: true, ..self.with_cycles(4) }
        } else {
            self
        }
    }

    /// The memory and timer after the opcode `op` (not in the LD or ALU
    /// blocks, not the CB prefix).
    pub open spec fn misc_mem(self, op: u8, m0: Mmu, t0: Timer, m1: Mmu, t1: Timer) -> bool {
        let pc = self.pc;
        let n8 = Self::rd(m0, t0, pc);
        let imm = self.imm16(m0, t0);
        let sp = self.sp;
        let hlv = Self::rd(m0, t0, self.hl());
        if op == 0x34 {
            m0.write_rel(t0, self.hl(), hlv.wrapping_add(1), m1, t1)
        } else if op == 0x35 {
            m0.write_rel(t0, self.hl(), hlv.wrapping_sub(1), m1, t1)
        } else if op == 0x36 {
            m0.write_rel(t0, self.hl(), n8, m1, t1)
        } else if op == 0x02 {
            m0.write_rel(t0, self.bc(), self.a, m1, t1)
        } else if op == 0x12 {
            m0.write_rel(t0, self.de(), self.a, m1, t1)
        } else if op == 0x08 {
            m0.write2_rel(t0, imm, low_byte(sp), imm.wrapping_add(1), high_byte(sp), m1, t1)
        } else if op == 0x22 || op == 0x32 {
            m0.write_rel(t0, self.hl(), self.a, m1, t1)
        } else if op == 0xC5 {
            m0.write2_rel(t0, sp.wrapping_sub(1), self.b, sp.wrapping_sub(2), self.c, m1, t1)
        } else if op == 0xD5 {
            m0.write2_rel(t0, sp.wrapping_sub(1), self.d, sp.wrapping_sub(2), self.e, m1, t1)
        } else if op == 0xE5 {
            m0.write2_rel(t0, sp.wrapping_sub(1), self.h, sp.wrapping_sub(2), self.l, m1, t1)
        } else if op == 0xF5 {
            m0.write2_rel(t0, sp.wrapping_sub(1), self.a, sp.wrapping_sub(2), self.f & 0xF0, m1, t1)
        } else if (op == 0xC4 || op == 0xCC || op == 0xD4 || op == 0xDC || op == 0xCD) && self.condition(op) {
            let ret = pc.wrapping_add(2);
            m0.write2_rel(t0, sp.wrapping_sub(1), high_byte(ret), sp.wrapping_sub(2), low_byte(ret), m1, t1)
        } else if op == 0xC7 || op == 0xCF || op == 0xD7 || op == 0xDF || op == 0xE7 || op == 0xEF || op == 0xF7 || op == 0xFF {
            m0.write2_rel(t0, sp.wrapping_sub(1), high_byte(pc), sp.wrapping_sub(2), low_byte(pc), m1, t1)
        } else if op == 0xE0 {
            m0.write_rel(t0, (0xFF00 + n8) as u16, self.a, m1, t1)
        } else if op == 0xE2 {
            m0.write_rel(t0, (0xFF00 + self.c) as u16, self.a, m1, t1)
        } else if op == 0xEA {
            m0.write_rel(t0, imm, self.a, m1, t1)
        } else {
            m1 == m0 && t1 == t0
        }
    }

    /// Whether the instruction with opcode `op` can run, PC pointing past the
    /// opcode: the opcode defined, and its reads and writes defined.
    pub open spec fn exec_can(self, op: u8, m: Mmu, t: Timer) -> bool {
        let src = (op % 8) as u8;
        let dst = ((op / 8) % 8) as u8;
        if in_ld_block(op) {
            (src == 6 ==> m.can_read(self.hl())) && (dst == 6 ==> m.can_write(self.hl()))
        } else if in_alu_block(op) {
            src == 6 ==> m.can_read(self.hl())
        } else if op == 0xCB {
            m.can_read(self.pc) && self.cb_can(m, t, Self::rd(m, t, self.pc))
        } else {
            self.misc_can(op, m, t)
        }
    }

    /// The processor after the instruction with opcode `op`, PC pointing
    /// past the opcode: operands are read from PC onwards, and a CB prefix
    /// reads its sub-opcode at PC.
    pub open spec fn exec_cpu(self, op: u8, m: Mmu, t: Timer) -> Cpu {
        let src = (op % 8) as u8;
        let dst = ((op / 8) % 8) as u8;
        if in_ld_block(op) {
            if src == 6 {
                self.with_reg8(dst, Self::rd(m, t, self.hl())).with_cycles(8)
            } else if dst == 6 {
                self.with_cycles(8)
            } else {
                self.with_reg8(dst, self.reg8(src)).with_cycles(4)
            }
        } else if in_alu_block(op) {
            if src == 6 {
                self.after_alu(dst, Self::rd(m, t, self.hl())).with_cycles(8)
            } else {
                self.after_alu(dst, self.reg8(src)).with_cycles(4)
            }
        } else if op == 0xCB {
            let after = self.cb_cpu(m, t, Self::rd(m, t, self.pc));
            Cpu { pc: after.pc.wrapping_add(1), ..after.with_cycles(8) }
        } else {
            self.misc_cpu(op, m, t)
        }
    }

    /// The memory and timer after the instruction with opcode `op`, PC
    /// pointing past the opcode.
    pub open spec fn exec_mem(self, op: u8, m0: Mmu, t0: Timer, m1: Mmu, t1: Timer) -> bool {
        let src = (op % 8) as u8;
        let dst = ((op / 8) % 8) as u8;
        if in_ld_block(op) {
            if dst == 6 {
                m0.write_rel(t0, self.hl(), self.reg8(src), m1, t1)
            } else {
                m1 == m0 && t1 == t0
            }
        } else if in_alu_block(op) {
            m1 == m0 && t1 == t0
        } else if op == 0xCB {
            self.cb_mem(m0, t0, Self::rd(m0, t0, self.pc), m1, t1)
        } else {
            self.misc_mem(op, m0, t0, m1, t1)
        }
    }

    /// The processor with PC moved past the opcode it points at.
    pub open spec fn fetched(self) -> Cpu {
        Cpu { pc: self.pc.wrapping_add(1), ..self }
    }

    /// Whether the instruction at PC can run: PC readable, and the opcode
    /// there able to run once PC has moved past it.
    pub open spec fn step_can(self, m: Mmu, t: Timer) -> bool {
        m.can_read(self.pc) && self.fetched().exec_can(Self::rd(m, t, self.pc), m, t)
    }

    /// The processor after the instruction at PC: the opcode is read at PC,
    /// PC moves past it, and the instruction runs. An enable that an EI left
    /// pending before this instruction takes effect once it has finished,
    /// unless the instruction cancelled it (DI).
    pub open spec fn step_cpu(self, m: Mmu, t: Timer) -> Cpu {
        let after = self.fetched().exec_cpu(Self::rd(m, t, self.pc), m, t);
        if self.ime_pending && after.ime_pending {
            Cpu { ime: true, ime_pending: false, ..after }
        } else {
            after
        }
    }

    /// The memory and timer after the instruction at PC.
    pub open spec fn step_mem(self, m0: Mmu, t0: Timer, m1: Mmu, t1: Timer) -> bool {
        self.fetched().exec_mem(Self::rd(m0, t0, self.pc), m0, t0, m1, t1)
    }
}

} // verus!

verus! {

/// Adding `k` cycles and subtracting the start gives `k` back.
pub broadcast proof fn lemma_cycles_added(c: u64, k: u64)
    requires
        k <= 64,
    ensures
        #[trigger] c.wrapping_add(k).wrapping_sub(c) == k,
{
}

/// Adding `j` then `k` cycles is adding `j + k`.
pub broadcast proof fn lemma_cycles_twice(c: u64, j: u64, k: u64)
    requires
        j <= 64,
        k <= 64,
    ensures
        #[trigger] c.wrapping_add(j).wrapping_add(k) == c.wrapping_add((j + k) as u64),
{
}

/// Every instruction takes between 4 and 24 cycles.
pub proof fn lemma_step_cycles(cpu: Cpu, m: Mmu, t: Timer)
    requires
        cpu.step_can(m, t),
    ensures
        4 <= cpu.step_cpu(m, t).cycles.wrapping_sub(cpu.cycles) <= 24,
{
    broadcast use lemma_cycles_added, lemma_cycles_twice;
    let op = Cpu::rd(m, t, cpu.pc);
    let c = cpu.fetched();
    if op == 0xCB {
        let after = c.cb_cpu(m, t, Cpu::rd(m, t, c.pc));
        assert(after.cycles == cpu.cycles || after.cycles == cpu.cycles.wrapping_add(4)
            || after.cycles == cpu.cycles.wrapping_add(8));
    }
}

} // verus!

verus! {

impl Cpu {
    /// Whether the opcode `op` at PC, outside the LD and ALU blocks and the
    /// CB prefix, can run once PC has moved past it.
    fn misc_runnable(&self, op: u8, mmu: &mut Mmu, timer: &mut Timer) -> (r: bool)
        ensures
            r == self.fetched().misc_can(op, *old(mmu), *old(timer)),
            *final(mmu) == *old(mmu),
            *final(timer) == *old(timer),
    {
        let pc = self.pc.wrapping_add(1);
        let pc1 = pc.wrapping_add(1);
        let sp = self.sp;
        if op == 0xD3 || op == 0xDB || op == 0xDD || op == 0xE3 || op == 0xE4 || op == 0xEB
            || op == 0xEC || op == 0xED || op == 0xF4 || op == 0xFC || op == 0xFD {
            false
        } else if op == 0x01 || op == 0x11 || op == 0x21 || op == 0x31 || op == 0xC2 || op == 0xCA
            || op == 0xD2 || op == 0xDA || op == 0xC3 {
            mmu.readable(pc) && mmu.readable(pc1)
        } else if op == 0x34 || op == 0x35 || op == 0x2A || op == 0x3A {
            mmu.readable(get_u16register(self.h, self.l))
        } else if op == 0x06 || op == 0x0E || op == 0x16 || op == 0x1E || op == 0x26 || op == 0x2E
            || op == 0x3E || op == 0x18 || op == 0x20 || op == 0x28 || op == 0x30 || op == 0x38
            || op == 0xC6 || op == 0xCE || op == 0xD6 || op == 0xDE || op == 0xE6 || op == 0xEE
            || op == 0xF6 || op == 0xFE || op == 0xE0 || op == 0xF0 || op == 0xE8 || op == 0xF8 {
            mmu.readable(pc)
        } else if op == 0x36 {
            mmu.readable(pc) && mmu.writable(get_u16register(self.h, self.l))
        } else if op == 0x02 {
            mmu.writable(get_u16register(self.b, self.c))
        } else if op == 0x12 {
            mmu.writable(get_u16register(self.d, self.e))
        } else if op == 0x0A {
            mmu.readable(get_u16register(self.b, self.c))
        } else if op == 0x1A {
            mmu.readable(get_u16register(self.d, self.e))
        } else if op == 0x08 || op == 0xEA || op == 0xFA {
            if mmu.readable(pc) && mmu.readable(pc1) {
                let low = mmu.read_byte(pc, timer);
                let high = mmu.read_byte(pc1, timer);
                let imm = get_u16register(high, low);
                if op == 0x08 {
                    mmu.writable(imm) && mmu.writable(imm.wrapping_add(1))
                } else if op == 0xEA {
                    mmu.writable(imm)
                } else {
                    mmu.readable(imm)
                }
            } else {
                false
            }
        } else if op == 0x22 || op == 0x32 {
            mmu.writable(get_u16register(self.h, self.l))
        } else if op == 0xC1 || op == 0xD1 || op == 0xE1 || op == 0xF1 || op == 0xC9 || op == 0xD9 {
            mmu.readable(sp) && mmu.readable(sp.wrapping_add(1))
        } else if op == 0xC5 || op == 0xD5 || op == 0xE5 || op == 0xF5 || op == 0xC7 || op == 0xCF
            || op == 0xD7 || op == 0xDF || op == 0xE7 || op == 0xEF || op == 0xF7 || op == 0xFF {
            mmu.writable(sp.wrapping_sub(1)) && mmu.writable(sp.wrapping_sub(2))
        } else if op == 0xC0 || op == 0xC8 || op == 0xD0 || op == 0xD8 {
            !self.condition_holds(op) || (mmu.readable(sp) && mmu.readable(sp.wrapping_add(1)))
        } else if op == 0xC4 || op == 0xCC || op == 0xD4 || op == 0xDC || op == 0xCD {
            !self.condition_holds(op) || (mmu.readable(pc) && mmu.readable(pc1) && mmu.writable(
                sp.wrapping_sub(1),
            ) && mmu.writable(sp.wrapping_sub(2)))
        } else {
            true
        }
    }

    /// Whether the condition of a conditional opcode holds.
    fn condition_holds(&self, op: u8) -> (r: bool)
        ensures
            r == self.condition(op),
    {
        if op == 0x20 || op == 0xC0 || op == 0xC2 || op == 0xC4 {
            !self.get_flag_z()
        } else if op == 0x28 || op == 0xC8 || op == 0xCA || op == 0xCC {
            self.get_flag_z()
        } else if op == 0x30 || op == 0xD0 || op == 0xD2 || op == 0xD4 {
            !self.get_flag_c()
        } else if op == 0x38 || op == 0xD8 || op == 0xDA || op == 0xDC {
            self.get_flag_c()
        } else {
            true
        }
    }

    /// Whether the instruction at PC can run: `step` may be called exactly
    /// when this is true.
    pub fn can_step(&self, mmu: &mut Mmu, timer: &mut Timer) -> (r: bool)
        ensures
            r == self.step_can(*old(mmu), *old(timer)),
            *final(mmu) == *old(mmu),
            *final(timer) == *old(timer),
    {
        if !mmu.readable(self.pc) {
            return false;
        }
        let op = mmu.read_byte(self.pc, timer);
        let src = op % 8;
        let dst = (op / 8) % 8;
        let hl = get_u16register(self.h, self.l);
        if 0x40 <= op && op <= 0x7F && op != 0x76 {
            (src != 6 || mmu.readable(hl)) && (dst != 6 || mmu.writable(hl))
        } else if 0x80 <= op && op <= 0xBF {
            src != 6 || mmu.readable(hl)
        } else if op == 0xCB {
            let pc1 = self.pc.wrapping_add(1);
            if mmu.readable(pc1) {
                let sub = mmu.read_byte(pc1, timer);
                sub % 8 != 6 || mmu.readable(hl)
            } else {
                false
            }
        } else {
            self.misc_runnable(op, mmu, timer)
        }
    }
}

} // verus!
