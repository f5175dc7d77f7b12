//! The SM83 processor of the Game Boy.
use vstd::prelude::*;
use crate::register_pair::{pair_value, high_byte, low_byte, get_u16register, set_u16register};
use crate::mmu::Mmu;
use crate::timer::Timer;
use crate::cpu::decode::in_ld_block;

pub mod flag_helper;
pub mod helper;
pub mod unprefixed_fn;
pub mod prefixed_fn;
pub mod decode;
pub use unprefixed_fn::{daa_spec, daa_spec_of};

verus! {

/// Mask of the Zero flag in register F.
pub const FLAG_Z_MASK: u8 = 0x80;
/// Mask of the Subtraction flag in register F.
pub const FLAG_N_MASK: u8 = 0x40;
/// Mask of the Half-carry flag in register F.
pub const FLAG_H_MASK: u8 = 0x20;
/// Mask of the Carry flag in register F.
pub const FLAG_C_MASK: u8 = 0x10;

/// Register file and control state of the processor.
pub struct Cpu {
    /// Accumulator.
    pub a: u8,
    /// Flags, laid out as `ZNHC----`.
    pub f: u8,
    pub b: u8,
    pub c: u8,
    pub d: u8,
    pub e: u8,
    pub h: u8,
    pub l: u8,
    /// Stack pointer.
    pub sp: u16,
    /// Program counter.
    pub pc: u16,
    /// Machine cycles spent so far (T-cycles), wrapping.
    pub cycles: u64,
    pub stopped: bool,
    pub halted: bool,
    pub halt_bug_triggered: bool,
    /// Interrupt master enable.
    pub ime: bool,
    /// An EI has run and IME is to be set once the instruction after it
    /// has finished.
    pub ime_pending: bool,
    pub interrupt_enable: u8,
    pub interrupt_flag: u8,
}

/// Register F with the four flags replaced and its low nibble kept.
pub open spec fn with_flags(f: u8, z: bool, n: bool, h: bool, c: bool) -> u8 {
    ((f & 0x0F) | (if z { 0x80u8 } else { 0u8 }) | (if n { 0x40u8 } else { 0u8 }) | (if h {
        0x20u8
    } else {
        0u8
    }) | (if c { 0x10u8 } else { 0u8 })) as u8
}

pub open spec fn flag_z_of(f: u8) -> bool {
    f & 0x80 != 0
}

pub open spec fn flag_n_of(f: u8) -> bool {
    f & 0x40 != 0
}

pub open spec fn flag_h_of(f: u8) -> bool {
    f & 0x20 != 0
}

pub open spec fn flag_c_of(f: u8) -> bool {
    f & 0x10 != 0
}

/// The bits of a byte written by `with_flags`.
pub proof fn lemma_with_flags_bits(f: u8, z: bool, n: bool, h: bool, c: bool)
    by (bit_vector)
    ensures
        with_flags(f, z, n, h, c) & 0x80 != 0 <==> z,
        with_flags(f, z, n, h, c) & 0x40 != 0 <==> n,
        with_flags(f, z, n, h, c) & 0x20 != 0 <==> h,
        with_flags(f, z, n, h, c) & 0x10 != 0 <==> c,
        with_flags(f, z, n, h, c) & 0x0F == f & 0x0F,
{
}

/// The flag bits of a byte written by `with_flags` are the ones given, and the
/// low nibble is the one of the given byte.
pub broadcast proof fn lemma_with_flags(f: u8, z: bool, n: bool, h: bool, c: bool)
    ensures
        #![trigger with_flags(f, z, n, h, c)]
        flag_z_of(with_flags(f, z, n, h, c)) == z,
        flag_n_of(with_flags(f, z, n, h, c)) == n,
        flag_h_of(with_flags(f, z, n, h, c)) == h,
        flag_c_of(with_flags(f, z, n, h, c)) == c,
        with_flags(f, z, n, h, c) & 0x0F == f & 0x0F,
{
    lemma_with_flags_bits(f, z, n, h, c);
}

/// Writing the flags twice keeps only the second write.
pub broadcast proof fn lemma_with_flags_twice(
    f: u8,
    z: bool,
    n: bool,
    h: bool,
    c: bool,
    z2: bool,
    n2: bool,
    h2: bool,
    c2: bool,
)
    ensures
        #[trigger] with_flags(with_flags(f, z, n, h, c), z2, n2, h2, c2) == with_flags(f, z2, n2, h2, c2),
{
    let g = with_flags(f, z, n, h, c);
    let r = with_flags(g, z2, n2, h2, c2);
    lemma_with_flags(f, z, n, h, c);
    assert(r == with_flags(f, z2, n2, h2, c2)) by (bit_vector)
        requires
            g & 0x0F == f & 0x0F,
            r == ((g & 0x0F) | (if z2 { 0x80u8 } else { 0u8 }) | (if n2 { 0x40u8 } else { 0u8 }) | (if h2 { 0x20u8 } else { 0u8 }) | (if c2 { 0x10u8 } else { 0u8 })),
    ;
}

/// A byte is the byte rebuilt from its own flags.
pub broadcast proof fn lemma_with_flags_same(f: u8)
    ensures
        #[trigger] with_flags(f, flag_z_of(f), flag_n_of(f), flag_h_of(f), flag_c_of(f)) == f,
{
    assert(with_flags(f, f & 0x80 != 0, f & 0x40 != 0, f & 0x20 != 0, f & 0x10 != 0) == f) by (bit_vector);
}

pub broadcast group group_flags {
    lemma_low_nibble,
    lemma_low_twelve,
    lemma_with_flags,
    lemma_with_flags_twice,
    lemma_with_flags_same,
}

impl Cpu {
    pub open spec fn flag_z(self) -> bool {
        flag_z_of(self.f)
    }

    pub open spec fn flag_n(self) -> bool {
        flag_n_of(self.f)
    }

    pub open spec fn flag_h(self) -> bool {
        flag_h_of(self.f)
    }

    pub open spec fn flag_c(self) -> bool {
        flag_c_of(self.f)
    }

    /// Register F after replacing the flags, keeping the low nibble.
    pub open spec fn f_with(self, z: bool, n: bool, h: bool, c: bool) -> u8 {
        with_flags(self.f, z, n, h, c)
    }

    /// The processor after `n` more cycles (wrapping).
    pub open spec fn with_cycles(self, n: u64) -> Cpu {
        Cpu { cycles: self.cycles.wrapping_add(n), ..self }
    }

    /// The carry flag as a number.
    pub open spec fn carry_in(self) -> int {
        if self.flag_c() {
            1
        } else {
            0
        }
    }

    /// ADD A, v: A and F after the addition (other registers as they were).
    pub open spec fn after_add(self, v: u8) -> Cpu {
        let r = self.a.wrapping_add(v);
        Cpu {
            a: r,
            f: self.f_with(r == 0, false, (self.a & 0x0F) + (v & 0x0F) > 0x0F, self.a + v > 0xFF),
            ..self
        }
    }

    /// ADC A, v: addition of v and the carry.
    pub open spec fn after_adc(self, v: u8) -> Cpu {
        let r = ((self.a + v + self.carry_in()) % 256) as u8;
        Cpu {
            a: r,
            f: self.f_with(
                r == 0,
                false,
                (self.a & 0x0F) + (v & 0x0F) + self.carry_in() > 0x0F,
                self.a + v + self.carry_in() > 0xFF,
            ),
            ..self
        }
    }

    /// SUB A, v.
    pub open spec fn after_sub(self, v: u8) -> Cpu {
        let r = self.a.wrapping_sub(v);
        Cpu { a: r, f: self.f_with(r == 0, true, (self.a & 0x0F) < (v & 0x0F), self.a < v), ..self }
    }

    /// SBC A, v: subtraction of v and the carry.
    pub open spec fn after_sbc(self, v: u8) -> Cpu {
        let r = ((self.a - v - self.carry_in() + 512) % 256) as u8;
        Cpu {
            a: r,
            f: self.f_with(
                r == 0,
                true,
                (self.a & 0x0F) < (v & 0x0F) + self.carry_in(),
                self.a < v + self.carry_in(),
            ),
            ..self
        }
    }

    /// AND A, v.
    pub open spec fn after_and(self, v: u8) -> Cpu {
        let r = self.a & v;
        Cpu { a: r, f: self.f_with(r == 0, false, true, false), ..self }
    }

    /// XOR A, v.
    pub open spec fn after_xor(self, v: u8) -> Cpu {
        let r = self.a ^ v;
        Cpu { a: r, f: self.f_with(r == 0, false, false, false), ..self }
    }

    /// OR A, v.
    pub open spec fn after_or(self, v: u8) -> Cpu {
        let r = self.a | v;
        Cpu { a: r, f: self.f_with(r == 0, false, false, false), ..self }
    }

    /// CP A, v: the flags of SUB A, v with A kept.
    pub open spec fn after_cp(self, v: u8) -> Cpu {
        Cpu { f: self.after_sub(v).f, ..self }
    }

    /// F after INC of the 8-bit value v (carry kept).
    pub open spec fn f_after_inc(self, v: u8) -> u8 {
        self.f_with(v.wrapping_add(1) == 0, false, (v & 0x0F) == 0x0F, self.flag_c())
    }

    /// F after DEC of the 8-bit value v (carry kept).
    pub open spec fn f_after_dec(self, v: u8) -> u8 {
        self.f_with(v.wrapping_sub(1) == 0, true, (v & 0x0F) == 0x00, self.flag_c())
    }

    /// The value of HL.
    pub open spec fn hl(self) -> u16 {
        pair_value(self.h, self.l)
    }

    pub open spec fn bc(self) -> u16 {
        pair_value(self.b, self.c)
    }

    pub open spec fn de(self) -> u16 {
        pair_value(self.d, self.e)
    }

    /// The processor with HL set to v.
    pub open spec fn with_hl(self, v: u16) -> Cpu {
        Cpu { h: high_byte(v), l: low_byte(v), ..self }
    }

    /// A processor at power-on: registers at zero, SP at 0xFFFE, PC at the
    /// cartridge entry point 0x0100.
    pub open spec fn spec_new() -> Cpu {
        Cpu {
            a: 0,
            f: 0,
            b: 0,
            c: 0,
            d: 0,
            e: 0,
            h: 0,
            l: 0,
            sp: 0xFFFE,
            pc: 0x0100,
            cycles: 0,
            stopped: false,
            halted: false,
            halt_bug_triggered: false,
            ime: false,
            ime_pending: false,
            interrupt_enable: 0,
            interrupt_flag: 0,
        }
    }

    /// A processor in the state it has at power-on, before any instruction.
    pub fn new() -> (r: Self)
        ensures
            r == Cpu::spec_new(),
            r == (Cpu {
                a: 0,
                f: 0,
                b: 0,
                c: 0,
                d: 0,
                e: 0,
                h: 0,
                l: 0,
                sp: 0xFFFE,
                pc: 0x0100,
                cycles: 0,
                stopped: false,
                halted: false,
                halt_bug_triggered: false,
                ime: false,
                ime_pending: false,
                interrupt_enable: 0,
                interrupt_flag: 0,
            }),
    {
        Cpu {
            a: 0,
            f: 0,
            b: 0,
            c: 0,
            d: 0,
            e: 0,
            h: 0,
            l: 0,
            sp: 0xFFFE,
            pc: 0x0100,
            cycles: 0,
            stopped: false,
            halted: false,
            halt_bug_triggered: false,
            ime: false,
            ime_pending: false,
            interrupt_enable: 0,
            interrupt_flag: 0,
        }
    }
}

} // verus!

verus! {

/// An 8-bit value read as a two's-complement signed offset.
pub open spec fn signed_offset(b: u8) -> int {
    if b < 128 {
        b as int
    } else {
        b as int - 256
    }
}

/// `v` moved by a signed 8-bit offset, wrapping at 16 bits.
pub open spec fn offset_u16(v: u16, raw: u8) -> u16 {
    ((v as int + signed_offset(raw) + 0x10000) % 0x10000) as u16
}

/// Adds a signed 8-bit offset to a 16-bit value, wrapping.
pub fn add_signed_offset(v: u16, raw: u8) -> (r: u16)
    ensures
        r == offset_u16(v, raw),
{
    if raw < 128 {
        v.wrapping_add(raw as u16)
    } else {
        v.wrapping_sub(256 - raw as u16)
    }
}

} // verus!

verus! {

/// Rotation left by one bit: bit 7 comes back as bit 0.
pub open spec fn rotate_left(v: u8) -> u8 {
    ((v << 1u8) | (v >> 7u8)) as u8
}

/// Rotation right by one bit: bit 0 comes back as bit 7.
pub open spec fn rotate_right(v: u8) -> u8 {
    ((v >> 1u8) | (v << 7u8)) as u8
}

/// Rotation left through the carry: the carry enters bit 0.
pub open spec fn rotate_left_through(v: u8, carry: bool) -> u8 {
    ((v << 1u8) | (if carry { 1u8 } else { 0u8 })) as u8
}

/// Rotation right through the carry: the carry enters bit 7.
pub open spec fn rotate_right_through(v: u8, carry: bool) -> u8 {
    ((v >> 1u8) | (if carry { 0x80u8 } else { 0u8 })) as u8
}

/// Facts on bit 7 used by the left rotations and shifts.
pub proof fn lemma_bit7(v: u8, bit: u8)
    requires
        bit == (v >> 7u8) & 0x01,
    ensures
        bit == v >> 7u8,
        bit == 1 <==> v >= 0x80,
        bit <= 1,
{
    assert(bit == v >> 7u8 && (bit == 1 <==> v >= 0x80) && bit <= 1) by (bit_vector)
        requires bit == (v >> 7u8) & 0x01;
}

/// Facts on bit 0 used by the right rotations and shifts.
pub proof fn lemma_bit0(v: u8, bit: u8)
    requires
        bit == v & 0x01,
    ensures
        bit << 7u8 == v << 7u8,
        bit == 1 <==> v % 2 == 1,
        bit <= 1,
{
    assert(bit << 7u8 == v << 7u8 && (bit == 1 <==> v % 2 == 1) && bit <= 1) by (bit_vector)
        requires bit == v & 0x01;
}

} // verus!

verus! {

/// The low nibble of a byte is the byte modulo 16.
pub broadcast proof fn lemma_low_nibble(x: u8)
    ensures
        #[trigger] (x & 0x0F) == x % 16,
{
    assert(x & 0x0F == x % 16) by (bit_vector);
}

/// The low twelve bits of a word are the word modulo 0x1000.
pub broadcast proof fn lemma_low_twelve(x: u16)
    ensures
        #[trigger] (x & 0x0FFF) == x % 0x1000,
{
    assert(x & 0x0FFF == x % 0x1000) by (bit_vector);
}

} // verus!

verus! {

impl Cpu {
    /// Reads the opcode byte at `pc`.
    fn fetch_byte(&mut self, mmu: &mut Mmu, timer: &mut Timer, pc: u16) -> (r: u8)
        requires
            old(mmu).can_read(pc),
        ensures
            r == old(mmu).read_spec(*old(timer), pc),
            *final(self) == *old(self),
            *final(mmu) == *old(mmu),
            *final(timer) == *old(timer),
    {
        mmu.read_byte(pc, timer)
    }

    /// An instruction of the LD r8, r8 block: bits 3-5 name the destination,
    /// bits 0-2 the source (B, C, D, E, H, L, (HL), A).
    fn step_ld(&mut self, opcode: u8, mmu: &mut Mmu, timer: &mut Timer)
        requires
            in_ld_block(opcode),
            old(self).exec_can(opcode, *old(mmu), *old(timer)),
        ensures
            *final(self) == old(self).exec_cpu(opcode, *old(mmu), *old(timer)),
            old(self).exec_mem(opcode, *old(mmu), *old(timer), *final(mmu), *final(timer)),
    {
        let src = opcode % 8;
        let dst = (opcode / 8) % 8;
        if src == 6 {
            let v = self.ld_r8_mem_hl(mmu, timer);
            self.write_r8(dst, v);
        } else if dst == 6 {
            let v = self.read_r8(src);
            self.ld_mem_hl_r8(mmu, timer, v);
        } else {
            let v = self.read_r8(src);
            let v = self.ld_r8_r8(v);
            self.write_r8(dst, v);
        }
    }

    /// An instruction of the 8-bit ALU block: bits 3-5 name the operation
    /// (ADD, ADC, SUB, SBC, AND, XOR, OR, CP), bits 0-2 the operand.
    fn step_alu(&mut self, opcode: u8, mmu: &mut Mmu, timer: &mut Timer)
        requires
            0x80 <= opcode <= 0xBF,
            old(self).exec_can(opcode, *old(mmu), *old(timer)),
        ensures
            *final(self) == old(self).exec_cpu(opcode, *old(mmu), *old(timer)),
            old(self).exec_mem(opcode, *old(mmu), *old(timer), *final(mmu), *final(timer)),
    {
        let src = opcode % 8;
        let y = (opcode / 8) % 8;
        if src == 6 {
            match y {
                0 => self.alu_add_mem_hl(mmu, timer),
                1 => self.alu_adc_mem_hl(mmu, timer),
                2 => self.alu_sub_mem_hl(mmu, timer),
                3 => self.alu_sbc_mem_hl(mmu, timer),
                4 => self.alu_and_mem_hl(mmu, timer),
                5 => self.alu_xor_mem_hl(mmu, timer),
                6 => self.alu_or_mem_hl(mmu, timer),
                _ => self.alu_cp_mem_hl(mmu, timer),
            }
        } else {
            let v = self.read_r8(src);
            match y {
                0 => self.alu_add(v),
                1 => self.alu_adc(v),
                2 => self.alu_sub(v),
                3 => self.alu_sbc(v),
                4 => self.alu_and(v),
                5 => self.alu_xor(v),
                6 => self.alu_or(v),
                _ => self.alu_cp(v),
            }
        }
    }
}

} // verus!

verus! {

impl Cpu {
    /// An instruction outside the LD and ALU blocks and the CB prefix.
    fn step_misc(&mut self, opcode: u8, mmu: &mut Mmu, timer: &mut Timer)
        requires
            !in_ld_block(opcode),
            !(0x80 <= opcode <= 0xBF),
            opcode != 0xCB,
            old(self).misc_can(opcode, *old(mmu), *old(timer)),
        ensures
            *final(self) == old(self).misc_cpu(opcode, *old(mmu), *old(timer)),
            old(self).misc_mem(opcode, *old(mmu), *old(timer), *final(mmu), *final(timer)),
    {
        if opcode < 0x20 {
            self.step_misc_0(opcode, mmu, timer);
        } else if opcode < 0x40 {
            self.step_misc_1(opcode, mmu, timer);
        } else if opcode < 0xE0 {
            self.step_misc_2(opcode, mmu, timer);
        } else {
            self.step_misc_3(opcode, mmu, timer);
        }
    }

    /// An instruction of 0x00-0x1F.
    #[verifier::spinoff_prover]
    #[verifier::rlimit(100)]
    fn step_misc_0(&mut self, opcode: u8, mmu: &mut Mmu, timer: &mut Timer)
        requires
            opcode < 0x20,
            !in_ld_block(opcode),
            !(0x80 <= opcode <= 0xBF),
            opcode != 0xCB,
            old(self).misc_can(opcode, *old(mmu), *old(timer)),
        ensures
            *final(self) == old(self).misc_cpu(opcode, *old(mmu), *old(timer)),
            old(self).misc_mem(opcode, *old(mmu), *old(timer), *final(mmu), *final(timer)),
    {
        match opcode {
            0x00 => self.nop(),
            0x10 => self.stop(),
            0x07 => self.rlca(),
            0x0F => self.rrca(),
            0x17 => self.rla(),
            0x1F => self.rra(),
            0x01 => {
                let v = self.ld_r16_imm16(mmu, timer);
                let (high, low) = set_u16register(v);
                self.b = high;
                self.c = low;
            },
            0x11 => {
                let v = self.ld_r16_imm16(mmu, timer);
                let (high, low) = set_u16register(v);
                self.d = high;
                self.e = low;
            },
            0x03 => {
                let v = get_u16register(self.b, self.c);
                let v = self.inc_r16(v);
                let (high, low) = set_u16register(v);
                self.b = high;
                self.c = low;
            },
            0x13 => {
                let v = get_u16register(self.d, self.e);
                let v = self.inc_r16(v);
                let (high, low) = set_u16register(v);
                self.d = high;
                self.e = low;
            },
            0x0B => {
                let v = get_u16register(self.b, self.c);
                let v = self.dec_r16(v);
                let (high, low) = set_u16register(v);
                self.b = high;
                self.c = low;
            },
            0x1B => {
                let v = get_u16register(self.d, self.e);
                let v = self.dec_r16(v);
                let (high, low) = set_u16register(v);
                self.d = high;
                self.e = low;
            },
            0x4 => {
                let v = self.b;
                self.b = self.inc_r8(v);
            },
            0x5 => {
                let v = self.b;
                self.b = self.dec_r8(v);
            },
            0x6 => {
                let v = self.ld_r8_imm8(mmu, timer);
                self.b = v;
            },
            0xC => {
                let v = self.c;
                self.c = self.inc_r8(v);
            },
            0xD => {
                let v = self.c;
                self.c = self.dec_r8(v);
            },
            0xE => {
                let v = self.ld_r8_imm8(mmu, timer);
                self.c = v;
            },
            0x14 => {
                let v = self.d;
                self.d = self.inc_r8(v);
            },
            0x15 => {
                let v = self.d;
                self.d = self.dec_r8(v);
            },
            0x16 => {
                let v = self.ld_r8_imm8(mmu, timer);
                self.d = v;
            },
            0x1C => {
                let v = self.e;
                self.e = self.inc_r8(v);
            },
            0x1D => {
                let v = self.e;
                self.e = self.dec_r8(v);
            },
            0x1E => {
                let v = self.ld_r8_imm8(mmu, timer);
                self.e = v;
            },
            0x09 => {
                let v = get_u16register(self.b, self.c);
                self.add_hl_r16(v);
            },
            0x19 => {
                let v = get_u16register(self.d, self.e);
                self.add_hl_r16(v);
            },
            0x02 => {
                let v = get_u16register(self.b, self.c);
                self.ld_mem_r16_a(mmu, timer, v);
            },
            0x12 => {
                let v = get_u16register(self.d, self.e);
                self.ld_mem_r16_a(mmu, timer, v);
            },
            0x0A => {
                let v = get_u16register(self.b, self.c);
                self.ld_a_mem_r16(mmu, timer, v);
            },
            0x1A => {
                let v = get_u16register(self.d, self.e);
                self.ld_a_mem_r16(mmu, timer, v);
            },
            0x08 => self.ld_mem16_sp(mmu, timer),
            0x18 => self.jr_cond(true, mmu, timer),
            _ => {},
        }
    }

    /// An instruction of 0x20-0x3F.
    #[verifier::spinoff_prover]
    #[verifier::rlimit(100)]
    fn step_misc_1(&mut self, opcode: u8, mmu: &mut Mmu, timer: &mut Timer)
        requires
            0x20 <= opcode < 0x40,
            !in_ld_block(opcode),
            !(0x80 <= opcode <= 0xBF),
            opcode != 0xCB,
            old(self).misc_can(opcode, *old(mmu), *old(timer)),
        ensures
            *final(self) == old(self).misc_cpu(opcode, *old(mmu), *old(timer)),
            old(self).misc_mem(opcode, *old(mmu), *old(timer), *final(mmu), *final(timer)),
    {
        match opcode {
            0x27 => self.daa(),
            0x2F => self.cpl(),
            0x37 => self.scf(),
            0x3F => self.ccf(),
            0x21 => {
                let v = self.ld_r16_imm16(mmu, timer);
                let (high, low) = set_u16register(v);
                self.h = high;
                self.l = low;
            },
            0x31 => {
                let v = self.ld_r16_imm16(mmu, timer);
                self.sp = v;
            },
            0x23 => {
                let v = get_u16register(self.h, self.l);
                let v = self.inc_r16(v);
                let (high, low) = set_u16register(v);
                self.h = high;
                self.l = low;
            },
            0x2B => {
                let v = get_u16register(self.h, self.l);
                let v = self.dec_r16(v);
                let (high, low) = set_u16register(v);
                self.h = high;
                self.l = low;
            },
            0x33 => {
                let v = self.sp;
                self.sp = self.inc_r16(v);
            },
            0x3B => {
                let v = self.sp;
                self.sp = self.dec_r16(v);
            },
            0x24 => {
                let v = self.h;
                self.h = self.inc_r8(v);
            },
            0x25 => {
                let v = self.h;
                self.h = self.dec_r8(v);
            },
            0x26 => {
                let v = self.ld_r8_imm8(mmu, timer);
                self.h = v;
            },
            0x2C => {
                let v = self.l;
                self.l = self.inc_r8(v);
            },
            0x2D => {
                let v = self.l;
                self.l = self.dec_r8(v);
            },
            0x2E => {
                let v = self.ld_r8_imm8(mmu, timer);
                self.l = v;
            },
            0x3C => {
                let v = self.a;
                self.a = self.inc_r8(v);
            },
            0x3D => {
                let v = self.a;
                self.a = self.dec_r8(v);
            },
            0x3E => {
                let v = self.ld_r8_imm8(mmu, timer);
                self.a = v;
            },
            0x34 => self.inc_hl_mem(mmu, timer),
            0x35 => self.dec_hl_mem(mmu, timer),
            0x36 => self.ld_hl_mem_imm8(mmu, timer),
            0x29 => {
                let v = get_u16register(self.h, self.l);
                self.add_hl_r16(v);
            },
            0x39 => {
                let v = self.sp;
                self.add_hl_r16(v);
            },
            0x22 => self.ld_hl_inc_a(mmu, timer),
            0x2A => self.ld_a_hl_inc(mmu, timer),
            0x32 => self.ld_hl_dec_a(mmu, timer),
            0x3A => self.ld_a_hl_dec(mmu, timer),
            0x20 => {
                let cond = !self.get_flag_z();
                self.jr_cond(cond, mmu, timer);
            },
            0x28 => {
                let cond = self.get_flag_z();
                self.jr_cond(cond, mmu, timer);
            },
            0x30 => {
                let cond = !self.get_flag_c();
                self.jr_cond(cond, mmu, timer);
            },
            0x38 => {
                let cond = self.get_flag_c();
                self.jr_cond(cond, mmu, timer);
            },
            _ => {},
        }
    }

    /// An instruction of HALT and 0xC0-0xDF, other than the CB prefix.
    #[verifier::spinoff_prover]
    #[verifier::rlimit(100)]
    fn step_misc_2(&mut self, opcode: u8, mmu: &mut Mmu, timer: &mut Timer)
        requires
            0x40 <= opcode < 0xE0,
            !in_ld_block(opcode),
            !(0x80 <= opcode <= 0xBF),
            opcode != 0xCB,
            old(self).misc_can(opcode, *old(mmu), *old(timer)),
        ensures
            *final(self) == old(self).misc_cpu(opcode, *old(mmu), *old(timer)),
            old(self).misc_mem(opcode, *old(mmu), *old(timer), *final(mmu), *final(timer)),
    {
        match opcode {
            0x76 => self.halt(),
            0xC1 => {
                let v = self.pop_r16(mmu, timer);
                let (high, low) = set_u16register(v);
                self.b = high;
                self.c = low;
            },
            0xD1 => {
                let v = self.pop_r16(mmu, timer);
                let (high, low) = set_u16register(v);
                self.d = high;
                self.e = low;
            },
            0xC5 => {
                let (high, low) = (self.b, self.c);
                self.push_r16(high, low, mmu, timer);
            },
            0xD5 => {
                let (high, low) = (self.d, self.e);
                self.push_r16(high, low, mmu, timer);
            },
            0xC0 => {
                let cond = !self.get_flag_z();
                self.ret_cond(cond, mmu, timer);
            },
            0xC8 => {
                let cond = self.get_flag_z();
                self.ret_cond(cond, mmu, timer);
            },
            0xD0 => {
                let cond = !self.get_flag_c();
                self.ret_cond(cond, mmu, timer);
            },
            0xD8 => {
                let cond = self.get_flag_c();
                self.ret_cond(cond, mmu, timer);
            },
            0xC9 => self.ret_incond(mmu, timer),
            0xD9 => self.reti(mmu, timer),
            0xC2 => {
                let cond = !self.get_flag_z();
                self.jp_cond(cond, mmu, timer);
            },
            0xCA => {
                let cond = self.get_flag_z();
                self.jp_cond(cond, mmu, timer);
            },
            0xD2 => {
                let cond = !self.get_flag_c();
                self.jp_cond(cond, mmu, timer);
            },
            0xDA => {
                let cond = self.get_flag_c();
                self.jp_cond(cond, mmu, timer);
            },
            0xC3 => self.jp(mmu, timer),
            0xC4 => {
                let cond = !self.get_flag_z();
                self.call_cond(cond, mmu, timer);
            },
            0xCC => {
                let cond = self.get_flag_z();
                self.call_cond(cond, mmu, timer);
            },
            0xD4 => {
                let cond = !self.get_flag_c();
                self.call_cond(cond, mmu, timer);
            },
            0xDC => {
                let cond = self.get_flag_c();
                self.call_cond(cond, mmu, timer);
            },
            0xCD => self.call(mmu, timer),
            0xC7 => self.rst(0x00, mmu, timer),
            0xCF => self.rst(0x08, mmu, timer),
            0xD7 => self.rst(0x10, mmu, timer),
            0xDF => self.rst(0x18, mmu, timer),
            0xC6 => self.add_a_imm8(mmu, timer),
            0xCE => self.adc_a_imm8(mmu, timer),
            0xD6 => self.sub_a_imm8(mmu, timer),
            0xDE => self.sbc_a_imm8(mmu, timer),
            _ => {},
        }
    }

    /// An instruction of 0xE0-0xFF.
    #[verifier::spinoff_prover]
    #[verifier::rlimit(100)]
    fn step_misc_3(&mut self, opcode: u8, mmu: &mut Mmu, timer: &mut Timer)
        requires
            0xE0 <= opcode,
            !in_ld_block(opcode),
            !(0x80 <= opcode <= 0xBF),
            opcode != 0xCB,
            old(self).misc_can(opcode, *old(mmu), *old(timer)),
        ensures
            *final(self) == old(self).misc_cpu(opcode, *old(mmu), *old(timer)),
            old(self).misc_mem(opcode, *old(mmu), *old(timer), *final(mmu), *final(timer)),
    {
        match opcode {
            0xE1 => {
                let v = self.pop_r16(mmu, timer);
                let (high, low) = set_u16register(v);
                self.h = high;
                self.l = low;
            },
            0xF1 => {
                let v = self.pop_r16(mmu, timer);
                let (high, low) = set_u16register(v);
                self.a = high;
                self.f = low & 0xF0;
            },
            0xE5 => {
                let (high, low) = (self.h, self.l);
                self.push_r16(high, low, mmu, timer);
            },
            0xF5 => self.push_af(mmu, timer),
            0xE9 => self.jp_hl(),
            0xE7 => self.rst(0x20, mmu, timer),
            0xEF => self.rst(0x28, mmu, timer),
            0xF7 => self.rst(0x30, mmu, timer),
            0xFF => self.rst(0x38, mmu, timer),
            0xE6 => self.and_a_imm8(mmu, timer),
            0xEE => self.xor_a_imm8(mmu, timer),
            0xF6 => self.or_a_imm8(mmu, timer),
            0xFE => self.cp_a_imm8(mmu, timer),
            0xE0 => self.ldh_mem8_a(mmu, timer),
            0xF0 => self.ldh_a_mem8(mmu, timer),
            0xE2 => self.ld_mem_c_a(mmu, timer),
            0xF2 => self.ld_a_mem_c(mmu, timer),
            0xEA => self.ld_mem16_a(mmu, timer),
            0xFA => self.ld_a_mem16(mmu, timer),
            0xE8 => self.add_sp_e8(mmu, timer),
            0xF8 => self.ld_hl_sp_e8(mmu, timer),
            0xF9 => self.ld_sp_hl(),
            0xF3 => self.di(),
            0xFB => self.ei(),
            _ => {},
        }
    }
}

} // verus!

verus! {

impl Cpu {
    /// Executes the instruction whose opcode is at PC and gives the cycles it
    /// took. PC moves past the opcode before the instruction runs, so its
    /// operands are read from the bytes that follow the opcode. An enable
    /// that an EI left pending takes effect once this instruction has
    /// finished, unless it was DI.
    pub fn step(&mut self, mmu: &mut Mmu, timer: &mut Timer) -> (r: u32)
        requires
            old(self).step_can(*old(mmu), *old(timer)),
        ensures
            *final(self) == old(self).step_cpu(*old(mmu), *old(timer)),
            old(self).step_mem(*old(mmu), *old(timer), *final(mmu), *final(timer)),
            r == (final(self).cycles.wrapping_sub(old(self).cycles)) as u32,
    {
        let start = self.cycles;
        let opcode = self.fetch_byte(mmu, timer, self.pc);
        let pending = self.ime_pending;
        self.pc = self.pc.wrapping_add(1);
        if 0x40 <= opcode && opcode <= 0x7F && opcode != 0x76 {
            self.step_ld(opcode, mmu, timer);
        } else if 0x80 <= opcode && opcode <= 0xBF {
            self.step_alu(opcode, mmu, timer);
        } else if opcode == 0xCB {
            self.cb(mmu, timer);
        } else {
            self.step_misc(opcode, mmu, timer);
        }
        if pending && self.ime_pending {
            self.ime = true;
            self.ime_pending = false;
        }
        (self.cycles.wrapping_sub(start)) as u32
    }
}

} // verus!
