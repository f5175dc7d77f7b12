//! Reading and writing the four flags of register F (`ZNHC----`).
use vstd::prelude::*;
use crate::cpu::{Cpu, FLAG_Z_MASK, FLAG_N_MASK, FLAG_H_MASK, FLAG_C_MASK, with_flags};

verus! {

/// Setting or clearing one flag bit is `with_flags` with that flag changed.
proof fn lemma_flag_bits(f: u8)
    by (bit_vector)
    ensures
        f | 0x80 == with_flags(f, true, f & 0x40 != 0, f & 0x20 != 0, f & 0x10 != 0),
        f & !0x80u8 == with_flags(f, false, f & 0x40 != 0, f & 0x20 != 0, f & 0x10 != 0),
        f | 0x40 == with_flags(f, f & 0x80 != 0, true, f & 0x20 != 0, f & 0x10 != 0),
        f & !0x40u8 == with_flags(f, f & 0x80 != 0, false, f & 0x20 != 0, f & 0x10 != 0),
        f | 0x20 == with_flags(f, f & 0x80 != 0, f & 0x40 != 0, true, f & 0x10 != 0),
        f & !0x20u8 == with_flags(f, f & 0x80 != 0, f & 0x40 != 0, false, f & 0x10 != 0),
        f | 0x10 == with_flags(f, f & 0x80 != 0, f & 0x40 != 0, f & 0x20 != 0, true),
        f & !0x10u8 == with_flags(f, f & 0x80 != 0, f & 0x40 != 0, f & 0x20 != 0, false),
{
}

impl Cpu {
    /// Whether the Zero flag (bit 7 of F) is set.
    pub fn get_flag_z(&self) -> (r: bool)
        ensures
            r == self.flag_z(),
    {
        (self.f & FLAG_Z_MASK) != 0
    }

    /// Sets the Zero flag to `value`; every other bit of every register stays.
    pub fn set_flag_z(&mut self, value: bool)
        ensures
            *final(self) == (Cpu {
                f: old(self).f_with(value, old(self).flag_n(), old(self).flag_h(), old(self).flag_c()),
                ..*old(self)
            }),
    {
        let f = self.f;
        proof { lemma_flag_bits(f); }
        if value {
            self.f = self.f | FLAG_Z_MASK;
        } else {
            self.f = self.f & !FLAG_Z_MASK;
        }
    }

    /// Whether the Subtraction flag (bit 6 of F) is set.
    pub fn get_flag_n(&self) -> (r: bool)
        ensures
            r == self.flag_n(),
    {
        (self.f & FLAG_N_MASK) != 0
    }

    /// Sets the Subtraction flag to `value`; every other bit of every register stays.
    pub fn set_flag_n(&mut self, value: bool)
        ensures
            *final(self) == (Cpu {
                f: old(self).f_with(old(self).flag_z(), value, old(self).flag_h(), old(self).flag_c()),
                ..*old(self)
            }),
    {
        let f = self.f;
        proof { lemma_flag_bits(f); }
        if value {
            self.f = self.f | FLAG_N_MASK;
        } else {
            self.f = self.f & !FLAG_N_MASK;
        }
    }

    /// Whether the Half-carry flag (bit 5 of F) is set.
    pub fn get_flag_h(&self) -> (r: bool)
        ensures
            r == self.flag_h(),
    {
        (self.f & FLAG_H_MASK) != 0
    }

    /// Sets the Half-carry flag to `value`; every other bit of every register stays.
    pub fn set_flag_h(&mut self, value: bool)
        ensures
            *final(self) == (Cpu {
                f: old(self).f_with(old(self).flag_z(), old(self).flag_n(), value, old(self).flag_c()),
                ..*old(self)
            }),
    {
        let f = self.f;
        proof { lemma_flag_bits(f); }
        if value {
            self.f = self.f | FLAG_H_MASK;
        } else {
            self.f = self.f & !FLAG_H_MASK;
        }
    }

    /// Whether the Carry flag (bit 4 of F) is set.
    pub fn get_flag_c(&self) -> (r: bool)
        ensures
            r == self.flag_c(),
    {
        (self.f & FLAG_C_MASK) != 0
    }

    /// Sets the Carry flag to `value`; every other bit of every register stays.
    pub fn set_flag_c(&mut self, value: bool)
        ensures
            *final(self) == (Cpu {
                f: old(self).f_with(old(self).flag_z(), old(self).flag_n(), old(self).flag_h(), value),
                ..*old(self)
            }),
    {
        let f = self.f;
        proof { lemma_flag_bits(f); }
        if value {
            self.f = self.f | FLAG_C_MASK;
        } else {
            self.f = self.f & !FLAG_C_MASK;
        }
    }
}

} // verus!
