//! The timer: the 16-bit divider behind DIV (0xFF04) and the programmable
//! counter TIMA (0xFF05) with its reload value TMA (0xFF06) and control TAC
//! (0xFF07).
use vstd::prelude::*;

verus! {

/// The timer registers.
pub struct Timer {
    /// Internal 16-bit counter; DIV is its high byte.
    pub div: u16,
    /// Programmable counter.
    pub tima: u8,
    /// Value loaded into TIMA when it overflows.
    pub tma: u8,
    /// Control: bit 2 enables TIMA, bits 0-1 select its frequency.
    pub tac: u8,
}

/// The bit of the internal counter whose falling edge advances TIMA, for
/// the frequency selected by TAC: 1024, 16, 64 or 256 cycles per tick as
/// bits 9, 3, 5 and 7.
pub open spec fn tac_bit(tac: u8) -> u16 {
    if tac & 0x03 == 0 {
        9
    } else if tac & 0x03 == 1 {
        3
    } else if tac & 0x03 == 2 {
        5
    } else {
        7
    }
}

/// Whether bit `bit` of `v` is set.
pub open spec fn bit_of(v: u16, bit: u16) -> bool {
    (v >> bit) & 1 == 1
}

impl Timer {
    /// Whether advancing the counter from `old_div` to `new_div` is a falling
    /// edge of the bit that TAC selects, with TIMA enabled.
    pub open spec fn ticks(self, old_div: u16, new_div: u16) -> bool {
        self.tac & 0x04 != 0 && bit_of(old_div, tac_bit(self.tac)) && !bit_of(
            new_div,
            tac_bit(self.tac),
        )
    }

    /// The timer after `cycles` cycles, and the interrupt flag register after
    /// them: the counter advances (wrapping, by the cycles modulo 65536); on a
    /// falling edge TIMA counts up, and on its overflow it is reloaded from
    /// TMA and bit 2 of IF is set.
    pub open spec fn ticked(self, cycles: u32, if_register: u8) -> (Timer, u8) {
        let new_div = self.div.wrapping_add(cycles as u16);
        let moved = Timer { div: new_div, ..self };
        if self.ticks(self.div, new_div) {
            if self.tima == 0xFF {
                (Timer { tima: self.tma, ..moved }, if_register | 0x04)
            } else {
                (Timer { tima: (self.tima + 1) as u8, ..moved }, if_register)
            }
        } else {
            (moved, if_register)
        }
    }

    /// The value a read of `address` gives: DIV is the high byte of the
    /// counter, TAC reads with bits 3-7 set, other addresses read 0xFF.
    pub open spec fn read_spec(self, address: u16) -> u8 {
        if address == 0xFF04 {
            (self.div / 256) as u8
        } else if address == 0xFF05 {
            self.tima
        } else if address == 0xFF06 {
            self.tma
        } else if address == 0xFF07 {
            self.tac | 0xF8
        } else {
            0xFF
        }
    }

    /// The timer after a write of `value` to `address`: any write to DIV
    /// resets the counter, TAC keeps its low three bits, other addresses
    /// change nothing.
    pub open spec fn write_spec(self, address: u16, value: u8) -> Timer {
        if address == 0xFF04 {
            Timer { div: 0, ..self }
        } else if address == 0xFF05 {
            Timer { tima: value, ..self }
        } else if address == 0xFF06 {
            Timer { tma: value, ..self }
        } else if address == 0xFF07 {
            Timer { tac: value & 0x07, ..self }
        } else {
            self
        }
    }

    /// A timer with every register at zero.
    pub fn new() -> (r: Self)
        ensures
            r == (Timer { div: 0, tima: 0, tma: 0, tac: 0 }),
    {
        Self { div: 0, tima: 0, tma: 0, tac: 0 }
    }

    /// Advances the timer by the cycles the processor spent.
    pub fn tick(&mut self, cycles: u32, if_register: &mut u8)
        ensures
            (*final(self), *final(if_register)) == old(self).ticked(cycles, *old(if_register)),
    {
        let old_div = self.div;
        self.div = self.div.wrapping_add(cycles as u16);
        if self.tac & 0x04 == 0 {
            return;
        }
        let bit_to_check: u16 = match self.tac & 0x03 {
            0 => 9,
            1 => 3,
            2 => 5,
            _ => 7,
        };
        let old_bit = (old_div >> bit_to_check) & 1;
        let new_div = self.div;
        let new_bit = (new_div >> bit_to_check) & 1;
        assert(new_bit == 1 || new_bit == 0) by (bit_vector) requires new_bit == (new_div >> bit_to_check) & 1;
        if old_bit == 1 && new_bit == 0 {
            if self.tima == 0xFF {
                self.tima = self.tma;
                *if_register = *if_register | 0x04;
            } else {
                self.tima = self.tima + 1;
            }
        }
    }

    /// Reads a timer register.
    pub fn read_byte(&self, address: u16) -> (r: u8)
        ensures
            r == self.read_spec(address),
    {
        match address {
            0xFF04 => {
                let div = self.div;
                assert(div >> 8 == div / 256) by (bit_vector);
                (div >> 8) as u8
            },
            0xFF05 => self.tima,
            0xFF06 => self.tma,
            0xFF07 => self.tac | 0xF8,
            _ => 0xFF,
        }
    }

    /// Writes a timer register.
    pub fn write_byte(&mut self, address: u16, value: u8)
        ensures
            *final(self) == old(self).write_spec(address, value),
    {
        match address {
            0xFF04 => self.div = 0,
            0xFF05 => self.tima = value,
            0xFF06 => self.tma = value,
            0xFF07 => self.tac = value & 0x07,
            _ => {},
        }
    }
}

} // verus!
