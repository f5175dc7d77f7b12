//! The MBC2 mapper: a 4-bit ROM bank register (up to 16 banks of 16 KiB) and
//! 512 half-bytes of built-in RAM. Bit 8 of the address tells its two
//! registers apart. The offset of a bank in the switchable window is
//! computed in 16 bits, which overflows from bank 4 on, so reads of
//! 0x4000-0x7FFF are refused (`can_read`) while the selected bank is 4 or
//! more: only the first 64 KiB of ROM can be read.
use vstd::prelude::*;
use crate::banking::{Banking, byte_or};

verus! {

/// Registers of MBC2.
pub struct Mbc2 {
    pub current_rom_bank: u8,
    pub ram_enabled: bool,
}

impl Mbc2 {
    /// Reads of 0x4000-0x7FFF compute the ROM offset in 16 bits; it does not
    /// overflow while the bank is at most 3.
    pub open spec fn can_read(self, address: u16) -> bool {
        0x4000 <= address <= 0x7FFF ==> self.current_rom_bank <= 3
    }

    /// What a read of `address` gives. RAM cells hold four bits; the upper
    /// four read as 1, and cells past the end of the RAM read as 0xFF.
    pub open spec fn read_spec(self, banking: Banking, address: u16) -> u8 {
        if address <= 0x3FFF {
            byte_or(banking.card_rom@, address as int, 0xFF)
        } else if address <= 0x7FFF {
            byte_or(banking.card_rom@, self.current_rom_bank * 0x4000 + (address - 0x4000), 0xFF)
        } else if 0xA000 <= address <= 0xBFFF {
            if !self.ram_enabled {
                0xFF
            } else {
                byte_or(banking.card_ram@, (address & 0x01FF) as int, 0x0F) | 0xF0
            }
        } else {
            0xFF
        }
    }

    /// The mapper and cartridge after a write of `value` to `address`.
    ///  - 0x0000-0x1FFF with bit 8 clear: RAM enabled exactly when the low
    ///    nibble is 0xA;
    ///  - 0x2000-0x3FFF with bit 8 set: the ROM bank is the low nibble (0 selects 1);
    ///  - 0xA000-0xBFFF with RAM enabled: the cell at the address's low nine
    ///    bits takes the low nibble of the value, if it exists;
    ///  - anything else is ignored.
    pub open spec fn write_rel(self, b0: Banking, address: u16, value: u8, m1: Mbc2, b1: Banking) -> bool {
        if address <= 0x1FFF {
            b1 == b0 && m1 == (if address & 0x0100 == 0 {
                Mbc2 { ram_enabled: value & 0x0F == 0x0A, ..self }
            } else {
                self
            })
        } else if address <= 0x3FFF {
            b1 == b0 && m1 == (if address & 0x0100 != 0 {
                Mbc2 {
                    current_rom_bank: if value & 0x0F == 0 {
                        1
                    } else {
                        value & 0x0F
                    },
                    ..self
                }
            } else {
                self
            })
        } else if 0xA000 <= address <= 0xBFFF && self.ram_enabled && ((address & 0x01FF) as int)
            < b0.card_ram@.len() {
            m1 == self && b0.ram_written((address & 0x01FF) as int, value & 0x0F, b1)
        } else {
            m1 == self && b1 == b0
        }
    }

    /// ROM bank 1 selected, RAM disabled.
    pub fn new() -> (r: Self)
        ensures
            r == (Mbc2 { current_rom_bank: 1, ram_enabled: false }),
    {
        Mbc2 { current_rom_bank: 1, ram_enabled: false }
    }

    /// Reads a byte of the cartridge through the mapper.
    pub fn read(&mut self, banking: &mut Banking, address: u16) -> (r: u8)
        requires
            old(self).can_read(address),
        ensures
            r == old(self).read_spec(*old(banking), address),
            *final(self) == *old(self),
            *final(banking) == *old(banking),
    {
        if address <= 0x3FFF {
            banking.rom_byte(address as usize)
        } else if address <= 0x7FFF {
            let offset = ((self.current_rom_bank as u16 * 0x4000) + (address - 0x4000)) as usize;
            banking.rom_byte(offset)
        } else if 0xA000 <= address && address <= 0xBFFF {
            if !self.ram_enabled {
                0xFF
            } else {
                let i = (address as usize) & 0x01FF;
                assert(i == (address & 0x01FF) as usize) by (bit_vector)
                    requires i == (address as usize) & 0x01FF;
                let cell = if i < banking.card_ram.len() {
                    banking.card_ram[i]
                } else {
                    0x0F
                };
                cell | 0xF0
            }
        } else {
            0xFF
        }
    }

    /// Writes to a mapper register or to the built-in RAM.
    pub fn write(&mut self, banking: &mut Banking, address: u16, value: u8)
        ensures
            old(self).write_rel(*old(banking), address, value, *final(self), *final(banking)),
    {
        if address <= 0x1FFF {
            if (address & 0x0100) == 0 {
                self.ram_enabled = (value & 0x0F) == 0x0A;
            }
        } else if address <= 0x3FFF {
            if (address & 0x0100) != 0 {
                let mut bank = value & 0x0F;
                if bank == 0 {
                    bank = 1;
                }
                self.current_rom_bank = bank;
            }
        } else if 0xA000 <= address && address <= 0xBFFF {
            if self.ram_enabled {
                let idx = (address as usize) & 0x01FF;
                assert(idx == (address & 0x01FF) as usize) by (bit_vector)
                    requires idx == (address as usize) & 0x01FF;
                banking.store_ram(idx, value & 0x0F);
            }
        }
    }
}

} // verus!
