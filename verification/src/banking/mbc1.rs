//! The MBC1 mapper: up to 2 MiB of ROM in 16 KiB banks and up to 32 KiB of
//! RAM in 8 KiB banks, with a banking mode that decides what the two upper
//! bank bits select.
use vstd::prelude::*;
use crate::banking::{Banking, byte_or};

verus! {

/// The ROM bank register of MBC1: bits 0-4 from writes to 0x2000-0x3FFF,
/// bits 5-6 from writes to 0x4000-0x5FFF.
pub struct Mbc1 {
    pub current_rom_bank: u8,
}

impl Mbc1 {
    /// The bank mapped at 0x0000-0x3FFF: the upper bits in mode 1, else 0.
    pub open spec fn low_bank(self, banking: Banking) -> int {
        if banking.banking_mode == 1 {
            (self.current_rom_bank & 0x60) as int
        } else {
            0
        }
    }

    /// The bank mapped at 0x4000-0x7FFF: in mode 1 only the low five bits
    /// count; bank 0 is read as bank 1.
    pub open spec fn high_bank(self, banking: Banking) -> int {
        let bank = if banking.banking_mode == 1 {
            self.current_rom_bank & 0x1F
        } else {
            self.current_rom_bank
        };
        if bank == 0 {
            1
        } else {
            bank as int
        }
    }

    /// The offset in RAM of an address in 0xA000-0xBFFF.
    pub open spec fn ram_offset(banking: Banking, address: u16) -> int {
        banking.current_ram_bank * 0x2000 + (address - 0xA000)
    }

    /// What a read of `address` gives; 0xFF where the cartridge has nothing,
    /// and for RAM while it is disabled or absent.
    pub open spec fn read_spec(self, banking: Banking, address: u16) -> u8 {
        if address <= 0x3FFF {
            byte_or(banking.card_rom@, self.low_bank(banking) * 0x4000 + address, 0xFF)
        } else if address <= 0x7FFF {
            byte_or(banking.card_rom@, self.high_bank(banking) * 0x4000 + (address - 0x4000), 0xFF)
        } else if 0xA000 <= address <= 0xBFFF {
            if !banking.ram_enabled || banking.card_ram@.len() == 0 {
                0xFF
            } else {
                byte_or(banking.card_ram@, Self::ram_offset(banking, address), 0xFF)
            }
        } else {
            0xFF
        }
    }

    /// The mapper and cartridge after a write of `value` to `address`.
    ///  - 0x0000-0x1FFF: RAM is enabled exactly when the low nibble is 0xA;
    ///  - 0x2000-0x3FFF: the low five bank bits (0 selects 1); in mode 0 the
    ///    upper bits stay, in mode 1 they are cleared;
    ///  - 0x4000-0x5FFF: the two upper bank bits; in mode 1 they also select
    ///    the RAM bank, in mode 0 the RAM bank returns to 0;
    ///  - 0x6000-0x7FFF: the banking mode (bit 0); mode 0 returns RAM to bank 0;
    ///  - 0xA000-0xBFFF: the RAM byte, when RAM is enabled and the byte exists.
    pub open spec fn write_rel(self, b0: Banking, address: u16, value: u8, m1: Mbc1, b1: Banking) -> bool {
        if address <= 0x1FFF {
            m1 == self && b1 == (Banking { ram_enabled: value & 0x0F == 0x0A, ..b0 })
        } else if address <= 0x3FFF {
            let bank = if value & 0x1F == 0 {
                1u8
            } else {
                value & 0x1F
            };
            let high = if b0.banking_mode == 0 {
                self.current_rom_bank & 0x60
            } else {
                0u8
            };
            m1 == (Mbc1 { current_rom_bank: high | bank }) && b1 == b0
        } else if address <= 0x5FFF {
            let bits = value & 0x03;
            &&& m1 == (Mbc1 { current_rom_bank: (self.current_rom_bank & 0x1F) | (bits << 5u8) })
            &&& b1 == (Banking {
                current_ram_bank: if b0.banking_mode == 0 {
                    0
                } else {
                    bits
                },
                ..b0
            })
        } else if address <= 0x7FFF {
            let mode = value & 0x01;
            &&& m1 == self
            &&& b1 == (Banking {
                banking_mode: mode,
                current_ram_bank: if mode == 0 {
                    0
                } else {
                    b0.current_ram_bank
                },
                ..b0
            })
        } else if 0xA000 <= address <= 0xBFFF && b0.ram_enabled && b0.card_ram@.len() > 0
            && Self::ram_offset(b0, address) < b0.card_ram@.len() {
            m1 == self && b0.ram_written(Self::ram_offset(b0, address), value, b1)
        } else {
            m1 == self && b1 == b0
        }
    }

    /// ROM bank 1 selected.
    pub fn new() -> (r: Self)
        ensures
            r == (Mbc1 { current_rom_bank: 1 }),
    {
        Mbc1 { current_rom_bank: 1 }
    }

    /// Reads a byte of the cartridge through the mapper.
    pub fn read(&mut self, banking: &mut Banking, address: u16) -> (r: u8)
        ensures
            r == old(self).read_spec(*old(banking), address),
            *final(self) == *old(self),
            *final(banking) == *old(banking),
    {
        if address <= 0x3fff {
            let bank: usize = if banking.banking_mode == 1 {
                (self.current_rom_bank & 0x60) as usize
            } else {
                0
            };
            banking.rom_byte(bank * 0x4000 + address as usize)
        } else if address <= 0x7fff {
            let bank = if banking.banking_mode == 1 {
                self.current_rom_bank & 0x1F
            } else {
                self.current_rom_bank
            };
            let bank: usize = if bank == 0 {
                1
            } else {
                bank as usize
            };
            banking.rom_byte(bank * 0x4000 + (address - 0x4000) as usize)
        } else if 0xA000 <= address && address <= 0xBFFF {
            if !banking.ram_enabled || banking.card_ram.len() == 0 {
                0xFF
            } else {
                let offset = banking.current_ram_bank as usize * 0x2000 + (address - 0xA000) as usize;
                banking.ram_byte(offset)
            }
        } else {
            0xff
        }
    }

    /// Writes to a mapper register or to cartridge RAM.
    pub fn write(&mut self, banking: &mut Banking, address: u16, value: u8)
        ensures
            old(self).write_rel(*old(banking), address, value, *final(self), *final(banking)),
    {
        if address <= 0x1fff {
            banking.ram_enabled = (value & 0x0F) == 0x0A;
        } else if address <= 0x3fff {
            let mut bank = value & 0x1F;
            if bank == 0 {
                bank = 1;
            }
            let high_bits = if banking.banking_mode == 0 {
                self.current_rom_bank & 0x60
            } else {
                0
            };
            self.current_rom_bank = high_bits | bank;
        } else if address <= 0x5FFF {
            let bits = value & 0x03;
            self.current_rom_bank = (self.current_rom_bank & 0x1F) | (bits << 5);
            if banking.banking_mode == 0 {
                banking.current_ram_bank = 0;
            } else {
                banking.current_ram_bank = bits;
            }
        } else if address <= 0x7FFF {
            banking.banking_mode = value & 0x01;
            if banking.banking_mode == 0 {
                banking.current_ram_bank = 0;
            }
        } else if 0xA000 <= address && address <= 0xBFFF {
            if banking.ram_enabled && banking.card_ram.len() != 0 {
                let offset = banking.current_ram_bank as usize * 0x2000 + (address - 0xA000) as usize;
                banking.store_ram(offset, value);
            }
        }
    }
}

} // verus!
