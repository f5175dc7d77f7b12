//! Cartridges without a mapper: 32 KiB of ROM and, for types 0x08 and 0x09,
//! up to 8 KiB of RAM.
use vstd::prelude::*;
use crate::banking::{Banking, byte_or};

verus! {

/// Registers of a cartridge without a mapper.
pub struct RomOnly {
    pub current_rom_bank: u8,
    pub current_ram_bank: u8,
    /// Whether the cartridge has RAM (cartridge types 0x08 and 0x09).
    pub ram_enabled: bool,
}

impl RomOnly {
    /// What a read of `address` gives: ROM below 0x8000, RAM in 0xA000-0xBFFF
    /// when the cartridge has it, 0xFF past the end of either and elsewhere.
    pub open spec fn read_spec(self, banking: Banking, address: u16) -> u8 {
        if address <= 0x7FFF {
            byte_or(banking.card_rom@, address as int, 0xFF)
        } else if 0xA000 <= address <= 0xBFFF && self.ram_enabled {
            byte_or(banking.card_ram@, address - 0xA000, 0xFF)
        } else {
            0xFF
        }
    }

    /// The cartridge state after a write: only a RAM byte that exists can change.
    pub open spec fn write_rel(self, b0: Banking, address: u16, value: u8, b1: Banking) -> bool {
        if 0xA000 <= address <= 0xBFFF && self.ram_enabled && address - 0xA000 < b0.card_ram@.len() {
            b0.ram_written(address - 0xA000, value, b1)
        } else {
            b1 == b0
        }
    }

    /// A cartridge of type `value`; it has RAM for types 0x08 and 0x09.
    pub fn new(value: u8) -> (r: Self)
        ensures
            r == (RomOnly {
                current_rom_bank: 1,
                current_ram_bank: 0,
                ram_enabled: value == 0x08 || value == 0x09,
            }),
    {
        RomOnly { current_rom_bank: 1, current_ram_bank: 0, ram_enabled: value == 0x08 || value == 0x09 }
    }

    /// Reads a byte of the cartridge.
    pub fn read(&self, banking: &mut Banking, address: u16) -> (r: u8)
        ensures
            r == self.read_spec(*old(banking), address),
            *final(banking) == *old(banking),
    {
        if address <= 0x7FFF {
            banking.rom_byte(address as usize)
        } else if 0xA000 <= address && address <= 0xBFFF && self.ram_enabled {
            banking.ram_byte((address - 0xA000) as usize)
        } else {
            0xFF
        }
    }

    /// Writes a byte to the cartridge: writes to RAM that exists are stored,
    /// all others are ignored.
    pub fn write(&self, banking: &mut Banking, address: u16, value: u8)
        ensures
            self.write_rel(*old(banking), address, value, *final(banking)),
    {
        if 0xA000 <= address && address <= 0xBFFF && self.ram_enabled {
            banking.store_ram((address - 0xA000) as usize, value);
        }
    }
}

} // verus!
