//! Cartridge set-up and mapper writes, reached from the bus.
use vstd::prelude::*;
use crate::mmu::Mmu;
use crate::banking::{ram_size_of, zeros, Banking};

verus! {

impl Mmu {
    /// Installs the mapper that the cartridge type `banking_mode` names.
    pub fn manager(&mut self, banking_mode: u8)
        ensures
            old(self).banking.managed_rel(banking_mode, final(self).banking),
            *final(self) == (Mmu { banking: final(self).banking, ..*old(self) }),
    {
        self.banking.manager(banking_mode);
    }

    /// Allocates the cartridge RAM that the RAM-size code announces.
    pub fn ram_manager(&mut self, ram_size_code: u8)
        ensures
            final(self).banking.card_ram@ == zeros(ram_size_of(ram_size_code)),
            final(self).banking == (Banking {
                current_ram_bank: 0,
                ram_enabled: old(self).banking.ram_enabled || ram_size_of(ram_size_code) == 0,
                card_ram: final(self).banking.card_ram,
                ..old(self).banking
            }),
            *final(self) == (Mmu { banking: final(self).banking, ..*old(self) }),
    {
        self.banking.ram_manager(ram_size_code);
    }

    /// Hands a write to the cartridge's mapper.
    pub fn handle_mbc_write(&mut self, address: u16, value: u8)
        requires
            old(self).banking.mapper.implemented(),
        ensures
            old(self).banking.write_rel(address, value, final(self).banking),
            *final(self) == (Mmu { banking: final(self).banking, ..*old(self) }),
    {
        self.banking.write(address, value);
    }
}

} // verus!
