//! State of the M161 mapper. Reading and writing through it is not implemented.
use vstd::prelude::*;

verus! {

/// Bank registers of a M161 cartridge.
pub struct M161 {
    pub current_rom_bank: u8,
    pub current_ram_bank: u8,
    pub ram_enabled: bool,
}

impl M161 {
    /// ROM bank 1 selected, RAM bank 0, RAM disabled.
    pub fn new() -> (r: Self)
        ensures
            r == (M161 { current_rom_bank: 1, current_ram_bank: 0, ram_enabled: false }),
    {
        M161 { current_rom_bank: 1, current_ram_bank: 0, ram_enabled: false }
    }
}

} // verus!
