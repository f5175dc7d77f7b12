//! State of the Huc1 mapper. Reading and writing through it is not implemented.
use vstd::prelude::*;

verus! {

/// Bank registers of a Huc1 cartridge.
pub struct Huc1 {
    pub current_rom_bank: u8,
    pub current_ram_bank: u8,
    pub ram_enabled: bool,
}

impl Huc1 {
    /// ROM bank 1 selected, RAM bank 0, RAM disabled.
    pub fn new() -> (r: Self)
        ensures
            r == (Huc1 { current_rom_bank: 1, current_ram_bank: 0, ram_enabled: false }),
    {
        Huc1 { current_rom_bank: 1, current_ram_bank: 0, ram_enabled: false }
    }
}

} // verus!
