//! State of the Mbc6 mapper. Reading and writing through it is not implemented.
use vstd::prelude::*;

verus! {

/// Bank register of a Mbc6 cartridge.
pub struct Mbc6 {
    pub current_rom_bank: u8,
}

impl Mbc6 {
    /// ROM bank 1 selected.
    pub fn new() -> (r: Self)
        ensures
            r == (Mbc6 { current_rom_bank: 1 }),
    {
        Mbc6 { current_rom_bank: 1 }
    }
}

} // verus!
