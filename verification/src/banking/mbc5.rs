//! State of the Mbc5 mapper. Reading and writing through it is not implemented.
use vstd::prelude::*;

verus! {

/// Bank register of a Mbc5 cartridge.
pub struct Mbc5 {
    pub current_rom_bank: u8,
}

impl Mbc5 {
    /// ROM bank 1 selected.
    pub fn new() -> (r: Self)
        ensures
            r == (Mbc5 { current_rom_bank: 1 }),
    {
        Mbc5 { current_rom_bank: 1 }
    }
}

} // verus!
