//! State of the Mbc7 mapper. Reading and writing through it is not implemented.
use vstd::prelude::*;

verus! {

/// Bank register of a Mbc7 cartridge.
pub struct Mbc7 {
    pub current_rom_bank: u8,
}

impl Mbc7 {
    /// ROM bank 1 selected.
    pub fn new() -> (r: Self)
        ensures
            r == (Mbc7 { current_rom_bank: 1 }),
    {
        Mbc7 { current_rom_bank: 1 }
    }
}

} // verus!
