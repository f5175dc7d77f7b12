//! State of the Mmm01 mapper. Reading and writing through it is not implemented.
use vstd::prelude::*;

verus! {

/// Bank register of a Mmm01 cartridge.
pub struct Mmm01 {
    pub current_rom_bank: u8,
}

impl Mmm01 {
    /// ROM bank 1 selected.
    pub fn new() -> (r: Self)
        ensures
            r == (Mmm01 { current_rom_bank: 1 }),
    {
        Mmm01 { current_rom_bank: 1 }
    }
}

} // verus!
