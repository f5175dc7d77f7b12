//! State of the Tama5 mapper. Reading and writing through it is not implemented.
use vstd::prelude::*;

verus! {

/// Bank register of a Tama5 cartridge.
pub struct Tama5 {
    pub current_rom_bank: u8,
}

impl Tama5 {
    /// ROM bank 1 selected.
    pub fn new() -> (r: Self)
        ensures
            r == (Tama5 { current_rom_bank: 1 }),
    {
        Tama5 { current_rom_bank: 1 }
    }
}

} // verus!
