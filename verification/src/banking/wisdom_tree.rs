//! State of the WisdomTree mapper. Reading and writing through it is not implemented.
use vstd::prelude::*;

verus! {

/// Bank register of a WisdomTree cartridge.
pub struct WisdomTree {
    pub current_rom_bank: u8,
}

impl WisdomTree {
    /// ROM bank 1 selected.
    pub fn new() -> (r: Self)
        ensures
            r == (WisdomTree { current_rom_bank: 1 }),
    {
        WisdomTree { current_rom_bank: 1 }
    }
}

} // verus!
