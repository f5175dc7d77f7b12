//! The game cartridge image and where it is found.
use vstd::prelude::*;
use crate::mmu::Mmu;
use crate::banking::Banking;

verus! {

impl Mmu {
    /// Takes the bytes of the game cartridge, as read from its file, and sets
    /// up its mapper and RAM from the header: byte 0x147 is the cartridge
    /// type, byte 0x148 the RAM-size code.
    pub fn load_game(&mut self, data: Vec<u8>)
        requires
            data@.len() > 0x148,
        ensures
            final(self).banking.card_rom@ == data@,
            *final(self) == (Mmu { banking: final(self).banking, ..*old(self) }),
            exists|managed: Banking|
                {
                    &&& #[trigger] old(self).banking.with_rom(data).managed_rel(
                        data@[0x147],
                        managed,
                    )
                    &&& final(self).banking.card_ram@ == crate::banking::zeros(
                        crate::banking::ram_size_of(data@[0x148]),
                    )
                    &&& final(self).banking == (Banking {
                        current_ram_bank: 0,
                        ram_enabled: managed.ram_enabled || crate::banking::ram_size_of(data@[0x148]) == 0,
                        card_ram: final(self).banking.card_ram,
                        ..managed
                    })
                },
    {
        let cartridge_type = data[0x147];
        let ram_size_code = data[0x148];
        self.banking.card_rom = data;
        self.banking.manager(cartridge_type);
        let ghost managed = self.banking;
        self.banking.ram_manager(ram_size_code);
    }

    /// Records where the game cartridge is found.
    pub fn set_game_path(&mut self, game_path: std::path::PathBuf)
        ensures
            *final(self) == (Mmu { game_path: game_path, ..*old(self) }),
    {
        self.game_path = game_path;
    }
}

} // verus!
