//! Battery-backed cartridge RAM: the bytes saved to and loaded from disk.
use vstd::prelude::*;
use crate::mmu::Mmu;
use crate::banking::Banking;

verus! {

impl Mmu {
    /// Copies a saved RAM image into the cartridge RAM: as many bytes as
    /// both hold; the rest of the RAM stays as it was.
    pub fn load_save_file(&mut self, buffer: Vec<u8>)
        ensures
            ({
                let n = if buffer@.len() < old(self).banking.card_ram@.len() {
                    buffer@.len()
                } else {
                    old(self).banking.card_ram@.len()
                };
                final(self).banking.card_ram@ == buffer@.subrange(0, n as int)
                    + old(self).banking.card_ram@.subrange(n as int, old(self).banking.card_ram@.len() as int)
            }),
            *final(self) == (Mmu {
                banking: Banking { card_ram: final(self).banking.card_ram, ..old(self).banking },
                ..*old(self)
            }),
    {
        let copy_len = if buffer.len() < self.banking.card_ram.len() {
            buffer.len()
        } else {
            self.banking.card_ram.len()
        };
        let mut i: usize = 0;
        while i < copy_len
            invariant
                copy_len <= buffer@.len(),
                copy_len <= old(self).banking.card_ram@.len(),
                i <= copy_len,
                self.banking.card_ram@.len() == old(self).banking.card_ram@.len(),
                forall|j: int| 0 <= j < i ==> self.banking.card_ram@[j] == buffer@[j],
                forall|j: int| i <= j < self.banking.card_ram@.len() ==> self.banking.card_ram@[j] == old(self).banking.card_ram@[j],
                *self == (Mmu {
                    banking: Banking { card_ram: self.banking.card_ram, ..old(self).banking },
                    ..*old(self)
                }),
            decreases copy_len - i,
        {
            self.banking.card_ram.set(i, buffer[i]);
            i = i + 1;
        }
        assert(self.banking.card_ram@ =~= buffer@.subrange(0, copy_len as int)
            + old(self).banking.card_ram@.subrange(copy_len as int, old(self).banking.card_ram@.len() as int));
    }

    /// The cartridge RAM to save to disk, or `None` when the cartridge has no RAM.
    pub fn save_data(&self) -> (r: Option<&Vec<u8>>)
        ensures
            r == (if self.banking.card_ram@.len() == 0 {
                None
            } else {
                Some(&self.banking.card_ram)
            }),
    {
        if self.banking.card_ram.is_empty() {
            None
        } else {
            Some(&self.banking.card_ram)
        }
    }

    /// Records where the save file is found.
    pub fn set_save_path(&mut self, save_path: std::path::PathBuf)
        ensures
            *final(self) == (Mmu { save_path: save_path, ..*old(self) }),
    {
        self.save_path = save_path;
    }
}

} // verus!
