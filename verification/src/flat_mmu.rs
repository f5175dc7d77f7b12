//! A flat memory: 64 KiB of bytes addressed by 16 bits, without mappers or
//! registers.
use vstd::prelude::*;

verus! {

/// 65,536 bytes of memory.
pub struct Mmu {
    pub data: [u8; 65536],
}

impl Mmu {
    /// A memory with every byte at zero.
    pub fn new() -> (r: Self)
        ensures
            r.data@ == Seq::new(65536, |i: int| 0u8),
    {
        let r = Mmu { data: [0; 65536] };
        assert(r.data@ =~= Seq::new(65536, |i: int| 0u8));
        r
    }

    /// The byte at `address`.
    pub fn read_byte(&self, address: u16) -> (r: u8)
        ensures
            r == self.data@[address as int],
    {
        self.data[address as usize]
    }

    /// Stores `value` at `address`.
    pub fn write_byte(&mut self, address: u16, value: u8)
        ensures
            final(self).data@ == old(self).data@.update(address as int, value),
    {
        self.data[address as usize] = value;
    }
}

/// Reading an address gives the last byte written there, and a write leaves
/// every other address as it was: `after` is `before` once `write_byte` has
/// stored `value` at `address`, and `read_byte` on `after` gives back `value`
/// there and the old byte anywhere else.
pub proof fn lemma_read_after_write(before: Mmu, after: Mmu, address: u16, value: u8, other: u16)
    requires
        after.data@ == before.data@.update(address as int, value),
    ensures
        after.data@[address as int] == value,
        other != address ==> after.data@[other as int] == before.data@[other as int],
{
}

} // verus!
