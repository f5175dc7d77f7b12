//! Mapping the boot ROM out.
use vstd::prelude::*;
use crate::mmu::Mmu;
use crate::cpu::Cpu;

verus! {

impl Mmu {
    /// When `enable` is false, marks the boot ROM as not mapped. The
    /// processor is left as it was: the register state after the boot ROM
    /// that `Cpu::bios_off` builds is not stored into it.
    pub fn set_bios(&mut self, enable: bool, cpu: &mut Cpu)
        ensures
            *final(cpu) == *old(cpu),
            *final(self) == (if enable {
                *old(self)
            } else {
                Mmu { bios_enabe: false, ..*old(self) }
            }),
    {
        if !enable {
            let _ = cpu.bios_off();
            self.bios_enabe = false;
        }
    }
}

} // verus!
