//! A Game Boy emulator core: the SM83 processor, the memory bus with its
//! cartridge mappers, the real-time clock of MBC3 cartridges and the timer.
pub mod cpu;
pub mod register_pair;
pub mod rtc;
pub mod timer;
pub mod banking;
pub mod mmu;
pub mod system;
pub mod flat_mmu;
pub mod laws;
