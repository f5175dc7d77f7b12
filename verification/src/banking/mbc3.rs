//! The MBC3 mapper: up to 2 MiB of ROM in 16 KiB banks, up to 64 KiB of RAM
//! in 8 KiB banks, and the real-time clock, whose registers take the place
//! of RAM when selected.
use vstd::prelude::*;
use crate::banking::{Banking, byte_or};
use crate::rtc::{ClockReading, Rtc};

verus! {

/// Registers of MBC3.
pub struct Mbc3 {
    pub current_rom_bank: u8,
    /// RAM bank (0x00-0x07) or clock register (0x08-0x0C) seen at 0xA000.
    pub ram_rtc_select: u8,
    /// The clock registers as last latched.
    pub latched_rtc: [u8; 5],
    /// The last value written to 0x6000-0x7FFF.
    pub latch_state: u8,
    pub rct: Rtc,
}

impl Mbc3 {
    /// The offset in RAM of an address in 0xA000-0xBFFF.
    pub open spec fn ram_offset(self, address: u16) -> int {
        self.ram_rtc_select * 0x2000 + (address - 0xA000)
    }

    /// What a read of `address` gives: bank 0 at 0x0000, the selected bank
    /// (0 read as 1) at 0x4000, and at 0xA000, while RAM is enabled, the
    /// selected RAM bank or latched clock register.
    pub open spec fn read_spec(self, banking: Banking, address: u16) -> u8 {
        if address <= 0x3FFF {
            byte_or(banking.card_rom@, address as int, 0xFF)
        } else if address <= 0x7FFF {
            let bank: int = if self.current_rom_bank == 0 {
                1
            } else {
                self.current_rom_bank as int
            };
            byte_or(banking.card_rom@, bank * 0x4000 + (address - 0x4000), 0xFF)
        } else if 0xA000 <= address <= 0xBFFF {
            if !banking.ram_enabled {
                0xFF
            } else if self.ram_rtc_select <= 0x07 {
                byte_or(banking.card_ram@, self.ram_offset(address), 0xFF)
            } else if self.ram_rtc_select <= 0x0C {
                self.latched_rtc@[self.ram_rtc_select - 0x08]
            } else {
                0xFF
            }
        } else {
            0xFF
        }
    }

    /// The mapper and cartridge after a write of `value` to `address`.
    ///  - 0x0000-0x1FFF: RAM and clock enabled exactly when the low nibble is 0xA;
    ///  - 0x2000-0x3FFF: the ROM bank is the low seven bits (0 selects 1);
    ///  - 0x4000-0x5FFF: selects the RAM bank or clock register;
    ///  - 0x6000-0x7FFF: writing 1 after 0 latches the clock, read at the
    ///    time of the write; the value is remembered;
    ///  - 0xA000-0xBFFF, RAM enabled: the RAM byte, if it exists, or the
    ///    selected clock register, the clock being brought up to the time of
    ///    the write first.
    /// The clock readings are those of the moment; the relation holds for some.
    pub open spec fn write_rel(self, b0: Banking, address: u16, value: u8, m1: Mbc3, b1: Banking) -> bool {
        if address <= 0x1FFF {
            m1 == self && b1 == (Banking { ram_enabled: value & 0x0F == 0x0A, ..b0 })
        } else if address <= 0x3FFF {
            b1 == b0 && m1 == (Mbc3 {
                current_rom_bank: if value & 0x7F == 0 {
                    1
                } else {
                    value & 0x7F
                },
                ..self
            })
        } else if address <= 0x5FFF {
            b1 == b0 && m1 == (Mbc3 { ram_rtc_select: value, ..self })
        } else if address <= 0x7FFF {
            &&& b1 == b0
            &&& if self.latch_state == 0x00 && value == 0x01 {
                exists|now: Option<ClockReading>|
                    {
                        &&& m1 == (Mbc3 {
                            latched_rtc: m1.latched_rtc,
                            rct: #[trigger] self.rct.updated(now),
                            latch_state: value,
                            ..self
                        })
                        &&& m1.latched_rtc@ == self.rct.updated(now).registers()
                    }
            } else {
                m1 == (Mbc3 { latch_state: value, ..self })
            }
        } else if 0xA000 <= address <= 0xBFFF && b0.ram_enabled && self.ram_rtc_select <= 0x07 {
            &&& m1 == self
            &&& if self.ram_offset(address) < b0.card_ram@.len() {
                b0.ram_written(self.ram_offset(address), value, b1)
            } else {
                b1 == b0
            }
        } else if 0xA000 <= address <= 0xBFFF && b0.ram_enabled && 0x08 <= self.ram_rtc_select
            <= 0x0C {
            &&& b1 == b0
            &&& exists|now: Option<ClockReading>|
                m1 == (Mbc3 {
                    rct: Rtc {
                        last_update: m1.rct.last_update,
                        ..#[trigger] self.rct.updated(now).with_register(
                            (self.ram_rtc_select - 0x08) as usize,
                            value,
                        )
                    },
                    ..self
                })
        } else {
            m1 == self && b1 == b0
        }
    }

    /// ROM bank 1 selected, RAM bank 0, nothing latched, and a clock at zero
    /// last updated now.
    pub fn new() -> (r: Self)
        ensures
            r == (Mbc3 {
                current_rom_bank: 1,
                ram_rtc_select: 0,
                latch_state: 0xFF,
                latched_rtc: [0u8, 0u8, 0u8, 0u8, 0u8],
                rct: Rtc {
                    halt: false,
                    seconds: 0,
                    minutes: 0,
                    hours: 0,
                    days: 0,
                    carry: false,
                    last_update: r.rct.last_update,
                },
            }),
    {
        Mbc3 {
            current_rom_bank: 1,
            ram_rtc_select: 0,
            latch_state: 0xFF,
            latched_rtc: [0, 0, 0, 0, 0],
            rct: Rtc::new(),
        }
    }

    /// Reads a byte of the cartridge through the mapper.
    pub fn read(&mut self, banking: &mut Banking, address: u16) -> (r: u8)
        ensures
            r == old(self).read_spec(*old(banking), address),
            *final(self) == *old(self),
            *final(banking) == *old(banking),
    {
        if address <= 0x3FFF {
            banking.rom_byte(address as usize)
        } else if address <= 0x7FFF {
            let bank = if self.current_rom_bank == 0 {
                1
            } else {
                self.current_rom_bank
            };
            let offset = (bank as usize * 0x4000) + (address - 0x4000) as usize;
            banking.rom_byte(offset)
        } else if 0xA000 <= address && address <= 0xBFFF {
            if !banking.ram_enabled {
                return 0xFF;
            }
            if self.ram_rtc_select <= 0x07 {
                let offset = (self.ram_rtc_select as usize * 0x2000) + ((address - 0xA000) as usize);
                banking.ram_byte(offset)
            } else if self.ram_rtc_select <= 0x0C {
                let idx = (self.ram_rtc_select - 0x08) as usize;
                self.latched_rtc[idx]
            } else {
                0xFF
            }
        } else {
            0xFF
        }
    }

    /// Writes to a mapper register, to cartridge RAM or to a clock register.
    pub fn write(&mut self, banking: &mut Banking, address: u16, value: u8)
        ensures
            old(self).write_rel(*old(banking), address, value, *final(self), *final(banking)),
    {
        if address <= 0x1FFF {
            banking.ram_enabled = (value & 0x0F) == 0x0A;
        } else if address <= 0x3FFF {
            let mut bank = value & 0x7F;
            if bank == 0 {
                bank = 1;
            }
            self.current_rom_bank = bank;
        } else if address <= 0x5FFF {
            self.ram_rtc_select = value;
        } else if address <= 0x7FFF {
            if self.latch_state == 0x00 && value == 0x01 {
                let ghost rct0 = self.rct;
                self.latched_rtc = self.rct.get_mbc3_registers();
                let ghost now = choose|now: Option<ClockReading>| self.rct == rct0.updated(now);
                assert(self.rct == rct0.updated(now));
            }
            self.latch_state = value;
        } else if 0xA000 <= address && address <= 0xBFFF {
            if !banking.ram_enabled {
                return;
            }
            if self.ram_rtc_select <= 0x07 {
                let offset = (self.ram_rtc_select as usize * 0x2000) + ((address - 0xA000) as usize);
                banking.store_ram(offset, value);
            } else if self.ram_rtc_select <= 0x0C {
                let idx = (self.ram_rtc_select - 0x08) as usize;
                let ghost rct0 = self.rct;
                self.rct.set_mbc3_register(idx, value);
                let ghost now = choose|now: Option<ClockReading>|
                    self.rct == (Rtc {
                        last_update: self.rct.last_update,
                        ..#[trigger] rct0.updated(now).with_register(idx, value)
                    });
                assert(self.rct == (Rtc {
                    last_update: self.rct.last_update,
                    ..rct0.updated(now).with_register(idx, value)
                }));
            }
        }
    }
}

} // verus!
