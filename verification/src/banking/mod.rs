//! Cartridge memory and the mappers that select its ROM and RAM banks.
use vstd::prelude::*;
use crate::rtc::Rtc;

pub mod huc1;
pub mod huc3;
pub mod m161;
pub mod mbc1;
pub mod mbc2;
pub mod mbc3;
pub mod mbc5;
pub mod mbc6;
pub mod mbc7;
pub mod mmm01;
pub mod rom_only;
pub mod tama5;
pub mod wisdom_tree;

verus! {

/// The byte at `i` of `s`, or `d` where `s` has none.
pub open spec fn byte_or(s: Seq<u8>, i: int, d: u8) -> u8 {
    if 0 <= i < s.len() {
        s[i]
    } else {
        d
    }
}

/// The cartridge: its ROM and RAM and the bank registers shared by mappers.
pub struct Banking {
    pub mapper: Mapper,
    pub current_ram_bank: u8,
    pub mbc_type: u8,
    pub banking_mode: u8,
    pub card_rom: Vec<u8>,
    pub card_ram: Vec<u8>,
    pub ram_enabled: bool,
}

/// The mapper chip of the cartridge and its registers.
pub enum Mapper {
    Huc1(huc1::Huc1),
    Huc3(huc3::Huc3),
    M161(m161::M161),
    Mbc1(mbc1::Mbc1),
    Mbc2(mbc2::Mbc2),
    Mbc3(mbc3::Mbc3),
    Mbc5(mbc5::Mbc5),
    Mbc6(mbc6::Mbc6),
    Mbc7(mbc7::Mbc7),
    Mmm01(mmm01::Mmm01),
    RomOnly(rom_only::RomOnly),
    Tama5(tama5::Tama5),
    WisdomTree(wisdom_tree::WisdomTree),
}

impl Banking {
    /// `b1` is `self` with RAM byte `i` replaced by `value`.
    pub open spec fn ram_written(self, i: int, value: u8, b1: Banking) -> bool {
        &&& b1.card_ram@ == self.card_ram@.update(i, value)
        &&& b1 == Banking { card_ram: b1.card_ram, ..self }
    }

    /// ROM byte `i`, or 0xFF past the end of the ROM.
    pub fn rom_byte(&self, i: usize) -> (r: u8)
        ensures
            r == byte_or(self.card_rom@, i as int, 0xFF),
    {
        if i < self.card_rom.len() {
            self.card_rom[i]
        } else {
            0xFF
        }
    }

    /// RAM byte `i`, or 0xFF past the end of the RAM.
    pub fn ram_byte(&self, i: usize) -> (r: u8)
        ensures
            r == byte_or(self.card_ram@, i as int, 0xFF),
    {
        if i < self.card_ram.len() {
            self.card_ram[i]
        } else {
            0xFF
        }
    }

    /// Stores `value` at RAM byte `i` if the RAM has that byte.
    pub fn store_ram(&mut self, i: usize, value: u8)
        ensures
            if i < old(self).card_ram@.len() {
                old(self).ram_written(i as int, value, *final(self))
            } else {
                *final(self) == *old(self)
            },
    {
        if i < self.card_ram.len() {
            self.card_ram.set(i, value);
        }
    }
}


/// The size in bytes of the RAM that a header RAM-size code announces:
/// none, 2 KiB, 8 KiB, 32 KiB, 128 KiB, 64 KiB; unknown codes give none.
pub open spec fn ram_size_of(code: u8) -> nat {
    if code == 0x01 {
        0x800
    } else if code == 0x02 {
        0x2000
    } else if code == 0x03 {
        0x8000
    } else if code == 0x04 {
        0x20000
    } else if code == 0x05 {
        0x10000
    } else {
        0
    }
}

/// `len` bytes of zero.
pub open spec fn zeros(len: nat) -> Seq<u8> {
    Seq::new(len, |i: int| 0u8)
}

impl Mapper {
    /// The mappers through which the cartridge can be read and written:
    /// none, MBC1, MBC2 and MBC3.
    pub open spec fn implemented(self) -> bool {
        self is RomOnly || self is Mbc1 || self is Mbc2 || self is Mbc3
    }

    /// Whether a read of `address` through the mapper is defined.
    pub open spec fn can_read(self, address: u16) -> bool {
        match self {
            Mapper::RomOnly(_) => true,
            Mapper::Mbc1(_) => true,
            Mapper::Mbc2(m) => m.can_read(address),
            Mapper::Mbc3(_) => true,
            _ => false,
        }
    }

    /// The selected ROM bank.
    pub open spec fn rom_bank(self) -> u8 {
        match self {
            Mapper::Huc1(m) => m.current_rom_bank,
            Mapper::Huc3(m) => m.current_rom_bank,
            Mapper::M161(m) => m.current_rom_bank,
            Mapper::Mbc1(m) => m.current_rom_bank,
            Mapper::Mbc2(m) => m.current_rom_bank,
            Mapper::Mbc3(m) => m.current_rom_bank,
            Mapper::Mbc5(m) => m.current_rom_bank,
            Mapper::Mbc6(m) => m.current_rom_bank,
            Mapper::Mbc7(m) => m.current_rom_bank,
            Mapper::Mmm01(m) => m.current_rom_bank,
            Mapper::RomOnly(m) => m.current_rom_bank,
            Mapper::Tama5(m) => m.current_rom_bank,
            Mapper::WisdomTree(m) => m.current_rom_bank,
        }
    }

    /// What a read of `address` through the mapper gives.
    pub open spec fn read_spec(self, banking: Banking, address: u16) -> u8 {
        match self {
            Mapper::RomOnly(m) => m.read_spec(banking, address),
            Mapper::Mbc1(m) => m.read_spec(banking, address),
            Mapper::Mbc2(m) => m.read_spec(banking, address),
            Mapper::Mbc3(m) => m.read_spec(banking, address),
            _ => 0xFF,
        }
    }

    /// The mapper `m1` and cartridge `b1` after a write through the mapper.
    pub open spec fn write_rel(self, b0: Banking, address: u16, value: u8, m1: Mapper, b1: Banking) -> bool {
        match self {
            Mapper::RomOnly(m) => m1 == self && m.write_rel(b0, address, value, b1),
            Mapper::Mbc1(m) => match m1 {
                Mapper::Mbc1(n) => m.write_rel(b0, address, value, n, b1),
                _ => false,
            },
            Mapper::Mbc2(m) => match m1 {
                Mapper::Mbc2(n) => m.write_rel(b0, address, value, n, b1),
                _ => false,
            },
            Mapper::Mbc3(m) => match m1 {
                Mapper::Mbc3(n) => m.write_rel(b0, address, value, n, b1),
                _ => false,
            },
            _ => false,
        }
    }

    /// Whether a read of `address` through the mapper is defined.
    pub fn readable(&self, address: u16) -> (r: bool)
        ensures
            r == self.can_read(address),
    {
        match self {
            Mapper::RomOnly(_) => true,
            Mapper::Mbc1(_) => true,
            Mapper::Mbc2(m) => !(0x4000 <= address && address <= 0x7FFF) || m.current_rom_bank <= 3,
            Mapper::Mbc3(_) => true,
            _ => false,
        }
    }

    /// Whether the mapper handles reads and writes.
    pub fn is_implemented(&self) -> (r: bool)
        ensures
            r == self.implemented(),
    {
        match self {
            Mapper::RomOnly(_) => true,
            Mapper::Mbc1(_) => true,
            Mapper::Mbc2(_) => true,
            Mapper::Mbc3(_) => true,
            _ => false,
        }
    }

    /// The selected ROM bank.
    pub fn current_rom_bank(&self) -> (r: u8)
        ensures
            r == self.rom_bank(),
    {
        match self {
            Mapper::Huc1(m) => m.current_rom_bank,
            Mapper::Huc3(m) => m.current_rom_bank,
            Mapper::M161(m) => m.current_rom_bank,
            Mapper::Mbc1(m) => m.current_rom_bank,
            Mapper::Mbc2(m) => m.current_rom_bank,
            Mapper::Mbc3(m) => m.current_rom_bank,
            Mapper::Mbc5(m) => m.current_rom_bank,
            Mapper::Mbc6(m) => m.current_rom_bank,
            Mapper::Mbc7(m) => m.current_rom_bank,
            Mapper::Mmm01(m) => m.current_rom_bank,
            Mapper::RomOnly(m) => m.current_rom_bank,
            Mapper::Tama5(m) => m.current_rom_bank,
            Mapper::WisdomTree(m) => m.current_rom_bank,
        }
    }

    /// Reads a byte of the cartridge through the mapper.
    pub fn current_read(&mut self, banking: &mut Banking, address: u16) -> (r: u8)
        requires
            old(self).can_read(address),
        ensures
            r == old(self).read_spec(*old(banking), address),
            *final(self) == *old(self),
            *final(banking) == *old(banking),
    {
        match self {
            Mapper::Mbc1(m) => m.read(banking, address),
            Mapper::Mbc2(m) => m.read(banking, address),
            Mapper::Mbc3(m) => m.read(banking, address),
            Mapper::RomOnly(m) => m.read(banking, address),
            _ => 0xFF,
        }
    }

    /// Writes to the cartridge through the mapper.
    pub fn current_write(&mut self, banking: &mut Banking, address: u16, value: u8)
        requires
            old(self).implemented(),
        ensures
            old(self).write_rel(*old(banking), address, value, *final(self), *final(banking)),
    {
        match self {
            Mapper::Mbc1(m) => m.write(banking, address, value),
            Mapper::Mbc2(m) => m.write(banking, address, value),
            Mapper::Mbc3(m) => m.write(banking, address, value),
            Mapper::RomOnly(m) => m.write(banking, address, value),
            _ => {},
        }
    }
}

impl Banking {
    /// Whether a read of `address` from the cartridge is defined.
    pub open spec fn can_read(self, address: u16) -> bool {
        self.mapper.can_read(address)
    }

    /// What a read of `address` from the cartridge gives.
    pub open spec fn read_spec(self, address: u16) -> u8 {
        self.mapper.read_spec(self, address)
    }

    /// The cartridge `b1` after a write of `value` to `address`.
    pub open spec fn write_rel(self, address: u16, value: u8, b1: Banking) -> bool {
        self.mapper.write_rel(self, address, value, b1.mapper, Banking { mapper: self.mapper, ..b1 })
    }

    /// The cartridge after `manager` received the cartridge type `mode`: the
    /// type is recorded and the mapper it names installed with its initial
    /// registers (MBC1 also resets the banking mode and RAM bank, MBC2 gets
    /// its 512 cells of RAM, MBC3 resets the RAM bank and disables RAM);
    /// unknown types leave the mapper as it was.
    pub open spec fn managed_rel(self, mode: u8, b1: Banking) -> bool {
        let base = Banking { mbc_type: mode, ..self };
        if mode == 0x00 || mode == 0x08 || mode == 0x09 {
            b1 == Banking {
                mapper: Mapper::RomOnly(
                    rom_only::RomOnly {
                        current_rom_bank: 1,
                        current_ram_bank: 0,
                        ram_enabled: mode == 0x08 || mode == 0x09,
                    },
                ),
                ..base
            }
        } else if 0x01 <= mode <= 0x03 {
            b1 == Banking {
                mapper: Mapper::Mbc1(mbc1::Mbc1 { current_rom_bank: 1 }),
                banking_mode: 0,
                current_ram_bank: 0,
                ..base
            }
        } else if mode == 0x05 || mode == 0x06 {
            &&& b1.card_ram@ == zeros(512)
            &&& b1 == Banking {
                mapper: Mapper::Mbc2(mbc2::Mbc2 { current_rom_bank: 1, ram_enabled: false }),
                card_ram: b1.card_ram,
                ..base
            }
        } else if 0x0F <= mode <= 0x13 {
            &&& b1 == Banking { mapper: b1.mapper, current_ram_bank: 0, ram_enabled: false, ..base }
            &&& b1.mapper matches Mapper::Mbc3(m) && m == mbc3::Mbc3 {
                current_rom_bank: 1,
                ram_rtc_select: 0,
                latch_state: 0xFF,
                latched_rtc: [0u8, 0u8, 0u8, 0u8, 0u8],
                rct: Rtc {
                    halt: false,
                    seconds: 0,
                    minutes: 0,
                    hours: 0,
                    days: 0,
                    carry: false,
                    last_update: m.rct.last_update,
                },
            }
        } else if 0x19 <= mode <= 0x1E {
            b1 == Banking { mapper: Mapper::Mbc5(mbc5::Mbc5 { current_rom_bank: 1 }), ..base }
        } else if mode == 0x20 {
            b1 == Banking { mapper: Mapper::Mbc6(mbc6::Mbc6 { current_rom_bank: 1 }), ..base }
        } else if mode == 0x22 {
            b1 == Banking { mapper: Mapper::Mbc7(mbc7::Mbc7 { current_rom_bank: 1 }), ..base }
        } else if mode == 0xFE {
            b1 == Banking {
                mapper: Mapper::Huc3(
                    huc3::Huc3 { current_rom_bank: 1, current_ram_bank: 0, ram_enabled: false },
                ),
                ..base
            }
        } else if mode == 0xFF {
            b1 == Banking {
                mapper: Mapper::Huc1(
                    huc1::Huc1 { current_rom_bank: 1, current_ram_bank: 0, ram_enabled: false },
                ),
                ..base
            }
        } else if mode == 0xEE {
            b1 == Banking {
                mapper: Mapper::M161(
                    m161::M161 { current_rom_bank: 1, current_ram_bank: 0, ram_enabled: false },
                ),
                ..base
            }
        } else if mode == 0xEA {
            b1 == Banking { mapper: Mapper::Tama5(tama5::Tama5 { current_rom_bank: 1 }), ..base }
        } else if 0x0B <= mode <= 0x0D {
            b1 == Banking { mapper: Mapper::Mmm01(mmm01::Mmm01 { current_rom_bank: 1 }), ..base }
        } else {
            b1 == base
        }
    }

    /// The cartridge with `rom` as its ROM.
    pub open spec fn with_rom(self, rom: Vec<u8>) -> Banking {
        Banking { card_rom: rom, ..self }
    }

    /// An empty cartridge without a mapper, its ROM and RAM being `b`'s.
    pub open spec fn spec_new(b: Banking) -> Banking {
        Banking {
            mapper: Mapper::RomOnly(
                rom_only::RomOnly { current_rom_bank: 1, current_ram_bank: 0, ram_enabled: false },
            ),
            mbc_type: 0,
            banking_mode: 0,
            current_ram_bank: 0,
            ram_enabled: false,
            ..b
        }
    }

    /// An empty cartridge without a mapper.
    pub fn new() -> (r: Self)
        ensures
            r == Banking::spec_new(r),
            r.card_rom@ == Seq::<u8>::empty(),
            r.card_ram@ == Seq::<u8>::empty(),
    {
        Banking {
            mapper: Mapper::RomOnly(rom_only::RomOnly::new(0x00)),
            mbc_type: 0,
            banking_mode: 0,
            card_rom: Vec::new(),
            card_ram: Vec::new(),
            current_ram_bank: 0,
            ram_enabled: false,
        }
    }

    /// Installs the mapper that the cartridge type `banking_mode` (header
    /// byte 0x147) names.
    pub fn manager(&mut self, banking_mode: u8)
        ensures
            old(self).managed_rel(banking_mode, *final(self)),
    {
        self.mbc_type = banking_mode;
        if banking_mode == 0x00 || banking_mode == 0x08 || banking_mode == 0x09 {
            self.mapper = Mapper::RomOnly(rom_only::RomOnly::new(banking_mode));
        } else if 0x01 <= banking_mode && banking_mode <= 0x03 {
            self.banking_mode = 0;
            self.current_ram_bank = 0;
            self.mapper = Mapper::Mbc1(mbc1::Mbc1::new());
        } else if banking_mode == 0x05 || banking_mode == 0x06 {
            self.card_ram = vec![0; 512];
            assert(self.card_ram@ =~= zeros(512));
            self.mapper = Mapper::Mbc2(mbc2::Mbc2::new());
        } else if 0x0F <= banking_mode && banking_mode <= 0x13 {
            self.current_ram_bank = 0;
            self.ram_enabled = false;
            self.mapper = Mapper::Mbc3(mbc3::Mbc3::new());
        } else if 0x19 <= banking_mode && banking_mode <= 0x1E {
            self.mapper = Mapper::Mbc5(mbc5::Mbc5::new());
        } else if banking_mode == 0x20 {
            self.mapper = Mapper::Mbc6(mbc6::Mbc6::new());
        } else if banking_mode == 0x22 {
            self.mapper = Mapper::Mbc7(mbc7::Mbc7::new());
        } else if banking_mode == 0xFE {
            self.mapper = Mapper::Huc3(huc3::Huc3::new());
        } else if banking_mode == 0xFF {
            self.mapper = Mapper::Huc1(huc1::Huc1::new());
        } else if banking_mode == 0xEE {
            self.mapper = Mapper::M161(m161::M161::new());
        } else if banking_mode == 0xEA {
            self.mapper = Mapper::Tama5(tama5::Tama5::new());
        } else if 0x0B <= banking_mode && banking_mode <= 0x0D {
            self.mapper = Mapper::Mmm01(mmm01::Mmm01::new());
        }
    }

    /// Writes a byte to the cartridge through its mapper.
    pub fn write(&mut self, address: u16, value: u8)
        requires
            old(self).mapper.implemented(),
        ensures
            old(self).write_rel(address, value, *final(self)),
    {
        let mut mapper = Mapper::RomOnly(rom_only::RomOnly::new(0x00));
        std::mem::swap(&mut mapper, &mut self.mapper);
        mapper.current_write(self, address, value);
        self.mapper = mapper;
    }

    /// Reads a byte of the cartridge through its mapper.
    pub fn read(&mut self, address: u16) -> (r: u8)
        requires
            old(self).can_read(address),
        ensures
            r == old(self).read_spec(address),
            *final(self) == *old(self),
    {
        let mut mapper = Mapper::RomOnly(rom_only::RomOnly::new(0x00));
        std::mem::swap(&mut mapper, &mut self.mapper);
        let readed = mapper.current_read(self, address);
        self.mapper = mapper;
        readed
    }

    /// Allocates the cartridge RAM that the RAM-size code `ram_size_code`
    /// (header byte 0x148) announces, zeroed, and selects RAM bank 0. When
    /// the code announces no RAM, RAM is also marked enabled.
    pub fn ram_manager(&mut self, ram_size_code: u8)
        ensures
            final(self).card_ram@ == zeros(ram_size_of(ram_size_code)),
            *final(self) == (Banking {
                current_ram_bank: 0,
                ram_enabled: old(self).ram_enabled || ram_size_of(ram_size_code) == 0,
                card_ram: final(self).card_ram,
                ..*old(self)
            }),
    {
        self.current_ram_bank = 0;
        let size_in_bytes: usize = match ram_size_code {
            0x00 => 0,
            0x01 => 0x800,
            0x02 => 0x2000,
            0x03 => 0x8000,
            0x04 => 0x20000,
            0x05 => 0x10000,
            _ => 0,
        };
        if size_in_bytes <= 0x05 {
            self.ram_enabled = true;
        }
        self.card_ram = vec![0; size_in_bytes];
        assert(self.card_ram@ =~= zeros(ram_size_of(ram_size_code)));
    }
}

} // verus!
