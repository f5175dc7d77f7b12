//! The memory bus: the cartridge through its mapper, video RAM, work RAM and
//! its echo, object attribute memory, I/O registers (the timer's among
//! them), high RAM and the interrupt-enable register.
use vstd::prelude::*;
use crate::banking::Banking;
use crate::timer::Timer;
use crate::mmu::bios::path_components;

pub mod banking;
pub mod bios;
pub mod game;
pub mod helper;
pub mod save;

verus! {

/// `std::path::PathBuf`, carried through unchanged.
#[verifier::external_type_specification]
#[verifier::external_body]
pub struct ExPathBuf(std::path::PathBuf);

/// An empty path, as `std::path::PathBuf::new` makes it ("allocates an
/// empty `PathBuf`"): it has no components.
#[verifier::external_body]
fn empty_path() -> (r: std::path::PathBuf)
    ensures
        path_components(r) == Seq::<Seq<u8>>::empty(),
{
    std::path::PathBuf::new()
}

/// Whether `address` lies in the cartridge's windows (ROM at 0x0000-0x7FFF,
/// RAM at 0xA000-0xBFFF).
pub open spec fn in_cartridge(address: u16) -> bool {
    address <= 0x7FFF || (0xA000 <= address <= 0xBFFF)
}

/// Whether `address` is one of the timer's registers (0xFF04-0xFF07).
pub open spec fn in_timer(address: u16) -> bool {
    0xFF04 <= address <= 0xFF07
}

/// The memory of the machine outside the processor.
pub struct Mmu {
    pub wram: [u8; 8192],
    pub hram: [u8; 127],
    pub io_registers: [u8; 128],
    pub ie_register: u8,
    pub vram: [u8; 8192],
    pub oam: [u8; 160],
    pub banking: Banking,
    pub game_path: std::path::PathBuf,
    pub bios: Vec<u8>,
    pub bios_enabe: bool,
    pub bios_path: std::path::PathBuf,
    pub save_path: std::path::PathBuf,
}

impl Mmu {
    /// Whether a read of `address` is defined: in the cartridge windows the
    /// mapper must allow it.
    pub open spec fn can_read(self, address: u16) -> bool {
        in_cartridge(address) ==> self.banking.can_read(address)
    }

    /// Whether a write to `address` is defined: in the cartridge windows the
    /// mapper must be one that handles writes.
    pub open spec fn can_write(self, address: u16) -> bool {
        in_cartridge(address) ==> self.banking.mapper.implemented()
    }

    /// What a read of `address` gives, the timer being `timer`.
    pub open spec fn read_spec(self, timer: Timer, address: u16) -> u8 {
        if in_cartridge(address) {
            self.banking.read_spec(address)
        } else if address <= 0x9FFF {
            self.vram@[address - 0x8000]
        } else if address <= 0xDFFF {
            self.wram@[address - 0xC000]
        } else if address <= 0xFDFF {
            self.wram@[address - 0xE000]
        } else if address <= 0xFE9F {
            self.oam@[address - 0xFE00]
        } else if address <= 0xFEFF {
            0xFF
        } else if in_timer(address) {
            timer.read_spec(address)
        } else if address == 0xFF0F {
            self.io_registers@[0x0F] | 0xE0
        } else if address == 0xFF50 {
            if self.bios_enabe {
                0x00
            } else {
                0xFF
            }
        } else if address <= 0xFF7F {
            self.io_registers@[address - 0xFF00]
        } else if address <= 0xFFFE {
            self.hram@[address - 0xFF80]
        } else {
            self.ie_register
        }
    }

    /// The memory `m1` and timer `t1` after a write of `value` to `address`.
    pub open spec fn write_rel(self, t0: Timer, address: u16, value: u8, m1: Mmu, t1: Timer) -> bool {
        if in_cartridge(address) {
            &&& t1 == t0
            &&& self.banking.write_rel(address, value, m1.banking)
            &&& m1 == Mmu { banking: m1.banking, ..self }
        } else if address <= 0x9FFF {
            t1 == t0 && m1 == Mmu {
                vram: vstd::array::spec_array_update(self.vram, address - 0x8000, value),
                ..self
            }
        } else if address <= 0xDFFF {
            t1 == t0 && m1 == Mmu {
                wram: vstd::array::spec_array_update(self.wram, address - 0xC000, value),
                ..self
            }
        } else if address <= 0xFDFF {
            t1 == t0 && m1 == Mmu {
                wram: vstd::array::spec_array_update(self.wram, address - 0xE000, value),
                ..self
            }
        } else if address <= 0xFE9F {
            t1 == t0 && m1 == Mmu {
                oam: vstd::array::spec_array_update(self.oam, address - 0xFE00, value),
                ..self
            }
        } else if address <= 0xFEFF {
            t1 == t0 && m1 == self
        } else if in_timer(address) {
            t1 == t0.write_spec(address, value) && m1 == self
        } else if address <= 0xFF7F {
            t1 == t0 && m1 == Mmu {
                io_registers: vstd::array::spec_array_update(
                    self.io_registers,
                    address - 0xFF00,
                    value,
                ),
                ..self
            }
        } else if address <= 0xFFFE {
            t1 == t0 && m1 == Mmu {
                hram: vstd::array::spec_array_update(self.hram, address - 0xFF80, value),
                ..self
            }
        } else {
            t1 == t0 && m1 == Mmu { ie_register: value, ..self }
        }
    }

    /// The memory `m2` and timer `t2` after a write of `v1` to `a1` and then
    /// of `v2` to `a2`.
    pub open spec fn write2_rel(
        self,
        t0: Timer,
        a1: u16,
        v1: u8,
        a2: u16,
        v2: u8,
        m2: Mmu,
        t2: Timer,
    ) -> bool {
        exists|m1: Mmu, t1: Timer|
            #[trigger] self.write_rel(t0, a1, v1, m1, t1) && m1.write_rel(t1, a2, v2, m2, t2)
    }

    /// A bus with every RAM and register at zero, an empty cartridge and the
    /// boot ROM not mapped.
    pub fn new() -> (r: Self)
        ensures
            r.wram@ == Seq::new(8192, |i: int| 0u8),
            r.hram@ == Seq::new(127, |i: int| 0u8),
            r.io_registers@ == Seq::new(128, |i: int| 0u8),
            r.ie_register == 0,
            r.vram@ == Seq::new(8192, |i: int| 0u8),
            r.oam@ == Seq::new(160, |i: int| 0u8),
            r.banking == Banking::spec_new(r.banking),
            r.banking.card_rom@ == Seq::<u8>::empty(),
            r.banking.card_ram@ == Seq::<u8>::empty(),
            r.bios@ == Seq::<u8>::empty(),
            r.bios_enabe == false,
            path_components(r.game_path) == Seq::<Seq<u8>>::empty(),
            path_components(r.bios_path) == Seq::<Seq<u8>>::empty(),
            path_components(r.save_path) == Seq::<Seq<u8>>::empty(),
    {
        let r = Mmu {
            wram: [0; 8192],
            hram: [0; 127],
            io_registers: [0; 128],
            ie_register: 0,
            vram: [0; 8192],
            oam: [0; 160],
            banking: Banking::new(),
            game_path: empty_path(),
            bios: Vec::new(),
            bios_enabe: false,
            bios_path: empty_path(),
            save_path: empty_path(),
        };
        assert(r.wram@ =~= Seq::new(8192, |i: int| 0u8));
        assert(r.hram@ =~= Seq::new(127, |i: int| 0u8));
        assert(r.io_registers@ =~= Seq::new(128, |i: int| 0u8));
        assert(r.vram@ =~= Seq::new(8192, |i: int| 0u8));
        assert(r.oam@ =~= Seq::new(160, |i: int| 0u8));
        r
    }

    /// Whether a read of `address` is defined.
    pub fn readable(&self, address: u16) -> (r: bool)
        ensures
            r == self.can_read(address),
    {
        if address <= 0x7FFF || (0xA000 <= address && address <= 0xBFFF) {
            self.banking.mapper.readable(address)
        } else {
            true
        }
    }

    /// Whether a write to `address` is defined.
    pub fn writable(&self, address: u16) -> (r: bool)
        ensures
            r == self.can_write(address),
    {
        if address <= 0x7FFF || (0xA000 <= address && address <= 0xBFFF) {
            self.banking.mapper.is_implemented()
        } else {
            true
        }
    }

    /// Reads a byte from the bus.
    pub fn read_byte(&mut self, address: u16, timer: &mut Timer) -> (r: u8)
        requires
            old(self).can_read(address),
        ensures
            r == old(self).read_spec(*old(timer), address),
            *final(self) == *old(self),
            *final(timer) == *old(timer),
    {
        if address <= 0x7FFF || (0xA000 <= address && address <= 0xBFFF) {
            self.banking.read(address)
        } else if address <= 0x9FFF {
            self.vram[(address - 0x8000) as usize]
        } else if address <= 0xDFFF {
            self.wram[(address - 0xC000) as usize]
        } else if address <= 0xFDFF {
            self.wram[(address - 0xE000) as usize]
        } else if address <= 0xFE9F {
            self.oam[(address - 0xFE00) as usize]
        } else if address <= 0xFEFF {
            0xFF
        } else if 0xFF04 <= address && address <= 0xFF07 {
            timer.read_byte(address)
        } else if address == 0xFF0F {
            self.io_registers[0x0F] | 0xE0
        } else if address == 0xFF50 {
            if self.bios_enabe {
                0x00
            } else {
                0xFF
            }
        } else if address <= 0xFF7F {
            self.io_registers[(address - 0xFF00) as usize]
        } else if address <= 0xFFFE {
            self.hram[(address - 0xFF80) as usize]
        } else {
            self.ie_register
        }
    }

    /// Writes a byte to the bus.
    pub fn write_byte(&mut self, address: u16, value: u8, timer: &mut Timer)
        requires
            old(self).can_write(address),
        ensures
            old(self).write_rel(*old(timer), address, value, *final(self), *final(timer)),
    {
        if address <= 0x7FFF || (0xA000 <= address && address <= 0xBFFF) {
            self.banking.write(address, value);
        } else if address <= 0x9FFF {
            self.vram[(address - 0x8000) as usize] = value;
        } else if address <= 0xDFFF {
            self.wram[(address - 0xC000) as usize] = value;
        } else if address <= 0xFDFF {
            self.wram[(address - 0xE000) as usize] = value;
        } else if address <= 0xFE9F {
            self.oam[(address - 0xFE00) as usize] = value;
        } else if address <= 0xFEFF {
        } else if 0xFF04 <= address && address <= 0xFF07 {
            timer.write_byte(address, value);
        } else if address <= 0xFF7F {
            self.io_registers[(address - 0xFF00) as usize] = value;
        } else if address <= 0xFFFE {
            self.hram[(address - 0xFF80) as usize] = value;
        } else {
            self.ie_register = value;
        }
    }
}


/// Where a read is defined, so is a write.
pub proof fn lemma_readable_writable(m: Mmu, address: u16)
    requires
        m.can_read(address),
    ensures
        m.can_write(address),
{
}

/// A write keeps the kind of mapper, so it keeps where writes are defined.
pub proof fn lemma_write_keeps_writable(m0: Mmu, t0: Timer, address: u16, value: u8, m1: Mmu, t1: Timer)
    requires
        m0.write_rel(t0, address, value, m1, t1),
    ensures
        forall|a: u16| m1.can_write(a) == m0.can_write(a),
{
}

} // verus!
