use rust_boy::banking::mbc1::Mbc1;
use rust_boy::banking::mbc2::Mbc2;
use rust_boy::banking::mbc3::Mbc3;
use rust_boy::banking::rom_only::RomOnly;
use rust_boy::banking::{Banking, Mapper};
use rust_boy::rtc::{ClockReading, Rtc};

fn rom_with_banks(banks: usize) -> Vec<u8> {
    let mut rom = vec![0u8; banks * 0x4000];
    for b in 0..banks {
        rom[b * 0x4000] = b as u8;
    }
    rom
}

#[test]
fn banking_new_is_empty_rom_only() {
    let b = Banking::new();
    assert!(matches!(b.mapper, Mapper::RomOnly(_)));
    assert!(b.card_rom.is_empty());
    assert!(b.card_ram.is_empty());
    assert_eq!(b.mapper.current_rom_bank(), 1);
}

#[test]
fn manager_installs_the_named_mapper() {
    let cases: [(u8, fn(&Mapper) -> bool); 12] = [
        (0x00, |m| matches!(m, Mapper::RomOnly(_))),
        (0x03, |m| matches!(m, Mapper::Mbc1(_))),
        (0x06, |m| matches!(m, Mapper::Mbc2(_))),
        (0x13, |m| matches!(m, Mapper::Mbc3(_))),
        (0x1B, |m| matches!(m, Mapper::Mbc5(_))),
        (0x20, |m| matches!(m, Mapper::Mbc6(_))),
        (0x22, |m| matches!(m, Mapper::Mbc7(_))),
        (0xFE, |m| matches!(m, Mapper::Huc3(_))),
        (0xFF, |m| matches!(m, Mapper::Huc1(_))),
        (0xEE, |m| matches!(m, Mapper::M161(_))),
        (0xEA, |m| matches!(m, Mapper::Tama5(_))),
        (0x0C, |m| matches!(m, Mapper::Mmm01(_))),
    ];
    for (t, is) in cases {
        let mut b = Banking::new();
        b.manager(t);
        assert!(is(&b.mapper), "type {:#04x}", t);
        assert_eq!(b.mbc_type, t);
    }
    let mut b = Banking::new();
    b.manager(0x01);
    b.manager(0x50);
    assert!(matches!(b.mapper, Mapper::Mbc1(_)));
}

#[test]
fn ram_manager_sizes() {
    let mut b = Banking::new();
    for (code, size, enabled) in [(0x00u8, 0usize, true), (0x01, 0x800, false), (0x02, 0x2000, false), (0x03, 0x8000, false), (0x04, 0x20000, false), (0x05, 0x10000, false), (0x09, 0, true)] {
        let mut b2 = Banking::new();
        b2.current_ram_bank = 3;
        b2.ram_manager(code);
        assert_eq!(b2.card_ram.len(), size);
        assert_eq!(b2.ram_enabled, enabled);
        assert_eq!(b2.current_ram_bank, 0);
    }
    b.ram_manager(0x02);
    assert!(b.card_ram.iter().all(|x| *x == 0));
}

#[test]
fn rom_only_reads_and_ram() {
    let mut b = Banking::new();
    b.card_rom = vec![0xAA; 0x100];
    b.card_ram = vec![0; 0x10];
    let with_ram = RomOnly::new(0x08);
    let without = RomOnly::new(0x00);
    assert_eq!(with_ram.read(&mut b, 0x0010), 0xAA);
    assert_eq!(with_ram.read(&mut b, 0x0200), 0xFF);
    with_ram.write(&mut b, 0xA003, 0x42);
    assert_eq!(with_ram.read(&mut b, 0xA003), 0x42);
    with_ram.write(&mut b, 0xA100, 0x42);
    assert_eq!(with_ram.read(&mut b, 0xA100), 0xFF);
    assert_eq!(without.read(&mut b, 0xA003), 0xFF);
    without.write(&mut b, 0xA004, 0x11);
    assert_eq!(b.card_ram[4], 0);
    with_ram.write(&mut b, 0x0000, 0x11);
    assert_eq!(b.card_rom[0], 0xAA);
}

#[test]
fn mbc1_bank_switching() {
    let mut b = Banking::new();
    b.card_rom = rom_with_banks(64);
    let mut m = Mbc1::new();
    assert_eq!(m.read(&mut b, 0x4000), 1);
    m.write(&mut b, 0x2000, 0x05);
    assert_eq!(m.read(&mut b, 0x4000), 5);
    m.write(&mut b, 0x2000, 0x00);
    assert_eq!(m.current_rom_bank, 1);
    assert_eq!(m.read(&mut b, 0x4000), 1);
    m.write(&mut b, 0x4000, 0x01);
    assert_eq!(m.current_rom_bank, 0x21);
    assert_eq!(m.read(&mut b, 0x4000), 0x21);
    assert_eq!(m.read(&mut b, 0x0000), 0);
    m.write(&mut b, 0x6000, 0x01);
    assert_eq!(b.banking_mode, 1);
    assert_eq!(m.read(&mut b, 0x0000), 0x20);
    assert_eq!(m.read(&mut b, 0x4000), 1);
}

#[test]
fn mbc1_ram_enable_and_banks() {
    let mut b = Banking::new();
    b.card_rom = rom_with_banks(4);
    b.card_ram = vec![0; 0x8000];
    let mut m = Mbc1::new();
    m.write(&mut b, 0xA000, 0x11);
    assert_eq!(m.read(&mut b, 0xA000), 0xFF);
    m.write(&mut b, 0x0000, 0x0A);
    assert!(b.ram_enabled);
    m.write(&mut b, 0xA000, 0x11);
    assert_eq!(m.read(&mut b, 0xA000), 0x11);
    m.write(&mut b, 0x6000, 0x01);
    m.write(&mut b, 0x4000, 0x02);
    assert_eq!(b.current_ram_bank, 2);
    m.write(&mut b, 0xA000, 0x22);
    assert_eq!(b.card_ram[0x4000], 0x22);
    m.write(&mut b, 0x6000, 0x00);
    assert_eq!(b.current_ram_bank, 0);
    assert_eq!(m.read(&mut b, 0xA000), 0x11);
    m.write(&mut b, 0x0000, 0x00);
    assert!(!b.ram_enabled);
    assert_eq!(m.read(&mut b, 0xB000), 0xFF);
}

#[test]
fn mbc2_registers_and_half_byte_ram() {
    let mut b = Banking::new();
    b.card_rom = rom_with_banks(4);
    b.card_ram = vec![0; 512];
    let mut m = Mbc2::new();
    m.write(&mut b, 0x2000, 0x03);
    assert_eq!(m.current_rom_bank, 1);
    m.write(&mut b, 0x2100, 0x03);
    assert_eq!(m.current_rom_bank, 3);
    assert_eq!(m.read(&mut b, 0x4000), 3);
    m.write(&mut b, 0x2100, 0x00);
    assert_eq!(m.current_rom_bank, 1);
    assert_eq!(m.read(&mut b, 0xA000), 0xFF);
    m.write(&mut b, 0x0100, 0x0A);
    assert!(!m.ram_enabled);
    m.write(&mut b, 0x0000, 0x0A);
    assert!(m.ram_enabled);
    m.write(&mut b, 0xA1FF, 0xAB);
    assert_eq!(b.card_ram[0x1FF], 0x0B);
    assert_eq!(m.read(&mut b, 0xA1FF), 0xFB);
}

#[test]
fn mbc3_banks_and_clock_latch() {
    let mut b = Banking::new();
    b.card_rom = rom_with_banks(8);
    b.card_ram = vec![0; 0x8000];
    let mut m = Mbc3::new();
    m.write(&mut b, 0x2000, 0x00);
    assert_eq!(m.read(&mut b, 0x4000), 1);
    m.write(&mut b, 0x2000, 0x07);
    assert_eq!(m.read(&mut b, 0x4000), 7);
    m.write(&mut b, 0x0000, 0x0A);
    m.write(&mut b, 0x4000, 0x02);
    m.write(&mut b, 0xA001, 0x99);
    assert_eq!(b.card_ram[0x4001], 0x99);
    assert_eq!(m.read(&mut b, 0xA001), 0x99);
    m.rct.halt = true;
    m.write(&mut b, 0x4000, 0x08);
    m.write(&mut b, 0xA000, 45);
    m.write(&mut b, 0x4000, 0x0C);
    m.write(&mut b, 0xA000, 0x41);
    m.write(&mut b, 0x6000, 0x00);
    m.write(&mut b, 0x6000, 0x01);
    m.write(&mut b, 0x4000, 0x08);
    assert_eq!(m.read(&mut b, 0xA000), 45);
    m.write(&mut b, 0x4000, 0x0C);
    assert_eq!(m.read(&mut b, 0xA000), 0x41);
    m.write(&mut b, 0x4000, 0x0D);
    assert_eq!(m.read(&mut b, 0xA000), 0xFF);
    m.write(&mut b, 0x0000, 0x00);
    assert_eq!(m.read(&mut b, 0xA000), 0xFF);
}

#[test]
fn banking_dispatches_to_its_mapper() {
    let mut b = Banking::new();
    b.card_rom = rom_with_banks(8);
    b.manager(0x01);
    b.write(0x2000, 0x03);
    assert_eq!(b.read(0x4000), 3);
    assert_eq!(b.mapper.current_rom_bank(), 3);
    let mut mapper = Mapper::Mbc1(Mbc1::new());
    let mut b2 = Banking::new();
    b2.card_rom = rom_with_banks(8);
    mapper.current_write(&mut b2, 0x2000, 0x04);
    assert_eq!(mapper.current_read(&mut b2, 0x4000), 4);
}

fn rtc_at(secs: i64) -> Rtc {
    let mut rtc = Rtc::new();
    rtc.last_update = Some(ClockReading { secs, nanos: 0 });
    rtc
}

#[test]
fn rtc_advances_by_elapsed_seconds() {
    let mut rtc = rtc_at(1_000_000);
    rtc.update_at(Some(ClockReading { secs: 1_000_000 + 90_061, nanos: 0 }));
    assert_eq!((rtc.days, rtc.hours, rtc.minutes, rtc.seconds), (1, 1, 1, 1));
    assert!(!rtc.carry);
    rtc.update_at(Some(ClockReading { secs: 1_000_000 + 90_061 - 50, nanos: 0 }));
    assert_eq!((rtc.days, rtc.hours, rtc.minutes, rtc.seconds), (1, 1, 1, 1));
    rtc.advance(512 * 86_400);
    assert_eq!(rtc.days, 1);
    assert!(rtc.carry);
}

#[test]
fn rtc_counts_whole_seconds() {
    let mut rtc = rtc_at(100);
    rtc.update_at(Some(ClockReading { secs: 101, nanos: 999_999_999 }));
    assert_eq!(rtc.seconds, 1);
    let mut rtc = rtc_at(100);
    rtc.last_update = Some(ClockReading { secs: 100, nanos: 500_000_000 });
    rtc.update_at(Some(ClockReading { secs: 101, nanos: 400_000_000 }));
    assert_eq!(rtc.seconds, 0);
}

#[test]
fn rtc_halt_stops_counting() {
    let mut rtc = rtc_at(0);
    rtc.halt = true;
    rtc.update_at(Some(ClockReading { secs: 3600, nanos: 0 }));
    assert_eq!((rtc.hours, rtc.minutes, rtc.seconds), (0, 0, 0));
    let last = rtc.last_update.as_ref().unwrap();
    assert_eq!((last.secs, last.nanos), (3600, 0));
}

#[test]
fn rtc_registers_round_trip() {
    let mut rtc = Rtc::new();
    rtc.halt = true;
    rtc.set_mbc3_register(0, 75);
    rtc.set_mbc3_register(1, 59);
    rtc.set_mbc3_register(2, 25);
    rtc.set_mbc3_register(3, 0x34);
    rtc.set_mbc3_register(4, 0xC1);
    rtc.set_mbc3_register(9, 0x12);
    assert_eq!(rtc.get_mbc3_registers(), [15, 59, 1, 0x34, 0xC1]);
    assert_eq!(rtc.days, 0x134);
    rtc.set_mbc3_register(4, 0x40);
    assert_eq!(rtc.get_mbc3_registers(), [15, 59, 1, 0x34, 0x40]);
    assert!(!rtc.carry);
}

#[test]
fn rtc_new_reads_the_clock() {
    let rtc = Rtc::new();
    let last = rtc.last_update.as_ref().unwrap();
    assert!(last.secs > 1_500_000_000);
    assert!(last.nanos < 1_000_000_000);
    assert_eq!((rtc.days, rtc.hours, rtc.minutes, rtc.seconds), (0, 0, 0, 0));
}

#[test]
fn rtc_missing_reading_counts_no_time() {
    let mut rtc = rtc_at(1_000);
    rtc.update_at(None);
    assert_eq!((rtc.days, rtc.hours, rtc.minutes, rtc.seconds), (0, 0, 0, 0));
    assert!(rtc.last_update.is_none());
    rtc.update_at(Some(ClockReading { secs: 5_000, nanos: 0 }));
    assert_eq!((rtc.days, rtc.hours, rtc.minutes, rtc.seconds), (0, 0, 0, 0));
    let last = rtc.last_update.as_ref().unwrap();
    assert_eq!(last.secs, 5_000);
    rtc.update_at(Some(ClockReading { secs: 5_061, nanos: 0 }));
    assert_eq!((rtc.minutes, rtc.seconds), (1, 1));
}
