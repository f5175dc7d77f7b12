use rust_boy::banking::Mapper;
use rust_boy::cpu::Cpu;
use rust_boy::mmu::Mmu;
use rust_boy::timer::Timer;

#[test]
fn ram_regions_read_back_what_was_written() {
    let mut mmu = Mmu::new();
    let mut timer = Timer::new();
    for (addr, v) in [(0x8000u16, 0x11u8), (0x9FFF, 0x12), (0xC000, 0x13), (0xDFFF, 0x14), (0xFE00, 0x15), (0xFE9F, 0x16), (0xFF80, 0x17), (0xFFFE, 0x18), (0xFFFF, 0x19), (0xFF40, 0x1A)] {
        mmu.write_byte(addr, v, &mut timer);
        assert_eq!(mmu.read_byte(addr, &mut timer), v);
    }
}

#[test]
fn echo_ram_mirrors_work_ram() {
    let mut mmu = Mmu::new();
    let mut timer = Timer::new();
    mmu.write_byte(0xC123, 0xAB, &mut timer);
    assert_eq!(mmu.read_byte(0xE123, &mut timer), 0xAB);
    mmu.write_byte(0xFDFF, 0xCD, &mut timer);
    assert_eq!(mmu.read_byte(0xDDFF, &mut timer), 0xCD);
}

#[test]
fn unused_area_and_special_registers() {
    let mut mmu = Mmu::new();
    let mut timer = Timer::new();
    mmu.write_byte(0xFEA0, 0x12, &mut timer);
    assert_eq!(mmu.read_byte(0xFEA0, &mut timer), 0xFF);
    mmu.write_byte(0xFF0F, 0x01, &mut timer);
    assert_eq!(mmu.read_byte(0xFF0F, &mut timer), 0xE1);
    assert_eq!(mmu.read_byte(0xFF50, &mut timer), 0xFF);
    mmu.bios_enabe = true;
    assert_eq!(mmu.read_byte(0xFF50, &mut timer), 0x00);
}

#[test]
fn timer_registers_through_the_bus() {
    let mut mmu = Mmu::new();
    let mut timer = Timer::new();
    timer.div = 0xAB00;
    assert_eq!(mmu.read_byte(0xFF04, &mut timer), 0xAB);
    mmu.write_byte(0xFF04, 0x77, &mut timer);
    assert_eq!(timer.div, 0);
    mmu.write_byte(0xFF07, 0xFF, &mut timer);
    assert_eq!(timer.tac, 0x07);
    assert_eq!(mmu.read_byte(0xFF07, &mut timer), 0xFF);
    mmu.write_byte(0xFF05, 0x10, &mut timer);
    mmu.write_byte(0xFF06, 0x20, &mut timer);
    assert_eq!(mmu.read_byte(0xFF05, &mut timer), 0x10);
    assert_eq!(mmu.read_byte(0xFF06, &mut timer), 0x20);
}

#[test]
fn empty_cartridge_reads_ff() {
    let mut mmu = Mmu::new();
    let mut timer = Timer::new();
    assert_eq!(mmu.read_byte(0x0100, &mut timer), 0xFF);
    assert_eq!(mmu.read_byte(0xA000, &mut timer), 0xFF);
    assert!(mmu.readable(0x0000));
    assert!(mmu.writable(0x2000));
}

#[test]
fn load_game_sets_up_mapper_and_ram() {
    let mut mmu = Mmu::new();
    let mut timer = Timer::new();
    let mut rom = vec![0u8; 0x8000];
    rom[0x147] = 0x01;
    rom[0x148] = 0x02;
    rom[0x4000] = 0x5A;
    mmu.load_game(rom);
    assert!(matches!(mmu.banking.mapper, Mapper::Mbc1(_)));
    assert_eq!(mmu.banking.card_ram.len(), 0x2000);
    assert!(!mmu.banking.ram_enabled);
    assert_eq!(mmu.read_byte(0x4000, &mut timer), 0x5A);
    assert_eq!(mmu.read_byte(0x0147, &mut timer), 0x01);
}

#[test]
fn save_data_and_load_save_file() {
    let mut mmu = Mmu::new();
    assert!(mmu.save_data().is_none());
    mmu.ram_manager(0x01);
    assert_eq!(mmu.save_data().map(|v| v.len()), Some(0x800));
    mmu.load_save_file(vec![1, 2, 3]);
    assert_eq!(&mmu.banking.card_ram[..4], &[1, 2, 3, 0]);
    let big = vec![7u8; 0x1000];
    mmu.load_save_file(big);
    assert_eq!(mmu.banking.card_ram.len(), 0x800);
    assert!(mmu.banking.card_ram.iter().all(|b| *b == 7));
}

#[test]
fn bus_manager_and_mbc_writes() {
    let mut mmu = Mmu::new();
    let mut timer = Timer::new();
    mmu.manager(0x05);
    assert!(matches!(mmu.banking.mapper, Mapper::Mbc2(_)));
    assert_eq!(mmu.banking.card_ram.len(), 512);
    mmu.handle_mbc_write(0x0000, 0x0A);
    mmu.write_byte(0xA010, 0xAB, &mut timer);
    assert_eq!(mmu.read_byte(0xA010, &mut timer), 0xFB);
    assert_eq!(mmu.read_byte(0xA210, &mut timer), 0xFB);
}

#[test]
fn set_bios_maps_boot_rom_out() {
    let mut mmu = Mmu::new();
    let mut cpu = Cpu::new();
    mmu.bios_enabe = true;
    mmu.set_bios(true, &mut cpu);
    assert!(mmu.bios_enabe);
    mmu.set_bios(false, &mut cpu);
    assert!(!mmu.bios_enabe);
    assert_eq!(cpu.pc, 0x0100);
    mmu.load_bios(vec![0x31, 0xFE, 0xFF]);
    assert_eq!(mmu.bios, vec![0x31, 0xFE, 0xFF]);
}

#[test]
fn paths_are_recorded() {
    let mut mmu = Mmu::new();
    mmu.set_bios_path(std::path::PathBuf::from("dir"));
    assert_eq!(mmu.bios_path, std::path::PathBuf::from("dir").join("bios.gb"));
    mmu.set_game_path(std::path::PathBuf::from("g.gb"));
    assert_eq!(mmu.game_path, std::path::PathBuf::from("g.gb"));
    mmu.set_save_path(std::path::PathBuf::from("s.sav"));
    assert_eq!(mmu.save_path, std::path::PathBuf::from("s.sav"));
}

#[test]
fn flat_memory() {
    let mut m = rust_boy::flat_mmu::Mmu::new();
    assert_eq!(m.read_byte(0xFFFF), 0);
    m.write_byte(0x1234, 0x56);
    assert_eq!(m.read_byte(0x1234), 0x56);
    assert_eq!(m.read_byte(0x1235), 0);
}

#[test]
fn fresh_bus_reads_the_empty_cartridge_as_ff() {
    let mut mmu = Mmu::new();
    let mut timer = Timer::new();
    assert!(mmu.banking.card_rom.is_empty());
    assert!(mmu.banking.card_ram.is_empty());
    for addr in [0x0000u16, 0x0100, 0x3FFF, 0x4000, 0x7FFF] {
        assert!(mmu.readable(addr));
        assert_eq!(mmu.read_byte(addr, &mut timer), 0xFF);
    }
    assert_eq!(mmu.read_byte(0xC123, &mut timer), 0x00);
}
