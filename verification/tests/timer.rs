use rust_boy::timer::Timer;

#[test]
fn disabled_timer_only_moves_div() {
    let mut t = Timer::new();
    let mut iflag = 0u8;
    t.tick(1000, &mut iflag);
    assert_eq!(t.div, 1000);
    assert_eq!(t.tima, 0);
    assert_eq!(iflag, 0);
}

#[test]
fn tima_counts_on_falling_edge() {
    let mut t = Timer::new();
    let mut iflag = 0u8;
    t.tac = 0x05;
    t.div = 0x0008;
    t.tick(8, &mut iflag);
    assert_eq!(t.div, 0x0010);
    assert_eq!(t.tima, 1);
    t.tick(8, &mut iflag);
    assert_eq!(t.tima, 1);
}

#[test]
fn tima_overflow_reloads_and_requests_interrupt() {
    let mut t = Timer::new();
    let mut iflag = 0x01u8;
    t.tac = 0x04;
    t.tima = 0xFF;
    t.tma = 0x42;
    t.div = 0x03FF;
    t.tick(1, &mut iflag);
    assert_eq!(t.tima, 0x42);
    assert_eq!(iflag, 0x05);
}

#[test]
fn div_wraps_and_cycles_truncate() {
    let mut t = Timer::new();
    let mut iflag = 0u8;
    t.div = 0xFFFF;
    t.tick(0x1_0002, &mut iflag);
    assert_eq!(t.div, 0x0001);
}

#[test]
fn register_reads_and_writes() {
    let mut t = Timer::new();
    t.div = 0x12FF;
    assert_eq!(t.read_byte(0xFF04), 0x12);
    t.write_byte(0xFF04, 0x99);
    assert_eq!(t.read_byte(0xFF04), 0x00);
    t.write_byte(0xFF07, 0x06);
    assert_eq!(t.read_byte(0xFF07), 0xFE);
    t.write_byte(0xFF05, 3);
    t.write_byte(0xFF06, 4);
    assert_eq!((t.read_byte(0xFF05), t.read_byte(0xFF06)), (3, 4));
    assert_eq!(t.read_byte(0xFF08), 0xFF);
    t.write_byte(0xFF08, 1);
    assert_eq!((t.div, t.tima, t.tma, t.tac), (0, 3, 4, 6));
}
