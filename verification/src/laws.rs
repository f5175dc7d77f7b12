//! Properties that hold across the operations of the library.
use vstd::prelude::*;
use crate::cpu::{Cpu, group_flags, daa_spec_of};
use crate::rtc::{Rtc, ClockReading, elapsed_between};
use crate::mmu::{Mmu, in_cartridge, in_timer};
use crate::timer::Timer;
use crate::register_pair::{pair_value, high_byte, low_byte};
use crate::cpu::{rotate_left, rotate_right, rotate_left_through, rotate_right_through};
use crate::cpu::prefixed_fn::{swap_nibbles, bit_mask};
use crate::banking::{Banking, Mapper};
use crate::banking::mbc1::Mbc1;
use crate::banking::mbc3::Mbc3;
use crate::cpu::lemma_with_flags_bits;

verus! {

/// The addresses whose byte is plain memory: video RAM, work RAM and its
/// echo, object attribute memory, high RAM, the interrupt-enable register,
/// and the I/O registers other than the timer's, IF (0xFF0F) and the boot
/// ROM switch (0xFF50).
pub open spec fn is_plain_memory(a: u16) -> bool {
    ||| 0x8000 <= a <= 0x9FFF
    ||| 0xC000 <= a <= 0xFE9F
    ||| 0xFF80 <= a
    ||| (0xFF00 <= a <= 0xFF7F && !in_timer(a) && a != 0xFF0F && a != 0xFF50)
}

/// Whether two addresses reach the same byte: the same address, or a work
/// RAM address and its echo.
pub open spec fn same_cell(a: u16, b: u16) -> bool {
    ||| a == b
    ||| (0xC000 <= a <= 0xDFFF && 0xE000 <= b <= 0xFDFF && b - 0xE000 == a - 0xC000)
    ||| (0xE000 <= a <= 0xFDFF && 0xC000 <= b <= 0xDFFF && a - 0xE000 == b - 0xC000)
}

/// A write to plain memory is read back, from the address written and from
/// any address that reaches the same byte, and every other address reads as
/// before.
pub proof fn lemma_bus_read_after_write(m0: Mmu, t0: Timer, a: u16, v: u8, m1: Mmu, t1: Timer, b: u16)
    requires
        m0.write_rel(t0, a, v, m1, t1),
        is_plain_memory(a),
    ensures
        m1.read_spec(t1, a) == v,
        same_cell(a, b) ==> m1.read_spec(t1, b) == v,
        !same_cell(a, b) ==> m1.read_spec(t1, b) == m0.read_spec(t0, b),
{
    broadcast use vstd::array::group_array_axioms;
    assert(t1 == t0);
    if a <= 0x9FFF {
        assert(m1.vram@ == m0.vram@.update(a - 0x8000, v));
    } else if a <= 0xDFFF {
        assert(m1.wram@ == m0.wram@.update(a - 0xC000, v));
    } else if a <= 0xFDFF {
        assert(m1.wram@ == m0.wram@.update(a - 0xE000, v));
    } else if a <= 0xFE9F {
        assert(m1.oam@ == m0.oam@.update(a - 0xFE00, v));
    } else if a <= 0xFF7F {
        assert(m1.io_registers@ == m0.io_registers@.update(a - 0xFF00, v));
    } else if a <= 0xFFFE {
        assert(m1.hram@ == m0.hram@.update(a - 0xFF80, v));
    }
}

/// Work RAM is mirrored at 0xE000-0xFDFF.
pub proof fn lemma_echo_mirrors_work_ram(m: Mmu, t: Timer, a: u16)
    requires
        0xE000 <= a <= 0xFDFF,
    ensures
        m.read_spec(t, a) == m.read_spec(t, (a - 0x2000) as u16),
{
}

/// Pushing a pair onto a stack in plain memory and popping it gives the pair
/// back: the byte above the new SP is the low one, the next the high one.
pub proof fn lemma_push_pop(m0: Mmu, t0: Timer, sp: u16, high: u8, low: u8, m1: Mmu, t1: Timer)
    requires
        m0.write2_rel(t0, sp.wrapping_sub(1), high, sp.wrapping_sub(2), low, m1, t1),
        is_plain_memory(sp.wrapping_sub(1)),
        is_plain_memory(sp.wrapping_sub(2)),
    ensures
        pair_value(
            m1.read_spec(t1, sp.wrapping_sub(2).wrapping_add(1)),
            m1.read_spec(t1, sp.wrapping_sub(2)),
        ) == pair_value(high, low),
{
    let (mm, tt) = choose|mm: Mmu, tt: Timer|
        #[trigger] m0.write_rel(t0, sp.wrapping_sub(1), high, mm, tt) && mm.write_rel(
            tt,
            sp.wrapping_sub(2),
            low,
            m1,
            t1,
        );
    let a1 = sp.wrapping_sub(1);
    let a2 = sp.wrapping_sub(2);
    assert(a2.wrapping_add(1) == a1);
    lemma_bus_read_after_write(m0, t0, a1, high, mm, tt, a1);
    lemma_bus_read_after_write(mm, tt, a2, low, m1, t1, a1);
    assert(!same_cell(a2, a1));
}

/// A CALL followed by a RET comes back to the instruction after the CALL
/// (three bytes on), with SP as it was, when the stack is in plain memory.
pub proof fn lemma_call_then_ret(c0: Cpu, m0: Mmu, t0: Timer, m1: Mmu, t1: Timer)
    requires
        Cpu::rd(m0, t0, c0.pc) == 0xCD,
        c0.step_mem(m0, t0, m1, t1),
        is_plain_memory(c0.sp.wrapping_sub(1)),
        is_plain_memory(c0.sp.wrapping_sub(2)),
        Cpu::rd(m1, t1, c0.step_cpu(m0, t0).pc) == 0xC9,
    ensures
        c0.step_cpu(m0, t0).step_cpu(m1, t1).pc == c0.pc.wrapping_add(3),
        c0.step_cpu(m0, t0).step_cpu(m1, t1).sp == c0.sp,
{
    let f = c0.fetched();
    let ret = f.pc.wrapping_add(2);
    assert(ret == c0.pc.wrapping_add(3));
    let c1 = c0.step_cpu(m0, t0);
    assert(c1.sp == c0.sp.wrapping_sub(2));
    lemma_push_pop(m0, t0, c0.sp, high_byte(ret), low_byte(ret), m1, t1);
    crate::register_pair::lemma_split_pair(ret);
    assert(c1.stack_top(m1, t1) == ret);
    assert(c0.sp.wrapping_sub(2).wrapping_add(2) == c0.sp);
}

/// Whether a byte holds two decimal digits in its nibbles.
pub open spec fn is_bcd(x: u8) -> bool {
    x % 16 <= 9 && x / 16 <= 9
}

/// The number that a two-digit decimal byte stands for.
pub open spec fn bcd_value(x: u8) -> int {
    (x / 16) * 10 + x % 16
}

/// DAA's arithmetic after an addition whose digit sums are `hh` (high
/// nibbles) and `ll` (low nibbles) gives the decimal sum.
pub open spec fn daa_digits_ok(hh: u16, ll: u16) -> bool {
    let sum = 16 * hh + ll;
    let a = sum % 256;
    let h = ll > 15;
    let c = sum > 255;
    let low: u16 = if h || a % 16 > 9 { 6 } else { 0 };
    let high: u16 = if c || a > 0x99 { 0x60 } else { 0 };
    let r = (a + low + high) % 256;
    let d = 10 * hh + ll;
    &&& r % 16 <= 9
    &&& r / 16 <= 9
    &&& (r / 16) * 10 + r % 16 == d % 100
    &&& (c || a > 0x99) == (d >= 100)
}

/// For every pair of digit sums that two decimal bytes can give, DAA's
/// arithmetic gives the decimal sum: a finite fact, checked on bit vectors.
proof fn lemma_daa_digits(hh: u16, ll: u16)
    requires
        hh <= 18,
        ll <= 18,
    ensures
        daa_digits_ok(hh, ll),
{
    assert(daa_digits_ok(hh, ll)) by (bit_vector)
        requires
            hh <= 18,
            ll <= 18,
    ;
}

/// The flags and accumulator that ADD leaves, as numbers.
proof fn lemma_add_facts(cpu: Cpu, y: u8)
    ensures
        cpu.after_add(y).flag_n() == false,
        cpu.after_add(y).flag_h() == (cpu.a % 16 + y % 16 > 15),
        cpu.after_add(y).flag_c() == (cpu.a + y > 255),
        cpu.after_add(y).a == (cpu.a + y) % 256,
{
    broadcast use group_flags;
}

/// DAA after an addition, on the numbers: the correction and carry that
/// `daa_spec` computes.
proof fn lemma_daa_add_numbers(a: u8, h: bool, c: bool)
    ensures
        ({
            let low = if h || a % 16 > 9 { 6int } else { 0int };
            let high = if c || a > 0x99 { 0x60int } else { 0int };
            crate::cpu::daa_spec(a, false, h, c) == (((a + low + high) % 256) as u8, c || a > 0x99)
        }),
{
    broadcast use group_flags;
}

/// ADD of two two-digit decimal bytes followed by DAA gives the decimal sum
/// modulo 100, as a two-digit decimal byte, with the carry set exactly when
/// the sum reaches 100.
#[verifier::spinoff_prover]
pub proof fn lemma_daa_after_add(cpu: Cpu, y: u8)
    requires
        is_bcd(cpu.a),
        is_bcd(y),
    ensures
        ({
            let (r, carry) = daa_spec_of(cpu.after_add(y));
            &&& is_bcd(r)
            &&& bcd_value(r) == (bcd_value(cpu.a) + bcd_value(y)) % 100
            &&& carry == (bcd_value(cpu.a) + bcd_value(y) >= 100)
        }),
{
    let x = cpu.a;
    let s = cpu.after_add(y);
    let hh = (x / 16 + y / 16) as u16;
    let ll = (x % 16 + y % 16) as u16;
    assert(x + y == 16 * hh + ll);
    lemma_daa_digits(hh, ll);
    lemma_add_facts(cpu, y);
    lemma_daa_add_numbers(s.a, s.flag_h(), s.flag_c());
}

/// Bringing the clock up to any reading leaves its counters in range, and
/// so does writing any value to any of its registers.
pub proof fn lemma_rtc_counters_in_range(rtc: Rtc, now: Option<ClockReading>, index: usize, value: u8)
    ensures
        rtc.updated(now).wf() || rtc.halt,
        rtc.wf() ==> rtc.updated(now).wf(),
        rtc.updated(now).wf() ==> rtc.updated(now).with_register(index, value).wf(),
{
    let u = rtc.updated(now);
    let d = u.days;
    assert((d & 0x100) | (value as u16) <= 0x1FF) by (bit_vector);
    assert((d & 0xFF) | (((value as u16) & 0x01) << 8u16) <= 0x1FF) by (bit_vector);
}

/// A clock with its counters in range is unchanged by zero elapsed seconds.
proof fn lemma_advance_zero(r: Rtc)
    requires
        r.wf(),
    ensures
        r.advanced(0) == r,
{
    let s = r.seconds as int;
    let m = r.minutes as int;
    let h = r.hours as int;
    let d = r.days as int;
    let ds = s + 60 * m + 3600 * h;
    assert(0 <= ds < 86400);
    assert(r.total_seconds() + 0 == d * 86400 + ds);
    vstd::arithmetic::div_mod::lemma_fundamental_div_mod_converse(r.total_seconds() + 0, 86400, d, ds);
    vstd::arithmetic::div_mod::lemma_fundamental_div_mod_converse(ds, 3600, h, s + 60 * m);
    vstd::arithmetic::div_mod::lemma_fundamental_div_mod_converse(s + 60 * m, 60, m, s);
    vstd::arithmetic::div_mod::lemma_fundamental_div_mod_converse(ds, 60, m + 60 * h, s);
    vstd::arithmetic::div_mod::lemma_fundamental_div_mod_converse(d, 512, 0, d);
}

/// Writing a clock register and reading the registers back, with no whole
/// second counted in between, gives what was written: seconds and minutes
/// modulo 60, hours modulo 24, the low eight bits of the day counter as
/// written with the control byte kept, the control byte's day bit, halt and
/// carry as written with the low day byte kept; any other index changes no
/// register.
pub proof fn lemma_clock_register_reads_back(
    r0: Rtc,
    now: Option<ClockReading>,
    index: usize,
    value: u8,
    set_at: Option<ClockReading>,
    later: Option<ClockReading>,
)
    requires
        r0.wf(),
        elapsed_between(set_at, later) == 0,
    ensures
        ({
            let before = r0.updated(now);
            let written = Rtc { last_update: set_at, ..before.with_register(index, value) };
            let regs = written.updated(later).registers();
            &&& regs == before.with_register(index, value).registers()
            &&& index == 0 ==> regs[0] == value % 60
            &&& index == 1 ==> regs[1] == value % 60
            &&& index == 2 ==> regs[2] == value % 24
            &&& index == 3 ==> regs[3] == value && regs[4] == before.registers()[4]
            &&& index == 4 ==> regs[4] == value & 0xC1 && regs[3] == before.registers()[3]
            &&& index > 4 ==> regs == before.registers()
        }),
{
    let before = r0.updated(now);
    let w = before.with_register(index, value);
    let written = Rtc { last_update: set_at, ..w };
    lemma_rtc_counters_in_range(r0, now, index, value);
    assert(written.wf());
    if !written.halt {
        lemma_advance_zero(written);
    }
    assert(written.updated(later).registers() =~= w.registers());
    let d = before.days;
    if index == 3 {
        assert(((((d & 0x100) | (value as u16)) as u16) as u8) == value) by (bit_vector);
        assert(((((((d & 0x100) | (value as u16)) as u16) >> 8u16) as u8) & 0x01) == ((((d >> 8u16) as u8) & 0x01))) by (bit_vector);
    }
    if index == 4 {
        let v = value;
        let nd = ((d & 0xFF) | (((v as u16) & 0x01) << 8u16)) as u16;
        assert((nd as u8) == (d as u8)) by (bit_vector)
            requires nd == ((d & 0xFF) | (((v as u16) & 0x01) << 8u16)) as u16;
        assert(((((nd >> 8u16) as u8) & 0x01) | (if v & 0x40 != 0 { 0x40u8 } else { 0u8 }) | (if v & 0x80 != 0 { 0x80u8 } else { 0u8 })) == v & 0xC1) by (bit_vector)
            requires nd == ((d & 0xFF) | (((v as u16) & 0x01) << 8u16)) as u16;
    }
}

/// Any write to DIV (0xFF04) resets the divider: DIV then reads 0.
pub proof fn lemma_div_write_resets(t: Timer, value: u8)
    ensures
        t.write_spec(0xFF04, value).read_spec(0xFF04) == 0,
{
}

/// TAC reads back its low three bits with the upper five set.
pub proof fn lemma_tac_reads_back(t: Timer, value: u8)
    ensures
        t.write_spec(0xFF07, value).read_spec(0xFF07) == (value & 0x07) | 0xF8,
{
}

/// Rotating left and then right, with or without the carry, gives the byte back.
pub proof fn lemma_rotations_undo(v: u8, carry: bool)
    ensures
        rotate_right(rotate_left(v)) == v,
        rotate_left(rotate_right(v)) == v,
        rotate_right_through(rotate_left_through(v, carry), v >= 0x80) == v,
        rotate_left_through(rotate_right_through(v, carry), v % 2 == 1) == v,
{
    assert(rotate_right(rotate_left(v)) == v) by (bit_vector);
    assert(rotate_left(rotate_right(v)) == v) by (bit_vector);
    assert(rotate_right_through(rotate_left_through(v, carry), v >= 0x80) == v) by (bit_vector);
    assert(rotate_left_through(rotate_right_through(v, carry), v % 2 == 1) == v) by (bit_vector);
}

/// Swapping the nibbles twice gives the byte back; complementing twice too.
pub proof fn lemma_swap_and_complement_undo(v: u8)
    ensures
        swap_nibbles(swap_nibbles(v)) == v,
        !(!v) == v,
{
    assert(swap_nibbles(swap_nibbles(v)) == v) by (bit_vector);
    assert(!(!v) == v) by (bit_vector);
}

/// SET makes the bit 1 and RES makes it 0, and neither touches the others.
pub proof fn lemma_set_res_bit(v: u8, bit: u8, other: u8)
    requires
        bit < 8,
        other < 8,
        other != bit,
    ensures
        (v | bit_mask(bit)) & bit_mask(bit) != 0,
        (v & !bit_mask(bit)) & bit_mask(bit) == 0,
        (v | bit_mask(bit)) & bit_mask(other) == v & bit_mask(other),
        (v & !bit_mask(bit)) & bit_mask(other) == v & bit_mask(other),
{
    assert((v | bit_mask(bit)) & bit_mask(bit) != 0) by (bit_vector) requires bit < 8;
    assert((v & !bit_mask(bit)) & bit_mask(bit) == 0) by (bit_vector) requires bit < 8;
    assert((v | bit_mask(bit)) & bit_mask(other) == v & bit_mask(other)) by (bit_vector)
        requires bit < 8, other < 8, other != bit;
    assert((v & !bit_mask(bit)) & bit_mask(other) == v & bit_mask(other)) by (bit_vector)
        requires bit < 8, other < 8, other != bit;
}

/// MBC1 never maps bank 0 at 0x4000-0x7FFF: a bank number of 0 reads bank 1.
pub proof fn lemma_mbc1_upper_window_never_bank_zero(m: Mbc1, b: Banking)
    ensures
        m.high_bank(b) >= 1,
{
}

/// MBC1 enables RAM exactly on a write whose low nibble is 0xA to
/// 0x0000-0x1FFF, and leaves the rest of the cartridge as it was.
pub proof fn lemma_mbc1_ram_enable(m: Mbc1, b0: Banking, address: u16, value: u8, m1: Mbc1, b1: Banking)
    requires
        address <= 0x1FFF,
        m.write_rel(b0, address, value, m1, b1),
    ensures
        b1.ram_enabled == (value & 0x0F == 0x0A),
        b1.card_ram == b0.card_ram,
        b1.card_rom == b0.card_rom,
        m1 == m,
{
}

/// The value of an 8-bit relative jump offset: two's complement.
pub open spec fn signed_byte(e: u8) -> int {
    if e < 128 {
        e as int
    } else {
        e as int - 256
    }
}

/// JR e8 and its conditional forms: the jump is taken always for 0x18, when
/// Z (bit 7 of F) is clear for 0x20 and set for 0x28, when C (bit 4 of F)
/// is clear for 0x30 and set for 0x38. A taken jump lands at the address
/// after the two-byte instruction plus the signed offset and takes 12
/// cycles; otherwise PC moves past the instruction and it takes 8. F, A and
/// SP are untouched.
pub proof fn lemma_jr_follows_flags(c: Cpu, m: Mmu, t: Timer)
    requires
        ({
            let op = Cpu::rd(m, t, c.pc);
            op == 0x18 || op == 0x20 || op == 0x28 || op == 0x30 || op == 0x38
        }),
    ensures
        ({
            let op = Cpu::rd(m, t, c.pc);
            let e = Cpu::rd(m, t, ((c.pc + 1) % 0x10000) as u16);
            let zero = c.f & 0x80 != 0;
            let carry = c.f & 0x10 != 0;
            let taken = op == 0x18 || (op == 0x20 && !zero) || (op == 0x28 && zero) || (op == 0x30
                && !carry) || (op == 0x38 && carry);
            let after = c.step_cpu(m, t);
            &&& after.pc == (if taken {
                ((c.pc + 2 + signed_byte(e)) % 0x10000) as u16
            } else {
                ((c.pc + 2) % 0x10000) as u16
            })
            &&& after.cycles == c.cycles.wrapping_add(if taken { 12u64 } else { 8u64 })
            &&& after.f == c.f
            &&& after.a == c.a
            &&& after.sp == c.sp
        }),
{
    let op = Cpu::rd(m, t, c.pc);
    let f = c.fetched();
    let pc2 = f.pc.wrapping_add(1);
    let e = Cpu::rd(m, t, f.pc);
    assert(f.pc == ((c.pc + 1) % 0x10000) as u16);
    assert(pc2 == ((c.pc + 2) % 0x10000) as u16);
    assert(c.step_cpu(m, t).pc == f.exec_cpu(op, m, t).pc);
    assert(f.exec_cpu(op, m, t) == f.misc_cpu(op, m, t));
    lemma_jr_cpu(f, op, m, t);
    let s = signed_byte(e);
    assert(crate::cpu::offset_u16(pc2, e) == ((c.pc + 2 + s) % 0x10000) as u16) by {
        assert(crate::cpu::signed_offset(e) == s);
        vstd::arithmetic::div_mod::lemma_add_mod_noop(c.pc + 2, s + 0x10000, 0x10000);
        vstd::arithmetic::div_mod::lemma_add_mod_noop(c.pc + 2, s, 0x10000);
        vstd::arithmetic::div_mod::lemma_mod_add_multiples_vanish(s, 0x10000);
    }
}

/// What `misc_cpu` gives for the JR opcodes, PC pointing at the offset.
#[verifier::rlimit(40)]
proof fn lemma_jr_cpu(f: Cpu, op: u8, m: Mmu, t: Timer)
    requires
        op == 0x18 || op == 0x20 || op == 0x28 || op == 0x30 || op == 0x38,
    ensures
        f.misc_cpu(op, m, t) == (if f.condition(op) {
            Cpu { pc: crate::cpu::offset_u16(f.pc.wrapping_add(1), Cpu::rd(m, t, f.pc)), ..f.with_cycles(12) }
        } else {
            Cpu { pc: f.pc.wrapping_add(1), ..f.with_cycles(8) }
        }),
        f.condition(op) == (op == 0x18 || (op == 0x20 && f.f & 0x80 == 0) || (op == 0x28 && f.f
            & 0x80 != 0) || (op == 0x30 && f.f & 0x10 == 0) || (op == 0x38 && f.f & 0x10 != 0)),
{
}

/// Whether `res` is what the prefixed operation `op` makes of the byte `v`,
/// the carry flag being `carry_in`: RLC (0x00-0x07) rotates left, RRC
/// (0x08-0x0F) right, RL (0x10-0x17) and RR (0x18-0x1F) rotate through the
/// carry, SLA (0x20-0x27) shifts left, SRA (0x28-0x2F) shifts right keeping
/// bit 7, SWAP (0x30-0x37) exchanges the nibbles, SRL (0x38-0x3F) shifts
/// right with bit 7 cleared; BIT (0x40-0x7F) keeps the byte, RES
/// (0x80-0xBF) clears bit `(op / 8) % 8` and SET (0xC0-0xFF) sets it.
pub open spec fn prefixed_result_is(op: u8, v: u8, carry_in: bool, res: u8) -> bool {
    let bit = ((op / 8) % 8) as u8;
    if op < 0x08 {
        res == ((v << 1u8) | (v >> 7u8)) as u8
    } else if op < 0x10 {
        res == ((v >> 1u8) | (v << 7u8)) as u8
    } else if op < 0x18 {
        res == ((v << 1u8) | (if carry_in { 1u8 } else { 0u8 })) as u8
    } else if op < 0x20 {
        res == ((v >> 1u8) | (if carry_in { 0x80u8 } else { 0u8 })) as u8
    } else if op < 0x28 {
        res == (v << 1u8) as u8
    } else if op < 0x30 {
        res == ((v >> 1u8) | (v & 0x80u8)) as u8
    } else if op < 0x38 {
        res == ((v >> 4u8) | (v << 4u8)) as u8
    } else if op < 0x40 {
        res == v >> 1u8
    } else if op < 0x80 {
        res == v
    } else if op < 0xC0 {
        res == v & !((1u8 << bit) as u8)
    } else {
        res == v | ((1u8 << bit) as u8)
    }
}

/// A prefixed operation on a register (operand index `op % 8` other than
/// 6): the register ends as `prefixed_result_is` says. A rotation or shift
/// sets Z from the result, clears N and H, and puts in C the bit that leaves
/// (bit 7 for RLC, RL and SLA, bit 0 for RRC, RR, SRA and SRL; SWAP clears
/// it). BIT sets Z exactly when the tested bit is 0, clears N, sets H and
/// keeps C. RES and SET leave F as it was.
pub proof fn lemma_prefixed_on_register(c: Cpu, m: Mmu, t: Timer, op: u8)
    requires
        op % 8 != 6,
    ensures
        ({
            let r = (op % 8) as u8;
            let v = c.reg8(r);
            let out = c.cb_cpu(m, t, op);
            let res = out.reg8(r);
            let bit = ((op / 8) % 8) as u8;
            &&& prefixed_result_is(op, v, c.f & 0x10 != 0, res)
            &&& op < 0x40 ==> {
                &&& (out.f & 0x80 != 0) == (res == 0)
                &&& out.f & 0x40 == 0
                &&& out.f & 0x20 == 0
                &&& (out.f & 0x10 != 0) == (if op < 0x08 || (0x10 <= op < 0x18) || (0x20 <= op
                    < 0x28) {
                    v & 0x80 != 0
                } else if 0x30 <= op < 0x38 {
                    false
                } else {
                    v & 0x01 != 0
                })
            }
            &&& 0x40 <= op < 0x80 ==> {
                &&& (out.f & 0x80 != 0) == (v & ((1u8 << bit) as u8) == 0)
                &&& out.f & 0x40 == 0
                &&& out.f & 0x20 != 0
                &&& (out.f & 0x10 != 0) == (c.f & 0x10 != 0)
            }
            &&& op >= 0x80 ==> out.f == c.f
        }),
{
    let v = c.reg8((op % 8) as u8);
    assert((v & 0x80 != 0) == (v >= 0x80) && (v & 0x01 != 0) == (v % 2 == 1)) by (bit_vector);
    let y = ((op / 8) % 8) as u8;
    let res = crate::cpu::prefixed_fn::cb_result(op, v, c.flag_c());
    lemma_with_flags_bits(c.f, res == 0, false, false, crate::cpu::prefixed_fn::shift_carry(y, v));
    lemma_with_flags_bits(c.f, v & bit_mask(y) == 0, false, true, c.flag_c());
}

/// A prefixed operation on the byte at HL, other than BIT, with HL in plain
/// memory: the byte at HL afterwards is what `prefixed_result_is` says of
/// the byte before, the carry being bit 4 of F.
pub proof fn lemma_prefixed_on_hl(c: Cpu, m0: Mmu, t0: Timer, op: u8, m1: Mmu, t1: Timer)
    requires
        op % 8 == 6,
        !(0x40 <= op < 0x80),
        crate::laws::is_plain_memory(c.hl()),
        c.cb_mem(m0, t0, op, m1, t1),
    ensures
        prefixed_result_is(op, m0.read_spec(t0, c.hl()), c.f & 0x10 != 0, m1.read_spec(t1, c.hl())),
{
    let v = m0.read_spec(t0, c.hl());
    let res = crate::cpu::prefixed_fn::cb_result(op, v, c.flag_c());
    lemma_bus_read_after_write(m0, t0, c.hl(), res, m1, t1, c.hl());
}

/// The mapper that the cartridge type byte (header 0x147) installs: ROM
/// only for 0x00, 0x08, 0x09; MBC1 for 0x01-0x03; MBC2 for 0x05-0x06; MMM01
/// for 0x0B-0x0D; MBC3 for 0x0F-0x13; MBC5 for 0x19-0x1E; MBC6 for 0x20;
/// MBC7 for 0x22; TAMA5 for 0xEA; M161 for 0xEE; HuC3 for 0xFE; HuC1 for
/// 0xFF. Any other type keeps the mapper there was. The type is recorded,
/// and a new MBC1, MBC2 or MBC3 starts at ROM bank 1.
pub proof fn lemma_manager_installs_mapper(b0: Banking, mode: u8, b1: Banking)
    requires
        b0.managed_rel(mode, b1),
    ensures
        b1.mbc_type == mode,
        b1.card_rom == b0.card_rom,
        (mode == 0x00 || mode == 0x08 || mode == 0x09) ==> b1.mapper is RomOnly,
        (0x01 <= mode <= 0x03) ==> (b1.mapper matches Mapper::Mbc1(m) && m.current_rom_bank == 1),
        (mode == 0x05 || mode == 0x06) ==> (b1.mapper matches Mapper::Mbc2(m) && m.current_rom_bank
            == 1 && b1.card_ram@.len() == 512),
        (0x0B <= mode <= 0x0D) ==> b1.mapper is Mmm01,
        (0x0F <= mode <= 0x13) ==> (b1.mapper matches Mapper::Mbc3(m) && m.current_rom_bank == 1
            && b1.current_ram_bank == 0 && !b1.ram_enabled),
        (0x19 <= mode <= 0x1E) ==> b1.mapper is Mbc5,
        mode == 0x20 ==> b1.mapper is Mbc6,
        mode == 0x22 ==> b1.mapper is Mbc7,
        mode == 0xEA ==> b1.mapper is Tama5,
        mode == 0xEE ==> b1.mapper is M161,
        mode == 0xFE ==> b1.mapper is Huc3,
        mode == 0xFF ==> b1.mapper is Huc1,
        !(mode == 0x00 || mode == 0x08 || mode == 0x09 || 0x01 <= mode <= 0x03 || mode == 0x05
            || mode == 0x06 || 0x0B <= mode <= 0x0D || 0x0F <= mode <= 0x13 || 0x19 <= mode
            <= 0x1E || mode == 0x20 || mode == 0x22 || mode == 0xEA || mode == 0xEE || mode
            == 0xFE || mode == 0xFF) ==> b1.mapper == b0.mapper,
{
}

/// MBC3 ROM banking: after a write of `v` to 0x2000-0x3FFF, a read of
/// 0x4000 + i gives byte `bank * 0x4000 + i` of the ROM, the bank being the
/// low seven bits of `v` (0 selecting 1), or 0xFF past the end of the ROM.
/// Bank 0 stays at 0x0000-0x3FFF.
pub proof fn lemma_mbc3_rom_bank_select(m0: Mbc3, b0: Banking, address: u16, v: u8, m1: Mbc3, b1: Banking, a: u16)
    requires
        0x2000 <= address <= 0x3FFF,
        m0.write_rel(b0, address, v, m1, b1),
    ensures
        ({
            let bank: int = if v & 0x7F == 0 { 1 } else { (v & 0x7F) as int };
            let rom = b0.card_rom@;
            &&& 0x4000 <= a <= 0x7FFF ==> m1.read_spec(b1, a) == (if bank * 0x4000 + (a - 0x4000)
                < rom.len() {
                rom[bank * 0x4000 + (a - 0x4000)]
            } else {
                0xFF
            })
            &&& a <= 0x3FFF ==> m1.read_spec(b1, a) == (if (a as int) < rom.len() {
                rom[a as int]
            } else {
                0xFF
            })
        }),
{
}

/// TIMA advances exactly on a falling edge of the counter bit that TAC's
/// low two bits select, while TAC bit 2 enables it: bit 9 (every 1024
/// cycles) for 0, bit 3 (16) for 1, bit 5 (64) for 2, bit 7 (256) for 3.
/// Advancing from 0xFF reloads TMA and requests the timer interrupt (bit 2
/// of IF); otherwise TIMA and IF stay as they were.
pub proof fn lemma_tick_follows_tac(t: Timer, cycles: u32, iflag: u8)
    ensures
        ({
            let (t1, f1) = t.ticked(cycles, iflag);
            let mask: u16 = if t.tac & 0x03 == 0 {
                0x200
            } else if t.tac & 0x03 == 1 {
                0x08
            } else if t.tac & 0x03 == 2 {
                0x20
            } else {
                0x80
            };
            let fell = t.tac & 0x04 != 0 && t.div & mask != 0 && t1.div & mask == 0;
            &&& fell ==> (if t.tima == 0xFF {
                t1.tima == t.tma && f1 == iflag | 0x04
            } else {
                t1.tima == t.tima + 1 && f1 == iflag
            })
            &&& !fell ==> t1.tima == t.tima && f1 == iflag
            &&& t1.tma == t.tma
            &&& t1.tac == t.tac
        }),
{
    let d0 = t.div;
    let d1 = t.ticked(cycles, iflag).0.div;
    assert(((d0 >> 9u16) & 1 == 1) == (d0 & 0x200 != 0) && ((d0 >> 3u16) & 1 == 1) == (d0 & 0x08 != 0)
        && ((d0 >> 5u16) & 1 == 1) == (d0 & 0x20 != 0) && ((d0 >> 7u16) & 1 == 1) == (d0 & 0x80 != 0)
        && ((d1 >> 9u16) & 1 == 1) == (d1 & 0x200 != 0) && ((d1 >> 3u16) & 1 == 1) == (d1 & 0x08 != 0)
        && ((d1 >> 5u16) & 1 == 1) == (d1 & 0x20 != 0) && ((d1 >> 7u16) & 1 == 1) == (d1 & 0x80 != 0))
        by (bit_vector);
}

/// Whether the condition of a conditional jump, call or return holds, read
/// from bits 3-4 of the opcode and the flags in F: NZ (Z clear), Z (Z
/// set), NC (C clear), C (C set).
pub open spec fn flag_condition(op: u8, f: u8) -> bool {
    let cc = (op / 8) % 4;
    if cc == 0 {
        f & 0x80 == 0
    } else if cc == 1 {
        f & 0x80 != 0
    } else if cc == 2 {
        f & 0x10 == 0
    } else {
        f & 0x10 != 0
    }
}

/// JP cc, CALL cc and RET cc follow the flags: when the condition holds,
/// JP cc goes to the address after the opcode (low byte first, 16 cycles),
/// CALL cc goes there with SP two lower (24 cycles), RET cc goes to the
/// address on the stack with SP two higher (20 cycles); otherwise PC
/// passes the instruction (3 bytes for JP and CALL, 1 for RET) in 12, 12 or
/// 8 cycles and SP stays. F and A are untouched.
#[verifier::rlimit(40)]
pub proof fn lemma_conditional_control_follows_flags(c: Cpu, m: Mmu, t: Timer)
    requires
        ({
            let op = Cpu::rd(m, t, c.pc);
            op == 0xC2 || op == 0xCA || op == 0xD2 || op == 0xDA || op == 0xC4 || op == 0xCC || op
                == 0xD4 || op == 0xDC || op == 0xC0 || op == 0xC8 || op == 0xD0 || op == 0xD8
        }),
    ensures
        ({
            let op = Cpu::rd(m, t, c.pc);
            let lo = Cpu::rd(m, t, ((c.pc + 1) % 0x10000) as u16);
            let hi = Cpu::rd(m, t, ((c.pc + 2) % 0x10000) as u16);
            let target = (hi as int * 256 + lo as int) as u16;
            let top = (Cpu::rd(m, t, ((c.sp + 1) % 0x10000) as u16) as int * 256 + Cpu::rd(m, t, c.sp) as int) as u16;
            let taken = flag_condition(op, c.f);
            let after = c.step_cpu(m, t);
            let is_jp = op % 8 == 2;
            let is_call = op % 8 == 4;
            &&& after.pc == (if taken {
                if is_jp || is_call { target } else { top }
            } else if is_jp || is_call {
                ((c.pc + 3) % 0x10000) as u16
            } else {
                ((c.pc + 1) % 0x10000) as u16
            })
            &&& after.sp == (if taken && is_call {
                ((c.sp + 0x10000 - 2) % 0x10000) as u16
            } else if taken && !is_jp && !is_call {
                ((c.sp + 2) % 0x10000) as u16
            } else {
                c.sp
            })
            &&& after.cycles == c.cycles.wrapping_add(
                if is_jp { if taken { 16u64 } else { 12u64 } }
                else if is_call { if taken { 24u64 } else { 12u64 } }
                else { if taken { 20u64 } else { 8u64 } },
            )
            &&& after.f == c.f
            &&& after.a == c.a
        }),
{
    let op = Cpu::rd(m, t, c.pc);
    let f = c.fetched();
    assert(f.pc == ((c.pc + 1) % 0x10000) as u16);
    assert(f.pc.wrapping_add(1) == ((c.pc + 2) % 0x10000) as u16);
    assert(f.pc.wrapping_add(2) == ((c.pc + 3) % 0x10000) as u16);
    assert(c.sp.wrapping_add(1) == ((c.sp + 1) % 0x10000) as u16);
    assert(c.sp.wrapping_sub(2) == ((c.sp + 0x10000 - 2) % 0x10000) as u16);
    assert(c.sp.wrapping_add(2) == ((c.sp + 2) % 0x10000) as u16);
    lemma_condition_is_flags(f, op);
    lemma_conditional_exec(f, op, m, t);
    let x = f.misc_cpu(op, m, t);
    assert(c.step_cpu(m, t).pc == x.pc && c.step_cpu(m, t).sp == x.sp && c.step_cpu(m, t).cycles
        == x.cycles && c.step_cpu(m, t).f == x.f && c.step_cpu(m, t).a == x.a);
}

/// The condition of the conditional opcodes is the one their bits 3-4 name.
#[verifier::rlimit(40)]
proof fn lemma_condition_is_flags(f: Cpu, op: u8)
    requires
        op == 0xC2 || op == 0xCA || op == 0xD2 || op == 0xDA || op == 0xC4 || op == 0xCC || op
            == 0xD4 || op == 0xDC || op == 0xC0 || op == 0xC8 || op == 0xD0 || op == 0xD8,
    ensures
        f.condition(op) == flag_condition(op, f.f),
{
}

/// What `misc_cpu` gives for JP cc, CALL cc and RET cc, PC past the opcode.
#[verifier::rlimit(60)]
proof fn lemma_conditional_exec(f: Cpu, op: u8, m: Mmu, t: Timer)
    requires
        op == 0xC2 || op == 0xCA || op == 0xD2 || op == 0xDA || op == 0xC4 || op == 0xCC || op
            == 0xD4 || op == 0xDC || op == 0xC0 || op == 0xC8 || op == 0xD0 || op == 0xD8,
    ensures
        ({
            let x = f.misc_cpu(op, m, t);
            let taken = f.condition(op);
            &&& op % 8 == 2 ==> x == (if taken {
                Cpu { pc: f.imm16(m, t), ..f.with_cycles(16) }
            } else {
                Cpu { pc: f.pc.wrapping_add(2), ..f.with_cycles(12) }
            })
            &&& op % 8 == 4 ==> x == (if taken {
                Cpu { pc: f.imm16(m, t), sp: f.sp.wrapping_sub(2), ..f.with_cycles(24) }
            } else {
                Cpu { pc: f.pc.wrapping_add(2), ..f.with_cycles(12) }
            })
            &&& op % 8 == 0 ==> x == (if taken {
                Cpu { pc: f.stack_top(m, t), sp: f.sp.wrapping_add(2), ..f.with_cycles(20) }
            } else {
                f.with_cycles(8)
            })
        }),
{
    if op % 8 == 2 {
        assert(op == 0xC2 || op == 0xCA || op == 0xD2 || op == 0xDA);
    } else if op % 8 == 4 {
        assert(op == 0xC4 || op == 0xCC || op == 0xD4 || op == 0xDC);
    } else {
        assert(op == 0xC0 || op == 0xC8 || op == 0xD0 || op == 0xD8);
    }
}

/// The 8-bit ALU block on a register operand (opcodes 0x80-0xBF whose low
/// three bits are not 6): bits 3-5 choose ADD, ADC, SUB, SBC, AND, XOR, OR
/// or CP, bits 0-2 the operand B, C, D, E, H, L or A. A and the flags are
/// those of the arithmetic on numbers: Z when the 8-bit result is 0; N for
/// the subtractions; H on a carry out of, or borrow into, the low nibble
/// (always set for AND); C on a carry out of, or borrow into, the byte
/// (cleared by the logic operations). CP keeps A. One byte, 4 cycles.
#[verifier::rlimit(60)]
pub proof fn lemma_alu_on_register(c: Cpu, m: Mmu, t: Timer)
    requires
        0x80 <= Cpu::rd(m, t, c.pc) <= 0xBF,
        Cpu::rd(m, t, c.pc) % 8 != 6,
    ensures
        ({
            let op = Cpu::rd(m, t, c.pc);
            let s = op % 8;
            let y = (op / 8) % 8;
            let v: int = if s == 0 { c.b as int } else if s == 1 { c.c as int } else if s == 2 {
                c.d as int
            } else if s == 3 { c.e as int } else if s == 4 { c.h as int } else if s == 5 {
                c.l as int
            } else { c.a as int };
            let a = c.a as int;
            let cin: int = if c.f & 0x10 != 0 { 1 } else { 0 };
            let after = c.step_cpu(m, t);
            let z = after.f & 0x80 != 0;
            let n = after.f & 0x40 != 0;
            let h = after.f & 0x20 != 0;
            let cy = after.f & 0x10 != 0;
            &&& after.pc == ((c.pc + 1) % 0x10000) as u16
            &&& after.cycles == c.cycles.wrapping_add(4)
            &&& y == 0 ==> after.a == (a + v) % 256 && z == ((a + v) % 256 == 0) && !n && h == (a
                % 16 + v % 16 > 15) && cy == (a + v > 255)
            &&& y == 1 ==> after.a == (a + v + cin) % 256 && z == ((a + v + cin) % 256 == 0) && !n
                && h == (a % 16 + v % 16 + cin > 15) && cy == (a + v + cin > 255)
            &&& y == 2 ==> after.a == (a - v + 256) % 256 && z == (a == v) && n && h == (a % 16 < v
                % 16) && cy == (a < v)
            &&& y == 3 ==> after.a == (a - v - cin + 512) % 256 && z == ((a - v - cin + 512) % 256
                == 0) && n && h == (a % 16 < v % 16 + cin) && cy == (a < v + cin)
            &&& y == 4 ==> after.a == (c.a & (v as u8)) && z == (after.a == 0) && !n && h && !cy
            &&& y == 5 ==> after.a == (c.a ^ (v as u8)) && z == (after.a == 0) && !n && !h && !cy
            &&& y == 6 ==> after.a == (c.a | (v as u8)) && z == (after.a == 0) && !n && !h && !cy
            &&& y == 7 ==> after.a == c.a && z == (a == v) && n && h == (a % 16 < v % 16) && cy == (
            a < v)
        }),
{
    let op = Cpu::rd(m, t, c.pc);
    let f = c.fetched();
    let v = f.reg8((op % 8) as u8);
    assert(f.pc == ((c.pc + 1) % 0x10000) as u16);
    lemma_alu_step(c, m, t);
    lemma_alu_numbers(f, ((op / 8) % 8) as u8, v);
}

/// One step of the ALU block on a register: A, F, PC and the cycles are
/// those of `after_alu` on the operand, PC past the opcode, 4 cycles.
#[verifier::rlimit(40)]
proof fn lemma_alu_step(c: Cpu, m: Mmu, t: Timer)
    requires
        0x80 <= Cpu::rd(m, t, c.pc) <= 0xBF,
        Cpu::rd(m, t, c.pc) % 8 != 6,
    ensures
        ({
            let op = Cpu::rd(m, t, c.pc);
            let f = c.fetched();
            let x = f.after_alu(((op / 8) % 8) as u8, f.reg8((op % 8) as u8)).with_cycles(4);
            let after = c.step_cpu(m, t);
            after.a == x.a && after.f == x.f && after.pc == x.pc && after.cycles == x.cycles
        }),
{
}

/// The ALU operations as arithmetic on numbers.
#[verifier::rlimit(40)]
proof fn lemma_alu_numbers(f: Cpu, y: u8, v: u8)
    requires
        y < 8,
    ensures
        ({
            let a = f.a as int;
            let w = v as int;
            let cin: int = if f.f & 0x10 != 0 { 1 } else { 0 };
            let after = f.after_alu(y, v);
            let z = after.f & 0x80 != 0;
            let n = after.f & 0x40 != 0;
            let h = after.f & 0x20 != 0;
            let cy = after.f & 0x10 != 0;
            &&& y == 0 ==> after.a == (a + w) % 256 && z == ((a + w) % 256 == 0) && !n && h == (a
                % 16 + w % 16 > 15) && cy == (a + w > 255)
            &&& y == 1 ==> after.a == (a + w + cin) % 256 && z == ((a + w + cin) % 256 == 0) && !n
                && h == (a % 16 + w % 16 + cin > 15) && cy == (a + w + cin > 255)
            &&& y == 2 ==> after.a == (a - w + 256) % 256 && z == (a == w) && n && h == (a % 16 < w
                % 16) && cy == (a < w)
            &&& y == 3 ==> after.a == (a - w - cin + 512) % 256 && z == ((a - w - cin + 512) % 256
                == 0) && n && h == (a % 16 < w % 16 + cin) && cy == (a < w + cin)
            &&& y == 4 ==> after.a == (f.a & v) && z == (after.a == 0) && !n && h && !cy
            &&& y == 5 ==> after.a == (f.a ^ v) && z == (after.a == 0) && !n && !h && !cy
            &&& y == 6 ==> after.a == (f.a | v) && z == (after.a == 0) && !n && !h && !cy
            &&& y == 7 ==> after.a == f.a && z == (a == w) && n && h == (a % 16 < w % 16) && cy == (
            a < w)
        }),
{
    broadcast use group_flags;
    if y == 0 {
        lemma_with_flags_bits(f.f, f.a.wrapping_add(v) == 0, false, (f.a & 0x0F) + (v & 0x0F) > 0x0F, f.a + v > 0xFF);
    } else if y == 1 {
        let r = ((f.a + v + f.carry_in()) % 256) as u8;
        lemma_with_flags_bits(f.f, r == 0, false, (f.a & 0x0F) + (v & 0x0F) + f.carry_in() > 0x0F, f.a + v + f.carry_in() > 0xFF);
    } else if y == 2 || y == 7 {
        lemma_with_flags_bits(f.f, f.a.wrapping_sub(v) == 0, true, (f.a & 0x0F) < (v & 0x0F), f.a < v);
    } else if y == 3 {
        let r = ((f.a - v - f.carry_in() + 512) % 256) as u8;
        lemma_with_flags_bits(f.f, r == 0, true, (f.a & 0x0F) < (v & 0x0F) + f.carry_in(), f.a < v + f.carry_in());
    } else if y == 4 {
        lemma_with_flags_bits(f.f, f.a & v == 0, false, true, false);
    } else if y == 5 {
        lemma_with_flags_bits(f.f, f.a ^ v == 0, false, false, false);
    } else {
        lemma_with_flags_bits(f.f, f.a | v == 0, false, false, false);
    }
}

/// MBC1 ROM banking: a write of `v` to 0x2000-0x3FFF selects at
/// 0x4000-0x7FFF the bank whose low five bits are those of `v` (0 selecting
/// 1) and, in mode 0, whose two upper bits are those already selected; in
/// mode 1 the upper bits are cleared. A read there gives that bank's byte,
/// or 0xFF past the end of the ROM.
pub proof fn lemma_mbc1_rom_bank_select(m0: Mbc1, b0: Banking, address: u16, v: u8, m1: Mbc1, b1: Banking, a: u16)
    requires
        0x2000 <= address <= 0x3FFF,
        0x4000 <= a <= 0x7FFF,
        m0.write_rel(b0, address, v, m1, b1),
    ensures
        ({
            let low: int = if v % 32 == 0 { 1 } else { (v % 32) as int };
            let upper: int = if b0.banking_mode == 0 { ((m0.current_rom_bank / 32) % 4) * 32 } else { 0 };
            let bank = upper + low;
            let rom = b0.card_rom@;
            m1.read_spec(b1, a) == (if bank * 0x4000 + (a - 0x4000) < rom.len() {
                rom[bank * 0x4000 + (a - 0x4000)]
            } else {
                0xFF
            })
        }),
{
    let cur = m0.current_rom_bank;
    let b5 = if v & 0x1F == 0 { 1u8 } else { v & 0x1F };
    assert(v & 0x1F == v % 32 && (cur & 0x60) == ((cur / 32) % 4) * 32) by (bit_vector);
    assert(1 <= b5 <= 31 ==> ((cur & 0x60) | b5) == (cur & 0x60) + b5 && ((cur & 0x60) | b5) != 0
        && ((0u8 | b5) & 0x1F) == b5 && (0u8 | b5) == b5) by (bit_vector);
}

/// MBC2 ROM banking: a write of `v` to 0x2000-0x3FFF with address bit 8 set
/// selects at 0x4000-0x7FFF the bank given by the low nibble of `v` (0
/// selecting 1); a read there gives that bank's byte, or 0xFF past the end
/// of the ROM. With bit 8 clear the write selects nothing.
pub proof fn lemma_mbc2_rom_bank_select(m0: crate::banking::mbc2::Mbc2, b0: Banking, address: u16, v: u8, m1: crate::banking::mbc2::Mbc2, b1: Banking, a: u16)
    requires
        0x2000 <= address <= 0x3FFF,
        0x4000 <= a <= 0x7FFF,
        m0.write_rel(b0, address, v, m1, b1),
    ensures
        ({
            let bank: int = if address & 0x0100 == 0 {
                m0.current_rom_bank as int
            } else if v % 16 == 0 {
                1
            } else {
                (v % 16) as int
            };
            let rom = b0.card_rom@;
            m1.read_spec(b1, a) == (if bank * 0x4000 + (a - 0x4000) < rom.len() {
                rom[bank * 0x4000 + (a - 0x4000)]
            } else {
                0xFF
            })
        }),
{
    assert(v & 0x0F == v % 16) by (bit_vector);
}

/// The register that the 3-bit index `r` of the instruction encoding
/// names: B, C, D, E, H, L, -, A for 0 to 7 (6 names the byte at HL).
pub open spec fn named_register(c: Cpu, r: u8) -> u8 {
    if r == 0 {
        c.b
    } else if r == 1 {
        c.c
    } else if r == 2 {
        c.d
    } else if r == 3 {
        c.e
    } else if r == 4 {
        c.h
    } else if r == 5 {
        c.l
    } else {
        c.a
    }
}

/// LD r, r' (0x40-0x7F, neither operand (HL), not HALT): the register named
/// by bits 3-5 takes the value of the one named by bits 0-2; the other
/// registers and F stay; one byte, 4 cycles.
#[verifier::rlimit(40)]
pub proof fn lemma_ld_register_copies(c: Cpu, m: Mmu, t: Timer)
    requires
        0x40 <= Cpu::rd(m, t, c.pc) <= 0x7F,
        Cpu::rd(m, t, c.pc) % 8 != 6,
        (Cpu::rd(m, t, c.pc) / 8) % 8 != 6,
    ensures
        ({
            let op = Cpu::rd(m, t, c.pc);
            let src = (op % 8) as u8;
            let dst = ((op / 8) % 8) as u8;
            let after = c.step_cpu(m, t);
            &&& named_register(after, dst) == named_register(c, src)
            &&& forall|r: u8| r < 8 && r != 6 && r != dst ==> #[trigger] named_register(after, r)
                == named_register(c, r)
            &&& after.f == c.f
            &&& after.sp == c.sp
            &&& after.pc == ((c.pc + 1) % 0x10000) as u16
            &&& after.cycles == c.cycles.wrapping_add(4)
        }),
{
    let f = c.fetched();
    assert(f.pc == ((c.pc + 1) % 0x10000) as u16);
}

/// INC r and DEC r on a register (opcodes 0x04/0x05 + 8 * r, r not 6): the
/// register goes up or down by one, wrapping; Z when the result is 0, N for
/// DEC, H on a carry out of the low nibble (INC of x..F) or a borrow into it
/// (DEC of x..0); C stays. One byte, 4 cycles.
#[verifier::spinoff_prover]
#[verifier::rlimit(100)]
pub proof fn lemma_inc_dec_register(c: Cpu, m: Mmu, t: Timer)
    requires
        Cpu::rd(m, t, c.pc) < 0x40,
        Cpu::rd(m, t, c.pc) % 8 == 4 || Cpu::rd(m, t, c.pc) % 8 == 5,
        (Cpu::rd(m, t, c.pc) / 8) % 8 != 6,
    ensures
        ({
            let op = Cpu::rd(m, t, c.pc);
            let r = ((op / 8) % 8) as u8;
            let v = named_register(c, r) as int;
            let after = c.step_cpu(m, t);
            let res = named_register(after, r) as int;
            &&& op % 8 == 4 ==> res == (v + 1) % 256 && (after.f & 0x80 != 0) == (v == 255)
                && after.f & 0x40 == 0 && (after.f & 0x20 != 0) == (v % 16 == 15)
            &&& op % 8 == 5 ==> res == (v + 255) % 256 && (after.f & 0x80 != 0) == (v == 1)
                && after.f & 0x40 != 0 && (after.f & 0x20 != 0) == (v % 16 == 0)
            &&& (after.f & 0x10 != 0) == (c.f & 0x10 != 0)
            &&& after.pc == ((c.pc + 1) % 0x10000) as u16
            &&& after.cycles == c.cycles.wrapping_add(4)
        }),
{
    let op = Cpu::rd(m, t, c.pc);
    let f = c.fetched();
    let x = f.exec_cpu(op, m, t);
    lemma_inc_dec_exec(f, op, m, t);
    lemma_step_fields(c, m, t);
    lemma_inc_dec_numbers(f, op, x);
    assert(f.pc == ((c.pc + 1) % 0x10000) as u16);
}

/// The registers, F, PC and cycles after a step are those of the
/// instruction run with PC past its opcode (only IME can differ).
proof fn lemma_step_fields(c: Cpu, m: Mmu, t: Timer)
    ensures
        ({
            let x = c.fetched().exec_cpu(Cpu::rd(m, t, c.pc), m, t);
            let after = c.step_cpu(m, t);
            after.a == x.a && after.b == x.b && after.c == x.c && after.d == x.d && after.e == x.e
                && after.h == x.h && after.l == x.l && after.f == x.f && after.sp == x.sp
                && after.pc == x.pc && after.cycles == x.cycles
        }),
{
}

/// INC and DEC on numbers, from the processor they give.
#[verifier::rlimit(40)]
proof fn lemma_inc_dec_numbers(f: Cpu, op: u8, x: Cpu)
    requires
        op < 0x40,
        op % 8 == 4 || op % 8 == 5,
        (op / 8) % 8 != 6,
        op % 8 == 4 ==> x == (Cpu {
            f: f.f_after_inc(f.reg8(((op / 8) % 8) as u8)),
            ..f.with_reg8(((op / 8) % 8) as u8, f.reg8(((op / 8) % 8) as u8).wrapping_add(1))
        }.with_cycles(4)),
        op % 8 == 5 ==> x == (Cpu {
            f: f.f_after_dec(f.reg8(((op / 8) % 8) as u8)),
            ..f.with_reg8(((op / 8) % 8) as u8, f.reg8(((op / 8) % 8) as u8).wrapping_sub(1))
        }.with_cycles(4)),
    ensures
        ({
            let r = ((op / 8) % 8) as u8;
            let v = named_register(f, r) as int;
            let res = named_register(x, r) as int;
            &&& op % 8 == 4 ==> res == (v + 1) % 256 && (x.f & 0x80 != 0) == (v == 255)
                && x.f & 0x40 == 0 && (x.f & 0x20 != 0) == (v % 16 == 15)
            &&& op % 8 == 5 ==> res == (v + 255) % 256 && (x.f & 0x80 != 0) == (v == 1)
                && x.f & 0x40 != 0 && (x.f & 0x20 != 0) == (v % 16 == 0)
            &&& (x.f & 0x10 != 0) == (f.f & 0x10 != 0)
            &&& x.pc == f.pc
            &&& x.cycles == f.cycles.wrapping_add(4)
        }),
{
    broadcast use group_flags;
    let v = f.reg8(((op / 8) % 8) as u8);
    if op % 8 == 4 {
        lemma_with_flags_bits(f.f, v.wrapping_add(1) == 0, false, (v & 0x0F) == 0x0F, f.flag_c());
    } else {
        lemma_with_flags_bits(f.f, v.wrapping_sub(1) == 0, true, (v & 0x0F) == 0x00, f.flag_c());
    }
}

/// What INC r and DEC r do to the processor, PC past the opcode.
#[verifier::rlimit(60)]
proof fn lemma_inc_dec_exec(f: Cpu, op: u8, m: Mmu, t: Timer)
    requires
        op < 0x40,
        op % 8 == 4 || op % 8 == 5,
        (op / 8) % 8 != 6,
    ensures
        ({
            let r = ((op / 8) % 8) as u8;
            let v = f.reg8(r);
            &&& op % 8 == 4 ==> f.exec_cpu(op, m, t) == Cpu { f: f.f_after_inc(v), ..f.with_reg8(r, v.wrapping_add(1)) }.with_cycles(4)
            &&& op % 8 == 5 ==> f.exec_cpu(op, m, t) == Cpu { f: f.f_after_dec(v), ..f.with_reg8(r, v.wrapping_sub(1)) }.with_cycles(4)
        }),
{
    assert(!crate::cpu::decode::in_ld_block(op) && !crate::cpu::decode::in_alu_block(op) && op != 0xCB);
    if op % 8 == 4 {
        assert(op == 0x04 || op == 0x0C || op == 0x14 || op == 0x1C || op == 0x24 || op == 0x2C || op == 0x3C);
    } else {
        assert(op == 0x05 || op == 0x0D || op == 0x15 || op == 0x1D || op == 0x25 || op == 0x2D || op == 0x3D);
    }
}

/// RST n (0xC7 + 8 * k): PC goes to 8 * k and SP two lower, in 16 cycles;
/// with the stack in plain memory, the two bytes pushed read back as the
/// address of the next instruction (the one after the RST).
#[verifier::spinoff_prover]
#[verifier::rlimit(100)]
pub proof fn lemma_rst(c: Cpu, m0: Mmu, t0: Timer, m1: Mmu, t1: Timer)
    requires
        Cpu::rd(m0, t0, c.pc) % 8 == 7,
        Cpu::rd(m0, t0, c.pc) >= 0xC0,
        c.step_mem(m0, t0, m1, t1),
        is_plain_memory(c.sp.wrapping_sub(1)),
        is_plain_memory(c.sp.wrapping_sub(2)),
    ensures
        ({
            let op = Cpu::rd(m0, t0, c.pc);
            let after = c.step_cpu(m0, t0);
            let sp2 = ((c.sp + 0x10000 - 2) % 0x10000) as u16;
            &&& after.pc == (op - 0xC7) as u16
            &&& after.sp == sp2
            &&& after.cycles == c.cycles.wrapping_add(16)
            &&& m1.read_spec(t1, ((sp2 + 1) % 0x10000) as u16) as int * 256 + m1.read_spec(t1, sp2)
                == (c.pc + 1) % 0x10000
        }),
{
    let op = Cpu::rd(m0, t0, c.pc);
    let f = c.fetched();
    let ret = f.pc;
    assert(ret == ((c.pc + 1) % 0x10000) as u16);
    assert(c.sp.wrapping_sub(2) == ((c.sp + 0x10000 - 2) % 0x10000) as u16);
    assert(f.exec_cpu(op, m0, t0) == f.misc_cpu(op, m0, t0));
    lemma_push_pop(m0, t0, c.sp, high_byte(ret), low_byte(ret), m1, t1);
    crate::register_pair::lemma_split_pair(ret);
    assert(c.sp.wrapping_sub(2).wrapping_add(1) == ((c.sp.wrapping_sub(2) + 1) % 0x10000) as u16);
}

} // verus!
