//! Register pairs: two 8-bit registers read together as one 16-bit value,
//! the first as the high byte and the second as the low byte.
use vstd::prelude::*;

verus! {

/// The 16-bit value of the pair `high:low`.
pub open spec fn pair_value(high: u8, low: u8) -> u16 {
    (high as int * 256 + low as int) as u16
}

/// The high byte of a 16-bit value.
pub open spec fn high_byte(v: u16) -> u8 {
    (v / 256) as u8
}

/// The low byte of a 16-bit value.
pub open spec fn low_byte(v: u16) -> u8 {
    (v % 256) as u8
}

/// Reads the pair `high:low` as one 16-bit value.
pub fn get_u16register(high: u8, low: u8) -> (r: u16)
    ensures
        r == pair_value(high, low),
{
    let r = ((high as u16) << 8) | (low as u16);
    assert(((high as u16) << 8) | (low as u16) == high as u16 * 256 + low as u16) by (bit_vector);
    r
}

/// Splits a 16-bit value into the bytes that a pair holds: `(high, low)`.
pub fn set_u16register(val: u16) -> (r: (u8, u8))
    ensures
        r == (high_byte(val), low_byte(val)),
{
    let high = ((val >> 8) & 0xFF) as u8;
    let low = (val & 0xFF) as u8;
    assert((val >> 8) & 0xFF == val / 256) by (bit_vector);
    assert(val & 0xFF == val % 256) by (bit_vector);
    (high, low)
}

/// Splitting the value of a pair gives back the two registers.
pub proof fn lemma_pair_split(high: u8, low: u8)
    ensures
        high_byte(pair_value(high, low)) == high,
        low_byte(pair_value(high, low)) == low,
{
}

/// Joining the two bytes of a value gives back the value.
pub proof fn lemma_split_pair(v: u16)
    ensures
        pair_value(high_byte(v), low_byte(v)) == v,
{
}

} // verus!
