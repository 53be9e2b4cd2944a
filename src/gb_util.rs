//! Byte and word helpers.
use vstd::prelude::*;

verus! {

/// The 16-bit value whose high byte is `high` and low byte is `low`.
pub open spec fn word_spec(high: u8, low: u8) -> u16 {
    (high as int * 256 + low as int) as u16
}

/// Builds a word from two bytes.
pub fn word(high: u8, low: u8) -> (r: u16)
    ensures
        r == word_spec(high, low),
        r as int == high as int * 256 + low as int,
{
    let r = ((high as u16) << 8) | (low as u16);
    assert(((high as u16) << 8) | (low as u16) == (high as u16) * 256 + (low as u16)) by (bit_vector)
        requires high as u16 <= 255, low as u16 <= 255;
    r
}

/// The most significant byte of a word.
pub fn hb(word: u16) -> (r: u8)
    ensures
        r as int == word as int / 256,
{
    assert((word >> 8) == word / 256) by (bit_vector);
    (word >> 8) as u8
}

/// The least significant byte of a word.
pub fn lb(word: u16) -> (r: u8)
    ensures
        r as int == word as int % 256,
{
    (word % 256) as u8
}

} // verus!
