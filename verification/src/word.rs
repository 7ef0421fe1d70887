//! Arithmetic on bytes, 16-bit words and addresses.
//!
//! Words are little-endian: the low byte sits at the lower address. Addresses
//! are 16 bits wide and wrap at the end of the address space.

use vstd::prelude::*;

verus! {

/// The word whose low byte is `lo` and whose high byte is `hi`.
pub open spec fn spec_word(lo: u8, hi: u8) -> u16 {
    (hi as int * 256 + lo as int) as u16
}

/// The low byte of `word`: bits 0 to 7.
pub open spec fn spec_low_byte(word: u16) -> u8 {
    (word as int % 256) as u8
}

/// The high byte of `word`: bits 8 to 15, which name its page.
pub open spec fn spec_high_byte(word: u16) -> u8 {
    (word as int / 256) as u8
}

/// The address `delta` cells after `address`, wrapping at the end of the
/// 16-bit address space. A negative `delta` steps backwards.
pub open spec fn offset(address: u16, delta: int) -> u16 {
    ((address as int + delta) % 0x10000) as u16
}

/// The zero-page offset `delta` cells after `offset`, wrapping within one byte.
pub open spec fn offset_in_page(offset: u8, delta: int) -> u8 {
    ((offset as int + delta) % 0x100) as u8
}

/// Whether bit 7, the sign bit, of `value` is set: whether the byte is 128
/// or more.
pub open spec fn bit7(value: u8) -> bool {
    value >= 0x80
}

/// Bit 7 of a byte is set exactly when masking the byte with `0x80` leaves
/// something.
pub proof fn lemma_bit7_is_mask(value: u8)
    ensures
        bit7(value) <==> value & 0x80 != 0,
{
    assert(value >= 0x80 <==> value & 0x80 != 0) by (bit_vector);
}

/// A word is put together from its two bytes again.
pub proof fn lemma_word_of_bytes(word: u16)
    ensures
        spec_word(spec_low_byte(word), spec_high_byte(word)) == word,
{
}

/// The bytes of a word that was put together are the bytes it was made of.
pub proof fn lemma_bytes_of_word(lo: u8, hi: u8)
    ensures
        spec_low_byte(spec_word(lo, hi)) == lo,
        spec_high_byte(spec_word(lo, hi)) == hi,
{
}

/// Joins two bytes into a little-endian word.
#[verifier::when_used_as_spec(spec_word)]
pub fn word(lo: u8, hi: u8) -> (w: u16)
    ensures
        w == spec_word(lo, hi),
{
    let w: u16 = ((hi as u16) << 8) | (lo as u16);
    assert(((hi as u16) << 8) | (lo as u16) == (hi as u16) * 256 + (lo as u16)) by (bit_vector);
    w
}

/// The low byte of `word`.
#[verifier::when_used_as_spec(spec_low_byte)]
pub fn low_byte(word: u16) -> (b: u8)
    ensures
        b == spec_low_byte(word),
{
    assert(word & 0xFF == word % 256) by (bit_vector);
    (word & 0xFF) as u8
}

/// The high byte of `word`.
#[verifier::when_used_as_spec(spec_high_byte)]
pub fn high_byte(word: u16) -> (b: u8)
    ensures
        b == spec_high_byte(word),
{
    assert(word >> 8 == word / 256) by (bit_vector);
    (word >> 8) as u8
}

} // verus!
