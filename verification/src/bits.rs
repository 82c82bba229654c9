//! Fields of machine words.

use vstd::prelude::*;

verus! {

/// Bit `n` of a word.
pub open spec fn bit(word: u64, n: u64) -> bool {
    (word >> n) & 1 == 1
}

/// The lower half of a word.
pub open spec fn low_half(word: u64) -> u64 {
    word % 0x1_0000_0000
}

/// The upper half of a word.
pub open spec fn high_half(word: u64) -> u64 {
    word / 0x1_0000_0000
}

/// The word whose upper and lower halves are the lower halves of two words.
pub open spec fn join_halves(high: u64, low: u64) -> u64 {
    (low_half(high) * 0x1_0000_0000 + low_half(low)) as u64
}

/// A word with its lowest eight bits replaced.
pub open spec fn with_low_8(word: u64, low: u8) -> u64 {
    (word - word % 0x100 + low) as u64
}

/// A word with its lowest sixteen bits replaced.
pub open spec fn with_low_16(word: u64, low: u16) -> u64 {
    (word - word % 0x1_0000 + low) as u64
}

/// Bit `n` of a word is the one that a mask of that bit alone picks out.
pub proof fn bit_is_masked_bit(word: u64, n: u64)
    requires
        n < 64,
    ensures
        bit(word, n) <==> word & (1u64 << n) != 0,
{
    assert((word >> n) & 1 == 1 <==> word & (1u64 << n) != 0) by (bit_vector)
        requires
            n < 64,
    ;
}

/// The two halves of a word make it up.
pub proof fn halves_make_up_word(word: u64)
    ensures
        word == high_half(word) * 0x1_0000_0000 + low_half(word),
        low_half(word) < 0x1_0000_0000,
        high_half(word) < 0x1_0000_0000,
{
}

/// Two words joined have the lower half of the one above that of the other.
pub proof fn joined_halves(high: u64, low: u64)
    ensures
        join_halves(high, low) / 0x1_0000_0000 == high % 0x1_0000_0000,
        join_halves(high, low) % 0x1_0000_0000 == low % 0x1_0000_0000,
{
}

/// Replacing the lowest bits of a word keeps the others.
pub proof fn low_bits_replaced(word: u64, byte: u8, low: u16)
    ensures
        with_low_8(word, byte) / 0x100 == word / 0x100,
        with_low_8(word, byte) % 0x100 == byte,
        with_low_16(word, low) / 0x1_0000 == word / 0x1_0000,
        with_low_16(word, low) % 0x1_0000 == low,
{
}

/// The lower half of a word.
pub(crate) fn take_low_half(word: u64) -> (half: u32)
    ensures
        half == low_half(word),
{
    assert(word & 0xffff_ffff == word % 0x1_0000_0000 && word & 0xffff_ffff <= 0xffff_ffff)
        by (bit_vector);
    (word & 0xffff_ffff) as u32
}

/// The upper half of a word.
pub(crate) fn take_high_half(word: u64) -> (half: u32)
    ensures
        half == high_half(word),
{
    assert(word >> 32 == word / 0x1_0000_0000 && word >> 32 <= 0xffff_ffff) by (bit_vector);
    (word >> 32) as u32
}

/// The word with these two halves.
pub(crate) fn join(high: u32, low: u32) -> (word: u64)
    ensures
        word == high * 0x1_0000_0000 + low,
{
    assert((high as u64) << 32 | (low as u64) == (high as u64) * 0x1_0000_0000 + (low as u64))
        by (bit_vector);
    ((high as u64) << 32) | (low as u64)
}

/// A word with its lowest eight bits replaced.
pub(crate) fn set_low_8(word: u64, low: u8) -> (r: u64)
    ensures
        r == with_low_8(word, low),
{
    assert((word & !0xff) | (low as u64) == word - word % 0x100 + (low as u64)) by (bit_vector);
    (word & !0xff) | (low as u64)
}

/// A word with its lowest sixteen bits replaced.
pub(crate) fn set_low_16(word: u64, low: u16) -> (r: u64)
    ensures
        r == with_low_16(word, low),
{
    assert((word & !0xffff) | (low as u64) == word - word % 0x1_0000 + (low as u64))
        by (bit_vector);
    (word & !0xffff) | (low as u64)
}

} // verus!
