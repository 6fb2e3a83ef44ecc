//! Facts about bit operations on bytes and words, proved once by bit-blasting
//! and shared by the chips that mask, split and truncate their registers.
use vstd::prelude::*;

verus! {

/// Masking a byte never gives more than the mask.
pub(crate) proof fn lemma_byte_mask_bound(x: u8, mask: u8)
    ensures
        x & mask <= mask,
{
    assert(x & mask <= mask) by (bit_vector);
}

/// Masking a word never gives more than the mask.
pub(crate) proof fn lemma_word_mask_bound(x: u16, mask: u16)
    ensures
        x & mask <= mask,
{
    assert(x & mask <= mask) by (bit_vector);
}

/// The low byte of a word is the word modulo 256, and the high byte its quotient.
pub(crate) proof fn lemma_word_truncation(x: u16)
    ensures
        x as u8 == (x % 256) as u8,
        (x >> 8) as u8 == (x / 256) as u8,
{
    assert(x as u8 == (x % 256) as u8 && (x >> 8) as u8 == (x / 256) as u8) by (bit_vector);
}

/// Splitting a word into its bytes, and replacing one byte of it.
pub(crate) proof fn lemma_byte_replacement(x: u16, v: u8)
    ensures
        (x & 0xFF) as u8 == (x % 256) as u8,
        ((x & 0xFF00) >> 8) as u8 == (x / 256) as u8,
        (x & 0xFF00) | (v as u16) == 256 * (x / 256) + (v as u16),
        (x & 0xFF) | ((v as u16) << 8) == x % 256 + 256 * (v as u16),
{
    assert((x & 0xFF) as u8 == (x % 256) as u8 && ((x & 0xFF00) >> 8) as u8 == (x / 256) as u8
        && (x & 0xFF00) | (v as u16) == 256 * (x / 256) + (v as u16) && (x & 0xFF) | ((v as u16)
        << 8) == x % 256 + 256 * (v as u16)) by (bit_vector);
}

/// Truncating a signed word to a byte keeps its value modulo 256.
pub(crate) proof fn lemma_signed_word_truncation(x: i16)
    ensures
        x as u8 == (x % 256) as u8,
{
    assert(x as u8 == (x % 256) as u8) by (bit_vector);
}

} // verus!
