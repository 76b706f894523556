use vstd::prelude::*;

verus! {

/// A mask bounds the value it keeps.
pub proof fn lemma_and_le_u8(x: u8, m: u8)
    by (bit_vector)
    ensures
        x & m <= m,
        x & m <= x,
{
}

/// A mask bounds the value it keeps.
pub proof fn lemma_and_le_u16(x: u16, m: u16)
    by (bit_vector)
    ensures
        x & m <= m,
        x & m <= x,
{
}

/// A mask bounds the value it keeps.
pub proof fn lemma_and_le_u32(x: u32, m: u32)
    by (bit_vector)
    ensures
        x & m <= m,
        x & m <= x,
{
}

/// A mask bounds the value it keeps.
pub proof fn lemma_and_le_u64(x: u64, m: u64)
    by (bit_vector)
    ensures
        x & m <= m,
        x & m <= x,
{
}

/// A mask bounds the value it keeps.
pub proof fn lemma_and_le_usize(x: usize, m: usize)
    by (bit_vector)
    ensures
        x & m <= m,
        x & m <= x,
{
}

/// The fields of a byte: its nibbles and shifted parts.
pub proof fn lemma_u8_fields(x: u8)
    by (bit_vector)
    ensures
        x >> 1u8 <= 0x7F,
        x >> 3u8 <= 0x1F,
        x >> 4u8 <= 0xF,
        x >> 5u8 <= 7,
        x >> 6u8 <= 3,
        x & 0x0F == x % 16,
        x >> 4u8 == x / 16,
        x >> 3u8 == x / 8,
        x & 7 == x % 8,
        (x >> 3u8) & 7 == (x / 8) % 8,
{
}

/// The low nibble of a halfword is its remainder by 16, its top two bits
/// its quotient by 16384.
pub proof fn lemma_u16_nibble(x: u16)
    by (bit_vector)
    ensures
        x & 0x0F == x % 16,
        (x >> 14u16) & 3 == x / 16384,
{
}

/// The fields of a word.
pub proof fn lemma_u32_fields(x: u32)
    by (bit_vector)
    ensures
        x >> 8u32 < 0x100_0000,
        x >> 4u32 < 0x1000_0000,
        x >> 24u32 < 0x100,
{
}

} // verus!
