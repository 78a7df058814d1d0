//! Facts about bit masks that the default solver does not know.
use vstd::prelude::*;

verus! {

/// Masking never yields more than the mask.
pub proof fn lemma_and_le_u8(x: u8, m: u8)
    ensures
        x & m <= m,
        x & m <= x,
{
    assert(x & m <= m) by (bit_vector);
    assert(x & m <= x) by (bit_vector);
}

/// Masking never yields more than the mask.
pub proof fn lemma_and_le_u16(x: u16, m: u16)
    ensures
        x & m <= m,
        x & m <= x,
{
    assert(x & m <= m) by (bit_vector);
    assert(x & m <= x) by (bit_vector);
}

/// The union of two five-bit masks is a five-bit mask.
pub proof fn lemma_or_five_bits(x: u8, y: u8)
    requires
        x <= 0x1f,
        y <= 0x1f,
    ensures
        x | y <= 0x1f,
{
    assert(x | y <= 0x1f) by (bit_vector)
        requires
            x <= 0x1f,
            y <= 0x1f,
    ;
}

/// One bit among the low five is a five-bit mask.
pub proof fn lemma_bit_five(n: u8)
    requires
        n < 5,
    ensures
        1u8 << n <= 0x1f,
{
    assert(1u8 << n <= 0x1f) by (bit_vector)
        requires
            n < 5,
    ;
}

/// A byte that is a multiple of sixteen has an empty low nibble, and conversely.
pub proof fn lemma_low_nibble(f: u8)
    ensures
        (f & 0x0f == 0) <==> (f % 16 == 0),
{
    assert((f & 0x0f == 0) <==> (f % 16 == 0)) by (bit_vector);
}

/// Clearing the low nibble by mask.
pub proof fn lemma_high_nibble(d: u8)
    ensures
        (d & 0xf0) & 0x0f == 0,
{
    assert((d & 0xf0) & 0x0f == 0) by (bit_vector);
}

/// A right shift never yields more than the value shifted.
pub proof fn lemma_shr_le_u16(x: u16, n: u16)
    requires
        n < 16,
    ensures
        x >> n <= x,
{
    assert(x >> n <= x) by (bit_vector)
        requires
            n < 16,
    ;
}

} // verus!
