//! Small facts about byte-level bit operations that the register file and the
//! instruction set lean on.

use vstd::prelude::*;

verus! {

/// A masked byte never exceeds either operand.
pub broadcast proof fn lemma_u8_and_le(a: u8, b: u8)
    ensures
        #[trigger] (a & b) <= a,
        (a & b) <= b,
{
    assert((a & b) <= a && (a & b) <= b) by (bit_vector);
}

/// A masked word never exceeds either operand.
pub broadcast proof fn lemma_u16_and_le(a: u16, b: u16)
    ensures
        #[trigger] (a & b) <= a,
        (a & b) <= b,
{
    assert((a & b) <= a && (a & b) <= b) by (bit_vector);
}

/// A masked machine word never exceeds either operand.
pub broadcast proof fn lemma_usize_and_le(a: usize, b: usize)
    ensures
        #[trigger] (a & b) <= a,
        (a & b) <= b,
{
    assert((a & b) <= a && (a & b) <= b) by (bit_vector);
}

/// A byte whose low nibble is clear passes through the flag mask unchanged.
pub broadcast proof fn lemma_u8_mask_f0(f: u8)
    ensures
        f % 16 == 0 ==> #[trigger] (f & 0xF0) == f,
{
    assert(f % 16 == 0 ==> (f & 0xF0) == f) by (bit_vector);
}

} // verus!
