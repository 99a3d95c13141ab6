//! Single-bit operations on 32-bit bitmap words.

use vstd::prelude::*;

verus! {

/// Whether bit `bit` of `word` is set. Meaningful for `bit < 32`.
pub open spec fn bit_is_set(word: u32, bit: u32) -> bool {
    word & (1u32 << bit) != 0
}

/// `word` with bit `bit` set.
pub open spec fn with_bit_set(word: u32, bit: u32) -> u32 {
    word | (1u32 << bit)
}

/// `word` with bit `bit` cleared.
pub open spec fn with_bit_cleared(word: u32, bit: u32) -> u32 {
    word & !(1u32 << bit)
}

/// Setting a bit turns that bit on and leaves every other bit as it was.
pub proof fn lemma_set_bit(word: u32, bit: u32, other: u32)
    requires
        bit < 32,
        other < 32,
    ensures
        bit_is_set(with_bit_set(word, bit), other) == (other == bit || bit_is_set(word, other)),
{
    assert(((word | (1u32 << bit)) & (1u32 << other) != 0) == (other == bit || (word & (1u32
        << other) != 0))) by (bit_vector)
        requires
            bit < 32,
            other < 32,
    ;
}

/// Clearing a bit turns that bit off and leaves every other bit as it was.
pub proof fn lemma_clear_bit(word: u32, bit: u32, other: u32)
    requires
        bit < 32,
        other < 32,
    ensures
        bit_is_set(with_bit_cleared(word, bit), other) == (other != bit && bit_is_set(
            word,
            other,
        )),
{
    assert(((word & !(1u32 << bit)) & (1u32 << other) != 0) == (other != bit && (word & (1u32
        << other) != 0))) by (bit_vector)
        requires
            bit < 32,
            other < 32,
    ;
}

} // verus!
