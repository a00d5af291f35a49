//! Population count and Hamming distance, as specifications and as code.

use vstd::prelude::*;

verus! {

/// Number of one bits in the binary representation of `x`.
pub open spec fn popcount(x: nat) -> nat
    decreases x,
{
    if x == 0 {
        0
    } else {
        (x % 2) + popcount(x / 2)
    }
}

/// Number of bit positions in which two codes differ.
pub open spec fn hamming(a: u16, b: u16) -> nat {
    popcount((a ^ b) as nat)
}

/// `u8::count_ones` returns the number of ones in the binary representation
/// of its argument.
pub assume_specification[ u8::count_ones ](x: u8) -> (r: u32)
    ensures
        r == popcount(x as nat),
;

/// `u16::count_ones` returns the number of ones in the binary representation
/// of its argument.
pub assume_specification[ u16::count_ones ](x: u16) -> (r: u32)
    ensures
        r == popcount(x as nat),
;

/// A value below `2^bits` has at most `bits` one bits.
pub proof fn lemma_popcount_bound(x: nat, bits: nat)
    requires
        x < vstd::arithmetic::power2::pow2(bits),
    ensures
        popcount(x) <= bits,
    decreases bits,
{
    vstd::arithmetic::power2::lemma2_to64();
    if x == 0 {
    } else if bits == 0 {
        assert(vstd::arithmetic::power2::pow2(0) == 1);
    } else {
        vstd::arithmetic::power2::lemma_pow2_unfold(bits);
        lemma_popcount_bound(x / 2, (bits - 1) as nat);
    }
}

/// A byte has at most eight one bits.
pub proof fn lemma_popcount_u8(x: u8)
    ensures
        popcount(x as nat) <= 8,
{
    vstd::arithmetic::power2::lemma2_to64();
    lemma_popcount_bound(x as nat, 8);
}

/// A code is at distance zero from itself.
pub proof fn lemma_hamming_self(a: u16)
    ensures
        hamming(a, a) == 0,
{
    assert(a ^ a == 0) by (bit_vector);
}

} // verus!
