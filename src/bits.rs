//! Bitboards: one bit per square, bit `sq` for square `sq`.
use vstd::prelude::*;

verus! {

/// Whether square `sq` is set in `bb`.
pub open spec fn has_bit(bb: u64, sq: int) -> bool {
    (bb >> (sq as u64)) & 1u64 == 1u64
}

/// Number of set bits among the lowest `n` bits of `x`.
pub open spec fn bits_in(x: u64, n: nat) -> nat
    decreases n,
{
    if n == 0 {
        0
    } else {
        ((x & 1u64) as nat) + bits_in(x >> 1u64, (n - 1) as nat)
    }
}

/// Number of squares set in a bitboard.
pub open spec fn bit_count(x: u64) -> nat {
    bits_in(x, 64)
}

/// Tests whether square `sq` is set in `bb`.
pub fn test_bit(bb: u64, sq: u8) -> (r: bool)
    requires
        sq < 64,
    ensures
        r == has_bit(bb, sq as int),
{
    (bb >> (sq as u64)) & 1u64 == 1u64
}

/// Counts the squares set in a bitboard.
pub fn count_bits(x: u64) -> (r: u32)
    ensures
        r == bit_count(x),
        r <= 64,
{
    let mut c: u32 = 0;
    let mut y: u64 = x;
    let mut k: u32 = 0;
    while k < 64
        invariant
            k <= 64,
            c <= k,
            bit_count(x) == c + bits_in(y, (64 - k) as nat),
        decreases 64 - k,
    {
        let low = y & 1u64;
        assert(y & 1u64 <= 1u64) by (bit_vector);
        c = c + low as u32;
        y = y >> 1u64;
        k = k + 1;
    }
    c
}

/// The bitboard holding square `sq` alone.
pub open spec fn square_bit(sq: int) -> u64 {
    1u64 << (sq as u64)
}

} // verus!
