//! Powers of two and base-two logarithms on machine words.
use vstd::prelude::*;
use vstd::arithmetic::power2::{pow2, lemma_pow2_unfold, lemma_pow2_strictly_increases, lemma_pow2_pos};
use vstd::bits::{lemma_usize_shl_is_mul, lemma_usize_pow2_no_overflow, low_bits_mask, lemma_u64_low_bits_mask_is_mod, lemma_u64_pow2_no_overflow};

verus! {

/// `2^n` as a machine word.
pub fn pow2_usize(n: u32) -> (r: usize)
    requires
        n < usize::BITS,
    ensures
        r == pow2(n as nat),
{
    proof {
        lemma_usize_pow2_no_overflow(n as nat);
        assert(1usize * pow2(n as nat) <= usize::MAX);
        lemma_usize_shl_is_mul(1usize, n as usize);
    }
    1usize << (n as usize)
}

/// Masking with the low `k` bits keeps the remainder modulo `2^k`.
pub proof fn lemma_mask_is_mod(x: usize, k: u32)
    requires
        k < usize::BITS,
    ensures
        (1usize << (k as usize)) as nat == pow2(k as nat),
        x & (((1usize << (k as usize)) - 1) as usize) == x as nat % pow2(k as nat),
{
    lemma_usize_pow2_no_overflow(k as nat);
    assert(1usize * pow2(k as nat) <= usize::MAX);
    lemma_usize_shl_is_mul(1usize, k as usize);
    lemma_pow2_pos(k as nat);
    lemma_u64_pow2_no_overflow(k as nat);
    lemma_u64_low_bits_mask_is_mod(x as u64, k as nat);
    let m: usize = ((1usize << (k as usize)) - 1) as usize;
    assert(low_bits_mask(k as nat) == m);
    assert((x as u64) & (m as u64) == (x & m) as u64) by (bit_vector);
}

/// The base-two logarithm of `x`, rounded down (zero for zero and one).
pub open spec fn spec_log2(x: nat) -> nat
    decreases x,
{
    if x <= 1 {
        0
    } else {
        1 + spec_log2(x / 2)
    }
}

/// The logarithm of a power of two is its exponent.
pub proof fn lemma_log2_pow2(k: nat)
    ensures
        spec_log2(pow2(k)) == k,
    decreases k,
{
    if k == 0 {
        vstd::arithmetic::power2::lemma2_to64();
    } else {
        lemma_pow2_unfold(k);
        lemma_pow2_pos((k - 1) as nat);
        lemma_pow2_strictly_increases(0, k);
        vstd::arithmetic::power2::lemma2_to64();
        assert(pow2(k) / 2 == pow2((k - 1) as nat));
        lemma_log2_pow2((k - 1) as nat);
    }
}

/// `k` is the base-two logarithm of `x`, rounded down.
pub open spec fn is_ilog2(x: usize, k: u32) -> bool {
    pow2(k as nat) <= x < pow2((k + 1) as nat)
}

/// The base-two logarithm of a positive `x`, rounded down.
pub fn ilog2(x: usize) -> (r: u32)
    requires
        x > 0,
    ensures
        is_ilog2(x, r),
        r == spec_log2(x as nat),
        r < usize::BITS,
{
    let mut k: u32 = 0;
    let mut y: usize = x;
    proof {
        lemma_pow2_unfold(1);
        vstd::arithmetic::power2::lemma2_to64();
    }
    while y > 1
        invariant
            1 <= y,
            k < usize::BITS,
            y * pow2(k as nat) <= x < (y + 1) * pow2(k as nat),
            spec_log2(x as nat) == k + spec_log2(y as nat),
        decreases y,
    {
        proof {
            lemma_pow2_unfold((k + 1) as nat);
            lemma_pow2_pos(k as nat);
            let p = pow2(k as nat);
            assert((y / 2) * (2 * p) <= y * p) by (nonlinear_arith)
                requires p > 0, y >= 1;
            assert(x < (y / 2 + 1) * (2 * p)) by (nonlinear_arith)
                requires x < (y + 1) * p, p > 0, y >= 1;
            assert(k + 1 < usize::BITS) by {
                // y >= 2 forces 2 * 2^k <= x < 2^BITS
                assert(2 * p <= y * p) by (nonlinear_arith) requires y >= 2, p > 0;
                if k + 1 >= usize::BITS {
                    lemma_pow2_strictly_increases((usize::BITS - 1) as nat, (k + 1) as nat);
                    lemma_usize_pow2_no_overflow((usize::BITS - 1) as nat);
                    lemma_pow2_unfold(usize::BITS as nat);
                    vstd::arithmetic::power2::lemma2_to64();
                    vstd::arithmetic::power2::lemma2_to64_rest();
                    if k + 1 > usize::BITS {
                        lemma_pow2_strictly_increases(usize::BITS as nat, (k + 1) as nat);
                    }
                }
            }
        }
        y = y / 2;
        k = k + 1;
    }
    proof {
        assert(y == 1);
        lemma_pow2_unfold((k + 1) as nat);
    }
    k
}

/// The logarithm of a positive machine word is below the word size, and its
/// power of two is at most the word.
pub proof fn lemma_log2_bound(x: usize)
    requires
        x > 0,
    ensures
        spec_log2(x as nat) < usize::BITS,
        pow2(spec_log2(x as nat)) <= x,
{
    lemma_log2_char(x as nat);
    if spec_log2(x as nat) >= usize::BITS {
        vstd::arithmetic::power2::lemma2_to64();
        vstd::arithmetic::power2::lemma2_to64_rest();
        assert(pow2(usize::BITS as nat) > usize::MAX);
        if spec_log2(x as nat) > usize::BITS {
            lemma_pow2_strictly_increases(usize::BITS as nat, spec_log2(x as nat));
        }
    }
}

/// `2^log2(x) <= x < 2^(log2(x) + 1)` for a positive `x`.
pub proof fn lemma_log2_char(x: nat)
    requires
        x > 0,
    ensures
        pow2(spec_log2(x)) <= x < pow2(spec_log2(x) + 1),
    decreases x,
{
    vstd::arithmetic::power2::lemma2_to64();
    if x > 1 {
        lemma_log2_char(x / 2);
        lemma_pow2_unfold(spec_log2(x / 2) + 1);
        lemma_pow2_unfold(spec_log2(x / 2) + 2);
    }
}

} // verus!
