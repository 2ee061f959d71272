//! Alignment arithmetic on addresses and sizes.
use vstd::prelude::*;
use vstd::arithmetic::power2::{pow2, lemma_pow2_pos};
use vstd::bits::{low_bits_mask, lemma_u64_low_bits_mask_is_mod, lemma_u64_pow2_no_overflow};

verus! {

/// `a` is a power of two.
pub open spec fn is_pow2(a: usize) -> bool {
    exists|k: nat| k < 64 && #[trigger] pow2(k) == a
}

/// `value` is a multiple of `align` (zero is the only multiple of zero).
pub open spec fn spec_is_aligned(value: usize, align: usize) -> bool {
    if align == 0 {
        value == 0
    } else {
        value % align == 0
    }
}

/// Tells whether `value` is a multiple of `align`.
pub fn is_aligned(value: usize, align: usize) -> (r: bool)
    ensures
        r == spec_is_aligned(value, align),
{
    if align == 0 {
        value == 0
    } else {
        value % align == 0
    }
}

/// Clearing the bits of `v` below a power of two `a` rounds `v` down to a
/// multiple of `a`.
pub proof fn lemma_align_down_bits(v: usize, a: usize)
    requires
        is_pow2(a),
    ensures
        (v & !((a - 1) as usize)) % a == 0,
        (v & !((a - 1) as usize)) <= v,
        v - (v & !((a - 1) as usize)) < a,
        (v & !((a - 1) as usize)) == v - v % a,
{
    let k = choose|k: nat| k < 64 && #[trigger] pow2(k) == a;
    lemma_pow2_pos(k);
    lemma_u64_pow2_no_overflow(k);
    lemma_u64_low_bits_mask_is_mod(v as u64, k);
    assert(low_bits_mask(k) == a - 1);
    let m: usize = (a - 1) as usize;
    assert((v as u64) & (m as u64) == (v & m) as u64) by (bit_vector);
    assert(v & m == v % a);
    assert(v & !m == v - (v & m)) by (bit_vector);
    assert((v - v % a) % (a as int) == 0) by {
        vstd::arithmetic::div_mod::lemma_fundamental_div_mod(v as int, a as int);
        vstd::arithmetic::div_mod::lemma_mod_multiples_basic(v as int / a as int, a as int);
        vstd::arithmetic::mul::lemma_mul_is_commutative(v as int / a as int, a as int);
    }
}

/// Rounds `value` down to a multiple of `align`; `align` is meant to be a
/// power of two, and for one the result is the largest multiple of `align`
/// not above `value`.
pub fn align_down(value: usize, align: usize) -> (r: usize)
    requires
        align >= 1,
    ensures
        r == value & !((align - 1) as usize),
        is_pow2(align) ==> r == value - value % align,
        is_pow2(align) ==> r % align == 0 && r <= value && value - r < align,
{
    proof {
        if is_pow2(align) {
            lemma_align_down_bits(value, align);
        }
    }
    value & !(align - 1)
}

/// Rounds `value` up to a multiple of `align`; `align` is meant to be a
/// power of two, and for one the result is the smallest multiple of `align`
/// not below `value`.
pub fn align_up(value: usize, align: usize) -> (r: usize)
    requires
        align >= 1,
        value + align - 1 <= usize::MAX,
    ensures
        r == ((value + (align - 1)) as usize) & !((align - 1) as usize),
        is_pow2(align) ==> r % align == 0 && value <= r && r - value < align,
{
    let s = value + (align - 1);
    proof {
        if is_pow2(align) {
            lemma_align_down_bits(s, align);
        }
    }
    s & !(align - 1)
}

} // verus!
