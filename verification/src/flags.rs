//! The flag word that an allocation request takes to the backing allocator.
//!
//! The backing allocator takes an alignment as the base-two logarithm of the
//! alignment, in the low bits of a flag word. A request whose alignment the
//! allocator already grants by default needs no flag at all.

use libc::c_int;
use vstd::arithmetic::power2::{
    is_pow2, lemma2_to64, lemma_pow2_strictly_increases, lemma_pow2_unfold, pow2,
};
use vstd::prelude::*;
use vstd::std_specs::bits::{axiom_u64_trailing_zeros, u64_trailing_zeros};

verus! {

/// Flag bit that asks the backing allocator for zero-filled memory.
pub const MALLOCX_ZERO: c_int = 0x40;

/// Mask of the flag bits that carry the alignment class.
pub const MALLOCX_LG_ALIGN_MASK: c_int = 0x3f;

/// The exponent of the largest power of two that divides `n`, and 0 for
/// `n == 0`.
pub open spec fn two_adic(n: nat) -> nat
    decreases n,
{
    if n == 0 || n % 2 == 1 {
        0
    } else {
        1 + two_adic(n / 2)
    }
}

/// The number of zero bits below the lowest set bit of `a`; the width of the
/// machine word when no bit of `a` is set.
pub open spec fn trailing_zeros(a: usize) -> nat {
    if a == 0 {
        usize::BITS as nat
    } else {
        two_adic(a as nat)
    }
}

/// The alignment class of the alignment `a`: its base-two logarithm when `a`
/// is a power of two.
pub open spec fn mallocx_align(a: usize) -> c_int {
    trailing_zeros(a) as c_int
}

/// Whether the allocator's default alignment already serves a request for
/// `size` bytes aligned to `align`, given that it aligns every allocation to
/// the smaller of `min_align` and the size asked for.
pub open spec fn default_suffices(min_align: usize, align: usize, size: usize) -> bool {
    align <= min_align && align <= size
}

/// The flag word for a request of `size` bytes aligned to `align`.
pub open spec fn align_to_flags(min_align: usize, align: usize, size: usize) -> c_int {
    if default_suffices(min_align, align, size) {
        0
    } else {
        mallocx_align(align)
    }
}

/// The flag word `flags` with the request for zero-filled memory added.
pub open spec fn zero_filled(flags: c_int) -> c_int {
    flags | MALLOCX_ZERO
}

/// The alignment class that the flag word `flags` carries.
pub open spec fn lg_align_of(flags: c_int) -> nat {
    (flags & MALLOCX_LG_ALIGN_MASK) as nat
}

/// Bit `j` of `a` is bit `j - 1` of `a / 2`.
proof fn lemma_bit_of_half(a: u64, j: u64)
    requires
        1 <= j < 64,
    ensures
        (a >> j) & 1 == ((a / 2) >> ((j - 1) as u64)) & 1,
{
    assert(1 <= j < 64 ==> (a >> j) & 1 == ((a / 2) >> ((j - 1) as u64)) & 1) by (bit_vector);
}

/// The lowest bit of `a` tells whether `a` is odd.
proof fn lemma_lowest_bit(a: u64)
    ensures
        (a >> 0) & 1 == a % 2,
{
    assert((a >> 0) & 1 == a % 2) by (bit_vector);
}

/// On a nonzero word, the count of trailing zero bits is the exponent of the
/// largest power of two that divides it.
proof fn lemma_trailing_zeros_is_two_adic(a: u64)
    requires
        a != 0,
    ensures
        u64_trailing_zeros(a) == two_adic(a as nat),
    decreases a,
{
    let t = u64_trailing_zeros(a);
    axiom_u64_trailing_zeros(a);
    lemma_lowest_bit(a);
    if a % 2 == 1 {
        if t > 0 {
            assert((a >> 0u64) & 1 == 0);
        }
    } else {
        let h: u64 = a / 2;
        let th = u64_trailing_zeros(h);
        axiom_u64_trailing_zeros(h);
        lemma_trailing_zeros_is_two_adic(h);
        assert(t != 0);
        lemma_bit_of_half(a, t as u64);
        if t < th + 1 {
            assert((h >> ((t - 1) as u64)) & 1 == 0);
        }
        if t > th + 1 {
            lemma_bit_of_half(a, (th + 1) as u64);
            assert((a >> ((th + 1) as u64)) & 1 == 0);
        }
    }
}

/// A power of two is two to the power of its two-adic exponent.
pub proof fn lemma_pow2_of_two_adic(n: nat)
    requires
        is_pow2(n as int),
    ensures
        pow2(two_adic(n)) == n,
    decreases n,
{
    reveal(is_pow2);
    lemma2_to64();
    if n != 1 {
        lemma_pow2_of_two_adic(n / 2);
        lemma_pow2_unfold(two_adic(n));
    }
}

/// The alignment class of a power of two is its logarithm, and fits below
/// the zero-fill bit.
pub proof fn lemma_mallocx_align_of_pow2(a: usize)
    requires
        is_pow2(a as int),
    ensures
        0 <= mallocx_align(a) < usize::BITS,
        mallocx_align(a) < MALLOCX_ZERO,
        pow2(mallocx_align(a) as nat) == a,
{
    reveal(is_pow2);
    lemma_pow2_of_two_adic(a as nat);
    lemma2_to64();
    let k = two_adic(a as nat);
    if k > usize::BITS {
        lemma_pow2_strictly_increases(usize::BITS as nat, k);
    }
}

/// A flag word that is an alignment class below the zero-fill bit carries
/// that class, with and without the zero-fill bit; and adding the zero-fill
/// bit to any flag word sets that bit and keeps the alignment class.
pub proof fn lemma_flag_bits(flags: c_int)
    ensures
        0 <= flags < MALLOCX_ZERO ==> lg_align_of(flags) == flags,
        lg_align_of(zero_filled(flags)) == lg_align_of(flags),
        zero_filled(flags) & MALLOCX_ZERO == MALLOCX_ZERO,
{
    assert(0 <= flags < 0x40i32 ==> flags & 0x3fi32 == flags) by (bit_vector);
    assert((flags | 0x40i32) & 0x3fi32 == flags & 0x3fi32) by (bit_vector);
    assert((flags | 0x40i32) & 0x40i32 == 0x40i32) by (bit_vector);
    assert(flags & 0x3fi32 >= 0) by (bit_vector);
}

/// The alignment class for the alignment `a`, as the backing allocator
/// encodes it: the number of trailing zero bits of `a`.
pub fn je_mallocx_align(a: usize) -> (flags: c_int)
    ensures
        flags == mallocx_align(a),
{
    if a == 0 {
        usize::BITS as c_int
    } else {
        let zeros: u32 = (a as u64).trailing_zeros();
        proof {
            lemma_trailing_zeros_is_two_adic(a as u64);
            axiom_u64_trailing_zeros(a as u64);
        }
        zeros as c_int
    }
}

/// The flag word for a request of `size` bytes aligned to `align`: none
/// where the allocator's default alignment serves the request, the
/// alignment class of `align` otherwise.
pub fn je_align_to_flags(min_align: usize, align: usize, size: usize) -> (flags: c_int)
    ensures
        flags == align_to_flags(min_align, align, size),
{
    if align <= min_align && align <= size {
        0
    } else {
        je_mallocx_align(align)
    }
}

} // verus!
