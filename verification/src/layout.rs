//! The shape of a memory region: how many bytes, and how aligned.

use vstd::arithmetic::power2::is_pow2;
use vstd::prelude::*;

verus! {

/// A size in bytes together with an alignment.
#[derive(Clone, Copy, Debug, PartialEq, Eq)]
pub struct Layout {
    pub size: usize,
    pub align: usize,
}

/// A word at least 2 has a single set bit exactly when it is even and its
/// half has a single set bit.
proof fn lemma_single_bit_of_half(n: usize)
    requires
        n >= 2,
    ensures
        (n & ((n - 1) as usize) == 0) <==> (n % 2 == 0 && (n / 2) & ((n / 2 - 1) as usize) == 0),
{
    assert(n >= 2 ==> ((n & ((n - 1) as usize) == 0) <==> (n % 2 == 0 && (n / 2) & ((n / 2 - 1) as usize)
        == 0))) by (bit_vector);
}

/// A nonzero word is a power of two exactly when it shares no bit with its
/// predecessor.
proof fn lemma_single_bit_is_pow2(n: usize)
    requires
        n != 0,
    ensures
        (n & ((n - 1) as usize) == 0) <==> is_pow2(n as int),
    decreases n,
{
    reveal(is_pow2);
    if n == 1 {
        assert(1usize & 0usize == 0) by (bit_vector);
    } else {
        lemma_single_bit_of_half(n);
        lemma_single_bit_is_pow2(n / 2);
    }
}

/// Whether `n` is a power of two.
pub fn is_power_of_two(n: usize) -> (yes: bool)
    ensures
        yes == is_pow2(n as int),
{
    if n == 0 {
        proof {
            reveal(is_pow2);
        }
        false
    } else {
        proof {
            lemma_single_bit_is_pow2(n);
        }
        n & (n - 1) == 0
    }
}

impl Layout {
    /// A layout is well formed when its alignment is a power of two.
    pub open spec fn well_formed(&self) -> bool {
        is_pow2(self.align as int)
    }

    /// The layout of `size` bytes aligned to `align`, where `align` is a
    /// power of two; no layout otherwise.
    pub fn from_size_align(size: usize, align: usize) -> (made: Option<Layout>)
        ensures
            made.is_some() == is_pow2(align as int),
            made matches Some(layout) ==> layout.size == size && layout.align == align
                && layout.well_formed(),
    {
        if is_power_of_two(align) {
            Some(Layout { size, align })
        } else {
            None
        }
    }
}

} // verus!
