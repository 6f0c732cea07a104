//! The calls that cross into the native collaborators: the backing
//! allocator and the protection-domain layer.
//!
//! The library never makes such a call itself. It says which call is to be
//! made, with which arguments, and what is to be done with the answer; the
//! embedder performs the call. Addresses travel as plain machine words, and
//! the null pointer is the word 0.

use crate::flags::{lg_align_of, MALLOCX_ZERO};
use libc::{c_int, size_t};
use vstd::arithmetic::power2::{is_pow2, pow2};
use vstd::prelude::*;

verus! {

/// One call into a native collaborator, with its arguments.
#[derive(Clone, Copy, Debug, PartialEq, Eq)]
pub enum NativeCall {
    /// Plain allocation of `size` bytes.
    Malloc { size: size_t },
    /// Plain reallocation of the region at `ptr` to `size` bytes.
    Realloc { ptr: usize, size: size_t },
    /// Plain release of the region at `ptr`.
    Free { ptr: usize },
    /// Allocation of `size` bytes under `flags`.
    Mallocx { size: size_t, flags: c_int },
    /// Zero-filled allocation of `size` times `count` bytes.
    Calloc { size: size_t, count: size_t },
    /// Reallocation of the region at `ptr` to `size` bytes under `flags`.
    Rallocx { ptr: usize, size: size_t, flags: c_int },
    /// Resize of the region at `ptr` to `size` bytes, and up to `extra` more,
    /// without moving it. The answer is the resulting usable size.
    Xallocx { ptr: usize, size: size_t, extra: size_t, flags: c_int },
    /// Release of the region at `ptr`, allocated with `size` and `flags`.
    Sdallocx { ptr: usize, size: size_t, flags: c_int },
    /// Query for the usable size that an allocation of `size` bytes under
    /// `flags` would have. The answer 0 means that it is not known.
    Nallocx { size: size_t, flags: c_int },
    /// Query for the usable size of the region at `ptr`.
    MallocUsableSize { ptr: usize },
    /// Query for the key of the active protection domain.
    VmaPkey,
    /// Query whether `addr` lies in the region that the active protection
    /// domain may access.
    IsSafeAddress { addr: usize },
}

/// The allocator's default alignment: an address that serves `bytes` bytes
/// is a multiple of every power of two up to `min_align` that is no more
/// than `bytes`.
pub open spec fn default_aligned(min_align: usize, bytes: int, ptr: usize) -> bool {
    forall|a: usize| #[trigger] is_pow2(a as int) && a <= min_align && a <= bytes ==> ptr % a == 0
}

/// The alignment of an allocation made under a flag word: the default one
/// where the flag word carries no alignment class, a multiple of two to the
/// power of that class where it carries one.
pub open spec fn flagged_aligned(min_align: usize, size: size_t, flags: c_int, ptr: usize) -> bool {
    if lg_align_of(flags) == 0 {
        default_aligned(min_align, size as int, ptr)
    } else {
        ptr as int % pow2(lg_align_of(flags)) as int == 0
    }
}

impl NativeCall {
    /// The number of bytes that this call asks the allocator for; 0 for a
    /// call that asks for none.
    pub open spec fn bytes_asked(self) -> int {
        match self {
            NativeCall::Malloc { size } => size as int,
            NativeCall::Realloc { ptr: _, size } => size as int,
            NativeCall::Calloc { size, count } => size * count,
            NativeCall::Mallocx { size, flags: _ } => size as int,
            NativeCall::Rallocx { ptr: _, size, flags: _ } => size as int,
            _ => 0,
        }
    }

    /// The size in bytes and the alignment class of the region that this
    /// call allocates or releases, where the call names both.
    pub open spec fn region(self) -> Option<(int, nat)> {
        match self {
            NativeCall::Calloc { size, count } => Some((size * count, 0nat)),
            NativeCall::Mallocx { size, flags } => Some((size as int, lg_align_of(flags))),
            NativeCall::Rallocx { ptr: _, size, flags } => Some((size as int, lg_align_of(flags))),
            NativeCall::Sdallocx { ptr: _, size, flags } => Some((size as int, lg_align_of(flags))),
            _ => None,
        }
    }

    /// Whether this call asks the allocator for memory whose every byte is
    /// zero.
    pub open spec fn asks_zero_fill(self) -> bool {
        match self {
            NativeCall::Calloc { size: _, count: _ } => true,
            NativeCall::Mallocx { size: _, flags } => flags & MALLOCX_ZERO == MALLOCX_ZERO,
            _ => false,
        }
    }

    /// Whether this call goes to the protection-domain layer, not to the
    /// allocator.
    pub open spec fn asks_the_protection_layer(self) -> bool {
        self is VmaPkey || self is IsSafeAddress
    }

    /// Whether this call is answered by a machine word: an address or a
    /// size.
    pub open spec fn answers_a_word(self) -> bool {
        !(self is Free || self is Sdallocx || self is VmaPkey || self is IsSafeAddress)
    }

    /// Whether the address `ptr` is one that an allocator which keeps its
    /// promise on alignment may answer to this call. Null, the answer of an
    /// allocator that has no memory left, is always one; and so is every
    /// word for a call that is not answered by an address.
    pub open spec fn may_place_at(self, min_align: usize, ptr: usize) -> bool {
        ptr != 0 ==> match self {
            NativeCall::Malloc { size } => default_aligned(min_align, size as int, ptr),
            NativeCall::Realloc { ptr: _, size } => default_aligned(min_align, size as int, ptr),
            NativeCall::Calloc { size, count } => default_aligned(min_align, size * count, ptr),
            NativeCall::Mallocx { size, flags } => flagged_aligned(min_align, size, flags, ptr),
            NativeCall::Rallocx { ptr: _, size, flags } => flagged_aligned(
                min_align,
                size,
                flags,
                ptr,
            ),
            _ => true,
        }
    }

    /// Whether the size `answer` is one that an allocator which keeps its
    /// promise on sizes may answer to this call: the nearest-size query
    /// reports no less than was asked for, or 0.
    pub open spec fn may_report(self, answer: usize) -> bool {
        match self {
            NativeCall::Nallocx { size, flags: _ } => answer == 0 || answer >= size,
            _ => true,
        }
    }
}

} // verus!
