//! An adapter between an allocation interface that speaks of sizes and
//! alignments and a backing allocator that speaks of sizes and flag words,
//! with a query for the protection domain that an address belongs to.
//!
//! The adapter holds no memory and no state. It names, for each request,
//! the native call that serves it and says what the call's answer means;
//! performing the call is left to the embedder.

pub mod facade;
pub mod flags;
pub mod laws;
pub mod layout;
pub mod libc_compat;
pub mod native;

pub use facade::{
    pk_alloc, pk_alloc_excess, pk_alloc_zeroed, pk_dealloc, pk_grow_in_place, pk_is_safe_addr,
    pk_malloc_usable_size, pk_realloc, pk_realloc_excess, pk_shrink_in_place, pk_usable_size,
    pk_vma_pkey, resume, Outcome, Pending, Step,
};
pub use flags::{je_align_to_flags, je_mallocx_align, MALLOCX_LG_ALIGN_MASK, MALLOCX_ZERO};
pub use layout::{is_power_of_two, Layout};
pub use native::NativeCall;
