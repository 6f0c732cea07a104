//! The three plain operations of a C allocator, for callers that know
//! neither alignments nor flags.

use crate::facade::Step;
use crate::native::NativeCall;
use libc::size_t;
use vstd::prelude::*;

verus! {

/// Allocates `size` bytes.
pub fn malloc(size: size_t) -> (step: Step)
    ensures
        step == (Step::Forward(NativeCall::Malloc { size })),
{
    Step::Forward(NativeCall::Malloc { size })
}

/// Reallocates the region at `ptr` to `size` bytes.
pub fn realloc(ptr: usize, size: size_t) -> (step: Step)
    ensures
        step == (Step::Forward(NativeCall::Realloc { ptr, size })),
{
    Step::Forward(NativeCall::Realloc { ptr, size })
}

/// Releases the region at `ptr`.
pub fn free(ptr: usize) -> (step: Step)
    ensures
        step == (Step::Forward(NativeCall::Free { ptr })),
{
    Step::Forward(NativeCall::Free { ptr })
}

} // verus!
