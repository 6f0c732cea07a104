//! The allocator's operations, each as the steps it takes.
//!
//! An operation begins with one of the `pk_` functions, which answers with a
//! [`Step`]. A step either ends the operation or names a native call. Where
//! the library has work left after that call, the step carries a
//! [`Pending`], and the embedder hands the call's answer to [`resume`],
//! which answers with the next step. No operation keeps anything between
//! two calls but what the `Pending` holds.
//!
//! The operations that choose a flag word take `min_align`: the alignment
//! that the backing allocator grants without being asked on the machine at
//! hand. It has to be what the allocator really grants, or addresses come
//! back less aligned than was asked for.

use crate::flags::{align_to_flags, default_suffices, je_align_to_flags, zero_filled, MALLOCX_ZERO};
use crate::laws::{
    alloc_is_aligned, alloc_zeroed_asks_for_zeros, alloc_zeroed_is_aligned, realloc_is_aligned,
};
use crate::layout::Layout;
use crate::native::NativeCall;
use libc::c_int;
use vstd::arithmetic::power2::is_pow2;
use vstd::prelude::*;

verus! {

/// What an operation has found, where that is more than the answer of its
/// last native call.
#[derive(Clone, Copy, Debug, PartialEq, Eq)]
pub enum Outcome {
    /// The least and the greatest size that a region allocated with a given
    /// layout can be used for.
    Sizes { min: usize, max: usize },
    /// The address of a region and, where the address is not null, the size
    /// that the region can really be used for.
    Allocated { ptr: usize, excess: Option<usize> },
    /// Whether a region now has exactly the size asked for, at the address it
    /// had before.
    Resized(bool),
}

/// What the library still has to do when a native call has been answered.
#[derive(Clone, Copy, Debug, PartialEq, Eq)]
pub enum Pending {
    /// The usable size for a request of `requested` bytes was asked for.
    Nearest { requested: usize },
    /// A region of `size` bytes was asked for under `flags`, and its usable
    /// size is to be reported with it.
    Placement { size: usize, flags: c_int },
    /// The usable size of the region at `ptr` was asked for.
    Excess { ptr: usize },
    /// A resize to exactly `new_size` bytes was asked for.
    Resize { new_size: usize },
}

/// The next thing to happen in an operation.
#[derive(Clone, Copy, Debug, PartialEq, Eq)]
pub enum Step {
    /// The operation is over, with this outcome, and no native call is to be
    /// made.
    Done(Outcome),
    /// The operation ends with this native call: the call's answer is the
    /// operation's result.
    Forward(NativeCall),
    /// This native call is to be made, and its answer handed to [`resume`]
    /// together with the `Pending`.
    Call(NativeCall, Pending),
}

impl Pending {
    /// The greatest number of native calls that the operation may still
    /// make once the call behind this `Pending` has been answered.
    pub open spec fn calls_ahead(self) -> nat {
        match self {
            Pending::Placement { size: _, flags: _ } => 1,
            _ => 0,
        }
    }
}

impl Step {
    /// The native call that this step names, if it names one.
    pub open spec fn call(self) -> Option<NativeCall> {
        match self {
            Step::Done(_) => None,
            Step::Forward(call) => Some(call),
            Step::Call(call, _) => Some(call),
        }
    }

    /// Whether this step keeps to the allocator: it names no call to the
    /// protection-domain layer, and a call whose answer the library waits
    /// for is answered by a machine word.
    pub open spec fn keeps_to_the_allocator(self) -> bool {
        &&& self.call() matches Some(call) ==> !call.asks_the_protection_layer()
        &&& self matches Step::Call(call, _) ==> call.answers_a_word()
    }

    /// Whether this step names a call such that every address which an
    /// allocator true to its promise on alignment may answer to it is null
    /// or a multiple of `align`.
    pub open spec fn places_at_multiples_of(self, min_align: usize, align: usize) -> bool {
        &&& self.call() is Some
        &&& forall|ptr: usize| #[trigger]
            self.call().unwrap().may_place_at(min_align, ptr) ==> ptr == 0 || ptr % align == 0
    }

    /// Whether this step names a call that asks the allocator for `size`
    /// bytes, every one of them zero.
    pub open spec fn asks_for_zeros(self, size: usize) -> bool {
        self.call() matches Some(call) && call.asks_zero_fill() && call.bytes_asked() == size
    }

    /// Whether this step asks the allocator to resize the region at `ptr`
    /// without moving it, to `new_size` bytes and not one more, and ends
    /// with success exactly when the answer is `new_size`.
    pub open spec fn resizes_to_exactly(self, ptr: usize, new_size: usize) -> bool {
        &&& self.call() matches Some(
            NativeCall::Xallocx { ptr: region, size, extra, flags: _ },
        ) && region == ptr && size == new_size && extra == 0
        &&& forall|answer: usize| #[trigger]
            self.answered(answer) == Step::Done(Outcome::Resized(answer == new_size))
    }

    /// Whether this step waits for the address of a region and reports the
    /// region's usable size with it: the null address ends the operation with
    /// no size; any other address is followed by the query for the usable
    /// size of a request of `size` bytes under `flags`, whose answer ends the
    /// operation together with the address.
    pub open spec fn reports_usable_size(self, size: usize, flags: c_int) -> bool {
        &&& self is Call
        &&& self.answered(0) == Step::Done(Outcome::Allocated { ptr: 0, excess: None })
        &&& forall|ptr: usize| #[trigger]
            self.answered(ptr).call() == if ptr == 0 {
                None
            } else {
                Some(NativeCall::Nallocx { size, flags })
            }
        &&& forall|ptr: usize, usable: usize| #[trigger]
            self.answered(ptr).answered(usable) == Step::Done(
                Outcome::Allocated { ptr, excess: if ptr == 0 { None } else { Some(usable) } },
            )
    }

    /// Whether this step asks for a size and ends, whatever the answer, with
    /// `size` as the least usable size and a greatest usable size that is no
    /// less, for every answer that an allocator true to its promise on sizes
    /// may give.
    pub open spec fn brackets(self, size: usize) -> bool {
        &&& self.call() is Some
        &&& forall|answer: usize| #[trigger]
            self.answered(answer) matches Step::Done(Outcome::Sizes { min, max }) && min == size
                && (self.call().unwrap().may_report(answer) ==> max >= size)
    }

    /// The step that follows this one when its native call has answered
    /// `answer`; this step itself where it is the last one.
    pub open spec fn answered(self, answer: usize) -> Step {
        match self {
            Step::Call(_, pending) => resumed(pending, answer),
            _ => self,
        }
    }

    /// The greatest number of native calls that the operation may still
    /// make, the one that this step names included.
    pub open spec fn calls_ahead(self) -> nat {
        match self {
            Step::Done(_) => 0,
            Step::Forward(_) => 1,
            Step::Call(_, pending) => 1 + pending.calls_ahead(),
        }
    }
}

/// The step that follows when the native call behind `pending` has answered
/// `answer`.
pub open spec fn resumed(pending: Pending, answer: usize) -> Step {
    match pending {
        Pending::Nearest { requested } => Step::Done(
            Outcome::Sizes { min: requested, max: if answer > 0 { answer } else { requested } },
        ),
        Pending::Placement { size, flags } => if answer != 0 {
            Step::Call(NativeCall::Nallocx { size, flags }, Pending::Excess { ptr: answer })
        } else {
            Step::Done(Outcome::Allocated { ptr: 0, excess: None })
        },
        Pending::Excess { ptr } => Step::Done(Outcome::Allocated { ptr, excess: Some(answer) }),
        Pending::Resize { new_size } => Step::Done(Outcome::Resized(answer == new_size)),
    }
}

/// The first step of an allocation of `size` bytes aligned to `align`.
pub open spec fn alloc_step(min_align: usize, size: usize, align: usize) -> Step {
    Step::Forward(NativeCall::Mallocx { size, flags: align_to_flags(min_align, align, size) })
}

/// The first step of the release of the region at `ptr`, which was allocated
/// with `size` and `align`.
pub open spec fn dealloc_step(min_align: usize, ptr: usize, size: usize, align: usize) -> Step {
    Step::Forward(
        NativeCall::Sdallocx { ptr, size, flags: align_to_flags(min_align, align, size) },
    )
}

/// The first step of the query for the sizes that `layout` can be used for.
pub open spec fn usable_size_step(min_align: usize, layout: Layout) -> Step {
    Step::Call(
        NativeCall::Nallocx {
            size: layout.size,
            flags: align_to_flags(min_align, layout.align, layout.size),
        },
        Pending::Nearest { requested: layout.size },
    )
}

/// The first step of a reallocation of the region at `ptr` to `new_size`
/// bytes, at the alignment of `layout`.
pub open spec fn realloc_step(min_align: usize, ptr: usize, layout: Layout, new_size: usize) -> Step {
    Step::Forward(
        NativeCall::Rallocx {
            ptr,
            size: new_size,
            flags: align_to_flags(min_align, layout.align, new_size),
        },
    )
}

/// The first step of a zero-filled allocation of `size` bytes aligned to
/// `align`.
pub open spec fn alloc_zeroed_step(min_align: usize, size: usize, align: usize) -> Step {
    if default_suffices(min_align, align, size) {
        Step::Forward(NativeCall::Calloc { size, count: 1 })
    } else {
        Step::Forward(
            NativeCall::Mallocx { size, flags: zero_filled(align_to_flags(min_align, align, size)) },
        )
    }
}

/// The first step of an allocation that reports the usable size too.
pub open spec fn alloc_excess_step(min_align: usize, size: usize, align: usize) -> Step {
    Step::Call(
        NativeCall::Mallocx { size, flags: align_to_flags(min_align, align, size) },
        Pending::Placement { size, flags: align_to_flags(min_align, align, size) },
    )
}

/// The first step of a reallocation that reports the usable size too.
pub open spec fn realloc_excess_step(
    min_align: usize,
    ptr: usize,
    layout: Layout,
    new_size: usize,
) -> Step {
    Step::Call(
        NativeCall::Rallocx {
            ptr,
            size: new_size,
            flags: align_to_flags(min_align, layout.align, new_size),
        },
        Pending::Placement {
            size: new_size,
            flags: align_to_flags(min_align, layout.align, new_size),
        },
    )
}

/// The first step of a resize in place, be it to more or to fewer bytes: no
/// native call where the alignment would change, a resize without moving
/// otherwise.
pub open spec fn resize_in_place_step(
    min_align: usize,
    ptr: usize,
    old_align: usize,
    new_size: usize,
    new_align: usize,
) -> Step {
    if old_align == new_align {
        Step::Call(
            NativeCall::Xallocx {
                ptr,
                size: new_size,
                extra: 0,
                flags: align_to_flags(min_align, new_align, new_size),
            },
            Pending::Resize { new_size },
        )
    } else {
        Step::Done(Outcome::Resized(false))
    }
}

/// Continues an operation whose native call has answered `answer`.
///
/// The sizes that a layout can be used for are the size asked for and the
/// size that the allocator reported, or the size asked for twice where it
/// reported none. An allocation that reports its usable size asks for that
/// size once the address is known not to be null, and ends without it
/// otherwise. A resize in place has succeeded only if the region now has
/// exactly the size asked for.
pub fn resume(pending: Pending, answer: usize) -> (step: Step)
    ensures
        step == resumed(pending, answer),
{
    match pending {
        Pending::Nearest { requested } => {
            let max: usize = if answer > 0 {
                answer
            } else {
                requested
            };
            Step::Done(Outcome::Sizes { min: requested, max })
        },
        Pending::Placement { size, flags } => {
            if answer != 0 {
                Step::Call(NativeCall::Nallocx { size, flags }, Pending::Excess { ptr: answer })
            } else {
                Step::Done(Outcome::Allocated { ptr: 0, excess: None })
            }
        },
        Pending::Excess { ptr } => Step::Done(Outcome::Allocated { ptr, excess: Some(answer) }),
        Pending::Resize { new_size } => Step::Done(Outcome::Resized(answer == new_size)),
    }
}

/// Allocates `size` bytes aligned to `align`. The result is the address that
/// the allocator answers, null where it has no memory left.
pub fn pk_alloc(min_align: usize, size: usize, align: usize) -> (step: Step)
    ensures
        step == alloc_step(min_align, size, align),
        is_pow2(align as int) ==> step.places_at_multiples_of(min_align, align),
{
    proof {
        if is_pow2(align as int) {
            alloc_is_aligned(min_align, size, align);
        }
    }
    let flags = je_align_to_flags(min_align, align, size);
    Step::Forward(NativeCall::Mallocx { size, flags })
}

/// Releases the region at `ptr`, which was allocated with `size` and
/// `align`.
pub fn pk_dealloc(min_align: usize, ptr: usize, size: usize, align: usize) -> (step: Step)
    ensures
        step == dealloc_step(min_align, ptr, size, align),
{
    let flags = je_align_to_flags(min_align, align, size);
    Step::Forward(NativeCall::Sdallocx { ptr, size, flags })
}

/// Asks for the least and the greatest size that a region allocated with
/// `layout` can be used for.
pub fn pk_usable_size(min_align: usize, layout: &Layout) -> (step: Step)
    ensures
        step == usable_size_step(min_align, *layout),
        step.brackets(layout.size),
{
    let flags = je_align_to_flags(min_align, layout.align, layout.size);
    Step::Call(
        NativeCall::Nallocx { size: layout.size, flags },
        Pending::Nearest { requested: layout.size },
    )
}

/// Reallocates the region at `ptr` to `new_size` bytes, at the alignment of
/// `layout`. The result is the address that the allocator answers.
pub fn pk_realloc(min_align: usize, ptr: usize, layout: Layout, new_size: usize) -> (step: Step)
    ensures
        step == realloc_step(min_align, ptr, layout, new_size),
        layout.well_formed() ==> step.places_at_multiples_of(min_align, layout.align),
{
    proof {
        if layout.well_formed() {
            realloc_is_aligned(min_align, ptr, layout, new_size);
        }
    }
    let flags = je_align_to_flags(min_align, layout.align, new_size);
    Step::Forward(NativeCall::Rallocx { ptr, size: new_size, flags })
}

/// Allocates `size` zero-filled bytes aligned to `align`. The result is the
/// address that the allocator answers.
pub fn pk_alloc_zeroed(min_align: usize, size: usize, align: usize) -> (step: Step)
    ensures
        step == alloc_zeroed_step(min_align, size, align),
        step.asks_for_zeros(size),
        is_pow2(align as int) ==> step.places_at_multiples_of(min_align, align),
{
    proof {
        alloc_zeroed_asks_for_zeros(min_align, size, align);
        if is_pow2(align as int) {
            alloc_zeroed_is_aligned(min_align, size, align);
        }
    }
    if align <= min_align && align <= size {
        Step::Forward(NativeCall::Calloc { size, count: 1 })
    } else {
        let flags = je_align_to_flags(min_align, align, size) | MALLOCX_ZERO;
        Step::Forward(NativeCall::Mallocx { size, flags })
    }
}

/// Allocates `size` bytes aligned to `align`, and reports the size that the
/// region can really be used for.
pub fn pk_alloc_excess(min_align: usize, size: usize, align: usize) -> (step: Step)
    ensures
        step == alloc_excess_step(min_align, size, align),
        step.call() == alloc_step(min_align, size, align).call(),
        step.reports_usable_size(size, align_to_flags(min_align, align, size)),
        is_pow2(align as int) ==> step.places_at_multiples_of(min_align, align),
{
    proof {
        if is_pow2(align as int) {
            alloc_is_aligned(min_align, size, align);
        }
    }
    let flags = je_align_to_flags(min_align, align, size);
    Step::Call(NativeCall::Mallocx { size, flags }, Pending::Placement { size, flags })
}

/// Reallocates the region at `ptr` to `new_size` bytes, at the alignment of
/// `layout`, and reports the size that the region can really be used for.
pub fn pk_realloc_excess(
    min_align: usize,
    ptr: usize,
    layout: Layout,
    new_size: usize,
) -> (step: Step)
    ensures
        step == realloc_excess_step(min_align, ptr, layout, new_size),
        step.call() == realloc_step(min_align, ptr, layout, new_size).call(),
        step.reports_usable_size(new_size, align_to_flags(min_align, layout.align, new_size)),
        layout.well_formed() ==> step.places_at_multiples_of(min_align, layout.align),
{
    proof {
        if layout.well_formed() {
            realloc_is_aligned(min_align, ptr, layout, new_size);
        }
    }
    let new_align = layout.align;
    let flags = je_align_to_flags(min_align, new_align, new_size);
    Step::Call(
        NativeCall::Rallocx { ptr, size: new_size, flags },
        Pending::Placement { size: new_size, flags },
    )
}

/// Grows the region at `ptr` to `new_size` bytes without moving it.
pub fn pk_grow_in_place(
    min_align: usize,
    ptr: usize,
    old_size: usize,
    old_align: usize,
    new_size: usize,
    new_align: usize,
) -> (step: Step)
    ensures
        step == resize_in_place_step(min_align, ptr, old_align, new_size, new_align),
        old_align != new_align ==> step == Step::Done(Outcome::Resized(false)),
        old_align == new_align ==> step.resizes_to_exactly(ptr, new_size),
{
    pk_shrink_in_place(min_align, ptr, old_size, old_align, new_size, new_align)
}

/// Shrinks the region at `ptr` to `new_size` bytes without moving it.
pub fn pk_shrink_in_place(
    min_align: usize,
    ptr: usize,
    _old_size: usize,
    old_align: usize,
    new_size: usize,
    new_align: usize,
) -> (step: Step)
    ensures
        step == resize_in_place_step(min_align, ptr, old_align, new_size, new_align),
        old_align != new_align ==> step == Step::Done(Outcome::Resized(false)),
        old_align == new_align ==> step.resizes_to_exactly(ptr, new_size),
{
    if old_align == new_align {
        let flags = je_align_to_flags(min_align, new_align, new_size);
        Step::Call(
            NativeCall::Xallocx { ptr, size: new_size, extra: 0, flags },
            Pending::Resize { new_size },
        )
    } else {
        Step::Done(Outcome::Resized(false))
    }
}

/// Asks for the key of the active protection domain.
pub fn pk_vma_pkey() -> (step: Step)
    ensures
        step == Step::Forward(NativeCall::VmaPkey),
{
    Step::Forward(NativeCall::VmaPkey)
}

/// Asks whether `addr` lies in the region that the active protection domain
/// may access. An address for which the answer is no must be neither read
/// nor written nor released.
pub fn pk_is_safe_addr(addr: usize) -> (step: Step)
    ensures
        step == (Step::Forward(NativeCall::IsSafeAddress { addr })),
{
    Step::Forward(NativeCall::IsSafeAddress { addr })
}

/// Asks for the usable size of the region at `ptr`.
pub fn pk_malloc_usable_size(ptr: usize) -> (step: Step)
    ensures
        step == (Step::Forward(NativeCall::MallocUsableSize { ptr })),
{
    Step::Forward(NativeCall::MallocUsableSize { ptr })
}

} // verus!
