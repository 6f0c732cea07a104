//! What holds of the operations as a whole.
//!
//! The library makes no native call itself, so what it can promise of an
//! address or a size is a promise about the call it names: the laws on
//! addresses and sizes hold of every answer that an allocator true to its
//! own promises may give to that call.

use crate::facade::{
    alloc_excess_step, alloc_step, alloc_zeroed_step, dealloc_step, realloc_excess_step,
    realloc_step, resize_in_place_step, resumed, usable_size_step, Outcome, Pending, Step,
};
use crate::flags::{
    align_to_flags, default_suffices, lemma_flag_bits, lemma_mallocx_align_of_pow2, lg_align_of,
    zero_filled,
};
use crate::layout::Layout;
use crate::native::{flagged_aligned, NativeCall};
use libc::c_int;
use vstd::arithmetic::power2::{is_pow2, lemma2_to64, pow2};
use vstd::prelude::*;

verus! {

/// The flag word for an alignment that is a power of two is either empty or
/// the alignment's logarithm, which never reaches the zero-fill bit.
pub proof fn flags_carry_the_logarithm(min_align: usize, align: usize, size: usize)
    requires
        is_pow2(align as int),
    ensures
        0 <= align_to_flags(min_align, align, size) < usize::BITS,
        lg_align_of(align_to_flags(min_align, align, size)) == align_to_flags(
            min_align,
            align,
            size,
        ),
        default_suffices(min_align, align, size) ==> align_to_flags(min_align, align, size) == 0,
        !default_suffices(min_align, align, size) ==> pow2(
            align_to_flags(min_align, align, size) as nat,
        ) == align,
{
    lemma_mallocx_align_of_pow2(align);
    lemma_flag_bits(align_to_flags(min_align, align, size));
}

/// An address placed as the flag word for `align` asks, with or without the
/// zero-fill bit, is a multiple of `align`.
proof fn lemma_flags_place(min_align: usize, size: usize, align: usize, flags: c_int, ptr: usize)
    requires
        is_pow2(align as int),
        flags == align_to_flags(min_align, align, size) || flags == zero_filled(
            align_to_flags(min_align, align, size),
        ),
        flagged_aligned(min_align, size, flags, ptr),
    ensures
        ptr % align == 0,
{
    flags_carry_the_logarithm(min_align, align, size);
    lemma_flag_bits(align_to_flags(min_align, align, size));
    lemma2_to64();
}

/// The address of an allocation is null or a multiple of the alignment asked
/// for: for every size, every alignment that is a power of two, and every
/// address that an allocator true to its promise on alignment may answer.
/// This holds of the allocation that reports its usable size too.
pub proof fn alloc_is_aligned(min_align: usize, size: usize, align: usize)
    requires
        is_pow2(align as int),
    ensures
        alloc_step(min_align, size, align).places_at_multiples_of(min_align, align),
        alloc_excess_step(min_align, size, align).places_at_multiples_of(min_align, align),
{
    let call = alloc_step(min_align, size, align).call().unwrap();
    assert forall|ptr: usize| #[trigger] call.may_place_at(min_align, ptr) implies ptr == 0 || ptr
        % align == 0 by {
        if ptr != 0 {
            lemma_flags_place(min_align, size, align, align_to_flags(min_align, align, size), ptr);
        }
    }
}

/// The address of a zero-filled allocation is null or a multiple of the
/// alignment asked for, as that of a plain allocation is.
pub proof fn alloc_zeroed_is_aligned(min_align: usize, size: usize, align: usize)
    requires
        is_pow2(align as int),
    ensures
        alloc_zeroed_step(min_align, size, align).places_at_multiples_of(min_align, align),
{
    let call = alloc_zeroed_step(min_align, size, align).call().unwrap();
    assert forall|ptr: usize| #[trigger] call.may_place_at(min_align, ptr) implies ptr == 0 || ptr
        % align == 0 by {
        if ptr != 0 && !default_suffices(min_align, align, size) {
            lemma_flags_place(
                min_align,
                size,
                align,
                zero_filled(align_to_flags(min_align, align, size)),
                ptr,
            );
        }
    }
}

/// The address of a reallocated region is null or a multiple of the
/// alignment of the layout that the region had. This holds of the
/// reallocation that reports its usable size too.
pub proof fn realloc_is_aligned(min_align: usize, old: usize, layout: Layout, new_size: usize)
    requires
        layout.well_formed(),
    ensures
        realloc_step(min_align, old, layout, new_size).places_at_multiples_of(
            min_align,
            layout.align,
        ),
        realloc_excess_step(min_align, old, layout, new_size).places_at_multiples_of(
            min_align,
            layout.align,
        ),
{
    let call = realloc_step(min_align, old, layout, new_size).call().unwrap();
    assert forall|ptr: usize| #[trigger] call.may_place_at(min_align, ptr) implies ptr == 0 || ptr
        % layout.align == 0 by {
        if ptr != 0 {
            lemma_flags_place(
                min_align,
                new_size,
                layout.align,
                align_to_flags(min_align, layout.align, new_size),
                ptr,
            );
        }
    }
}

/// A zero-filled allocation names a call that asks the allocator for `size`
/// bytes, every one of them zero.
pub proof fn alloc_zeroed_asks_for_zeros(min_align: usize, size: usize, align: usize)
    ensures
        alloc_zeroed_step(min_align, size, align).asks_for_zeros(size),
{
    lemma_flag_bits(align_to_flags(min_align, align, size));
}

/// A release names the address it was given, and the size and the
/// alignment class that each allocation with the same size and alignment
/// named: the plain one, the one that reports its usable size, and the
/// zero-filled one. The flag word of the release is that of the plain
/// allocation.
pub proof fn dealloc_mirrors_alloc(min_align: usize, ptr: usize, size: usize, align: usize)
    ensures
        dealloc_step(min_align, ptr, size, align).call() == Some(
            NativeCall::Sdallocx { ptr, size, flags: align_to_flags(min_align, align, size) },
        ),
        alloc_step(min_align, size, align).call() == Some(
            NativeCall::Mallocx { size, flags: align_to_flags(min_align, align, size) },
        ),
        dealloc_step(min_align, ptr, size, align).call().unwrap().region() is Some,
        dealloc_step(min_align, ptr, size, align).call().unwrap().region() == alloc_step(
            min_align,
            size,
            align,
        ).call().unwrap().region(),
        dealloc_step(min_align, ptr, size, align).call().unwrap().region() == alloc_excess_step(
            min_align,
            size,
            align,
        ).call().unwrap().region(),
        dealloc_step(min_align, ptr, size, align).call().unwrap().region() == alloc_zeroed_step(
            min_align,
            size,
            align,
        ).call().unwrap().region(),
{
    lemma_flag_bits(0);
    lemma_flag_bits(align_to_flags(min_align, align, size));
    assert(size * 1 == size);
}

/// A release with the size and the alignment that a region was reallocated
/// to names the size and the alignment class that the reallocation named,
/// be it the plain one or the one that reports its usable size.
pub proof fn dealloc_mirrors_realloc(
    min_align: usize,
    old: usize,
    layout: Layout,
    new_size: usize,
    ptr: usize,
)
    ensures
        dealloc_step(min_align, ptr, new_size, layout.align).call() == Some(
            NativeCall::Sdallocx {
                ptr,
                size: new_size,
                flags: align_to_flags(min_align, layout.align, new_size),
            },
        ),
        realloc_step(min_align, old, layout, new_size).call() == Some(
            NativeCall::Rallocx {
                ptr: old,
                size: new_size,
                flags: align_to_flags(min_align, layout.align, new_size),
            },
        ),
        dealloc_step(min_align, ptr, new_size, layout.align).call().unwrap().region() is Some,
        dealloc_step(min_align, ptr, new_size, layout.align).call().unwrap().region()
            == realloc_step(min_align, old, layout, new_size).call().unwrap().region(),
        dealloc_step(min_align, ptr, new_size, layout.align).call().unwrap().region()
            == realloc_excess_step(min_align, old, layout, new_size).call().unwrap().region(),
{
}

/// The sizes that a layout can be used for: the query names the layout's
/// size and flag word; the least size is the layout's size, whatever the
/// allocator answers; the greatest size is the answer, or the layout's size
/// where the answer is 0; and so the greatest size is no less than the
/// layout's size, for every answer that an allocator true to its promise on
/// sizes may give. An answer between 0 and the layout's size, which no such
/// allocator gives, would be passed on as the greatest size.
pub proof fn usable_size_brackets_the_layout(min_align: usize, layout: Layout, answer: usize)
    ensures
        usable_size_step(min_align, layout).call() == Some(
            NativeCall::Nallocx {
                size: layout.size,
                flags: align_to_flags(min_align, layout.align, layout.size),
            },
        ),
        usable_size_step(min_align, layout).answered(answer) == Step::Done(
            Outcome::Sizes { min: layout.size, max: if answer == 0 { layout.size } else { answer } },
        ),
        usable_size_step(min_align, layout).brackets(layout.size),
{
}

/// A resize in place between two different alignments is refused, and no
/// native call is made for it.
pub proof fn resize_across_alignments_is_refused(
    min_align: usize,
    ptr: usize,
    old_align: usize,
    new_size: usize,
    new_align: usize,
)
    requires
        old_align != new_align,
    ensures
        resize_in_place_step(min_align, ptr, old_align, new_size, new_align) == Step::Done(
            Outcome::Resized(false),
        ),
        resize_in_place_step(min_align, ptr, old_align, new_size, new_align).call().is_none(),
{
}

/// A resize in place at one alignment asks the allocator to resize the
/// region without moving it, to `new_size` bytes and not one more, and has
/// succeeded exactly when the allocator answers that the region now has
/// `new_size` usable bytes.
pub proof fn resize_succeeds_on_the_exact_size(
    min_align: usize,
    ptr: usize,
    align: usize,
    new_size: usize,
    answer: usize,
)
    ensures
        resize_in_place_step(min_align, ptr, align, new_size, align).call() == Some(
            NativeCall::Xallocx {
                ptr,
                size: new_size,
                extra: 0,
                flags: align_to_flags(min_align, align, new_size),
            },
        ),
        resize_in_place_step(min_align, ptr, align, new_size, align).answered(answer)
            == Step::Done(Outcome::Resized(answer == new_size)),
        resize_in_place_step(min_align, ptr, align, new_size, align).resizes_to_exactly(
            ptr,
            new_size,
        ),
{
}

/// An allocation that reports its usable size names the call of the plain
/// allocation. When the allocator answers null, it ends with the null
/// address and no size, without a second native call. Otherwise it asks for
/// the usable size of a request with the size and the flag word of the
/// allocation, and ends with the address and the size that the allocator
/// answered.
pub proof fn alloc_excess_reports_what_was_allocated(
    min_align: usize,
    size: usize,
    align: usize,
    ptr: usize,
    answer: usize,
)
    ensures
        alloc_excess_step(min_align, size, align).call() == alloc_step(min_align, size, align).call(),
        alloc_excess_step(min_align, size, align).answered(0) == Step::Done(
            Outcome::Allocated { ptr: 0, excess: None },
        ),
        ptr != 0 ==> alloc_excess_step(min_align, size, align).answered(ptr).call() == Some(
            NativeCall::Nallocx { size, flags: align_to_flags(min_align, align, size) },
        ),
        ptr != 0 ==> alloc_excess_step(min_align, size, align).answered(ptr).answered(answer)
            == Step::Done(Outcome::Allocated { ptr, excess: Some(answer) }),
        alloc_excess_step(min_align, size, align).reports_usable_size(
            size,
            align_to_flags(min_align, align, size),
        ),
{
}

/// A reallocation that reports its usable size does as the allocation that
/// reports it, with the call, the size and the flag word of the plain
/// reallocation.
pub proof fn realloc_excess_reports_what_was_allocated(
    min_align: usize,
    old: usize,
    layout: Layout,
    new_size: usize,
    ptr: usize,
    answer: usize,
)
    ensures
        realloc_excess_step(min_align, old, layout, new_size).call() == realloc_step(
            min_align,
            old,
            layout,
            new_size,
        ).call(),
        realloc_excess_step(min_align, old, layout, new_size).answered(0) == Step::Done(
            Outcome::Allocated { ptr: 0, excess: None },
        ),
        ptr != 0 ==> realloc_excess_step(min_align, old, layout, new_size).answered(ptr).call()
            == Some(
            NativeCall::Nallocx {
                size: new_size,
                flags: align_to_flags(min_align, layout.align, new_size),
            },
        ),
        ptr != 0 ==> realloc_excess_step(min_align, old, layout, new_size).answered(ptr).answered(
            answer,
        ) == Step::Done(Outcome::Allocated { ptr, excess: Some(answer) }),
        realloc_excess_step(min_align, old, layout, new_size).reports_usable_size(
            new_size,
            align_to_flags(min_align, layout.align, new_size),
        ),
{
}

/// The query on the protection domain is left to the caller: no operation
/// on memory asks the protection-domain layer anything, at its first step
/// or at a later one; and whenever the library waits for an answer, the answer is a
/// machine word.
pub proof fn memory_operations_keep_to_the_allocator(
    min_align: usize,
    ptr: usize,
    layout: Layout,
    size: usize,
    align: usize,
    new_size: usize,
    new_align: usize,
    pending: Pending,
    answer: usize,
)
    ensures
        alloc_step(min_align, size, align).keeps_to_the_allocator(),
        dealloc_step(min_align, ptr, size, align).keeps_to_the_allocator(),
        usable_size_step(min_align, layout).keeps_to_the_allocator(),
        realloc_step(min_align, ptr, layout, new_size).keeps_to_the_allocator(),
        alloc_zeroed_step(min_align, size, align).keeps_to_the_allocator(),
        alloc_excess_step(min_align, size, align).keeps_to_the_allocator(),
        realloc_excess_step(min_align, ptr, layout, new_size).keeps_to_the_allocator(),
        resize_in_place_step(min_align, ptr, align, new_size, new_align).keeps_to_the_allocator(),
        resumed(pending, answer).keeps_to_the_allocator(),
{
}

/// Each answer brings an operation nearer to its end: the step that follows
/// an answer has fewer native calls ahead of it than the step before had.
pub proof fn resume_nears_the_end(call: NativeCall, pending: Pending, answer: usize)
    ensures
        resumed(pending, answer).calls_ahead() < Step::Call(call, pending).calls_ahead(),
{
}

} // verus!
