use pkalloc::libc_compat::{free, malloc, realloc};
use pkalloc::{
    pk_alloc, pk_alloc_excess, pk_alloc_zeroed, pk_dealloc, pk_grow_in_place, pk_is_safe_addr,
    pk_malloc_usable_size, pk_realloc, pk_realloc_excess, pk_shrink_in_place, pk_usable_size,
    pk_vma_pkey, resume, Layout, NativeCall, Outcome, Step,
};
use std::collections::BTreeMap;

/// A region that the stand-in allocator has handed out.
struct Region {
    bytes: Vec<u8>,
    usable: usize,
}

/// A stand-in for the native collaborators. It aligns an address to what
/// the call asks for and to nothing more, so that a flag word that asks for
/// too little shows.
struct StandIn {
    min_align: usize,
    room: usize,
    next: usize,
    key: usize,
    regions: BTreeMap<usize, Region>,
    calls: Vec<NativeCall>,
}

/// How an operation ended.
#[derive(Debug, PartialEq, Eq)]
enum Ended {
    With(Outcome),
    Answer(usize),
}

fn usable_for(size: usize) -> usize {
    if size <= 8 {
        8
    } else {
        (size + 15) / 16 * 16
    }
}

impl StandIn {
    fn new(min_align: usize) -> StandIn {
        StandIn {
            min_align,
            room: 1 << 30,
            next: 1 << 16,
            key: 7,
            regions: BTreeMap::new(),
            calls: Vec::new(),
        }
    }

    fn with_room(min_align: usize, room: usize) -> StandIn {
        let mut made = StandIn::new(min_align);
        made.room = room;
        made
    }

    fn in_use(&self) -> usize {
        self.regions.values().map(|r| r.usable).sum()
    }

    fn default_alignment(&self, size: usize) -> usize {
        let mut align: usize = 1;
        while align * 2 <= self.min_align && align * 2 <= size {
            align *= 2;
        }
        align
    }

    fn place(&mut self, size: usize, align: usize, fill: u8) -> usize {
        let usable = usable_for(size);
        if size > self.room || self.in_use() + usable > self.room {
            return 0;
        }
        let mut addr = (self.next + align - 1) / align * align;
        if addr % (align * 2) == 0 {
            addr += align;
        }
        self.next = addr + usable;
        self.regions.insert(addr, Region { bytes: vec![fill; usable], usable });
        addr
    }

    fn place_flagged(&mut self, size: usize, flags: i32) -> usize {
        let lg = flags & 0x3f;
        let align = if lg == 0 { self.default_alignment(size) } else { 1usize << lg };
        let fill = if flags & 0x40 != 0 { 0 } else { 0xa5 };
        self.place(size, align, fill)
    }

    fn release(&mut self, ptr: usize) {
        assert!(self.regions.remove(&ptr).is_some(), "release of an unknown region");
    }

    fn replace(&mut self, ptr: usize, new_ptr: usize, size: usize) -> usize {
        if new_ptr != 0 {
            let old = self.regions.remove(&ptr).expect("reallocation of an unknown region");
            let kept = old.bytes.len().min(size);
            let region = self.regions.get_mut(&new_ptr).expect("a region just placed");
            region.bytes[..kept].copy_from_slice(&old.bytes[..kept]);
        }
        new_ptr
    }

    fn perform(&mut self, call: NativeCall) -> usize {
        self.calls.push(call);
        match call {
            NativeCall::Malloc { size } => {
                let align = self.default_alignment(size);
                self.place(size, align, 0xa5)
            }
            NativeCall::Realloc { ptr, size } => {
                let align = self.default_alignment(size);
                let new_ptr = self.place(size, align, 0xa5);
                self.replace(ptr, new_ptr, size)
            }
            NativeCall::Free { ptr } => {
                self.release(ptr);
                0
            }
            NativeCall::Mallocx { size, flags } => self.place_flagged(size, flags),
            NativeCall::Calloc { size, count } => {
                let align = self.default_alignment(size * count);
                self.place(size * count, align, 0)
            }
            NativeCall::Rallocx { ptr, size, flags } => {
                let new_ptr = self.place_flagged(size, flags);
                self.replace(ptr, new_ptr, size)
            }
            NativeCall::Xallocx { ptr, size, extra: _, flags: _ } => {
                let region = self.regions.get_mut(&ptr).expect("resize of an unknown region");
                if usable_for(size) <= region.usable {
                    region.usable = usable_for(size);
                    region.bytes.truncate(region.usable);
                }
                region.usable
            }
            NativeCall::Sdallocx { ptr, size, flags: _ } => {
                let usable = self.regions.get(&ptr).expect("release of an unknown region").usable;
                assert!(size <= usable, "release with a size above the usable size");
                self.release(ptr);
                0
            }
            NativeCall::Nallocx { size, flags: _ } => {
                if size > self.room {
                    0
                } else {
                    usable_for(size)
                }
            }
            NativeCall::MallocUsableSize { ptr } => {
                self.regions.get(&ptr).expect("size of an unknown region").usable
            }
            NativeCall::VmaPkey => self.key,
            NativeCall::IsSafeAddress { addr } => {
                let inside =
                    self.regions.iter().any(|(start, r)| *start <= addr && addr < *start + r.usable);
                if inside {
                    1
                } else {
                    0
                }
            }
        }
    }

    fn serve(&mut self, first: Step) -> Ended {
        let mut step = first;
        loop {
            match step {
                Step::Done(outcome) => return Ended::With(outcome),
                Step::Forward(call) => return Ended::Answer(self.perform(call)),
                Step::Call(call, pending) => {
                    let answer = self.perform(call);
                    step = resume(pending, answer);
                }
            }
        }
    }

    fn address(&mut self, first: Step) -> usize {
        match self.serve(first) {
            Ended::Answer(ptr) => ptr,
            other => panic!("no address: {:?}", other),
        }
    }

    fn bytes(&self, ptr: usize) -> &Vec<u8> {
        &self.regions.get(&ptr).expect("a live region").bytes
    }

    fn write(&mut self, ptr: usize, at: usize, value: u8) {
        self.regions.get_mut(&ptr).expect("a live region").bytes[at] = value;
    }
}

#[test]
fn alloc_then_dealloc_of_sixty_four_bytes() {
    let mut heap = StandIn::new(16);
    let p = heap.address(pk_alloc(16, 64, 16));
    assert_ne!(p, 0);
    assert_eq!(p % 16, 0);
    assert_eq!(heap.serve(pk_dealloc(16, p, 64, 16)), Ended::Answer(0));
    assert!(heap.regions.is_empty());
}

#[test]
fn alloc_zeroed_hands_out_zero_bytes() {
    let mut heap = StandIn::new(16);
    let p = heap.address(pk_alloc_zeroed(16, 128, 8));
    assert_ne!(p, 0);
    assert!(heap.bytes(p)[0..128].iter().all(|b| *b == 0));
}

#[test]
fn alloc_zeroed_hands_out_zero_bytes_at_a_high_alignment() {
    let mut heap = StandIn::new(16);
    let p = heap.address(pk_alloc_zeroed(16, 128, 64));
    assert_ne!(p, 0);
    assert_eq!(p % 64, 0);
    assert!(heap.bytes(p)[0..128].iter().all(|b| *b == 0));
    let q = heap.address(pk_alloc_zeroed(16, 4, 8));
    assert_ne!(q, 0);
    assert_eq!(q % 8, 0);
    assert!(heap.bytes(q)[0..4].iter().all(|b| *b == 0));
}

#[test]
fn plain_alloc_is_not_zero_filled_by_the_stand_in() {
    let mut heap = StandIn::new(16);
    let p = heap.address(pk_alloc(16, 128, 64));
    assert!(heap.bytes(p)[0..128].iter().all(|b| *b == 0xa5));
}

#[test]
fn realloc_keeps_the_first_bytes() {
    let mut heap = StandIn::new(16);
    let p = heap.address(pk_alloc(16, 64, 8));
    assert_ne!(p, 0);
    let mut at: usize = 0;
    while at < 64 {
        heap.write(p, at, at as u8);
        at += 1;
    }
    let before: Vec<u8> = heap.bytes(p)[0..64].to_vec();
    let moved = heap.address(pk_realloc(16, p, Layout { size: 64, align: 8 }, 256));
    assert_ne!(moved, 0);
    assert_eq!(moved % 8, 0);
    assert_eq!(heap.bytes(moved)[0..64].to_vec(), before);
    assert!(heap.bytes(moved).len() >= 256);
}

#[test]
fn shrink_across_alignments_leaves_the_allocator_alone() {
    let mut heap = StandIn::new(16);
    let p = heap.address(pk_alloc(16, 256, 8));
    let calls_before = heap.calls.len();
    let usable_before = heap.regions.get(&p).map(|r| r.usable);
    assert_eq!(
        heap.serve(pk_shrink_in_place(16, p, 256, 8, 64, 16)),
        Ended::With(Outcome::Resized(false))
    );
    assert_eq!(heap.calls.len(), calls_before);
    assert_eq!(heap.regions.get(&p).map(|r| r.usable), usable_before);
}

#[test]
fn every_allocation_is_aligned_as_asked() {
    let min_aligns: Vec<usize> = vec![8, 16];
    for min_align in min_aligns {
        let mut heap = StandIn::new(min_align);
        let mut lg: u32 = 0;
        while lg <= 12 {
            let align: usize = 1 << lg;
            let sizes: Vec<usize> = vec![1, 2, 7, 8, 9, 16, 24, 64, 100, 4096, 5000];
            for size in sizes {
                let p = heap.address(pk_alloc(min_align, size, align));
                assert_ne!(p, 0);
                assert_eq!(p % align, 0, "alloc({}, {})", size, align);
                let z = heap.address(pk_alloc_zeroed(min_align, size, align));
                assert_ne!(z, 0);
                assert_eq!(z % align, 0, "alloc_zeroed({}, {})", size, align);
                assert!(heap.bytes(z)[0..size].iter().all(|b| *b == 0));
                let r = heap.address(pk_realloc(min_align, p, Layout { size, align }, size * 2));
                assert_ne!(r, 0);
                assert_eq!(r % align, 0, "realloc({}, {})", size, align);
                assert_eq!(heap.serve(pk_dealloc(min_align, r, size * 2, align)), Ended::Answer(0));
                assert_eq!(heap.serve(pk_dealloc(min_align, z, size, align)), Ended::Answer(0));
            }
            lg += 1;
        }
        assert!(heap.regions.is_empty());
    }
}

#[test]
fn dealloc_makes_room_for_the_same_alloc() {
    let mut heap = StandIn::with_room(16, 64);
    let p = heap.address(pk_alloc(16, 64, 16));
    assert_ne!(p, 0);
    assert_eq!(heap.address(pk_alloc(16, 64, 16)), 0);
    assert_eq!(heap.serve(pk_dealloc(16, p, 64, 16)), Ended::Answer(0));
    let again = heap.address(pk_alloc(16, 64, 16));
    assert_ne!(again, 0);
    assert_eq!(again % 16, 0);
}

#[test]
fn alloc_reports_exhaustion_as_null() {
    let mut heap = StandIn::with_room(16, 32);
    assert_eq!(heap.address(pk_alloc(16, 64, 16)), 0);
    assert_eq!(heap.address(pk_alloc_zeroed(16, 64, 16)), 0);
    assert_eq!(heap.address(pk_alloc_zeroed(16, 64, 32)), 0);
    assert_eq!(heap.calls.len(), 3);
}

#[test]
fn usable_size_brackets_the_size_asked_for() {
    let mut heap = StandIn::new(16);
    let sizes: Vec<usize> = vec![0, 1, 8, 9, 64, 100, 4096, 5000];
    let aligns: Vec<usize> = vec![1, 8, 16, 64];
    for size in sizes {
        for align in aligns.iter() {
            let layout = Layout { size, align: *align };
            match heap.serve(pk_usable_size(16, &layout)) {
                Ended::With(Outcome::Sizes { min, max }) => {
                    assert_eq!(min, size);
                    assert!(max >= size);
                    assert_eq!(max, usable_for(size));
                }
                other => panic!("no sizes: {:?}", other),
            }
        }
    }
}

#[test]
fn usable_size_falls_back_when_the_allocator_knows_none() {
    let mut heap = StandIn::with_room(16, 1024);
    let layout = Layout { size: 4096, align: 8 };
    assert_eq!(
        heap.serve(pk_usable_size(16, &layout)),
        Ended::With(Outcome::Sizes { min: 4096, max: 4096 })
    );
    assert_eq!(heap.calls, vec![NativeCall::Nallocx { size: 4096, flags: 0 }]);
}

#[test]
fn alloc_excess_reports_the_usable_size() {
    let mut heap = StandIn::new(16);
    match heap.serve(pk_alloc_excess(16, 100, 32)) {
        Ended::With(Outcome::Allocated { ptr, excess }) => {
            assert_ne!(ptr, 0);
            assert_eq!(ptr % 32, 0);
            assert_eq!(excess, Some(112));
        }
        other => panic!("no allocation: {:?}", other),
    }
    assert_eq!(
        heap.calls,
        vec![
            NativeCall::Mallocx { size: 100, flags: 5 },
            NativeCall::Nallocx { size: 100, flags: 5 }
        ]
    );
}

#[test]
fn alloc_excess_reports_no_size_on_exhaustion() {
    let mut heap = StandIn::with_room(16, 32);
    assert_eq!(
        heap.serve(pk_alloc_excess(16, 100, 32)),
        Ended::With(Outcome::Allocated { ptr: 0, excess: None })
    );
    assert_eq!(heap.calls, vec![NativeCall::Mallocx { size: 100, flags: 5 }]);
}

#[test]
fn realloc_excess_reports_the_usable_size() {
    let mut heap = StandIn::new(16);
    let p = heap.address(pk_alloc(16, 64, 8));
    heap.write(p, 0, 42);
    match heap.serve(pk_realloc_excess(16, p, Layout { size: 64, align: 8 }, 200)) {
        Ended::With(Outcome::Allocated { ptr, excess }) => {
            assert_ne!(ptr, 0);
            assert_eq!(ptr % 8, 0);
            assert_eq!(excess, Some(208));
            assert_eq!(heap.bytes(ptr)[0], 42);
        }
        other => panic!("no allocation: {:?}", other),
    }
}

#[test]
fn realloc_excess_reports_no_size_on_exhaustion() {
    let mut heap = StandIn::with_room(16, 128);
    let p = heap.address(pk_alloc(16, 64, 8));
    assert_ne!(p, 0);
    assert_eq!(
        heap.serve(pk_realloc_excess(16, p, Layout { size: 64, align: 8 }, 4096)),
        Ended::With(Outcome::Allocated { ptr: 0, excess: None })
    );
    assert_eq!(heap.bytes(p).len(), 64);
}

#[test]
fn shrink_in_place_succeeds_on_the_exact_size() {
    let mut heap = StandIn::new(16);
    let p = heap.address(pk_alloc(16, 256, 8));
    assert_eq!(
        heap.serve(pk_shrink_in_place(16, p, 256, 8, 64, 8)),
        Ended::With(Outcome::Resized(true))
    );
    assert_eq!(heap.regions.get(&p).map(|r| r.usable), Some(64));
}

#[test]
fn shrink_in_place_fails_on_another_usable_size() {
    let mut heap = StandIn::new(16);
    let p = heap.address(pk_alloc(16, 256, 8));
    assert_eq!(
        heap.serve(pk_shrink_in_place(16, p, 256, 8, 60, 8)),
        Ended::With(Outcome::Resized(false))
    );
    assert_eq!(heap.regions.get(&p).map(|r| r.usable), Some(64));
}

#[test]
fn grow_in_place_fails_where_the_region_cannot_grow() {
    let mut heap = StandIn::new(16);
    let p = heap.address(pk_alloc(16, 64, 8));
    assert_eq!(
        heap.serve(pk_grow_in_place(16, p, 64, 8, 256, 8)),
        Ended::With(Outcome::Resized(false))
    );
    assert_eq!(
        heap.calls.last(),
        Some(&NativeCall::Xallocx { ptr: p, size: 256, extra: 0, flags: 0 })
    );
}

#[test]
fn grow_in_place_succeeds_within_the_usable_size() {
    let mut heap = StandIn::new(16);
    let p = heap.address(pk_alloc(16, 256, 8));
    assert_eq!(
        heap.serve(pk_shrink_in_place(16, p, 256, 8, 128, 8)),
        Ended::With(Outcome::Resized(true))
    );
    assert_eq!(
        heap.serve(pk_grow_in_place(16, p, 128, 8, 128, 8)),
        Ended::With(Outcome::Resized(true))
    );
}

#[test]
fn protection_queries_are_answered_by_the_protection_layer() {
    let mut heap = StandIn::new(16);
    let p = heap.address(pk_alloc(16, 64, 16));
    assert_eq!(heap.serve(pk_vma_pkey()), Ended::Answer(7));
    assert_eq!(heap.serve(pk_is_safe_addr(p)), Ended::Answer(1));
    assert_eq!(heap.serve(pk_is_safe_addr(p + 63)), Ended::Answer(1));
    assert_eq!(heap.serve(pk_is_safe_addr(p + 64)), Ended::Answer(0));
    assert_eq!(heap.serve(pk_is_safe_addr(0)), Ended::Answer(0));
}

#[test]
fn no_allocator_operation_asks_the_protection_layer() {
    let mut heap = StandIn::new(16);
    let p = heap.address(pk_alloc(16, 64, 16));
    let z = heap.address(pk_alloc_zeroed(16, 64, 64));
    let r = heap.address(pk_realloc(16, p, Layout { size: 64, align: 16 }, 128));
    heap.serve(pk_usable_size(16, &Layout { size: 64, align: 16 }));
    heap.serve(pk_alloc_excess(16, 10, 2));
    heap.serve(pk_shrink_in_place(16, r, 128, 16, 64, 16));
    heap.serve(pk_dealloc(16, z, 64, 64));
    assert!(heap
        .calls
        .iter()
        .all(|c| !matches!(c, NativeCall::VmaPkey | NativeCall::IsSafeAddress { .. })));
}

#[test]
fn usable_size_of_a_live_region_is_passed_on() {
    let mut heap = StandIn::new(16);
    let p = heap.address(pk_alloc(16, 100, 16));
    assert_eq!(heap.serve(pk_malloc_usable_size(p)), Ended::Answer(112));
}

#[test]
fn plain_operations_are_served_without_flags() {
    let mut heap = StandIn::new(16);
    let p = heap.address(malloc(24));
    assert_ne!(p, 0);
    assert_eq!(p % 16, 0);
    heap.write(p, 3, 9);
    let q = heap.address(realloc(p, 200));
    assert_ne!(q, 0);
    assert_eq!(heap.bytes(q)[3], 9);
    assert_eq!(heap.serve(free(q)), Ended::Answer(0));
    assert!(heap.regions.is_empty());
    assert_eq!(
        heap.calls,
        vec![
            NativeCall::Malloc { size: 24 },
            NativeCall::Realloc { ptr: p, size: 200 },
            NativeCall::Free { ptr: q }
        ]
    );
}
