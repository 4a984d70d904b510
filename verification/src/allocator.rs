//! The kernel heap: a watermark that only moves up through a fixed range
//! of virtual addresses.

use vstd::prelude::*;
use crate::mem::{PhysAddr, VirtAddr};
use crate::mem::frame_allocator::FrameAllocator;
use crate::mem::paging::{MapError, Memory, TableStore, map_range, page_map_range, translate};
use crate::mem::paging_laws::{frames_free, lemma_range_mapped};

verus! {

/// First address of the heap.
pub const HEAP_START_ADDR: u64 = 0x4444_4400_0000;

/// First address after the heap, two megabytes above its start.
pub const HEAP_END_ADDR: u64 = 0x4444_4420_0000;

/// Number of pages that the heap spans.
pub const HEAP_PAGES: u64 = 512;

/// The least multiple of `align` that is not below `addr`.
pub open spec fn align_up(addr: int, align: int) -> int {
    if addr % align == 0 {
        addr
    } else {
        addr + (align - addr % align)
    }
}

/// The address that a request gets when the watermark stands at
/// `watermark`: the watermark rounded up to `align`, provided `size` bytes
/// from there on still end within the heap.
pub open spec fn grant(watermark: u64, size: u64, align: u64) -> Option<u64> {
    if align_up(watermark as int, align as int) + size <= HEAP_END_ADDR {
        Some(align_up(watermark as int, align as int) as u64)
    } else {
        None
    }
}

/// Where the watermark stands after that request: behind the bytes
/// granted, or where it stood if none were.
pub open spec fn watermark_after(watermark: u64, size: u64, align: u64) -> u64 {
    match grant(watermark, size, align) {
        Some(addr) => (addr + size) as u64,
        None => watermark,
    }
}

/// The heap allocator's state: the watermark, below which everything has
/// been handed out.
pub struct KernelHeapAllocator {
    ptr: u64,
}

impl View for KernelHeapAllocator {
    type V = u64;

    closed spec fn view(&self) -> u64 {
        self.ptr
    }
}

impl KernelHeapAllocator {
    #[verifier::type_invariant]
    spec fn inv(self) -> bool {
        HEAP_START_ADDR <= self.ptr <= HEAP_END_ADDR
    }

    /// An allocator that has handed out nothing: the watermark is at the
    /// start of the heap.
    pub fn new() -> (res: Self)
        ensures
            res@ == HEAP_START_ADDR,
    {
        Self { ptr: HEAP_START_ADDR }
    }

    /// The watermark.
    pub fn watermark(&self) -> (res: u64)
        ensures
            res == self@,
            HEAP_START_ADDR <= res <= HEAP_END_ADDR,
    {
        proof {
            use_type_invariant(self);
        }
        self.ptr
    }

    /// Hands out `size` bytes at an address that is a multiple of `align`,
    /// or `None` if they do not fit below the end of the heap; the
    /// watermark then stays where it is.
    pub fn allocate(&mut self, size: u64, align: u64) -> (res: Option<u64>)
        requires
            align > 0,
        ensures
            res == grant(old(self)@, size, align),
            final(self)@ == watermark_after(old(self)@, size, align),
    {
        proof {
            use_type_invariant(&*self);
        }
        let rest = self.ptr % align;
        let padding = if rest == 0 {
            0
        } else {
            align - rest
        };
        if padding > HEAP_END_ADDR - self.ptr {
            return None;
        }
        let start = self.ptr + padding;
        if size > HEAP_END_ADDR - start {
            return None;
        }
        self.ptr = start + size;
        Some(start)
    }

    /// Takes memory back. Nothing is reclaimed: the watermark stays.
    pub fn deallocate(&mut self, addr: u64, size: u64, align: u64)
        ensures
            final(self)@ == old(self)@,
    {
    }
}

/// The address granted is a multiple of the alignment asked for, and the
/// bytes granted lie between the old watermark and the end of the heap.
pub proof fn lemma_grant_aligned(watermark: u64, size: u64, align: u64)
    requires
        align > 0,
        grant(watermark, size, align) is Some,
    ensures
        grant(watermark, size, align)->0 % align == 0,
        watermark <= grant(watermark, size, align)->0,
        grant(watermark, size, align)->0 - watermark < align,
        grant(watermark, size, align)->0 + size <= HEAP_END_ADDR,
{
    let rest = watermark % align;
    if rest != 0 {
        let up = watermark + (align - rest);
        assert(up % (align as int) == 0) by (nonlinear_arith)
            requires
                rest == watermark % align,
                up == watermark + (align - rest),
                align > 0,
        ;
    }
}

/// Sum of the sizes of the requests.
pub open spec fn total_size(sizes: Seq<u64>) -> int
    decreases sizes.len(),
{
    if sizes.len() == 0 {
        0
    } else {
        total_size(sizes.drop_last()) + sizes.last()
    }
}

/// Where the watermark stands after the requests of these sizes, each
/// with alignment 1, if every one of them is granted.
pub open spec fn watermark_after_all(watermark: u64, sizes: Seq<u64>) -> Option<u64>
    decreases sizes.len(),
{
    if sizes.len() == 0 {
        Some(watermark)
    } else {
        match watermark_after_all(watermark, sizes.drop_last()) {
            Some(before) => if grant(before, sizes.last(), 1) is Some {
                Some(watermark_after(before, sizes.last(), 1))
            } else {
                None
            },
            None => None,
        }
    }
}

/// Requests without padding whose sizes add up to no more than is left
/// are all granted, and move the watermark up by their sum. When they
/// fill the heap exactly, a request for one more byte is refused.
pub proof fn lemma_fill_heap(watermark: u64, sizes: Seq<u64>)
    requires
        HEAP_START_ADDR <= watermark,
        watermark + total_size(sizes) <= HEAP_END_ADDR,
    ensures
        watermark_after_all(watermark, sizes) == Some((watermark + total_size(sizes)) as u64),
        watermark + total_size(sizes) == HEAP_END_ADDR ==> forall|size: u64, align: u64|
            size > 0 && align > 0 ==> #[trigger] grant(HEAP_END_ADDR, size, align) is None,
    decreases sizes.len(),
{
    if sizes.len() > 0 {
        lemma_total_size_nonnegative(sizes.drop_last());
        lemma_fill_heap(watermark, sizes.drop_last());
    }
    assert forall|size: u64, align: u64| size > 0 && align > 0 implies #[trigger] grant(
        HEAP_END_ADDR,
        size,
        align,
    ) is None by {
        assert(align_up(HEAP_END_ADDR as int, align as int) >= HEAP_END_ADDR);
    }
}

/// Sizes add up to nothing below zero.
proof fn lemma_total_size_nonnegative(sizes: Seq<u64>)
    ensures
        total_size(sizes) >= 0,
    decreases sizes.len(),
{
    if sizes.len() > 0 {
        lemma_total_size_nonnegative(sizes.drop_last());
    }
}

/// Maps every page of the heap, from its first up, so that no allocation
/// is ever answered with an address that is not mapped. Stops at the first
/// page that cannot be mapped.
///
/// Where the frames still to be handed out are free, they stay so, and
/// after a run without an error every address of the heap translates.
pub fn initialize(store: &mut TableStore, frames: &mut FrameAllocator, root: PhysAddr) -> (res:
    Result<(), MapError>)
    requires
        old(frames).fits_entries(),
        old(frames).cursor() + 4 * HEAP_PAGES <= usize::MAX,
    ensures
        final(frames).regions() == old(frames).regions(),
        ({
            let out = map_range(
                old(store)@,
                old(frames).frames(),
                old(frames).cursor(),
                root@,
                HEAP_START_ADDR,
                HEAP_PAGES as nat,
            );
            &&& final(store)@ == out.mem
            &&& final(frames).cursor() == out.cursor
            &&& match res {
                Ok(_) => out.error is None,
                Err(error) => out.error == Some(error),
            }
        }),
        frames_free(old(store)@, old(frames).frames(), old(frames).cursor(), root@) ==> ({
            &&& frames_free(final(store)@, final(frames).frames(), final(frames).cursor(), root@)
            &&& res is Ok ==> forall|addr: u64|
                HEAP_START_ADDR <= addr < HEAP_END_ADDR ==> (#[trigger] translate(
                    final(store)@,
                    root@,
                    addr,
                )) is Some
        }),
{
    page_map_range(store, frames, root, VirtAddr::new(HEAP_START_ADDR), HEAP_PAGES)
}

/// The address of page `index` of the heap, counted from 0.
pub fn heap_page(index: u64) -> (res: VirtAddr)
    requires
        index < HEAP_PAGES,
    ensures
        res@ == HEAP_START_ADDR + index * 4096,
{
    VirtAddr::new(HEAP_START_ADDR + index * 4096)
}

/// Once the heap has been mapped without an error, every address of the
/// heap translates, and so every address that the allocator can grant;
/// provided that the frames to be handed out were free when the mapping
/// began.
pub proof fn lemma_heap_mapped(
    mem: Memory,
    frames: Seq<u64>,
    cursor: nat,
    root: u64,
    addr: u64,
)
    requires
        frames_free(mem, frames, cursor, root),
        map_range(mem, frames, cursor, root, HEAP_START_ADDR, HEAP_PAGES as nat).error is None,
        HEAP_START_ADDR <= addr < HEAP_END_ADDR,
    ensures
        translate(
            map_range(mem, frames, cursor, root, HEAP_START_ADDR, HEAP_PAGES as nat).mem,
            root,
            addr,
        ) is Some,
{
    lemma_range_mapped(mem, frames, cursor, root, HEAP_START_ADDR, HEAP_PAGES as nat, addr);
}

} // verus!
