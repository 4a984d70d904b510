//! The physical frame allocator: hands out the frames of the usable
//! regions of the boot loader's memory map, one after the other, and never
//! takes one back.

use vstd::prelude::*;
use bootloader::bootinfo::{MemoryMap, MemoryRegion, MemoryRegionType};
use super::{PhysAddr, page_aligned};

verus! {

/// `bootloader::bootinfo::MemoryMap`, the boot loader's memory map.
/// Nothing inside it is visible here.
#[verifier::external_type_specification]
#[verifier::external_body]
pub struct ExMemoryMap(MemoryMap);

/// `bootloader::bootinfo::MemoryRegion`, one region as the memory map
/// stores it; the map dereferences to a slice of these. Nothing inside it
/// is visible here.
#[verifier::external_type_specification]
#[verifier::external_body]
pub struct ExMemoryRegion(MemoryRegion);

/// What a region of physical memory is used for.
#[derive(Clone, Copy, Debug, PartialEq, Eq, Structural)]
pub enum RegionKind {
    Usable,
    InUse,
    Reserved,
    AcpiReclaimable,
    AcpiNvs,
    BadMemory,
    Kernel,
    KernelStack,
    PageTable,
    Bootloader,
    FrameZero,
    Empty,
    BootInfo,
    Package,
    NonExhaustive,
}

/// One region of the memory map: the frames numbered from `start_frame`
/// up to, but not including, `end_frame`. A frame's address is its number
/// times 4096.
pub struct Region {
    pub start_frame: u64,
    pub end_frame: u64,
    pub kind: RegionKind,
}

/// The regions that a memory map holds, in the order of the slice that
/// the map dereferences to. What is known of it is what the three
/// functions below say.
pub uninterp spec fn memory_map_regions(map: MemoryMap) -> Seq<Region>;

/// Calls `len` on the slice that `MemoryMap` dereferences to. Taken on
/// trust: the result is the number of regions that the map holds.
#[verifier::external_body]
fn region_count(map: &MemoryMap) -> (count: usize)
    ensures
        count == memory_map_regions(*map).len(),
{
    map.len()
}

/// Reads the fields `start_frame_number` and `end_frame_number` of the
/// `range` of the `MemoryRegion` at `index` of that slice. Taken on trust:
/// they are the bounds of the region at `index`.
#[verifier::external_body]
fn region_range(map: &MemoryMap, index: usize) -> (range: (u64, u64))
    requires
        index < memory_map_regions(*map).len(),
    ensures
        range.0 == memory_map_regions(*map)[index as int].start_frame,
        range.1 == memory_map_regions(*map)[index as int].end_frame,
{
    let range = map[index].range;
    (range.start_frame_number, range.end_frame_number)
}

/// Reads the field `region_type` of the `MemoryRegion` at `index` of that
/// slice and names its variant. Taken on trust: it is the kind of the
/// region at `index`.
#[verifier::external_body]
fn region_kind(map: &MemoryMap, index: usize) -> (kind: RegionKind)
    requires
        index < memory_map_regions(*map).len(),
    ensures
        kind == memory_map_regions(*map)[index as int].kind,
{
    match map[index].region_type {
        MemoryRegionType::Usable => RegionKind::Usable,
        MemoryRegionType::InUse => RegionKind::InUse,
        MemoryRegionType::Reserved => RegionKind::Reserved,
        MemoryRegionType::AcpiReclaimable => RegionKind::AcpiReclaimable,
        MemoryRegionType::AcpiNvs => RegionKind::AcpiNvs,
        MemoryRegionType::BadMemory => RegionKind::BadMemory,
        MemoryRegionType::Kernel => RegionKind::Kernel,
        MemoryRegionType::KernelStack => RegionKind::KernelStack,
        MemoryRegionType::PageTable => RegionKind::PageTable,
        MemoryRegionType::Bootloader => RegionKind::Bootloader,
        MemoryRegionType::FrameZero => RegionKind::FrameZero, MemoryRegionType::Empty => RegionKind::Empty,
        MemoryRegionType::BootInfo => RegionKind::BootInfo, MemoryRegionType::Package => RegionKind::Package,
        MemoryRegionType::NonExhaustive => RegionKind::NonExhaustive,
    }
}

/// Largest frame number whose frame still has a physical address:
/// 2^54 / 4096.
pub const MAX_FRAME_NUMBER: u64 = 0x400_0000_0000;

/// Largest frame number whose frame still fits a page-table entry:
/// 2^52 / 4096.
pub const MAX_ENTRY_FRAME_NUMBER: u64 = 0x100_0000_0000;

/// The frame addresses of one region, ascending: none unless the region is
/// usable.
pub open spec fn frames_in(region: Region) -> Seq<u64> {
    if region.kind == RegionKind::Usable && region.start_frame < region.end_frame {
        Seq::new(
            (region.end_frame - region.start_frame) as nat,
            |k: int| ((region.start_frame + k) * 4096) as u64,
        )
    } else {
        Seq::empty()
    }
}

/// The frame addresses of all usable regions, region after region in the
/// order of the map.
pub open spec fn usable_frames(regions: Seq<Region>) -> Seq<u64>
    decreases regions.len(),
{
    if regions.len() == 0 {
        Seq::empty()
    } else {
        usable_frames(regions.drop_last()) + frames_in(regions.last())
    }
}

/// Whether every usable region starts and ends at a frame number of at
/// most `limit`.
pub open spec fn regions_within(regions: Seq<Region>, limit: u64) -> bool {
    forall|i: int|
        0 <= i < regions.len() && (#[trigger] regions[i]).kind == RegionKind::Usable
            ==> regions[i].start_frame <= limit && regions[i].end_frame <= limit
}

/// Tests `regions_within` on a memory map.
pub fn check_regions_within(map: &MemoryMap, limit: u64) -> (res: bool)
    ensures
        res == regions_within(memory_map_regions(*map), limit),
{
    let count = region_count(map);
    let mut index: usize = 0;
    while index < count
        invariant
            index <= count,
            count == memory_map_regions(*map).len(),
            regions_within(memory_map_regions(*map).take(index as int), limit),
        decreases count - index,
    {
        let kind = region_kind(map, index);
        let range = region_range(map, index);
        if kind == RegionKind::Usable && (range.0 > limit || range.1 > limit) {
            return false;
        }
        index += 1;
    }
    assert(memory_map_regions(*map).take(index as int) =~= memory_map_regions(*map));
    true
}

/// Every prefix of the regions contributes a prefix of the frames.
pub proof fn lemma_frames_prefix(regions: Seq<Region>, count: int)
    requires
        0 <= count <= regions.len(),
    ensures
        usable_frames(regions.take(count)).len() <= usable_frames(regions).len(),
        forall|k: int|
            0 <= k < usable_frames(regions.take(count)).len() ==> usable_frames(
                regions.take(count),
            )[k] == #[trigger] usable_frames(regions)[k],
    decreases regions.len() - count,
{
    if count == regions.len() {
        assert(regions.take(count) =~= regions);
    } else {
        lemma_frames_prefix(regions, count + 1);
        lemma_frames_step(regions, count);
    }
}

/// One more region appends its own frames to those of the regions before
/// it.
pub proof fn lemma_frames_step(regions: Seq<Region>, index: int)
    requires
        0 <= index < regions.len(),
    ensures
        usable_frames(regions.take(index + 1)) == usable_frames(regions.take(index)) + frames_in(
            regions[index],
        ),
{
    assert(regions.take(index + 1).drop_last() =~= regions.take(index));
}

/// Regions of which none is usable contribute no frame.
pub proof fn lemma_no_usable_region(regions: Seq<Region>)
    requires
        forall|i: int| 0 <= i < regions.len() ==> (#[trigger] regions[i]).kind != RegionKind::Usable,
    ensures
        usable_frames(regions) == Seq::<u64>::empty(),
    decreases regions.len(),
{
    if regions.len() > 0 {
        lemma_no_usable_region(regions.drop_last());
    }
}

/// Where the region at `index` is the only usable one and holds `k`
/// frames, the allocator hands out exactly `k` frames: the region's own,
/// from its first on, each 4096 above the one before, so that they ascend
/// strictly and no two are equal.
pub proof fn lemma_single_usable_region(regions: Seq<Region>, index: int)
    requires
        0 <= index < regions.len(),
        regions[index].kind == RegionKind::Usable,
        regions[index].start_frame <= regions[index].end_frame <= MAX_FRAME_NUMBER,
        forall|i: int|
            0 <= i < regions.len() && i != index ==> (#[trigger] regions[i]).kind
                != RegionKind::Usable,
    ensures
        usable_frames(regions).len() == regions[index].end_frame - regions[index].start_frame,
        forall|k: int|
            0 <= k < usable_frames(regions).len() ==> #[trigger] usable_frames(regions)[k] == (
            regions[index].start_frame + k) * 4096,
        forall|i: int, j: int|
            0 <= i < j < usable_frames(regions).len() ==> usable_frames(regions)[i]
                < usable_frames(regions)[j],
{
    lemma_no_usable_region(regions.take(index));
    lemma_frames_step(regions, index);
    assert(usable_frames(regions.take(index + 1)) =~= frames_in(regions[index]));
    lemma_only_unusable_after(regions, index + 1, regions.len() as int);
    assert(regions.take(regions.len() as int) =~= regions);
}

/// Regions that are not usable add nothing to the frames found before
/// them.
proof fn lemma_only_unusable_after(regions: Seq<Region>, from: int, to: int)
    requires
        0 <= from <= to <= regions.len(),
        forall|i: int| from <= i < to ==> (#[trigger] regions[i]).kind != RegionKind::Usable,
    ensures
        usable_frames(regions.take(to)) == usable_frames(regions.take(from)),
    decreases to - from,
{
    if from < to {
        lemma_only_unusable_after(regions, from, to - 1);
        lemma_frames_step(regions, to - 1);
        assert(usable_frames(regions.take(to)) =~= usable_frames(regions.take(to - 1)));
    }
}

/// Every frame of usable regions that end at or below `limit` is page
/// aligned and lies below `limit` times 4096.
pub proof fn lemma_frame_bounds(regions: Seq<Region>, limit: u64, k: int)
    requires
        regions_within(regions, limit),
        limit <= MAX_FRAME_NUMBER,
        0 <= k < usable_frames(regions).len(),
    ensures
        usable_frames(regions)[k] % 4096 == 0,
        usable_frames(regions)[k] < limit * 4096,
    decreases regions.len(),
{
    let before = usable_frames(regions.drop_last());
    if k < before.len() {
        assert forall|i: int|
            0 <= i < regions.drop_last().len() && (#[trigger] regions.drop_last()[i]).kind
                == RegionKind::Usable implies regions.drop_last()[i].start_frame <= limit
            && regions.drop_last()[i].end_frame <= limit by {
            assert(regions.drop_last()[i] == regions[i]);
        }
        lemma_frame_bounds(regions.drop_last(), limit, k);
    } else {
        let region = regions.last();
        assert(region == regions[regions.len() - 1]);
        assert(usable_frames(regions)[k] == frames_in(region)[k - before.len()]);
    }
}

/// Whether the usable regions come in ascending order and do not overlap:
/// each ends where a later one starts, or before.
pub open spec fn regions_ascending(regions: Seq<Region>) -> bool {
    forall|i: int, j: int|
        0 <= i < j < regions.len() && (#[trigger] regions[i]).kind == RegionKind::Usable && (
        #[trigger] regions[j]).kind == RegionKind::Usable ==> regions[i].end_frame
            <= regions[j].start_frame
}

/// Every frame of usable regions that end at or below `limit` lies below
/// `limit` times 4096.
proof fn lemma_frames_below(regions: Seq<Region>, limit: u64, k: int)
    requires
        forall|i: int|
            0 <= i < regions.len() && (#[trigger] regions[i]).kind == RegionKind::Usable
                ==> regions[i].end_frame <= limit,
        limit <= MAX_FRAME_NUMBER,
        0 <= k < usable_frames(regions).len(),
    ensures
        usable_frames(regions)[k] < limit * 4096,
    decreases regions.len(),
{
    let before = usable_frames(regions.drop_last());
    if k < before.len() {
        assert forall|i: int|
            0 <= i < regions.drop_last().len() && (#[trigger] regions.drop_last()[i]).kind
                == RegionKind::Usable implies regions.drop_last()[i].end_frame <= limit by {
            assert(regions.drop_last()[i] == regions[i]);
        }
        lemma_frames_below(regions.drop_last(), limit, k);
    } else {
        let region = regions.last();
        assert(region == regions[regions.len() - 1]);
        assert(usable_frames(regions)[k] == frames_in(region)[k - before.len()]);
    }
}

/// Where the usable regions ascend without overlapping, the allocator
/// hands out frames in strictly ascending order, and so no frame twice.
pub proof fn lemma_frames_ascending(regions: Seq<Region>)
    requires
        regions_within(regions, MAX_FRAME_NUMBER),
        regions_ascending(regions),
    ensures
        forall|i: int, j: int|
            0 <= i < j < usable_frames(regions).len() ==> usable_frames(regions)[i]
                < usable_frames(regions)[j],
    decreases regions.len(),
{
    if regions.len() > 0 {
        let front = regions.drop_last();
        let last = regions.last();
        assert(last == regions[regions.len() - 1]);
        assert forall|i: int| 0 <= i < front.len() implies #[trigger] front[i] == regions[i] by {}
        lemma_frames_ascending(front);
        let before = usable_frames(front);
        assert forall|i: int, j: int| 0 <= i < j < usable_frames(regions).len() implies usable_frames(
            regions,
        )[i] < usable_frames(regions)[j] by {
            if j >= before.len() {
                assert(usable_frames(regions)[j] == frames_in(last)[j - before.len()]);
                if i < before.len() {
                    assert forall|r: int|
                        0 <= r < front.len() && (#[trigger] front[r]).kind
                            == RegionKind::Usable implies front[r].end_frame
                        <= last.start_frame by {
                        assert(front[r] == regions[r]);
                    }
                    lemma_frames_below(front, last.start_frame, i);
                } else {
                    assert(usable_frames(regions)[i] == frames_in(last)[i - before.len()]);
                }
            }
        }
    }
}

/// The allocator's state: the memory map it draws from and the number of
/// calls of `allocate` so far.
pub struct FrameAllocator {
    memory_map: &'static MemoryMap,
    current_index: usize,
}

impl FrameAllocator {
    #[verifier::type_invariant]
    spec fn inv(self) -> bool {
        regions_within(memory_map_regions(*self.memory_map), MAX_FRAME_NUMBER)
    }

    /// The regions of the memory map.
    pub closed spec fn regions(&self) -> Seq<Region> {
        memory_map_regions(*self.memory_map)
    }

    /// How many times `allocate` has been called.
    pub closed spec fn cursor(&self) -> nat {
        self.current_index as nat
    }

    /// All frames that this allocator hands out over its life, in order.
    pub open spec fn frames(&self) -> Seq<u64> {
        usable_frames(self.regions())
    }

    /// Whether every frame that can be handed out fits a page-table entry.
    pub open spec fn fits_entries(&self) -> bool {
        regions_within(self.regions(), MAX_ENTRY_FRAME_NUMBER)
    }

    /// An allocator over `memory_map` that has handed out nothing yet. The
    /// usable regions must lie within the physical address space.
    pub fn initialize(memory_map: &'static MemoryMap) -> (res: Self)
        requires
            regions_within(memory_map_regions(*memory_map), MAX_FRAME_NUMBER),
        ensures
            res.regions() == memory_map_regions(*memory_map),
            res.cursor() == 0,
    {
        Self { memory_map, current_index: 0 }
    }

    /// As `initialize`, after testing the memory map: `None` if a usable
    /// region reaches beyond the physical address space.
    pub fn try_initialize(memory_map: &'static MemoryMap) -> (res: Option<Self>)
        ensures
            res is Some <==> regions_within(memory_map_regions(*memory_map), MAX_FRAME_NUMBER),
            res is Some ==> res->0.regions() == memory_map_regions(*memory_map) && res->0.cursor()
                == 0,
    {
        if check_regions_within(memory_map, MAX_FRAME_NUMBER) {
            Some(Self::initialize(memory_map))
        } else {
            None
        }
    }

    /// Tests `fits_entries`.
    pub fn check_fits_entries(&self) -> (res: bool)
        ensures
            res == self.fits_entries(),
    {
        check_regions_within(self.memory_map, MAX_ENTRY_FRAME_NUMBER)
    }

    /// How many times `allocate` has been called.
    pub fn allocated(&self) -> (res: usize)
        ensures
            res == self.cursor(),
    {
        self.current_index
    }

    /// Hands out the next frame, or `None` once all are gone. The call is
    /// counted either way.
    pub fn allocate(&mut self) -> (res: Option<PhysAddr>)
        requires
            old(self).cursor() < usize::MAX,
        ensures
            final(self).regions() == old(self).regions(),
            final(self).cursor() == old(self).cursor() + 1,
            old(self).cursor() < old(self).frames().len() ==> res is Some && res->0@ == old(
                self,
            ).frames()[old(self).cursor() as int],
            old(self).cursor() >= old(self).frames().len() ==> res is None,
            res is Some ==> page_aligned(res->0@),
    {
        proof {
            use_type_invariant(&*self);
        }
        let ghost regions = self.regions();
        let count = region_count(self.memory_map);
        let mut remaining: usize = self.current_index;
        let mut found: Option<PhysAddr> = None;
        let mut index: usize = 0;
        while index < count && found.is_none()
            invariant
                index <= count,
                count == regions.len(),
                regions == memory_map_regions(*self.memory_map),
                regions_within(regions, MAX_FRAME_NUMBER),
                self.current_index == old(self).current_index,
                found is None ==> remaining + usable_frames(regions.take(index as int)).len()
                    == self.current_index,
                found is Some ==> self.current_index < usable_frames(regions).len() && found->0@
                    == usable_frames(regions)[self.current_index as int],
            decreases count - index, (if found is None { 1int } else { 0int }),
        {
            let kind = region_kind(self.memory_map, index);
            let range = region_range(self.memory_map, index);
            proof {
                lemma_frames_step(regions, index as int);
                lemma_frames_prefix(regions, index as int + 1);
            }
            if kind == RegionKind::Usable && range.0 < range.1 {
                let size: u64 = range.1 - range.0;
                if (remaining as u64) < size {
                    let frame: u64 = range.0 + remaining as u64;
                    let addr = PhysAddr::new(frame * 4096);
                    proof {
                        let before = usable_frames(regions.take(index as int));
                        let upto = usable_frames(regions.take(index as int + 1));
                        assert(upto[self.current_index as int] == frames_in(
                            regions[index as int],
                        )[remaining as int]);
                        assert(upto[self.current_index as int] == usable_frames(
                            regions,
                        )[self.current_index as int]);
                    }
                    found = Some(addr);
                } else {
                    remaining = remaining - size as usize;
                    index += 1;
                }
            } else {
                index += 1;
            }
        }
        proof {
            if found is None {
                assert(regions.take(index as int) =~= regions);
            }
        }
        proof {
            if found is Some {
                lemma_frame_bounds(regions, MAX_FRAME_NUMBER, self.current_index as int);
            }
        }
        self.current_index += 1;
        found
    }

    /// Takes a frame back. Nothing is recorded: a frame once handed out is
    /// never handed out again.
    pub fn free(&mut self, frame: PhysAddr)
        requires
            page_aligned(frame@),
        ensures
            final(self).regions() == old(self).regions(),
            final(self).cursor() == old(self).cursor(),
    {
    }
}

} // verus!
