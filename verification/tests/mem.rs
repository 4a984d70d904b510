use ax_os::mem::frame_allocator::FrameAllocator;
use ax_os::mem::{PhysAddr, VirtAddr, PHYS_MEM_OFFSET};
use bootloader::bootinfo::{FrameRange, MemoryMap, MemoryRegion, MemoryRegionType};

fn leak(map: MemoryMap) -> &'static MemoryMap {
    Box::leak(Box::new(map))
}

fn region(start: u64, end: u64, region_type: MemoryRegionType) -> MemoryRegion {
    MemoryRegion { range: FrameRange::new(start, end), region_type }
}

#[test]
fn phys_addr_keeps_its_value() {
    for a in [0u64, 1, 0xb8000, 0x1234_5678_9abc, (1 << 54) - 1] {
        assert_eq!(PhysAddr::new(a).as_u64(), a);
        assert_eq!(PhysAddr::try_new(a).map(|p| p.as_u64()), Some(a));
    }
}

#[test]
fn phys_addr_refuses_high_bits() {
    for bit in 54..64 {
        assert!(PhysAddr::try_new(1u64 << bit).is_none());
        assert!(PhysAddr::try_new((1u64 << bit) | 0x1000).is_none());
    }
    assert!(PhysAddr::try_new(u64::MAX).is_none());
}

#[test]
fn phys_addr_to_virt() {
    assert_eq!(PHYS_MEM_OFFSET, 0x20000000000);
    assert_eq!(PhysAddr::new(0xb8000).to_virt().as_u64(), 0x20000000000 + 0xb8000);
    assert_eq!(PhysAddr::new(0).to_virt().as_u64(), 0x20000000000);
}

#[test]
fn virt_addr_keeps_its_value() {
    assert_eq!(VirtAddr::new(0xffff_8000_0000_1234).as_u64(), 0xffff_8000_0000_1234);
}

#[test]
fn page_alignment() {
    assert!(VirtAddr::new(0).is_page_aligned());
    assert!(VirtAddr::new(0x1000).is_page_aligned());
    assert!(!VirtAddr::new(0x1001).is_page_aligned());
    assert!(!VirtAddr::new(0x0800).is_page_aligned());
    assert!(VirtAddr::new(0x4444_4400_0000).is_page_aligned());
    assert!(PhysAddr::new(0x5000).is_page_aligned());
    assert!(!PhysAddr::new(0x5fff).is_page_aligned());
    assert!(!PhysAddr::new(0xb8001).is_page_aligned());
}

#[test]
fn two_frames_from_an_8k_region() {
    let mut map = MemoryMap::new();
    map.add_region(region(0x10_0000, 0x10_2000, MemoryRegionType::Usable));
    let mut frames = FrameAllocator::try_initialize(leak(map)).unwrap();
    assert_eq!(frames.allocated(), 0);
    assert_eq!(frames.allocate().map(|p| p.as_u64()), Some(0x10_0000));
    assert_eq!(frames.allocate().map(|p| p.as_u64()), Some(0x10_1000));
    assert!(frames.allocate().is_none());
    assert_eq!(frames.allocated(), 3);
    assert!(frames.allocate().is_none());
    assert_eq!(frames.allocated(), 4);
}

#[test]
fn k_frames_then_none() {
    for k in [1u64, 2, 5, 64] {
        let base = 0x40_0000u64;
        let mut map = MemoryMap::new();
        map.add_region(region(0, 0x1000, MemoryRegionType::FrameZero));
        map.add_region(region(base, base + k * 4096, MemoryRegionType::Usable));
        map.add_region(region(0x1000_0000, 0x1001_0000, MemoryRegionType::Reserved));
        let mut frames = FrameAllocator::initialize(leak(map));
        let mut last: Option<u64> = None;
        for i in 0..k {
            let frame = frames.allocate().expect("a frame is left").as_u64();
            assert_eq!(frame, base + i * 4096);
            assert_eq!(frame % 4096, 0);
            if let Some(before) = last {
                assert!(before < frame);
            }
            last = Some(frame);
        }
        assert!(frames.allocate().is_none());
    }
}

#[test]
fn only_usable_regions_give_frames() {
    let mut map = MemoryMap::new();
    map.add_region(region(0x1000, 0x3000, MemoryRegionType::Kernel));
    map.add_region(region(0x3000, 0x4000, MemoryRegionType::Usable));
    map.add_region(region(0x4000, 0x8000, MemoryRegionType::PageTable));
    map.add_region(region(0x8000, 0xa000, MemoryRegionType::Usable));
    map.add_region(region(0xa000, 0xb000, MemoryRegionType::InUse));
    map.add_region(region(0xb000, 0xc000, MemoryRegionType::Bootloader));
    let mut frames = FrameAllocator::try_initialize(leak(map)).unwrap();
    assert_eq!(frames.allocate().map(|p| p.as_u64()), Some(0x3000));
    assert_eq!(frames.allocate().map(|p| p.as_u64()), Some(0x8000));
    assert_eq!(frames.allocate().map(|p| p.as_u64()), Some(0x9000));
    assert!(frames.allocate().is_none());
}

#[test]
fn empty_map_gives_no_frame() {
    let mut frames = FrameAllocator::try_initialize(leak(MemoryMap::new())).unwrap();
    assert!(frames.allocate().is_none());
    assert_eq!(frames.allocated(), 1);
}

#[test]
fn free_keeps_nothing() {
    let mut map = MemoryMap::new();
    map.add_region(region(0x2000, 0x4000, MemoryRegionType::Usable));
    let mut frames = FrameAllocator::try_initialize(leak(map)).unwrap();
    let first = frames.allocate().unwrap();
    frames.free(first);
    assert_eq!(frames.allocated(), 1);
    assert_eq!(frames.allocate().map(|p| p.as_u64()), Some(0x3000));
    assert!(frames.allocate().is_none());
}

#[test]
fn regions_beyond_the_address_space_are_refused() {
    let mut map = MemoryMap::new();
    map.add_region(MemoryRegion {
        range: FrameRange { start_frame_number: 1, end_frame_number: (1 << 42) + 1 },
        region_type: MemoryRegionType::Usable,
    });
    assert!(FrameAllocator::try_initialize(leak(map)).is_none());

    let mut map = MemoryMap::new();
    map.add_region(MemoryRegion {
        range: FrameRange { start_frame_number: 1, end_frame_number: (1 << 42) + 1 },
        region_type: MemoryRegionType::Reserved,
    });
    assert!(FrameAllocator::try_initialize(leak(map)).is_some());
}

#[test]
fn frames_that_fit_entries() {
    let mut map = MemoryMap::new();
    map.add_region(MemoryRegion {
        range: FrameRange { start_frame_number: 1 << 40, end_frame_number: (1 << 40) + 2 },
        region_type: MemoryRegionType::Usable,
    });
    let mut frames = FrameAllocator::try_initialize(leak(map)).unwrap();
    assert!(!frames.check_fits_entries());
    assert_eq!(frames.allocate().map(|p| p.as_u64()), Some(1 << 52));

    let mut map = MemoryMap::new();
    map.add_region(MemoryRegion {
        range: FrameRange { start_frame_number: (1 << 40) - 1, end_frame_number: 1 << 40 },
        region_type: MemoryRegionType::Usable,
    });
    let mut frames = FrameAllocator::try_initialize(leak(map)).unwrap();
    assert!(frames.check_fits_entries());
    assert_eq!(frames.allocate().map(|p| p.as_u64()), Some((1 << 52) - 4096));
    assert!(frames.allocate().is_none());
}

#[test]
fn no_other_kind_gives_frames() {
    let kinds = [
        MemoryRegionType::InUse,
        MemoryRegionType::Reserved,
        MemoryRegionType::AcpiReclaimable,
        MemoryRegionType::AcpiNvs,
        MemoryRegionType::BadMemory,
        MemoryRegionType::Kernel,
        MemoryRegionType::KernelStack,
        MemoryRegionType::PageTable,
        MemoryRegionType::Bootloader,
        MemoryRegionType::FrameZero,
        MemoryRegionType::Empty,
        MemoryRegionType::BootInfo,
        MemoryRegionType::Package,
        MemoryRegionType::NonExhaustive,
    ];
    let mut map = MemoryMap::new();
    for (i, kind) in kinds.iter().enumerate() {
        let start = 0x10_0000 + (i as u64) * 0x2000;
        map.add_region(region(start, start + 0x2000, *kind));
    }
    map.add_region(region(0x80_0000, 0x80_1000, MemoryRegionType::Usable));
    let mut frames = FrameAllocator::try_initialize(leak(map)).unwrap();
    assert_eq!(frames.allocate().map(|p| p.as_u64()), Some(0x80_0000));
    assert!(frames.allocate().is_none());
}
