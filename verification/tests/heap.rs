use ax_os::allocator::{KernelHeapAllocator, HEAP_END_ADDR, HEAP_PAGES, HEAP_START_ADDR};

#[test]
fn heap_bounds() {
    assert_eq!(HEAP_START_ADDR, 0x4444_4400_0000);
    assert_eq!(HEAP_END_ADDR, HEAP_START_ADDR + 2 * 0x10_0000);
    assert_eq!(HEAP_PAGES * 4096, HEAP_END_ADDR - HEAP_START_ADDR);
    assert_eq!(KernelHeapAllocator::new().watermark(), HEAP_START_ADDR);
}

#[test]
fn allocations_follow_each_other() {
    let mut heap = KernelHeapAllocator::new();
    assert_eq!(heap.allocate(16, 1), Some(HEAP_START_ADDR));
    assert_eq!(heap.allocate(3, 1), Some(HEAP_START_ADDR + 16));
    assert_eq!(heap.allocate(0, 1), Some(HEAP_START_ADDR + 19));
    assert_eq!(heap.watermark(), HEAP_START_ADDR + 19);
}

#[test]
fn watermark_is_rounded_up() {
    let mut heap = KernelHeapAllocator::new();
    assert_eq!(heap.allocate(1, 1), Some(HEAP_START_ADDR));
    assert_eq!(heap.allocate(8, 8), Some(HEAP_START_ADDR + 8));
    assert_eq!(heap.watermark(), HEAP_START_ADDR + 16);
    assert_eq!(heap.allocate(1, 16), Some(HEAP_START_ADDR + 16));
    assert_eq!(heap.allocate(4, 4096), Some(HEAP_START_ADDR + 4096));
    assert_eq!(heap.watermark(), HEAP_START_ADDR + 4100);
    assert_eq!(heap.allocate(2, 2), Some(HEAP_START_ADDR + 4100));
    assert_eq!(heap.allocate(1, 3), Some(HEAP_START_ADDR + 4104));
}

#[test]
fn filling_the_heap_exactly() {
    let mut heap = KernelHeapAllocator::new();
    let mut at = HEAP_START_ADDR;
    for _ in 0..512 {
        assert_eq!(heap.allocate(4096, 1), Some(at));
        at += 4096;
    }
    assert_eq!(heap.watermark(), HEAP_END_ADDR);
    assert_eq!(heap.allocate(1, 1), None);
    assert_eq!(heap.watermark(), HEAP_END_ADDR);
    assert_eq!(heap.allocate(0, 1), Some(HEAP_END_ADDR));

    let mut heap = KernelHeapAllocator::new();
    assert_eq!(heap.allocate(2 * 0x10_0000, 4096), Some(HEAP_START_ADDR));
    assert_eq!(heap.allocate(1, 1), None);

    let mut heap = KernelHeapAllocator::new();
    assert_eq!(heap.allocate(2 * 0x10_0000 + 1, 1), None);
    assert_eq!(heap.watermark(), HEAP_START_ADDR);
}

#[test]
fn refused_request_leaves_the_watermark() {
    let mut heap = KernelHeapAllocator::new();
    assert_eq!(heap.allocate(2 * 0x10_0000 - 8, 1), Some(HEAP_START_ADDR));
    assert_eq!(heap.allocate(4, 16), None);
    assert_eq!(heap.watermark(), HEAP_END_ADDR - 8);
    assert_eq!(heap.allocate(9, 1), None);
    assert_eq!(heap.allocate(u64::MAX, 1), None);
    assert_eq!(heap.allocate(1, 1 << 63), None);
    assert_eq!(heap.watermark(), HEAP_END_ADDR - 8);
    assert_eq!(heap.allocate(8, 8), Some(HEAP_END_ADDR - 8));
    assert_eq!(heap.watermark(), HEAP_END_ADDR);
}

#[test]
fn nothing_is_reclaimed() {
    let mut heap = KernelHeapAllocator::new();
    let first = heap.allocate(64, 8).unwrap();
    heap.deallocate(first, 64, 8);
    assert_eq!(heap.watermark(), HEAP_START_ADDR + 64);
    assert_eq!(heap.allocate(64, 8), Some(HEAP_START_ADDR + 64));
}
