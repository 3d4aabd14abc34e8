use emurs_kernel::error::EmuRsAllocatorFault;
use emurs_kernel::mem::{
    EmuRsAllocator, EmuRsMemoryKind, EmuRsMemoryLayout, EmuRsMemoryPermission, EmuRsMemoryRange,
    EmuRsMemoryTableEntry,
};

fn work_entry(first: usize, last: usize) -> EmuRsMemoryTableEntry {
    EmuRsMemoryTableEntry {
        permissions: EmuRsMemoryPermission { read: true, write: true, execute: false },
        range: EmuRsMemoryRange::new(first, last),
        kind: EmuRsMemoryKind::Work,
    }
}

#[test]
fn test_no_slab_identity() {
    let mut allocator = EmuRsAllocator::new(16);
    allocator.add_memory_table_entries(&[work_entry(0, 99), work_entry(200, 299)]);
    let free = allocator.get_free_memory_ranges(4);
    assert_eq!(free, vec![EmuRsMemoryRange::new(0, 99), EmuRsMemoryRange::new(200, 299)]);
}

#[test]
fn test_full_coverage_removes_candidate() {
    let mut allocator = EmuRsAllocator::new(16);
    allocator.add_memory_table_entries(&[work_entry(0, 9)]);
    let addr = allocator.allocate(EmuRsMemoryLayout::new(10, 1)).unwrap();
    assert_eq!(addr, 0);
    assert_eq!(allocator.get_free_memory_ranges(1), vec![]);
}

#[test]
fn test_split_on_middle_overlap() {
    let mut allocator = EmuRsAllocator::new(16);
    allocator.add_memory_table_entries(&[work_entry(0, 999)]);
    let first = allocator.allocate(EmuRsMemoryLayout::new(100, 1)).unwrap();
    let second = allocator.allocate(EmuRsMemoryLayout::new(100, 1)).unwrap();
    assert_eq!(first, 0);
    assert_eq!(second, 100);
    allocator.dealloc(first).unwrap();

    // The remaining slab [100, 199] sits strictly inside [0, 999]: exactly
    // one head and one tail candidate survive, their cut edges rounded to
    // the requested alignment of 8.
    let free = allocator.get_free_memory_ranges(8);
    assert_eq!(free, vec![EmuRsMemoryRange::new(0, 96), EmuRsMemoryRange::new(200, 999)]);
}

#[test]
fn test_alloc_dealloc_round_trip() {
    let mut allocator = EmuRsAllocator::new(16);
    allocator.add_memory_table_entries(&[work_entry(0, 999)]);
    let before = allocator.get_free_memory_ranges(1);

    let a = allocator.allocate(EmuRsMemoryLayout::new(100, 1)).unwrap();
    let b = allocator.allocate(EmuRsMemoryLayout::new(50, 1)).unwrap();
    let c = allocator.allocate(EmuRsMemoryLayout::new(25, 1)).unwrap();
    assert_eq!((a, b, c), (0, 100, 150));

    // Free in a different order than the blocks were handed out.
    allocator.dealloc(b).unwrap();
    allocator.dealloc(a).unwrap();
    allocator.dealloc(c).unwrap();

    assert_eq!(allocator.get_free_memory_ranges(1), before);
}

#[test]
fn test_oom_is_clean() {
    let mut allocator = EmuRsAllocator::new(16);
    allocator.add_memory_table_entries(&[work_entry(0, 9)]);
    let before = allocator.get_free_memory_ranges(1);

    let fault = allocator.allocate(EmuRsMemoryLayout::new(100, 1)).unwrap_err();
    assert_eq!(fault, EmuRsAllocatorFault::OutOfMemory);
    assert_eq!(allocator.get_free_memory_ranges(1), before);
}

#[test]
fn test_uninitialized_alloc_faults() {
    let mut allocator = EmuRsAllocator::new(16);
    let fault = allocator.allocate(EmuRsMemoryLayout::new(1, 1)).unwrap_err();
    assert_eq!(fault, EmuRsAllocatorFault::Uninitialized);
}

#[test]
fn test_slab_capacity_exceeded() {
    let mut allocator = EmuRsAllocator::new(1);
    allocator.add_memory_table_entries(&[work_entry(0, 999)]);
    allocator.allocate(EmuRsMemoryLayout::new(10, 1)).unwrap();
    let fault = allocator.allocate(EmuRsMemoryLayout::new(10, 1)).unwrap_err();
    assert_eq!(fault, EmuRsAllocatorFault::SlabCapacityExceeded);
}

#[test]
fn test_invalid_free_faults() {
    let mut allocator = EmuRsAllocator::new(16);
    allocator.add_memory_table_entries(&[work_entry(0, 999)]);
    let fault = allocator.dealloc(5).unwrap_err();
    assert_eq!(fault, EmuRsAllocatorFault::InvalidFree);

    // A double free is an invalid free as well.
    let addr = allocator.allocate(EmuRsMemoryLayout::new(10, 1)).unwrap();
    allocator.dealloc(addr).unwrap();
    let fault = allocator.dealloc(addr).unwrap_err();
    assert_eq!(fault, EmuRsAllocatorFault::InvalidFree);
}

#[test]
fn test_worked_scenario() {
    let mut allocator = EmuRsAllocator::new(16);
    allocator.add_memory_table_entries(&[work_entry(0, 999)]);

    // First allocation carves [0, 99] off the front.
    let first = allocator.allocate(EmuRsMemoryLayout::new(100, 1)).unwrap();
    assert_eq!(first, 0);

    // Queried at alignment 8, the free tail is trimmed to start at 104.
    assert_eq!(allocator.get_free_memory_ranges(8), vec![EmuRsMemoryRange::new(104, 999)]);

    // So the next 8-aligned allocation of 100 bytes covers [104, 203].
    let second = allocator.allocate(EmuRsMemoryLayout::new(100, 8)).unwrap();
    assert_eq!(second, 104);
    let block = allocator.get_free_memory_block(EmuRsMemoryLayout::new(100, 8));
    assert_eq!(block, Some(EmuRsMemoryRange::new(208, 307)));

    // Freeing the first slab restores [0, 103], adjacent to but not merged
    // with the space behind the remaining slab: no coalescing happens.
    allocator.dealloc(first).unwrap();
    assert_eq!(
        allocator.get_free_memory_ranges(1),
        vec![EmuRsMemoryRange::new(0, 103), EmuRsMemoryRange::new(204, 999)],
    );
}

#[test]
fn test_get_free_memory_block_first_fit() {
    let mut allocator = EmuRsAllocator::new(16);
    allocator.add_memory_table_entries(&[work_entry(0, 9), work_entry(100, 999)]);

    // The first entry is too small for 50 bytes: first-fit skips it and
    // truncates the second entry's range to the requested size.
    let block = allocator.get_free_memory_block(EmuRsMemoryLayout::new(50, 1));
    assert_eq!(block, Some(EmuRsMemoryRange::new(100, 149)));

    // A fit query changes nothing until the block is actually allocated.
    assert_eq!(
        allocator.get_free_memory_ranges(1),
        vec![EmuRsMemoryRange::new(0, 9), EmuRsMemoryRange::new(100, 999)],
    );

    assert_eq!(allocator.get_free_memory_block(EmuRsMemoryLayout::new(2000, 1)), None);
}
