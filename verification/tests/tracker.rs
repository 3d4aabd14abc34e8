use emurs_kernel::error::EmuRsAllocatorFault;
use emurs_kernel::mem::{EmuRsAllocatorSlab, EmuRsMemoryRange, EmuRsSlabTracker};

#[test]
fn test_tracker_counts_and_capacity() {
    let mut tracker = EmuRsSlabTracker::new(2);
    assert_eq!(tracker.len(), 0);

    tracker.insert(EmuRsAllocatorSlab { coverage: EmuRsMemoryRange::new(0, 9) }).unwrap();
    tracker.insert(EmuRsAllocatorSlab { coverage: EmuRsMemoryRange::new(10, 19) }).unwrap();
    assert_eq!(tracker.len(), 2);

    let fault = tracker
        .insert(EmuRsAllocatorSlab { coverage: EmuRsMemoryRange::new(20, 29) })
        .unwrap_err();
    assert_eq!(fault, EmuRsAllocatorFault::SlabCapacityExceeded);
    assert_eq!(tracker.len(), 2);
}

#[test]
fn test_tracker_removes_by_start_address() {
    let mut tracker = EmuRsSlabTracker::new(4);
    tracker.insert(EmuRsAllocatorSlab { coverage: EmuRsMemoryRange::new(0, 9) }).unwrap();
    tracker.insert(EmuRsAllocatorSlab { coverage: EmuRsMemoryRange::new(10, 19) }).unwrap();

    tracker.remove_starting_at(10).unwrap();
    assert_eq!(tracker.len(), 1);

    // Only a slab's start address releases it.
    assert_eq!(tracker.remove_starting_at(9).unwrap_err(), EmuRsAllocatorFault::InvalidFree);
    assert_eq!(tracker.remove_starting_at(10).unwrap_err(), EmuRsAllocatorFault::InvalidFree);
    tracker.remove_starting_at(0).unwrap();
    assert_eq!(tracker.len(), 0);
}
