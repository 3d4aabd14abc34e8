use emurs_kernel::mem::{
    align_address_downward, align_address_upward, EmuRsMemoryLayout, EmuRsMemoryRange,
};

#[test]
fn test_contains_range() {
    let outer = EmuRsMemoryRange::new(10, 20);
    assert!(outer.contains_range(EmuRsMemoryRange::new(10, 20)));
    assert!(outer.contains_range(EmuRsMemoryRange::new(12, 18)));
    assert!(!outer.contains_range(EmuRsMemoryRange::new(9, 20)));
    assert!(!outer.contains_range(EmuRsMemoryRange::new(10, 21)));
}

#[test]
fn test_overlaps_range() {
    let r = EmuRsMemoryRange::new(10, 20);
    assert!(r.overlaps_range(r));
    assert!(r.overlaps_range(EmuRsMemoryRange::new(20, 30)));
    assert!(r.overlaps_range(EmuRsMemoryRange::new(0, 10)));
    assert!(!r.overlaps_range(EmuRsMemoryRange::new(21, 30)));
    assert!(!r.overlaps_range(EmuRsMemoryRange::new(0, 9)));

    // Overlap is symmetric.
    assert!(EmuRsMemoryRange::new(20, 30).overlaps_range(r));
}

#[test]
fn test_range_and_length() {
    let r = EmuRsMemoryRange::new(0, 999);
    assert_eq!(r.length(), 1000);
    let std_range = r.range();
    assert!(std_range.contains(&0));
    assert!(std_range.contains(&999));
    assert!(!std_range.contains(&1000));
}

#[test]
fn test_align_address_upward() {
    assert_eq!(align_address_upward(8, 100), 104);
    assert_eq!(align_address_upward(8, 104), 104);
    assert_eq!(align_address_upward(1, 77), 77);
    assert_eq!(align_address_upward(16, 1), 16);
    assert_eq!(align_address_upward(4, 0), 0);
}

#[test]
fn test_align_address_downward() {
    assert_eq!(align_address_downward(8, 103), 96);
    assert_eq!(align_address_downward(8, 96), 96);
    assert_eq!(align_address_downward(1, 77), 77);
    assert_eq!(align_address_downward(16, 15), 0);
}

#[test]
fn test_layout_carries_size_and_align() {
    let layout = EmuRsMemoryLayout::new(100, 8);
    assert_eq!(layout.size, 100);
    assert_eq!(layout.align, 8);
}
