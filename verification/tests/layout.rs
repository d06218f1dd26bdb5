use igd_provision::layout::{pages_for, PhysAddr, ADDRESS_CEILING, MAX_PAGES, PAGE_SIZE};

#[test]
fn page_size_and_ceiling() {
    assert_eq!(PAGE_SIZE, 4096);
    assert_eq!(ADDRESS_CEILING, 0xFFFF_FFFF);
    assert_eq!(MAX_PAGES, 1u64 << 52);
}

#[test]
fn pages_for_rounds_up() {
    assert_eq!(pages_for(0), 0);
    assert_eq!(pages_for(1), 1);
    assert_eq!(pages_for(4095), 1);
    assert_eq!(pages_for(4096), 1);
    assert_eq!(pages_for(4097), 2);
    assert_eq!(pages_for(8192), 2);
    assert_eq!(pages_for(10000), 3);
    assert_eq!(pages_for(8 * 1024 * 1024), 2048);
}

#[test]
fn pages_for_largest_size() {
    assert_eq!(pages_for(u64::MAX), 1u64 << 52);
    assert_eq!(pages_for(u64::MAX - 4095), (1u64 << 52) - 1);
    assert_eq!(pages_for(u64::MAX - 4094), 1u64 << 52);
    assert_eq!(pages_for(u64::MAX - 4095 - 4096), (1u64 << 52) - 2);
    assert_eq!(pages_for(1u64 << 63), 1u64 << 51);
}

#[test]
fn addresses_on_and_off_boundaries() {
    assert!(PhysAddr(0).is_aligned_to(0x10_0000));
    assert!(PhysAddr(0x10_0000).is_aligned_to(0x10_0000));
    assert!(PhysAddr(0x7fe0_0000).is_aligned_to(0x10_0000));
    assert!(!PhysAddr(0x10_1000).is_aligned_to(0x10_0000));
    assert!(PhysAddr(0x10_1000).is_aligned_to(0x1000));
    assert!(!PhysAddr(0x10_1001).is_aligned_to(0x1000));
    assert!(PhysAddr(7).is_aligned_to(1));
}

#[test]
fn gap_to_next_boundary() {
    assert_eq!(PhysAddr(0).gap_to(0x10_0000), 0);
    assert_eq!(PhysAddr(0x10_0000).gap_to(0x10_0000), 0);
    assert_eq!(PhysAddr(0x10_1000).gap_to(0x10_0000), 0xf_f000);
    assert_eq!(PhysAddr(0x1f_f000).gap_to(0x10_0000), 0x1000);
    assert_eq!(PhysAddr(0x1234_5000).gap_to(0x10_0000), 0x10_0000 - 0x4_5000);
    assert_eq!(PhysAddr(0x1234_5000).gap_to(0x1000), 0);
    assert_eq!(PhysAddr(5).gap_to(4), 3);
    assert_eq!(PhysAddr(u64::MAX).gap_to(0x1000), 1);
}

#[test]
fn offset_stays_in_address_space() {
    assert_eq!(PhysAddr(0x1000).offset(0x2000), Some(PhysAddr(0x3000)));
    assert_eq!(PhysAddr(0).offset(u64::MAX), Some(PhysAddr(u64::MAX)));
    assert_eq!(PhysAddr(1).offset(u64::MAX), None);
    assert_eq!(PhysAddr(u64::MAX).offset(0), Some(PhysAddr(u64::MAX)));
    assert_eq!(PhysAddr(u64::MAX).offset(1), None);
}
