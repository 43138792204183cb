use x86_kernel::x86::{PhysAddr, PrivilegeLevel, SegmentSelector, VirtAddr};

#[test]
fn selector_new_combines_offset_and_level() {
    let s = SegmentSelector::new(0x2f, PrivilegeLevel::Ring3);
    assert_eq!(s.as_u16(), 0x2b);
    assert_eq!(s.offset(), 0x28);
    assert_eq!(s.dpl(), PrivilegeLevel::Ring3);
    assert!(!s.is_kernel());
}

#[test]
fn gdt_selectors() {
    assert_eq!(SegmentSelector::kernel_code().as_u16(), 8);
    assert_eq!(SegmentSelector::kernel_data().as_u16(), 16);
    assert_eq!(SegmentSelector::user_code().as_u16(), 27);
    assert_eq!(SegmentSelector::user_data().as_u16(), 35);
    assert_eq!(SegmentSelector::tss().as_u16(), 40);
    assert!(SegmentSelector::kernel_code().is_kernel());
    assert!(!SegmentSelector::user_data().is_kernel());
}

#[test]
fn selector_from_raw_value() {
    let s = SegmentSelector::from_u16(0x1e);
    assert_eq!(s.as_u16(), 0x1e);
    assert_eq!(s.offset(), 0x18);
    assert_eq!(s.dpl(), PrivilegeLevel::Ring2);
    // Rebuilding drops the table indicator bit.
    let t = SegmentSelector::new(s.offset(), s.dpl());
    assert_eq!(t.as_u16(), 0x1e & !4);
}

#[test]
fn addresses() {
    assert_eq!(VirtAddr::new(0x1234).as_u32(), 0x1234);
    assert_eq!(VirtAddr::null().as_u32(), 0);
    assert_eq!(PhysAddr::new(0xb8000).as_u32(), 0xb8000);
    assert!(PhysAddr::new(0x3000).is_page_aligned());
    assert!(!PhysAddr::new(0x3004).is_page_aligned());
}
