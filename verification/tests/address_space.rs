use x86_kernel::mm::{init_address_space, HEAP_BASE, HEAP_SIZE, TCB_BASE, TCB_SIZE, USER_BASE};
use x86_kernel::x86::paging::PageTable;
use x86_kernel::x86::PhysAddr;

#[test]
fn kernel_image_and_directory_layout() {
    let mut kernel = PageTable::new();
    let mut directory = PageTable::new();
    let heap: Vec<PhysAddr> = (0..16).map(|i| PhysAddr::new(0x300000 + i * 0x1000)).collect();
    let tcb: Vec<PhysAddr> = (0..32).map(|i| PhysAddr::new(0x310000 + i * 0x1000)).collect();
    init_address_space(
        0x100800,
        0x103000,
        0x105400,
        &mut kernel,
        &mut directory,
        PhysAddr::new(0x200000),
        PhysAddr::new(0x201000),
        PhysAddr::new(0x202000),
        &heap,
        &tcb,
    );
    // Read-only text and rodata, from the page holding the image base.
    assert!(!kernel.index(0xff).is_present());
    for i in 0x100..0x103 {
        let e = kernel.index(i);
        assert!(e.is_present() && !e.is_writable());
        assert_eq!(e.frame().as_u32(), (i as u32) << 12);
    }
    // Writable data and bss, up to the page holding the image top.
    for i in 0x103..0x106 {
        let e = kernel.index(i);
        assert!(e.is_present() && e.is_writable());
        assert_eq!(e.frame().as_u32(), (i as u32) << 12);
    }
    assert!(!kernel.index(0x106).is_present());
    // VGA text buffer.
    assert!(kernel.index(0xb8).is_present() && kernel.index(0xb8).is_writable());
    assert_eq!(kernel.index(0xb8).frame().as_u32(), 0xb8000);

    assert_eq!(directory.index(0).frame().as_u32(), 0x200000);
    assert_eq!(directory.index(1).frame().as_u32(), 0x201000);
    assert_eq!(directory.index(2).frame().as_u32(), 0x202000);
    for i in 0..16 {
        assert_eq!(directory.index(16 + i).frame().as_u32(), 0x300000 + i as u32 * 0x1000);
        assert!(directory.index(16 + i).is_writable());
    }
    for i in 0..32 {
        assert_eq!(directory.index(32 + i).frame().as_u32(), 0x310000 + i as u32 * 0x1000);
        assert!(directory.index(32 + i).is_writable());
    }
    for i in (3..16).chain(64..1024) {
        assert!(!directory.index(i).is_present());
    }
}

#[test]
fn memory_layout_constants() {
    assert_eq!(HEAP_BASE, 0x04000000);
    assert_eq!(HEAP_BASE as usize + HEAP_SIZE, TCB_BASE as usize);
    assert_eq!(TCB_BASE as usize + TCB_SIZE, USER_BASE as usize);
    // The heap and TCB tables cover directory slots 16-31 and 32-63.
    assert_eq!(HEAP_BASE >> 22, 16);
    assert_eq!(TCB_BASE >> 22, 32);
    assert_eq!(USER_BASE >> 22, 64);
}
