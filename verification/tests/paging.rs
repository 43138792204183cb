use x86_kernel::paging::{
    alloc_page, free_page, init, map_page, mem_used, vtophys, OutOfMemoryError, PageType, Paging,
    Pte,
};

const KBASE: u32 = 0x100000;
const KTOP: u32 = 0x103800;

fn booted() -> Paging {
    init(KBASE, KTOP, 0x200000, 0x201000, 0x202000)
}

#[test]
fn pte_new_sets_frame_and_flags() {
    let p = Pte::new(0x12345678, PageType::UserWritable);
    assert_eq!(p.addr(), 0x12345000);
    assert!(p.is_present());
    assert!(p.is_writable());
    assert!(p.is_user());
    assert!(!p.is_cow());
    let k = Pte::new(0xabc000, PageType::KernelReadonly);
    assert!(k.is_present());
    assert!(!k.is_writable());
    assert!(!k.is_user());
    assert_eq!(Pte::new(0x1000, PageType::UserReadonly).is_user(), true);
    assert_eq!(Pte::new(0x1000, PageType::KernelWritable).is_user(), false);
}

#[test]
fn pte_flag_setters_keep_frame() {
    let mut p = Pte::empty();
    assert!(!p.is_present());
    assert_eq!(p.addr(), 0);
    p = Pte::new(0x7000, PageType::KernelReadonly);
    p.set_cow(true);
    p.set_writable(true);
    p.set_user(true);
    assert!(p.is_cow() && p.is_writable() && p.is_user() && p.is_present());
    p.set_present(false);
    assert!(!p.is_present());
    assert!(p.is_cow());
    p.set_cow(false);
    p.set_writable(false);
    p.set_user(false);
    assert!(!p.is_cow() && !p.is_writable() && !p.is_user());
    assert_eq!(p.addr(), 0x7000);
}

#[test]
fn page_type_bits() {
    assert_eq!(PageType::KernelReadonly.bits(), 1);
    assert_eq!(PageType::KernelWritable.bits(), 3);
    assert_eq!(PageType::UserReadonly.bits(), 5);
    assert_eq!(PageType::UserWritable.bits(), 7);
}

#[test]
fn init_maps_kernel_vga_and_counts_pages() {
    let p = booted();
    // Four kernel pages and the two pages of the frame stack are in use.
    assert_eq!(mem_used(&p), 6 * 4096);
    assert_eq!(vtophys(&p, 0x100000), Some(0x100000));
    assert_eq!(vtophys(&p, 0x103abc), Some(0x103000));
    assert_eq!(vtophys(&p, 0x104000), None);
    assert_eq!(vtophys(&p, 0xb8010), Some(0xb8000));
    // The frame stack lives in the two pages after the kernel.
    assert_eq!(vtophys(&p, 0x800000), Some(0x104000));
    assert_eq!(vtophys(&p, 0x801000), Some(0x105000));
    assert_eq!(vtophys(&p, 0x802000), None);
    // Slot 1 maps the directory itself: its window shows the page tables as pages.
    assert_eq!(vtophys(&p, 0x400000), Some(0x200000));
    assert_eq!(vtophys(&p, 0x401000), Some(0x201000));
    assert_eq!(vtophys(&p, 0x402000), Some(0x202000));
    assert_eq!(vtophys(&p, 0x403000), None);
    // Nothing is mapped outside the first three directory slots.
    assert_eq!(vtophys(&p, 0x1000000), None);
}

#[test]
fn map_then_vtophys() {
    let mut p = booted();
    assert_eq!(map_page(&mut p, 0x300000, 0x555123, PageType::UserReadonly), Ok(()));
    assert_eq!(vtophys(&p, 0x300fff), Some(0x555000));
    // The page table was present: no frame was taken.
    assert_eq!(mem_used(&p), 6 * 4096);
    // Other pages are untouched.
    assert_eq!(vtophys(&p, 0x100000), Some(0x100000));
    assert_eq!(vtophys(&p, 0x301000), None);
}

#[test]
fn map_into_new_page_table_takes_a_frame() {
    let mut p = booted();
    assert_eq!(map_page(&mut p, 0x2000000, 0x777000, PageType::KernelWritable), Ok(()));
    assert_eq!(vtophys(&p, 0x2000000), Some(0x777000));
    assert_eq!(mem_used(&p), 7 * 4096);
}

#[test]
fn alloc_takes_top_frames_and_free_returns_them() {
    let mut p = booted();
    // The top of the stack is the last of the 2048 frames after the stack pages.
    let top: u32 = KBASE + (4 + 2 + 2047) * 4096;
    assert_eq!(alloc_page(&mut p, 0x1000000, PageType::UserWritable), Ok(()));
    // The page got the top frame; its new page table got the next one.
    assert_eq!(vtophys(&p, 0x1000000), Some(top));
    assert_eq!(mem_used(&p), 8 * 4096);
    free_page(&mut p, 0x1000000);
    assert_eq!(vtophys(&p, 0x1000000), None);
    assert_eq!(mem_used(&p), 7 * 4096);
    // The freed frame is on top again.
    assert_eq!(alloc_page(&mut p, 0x1001000, PageType::UserWritable), Ok(()));
    assert_eq!(vtophys(&p, 0x1001000), Some(top));
    assert_eq!(mem_used(&p), 8 * 4096);
}

#[test]
fn free_without_page_table_does_nothing() {
    let mut p = booted();
    free_page(&mut p, 0x3000000);
    assert_eq!(mem_used(&p), 6 * 4096);
    assert_eq!(vtophys(&p, 0x3000000), None);
}

#[test]
fn out_of_memory() {
    let mut p = Paging::new(0x201000);
    assert_eq!(map_page(&mut p, 0x400000, 0x1000, PageType::KernelWritable), Err(OutOfMemoryError));
    assert_eq!(alloc_page(&mut p, 0x400000, PageType::KernelWritable), Err(OutOfMemoryError));
    assert_eq!(mem_used(&p), 0);
    assert_eq!(vtophys(&p, 0x400000), None);
}

#[test]
fn lookup_follows_directory() {
    let mut p = booted();
    let t = p.tables();
    assert!(Pte::lookup(t, 0x5000000).is_none());
    let e = Pte::lookup(t, 0x100000).unwrap();
    assert_eq!(e.addr(), 0x100000);
    let _ = t;
    let m = Pte::lookup_mut(p.tables_mut(), 0x101000).unwrap();
    m.set_writable(false);
    assert_eq!(vtophys(&p, 0x101000), Some(0x101000));
    assert!(!Pte::lookup(p.tables(), 0x101000).unwrap().is_writable());
}

#[test]
fn freeing_twice_frees_once() {
    let mut p = booted();
    assert_eq!(map_page(&mut p, 0x300000, 0x555000, PageType::KernelWritable), Ok(()));
    free_page(&mut p, 0x300000);
    assert_eq!(mem_used(&p), 5 * 4096);
    // No page is mapped there any more: the second call has no effect.
    free_page(&mut p, 0x300000);
    assert_eq!(mem_used(&p), 5 * 4096);
    assert_eq!(p.pages_used(), 5);
    assert_eq!(vtophys(&p, 0x300000), None);
}

#[test]
fn mapping_through_the_directory_window_installs_a_page_table() {
    let mut p = booted();
    // Writing entry 8 of the window writes directory entry 8.
    assert_eq!(map_page(&mut p, 0x408000, 0x600000, PageType::KernelWritable), Ok(()));
    assert_eq!(vtophys(&p, 0x408000), Some(0x600000));
    assert_eq!(mem_used(&p), 6 * 4096);
    // The region of slot 8 now uses the frame at 0x600000 as its page table.
    assert!(Pte::lookup(p.tables(), 0x2000000).is_some());
}

#[test]
fn frame_survives_flag_setters() {
    let mut p = Pte::new(0xdeadb123, PageType::KernelReadonly);
    for (i, on) in [true, false, true, true, false, false, true].iter().enumerate() {
        match i % 4 {
            0 => p.set_present(*on),
            1 => p.set_writable(*on),
            2 => p.set_user(*on),
            _ => p.set_cow(*on),
        }
        assert_eq!(p.addr(), 0xdeadb000);
    }
    assert!(!Pte::default().is_present());
}

#[test]
fn directory_entries_naming_one_frame_share_its_table() {
    let mut p = booted();
    // Directory entry 5 (written through the directory's window at 0x405000) names the frame
    // of the initial page table, which slot 0 uses too.
    assert_eq!(map_page(&mut p, 0x405000, 0x200000, PageType::KernelWritable), Ok(()));
    assert_eq!(vtophys(&p, 0x1500000), Some(0x100000));
    assert_eq!(vtophys(&p, 0x14b8000), Some(0xb8000));
    // A page mapped through slot 5 shows up through slot 0 at the same table slot.
    assert_eq!(map_page(&mut p, 0x1520000, 0x900000, PageType::KernelWritable), Ok(()));
    assert_eq!(vtophys(&p, 0x120000), Some(0x900000));
    assert_eq!(mem_used(&p), 6 * 4096);
}

#[test]
fn recycled_page_table_frame_keeps_its_entries() {
    let mut p = booted();
    let top: u32 = KBASE + (4 + 2 + 2047) * 4096;
    // The page at 0x1000000 takes the top frame; its page table (slot 4) takes the next one.
    assert_eq!(alloc_page(&mut p, 0x1000000, PageType::UserWritable), Ok(()));
    assert_eq!(vtophys(&p, 0x404000), Some(top - 4096));
    // Freeing the page table's frame through the directory's window unmaps slot 4 and puts
    // that frame back on top of the stack.
    free_page(&mut p, 0x404000);
    assert_eq!(vtophys(&p, 0x1000000), None);
    // Slot 7 gets the recycled frame as its page table, with the entries it held before.
    assert_eq!(map_page(&mut p, 0x1c01000, 0x333000, PageType::KernelWritable), Ok(()));
    assert_eq!(vtophys(&p, 0x1c01000), Some(0x333000));
    assert_eq!(vtophys(&p, 0x1c00000), Some(top));
}
