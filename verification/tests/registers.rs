use x86_kernel::x86::paging::{PageTable, PageTableEntry};
use x86_kernel::x86::registers::cr0::Cr0;
use x86_kernel::x86::registers::eflags::Eflags;
use x86_kernel::x86::PhysAddr;

#[test]
fn eflags_set_and_clear() {
    let mut f = Eflags::empty();
    assert_eq!(f.as_u32(), 0);
    f.set_carry_flag(true).set_zero_flag(true).set_interrupt_flag(true);
    assert_eq!(f.as_u32(), 1 | 64 | 512);
    assert!(f.get_carry_flag() && f.get_zero_flag() && f.get_interrupt_flag());
    assert!(!f.get_sign_flag() && !f.get_trap_flag() && !f.get_overflow_flag());
    f.set_zero_flag(false).set_sign_flag(true).set_trap_flag(true);
    f.set_overflow_flag(true).set_virtual_8086_flag(true);
    assert_eq!(f.as_u32(), 1 | 128 | 256 | 512 | 2048 | 131072);
    assert!(f.get_virtual_8086_flag());
    f.set_carry_flag(false);
    assert!(!f.get_carry_flag());
    assert_eq!(Eflags::from_u32(0x202).get_interrupt_flag(), true);
    assert_eq!(Eflags::CARRY_FLAG, 1);
    assert_eq!(Eflags::RESUME_FLAG, 1 << 16);
}

#[test]
fn cr0_paging_flag() {
    let mut c = Cr0::from_u32(0x11);
    assert!(!c.get_paging_flag());
    c.set_paging_flag(true);
    assert_eq!(c.as_u32(), 0x80000011);
    assert!(c.get_paging_flag());
    c.set_paging_flag(false);
    assert_eq!(c.as_u32(), 0x11);
    assert_eq!(Cr0::empty().as_u32(), 0);
}

#[test]
fn page_table_entries() {
    let mut e = PageTableEntry::new(PhysAddr::new(0xb8000));
    assert!(e.is_present());
    assert!(!e.is_writable() && !e.is_user() && !e.is_copy_on_write());
    assert_eq!(e.frame().as_u32(), 0xb8000);
    e.set_writable(true).set_user(true).set_copy_on_write(true);
    assert!(e.is_writable() && e.is_user() && e.is_copy_on_write());
    e.set_present(false);
    assert!(!e.is_present());
    assert_eq!(e.frame().as_u32(), 0xb8000);
    assert!(!PageTableEntry::empty().is_present());
}

#[test]
fn page_table_index() {
    let mut t = PageTable::new();
    assert_eq!(PageTable::ENTRIES, 1024);
    assert!(!t.index(1023).is_present());
    *t.index_mut(0xb8) = PageTableEntry::new(PhysAddr::new(0xb8000));
    t.index_mut(0xb8).set_writable(true);
    assert!(t.index(0xb8).is_writable());
    assert_eq!(t.index(0xb8).frame().as_u32(), 0xb8000);
    assert!(!t.index(0xb7).is_present());
}
