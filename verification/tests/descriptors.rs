use x86_kernel::arch::x86::gdt::{GdtEntry as ArchGdtEntry, GlobalDescriptorTable, TaskStateSegment};
use x86_kernel::x86::gdt::{init as gdt_init, Gdt, GdtEntry, Tss};
use x86_kernel::x86::idt::{IdtEntry, InterruptDescriptorTable};
use x86_kernel::x86::PrivilegeLevel;

#[test]
fn gdt_setters_build_flat_segments() {
    let mut e = GdtEntry::missing();
    e.set_kernel_code().set_limit(0xfffff).set_base(0x12345678);
    let v = e.fields();
    assert_eq!(v, (0xffff, 0x5678, 0x34, 0x9b, 0xcf, 0x12));
    let mut d = GdtEntry::missing();
    d.set_user_data().set_limit(0xfffff);
    assert_eq!(d.fields(), (0xffff, 0, 0, 0xf3, 0xcf, 0));
    let mut c = GdtEntry::missing();
    c.set_user_code();
    assert_eq!(c.fields(), (0, 0, 0, 0xfb, 0xc0, 0));
    let mut k = GdtEntry::missing();
    k.set_kernel_data();
    assert_eq!(k.fields(), (0, 0, 0, 0x93, 0xc0, 0));
}

#[test]
fn gdt_set_tss_clears_flags_keeps_limit() {
    let mut e = GdtEntry::missing();
    e.set_kernel_code().set_limit(0x12345);
    e.set_tss();
    assert_eq!(e.fields(), (0x2345, 0, 0, 0x89, 0x01, 0));
}

#[test]
fn gdt_init_fills_all_entries() {
    let mut gdt = Gdt::empty();
    gdt_init(&mut gdt, 0x00abcdef);
    assert_eq!(gdt.null_segment.fields(), (0, 0, 0, 0, 0, 0));
    assert_eq!(gdt.kernel_code.fields(), (0xffff, 0, 0, 0x9b, 0xcf, 0));
    assert_eq!(gdt.kernel_data.fields(), (0xffff, 0, 0, 0x93, 0xcf, 0));
    assert_eq!(gdt.user_code.fields(), (0xffff, 0, 0, 0xfb, 0xcf, 0));
    assert_eq!(gdt.user_data.fields(), (0xffff, 0, 0, 0xf3, 0xcf, 0));
    assert_eq!(gdt.tss.fields(), (107, 0xcdef, 0xab, 0x89, 0x00, 0x00));
    let _tss = Tss::empty();
}

#[test]
fn arch_gdt_entries() {
    assert_eq!(ArchGdtEntry::null().fields(), (0, 0, 0, 0, 0, 0));
    assert_eq!(
        ArchGdtEntry::code_segment(PrivilegeLevel::Ring0).fields(),
        (0xffff, 0, 0, 0x9b, 0xcf, 0)
    );
    assert_eq!(
        ArchGdtEntry::code_segment(PrivilegeLevel::Ring3).fields(),
        (0xffff, 0, 0, 0xfb, 0xcf, 0)
    );
    assert_eq!(
        ArchGdtEntry::data_segment(PrivilegeLevel::Ring3).fields(),
        (0xffff, 0, 0, 0xf3, 0xcf, 0)
    );
    assert_eq!(
        ArchGdtEntry::data_segment(PrivilegeLevel::Ring1).fields(),
        (0xffff, 0, 0, 0xb3, 0xcf, 0)
    );
    assert_eq!(ArchGdtEntry::tss(0x12345678).fields(), (107, 0x5678, 0x34, 0x89, 0x40, 0x12));
    let gdt = GlobalDescriptorTable::new(0x1000);
    assert_eq!(gdt.user_code.fields(), (0xffff, 0, 0, 0xfb, 0xcf, 0));
    assert_eq!(gdt.tss.fields(), (107, 0x1000, 0, 0x89, 0x40, 0));
}

#[test]
fn task_state_segment() {
    let tss = TaskStateSegment::new();
    assert_eq!(tss.esp0.as_u32(), 0);
    assert_eq!(tss.ss0.as_u16(), 16);
    assert_eq!(tss.load().as_u16(), 40);
}

#[test]
fn idt_gates() {
    let e = IdtEntry::exception(PrivilegeLevel::Ring3, 0x00c0ffee);
    assert_eq!(e.fields(), (0xffee, 8, 0, 0xef, 0x00c0));
    let k = IdtEntry::exception(PrivilegeLevel::Ring0, 0x12345678);
    assert_eq!(k.fields(), (0x5678, 8, 0, 0x8f, 0x1234));
    let i = IdtEntry::interrupt(0xdeadbeef);
    assert_eq!(i.fields(), (0xbeef, 8, 0, 0x8e, 0xdead));
    let idt = InterruptDescriptorTable::new();
    assert_eq!(idt.page_fault.fields(), (0, 0, 0, 0, 0));
    assert_eq!(idt.irq[5].fields(), (0, 0, 0, 0, 0));
}

#[test]
fn task_state_segment_limits_match_sizes() {
    assert_eq!(
        std::mem::size_of::<TaskStateSegment>() - 1,
        x86_kernel::arch::x86::gdt::TSS_LIMIT as usize
    );
    assert_eq!(std::mem::size_of::<Tss>() - 1, x86_kernel::x86::gdt::TSS_LIMIT as usize);
    assert_eq!(std::mem::size_of::<GdtEntry>(), 8);
    assert_eq!(std::mem::size_of::<IdtEntry>(), 8);
}
