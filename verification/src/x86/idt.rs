//! Interrupt Descriptor Table gate descriptors.

use vstd::prelude::*;

use crate::x86::privilege_bits;
use crate::x86::PrivilegeLevel;
use crate::x86::SegmentSelector;

verus! {

/// The fields of a gate descriptor, in the order the processor lays them out.
#[verifier::ext_equal]
pub struct IdtEntryView {
    pub offset_lo: u16,
    pub segment: u16,
    pub resvd: u8,
    pub access: u8,
    pub offset_hi: u16,
}

impl IdtEntryView {
    /// The 32-bit handler address spread over the two offset fields.
    pub open spec fn handler(self) -> u32 {
        (self.offset_lo as u32) | ((self.offset_hi as u32) << 16u32)
    }

    /// Whether the present bit of the access byte is set.
    pub open spec fn present(self) -> bool {
        self.access & 0x80 != 0
    }

    /// The descriptor privilege level in bits 5 and 6 of the access byte.
    pub open spec fn dpl(self) -> u8 {
        (self.access >> 5u8) & 3
    }

    /// The descriptor kind in the low four bits of the access byte (0xf: trap gate, 0xe:
    /// interrupt gate).
    pub open spec fn gate_type(self) -> u8 {
        self.access & 0x0f
    }
}

/// A gate descriptor in the Interrupt Descriptor Table.
#[derive(Clone, Copy)]
pub struct IdtEntry {
    offset_lo: u16,
    segment: SegmentSelector,
    resvd: u8,
    access: u8,
    offset_hi: u16,
}

impl View for IdtEntry {
    type V = IdtEntryView;

    closed spec fn view(&self) -> IdtEntryView {
        IdtEntryView {
            offset_lo: self.offset_lo,
            segment: self.segment@,
            resvd: self.resvd,
            access: self.access,
            offset_hi: self.offset_hi,
        }
    }
}

/// Splitting an address into its low and high halves and joining them gives it back.
proof fn lemma_split_handler(handler: u32)
    by (bit_vector)
    ensures
        (((handler & 0xffff) as u16) as u32) | ((((handler >> 16u32) as u16) as u32) << 16u32)
            == handler,
{
}

impl IdtEntry {
    /// Returns the raw fields: low handler offset, code segment selector, reserved byte, access
    /// byte, high handler offset.
    pub fn fields(&self) -> (r: (u16, u16, u8, u8, u16))
        ensures
            r == (self@.offset_lo, self@.segment, self@.resvd, self@.access, self@.offset_hi),
    {
        (self.offset_lo, self.segment.as_u16(), self.resvd, self.access, self.offset_hi)
    }

    /// Returns an entry with every field zero, which describes no gate.
    pub fn missing() -> (r: Self)
        ensures
            r@ == (IdtEntryView { offset_lo: 0, segment: 0, resvd: 0, access: 0, offset_hi: 0 }),
    {
        IdtEntry {
            offset_lo: 0,
            segment: SegmentSelector::from_u16(0),
            resvd: 0,
            access: 0,
            offset_hi: 0,
        }
    }

    /// Returns a present 32-bit trap gate at privilege level `dpl` for the handler at address
    /// `handler` in the kernel code segment.
    pub fn exception(dpl: PrivilegeLevel, handler: u32) -> (r: Self)
        ensures
            r@ == (IdtEntryView {
                offset_lo: (handler & 0xffff) as u16,
                segment: 8,
                resvd: 0,
                access: 0x8f | ((privilege_bits(dpl) as u8) << 5u8),
                offset_hi: (handler >> 16u32) as u16,
            }),
            r@.handler() == handler,
            r@.present(),
            r@.dpl() == privilege_bits(dpl),
            r@.gate_type() == 0xf,
    {
        proof {
            lemma_split_handler(handler);
        }
        let d = dpl.as_u8();
        let access = 0x8f | d << 5u8;
        assert(access & 0x80 != 0 && (access >> 5u8) & 3 == d && access & 0x0f == 0xf) by (bit_vector)
            requires
                d < 4,
                access == 0x8f | d << 5u8,
        ;
        IdtEntry {
            offset_lo: (handler & 0xffff) as u16,
            segment: SegmentSelector::kernel_code(),
            resvd: 0,
            access,
            offset_hi: (handler >> 16u32) as u16,
        }
    }

    /// Returns a present 32-bit interrupt gate at privilege level 0 for the handler at address
    /// `handler` in the kernel code segment.
    pub fn interrupt(handler: u32) -> (r: Self)
        ensures
            r@ == (IdtEntryView {
                offset_lo: (handler & 0xffff) as u16,
                segment: 8,
                resvd: 0,
                access: 0x8e,
                offset_hi: (handler >> 16u32) as u16,
            }),
            r@.handler() == handler,
            r@.present(),
            r@.dpl() == 0,
            r@.gate_type() == 0xe,
    {
        proof {
            lemma_split_handler(handler);
            assert(0x8eu8 & 0x80 != 0 && (0x8eu8 >> 5u8) & 3 == 0 && 0x8eu8 & 0x0f == 0xe)
                by (bit_vector);
        }
        IdtEntry {
            offset_lo: (handler & 0xffff) as u16,
            segment: SegmentSelector::kernel_code(),
            resvd: 0,
            access: 0x8e,
            offset_hi: (handler >> 16u32) as u16,
        }
    }
}

/// The Interrupt Descriptor Table: the processor exceptions, the 16 hardware interrupt lines
/// at vectors 32 to 47, and the system call gate at vector 128.
pub struct InterruptDescriptorTable {
    pub divide_error: IdtEntry,
    pub debug_exception: IdtEntry,
    pub non_maskable_interrupt: IdtEntry,
    pub breakpoint: IdtEntry,
    pub overflow: IdtEntry,
    pub bounds_check: IdtEntry,
    pub invalid_opcode: IdtEntry,
    pub coprocessor_not_available: IdtEntry,
    pub double_fault: IdtEntry,
    pub coprocessor_segment_overrun: IdtEntry,
    pub invalid_tss: IdtEntry,
    pub segment_not_present: IdtEntry,
    pub stack_fault: IdtEntry,
    pub general_protection_fault: IdtEntry,
    pub page_fault: IdtEntry,
    reserved: IdtEntry,
    pub math_fault: IdtEntry,
    pub alignment_check: IdtEntry,
    pub machine_check: IdtEntry,
    pub simd_error: IdtEntry,
    pub virtualization_exception: IdtEntry,
    pub control_protection_exception: IdtEntry,
    unused0: [IdtEntry; 10],
    pub irq: [IdtEntry; 16],
    unused1: [IdtEntry; 16],
    unused2: [IdtEntry; 32],
    unused3: [IdtEntry; 32],
    pub syscall: IdtEntry,
}

impl InterruptDescriptorTable {
    /// Whether every gate of the table is missing.
    pub closed spec fn all_missing(&self) -> bool {
        let m = IdtEntryView { offset_lo: 0, segment: 0, resvd: 0, access: 0, offset_hi: 0 };
        &&& self.divide_error@ == m
        &&& self.debug_exception@ == m
        &&& self.non_maskable_interrupt@ == m
        &&& self.breakpoint@ == m
        &&& self.overflow@ == m
        &&& self.bounds_check@ == m
        &&& self.invalid_opcode@ == m
        &&& self.coprocessor_not_available@ == m
        &&& self.double_fault@ == m
        &&& self.coprocessor_segment_overrun@ == m
        &&& self.invalid_tss@ == m
        &&& self.segment_not_present@ == m
        &&& self.stack_fault@ == m
        &&& self.general_protection_fault@ == m
        &&& self.page_fault@ == m
        &&& self.reserved@ == m
        &&& self.math_fault@ == m
        &&& self.alignment_check@ == m
        &&& self.machine_check@ == m
        &&& self.simd_error@ == m
        &&& self.virtualization_exception@ == m
        &&& self.control_protection_exception@ == m
        &&& forall|i: int| 0 <= i < 10 ==> (#[trigger] self.unused0@[i])@ == m
        &&& forall|i: int| 0 <= i < 16 ==> (#[trigger] self.irq@[i])@ == m
        &&& forall|i: int| 0 <= i < 16 ==> (#[trigger] self.unused1@[i])@ == m
        &&& forall|i: int| 0 <= i < 32 ==> (#[trigger] self.unused2@[i])@ == m
        &&& forall|i: int| 0 <= i < 32 ==> (#[trigger] self.unused3@[i])@ == m
        &&& self.syscall@ == m
    }

    /// Returns a table whose gates are all missing.
    pub fn new() -> (r: Self)
        ensures
            r.all_missing(),
    {
        let m = IdtEntry::missing();
        InterruptDescriptorTable {
            divide_error: m,
            debug_exception: m,
            non_maskable_interrupt: m,
            breakpoint: m,
            overflow: m,
            bounds_check: m,
            invalid_opcode: m,
            coprocessor_not_available: m,
            double_fault: m,
            coprocessor_segment_overrun: m,
            invalid_tss: m,
            segment_not_present: m,
            stack_fault: m,
            general_protection_fault: m,
            page_fault: m,
            reserved: m,
            math_fault: m,
            alignment_check: m,
            machine_check: m,
            simd_error: m,
            virtualization_exception: m,
            control_protection_exception: m,
            unused0: [m; 10],
            irq: [m; 16],
            unused1: [m; 16],
            unused2: [m; 32],
            unused3: [m; 32],
            syscall: m,
        }
    }
}

} // verus!
