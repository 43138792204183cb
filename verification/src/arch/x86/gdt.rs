//! GDT entries, the Global Descriptor Table and the task state segment, as the platform
//! start-up code builds them.

use vstd::prelude::*;

use crate::x86::gdt::GdtEntryView;
use crate::x86::privilege_bits;
use crate::x86::PrivilegeLevel;
use crate::x86::SegmentSelector;
use crate::x86::VirtAddr;

verus! {

/// Entry in the Global Descriptor Table specifying a protected mode segment.
pub struct GdtEntry {
    limit_lo: u16,
    base_lo: u16,
    base_mid: u8,
    access: u8,
    limit_hi_flags: u8,
    base_hi: u8,
}

impl View for GdtEntry {
    type V = GdtEntryView;

    closed spec fn view(&self) -> GdtEntryView {
        GdtEntryView {
            limit_lo: self.limit_lo,
            base_lo: self.base_lo,
            base_mid: self.base_mid,
            access: self.access,
            limit_hi_flags: self.limit_hi_flags,
            base_hi: self.base_hi,
        }
    }
}

/// A segment covering the whole address space: base 0, limit 0xfffff in 4 KiB units, 32-bit,
/// with access byte `access`.
pub open spec fn flat_segment(access: u8) -> GdtEntryView {
    GdtEntryView {
        limit_lo: 0xffff,
        base_lo: 0,
        base_mid: 0,
        access,
        limit_hi_flags: 0xcf,
        base_hi: 0,
    }
}

/// The entry of an available 32-bit task state segment at address `base`: limit `TSS_LIMIT`
/// bytes, ring 0, flags 0x4 (32-bit, byte granularity).
pub open spec fn tss_segment(base: u32) -> GdtEntryView {
    GdtEntryView {
        limit_lo: TSS_LIMIT,
        base_lo: base as u16,
        base_mid: (base >> 16u32) as u8,
        access: 0x89,
        limit_hi_flags: 0x40,
        base_hi: (base >> 24u32) as u8,
    }
}

/// The size of the task state segment in bytes, minus one.
pub const TSS_LIMIT: u16 = 107;

/// Facts about the access byte of a segment at privilege level `dpl` built on `base_access`,
/// whose privilege bits are clear: the privilege level lands in bits 5 and 6, the rest is kept.
proof fn lemma_access_dpl(d: u8)
    by (bit_vector)
    requires
        d < 4,
    ensures
        ((0x9bu8 | (d << 5u8)) >> 5u8) & 3 == d,
        (0x9bu8 | (d << 5u8)) & 0x9f == 0x9b,
        ((0x93u8 | (d << 5u8)) >> 5u8) & 3 == d,
        (0x93u8 | (d << 5u8)) & 0x9f == 0x93,
{
}

impl GdtEntry {
    /// Returns the raw fields: low limit, low base, middle base, access byte, high limit and
    /// flags, high base.
    pub fn fields(&self) -> (r: (u16, u16, u8, u8, u8, u8))
        ensures
            r == (self@.limit_lo, self@.base_lo, self@.base_mid, self@.access, self@.limit_hi_flags,
            self@.base_hi),
    {
        (self.limit_lo, self.base_lo, self.base_mid, self.access, self.limit_hi_flags, self.base_hi)
    }

    /// Returns an empty GDT entry that does not represent any valid segment.
    pub fn null() -> (r: Self)
        ensures
            r@ == (GdtEntryView {
                limit_lo: 0,
                base_lo: 0,
                base_mid: 0,
                access: 0,
                limit_hi_flags: 0,
                base_hi: 0,
            }),
    {
        GdtEntry { limit_lo: 0, base_lo: 0, base_mid: 0, access: 0, limit_hi_flags: 0, base_hi: 0 }
    }

    /// Returns a GDT entry for a code segment with the given privilege level. The segment covers
    /// the entire address space.
    pub fn code_segment(dpl: PrivilegeLevel) -> (r: Self)
        ensures
            r@ == flat_segment(0x9b | ((privilege_bits(dpl) as u8) << 5u8)),
            (r@.access >> 5u8) & 3 == privilege_bits(dpl),
            r@.access & 0x9f == 0x9b,
            r@.base() == 0,
            r@.limit() == 0xfffff,
            r@.flags() == 0xc,
    {
        let d = dpl.as_u8();
        proof {
            lemma_access_dpl(d);
            lemma_flat_fields(0x9b | d << 5u8);
        }
        GdtEntry {
            limit_lo: 0xffff,
            base_lo: 0,
            base_mid: 0,
            access: 0x9b | d << 5u8,
            limit_hi_flags: 0xcf,
            base_hi: 0,
        }
    }

    /// Returns a GDT entry for a data segment with the given privilege level. The segment covers
    /// the entire address space.
    pub fn data_segment(dpl: PrivilegeLevel) -> (r: Self)
        ensures
            r@ == flat_segment(0x93 | ((privilege_bits(dpl) as u8) << 5u8)),
            (r@.access >> 5u8) & 3 == privilege_bits(dpl),
            r@.access & 0x9f == 0x93,
            r@.base() == 0,
            r@.limit() == 0xfffff,
            r@.flags() == 0xc,
    {
        let d = dpl.as_u8();
        proof {
            lemma_access_dpl(d);
            lemma_flat_fields(0x93 | d << 5u8);
        }
        GdtEntry {
            limit_lo: 0xffff,
            base_lo: 0,
            base_mid: 0,
            access: 0x93 | d << 5u8,
            limit_hi_flags: 0xcf,
            base_hi: 0,
        }
    }

    /// Returns a GDT entry for a ring 0 TSS segment pointing to the task state segment at
    /// address `base`.
    pub fn tss(base: u32) -> (r: Self)
        ensures
            r@ == tss_segment(base),
            r@.base() == base,
            r@.limit() == TSS_LIMIT,
            r@.flags() == 4,
    {
        assert((((base as u16) as u32) | ((((base >> 16u32) as u8) as u32) << 16u32) | ((((base
            >> 24u32) as u8) as u32) << 24u32)) == base && ((107u16 as u32) | (((0x40u8 & 0x0f)
            as u32) << 16u32)) == 107 && 0x40u8 >> 4u8 == 4) by (bit_vector);
        GdtEntry {
            limit_lo: TSS_LIMIT,
            base_lo: base as u16,
            base_mid: (base >> 16u32) as u8,
            access: 0x89,
            limit_hi_flags: 0x40,
            base_hi: (base >> 24u32) as u8,
        }
    }
}

/// The base, limit and flags of the flat segment layout.
proof fn lemma_flat_fields(a: u8)
    ensures
        flat_segment(a).base() == 0,
        flat_segment(a).limit() == 0xfffff,
        flat_segment(a).flags() == 0xc,
{
    assert(((0u16 as u32) | ((0u8 as u32) << 16u32) | ((0u8 as u32) << 24u32)) == 0 && ((0xffffu16
        as u32) | (((0xcfu8 & 0x0f) as u32) << 16u32)) == 0xfffff && 0xcfu8 >> 4u8 == 0xc)
        by (bit_vector);
}

/// Global Descriptor Table, necessary for x86 protected mode. This struct contains entries for
/// kernel and user code and data segments, as well as a TSS segment.
pub struct GlobalDescriptorTable {
    pub null_segment: GdtEntry,
    pub kernel_code: GdtEntry,
    pub kernel_data: GdtEntry,
    pub user_code: GdtEntry,
    pub user_data: GdtEntry,
    pub tss: GdtEntry,
}

impl GlobalDescriptorTable {
    /// Returns the kernel's table: the null entry, ring 0 and ring 3 code and data segments
    /// covering the whole address space, and the entry of the task state segment at `tss_base`.
    pub fn new(tss_base: u32) -> (r: Self)
        ensures
            r.null_segment@ == GdtEntry::null_view(),
            r.kernel_code@ == flat_segment(0x9b),
            r.kernel_data@ == flat_segment(0x93),
            r.user_code@ == flat_segment(0xfb),
            r.user_data@ == flat_segment(0xf3),
            r.tss@ == tss_segment(tss_base),
            r.tss@.base() == tss_base,
            r.tss@.limit() == TSS_LIMIT,
    {
        proof {
            assert(0x9bu8 | (0u8 << 5u8) == 0x9b && 0x93u8 | (0u8 << 5u8) == 0x93 && 0x9bu8 | (3u8
                << 5u8) == 0xfb && 0x93u8 | (3u8 << 5u8) == 0xf3) by (bit_vector);
        }
        GlobalDescriptorTable {
            null_segment: GdtEntry::null(),
            kernel_code: GdtEntry::code_segment(PrivilegeLevel::Ring0),
            kernel_data: GdtEntry::data_segment(PrivilegeLevel::Ring0),
            user_code: GdtEntry::code_segment(PrivilegeLevel::Ring3),
            user_data: GdtEntry::data_segment(PrivilegeLevel::Ring3),
            tss: GdtEntry::tss(tss_base),
        }
    }
}

impl GdtEntry {
    /// The fields of the null entry: all zero.
    pub open spec fn null_view() -> GdtEntryView {
        GdtEntryView {
            limit_lo: 0,
            base_lo: 0,
            base_mid: 0,
            access: 0,
            limit_hi_flags: 0,
            base_hi: 0,
        }
    }
}

/// Task State Segment, necessary for x86 multitasking. Only the SS0 and ESP0 fields are needed,
/// as they define the stack segment and pointer to load on switch from user mode to kernel mode.
pub struct TaskStateSegment {
    unused0: u32,
    /// New stack pointer loaded upon privilege escalation to ring 0.
    pub esp0: VirtAddr,
    /// Stack segment loaded upon privilege escalation to ring 0.
    pub ss0: SegmentSelector,
    unused: [u8; 98],
}

impl TaskStateSegment {
    /// Returns a new task state segment. ss0 is initialized to the kernel data segment, but esp0
    /// is not set.
    pub fn new() -> (r: Self)
        ensures
            r.ring0_stack() == 0,
            r.ring0_stack_segment() == 16,
            r.unused_zero(),
    {
        TaskStateSegment {
            unused0: 0,
            esp0: VirtAddr::null(),
            ss0: SegmentSelector::kernel_data(),
            unused: [0; 98],
        }
    }

    /// The stack pointer loaded on entry to ring 0.
    pub closed spec fn ring0_stack(&self) -> u32 {
        self.esp0@
    }

    /// Whether the fields the kernel does not use, the first word and the 98 bytes after the
    /// ring 0 stack segment, are all zero.
    pub closed spec fn unused_zero(&self) -> bool {
        &&& self.unused0 == 0
        &&& forall|i: int| 0 <= i < 98 ==> #[trigger] self.unused@[i] == 0
    }

    /// The raw stack segment selector loaded on entry to ring 0.
    pub closed spec fn ring0_stack_segment(&self) -> u16 {
        self.ss0@
    }

    /// Returns the selector that the `ltr` instruction loads to make this the current task
    /// state segment: the GDT's TSS entry at ring 0.
    pub fn load(&self) -> (r: SegmentSelector)
        ensures
            r@ == 40,
    {
        SegmentSelector::tss()
    }
}

} // verus!
