//! Global Descriptor Table entries built field by field, and the kernel's GDT setup.

use vstd::prelude::*;

verus! {

/// The fields of a segment descriptor, in the order the processor lays them out.
#[verifier::ext_equal]
pub struct GdtEntryView {
    pub limit_lo: u16,
    pub base_lo: u16,
    pub base_mid: u8,
    pub access: u8,
    pub limit_hi_flags: u8,
    pub base_hi: u8,
}

impl GdtEntryView {
    /// The 32-bit segment base address spread over the three base fields.
    pub open spec fn base(self) -> u32 {
        (self.base_lo as u32) | ((self.base_mid as u32) << 16u32) | ((self.base_hi as u32) << 24u32)
    }

    /// The 20-bit segment limit spread over the low limit field and the low nibble of the
    /// high limit/flags field.
    pub open spec fn limit(self) -> u32 {
        (self.limit_lo as u32) | (((self.limit_hi_flags & 0x0f) as u32) << 16u32)
    }

    /// The four flag bits (granularity, size, long mode, available) in the high nibble.
    pub open spec fn flags(self) -> u8 {
        self.limit_hi_flags >> 4u8
    }
}

/// A segment descriptor in the Global Descriptor Table.
pub struct GdtEntry {
    limit_lo: u16,
    base_lo: u16,
    base_mid: u8,
    access: u8,
    limit_hi_flags: u8,
    base_hi: u8,
}

impl View for GdtEntry {
    type V = GdtEntryView;

    closed spec fn view(&self) -> GdtEntryView {
        GdtEntryView {
            limit_lo: self.limit_lo,
            base_lo: self.base_lo,
            base_mid: self.base_mid,
            access: self.access,
            limit_hi_flags: self.limit_hi_flags,
            base_hi: self.base_hi,
        }
    }
}

/// The descriptor after giving it segment type `access` with 4 KiB granularity and 32-bit
/// operand size (flags 0xc), keeping its limit and base.
pub open spec fn with_segment_type(v: GdtEntryView, access: u8) -> GdtEntryView {
    GdtEntryView { access, limit_hi_flags: (v.limit_hi_flags & 0x0f) | 0xc0, ..v }
}

/// The descriptor with its base fields set from `base`.
pub open spec fn with_base(v: GdtEntryView, base: u32) -> GdtEntryView {
    GdtEntryView {
        base_lo: base as u16,
        base_mid: (base >> 16u32) as u8,
        base_hi: (base >> 24u32) as u8,
        ..v
    }
}

/// The descriptor with its limit fields set from `limit`, keeping the flags nibble.
pub open spec fn with_limit(v: GdtEntryView, limit: u32) -> GdtEntryView {
    GdtEntryView {
        limit_lo: limit as u16,
        limit_hi_flags: (v.limit_hi_flags & 0xf0) | ((limit >> 16u32) as u8),
        ..v
    }
}

/// Setting the base and setting the limit touch different fields, so their order does not
/// matter, and setting the base again replaces the earlier one.
pub proof fn lemma_base_limit_independent(v: GdtEntryView, base: u32, base2: u32, limit: u32)
    ensures
        with_limit(with_base(v, base), limit) == with_base(with_limit(v, limit), base),
        with_base(with_base(v, base), base2) == with_base(v, base2),
{
}

/// Setting the flags nibble to 0xc or to 0 keeps the limit nibble.
proof fn lemma_flags_nibble(x: u8)
    by (bit_vector)
    ensures
        ((x & 0x0f) | 0xc0) & 0x0f == x & 0x0f,
        ((x & 0x0f) | 0xc0) >> 4u8 == 0xc,
        (x & 0x0f) & 0x0f == x & 0x0f,
        (x & 0x0f) >> 4u8 == 0,
{
}

impl GdtEntry {
    /// Returns the raw fields: low limit, low base, middle base, access byte, high limit and
    /// flags, high base.
    pub fn fields(&self) -> (r: (u16, u16, u8, u8, u8, u8))
        ensures
            r == (self@.limit_lo, self@.base_lo, self@.base_mid, self@.access, self@.limit_hi_flags,
            self@.base_hi),
    {
        (self.limit_lo, self.base_lo, self.base_mid, self.access, self.limit_hi_flags, self.base_hi)
    }

    /// Returns an entry with every field zero, which describes no segment.
    pub fn missing() -> (r: Self)
        ensures
            r@ == (GdtEntryView {
                limit_lo: 0,
                base_lo: 0,
                base_mid: 0,
                access: 0,
                limit_hi_flags: 0,
                base_hi: 0,
            }),
    {
        GdtEntry { limit_lo: 0, base_lo: 0, base_mid: 0, access: 0, limit_hi_flags: 0, base_hi: 0 }
    }

    /// Makes this entry a ring 0 code segment (executable, readable), keeping limit and base.
    pub fn set_kernel_code(&mut self) -> (r: &mut Self)
        ensures
            r@ == with_segment_type(old(self)@, 0x9b),
            r@.flags() == 0xc,
            r@.limit() == old(self)@.limit(),
            r@.base() == old(self)@.base(),
            final(self)@ == final(r)@,
    {
        proof {
            lemma_flags_nibble(self.limit_hi_flags);
        }
        self.limit_hi_flags = self.limit_hi_flags & 0x0f | 0xc0;
        self.access = 0x9b;
        self
    }

    /// Makes this entry a ring 0 data segment (writable), keeping limit and base.
    pub fn set_kernel_data(&mut self) -> (r: &mut Self)
        ensures
            r@ == with_segment_type(old(self)@, 0x93),
            r@.flags() == 0xc,
            r@.limit() == old(self)@.limit(),
            r@.base() == old(self)@.base(),
            final(self)@ == final(r)@,
    {
        proof {
            lemma_flags_nibble(self.limit_hi_flags);
        }
        self.limit_hi_flags = self.limit_hi_flags & 0x0f | 0xc0;
        self.access = 0x93;
        self
    }

    /// Makes this entry a ring 3 code segment (executable, readable), keeping limit and base.
    pub fn set_user_code(&mut self) -> (r: &mut Self)
        ensures
            r@ == with_segment_type(old(self)@, 0xfb),
            r@.flags() == 0xc,
            r@.limit() == old(self)@.limit(),
            r@.base() == old(self)@.base(),
            final(self)@ == final(r)@,
    {
        proof {
            lemma_flags_nibble(self.limit_hi_flags);
        }
        self.limit_hi_flags = self.limit_hi_flags & 0x0f | 0xc0;
        self.access = 0xfb;
        self
    }

    /// Makes this entry a ring 3 data segment (writable), keeping limit and base.
    pub fn set_user_data(&mut self) -> (r: &mut Self)
        ensures
            r@ == with_segment_type(old(self)@, 0xf3),
            r@.flags() == 0xc,
            r@.limit() == old(self)@.limit(),
            r@.base() == old(self)@.base(),
            final(self)@ == final(r)@,
    {
        proof {
            lemma_flags_nibble(self.limit_hi_flags);
        }
        self.limit_hi_flags = self.limit_hi_flags & 0x0f | 0xc0;
        self.access = 0xf3;
        self
    }

    /// Makes this entry an available 32-bit task state segment with byte granularity (flags
    /// cleared), keeping limit and base.
    pub fn set_tss(&mut self) -> (r: &mut Self)
        ensures
            r@ == (GdtEntryView {
                access: 0x89,
                limit_hi_flags: old(self)@.limit_hi_flags & 0x0f,
                ..old(self)@
            }),
            r@.flags() == 0,
            r@.limit() == old(self)@.limit(),
            r@.base() == old(self)@.base(),
            final(self)@ == final(r)@,
    {
        proof {
            lemma_flags_nibble(self.limit_hi_flags);
        }
        self.limit_hi_flags = self.limit_hi_flags & 0x0f;
        self.access = 0x89;
        self
    }

    /// Sets the 32-bit segment base address, keeping every other field.
    pub fn set_base(&mut self, base: u32) -> (r: &mut Self)
        ensures
            r@ == with_base(old(self)@, base),
            r@.base() == base,
            r@.limit() == old(self)@.limit(),
            r@.flags() == old(self)@.flags(),
            r@.access == old(self)@.access,
            final(self)@ == final(r)@,
    {
        self.base_lo = base as u16;
        self.base_mid = (base >> 16u32) as u8;
        self.base_hi = (base >> 24u32) as u8;
        assert((((base as u16) as u32) | ((((base >> 16u32) as u8) as u32) << 16u32) | ((((base
            >> 24u32) as u8) as u32) << 24u32)) == base) by (bit_vector);
        self
    }

    /// Sets the low 20 bits of `limit` as the segment limit, keeping the flags and every other
    /// field.
    pub fn set_limit(&mut self, limit: u32) -> (r: &mut Self)
        ensures
            r@ == with_limit(old(self)@, limit),
            limit < 0x100000 ==> r@.limit() == limit,
            limit < 0x100000 ==> r@.flags() == old(self)@.flags(),
            r@.base() == old(self)@.base(),
            r@.access == old(self)@.access,
            final(self)@ == final(r)@,
    {
        let old_hi = self.limit_hi_flags;
        self.limit_lo = limit as u16;
        self.limit_hi_flags = self.limit_hi_flags & 0xf0 | (limit >> 16u32) as u8;
        assert(limit < 0x100000 ==> ((limit as u16) as u32) | (((((old_hi & 0xf0) | ((limit
            >> 16u32) as u8)) & 0x0f) as u32) << 16u32) == limit && ((old_hi & 0xf0) | ((limit
            >> 16u32) as u8)) >> 4u8 == old_hi >> 4u8) by (bit_vector);
        self
    }
}


/// The kernel's Global Descriptor Table: the null descriptor, kernel and user code and data
/// segments, and the task state segment.
pub struct Gdt {
    pub null_segment: GdtEntry,
    pub kernel_code: GdtEntry,
    pub kernel_data: GdtEntry,
    pub user_code: GdtEntry,
    pub user_data: GdtEntry,
    pub tss: GdtEntry,
}

impl Gdt {
    /// Returns a table whose descriptors are all missing.
    pub fn empty() -> (r: Self)
        ensures
            r.null_segment@ == GdtEntry::missing_view(),
            r.kernel_code@ == GdtEntry::missing_view(),
            r.kernel_data@ == GdtEntry::missing_view(),
            r.user_code@ == GdtEntry::missing_view(),
            r.user_data@ == GdtEntry::missing_view(),
            r.tss@ == GdtEntry::missing_view(),
    {
        Gdt {
            null_segment: GdtEntry::missing(),
            kernel_code: GdtEntry::missing(),
            kernel_data: GdtEntry::missing(),
            user_code: GdtEntry::missing(),
            user_data: GdtEntry::missing(),
            tss: GdtEntry::missing(),
        }
    }
}

impl GdtEntry {
    /// The fields of a missing descriptor: all zero.
    pub open spec fn missing_view() -> GdtEntryView {
        GdtEntryView {
            limit_lo: 0,
            base_lo: 0,
            base_mid: 0,
            access: 0,
            limit_hi_flags: 0,
            base_hi: 0,
        }
    }
}

/// The task state segment the kernel's GDT points at. Only the ring 0 stack is used. It is
/// 108 bytes long: two 32-bit words, a 16-bit selector and 98 bytes the kernel does not use.
pub struct Tss {
    unused0: u32,
    esp0: u32,
    ss0: u16,
    unused: [u8; 98],
}

impl Tss {
    /// Returns a task state segment with every field zero.
    pub fn empty() -> (r: Self)
        ensures
            r.ring0_stack() == 0,
            r.ring0_stack_segment() == 0,
            r.all_zero(),
    {
        Tss { unused0: 0, esp0: 0, ss0: 0, unused: [0; 98] }
    }

    /// Whether every byte of the segment is zero: the two words, the selector and the 98
    /// bytes the kernel does not use.
    pub closed spec fn all_zero(&self) -> bool {
        &&& self.unused0 == 0
        &&& self.esp0 == 0
        &&& self.ss0 == 0
        &&& forall|i: int| 0 <= i < 98 ==> #[trigger] self.unused@[i] == 0
    }

    /// The stack pointer loaded on entry to ring 0.
    pub closed spec fn ring0_stack(&self) -> u32 {
        self.esp0
    }

    /// The stack segment selector loaded on entry to ring 0.
    pub closed spec fn ring0_stack_segment(&self) -> u16 {
        self.ss0
    }
}

/// The byte limit of the task state segment: its 108-byte size minus one.
pub const TSS_LIMIT: u32 = 107;

/// A flat 4 GiB segment of type `access`: limit 0xfffff in 4 KiB units, 32-bit, with the base
/// that `v` already had.
pub open spec fn is_flat_segment(e: GdtEntryView, v: GdtEntryView, access: u8) -> bool {
    &&& e.access == access
    &&& e.flags() == 0xc
    &&& e.limit() == 0xfffff
    &&& e.base() == v.base()
}

/// Fills in the kernel's GDT: flat kernel and user code and data segments, and a task state
/// segment descriptor for the TSS at `tss_base`. The null descriptor is left as it is.
pub fn init(gdt: &mut Gdt, tss_base: u32)
    ensures
        is_flat_segment(final(gdt).kernel_code@, old(gdt).kernel_code@, 0x9b),
        is_flat_segment(final(gdt).kernel_data@, old(gdt).kernel_data@, 0x93),
        is_flat_segment(final(gdt).user_code@, old(gdt).user_code@, 0xfb),
        is_flat_segment(final(gdt).user_data@, old(gdt).user_data@, 0xf3),
        final(gdt).tss@.access == 0x89,
        final(gdt).tss@.flags() == 0,
        final(gdt).tss@.base() == tss_base,
        final(gdt).tss@.limit() == TSS_LIMIT,
        final(gdt).null_segment@ == old(gdt).null_segment@,
{
    gdt.kernel_code.set_kernel_code().set_limit(0xfffff);
    gdt.kernel_data.set_kernel_data().set_limit(0xfffff);
    gdt.user_code.set_user_code().set_limit(0xfffff);
    gdt.user_data.set_user_data().set_limit(0xfffff);
    gdt.tss.set_tss().set_base(tss_base).set_limit(TSS_LIMIT);
}

} // verus!
