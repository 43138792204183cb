//! Architecture-level value types: privilege levels, segment selectors and addresses.

pub mod gdt;
pub mod idt;
pub mod paging;
pub mod port;
pub mod registers;

use vstd::prelude::*;

use crate::bits::lemma_bit_constants;

verus! {

/// CPU privilege level. Ring 0 is used by the kernel and ring 3 is used by userspace.
#[derive(Clone, Copy, PartialEq, Eq, Structural, Debug)]
pub enum PrivilegeLevel {
    Ring0,
    Ring1,
    Ring2,
    Ring3,
}

/// The two-bit encoding of a privilege level.
pub open spec fn privilege_bits(dpl: PrivilegeLevel) -> u16 {
    match dpl {
        PrivilegeLevel::Ring0 => 0,
        PrivilegeLevel::Ring1 => 1,
        PrivilegeLevel::Ring2 => 2,
        PrivilegeLevel::Ring3 => 3,
    }
}

/// The privilege level encoded by the two low bits of `bits`.
pub open spec fn privilege_of_bits(bits: u16) -> PrivilegeLevel {
    let low = bits & 3;
    if low == 0 {
        PrivilegeLevel::Ring0
    } else if low == 1 {
        PrivilegeLevel::Ring1
    } else if low == 2 {
        PrivilegeLevel::Ring2
    } else {
        PrivilegeLevel::Ring3
    }
}

impl PrivilegeLevel {
    /// Returns the numeric ring of this privilege level (0 to 3).
    pub fn as_u8(&self) -> (r: u8)
        ensures
            r as u16 == privilege_bits(*self),
    {
        match self {
            PrivilegeLevel::Ring0 => 0,
            PrivilegeLevel::Ring1 => 1,
            PrivilegeLevel::Ring2 => 2,
            PrivilegeLevel::Ring3 => 3,
        }
    }
}

/// Wrapper for protected mode segment selectors, which consist of an offset into the Global
/// Descriptor Table and a privilege level, and are loaded into the segment registers.
#[derive(Clone, Copy, Debug)]
pub struct SegmentSelector(u16);

impl View for SegmentSelector {
    type V = u16;

    /// The raw 16-bit selector value.
    closed spec fn view(&self) -> u16 {
        self.0
    }
}

/// The raw value of the selector for GDT offset `offset` and privilege level `dpl`.
pub open spec fn selector_bits(offset: u16, dpl: PrivilegeLevel) -> u16 {
    (offset & !7u16) | privilege_bits(dpl)
}

/// The GDT offset part of a raw selector value (its low three bits cleared).
pub open spec fn selector_offset(value: u16) -> u16 {
    value & !7u16
}

/// Byte offset of the kernel code descriptor within the GDT.
pub const KERNEL_CODE_OFFSET: u16 = 8;
/// Byte offset of the kernel data descriptor within the GDT.
pub const KERNEL_DATA_OFFSET: u16 = 16;
/// Byte offset of the user code descriptor within the GDT.
pub const USER_CODE_OFFSET: u16 = 24;
/// Byte offset of the user data descriptor within the GDT.
pub const USER_DATA_OFFSET: u16 = 32;
/// Byte offset of the task state segment descriptor within the GDT.
pub const TSS_OFFSET: u16 = 40;

/// The offset and privilege parts of a selector built from `offset` and `dpl` are exactly
/// `offset` with its low three bits cleared, and `dpl`.
pub proof fn lemma_selector_parts(offset: u16, dpl: PrivilegeLevel)
    ensures
        selector_offset(selector_bits(offset, dpl)) == selector_offset(offset),
        privilege_of_bits(selector_bits(offset, dpl)) == dpl,
{
    let b = privilege_bits(dpl);
    assert(((offset & !7u16) | b) & !7u16 == offset & !7u16 && ((offset & !7u16) | b) & 3 == b)
        by (bit_vector)
        requires
            b < 4,
    ;
}

impl SegmentSelector {
    /// Creates a new segment selector from a GDT offset and privilege level.
    pub fn new(offset: u16, dpl: PrivilegeLevel) -> (r: Self)
        ensures
            r@ == selector_bits(offset, dpl),
            selector_offset(r@) == selector_offset(offset),
            privilege_of_bits(r@) == dpl,
    {
        proof {
            lemma_selector_parts(offset, dpl);
        }
        let d: u8 = dpl.as_u8();
        let b: u16 = d as u16;
        SegmentSelector(offset & !7u16 | b)
    }

    /// Returns the segment selector for the GDT's kernel code segment.
    pub fn kernel_code() -> (r: Self)
        ensures
            r@ == 8,
            selector_offset(r@) == KERNEL_CODE_OFFSET,
            privilege_of_bits(r@) == PrivilegeLevel::Ring0,
    {
        let r = Self::new(KERNEL_CODE_OFFSET, PrivilegeLevel::Ring0);
        proof {
            lemma_bit_constants();
        }
        r
    }

    /// Returns the segment selector for the GDT's kernel data segment.
    pub fn kernel_data() -> (r: Self)
        ensures
            r@ == 16,
            selector_offset(r@) == KERNEL_DATA_OFFSET,
            privilege_of_bits(r@) == PrivilegeLevel::Ring0,
    {
        let r = Self::new(KERNEL_DATA_OFFSET, PrivilegeLevel::Ring0);
        proof {
            lemma_bit_constants();
        }
        r
    }

    /// Returns the segment selector for the GDT's user code segment.
    pub fn user_code() -> (r: Self)
        ensures
            r@ == 27,
            selector_offset(r@) == USER_CODE_OFFSET,
            privilege_of_bits(r@) == PrivilegeLevel::Ring3,
    {
        let r = Self::new(USER_CODE_OFFSET, PrivilegeLevel::Ring3);
        proof {
            lemma_bit_constants();
        }
        r
    }

    /// Returns the segment selector for the GDT's user data segment.
    pub fn user_data() -> (r: Self)
        ensures
            r@ == 35,
            selector_offset(r@) == USER_DATA_OFFSET,
            privilege_of_bits(r@) == PrivilegeLevel::Ring3,
    {
        let r = Self::new(USER_DATA_OFFSET, PrivilegeLevel::Ring3);
        proof {
            lemma_bit_constants();
        }
        r
    }

    /// Returns the segment selector for the GDT's task state segment, at ring 0.
    pub fn tss() -> (r: Self)
        ensures
            r@ == 40,
            selector_offset(r@) == TSS_OFFSET,
            privilege_of_bits(r@) == PrivilegeLevel::Ring0,
    {
        let r = Self::new(TSS_OFFSET, PrivilegeLevel::Ring0);
        proof {
            lemma_bit_constants();
        }
        r
    }

    /// Creates a segment selector from a raw u16 value, as read from a segment register.
    pub fn from_u16(value: u16) -> (r: Self)
        ensures
            r@ == value,
    {
        SegmentSelector(value)
    }

    /// Returns the raw u16 value of a segment selector, which can be loaded directly into a
    /// segment register.
    pub fn as_u16(&self) -> (r: u16)
        ensures
            r == self@,
    {
        self.0
    }

    /// Returns the GDT entry offset portion of the segment selector.
    pub fn offset(&self) -> (r: u16)
        ensures
            r == selector_offset(self@),
    {
        self.0 & !7u16
    }

    /// Returns the privilege level of the segment selector.
    pub fn dpl(&self) -> (r: PrivilegeLevel)
        ensures
            r == privilege_of_bits(self@),
    {
        let low = self.0 & 3;
        if low == 0 {
            PrivilegeLevel::Ring0
        } else if low == 1 {
            PrivilegeLevel::Ring1
        } else if low == 2 {
            PrivilegeLevel::Ring2
        } else {
            PrivilegeLevel::Ring3
        }
    }

    /// Returns whether the segment belongs to the kernel (privilege level is ring 0).
    pub fn is_kernel(&self) -> (r: bool)
        ensures
            r == (privilege_of_bits(self@) == PrivilegeLevel::Ring0),
            r == (self@ & 3 == 0),
    {
        self.dpl() == PrivilegeLevel::Ring0
    }
}

/// Rebuilding a selector from its own offset and privilege level gives back its raw value with
/// the table-indicator bit (bit 2) cleared.
pub proof fn lemma_selector_rebuild(value: u16)
    ensures
        selector_bits(selector_offset(value), privilege_of_bits(value)) == value & !4u16,
{
    let b = privilege_bits(privilege_of_bits(value));
    assert(b == value & 3) by {
        assert(value & 3 < 4) by (bit_vector);
    }
    assert(((value & !7u16) & !7u16) | (value & 3) == value & !4u16) by (bit_vector);
}

/// Virtual address wrapper.
#[derive(Clone, Copy, PartialEq, Eq, Structural, Debug)]
pub struct VirtAddr(u32);

impl View for VirtAddr {
    type V = u32;

    /// The raw address value.
    closed spec fn view(&self) -> u32 {
        self.0
    }
}

impl VirtAddr {
    /// Creates a virtual address from a raw u32 value.
    pub fn new(addr: u32) -> (r: Self)
        ensures
            r@ == addr,
    {
        VirtAddr(addr)
    }

    /// Returns the null virtual address.
    pub fn null() -> (r: Self)
        ensures
            r@ == 0,
    {
        VirtAddr(0)
    }

    /// Returns the raw u32 value of a virtual address.
    pub fn as_u32(&self) -> (r: u32)
        ensures
            r == self@,
    {
        self.0
    }
}

/// Physical address wrapper.
#[derive(Clone, Copy, PartialEq, Eq, Structural, Debug)]
pub struct PhysAddr(u32);

impl View for PhysAddr {
    type V = u32;

    /// The raw address value.
    closed spec fn view(&self) -> u32 {
        self.0
    }
}

impl PhysAddr {
    /// Creates a new physical address from a raw u32 value.
    pub fn new(addr: u32) -> (r: Self)
        ensures
            r@ == addr,
    {
        PhysAddr(addr)
    }

    /// Returns the raw u32 value of a physical address.
    pub fn as_u32(&self) -> (r: u32)
        ensures
            r == self@,
    {
        self.0
    }

    /// Returns whether the address lies on a 4 KiB page boundary.
    pub fn is_page_aligned(&self) -> (r: bool)
        ensures
            r == (self@ % 4096 == 0),
    {
        self.0 % 4096 == 0
    }
}

} // verus!
