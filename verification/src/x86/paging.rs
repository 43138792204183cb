//! Page table entries and page tables of 32-bit two-level paging.

use vstd::prelude::*;

use crate::x86::PhysAddr;

verus! {

/// Page size in bytes.
pub const PAGE_SIZE: usize = 4096;
/// Bitmask for aligning an address down to its page base.
pub const PAGE_MASK: u32 = 0xfffff000;

/// An entry in a page table or page directory, which maps a physical frame of memory to a page
/// in a virtual address space. Contains the physical address of the frame and access control
/// flags.
#[derive(Clone, Copy)]
pub struct PageTableEntry(u32);

impl View for PageTableEntry {
    type V = u32;

    /// The raw 32-bit entry.
    closed spec fn view(&self) -> u32 {
        self.0
    }
}

/// Whether bit `mask` of a raw entry is set.
pub open spec fn entry_flag(v: u32, mask: u32) -> bool {
    v & mask != 0
}

/// The raw entry after setting (`on`) or clearing the bits of `mask`.
pub open spec fn entry_with(v: u32, mask: u32, on: bool) -> u32 {
    if on {
        v | mask
    } else {
        v & !mask
    }
}

/// Setting or clearing a flag of an entry leaves it in the requested state and keeps every other
/// bit, in particular the frame address and the other flags.
pub proof fn lemma_entry_with(v: u32, mask: u32, on: bool)
    requires
        mask == 1 || mask == 2 || mask == 4 || mask == 512,
    ensures
        entry_flag(entry_with(v, mask, on), mask) == on,
        entry_with(v, mask, on) & !mask == v & !mask,
        entry_with(v, mask, on) & 0xfffff000u32 == v & 0xfffff000u32,
        mask != 1 ==> entry_flag(entry_with(v, mask, on), 1) == entry_flag(v, 1),
        mask != 2 ==> entry_flag(entry_with(v, mask, on), 2) == entry_flag(v, 2),
        mask != 4 ==> entry_flag(entry_with(v, mask, on), 4) == entry_flag(v, 4),
        mask != 512 ==> entry_flag(entry_with(v, mask, on), 512) == entry_flag(v, 512),
{
    let w = entry_with(v, mask, on);
    assert(((w & mask != 0) == on) && w & !mask == v & !mask && w & 0xfffff000u32 == v
        & 0xfffff000u32 && (mask != 1 ==> (w & 1 != 0) == (v & 1 != 0)) && (mask != 2 ==> (w & 2
        != 0) == (v & 2 != 0)) && (mask != 4 ==> (w & 4 != 0) == (v & 4 != 0)) && (mask != 512 ==> (w
        & 512 != 0) == (v & 512 != 0))) by (bit_vector)
        requires
            mask == 1 || mask == 2 || mask == 4 || mask == 512,
            w == (if on {
                v | mask
            } else {
                v & !mask
            }),
    ;
}

impl PageTableEntry {
    /// Present bit.
    const PRESENT: u32 = 1;
    /// Writable bit.
    const WRITABLE: u32 = 2;
    /// User-mode accessible bit.
    const USER: u32 = 4;
    /// Copy-on-write bit (one of the bits the processor leaves to the kernel).
    const COPY_ON_WRITE: u32 = 512;

    /// Creates an empty page table entry, with no address set and all flags cleared.
    pub fn empty() -> (r: Self)
        ensures
            r@ == 0,
    {
        PageTableEntry(0)
    }

    /// Creates a new page table entry mapping a physical frame address, marked present. The
    /// address must be page-aligned.
    pub fn new(addr: PhysAddr) -> (r: Self)
        requires
            addr@ % 4096 == 0,
        ensures
            r@ == addr@ | 1,
            r@ & 0xfffff000u32 == addr@,
            entry_flag(r@, 1),
            !entry_flag(r@, 2),
            !entry_flag(r@, 4),
            !entry_flag(r@, 512),
    {
        let a = addr.as_u32();
        assert((a | 1) & 0xfffff000u32 == a && (a | 1) & 1 != 0 && (a | 1) & 2 == 0 && (a | 1) & 4
            == 0 && (a | 1) & 512 == 0) by (bit_vector)
            requires
                a % 4096 == 0,
        ;
        PageTableEntry(a | Self::PRESENT)
    }

    /// Returns the page frame physical address that this page table entry maps to.
    pub fn frame(&self) -> (r: PhysAddr)
        ensures
            r@ == self@ & 0xfffff000u32,
    {
        PhysAddr::new(self.0 & PAGE_MASK)
    }

    /// Returns whether the Present bit is set.
    pub fn is_present(&self) -> (r: bool)
        ensures
            r == entry_flag(self@, 1),
    {
        self.0 & Self::PRESENT != 0
    }

    /// Sets the value of the Present bit.
    pub fn set_present(&mut self, value: bool) -> (r: &mut Self)
        ensures
            r@ == entry_with(old(self)@, 1, value),
            entry_flag(r@, 1) == value,
            r@ & 0xfffff000u32 == old(self)@ & 0xfffff000u32,
            final(self)@ == final(r)@,
    {
        proof {
            lemma_entry_with(self@, 1, value);
        }
        if value {
            self.0 = self.0 | Self::PRESENT;
        } else {
            self.0 = self.0 & !Self::PRESENT;
        }
        self
    }

    /// Returns the value of the Writable bit.
    pub fn is_writable(&self) -> (r: bool)
        ensures
            r == entry_flag(self@, 2),
    {
        self.0 & Self::WRITABLE != 0
    }

    /// Sets the value of the Writable bit.
    pub fn set_writable(&mut self, value: bool) -> (r: &mut Self)
        ensures
            r@ == entry_with(old(self)@, 2, value),
            entry_flag(r@, 2) == value,
            r@ & 0xfffff000u32 == old(self)@ & 0xfffff000u32,
            final(self)@ == final(r)@,
    {
        proof {
            lemma_entry_with(self@, 2, value);
        }
        if value {
            self.0 = self.0 | Self::WRITABLE;
        } else {
            self.0 = self.0 & !Self::WRITABLE;
        }
        self
    }

    /// Returns the value of the User bit.
    pub fn is_user(&self) -> (r: bool)
        ensures
            r == entry_flag(self@, 4),
    {
        self.0 & Self::USER != 0
    }

    /// Sets the value of the User bit.
    pub fn set_user(&mut self, value: bool) -> (r: &mut Self)
        ensures
            r@ == entry_with(old(self)@, 4, value),
            entry_flag(r@, 4) == value,
            r@ & 0xfffff000u32 == old(self)@ & 0xfffff000u32,
            final(self)@ == final(r)@,
    {
        proof {
            lemma_entry_with(self@, 4, value);
        }
        if value {
            self.0 = self.0 | Self::USER;
        } else {
            self.0 = self.0 & !Self::USER;
        }
        self
    }

    /// Returns the value of the Copy On Write bit.
    pub fn is_copy_on_write(&self) -> (r: bool)
        ensures
            r == entry_flag(self@, 512),
    {
        self.0 & Self::COPY_ON_WRITE != 0
    }

    /// Sets the value of the Copy on Write bit.
    pub fn set_copy_on_write(&mut self, value: bool) -> (r: &mut Self)
        ensures
            r@ == entry_with(old(self)@, 512, value),
            entry_flag(r@, 512) == value,
            r@ & 0xfffff000u32 == old(self)@ & 0xfffff000u32,
            final(self)@ == final(r)@,
    {
        proof {
            lemma_entry_with(self@, 512, value);
        }
        if value {
            self.0 = self.0 | Self::COPY_ON_WRITE;
        } else {
            self.0 = self.0 & !Self::COPY_ON_WRITE;
        }
        self
    }
}

/// A page table, i.e. a page containing an array of 1024 page table entries. The `PageTable`
/// type may be used as either an L1 page directory or L2 page table.
pub struct PageTable {
    entries: [PageTableEntry; 1024],
}

impl PageTable {
    /// Number of entries in a page table.
    pub const ENTRIES: usize = 1024;

    /// Returns a new empty page table.
    pub fn new() -> (r: Self)
        ensures
            forall|i: int| 0 <= i < 1024 ==> (#[trigger] r.raw()[i]) == 0,
            r.raw().len() == 1024,
    {
        let r = PageTable { entries: [PageTableEntry(0); 1024] };
        r
    }

    /// The raw entries.
    pub closed spec fn raw(&self) -> Seq<u32> {
        self.entries@.map_values(|e: PageTableEntry| e@)
    }

    /// A page table always has its 1024 entries.
    pub proof fn lemma_len(&self)
        ensures
            self.raw().len() == 1024,
    {
    }

    /// Returns the entry at `index`.
    pub fn index(&self, index: usize) -> (r: &PageTableEntry)
        requires
            index < 1024,
        ensures
            r@ == self.raw()[index as int],
    {
        &self.entries[index]
    }

    /// Returns the entry at `index` for modification.
    pub fn index_mut(&mut self, index: usize) -> (r: &mut PageTableEntry)
        requires
            index < 1024,
        ensures
            r@ == old(self).raw()[index as int],
            final(self).raw() == old(self).raw().update(index as int, final(r)@),
    {
        &mut self.entries[index]
    }
}

} // verus!
