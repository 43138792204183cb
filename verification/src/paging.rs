//! The kernel's two-level page tables and its stack of free physical page frames.
//!
//! The page tables are held as they lie in physical memory: each 4 KiB physical frame holds a
//! table of 1024 raw entries, and the page directory is the table in the directory's own frame.
//! A directory entry names the frame whose table maps its 4 MiB region, so two directory entries
//! that name one frame share its table, and a frame that comes back off the free stack to hold a
//! new page table keeps the entries written into it before. A frame that no page-table write has
//! touched reads as empty entries; what other code stores in a frame while it serves as a data
//! page is not part of this state.

use vstd::prelude::*;

use crate::bits::lemma_bit_constants;
use crate::bits::lemma_u32_mask;
use crate::bits::lemma_u32_frame_number;
use crate::bits::lemma_u32_page_indices;
use crate::bits::lemma_u32_page_split;

verus! {

/// Page size in bytes.
const PAGE_SIZE: u32 = 4096;
/// Bitmask selecting the frame address of an entry.
const PAGE_MASK: u32 = 0xfffff000;
/// Present attribute bit.
const PAGE_PRESENT: u32 = 1;
/// Writable attribute bit.
const PAGE_WRITABLE: u32 = 2;
/// User-mode accessible attribute bit.
const PAGE_USER: u32 = 4;
/// Copy-on-write attribute bit (one of the bits the processor leaves to the kernel).
const PAGE_COW: u32 = 512;

/// Number of entries in a page directory or page table.
const ENTRIES_PER_TABLE: usize = 1024;
/// Number of 4 KiB physical frames in the 32-bit physical address space.
const TOTAL_FRAMES: usize = 1048576;

/// Error returned if an attempt to allocate a page fails because the system is out of memory.
#[derive(Debug, Clone, Copy, PartialEq, Eq, Structural)]
pub struct OutOfMemoryError;

/// Type of a virtual memory page to map, represented as a set of attribute flags.
#[derive(Debug, Clone, Copy, PartialEq, Eq, Structural)]
pub enum PageType {
    KernelReadonly,
    KernelWritable,
    UserReadonly,
    UserWritable,
}

/// The attribute flags of a page type: present, plus writable and user as the type says.
pub open spec fn page_type_bits(t: PageType) -> u32 {
    match t {
        PageType::KernelReadonly => 1,
        PageType::KernelWritable => 3,
        PageType::UserReadonly => 5,
        PageType::UserWritable => 7,
    }
}

impl PageType {
    /// Returns the attribute flags of this page type.
    pub fn bits(&self) -> (r: u32)
        ensures
            r == page_type_bits(*self),
    {
        proof {
            lemma_bit_constants();
        }
        match self {
            PageType::KernelReadonly => PAGE_PRESENT,
            PageType::KernelWritable => PAGE_PRESENT | PAGE_WRITABLE,
            PageType::UserReadonly => PAGE_PRESENT | PAGE_USER,
            PageType::UserWritable => PAGE_PRESENT | PAGE_USER | PAGE_WRITABLE,
        }
    }
}

/// The raw value of an entry mapping the frame of `addr` as a page of type `t`.
pub open spec fn pte_bits(addr: u32, t: PageType) -> u32 {
    (addr & 0xfffff000u32) | page_type_bits(t)
}

/// The frame address held in a raw entry.
pub open spec fn frame_of(v: u32) -> u32 {
    v & 0xfffff000u32
}

/// Whether the present bit of a raw entry is set.
pub open spec fn present(v: u32) -> bool {
    v & 1 != 0
}

/// The raw value after setting (`on`) or clearing the bits of `mask`.
pub open spec fn with_flag(v: u32, mask: u32, on: bool) -> u32 {
    if on {
        v | mask
    } else {
        v & !mask
    }
}

/// Setting or clearing a flag leaves it in the requested state and every other bit alone.
pub proof fn lemma_with_flag(v: u32, mask: u32, on: bool)
    requires
        mask != 0,
    ensures
        (with_flag(v, mask, on) & mask != 0) == on,
        with_flag(v, mask, on) & !mask == v & !mask,
{
    lemma_u32_mask(v, mask);
}

/// The entry built from an address and a page type holds the frame of the address, is present,
/// and is writable, user-accessible or copy-on-write exactly as the page type says.
pub proof fn lemma_pte_bits(addr: u32, t: PageType)
    ensures
        frame_of(pte_bits(addr, t)) == frame_of(addr),
        present(pte_bits(addr, t)),
        (pte_bits(addr, t) & 2 != 0) == (t == PageType::KernelWritable || t
            == PageType::UserWritable),
        (pte_bits(addr, t) & 4 != 0) == (t == PageType::UserReadonly || t
            == PageType::UserWritable),
        pte_bits(addr, t) & 512 == 0,
{
    let b = page_type_bits(t);
    lemma_u32_page_split(addr, b);
    let v = pte_bits(addr, t);
    assert(v & 1 == (v & 0xfff) & 1);
    assert(v & 2 == (v & 0xfff) & 2);
    assert(v & 4 == (v & 0xfff) & 4);
    assert(v & 512 == (v & 0xfff) & 512);
    assert(b & 1 != 0 && b & 512 == 0 && (b & 2 != 0) == (b == 3 || b == 7) && (b & 4 != 0) == (
    b == 5 || b == 7)) by (bit_vector)
        requires
            b == 1 || b == 3 || b == 5 || b == 7,
    ;
}

/// The raw value after applying, in order, each `(mask, on)` flag setting of `ops`.
pub open spec fn with_flags(v: u32, ops: Seq<(u32, bool)>) -> u32
    decreases ops.len(),
{
    if ops.len() == 0 {
        v
    } else {
        with_flag(with_flags(v, ops.drop_last()), ops.last().0, ops.last().1)
    }
}

/// Whether `m` is one of the flag bits an entry's setters change: present, writable, user or
/// copy-on-write.
pub open spec fn is_entry_flag(m: u32) -> bool {
    m == 1 || m == 2 || m == 4 || m == 512
}

/// Setting or clearing one of the entry flags keeps the frame address.
proof fn lemma_with_flag_frame(v: u32, mask: u32, on: bool)
    requires
        is_entry_flag(mask),
    ensures
        frame_of(with_flag(v, mask, on)) == frame_of(v),
{
    let w = with_flag(v, mask, on);
    assert(w & 0xfffff000u32 == v & 0xfffff000u32) by (bit_vector)
        requires
            mask == 1 || mask == 2 || mask == 4 || mask == 512,
            w == (if on {
                v | mask
            } else {
                v & !mask
            }),
    ;
}

/// An entry made by `Pte::new` keeps the page-aligned frame of its address through any sequence
/// of calls of `set_present`, `set_writable`, `set_user` and `set_cow`.
pub proof fn lemma_setters_keep_frame(addr: u32, t: PageType, ops: Seq<(u32, bool)>)
    requires
        forall|i: int| 0 <= i < ops.len() ==> is_entry_flag(#[trigger] ops[i].0),
    ensures
        frame_of(with_flags(pte_bits(addr, t), ops)) == addr & 0xfffff000u32,
        frame_of(with_flags(pte_bits(addr, t), ops)) % 4096 == 0,
    decreases ops.len(),
{
    if ops.len() == 0 {
        lemma_pte_bits(addr, t);
    } else {
        lemma_setters_keep_frame(addr, t, ops.drop_last());
        assert(is_entry_flag(ops[ops.len() - 1].0));
        lemma_with_flag_frame(with_flags(pte_bits(addr, t), ops.drop_last()), ops.last().0, ops.last().1);
    }
    let f = frame_of(with_flags(pte_bits(addr, t), ops));
    assert(f == addr & 0xfffff000u32 ==> f % 4096 == 0) by (bit_vector);
}

/// Page table entry. Contains the upper 20 bits of the address of the page, as well as its
/// attribute flags that mark the page present, writable, user-mode accessible, or copy-on-write.
#[derive(Clone, Copy, Default, Debug)]
pub struct Pte {
    pte: u32,
}

impl View for Pte {
    type V = u32;

    /// The raw 32-bit entry.
    closed spec fn view(&self) -> u32 {
        self.pte
    }
}

impl Pte {
    /// Returns an empty page table entry.
    pub fn empty() -> (r: Self)
        ensures
            r@ == 0,
    {
        Pte { pte: 0 }
    }

    /// Returns a new page table entry for the given physical address, with flags set according
    /// to the page type specified.
    pub fn new(addr: u32, ptype: PageType) -> (r: Self)
        ensures
            r@ == pte_bits(addr, ptype),
    {
        Pte { pte: addr & PAGE_MASK | ptype.bits() }
    }

    /// Returns the base address of the physical page specified by this page table entry.
    pub fn addr(&self) -> (r: u32)
        ensures
            r == frame_of(self@),
    {
        self.pte & PAGE_MASK
    }

    /// Returns whether the page is currently marked present.
    pub fn is_present(&self) -> (r: bool)
        ensures
            r == present(self@),
    {
        self.pte & PAGE_PRESENT != 0
    }

    /// Sets the present attribute of this page to the given setting.
    pub fn set_present(&mut self, setting: bool)
        ensures
            final(self)@ == with_flag(old(self)@, 1, setting),
            present(final(self)@) == setting,
            final(self)@ & !1u32 == old(self)@ & !1u32,
    {
        proof {
            lemma_with_flag(self@, 1, setting);
        }
        if setting {
            self.pte = self.pte | PAGE_PRESENT;
        } else {
            self.pte = self.pte & !PAGE_PRESENT;
        }
    }

    /// Returns whether the page is currently marked writable.
    pub fn is_writable(&self) -> (r: bool)
        ensures
            r == (self@ & 2 != 0),
    {
        self.pte & PAGE_WRITABLE != 0
    }

    /// Sets the writable attribute of this page to the given setting.
    pub fn set_writable(&mut self, setting: bool)
        ensures
            final(self)@ == with_flag(old(self)@, 2, setting),
            (final(self)@ & 2 != 0) == setting,
            final(self)@ & !2u32 == old(self)@ & !2u32,
    {
        proof {
            lemma_with_flag(self@, 2, setting);
        }
        if setting {
            self.pte = self.pte | PAGE_WRITABLE;
        } else {
            self.pte = self.pte & !PAGE_WRITABLE;
        }
    }

    /// Returns whether the page is currently marked user-mode accessible.
    pub fn is_user(&self) -> (r: bool)
        ensures
            r == (self@ & 4 != 0),
    {
        self.pte & PAGE_USER != 0
    }

    /// Sets the user-mode accessible attribute of this page to the given setting.
    pub fn set_user(&mut self, setting: bool)
        ensures
            final(self)@ == with_flag(old(self)@, 4, setting),
            (final(self)@ & 4 != 0) == setting,
            final(self)@ & !4u32 == old(self)@ & !4u32,
    {
        proof {
            lemma_with_flag(self@, 4, setting);
        }
        if setting {
            self.pte = self.pte | PAGE_USER;
        } else {
            self.pte = self.pte & !PAGE_USER;
        }
    }

    /// Returns whether the page is currently marked copy-on-write.
    pub fn is_cow(&self) -> (r: bool)
        ensures
            r == (self@ & 512 != 0),
    {
        self.pte & PAGE_COW != 0
    }

    /// Sets the copy-on-write attribute of this page to the given setting.
    pub fn set_cow(&mut self, setting: bool)
        ensures
            final(self)@ == with_flag(old(self)@, 512, setting),
            (final(self)@ & 512 != 0) == setting,
            final(self)@ & !512u32 == old(self)@ & !512u32,
    {
        proof {
            lemma_with_flag(self@, 512, setting);
        }
        if setting {
            self.pte = self.pte | PAGE_COW;
        } else {
            self.pte = self.pte & !PAGE_COW;
        }
    }
}


/// The directory slot of a virtual address.
pub open spec fn dir_slot(addr: u32) -> int {
    (addr >> 22u32) as int
}

/// The page number of a virtual address.
pub open spec fn page_number(addr: u32) -> int {
    (addr >> 12u32) as int
}

/// The slot of a virtual address's entry within its page table.
pub open spec fn table_slot(addr: u32) -> int {
    page_number(addr) % 1024
}

/// The number of the physical frame that holds physical address `f`.
pub open spec fn frame_number(f: u32) -> int {
    (f >> 12u32) as int
}

/// `x + 1` in wrapping machine arithmetic.
pub open spec fn wrap_inc(x: usize) -> usize {
    if x == usize::MAX {
        0
    } else {
        (x + 1) as usize
    }
}

/// `x - 1` in wrapping machine arithmetic.
pub open spec fn wrap_dec(x: usize) -> usize {
    if x == 0 {
        usize::MAX
    } else {
        (x - 1) as usize
    }
}

/// The 1024 entries of a table that no write has touched: all empty.
pub open spec fn empty_table() -> Seq<u32> {
    Seq::new(1024, |i: int| 0u32)
}

/// Physical memory that no page-table write has touched: every frame reads as an empty table.
pub open spec fn empty_memory() -> Seq<Seq<u32>> {
    Seq::new(1048576, |i: int| empty_table())
}

/// The table of entries held in the frame of physical address `f`.
pub open spec fn table_in(memory: Seq<Seq<u32>>, f: u32) -> Seq<u32> {
    memory[frame_number(f)]
}

/// Memory after writing `val` as entry `i` of the table in the frame of `f`.
pub open spec fn stored(memory: Seq<Seq<u32>>, f: u32, i: int, val: u32) -> Seq<Seq<u32>> {
    memory.update(frame_number(f), memory[frame_number(f)].update(i, val))
}

/// The directory entry of `addr`, in the directory held in the frame of `directory_frame`.
pub open spec fn dir_entry_in(memory: Seq<Seq<u32>>, directory_frame: u32, addr: u32) -> u32 {
    table_in(memory, directory_frame)[dir_slot(addr)]
}

/// The page table entry of `addr`: its slot in the page table held in the frame that its
/// directory entry names.
pub open spec fn entry_in(memory: Seq<Seq<u32>>, directory_frame: u32, addr: u32) -> u32 {
    table_in(memory, frame_of(dir_entry_in(memory, directory_frame, addr)))[table_slot(addr)]
}

/// The paging state as plain values: the physical frame holding the page directory, the 1024
/// raw entries held in each physical frame (indexed by frame number), the free frame stack (top
/// last) and the count of pages in use.
#[verifier::ext_equal]
pub struct PagingView {
    pub directory_frame: u32,
    pub memory: Seq<Seq<u32>>,
    pub stack: Seq<u32>,
    pub pages_used: usize,
}

/// The raw page directory of state `v`.
pub open spec fn directory_of(v: PagingView) -> Seq<u32> {
    table_in(v.memory, v.directory_frame)
}

/// The directory entry of `addr` in state `v`.
pub open spec fn dir_entry(v: PagingView, addr: u32) -> u32 {
    dir_entry_in(v.memory, v.directory_frame, addr)
}

/// The physical frame that the directory entry of `addr` names as its page table.
pub open spec fn table_frame(v: PagingView, addr: u32) -> u32 {
    frame_of(dir_entry(v, addr))
}

/// The page table entry of `addr` in state `v`.
pub open spec fn entry_of(v: PagingView, addr: u32) -> u32 {
    entry_in(v.memory, v.directory_frame, addr)
}

/// Where the directory entry of `addr` is held: a frame number and a slot.
pub open spec fn dir_location(v: PagingView, addr: u32) -> (int, int) {
    (frame_number(v.directory_frame), dir_slot(addr))
}

/// Where the page table entry of `addr` is held: a frame number and a slot.
pub open spec fn entry_location(v: PagingView, addr: u32) -> (int, int) {
    (frame_number(table_frame(v, addr)), table_slot(addr))
}

/// State `v` with the page table entry of `addr` replaced by `val`.
pub open spec fn with_entry(v: PagingView, addr: u32, val: u32) -> PagingView {
    PagingView { memory: stored(v.memory, table_frame(v, addr), table_slot(addr), val), ..v }
}

/// The physical frame that `addr` maps to: the frame of its page table entry, when both
/// its directory entry and its page table entry are present.
pub open spec fn mapped_frame(v: PagingView, addr: u32) -> Option<u32> {
    if present(dir_entry(v, addr)) && present(entry_of(v, addr)) {
        Some(frame_of(entry_of(v, addr)))
    } else {
        None
    }
}

/// Whether mapping a page at `vaddr` succeeds: its page table is present, or a free frame is
/// left to hold a new one.
pub open spec fn map_succeeds(v: PagingView, vaddr: u32) -> bool {
    present(dir_entry(v, vaddr)) || v.stack.len() > 0
}

/// The state after taking the top frame off the free stack, if there is one.
pub open spec fn pop_view(v: PagingView) -> PagingView {
    if v.stack.len() == 0 {
        v
    } else {
        PagingView { stack: v.stack.drop_last(), pages_used: wrap_inc(v.pages_used), ..v }
    }
}

/// The state after making sure `vaddr` has a page table: a missing one is given the top free
/// frame, mapped kernel-writable, and keeps whatever entries that frame holds; without a free
/// frame nothing changes.
pub open spec fn with_table(v: PagingView, vaddr: u32) -> PagingView {
    if present(dir_entry(v, vaddr)) || v.stack.len() == 0 {
        v
    } else {
        PagingView {
            memory: stored(
                v.memory,
                v.directory_frame,
                dir_slot(vaddr),
                pte_bits(v.stack.last(), PageType::KernelWritable),
            ),
            stack: v.stack.drop_last(),
            pages_used: wrap_inc(v.pages_used),
            ..v
        }
    }
}

/// The state after mapping `paddr` at `vaddr` as a page of type `t`. A missing page table is
/// first given the top free frame; without a free frame nothing changes.
pub open spec fn map_page_view(v: PagingView, vaddr: u32, paddr: u32, t: PageType) -> PagingView {
    if map_succeeds(v, vaddr) {
        with_entry(with_table(v, vaddr), vaddr, pte_bits(paddr, t))
    } else {
        v
    }
}

/// The state after allocating the top free frame for `vaddr`: the frame is taken off the stack
/// and mapped; without a free frame nothing changes.
pub open spec fn alloc_page_view(v: PagingView, vaddr: u32, t: PageType) -> PagingView {
    if v.stack.len() == 0 {
        v
    } else {
        map_page_view(pop_view(v), vaddr, v.stack.last(), t)
    }
}

/// Whether allocating a page at `vaddr` succeeds: a frame for the page, and a second one when
/// its page table is missing.
pub open spec fn alloc_succeeds(v: PagingView, vaddr: u32) -> bool {
    v.stack.len() > 0 && map_succeeds(pop_view(v), vaddr)
}

/// The state after freeing the page at `vaddr`: when a page is mapped there, the frame held by
/// its entry goes back on the stack and the entry is marked not present; otherwise nothing
/// changes.
pub open spec fn free_page_view(v: PagingView, vaddr: u32) -> PagingView {
    if mapped_frame(v, vaddr) is Some {
        let e = entry_of(v, vaddr);
        with_entry(
            PagingView { stack: v.stack.push(frame_of(e)), pages_used: wrap_dec(v.pages_used), ..v },
            vaddr,
            with_flag(e, 1, false),
        )
    } else {
        v
    }
}

/// Whether a view has the sizes of the real memory: a table of 1024 entries for each of the
/// 2^20 frames.
pub open spec fn full_size(v: PagingView) -> bool {
    &&& v.memory.len() == 1048576
    &&& forall|k: int| 0 <= k < v.memory.len() ==> (#[trigger] v.memory[k]).len() == 1024
}

/// Replacing one entry replaces its raw value and no other.
proof fn lemma_raw_update(s: Seq<Pte>, i: int)
    requires
        0 <= i < s.len(),
    ensures
        forall|x: Pte|
            (#[trigger] s.update(i, x)).map_values(|p: Pte| p@) == s.map_values(|p: Pte| p@).update(
                i,
                x@,
            ),
{
    assert forall|x: Pte|
        (#[trigger] s.update(i, x)).map_values(|p: Pte| p@) == s.map_values(|p: Pte| p@).update(
            i,
            x@,
        ) by {
        assert(s.update(i, x).map_values(|p: Pte| p@) =~= s.map_values(|p: Pte| p@).update(
            i,
            x@,
        ));
    }
}

/// Writing back the value an entry already holds leaves memory as it was.
proof fn lemma_stored_same(memory: Seq<Seq<u32>>, f: u32, i: int)
    requires
        0 <= frame_number(f) < memory.len(),
        0 <= i < memory[frame_number(f)].len(),
    ensures
        stored(memory, f, i, memory[frame_number(f)][i]) == memory,
{
    let n = frame_number(f);
    assert(memory[n].update(i, memory[n][i]) =~= memory[n]);
    assert(stored(memory, f, i, memory[n][i]) =~= memory);
}

/// Returns the page directory index for the given virtual address.
fn directory_index(addr: u32) -> (r: usize)
    ensures
        r == dir_slot(addr),
        r < 1024,
{
    proof {
        lemma_u32_page_indices(addr);
    }
    (addr >> 22u32) as usize
}

/// Returns the page table index for the given virtual address.
fn table_index(addr: u32) -> (r: usize)
    ensures
        r == table_slot(addr),
        r < 1024,
{
    proof {
        lemma_u32_page_indices(addr);
    }
    (addr >> 12u32) as usize % ENTRIES_PER_TABLE
}

/// The raw entries of a frame's table: what has been written there, or empty entries where the
/// frame holds no table yet.
spec fn table_view(t: Vec<Pte>) -> Seq<u32> {
    if t@.len() == 1024 {
        t@.map_values(|p: Pte| p@)
    } else {
        empty_table()
    }
}

/// Replacing one frame's table replaces its view and no other.
proof fn lemma_frames_update(s: Seq<Vec<Pte>>, i: int)
    requires
        0 <= i < s.len(),
    ensures
        forall|t: Vec<Pte>|
            (#[trigger] s.update(i, t)).map_values(|x: Vec<Pte>| table_view(x)) == s.map_values(
                |x: Vec<Pte>| table_view(x),
            ).update(i, table_view(t)),
{
    assert forall|t: Vec<Pte>|
        (#[trigger] s.update(i, t)).map_values(|x: Vec<Pte>| table_view(x)) == s.map_values(
            |x: Vec<Pte>| table_view(x),
        ).update(i, table_view(t)) by {
        assert(s.update(i, t).map_values(|x: Vec<Pte>| table_view(x)) =~= s.map_values(
            |x: Vec<Pte>| table_view(x),
        ).update(i, table_view(t)));
    }
}

/// The page tables as they lie in physical memory: the table held in each physical frame,
/// indexed by frame number (a frame that holds no table yet has none stored), and the frame
/// that holds the page directory.
pub struct PageTables {
    frames: Vec<Vec<Pte>>,
    directory_frame: u32,
    blank: Pte,
}

impl PageTables {
    /// There is a place for every frame, and the entry read from a frame without a table is empty.
    pub closed spec fn wf(&self) -> bool {
        &&& self.frames.len() == TOTAL_FRAMES
        &&& self.blank@ == 0
    }

    /// The raw entries held in each frame, indexed by frame number.
    pub closed spec fn memory(&self) -> Seq<Seq<u32>> {
        self.frames@.map_values(|t: Vec<Pte>| table_view(t))
    }

    /// The physical frame that holds the directory.
    pub closed spec fn self_frame(&self) -> u32 {
        self.directory_frame
    }

    /// Shape facts that follow from well-formedness.
    proof fn lemma_shape(&self)
        requires
            self.wf(),
        ensures
            self.memory().len() == 1048576,
            forall|k: int| 0 <= k < 1048576 ==> (#[trigger] self.memory()[k]).len() == 1024,
    {
    }

    /// Returns entry `i` of the table held in the frame of `f`.
    fn read(&self, f: u32, i: usize) -> (r: &Pte)
        requires
            self.wf(),
            i < 1024,
        ensures
            r@ == self.memory()[frame_number(f)][i as int],
    {
        proof {
            lemma_u32_frame_number(f, f);
        }
        let fi = (f >> 12u32) as usize;
        if self.frames[fi].len() == ENTRIES_PER_TABLE {
            &self.frames[fi][i]
        } else {
            &self.blank
        }
    }

    /// Returns entry `i` of the table held in the frame of `f`, for modification.
    fn entry_mut(&mut self, f: u32, i: usize) -> (r: &mut Pte)
        requires
            old(self).wf(),
            i < 1024,
        ensures
            r@ == old(self).memory()[frame_number(f)][i as int],
            final(self).memory() == stored(old(self).memory(), f, i as int, final(r)@),
            final(self).directory_frame == old(self).directory_frame,
            final(self).wf(),
    {
        proof {
            lemma_u32_frame_number(f, f);
        }
        let fi = (f >> 12u32) as usize;
        if self.frames[fi].len() != ENTRIES_PER_TABLE {
            proof {
                lemma_frames_update(self.frames@, fi as int);
            }
            self.frames.set(fi, empty_entries(ENTRIES_PER_TABLE));
            assert(self.memory() =~= old(self).memory());
        }
        let ghost mid = self.frames@;
        proof {
            lemma_frames_update(mid, fi as int);
            lemma_raw_update(mid[fi as int]@, i as int);
        }
        &mut self.frames[fi][i]
    }
}

impl Pte {
    /// Returns an optional reference to the page table entry for the given virtual address, or
    /// None if the page table for this address is not mapped into the page directory.
    pub fn lookup(tables: &PageTables, addr: u32) -> (r: Option<&Pte>)
        requires
            tables.wf(),
        ensures
            r is Some == present(dir_entry_in(tables.memory(), tables.self_frame(), addr)),
            r is Some ==> r->0@ == entry_in(tables.memory(), tables.self_frame(), addr),
    {
        let dir_entry = tables.read(tables.directory_frame, directory_index(addr));
        if dir_entry.is_present() {
            Some(tables.read(dir_entry.addr(), table_index(addr)))
        } else {
            None
        }
    }

    /// Returns an optional mutable reference to the page table entry for the given virtual
    /// address, or None if the page table for this address is not mapped into the page directory.
    pub fn lookup_mut(tables: &mut PageTables, addr: u32) -> (r: Option<&mut Pte>)
        requires
            old(tables).wf(),
        ensures
            r is Some == present(dir_entry_in(old(tables).memory(), old(tables).self_frame(), addr)),
            r is Some ==> r->0@ == entry_in(old(tables).memory(), old(tables).self_frame(), addr),
            r is Some ==> final(tables).memory() == stored(
                old(tables).memory(),
                frame_of(dir_entry_in(old(tables).memory(), old(tables).self_frame(), addr)),
                table_slot(addr),
                final(r->0)@,
            ),
            r is None ==> final(tables).memory() == old(tables).memory(),
            final(tables).self_frame() == old(tables).self_frame(),
            final(tables).wf(),
    {
        let dir_entry = *tables.read(tables.directory_frame, directory_index(addr));
        if dir_entry.is_present() {
            Some(tables.entry_mut(dir_entry.addr(), table_index(addr)))
        } else {
            None
        }
    }
}

/// The stack of free physical page frames; the top of the stack is the last element.
pub struct PageStack {
    pages: Vec<u32>,
}

impl PageStack {
    /// Pushes a free frame, and counts one page fewer in use.
    fn push(&mut self, used: &mut usize, addr: u32)
        ensures
            final(self).pages@ == old(self).pages@.push(addr),
            *final(used) == wrap_dec(*old(used)),
    {
        self.pages.push(addr);
        *used = used.wrapping_sub(1);
    }

    /// Pops the top free frame and counts one page more in use, or fails when no frame is left.
    fn pop(&mut self, used: &mut usize) -> (r: Result<u32, OutOfMemoryError>)
        ensures
            old(self).pages.len() == 0 ==> r is Err && final(self).pages@ == old(self).pages@
                && *final(used) == *old(used),
            old(self).pages.len() > 0 ==> r == Ok::<u32, OutOfMemoryError>(old(self).pages@.last())
                && final(self).pages@ == old(self).pages@.drop_last() && *final(used) == wrap_inc(
                *old(used),
            ),
    {
        match self.pages.len() {
            0 => Err(OutOfMemoryError),
            _ => {
                *used = used.wrapping_add(1);
                let top = self.pages.pop().unwrap();
                Ok(top)
            },
        }
    }
}

/// The kernel's paging state: page tables, free frame stack and the count of pages in use.
pub struct Paging {
    tables: PageTables,
    stack: PageStack,
    pages_used: usize,
}

impl View for Paging {
    type V = PagingView;

    closed spec fn view(&self) -> PagingView {
        PagingView {
            directory_frame: self.tables.directory_frame,
            memory: self.tables.memory(),
            stack: self.stack.pages@,
            pages_used: self.pages_used,
        }
    }
}

impl Paging {
    /// The tables have their full sizes.
    pub closed spec fn wf(&self) -> bool {
        self.tables.wf()
    }

    /// Returns the number of pages in use.
    pub fn pages_used(&self) -> (r: usize)
        ensures
            r == self@.pages_used,
    {
        self.pages_used
    }

    /// Returns the page directory and page tables.
    pub fn tables(&self) -> (r: &PageTables)
        ensures
            r.memory() == self@.memory,
            r.self_frame() == self@.directory_frame,
            r.wf() == self.wf(),
    {
        &self.tables
    }

    /// Returns the page directory and page tables for modification.
    pub fn tables_mut(&mut self) -> (r: &mut PageTables)
        ensures
            r.memory() == old(self)@.memory,
            r.self_frame() == old(self)@.directory_frame,
            r.wf() == old(self).wf(),
            final(self)@ == (PagingView {
                directory_frame: final(r).self_frame(),
                memory: final(r).memory(),
                stack: old(self)@.stack,
                pages_used: old(self)@.pages_used,
            }),
            final(self).wf() == final(r).wf(),
    {
        &mut self.tables
    }

    /// Shape facts that follow from well-formedness.
    pub proof fn lemma_wf(&self)
        requires
            self.wf(),
        ensures
            full_size(self@),
    {
        self.tables.lemma_shape();
    }
}

/// A table of `n` empty entries.
fn empty_entries(n: usize) -> (r: Vec<Pte>)
    ensures
        r@.len() == n,
        r@.map_values(|p: Pte| p@) == Seq::new(n as nat, |i: int| 0u32),
{
    let mut entries: Vec<Pte> = Vec::new();
    while entries.len() < n
        invariant
            entries.len() <= n,
            forall|i: int| 0 <= i < entries.len() ==> (#[trigger] entries@[i])@ == 0,
        decreases n - entries.len(),
    {
        entries.push(Pte::empty());
    }
    assert(entries@.map_values(|p: Pte| p@) =~= Seq::new(n as nat, |i: int| 0u32));
    entries
}

impl Paging {
    /// Returns the paging state before initialization, for a page directory held in the frame
    /// of physical address `directory`: every frame holds empty entries, no frames are free and
    /// no pages are in use.
    pub fn new(directory: u32) -> (r: Self)
        ensures
            r.wf(),
            r@.directory_frame == frame_of(directory),
            r@.memory == empty_memory(),
            r@.stack == Seq::<u32>::empty(),
            r@.pages_used == 0,
    {
        let mut frames: Vec<Vec<Pte>> = Vec::new();
        while frames.len() < TOTAL_FRAMES
            invariant
                frames.len() <= TOTAL_FRAMES,
                forall|i: int| 0 <= i < frames.len() ==> (#[trigger] frames@[i]).len() == 0,
            decreases TOTAL_FRAMES - frames.len(),
        {
            frames.push(Vec::new());
        }
        let tables = PageTables { frames, directory_frame: directory & PAGE_MASK, blank: Pte::empty() };
        assert(tables.memory() =~= empty_memory());
        Paging { tables, stack: PageStack { pages: Vec::new() }, pages_used: 0 }
    }
}

/// Returns the amount of system memory currently in use in bytes, based on the number of
/// physical pages allocated.
pub fn mem_used(paging: &Paging) -> (r: usize)
    requires
        paging@.pages_used * 4096 <= usize::MAX,
    ensures
        r == paging@.pages_used * 4096,
{
    paging.pages_used * (PAGE_SIZE as usize)
}

/// Maps the physical page at address `paddr` to the virtual address `vaddr`, with flags set
/// according to the page type specified. Because a page allocation may be required if there is
/// not already a page table mapped for `vaddr`, this function can return `Err(OutOfMemoryError)`.
pub fn map_page(paging: &mut Paging, vaddr: u32, paddr: u32, ptype: PageType) -> (r: Result<
    (),
    OutOfMemoryError,
>)
    requires
        old(paging).wf(),
    ensures
        final(paging).wf(),
        r is Ok == map_succeeds(old(paging)@, vaddr),
        final(paging)@ == map_page_view(old(paging)@, vaddr, paddr, ptype),
{
    proof {
        paging.lemma_wf();
        lemma_u32_page_indices(vaddr);
        lemma_u32_frame_number(paging.tables.directory_frame, paging.tables.directory_frame);
        lemma_stored_same(paging@.memory, paging.tables.directory_frame, dir_slot(vaddr));
    }
    let dframe = paging.tables.directory_frame;
    let pt_pte = paging.tables.entry_mut(dframe, directory_index(vaddr));
    if !pt_pte.is_present() {
        let frame = paging.stack.pop(&mut paging.pages_used)?;
        proof {
            lemma_pte_bits(frame, PageType::KernelWritable);
        }
        *pt_pte = Pte::new(frame, PageType::KernelWritable);
    }
    assert(present(dir_entry_in(paging.tables.memory(), paging.tables.directory_frame, vaddr)));
    *Pte::lookup_mut(&mut paging.tables, vaddr).unwrap() = Pte::new(paddr, ptype);
    Ok(())
}

/// Allocates a physical page and maps it to the virtual address `vaddr`, with flags set according
/// to the page type specified. Returns `Ok(())` on success, or `Err(OutOfMemoryError)` if there
/// are no more free pages.
pub fn alloc_page(paging: &mut Paging, vaddr: u32, ptype: PageType) -> (r: Result<
    (),
    OutOfMemoryError,
>)
    requires
        old(paging).wf(),
    ensures
        final(paging).wf(),
        r is Ok == alloc_succeeds(old(paging)@, vaddr),
        final(paging)@ == alloc_page_view(old(paging)@, vaddr, ptype),
{
    let frame = paging.stack.pop(&mut paging.pages_used)?;
    map_page(paging, vaddr, frame, ptype)
}

/// Unmaps and frees the physical page mapped to the virtual address `vaddr`. This function has no
/// effect if there is no page currently mapped to `vaddr`.
pub fn free_page(paging: &mut Paging, vaddr: u32)
    requires
        old(paging).wf(),
    ensures
        final(paging).wf(),
        final(paging)@ == free_page_view(old(paging)@, vaddr),
{
    proof {
        paging.lemma_wf();
        lemma_u32_page_indices(vaddr);
        let d = dir_entry(paging@, vaddr);
        lemma_u32_frame_number(d, d);
        lemma_stored_same(paging@.memory, frame_of(d), table_slot(vaddr));
    }
    if let Some(pte) = Pte::lookup_mut(&mut paging.tables, vaddr) {
        if pte.is_present() {
            paging.stack.push(&mut paging.pages_used, pte.addr());
            pte.set_present(false);
        }
    }
}

/// Returns the physical page address mapped to the virtual address `vaddr`, or `None` if `vaddr`
/// is not currently mapped.
pub fn vtophys(paging: &Paging, vaddr: u32) -> (r: Option<u32>)
    requires
        paging.wf(),
    ensures
        r == mapped_frame(paging@, vaddr),
{
    match Pte::lookup(&paging.tables, vaddr) {
        Some(pte) if pte.is_present() => Some(pte.addr()),
        _ => None,
    }
}

/// The number of frames accounted for, free or in use, in wrapping machine arithmetic.
pub open spec fn frame_total(v: PagingView) -> int {
    (v.pages_used + v.stack.len()) % (usize::MAX as int + 1)
}

/// After a successful `map_page`, `vtophys` of the mapped address gives the frame of `paddr`,
/// unless the entry written is the very directory entry through which it is looked up.
pub proof fn lemma_map_then_vtophys(v: PagingView, vaddr: u32, paddr: u32, t: PageType)
    requires
        full_size(v),
        map_succeeds(v, vaddr),
        entry_location(with_table(v, vaddr), vaddr) != dir_location(v, vaddr),
    ensures
        mapped_frame(map_page_view(v, vaddr, paddr, t), vaddr) == Some(frame_of(paddr)),
{
    lemma_u32_page_indices(vaddr);
    lemma_pte_bits(paddr, t);
    lemma_u32_frame_number(v.directory_frame, v.directory_frame);
    if !present(dir_entry(v, vaddr)) {
        lemma_pte_bits(v.stack.last(), PageType::KernelWritable);
    }
    let w = with_table(v, vaddr);
    let d = dir_entry(w, vaddr);
    lemma_u32_frame_number(d, d);
}

/// `map_page` changes what no other address maps to, as long as neither entry it writes (the
/// directory entry of a page table it installs, and the page table entry of `vaddr`) is one that
/// the other address is looked up through.
pub proof fn lemma_map_keeps_other_pages(
    v: PagingView,
    vaddr: u32,
    paddr: u32,
    t: PageType,
    other: u32,
)
    requires
        full_size(v),
        !present(dir_entry(v, vaddr)) ==> dir_location(v, vaddr) != dir_location(v, other)
            && dir_location(v, vaddr) != entry_location(v, other),
        entry_location(with_table(v, vaddr), vaddr) != dir_location(v, other),
        entry_location(with_table(v, vaddr), vaddr) != entry_location(v, other),
    ensures
        mapped_frame(map_page_view(v, vaddr, paddr, t), other) == mapped_frame(v, other),
{
    lemma_u32_page_indices(vaddr);
    lemma_u32_page_indices(other);
    lemma_u32_frame_number(v.directory_frame, v.directory_frame);
    let w = with_table(v, vaddr);
    let d = dir_entry(w, vaddr);
    let o = dir_entry(v, other);
    lemma_u32_frame_number(d, d);
    lemma_u32_frame_number(o, o);
    assert(dir_entry(w, other) == o);
    assert(entry_of(w, other) == entry_of(v, other));
}

/// After `free_page`, the freed address is no longer mapped.
pub proof fn lemma_free_then_vtophys(v: PagingView, vaddr: u32)
    requires
        full_size(v),
    ensures
        mapped_frame(free_page_view(v, vaddr), vaddr) is None,
{
    lemma_u32_page_indices(vaddr);
    lemma_u32_frame_number(v.directory_frame, v.directory_frame);
    let d = dir_entry(v, vaddr);
    lemma_u32_frame_number(d, d);
    if mapped_frame(v, vaddr) is Some {
        lemma_with_flag(entry_of(v, vaddr), 1, false);
    }
}

/// Two addresses whose directory entries name one frame, at one table slot, read one shared
/// page table entry, and map to the same frame when both directory entries are present.
pub proof fn lemma_shared_table(v: PagingView, a: u32, b: u32)
    requires
        table_frame(v, a) == table_frame(v, b),
        table_slot(a) == table_slot(b),
    ensures
        entry_of(v, a) == entry_of(v, b),
        present(dir_entry(v, a)) && present(dir_entry(v, b)) ==> mapped_frame(v, a)
            == mapped_frame(v, b),
{
}

/// A page table installed by `map_page` in a frame taken off the free stack keeps the entries
/// that frame held, except the one written for `vaddr` (when that frame is not the directory's).
pub proof fn lemma_new_table_keeps_contents(
    v: PagingView,
    vaddr: u32,
    paddr: u32,
    t: PageType,
    other: u32,
)
    requires
        full_size(v),
        !present(dir_entry(v, vaddr)),
        v.stack.len() > 0,
        frame_number(v.stack.last()) != frame_number(v.directory_frame),
        dir_slot(other) == dir_slot(vaddr),
        table_slot(other) != table_slot(vaddr),
    ensures
        entry_of(map_page_view(v, vaddr, paddr, t), other) == table_in(v.memory, v.stack.last())[
            table_slot(other)
        ],
{
    lemma_u32_page_indices(vaddr);
    lemma_u32_page_indices(other);
    let top = v.stack.last();
    lemma_pte_bits(top, PageType::KernelWritable);
    lemma_u32_frame_number(top, top);
    lemma_u32_frame_number(v.directory_frame, v.directory_frame);
    let w = with_table(v, vaddr);
    assert(dir_entry(w, vaddr) == pte_bits(top, PageType::KernelWritable));
    assert(dir_entry(w, other) == pte_bits(top, PageType::KernelWritable));
    lemma_u32_frame_number(pte_bits(top, PageType::KernelWritable), top);
}

/// Through a directory entry that names the directory's own frame, the page tables appear as
/// pages: the address with table slot `t` in that window maps to the frame of directory entry
/// `t`, when that entry is present.
pub proof fn lemma_directory_window(v: PagingView, addr: u32)
    requires
        full_size(v),
        present(dir_entry(v, addr)),
        frame_number(table_frame(v, addr)) == frame_number(v.directory_frame),
    ensures
        mapped_frame(v, addr) == (if present(directory_of(v)[table_slot(addr)]) {
            Some(frame_of(directory_of(v)[table_slot(addr)]))
        } else {
            None
        }),
{
}

/// Freeing an address where no page is mapped changes nothing.
pub proof fn lemma_free_unmapped(v: PagingView, vaddr: u32)
    requires
        mapped_frame(v, vaddr) is None,
    ensures
        free_page_view(v, vaddr) == v,
{
}

/// Freeing a page that was just allocated into a present page table gives its frame back: the
/// free stack and the count of pages in use are as before, and the address is no longer mapped
/// (unless its page table entry is its own directory entry).
pub proof fn lemma_alloc_then_free(v: PagingView, vaddr: u32, t: PageType)
    requires
        full_size(v),
        present(dir_entry(v, vaddr)),
        entry_location(v, vaddr) != dir_location(v, vaddr),
        v.stack.len() > 0,
        frame_of(v.stack.last()) == v.stack.last(),
    ensures
        free_page_view(alloc_page_view(v, vaddr, t), vaddr).stack == v.stack,
        free_page_view(alloc_page_view(v, vaddr, t), vaddr).pages_used == v.pages_used,
        mapped_frame(free_page_view(alloc_page_view(v, vaddr, t), vaddr), vaddr) is None,
{
    lemma_u32_page_indices(vaddr);
    lemma_pte_bits(v.stack.last(), t);
    lemma_u32_frame_number(v.directory_frame, v.directory_frame);
    let d = dir_entry(v, vaddr);
    lemma_u32_frame_number(d, d);
    let a = alloc_page_view(v, vaddr, t);
    assert(a.stack == v.stack.drop_last());
    assert(dir_entry(a, vaddr) == d);
    assert(entry_of(a, vaddr) == pte_bits(v.stack.last(), t));
    assert(free_page_view(a, vaddr).stack =~= v.stack);
    lemma_free_then_vtophys(a, vaddr);
}

/// Every paging operation keeps the number of frames accounted for: a frame leaves the free
/// stack exactly when the count of pages in use goes up, and comes back exactly when it goes down.
pub proof fn lemma_frame_total_kept(v: PagingView, vaddr: u32, paddr: u32, t: PageType)
    requires
        full_size(v),
    ensures
        frame_total(map_page_view(v, vaddr, paddr, t)) == frame_total(v),
        frame_total(alloc_page_view(v, vaddr, t)) == frame_total(v),
        frame_total(free_page_view(v, vaddr)) == frame_total(v),
{
    let m = usize::MAX as int + 1;
    assert forall|x: usize, n: int| n > 0 implies #[trigger] ((wrap_inc(x) + (n - 1)) % m) == (x
        + n) % m by {
        if x == usize::MAX {
            assert((x + n) == m + (n - 1));
            vstd::arithmetic::div_mod::lemma_mod_add_multiples_vanish(n - 1, m);
        }
    }
    assert forall|x: usize, n: int| n >= 0 implies #[trigger] ((wrap_dec(x) + (n + 1)) % m) == (x
        + n) % m by {
        if x == 0 {
            assert(wrap_dec(x) + (n + 1) == m + n);
            vstd::arithmetic::div_mod::lemma_mod_add_multiples_vanish(n, m);
        }
    }
    if v.stack.len() > 0 {
        let p = pop_view(v);
        assert(frame_total(p) == frame_total(v)) by {
            assert((wrap_inc(v.pages_used) + (v.stack.len() - 1)) % m == (v.pages_used
                + v.stack.len()) % m);
        }
        if !present(dir_entry(p, vaddr)) && p.stack.len() > 0 {
            assert((wrap_inc(p.pages_used) + (p.stack.len() - 1)) % m == (p.pages_used
                + p.stack.len()) % m);
        }
    }
    if !present(dir_entry(v, vaddr)) && v.stack.len() > 0 {
        assert((wrap_inc(v.pages_used) + (v.stack.len() - 1)) % m == (v.pages_used
            + v.stack.len()) % m);
    }
    if mapped_frame(v, vaddr) is Some {
        assert((wrap_dec(v.pages_used) + (v.stack.len() + 1)) % m == (v.pages_used
            + v.stack.len()) % m);
    }
}

/// Number of pages that `init` maps for a kernel image spanning `base` up to `top`: the number
/// of 4 KiB steps from `base` needed to reach `top`.
pub open spec fn kernel_page_count(base: u32, top: u32) -> nat {
    if base < top {
        ((top - base + 4095) / 4096) as nat
    } else {
        0
    }
}

/// The address `j` pages above `base`.
pub open spec fn page_above(base: u32, j: int) -> u32 {
    (base + j * 4096) as u32
}

/// The initial page table after mapping the first `k` kernel pages, each at its table slot,
/// kernel-writable.
pub open spec fn kernel_table(base: u32, k: nat) -> Seq<u32>
    decreases k,
{
    if k == 0 {
        empty_table()
    } else {
        let a = page_above(base, k - 1);
        kernel_table(base, (k - 1) as nat).update(table_slot(a), pte_bits(a, PageType::KernelWritable))
    }
}

/// The initial page directory: slots 0, 1 and 2 name the initial page table, the directory
/// itself and the page table of the free frame stack.
pub open spec fn init_directory(init_table: u32, directory: u32, stack_table: u32) -> Seq<u32> {
    let kw = PageType::KernelWritable;
    empty_table().update(0, pte_bits(init_table, kw)).update(1, pte_bits(directory, kw)).update(
        2,
        pte_bits(stack_table, kw),
    )
}

/// The page table of the free frame stack: its first `j` slots map the pages that follow `n`
/// kernel pages from `base`.
pub open spec fn stack_table_entries(base: u32, n: nat, j: int) -> Seq<u32> {
    Seq::new(
        1024,
        |x: int|
            if x < j {
                pte_bits(page_above(base, n + x), PageType::KernelWritable)
            } else {
                0u32
            },
    )
}

/// The paging state that `init` builds. With `n` kernel pages starting at `base`, the next two
/// pages hold the free frame stack, and the 2048 pages after them are the free frames, pushed in
/// ascending order; the directory's slots 0, 1 and 2 name the initial page table, the directory
/// itself and the stack's page table; the VGA text buffer is mapped at its own address.
pub open spec fn init_view(
    base: u32,
    top: u32,
    init_table: u32,
    directory: u32,
    stack_table: u32,
) -> PagingView {
    let n = kernel_page_count(base, top);
    PagingView {
        directory_frame: frame_of(directory),
        memory: empty_memory().update(
            frame_number(init_table),
            kernel_table(base, n).update(184, pte_bits(0xb8000, PageType::KernelWritable)),
        ).update(frame_number(directory), init_directory(init_table, directory, stack_table)).update(
            frame_number(stack_table),
            stack_table_entries(base, n, 2),
        ),
        stack: Seq::new(2048, |j: int| page_above(base, n + 2int + j)),
        pages_used: (n + 2) as usize,
    }
}

/// Counting steps: while `k` steps stay below `d`, `k` is below the rounded-up step count, and
/// once the `k`th step reaches `d` while the one before did not, `k` is that count.
proof fn lemma_step_count(d: int, k: int)
    by (nonlinear_arith)
    requires
        d > 0,
        k >= 0,
    ensures
        k * 4096 < d ==> k < (d + 4095) / 4096,
        k * 4096 >= d && (k == 0 || (k - 1) * 4096 < d) ==> k == (d + 4095) / 4096,
        k < (d + 4095) / 4096 ==> k * 4096 < d,
{
}

/// Initializes the paging subsystem: maps the kernel image from `kernel_base` up to `kernel_top`
/// into the initial page table (held at physical address `init_table`), installs the initial
/// page table, the page directory itself (`directory`) and the page stack's page table
/// (`stack_table`) in the page directory, maps two pages for the free frame stack and fills it
/// with the 2048 pages that follow, and maps the VGA text buffer. The address arithmetic must
/// not overflow, and the three tables lie in three different frames.
pub fn init(kernel_base: u32, kernel_top: u32, init_table: u32, directory: u32, stack_table: u32) -> (r: Paging)
    requires
        kernel_base + (kernel_page_count(kernel_base, kernel_top) + 2050) * 4096 <= u32::MAX,
        frame_of(init_table) != frame_of(directory),
        frame_of(stack_table) != frame_of(directory),
        frame_of(init_table) != frame_of(stack_table),
    ensures
        r.wf(),
        r@ == init_view(kernel_base, kernel_top, init_table, directory, stack_table),
{
    let ghost n = kernel_page_count(kernel_base, kernel_top);
    let kw = PageType::KernelWritable;
    proof {
        lemma_u32_frame_number(init_table, directory);
        lemma_u32_frame_number(stack_table, directory);
        lemma_u32_frame_number(init_table, stack_table);
        lemma_u32_frame_number(directory, directory);
    }
    let ghost fi = frame_number(init_table);
    let ghost fd = frame_number(directory);
    let ghost fs = frame_number(stack_table);
    let mut paging = Paging::new(directory);

    // Map kernel image into virtual memory.
    let mut addr = kernel_base;
    let top = kernel_top;
    let ghost mut k: nat = 0;
    assert(empty_memory().update(fi, kernel_table(kernel_base, 0)) =~= empty_memory());
    while addr < top
        invariant
            paging.wf(),
            kernel_base + (n + 2050) * 4096 <= u32::MAX,
            n == kernel_page_count(kernel_base, top),
            k <= n,
            addr == kernel_base + k * 4096,
            k == 0 || kernel_base + (k - 1) * 4096 < top,
            0 <= fi < 1048576,
            fi == frame_number(init_table),
            paging@.memory == empty_memory().update(fi, kernel_table(kernel_base, k)),
            paging@.directory_frame == frame_of(directory),
            paging@.stack == Seq::<u32>::empty(),
            paging@.pages_used == k,
            kw == PageType::KernelWritable,
        decreases n - k,
    {
        proof {
            lemma_step_count(top - kernel_base, k as int);
        }
        let e = paging.tables.entry_mut(init_table, table_index(addr));
        *e = Pte::new(addr, kw);
        proof {
            assert(page_above(kernel_base, k as int) == addr);
            assert(paging@.memory =~= empty_memory().update(fi, kernel_table(kernel_base, k + 1)));
        }
        addr = addr + PAGE_SIZE;
        paging.pages_used = paging.pages_used.wrapping_add(1);
        proof {
            k = k + 1;
        }
    }
    proof {
        if kernel_base < top {
            lemma_step_count(top - kernel_base, k as int);
        }
        assert(k == n);
    }

    // Map the initial page table and page stack page table into the initial page directory, as
    // well as the initial page directory itself.
    let dframe = paging.tables.directory_frame;
    let e = paging.tables.entry_mut(dframe, 0);
    *e = Pte::new(init_table, kw);
    let e = paging.tables.entry_mut(dframe, 1);
    *e = Pte::new(directory, kw);
    let e = paging.tables.entry_mut(dframe, 2);
    *e = Pte::new(stack_table, kw);
    let ghost mem3 = empty_memory().update(fi, kernel_table(kernel_base, n)).update(
        fd,
        init_directory(init_table, directory, stack_table),
    );
    assert(paging@.memory =~= mem3);
    assert(stack_table_entries(kernel_base, n, 0) =~= empty_table());
    assert(mem3.update(fs, stack_table_entries(kernel_base, n, 0)) =~= mem3);

    // Map two pages for the free frame stack, using physical pages after the kernel image.
    let mut j: usize = 0;
    while j < 2
        invariant
            paging.wf(),
            kernel_base + (n + 2050) * 4096 <= u32::MAX,
            j <= 2,
            addr == kernel_base + (n + j) * 4096,
            paging@.pages_used == n + j,
            paging@.stack == Seq::<u32>::empty(),
            paging@.directory_frame == frame_of(directory),
            0 <= fs < 1048576,
            fs == frame_number(stack_table),
            mem3.len() == 1048576,
            kw == PageType::KernelWritable,
            paging@.memory == mem3.update(fs, stack_table_entries(kernel_base, n, j as int)),
        decreases 2 - j,
    {
        let e = paging.tables.entry_mut(stack_table, j);
        *e = Pte::new(addr, kw);
        proof {
            assert(page_above(kernel_base, n + j) == addr);
            let sa = stack_table_entries(kernel_base, n, j as int).update(
                j as int,
                pte_bits(addr, PageType::KernelWritable),
            );
            let sb = stack_table_entries(kernel_base, n, j + 1);
            assert forall|x: int| 0 <= x < 1024 implies sa[x] == sb[x] by {
                if x == j {
                    assert(page_above(kernel_base, n + x) == addr);
                }
            }
            assert(sa =~= sb);
            assert(paging@.memory =~= mem3.update(fs, stack_table_entries(kernel_base, n, j + 1)));
        }
        addr = addr + PAGE_SIZE;
        paging.pages_used = paging.pages_used.wrapping_add(1);
        j = j + 1;
    }

    let ghost mem5 = paging@.memory;
    // Push the next 2048 physical pages to the free frame stack.
    let mut m: usize = 0;
    while m < 2048
        invariant
            paging.wf(),
            paging@.memory == mem5,
            paging@.directory_frame == frame_of(directory),
            kernel_base + (n + 2050) * 4096 <= u32::MAX,
            m <= 2048,
            addr == kernel_base + (n + 2 + m) * 4096,
            paging@.pages_used == n + 2,
            paging@.stack == Seq::new(m as nat, |x: int| page_above(kernel_base, n + 2 + x)),
        decreases 2048 - m,
    {
        paging.stack.push(&mut paging.pages_used, addr);
        addr = addr + PAGE_SIZE;
        paging.pages_used = paging.pages_used.wrapping_add(1);
        m = m + 1;
        assert(paging@.stack =~= Seq::new(m as nat, |x: int| page_above(kernel_base, n + 2 + x)));
    }

    // Map VGA text memory.
    proof {
        lemma_pte_bits(init_table, kw);
        lemma_pte_bits(directory, kw);
        lemma_pte_bits(stack_table, kw);
        lemma_bit_constants();
        lemma_u32_frame_number(pte_bits(init_table, kw), init_table);
        paging.lemma_wf();
    }
    map_page(&mut paging, 0xb8000, 0xb8000, kw).unwrap();
    assert(paging@.memory =~= init_view(kernel_base, kernel_top, init_table, directory, stack_table).memory);
    paging
}

/// After a successful `map_page`, the page table entry of `vaddr` maps the frame of `paddr`,
/// present, writable exactly for the writable page types, user-accessible exactly for the user
/// page types, and not copy-on-write (unless the entry written is the directory entry it is
/// looked up through).
pub proof fn lemma_map_page_entry(v: PagingView, vaddr: u32, paddr: u32, t: PageType)
    requires
        full_size(v),
        map_succeeds(v, vaddr),
        entry_location(with_table(v, vaddr), vaddr) != dir_location(v, vaddr),
    ensures
        ({
            let e = entry_of(map_page_view(v, vaddr, paddr, t), vaddr);
            &&& e & 0xfffff000u32 == paddr & 0xfffff000u32
            &&& e & 1 != 0
            &&& (e & 2 != 0) == (t == PageType::KernelWritable || t == PageType::UserWritable)
            &&& (e & 4 != 0) == (t == PageType::UserReadonly || t == PageType::UserWritable)
            &&& e & 512 == 0
        }),
        mapped_frame(map_page_view(v, vaddr, paddr, t), vaddr) == Some(paddr & 0xfffff000u32),
{
    lemma_map_then_vtophys(v, vaddr, paddr, t);
    lemma_u32_page_indices(vaddr);
    lemma_pte_bits(paddr, t);
    lemma_u32_frame_number(v.directory_frame, v.directory_frame);
    if !present(dir_entry(v, vaddr)) {
        lemma_pte_bits(v.stack.last(), PageType::KernelWritable);
    }
    let w = with_table(v, vaddr);
    let d = dir_entry(w, vaddr);
    lemma_u32_frame_number(d, d);
    assert(entry_of(map_page_view(v, vaddr, paddr, t), vaddr) == pte_bits(paddr, t));
}

/// A successful `alloc_page` takes the top frame off the free stack (and, when the page table
/// of `vaddr` is missing, the frame below it for the new table) and maps the top frame at
/// `vaddr` with the flags of the requested page type (unless the entry written is the
/// directory entry it is looked up through).
pub proof fn lemma_alloc_page_entry(v: PagingView, vaddr: u32, t: PageType)
    requires
        full_size(v),
        alloc_succeeds(v, vaddr),
        entry_location(with_table(pop_view(v), vaddr), vaddr) != dir_location(v, vaddr),
    ensures
        ({
            let a = alloc_page_view(v, vaddr, t);
            let e = entry_of(a, vaddr);
            &&& e & 0xfffff000u32 == v.stack.last() & 0xfffff000u32
            &&& e & 1 != 0
            &&& (e & 2 != 0) == (t == PageType::KernelWritable || t == PageType::UserWritable)
            &&& (e & 4 != 0) == (t == PageType::UserReadonly || t == PageType::UserWritable)
            &&& e & 512 == 0
            &&& mapped_frame(a, vaddr) == Some(v.stack.last() & 0xfffff000u32)
            &&& a.stack == if present(dir_entry(v, vaddr)) {
                v.stack.drop_last()
            } else {
                v.stack.drop_last().drop_last()
            }
        }),
{
    let p = pop_view(v);
    assert(full_size(p));
    lemma_map_page_entry(p, vaddr, v.stack.last(), t);
}

/// `init` maps every page of the kernel image present, writable and kernel-only: for each of the
/// kernel pages from `base`, the entry at its slot of the initial page table (the table that
/// directory slot 0 names) has the present and writable bits set and the user bit clear.
pub proof fn lemma_init_kernel_writable(
    base: u32,
    top: u32,
    init_table: u32,
    directory: u32,
    stack_table: u32,
    j: int,
)
    requires
        base + (kernel_page_count(base, top) + 2050) * 4096 <= u32::MAX,
        frame_of(init_table) != frame_of(directory),
        frame_of(stack_table) != frame_of(directory),
        frame_of(init_table) != frame_of(stack_table),
        0 <= j < kernel_page_count(base, top),
    ensures
        ({
            let v = init_view(base, top, init_table, directory, stack_table);
            let e = table_in(v.memory, init_table)[table_slot(page_above(base, j))];
            &&& e & 1 != 0
            &&& e & 2 != 0
            &&& e & 4 == 0
            &&& frame_of(directory_of(v)[0]) == frame_of(init_table)
            &&& top <= 0x400000 ==> e == (page_above(base, j) & 0xfffff000u32) | 3
        }),
{
    let n = kernel_page_count(base, top);
    if top <= 0x400000 {
        lemma_kernel_table_exact(base, top, n);
        let a = page_above(base, j);
        assert(a < top) by {
            lemma_step_count(top - base, j);
        }
        lemma_u32_page_indices(a);
        lemma_pte_bits(a, PageType::KernelWritable);
        assert(a >> 12u32 < 1024) by (bit_vector)
            requires
                a < 0x400000u32,
        ;
        if table_slot(a) == 184 {
            assert(a & 0xfffff000u32 == 0xb8000u32 && 0xb8000u32 & 0xfffff000u32 == 0xb8000u32)
                by (bit_vector)
                requires
                    a >> 12u32 == 184,
            ;
        }
    }
    lemma_u32_frame_number(init_table, directory);
    lemma_u32_frame_number(stack_table, directory);
    lemma_u32_frame_number(init_table, stack_table);
    lemma_u32_frame_number(directory, directory);
    lemma_kernel_table_flags(base, n);
    lemma_pte_bits(0xb8000, PageType::KernelWritable);
    lemma_pte_bits(init_table, PageType::KernelWritable);
    lemma_u32_page_indices(page_above(base, j));
    let kt = kernel_table(base, n).update(184, pte_bits(0xb8000, PageType::KernelWritable));
    let v = init_view(base, top, init_table, directory, stack_table);
    assert(table_in(v.memory, init_table) == kt);
    assert(directory_of(v) == init_directory(init_table, directory, stack_table));
}

/// Every slot of the initial page table that one of the first `k` kernel pages is written to
/// holds an entry with the present and writable bits set and the user bit clear.
proof fn lemma_kernel_table_flags(base: u32, k: nat)
    ensures
        kernel_table(base, k).len() == 1024,
        forall|j: int|
            0 <= j < k ==> {
                let e = #[trigger] kernel_table(base, k)[table_slot(page_above(base, j))];
                &&& e & 1 != 0
                &&& e & 2 != 0
                &&& e & 4 == 0
            },
    decreases k,
{
    if k > 0 {
        lemma_kernel_table_flags(base, (k - 1) as nat);
        let a = page_above(base, k - 1);
        lemma_pte_bits(a, PageType::KernelWritable);
        lemma_u32_page_indices(a);
        assert forall|j: int| 0 <= j < k implies {
            let e = #[trigger] kernel_table(base, k)[table_slot(page_above(base, j))];
            &&& e & 1 != 0
            &&& e & 2 != 0
            &&& e & 4 == 0
        } by {
            lemma_u32_page_indices(page_above(base, j));
        }
    }
}

/// The page number of the address `j` pages above `x` is `j` more than that of `x`.
proof fn lemma_page_number_step(x: u32, j: u32)
    by (bit_vector)
    requires
        x + j * 4096 <= 0xffffffff,
    ensures
        ((x + j * 4096) as u32) >> 12u32 == (x >> 12u32) + j,
{
}

/// With the kernel image in the first 4 MiB, each of the first `k` kernel pages has its own
/// slot of the initial page table, which maps it kernel-writable.
proof fn lemma_kernel_table_exact(base: u32, top: u32, k: nat)
    requires
        top <= 0x400000,
        base + (kernel_page_count(base, top) + 2050) * 4096 <= u32::MAX,
        k <= kernel_page_count(base, top),
    ensures
        kernel_table(base, k).len() == 1024,
        forall|j: int|
            0 <= j < k ==> #[trigger] kernel_table(base, k)[table_slot(page_above(base, j))]
                == pte_bits(page_above(base, j), PageType::KernelWritable),
    decreases k,
{
    let n = kernel_page_count(base, top);
    if k > 0 {
        lemma_kernel_table_exact(base, top, (k - 1) as nat);
        let a = page_above(base, k - 1);
        assert(a < top) by {
            lemma_step_count(top - base, k - 1);
        }
        lemma_u32_page_indices(a);
        lemma_page_number_step(base, (k - 1) as u32);
        assert forall|j: int| 0 <= j < k implies #[trigger] kernel_table(base, k)[table_slot(
            page_above(base, j),
        )] == pte_bits(page_above(base, j), PageType::KernelWritable) by {
            let b = page_above(base, j);
            assert(b < top) by {
                lemma_step_count(top - base, j);
            }
            lemma_u32_page_indices(b);
            lemma_page_number_step(base, j as u32);
        }
    }
}

} // verus!
