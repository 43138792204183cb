//! The layout of the kernel's initial virtual address space.

use vstd::prelude::*;

use crate::x86::paging::PageTable;
use crate::x86::paging::PageTableEntry;
use crate::x86::PhysAddr;

verus! {

/// Base address of the kernel heap.
pub const HEAP_BASE: u32 = 0x04000000;
/// Size of the kernel heap in bytes.
pub const HEAP_SIZE: usize = 64 * 1024 * 1024;

/// Base address of the TCB array.
pub const TCB_BASE: u32 = 0x08000000;
/// Size of the TCB array in bytes.
pub const TCB_SIZE: usize = 128 * 1024 * 1024;

/// The dividing line between the userspace and kernelspace portions of the virtual address
/// space. Virtual addresses equal to or above this address belong to userspace, and virtual
/// addresses below belong to the kernel.
pub const USER_BASE: u32 = 0x10000000;

/// The raw entry mapping the frame at page-aligned address `frame`, present, and writable when
/// `writable` holds.
pub open spec fn mapping(frame: u32, writable: bool) -> u32 {
    if writable {
        frame | 1 | 2
    } else {
        frame | 1
    }
}

/// The raw entry for the kernel page at `a`: read-only below `kernel_rw` (text and read-only
/// data), writable from it on (data and bss).
pub open spec fn kernel_page_entry(a: u32, kernel_rw: u32) -> u32 {
    mapping(a, a >= kernel_rw)
}

/// Whether table index `j` holds a page of the kernel image, which spans the pages from the one
/// holding `kernel_base` up to `kernel_top`.
pub open spec fn kernel_slot(kernel_base: u32, kernel_top: u32, j: int) -> bool {
    (kernel_base & 0xfffff000u32) <= j * 4096 < kernel_top
}

/// The kernel table after `init_address_space`: the kernel image identity-mapped, the VGA text
/// buffer at index 0xb8 (writable), every other entry as before.
pub open spec fn kernel_table_after(
    old: Seq<u32>,
    kernel_base: u32,
    kernel_rw: u32,
    kernel_top: u32,
) -> Seq<u32> {
    Seq::new(
        1024,
        |j: int|
            if j == 0xb8 {
                mapping(0xb8000, true)
            } else if kernel_slot(kernel_base, kernel_top, j) {
                kernel_page_entry((j * 4096) as u32, kernel_rw)
            } else {
                old[j]
            },
    )
}

/// The directory after `init_address_space`: slot 0 maps the kernel table, slot 1 the directory
/// itself, slot 2 the frame stack's table, slots 16 to 31 the heap tables and slots 32 to 63
/// the TCB tables, all writable; every other entry as before.
pub open spec fn directory_after(
    old: Seq<u32>,
    kernel_table_frame: u32,
    directory_frame: u32,
    frame_stack_frame: u32,
    heap: Seq<PhysAddr>,
    tcb: Seq<PhysAddr>,
) -> Seq<u32> {
    Seq::new(
        1024,
        |j: int|
            if j == 0 {
                mapping(kernel_table_frame, true)
            } else if j == 1 {
                mapping(directory_frame, true)
            } else if j == 2 {
                mapping(frame_stack_frame, true)
            } else if 16 <= j < 32 {
                mapping(heap[j - 16]@, true)
            } else if 32 <= j < 64 {
                mapping(tcb[j - 32]@, true)
            } else {
                old[j]
            },
    )
}

/// A page-aligned address in the first 4 MiB has table index `a / 4096`.
proof fn lemma_low_index(a: u32)
    by (bit_vector)
    requires
        a % 4096 == 0,
        a < 0x400000,
    ensures
        ((a >> 12u32) & 0x3ff) * 4096 == a,
        (a >> 12u32) & 0x3ff < 1024,
{
}

/// Stores in `table[index]` an entry mapping `frame`, marked writable when `writable` holds.
fn set_entry(table: &mut PageTable, index: usize, frame: PhysAddr, writable: bool)
    requires
        index < 1024,
        frame@ % 4096 == 0,
    ensures
        final(table).raw() == old(table).raw().update(index as int, mapping(frame@, writable)),
{
    proof {
        old(table).lemma_len();
    }
    *table.index_mut(index) = PageTableEntry::new(frame);
    if writable {
        table.index_mut(index).set_writable(true);
    }
}

/// Builds the kernel's initial address space in `kernel_table` and `directory`.
///
/// The kernel image, from the page holding `kernel_base` up to `kernel_top`, is identity-mapped
/// in `kernel_table`: text and read-only data below `kernel_rw` read-only, data and bss from
/// `kernel_rw` on writable. The VGA text buffer is identity-mapped writable at index 0xb8.
///
/// In the page directory, entry 0 maps the kernel table, placing the kernel image within
/// 0x00000000 - 0x003fffff (4 MiB). Entry 1 maps the page directory itself, which causes
/// 0x00400000 - 0x007fffff (4 MiB) to map to an array of all page table entries for the entire
/// virtual address space. Entry 2 maps the page table of the stack of free physical page frames
/// at 0x00800000 - 0x00bfffff. Entries 16 - 31 map the kernel heap tables (0x04000000 -
/// 0x07ffffff, 64 MiB) and entries 32 - 63 the task control block tables (0x08000000 -
/// 0x0fffffff, 128 MiB). All directory entries made are writable.
pub fn init_address_space(
    kernel_base: u32,
    kernel_rw: u32,
    kernel_top: u32,
    kernel_table: &mut PageTable,
    directory: &mut PageTable,
    kernel_table_frame: PhysAddr,
    directory_frame: PhysAddr,
    frame_stack_frame: PhysAddr,
    heap_frames: &[PhysAddr],
    tcb_frames: &[PhysAddr],
)
    requires
        kernel_top <= 0x400000,
        kernel_base <= kernel_rw <= kernel_top,
        heap_frames@.len() == 16,
        tcb_frames@.len() == 32,
        kernel_table_frame@ % 4096 == 0,
        directory_frame@ % 4096 == 0,
        frame_stack_frame@ % 4096 == 0,
        forall|i: int| 0 <= i < 16 ==> (#[trigger] heap_frames@[i])@ % 4096 == 0,
        forall|i: int| 0 <= i < 32 ==> (#[trigger] tcb_frames@[i])@ % 4096 == 0,
    ensures
        final(kernel_table).raw() == kernel_table_after(
            old(kernel_table).raw(),
            kernel_base,
            kernel_rw,
            kernel_top,
        ),
        forall|a: u32|
            a % 4096 == 0 && (kernel_base & 0xfffff000u32) <= a < kernel_top && (a >> 12u32) & 0x3ff
                != 0xb8 ==> #[trigger] final(kernel_table).raw()[((a >> 12u32) & 0x3ff) as int]
                == kernel_page_entry(a, kernel_rw),
        final(kernel_table).raw()[0xb8] == mapping(0xb8000, true),
        final(directory).raw() == directory_after(
            old(directory).raw(),
            kernel_table_frame@,
            directory_frame@,
            frame_stack_frame@,
            heap_frames@,
            tcb_frames@,
        ),
{
    let ghost old_kt = kernel_table.raw();
    let ghost old_dir = directory.raw();
    proof {
        kernel_table.lemma_len();
        directory.lemma_len();
    }

    // Identity-map the kernel executable image. The text and rodata segments are mapped
    // read-only, and the data and bss segments are mapped writable.
    let start = kernel_base & 0xfffff000u32;
    let mut addr = start;
    assert(start % 4096 == 0 && start <= kernel_base) by (bit_vector)
        requires
            start == kernel_base & 0xfffff000u32,
    ;
    let ghost mut k: int = (start / 4096) as int;
    while addr < kernel_top
        invariant
            addr % 4096 == 0,
            addr == k * 4096,
            addr == start || addr - 4096 < kernel_top,
            start <= addr,
            start == kernel_base & 0xfffff000u32,
            addr <= 0x400000,
            kernel_top <= 0x400000,
            kernel_base <= kernel_rw <= kernel_top,
            kernel_table.raw().len() == 1024,
            forall|j: int|
                0 <= j < 1024 ==> #[trigger] kernel_table.raw()[j] == (if start <= j * 4096 < addr {
                    kernel_page_entry((j * 4096) as u32, kernel_rw)
                } else {
                    old_kt[j]
                }),
        decreases 0x400000 - addr,
    {
        proof {
            lemma_low_index(addr);
        }
        let index = ((addr >> 12u32) & 0x3ff) as usize;
        set_entry(kernel_table, index, PhysAddr::new(addr), addr >= kernel_rw);
        addr = addr + 4096;
        proof {
            k = k + 1;
        }
    }

    // Identity-map the VGA text buffer.
    set_entry(kernel_table, 0xb8, PhysAddr::new(0xb8000), true);
    proof {
        assert(kernel_table.raw() =~= kernel_table_after(old_kt, kernel_base, kernel_rw, kernel_top));
        assert forall|a: u32|
            a % 4096 == 0 && (kernel_base & 0xfffff000u32) <= a < kernel_top && (a >> 12u32)
                & 0x3ff != 0xb8 implies #[trigger] kernel_table.raw()[((a >> 12u32) & 0x3ff) as int]
            == kernel_page_entry(a, kernel_rw) by {
            lemma_low_index(a);
        }
    }

    // The page directory.
    set_entry(directory, 0, kernel_table_frame, true);
    set_entry(directory, 1, directory_frame, true);
    set_entry(directory, 2, frame_stack_frame, true);
    let ghost dir3 = directory.raw();
    let mut i: usize = 0;
    while i < 16
        invariant
            i <= 16,
            heap_frames@.len() == 16,
            forall|k: int| 0 <= k < 16 ==> (#[trigger] heap_frames@[k])@ % 4096 == 0,
            directory.raw().len() == 1024,
            dir3.len() == 1024,
            forall|j: int|
                0 <= j < 1024 ==> #[trigger] directory.raw()[j] == (if 16 <= j < 16 + i {
                    mapping(heap_frames@[j - 16]@, true)
                } else {
                    dir3[j]
                }),
        decreases 16 - i,
    {
        set_entry(directory, 16 + i, heap_frames[i], true);
        i = i + 1;
    }
    let ghost dir4 = directory.raw();
    let mut i: usize = 0;
    while i < 32
        invariant
            i <= 32,
            tcb_frames@.len() == 32,
            forall|k: int| 0 <= k < 32 ==> (#[trigger] tcb_frames@[k])@ % 4096 == 0,
            directory.raw().len() == 1024,
            dir4.len() == 1024,
            forall|j: int|
                0 <= j < 1024 ==> #[trigger] directory.raw()[j] == (if 32 <= j < 32 + i {
                    mapping(tcb_frames@[j - 32]@, true)
                } else {
                    dir4[j]
                }),
        decreases 32 - i,
    {
        set_entry(directory, 32 + i, tcb_frames[i], true);
        i = i + 1;
    }
    proof {
        assert(directory.raw() =~= directory_after(
            old_dir,
            kernel_table_frame@,
            directory_frame@,
            frame_stack_frame@,
            heap_frames@,
            tcb_frames@,
        ));
    }
}

/// The bits of an entry made by `mapping` for a page-aligned frame: it names that frame, is
/// present, is writable exactly when asked, and is neither user-accessible nor copy-on-write.
proof fn lemma_mapping_bits(f: u32)
    by (bit_vector)
    requires
        f % 4096 == 0,
    ensures
        (f | 1 | 2) & 0xfffff000u32 == f,
        (f | 1 | 2) & 1 != 0,
        (f | 1 | 2) & 2 != 0,
        (f | 1 | 2) & 4 == 0,
        (f | 1 | 2) & 512 == 0,
        (f | 1) & 0xfffff000u32 == f,
        (f | 1) & 1 != 0,
        (f | 1) & 2 == 0,
        (f | 1) & 4 == 0,
        (f | 1) & 512 == 0,
{
}

/// Whether raw entry `e` maps frame `f` present, kernel-only and not copy-on-write, and
/// writable exactly when `writable` holds.
pub open spec fn maps_frame(e: u32, f: u32, writable: bool) -> bool {
    &&& e & 0xfffff000u32 == f
    &&& e & 1 != 0
    &&& (e & 2 != 0) == writable
    &&& e & 4 == 0
    &&& e & 512 == 0
}

/// Every directory entry that `init_address_space` makes is present and writable and names its
/// table's frame: slot 0 the kernel table, slot 1 the directory itself, slot 2 the frame stack's
/// table, slots 16 to 31 the heap tables in order and slots 32 to 63 the TCB tables in order.
/// Every other slot keeps its entry.
pub proof fn lemma_directory_entries(
    old: Seq<u32>,
    kernel_table_frame: u32,
    directory_frame: u32,
    frame_stack_frame: u32,
    heap: Seq<PhysAddr>,
    tcb: Seq<PhysAddr>,
)
    requires
        heap.len() == 16,
        tcb.len() == 32,
        kernel_table_frame % 4096 == 0,
        directory_frame % 4096 == 0,
        frame_stack_frame % 4096 == 0,
        forall|i: int| 0 <= i < 16 ==> (#[trigger] heap[i])@ % 4096 == 0,
        forall|i: int| 0 <= i < 32 ==> (#[trigger] tcb[i])@ % 4096 == 0,
    ensures
        ({
            let d = directory_after(old, kernel_table_frame, directory_frame, frame_stack_frame, heap, tcb);
            &&& d.len() == 1024
            &&& maps_frame(d[0], kernel_table_frame, true)
            &&& maps_frame(d[1], directory_frame, true)
            &&& maps_frame(d[2], frame_stack_frame, true)
            &&& forall|i: int| 0 <= i < 16 ==> maps_frame(#[trigger] d[16 + i], heap[i]@, true)
            &&& forall|i: int| 0 <= i < 32 ==> maps_frame(#[trigger] d[32 + i], tcb[i]@, true)
            &&& forall|j: int|
                0 <= j < 1024 && !(0 <= j < 3) && !(16 <= j < 64) ==> #[trigger] d[j] == old[j]
        }),
{
    lemma_mapping_bits(kernel_table_frame);
    lemma_mapping_bits(directory_frame);
    lemma_mapping_bits(frame_stack_frame);
    let d = directory_after(old, kernel_table_frame, directory_frame, frame_stack_frame, heap, tcb);
    assert forall|i: int| 0 <= i < 16 implies maps_frame(#[trigger] d[16 + i], heap[i]@, true) by {
        lemma_mapping_bits(heap[i]@);
    }
    assert forall|i: int| 0 <= i < 32 implies maps_frame(#[trigger] d[32 + i], tcb[i]@, true) by {
        lemma_mapping_bits(tcb[i]@);
    }
}

/// Every kernel-table entry that `init_address_space` makes identity-maps its page: the VGA
/// text buffer at slot 0xb8 writable, and each page `j` of the kernel image writable exactly
/// when it lies at or above `kernel_rw`. Every other slot keeps its entry.
pub proof fn lemma_kernel_table_entries(
    old: Seq<u32>,
    kernel_base: u32,
    kernel_rw: u32,
    kernel_top: u32,
)
    ensures
        ({
            let k = kernel_table_after(old, kernel_base, kernel_rw, kernel_top);
            &&& k.len() == 1024
            &&& maps_frame(k[0xb8], 0xb8000, true)
            &&& forall|j: int|
                0 <= j < 1024 && j != 0xb8 && kernel_slot(kernel_base, kernel_top, j) ==> maps_frame(
                    #[trigger] k[j],
                    (j * 4096) as u32,
                    j * 4096 >= kernel_rw,
                )
            &&& forall|j: int|
                0 <= j < 1024 && j != 0xb8 && !kernel_slot(kernel_base, kernel_top, j) ==> #[trigger] k[j]
                    == old[j]
        }),
{
    lemma_mapping_bits(0xb8000);
    let k = kernel_table_after(old, kernel_base, kernel_rw, kernel_top);
    assert forall|j: int|
        0 <= j < 1024 && j != 0xb8 && kernel_slot(kernel_base, kernel_top, j) implies maps_frame(
        #[trigger] k[j],
        (j * 4096) as u32,
        j * 4096 >= kernel_rw,
    ) by {
        let a = (j * 4096) as u32;
        assert(a == j * 4096);
        assert(a % 4096 == 0);
        lemma_mapping_bits(a);
    }
}

} // verus!
