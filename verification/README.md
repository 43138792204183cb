# x86_kernel

The data structures and decision logic of a small 32-bit protected-mode x86 kernel, verified
with Verus, and the kernel program around them.

## Layout

- `src/` — the verified library.
  - `x86/` — privilege levels, segment selectors, addresses (`mod.rs`); GDT descriptors and the
    kernel's GDT setup (`gdt.rs`); IDT gates (`idt.rs`); page table entries and page tables
    (`paging.rs`); I/O port numbers (`port.rs`); the `EFLAGS` and `CR0` flag words
    (`registers/`).
  - `arch/x86/` — the descriptors as the start-up code builds them (`gdt.rs`), the interrupt
    controller and timer programming sequences (`chipset/`), the timer interrupt counter
    (`start.rs`).
  - `paging.rs` — the page directory and page tables as they lie in physical frames, the free
    frame stack, and `map_page`, `alloc_page`, `free_page`, `vtophys`, `mem_used`, `init`.
  - `mm.rs` — the layout of the initial address space: the identity-mapped kernel image, the
    VGA buffer, and the directory slots of the kernel, frame stack, heap and TCB tables.
  - `console.rs` — the VGA text console: cells, cursor, scrolling, character handling.
  - `log.rs` — the logger: level filtering and the `[seconds.millis]` line format.
  - `bits.rs` — bit-level facts used by the proofs.
- `app/` — the program: entry point, port I/O, control registers, descriptor table loading,
  VGA memory, global state behind spin locks.
- `tests/` — tests of the library.

Hardware state (the VGA cells and cursor registers, the page tables, the free frame stack) is
held by the library as plain values; the program copies it to and from the machine. Port
programming is returned by the library as the sequence of `(port, value)` writes to perform.
