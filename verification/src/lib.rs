//! Core data structures and decision logic of a small protected-mode x86 kernel: segment
//! selectors and descriptor tables, page table entries, control-register flag words, the VGA text
//! console, the kernel logger, the physical page allocator with its page tables, and the
//! interrupt controller and timer programming sequences.

pub mod arch;
mod bits;
pub mod console;
pub mod log;
pub mod mm;
pub mod paging;
pub mod x86;
