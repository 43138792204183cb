//! Components of the x86 platform: descriptor tables, the interrupt controllers and timer, and
//! the timer interrupt's bookkeeping.

pub mod chipset;
pub mod gdt;
pub mod start;
