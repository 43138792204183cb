//! Values of the special CPU registers, namely `EFLAGS` and `CR0`, as flag words.

pub mod cr0;
pub mod eflags;
