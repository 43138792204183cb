//! x86 chipset components outside the CPU. Each operation is described by the sequence of
//! `(port, value)` byte writes that performs it, in order.

pub mod pic;
pub mod pit;
