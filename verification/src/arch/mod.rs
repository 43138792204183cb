//! Platform-specific kernel components.

pub mod x86;
