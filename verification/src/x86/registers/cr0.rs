//! The processor `CR0` register, which contains system control flags.

use vstd::prelude::*;

use crate::x86::registers::eflags::has_flag;
use crate::x86::registers::eflags::lemma_set_flag;
use crate::x86::registers::eflags::set_flag;

verus! {

/// Represents a `CR0` register value.
#[derive(Clone, Copy, PartialEq, Eq, Structural, Debug)]
pub struct Cr0(u32);

impl View for Cr0 {
    type V = u32;

    /// The raw flag bits.
    closed spec fn view(&self) -> u32 {
        self.0
    }
}

impl Cr0 {
    /// Masks of the individual flag bits.
    pub const PROTECTION_ENABLE_FLAG: u32 = 1;
    pub const MATH_PRESENT_FLAG: u32 = 2;
    pub const EMULATION_FLAG: u32 = 4;
    pub const TASK_SWITCHED_FLAG: u32 = 8;
    pub const PAGING_FLAG: u32 = 0x80000000;

    /// Creates a new `Cr0` value with no flags set.
    pub fn empty() -> (r: Self)
        ensures
            r@ == 0,
    {
        Self(0)
    }

    /// Creates a `Cr0` value from its raw flag bits, as read from the register.
    pub fn from_u32(value: u32) -> (r: Self)
        ensures
            r@ == value,
    {
        Self(value)
    }

    /// Returns the raw value of the flag bits.
    pub fn as_u32(&self) -> (r: u32)
        ensures
            r == self@,
    {
        self.0
    }

    /// Returns the `PG` (Paging) bit.
    pub fn get_paging_flag(&self) -> (r: bool)
        ensures
            r == has_flag(self@, 0x80000000),
    {
        self.0 & Self::PAGING_FLAG != 0
    }

    /// Sets the state of the `PG` (Paging) bit.
    pub fn set_paging_flag(&mut self, value: bool)
        ensures
            final(self)@ == set_flag(old(self)@, 0x80000000, value),
            has_flag(final(self)@, 0x80000000) == value,
            final(self)@ & !0x80000000u32 == old(self)@ & !0x80000000u32,
    {
        proof {
            lemma_set_flag(self@, 0x80000000, value);
        }
        if value {
            self.0 = self.0 | Self::PAGING_FLAG;
        } else {
            self.0 = self.0 & !Self::PAGING_FLAG;
        }
    }
}

} // verus!
