//! The processor `EFLAGS` register, which contains arithmetic condition flags and system control
//! flags.

use vstd::prelude::*;

use crate::bits::lemma_u32_mask;

verus! {

/// An `EFLAGS` register value.
#[derive(Clone, Copy, PartialEq, Eq, Structural, Debug)]
pub struct Eflags(u32);

impl View for Eflags {
    type V = u32;

    /// The raw flag bits.
    closed spec fn view(&self) -> u32 {
        self.0
    }
}

/// Whether the bits of `mask` are set in the flag word `v`.
pub open spec fn has_flag(v: u32, mask: u32) -> bool {
    v & mask != 0
}

/// The flag word after setting (`on`) or clearing the bits of `mask`.
pub open spec fn set_flag(v: u32, mask: u32, on: bool) -> u32 {
    if on {
        v | mask
    } else {
        v & !mask
    }
}

/// Setting or clearing a flag leaves it in the requested state and every other bit alone.
pub proof fn lemma_set_flag(v: u32, mask: u32, on: bool)
    requires
        mask != 0,
    ensures
        has_flag(set_flag(v, mask, on), mask) == on,
        set_flag(v, mask, on) & !mask == v & !mask,
{
    lemma_u32_mask(v, mask);
}

/// For a single-bit flag, setting it twice is setting it once with the second value, and
/// setting it to the value it already has changes nothing.
pub proof fn lemma_set_flag_twice(v: u32, mask: u32, a: bool, b: bool)
    requires
        mask != 0,
        mask & ((mask - 1) as u32) == 0,
    ensures
        set_flag(set_flag(v, mask, a), mask, b) == set_flag(v, mask, b),
        has_flag(v, mask) == a ==> set_flag(v, mask, a) == v,
{
    let w = set_flag(v, mask, a);
    assert(set_flag(w, mask, b) == set_flag(v, mask, b) && ((v & mask != 0) == a ==> w == v))
        by (bit_vector)
        requires
            mask != 0,
            mask & ((mask - 1) as u32) == 0,
            w == (if a {
                v | mask
            } else {
                v & !mask
            }),
            set_flag(w, mask, b) == (if b {
                w | mask
            } else {
                w & !mask
            }),
            set_flag(v, mask, b) == (if b {
                v | mask
            } else {
                v & !mask
            }),
    ;
}

impl Eflags {
    /// Masks of the individual flag bits.
    pub const CARRY_FLAG: u32 = 1;
    pub const PARITY_FLAG: u32 = 4;
    pub const AUXILIARY_FLAG: u32 = 16;
    pub const ZERO_FLAG: u32 = 64;
    pub const SIGN_FLAG: u32 = 128;
    pub const TRAP_FLAG: u32 = 256;
    pub const INTERRUPT_FLAG: u32 = 512;
    pub const DIRECTION_FLAG: u32 = 1024;
    pub const OVERFLOW_FLAG: u32 = 2048;
    pub const NESTED_FLAG: u32 = 16384;
    pub const RESUME_FLAG: u32 = 65536;
    pub const VIRTUAL_8086_FLAG: u32 = 131072;

    /// Creates a new `Eflags` value with no flags set.
    pub fn empty() -> (r: Self)
        ensures
            r@ == 0,
    {
        Self(0)
    }

    /// Creates an `Eflags` value from its raw flag bits, as read from the register.
    pub fn from_u32(value: u32) -> (r: Self)
        ensures
            r@ == value,
    {
        Self(value)
    }

    /// Returns the raw value of the flag bits.
    pub fn as_u32(&self) -> (r: u32)
        ensures
            r == self@,
    {
        self.0
    }

    /// Returns the `CF` (Carry Flag) bit.
    pub fn get_carry_flag(&self) -> (r: bool)
        ensures
            r == has_flag(self@, 1),
    {
        self.0 & Self::CARRY_FLAG != 0
    }

    /// Sets the state of the `CF` (Carry Flag) bit.
    pub fn set_carry_flag(&mut self, value: bool) -> (r: &mut Self)
        ensures
            r@ == set_flag(old(self)@, 1, value),
            has_flag(r@, 1) == value,
            r@ & !1u32 == old(self)@ & !1u32,
            final(self)@ == final(r)@,
    {
        proof {
            lemma_set_flag(self@, 1, value);
        }
        if value {
            self.0 = self.0 | Self::CARRY_FLAG;
        } else {
            self.0 = self.0 & !Self::CARRY_FLAG;
        }
        self
    }
    /// Returns the `ZF` (Zero Flag) bit.
    pub fn get_zero_flag(&self) -> (r: bool)
        ensures
            r == has_flag(self@, 64),
    {
        self.0 & Self::ZERO_FLAG != 0
    }

    /// Sets the state of the `ZF` (Zero Flag) bit.
    pub fn set_zero_flag(&mut self, value: bool) -> (r: &mut Self)
        ensures
            r@ == set_flag(old(self)@, 64, value),
            has_flag(r@, 64) == value,
            r@ & !64u32 == old(self)@ & !64u32,
            final(self)@ == final(r)@,
    {
        proof {
            lemma_set_flag(self@, 64, value);
        }
        if value {
            self.0 = self.0 | Self::ZERO_FLAG;
        } else {
            self.0 = self.0 & !Self::ZERO_FLAG;
        }
        self
    }

    /// Returns the `SF` (Sign Flag) bit.
    pub fn get_sign_flag(&self) -> (r: bool)
        ensures
            r == has_flag(self@, 128),
    {
        self.0 & Self::SIGN_FLAG != 0
    }

    /// Sets the state of the `SF` (Sign Flag) bit.
    pub fn set_sign_flag(&mut self, value: bool) -> (r: &mut Self)
        ensures
            r@ == set_flag(old(self)@, 128, value),
            has_flag(r@, 128) == value,
            r@ & !128u32 == old(self)@ & !128u32,
            final(self)@ == final(r)@,
    {
        proof {
            lemma_set_flag(self@, 128, value);
        }
        if value {
            self.0 = self.0 | Self::SIGN_FLAG;
        } else {
            self.0 = self.0 & !Self::SIGN_FLAG;
        }
        self
    }

    /// Returns the `TF` (Trap Flag) bit.
    pub fn get_trap_flag(&self) -> (r: bool)
        ensures
            r == has_flag(self@, 256),
    {
        self.0 & Self::TRAP_FLAG != 0
    }

    /// Sets the state of the `TF` (Trap Flag) bit.
    pub fn set_trap_flag(&mut self, value: bool) -> (r: &mut Self)
        ensures
            r@ == set_flag(old(self)@, 256, value),
            has_flag(r@, 256) == value,
            r@ & !256u32 == old(self)@ & !256u32,
            final(self)@ == final(r)@,
    {
        proof {
            lemma_set_flag(self@, 256, value);
        }
        if value {
            self.0 = self.0 | Self::TRAP_FLAG;
        } else {
            self.0 = self.0 & !Self::TRAP_FLAG;
        }
        self
    }

    /// Returns the `IF` (Interrupt Flag) bit.
    pub fn get_interrupt_flag(&self) -> (r: bool)
        ensures
            r == has_flag(self@, 512),
    {
        self.0 & Self::INTERRUPT_FLAG != 0
    }

    /// Sets the state of the `IF` (Interrupt Flag) bit.
    pub fn set_interrupt_flag(&mut self, value: bool) -> (r: &mut Self)
        ensures
            r@ == set_flag(old(self)@, 512, value),
            has_flag(r@, 512) == value,
            r@ & !512u32 == old(self)@ & !512u32,
            final(self)@ == final(r)@,
    {
        proof {
            lemma_set_flag(self@, 512, value);
        }
        if value {
            self.0 = self.0 | Self::INTERRUPT_FLAG;
        } else {
            self.0 = self.0 & !Self::INTERRUPT_FLAG;
        }
        self
    }

    /// Returns the `OF` (Overflow Flag) bit.
    pub fn get_overflow_flag(&self) -> (r: bool)
        ensures
            r == has_flag(self@, 2048),
    {
        self.0 & Self::OVERFLOW_FLAG != 0
    }

    /// Sets the state of the `OF` (Overflow Flag) bit.
    pub fn set_overflow_flag(&mut self, value: bool) -> (r: &mut Self)
        ensures
            r@ == set_flag(old(self)@, 2048, value),
            has_flag(r@, 2048) == value,
            r@ & !2048u32 == old(self)@ & !2048u32,
            final(self)@ == final(r)@,
    {
        proof {
            lemma_set_flag(self@, 2048, value);
        }
        if value {
            self.0 = self.0 | Self::OVERFLOW_FLAG;
        } else {
            self.0 = self.0 & !Self::OVERFLOW_FLAG;
        }
        self
    }

    /// Returns the `VM` (Virtual 8086 Mode) bit.
    pub fn get_virtual_8086_flag(&self) -> (r: bool)
        ensures
            r == has_flag(self@, 131072),
    {
        self.0 & Self::VIRTUAL_8086_FLAG != 0
    }

    /// Sets the state of the `VM` (Virtual 8086 Mode) bit.
    pub fn set_virtual_8086_flag(&mut self, value: bool) -> (r: &mut Self)
        ensures
            r@ == set_flag(old(self)@, 131072, value),
            has_flag(r@, 131072) == value,
            r@ & !131072u32 == old(self)@ & !131072u32,
            final(self)@ == final(r)@,
    {
        proof {
            lemma_set_flag(self@, 131072, value);
        }
        if value {
            self.0 = self.0 | Self::VIRTUAL_8086_FLAG;
        } else {
            self.0 = self.0 & !Self::VIRTUAL_8086_FLAG;
        }
        self
    }
}

} // verus!
