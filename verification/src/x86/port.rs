//! I/O port numbers. Reading and writing a port is done by the `in` and `out` instructions,
//! outside this library; the library decides which values go to which ports.

use vstd::prelude::*;

verus! {

/// An 8-bit I/O port, which can read or write `u8` values.
pub struct PortU8(u16);

/// A 16-bit I/O port, which can read or write `u16` values.
pub struct PortU16(u16);

/// A 32-bit I/O port, which can read or write `u32` values.
pub struct PortU32(u16);

impl PortU8 {
    /// Returns a new representation of an I/O port.
    pub fn new(port: u16) -> (r: Self)
        ensures
            r.number() == port,
    {
        PortU8(port)
    }

    /// The port number.
    pub closed spec fn number(&self) -> u16 {
        self.0
    }

    /// Returns the port number.
    pub fn port(&self) -> (r: u16)
        ensures
            r == self.number(),
    {
        self.0
    }
}

impl PortU16 {
    /// Returns a new representation of an I/O port.
    pub fn new(port: u16) -> (r: Self)
        ensures
            r.number() == port,
    {
        PortU16(port)
    }

    /// The port number.
    pub closed spec fn number(&self) -> u16 {
        self.0
    }

    /// Returns the port number.
    pub fn port(&self) -> (r: u16)
        ensures
            r == self.number(),
    {
        self.0
    }
}

impl PortU32 {
    /// Returns a new representation of an I/O port.
    pub fn new(port: u16) -> (r: Self)
        ensures
            r.number() == port,
    {
        PortU32(port)
    }

    /// The port number.
    pub closed spec fn number(&self) -> u16 {
        self.0
    }

    /// Returns the port number.
    pub fn port(&self) -> (r: u16)
        ensures
            r == self.number(),
    {
        self.0
    }
}

} // verus!
