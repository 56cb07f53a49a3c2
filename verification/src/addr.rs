//! Addresses and the four memory-mapped ports.

use vstd::prelude::*;

verus! {

/// The length of the SSBC's memory: one byte for every 16-bit address.
pub const MEMORY_LENGTH: usize = 0x10000;

/// `a + n` reduced modulo the size of the address space.
pub open spec fn addr_add(a: u16, n: u16) -> u16 {
    ((a + n) % 0x10000) as u16
}

/// `a - n` reduced modulo the size of the address space.
pub open spec fn addr_sub(a: u16, n: u16) -> u16 {
    ((a - n + 0x10000) % 0x10000) as u16
}

/// An address inside the SSBC's memory space.
/// The program, stack, ports, and program status word are all mapped inside of this.
#[derive(Clone, Copy, Debug, PartialEq, Eq, Structural)]
pub struct Addr(pub u16);

impl Addr {
    /// Cast a u16 into an address.
    pub fn from_u16(a: u16) -> (r: Self)
        ensures
            r.0 == a,
    {
        Addr(a)
    }

    /// The address as a plain u16.
    pub fn to_u16(self) -> (r: u16)
        ensures
            r == self.0,
    {
        self.0
    }

    /// The address as an index into memory.
    pub fn to_usize(self) -> (r: usize)
        ensures
            r == self.0 as usize,
    {
        self.0 as usize
    }

    /// Move `n` bytes forward, wrapping at the top of the address space.
    pub fn wrapping_add(self, n: u16) -> (r: Self)
        ensures
            r.0 == addr_add(self.0, n),
    {
        Addr(self.0.wrapping_add(n))
    }

    /// Move `n` bytes backward, wrapping at the bottom of the address space.
    pub fn wrapping_sub(self, n: u16) -> (r: Self)
        ensures
            r.0 == addr_sub(self.0, n),
    {
        Addr(self.0.wrapping_sub(n))
    }
}

/// The fixed address of a port cell, at the very top of memory.
pub open spec fn port_addr(p: Port) -> u16 {
    match p {
        Port::A => 0xFFFC,
        Port::B => 0xFFFD,
        Port::C => 0xFFFE,
        Port::D => 0xFFFF,
    }
}

/// The four ports. A and C are output, B and D are input.
#[derive(Clone, Copy, Debug, PartialEq, Eq, Structural)]
pub enum Port {
    A,
    B,
    C,
    D,
}

impl Port {
    /// The memory cell this port is mapped to.
    pub fn to_addr(self) -> (r: Addr)
        ensures
            r.0 == port_addr(self),
    {
        Addr(
            match self {
                Port::A => 0xFFFC,
                Port::B => 0xFFFD,
                Port::C => 0xFFFE,
                Port::D => 0xFFFF,
            },
        )
    }
}

} // verus!
