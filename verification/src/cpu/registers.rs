//! CPU registers: eight 8-bit general registers, the four flag bits kept as
//! booleans and materialised into byte form only at the F-register boundary.

use vstd::prelude::*;
use crate::arith::{hi8, lo8, pair16};

verus! {

/// The flags register: Z (zero), N (subtract), H (half-carry), C (carry).
#[derive(Debug, Clone, Copy)]
pub struct Flags {
    pub z: bool,
    pub n: bool,
    pub h: bool,
    pub c: bool,
}

/// Byte form of the flags: the four bits sit in the upper nibble, and the
/// lower nibble is always zero.
pub open spec fn flags_u8(f: Flags) -> u8 {
    ((if f.z {
        128int
    } else {
        0int
    }) + (if f.n {
        64int
    } else {
        0int
    }) + (if f.h {
        32int
    } else {
        0int
    }) + (if f.c {
        16int
    } else {
        0int
    })) as u8
}

/// Flags decoded from a byte; the lower nibble is ignored.
pub open spec fn spec_flags_from_u8(value: u8) -> Flags {
    Flags {
        z: value / 128 % 2 == 1,
        n: value / 64 % 2 == 1,
        h: value / 32 % 2 == 1,
        c: value / 16 % 2 == 1,
    }
}

/// Decoding the byte form of any flags gives the flags back.
pub proof fn lemma_flags_roundtrip(f: Flags)
    ensures
        spec_flags_from_u8(flags_u8(f)) == f,
{
}

/// Encoding decoded flags zeroes the low nibble and keeps the high one.
pub proof fn lemma_flags_low_nibble(value: u8)
    ensures
        flags_u8(spec_flags_from_u8(value)) == value / 16 * 16,
{
}

impl Flags {
    pub fn new() -> (f: Flags)
        ensures
            f == (Flags { z: false, n: false, h: false, c: false }),
    {
        Flags { z: false, n: false, h: false, c: false }
    }

    /// Materialise the byte form (lower 4 bits always 0).
    pub fn to_u8(&self) -> (value: u8)
        ensures
            value == flags_u8(*self),
    {
        (if self.z {
            128u8
        } else {
            0u8
        }) + (if self.n {
            64u8
        } else {
            0u8
        }) + (if self.h {
            32u8
        } else {
            0u8
        }) + (if self.c {
            16u8
        } else {
            0u8
        })
    }

    /// Load the flags from byte form.
    pub fn set_from_u8(&mut self, value: u8)
        ensures
            *final(self) == spec_flags_from_u8(value),
    {
        self.z = value / 128 % 2 == 1;
        self.n = value / 64 % 2 == 1;
        self.h = value / 32 % 2 == 1;
        self.c = value / 16 % 2 == 1;
    }
}

impl Default for Flags {
    fn default() -> (f: Flags)
        ensures
            f == (Flags { z: false, n: false, h: false, c: false }),
    {
        Flags::new()
    }
}

/// The CPU register file.
#[derive(Debug)]
pub struct Registers {
    pub a: u8,
    pub f: Flags,
    pub b: u8,
    pub c: u8,
    pub d: u8,
    pub e: u8,
    pub h: u8,
    pub l: u8,
}

/// The AF pair: A is the high byte, the flags byte the low one.
pub open spec fn spec_af(r: Registers) -> u16 {
    pair16(r.a, flags_u8(r.f))
}

pub open spec fn spec_bc(r: Registers) -> u16 {
    pair16(r.b, r.c)
}

pub open spec fn spec_de(r: Registers) -> u16 {
    pair16(r.d, r.e)
}

pub open spec fn spec_hl(r: Registers) -> u16 {
    pair16(r.h, r.l)
}

/// Registers after a 16-bit store into AF: the low nibble of F is dropped.
pub open spec fn set_af16(r: Registers, value: u16) -> Registers {
    Registers { a: hi8(value), f: spec_flags_from_u8(lo8(value)), ..r }
}

pub open spec fn set_bc16(r: Registers, value: u16) -> Registers {
    Registers { b: hi8(value), c: lo8(value), ..r }
}

pub open spec fn set_de16(r: Registers, value: u16) -> Registers {
    Registers { d: hi8(value), e: lo8(value), ..r }
}

pub open spec fn set_hl16(r: Registers, value: u16) -> Registers {
    Registers { h: hi8(value), l: lo8(value), ..r }
}

impl Registers {
    /// Post-power-on register file of the original hardware: AF = 0x01B0
    /// (Z, H and C set), BC = 0x0013, DE = 0x00D8, HL = 0x014D.
    pub fn new() -> (r: Registers)
        ensures
            r == (Registers {
                a: 0x01,
                f: Flags { z: true, n: false, h: true, c: true },
                b: 0x00,
                c: 0x13,
                d: 0x00,
                e: 0xD8,
                h: 0x01,
                l: 0x4D,
            }),
    {
        Registers {
            a: 0x01,
            f: Flags { z: true, n: false, h: true, c: true },
            b: 0x00,
            c: 0x13,
            d: 0x00,
            e: 0xD8,
            h: 0x01,
            l: 0x4D,
        }
    }

    pub fn af(&self) -> (value: u16)
        ensures
            value == spec_af(*self),
    {
        (self.a as u16) * 256 + self.f.to_u8() as u16
    }

    pub fn bc(&self) -> (value: u16)
        ensures
            value == spec_bc(*self),
    {
        (self.b as u16) * 256 + self.c as u16
    }

    pub fn de(&self) -> (value: u16)
        ensures
            value == spec_de(*self),
    {
        (self.d as u16) * 256 + self.e as u16
    }

    pub fn hl(&self) -> (value: u16)
        ensures
            value == spec_hl(*self),
    {
        (self.h as u16) * 256 + self.l as u16
    }

    pub fn set_af(&mut self, value: u16)
        ensures
            *final(self) == set_af16(*old(self), value),
    {
        self.a = (value / 256) as u8;
        self.f.set_from_u8((value % 256) as u8);
    }

    pub fn set_bc(&mut self, value: u16)
        ensures
            *final(self) == set_bc16(*old(self), value),
    {
        self.b = (value / 256) as u8;
        self.c = (value % 256) as u8;
    }

    pub fn set_de(&mut self, value: u16)
        ensures
            *final(self) == set_de16(*old(self), value),
    {
        self.d = (value / 256) as u8;
        self.e = (value % 256) as u8;
    }

    pub fn set_hl(&mut self, value: u16)
        ensures
            *final(self) == set_hl16(*old(self), value),
    {
        self.h = (value / 256) as u8;
        self.l = (value % 256) as u8;
    }
}

impl Default for Registers {
    fn default() -> (r: Registers)
        ensures
            r == (Registers {
                a: 0x01,
                f: Flags { z: true, n: false, h: true, c: true },
                b: 0x00,
                c: 0x13,
                d: 0x00,
                e: 0xD8,
                h: 0x01,
                l: 0x4D,
            }),
    {
        Registers::new()
    }
}

} // verus!
