//! Shared arithmetic vocabulary for the machine model: 16-bit wrapping,
//! byte splitting and pairing, and powers of two for bit selection.

use vstd::prelude::*;

verus! {

/// Reduce a mathematical integer into the 16-bit space.
pub open spec fn wrap16(n: int) -> u16 {
    (n % 0x10000) as u16
}

/// 16-bit wrapping addition of a (possibly negative) offset.
pub open spec fn wadd16(a: u16, n: int) -> u16 {
    wrap16(a + n)
}

/// High byte of a 16-bit value.
pub open spec fn hi8(v: u16) -> u8 {
    (v / 256) as u8
}

/// Low byte of a 16-bit value.
pub open spec fn lo8(v: u16) -> u8 {
    (v % 256) as u8
}

/// Big-endian concatenation of two bytes into a 16-bit value.
pub open spec fn pair16(hi: u8, lo: u8) -> u16 {
    (hi * 256 + lo) as u16
}

/// Interpret a byte as a two's-complement displacement in -128..=127.
pub open spec fn signed8(n: u8) -> int {
    if n < 128 {
        n as int
    } else {
        n - 256
    }
}

/// 2^i for a bit index i in 0..=7.
pub open spec fn pow2_8(i: int) -> u8 {
    if i <= 0 {
        1
    } else if i == 1 {
        2
    } else if i == 2 {
        4
    } else if i == 3 {
        8
    } else if i == 4 {
        16
    } else if i == 5 {
        32
    } else if i == 6 {
        64
    } else {
        128
    }
}

/// Wrapping additions compose: offsetting twice is offsetting by the sum.
pub broadcast proof fn lemma_wadd16_chain(a: u16, i: int, j: int)
    ensures
        #[trigger] wadd16(wadd16(a, i), j) == wadd16(a, i + j),
{
    vstd::arithmetic::div_mod::lemma_add_mod_noop(a + i, j, 0x10000);
    vstd::arithmetic::div_mod::lemma_mod_mod(a + i, 0x10000, 1);
    assert((a + i) % 0x10000 % 0x10000 == (a + i) % 0x10000) by {
        vstd::arithmetic::div_mod::lemma_mod_twice(a + i, 0x10000);
    }
}

/// Splitting a 16-bit value into bytes and pairing them again is the identity.
pub proof fn lemma_pair_split(v: u16)
    ensures
        pair16(hi8(v), lo8(v)) == v,
{
}

/// Pairing two bytes and splitting the result returns the bytes.
pub proof fn lemma_split_pair(hi: u8, lo: u8)
    ensures
        hi8(pair16(hi, lo)) == hi,
        lo8(pair16(hi, lo)) == lo,
{
}

} // verus!
