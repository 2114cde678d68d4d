//! Value-level semantics of the 8-bit arithmetic, logic, rotate and shift
//! operations, with the exact flag rules of the hardware.

use vstd::prelude::*;
use crate::arith::pow2_8;
use crate::cpu::registers::Flags;

verus! {

/// An 8-bit operation result together with the flags it produces.
pub ghost struct Alu8 {
    pub r: u8,
    pub f: Flags,
}

/// ADD: Z from the result, N clear, H on carry out of bit 3, C out of bit 7.
pub open spec fn alu_add(a: u8, v: u8) -> Alu8 {
    let r = ((a + v) % 256) as u8;
    Alu8 { r, f: Flags { z: r == 0, n: false, h: a % 16 + v % 16 > 15, c: a + v > 255 } }
}

/// ADC: ADD with the incoming carry folded into the sum and both carries.
pub open spec fn alu_adc(a: u8, v: u8, cin: bool) -> Alu8 {
    let ci: int = if cin {
        1
    } else {
        0
    };
    let r = ((a + v + ci) % 256) as u8;
    Alu8 { r, f: Flags { z: r == 0, n: false, h: a % 16 + v % 16 + ci > 15, c: a + v + ci > 255 } }
}

/// SUB: Z from the result, N set, H on borrow into bit 4, C on full borrow.
pub open spec fn alu_sub(a: u8, v: u8) -> Alu8 {
    let r = ((a - v + 256) % 256) as u8;
    Alu8 { r, f: Flags { z: r == 0, n: true, h: a % 16 < v % 16, c: a < v } }
}

/// SBC: SUB with the incoming carry folded into the subtrahend and borrows.
pub open spec fn alu_sbc(a: u8, v: u8, cin: bool) -> Alu8 {
    let ci: int = if cin {
        1
    } else {
        0
    };
    let r = ((a - v - ci + 512) % 256) as u8;
    Alu8 { r, f: Flags { z: r == 0, n: true, h: (a % 16) < v % 16 + ci, c: (a as int) < v + ci } }
}

/// AND: Z from the result, H always set, N and C clear.
pub open spec fn alu_and(a: u8, v: u8) -> Alu8 {
    let r = a & v;
    Alu8 { r, f: Flags { z: r == 0, n: false, h: true, c: false } }
}

/// XOR: Z from the result, the other flags clear.
pub open spec fn alu_xor(a: u8, v: u8) -> Alu8 {
    let r = a ^ v;
    Alu8 { r, f: Flags { z: r == 0, n: false, h: false, c: false } }
}

/// OR: Z from the result, the other flags clear.
pub open spec fn alu_or(a: u8, v: u8) -> Alu8 {
    let r = a | v;
    Alu8 { r, f: Flags { z: r == 0, n: false, h: false, c: false } }
}

/// CP: the flags of SUB with the accumulator left unchanged.
pub open spec fn alu_cp(a: u8, v: u8) -> Flags {
    alu_sub(a, v).f
}

/// INC on a byte: C is preserved, H on carry out of bit 3.
pub open spec fn alu_inc(v: u8, f: Flags) -> Alu8 {
    let r = ((v + 1) % 256) as u8;
    Alu8 { r, f: Flags { z: r == 0, n: false, h: v % 16 == 15, c: f.c } }
}

/// DEC on a byte: C is preserved, H on borrow into bit 4.
pub open spec fn alu_dec(v: u8, f: Flags) -> Alu8 {
    let r = ((v + 255) % 256) as u8;
    Alu8 { r, f: Flags { z: r == 0, n: true, h: v % 16 == 0, c: f.c } }
}

/// RLC: rotate left, bit 7 into both bit 0 and the carry.
pub open spec fn rot_rlc(v: u8) -> Alu8 {
    let r = (v % 128 * 2 + v / 128) as u8;
    Alu8 { r, f: Flags { z: r == 0, n: false, h: false, c: v >= 128 } }
}

/// RRC: rotate right, bit 0 into both bit 7 and the carry.
pub open spec fn rot_rrc(v: u8) -> Alu8 {
    let r = (v % 2 * 128 + v / 2) as u8;
    Alu8 { r, f: Flags { z: r == 0, n: false, h: false, c: v % 2 == 1 } }
}

/// RL: rotate left through the carry.
pub open spec fn rot_rl(v: u8, cin: bool) -> Alu8 {
    let r = (v % 128 * 2 + if cin {
        1int
    } else {
        0int
    }) as u8;
    Alu8 { r, f: Flags { z: r == 0, n: false, h: false, c: v >= 128 } }
}

/// RR: rotate right through the carry.
pub open spec fn rot_rr(v: u8, cin: bool) -> Alu8 {
    let r = ((if cin {
        128int
    } else {
        0int
    }) + v / 2) as u8;
    Alu8 { r, f: Flags { z: r == 0, n: false, h: false, c: v % 2 == 1 } }
}

/// SLA: shift left, bit 0 becomes 0, bit 7 into the carry.
pub open spec fn rot_sla(v: u8) -> Alu8 {
    let r = (v % 128 * 2) as u8;
    Alu8 { r, f: Flags { z: r == 0, n: false, h: false, c: v >= 128 } }
}

/// SRA: shift right preserving the sign bit, bit 0 into the carry.
pub open spec fn rot_sra(v: u8) -> Alu8 {
    let r = (v / 2 + v / 128 * 128) as u8;
    Alu8 { r, f: Flags { z: r == 0, n: false, h: false, c: v % 2 == 1 } }
}

/// SWAP: exchange the nibbles; the carry is cleared.
pub open spec fn rot_swap(v: u8) -> Alu8 {
    let r = (v % 16 * 16 + v / 16) as u8;
    Alu8 { r, f: Flags { z: r == 0, n: false, h: false, c: false } }
}

/// SRL: shift right, bit 7 becomes 0, bit 0 into the carry.
pub open spec fn rot_srl(v: u8) -> Alu8 {
    let r = v / 2;
    Alu8 { r, f: Flags { z: r == 0, n: false, h: false, c: v % 2 == 1 } }
}

/// BIT: Z is the complement of the tested bit, H set, C preserved.
pub open spec fn bit_flags(v: u8, i: int, f: Flags) -> Flags {
    Flags { z: v / pow2_8(i) % 2 == 0, n: false, h: true, c: f.c }
}

/// RES: clear bit `i`; no flags change.
pub open spec fn bit_res(v: u8, i: int) -> u8 {
    if v / pow2_8(i) % 2 == 1 {
        (v - pow2_8(i)) as u8
    } else {
        v
    }
}

/// SET: set bit `i`; no flags change.
pub open spec fn bit_set(v: u8, i: int) -> u8 {
    if v / pow2_8(i) % 2 == 1 {
        v
    } else {
        (v + pow2_8(i)) as u8
    }
}

/// DAA: BCD correction after an add or subtract, steered by N, H, C and the
/// nibble values; Z reflects the adjusted result, H is cleared, N preserved.
pub open spec fn alu_daa(a: u8, f: Flags) -> Alu8 {
    let low_fix: int = if f.h || (!f.n && a % 16 > 9) {
        0x06
    } else {
        0
    };
    let high_fix: int = if f.c || (!f.n && a > 0x99) {
        0x60
    } else {
        0
    };
    let adjust = low_fix + high_fix;
    let r = if f.n {
        ((a - adjust + 256) % 256) as u8
    } else {
        ((a + adjust) % 256) as u8
    };
    Alu8 { r, f: Flags { z: r == 0, n: f.n, h: false, c: f.c || (!f.n && a > 0x99) } }
}

/// A rotate left with carry undone by a rotate right with carry returns the
/// original byte; the same holds in the other order.
pub proof fn lemma_rlc_rrc_roundtrip(v: u8)
    ensures
        rot_rrc(rot_rlc(v).r).r == v,
        rot_rlc(rot_rrc(v).r).r == v,
{
}

/// An arithmetic shift left followed by a logical shift right clears the
/// original high bit and preserves the other seven.
pub proof fn lemma_sla_srl(v: u8)
    ensures
        rot_srl(rot_sla(v).r).r == v % 128,
{
}

/// Swapping the nibbles twice is the identity.
pub proof fn lemma_swap_involution(v: u8)
    ensures
        rot_swap(rot_swap(v).r).r == v,
{
}

/// A byte with bit `i` set is at least 2^i; one with bit `i` clear has room
/// to add 2^i without leaving the byte range.
pub proof fn lemma_bit_bounds(v: u8, i: int)
    requires
        0 <= i < 8,
    ensures
        v / pow2_8(i) % 2 == 1 ==> v >= pow2_8(i),
        v / pow2_8(i) % 2 == 0 ==> v + pow2_8(i) <= 255,
{
    if i == 0 {
        assert(pow2_8(i) == 1);
        assert(v / 1 % 2 == 1 ==> v >= 1);
        assert(v / 1 % 2 == 0 ==> v <= 254);
    } else if i == 1 {
        assert(pow2_8(i) == 2);
        assert(v / 2 % 2 == 1 ==> v >= 2);
        assert(v / 2 % 2 == 0 ==> v <= 253);
    } else if i == 2 {
        assert(pow2_8(i) == 4);
        assert(v / 4 % 2 == 1 ==> v >= 4);
        assert(v / 4 % 2 == 0 ==> v <= 251);
    } else if i == 3 {
        assert(pow2_8(i) == 8);
        assert(v / 8 % 2 == 1 ==> v >= 8);
        assert(v / 8 % 2 == 0 ==> v <= 247);
    } else if i == 4 {
        assert(pow2_8(i) == 16);
        assert(v / 16 % 2 == 1 ==> v >= 16);
        assert(v / 16 % 2 == 0 ==> v <= 239);
    } else if i == 5 {
        assert(pow2_8(i) == 32);
        assert(v / 32 % 2 == 1 ==> v >= 32);
        assert(v / 32 % 2 == 0 ==> v <= 223);
    } else if i == 6 {
        assert(pow2_8(i) == 64);
        assert(v / 64 % 2 == 1 ==> v >= 64);
        assert(v / 64 % 2 == 0 ==> v <= 191);
    } else {
        assert(pow2_8(i) == 128);
        assert(v / 128 % 2 == 1 ==> v >= 128);
        assert(v / 128 % 2 == 0 ==> v <= 127);
    }
}

} // verus!
