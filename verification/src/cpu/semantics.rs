//! The instruction-level semantics: a specification interpreter over the
//! abstract machine state.  `spec_step` says exactly what one fetched,
//! decoded and executed instruction does to the CPU, the bus, and the cycle
//! counter; the executable interpreter is verified against it.

use vstd::prelude::*;
use crate::arith::{hi8, lo8, signed8, wadd16};
use crate::cpu::alu::{
    alu_adc, alu_add, alu_and, alu_cp, alu_daa, alu_dec, alu_inc, alu_or, alu_sbc, alu_sub,
    alu_xor, bit_flags, bit_res, bit_set, rot_rl, rot_rlc, rot_rr, rot_rrc, rot_sla, rot_sra,
    rot_srl, rot_swap, Alu8,
};
use crate::cpu::registers::{
    set_af16, set_bc16, set_de16, set_hl16, spec_af, spec_bc, spec_de, spec_hl, Flags, Registers,
};
use crate::cpu::Cpu;
use crate::memory::{
    spec_bus_read, spec_bus_read16, spec_bus_write, spec_bus_write16, BusAbs,
};

verus! {

/// What one instruction does: the machine state after it and its cycle cost.
pub ghost struct StepOut {
    pub cpu: Cpu,
    pub bus: BusAbs,
    pub cycles: u8,
}

/// 8-bit register selected by an operand index in the canonical decode order
/// B, C, D, E, H, L, (HL), A; index 6 is the memory operand and never reaches
/// this function.
pub open spec fn get_r8(r: Registers, i: int) -> u8 {
    if i == 0 {
        r.b
    } else if i == 1 {
        r.c
    } else if i == 2 {
        r.d
    } else if i == 3 {
        r.e
    } else if i == 4 {
        r.h
    } else if i == 5 {
        r.l
    } else {
        r.a
    }
}

/// Register file with the register at index `i` replaced (same order).
pub open spec fn set_r8(r: Registers, i: int, v: u8) -> Registers {
    if i == 0 {
        Registers { b: v, ..r }
    } else if i == 1 {
        Registers { c: v, ..r }
    } else if i == 2 {
        Registers { d: v, ..r }
    } else if i == 3 {
        Registers { e: v, ..r }
    } else if i == 4 {
        Registers { h: v, ..r }
    } else if i == 5 {
        Registers { l: v, ..r }
    } else {
        Registers { a: v, ..r }
    }
}

/// Operand byte of a CB-prefixed instruction: a register, or the byte at HL.
pub open spec fn spec_cb_operand(c: Cpu, b: BusAbs, sel: int) -> u8 {
    if sel == 6 {
        spec_bus_read(b, spec_hl(c.registers))
    } else {
        get_r8(c.registers, sel)
    }
}

/// The bus after pushing a 16-bit value: high byte at SP-1, low at SP-2.
pub open spec fn spec_push16(sp: u16, b: BusAbs, v: u16) -> BusAbs {
    spec_bus_write(spec_bus_write(b, wadd16(sp, -1), hi8(v)), wadd16(sp, -2), lo8(v))
}

/// Accumulator-targeted ALU operation selected by bits 3-5 of the opcode, in
/// the canonical order ADD, ADC, SUB, SBC, AND, XOR, OR, CP.
pub open spec fn spec_apply_alu(k: int, r: Registers, v: u8) -> Registers {
    if k == 0 {
        let o = alu_add(r.a, v);
        Registers { a: o.r, f: o.f, ..r }
    } else if k == 1 {
        let o = alu_adc(r.a, v, r.f.c);
        Registers { a: o.r, f: o.f, ..r }
    } else if k == 2 {
        let o = alu_sub(r.a, v);
        Registers { a: o.r, f: o.f, ..r }
    } else if k == 3 {
        let o = alu_sbc(r.a, v, r.f.c);
        Registers { a: o.r, f: o.f, ..r }
    } else if k == 4 {
        let o = alu_and(r.a, v);
        Registers { a: o.r, f: o.f, ..r }
    } else if k == 5 {
        let o = alu_xor(r.a, v);
        Registers { a: o.r, f: o.f, ..r }
    } else if k == 6 {
        let o = alu_or(r.a, v);
        Registers { a: o.r, f: o.f, ..r }
    } else {
        Registers { f: alu_cp(r.a, v), ..r }
    }
}

/// Rotate/shift operation selected by bits 3-5 of a CB opcode, in the order
/// RLC, RRC, RL, RR, SLA, SRA, SWAP, SRL.
pub open spec fn spec_rot_apply(k: int, v: u8, cin: bool) -> Alu8 {
    if k == 0 {
        rot_rlc(v)
    } else if k == 1 {
        rot_rrc(v)
    } else if k == 2 {
        rot_rl(v, cin)
    } else if k == 3 {
        rot_rr(v, cin)
    } else if k == 4 {
        rot_sla(v)
    } else if k == 5 {
        rot_sra(v)
    } else if k == 6 {
        rot_swap(v)
    } else {
        rot_srl(v)
    }
}

/// The 8-bit register-transfer block 0x40..=0x7F (0x76 excepted: HALT).
/// `c` is the state with PC already past the opcode.
pub open spec fn spec_op_ld(c: Cpu, b: BusAbs, op: u8) -> StepOut {
    let dst = (op / 8) % 8;
    let src = op % 8;
    if src == 6 {
        let v = spec_bus_read(b, spec_hl(c.registers));
        StepOut { cpu: Cpu { registers: set_r8(c.registers, dst as int, v), ..c }, bus: b, cycles: 8 }
    } else if dst == 6 {
        StepOut {
            cpu: c,
            bus: spec_bus_write(b, spec_hl(c.registers), get_r8(c.registers, src as int)),
            cycles: 8,
        }
    } else {
        StepOut {
            cpu: Cpu {
                registers: set_r8(c.registers, dst as int, get_r8(c.registers, src as int)),
                ..c
            },
            bus: b,
            cycles: 4,
        }
    }
}

/// The accumulator ALU block 0x80..=0xBF.
pub open spec fn spec_op_alu(c: Cpu, b: BusAbs, op: u8) -> StepOut {
    let k = ((op / 8) % 8) as int;
    let src = op % 8;
    if src == 6 {
        let v = spec_bus_read(b, spec_hl(c.registers));
        StepOut { cpu: Cpu { registers: spec_apply_alu(k, c.registers, v), ..c }, bus: b, cycles: 8 }
    } else {
        StepOut {
            cpu: Cpu {
                registers: spec_apply_alu(k, c.registers, get_r8(c.registers, src as int)),
                ..c
            },
            bus: b,
            cycles: 4,
        }
    }
}

/// The CB-prefixed block: rotates/shifts, BIT, RES, SET.  `c` is the state
/// with PC past both the 0xCB byte and the second opcode byte `op`.
#[verifier::opaque]
pub open spec fn spec_op_cb(c: Cpu, b: BusAbs, op: u8) -> StepOut {
    let fam = op / 64;
    let idx = ((op / 8) % 8) as int;
    let sel = (op % 8) as int;
    let v = spec_cb_operand(c, b, sel);
    if fam == 0 {
        let o = spec_rot_apply(idx, v, c.registers.f.c);
        if sel == 6 {
            StepOut {
                cpu: Cpu { registers: Registers { f: o.f, ..c.registers }, ..c },
                bus: spec_bus_write(b, spec_hl(c.registers), o.r),
                cycles: 16,
            }
        } else {
            StepOut {
                cpu: Cpu { registers: Registers { f: o.f, ..set_r8(c.registers, sel, o.r) }, ..c },
                bus: b,
                cycles: 8,
            }
        }
    } else if fam == 1 {
        StepOut {
            cpu: Cpu {
                registers: Registers { f: bit_flags(v, idx, c.registers.f), ..c.registers },
                ..c
            },
            bus: b,
            cycles: if sel == 6 {
                12
            } else {
                8
            },
        }
    } else if fam == 2 {
        if sel == 6 {
            StepOut { cpu: c, bus: spec_bus_write(b, spec_hl(c.registers), bit_res(v, idx)), cycles: 16 }
        } else {
            StepOut {
                cpu: Cpu { registers: set_r8(c.registers, sel, bit_res(v, idx)), ..c },
                bus: b,
                cycles: 8,
            }
        }
    } else {
        if sel == 6 {
            StepOut { cpu: c, bus: spec_bus_write(b, spec_hl(c.registers), bit_set(v, idx)), cycles: 16 }
        } else {
            StepOut {
                cpu: Cpu { registers: set_r8(c.registers, sel, bit_set(v, idx)), ..c },
                bus: b,
                cycles: 8,
            }
        }
    }
}

/// The opcodes below 0x40: loads, 16-bit arithmetic, rotates on A, relative
/// jumps, and the miscellaneous single-byte operations.
#[verifier::opaque]
pub open spec fn spec_op_low(c: Cpu, b: BusAbs, op: u8) -> StepOut {
    let r = c.registers;
    let f = r.f;
    if op == 0x00 {
        StepOut { cpu: c, bus: b, cycles: 4 }
    } else if op == 0x01 {
        StepOut {
            cpu: Cpu { registers: set_bc16(r, spec_bus_read16(b, c.pc)), pc: wadd16(c.pc, 2), ..c },
            bus: b,
            cycles: 12,
        }
    } else if op == 0x02 {
        StepOut { cpu: c, bus: spec_bus_write(b, spec_bc(r), r.a), cycles: 8 }
    } else if op == 0x03 {
        StepOut { cpu: Cpu { registers: set_bc16(r, wadd16(spec_bc(r), 1)), ..c }, bus: b, cycles: 8 }
    } else if op == 0x04 {
        let o = alu_inc(r.b, f);
        StepOut { cpu: Cpu { registers: Registers { b: o.r, f: o.f, ..r }, ..c }, bus: b, cycles: 4 }
    } else if op == 0x05 {
        let o = alu_dec(r.b, f);
        StepOut { cpu: Cpu { registers: Registers { b: o.r, f: o.f, ..r }, ..c }, bus: b, cycles: 4 }
    } else if op == 0x06 {
        StepOut {
            cpu: Cpu {
                registers: Registers { b: spec_bus_read(b, c.pc), ..r },
                pc: wadd16(c.pc, 1),
                ..c
            },
            bus: b,
            cycles: 8,
        }
    } else if op == 0x07 {
        let o = rot_rlc(r.a);
        StepOut {
            cpu: Cpu {
                registers: Registers { a: o.r, f: Flags { z: false, n: false, h: false, c: o.f.c }, ..r },
                ..c
            },
            bus: b,
            cycles: 4,
        }
    } else if op == 0x08 {
        StepOut {
            cpu: Cpu { pc: wadd16(c.pc, 2), ..c },
            bus: spec_bus_write16(b, spec_bus_read16(b, c.pc), c.sp),
            cycles: 20,
        }
    } else if op == 0x0A {
        StepOut {
            cpu: Cpu { registers: Registers { a: spec_bus_read(b, spec_bc(r)), ..r }, ..c },
            bus: b,
            cycles: 8,
        }
    } else if op == 0x0B {
        StepOut { cpu: Cpu { registers: set_bc16(r, wadd16(spec_bc(r), -1)), ..c }, bus: b, cycles: 8 }
    } else if op == 0x0C {
        let o = alu_inc(r.c, f);
        StepOut { cpu: Cpu { registers: Registers { c: o.r, f: o.f, ..r }, ..c }, bus: b, cycles: 4 }
    } else if op == 0x0D {
        let o = alu_dec(r.c, f);
        StepOut { cpu: Cpu { registers: Registers { c: o.r, f: o.f, ..r }, ..c }, bus: b, cycles: 4 }
    } else if op == 0x0E {
        StepOut {
            cpu: Cpu {
                registers: Registers { c: spec_bus_read(b, c.pc), ..r },
                pc: wadd16(c.pc, 1),
                ..c
            },
            bus: b,
            cycles: 8,
        }
    } else if op == 0x0F {
        let o = rot_rrc(r.a);
        StepOut {
            cpu: Cpu {
                registers: Registers { a: o.r, f: Flags { z: false, n: false, h: false, c: o.f.c }, ..r },
                ..c
            },
            bus: b,
            cycles: 4,
        }
    } else if op == 0x11 {
        StepOut {
            cpu: Cpu { registers: set_de16(r, spec_bus_read16(b, c.pc)), pc: wadd16(c.pc, 2), ..c },
            bus: b,
            cycles: 12,
        }
    } else if op == 0x12 {
        StepOut { cpu: c, bus: spec_bus_write(b, spec_de(r), r.a), cycles: 8 }
    } else if op == 0x13 {
        StepOut { cpu: Cpu { registers: set_de16(r, wadd16(spec_de(r), 1)), ..c }, bus: b, cycles: 8 }
    } else if op == 0x14 {
        let o = alu_inc(r.d, f);
        StepOut { cpu: Cpu { registers: Registers { d: o.r, f: o.f, ..r }, ..c }, bus: b, cycles: 4 }
    } else if op == 0x15 {
        let o = alu_dec(r.d, f);
        StepOut { cpu: Cpu { registers: Registers { d: o.r, f: o.f, ..r }, ..c }, bus: b, cycles: 4 }
    } else if op == 0x16 {
        StepOut {
            cpu: Cpu {
                registers: Registers { d: spec_bus_read(b, c.pc), ..r },
                pc: wadd16(c.pc, 1),
                ..c
            },
            bus: b,
            cycles: 8,
        }
    } else if op == 0x17 {
        let o = rot_rl(r.a, f.c);
        StepOut {
            cpu: Cpu {
                registers: Registers { a: o.r, f: Flags { z: false, n: false, h: false, c: o.f.c }, ..r },
                ..c
            },
            bus: b,
            cycles: 4,
        }
    } else if op == 0x18 {
        StepOut {
            cpu: Cpu { pc: wadd16(wadd16(c.pc, 1), signed8(spec_bus_read(b, c.pc))), ..c },
            bus: b,
            cycles: 12,
        }
    } else if op == 0x1A {
        StepOut {
            cpu: Cpu { registers: Registers { a: spec_bus_read(b, spec_de(r)), ..r }, ..c },
            bus: b,
            cycles: 8,
        }
    } else if op == 0x1B {
        StepOut { cpu: Cpu { registers: set_de16(r, wadd16(spec_de(r), -1)), ..c }, bus: b, cycles: 8 }
    } else if op == 0x1C {
        let o = alu_inc(r.e, f);
        StepOut { cpu: Cpu { registers: Registers { e: o.r, f: o.f, ..r }, ..c }, bus: b, cycles: 4 }
    } else if op == 0x1D {
        let o = alu_dec(r.e, f);
        StepOut { cpu: Cpu { registers: Registers { e: o.r, f: o.f, ..r }, ..c }, bus: b, cycles: 4 }
    } else if op == 0x1E {
        StepOut {
            cpu: Cpu {
                registers: Registers { e: spec_bus_read(b, c.pc), ..r },
                pc: wadd16(c.pc, 1),
                ..c
            },
            bus: b,
            cycles: 8,
        }
    } else if op == 0x1F {
        let o = rot_rr(r.a, f.c);
        StepOut {
            cpu: Cpu {
                registers: Registers { a: o.r, f: Flags { z: false, n: false, h: false, c: o.f.c }, ..r },
                ..c
            },
            bus: b,
            cycles: 4,
        }
    } else if op == 0x20 {
        let n = spec_bus_read(b, c.pc);
        if !f.z {
            StepOut { cpu: Cpu { pc: wadd16(wadd16(c.pc, 1), signed8(n)), ..c }, bus: b, cycles: 12 }
        } else {
            StepOut { cpu: Cpu { pc: wadd16(c.pc, 1), ..c }, bus: b, cycles: 8 }
        }
    } else if op == 0x21 {
        StepOut {
            cpu: Cpu { registers: set_hl16(r, spec_bus_read16(b, c.pc)), pc: wadd16(c.pc, 2), ..c },
            bus: b,
            cycles: 12,
        }
    } else if op == 0x22 {
        StepOut {
            cpu: Cpu { registers: set_hl16(r, wadd16(spec_hl(r), 1)), ..c },
            bus: spec_bus_write(b, spec_hl(r), r.a),
            cycles: 8,
        }
    } else if op == 0x23 {
        StepOut { cpu: Cpu { registers: set_hl16(r, wadd16(spec_hl(r), 1)), ..c }, bus: b, cycles: 8 }
    } else if op == 0x24 {
        let o = alu_inc(r.h, f);
        StepOut { cpu: Cpu { registers: Registers { h: o.r, f: o.f, ..r }, ..c }, bus: b, cycles: 4 }
    } else if op == 0x25 {
        let o = alu_dec(r.h, f);
        StepOut { cpu: Cpu { registers: Registers { h: o.r, f: o.f, ..r }, ..c }, bus: b, cycles: 4 }
    } else if op == 0x26 {
        StepOut {
            cpu: Cpu {
                registers: Registers { h: spec_bus_read(b, c.pc), ..r },
                pc: wadd16(c.pc, 1),
                ..c
            },
            bus: b,
            cycles: 8,
        }
    } else if op == 0x27 {
        let o = alu_daa(r.a, f);
        StepOut { cpu: Cpu { registers: Registers { a: o.r, f: o.f, ..r }, ..c }, bus: b, cycles: 4 }
    } else if op == 0x28 {
        let n = spec_bus_read(b, c.pc);
        if f.z {
            StepOut { cpu: Cpu { pc: wadd16(wadd16(c.pc, 1), signed8(n)), ..c }, bus: b, cycles: 12 }
        } else {
            StepOut { cpu: Cpu { pc: wadd16(c.pc, 1), ..c }, bus: b, cycles: 8 }
        }
    } else if op == 0x2A {
        StepOut {
            cpu: Cpu {
                registers: set_hl16(
                    Registers { a: spec_bus_read(b, spec_hl(r)), ..r },
                    wadd16(spec_hl(r), 1),
                ),
                ..c
            },
            bus: b,
            cycles: 8,
        }
    } else if op == 0x2B {
        StepOut { cpu: Cpu { registers: set_hl16(r, wadd16(spec_hl(r), -1)), ..c }, bus: b, cycles: 8 }
    } else if op == 0x2C {
        let o = alu_inc(r.l, f);
        StepOut { cpu: Cpu { registers: Registers { l: o.r, f: o.f, ..r }, ..c }, bus: b, cycles: 4 }
    } else if op == 0x2D {
        let o = alu_dec(r.l, f);
        StepOut { cpu: Cpu { registers: Registers { l: o.r, f: o.f, ..r }, ..c }, bus: b, cycles: 4 }
    } else if op == 0x2E {
        StepOut {
            cpu: Cpu {
                registers: Registers { l: spec_bus_read(b, c.pc), ..r },
                pc: wadd16(c.pc, 1),
                ..c
            },
            bus: b,
            cycles: 8,
        }
    } else if op == 0x2F {
        StepOut {
            cpu: Cpu {
                registers: Registers {
                    a: (255 - r.a) as u8,
                    f: Flags { z: f.z, n: true, h: true, c: f.c },
                    ..r
                },
                ..c
            },
            bus: b,
            cycles: 4,
        }
    } else if op == 0x30 {
        let n = spec_bus_read(b, c.pc);
        if !f.c {
            StepOut { cpu: Cpu { pc: wadd16(wadd16(c.pc, 1), signed8(n)), ..c }, bus: b, cycles: 12 }
        } else {
            StepOut { cpu: Cpu { pc: wadd16(c.pc, 1), ..c }, bus: b, cycles: 8 }
        }
    } else if op == 0x31 {
        StepOut {
            cpu: Cpu { sp: spec_bus_read16(b, c.pc), pc: wadd16(c.pc, 2), ..c },
            bus: b,
            cycles: 12,
        }
    } else if op == 0x32 {
        StepOut {
            cpu: Cpu { registers: set_hl16(r, wadd16(spec_hl(r), -1)), ..c },
            bus: spec_bus_write(b, spec_hl(r), r.a),
            cycles: 8,
        }
    } else if op == 0x33 {
        StepOut { cpu: Cpu { sp: wadd16(c.sp, 1), ..c }, bus: b, cycles: 8 }
    } else if op == 0x34 {
        let o = alu_inc(spec_bus_read(b, spec_hl(r)), f);
        StepOut {
            cpu: Cpu { registers: Registers { f: o.f, ..r }, ..c },
            bus: spec_bus_write(b, spec_hl(r), o.r),
            cycles: 12,
        }
    } else if op == 0x35 {
        let o = alu_dec(spec_bus_read(b, spec_hl(r)), f);
        StepOut {
            cpu: Cpu { registers: Registers { f: o.f, ..r }, ..c },
            bus: spec_bus_write(b, spec_hl(r), o.r),
            cycles: 12,
        }
    } else if op == 0x36 {
        StepOut {
            cpu: Cpu { pc: wadd16(c.pc, 1), ..c },
            bus: spec_bus_write(b, spec_hl(r), spec_bus_read(b, c.pc)),
            cycles: 12,
        }
    } else if op == 0x37 {
        StepOut {
            cpu: Cpu {
                registers: Registers { f: Flags { z: f.z, n: false, h: false, c: true }, ..r },
                ..c
            },
            bus: b,
            cycles: 4,
        }
    } else if op == 0x38 {
        let n = spec_bus_read(b, c.pc);
        if f.c {
            StepOut { cpu: Cpu { pc: wadd16(wadd16(c.pc, 1), signed8(n)), ..c }, bus: b, cycles: 12 }
        } else {
            StepOut { cpu: Cpu { pc: wadd16(c.pc, 1), ..c }, bus: b, cycles: 8 }
        }
    } else if op == 0x3A {
        StepOut {
            cpu: Cpu {
                registers: set_hl16(
                    Registers { a: spec_bus_read(b, spec_hl(r)), ..r },
                    wadd16(spec_hl(r), -1),
                ),
                ..c
            },
            bus: b,
            cycles: 8,
        }
    } else if op == 0x3B {
        StepOut { cpu: Cpu { sp: wadd16(c.sp, -1), ..c }, bus: b, cycles: 8 }
    } else if op == 0x3C {
        let o = alu_inc(r.a, f);
        StepOut { cpu: Cpu { registers: Registers { a: o.r, f: o.f, ..r }, ..c }, bus: b, cycles: 4 }
    } else if op == 0x3D {
        let o = alu_dec(r.a, f);
        StepOut { cpu: Cpu { registers: Registers { a: o.r, f: o.f, ..r }, ..c }, bus: b, cycles: 4 }
    } else if op == 0x3E {
        StepOut {
            cpu: Cpu {
                registers: Registers { a: spec_bus_read(b, c.pc), ..r },
                pc: wadd16(c.pc, 1),
                ..c
            },
            bus: b,
            cycles: 8,
        }
    } else if op == 0x3F {
        StepOut {
            cpu: Cpu {
                registers: Registers { f: Flags { z: f.z, n: false, h: false, c: !f.c }, ..r },
                ..c
            },
            bus: b,
            cycles: 4,
        }
    } else {
        StepOut { cpu: c, bus: b, cycles: 0 }
    }
}

/// The opcodes from 0xC0 up: stack, calls, returns, jumps, immediate ALU,
/// high-memory loads, interrupt control, and the CB prefix.
#[verifier::opaque]
pub open spec fn spec_op_high(c: Cpu, b: BusAbs, op: u8) -> StepOut {
    let r = c.registers;
    let f = r.f;
    if op == 0xC0 {
        if !f.z {
            StepOut {
                cpu: Cpu { pc: spec_bus_read16(b, c.sp), sp: wadd16(c.sp, 2), ..c },
                bus: b,
                cycles: 20,
            }
        } else {
            StepOut { cpu: c, bus: b, cycles: 8 }
        }
    } else if op == 0xC1 {
        StepOut {
            cpu: Cpu { registers: set_bc16(r, spec_bus_read16(b, c.sp)), sp: wadd16(c.sp, 2), ..c },
            bus: b,
            cycles: 12,
        }
    } else if op == 0xC2 {
        if !f.z {
            StepOut { cpu: Cpu { pc: spec_bus_read16(b, c.pc), ..c }, bus: b, cycles: 16 }
        } else {
            StepOut { cpu: Cpu { pc: wadd16(c.pc, 2), ..c }, bus: b, cycles: 12 }
        }
    } else if op == 0xC3 {
        StepOut { cpu: Cpu { pc: spec_bus_read16(b, c.pc), ..c }, bus: b, cycles: 16 }
    } else if op == 0xC4 {
        if !f.z {
            StepOut {
                cpu: Cpu { pc: spec_bus_read16(b, c.pc), sp: wadd16(c.sp, -2), ..c },
                bus: spec_push16(c.sp, b, wadd16(c.pc, 2)),
                cycles: 24,
            }
        } else {
            StepOut { cpu: Cpu { pc: wadd16(c.pc, 2), ..c }, bus: b, cycles: 12 }
        }
    } else if op == 0xC5 {
        StepOut {
            cpu: Cpu { sp: wadd16(c.sp, -2), ..c },
            bus: spec_push16(c.sp, b, spec_bc(r)),
            cycles: 16,
        }
    } else if op == 0xC6 {
        StepOut {
            cpu: Cpu {
                registers: spec_apply_alu(0, r, spec_bus_read(b, c.pc)),
                pc: wadd16(c.pc, 1),
                ..c
            },
            bus: b,
            cycles: 8,
        }
    } else if op == 0xC7 {
        StepOut {
            cpu: Cpu { pc: 0x00, sp: wadd16(c.sp, -2), ..c },
            bus: spec_push16(c.sp, b, c.pc),
            cycles: 16,
        }
    } else if op == 0xC8 {
        if f.z {
            StepOut {
                cpu: Cpu { pc: spec_bus_read16(b, c.sp), sp: wadd16(c.sp, 2), ..c },
                bus: b,
                cycles: 20,
            }
        } else {
            StepOut { cpu: c, bus: b, cycles: 8 }
        }
    } else if op == 0xC9 {
        StepOut {
            cpu: Cpu { pc: spec_bus_read16(b, c.sp), sp: wadd16(c.sp, 2), ..c },
            bus: b,
            cycles: 16,
        }
    } else if op == 0xCA {
        if f.z {
            StepOut { cpu: Cpu { pc: spec_bus_read16(b, c.pc), ..c }, bus: b, cycles: 16 }
        } else {
            StepOut { cpu: Cpu { pc: wadd16(c.pc, 2), ..c }, bus: b, cycles: 12 }
        }
    } else if op == 0xCB {
        spec_op_cb(Cpu { pc: wadd16(c.pc, 1), ..c }, b, spec_bus_read(b, c.pc))
    } else if op == 0xCC {
        if f.z {
            StepOut {
                cpu: Cpu { pc: spec_bus_read16(b, c.pc), sp: wadd16(c.sp, -2), ..c },
                bus: spec_push16(c.sp, b, wadd16(c.pc, 2)),
                cycles: 24,
            }
        } else {
            StepOut { cpu: Cpu { pc: wadd16(c.pc, 2), ..c }, bus: b, cycles: 12 }
        }
    } else if op == 0xCD {
        StepOut {
            cpu: Cpu { pc: spec_bus_read16(b, c.pc), sp: wadd16(c.sp, -2), ..c },
            bus: spec_push16(c.sp, b, wadd16(c.pc, 2)),
            cycles: 24,
        }
    } else if op == 0xCE {
        StepOut {
            cpu: Cpu {
                registers: spec_apply_alu(1, r, spec_bus_read(b, c.pc)),
                pc: wadd16(c.pc, 1),
                ..c
            },
            bus: b,
            cycles: 8,
        }
    } else if op == 0xCF {
        StepOut {
            cpu: Cpu { pc: 0x08, sp: wadd16(c.sp, -2), ..c },
            bus: spec_push16(c.sp, b, c.pc),
            cycles: 16,
        }
    } else if op == 0xD0 {
        if !f.c {
            StepOut {
                cpu: Cpu { pc: spec_bus_read16(b, c.sp), sp: wadd16(c.sp, 2), ..c },
                bus: b,
                cycles: 20,
            }
        } else {
            StepOut { cpu: c, bus: b, cycles: 8 }
        }
    } else if op == 0xD1 {
        StepOut {
            cpu: Cpu { registers: set_de16(r, spec_bus_read16(b, c.sp)), sp: wadd16(c.sp, 2), ..c },
            bus: b,
            cycles: 12,
        }
    } else if op == 0xD2 {
        if !f.c {
            StepOut { cpu: Cpu { pc: spec_bus_read16(b, c.pc), ..c }, bus: b, cycles: 16 }
        } else {
            StepOut { cpu: Cpu { pc: wadd16(c.pc, 2), ..c }, bus: b, cycles: 12 }
        }
    } else if op == 0xD4 {
        if !f.c {
            StepOut {
                cpu: Cpu { pc: spec_bus_read16(b, c.pc), sp: wadd16(c.sp, -2), ..c },
                bus: spec_push16(c.sp, b, wadd16(c.pc, 2)),
                cycles: 24,
            }
        } else {
            StepOut { cpu: Cpu { pc: wadd16(c.pc, 2), ..c }, bus: b, cycles: 12 }
        }
    } else if op == 0xD5 {
        StepOut {
            cpu: Cpu { sp: wadd16(c.sp, -2), ..c },
            bus: spec_push16(c.sp, b, spec_de(r)),
            cycles: 16,
        }
    } else if op == 0xD6 {
        StepOut {
            cpu: Cpu {
                registers: spec_apply_alu(2, r, spec_bus_read(b, c.pc)),
                pc: wadd16(c.pc, 1),
                ..c
            },
            bus: b,
            cycles: 8,
        }
    } else if op == 0xD7 {
        StepOut {
            cpu: Cpu { pc: 0x10, sp: wadd16(c.sp, -2), ..c },
            bus: spec_push16(c.sp, b, c.pc),
            cycles: 16,
        }
    } else if op == 0xD8 {
        if f.c {
            StepOut {
                cpu: Cpu { pc: spec_bus_read16(b, c.sp), sp: wadd16(c.sp, 2), ..c },
                bus: b,
                cycles: 20,
            }
        } else {
            StepOut { cpu: c, bus: b, cycles: 8 }
        }
    } else if op == 0xD9 {
        StepOut {
            cpu: Cpu {
                pc: spec_bus_read16(b, c.sp),
                sp: wadd16(c.sp, 2),
                interrupts_enabled: true,
                ..c
            },
            bus: b,
            cycles: 16,
        }
    } else if op == 0xDA {
        if f.c {
            StepOut { cpu: Cpu { pc: spec_bus_read16(b, c.pc), ..c }, bus: b, cycles: 16 }
        } else {
            StepOut { cpu: Cpu { pc: wadd16(c.pc, 2), ..c }, bus: b, cycles: 12 }
        }
    } else if op == 0xDC {
        if f.c {
            StepOut {
                cpu: Cpu { pc: spec_bus_read16(b, c.pc), sp: wadd16(c.sp, -2), ..c },
                bus: spec_push16(c.sp, b, wadd16(c.pc, 2)),
                cycles: 24,
            }
        } else {
            StepOut { cpu: Cpu { pc: wadd16(c.pc, 2), ..c }, bus: b, cycles: 12 }
        }
    } else if op == 0xDE {
        StepOut {
            cpu: Cpu {
                registers: spec_apply_alu(3, r, spec_bus_read(b, c.pc)),
                pc: wadd16(c.pc, 1),
                ..c
            },
            bus: b,
            cycles: 8,
        }
    } else if op == 0xDF {
        StepOut {
            cpu: Cpu { pc: 0x18, sp: wadd16(c.sp, -2), ..c },
            bus: spec_push16(c.sp, b, c.pc),
            cycles: 16,
        }
    } else if op == 0xE0 {
        StepOut {
            cpu: Cpu { pc: wadd16(c.pc, 1), ..c },
            bus: spec_bus_write(b, (0xFF00 + spec_bus_read(b, c.pc)) as u16, r.a),
            cycles: 12,
        }
    } else if op == 0xE1 {
        StepOut {
            cpu: Cpu { registers: set_hl16(r, spec_bus_read16(b, c.sp)), sp: wadd16(c.sp, 2), ..c },
            bus: b,
            cycles: 12,
        }
    } else if op == 0xE2 {
        StepOut { cpu: c, bus: spec_bus_write(b, (0xFF00 + r.c) as u16, r.a), cycles: 8 }
    } else if op == 0xE5 {
        StepOut {
            cpu: Cpu { sp: wadd16(c.sp, -2), ..c },
            bus: spec_push16(c.sp, b, spec_hl(r)),
            cycles: 16,
        }
    } else if op == 0xE6 {
        StepOut {
            cpu: Cpu {
                registers: spec_apply_alu(4, r, spec_bus_read(b, c.pc)),
                pc: wadd16(c.pc, 1),
                ..c
            },
            bus: b,
            cycles: 8,
        }
    } else if op == 0xE7 {
        StepOut {
            cpu: Cpu { pc: 0x20, sp: wadd16(c.sp, -2), ..c },
            bus: spec_push16(c.sp, b, c.pc),
            cycles: 16,
        }
    } else if op == 0xEA {
        StepOut {
            cpu: Cpu { pc: wadd16(c.pc, 2), ..c },
            bus: spec_bus_write(b, spec_bus_read16(b, c.pc), r.a),
            cycles: 16,
        }
    } else if op == 0xEE {
        StepOut {
            cpu: Cpu {
                registers: spec_apply_alu(5, r, spec_bus_read(b, c.pc)),
                pc: wadd16(c.pc, 1),
                ..c
            },
            bus: b,
            cycles: 8,
        }
    } else if op == 0xEF {
        StepOut {
            cpu: Cpu { pc: 0x28, sp: wadd16(c.sp, -2), ..c },
            bus: spec_push16(c.sp, b, c.pc),
            cycles: 16,
        }
    } else if op == 0xF0 {
        StepOut {
            cpu: Cpu {
                registers: Registers {
                    a: spec_bus_read(b, (0xFF00 + spec_bus_read(b, c.pc)) as u16),
                    ..r
                },
                pc: wadd16(c.pc, 1),
                ..c
            },
            bus: b,
            cycles: 12,
        }
    } else if op == 0xF1 {
        StepOut {
            cpu: Cpu { registers: set_af16(r, spec_bus_read16(b, c.sp)), sp: wadd16(c.sp, 2), ..c },
            bus: b,
            cycles: 12,
        }
    } else if op == 0xF2 {
        StepOut {
            cpu: Cpu { registers: Registers { a: spec_bus_read(b, (0xFF00 + r.c) as u16), ..r }, ..c },
            bus: b,
            cycles: 8,
        }
    } else if op == 0xF3 {
        StepOut { cpu: Cpu { interrupts_enabled: false, ..c }, bus: b, cycles: 4 }
    } else if op == 0xF5 {
        StepOut {
            cpu: Cpu { sp: wadd16(c.sp, -2), ..c },
            bus: spec_push16(c.sp, b, spec_af(r)),
            cycles: 16,
        }
    } else if op == 0xF6 {
        StepOut {
            cpu: Cpu {
                registers: spec_apply_alu(6, r, spec_bus_read(b, c.pc)),
                pc: wadd16(c.pc, 1),
                ..c
            },
            bus: b,
            cycles: 8,
        }
    } else if op == 0xF7 {
        StepOut {
            cpu: Cpu { pc: 0x30, sp: wadd16(c.sp, -2), ..c },
            bus: spec_push16(c.sp, b, c.pc),
            cycles: 16,
        }
    } else if op == 0xF8 {
        let n = spec_bus_read(b, c.pc);
        StepOut {
            cpu: Cpu {
                registers: set_hl16(
                    Registers {
                        f: Flags {
                            z: false,
                            n: false,
                            h: c.sp % 16 + n % 16 > 15,
                            c: c.sp % 256 + n > 255,
                        },
                        ..r
                    },
                    wadd16(c.sp, signed8(n)),
                ),
                pc: wadd16(c.pc, 1),
                ..c
            },
            bus: b,
            cycles: 12,
        }
    } else if op == 0xF9 {
        StepOut { cpu: Cpu { sp: spec_hl(r), ..c }, bus: b, cycles: 8 }
    } else if op == 0xFA {
        StepOut {
            cpu: Cpu {
                registers: Registers { a: spec_bus_read(b, spec_bus_read16(b, c.pc)), ..r },
                pc: wadd16(c.pc, 2),
                ..c
            },
            bus: b,
            cycles: 16,
        }
    } else if op == 0xFB {
        StepOut { cpu: Cpu { interrupts_enabled: true, ..c }, bus: b, cycles: 4 }
    } else if op == 0xFE {
        StepOut {
            cpu: Cpu {
                registers: spec_apply_alu(7, r, spec_bus_read(b, c.pc)),
                pc: wadd16(c.pc, 1),
                ..c
            },
            bus: b,
            cycles: 8,
        }
    } else if op == 0xFF {
        StepOut {
            cpu: Cpu { pc: 0x38, sp: wadd16(c.sp, -2), ..c },
            bus: spec_push16(c.sp, b, c.pc),
            cycles: 16,
        }
    } else {
        StepOut { cpu: c, bus: b, cycles: 0 }
    }
}

/// One decoded instruction, given the state `c` with PC already past the
/// opcode byte `op`.  Opaque: provers reveal it only where an instruction is
/// actually decoded, so machine-level reasoning can treat a step atomically.
#[verifier::opaque]
pub open spec fn spec_exec_op(c: Cpu, b: BusAbs, op: u8) -> StepOut {
    if op < 0x40 {
        spec_op_low(c, b, op)
    } else if op == 0x76 {
        StepOut { cpu: Cpu { halted: true, ..c }, bus: b, cycles: 4 }
    } else if op < 0x80 {
        spec_op_ld(c, b, op)
    } else if op < 0xC0 {
        spec_op_alu(c, b, op)
    } else {
        spec_op_high(c, b, op)
    }
}

/// The opcodes the instruction maps define.  The remaining bytes (the unused
/// encodings, STOP, the 16-bit HL/SP adds, and JP (HL)) are outside the maps
/// and rejected by the interpreter's precondition.
pub open spec fn spec_supported_op(op: u8) -> bool {
    !(op == 0x09 || op == 0x19 || op == 0x29 || op == 0x39 || op == 0x10 || op == 0xD3
        || op == 0xDB || op == 0xDD || op == 0xE3 || op == 0xE4 || op == 0xE8 || op == 0xE9
        || op == 0xEB || op == 0xEC || op == 0xED || op == 0xF4 || op == 0xFC || op == 0xFD)
}

/// One full step: fetch the opcode at PC, advance past it, execute.
pub open spec fn spec_step(cpu: Cpu, b: BusAbs) -> StepOut {
    spec_exec_op(Cpu { pc: wadd16(cpu.pc, 1), ..cpu }, b, spec_bus_read(b, cpu.pc))
}

/// The opcode the next step would fetch is inside the instruction maps.
pub open spec fn spec_step_supported(cpu: Cpu, b: BusAbs) -> bool {
    spec_supported_op(spec_bus_read(b, cpu.pc))
}

} // verus!
