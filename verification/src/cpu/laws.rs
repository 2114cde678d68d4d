//! The timing laws of the interpreter, and the stack round-trip laws, proved
//! of the step semantics: cycle costs and encoded lengths for every opcode,
//! branch-dependent costs for the conditional transfers, and PUSH/POP
//! restoring each register pair.

use vstd::prelude::*;
use crate::arith::{hi8, lo8, wadd16};
use crate::cpu::registers::{
    flags_u8, lemma_flags_roundtrip, set_af16, spec_af, Flags, Registers,
};
use crate::cpu::semantics::{spec_push16, spec_step, spec_supported_op};
use crate::cpu::Cpu;
use crate::memory::{
    lemma_plain_frame, lemma_write_read_roundtrip, spec_bus_read, spec_bus_read16, spec_bus_wf,
    spec_bus_write, spec_plain_backed, BusAbs,
};

verus! {

/// The control-transfer opcodes of the primary map: relative and absolute
/// jumps, calls, returns, and restarts.
pub open spec fn spec_is_transfer(op: u8) -> bool {
    ||| op == 0x18 || op == 0x20 || op == 0x28 || op == 0x30 || op == 0x38
    ||| op == 0xC0 || op == 0xC2 || op == 0xC3 || op == 0xC4 || op == 0xC7
    ||| op == 0xC8 || op == 0xC9 || op == 0xCA || op == 0xCC || op == 0xCD || op == 0xCF
    ||| op == 0xD0 || op == 0xD2 || op == 0xD4 || op == 0xD7 || op == 0xD8 || op == 0xD9
    ||| op == 0xDA || op == 0xDC || op == 0xDF
    ||| op == 0xE7 || op == 0xEF || op == 0xF7 || op == 0xFF
}

/// The conditional transfers: JR cc, JP cc, CALL cc, RET cc.
pub open spec fn spec_is_conditional(op: u8) -> bool {
    ||| op == 0x20 || op == 0x28 || op == 0x30 || op == 0x38
    ||| op == 0xC0 || op == 0xC2 || op == 0xC4 || op == 0xC8
    ||| op == 0xCA || op == 0xCC || op == 0xD0 || op == 0xD2
    ||| op == 0xD4 || op == 0xD8 || op == 0xDA || op == 0xDC
}

/// Encoded length of an instruction: the opcode byte plus its immediates.
pub open spec fn spec_instr_len(op: u8) -> int {
    if op < 0x40 {
        if op == 0x01 || op == 0x11 || op == 0x21 || op == 0x31 || op == 0x08 {
            3
        } else if op == 0x06 || op == 0x0E || op == 0x16 || op == 0x1E || op == 0x26
            || op == 0x2E || op == 0x36 || op == 0x3E || op == 0x18 || op == 0x20
            || op == 0x28 || op == 0x30 || op == 0x38 {
            2
        } else {
            1
        }
    } else if op < 0xC0 {
        1
    } else {
        if op == 0xC2 || op == 0xC3 || op == 0xC4 || op == 0xCA || op == 0xCC || op == 0xCD
            || op == 0xD2 || op == 0xD4 || op == 0xDA || op == 0xDC || op == 0xEA || op == 0xFA {
            3
        } else if op == 0xC6 || op == 0xCE || op == 0xD6 || op == 0xDE || op == 0xE6
            || op == 0xEE || op == 0xF6 || op == 0xFE || op == 0xE0 || op == 0xF0
            || op == 0xF8 || op == 0xCB {
            2
        } else {
            1
        }
    }
}

/// The documented cycle cost of each straight-line instruction.
pub open spec fn spec_base_cycles(op: u8) -> u8 {
    if op < 0x40 {
        if op == 0x00 {
            4
        } else if op == 0x01 {
            12
        } else if op == 0x02 {
            8
        } else if op == 0x03 {
            8
        } else if op == 0x04 {
            4
        } else if op == 0x05 {
            4
        } else if op == 0x06 {
            8
        } else if op == 0x07 {
            4
        } else if op == 0x08 {
            20
        } else if op == 0x0A {
            8
        } else if op == 0x0B {
            8
        } else if op == 0x0C {
            4
        } else if op == 0x0D {
            4
        } else if op == 0x0E {
            8
        } else if op == 0x0F {
            4
        } else if op == 0x11 {
            12
        } else if op == 0x12 {
            8
        } else if op == 0x13 {
            8
        } else if op == 0x14 {
            4
        } else if op == 0x15 {
            4
        } else if op == 0x16 {
            8
        } else if op == 0x17 {
            4
        } else if op == 0x1A {
            8
        } else if op == 0x1B {
            8
        } else if op == 0x1C {
            4
        } else if op == 0x1D {
            4
        } else if op == 0x1E {
            8
        } else if op == 0x1F {
            4
        } else if op == 0x21 {
            12
        } else if op == 0x22 {
            8
        } else if op == 0x23 {
            8
        } else if op == 0x24 {
            4
        } else if op == 0x25 {
            4
        } else if op == 0x26 {
            8
        } else if op == 0x27 {
            4
        } else if op == 0x2A {
            8
        } else if op == 0x2B {
            8
        } else if op == 0x2C {
            4
        } else if op == 0x2D {
            4
        } else if op == 0x2E {
            8
        } else if op == 0x2F {
            4
        } else if op == 0x31 {
            12
        } else if op == 0x32 {
            8
        } else if op == 0x33 {
            8
        } else if op == 0x34 {
            12
        } else if op == 0x35 {
            12
        } else if op == 0x36 {
            12
        } else if op == 0x37 {
            4
        } else if op == 0x3A {
            8
        } else if op == 0x3B {
            8
        } else if op == 0x3C {
            4
        } else if op == 0x3D {
            4
        } else if op == 0x3E {
            8
        } else if op == 0x3F {
            4
        } else {
            0
        }
    } else if op == 0x76 {
        4
    } else if op < 0x80 {
        if op % 8 == 6 || (op / 8) % 8 == 6 {
            8
        } else {
            4
        }
    } else if op < 0xC0 {
        if op % 8 == 6 {
            8
        } else {
            4
        }
    } else {
        if op == 0xC1 {
            12
        } else if op == 0xC5 {
            16
        } else if op == 0xC6 {
            8
        } else if op == 0xCE {
            8
        } else if op == 0xD1 {
            12
        } else if op == 0xD5 {
            16
        } else if op == 0xD6 {
            8
        } else if op == 0xDE {
            8
        } else if op == 0xE0 {
            12
        } else if op == 0xE1 {
            12
        } else if op == 0xE2 {
            8
        } else if op == 0xE5 {
            16
        } else if op == 0xE6 {
            8
        } else if op == 0xEA {
            16
        } else if op == 0xEE {
            8
        } else if op == 0xF0 {
            12
        } else if op == 0xF1 {
            12
        } else if op == 0xF2 {
            8
        } else if op == 0xF3 {
            4
        } else if op == 0xF5 {
            16
        } else if op == 0xF6 {
            8
        } else if op == 0xF8 {
            12
        } else if op == 0xF9 {
            8
        } else if op == 0xFA {
            16
        } else if op == 0xFB {
            4
        } else if op == 0xFE {
            8
        } else {
            0
        }
    }
}

/// Cycle cost of a CB-prefixed operation, by its second byte: 8 on a
/// register, 16 on (HL), except BIT on (HL) at 12.
pub open spec fn spec_cb_cycles(op: u8) -> u8 {
    if op % 8 == 6 {
        if 0x40 <= op < 0x80 {
            12
        } else {
            16
        }
    } else {
        8
    }
}

/// The flag condition a conditional transfer tests, from bits 3-4 of the
/// opcode: NZ, Z, NC, C.
pub open spec fn spec_cond_taken(op: u8, f: Flags) -> bool {
    let sel = (op / 8) % 4;
    if sel == 0 {
        !f.z
    } else if sel == 1 {
        f.z
    } else if sel == 2 {
        !f.c
    } else {
        f.c
    }
}

/// Cycle cost of a conditional transfer when its condition holds.
pub open spec fn spec_taken_cycles(op: u8) -> u8 {
    if op < 0x40 {
        12
    } else if op % 8 == 0 {
        20
    } else if op % 8 == 2 {
        16
    } else {
        24
    }
}

/// Cycle cost of a conditional transfer when its condition fails.
pub open spec fn spec_untaken_cycles(op: u8) -> u8 {
    if op < 0x40 {
        8
    } else if op % 8 == 0 {
        8
    } else {
        12
    }
}

#[verifier::rlimit(100)]
#[verifier::spinoff_prover]
proof fn lemma_timing_low_0(cpu: Cpu, b: BusAbs)
    requires
        ({
            let op = spec_bus_read(b, cpu.pc);
            &&& op <= 0x0F
            &&& spec_supported_op(op)
            &&& !spec_is_transfer(op)
        }),
    ensures
        spec_step(cpu, b).cpu.pc == wadd16(cpu.pc, spec_instr_len(spec_bus_read(b, cpu.pc))),
        spec_step(cpu, b).cycles == spec_base_cycles(spec_bus_read(b, cpu.pc)),
{
    reveal(crate::cpu::semantics::spec_exec_op);
    reveal(crate::cpu::semantics::spec_op_low);
    reveal(crate::cpu::semantics::spec_op_high);
    reveal(crate::cpu::semantics::spec_op_cb);
    crate::arith::lemma_wadd16_chain(cpu.pc, 1, 1);
    crate::arith::lemma_wadd16_chain(cpu.pc, 1, 2);
    let op = spec_bus_read(b, cpu.pc);
    if op == 0x00 {
        assert(spec_step(cpu, b).cpu.pc == wadd16(cpu.pc, spec_instr_len(op)));
        assert(spec_step(cpu, b).cycles == spec_base_cycles(op));
    } else if op == 0x01 {
        assert(spec_step(cpu, b).cpu.pc == wadd16(cpu.pc, spec_instr_len(op)));
        assert(spec_step(cpu, b).cycles == spec_base_cycles(op));
    } else if op == 0x02 {
        assert(spec_step(cpu, b).cpu.pc == wadd16(cpu.pc, spec_instr_len(op)));
        assert(spec_step(cpu, b).cycles == spec_base_cycles(op));
    } else if op == 0x03 {
        assert(spec_step(cpu, b).cpu.pc == wadd16(cpu.pc, spec_instr_len(op)));
        assert(spec_step(cpu, b).cycles == spec_base_cycles(op));
    } else if op == 0x04 {
        assert(spec_step(cpu, b).cpu.pc == wadd16(cpu.pc, spec_instr_len(op)));
        assert(spec_step(cpu, b).cycles == spec_base_cycles(op));
    } else if op == 0x05 {
        assert(spec_step(cpu, b).cpu.pc == wadd16(cpu.pc, spec_instr_len(op)));
        assert(spec_step(cpu, b).cycles == spec_base_cycles(op));
    } else if op == 0x06 {
        assert(spec_step(cpu, b).cpu.pc == wadd16(cpu.pc, spec_instr_len(op)));
        assert(spec_step(cpu, b).cycles == spec_base_cycles(op));
    } else if op == 0x07 {
        assert(spec_step(cpu, b).cpu.pc == wadd16(cpu.pc, spec_instr_len(op)));
        assert(spec_step(cpu, b).cycles == spec_base_cycles(op));
    } else if op == 0x08 {
        assert(spec_step(cpu, b).cpu.pc == wadd16(cpu.pc, spec_instr_len(op)));
        assert(spec_step(cpu, b).cycles == spec_base_cycles(op));
    } else if op == 0x0A {
        assert(spec_step(cpu, b).cpu.pc == wadd16(cpu.pc, spec_instr_len(op)));
        assert(spec_step(cpu, b).cycles == spec_base_cycles(op));
    } else if op == 0x0B {
        assert(spec_step(cpu, b).cpu.pc == wadd16(cpu.pc, spec_instr_len(op)));
        assert(spec_step(cpu, b).cycles == spec_base_cycles(op));
    } else if op == 0x0C {
        assert(spec_step(cpu, b).cpu.pc == wadd16(cpu.pc, spec_instr_len(op)));
        assert(spec_step(cpu, b).cycles == spec_base_cycles(op));
    } else if op == 0x0D {
        assert(spec_step(cpu, b).cpu.pc == wadd16(cpu.pc, spec_instr_len(op)));
        assert(spec_step(cpu, b).cycles == spec_base_cycles(op));
    } else if op == 0x0E {
        assert(spec_step(cpu, b).cpu.pc == wadd16(cpu.pc, spec_instr_len(op)));
        assert(spec_step(cpu, b).cycles == spec_base_cycles(op));
    } else if op == 0x0F {
        assert(spec_step(cpu, b).cpu.pc == wadd16(cpu.pc, spec_instr_len(op)));
        assert(spec_step(cpu, b).cycles == spec_base_cycles(op));
    }
}

#[verifier::rlimit(100)]
#[verifier::spinoff_prover]
proof fn lemma_timing_low_1(cpu: Cpu, b: BusAbs)
    requires
        ({
            let op = spec_bus_read(b, cpu.pc);
            &&& 0x10 <= op <= 0x1F
            &&& spec_supported_op(op)
            &&& !spec_is_transfer(op)
        }),
    ensures
        spec_step(cpu, b).cpu.pc == wadd16(cpu.pc, spec_instr_len(spec_bus_read(b, cpu.pc))),
        spec_step(cpu, b).cycles == spec_base_cycles(spec_bus_read(b, cpu.pc)),
{
    reveal(crate::cpu::semantics::spec_exec_op);
    reveal(crate::cpu::semantics::spec_op_low);
    reveal(crate::cpu::semantics::spec_op_high);
    reveal(crate::cpu::semantics::spec_op_cb);
    crate::arith::lemma_wadd16_chain(cpu.pc, 1, 1);
    crate::arith::lemma_wadd16_chain(cpu.pc, 1, 2);
    let op = spec_bus_read(b, cpu.pc);
    if op == 0x11 {
        assert(spec_step(cpu, b).cpu.pc == wadd16(cpu.pc, spec_instr_len(op)));
        assert(spec_step(cpu, b).cycles == spec_base_cycles(op));
    } else if op == 0x12 {
        assert(spec_step(cpu, b).cpu.pc == wadd16(cpu.pc, spec_instr_len(op)));
        assert(spec_step(cpu, b).cycles == spec_base_cycles(op));
    } else if op == 0x13 {
        assert(spec_step(cpu, b).cpu.pc == wadd16(cpu.pc, spec_instr_len(op)));
        assert(spec_step(cpu, b).cycles == spec_base_cycles(op));
    } else if op == 0x14 {
        assert(spec_step(cpu, b).cpu.pc == wadd16(cpu.pc, spec_instr_len(op)));
        assert(spec_step(cpu, b).cycles == spec_base_cycles(op));
    } else if op == 0x15 {
        assert(spec_step(cpu, b).cpu.pc == wadd16(cpu.pc, spec_instr_len(op)));
        assert(spec_step(cpu, b).cycles == spec_base_cycles(op));
    } else if op == 0x16 {
        assert(spec_step(cpu, b).cpu.pc == wadd16(cpu.pc, spec_instr_len(op)));
        assert(spec_step(cpu, b).cycles == spec_base_cycles(op));
    } else if op == 0x17 {
        assert(spec_step(cpu, b).cpu.pc == wadd16(cpu.pc, spec_instr_len(op)));
        assert(spec_step(cpu, b).cycles == spec_base_cycles(op));
    } else if op == 0x1A {
        assert(spec_step(cpu, b).cpu.pc == wadd16(cpu.pc, spec_instr_len(op)));
        assert(spec_step(cpu, b).cycles == spec_base_cycles(op));
    } else if op == 0x1B {
        assert(spec_step(cpu, b).cpu.pc == wadd16(cpu.pc, spec_instr_len(op)));
        assert(spec_step(cpu, b).cycles == spec_base_cycles(op));
    } else if op == 0x1C {
        assert(spec_step(cpu, b).cpu.pc == wadd16(cpu.pc, spec_instr_len(op)));
        assert(spec_step(cpu, b).cycles == spec_base_cycles(op));
    } else if op == 0x1D {
        assert(spec_step(cpu, b).cpu.pc == wadd16(cpu.pc, spec_instr_len(op)));
        assert(spec_step(cpu, b).cycles == spec_base_cycles(op));
    } else if op == 0x1E {
        assert(spec_step(cpu, b).cpu.pc == wadd16(cpu.pc, spec_instr_len(op)));
        assert(spec_step(cpu, b).cycles == spec_base_cycles(op));
    } else if op == 0x1F {
        assert(spec_step(cpu, b).cpu.pc == wadd16(cpu.pc, spec_instr_len(op)));
        assert(spec_step(cpu, b).cycles == spec_base_cycles(op));
    }
}

#[verifier::rlimit(100)]
#[verifier::spinoff_prover]
proof fn lemma_timing_low_2(cpu: Cpu, b: BusAbs)
    requires
        ({
            let op = spec_bus_read(b, cpu.pc);
            &&& 0x20 <= op <= 0x2F
            &&& spec_supported_op(op)
            &&& !spec_is_transfer(op)
        }),
    ensures
        spec_step(cpu, b).cpu.pc == wadd16(cpu.pc, spec_instr_len(spec_bus_read(b, cpu.pc))),
        spec_step(cpu, b).cycles == spec_base_cycles(spec_bus_read(b, cpu.pc)),
{
    reveal(crate::cpu::semantics::spec_exec_op);
    reveal(crate::cpu::semantics::spec_op_low);
    reveal(crate::cpu::semantics::spec_op_high);
    reveal(crate::cpu::semantics::spec_op_cb);
    crate::arith::lemma_wadd16_chain(cpu.pc, 1, 1);
    crate::arith::lemma_wadd16_chain(cpu.pc, 1, 2);
    let op = spec_bus_read(b, cpu.pc);
    if op == 0x21 {
        assert(spec_step(cpu, b).cpu.pc == wadd16(cpu.pc, spec_instr_len(op)));
        assert(spec_step(cpu, b).cycles == spec_base_cycles(op));
    } else if op == 0x22 {
        assert(spec_step(cpu, b).cpu.pc == wadd16(cpu.pc, spec_instr_len(op)));
        assert(spec_step(cpu, b).cycles == spec_base_cycles(op));
    } else if op == 0x23 {
        assert(spec_step(cpu, b).cpu.pc == wadd16(cpu.pc, spec_instr_len(op)));
        assert(spec_step(cpu, b).cycles == spec_base_cycles(op));
    } else if op == 0x24 {
        assert(spec_step(cpu, b).cpu.pc == wadd16(cpu.pc, spec_instr_len(op)));
        assert(spec_step(cpu, b).cycles == spec_base_cycles(op));
    } else if op == 0x25 {
        assert(spec_step(cpu, b).cpu.pc == wadd16(cpu.pc, spec_instr_len(op)));
        assert(spec_step(cpu, b).cycles == spec_base_cycles(op));
    } else if op == 0x26 {
        assert(spec_step(cpu, b).cpu.pc == wadd16(cpu.pc, spec_instr_len(op)));
        assert(spec_step(cpu, b).cycles == spec_base_cycles(op));
    } else if op == 0x27 {
        assert(spec_step(cpu, b).cpu.pc == wadd16(cpu.pc, spec_instr_len(op)));
        assert(spec_step(cpu, b).cycles == spec_base_cycles(op));
    } else if op == 0x2A {
        assert(spec_step(cpu, b).cpu.pc == wadd16(cpu.pc, spec_instr_len(op)));
        assert(spec_step(cpu, b).cycles == spec_base_cycles(op));
    } else if op == 0x2B {
        assert(spec_step(cpu, b).cpu.pc == wadd16(cpu.pc, spec_instr_len(op)));
        assert(spec_step(cpu, b).cycles == spec_base_cycles(op));
    } else if op == 0x2C {
        assert(spec_step(cpu, b).cpu.pc == wadd16(cpu.pc, spec_instr_len(op)));
        assert(spec_step(cpu, b).cycles == spec_base_cycles(op));
    } else if op == 0x2D {
        assert(spec_step(cpu, b).cpu.pc == wadd16(cpu.pc, spec_instr_len(op)));
        assert(spec_step(cpu, b).cycles == spec_base_cycles(op));
    } else if op == 0x2E {
        assert(spec_step(cpu, b).cpu.pc == wadd16(cpu.pc, spec_instr_len(op)));
        assert(spec_step(cpu, b).cycles == spec_base_cycles(op));
    } else if op == 0x2F {
        assert(spec_step(cpu, b).cpu.pc == wadd16(cpu.pc, spec_instr_len(op)));
        assert(spec_step(cpu, b).cycles == spec_base_cycles(op));
    }
}

#[verifier::rlimit(100)]
#[verifier::spinoff_prover]
proof fn lemma_timing_low_3a(cpu: Cpu, b: BusAbs)
    requires
        ({
            let op = spec_bus_read(b, cpu.pc);
            &&& 0x30 <= op <= 0x37
            &&& spec_supported_op(op)
            &&& !spec_is_transfer(op)
        }),
    ensures
        spec_step(cpu, b).cpu.pc == wadd16(cpu.pc, spec_instr_len(spec_bus_read(b, cpu.pc))),
        spec_step(cpu, b).cycles == spec_base_cycles(spec_bus_read(b, cpu.pc)),
{
    reveal(crate::cpu::semantics::spec_exec_op);
    reveal(crate::cpu::semantics::spec_op_low);
    reveal(crate::cpu::semantics::spec_op_high);
    reveal(crate::cpu::semantics::spec_op_cb);
    crate::arith::lemma_wadd16_chain(cpu.pc, 1, 1);
    crate::arith::lemma_wadd16_chain(cpu.pc, 1, 2);
    let op = spec_bus_read(b, cpu.pc);
    if op == 0x31 {
        assert(spec_step(cpu, b).cpu.pc == wadd16(cpu.pc, spec_instr_len(op)));
        assert(spec_step(cpu, b).cycles == spec_base_cycles(op));
    } else if op == 0x32 {
        assert(spec_step(cpu, b).cpu.pc == wadd16(cpu.pc, spec_instr_len(op)));
        assert(spec_step(cpu, b).cycles == spec_base_cycles(op));
    } else if op == 0x33 {
        assert(spec_step(cpu, b).cpu.pc == wadd16(cpu.pc, spec_instr_len(op)));
        assert(spec_step(cpu, b).cycles == spec_base_cycles(op));
    } else if op == 0x34 {
        assert(spec_step(cpu, b).cpu.pc == wadd16(cpu.pc, spec_instr_len(op)));
        assert(spec_step(cpu, b).cycles == spec_base_cycles(op));
    } else if op == 0x35 {
        assert(spec_step(cpu, b).cpu.pc == wadd16(cpu.pc, spec_instr_len(op)));
        assert(spec_step(cpu, b).cycles == spec_base_cycles(op));
    } else if op == 0x36 {
        assert(spec_step(cpu, b).cpu.pc == wadd16(cpu.pc, spec_instr_len(op)));
        assert(spec_step(cpu, b).cycles == spec_base_cycles(op));
    } else if op == 0x37 {
        assert(spec_step(cpu, b).cpu.pc == wadd16(cpu.pc, spec_instr_len(op)));
        assert(spec_step(cpu, b).cycles == spec_base_cycles(op));
    }
}

#[verifier::rlimit(100)]
#[verifier::spinoff_prover]
proof fn lemma_timing_low_3b(cpu: Cpu, b: BusAbs)
    requires
        ({
            let op = spec_bus_read(b, cpu.pc);
            &&& 0x38 <= op <= 0x3C
            &&& spec_supported_op(op)
            &&& !spec_is_transfer(op)
        }),
    ensures
        spec_step(cpu, b).cpu.pc == wadd16(cpu.pc, spec_instr_len(spec_bus_read(b, cpu.pc))),
        spec_step(cpu, b).cycles == spec_base_cycles(spec_bus_read(b, cpu.pc)),
{
    reveal(crate::cpu::semantics::spec_exec_op);
    reveal(crate::cpu::semantics::spec_op_low);
    reveal(crate::cpu::semantics::spec_op_high);
    reveal(crate::cpu::semantics::spec_op_cb);
    crate::arith::lemma_wadd16_chain(cpu.pc, 1, 1);
    crate::arith::lemma_wadd16_chain(cpu.pc, 1, 2);
    let op = spec_bus_read(b, cpu.pc);
    if op == 0x3A {
        assert(spec_step(cpu, b).cpu.pc == wadd16(cpu.pc, spec_instr_len(op)));
        assert(spec_step(cpu, b).cycles == spec_base_cycles(op));
    } else if op == 0x3B {
        assert(spec_step(cpu, b).cpu.pc == wadd16(cpu.pc, spec_instr_len(op)));
        assert(spec_step(cpu, b).cycles == spec_base_cycles(op));
    } else if op == 0x3C {
        assert(spec_step(cpu, b).cpu.pc == wadd16(cpu.pc, spec_instr_len(op)));
        assert(spec_step(cpu, b).cycles == spec_base_cycles(op));
    }
}

#[verifier::rlimit(100)]
proof fn lemma_timing_op_3d(cpu: Cpu, b: BusAbs)
    requires
        spec_bus_read(b, cpu.pc) == 0x3D,
    ensures
        spec_step(cpu, b).cpu.pc == wadd16(cpu.pc, spec_instr_len(spec_bus_read(b, cpu.pc))),
        spec_step(cpu, b).cycles == spec_base_cycles(spec_bus_read(b, cpu.pc)),
{
    reveal(crate::cpu::semantics::spec_exec_op);
    reveal(crate::cpu::semantics::spec_op_low);
    reveal(crate::cpu::semantics::spec_op_high);
    reveal(crate::cpu::semantics::spec_op_cb);
    crate::arith::lemma_wadd16_chain(cpu.pc, 1, 1);
    crate::arith::lemma_wadd16_chain(cpu.pc, 1, 2);
}

#[verifier::rlimit(100)]
proof fn lemma_timing_op_3e(cpu: Cpu, b: BusAbs)
    requires
        spec_bus_read(b, cpu.pc) == 0x3E,
    ensures
        spec_step(cpu, b).cpu.pc == wadd16(cpu.pc, spec_instr_len(spec_bus_read(b, cpu.pc))),
        spec_step(cpu, b).cycles == spec_base_cycles(spec_bus_read(b, cpu.pc)),
{
    reveal(crate::cpu::semantics::spec_exec_op);
    reveal(crate::cpu::semantics::spec_op_low);
    reveal(crate::cpu::semantics::spec_op_high);
    reveal(crate::cpu::semantics::spec_op_cb);
    crate::arith::lemma_wadd16_chain(cpu.pc, 1, 1);
    crate::arith::lemma_wadd16_chain(cpu.pc, 1, 2);
}

#[verifier::rlimit(100)]
proof fn lemma_timing_op_3f(cpu: Cpu, b: BusAbs)
    requires
        spec_bus_read(b, cpu.pc) == 0x3F,
    ensures
        spec_step(cpu, b).cpu.pc == wadd16(cpu.pc, spec_instr_len(spec_bus_read(b, cpu.pc))),
        spec_step(cpu, b).cycles == spec_base_cycles(spec_bus_read(b, cpu.pc)),
{
    reveal(crate::cpu::semantics::spec_exec_op);
    reveal(crate::cpu::semantics::spec_op_low);
    reveal(crate::cpu::semantics::spec_op_high);
    reveal(crate::cpu::semantics::spec_op_cb);
    crate::arith::lemma_wadd16_chain(cpu.pc, 1, 1);
    crate::arith::lemma_wadd16_chain(cpu.pc, 1, 2);
}




#[verifier::rlimit(100)]
#[verifier::spinoff_prover]
proof fn lemma_timing_ld(cpu: Cpu, b: BusAbs)
    requires
        ({
            let op = spec_bus_read(b, cpu.pc);
            0x40 <= op < 0x80
        }),
    ensures
        spec_step(cpu, b).cpu.pc == wadd16(cpu.pc, spec_instr_len(spec_bus_read(b, cpu.pc))),
        spec_step(cpu, b).cycles == spec_base_cycles(spec_bus_read(b, cpu.pc)),
{
    reveal(crate::cpu::semantics::spec_exec_op);
    reveal(crate::cpu::semantics::spec_op_low);
    reveal(crate::cpu::semantics::spec_op_high);
    reveal(crate::cpu::semantics::spec_op_cb);
    let op = spec_bus_read(b, cpu.pc);
    if op == 0x76 {
        assert(spec_step(cpu, b).cycles == 4);
    } else if op % 8 == 6 {
        assert(spec_step(cpu, b).cycles == 8);
    } else if (op / 8) % 8 == 6 {
        assert(spec_step(cpu, b).cycles == 8);
    } else {
        assert(spec_step(cpu, b).cycles == 4);
    }
}

#[verifier::rlimit(100)]
#[verifier::spinoff_prover]
proof fn lemma_timing_alu8(cpu: Cpu, b: BusAbs)
    requires
        ({
            let op = spec_bus_read(b, cpu.pc);
            0x80 <= op < 0xC0
        }),
    ensures
        spec_step(cpu, b).cpu.pc == wadd16(cpu.pc, spec_instr_len(spec_bus_read(b, cpu.pc))),
        spec_step(cpu, b).cycles == spec_base_cycles(spec_bus_read(b, cpu.pc)),
{
    reveal(crate::cpu::semantics::spec_exec_op);
    reveal(crate::cpu::semantics::spec_op_low);
    reveal(crate::cpu::semantics::spec_op_high);
    reveal(crate::cpu::semantics::spec_op_cb);
    let op = spec_bus_read(b, cpu.pc);
    if op % 8 == 6 {
        assert(spec_step(cpu, b).cycles == 8);
    } else {
        assert(spec_step(cpu, b).cycles == 4);
    }
}

#[verifier::rlimit(100)]
#[verifier::spinoff_prover]
proof fn lemma_timing_high_0(cpu: Cpu, b: BusAbs)
    requires
        ({
            let op = spec_bus_read(b, cpu.pc);
            &&& 0xC0 <= op < 0xE0 && op != 0xCB
            &&& spec_supported_op(op)
            &&& !spec_is_transfer(op)
        }),
    ensures
        spec_step(cpu, b).cpu.pc == wadd16(cpu.pc, spec_instr_len(spec_bus_read(b, cpu.pc))),
        spec_step(cpu, b).cycles == spec_base_cycles(spec_bus_read(b, cpu.pc)),
{
    reveal(crate::cpu::semantics::spec_exec_op);
    reveal(crate::cpu::semantics::spec_op_low);
    reveal(crate::cpu::semantics::spec_op_high);
    reveal(crate::cpu::semantics::spec_op_cb);
    crate::arith::lemma_wadd16_chain(cpu.pc, 1, 1);
    crate::arith::lemma_wadd16_chain(cpu.pc, 1, 2);
    let op = spec_bus_read(b, cpu.pc);
    if op == 0xC1 {
        assert(spec_step(cpu, b).cpu.pc == wadd16(cpu.pc, spec_instr_len(op)));
        assert(spec_step(cpu, b).cycles == spec_base_cycles(op));
    } else if op == 0xC5 {
        assert(spec_step(cpu, b).cpu.pc == wadd16(cpu.pc, spec_instr_len(op)));
        assert(spec_step(cpu, b).cycles == spec_base_cycles(op));
    } else if op == 0xC6 {
        assert(spec_step(cpu, b).cpu.pc == wadd16(cpu.pc, spec_instr_len(op)));
        assert(spec_step(cpu, b).cycles == spec_base_cycles(op));
    } else if op == 0xCE {
        assert(spec_step(cpu, b).cpu.pc == wadd16(cpu.pc, spec_instr_len(op)));
        assert(spec_step(cpu, b).cycles == spec_base_cycles(op));
    } else if op == 0xD1 {
        assert(spec_step(cpu, b).cpu.pc == wadd16(cpu.pc, spec_instr_len(op)));
        assert(spec_step(cpu, b).cycles == spec_base_cycles(op));
    } else if op == 0xD5 {
        assert(spec_step(cpu, b).cpu.pc == wadd16(cpu.pc, spec_instr_len(op)));
        assert(spec_step(cpu, b).cycles == spec_base_cycles(op));
    } else if op == 0xD6 {
        assert(spec_step(cpu, b).cpu.pc == wadd16(cpu.pc, spec_instr_len(op)));
        assert(spec_step(cpu, b).cycles == spec_base_cycles(op));
    } else if op == 0xDE {
        assert(spec_step(cpu, b).cpu.pc == wadd16(cpu.pc, spec_instr_len(op)));
        assert(spec_step(cpu, b).cycles == spec_base_cycles(op));
    }
}

#[verifier::rlimit(100)]
#[verifier::spinoff_prover]
proof fn lemma_timing_high_1(cpu: Cpu, b: BusAbs)
    requires
        ({
            let op = spec_bus_read(b, cpu.pc);
            &&& 0xE0 <= op
            &&& spec_supported_op(op)
            &&& !spec_is_transfer(op)
        }),
    ensures
        spec_step(cpu, b).cpu.pc == wadd16(cpu.pc, spec_instr_len(spec_bus_read(b, cpu.pc))),
        spec_step(cpu, b).cycles == spec_base_cycles(spec_bus_read(b, cpu.pc)),
{
    reveal(crate::cpu::semantics::spec_exec_op);
    reveal(crate::cpu::semantics::spec_op_low);
    reveal(crate::cpu::semantics::spec_op_high);
    reveal(crate::cpu::semantics::spec_op_cb);
    crate::arith::lemma_wadd16_chain(cpu.pc, 1, 1);
    crate::arith::lemma_wadd16_chain(cpu.pc, 1, 2);
    let op = spec_bus_read(b, cpu.pc);
    if op == 0xE0 {
        assert(spec_step(cpu, b).cpu.pc == wadd16(cpu.pc, spec_instr_len(op)));
        assert(spec_step(cpu, b).cycles == spec_base_cycles(op));
    } else if op == 0xE1 {
        assert(spec_step(cpu, b).cpu.pc == wadd16(cpu.pc, spec_instr_len(op)));
        assert(spec_step(cpu, b).cycles == spec_base_cycles(op));
    } else if op == 0xE2 {
        assert(spec_step(cpu, b).cpu.pc == wadd16(cpu.pc, spec_instr_len(op)));
        assert(spec_step(cpu, b).cycles == spec_base_cycles(op));
    } else if op == 0xE5 {
        assert(spec_step(cpu, b).cpu.pc == wadd16(cpu.pc, spec_instr_len(op)));
        assert(spec_step(cpu, b).cycles == spec_base_cycles(op));
    } else if op == 0xE6 {
        assert(spec_step(cpu, b).cpu.pc == wadd16(cpu.pc, spec_instr_len(op)));
        assert(spec_step(cpu, b).cycles == spec_base_cycles(op));
    } else if op == 0xEA {
        assert(spec_step(cpu, b).cpu.pc == wadd16(cpu.pc, spec_instr_len(op)));
        assert(spec_step(cpu, b).cycles == spec_base_cycles(op));
    } else if op == 0xEE {
        assert(spec_step(cpu, b).cpu.pc == wadd16(cpu.pc, spec_instr_len(op)));
        assert(spec_step(cpu, b).cycles == spec_base_cycles(op));
    } else if op == 0xF0 {
        assert(spec_step(cpu, b).cpu.pc == wadd16(cpu.pc, spec_instr_len(op)));
        assert(spec_step(cpu, b).cycles == spec_base_cycles(op));
    } else if op == 0xF1 {
        assert(spec_step(cpu, b).cpu.pc == wadd16(cpu.pc, spec_instr_len(op)));
        assert(spec_step(cpu, b).cycles == spec_base_cycles(op));
    } else if op == 0xF2 {
        assert(spec_step(cpu, b).cpu.pc == wadd16(cpu.pc, spec_instr_len(op)));
        assert(spec_step(cpu, b).cycles == spec_base_cycles(op));
    } else if op == 0xF3 {
        assert(spec_step(cpu, b).cpu.pc == wadd16(cpu.pc, spec_instr_len(op)));
        assert(spec_step(cpu, b).cycles == spec_base_cycles(op));
    } else if op == 0xF5 {
        assert(spec_step(cpu, b).cpu.pc == wadd16(cpu.pc, spec_instr_len(op)));
        assert(spec_step(cpu, b).cycles == spec_base_cycles(op));
    } else if op == 0xF6 {
        assert(spec_step(cpu, b).cpu.pc == wadd16(cpu.pc, spec_instr_len(op)));
        assert(spec_step(cpu, b).cycles == spec_base_cycles(op));
    } else if op == 0xF8 {
        assert(spec_step(cpu, b).cpu.pc == wadd16(cpu.pc, spec_instr_len(op)));
        assert(spec_step(cpu, b).cycles == spec_base_cycles(op));
    } else if op == 0xF9 {
        assert(spec_step(cpu, b).cpu.pc == wadd16(cpu.pc, spec_instr_len(op)));
        assert(spec_step(cpu, b).cycles == spec_base_cycles(op));
    } else if op == 0xFA {
        assert(spec_step(cpu, b).cpu.pc == wadd16(cpu.pc, spec_instr_len(op)));
        assert(spec_step(cpu, b).cycles == spec_base_cycles(op));
    } else if op == 0xFB {
        assert(spec_step(cpu, b).cpu.pc == wadd16(cpu.pc, spec_instr_len(op)));
        assert(spec_step(cpu, b).cycles == spec_base_cycles(op));
    } else if op == 0xFE {
        assert(spec_step(cpu, b).cpu.pc == wadd16(cpu.pc, spec_instr_len(op)));
        assert(spec_step(cpu, b).cycles == spec_base_cycles(op));
    }
}

/// Outside the control-transfer group and the CB prefix, a step advances PC
/// by the instruction's encoded length and costs its documented cycle count.
pub proof fn lemma_step_timing(cpu: Cpu, b: BusAbs)
    requires
        ({
            let op = spec_bus_read(b, cpu.pc);
            &&& spec_supported_op(op)
            &&& !spec_is_transfer(op)
            &&& op != 0xCB
        }),
    ensures
        spec_step(cpu, b).cpu.pc == wadd16(cpu.pc, spec_instr_len(spec_bus_read(b, cpu.pc))),
        spec_step(cpu, b).cycles == spec_base_cycles(spec_bus_read(b, cpu.pc)),
{
    let op = spec_bus_read(b, cpu.pc);
    if op < 0x10 {
        lemma_timing_low_0(cpu, b);
    } else if op < 0x20 {
        lemma_timing_low_1(cpu, b);
    } else if op < 0x30 {
        lemma_timing_low_2(cpu, b);
    } else if op < 0x38 {
        lemma_timing_low_3a(cpu, b);
    } else if op < 0x3D {
        lemma_timing_low_3b(cpu, b);
    } else if op == 0x3D {
        lemma_timing_op_3d(cpu, b);
    } else if op == 0x3E {
        lemma_timing_op_3e(cpu, b);
    } else if op < 0x40 {
        lemma_timing_op_3f(cpu, b);
    } else if op < 0x80 {
        lemma_timing_ld(cpu, b);
    } else if op < 0xC0 {
        lemma_timing_alu8(cpu, b);
    } else if op < 0xE0 {
        lemma_timing_high_0(cpu, b);
    } else {
        lemma_timing_high_1(cpu, b);
    }
}

/// A conditional transfer costs its taken cycle count exactly when the
/// flag-determined condition holds, and its untaken count otherwise; when not
/// taken, PC advances by the encoded length.
#[verifier::rlimit(100)]
#[verifier::spinoff_prover]
pub proof fn lemma_step_conditional(cpu: Cpu, b: BusAbs)
    requires
        spec_is_conditional(spec_bus_read(b, cpu.pc)),
    ensures
        spec_step(cpu, b).cycles == (if spec_cond_taken(
            spec_bus_read(b, cpu.pc),
            cpu.registers.f,
        ) {
            spec_taken_cycles(spec_bus_read(b, cpu.pc))
        } else {
            spec_untaken_cycles(spec_bus_read(b, cpu.pc))
        }),
        !spec_cond_taken(spec_bus_read(b, cpu.pc), cpu.registers.f) ==> spec_step(cpu, b).cpu.pc
            == wadd16(cpu.pc, spec_instr_len(spec_bus_read(b, cpu.pc))),
{
    reveal(crate::cpu::semantics::spec_exec_op);
    reveal(crate::cpu::semantics::spec_op_low);
    reveal(crate::cpu::semantics::spec_op_high);
    reveal(crate::cpu::semantics::spec_op_cb);
    crate::arith::lemma_wadd16_chain(cpu.pc, 1, 1);
    crate::arith::lemma_wadd16_chain(cpu.pc, 1, 2);
    let op = spec_bus_read(b, cpu.pc);
    if op == 0x20 {
        assert(spec_step(cpu, b).cycles == (if spec_cond_taken(op, cpu.registers.f) {
            spec_taken_cycles(op)
        } else {
            spec_untaken_cycles(op)
        }));
        assert(!spec_cond_taken(op, cpu.registers.f) ==> spec_step(cpu, b).cpu.pc == wadd16(
            cpu.pc,
            spec_instr_len(op),
        ));
    } else if op == 0x28 {
        assert(spec_step(cpu, b).cycles == (if spec_cond_taken(op, cpu.registers.f) {
            spec_taken_cycles(op)
        } else {
            spec_untaken_cycles(op)
        }));
        assert(!spec_cond_taken(op, cpu.registers.f) ==> spec_step(cpu, b).cpu.pc == wadd16(
            cpu.pc,
            spec_instr_len(op),
        ));
    } else if op == 0x30 {
        assert(spec_step(cpu, b).cycles == (if spec_cond_taken(op, cpu.registers.f) {
            spec_taken_cycles(op)
        } else {
            spec_untaken_cycles(op)
        }));
        assert(!spec_cond_taken(op, cpu.registers.f) ==> spec_step(cpu, b).cpu.pc == wadd16(
            cpu.pc,
            spec_instr_len(op),
        ));
    } else if op == 0x38 {
        assert(spec_step(cpu, b).cycles == (if spec_cond_taken(op, cpu.registers.f) {
            spec_taken_cycles(op)
        } else {
            spec_untaken_cycles(op)
        }));
        assert(!spec_cond_taken(op, cpu.registers.f) ==> spec_step(cpu, b).cpu.pc == wadd16(
            cpu.pc,
            spec_instr_len(op),
        ));
    } else if op == 0xC0 {
        assert(spec_step(cpu, b).cycles == (if spec_cond_taken(op, cpu.registers.f) {
            spec_taken_cycles(op)
        } else {
            spec_untaken_cycles(op)
        }));
        assert(!spec_cond_taken(op, cpu.registers.f) ==> spec_step(cpu, b).cpu.pc == wadd16(
            cpu.pc,
            spec_instr_len(op),
        ));
    } else if op == 0xC2 {
        assert(spec_step(cpu, b).cycles == (if spec_cond_taken(op, cpu.registers.f) {
            spec_taken_cycles(op)
        } else {
            spec_untaken_cycles(op)
        }));
        assert(!spec_cond_taken(op, cpu.registers.f) ==> spec_step(cpu, b).cpu.pc == wadd16(
            cpu.pc,
            spec_instr_len(op),
        ));
    } else if op == 0xC4 {
        assert(spec_step(cpu, b).cycles == (if spec_cond_taken(op, cpu.registers.f) {
            spec_taken_cycles(op)
        } else {
            spec_untaken_cycles(op)
        }));
        assert(!spec_cond_taken(op, cpu.registers.f) ==> spec_step(cpu, b).cpu.pc == wadd16(
            cpu.pc,
            spec_instr_len(op),
        ));
    } else if op == 0xC8 {
        assert(spec_step(cpu, b).cycles == (if spec_cond_taken(op, cpu.registers.f) {
            spec_taken_cycles(op)
        } else {
            spec_untaken_cycles(op)
        }));
        assert(!spec_cond_taken(op, cpu.registers.f) ==> spec_step(cpu, b).cpu.pc == wadd16(
            cpu.pc,
            spec_instr_len(op),
        ));
    } else if op == 0xCA {
        assert(spec_step(cpu, b).cycles == (if spec_cond_taken(op, cpu.registers.f) {
            spec_taken_cycles(op)
        } else {
            spec_untaken_cycles(op)
        }));
        assert(!spec_cond_taken(op, cpu.registers.f) ==> spec_step(cpu, b).cpu.pc == wadd16(
            cpu.pc,
            spec_instr_len(op),
        ));
    } else if op == 0xCC {
        assert(spec_step(cpu, b).cycles == (if spec_cond_taken(op, cpu.registers.f) {
            spec_taken_cycles(op)
        } else {
            spec_untaken_cycles(op)
        }));
        assert(!spec_cond_taken(op, cpu.registers.f) ==> spec_step(cpu, b).cpu.pc == wadd16(
            cpu.pc,
            spec_instr_len(op),
        ));
    } else if op == 0xD0 {
        assert(spec_step(cpu, b).cycles == (if spec_cond_taken(op, cpu.registers.f) {
            spec_taken_cycles(op)
        } else {
            spec_untaken_cycles(op)
        }));
        assert(!spec_cond_taken(op, cpu.registers.f) ==> spec_step(cpu, b).cpu.pc == wadd16(
            cpu.pc,
            spec_instr_len(op),
        ));
    } else if op == 0xD2 {
        assert(spec_step(cpu, b).cycles == (if spec_cond_taken(op, cpu.registers.f) {
            spec_taken_cycles(op)
        } else {
            spec_untaken_cycles(op)
        }));
        assert(!spec_cond_taken(op, cpu.registers.f) ==> spec_step(cpu, b).cpu.pc == wadd16(
            cpu.pc,
            spec_instr_len(op),
        ));
    } else if op == 0xD4 {
        assert(spec_step(cpu, b).cycles == (if spec_cond_taken(op, cpu.registers.f) {
            spec_taken_cycles(op)
        } else {
            spec_untaken_cycles(op)
        }));
        assert(!spec_cond_taken(op, cpu.registers.f) ==> spec_step(cpu, b).cpu.pc == wadd16(
            cpu.pc,
            spec_instr_len(op),
        ));
    } else if op == 0xD8 {
        assert(spec_step(cpu, b).cycles == (if spec_cond_taken(op, cpu.registers.f) {
            spec_taken_cycles(op)
        } else {
            spec_untaken_cycles(op)
        }));
        assert(!spec_cond_taken(op, cpu.registers.f) ==> spec_step(cpu, b).cpu.pc == wadd16(
            cpu.pc,
            spec_instr_len(op),
        ));
    } else if op == 0xDA {
        assert(spec_step(cpu, b).cycles == (if spec_cond_taken(op, cpu.registers.f) {
            spec_taken_cycles(op)
        } else {
            spec_untaken_cycles(op)
        }));
        assert(!spec_cond_taken(op, cpu.registers.f) ==> spec_step(cpu, b).cpu.pc == wadd16(
            cpu.pc,
            spec_instr_len(op),
        ));
    } else if op == 0xDC {
        assert(spec_step(cpu, b).cycles == (if spec_cond_taken(op, cpu.registers.f) {
            spec_taken_cycles(op)
        } else {
            spec_untaken_cycles(op)
        }));
        assert(!spec_cond_taken(op, cpu.registers.f) ==> spec_step(cpu, b).cpu.pc == wadd16(
            cpu.pc,
            spec_instr_len(op),
        ));
    }
}

/// The unconditional transfers cost a fixed cycle count: JR 12, JP 16,
/// RET and RETI 16, CALL 24, every RST 16.
#[verifier::rlimit(100)]
#[verifier::spinoff_prover]
pub proof fn lemma_step_jump_cycles(cpu: Cpu, b: BusAbs)
    requires
        ({
            let op = spec_bus_read(b, cpu.pc);
            spec_is_transfer(op) && !spec_is_conditional(op)
        }),
    ensures
        ({
            let op = spec_bus_read(b, cpu.pc);
            spec_step(cpu, b).cycles == (if op == 0x18 {
                12u8
            } else if op == 0xC3 {
                16u8
            } else if op == 0xCD {
                24u8
            } else {
                16u8
            })
        }),
{
    reveal(crate::cpu::semantics::spec_exec_op);
    reveal(crate::cpu::semantics::spec_op_low);
    reveal(crate::cpu::semantics::spec_op_high);
    reveal(crate::cpu::semantics::spec_op_cb);
    crate::arith::lemma_wadd16_chain(cpu.pc, 1, 1);
    crate::arith::lemma_wadd16_chain(cpu.pc, 1, 2);
    let op = spec_bus_read(b, cpu.pc);
    if op == 0x18 {
        assert(spec_step(cpu, b).cycles == 12u8);
    } else if op == 0xC3 {
        assert(spec_step(cpu, b).cycles == 16u8);
    } else if op == 0xC7 {
        assert(spec_step(cpu, b).cycles == 16u8);
    } else if op == 0xC9 {
        assert(spec_step(cpu, b).cycles == 16u8);
    } else if op == 0xCD {
        assert(spec_step(cpu, b).cycles == 24u8);
    } else if op == 0xCF {
        assert(spec_step(cpu, b).cycles == 16u8);
    } else if op == 0xD7 {
        assert(spec_step(cpu, b).cycles == 16u8);
    } else if op == 0xD9 {
        assert(spec_step(cpu, b).cycles == 16u8);
    } else if op == 0xDF {
        assert(spec_step(cpu, b).cycles == 16u8);
    } else if op == 0xE7 {
        assert(spec_step(cpu, b).cycles == 16u8);
    } else if op == 0xEF {
        assert(spec_step(cpu, b).cycles == 16u8);
    } else if op == 0xF7 {
        assert(spec_step(cpu, b).cycles == 16u8);
    } else if op == 0xFF {
        assert(spec_step(cpu, b).cycles == 16u8);
    }
}

/// A CB-prefixed step advances PC by two and costs the documented count for
/// its second byte.
#[verifier::rlimit(100)]
#[verifier::spinoff_prover]
pub proof fn lemma_step_cb_timing(cpu: Cpu, b: BusAbs)
    requires
        spec_bus_read(b, cpu.pc) == 0xCB,
    ensures
        spec_step(cpu, b).cpu.pc == wadd16(cpu.pc, 2),
        spec_step(cpu, b).cycles == spec_cb_cycles(spec_bus_read(b, wadd16(cpu.pc, 1))),
{
    reveal(crate::cpu::semantics::spec_exec_op);
    reveal(crate::cpu::semantics::spec_op_low);
    reveal(crate::cpu::semantics::spec_op_high);
    reveal(crate::cpu::semantics::spec_op_cb);
    crate::arith::lemma_wadd16_chain(cpu.pc, 1, 1);
}

/// The stack round trip behind PUSH rr; POP rr.  PUSH stores the pair's high
/// byte at SP-1 and its low byte at SP-2 and leaves SP at SP-2; POP reads the
/// 16-bit value back at that new SP.  When both stack cells are plainly
/// backed memory, the value read is the value pushed, and SP, raised by two
/// again, is back where it started.
#[verifier::rlimit(100)]
#[verifier::spinoff_prover]
pub proof fn lemma_push16_pop16(sp: u16, b: BusAbs, v: u16)
    requires
        spec_bus_wf(b),
        spec_plain_backed(b, wadd16(sp, -1)),
        spec_plain_backed(b, wadd16(sp, -2)),
    ensures
        spec_bus_read16(spec_push16(sp, b, v), wadd16(sp, -2)) == v,
        wadd16(wadd16(sp, -2), 2) == sp,
{
    let a_hi = wadd16(sp, -1);
    let a_lo = wadd16(sp, -2);
    let b1 = spec_bus_write(b, a_hi, hi8(v));
    crate::arith::lemma_wadd16_chain(sp, -2, 1);
    crate::arith::lemma_wadd16_chain(sp, -2, 2);
    assert(a_hi == wadd16(a_lo, 1));
    assert(a_hi != a_lo);
    lemma_write_read_roundtrip(b, a_hi, hi8(v));
    lemma_plain_frame(b, a_lo, a_hi, hi8(v));
    crate::memory::lemma_write_preserves_wf(b, a_hi, hi8(v));
    lemma_write_read_roundtrip(b1, a_lo, lo8(v));
    lemma_plain_frame(b1, a_hi, a_lo, lo8(v));
    crate::arith::lemma_pair_split(v);
}

/// The register-file round trip behind PUSH AF; POP AF.  The F byte PUSH
/// materialises has a zero low nibble, so POP's decode restores A and every
/// flag exactly.
pub proof fn lemma_af_roundtrip(r: Registers)
    ensures
        set_af16(r, spec_af(r)).a == r.a,
        set_af16(r, spec_af(r)).f == r.f,
{
    crate::arith::lemma_split_pair(r.a, flags_u8(r.f));
    lemma_flags_roundtrip(r.f);
}

} // verus!
