//! The CPU: register file, program counter, stack pointer, and the
//! fetch/decode/execute interpreter over the memory bus.

pub mod alu;
pub mod semantics;
pub mod instructions;
pub mod laws;
pub mod ops_alu;
pub mod ops_ld;
pub mod ops_ctl;
pub mod ops_cb;
pub mod registers;

use vstd::prelude::*;
use crate::cpu::registers::{Flags, Registers};

verus! {

/// Full CPU state.  `halted` is set by HALT; `interrupts_enabled` is the
/// interrupt-master-enable latch toggled by DI/EI/RETI.
pub struct Cpu {
    pub registers: Registers,
    pub pc: u16,
    pub sp: u16,
    pub halted: bool,
    pub interrupts_enabled: bool,
}

impl Cpu {
    /// Post-boot CPU state: AF = 0x01B0, execution starts at 0x0100 with
    /// SP at 0xFFFE.
    pub fn new() -> (cpu: Cpu)
        ensures
            cpu == (Cpu {
                registers: Registers {
                    a: 0x01,
                    f: Flags { z: true, n: false, h: true, c: true },
                    b: 0x00,
                    c: 0x13,
                    d: 0x00,
                    e: 0xD8,
                    h: 0x01,
                    l: 0x4D,
                },
                pc: 0x0100,
                sp: 0xFFFE,
                halted: false,
                interrupts_enabled: false,
            }),
    {
        Cpu {
            registers: Registers::new(),
            pc: 0x0100,
            sp: 0xFFFE,
            halted: false,
            interrupts_enabled: false,
        }
    }
}

impl Default for Cpu {
    fn default() -> (cpu: Cpu)
        ensures
            cpu == (Cpu {
                registers: Registers {
                    a: 0x01,
                    f: Flags { z: true, n: false, h: true, c: true },
                    b: 0x00,
                    c: 0x13,
                    d: 0x00,
                    e: 0xD8,
                    h: 0x01,
                    l: 0x4D,
                },
                pc: 0x0100,
                sp: 0xFFFE,
                halted: false,
                interrupts_enabled: false,
            }),
    {
        Cpu::new()
    }
}

} // verus!
