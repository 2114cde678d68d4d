//! The machine: CPU plus bus, advanced one instruction at a time.  Each step
//! executes an instruction, feeds its cycle cost to the timer, and records a
//! timer-overflow interrupt request in the IF byte at 0xFF0F.

use vstd::prelude::*;
use crate::cpu::registers::{Flags, Registers};
use crate::cpu::semantics::{spec_step, spec_step_supported};
use crate::cpu::Cpu;
use crate::memory::{spec_bus_read, spec_bus_write, spec_bus_wf, BusAbs, Memory};
use crate::timer::{spec_tick, Timer};

verus! {

/// Machine state after a step: the CPU and the bus.
pub ghost struct MachState {
    pub cpu: Cpu,
    pub bus: BusAbs,
}

/// One machine step: run the instruction, advance the timer by its cycle
/// cost, and on TIMA overflow set bit 2 of the IF byte at 0xFF0F.
pub open spec fn spec_gb_step(cpu: Cpu, b: BusAbs) -> MachState {
    let s = spec_step(cpu, b);
    let t = spec_tick(s.bus.timer, s.cycles);
    let b2 = BusAbs { timer: t.timer, ..s.bus };
    if t.overflow {
        let v = spec_bus_read(b2, 0xFF0F);
        let v2 = if v / 4 % 2 == 1 {
            v
        } else {
            (v + 4) as u8
        };
        MachState { cpu: s.cpu, bus: spec_bus_write(b2, 0xFF0F, v2) }
    } else {
        MachState { cpu: s.cpu, bus: b2 }
    }
}

/// The machine after `n` steps (stopping early once the CPU halts).
pub open spec fn spec_run(cpu: Cpu, b: BusAbs, n: nat) -> MachState
    decreases n,
{
    if n == 0 || cpu.halted {
        MachState { cpu, bus: b }
    } else {
        let m = spec_gb_step(cpu, b);
        spec_run(m.cpu, m.bus, (n - 1) as nat)
    }
}

/// Every opcode met within `n` steps lies inside the instruction maps.
pub open spec fn spec_run_ok(cpu: Cpu, b: BusAbs, n: nat) -> bool
    decreases n,
{
    if n == 0 || cpu.halted {
        true
    } else {
        &&& spec_step_supported(cpu, b)
        &&& ({
            let m = spec_gb_step(cpu, b);
            spec_run_ok(m.cpu, m.bus, (n - 1) as nat)
        })
    }
}

/// The whole machine.
pub struct GameBoy {
    pub cpu: Cpu,
    pub memory: Memory,
}

impl GameBoy {
    /// A fresh machine: post-boot CPU, zeroed bus, no cartridge.
    pub fn new() -> (gb: GameBoy)
        ensures
            gb.memory.wf(),
            gb.cpu == (Cpu {
                registers: Registers {
                    a: 0x01,
                    f: Flags { z: true, n: false, h: true, c: true },
                    b: 0x00,
                    c: 0x13,
                    d: 0x00,
                    e: 0xD8,
                    h: 0x01,
                    l: 0x4D,
                },
                pc: 0x0100,
                sp: 0xFFFE,
                halted: false,
                interrupts_enabled: false,
            }),
            gb.memory@.data == Seq::new(0x10000, |i: int| 0u8),
            gb.memory@.cart is None,
            gb.memory@.timer == (Timer { div_counter: 0, tima: 0, tma: 0, tac: 0, tima_counter: 0 }),
    {
        GameBoy { cpu: Cpu::new(), memory: Memory::new() }
    }

    /// Re-assert the post-boot flag state (AF = 0x01B0): the constructor
    /// already establishes it, and a host may call this after other setup.
    pub fn power_on(&mut self)
        ensures
            final(self).memory == old(self).memory,
            final(self).cpu == (Cpu {
                registers: Registers {
                    f: Flags { z: true, n: false, h: true, c: true },
                    ..old(self).cpu.registers
                },
                ..old(self).cpu
            }),
    {
        self.cpu.registers.f.z = true;
        self.cpu.registers.f.n = false;
        self.cpu.registers.f.h = true;
        self.cpu.registers.f.c = true;
    }

    /// Advance the machine by one instruction.
    pub fn step(&mut self)
        requires
            old(self).memory.wf(),
            spec_step_supported(old(self).cpu, old(self).memory@),
        ensures
            final(self).memory.wf(),
            final(self).cpu == spec_gb_step(old(self).cpu, old(self).memory@).cpu,
            final(self).memory@ == spec_gb_step(old(self).cpu, old(self).memory@).bus,
    {
        let cycles = self.cpu.execute(&mut self.memory);
        let timer_interrupt = self.memory.timer.tick(cycles);
        if timer_interrupt {
            let if_register = self.memory.read_byte(0xFF0F);
            proof {
                crate::cpu::alu::lemma_bit_bounds(if_register, 2);
            }
            let updated: u8 = if if_register / 4 % 2 == 1 {
                if_register
            } else {
                if_register + 4
            };
            self.memory.write_byte(0xFF0F, updated);
        }
    }

    /// Run for at most `num_instructions` instructions, stopping early if the
    /// CPU halts.
    pub fn run(&mut self, num_instructions: usize)
        requires
            old(self).memory.wf(),
            spec_run_ok(old(self).cpu, old(self).memory@, num_instructions as nat),
        ensures
            final(self).memory.wf(),
            final(self).cpu == spec_run(old(self).cpu, old(self).memory@, num_instructions as nat).cpu,
            final(self).memory@ == spec_run(old(self).cpu, old(self).memory@, num_instructions as nat).bus,
    {
        let mut i: usize = 0;
        while i < num_instructions && !self.cpu.halted
            invariant
                i <= num_instructions,
                self.memory.wf(),
                spec_run_ok(self.cpu, self.memory@, (num_instructions - i) as nat),
                spec_run(self.cpu, self.memory@, (num_instructions - i) as nat) == spec_run(
                    old(self).cpu,
                    old(self).memory@,
                    num_instructions as nat,
                ),
            decreases num_instructions - i,
        {
            self.step();
            i = i + 1;
        }
        proof {
            assert(spec_run(self.cpu, self.memory@, (num_instructions - i) as nat)
                == (MachState { cpu: self.cpu, bus: self.memory@ }));
        }
    }
}

impl Default for GameBoy {
    fn default() -> (gb: GameBoy)
        ensures
            gb.memory.wf(),
            gb.memory@.cart is None,
    {
        GameBoy::new()
    }
}

/// When the timer overflows during a step, bit 2 of the IF byte at 0xFF0F is
/// set when the step returns, and the other IF bits are untouched.
pub proof fn lemma_overflow_sets_if(cpu: Cpu, b: BusAbs)
    requires
        spec_bus_wf(b),
        spec_tick(spec_step(cpu, b).bus.timer, spec_step(cpu, b).cycles).overflow,
        spec_bus_wf(spec_step(cpu, b).bus),
    ensures
        spec_bus_read(spec_gb_step(cpu, b).bus, 0xFF0F) / 4 % 2 == 1,
        spec_bus_read(spec_gb_step(cpu, b).bus, 0xFF0F) / 8 == spec_bus_read(
            spec_step(cpu, b).bus,
            0xFF0F,
        ) / 8,
        spec_bus_read(spec_gb_step(cpu, b).bus, 0xFF0F) % 4 == spec_bus_read(
            spec_step(cpu, b).bus,
            0xFF0F,
        ) % 4,
{
    let s = spec_step(cpu, b);
    let t = spec_tick(s.bus.timer, s.cycles);
    let b2 = BusAbs { timer: t.timer, ..s.bus };
    let v = spec_bus_read(b2, 0xFF0F);
    let v2 = if v / 4 % 2 == 1 {
        v
    } else {
        (v + 4) as u8
    };
    assert(spec_bus_read(b2, 0xFF0F) == s.bus.data[0xFF0F]);
    assert(spec_bus_read(spec_gb_step(cpu, b).bus, 0xFF0F) == v2);
    crate::cpu::alu::lemma_bit_bounds(v, 2);
}

} // verus!
