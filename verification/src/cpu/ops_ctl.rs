//! Executable control-flow and stack instructions: jumps, calls, returns,
//! restarts, pushes and pops, verified against the step semantics.

use vstd::prelude::*;
use crate::arith::{signed8, wadd16};
use crate::cpu::registers::{set_af16, set_bc16, set_de16, set_hl16, spec_af, spec_bc, spec_de, spec_hl};
use crate::cpu::semantics::spec_push16;
use crate::cpu::Cpu;
use crate::memory::{spec_bus_read, spec_bus_read16, Memory};

verus! {

impl Cpu {
    /// JP nn: absolute jump.
    pub(crate) fn jp_nn(&mut self, memory: &Memory) -> (cycles: u8)
        requires
            memory.wf(),
        ensures
            *final(self) == (Cpu { pc: spec_bus_read16(memory@, old(self).pc), ..*old(self) }),
            cycles == 16,
    {
        self.pc = self.fetch_word(memory);
        16
    }

    /// JR n: relative jump by a signed 8-bit displacement.
    pub(crate) fn jr_n(&mut self, memory: &Memory) -> (cycles: u8)
        requires
            memory.wf(),
        ensures
            *final(self) == (Cpu {
                pc: wadd16(wadd16(old(self).pc, 1), signed8(spec_bus_read(memory@, old(self).pc))),
                ..*old(self)
            }),
            cycles == 12,
    {
        let offset = self.fetch_byte(memory);
        if offset < 128 {
            self.pc = self.pc.wrapping_add(offset as u16);
        } else {
            self.pc = self.pc.wrapping_sub(256 - offset as u16);
        }
        12
    }

    /// JR Z,n: taken costs 12 cycles, not taken 8.
    pub(crate) fn jr_z(&mut self, memory: &Memory) -> (cycles: u8)
        requires
            memory.wf(),
        ensures
            (old(self).registers.f.z) ==> *final(self) == (Cpu {
                pc: wadd16(wadd16(old(self).pc, 1), signed8(spec_bus_read(memory@, old(self).pc))),
                ..*old(self)
            }) && cycles == 12,
            !(old(self).registers.f.z) ==> *final(self) == (Cpu { pc: wadd16(old(self).pc, 1), ..*old(self) })
                && cycles == 8,
    {
        let offset = self.fetch_byte(memory);
        if self.registers.f.z {
            if offset < 128 {
                self.pc = self.pc.wrapping_add(offset as u16);
            } else {
                self.pc = self.pc.wrapping_sub(256 - offset as u16);
            }
            12
        } else {
            8
        }
    }

    /// JR NZ,n: taken costs 12 cycles, not taken 8.
    pub(crate) fn jr_nz(&mut self, memory: &Memory) -> (cycles: u8)
        requires
            memory.wf(),
        ensures
            (!old(self).registers.f.z) ==> *final(self) == (Cpu {
                pc: wadd16(wadd16(old(self).pc, 1), signed8(spec_bus_read(memory@, old(self).pc))),
                ..*old(self)
            }) && cycles == 12,
            !(!old(self).registers.f.z) ==> *final(self) == (Cpu { pc: wadd16(old(self).pc, 1), ..*old(self) })
                && cycles == 8,
    {
        let offset = self.fetch_byte(memory);
        if !self.registers.f.z {
            if offset < 128 {
                self.pc = self.pc.wrapping_add(offset as u16);
            } else {
                self.pc = self.pc.wrapping_sub(256 - offset as u16);
            }
            12
        } else {
            8
        }
    }

    /// JR C,n: taken costs 12 cycles, not taken 8.
    pub(crate) fn jr_c(&mut self, memory: &Memory) -> (cycles: u8)
        requires
            memory.wf(),
        ensures
            (old(self).registers.f.c) ==> *final(self) == (Cpu {
                pc: wadd16(wadd16(old(self).pc, 1), signed8(spec_bus_read(memory@, old(self).pc))),
                ..*old(self)
            }) && cycles == 12,
            !(old(self).registers.f.c) ==> *final(self) == (Cpu { pc: wadd16(old(self).pc, 1), ..*old(self) })
                && cycles == 8,
    {
        let offset = self.fetch_byte(memory);
        if self.registers.f.c {
            if offset < 128 {
                self.pc = self.pc.wrapping_add(offset as u16);
            } else {
                self.pc = self.pc.wrapping_sub(256 - offset as u16);
            }
            12
        } else {
            8
        }
    }

    /// JR NC,n: taken costs 12 cycles, not taken 8.
    pub(crate) fn jr_nc(&mut self, memory: &Memory) -> (cycles: u8)
        requires
            memory.wf(),
        ensures
            (!old(self).registers.f.c) ==> *final(self) == (Cpu {
                pc: wadd16(wadd16(old(self).pc, 1), signed8(spec_bus_read(memory@, old(self).pc))),
                ..*old(self)
            }) && cycles == 12,
            !(!old(self).registers.f.c) ==> *final(self) == (Cpu { pc: wadd16(old(self).pc, 1), ..*old(self) })
                && cycles == 8,
    {
        let offset = self.fetch_byte(memory);
        if !self.registers.f.c {
            if offset < 128 {
                self.pc = self.pc.wrapping_add(offset as u16);
            } else {
                self.pc = self.pc.wrapping_sub(256 - offset as u16);
            }
            12
        } else {
            8
        }
    }

    /// JP Z,nn: taken costs 16 cycles, not taken 12.
    pub(crate) fn jp_z(&mut self, memory: &Memory) -> (cycles: u8)
        requires
            memory.wf(),
        ensures
            (old(self).registers.f.z) ==> *final(self) == (Cpu {
                pc: spec_bus_read16(memory@, old(self).pc),
                ..*old(self)
            }) && cycles == 16,
            !(old(self).registers.f.z) ==> *final(self) == (Cpu { pc: wadd16(old(self).pc, 2), ..*old(self) })
                && cycles == 12,
    {
        let addr = self.fetch_word(memory);
        if self.registers.f.z {
            self.pc = addr;
            16
        } else {
            12
        }
    }

    /// JP NZ,nn: taken costs 16 cycles, not taken 12.
    pub(crate) fn jp_nz(&mut self, memory: &Memory) -> (cycles: u8)
        requires
            memory.wf(),
        ensures
            (!old(self).registers.f.z) ==> *final(self) == (Cpu {
                pc: spec_bus_read16(memory@, old(self).pc),
                ..*old(self)
            }) && cycles == 16,
            !(!old(self).registers.f.z) ==> *final(self) == (Cpu { pc: wadd16(old(self).pc, 2), ..*old(self) })
                && cycles == 12,
    {
        let addr = self.fetch_word(memory);
        if !self.registers.f.z {
            self.pc = addr;
            16
        } else {
            12
        }
    }

    /// JP C,nn: taken costs 16 cycles, not taken 12.
    pub(crate) fn jp_c(&mut self, memory: &Memory) -> (cycles: u8)
        requires
            memory.wf(),
        ensures
            (old(self).registers.f.c) ==> *final(self) == (Cpu {
                pc: spec_bus_read16(memory@, old(self).pc),
                ..*old(self)
            }) && cycles == 16,
            !(old(self).registers.f.c) ==> *final(self) == (Cpu { pc: wadd16(old(self).pc, 2), ..*old(self) })
                && cycles == 12,
    {
        let addr = self.fetch_word(memory);
        if self.registers.f.c {
            self.pc = addr;
            16
        } else {
            12
        }
    }

    /// JP NC,nn: taken costs 16 cycles, not taken 12.
    pub(crate) fn jp_nc(&mut self, memory: &Memory) -> (cycles: u8)
        requires
            memory.wf(),
        ensures
            (!old(self).registers.f.c) ==> *final(self) == (Cpu {
                pc: spec_bus_read16(memory@, old(self).pc),
                ..*old(self)
            }) && cycles == 16,
            !(!old(self).registers.f.c) ==> *final(self) == (Cpu { pc: wadd16(old(self).pc, 2), ..*old(self) })
                && cycles == 12,
    {
        let addr = self.fetch_word(memory);
        if !self.registers.f.c {
            self.pc = addr;
            16
        } else {
            12
        }
    }

    /// CALL nn: push the return address, then jump.
    pub(crate) fn call_nn(&mut self, memory: &mut Memory) -> (cycles: u8)
        requires
            old(memory).wf(),
        ensures
            final(memory).wf(),
            final(memory)@ == spec_push16(old(self).sp, old(memory)@, wadd16(old(self).pc, 2)),
            *final(self) == (Cpu {
                pc: spec_bus_read16(old(memory)@, old(self).pc),
                sp: wadd16(old(self).sp, -2),
                ..*old(self)
            }),
            cycles == 24,
    {
        let addr = self.fetch_word(memory);
        self.sp = self.sp.wrapping_sub(1);
        memory.write_byte(self.sp, (self.pc / 256) as u8);
        self.sp = self.sp.wrapping_sub(1);
        memory.write_byte(self.sp, (self.pc % 256) as u8);
        self.pc = addr;
        24
    }

    /// CALL Z,nn: taken costs 24 cycles, not taken 12.
    pub(crate) fn call_z(&mut self, memory: &mut Memory) -> (cycles: u8)
        requires
            old(memory).wf(),
        ensures
            final(memory).wf(),
            (old(self).registers.f.z) ==> final(memory)@ == spec_push16(
                old(self).sp,
                old(memory)@,
                wadd16(old(self).pc, 2),
            ) && *final(self) == (Cpu {
                pc: spec_bus_read16(old(memory)@, old(self).pc),
                sp: wadd16(old(self).sp, -2),
                ..*old(self)
            }) && cycles == 24,
            !(old(self).registers.f.z) ==> final(memory)@ == old(memory)@
                && *final(self) == (Cpu { pc: wadd16(old(self).pc, 2), ..*old(self) })
                && cycles == 12,
    {
        let addr = self.fetch_word(memory);
        if self.registers.f.z {
            self.sp = self.sp.wrapping_sub(1);
            memory.write_byte(self.sp, (self.pc / 256) as u8);
            self.sp = self.sp.wrapping_sub(1);
            memory.write_byte(self.sp, (self.pc % 256) as u8);
            self.pc = addr;
            24
        } else {
            12
        }
    }

    /// CALL NZ,nn: taken costs 24 cycles, not taken 12.
    pub(crate) fn call_nz(&mut self, memory: &mut Memory) -> (cycles: u8)
        requires
            old(memory).wf(),
        ensures
            final(memory).wf(),
            (!old(self).registers.f.z) ==> final(memory)@ == spec_push16(
                old(self).sp,
                old(memory)@,
                wadd16(old(self).pc, 2),
            ) && *final(self) == (Cpu {
                pc: spec_bus_read16(old(memory)@, old(self).pc),
                sp: wadd16(old(self).sp, -2),
                ..*old(self)
            }) && cycles == 24,
            !(!old(self).registers.f.z) ==> final(memory)@ == old(memory)@
                && *final(self) == (Cpu { pc: wadd16(old(self).pc, 2), ..*old(self) })
                && cycles == 12,
    {
        let addr = self.fetch_word(memory);
        if !self.registers.f.z {
            self.sp = self.sp.wrapping_sub(1);
            memory.write_byte(self.sp, (self.pc / 256) as u8);
            self.sp = self.sp.wrapping_sub(1);
            memory.write_byte(self.sp, (self.pc % 256) as u8);
            self.pc = addr;
            24
        } else {
            12
        }
    }

    /// CALL C,nn: taken costs 24 cycles, not taken 12.
    pub(crate) fn call_c(&mut self, memory: &mut Memory) -> (cycles: u8)
        requires
            old(memory).wf(),
        ensures
            final(memory).wf(),
            (old(self).registers.f.c) ==> final(memory)@ == spec_push16(
                old(self).sp,
                old(memory)@,
                wadd16(old(self).pc, 2),
            ) && *final(self) == (Cpu {
                pc: spec_bus_read16(old(memory)@, old(self).pc),
                sp: wadd16(old(self).sp, -2),
                ..*old(self)
            }) && cycles == 24,
            !(old(self).registers.f.c) ==> final(memory)@ == old(memory)@
                && *final(self) == (Cpu { pc: wadd16(old(self).pc, 2), ..*old(self) })
                && cycles == 12,
    {
        let addr = self.fetch_word(memory);
        if self.registers.f.c {
            self.sp = self.sp.wrapping_sub(1);
            memory.write_byte(self.sp, (self.pc / 256) as u8);
            self.sp = self.sp.wrapping_sub(1);
            memory.write_byte(self.sp, (self.pc % 256) as u8);
            self.pc = addr;
            24
        } else {
            12
        }
    }

    /// CALL NC,nn: taken costs 24 cycles, not taken 12.
    pub(crate) fn call_nc(&mut self, memory: &mut Memory) -> (cycles: u8)
        requires
            old(memory).wf(),
        ensures
            final(memory).wf(),
            (!old(self).registers.f.c) ==> final(memory)@ == spec_push16(
                old(self).sp,
                old(memory)@,
                wadd16(old(self).pc, 2),
            ) && *final(self) == (Cpu {
                pc: spec_bus_read16(old(memory)@, old(self).pc),
                sp: wadd16(old(self).sp, -2),
                ..*old(self)
            }) && cycles == 24,
            !(!old(self).registers.f.c) ==> final(memory)@ == old(memory)@
                && *final(self) == (Cpu { pc: wadd16(old(self).pc, 2), ..*old(self) })
                && cycles == 12,
    {
        let addr = self.fetch_word(memory);
        if !self.registers.f.c {
            self.sp = self.sp.wrapping_sub(1);
            memory.write_byte(self.sp, (self.pc / 256) as u8);
            self.sp = self.sp.wrapping_sub(1);
            memory.write_byte(self.sp, (self.pc % 256) as u8);
            self.pc = addr;
            24
        } else {
            12
        }
    }

    /// RET: pop the return address into PC.
    pub(crate) fn ret(&mut self, memory: &Memory) -> (cycles: u8)
        requires
            memory.wf(),
        ensures
            *final(self) == (Cpu {
                pc: spec_bus_read16(memory@, old(self).sp),
                sp: wadd16(old(self).sp, 2),
                ..*old(self)
            }),
            cycles == 16,
    {
        let low = memory.read_byte(self.sp) as u16;
        self.sp = self.sp.wrapping_add(1);
        let high = memory.read_byte(self.sp) as u16;
        self.sp = self.sp.wrapping_add(1);
        self.pc = high * 256 + low;
        16
    }

    /// RETI: RET that also re-enables the interrupt master latch.
    pub(crate) fn reti(&mut self, memory: &Memory) -> (cycles: u8)
        requires
            memory.wf(),
        ensures
            *final(self) == (Cpu {
                pc: spec_bus_read16(memory@, old(self).sp),
                sp: wadd16(old(self).sp, 2),
                interrupts_enabled: true,
                ..*old(self)
            }),
            cycles == 16,
    {
        let low = memory.read_byte(self.sp) as u16;
        self.sp = self.sp.wrapping_add(1);
        let high = memory.read_byte(self.sp) as u16;
        self.sp = self.sp.wrapping_add(1);
        self.pc = high * 256 + low;
        self.interrupts_enabled = true;
        16
    }

    /// RET Z: taken costs 20 cycles, not taken 8.
    pub(crate) fn ret_z(&mut self, memory: &Memory) -> (cycles: u8)
        requires
            memory.wf(),
        ensures
            (old(self).registers.f.z) ==> *final(self) == (Cpu {
                pc: spec_bus_read16(memory@, old(self).sp),
                sp: wadd16(old(self).sp, 2),
                ..*old(self)
            }) && cycles == 20,
            !(old(self).registers.f.z) ==> *final(self) == *old(self) && cycles == 8,
    {
        if self.registers.f.z {
            let low = memory.read_byte(self.sp) as u16;
            self.sp = self.sp.wrapping_add(1);
            let high = memory.read_byte(self.sp) as u16;
            self.sp = self.sp.wrapping_add(1);
            self.pc = high * 256 + low;
            20
        } else {
            8
        }
    }

    /// RET NZ: taken costs 20 cycles, not taken 8.
    pub(crate) fn ret_nz(&mut self, memory: &Memory) -> (cycles: u8)
        requires
            memory.wf(),
        ensures
            (!old(self).registers.f.z) ==> *final(self) == (Cpu {
                pc: spec_bus_read16(memory@, old(self).sp),
                sp: wadd16(old(self).sp, 2),
                ..*old(self)
            }) && cycles == 20,
            !(!old(self).registers.f.z) ==> *final(self) == *old(self) && cycles == 8,
    {
        if !self.registers.f.z {
            let low = memory.read_byte(self.sp) as u16;
            self.sp = self.sp.wrapping_add(1);
            let high = memory.read_byte(self.sp) as u16;
            self.sp = self.sp.wrapping_add(1);
            self.pc = high * 256 + low;
            20
        } else {
            8
        }
    }

    /// RET C: taken costs 20 cycles, not taken 8.
    pub(crate) fn ret_c(&mut self, memory: &Memory) -> (cycles: u8)
        requires
            memory.wf(),
        ensures
            (old(self).registers.f.c) ==> *final(self) == (Cpu {
                pc: spec_bus_read16(memory@, old(self).sp),
                sp: wadd16(old(self).sp, 2),
                ..*old(self)
            }) && cycles == 20,
            !(old(self).registers.f.c) ==> *final(self) == *old(self) && cycles == 8,
    {
        if self.registers.f.c {
            let low = memory.read_byte(self.sp) as u16;
            self.sp = self.sp.wrapping_add(1);
            let high = memory.read_byte(self.sp) as u16;
            self.sp = self.sp.wrapping_add(1);
            self.pc = high * 256 + low;
            20
        } else {
            8
        }
    }

    /// RET NC: taken costs 20 cycles, not taken 8.
    pub(crate) fn ret_nc(&mut self, memory: &Memory) -> (cycles: u8)
        requires
            memory.wf(),
        ensures
            (!old(self).registers.f.c) ==> *final(self) == (Cpu {
                pc: spec_bus_read16(memory@, old(self).sp),
                sp: wadd16(old(self).sp, 2),
                ..*old(self)
            }) && cycles == 20,
            !(!old(self).registers.f.c) ==> *final(self) == *old(self) && cycles == 8,
    {
        if !self.registers.f.c {
            let low = memory.read_byte(self.sp) as u16;
            self.sp = self.sp.wrapping_add(1);
            let high = memory.read_byte(self.sp) as u16;
            self.sp = self.sp.wrapping_add(1);
            self.pc = high * 256 + low;
            20
        } else {
            8
        }
    }

    /// RST: push PC, then jump to a fixed low vector.
    pub(crate) fn rst(&mut self, addr: u8, memory: &mut Memory) -> (cycles: u8)
        requires
            old(memory).wf(),
        ensures
            final(memory).wf(),
            final(memory)@ == spec_push16(old(self).sp, old(memory)@, old(self).pc),
            *final(self) == (Cpu { pc: addr as u16, sp: wadd16(old(self).sp, -2), ..*old(self) }),
            cycles == 16,
    {
        self.sp = self.sp.wrapping_sub(1);
        memory.write_byte(self.sp, (self.pc / 256) as u8);
        self.sp = self.sp.wrapping_sub(1);
        memory.write_byte(self.sp, (self.pc % 256) as u8);
        self.pc = addr as u16;
        16
    }

    /// RST 0x00.
    pub(crate) fn rst_00(&mut self, memory: &mut Memory) -> (cycles: u8)
        requires
            old(memory).wf(),
        ensures
            final(memory).wf(),
            final(memory)@ == spec_push16(old(self).sp, old(memory)@, old(self).pc),
            *final(self) == (Cpu { pc: 0x00, sp: wadd16(old(self).sp, -2), ..*old(self) }),
            cycles == 16,
    {
        self.rst(0x00, memory)
    }

    /// RST 0x08.
    pub(crate) fn rst_08(&mut self, memory: &mut Memory) -> (cycles: u8)
        requires
            old(memory).wf(),
        ensures
            final(memory).wf(),
            final(memory)@ == spec_push16(old(self).sp, old(memory)@, old(self).pc),
            *final(self) == (Cpu { pc: 0x08, sp: wadd16(old(self).sp, -2), ..*old(self) }),
            cycles == 16,
    {
        self.rst(0x08, memory)
    }

    /// RST 0x10.
    pub(crate) fn rst_10(&mut self, memory: &mut Memory) -> (cycles: u8)
        requires
            old(memory).wf(),
        ensures
            final(memory).wf(),
            final(memory)@ == spec_push16(old(self).sp, old(memory)@, old(self).pc),
            *final(self) == (Cpu { pc: 0x10, sp: wadd16(old(self).sp, -2), ..*old(self) }),
            cycles == 16,
    {
        self.rst(0x10, memory)
    }

    /// RST 0x18.
    pub(crate) fn rst_18(&mut self, memory: &mut Memory) -> (cycles: u8)
        requires
            old(memory).wf(),
        ensures
            final(memory).wf(),
            final(memory)@ == spec_push16(old(self).sp, old(memory)@, old(self).pc),
            *final(self) == (Cpu { pc: 0x18, sp: wadd16(old(self).sp, -2), ..*old(self) }),
            cycles == 16,
    {
        self.rst(0x18, memory)
    }

    /// RST 0x20.
    pub(crate) fn rst_20(&mut self, memory: &mut Memory) -> (cycles: u8)
        requires
            old(memory).wf(),
        ensures
            final(memory).wf(),
            final(memory)@ == spec_push16(old(self).sp, old(memory)@, old(self).pc),
            *final(self) == (Cpu { pc: 0x20, sp: wadd16(old(self).sp, -2), ..*old(self) }),
            cycles == 16,
    {
        self.rst(0x20, memory)
    }

    /// RST 0x28.
    pub(crate) fn rst_28(&mut self, memory: &mut Memory) -> (cycles: u8)
        requires
            old(memory).wf(),
        ensures
            final(memory).wf(),
            final(memory)@ == spec_push16(old(self).sp, old(memory)@, old(self).pc),
            *final(self) == (Cpu { pc: 0x28, sp: wadd16(old(self).sp, -2), ..*old(self) }),
            cycles == 16,
    {
        self.rst(0x28, memory)
    }

    /// RST 0x30.
    pub(crate) fn rst_30(&mut self, memory: &mut Memory) -> (cycles: u8)
        requires
            old(memory).wf(),
        ensures
            final(memory).wf(),
            final(memory)@ == spec_push16(old(self).sp, old(memory)@, old(self).pc),
            *final(self) == (Cpu { pc: 0x30, sp: wadd16(old(self).sp, -2), ..*old(self) }),
            cycles == 16,
    {
        self.rst(0x30, memory)
    }

    /// RST 0x38.
    pub(crate) fn rst_38(&mut self, memory: &mut Memory) -> (cycles: u8)
        requires
            old(memory).wf(),
        ensures
            final(memory).wf(),
            final(memory)@ == spec_push16(old(self).sp, old(memory)@, old(self).pc),
            *final(self) == (Cpu { pc: 0x38, sp: wadd16(old(self).sp, -2), ..*old(self) }),
            cycles == 16,
    {
        self.rst(0x38, memory)
    }

    /// PUSH BC: SP falls by two; high byte first.
    pub(crate) fn push_bc(&mut self, memory: &mut Memory) -> (cycles: u8)
        requires
            old(memory).wf(),
        ensures
            final(memory).wf(),
            final(memory)@ == spec_push16(old(self).sp, old(memory)@, spec_bc(old(self).registers)),
            *final(self) == (Cpu { sp: wadd16(old(self).sp, -2), ..*old(self) }),
            cycles == 16,
    {
        let value = self.registers.bc();
        self.sp = self.sp.wrapping_sub(1);
        memory.write_byte(self.sp, (value / 256) as u8);
        self.sp = self.sp.wrapping_sub(1);
        memory.write_byte(self.sp, (value % 256) as u8);
        16
    }

    /// POP BC: low byte first; SP rises by two.
    pub(crate) fn pop_bc(&mut self, memory: &Memory) -> (cycles: u8)
        requires
            memory.wf(),
        ensures
            *final(self) == (Cpu {
                registers: set_bc16(old(self).registers, spec_bus_read16(memory@, old(self).sp)),
                sp: wadd16(old(self).sp, 2),
                ..*old(self)
            }),
            cycles == 12,
    {
        let low = memory.read_byte(self.sp) as u16;
        self.sp = self.sp.wrapping_add(1);
        let high = memory.read_byte(self.sp) as u16;
        self.sp = self.sp.wrapping_add(1);
        self.registers.set_bc(high * 256 + low);
        12
    }

    /// PUSH DE: SP falls by two; high byte first.
    pub(crate) fn push_de(&mut self, memory: &mut Memory) -> (cycles: u8)
        requires
            old(memory).wf(),
        ensures
            final(memory).wf(),
            final(memory)@ == spec_push16(old(self).sp, old(memory)@, spec_de(old(self).registers)),
            *final(self) == (Cpu { sp: wadd16(old(self).sp, -2), ..*old(self) }),
            cycles == 16,
    {
        let value = self.registers.de();
        self.sp = self.sp.wrapping_sub(1);
        memory.write_byte(self.sp, (value / 256) as u8);
        self.sp = self.sp.wrapping_sub(1);
        memory.write_byte(self.sp, (value % 256) as u8);
        16
    }

    /// POP DE: low byte first; SP rises by two.
    pub(crate) fn pop_de(&mut self, memory: &Memory) -> (cycles: u8)
        requires
            memory.wf(),
        ensures
            *final(self) == (Cpu {
                registers: set_de16(old(self).registers, spec_bus_read16(memory@, old(self).sp)),
                sp: wadd16(old(self).sp, 2),
                ..*old(self)
            }),
            cycles == 12,
    {
        let low = memory.read_byte(self.sp) as u16;
        self.sp = self.sp.wrapping_add(1);
        let high = memory.read_byte(self.sp) as u16;
        self.sp = self.sp.wrapping_add(1);
        self.registers.set_de(high * 256 + low);
        12
    }

    /// PUSH HL: SP falls by two; high byte first.
    pub(crate) fn push_hl(&mut self, memory: &mut Memory) -> (cycles: u8)
        requires
            old(memory).wf(),
        ensures
            final(memory).wf(),
            final(memory)@ == spec_push16(old(self).sp, old(memory)@, spec_hl(old(self).registers)),
            *final(self) == (Cpu { sp: wadd16(old(self).sp, -2), ..*old(self) }),
            cycles == 16,
    {
        let value = self.registers.hl();
        self.sp = self.sp.wrapping_sub(1);
        memory.write_byte(self.sp, (value / 256) as u8);
        self.sp = self.sp.wrapping_sub(1);
        memory.write_byte(self.sp, (value % 256) as u8);
        16
    }

    /// POP HL: low byte first; SP rises by two.
    pub(crate) fn pop_hl(&mut self, memory: &Memory) -> (cycles: u8)
        requires
            memory.wf(),
        ensures
            *final(self) == (Cpu {
                registers: set_hl16(old(self).registers, spec_bus_read16(memory@, old(self).sp)),
                sp: wadd16(old(self).sp, 2),
                ..*old(self)
            }),
            cycles == 12,
    {
        let low = memory.read_byte(self.sp) as u16;
        self.sp = self.sp.wrapping_add(1);
        let high = memory.read_byte(self.sp) as u16;
        self.sp = self.sp.wrapping_add(1);
        self.registers.set_hl(high * 256 + low);
        12
    }

    /// PUSH AF: SP falls by two; high byte first.
    pub(crate) fn push_af(&mut self, memory: &mut Memory) -> (cycles: u8)
        requires
            old(memory).wf(),
        ensures
            final(memory).wf(),
            final(memory)@ == spec_push16(old(self).sp, old(memory)@, spec_af(old(self).registers)),
            *final(self) == (Cpu { sp: wadd16(old(self).sp, -2), ..*old(self) }),
            cycles == 16,
    {
        let value = self.registers.af();
        self.sp = self.sp.wrapping_sub(1);
        memory.write_byte(self.sp, (value / 256) as u8);
        self.sp = self.sp.wrapping_sub(1);
        memory.write_byte(self.sp, (value % 256) as u8);
        16
    }

    /// POP AF: low byte first; SP rises by two.
    pub(crate) fn pop_af(&mut self, memory: &Memory) -> (cycles: u8)
        requires
            memory.wf(),
        ensures
            *final(self) == (Cpu {
                registers: set_af16(old(self).registers, spec_bus_read16(memory@, old(self).sp)),
                sp: wadd16(old(self).sp, 2),
                ..*old(self)
            }),
            cycles == 12,
    {
        let low = memory.read_byte(self.sp) as u16;
        self.sp = self.sp.wrapping_add(1);
        let high = memory.read_byte(self.sp) as u16;
        self.sp = self.sp.wrapping_add(1);
        self.registers.set_af(high * 256 + low);
        12
    }

}

} // verus!
