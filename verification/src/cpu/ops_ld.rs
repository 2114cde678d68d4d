//! Executable register-transfer (LD) instructions, verified against the bus
//! and register-file semantics.

use vstd::prelude::*;
use crate::arith::{signed8, wadd16};
use crate::cpu::registers::{set_bc16, set_de16, set_hl16, spec_bc, spec_de, spec_hl, Flags, Registers};
use crate::cpu::Cpu;
use crate::memory::{spec_bus_read, spec_bus_read16, spec_bus_write, spec_bus_write16, Memory};

verus! {

impl Cpu {
    /// LD B,B.
    pub(crate) fn ld_b_b(&mut self) -> (cycles: u8)
        ensures
            *final(self) == *old(self),
            cycles == 4,
    {
        4
    }

    /// LD B,C.
    pub(crate) fn ld_b_c(&mut self) -> (cycles: u8)
        ensures
            *final(self) == (Cpu {
                registers: Registers { b: old(self).registers.c, ..old(self).registers },
                ..*old(self)
            }),
            cycles == 4,
    {
        self.registers.b = self.registers.c;
        4
    }

    /// LD B,D.
    pub(crate) fn ld_b_d(&mut self) -> (cycles: u8)
        ensures
            *final(self) == (Cpu {
                registers: Registers { b: old(self).registers.d, ..old(self).registers },
                ..*old(self)
            }),
            cycles == 4,
    {
        self.registers.b = self.registers.d;
        4
    }

    /// LD B,E.
    pub(crate) fn ld_b_e(&mut self) -> (cycles: u8)
        ensures
            *final(self) == (Cpu {
                registers: Registers { b: old(self).registers.e, ..old(self).registers },
                ..*old(self)
            }),
            cycles == 4,
    {
        self.registers.b = self.registers.e;
        4
    }

    /// LD B,H.
    pub(crate) fn ld_b_h(&mut self) -> (cycles: u8)
        ensures
            *final(self) == (Cpu {
                registers: Registers { b: old(self).registers.h, ..old(self).registers },
                ..*old(self)
            }),
            cycles == 4,
    {
        self.registers.b = self.registers.h;
        4
    }

    /// LD B,L.
    pub(crate) fn ld_b_l(&mut self) -> (cycles: u8)
        ensures
            *final(self) == (Cpu {
                registers: Registers { b: old(self).registers.l, ..old(self).registers },
                ..*old(self)
            }),
            cycles == 4,
    {
        self.registers.b = self.registers.l;
        4
    }

    /// LD B,A.
    pub(crate) fn ld_b_a(&mut self) -> (cycles: u8)
        ensures
            *final(self) == (Cpu {
                registers: Registers { b: old(self).registers.a, ..old(self).registers },
                ..*old(self)
            }),
            cycles == 4,
    {
        self.registers.b = self.registers.a;
        4
    }

    /// LD C,B.
    pub(crate) fn ld_c_b(&mut self) -> (cycles: u8)
        ensures
            *final(self) == (Cpu {
                registers: Registers { c: old(self).registers.b, ..old(self).registers },
                ..*old(self)
            }),
            cycles == 4,
    {
        self.registers.c = self.registers.b;
        4
    }

    /// LD C,C.
    pub(crate) fn ld_c_c(&mut self) -> (cycles: u8)
        ensures
            *final(self) == *old(self),
            cycles == 4,
    {
        4
    }

    /// LD C,D.
    pub(crate) fn ld_c_d(&mut self) -> (cycles: u8)
        ensures
            *final(self) == (Cpu {
                registers: Registers { c: old(self).registers.d, ..old(self).registers },
                ..*old(self)
            }),
            cycles == 4,
    {
        self.registers.c = self.registers.d;
        4
    }

    /// LD C,E.
    pub(crate) fn ld_c_e(&mut self) -> (cycles: u8)
        ensures
            *final(self) == (Cpu {
                registers: Registers { c: old(self).registers.e, ..old(self).registers },
                ..*old(self)
            }),
            cycles == 4,
    {
        self.registers.c = self.registers.e;
        4
    }

    /// LD C,H.
    pub(crate) fn ld_c_h(&mut self) -> (cycles: u8)
        ensures
            *final(self) == (Cpu {
                registers: Registers { c: old(self).registers.h, ..old(self).registers },
                ..*old(self)
            }),
            cycles == 4,
    {
        self.registers.c = self.registers.h;
        4
    }

    /// LD C,L.
    pub(crate) fn ld_c_l(&mut self) -> (cycles: u8)
        ensures
            *final(self) == (Cpu {
                registers: Registers { c: old(self).registers.l, ..old(self).registers },
                ..*old(self)
            }),
            cycles == 4,
    {
        self.registers.c = self.registers.l;
        4
    }

    /// LD C,A.
    pub(crate) fn ld_c_a(&mut self) -> (cycles: u8)
        ensures
            *final(self) == (Cpu {
                registers: Registers { c: old(self).registers.a, ..old(self).registers },
                ..*old(self)
            }),
            cycles == 4,
    {
        self.registers.c = self.registers.a;
        4
    }

    /// LD D,B.
    pub(crate) fn ld_d_b(&mut self) -> (cycles: u8)
        ensures
            *final(self) == (Cpu {
                registers: Registers { d: old(self).registers.b, ..old(self).registers },
                ..*old(self)
            }),
            cycles == 4,
    {
        self.registers.d = self.registers.b;
        4
    }

    /// LD D,C.
    pub(crate) fn ld_d_c(&mut self) -> (cycles: u8)
        ensures
            *final(self) == (Cpu {
                registers: Registers { d: old(self).registers.c, ..old(self).registers },
                ..*old(self)
            }),
            cycles == 4,
    {
        self.registers.d = self.registers.c;
        4
    }

    /// LD D,D.
    pub(crate) fn ld_d_d(&mut self) -> (cycles: u8)
        ensures
            *final(self) == *old(self),
            cycles == 4,
    {
        4
    }

    /// LD D,E.
    pub(crate) fn ld_d_e(&mut self) -> (cycles: u8)
        ensures
            *final(self) == (Cpu {
                registers: Registers { d: old(self).registers.e, ..old(self).registers },
                ..*old(self)
            }),
            cycles == 4,
    {
        self.registers.d = self.registers.e;
        4
    }

    /// LD D,H.
    pub(crate) fn ld_d_h(&mut self) -> (cycles: u8)
        ensures
            *final(self) == (Cpu {
                registers: Registers { d: old(self).registers.h, ..old(self).registers },
                ..*old(self)
            }),
            cycles == 4,
    {
        self.registers.d = self.registers.h;
        4
    }

    /// LD D,L.
    pub(crate) fn ld_d_l(&mut self) -> (cycles: u8)
        ensures
            *final(self) == (Cpu {
                registers: Registers { d: old(self).registers.l, ..old(self).registers },
                ..*old(self)
            }),
            cycles == 4,
    {
        self.registers.d = self.registers.l;
        4
    }

    /// LD D,A.
    pub(crate) fn ld_d_a(&mut self) -> (cycles: u8)
        ensures
            *final(self) == (Cpu {
                registers: Registers { d: old(self).registers.a, ..old(self).registers },
                ..*old(self)
            }),
            cycles == 4,
    {
        self.registers.d = self.registers.a;
        4
    }

    /// LD E,B.
    pub(crate) fn ld_e_b(&mut self) -> (cycles: u8)
        ensures
            *final(self) == (Cpu {
                registers: Registers { e: old(self).registers.b, ..old(self).registers },
                ..*old(self)
            }),
            cycles == 4,
    {
        self.registers.e = self.registers.b;
        4
    }

    /// LD E,C.
    pub(crate) fn ld_e_c(&mut self) -> (cycles: u8)
        ensures
            *final(self) == (Cpu {
                registers: Registers { e: old(self).registers.c, ..old(self).registers },
                ..*old(self)
            }),
            cycles == 4,
    {
        self.registers.e = self.registers.c;
        4
    }

    /// LD E,D.
    pub(crate) fn ld_e_d(&mut self) -> (cycles: u8)
        ensures
            *final(self) == (Cpu {
                registers: Registers { e: old(self).registers.d, ..old(self).registers },
                ..*old(self)
            }),
            cycles == 4,
    {
        self.registers.e = self.registers.d;
        4
    }

    /// LD E,E.
    pub(crate) fn ld_e_e(&mut self) -> (cycles: u8)
        ensures
            *final(self) == *old(self),
            cycles == 4,
    {
        4
    }

    /// LD E,H.
    pub(crate) fn ld_e_h(&mut self) -> (cycles: u8)
        ensures
            *final(self) == (Cpu {
                registers: Registers { e: old(self).registers.h, ..old(self).registers },
                ..*old(self)
            }),
            cycles == 4,
    {
        self.registers.e = self.registers.h;
        4
    }

    /// LD E,L.
    pub(crate) fn ld_e_l(&mut self) -> (cycles: u8)
        ensures
            *final(self) == (Cpu {
                registers: Registers { e: old(self).registers.l, ..old(self).registers },
                ..*old(self)
            }),
            cycles == 4,
    {
        self.registers.e = self.registers.l;
        4
    }

    /// LD E,A.
    pub(crate) fn ld_e_a(&mut self) -> (cycles: u8)
        ensures
            *final(self) == (Cpu {
                registers: Registers { e: old(self).registers.a, ..old(self).registers },
                ..*old(self)
            }),
            cycles == 4,
    {
        self.registers.e = self.registers.a;
        4
    }

    /// LD H,B.
    pub(crate) fn ld_h_b(&mut self) -> (cycles: u8)
        ensures
            *final(self) == (Cpu {
                registers: Registers { h: old(self).registers.b, ..old(self).registers },
                ..*old(self)
            }),
            cycles == 4,
    {
        self.registers.h = self.registers.b;
        4
    }

    /// LD H,C.
    pub(crate) fn ld_h_c(&mut self) -> (cycles: u8)
        ensures
            *final(self) == (Cpu {
                registers: Registers { h: old(self).registers.c, ..old(self).registers },
                ..*old(self)
            }),
            cycles == 4,
    {
        self.registers.h = self.registers.c;
        4
    }

    /// LD H,D.
    pub(crate) fn ld_h_d(&mut self) -> (cycles: u8)
        ensures
            *final(self) == (Cpu {
                registers: Registers { h: old(self).registers.d, ..old(self).registers },
                ..*old(self)
            }),
            cycles == 4,
    {
        self.registers.h = self.registers.d;
        4
    }

    /// LD H,E.
    pub(crate) fn ld_h_e(&mut self) -> (cycles: u8)
        ensures
            *final(self) == (Cpu {
                registers: Registers { h: old(self).registers.e, ..old(self).registers },
                ..*old(self)
            }),
            cycles == 4,
    {
        self.registers.h = self.registers.e;
        4
    }

    /// LD H,H.
    pub(crate) fn ld_h_h(&mut self) -> (cycles: u8)
        ensures
            *final(self) == *old(self),
            cycles == 4,
    {
        4
    }

    /// LD H,L.
    pub(crate) fn ld_h_l(&mut self) -> (cycles: u8)
        ensures
            *final(self) == (Cpu {
                registers: Registers { h: old(self).registers.l, ..old(self).registers },
                ..*old(self)
            }),
            cycles == 4,
    {
        self.registers.h = self.registers.l;
        4
    }

    /// LD H,A.
    pub(crate) fn ld_h_a(&mut self) -> (cycles: u8)
        ensures
            *final(self) == (Cpu {
                registers: Registers { h: old(self).registers.a, ..old(self).registers },
                ..*old(self)
            }),
            cycles == 4,
    {
        self.registers.h = self.registers.a;
        4
    }

    /// LD L,B.
    pub(crate) fn ld_l_b(&mut self) -> (cycles: u8)
        ensures
            *final(self) == (Cpu {
                registers: Registers { l: old(self).registers.b, ..old(self).registers },
                ..*old(self)
            }),
            cycles == 4,
    {
        self.registers.l = self.registers.b;
        4
    }

    /// LD L,C.
    pub(crate) fn ld_l_c(&mut self) -> (cycles: u8)
        ensures
            *final(self) == (Cpu {
                registers: Registers { l: old(self).registers.c, ..old(self).registers },
                ..*old(self)
            }),
            cycles == 4,
    {
        self.registers.l = self.registers.c;
        4
    }

    /// LD L,D.
    pub(crate) fn ld_l_d(&mut self) -> (cycles: u8)
        ensures
            *final(self) == (Cpu {
                registers: Registers { l: old(self).registers.d, ..old(self).registers },
                ..*old(self)
            }),
            cycles == 4,
    {
        self.registers.l = self.registers.d;
        4
    }

    /// LD L,E.
    pub(crate) fn ld_l_e(&mut self) -> (cycles: u8)
        ensures
            *final(self) == (Cpu {
                registers: Registers { l: old(self).registers.e, ..old(self).registers },
                ..*old(self)
            }),
            cycles == 4,
    {
        self.registers.l = self.registers.e;
        4
    }

    /// LD L,H.
    pub(crate) fn ld_l_h(&mut self) -> (cycles: u8)
        ensures
            *final(self) == (Cpu {
                registers: Registers { l: old(self).registers.h, ..old(self).registers },
                ..*old(self)
            }),
            cycles == 4,
    {
        self.registers.l = self.registers.h;
        4
    }

    /// LD L,L.
    pub(crate) fn ld_l_l(&mut self) -> (cycles: u8)
        ensures
            *final(self) == *old(self),
            cycles == 4,
    {
        4
    }

    /// LD L,A.
    pub(crate) fn ld_l_a(&mut self) -> (cycles: u8)
        ensures
            *final(self) == (Cpu {
                registers: Registers { l: old(self).registers.a, ..old(self).registers },
                ..*old(self)
            }),
            cycles == 4,
    {
        self.registers.l = self.registers.a;
        4
    }

    /// LD A,B.
    pub(crate) fn ld_a_b(&mut self) -> (cycles: u8)
        ensures
            *final(self) == (Cpu {
                registers: Registers { a: old(self).registers.b, ..old(self).registers },
                ..*old(self)
            }),
            cycles == 4,
    {
        self.registers.a = self.registers.b;
        4
    }

    /// LD A,C.
    pub(crate) fn ld_a_c(&mut self) -> (cycles: u8)
        ensures
            *final(self) == (Cpu {
                registers: Registers { a: old(self).registers.c, ..old(self).registers },
                ..*old(self)
            }),
            cycles == 4,
    {
        self.registers.a = self.registers.c;
        4
    }

    /// LD A,D.
    pub(crate) fn ld_a_d(&mut self) -> (cycles: u8)
        ensures
            *final(self) == (Cpu {
                registers: Registers { a: old(self).registers.d, ..old(self).registers },
                ..*old(self)
            }),
            cycles == 4,
    {
        self.registers.a = self.registers.d;
        4
    }

    /// LD A,E.
    pub(crate) fn ld_a_e(&mut self) -> (cycles: u8)
        ensures
            *final(self) == (Cpu {
                registers: Registers { a: old(self).registers.e, ..old(self).registers },
                ..*old(self)
            }),
            cycles == 4,
    {
        self.registers.a = self.registers.e;
        4
    }

    /// LD A,H.
    pub(crate) fn ld_a_h(&mut self) -> (cycles: u8)
        ensures
            *final(self) == (Cpu {
                registers: Registers { a: old(self).registers.h, ..old(self).registers },
                ..*old(self)
            }),
            cycles == 4,
    {
        self.registers.a = self.registers.h;
        4
    }

    /// LD A,L.
    pub(crate) fn ld_a_l(&mut self) -> (cycles: u8)
        ensures
            *final(self) == (Cpu {
                registers: Registers { a: old(self).registers.l, ..old(self).registers },
                ..*old(self)
            }),
            cycles == 4,
    {
        self.registers.a = self.registers.l;
        4
    }

    /// LD A,A.
    pub(crate) fn ld_a_a(&mut self) -> (cycles: u8)
        ensures
            *final(self) == *old(self),
            cycles == 4,
    {
        4
    }

    /// LD B,n with an immediate operand.
    pub(crate) fn ld_b_n(&mut self, memory: &Memory) -> (cycles: u8)
        requires
            memory.wf(),
        ensures
            *final(self) == (Cpu {
                registers: Registers { b: spec_bus_read(memory@, old(self).pc), ..old(self).registers },
                pc: wadd16(old(self).pc, 1),
                ..*old(self)
            }),
            cycles == 8,
    {
        let value = self.fetch_byte(memory);
        self.registers.b = value;
        8
    }

    /// LD C,n with an immediate operand.
    pub(crate) fn ld_c_n(&mut self, memory: &Memory) -> (cycles: u8)
        requires
            memory.wf(),
        ensures
            *final(self) == (Cpu {
                registers: Registers { c: spec_bus_read(memory@, old(self).pc), ..old(self).registers },
                pc: wadd16(old(self).pc, 1),
                ..*old(self)
            }),
            cycles == 8,
    {
        let value = self.fetch_byte(memory);
        self.registers.c = value;
        8
    }

    /// LD D,n with an immediate operand.
    pub(crate) fn ld_d_n(&mut self, memory: &Memory) -> (cycles: u8)
        requires
            memory.wf(),
        ensures
            *final(self) == (Cpu {
                registers: Registers { d: spec_bus_read(memory@, old(self).pc), ..old(self).registers },
                pc: wadd16(old(self).pc, 1),
                ..*old(self)
            }),
            cycles == 8,
    {
        let value = self.fetch_byte(memory);
        self.registers.d = value;
        8
    }

    /// LD E,n with an immediate operand.
    pub(crate) fn ld_e_n(&mut self, memory: &Memory) -> (cycles: u8)
        requires
            memory.wf(),
        ensures
            *final(self) == (Cpu {
                registers: Registers { e: spec_bus_read(memory@, old(self).pc), ..old(self).registers },
                pc: wadd16(old(self).pc, 1),
                ..*old(self)
            }),
            cycles == 8,
    {
        let value = self.fetch_byte(memory);
        self.registers.e = value;
        8
    }

    /// LD H,n with an immediate operand.
    pub(crate) fn ld_h_n(&mut self, memory: &Memory) -> (cycles: u8)
        requires
            memory.wf(),
        ensures
            *final(self) == (Cpu {
                registers: Registers { h: spec_bus_read(memory@, old(self).pc), ..old(self).registers },
                pc: wadd16(old(self).pc, 1),
                ..*old(self)
            }),
            cycles == 8,
    {
        let value = self.fetch_byte(memory);
        self.registers.h = value;
        8
    }

    /// LD L,n with an immediate operand.
    pub(crate) fn ld_l_n(&mut self, memory: &Memory) -> (cycles: u8)
        requires
            memory.wf(),
        ensures
            *final(self) == (Cpu {
                registers: Registers { l: spec_bus_read(memory@, old(self).pc), ..old(self).registers },
                pc: wadd16(old(self).pc, 1),
                ..*old(self)
            }),
            cycles == 8,
    {
        let value = self.fetch_byte(memory);
        self.registers.l = value;
        8
    }

    /// LD A,n with an immediate operand.
    pub(crate) fn ld_a_n(&mut self, memory: &Memory) -> (cycles: u8)
        requires
            memory.wf(),
        ensures
            *final(self) == (Cpu {
                registers: Registers { a: spec_bus_read(memory@, old(self).pc), ..old(self).registers },
                pc: wadd16(old(self).pc, 1),
                ..*old(self)
            }),
            cycles == 8,
    {
        let value = self.fetch_byte(memory);
        self.registers.a = value;
        8
    }

    /// LD B,(HL).
    pub(crate) fn ld_b_hl(&mut self, memory: &Memory) -> (cycles: u8)
        requires
            memory.wf(),
        ensures
            *final(self) == (Cpu {
                registers: Registers {
                    b: spec_bus_read(memory@, spec_hl(old(self).registers)),
                    ..old(self).registers
                },
                ..*old(self)
            }),
            cycles == 8,
    {
        let addr = self.registers.hl();
        self.registers.b = memory.read_byte(addr);
        8
    }

    /// LD C,(HL).
    pub(crate) fn ld_c_hl(&mut self, memory: &Memory) -> (cycles: u8)
        requires
            memory.wf(),
        ensures
            *final(self) == (Cpu {
                registers: Registers {
                    c: spec_bus_read(memory@, spec_hl(old(self).registers)),
                    ..old(self).registers
                },
                ..*old(self)
            }),
            cycles == 8,
    {
        let addr = self.registers.hl();
        self.registers.c = memory.read_byte(addr);
        8
    }

    /// LD D,(HL).
    pub(crate) fn ld_d_hl(&mut self, memory: &Memory) -> (cycles: u8)
        requires
            memory.wf(),
        ensures
            *final(self) == (Cpu {
                registers: Registers {
                    d: spec_bus_read(memory@, spec_hl(old(self).registers)),
                    ..old(self).registers
                },
                ..*old(self)
            }),
            cycles == 8,
    {
        let addr = self.registers.hl();
        self.registers.d = memory.read_byte(addr);
        8
    }

    /// LD E,(HL).
    pub(crate) fn ld_e_hl(&mut self, memory: &Memory) -> (cycles: u8)
        requires
            memory.wf(),
        ensures
            *final(self) == (Cpu {
                registers: Registers {
                    e: spec_bus_read(memory@, spec_hl(old(self).registers)),
                    ..old(self).registers
                },
                ..*old(self)
            }),
            cycles == 8,
    {
        let addr = self.registers.hl();
        self.registers.e = memory.read_byte(addr);
        8
    }

    /// LD H,(HL).
    pub(crate) fn ld_h_hl(&mut self, memory: &Memory) -> (cycles: u8)
        requires
            memory.wf(),
        ensures
            *final(self) == (Cpu {
                registers: Registers {
                    h: spec_bus_read(memory@, spec_hl(old(self).registers)),
                    ..old(self).registers
                },
                ..*old(self)
            }),
            cycles == 8,
    {
        let addr = self.registers.hl();
        self.registers.h = memory.read_byte(addr);
        8
    }

    /// LD L,(HL).
    pub(crate) fn ld_l_hl(&mut self, memory: &Memory) -> (cycles: u8)
        requires
            memory.wf(),
        ensures
            *final(self) == (Cpu {
                registers: Registers {
                    l: spec_bus_read(memory@, spec_hl(old(self).registers)),
                    ..old(self).registers
                },
                ..*old(self)
            }),
            cycles == 8,
    {
        let addr = self.registers.hl();
        self.registers.l = memory.read_byte(addr);
        8
    }

    /// LD A,(HL).
    pub(crate) fn ld_a_hl(&mut self, memory: &Memory) -> (cycles: u8)
        requires
            memory.wf(),
        ensures
            *final(self) == (Cpu {
                registers: Registers {
                    a: spec_bus_read(memory@, spec_hl(old(self).registers)),
                    ..old(self).registers
                },
                ..*old(self)
            }),
            cycles == 8,
    {
        let addr = self.registers.hl();
        self.registers.a = memory.read_byte(addr);
        8
    }

    /// LD (HL),B.
    pub(crate) fn ld_hl_b(&mut self, memory: &mut Memory) -> (cycles: u8)
        requires
            old(memory).wf(),
        ensures
            final(memory).wf(),
            final(memory)@ == spec_bus_write(
                old(memory)@,
                spec_hl(old(self).registers),
                old(self).registers.b,
            ),
            *final(self) == *old(self),
            cycles == 8,
    {
        let addr = self.registers.hl();
        memory.write_byte(addr, self.registers.b);
        8
    }

    /// LD (HL),C.
    pub(crate) fn ld_hl_c(&mut self, memory: &mut Memory) -> (cycles: u8)
        requires
            old(memory).wf(),
        ensures
            final(memory).wf(),
            final(memory)@ == spec_bus_write(
                old(memory)@,
                spec_hl(old(self).registers),
                old(self).registers.c,
            ),
            *final(self) == *old(self),
            cycles == 8,
    {
        let addr = self.registers.hl();
        memory.write_byte(addr, self.registers.c);
        8
    }

    /// LD (HL),D.
    pub(crate) fn ld_hl_d(&mut self, memory: &mut Memory) -> (cycles: u8)
        requires
            old(memory).wf(),
        ensures
            final(memory).wf(),
            final(memory)@ == spec_bus_write(
                old(memory)@,
                spec_hl(old(self).registers),
                old(self).registers.d,
            ),
            *final(self) == *old(self),
            cycles == 8,
    {
        let addr = self.registers.hl();
        memory.write_byte(addr, self.registers.d);
        8
    }

    /// LD (HL),E.
    pub(crate) fn ld_hl_e(&mut self, memory: &mut Memory) -> (cycles: u8)
        requires
            old(memory).wf(),
        ensures
            final(memory).wf(),
            final(memory)@ == spec_bus_write(
                old(memory)@,
                spec_hl(old(self).registers),
                old(self).registers.e,
            ),
            *final(self) == *old(self),
            cycles == 8,
    {
        let addr = self.registers.hl();
        memory.write_byte(addr, self.registers.e);
        8
    }

    /// LD (HL),H.
    pub(crate) fn ld_hl_h(&mut self, memory: &mut Memory) -> (cycles: u8)
        requires
            old(memory).wf(),
        ensures
            final(memory).wf(),
            final(memory)@ == spec_bus_write(
                old(memory)@,
                spec_hl(old(self).registers),
                old(self).registers.h,
            ),
            *final(self) == *old(self),
            cycles == 8,
    {
        let addr = self.registers.hl();
        memory.write_byte(addr, self.registers.h);
        8
    }

    /// LD (HL),L.
    pub(crate) fn ld_hl_l(&mut self, memory: &mut Memory) -> (cycles: u8)
        requires
            old(memory).wf(),
        ensures
            final(memory).wf(),
            final(memory)@ == spec_bus_write(
                old(memory)@,
                spec_hl(old(self).registers),
                old(self).registers.l,
            ),
            *final(self) == *old(self),
            cycles == 8,
    {
        let addr = self.registers.hl();
        memory.write_byte(addr, self.registers.l);
        8
    }

    /// LD (HL),A.
    pub(crate) fn ld_hl_a(&mut self, memory: &mut Memory) -> (cycles: u8)
        requires
            old(memory).wf(),
        ensures
            final(memory).wf(),
            final(memory)@ == spec_bus_write(
                old(memory)@,
                spec_hl(old(self).registers),
                old(self).registers.a,
            ),
            *final(self) == *old(self),
            cycles == 8,
    {
        let addr = self.registers.hl();
        memory.write_byte(addr, self.registers.a);
        8
    }

    /// LD (HL),n with an immediate operand.
    pub(crate) fn ld_hl_n(&mut self, memory: &mut Memory) -> (cycles: u8)
        requires
            old(memory).wf(),
        ensures
            final(memory).wf(),
            final(memory)@ == spec_bus_write(
                old(memory)@,
                spec_hl(old(self).registers),
                spec_bus_read(old(memory)@, old(self).pc),
            ),
            *final(self) == (Cpu { pc: wadd16(old(self).pc, 1), ..*old(self) }),
            cycles == 12,
    {
        let value = self.fetch_byte(memory);
        let addr = self.registers.hl();
        memory.write_byte(addr, value);
        12
    }

    /// LD BC,nn.
    pub(crate) fn ld_bc_nn(&mut self, memory: &Memory) -> (cycles: u8)
        requires
            memory.wf(),
        ensures
            *final(self) == (Cpu {
                registers: set_bc16(old(self).registers, spec_bus_read16(memory@, old(self).pc)),
                pc: wadd16(old(self).pc, 2),
                ..*old(self)
            }),
            cycles == 12,
    {
        let value = self.fetch_word(memory);
        self.registers.set_bc(value);
        12
    }

    /// LD DE,nn.
    pub(crate) fn ld_de_nn(&mut self, memory: &Memory) -> (cycles: u8)
        requires
            memory.wf(),
        ensures
            *final(self) == (Cpu {
                registers: set_de16(old(self).registers, spec_bus_read16(memory@, old(self).pc)),
                pc: wadd16(old(self).pc, 2),
                ..*old(self)
            }),
            cycles == 12,
    {
        let value = self.fetch_word(memory);
        self.registers.set_de(value);
        12
    }

    /// LD HL,nn.
    pub(crate) fn ld_hl_nn(&mut self, memory: &Memory) -> (cycles: u8)
        requires
            memory.wf(),
        ensures
            *final(self) == (Cpu {
                registers: set_hl16(old(self).registers, spec_bus_read16(memory@, old(self).pc)),
                pc: wadd16(old(self).pc, 2),
                ..*old(self)
            }),
            cycles == 12,
    {
        let value = self.fetch_word(memory);
        self.registers.set_hl(value);
        12
    }

    /// LD SP,nn.
    pub(crate) fn ld_sp_nn(&mut self, memory: &Memory) -> (cycles: u8)
        requires
            memory.wf(),
        ensures
            *final(self) == (Cpu {
                sp: spec_bus_read16(memory@, old(self).pc),
                pc: wadd16(old(self).pc, 2),
                ..*old(self)
            }),
            cycles == 12,
    {
        self.sp = self.fetch_word(memory);
        12
    }

    /// LD A,(BC).
    pub(crate) fn ld_a_bc(&mut self, memory: &Memory) -> (cycles: u8)
        requires
            memory.wf(),
        ensures
            *final(self) == (Cpu {
                registers: Registers {
                    a: spec_bus_read(memory@, spec_bc(old(self).registers)),
                    ..old(self).registers
                },
                ..*old(self)
            }),
            cycles == 8,
    {
        let addr = self.registers.bc();
        self.registers.a = memory.read_byte(addr);
        8
    }

    /// LD (BC),A.
    pub(crate) fn ld_bc_a(&mut self, memory: &mut Memory) -> (cycles: u8)
        requires
            old(memory).wf(),
        ensures
            final(memory).wf(),
            final(memory)@ == spec_bus_write(
                old(memory)@,
                spec_bc(old(self).registers),
                old(self).registers.a,
            ),
            *final(self) == *old(self),
            cycles == 8,
    {
        let addr = self.registers.bc();
        memory.write_byte(addr, self.registers.a);
        8
    }

    /// LD A,(DE).
    pub(crate) fn ld_a_de(&mut self, memory: &Memory) -> (cycles: u8)
        requires
            memory.wf(),
        ensures
            *final(self) == (Cpu {
                registers: Registers {
                    a: spec_bus_read(memory@, spec_de(old(self).registers)),
                    ..old(self).registers
                },
                ..*old(self)
            }),
            cycles == 8,
    {
        let addr = self.registers.de();
        self.registers.a = memory.read_byte(addr);
        8
    }

    /// LD (DE),A.
    pub(crate) fn ld_de_a(&mut self, memory: &mut Memory) -> (cycles: u8)
        requires
            old(memory).wf(),
        ensures
            final(memory).wf(),
            final(memory)@ == spec_bus_write(
                old(memory)@,
                spec_de(old(self).registers),
                old(self).registers.a,
            ),
            *final(self) == *old(self),
            cycles == 8,
    {
        let addr = self.registers.de();
        memory.write_byte(addr, self.registers.a);
        8
    }

    /// LD A,(nn) from an absolute address.
    pub(crate) fn ld_a_nn(&mut self, memory: &Memory) -> (cycles: u8)
        requires
            memory.wf(),
        ensures
            *final(self) == (Cpu {
                registers: Registers {
                    a: spec_bus_read(memory@, spec_bus_read16(memory@, old(self).pc)),
                    ..old(self).registers
                },
                pc: wadd16(old(self).pc, 2),
                ..*old(self)
            }),
            cycles == 16,
    {
        let addr = self.fetch_word(memory);
        self.registers.a = memory.read_byte(addr);
        16
    }

    /// LD (nn),A to an absolute address.
    pub(crate) fn ld_nn_a(&mut self, memory: &mut Memory) -> (cycles: u8)
        requires
            old(memory).wf(),
        ensures
            final(memory).wf(),
            final(memory)@ == spec_bus_write(
                old(memory)@,
                spec_bus_read16(old(memory)@, old(self).pc),
                old(self).registers.a,
            ),
            *final(self) == (Cpu { pc: wadd16(old(self).pc, 2), ..*old(self) }),
            cycles == 16,
    {
        let addr = self.fetch_word(memory);
        memory.write_byte(addr, self.registers.a);
        16
    }

    /// LD (HL+),A: store A at HL, then increment HL.
    pub(crate) fn ldi_hl_a(&mut self, memory: &mut Memory) -> (cycles: u8)
        requires
            old(memory).wf(),
        ensures
            final(memory).wf(),
            final(memory)@ == spec_bus_write(
                old(memory)@,
                spec_hl(old(self).registers),
                old(self).registers.a,
            ),
            *final(self) == (Cpu {
                registers: set_hl16(old(self).registers, wadd16(spec_hl(old(self).registers), 1)),
                ..*old(self)
            }),
            cycles == 8,
    {
        let addr = self.registers.hl();
        memory.write_byte(addr, self.registers.a);
        self.registers.set_hl(addr.wrapping_add(1));
        8
    }

    /// LD A,(HL+): load A from HL, then increment HL.
    pub(crate) fn ldi_a_hl(&mut self, memory: &Memory) -> (cycles: u8)
        requires
            memory.wf(),
        ensures
            *final(self) == (Cpu {
                registers: set_hl16(
                    Registers {
                        a: spec_bus_read(memory@, spec_hl(old(self).registers)),
                        ..old(self).registers
                    },
                    wadd16(spec_hl(old(self).registers), 1),
                ),
                ..*old(self)
            }),
            cycles == 8,
    {
        let addr = self.registers.hl();
        self.registers.a = memory.read_byte(addr);
        self.registers.set_hl(addr.wrapping_add(1));
        8
    }

    /// LD (HL-),A: store A at HL, then decrement HL.
    pub(crate) fn ldd_hl_a(&mut self, memory: &mut Memory) -> (cycles: u8)
        requires
            old(memory).wf(),
        ensures
            final(memory).wf(),
            final(memory)@ == spec_bus_write(
                old(memory)@,
                spec_hl(old(self).registers),
                old(self).registers.a,
            ),
            *final(self) == (Cpu {
                registers: set_hl16(old(self).registers, wadd16(spec_hl(old(self).registers), -1)),
                ..*old(self)
            }),
            cycles == 8,
    {
        let addr = self.registers.hl();
        memory.write_byte(addr, self.registers.a);
        self.registers.set_hl(addr.wrapping_sub(1));
        8
    }

    /// LD A,(HL-): load A from HL, then decrement HL.
    pub(crate) fn ldd_a_hl(&mut self, memory: &Memory) -> (cycles: u8)
        requires
            memory.wf(),
        ensures
            *final(self) == (Cpu {
                registers: set_hl16(
                    Registers {
                        a: spec_bus_read(memory@, spec_hl(old(self).registers)),
                        ..old(self).registers
                    },
                    wadd16(spec_hl(old(self).registers), -1),
                ),
                ..*old(self)
            }),
            cycles == 8,
    {
        let addr = self.registers.hl();
        self.registers.a = memory.read_byte(addr);
        self.registers.set_hl(addr.wrapping_sub(1));
        8
    }

    /// LDH (n),A: store A into high memory at 0xFF00 | n.
    pub(crate) fn ldh_n_a(&mut self, memory: &mut Memory) -> (cycles: u8)
        requires
            old(memory).wf(),
        ensures
            final(memory).wf(),
            final(memory)@ == spec_bus_write(
                old(memory)@,
                (0xFF00 + spec_bus_read(old(memory)@, old(self).pc)) as u16,
                old(self).registers.a,
            ),
            *final(self) == (Cpu { pc: wadd16(old(self).pc, 1), ..*old(self) }),
            cycles == 12,
    {
        let offset = self.fetch_byte(memory);
        let addr: u16 = 0xFF00 + offset as u16;
        memory.write_byte(addr, self.registers.a);
        12
    }

    /// LDH A,(n): load A from high memory at 0xFF00 | n.
    pub(crate) fn ldh_a_n(&mut self, memory: &Memory) -> (cycles: u8)
        requires
            memory.wf(),
        ensures
            *final(self) == (Cpu {
                registers: Registers {
                    a: spec_bus_read(memory@, (0xFF00 + spec_bus_read(memory@, old(self).pc)) as u16),
                    ..old(self).registers
                },
                pc: wadd16(old(self).pc, 1),
                ..*old(self)
            }),
            cycles == 12,
    {
        let offset = self.fetch_byte(memory);
        let addr: u16 = 0xFF00 + offset as u16;
        self.registers.a = memory.read_byte(addr);
        12
    }

    /// LDH (C),A: store A into high memory at 0xFF00 | C.
    pub(crate) fn ldh_c_a(&mut self, memory: &mut Memory) -> (cycles: u8)
        requires
            old(memory).wf(),
        ensures
            final(memory).wf(),
            final(memory)@ == spec_bus_write(
                old(memory)@,
                (0xFF00 + old(self).registers.c) as u16,
                old(self).registers.a,
            ),
            *final(self) == *old(self),
            cycles == 8,
    {
        let addr: u16 = 0xFF00 + self.registers.c as u16;
        memory.write_byte(addr, self.registers.a);
        8
    }

    /// LDH A,(C): load A from high memory at 0xFF00 | C.
    pub(crate) fn ldh_a_c(&mut self, memory: &Memory) -> (cycles: u8)
        requires
            memory.wf(),
        ensures
            *final(self) == (Cpu {
                registers: Registers {
                    a: spec_bus_read(memory@, (0xFF00 + old(self).registers.c) as u16),
                    ..old(self).registers
                },
                ..*old(self)
            }),
            cycles == 8,
    {
        let addr: u16 = 0xFF00 + self.registers.c as u16;
        self.registers.a = memory.read_byte(addr);
        8
    }

    /// LD (nn),SP: store SP little-endian at an absolute address.
    pub(crate) fn ld_nn_sp(&mut self, memory: &mut Memory) -> (cycles: u8)
        requires
            old(memory).wf(),
        ensures
            final(memory).wf(),
            final(memory)@ == spec_bus_write16(
                old(memory)@,
                spec_bus_read16(old(memory)@, old(self).pc),
                old(self).sp,
            ),
            *final(self) == (Cpu { pc: wadd16(old(self).pc, 2), ..*old(self) }),
            cycles == 20,
    {
        let addr = self.fetch_word(memory);
        memory.write_word(addr, self.sp);
        20
    }

    /// LD SP,HL.
    pub(crate) fn ld_sp_hl(&mut self) -> (cycles: u8)
        ensures
            *final(self) == (Cpu { sp: spec_hl(old(self).registers), ..*old(self) }),
            cycles == 8,
    {
        self.sp = self.registers.hl();
        8
    }

    /// LD HL,SP+n: HL takes SP plus a signed displacement; H and C derive
    /// from the unsigned addition of the low bytes.
    #[verifier::rlimit(50)]
    pub(crate) fn ld_hl_sp_n(&mut self, memory: &Memory) -> (cycles: u8)
        requires
            memory.wf(),
        ensures
            *final(self) == ({
                let n = spec_bus_read(memory@, old(self).pc);
                Cpu {
                    registers: set_hl16(
                        Registers {
                            f: Flags {
                                z: false,
                                n: false,
                                h: old(self).sp % 16 + n % 16 > 15,
                                c: old(self).sp % 256 + n > 255,
                            },
                            ..old(self).registers
                        },
                        wadd16(old(self).sp, signed8(n)),
                    ),
                    pc: wadd16(old(self).pc, 1),
                    ..*old(self)
                }
            }),
            cycles == 12,
    {
        let offset = self.fetch_byte(memory);
        let sp = self.sp;
        let result: u16 = if offset < 128 {
            sp.wrapping_add(offset as u16)
        } else {
            sp.wrapping_sub(256 - offset as u16)
        };
        proof {
            assert(result == wadd16(sp, signed8(offset)));
        }
        self.registers.f.z = false;
        self.registers.f.n = false;
        self.registers.f.h = (sp % 16) as u8 + offset % 16 > 15;
        self.registers.f.c = sp % 256 + offset as u16 > 255;
        self.registers.set_hl(result);
        12
    }

}

} // verus!
