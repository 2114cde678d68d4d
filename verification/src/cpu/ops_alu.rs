//! Executable 8-bit arithmetic/logic instructions and the single-byte
//! miscellaneous operations, each verified against the ALU semantics.

use vstd::prelude::*;
use crate::arith::wadd16;
use crate::cpu::alu::{alu_daa, alu_dec, alu_inc, rot_rl, rot_rlc, rot_rr, rot_rrc};
use crate::cpu::registers::{set_bc16, set_de16, set_hl16, spec_bc, spec_de, spec_hl, Flags, Registers};
use crate::cpu::semantics::spec_apply_alu;
use crate::cpu::Cpu;
use crate::memory::{spec_bus_read, spec_bus_write, Memory};

verus! {

impl Cpu {
    /// ADD A,v.
    pub(crate) fn add_a(&mut self, value: u8) -> (cycles: u8)
        ensures
            *final(self) == (Cpu { registers: spec_apply_alu(0, old(self).registers, value), ..*old(self) }),
            cycles == 4,
    {
        let a = self.registers.a;
        let sum: u16 = a as u16 + value as u16;
        let result: u8 = (sum % 256) as u8;
        self.registers.f.z = result == 0;
        self.registers.f.n = false;
        self.registers.f.h = a % 16 + value % 16 > 15;
        self.registers.f.c = sum > 255;
        self.registers.a = result;
        4
    }

    /// ADC A,v.
    pub(crate) fn adc_a(&mut self, value: u8) -> (cycles: u8)
        ensures
            *final(self) == (Cpu { registers: spec_apply_alu(1, old(self).registers, value), ..*old(self) }),
            cycles == 4,
    {
        let a = self.registers.a;
        let carry: u8 = if self.registers.f.c {
            1
        } else {
            0
        };
        let sum: u16 = a as u16 + value as u16 + carry as u16;
        let result: u8 = (sum % 256) as u8;
        self.registers.f.z = result == 0;
        self.registers.f.n = false;
        self.registers.f.h = a % 16 + value % 16 + carry > 15;
        self.registers.f.c = sum > 255;
        self.registers.a = result;
        4
    }

    /// SUB A,v.
    pub(crate) fn sub_a(&mut self, value: u8) -> (cycles: u8)
        ensures
            *final(self) == (Cpu { registers: spec_apply_alu(2, old(self).registers, value), ..*old(self) }),
            cycles == 4,
    {
        let a = self.registers.a;
        let diff: u16 = a as u16 + 256 - value as u16;
        let result: u8 = (diff % 256) as u8;
        self.registers.f.z = result == 0;
        self.registers.f.n = true;
        self.registers.f.h = a % 16 < value % 16;
        self.registers.f.c = a < value;
        self.registers.a = result;
        4
    }

    /// SBC A,v.
    pub(crate) fn sbc_a(&mut self, value: u8) -> (cycles: u8)
        ensures
            *final(self) == (Cpu { registers: spec_apply_alu(3, old(self).registers, value), ..*old(self) }),
            cycles == 4,
    {
        let a = self.registers.a;
        let carry: u8 = if self.registers.f.c {
            1
        } else {
            0
        };
        let diff: u16 = a as u16 + 512 - value as u16 - carry as u16;
        let result: u8 = (diff % 256) as u8;
        self.registers.f.z = result == 0;
        self.registers.f.n = true;
        self.registers.f.h = a % 16 < value % 16 + carry;
        self.registers.f.c = (a as u16) < value as u16 + carry as u16;
        self.registers.a = result;
        4
    }

    /// AND A,v.
    pub(crate) fn and_a(&mut self, value: u8) -> (cycles: u8)
        ensures
            *final(self) == (Cpu { registers: spec_apply_alu(4, old(self).registers, value), ..*old(self) }),
            cycles == 4,
    {
        self.registers.a = self.registers.a & value;
        self.registers.f.z = self.registers.a == 0;
        self.registers.f.n = false;
        self.registers.f.h = true;
        self.registers.f.c = false;
        4
    }

    /// XOR A,v.
    pub(crate) fn xor_val(&mut self, value: u8) -> (cycles: u8)
        ensures
            *final(self) == (Cpu { registers: spec_apply_alu(5, old(self).registers, value), ..*old(self) }),
            cycles == 4,
    {
        self.registers.a = self.registers.a ^ value;
        self.registers.f.z = self.registers.a == 0;
        self.registers.f.n = false;
        self.registers.f.h = false;
        self.registers.f.c = false;
        4
    }

    /// OR A,v.
    pub(crate) fn or_a(&mut self, value: u8) -> (cycles: u8)
        ensures
            *final(self) == (Cpu { registers: spec_apply_alu(6, old(self).registers, value), ..*old(self) }),
            cycles == 4,
    {
        self.registers.a = self.registers.a | value;
        self.registers.f.z = self.registers.a == 0;
        self.registers.f.n = false;
        self.registers.f.h = false;
        self.registers.f.c = false;
        4
    }

    /// CP A,v: the flags of a subtraction, A unchanged.
    pub(crate) fn cp_a(&mut self, value: u8) -> (cycles: u8)
        ensures
            *final(self) == (Cpu { registers: spec_apply_alu(7, old(self).registers, value), ..*old(self) }),
            cycles == 4,
    {
        let a = self.registers.a;
        let diff: u16 = a as u16 + 256 - value as u16;
        let result: u8 = (diff % 256) as u8;
        self.registers.f.z = result == 0;
        self.registers.f.n = true;
        self.registers.f.h = a % 16 < value % 16;
        self.registers.f.c = a < value;
        4
    }

    /// ADD A,B.
    pub(crate) fn add_a_b(&mut self) -> (cycles: u8)
        ensures
            *final(self) == (Cpu { registers: spec_apply_alu(0, old(self).registers, old(self).registers.b), ..*old(self) }),
            cycles == 4,
    {
        let value = self.registers.b;
        self.add_a(value)
    }

    /// ADD A,C.
    pub(crate) fn add_a_c(&mut self) -> (cycles: u8)
        ensures
            *final(self) == (Cpu { registers: spec_apply_alu(0, old(self).registers, old(self).registers.c), ..*old(self) }),
            cycles == 4,
    {
        let value = self.registers.c;
        self.add_a(value)
    }

    /// ADD A,D.
    pub(crate) fn add_a_d(&mut self) -> (cycles: u8)
        ensures
            *final(self) == (Cpu { registers: spec_apply_alu(0, old(self).registers, old(self).registers.d), ..*old(self) }),
            cycles == 4,
    {
        let value = self.registers.d;
        self.add_a(value)
    }

    /// ADD A,E.
    pub(crate) fn add_a_e(&mut self) -> (cycles: u8)
        ensures
            *final(self) == (Cpu { registers: spec_apply_alu(0, old(self).registers, old(self).registers.e), ..*old(self) }),
            cycles == 4,
    {
        let value = self.registers.e;
        self.add_a(value)
    }

    /// ADD A,H.
    pub(crate) fn add_a_h(&mut self) -> (cycles: u8)
        ensures
            *final(self) == (Cpu { registers: spec_apply_alu(0, old(self).registers, old(self).registers.h), ..*old(self) }),
            cycles == 4,
    {
        let value = self.registers.h;
        self.add_a(value)
    }

    /// ADD A,L.
    pub(crate) fn add_a_l(&mut self) -> (cycles: u8)
        ensures
            *final(self) == (Cpu { registers: spec_apply_alu(0, old(self).registers, old(self).registers.l), ..*old(self) }),
            cycles == 4,
    {
        let value = self.registers.l;
        self.add_a(value)
    }

    /// ADD A,A.
    pub(crate) fn add_a_a(&mut self) -> (cycles: u8)
        ensures
            *final(self) == (Cpu { registers: spec_apply_alu(0, old(self).registers, old(self).registers.a), ..*old(self) }),
            cycles == 4,
    {
        let value = self.registers.a;
        self.add_a(value)
    }

    /// ADD A,(HL).
    pub(crate) fn add_a_hl(&mut self, memory: &Memory) -> (cycles: u8)
        requires
            memory.wf(),
        ensures
            *final(self) == (Cpu {
                registers: spec_apply_alu(0, old(self).registers, spec_bus_read(memory@, spec_hl(old(self).registers))),
                ..*old(self)
            }),
            cycles == 8,
    {
        let addr = self.registers.hl();
        let value = memory.read_byte(addr);
        self.add_a(value);
        8
    }

    /// ADD A,n with an immediate operand.
    pub(crate) fn add_a_n(&mut self, memory: &Memory) -> (cycles: u8)
        requires
            memory.wf(),
        ensures
            *final(self) == (Cpu {
                registers: spec_apply_alu(0, old(self).registers, spec_bus_read(memory@, old(self).pc)),
                pc: wadd16(old(self).pc, 1),
                ..*old(self)
            }),
            cycles == 8,
    {
        let value = self.fetch_byte(memory);
        self.add_a(value);
        8
    }

    /// ADC A,B.
    pub(crate) fn adc_a_b(&mut self) -> (cycles: u8)
        ensures
            *final(self) == (Cpu { registers: spec_apply_alu(1, old(self).registers, old(self).registers.b), ..*old(self) }),
            cycles == 4,
    {
        let value = self.registers.b;
        self.adc_a(value)
    }

    /// ADC A,C.
    pub(crate) fn adc_a_c(&mut self) -> (cycles: u8)
        ensures
            *final(self) == (Cpu { registers: spec_apply_alu(1, old(self).registers, old(self).registers.c), ..*old(self) }),
            cycles == 4,
    {
        let value = self.registers.c;
        self.adc_a(value)
    }

    /// ADC A,D.
    pub(crate) fn adc_a_d(&mut self) -> (cycles: u8)
        ensures
            *final(self) == (Cpu { registers: spec_apply_alu(1, old(self).registers, old(self).registers.d), ..*old(self) }),
            cycles == 4,
    {
        let value = self.registers.d;
        self.adc_a(value)
    }

    /// ADC A,E.
    pub(crate) fn adc_a_e(&mut self) -> (cycles: u8)
        ensures
            *final(self) == (Cpu { registers: spec_apply_alu(1, old(self).registers, old(self).registers.e), ..*old(self) }),
            cycles == 4,
    {
        let value = self.registers.e;
        self.adc_a(value)
    }

    /// ADC A,H.
    pub(crate) fn adc_a_h(&mut self) -> (cycles: u8)
        ensures
            *final(self) == (Cpu { registers: spec_apply_alu(1, old(self).registers, old(self).registers.h), ..*old(self) }),
            cycles == 4,
    {
        let value = self.registers.h;
        self.adc_a(value)
    }

    /// ADC A,L.
    pub(crate) fn adc_a_l(&mut self) -> (cycles: u8)
        ensures
            *final(self) == (Cpu { registers: spec_apply_alu(1, old(self).registers, old(self).registers.l), ..*old(self) }),
            cycles == 4,
    {
        let value = self.registers.l;
        self.adc_a(value)
    }

    /// ADC A,A.
    pub(crate) fn adc_a_a(&mut self) -> (cycles: u8)
        ensures
            *final(self) == (Cpu { registers: spec_apply_alu(1, old(self).registers, old(self).registers.a), ..*old(self) }),
            cycles == 4,
    {
        let value = self.registers.a;
        self.adc_a(value)
    }

    /// ADC A,(HL).
    pub(crate) fn adc_a_hl(&mut self, memory: &Memory) -> (cycles: u8)
        requires
            memory.wf(),
        ensures
            *final(self) == (Cpu {
                registers: spec_apply_alu(1, old(self).registers, spec_bus_read(memory@, spec_hl(old(self).registers))),
                ..*old(self)
            }),
            cycles == 8,
    {
        let addr = self.registers.hl();
        let value = memory.read_byte(addr);
        self.adc_a(value);
        8
    }

    /// ADC A,n with an immediate operand.
    pub(crate) fn adc_a_n(&mut self, memory: &Memory) -> (cycles: u8)
        requires
            memory.wf(),
        ensures
            *final(self) == (Cpu {
                registers: spec_apply_alu(1, old(self).registers, spec_bus_read(memory@, old(self).pc)),
                pc: wadd16(old(self).pc, 1),
                ..*old(self)
            }),
            cycles == 8,
    {
        let value = self.fetch_byte(memory);
        self.adc_a(value);
        8
    }

    /// SUB A,B.
    pub(crate) fn sub_a_b(&mut self) -> (cycles: u8)
        ensures
            *final(self) == (Cpu { registers: spec_apply_alu(2, old(self).registers, old(self).registers.b), ..*old(self) }),
            cycles == 4,
    {
        let value = self.registers.b;
        self.sub_a(value)
    }

    /// SUB A,C.
    pub(crate) fn sub_a_c(&mut self) -> (cycles: u8)
        ensures
            *final(self) == (Cpu { registers: spec_apply_alu(2, old(self).registers, old(self).registers.c), ..*old(self) }),
            cycles == 4,
    {
        let value = self.registers.c;
        self.sub_a(value)
    }

    /// SUB A,D.
    pub(crate) fn sub_a_d(&mut self) -> (cycles: u8)
        ensures
            *final(self) == (Cpu { registers: spec_apply_alu(2, old(self).registers, old(self).registers.d), ..*old(self) }),
            cycles == 4,
    {
        let value = self.registers.d;
        self.sub_a(value)
    }

    /// SUB A,E.
    pub(crate) fn sub_a_e(&mut self) -> (cycles: u8)
        ensures
            *final(self) == (Cpu { registers: spec_apply_alu(2, old(self).registers, old(self).registers.e), ..*old(self) }),
            cycles == 4,
    {
        let value = self.registers.e;
        self.sub_a(value)
    }

    /// SUB A,H.
    pub(crate) fn sub_a_h(&mut self) -> (cycles: u8)
        ensures
            *final(self) == (Cpu { registers: spec_apply_alu(2, old(self).registers, old(self).registers.h), ..*old(self) }),
            cycles == 4,
    {
        let value = self.registers.h;
        self.sub_a(value)
    }

    /// SUB A,L.
    pub(crate) fn sub_a_l(&mut self) -> (cycles: u8)
        ensures
            *final(self) == (Cpu { registers: spec_apply_alu(2, old(self).registers, old(self).registers.l), ..*old(self) }),
            cycles == 4,
    {
        let value = self.registers.l;
        self.sub_a(value)
    }

    /// SUB A,A.
    pub(crate) fn sub_a_a(&mut self) -> (cycles: u8)
        ensures
            *final(self) == (Cpu { registers: spec_apply_alu(2, old(self).registers, old(self).registers.a), ..*old(self) }),
            cycles == 4,
    {
        let value = self.registers.a;
        self.sub_a(value)
    }

    /// SUB A,(HL).
    pub(crate) fn sub_a_hl(&mut self, memory: &Memory) -> (cycles: u8)
        requires
            memory.wf(),
        ensures
            *final(self) == (Cpu {
                registers: spec_apply_alu(2, old(self).registers, spec_bus_read(memory@, spec_hl(old(self).registers))),
                ..*old(self)
            }),
            cycles == 8,
    {
        let addr = self.registers.hl();
        let value = memory.read_byte(addr);
        self.sub_a(value);
        8
    }

    /// SUB A,n with an immediate operand.
    pub(crate) fn sub_a_n(&mut self, memory: &Memory) -> (cycles: u8)
        requires
            memory.wf(),
        ensures
            *final(self) == (Cpu {
                registers: spec_apply_alu(2, old(self).registers, spec_bus_read(memory@, old(self).pc)),
                pc: wadd16(old(self).pc, 1),
                ..*old(self)
            }),
            cycles == 8,
    {
        let value = self.fetch_byte(memory);
        self.sub_a(value);
        8
    }

    /// SBC A,B.
    pub(crate) fn sbc_a_b(&mut self) -> (cycles: u8)
        ensures
            *final(self) == (Cpu { registers: spec_apply_alu(3, old(self).registers, old(self).registers.b), ..*old(self) }),
            cycles == 4,
    {
        let value = self.registers.b;
        self.sbc_a(value)
    }

    /// SBC A,C.
    pub(crate) fn sbc_a_c(&mut self) -> (cycles: u8)
        ensures
            *final(self) == (Cpu { registers: spec_apply_alu(3, old(self).registers, old(self).registers.c), ..*old(self) }),
            cycles == 4,
    {
        let value = self.registers.c;
        self.sbc_a(value)
    }

    /// SBC A,D.
    pub(crate) fn sbc_a_d(&mut self) -> (cycles: u8)
        ensures
            *final(self) == (Cpu { registers: spec_apply_alu(3, old(self).registers, old(self).registers.d), ..*old(self) }),
            cycles == 4,
    {
        let value = self.registers.d;
        self.sbc_a(value)
    }

    /// SBC A,E.
    pub(crate) fn sbc_a_e(&mut self) -> (cycles: u8)
        ensures
            *final(self) == (Cpu { registers: spec_apply_alu(3, old(self).registers, old(self).registers.e), ..*old(self) }),
            cycles == 4,
    {
        let value = self.registers.e;
        self.sbc_a(value)
    }

    /// SBC A,H.
    pub(crate) fn sbc_a_h(&mut self) -> (cycles: u8)
        ensures
            *final(self) == (Cpu { registers: spec_apply_alu(3, old(self).registers, old(self).registers.h), ..*old(self) }),
            cycles == 4,
    {
        let value = self.registers.h;
        self.sbc_a(value)
    }

    /// SBC A,L.
    pub(crate) fn sbc_a_l(&mut self) -> (cycles: u8)
        ensures
            *final(self) == (Cpu { registers: spec_apply_alu(3, old(self).registers, old(self).registers.l), ..*old(self) }),
            cycles == 4,
    {
        let value = self.registers.l;
        self.sbc_a(value)
    }

    /// SBC A,A.
    pub(crate) fn sbc_a_a(&mut self) -> (cycles: u8)
        ensures
            *final(self) == (Cpu { registers: spec_apply_alu(3, old(self).registers, old(self).registers.a), ..*old(self) }),
            cycles == 4,
    {
        let value = self.registers.a;
        self.sbc_a(value)
    }

    /// SBC A,(HL).
    pub(crate) fn sbc_a_hl(&mut self, memory: &Memory) -> (cycles: u8)
        requires
            memory.wf(),
        ensures
            *final(self) == (Cpu {
                registers: spec_apply_alu(3, old(self).registers, spec_bus_read(memory@, spec_hl(old(self).registers))),
                ..*old(self)
            }),
            cycles == 8,
    {
        let addr = self.registers.hl();
        let value = memory.read_byte(addr);
        self.sbc_a(value);
        8
    }

    /// SBC A,n with an immediate operand.
    pub(crate) fn sbc_a_n(&mut self, memory: &Memory) -> (cycles: u8)
        requires
            memory.wf(),
        ensures
            *final(self) == (Cpu {
                registers: spec_apply_alu(3, old(self).registers, spec_bus_read(memory@, old(self).pc)),
                pc: wadd16(old(self).pc, 1),
                ..*old(self)
            }),
            cycles == 8,
    {
        let value = self.fetch_byte(memory);
        self.sbc_a(value);
        8
    }

    /// AND A,B.
    pub(crate) fn and_a_b(&mut self) -> (cycles: u8)
        ensures
            *final(self) == (Cpu { registers: spec_apply_alu(4, old(self).registers, old(self).registers.b), ..*old(self) }),
            cycles == 4,
    {
        let value = self.registers.b;
        self.and_a(value)
    }

    /// AND A,C.
    pub(crate) fn and_a_c(&mut self) -> (cycles: u8)
        ensures
            *final(self) == (Cpu { registers: spec_apply_alu(4, old(self).registers, old(self).registers.c), ..*old(self) }),
            cycles == 4,
    {
        let value = self.registers.c;
        self.and_a(value)
    }

    /// AND A,D.
    pub(crate) fn and_a_d(&mut self) -> (cycles: u8)
        ensures
            *final(self) == (Cpu { registers: spec_apply_alu(4, old(self).registers, old(self).registers.d), ..*old(self) }),
            cycles == 4,
    {
        let value = self.registers.d;
        self.and_a(value)
    }

    /// AND A,E.
    pub(crate) fn and_a_e(&mut self) -> (cycles: u8)
        ensures
            *final(self) == (Cpu { registers: spec_apply_alu(4, old(self).registers, old(self).registers.e), ..*old(self) }),
            cycles == 4,
    {
        let value = self.registers.e;
        self.and_a(value)
    }

    /// AND A,H.
    pub(crate) fn and_a_h(&mut self) -> (cycles: u8)
        ensures
            *final(self) == (Cpu { registers: spec_apply_alu(4, old(self).registers, old(self).registers.h), ..*old(self) }),
            cycles == 4,
    {
        let value = self.registers.h;
        self.and_a(value)
    }

    /// AND A,L.
    pub(crate) fn and_a_l(&mut self) -> (cycles: u8)
        ensures
            *final(self) == (Cpu { registers: spec_apply_alu(4, old(self).registers, old(self).registers.l), ..*old(self) }),
            cycles == 4,
    {
        let value = self.registers.l;
        self.and_a(value)
    }

    /// AND A,A.
    pub(crate) fn and_a_a(&mut self) -> (cycles: u8)
        ensures
            *final(self) == (Cpu { registers: spec_apply_alu(4, old(self).registers, old(self).registers.a), ..*old(self) }),
            cycles == 4,
    {
        let value = self.registers.a;
        self.and_a(value)
    }

    /// AND A,(HL).
    pub(crate) fn and_a_hl(&mut self, memory: &Memory) -> (cycles: u8)
        requires
            memory.wf(),
        ensures
            *final(self) == (Cpu {
                registers: spec_apply_alu(4, old(self).registers, spec_bus_read(memory@, spec_hl(old(self).registers))),
                ..*old(self)
            }),
            cycles == 8,
    {
        let addr = self.registers.hl();
        let value = memory.read_byte(addr);
        self.and_a(value);
        8
    }

    /// AND A,n with an immediate operand.
    pub(crate) fn and_a_n(&mut self, memory: &Memory) -> (cycles: u8)
        requires
            memory.wf(),
        ensures
            *final(self) == (Cpu {
                registers: spec_apply_alu(4, old(self).registers, spec_bus_read(memory@, old(self).pc)),
                pc: wadd16(old(self).pc, 1),
                ..*old(self)
            }),
            cycles == 8,
    {
        let value = self.fetch_byte(memory);
        self.and_a(value);
        8
    }

    /// XOR A,B.
    pub(crate) fn xor_b(&mut self) -> (cycles: u8)
        ensures
            *final(self) == (Cpu { registers: spec_apply_alu(5, old(self).registers, old(self).registers.b), ..*old(self) }),
            cycles == 4,
    {
        let value = self.registers.b;
        self.xor_val(value)
    }

    /// XOR A,C.
    pub(crate) fn xor_c(&mut self) -> (cycles: u8)
        ensures
            *final(self) == (Cpu { registers: spec_apply_alu(5, old(self).registers, old(self).registers.c), ..*old(self) }),
            cycles == 4,
    {
        let value = self.registers.c;
        self.xor_val(value)
    }

    /// XOR A,D.
    pub(crate) fn xor_d(&mut self) -> (cycles: u8)
        ensures
            *final(self) == (Cpu { registers: spec_apply_alu(5, old(self).registers, old(self).registers.d), ..*old(self) }),
            cycles == 4,
    {
        let value = self.registers.d;
        self.xor_val(value)
    }

    /// XOR A,E.
    pub(crate) fn xor_e(&mut self) -> (cycles: u8)
        ensures
            *final(self) == (Cpu { registers: spec_apply_alu(5, old(self).registers, old(self).registers.e), ..*old(self) }),
            cycles == 4,
    {
        let value = self.registers.e;
        self.xor_val(value)
    }

    /// XOR A,H.
    pub(crate) fn xor_h(&mut self) -> (cycles: u8)
        ensures
            *final(self) == (Cpu { registers: spec_apply_alu(5, old(self).registers, old(self).registers.h), ..*old(self) }),
            cycles == 4,
    {
        let value = self.registers.h;
        self.xor_val(value)
    }

    /// XOR A,L.
    pub(crate) fn xor_l(&mut self) -> (cycles: u8)
        ensures
            *final(self) == (Cpu { registers: spec_apply_alu(5, old(self).registers, old(self).registers.l), ..*old(self) }),
            cycles == 4,
    {
        let value = self.registers.l;
        self.xor_val(value)
    }

    /// XOR A,A.
    pub(crate) fn xor_a(&mut self) -> (cycles: u8)
        ensures
            *final(self) == (Cpu { registers: spec_apply_alu(5, old(self).registers, old(self).registers.a), ..*old(self) }),
            cycles == 4,
    {
        let value = self.registers.a;
        self.xor_val(value)
    }

    /// XOR A,(HL).
    pub(crate) fn xor_hl(&mut self, memory: &Memory) -> (cycles: u8)
        requires
            memory.wf(),
        ensures
            *final(self) == (Cpu {
                registers: spec_apply_alu(5, old(self).registers, spec_bus_read(memory@, spec_hl(old(self).registers))),
                ..*old(self)
            }),
            cycles == 8,
    {
        let addr = self.registers.hl();
        let value = memory.read_byte(addr);
        self.xor_val(value);
        8
    }

    /// XOR A,n with an immediate operand.
    pub(crate) fn xor_n(&mut self, memory: &Memory) -> (cycles: u8)
        requires
            memory.wf(),
        ensures
            *final(self) == (Cpu {
                registers: spec_apply_alu(5, old(self).registers, spec_bus_read(memory@, old(self).pc)),
                pc: wadd16(old(self).pc, 1),
                ..*old(self)
            }),
            cycles == 8,
    {
        let value = self.fetch_byte(memory);
        self.xor_val(value);
        8
    }

    /// OR A,B.
    pub(crate) fn or_a_b(&mut self) -> (cycles: u8)
        ensures
            *final(self) == (Cpu { registers: spec_apply_alu(6, old(self).registers, old(self).registers.b), ..*old(self) }),
            cycles == 4,
    {
        let value = self.registers.b;
        self.or_a(value)
    }

    /// OR A,C.
    pub(crate) fn or_a_c(&mut self) -> (cycles: u8)
        ensures
            *final(self) == (Cpu { registers: spec_apply_alu(6, old(self).registers, old(self).registers.c), ..*old(self) }),
            cycles == 4,
    {
        let value = self.registers.c;
        self.or_a(value)
    }

    /// OR A,D.
    pub(crate) fn or_a_d(&mut self) -> (cycles: u8)
        ensures
            *final(self) == (Cpu { registers: spec_apply_alu(6, old(self).registers, old(self).registers.d), ..*old(self) }),
            cycles == 4,
    {
        let value = self.registers.d;
        self.or_a(value)
    }

    /// OR A,E.
    pub(crate) fn or_a_e(&mut self) -> (cycles: u8)
        ensures
            *final(self) == (Cpu { registers: spec_apply_alu(6, old(self).registers, old(self).registers.e), ..*old(self) }),
            cycles == 4,
    {
        let value = self.registers.e;
        self.or_a(value)
    }

    /// OR A,H.
    pub(crate) fn or_a_h(&mut self) -> (cycles: u8)
        ensures
            *final(self) == (Cpu { registers: spec_apply_alu(6, old(self).registers, old(self).registers.h), ..*old(self) }),
            cycles == 4,
    {
        let value = self.registers.h;
        self.or_a(value)
    }

    /// OR A,L.
    pub(crate) fn or_a_l(&mut self) -> (cycles: u8)
        ensures
            *final(self) == (Cpu { registers: spec_apply_alu(6, old(self).registers, old(self).registers.l), ..*old(self) }),
            cycles == 4,
    {
        let value = self.registers.l;
        self.or_a(value)
    }

    /// OR A,A.
    pub(crate) fn or_a_a(&mut self) -> (cycles: u8)
        ensures
            *final(self) == (Cpu { registers: spec_apply_alu(6, old(self).registers, old(self).registers.a), ..*old(self) }),
            cycles == 4,
    {
        let value = self.registers.a;
        self.or_a(value)
    }

    /// OR A,(HL).
    pub(crate) fn or_a_hl(&mut self, memory: &Memory) -> (cycles: u8)
        requires
            memory.wf(),
        ensures
            *final(self) == (Cpu {
                registers: spec_apply_alu(6, old(self).registers, spec_bus_read(memory@, spec_hl(old(self).registers))),
                ..*old(self)
            }),
            cycles == 8,
    {
        let addr = self.registers.hl();
        let value = memory.read_byte(addr);
        self.or_a(value);
        8
    }

    /// OR A,n with an immediate operand.
    pub(crate) fn or_a_n(&mut self, memory: &Memory) -> (cycles: u8)
        requires
            memory.wf(),
        ensures
            *final(self) == (Cpu {
                registers: spec_apply_alu(6, old(self).registers, spec_bus_read(memory@, old(self).pc)),
                pc: wadd16(old(self).pc, 1),
                ..*old(self)
            }),
            cycles == 8,
    {
        let value = self.fetch_byte(memory);
        self.or_a(value);
        8
    }

    /// CP A,B.
    pub(crate) fn cp_a_b(&mut self) -> (cycles: u8)
        ensures
            *final(self) == (Cpu { registers: spec_apply_alu(7, old(self).registers, old(self).registers.b), ..*old(self) }),
            cycles == 4,
    {
        let value = self.registers.b;
        self.cp_a(value)
    }

    /// CP A,C.
    pub(crate) fn cp_a_c(&mut self) -> (cycles: u8)
        ensures
            *final(self) == (Cpu { registers: spec_apply_alu(7, old(self).registers, old(self).registers.c), ..*old(self) }),
            cycles == 4,
    {
        let value = self.registers.c;
        self.cp_a(value)
    }

    /// CP A,D.
    pub(crate) fn cp_a_d(&mut self) -> (cycles: u8)
        ensures
            *final(self) == (Cpu { registers: spec_apply_alu(7, old(self).registers, old(self).registers.d), ..*old(self) }),
            cycles == 4,
    {
        let value = self.registers.d;
        self.cp_a(value)
    }

    /// CP A,E.
    pub(crate) fn cp_a_e(&mut self) -> (cycles: u8)
        ensures
            *final(self) == (Cpu { registers: spec_apply_alu(7, old(self).registers, old(self).registers.e), ..*old(self) }),
            cycles == 4,
    {
        let value = self.registers.e;
        self.cp_a(value)
    }

    /// CP A,H.
    pub(crate) fn cp_a_h(&mut self) -> (cycles: u8)
        ensures
            *final(self) == (Cpu { registers: spec_apply_alu(7, old(self).registers, old(self).registers.h), ..*old(self) }),
            cycles == 4,
    {
        let value = self.registers.h;
        self.cp_a(value)
    }

    /// CP A,L.
    pub(crate) fn cp_a_l(&mut self) -> (cycles: u8)
        ensures
            *final(self) == (Cpu { registers: spec_apply_alu(7, old(self).registers, old(self).registers.l), ..*old(self) }),
            cycles == 4,
    {
        let value = self.registers.l;
        self.cp_a(value)
    }

    /// CP A,A.
    pub(crate) fn cp_a_a(&mut self) -> (cycles: u8)
        ensures
            *final(self) == (Cpu { registers: spec_apply_alu(7, old(self).registers, old(self).registers.a), ..*old(self) }),
            cycles == 4,
    {
        let value = self.registers.a;
        self.cp_a(value)
    }

    /// CP A,(HL).
    pub(crate) fn cp_a_hl(&mut self, memory: &Memory) -> (cycles: u8)
        requires
            memory.wf(),
        ensures
            *final(self) == (Cpu {
                registers: spec_apply_alu(7, old(self).registers, spec_bus_read(memory@, spec_hl(old(self).registers))),
                ..*old(self)
            }),
            cycles == 8,
    {
        let addr = self.registers.hl();
        let value = memory.read_byte(addr);
        self.cp_a(value);
        8
    }

    /// CP A,n with an immediate operand.
    pub(crate) fn cp_a_n(&mut self, memory: &Memory) -> (cycles: u8)
        requires
            memory.wf(),
        ensures
            *final(self) == (Cpu {
                registers: spec_apply_alu(7, old(self).registers, spec_bus_read(memory@, old(self).pc)),
                pc: wadd16(old(self).pc, 1),
                ..*old(self)
            }),
            cycles == 8,
    {
        let value = self.fetch_byte(memory);
        self.cp_a(value);
        8
    }

    /// INC B: C is preserved.
    pub(crate) fn inc_b(&mut self) -> (cycles: u8)
        ensures
            *final(self) == (Cpu {
                registers: Registers {
                    b: alu_inc(old(self).registers.b, old(self).registers.f).r,
                    f: alu_inc(old(self).registers.b, old(self).registers.f).f,
                    ..old(self).registers
                },
                ..*old(self)
            }),
            cycles == 4,
    {
        self.registers.f.h = self.registers.b % 16 == 15;
        self.registers.b = self.registers.b.wrapping_add(1);
        self.registers.f.z = self.registers.b == 0;
        self.registers.f.n = false;
        4
    }

    /// DEC B: C is preserved.
    pub(crate) fn dec_b(&mut self) -> (cycles: u8)
        ensures
            *final(self) == (Cpu {
                registers: Registers {
                    b: alu_dec(old(self).registers.b, old(self).registers.f).r,
                    f: alu_dec(old(self).registers.b, old(self).registers.f).f,
                    ..old(self).registers
                },
                ..*old(self)
            }),
            cycles == 4,
    {
        self.registers.f.h = self.registers.b % 16 == 0;
        self.registers.b = self.registers.b.wrapping_sub(1);
        self.registers.f.z = self.registers.b == 0;
        self.registers.f.n = true;
        4
    }

    /// INC C: C is preserved.
    pub(crate) fn inc_c(&mut self) -> (cycles: u8)
        ensures
            *final(self) == (Cpu {
                registers: Registers {
                    c: alu_inc(old(self).registers.c, old(self).registers.f).r,
                    f: alu_inc(old(self).registers.c, old(self).registers.f).f,
                    ..old(self).registers
                },
                ..*old(self)
            }),
            cycles == 4,
    {
        self.registers.f.h = self.registers.c % 16 == 15;
        self.registers.c = self.registers.c.wrapping_add(1);
        self.registers.f.z = self.registers.c == 0;
        self.registers.f.n = false;
        4
    }

    /// DEC C: C is preserved.
    pub(crate) fn dec_c(&mut self) -> (cycles: u8)
        ensures
            *final(self) == (Cpu {
                registers: Registers {
                    c: alu_dec(old(self).registers.c, old(self).registers.f).r,
                    f: alu_dec(old(self).registers.c, old(self).registers.f).f,
                    ..old(self).registers
                },
                ..*old(self)
            }),
            cycles == 4,
    {
        self.registers.f.h = self.registers.c % 16 == 0;
        self.registers.c = self.registers.c.wrapping_sub(1);
        self.registers.f.z = self.registers.c == 0;
        self.registers.f.n = true;
        4
    }

    /// INC D: C is preserved.
    pub(crate) fn inc_d(&mut self) -> (cycles: u8)
        ensures
            *final(self) == (Cpu {
                registers: Registers {
                    d: alu_inc(old(self).registers.d, old(self).registers.f).r,
                    f: alu_inc(old(self).registers.d, old(self).registers.f).f,
                    ..old(self).registers
                },
                ..*old(self)
            }),
            cycles == 4,
    {
        self.registers.f.h = self.registers.d % 16 == 15;
        self.registers.d = self.registers.d.wrapping_add(1);
        self.registers.f.z = self.registers.d == 0;
        self.registers.f.n = false;
        4
    }

    /// DEC D: C is preserved.
    pub(crate) fn dec_d(&mut self) -> (cycles: u8)
        ensures
            *final(self) == (Cpu {
                registers: Registers {
                    d: alu_dec(old(self).registers.d, old(self).registers.f).r,
                    f: alu_dec(old(self).registers.d, old(self).registers.f).f,
                    ..old(self).registers
                },
                ..*old(self)
            }),
            cycles == 4,
    {
        self.registers.f.h = self.registers.d % 16 == 0;
        self.registers.d = self.registers.d.wrapping_sub(1);
        self.registers.f.z = self.registers.d == 0;
        self.registers.f.n = true;
        4
    }

    /// INC E: C is preserved.
    pub(crate) fn inc_e(&mut self) -> (cycles: u8)
        ensures
            *final(self) == (Cpu {
                registers: Registers {
                    e: alu_inc(old(self).registers.e, old(self).registers.f).r,
                    f: alu_inc(old(self).registers.e, old(self).registers.f).f,
                    ..old(self).registers
                },
                ..*old(self)
            }),
            cycles == 4,
    {
        self.registers.f.h = self.registers.e % 16 == 15;
        self.registers.e = self.registers.e.wrapping_add(1);
        self.registers.f.z = self.registers.e == 0;
        self.registers.f.n = false;
        4
    }

    /// DEC E: C is preserved.
    pub(crate) fn dec_e(&mut self) -> (cycles: u8)
        ensures
            *final(self) == (Cpu {
                registers: Registers {
                    e: alu_dec(old(self).registers.e, old(self).registers.f).r,
                    f: alu_dec(old(self).registers.e, old(self).registers.f).f,
                    ..old(self).registers
                },
                ..*old(self)
            }),
            cycles == 4,
    {
        self.registers.f.h = self.registers.e % 16 == 0;
        self.registers.e = self.registers.e.wrapping_sub(1);
        self.registers.f.z = self.registers.e == 0;
        self.registers.f.n = true;
        4
    }

    /// INC H: C is preserved.
    pub(crate) fn inc_h(&mut self) -> (cycles: u8)
        ensures
            *final(self) == (Cpu {
                registers: Registers {
                    h: alu_inc(old(self).registers.h, old(self).registers.f).r,
                    f: alu_inc(old(self).registers.h, old(self).registers.f).f,
                    ..old(self).registers
                },
                ..*old(self)
            }),
            cycles == 4,
    {
        self.registers.f.h = self.registers.h % 16 == 15;
        self.registers.h = self.registers.h.wrapping_add(1);
        self.registers.f.z = self.registers.h == 0;
        self.registers.f.n = false;
        4
    }

    /// DEC H: C is preserved.
    pub(crate) fn dec_h(&mut self) -> (cycles: u8)
        ensures
            *final(self) == (Cpu {
                registers: Registers {
                    h: alu_dec(old(self).registers.h, old(self).registers.f).r,
                    f: alu_dec(old(self).registers.h, old(self).registers.f).f,
                    ..old(self).registers
                },
                ..*old(self)
            }),
            cycles == 4,
    {
        self.registers.f.h = self.registers.h % 16 == 0;
        self.registers.h = self.registers.h.wrapping_sub(1);
        self.registers.f.z = self.registers.h == 0;
        self.registers.f.n = true;
        4
    }

    /// INC L: C is preserved.
    pub(crate) fn inc_l(&mut self) -> (cycles: u8)
        ensures
            *final(self) == (Cpu {
                registers: Registers {
                    l: alu_inc(old(self).registers.l, old(self).registers.f).r,
                    f: alu_inc(old(self).registers.l, old(self).registers.f).f,
                    ..old(self).registers
                },
                ..*old(self)
            }),
            cycles == 4,
    {
        self.registers.f.h = self.registers.l % 16 == 15;
        self.registers.l = self.registers.l.wrapping_add(1);
        self.registers.f.z = self.registers.l == 0;
        self.registers.f.n = false;
        4
    }

    /// DEC L: C is preserved.
    pub(crate) fn dec_l(&mut self) -> (cycles: u8)
        ensures
            *final(self) == (Cpu {
                registers: Registers {
                    l: alu_dec(old(self).registers.l, old(self).registers.f).r,
                    f: alu_dec(old(self).registers.l, old(self).registers.f).f,
                    ..old(self).registers
                },
                ..*old(self)
            }),
            cycles == 4,
    {
        self.registers.f.h = self.registers.l % 16 == 0;
        self.registers.l = self.registers.l.wrapping_sub(1);
        self.registers.f.z = self.registers.l == 0;
        self.registers.f.n = true;
        4
    }

    /// INC A: C is preserved.
    pub(crate) fn inc_a(&mut self) -> (cycles: u8)
        ensures
            *final(self) == (Cpu {
                registers: Registers {
                    a: alu_inc(old(self).registers.a, old(self).registers.f).r,
                    f: alu_inc(old(self).registers.a, old(self).registers.f).f,
                    ..old(self).registers
                },
                ..*old(self)
            }),
            cycles == 4,
    {
        self.registers.f.h = self.registers.a % 16 == 15;
        self.registers.a = self.registers.a.wrapping_add(1);
        self.registers.f.z = self.registers.a == 0;
        self.registers.f.n = false;
        4
    }

    /// DEC A: C is preserved.
    pub(crate) fn dec_a(&mut self) -> (cycles: u8)
        ensures
            *final(self) == (Cpu {
                registers: Registers {
                    a: alu_dec(old(self).registers.a, old(self).registers.f).r,
                    f: alu_dec(old(self).registers.a, old(self).registers.f).f,
                    ..old(self).registers
                },
                ..*old(self)
            }),
            cycles == 4,
    {
        self.registers.f.h = self.registers.a % 16 == 0;
        self.registers.a = self.registers.a.wrapping_sub(1);
        self.registers.f.z = self.registers.a == 0;
        self.registers.f.n = true;
        4
    }

    /// INC (HL): the byte at HL, C preserved.
    pub(crate) fn inc_hl(&mut self, memory: &mut Memory) -> (cycles: u8)
        requires
            old(memory).wf(),
        ensures
            final(memory).wf(),
            final(memory)@ == spec_bus_write(
                old(memory)@,
                spec_hl(old(self).registers),
                alu_inc(spec_bus_read(old(memory)@, spec_hl(old(self).registers)), old(self).registers.f).r,
            ),
            *final(self) == (Cpu {
                registers: Registers {
                    f: alu_inc(spec_bus_read(old(memory)@, spec_hl(old(self).registers)), old(self).registers.f).f,
                    ..old(self).registers
                },
                ..*old(self)
            }),
            cycles == 12,
    {
        let addr = self.registers.hl();
        let value = memory.read_byte(addr);
        self.registers.f.h = value % 16 == 15;
        let result = value.wrapping_add(1);
        memory.write_byte(addr, result);
        self.registers.f.z = result == 0;
        self.registers.f.n = false;
        12
    }

    /// DEC (HL): the byte at HL, C preserved.
    pub(crate) fn dec_hl(&mut self, memory: &mut Memory) -> (cycles: u8)
        requires
            old(memory).wf(),
        ensures
            final(memory).wf(),
            final(memory)@ == spec_bus_write(
                old(memory)@,
                spec_hl(old(self).registers),
                alu_dec(spec_bus_read(old(memory)@, spec_hl(old(self).registers)), old(self).registers.f).r,
            ),
            *final(self) == (Cpu {
                registers: Registers {
                    f: alu_dec(spec_bus_read(old(memory)@, spec_hl(old(self).registers)), old(self).registers.f).f,
                    ..old(self).registers
                },
                ..*old(self)
            }),
            cycles == 12,
    {
        let addr = self.registers.hl();
        let value = memory.read_byte(addr);
        self.registers.f.h = value % 16 == 0;
        let result = value.wrapping_sub(1);
        memory.write_byte(addr, result);
        self.registers.f.z = result == 0;
        self.registers.f.n = true;
        12
    }

    /// INC BC: no flags change.
    pub(crate) fn inc_bc(&mut self) -> (cycles: u8)
        ensures
            *final(self) == (Cpu {
                registers: set_bc16(old(self).registers, wadd16(spec_bc(old(self).registers), 1)),
                ..*old(self)
            }),
            cycles == 8,
    {
        let value = self.registers.bc();
        self.registers.set_bc(value.wrapping_add(1));
        8
    }

    /// DEC BC: no flags change.
    pub(crate) fn dec_bc(&mut self) -> (cycles: u8)
        ensures
            *final(self) == (Cpu {
                registers: set_bc16(old(self).registers, wadd16(spec_bc(old(self).registers), -1)),
                ..*old(self)
            }),
            cycles == 8,
    {
        let value = self.registers.bc();
        self.registers.set_bc(value.wrapping_sub(1));
        8
    }

    /// INC DE: no flags change.
    pub(crate) fn inc_de(&mut self) -> (cycles: u8)
        ensures
            *final(self) == (Cpu {
                registers: set_de16(old(self).registers, wadd16(spec_de(old(self).registers), 1)),
                ..*old(self)
            }),
            cycles == 8,
    {
        let value = self.registers.de();
        self.registers.set_de(value.wrapping_add(1));
        8
    }

    /// DEC DE: no flags change.
    pub(crate) fn dec_de(&mut self) -> (cycles: u8)
        ensures
            *final(self) == (Cpu {
                registers: set_de16(old(self).registers, wadd16(spec_de(old(self).registers), -1)),
                ..*old(self)
            }),
            cycles == 8,
    {
        let value = self.registers.de();
        self.registers.set_de(value.wrapping_sub(1));
        8
    }

    /// INC HL: no flags change.
    pub(crate) fn inc_hl_16(&mut self) -> (cycles: u8)
        ensures
            *final(self) == (Cpu {
                registers: set_hl16(old(self).registers, wadd16(spec_hl(old(self).registers), 1)),
                ..*old(self)
            }),
            cycles == 8,
    {
        let value = self.registers.hl();
        self.registers.set_hl(value.wrapping_add(1));
        8
    }

    /// DEC HL: no flags change.
    pub(crate) fn dec_hl_16(&mut self) -> (cycles: u8)
        ensures
            *final(self) == (Cpu {
                registers: set_hl16(old(self).registers, wadd16(spec_hl(old(self).registers), -1)),
                ..*old(self)
            }),
            cycles == 8,
    {
        let value = self.registers.hl();
        self.registers.set_hl(value.wrapping_sub(1));
        8
    }

    /// INC SP: no flags change.
    pub(crate) fn inc_sp(&mut self) -> (cycles: u8)
        ensures
            *final(self) == (Cpu { sp: wadd16(old(self).sp, 1), ..*old(self) }),
            cycles == 8,
    {
        self.sp = self.sp.wrapping_add(1);
        8
    }

    /// DEC SP: no flags change.
    pub(crate) fn dec_sp(&mut self) -> (cycles: u8)
        ensures
            *final(self) == (Cpu { sp: wadd16(old(self).sp, -1), ..*old(self) }),
            cycles == 8,
    {
        self.sp = self.sp.wrapping_sub(1);
        8
    }

    /// NOP.
    pub(crate) fn nop(&mut self) -> (cycles: u8)
        ensures
            *final(self) == *old(self),
            cycles == 4,
    {
        4
    }

    /// HALT: suspend until an interrupt is pending.
    pub(crate) fn halt(&mut self) -> (cycles: u8)
        ensures
            *final(self) == (Cpu { halted: true, ..*old(self) }),
            cycles == 4,
    {
        self.halted = true;
        4
    }

    /// DI: clear the interrupt-master-enable latch.
    pub(crate) fn di(&mut self) -> (cycles: u8)
        ensures
            *final(self) == (Cpu { interrupts_enabled: false, ..*old(self) }),
            cycles == 4,
    {
        self.interrupts_enabled = false;
        4
    }

    /// EI: set the interrupt-master-enable latch.
    pub(crate) fn ei(&mut self) -> (cycles: u8)
        ensures
            *final(self) == (Cpu { interrupts_enabled: true, ..*old(self) }),
            cycles == 4,
    {
        self.interrupts_enabled = true;
        4
    }

    /// SCF: set the carry, clear N and H.
    pub(crate) fn scf(&mut self) -> (cycles: u8)
        ensures
            *final(self) == (Cpu {
                registers: Registers {
                    f: Flags { z: old(self).registers.f.z, n: false, h: false, c: true },
                    ..old(self).registers
                },
                ..*old(self)
            }),
            cycles == 4,
    {
        self.registers.f.n = false;
        self.registers.f.h = false;
        self.registers.f.c = true;
        4
    }

    /// CCF: invert the carry, clear N and H.
    pub(crate) fn ccf(&mut self) -> (cycles: u8)
        ensures
            *final(self) == (Cpu {
                registers: Registers {
                    f: Flags { z: old(self).registers.f.z, n: false, h: false, c: !old(self).registers.f.c },
                    ..old(self).registers
                },
                ..*old(self)
            }),
            cycles == 4,
    {
        self.registers.f.n = false;
        self.registers.f.h = false;
        self.registers.f.c = !self.registers.f.c;
        4
    }

    /// CPL: invert every bit of A, set N and H.
    pub(crate) fn cpl(&mut self) -> (cycles: u8)
        ensures
            *final(self) == (Cpu {
                registers: Registers {
                    a: (255 - old(self).registers.a) as u8,
                    f: Flags { z: old(self).registers.f.z, n: true, h: true, c: old(self).registers.f.c },
                    ..old(self).registers
                },
                ..*old(self)
            }),
            cycles == 4,
    {
        self.registers.a = 255 - self.registers.a;
        self.registers.f.n = true;
        self.registers.f.h = true;
        4
    }

    /// DAA: BCD adjust of A after an add or subtract.
    pub(crate) fn daa(&mut self) -> (cycles: u8)
        ensures
            *final(self) == (Cpu {
                registers: Registers {
                    a: alu_daa(old(self).registers.a, old(self).registers.f).r,
                    f: alu_daa(old(self).registers.a, old(self).registers.f).f,
                    ..old(self).registers
                },
                ..*old(self)
            }),
            cycles == 4,
    {
        let a = self.registers.a;
        let mut adjust: u8 = 0;
        if self.registers.f.h || (!self.registers.f.n && a % 16 > 9) {
            adjust = adjust + 0x06;
        }
        if self.registers.f.c || (!self.registers.f.n && a > 0x99) {
            adjust = adjust + 0x60;
            self.registers.f.c = true;
        }
        let result = if self.registers.f.n {
            a.wrapping_sub(adjust)
        } else {
            a.wrapping_add(adjust)
        };
        self.registers.a = result;
        self.registers.f.z = result == 0;
        self.registers.f.h = false;
        4
    }

    /// RLCA: rotate A left; unlike the CB-prefixed RLC, Z is forced to 0.
    pub(crate) fn rlca(&mut self) -> (cycles: u8)
        ensures
            *final(self) == (Cpu {
                registers: Registers {
                    a: rot_rlc(old(self).registers.a).r,
                    f: Flags { z: false, n: false, h: false, c: rot_rlc(old(self).registers.a).f.c },
                    ..old(self).registers
                },
                ..*old(self)
            }),
            cycles == 4,
    {
        let a = self.registers.a;
        let carry = a >= 128;
        self.registers.a = a % 128 * 2 + a / 128;
        self.registers.f.z = false;
        self.registers.f.n = false;
        self.registers.f.h = false;
        self.registers.f.c = carry;
        4
    }

    /// RRCA: rotate A right; Z is forced to 0.
    pub(crate) fn rrca(&mut self) -> (cycles: u8)
        ensures
            *final(self) == (Cpu {
                registers: Registers {
                    a: rot_rrc(old(self).registers.a).r,
                    f: Flags { z: false, n: false, h: false, c: rot_rrc(old(self).registers.a).f.c },
                    ..old(self).registers
                },
                ..*old(self)
            }),
            cycles == 4,
    {
        let a = self.registers.a;
        let carry = a % 2 == 1;
        self.registers.a = a % 2 * 128 + a / 2;
        self.registers.f.z = false;
        self.registers.f.n = false;
        self.registers.f.h = false;
        self.registers.f.c = carry;
        4
    }

    /// RLA: rotate A left through the carry; Z is forced to 0.
    pub(crate) fn rla(&mut self) -> (cycles: u8)
        ensures
            *final(self) == (Cpu {
                registers: Registers {
                    a: rot_rl(old(self).registers.a, old(self).registers.f.c).r,
                    f: Flags {
                        z: false,
                        n: false,
                        h: false,
                        c: rot_rl(old(self).registers.a, old(self).registers.f.c).f.c,
                    },
                    ..old(self).registers
                },
                ..*old(self)
            }),
            cycles == 4,
    {
        let a = self.registers.a;
        let old_carry: u8 = if self.registers.f.c {
            1
        } else {
            0
        };
        let new_carry = a >= 128;
        self.registers.a = a % 128 * 2 + old_carry;
        self.registers.f.z = false;
        self.registers.f.n = false;
        self.registers.f.h = false;
        self.registers.f.c = new_carry;
        4
    }

    /// RRA: rotate A right through the carry; Z is forced to 0.
    pub(crate) fn rra(&mut self) -> (cycles: u8)
        ensures
            *final(self) == (Cpu {
                registers: Registers {
                    a: rot_rr(old(self).registers.a, old(self).registers.f.c).r,
                    f: Flags {
                        z: false,
                        n: false,
                        h: false,
                        c: rot_rr(old(self).registers.a, old(self).registers.f.c).f.c,
                    },
                    ..old(self).registers
                },
                ..*old(self)
            }),
            cycles == 4,
    {
        let a = self.registers.a;
        let old_carry: u8 = if self.registers.f.c {
            128
        } else {
            0
        };
        let new_carry = a % 2 == 1;
        self.registers.a = old_carry + a / 2;
        self.registers.f.z = false;
        self.registers.f.n = false;
        self.registers.f.h = false;
        self.registers.f.c = new_carry;
        4
    }

}

} // verus!
